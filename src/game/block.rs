use vstd::prelude::*;
use crate::game::block_template::{block_pos, occupied_prefix, Block, BLOCK_CELLS};
use crate::game::cell::Cell;
use crate::geometry::position::{fits_shift, spec_pos, MoveX, MoveY, Movement, Pos};

verus! {

/// Anchors from which a 5x5 block table can reach the field: one cell of the table at
/// least lies on it.
pub open spec fn in_reach(p: Pos) -> bool {
    -4 <= p.sx() <= 9 && -4 <= p.sy() <= 19
}

/// A block on the field under the player's control.
#[derive(Debug, Clone, Copy, PartialEq, Eq)]
pub struct ControlledBlock {
    /// The block.
    pub block: Block,
    /// Field position of the upper left cell of the block's table.
    pub left_top: Pos,
}

impl ControlledBlock {
    pub fn new(block: Block, left_top: Pos) -> (r: ControlledBlock)
        ensures
            r.block == block,
            r.left_top == left_top,
    {
        ControlledBlock { block, left_top }
    }

    /// The occupied cells of the block with their field positions, in the order of
    /// `Block::iter_pos_and_occupied_cell`.
    pub fn iter_pos_and_occupied_cell(&self) -> (r: Vec<(Pos, Cell)>)
        requires
            in_reach(self.left_top),
        ensures
            r@.len() == occupied_prefix(self.block.cells@, BLOCK_CELLS as int).len(),
            forall|i: int|
                0 <= i < r@.len() ==> {
                    let (p, c) = occupied_prefix(self.block.cells@, BLOCK_CELLS as int)[i];
                    #[trigger] r@[i] == (spec_pos(p.sx() + self.left_top.sx(), p.sy() + self.left_top.sy()), c)
                },
    {
        let cells = self.block.iter_pos_and_occupied_cell();
        let ghost occ = occupied_prefix(self.block.cells@, BLOCK_CELLS as int);
        proof {
            lemma_occupied_positions(self.block.cells@, BLOCK_CELLS as int);
        }
        let mut out: Vec<(Pos, Cell)> = Vec::new();
        let mut i: usize = 0;
        while i < cells.len()
            invariant
                cells@ == occ,
                occ == occupied_prefix(self.block.cells@, BLOCK_CELLS as int),
                in_reach(self.left_top),
                forall|k: int| 0 <= k < occ.len() ==> 0 <= (#[trigger] occ[k]).0.sx() < 5 && 0 <= occ[k].0.sy() < 5,
                0 <= i <= cells@.len(),
                out@.len() == i,
                forall|k: int|
                    0 <= k < i ==> {
                        let (p, c) = occ[k];
                        #[trigger] out@[k] == (spec_pos(p.sx() + self.left_top.sx(), p.sy() + self.left_top.sy()), c)
                    },
            decreases cells@.len() - i,
        {
            let (p, c) = cells[i];
            let q = p + Movement(MoveX(self.left_top.0.right_shift), MoveY(self.left_top.1.below_shift));
            out.push((q, c));
            i = i + 1;
        }
        out
    }

    /// The same block moved by `movement`.
    pub fn move_by(&self, movement: Movement) -> (r: ControlledBlock)
        requires
            fits_shift(self.left_top.sx() + movement.dx()),
            fits_shift(self.left_top.sy() + movement.dy()),
        ensures
            r.block == self.block,
            r.left_top.sx() == self.left_top.sx() + movement.dx(),
            r.left_top.sy() == self.left_top.sy() + movement.dy(),
    {
        ControlledBlock { block: self.block, left_top: self.left_top + movement }
    }

    /// The block turned a quarter clockwise, at the same anchor.
    pub fn rotate_clockwise(&self) -> (r: ControlledBlock)
        ensures
            r.block@ == self.block@.rotated_clockwise(),
            r.left_top == self.left_top,
    {
        Self::new(self.block.rotate_clockwise(), self.left_top)
    }

    /// The block turned a quarter anticlockwise, at the same anchor.
    pub fn rotate_unticlockwise(&self) -> (r: ControlledBlock)
        ensures
            r.block@ == self.block@.rotated_unticlockwise(),
            r.left_top == self.left_top,
    {
        Self::new(self.block.rotate_unticlockwise(), self.left_top)
    }
}

/// The positions listed by `occupied_prefix` lie in the block table.
proof fn lemma_occupied_positions(cells: Seq<Cell>, n: int)
    requires
        0 <= n <= BLOCK_CELLS,
    ensures
        forall|k: int|
            0 <= k < occupied_prefix(cells, n).len() ==> 0 <= (#[trigger] occupied_prefix(cells, n)[k]).0.sx() < 5
                && 0 <= occupied_prefix(cells, n)[k].0.sy() < 5,
    decreases n,
{
    if n > 0 {
        lemma_occupied_positions(cells, n - 1);
        let prev = occupied_prefix(cells, n - 1);
        let cur = occupied_prefix(cells, n);
        assert(0 <= (n - 1) % 5 < 5);
        assert(0 <= (n - 1) / 5 < 5);
        assert forall|k: int| 0 <= k < cur.len() implies 0 <= (#[trigger] cur[k]).0.sx() < 5 && 0
            <= cur[k].0.sy() < 5 by {
            if k < prev.len() {
                assert(cur[k] == prev[k]);
            }
        }
    }
}

} // verus!
