use vstd::prelude::*;
use crate::geometry::position::{fits_shift, pos_at, Movement, MoveX, MoveY, Pos};
use vstd::arithmetic::div_mod::lemma_fundamental_div_mod_converse;

verus! {

/// A rectangular region of interest on a grid.
#[derive(Debug, Clone, Copy, PartialEq, Eq, Structural)]
pub struct RegionOfInterest {
    /// Position of the upper left corner, in the parent's coordinates.
    pub left_top: Pos,
    /// Width and height of the region.
    pub size: Movement,
}

impl RegionOfInterest {
    /// The size is non-negative and the corner opposite to `left_top` is representable.
    pub open spec fn wf(self) -> bool {
        &&& self.size.dx() >= 0
        &&& self.size.dy() >= 0
        &&& fits_shift(self.left_top.sx() + self.size.dx())
        &&& fits_shift(self.left_top.sy() + self.size.dy())
    }

    /// Whether `p` lies inside the region.
    pub open spec fn spec_contains(self, p: Pos) -> bool {
        &&& self.left_top.sx() <= p.sx() < self.left_top.sx() + self.size.dx()
        &&& self.left_top.sy() <= p.sy() < self.left_top.sy() + self.size.dy()
    }

    pub fn new(left_top: Pos, size: Movement) -> (r: RegionOfInterest)
        requires
            size.dx() >= 0,
            size.dy() >= 0,
            fits_shift(left_top.sx() + size.dx()),
            fits_shift(left_top.sy() + size.dy()),
        ensures
            r.left_top == left_top,
            r.size == size,
            r.wf(),
    {
        RegionOfInterest { left_top, size }
    }

    /// The lower right cell of the region.
    pub fn right_below(&self) -> (r: Pos)
        requires
            self.wf(),
            fits_shift(self.left_top.sx() + self.size.dx() - 1),
            fits_shift(self.left_top.sy() + self.size.dy() - 1),
        ensures
            r.sx() == self.left_top.sx() + self.size.dx() - 1,
            r.sy() == self.left_top.sy() + self.size.dy() - 1,
    {
        let x = self.left_top.0.right_shift + self.size.0.0;
        let y = self.left_top.1.below_shift + self.size.1.0;
        pos_at(x - 1, y - 1)
    }

    /// Whether `pos` lies inside the region.
    pub fn contains(&self, pos: Pos) -> (r: bool)
        requires
            self.wf(),
        ensures
            r == self.spec_contains(pos),
    {
        let right_below = self.left_top + self.size;
        pos.0.right_shift >= self.left_top.0.right_shift
            && pos.0.right_shift < right_below.0.right_shift
            && pos.1.below_shift >= self.left_top.1.below_shift
            && pos.1.below_shift < right_below.1.below_shift
    }

    /// The cells of the region, row by row from the top, each row from the left.
    pub fn iter_pos(&self) -> (r: Vec<Pos>)
        requires
            self.wf(),
        ensures
            r@.len() == self.size.dx() * self.size.dy(),
            forall|i: int|
                0 <= i < r@.len() ==> {
                    &&& (#[trigger] r@[i]).sx() == self.left_top.sx() + i % self.size.dx()
                    &&& r@[i].sy() == self.left_top.sy() + i / self.size.dx()
                },
    {
        let width = self.size.0.0;
        let height = self.size.1.0;
        let lx = self.left_top.0.right_shift;
        let ly = self.left_top.1.below_shift;
        let mut out: Vec<Pos> = Vec::new();
        let mut y: i8 = 0;
        while y < height
            invariant
                width == self.size.dx(),
                height == self.size.dy(),
                lx == self.left_top.sx(),
                ly == self.left_top.sy(),
                self.wf(),
                0 <= y <= height,
                out@.len() == y * width,
                forall|i: int|
                    0 <= i < out@.len() ==> {
                        &&& (#[trigger] out@[i]).sx() == lx + i % (width as int)
                        &&& out@[i].sy() == ly + i / (width as int)
                    },
            decreases height - y,
        {
            let mut x: i8 = 0;
            while x < width
                invariant
                    width == self.size.dx(),
                    height == self.size.dy(),
                    lx == self.left_top.sx(),
                    ly == self.left_top.sy(),
                    self.wf(),
                    0 <= y < height,
                    0 <= x <= width,
                    out@.len() == y * width + x,
                    forall|i: int|
                        0 <= i < out@.len() ==> {
                            &&& (#[trigger] out@[i]).sx() == lx + i % (width as int)
                            &&& out@[i].sy() == ly + i / (width as int)
                        },
                decreases width - x,
            {
                let idx: Ghost<int> = Ghost(y * width + x);
                proof {
                    lemma_fundamental_div_mod_converse(idx@, width as int, y as int, x as int);
                }
                out.push(pos_at(lx + x, ly + y));
                x = x + 1;
            }
            proof {
                assert((y + 1) * width == y * width + width) by (nonlinear_arith);
            }
            y = y + 1;
        }
        proof {
            assert(height * width == width * height) by (nonlinear_arith);
        }
        out
    }
}

} // verus!
