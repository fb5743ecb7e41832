use vstd::prelude::*;
use crate::game::block::in_reach;
use crate::game::block_queue::{fresh_block, NextBlockQueue, NEXT_BLOCK_NUM};
use crate::game::block_template::{Block, BlockSelector, BlockView};
use crate::game::cell::Cell;
use crate::game::field::{in_field, Field};
use crate::game::field_under_agent_control::{
    can_place, find_block_appearance_pos, lemma_spawn_on_empty_field, find_kick_pos, is_drop_distance, is_placeable,
    kick_search, spawn_search,
};
use crate::geometry::position::{pos_at, spec_pos, Pos};

verus! {

/// Whether an operation on the controlled block took effect.
#[derive(Debug, Clone, Copy, PartialEq, Eq, Structural)]
pub enum OperationResult {
    /// The block moved, turned or was exchanged.
    Done,
    /// Nothing changed.
    Stay,
}

/// A field with a controlled block, its next blocks and its held block.
#[derive(Debug)]
pub struct AgentField {
    pub field: Field,
    pub current_block: Block,
    pub current_block_pos: Pos,
    pub next_blocks: NextBlockQueue,
    pub hold_block: Block,
}

impl AgentField {
    /// The current block can be placed where it is.
    pub open spec fn wf(&self) -> bool {
        can_place(self.field, self.current_block.cells@, self.current_block_pos)
    }

    /// The same state with the current block at `p`.
    pub open spec fn moved_to(self, p: Pos) -> AgentField {
        AgentField {
            field: self.field,
            current_block: self.current_block,
            current_block_pos: p,
            next_blocks: self.next_blocks,
            hold_block: self.hold_block,
        }
    }

    /// The result of moving the current block to `p` where it can be placed there.
    pub open spec fn spec_shift(self, p: Pos) -> (AgentField, OperationResult) {
        if can_place(self.field, self.current_block.cells@, p) {
            (self.moved_to(p), OperationResult::Done)
        } else {
            (self, OperationResult::Stay)
        }
    }

    /// The result of turning the current block into `turned`.
    pub open spec fn is_turned(self, r: (AgentField, OperationResult), turned: BlockView) -> bool {
        match kick_search(self.field, turned.cells, self.current_block_pos) {
            Some(p) => r.1 == OperationResult::Done && r.0.field == self.field
                && r.0.current_block@ == turned && r.0.current_block_pos == p
                && r.0.next_blocks == self.next_blocks && r.0.hold_block == self.hold_block,
            None => r == (self, OperationResult::Stay),
        }
    }

    /// An empty field with a first block from `selector` where it appears, then the next
    /// blocks and the held block; `None` where the first block cannot appear.
    pub fn new<S: BlockSelector>(selector: &mut S) -> (r: AgentField)
        ensures
            r.wf(),
            forall|x: int, y: int| in_field(x, y) ==> #[trigger] r.field.at(x, y) == Cell::Empty,
            Some(r.current_block_pos) == spawn_search(r.field, r.current_block.cells@),
            fresh_block(r.current_block),
            fresh_block(r.hold_block),
            forall|i: int| 0 <= i < NEXT_BLOCK_NUM ==> fresh_block(#[trigger] r.next_blocks.blocks@[i]),
    {
        let field = Field::empty();
        let current_block = selector.generate_block();
        proof {
            lemma_spawn_on_empty_field(field, current_block.cells@);
            crate::game::field_under_agent_control::lemma_spawn_in_reach(
                field,
                current_block.cells@,
                0,
            );
        }
        let current_block_pos = match find_block_appearance_pos(&field, &current_block) {
            Some(p) => p,
            None => {
                proof {
                    assert(false);
                }
                Pos::origin()
            },
        };
        let next_blocks = NextBlockQueue::fill(selector);
        let hold_block = selector.generate_block();
        AgentField { field, current_block, current_block_pos, next_blocks, hold_block }
    }

    fn shift_to(self, next_pos: Pos) -> (r: (AgentField, OperationResult))
        requires
            self.wf(),
        ensures
            r == self.spec_shift(next_pos),
            r.0.wf(),
    {
        if is_placeable(&self.field, &self.current_block, next_pos) {
            (
                AgentField {
                    field: self.field,
                    current_block: self.current_block,
                    current_block_pos: next_pos,
                    next_blocks: self.next_blocks,
                    hold_block: self.hold_block,
                },
                OperationResult::Done,
            )
        } else {
            (self, OperationResult::Stay)
        }
    }

    /// Moves the current block one cell left where it can be placed there.
    pub fn move_block_to_left(self) -> (r: (AgentField, OperationResult))
        requires
            self.wf(),
        ensures
            r == self.spec_shift(spec_pos(self.current_block_pos.sx() - 1, self.current_block_pos.sy())),
            r.0.wf(),
    {
        let p = self.current_block_pos;
        self.shift_to(pos_at(p.0.right_shift - 1, p.1.below_shift))
    }

    /// Moves the current block one cell right where it can be placed there.
    pub fn move_block_to_right(self) -> (r: (AgentField, OperationResult))
        requires
            self.wf(),
        ensures
            r == self.spec_shift(spec_pos(self.current_block_pos.sx() + 1, self.current_block_pos.sy())),
            r.0.wf(),
    {
        let p = self.current_block_pos;
        self.shift_to(pos_at(p.0.right_shift + 1, p.1.below_shift))
    }

    /// Moves the current block one cell down where it can be placed there.
    pub fn move_block_down(self) -> (r: (AgentField, OperationResult))
        requires
            self.wf(),
        ensures
            r == self.spec_shift(spec_pos(self.current_block_pos.sx(), self.current_block_pos.sy() + 1)),
            r.0.wf(),
    {
        let p = self.current_block_pos;
        self.shift_to(pos_at(p.0.right_shift, p.1.below_shift + 1))
    }

    /// Moves the current block down as far as it can be placed.
    pub fn drop_block(self) -> (r: (AgentField, OperationResult))
        requires
            self.wf(),
        ensures
            r.1 == OperationResult::Done,
            r.0.wf(),
            exists|d: int|
                is_drop_distance(self.field, self.current_block.cells@, self.current_block_pos, d)
                    && r.0 == self.moved_to(
                    spec_pos(self.current_block_pos.sx(), self.current_block_pos.sy() + d),
                ),
    {
        let anchor = self.current_block_pos;
        let ax = anchor.0.right_shift;
        let ay = anchor.1.below_shift;
        let mut drop_shift: i8 = 0;
        while is_placeable(&self.field, &self.current_block, pos_at(ax, ay + drop_shift + 1))
            invariant
                self.wf(),
                anchor == self.current_block_pos,
                ax == anchor.sx(),
                ay == anchor.sy(),
                0 <= drop_shift,
                ay + drop_shift <= 19,
                drop_shift > 0 ==> can_place(
                    self.field,
                    self.current_block.cells@,
                    spec_pos(anchor.sx(), anchor.sy() + drop_shift),
                ),
                forall|k: int|
                    1 <= k <= drop_shift ==> #[trigger] can_place(
                        self.field,
                        self.current_block.cells@,
                        spec_pos(anchor.sx(), anchor.sy() + k),
                    ),
            decreases 19 - (ay + drop_shift),
        {
            drop_shift = drop_shift + 1;
        }
        let next_pos = pos_at(ax, ay + drop_shift);
        assert(is_drop_distance(self.field, self.current_block.cells@, anchor, drop_shift as int));
        (
            AgentField {
                field: self.field,
                current_block: self.current_block,
                current_block_pos: next_pos,
                next_blocks: self.next_blocks,
                hold_block: self.hold_block,
            },
            OperationResult::Done,
        )
    }

    fn turn_to(self, rotated_block: Block) -> (r: (AgentField, OperationResult))
        requires
            self.wf(),
        ensures
            self.is_turned(r, rotated_block@),
            r.0.wf(),
    {
        match find_kick_pos(&self.field, &rotated_block, self.current_block_pos) {
            Some(pos) => (
                AgentField {
                    field: self.field,
                    current_block: rotated_block,
                    current_block_pos: pos,
                    next_blocks: self.next_blocks,
                    hold_block: self.hold_block,
                },
                OperationResult::Done,
            ),
            None => (self, OperationResult::Stay),
        }
    }

    /// Turns the current block a quarter clockwise at the nearest anchor where it can be
    /// placed; stays where there is none.
    pub fn rotate_block_clockwise(self) -> (r: (AgentField, OperationResult))
        requires
            self.wf(),
        ensures
            self.is_turned(r, self.current_block@.rotated_clockwise()),
            r.0.wf(),
    {
        let rotated = self.current_block.rotate_clockwise();
        self.turn_to(rotated)
    }

    /// Turns the current block a quarter anticlockwise at the nearest anchor where it can
    /// be placed; stays where there is none.
    pub fn rotate_block_unticlockwise(self) -> (r: (AgentField, OperationResult))
        requires
            self.wf(),
        ensures
            self.is_turned(r, self.current_block@.rotated_unticlockwise()),
            r.0.wf(),
    {
        let rotated = self.current_block.rotate_unticlockwise();
        self.turn_to(rotated)
    }

    /// Exchanges the current block with the held one where the held one can appear.
    pub fn hold_block(self) -> (r: (AgentField, OperationResult))
        requires
            self.wf(),
        ensures
            r.0.wf(),
            match spawn_search(self.field, self.hold_block.cells@) {
                Some(p) => r == (
                    AgentField {
                        field: self.field,
                        current_block: self.hold_block,
                        current_block_pos: p,
                        next_blocks: self.next_blocks,
                        hold_block: self.current_block,
                    },
                    OperationResult::Done,
                ),
                None => r == (self, OperationResult::Stay),
            },
    {
        let (current_block, hold_block) = (self.hold_block, self.current_block);
        match find_block_appearance_pos(&self.field, &current_block) {
            Some(pos) => {
                proof {
                    crate::game::field_under_agent_control::lemma_spawn_in_reach(
                        self.field,
                        current_block.cells@,
                        0,
                    );
                }
                (
                    AgentField {
                        field: self.field,
                        current_block,
                        current_block_pos: pos,
                        next_blocks: self.next_blocks,
                        hold_block,
                    },
                    OperationResult::Done,
                )
            },
            None => (self, OperationResult::Stay),
        }
    }
}

} // verus!
