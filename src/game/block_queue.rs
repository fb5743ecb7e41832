use vstd::prelude::*;
use crate::game::block_template::{Block, BlockSelector, Direction};

verus! {

/// Number of blocks waiting in the next-block queue.
pub const NEXT_BLOCK_NUM: usize = 2;

/// The blocks that come next, first one first; always full.
#[derive(Debug, Clone, Copy)]
pub struct NextBlockQueue {
    pub blocks: [Block; NEXT_BLOCK_NUM],
}

/// A block as `BlockSelector::generate_block` makes it: from the catalog, upright.
pub open spec fn fresh_block(b: Block) -> bool {
    b.wf() && b.direction == Direction::Above
}

impl NextBlockQueue {
    /// A queue filled with blocks from `selector`, in the order it makes them.
    pub fn fill<S: BlockSelector>(selector: &mut S) -> (r: NextBlockQueue)
        ensures
            forall|i: int| 0 <= i < NEXT_BLOCK_NUM ==> fresh_block(#[trigger] r.blocks@[i]),
    {
        let mut blocks = [Block::default(); NEXT_BLOCK_NUM];
        let mut i: usize = 0;
        while i < NEXT_BLOCK_NUM
            invariant
                0 <= i <= NEXT_BLOCK_NUM,
                blocks@.len() == NEXT_BLOCK_NUM,
                forall|k: int| 0 <= k < i ==> fresh_block(#[trigger] blocks@[k]),
            decreases NEXT_BLOCK_NUM - i,
        {
            blocks[i] = selector.generate_block();
            i = i + 1;
        }
        NextBlockQueue { blocks }
    }

    /// Takes the first block out and appends a new block from `selector`.
    pub fn pop_and_fill<S: BlockSelector>(&mut self, selector: &mut S) -> (r: Block)
        ensures
            r == old(self).blocks@[0],
            forall|i: int|
                0 <= i < NEXT_BLOCK_NUM - 1 ==> #[trigger] final(self).blocks@[i] == old(
                    self,
                ).blocks@[i + 1],
            fresh_block(final(self).blocks@[NEXT_BLOCK_NUM - 1]),
    {
        let popped_block = self.blocks[0];
        let mut i: usize = 0;
        while i < NEXT_BLOCK_NUM - 1
            invariant
                0 <= i <= NEXT_BLOCK_NUM - 1,
                popped_block == old(self).blocks@[0],
                forall|k: int| 0 <= k < i ==> #[trigger] self.blocks@[k] == old(self).blocks@[k + 1],
                forall|k: int| i <= k < NEXT_BLOCK_NUM ==> #[trigger] self.blocks@[k] == old(self).blocks@[k],
            decreases NEXT_BLOCK_NUM - 1 - i,
        {
            self.blocks[i] = self.blocks[i + 1];
            i = i + 1;
        }
        self.blocks[NEXT_BLOCK_NUM - 1] = selector.generate_block();
        popped_block
    }
}

/// The next-block queue and the held block.
#[derive(Debug, Clone, Copy)]
pub struct BlockQueue {
    pub next_blocks: NextBlockQueue,
    pub hold_block: Block,
}

impl BlockQueue {
    /// Fills the queue, then makes the held block, all from `selector`.
    pub fn new<S: BlockSelector>(selector: &mut S) -> (r: BlockQueue)
        ensures
            forall|i: int| 0 <= i < NEXT_BLOCK_NUM ==> fresh_block(#[trigger] r.next_blocks.blocks@[i]),
            fresh_block(r.hold_block),
    {
        let next_blocks = NextBlockQueue::fill(selector);
        let hold_block = selector.generate_block();
        BlockQueue { next_blocks, hold_block }
    }

    /// Takes the first block of the next-block queue, which is refilled from `selector`.
    pub fn pop_and_fill<S: BlockSelector>(&mut self, selector: &mut S) -> (r: Block)
        ensures
            r == old(self).next_blocks.blocks@[0],
            final(self).hold_block == old(self).hold_block,
            forall|i: int|
                0 <= i < NEXT_BLOCK_NUM - 1 ==> #[trigger] final(self).next_blocks.blocks@[i]
                    == old(self).next_blocks.blocks@[i + 1],
            fresh_block(final(self).next_blocks.blocks@[NEXT_BLOCK_NUM - 1]),
    {
        self.next_blocks.pop_and_fill(selector)
    }

    /// The held block.
    pub fn hold_block(&self) -> (r: Block)
        ensures
            r == self.hold_block,
    {
        self.hold_block
    }

    /// Holds `block` and returns the block held before.
    pub fn swap_hold_block(&mut self, block: Block) -> (r: Block)
        ensures
            r == old(self).hold_block,
            final(self).hold_block == block,
            final(self).next_blocks == old(self).next_blocks,
    {
        let previous = self.hold_block;
        self.hold_block = block;
        previous
    }
}

} // verus!
