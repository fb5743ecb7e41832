use vstd::prelude::*;
use crate::game::block_queue::BlockQueue;
use crate::game::field::Field;

pub mod connect_bomb;
pub mod drop_cell;
pub mod explosion;
pub mod full_row;
pub mod place_block;


pub use connect_bomb::{ConnectBomb, ConnectBombInitResult};
pub use drop_cell::DropCell;
pub use explosion::{ChainCounter, Explosion, ExplosionInitResult};
pub use full_row::FullRow;
pub use place_block::PlaceBlock;

verus! {

/// A field and its block queue while an animation plays on it.
#[derive(Debug)]
pub struct AnimationField {
    pub field: Field,
    pub block_queue: BlockQueue,
}

impl AnimationField {
    pub fn new(field: Field, block_queue: BlockQueue) -> (r: AnimationField)
        ensures
            r.field == field,
            r.block_queue == block_queue,
    {
        AnimationField { field, block_queue }
    }
}

/// The frame counter of an animation: it runs from zero up to its end.
#[derive(Debug, Clone, Copy)]
pub struct AnimationFrame {
    current: usize,
    end: usize,
}

impl AnimationFrame {
    /// The frame reached so far.
    pub closed spec fn spec_current(self) -> nat {
        self.current as nat
    }

    /// The frame at which the animation ends.
    pub closed spec fn spec_end(self) -> nat {
        self.end as nat
    }

    /// The counter never passes its end.
    pub open spec fn wf(self) -> bool {
        self.spec_current() <= self.spec_end()
    }

    /// A counter at frame zero that ends at frame `end`.
    pub fn with_frame_count(end: usize) -> (r: AnimationFrame)
        ensures
            r.spec_current() == 0,
            r.spec_end() == end,
            r.wf(),
    {
        AnimationFrame { current: 0, end }
    }

    /// The frame reached so far.
    pub fn current_frame(&self) -> (r: usize)
        ensures
            r == self.spec_current(),
    {
        self.current
    }

    /// The frame at which the animation ends.
    pub fn end_frame(&self) -> (r: usize)
        ensures
            r == self.spec_end(),
    {
        self.end
    }

    /// Advances one frame: `None` when the end was reached, else the next frame. Pacing
    /// between frames is the caller's business.
    pub fn wait_next(self) -> (r: Option<AnimationFrame>)
        requires
            self.wf(),
        ensures
            self.spec_current() == self.spec_end() ==> r is None,
            self.spec_current() < self.spec_end() ==> (r matches Some(f) && f.spec_current()
                == self.spec_current() + 1 && f.spec_end() == self.spec_end() && f.wf()),
    {
        if self.current == self.end {
            None
        } else {
            Some(AnimationFrame { current: self.current + 1, end: self.end })
        }
    }
}

/// The outcome of one step of an animation.
pub enum AnimationResult<P, F> {
    /// The animation goes on in this state.
    InProgress(P),
    /// The animation ended with this result.
    Finished(F),
}

} // verus!
