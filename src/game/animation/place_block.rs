use vstd::prelude::*;
use crate::game::animation::{AnimationField, AnimationFrame, AnimationResult};

verus! {

/// Number of frames of the animation that follows a lock.
pub const PLACE_BLOCK_FRAMES: usize = 5;

/// The short pause after a block is locked; the field does not change.
pub struct PlaceBlock {
    pub field: AnimationField,
    pub frame: AnimationFrame,
}

impl PlaceBlock {
    pub open spec fn wf(&self) -> bool {
        self.frame.wf()
    }

    pub fn new(field: AnimationField) -> (r: PlaceBlock)
        ensures
            r.field == field,
            r.frame.spec_current() == 0,
            r.frame.spec_end() == PLACE_BLOCK_FRAMES,
            r.wf(),
    {
        PlaceBlock { field, frame: AnimationFrame::with_frame_count(PLACE_BLOCK_FRAMES) }
    }

    /// Advances one frame; at the end, hands the field back unchanged.
    pub fn wait_next(self) -> (r: AnimationResult<PlaceBlock, AnimationField>)
        requires
            self.wf(),
        ensures
            self.frame.spec_current() == self.frame.spec_end() ==> r == AnimationResult::<
                PlaceBlock,
                AnimationField,
            >::Finished(self.field),
            self.frame.spec_current() < self.frame.spec_end() ==> (r matches AnimationResult::InProgress(
                s,
            ) && s.wf() && s.field == self.field && s.frame.spec_current()
                == self.frame.spec_current() + 1),
    {
        match self.frame.wait_next() {
            Some(next_frame) => AnimationResult::InProgress(
                PlaceBlock { field: self.field, frame: next_frame },
            ),
            None => AnimationResult::Finished(self.field),
        }
    }
}

} // verus!
