pub mod position;
pub mod roi;

pub use position::{
    above, below, left, pos_at, right, spec_pos, MoveX, MoveY, Movement, Pos, PosX, PosY, Shift,
};
pub use roi::RegionOfInterest;
