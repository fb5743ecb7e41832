pub mod agent_field;
pub mod animation;
pub mod block;
pub mod block_queue;
pub mod block_template;
pub mod cell;
pub mod field;
pub mod field_under_agent_control;
pub mod single_play;

pub use block::ControlledBlock;
pub use block_queue::{BlockQueue, NextBlockQueue};
pub use block_template::{
    Block, BlockSelector, BlockShape, BombTag, Direction, DoubleBlockShape, QuadrupleBlockShape,
    QuintupleBlockShape, SingleBlockShape, TripleBlockShape,
};
pub use cell::Cell;
pub use field::{Field, FieldRow};
pub use field_under_agent_control::{FieldUnderAgentControl, GameCommandResult};
