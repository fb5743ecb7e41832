//! The simulation core of a falling-block puzzle game with bombs: block placement and
//! rotation on a fixed field, the per-command turn state machine, line-clear detection,
//! chained bomb explosions and the gravity that settles the field afterwards.

pub mod data_type;
pub mod game;
pub mod geometry;
pub mod graphics;
pub mod user;
