//! The arena: its circular wall, its obstacles, and the lifecycle of what
//! is spawned into it.

pub mod circle;
pub mod obstacle;
