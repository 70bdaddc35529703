//! Status effects.

pub mod effect;
