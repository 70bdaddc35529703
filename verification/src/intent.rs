//! What a controlled top wants to do this tick.

use vstd::prelude::*;
use crate::vector::Vec2;

verus! {

/// Movement and fire intent, refreshed by the host once per tick.
#[derive(Debug, Clone, Copy, PartialEq, Eq, Structural)]
pub struct Intent {
    /// Wanted direction of movement; zero for none.
    pub move_dir: Vec2,
    /// Whether the top wants to fire.
    pub fire: bool,
}

impl Default for Intent {
    fn default() -> (r: Intent)
        ensures
            r == (Intent { move_dir: Vec2::zero(), fire: false }),
    {
        Intent { move_dir: Vec2::zero(), fire: false }
    }
}

} // verus!
