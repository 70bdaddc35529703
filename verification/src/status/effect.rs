//! Definitions of status effects.

use vstd::prelude::*;
use crate::fixed::Fixed;
use crate::stats::types::Seconds;

verus! {

/// The kinds of status effect a definition can have.
#[derive(Debug, Clone, Copy, PartialEq, Eq, Structural, Hash)]
pub enum StatusEffectType {
    DamageOverTime,
    SpeedBuff,
    SpeedDebuff,
}

/// A status effect as a part defines it.
#[derive(Debug)]
pub struct StatusEffectDef {
    pub name: String,
    pub duration: Seconds,
    pub magnitude: Fixed,
    pub kind: StatusEffectType,
}

} // verus!
