//! The parameters a kind of top starts from.

use vstd::prelude::*;
use crate::fixed::Fixed;
use super::types::{MetersPerSec, Radius, SpinHp};

verus! {

/// Base parameters of a top. Set when the top is made, never changed.
#[derive(Debug)]
pub struct BaseStats {
    pub id: String,
    pub name: String,
    pub spin_hp_max: SpinHp,
    pub radius: Radius,
    pub move_speed: MetersPerSec,
    /// Acceleration in world units per second squared.
    pub accel: Fixed,
    /// Control reduction ratio; positive shortens control effects.
    pub control_reduction: Fixed,
}

impl Clone for BaseStats {
    fn clone(&self) -> (r: BaseStats)
        ensures
            r == *self,
    {
        BaseStats {
            id: self.id.clone(),
            name: self.name.clone(),
            spin_hp_max: self.spin_hp_max,
            radius: self.radius,
            move_speed: self.move_speed,
            accel: self.accel,
            control_reduction: self.control_reduction,
        }
    }
}

impl BaseStats {
    /// Whether the numbers are those of the stock top: spin 100, radius
    /// 1.3, speed 10, acceleration 25, no control reduction.
    pub open spec fn has_stock_numbers(&self) -> bool {
        &&& self.spin_hp_max == SpinHp(Fixed(100_000_000))
        &&& self.radius == Radius(Fixed(1_300_000))
        &&& self.move_speed == MetersPerSec(Fixed(10_000_000))
        &&& self.accel == Fixed(25_000_000)
        &&& self.control_reduction == Fixed(0)
    }

    /// Whether this is the stock top.
    pub open spec fn is_stock(&self) -> bool {
        &&& self.id@ == "default_top"@
        &&& self.name@ == "Standard Top"@
        &&& self.has_stock_numbers()
    }
}

impl Default for BaseStats {
    fn default() -> (r: BaseStats)
        ensures
            r.is_stock(),
    {
        BaseStats {
            id: "default_top".to_owned(),
            name: "Standard Top".to_owned(),
            spin_hp_max: SpinHp(Fixed(100_000_000)),
            radius: Radius(Fixed(1_300_000)),
            move_speed: MetersPerSec(Fixed(10_000_000)),
            accel: Fixed(25_000_000),
            control_reduction: Fixed(0),
        }
    }
}

} // verus!
