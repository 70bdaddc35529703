//! The chassis: movement, acceleration and size.

use vstd::prelude::*;
use crate::fixed::Fixed;
use crate::stats::modifier::{ModifierSet, ModifierSetModel, StatModifier};

verus! {

/// Chassis specification.
#[derive(Debug)]
pub struct ChassisSpec {
    pub id: String,
    pub name: String,
    pub move_speed_add: Fixed,
    pub move_speed_mul: Fixed,
    pub accel_add: Fixed,
    pub accel_mul: Fixed,
    pub radius_add: Fixed,
    pub radius_mul: Fixed,
}

impl Clone for ChassisSpec {
    fn clone(&self) -> (r: ChassisSpec)
        ensures
            r == *self,
    {
        ChassisSpec {
            id: self.id.clone(),
            name: self.name.clone(),
            move_speed_add: self.move_speed_add,
            move_speed_mul: self.move_speed_mul,
            accel_add: self.accel_add,
            accel_mul: self.accel_mul,
            radius_add: self.radius_add,
            radius_mul: self.radius_mul,
        }
    }
}

impl Default for ChassisSpec {
    fn default() -> (r: ChassisSpec)
        ensures
            r.is_stock(),
    {
        ChassisSpec {
            id: "default_chassis".to_owned(),
            name: "Standard Chassis".to_owned(),
            move_speed_add: Fixed(0),
            move_speed_mul: Fixed(1_000_000),
            accel_add: Fixed(0),
            accel_mul: Fixed(1_000_000),
            radius_add: Fixed(0),
            radius_mul: Fixed(1_000_000),
        }
    }
}

impl ChassisSpec {
    /// Whether this is the stock chassis, which changes nothing.
    pub open spec fn is_stock(&self) -> bool {
        &&& self.id@ == "default_chassis"@
        &&& self.name@ == "Standard Chassis"@
        &&& self.move_speed_add == Fixed(0)
        &&& self.move_speed_mul == Fixed(1_000_000)
        &&& self.accel_add == Fixed(0)
        &&& self.accel_mul == Fixed(1_000_000)
        &&& self.radius_add == Fixed(0)
        &&& self.radius_mul == Fixed(1_000_000)
    }

    /// What the chassis contributes to speed, acceleration and radius.
    pub open spec fn spec_to_modifiers(&self) -> ModifierSetModel {
        ModifierSetModel {
            move_speed: StatModifier {
                add: self.move_speed_add,
                mul: self.move_speed_mul,
                ..StatModifier::identity()
            },
            accel: StatModifier {
                add: self.accel_add,
                mul: self.accel_mul,
                ..StatModifier::identity()
            },
            radius: StatModifier {
                add: self.radius_add,
                mul: self.radius_mul,
                ..StatModifier::identity()
            },
            ..ModifierSetModel::identity()
        }
    }

    /// The modifiers this chassis contributes.
    pub fn to_modifiers(&self) -> (r: ModifierSet)
        ensures
            r@ == self.spec_to_modifiers(),
    {
        let mut mods = ModifierSet::new();
        mods.move_speed.add = self.move_speed_add;
        mods.move_speed.mul = self.move_speed_mul;
        mods.accel.add = self.accel_add;
        mods.accel.mul = self.accel_mul;
        mods.radius.add = self.radius_add;
        mods.radius.mul = self.radius_mul;
        mods
    }
}

} // verus!
