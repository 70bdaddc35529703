//! Parts and the builds made of them.

pub mod chassis;
pub mod registry;
pub mod shaft;
pub mod trait_screw;
pub mod weapon_wheel;

use vstd::prelude::*;
use crate::stats::base::BaseStats;
use crate::stats::modifier::{ModifierSet, ModifierSetModel};
use self::chassis::ChassisSpec;
use self::shaft::ShaftSpec;
use self::trait_screw::TraitScrewSpec;
use self::weapon_wheel::WeaponWheelSpec;

verus! {

/// A complete build: a top and its four parts, all resolved.
#[derive(Debug)]
pub struct Build {
    pub id: String,
    pub name: String,
    pub top: BaseStats,
    pub weapon: WeaponWheelSpec,
    pub shaft: ShaftSpec,
    pub chassis: ChassisSpec,
    pub screw: TraitScrewSpec,
    pub note: Option<String>,
}

impl Build {
    /// The modifiers of shaft, chassis and screw, merged in that order.
    pub open spec fn spec_combined_modifiers(&self) -> ModifierSetModel {
        ModifierSetModel::identity().merge(self.shaft.spec_to_modifiers()).merge(
            self.chassis.spec_to_modifiers(),
        ).merge(self.screw.spec_to_modifiers())
    }

    /// All part modifiers of the build as one set.
    pub fn combined_modifiers(&self) -> (r: ModifierSet)
        ensures
            r@ == self.spec_combined_modifiers(),
    {
        let mut mods = ModifierSet::new();
        mods.merge(&self.shaft.to_modifiers());
        mods.merge(&self.chassis.to_modifiers());
        mods.merge(&self.screw.to_modifiers());
        mods
    }
}

impl Default for Build {
    fn default() -> (r: Build)
        ensures
            r.id@ == "default_build"@,
            r.name@ == "Default Build"@,
            r.top.is_stock(),
            r.weapon.is_stock(),
            r.shaft.is_stock(),
            r.chassis.is_stock(),
            r.screw.is_stock(),
            r.note is None,
    {
        Build {
            id: "default_build".to_owned(),
            name: "Default Build".to_owned(),
            top: BaseStats::default(),
            weapon: WeaponWheelSpec::default(),
            shaft: ShaftSpec::default(),
            chassis: ChassisSpec::default(),
            screw: TraitScrewSpec::default(),
            note: None,
        }
    }
}

} // verus!
