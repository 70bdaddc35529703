//! The shaft: stability and spin efficiency.

use vstd::prelude::*;
use crate::fixed::Fixed;
use crate::stats::modifier::{ModifierSet, ModifierSetModel, StatModifier};

verus! {

/// Shaft specification.
#[derive(Debug)]
pub struct ShaftSpec {
    pub id: String,
    pub name: String,
    /// Lessens how far a collision moves the top.
    pub stability: Fixed,
    /// Divides the idle spin drain: higher drains less.
    pub spin_efficiency: Fixed,
}

impl Clone for ShaftSpec {
    fn clone(&self) -> (r: ShaftSpec)
        ensures
            r == *self,
    {
        ShaftSpec {
            id: self.id.clone(),
            name: self.name.clone(),
            stability: self.stability,
            spin_efficiency: self.spin_efficiency,
        }
    }
}

impl Default for ShaftSpec {
    fn default() -> (r: ShaftSpec)
        ensures
            r.is_stock(),
    {
        ShaftSpec {
            id: "default_shaft".to_owned(),
            name: "Standard Shaft".to_owned(),
            stability: Fixed(500_000),
            spin_efficiency: Fixed(1_000_000),
        }
    }
}

impl ShaftSpec {
    /// Whether this is the stock shaft: stability 0.5, spin efficiency 1.
    pub open spec fn is_stock(&self) -> bool {
        &&& self.id@ == "default_shaft"@
        &&& self.name@ == "Standard Shaft"@
        &&& self.stability == Fixed(500_000)
        &&& self.spin_efficiency == Fixed(1_000_000)
    }

    /// What the shaft contributes: its stability is added, its spin
    /// efficiency multiplies.
    pub open spec fn spec_to_modifiers(&self) -> ModifierSetModel {
        ModifierSetModel {
            stability: StatModifier { add: self.stability, ..StatModifier::identity() },
            spin_efficiency: StatModifier { mul: self.spin_efficiency, ..StatModifier::identity() },
            ..ModifierSetModel::identity()
        }
    }

    /// The modifiers this shaft contributes.
    pub fn to_modifiers(&self) -> (r: ModifierSet)
        ensures
            r@ == self.spec_to_modifiers(),
    {
        let mut mods = ModifierSet::new();
        mods.stability.add = self.stability;
        mods.spin_efficiency.mul = self.spin_efficiency;
        mods
    }
}

} // verus!
