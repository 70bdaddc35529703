//! The trait screw: passive stat changes and event hooks.

use vstd::prelude::*;
use crate::fixed::Fixed;
use crate::stats::modifier::{ModifierSet, ModifierSetModel, StatModifier};
use crate::stats::types::Multiplier;

verus! {

/// The events a trait screw can hook into.
#[derive(Debug, Clone, Copy, PartialEq, Eq, Structural, Hash)]
pub enum TraitHookKind {
    OnHit,
    OnTick,
    OnWallCollision,
    OnFireProjectile,
}

/// Passive stat changes of a trait screw.
#[derive(Debug, Clone, Copy, PartialEq, Eq, Structural)]
pub struct TraitPassive {
    pub spin_hp_max_add: Fixed,
    /// Control reduction ratio; 0 contributes no source.
    pub control_reduction: Fixed,
    pub damage_out_mult: Fixed,
    pub damage_in_mult: Fixed,
}

impl Default for TraitPassive {
    fn default() -> (r: TraitPassive)
        ensures
            r == (TraitPassive {
                spin_hp_max_add: Fixed(0),
                control_reduction: Fixed(0),
                damage_out_mult: Fixed(1_000_000),
                damage_in_mult: Fixed(1_000_000),
            }),
    {
        TraitPassive {
            spin_hp_max_add: Fixed(0),
            control_reduction: Fixed(0),
            damage_out_mult: Fixed(1_000_000),
            damage_in_mult: Fixed(1_000_000),
        }
    }
}

/// Trait screw specification.
#[derive(Debug)]
pub struct TraitScrewSpec {
    pub id: String,
    pub name: String,
    pub passive: TraitPassive,
    pub hooks: Vec<TraitHookKind>,
}

impl Clone for TraitScrewSpec {
    fn clone(&self) -> (r: TraitScrewSpec)
        ensures
            r.id == self.id,
            r.name == self.name,
            r.passive == self.passive,
            r.hooks@ == self.hooks@,
    {
        let mut hooks: Vec<TraitHookKind> = Vec::new();
        let n = self.hooks.len();
        let mut i: usize = 0;
        while i < n
            invariant
                i <= n,
                n == self.hooks.len(),
                hooks@ == self.hooks@.take(i as int),
            decreases n - i,
        {
            hooks.push(self.hooks[i]);
            i += 1;
        }
        assert(self.hooks@.take(n as int) == self.hooks@);
        TraitScrewSpec {
            id: self.id.clone(),
            name: self.name.clone(),
            passive: self.passive,
            hooks,
        }
    }
}

impl Default for TraitScrewSpec {
    fn default() -> (r: TraitScrewSpec)
        ensures
            r.is_stock(),
    {
        TraitScrewSpec {
            id: "default_screw".to_owned(),
            name: "Standard Screw".to_owned(),
            passive: TraitPassive::default(),
            hooks: Vec::new(),
        }
    }
}

impl TraitScrewSpec {
    /// Whether this is the stock screw, which changes nothing and hooks
    /// into nothing.
    pub open spec fn is_stock(&self) -> bool {
        &&& self.id@ == "default_screw"@
        &&& self.name@ == "Standard Screw"@
        &&& self.passive == (TraitPassive {
            spin_hp_max_add: Fixed(0),
            control_reduction: Fixed(0),
            damage_out_mult: Fixed(1_000_000),
            damage_in_mult: Fixed(1_000_000),
        })
        &&& self.hooks@ == Seq::<TraitHookKind>::empty()
    }

    /// What the screw contributes: spin is added, a non-zero control
    /// reduction becomes one source, the damage multipliers are clamped.
    pub open spec fn spec_to_modifiers(&self) -> ModifierSetModel {
        ModifierSetModel {
            spin_hp_max: StatModifier {
                add: self.passive.spin_hp_max_add,
                ..StatModifier::identity()
            },
            control_reduction_sources: if self.passive.control_reduction.0 != 0 {
                seq![self.passive.control_reduction]
            } else {
                Seq::empty()
            },
            damage_out_mult: Multiplier::new(self.passive.damage_out_mult),
            damage_in_mult: Multiplier::new(self.passive.damage_in_mult),
            ..ModifierSetModel::identity()
        }
    }

    /// The modifiers this screw contributes.
    pub fn to_modifiers(&self) -> (r: ModifierSet)
        ensures
            r@ == self.spec_to_modifiers(),
    {
        let mut mods = ModifierSet::new();
        mods.spin_hp_max.add = self.passive.spin_hp_max_add;
        if self.passive.control_reduction.0 != 0 {
            mods.control_reduction_sources.push(self.passive.control_reduction);
        }
        mods.damage_out_mult = Multiplier::new(self.passive.damage_out_mult);
        mods.damage_in_mult = Multiplier::new(self.passive.damage_in_mult);
        mods
    }
}

} // verus!
