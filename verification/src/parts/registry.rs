//! The registry of tops, parts, builds and maps, each under its
//! identity, and the resolver that assembles a build from identities.

use vstd::prelude::*;
use crate::map::MapSpec;
use crate::parts::chassis::ChassisSpec;
use crate::parts::shaft::ShaftSpec;
use crate::parts::trait_screw::TraitScrewSpec;
use crate::parts::weapon_wheel::{MeleeSpec, RangedSpec, WeaponWheelSpec};
use crate::parts::Build;
use crate::stats::base::BaseStats;
use crate::stats::types::WeaponKind;

verus! {

/// One entry of a [`Table`].
#[derive(Debug)]
pub struct Entry<T> {
    pub key: String,
    pub value: T,
}

/// The index of the first entry under `key`, if there is one.
pub open spec fn entry_index<T>(entries: Seq<Entry<T>>, key: Seq<char>) -> Option<int>
    decreases entries.len(),
{
    if entries.len() == 0 {
        None
    } else {
        match entry_index(entries.drop_last(), key) {
            Some(i) => Some(i),
            None => if entries.last().key@ == key {
                Some(entries.len() - 1)
            } else {
                None
            },
        }
    }
}

/// `entry_index` finds the first entry under `key`, and only such an
/// entry.
pub proof fn lemma_entry_index<T>(entries: Seq<Entry<T>>, key: Seq<char>)
    ensures
        match entry_index(entries, key) {
            Some(i) => 0 <= i < entries.len() && entries[i].key@ == key && forall|j: int|
                0 <= j < i ==> (#[trigger] entries[j]).key@ != key,
            None => forall|j: int| 0 <= j < entries.len() ==> (#[trigger] entries[j]).key@ != key,
        },
    decreases entries.len(),
{
    if entries.len() > 0 {
        lemma_entry_index(entries.drop_last(), key);
        match entry_index(entries.drop_last(), key) {
            Some(i) => {
                assert forall|j: int| 0 <= j < i implies (#[trigger] entries[j]).key@ != key by {
                    assert(entries.drop_last()[j] == entries[j]);
                }
                assert(entries.drop_last()[i] == entries[i]);
            },
            None => {
                assert forall|j: int| 0 <= j < entries.len() - 1 implies (#[trigger] entries[j]).key@
                    != key by {
                    assert(entries.drop_last()[j] == entries[j]);
                }
            },
        }
    }
}

/// A table of values under text keys. A key holds one value at most;
/// storing under a key that is taken replaces the value.
#[derive(Debug)]
pub struct Table<T> {
    entries: Vec<Entry<T>>,
}

impl<T> View for Table<T> {
    type V = Map<Seq<char>, T>;

    closed spec fn view(&self) -> Map<Seq<char>, T> {
        Map::new(
            |k: Seq<char>| entry_index(self.entries@, k) is Some,
            |k: Seq<char>| self.entries@[entry_index(self.entries@, k).unwrap()].value,
        )
    }
}

impl<T> Table<T> {
    /// The empty table.
    pub fn new() -> (r: Table<T>)
        ensures
            r@ == Map::<Seq<char>, T>::empty(),
    {
        let r = Table { entries: Vec::new() };
        assert(r@ =~= Map::<Seq<char>, T>::empty());
        r
    }

    fn find(&self, key: &String) -> (r: Option<usize>)
        ensures
            match r {
                Some(i) => entry_index(self.entries@, key@) == Some(i as int) && i
                    < self.entries.len(),
                None => entry_index(self.entries@, key@) is None,
            },
    {
        let n = self.entries.len();
        let mut i: usize = 0;
        while i < n
            invariant
                i <= n,
                n == self.entries.len(),
                forall|j: int| 0 <= j < i ==> (#[trigger] self.entries@[j]).key@ != key@,
            decreases n - i,
        {
            if self.entries[i].key == *key {
                proof {
                    lemma_entry_index(self.entries@, key@);
                }
                return Some(i);
            }
            i += 1;
        }
        proof {
            lemma_entry_index(self.entries@, key@);
        }
        None
    }

    /// The entries in the order their keys were first stored.
    pub closed spec fn ordered(&self) -> Seq<Entry<T>> {
        self.entries@
    }

    /// How many keys hold a value.
    pub fn len(&self) -> (r: usize)
        ensures
            r == self.ordered().len(),
    {
        self.entries.len()
    }

    /// The value of entry `i` in the order of first storing.
    pub fn value_at(&self, i: usize) -> (r: &T)
        requires
            i < self.ordered().len(),
        ensures
            *r == self.ordered()[i as int].value,
    {
        &self.entries[i].value
    }

    /// Whether a value is stored under `key`.
    pub fn contains_key(&self, key: &String) -> (r: bool)
        ensures
            r == self@.dom().contains(key@),
    {
        self.find(key).is_some()
    }

    /// The value stored under `key`, if there is one.
    pub fn get(&self, key: &String) -> (r: Option<&T>)
        ensures
            match r {
                Some(v) => self@.dom().contains(key@) && *v == self@[key@],
                None => !self@.dom().contains(key@),
            },
    {
        match self.find(key) {
            Some(i) => Some(&self.entries[i].value),
            None => None,
        }
    }

    /// Stores `value` under `key`, in place of what was there.
    pub fn insert(&mut self, key: String, value: T)
        ensures
            final(self)@ == old(self)@.insert(key@, value),
    {
        let ghost before = self.entries@;
        match self.find(&key) {
            Some(i) => {
                self.entries[i].value = value;
                proof {
                    assert forall|k: Seq<char>|
                        entry_index(self.entries@, k) == entry_index(before, k) by {
                        lemma_same_keys(self.entries@, before, k);
                    }
                    assert forall|k: Seq<char>| self@.dom().contains(k) implies #[trigger] self@[k]
                        == old(self)@.insert(key@, value)[k] by {
                        lemma_entry_index(before, k);
                        lemma_entry_index(before, key@);
                        let found = entry_index(before, k).unwrap();
                        assert(self@[k] == self.entries@[found].value);
                        if k != key@ {
                            assert(self.entries@[found] == before[found]);
                            assert(old(self)@[k] == before[found].value);
                        }
                    }
                    assert(self@ =~= old(self)@.insert(key@, value));
                }
            },
            None => {
                self.entries.push(Entry { key, value });
                proof {
                    assert(self.entries@.drop_last() == before);
                    assert forall|k: Seq<char>| self@.dom().contains(k) implies #[trigger] self@[k]
                        == old(self)@.insert(key@, value)[k] by {
                        lemma_entry_index(before, k);
                        let found = entry_index(self.entries@, k);
                        if k != key@ {
                            assert(found == entry_index(before, k));
                            assert(self.entries@[found.unwrap()] == before[found.unwrap()]);
                        }
                    }
                    assert(self@ =~= old(self)@.insert(key@, value));
                }
            },
        }
    }
}

/// Tables whose entries have the same keys, place by place, find every
/// key at the same place.
proof fn lemma_same_keys<T>(a: Seq<Entry<T>>, b: Seq<Entry<T>>, key: Seq<char>)
    requires
        a.len() == b.len(),
        forall|i: int| 0 <= i < a.len() ==> (#[trigger] a[i]).key@ == b[i].key@,
    ensures
        entry_index(a, key) == entry_index(b, key),
    decreases a.len(),
{
    if a.len() > 0 {
        assert forall|i: int| 0 <= i < a.drop_last().len() implies (#[trigger] a.drop_last()[i]).key@
            == b.drop_last()[i].key@ by {
            assert(a.drop_last()[i] == a[i]);
            assert(b.drop_last()[i] == b[i]);
        }
        lemma_same_keys(a.drop_last(), b.drop_last(), key);
        assert(a[a.len() - 1].key@ == b[a.len() - 1].key@);
    }
}

/// A build by reference: the identities of its top and parts.
#[derive(Debug)]
pub struct BuildRef {
    pub id: String,
    pub name: String,
    pub top_id: String,
    pub weapon_id: String,
    pub shaft_id: String,
    pub chassis_id: String,
    pub screw_id: String,
}

impl Clone for BuildRef {
    fn clone(&self) -> (r: BuildRef)
        ensures
            r == *self,
    {
        BuildRef {
            id: self.id.clone(),
            name: self.name.clone(),
            top_id: self.top_id.clone(),
            weapon_id: self.weapon_id.clone(),
            shaft_id: self.shaft_id.clone(),
            chassis_id: self.chassis_id.clone(),
            screw_id: self.screw_id.clone(),
        }
    }
}

impl BuildRef {
    /// Whether this is a preset build: the stock top, shaft, chassis and
    /// screw of the registry with the given weapon.
    pub open spec fn is_preset(&self, id: Seq<char>, name: Seq<char>, weapon_id: Seq<char>) -> bool {
        &&& self.id@ == id
        &&& self.name@ == name
        &&& self.top_id@ == "default_top"@
        &&& self.weapon_id@ == weapon_id
        &&& self.shaft_id@ == "standard_shaft"@
        &&& self.chassis_id@ == "standard_chassis"@
        &&& self.screw_id@ == "standard_screw"@
    }

    /// The build reference a stored row stands for. It goes by its note,
    /// or by its identity where the note is empty.
    pub fn from_row(
        id: String,
        top_id: String,
        weapon_id: String,
        shaft_id: String,
        chassis_id: String,
        screw_id: String,
        note: String,
    ) -> (r: BuildRef)
        ensures
            r.id == id,
            r.name == if note@.len() == 0 {
                id
            } else {
                note
            },
            r.top_id == top_id,
            r.weapon_id == weapon_id,
            r.shaft_id == shaft_id,
            r.chassis_id == chassis_id,
            r.screw_id == screw_id,
    {
        let name = if note.as_str().is_empty() {
            id.clone()
        } else {
            note
        };
        BuildRef { id, name, top_id, weapon_id, shaft_id, chassis_id, screw_id }
    }
}

/// Everything a player can pick from, each under its identity.
#[derive(Debug)]
pub struct PartRegistry {
    pub tops: Table<BaseStats>,
    pub weapons: Table<WeaponWheelSpec>,
    pub shafts: Table<ShaftSpec>,
    pub chassis: Table<ChassisSpec>,
    pub screws: Table<TraitScrewSpec>,
    pub builds: Table<BuildRef>,
    pub maps: Table<MapSpec>,
}

impl Default for PartRegistry {
    fn default() -> (r: PartRegistry)
        ensures
            r.tops@ == Map::<Seq<char>, BaseStats>::empty(),
            r.weapons@ == Map::<Seq<char>, WeaponWheelSpec>::empty(),
            r.shafts@ == Map::<Seq<char>, ShaftSpec>::empty(),
            r.chassis@ == Map::<Seq<char>, ChassisSpec>::empty(),
            r.screws@ == Map::<Seq<char>, TraitScrewSpec>::empty(),
            r.builds@ == Map::<Seq<char>, BuildRef>::empty(),
            r.maps@ == Map::<Seq<char>, MapSpec>::empty(),
    {
        PartRegistry {
            tops: Table::new(),
            weapons: Table::new(),
            shafts: Table::new(),
            chassis: Table::new(),
            screws: Table::new(),
            builds: Table::new(),
            maps: Table::new(),
        }
    }
}

impl PartRegistry {
    /// The registry of presets: the stock top, a blade and a blaster, the
    /// stock shaft, chassis and screw, a build for each weapon, and the
    /// stock arena.
    pub fn with_defaults() -> (r: PartRegistry)
        ensures
            r.tops@.dom() == set!["default_top"@],
            r.tops@["default_top"@].is_stock(),
            r.weapons@.dom() == set!["basic_blade"@, "basic_blaster"@],
            r.weapons@["basic_blade"@].id@ == "basic_blade"@,
            r.weapons@["basic_blade"@].name@ == "Standard Blade"@,
            r.weapons@["basic_blade"@].kind == WeaponKind::Melee,
            r.weapons@["basic_blade"@].melee == Some(MeleeSpec::spec_default()),
            r.weapons@["basic_blade"@].ranged == None::<RangedSpec>,
            r.weapons@["basic_blaster"@].id@ == "basic_blaster"@,
            r.weapons@["basic_blaster"@].name@ == "Standard Blaster"@,
            r.weapons@["basic_blaster"@].kind == WeaponKind::Ranged,
            r.weapons@["basic_blaster"@].melee == None::<MeleeSpec>,
            r.weapons@["basic_blaster"@].ranged == Some(RangedSpec::spec_default()),
            r.shafts@.dom() == set!["standard_shaft"@],
            r.shafts@["standard_shaft"@].is_stock(),
            r.chassis@.dom() == set!["standard_chassis"@],
            r.chassis@["standard_chassis"@].is_stock(),
            r.screws@.dom() == set!["standard_screw"@],
            r.screws@["standard_screw"@].is_stock(),
            r.builds@.dom() == set!["default_blade"@, "default_blaster"@],
            r.builds@["default_blade"@].is_preset("default_blade"@, "Standard Blade Top"@, "basic_blade"@),
            r.builds@["default_blaster"@].is_preset(
                "default_blaster"@,
                "Standard Blaster Top"@,
                "basic_blaster"@,
            ),
            r.maps@.dom() == set!["default_arena"@],
            r.maps@["default_arena"@].id@ == "default_arena"@,
            r.maps@["default_arena"@].name@ == "Default Arena"@,
            r.maps@["default_arena"@].arena_radius == crate::fixed::Fixed(12_000_000),
            r.maps@["default_arena"@].placements@ == Seq::<crate::map::MapPlacement>::empty(),
    {
        let mut reg = PartRegistry::default();
        reg.tops.insert("default_top".to_owned(), BaseStats::default());
        reg.weapons.insert(
            "basic_blade".to_owned(),
            WeaponWheelSpec {
                id: "basic_blade".to_owned(),
                name: "Standard Blade".to_owned(),
                kind: WeaponKind::Melee,
                melee: Some(MeleeSpec::default()),
                ranged: None,
            },
        );
        reg.weapons.insert(
            "basic_blaster".to_owned(),
            WeaponWheelSpec {
                id: "basic_blaster".to_owned(),
                name: "Standard Blaster".to_owned(),
                kind: WeaponKind::Ranged,
                melee: None,
                ranged: Some(RangedSpec::default()),
            },
        );
        reg.shafts.insert("standard_shaft".to_owned(), ShaftSpec::default());
        reg.chassis.insert("standard_chassis".to_owned(), ChassisSpec::default());
        reg.screws.insert("standard_screw".to_owned(), TraitScrewSpec::default());
        reg.builds.insert(
            "default_blade".to_owned(),
            BuildRef {
                id: "default_blade".to_owned(),
                name: "Standard Blade Top".to_owned(),
                top_id: "default_top".to_owned(),
                weapon_id: "basic_blade".to_owned(),
                shaft_id: "standard_shaft".to_owned(),
                chassis_id: "standard_chassis".to_owned(),
                screw_id: "standard_screw".to_owned(),
            },
        );
        reg.builds.insert(
            "default_blaster".to_owned(),
            BuildRef {
                id: "default_blaster".to_owned(),
                name: "Standard Blaster Top".to_owned(),
                top_id: "default_top".to_owned(),
                weapon_id: "basic_blaster".to_owned(),
                shaft_id: "standard_shaft".to_owned(),
                chassis_id: "standard_chassis".to_owned(),
                screw_id: "standard_screw".to_owned(),
            },
        );
        let default_map = MapSpec::default_arena();
        reg.maps.insert(default_map.id.clone(), default_map);
        proof {
            reveal_strlit("basic_blade");
            reveal_strlit("basic_blaster");
            reveal_strlit("default_blade");
            reveal_strlit("default_blaster");
            assert("basic_blade"@.len() != "basic_blaster"@.len());
            assert("default_blade"@.len() != "default_blaster"@.len());
            assert(reg.tops@.dom() =~= set!["default_top"@]);
            assert(reg.weapons@.dom() =~= set!["basic_blade"@, "basic_blaster"@]);
            assert(reg.shafts@.dom() =~= set!["standard_shaft"@]);
            assert(reg.chassis@.dom() =~= set!["standard_chassis"@]);
            assert(reg.screws@.dom() =~= set!["standard_screw"@]);
            assert(reg.builds@.dom() =~= set!["default_blade"@, "default_blaster"@]);
            assert(reg.maps@.dom() =~= set!["default_arena"@]);
        }
        reg
    }

    /// Whether a build can be assembled from these identities: each names
    /// an entry of its table.
    pub open spec fn resolvable(
        &self,
        top_id: Seq<char>,
        weapon_id: Seq<char>,
        shaft_id: Seq<char>,
        chassis_id: Seq<char>,
        screw_id: Seq<char>,
    ) -> bool {
        &&& self.tops@.dom().contains(top_id)
        &&& self.weapons@.dom().contains(weapon_id)
        &&& self.shafts@.dom().contains(shaft_id)
        &&& self.chassis@.dom().contains(chassis_id)
        &&& self.screws@.dom().contains(screw_id)
    }

    /// Assembles a build from the identities of its top and parts. Gives
    /// `None` where one of them is not in the registry: an unresolved
    /// build never enters a battle.
    pub fn resolve_build(
        &self,
        build_id: &str,
        build_name: &str,
        top_id: &str,
        weapon_id: &str,
        shaft_id: &str,
        chassis_id: &str,
        screw_id: &str,
    ) -> (r: Option<Build>)
        ensures
            r is Some <==> self.resolvable(top_id@, weapon_id@, shaft_id@, chassis_id@, screw_id@),
            r matches Some(b) ==> {
                &&& b.id@ == build_id@
                &&& b.name@ == build_name@
                &&& b.top == self.tops@[top_id@]
                &&& b.weapon == self.weapons@[weapon_id@]
                &&& b.shaft == self.shafts@[shaft_id@]
                &&& b.chassis == self.chassis@[chassis_id@]
                &&& b.screw.id == self.screws@[screw_id@].id
                &&& b.screw.name == self.screws@[screw_id@].name
                &&& b.screw.passive == self.screws@[screw_id@].passive
                &&& b.screw.hooks@ == self.screws@[screw_id@].hooks@
                &&& b.note is None
            },
    {
        let top = match self.tops.get(&top_id.to_owned()) {
            Some(t) => t.clone(),
            None => {
                return None;
            },
        };
        let weapon = match self.weapons.get(&weapon_id.to_owned()) {
            Some(w) => w.clone(),
            None => {
                return None;
            },
        };
        let shaft = match self.shafts.get(&shaft_id.to_owned()) {
            Some(s) => s.clone(),
            None => {
                return None;
            },
        };
        let chassis = match self.chassis.get(&chassis_id.to_owned()) {
            Some(c) => c.clone(),
            None => {
                return None;
            },
        };
        let screw = match self.screws.get(&screw_id.to_owned()) {
            Some(s) => s.clone(),
            None => {
                return None;
            },
        };
        Some(
            Build {
                id: build_id.to_owned(),
                name: build_name.to_owned(),
                top,
                weapon,
                shaft,
                chassis,
                screw,
                note: None,
            },
        )
    }

    /// Resolves a build reference of the registry: see
    /// [`PartRegistry::resolve_build`].
    pub fn resolve_ref(&self, build: &BuildRef) -> (r: Option<Build>)
        ensures
            r is Some <==> self.resolvable(
                build.top_id@,
                build.weapon_id@,
                build.shaft_id@,
                build.chassis_id@,
                build.screw_id@,
            ),
            r matches Some(b) ==> {
                &&& b.id@ == build.id@
                &&& b.name@ == build.name@
                &&& b.top == self.tops@[build.top_id@]
                &&& b.weapon == self.weapons@[build.weapon_id@]
                &&& b.shaft == self.shafts@[build.shaft_id@]
                &&& b.chassis == self.chassis@[build.chassis_id@]
                &&& b.screw.id == self.screws@[build.screw_id@].id
                &&& b.screw.name == self.screws@[build.screw_id@].name
                &&& b.screw.passive == self.screws@[build.screw_id@].passive
                &&& b.screw.hooks@ == self.screws@[build.screw_id@].hooks@
                &&& b.note is None
            },
    {
        self.resolve_build(
            build.id.as_str(),
            build.name.as_str(),
            build.top_id.as_str(),
            build.weapon_id.as_str(),
            build.shaft_id.as_str(),
            build.chassis_id.as_str(),
            build.screw_id.as_str(),
        )
    }

    /// Stores a build reference read from a row under its identity.
    pub fn merge_custom_build(
        &mut self,
        id: String,
        top_id: String,
        weapon_id: String,
        shaft_id: String,
        chassis_id: String,
        screw_id: String,
        note: String,
    )
        ensures
            final(self).builds@.dom() == old(self).builds@.dom().insert(id@),
            final(self).builds@[id@].id == id,
            final(self).builds@[id@].name == if note@.len() == 0 {
                id
            } else {
                note
            },
            final(self).builds@[id@].top_id == top_id,
            final(self).builds@[id@].weapon_id == weapon_id,
            final(self).builds@[id@].shaft_id == shaft_id,
            final(self).builds@[id@].chassis_id == chassis_id,
            final(self).builds@[id@].screw_id == screw_id,
            forall|k: Seq<char>|
                k != id@ && old(self).builds@.dom().contains(k) ==> #[trigger] final(self).builds@[k]
                    == old(self).builds@[k],
            final(self).tops == old(self).tops,
            final(self).weapons == old(self).weapons,
            final(self).shafts == old(self).shafts,
            final(self).chassis == old(self).chassis,
            final(self).screws == old(self).screws,
            final(self).maps == old(self).maps,
    {
        let key = id.clone();
        let build = BuildRef::from_row(id, top_id, weapon_id, shaft_id, chassis_id, screw_id, note);
        self.builds.insert(key, build);
    }

    /// Stores a map under its identity.
    pub fn merge_custom_map(&mut self, map: MapSpec)
        ensures
            final(self).maps@ == old(self).maps@.insert(map.id@, map),
            final(self).tops == old(self).tops,
            final(self).weapons == old(self).weapons,
            final(self).shafts == old(self).shafts,
            final(self).chassis == old(self).chassis,
            final(self).screws == old(self).screws,
            final(self).builds == old(self).builds,
    {
        let key = map.id.clone();
        self.maps.insert(key, map);
    }
}

} // verus!
