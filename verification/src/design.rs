//! Rules of the workshop, where players make their own parts, builds and
//! maps: what is built in, what is in use, and what things are called.

use vstd::prelude::*;
use vstd::string::StringExecFns;
use crate::map::MapItem;
use crate::parts::registry::{BuildRef, Entry, PartRegistry};
use crate::stats::types::{PartSlot, WeaponKind};
use crate::storage::rows::{digest_text, hex_string};

verus! {

/// Whether two texts read the same.
pub fn same_text(a: &str, b: &str) -> (r: bool)
    ensures
        r == (a@ == b@),
{
    a.to_owned() == b.to_owned()
}

/// The directory the pictures of a slot's parts are kept in.
pub fn slot_dir(slot: PartSlot) -> (r: &'static str)
    ensures
        r@ == match slot {
            PartSlot::WeaponWheel => "weapons"@,
            PartSlot::Shaft => "shafts"@,
            PartSlot::Chassis => "chassis"@,
            PartSlot::TraitScrew => "screws"@,
        },
{
    match slot {
        PartSlot::WeaponWheel => "weapons",
        PartSlot::Shaft => "shafts",
        PartSlot::Chassis => "chassis",
        PartSlot::TraitScrew => "screws",
    }
}

/// Whether `id` names a preset top, part or build. Presets cannot be
/// edited or deleted.
pub open spec fn spec_is_builtin(id: Seq<char>) -> bool {
    ||| id == "default_top"@
    ||| id == "basic_blade"@
    ||| id == "basic_blaster"@
    ||| id == "standard_shaft"@
    ||| id == "standard_chassis"@
    ||| id == "standard_screw"@
    ||| id == "default_blade"@
    ||| id == "default_blaster"@
}

/// Tests an identity against the presets: see [`spec_is_builtin`].
pub fn is_builtin(id: &str) -> (r: bool)
    ensures
        r == spec_is_builtin(id@),
{
    same_text(id, "default_top") || same_text(id, "basic_blade") || same_text(id, "basic_blaster")
        || same_text(id, "standard_shaft") || same_text(id, "standard_chassis") || same_text(
        id,
        "standard_screw",
    ) || same_text(id, "default_blade") || same_text(id, "default_blaster")
}

/// Whether `id` names the preset map.
pub fn is_builtin_map(id: &str) -> (r: bool)
    ensures
        r == (id@ == "default_arena"@),
{
    same_text(id, "default_arena")
}

/// Whether a build has the part `part` fitted: as its weapon, shaft,
/// chassis or screw.
pub open spec fn uses_part(build: BuildRef, part: Seq<char>) -> bool {
    build.weapon_id@ == part || build.shaft_id@ == part || build.chassis_id@ == part
        || build.screw_id@ == part
}

/// The names of the builds among `entries` that have `part` fitted, in
/// the order of the entries.
pub open spec fn names_using(entries: Seq<Entry<BuildRef>>, part: Seq<char>) -> Seq<Seq<char>>
    decreases entries.len(),
{
    if entries.len() == 0 {
        Seq::empty()
    } else {
        let rest = names_using(entries.drop_last(), part);
        if uses_part(entries.last().value, part) {
            rest.push(entries.last().value.name@)
        } else {
            rest
        }
    }
}

/// The texts of a list of strings.
pub open spec fn texts(names: Seq<String>) -> Seq<Seq<char>> {
    Seq::new(names.len(), |i: int| names[i]@)
}

/// The names of the builds that have the part `part_id` fitted. A part
/// that a build uses must not be deleted.
pub fn builds_using_part(registry: &PartRegistry, part_id: &str) -> (r: Vec<String>)
    ensures
        texts(r@) == names_using(registry.builds.ordered(), part_id@),
{
    let mut names: Vec<String> = Vec::new();
    let n = registry.builds.len();
    let mut i: usize = 0;
    while i < n
        invariant
            i <= n,
            n == registry.builds.ordered().len(),
            texts(names@) == names_using(registry.builds.ordered().take(i as int), part_id@),
        decreases n - i,
    {
        proof {
            assert(registry.builds.ordered().take(i as int + 1).drop_last()
                == registry.builds.ordered().take(i as int));
        }
        let b = registry.builds.value_at(i);
        let ghost before = names@;
        if same_text(b.weapon_id.as_str(), part_id) || same_text(b.shaft_id.as_str(), part_id)
            || same_text(b.chassis_id.as_str(), part_id) || same_text(
            b.screw_id.as_str(),
            part_id,
        ) {
            names.push(b.name.clone());
            assert(texts(names@) =~= texts(before).push(b.name@));
        }
        i += 1;
    }
    assert(registry.builds.ordered().take(n as int) == registry.builds.ordered());
    names
}

/// What a weapon kind is called on screen.
pub fn kind_display_text(kind: WeaponKind) -> (r: &'static str)
    ensures
        r@ == match kind {
            WeaponKind::Melee => "Melee"@,
            WeaponKind::Ranged => "Ranged"@,
        },
{
    match kind {
        WeaponKind::Melee => "Melee",
        WeaponKind::Ranged => "Ranged",
    }
}

/// The weapon kind after `kind` when the player cycles through them.
pub fn next_kind(kind: WeaponKind) -> (r: WeaponKind)
    ensures
        r == match kind {
            WeaponKind::Melee => WeaponKind::Ranged,
            WeaponKind::Ranged => WeaponKind::Melee,
        },
{
    match kind {
        WeaponKind::Melee => WeaponKind::Ranged,
        WeaponKind::Ranged => WeaponKind::Melee,
    }
}

/// The tool the map editor holds.
#[derive(Debug, Clone, Copy, PartialEq, Eq, Structural, Hash)]
pub enum ToolSelection {
    Obstacle,
    GravityDevice,
    SpeedBoost,
    DamageBoost,
    Erase,
}

impl ToolSelection {
    /// What the tool is called on screen.
    pub fn display_name(self) -> (r: &'static str)
        ensures
            r@ == match self {
                ToolSelection::Obstacle => "Obstacle"@,
                ToolSelection::GravityDevice => "Gravity"@,
                ToolSelection::SpeedBoost => "Speed"@,
                ToolSelection::DamageBoost => "Damage"@,
                ToolSelection::Erase => "Erase"@,
            },
    {
        match self {
            ToolSelection::Obstacle => "Obstacle",
            ToolSelection::GravityDevice => "Gravity",
            ToolSelection::SpeedBoost => "Speed",
            ToolSelection::DamageBoost => "Damage",
            ToolSelection::Erase => "Erase",
        }
    }

    /// The item the tool places; the eraser places none.
    pub fn to_map_item(self) -> (r: Option<MapItem>)
        ensures
            r == match self {
                ToolSelection::Obstacle => Some(MapItem::Obstacle),
                ToolSelection::GravityDevice => Some(MapItem::GravityDevice),
                ToolSelection::SpeedBoost => Some(MapItem::SpeedBoost),
                ToolSelection::DamageBoost => Some(MapItem::DamageBoost),
                ToolSelection::Erase => None,
            },
    {
        match self {
            ToolSelection::Obstacle => Some(MapItem::Obstacle),
            ToolSelection::GravityDevice => Some(MapItem::GravityDevice),
            ToolSelection::SpeedBoost => Some(MapItem::SpeedBoost),
            ToolSelection::DamageBoost => Some(MapItem::DamageBoost),
            ToolSelection::Erase => None,
        }
    }
}

/// What a map is called on screen: the preset by its name, any other by
/// its identity.
pub fn map_display_name<'a>(id: &'a str) -> (r: &'a str)
    ensures
        r@ == if id@ == "default_arena"@ {
            "Default Arena"@
        } else {
            id@
        },
{
    if same_text(id, "default_arena") {
        "Default Arena"
    } else {
        id
    }
}

/// What a top is called on screen: a preset by its name, any other by
/// its identity.
pub fn top_display_name<'a>(id: &'a str) -> (r: &'a str)
    ensures
        r@ == if id@ == "default_top"@ {
            "Standard Top"@
        } else if id@ == "small_top"@ {
            "Small Top"@
        } else {
            id@
        },
{
    if same_text(id, "default_top") {
        "Standard Top"
    } else if same_text(id, "small_top") {
        "Small Top"
    } else {
        id
    }
}

/// What a weapon is called on screen: a preset by its name, any other
/// by its identity.
pub fn weapon_display_name<'a>(id: &'a str) -> (r: &'a str)
    ensures
        r@ == if id@ == "basic_blade"@ {
            "Basic Blade"@
        } else if id@ == "basic_blaster"@ {
            "Basic Blaster"@
        } else {
            id@
        },
{
    if same_text(id, "basic_blade") {
        "Basic Blade"
    } else if same_text(id, "basic_blaster") {
        "Basic Blaster"
    } else {
        id
    }
}

/// The four bytes of `n`, the highest first.
pub open spec fn spec_be_bytes(n: u32) -> Seq<u8> {
    seq![
        (n / 0x100_0000) as u8,
        (n / 0x1_0000 % 0x100) as u8,
        (n / 0x100 % 0x100) as u8,
        (n % 0x100) as u8,
    ]
}

/// `prefix` followed by `n` as eight lowercase hexadecimal digits.
pub fn tagged_id(prefix: &str, n: u32) -> (r: String)
    ensures
        r@ == prefix@ + hex_string(spec_be_bytes(n)),
{
    let bytes: [u8; 4] = [
        (n / 0x100_0000) as u8,
        (n / 0x1_0000 % 0x100) as u8,
        (n / 0x100 % 0x100) as u8,
        (n % 0x100) as u8,
    ];
    assert(bytes@ =~= spec_be_bytes(n));
    let digits = digest_text(bytes.as_slice());
    prefix.to_owned().concat(digits.as_str())
}

/// The identity of a new part the player makes, from the clock's
/// nanoseconds at the time.
pub fn custom_part_id(nanos: u32) -> (r: String)
    ensures
        r@ == "custom_"@ + hex_string(spec_be_bytes(nanos)),
{
    tagged_id("custom_", nanos)
}

/// The identity of a new map the player makes, from the clock's
/// nanoseconds at the time.
pub fn custom_map_id(nanos: u32) -> (r: String)
    ensures
        r@ == "map_"@ + hex_string(spec_be_bytes(nanos)),
{
    tagged_id("map_", nanos)
}

/// The top the machine picks for itself, from the clock's nanoseconds.
pub fn ai_top_pick(nanos: u32) -> (r: &'static str)
    ensures
        r@ == if nanos % 2 == 0 {
            "default_top"@
        } else {
            "small_top"@
        },
{
    if nanos % 2 == 0 {
        "default_top"
    } else {
        "small_top"
    }
}

/// The weapon the machine picks for itself, from the clock's nanoseconds.
pub fn ai_weapon_pick(nanos: u32) -> (r: &'static str)
    ensures
        r@ == if (nanos / 1000) % 2 == 0 {
            "basic_blade"@
        } else {
            "basic_blaster"@
        },
{
    if (nanos / 1000) % 2 == 0 {
        "basic_blade"
    } else {
        "basic_blaster"
    }
}

} // verus!
