use cyber_top::design::{
    ai_top_pick, ai_weapon_pick, builds_using_part, custom_map_id, custom_part_id, is_builtin,
    is_builtin_map, kind_display_text, map_display_name, next_kind, same_text, slot_dir,
    tagged_id, top_display_name, weapon_display_name, ToolSelection,
};
use cyber_top::map::MapItem;
use cyber_top::parts::registry::PartRegistry;
use cyber_top::stats::types::{PartSlot, WeaponKind};

#[test]
fn texts_compare_by_content() {
    assert!(same_text("abc", "abc"));
    assert!(!same_text("abc", "abd"));
    assert!(!same_text("abc", "ab"));
    assert!(same_text("", ""));
}

#[test]
fn each_slot_has_its_directory() {
    assert_eq!(slot_dir(PartSlot::WeaponWheel), "weapons");
    assert_eq!(slot_dir(PartSlot::Shaft), "shafts");
    assert_eq!(slot_dir(PartSlot::Chassis), "chassis");
    assert_eq!(slot_dir(PartSlot::TraitScrew), "screws");
}

#[test]
fn presets_are_built_in() {
    for id in [
        "default_top",
        "basic_blade",
        "basic_blaster",
        "standard_shaft",
        "standard_chassis",
        "standard_screw",
        "default_blade",
        "default_blaster",
    ] {
        assert!(is_builtin(id), "{} is a preset", id);
    }
    assert!(!is_builtin("custom_0000002a"));
    assert!(!is_builtin("default_arena"));
    assert!(!is_builtin(""));
    assert!(is_builtin_map("default_arena"));
    assert!(!is_builtin_map("map_0000002a"));
}

#[test]
fn builds_that_use_a_part_are_listed_in_order() {
    let mut reg = PartRegistry::with_defaults();
    let s = |x: &str| x.to_string();
    reg.merge_custom_build(
        s("mine"),
        s("default_top"),
        s("basic_blade"),
        s("my_shaft"),
        s("standard_chassis"),
        s("standard_screw"),
        s("My build"),
    );
    assert_eq!(builds_using_part(&reg, "basic_blade"), vec![s("Standard Blade Top"), s("My build")]);
    assert_eq!(builds_using_part(&reg, "basic_blaster"), vec![s("Standard Blaster Top")]);
    assert_eq!(builds_using_part(&reg, "my_shaft"), vec![s("My build")]);
    assert_eq!(
        builds_using_part(&reg, "standard_screw"),
        vec![s("Standard Blade Top"), s("Standard Blaster Top"), s("My build")]
    );
    // The top is not a part.
    assert!(builds_using_part(&reg, "default_top").is_empty());
    assert!(builds_using_part(&reg, "nothing").is_empty());
    assert_eq!(reg.builds.len(), 3);
    assert_eq!(reg.builds.value_at(2).id, "mine");
}

#[test]
fn weapon_kinds_cycle() {
    assert_eq!(kind_display_text(WeaponKind::Melee), "Melee");
    assert_eq!(kind_display_text(WeaponKind::Ranged), "Ranged");
    assert_eq!(next_kind(WeaponKind::Melee), WeaponKind::Ranged);
    assert_eq!(next_kind(WeaponKind::Ranged), WeaponKind::Melee);
}

#[test]
fn editor_tools_place_their_items() {
    assert_eq!(ToolSelection::Obstacle.display_name(), "Obstacle");
    assert_eq!(ToolSelection::GravityDevice.display_name(), "Gravity");
    assert_eq!(ToolSelection::SpeedBoost.display_name(), "Speed");
    assert_eq!(ToolSelection::DamageBoost.display_name(), "Damage");
    assert_eq!(ToolSelection::Erase.display_name(), "Erase");
    assert_eq!(ToolSelection::Obstacle.to_map_item(), Some(MapItem::Obstacle));
    assert_eq!(ToolSelection::GravityDevice.to_map_item(), Some(MapItem::GravityDevice));
    assert_eq!(ToolSelection::SpeedBoost.to_map_item(), Some(MapItem::SpeedBoost));
    assert_eq!(ToolSelection::DamageBoost.to_map_item(), Some(MapItem::DamageBoost));
    assert_eq!(ToolSelection::Erase.to_map_item(), None);
}

#[test]
fn presets_have_display_names() {
    assert_eq!(map_display_name("default_arena"), "Default Arena");
    assert_eq!(map_display_name("map_0000002a"), "map_0000002a");
    assert_eq!(top_display_name("default_top"), "Standard Top");
    assert_eq!(top_display_name("small_top"), "Small Top");
    assert_eq!(top_display_name("heavy"), "heavy");
    assert_eq!(weapon_display_name("basic_blade"), "Basic Blade");
    assert_eq!(weapon_display_name("basic_blaster"), "Basic Blaster");
    assert_eq!(weapon_display_name("custom_1"), "custom_1");
}

#[test]
fn custom_identities_carry_eight_hex_digits() {
    assert_eq!(custom_part_id(42), "custom_0000002a");
    assert_eq!(custom_part_id(0), "custom_00000000");
    assert_eq!(custom_part_id(999_999_999), format!("custom_{:08x}", 999_999_999u32));
    assert_eq!(custom_map_id(0xdead_beef), "map_deadbeef");
    assert_eq!(custom_map_id(u32::MAX), "map_ffffffff");
    assert_eq!(tagged_id("", 0x0102_0304), "01020304");
}

#[test]
fn the_machine_picks_by_the_clock() {
    assert_eq!(ai_top_pick(0), "default_top");
    assert_eq!(ai_top_pick(1), "small_top");
    assert_eq!(ai_top_pick(123_456_788), "default_top");
    assert_eq!(ai_weapon_pick(999), "basic_blade");
    assert_eq!(ai_weapon_pick(1_000), "basic_blaster");
    assert_eq!(ai_weapon_pick(2_999), "basic_blade");
}
