//! Maps: the size of an arena and the items placed on its grid.

use vstd::prelude::*;
use crate::fixed::Fixed;
use crate::vector::Vec2;

verus! {

/// Side of a grid cell in raw world units (half a unit).
pub const GRID_CELL_SIZE_RAW: i64 = 500_000;

/// Half the side of a grid cell in raw world units.
pub const GRID_CELL_HALF_RAW: i64 = 250_000;

/// The kinds of item a map can place.
#[derive(Debug, Clone, Copy, PartialEq, Eq, Structural, Hash)]
pub enum MapItem {
    Obstacle,
    GravityDevice,
    SpeedBoost,
    DamageBoost,
}

impl MapItem {
    /// The name the item goes by on screen.
    pub fn display_name(self) -> (r: &'static str)
        ensures
            r@ == match self {
                MapItem::Obstacle => "Obstacle"@,
                MapItem::GravityDevice => "Gravity"@,
                MapItem::SpeedBoost => "Speed Boost"@,
                MapItem::DamageBoost => "Dmg Boost"@,
            },
    {
        match self {
            MapItem::Obstacle => "Obstacle",
            MapItem::GravityDevice => "Gravity",
            MapItem::SpeedBoost => "Speed Boost",
            MapItem::DamageBoost => "Dmg Boost",
        }
    }
}

/// One item placed on the grid.
#[derive(Debug, Clone, Copy, PartialEq, Eq, Structural, Hash)]
pub struct MapPlacement {
    pub grid_x: i32,
    pub grid_y: i32,
    pub item: MapItem,
}

impl MapPlacement {
    pub open spec fn spec_world_position(self) -> Vec2 {
        grid_to_world(self.grid_x, self.grid_y)
    }

    /// The centre of the placement's cell in world units.
    #[verifier::when_used_as_spec(spec_world_position)]
    pub fn world_position(self) -> (r: Vec2)
        ensures
            r == self.spec_world_position(),
    {
        grid_to_world(self.grid_x, self.grid_y)
    }
}

/// The world position of a grid cell: each grid step is one cell size.
pub open spec fn spec_grid_to_world(grid_x: i32, grid_y: i32) -> Vec2 {
    Vec2 {
        x: Fixed((grid_x * GRID_CELL_SIZE_RAW) as i64),
        y: Fixed((grid_y * GRID_CELL_SIZE_RAW) as i64),
    }
}

/// Converts grid coordinates to world coordinates: see
/// [`spec_grid_to_world`].
#[verifier::when_used_as_spec(spec_grid_to_world)]
pub fn grid_to_world(grid_x: i32, grid_y: i32) -> (r: Vec2)
    ensures
        r == spec_grid_to_world(grid_x, grid_y),
        r.x.0 == grid_x * GRID_CELL_SIZE_RAW,
        r.y.0 == grid_y * GRID_CELL_SIZE_RAW,
{
    Vec2 { x: Fixed((grid_x as i64) * 500_000), y: Fixed((grid_y as i64) * 500_000) }
}

/// Whether a grid cell lies within an arena of radius `arena_radius`: the
/// distance of its centre from the middle, plus half a cell, is less than
/// the radius.
pub open spec fn spec_is_valid_placement(grid_x: i32, grid_y: i32, arena_radius: Fixed) -> bool {
    grid_to_world(grid_x, grid_y).length().add(Fixed(GRID_CELL_HALF_RAW)).0 < arena_radius.0
}

/// Tests a grid cell against the arena circle: see
/// [`spec_is_valid_placement`].
#[verifier::when_used_as_spec(spec_is_valid_placement)]
pub fn is_valid_placement(grid_x: i32, grid_y: i32, arena_radius: Fixed) -> (r: bool)
    ensures
        r == spec_is_valid_placement(grid_x, grid_y, arena_radius),
{
    grid_to_world(grid_x, grid_y).length().add(Fixed(GRID_CELL_HALF_RAW)).0 < arena_radius.0
}

/// A map: the size of the arena and the items placed on its grid.
#[derive(Debug)]
pub struct MapSpec {
    pub id: String,
    pub name: String,
    pub arena_radius: Fixed,
    pub placements: Vec<MapPlacement>,
}

impl MapSpec {
    /// The stock arena: radius 12, nothing placed.
    pub fn default_arena() -> (r: MapSpec)
        ensures
            r.id@ == "default_arena"@,
            r.name@ == "Default Arena"@,
            r.arena_radius == Fixed(12_000_000),
            r.placements@ == Seq::<MapPlacement>::empty(),
    {
        MapSpec {
            id: "default_arena".to_owned(),
            name: "Default Arena".to_owned(),
            arena_radius: Fixed(12_000_000),
            placements: Vec::new(),
        }
    }
}

} // verus!
