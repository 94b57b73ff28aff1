use vstd::prelude::*;
use vstd::std_specs::convert::FromSpecImpl;

verus! {

/// What occupies one cell of a room's collision grid.
#[derive(Clone, Copy, Debug, PartialEq, Eq, Structural)]
pub enum TileType {
    Empty,
    Wall,
    EnemySpawn,
    BossSpawn,
}

/// What a cell of a room's entity layer asks to be spawned there.
#[derive(Clone, Copy, Debug, PartialEq, Eq, Structural)]
pub enum EntityType {
    Empty,
    EnemySpawn,
    BossSpawn,
    PotionSpawn,
}

/// Decoding of a map byte into a tile: 1 is a wall, 2 an enemy spawn,
/// 3 a boss spawn, and 0 or any other byte is empty.
pub open spec fn tile_from_byte(value: u8) -> TileType {
    if value == 1 {
        TileType::Wall
    } else if value == 2 {
        TileType::EnemySpawn
    } else if value == 3 {
        TileType::BossSpawn
    } else {
        TileType::Empty
    }
}

/// Decoding of a map byte into an entity marker: 1 is an enemy spawn,
/// 2 a boss spawn, 3 a potion spawn, and 0 or any other byte is empty.
pub open spec fn entity_from_byte(value: u8) -> EntityType {
    if value == 1 {
        EntityType::EnemySpawn
    } else if value == 2 {
        EntityType::BossSpawn
    } else if value == 3 {
        EntityType::PotionSpawn
    } else {
        EntityType::Empty
    }
}

impl From<u8> for TileType {
    fn from(value: u8) -> (r: Self) {
        match value {
            1 => TileType::Wall,
            2 => TileType::EnemySpawn,
            3 => TileType::BossSpawn,
            _ => TileType::Empty,
        }
    }
}

impl FromSpecImpl<u8> for TileType {
    open spec fn obeys_from_spec() -> bool {
        true
    }

    open spec fn from_spec(v: u8) -> Self {
        tile_from_byte(v)
    }
}

impl From<u8> for EntityType {
    fn from(value: u8) -> (r: Self) {
        match value {
            1 => EntityType::EnemySpawn,
            2 => EntityType::BossSpawn,
            3 => EntityType::PotionSpawn,
            _ => EntityType::Empty,
        }
    }
}

impl FromSpecImpl<u8> for EntityType {
    open spec fn obeys_from_spec() -> bool {
        true
    }

    open spec fn from_spec(v: u8) -> Self {
        entity_from_byte(v)
    }
}

/// Every byte outside `1..=3` decodes to the empty tile and to the empty
/// entity marker.
pub proof fn lemma_other_bytes_are_empty(b: u8)
    requires
        b == 0 || b > 3,
    ensures
        tile_from_byte(b) == TileType::Empty,
        entity_from_byte(b) == EntityType::Empty,
{
}

} // verus!
