//! Game rules of a side-scrolling platformer with networked rivals:
//! tile maps, collision queries, room transitions, enemy behaviour,
//! player controls and the handling of multiplayer packets.

pub mod enemy;
pub mod level;
pub mod player;
pub mod tile;
pub mod nemesis;
pub mod network;
pub mod world;
