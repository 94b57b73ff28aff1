use vstd::prelude::*;

verus! {

/// A message between a client and the game server. The `f32` fields of the
/// wire format (`x`, `y`, `dir`) are held by their IEEE-754 bit patterns.
#[derive(Debug)]
pub enum GamePacket {
    JoinRequest,
    JoinResponse { assigned_id: u64 },
    PlayerPos { id: u64, x: u32, y: u32, dir: u32, level_x: u8, level_y: u8 },
    Action { id: u64, kind: String, dir: u32 },
    Leave { id: u64 },
    Hit { entity_id: u64 },
}

} // verus!
