use vstd::prelude::*;

verus! {

/// Bit pattern of the `f32` value 30.0, the width of a player's box.
pub const PLAYER_WIDTH_BITS: u32 = 0x41F0_0000;

/// Bit pattern of the `f32` value 38.0, the height of a player's box.
pub const PLAYER_HEIGHT_BITS: u32 = 0x4218_0000;

/// Bit pattern of the `f32` value 1.0: facing right.
pub const FACING_RIGHT_BITS: u32 = 0x3F80_0000;

/// Another player of the session as this client last heard of it.
/// Positions, sizes and the facing direction are `f32` values in the game;
/// here each is held by its IEEE-754 bit pattern (`f32::to_bits`), since
/// the rules of the roster only carry them.
#[derive(Clone, Copy, Debug)]
pub struct Nemesis {
    pub id: u64,
    pub pos: (u32, u32),
    pub w: u32,
    pub h: u32,
    pub last_dir: u32,
    /// The room (column, row) of the world map the player is in.
    pub coords: (usize, usize),
}

impl Nemesis {
    /// A rival with the standard player box, facing right, placed in room
    /// (0, 0).
    pub open spec fn spec_new(id: u64, pos: (u32, u32)) -> Nemesis {
        Nemesis {
            id,
            pos,
            w: PLAYER_WIDTH_BITS,
            h: PLAYER_HEIGHT_BITS,
            last_dir: FACING_RIGHT_BITS,
            coords: (0, 0),
        }
    }

    /// Creates a rival with the standard player box, facing right.
    pub fn new(id: u64, pos: (u32, u32)) -> (r: Nemesis)
        ensures
            r == Nemesis::spec_new(id, pos),
    {
        Nemesis {
            id,
            pos,
            w: PLAYER_WIDTH_BITS,
            h: PLAYER_HEIGHT_BITS,
            last_dir: FACING_RIGHT_BITS,
            coords: (0, 0),
        }
    }
}

} // verus!
