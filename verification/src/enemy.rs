use vstd::prelude::*;

verus! {

/// What an enemy is currently doing; re-drawn at random at a fixed rate.
#[derive(Clone, Copy, Debug, PartialEq, Eq, Structural)]
pub enum EnemyState {
    Idle,
    WalkingLeft,
    WalkingRight,
    Jumping,
}

/// The horizontal and vertical impulse an enemy's state asks for in one
/// frame, before gravity and collisions are applied.
#[derive(Clone, Copy, Debug, PartialEq, Eq, Structural)]
pub enum EnemyMotion {
    /// Horizontal speed becomes zero.
    Stop,
    /// Horizontal speed becomes the walking speed towards the left.
    WalkLeft,
    /// Horizontal speed becomes the walking speed towards the right.
    WalkRight,
    /// Vertical speed becomes the jump impulse and the enemy leaves the ground.
    Jump,
    /// Speeds are left as they are.
    Keep,
}

/// The state drawn for a roll of the four-sided die: 0 idles, 1 walks left,
/// 2 walks right, anything else jumps.
pub open spec fn spec_state_from_roll(r: i32) -> EnemyState {
    if r == 0 {
        EnemyState::Idle
    } else if r == 1 {
        EnemyState::WalkingLeft
    } else if r == 2 {
        EnemyState::WalkingRight
    } else {
        EnemyState::Jumping
    }
}

/// The impulse of a state: a jump only happens from the ground, and a
/// jumping enemy in the air keeps its speeds.
pub open spec fn spec_motion(state: EnemyState, grounded: bool) -> EnemyMotion {
    match state {
        EnemyState::Idle => EnemyMotion::Stop,
        EnemyState::WalkingLeft => EnemyMotion::WalkLeft,
        EnemyState::WalkingRight => EnemyMotion::WalkRight,
        EnemyState::Jumping => if grounded { EnemyMotion::Jump } else { EnemyMotion::Keep },
    }
}

/// Calls `macroquad::rand::gen_range(0, 4)` on `i32`. Its source draws
/// `r` in `[0, 1)` from the global generator and truncates `4 * r`, so the
/// result lies in `0..4`; which value comes out depends on the generator's
/// state and is not stated.
#[verifier::external_body]
fn roll_four() -> (r: i32)
    ensures
        0 <= r < 4,
{
    macroquad::rand::gen_range(0i32, 4i32)
}

impl EnemyState {
    /// Maps a die roll to a state.
    pub fn from_roll(r: i32) -> (s: EnemyState)
        ensures
            s == spec_state_from_roll(r),
    {
        match r {
            0 => EnemyState::Idle,
            1 => EnemyState::WalkingLeft,
            2 => EnemyState::WalkingRight,
            _ => EnemyState::Jumping,
        }
    }

    /// Draws a new state from the game's random generator; every state can
    /// come out, each for one value of the roll.
    pub fn random() -> (s: EnemyState)
        ensures
            exists|r: i32| 0 <= r < 4 && s == spec_state_from_roll(r),
    {
        let r = roll_four();
        EnemyState::from_roll(r)
    }

    /// The impulse this state asks for, given whether the enemy stands on
    /// the ground.
    pub fn motion(self, grounded: bool) -> (m: EnemyMotion)
        ensures
            m == spec_motion(self, grounded),
    {
        match self {
            EnemyState::Idle => EnemyMotion::Stop,
            EnemyState::WalkingLeft => EnemyMotion::WalkLeft,
            EnemyState::WalkingRight => EnemyMotion::WalkRight,
            EnemyState::Jumping => if grounded {
                EnemyMotion::Jump
            } else {
                EnemyMotion::Keep
            },
        }
    }
}

/// Whether an enemy stands on the ground after its vertical move: when the
/// move collided it lands if it was falling and otherwise keeps what it had;
/// when the move was free it is in the air.
pub open spec fn spec_grounded_after_fall(collided: bool, falling: bool, was_grounded: bool) -> bool {
    if collided {
        falling || was_grounded
    } else {
        false
    }
}

/// The ground contact of an enemy after the vertical step of its physics.
pub fn grounded_after_fall(collided: bool, falling: bool, was_grounded: bool) -> (g: bool)
    ensures
        g == spec_grounded_after_fall(collided, falling, was_grounded),
        collided && falling ==> g,
        !collided ==> !g,
        collided && !falling ==> g == was_grounded,
{
    if collided {
        if falling {
            true
        } else {
            was_grounded
        }
    } else {
        false
    }
}

/// A vertical move that collides while falling always lands the enemy,
/// whether or not it stood on the ground before; a free move always leaves
/// it in the air; a collision while rising keeps the contact it had.
pub proof fn lemma_landing(was_grounded: bool)
    ensures
        spec_grounded_after_fall(true, true, was_grounded),
        !spec_grounded_after_fall(false, true, was_grounded),
        !spec_grounded_after_fall(false, false, was_grounded),
        spec_grounded_after_fall(true, false, was_grounded) == was_grounded,
{
}

/// An enemy only ever jumps from the ground.
pub proof fn lemma_jump_needs_ground(state: EnemyState, grounded: bool)
    ensures
        spec_motion(state, grounded) == EnemyMotion::Jump ==> grounded && state == EnemyState::Jumping,
{
}

} // verus!
