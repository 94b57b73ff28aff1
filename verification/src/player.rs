use vstd::prelude::*;

verus! {

/// The keys that drive the player in one frame.
#[derive(Clone, Copy, Debug, PartialEq, Eq, Structural)]
pub struct PlayerInput {
    /// The right arrow is held.
    pub right: bool,
    /// The left arrow is held.
    pub left: bool,
    /// Space was pressed in this frame.
    pub jump: bool,
    /// Z was pressed in this frame.
    pub shoot: bool,
}

/// Horizontal intent of the player.
#[derive(Clone, Copy, Debug, PartialEq, Eq, Structural)]
pub enum Walk {
    /// No horizontal speed; the facing direction is kept.
    Still,
    /// Walking speed to the left; the player faces left.
    Left,
    /// Walking speed to the right; the player faces right.
    Right,
}

/// What the player does in one frame, before physics.
#[derive(Clone, Copy, Debug, PartialEq, Eq, Structural)]
pub struct PlayerIntent {
    pub walk: Walk,
    /// The jump impulse is applied.
    pub jump: bool,
    /// A bullet is fired from the player's centre in the facing direction.
    pub shoot: bool,
}

/// The intent for the given keys: when both arrows are held the left one
/// wins; a jump needs the ground under the player.
pub open spec fn spec_intent(input: PlayerInput, grounded: bool) -> PlayerIntent {
    PlayerIntent {
        walk: if input.left { Walk::Left } else if input.right { Walk::Right } else { Walk::Still },
        jump: input.jump && grounded,
        shoot: input.shoot,
    }
}

/// The jump does not depend on the arrows: the player jumps exactly when
/// the jump key is pressed on the ground, and two inputs that differ only in
/// the arrows held give the same jump and the same shot.
pub proof fn lemma_jump_ignores_arrows(a: PlayerInput, b: PlayerInput, grounded: bool)
    ensures
        spec_intent(a, grounded).jump <==> (a.jump && grounded),
        spec_intent(a, grounded).shoot == a.shoot,
        (a.jump == b.jump && a.shoot == b.shoot) ==> {
            &&& spec_intent(a, grounded).jump == spec_intent(b, grounded).jump
            &&& spec_intent(a, grounded).shoot == spec_intent(b, grounded).shoot
        },
{
}

/// The left arrow decides the walk whenever it is held, the right arrow
/// only when the left one is not, and no arrow means standing still;
/// the jump and shoot keys never change the walk.
pub proof fn lemma_walk_follows_arrows(a: PlayerInput, grounded: bool)
    ensures
        a.left ==> spec_intent(a, grounded).walk == Walk::Left,
        !a.left && a.right ==> spec_intent(a, grounded).walk == Walk::Right,
        !a.left && !a.right ==> spec_intent(a, grounded).walk == Walk::Still,
{
}

impl PlayerInput {
    /// What the player does this frame for these keys.
    pub fn intent(self, grounded: bool) -> (r: PlayerIntent)
        ensures
            r == spec_intent(self, grounded),
            r.jump == (self.jump && grounded),
            r.shoot == self.shoot,
            r.walk == (if self.left { Walk::Left } else if self.right { Walk::Right } else { Walk::Still }),
    {
        let mut walk = Walk::Still;
        if self.right {
            walk = Walk::Right;
        }
        if self.left {
            walk = Walk::Left;
        }
        PlayerIntent { walk, jump: self.jump && grounded, shoot: self.shoot }
    }
}

} // verus!
