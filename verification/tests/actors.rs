use rustvania::enemy::{grounded_after_fall, EnemyMotion, EnemyState};
use rustvania::nemesis::{Nemesis, FACING_RIGHT_BITS, PLAYER_HEIGHT_BITS, PLAYER_WIDTH_BITS};
use rustvania::player::{PlayerInput, PlayerIntent, Walk};

#[test]
fn rolls_map_to_states() {
    assert_eq!(EnemyState::from_roll(0), EnemyState::Idle);
    assert_eq!(EnemyState::from_roll(1), EnemyState::WalkingLeft);
    assert_eq!(EnemyState::from_roll(2), EnemyState::WalkingRight);
    assert_eq!(EnemyState::from_roll(3), EnemyState::Jumping);
    assert_eq!(EnemyState::from_roll(-1), EnemyState::Jumping);
    assert_eq!(EnemyState::from_roll(17), EnemyState::Jumping);
}

#[test]
fn random_states_vary() {
    let mut seen = Vec::new();
    for _ in 0..200 {
        let s = EnemyState::random();
        if !seen.contains(&s) {
            seen.push(s);
        }
    }
    assert!(seen.len() >= 2, "the die always gave the same state: {:?}", seen);
}

#[test]
fn states_give_motions() {
    assert_eq!(EnemyState::Idle.motion(true), EnemyMotion::Stop);
    assert_eq!(EnemyState::WalkingLeft.motion(false), EnemyMotion::WalkLeft);
    assert_eq!(EnemyState::WalkingRight.motion(true), EnemyMotion::WalkRight);
    assert_eq!(EnemyState::Jumping.motion(true), EnemyMotion::Jump);
    assert_eq!(EnemyState::Jumping.motion(false), EnemyMotion::Keep);
}

#[test]
fn landing_rules() {
    assert!(grounded_after_fall(true, true, false));
    assert!(grounded_after_fall(true, false, true));
    assert!(!grounded_after_fall(true, false, false));
    assert!(!grounded_after_fall(false, true, true));
    assert!(!grounded_after_fall(false, false, true));
}

fn keys(right: bool, left: bool, jump: bool, shoot: bool) -> PlayerInput {
    PlayerInput { right, left, jump, shoot }
}

#[test]
fn player_walks_with_arrows() {
    assert_eq!(keys(true, false, false, false).intent(true).walk, Walk::Right);
    assert_eq!(keys(false, true, false, false).intent(true).walk, Walk::Left);
    assert_eq!(keys(false, false, false, false).intent(true).walk, Walk::Still);
}

#[test]
fn left_arrow_wins() {
    assert_eq!(
        keys(true, true, false, true).intent(false),
        PlayerIntent { walk: Walk::Left, jump: false, shoot: true }
    );
}

#[test]
fn jump_needs_ground() {
    assert!(keys(false, false, true, false).intent(true).jump);
    assert!(!keys(false, false, true, false).intent(false).jump);
    assert!(!keys(false, false, false, false).intent(true).jump);
}

#[test]
fn nemesis_box_is_the_player_box() {
    assert_eq!(PLAYER_WIDTH_BITS, 30.0f32.to_bits());
    assert_eq!(PLAYER_HEIGHT_BITS, 38.0f32.to_bits());
    assert_eq!(FACING_RIGHT_BITS, 1.0f32.to_bits());
    let n = Nemesis::new(7, (5.5f32.to_bits(), 6.0f32.to_bits()));
    assert_eq!(n.id, 7);
    assert_eq!(f32::from_bits(n.pos.0), 5.5);
    assert_eq!(f32::from_bits(n.pos.1), 6.0);
    assert_eq!(f32::from_bits(n.w), 30.0);
    assert_eq!(f32::from_bits(n.h), 38.0);
    assert_eq!(f32::from_bits(n.last_dir), 1.0);
    assert_eq!(n.coords, (0, 0));
}
