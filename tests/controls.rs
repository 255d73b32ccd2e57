use minecraft_physics::add;
use minecraft_physics::simulators::gen_simulator::GenSimulator;
use minecraft_physics::simulators::BlockProps;
use minecraft_physics::settings::physics_settings::AUTO_JUMP_COOLDOWN;
use minecraft_physics::states::jump::{JumpKind, JumpState};
use minecraft_physics::states::physics_context::CollisionBehavior;
use minecraft_physics::states::player_context::{ControlStateHandler, PlayerPoses};

#[test]
fn add_sums() {
    assert_eq!(add(2, 2), 4);
    assert_eq!(add(0, usize::MAX), usize::MAX);
}

#[test]
fn collision_behavior_new_keeps_fields() {
    let b = CollisionBehavior::new(false, true);
    assert!(!b.block_effects);
    assert!(b.affected_after_collision);
}

#[test]
fn collision_behavior_default_is_for_mobs() {
    let b = CollisionBehavior::default();
    assert!(b.block_effects);
    assert!(b.affected_after_collision);
}

#[test]
fn collided_projectile_stops() {
    let arrow = CollisionBehavior::new(false, false);
    assert!(arrow.should_move_entity(false, false));
    assert!(!arrow.should_move_entity(true, false));
    assert!(!arrow.should_move_entity(false, true));
    let mob = CollisionBehavior::new(true, true);
    assert!(mob.should_move_entity(true, true));
}

#[test]
fn pose_indices_follow_the_table() {
    assert_eq!(PlayerPoses::default(), PlayerPoses::Standing);
    assert_eq!(PlayerPoses::Standing.index(), 0);
    assert_eq!(PlayerPoses::Sleeping.index(), 2);
    assert_eq!(PlayerPoses::LongJumping.index(), 6);
    assert_eq!(PlayerPoses::Dying.index(), 7);
}

#[test]
fn key_directions() {
    let none = ControlStateHandler::default();
    assert_eq!(none.strafe_direction(), 0);
    assert_eq!(none.forward_direction(), 0);
    let c = ControlStateHandler { forward: true, left: true, ..Default::default() };
    assert_eq!(c.strafe_direction(), -1);
    assert_eq!(c.forward_direction(), 1);
    let both = ControlStateHandler { forward: true, back: true, right: true, ..Default::default() };
    assert_eq!(both.strafe_direction(), 1);
    assert_eq!(both.forward_direction(), 0);
}

#[test]
fn sneaking_cancels_sprint() {
    let mut c = ControlStateHandler { sprint: true, sneak: true, forward: true, ..Default::default() };
    c.cancel_sprint_if_slowed(false);
    assert!(!c.sprint);
    assert!(c.forward && c.sneak);
    let mut d = ControlStateHandler { sprint: true, ..Default::default() };
    d.cancel_sprint_if_slowed(true);
    assert!(!d.sprint);
    let mut e = ControlStateHandler { sprint: true, ..Default::default() };
    e.cancel_sprint_if_slowed(false);
    assert!(e.sprint);
}

#[test]
fn ground_jump_starts_cooldown() {
    let mut s = JumpState { jump_ticks: 0, jump_queued: false };
    assert_eq!(s.tick(true, false, true), JumpKind::Leap);
    assert_eq!(s.jump_ticks, AUTO_JUMP_COOLDOWN);
    assert_eq!(s.jump_ticks, 10);
}

#[test]
fn held_jump_waits_for_cooldown() {
    let mut s = JumpState { jump_ticks: 10, jump_queued: false };
    for expected in (1..10).rev() {
        assert_eq!(s.tick(true, false, true), JumpKind::Stay);
        assert_eq!(s.jump_ticks, expected);
    }
    assert_eq!(s.tick(true, false, true), JumpKind::Leap);
    assert_eq!(s.jump_ticks, 10);
}

#[test]
fn jump_in_water_swims() {
    let mut s = JumpState { jump_ticks: 3, jump_queued: false };
    assert_eq!(s.tick(true, true, true), JumpKind::Swim);
    assert_eq!(s.jump_ticks, 2);
}

#[test]
fn airborne_jump_does_nothing() {
    let mut s = JumpState { jump_ticks: 0, jump_queued: false };
    assert_eq!(s.tick(true, false, false), JumpKind::Stay);
    assert_eq!(s.jump_ticks, 0);
}

#[test]
fn releasing_jump_clears_cooldown() {
    let mut s = JumpState { jump_ticks: 7, jump_queued: false };
    assert_eq!(s.tick(false, false, true), JumpKind::Stay);
    assert_eq!(s.jump_ticks, 0);
}

#[test]
fn queued_jump_is_consumed() {
    let mut s = JumpState { jump_ticks: 0, jump_queued: true };
    assert_eq!(s.tick(false, false, true), JumpKind::Leap);
    assert!(!s.jump_queued);
    assert_eq!(s.tick(false, false, true), JumpKind::Stay);
    assert_eq!(s.jump_ticks, 0);
}

#[test]
fn block_props_default_is_dry() {
    assert!(!BlockProps::default().waterlogged);
}

#[test]
fn gen_simulator_is_plain() {
    assert_eq!(GenSimulator::default(), GenSimulator {});
}
