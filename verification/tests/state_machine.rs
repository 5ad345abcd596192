//! Rule-by-rule checks of the state machine's fixed priority order.

use platformer_core::common::{EventBus, InputSnapshot};
use platformer_core::player::{NextToSomething, PlayerNextTo, PlayerSim};
use platformer_core::simulation::spawn_player;
use platformer_core::state_machine::{player_state_machine, PlayerState};

fn keys_none() -> InputSnapshot {
    InputSnapshot::released()
}

fn grounded_sim() -> PlayerSim {
    let mut sim = spawn_player(0, 0);
    sim.grounded.0 = true;
    sim.detector.counter = 5;
    sim
}

#[test]
fn dash_start_signal_forces_dashing() {
    let mut sim = grounded_sim();
    let bus = EventBus { dash_start: true, dash_over: false, spring_launch: false, camera_shake: true };
    player_state_machine(&mut sim, &bus, &keys_none());
    assert_eq!(sim.state, PlayerState::Dashing);
}

#[test]
fn dash_start_signal_wins_over_every_other_rule() {
    // Grounded, at rest, next to a wall with the key held: without the
    // signal this would be Standing; with it, Dashing.
    let mut sim = grounded_sim();
    sim.next_to = PlayerNextTo(Some(NextToSomething::LeftNext));
    let mut keys = keys_none();
    keys.left = true;
    let bus = EventBus { dash_start: true, dash_over: true, spring_launch: false, camera_shake: false };
    player_state_machine(&mut sim, &bus, &keys);
    assert_eq!(sim.state, PlayerState::Dashing);
}

#[test]
fn dashing_without_dash_over_stays_dashing() {
    let mut sim = grounded_sim();
    sim.state = PlayerState::Dashing;
    let bus = EventBus::quiet();
    player_state_machine(&mut sim, &bus, &keys_none());
    assert_eq!(sim.state, PlayerState::Dashing);
}

#[test]
fn dash_over_signal_releases_the_dash() {
    let mut sim = grounded_sim();
    sim.state = PlayerState::Dashing;
    sim.body.vx = 0;
    let bus = EventBus { dash_start: false, dash_over: true, spring_launch: false, camera_shake: false };
    player_state_machine(&mut sim, &bus, &keys_none());
    assert_eq!(sim.state, PlayerState::Standing);
}

#[test]
fn grounded_and_slow_is_standing() {
    let mut sim = grounded_sim();
    sim.state = PlayerState::Running;
    sim.body.vx = 0;
    player_state_machine(&mut sim, &EventBus::quiet(), &keys_none());
    assert_eq!(sim.state, PlayerState::Standing);
}

#[test]
fn grounded_and_moving_is_running() {
    let mut sim = grounded_sim();
    sim.body.vx = 500;
    player_state_machine(&mut sim, &EventBus::quiet(), &keys_none());
    assert_eq!(sim.state, PlayerState::Running);

    // the threshold is exact: one tenth of a unit per second already runs
    let mut slow = grounded_sim();
    slow.body.vx = 1;
    player_state_machine(&mut slow, &EventBus::quiet(), &keys_none());
    assert_eq!(slow.state, PlayerState::Running);
}

#[test]
fn airborne_next_to_wall_with_key_is_climbing() {
    let mut sim = spawn_player(0, 0);
    sim.next_to = PlayerNextTo(Some(NextToSomething::LeftNext));
    let mut keys = keys_none();
    keys.left = true;
    player_state_machine(&mut sim, &EventBus::quiet(), &keys);
    assert_eq!(sim.state, PlayerState::Climbing);
}

#[test]
fn wall_without_matching_key_is_jumping() {
    let mut sim = spawn_player(0, 0);
    sim.next_to = PlayerNextTo(Some(NextToSomething::LeftNext));
    let mut keys = keys_none();
    keys.right = true;
    player_state_machine(&mut sim, &EventBus::quiet(), &keys);
    assert_eq!(sim.state, PlayerState::Jumping);
}

#[test]
fn airborne_without_wall_is_jumping() {
    let mut sim = spawn_player(0, 0);
    sim.state = PlayerState::Standing;
    player_state_machine(&mut sim, &EventBus::quiet(), &keys_none());
    assert_eq!(sim.state, PlayerState::Jumping);
}
