//! The motion-policy stages: run, aerial control with its lockout, jump
//! edge-triggering and wall jumps, the dash, and the climb transitions.

use platformer_core::common::{
    EventBus, InputSnapshot, DASH_DURATION_MS, DUST_CADENCE_MS, LOCKOUT_DURATION_MS,
    PLAYER_DASH_SPEED, PLAYER_GRAVITY_SCALE, PLAYER_JUMP_SPEED, PLAYER_RUN_SPEED,
    PLAYER_SLIDE_SPEED, WALL_JUMP_SPEED_X, WALL_JUMP_SPEED_Y,
};
use platformer_core::movement::{
    player_climb, player_dash, player_dash_over, player_jump, player_move, player_run,
};
use platformer_core::player::{
    DustSpawn, DustTint, Facing, NextToSomething, PlayerNextTo, PlayerSim,
};
use platformer_core::simulation::spawn_player;
use platformer_core::state_machine::PlayerState;

fn keys_none() -> InputSnapshot {
    InputSnapshot::released()
}

fn sim_in(state: PlayerState) -> PlayerSim {
    let mut sim = spawn_player(0, 0);
    sim.state = state;
    sim.last_state = state;
    sim
}

#[test]
fn run_follows_held_direction() {
    let mut sim = sim_in(PlayerState::Standing);
    let mut keys = keys_none();
    keys.right = true;
    player_run(&mut sim, &keys);
    assert_eq!(sim.body.vx, PLAYER_RUN_SPEED);

    keys.right = false;
    keys.left = true;
    player_run(&mut sim, &keys);
    assert_eq!(sim.body.vx, -PLAYER_RUN_SPEED);

    keys.left = false;
    player_run(&mut sim, &keys);
    assert_eq!(sim.body.vx, 0);
}

#[test]
fn run_left_wins_when_both_directions_held() {
    let mut sim = sim_in(PlayerState::Running);
    let mut keys = keys_none();
    keys.left = true;
    keys.right = true;
    player_run(&mut sim, &keys);
    assert_eq!(sim.body.vx, -PLAYER_RUN_SPEED);
}

#[test]
fn run_leaves_airborne_states_alone() {
    let mut sim = sim_in(PlayerState::Jumping);
    sim.body.vx = 77;
    let mut keys = keys_none();
    keys.right = true;
    player_run(&mut sim, &keys);
    assert_eq!(sim.body.vx, 77);
}

#[test]
fn aerial_control_follows_held_direction() {
    let mut sim = sim_in(PlayerState::Jumping);
    let mut keys = keys_none();
    keys.right = true;
    player_move(&mut sim, &keys);
    assert_eq!(sim.body.vx, PLAYER_RUN_SPEED);
    keys.right = false;
    player_move(&mut sim, &keys);
    assert_eq!(sim.body.vx, 0);
}

#[test]
fn aerial_control_left_wins_when_both_directions_held() {
    let mut sim = sim_in(PlayerState::Jumping);
    let mut keys = keys_none();
    keys.left = true;
    keys.right = true;
    player_move(&mut sim, &keys);
    assert_eq!(sim.body.vx, -PLAYER_RUN_SPEED);
}

#[test]
fn lockout_blocks_aerial_control() {
    let mut sim = sim_in(PlayerState::Jumping);
    sim.body.vx = 1000;
    sim.lockout.0 = 150;
    let mut keys = keys_none();
    keys.left = true;
    player_move(&mut sim, &keys);
    assert_eq!(sim.body.vx, 1000);
}

#[test]
fn aerial_control_does_not_push_into_the_wall_it_leaves() {
    let mut sim = sim_in(PlayerState::Jumping);
    sim.body.vx = 42;
    sim.next_to = PlayerNextTo(Some(NextToSomething::RightNext));
    let mut keys = keys_none();
    keys.right = true;
    player_move(&mut sim, &keys);
    assert_eq!(sim.body.vx, 42);

    // the opposite direction is free
    keys.right = false;
    keys.left = true;
    player_move(&mut sim, &keys);
    assert_eq!(sim.body.vx, -PLAYER_RUN_SPEED);
}

#[test]
fn jump_fires_on_the_press_edge_only() {
    let mut sim = sim_in(PlayerState::Standing);
    sim.body.vx = 123;
    let mut dust: Vec<DustSpawn> = Vec::new();
    let mut keys = keys_none();
    keys.jump = true;
    player_jump(&mut sim, &keys, &mut dust);
    assert_eq!(sim.body.vy, PLAYER_JUMP_SPEED);
    assert_eq!(sim.body.vx, 123, "a plain jump leaves horizontal velocity alone");
    assert_eq!(dust.len(), 1);

    // held across the next tick: the edge is gone, nothing fires again
    sim.prev_input = keys;
    sim.body.vy = 0;
    player_jump(&mut sim, &keys, &mut dust);
    assert_eq!(sim.body.vy, 0);
    assert_eq!(dust.len(), 1);
}

#[test]
fn jump_suppressed_while_down_is_held() {
    let mut sim = sim_in(PlayerState::Standing);
    let mut dust: Vec<DustSpawn> = Vec::new();
    let mut keys = keys_none();
    keys.jump = true;
    keys.down = true;
    player_jump(&mut sim, &keys, &mut dust);
    assert_eq!(sim.body.vy, 0);
    assert!(dust.is_empty());
}

#[test]
fn jump_not_available_while_airborne() {
    let mut sim = sim_in(PlayerState::Jumping);
    let mut dust: Vec<DustSpawn> = Vec::new();
    let mut keys = keys_none();
    keys.jump = true;
    player_jump(&mut sim, &keys, &mut dust);
    assert_eq!(sim.body.vy, 0);
    assert!(dust.is_empty());
}

#[test]
fn wall_jump_kicks_away_from_the_left_wall() {
    let mut sim = sim_in(PlayerState::Climbing);
    sim.next_to = PlayerNextTo(Some(NextToSomething::LeftNext));
    let mut dust: Vec<DustSpawn> = Vec::new();
    let mut keys = keys_none();
    keys.jump = true;
    player_jump(&mut sim, &keys, &mut dust);
    assert_eq!(sim.body.vx, WALL_JUMP_SPEED_X);
    assert_eq!(sim.body.vy, WALL_JUMP_SPEED_Y);
    assert_eq!(sim.lockout.0, LOCKOUT_DURATION_MS);
    assert_eq!(dust.len(), 1);
}

#[test]
fn wall_jump_kicks_away_from_the_right_wall() {
    let mut sim = sim_in(PlayerState::Climbing);
    sim.next_to = PlayerNextTo(Some(NextToSomething::RightNext));
    let mut dust: Vec<DustSpawn> = Vec::new();
    let mut keys = keys_none();
    keys.jump = true;
    player_jump(&mut sim, &keys, &mut dust);
    assert_eq!(sim.body.vx, -WALL_JUMP_SPEED_X);
    assert_eq!(sim.body.vy, WALL_JUMP_SPEED_Y);
    assert_eq!(sim.lockout.0, LOCKOUT_DURATION_MS);
}

#[test]
fn dash_trigger_opens_the_window_and_signals() {
    let mut sim = sim_in(PlayerState::Standing);
    let mut bus = EventBus::quiet();
    let mut dust: Vec<DustSpawn> = Vec::new();
    let mut keys = keys_none();
    keys.dash = true;
    player_dash(&mut sim, &mut bus, &keys, 50, &mut dust);
    assert_eq!(sim.dash.window_ms, DASH_DURATION_MS);
    assert!(bus.dash_start);
    assert!(bus.camera_shake);
    assert!(!bus.dash_over);
    // the trigger tick itself does not drive yet: the machine enters
    // Dashing at the end of this tick
    assert_eq!(sim.body.vx, 0);
    assert!(dust.is_empty());
}

#[test]
fn dash_cannot_retrigger_mid_dash() {
    let mut sim = sim_in(PlayerState::Dashing);
    sim.dash.window_ms = 70;
    let mut bus = EventBus::quiet();
    let mut dust: Vec<DustSpawn> = Vec::new();
    let mut keys = keys_none();
    keys.dash = true;
    player_dash(&mut sim, &mut bus, &keys, 50, &mut dust);
    assert!(!bus.dash_start);
    assert_eq!(sim.dash.window_ms, 20, "the running window counts down, it is not reset");
}

#[test]
fn dash_drives_along_the_facing() {
    let mut sim = sim_in(PlayerState::Dashing);
    sim.dash.window_ms = DASH_DURATION_MS;
    sim.body.facing = Facing::Left;
    sim.body.vy = -300;
    sim.body.gravity = PLAYER_GRAVITY_SCALE;
    let mut bus = EventBus::quiet();
    let mut dust: Vec<DustSpawn> = Vec::new();
    player_dash(&mut sim, &mut bus, &keys_none(), 50, &mut dust);
    assert_eq!(sim.body.vx, -PLAYER_DASH_SPEED);
    assert_eq!(sim.body.vy, 0);
    assert_eq!(sim.body.gravity, 0);
    assert_eq!(sim.dash.window_ms, 150);
    assert!(!bus.dash_over);
    assert_eq!(dust.len(), 1);
    assert_eq!(dust[0].tint, DustTint::Dashing);
    assert_eq!(sim.dash.dust_ms, DUST_CADENCE_MS);
}

#[test]
fn dash_dust_is_throttled_to_its_cadence() {
    let mut sim = sim_in(PlayerState::Dashing);
    sim.dash.window_ms = DASH_DURATION_MS;
    let mut bus = EventBus::quiet();
    let mut dust: Vec<DustSpawn> = Vec::new();
    // dt of 10 ms: a puff on the first drive, then two throttled ticks,
    // then a puff again
    for _ in 0..4 {
        player_dash(&mut sim, &mut bus, &keys_none(), 10, &mut dust);
    }
    assert_eq!(dust.len(), 2);
}

#[test]
fn dash_window_expiry_raises_dash_over() {
    let mut sim = sim_in(PlayerState::Dashing);
    sim.dash.window_ms = 50;
    let mut bus = EventBus::quiet();
    let mut dust: Vec<DustSpawn> = Vec::new();
    player_dash(&mut sim, &mut bus, &keys_none(), 50, &mut dust);
    assert_eq!(sim.dash.window_ms, 0);
    assert!(bus.dash_over);
}

#[test]
fn dash_over_zeroes_and_restores_gravity() {
    let mut sim = sim_in(PlayerState::Dashing);
    sim.body.vx = PLAYER_DASH_SPEED;
    sim.body.vy = -7;
    sim.body.gravity = 0;
    let bus = EventBus { dash_start: false, dash_over: true, spring_launch: false, camera_shake: false };
    player_dash_over(&mut sim, &bus);
    assert_eq!(sim.body.vx, 0);
    assert_eq!(sim.body.vy, -7, "only the horizontal velocity is zeroed");
    assert_eq!(sim.body.gravity, PLAYER_GRAVITY_SCALE);
}

#[test]
fn entering_climbing_starts_the_slide() {
    let mut sim = sim_in(PlayerState::Climbing);
    sim.last_state = PlayerState::Jumping;
    sim.body.vx = 500;
    sim.body.vy = -900;
    player_climb(&mut sim);
    assert_eq!(sim.body.vx, 0);
    assert_eq!(sim.body.vy, -PLAYER_SLIDE_SPEED);
    assert_eq!(sim.body.gravity, 0);
    assert_eq!(sim.last_state, PlayerState::Climbing);
}

#[test]
fn staying_in_climbing_writes_nothing() {
    let mut sim = sim_in(PlayerState::Climbing);
    sim.body.vy = -55;
    sim.body.gravity = 0;
    player_climb(&mut sim);
    assert_eq!(sim.body.vy, -55);
    assert_eq!(sim.body.gravity, 0);
}

#[test]
fn leaving_climbing_restores_gravity() {
    let mut sim = sim_in(PlayerState::Jumping);
    sim.last_state = PlayerState::Climbing;
    sim.body.gravity = 0;
    player_climb(&mut sim);
    assert_eq!(sim.body.gravity, PLAYER_GRAVITY_SCALE);
    assert_eq!(sim.last_state, PlayerState::Jumping);
}
