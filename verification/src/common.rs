//! Design constants, the per-tick input snapshot and the one-shot event bus.

use vstd::prelude::*;

verus! {

// Speeds are in tenths of a world unit per second.

/// Horizontal speed while running on the ground.
pub const PLAYER_RUN_SPEED: i32 = 500;
/// Vertical speed applied by a plain jump.
pub const PLAYER_JUMP_SPEED: i32 = 3000;
/// Horizontal speed during a dash.
pub const PLAYER_DASH_SPEED: i32 = 2000;
/// Downward slide speed while clinging to a wall.
pub const PLAYER_SLIDE_SPEED: i32 = 200;
/// Vertical speed applied when a spring launches the player.
pub const SPRING_SPEED: i32 = 3000;
/// Horizontal part of the wall-jump kick-off impulse.
pub const WALL_JUMP_SPEED_X: i32 = 1000;
/// Vertical part of the wall-jump kick-off impulse.
pub const WALL_JUMP_SPEED_Y: i32 = 2000;

/// Default gravity multiplier on the player body; dashing and climbing set it to zero.
pub const PLAYER_GRAVITY_SCALE: i32 = 1;

/// A grounded player with a horizontal speed below this limit is standing,
/// at or above it running.
pub const STAND_SPEED_LIMIT: i32 = 1;

// Durations are in milliseconds.

/// How long a dash drives the body at dash speed.
pub const DASH_DURATION_MS: u32 = 200;
/// How long held-direction input is ignored after a wall jump.
pub const LOCKOUT_DURATION_MS: u32 = 200;
/// Cadence of the cosmetic dust spawned while dashing.
pub const DUST_CADENCE_MS: u32 = 20;

/// The grounded flag is raised when the stability counter reaches this value.
pub const GROUNDED_RAISE_COUNT: i32 = 5;
/// The grounded flag is cleared when the stability counter drops below this value.
pub const GROUNDED_CLEAR_COUNT: i32 = 2;

/// Bound on the world coordinates the host may report, far beyond any level
/// and small enough that offsetting a coordinate by a tile never overflows.
pub const MAX_COORD: i32 = 1_000_000_000;

/// Which logical keys are held down during one tick.
///
/// Edge detection ("just pressed") is derived by the simulation from the
/// previous tick's snapshot; the host only reports what is held.
#[derive(Clone, Copy, Debug, PartialEq, Eq, Structural)]
pub struct InputSnapshot {
    pub left: bool,
    pub right: bool,
    pub down: bool,
    pub jump: bool,
    pub dash: bool,
}

impl InputSnapshot {
    /// A snapshot with no key held.
    pub fn released() -> (keys: InputSnapshot)
        ensures
            keys == (InputSnapshot {
                left: false,
                right: false,
                down: false,
                jump: false,
                dash: false,
            }),
    {
        InputSnapshot { left: false, right: false, down: false, jump: false, dash: false }
    }
}

/// One-shot signals raised while a tick runs and drained before it ends.
///
/// Every consumer within the tick reads the bus after all its producers have
/// run, so no raised signal is ever lost; the bus that leaves the tick is
/// handed to the host collaborators (camera, animation) and then dropped.
#[derive(Clone, Copy, Debug, PartialEq, Eq, Structural)]
pub struct EventBus {
    /// A dash was triggered this tick.
    pub dash_start: bool,
    /// A dash ended this tick, by natural expiry or forced by a collision.
    pub dash_over: bool,
    /// A spring launched the player this tick.
    pub spring_launch: bool,
    /// The camera was asked to shake this tick.
    pub camera_shake: bool,
}

impl EventBus {
    /// The bus at the start of a tick: nothing raised yet.
    pub fn quiet() -> (bus: EventBus)
        ensures
            bus == (EventBus {
                dash_start: false,
                dash_over: false,
                spring_launch: false,
                camera_shake: false,
            }),
    {
        EventBus { dash_start: false, dash_over: false, spring_launch: false, camera_shake: false }
    }
}

} // verus!
