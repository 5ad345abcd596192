//! The per-player aggregate and its thin per-tick detectors: the debounced
//! grounded flag, wall adjacency, facing, the movement lockout countdown,
//! and the collision-driven interruptions (snowdrift dash stop, death).

use vstd::prelude::*;

use crate::common::{EventBus, InputSnapshot, GROUNDED_CLEAR_COUNT, GROUNDED_RAISE_COUNT};
use crate::level::{any_started, any_started_with, CollisionRecord, EntityKind};
use crate::state_machine::PlayerState;

verus! {

/// Which way the player faces.  It follows the sign of the horizontal
/// velocity and persists while that velocity is zero.
#[derive(Clone, Copy, Debug, PartialEq, Eq, Structural)]
pub enum Facing {
    Left,
    Right,
}

impl Default for Facing {
    /// A freshly spawned player faces right.
    fn default() -> (f: Facing)
        ensures
            f == Facing::Right,
    {
        Facing::Right
    }
}

/// Which side, if any, the player is touching climbable terrain on.
#[derive(Clone, Copy, Debug, PartialEq, Eq, Structural)]
pub enum NextToSomething {
    LeftNext,
    RightNext,
}

/// The debounced grounded flag.
#[derive(Clone, Copy, Debug, PartialEq, Eq, Structural)]
pub struct PlayerGrounded(pub bool);

/// The wall adjacency derived from the two short horizontal ray casts.
#[derive(Clone, Copy, Debug, PartialEq, Eq, Structural)]
pub struct PlayerNextTo(pub Option<NextToSomething>);

/// Milliseconds for which held-direction input is still ignored after a
/// wall jump; zero when movement is free.
#[derive(Clone, Copy, Debug, PartialEq, Eq, Structural)]
pub struct PlayerCannotMoveTime(pub u32);

/// State of the grounded detector: the vertical position seen last tick
/// (rounded to a tenth of a world unit) and the stability counter, which
/// stays within `[0, GROUNDED_RAISE_COUNT]`.
#[derive(Clone, Copy, Debug, PartialEq, Eq, Structural)]
pub struct GroundedDetector {
    pub last_y: i32,
    pub counter: i32,
}

/// The dash countdowns: the remaining dash window and the throttle on the
/// cosmetic dust spawned while dashing, both in milliseconds.
#[derive(Clone, Copy, Debug, PartialEq, Eq, Structural)]
pub struct DashTracker {
    pub window_ms: u32,
    pub dust_ms: u32,
}

/// The physical quantities of the player body, as the simulation sees and
/// writes them.  Positions are in tenths of a world unit, velocities in
/// tenths of a world unit per second; the host's physics engine integrates
/// them between ticks.
#[derive(Clone, Copy, Debug, PartialEq, Eq, Structural)]
pub struct PlayerBody {
    pub x: i32,
    pub y: i32,
    pub vx: i32,
    pub vy: i32,
    /// Gravity multiplier; zero while dashing or climbing.
    pub gravity: i32,
    pub facing: Facing,
}

/// Tint of a cosmetic dust puff.
#[derive(Clone, Copy, Debug, PartialEq, Eq, Structural)]
pub enum DustTint {
    Plain,
    Dashing,
}

/// A request to the renderer for one cosmetic dust puff.
#[derive(Clone, Copy, Debug, PartialEq, Eq, Structural)]
pub struct DustSpawn {
    pub x: i32,
    pub y: i32,
    pub tint: DustTint,
}

/// Everything the simulation keeps per player: the body, the movement
/// state, the detectors, the countdowns and the previous tick's key
/// snapshot (for edge detection).  Created when the player spawns and
/// dropped when the player dies.
#[derive(Clone, Copy, Debug, PartialEq, Eq, Structural)]
pub struct PlayerSim {
    pub body: PlayerBody,
    pub state: PlayerState,
    /// The state the previous tick ran under; entering and leaving
    /// `Climbing` is detected against it.
    pub last_state: PlayerState,
    pub grounded: PlayerGrounded,
    pub detector: GroundedDetector,
    pub next_to: PlayerNextTo,
    pub lockout: PlayerCannotMoveTime,
    pub dash: DashTracker,
    pub prev_input: InputSnapshot,
}

impl PlayerSim {
    /// Well-formedness: the grounded stability counter stays in its band.
    pub open spec fn wf(self) -> bool {
        0 <= self.detector.counter <= GROUNDED_RAISE_COUNT
    }
}

/// The stability counter after one tick: up if the rounded vertical
/// position repeated, down if it changed, clamped to the band.
pub open spec fn bumped_counter(c: int, stable: bool) -> int {
    let moved = if stable {
        c + 1
    } else {
        c - 1
    };
    if moved > GROUNDED_RAISE_COUNT {
        GROUNDED_RAISE_COUNT as int
    } else if moved < 0 {
        0
    } else {
        moved
    }
}

/// The grounded detector stage: bump the stability counter from the
/// reported vertical position, raise the flag at the top of the band and
/// clear it below `GROUNDED_CLEAR_COUNT`.
pub open spec fn grounded_detect_spec(sim: PlayerSim, y: i32) -> PlayerSim {
    let c = bumped_counter(sim.detector.counter as int, y == sim.detector.last_y);
    let g = if c == GROUNDED_RAISE_COUNT {
        true
    } else if c < GROUNDED_CLEAR_COUNT {
        false
    } else {
        sim.grounded.0
    };
    PlayerSim {
        grounded: PlayerGrounded(g),
        detector: GroundedDetector { last_y: y, counter: c as i32 },
        ..sim
    }
}

/// Maintains the debounced grounded flag from the body's vertical position,
/// reported rounded to a tenth of a world unit.
pub fn player_grounded_detect(sim: &mut PlayerSim, y: i32)
    requires
        old(sim).wf(),
    ensures
        *final(sim) == grounded_detect_spec(*old(sim), y),
        final(sim).wf(),
{
    let stable = y == sim.detector.last_y;
    let mut c: i32 = if stable {
        sim.detector.counter + 1
    } else {
        sim.detector.counter - 1
    };
    if c > GROUNDED_RAISE_COUNT {
        c = GROUNDED_RAISE_COUNT;
    }
    if c < 0 {
        c = 0;
    }
    if c == GROUNDED_RAISE_COUNT && !sim.grounded.0 {
        sim.grounded.0 = true;
    } else if c < GROUNDED_CLEAR_COUNT && sim.grounded.0 {
        sim.grounded.0 = false;
    }
    sim.detector.counter = c;
    sim.detector.last_y = y;
}

/// The wall adjacency stage: left ray first, then right, else none.
pub open spec fn next_to_detect_spec(
    sim: PlayerSim,
    left_ray: Option<EntityKind>,
    right_ray: Option<EntityKind>,
) -> PlayerSim {
    let n = if left_ray == Some(EntityKind::Terrain) {
        Some(NextToSomething::LeftNext)
    } else if right_ray == Some(EntityKind::Terrain) {
        Some(NextToSomething::RightNext)
    } else {
        None
    };
    PlayerSim { next_to: PlayerNextTo(n), ..sim }
}

/// Derives the wall adjacency from the two short horizontal ray casts,
/// given the category of whatever each ray hit.  The left ray is consulted
/// first: in a corridor touching both sides, left wins.
pub fn player_next_to_detect(
    sim: &mut PlayerSim,
    left_ray: Option<EntityKind>,
    right_ray: Option<EntityKind>,
)
    ensures
        *final(sim) == next_to_detect_spec(*old(sim), left_ray, right_ray),
{
    sim.next_to.0 = match left_ray {
        Some(EntityKind::Terrain) => Some(NextToSomething::LeftNext),
        _ => match right_ray {
            Some(EntityKind::Terrain) => Some(NextToSomething::RightNext),
            _ => None,
        },
    };
}

/// The facing stage: follow the sign of the horizontal velocity, keep the
/// old facing when it is zero.
pub open spec fn facing_update_spec(sim: PlayerSim) -> PlayerSim {
    let f = if sim.body.vx > 0 {
        Facing::Right
    } else if sim.body.vx < 0 {
        Facing::Left
    } else {
        sim.body.facing
    };
    PlayerSim { body: PlayerBody { facing: f, ..sim.body }, ..sim }
}

/// Updates the facing from the horizontal velocity.
pub fn player_facing_update(sim: &mut PlayerSim)
    ensures
        *final(sim) == facing_update_spec(*old(sim)),
{
    if sim.body.vx > 0 {
        sim.body.facing = Facing::Right;
    } else if sim.body.vx < 0 {
        sim.body.facing = Facing::Left;
    }
}

/// A countdown after one tick of `dt` milliseconds: down by `dt`, floored
/// at zero.
pub open spec fn counted_down(ms: u32, dt: u32) -> u32 {
    if ms >= dt {
        (ms - dt) as u32
    } else {
        0
    }
}

/// The tracker stage: the movement lockout counts down every tick.
pub open spec fn lockout_tick_spec(sim: PlayerSim, dt: u32) -> PlayerSim {
    PlayerSim { lockout: PlayerCannotMoveTime(counted_down(sim.lockout.0, dt)), ..sim }
}

/// Counts the movement lockout down by the tick's elapsed time.
pub fn player_lockout_tick(sim: &mut PlayerSim, dt: u32)
    ensures
        *final(sim) == lockout_tick_spec(*old(sim), dt),
{
    if sim.lockout.0 >= dt {
        sim.lockout.0 = sim.lockout.0 - dt;
    } else {
        sim.lockout.0 = 0;
    }
}

/// Whether the tick's collisions force the running dash to end: the player
/// is dashing and a collision with a snowdrift started.
pub open spec fn collision_dash_over(sim: PlayerSim, cs: Seq<CollisionRecord>) -> bool {
    sim.state == PlayerState::Dashing && any_started_with(cs, EntityKind::Snowdrift)
}

/// The collision stage on the aggregate: any collision that started this
/// tick releases the post-wall-jump movement lockout at once.
pub open spec fn collision_lockout_spec(sim: PlayerSim, cs: Seq<CollisionRecord>) -> PlayerSim {
    if any_started(cs) {
        PlayerSim { lockout: PlayerCannotMoveTime(0), ..sim }
    } else {
        sim
    }
}

/// Handles the tick's collision notifications: releases the movement
/// lockout on any started collision, and raises the dash-over signal when a
/// dashing player hits a snowdrift.
pub fn handle_player_collision(
    sim: &mut PlayerSim,
    bus: &mut EventBus,
    collisions: &Vec<CollisionRecord>,
)
    ensures
        *final(sim) == collision_lockout_spec(*old(sim), collisions@),
        *final(bus) == (EventBus {
            dash_over: old(bus).dash_over || collision_dash_over(*old(sim), collisions@),
            ..*old(bus)
        }),
{
    if crate::level::scan_started(collisions) {
        sim.lockout.0 = 0;
    }
    if matches!(sim.state, PlayerState::Dashing)
        && crate::level::scan_started_with(collisions, EntityKind::Snowdrift) {
        bus.dash_over = true;
    }
}

/// Whether the tick's collisions kill the player: a collision with a trap
/// started.
pub open spec fn dies(cs: Seq<CollisionRecord>) -> bool {
    any_started_with(cs, EntityKind::Trap)
}

/// The cosmetic burst that accompanies a death: one plain dust puff where
/// the body was.
pub open spec fn die_dust_spec(sim: PlayerSim, cs: Seq<CollisionRecord>) -> Seq<DustSpawn> {
    if dies(cs) {
        seq![DustSpawn { x: sim.body.x, y: sim.body.y, tint: DustTint::Plain }]
    } else {
        Seq::empty()
    }
}

/// Decides whether the player dies this tick: a started collision with a
/// trap despawns the body, spawns a dust burst where it was and asks for a
/// camera shake.  The caller removes the body when this returns true.
pub fn player_die(
    sim: &PlayerSim,
    bus: &mut EventBus,
    collisions: &Vec<CollisionRecord>,
    dust: &mut Vec<DustSpawn>,
) -> (died: bool)
    ensures
        died == dies(collisions@),
        *final(bus) == (EventBus { camera_shake: old(bus).camera_shake || dies(collisions@), ..*old(bus) }),
        final(dust)@ == old(dust)@ + die_dust_spec(*sim, collisions@),
{
    let hit = crate::level::scan_started_with(collisions, EntityKind::Trap);
    if hit {
        bus.camera_shake = true;
        dust.push(DustSpawn { x: sim.body.x, y: sim.body.y, tint: DustTint::Plain });
        assert(dust@ =~= old(dust)@ + die_dust_spec(*sim, collisions@));
    } else {
        assert(dust@ =~= old(dust)@ + die_dust_spec(*sim, collisions@));
    }
    hit
}

/// Grounded hysteresis: a single-tick glitch of the vertical position while
/// fully grounded does not clear the grounded flag; it only moves the
/// stability counter one step down the band.
pub proof fn lemma_grounded_hysteresis(sim: PlayerSim, y: i32)
    requires
        sim.wf(),
        sim.grounded.0,
        sim.detector.counter == GROUNDED_RAISE_COUNT,
        y != sim.detector.last_y,
    ensures
        grounded_detect_spec(sim, y).grounded.0,
        grounded_detect_spec(sim, y).detector.counter == GROUNDED_RAISE_COUNT - 1,
{
}

/// Grounded hysteresis, the clearing side: the grounded flag is only ever
/// cleared on a tick that leaves the stability counter below
/// `GROUNDED_CLEAR_COUNT`, so from a fully grounded rest it takes several
/// consecutive ticks of vertical movement, never one.
pub proof fn lemma_grounded_clear_needs_low_counter(sim: PlayerSim, y: i32)
    requires
        sim.wf(),
        sim.grounded.0,
    ensures
        !grounded_detect_spec(sim, y).grounded.0 ==> grounded_detect_spec(
            sim,
            y,
        ).detector.counter < GROUNDED_CLEAR_COUNT,
{
}

} // verus!
