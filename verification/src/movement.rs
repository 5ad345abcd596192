//! The motion policy: for the current movement state, each tick these
//! stages write velocity and gravity onto the player body.  They never
//! decide state transitions; the state machine does that afterwards.

use vstd::prelude::*;

use crate::common::{
    EventBus, InputSnapshot, DASH_DURATION_MS, DUST_CADENCE_MS, LOCKOUT_DURATION_MS,
    PLAYER_DASH_SPEED, PLAYER_GRAVITY_SCALE, PLAYER_JUMP_SPEED, PLAYER_RUN_SPEED,
    PLAYER_SLIDE_SPEED, WALL_JUMP_SPEED_X, WALL_JUMP_SPEED_Y,
};
use crate::player::{
    counted_down, DashTracker, DustSpawn, DustTint, Facing, NextToSomething, PlayerBody,
    PlayerCannotMoveTime, PlayerSim,
};
use crate::state_machine::PlayerState;

verus! {

/// The horizontal velocity the run stage writes: the held direction at run
/// speed, the left key winning when both are held, and zero when neither
/// is held.
pub open spec fn run_vx(keys: InputSnapshot) -> i32 {
    if keys.left {
        (-PLAYER_RUN_SPEED) as i32
    } else if keys.right {
        PLAYER_RUN_SPEED
    } else {
        0
    }
}

/// The run stage: on the ground (`Standing` or `Running`) the horizontal
/// velocity follows the held direction; the vertical velocity is left to
/// gravity.
pub open spec fn player_run_spec(sim: PlayerSim, keys: InputSnapshot) -> PlayerSim {
    if sim.state == PlayerState::Standing || sim.state == PlayerState::Running {
        PlayerSim { body: PlayerBody { vx: run_vx(keys), ..sim.body }, ..sim }
    } else {
        sim
    }
}

/// Drives the grounded run: writes the horizontal velocity from the held
/// direction keys while the player stands or runs.
pub fn player_run(sim: &mut PlayerSim, keys: &InputSnapshot)
    ensures
        *final(sim) == player_run_spec(*old(sim), *keys),
{
    if matches!(sim.state, PlayerState::Standing | PlayerState::Running) {
        if keys.left {
            sim.body.vx = -PLAYER_RUN_SPEED;
        } else if keys.right {
            sim.body.vx = PLAYER_RUN_SPEED;
        } else {
            sim.body.vx = 0;
        }
    }
}

/// The aerial-control stage: while jumping or climbing, and only when the
/// movement lockout has run out, the horizontal velocity follows the held
/// direction -- unless the player touches a wall on that same side, in
/// which case the velocity is left alone so the body does not snap back
/// onto the wall it is leaving.
pub open spec fn player_move_spec(sim: PlayerSim, keys: InputSnapshot) -> PlayerSim {
    if sim.lockout.0 > 0 {
        sim
    } else if sim.state == PlayerState::Jumping || sim.state == PlayerState::Climbing {
        if keys.left {
            if sim.next_to.0 == Some(NextToSomething::LeftNext) {
                sim
            } else {
                PlayerSim { body: PlayerBody { vx: (-PLAYER_RUN_SPEED) as i32, ..sim.body }, ..sim }
            }
        } else if keys.right {
            if sim.next_to.0 == Some(NextToSomething::RightNext) {
                sim
            } else {
                PlayerSim { body: PlayerBody { vx: PLAYER_RUN_SPEED, ..sim.body }, ..sim }
            }
        } else {
            PlayerSim { body: PlayerBody { vx: 0, ..sim.body }, ..sim }
        }
    } else {
        sim
    }
}

/// Drives aerial horizontal control while jumping or climbing.
pub fn player_move(sim: &mut PlayerSim, keys: &InputSnapshot)
    ensures
        *final(sim) == player_move_spec(*old(sim), *keys),
{
    if sim.lockout.0 > 0 {
        return;
    }
    if matches!(sim.state, PlayerState::Jumping | PlayerState::Climbing) {
        if keys.left {
            if !matches!(sim.next_to.0, Some(NextToSomething::LeftNext)) {
                sim.body.vx = -PLAYER_RUN_SPEED;
            }
        } else if keys.right {
            if !matches!(sim.next_to.0, Some(NextToSomething::RightNext)) {
                sim.body.vx = PLAYER_RUN_SPEED;
            }
        } else {
            sim.body.vx = 0;
        }
    }
}

/// Whether the state admits a jump trigger: on the ground or climbing.
pub open spec fn jump_eligible(state: PlayerState) -> bool {
    state == PlayerState::Standing || state == PlayerState::Running || state
        == PlayerState::Climbing
}

/// Whether the jump triggers this tick: an eligible state, the jump key on
/// its press edge (down now, up last tick), and the down key not held.
pub open spec fn jump_fires(sim: PlayerSim, keys: InputSnapshot) -> bool {
    jump_eligible(sim.state) && keys.jump && !sim.prev_input.jump && !keys.down
}

/// The jump stage.  A plain jump writes the vertical jump speed and leaves
/// the horizontal velocity alone.  A jump out of `Climbing` is a wall
/// jump: a diagonal kick-off away from the wall, and the movement lockout
/// starts so that held-direction input cannot cancel the kick at once.
pub open spec fn player_jump_spec(sim: PlayerSim, keys: InputSnapshot) -> PlayerSim {
    if !jump_fires(sim, keys) {
        sim
    } else if sim.state == PlayerState::Climbing {
        let b = if sim.next_to.0 == Some(NextToSomething::LeftNext) {
            PlayerBody { vx: WALL_JUMP_SPEED_X, vy: WALL_JUMP_SPEED_Y, ..sim.body }
        } else if sim.next_to.0 == Some(NextToSomething::RightNext) {
            PlayerBody { vx: (-WALL_JUMP_SPEED_X) as i32, vy: WALL_JUMP_SPEED_Y, ..sim.body }
        } else {
            sim.body
        };
        PlayerSim { body: b, lockout: PlayerCannotMoveTime(LOCKOUT_DURATION_MS), ..sim }
    } else {
        PlayerSim { body: PlayerBody { vy: PLAYER_JUMP_SPEED, ..sim.body }, ..sim }
    }
}

/// The cosmetic dust that accompanies a jump trigger: one plain puff where
/// the body is.
pub open spec fn jump_dust_spec(sim: PlayerSim, keys: InputSnapshot) -> Seq<DustSpawn> {
    if jump_fires(sim, keys) {
        seq![DustSpawn { x: sim.body.x, y: sim.body.y, tint: DustTint::Plain }]
    } else {
        Seq::empty()
    }
}

/// Triggers the jump on the jump key's press edge.
pub fn player_jump(sim: &mut PlayerSim, keys: &InputSnapshot, dust: &mut Vec<DustSpawn>)
    ensures
        *final(sim) == player_jump_spec(*old(sim), *keys),
        final(dust)@ == old(dust)@ + jump_dust_spec(*old(sim), *keys),
{
    let eligible = matches!(
        sim.state,
        PlayerState::Standing | PlayerState::Running | PlayerState::Climbing
    );
    if eligible && keys.jump && !sim.prev_input.jump && !keys.down {
        if matches!(sim.state, PlayerState::Climbing) {
            match sim.next_to.0 {
                Some(NextToSomething::LeftNext) => {
                    sim.body.vx = WALL_JUMP_SPEED_X;
                    sim.body.vy = WALL_JUMP_SPEED_Y;
                },
                Some(NextToSomething::RightNext) => {
                    sim.body.vx = -WALL_JUMP_SPEED_X;
                    sim.body.vy = WALL_JUMP_SPEED_Y;
                },
                None => {},
            }
            sim.lockout.0 = LOCKOUT_DURATION_MS;
        } else {
            sim.body.vy = PLAYER_JUMP_SPEED;
        }
        dust.push(DustSpawn { x: sim.body.x, y: sim.body.y, tint: DustTint::Plain });
        assert(dust@ =~= old(dust)@ + jump_dust_spec(*old(sim), *keys));
    } else {
        assert(dust@ =~= old(dust)@ + jump_dust_spec(*old(sim), *keys));
    }
}

/// Whether the dash triggers this tick: the dash key on its press edge
/// while not already dashing -- a dash cannot be re-triggered mid-dash.
pub open spec fn dash_trigger(sim: PlayerSim, keys: InputSnapshot) -> bool {
    keys.dash && !sim.prev_input.dash && sim.state != PlayerState::Dashing
}

/// Whether the dash window drives the body this tick: the window is still
/// open and the state machine has already entered `Dashing`.
pub open spec fn dash_driving(sim: PlayerSim) -> bool {
    sim.dash.window_ms > 0 && sim.state == PlayerState::Dashing
}

/// Whether the dash dust throttle fires this tick.
pub open spec fn dash_dust_fires(sim: PlayerSim) -> bool {
    dash_driving(sim) && sim.dash.dust_ms == 0
}

/// Whether the dash window runs out naturally on this tick's drive.
pub open spec fn dash_natural_over(sim: PlayerSim, dt: u32) -> bool {
    dash_driving(sim) && counted_down(sim.dash.window_ms, dt) == 0
}

/// The dash stage on the aggregate.  A trigger opens the dash window; a
/// drive counts it down and writes the dash velocity along the facing with
/// gravity off, throttling the cosmetic dust to its own cadence.
pub open spec fn player_dash_spec(sim: PlayerSim, keys: InputSnapshot, dt: u32) -> PlayerSim {
    let s1 = if dash_trigger(sim, keys) {
        PlayerSim { dash: DashTracker { window_ms: DASH_DURATION_MS, ..sim.dash }, ..sim }
    } else {
        sim
    };
    if dash_driving(s1) {
        let vx = if s1.body.facing == Facing::Left {
            (-PLAYER_DASH_SPEED) as i32
        } else {
            PLAYER_DASH_SPEED
        };
        let dust_ms = if s1.dash.dust_ms > 0 {
            counted_down(s1.dash.dust_ms, dt)
        } else {
            DUST_CADENCE_MS
        };
        PlayerSim {
            body: PlayerBody { vx, vy: 0, gravity: 0, ..s1.body },
            dash: DashTracker { window_ms: counted_down(s1.dash.window_ms, dt), dust_ms },
            ..s1
        }
    } else {
        s1
    }
}

/// The signals the dash stage raises: dash-start and a camera shake on a
/// trigger, dash-over when the window runs out naturally.
pub open spec fn player_dash_bus_spec(
    sim: PlayerSim,
    bus: EventBus,
    keys: InputSnapshot,
    dt: u32,
) -> EventBus {
    EventBus {
        dash_start: bus.dash_start || dash_trigger(sim, keys),
        dash_over: bus.dash_over || dash_natural_over(sim, dt),
        camera_shake: bus.camera_shake || dash_trigger(sim, keys),
        ..bus
    }
}

/// The cosmetic dust of the dash drive, at most one puff per tick.
pub open spec fn dash_dust_spec(sim: PlayerSim, keys: InputSnapshot) -> Seq<DustSpawn> {
    if dash_dust_fires(sim) {
        seq![DustSpawn { x: sim.body.x, y: sim.body.y, tint: DustTint::Dashing }]
    } else {
        Seq::empty()
    }
}

/// Triggers and drives the dash.
pub fn player_dash(
    sim: &mut PlayerSim,
    bus: &mut EventBus,
    keys: &InputSnapshot,
    dt: u32,
    dust: &mut Vec<DustSpawn>,
)
    ensures
        *final(sim) == player_dash_spec(*old(sim), *keys, dt),
        *final(bus) == player_dash_bus_spec(*old(sim), *old(bus), *keys, dt),
        final(dust)@ == old(dust)@ + dash_dust_spec(*old(sim), *keys),
{
    if keys.dash && !sim.prev_input.dash && !matches!(sim.state, PlayerState::Dashing) {
        sim.dash.window_ms = DASH_DURATION_MS;
        bus.dash_start = true;
        bus.camera_shake = true;
    }
    if sim.dash.window_ms > 0 && matches!(sim.state, PlayerState::Dashing) {
        if sim.dash.window_ms >= dt {
            sim.dash.window_ms = sim.dash.window_ms - dt;
        } else {
            sim.dash.window_ms = 0;
        }
        if matches!(sim.body.facing, Facing::Left) {
            sim.body.vx = -PLAYER_DASH_SPEED;
        } else {
            sim.body.vx = PLAYER_DASH_SPEED;
        }
        sim.body.vy = 0;
        sim.body.gravity = 0;
        if sim.dash.dust_ms > 0 {
            if sim.dash.dust_ms >= dt {
                sim.dash.dust_ms = sim.dash.dust_ms - dt;
            } else {
                sim.dash.dust_ms = 0;
            }
        } else {
            dust.push(DustSpawn { x: sim.body.x, y: sim.body.y, tint: DustTint::Dashing });
            sim.dash.dust_ms = DUST_CADENCE_MS;
        }
        if sim.dash.window_ms == 0 {
            bus.dash_over = true;
        }
    }
    assert(dust@ =~= old(dust)@ + dash_dust_spec(*old(sim), *keys));
}

/// The dash-over stage: on a dash-over signal, from natural expiry or a
/// collision, the horizontal velocity is zeroed and gravity restored.
pub open spec fn dash_over_apply_spec(sim: PlayerSim, dash_over: bool) -> PlayerSim {
    if dash_over {
        PlayerSim { body: PlayerBody { vx: 0, gravity: PLAYER_GRAVITY_SCALE, ..sim.body }, ..sim }
    } else {
        sim
    }
}

/// Applies the dash-over signal to the body.  Runs after every producer of
/// the signal -- the dash drive and the collision handling -- so the signal
/// is consumed in the tick that raises it.
pub fn player_dash_over(sim: &mut PlayerSim, bus: &EventBus)
    ensures
        *final(sim) == dash_over_apply_spec(*old(sim), bus.dash_over),
{
    if bus.dash_over {
        sim.body.vx = 0;
        sim.body.gravity = PLAYER_GRAVITY_SCALE;
    }
}

/// The climb stage.  On the tick the state enters `Climbing` the body
/// starts a slow downward slide with gravity off; on the tick it leaves,
/// gravity is restored; in between the body slides passively with no
/// further writes.
pub open spec fn player_climb_spec(sim: PlayerSim) -> PlayerSim {
    let entering = sim.state == PlayerState::Climbing && sim.last_state != PlayerState::Climbing;
    let leaving = sim.state != PlayerState::Climbing && sim.last_state == PlayerState::Climbing;
    let b = if entering {
        PlayerBody { vx: 0, vy: (-PLAYER_SLIDE_SPEED) as i32, gravity: 0, ..sim.body }
    } else if leaving {
        PlayerBody { gravity: PLAYER_GRAVITY_SCALE, ..sim.body }
    } else {
        sim.body
    };
    PlayerSim { body: b, last_state: sim.state, ..sim }
}

/// Applies the climbing entry and exit effects and records this tick's
/// state for the next tick's edge detection.
pub fn player_climb(sim: &mut PlayerSim)
    ensures
        *final(sim) == player_climb_spec(*old(sim)),
{
    let climbing_now = matches!(sim.state, PlayerState::Climbing);
    let climbing_before = matches!(sim.last_state, PlayerState::Climbing);
    if climbing_now && !climbing_before {
        sim.body.vx = 0;
        sim.body.vy = -PLAYER_SLIDE_SPEED;
        sim.body.gravity = 0;
    } else if !climbing_now && climbing_before {
        sim.body.gravity = PLAYER_GRAVITY_SCALE;
    }
    sim.last_state = sim.state;
}

/// Jump edge-triggering: if the jump key was already down on the previous
/// tick, holding it does not fire again -- the jump stage leaves the
/// aggregate untouched and spawns nothing.
pub proof fn lemma_jump_needs_edge(sim: PlayerSim, keys: InputSnapshot)
    requires
        sim.prev_input.jump,
    ensures
        !jump_fires(sim, keys),
        player_jump_spec(sim, keys) == sim,
        jump_dust_spec(sim, keys) == Seq::<DustSpawn>::empty(),
{
}

/// Movement lockout: while the post-wall-jump lockout is positive, the
/// aerial-control stage ignores every held key -- the body is untouched.
pub proof fn lemma_lockout_blocks_movement(sim: PlayerSim, keys: InputSnapshot)
    requires
        sim.lockout.0 > 0,
    ensures
        player_move_spec(sim, keys) == sim,
{
}

/// Movement lockout, the resumption side: the tick the lockout has run
/// out, a held direction steers the body again at run speed (away from any
/// wall on that side).
pub proof fn lemma_movement_resumes(sim: PlayerSim, keys: InputSnapshot)
    requires
        sim.lockout.0 == 0,
        sim.state == PlayerState::Jumping || sim.state == PlayerState::Climbing,
    ensures
        keys.left && !keys.right && sim.next_to.0 != Some(NextToSomething::LeftNext)
            ==> player_move_spec(sim, keys).body.vx == -PLAYER_RUN_SPEED,
        !keys.left && keys.right && sim.next_to.0 != Some(NextToSomething::RightNext)
            ==> player_move_spec(sim, keys).body.vx == PLAYER_RUN_SPEED,
{
}

} // verus!
