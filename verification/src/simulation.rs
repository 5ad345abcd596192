//! The simulation context: the optional player aggregate, spawn and
//! respawn, and the tick function that runs every core stage in its fixed
//! order.

use vstd::prelude::*;

use crate::common::{EventBus, InputSnapshot, PLAYER_GRAVITY_SCALE};
use crate::level::{
    any_started_with, broken_snowdrifts, collisions_ok, coord_ok, snow_dust, spawn_point,
    spring_up_spec, CollisionRecord, EntityKind, EntityRecord,
};
use crate::movement::{
    dash_dust_fires, dash_natural_over, dash_over_apply_spec, dash_trigger, jump_fires,
    player_climb_spec, player_dash_spec, player_jump_spec, player_move_spec, player_run_spec,
};
use crate::player::{
    collision_dash_over, collision_lockout_spec, dies, facing_update_spec, grounded_detect_spec,
    lockout_tick_spec, next_to_detect_spec, DashTracker, DustSpawn, DustTint, Facing,
    GroundedDetector, PlayerBody, PlayerCannotMoveTime, PlayerGrounded, PlayerNextTo, PlayerSim,
};
use crate::state_machine::{state_update_spec, PlayerState};

verus! {

/// The whole simulation state: at most one player body at a time.  Between
/// a death and the next respawn there is none, and every tick no-ops.
#[derive(Clone, Copy, Debug, PartialEq, Eq, Structural)]
pub struct World {
    pub player: Option<PlayerSim>,
}

impl World {
    pub open spec fn wf(self) -> bool {
        match self.player {
            Some(sim) => sim.wf(),
            None => true,
        }
    }

    /// A world with no player yet.
    pub fn empty() -> (w: World)
        ensures
            w == (World { player: None::<PlayerSim> }),
    {
        World { player: None }
    }
}

/// The aggregate a fresh player body starts from: standing, facing right,
/// at rest under default gravity, with every detector and countdown reset.
pub open spec fn initial_sim(x: i32, y: i32) -> PlayerSim {
    PlayerSim {
        body: PlayerBody { x, y, vx: 0, vy: 0, gravity: PLAYER_GRAVITY_SCALE, facing: Facing::Right },
        state: PlayerState::Standing,
        last_state: PlayerState::Standing,
        grounded: PlayerGrounded(false),
        detector: GroundedDetector { last_y: y, counter: 0 },
        next_to: PlayerNextTo(None),
        lockout: PlayerCannotMoveTime(0),
        dash: DashTracker { window_ms: 0, dust_ms: 0 },
        prev_input: InputSnapshot { left: false, right: false, down: false, jump: false, dash: false },
    }
}

/// Creates a fresh player aggregate at the given position.
pub fn spawn_player(x: i32, y: i32) -> (sim: PlayerSim)
    ensures
        sim == initial_sim(x, y),
        sim.wf(),
{
    PlayerSim {
        body: PlayerBody { x, y, vx: 0, vy: 0, gravity: PLAYER_GRAVITY_SCALE, facing: Facing::Right },
        state: PlayerState::Standing,
        last_state: PlayerState::Standing,
        grounded: PlayerGrounded(false),
        detector: GroundedDetector { last_y: y, counter: 0 },
        next_to: PlayerNextTo(None),
        lockout: PlayerCannotMoveTime(0),
        dash: DashTracker { window_ms: 0, dust_ms: 0 },
        prev_input: InputSnapshot { left: false, right: false, down: false, jump: false, dash: false },
    }
}

/// Respawn: when no player body exists and the level data records a spawn
/// point, exactly one fresh player is created at the first recorded spawn
/// position, standing and facing right.  When a player already exists, or
/// the level records no spawn point, nothing changes.
pub fn player_revive(world: &mut World, entities: &Vec<EntityRecord>)
    requires
        old(world).wf(),
    ensures
        final(world).wf(),
        old(world).player is Some ==> *final(world) == *old(world),
        old(world).player is None ==> match spawn_point(entities@) {
            Some(p) => final(world).player == Some(initial_sim(p.0, p.1)),
            None => *final(world) == *old(world),
        },
{
    if world.player.is_none() {
        match crate::level::find_spawn_point(entities) {
            Some(p) => {
                world.player = Some(spawn_player(p.0, p.1));
            },
            None => {},
        }
    }
}

/// Everything the host hands the simulation for one tick: the elapsed
/// time, the key snapshot, the observed state of the physics body, the two
/// short horizontal ray casts, and the collision notifications that
/// involve the player.
#[derive(Debug)]
pub struct TickInput {
    /// Elapsed real time of this tick, in milliseconds.
    pub dt_ms: u32,
    /// Which logical keys are held down.
    pub keys: InputSnapshot,
    /// Observed horizontal position of the body, in tenths of a world unit.
    pub x: i32,
    /// Observed vertical position of the body, rounded to a tenth of a
    /// world unit.
    pub y: i32,
    /// Observed horizontal velocity, in tenths of a world unit per second.
    pub vx: i32,
    /// Observed vertical velocity, in tenths of a world unit per second.
    pub vy: i32,
    /// Category of whatever the short ray to the left hit, if anything.
    pub left_ray: Option<EntityKind>,
    /// Category of whatever the short ray to the right hit, if anything.
    pub right_ray: Option<EntityKind>,
    /// This tick's collision notifications involving the player body.
    pub collisions: Vec<CollisionRecord>,
}

impl TickInput {
    /// Well-formedness: every reported coordinate is a representable world
    /// coordinate.
    pub open spec fn wf(self) -> bool {
        coord_ok(self.x) && coord_ok(self.y) && collisions_ok(self.collisions@)
    }
}

/// Everything a tick hands back to the host: the signals raised during the
/// tick, the cosmetic dust to spawn, the snowdrifts to despawn, and
/// whether the player died.
#[derive(Debug)]
pub struct TickEffects {
    pub events: EventBus,
    pub dust: Vec<DustSpawn>,
    pub broken_snowdrifts: Vec<u64>,
    pub died: bool,
}

/// The observation stage: the tick starts from the body the physics host
/// actually integrated, not from last tick's writes.
pub open spec fn observe_spec(sim: PlayerSim, input: TickInput) -> PlayerSim {
    PlayerSim {
        body: PlayerBody { x: input.x, y: input.y, vx: input.vx, vy: input.vy, ..sim.body },
        ..sim
    }
}

/// The signals one tick raises.  All of them depend only on the aggregate
/// as the tick begins: the stages that raise them run before any stage
/// changes the fields they read.
pub open spec fn tick_bus(sim: PlayerSim, input: TickInput) -> EventBus {
    EventBus {
        dash_start: dash_trigger(sim, input.keys),
        dash_over: dash_natural_over(sim, input.dt_ms) || collision_dash_over(
            sim,
            input.collisions@,
        ),
        spring_launch: any_started_with(input.collisions@, EntityKind::Spring),
        camera_shake: dash_trigger(sim, input.keys) || dies(input.collisions@),
    }
}

/// One tick of the player aggregate, as the composition of the stages in
/// their fixed order: observation, the two detectors, the lockout
/// countdown, the motion policy (run, aerial control, jump, dash, climb),
/// the collision handling (lockout release, spring), the dash-over
/// application, the facing update, the state machine, and finally the key
/// snapshot for the next tick's edge detection.
pub open spec fn tick_sim(sim: PlayerSim, input: TickInput) -> PlayerSim {
    let bus = tick_bus(sim, input);
    let s1 = observe_spec(sim, input);
    let s2 = grounded_detect_spec(s1, input.y);
    let s3 = next_to_detect_spec(s2, input.left_ray, input.right_ray);
    let s4 = lockout_tick_spec(s3, input.dt_ms);
    let s5 = player_run_spec(s4, input.keys);
    let s6 = player_move_spec(s5, input.keys);
    let s7 = player_jump_spec(s6, input.keys);
    let s8 = player_dash_spec(s7, input.keys, input.dt_ms);
    let s9 = player_climb_spec(s8);
    let s10 = collision_lockout_spec(s9, input.collisions@);
    let s11 = spring_up_spec(s10, input.collisions@);
    let s12 = dash_over_apply_spec(s11, bus.dash_over);
    let s13 = facing_update_spec(s12);
    let s14 = state_update_spec(s13, bus, input.keys);
    PlayerSim { prev_input: input.keys, ..s14 }
}

/// The cosmetic dust one tick spawns, in the order the stages run: the
/// jump puff, the dash puff, the snowdrift bursts, the death burst.  Every
/// player-centred puff sits at the observed body position.
pub open spec fn tick_dust(sim: PlayerSim, input: TickInput) -> Seq<DustSpawn> {
    let here_plain = DustSpawn { x: input.x, y: input.y, tint: DustTint::Plain };
    let jump_d: Seq<DustSpawn> = if jump_fires(sim, input.keys) {
        seq![here_plain]
    } else {
        Seq::empty()
    };
    let dash_d: Seq<DustSpawn> = if dash_dust_fires(sim) {
        seq![DustSpawn { x: input.x, y: input.y, tint: DustTint::Dashing }]
    } else {
        Seq::empty()
    };
    let die_d: Seq<DustSpawn> = if dies(input.collisions@) {
        seq![here_plain]
    } else {
        Seq::empty()
    };
    jump_d + dash_d + snow_dust(sim.state, input.collisions@) + die_d
}

/// Runs one simulation tick on the player aggregate and reports the
/// effects the host must carry out.  The caller removes the aggregate when
/// the effects say the player died.
#[verifier::rlimit(100)]
pub fn player_tick(sim: &mut PlayerSim, input: &TickInput) -> (effects: TickEffects)
    requires
        old(sim).wf(),
        input.wf(),
    ensures
        *final(sim) == tick_sim(*old(sim), *input),
        final(sim).wf(),
        effects.events == tick_bus(*old(sim), *input),
        effects.dust@ == tick_dust(*old(sim), *input),
        effects.broken_snowdrifts@ == broken_snowdrifts(old(sim).state, input.collisions@),
        effects.died == dies(input.collisions@),
{
    let ghost sim0 = *sim;
    let mut bus = EventBus::quiet();
    let mut dust: Vec<DustSpawn> = Vec::new();
    sim.body.x = input.x;
    sim.body.y = input.y;
    sim.body.vx = input.vx;
    sim.body.vy = input.vy;
    assert(*sim == observe_spec(sim0, *input));
    crate::player::player_grounded_detect(sim, input.y);
    crate::player::player_next_to_detect(sim, input.left_ray, input.right_ray);
    crate::player::player_lockout_tick(sim, input.dt_ms);
    crate::movement::player_run(sim, &input.keys);
    crate::movement::player_move(sim, &input.keys);
    let ghost s6 = *sim;
    proof {
        assert(s6.body.x == input.x && s6.body.y == input.y);
        assert(s6.state == sim0.state && s6.prev_input == sim0.prev_input);
        assert(s6.dash == sim0.dash);
    }
    crate::movement::player_jump(sim, &input.keys, &mut dust);
    let ghost s7 = *sim;
    proof {
        assert(s7.state == sim0.state && s7.prev_input == sim0.prev_input);
        assert(s7.dash == sim0.dash);
        assert(s7.body.x == input.x && s7.body.y == input.y);
        assert(dust@ =~= crate::movement::jump_dust_spec(s6, input.keys));
    }
    crate::movement::player_dash(sim, &mut bus, &input.keys, input.dt_ms, &mut dust);
    let ghost s8 = *sim;
    crate::movement::player_climb(sim);
    let ghost s9 = *sim;
    proof {
        assert(s9.state == sim0.state);
        assert(bus == (EventBus {
            dash_start: dash_trigger(sim0, input.keys),
            dash_over: dash_natural_over(sim0, input.dt_ms),
            spring_launch: false,
            camera_shake: dash_trigger(sim0, input.keys),
        }));
        assert(dust@ =~= crate::movement::jump_dust_spec(s6, input.keys)
            + crate::movement::dash_dust_spec(s7, input.keys));
    }
    crate::player::handle_player_collision(sim, &mut bus, &input.collisions);
    crate::level::spring_up(sim, &mut bus, &input.collisions);
    let ghost s11 = *sim;
    proof {
        assert(s11.state == sim0.state);
        assert(s11.body.x == input.x && s11.body.y == input.y);
    }
    let broken = crate::level::snowdrift_broken(sim.state, &input.collisions, &mut dust);
    let died = crate::player::player_die(sim, &mut bus, &input.collisions, &mut dust);
    proof {
        assert(bus == tick_bus(sim0, *input));
        assert(dust@ =~= tick_dust(sim0, *input));
    }
    crate::movement::player_dash_over(sim, &bus);
    crate::player::player_facing_update(sim);
    crate::state_machine::player_state_machine(sim, &bus, &input.keys);
    sim.prev_input = input.keys;
    proof {
        assert(*sim == tick_sim(sim0, *input));
    }
    TickEffects { events: bus, dust, broken_snowdrifts: broken, died }
}

/// Runs one simulation tick on the world.  Without a player body the tick
/// is a graceful no-op; with one, the aggregate advances by `tick_sim` and
/// is removed if the player died.
pub fn world_tick(world: &mut World, input: &TickInput) -> (effects: TickEffects)
    requires
        old(world).wf(),
        input.wf(),
    ensures
        final(world).wf(),
        old(world).player is None ==> *final(world) == *old(world) && effects.dust@
            == Seq::<DustSpawn>::empty() && effects.broken_snowdrifts@ == Seq::<u64>::empty()
            && !effects.died && effects.events == (EventBus {
            dash_start: false,
            dash_over: false,
            spring_launch: false,
            camera_shake: false,
        }),
        old(world).player matches Some(sim) ==> final(world).player == (if dies(input.collisions@) {
            None
        } else {
            Some(tick_sim(sim, *input))
        }) && effects.events == tick_bus(sim, *input) && effects.dust@ == tick_dust(sim, *input)
            && effects.broken_snowdrifts@ == broken_snowdrifts(sim.state, input.collisions@)
            && effects.died == dies(input.collisions@),
{
    match world.player {
        None => TickEffects {
            events: EventBus::quiet(),
            dust: Vec::new(),
            broken_snowdrifts: Vec::new(),
            died: false,
        },
        Some(mut sim) => {
            let effects = player_tick(&mut sim, input);
            if effects.died {
                world.player = None;
            } else {
                world.player = Some(sim);
            }
            effects
        },
    }
}

/// The aggregate after a whole run of ticks, first input first.
pub open spec fn run_ticks(sim: PlayerSim, inputs: Seq<TickInput>) -> PlayerSim
    decreases inputs.len(),
{
    if inputs.len() == 0 {
        sim
    } else {
        run_ticks(tick_sim(sim, inputs[0]), inputs.subrange(1, inputs.len() as int))
    }
}

/// The real time a run of ticks spans, in milliseconds.
pub open spec fn total_ms(inputs: Seq<TickInput>) -> int
    decreases inputs.len(),
{
    if inputs.len() == 0 {
        0
    } else {
        inputs[0].dt_ms + total_ms(inputs.subrange(1, inputs.len() as int))
    }
}

/// Dash stickiness over a whole tick: while the dash window outlasts the
/// tick and no collision with a snowdrift starts, a dashing player is
/// still dashing afterwards and the window has shrunk by exactly the
/// tick's elapsed time.  Only a dash-over -- natural expiry or the
/// snowdrift collision -- can end the dash.
pub proof fn lemma_dash_window_sticky(sim: PlayerSim, input: TickInput)
    requires
        sim.state == PlayerState::Dashing,
        sim.dash.window_ms > input.dt_ms,
        !any_started_with(input.collisions@, EntityKind::Snowdrift),
    ensures
        tick_sim(sim, input).state == PlayerState::Dashing,
        tick_sim(sim, input).dash.window_ms == sim.dash.window_ms - input.dt_ms,
{
}

/// Dash stickiness over a whole run of ticks: however long the run, while
/// its total elapsed time stays inside the dash window and no collision
/// with a snowdrift starts, the player dashes through all of it, and the
/// window has shrunk by exactly the elapsed time.
pub proof fn lemma_dash_sticky_through_window(sim: PlayerSim, inputs: Seq<TickInput>)
    requires
        sim.state == PlayerState::Dashing,
        total_ms(inputs) < sim.dash.window_ms,
        forall|i: int|
            0 <= i < inputs.len() ==> !any_started_with(
                (#[trigger] inputs[i]).collisions@,
                EntityKind::Snowdrift,
            ),
    ensures
        run_ticks(sim, inputs).state == PlayerState::Dashing,
        run_ticks(sim, inputs).dash.window_ms == sim.dash.window_ms - total_ms(inputs),
    decreases inputs.len(),
{
    if inputs.len() > 0 {
        let rest = inputs.subrange(1, inputs.len() as int);
        lemma_total_ms_nonneg(rest);
        lemma_dash_window_sticky(sim, inputs[0]);
        assert(forall|i: int| 0 <= i < rest.len() ==> rest[i] == inputs[i + 1]);
        lemma_dash_sticky_through_window(tick_sim(sim, inputs[0]), rest);
    }
}

/// Jump edge-triggering over consecutive ticks: when the jump key is held
/// through a tick, the following tick cannot fire the jump again -- the
/// press edge was consumed, whatever else happened in between.
pub proof fn lemma_jump_fires_once(sim: PlayerSim, first: TickInput, second: TickInput)
    requires
        first.keys.jump,
    ensures
        !jump_fires(tick_sim(sim, first), second.keys),
{
}

/// After any nonempty run of ticks, the recorded key snapshot is the last
/// tick's: edge detection always compares against what the previous tick
/// actually held.
pub proof fn lemma_run_ticks_last_keys(sim: PlayerSim, inputs: Seq<TickInput>)
    requires
        inputs.len() > 0,
    ensures
        run_ticks(sim, inputs).prev_input == inputs.last().keys,
    decreases inputs.len(),
{
    let rest = inputs.subrange(1, inputs.len() as int);
    if inputs.len() == 1 {
        assert(rest.len() == 0);
        assert(run_ticks(tick_sim(sim, inputs[0]), rest) == tick_sim(sim, inputs[0]));
    } else {
        lemma_run_ticks_last_keys(tick_sim(sim, inputs[0]), rest);
        assert(rest.last() == inputs.last());
    }
}

/// Jump edge-triggering over a whole held span: while the jump key is held
/// through a run of ticks, only the very first tick of the span can fire
/// the jump -- every later tick sees no press edge, so holding the key
/// gives exactly one impulse.
pub proof fn lemma_held_jump_fires_at_most_once(sim: PlayerSim, inputs: Seq<TickInput>, i: int)
    requires
        1 <= i < inputs.len(),
        forall|j: int| 0 <= j < inputs.len() ==> (#[trigger] inputs[j]).keys.jump,
    ensures
        !jump_fires(run_ticks(sim, inputs.subrange(0, i)), inputs[i].keys),
{
    let prefix = inputs.subrange(0, i);
    lemma_run_ticks_last_keys(sim, prefix);
    assert(prefix.last() == inputs[i - 1]);
}

/// A quiet tick -- no collision notifications, jump key up -- changes the
/// movement lockout by exactly its countdown: down by the tick's elapsed
/// time, floored at zero.
#[verifier::rlimit(100)]
pub proof fn lemma_quiet_tick_lockout(sim: PlayerSim, input: TickInput)
    requires
        input.collisions@.len() == 0,
        !input.keys.jump,
    ensures
        tick_sim(sim, input).lockout.0 == crate::player::counted_down(
            sim.lockout.0,
            input.dt_ms,
        ),
{
}

/// A run of ticks spans a nonnegative amount of real time.
pub proof fn lemma_total_ms_nonneg(inputs: Seq<TickInput>)
    ensures
        total_ms(inputs) >= 0,
    decreases inputs.len(),
{
    if inputs.len() > 0 {
        lemma_total_ms_nonneg(inputs.subrange(1, inputs.len() as int));
    }
}

/// Wall-jump lockout, the countdown side: over any run of quiet ticks the
/// lockout falls by exactly the elapsed real time, floored at zero -- so a
/// lockout of the wall-jump duration ends precisely when that duration has
/// elapsed, and not before.
pub proof fn lemma_lockout_runs_down(sim: PlayerSim, inputs: Seq<TickInput>)
    requires
        forall|i: int|
            0 <= i < inputs.len() ==> (#[trigger] inputs[i]).collisions@.len() == 0
                && !inputs[i].keys.jump,
    ensures
        run_ticks(sim, inputs).lockout.0 == (if sim.lockout.0 >= total_ms(inputs) {
            sim.lockout.0 - total_ms(inputs)
        } else {
            0
        }),
    decreases inputs.len(),
{
    if inputs.len() > 0 {
        let rest = inputs.subrange(1, inputs.len() as int);
        lemma_quiet_tick_lockout(sim, inputs[0]);
        assert(forall|i: int|
            0 <= i < rest.len() ==> (#[trigger] rest[i]).collisions@.len() == 0
                && !rest[i].keys.jump) by {
            assert(forall|i: int| 0 <= i < rest.len() ==> rest[i] == inputs[i + 1]);
        }
        lemma_total_ms_nonneg(rest);
        lemma_lockout_runs_down(tick_sim(sim, inputs[0]), rest);
    }
}

/// Wall-jump lockout, the blocking side: while the lockout outlasts a
/// quiet airborne tick, held direction keys have no effect -- the tick
/// returns the body with exactly the velocity the physics host reported.
pub proof fn lemma_lockout_holds_velocity(sim: PlayerSim, input: TickInput)
    requires
        sim.state == PlayerState::Jumping,
        sim.lockout.0 > input.dt_ms,
        input.collisions@.len() == 0,
    ensures
        tick_sim(sim, input).body.vx == input.vx,
        tick_sim(sim, input).body.vy == input.vy,
{
}

/// Wall-jump lockout, the resumption side: on the first tick the lockout
/// no longer covers, a held direction steers the body again at run speed
/// (away from any wall on that side).
pub proof fn lemma_lockout_expiry_restores_control(sim: PlayerSim, input: TickInput)
    requires
        sim.state == PlayerState::Jumping,
        sim.lockout.0 <= input.dt_ms,
        input.keys.right,
        !input.keys.left,
        input.right_ray != Some(EntityKind::Terrain),
        input.collisions@.len() == 0,
        !input.keys.jump,
    ensures
        tick_sim(sim, input).body.vx == crate::common::PLAYER_RUN_SPEED,
{
}

} // verus!
