//! The authoritative player movement states and the transition function
//! that is evaluated once at the end of every tick.

use vstd::prelude::*;

use crate::common::{EventBus, InputSnapshot, STAND_SPEED_LIMIT};
use crate::player::{NextToSomething, PlayerSim};

verus! {

/// The discrete movement state of the player.  Exactly one is active at
/// any tick; the machine starts at `Standing` and runs for the lifetime of
/// the player body.
#[derive(Clone, Copy, Debug, PartialEq, Eq, Structural)]
pub enum PlayerState {
    Standing,
    Running,
    Dashing,
    Jumping,
    Climbing,
}

impl Default for PlayerState {
    /// The machine starts, and restarts after a respawn, at `Standing`.
    fn default() -> (s: PlayerState)
        ensures
            s == PlayerState::Standing,
    {
        PlayerState::Standing
    }
}

/// The climbing rule: the player touches a wall on one side and holds the
/// matching direction key.
pub open spec fn climb_rule(
    next_to: Option<NextToSomething>,
    left_held: bool,
    right_held: bool,
) -> bool {
    (next_to == Some(NextToSomething::LeftNext) && left_held) || (next_to == Some(
        NextToSomething::RightNext,
    ) && right_held)
}

/// The transition function, with its rules in fixed priority order; the
/// first matching rule wins:
/// 1. a pending dash-start signal forces `Dashing`;
/// 2. a running dash with no pending dash-over signal stays `Dashing`;
/// 3. grounded with a horizontal speed under `STAND_SPEED_LIMIT` is `Standing`;
/// 4. grounded otherwise is `Running`;
/// 5. touching a wall while holding the matching direction key is `Climbing`;
/// 6. airborne otherwise is `Jumping`;
/// 7. otherwise the state is left unchanged.
pub open spec fn next_state_spec(
    current: PlayerState,
    dash_start: bool,
    dash_over: bool,
    grounded: bool,
    vx: i32,
    next_to: Option<NextToSomething>,
    left_held: bool,
    right_held: bool,
) -> PlayerState {
    if dash_start {
        PlayerState::Dashing
    } else if current == PlayerState::Dashing && !dash_over {
        PlayerState::Dashing
    } else if grounded && -STAND_SPEED_LIMIT < vx < STAND_SPEED_LIMIT {
        PlayerState::Standing
    } else if grounded {
        PlayerState::Running
    } else if climb_rule(next_to, left_held, right_held) {
        PlayerState::Climbing
    } else if !grounded {
        PlayerState::Jumping
    } else {
        current
    }
}

/// The state-machine stage on the aggregate: only the state changes, to
/// what the transition function yields from this tick's signals, detector
/// outputs, velocity and held keys.
pub open spec fn state_update_spec(sim: PlayerSim, bus: EventBus, keys: InputSnapshot) -> PlayerSim {
    PlayerSim {
        state: next_state_spec(
            sim.state,
            bus.dash_start,
            bus.dash_over,
            sim.grounded.0,
            sim.body.vx,
            sim.next_to.0,
            keys.left,
            keys.right,
        ),
        ..sim
    }
}

/// Evaluates the transition rules and writes the next state.  Runs after
/// the motion policy and the collision handling of the same tick, so it
/// sees every signal raised during the tick.
pub fn player_state_machine(sim: &mut PlayerSim, bus: &EventBus, keys: &InputSnapshot)
    ensures
        *final(sim) == state_update_spec(*old(sim), *bus, *keys),
{
    let next = if bus.dash_start {
        PlayerState::Dashing
    } else if matches!(sim.state, PlayerState::Dashing) && !bus.dash_over {
        PlayerState::Dashing
    } else if sim.grounded.0 && -STAND_SPEED_LIMIT < sim.body.vx && sim.body.vx < STAND_SPEED_LIMIT {
        PlayerState::Standing
    } else if sim.grounded.0 {
        PlayerState::Running
    } else {
        let climbing = match sim.next_to.0 {
            Some(NextToSomething::LeftNext) => keys.left,
            Some(NextToSomething::RightNext) => keys.right,
            None => false,
        };
        if climbing {
            PlayerState::Climbing
        } else {
            PlayerState::Jumping
        }
    };
    sim.state = next;
}

/// Totality of the state machine: every tick the transition function
/// yields one of the five movement states, whatever its inputs, so exactly
/// one state is active at any tick.
pub proof fn lemma_state_machine_total(
    current: PlayerState,
    dash_start: bool,
    dash_over: bool,
    grounded: bool,
    vx: i32,
    next_to: Option<NextToSomething>,
    left_held: bool,
    right_held: bool,
)
    ensures
        ({
            let n = next_state_spec(
                current,
                dash_start,
                dash_over,
                grounded,
                vx,
                next_to,
                left_held,
                right_held,
            );
            n == PlayerState::Standing || n == PlayerState::Running || n == PlayerState::Dashing
                || n == PlayerState::Jumping || n == PlayerState::Climbing
        }),
{
}

/// Dash stickiness at the transition rules: a pending dash-start signal
/// forces `Dashing`, and a running dash leaves `Dashing` only on a
/// dash-over signal -- no other rule can preempt it.
pub proof fn lemma_dash_sticky(
    current: PlayerState,
    dash_start: bool,
    dash_over: bool,
    grounded: bool,
    vx: i32,
    next_to: Option<NextToSomething>,
    left_held: bool,
    right_held: bool,
)
    ensures
        dash_start ==> next_state_spec(
            current,
            dash_start,
            dash_over,
            grounded,
            vx,
            next_to,
            left_held,
            right_held,
        ) == PlayerState::Dashing,
        current == PlayerState::Dashing && !dash_over ==> next_state_spec(
            current,
            dash_start,
            dash_over,
            grounded,
            vx,
            next_to,
            left_held,
            right_held,
        ) == PlayerState::Dashing,
{
}

} // verus!
