//! Level data as the simulation sees it: entity categories, the records the
//! host derives from the loaded level, and per-tick collision notifications.

use vstd::prelude::*;

use crate::common::{EventBus, MAX_COORD, SPRING_SPEED};
use crate::player::{DustSpawn, DustTint, PlayerBody, PlayerSim};
use crate::state_machine::PlayerState;

verus! {

/// Category of a level entity.  The host resolves every engine entity that
/// the player can meet to one of these; anything unrecognised is `Unknown`
/// and is ignored by the simulation.
#[derive(Clone, Copy, Debug, PartialEq, Eq, Structural)]
pub enum EntityKind {
    /// The level's recorded player spawn point.
    PlayerSpawn,
    /// Solid, climbable terrain.
    Terrain,
    /// A spring that launches the player upward.
    Spring,
    /// A lethal trap.
    Trap,
    /// A snowdrift that a dashing player breaks through.
    Snowdrift,
    /// A decorative wooden stand.
    WoodenStand,
    /// A decorative balloon rope.
    BalloonRope,
    /// Anything the host could not classify.
    Unknown,
}

/// One entity of the loaded level: its category and its world position,
/// in tenths of a world unit.
#[derive(Clone, Copy, Debug, PartialEq, Eq, Structural)]
pub struct EntityRecord {
    pub kind: EntityKind,
    pub x: i32,
    pub y: i32,
}

/// One collision notification involving the player body, as reported by the
/// physics host for the current tick.
#[derive(Clone, Copy, Debug, PartialEq, Eq, Structural)]
pub struct CollisionRecord {
    /// Host-side identity of the other body.
    pub other: u64,
    /// Category of the other body.
    pub kind: EntityKind,
    /// True for a collision that started this tick, false for one that stopped.
    pub started: bool,
    /// World position of the other body, in tenths of a world unit.
    pub x: i32,
    /// World position of the other body, in tenths of a world unit.
    pub y: i32,
}

/// Whether any collision in `cs` started this tick.
pub open spec fn any_started(cs: Seq<CollisionRecord>) -> bool {
    exists|i: int| 0 <= i < cs.len() && cs[i].started
}

/// Whether any collision in `cs` started this tick against a body of
/// category `kind`.
pub open spec fn any_started_with(cs: Seq<CollisionRecord>, kind: EntityKind) -> bool {
    exists|i: int| 0 <= i < cs.len() && cs[i].started && cs[i].kind == kind
}

/// Reports whether any collision started this tick.
pub fn scan_started(collisions: &Vec<CollisionRecord>) -> (r: bool)
    ensures
        r == any_started(collisions@),
{
    let mut i: usize = 0;
    while i < collisions.len()
        invariant
            0 <= i <= collisions.len(),
            !any_started(collisions@.subrange(0, i as int)),
        decreases collisions.len() - i,
    {
        if collisions[i].started {
            assert(collisions@[i as int].started);
            return true;
        }
        assert(collisions@.subrange(0, i as int + 1)
            =~= collisions@.subrange(0, i as int).push(collisions@[i as int]));
        i = i + 1;
    }
    assert(collisions@.subrange(0, i as int) =~= collisions@);
    false
}

/// Reports whether any collision started this tick against a body of the
/// given category.
pub fn scan_started_with(collisions: &Vec<CollisionRecord>, kind: EntityKind) -> (r: bool)
    ensures
        r == any_started_with(collisions@, kind),
{
    let mut i: usize = 0;
    while i < collisions.len()
        invariant
            0 <= i <= collisions.len(),
            !any_started_with(collisions@.subrange(0, i as int), kind),
        decreases collisions.len() - i,
    {
        if collisions[i].started && collisions[i].kind == kind {
            assert(collisions@[i as int].started && collisions@[i as int].kind == kind);
            return true;
        }
        assert(collisions@.subrange(0, i as int + 1)
            =~= collisions@.subrange(0, i as int).push(collisions@[i as int]));
        i = i + 1;
    }
    assert(collisions@.subrange(0, i as int) =~= collisions@);
    false
}

/// The position of the first recorded player spawn point, if any.
pub open spec fn spawn_point(es: Seq<EntityRecord>) -> Option<(i32, i32)>
    decreases es.len(),
{
    if es.len() == 0 {
        None
    } else if es[0].kind == EntityKind::PlayerSpawn {
        Some((es[0].x, es[0].y))
    } else {
        spawn_point(es.subrange(1, es.len() as int))
    }
}

/// Finds the first recorded player spawn point in the level data.
pub fn find_spawn_point(entities: &Vec<EntityRecord>) -> (r: Option<(i32, i32)>)
    ensures
        r == spawn_point(entities@),
{
    let mut i: usize = 0;
    assert(entities@.subrange(0, entities@.len() as int) =~= entities@);
    while i < entities.len()
        invariant
            0 <= i <= entities.len(),
            spawn_point(entities@) == spawn_point(
                entities@.subrange(i as int, entities@.len() as int),
            ),
        decreases entities.len() - i,
    {
        let e = entities[i];
        if matches!(e.kind, EntityKind::PlayerSpawn) {
            assert(entities@.subrange(i as int, entities@.len() as int)[0] == entities@[i as int]);
            return Some((e.x, e.y));
        }
        assert(entities@.subrange(i as int, entities@.len() as int).subrange(
            1,
            entities@.subrange(i as int, entities@.len() as int).len() as int,
        ) =~= entities@.subrange(i as int + 1, entities@.len() as int));
        i = i + 1;
    }
    assert(entities@.subrange(i as int, entities@.len() as int).len() == 0);
    None
}

/// Whether a world coordinate is one the host may report: far beyond any
/// level, yet small enough that offsetting it by a tile cannot overflow.
pub open spec fn coord_ok(v: i32) -> bool {
    -MAX_COORD <= v <= MAX_COORD
}

/// Well-formedness of a tick's collision notifications: every reported
/// position is a representable world coordinate.
pub open spec fn collisions_ok(cs: Seq<CollisionRecord>) -> bool {
    forall|i: int| 0 <= i < cs.len() ==> coord_ok(#[trigger] cs[i].x) && coord_ok(cs[i].y)
}

/// The spring stage: a started collision with a spring launches the player
/// straight up at spring speed.
pub open spec fn spring_up_spec(sim: PlayerSim, cs: Seq<CollisionRecord>) -> PlayerSim {
    if any_started_with(cs, EntityKind::Spring) {
        PlayerSim { body: PlayerBody { vy: SPRING_SPEED, ..sim.body }, ..sim }
    } else {
        sim
    }
}

/// Launches the player when a collision with a spring started this tick,
/// and raises the spring-launch signal for the host's spring animation.
pub fn spring_up(sim: &mut PlayerSim, bus: &mut EventBus, collisions: &Vec<CollisionRecord>)
    ensures
        *final(sim) == spring_up_spec(*old(sim), collisions@),
        *final(bus) == (EventBus {
            spring_launch: old(bus).spring_launch || any_started_with(
                collisions@,
                EntityKind::Spring,
            ),
            ..*old(bus)
        }),
{
    if scan_started_with(collisions, EntityKind::Spring) {
        sim.body.vy = SPRING_SPEED;
        bus.spring_launch = true;
    }
}

/// The snowdrifts a dashing player breaks through this tick: the identity
/// of every snowdrift whose collision started, in notification order.
/// A player who is not dashing breaks nothing.
pub open spec fn broken_snowdrifts(state: PlayerState, cs: Seq<CollisionRecord>) -> Seq<u64>
    decreases cs.len(),
{
    if state != PlayerState::Dashing || cs.len() == 0 {
        Seq::empty()
    } else {
        let rest = broken_snowdrifts(state, cs.drop_last());
        let last = cs.last();
        if last.started && last.kind == EntityKind::Snowdrift {
            rest.push(last.other)
        } else {
            rest
        }
    }
}

/// The four dust puffs of one breaking snowdrift, at its corners.
pub open spec fn drift_dust(c: CollisionRecord) -> Seq<DustSpawn> {
    seq![
        DustSpawn { x: (c.x + 40) as i32, y: (c.y + 40) as i32, tint: DustTint::Plain },
        DustSpawn { x: (c.x + 40) as i32, y: (c.y - 40) as i32, tint: DustTint::Plain },
        DustSpawn { x: (c.x - 40) as i32, y: (c.y + 40) as i32, tint: DustTint::Plain },
        DustSpawn { x: (c.x - 40) as i32, y: (c.y - 40) as i32, tint: DustTint::Plain },
    ]
}

/// The dust of every snowdrift broken this tick, in notification order.
pub open spec fn snow_dust(state: PlayerState, cs: Seq<CollisionRecord>) -> Seq<DustSpawn>
    decreases cs.len(),
{
    if state != PlayerState::Dashing || cs.len() == 0 {
        Seq::empty()
    } else {
        let rest = snow_dust(state, cs.drop_last());
        let last = cs.last();
        if last.started && last.kind == EntityKind::Snowdrift {
            rest + drift_dust(last)
        } else {
            rest
        }
    }
}

/// Breaks the snowdrifts a dashing player ran into this tick: returns the
/// identities the host must despawn and spawns a burst of dust at each.
pub fn snowdrift_broken(
    state: PlayerState,
    collisions: &Vec<CollisionRecord>,
    dust: &mut Vec<DustSpawn>,
) -> (broken: Vec<u64>)
    requires
        collisions_ok(collisions@),
    ensures
        broken@ == broken_snowdrifts(state, collisions@),
        final(dust)@ == old(dust)@ + snow_dust(state, collisions@),
{
    let mut broken: Vec<u64> = Vec::new();
    if !matches!(state, PlayerState::Dashing) {
        assert(broken@ =~= broken_snowdrifts(state, collisions@));
        assert(dust@ =~= old(dust)@ + snow_dust(state, collisions@));
        return broken;
    }
    let mut i: usize = 0;
    assert(broken@ =~= broken_snowdrifts(state, collisions@.subrange(0, 0)));
    assert(dust@ =~= old(dust)@ + snow_dust(state, collisions@.subrange(0, 0)));
    while i < collisions.len()
        invariant
            0 <= i <= collisions.len(),
            state == PlayerState::Dashing,
            collisions_ok(collisions@),
            broken@ == broken_snowdrifts(state, collisions@.subrange(0, i as int)),
            dust@ == old(dust)@ + snow_dust(state, collisions@.subrange(0, i as int)),
        decreases collisions.len() - i,
    {
        let c = collisions[i];
        if c.started && matches!(c.kind, EntityKind::Snowdrift) {
            broken.push(c.other);
            dust.push(DustSpawn { x: c.x + 40, y: c.y + 40, tint: DustTint::Plain });
            dust.push(DustSpawn { x: c.x + 40, y: c.y - 40, tint: DustTint::Plain });
            dust.push(DustSpawn { x: c.x - 40, y: c.y + 40, tint: DustTint::Plain });
            dust.push(DustSpawn { x: c.x - 40, y: c.y - 40, tint: DustTint::Plain });
        }
        proof {
            let pre = collisions@.subrange(0, i as int);
            let cur = collisions@.subrange(0, i as int + 1);
            assert(cur.drop_last() =~= pre);
            assert(cur.last() == collisions@[i as int]);
            assert(broken@ =~= broken_snowdrifts(state, cur));
            assert(dust@ =~= old(dust)@ + snow_dust(state, cur));
        }
        i = i + 1;
    }
    assert(collisions@.subrange(0, i as int) =~= collisions@);
    broken
}

} // verus!
