//! Level data: spawn-point lookup, collision scans, the spring and the
//! snowdrifts.

use platformer_core::common::{EventBus, SPRING_SPEED};
use platformer_core::level::{
    find_spawn_point, scan_started, scan_started_with, snowdrift_broken, spring_up,
    CollisionRecord, EntityKind, EntityRecord,
};
use platformer_core::player::{DustSpawn, DustTint};
use platformer_core::simulation::spawn_player;
use platformer_core::state_machine::PlayerState;

fn rec(kind: EntityKind, started: bool, other: u64) -> CollisionRecord {
    CollisionRecord { other, kind, started, x: 100, y: 200 }
}

#[test]
fn spawn_point_takes_the_first_player_record() {
    let entities = vec![
        EntityRecord { kind: EntityKind::Trap, x: 1, y: 2 },
        EntityRecord { kind: EntityKind::PlayerSpawn, x: 30, y: 40 },
        EntityRecord { kind: EntityKind::PlayerSpawn, x: 99, y: 99 },
    ];
    assert_eq!(find_spawn_point(&entities), Some((30, 40)));
}

#[test]
fn spawn_point_absent_without_player_record() {
    let entities = vec![
        EntityRecord { kind: EntityKind::Spring, x: 1, y: 2 },
        EntityRecord { kind: EntityKind::Snowdrift, x: 3, y: 4 },
    ];
    assert_eq!(find_spawn_point(&entities), None);
    assert_eq!(find_spawn_point(&Vec::new()), None);
}

#[test]
fn collision_scans_see_only_started_records() {
    let cs = vec![
        rec(EntityKind::Spring, false, 1),
        rec(EntityKind::Trap, true, 2),
    ];
    assert!(scan_started(&cs));
    assert!(scan_started_with(&cs, EntityKind::Trap));
    assert!(!scan_started_with(&cs, EntityKind::Spring));
    assert!(!scan_started(&Vec::new()));
}

#[test]
fn spring_launches_the_player() {
    let mut sim = spawn_player(0, 0);
    sim.body.vy = -250;
    let mut bus = EventBus::quiet();
    let cs = vec![rec(EntityKind::Spring, true, 9)];
    spring_up(&mut sim, &mut bus, &cs);
    assert_eq!(sim.body.vy, SPRING_SPEED);
    assert!(bus.spring_launch);
}

#[test]
fn spring_ignores_stopped_collisions() {
    let mut sim = spawn_player(0, 0);
    sim.body.vy = -250;
    let mut bus = EventBus::quiet();
    let cs = vec![rec(EntityKind::Spring, false, 9)];
    spring_up(&mut sim, &mut bus, &cs);
    assert_eq!(sim.body.vy, -250);
    assert!(!bus.spring_launch);
}

#[test]
fn dashing_breaks_every_started_snowdrift() {
    let cs = vec![
        rec(EntityKind::Snowdrift, true, 11),
        rec(EntityKind::Trap, true, 12),
        rec(EntityKind::Snowdrift, false, 13),
        rec(EntityKind::Snowdrift, true, 14),
    ];
    let mut dust: Vec<DustSpawn> = Vec::new();
    let broken = snowdrift_broken(PlayerState::Dashing, &cs, &mut dust);
    assert_eq!(broken, vec![11, 14]);
    assert_eq!(dust.len(), 8, "four corner puffs per broken snowdrift");
    assert_eq!(dust[0], DustSpawn { x: 140, y: 240, tint: DustTint::Plain });
    assert_eq!(dust[1], DustSpawn { x: 140, y: 160, tint: DustTint::Plain });
    assert_eq!(dust[2], DustSpawn { x: 60, y: 240, tint: DustTint::Plain });
    assert_eq!(dust[3], DustSpawn { x: 60, y: 160, tint: DustTint::Plain });
}

#[test]
fn snowdrifts_resist_everything_but_a_dash() {
    let cs = vec![rec(EntityKind::Snowdrift, true, 11)];
    let mut dust: Vec<DustSpawn> = Vec::new();
    let broken = snowdrift_broken(PlayerState::Running, &cs, &mut dust);
    assert!(broken.is_empty());
    assert!(dust.is_empty());
}
