use softies::creature::{creature_info, BodyHandle, BodyState, CreatureInfo};
use softies::sensing::{knows, lookup, sense_nearby, within_reach};
use softies::vec2::Vec2;

fn info(id: u128, name: &'static str, position: (i64, i64)) -> CreatureInfo {
    CreatureInfo {
        id,
        creature_type_name: name,
        primary_body_handle: BodyHandle { index: id as u32, generation: 0 },
        position: Vec2::new(position.0, position.1),
        velocity: Vec2::new(1, 2),
        radius: 100_000,
    }
}

fn ids(found: &[CreatureInfo]) -> Vec<u128> {
    found.iter().map(|i| i.id).collect()
}

#[test]
fn reach_is_measured_exactly() {
    let center = Vec2::new(1_000_000, 1_000_000);
    // 3-4-5 triangle
    let position = Vec2::new(4_000_000, 5_000_000);
    assert!(within_reach(center, position, 5_000_000));
    assert!(!within_reach(center, position, 4_999_999));
    assert!(within_reach(center, center, 0));
    assert!(!within_reach(center, center, -1));
    assert!(!within_reach(center, Vec2::new(1_000_001, 1_000_000), 0));
}

#[test]
fn reach_survives_the_far_corners() {
    let far = Vec2::new(i64::MAX, i64::MIN);
    let other = Vec2::new(i64::MIN, i64::MAX);
    assert!(within_reach(far, far, 0));
    assert!(!within_reach(far, other, i64::MAX - 1));
    assert!(within_reach(Vec2::zero(), Vec2::new(i64::MAX, 0), i64::MAX));
}

#[test]
fn lookup_finds_the_first_record() {
    let all = vec![info(1, "Snake", (0, 0)), info(2, "Plankton", (5, 5)), info(2, "Snake", (9, 9))];
    assert_eq!(lookup(&all, 2).unwrap().position, Vec2::new(5, 5));
    assert_eq!(lookup(&all, 1).unwrap().creature_type_name, "Snake");
    assert!(lookup(&all, 3).is_none());
    assert!(lookup(&vec![], 1).is_none());
}

#[test]
fn sensing_leaves_out_self_statics_strangers_and_the_distant() {
    let all = vec![
        info(1, "Plankton", (0, 0)),
        info(2, "Plankton", (300_000, 400_000)),
        info(3, "Snake", (-500_000, 0)),
        info(4, "Plankton", (500_001, 0)),
    ];
    // the static geometry, the creature itself, an unknown creature
    let hits = vec![u128::MAX, 1, 99, 4, 3, 2];
    let found = sense_nearby(1, &hits, &all, Vec2::zero(), 500_000);
    assert_eq!(ids(&found), vec![3, 2]);
    assert_eq!(found[0].creature_type_name, "Snake");
    assert_eq!(found[1].position, Vec2::new(300_000, 400_000));
}

#[test]
fn a_creature_with_two_colliders_is_sensed_once() {
    let all = vec![info(1, "Plankton", (0, 0)), info(2, "Plankton", (100, 0))];
    let found = sense_nearby(1, &vec![2, 2], &all, Vec2::zero(), 1_000);
    assert_eq!(ids(&found), vec![2]);
}

#[test]
fn creatures_are_sensed_in_the_order_of_their_first_collider() {
    let all = vec![
        info(1, "Plankton", (0, 0)),
        info(2, "Plankton", (100, 0)),
        info(3, "Snake", (0, 100)),
        info(4, "Snake", (0, -100)),
    ];
    // a snake's segments and a plankton's two bodies, interleaved
    let hits = vec![3, 2, 3, 4, 2, 3, 4, 1];
    let found = sense_nearby(1, &hits, &all, Vec2::zero(), 1_000);
    assert_eq!(ids(&found), vec![3, 2, 4]);
}

#[test]
fn a_list_knows_the_identifiers_it_holds() {
    let all = vec![info(1, "Plankton", (0, 0)), info(7, "Snake", (100, 0))];
    assert!(knows(&all, 1));
    assert!(knows(&all, 7));
    assert!(!knows(&all, 2));
    assert!(!knows(&vec![], 1));
}

#[test]
fn sensing_without_hits_finds_nothing() {
    let all = vec![info(1, "Plankton", (0, 0)), info(2, "Plankton", (100, 0))];
    assert!(sense_nearby(1, &vec![], &all, Vec2::zero(), 1_000_000).is_empty());
    assert!(sense_nearby(1, &vec![2], &vec![], Vec2::zero(), 1_000_000).is_empty());
    assert!(sense_nearby(1, &vec![2], &all, Vec2::zero(), -1).is_empty());
}

#[test]
fn the_snapshot_records_where_the_primary_body_is() {
    let handle = BodyHandle { index: 4, generation: 2 };
    let body = BodyState {
        position: Vec2::new(10, 20),
        velocity: Vec2::new(-1, -2),
        angular_velocity: 5,
    };
    let info = creature_info(12, "Snake", 100_000, Some(handle), Some(body));
    assert_eq!(info.id, 12);
    assert_eq!(info.creature_type_name, "Snake");
    assert_eq!(info.primary_body_handle, handle);
    assert_eq!(info.position, Vec2::new(10, 20));
    assert_eq!(info.velocity, Vec2::new(-1, -2));
    assert_eq!(info.radius, 100_000);
}

#[test]
fn a_creature_without_a_body_is_recorded_at_the_origin() {
    let handle = BodyHandle { index: 4, generation: 2 };
    let body = BodyState {
        position: Vec2::new(10, 20),
        velocity: Vec2::new(-1, -2),
        angular_velocity: 5,
    };
    // the physics world no longer has the body
    let gone = creature_info(12, "Snake", 100_000, Some(handle), None);
    assert_eq!(gone.primary_body_handle, handle);
    assert_eq!(gone.position, Vec2::zero());
    assert_eq!(gone.velocity, Vec2::zero());
    // the creature never had one
    let none = creature_info(12, "Snake", 100_000, None, Some(body));
    assert_eq!(none.primary_body_handle, BodyHandle::invalid());
    assert_eq!(none.position, Vec2::zero());
    assert_eq!(none.velocity, Vec2::zero());
    // the invalid handle names no body
    let invalid = creature_info(12, "Snake", 100_000, Some(BodyHandle::invalid()), Some(body));
    assert_eq!(invalid.position, Vec2::zero());
    assert_eq!(BodyHandle::invalid(), BodyHandle { index: u32::MAX, generation: u32::MAX });
}
