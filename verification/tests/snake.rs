use rand::rngs::StdRng;
use rand::SeedableRng;
use softies::creature::{
    BodyHandle, BodyState, Creature, CreatureState, JointHandle, WorldContext,
};
use softies::creature_attributes::{CreatureAttributes, DietType};
use softies::drag::apply_anisotropic_drag;
use softies::snake::{
    behavior, body_parameters, chain_positions, draw_spawn_angle, energy_fraction, half_world,
    handle_collision, joint_parameters, next_state, small_angle_heading, target_is_due, Behavior,
    HeadState, HoldCommand, Snake, WiggleParameters,
};
use softies::vec2::Vec2;

const WORLD: WorldContext = WorldContext { world_height: 10_000_000, pixels_per_meter: 100_000_000 };

const EAST: Vec2 = Vec2 { x: 1_000_000, y: 0 };

fn snake(rng: &mut StdRng) -> Snake {
    Snake::new(100_000, 5, 200_000, rng)
}

fn with_energy(snake: &mut Snake, energy: u64, satiety: u64) {
    let mut attributes = snake.attributes().clone();
    attributes.energy = energy;
    attributes.satiety = satiety;
    snake.set_attributes(attributes);
}

fn attributes(energy: u64, satiety: u64) -> CreatureAttributes {
    let mut attributes = CreatureAttributes::new(
        100_000_000,
        5_000_000,
        100_000_000,
        1_000_000,
        DietType::Carnivore,
        1_000_000,
        vec![],
        vec![],
    );
    attributes.energy = energy;
    attributes.satiety = satiety;
    attributes
}

fn body(x: i64, y: i64) -> Option<BodyState> {
    Some(BodyState {
        position: Vec2::new(x, y),
        velocity: Vec2::new(1_000_000, -500_000),
        angular_velocity: 0,
    })
}

fn straight_chain() -> Vec<Option<BodyState>> {
    (0..5).map(|i| body(i * 200_000, 0)).collect()
}

fn present(bodies: &[Option<BodyState>]) -> Vec<BodyState> {
    bodies.iter().filter_map(|b| *b).collect()
}

#[test]
fn new_snake_is_a_rested_carnivore() {
    let mut rng = StdRng::seed_from_u64(1);
    let snake = Snake::new(100_000, 10, 300_000, &mut rng);
    assert_eq!(snake.id(), 0);
    assert_eq!(snake.segment_radius, 100_000);
    assert_eq!(snake.drawing_radius(), 100_000);
    assert_eq!(snake.species_name(), "Snake");
    assert_eq!(snake.current_state(), CreatureState::Wandering);
    assert!(snake.get_rigid_body_handles().is_empty());
    assert!(snake.get_joint_handles().is_empty());
    let attributes = snake.attributes();
    assert_eq!(attributes.max_energy, 100_000_000);
    assert_eq!(attributes.energy, 100_000_000);
    assert_eq!(attributes.energy_recovery_rate, 5_000_000);
    assert_eq!(attributes.max_satiety, 100_000_000);
    assert_eq!(attributes.satiety, 100_000_000);
    assert_eq!(attributes.metabolic_rate, 1_000_000);
    assert_eq!(attributes.diet_type, DietType::Carnivore);
    // ten segments at a spacing of 0.3
    assert_eq!(attributes.size, 3_000_000);
    assert_eq!(attributes.prey_tags, vec!["small_fish".to_string(), "worm".to_string()]);
    assert_eq!(attributes.self_tags, vec!["snake".to_string(), "medium_predator".to_string()]);
    assert_eq!(snake.boundary_margin(), 300_000);
    assert_eq!(snake.safe_margin(), 600_000);
}

#[test]
fn a_snake_without_length_has_no_size() {
    let mut rng = StdRng::seed_from_u64(1);
    assert_eq!(Snake::new(100_000, 0, 300_000, &mut rng).attributes().size, 0);
    assert_eq!(Snake::new(100_000, 10, -300_000, &mut rng).attributes().size, 0);
    assert_eq!(Snake::new(100_000, usize::MAX, i64::MAX, &mut rng).attributes().size, u64::MAX);
}

#[test]
fn snake_state_transitions_follow_the_thresholds() {
    let step = |state, energy, satiety| next_state(state, &attributes(energy, satiety));
    // tired: below 20%
    for state in [
        CreatureState::Idle,
        CreatureState::Wandering,
        CreatureState::Resting,
        CreatureState::SeekingFood,
        CreatureState::Fleeing,
    ] {
        assert_eq!(step(state, 19_999_999, 100_000_000), CreatureState::Resting);
        assert_eq!(step(state, 19_999_999, 0), CreatureState::Resting);
    }
    // a sated snake wakes above 80%
    assert_eq!(step(CreatureState::Resting, 20_000_000, 50_000_000), CreatureState::Resting);
    assert_eq!(step(CreatureState::Resting, 80_000_000, 50_000_000), CreatureState::Resting);
    assert_eq!(step(CreatureState::Resting, 80_000_001, 50_000_000), CreatureState::Wandering);
    // a hungry snake wakes above 50%
    assert_eq!(step(CreatureState::Resting, 50_000_000, 49_999_999), CreatureState::Resting);
    assert_eq!(step(CreatureState::Resting, 50_000_001, 49_999_999), CreatureState::Wandering);
    // an active snake seeks food below 25%
    for state in [
        CreatureState::Idle,
        CreatureState::Wandering,
        CreatureState::SeekingFood,
        CreatureState::Fleeing,
    ] {
        assert_eq!(step(state, 20_000_000, 100_000_000), CreatureState::SeekingFood);
        assert_eq!(step(state, 24_999_999, 0), CreatureState::SeekingFood);
    }
    // whatever else is not resting wanders
    for state in [CreatureState::Idle, CreatureState::Wandering, CreatureState::Fleeing] {
        assert_eq!(step(state, 25_000_000, 100_000_000), CreatureState::Wandering);
        assert_eq!(step(state, 25_000_000, 0), CreatureState::Wandering);
        assert_eq!(step(state, 100_000_000, 0), CreatureState::Wandering);
    }
    // a seeking snake goes on seeking until its energy is above the wake
    // threshold: 80%, or 50% for a hungry one
    assert_eq!(step(CreatureState::SeekingFood, 25_000_000, 100_000_000), CreatureState::SeekingFood);
    assert_eq!(step(CreatureState::SeekingFood, 80_000_000, 100_000_000), CreatureState::SeekingFood);
    assert_eq!(step(CreatureState::SeekingFood, 80_000_001, 100_000_000), CreatureState::Wandering);
    assert_eq!(step(CreatureState::SeekingFood, 50_000_000, 0), CreatureState::SeekingFood);
    assert_eq!(step(CreatureState::SeekingFood, 50_000_001, 0), CreatureState::Wandering);
}

#[test]
fn snake_state_does_not_dither_between_wandering_and_seeking() {
    let mut state = CreatureState::Wandering;
    let mut changes = 0;
    for frame in 0..600 {
        let energy = if frame % 2 == 0 { 26_000_000 } else { 24_000_000 };
        let next = next_state(state, &attributes(energy, 30_000_000));
        if (next == CreatureState::Wandering) != (state == CreatureState::Wandering) {
            changes += 1;
        }
        state = next;
    }
    assert_eq!(changes, 1);
    assert_eq!(state, CreatureState::SeekingFood);
}

#[test]
fn a_snake_short_of_energy_seeks_food_briskly() {
    let mut rng = StdRng::seed_from_u64(50);
    let mut snake = snake(&mut rng);
    with_energy(&mut snake, 24_000_000, 100_000_000);
    let plan = snake.update_state_and_behavior(100_000, &straight_chain(), &WORLD, &mut rng);
    assert_eq!(snake.current_state(), CreatureState::SeekingFood);
    // hunger 0.76: amplitude 1.5 * 1.76, frequency 1.5 * (1 + 0.228)
    assert_eq!(plan.behavior, wiggle(2_640_000, 1_842_000, 1_500_000));
    assert_eq!(plan.phases.len(), 4);
}

#[test]
fn snake_state_does_not_chatter_under_an_energy_sawtooth() {
    let mut state = CreatureState::Wandering;
    let mut changes = 0;
    for frame in 0..600 {
        let energy = if frame % 2 == 0 { 19_000_000 } else { 21_000_000 };
        let next = next_state(state, &attributes(energy, 30_000_000));
        if (next == CreatureState::Resting) != (state == CreatureState::Resting) {
            changes += 1;
        }
        state = next;
    }
    assert_eq!(changes, 1);
    assert_eq!(state, CreatureState::Resting);
}

#[test]
fn the_energy_fraction_is_a_share_of_the_maximum() {
    assert_eq!(energy_fraction(&attributes(100_000_000, 0)), 1_000_000);
    assert_eq!(energy_fraction(&attributes(50_000_000, 0)), 500_000);
    assert_eq!(energy_fraction(&attributes(1, 0)), 0);
    assert_eq!(energy_fraction(&attributes(0, 0)), 0);
    assert_eq!(energy_fraction(&attributes(33_333_333, 0)), 333_333);
    let mut none = attributes(0, 0);
    none.max_energy = 0;
    assert_eq!(energy_fraction(&none), 0);
    let mut overfull = attributes(u64::MAX, 0);
    overfull.max_energy = 1;
    assert_eq!(energy_fraction(&overfull), u64::MAX);
}

fn wiggle(amplitude_scale: u64, frequency_scale: u64, energy_cost_scale: u64) -> Behavior {
    Behavior::Wiggle(WiggleParameters { amplitude_scale, frequency_scale, energy_cost_scale })
}

#[test]
fn behavior_depends_on_state_and_energy() {
    let full = attributes(100_000_000, 0);
    let half = attributes(50_000_000, 0);
    let empty = attributes(0, 0);
    assert_eq!(behavior(CreatureState::Idle, &half), wiggle(100_000, 300_000, 100_000));
    assert_eq!(behavior(CreatureState::Fleeing, &half), wiggle(2_000_000, 1_500_000, 2_000_000));
    assert_eq!(behavior(CreatureState::Resting, &half), Behavior::Hold);
    // wandering: the more energy, the livelier
    assert_eq!(behavior(CreatureState::Wandering, &full), wiggle(1_000_000, 1_300_000, 1_000_000));
    assert_eq!(behavior(CreatureState::Wandering, &half), wiggle(500_000, 1_150_000, 1_000_000));
    assert_eq!(behavior(CreatureState::Wandering, &empty), wiggle(0, 1_000_000, 1_000_000));
    // seeking food: the less energy, the livelier
    assert_eq!(behavior(CreatureState::SeekingFood, &full), wiggle(1_500_000, 1_500_000, 1_500_000));
    assert_eq!(behavior(CreatureState::SeekingFood, &half), wiggle(2_250_000, 1_725_000, 1_500_000));
    assert_eq!(behavior(CreatureState::SeekingFood, &empty), wiggle(3_000_000, 1_950_000, 1_500_000));
}

#[test]
fn a_chain_is_laid_out_along_its_heading() {
    assert_eq!(
        chain_positions(Vec2::new(1_000_000, 2_000_000), EAST, 200_000, 3),
        vec![
            Vec2::new(1_000_000, 2_000_000),
            Vec2::new(1_200_000, 2_000_000),
            Vec2::new(1_400_000, 2_000_000)
        ]
    );
    assert_eq!(
        chain_positions(Vec2::zero(), Vec2::new(600_000, -800_000), 500_000, 3),
        vec![Vec2::zero(), Vec2::new(300_000, -400_000), Vec2::new(600_000, -800_000)]
    );
    assert!(chain_positions(Vec2::zero(), EAST, 200_000, 0).is_empty());
}

#[test]
fn spawning_lays_out_the_chain_and_takes_the_identifier() {
    let mut rng = StdRng::seed_from_u64(2);
    let mut snake = snake(&mut rng);
    let plan = snake.spawn_rapier(Vec2::new(-1_000_000, 500_000), EAST, 17);
    assert_eq!(snake.id(), 17);
    assert_eq!(plan.anchor_offset, 100_000);
    assert_eq!(plan.positions.len(), 5);
    assert_eq!(plan.positions[0], Vec2::new(-1_000_000, 500_000));
    assert_eq!(plan.positions[4], Vec2::new(-200_000, 500_000));
    assert_eq!(snake.layout(Vec2::new(-1_000_000, 500_000), EAST), plan.positions);
    assert_eq!(
        snake.layout(Vec2::zero(), Vec2::new(0, -1_000_000))[4],
        Vec2::new(0, -800_000)
    );
    let segments: Vec<BodyHandle> = (0..5).map(|i| BodyHandle { index: i, generation: 0 }).collect();
    let joints: Vec<JointHandle> = (0..4).map(|i| JointHandle { index: i, generation: 0 }).collect();
    snake.attach(segments.clone(), joints.clone());
    assert_eq!(snake.get_rigid_body_handles(), segments.as_slice());
    assert_eq!(snake.get_joint_handles(), joints.as_slice());
    snake.spawn_rapier(Vec2::zero(), EAST, 18);
    assert!(snake.get_rigid_body_handles().is_empty());
    assert!(snake.get_joint_handles().is_empty());
}

#[test]
fn chance_stays_within_its_ranges() {
    let mut rng = StdRng::seed_from_u64(3);
    let mut angles = Vec::new();
    for _ in 0..500 {
        let angle = draw_spawn_angle(&mut rng);
        assert!(-20_000 <= angle && angle < 20_000);
        angles.push(angle);
    }
    assert!(angles.iter().any(|a| *a > 10_000));
    assert!(angles.iter().any(|a| *a < -10_000));
    let snake = snake(&mut rng);
    let mut positions = Vec::new();
    for _ in 0..500 {
        // half extent 5, safe margin 0.6, a body of length 0.8
        let position = snake.get_safe_position(&WORLD, &mut rng);
        assert!(-3_600_000 <= position.x && position.x < 3_600_000);
        assert!(-3_600_000 <= position.y && position.y < 3_600_000);
        positions.push(position);
    }
    assert!(positions.iter().any(|p| p.x > 2_000_000) && positions.iter().any(|p| p.x < -2_000_000));
    assert!(positions.iter().any(|p| p.y > 2_000_000) && positions.iter().any(|p| p.y < -2_000_000));
}

#[test]
fn a_world_too_small_leaves_only_the_origin() {
    let mut rng = StdRng::seed_from_u64(4);
    let snake = snake(&mut rng);
    // room for a segment, but not for the body; no room at all; no world
    for height in [2_800_000, 1_200_002, 1_200_000, 0, -5_000_000, i64::MIN] {
        let tiny = WorldContext { world_height: height, pixels_per_meter: 1 };
        assert_eq!(snake.get_safe_position(&tiny, &mut rng), Vec2::zero());
    }
    // a world with two steps of room
    let small = WorldContext { world_height: 2_800_002, pixels_per_meter: 1 };
    for _ in 0..50 {
        let position = snake.get_safe_position(&small, &mut rng);
        assert!(position.x == -1 || position.x == 0);
        assert!(position.y == -1 || position.y == 0);
    }
}

#[test]
fn bounds_are_kept_with_a_margin_of_three_radii() {
    let mut rng = StdRng::seed_from_u64(5);
    let snake = snake(&mut rng);
    assert_eq!(half_world(&WORLD), 5_000_000);
    assert!(snake.is_within_bounds(Vec2::new(4_699_999, 0), &WORLD));
    assert!(!snake.is_within_bounds(Vec2::new(4_700_000, 0), &WORLD));
    assert_eq!(snake.clamp_position(Vec2::new(9_000_000, -9_000_000), &WORLD), Vec2::new(4_700_000, -4_700_000));
    assert_eq!(snake.calculate_boundary_force(Vec2::zero(), &WORLD), None);
    assert_eq!(
        snake.calculate_boundary_force(Vec2::new(0, 4_800_000), &WORLD),
        Some(Vec2::new(0, -15_000_000))
    );
}

#[test]
fn segments_inside_the_world_are_left_alone() {
    let mut rng = StdRng::seed_from_u64(6);
    let mut snake = snake(&mut rng);
    let correction = snake.check_and_correct_segments(&straight_chain(), &WORLD, &mut rng);
    assert_eq!(correction.reset, None);
    assert_eq!(correction.adjustments.len(), 5);
    for adjustment in &correction.adjustments {
        assert_eq!(adjustment.correction, None);
        assert_eq!(adjustment.damped_velocity, None);
        assert_eq!(adjustment.boundary_force, None);
    }
}

#[test]
fn a_segment_beyond_the_margin_is_sent_back() {
    let mut rng = StdRng::seed_from_u64(7);
    let mut snake = snake(&mut rng);
    let bodies = vec![body(4_750_000, 0), None, body(0, -4_700_000), body(-4_800_000, 4_800_000), body(4_600_000, 0)];
    let correction = snake.check_and_correct_segments(&bodies, &WORLD, &mut rng);
    assert_eq!(correction.reset, None);
    let first = correction.adjustments[0];
    assert_eq!(first.correction, Some(Vec2::new(-20_000_000, 0)));
    assert_eq!(first.damped_velocity, Some(Vec2::new(800_000, -400_000)));
    assert_eq!(first.boundary_force, Some(Vec2::new(-15_000_000, 0)));
    // a segment that the physics world no longer has
    let gone = correction.adjustments[1];
    assert_eq!((gone.correction, gone.damped_velocity, gone.boundary_force), (None, None, None));
    // just at the margin: sent back, but not yet near enough for the boundary force
    let third = correction.adjustments[2];
    assert_eq!(third.correction, Some(Vec2::new(0, 20_000_000)));
    assert_eq!(third.boundary_force, None);
    // in a corner: sent back along both axes
    let fourth = correction.adjustments[3];
    assert_eq!(fourth.correction, Some(Vec2::new(20_000_000, -20_000_000)));
    // both depths are equal: the force points along the diagonal
    assert_eq!(fourth.boundary_force, Some(Vec2::new(10_606_605, -10_606_605)));
    let fifth = correction.adjustments[4];
    assert_eq!((fifth.correction, fifth.damped_velocity, fifth.boundary_force), (None, None, None));
}

#[test]
fn a_segment_close_to_the_edge_has_the_snake_laid_out_anew() {
    let mut rng = StdRng::seed_from_u64(8);
    let mut snake = snake(&mut rng);
    // within half the margin of the edge
    let bodies = vec![body(0, 0), body(4_750_000, 0), body(4_850_000, 0)];
    let correction = snake.check_and_correct_segments(&bodies, &WORLD, &mut rng);
    let plan = correction.reset.unwrap();
    assert!(-3_600_000 <= plan.base_position.x && plan.base_position.x < 3_600_000);
    assert!(-3_600_000 <= plan.base_position.y && plan.base_position.y < 3_600_000);
    assert!(-10_000 <= plan.angle && plan.angle < 10_000);
    // every segment of the snake is put back, not only those that were seen
    assert_eq!(plan.segments.len(), 5);
    assert_eq!(plan.segments[0].position, plan.base_position);
    for state in &plan.segments {
        assert!(-4_400_000 <= state.position.x && state.position.x < 4_400_000);
        assert!(-4_400_000 <= state.position.y && state.position.y < 4_400_000);
        assert_eq!(state.velocity, Vec2::zero());
        assert_eq!(state.angular_velocity, 0);
    }
    // the corrections are still made, the boundary force is not
    assert_eq!(correction.adjustments[0].correction, None);
    assert_eq!(correction.adjustments[1].correction, Some(Vec2::new(-20_000_000, 0)));
    assert_eq!(correction.adjustments[2].correction, Some(Vec2::new(-20_000_000, 0)));
    for adjustment in &correction.adjustments {
        assert_eq!(adjustment.boundary_force, None);
    }
    // the snake has forgotten its target
    assert_eq!(snake.desired_direction(Vec2::zero(), EAST), EAST);
}

#[test]
fn a_target_is_due_when_it_is_missing_old_or_out_of_reach() {
    let target = Some(Vec2::zero());
    let far = Some(Vec2::new(200_000, 0));
    assert!(target_is_due(None, far, 0, 3_000_000, 0));
    assert!(target_is_due(None, None, 0, 3_000_000, 0));
    assert!(!target_is_due(target, far, 3_000_000, 3_000_000, 1_000_000));
    assert!(!target_is_due(target, None, 3_000_000, 3_000_000, 1_000_000));
    assert!(target_is_due(target, far, 3_000_001, 3_000_000, 0));
    assert!(target_is_due(target, far, 0, 3_000_000, 1_000_001));
    // a head closer than 0.2 to its target has reached it
    assert!(target_is_due(target, Some(Vec2::new(199_999, 0)), 0, 3_000_000, 0));
    assert!(target_is_due(target, Some(Vec2::new(-120_000, 159_999)), 0, 3_000_000, 0));
    assert!(!target_is_due(target, Some(Vec2::new(-120_000, 160_000)), 0, 3_000_000, 0));
}

#[test]
fn a_snake_without_a_target_picks_one_inside_the_world() {
    let mut rng = StdRng::seed_from_u64(9);
    let mut snake = snake(&mut rng);
    let head = Vec2::new(100_000, 100_000);
    assert_eq!(snake.desired_direction(head, EAST), EAST);
    snake.update_target_position(None, &WORLD, &mut rng);
    let toward = snake.desired_direction(head, EAST);
    assert_ne!(toward, EAST);
    let length = toward.norm();
    assert!(999_990 <= length && length <= 1_000_001);
    // the target is young and the snake is not stuck: it keeps its target
    snake.update_target_position(None, &WORLD, &mut rng);
    assert_eq!(snake.desired_direction(head, EAST), toward);
}

#[test]
fn a_stuck_snake_picks_a_new_target() {
    let mut rng = StdRng::seed_from_u64(10);
    let mut snake = snake(&mut rng);
    let head = Vec2::new(100_000, 100_000);
    snake.update_target_position(None, &WORLD, &mut rng);
    let toward = snake.desired_direction(head, EAST);
    // the head arrives where it then stays
    snake.check_if_stuck(Some(head));
    // 62 ticks without movement: 0.992 s, not yet beyond the limit
    for _ in 0..62 {
        snake.check_if_stuck(Some(head));
        snake.update_target_position(None, &WORLD, &mut rng);
    }
    assert_eq!(snake.desired_direction(head, EAST), toward);
    // the head is gone for a tick: nothing is noted
    snake.check_if_stuck(None);
    snake.update_target_position(None, &WORLD, &mut rng);
    assert_eq!(snake.desired_direction(head, EAST), toward);
    // 63 ticks: 1.008 s
    snake.check_if_stuck(Some(head));
    snake.update_target_position(None, &WORLD, &mut rng);
    assert_ne!(snake.desired_direction(head, EAST), toward);
}

#[test]
fn a_snake_that_has_reached_its_target_picks_a_new_one() {
    let mut rng = StdRng::seed_from_u64(30);
    let mut snake = snake(&mut rng);
    assert_eq!(snake.target_position(), None);
    snake.update_target_position(None, &WORLD, &mut rng);
    let target = snake.target_position().unwrap();
    assert!(-5_000_000 <= target.x && target.x < 5_000_000);
    assert!(-5_000_000 <= target.y && target.y < 5_000_000);
    // on the way: the target stays
    let away = Vec2::new(target.x + 200_000, target.y);
    snake.update_target_position(Some(away), &WORLD, &mut rng);
    assert_eq!(snake.target_position(), Some(target));
    // there: a new target
    let near = Vec2::new(target.x + 199_999, target.y);
    snake.update_target_position(Some(near), &WORLD, &mut rng);
    let next = snake.target_position().unwrap();
    assert_ne!(next, target);
    assert!(-5_000_000 <= next.x && next.x < 5_000_000);
    assert!(-5_000_000 <= next.y && next.y < 5_000_000);
}

#[test]
fn timers_and_findings_can_be_read() {
    let mut rng = StdRng::seed_from_u64(31);
    let mut snake = snake(&mut rng);
    assert!(snake.rest_timer() < 5_000_000);
    assert_eq!(snake.stuck_timer(), 0);
    assert_eq!(snake.collision_count(), 0);
    assert_eq!(snake.max_velocity(), 0);
    assert_eq!(snake.last_collision_time(), 0);
    assert!(snake.problematic_segments().is_empty());
    // the head arrives and stays for three ticks
    for _ in 0..4 {
        snake.check_if_stuck(Some(Vec2::new(700_000, 0)));
    }
    assert_eq!(snake.stuck_timer(), 48_000);
    // a knot of three segments, the last one running away
    let mut knot = present(&straight_chain());
    knot.truncate(3);
    knot[2].position = Vec2::new(1, 1);
    knot[2].velocity = Vec2::new(6_000_000, 8_000_000);
    assert!(!snake.check_safety(&knot, 16_000));
    assert_eq!(snake.problematic_segments(), &[0, 2]);
    assert_eq!(snake.collision_count(), 1);
    assert_eq!(snake.max_velocity(), 10_000_000);
    assert_eq!(snake.last_collision_time(), 16_000);
    assert!(!snake.check_safety(&knot, 16_000));
    assert_eq!(snake.collision_count(), 2);
    assert_eq!(snake.last_collision_time(), 16_000);
    knot[2].position = Vec2::new(400_000, 0);
    knot[2].velocity = Vec2::zero();
    assert!(snake.check_safety(&knot, 16_000));
    assert!(snake.problematic_segments().is_empty());
    assert_eq!(snake.collision_count(), 2);
    assert_eq!(snake.max_velocity(), 10_000_000);
    assert_eq!(snake.last_collision_time(), 32_000);
    // a resting snake counts its rest
    with_energy(&mut snake, 1_000_000, 100_000_000);
    snake.update_state_and_behavior(100_000, &straight_chain(), &WORLD, &mut rng);
    assert_eq!(snake.rest_timer(), 0);
    snake.update_state_and_behavior(100_000, &straight_chain(), &WORLD, &mut rng);
    assert_eq!(snake.rest_timer(), 100_000);
    snake.update_state_and_behavior(100_000, &straight_chain(), &WORLD, &mut rng);
    assert_eq!(snake.rest_timer(), 200_000);
}

#[test]
fn a_moving_snake_is_not_stuck() {
    let mut rng = StdRng::seed_from_u64(11);
    let mut snake = snake(&mut rng);
    snake.update_target_position(None, &WORLD, &mut rng);
    let origin = Vec2::zero();
    let toward = snake.desired_direction(origin, EAST);
    for tick in 0..100 {
        snake.check_if_stuck(Some(Vec2::new(tick * 100_000, 0)));
        snake.update_target_position(None, &WORLD, &mut rng);
    }
    assert_eq!(snake.desired_direction(origin, EAST), toward);
}

#[test]
fn an_old_target_is_replaced() {
    let mut rng = StdRng::seed_from_u64(12);
    let mut snake = snake(&mut rng);
    let origin = Vec2::zero();
    let mut bodies = straight_chain();
    let mut targets = Vec::new();
    // ten seconds of swimming in place, a tick of a tenth of a second each,
    // the head moving enough not to be stuck
    for tick in 0..100 {
        bodies[0] = body((tick % 2) * 150_000, 0);
        snake.update_state_and_behavior(100_000, &bodies, &WORLD, &mut rng);
        let toward = snake.desired_direction(origin, EAST);
        if targets.last() != Some(&toward) {
            targets.push(toward);
        }
    }
    // a target lasts between three and five seconds
    assert!(targets.len() == 3 || targets.len() == 4, "{} targets", targets.len());
}

#[test]
fn safety_finds_folds_and_runaway_segments() {
    let mut rng = StdRng::seed_from_u64(13);
    let mut snake = snake(&mut rng);
    let calm = present(&straight_chain());
    assert!(snake.check_safety(&calm, 16_000));
    assert!(snake.correct_problematic_state(&vec![]).is_none());
    // the third segment folded onto the first: closer than 2.5 radii
    let mut folded = calm.clone();
    folded[2].position = Vec2::new(100_000, 100_000);
    assert!(!snake.check_safety(&folded, 16_000));
    let positions: Vec<Vec2> = folded.iter().map(|b| b.position).collect();
    let chain = snake.correct_problematic_state(&positions).unwrap();
    assert_eq!(chain.stopped, vec![true, false, true, false, false]);
    // the head stays; the third segment moves a tenth of the way toward the
    // midpoint (0.4, 0) of its neighbours
    assert_eq!(chain.positions[0], positions[0]);
    assert_eq!(chain.positions[2], Vec2::new(130_000, 90_000));
    // a runaway segment
    let mut wild = calm.clone();
    wild[4].velocity = Vec2::new(5_000_001, 0);
    assert!(!snake.check_safety(&wild, 16_000));
    // the fold is gone: nothing is left to straighten
    assert!(snake.correct_problematic_state(&positions).is_none());
    assert!(snake.check_safety(&calm, 16_000));
}

#[test]
fn wiggling_without_a_head_does_nothing() {
    let mut rng = StdRng::seed_from_u64(14);
    let mut snake = snake(&mut rng);
    let parameters = WiggleParameters {
        amplitude_scale: 1_000_000,
        frequency_scale: 1_000_000,
        energy_cost_scale: 1_000_000,
    };
    assert!(snake.apply_wiggle(16_667, parameters, None, &vec![1_000_000; 4]).is_none());
    assert_eq!(snake.attributes().energy, 100_000_000);
}

#[test]
fn wiggling_drives_the_joints_and_costs_energy() {
    let mut rng = StdRng::seed_from_u64(15);
    let mut snake = snake(&mut rng);
    let parameters = WiggleParameters {
        amplitude_scale: 1_000_000,
        frequency_scale: 1_300_000,
        energy_cost_scale: 1_000_000,
    };
    let head = HeadState {
        position: Vec2::zero(),
        velocity: Vec2::new(500_000, 0),
        heading: EAST,
        turn: -10_000,
    };
    let sines = vec![1_000_000, 0, -1_000_000, 500_000];
    let command = snake.apply_wiggle(1_000_000, parameters, Some(head), &sines).unwrap();
    assert_eq!(command.head_angular_velocity, -1_000);
    assert_eq!(command.head_force, Some(Vec2::new(200_000, 0)));
    assert_eq!(command.head_velocity, None);
    assert_eq!(command.motor_velocities, vec![10_000, 0, -10_000, 5_000]);
    assert_eq!(command.motor_max_force, 100_000);
    // 0.025 of joint speed at a base cost of 10, for one second
    assert_eq!(snake.attributes().energy, 100_000_000 - 250_000);
}

#[test]
fn a_fast_head_is_slowed_instead_of_pushed() {
    let mut rng = StdRng::seed_from_u64(16);
    let mut snake = snake(&mut rng);
    let parameters = WiggleParameters {
        amplitude_scale: 2_000_000,
        frequency_scale: 1_500_000,
        energy_cost_scale: 2_000_000,
    };
    let head = HeadState {
        position: Vec2::zero(),
        velocity: Vec2::new(0, -2_000_000),
        heading: EAST,
        turn: 1_000_000,
    };
    let command = snake.apply_wiggle(16_667, parameters, Some(head), &vec![]).unwrap();
    assert_eq!(command.head_angular_velocity, 2_000);
    assert_eq!(command.head_force, None);
    assert_eq!(command.head_velocity, Some(Vec2::new(0, -1_600_000)));
    assert!(command.motor_velocities.is_empty());
    assert_eq!(snake.attributes().energy, 100_000_000);
}

#[test]
fn wiggling_cannot_take_more_energy_than_there_is() {
    let mut rng = StdRng::seed_from_u64(17);
    let mut snake = snake(&mut rng);
    with_energy(&mut snake, 100_000, 100_000_000);
    let parameters = WiggleParameters {
        amplitude_scale: 1_000_000,
        frequency_scale: 1_000_000,
        energy_cost_scale: 1_000_000,
    };
    let head = HeadState { position: Vec2::zero(), velocity: Vec2::zero(), heading: EAST, turn: 0 };
    snake.apply_wiggle(1_000_000, parameters, Some(head), &vec![1_000_000; 4]);
    assert_eq!(snake.attributes().energy, 0);
}

#[test]
fn a_tick_plans_the_wave() {
    let mut rng = StdRng::seed_from_u64(18);
    let mut snake = snake(&mut rng);
    snake.spawn_rapier(Vec2::zero(), EAST, 3);
    let plan = snake.update_state_and_behavior(100_000, &straight_chain(), &WORLD, &mut rng);
    assert_eq!(snake.current_state(), CreatureState::Wandering);
    assert_eq!(plan.behavior, wiggle(1_000_000, 1_300_000, 1_000_000));
    assert_eq!(plan.corrections.reset, None);
    assert_eq!(plan.corrections.adjustments.len(), 5);
    // the wave has run on by 0.1 s * 1.3; the identifier shifts it by 0.3;
    // from joint to joint it is a quarter turn further
    assert_eq!(plan.phases, vec![430_000, 2_000_796, 3_571_592, 5_142_388]);
    let next = snake.update_state_and_behavior(100_000, &straight_chain(), &WORLD, &mut rng);
    assert_eq!(next.phases, vec![560_000, 2_130_796, 3_701_592, 5_272_388]);
}

#[test]
fn a_tick_looks_at_the_snakes_safety() {
    let mut rng = StdRng::seed_from_u64(40);
    let mut snake = snake(&mut rng);
    let calm = snake.update_state_and_behavior(16_000, &straight_chain(), &WORLD, &mut rng);
    assert!(calm.is_safe);
    assert!(calm.straightened.is_none());
    assert_eq!(snake.last_collision_time(), 16_000);
    // the fourth segment folded onto the second
    let mut folded = straight_chain();
    folded[3] = body(250_000, 50_000);
    let plan = snake.update_state_and_behavior(16_000, &folded, &WORLD, &mut rng);
    assert!(!plan.is_safe);
    assert_eq!(snake.problematic_segments(), &[1, 3]);
    assert_eq!(snake.collision_count(), 1);
    assert_eq!(snake.last_collision_time(), 16_000);
    let chain = plan.straightened.unwrap();
    assert_eq!(chain.stopped, vec![false, true, false, true, false]);
    // segment 1 toward the midpoint (0.2, 0) of segments 0 and 2: it is there
    assert_eq!(chain.positions[1], Vec2::new(200_000, 0));
    // segment 3 a tenth of the way toward the midpoint (0.6, 0) of 2 and 4
    assert_eq!(chain.positions[3], Vec2::new(285_000, 45_000));
    assert_eq!(chain.positions[0], Vec2::new(0, 0));
    assert_eq!(chain.positions[2], Vec2::new(400_000, 0));
    assert_eq!(chain.positions[4], Vec2::new(800_000, 0));
    // a runaway segment makes the snake unsafe, but nothing is folded
    let mut wild = straight_chain();
    wild[2] = Some(BodyState {
        position: Vec2::new(400_000, 0),
        velocity: Vec2::new(-4_000_000, 3_000_001),
        angular_velocity: 0,
    });
    let plan = snake.update_state_and_behavior(16_000, &wild, &WORLD, &mut rng);
    assert!(!plan.is_safe);
    assert!(plan.straightened.is_none());
    assert_eq!(snake.max_velocity(), 5_000_000);
    assert!(snake.problematic_segments().is_empty());
}

#[test]
fn a_tick_does_not_judge_a_snake_it_cannot_see_whole() {
    let mut rng = StdRng::seed_from_u64(41);
    let mut snake = snake(&mut rng);
    // folded, but one segment is missing
    let mut bodies = straight_chain();
    bodies[3] = body(250_000, 50_000);
    bodies[4] = None;
    let plan = snake.update_state_and_behavior(16_000, &bodies, &WORLD, &mut rng);
    assert!(plan.is_safe);
    assert!(plan.straightened.is_none());
    assert_eq!(snake.collision_count(), 0);
    assert_eq!(snake.last_collision_time(), 0);
    // folded, but laid out anew in the same tick
    let mut bodies = straight_chain();
    bodies[3] = body(250_000, 50_000);
    bodies[4] = body(4_900_000, 0);
    let plan = snake.update_state_and_behavior(16_000, &bodies, &WORLD, &mut rng);
    assert!(plan.corrections.reset.is_some());
    assert!(plan.is_safe);
    assert!(plan.straightened.is_none());
    assert_eq!(snake.collision_count(), 0);
}

#[test]
fn a_tired_snake_holds_still() {
    let mut rng = StdRng::seed_from_u64(19);
    let mut snake = snake(&mut rng);
    with_energy(&mut snake, 19_999_999, 100_000_000);
    let plan = snake.update_state_and_behavior(100_000, &straight_chain(), &WORLD, &mut rng);
    assert_eq!(snake.current_state(), CreatureState::Resting);
    assert_eq!(plan.behavior, Behavior::Hold);
    assert!(plan.phases.is_empty());
    // resting, the snake recovers: 0.5 drained and 5 gained in a second
    snake.update_passive_stats(1_000_000);
    assert_eq!(snake.attributes().energy, 19_999_999 - 500_000 + 5_000_000);
    // it goes on resting until its energy is above 80%
    with_energy(&mut snake, 80_000_000, 100_000_000);
    snake.update_state_and_behavior(100_000, &straight_chain(), &WORLD, &mut rng);
    assert_eq!(snake.current_state(), CreatureState::Resting);
    with_energy(&mut snake, 80_000_001, 100_000_000);
    let awake = snake.update_state_and_behavior(100_000, &straight_chain(), &WORLD, &mut rng);
    assert_eq!(snake.current_state(), CreatureState::Wandering);
    assert_eq!(awake.phases.len(), 4);
}

#[test]
fn a_tick_without_bodies_still_decides() {
    let mut rng = StdRng::seed_from_u64(20);
    let mut snake = snake(&mut rng);
    let plan = snake.update_state_and_behavior(16_667, &vec![], &WORLD, &mut rng);
    assert!(plan.corrections.adjustments.is_empty());
    assert_eq!(plan.corrections.reset, None);
    assert_eq!(plan.phases.len(), 4);
    let gone = snake.update_state_and_behavior(16_667, &vec![None; 5], &WORLD, &mut rng);
    assert_eq!(gone.corrections.adjustments.len(), 5);
    assert_eq!(gone.corrections.reset, None);
}

#[test]
fn a_snake_swims_with_more_drag_sideways_than_forward() {
    let mut rng = StdRng::seed_from_u64(21);
    let snake = snake(&mut rng);
    let forces = snake.apply_custom_forces(Vec2::new(1_000_000, 1_000_000), EAST);
    assert_eq!(forces.forward, Some(Vec2::new(-5_000_000, 0)));
    assert_eq!(forces.perpendicular, Some(Vec2::new(0, -15_000_000)));
    assert_eq!(
        forces,
        apply_anisotropic_drag(Vec2::new(1_000_000, 1_000_000), EAST, 15_000_000, 5_000_000)
    );
}

#[test]
fn a_collision_halves_the_heads_velocity() {
    assert_eq!(handle_collision(Vec2::new(2_000_000, -1_000_001)), Vec2::new(1_000_000, -500_000));
    assert_eq!(handle_collision(Vec2::zero()), Vec2::zero());
}

#[test]
fn a_snake_is_light_and_nearly_stiff() {
    let body = body_parameters();
    assert_eq!(body.linear_damping, 15_000_000);
    assert_eq!(body.angular_damping, 8_000_000);
    assert_eq!(body.density, 3_000_000);
    assert_eq!(body.friction, 100_000);
    assert_eq!(body.restitution, 0);
    assert!(!body.continuous_collision_detection);
    let joint = joint_parameters();
    assert_eq!(joint.motor_max_force, 300_000);
    assert_eq!(joint.angle_limit, 20_000);
}

#[test]
fn a_small_angle_has_its_heading_without_a_sine() {
    assert_eq!(small_angle_heading(0), Vec2::new(1_000_000, 0));
    assert_eq!(small_angle_heading(10_000), Vec2::new(999_950, 10_000));
    assert_eq!(small_angle_heading(-10_000), Vec2::new(999_950, -10_000));
    // 12.5 millionths, rounded down
    assert_eq!(small_angle_heading(-5_000), Vec2::new(999_988, -5_000));
    assert_eq!(small_angle_heading(1_414), Vec2::new(1_000_000, 1_414));
    assert_eq!(small_angle_heading(1_415), Vec2::new(999_999, 1_415));
    // a greater angle counts as the greatest
    assert_eq!(small_angle_heading(1_000_000), Vec2::new(999_950, 10_000));
    assert_eq!(small_angle_heading(i64::MIN), Vec2::new(999_950, -10_000));
    // the cosine and the sine, to within two millionths
    for angle in [-10_000i64, -7_071, -3, 0, 1, 2_500, 9_999] {
        let heading = small_angle_heading(angle);
        let radians = angle as f64 / 1e6;
        assert!((heading.x as f64 - radians.cos() * 1e6).abs() < 2.0);
        assert!((heading.y as f64 - radians.sin() * 1e6).abs() < 2.0);
    }
}

#[test]
fn a_body_is_as_long_as_its_last_segment_is_far() {
    let mut rng = StdRng::seed_from_u64(40);
    assert_eq!(snake(&mut rng).body_length(), 800_000);
    assert_eq!(Snake::new(100_000, 10, 300_000, &mut rng).body_length(), 2_700_000);
    assert_eq!(Snake::new(100_000, 1, 300_000, &mut rng).body_length(), 0);
    assert_eq!(Snake::new(100_000, 0, 300_000, &mut rng).body_length(), 0);
    assert_eq!(Snake::new(100_000, 4, -300_000, &mut rng).body_length(), 900_000);
    assert_eq!(Snake::new(100_000, 3, i64::MAX, &mut rng).body_length(), i64::MAX as u64);
    assert_eq!(Snake::new(100_000, 3, i64::MIN, &mut rng).body_length(), 1 << 63);
}

#[test]
fn a_snake_laid_out_anew_has_every_segment_in_its_place_at_rest() {
    let mut rng = StdRng::seed_from_u64(41);
    let mut snake = snake(&mut rng);
    for _ in 0..200 {
        let plan = snake.reset_to_safe_position(&WORLD, &mut rng);
        let heading = small_angle_heading(plan.angle);
        let places = chain_positions(plan.base_position, heading, 200_000, 5);
        assert_eq!(plan.segments.len(), 5);
        for (state, place) in plan.segments.iter().zip(places.iter()) {
            assert_eq!(state.position, *place);
            assert_eq!(state.velocity, Vec2::zero());
            assert_eq!(state.angular_velocity, 0);
        }
        // the last segment: 0.8 along the body
        let last = plan.segments[4].position;
        assert_eq!(last.x - plan.base_position.x, 800_000 * heading.x / 1_000_000);
        assert_eq!(last.y - plan.base_position.y, 800_000 * plan.angle / 1_000_000);
        assert_eq!(snake.target_position(), None);
        assert_eq!(snake.stuck_timer(), 0);
    }
}

#[test]
fn a_long_snake_laid_out_anew_stays_within_the_safe_margin() {
    let mut rng = StdRng::seed_from_u64(42);
    // ten segments, 0.3 apart, in a world of half extent 8: a safe margin
    // of 0.6 and a body of length 2.7
    let mut snake = Snake::new(100_000, 10, 300_000, &mut rng);
    let world = WorldContext { world_height: 16_000_000, pixels_per_meter: 50_000_000 };
    let mut farthest = 0;
    for _ in 0..2_000 {
        let plan = snake.reset_to_safe_position(&world, &mut rng);
        assert!(-4_700_000 <= plan.base_position.x && plan.base_position.x < 4_700_000);
        assert!(-4_700_000 <= plan.base_position.y && plan.base_position.y < 4_700_000);
        assert_eq!(plan.segments.len(), 10);
        for state in &plan.segments {
            assert!(-7_400_000 <= state.position.x && state.position.x < 7_400_000);
            assert!(-7_400_000 <= state.position.y && state.position.y < 7_400_000);
            farthest = farthest.max(state.position.x);
        }
    }
    // the tail comes close to the margin, and no closer
    assert!(farthest > 7_000_000);
}

#[test]
fn a_snake_too_long_for_its_world_is_laid_out_from_the_origin() {
    let mut rng = StdRng::seed_from_u64(43);
    let mut snake = Snake::new(100_000, 100, 200_000, &mut rng);
    let plan = snake.reset_to_safe_position(&WORLD, &mut rng);
    assert_eq!(plan.base_position, Vec2::zero());
    assert_eq!(plan.segments.len(), 100);
    assert_eq!(
        plan.segments,
        chain_positions(Vec2::zero(), small_angle_heading(plan.angle), 200_000, 100)
            .into_iter()
            .map(|position| BodyState { position, velocity: Vec2::zero(), angular_velocity: 0 })
            .collect::<Vec<_>>()
    );
    // a snake without segments has none to put back
    let mut none = Snake::new(100_000, 0, 200_000, &mut rng);
    assert!(none.reset_to_safe_position(&WORLD, &mut rng).segments.is_empty());
}

#[test]
fn a_resting_snake_holds_its_joints_still_with_the_holding_force() {
    let mut rng = StdRng::seed_from_u64(44);
    let snake = snake(&mut rng);
    assert_eq!(
        snake.hold_command(),
        HoldCommand { motor_velocity: 0, motor_max_force: 2_000_000 }
    );
}
