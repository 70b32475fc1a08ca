use rand::rngs::StdRng;
use rand::SeedableRng;
use softies::creature_attributes::{CreatureAttributes, DietType};
use softies::vec2::Vec2;
use softies::world::{
    random_start_position, snake_start_position, tuned_snake_attributes, walls, world_context,
    Wall,
};

#[test]
fn the_world_is_sixteen_high() {
    let world = world_context();
    assert_eq!(world.world_height, 16_000_000);
    assert_eq!(world.pixels_per_meter, 50_000_000);
}

#[test]
fn the_walls_stand_just_outside_the_world() {
    let walls = walls(10_000_000, 8_000_000, 500_000);
    assert_eq!(
        walls,
        vec![
            // floor
            Wall { center: Vec2::new(0, -8_250_000), half_extents: Vec2::new(10_250_000, 250_000) },
            // ceiling
            Wall { center: Vec2::new(0, 8_250_000), half_extents: Vec2::new(10_250_000, 250_000) },
            // left
            Wall { center: Vec2::new(-10_250_000, 0), half_extents: Vec2::new(250_000, 8_250_000) },
            // right
            Wall { center: Vec2::new(10_250_000, 0), half_extents: Vec2::new(250_000, 8_250_000) },
        ]
    );
}

#[test]
fn walls_of_a_world_at_the_end_of_the_range() {
    let walls = walls(i64::MAX, i64::MAX, 2);
    assert_eq!(walls[0].center, Vec2::new(0, i64::MIN));
    assert_eq!(walls[1].center, Vec2::new(0, i64::MAX));
    assert_eq!(walls[3].half_extents, Vec2::new(1, i64::MAX));
}

#[test]
fn the_first_three_snakes_have_their_places() {
    let mut rng = StdRng::seed_from_u64(1);
    assert_eq!(
        snake_start_position(0, 10_000_000, 8_000_000, &mut rng),
        Vec2::new(-5_000_000, 2_666_666)
    );
    assert_eq!(snake_start_position(1, 10_000_000, 8_000_000, &mut rng), Vec2::zero());
    assert_eq!(
        snake_start_position(2, 10_000_000, 8_000_000, &mut rng),
        Vec2::new(5_000_000, -2_666_666)
    );
}

#[test]
fn further_snakes_are_put_at_random_away_from_the_walls() {
    let mut rng = StdRng::seed_from_u64(2);
    let mut seen = Vec::new();
    for index in 3..200 {
        let position = snake_start_position(index, 10_000_000, 8_000_000, &mut rng);
        assert!(-8_000_000 <= position.x && position.x < 8_000_000);
        assert!(-6_000_000 <= position.y && position.y < 6_000_000);
        seen.push(position);
    }
    assert!(seen.iter().any(|p| p.x > 4_000_000) && seen.iter().any(|p| p.x < -4_000_000));
    assert!(seen.iter().any(|p| p.y > 3_000_000) && seen.iter().any(|p| p.y < -3_000_000));
}

#[test]
fn plankton_are_put_at_random_away_from_the_walls() {
    let mut rng = StdRng::seed_from_u64(3);
    for _ in 0..200 {
        let position = random_start_position(10_000_000, 8_000_000, 1_000_000, &mut rng);
        assert!(-9_000_000 <= position.x && position.x < 9_000_000);
        assert!(-7_000_000 <= position.y && position.y < 7_000_000);
    }
    // a world that leaves no room along one axis
    for _ in 0..20 {
        let position = random_start_position(10_000_000, 1_000_000, 1_000_000, &mut rng);
        assert!(-9_000_000 <= position.x && position.x < 9_000_000);
        assert_eq!(position.y, 0);
    }
    assert_eq!(random_start_position(0, 0, 0, &mut rng), Vec2::zero());
    assert_eq!(random_start_position(i64::MIN, i64::MIN, i64::MAX, &mut rng), Vec2::zero());
}

#[test]
fn the_aquariums_snakes_have_more_energy() {
    let plain = CreatureAttributes::new(
        100_000_000,
        5_000_000,
        100_000_000,
        1_000_000,
        DietType::Carnivore,
        3_000_000,
        vec!["worm".to_string()],
        vec!["snake".to_string()],
    );
    let tuned = tuned_snake_attributes(plain);
    assert_eq!(tuned.max_energy, 150_000_000);
    assert_eq!(tuned.energy, 150_000_000);
    assert_eq!(tuned.energy_recovery_rate, 8_000_000);
    assert_eq!(tuned.metabolic_rate, 500_000);
    assert_eq!(tuned.max_satiety, 100_000_000);
    assert_eq!(tuned.satiety, 100_000_000);
    assert_eq!(tuned.diet_type, DietType::Carnivore);
    assert_eq!(tuned.size, 3_000_000);
    assert_eq!(tuned.prey_tags, vec!["worm".to_string()]);
    assert_eq!(tuned.self_tags, vec!["snake".to_string()]);
}
