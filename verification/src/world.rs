//! The aquarium: how large it is, where its walls stand and where its first
//! inhabitants are put.

use crate::creature::WorldContext;
use crate::creature_attributes::CreatureAttributes;
use crate::fixed::{div_toward_zero, sat, saturate};
use crate::rng::random_in_range;
use crate::vec2::Vec2;
use rand::rngs::StdRng;
use vstd::prelude::*;

verus! {

pub const PIXELS_PER_METER: i64 = 50_000_000;

pub const WORLD_WIDTH_METERS: i64 = 20_000_000;

pub const WORLD_HEIGHT_METERS: i64 = 16_000_000;

pub const WALL_THICKNESS: i64 = 500_000;

/// How far beyond the walls a creature may stray before the failsafe brings
/// it back.
pub const BOUNDS_PADDING: i64 = 1_000_000;

pub const SNAKE_COUNT: usize = 3;

pub const SNAKE_SEGMENT_COUNT: usize = 10;

pub const SNAKE_SEGMENT_RADIUS: i64 = 100_000;

pub const SNAKE_SEGMENT_SPACING: i64 = 300_000;

/// Snakes beyond the third are put no closer than this to a wall.
pub const SNAKE_START_MARGIN: i64 = 2_000_000;

pub const PLANKTON_COUNT: usize = 20;

pub const PLANKTON_RADIUS: i64 = 80_000;

/// Plankton are put no closer than this to a wall.
pub const PLANKTON_START_MARGIN: i64 = 1_000_000;

/// The energy that the aquarium's snakes can hold, more than a snake's own.
pub const SNAKE_MAX_ENERGY: u64 = 150_000_000;

pub const SNAKE_ENERGY_RECOVERY_RATE: u64 = 8_000_000;

pub const SNAKE_METABOLIC_RATE: u64 = 500_000;

/// A wall: a fixed box.
#[derive(Debug, Clone, Copy, PartialEq, Eq, Structural)]
pub struct Wall {
    pub center: Vec2,
    pub half_extents: Vec2,
}

/// The four walls around a world of the given half extents: floor, ceiling,
/// left and right. Each stands just outside the world.
pub open spec fn walls_spec(half_width: int, half_height: int, thickness: int) -> Seq<Wall> {
    let half_thickness = div_toward_zero(thickness, 2);
    let wide = Vec2 {
        x: sat(half_width + half_thickness) as i64,
        y: sat(half_thickness) as i64,
    };
    let tall = Vec2 {
        x: sat(half_thickness) as i64,
        y: sat(half_height + half_thickness) as i64,
    };
    seq![
        Wall {
            center: Vec2 { x: 0, y: sat(-half_height - half_thickness) as i64 },
            half_extents: wide,
        },
        Wall {
            center: Vec2 { x: 0, y: sat(half_height + half_thickness) as i64 },
            half_extents: wide,
        },
        Wall {
            center: Vec2 { x: sat(-half_width - half_thickness) as i64, y: 0 },
            half_extents: tall,
        },
        Wall {
            center: Vec2 { x: sat(half_width + half_thickness) as i64, y: 0 },
            half_extents: tall,
        },
    ]
}

/// Whether `position` is a place where a creature may be put at random: no
/// closer than `margin` to a wall; at the centre along an axis on which the
/// world leaves no such room.
pub open spec fn is_start_position(
    position: Vec2,
    half_width: int,
    half_height: int,
    margin: int,
) -> bool {
    &&& if sat(margin - half_width) < sat(half_width - margin) {
        sat(margin - half_width) <= position.x < sat(half_width - margin)
    } else {
        position.x == 0
    }
    &&& if sat(margin - half_height) < sat(half_height - margin) {
        sat(margin - half_height) <= position.y < sat(half_height - margin)
    } else {
        position.y == 0
    }
}

/// Where the first three snakes are put: to the left in the upper third, in
/// the middle, to the right in the lower third.
pub open spec fn fixed_snake_start(index: int, half_width: int, half_height: int) -> Vec2 {
    if index == 0 {
        Vec2 {
            x: (-div_toward_zero(half_width, 2)) as i64,
            y: div_toward_zero(half_height, 3) as i64,
        }
    } else if index == 1 {
        Vec2 { x: 0, y: 0 }
    } else {
        Vec2 {
            x: div_toward_zero(half_width, 2) as i64,
            y: (-div_toward_zero(half_height, 3)) as i64,
        }
    }
}

/// The attributes of one of the aquarium's snakes: those of a snake, with
/// more energy, faster recovery and a slower metabolism.
pub open spec fn tuned_snake_attributes_spec(attributes: CreatureAttributes) -> CreatureAttributes {
    CreatureAttributes {
        max_energy: SNAKE_MAX_ENERGY,
        energy_recovery_rate: SNAKE_ENERGY_RECOVERY_RATE,
        metabolic_rate: SNAKE_METABOLIC_RATE,
        energy: SNAKE_MAX_ENERGY,
        ..attributes
    }
}

/// What the aquarium tells its creatures of itself.
pub fn world_context() -> (context: WorldContext)
    ensures
        context.world_height == WORLD_HEIGHT_METERS,
        context.pixels_per_meter == PIXELS_PER_METER,
{
    WorldContext { world_height: WORLD_HEIGHT_METERS, pixels_per_meter: PIXELS_PER_METER }
}

/// The four walls around a world of the given half extents.
pub fn walls(half_width: i64, half_height: i64, thickness: i64) -> (r: Vec<Wall>)
    ensures
        r@ == walls_spec(half_width as int, half_height as int, thickness as int),
{
    let half_thickness = thickness / 2;
    let wide = Vec2 {
        x: saturate(half_width as i128 + half_thickness as i128),
        y: half_thickness,
    };
    let tall = Vec2 {
        x: half_thickness,
        y: saturate(half_height as i128 + half_thickness as i128),
    };
    let mut r: Vec<Wall> = Vec::new();
    r.push(
        Wall {
            center: Vec2 { x: 0, y: saturate(-(half_height as i128) - half_thickness as i128) },
            half_extents: wide,
        },
    );
    r.push(
        Wall {
            center: Vec2 { x: 0, y: saturate(half_height as i128 + half_thickness as i128) },
            half_extents: wide,
        },
    );
    r.push(
        Wall {
            center: Vec2 { x: saturate(-(half_width as i128) - half_thickness as i128), y: 0 },
            half_extents: tall,
        },
    );
    r.push(
        Wall {
            center: Vec2 { x: saturate(half_width as i128 + half_thickness as i128), y: 0 },
            half_extents: tall,
        },
    );
    assert(r@ =~= walls_spec(half_width as int, half_height as int, thickness as int));
    r
}

fn random_coordinate(rng: &mut StdRng, half_size: i64, margin: i64) -> (r: i64)
    ensures
        if sat(margin - half_size) < sat(half_size - margin) {
            sat(margin - half_size) <= r < sat(half_size - margin)
        } else {
            r == 0
        },
{
    let low = saturate(margin as i128 - half_size as i128);
    let high = saturate(half_size as i128 - margin as i128);
    if low < high {
        random_in_range(rng, low, high)
    } else {
        0
    }
}

/// Draws a place, no closer than `margin` to a wall, at which to put a
/// creature.
pub fn random_start_position(
    half_width: i64,
    half_height: i64,
    margin: i64,
    rng: &mut StdRng,
) -> (position: Vec2)
    ensures
        is_start_position(position, half_width as int, half_height as int, margin as int),
{
    let x = random_coordinate(rng, half_width, margin);
    let y = random_coordinate(rng, half_height, margin);
    Vec2 { x, y }
}

/// Says where snake number `index` is put: the first three at fixed places,
/// the others at random.
pub fn snake_start_position(index: usize, half_width: i64, half_height: i64, rng: &mut StdRng) -> (position:
    Vec2)
    ensures
        index < 3 ==> position == fixed_snake_start(
            index as int,
            half_width as int,
            half_height as int,
        ),
        index >= 3 ==> is_start_position(
            position,
            half_width as int,
            half_height as int,
            SNAKE_START_MARGIN as int,
        ),
{
    if index == 0 {
        Vec2 { x: -(half_width / 2), y: half_height / 3 }
    } else if index == 1 {
        Vec2 { x: 0, y: 0 }
    } else if index == 2 {
        Vec2 { x: half_width / 2, y: -(half_height / 3) }
    } else {
        random_start_position(half_width, half_height, SNAKE_START_MARGIN, rng)
    }
}

/// Makes a snake's attributes those of one of the aquarium's snakes.
pub fn tuned_snake_attributes(attributes: CreatureAttributes) -> (tuned: CreatureAttributes)
    ensures
        tuned == tuned_snake_attributes_spec(attributes),
        attributes.satiety <= attributes.max_satiety ==> tuned.wf(),
{
    let mut tuned = attributes;
    tuned.max_energy = SNAKE_MAX_ENERGY;
    tuned.energy_recovery_rate = SNAKE_ENERGY_RECOVERY_RATE;
    tuned.metabolic_rate = SNAKE_METABOLIC_RATE;
    tuned.energy = SNAKE_MAX_ENERGY;
    tuned
}

} // verus!
