//! Following: a head that goes after a point, and a chain of segments each
//! of which goes after the one before it.
//!
//! The velocities of a whole chain are computed from one record of where
//! its segments are. No segment's new velocity depends on another segment's
//! new velocity or on the order in which they are computed.

use crate::fixed::{fixed_mul, fixed_mul_spec, sat, saturate};
use crate::vec2::Vec2;
use vstd::prelude::*;

verus! {

/// A follower that is no farther than this from what it follows keeps its
/// velocity.
pub const FOLLOW_DEADBAND: i64 = 100_000;

/// The speed that a follower aims for, per unit of distance.
pub const APPROACH_GAIN: i64 = 2_000_000;

/// The share of the difference to the aimed-for velocity, or angle, that is
/// made up in one tick.
pub const SMOOTHING: i64 = 100_000;

/// How far behind the tail a new segment is put.
pub const NEW_SEGMENT_DISTANCE: i64 = 50_000_000;

/// The speed of a head that swims in circles, along each axis.
pub const CIRCLE_SPEED_X: i64 = 2_000_000;

pub const CIRCLE_SPEED_Y: i64 = 1_000_000;

/// Whether a follower at `position` is far enough from `target` to move.
pub open spec fn out_of_deadband(position: Vec2, target: Vec2) -> bool {
    target.minus_spec(position).norm_squared_spec() > FOLLOW_DEADBAND * FOLLOW_DEADBAND
}

/// The speed that a follower at the given distance aims for: the distance
/// times the approach gain, at most `max_speed`.
pub open spec fn approach_speed_spec(distance: int, max_speed: int) -> int {
    if fixed_mul_spec(sat(distance), APPROACH_GAIN as int) < max_speed {
        fixed_mul_spec(sat(distance), APPROACH_GAIN as int)
    } else {
        max_speed
    }
}

/// `current` moved a tenth of the way toward `wanted`.
pub open spec fn smoothed_spec(current: Vec2, wanted: Vec2) -> Vec2 {
    current.plus_spec(wanted.minus_spec(current).scaled_spec(SMOOTHING as int))
}

/// The velocity to give a follower at `position` that moves with
/// `velocity` and goes after `target`; `None` inside the deadband.
pub open spec fn follow_velocity_spec(
    position: Vec2,
    target: Vec2,
    velocity: Vec2,
    max_speed: int,
) -> Option<Vec2> {
    if out_of_deadband(position, target) {
        let toward = target.minus_spec(position);
        Some(
            smoothed_spec(
                velocity,
                toward.normalized_spec(0).scaled_spec(
                    approach_speed_spec(toward.norm_spec(), max_speed),
                ),
            ),
        )
    } else {
        None
    }
}

/// The velocity to give segment `i` of a chain. The head follows nothing
/// here.
pub open spec fn chain_velocity_spec(
    positions: Seq<Vec2>,
    velocities: Seq<Vec2>,
    body_speed: int,
    i: int,
) -> Option<Vec2> {
    if 0 < i < positions.len() && i < velocities.len() {
        follow_velocity_spec(positions[i], positions[i - 1], velocities[i], body_speed)
    } else {
        None
    }
}

/// An angle moved a tenth of the way toward another.
pub open spec fn smoothed_angle_spec(current: int, wanted: int) -> int {
    sat(current + fixed_mul_spec(sat(wanted - current), SMOOTHING as int))
}

/// Where a new segment is put: behind the tail, in line with the last two
/// segments; to the left of a tail that is alone.
pub open spec fn new_segment_position_spec(tail: Vec2, before_tail: Option<Vec2>) -> Vec2 {
    let direction = match before_tail {
        Some(before) => before.minus_spec(tail).normalized_spec(0),
        None => Vec2 { x: -1_000_000i64, y: 0 },
    };
    tail.plus_spec(direction.scaled_spec(NEW_SEGMENT_DISTANCE as int))
}

/// The time left before a creature starts to move, after `dt` has gone by.
pub open spec fn startup_delay_spec(delay: int, dt: int) -> int {
    if dt >= delay {
        0
    } else {
        delay - dt
    }
}

/// `current` moved a tenth of the way toward `wanted`.
pub fn smoothed(current: Vec2, wanted: Vec2) -> (r: Vec2)
    ensures
        r == smoothed_spec(current, wanted),
{
    current.plus(wanted.minus(current).scaled(SMOOTHING))
}

/// Calculates the velocity to give a follower so that it goes after
/// `target`: a tenth of the way from its own velocity to one that points at
/// the target and grows with the distance, up to `max_speed`. A follower
/// within the deadband is left alone.
pub fn follow_velocity(position: Vec2, target: Vec2, velocity: Vec2, max_speed: i64) -> (r: Option<
    Vec2,
>)
    ensures
        r == follow_velocity_spec(position, target, velocity, max_speed as int),
{
    let toward = target.minus(position);
    if toward.norm_squared() > (FOLLOW_DEADBAND as u128) * (FOLLOW_DEADBAND as u128) {
        let distance = toward.norm();
        let capped: i64 = if distance > i64::MAX as u64 {
            i64::MAX
        } else {
            distance as i64
        };
        let approach = fixed_mul(capped, APPROACH_GAIN);
        let speed = if approach < max_speed {
            approach
        } else {
            max_speed
        };
        Some(smoothed(velocity, toward.normalized(0).scaled(speed)))
    } else {
        None
    }
}

/// Calculates the velocity to give each segment of a chain so that it goes
/// after the segment before it. Every velocity is computed from where the
/// segments are now; the head, and a segment without a recorded velocity,
/// get none.
pub fn chain_follow_velocities(
    positions: &Vec<Vec2>,
    velocities: &Vec<Vec2>,
    body_speed: i64,
) -> (r: Vec<Option<Vec2>>)
    ensures
        r@.len() == positions@.len(),
        forall|i: int|
            0 <= i < r@.len() ==> #[trigger] r@[i] == chain_velocity_spec(
                positions@,
                velocities@,
                body_speed as int,
                i,
            ),
{
    let mut r: Vec<Option<Vec2>> = Vec::new();
    let mut i: usize = 0;
    while i < positions.len()
        invariant
            i <= positions.len(),
            r@.len() == i,
            forall|k: int|
                0 <= k < i ==> #[trigger] r@[k] == chain_velocity_spec(
                    positions@,
                    velocities@,
                    body_speed as int,
                    k,
                ),
        decreases positions.len() - i,
    {
        if i > 0 && i < velocities.len() {
            r.push(follow_velocity(positions[i], positions[i - 1], velocities[i], body_speed));
        } else {
            r.push(None);
        }
        i += 1;
    }
    r
}

/// The velocity of a head that goes straight for `target` at `speed`; zero
/// where it is there already.
pub fn chase_velocity(position: Vec2, target: Vec2, speed: i64) -> (r: Vec2)
    ensures
        r == target.minus_spec(position).normalized_spec(0).scaled_spec(speed as int),
{
    target.minus(position).normalized(0).scaled(speed)
}

/// Moves an angle a tenth of the way toward another.
pub fn smoothed_angle(current: i64, wanted: i64) -> (r: i64)
    ensures
        r == smoothed_angle_spec(current as int, wanted as int),
{
    let difference = saturate(wanted as i128 - current as i128);
    saturate(current as i128 + fixed_mul(difference, SMOOTHING) as i128)
}

/// Says where a new segment is put.
pub fn new_segment_position(tail: Vec2, before_tail: Option<Vec2>) -> (r: Vec2)
    ensures
        r == new_segment_position_spec(tail, before_tail),
{
    let direction = match before_tail {
        Some(before) => before.minus(tail).normalized(0),
        None => Vec2 { x: -1_000_000, y: 0 },
    };
    tail.plus(direction.scaled(NEW_SEGMENT_DISTANCE))
}

/// The velocity of a head that swims in circles, given the cosine and the
/// sine of the time.
pub fn circular_velocity(cosine: i64, sine: i64) -> (r: Vec2)
    ensures
        r == (Vec2 {
            x: fixed_mul_spec(cosine as int, CIRCLE_SPEED_X as int) as i64,
            y: fixed_mul_spec(sine as int, CIRCLE_SPEED_Y as int) as i64,
        }),
{
    Vec2 { x: fixed_mul(cosine, CIRCLE_SPEED_X), y: fixed_mul(sine, CIRCLE_SPEED_Y) }
}

/// The time left before a creature starts to move, after `dt` has gone by.
pub fn startup_delay_after(delay: u64, dt: u64) -> (r: u64)
    ensures
        r == startup_delay_spec(delay as int, dt as int),
{
    if dt >= delay {
        0
    } else {
        delay - dt
    }
}

/// What a segment is told to do depends on nothing but where it is, how it
/// moves and where the segment before it is: two chains that agree on
/// these agree on the segment's new velocity.
pub proof fn lemma_following_is_local(
    positions: Seq<Vec2>,
    velocities: Seq<Vec2>,
    other_positions: Seq<Vec2>,
    other_velocities: Seq<Vec2>,
    body_speed: int,
    i: int,
)
    requires
        0 < i < positions.len(),
        i < velocities.len(),
        i < other_positions.len(),
        i < other_velocities.len(),
        positions[i] == other_positions[i],
        positions[i - 1] == other_positions[i - 1],
        velocities[i] == other_velocities[i],
    ensures
        chain_velocity_spec(positions, velocities, body_speed, i) == chain_velocity_spec(
            other_positions,
            other_velocities,
            body_speed,
            i,
        ),
{
}

} // verus!
