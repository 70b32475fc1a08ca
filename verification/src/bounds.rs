//! The edges of the world: telling whether a point is inside them, pushing
//! a body back from them, and the last line of defence that brings back a
//! creature that has left them altogether.
//!
//! The world is centred on the origin. Its half extents are half its width
//! and half its height.

use crate::creature::BodyState;
use crate::fixed::{clamp, clamp_spec, magnitude, magnitude_spec, sat, saturate};
use crate::vec2::Vec2;
use vstd::prelude::*;

verus! {

/// The strength of the push that each step of depth into the margin adds.
pub const BOUNDARY_PUSH_PER_DEPTH: i64 = 5;

/// The strength of the force that keeps a body off the edges.
pub const BOUNDARY_FORCE_STRENGTH: i64 = 15_000_000;

/// The shortest push, in steps, that still has a direction.
pub const BOUNDARY_EPSILON: u64 = 1;

/// Whether `position` lies inside the square of half extent `half_size`,
/// farther than `margin` from each of its edges.
pub open spec fn within_bounds_spec(position: Vec2, half_size: int, margin: int) -> bool {
    magnitude_spec(position.x as int) < half_size - margin && magnitude_spec(position.y as int)
        < half_size - margin
}

/// `position` brought back to the square of half extent `half_size` less
/// `margin`.
pub open spec fn clamp_position_spec(position: Vec2, half_size: int, margin: int) -> Vec2 {
    Vec2 {
        x: clamp_spec(position.x as int, sat(margin - half_size), sat(half_size - margin)) as i64,
        y: clamp_spec(position.y as int, sat(margin - half_size), sat(half_size - margin)) as i64,
    }
}

/// How deep a body whose distance to an edge is `distance` stands in the
/// margin along that edge; zero outside the margin.
pub open spec fn depth_in_margin(distance: int, margin: int) -> int {
    if distance < margin {
        margin - distance
    } else {
        0
    }
}

/// The push that the four edges give a body at `position`, before it is
/// brought to the boundary force's strength.
pub open spec fn boundary_push_spec(position: Vec2, half_size: int, margin: int) -> Vec2 {
    Vec2 {
        x: sat(
            BOUNDARY_PUSH_PER_DEPTH * (depth_in_margin(half_size + position.x, margin)
                - depth_in_margin(half_size - position.x, margin)),
        ) as i64,
        y: sat(
            BOUNDARY_PUSH_PER_DEPTH * (depth_in_margin(half_size + position.y, margin)
                - depth_in_margin(half_size - position.y, margin)),
        ) as i64,
    }
}

/// Whether a body at `position` is closer than `margin` to an edge.
pub open spec fn near_boundary(position: Vec2, half_size: int, margin: int) -> bool {
    ||| half_size - position.x < margin
    ||| half_size + position.x < margin
    ||| half_size - position.y < margin
    ||| half_size + position.y < margin
}

/// The force that keeps a body at `position` off the edges: none while the
/// body is farther than `margin` from all of them, or where the pushes of
/// opposite edges cancel.
pub open spec fn boundary_force_spec(position: Vec2, half_size: int, margin: int) -> Option<Vec2> {
    let push = boundary_push_spec(position, half_size, margin);
    if near_boundary(position, half_size, margin) && push.norm_spec() > BOUNDARY_EPSILON {
        Some(
            push.normalized_spec(BOUNDARY_EPSILON as int).scaled_spec(
                BOUNDARY_FORCE_STRENGTH as int,
            ),
        )
    } else {
        None
    }
}

/// Whether a body at `position` has left the world by more than `padding`.
pub open spec fn escaped_spec(
    position: Vec2,
    half_width: int,
    half_height: int,
    padding: int,
) -> bool {
    magnitude_spec(position.x as int) > half_width + padding || magnitude_spec(position.y as int)
        > half_height + padding
}

/// Whether one of the bodies has left the world by more than `padding`.
pub open spec fn any_escaped_spec(
    bodies: Seq<BodyState>,
    half_width: int,
    half_height: int,
    padding: int,
) -> bool {
    exists|i: int|
        0 <= i < bodies.len() && escaped_spec(
            (#[trigger] bodies[i]).position,
            half_width,
            half_height,
            padding,
        )
}

/// A body at the origin, at rest.
pub open spec fn body_at_origin() -> BodyState {
    BodyState { position: Vec2::zero_spec(), velocity: Vec2::zero_spec(), angular_velocity: 0 }
}

/// Whether `position` lies inside the square of half extent `half_size`,
/// farther than `margin` from each of its edges.
pub fn is_within_bounds(position: Vec2, half_size: i64, margin: i64) -> (r: bool)
    ensures
        r == within_bounds_spec(position, half_size as int, margin as int),
{
    let limit = half_size as i128 - margin as i128;
    (magnitude(position.x) as i128) < limit && (magnitude(position.y) as i128) < limit
}

/// Brings `position` back to the square of half extent `half_size` less
/// `margin`.
pub fn clamp_position(position: Vec2, half_size: i64, margin: i64) -> (r: Vec2)
    ensures
        r == clamp_position_spec(position, half_size as int, margin as int),
{
    let low = saturate(margin as i128 - half_size as i128);
    let high = saturate(half_size as i128 - margin as i128);
    Vec2 { x: clamp(position.x, low, high), y: clamp(position.y, low, high) }
}

fn depth(distance: i128, margin: i64) -> (r: i128)
    requires
        -0x1_0000_0000_0000_0000 <= distance <= 0x1_0000_0000_0000_0000,
    ensures
        r == depth_in_margin(distance as int, margin as int),
        0 <= r <= 0x2_0000_0000_0000_0000,
{
    if distance < margin as i128 {
        margin as i128 - distance
    } else {
        0
    }
}

/// Calculates the force that keeps a body at `position` off the edges of
/// the square of half extent `half_size`. The force has the boundary force's
/// strength and points away from the edges that are closer than `margin`,
/// the deeper into the margin the more.
pub fn calculate_boundary_force(position: Vec2, half_size: i64, margin: i64) -> (force: Option<
    Vec2,
>)
    ensures
        force == boundary_force_spec(position, half_size as int, margin as int),
{
    let half = half_size as i128;
    let to_right = half - position.x as i128;
    let to_left = half + position.x as i128;
    let to_top = half - position.y as i128;
    let to_bottom = half + position.y as i128;
    let limit = margin as i128;
    if to_right < limit || to_left < limit || to_top < limit || to_bottom < limit {
        let push = Vec2 {
            x: saturate(
                (BOUNDARY_PUSH_PER_DEPTH as i128) * (depth(to_left, margin) - depth(
                    to_right,
                    margin,
                )),
            ),
            y: saturate(
                (BOUNDARY_PUSH_PER_DEPTH as i128) * (depth(to_bottom, margin) - depth(
                    to_top,
                    margin,
                )),
            ),
        };
        if push.norm() > BOUNDARY_EPSILON {
            return Some(push.normalized(BOUNDARY_EPSILON).scaled(BOUNDARY_FORCE_STRENGTH));
        }
    }
    None
}

/// Whether a body at `position` has left the world by more than `padding`.
pub fn has_escaped(position: Vec2, half_width: i64, half_height: i64, padding: i64) -> (r: bool)
    ensures
        r == escaped_spec(position, half_width as int, half_height as int, padding as int),
{
    (magnitude(position.x) as i128) > half_width as i128 + padding as i128 || (magnitude(
        position.y,
    ) as i128) > half_height as i128 + padding as i128
}

/// Whether one of a creature's bodies has left the world by more than
/// `padding`.
pub fn any_escaped(bodies: &Vec<BodyState>, half_width: i64, half_height: i64, padding: i64) -> (r:
    bool)
    ensures
        r == any_escaped_spec(bodies@, half_width as int, half_height as int, padding as int),
{
    let mut i: usize = 0;
    while i < bodies.len()
        invariant
            i <= bodies.len(),
            forall|k: int|
                0 <= k < i ==> !escaped_spec(
                    (#[trigger] bodies@[k]).position,
                    half_width as int,
                    half_height as int,
                    padding as int,
                ),
        decreases bodies.len() - i,
    {
        if has_escaped(bodies[i].position, half_width, half_height, padding) {
            return true;
        }
        i += 1;
    }
    false
}

/// The last line of defence, run on each creature after the physics step.
/// Where one of the creature's bodies has left the world by more than
/// `padding`, every body of the creature is put back at the origin, at
/// rest, and the result is `true`. Otherwise nothing changes.
pub fn failsafe_pass(
    bodies: &mut Vec<BodyState>,
    half_width: i64,
    half_height: i64,
    padding: i64,
) -> (was_reset: bool)
    ensures
        was_reset == any_escaped_spec(
            old(bodies)@,
            half_width as int,
            half_height as int,
            padding as int,
        ),
        final(bodies)@.len() == old(bodies)@.len(),
        was_reset ==> forall|i: int|
            0 <= i < final(bodies)@.len() ==> #[trigger] final(bodies)@[i] == body_at_origin(),
        !was_reset ==> final(bodies)@ == old(bodies)@,
{
    if !any_escaped(bodies, half_width, half_height, padding) {
        return false;
    }
    let count = bodies.len();
    let mut i: usize = 0;
    while i < count
        invariant
            i <= count,
            bodies@.len() == count,
            forall|k: int| 0 <= k < i ==> #[trigger] bodies@[k] == body_at_origin(),
        decreases count - i,
    {
        bodies.set(
            i,
            BodyState { position: Vec2::zero(), velocity: Vec2::zero(), angular_velocity: 0 },
        );
        i += 1;
    }
    true
}

/// After a failsafe pass no body of the creature is outside the world, and
/// a body that was outside is at rest. This holds for every world whose
/// padded extents are not negative.
pub proof fn lemma_failsafe_brings_back(
    before: Seq<BodyState>,
    after: Seq<BodyState>,
    half_width: int,
    half_height: int,
    padding: int,
)
    requires
        half_width + padding >= 0,
        half_height + padding >= 0,
        after.len() == before.len(),
        any_escaped_spec(before, half_width, half_height, padding) ==> forall|i: int|
            0 <= i < after.len() ==> #[trigger] after[i] == body_at_origin(),
        !any_escaped_spec(before, half_width, half_height, padding) ==> after == before,
    ensures
        !any_escaped_spec(after, half_width, half_height, padding),
        forall|i: int|
            0 <= i < before.len() && escaped_spec(
                (#[trigger] before[i]).position,
                half_width,
                half_height,
                padding,
            ) ==> after[i].velocity == Vec2::zero_spec() && after[i].angular_velocity == 0
                && !escaped_spec(after[i].position, half_width, half_height, padding),
{
    if any_escaped_spec(before, half_width, half_height, padding) {
        assert forall|i: int| 0 <= i < after.len() implies !escaped_spec(
            (#[trigger] after[i]).position,
            half_width,
            half_height,
            padding,
        ) by {
            assert(after[i] == body_at_origin());
        }
    }
}

/// The boundary force never has a component beyond its strength, however
/// far a body has strayed.
pub proof fn lemma_boundary_force_within_strength(position: Vec2, half_size: int, margin: int)
    ensures
        boundary_force_spec(position, half_size, margin) matches Some(force) ==> {
            &&& -BOUNDARY_FORCE_STRENGTH <= force.x <= BOUNDARY_FORCE_STRENGTH
            &&& -BOUNDARY_FORCE_STRENGTH <= force.y <= BOUNDARY_FORCE_STRENGTH
        },
{
    let push = boundary_push_spec(position, half_size, margin);
    crate::vec2::lemma_normalized_within_unit(push, BOUNDARY_EPSILON as int);
    crate::vec2::lemma_scaled_unit_within_strength(
        push.normalized_spec(BOUNDARY_EPSILON as int),
        BOUNDARY_FORCE_STRENGTH as int,
    );
}

} // verus!
