//! Flocking: the steering impulse that keeps a creature with its neighbours.
//!
//! The impulse is the sum of three terms. Cohesion points from the creature
//! to the centroid of its neighbours. Alignment points along the neighbours'
//! mean velocity. Separation points away from the neighbours that are closer
//! than the separation distance. Each term has length one before it is
//! multiplied by its strength. All three are sums over the neighbours, so the
//! order in which the neighbours are listed does not matter.

use crate::fixed::{
    div_toward_zero, is_floor_sqrt, lemma_floor_sqrt_at_least, lemma_floor_sqrt_is, sat, saturate,
    SCALE,
};
use crate::vec2::Vec2;
use vstd::prelude::*;

verus! {

/// The shortest length, in steps, that cohesion and alignment still treat as
/// a direction.
pub const DIRECTION_EPSILON: u64 = 1;

/// What flocking needs to know of one neighbour.
#[derive(Debug, Clone, Copy)]
pub struct BoidNeighborInfo {
    pub position: Vec2,
    pub velocity: Vec2,
}

/// The sum of the neighbours' positions, component by component.
pub open spec fn position_sum(s: Seq<BoidNeighborInfo>) -> (int, int)
    decreases s.len(),
{
    if s.len() == 0 {
        (0, 0)
    } else {
        let rest = position_sum(s.drop_last());
        (rest.0 + s.last().position.x, rest.1 + s.last().position.y)
    }
}

/// The sum of the neighbours' velocities, component by component.
pub open spec fn velocity_sum(s: Seq<BoidNeighborInfo>) -> (int, int)
    decreases s.len(),
{
    if s.len() == 0 {
        (0, 0)
    } else {
        let rest = velocity_sum(s.drop_last());
        (rest.0 + s.last().velocity.x, rest.1 + s.last().velocity.y)
    }
}

/// Whether a neighbour at `position` is closer to `self_position` than
/// `separation_distance`, without being in the same place.
pub open spec fn is_crowding(self_position: Vec2, position: Vec2, separation_distance: int) -> bool {
    let distance = position.minus_spec(self_position).norm_spec();
    0 < distance < separation_distance
}

/// The direction, of length one, from a neighbour at `position` to
/// `self_position`.
pub open spec fn away_from(self_position: Vec2, position: Vec2) -> Vec2 {
    self_position.minus_spec(position).normalized_spec(0)
}

/// The sum of the directions away from every crowding neighbour.
pub open spec fn separation_sum(
    self_position: Vec2,
    s: Seq<BoidNeighborInfo>,
    separation_distance: int,
) -> (int, int)
    decreases s.len(),
{
    if s.len() == 0 {
        (0, 0)
    } else {
        let rest = separation_sum(self_position, s.drop_last(), separation_distance);
        if is_crowding(self_position, s.last().position, separation_distance) {
            let away = away_from(self_position, s.last().position);
            (rest.0 + away.x, rest.1 + away.y)
        } else {
            rest
        }
    }
}

/// The mean of `count` vectors whose sum is `sum`.
pub open spec fn mean_of(sum: (int, int), count: int) -> Vec2 {
    Vec2 {
        x: sat(div_toward_zero(sum.0, count)) as i64,
        y: sat(div_toward_zero(sum.1, count)) as i64,
    }
}

/// A pair of integers as a vector.
pub open spec fn vector_of(sum: (int, int)) -> Vec2 {
    Vec2 { x: sat(sum.0) as i64, y: sat(sum.1) as i64 }
}

/// The cohesion term: toward the centroid of the neighbours.
pub open spec fn cohesion_term(
    self_position: Vec2,
    s: Seq<BoidNeighborInfo>,
    cohesion_strength: int,
) -> Vec2 {
    mean_of(position_sum(s), s.len() as int).minus_spec(self_position).normalized_spec(
        DIRECTION_EPSILON as int,
    ).scaled_spec(cohesion_strength)
}

/// The alignment term: along the mean velocity of the neighbours.
pub open spec fn alignment_term(s: Seq<BoidNeighborInfo>, alignment_strength: int) -> Vec2 {
    mean_of(velocity_sum(s), s.len() as int).normalized_spec(
        DIRECTION_EPSILON as int,
    ).scaled_spec(alignment_strength)
}

/// The separation term: away from the crowding neighbours, or zero where
/// their directions cancel or there are none.
pub open spec fn separation_term(
    self_position: Vec2,
    s: Seq<BoidNeighborInfo>,
    separation_distance: int,
    separation_strength: int,
) -> Vec2 {
    let pushed = vector_of(separation_sum(self_position, s, separation_distance));
    if pushed.is_zero_spec() {
        Vec2::zero_spec()
    } else {
        pushed.normalized_spec(0).scaled_spec(separation_strength)
    }
}

/// The steering impulse on a creature at `self_position` among the
/// neighbours `s`.
pub open spec fn boid_impulse_spec(
    self_position: Vec2,
    s: Seq<BoidNeighborInfo>,
    separation_distance: int,
    cohesion_strength: int,
    separation_strength: int,
    alignment_strength: int,
) -> Vec2 {
    if s.len() == 0 {
        Vec2::zero_spec()
    } else {
        cohesion_term(self_position, s, cohesion_strength).plus_spec(
            alignment_term(s, alignment_strength),
        ).plus_spec(
            separation_term(self_position, s, separation_distance, separation_strength),
        )
    }
}

/// The mean of `count` vectors whose sum is `(sum_x, sum_y)`.
fn mean(sum_x: i128, sum_y: i128, count: usize) -> (r: Vec2)
    requires
        count > 0,
    ensures
        r == mean_of((sum_x as int, sum_y as int), count as int),
{
    Vec2 { x: saturate(sum_x / (count as i128)), y: saturate(sum_y / (count as i128)) }
}

/// Calculates the combined steering impulse on a creature at `self_position`
/// from its neighbours. Without neighbours the impulse is zero.
///
/// The perception radius plays no part: the caller has chosen the
/// neighbours by it.
pub fn calculate_boid_steering_impulse(
    self_position: Vec2,
    neighbors_info: &[BoidNeighborInfo],
    _perception_radius: i64,
    separation_distance: i64,
    cohesion_strength: i64,
    separation_strength: i64,
    alignment_strength: i64,
) -> (impulse: Vec2)
    ensures
        impulse == boid_impulse_spec(
            self_position,
            neighbors_info@,
            separation_distance as int,
            cohesion_strength as int,
            separation_strength as int,
            alignment_strength as int,
        ),
        neighbors_info@.len() == 0 ==> impulse == Vec2::zero_spec(),
{
    let count = neighbors_info.len();
    if count == 0 {
        return Vec2::zero();
    }
    let ghost s = neighbors_info@;
    let mut position_x: i128 = 0;
    let mut position_y: i128 = 0;
    let mut velocity_x: i128 = 0;
    let mut velocity_y: i128 = 0;
    let mut push_x: i128 = 0;
    let mut push_y: i128 = 0;
    let mut i: usize = 0;
    while i < count
        invariant
            i <= count,
            count == neighbors_info@.len(),
            s == neighbors_info@,
            (position_x as int, position_y as int) == position_sum(s.take(i as int)),
            (velocity_x as int, velocity_y as int) == velocity_sum(s.take(i as int)),
            (push_x as int, push_y as int) == separation_sum(
                self_position,
                s.take(i as int),
                separation_distance as int,
            ),
            -(i * 0x8000_0000_0000_0000) <= position_x <= i * 0x8000_0000_0000_0000,
            -(i * 0x8000_0000_0000_0000) <= position_y <= i * 0x8000_0000_0000_0000,
            -(i * 0x8000_0000_0000_0000) <= velocity_x <= i * 0x8000_0000_0000_0000,
            -(i * 0x8000_0000_0000_0000) <= velocity_y <= i * 0x8000_0000_0000_0000,
            -(i * 0x8000_0000_0000_0000) <= push_x <= i * 0x8000_0000_0000_0000,
            -(i * 0x8000_0000_0000_0000) <= push_y <= i * 0x8000_0000_0000_0000,
        decreases count - i,
    {
        let neighbor = neighbors_info[i];
        proof {
            assert(s.take(i as int + 1).drop_last() == s.take(i as int));
            assert(s.take(i as int + 1).last() == neighbor);
        }
        position_x = position_x + neighbor.position.x as i128;
        position_y = position_y + neighbor.position.y as i128;
        velocity_x = velocity_x + neighbor.velocity.x as i128;
        velocity_y = velocity_y + neighbor.velocity.y as i128;
        let distance = neighbor.position.minus(self_position).norm();
        if distance > 0 && separation_distance > 0 && distance < separation_distance as u64 {
            let away = self_position.minus(neighbor.position).normalized(0);
            push_x = push_x + away.x as i128;
            push_y = push_y + away.y as i128;
        }
        i += 1;
    }
    assert(s.take(count as int) == s);
    let cohesion = mean(position_x, position_y, count).minus(self_position).normalized(
        DIRECTION_EPSILON,
    ).scaled(cohesion_strength);
    let alignment = mean(velocity_x, velocity_y, count).normalized(DIRECTION_EPSILON).scaled(
        alignment_strength,
    );
    let pushed = Vec2 { x: saturate(push_x), y: saturate(push_y) };
    let separation = if pushed.is_zero() {
        Vec2::zero()
    } else {
        pushed.normalized(0).scaled(separation_strength)
    };
    cohesion.plus(alignment).plus(separation)
}

/// A vector multiplied by zero is zero.
pub proof fn lemma_scaled_by_zero(v: Vec2)
    ensures
        v.scaled_spec(0) == Vec2::zero_spec(),
{
    assert(v.x * 0 == 0 && v.y * 0 == 0) by (nonlinear_arith);
}

/// The zero vector has no direction: normalized, it stays zero.
pub proof fn lemma_zero_normalized(min_norm: int)
    ensures
        Vec2::zero_spec().normalized_spec(min_norm) == Vec2::zero_spec(),
{
    lemma_floor_sqrt_is(0, 0);
    assert(Vec2::zero_spec().norm_squared_spec() == 0) by (nonlinear_arith);
}

/// Adding the zero vector changes nothing.
pub proof fn lemma_plus_zero(v: Vec2)
    ensures
        v.plus_spec(Vec2::zero_spec()) == v,
        Vec2::zero_spec().plus_spec(v) == v,
{
}

/// With one neighbour and cohesion alone, the impulse is the direction from
/// the creature to that neighbour, multiplied by the cohesion strength.
pub proof fn lemma_single_neighbor_cohesion(
    self_position: Vec2,
    neighbor: BoidNeighborInfo,
    separation_distance: int,
    cohesion_strength: int,
)
    ensures
        boid_impulse_spec(
            self_position,
            seq![neighbor],
            separation_distance,
            cohesion_strength,
            0,
            0,
        ) == neighbor.position.minus_spec(self_position).normalized_spec(
            DIRECTION_EPSILON as int,
        ).scaled_spec(cohesion_strength),
{
    let s = seq![neighbor];
    lemma_sums_of_one(self_position, neighbor, separation_distance);
    assert(mean_of(position_sum(s), 1) == neighbor.position);
    let pushed = vector_of(separation_sum(self_position, s, separation_distance));
    lemma_scaled_by_zero(pushed.normalized_spec(0));
    lemma_scaled_by_zero(mean_of(velocity_sum(s), 1).normalized_spec(DIRECTION_EPSILON as int));
    lemma_plus_zero(cohesion_term(self_position, s, cohesion_strength));
}

/// With one neighbour that is closer than the separation distance, and
/// separation alone, the impulse is the direction from that neighbour to the
/// creature, multiplied by the separation strength. No component of it
/// exceeds the strength, and none points toward the neighbour. Its length is
/// the strength, but for what rounding takes or adds: a few millionths of
/// the strength and a few steps.
pub proof fn lemma_single_neighbor_separation(
    self_position: Vec2,
    neighbor: BoidNeighborInfo,
    separation_distance: int,
    separation_strength: int,
)
    requires
        is_crowding(self_position, neighbor.position, separation_distance),
        0 < separation_strength <= i64::MAX,
    ensures
        ({
            let impulse = boid_impulse_spec(
                self_position,
                seq![neighbor],
                separation_distance,
                0,
                separation_strength,
                0,
            );
            let away = away_from(self_position, neighbor.position);
            &&& impulse == away.normalized_spec(0).scaled_spec(separation_strength)
            &&& -separation_strength <= impulse.x <= separation_strength
            &&& -separation_strength <= impulse.y <= separation_strength
            &&& self_position.x >= neighbor.position.x ==> impulse.x >= 0
            &&& self_position.x <= neighbor.position.x ==> impulse.x <= 0
            &&& self_position.y >= neighbor.position.y ==> impulse.y >= 0
            &&& self_position.y <= neighbor.position.y ==> impulse.y <= 0
            &&& impulse.norm_squared_spec() * ((SCALE - 3) * (SCALE - 3)) < (SCALE - 2) * (SCALE
                - 2) * (separation_strength * separation_strength)
            &&& impulse.norm_squared_spec() * SCALE >= (SCALE - 4) * (separation_strength
                * separation_strength) - 4 * SCALE * separation_strength
        }),
{
    let s = seq![neighbor];
    lemma_sums_of_one(self_position, neighbor, separation_distance);
    let away = away_from(self_position, neighbor.position);
    let pushed = vector_of(separation_sum(self_position, s, separation_distance));
    assert(pushed == away);
    lemma_scaled_by_zero(
        mean_of(position_sum(s), 1).minus_spec(self_position).normalized_spec(
            DIRECTION_EPSILON as int,
        ),
    );
    lemma_scaled_by_zero(mean_of(velocity_sum(s), 1).normalized_spec(DIRECTION_EPSILON as int));
    if pushed.is_zero_spec() {
        lemma_zero_normalized(0);
        lemma_scaled_by_zero(Vec2::zero_spec());
    }
    let term = separation_term(self_position, s, separation_distance, separation_strength);
    assert(term == away.normalized_spec(0).scaled_spec(separation_strength));
    lemma_plus_zero(term);
    let toward = self_position.minus_spec(neighbor.position);
    crate::vec2::lemma_normalized_keeps_signs(toward, 0);
    crate::vec2::lemma_normalized_keeps_signs(away, 0);
    crate::vec2::lemma_normalized_within_unit(away, 0);
    crate::vec2::lemma_scaled_keeps_signs(away.normalized_spec(0), separation_strength);
    crate::vec2::lemma_scaled_unit_within_strength(away.normalized_spec(0), separation_strength);
    lemma_separation_length(self_position, neighbor.position, separation_strength);
}

/// The length of what pushes a creature away from a neighbour that is not
/// in the same place: the strength, but for what rounding takes or adds.
proof fn lemma_separation_length(self_position: Vec2, position: Vec2, strength: int)
    requires
        position.minus_spec(self_position).norm_spec() > 0,
        0 < strength <= i64::MAX,
    ensures
        ({
            let push = away_from(self_position, position).normalized_spec(0).scaled_spec(
                strength,
            );
            &&& !away_from(self_position, position).is_zero_spec()
            &&& push.norm_squared_spec() * ((SCALE - 3) * (SCALE - 3)) < (SCALE - 2) * (SCALE - 2)
                * (strength * strength)
            &&& push.norm_squared_spec() * SCALE >= (SCALE - 4) * (strength * strength) - 4
                * SCALE * strength
        }),
{
    let s = SCALE as int;
    let back = position.minus_spec(self_position);
    let toward = self_position.minus_spec(position);
    // the two are not in the same place, so the way back has a length
    crate::vec2::lemma_norm_exists(back);
    assert(back.norm_squared_spec() >= 1) by (nonlinear_arith)
        requires
            is_floor_sqrt(back.norm_squared_spec(), back.norm_spec()),
            back.norm_spec() > 0,
    ;
    assert(back.x != 0 || back.y != 0) by (nonlinear_arith)
        requires
            back.norm_squared_spec() >= 1,
            back.norm_squared_spec() == back.x * back.x + back.y * back.y,
    ;
    assert(toward.x != 0 || toward.y != 0);
    assert(toward.norm_squared_spec() >= 1) by (nonlinear_arith)
        requires
            toward.x != 0 || toward.y != 0,
            toward.norm_squared_spec() == toward.x * toward.x + toward.y * toward.y,
    ;
    lemma_floor_sqrt_at_least(toward.norm_squared_spec(), 1);
    // its direction is about one unit long
    let away = toward.normalized_spec(0);
    crate::vec2::lemma_normalized_length(toward, 0);
    crate::vec2::lemma_normalized_within_unit(toward, 0);
    let a = away.norm_squared_spec();
    assert((s - 3) * (s - 3) <= s * s - 4 * s);
    lemma_floor_sqrt_at_least(a, s - 3);
    let n = away.norm_spec();
    assert(a > 0);
    assert(!away.is_zero_spec()) by (nonlinear_arith)
        requires
            a > 0,
            a == away.x * away.x + away.y * away.y,
    ;
    // and so is the direction of its direction
    let unit = away.normalized_spec(0);
    crate::vec2::lemma_normalized_length(away, 0);
    crate::vec2::lemma_normalized_within_unit(away, 0);
    let u = unit.norm_squared_spec();
    let push = unit.scaled_spec(strength);
    crate::vec2::lemma_scaled_length(unit, strength);
    let r = push.norm_squared_spec();
    let k = strength * strength;
    assert(k > 0) by (nonlinear_arith)
        requires
            strength > 0,
            k == strength * strength,
    ;
    assert(r >= 0) by (nonlinear_arith)
        requires
            r == push.x * push.x + push.y * push.y,
    ;
    // from above
    assert(r * (n * n) < (n + 1) * (n + 1) * k) by (nonlinear_arith)
        requires
            r * (s * s) <= u * k,
            u * (n * n) < (n + 1) * (n + 1) * (s * s),
            s > 0,
            k > 0,
            n > 0,
            r >= 0,
            u >= 0,
    ;
    assert((n + 1) * (n + 1) * ((s - 3) * (s - 3)) <= (n * n) * ((s - 2) * (s - 2)))
        by (nonlinear_arith)
        requires
            n >= s - 3,
            s > 3,
    ;
    assert(r * ((s - 3) * (s - 3)) < (s - 2) * (s - 2) * k) by (nonlinear_arith)
        requires
            r * (n * n) < (n + 1) * (n + 1) * k,
            (n + 1) * (n + 1) * ((s - 3) * (s - 3)) <= (n * n) * ((s - 2) * (s - 2)),
            n > 0,
            k > 0,
            r >= 0,
            s > 3,
    ;
    // from below
    assert(r * s >= (s - 4) * k - 4 * s * strength) by (nonlinear_arith)
        requires
            r * (s * s) + 4 * (s * s) * strength >= u * k,
            u >= s * s - 4 * s,
            k > 0,
            s > 0,
    ;
}

/// With two neighbours placed symmetrically about the creature, and cohesion
/// alone, the impulse is zero: the centroid is where the creature is.
pub proof fn lemma_symmetric_neighbors_cancel(
    self_position: Vec2,
    first: BoidNeighborInfo,
    second: BoidNeighborInfo,
    separation_distance: int,
    cohesion_strength: int,
)
    requires
        first.position.x + second.position.x == 2 * self_position.x,
        first.position.y + second.position.y == 2 * self_position.y,
    ensures
        boid_impulse_spec(
            self_position,
            seq![first, second],
            separation_distance,
            cohesion_strength,
            0,
            0,
        ) == Vec2::zero_spec(),
{
    let s = seq![first, second];
    let one = seq![first];
    assert(s.drop_last() == one);
    assert(s.last() == second);
    lemma_sums_of_one(self_position, first, separation_distance);
    assert(position_sum(s) == (2 * self_position.x, 2 * self_position.y));
    assert(mean_of(position_sum(s), 2) == self_position);
    assert(self_position.minus_spec(self_position) == Vec2::zero_spec());
    lemma_zero_normalized(DIRECTION_EPSILON as int);
    lemma_scaled_by_zero(Vec2::zero_spec());
    assert(Vec2::zero_spec().scaled_spec(cohesion_strength) == Vec2::zero_spec()) by {
        assert(0 * cohesion_strength == 0) by (nonlinear_arith);
    }
    let pushed = vector_of(separation_sum(self_position, s, separation_distance));
    lemma_scaled_by_zero(pushed.normalized_spec(0));
    lemma_scaled_by_zero(mean_of(velocity_sum(s), 2).normalized_spec(DIRECTION_EPSILON as int));
}

/// The three sums over a single neighbour.
proof fn lemma_sums_of_one(
    self_position: Vec2,
    neighbor: BoidNeighborInfo,
    separation_distance: int,
)
    ensures
        position_sum(seq![neighbor]) == (neighbor.position.x as int, neighbor.position.y as int),
        velocity_sum(seq![neighbor]) == (neighbor.velocity.x as int, neighbor.velocity.y as int),
        separation_sum(self_position, seq![neighbor], separation_distance) == if is_crowding(
            self_position,
            neighbor.position,
            separation_distance,
        ) {
            (
                away_from(self_position, neighbor.position).x as int,
                away_from(self_position, neighbor.position).y as int,
            )
        } else {
            (0int, 0int)
        },
{
    let s = seq![neighbor];
    assert(s.drop_last() == Seq::<BoidNeighborInfo>::empty());
    assert(s.last() == neighbor);
    assert(position_sum(s.drop_last()) == (0int, 0int));
    assert(velocity_sum(s.drop_last()) == (0int, 0int));
    assert(separation_sum(self_position, s.drop_last(), separation_distance) == (0int, 0int));
}

/// The sum of `term` over the neighbours, component by component.
pub open spec fn sum_over(
    s: Seq<BoidNeighborInfo>,
    term: spec_fn(BoidNeighborInfo) -> (int, int),
) -> (int, int)
    decreases s.len(),
{
    if s.len() == 0 {
        (0, 0)
    } else {
        let rest = sum_over(s.drop_last(), term);
        (rest.0 + term(s.last()).0, rest.1 + term(s.last()).1)
    }
}

/// What a neighbour adds to the sum of positions.
pub open spec fn position_term() -> spec_fn(BoidNeighborInfo) -> (int, int) {
    |n: BoidNeighborInfo| (n.position.x as int, n.position.y as int)
}

/// What a neighbour adds to the sum of velocities.
pub open spec fn velocity_term() -> spec_fn(BoidNeighborInfo) -> (int, int) {
    |n: BoidNeighborInfo| (n.velocity.x as int, n.velocity.y as int)
}

/// What a neighbour adds to the push away from the crowding neighbours.
pub open spec fn separation_term_of(
    self_position: Vec2,
    separation_distance: int,
) -> spec_fn(BoidNeighborInfo) -> (int, int) {
    |n: BoidNeighborInfo|
        if is_crowding(self_position, n.position, separation_distance) {
            (
                away_from(self_position, n.position).x as int,
                away_from(self_position, n.position).y as int,
            )
        } else {
            (0int, 0int)
        }
}

/// The three sums of the steering impulse are sums of one term for each
/// neighbour.
pub proof fn lemma_sums_are_sums_over(
    self_position: Vec2,
    s: Seq<BoidNeighborInfo>,
    separation_distance: int,
)
    ensures
        position_sum(s) == sum_over(s, position_term()),
        velocity_sum(s) == sum_over(s, velocity_term()),
        separation_sum(self_position, s, separation_distance) == sum_over(
            s,
            separation_term_of(self_position, separation_distance),
        ),
    decreases s.len(),
{
    if s.len() > 0 {
        lemma_sums_are_sums_over(self_position, s.drop_last(), separation_distance);
    }
}

/// A sum over the neighbours is the sum over all but one of them, and that
/// one's term.
pub proof fn lemma_sum_over_without(
    s: Seq<BoidNeighborInfo>,
    term: spec_fn(BoidNeighborInfo) -> (int, int),
    i: int,
)
    requires
        0 <= i < s.len(),
    ensures
        sum_over(s, term) == (
            sum_over(s.remove(i), term).0 + term(s[i]).0,
            sum_over(s.remove(i), term).1 + term(s[i]).1,
        ),
    decreases s.len(),
{
    if i == s.len() - 1 {
        assert(s.remove(i) == s.drop_last());
    } else {
        lemma_sum_over_without(s.drop_last(), term, i);
        assert(s.drop_last().remove(i) == s.remove(i).drop_last());
        assert(s.remove(i).last() == s.last());
        assert(s.drop_last()[i] == s[i]);
    }
}

/// A sum over the neighbours does not depend on the order in which they
/// are listed.
pub proof fn lemma_sum_over_ignores_order(
    a: Seq<BoidNeighborInfo>,
    b: Seq<BoidNeighborInfo>,
    term: spec_fn(BoidNeighborInfo) -> (int, int),
)
    requires
        a.to_multiset() == b.to_multiset(),
    ensures
        a.len() == b.len(),
        sum_over(a, term) == sum_over(b, term),
    decreases a.len(),
{
    vstd::seq_lib::to_multiset_len(a);
    vstd::seq_lib::to_multiset_len(b);
    if a.len() > 0 {
        let last = a.last();
        let rest = a.drop_last();
        assert(a.contains(last)) by {
            assert(a[a.len() - 1] == last);
        }
        vstd::seq_lib::to_multiset_contains(a, last);
        vstd::seq_lib::to_multiset_contains(b, last);
        let j = choose|j: int| 0 <= j < b.len() && b[j] == last;
        assert(rest == a.remove(a.len() - 1));
        vstd::seq_lib::to_multiset_remove(a, a.len() - 1);
        vstd::seq_lib::to_multiset_remove(b, j);
        lemma_sum_over_ignores_order(rest, b.remove(j), term);
        lemma_sum_over_without(b, term, j);
    }
}

/// The steering impulse does not depend on the order in which the
/// neighbours are listed.
pub proof fn lemma_impulse_ignores_order(
    self_position: Vec2,
    a: Seq<BoidNeighborInfo>,
    b: Seq<BoidNeighborInfo>,
    separation_distance: int,
    cohesion_strength: int,
    separation_strength: int,
    alignment_strength: int,
)
    requires
        a.to_multiset() == b.to_multiset(),
    ensures
        boid_impulse_spec(
            self_position,
            a,
            separation_distance,
            cohesion_strength,
            separation_strength,
            alignment_strength,
        ) == boid_impulse_spec(
            self_position,
            b,
            separation_distance,
            cohesion_strength,
            separation_strength,
            alignment_strength,
        ),
{
    lemma_sums_are_sums_over(self_position, a, separation_distance);
    lemma_sums_are_sums_over(self_position, b, separation_distance);
    lemma_sum_over_ignores_order(a, b, position_term());
    lemma_sum_over_ignores_order(a, b, velocity_term());
    lemma_sum_over_ignores_order(a, b, separation_term_of(self_position, separation_distance));
}

} // verus!
