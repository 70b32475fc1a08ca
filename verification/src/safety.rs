//! Watching over a chain of segments: runaway speed, a body folded onto
//! itself, a head that no longer gets anywhere.

use crate::fixed::{div_toward_zero, unsigned_add, wide_mul, sat_unsigned};
use crate::vec2::Vec2;
use vstd::prelude::*;

verus! {

/// Two segments that are not neighbours are too close when their distance is
/// less than this many segment radii.
pub const SELF_COLLISION_FACTOR: i64 = 2_500_000;

/// Beyond this speed a segment is out of control.
pub const MAX_SAFE_SPEED: i64 = 5_000_000;

/// A head that has moved less than this since the last tick has not moved.
pub const STUCK_DISTANCE: i64 = 100_000;

/// The time by which each tick without movement adds to the stuck timer.
pub const STUCK_TICK: u64 = 16_000;

/// The share of the way toward the midpoint of its neighbours by which a
/// folded segment is moved.
pub const CORRECTION_GAIN: i64 = 100_000;

/// A chain of segments after its folded segments have been straightened.
pub struct CorrectedChain {
    /// Where each segment is to be, head first.
    pub positions: Vec<Vec2>,
    /// For each segment, whether it is to be brought to rest.
    pub stopped: Vec<bool>,
}

/// Whether `a` and `b` are less than `limit` apart.
pub open spec fn closer_than(a: Vec2, b: Vec2, limit: int) -> bool {
    limit > 0 && a.minus_spec(b).norm_squared_spec() < limit * limit
}

/// Whether a body that moves with `velocity` is faster than `limit`.
pub open spec fn faster_than(velocity: Vec2, limit: int) -> bool {
    limit < 0 || velocity.norm_squared_spec() > limit * limit
}

/// The segments that are too close to segment `i`, among those from two
/// places behind it up to, but not including, `j_end`: each as the pair of
/// `i` and its own place.
pub open spec fn close_pairs_of(positions: Seq<Vec2>, limit: int, i: int, j_end: int) -> Seq<usize>
    decreases j_end - i,
{
    if j_end <= i + 2 || i < 0 || j_end > positions.len() {
        Seq::empty()
    } else {
        let rest = close_pairs_of(positions, limit, i, j_end - 1);
        if closer_than(positions[i], positions[j_end - 1], limit) {
            rest.push(i as usize).push((j_end - 1) as usize)
        } else {
            rest
        }
    }
}

/// Every pair of segments that are not neighbours and are too close, the
/// pairs of the segments before `i_end` in order.
pub open spec fn close_pairs(positions: Seq<Vec2>, limit: int, i_end: int) -> Seq<usize>
    decreases i_end,
{
    if i_end <= 0 {
        Seq::empty()
    } else {
        close_pairs(positions, limit, i_end - 1) + close_pairs_of(
            positions,
            limit,
            i_end - 1,
            positions.len() as int,
        )
    }
}

/// The speed of the last segment that is faster than `limit`, if there is
/// one.
pub open spec fn last_runaway_speed(velocities: Seq<Vec2>, limit: int) -> Option<int>
    decreases velocities.len(),
{
    if velocities.len() == 0 {
        None
    } else if faster_than(velocities.last(), limit) {
        Some(velocities.last().norm_spec())
    } else {
        last_runaway_speed(velocities.drop_last(), limit)
    }
}

/// The point halfway between `a` and `b`.
pub open spec fn midpoint_spec(a: Vec2, b: Vec2) -> Vec2 {
    Vec2 { x: div_toward_zero(a.x + b.x, 2) as i64, y: div_toward_zero(a.y + b.y, 2) as i64 }
}

/// Where a segment at `current` is moved, given where its two neighbours
/// were.
pub open spec fn straightened_spec(current: Vec2, previous: Vec2, next: Vec2) -> Vec2 {
    current.plus_spec(
        midpoint_spec(previous, next).minus_spec(current).scaled_spec(CORRECTION_GAIN as int),
    )
}

/// The chain after the segment at `index` has been straightened once. The
/// head and the tail have no two neighbours and stay where they are.
pub open spec fn straighten_one(now: Seq<Vec2>, snapshot: Seq<Vec2>, index: int) -> Seq<Vec2> {
    if 0 < index && index + 1 < snapshot.len() && now.len() == snapshot.len() {
        now.update(index, straightened_spec(now[index], snapshot[index - 1], snapshot[index + 1]))
    } else {
        now
    }
}

/// The chain after each of the segments `problems` has been straightened,
/// in order. A segment that is named twice is moved twice, each time
/// toward the midpoint of where its neighbours were at first.
pub open spec fn straighten_all(snapshot: Seq<Vec2>, problems: Seq<usize>) -> Seq<Vec2>
    decreases problems.len(),
{
    if problems.len() == 0 {
        snapshot
    } else {
        straighten_one(
            straighten_all(snapshot, problems.drop_last()),
            snapshot,
            problems.last() as int,
        )
    }
}

/// The stuck timer after a tick in which the head went from `last` to
/// `current`.
pub open spec fn stuck_timer_spec(timer: int, last: Vec2, current: Vec2) -> int {
    if closer_than(current, last, STUCK_DISTANCE as int) {
        sat_unsigned(timer + STUCK_TICK)
    } else {
        0
    }
}

/// Whether `a` and `b` are less than `limit` apart.
pub fn is_closer_than(a: Vec2, b: Vec2, limit: i64) -> (r: bool)
    ensures
        r == closer_than(a, b, limit as int),
{
    if limit <= 0 {
        return false;
    }
    let reach = wide_mul(limit, limit);
    assert(limit * limit >= 0) by (nonlinear_arith);
    a.minus(b).norm_squared() < reach as u128
}

/// Whether a body that moves with `velocity` is faster than `limit`.
pub fn is_faster_than(velocity: Vec2, limit: i64) -> (r: bool)
    ensures
        r == faster_than(velocity, limit as int),
{
    if limit < 0 {
        return true;
    }
    let reach = wide_mul(limit, limit);
    assert(limit * limit >= 0) by (nonlinear_arith);
    velocity.norm_squared() > reach as u128
}

/// Finds every pair of segments that are not neighbours and are less than
/// `limit` apart. The result names both segments of each pair, so its
/// length is twice the number of pairs.
pub fn find_close_pairs(positions: &Vec<Vec2>, limit: i64) -> (pairs: Vec<usize>)
    ensures
        pairs@ == close_pairs(positions@, limit as int, positions@.len() as int),
{
    let count = positions.len();
    let mut pairs: Vec<usize> = Vec::new();
    let mut i: usize = 0;
    while i < count
        invariant
            i <= count,
            count == positions@.len(),
            pairs@ == close_pairs(positions@, limit as int, i as int),
        decreases count - i,
    {
        let ghost before = pairs@;
        let mut j: usize = if count - i < 2 {
            count
        } else {
            i + 2
        };
        assert(close_pairs_of(positions@, limit as int, i as int, j as int) == Seq::<
            usize,
        >::empty());
        assert(before + Seq::<usize>::empty() == before);
        while j < count
            invariant
                i < count,
                i + 2 <= j <= count || j == count,
                count == positions@.len(),
                pairs@ == before + close_pairs_of(positions@, limit as int, i as int, j as int),
            decreases count - j,
        {
            let ghost sofar = close_pairs_of(positions@, limit as int, i as int, j as int);
            if is_closer_than(positions[i], positions[j], limit) {
                pairs.push(i);
                pairs.push(j);
                assert(pairs@ == before + sofar.push(i).push(j));
            }
            j += 1;
        }
        i += 1;
    }
    pairs
}

/// The speed of the last segment that is faster than `limit`, if there is
/// one.
pub fn find_runaway_speed(velocities: &Vec<Vec2>, limit: i64) -> (speed: Option<u64>)
    ensures
        speed matches Some(s) ==> last_runaway_speed(velocities@, limit as int) == Some(s as int),
        speed is None ==> last_runaway_speed(velocities@, limit as int) is None,
{
    let mut speed: Option<u64> = None;
    let mut i: usize = 0;
    while i < velocities.len()
        invariant
            i <= velocities.len(),
            speed matches Some(s) ==> last_runaway_speed(
                velocities@.take(i as int),
                limit as int,
            ) == Some(s as int),
            speed is None ==> last_runaway_speed(velocities@.take(i as int), limit as int)
                is None,
        decreases velocities.len() - i,
    {
        proof {
            assert(velocities@.take(i as int + 1).drop_last() == velocities@.take(i as int));
            assert(velocities@.take(i as int + 1).last() == velocities@[i as int]);
        }
        if is_faster_than(velocities[i], limit) {
            speed = Some(velocities[i].norm());
        }
        i += 1;
    }
    assert(velocities@.take(velocities.len() as int) == velocities@);
    speed
}

/// The point halfway between `a` and `b`.
pub fn midpoint(a: Vec2, b: Vec2) -> (r: Vec2)
    ensures
        r == midpoint_spec(a, b),
{
    Vec2 {
        x: ((a.x as i128 + b.x as i128) / 2) as i64,
        y: ((a.y as i128 + b.y as i128) / 2) as i64,
    }
}

/// Straightens the segments `problems` of a chain whose segments are at
/// `positions`: each is moved a tenth of the way toward the midpoint of its
/// two neighbours and is to be brought to rest. The head and the tail are
/// only brought to rest. A place beyond the chain's end is passed over.
pub fn straighten(positions: &Vec<Vec2>, problems: &Vec<usize>) -> (chain: CorrectedChain)
    ensures
        chain.positions@ == straighten_all(positions@, problems@),
        chain.stopped@.len() == positions@.len(),
        forall|k: int|
            0 <= k < positions@.len() ==> (#[trigger] chain.stopped@[k] <==> problems@.contains(
                k as usize,
            )),
{
    let count = positions.len();
    let mut now: Vec<Vec2> = Vec::new();
    let mut stopped: Vec<bool> = Vec::new();
    let mut k: usize = 0;
    while k < count
        invariant
            k <= count,
            count == positions@.len(),
            now@ == positions@.take(k as int),
            stopped@.len() == k,
            forall|m: int| 0 <= m < k ==> !(#[trigger] stopped@[m]),
        decreases count - k,
    {
        now.push(positions[k]);
        stopped.push(false);
        assert(positions@.take(k as int).push(positions@[k as int]) == positions@.take(
            k as int + 1,
        ));
        k += 1;
    }
    assert(positions@.take(count as int) == positions@);
    let mut p: usize = 0;
    while p < problems.len()
        invariant
            p <= problems.len(),
            count == positions@.len(),
            now@.len() == count,
            stopped@.len() == count,
            now@ == straighten_all(positions@, problems@.take(p as int)),
            forall|m: int|
                0 <= m < count ==> (#[trigger] stopped@[m] <==> problems@.take(
                    p as int,
                ).contains(m as usize)),
        decreases problems.len() - p,
    {
        let index = problems[p];
        proof {
            assert(problems@.take(p as int + 1).drop_last() == problems@.take(p as int));
            assert(problems@.take(p as int + 1).last() == index);
            lemma_straighten_keeps_length(positions@, problems@.take(p as int));
        }
        let ghost seen = problems@.take(p as int);
        let ghost seen_next = problems@.take(p as int + 1);
        if index < count {
            stopped.set(index, true);
            if index > 0 && index < count - 1 {
                let moved = now[index].plus(
                    midpoint(positions[index - 1], positions[index + 1]).minus(now[index]).scaled(
                        CORRECTION_GAIN,
                    ),
                );
                now.set(index, moved);
            }
        }
        proof {
            assert(seen_next == seen.push(index));
            assert forall|m: int| 0 <= m < count implies (#[trigger] stopped@[m]
                <==> seen_next.contains(m as usize)) by {
                if seen.contains(m as usize) {
                    let w = choose|w: int| 0 <= w < seen.len() && seen[w] == m as usize;
                    assert(seen_next[w] == m as usize);
                }
                if m as usize == index {
                    assert(seen_next[p as int] == index);
                }
                if seen_next.contains(m as usize) && m as usize != index {
                    let w = choose|w: int| 0 <= w < seen_next.len() && seen_next[w] == m as usize;
                    assert(w < p);
                    assert(seen[w] == m as usize);
                }
            }
        }
        p += 1;
    }
    assert(problems@.take(problems.len() as int) == problems@);
    CorrectedChain { positions: now, stopped }
}

/// Straightening moves segments; it neither adds nor removes any.
pub proof fn lemma_straighten_keeps_length(snapshot: Seq<Vec2>, problems: Seq<usize>)
    ensures
        straighten_all(snapshot, problems).len() == snapshot.len(),
    decreases problems.len(),
{
    if problems.len() > 0 {
        lemma_straighten_keeps_length(snapshot, problems.drop_last());
    }
}

/// The stuck timer after a tick in which the head went from `last` to
/// `current`: it grows by one tick's worth while the head does not move and
/// starts again from zero once it does.
pub fn stuck_timer_after(timer: u64, last: Vec2, current: Vec2) -> (r: u64)
    ensures
        r == stuck_timer_spec(timer as int, last, current),
{
    if is_closer_than(current, last, STUCK_DISTANCE) {
        unsigned_add(timer, STUCK_TICK)
    } else {
        0
    }
}

} // verus!
