//! Spatial sensing: which other creatures a creature perceives.
//!
//! The physics world answers a shape query with the colliders that a circle
//! around the creature touches; each collider carries the identifier of the
//! creature that owns it. This module turns those identifiers into records
//! of the tick's snapshot, leaving out the creature itself, static geometry,
//! identifiers that the snapshot does not know, and creatures whose recorded
//! position lies outside the circle. A creature with several colliders in
//! the circle is perceived once.

use crate::creature::{CreatureInfo, STATIC_GEOMETRY_ID};
use crate::fixed::wide_mul;
use crate::vec2::Vec2;
use vstd::prelude::*;

verus! {

/// Whether `position` lies no farther than `radius` from `center`.
pub open spec fn within_reach_spec(center: Vec2, position: Vec2, radius: int) -> bool {
    radius >= 0 && position.minus_spec(center).norm_squared_spec() <= radius * radius
}

/// The first record in `all` with identifier `id`.
pub open spec fn lookup_spec(all: Seq<CreatureInfo>, id: u128) -> Option<CreatureInfo>
    decreases all.len(),
{
    if all.len() == 0 {
        None
    } else if all[0].id == id {
        Some(all[0])
    } else {
        lookup_spec(all.skip(1), id)
    }
}

/// The record, if any, that the creature `own_id` at `center` perceives
/// through a collider owned by `hit`.
pub open spec fn perceived(
    own_id: u128,
    hit: u128,
    all: Seq<CreatureInfo>,
    center: Vec2,
    radius: int,
) -> Option<CreatureInfo> {
    if hit == STATIC_GEOMETRY_ID || hit == own_id {
        None
    } else {
        match lookup_spec(all, hit) {
            Some(info) => if within_reach_spec(center, info.position, radius) {
                Some(info)
            } else {
                None
            },
            None => None,
        }
    }
}

/// Whether one of `records` carries the identifier `id`.
pub open spec fn has_id(records: Seq<CreatureInfo>, id: u128) -> bool {
    exists|k: int| 0 <= k < records.len() && #[trigger] records[k].id == id
}

/// Whether no two of `records` carry the same identifier.
pub open spec fn distinct_ids(records: Seq<CreatureInfo>) -> bool {
    forall|j: int, k: int|
        0 <= j < k < records.len() ==> #[trigger] records[j].id != #[trigger] records[k].id
}

/// Whether one of the colliders `hits` lets the creature `own_id` perceive
/// the record `info`.
pub open spec fn is_perceived(
    own_id: u128,
    hits: Seq<u128>,
    all: Seq<CreatureInfo>,
    center: Vec2,
    radius: int,
    info: CreatureInfo,
) -> bool {
    exists|k: int|
        0 <= k < hits.len() && #[trigger] perceived(own_id, hits[k], all, center, radius) == Some(
            info,
        )
}

/// The records perceived through the colliders `hits`: each creature once,
/// in the order in which the colliders first name it.
pub open spec fn sensed(
    own_id: u128,
    hits: Seq<u128>,
    all: Seq<CreatureInfo>,
    center: Vec2,
    radius: int,
) -> Seq<CreatureInfo>
    decreases hits.len(),
{
    if hits.len() == 0 {
        Seq::empty()
    } else {
        let rest = sensed(own_id, hits.drop_last(), all, center, radius);
        match perceived(own_id, hits.last(), all, center, radius) {
            Some(info) => if has_id(rest, info.id) {
                rest
            } else {
                rest.push(info)
            },
            None => rest,
        }
    }
}

/// Whether `position` lies no farther than `radius` from `center`.
pub fn within_reach(center: Vec2, position: Vec2, radius: i64) -> (r: bool)
    ensures
        r == within_reach_spec(center, position, radius as int),
{
    if radius < 0 {
        return false;
    }
    let reach = wide_mul(radius, radius);
    assert(radius * radius >= 0) by (nonlinear_arith);
    position.minus(center).norm_squared() <= reach as u128
}

/// Finds the first record with identifier `id`.
pub fn lookup(all: &Vec<CreatureInfo>, id: u128) -> (r: Option<CreatureInfo>)
    ensures
        r == lookup_spec(all@, id),
{
    let mut i: usize = 0;
    assert(all@.skip(0) == all@);
    while i < all.len()
        invariant
            i <= all.len(),
            lookup_spec(all@, id) == lookup_spec(all@.skip(i as int), id),
        decreases all.len() - i,
    {
        proof {
            assert(all@.skip(i as int).skip(1) == all@.skip(i as int + 1));
            assert(all@.skip(i as int)[0] == all@[i as int]);
        }
        if all[i].id == id {
            return Some(all[i]);
        }
        i += 1;
    }
    None
}

/// Whether one of `records` carries the identifier `id`.
pub fn knows(records: &Vec<CreatureInfo>, id: u128) -> (r: bool)
    ensures
        r == has_id(records@, id),
{
    let mut i: usize = 0;
    while i < records.len()
        invariant
            i <= records.len(),
            forall|k: int| 0 <= k < i ==> records@[k].id != id,
        decreases records.len() - i,
    {
        if records[i].id == id {
            return true;
        }
        i += 1;
    }
    false
}

/// Returns the records of the creatures that the creature `own_id`, at
/// `center`, perceives within `radius`, given the owners `hits` of the
/// colliders that the physics world found there. However many of its
/// colliders were found, a creature is returned once.
pub fn sense_nearby(
    own_id: u128,
    hits: &Vec<u128>,
    all_creatures_info: &Vec<CreatureInfo>,
    center: Vec2,
    radius: i64,
) -> (nearby: Vec<CreatureInfo>)
    ensures
        nearby@ == sensed(own_id, hits@, all_creatures_info@, center, radius as int),
        distinct_ids(nearby@),
        forall|info: CreatureInfo|
            nearby@.contains(info) <==> is_perceived(
                own_id,
                hits@,
                all_creatures_info@,
                center,
                radius as int,
                info,
            ),
{
    let mut nearby: Vec<CreatureInfo> = Vec::new();
    let mut i: usize = 0;
    while i < hits.len()
        invariant
            i <= hits.len(),
            nearby@ == sensed(
                own_id,
                hits@.take(i as int),
                all_creatures_info@,
                center,
                radius as int,
            ),
        decreases hits.len() - i,
    {
        let hit = hits[i];
        proof {
            assert(hits@.take(i as int + 1).drop_last() == hits@.take(i as int));
            assert(hits@.take(i as int + 1).last() == hit);
        }
        if hit != STATIC_GEOMETRY_ID && hit != own_id {
            match lookup(all_creatures_info, hit) {
                Some(info) => {
                    if within_reach(center, info.position, radius) && !knows(&nearby, info.id) {
                        nearby.push(info);
                    }
                },
                None => {},
            }
        }
        i += 1;
    }
    proof {
        assert(hits@.take(hits.len() as int) == hits@);
        lemma_sensed_once_each(own_id, hits@, all_creatures_info@, center, radius as int);
        assert forall|info: CreatureInfo|
            nearby@.contains(info) <==> is_perceived(
                own_id,
                hits@,
                all_creatures_info@,
                center,
                radius as int,
                info,
            ) by {
            lemma_sensed_exactly_the_perceived(
                own_id,
                hits@,
                all_creatures_info@,
                center,
                radius as int,
                info,
            );
        }
    }
    nearby
}

/// No two of the records perceived carry the same identifier: a creature
/// with several colliders in reach is perceived once.
pub proof fn lemma_sensed_once_each(
    own_id: u128,
    hits: Seq<u128>,
    all: Seq<CreatureInfo>,
    center: Vec2,
    radius: int,
)
    ensures
        distinct_ids(sensed(own_id, hits, all, center, radius)),
    decreases hits.len(),
{
    if hits.len() > 0 {
        lemma_sensed_once_each(own_id, hits.drop_last(), all, center, radius);
    }
}

/// A record is among those perceived exactly when one of the colliders
/// names its creature and the record passes the filter.
pub proof fn lemma_sensed_exactly_the_perceived(
    own_id: u128,
    hits: Seq<u128>,
    all: Seq<CreatureInfo>,
    center: Vec2,
    radius: int,
    info: CreatureInfo,
)
    ensures
        sensed(own_id, hits, all, center, radius).contains(info) <==> is_perceived(
            own_id,
            hits,
            all,
            center,
            radius,
            info,
        ),
    decreases hits.len(),
{
    let found = sensed(own_id, hits, all, center, radius);
    if hits.len() == 0 {
        assert(!found.contains(info));
    } else {
        let earlier = hits.drop_last();
        let rest = sensed(own_id, earlier, all, center, radius);
        let last = perceived(own_id, hits.last(), all, center, radius);
        lemma_sensed_exactly_the_perceived(own_id, earlier, all, center, radius, info);
        if found.contains(info) {
            let k = choose|k: int| 0 <= k < found.len() && found[k] == info;
            if k < rest.len() {
                assert(rest[k] == info);
                let m = choose|m: int|
                    0 <= m < earlier.len() && #[trigger] perceived(
                        own_id,
                        earlier[m],
                        all,
                        center,
                        radius,
                    ) == Some(info);
                assert(hits[m] == earlier[m]);
            } else {
                assert(last == Some(info));
                assert(hits[hits.len() - 1] == hits.last());
            }
        }
        if is_perceived(own_id, hits, all, center, radius, info) {
            let m = choose|m: int|
                0 <= m < hits.len() && #[trigger] perceived(own_id, hits[m], all, center, radius)
                    == Some(info);
            if m < earlier.len() {
                assert(earlier[m] == hits[m]);
                assert(rest.contains(info));
                let k = choose|k: int| 0 <= k < rest.len() && rest[k] == info;
                assert(found[k] == info);
            } else if has_id(rest, info.id) {
                let j = choose|j: int| 0 <= j < rest.len() && #[trigger] rest[j].id == info.id;
                let twin = rest[j];
                assert(rest.contains(twin));
                lemma_sensed_exactly_the_perceived(own_id, earlier, all, center, radius, twin);
                let n = choose|n: int|
                    0 <= n < earlier.len() && #[trigger] perceived(
                        own_id,
                        earlier[n],
                        all,
                        center,
                        radius,
                    ) == Some(twin);
                lemma_lookup_has_id(all, earlier[n]);
                lemma_lookup_has_id(all, hits.last());
                assert(twin == info);
                assert(found[j] == info);
            } else {
                assert(found[found.len() - 1] == info);
            }
        }
    }
}

/// No creature perceives itself, and none perceives static geometry.
pub proof fn lemma_sensed_leaves_out_self_and_statics(
    own_id: u128,
    hits: Seq<u128>,
    all: Seq<CreatureInfo>,
    center: Vec2,
    radius: int,
)
    ensures
        forall|k: int|
            0 <= k < sensed(own_id, hits, all, center, radius).len() ==> {
                let info = #[trigger] sensed(own_id, hits, all, center, radius)[k];
                &&& info.id != own_id
                &&& info.id != STATIC_GEOMETRY_ID
                &&& within_reach_spec(center, info.position, radius)
            },
    decreases hits.len(),
{
    let found = sensed(own_id, hits, all, center, radius);
    if hits.len() > 0 {
        let rest = sensed(own_id, hits.drop_last(), all, center, radius);
        lemma_sensed_leaves_out_self_and_statics(own_id, hits.drop_last(), all, center, radius);
        lemma_lookup_has_id(all, hits.last());
        assert forall|k: int| 0 <= k < found.len() implies {
            let info = #[trigger] found[k];
            &&& info.id != own_id
            &&& info.id != STATIC_GEOMETRY_ID
            &&& within_reach_spec(center, info.position, radius)
        } by {
            if k < rest.len() {
                assert(found[k] == rest[k]);
            }
        }
    }
}

/// A record found by an identifier carries that identifier and stands in
/// the list.
pub proof fn lemma_lookup_has_id(all: Seq<CreatureInfo>, id: u128)
    ensures
        lookup_spec(all, id) matches Some(info) ==> info.id == id && all.contains(info),
        lookup_spec(all, id) is None ==> forall|k: int| 0 <= k < all.len() ==> all[k].id != id,
    decreases all.len(),
{
    if all.len() > 0 {
        if all[0].id != id {
            lemma_lookup_has_id(all.skip(1), id);
            if lookup_spec(all, id) is Some {
                let info = lookup_spec(all, id)->0;
                let k = choose|k: int| 0 <= k < all.skip(1).len() && all.skip(1)[k] == info;
                assert(all[k + 1] == info);
            } else {
                assert forall|k: int| 0 <= k < all.len() implies all[k].id != id by {
                    if k > 0 {
                        assert(all.skip(1)[k - 1] == all[k]);
                    }
                }
            }
        } else {
            assert(all[0] == all[0]);
        }
    }
}

} // verus!
