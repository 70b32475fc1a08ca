//! Why creatures do not chatter between their states.
//!
//! A creature starts to rest below one energy threshold and stops resting
//! only above another, higher one. While its energy moves in the band
//! between the two, however often and in whatever way, it changes between
//! rest and activity at most once. In the same way a plankton leaves off
//! wandering below one threshold and takes it up again only above another.

use crate::creature::CreatureState;
use crate::creature_attributes::CreatureAttributes;
use crate::plankton;
use crate::snake;
use vstd::prelude::*;

verus! {

/// The state before tick `k` of a run that starts in `initial` and goes
/// through `states`.
pub open spec fn state_before(initial: CreatureState, states: Seq<CreatureState>, k: int) -> CreatureState {
    if k <= 0 {
        initial
    } else {
        states[k - 1]
    }
}

/// How often a creature that starts in `initial` and goes through `states`
/// changes between rest and activity.
pub open spec fn rest_changes(initial: CreatureState, states: Seq<CreatureState>) -> nat
    decreases states.len(),
{
    if states.len() == 0 {
        0
    } else {
        let earlier = rest_changes(initial, states.drop_last());
        if state_before(initial, states, states.len() - 1).is_resting_spec()
            != states.last().is_resting_spec() {
            earlier + 1
        } else {
            earlier
        }
    }
}

/// The states that a plankton goes through, one per tick, when it starts in
/// `initial` and has at each tick the attributes and the height given.
pub open spec fn plankton_run(
    initial: CreatureState,
    attributes: Seq<CreatureAttributes>,
    heights: Seq<int>,
    world_height: int,
) -> Seq<CreatureState>
    decreases attributes.len(),
{
    if attributes.len() == 0 {
        Seq::empty()
    } else {
        let earlier = plankton_run(
            initial,
            attributes.drop_last(),
            heights,
            world_height,
        );
        earlier.push(
            plankton::next_state_spec(
                state_before(initial, earlier, earlier.len() as int),
                attributes.last(),
                heights[attributes.len() - 1],
                world_height,
            ),
        )
    }
}

/// The states that a snake goes through, one per tick, when it starts in
/// `initial` and has at each tick the attributes given.
pub open spec fn snake_run(initial: CreatureState, attributes: Seq<CreatureAttributes>) -> Seq<
    CreatureState,
>
    decreases attributes.len(),
{
    if attributes.len() == 0 {
        Seq::empty()
    } else {
        let earlier = snake_run(initial, attributes.drop_last());
        earlier.push(
            snake::next_state_spec(
                state_before(initial, earlier, earlier.len() as int),
                attributes.last(),
            ),
        )
    }
}

/// Whether the run never goes from activity to rest.
pub open spec fn never_falls_asleep(initial: CreatureState, states: Seq<CreatureState>) -> bool {
    forall|k: int|
        0 <= k < states.len() && !state_before(initial, states, k).is_resting_spec() ==> !(
        #[trigger] states[k]).is_resting_spec()
}

/// Whether the run never goes from rest to activity.
pub open spec fn never_wakes(initial: CreatureState, states: Seq<CreatureState>) -> bool {
    forall|k: int|
        0 <= k < states.len() && state_before(initial, states, k).is_resting_spec() ==> (
        #[trigger] states[k]).is_resting_spec()
}

/// A run that never goes from activity to rest changes at most once, and
/// then ends in activity.
pub proof fn lemma_no_sleep_one_change(initial: CreatureState, states: Seq<CreatureState>)
    requires
        never_falls_asleep(initial, states),
    ensures
        rest_changes(initial, states) <= 1,
        rest_changes(initial, states) == 1 ==> !state_before(
            initial,
            states,
            states.len() as int,
        ).is_resting_spec(),
        rest_changes(initial, states) == 0 ==> state_before(
            initial,
            states,
            states.len() as int,
        ).is_resting_spec() == initial.is_resting_spec(),
    decreases states.len(),
{
    if states.len() > 0 {
        let earlier = states.drop_last();
        assert forall|k: int|
            0 <= k < earlier.len() && !state_before(
                initial,
                earlier,
                k,
            ).is_resting_spec() implies !(#[trigger] earlier[k]).is_resting_spec() by {
            assert(state_before(initial, earlier, k) == state_before(initial, states, k));
            assert(earlier[k] == states[k]);
        }
        lemma_no_sleep_one_change(initial, earlier);
        let k = states.len() - 1;
        assert(state_before(initial, states, k) == state_before(
            initial,
            earlier,
            earlier.len() as int,
        ));
        assert(states[k] == states.last());
    }
}

/// A run that never goes from rest to activity changes at most once, and
/// then ends at rest.
pub proof fn lemma_no_waking_one_change(initial: CreatureState, states: Seq<CreatureState>)
    requires
        never_wakes(initial, states),
    ensures
        rest_changes(initial, states) <= 1,
        rest_changes(initial, states) == 1 ==> state_before(
            initial,
            states,
            states.len() as int,
        ).is_resting_spec(),
        rest_changes(initial, states) == 0 ==> state_before(
            initial,
            states,
            states.len() as int,
        ).is_resting_spec() == initial.is_resting_spec(),
    decreases states.len(),
{
    if states.len() > 0 {
        let earlier = states.drop_last();
        assert forall|k: int|
            0 <= k < earlier.len() && state_before(
                initial,
                earlier,
                k,
            ).is_resting_spec() implies (#[trigger] earlier[k]).is_resting_spec() by {
            assert(state_before(initial, earlier, k) == state_before(initial, states, k));
            assert(earlier[k] == states[k]);
        }
        lemma_no_waking_one_change(initial, earlier);
        let k = states.len() - 1;
        assert(state_before(initial, states, k) == state_before(
            initial,
            earlier,
            earlier.len() as int,
        ));
        assert(states[k] == states.last());
    }
}

/// Whether a plankton with these attributes has energy enough to stop
/// resting.
pub open spec fn plankton_may_wake(attributes: CreatureAttributes) -> bool {
    !plankton::below_percent(
        attributes.energy as int,
        attributes.max_energy as int,
        plankton::COMFORTABLE_ENERGY_PERCENT as int,
    )
}

/// Whether a snake with these attributes has energy enough to stop resting.
pub open spec fn snake_may_wake(attributes: CreatureAttributes) -> bool {
    snake::energy_above_percent(attributes, snake::HUNGRY_WAKE_PERCENT as int)
}

/// Each state of a plankton's run follows from the one before it.
pub proof fn lemma_plankton_run_steps(
    initial: CreatureState,
    attributes: Seq<CreatureAttributes>,
    heights: Seq<int>,
    world_height: int,
)
    ensures
        plankton_run(initial, attributes, heights, world_height).len() == attributes.len(),
        forall|k: int|
            0 <= k < attributes.len() ==> (#[trigger] plankton_run(
                initial,
                attributes,
                heights,
                world_height,
            )[k]) == plankton::next_state_spec(
                state_before(
                    initial,
                    plankton_run(initial, attributes, heights, world_height),
                    k,
                ),
                attributes[k],
                heights[k],
                world_height,
            ),
    decreases attributes.len(),
{
    if attributes.len() > 0 {
        let shorter = attributes.drop_last();
        lemma_plankton_run_steps(initial, shorter, heights, world_height);
        let run = plankton_run(initial, attributes, heights, world_height);
        let earlier = plankton_run(initial, shorter, heights, world_height);
        assert forall|k: int| 0 <= k < attributes.len() implies (#[trigger] run[k])
            == plankton::next_state_spec(
            state_before(initial, run, k),
            attributes[k],
            heights[k],
            world_height,
        ) by {
            if k < shorter.len() {
                assert(run[k] == earlier[k]);
                assert(shorter[k] == attributes[k]);
                assert(state_before(initial, run, k) == state_before(initial, earlier, k));
            }
        }
    }
}

/// Each state of a snake's run follows from the one before it.
pub proof fn lemma_snake_run_steps(initial: CreatureState, attributes: Seq<CreatureAttributes>)
    ensures
        snake_run(initial, attributes).len() == attributes.len(),
        forall|k: int|
            0 <= k < attributes.len() ==> (#[trigger] snake_run(initial, attributes)[k])
                == snake::next_state_spec(
                state_before(initial, snake_run(initial, attributes), k),
                attributes[k],
            ),
    decreases attributes.len(),
{
    if attributes.len() > 0 {
        let shorter = attributes.drop_last();
        lemma_snake_run_steps(initial, shorter);
        let run = snake_run(initial, attributes);
        let earlier = snake_run(initial, shorter);
        assert forall|k: int| 0 <= k < attributes.len() implies (#[trigger] run[k])
            == snake::next_state_spec(state_before(initial, run, k), attributes[k]) by {
            if k < shorter.len() {
                assert(run[k] == earlier[k]);
                assert(shorter[k] == attributes[k]);
                assert(state_before(initial, run, k) == state_before(initial, earlier, k));
            }
        }
    }
}

/// A plankton whose energy, over a run of ticks, is not both tiring at one
/// tick and enough to wake at another changes between rest and activity at
/// most once in the run.
pub proof fn lemma_plankton_does_not_chatter(
    initial: CreatureState,
    attributes: Seq<CreatureAttributes>,
    heights: Seq<int>,
    world_height: int,
)
    requires
        heights.len() == attributes.len(),
        forall|i: int, j: int|
            0 <= i < attributes.len() && 0 <= j < attributes.len() ==> !((
            #[trigger] attributes[i]).is_tired_spec() && plankton_may_wake(
                #[trigger] attributes[j],
            )),
    ensures
        rest_changes(initial, plankton_run(initial, attributes, heights, world_height)) <= 1,
{
    let run = plankton_run(initial, attributes, heights, world_height);
    lemma_plankton_run_steps(initial, attributes, heights, world_height);
    if exists|i: int| 0 <= i < attributes.len() && (#[trigger] attributes[i]).is_tired_spec() {
        let i = choose|i: int|
            0 <= i < attributes.len() && (#[trigger] attributes[i]).is_tired_spec();
        assert forall|k: int|
            0 <= k < run.len() && state_before(initial, run, k).is_resting_spec() implies (
        #[trigger] run[k]).is_resting_spec() by {
            assert(!(attributes[i].is_tired_spec() && plankton_may_wake(attributes[k])));
        }
        lemma_no_waking_one_change(initial, run);
    } else {
        assert forall|k: int|
            0 <= k < run.len() && !state_before(initial, run, k).is_resting_spec() implies !(
        #[trigger] run[k]).is_resting_spec() by {
            assert(!attributes[k].is_tired_spec());
        }
        lemma_no_sleep_one_change(initial, run);
    }
}

/// A snake whose energy, over a run of ticks, is not both tiring at one
/// tick and enough to wake at another changes between rest and activity at
/// most once in the run.
pub proof fn lemma_snake_does_not_chatter(
    initial: CreatureState,
    attributes: Seq<CreatureAttributes>,
)
    requires
        forall|i: int, j: int|
            0 <= i < attributes.len() && 0 <= j < attributes.len() ==> !((
            #[trigger] attributes[i]).is_tired_spec() && snake_may_wake(#[trigger] attributes[j])),
    ensures
        rest_changes(initial, snake_run(initial, attributes)) <= 1,
{
    let run = snake_run(initial, attributes);
    lemma_snake_run_steps(initial, attributes);
    if exists|i: int| 0 <= i < attributes.len() && (#[trigger] attributes[i]).is_tired_spec() {
        let i = choose|i: int|
            0 <= i < attributes.len() && (#[trigger] attributes[i]).is_tired_spec();
        assert forall|k: int|
            0 <= k < run.len() && state_before(initial, run, k).is_resting_spec() implies (
        #[trigger] run[k]).is_resting_spec() by {
            assert(!(attributes[i].is_tired_spec() && snake_may_wake(attributes[k])));
            assert(snake::energy_above_percent(attributes[k], snake::SATED_WAKE_PERCENT as int)
                ==> snake::energy_above_percent(
                attributes[k],
                snake::HUNGRY_WAKE_PERCENT as int,
            ));
        }
        lemma_no_waking_one_change(initial, run);
    } else {
        assert forall|k: int|
            0 <= k < run.len() && !state_before(initial, run, k).is_resting_spec() implies !(
        #[trigger] run[k]).is_resting_spec() by {
            assert(!attributes[k].is_tired_spec());
        }
        lemma_no_sleep_one_change(initial, run);
    }
}

/// The energy at which a creature tires lies below the energy at which it
/// may wake: whatever the maximum, no energy is both.
pub proof fn lemma_thresholds_apart(attributes: CreatureAttributes)
    ensures
        !(attributes.is_tired_spec() && plankton_may_wake(attributes)),
        !(attributes.is_tired_spec() && snake_may_wake(attributes)),
{
}

/// How often a creature that starts in `initial` and goes through `states`
/// changes between wandering and anything else.
pub open spec fn wander_changes(initial: CreatureState, states: Seq<CreatureState>) -> nat
    decreases states.len(),
{
    if states.len() == 0 {
        0
    } else {
        let earlier = wander_changes(initial, states.drop_last());
        if (state_before(initial, states, states.len() - 1) == CreatureState::Wandering) != (
        states.last() == CreatureState::Wandering) {
            earlier + 1
        } else {
            earlier
        }
    }
}

/// Whether a plankton with these attributes has so little energy that it
/// stops wandering.
pub open spec fn plankton_must_stop(attributes: CreatureAttributes) -> bool {
    plankton::below_percent(
        attributes.energy as int,
        attributes.max_energy as int,
        plankton::CRITICAL_ENERGY_PERCENT as int,
    )
}

/// A run that never goes from wandering to anything else changes between
/// the two at most once, and then ends in wandering.
pub proof fn lemma_keeps_wandering_one_change(initial: CreatureState, states: Seq<CreatureState>)
    requires
        forall|k: int|
            0 <= k < states.len() && state_before(initial, states, k)
                == CreatureState::Wandering ==> (#[trigger] states[k])
                == CreatureState::Wandering,
    ensures
        wander_changes(initial, states) <= 1,
        wander_changes(initial, states) == 1 ==> state_before(
            initial,
            states,
            states.len() as int,
        ) == CreatureState::Wandering,
        wander_changes(initial, states) == 0 ==> (state_before(
            initial,
            states,
            states.len() as int,
        ) == CreatureState::Wandering) == (initial == CreatureState::Wandering),
    decreases states.len(),
{
    if states.len() > 0 {
        let earlier = states.drop_last();
        assert forall|k: int|
            0 <= k < earlier.len() && state_before(initial, earlier, k)
                == CreatureState::Wandering implies (#[trigger] earlier[k])
            == CreatureState::Wandering by {
            assert(state_before(initial, earlier, k) == state_before(initial, states, k));
            assert(earlier[k] == states[k]);
        }
        lemma_keeps_wandering_one_change(initial, earlier);
        let k = states.len() - 1;
        assert(state_before(initial, states, k) == state_before(
            initial,
            earlier,
            earlier.len() as int,
        ));
        assert(states[k] == states.last());
    }
}

/// A plankton whose energy, over a run of ticks, is not both critically low
/// at one tick and comfortable at another changes between wandering and
/// anything else at most once in the run. An energy that swings about a
/// single threshold makes the plankton change its mind once, not with every
/// swing. The run starts in one of the states that a plankton takes of its
/// own accord.
pub proof fn lemma_plankton_does_not_dither(
    initial: CreatureState,
    attributes: Seq<CreatureAttributes>,
    heights: Seq<int>,
    world_height: int,
)
    requires
        initial == CreatureState::Wandering || initial == CreatureState::Resting || initial
            == CreatureState::SeekingFood,
        heights.len() == attributes.len(),
        forall|i: int, j: int|
            0 <= i < attributes.len() && 0 <= j < attributes.len() ==> !(plankton_must_stop(
                #[trigger] attributes[i],
            ) && plankton_may_wake(#[trigger] attributes[j])),
    ensures
        wander_changes(initial, plankton_run(initial, attributes, heights, world_height)) <= 1,
{
    let run = plankton_run(initial, attributes, heights, world_height);
    lemma_plankton_run_steps(initial, attributes, heights, world_height);
    if exists|i: int| 0 <= i < attributes.len() && plankton_must_stop(#[trigger] attributes[i]) {
        // no energy in the run is comfortable: what has left off wandering
        // does not wander again
        let i = choose|i: int|
            0 <= i < attributes.len() && plankton_must_stop(#[trigger] attributes[i]);
        assert forall|k: int| 0 <= k < attributes.len() implies !plankton_may_wake(
            #[trigger] attributes[k],
        ) by {
            assert(!(plankton_must_stop(attributes[i]) && plankton_may_wake(attributes[k])));
        }
        lemma_never_comfortable(initial, attributes, heights, world_height);
    } else {
        // no energy in the run is critically low, let alone tiring: what
        // wanders goes on wandering
        assert forall|k: int|
            0 <= k < run.len() && state_before(initial, run, k)
                == CreatureState::Wandering implies (#[trigger] run[k])
            == CreatureState::Wandering by {
            assert(!plankton_must_stop(attributes[k]));
        }
        lemma_keeps_wandering_one_change(initial, run);
    }
}

/// A plankton whose energy is never comfortable during a run does not take
/// up wandering: it changes between wandering and anything else at most
/// once, and then away from wandering.
proof fn lemma_never_comfortable(
    initial: CreatureState,
    attributes: Seq<CreatureAttributes>,
    heights: Seq<int>,
    world_height: int,
)
    requires
        initial == CreatureState::Wandering || initial == CreatureState::Resting || initial
            == CreatureState::SeekingFood,
        forall|k: int| 0 <= k < attributes.len() ==> !plankton_may_wake(#[trigger] attributes[k]),
    ensures
        ({
            let run = plankton_run(initial, attributes, heights, world_height);
            let last = state_before(initial, run, run.len() as int);
            &&& wander_changes(initial, run) <= 1
            &&& last == CreatureState::Wandering || last == CreatureState::Resting || last
                == CreatureState::SeekingFood
            &&& wander_changes(initial, run) == 1 ==> last != CreatureState::Wandering
            &&& wander_changes(initial, run) == 0 ==> (last == CreatureState::Wandering) == (
            initial == CreatureState::Wandering)
        }),
    decreases attributes.len(),
{
    let run = plankton_run(initial, attributes, heights, world_height);
    if attributes.len() > 0 {
        let shorter = attributes.drop_last();
        let earlier = plankton_run(initial, shorter, heights, world_height);
        assert forall|k: int| 0 <= k < shorter.len() implies !plankton_may_wake(
            #[trigger] shorter[k],
        ) by {
            assert(shorter[k] == attributes[k]);
        }
        lemma_never_comfortable(initial, shorter, heights, world_height);
        let before = state_before(initial, earlier, earlier.len() as int);
        let next = plankton::next_state_spec(
            before,
            attributes.last(),
            heights[attributes.len() - 1],
            world_height,
        );
        assert(run == earlier.push(next));
        assert(run.drop_last() == earlier);
        assert(run.last() == next);
        assert(state_before(initial, run, run.len() - 1) == before);
        assert(state_before(initial, run, run.len() as int) == next);
        assert(!plankton_may_wake(attributes[attributes.len() - 1]));
    }
}

/// A snake whose energy, over a run of ticks, is not both critically low
/// at one tick and enough to wake at another changes between wandering and
/// anything else at most once in the run. The run starts in one of the
/// states that a snake takes of its own accord.
pub proof fn lemma_snake_does_not_dither(
    initial: CreatureState,
    attributes: Seq<CreatureAttributes>,
)
    requires
        initial == CreatureState::Wandering || initial == CreatureState::Resting || initial
            == CreatureState::SeekingFood,
        forall|i: int, j: int|
            0 <= i < attributes.len() && 0 <= j < attributes.len() ==> !(snake::is_critical_spec(
                #[trigger] attributes[i],
            ) && snake_may_wake(#[trigger] attributes[j])),
    ensures
        wander_changes(initial, snake_run(initial, attributes)) <= 1,
{
    let run = snake_run(initial, attributes);
    lemma_snake_run_steps(initial, attributes);
    if exists|i: int|
        0 <= i < attributes.len() && snake::is_critical_spec(#[trigger] attributes[i]) {
        let i = choose|i: int|
            0 <= i < attributes.len() && snake::is_critical_spec(#[trigger] attributes[i]);
        assert forall|k: int| 0 <= k < attributes.len() implies !snake_may_wake(
            #[trigger] attributes[k],
        ) by {
            assert(!(snake::is_critical_spec(attributes[i]) && snake_may_wake(attributes[k])));
        }
        lemma_snake_never_awake(initial, attributes);
    } else {
        assert forall|k: int|
            0 <= k < run.len() && state_before(initial, run, k)
                == CreatureState::Wandering implies (#[trigger] run[k])
            == CreatureState::Wandering by {
            assert(!snake::is_critical_spec(attributes[k]));
        }
        lemma_keeps_wandering_one_change(initial, run);
    }
}

/// A snake whose energy is never enough to wake during a run does not take
/// up wandering: it changes between wandering and anything else at most
/// once, and then away from wandering.
proof fn lemma_snake_never_awake(initial: CreatureState, attributes: Seq<CreatureAttributes>)
    requires
        initial == CreatureState::Wandering || initial == CreatureState::Resting || initial
            == CreatureState::SeekingFood,
        forall|k: int| 0 <= k < attributes.len() ==> !snake_may_wake(#[trigger] attributes[k]),
    ensures
        ({
            let run = snake_run(initial, attributes);
            let last = state_before(initial, run, run.len() as int);
            &&& wander_changes(initial, run) <= 1
            &&& last == CreatureState::Wandering || last == CreatureState::Resting || last
                == CreatureState::SeekingFood
            &&& wander_changes(initial, run) == 1 ==> last != CreatureState::Wandering
            &&& wander_changes(initial, run) == 0 ==> (last == CreatureState::Wandering) == (
            initial == CreatureState::Wandering)
        }),
    decreases attributes.len(),
{
    let run = snake_run(initial, attributes);
    if attributes.len() > 0 {
        let shorter = attributes.drop_last();
        let earlier = snake_run(initial, shorter);
        assert forall|k: int| 0 <= k < shorter.len() implies !snake_may_wake(
            #[trigger] shorter[k],
        ) by {
            assert(shorter[k] == attributes[k]);
        }
        lemma_snake_never_awake(initial, shorter);
        let before = state_before(initial, earlier, earlier.len() as int);
        let next = snake::next_state_spec(before, attributes.last());
        assert(run == earlier.push(next));
        assert(run.drop_last() == earlier);
        assert(run.last() == next);
        assert(state_before(initial, run, run.len() - 1) == before);
        assert(state_before(initial, run, run.len() as int) == next);
        let now = attributes[attributes.len() - 1];
        assert(!snake_may_wake(now));
        assert(snake::energy_above_percent(now, snake::SATED_WAKE_PERCENT as int)
            ==> snake::energy_above_percent(now, snake::HUNGRY_WAKE_PERCENT as int));
    }
}

} // verus!
