//! Plankton: a creature of two segments that drifts in a flock, rises to the
//! light when its energy runs low and sinks to rest when it is tired.

use crate::boids::{boid_impulse_spec, calculate_boid_steering_impulse, BoidNeighborInfo};
use crate::creature::{
    same_name, BodyHandle, BodyParameters, BodyState, Creature, CreatureInfo, CreatureState,
    JointHandle, JointParameters, WorldContext,
};
use crate::creature_attributes::{CreatureAttributes, DietType};
use crate::fixed::{
    clamp, clamp_spec, div_toward_zero, fixed_mul, fixed_mul_spec, magnitude, magnitude_spec, sat,
    sat_unsigned, saturate, saturate_unsigned, wide_mul, wide_mul_unsigned, SCALE,
};
use crate::rng::random_in_range;
use crate::sensing::{sense_nearby, sensed};
use crate::vec2::Vec2;
use rand::rngs::StdRng;
use vstd::prelude::*;

verus! {

/// The radius of the secondary segment, as a fraction of the primary's.
pub const SECONDARY_RADIUS_FACTOR: i64 = 600_000;

/// The distance between the two segments at spawn, as a fraction of the sum
/// of their radii.
pub const SEGMENT_GAP_FACTOR: i64 = 800_000;

pub const MAX_ENERGY: u64 = 20_000_000;

pub const ENERGY_RECOVERY_RATE: u64 = 1_000_000;

pub const MAX_SATIETY: u64 = 50_000_000;

pub const METABOLIC_RATE: u64 = 100_000;

/// How far a plankton perceives, in primary radii.
pub const PERCEPTION_RADIUS_FACTOR: i64 = 10_000_000;

/// How close a neighbour may come before it is pushed away, in primary
/// radii.
pub const SEPARATION_DISTANCE_FACTOR: i64 = 1_500_000;

pub const COHESION_STRENGTH: i64 = 150_000;

pub const SEPARATION_STRENGTH: i64 = 250_000;

pub const ALIGNMENT_STRENGTH: i64 = 100_000;

/// The bound on each component of the random part of the wandering impulse.
pub const WANDER_IMPULSE_STRENGTH: i64 = 50_000;

/// Below this share of its maximum, in percent, energy is critically low and
/// an active plankton starts to seek the light.
pub const CRITICAL_ENERGY_PERCENT: u64 = 21;

/// From this share of its maximum, in percent, energy is comfortable again
/// and a plankton leaves rest or the search for light.
pub const COMFORTABLE_ENERGY_PERCENT: u64 = 65;

/// Light feeds a plankton only while its energy is below this share of the
/// maximum, in percent.
pub const PHOTOSYNTHESIS_CAP_PERCENT: u64 = 90;

/// The lower edge of the light zone, in percent of the world's height.
pub const LIGHT_ZONE_MIN_PERCENT: i64 = 10;

/// The upper edge of the light zone, in percent of the world's height.
pub const LIGHT_ZONE_MAX_PERCENT: i64 = 45;

/// Below this height, in percent of the world's height, a plankton that
/// seeks the light is lifted.
pub const BUOYANCY_ZONE_MIN_PERCENT: i64 = 5;

/// Above this height, in percent of the world's height, a plankton that
/// seeks the light is let sink.
pub const BUOYANCY_ZONE_MAX_PERCENT: i64 = 35;

pub const BASE_BUOYANCY_FORCE: i64 = 2_000;

pub const NET_GRAVITY_SCALE_SEEKING_FOOD_LOW: i64 = 20_000;

pub const NET_GRAVITY_SCALE_SEEKING_FOOD_HIGH: i64 = -200_000;

pub const NET_GRAVITY_SCALE_SEEKING_FOOD_IN_ZONE: i64 = 0;

pub const NET_GRAVITY_SCALE_WANDERING: i64 = -50_000;

pub const NET_GRAVITY_SCALE_RESTING: i64 = -100_000;

pub const OSCILLATION_AMPLITUDE: i64 = 50_000;

/// The bobbing of a plankton follows the sine of its horizontal position
/// multiplied by this frequency.
pub const OSCILLATION_FREQUENCY: i64 = 300_000;

pub const MAX_VERTICAL_SPEED: u64 = 500_000;

pub const VERTICAL_DAMPING: i64 = 100_000;

pub const HORIZONTAL_DAMPING: i64 = 50_000;

/// Above this speed a segment gets the stronger linear damping.
pub const SAFE_SPEED: i64 = 2_000_000;

pub const STRONG_LINEAR_DAMPING: i64 = 20_000_000;

pub const NORMAL_LINEAR_DAMPING: i64 = 12_000_000;

/// A plankton.
pub struct Plankton {
    id: u128,
    segment_handles: Vec<BodyHandle>,
    joint_handles: Vec<JointHandle>,
    attributes: CreatureAttributes,
    current_state: CreatureState,
    pub primary_radius: i64,
    pub secondary_radius: i64,
}

/// What a plankton is, to contracts.
pub struct PlanktonView {
    pub id: u128,
    pub segment_handles: Seq<BodyHandle>,
    pub joint_handles: Seq<JointHandle>,
    pub attributes: CreatureAttributes,
    pub current_state: CreatureState,
    pub primary_radius: i64,
    pub secondary_radius: i64,
}

/// Where the bodies and the joint of a new plankton go.
#[derive(Debug, Clone, Copy, PartialEq, Eq, Structural)]
pub struct PlanktonSpawnPlan {
    pub primary_position: Vec2,
    pub secondary_position: Vec2,
    /// The joint's anchor in the frame of the primary segment.
    pub primary_anchor: Vec2,
    /// The joint's anchor in the frame of the secondary segment.
    pub secondary_anchor: Vec2,
}

/// What is to be done to one segment so that it floats as its state asks.
#[derive(Debug, Clone, Copy, PartialEq, Eq, Structural)]
pub struct BuoyancyCommand {
    /// The force to add to the segment.
    pub force: Vec2,
    /// The linear damping to give the segment.
    pub linear_damping: i64,
}

impl View for Plankton {
    type V = PlanktonView;

    closed spec fn view(&self) -> PlanktonView {
        PlanktonView {
            id: self.id,
            segment_handles: self.segment_handles@,
            joint_handles: self.joint_handles@,
            attributes: self.attributes,
            current_state: self.current_state,
            primary_radius: self.primary_radius,
            secondary_radius: self.secondary_radius,
        }
    }
}

/// How the physics world is to treat a plankton's segments: heavily damped,
/// dense, with a little bounce.
pub fn body_parameters() -> (r: BodyParameters)
    ensures
        r == (BodyParameters {
            linear_damping: 20_000_000,
            angular_damping: 10_000_000,
            density: 10_000_000,
            friction: 500_000,
            restitution: 100_000,
            continuous_collision_detection: true,
        }),
{
    BodyParameters {
        linear_damping: 20_000_000,
        angular_damping: 10_000_000,
        density: 10_000_000,
        friction: 500_000,
        restitution: 100_000,
        continuous_collision_detection: true,
    }
}

/// How the physics world is to treat the joint between a plankton's two
/// segments: held loosely together.
pub fn joint_parameters() -> (r: JointParameters)
    ensures
        r == (JointParameters { motor_max_force: 5_000_000, angle_limit: 100_000 }),
{
    JointParameters { motor_max_force: 5_000_000, angle_limit: 100_000 }
}

/// Whether `100 * part < percent * whole`.
pub open spec fn below_percent(part: int, whole: int, percent: int) -> bool {
    100 * part < percent * whole
}

/// Whether `100 * part > percent * whole`.
pub open spec fn above_percent(part: int, whole: int, percent: int) -> bool {
    100 * part > percent * whole
}

/// Whether the height `y` lies in the band of the world in which light
/// feeds a plankton.
pub open spec fn in_light_zone(y: int, world_height: int) -> bool {
    !below_percent(y, world_height, LIGHT_ZONE_MIN_PERCENT as int) && !above_percent(
        y,
        world_height,
        LIGHT_ZONE_MAX_PERCENT as int,
    )
}

/// The state a plankton takes next. A tired plankton rests. A resting one
/// stays at rest until its energy is comfortable. An active one seeks the
/// light once its energy is critically low, and goes on seeking until its
/// energy is comfortable and it is in the light zone.
pub open spec fn next_state_spec(
    state: CreatureState,
    attributes: CreatureAttributes,
    y: int,
    world_height: int,
) -> CreatureState {
    let critical = below_percent(
        attributes.energy as int,
        attributes.max_energy as int,
        CRITICAL_ENERGY_PERCENT as int,
    );
    let comfortable = !below_percent(
        attributes.energy as int,
        attributes.max_energy as int,
        COMFORTABLE_ENERGY_PERCENT as int,
    );
    if attributes.is_tired_spec() {
        CreatureState::Resting
    } else {
        match state {
            CreatureState::Resting => if comfortable {
                CreatureState::Wandering
            } else {
                CreatureState::Resting
            },
            CreatureState::Wandering => if critical {
                CreatureState::SeekingFood
            } else {
                CreatureState::Wandering
            },
            CreatureState::SeekingFood => if comfortable && in_light_zone(y, world_height) {
                CreatureState::Wandering
            } else {
                CreatureState::SeekingFood
            },
            CreatureState::Idle | CreatureState::Fleeing => if critical {
                CreatureState::SeekingFood
            } else {
                CreatureState::Wandering
            },
        }
    }
}

/// Whether light feeds a plankton in `state` at height `y`.
pub open spec fn photosynthesizes(
    state: CreatureState,
    attributes: CreatureAttributes,
    y: int,
    world_height: int,
) -> bool {
    &&& state == CreatureState::SeekingFood
    &&& in_light_zone(y, world_height)
    &&& below_percent(
        attributes.energy as int,
        attributes.max_energy as int,
        PHOTOSYNTHESIS_CAP_PERCENT as int,
    )
}

/// The flockmates among the perceived creatures: the plankton, each by its
/// position and velocity.
pub open spec fn flockmates_spec(nearby: Seq<CreatureInfo>) -> Seq<BoidNeighborInfo>
    decreases nearby.len(),
{
    if nearby.len() == 0 {
        Seq::empty()
    } else {
        let rest = flockmates_spec(nearby.drop_last());
        if nearby.last().creature_type_name@ == "Plankton"@ {
            rest.push(
                BoidNeighborInfo {
                    position: nearby.last().position,
                    velocity: nearby.last().velocity,
                },
            )
        } else {
            rest
        }
    }
}

/// Whether `impulse` is a wandering impulse for the steering impulse
/// `steering`: the sum of `steering` and a vector whose components lie
/// within the wander strength.
pub open spec fn is_wander_impulse(impulse: Vec2, steering: Vec2) -> bool {
    exists|random: Vec2|
        {
            &&& -WANDER_IMPULSE_STRENGTH <= random.x < WANDER_IMPULSE_STRENGTH
            &&& -WANDER_IMPULSE_STRENGTH <= random.y < WANDER_IMPULSE_STRENGTH
            &&& impulse == #[trigger] random.plus_spec(steering)
        }
}

/// The share of the world's gravity that is left to act on a segment at
/// height `y`, where `sine` is the sine of the segment's oscillation angle.
pub open spec fn net_gravity_scale_spec(
    state: CreatureState,
    y: int,
    world_height: int,
    sine: int,
) -> int {
    let oscillation = fixed_mul_spec(
        clamp_spec(sine, -SCALE as int, SCALE as int),
        OSCILLATION_AMPLITUDE as int,
    );
    match state {
        CreatureState::SeekingFood => if below_percent(
            y,
            world_height,
            BUOYANCY_ZONE_MIN_PERCENT as int,
        ) {
            NET_GRAVITY_SCALE_SEEKING_FOOD_LOW as int
        } else if above_percent(y, world_height, BUOYANCY_ZONE_MAX_PERCENT as int) {
            NET_GRAVITY_SCALE_SEEKING_FOOD_HIGH as int
        } else {
            NET_GRAVITY_SCALE_SEEKING_FOOD_IN_ZONE as int
        },
        CreatureState::Resting => NET_GRAVITY_SCALE_RESTING + div_toward_zero(oscillation, 2),
        CreatureState::Wandering | CreatureState::Idle | CreatureState::Fleeing =>
            NET_GRAVITY_SCALE_WANDERING + oscillation,
    }
}

/// The damping force that opposes the horizontal speed `vx`.
pub open spec fn horizontal_damping_spec(vx: int) -> int {
    -fixed_mul_spec(vx, HORIZONTAL_DAMPING as int)
}

/// The damping force that opposes the vertical speed `vy`: twice as strong
/// beyond the greatest vertical speed.
pub open spec fn vertical_damping_spec(vy: int) -> int {
    if magnitude_spec(vy) > MAX_VERTICAL_SPEED {
        -2 * fixed_mul_spec(vy, VERTICAL_DAMPING as int)
    } else {
        -fixed_mul_spec(vy, VERTICAL_DAMPING as int)
    }
}

/// What is to be done to a segment in `body` so that it floats as `state`
/// asks.
pub open spec fn buoyancy_spec(
    state: CreatureState,
    body: BodyState,
    sine: int,
    world_height: int,
) -> BuoyancyCommand {
    let lift = fixed_mul_spec(
        BASE_BUOYANCY_FORCE as int,
        SCALE + net_gravity_scale_spec(state, body.position.y as int, world_height, sine),
    );
    BuoyancyCommand {
        force: Vec2 {
            x: horizontal_damping_spec(body.velocity.x as int) as i64,
            y: sat(lift + vertical_damping_spec(body.velocity.y as int)) as i64,
        },
        linear_damping: if body.velocity.norm_squared_spec() > SAFE_SPEED * SAFE_SPEED {
            STRONG_LINEAR_DAMPING
        } else {
            NORMAL_LINEAR_DAMPING
        },
    }
}

/// The angle whose sine makes a segment at horizontal position `x` bob.
pub open spec fn oscillation_angle_spec(x: int) -> int {
    fixed_mul_spec(x, OSCILLATION_FREQUENCY as int)
}

fn is_below_percent(part: i64, whole: i64, percent: i64) -> (r: bool)
    requires
        0 <= percent <= 100,
    ensures
        r == below_percent(part as int, whole as int, percent as int),
{
    100 * (part as i128) < wide_mul(percent, whole)
}

fn is_above_percent(part: i64, whole: i64, percent: i64) -> (r: bool)
    requires
        0 <= percent <= 100,
    ensures
        r == above_percent(part as int, whole as int, percent as int),
{
    100 * (part as i128) > wide_mul(percent, whole)
}

fn is_in_light_zone(y: i64, world_height: i64) -> (r: bool)
    ensures
        r == in_light_zone(y as int, world_height as int),
{
    !is_below_percent(y, world_height, LIGHT_ZONE_MIN_PERCENT) && !is_above_percent(
        y,
        world_height,
        LIGHT_ZONE_MAX_PERCENT,
    )
}

fn energy_is_below_percent(attributes: &CreatureAttributes, percent: u64) -> (r: bool)
    requires
        percent <= 100,
    ensures
        r == below_percent(
            attributes.energy as int,
            attributes.max_energy as int,
            percent as int,
        ),
{
    100 * (attributes.energy as u128) < wide_mul_unsigned(percent, attributes.max_energy)
}

/// The state a plankton takes next; see `next_state_spec`.
pub fn next_state(
    state: CreatureState,
    attributes: &CreatureAttributes,
    y: i64,
    world_context: &WorldContext,
) -> (next: CreatureState)
    ensures
        next == next_state_spec(state, *attributes, y as int, world_context.world_height as int),
        next != CreatureState::Idle && next != CreatureState::Fleeing,
{
    if attributes.is_tired() {
        return CreatureState::Resting;
    }
    let critical = energy_is_below_percent(attributes, CRITICAL_ENERGY_PERCENT);
    let comfortable = !energy_is_below_percent(attributes, COMFORTABLE_ENERGY_PERCENT);
    match state {
        CreatureState::Resting => if comfortable {
            CreatureState::Wandering
        } else {
            CreatureState::Resting
        },
        CreatureState::Wandering => if critical {
            CreatureState::SeekingFood
        } else {
            CreatureState::Wandering
        },
        CreatureState::SeekingFood => if comfortable && is_in_light_zone(
            y,
            world_context.world_height,
        ) {
            CreatureState::Wandering
        } else {
            CreatureState::SeekingFood
        },
        CreatureState::Idle | CreatureState::Fleeing => if critical {
            CreatureState::SeekingFood
        } else {
            CreatureState::Wandering
        },
    }
}

/// Picks the flockmates among the perceived creatures.
pub fn flockmates(nearby: &Vec<CreatureInfo>) -> (mates: Vec<BoidNeighborInfo>)
    ensures
        mates@ == flockmates_spec(nearby@),
{
    let mut mates: Vec<BoidNeighborInfo> = Vec::new();
    let mut i: usize = 0;
    while i < nearby.len()
        invariant
            i <= nearby.len(),
            mates@ == flockmates_spec(nearby@.take(i as int)),
        decreases nearby.len() - i,
    {
        let info = nearby[i];
        proof {
            assert(nearby@.take(i as int + 1).drop_last() == nearby@.take(i as int));
            assert(nearby@.take(i as int + 1).last() == info);
        }
        if same_name(info.creature_type_name, "Plankton") {
            mates.push(BoidNeighborInfo { position: info.position, velocity: info.velocity });
        }
        i += 1;
    }
    assert(nearby@.take(nearby.len() as int) == nearby@);
    mates
}

/// The impulse on a wandering plankton: the steering impulse and a random
/// push.
pub fn wander_impulse(random: Vec2, steering: Vec2) -> (impulse: Vec2)
    ensures
        impulse == random.plus_spec(steering),
{
    random.plus(steering)
}

/// The angle whose sine makes a segment at horizontal position `x` bob.
pub fn oscillation_angle(x: i64) -> (angle: i64)
    ensures
        angle == oscillation_angle_spec(x as int),
{
    fixed_mul(x, OSCILLATION_FREQUENCY)
}

impl Plankton {
    /// How far this plankton perceives.
    pub open spec fn perception_radius_spec(self) -> int {
        fixed_mul_spec(self@.primary_radius as int, PERCEPTION_RADIUS_FACTOR as int)
    }

    /// How close a neighbour may come before this plankton is pushed away.
    pub open spec fn separation_distance_spec(self) -> int {
        fixed_mul_spec(self@.primary_radius as int, SEPARATION_DISTANCE_FACTOR as int)
    }

    /// The steering impulse on this plankton at `position`, given the owners
    /// `hits` of the colliders around it and the tick's snapshot `all`.
    pub open spec fn steering_spec(
        self,
        own_id: u128,
        position: Vec2,
        hits: Seq<u128>,
        all: Seq<CreatureInfo>,
    ) -> Vec2 {
        boid_impulse_spec(
            position,
            flockmates_spec(sensed(own_id, hits, all, position, self.perception_radius_spec())),
            self.separation_distance_spec(),
            COHESION_STRENGTH as int,
            SEPARATION_STRENGTH as int,
            ALIGNMENT_STRENGTH as int,
        )
    }

    /// A plankton of the given primary radius: not yet in the physics world,
    /// with full energy and satiety, wandering.
    pub fn new(primary_radius: i64) -> (r: Plankton)
        ensures
            r@.id == 0,
            r@.segment_handles.len() == 0,
            r@.joint_handles.len() == 0,
            r@.current_state == CreatureState::Wandering,
            r@.primary_radius == primary_radius,
            r@.secondary_radius == fixed_mul_spec(
                primary_radius as int,
                SECONDARY_RADIUS_FACTOR as int,
            ),
            r@.attributes.wf(),
            r@.attributes.energy == MAX_ENERGY,
            r@.attributes.max_energy == MAX_ENERGY,
            r@.attributes.energy_recovery_rate == ENERGY_RECOVERY_RATE,
            r@.attributes.satiety == MAX_SATIETY,
            r@.attributes.max_satiety == MAX_SATIETY,
            r@.attributes.metabolic_rate == METABOLIC_RATE,
            r@.attributes.diet_type == DietType::Herbivore,
            r@.attributes.size == sat_unsigned(2 * primary_radius),
            r@.attributes.prey_tags.deep_view() == Seq::<Seq<char>>::empty(),
            r@.attributes.self_tags.deep_view() == seq!["plankton"@, "small_food"@],
    {
        let mut self_tags: Vec<String> = Vec::new();
        self_tags.push(String::from_str("plankton"));
        self_tags.push(String::from_str("small_food"));
        let prey_tags: Vec<String> = Vec::new();
        assert(self_tags.deep_view() =~= seq!["plankton"@, "small_food"@]);
        assert(prey_tags.deep_view() =~= Seq::<Seq<char>>::empty());
        let attributes = CreatureAttributes::new(
            MAX_ENERGY,
            ENERGY_RECOVERY_RATE,
            MAX_SATIETY,
            METABOLIC_RATE,
            DietType::Herbivore,
            saturate_unsigned(2 * (primary_radius as i128)),
            prey_tags,
            self_tags,
        );
        Plankton {
            id: 0,
            segment_handles: Vec::new(),
            joint_handles: Vec::new(),
            attributes,
            current_state: CreatureState::Wandering,
            primary_radius,
            secondary_radius: fixed_mul(primary_radius, SECONDARY_RADIUS_FACTOR),
        }
    }

    /// The distance between the two segments at spawn.
    pub open spec fn segment_distance_spec(self) -> int {
        fixed_mul_spec(
            sat(self@.primary_radius + self@.secondary_radius),
            SEGMENT_GAP_FACTOR as int,
        )
    }

    /// Where the bodies and the joint go when this plankton is spawned at
    /// `initial_position`: the secondary segment above the primary one, the
    /// anchors halfway between them.
    pub open spec fn spawn_plan_spec(self, initial_position: Vec2) -> PlanktonSpawnPlan {
        let distance = self.segment_distance_spec();
        PlanktonSpawnPlan {
            primary_position: initial_position,
            secondary_position: initial_position.plus_spec(Vec2 { x: 0, y: distance as i64 }),
            primary_anchor: Vec2 { x: 0, y: div_toward_zero(distance, 2) as i64 },
            secondary_anchor: Vec2 { x: 0, y: (-div_toward_zero(distance, 2)) as i64 },
        }
    }

    /// Prepares this plankton for the physics world under the identifier
    /// `creature_id`: forgets the bodies it had and says where the new ones
    /// go. The caller makes the bodies and hands their handles to `attach`.
    pub fn spawn_rapier(&mut self, initial_position: Vec2, creature_id: u128) -> (plan:
        PlanktonSpawnPlan)
        ensures
            plan == old(self).spawn_plan_spec(initial_position),
            final(self)@ == (PlanktonView {
                id: creature_id,
                segment_handles: Seq::empty(),
                joint_handles: Seq::empty(),
                ..old(self)@
            }),
    {
        self.id = creature_id;
        self.segment_handles = Vec::new();
        self.joint_handles = Vec::new();
        let distance = fixed_mul(
            saturate(self.primary_radius as i128 + self.secondary_radius as i128),
            SEGMENT_GAP_FACTOR,
        );
        let half = distance / 2;
        PlanktonSpawnPlan {
            primary_position: initial_position,
            secondary_position: initial_position.plus(Vec2 { x: 0, y: distance }),
            primary_anchor: Vec2 { x: 0, y: half },
            secondary_anchor: Vec2 { x: 0, y: -half },
        }
    }

    /// Records the handles of the bodies and joints that were made for this
    /// plankton, primary segment first.
    pub fn attach(&mut self, segment_handles: Vec<BodyHandle>, joint_handles: Vec<JointHandle>)
        ensures
            final(self)@ == (PlanktonView {
                segment_handles: segment_handles@,
                joint_handles: joint_handles@,
                ..old(self)@
            }),
    {
        self.segment_handles = segment_handles;
        self.joint_handles = joint_handles;
    }

    /// Replaces this plankton's attributes.
    pub fn set_attributes(&mut self, attributes: CreatureAttributes)
        ensures
            final(self)@ == (PlanktonView { attributes, ..old(self)@ }),
    {
        self.attributes = attributes;
    }

    /// Lets `dt` go by for this plankton's metabolism.
    pub fn update_passive_stats(&mut self, dt: u64)
        ensures
            final(self)@ == (PlanktonView {
                attributes: old(self)@.attributes.after_passive_update(
                    dt,
                    old(self)@.current_state.is_resting_spec(),
                ),
                ..old(self)@
            }),
            old(self)@.attributes.wf() ==> final(self)@.attributes.wf(),
    {
        let resting = self.current_state.is_resting();
        self.attributes.update_passive_stats(dt, resting);
    }

    /// How far this plankton perceives.
    pub fn perception_radius(&self) -> (r: i64)
        ensures
            r == self.perception_radius_spec(),
    {
        fixed_mul(self.primary_radius, PERCEPTION_RADIUS_FACTOR)
    }

    /// How close a neighbour may come before this plankton is pushed away.
    pub fn separation_distance(&self) -> (r: i64)
        ensures
            r == self.separation_distance_spec(),
    {
        fixed_mul(self.primary_radius, SEPARATION_DISTANCE_FACTOR)
    }

    /// Decides this plankton's state for the tick and acts on it.
    ///
    /// `self_position` is where the primary segment is, or `None` where the
    /// physics world no longer has it; the plankton then senses and decides
    /// as if it were at the origin. `hits` holds the owners of the colliders
    /// that the physics world found within the perception radius, and
    /// `all_creatures_info` the tick's snapshot.
    ///
    /// A plankton that seeks the light inside the light zone gains energy
    /// for `dt` at its recovery rate while its energy is below the cap. A
    /// wandering plankton whose primary segment exists is given an impulse:
    /// the flock's steering impulse and a random push. In every other case
    /// there is no impulse.
    pub fn update_state_and_behavior(
        &mut self,
        dt: u64,
        own_id: u128,
        self_position: Option<Vec2>,
        hits: &Vec<u128>,
        all_creatures_info: &Vec<CreatureInfo>,
        world_context: &WorldContext,
        rng: &mut StdRng,
    ) -> (impulse: Option<Vec2>)
        ensures
            ({
                let position = match self_position {
                    Some(p) => p,
                    None => Vec2::zero_spec(),
                };
                let height = world_context.world_height as int;
                let next = next_state_spec(
                    old(self)@.current_state,
                    old(self)@.attributes,
                    position.y as int,
                    height,
                );
                let fed = photosynthesizes(next, old(self)@.attributes, position.y as int, height);
                &&& final(self)@ == (PlanktonView {
                    current_state: next,
                    attributes: if fed {
                        old(self)@.attributes.after_recovery(dt)
                    } else {
                        old(self)@.attributes
                    },
                    ..old(self)@
                })
                &&& (next == CreatureState::Wandering && self_position is Some) ==> impulse is Some
                    && is_wander_impulse(
                    impulse->0,
                    old(self).steering_spec(own_id, position, hits@, all_creatures_info@),
                )
                &&& !(next == CreatureState::Wandering && self_position is Some) ==> impulse
                    is None
            }),
            old(self)@.attributes.wf() ==> final(self)@.attributes.wf(),
    {
        let position = match self_position {
            Some(p) => p,
            None => Vec2::zero(),
        };
        let nearby = sense_nearby(
            own_id,
            hits,
            all_creatures_info,
            position,
            self.perception_radius(),
        );
        let mates = flockmates(&nearby);
        let steering = calculate_boid_steering_impulse(
            position,
            mates.as_slice(),
            self.perception_radius(),
            self.separation_distance(),
            COHESION_STRENGTH,
            SEPARATION_STRENGTH,
            ALIGNMENT_STRENGTH,
        );
        let next = next_state(self.current_state, &self.attributes, position.y, world_context);
        self.current_state = next;
        match next {
            CreatureState::Wandering => {
                if self_position.is_some() {
                    let random = Vec2 {
                        x: random_in_range(rng, -WANDER_IMPULSE_STRENGTH, WANDER_IMPULSE_STRENGTH),
                        y: random_in_range(rng, -WANDER_IMPULSE_STRENGTH, WANDER_IMPULSE_STRENGTH),
                    };
                    let pushed = wander_impulse(random, steering);
                    assert(pushed == random.plus_spec(steering));
                    Some(pushed)
                } else {
                    None
                }
            },
            CreatureState::SeekingFood => {
                if is_in_light_zone(position.y, world_context.world_height)
                    && energy_is_below_percent(&self.attributes, PHOTOSYNTHESIS_CAP_PERCENT) {
                    self.attributes.recover_energy(dt);
                }
                None
            },
            CreatureState::Resting | CreatureState::Idle | CreatureState::Fleeing => None,
        }
    }

    /// Says what is to be done to a segment in `body` so that it floats as
    /// this plankton's state asks. `sine` is the sine of
    /// `oscillation_angle(body.position.x)`; a value beyond one unit counts
    /// as one unit.
    ///
    /// A plankton that seeks the light is lifted below the buoyancy zone and
    /// let sink above it; a resting one sinks; the others bob. The force also
    /// opposes the segment's velocity on both axes.
    pub fn buoyancy_and_drag(&self, body: BodyState, sine: i64, world_context: &WorldContext) -> (command:
        BuoyancyCommand)
        ensures
            command == buoyancy_spec(
                self@.current_state,
                body,
                sine as int,
                world_context.world_height as int,
            ),
    {
        let oscillation = fixed_mul(clamp(sine, -SCALE, SCALE), OSCILLATION_AMPLITUDE);
        proof {
            crate::vec2::lemma_fixed_mul_of_unit(
                clamp_spec(sine as int, -SCALE as int, SCALE as int),
                OSCILLATION_AMPLITUDE as int,
            );
        }
        let height = world_context.world_height;
        let scale: i64 = match self.current_state {
            CreatureState::SeekingFood => if is_below_percent(
                body.position.y,
                height,
                BUOYANCY_ZONE_MIN_PERCENT,
            ) {
                NET_GRAVITY_SCALE_SEEKING_FOOD_LOW
            } else if is_above_percent(body.position.y, height, BUOYANCY_ZONE_MAX_PERCENT) {
                NET_GRAVITY_SCALE_SEEKING_FOOD_HIGH
            } else {
                NET_GRAVITY_SCALE_SEEKING_FOOD_IN_ZONE
            },
            CreatureState::Resting => NET_GRAVITY_SCALE_RESTING + oscillation / 2,
            CreatureState::Wandering | CreatureState::Idle | CreatureState::Fleeing =>
                NET_GRAVITY_SCALE_WANDERING + oscillation,
        };
        let lift = fixed_mul(BASE_BUOYANCY_FORCE, SCALE + scale);
        let slowed = fixed_mul(body.velocity.y, VERTICAL_DAMPING);
        let slowed = slowed as i128;
        let vertical: i128 = if magnitude(body.velocity.y) > MAX_VERTICAL_SPEED {
            -(slowed + slowed)
        } else {
            -slowed
        };
        let horizontal = saturate(-(fixed_mul(body.velocity.x, HORIZONTAL_DAMPING) as i128));
        let fast = body.velocity.norm_squared() > (SAFE_SPEED as u128) * (SAFE_SPEED as u128);
        BuoyancyCommand {
            force: Vec2 { x: horizontal, y: saturate(lift as i128 + vertical) },
            linear_damping: if fast {
                STRONG_LINEAR_DAMPING
            } else {
                NORMAL_LINEAR_DAMPING
            },
        }
    }
}

impl Creature for Plankton {
    fn id(&self) -> (r: u128)
        ensures
            r == self@.id,
    {
        self.id
    }

    fn get_rigid_body_handles(&self) -> (r: &[BodyHandle])
        ensures
            r@ == self@.segment_handles,
    {
        self.segment_handles.as_slice()
    }

    fn get_joint_handles(&self) -> (r: &[JointHandle])
        ensures
            r@ == self@.joint_handles,
    {
        self.joint_handles.as_slice()
    }

    fn attributes(&self) -> (r: &CreatureAttributes)
        ensures
            *r == self@.attributes,
    {
        &self.attributes
    }

    fn attributes_mut(&mut self) -> (r: &mut CreatureAttributes)
        ensures
            *r == old(self)@.attributes,
            final(self)@ == (PlanktonView { attributes: *final(r), ..old(self)@ }),
    {
        &mut self.attributes
    }

    fn drawing_radius(&self) -> (r: i64)
        ensures
            r == self@.primary_radius,
    {
        self.primary_radius
    }

    fn species_name(&self) -> (r: &'static str)
        ensures
            r@ == "Plankton"@,
    {
        "Plankton"
    }

    fn current_state(&self) -> (r: CreatureState)
        ensures
            r == self@.current_state,
    {
        self.current_state
    }
}

} // verus!
