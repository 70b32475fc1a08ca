//! The snake: a chain of segments that swims by sending a wave down its
//! joints, rests when it is tired and keeps itself inside the world.

use crate::bounds;
use crate::bounds::{boundary_force_spec, clamp_position_spec, within_bounds_spec};
use crate::creature::{
    BodyHandle, BodyParameters, BodyState, Creature, CreatureState, JointHandle,
    JointParameters, WorldContext,
};
use crate::creature_attributes::{CreatureAttributes, DietType};
use crate::drag::{anisotropic_drag_spec, apply_anisotropic_drag, DragForces};
use crate::fixed::{
    clamp, clamp_spec, div_toward_zero, fixed_mul, fixed_mul_spec, magnitude, magnitude_spec, sat,
    sat_unsigned, saturate, saturate_unsigned, unsigned_add, unsigned_mul, unsigned_mul_spec,
    wide_mul, wide_mul_unsigned, SCALE,
};
use crate::rng::random_in_range;
use crate::safety;
use crate::safety::{
    close_pairs, closer_than, last_runaway_speed, straighten_all, stuck_timer_spec,
    CorrectedChain, MAX_SAFE_SPEED, SELF_COLLISION_FACTOR,
};
use crate::vec2::Vec2;
use crate::wiggle;
use crate::wiggle::{
    advanced_phase_spec, below_max_speed, energy_cost_spec, head_angular_velocity_spec,
    head_thrust_spec, joint_count_spec, joint_phase_spec, motor_target_spec, HOLD_MOTOR_FORCE,
    SPEED_DAMPING, WIGGLE_MOTOR_FORCE,
};
use rand::rngs::StdRng;
use vstd::prelude::*;

verus! {

pub const MAX_ENERGY: u64 = 100_000_000;

pub const ENERGY_RECOVERY_RATE: u64 = 5_000_000;

pub const MAX_SATIETY: u64 = 100_000_000;

pub const METABOLIC_RATE: u64 = 1_000_000;

/// A new snake has rested for less than this.
pub const MAX_INITIAL_REST: i64 = 5_000_000;

/// The margin that a snake keeps from the edges of the world, in segment
/// radii.
pub const BOUNDARY_MARGIN_FACTOR: i64 = 3_000_000;

/// The margin from the edges within which a snake is put back, in segment
/// radii.
pub const SAFE_MARGIN_FACTOR: i64 = 6_000_000;

/// The size of the force that sends a segment back from beyond the margin,
/// along each axis.
pub const CORRECTION_FORCE: i64 = 20_000_000;

/// The share of its velocity that a segment beyond the margin keeps.
pub const BOUNDARY_DAMPING: i64 = 800_000;

/// The share of its velocity that a head keeps when it runs into another
/// snake.
pub const COLLISION_DAMPING: i64 = 500_000;

/// A snake is laid out anew at an angle of less than this from the
/// horizontal, to either side.
pub const MAX_RESET_ANGLE: i64 = 10_000;

/// A snake is spawned at an angle of less than this from the horizontal, to
/// either side.
pub const MAX_SPAWN_ANGLE: i64 = 20_000;

/// A wander target is kept for at least this long.
pub const MIN_TARGET_AGE: i64 = 3_000_000;

/// A wander target is kept for less than this long.
pub const MAX_TARGET_AGE: i64 = 5_000_000;

/// A snake that has been stuck for longer than this picks a new target.
pub const STUCK_LIMIT: u64 = 1_000_000;

/// A snake whose head is closer than this to its target has reached it.
pub const TARGET_REACHED_DISTANCE: i64 = 200_000;

/// Below this share of its maximum, in percent, energy is critically low and
/// an active snake starts to seek food.
pub const CRITICAL_ENERGY_PERCENT: u64 = 25;

/// A hungry snake leaves rest, or the search for food, once its energy
/// exceeds this share of the maximum, in percent.
pub const HUNGRY_WAKE_PERCENT: u64 = 50;

/// A snake that is not hungry leaves rest, or the search for food, once its
/// energy exceeds this share of the maximum, in percent.
pub const SATED_WAKE_PERCENT: u64 = 80;

pub const PERPENDICULAR_DRAG: i64 = 15_000_000;

pub const FORWARD_DRAG: i64 = 5_000_000;

/// How strongly a snake moves its joints, how fast the wave runs and what
/// the movement costs, each relative to a leisurely swim.
#[derive(Debug, Clone, Copy, PartialEq, Eq, Structural)]
pub struct WiggleParameters {
    pub amplitude_scale: u64,
    pub frequency_scale: u64,
    pub energy_cost_scale: u64,
}

/// What a snake does with its joints during a tick.
#[derive(Debug, Clone, Copy, PartialEq, Eq, Structural)]
pub enum Behavior {
    /// Send a wave down the joints.
    Wiggle(WiggleParameters),
    /// Hold every joint still, as `Snake::hold_command` says.
    Hold,
}

/// What a snake has noticed about its own body.
pub struct DebugInfo {
    pub max_velocity: u64,
    pub collision_count: u32,
    pub last_collision_time: u64,
    pub problematic_segments: Vec<usize>,
}

/// A snake.
pub struct Snake {
    id: u128,
    segment_handles: Vec<BodyHandle>,
    joint_handles: Vec<JointHandle>,
    pub segment_radius: i64,
    segment_count: usize,
    segment_spacing: i64,
    wiggle_timer: u64,
    rest_timer: u64,
    attributes: CreatureAttributes,
    current_state: CreatureState,
    target_position: Option<Vec2>,
    target_update_timer: u64,
    last_position: Vec2,
    stuck_timer: u64,
    debug_info: DebugInfo,
}

/// What a snake is, to contracts.
pub struct SnakeView {
    pub id: u128,
    pub segment_handles: Seq<BodyHandle>,
    pub joint_handles: Seq<JointHandle>,
    pub segment_radius: i64,
    pub segment_count: usize,
    pub segment_spacing: i64,
    /// The angle of the wave, within one turn.
    pub wiggle_timer: u64,
    /// For how long the snake has been at rest.
    pub rest_timer: u64,
    pub attributes: CreatureAttributes,
    pub current_state: CreatureState,
    /// Where the snake is heading, if anywhere.
    pub target_position: Option<Vec2>,
    /// The age of the target.
    pub target_update_timer: u64,
    /// Where the head was a tick ago.
    pub last_position: Vec2,
    /// For how long the head has not moved.
    pub stuck_timer: u64,
    pub max_velocity: u64,
    pub collision_count: u32,
    pub last_collision_time: u64,
    pub problematic_segments: Seq<usize>,
}

impl View for Snake {
    type V = SnakeView;

    closed spec fn view(&self) -> SnakeView {
        SnakeView {
            id: self.id,
            segment_handles: self.segment_handles@,
            joint_handles: self.joint_handles@,
            segment_radius: self.segment_radius,
            segment_count: self.segment_count,
            segment_spacing: self.segment_spacing,
            wiggle_timer: self.wiggle_timer,
            rest_timer: self.rest_timer,
            attributes: self.attributes,
            current_state: self.current_state,
            target_position: self.target_position,
            target_update_timer: self.target_update_timer,
            last_position: self.last_position,
            stuck_timer: self.stuck_timer,
            max_velocity: self.debug_info.max_velocity,
            collision_count: self.debug_info.collision_count,
            last_collision_time: self.debug_info.last_collision_time,
            problematic_segments: self.debug_info.problematic_segments@,
        }
    }
}

/// How the physics world is to treat a snake's segments: damped, light,
/// without bounce.
pub fn body_parameters() -> (r: BodyParameters)
    ensures
        r == (BodyParameters {
            linear_damping: 15_000_000,
            angular_damping: 8_000_000,
            density: 3_000_000,
            friction: 100_000,
            restitution: 0,
            continuous_collision_detection: false,
        }),
{
    BodyParameters {
        linear_damping: 15_000_000,
        angular_damping: 8_000_000,
        density: 3_000_000,
        friction: 100_000,
        restitution: 0,
        continuous_collision_detection: false,
    }
}

/// How the physics world is to treat the joints between a snake's
/// segments: nearly stiff, with a weak motor.
pub fn joint_parameters() -> (r: JointParameters)
    ensures
        r == (JointParameters { motor_max_force: 300_000, angle_limit: 20_000 }),
{
    JointParameters { motor_max_force: 300_000, angle_limit: 20_000 }
}

/// Whether `100 * energy > percent * max_energy`.
pub open spec fn energy_above_percent(attributes: CreatureAttributes, percent: int) -> bool {
    100 * attributes.energy > percent * attributes.max_energy
}

/// Whether a snake with these attributes has energy enough to take up
/// wandering again: more than the wake threshold, which is lower for a
/// hungry snake.
pub open spec fn is_awake_spec(attributes: CreatureAttributes) -> bool {
    energy_above_percent(
        attributes,
        if attributes.is_hungry_spec() {
            HUNGRY_WAKE_PERCENT as int
        } else {
            SATED_WAKE_PERCENT as int
        },
    )
}

/// Whether a snake's energy is critically low.
pub open spec fn is_critical_spec(attributes: CreatureAttributes) -> bool {
    100 * attributes.energy < CRITICAL_ENERGY_PERCENT * attributes.max_energy
}

/// The state a snake takes next. A tired snake rests. A resting snake stays
/// at rest until its energy exceeds the wake threshold. An active snake
/// seeks food once its energy is critically low, and goes on seeking until
/// its energy exceeds the wake threshold. Every other snake wanders.
pub open spec fn next_state_spec(state: CreatureState, attributes: CreatureAttributes) -> CreatureState {
    if attributes.is_tired_spec() {
        CreatureState::Resting
    } else if state == CreatureState::Resting {
        if is_awake_spec(attributes) {
            CreatureState::Wandering
        } else {
            CreatureState::Resting
        }
    } else if is_critical_spec(attributes) {
        CreatureState::SeekingFood
    } else if state == CreatureState::SeekingFood {
        if is_awake_spec(attributes) {
            CreatureState::Wandering
        } else {
            CreatureState::SeekingFood
        }
    } else {
        CreatureState::Wandering
    }
}

/// The share of its maximum that a creature's energy makes up; zero for a
/// creature that can hold no energy.
pub open spec fn energy_fraction_spec(attributes: CreatureAttributes) -> int {
    if attributes.max_energy == 0 {
        0
    } else {
        sat_unsigned((attributes.energy * SCALE) / (attributes.max_energy as int))
    }
}

/// The share of its maximum that a creature's energy falls short by.
pub open spec fn hunger_fraction_spec(attributes: CreatureAttributes) -> int {
    if energy_fraction_spec(attributes) >= SCALE {
        0
    } else {
        SCALE - energy_fraction_spec(attributes)
    }
}

/// What a snake in `state` does with its joints. An idle snake barely
/// moves; a wandering one moves the more the more energy it has; one that
/// seeks food moves the more the less energy it has; a fleeing one moves as
/// much as it can; a resting one holds still.
pub open spec fn behavior_spec(state: CreatureState, attributes: CreatureAttributes) -> Behavior {
    let energy = energy_fraction_spec(attributes);
    let hunger = hunger_fraction_spec(attributes);
    match state {
        CreatureState::Idle => Behavior::Wiggle(
            WiggleParameters {
                amplitude_scale: 100_000,
                frequency_scale: 300_000,
                energy_cost_scale: 100_000,
            },
        ),
        CreatureState::Wandering => Behavior::Wiggle(
            WiggleParameters {
                amplitude_scale: energy as u64,
                frequency_scale: sat_unsigned(SCALE + unsigned_mul_spec(energy, 300_000)) as u64,
                energy_cost_scale: 1_000_000,
            },
        ),
        CreatureState::Resting => Behavior::Hold,
        CreatureState::SeekingFood => Behavior::Wiggle(
            WiggleParameters {
                amplitude_scale: unsigned_mul_spec(1_500_000, sat_unsigned(SCALE + hunger)) as u64,
                frequency_scale: unsigned_mul_spec(
                    1_500_000,
                    sat_unsigned(SCALE + unsigned_mul_spec(hunger, 300_000)),
                ) as u64,
                energy_cost_scale: 1_500_000,
            },
        ),
        CreatureState::Fleeing => Behavior::Wiggle(
            WiggleParameters {
                amplitude_scale: 2_000_000,
                frequency_scale: 1_500_000,
                energy_cost_scale: 2_000_000,
            },
        ),
    }
}

/// Half the extent of a world of the given height.
pub open spec fn half_world_spec(world_height: int) -> int {
    div_toward_zero(world_height, 2)
}

/// Where the segment at place `i` of a chain goes whose head is at `base`
/// and whose segments follow at `spacing` along `heading`.
pub open spec fn chain_position_spec(base: Vec2, heading: Vec2, spacing: int, i: int) -> Vec2 {
    base.plus_spec(
        Vec2 {
            x: fixed_mul_spec(sat(i * spacing), heading.x as int) as i64,
            y: fixed_mul_spec(sat(i * spacing), heading.y as int) as i64,
        },
    )
}

/// The state a snake takes next; see `next_state_spec`.
pub fn next_state(state: CreatureState, attributes: &CreatureAttributes) -> (next: CreatureState)
    ensures
        next == next_state_spec(state, *attributes),
        next != CreatureState::Idle && next != CreatureState::Fleeing,
{
    if attributes.is_tired() {
        return CreatureState::Resting;
    }
    let wake = if attributes.is_hungry() {
        HUNGRY_WAKE_PERCENT
    } else {
        SATED_WAKE_PERCENT
    };
    let awake = 100 * (attributes.energy as u128) > wide_mul_unsigned(
        wake,
        attributes.max_energy,
    );
    let critical = 100 * (attributes.energy as u128) < wide_mul_unsigned(
        CRITICAL_ENERGY_PERCENT,
        attributes.max_energy,
    );
    if state.is_resting() {
        if awake {
            CreatureState::Wandering
        } else {
            CreatureState::Resting
        }
    } else if critical {
        CreatureState::SeekingFood
    } else {
        match state {
            CreatureState::SeekingFood => if awake {
                CreatureState::Wandering
            } else {
                CreatureState::SeekingFood
            },
            _ => CreatureState::Wandering,
        }
    }
}

/// The share of its maximum that a creature's energy makes up.
pub fn energy_fraction(attributes: &CreatureAttributes) -> (r: u64)
    ensures
        r == energy_fraction_spec(*attributes),
{
    if attributes.max_energy == 0 {
        0
    } else {
        let share = wide_mul_unsigned(attributes.energy, SCALE as u64) / (
        attributes.max_energy as u128);
        if share > u64::MAX as u128 {
            u64::MAX
        } else {
            share as u64
        }
    }
}

/// What a snake in `state` does with its joints; see `behavior_spec`.
pub fn behavior(state: CreatureState, attributes: &CreatureAttributes) -> (r: Behavior)
    ensures
        r == behavior_spec(state, *attributes),
{
    let energy = energy_fraction(attributes);
    let hunger: u64 = if energy >= SCALE as u64 {
        0
    } else {
        SCALE as u64 - energy
    };
    match state {
        CreatureState::Idle => Behavior::Wiggle(
            WiggleParameters {
                amplitude_scale: 100_000,
                frequency_scale: 300_000,
                energy_cost_scale: 100_000,
            },
        ),
        CreatureState::Wandering => Behavior::Wiggle(
            WiggleParameters {
                amplitude_scale: energy,
                frequency_scale: unsigned_add(SCALE as u64, unsigned_mul(energy, 300_000)),
                energy_cost_scale: 1_000_000,
            },
        ),
        CreatureState::Resting => Behavior::Hold,
        CreatureState::SeekingFood => Behavior::Wiggle(
            WiggleParameters {
                amplitude_scale: unsigned_mul(1_500_000, unsigned_add(SCALE as u64, hunger)),
                frequency_scale: unsigned_mul(
                    1_500_000,
                    unsigned_add(SCALE as u64, unsigned_mul(hunger, 300_000)),
                ),
                energy_cost_scale: 1_500_000,
            },
        ),
        CreatureState::Fleeing => Behavior::Wiggle(
            WiggleParameters {
                amplitude_scale: 2_000_000,
                frequency_scale: 1_500_000,
                energy_cost_scale: 2_000_000,
            },
        ),
    }
}

/// Half the extent of the world.
/// How far the last segment of a chain of `count` segments lies from the
/// first, measured along the chain.
pub open spec fn body_length_spec(count: int, spacing: int) -> int {
    if count > 0 {
        magnitude_spec(sat((count - 1) * spacing))
    } else {
        0
    }
}

/// The direction of a body that lies at `angle` to the horizontal, for an
/// angle no greater than the greatest at which a snake is laid out anew;
/// a greater one counts as the greatest. Across it is one less half the
/// angle's square, up it is the angle itself: of an angle so small these
/// are the cosine and the sine, to within two millionths.
pub open spec fn small_angle_heading_spec(angle: int) -> Vec2 {
    let a = clamp_spec(angle, -MAX_RESET_ANGLE as int, MAX_RESET_ANGLE as int);
    Vec2 { x: (SCALE - (a * a) / (2 * SCALE)) as i64, y: a as i64 }
}

/// The state in which the segment at place `i` is put back, of a snake
/// that is laid out anew with its head at `base` and its body at `angle`
/// to the horizontal: in its place in the chain, at rest.
pub open spec fn reset_state_spec(base: Vec2, angle: int, spacing: int, i: int) -> BodyState {
    BodyState {
        position: chain_position_spec(base, small_angle_heading_spec(angle), spacing, i),
        velocity: Vec2::zero_spec(),
        angular_velocity: 0,
    }
}

pub fn half_world(world_context: &WorldContext) -> (r: i64)
    ensures
        r == half_world_spec(world_context.world_height as int),
{
    world_context.world_height / 2
}

/// Lays out a chain of `count` segments whose head is at `base` and whose
/// segments follow at `spacing` along `heading`, a vector of length one.
pub fn chain_positions(base: Vec2, heading: Vec2, spacing: i64, count: usize) -> (positions: Vec<
    Vec2,
>)
    ensures
        positions@.len() == count,
        forall|i: int|
            0 <= i < count ==> #[trigger] positions@[i] == chain_position_spec(
                base,
                heading,
                spacing as int,
                i,
            ),
{
    let mut positions: Vec<Vec2> = Vec::new();
    let mut i: usize = 0;
    while i < count
        invariant
            i <= count,
            positions@.len() == i,
            forall|k: int|
                0 <= k < i ==> #[trigger] positions@[k] == chain_position_spec(
                    base,
                    heading,
                    spacing as int,
                    k,
                ),
        decreases count - i,
    {
        assert(-0xffff_ffff_ffff_ffff * 0x8000_0000_0000_0000 <= i * spacing
            <= 0xffff_ffff_ffff_ffff * 0x7fff_ffff_ffff_ffff) by (nonlinear_arith)
            requires
                0 <= i <= 0xffff_ffff_ffff_ffff,
                -0x8000_0000_0000_0000 <= spacing <= 0x7fff_ffff_ffff_ffff,
        ;
        let along = saturate((i as i128) * (spacing as i128));
        positions.push(
            base.plus(Vec2 { x: fixed_mul(along, heading.x), y: fixed_mul(along, heading.y) }),
        );
        i += 1;
    }
    positions
}

/// The direction of a body that lies at `angle` to the horizontal, for an
/// angle no greater than the greatest at which a snake is laid out anew.
pub fn small_angle_heading(angle: i64) -> (heading: Vec2)
    ensures
        heading == small_angle_heading_spec(angle as int),
        SCALE - 50 <= heading.x <= SCALE,
        -MAX_RESET_ANGLE <= heading.y <= MAX_RESET_ANGLE,
{
    let a = clamp(angle, -MAX_RESET_ANGLE, MAX_RESET_ANGLE);
    let square = wide_mul(a, a);
    assert(0 <= a * a <= 100_000_000) by (nonlinear_arith)
        requires
            -10_000 <= a <= 10_000,
    ;
    Vec2 { x: SCALE - (square / (2 * SCALE as i128)) as i64, y: a }
}

/// Where the bodies of a new snake go.
pub struct SnakeSpawnPlan {
    /// Where each segment goes, head first.
    pub positions: Vec<Vec2>,
    /// How far along its own axis each segment's end of a joint lies from
    /// the segment's centre.
    pub anchor_offset: i64,
}

/// How a snake that has strayed too far is laid out anew.
#[derive(Debug, Clone, PartialEq, Eq)]
pub struct ResetPlan {
    /// Where the head goes.
    pub base_position: Vec2,
    /// The angle of every segment to the horizontal, in millionths of a
    /// radian.
    pub angle: i64,
    /// The state to give each segment, head first: its place in the chain
    /// behind the head, at rest.
    pub segments: Vec<BodyState>,
}

/// What a snake at rest asks of its joints.
#[derive(Debug, Clone, Copy, PartialEq, Eq, Structural)]
pub struct HoldCommand {
    /// The angular velocity toward which every joint is driven.
    pub motor_velocity: i64,
    /// The greatest force with which the joints are driven.
    pub motor_max_force: i64,
}

/// What is to be done to one segment to keep it inside the world.
#[derive(Debug, Clone, Copy, PartialEq, Eq, Structural)]
pub struct SegmentAdjustment {
    /// The force that sends a segment back from beyond the margin.
    pub correction: Option<Vec2>,
    /// The velocity to give a segment beyond the margin in place of its own.
    pub damped_velocity: Option<Vec2>,
    /// The force that keeps a segment off the edges.
    pub boundary_force: Option<Vec2>,
}

/// What is to be done to a snake's segments to keep them inside the world.
pub struct SegmentsCorrection {
    /// What is to be done to each segment, head first.
    pub adjustments: Vec<SegmentAdjustment>,
    /// Where the snake is to be laid out anew, if it has strayed too far.
    pub reset: Option<ResetPlan>,
}

/// What the wave needs to know of a snake's head.
#[derive(Debug, Clone, Copy, PartialEq, Eq, Structural)]
pub struct HeadState {
    pub position: Vec2,
    pub velocity: Vec2,
    /// The direction in which the head points, a vector of length one.
    pub heading: Vec2,
    /// The angle from the heading to the desired direction, in millionths
    /// of a radian.
    pub turn: i64,
}

/// What a wiggling snake asks of the physics world.
pub struct WiggleCommand {
    /// The angular velocity to give the head.
    pub head_angular_velocity: i64,
    /// The force to add to the head, while it is slower than the greatest
    /// linear speed.
    pub head_force: Option<Vec2>,
    /// The velocity to give the head in place of its own, once it is not.
    pub head_velocity: Option<Vec2>,
    /// The angular velocity toward which each joint is driven, head first.
    pub motor_velocities: Vec<i64>,
    /// The greatest force with which the joints are driven.
    pub motor_max_force: i64,
}

/// Where a segment's distance from the centre reaches `limit`.
pub open spec fn reaches(coordinate: int, limit: int) -> bool {
    magnitude_spec(coordinate) >= limit
}

/// Whether a segment at `position` is beyond the margin.
pub open spec fn beyond_margin(position: Vec2, half_size: int, margin: int) -> bool {
    reaches(position.x as int, half_size - margin) || reaches(position.y as int, half_size - margin)
}

/// Whether a segment at `position` is so close to an edge that the snake
/// has to be laid out anew.
pub open spec fn critically_close(position: Vec2, half_size: int, margin: int) -> bool {
    beyond_margin(position, half_size, margin) && (reaches(
        position.x as int,
        half_size - div_toward_zero(margin, 2),
    ) || reaches(position.y as int, half_size - div_toward_zero(margin, 2)))
}

/// The part of the correcting force along one axis.
pub open spec fn axis_correction(coordinate: int, limit: int) -> int {
    if reaches(coordinate, limit) {
        if coordinate >= 0 {
            -CORRECTION_FORCE as int
        } else {
            CORRECTION_FORCE as int
        }
    } else {
        0
    }
}

/// Whether one of the bodies calls for the snake to be laid out anew.
pub open spec fn calls_for_reset(bodies: Seq<Option<BodyState>>, half_size: int, margin: int) -> bool {
    exists|i: int|
        0 <= i < bodies.len() && (#[trigger] bodies[i]) is Some && critically_close(
            bodies[i]->0.position,
            half_size,
            margin,
        )
}

/// What is to be done to a segment in `body`. A segment that the physics
/// world no longer has is left alone.
pub open spec fn adjustment_spec(
    body: Option<BodyState>,
    half_size: int,
    margin: int,
    reset: bool,
) -> SegmentAdjustment {
    match body {
        Some(b) => SegmentAdjustment {
            correction: if beyond_margin(b.position, half_size, margin) {
                Some(
                    Vec2 {
                        x: axis_correction(b.position.x as int, half_size - margin) as i64,
                        y: axis_correction(b.position.y as int, half_size - margin) as i64,
                    },
                )
            } else {
                None
            },
            damped_velocity: if beyond_margin(b.position, half_size, margin) {
                Some(b.velocity.scaled_spec(BOUNDARY_DAMPING as int))
            } else {
                None
            },
            boundary_force: if reset {
                None
            } else {
                boundary_force_spec(b.position, half_size, margin)
            },
        },
        None => SegmentAdjustment { correction: None, damped_velocity: None, boundary_force: None },
    }
}

/// Whether `position` is one at which a segment may be put back: inside
/// the square of half extent `half_size`, at least `margin` from its edges.
pub open spec fn is_safe_position(position: Vec2, half_size: int, margin: int) -> bool {
    &&& margin - half_size <= position.x < half_size - margin
    &&& margin - half_size <= position.y < half_size - margin
}

/// Whether a body of length `length` can be put back in the square of half
/// extent `half_size`, at least `margin` from its edges, whichever way it
/// lies.
pub open spec fn has_room(half_size: int, margin: int, length: int) -> bool {
    sat(margin - half_size + length) < sat(half_size - margin - length)
}

/// Whether `position` is one at which the head of a body of length `length`
/// may be put back: so far inside the square of safe positions that the
/// body stays inside it, whichever way it lies. In a world too small for
/// the body, only the origin is.
pub open spec fn is_safe_base(position: Vec2, half_size: int, margin: int, length: int) -> bool {
    if has_room(half_size, margin, length) {
        &&& sat(margin - half_size + length) <= position.x < sat(half_size - margin - length)
        &&& sat(margin - half_size + length) <= position.y < sat(half_size - margin - length)
    } else {
        position == Vec2::zero_spec()
    }
}

/// Whether `plan` lays the snake out anew as it should: the head where the
/// body has room, the body at a small angle, every segment in its place
/// behind the head and at rest, and, in a world with room for the body,
/// every segment at a safe position.
pub open spec fn is_reset_plan(plan: ResetPlan, snake: SnakeView, half_size: int, margin: int) -> bool {
    let length = body_length_spec(snake.segment_count as int, snake.segment_spacing as int);
    &&& is_safe_base(plan.base_position, half_size, margin, length)
    &&& -MAX_RESET_ANGLE <= plan.angle < MAX_RESET_ANGLE
    &&& plan.segments@.len() == snake.segment_count
    &&& forall|i: int|
        0 <= i < plan.segments@.len() ==> #[trigger] plan.segments@[i] == reset_state_spec(
            plan.base_position,
            plan.angle as int,
            snake.segment_spacing as int,
            i,
        )
    &&& has_room(half_size, margin, length) ==> forall|i: int|
        0 <= i < plan.segments@.len() ==> is_safe_position(
            (#[trigger] plan.segments@[i]).position,
            half_size,
            margin,
        )
}

/// Whether `target` is one that a snake may head for: inside the square of
/// half extent `half_size`. In a world without extent, only the origin is.
pub open spec fn is_wander_target(target: Vec2, half_size: int) -> bool {
    if half_size > 0 {
        -half_size <= target.x < half_size && -half_size <= target.y < half_size
    } else {
        target == Vec2::zero_spec()
    }
}

/// Whether a snake whose head is at `head` has reached `target`.
pub open spec fn has_reached(target: Option<Vec2>, head: Option<Vec2>) -> bool {
    target is Some && head is Some && closer_than(
        head->0,
        target->0,
        TARGET_REACHED_DISTANCE as int,
    )
}

/// Whether a snake is due a new target: it has none, it has reached the
/// one it has, its target is older than `threshold`, or it has been stuck
/// for longer than the limit.
pub open spec fn target_is_due_spec(
    target: Option<Vec2>,
    head: Option<Vec2>,
    age: int,
    threshold: int,
    stuck: int,
) -> bool {
    target is None || has_reached(target, head) || age > threshold || stuck > STUCK_LIMIT
}

/// Whether `after` is `before` laid out anew according to `plan`.
pub open spec fn was_reset(after: SnakeView, before: SnakeView, plan: ResetPlan) -> bool {
    after == (SnakeView {
        wiggle_timer: 0,
        stuck_timer: 0,
        target_position: None,
        target_update_timer: 0,
        last_position: plan.base_position,
        ..before
    })
}

/// Whether `after` is `before` with a new target.
pub open spec fn was_retargeted(after: SnakeView, before: SnakeView, half_size: int) -> bool {
    &&& after.target_position matches Some(target)
    &&& is_wander_target(target, half_size)
    &&& after == (SnakeView {
        target_position: after.target_position,
        target_update_timer: 0,
        stuck_timer: 0,
        ..before
    })
}

/// Whether `after` is `before` with its target renewed where that was due.
/// Chance draws the age beyond which a target is old, between the least and
/// the greatest: a target older than the greatest is renewed, one no older
/// than the least is kept unless it must go for another reason, and one in
/// between may be either.
pub open spec fn target_was_updated(
    after: SnakeView,
    before: SnakeView,
    head: Option<Vec2>,
    half_size: int,
) -> bool {
    &&& after == before || was_retargeted(after, before, half_size)
    &&& target_is_due_spec(
        before.target_position,
        head,
        before.target_update_timer as int,
        MAX_TARGET_AGE as int,
        before.stuck_timer as int,
    ) ==> was_retargeted(after, before, half_size)
    &&& !target_is_due_spec(
        before.target_position,
        head,
        before.target_update_timer as int,
        MIN_TARGET_AGE as int,
        before.stuck_timer as int,
    ) ==> after == before
}

/// The snake after a look at whether its head, now at `head`, has moved.
pub open spec fn after_stuck_check(snake: SnakeView, head: Option<Vec2>) -> SnakeView {
    match head {
        Some(position) => SnakeView {
            stuck_timer: stuck_timer_spec(
                snake.stuck_timer as int,
                snake.last_position,
                position,
            ) as u64,
            last_position: position,
            ..snake
        },
        None => snake,
    }
}

/// The wave's angle after a tick in which the snake behaves as told.
pub open spec fn wave_after(wiggle_timer: u64, chosen: Behavior, dt: u64) -> u64 {
    match chosen {
        Behavior::Wiggle(parameters) => advanced_phase_spec(
            wiggle_timer as int,
            dt as int,
            parameters.frequency_scale as int,
        ) as u64,
        Behavior::Hold => wiggle_timer,
    }
}

/// The snake at the end of a tick of length `dt`, once its segments are
/// inside the world and its target is settled: its head is checked for
/// being stuck, its timers run on, it takes its next state, and its wave
/// runs on unless it rests.
pub open spec fn after_decision(snake: SnakeView, head: Option<Vec2>, dt: u64) -> SnakeView {
    let checked = after_stuck_check(snake, head);
    let next = next_state_spec(snake.current_state, snake.attributes);
    SnakeView {
        target_update_timer: sat_unsigned(checked.target_update_timer + dt) as u64,
        rest_timer: if snake.current_state == CreatureState::Resting {
            sat_unsigned(snake.rest_timer + dt) as u64
        } else {
            0
        },
        current_state: next,
        wiggle_timer: wave_after(snake.wiggle_timer, behavior_spec(next, snake.attributes), dt),
        ..checked
    }
}

/// The head as a tick sees it: where the first body is, or where the snake
/// was just laid out anew; `None` without a first body.
pub open spec fn head_seen(bodies: Seq<Option<BodyState>>, reset: Option<ResetPlan>) -> Option<
    Vec2,
> {
    if bodies.len() > 0 && bodies[0] is Some {
        Some(
            match reset {
                Some(plan) => plan.base_position,
                None => bodies[0]->0.position,
            },
        )
    } else {
        None
    }
}

/// Whether a snake is due a new target; see `target_is_due_spec`.
pub fn target_is_due(
    target: Option<Vec2>,
    head: Option<Vec2>,
    age: u64,
    threshold: u64,
    stuck: u64,
) -> (r: bool)
    ensures
        r == target_is_due_spec(target, head, age as int, threshold as int, stuck as int),
{
    let reached = match (target, head) {
        (Some(target), Some(head)) => safety::is_closer_than(head, target, TARGET_REACHED_DISTANCE),
        _ => false,
    };
    target.is_none() || reached || age > threshold || stuck > STUCK_LIMIT
}

/// Draws the angle to the horizontal at which a new snake is spawned.
pub fn draw_spawn_angle(rng: &mut StdRng) -> (angle: i64)
    ensures
        -MAX_SPAWN_ANGLE <= angle < MAX_SPAWN_ANGLE,
{
    random_in_range(rng, -MAX_SPAWN_ANGLE, MAX_SPAWN_ANGLE)
}

/// The velocity that a head keeps when it runs into another snake.
pub fn handle_collision(head_velocity: Vec2) -> (r: Vec2)
    ensures
        r == head_velocity.scaled_spec(COLLISION_DAMPING as int),
{
    head_velocity.scaled(COLLISION_DAMPING)
}

/// The product of `a` and a factor `h` of at most one unit in magnitude is
/// at most `a` in magnitude.
pub proof fn lemma_unit_factor_shortens(a: int, h: int)
    requires
        -SCALE <= h <= SCALE,
        -0x8000_0000_0000_0000 <= a <= 0x7fff_ffff_ffff_ffff,
    ensures
        -magnitude_spec(a) <= fixed_mul_spec(a, h) <= magnitude_spec(a),
{
    let s = SCALE as int;
    let m = magnitude_spec(a);
    let p = a * h;
    assert(-(m * s) <= p <= m * s) by (nonlinear_arith)
        requires
            p == a * h,
            -s <= h <= s,
            m == if a >= 0 {
                a
            } else {
                -a
            },
    ;
    assert(m * s == s * m) by (nonlinear_arith);
    vstd::arithmetic::div_mod::lemma_div_multiples_vanish(m, s);
    if p >= 0 {
        vstd::arithmetic::div_mod::lemma_div_is_ordered(p, m * s, s);
        vstd::arithmetic::div_mod::lemma_div_pos_is_pos(p, s);
    } else {
        vstd::arithmetic::div_mod::lemma_div_is_ordered(-p, m * s, s);
        vstd::arithmetic::div_mod::lemma_div_pos_is_pos(-p, s);
    }
}

/// No segment of a chain lies farther from the first, along the chain,
/// than the last.
pub proof fn lemma_segment_within_body_length(spacing: int, count: int, i: int)
    requires
        0 <= i < count,
    ensures
        magnitude_spec(sat(i * spacing)) <= body_length_spec(count, spacing),
{
    let last = count - 1;
    if spacing >= 0 {
        assert(0 <= i * spacing <= last * spacing) by (nonlinear_arith)
            requires
                0 <= i <= last,
                spacing >= 0,
        ;
    } else {
        assert(last * spacing <= i * spacing <= 0) by (nonlinear_arith)
            requires
                0 <= i <= last,
                spacing < 0,
        ;
    }
}

/// A snake that is laid out anew in a world with room for its body has
/// every segment put at a safe position: at least the safe margin from the
/// edges of the world, wherever the head was drawn and whatever the angle.
pub proof fn lemma_reset_keeps_every_segment_safe(
    base: Vec2,
    angle: int,
    spacing: int,
    count: int,
    half_size: int,
    margin: int,
    i: int,
)
    requires
        0 <= i < count,
        has_room(half_size, margin, body_length_spec(count, spacing)),
        is_safe_base(base, half_size, margin, body_length_spec(count, spacing)),
    ensures
        is_safe_position(reset_state_spec(base, angle, spacing, i).position, half_size, margin),
{
    let heading = small_angle_heading_spec(angle);
    let a = clamp_spec(angle, -MAX_RESET_ANGLE as int, MAX_RESET_ANGLE as int);
    assert(0 <= a * a <= 100_000_000) by (nonlinear_arith)
        requires
            -10_000 <= a <= 10_000,
    ;
    let square = a * a;
    assert(0 <= square / 2_000_000 <= 50) by (nonlinear_arith)
        requires
            0 <= square <= 100_000_000,
    ;
    let along = sat(i * spacing);
    lemma_unit_factor_shortens(along, heading.x as int);
    lemma_unit_factor_shortens(along, heading.y as int);
    lemma_segment_within_body_length(spacing, count, i);
}

/// Draws a point of the square between `low` and `high`, or the origin
/// where the square is empty.
fn random_point(rng: &mut StdRng, low: i64, high: i64) -> (r: Vec2)
    ensures
        low < high ==> low <= r.x < high && low <= r.y < high,
        low >= high ==> r == Vec2::zero_spec(),
{
    if low < high {
        Vec2 { x: random_in_range(rng, low, high), y: random_in_range(rng, low, high) }
    } else {
        Vec2::zero()
    }
}

fn reaches_limit(coordinate: i64, limit: i128) -> (r: bool)
    ensures
        r == reaches(coordinate as int, limit as int),
{
    magnitude(coordinate) as i128 >= limit
}

fn correction_along(coordinate: i64, limit: i128) -> (r: i64)
    ensures
        r == axis_correction(coordinate as int, limit as int),
{
    if reaches_limit(coordinate, limit) {
        if coordinate >= 0 {
            -CORRECTION_FORCE
        } else {
            CORRECTION_FORCE
        }
    } else {
        0
    }
}

impl Snake {
    /// The margin that this snake keeps from the edges of the world.
    pub open spec fn boundary_margin_spec(self) -> int {
        fixed_mul_spec(self@.segment_radius as int, BOUNDARY_MARGIN_FACTOR as int)
    }

    /// The margin from the edges within which this snake is put back.
    pub open spec fn safe_margin_spec(self) -> int {
        fixed_mul_spec(self@.segment_radius as int, SAFE_MARGIN_FACTOR as int)
    }

    /// A snake of `segment_count` segments: not yet in the physics world,
    /// with full energy and satiety, wandering, without a target.
    pub fn new(
        segment_radius: i64,
        segment_count: usize,
        segment_spacing: i64,
        rng: &mut StdRng,
    ) -> (r: Snake)
        ensures
            r@.id == 0,
            r@.segment_handles.len() == 0,
            r@.joint_handles.len() == 0,
            r@.segment_radius == segment_radius,
            r@.segment_count == segment_count,
            r@.segment_spacing == segment_spacing,
            r@.wiggle_timer == 0,
            0 <= r@.rest_timer < MAX_INITIAL_REST,
            r@.current_state == CreatureState::Wandering,
            r@.target_position is None,
            r@.target_update_timer == 0,
            r@.last_position == Vec2::zero_spec(),
            r@.stuck_timer == 0,
            r@.max_velocity == 0,
            r@.collision_count == 0,
            r@.last_collision_time == 0,
            r@.problematic_segments.len() == 0,
            r@.attributes.wf(),
            r@.attributes.energy == MAX_ENERGY,
            r@.attributes.max_energy == MAX_ENERGY,
            r@.attributes.energy_recovery_rate == ENERGY_RECOVERY_RATE,
            r@.attributes.satiety == MAX_SATIETY,
            r@.attributes.max_satiety == MAX_SATIETY,
            r@.attributes.metabolic_rate == METABOLIC_RATE,
            r@.attributes.diet_type == DietType::Carnivore,
            r@.attributes.size == sat_unsigned(segment_count * segment_spacing),
            r@.attributes.prey_tags.deep_view() == seq!["small_fish"@, "worm"@],
            r@.attributes.self_tags.deep_view() == seq!["snake"@, "medium_predator"@],
    {
        let mut prey_tags: Vec<String> = Vec::new();
        prey_tags.push(String::from_str("small_fish"));
        prey_tags.push(String::from_str("worm"));
        let mut self_tags: Vec<String> = Vec::new();
        self_tags.push(String::from_str("snake"));
        self_tags.push(String::from_str("medium_predator"));
        assert(prey_tags.deep_view() =~= seq!["small_fish"@, "worm"@]);
        assert(self_tags.deep_view() =~= seq!["snake"@, "medium_predator"@]);
        assert(-0xffff_ffff_ffff_ffff * 0x8000_0000_0000_0000 <= segment_count * segment_spacing
            <= 0xffff_ffff_ffff_ffff * 0x7fff_ffff_ffff_ffff) by (nonlinear_arith)
            requires
                0 <= segment_count <= 0xffff_ffff_ffff_ffff,
                -0x8000_0000_0000_0000 <= segment_spacing <= 0x7fff_ffff_ffff_ffff,
        ;
        let size = saturate_unsigned((segment_count as i128) * (segment_spacing as i128));
        let attributes = CreatureAttributes::new(
            MAX_ENERGY,
            ENERGY_RECOVERY_RATE,
            MAX_SATIETY,
            METABOLIC_RATE,
            DietType::Carnivore,
            size,
            prey_tags,
            self_tags,
        );
        let rested = random_in_range(rng, 0, MAX_INITIAL_REST);
        Snake {
            id: 0,
            segment_handles: Vec::new(),
            joint_handles: Vec::new(),
            segment_radius,
            segment_count,
            segment_spacing,
            wiggle_timer: 0,
            rest_timer: rested as u64,
            attributes,
            current_state: CreatureState::Wandering,
            target_position: None,
            target_update_timer: 0,
            last_position: Vec2::zero(),
            stuck_timer: 0,
            debug_info: DebugInfo {
                max_velocity: 0,
                collision_count: 0,
                last_collision_time: 0,
                problematic_segments: Vec::new(),
            },
        }
    }

    /// Prepares this snake for the physics world under the identifier
    /// `creature_id`: forgets the bodies it had and says where the new ones
    /// go, the head at `initial_position` and the others behind it along
    /// `heading`, a vector of length one. The caller makes the bodies and
    /// hands their handles to `attach`.
    pub fn spawn_rapier(&mut self, initial_position: Vec2, heading: Vec2, creature_id: u128) -> (plan:
        SnakeSpawnPlan)
        ensures
            final(self)@ == (SnakeView {
                id: creature_id,
                segment_handles: Seq::empty(),
                joint_handles: Seq::empty(),
                ..old(self)@
            }),
            plan.anchor_offset == div_toward_zero(old(self)@.segment_spacing as int, 2),
            plan.positions@.len() == old(self)@.segment_count,
            forall|i: int|
                0 <= i < plan.positions@.len() ==> #[trigger] plan.positions@[i]
                    == chain_position_spec(
                    initial_position,
                    heading,
                    old(self)@.segment_spacing as int,
                    i,
                ),
    {
        self.id = creature_id;
        self.segment_handles = Vec::new();
        self.joint_handles = Vec::new();
        SnakeSpawnPlan {
            positions: chain_positions(
                initial_position,
                heading,
                self.segment_spacing,
                self.segment_count,
            ),
            anchor_offset: self.segment_spacing / 2,
        }
    }

    /// Lays out this snake's segments, the head at `base` and the others
    /// behind it along `heading`, a vector of length one.
    pub fn layout(&self, base: Vec2, heading: Vec2) -> (positions: Vec<Vec2>)
        ensures
            positions@.len() == self@.segment_count,
            forall|i: int|
                0 <= i < positions@.len() ==> #[trigger] positions@[i] == chain_position_spec(
                    base,
                    heading,
                    self@.segment_spacing as int,
                    i,
                ),
    {
        chain_positions(base, heading, self.segment_spacing, self.segment_count)
    }

    /// Records the handles of the bodies and joints that were made for this
    /// snake, head first.
    pub fn attach(&mut self, segment_handles: Vec<BodyHandle>, joint_handles: Vec<JointHandle>)
        ensures
            final(self)@ == (SnakeView {
                segment_handles: segment_handles@,
                joint_handles: joint_handles@,
                ..old(self)@
            }),
    {
        self.segment_handles = segment_handles;
        self.joint_handles = joint_handles;
    }

    /// Replaces this snake's attributes.
    pub fn set_attributes(&mut self, attributes: CreatureAttributes)
        ensures
            final(self)@ == (SnakeView { attributes, ..old(self)@ }),
    {
        self.attributes = attributes;
    }

    /// Lets `dt` go by for this snake's metabolism.
    pub fn update_passive_stats(&mut self, dt: u64)
        ensures
            final(self)@ == (SnakeView {
                attributes: old(self)@.attributes.after_passive_update(
                    dt,
                    old(self)@.current_state.is_resting_spec(),
                ),
                ..old(self)@
            }),
            old(self)@.attributes.wf() ==> final(self)@.attributes.wf(),
    {
        let resting = self.current_state.is_resting();
        self.attributes.update_passive_stats(dt, resting);
    }

    /// The margin that this snake keeps from the edges of the world.
    pub fn boundary_margin(&self) -> (r: i64)
        ensures
            r == self.boundary_margin_spec(),
    {
        fixed_mul(self.segment_radius, BOUNDARY_MARGIN_FACTOR)
    }

    /// The margin from the edges within which this snake is put back.
    pub fn safe_margin(&self) -> (r: i64)
        ensures
            r == self.safe_margin_spec(),
    {
        fixed_mul(self.segment_radius, SAFE_MARGIN_FACTOR)
    }

    /// Whether `pos` is inside the world, farther than this snake's margin
    /// from its edges.
    pub fn is_within_bounds(&self, pos: Vec2, world_context: &WorldContext) -> (r: bool)
        ensures
            r == within_bounds_spec(
                pos,
                half_world_spec(world_context.world_height as int),
                self.boundary_margin_spec(),
            ),
    {
        bounds::is_within_bounds(pos, half_world(world_context), self.boundary_margin())
    }

    /// Brings `pos` back inside the world, this snake's margin from its
    /// edges.
    pub fn clamp_position(&self, pos: Vec2, world_context: &WorldContext) -> (r: Vec2)
        ensures
            r == clamp_position_spec(
                pos,
                half_world_spec(world_context.world_height as int),
                self.boundary_margin_spec(),
            ),
    {
        bounds::clamp_position(pos, half_world(world_context), self.boundary_margin())
    }

    /// The force that keeps a segment at `pos` off the edges of the world.
    pub fn calculate_boundary_force(&self, pos: Vec2, world_context: &WorldContext) -> (force:
        Option<Vec2>)
        ensures
            force == boundary_force_spec(
                pos,
                half_world_spec(world_context.world_height as int),
                self.boundary_margin_spec(),
            ),
    {
        bounds::calculate_boundary_force(pos, half_world(world_context), self.boundary_margin())
    }

    /// How far this snake's last segment lies from its head, measured
    /// along the body.
    pub fn body_length(&self) -> (length: u64)
        ensures
            length == body_length_spec(
                self@.segment_count as int,
                self@.segment_spacing as int,
            ),
    {
        if self.segment_count == 0 {
            return 0;
        }
        let last = self.segment_count - 1;
        assert(-0xffff_ffff_ffff_ffff * 0x8000_0000_0000_0000 <= last * self.segment_spacing
            <= 0xffff_ffff_ffff_ffff * 0x7fff_ffff_ffff_ffff) by (nonlinear_arith)
            requires
                0 <= last <= 0xffff_ffff_ffff_ffff,
                -0x8000_0000_0000_0000 <= self.segment_spacing <= 0x7fff_ffff_ffff_ffff,
        ;
        magnitude(saturate((last as i128) * (self.segment_spacing as i128)))
    }

    /// Draws a position at which this snake's head may be put back: at
    /// least the safe margin and the body's length from the edges of the
    /// world, so that the body stays within the safe margin whichever way
    /// it lies.
    pub fn get_safe_position(&self, world_context: &WorldContext, rng: &mut StdRng) -> (position:
        Vec2)
        ensures
            is_safe_base(
                position,
                half_world_spec(world_context.world_height as int),
                self.safe_margin_spec(),
                body_length_spec(self@.segment_count as int, self@.segment_spacing as int),
            ),
    {
        let half = half_world(world_context) as i128;
        let margin = self.safe_margin() as i128;
        let length = self.body_length() as i128;
        random_point(rng, saturate(margin - half + length), saturate(half - margin - length))
    }

    /// Lays this snake out anew: chooses where its head goes, says in which
    /// state each segment is put back, and forgets the snake's target, its
    /// wave and how long it has been stuck. Every segment is put in its
    /// place behind the head, all at one small angle and at rest; in a
    /// world with room for the body, every one of them is put at a safe
    /// position. The caller gives the bodies the states of the plan.
    pub fn reset_to_safe_position(&mut self, world_context: &WorldContext, rng: &mut StdRng) -> (plan:
        ResetPlan)
        ensures
            is_reset_plan(
                plan,
                old(self)@,
                half_world_spec(world_context.world_height as int),
                old(self).safe_margin_spec(),
            ),
            was_reset(final(self)@, old(self)@, plan),
    {
        let base_position = self.get_safe_position(world_context, rng);
        let angle = random_in_range(rng, -MAX_RESET_ANGLE, MAX_RESET_ANGLE);
        let positions = self.layout(base_position, small_angle_heading(angle));
        let mut segments: Vec<BodyState> = Vec::new();
        let mut i: usize = 0;
        while i < positions.len()
            invariant
                i <= positions.len(),
                segments@.len() == i,
                forall|k: int|
                    0 <= k < i ==> #[trigger] segments@[k] == (BodyState {
                        position: positions@[k],
                        velocity: Vec2::zero_spec(),
                        angular_velocity: 0,
                    }),
            decreases positions.len() - i,
        {
            segments.push(
                BodyState { position: positions[i], velocity: Vec2::zero(), angular_velocity: 0 },
            );
            i += 1;
        }
        proof {
            let half = half_world_spec(world_context.world_height as int);
            let margin = self.safe_margin_spec();
            let spacing = self@.segment_spacing as int;
            let count = self@.segment_count as int;
            assert forall|k: int| 0 <= k < segments@.len() implies #[trigger] segments@[k]
                == reset_state_spec(base_position, angle as int, spacing, k) by {
                assert(segments@[k].position == positions@[k]);
            }
            if has_room(half, margin, body_length_spec(count, spacing)) {
                assert forall|k: int| 0 <= k < segments@.len() implies is_safe_position(
                    (#[trigger] segments@[k]).position,
                    half,
                    margin,
                ) by {
                    lemma_reset_keeps_every_segment_safe(
                        base_position,
                        angle as int,
                        spacing,
                        count,
                        half,
                        margin,
                        k,
                    );
                }
            }
        }
        self.wiggle_timer = 0;
        self.stuck_timer = 0;
        self.target_position = None;
        self.target_update_timer = 0;
        self.last_position = base_position;
        ResetPlan { base_position, angle, segments }
    }

    /// What this snake asks of its joints while it rests: every joint is
    /// driven toward standing still, with the holding force.
    pub fn hold_command(&self) -> (command: HoldCommand)
        ensures
            command == (HoldCommand { motor_velocity: 0, motor_max_force: HOLD_MOTOR_FORCE }),
    {
        HoldCommand { motor_velocity: 0, motor_max_force: HOLD_MOTOR_FORCE }
    }

    /// Looks at every segment and says what is to be done to keep it inside
    /// the world. `bodies` holds the segments head first, `None` for one
    /// that the physics world no longer has.
    ///
    /// A segment beyond the margin is sent back by a force along each axis
    /// on which it is beyond, and loses a fifth of its velocity. Where such
    /// a segment is closer to an edge than half the margin, the whole snake
    /// is laid out anew, as `reset_to_safe_position` does: the plan holds
    /// the state in which each segment is put back. Otherwise every segment
    /// near an edge is also given the boundary force.
    pub fn check_and_correct_segments(
        &mut self,
        bodies: &Vec<Option<BodyState>>,
        world_context: &WorldContext,
        rng: &mut StdRng,
    ) -> (correction: SegmentsCorrection)
        ensures
            ({
                let half = half_world_spec(world_context.world_height as int);
                let margin = old(self).boundary_margin_spec();
                &&& correction.adjustments@.len() == bodies@.len()
                &&& correction.reset is Some == calls_for_reset(bodies@, half, margin)
                &&& forall|i: int|
                    0 <= i < bodies@.len() ==> #[trigger] correction.adjustments@[i]
                        == adjustment_spec(bodies@[i], half, margin, correction.reset is Some)
                &&& correction.reset matches Some(plan) ==> {
                    &&& is_reset_plan(plan, old(self)@, half, old(self).safe_margin_spec())
                    &&& was_reset(final(self)@, old(self)@, plan)
                }
                &&& correction.reset is None ==> final(self)@ == old(self)@
            }),
    {
        let half = half_world(world_context);
        let margin = self.boundary_margin();
        let limit = half as i128 - margin as i128;
        let critical = half as i128 - (margin / 2) as i128;
        let mut needs_reset = false;
        let mut i: usize = 0;
        while i < bodies.len()
            invariant
                i <= bodies.len(),
                limit == half - margin,
                critical == half - div_toward_zero(margin as int, 2),
                needs_reset == calls_for_reset(bodies@.take(i as int), half as int, margin as int),
            decreases bodies.len() - i,
        {
            let ghost seen = bodies@.take(i as int);
            let ghost seen_next = bodies@.take(i as int + 1);
            let mut critical_here = false;
            match bodies[i] {
                Some(body) => {
                    if reaches_limit(body.position.x, limit) || reaches_limit(
                        body.position.y,
                        limit,
                    ) {
                        if reaches_limit(body.position.x, critical) || reaches_limit(
                            body.position.y,
                            critical,
                        ) {
                            critical_here = true;
                        }
                    }
                },
                None => {},
            }
            proof {
                assert(seen_next[i as int] == bodies@[i as int]);
                if critical_here {
                    assert(calls_for_reset(seen_next, half as int, margin as int));
                } else if needs_reset {
                    let w = choose|w: int|
                        0 <= w < seen.len() && (#[trigger] seen[w]) is Some && critically_close(
                            seen[w]->0.position,
                            half as int,
                            margin as int,
                        );
                    assert(seen_next[w] == seen[w]);
                } else {
                    assert forall|w: int| 0 <= w < seen_next.len() implies !((
                    #[trigger] seen_next[w]) is Some && critically_close(
                        seen_next[w]->0.position,
                        half as int,
                        margin as int,
                    )) by {
                        if w < i {
                            assert(seen[w] == seen_next[w]);
                        }
                    }
                }
            }
            if critical_here {
                needs_reset = true;
            }
            i += 1;
        }
        assert(bodies@.take(bodies.len() as int) == bodies@);
        let mut adjustments: Vec<SegmentAdjustment> = Vec::new();
        let mut k: usize = 0;
        while k < bodies.len()
            invariant
                k <= bodies.len(),
                limit == half - margin,
                adjustments@.len() == k,
                forall|m: int|
                    0 <= m < k ==> #[trigger] adjustments@[m] == adjustment_spec(
                        bodies@[m],
                        half as int,
                        margin as int,
                        needs_reset,
                    ),
            decreases bodies.len() - k,
        {
            let adjustment = match bodies[k] {
                Some(body) => {
                    let beyond = reaches_limit(body.position.x, limit) || reaches_limit(
                        body.position.y,
                        limit,
                    );
                    SegmentAdjustment {
                        correction: if beyond {
                            Some(
                                Vec2 {
                                    x: correction_along(body.position.x, limit),
                                    y: correction_along(body.position.y, limit),
                                },
                            )
                        } else {
                            None
                        },
                        damped_velocity: if beyond {
                            Some(body.velocity.scaled(BOUNDARY_DAMPING))
                        } else {
                            None
                        },
                        boundary_force: if needs_reset {
                            None
                        } else {
                            bounds::calculate_boundary_force(body.position, half, margin)
                        },
                    }
                },
                None => SegmentAdjustment {
                    correction: None,
                    damped_velocity: None,
                    boundary_force: None,
                },
            };
            adjustments.push(adjustment);
            k += 1;
        }
        let reset = if needs_reset {
            Some(self.reset_to_safe_position(world_context, rng))
        } else {
            None
        };
        SegmentsCorrection { adjustments, reset }
    }

    /// Gives this snake a new target where one is due: where it has none,
    /// where its head, at `head_position`, has reached the one it has, where
    /// it has been stuck for too long, or where its target has grown older
    /// than an age drawn between the least and the greatest.
    pub fn update_target_position(
        &mut self,
        head_position: Option<Vec2>,
        world_context: &WorldContext,
        rng: &mut StdRng,
    )
        ensures
            target_was_updated(
                final(self)@,
                old(self)@,
                head_position,
                half_world_spec(world_context.world_height as int),
            ),
    {
        let threshold = random_in_range(rng, MIN_TARGET_AGE, MAX_TARGET_AGE);
        if target_is_due(
            self.target_position,
            head_position,
            self.target_update_timer,
            threshold as u64,
            self.stuck_timer,
        ) {
            let half = half_world(world_context);
            let target = if half > 0 {
                random_point(rng, -half, half)
            } else {
                Vec2::zero()
            };
            self.target_position = Some(target);
            self.target_update_timer = 0;
            self.stuck_timer = 0;
        }
    }

    /// Notes whether the head, now at `head_position`, has moved since the
    /// last tick. Without a head nothing is noted.
    pub fn check_if_stuck(&mut self, head_position: Option<Vec2>)
        ensures
            final(self)@ == after_stuck_check(old(self)@, head_position),
    {
        match head_position {
            Some(position) => {
                self.stuck_timer = safety::stuck_timer_after(
                    self.stuck_timer,
                    self.last_position,
                    position,
                );
                self.last_position = position;
            },
            None => {},
        }
    }

    /// Where this snake is heading, if anywhere.
    pub fn target_position(&self) -> (r: Option<Vec2>)
        ensures
            r == self@.target_position,
    {
        self.target_position
    }

    /// For how long the head has not moved.
    pub fn stuck_timer(&self) -> (r: u64)
        ensures
            r == self@.stuck_timer,
    {
        self.stuck_timer
    }

    /// For how long this snake has been at rest.
    pub fn rest_timer(&self) -> (r: u64)
        ensures
            r == self@.rest_timer,
    {
        self.rest_timer
    }

    /// The segments that the last look at the snake's safety found too
    /// close to each other, pair by pair.
    pub fn problematic_segments(&self) -> (r: &[usize])
        ensures
            r@ == self@.problematic_segments,
    {
        self.debug_info.problematic_segments.as_slice()
    }

    /// How many pairs of segments were ever found too close to each other.
    pub fn collision_count(&self) -> (r: u32)
        ensures
            r == self@.collision_count,
    {
        self.debug_info.collision_count
    }

    /// The speed of the last segment that was found out of control.
    pub fn max_velocity(&self) -> (r: u64)
        ensures
            r == self@.max_velocity,
    {
        self.debug_info.max_velocity
    }

    /// The time since segments were last found too close to each other.
    pub fn last_collision_time(&self) -> (r: u64)
        ensures
            r == self@.last_collision_time,
    {
        self.debug_info.last_collision_time
    }

    /// The direction in which this snake wants its head to point: toward
    /// its target, or along `heading` where it has none.
    pub fn desired_direction(&self, head_position: Vec2, heading: Vec2) -> (direction: Vec2)
        ensures
            direction == match self@.target_position {
                Some(target) => target.minus_spec(head_position).normalized_spec(1),
                None => heading,
            },
    {
        match self.target_position {
            Some(target) => target.minus(head_position).normalized(1),
            None => heading,
        }
    }

    /// The drag on a segment of this snake that moves with `velocity` and
    /// points along `heading`.
    pub fn apply_custom_forces(&self, velocity: Vec2, heading: Vec2) -> (forces: DragForces)
        ensures
            forces == anisotropic_drag_spec(
                velocity,
                heading,
                PERPENDICULAR_DRAG as int,
                FORWARD_DRAG as int,
            ),
    {
        apply_anisotropic_drag(velocity, heading, PERPENDICULAR_DRAG, FORWARD_DRAG)
    }
}

/// What a snake is to do during a tick.
pub struct SnakePlan {
    /// What is to be done to keep the segments inside the world.
    pub corrections: SegmentsCorrection,
    /// What the snake does with its joints.
    pub behavior: Behavior,
    /// The wave's angle at each joint, head first; empty for a snake that
    /// holds still. The caller takes their sines and hands them to
    /// `apply_wiggle`.
    pub phases: Vec<u64>,
    /// Whether the look at the snake's safety found nothing: no runaway
    /// segment and no fold.
    pub is_safe: bool,
    /// Where the segments are to be, and which of them are to be brought
    /// to rest, where the snake was found folded onto itself.
    pub straightened: Option<CorrectedChain>,
}

/// The positions of the bodies, in their order.
pub open spec fn positions_of(bodies: Seq<BodyState>) -> Seq<Vec2> {
    Seq::new(bodies.len(), |i: int| bodies[i].position)
}

/// The velocities of the bodies, in their order.
pub open spec fn velocities_of(bodies: Seq<BodyState>) -> Seq<Vec2> {
    Seq::new(bodies.len(), |i: int| bodies[i].velocity)
}

/// The number of collisions counted after `pairs` more, which stops at the
/// greatest number that can be counted.
pub open spec fn collisions_after(count: int, pairs: int) -> int {
    if count + pairs > u32::MAX {
        u32::MAX as int
    } else {
        count + pairs
    }
}

/// The pairs of segments of a snake that are folded onto each other.
pub open spec fn folds_of(snake: SnakeView, bodies: Seq<BodyState>) -> Seq<usize> {
    close_pairs(
        positions_of(bodies),
        fixed_mul_spec(snake.segment_radius as int, SELF_COLLISION_FACTOR as int),
        bodies.len() as int,
    )
}

/// Whether a look at the snake's safety finds nothing: no segment faster
/// than the greatest safe speed, no two segments that are not neighbours
/// closer than the self-collision distance.
pub open spec fn is_safe_spec(snake: SnakeView, bodies: Seq<BodyState>) -> bool {
    last_runaway_speed(velocities_of(bodies), MAX_SAFE_SPEED as int) is None && folds_of(
        snake,
        bodies,
    ).len() == 0
}

/// The snake after a look at its safety: it remembers the segments of
/// every fold, counts the folds, keeps the time since the last one, and
/// remembers the speed of the last runaway segment.
pub open spec fn after_safety_check(snake: SnakeView, bodies: Seq<BodyState>, dt: u64) -> SnakeView {
    let pairs = folds_of(snake, bodies);
    SnakeView {
        problematic_segments: pairs,
        max_velocity: match last_runaway_speed(velocities_of(bodies), MAX_SAFE_SPEED as int) {
            Some(speed) => speed as u64,
            None => snake.max_velocity,
        },
        collision_count: collisions_after(
            snake.collision_count as int,
            pairs.len() as int / 2,
        ) as u32,
        last_collision_time: sat_unsigned(
            if pairs.len() > 0 {
                dt as int
            } else {
                snake.last_collision_time + dt
            },
        ) as u64,
        ..snake
    }
}

/// Whether the physics world has every one of the bodies.
pub open spec fn all_present(bodies: Seq<Option<BodyState>>) -> bool {
    forall|i: int| 0 <= i < bodies.len() ==> (#[trigger] bodies[i]) is Some
}

/// The bodies, where the physics world has every one of them.
pub open spec fn present_of(bodies: Seq<Option<BodyState>>) -> Seq<BodyState> {
    Seq::new(bodies.len(), |i: int| bodies[i]->0)
}

/// Whether a tick looks at the snake's safety: it does where the physics
/// world has every segment and the snake was not just laid out anew.
pub open spec fn safety_is_checked(bodies: Seq<Option<BodyState>>, reset: Option<ResetPlan>) -> bool {
    reset is None && all_present(bodies)
}

/// The snake after the tick's look at its safety, if there is one.
pub open spec fn after_guard(
    snake: SnakeView,
    bodies: Seq<Option<BodyState>>,
    reset: Option<ResetPlan>,
    dt: u64,
) -> SnakeView {
    if safety_is_checked(bodies, reset) {
        after_safety_check(snake, present_of(bodies), dt)
    } else {
        snake
    }
}

/// Whether a tick can take a snake from `before` to `after` by way of
/// `laid_out`, the snake once its segments are inside the world, and
/// `aimed`, the snake once its safety is looked at and its target is
/// settled.
pub open spec fn tick_steps(
    before: SnakeView,
    laid_out: SnakeView,
    aimed: SnakeView,
    after: SnakeView,
    bodies: Seq<Option<BodyState>>,
    reset: Option<ResetPlan>,
    half_size: int,
    dt: u64,
) -> bool {
    let head = head_seen(bodies, reset);
    &&& match reset {
        Some(plan) => was_reset(laid_out, before, plan),
        None => laid_out == before,
    }
    &&& target_was_updated(aimed, after_guard(laid_out, bodies, reset, dt), head, half_size)
    &&& after == after_decision(aimed, head, dt)
}

/// Where a wiggling snake's head is at `head`, what the wave asks of the
/// physics world.
pub open spec fn wiggle_command_matches(
    command: WiggleCommand,
    parameters: WiggleParameters,
    head: HeadState,
    sines: Seq<i64>,
) -> bool {
    &&& command.head_angular_velocity == head_angular_velocity_spec(head.turn as int)
    &&& command.head_force == if below_max_speed(head.velocity) {
        Some(head_thrust_spec(head.heading, parameters.amplitude_scale as int))
    } else {
        None
    }
    &&& command.head_velocity == if below_max_speed(head.velocity) {
        None
    } else {
        Some(head.velocity.scaled_spec(SPEED_DAMPING as int))
    }
    &&& command.motor_velocities@.len() == sines.len()
    &&& forall|i: int|
        0 <= i < sines.len() ==> #[trigger] command.motor_velocities@[i] == motor_target_spec(
            parameters.amplitude_scale as int,
            sines[i] as int,
        )
    &&& command.motor_max_force == WIGGLE_MOTOR_FORCE
}

fn positions(bodies: &Vec<BodyState>) -> (r: Vec<Vec2>)
    ensures
        r@ == positions_of(bodies@),
{
    let mut r: Vec<Vec2> = Vec::new();
    let mut i: usize = 0;
    while i < bodies.len()
        invariant
            i <= bodies.len(),
            r@.len() == i,
            forall|k: int| 0 <= k < i ==> #[trigger] r@[k] == bodies@[k].position,
        decreases bodies.len() - i,
    {
        r.push(bodies[i].position);
        i += 1;
    }
    assert(r@ =~= positions_of(bodies@));
    r
}

fn velocities(bodies: &Vec<BodyState>) -> (r: Vec<Vec2>)
    ensures
        r@ == velocities_of(bodies@),
{
    let mut r: Vec<Vec2> = Vec::new();
    let mut i: usize = 0;
    while i < bodies.len()
        invariant
            i <= bodies.len(),
            r@.len() == i,
            forall|k: int| 0 <= k < i ==> #[trigger] r@[k] == bodies@[k].velocity,
        decreases bodies.len() - i,
    {
        r.push(bodies[i].velocity);
        i += 1;
    }
    assert(r@ =~= velocities_of(bodies@));
    r
}

fn present_bodies(bodies: &Vec<Option<BodyState>>) -> (r: Option<Vec<BodyState>>)
    ensures
        r is Some == all_present(bodies@),
        r matches Some(present) ==> present@ == present_of(bodies@),
{
    let mut present: Vec<BodyState> = Vec::new();
    let mut i: usize = 0;
    while i < bodies.len()
        invariant
            i <= bodies.len(),
            present@.len() == i,
            forall|k: int| 0 <= k < i ==> (#[trigger] bodies@[k]) is Some,
            forall|k: int| 0 <= k < i ==> #[trigger] present@[k] == bodies@[k]->0,
        decreases bodies.len() - i,
    {
        match bodies[i] {
            Some(body) => {
                present.push(body);
            },
            None => {
                return None;
            },
        }
        i += 1;
    }
    assert(present@ =~= present_of(bodies@));
    Some(present)
}

impl Snake {
    /// Looks for runaway speed and for segments folded onto each other
    /// among `bodies`, the segments that the physics world has, head first.
    /// The snake is safe when no segment is faster than the greatest safe
    /// speed and no two segments that are not neighbours are closer than
    /// the self-collision distance.
    ///
    /// The snake remembers the segments of every such pair, counts the
    /// pairs, and keeps the time since the last one; `dt` is added to it.
    /// It also remembers the speed of the last runaway segment.
    pub fn check_safety(&mut self, bodies: &Vec<BodyState>, dt: u64) -> (is_safe: bool)
        ensures
            is_safe == is_safe_spec(old(self)@, bodies@),
            final(self)@ == after_safety_check(old(self)@, bodies@, dt),
    {
        let limit = fixed_mul(self.segment_radius, SELF_COLLISION_FACTOR);
        let runaway = safety::find_runaway_speed(&velocities(bodies), MAX_SAFE_SPEED);
        let pairs = safety::find_close_pairs(&positions(bodies), limit);
        match runaway {
            Some(speed) => {
                self.debug_info.max_velocity = speed;
            },
            None => {},
        }
        let found = pairs.len() / 2;
        if pairs.len() > 0 {
            self.debug_info.last_collision_time = 0;
        }
        self.debug_info.collision_count = if found > (u32::MAX - self.debug_info.collision_count)
            as usize {
            u32::MAX
        } else {
            self.debug_info.collision_count + found as u32
        };
        self.debug_info.last_collision_time = unsigned_add(
            self.debug_info.last_collision_time,
            dt,
        );
        let is_safe = runaway.is_none() && pairs.len() == 0;
        self.debug_info.problematic_segments = pairs;
        is_safe
    }

    /// Straightens the segments that `check_safety` found folded, given
    /// where every segment is now. Without such segments there is nothing
    /// to do.
    pub fn correct_problematic_state(&self, positions: &Vec<Vec2>) -> (chain: Option<
        CorrectedChain,
    >)
        ensures
            self@.problematic_segments.len() == 0 ==> chain is None,
            self@.problematic_segments.len() > 0 ==> chain is Some && chain->0.positions@
                == straighten_all(positions@, self@.problematic_segments)
                && chain->0.stopped@.len() == positions@.len() && forall|k: int|
                0 <= k < positions@.len() ==> (#[trigger] chain->0.stopped@[k]
                    <==> self@.problematic_segments.contains(k as usize)),
    {
        if self.debug_info.problematic_segments.len() == 0 {
            None
        } else {
            Some(safety::straighten(positions, &self.debug_info.problematic_segments))
        }
    }

    /// Lets the wave run on for `dt` and returns its angle at each joint.
    pub fn begin_wiggle(&mut self, dt: u64, frequency_scale: u64) -> (phases: Vec<u64>)
        ensures
            final(self)@ == (SnakeView {
                wiggle_timer: advanced_phase_spec(
                    old(self)@.wiggle_timer as int,
                    dt as int,
                    frequency_scale as int,
                ) as u64,
                ..old(self)@
            }),
            phases@.len() == joint_count_spec(old(self)@.segment_count as int),
            forall|i: int|
                0 <= i < phases@.len() ==> #[trigger] phases@[i] == joint_phase_spec(
                    final(self)@.wiggle_timer as int,
                    old(self)@.id as int,
                    old(self)@.segment_count as int,
                    i,
                ),
    {
        self.wiggle_timer = wiggle::advance_phase(self.wiggle_timer, dt, frequency_scale);
        wiggle::joint_phases(self.wiggle_timer, self.id, self.segment_count)
    }

    /// Moves this snake for one tick: turns and pushes its head, drives its
    /// joints and pays for the movement in energy. `head` says where the
    /// head is, or is `None` where the physics world no longer has it; then
    /// nothing happens. `sines` holds the sine of the wave's angle at each
    /// joint.
    ///
    /// The head is turned toward the desired direction, no faster than the
    /// greatest angular velocity. While it is slower than the greatest
    /// linear speed it is pushed along its heading; once it is not, it is
    /// slowed. Each joint is driven toward its share of the wave. The energy
    /// spent is the sum of the joints' speeds times the base cost, the
    /// energy cost scale and `dt`.
    pub fn apply_wiggle(
        &mut self,
        dt: u64,
        parameters: WiggleParameters,
        head: Option<HeadState>,
        sines: &Vec<i64>,
    ) -> (command: Option<WiggleCommand>)
        ensures
            old(self)@.attributes.wf() ==> final(self)@.attributes.wf(),
            head is None ==> command is None && final(self)@ == old(self)@,
            head matches Some(h) ==> {
                &&& command matches Some(c)
                &&& wiggle_command_matches(c, parameters, h, sines@)
                &&& final(self)@ == (SnakeView {
                    attributes: old(self)@.attributes.after_consume_energy(
                        energy_cost_spec(
                            c.motor_velocities@,
                            parameters.energy_cost_scale as int,
                            dt as int,
                        ) as u64,
                    ),
                    ..old(self)@
                })
            },
    {
        match head {
            None => None,
            Some(h) => {
                let slow = wiggle::is_below_max_speed(h.velocity);
                let motor_velocities = wiggle::motor_targets(parameters.amplitude_scale, sines);
                let cost = wiggle::wiggle_energy_cost(
                    &motor_velocities,
                    parameters.energy_cost_scale,
                    dt,
                );
                self.attributes.consume_energy(cost);
                Some(
                    WiggleCommand {
                        head_angular_velocity: wiggle::head_angular_velocity(h.turn),
                        head_force: if slow {
                            Some(wiggle::head_thrust(h.heading, parameters.amplitude_scale))
                        } else {
                            None
                        },
                        head_velocity: if slow {
                            None
                        } else {
                            Some(h.velocity.scaled(SPEED_DAMPING))
                        },
                        motor_velocities,
                        motor_max_force: WIGGLE_MOTOR_FORCE,
                    },
                )
            },
        }
    }

    /// Decides this snake's state for the tick and plans what it does.
    /// `bodies` holds the segments head first, `None` for one that the
    /// physics world no longer has.
    ///
    /// First the segments are kept inside the world, as
    /// `check_and_correct_segments` does. Where the physics world has every
    /// segment and the snake was not just laid out anew, the snake is looked
    /// over for runaway speed and folds, as `check_safety` does, and what is
    /// folded is straightened. Then the target is renewed where it is due,
    /// the head is checked for being stuck, the timers run on and the state
    /// is chosen. A snake that does not rest lets its wave run on; the plan
    /// holds the wave's angle at each joint. The attributes do not change:
    /// the energy that the movement costs is spent in `apply_wiggle`.
    pub fn update_state_and_behavior(
        &mut self,
        dt: u64,
        bodies: &Vec<Option<BodyState>>,
        world_context: &WorldContext,
        rng: &mut StdRng,
    ) -> (plan: SnakePlan)
        ensures
            ({
                let half = half_world_spec(world_context.world_height as int);
                let margin = old(self).boundary_margin_spec();
                let before = old(self)@;
                let after = final(self)@;
                let reset = plan.corrections.reset;
                let checked = safety_is_checked(bodies@, reset);
                let folds = folds_of(before, present_of(bodies@));
                &&& plan.corrections.adjustments@.len() == bodies@.len()
                &&& reset is Some == calls_for_reset(bodies@, half, margin)
                &&& forall|i: int|
                    0 <= i < bodies@.len() ==> #[trigger] plan.corrections.adjustments@[i]
                        == adjustment_spec(bodies@[i], half, margin, reset is Some)
                &&& reset matches Some(r) ==> is_reset_plan(
                    r,
                    before,
                    half,
                    old(self).safe_margin_spec(),
                )
                &&& plan.is_safe == (checked ==> is_safe_spec(before, present_of(bodies@)))
                &&& plan.straightened is Some == (checked && folds.len() > 0)
                &&& plan.straightened matches Some(chain) ==> {
                    &&& chain.positions@ == straighten_all(
                        positions_of(present_of(bodies@)),
                        folds,
                    )
                    &&& chain.stopped@.len() == bodies@.len()
                    &&& forall|k: int|
                        0 <= k < bodies@.len() ==> (#[trigger] chain.stopped@[k]
                            <==> folds.contains(k as usize))
                }
                &&& exists|laid_out: SnakeView, aimed: SnakeView| #[trigger]
                    tick_steps(before, laid_out, aimed, after, bodies@, reset, half, dt)
                &&& after.attributes == before.attributes
                &&& after.current_state == next_state_spec(before.current_state, before.attributes)
                &&& plan.behavior == behavior_spec(after.current_state, before.attributes)
                &&& plan.phases@.len() == match plan.behavior {
                    Behavior::Wiggle(_) => joint_count_spec(before.segment_count as int),
                    Behavior::Hold => 0,
                }
                &&& forall|i: int|
                    0 <= i < plan.phases@.len() ==> #[trigger] plan.phases@[i] == joint_phase_spec(
                        after.wiggle_timer as int,
                        before.id as int,
                        before.segment_count as int,
                        i,
                    )
            }),
    {
        let ghost before = self@;
        let corrections = self.check_and_correct_segments(bodies, world_context, rng);
        let ghost laid_out = self@;
        let mut is_safe = true;
        let mut straightened: Option<CorrectedChain> = None;
        if corrections.reset.is_none() {
            match present_bodies(bodies) {
                Some(present) => {
                    is_safe = self.check_safety(&present, dt);
                    straightened = self.correct_problematic_state(&positions(&present));
                },
                None => {},
            }
        }
        let ghost guarded = self@;
        let head_position = if bodies.len() > 0 {
            match bodies[0] {
                Some(body) => match &corrections.reset {
                    Some(r) => Some(r.base_position),
                    None => Some(body.position),
                },
                None => None,
            }
        } else {
            None
        };
        self.update_target_position(head_position, world_context, rng);
        let ghost aimed = self@;
        self.check_if_stuck(head_position);
        self.target_update_timer = unsigned_add(self.target_update_timer, dt);
        if self.current_state.is_resting() {
            self.rest_timer = unsigned_add(self.rest_timer, dt);
        } else {
            self.rest_timer = 0;
        }
        self.current_state = next_state(self.current_state, &self.attributes);
        let chosen = behavior(self.current_state, &self.attributes);
        let phases = match chosen {
            Behavior::Wiggle(parameters) => self.begin_wiggle(dt, parameters.frequency_scale),
            Behavior::Hold => Vec::new(),
        };
        proof {
            assert(head_position == head_seen(bodies@, corrections.reset));
            assert(guarded == after_guard(laid_out, bodies@, corrections.reset, dt));
            assert(self@ == after_decision(aimed, head_position, dt));
            assert(tick_steps(
                before,
                laid_out,
                aimed,
                self@,
                bodies@,
                corrections.reset,
                half_world_spec(world_context.world_height as int),
                dt,
            ));
        }
        SnakePlan { corrections, behavior: chosen, phases, is_safe, straightened }
    }
}

impl Creature for Snake {
    fn id(&self) -> (r: u128)
        ensures
            r == self@.id,
    {
        self.id
    }

    fn get_rigid_body_handles(&self) -> (r: &[BodyHandle])
        ensures
            r@ == self@.segment_handles,
    {
        self.segment_handles.as_slice()
    }

    fn get_joint_handles(&self) -> (r: &[JointHandle])
        ensures
            r@ == self@.joint_handles,
    {
        self.joint_handles.as_slice()
    }

    fn attributes(&self) -> (r: &CreatureAttributes)
        ensures
            *r == self@.attributes,
    {
        &self.attributes
    }

    fn attributes_mut(&mut self) -> (r: &mut CreatureAttributes)
        ensures
            *r == old(self)@.attributes,
            final(self)@ == (SnakeView { attributes: *final(r), ..old(self)@ }),
    {
        &mut self.attributes
    }

    fn drawing_radius(&self) -> (r: i64)
        ensures
            r == self@.segment_radius,
    {
        self.segment_radius
    }

    fn species_name(&self) -> (r: &'static str)
        ensures
            r@ == "Snake"@,
    {
        "Snake"
    }

    fn current_state(&self) -> (r: CreatureState)
        ensures
            r == self@.current_state,
    {
        self.current_state
    }
}

} // verus!
