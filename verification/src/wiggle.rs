//! The travelling wave that moves a snake.
//!
//! Each joint between two segments is driven toward an angular velocity
//! that follows a sine. The sine's angle advances with time and is shifted
//! from joint to joint, so that a wave runs down the body; a further shift
//! that depends on the creature's identifier keeps two snakes from moving in
//! step. The library computes the angles and what follows from the sines;
//! the sines themselves are taken by the caller.
//!
//! Angles are in millionths of a radian and are kept within one turn.

use crate::fixed::{
    clamp, clamp_spec, fixed_mul, fixed_mul_spec, magnitude, magnitude_spec, sat, sat_unsigned,
    unsigned_add, unsigned_mul, unsigned_mul_spec, SCALE,
};
use crate::vec2::Vec2;
use vstd::prelude::*;

verus! {

/// One full turn.
pub const TAU: u64 = 6_283_185;

/// How many waves lie along the body at once.
pub const WAVE_COUNT: u64 = 1_000_000;

/// The shift of the wave per unit of a creature's identifier.
pub const ID_PHASE_STEP: u64 = 100_000;

/// The angular velocity of a joint at the crest of the wave, for an
/// amplitude scale of one.
pub const MOTOR_AMPLITUDE: u64 = 10_000;

/// No joint is ever driven faster than this.
pub const MAX_MOTOR_VELOCITY: i64 = 50_000;

/// The greatest force with which a joint follows the wave.
pub const WIGGLE_MOTOR_FORCE: i64 = 100_000;

/// The greatest force with which a resting snake holds its joints still.
pub const HOLD_MOTOR_FORCE: i64 = 2_000_000;

/// The energy that one unit of joint speed costs per second, for an energy
/// cost scale of one.
pub const BASE_ENERGY_COST: u64 = 10_000_000;

/// The head never turns toward its target by more than this in one tick.
pub const MAX_TURN: i64 = 20_000;

/// The share of the remaining turn that becomes angular velocity.
pub const TURN_GAIN: i64 = 100_000;

/// The head is never spun faster than this.
pub const MAX_ANGULAR_VELOCITY: i64 = 300_000;

/// The forward force on the head, for an amplitude scale of one.
pub const THRUST: u64 = 200_000;

/// The forward force on the head never exceeds this.
pub const MAX_THRUST: u64 = 1_000_000;

/// At this speed and beyond the head is no longer pushed but slowed.
pub const MAX_LINEAR_SPEED: i64 = 2_000_000;

/// The share of its velocity that a head keeps when it is slowed.
pub const SPEED_DAMPING: i64 = 800_000;

/// The wave's angle after `dt` has gone by at `frequency_scale`.
pub open spec fn advanced_phase_spec(phase: int, dt: int, frequency_scale: int) -> int {
    (phase % (TAU as int) + unsigned_mul_spec(dt, frequency_scale) % (TAU as int)) % (TAU as int)
}

/// The shift of the wave for the creature `id`.
pub open spec fn id_offset_spec(id: int) -> int {
    ((id % (TAU as int)) * ID_PHASE_STEP) % (TAU as int)
}

/// The shift of the wave from one joint to the next in a body of
/// `segment_count` segments.
pub open spec fn phase_step_spec(segment_count: int) -> int {
    if segment_count <= 1 {
        0
    } else {
        unsigned_mul_spec(TAU as int, WAVE_COUNT as int) / (segment_count - 1)
    }
}

/// The number of joints in a body of `segment_count` segments.
pub open spec fn joint_count_spec(segment_count: int) -> int {
    if segment_count <= 1 {
        0
    } else {
        segment_count - 1
    }
}

/// The wave's angle at joint `i`.
pub open spec fn joint_phase_spec(phase: int, id: int, segment_count: int, i: int) -> int {
    (phase % (TAU as int) + (i * phase_step_spec(segment_count)) % (TAU as int) + id_offset_spec(
        id,
    )) % (TAU as int)
}

/// The angular velocity of a joint at the crest of the wave.
pub open spec fn wave_amplitude_spec(amplitude_scale: int) -> int {
    sat(unsigned_mul_spec(MOTOR_AMPLITUDE as int, amplitude_scale))
}

/// The angular velocity toward which a joint is driven where the sine of
/// its angle is `sine`. A sine beyond one unit counts as one unit.
pub open spec fn motor_target_spec(amplitude_scale: int, sine: int) -> int {
    clamp_spec(
        fixed_mul_spec(
            wave_amplitude_spec(amplitude_scale),
            clamp_spec(sine, -SCALE as int, SCALE as int),
        ),
        -MAX_MOTOR_VELOCITY as int,
        MAX_MOTOR_VELOCITY as int,
    )
}

/// The sum of the absolute values of the joints' target velocities.
pub open spec fn total_effort_spec(targets: Seq<i64>) -> int
    decreases targets.len(),
{
    if targets.len() == 0 {
        0
    } else {
        total_effort_spec(targets.drop_last()) + magnitude_spec(targets.last() as int)
    }
}

/// The energy that driving the joints toward `targets` for `dt` costs.
pub open spec fn energy_cost_spec(targets: Seq<i64>, energy_cost_scale: int, dt: int) -> int {
    unsigned_mul_spec(
        unsigned_mul_spec(
            unsigned_mul_spec(sat_unsigned(total_effort_spec(targets)), BASE_ENERGY_COST as int),
            energy_cost_scale,
        ),
        dt,
    )
}

/// The angular velocity given to a head that would have to turn by `turn`
/// to face its target.
pub open spec fn head_angular_velocity_spec(turn: int) -> int {
    clamp_spec(
        fixed_mul_spec(clamp_spec(turn, -MAX_TURN as int, MAX_TURN as int), TURN_GAIN as int),
        -MAX_ANGULAR_VELOCITY as int,
        MAX_ANGULAR_VELOCITY as int,
    )
}

/// The size of the forward force on the head.
pub open spec fn thrust_size_spec(amplitude_scale: int) -> int {
    if unsigned_mul_spec(THRUST as int, amplitude_scale) > MAX_THRUST {
        MAX_THRUST as int
    } else {
        unsigned_mul_spec(THRUST as int, amplitude_scale)
    }
}

/// The forward force on a head that points along `heading`.
pub open spec fn head_thrust_spec(heading: Vec2, amplitude_scale: int) -> Vec2 {
    heading.scaled_spec(thrust_size_spec(amplitude_scale))
}

/// Whether a body that moves with `velocity` is slower than the greatest
/// linear speed.
pub open spec fn below_max_speed(velocity: Vec2) -> bool {
    velocity.norm_squared_spec() < MAX_LINEAR_SPEED * MAX_LINEAR_SPEED
}

/// Advances the wave's angle by `dt` at `frequency_scale`.
pub fn advance_phase(phase: u64, dt: u64, frequency_scale: u64) -> (r: u64)
    ensures
        r == advanced_phase_spec(phase as int, dt as int, frequency_scale as int),
        r < TAU,
{
    (phase % TAU + unsigned_mul(dt, frequency_scale) % TAU) % TAU
}

/// The shift of the wave for the creature `id`.
pub fn id_offset(id: u128) -> (r: u64)
    ensures
        r == id_offset_spec(id as int),
        r < TAU,
{
    let reduced = (id % (TAU as u128)) as u64;
    ((reduced * ID_PHASE_STEP) % TAU) as u64
}

/// The shift of the wave from one joint to the next.
pub fn phase_step(segment_count: usize) -> (r: u64)
    ensures
        r == phase_step_spec(segment_count as int),
        r <= TAU,
{
    if segment_count <= 1 {
        0
    } else {
        let along = unsigned_mul(TAU, WAVE_COUNT);
        assert(along == TAU) by {
            assert((TAU * WAVE_COUNT) / (SCALE as int) == TAU) by (nonlinear_arith)
                requires
                    TAU == 6_283_185,
                    WAVE_COUNT == 1_000_000,
                    SCALE == 1_000_000,
            ;
        }
        let joints = (segment_count - 1) as u64;
        assert(along / joints <= along) by (nonlinear_arith)
            requires
                joints >= 1,
                along >= 0,
        ;
        along / joints
    }
}

/// The wave's angle at each joint of the creature `id`, head first.
pub fn joint_phases(phase: u64, id: u128, segment_count: usize) -> (phases: Vec<u64>)
    ensures
        phases@.len() == joint_count_spec(segment_count as int),
        forall|i: int|
            0 <= i < phases@.len() ==> #[trigger] phases@[i] == joint_phase_spec(
                phase as int,
                id as int,
                segment_count as int,
                i,
            ),
        forall|i: int| 0 <= i < phases@.len() ==> #[trigger] phases@[i] < TAU,
{
    let mut phases: Vec<u64> = Vec::new();
    if segment_count <= 1 {
        return phases;
    }
    let step = phase_step(segment_count);
    let offset = id_offset(id);
    let base = phase % TAU;
    let joints = segment_count - 1;
    let mut i: usize = 0;
    while i < joints
        invariant
            i <= joints,
            joints == segment_count - 1,
            segment_count > 1,
            step == phase_step_spec(segment_count as int),
            step <= TAU,
            offset == id_offset_spec(id as int),
            offset < TAU,
            base == phase % TAU,
            phases@.len() == i,
            forall|k: int|
                0 <= k < i ==> #[trigger] phases@[k] == joint_phase_spec(
                    phase as int,
                    id as int,
                    segment_count as int,
                    k,
                ),
            forall|k: int| 0 <= k < i ==> #[trigger] phases@[k] < TAU,
        decreases joints - i,
    {
        assert(0 <= i * step <= 0xffff_ffff_ffff_ffff * 6_283_185) by (nonlinear_arith)
            requires
                0 <= i <= 0xffff_ffff_ffff_ffff,
                0 <= step <= 6_283_185,
        ;
        let along = ((i as u128) * (step as u128) % (TAU as u128)) as u64;
        phases.push((base + along + offset) % TAU);
        i += 1;
    }
    phases
}

/// The angular velocities toward which the joints are driven, given the
/// sine of each joint's angle. No target exceeds the greatest motor
/// velocity.
pub fn motor_targets(amplitude_scale: u64, sines: &Vec<i64>) -> (targets: Vec<i64>)
    ensures
        targets@.len() == sines@.len(),
        forall|i: int|
            0 <= i < targets@.len() ==> #[trigger] targets@[i] == motor_target_spec(
                amplitude_scale as int,
                sines@[i] as int,
            ),
        forall|i: int|
            0 <= i < targets@.len() ==> -MAX_MOTOR_VELOCITY <= #[trigger] targets@[i]
                <= MAX_MOTOR_VELOCITY,
{
    let scaled = unsigned_mul(MOTOR_AMPLITUDE, amplitude_scale);
    let amplitude: i64 = if scaled > i64::MAX as u64 {
        i64::MAX
    } else {
        scaled as i64
    };
    let mut targets: Vec<i64> = Vec::new();
    let mut i: usize = 0;
    while i < sines.len()
        invariant
            i <= sines.len(),
            amplitude == wave_amplitude_spec(amplitude_scale as int),
            targets@.len() == i,
            forall|k: int|
                0 <= k < i ==> #[trigger] targets@[k] == motor_target_spec(
                    amplitude_scale as int,
                    sines@[k] as int,
                ),
        decreases sines.len() - i,
    {
        let sine = clamp(sines[i], -SCALE, SCALE);
        targets.push(clamp(fixed_mul(amplitude, sine), -MAX_MOTOR_VELOCITY, MAX_MOTOR_VELOCITY));
        i += 1;
    }
    targets
}

/// The sum of the absolute values of the joints' target velocities.
pub fn total_effort(targets: &Vec<i64>) -> (effort: u64)
    ensures
        effort == sat_unsigned(total_effort_spec(targets@)),
{
    let mut effort: u64 = 0;
    let mut i: usize = 0;
    while i < targets.len()
        invariant
            i <= targets.len(),
            effort == sat_unsigned(total_effort_spec(targets@.take(i as int))),
            total_effort_spec(targets@.take(i as int)) >= 0,
        decreases targets.len() - i,
    {
        proof {
            assert(targets@.take(i as int + 1).drop_last() == targets@.take(i as int));
            assert(targets@.take(i as int + 1).last() == targets@[i as int]);
        }
        effort = unsigned_add(effort, magnitude(targets[i]));
        i += 1;
    }
    assert(targets@.take(targets.len() as int) == targets@);
    effort
}

/// The energy that driving the joints toward `targets` for `dt` costs.
pub fn wiggle_energy_cost(targets: &Vec<i64>, energy_cost_scale: u64, dt: u64) -> (cost: u64)
    ensures
        cost == energy_cost_spec(targets@, energy_cost_scale as int, dt as int),
{
    unsigned_mul(
        unsigned_mul(unsigned_mul(total_effort(targets), BASE_ENERGY_COST), energy_cost_scale),
        dt,
    )
}

/// The angular velocity to give a head that would have to turn by `turn`
/// to face its target.
pub fn head_angular_velocity(turn: i64) -> (r: i64)
    ensures
        r == head_angular_velocity_spec(turn as int),
        -MAX_ANGULAR_VELOCITY <= r <= MAX_ANGULAR_VELOCITY,
{
    clamp(
        fixed_mul(clamp(turn, -MAX_TURN, MAX_TURN), TURN_GAIN),
        -MAX_ANGULAR_VELOCITY,
        MAX_ANGULAR_VELOCITY,
    )
}

/// The forward force on a head that points along `heading`.
pub fn head_thrust(heading: Vec2, amplitude_scale: u64) -> (force: Vec2)
    ensures
        force == head_thrust_spec(heading, amplitude_scale as int),
{
    let wanted = unsigned_mul(THRUST, amplitude_scale);
    let size: i64 = if wanted > MAX_THRUST {
        MAX_THRUST as i64
    } else {
        wanted as i64
    };
    heading.scaled(size)
}

/// Whether a body that moves with `velocity` is slower than the greatest
/// linear speed.
pub fn is_below_max_speed(velocity: Vec2) -> (r: bool)
    ensures
        r == below_max_speed(velocity),
{
    velocity.norm_squared() < (MAX_LINEAR_SPEED as u128) * (MAX_LINEAR_SPEED as u128)
}

/// The forward force on a head whose heading has no component beyond one
/// unit has no component beyond the greatest thrust, however large the
/// amplitude scale.
pub proof fn lemma_thrust_within_maximum(heading: Vec2, amplitude_scale: int)
    requires
        -SCALE <= heading.x <= SCALE,
        -SCALE <= heading.y <= SCALE,
    ensures
        -MAX_THRUST <= head_thrust_spec(heading, amplitude_scale).x <= MAX_THRUST,
        -MAX_THRUST <= head_thrust_spec(heading, amplitude_scale).y <= MAX_THRUST,
{
    crate::vec2::lemma_scaled_unit_within_strength(heading, thrust_size_spec(amplitude_scale));
}

} // verus!
