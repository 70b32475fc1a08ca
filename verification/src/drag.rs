//! Drag that depends on direction: a long body meets more resistance
//! moving sideways than moving along its length.
//!
//! Each of the two forces opposes one component of the velocity and grows
//! with the square of that component. A force that cannot be represented,
//! because a step of its computation does not fit in 64 bits, is not
//! applied.

use crate::fixed::{checked_fixed_mul, checked_mul_spec, fits, magnitude_spec, SCALE};
use crate::vec2::Vec2;
use vstd::prelude::*;

verus! {

/// The two drag forces on one body. A force that is `None` is not applied.
#[derive(Debug, Clone, Copy, PartialEq, Eq, Structural)]
pub struct DragForces {
    /// The force that opposes sideways motion.
    pub perpendicular: Option<Vec2>,
    /// The force that opposes motion along the body.
    pub forward: Option<Vec2>,
}

/// A drag coefficient as it is used: a negative one counts as zero.
pub open spec fn usable_coefficient(coefficient: int) -> int {
    if coefficient < 0 {
        0
    } else {
        coefficient
    }
}

/// The signed size of the drag on a body that moves at `speed` along one
/// axis: the coefficient times the speed times its absolute value.
pub open spec fn drag_magnitude_spec(coefficient: int, speed: int) -> Option<int> {
    match checked_mul_spec(usable_coefficient(coefficient), speed) {
        Some(once) => if fits(magnitude_spec(speed)) {
            checked_mul_spec(once, magnitude_spec(speed))
        } else {
            None
        },
        None => None,
    }
}

/// One component of the force of signed size `magnitude` against the
/// direction component `direction`.
pub open spec fn opposing_spec(magnitude: int, direction: int) -> Option<int> {
    match checked_mul_spec(magnitude, direction) {
        Some(along) => if fits(-along) {
            Some(-along)
        } else {
            None
        },
        None => None,
    }
}

/// The drag along `axis` on a body that moves with `velocity`.
pub open spec fn axis_drag_spec(velocity: Vec2, axis: Vec2, coefficient: int) -> Option<Vec2> {
    match drag_magnitude_spec(coefficient, velocity.dot_spec(axis)) {
        Some(magnitude) => match (
            opposing_spec(magnitude, axis.x as int),
            opposing_spec(magnitude, axis.y as int),
        ) {
            (Some(x), Some(y)) => Some(Vec2 { x: x as i64, y: y as i64 }),
            _ => None,
        },
        None => None,
    }
}

/// The two drag forces on a body that moves with `velocity` and points
/// along `heading`.
pub open spec fn anisotropic_drag_spec(
    velocity: Vec2,
    heading: Vec2,
    perp_drag_coeff: int,
    forward_drag_coeff: int,
) -> DragForces {
    DragForces {
        perpendicular: axis_drag_spec(velocity, heading.perpendicular_spec(), perp_drag_coeff),
        forward: axis_drag_spec(velocity, heading, forward_drag_coeff),
    }
}

fn drag_magnitude(coefficient: i64, speed: i64) -> (r: Option<i64>)
    ensures
        r matches Some(m) ==> drag_magnitude_spec(coefficient as int, speed as int) == Some(
            m as int,
        ),
        r is None ==> drag_magnitude_spec(coefficient as int, speed as int) is None,
{
    let usable = if coefficient < 0 {
        0
    } else {
        coefficient
    };
    match checked_fixed_mul(usable, speed) {
        Some(once) => {
            if speed == i64::MIN {
                None
            } else {
                let size = if speed < 0 {
                    -speed
                } else {
                    speed
                };
                checked_fixed_mul(once, size)
            }
        },
        None => None,
    }
}

fn opposing(magnitude: i64, direction: i64) -> (r: Option<i64>)
    ensures
        r matches Some(c) ==> opposing_spec(magnitude as int, direction as int) == Some(c as int),
        r is None ==> opposing_spec(magnitude as int, direction as int) is None,
{
    match checked_fixed_mul(magnitude, direction) {
        Some(along) => if along == i64::MIN {
            None
        } else {
            Some(-along)
        },
        None => None,
    }
}

fn axis_drag(velocity: Vec2, axis: Vec2, coefficient: i64) -> (r: Option<Vec2>)
    ensures
        r == axis_drag_spec(velocity, axis, coefficient as int),
{
    match drag_magnitude(coefficient, velocity.dot(axis)) {
        Some(magnitude) => {
            let x = opposing(magnitude, axis.x);
            let y = opposing(magnitude, axis.y);
            match (x, y) {
                (Some(x), Some(y)) => Some(Vec2 { x, y }),
                _ => None,
            }
        },
        None => None,
    }
}

/// Calculates the drag on a body that moves with `velocity` and points
/// along `heading`, a vector of length one. Sideways motion is opposed with
/// `perp_drag_coeff`, motion along the body with `forward_drag_coeff`; a
/// negative coefficient counts as zero.
pub fn apply_anisotropic_drag(
    velocity: Vec2,
    heading: Vec2,
    perp_drag_coeff: i64,
    forward_drag_coeff: i64,
) -> (forces: DragForces)
    ensures
        forces == anisotropic_drag_spec(
            velocity,
            heading,
            perp_drag_coeff as int,
            forward_drag_coeff as int,
        ),
{
    DragForces {
        perpendicular: axis_drag(velocity, heading.perpendicular(), perp_drag_coeff),
        forward: axis_drag(velocity, heading, forward_drag_coeff),
    }
}

/// A body at rest along an axis meets no drag along it.
pub proof fn lemma_no_speed_no_drag(velocity: Vec2, axis: Vec2, coefficient: int)
    requires
        velocity.dot_spec(axis) == 0,
    ensures
        axis_drag_spec(velocity, axis, coefficient) == Some(Vec2::zero_spec()),
{
    let usable = usable_coefficient(coefficient);
    assert(usable * 0 == 0) by (nonlinear_arith);
    assert(checked_mul_spec(usable, 0) == Some(0int));
    assert(0int * 0int == 0) by (nonlinear_arith);
    assert(drag_magnitude_spec(coefficient, 0) == Some(0int));
    assert(0 * (axis.x as int) == 0 && 0 * (axis.y as int) == 0) by (nonlinear_arith);
}

/// A body that moves purely forward, its velocity along its heading, meets
/// no sideways drag.
pub proof fn lemma_forward_motion_has_no_perpendicular_drag(
    velocity: Vec2,
    heading: Vec2,
    perp_drag_coeff: int,
    forward_drag_coeff: int,
)
    requires
        -SCALE <= heading.x <= SCALE,
        -SCALE <= heading.y <= SCALE,
        velocity.x * heading.y == velocity.y * heading.x,
    ensures
        anisotropic_drag_spec(
            velocity,
            heading,
            perp_drag_coeff,
            forward_drag_coeff,
        ).perpendicular == Some(Vec2::zero_spec()),
{
    let right = heading.perpendicular_spec();
    assert(right.x == -heading.y);
    assert(velocity.x * right.x + velocity.y * right.y == 0) by (nonlinear_arith)
        requires
            right.x == -heading.y,
            right.y == heading.x,
            velocity.x * heading.y == velocity.y * heading.x,
    ;
    lemma_no_speed_no_drag(velocity, right, perp_drag_coeff);
}

/// A body that moves purely sideways, its velocity at a right angle to its
/// heading, meets no drag along its length.
pub proof fn lemma_sideways_motion_has_no_forward_drag(
    velocity: Vec2,
    heading: Vec2,
    perp_drag_coeff: int,
    forward_drag_coeff: int,
)
    requires
        velocity.x * heading.x + velocity.y * heading.y == 0,
    ensures
        anisotropic_drag_spec(velocity, heading, perp_drag_coeff, forward_drag_coeff).forward
            == Some(Vec2::zero_spec()),
{
    lemma_no_speed_no_drag(velocity, heading, forward_drag_coeff);
}

} // verus!
