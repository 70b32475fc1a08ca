//! What every creature has in common: its behavioural state, the handles by
//! which its bodies are known to the physics world, and the record that other
//! creatures see of it.

use crate::creature_attributes::CreatureAttributes;
use crate::vec2::Vec2;
use vstd::prelude::*;

verus! {

/// The behaviour a creature is engaged in. Exactly one is active at a time.
#[derive(Debug, Clone, Copy, PartialEq, Eq, Structural)]
pub enum CreatureState {
    /// Doing nothing in particular, with minimal movement.
    Idle,
    /// Exploring.
    Wandering,
    /// Recovering energy.
    Resting,
    /// Looking for food; for plankton, for light.
    SeekingFood,
    /// Escaping a threat.
    Fleeing,
}

impl CreatureState {
    /// Whether energy is being recovered in this state.
    pub open spec fn is_resting_spec(self) -> bool {
        self == CreatureState::Resting
    }

    /// Whether energy is being recovered in this state.
    pub fn is_resting(self) -> (r: bool)
        ensures
            r == self.is_resting_spec(),
    {
        self == CreatureState::Resting
    }
}

/// The part of a handle that no live body or joint ever has.
pub const INVALID_HANDLE_PART: u32 = 0xffff_ffff;

/// The identifier that marks walls and other static geometry, which belong
/// to no creature.
pub const STATIC_GEOMETRY_ID: u128 = 0xffff_ffff_ffff_ffff_ffff_ffff_ffff_ffff;

/// The stable handle of a rigid body in the physics world: a slot and the
/// generation of its occupant.
#[derive(Debug, Clone, Copy, PartialEq, Eq, Structural)]
pub struct BodyHandle {
    pub index: u32,
    pub generation: u32,
}

impl BodyHandle {
    /// The handle that never names a body.
    pub open spec fn invalid_spec() -> BodyHandle {
        BodyHandle { index: INVALID_HANDLE_PART, generation: INVALID_HANDLE_PART }
    }

    /// The handle that never names a body.
    pub fn invalid() -> (r: BodyHandle)
        ensures
            r == BodyHandle::invalid_spec(),
    {
        BodyHandle { index: INVALID_HANDLE_PART, generation: INVALID_HANDLE_PART }
    }
}

/// The stable handle of a joint in the physics world.
#[derive(Debug, Clone, Copy, PartialEq, Eq, Structural)]
pub struct JointHandle {
    pub index: u32,
    pub generation: u32,
}

/// What a creature's update is told of the world it lives in.
#[derive(Debug, Clone, Copy)]
pub struct WorldContext {
    pub world_height: i64,
    pub pixels_per_meter: i64,
}

/// What other creatures can know of a creature during one tick. The records
/// of all creatures are made before any creature acts and are not changed
/// until the tick is over.
#[derive(Debug, Clone, Copy)]
pub struct CreatureInfo {
    pub id: u128,
    pub creature_type_name: &'static str,
    pub primary_body_handle: BodyHandle,
    pub position: Vec2,
    pub velocity: Vec2,
    /// The radius within which the creature counts for interaction.
    pub radius: i64,
}

/// Where a rigid body is and how it moves, as read from the physics world.
#[derive(Debug, Clone, Copy, PartialEq, Eq, Structural)]
pub struct BodyState {
    pub position: Vec2,
    pub velocity: Vec2,
    pub angular_velocity: i64,
}

/// How the physics world is to treat one segment of a creature.
#[derive(Debug, Clone, Copy, PartialEq, Eq, Structural)]
pub struct BodyParameters {
    pub linear_damping: i64,
    pub angular_damping: i64,
    pub density: i64,
    pub friction: i64,
    pub restitution: i64,
    /// Whether the body is checked for passing through others between two
    /// steps.
    pub continuous_collision_detection: bool,
}

/// How the physics world is to treat one joint of a creature.
#[derive(Debug, Clone, Copy, PartialEq, Eq, Structural)]
pub struct JointParameters {
    /// The greatest force of the joint's motor.
    pub motor_max_force: i64,
    /// How far the joint may bend, to either side.
    pub angle_limit: i64,
}

/// Whether two names are the same text.
///
/// Calls the `==` of `str`, which vstd leaves without a specification. The
/// contract claims what its documentation says: the result tells whether the
/// two hold the same characters.
#[verifier::external_body]
pub(crate) fn same_name(a: &str, b: &str) -> (r: bool)
    ensures
        r == (a@ == b@),
{
    a == b
}

/// What all kinds of creature offer.
pub trait Creature {
    /// The identifier of this creature, unique among the living.
    fn id(&self) -> u128;

    /// The bodies that make up this creature, head first.
    fn get_rigid_body_handles(&self) -> &[BodyHandle];

    /// The joints between the bodies, head first.
    fn get_joint_handles(&self) -> &[JointHandle];

    fn attributes(&self) -> &CreatureAttributes;

    /// The creature's attributes, to be changed in place.
    fn attributes_mut(&mut self) -> &mut CreatureAttributes;

    /// The radius at which the creature is drawn.
    fn drawing_radius(&self) -> i64;

    /// The name of the kind of creature.
    fn species_name(&self) -> &'static str;

    fn current_state(&self) -> CreatureState;
}

/// The record that other creatures see of a creature with the given
/// identity whose primary body, if the physics world still has it, is in
/// `primary_body`. A creature without a body is recorded at the origin, at
/// rest, under the invalid handle.
pub open spec fn creature_info_spec(
    id: u128,
    creature_type_name: &'static str,
    radius: i64,
    primary_handle: Option<BodyHandle>,
    primary_body: Option<BodyState>,
) -> CreatureInfo {
    CreatureInfo {
        id,
        creature_type_name,
        primary_body_handle: match primary_handle {
            Some(handle) => handle,
            None => BodyHandle::invalid_spec(),
        },
        position: match (primary_handle, primary_body) {
            (Some(handle), Some(body)) if handle != BodyHandle::invalid_spec() => body.position,
            _ => Vec2::zero_spec(),
        },
        velocity: match (primary_handle, primary_body) {
            (Some(handle), Some(body)) if handle != BodyHandle::invalid_spec() => body.velocity,
            _ => Vec2::zero_spec(),
        },
        radius,
    }
}

/// Makes the record that other creatures see of a creature during a tick.
pub fn creature_info(
    id: u128,
    creature_type_name: &'static str,
    radius: i64,
    primary_handle: Option<BodyHandle>,
    primary_body: Option<BodyState>,
) -> (info: CreatureInfo)
    ensures
        info == creature_info_spec(id, creature_type_name, radius, primary_handle, primary_body),
{
    let handle = match primary_handle {
        Some(handle) => handle,
        None => BodyHandle::invalid(),
    };
    let (position, velocity) = if handle != BodyHandle::invalid() {
        match primary_body {
            Some(body) => (body.position, body.velocity),
            None => (Vec2::zero(), Vec2::zero()),
        }
    } else {
        (Vec2::zero(), Vec2::zero())
    };
    CreatureInfo {
        id,
        creature_type_name,
        primary_body_handle: handle,
        position,
        velocity,
        radius,
    }
}

} // verus!
