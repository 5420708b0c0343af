//! Component bundles attached to level geometry and dynamic actors.
//!
//! The physics engine itself is an external collaborator; this crate only
//! chooses which values to attach and never interprets them, so each physics
//! primitive is held here as a plain-value stand-in. Scalar fields are
//! fixed-point milli-units, like every coordinate in the crate.

use crate::space::Vec2i;
use vstd::prelude::*;

verus! {

/// Marker component carried by every solid level cell.
#[derive(Clone, Copy, PartialEq, Eq, Structural, Debug)]
pub struct Wall;

/// Bundle attached to the int-grid cells that the level loader reports as
/// solid.
#[derive(Clone, Copy, PartialEq, Eq, Structural, Debug)]
pub struct WallBundle {
    pub wall: Wall,
}

/// How a rigid body is driven by the physics step.
#[derive(Clone, Copy, PartialEq, Eq, Structural, Debug)]
pub enum RigidBodyKind {
    Dynamic,
    Fixed,
    KinematicPositionBased,
    KinematicVelocityBased,
}

/// A rectangular collision shape, stored as half-extents in milli-units.
#[derive(Clone, Copy, PartialEq, Eq, Structural, Debug)]
pub struct ColliderShape {
    pub half_extent_x: i64,
    pub half_extent_y: i64,
}

/// Linear and angular velocity of a body.
#[derive(Clone, Copy, PartialEq, Eq, Structural, Debug)]
pub struct Velocity2 {
    pub linvel: Vec2i,
    pub angvel: i64,
}

/// Which degrees of freedom the physics step may not change.
#[derive(Clone, Copy, PartialEq, Eq, Structural, Debug)]
pub struct LockedAxesFlags {
    pub translation_x: bool,
    pub translation_y: bool,
    pub rotation: bool,
}

/// Linear and angular damping coefficients.
#[derive(Clone, Copy, PartialEq, Eq, Structural, Debug)]
pub struct Damping2 {
    pub linear_damping: i64,
    pub angular_damping: i64,
}

/// Mass is given either directly or as a density over the collider area.
#[derive(Clone, Copy, PartialEq, Eq, Structural, Debug)]
pub enum MassProperties {
    Density(i64),
    Mass(i64),
}

/// Everything a fully physical actor carries: body kind, shape, and the
/// tuning scalars the physics collaborator consumes.
#[derive(Clone, Copy, PartialEq, Eq, Structural, Debug)]
pub struct ColliderBundle {
    pub rigid_body: RigidBodyKind,
    pub collider: ColliderShape,
    pub gravity: i64,
    pub velocity: Velocity2,
    pub rotation_constraints: LockedAxesFlags,
    pub friction: i64,
    pub damping: Damping2,
    pub mass: MassProperties,
}

} // verus!
