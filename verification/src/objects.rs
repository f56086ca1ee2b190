//! The simulated rigid object.

use crate::colliders::ColliderType;
use crate::fx::Fx;
use crate::transform::Transform;
use crate::xyz::XYZ;
use vstd::prelude::*;

verus! {

/// A rigid body: placement, motion state, mass and collision shape.
#[derive(Clone, Copy, Debug)]
pub struct Object {
    /// Signed velocity in meters per second along each axis.
    pub velocity: XYZ,
    /// Signed accumulated force in newtons along each axis (carried, unused).
    pub force: XYZ,
    /// Mass in kilograms; positive.
    pub mass: Fx,
    /// Position, scale and orientation.
    pub transform: Transform,
    /// Shape used by the narrow-phase collision tests.
    pub collider: ColliderType,
}

} // verus!
