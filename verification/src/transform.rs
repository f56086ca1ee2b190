//! Placement of an object in the arena.

use crate::quaternion::Quaternion;
use crate::xyz::XYZ;
use vstd::prelude::*;

verus! {

/// Describes an object's location, size and orientation.
#[derive(Clone, Copy, Debug, PartialEq, Eq, Structural)]
pub struct Transform {
    pub position: XYZ,
    pub scale: XYZ,
    pub rotation: Quaternion,
}

} // verus!
