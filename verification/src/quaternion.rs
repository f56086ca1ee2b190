//! Orientation values.

use crate::fx::Fx;
use vstd::prelude::*;

verus! {

/// An orientation, stored as four fixed-point components. The simulation
/// carries it through unchanged: rotational dynamics are out of scope.
#[derive(Clone, Copy, Debug, PartialEq, Eq, Structural)]
pub struct Quaternion {
    pub w: Fx,
    pub x: Fx,
    pub y: Fx,
    pub z: Fx,
}

} // verus!
