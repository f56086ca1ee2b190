//! A particle physics sandbox: per-tick integration of gravity, friction and
//! boundary bounces, plus narrow-phase sphere/plane collision tests.
//!
//! All quantities are fixed-point scalars (`Fx`) so that every computation is
//! exact integer arithmetic and can be reasoned about precisely.

use vstd::prelude::*;

pub mod bounce;
pub mod colliders;
pub mod fx;
pub mod kinematics;
pub mod objects;
pub mod quaternion;
pub mod tick;
pub mod transform;
pub mod xyz;

pub use bounce::{calculate_bounce, BounceError, BounceResult, OutOfBoundsError};
pub use tick::{set_particle_properties_within_bounds, simulation_tick};
pub use kinematics::{
    calculate_friction_deceleration, calculate_gravity_effect_on_velocity,
    calculate_particle_acceleration, convert_meters_to_pixels, convert_pixels_to_meters,
    does_circle_intersect, particle_touching_ground,
};

verus! {

/// Arena width in fixed-point pixels (1080 px).
pub const SCREEN_WIDTH: i64 = 10_800_000;

/// Arena height in fixed-point pixels (720 px).
pub const SCREEN_HEIGHT: i64 = 7_200_000;

/// Radius of a simulated particle, in fixed-point pixels (10 px).
pub const PARTICLE_RADIUS_PX: i64 = 100_000;

/// Conversion ratio between positions (pixels) and velocities (meters), fixed-point (10 px/m).
pub const PIXELS_PER_METER: i64 = 100_000;

/// Gravitational acceleration in fixed-point meters per second squared (9.8 m/s2).
pub const GRAVITY_MS: i64 = 98_000;

/// Dynamic friction coefficient applied by the tick driver (0.005).
pub const FRICTION_DYNAMIC_COEFFICIENT: i64 = 50;

/// Restitution factor applied by the tick driver (0.9): the fraction of speed
/// kept after reflecting off a boundary.
pub const BOUNCE_COEFFICIENT: i64 = 9_000;

/// Below this speed (0.0001 m/s) an object does not count as moving.
pub const CUTOFF_VELOCITY: i64 = 1;

/// A bounce coefficient at or below this threshold (0.0001) means no bounce.
pub const BOUNCE_EPS: i64 = 1;

/// Bound (raw steps) on the speeds the physics functions accept; it keeps the
/// travel-distance products within the machine's integer range.
pub const SPEED_LIMIT_RAW: i64 = 1_000_000_000_000;

/// Bound (raw steps) on the positions the tick driver accepts; it keeps the
/// ground and bounds checks within the machine's integer range.
pub const POSITION_LIMIT_RAW: i64 = 1_000_000_000_000;

/// Bound (raw steps) on masses and friction coefficients; it keeps the
/// friction force products within the machine's integer range.
pub const MASS_LIMIT_RAW: i64 = 100_000_000;

/// Bound (raw steps) on the elapsed time per tick (10000 seconds).
pub const MAX_TICK_SECONDS_RAW: i64 = 100_000_000;

} // verus!
