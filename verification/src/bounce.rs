//! The bounce resolver: per-axis position and velocity correction against
//! the arena bounds, with bounded iterative reflection.
//!
//! A fast object may reflect off both walls within one tick; the reflection
//! loop models that, damping the remaining travel and the velocity by the
//! bounce coefficient at each reflection. A hard iteration cap guards the
//! loop, and overrunning it is reported as an error for the caller to handle.

use crate::fx::{
    ceil_unit, floor_unit, fx_mul, iabs, lemma_floor_unit_zero, lemma_fx_mul_bound,
    lemma_fx_mul_decay, lemma_fx_mul_sign, lemma_unit_rounding_bounds, Fx, FX_SCALE,
};
use crate::kinematics::convert_meters_to_pixels;
use crate::objects::Object;
use crate::xyz::XY;
use crate::{
    BOUNCE_EPS, MAX_TICK_SECONDS_RAW, PARTICLE_RADIUS_PX, PIXELS_PER_METER, SCREEN_HEIGHT,
    SCREEN_WIDTH, SPEED_LIMIT_RAW,
};
use vstd::prelude::*;

verus! {

/// Hard cap on reflections per axis within one tick: a defensive bound
/// against coefficients asymptotically close to one.
pub const MAX_BOUNCE_CALCULATIONS: u32 = 100;

/// Why a bounce computation failed. Both kinds are recoverable: the caller
/// decides the fallback.
#[derive(Debug, Clone, Copy)]
pub enum BounceError {
    /// The per-axis reflection loop did not settle within the iteration cap.
    CalculationDepthExceeded,
    /// The input position already lay outside the arena.
    OutOfBoundsError(OutOfBoundsError),
}

/// The offending out-of-bounds position, kept for diagnostics.
#[derive(Debug, Clone, Copy, PartialEq, Eq, Structural)]
pub struct OutOfBoundsError {
    pub object_location_x: Fx,
    pub object_location_y: Fx,
}

/// Corrected position and velocity produced by `calculate_bounce`.
#[derive(Debug, Clone, Copy, PartialEq, Eq, Structural)]
pub struct BounceResult {
    pub position: XY,
    pub velocity: XY,
}

struct PartialBounceResult {
    axis_position: Fx,
    axis_velocity: Fx,
}

struct CalculationDepthExceeded;

enum Axis {
    X,
    Y,
}

/// Largest legal coordinate on the given axis, accounting for the radius.
spec fn axis_max_spec(axis: Axis) -> int {
    match axis {
        Axis::X => SCREEN_WIDTH - PARTICLE_RADIUS_PX,
        Axis::Y => SCREEN_HEIGHT - PARTICLE_RADIUS_PX,
    }
}

/// The reflection loop is settled: the object moves slower than one meter per
/// second, or its remaining travel keeps it within the allowance in its
/// direction of motion.
pub open spec fn bounce_settled(travel: int, vel: int, a0: int, a1: int) -> bool {
    iabs(vel) < FX_SCALE || (vel <= 0 && travel >= a0) || (vel >= 0 && travel <= a1)
}

/// State of the per-axis reflection loop after running with the given fuel:
/// the remaining travel and velocity, reflected and damped by the bounce
/// coefficient until settled, or `None` when the fuel runs out first.
pub open spec fn bounce_loop_spec(
    travel: int,
    vel: int,
    c: int,
    a0: int,
    a1: int,
    fuel: nat,
) -> Option<(int, int)>
    decreases fuel,
{
    if bounce_settled(travel, vel, a0, a1) {
        Some((travel, vel))
    } else if fuel == 0 {
        None
    } else {
        bounce_loop_spec(fx_mul(-travel, c), fx_mul(-vel, c), c, a0, a1, (fuel - 1) as nat)
    }
}

/// Signed travel allowed toward the lower bound; never positive for a
/// position at or above the radius.
pub open spec fn allowance_low_spec(pos: int) -> int {
    ceil_unit(PARTICLE_RADIUS_PX - pos)
}

/// Signed travel allowed toward the upper bound; never negative for a
/// position at or below the axis bound.
pub open spec fn allowance_high_spec(pos: int, max_pos: int) -> int {
    floor_unit(max_pos - pos)
}

/// Pixels of travel over the elapsed time at the given velocity.
pub open spec fn travel_spec(vel: int, dt: int) -> int {
    fx_mul(fx_mul(vel, dt), PIXELS_PER_METER as int)
}

/// Result of one axis of the bounce: the settled travel applied to the
/// position, then clamped to the arena. When the clamp at the upper bound
/// engages, the object is essentially resting there and its velocity is
/// nullified; the clamp at the lower bound keeps the velocity. `None` when
/// the reflection loop hit its cap.
pub open spec fn bounce_axis_spec(pos: int, vel: int, c: int, dt: int, max_pos: int) -> Option<
    (int, int),
> {
    let a0 = allowance_low_spec(pos);
    let a1 = allowance_high_spec(pos, max_pos);
    match bounce_loop_spec(
        travel_spec(vel, dt),
        vel,
        c,
        a0,
        a1,
        (MAX_BOUNCE_CALCULATIONS - 1) as nat,
    ) {
        None => None,
        Some((t, v)) => {
            let p1 = pos + t;
            let p2 = if p1 > max_pos {
                max_pos
            } else {
                p1
            };
            let v2: int = if p1 > max_pos {
                0
            } else {
                v
            };
            let p3 = if p2 < PARTICLE_RADIUS_PX {
                PARTICLE_RADIUS_PX as int
            } else {
                p2
            };
            Some((p3, v2))
        },
    }
}

/// The object's extent (its position plus and minus its radius) escapes the
/// arena rectangle.
pub open spec fn out_of_bounds_spec(x: int, y: int) -> bool {
    x - PARTICLE_RADIUS_PX < 0 || y - PARTICLE_RADIUS_PX < 0 || x + PARTICLE_RADIUS_PX
        > SCREEN_WIDTH || y + PARTICLE_RADIUS_PX > SCREEN_HEIGHT
}

/// The two-component vector with the given raw coordinates.
pub open spec fn xy_raw(x: int, y: int) -> XY {
    XY { x: Fx { raw: x as i64 }, y: Fx { raw: y as i64 } }
}

/// Result of `calculate_bounce`: the input unchanged under a negligible
/// bounce coefficient; an out-of-bounds error when the input position is
/// already invalid; otherwise the two axes resolved independently, with a
/// depth error if either axis overran the reflection cap.
pub open spec fn bounce_spec(
    pos_x: int,
    pos_y: int,
    vel_x: int,
    vel_y: int,
    c: int,
    dt: int,
) -> Result<BounceResult, BounceError> {
    if c <= BOUNCE_EPS {
        Ok(BounceResult { position: xy_raw(pos_x, pos_y), velocity: xy_raw(vel_x, vel_y) })
    } else if out_of_bounds_spec(pos_x, pos_y) {
        Err(
            BounceError::OutOfBoundsError(
                OutOfBoundsError {
                    object_location_x: Fx { raw: pos_x as i64 },
                    object_location_y: Fx { raw: pos_y as i64 },
                },
            ),
        )
    } else {
        let rx = bounce_axis_spec(pos_x, vel_x, c, dt, SCREEN_WIDTH - PARTICLE_RADIUS_PX);
        let ry = bounce_axis_spec(pos_y, vel_y, c, dt, SCREEN_HEIGHT - PARTICLE_RADIUS_PX);
        match (rx, ry) {
            (Some(x), Some(y)) => Ok(
                BounceResult { position: xy_raw(x.0, y.0), velocity: xy_raw(x.1, y.1) },
            ),
            _ => Err(BounceError::CalculationDepthExceeded),
        }
    }
}

/// Through the reflection loop the remaining travel keeps pointing the way
/// the velocity points, the speed never grows, any returned state is settled,
/// and a loop that reflected at least once strictly shrank the speed.
pub proof fn lemma_bounce_loop_props(travel: int, vel: int, c: int, a0: int, a1: int, fuel: nat)
    requires
        0 <= c < FX_SCALE,
        vel > 0 ==> travel >= 0,
        vel < 0 ==> travel <= 0,
    ensures
        match bounce_loop_spec(travel, vel, c, a0, a1, fuel) {
            Some((t, v)) => bounce_settled(t, v, a0, a1) && iabs(v) <= iabs(vel) && (v > 0 ==> t
                >= 0) && (v < 0 ==> t <= 0) && (!bounce_settled(travel, vel, a0, a1) ==> iabs(v)
                < iabs(vel)),
            None => true,
        },
    decreases fuel,
{
    if bounce_settled(travel, vel, a0, a1) {
    } else if fuel == 0 {
    } else {
        let t1 = fx_mul(-travel, c);
        let v1 = fx_mul(-vel, c);
        lemma_fx_mul_decay(-travel, c);
        lemma_fx_mul_decay(-vel, c);
        lemma_bounce_loop_props(t1, v1, c, a0, a1, (fuel - 1) as nat);
    }
}

/// Bounce bounds invariant for one axis: whatever the velocity, a resolved
/// axis leaves the position between the particle radius and the axis bound,
/// and never increases the speed.
pub proof fn lemma_bounce_axis_props(pos: int, vel: int, c: int, dt: int, max_pos: int)
    requires
        0 <= c < FX_SCALE,
        0 <= dt,
        PARTICLE_RADIUS_PX <= pos <= max_pos,
    ensures
        match bounce_axis_spec(pos, vel, c, dt, max_pos) {
            Some((p, v)) => PARTICLE_RADIUS_PX <= p <= max_pos && iabs(v) <= iabs(vel),
            None => true,
        },
{
    let a0 = allowance_low_spec(pos);
    let a1 = allowance_high_spec(pos, max_pos);
    lemma_fx_mul_sign(vel, dt);
    lemma_fx_mul_sign(fx_mul(vel, dt), PIXELS_PER_METER as int);
    lemma_bounce_loop_props(
        travel_spec(vel, dt),
        vel,
        c,
        a0,
        a1,
        (MAX_BOUNCE_CALCULATIONS - 1) as nat,
    );
}

/// Bounce energy decay for one axis: when a reflection occurred (the incoming
/// state was not already settled), the outgoing speed is strictly below the
/// incoming speed.
pub proof fn lemma_bounce_axis_energy_decay(pos: int, vel: int, c: int, dt: int, max_pos: int)
    requires
        0 <= c < FX_SCALE,
        0 <= dt,
        PARTICLE_RADIUS_PX <= pos <= max_pos,
        !bounce_settled(
            travel_spec(vel, dt),
            vel,
            allowance_low_spec(pos),
            allowance_high_spec(pos, max_pos),
        ),
    ensures
        match bounce_axis_spec(pos, vel, c, dt, max_pos) {
            Some((p, v)) => iabs(v) < iabs(vel),
            None => true,
        },
{
    lemma_fx_mul_sign(vel, dt);
    lemma_fx_mul_sign(fx_mul(vel, dt), PIXELS_PER_METER as int);
    lemma_bounce_loop_props(
        travel_spec(vel, dt),
        vel,
        c,
        allowance_low_spec(pos),
        allowance_high_spec(pos, max_pos),
        (MAX_BOUNCE_CALCULATIONS - 1) as nat,
    );
}

/// Bounce coefficient scaling for one axis: when the incoming state reflects
/// exactly once, settles in its direction of motion, and the reflected travel
/// does not overshoot the upper bound, the outgoing speed is exactly the
/// fixed-point product of the incoming speed with the bounce coefficient.
pub proof fn lemma_bounce_axis_single_scaling(pos: int, vel: int, c: int, dt: int, max_pos: int)
    requires
        0 <= c < FX_SCALE,
        0 <= dt,
        PARTICLE_RADIUS_PX <= pos <= max_pos,
        !bounce_settled(
            travel_spec(vel, dt),
            vel,
            allowance_low_spec(pos),
            allowance_high_spec(pos, max_pos),
        ),
        bounce_settled(
            fx_mul(-travel_spec(vel, dt), c),
            fx_mul(-vel, c),
            allowance_low_spec(pos),
            allowance_high_spec(pos, max_pos),
        ),
        pos + fx_mul(-travel_spec(vel, dt), c) <= max_pos,
    ensures
        match bounce_axis_spec(pos, vel, c, dt, max_pos) {
            Some((p, v)) => v == fx_mul(-vel, c) && iabs(v) == fx_mul(iabs(vel), c),
            None => false,
        },
{
    let travel0 = travel_spec(vel, dt);
    let t1 = fx_mul(-travel0, c);
    let v1 = fx_mul(-vel, c);
    let a0 = allowance_low_spec(pos);
    let a1 = allowance_high_spec(pos, max_pos);
    lemma_fx_mul_decay(-vel, c);
    assert(bounce_loop_spec(travel0, vel, c, a0, a1, (MAX_BOUNCE_CALCULATIONS - 1) as nat)
        == bounce_loop_spec(t1, v1, c, a0, a1, (MAX_BOUNCE_CALCULATIONS - 2) as nat));
    assert(bounce_loop_spec(t1, v1, c, a0, a1, (MAX_BOUNCE_CALCULATIONS - 2) as nat) == Some(
        (t1, v1),
    ));
    assert(iabs(-vel) == iabs(vel));
}

/// One axis of the bounce computation.
fn bounce_helper(
    axis: Axis,
    axis_position: Fx,
    axis_velocity: Fx,
    time_elapsed_seconds: Fx,
    bounce_coefficient: Fx,
) -> (res: Result<PartialBounceResult, CalculationDepthExceeded>)
    requires
        PARTICLE_RADIUS_PX <= axis_position@ <= axis_max_spec(axis),
        iabs(axis_velocity@) <= SPEED_LIMIT_RAW,
        0 <= time_elapsed_seconds@ <= MAX_TICK_SECONDS_RAW,
        0 <= bounce_coefficient@ < FX_SCALE,
    ensures
        ({
            let spec_r = bounce_axis_spec(
                axis_position@,
                axis_velocity@,
                bounce_coefficient@,
                time_elapsed_seconds@,
                axis_max_spec(axis),
            );
            match (spec_r, res) {
                (Some((p, v)), Ok(pb)) => pb.axis_position@ == p && pb.axis_velocity@ == v,
                (None, Err(_)) => true,
                _ => false,
            }
        }),
{
    let directional_allowance_0: Fx;
    let directional_allowance_1: Fx;
    let max_allowed_position: Fx;
    match axis {
        Axis::X => {
            directional_allowance_0 = Fx { raw: PARTICLE_RADIUS_PX }.minus(
                axis_position,
            ).ceil_whole();
            directional_allowance_1 = Fx { raw: SCREEN_WIDTH - PARTICLE_RADIUS_PX }.minus(
                axis_position,
            ).floor_whole();
            max_allowed_position = Fx { raw: SCREEN_WIDTH - PARTICLE_RADIUS_PX };
        },
        Axis::Y => {
            directional_allowance_0 = Fx { raw: PARTICLE_RADIUS_PX }.minus(
                axis_position,
            ).ceil_whole();
            directional_allowance_1 = Fx { raw: SCREEN_HEIGHT - PARTICLE_RADIUS_PX }.minus(
                axis_position,
            ).floor_whole();
            max_allowed_position = Fx { raw: SCREEN_HEIGHT - PARTICLE_RADIUS_PX };
        },
    }
    proof {
        lemma_unit_rounding_bounds(PARTICLE_RADIUS_PX - axis_position@);
        lemma_unit_rounding_bounds(axis_max_spec(axis) - axis_position@);
        assert(directional_allowance_0@ <= 0);
        assert(directional_allowance_1@ >= 0);
        lemma_fx_mul_bound(
            axis_velocity@,
            time_elapsed_seconds@,
            SPEED_LIMIT_RAW as int,
            MAX_TICK_SECONDS_RAW as int,
        );
        lemma_fx_mul_bound(
            fx_mul(axis_velocity@, time_elapsed_seconds@),
            PIXELS_PER_METER as int,
            10_000_000_000_000_000,
            PIXELS_PER_METER as int,
        );
        lemma_fx_mul_sign(axis_velocity@, time_elapsed_seconds@);
        lemma_fx_mul_sign(fx_mul(axis_velocity@, time_elapsed_seconds@), PIXELS_PER_METER as int);
    }
    let time_multiplier = time_elapsed_seconds;
    let mut travel_remaining = convert_meters_to_pixels(
        axis_velocity.times(time_multiplier),
        Fx { raw: PIXELS_PER_METER },
    );
    let mut new_velocity = axis_velocity;
    let mut counter: u32 = 0;
    let ghost a0 = directional_allowance_0@;
    let ghost a1 = directional_allowance_1@;
    let ghost c = bounce_coefficient@;
    let ghost travel0 = travel_remaining@;
    let ghost vel0 = axis_velocity@;
    loop
        invariant_except_break
            counter <= MAX_BOUNCE_CALCULATIONS - 1,
            0 <= c < FX_SCALE,
            c == bounce_coefficient@,
            a0 == directional_allowance_0@,
            a1 == directional_allowance_1@,
            a0 == allowance_low_spec(axis_position@),
            a1 == allowance_high_spec(axis_position@, axis_max_spec(axis)),
            travel0 == travel_spec(axis_velocity@, time_elapsed_seconds@),
            vel0 == axis_velocity@,
            iabs(travel_remaining@) <= 100_000_000_000_000_000,
            iabs(new_velocity@) <= SPEED_LIMIT_RAW,
            new_velocity@ > 0 ==> travel_remaining@ >= 0,
            new_velocity@ < 0 ==> travel_remaining@ <= 0,
            bounce_loop_spec(
                travel_remaining@,
                new_velocity@,
                c,
                a0,
                a1,
                (MAX_BOUNCE_CALCULATIONS - 1 - counter) as nat,
            ) == bounce_loop_spec(travel0, vel0, c, a0, a1, (MAX_BOUNCE_CALCULATIONS - 1) as nat),
        ensures
            bounce_loop_spec(travel0, vel0, c, a0, a1, (MAX_BOUNCE_CALCULATIONS - 1) as nat)
                == Some((travel_remaining@, new_velocity@)),
            iabs(travel_remaining@) <= 100_000_000_000_000_000,
            iabs(new_velocity@) <= SPEED_LIMIT_RAW,
        decreases MAX_BOUNCE_CALCULATIONS - counter,
    {
        // Settled: the object is too slow to matter, or its remaining travel
        // stays within the allowance in its direction of motion.
        proof {
            lemma_floor_unit_zero(iabs(new_velocity@));
        }
        if (new_velocity.abs_val().floor_whole().raw == 0) || ((new_velocity.raw <= 0)
            && (travel_remaining.raw >= directional_allowance_0.raw)) || ((new_velocity.raw >= 0)
            && (travel_remaining.raw <= directional_allowance_1.raw)) {
            break ;
        }
        counter = counter + 1;
        if counter == MAX_BOUNCE_CALCULATIONS {
            proof {
                assert(!bounce_settled(travel_remaining@, new_velocity@, a0, a1));
                assert(bounce_loop_spec(travel_remaining@, new_velocity@, c, a0, a1, 0)
                    == None::<(int, int)>);
            }
            return Err(CalculationDepthExceeded);
        }
        proof {
            lemma_fx_mul_decay(-travel_remaining@, c);
            lemma_fx_mul_decay(-new_velocity@, c);
        }
        travel_remaining = travel_remaining.negate().times(bounce_coefficient);
        new_velocity = new_velocity.negate().times(bounce_coefficient);
    }
    let mut res_position = axis_position.plus(travel_remaining);
    let mut res_velocity = new_velocity;
    // The settled state can still sit slightly out of bounds (it may have
    // settled for being slow, not for fitting); clamp to the boundary, and
    // treat an object pushed past the upper bound as resting: zero velocity.
    if res_position.raw > max_allowed_position.raw {
        res_position = max_allowed_position;
        res_velocity = Fx { raw: 0 };
    }
    if res_position.raw < PARTICLE_RADIUS_PX {
        res_position = Fx { raw: PARTICLE_RADIUS_PX };
    }
    Ok(PartialBounceResult { axis_position: res_position, axis_velocity: res_velocity })
}

/// Post-bounce state of the input object over the elapsed time.
///
/// An object may bounce zero or more times within the tick. A negligible
/// bounce coefficient (at most one raw step) returns the input unchanged. An
/// input position already outside the arena is refused with
/// `OutOfBoundsError` carrying that position. A velocity so extreme that the
/// reflection loop exceeds its cap yields `CalculationDepthExceeded`. Every
/// other input resolves to a position back inside the arena, with the speed
/// on each axis never above its incoming value.
pub fn calculate_bounce(particle: &Object, bounce_coefficient: Fx, time_elapsed_seconds: Fx) -> (r:
    Result<BounceResult, BounceError>)
    requires
        iabs(particle.transform.position.x@) <= i64::MAX - PARTICLE_RADIUS_PX,
        iabs(particle.transform.position.y@) <= i64::MAX - PARTICLE_RADIUS_PX,
        iabs(particle.velocity.x@) <= SPEED_LIMIT_RAW,
        iabs(particle.velocity.y@) <= SPEED_LIMIT_RAW,
        0 <= time_elapsed_seconds@ <= MAX_TICK_SECONDS_RAW,
        bounce_coefficient@ <= BOUNCE_EPS || bounce_coefficient@ < FX_SCALE || out_of_bounds_spec(
            particle.transform.position.x@,
            particle.transform.position.y@,
        ),
    ensures
        r == bounce_spec(
            particle.transform.position.x@,
            particle.transform.position.y@,
            particle.velocity.x@,
            particle.velocity.y@,
            bounce_coefficient@,
            time_elapsed_seconds@,
        ),
        r matches Ok(b) ==> (!out_of_bounds_spec(
            particle.transform.position.x@,
            particle.transform.position.y@,
        ) ==> PARTICLE_RADIUS_PX <= b.position.x@ <= SCREEN_WIDTH - PARTICLE_RADIUS_PX
            && PARTICLE_RADIUS_PX <= b.position.y@ <= SCREEN_HEIGHT - PARTICLE_RADIUS_PX),
        r matches Ok(b) ==> iabs(b.velocity.x@) <= iabs(particle.velocity.x@) && iabs(
            b.velocity.y@,
        ) <= iabs(particle.velocity.y@),
{
    let p = particle;
    let px = p.transform.position.x;
    let py = p.transform.position.y;
    let vx = p.velocity.x;
    let vy = p.velocity.y;
    if bounce_coefficient.raw <= BOUNCE_EPS {
        // No bounce: return the input unmodified.
        return Ok(
            BounceResult { position: XY { x: px, y: py }, velocity: XY { x: vx, y: vy } },
        );
    }
    let radius = Fx { raw: PARTICLE_RADIUS_PX };
    if px.minus(radius).raw < 0 || py.minus(radius).raw < 0 || px.plus(radius).raw > SCREEN_WIDTH
        || py.plus(radius).raw > SCREEN_HEIGHT {
        return Err(
            BounceError::OutOfBoundsError(
                OutOfBoundsError { object_location_x: px, object_location_y: py },
            ),
        );
    }
    let partial_res_x = bounce_helper(Axis::X, px, vx, time_elapsed_seconds, bounce_coefficient);
    let partial_res_y = bounce_helper(Axis::Y, py, vy, time_elapsed_seconds, bounce_coefficient);
    proof {
        lemma_bounce_axis_props(
            px@,
            vx@,
            bounce_coefficient@,
            time_elapsed_seconds@,
            SCREEN_WIDTH - PARTICLE_RADIUS_PX,
        );
        lemma_bounce_axis_props(
            py@,
            vy@,
            bounce_coefficient@,
            time_elapsed_seconds@,
            SCREEN_HEIGHT - PARTICLE_RADIUS_PX,
        );
    }
    match (partial_res_x, partial_res_y) {
        (Ok(partial_x), Ok(partial_y)) => Ok(
            BounceResult {
                position: XY { x: partial_x.axis_position, y: partial_y.axis_position },
                velocity: XY { x: partial_x.axis_velocity, y: partial_y.axis_velocity },
            },
        ),
        _ => Err(BounceError::CalculationDepthExceeded),
    }
}

} // verus!
