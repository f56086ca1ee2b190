//! Pure per-object kinematics: unit conversion, gravity and friction.

use crate::fx::{
    div_trunc, fx_div, fx_mul, iabs, lemma_div_trunc_exact, lemma_fx_div_bound, lemma_fx_div_sign,
    lemma_fx_mul_bound, lemma_fx_mul_sign, Fx, FX_SCALE,
};
use crate::objects::Object;
use crate::xyz::XY;
use crate::{
    CUTOFF_VELOCITY, GRAVITY_MS, MASS_LIMIT_RAW, PARTICLE_RADIUS_PX, SCREEN_HEIGHT,
    SPEED_LIMIT_RAW,
};
use vstd::arithmetic::div_mod::lemma_mod_multiples_basic;
use vstd::prelude::*;

verus! {

/// Distance in pixels covered by `meters` at the given pixel density.
pub open spec fn meters_to_pixels_spec(meters: int, pixels_per_meter: int) -> int {
    fx_mul(meters, pixels_per_meter)
}

/// Distance in meters covered by `pixels` at the given pixel density.
pub open spec fn pixels_to_meters_spec(pixels: int, pixels_per_meter: int) -> int {
    fx_div(pixels, pixels_per_meter)
}

/// Convert a distance in meters to pixels.
pub fn convert_meters_to_pixels(meters: Fx, pixels_per_meter: Fx) -> (r: Fx)
    requires
        i64::MIN <= fx_mul(meters@, pixels_per_meter@) <= i64::MAX,
    ensures
        r@ == meters_to_pixels_spec(meters@, pixels_per_meter@),
{
    meters.times(pixels_per_meter)
}

/// Convert a distance in pixels to meters.
pub fn convert_pixels_to_meters(pixels: Fx, pixels_per_meter: Fx) -> (r: Fx)
    requires
        pixels_per_meter@ != 0,
        i64::MIN <= fx_div(pixels@, pixels_per_meter@) <= i64::MAX,
    ensures
        r@ == pixels_to_meters_spec(pixels@, pixels_per_meter@),
{
    pixels.divided_by(pixels_per_meter)
}

/// Acceleration that changed the velocity by `new - old` over the elapsed
/// time: `(new - old) / dt`.
pub open spec fn acceleration_spec(new_velocity: int, old_velocity: int, dt: int) -> int {
    fx_div(new_velocity - old_velocity, dt)
}

/// The acceleration of an object in units per second, from its velocity
/// change over the elapsed time. Both velocities must use the same unit.
pub fn calculate_particle_acceleration(
    new_velocity: Fx,
    old_velocity: Fx,
    time_elapsed_seconds: Fx,
) -> (r: Fx)
    requires
        time_elapsed_seconds@ != 0,
        i64::MIN <= new_velocity@ - old_velocity@ <= i64::MAX,
        i64::MIN <= fx_div(new_velocity@ - old_velocity@, time_elapsed_seconds@) <= i64::MAX,
    ensures
        r@ == acceleration_spec(new_velocity@, old_velocity@, time_elapsed_seconds@),
{
    new_velocity.minus(old_velocity).divided_by(time_elapsed_seconds)
}

/// The object's lower extent has reached the arena floor. (An object that has
/// fallen past the bottom of the arena also counts as touching the ground.)
pub open spec fn touching_ground_spec(o: Object) -> bool {
    o.transform.position.y@ + PARTICLE_RADIUS_PX >= SCREEN_HEIGHT
}

/// Whether the object is resting on (or has fallen past) the arena floor.
pub fn particle_touching_ground(particle: &Object) -> (r: bool)
    requires
        particle.transform.position.y@ + PARTICLE_RADIUS_PX <= i64::MAX,
    ensures
        r == touching_ground_spec(*particle),
{
    particle.transform.position.y.plus(Fx { raw: PARTICLE_RADIUS_PX }).raw >= SCREEN_HEIGHT
}

/// Velocity gained from gravity over the elapsed time: `g * dt` while
/// airborne, zero for a grounded object.
pub open spec fn gravity_effect_spec(o: Object, g: int, dt: int) -> int {
    if touching_ground_spec(o) {
        0
    } else {
        fx_mul(g, dt)
    }
}

/// Velocity change from gravity over the elapsed timeframe, in meters per
/// second; zero when the object rests on the ground.
pub fn calculate_gravity_effect_on_velocity(
    particle: &Object,
    gravity_acceleration_ms: Fx,
    time_elapsed_seconds: Fx,
) -> (r: Fx)
    requires
        particle.transform.position.y@ + PARTICLE_RADIUS_PX <= i64::MAX,
        i64::MIN <= fx_mul(gravity_acceleration_ms@, time_elapsed_seconds@) <= i64::MAX,
    ensures
        r@ == gravity_effect_spec(*particle, gravity_acceleration_ms@, time_elapsed_seconds@),
{
    if particle_touching_ground(particle) {
        return Fx { raw: 0 };
    }
    gravity_acceleration_ms.times(time_elapsed_seconds)
}

/// Gravity's velocity change is additive over elapsed times whose products
/// with the acceleration are whole multiples of the fixed-point step, for an
/// airborne object. (A grounded object gains nothing over any timeframe, by
/// definition of `gravity_effect_spec`.)
pub proof fn lemma_gravity_time_linear(o: Object, g: int, t1: int, t2: int)
    requires
        !touching_ground_spec(o),
        (g * t1) % (FX_SCALE as int) == 0,
        (g * t2) % (FX_SCALE as int) == 0,
    ensures
        gravity_effect_spec(o, g, t1) + gravity_effect_spec(o, g, t2) == gravity_effect_spec(
            o,
            g,
            t1 + t2,
        ),
{
    let s = FX_SCALE as int;
    lemma_div_trunc_exact(g * t1, s);
    lemma_div_trunc_exact(g * t2, s);
    let q1 = div_trunc(g * t1, s);
    let q2 = div_trunc(g * t2, s);
    assert(g * (t1 + t2) == g * t1 + g * t2) by (nonlinear_arith);
    assert(g * (t1 + t2) == s * (q1 + q2)) by (nonlinear_arith)
        requires
            g * (t1 + t2) == g * t1 + g * t2,
            s * q1 == g * t1,
            s * q2 == g * t2,
    ;
    assert((s * (q1 + q2)) % s == 0) by {
        lemma_mod_multiples_basic(q1 + q2, s);
        assert(s * (q1 + q2) == (q1 + q2) * s) by (nonlinear_arith);
    }
    lemma_div_trunc_exact(g * (t1 + t2), s);
    assert(s * div_trunc(g * (t1 + t2), s) == s * (q1 + q2));
}

/// Signed velocity change from friction: zero when airborne or nearly
/// stopped; otherwise a deceleration opposing the horizontal velocity,
/// capped so it never overshoots into a reversal.
pub open spec fn friction_decel_spec(o: Object, friction_coefficient: int) -> int {
    if !touching_ground_spec(o) {
        0
    } else if iabs(o.velocity.x@) < CUTOFF_VELOCITY {
        0
    } else {
        let friction_force = fx_mul(fx_mul(friction_coefficient, o.mass@), GRAVITY_MS as int);
        let decel = fx_div(friction_force, o.mass@);
        if decel > iabs(o.velocity.x@) {
            -o.velocity.x@
        } else if o.velocity.x@ > 0 {
            -decel
        } else {
            decel
        }
    }
}

/// Signed velocity change due to friction for an object, from the dynamic
/// friction coefficient: at most zero when the object moves right, at least
/// zero when it moves left. Friction applies only in the horizontal axis and
/// only to objects in contact with the ground. For a nonnegative coefficient
/// the result's magnitude never exceeds the speed: friction slows, stops, but
/// never reverses.
pub fn calculate_friction_deceleration(particle: &Object, friction_dynamic_coefficient: Fx) -> (r:
    Fx)
    requires
        particle.transform.position.y@ + PARTICLE_RADIUS_PX <= i64::MAX,
        0 < particle.mass@ <= MASS_LIMIT_RAW,
        iabs(friction_dynamic_coefficient@) <= MASS_LIMIT_RAW,
        iabs(particle.velocity.x@) <= SPEED_LIMIT_RAW,
    ensures
        r@ == friction_decel_spec(*particle, friction_dynamic_coefficient@),
        friction_dynamic_coefficient@ >= 0 ==> iabs(r@) <= iabs(particle.velocity.x@),
        friction_dynamic_coefficient@ >= 0 && particle.velocity.x@ > 0 ==> r@ <= 0,
        friction_dynamic_coefficient@ >= 0 && particle.velocity.x@ < 0 ==> r@ >= 0,
{
    if !particle_touching_ground(particle) {
        return Fx { raw: 0 };
    }
    let cutoff_velocity = Fx { raw: CUTOFF_VELOCITY };
    if particle.velocity.x.abs_val().raw < cutoff_velocity.raw {
        return Fx { raw: 0 };
    }
    let f = friction_dynamic_coefficient;
    proof {
        lemma_fx_mul_bound(f@, particle.mass@, MASS_LIMIT_RAW as int, MASS_LIMIT_RAW as int);
        lemma_fx_mul_bound(
            fx_mul(f@, particle.mass@),
            GRAVITY_MS as int,
            1_000_000_000_000,
            GRAVITY_MS as int,
        );
        lemma_fx_div_bound(
            fx_mul(fx_mul(f@, particle.mass@), GRAVITY_MS as int),
            particle.mass@,
            9_800_000_000_000,
        );
        if f@ >= 0 {
            lemma_fx_mul_sign(f@, particle.mass@);
            lemma_fx_mul_sign(fx_mul(f@, particle.mass@), GRAVITY_MS as int);
            lemma_fx_div_sign(
                fx_mul(fx_mul(f@, particle.mass@), GRAVITY_MS as int),
                particle.mass@,
            );
        }
    }
    let friction_force = f.times(particle.mass).times(Fx { raw: GRAVITY_MS });
    let friction_deceleration = friction_force.divided_by(particle.mass);
    if friction_deceleration.raw > particle.velocity.x.abs_val().raw {
        return particle.velocity.x.negate();
    }
    if particle.velocity.x.raw > 0 {
        return friction_deceleration.negate();
    }
    friction_deceleration
}

/// The point lies on or within the circle, allowing one raw step of slack:
/// the comparison is made between squared distances.
pub open spec fn circle_intersect_spec(circle_center: XY, circle_radius: int, point: XY) -> bool {
    fx_mul(circle_radius, circle_radius) + 1 >= fx_mul(
        circle_center.x@ - point.x@,
        circle_center.x@ - point.x@,
    ) + fx_mul(circle_center.y@ - point.y@, circle_center.y@ - point.y@)
}

/// Whether the point falls within the circle: true when the squared distance
/// between them is at most the squared radius, with one raw step of slack.
pub fn does_circle_intersect(circle_center: XY, circle_radius: Fx, point: XY) -> (r: bool)
    requires
        iabs(circle_center.x@) <= 1_000_000_000,
        iabs(circle_center.y@) <= 1_000_000_000,
        iabs(point.x@) <= 1_000_000_000,
        iabs(point.y@) <= 1_000_000_000,
        iabs(circle_radius@) <= 1_000_000_000,
    ensures
        r == circle_intersect_spec(circle_center, circle_radius@, point),
{
    let tolerance = Fx { raw: 1 };
    let dx = circle_center.x.minus(point.x);
    let dy = circle_center.y.minus(point.y);
    proof {
        lemma_fx_mul_bound(dx@, dx@, 2_000_000_000, 2_000_000_000);
        lemma_fx_mul_bound(dy@, dy@, 2_000_000_000, 2_000_000_000);
        lemma_fx_mul_bound(circle_radius@, circle_radius@, 1_000_000_000, 1_000_000_000);
    }
    let a_2 = dx.times(dx);
    let b_2 = dy.times(dy);
    let r_2 = circle_radius.times(circle_radius);
    r_2.plus(tolerance).raw >= a_2.plus(b_2).raw
}

} // verus!
