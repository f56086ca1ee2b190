//! The tick driver: per-object update order and failure fallback for each
//! simulation step.

use crate::bounce::{bounce_spec, calculate_bounce};
use crate::fx::{ceil_unit, floor_unit, iabs, lemma_fx_mul_bound, Fx, FX_SCALE};
use crate::kinematics::{
    calculate_friction_deceleration, calculate_gravity_effect_on_velocity, friction_decel_spec,
    gravity_effect_spec,
};
use crate::objects::Object;
use crate::xyz::XYZ;
use crate::{
    BOUNCE_COEFFICIENT, FRICTION_DYNAMIC_COEFFICIENT, GRAVITY_MS, MASS_LIMIT_RAW,
    MAX_TICK_SECONDS_RAW, PARTICLE_RADIUS_PX, POSITION_LIMIT_RAW, SCREEN_HEIGHT, SCREEN_WIDTH,
};
use vstd::prelude::*;

verus! {

/// Speed bound on the objects handed to the tick driver: one step of gravity
/// must not push the speed past what the bounce resolver accepts.
pub const TICK_SPEED_LIMIT_RAW: i64 = 999_000_000_000;

/// One axis of the commit clamp: the requested position and velocity, unless
/// the object would sit fully or partially off-screen, in which case it is
/// pulled back to the boundary and stopped on that axis.
pub open spec fn set_axis_spec(pos: int, vel: int, screen: int) -> (int, int) {
    if screen < floor_unit(pos + PARTICLE_RADIUS_PX) {
        (screen - PARTICLE_RADIUS_PX, 0)
    } else if 0 > ceil_unit(pos - PARTICLE_RADIUS_PX) {
        (PARTICLE_RADIUS_PX as int, 0)
    } else {
        (pos, vel)
    }
}

/// The object with the requested X and Y position and velocity written and
/// clamped per `set_axis_spec`; every other field is unchanged.
pub open spec fn set_within_bounds_spec(
    o: Object,
    new_x_pos: int,
    new_y_pos: int,
    new_x_velocity: int,
    new_y_velocity: int,
) -> Object {
    let x = set_axis_spec(new_x_pos, new_x_velocity, SCREEN_WIDTH as int);
    let y = set_axis_spec(new_y_pos, new_y_velocity, SCREEN_HEIGHT as int);
    Object {
        velocity: XYZ {
            x: Fx { raw: x.1 as i64 },
            y: Fx { raw: y.1 as i64 },
            z: o.velocity.z,
        },
        transform: crate::transform::Transform {
            position: XYZ {
                x: Fx { raw: x.0 as i64 },
                y: Fx { raw: y.0 as i64 },
                z: o.transform.position.z,
            },
            ..o.transform
        },
        ..o
    }
}

/// Update an object's position and velocity while keeping it within the
/// arena: an object fully or partially off-screen is pulled back to the
/// boundary and stopped on the offending axis.
pub fn set_particle_properties_within_bounds(
    particle: &mut Object,
    new_x_pos: Fx,
    new_y_pos: Fx,
    new_x_velocity: Fx,
    new_y_velocity: Fx,
)
    requires
        iabs(new_x_pos@) <= i64::MAX - PARTICLE_RADIUS_PX - FX_SCALE,
        iabs(new_y_pos@) <= i64::MAX - PARTICLE_RADIUS_PX - FX_SCALE,
    ensures
        *final(particle) == set_within_bounds_spec(
            *old(particle),
            new_x_pos@,
            new_y_pos@,
            new_x_velocity@,
            new_y_velocity@,
        ),
{
    let radius = Fx { raw: PARTICLE_RADIUS_PX };
    particle.transform.position.x = new_x_pos;
    particle.transform.position.y = new_y_pos;
    particle.velocity.x = new_x_velocity;
    particle.velocity.y = new_y_velocity;

    if SCREEN_HEIGHT < particle.transform.position.y.plus(radius).floor_whole().raw {
        particle.transform.position.y = Fx { raw: SCREEN_HEIGHT - PARTICLE_RADIUS_PX };
        particle.velocity.y = Fx { raw: 0 };
    } else if 0 > particle.transform.position.y.minus(radius).ceil_whole().raw {
        particle.transform.position.y = radius;
        particle.velocity.y = Fx { raw: 0 };
    }

    if SCREEN_WIDTH < particle.transform.position.x.plus(radius).floor_whole().raw {
        particle.transform.position.x = Fx { raw: SCREEN_WIDTH - PARTICLE_RADIUS_PX };
        particle.velocity.x = Fx { raw: 0 };
    } else if 0 > particle.transform.position.x.minus(radius).ceil_whole().raw {
        particle.transform.position.x = radius;
        particle.velocity.x = Fx { raw: 0 };
    }
}

/// The object accepted by the tick driver: bounded position, mass and speed,
/// so that one step of gravity, friction and bounce stays within the
/// machine's integer range.
pub open spec fn tick_input_valid(o: Object) -> bool {
    &&& iabs(o.transform.position.x@) <= POSITION_LIMIT_RAW
    &&& iabs(o.transform.position.y@) <= POSITION_LIMIT_RAW
    &&& iabs(o.velocity.x@) <= TICK_SPEED_LIMIT_RAW
    &&& iabs(o.velocity.y@) <= TICK_SPEED_LIMIT_RAW
    &&& 0 < o.mass@ <= MASS_LIMIT_RAW
}

/// One tick of one object: gravity added to the vertical velocity (skipped
/// when grounded), friction added to the horizontal velocity (skipped when
/// airborne), then the bounce resolved and committed within bounds. A bounce
/// failure resets the object to the arena center at rest.
pub open spec fn tick_object_spec(o: Object, dt: int) -> Object {
    let vy = o.velocity.y@ + gravity_effect_spec(o, GRAVITY_MS as int, dt);
    let o1 = Object { velocity: XYZ { y: Fx { raw: vy as i64 }, ..o.velocity }, ..o };
    let vx = o1.velocity.x@ + friction_decel_spec(o1, FRICTION_DYNAMIC_COEFFICIENT as int);
    let o2 = Object { velocity: XYZ { x: Fx { raw: vx as i64 }, ..o1.velocity }, ..o1 };
    match bounce_spec(
        o2.transform.position.x@,
        o2.transform.position.y@,
        o2.velocity.x@,
        o2.velocity.y@,
        BOUNCE_COEFFICIENT as int,
        dt,
    ) {
        Ok(b) => set_within_bounds_spec(
            o2,
            b.position.x@,
            b.position.y@,
            b.velocity.x@,
            b.velocity.y@,
        ),
        Err(_) => set_within_bounds_spec(
            o2,
            (SCREEN_WIDTH as int) / 2,
            (SCREEN_HEIGHT as int) / 2,
            0,
            0,
        ),
    }
}

/// Advance every object by one simulation step of the elapsed time. Objects
/// are updated independently, in order; an object whose bounce cannot be
/// resolved is respawned at the arena center with zero velocity rather than
/// left in an invalid state.
pub fn simulation_tick(particles: &mut Vec<Object>, time_elapsed_seconds: Fx)
    requires
        0 <= time_elapsed_seconds@ <= MAX_TICK_SECONDS_RAW,
        forall|i: int|
            0 <= i < old(particles)@.len() ==> tick_input_valid(#[trigger] old(particles)@[i]),
    ensures
        final(particles)@.len() == old(particles)@.len(),
        forall|i: int|
            0 <= i < old(particles)@.len() ==> #[trigger] final(particles)@[i]
                == tick_object_spec(old(particles)@[i], time_elapsed_seconds@),
{
    let n = particles.len();
    let mut idx: usize = 0;
    while idx < n
        invariant
            idx <= n,
            n == particles@.len(),
            particles@.len() == old(particles)@.len(),
            0 <= time_elapsed_seconds@ <= MAX_TICK_SECONDS_RAW,
            forall|i: int|
                0 <= i < old(particles)@.len() ==> tick_input_valid(#[trigger] old(particles)@[i]),
            forall|i: int|
                idx <= i < particles@.len() ==> #[trigger] particles@[i] == old(particles)@[i],
            forall|i: int|
                0 <= i < idx ==> #[trigger] particles@[i] == tick_object_spec(
                    old(particles)@[i],
                    time_elapsed_seconds@,
                ),
        decreases n - idx,
    {
        let mut p = particles[idx];
        proof {
            lemma_fx_mul_bound(
                GRAVITY_MS as int,
                time_elapsed_seconds@,
                GRAVITY_MS as int,
                MAX_TICK_SECONDS_RAW as int,
            );
        }
        let gravity = calculate_gravity_effect_on_velocity(
            &p,
            Fx { raw: GRAVITY_MS },
            time_elapsed_seconds,
        );
        p.velocity.y = p.velocity.y.plus(gravity);

        let friction = calculate_friction_deceleration(
            &p,
            Fx { raw: FRICTION_DYNAMIC_COEFFICIENT },
        );
        p.velocity.x = p.velocity.x.plus(friction);

        let bounce_result = calculate_bounce(
            &p,
            Fx { raw: BOUNCE_COEFFICIENT },
            time_elapsed_seconds,
        );

        match bounce_result {
            Ok(bounce_result) => {
                set_particle_properties_within_bounds(
                    &mut p,
                    bounce_result.position.x,
                    bounce_result.position.y,
                    bounce_result.velocity.x,
                    bounce_result.velocity.y,
                );
            },
            Err(_e) => {
                // The object cannot be resolved: respawn it at the arena
                // center at rest instead of leaving an invalid state.
                set_particle_properties_within_bounds(
                    &mut p,
                    Fx { raw: SCREEN_WIDTH / 2 },
                    Fx { raw: SCREEN_HEIGHT / 2 },
                    Fx { raw: 0 },
                    Fx { raw: 0 },
                );
            },
        }
        particles[idx] = p;
        idx = idx + 1;
    }
}

} // verus!
