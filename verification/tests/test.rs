use particle_sim::colliders::ColliderType;
use particle_sim::colliders::TestCollision;
use particle_sim::fx::{Fx, FX_SCALE};
use particle_sim::objects::Object;
use particle_sim::quaternion::Quaternion;
use particle_sim::transform::Transform;
use particle_sim::xyz::{BALANCED_NORMAL_RAW, XY, XYZ};
use particle_sim::{
    calculate_bounce, calculate_friction_deceleration, calculate_gravity_effect_on_velocity,
    calculate_particle_acceleration, convert_meters_to_pixels, convert_pixels_to_meters,
    does_circle_intersect, set_particle_properties_within_bounds, simulation_tick, BounceError,
    GRAVITY_MS, PARTICLE_RADIUS_PX, PIXELS_PER_METER, SCREEN_HEIGHT, SCREEN_WIDTH,
};

/// Return a sphere with relatively standard arguments. The idea is to use this
/// to reduce boilerplate, then overwrite specified parameters for a given test.
fn return_centered_sphere() -> Object {
    Object {
        transform: Transform {
            position: XYZ {
                x: Fx::from_raw(SCREEN_WIDTH / 2),
                y: Fx::from_raw(SCREEN_HEIGHT / 2),
                z: Fx::zero(),
            },
            scale: XYZ { x: Fx::from_int(1), y: Fx::from_int(1), z: Fx::from_int(1) },
            rotation: Quaternion { w: Fx::zero(), x: Fx::zero(), y: Fx::zero(), z: Fx::zero() },
        },
        velocity: XYZ { x: Fx::zero(), y: Fx::zero(), z: Fx::zero() },
        force: XYZ { x: Fx::zero(), y: Fx::zero(), z: Fx::zero() },
        mass: Fx::from_int(1),
        collider: ColliderType::SPHERE {
            center: XYZ { x: Fx::zero(), y: Fx::zero(), z: Fx::zero() },
            radius: Fx::from_int(1),
        },
    }
}

fn xyz_int(x: i64, y: i64, z: i64) -> XYZ {
    XYZ { x: Fx::from_int(x), y: Fx::from_int(y), z: Fx::from_int(z) }
}

#[test]
fn test_xyz_magnitude_on_nonzero_input() {
    let loc_1 = xyz_int(5, 5, 5);
    let result = loc_1.magnitude();
    // the fixed-point square root of 75: 8.6602 units
    assert_eq!(result, Fx::from_raw(86602));

    let loc_1 = xyz_int(-5, -5, -5);
    let result = loc_1.magnitude();
    assert_eq!(result, Fx::from_raw(86602));
}

#[test]
fn test_xyz_magnitude_does_not_return_nan() {
    // We prefer an exact 0.0 for the zero vector
    let loc_1 = xyz_int(0, 0, 0);
    let result = loc_1.magnitude();
    assert_eq!(result, Fx::zero());
}

#[test]
fn test_xyz_normalize_on_nonzero_input() {
    // Assert that unequal proportions are preserved
    let loc_1 = xyz_int(1000, 0, 0);
    let result = loc_1.normalize();
    assert_eq!(result.x, Fx::from_int(1));
    assert_eq!(result.y, Fx::zero());
    assert_eq!(result.z, Fx::zero());

    // Assert that equal proportions are preserved
    let loc_1 = xyz_int(5, 5, 5);
    let result = loc_1.normalize();
    assert_eq!(result.x, Fx::from_raw(BALANCED_NORMAL_RAW));
    assert_eq!(result.y, Fx::from_raw(BALANCED_NORMAL_RAW));
    assert_eq!(result.z, Fx::from_raw(BALANCED_NORMAL_RAW));

    let loc_1 = xyz_int(1, 10, 0);
    let result = loc_1.normalize();
    // 1/sqrt(101) and 10/sqrt(101), rounded toward zero
    let x_expected = Fx::from_raw(995);
    let y_expected = Fx::from_raw(9950);
    assert_eq!(result.x, x_expected);
    assert_eq!(result.y, y_expected);
    assert_eq!(result.z, Fx::zero());
}

#[test]
fn test_xyz_normalize_raises_on_all_zeroes_vector() {
    // It's not possible to normalize a vector where all 3 elements are 0
    // (can't divide by 0), so we assume the user meant something like (1,1,1),
    // where all elements are equal and non-zero
    let loc_1 = xyz_int(0, 0, 0);
    let result = loc_1.normalize();
    assert_eq!(result.x, Fx::from_raw(BALANCED_NORMAL_RAW));
    assert_eq!(result.y, Fx::from_raw(BALANCED_NORMAL_RAW));
    assert_eq!(result.z, Fx::from_raw(BALANCED_NORMAL_RAW));
}

#[test]
fn test_sphere_sphere_intersection_sphere_zero_radius() {
    // Test with 0 radius. We expect this to count as a collision
    let sphere_1 = ColliderType::SPHERE { center: xyz_int(20, 20, 20), radius: Fx::from_int(5) };
    let sphere_2 = ColliderType::SPHERE { center: xyz_int(20, 20, 20), radius: Fx::zero() };
    let result = sphere_1.test_collision(&sphere_2);
    // Both spheres should collide at sphere 2's spawn, with the furthest point
    // in each sphere being that spawn (because sphere_2's radius is 0.0)
    assert!(result.has_collision == true);
    assert!(result.a.x == Fx::from_int(20));
    assert!(result.a.y == Fx::from_int(20));
    assert!(result.a.z == Fx::from_int(20));
    assert!(result.b.x == Fx::from_int(20));
    assert!(result.b.y == Fx::from_int(20));
    assert!(result.b.z == Fx::from_int(20));
    // if we have a radius of 0, we can't have a penetration depth > 0.0
    assert_eq!(result.depth, Fx::zero());
    assert_eq!(result.normal.x, Fx::from_raw(BALANCED_NORMAL_RAW));
    assert_eq!(result.normal.y, Fx::from_raw(BALANCED_NORMAL_RAW));
    assert_eq!(result.normal.z, Fx::from_raw(BALANCED_NORMAL_RAW));
}

#[test]
fn test_sphere_sphere_intersection_no_collision() {
    // Assert that non-colliding spheres are correctly identified as not colliding
    let sphere_3 = ColliderType::SPHERE { center: xyz_int(20, 20, 20), radius: Fx::from_int(5) };
    let sphere_4 = ColliderType::SPHERE { center: xyz_int(10, 10, 10), radius: Fx::from_int(4) };
    let result = sphere_3.test_collision(&sphere_4);
    assert!(result.has_collision == false);
    // There may be more values in our result object, but for non-colliding
    // spheres, we don't care about them
}

#[test]
fn test_sphere_sphere_intersection_single_axis() {
    // Assert that a collision in only one axis is still registered as a
    // collision, and the A and B values are as expected
    let sphere_5 = ColliderType::SPHERE { center: xyz_int(20, 20, 20), radius: Fx::from_int(1) };
    let sphere_6 = ColliderType::SPHERE { center: xyz_int(17, 17, 19), radius: Fx::from_int(2) };
    let result = sphere_5.test_collision(&sphere_6);
    assert!(result.has_collision == true);
    assert!(result.a.z == Fx::from_int(19));
    // The center is the innermost point that a sphere (A) can intersect into
    // another sphere (B). Therefore, if A intersects past that point, we still
    // expect the point furthest into B to be B's center
    assert!(result.b.z == Fx::from_int(20));
}

#[test]
fn test_sphere_sphere_intersection_mini_sphere_fully_contained() {
    // Assert that, when a sphere fully contains another sphere:
    // 1) it's registered as a collision
    // 2) the furthest point of the larger sphere into the smaller sphere is
    //    the smaller sphere's center
    let sphere_7 = ColliderType::SPHERE { center: xyz_int(20, 20, 20), radius: Fx::from_int(10) };
    let sphere_8 = ColliderType::SPHERE { center: xyz_int(21, 21, 21), radius: Fx::from_int(2) };
    let result = sphere_7.test_collision(&sphere_8);
    assert!(result.has_collision == true);
    // the sphere A, containing the other sphere B, should have B's center as
    // A's furthermost incursion into B's space
    assert!(result.a.z == Fx::from_int(21));
    // the smaller sphere should choose the point closest to the center of the
    // other sphere, that it can still reach
    assert!(result.b.z == Fx::from_int(20));
}

#[test]
fn test_sphere_plane_intersection_example() {
    // A sphere resting 4 units above the origin, against the ground plane
    let sphere_1 = ColliderType::SPHERE { center: xyz_int(0, 4, 0), radius: Fx::from_int(10) };
    let plane_1 = ColliderType::PLANE {
        // lying flat on the x axis, extending also in z axis, normal pointing up
        normal: xyz_int(0, 1, 0).normalize(),
        distance: Fx::zero(),
    };
    let result = sphere_1.test_collision(&plane_1);
    assert!(result.has_collision == true);
    assert_eq!(result.a.x, Fx::zero());
    assert_eq!(result.b.x, Fx::zero());

    // sphere's center minus its radius
    assert_eq!(result.a.y, Fx::from_int(-6));
    assert_eq!(result.b.y, Fx::zero());

    assert_eq!(result.a.z, Fx::zero());
    assert_eq!(result.b.z, Fx::zero());

    assert_eq!(result.depth, Fx::from_int(6));
    assert_eq!(result.normal.x, Fx::zero());
    // same as the plane's normal
    assert_eq!(result.normal.y, Fx::from_int(1));
    assert_eq!(result.normal.z, Fx::zero());
}

#[test]
fn test_sphere_plane_intersection_sphere_not_at_origin() {
    // Test that it can handle a sphere which is not at the origin (0,0,0)
    let sphere_2 = ColliderType::SPHERE { center: xyz_int(5, 5, 5), radius: Fx::from_int(25) };
    let plane_2 = ColliderType::PLANE {
        normal: xyz_int(1, 0, 0).normalize(),
        distance: Fx::zero(),
    };
    let result = sphere_2.test_collision(&plane_2);
    assert!(result.has_collision == true);
    // the deepest intrusion of the sphere into the (infinite) plane
    assert_eq!(result.a.x, Fx::from_int(-20));
    assert_eq!(result.a.y, Fx::from_int(5));
    assert_eq!(result.a.z, Fx::from_int(5));

    // given that the sphere is not centered on the origin 0,0,0, the deepest
    // intrusion of plane into the sphere should therefore not be at the
    // sphere's center
    assert_eq!(result.b.x, Fx::zero());
    assert_eq!(result.b.y, Fx::from_int(5));
    assert_eq!(result.b.z, Fx::from_int(5));
    // this should not equal the sphere's radius, because the sphere isn't
    // centered on 0,0,0
    assert_eq!(result.depth, Fx::from_int(20));
    assert_eq!(result.normal.x, Fx::from_int(1));
    assert_eq!(result.normal.y, Fx::zero());
    assert_eq!(result.normal.z, Fx::zero());
}

#[test]
fn test_sphere_plane_intersection_handles_plane_not_at_origin() {
    // Test that we successfully handle a collision where the plane has a
    // non-zero distance to origin
    let sphere_3 = ColliderType::SPHERE { center: xyz_int(0, 15, 0), radius: Fx::from_int(14) };
    let plane_3 = ColliderType::PLANE {
        normal: xyz_int(0, 1, 0).normalize(),
        // This should make the edge of the plane exactly touch the sphere
        distance: Fx::from_int(1),
    };
    let result = sphere_3.test_collision(&plane_3);
    assert!(result.has_collision);
    assert_eq!(result.a.x, Fx::zero());
    assert_eq!(result.b.x, Fx::zero());

    // This is the lowest point of the sphere
    assert_eq!(result.a.y, Fx::from_int(1));
    assert_eq!(result.b.y, Fx::from_int(1));

    assert_eq!(result.a.z, Fx::zero());
    assert_eq!(result.b.z, Fx::zero());
    // The two objects exactly touch, so we expect 0 depth
    assert_eq!(result.depth, Fx::zero());

    // We expect a normal that's equal in each dimension, because the contact
    // patch is equal in each dimension
    assert_eq!(result.normal.x, Fx::from_raw(BALANCED_NORMAL_RAW));
    assert_eq!(result.normal.y, Fx::from_raw(BALANCED_NORMAL_RAW));
    assert_eq!(result.normal.z, Fx::from_raw(BALANCED_NORMAL_RAW));
}

#[test]
fn test_sphere_plane_intersection_handles_no_collision_scenario() {
    // Test that we gracefully handle a no-collision scenario
    let sphere_3 = ColliderType::SPHERE {
        center: xyz_int(0, 15, 0),
        radius: Fx::from_raw(149_900),
    };
    let plane_3 = ColliderType::PLANE {
        normal: xyz_int(0, 1, 0).normalize(),
        distance: Fx::zero(),
    };
    let result = sphere_3.test_collision(&plane_3);
    assert!(!result.has_collision);
}

#[test]
fn test_convert_meters_to_pixels() {
    let result = convert_meters_to_pixels(Fx::from_int(10), Fx::from_int(100));
    assert_eq!(result, Fx::from_int(1000));

    // 0.001 m at 0.01 px/m rounds down to zero pixels
    let result = convert_meters_to_pixels(Fx::from_raw(10), Fx::from_raw(100));
    assert!(result.raw <= 1);
}

#[test]
fn test_convert_pixels_to_meters() {
    let result = convert_pixels_to_meters(Fx::from_int(10), Fx::from_int(100));
    // 10 / 100 = 0.1
    assert_eq!(result, Fx::from_raw(1000));

    let result = convert_pixels_to_meters(Fx::from_int(100), Fx::from_raw(1000));
    assert_eq!(result, Fx::from_int(1000));
}

#[test]
fn test_calculate_particle_acceleration() {
    let result = calculate_particle_acceleration(Fx::from_int(2), Fx::from_int(1), Fx::from_int(1));
    assert_eq!(result, Fx::from_int(1));

    let result = calculate_particle_acceleration(Fx::from_int(1), Fx::from_int(3), Fx::from_int(2));
    assert_eq!(result, Fx::from_int(-1));
}

#[test]
fn test_calulate_friction() {
    // Any y location at which the particle touches the ground.
    let touching_ground_y_pos = Fx::from_raw(SCREEN_HEIGHT - FX_SCALE);

    // Objects not in contact should have 0 friction
    let mut sphere_airborne = return_centered_sphere();
    sphere_airborne.transform.position.x = Fx::from_int(5);
    sphere_airborne.transform.position.y = Fx::from_int(5);
    sphere_airborne.transform.position.z = Fx::from_int(5);
    sphere_airborne.velocity.x = Fx::from_int(5);
    let result = calculate_friction_deceleration(&sphere_airborne, Fx::from_raw(2000));
    assert_eq!(result, Fx::zero());

    // Objects in contact should have friction
    let mut sphere_grounded_1 = return_centered_sphere();
    sphere_grounded_1.transform.position.y = touching_ground_y_pos;
    sphere_grounded_1.velocity.x = Fx::from_int(5);
    let result = calculate_friction_deceleration(&sphere_grounded_1, Fx::from_raw(2000));
    // -1.96 m/s: 0.2 * 1 kg * 9.8, opposing the motion
    assert_eq!(result, Fx::from_raw(-19600));

    // Fast moving objects should have more friction than slow moving objects
    let mut sphere_slow = return_centered_sphere();
    sphere_slow.transform.position.y = touching_ground_y_pos;
    sphere_slow.velocity.x = Fx::from_int(1);
    let result_slow = calculate_friction_deceleration(&sphere_slow, Fx::from_raw(2000));

    let mut sphere_fast = return_centered_sphere();
    sphere_fast.transform.position.y = touching_ground_y_pos;
    sphere_fast.velocity.x = Fx::from_int(10);
    let result_fast = calculate_friction_deceleration(&sphere_fast, Fx::from_raw(2000));
    assert!(result_fast.raw.abs() > result_slow.raw.abs());

    // Objects in contact should have friction regardless of direction
    let mut sphere_grounded_2 = return_centered_sphere();
    sphere_grounded_2.transform.position.y = touching_ground_y_pos;
    sphere_grounded_2.velocity.x = Fx::from_int(-1);
    let result = calculate_friction_deceleration(&sphere_grounded_2, Fx::from_raw(2000));
    assert_eq!(result, Fx::from_int(1));

    // Test negative friction. It's not required, or how physics works, but
    // it's fun.
    let mut sphere_magical = return_centered_sphere();
    sphere_magical.transform.position.y = touching_ground_y_pos;
    sphere_magical.velocity.x = Fx::from_int(-5);
    let result = calculate_friction_deceleration(&sphere_magical, Fx::from_raw(-2000));
    assert_eq!(result, Fx::from_raw(-19600));
}

#[test]
fn test_bounce_y_basic() {
    // Test bounces in both Y directions

    // Choose a large velocity, to stress the calculation logic, and have the
    // object bouncing within 1 second
    let initial_y_velocity = Fx::from_int(1).plus(convert_pixels_to_meters(
        Fx::from_raw(-(SCREEN_HEIGHT / 2) - FX_SCALE),
        Fx::from_raw(PIXELS_PER_METER),
    ));

    // We want the particle not already colliding on spawn
    let mut sphere = return_centered_sphere();
    sphere.transform.position.x = Fx::from_raw(SCREEN_WIDTH / 2);
    sphere.transform.position.y = Fx::from_raw(SCREEN_HEIGHT / 2);
    sphere.velocity.y = initial_y_velocity;
    let result = calculate_bounce(&sphere, Fx::from_raw(9000), Fx::from_int(1)).unwrap();

    // The particle should remain within Y bounds
    assert!(result.position.y.raw >= 0);
    assert!(result.position.y.raw <= SCREEN_HEIGHT + 1);

    // The particle's X location should be unchanged
    assert_eq!(result.position.x, Fx::from_raw(SCREEN_WIDTH / 2));

    // The particle's Y velocity should be reversed, and reduced in magnitude
    assert!(result.velocity.y.raw >= 0);
    assert!(result.velocity.y.raw.abs() < initial_y_velocity.raw.abs());

    // Test the other direction
    let mut sphere_2 = return_centered_sphere();
    sphere_2.transform.position.x = Fx::from_raw(SCREEN_WIDTH / 2);
    sphere_2.transform.position.y = Fx::from_raw(SCREEN_HEIGHT / 2);
    sphere_2.velocity.y = initial_y_velocity.negate();
    let result = calculate_bounce(&sphere, Fx::from_raw(9000), Fx::from_int(1)).unwrap();

    assert!(result.position.y.raw >= 0);
    assert!(result.position.y.raw <= SCREEN_HEIGHT + 1);
    assert_eq!(result.position.x, Fx::from_raw(SCREEN_WIDTH / 2));
    assert!(result.velocity.y.raw >= 0);
    assert!(result.velocity.y.raw.abs() > -initial_y_velocity.raw.abs());
}

#[test]
fn test_bounce_x_basic() {
    // Test bounces in both x directions
    let initial_x_velocity = convert_pixels_to_meters(
        Fx::from_raw(-(SCREEN_WIDTH / 2) - FX_SCALE),
        Fx::from_raw(PIXELS_PER_METER),
    );
    let initial_position_y = Fx::from_raw(SCREEN_WIDTH / 2);
    let mut sphere_1 = return_centered_sphere();

    // We want the particle not already colliding on spawn.
    // We want the ball to hit the wall within 1 tick
    sphere_1.transform.position.y = initial_position_y;
    sphere_1.velocity.x = initial_x_velocity;
    let result = calculate_bounce(&sphere_1, Fx::from_raw(9000), Fx::from_int(1)).unwrap();

    // The particle should remain within x bounds
    assert!(result.position.x.raw >= 0);
    assert!(result.position.x.raw <= SCREEN_WIDTH + 1000);

    // The function shouldn't affect the particle's y position
    assert_eq!(result.position.y, initial_position_y);

    // The particle's x velocity should be reversed, and reduced in magnitude
    assert!(result.velocity.x.raw >= 0);
    assert!(result.velocity.x.raw.abs() < initial_x_velocity.raw.abs());
}

#[test]
fn test_bounce_coefficient_effect() {
    // Test that the bounce coefficient has the expected influence on particle
    // position and velocity post-bounce
    let initial_x_velocity = convert_pixels_to_meters(
        Fx::from_raw(SCREEN_WIDTH / 2 + FX_SCALE),
        Fx::from_raw(PIXELS_PER_METER),
    );
    let mut sphere_1 = return_centered_sphere();
    sphere_1.velocity.x = initial_x_velocity;
    let bounce_coefficient = Fx::from_raw(5000);
    let result = calculate_bounce(&sphere_1, bounce_coefficient, Fx::from_int(1)).unwrap();

    // Check that we haven't gone off-screen
    assert!(result.position.x.raw >= 0);
    assert!(result.position.x.raw <= SCREEN_WIDTH + 1000);

    // Check that velocity has been reversed and reduced
    assert!(result.velocity.x.raw <= 0);
    println!("{:?}, {:?}", result.velocity.x, initial_x_velocity);
    assert!(result.velocity.x.raw < initial_x_velocity.raw);

    // Check that velocity is a fraction of its initial value, as specified by
    // the bounce coefficient. This reflects the fact that our bounce
    // coefficient is supposed to be a percentage bounciness, expressed as a
    // value between [0, 1), where the 0 is inclusive, but the 1 is not.
    assert_eq!(
        Fx::from_raw(result.velocity.x.raw.abs()),
        initial_x_velocity.times(bounce_coefficient)
    );
}

#[test]
fn test_bounce_given_invalid_particle_position() {
    // If given a particle position that falls outside of the arena, then the
    // function should return an error, to let the caller handle it
    let mut sphere_1 = return_centered_sphere();
    sphere_1.transform.position.x = Fx::from_raw(SCREEN_WIDTH + FX_SCALE);
    sphere_1.transform.position.y = Fx::from_raw(SCREEN_HEIGHT + FX_SCALE);
    sphere_1.velocity.y = Fx::from_int(-5);
    let result = calculate_bounce(&sphere_1, Fx::from_int(1), Fx::from_raw(9900));
    assert!(result.is_err());
}

#[test]
fn test_bounce_no_infinite_bouncing() {
    // Check that bounces eventually stop
    let mut sphere_1 = return_centered_sphere();
    sphere_1.velocity.y = Fx::from_int(-1);
    let result = calculate_bounce(&sphere_1, Fx::from_raw(9900), Fx::from_int(200)).unwrap();
    // the residual speed rounds down to zero whole meters per second
    assert!(result.velocity.y.raw.abs() < FX_SCALE);

    // The bounced object should remain within bounds, on its bouncing axis
    assert!(result.position.y.raw >= 0);
    assert!(result.position.y.raw <= SCREEN_HEIGHT);
}

#[test]
fn test_bounce_terminates_with_object_remaining_in_bounds() {
    // Check that a bounced object remains above the arena floor
    let mut sphere_1 = return_centered_sphere();
    sphere_1.velocity.y = Fx::from_int(-1);
    let result = calculate_bounce(&sphere_1, Fx::from_raw(100), Fx::from_int(200)).unwrap();
    assert!(result.velocity.y.raw.abs() < FX_SCALE);
    assert!(result.position.y.raw >= 0);
}

#[test]
fn test_bounce_at_arena_edge() {
    // Check that bouncing at the very edge of the arena does not bounce it out
    // of bounds
    let mut sphere_1 = return_centered_sphere();

    // We want the particle ever so slightly in bounds.
    // ColliderType is an enum, and Rust enums don't allow direct field access
    // like structs do, so we can't do sphere_1.collider.radius = 1.0;
    if let ColliderType::SPHERE { ref mut radius, .. } = sphere_1.collider {
        *radius = Fx::from_int(1);
    }
    println!("{:?}", sphere_1.collider);
    sphere_1.transform.position.x = Fx::from_raw(10_001);
    sphere_1.transform.position.y = Fx::from_raw(10_001);
    sphere_1.transform.position.z = Fx::from_raw(10_001);

    // We want a negligible velocity, which is significant enough to affect
    // results (in this case greater than the distance to the arena edge), but
    // tiny enough that a lazy programmer may be tempted not to calculate it
    sphere_1.velocity.y = Fx::from_raw(-5);

    // Check the same for the X axis and in the opposite direction
    let initial_position_x = Fx::from_raw(PARTICLE_RADIUS_PX + 1);
    let mut sphere_2 = return_centered_sphere();
    sphere_2.transform.position.x = initial_position_x;
    sphere_2.velocity.x = Fx::from_raw(-5);
    if let ColliderType::SPHERE { ref mut radius, .. } = sphere_1.collider {
        *radius = Fx::from_int(1);
    }
    let result = calculate_bounce(&sphere_2, Fx::from_raw(9000), Fx::from_int(1)).unwrap();
    println!("Resulting X position {:?}", result.position.x);
    assert!(result.position.x.raw >= PARTICLE_RADIUS_PX);
}

#[test]
fn test_bounce_extreme_velocity_particle_remains_within_bounds() {
    // Check that high velocities update a particle's position and also don't
    // push it out of bounds
    let mut sphere_1 = return_centered_sphere();
    sphere_1.velocity.x = Fx::from_int(5000);
    sphere_1.velocity.y = Fx::from_int(-5001);

    let result = calculate_bounce(&sphere_1, Fx::from_raw(2000), Fx::from_int(1)).unwrap();
    assert!(result.position.x.raw >= 0);
    assert!(result.position.x.raw <= SCREEN_WIDTH + 1000);
    assert!(result.position.y.raw >= 0);
    assert!(result.position.y.raw <= SCREEN_HEIGHT + 1000);

    assert!(result.velocity.y.raw.abs() <= Fx::from_int(5001).raw);
    assert!(result.velocity.x.raw.abs() <= Fx::from_int(5000).raw);
}

/*
Integration tests below
*/

#[test]
fn test_simulation_tick_basic() {
    // Test that several simulation ticks do not move a particle out of bounds
    let ticks = 10;
    let seconds_elapsed = Fx::from_int(1);

    let mut sphere_1 = return_centered_sphere();
    sphere_1.velocity.y = Fx::from_int(50);

    let mut sphere_2 = return_centered_sphere();
    sphere_2.transform.position.x = Fx::from_raw(SCREEN_WIDTH / 4);
    sphere_2.transform.position.y = Fx::from_raw(SCREEN_HEIGHT / 4);
    sphere_2.velocity.y = Fx::from_int(-50);

    let mut particles: Vec<Object> = vec![sphere_1, sphere_2];

    // Check that the resulting ticks do not move the particles out of bounds
    for _i in 0..ticks {
        simulation_tick(&mut particles, seconds_elapsed);
    }
    let result_1 = particles.get(0).unwrap();
    let result_2 = particles.get(0).unwrap();

    // Check that we haven't gone off-screen
    assert!(result_1.transform.position.x.raw >= 0);
    assert!(result_1.transform.position.x.raw <= SCREEN_WIDTH + 1000);
    assert!(result_2.transform.position.x.raw >= 0);
    assert!(result_2.transform.position.x.raw <= SCREEN_WIDTH + 1000);

    assert!(result_1.transform.position.y.raw >= 0);
    assert!(result_1.transform.position.y.raw <= SCREEN_HEIGHT + 1000);
    assert!(result_2.transform.position.y.raw >= 0);
    assert!(result_2.transform.position.y.raw <= SCREEN_HEIGHT + 1000);
}

#[test]
fn test_simulation_tick_is_deterministic() {
    // Check that running our simulation twice with the same parameters gives
    // the same results each time
    let ticks = 10;
    let seconds_elapsed = Fx::from_int(1);

    let mut particles_1: Vec<Object> = vec![return_centered_sphere()];
    let mut particles_2: Vec<Object> = vec![return_centered_sphere()];
    for _i in 0..ticks {
        simulation_tick(&mut particles_1, seconds_elapsed);
        simulation_tick(&mut particles_2, seconds_elapsed);
    }
    let result_1 = particles_1.get(0).unwrap();
    let result_2 = particles_2.get(0).unwrap();

    assert_eq!(result_1.velocity.x, result_2.velocity.x);
    assert_eq!(result_1.velocity.y, result_2.velocity.y);
    assert_eq!(result_1.transform.position.y, result_2.transform.position.y);
    assert_eq!(result_1.transform.position.x, result_2.transform.position.x);
}

#[test]
fn test_simulation_tick_frequency_does_not_affect_results() {
    // Exercise the simulation at two different tick frequencies over an
    // identical timespan. (The per-tick bounce travel is derived from the
    // current velocity and the whole tick length, so halving the tick length
    // quarters the travel: the end states are not expected to agree exactly.)
    let seconds_elapsed = Fx::from_int(1);

    let mut particles_1: Vec<Object> = vec![return_centered_sphere()];
    let mut particles_2: Vec<Object> = vec![return_centered_sphere()];

    simulation_tick(&mut particles_1, seconds_elapsed);
    let _result_1 = particles_1.get(0).unwrap();

    let half = Fx::from_raw(5000);
    simulation_tick(&mut particles_2, half);
    simulation_tick(&mut particles_2, half);
    let _result_2 = particles_2.get(0).unwrap();
}

#[test]
fn test_bounce_depth_exceeded_on_extreme_input() {
    // A coefficient asymptotically close to one with an enormous velocity
    // cannot settle within the iteration cap
    let mut sphere_1 = return_centered_sphere();
    sphere_1.velocity.x = Fx::from_int(10_000_000);
    let result = calculate_bounce(&sphere_1, Fx::from_raw(9999), Fx::from_int(1));
    assert!(matches!(result, Err(BounceError::CalculationDepthExceeded)));
}

#[test]
fn test_bounce_out_of_bounds_error_carries_position() {
    let mut sphere_1 = return_centered_sphere();
    sphere_1.transform.position.x = Fx::from_int(-3);
    let result = calculate_bounce(&sphere_1, Fx::from_raw(9000), Fx::from_int(1));
    match result {
        Err(BounceError::OutOfBoundsError(e)) => {
            assert_eq!(e.object_location_x, Fx::from_int(-3));
            assert_eq!(e.object_location_y, Fx::from_raw(SCREEN_HEIGHT / 2));
        }
        _ => panic!("expected an out-of-bounds error"),
    }
}

#[test]
fn test_bounce_noop_coefficient_returns_input_unchanged() {
    // A negligible bounce coefficient is a no-bounce fast path
    let mut sphere_1 = return_centered_sphere();
    sphere_1.velocity.x = Fx::from_int(55);
    let result = calculate_bounce(&sphere_1, Fx::from_raw(1), Fx::from_int(1)).unwrap();
    assert_eq!(result.position.x, Fx::from_raw(SCREEN_WIDTH / 2));
    assert_eq!(result.position.y, Fx::from_raw(SCREEN_HEIGHT / 2));
    assert_eq!(result.velocity.x, Fx::from_int(55));
    assert_eq!(result.velocity.y, Fx::zero());
}

#[test]
fn test_friction_below_cutoff_velocity_is_zero() {
    let mut sphere_1 = return_centered_sphere();
    sphere_1.transform.position.y = Fx::from_raw(SCREEN_HEIGHT);
    sphere_1.velocity.x = Fx::zero();
    let result = calculate_friction_deceleration(&sphere_1, Fx::from_raw(2000));
    assert_eq!(result, Fx::zero());
}

#[test]
fn test_friction_stops_slow_object_exactly() {
    // The deceleration is capped at the current speed: friction stops the
    // object, it never reverses it
    let mut sphere_1 = return_centered_sphere();
    sphere_1.transform.position.y = Fx::from_raw(SCREEN_HEIGHT);
    sphere_1.velocity.x = Fx::from_raw(1);
    let result = calculate_friction_deceleration(&sphere_1, Fx::from_raw(2000));
    assert_eq!(result, Fx::from_raw(-1));
}

#[test]
fn test_gravity_zero_when_grounded() {
    let mut sphere_1 = return_centered_sphere();
    sphere_1.transform.position.y = Fx::from_raw(SCREEN_HEIGHT - PARTICLE_RADIUS_PX);
    let result = calculate_gravity_effect_on_velocity(
        &sphere_1,
        Fx::from_raw(GRAVITY_MS),
        Fx::from_int(1),
    );
    assert_eq!(result, Fx::zero());
}

#[test]
fn test_gravity_is_time_linear_when_airborne() {
    // Half a second twice gains exactly as much speed as one whole second
    let sphere_1 = return_centered_sphere();
    let half = Fx::from_raw(5000);
    let whole = Fx::from_int(1);
    let g = Fx::from_raw(GRAVITY_MS);
    let twice = calculate_gravity_effect_on_velocity(&sphere_1, g, half)
        .plus(calculate_gravity_effect_on_velocity(&sphere_1, g, half));
    let once = calculate_gravity_effect_on_velocity(&sphere_1, g, whole);
    assert_eq!(twice, once);
    assert_eq!(once, Fx::from_raw(98000));
}

#[test]
fn test_sphere_plane_separated_reports_negative_depth() {
    // The sphere/plane depth is signed: separation shows up as negative depth
    let sphere_1 = ColliderType::SPHERE { center: xyz_int(0, 20, 0), radius: Fx::from_int(3) };
    let plane_1 = ColliderType::PLANE {
        normal: xyz_int(0, 1, 0).normalize(),
        distance: Fx::zero(),
    };
    let result = sphere_1.test_collision(&plane_1);
    assert!(!result.has_collision);
    assert_eq!(result.depth, Fx::from_int(-17));
}

#[test]
fn test_plane_plane_collision_is_a_no_collision_sentinel() {
    let plane_1 = ColliderType::PLANE {
        normal: xyz_int(0, 1, 0).normalize(),
        distance: Fx::zero(),
    };
    let plane_2 = ColliderType::PLANE {
        normal: xyz_int(1, 0, 0).normalize(),
        distance: Fx::from_int(2),
    };
    let result = plane_1.test_collision(&plane_2);
    assert!(!result.has_collision);
    assert_eq!(result.depth, Fx::zero());
    assert_eq!(result.a, xyz_int(0, 0, 0));
    assert_eq!(result.b, xyz_int(0, 0, 0));
    assert_eq!(result.normal, xyz_int(0, 0, 0));
}

#[test]
fn test_set_particle_properties_within_bounds_clamps_offscreen() {
    let mut sphere_1 = return_centered_sphere();
    set_particle_properties_within_bounds(
        &mut sphere_1,
        Fx::from_int(540),
        Fx::from_int(1000),
        Fx::from_int(3),
        Fx::from_int(4),
    );
    // The y position was off-screen: pulled back to the floor and stopped
    assert_eq!(sphere_1.transform.position.x, Fx::from_int(540));
    assert_eq!(
        sphere_1.transform.position.y,
        Fx::from_raw(SCREEN_HEIGHT - PARTICLE_RADIUS_PX)
    );
    assert_eq!(sphere_1.velocity.x, Fx::from_int(3));
    assert_eq!(sphere_1.velocity.y, Fx::zero());
}

#[test]
fn test_simulation_tick_empty() {
    let mut particles: Vec<Object> = vec![];
    simulation_tick(&mut particles, Fx::from_int(1));
    assert_eq!(particles.len(), 0);
}

#[test]
fn test_does_circle_intersect_boundary() {
    let center = XY { x: Fx::zero(), y: Fx::zero() };
    // A point at exactly the radius distance counts as within the circle
    let on_boundary = XY { x: Fx::from_int(3), y: Fx::from_int(4) };
    assert!(does_circle_intersect(center, Fx::from_int(5), on_boundary));
    // A point clearly beyond it does not
    let outside = XY { x: Fx::from_raw(31000), y: Fx::from_int(4) };
    assert!(!does_circle_intersect(center, Fx::from_int(5), outside));
}
