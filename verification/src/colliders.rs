//! Narrow-phase collision tests between spheres and planes.
//!
//! `test_collision` is total over every shape pair: the plane/plane pair has
//! no contact computation and reports a well-defined "no collision" value
//! rather than failing.

use crate::fx::{
    div_trunc, fx_mul, iabs, lemma_div_trunc_abs, lemma_fx_mul_unit_bound, Fx, FX_SCALE,
};
use crate::xyz::{magnitude_spec, normalize_spec, xyz_raw, XYZ};
use vstd::arithmetic::div_mod::lemma_div_is_ordered;
use vstd::prelude::*;

verus! {

/// Bound (in raw steps) on the coordinates, radii and plane offsets accepted
/// by the collision tests; it keeps every intermediate value within the range
/// of the vector operations.
pub const COLLIDER_LIMIT_RAW: i64 = 100_000_000_000;

/// Contact information produced by a collision test.
///
/// `a` is the deepest point of the first shape into the second, `b` the
/// deepest point of the second into the first, `normal` the normalized
/// direction from `a` toward `b`, and `depth` the penetration distance
/// (negative for a separated sphere/plane pair).
#[derive(Clone, Copy, Debug, PartialEq, Eq, Structural)]
pub struct CollisionPoints {
    pub a: XYZ,
    pub b: XYZ,
    pub normal: XYZ,
    pub depth: Fx,
    pub has_collision: bool,
}

/// A collider shape.
#[allow(non_camel_case_types)]
#[derive(Clone, Copy, Debug)]
pub enum ColliderType {
    SPHERE { center: XYZ, radius: Fx },
    /// The normal must be normalized by the caller. It is never re-normalized
    /// here, so that repeated normalization cannot compound rounding drift.
    PLANE { normal: XYZ, distance: Fx },
}

/// The collider's coordinates lie within the range the tests accept, a
/// sphere's radius is nonnegative, and a plane's normal has coordinates of at
/// most one unit (true of any normalized vector).
pub open spec fn collider_valid(c: ColliderType) -> bool {
    match c {
        ColliderType::SPHERE { center, radius } => iabs(center.x@) <= COLLIDER_LIMIT_RAW && iabs(
            center.y@,
        ) <= COLLIDER_LIMIT_RAW && iabs(center.z@) <= COLLIDER_LIMIT_RAW && 0 <= radius@
            <= COLLIDER_LIMIT_RAW,
        ColliderType::PLANE { normal, distance } => iabs(normal.x@) <= FX_SCALE && iabs(normal.y@)
            <= FX_SCALE && iabs(normal.z@) <= FX_SCALE && iabs(distance@) <= COLLIDER_LIMIT_RAW,
    }
}

/// The two spheres overlap along one axis: their centers are closer than the
/// larger radius.
pub open spec fn axis_overlap(c1: int, c2: int, r_big: int) -> bool {
    iabs(c1 - c2) < r_big
}

/// Deepest coordinate of the first sphere into the second along one axis: the
/// first center moved toward the second by the smaller radius, but never past
/// the second center. Axes without overlap carry no contact and report zero.
pub open spec fn axis_furthest(c1: int, c2: int, r_small: int, overlap: bool) -> int {
    if !overlap {
        0
    } else if c1 <= c2 {
        if c1 + r_small <= c2 {
            c1 + r_small
        } else {
            c2
        }
    } else {
        if c1 - r_small >= c2 {
            c1 - r_small
        } else {
            c2
        }
    }
}

/// The larger of the two radii.
pub open spec fn radius_big(r1: int, r2: int) -> int {
    if r1 >= r2 {
        r1
    } else {
        r2
    }
}

/// The smaller of the two radii.
pub open spec fn radius_small(r1: int, r2: int) -> int {
    if r1 >= r2 {
        r2
    } else {
        r1
    }
}

/// Result of the sphere/sphere test. Overlap is decided per axis against the
/// larger radius and combined with a logical "or": an interval overlap test,
/// not a Euclidean distance test.
pub open spec fn sphere_sphere_spec(c1: XYZ, r1: int, c2: XYZ, r2: int) -> CollisionPoints {
    let rb = radius_big(r1, r2);
    let rs = radius_small(r1, r2);
    let ox = axis_overlap(c1.x@, c2.x@, rb);
    let oy = axis_overlap(c1.y@, c2.y@, rb);
    let oz = axis_overlap(c1.z@, c2.z@, rb);
    let a = xyz_raw(
        axis_furthest(c1.x@, c2.x@, rs, ox),
        axis_furthest(c1.y@, c2.y@, rs, oy),
        axis_furthest(c1.z@, c2.z@, rs, oz),
    );
    let b = xyz_raw(
        axis_furthest(c2.x@, c1.x@, rs, ox),
        axis_furthest(c2.y@, c1.y@, rs, oy),
        axis_furthest(c2.z@, c1.z@, rs, oz),
    );
    let diff = xyz_raw(b.x@ - a.x@, b.y@ - a.y@, b.z@ - a.z@);
    CollisionPoints {
        a,
        b,
        normal: normalize_spec(diff),
        depth: Fx { raw: magnitude_spec(diff) as i64 },
        has_collision: ox || oy || oz,
    }
}

/// Signed distance from the sphere's center to the plane: the dot product of
/// the center relative to the plane's anchor point with the plane's normal.
pub open spec fn plane_sphere_distance(normal: XYZ, distance: int, center: XYZ) -> int {
    div_trunc(
        (center.x@ - fx_mul(normal.x@, distance)) * normal.x@ + (center.y@ - fx_mul(
            normal.y@,
            distance,
        )) * normal.y@ + (center.z@ - fx_mul(normal.z@, distance)) * normal.z@,
        FX_SCALE as int,
    )
}

/// Result of the sphere/plane test. `a` is the lowest point of the sphere
/// along the inverted normal, `b` the projection of the center onto the
/// plane; the pair touches or overlaps exactly when the center's distance is
/// at most the radius, and `depth` is signed (negative when separated).
pub open spec fn plane_sphere_spec(normal: XYZ, distance: int, center: XYZ, radius: int) -> CollisionPoints {
    let d = plane_sphere_distance(normal, distance, center);
    let a = xyz_raw(
        center.x@ - fx_mul(normal.x@, radius),
        center.y@ - fx_mul(normal.y@, radius),
        center.z@ - fx_mul(normal.z@, radius),
    );
    let b = xyz_raw(
        center.x@ - fx_mul(normal.x@, d),
        center.y@ - fx_mul(normal.y@, d),
        center.z@ - fx_mul(normal.z@, d),
    );
    let diff = xyz_raw(b.x@ - a.x@, b.y@ - a.y@, b.z@ - a.z@);
    CollisionPoints {
        a,
        b,
        normal: normalize_spec(diff),
        depth: Fx { raw: (radius - d) as i64 },
        has_collision: d <= radius,
    }
}

/// Result of the plane/plane pair: contact points for two planes are not
/// computed, so the test reports no collision with zero vectors.
pub open spec fn plane_plane_spec() -> CollisionPoints {
    CollisionPoints {
        a: xyz_raw(0, 0, 0),
        b: xyz_raw(0, 0, 0),
        normal: xyz_raw(0, 0, 0),
        depth: Fx { raw: 0 },
        has_collision: false,
    }
}

/// Result of `test_collision`, for every shape pair. The sphere/plane pair is
/// symmetric: either argument order tests the same sphere against the same
/// plane.
pub open spec fn test_collision_spec(a: ColliderType, b: ColliderType) -> CollisionPoints {
    match (a, b) {
        (
            ColliderType::PLANE { normal: n1, distance: d1 },
            ColliderType::PLANE { normal: n2, distance: d2 },
        ) => plane_plane_spec(),
        (
            ColliderType::PLANE { normal: n1, distance: d1 },
            ColliderType::SPHERE { center: c1, radius: r1 },
        ) => plane_sphere_spec(n1, d1@, c1, r1@),
        (
            ColliderType::SPHERE { center: c1, radius: r1 },
            ColliderType::PLANE { normal: n1, distance: d1 },
        ) => plane_sphere_spec(n1, d1@, c1, r1@),
        (
            ColliderType::SPHERE { center: c1, radius: r1 },
            ColliderType::SPHERE { center: c2, radius: r2 },
        ) => sphere_sphere_spec(c1, r1@, c2, r2@),
    }
}

/// Sphere-plane touching case: a sphere exactly tangent to a plane (the
/// center's signed distance equals the radius) registers as a collision, with
/// zero penetration depth.
pub proof fn lemma_sphere_plane_tangent(normal: XYZ, distance: Fx, center: XYZ, radius: Fx)
    requires
        plane_sphere_distance(normal, distance@, center) == radius@,
    ensures
        plane_sphere_spec(normal, distance@, center, radius@).has_collision,
        plane_sphere_spec(normal, distance@, center, radius@).depth@ == 0,
{
}

/// Sphere-sphere containment: when the centers are separated by at most the
/// smaller radius on every axis (and strictly less than the larger, so every
/// axis overlaps), each sphere's deepest point into the other is exactly the
/// other sphere's center.
pub proof fn lemma_sphere_containment(c1: XYZ, r1: Fx, c2: XYZ, r2: Fx)
    requires
        iabs(c1.x@ - c2.x@) <= radius_small(r1@, r2@),
        iabs(c1.y@ - c2.y@) <= radius_small(r1@, r2@),
        iabs(c1.z@ - c2.z@) <= radius_small(r1@, r2@),
        iabs(c1.x@ - c2.x@) < radius_big(r1@, r2@),
        iabs(c1.y@ - c2.y@) < radius_big(r1@, r2@),
        iabs(c1.z@ - c2.z@) < radius_big(r1@, r2@),
    ensures
        sphere_sphere_spec(c1, r1@, c2, r2@).has_collision,
        sphere_sphere_spec(c1, r1@, c2, r2@).a == c2,
        sphere_sphere_spec(c1, r1@, c2, r2@).b == c1,
{
}

/// Narrow-phase collision test between two colliders.
pub trait TestCollision {
    /// The collider shape this object tests as.
    spec fn as_collider(&self) -> ColliderType;

    /// Contact information for the pair `(self, collider)`.
    fn test_collision(&self, collider: &ColliderType) -> (r: CollisionPoints)
        requires
            collider_valid(self.as_collider()),
            collider_valid(*collider),
        ensures
            r == test_collision_spec(self.as_collider(), *collider),
    ;
}

impl TestCollision for ColliderType {
    open spec fn as_collider(&self) -> ColliderType {
        *self
    }

    fn test_collision(&self, collider: &ColliderType) -> (r: CollisionPoints) {
        match (self, collider) {
            (
                ColliderType::PLANE { normal: n1, distance: d1 },
                ColliderType::PLANE { normal: n2, distance: d2 },
            ) => plane_plane_collision_points(n1, d1, n2, d2),
            (
                ColliderType::PLANE { normal: n1, distance: d1 },
                ColliderType::SPHERE { center: c1, radius: r1 },
            ) => plane_sphere_collision_points(*n1, *d1, *c1, *r1),
            (
                ColliderType::SPHERE { center: c1, radius: r1 },
                ColliderType::PLANE { normal: n1, distance: d1 },
            ) => plane_sphere_collision_points(*n1, *d1, *c1, *r1),
            (
                ColliderType::SPHERE { center: c1, radius: r1 },
                ColliderType::SPHERE { center: c2, radius: r2 },
            ) => sphere_sphere_collision_points(c1, r1, c2, r2),
        }
    }
}

/// Contact of two planes: not computed; a well-defined "no collision" value.
fn plane_plane_collision_points(
    normal_1: &XYZ,
    distance_1: &Fx,
    normal_2: &XYZ,
    distance_2: &Fx,
) -> (r: CollisionPoints)
    ensures
        r == plane_plane_spec(),
{
    CollisionPoints {
        a: XYZ { x: Fx { raw: 0 }, y: Fx { raw: 0 }, z: Fx { raw: 0 } },
        b: XYZ { x: Fx { raw: 0 }, y: Fx { raw: 0 }, z: Fx { raw: 0 } },
        normal: XYZ { x: Fx { raw: 0 }, y: Fx { raw: 0 }, z: Fx { raw: 0 } },
        depth: Fx { raw: 0 },
        has_collision: false,
    }
}

/// Contact of a sphere and a plane with a pre-normalized normal.
fn plane_sphere_collision_points(
    plane_normal: XYZ,
    plane_distance: Fx,
    sphere_center: XYZ,
    sphere_radius: Fx,
) -> (r: CollisionPoints)
    requires
        collider_valid(ColliderType::PLANE { normal: plane_normal, distance: plane_distance }),
        collider_valid(ColliderType::SPHERE { center: sphere_center, radius: sphere_radius }),
    ensures
        r == plane_sphere_spec(plane_normal, plane_distance@, sphere_center, sphere_radius@),
{
    proof {
        lemma_fx_mul_unit_bound(plane_distance@, plane_normal.x@);
        lemma_fx_mul_unit_bound(plane_distance@, plane_normal.y@);
        lemma_fx_mul_unit_bound(plane_distance@, plane_normal.z@);
        assert(fx_mul(plane_distance@, plane_normal.x@) == fx_mul(
            plane_normal.x@,
            plane_distance@,
        ) && fx_mul(plane_distance@, plane_normal.y@) == fx_mul(plane_normal.y@, plane_distance@)
            && fx_mul(plane_distance@, plane_normal.z@) == fx_mul(
            plane_normal.z@,
            plane_distance@,
        )) by (nonlinear_arith);
    }
    let on_plane = plane_normal.scale(plane_distance);
    let rel = sphere_center.minus(on_plane);
    let distance = rel.dot(plane_normal);
    proof {
        let sum = rel.x@ * plane_normal.x@ + rel.y@ * plane_normal.y@ + rel.z@ * plane_normal.z@;
        assert(iabs(rel.x@ * plane_normal.x@) <= 2_000_000_000_000_000 && iabs(
            rel.y@ * plane_normal.y@,
        ) <= 2_000_000_000_000_000 && iabs(rel.z@ * plane_normal.z@) <= 2_000_000_000_000_000)
            by (nonlinear_arith)
            requires
                iabs(rel.x@) <= 2 * COLLIDER_LIMIT_RAW,
                iabs(rel.y@) <= 2 * COLLIDER_LIMIT_RAW,
                iabs(rel.z@) <= 2 * COLLIDER_LIMIT_RAW,
                iabs(plane_normal.x@) <= FX_SCALE,
                iabs(plane_normal.y@) <= FX_SCALE,
                iabs(plane_normal.z@) <= FX_SCALE,
                (rel.x@ >= 0 ==> iabs(rel.x@) == rel.x@) && (rel.x@ < 0 ==> iabs(rel.x@)
                    == -rel.x@),
                (rel.y@ >= 0 ==> iabs(rel.y@) == rel.y@) && (rel.y@ < 0 ==> iabs(rel.y@)
                    == -rel.y@),
                (rel.z@ >= 0 ==> iabs(rel.z@) == rel.z@) && (rel.z@ < 0 ==> iabs(rel.z@)
                    == -rel.z@),
                (plane_normal.x@ >= 0 ==> iabs(plane_normal.x@) == plane_normal.x@) && (
                plane_normal.x@ < 0 ==> iabs(plane_normal.x@) == -plane_normal.x@),
                (plane_normal.y@ >= 0 ==> iabs(plane_normal.y@) == plane_normal.y@) && (
                plane_normal.y@ < 0 ==> iabs(plane_normal.y@) == -plane_normal.y@),
                (plane_normal.z@ >= 0 ==> iabs(plane_normal.z@) == plane_normal.z@) && (
                plane_normal.z@ < 0 ==> iabs(plane_normal.z@) == -plane_normal.z@),
        ;
        lemma_div_trunc_abs(sum, FX_SCALE as int);
        lemma_div_is_ordered(iabs(sum), 6_000_000_000_000_000, FX_SCALE as int);
        assert(iabs(distance@) <= 600_000_000_000);
        lemma_fx_mul_unit_bound(sphere_radius@, plane_normal.x@);
        lemma_fx_mul_unit_bound(sphere_radius@, plane_normal.y@);
        lemma_fx_mul_unit_bound(sphere_radius@, plane_normal.z@);
        lemma_fx_mul_unit_bound(distance@, plane_normal.x@);
        lemma_fx_mul_unit_bound(distance@, plane_normal.y@);
        lemma_fx_mul_unit_bound(distance@, plane_normal.z@);
        assert(fx_mul(sphere_radius@, plane_normal.x@) == fx_mul(
            plane_normal.x@,
            sphere_radius@,
        ) && fx_mul(sphere_radius@, plane_normal.y@) == fx_mul(plane_normal.y@, sphere_radius@)
            && fx_mul(sphere_radius@, plane_normal.z@) == fx_mul(
            plane_normal.z@,
            sphere_radius@,
        )) by (nonlinear_arith);
        assert(fx_mul(distance@, plane_normal.x@) == fx_mul(plane_normal.x@, distance@) && fx_mul(
            distance@,
            plane_normal.y@,
        ) == fx_mul(plane_normal.y@, distance@) && fx_mul(distance@, plane_normal.z@) == fx_mul(
            plane_normal.z@,
            distance@,
        )) by (nonlinear_arith);
    }
    let has_collision = distance.raw <= sphere_radius.raw;
    let a = sphere_center.minus(plane_normal.scale(sphere_radius));
    let b = sphere_center.minus(plane_normal.scale(distance));
    let diff = b.minus(a);
    let normal = diff.normalize();
    let depth = sphere_radius.minus(distance);
    CollisionPoints { a, b, normal, depth, has_collision }
}

/// Deepest coordinate of the first sphere into the second along one axis.
fn furthest_coord(c1: Fx, c2: Fx, r_small: Fx, overlap: bool) -> (r: Fx)
    requires
        iabs(c1@) <= COLLIDER_LIMIT_RAW,
        iabs(c2@) <= COLLIDER_LIMIT_RAW,
        0 <= r_small@ <= COLLIDER_LIMIT_RAW,
    ensures
        r@ == axis_furthest(c1@, c2@, r_small@, overlap),
        iabs(r@) <= COLLIDER_LIMIT_RAW,
{
    if !overlap {
        Fx { raw: 0 }
    } else if c1.raw <= c2.raw {
        let cand = c1.plus(r_small);
        if cand.raw <= c2.raw {
            cand
        } else {
            c2
        }
    } else {
        let cand = c1.minus(r_small);
        if cand.raw >= c2.raw {
            cand
        } else {
            c2
        }
    }
}

/// Contact of two spheres. Each sphere reaches toward the other's center by
/// the smaller radius, never past that center.
fn sphere_sphere_collision_points(
    sphere_1_center: &XYZ,
    sphere_1_radius: &Fx,
    sphere_2_center: &XYZ,
    sphere_2_radius: &Fx,
) -> (r: CollisionPoints)
    requires
        collider_valid(
            ColliderType::SPHERE { center: *sphere_1_center, radius: *sphere_1_radius },
        ),
        collider_valid(
            ColliderType::SPHERE { center: *sphere_2_center, radius: *sphere_2_radius },
        ),
    ensures
        r == sphere_sphere_spec(*sphere_1_center, sphere_1_radius@, *sphere_2_center, sphere_2_radius@),
{
    let larger_radius = if sphere_1_radius.raw >= sphere_2_radius.raw {
        *sphere_1_radius
    } else {
        *sphere_2_radius
    };
    let smaller_radius = if sphere_1_radius.raw >= sphere_2_radius.raw {
        *sphere_2_radius
    } else {
        *sphere_1_radius
    };
    let x_collision = sphere_1_center.x.minus(sphere_2_center.x).abs_val().raw < larger_radius.raw;
    let y_collision = sphere_1_center.y.minus(sphere_2_center.y).abs_val().raw < larger_radius.raw;
    let z_collision = sphere_1_center.z.minus(sphere_2_center.z).abs_val().raw < larger_radius.raw;
    let a = XYZ {
        x: furthest_coord(sphere_1_center.x, sphere_2_center.x, smaller_radius, x_collision),
        y: furthest_coord(sphere_1_center.y, sphere_2_center.y, smaller_radius, y_collision),
        z: furthest_coord(sphere_1_center.z, sphere_2_center.z, smaller_radius, z_collision),
    };
    let b = XYZ {
        x: furthest_coord(sphere_2_center.x, sphere_1_center.x, smaller_radius, x_collision),
        y: furthest_coord(sphere_2_center.y, sphere_1_center.y, smaller_radius, y_collision),
        z: furthest_coord(sphere_2_center.z, sphere_1_center.z, smaller_radius, z_collision),
    };
    let diff = b.minus(a);
    let normal = diff.normalize();
    let depth = diff.magnitude();
    let has_collision = x_collision || y_collision || z_collision;
    CollisionPoints { a, b, normal, depth, has_collision }
}

} // verus!
