//! Three- and two-component fixed-point vectors.
//!
//! `XYZ` carries positions, velocities and directions; `normalize` is
//! zero-safe: the zero vector maps to the unit direction with three equal
//! components instead of dividing by zero.

use crate::fx::{
    div_trunc, fx_mul, iabs, is_isqrt, isqrt_spec, isqrt_u128, lemma_div_trunc_neg,
    lemma_isqrt_spec, lemma_isqrt_unique, lemma_sq_le_root, Fx, FX_SCALE,
};
use vstd::arithmetic::div_mod::{lemma_div_by_multiple, lemma_div_is_ordered, lemma_div_pos_is_pos};
use vstd::prelude::*;

verus! {

/// Bound (in raw steps) on the coordinates accepted by the vector operations;
/// it keeps every intermediate product within the machine's integer range.
pub const COORD_LIMIT_RAW: i64 = 1_000_000_000_000;

/// Fixed-point value of each component of the unit direction with three equal
/// components, `1/sqrt(3)` rounded toward zero; `normalize` returns it for the
/// zero vector.
pub const BALANCED_NORMAL_RAW: i64 = 5_773;

/// A three-component vector of fixed-point scalars.
#[derive(Clone, Copy, Debug, PartialEq, Eq, Structural)]
pub struct XYZ {
    pub x: Fx,
    pub y: Fx,
    pub z: Fx,
}

/// A two-component vector of fixed-point scalars.
#[derive(Clone, Copy, Debug, PartialEq, Eq, Structural)]
pub struct XY {
    pub x: Fx,
    pub y: Fx,
}

/// The coordinate lies within the range the vector operations accept.
pub open spec fn in_coord_range(n: int) -> bool {
    -COORD_LIMIT_RAW <= n <= COORD_LIMIT_RAW
}

/// All three coordinates lie within range.
pub open spec fn xyz_in_range(v: XYZ) -> bool {
    in_coord_range(v.x@) && in_coord_range(v.y@) && in_coord_range(v.z@)
}

/// Sum of the squared raw coordinates.
pub open spec fn mag_sq(v: XYZ) -> int {
    v.x@ * v.x@ + v.y@ * v.y@ + v.z@ * v.z@
}

/// The vector's magnitude in raw steps: the integer square root of `mag_sq`.
pub open spec fn magnitude_spec(v: XYZ) -> int {
    isqrt_spec(mag_sq(v) as nat) as int
}

/// The vector is exactly zero.
pub open spec fn is_zero_xyz(v: XYZ) -> bool {
    v.x@ == 0 && v.y@ == 0 && v.z@ == 0
}

/// One component of a normalized vector: the coordinate scaled to unit
/// magnitude, rounded toward zero.
pub open spec fn normalize_comp_spec(c: int, m: int) -> int {
    div_trunc(c * (FX_SCALE as int), m)
}

/// The vector with the given raw coordinates.
pub open spec fn xyz_raw(x: int, y: int, z: int) -> XYZ {
    XYZ { x: Fx { raw: x as i64 }, y: Fx { raw: y as i64 }, z: Fx { raw: z as i64 } }
}

/// The normalized direction of `v`: each coordinate scaled to unit magnitude,
/// with the zero vector mapped to the balanced unit direction.
pub open spec fn normalize_spec(v: XYZ) -> XYZ {
    if is_zero_xyz(v) {
        xyz_raw(
            BALANCED_NORMAL_RAW as int,
            BALANCED_NORMAL_RAW as int,
            BALANCED_NORMAL_RAW as int,
        )
    } else {
        let m = magnitude_spec(v);
        xyz_raw(
            normalize_comp_spec(v.x@, m),
            normalize_comp_spec(v.y@, m),
            normalize_comp_spec(v.z@, m),
        )
    }
}

/// Fixed-point dot product of two vectors.
pub open spec fn dot_spec(a: XYZ, b: XYZ) -> int {
    div_trunc(a.x@ * b.x@ + a.y@ * b.y@ + a.z@ * b.z@, FX_SCALE as int)
}

/// The squares summed by `mag_sq` are nonnegative and, in range, small
/// enough for the square-root search.
proof fn lemma_mag_sq_bounds(v: XYZ)
    requires
        xyz_in_range(v),
    ensures
        0 <= mag_sq(v) <= 3_000_000_000_000_000_000_000_000,
        v.x@ * v.x@ <= mag_sq(v),
        v.y@ * v.y@ <= mag_sq(v),
        v.z@ * v.z@ <= mag_sq(v),
        !is_zero_xyz(v) ==> 1 <= mag_sq(v),
        is_zero_xyz(v) ==> mag_sq(v) == 0,
{
    assert(0 <= v.x@ * v.x@ <= 1_000_000_000_000_000_000_000_000
        && (v.x@ != 0 ==> 1 <= v.x@ * v.x@) && (v.x@ == 0 ==> v.x@ * v.x@ == 0)) by (nonlinear_arith)
        requires
            in_coord_range(v.x@),
    ;
    assert(0 <= v.y@ * v.y@ <= 1_000_000_000_000_000_000_000_000
        && (v.y@ != 0 ==> 1 <= v.y@ * v.y@) && (v.y@ == 0 ==> v.y@ * v.y@ == 0)) by (nonlinear_arith)
        requires
            in_coord_range(v.y@),
    ;
    assert(0 <= v.z@ * v.z@ <= 1_000_000_000_000_000_000_000_000
        && (v.z@ != 0 ==> 1 <= v.z@ * v.z@) && (v.z@ == 0 ==> v.z@ * v.z@ == 0)) by (nonlinear_arith)
        requires
            in_coord_range(v.z@),
    ;
}

impl XYZ {
    /// Component-wise difference.
    pub fn minus(self, o: XYZ) -> (r: XYZ)
        requires
            i64::MIN <= self.x@ - o.x@ <= i64::MAX,
            i64::MIN <= self.y@ - o.y@ <= i64::MAX,
            i64::MIN <= self.z@ - o.z@ <= i64::MAX,
        ensures
            r.x@ == self.x@ - o.x@,
            r.y@ == self.y@ - o.y@,
            r.z@ == self.z@ - o.z@,
    {
        XYZ { x: self.x.minus(o.x), y: self.y.minus(o.y), z: self.z.minus(o.z) }
    }

    /// Component-wise product with a scalar.
    pub fn scale(self, k: Fx) -> (r: XYZ)
        requires
            i64::MIN <= fx_mul(self.x@, k@) <= i64::MAX,
            i64::MIN <= fx_mul(self.y@, k@) <= i64::MAX,
            i64::MIN <= fx_mul(self.z@, k@) <= i64::MAX,
        ensures
            r.x@ == fx_mul(self.x@, k@),
            r.y@ == fx_mul(self.y@, k@),
            r.z@ == fx_mul(self.z@, k@),
    {
        XYZ { x: self.x.times(k), y: self.y.times(k), z: self.z.times(k) }
    }

    /// Euclidean magnitude, rounded down to the raw step. The magnitude of
    /// the zero vector is exactly zero.
    pub fn magnitude(&self) -> (r: Fx)
        requires
            xyz_in_range(*self),
        ensures
            r@ == magnitude_spec(*self),
            is_isqrt(mag_sq(*self), r@),
            0 <= r@ <= 2_000_000_000_000,
            is_zero_xyz(*self) ==> r@ == 0,
            !is_zero_xyz(*self) ==> r@ >= 1,
    {
        proof {
            lemma_mag_sq_bounds(*self);
        }
        let xx = (self.x.raw as i128) * (self.x.raw as i128);
        let yy = (self.y.raw as i128) * (self.y.raw as i128);
        let zz = (self.z.raw as i128) * (self.z.raw as i128);
        let sum = xx + yy + zz;
        let m = isqrt_u128(sum as u128);
        proof {
            lemma_isqrt_spec(mag_sq(*self) as nat);
            lemma_isqrt_unique(mag_sq(*self), m as int, isqrt_spec(mag_sq(*self) as nat) as int);
            assert(m as int <= 2_000_000_000_000) by (nonlinear_arith)
                requires
                    0 <= m,
                    (m as int) * (m as int) <= 3_000_000_000_000_000_000_000_000,
            ;
            if is_zero_xyz(*self) {
                assert(m == 0) by (nonlinear_arith)
                    requires
                        0 <= m,
                        (m as int) * (m as int) <= 0,
                ;
            }
            if !is_zero_xyz(*self) {
                assert(m >= 1) by (nonlinear_arith)
                    requires
                        0 <= m,
                        1 <= ((m as int) + 1) * ((m as int) + 1) - 1,
                        (mag_sq(*self)) < ((m as int) + 1) * ((m as int) + 1),
                        1 <= mag_sq(*self),
                ;
            }
        }
        Fx { raw: m as i64 }
    }

    /// Direction of the vector with unit magnitude, rounded toward zero per
    /// component. The zero vector has no direction; it maps to the unit
    /// direction with three equal components rather than dividing by zero,
    /// and no component is ever undefined.
    pub fn normalize(&self) -> (r: XYZ)
        requires
            xyz_in_range(*self),
        ensures
            r == normalize_spec(*self),
            is_zero_xyz(*self) ==> r.x@ == BALANCED_NORMAL_RAW && r.y@ == BALANCED_NORMAL_RAW
                && r.z@ == BALANCED_NORMAL_RAW,
            !is_zero_xyz(*self) ==> {
                let m = magnitude_spec(*self);
                r.x@ == normalize_comp_spec(self.x@, m) && r.y@ == normalize_comp_spec(self.y@, m)
                    && r.z@ == normalize_comp_spec(self.z@, m)
            },
            iabs(r.x@) <= FX_SCALE,
            iabs(r.y@) <= FX_SCALE,
            iabs(r.z@) <= FX_SCALE,
    {
        if self.x.raw == 0 && self.y.raw == 0 && self.z.raw == 0 {
            return XYZ {
                x: Fx { raw: BALANCED_NORMAL_RAW },
                y: Fx { raw: BALANCED_NORMAL_RAW },
                z: Fx { raw: BALANCED_NORMAL_RAW },
            };
        }
        let m = self.magnitude();
        proof {
            lemma_mag_sq_bounds(*self);
            lemma_sq_le_root(self.x@, mag_sq(*self), m@);
            lemma_sq_le_root(self.y@, mag_sq(*self), m@);
            lemma_sq_le_root(self.z@, mag_sq(*self), m@);
        }
        let nx = normalize_comp(self.x, m);
        let ny = normalize_comp(self.y, m);
        let nz = normalize_comp(self.z, m);
        XYZ { x: nx, y: ny, z: nz }
    }

    /// Fixed-point dot product. The second operand is meant to be a unit
    /// direction, so its coordinates are bounded by one unit.
    pub fn dot(self, o: XYZ) -> (r: Fx)
        requires
            in_coord_range(self.x@) && in_coord_range(self.y@) && in_coord_range(self.z@),
            iabs(o.x@) <= FX_SCALE && iabs(o.y@) <= FX_SCALE && iabs(o.z@) <= FX_SCALE,
        ensures
            r@ == dot_spec(self, o),
    {
        proof {
            assert(iabs(self.x@ * o.x@) <= 10_000_000_000_000_000
                && iabs(self.y@ * o.y@) <= 10_000_000_000_000_000
                && iabs(self.z@ * o.z@) <= 10_000_000_000_000_000) by (nonlinear_arith)
                requires
                    -COORD_LIMIT_RAW <= self.x@ <= COORD_LIMIT_RAW,
                    -COORD_LIMIT_RAW <= self.y@ <= COORD_LIMIT_RAW,
                    -COORD_LIMIT_RAW <= self.z@ <= COORD_LIMIT_RAW,
                    -(FX_SCALE as int) <= o.x@ <= FX_SCALE as int,
                    -(FX_SCALE as int) <= o.y@ <= FX_SCALE as int,
                    -(FX_SCALE as int) <= o.z@ <= FX_SCALE as int,
            ;
        }
        let px = (self.x.raw as i128) * (o.x.raw as i128);
        let py = (self.y.raw as i128) * (o.y.raw as i128);
        let pz = (self.z.raw as i128) * (o.z.raw as i128);
        let sum = px + py + pz;
        let q = sum / (FX_SCALE as i128);
        Fx { raw: q as i64 }
    }
}

/// One component of `normalize`: `c` scaled to the unit magnitude `m`.
fn normalize_comp(c: Fx, m: Fx) -> (r: Fx)
    requires
        1 <= m@,
        iabs(c@) <= m@,
        m@ <= 2_000_000_000_000,
    ensures
        r@ == normalize_comp_spec(c@, m@),
        iabs(r@) <= FX_SCALE,
{
    proof {
        let s = FX_SCALE as int;
        assert(iabs(c@ * s) == iabs(c@) * s && iabs(c@) * s <= m@ * s) by (nonlinear_arith)
            requires
                iabs(c@) <= m@,
                s > 0,
                iabs(c@) == c@ || iabs(c@) == -c@,
        ;
        lemma_div_trunc_neg(c@ * s, m@);
        if c@ >= 0 {
            lemma_div_pos_is_pos(c@ * s, m@);
        } else {
            lemma_div_pos_is_pos(-(c@ * s), m@);
            assert(iabs(c@ * s) == -(c@ * s));
        }
        lemma_div_is_ordered(iabs(c@ * s), m@ * s, m@);
        lemma_div_by_multiple(s, m@);
        assert(s * m@ == m@ * s) by (nonlinear_arith);
        assert(iabs(div_trunc(c@ * s, m@)) <= s);
    }
    let p = (c.raw as i128) * (FX_SCALE as i128);
    let q = p / (m.raw as i128);
    Fx { raw: q as i64 }
}

} // verus!
