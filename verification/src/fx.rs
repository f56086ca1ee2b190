//! Fixed-point scalar arithmetic.
//!
//! Every physical quantity in this crate (positions in pixels, velocities in
//! meters per second, coefficients, times in seconds) is an `Fx`: an `i64`
//! count of ten-thousandths of a unit. All operations are exact integer
//! arithmetic with rounding toward zero, so contracts can pin results down
//! to the last digit.

use vstd::arithmetic::div_mod::{
    lemma_div_by_multiple, lemma_div_is_ordered, lemma_div_multiples_vanish_fancy,
    lemma_div_nonincreasing, lemma_div_pos_is_pos, lemma_fundamental_div_mod,
};
use vstd::arithmetic::mul::{lemma_mul_inequality, lemma_mul_is_distributive_sub};
use vstd::prelude::*;

verus! {

/// Number of raw steps per unit: values carry four decimal digits of fraction.
pub const FX_SCALE: i64 = 10_000;

/// Absolute value of a mathematical integer.
pub open spec fn iabs(n: int) -> int {
    if n >= 0 {
        n
    } else {
        -n
    }
}

/// Quotient of `n` by `d`, rounded toward zero (for `d > 0`).
pub open spec fn div_trunc(n: int, d: int) -> int
    recommends
        d > 0,
{
    if n >= 0 {
        n / d
    } else {
        -((-n) / d)
    }
}

/// Product of two fixed-point values, rounded toward zero.
pub open spec fn fx_mul(a: int, b: int) -> int {
    div_trunc(a * b, FX_SCALE as int)
}

/// Quotient of two fixed-point values, rounded toward zero (for `b != 0`).
pub open spec fn fx_div(a: int, b: int) -> int
    recommends
        b != 0,
{
    if b > 0 {
        div_trunc(a * (FX_SCALE as int), b)
    } else {
        div_trunc(-(a * (FX_SCALE as int)), -b)
    }
}

/// Largest multiple of one unit that is at most `n`.
pub open spec fn floor_unit(n: int) -> int {
    (FX_SCALE as int) * (n / (FX_SCALE as int))
}

/// Smallest multiple of one unit that is at least `n`.
pub open spec fn ceil_unit(n: int) -> int {
    -floor_unit(-n)
}

/// `r` is the integer square root of `n`.
pub open spec fn is_isqrt(n: int, r: int) -> bool {
    0 <= r && r * r <= n && n < (r + 1) * (r + 1)
}

/// A fixed-point scalar: `raw` counts ten-thousandths of a unit.
#[derive(Clone, Copy, Debug, PartialEq, Eq, Structural, PartialOrd, Ord, Hash)]
pub struct Fx {
    pub raw: i64,
}

impl View for Fx {
    type V = int;

    open spec fn view(&self) -> int {
        self.raw as int
    }
}

impl Fx {
    /// The scalar counting `raw` ten-thousandths of a unit.
    pub fn from_raw(raw: i64) -> (r: Fx)
        ensures
            r@ == raw as int,
    {
        Fx { raw }
    }

    /// The scalar equal to the whole number `units`.
    pub fn from_int(units: i64) -> (r: Fx)
        requires
            -922_337_203_685_477 <= units <= 922_337_203_685_477,
        ensures
            r@ == units * (FX_SCALE as int),
    {
        Fx { raw: units * FX_SCALE }
    }

    /// Zero.
    pub fn zero() -> (r: Fx)
        ensures
            r@ == 0,
    {
        Fx { raw: 0 }
    }

    /// Exact sum.
    pub fn plus(self, o: Fx) -> (r: Fx)
        requires
            i64::MIN <= self@ + o@ <= i64::MAX,
        ensures
            r@ == self@ + o@,
    {
        Fx { raw: self.raw + o.raw }
    }

    /// Exact difference.
    pub fn minus(self, o: Fx) -> (r: Fx)
        requires
            i64::MIN <= self@ - o@ <= i64::MAX,
        ensures
            r@ == self@ - o@,
    {
        Fx { raw: self.raw - o.raw }
    }

    /// Exact negation.
    pub fn negate(self) -> (r: Fx)
        requires
            self@ != i64::MIN,
        ensures
            r@ == -self@,
    {
        Fx { raw: -self.raw }
    }

    /// Absolute value.
    pub fn abs_val(self) -> (r: Fx)
        requires
            self@ != i64::MIN,
        ensures
            r@ == iabs(self@),
    {
        if self.raw < 0 {
            Fx { raw: -self.raw }
        } else {
            self
        }
    }

    /// Fixed-point product, rounded toward zero.
    pub fn times(self, o: Fx) -> (r: Fx)
        requires
            i64::MIN <= fx_mul(self@, o@) <= i64::MAX,
        ensures
            r@ == fx_mul(self@, o@),
    {
        proof {
            assert(-0x4000_0000_0000_0000_0000_0000_0000_0000 <= (self@) * (o@)
                <= 0x4000_0000_0000_0000_0000_0000_0000_0000) by (nonlinear_arith)
                requires
                    -0x8000_0000_0000_0000 <= self@ <= 0x7fff_ffff_ffff_ffff,
                    -0x8000_0000_0000_0000 <= o@ <= 0x7fff_ffff_ffff_ffff,
            ;
        }
        let p = (self.raw as i128) * (o.raw as i128);
        let q = p / (FX_SCALE as i128);
        Fx { raw: q as i64 }
    }

    /// Fixed-point quotient, rounded toward zero.
    pub fn divided_by(self, o: Fx) -> (r: Fx)
        requires
            o@ != 0,
            i64::MIN <= fx_div(self@, o@) <= i64::MAX,
        ensures
            r@ == fx_div(self@, o@),
    {
        let p = (self.raw as i128) * (FX_SCALE as i128);
        let q = if o.raw > 0 {
            p / (o.raw as i128)
        } else {
            (-p) / (-(o.raw as i128))
        };
        Fx { raw: q as i64 }
    }

    /// Round down to a whole number of units.
    pub fn floor_whole(self) -> (r: Fx)
        requires
            i64::MIN + FX_SCALE <= self@,
        ensures
            r@ == floor_unit(self@),
    {
        let q = self.raw / FX_SCALE;
        let m = q * FX_SCALE;
        if self.raw >= 0 || m == self.raw {
            Fx { raw: m }
        } else {
            Fx { raw: m - FX_SCALE }
        }
    }

    /// Round up to a whole number of units.
    pub fn ceil_whole(self) -> (r: Fx)
        requires
            self@ <= i64::MAX - FX_SCALE,
        ensures
            r@ == ceil_unit(self@),
    {
        let q = self.raw / FX_SCALE;
        let m = q * FX_SCALE;
        if self.raw <= 0 || m == self.raw {
            Fx { raw: m }
        } else {
            Fx { raw: m + FX_SCALE }
        }
    }
}

/// Integer square root by bisection.
pub fn isqrt_u128(n: u128) -> (r: u128)
    requires
        n < 0x4000_0000_0000_0000_0000_0000_0000_0000,
    ensures
        is_isqrt(n as int, r as int),
{
    let mut lo: u128 = 0;
    let mut hi: u128 = 0x8000_0000_0000_0000;
    proof {
        assert((0x8000_0000_0000_0000 as int) * (0x8000_0000_0000_0000 as int)
            == 0x4000_0000_0000_0000_0000_0000_0000_0000) by (nonlinear_arith);
    }
    while lo + 1 < hi
        invariant
            lo < hi <= 0x8000_0000_0000_0000,
            (lo as int) * (lo as int) <= n as int,
            (n as int) < (hi as int) * (hi as int),
        decreases hi - lo,
    {
        let mid = lo + (hi - lo) / 2;
        proof {
            assert((mid as int) * (mid as int) <= 0x4000_0000_0000_0000_0000_0000_0000_0000)
                by (nonlinear_arith)
                requires
                    0 <= mid as int <= 0x8000_0000_0000_0000,
            ;
        }
        let sq = mid * mid;
        if sq <= n {
            lo = mid;
        } else {
            hi = mid;
        }
    }
    lo
}

/// Integer square root, as a function of the radicand.
pub open spec fn isqrt_spec(n: nat) -> nat
    decreases n,
{
    if n == 0 {
        0
    } else {
        let r = isqrt_spec((n - 1) as nat);
        if (r + 1) * (r + 1) <= n {
            r + 1
        } else {
            r
        }
    }
}

/// `isqrt_spec` brackets its radicand between consecutive squares.
pub proof fn lemma_isqrt_spec(n: nat)
    ensures
        is_isqrt(n as int, isqrt_spec(n) as int),
    decreases n,
{
    if n > 0 {
        lemma_isqrt_spec((n - 1) as nat);
        let r = isqrt_spec((n - 1) as nat) as int;
        if (r + 1) * (r + 1) <= n {
            assert((r + 1) * (r + 1) < (r + 2) * (r + 2)) by (nonlinear_arith)
                requires
                    r >= 0,
            ;
        }
    }
}

/// Only one integer square root brackets a given radicand.
pub proof fn lemma_isqrt_unique(n: int, a: int, b: int)
    requires
        is_isqrt(n, a),
        is_isqrt(n, b),
    ensures
        a == b,
{
    if a < b {
        assert((a + 1) * (a + 1) <= b * b) by (nonlinear_arith)
            requires
                0 <= a < b,
        ;
    }
    if b < a {
        assert((b + 1) * (b + 1) <= a * a) by (nonlinear_arith)
            requires
                0 <= b < a,
        ;
    }
}

/// A value whose square is within the bracket of root `m` has magnitude at most `m`.
pub proof fn lemma_sq_le_root(x: int, n: int, m: int)
    requires
        is_isqrt(n, m),
        x * x <= n,
    ensures
        iabs(x) <= m,
{
    let a = iabs(x);
    if a > m {
        assert((m + 1) * (m + 1) <= a * a && a * a == x * x) by (nonlinear_arith)
            requires
                m >= 0,
                a >= m + 1,
                a == x || a == -x,
        ;
    }
}

/// Negating the dividend negates a truncating quotient.
pub proof fn lemma_div_trunc_neg(n: int, d: int)
    requires
        d > 0,
    ensures
        div_trunc(-n, d) == -div_trunc(n, d),
{
}

/// A truncating quotient of a nonnegative dividend by a positive divisor
/// is nonnegative and bounded by the dividend.
pub proof fn lemma_div_trunc_nonneg(n: int, d: int)
    requires
        d > 0,
        n >= 0,
    ensures
        0 <= div_trunc(n, d) <= n,
{
    lemma_div_pos_is_pos(n, d);
    assert(n <= n * d) by (nonlinear_arith)
        requires
            n >= 0,
            d >= 1,
    ;
    lemma_div_is_ordered(n, n * d, d);
    vstd::arithmetic::div_mod::lemma_div_by_multiple(n, d);
}

/// Magnitude of a truncating quotient equals the quotient of magnitudes.
pub proof fn lemma_div_trunc_abs(n: int, d: int)
    requires
        d > 0,
    ensures
        iabs(div_trunc(n, d)) == iabs(n) / d,
{
    if n >= 0 {
        lemma_div_pos_is_pos(n, d);
    } else {
        lemma_div_pos_is_pos(-n, d);
    }
}

/// Multiplying by a factor of magnitude at most one unit cannot increase magnitude.
pub proof fn lemma_fx_mul_unit_bound(a: int, b: int)
    requires
        iabs(b) <= FX_SCALE,
    ensures
        iabs(fx_mul(a, b)) <= iabs(a),
{
    let s = FX_SCALE as int;
    let ma = iabs(a);
    let mb = iabs(b);
    let p = a * b;
    assert((p == ma * mb || p == -(ma * mb)) && 0 <= ma * mb && ma * mb <= ma * s)
        by (nonlinear_arith)
        requires
            p == a * b,
            (a >= 0 ==> ma == a) && (a < 0 ==> ma == -a),
            (b >= 0 ==> mb == b) && (b < 0 ==> mb == -b),
            0 <= mb <= s,
            0 <= ma,
    ;
    assert(iabs(p) == ma * mb);
    lemma_div_trunc_neg(p, s);
    lemma_div_trunc_nonneg(ma * mb, s);
    assert(iabs(fx_mul(a, b)) == (ma * mb) / s);
    lemma_div_is_ordered(ma * mb, ma * s, s);
    lemma_div_by_multiple(ma, s);
}

/// A fixed-point product with a nonnegative factor keeps the other factor's
/// sign direction.
pub proof fn lemma_fx_mul_sign(a: int, b: int)
    requires
        b >= 0,
    ensures
        a >= 0 ==> fx_mul(a, b) >= 0,
        a <= 0 ==> fx_mul(a, b) <= 0,
{
    let s = FX_SCALE as int;
    assert((a >= 0 ==> a * b >= 0) && (a <= 0 ==> a * b <= 0)) by (nonlinear_arith)
        requires
            b >= 0,
    ;
    if a * b >= 0 {
        lemma_div_pos_is_pos(a * b, s);
    } else {
        lemma_div_pos_is_pos(-(a * b), s);
    }
}

/// A fixed-point quotient with a positive divisor keeps the dividend's sign
/// direction.
pub proof fn lemma_fx_div_sign(a: int, b: int)
    requires
        b > 0,
    ensures
        a >= 0 ==> fx_div(a, b) >= 0,
        a <= 0 ==> fx_div(a, b) <= 0,
{
    let s = FX_SCALE as int;
    if a >= 0 {
        lemma_div_pos_is_pos(a * s, b);
    } else {
        lemma_div_pos_is_pos(-(a * s), b);
    }
}

/// Magnitude bound of a fixed-point product, from bounds on the factors.
pub proof fn lemma_fx_mul_bound(a: int, b: int, ba: int, bb: int)
    requires
        iabs(a) <= ba,
        iabs(b) <= bb,
    ensures
        iabs(fx_mul(a, b)) <= div_trunc(ba * bb, FX_SCALE as int),
{
    let s = FX_SCALE as int;
    let p = a * b;
    assert(p <= ba * bb && -p <= ba * bb) by (nonlinear_arith)
        requires
            p == a * b,
            (a >= 0 ==> iabs(a) == a) && (a < 0 ==> iabs(a) == -a),
            (b >= 0 ==> iabs(b) == b) && (b < 0 ==> iabs(b) == -b),
            iabs(a) <= ba,
            iabs(b) <= bb,
            0 <= iabs(a),
            0 <= iabs(b),
    ;
    lemma_div_trunc_abs(a * b, s);
    lemma_div_is_ordered(iabs(a * b), ba * bb, s);
    assert(0 <= ba * bb) by (nonlinear_arith)
        requires
            0 <= ba,
            0 <= bb,
    ;
}

/// Magnitude bound of a fixed-point quotient, from a bound on the dividend.
pub proof fn lemma_fx_div_bound(a: int, b: int, ba: int)
    requires
        iabs(a) <= ba,
        b != 0,
    ensures
        iabs(fx_div(a, b)) <= ba * (FX_SCALE as int),
{
    let s = FX_SCALE as int;
    assert(iabs(a * s) == iabs(a) * s && iabs(a) * s <= ba * s);
    if b > 0 {
        lemma_div_trunc_abs(a * s, b);
        lemma_div_is_ordered(iabs(a * s), ba * s, b);
        lemma_div_nonincreasing(ba * s, b);
    } else {
        lemma_div_trunc_abs(-(a * s), -b);
        assert(iabs(-(a * s)) == iabs(a * s));
        lemma_div_is_ordered(iabs(a * s), ba * s, -b);
        lemma_div_nonincreasing(ba * s, -b);
    }
}

/// When the divisor divides the dividend, the truncating quotient is exact.
pub proof fn lemma_div_trunc_exact(a: int, d: int)
    requires
        d > 0,
        a % d == 0,
    ensures
        div_trunc(a, d) == a / d,
        d * div_trunc(a, d) == a,
{
    lemma_fundamental_div_mod(a, d);
    if a < 0 {
        let q = a / d;
        assert(-a == (-q) * d) by (nonlinear_arith)
            requires
                a == d * q,
        ;
        assert(0 <= -q) by {
            lemma_div_is_ordered(a, 0, d);
            assert(0int / d == 0) by {
                lemma_div_pos_is_pos(0, d);
                lemma_div_nonincreasing(0, d);
            }
        }
        lemma_div_by_multiple(-q, d);
    }
}

/// Rounding to whole units moves a value by less than one unit, downward for
/// `floor_unit` and upward for `ceil_unit`.
pub proof fn lemma_unit_rounding_bounds(n: int)
    ensures
        n - FX_SCALE < floor_unit(n) <= n,
        n <= ceil_unit(n) < n + FX_SCALE,
        n >= 0 ==> floor_unit(n) >= 0,
        n <= 0 ==> ceil_unit(n) <= 0,
{
    let s = FX_SCALE as int;
    lemma_fundamental_div_mod(n, s);
    vstd::arithmetic::div_mod::lemma_mod_bound(n, s);
    lemma_fundamental_div_mod(-n, s);
    vstd::arithmetic::div_mod::lemma_mod_bound(-n, s);
    if n >= 0 {
        lemma_div_pos_is_pos(n, s);
        assert(s * (n / s) >= 0) by (nonlinear_arith)
            requires
                s > 0,
                n / s >= 0,
        ;
    }
    if n <= 0 {
        lemma_div_pos_is_pos(-n, s);
        assert(s * ((-n) / s) >= 0) by (nonlinear_arith)
            requires
                s > 0,
                (-n) / s >= 0,
        ;
    }
}

/// A nonnegative value rounds down to zero exactly when it is below one unit.
pub proof fn lemma_floor_unit_zero(m: int)
    requires
        m >= 0,
    ensures
        (floor_unit(m) == 0) <==> (m < FX_SCALE),
{
    let s = FX_SCALE as int;
    if m < s {
        vstd::arithmetic::div_mod::lemma_basic_div(m, s);
    } else {
        lemma_div_is_ordered(s, m, s);
        vstd::arithmetic::div_mod::lemma_div_by_multiple(1, s);
        assert(m / s >= 1);
        assert(s * (m / s) >= s) by (nonlinear_arith)
            requires
                s > 0,
                m / s >= 1,
        ;
    }
}

/// Scaling by a coefficient below one unit keeps the sign direction,
/// cannot increase magnitude, and strictly shrinks any nonzero magnitude.
pub proof fn lemma_fx_mul_decay(v: int, c: int)
    requires
        0 <= c < FX_SCALE,
    ensures
        iabs(fx_mul(v, c)) == div_trunc(iabs(v) * c, FX_SCALE as int),
        v >= 0 ==> fx_mul(v, c) >= 0,
        v <= 0 ==> fx_mul(v, c) <= 0,
        iabs(fx_mul(v, c)) <= iabs(v),
        iabs(v) >= 1 ==> iabs(fx_mul(v, c)) < iabs(v),
{
    let s = FX_SCALE as int;
    let m = iabs(v);
    let p = v * c;
    assert((v >= 0 ==> p == m * c) && (v < 0 ==> p == -(m * c)) && 0 <= m * c)
        by (nonlinear_arith)
        requires
            p == v * c,
            0 <= c,
            v >= 0 ==> m == v,
            v < 0 ==> m == -v,
    ;
    assert(iabs(p) == m * c && (v >= 0 ==> p >= 0) && (v <= 0 ==> p <= 0));
    if p >= 0 {
        lemma_div_pos_is_pos(p, s);
    } else {
        lemma_div_pos_is_pos(-p, s);
    }
    assert(iabs(fx_mul(v, c)) == (m * c) / s);
    lemma_div_pos_is_pos(m * c, s);
    if m >= 1 {
        assert(m * c <= s * (m - 1) + (s - 1)) by (nonlinear_arith)
            requires
                0 <= c < s,
                m >= 1,
        ;
        lemma_div_is_ordered(m * c, s * (m - 1) + (s - 1), s);
        lemma_div_multiples_vanish_fancy(m - 1, s - 1, s);
        assert((m * c) / s <= m - 1);
    } else {
        assert(m == 0 && m * c == 0) by (nonlinear_arith)
            requires
                m == 0,
        ;
    }
}

} // verus!
