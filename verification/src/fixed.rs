//! Fixed-point scalar arithmetic: the numeric ground the whole tracer stands on.
//!
//! A scalar is an `i64` holding a real number scaled by `ONE` (2^16).
//! Every operation saturates at `SAT` (2^46) instead of overflowing, and
//! rounds toward minus infinity, so each has an exact mathematical mirror
//! (`spec_add`, `spec_mul`, ...) over `int`.
use vstd::prelude::*;

verus! {

/// Scale factor: the fixed-point representation of 1.
pub const ONE: i64 = 65536;

/// Saturation bound: results are clipped into [-SAT, SAT].
pub const SAT: i64 = 70368744177664;

/// pi in fixed point.
pub const PI: i64 = 205887;

/// A scalar in the representable range.
pub open spec fn fx_ok(x: int) -> bool {
    -SAT <= x <= SAT
}

pub open spec fn abs_i(a: int) -> int {
    if a >= 0 {
        a
    } else {
        -a
    }
}

/// Clip into the representable range.
pub open spec fn sat_clip(x: int) -> int {
    if x > SAT {
        SAT as int
    } else if x < -SAT {
        -(SAT as int)
    } else {
        x
    }
}

/// Division rounding toward minus infinity.
pub open spec fn div_floor(a: int, b: int) -> int
    recommends
        b != 0,
{
    let q = abs_i(a) / abs_i(b);
    if (a >= 0) == (b >= 0) {
        q
    } else if abs_i(a) % abs_i(b) == 0 {
        -q
    } else {
        -q - 1
    }
}

pub open spec fn spec_add(a: int, b: int) -> int {
    sat_clip(a + b)
}

pub open spec fn spec_sub(a: int, b: int) -> int {
    sat_clip(a - b)
}

pub open spec fn spec_mul(a: int, b: int) -> int {
    sat_clip(div_floor(a * b, ONE as int))
}

/// Division of fixed-point scalars; a zero divisor saturates with the
/// dividend's sign, standing in for the infinities of float arithmetic.
pub open spec fn spec_div(a: int, b: int) -> int {
    if b == 0 {
        if a > 0 {
            SAT as int
        } else if a < 0 {
            -(SAT as int)
        } else {
            0
        }
    } else {
        sat_clip(div_floor(a * ONE, b))
    }
}

/// The integer square root: the unique r with r^2 <= x < (r+1)^2.
pub open spec fn spec_isqrt(x: int) -> int {
    choose|r: int| r >= 0 && #[trigger] (r * r) <= x && (r + 1) * (r + 1) > x
}

/// Square root of a fixed-point scalar; nonpositive inputs give 0.
pub open spec fn spec_sqrt(a: int) -> int {
    if a <= 0 {
        0
    } else {
        spec_isqrt(a * ONE)
    }
}

pub open spec fn spec_min(a: int, b: int) -> int {
    if a < b {
        a
    } else {
        b
    }
}

pub open spec fn spec_max(a: int, b: int) -> int {
    if a > b {
        a
    } else {
        b
    }
}

pub proof fn lemma_div_floor_pos(a: int, b: int)
    requires
        b > 0,
    ensures
        div_floor(a, b) == a / b,
        b * (a / b) <= a < b * (a / b) + b,
{
    if a >= 0 {
        assert(div_floor(a, b) == a / b);
    } else {
        let m = -a;
        let q = m / b;
        let r = m % b;
        vstd::arithmetic::div_mod::lemma_fundamental_div_mod(m, b);
        vstd::arithmetic::div_mod::lemma_mod_bound(m, b);
        assert(m == b * q + r);
        if r == 0 {
            vstd::arithmetic::div_mod::lemma_fundamental_div_mod(a, b);
            vstd::arithmetic::div_mod::lemma_mod_bound(a, b);
            assert(a == -(b * q)) by {
                assert(m == b * q);
            }
            assert(b * (-q) == -(b * q)) by (nonlinear_arith);
            vstd::arithmetic::div_mod::lemma_div_multiples_vanish(-q, b);
            assert(a / b == -q);
        } else {
            assert(a == b * (-q - 1) + (b - r)) by {
                assert(m == b * q + r);
                assert(b * (-q - 1) == -(b * q) - b) by (nonlinear_arith);
            }
            assert(0 <= b - r < b);
            vstd::arithmetic::div_mod::lemma_fundamental_div_mod_converse(a, b, -q - 1, b - r);
            assert(a / b == -q - 1);
        }
    }
    let q = a / b;
    vstd::arithmetic::div_mod::lemma_fundamental_div_mod(a, b);
    vstd::arithmetic::div_mod::lemma_mod_bound(a, b);
}

pub proof fn lemma_div_floor_neg_flip(a: int, b: int)
    requires
        b != 0,
    ensures
        div_floor(a, b) == div_floor(-a, -b),
{
    assert(abs_i(a) == abs_i(-a));
    assert(abs_i(b) == abs_i(-b));
    if a == 0 {
        assert(abs_i(0int) % abs_i(b) == 0) by {
            vstd::arithmetic::div_mod::lemma_small_mod(0nat, abs_i(b) as nat);
        }
        assert(abs_i(0int) / abs_i(b) == 0) by {
            vstd::arithmetic::div_mod::lemma_basic_div(0int, abs_i(b));
        }
    }
}

pub proof fn lemma_isqrt_unique(x: int, r1: int, r2: int)
    requires
        r1 >= 0 && r1 * r1 <= x && (r1 + 1) * (r1 + 1) > x,
        r2 >= 0 && r2 * r2 <= x && (r2 + 1) * (r2 + 1) > x,
    ensures
        r1 == r2,
{
    if r1 < r2 {
        assert((r1 + 1) * (r1 + 1) <= r2 * r2) by (nonlinear_arith)
            requires
                0 <= r1 < r2,
        ;
    }
    if r2 < r1 {
        assert((r2 + 1) * (r2 + 1) <= r1 * r1) by (nonlinear_arith)
            requires
                0 <= r2 < r1,
        ;
    }
}

/// Clip an intermediate wide result into the scalar range.
pub fn clip128(x: i128) -> (r: i64)
    ensures
        r == sat_clip(x as int),
{
    if x > SAT as i128 {
        SAT
    } else if x < -SAT as i128 {
        -SAT
    } else {
        x as i64
    }
}

/// Floor division of a wide intermediate by a positive divisor.
pub fn div_floor_i128(a: i128, b: i128) -> (r: i128)
    requires
        b > 0,
        -0x40000000000000000000000000000000 < a,
    ensures
        r == div_floor(a as int, b as int),
{
    proof {
        lemma_div_floor_pos(a as int, b as int);
    }
    if a >= 0 {
        let q = (a as u128) / (b as u128);
        q as i128
    } else {
        let m = (-a) as u128;
        let bb = b as u128;
        let q = m / bb;
        let rem = m % bb;
        proof {
            vstd::arithmetic::div_mod::lemma_div_is_ordered(0, m as int, bb as int);
            assert(q <= m);
        }
        if rem == 0 {
            -(q as i128)
        } else {
            -(q as i128) - 1
        }
    }
}

/// Saturating fixed-point addition.
pub fn fadd(a: i64, b: i64) -> (r: i64)
    requires
        fx_ok(a as int),
        fx_ok(b as int),
    ensures
        r == spec_add(a as int, b as int),
        fx_ok(r as int),
{
    clip128(a as i128 + b as i128)
}

/// Saturating fixed-point subtraction.
pub fn fsub(a: i64, b: i64) -> (r: i64)
    requires
        fx_ok(a as int),
        fx_ok(b as int),
    ensures
        r == spec_sub(a as int, b as int),
        fx_ok(r as int),
{
    clip128(a as i128 - b as i128)
}

/// Saturating fixed-point multiplication, rounding toward minus infinity.
pub fn fmul(a: i64, b: i64) -> (r: i64)
    requires
        fx_ok(a as int),
        fx_ok(b as int),
    ensures
        r == spec_mul(a as int, b as int),
        fx_ok(r as int),
{
    proof {
        assert(-(SAT as int) * (SAT as int) <= a * b <= (SAT as int) * (SAT as int))
            by (nonlinear_arith)
            requires
                fx_ok(a as int),
                fx_ok(b as int),
        ;
    }
    let p: i128 = (a as i128) * (b as i128);
    let q = div_floor_i128(p, ONE as i128);
    clip128(q)
}

/// Saturating fixed-point division; a zero divisor saturates with the
/// dividend's sign.
pub fn fdiv(a: i64, b: i64) -> (r: i64)
    requires
        fx_ok(a as int),
        fx_ok(b as int),
    ensures
        r == spec_div(a as int, b as int),
        fx_ok(r as int),
{
    if b == 0 {
        if a > 0 {
            SAT
        } else if a < 0 {
            -SAT
        } else {
            0
        }
    } else {
        proof {
            assert(-(SAT as int) * (ONE as int) <= a * ONE <= (SAT as int) * (ONE as int))
                by (nonlinear_arith)
                requires
                    fx_ok(a as int),
            ;
        }
        let n: i128 = (a as i128) * (ONE as i128);
        let q = if b > 0 {
            div_floor_i128(n, b as i128)
        } else {
            proof {
                lemma_div_floor_neg_flip(n as int, b as int);
            }
            div_floor_i128(-n, -(b as i128))
        };
        clip128(q)
    }
}

/// Fixed-point square root; nonpositive inputs give 0.
pub fn fsqrt(a: i64) -> (r: i64)
    requires
        fx_ok(a as int),
    ensures
        r == spec_sqrt(a as int),
        fx_ok(r as int),
        r >= 0,
        a <= 0 ==> r == 0,
        a > 0 ==> r * r <= a * ONE && (r + 1) * (r + 1) > a * ONE,
{
    if a <= 0 {
        0
    } else {
        let v: u64 = (a as u64) * (ONE as u64);
        let s = isqrt_u64(v);
        proof {
            let x = a * ONE;
            assert(s * s <= x && (s + 1) * (s + 1) > x);
            let w = spec_isqrt(x);
            assert(w >= 0 && w * w <= x && (w + 1) * (w + 1) > x) by {
                assert(s >= 0 && s * s <= x && (s + 1) * (s + 1) > x);
            }
            lemma_isqrt_unique(x, s as int, w);
            assert(s * s <= SAT * ONE);
            assert(s <= SAT) by (nonlinear_arith)
                requires
                    s * s <= SAT * ONE,
                    s >= 0,
            ;
        }
        s as i64
    }
}

/// Integer square root of a machine word.
pub fn isqrt_u64(v: u64) -> (r: u64)
    ensures
        r * r <= v,
        (r + 1) * (r + 1) > v,
        r <= 4294967296,
{
    let mut lo: u64 = 0;
    let mut hi: u64 = 4294967296;
    proof {
        assert((4294967296int) * (4294967296int) > v);
    }
    while lo + 1 < hi
        invariant
            lo < hi <= 4294967296,
            lo * lo <= v,
            hi * hi > v,
        decreases hi - lo,
    {
        let mid = lo + (hi - lo) / 2;
        proof {
            assert(mid * mid <= 4294967296int * 4294967296int) by (nonlinear_arith)
                requires
                    0 <= mid <= 4294967296int,
            ;
        }
        let m2: u128 = (mid as u128) * (mid as u128);
        if m2 <= v as u128 {
            lo = mid;
        } else {
            hi = mid;
        }
    }
    lo
}

/// Multiplying two scalars of magnitude at most ONE stays within ONE.
pub proof fn lemma_unit_mul(a: int, b: int)
    requires
        abs_i(a) <= ONE,
        abs_i(b) <= ONE,
    ensures
        abs_i(spec_mul(a, b)) <= ONE,
{
    assert(-(ONE as int) * (ONE as int) <= a * b <= (ONE as int) * (ONE as int))
        by (nonlinear_arith)
        requires
            abs_i(a) <= ONE,
            abs_i(b) <= ONE,
    ;
    lemma_div_floor_pos(a * b, ONE as int);
    vstd::arithmetic::div_mod::lemma_div_is_ordered(
        -(ONE as int) * (ONE as int),
        a * b,
        ONE as int,
    );
    vstd::arithmetic::div_mod::lemma_div_is_ordered(a * b, (ONE as int) * (ONE as int), ONE as int);
    vstd::arithmetic::div_mod::lemma_div_multiples_vanish(-(ONE as int), ONE as int);
    vstd::arithmetic::div_mod::lemma_div_multiples_vanish(ONE as int, ONE as int);
}

/// Negating one factor at least negates the rounded product: rounding toward
/// minus infinity can only lower it further.
pub proof fn lemma_mul_flip(a: int, b: int)
    requires
        fx_ok(a),
        fx_ok(b),
    ensures
        spec_mul(a, -b) <= -spec_mul(a, b),
{
    let x = a * b;
    assert(a * (-b) == -(a * b)) by (nonlinear_arith);
    lemma_div_floor_pos(x, ONE as int);
    lemma_div_floor_pos(-x, ONE as int);
    vstd::arithmetic::div_mod::lemma_fundamental_div_mod(x, ONE as int);
    vstd::arithmetic::div_mod::lemma_mod_bound(x, ONE as int);
    let q = x / (ONE as int);
    let r = x % (ONE as int);
    if r == 0 {
        assert((ONE as int) * (-q) == -((ONE as int) * q)) by (nonlinear_arith);
        vstd::arithmetic::div_mod::lemma_fundamental_div_mod_converse(-x, ONE as int, -q, 0);
    } else {
        assert((ONE as int) * (-q - 1) == -((ONE as int) * q) - ONE) by (nonlinear_arith);
        vstd::arithmetic::div_mod::lemma_fundamental_div_mod_converse(
            -x,
            ONE as int,
            -q - 1,
            ONE - r,
        );
    }
}

/// pi/2 in fixed point.
pub const HALF_PI: i64 = 102944;

/// 2*pi in fixed point.
pub const TWO_PI: i64 = 411774;

/// Rational sine approximation on [0, pi], clamped into [0, ONE].
pub open spec fn spec_bhaskara(x: int) -> int {
    let p = x * (PI - x);
    spec_min(ONE as int, div_floor(16 * p * ONE, 5 * PI * PI - 4 * p))
}

/// The angle reduced into [0, 2*pi).
pub open spec fn spec_angle_mod(x: int) -> int {
    x - TWO_PI * div_floor(x, TWO_PI as int)
}

/// Fixed-point sine: reduce the angle, then the rational approximation,
/// negated on the second half turn.
pub open spec fn spec_sin(x: int) -> int {
    let m = spec_angle_mod(x);
    if m <= PI {
        spec_bhaskara(m)
    } else {
        -spec_bhaskara(m - PI)
    }
}

/// Fixed-point cosine, as the sine of the angle advanced a quarter turn.
pub open spec fn spec_cos(x: int) -> int {
    spec_sin(x + HALF_PI)
}

proof fn lemma_bhaskara_range(x: int)
    requires
        0 <= x <= PI,
    ensures
        0 <= spec_bhaskara(x) <= ONE,
{
    assert(0 <= x * (PI - x) <= PI * PI) by (nonlinear_arith)
        requires
            0 <= x <= PI as int,
            PI == 205887int,
    ;
    let p = x * (PI - x);
    assert(5 * PI * PI - 4 * p > 0);
    lemma_div_floor_pos(16 * p * ONE, 5 * PI * PI - 4 * p);
    vstd::arithmetic::div_mod::lemma_div_is_ordered(0, 16 * p * ONE, 5 * PI * PI - 4 * p);
    vstd::arithmetic::div_mod::lemma_basic_div(0int, 5 * PI * PI - 4 * p);
}

/// Sine on angles already reduced into [0, 2*pi).
fn bhaskara(x: i64) -> (r: i64)
    requires
        0 <= x <= PI,
    ensures
        r == spec_bhaskara(x as int),
        0 <= r <= ONE,
{
    proof {
        lemma_bhaskara_range(x as int);
        assert(0 <= x * (PI - x) <= PI * PI) by (nonlinear_arith)
            requires
                0 <= x <= PI,
        ;
    }
    let p: i128 = (x as i128) * (PI as i128 - x as i128);
    let num: i128 = 16 * p * (ONE as i128);
    let den: i128 = 5 * (PI as i128) * (PI as i128) - 4 * p;
    let q = div_floor_i128(num, den);
    if q > ONE as i128 {
        ONE
    } else {
        q as i64
    }
}

/// Fixed-point sine of an angle in radians.
pub fn fsin(x: i64) -> (r: i64)
    ensures
        r == spec_sin(x as int),
        -ONE <= r <= ONE,
{
    let q = div_floor_i128(x as i128, TWO_PI as i128);
    proof {
        lemma_div_floor_pos(x as int, TWO_PI as int);
    }
    let m: i128 = x as i128 - (TWO_PI as i128) * q;
    let m64: i64 = m as i64;
    if m64 <= PI {
        bhaskara(m64)
    } else {
        -bhaskara(m64 - PI)
    }
}

/// Fixed-point cosine of an angle in radians.
pub fn fcos(x: i64) -> (r: i64)
    requires
        x <= i64::MAX - HALF_PI,
    ensures
        r == spec_cos(x as int),
        -ONE <= r <= ONE,
{
    fsin(x + HALF_PI)
}

/// An integer square root exists for every nonnegative argument.
pub proof fn lemma_isqrt_exists(x: int)
    requires
        x >= 0,
    ensures
        exists|r: int| r >= 0 && #[trigger] (r * r) <= x && (r + 1) * (r + 1) > x,
    decreases x,
{
    if x == 0 {
        assert(0int * 0int <= x && (0int + 1) * (0int + 1) > x);
    } else {
        lemma_isqrt_exists(x - 1);
        let r = choose|r: int| r >= 0 && #[trigger] (r * r) <= x - 1 && (r + 1) * (r + 1) > x - 1;
        if (r + 1) * (r + 1) <= x {
            assert((r + 1) * (r + 1) == x) by (nonlinear_arith)
                requires
                    (r + 1) * (r + 1) > x - 1,
                    (r + 1) * (r + 1) <= x,
            ;
            assert(((r + 1) + 1) * ((r + 1) + 1) > x) by (nonlinear_arith)
                requires
                    r >= 0,
                    (r + 1) * (r + 1) == x,
            ;
            assert((r + 1) >= 0 && (r + 1) * (r + 1) <= x && ((r + 1) + 1) * ((r + 1) + 1) > x);
        } else {
            assert(r >= 0 && r * r <= x && (r + 1) * (r + 1) > x);
        }
    }
}

/// The fixed-point square root is never negative.
pub proof fn lemma_sqrt_nonneg(a: int)
    ensures
        spec_sqrt(a) >= 0,
{
    if a > 0 {
        lemma_isqrt_exists(a * ONE);
        let w = choose|r: int| r >= 0 && #[trigger] (r * r) <= a * ONE && (r + 1) * (r + 1) > a
            * ONE;
        let c = spec_isqrt(a * ONE);
        assert(c >= 0 && c * c <= a * ONE && (c + 1) * (c + 1) > a * ONE) by {
            assert(w >= 0 && w * w <= a * ONE && (w + 1) * (w + 1) > a * ONE);
        }
    }
}

/// Multiplication by one, minus one and zero is exact.
pub proof fn lemma_mul_units(x: int)
    requires
        fx_ok(x),
    ensures
        spec_mul(ONE as int, x) == x,
        spec_mul(-(ONE as int), x) == -x,
        spec_mul(0, x) == 0,
        spec_mul(x, ONE as int) == x,
        spec_mul(x, -(ONE as int)) == -x,
        spec_mul(x, 0) == 0,
{
    lemma_div_floor_pos(x * ONE, ONE as int);
    lemma_div_floor_pos(-(x * (ONE as int)), ONE as int);
    lemma_div_floor_pos(0, ONE as int);
    vstd::arithmetic::div_mod::lemma_div_multiples_vanish(x, ONE as int);
    vstd::arithmetic::div_mod::lemma_div_multiples_vanish(-x, ONE as int);
    vstd::arithmetic::div_mod::lemma_basic_div(0int, ONE as int);
    assert((ONE as int) * x == x * (ONE as int)) by (nonlinear_arith);
    assert((-(ONE as int)) * x == -(x * (ONE as int))) by (nonlinear_arith);
    assert(x * (-(ONE as int)) == -(x * (ONE as int))) by (nonlinear_arith);
    assert((ONE as int) * (-x) == -(x * (ONE as int))) by (nonlinear_arith);
    assert(0 * x == 0 && x * 0 == 0) by (nonlinear_arith);
}

/// A product of a nonnegative and a nonpositive scalar stays nonpositive.
pub proof fn lemma_mul_nonneg_nonpos(a: int, b: int)
    requires
        a >= 0,
        b <= 0,
    ensures
        spec_mul(a, b) <= 0,
{
    assert(a * b <= 0) by (nonlinear_arith)
        requires
            a >= 0,
            b <= 0,
    ;
    lemma_div_floor_pos(a * b, ONE as int);
    vstd::arithmetic::div_mod::lemma_div_is_ordered(a * b, 0, ONE as int);
    vstd::arithmetic::div_mod::lemma_basic_div(0int, ONE as int);
}

/// A product of nonnegative scalars stays nonnegative after rounding.
pub proof fn lemma_mul_nonneg(a: int, b: int)
    requires
        a >= 0,
        b >= 0,
    ensures
        spec_mul(a, b) >= 0,
{
    assert(a * b >= 0) by (nonlinear_arith)
        requires
            a >= 0,
            b >= 0,
    ;
    lemma_div_floor_pos(a * b, ONE as int);
    vstd::arithmetic::div_mod::lemma_div_is_ordered(0, a * b, ONE as int);
    vstd::arithmetic::div_mod::lemma_basic_div(0int, ONE as int);
}

/// pi/4 in fixed point.
pub const QUARTER_PI: i64 = 51472;

/// The arctangent correction coefficient 0.273 in fixed point.
pub const ATAN_K: i64 = 17892;

/// ln 2 in fixed point.
pub const LN2: i64 = 45426;

pub open spec fn spec_clamp(x: int, lo: int, hi: int) -> int {
    if x < lo {
        lo
    } else if x > hi {
        hi
    } else {
        x
    }
}

pub fn fclamp(x: i64, lo: i64, hi: i64) -> (r: i64)
    ensures
        r == spec_clamp(x as int, lo as int, hi as int),
{
    if x < lo {
        lo
    } else if x > hi {
        hi
    } else {
        x
    }
}

/// Multiplying by a scalar of magnitude at most ONE cannot grow a value.
pub proof fn lemma_mul_by_unit(a: int, b: int)
    requires
        fx_ok(a),
        abs_i(b) <= ONE,
    ensures
        abs_i(spec_mul(a, b)) <= abs_i(a),
{
    assert(-abs_i(a) * (ONE as int) <= a * b <= abs_i(a) * (ONE as int)) by (nonlinear_arith)
        requires
            abs_i(b) <= ONE,
    ;
    lemma_div_floor_pos(a * b, ONE as int);
    vstd::arithmetic::div_mod::lemma_div_is_ordered(-abs_i(a) * (ONE as int), a * b, ONE as int);
    vstd::arithmetic::div_mod::lemma_div_is_ordered(a * b, abs_i(a) * (ONE as int), ONE as int);
    vstd::arithmetic::div_mod::lemma_div_multiples_vanish(-abs_i(a), ONE as int);
    vstd::arithmetic::div_mod::lemma_div_multiples_vanish(abs_i(a), ONE as int);
    assert(abs_i(a) * (ONE as int) == (ONE as int) * abs_i(a)) by (nonlinear_arith);
    assert(-abs_i(a) * (ONE as int) == (ONE as int) * -abs_i(a)) by (nonlinear_arith);
}

/// Rational arctangent approximation on [0, 1]; the argument is clamped in.
pub open spec fn spec_atan01(z: int) -> int {
    let zc = spec_clamp(z, 0, ONE as int);
    spec_add(
        spec_mul(QUARTER_PI as int, zc),
        spec_mul(spec_mul(ATAN_K as int, zc), spec_sub(ONE as int, zc)),
    )
}

fn atan01(z: i64) -> (r: i64)
    requires
        fx_ok(z as int),
    ensures
        r == spec_atan01(z as int),
        0 <= r <= HALF_PI,
{
    let zc = fclamp(z, 0, ONE);
    let lin = fmul(QUARTER_PI, zc);
    let kz = fmul(ATAN_K, zc);
    let cor = fmul(kz, fsub(ONE, zc));
    proof {
        lemma_mul_by_unit(QUARTER_PI as int, zc as int);
        lemma_mul_by_unit(ATAN_K as int, zc as int);
        lemma_mul_by_unit(kz as int, spec_sub(ONE as int, zc as int));
        assert(0 <= zc * (QUARTER_PI as int)) by (nonlinear_arith)
            requires
                0 <= zc,
        ;
        assert(0 <= zc * (ATAN_K as int)) by (nonlinear_arith)
            requires
                0 <= zc,
        ;
        assert(0 <= kz * ((ONE as int) - zc)) by (nonlinear_arith)
            requires
                0 <= kz,
                zc <= ONE,
        ;
        lemma_div_floor_pos((QUARTER_PI as int) * zc, ONE as int);
        lemma_div_floor_pos((ATAN_K as int) * zc, ONE as int);
        lemma_div_floor_pos((kz as int) * ((ONE as int) - zc), ONE as int);
        vstd::arithmetic::div_mod::lemma_basic_div(0int, ONE as int);
        vstd::arithmetic::div_mod::lemma_div_is_ordered(0, (QUARTER_PI as int) * zc, ONE as int);
        vstd::arithmetic::div_mod::lemma_div_is_ordered(0, (ATAN_K as int) * zc, ONE as int);
        vstd::arithmetic::div_mod::lemma_div_is_ordered(
            0,
            (kz as int) * ((ONE as int) - zc),
            ONE as int,
        );
    }
    fadd(lin, cor)
}

/// Fixed-point two-argument arctangent, by octant reduction to [0, 1].
pub open spec fn spec_atan2(y: int, x: int) -> int {
    let ax = abs_i(x);
    let ay = abs_i(y);
    let base = if ax >= ay {
        spec_atan01(spec_div(ay, ax))
    } else {
        spec_sub(HALF_PI as int, spec_atan01(spec_div(ax, ay)))
    };
    if x >= 0 && y >= 0 {
        base
    } else if x < 0 && y >= 0 {
        (PI as int) - base
    } else if x < 0 {
        base - (PI as int)
    } else {
        -base
    }
}

pub fn fatan2(y: i64, x: i64) -> (r: i64)
    requires
        fx_ok(y as int),
        fx_ok(x as int),
    ensures
        r == spec_atan2(y as int, x as int),
        -PI <= r <= PI,
{
    let ax = fabs(x);
    let ay = fabs(y);
    let base = if ax >= ay {
        atan01(fdiv(ay, ax))
    } else {
        let b = atan01(fdiv(ax, ay));
        HALF_PI - b
    };
    if x >= 0 && y >= 0 {
        base
    } else if x < 0 && y >= 0 {
        PI - base
    } else if x < 0 {
        base - PI
    } else {
        -base
    }
}

/// Fixed-point arccosine over [-1, 1] (clamped in), landing in [0, pi].
pub open spec fn spec_acos(y: int) -> int {
    let yc = spec_clamp(y, -(ONE as int), ONE as int);
    spec_atan2(spec_sqrt(spec_sub(ONE as int, spec_mul(yc, yc))), yc)
}

pub fn facos(y: i64) -> (r: i64)
    requires
        fx_ok(y as int),
    ensures
        r == spec_acos(y as int),
        -PI <= r <= PI,
{
    let yc = fclamp(y, -ONE, ONE);
    let s = fsqrt(fsub(ONE, fmul(yc, yc)));
    fatan2(s, yc)
}

/// The mantissa of a subunit scalar, doubled into [ONE/2, ONE).
pub open spec fn spec_norm_m(u: int) -> int
    recommends
        1 <= u < ONE,
    decreases ONE - u,
{
    if u < 1 || u >= ONE {
        u
    } else if u >= 32768 {
        u
    } else {
        spec_norm_m(2 * u)
    }
}

/// How many doublings `spec_norm_m` performs.
pub open spec fn spec_norm_k(u: int) -> int
    recommends
        1 <= u < ONE,
    decreases ONE - u,
{
    if u < 1 || u >= ONE {
        0
    } else if u >= 32768 {
        0
    } else {
        1 + spec_norm_k(2 * u)
    }
}

/// The series part of the logarithm: 2 * (t + t^3/3 + t^5/5) around 1.
pub open spec fn spec_ln_frac(m: int) -> int {
    let t = spec_div(m - ONE, m + ONE);
    let t3 = spec_mul(spec_mul(t, t), t);
    let t5 = spec_mul(t3, spec_mul(t, t));
    let s = spec_add(spec_add(t, spec_div(t3, 3 * ONE)), spec_div(t5, 5 * ONE));
    spec_mul(2 * ONE, s)
}

/// Natural logarithm of u/ONE for subunit u: always at most -1.
pub open spec fn spec_ln_unit(u: int) -> int {
    spec_sub(spec_ln_frac(spec_norm_m(u)), spec_norm_k(u) * LN2)
}

pub fn ln_unit(u: i64) -> (r: i64)
    requires
        1 <= u < ONE,
    ensures
        r == spec_ln_unit(u as int),
        fx_ok(r as int),
        r <= -1,
{
    let mut m: i64 = u;
    let mut k: i64 = 0;
    proof {
        vstd::arithmetic::power2::lemma2_to64();
    }
    while m < 32768
        invariant
            1 <= m < ONE,
            0 <= k <= 16,
            m as int >= vstd::arithmetic::power2::pow2(k as nat),
            spec_norm_m(u as int) == spec_norm_m(m as int),
            spec_norm_k(u as int) == spec_norm_k(m as int) + k,
        decreases ONE - m,
    {
        proof {
            vstd::arithmetic::power2::lemma2_to64();
            assert(spec_norm_m(m as int) == spec_norm_m(2 * m));
            assert(spec_norm_k(m as int) == 1 + spec_norm_k(2 * m));
            if k >= 16 {
                assert(m as int >= vstd::arithmetic::power2::pow2(16)) by {
                    vstd::arithmetic::power2::lemma_pow2_strictly_increases(16, k as nat);
                }
            }
            assert(k < 16);
            assert(vstd::arithmetic::power2::pow2((k + 1) as nat) == 2 * vstd::arithmetic::power2::pow2(k as nat)) by {
                vstd::arithmetic::power2::lemma_pow2_unfold((k + 1) as nat);
            }
        }
        m = 2 * m;
        k = k + 1;
    }
    let t = fdiv(m - ONE, m + ONE);
    proof {
        let num = (m - ONE) * (ONE as int);
        let den = (m as int) + ONE;
        lemma_div_floor_pos(num, den);
        assert(num <= -ONE) by (nonlinear_arith)
            requires
                m < ONE,
                ONE == 65536int,
                num == (m - ONE) * (ONE as int),
        ;
        vstd::arithmetic::div_mod::lemma_fundamental_div_mod(num, den);
        vstd::arithmetic::div_mod::lemma_mod_bound(num, den);
        let q = num / den;
        assert(den * q <= num);
        assert(q <= -1) by (nonlinear_arith)
            requires
                den * q <= num,
                num < 0,
                den > 0,
        ;
    }
    let t2 = fmul(t, t);
    let t3 = fmul(t2, t);
    let t5 = fmul(t3, t2);
    let c3 = fdiv(t3, 3 * ONE);
    let c5 = fdiv(t5, 5 * ONE);
    proof {
        lemma_nonpos_parts(t as int, t2 as int, t3 as int, t5 as int, c3 as int, c5 as int);
    }
    let s = fadd(fadd(t, c3), c5);
    let r0 = fmul(2 * ONE, s);
    proof {
        assert(spec_mul(2 * (ONE as int), s as int) <= -2) by {
            assert(2 * (ONE as int) * s <= -2 * ONE) by (nonlinear_arith)
                requires
                    s <= -1,
                    ONE == 65536int,
            ;
            lemma_div_floor_pos(2 * (ONE as int) * s, ONE as int);
            vstd::arithmetic::div_mod::lemma_div_is_ordered(
                2 * (ONE as int) * s,
                -2 * ONE,
                ONE as int,
            );
            vstd::arithmetic::div_mod::lemma_div_multiples_vanish(-2, ONE as int);
        }
    }
    fsub(r0, k * LN2)
}

proof fn lemma_nonpos_parts(t: int, t2: int, t3: int, t5: int, c3: int, c5: int)
    requires
        t <= -1,
        fx_ok(t),
        t2 == spec_mul(t, t),
        t3 == spec_mul(t2, t),
        t5 == spec_mul(t3, t2),
        c3 == spec_div(t3, 3 * ONE),
        c5 == spec_div(t5, 5 * ONE),
    ensures
        c3 <= 0,
        c5 <= 0,
{
    assert(t2 >= 0) by {
        assert(t * t >= 0) by (nonlinear_arith);
        lemma_div_floor_pos(t * t, ONE as int);
        vstd::arithmetic::div_mod::lemma_div_is_ordered(0, t * t, ONE as int);
        vstd::arithmetic::div_mod::lemma_basic_div(0int, ONE as int);
    }
    assert(t3 <= 0) by {
        assert(t2 * t <= 0) by (nonlinear_arith)
            requires
                t2 >= 0,
                t <= -1,
        ;
        lemma_div_floor_pos(t2 * t, ONE as int);
        vstd::arithmetic::div_mod::lemma_div_is_ordered(t2 * t, 0, ONE as int);
        vstd::arithmetic::div_mod::lemma_basic_div(0int, ONE as int);
    }
    assert(t5 <= 0) by {
        assert(t3 * t2 <= 0) by (nonlinear_arith)
            requires
                t3 <= 0,
                t2 >= 0,
        ;
        lemma_div_floor_pos(t3 * t2, ONE as int);
        vstd::arithmetic::div_mod::lemma_div_is_ordered(t3 * t2, 0, ONE as int);
        vstd::arithmetic::div_mod::lemma_basic_div(0int, ONE as int);
    }
    assert(c3 <= 0) by {
        assert(t3 * ONE <= 0) by (nonlinear_arith)
            requires
                t3 <= 0,
        ;
        lemma_div_floor_pos(t3 * ONE, 3 * ONE);
        vstd::arithmetic::div_mod::lemma_div_is_ordered(t3 * ONE, 0, 3 * ONE);
        vstd::arithmetic::div_mod::lemma_basic_div(0int, 3 * ONE);
    }
    assert(c5 <= 0) by {
        assert(t5 * ONE <= 0) by (nonlinear_arith)
            requires
                t5 <= 0,
        ;
        lemma_div_floor_pos(t5 * ONE, 5 * ONE);
        vstd::arithmetic::div_mod::lemma_div_is_ordered(t5 * ONE, 0, 5 * ONE);
        vstd::arithmetic::div_mod::lemma_basic_div(0int, 5 * ONE);
    }
}

pub fn fneg(a: i64) -> (r: i64)
    requires
        fx_ok(a as int),
    ensures
        r == -a,
        fx_ok(r as int),
{
    -a
}

pub fn fabs(a: i64) -> (r: i64)
    requires
        fx_ok(a as int),
    ensures
        r == abs_i(a as int),
        fx_ok(r as int),
{
    if a < 0 {
        -a
    } else {
        a
    }
}

pub fn fmin(a: i64, b: i64) -> (r: i64)
    ensures
        r == spec_min(a as int, b as int),
{
    if a < b {
        a
    } else {
        b
    }
}

pub fn fmax(a: i64, b: i64) -> (r: i64)
    ensures
        r == spec_max(a as int, b as int),
{
    if a > b {
        a
    } else {
        b
    }
}

} // verus!
