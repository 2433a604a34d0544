//! Three-component fixed-point vectors, doubling as points and colors.
use vstd::prelude::*;

verus! {

use crate::fixed::{
    fx_ok, spec_add, spec_sub, spec_mul, spec_div, spec_sqrt, spec_min, spec_sin, spec_cos, abs_i,
    fadd, fsub, fmul, fdiv, fsqrt, fsin, fcos, fmin, fabs, lemma_unit_mul, ONE, PI, TWO_PI,
};
use crate::rng::rng_unit;

#[derive(Clone, Copy, PartialEq, Eq, Structural, Debug)]
pub struct Vec3 {
    pub x: i64,
    pub y: i64,
    pub z: i64,
}

/// All three components lie in the representable scalar range.
pub open spec fn vec_ok(v: Vec3) -> bool {
    fx_ok(v.x as int) && fx_ok(v.y as int) && fx_ok(v.z as int)
}

pub open spec fn spec_v_add(a: Vec3, b: Vec3) -> Vec3 {
    Vec3 {
        x: spec_add(a.x as int, b.x as int) as i64,
        y: spec_add(a.y as int, b.y as int) as i64,
        z: spec_add(a.z as int, b.z as int) as i64,
    }
}

pub open spec fn spec_v_sub(a: Vec3, b: Vec3) -> Vec3 {
    Vec3 {
        x: spec_sub(a.x as int, b.x as int) as i64,
        y: spec_sub(a.y as int, b.y as int) as i64,
        z: spec_sub(a.z as int, b.z as int) as i64,
    }
}

pub open spec fn spec_v_neg(a: Vec3) -> Vec3 {
    Vec3 { x: (-(a.x as int)) as i64, y: (-(a.y as int)) as i64, z: (-(a.z as int)) as i64 }
}

pub open spec fn spec_v_mul(a: Vec3, b: Vec3) -> Vec3 {
    Vec3 {
        x: spec_mul(a.x as int, b.x as int) as i64,
        y: spec_mul(a.y as int, b.y as int) as i64,
        z: spec_mul(a.z as int, b.z as int) as i64,
    }
}

pub open spec fn spec_v_scale(a: Vec3, s: int) -> Vec3 {
    Vec3 {
        x: spec_mul(a.x as int, s) as i64,
        y: spec_mul(a.y as int, s) as i64,
        z: spec_mul(a.z as int, s) as i64,
    }
}

pub open spec fn spec_v_div(a: Vec3, s: int) -> Vec3 {
    Vec3 {
        x: spec_div(a.x as int, s) as i64,
        y: spec_div(a.y as int, s) as i64,
        z: spec_div(a.z as int, s) as i64,
    }
}

pub open spec fn spec_dot(a: Vec3, b: Vec3) -> int {
    spec_add(
        spec_add(spec_mul(a.x as int, b.x as int), spec_mul(a.y as int, b.y as int)),
        spec_mul(a.z as int, b.z as int),
    )
}

pub open spec fn spec_cross(a: Vec3, b: Vec3) -> Vec3 {
    Vec3 {
        x: spec_sub(spec_mul(a.y as int, b.z as int), spec_mul(a.z as int, b.y as int)) as i64,
        y: spec_sub(spec_mul(a.z as int, b.x as int), spec_mul(a.x as int, b.z as int)) as i64,
        z: spec_sub(spec_mul(a.x as int, b.y as int), spec_mul(a.y as int, b.x as int)) as i64,
    }
}

pub open spec fn spec_length(a: Vec3) -> int {
    spec_sqrt(spec_dot(a, a))
}

pub open spec fn spec_unit(a: Vec3) -> Vec3 {
    spec_v_div(a, spec_length(a))
}

pub open spec fn spec_reflect(v: Vec3, n: Vec3) -> Vec3 {
    spec_v_sub(v, spec_v_scale(n, spec_mul(2 * ONE, spec_dot(v, n))))
}

pub open spec fn spec_refract(v: Vec3, n: Vec3, etai_over_etat: int) -> Vec3 {
    let ct = spec_min(spec_dot(n, spec_v_neg(v)), ONE as int);
    let perp = spec_v_scale(spec_v_add(v, spec_v_scale(n, ct)), etai_over_etat);
    let k = spec_sqrt(abs_i(spec_sub(ONE as int, spec_dot(perp, perp))));
    spec_v_add(perp, spec_v_scale(n, -k))
}

/// Rotation about the y axis by an angle whose cosine and sine are given.
pub open spec fn spec_rot_y(v: Vec3, c: int, s: int) -> Vec3 {
    Vec3 {
        x: spec_add(spec_mul(c, v.x as int), spec_mul(s, v.z as int)) as i64,
        y: v.y,
        z: spec_add(spec_mul(-s, v.x as int), spec_mul(c, v.z as int)) as i64,
    }
}

/// Rotation about the x axis by an angle whose cosine and sine are given.
pub open spec fn spec_rot_x(v: Vec3, c: int, s: int) -> Vec3 {
    Vec3 {
        x: v.x,
        y: spec_sub(spec_mul(c, v.y as int), spec_mul(s, v.z as int)) as i64,
        z: spec_add(spec_mul(s, v.y as int), spec_mul(c, v.z as int)) as i64,
    }
}

/// Rotation about the z axis by an angle whose cosine and sine are given.
pub open spec fn spec_rot_z(v: Vec3, c: int, s: int) -> Vec3 {
    Vec3 {
        x: spec_sub(spec_mul(c, v.x as int), spec_mul(s, v.y as int)) as i64,
        y: spec_add(spec_mul(s, v.x as int), spec_mul(c, v.y as int)) as i64,
        z: v.z,
    }
}

/// Whether a cosine/sine pair is one of the four exact quarter turns, the
/// only pairs the fixed-point grid represents without rounding.
pub open spec fn quarter_turn(c: int, s: int) -> bool {
    (c == ONE && s == 0) || (c == 0 && s == ONE) || (c == -ONE && s == 0) || (c == 0 && s == -ONE)
}

/// Law: rotating about the y axis and rotating back recovers the vector,
/// for the quarter turns, whose rotation arithmetic is exact. (For other
/// angles the products round, so the round trip is only approximate.)
pub proof fn lemma_rotate_y_quarter_roundtrip(v: Vec3, c: int, s: int)
    requires
        vec_ok(v),
        quarter_turn(c, s),
    ensures
        spec_rot_y(spec_rot_y(v, c, s), c, -s) == v,
{
    crate::fixed::lemma_mul_units(v.x as int);
    crate::fixed::lemma_mul_units(v.z as int);
    let w = spec_rot_y(v, c, s);
    crate::fixed::lemma_mul_units(w.x as int);
    crate::fixed::lemma_mul_units(w.z as int);
}

/// Black absorbs: multiplying by the zero color gives zero, dividing zero
/// by any scalar gives zero, and adding zero changes nothing.
pub proof fn lemma_black_propagates(x: Vec3, e: Vec3, p: int)
    requires
        vec_ok(x),
        vec_ok(e),
    ensures
        spec_v_mul(x, Vec3 { x: 0i64, y: 0i64, z: 0i64 }) == (Vec3 { x: 0i64, y: 0i64, z: 0i64 }),
        spec_v_div(Vec3 { x: 0i64, y: 0i64, z: 0i64 }, p) == (Vec3 { x: 0i64, y: 0i64, z: 0i64 }),
        spec_v_add(e, Vec3 { x: 0i64, y: 0i64, z: 0i64 }) == e,
{
    crate::fixed::lemma_mul_units(x.x as int);
    crate::fixed::lemma_mul_units(x.y as int);
    crate::fixed::lemma_mul_units(x.z as int);
    if p != 0 {
        let q = crate::fixed::abs_i(p);
        vstd::arithmetic::div_mod::lemma_basic_div(0int, q);
        vstd::arithmetic::div_mod::lemma_small_mod(0nat, q as nat);
        assert(crate::fixed::div_floor(0 * (ONE as int), p) == 0);
    }
}

/// Scaling any perturbation by zero and adding it leaves a vector unchanged.
pub proof fn lemma_fuzz_zero_keeps_direction(base: Vec3)
    requires
        vec_ok(base),
    ensures
        forall|s: Vec3| spec_v_add(base, #[trigger] spec_v_scale(s, 0)) == base,
{
    assert forall|s: Vec3| spec_v_add(base, #[trigger] spec_v_scale(s, 0)) == base by {
        crate::fixed::lemma_div_floor_pos((s.x as int) * 0, ONE as int);
        crate::fixed::lemma_div_floor_pos((s.y as int) * 0, ONE as int);
        crate::fixed::lemma_div_floor_pos((s.z as int) * 0, ONE as int);
        vstd::arithmetic::div_mod::lemma_basic_div(0int, ONE as int);
        assert((s.x as int) * 0 == 0 && (s.y as int) * 0 == 0 && (s.z as int) * 0 == 0);
    }
}

/// Flipping the second vector at least flips the sign of the rounded dot
/// product: the flipped product never exceeds the negated one.
pub proof fn lemma_dot_neg_flip(d: Vec3, n: Vec3)
    requires
        vec_ok(d),
        vec_ok(n),
    ensures
        spec_dot(d, spec_v_neg(n)) <= -spec_dot(d, n),
{
    crate::fixed::lemma_mul_flip(d.x as int, n.x as int);
    crate::fixed::lemma_mul_flip(d.y as int, n.y as int);
    crate::fixed::lemma_mul_flip(d.z as int, n.z as int);
}

impl Vec3 {
    pub fn new(a: i64, b: i64, c: i64) -> (r: Vec3)
        requires
            fx_ok(a as int),
            fx_ok(b as int),
            fx_ok(c as int),
        ensures
            r == (Vec3 { x: a, y: b, z: c }),
            vec_ok(r),
    {
        Vec3 { x: a, y: b, z: c }
    }

    pub fn zero() -> (r: Vec3)
        ensures
            r == (Vec3 { x: 0i64, y: 0i64, z: 0i64 }),
            vec_ok(r),
    {
        Vec3 { x: 0, y: 0, z: 0 }
    }

    pub fn x(&self) -> (r: i64)
        ensures
            r == self.x,
    {
        self.x
    }

    pub fn y(&self) -> (r: i64)
        ensures
            r == self.y,
    {
        self.y
    }

    pub fn z(&self) -> (r: i64)
        ensures
            r == self.z,
    {
        self.z
    }

    pub fn add(&self, rhs: &Vec3) -> (r: Vec3)
        requires
            vec_ok(*self),
            vec_ok(*rhs),
        ensures
            r == spec_v_add(*self, *rhs),
            vec_ok(r),
    {
        Vec3 { x: fadd(self.x, rhs.x), y: fadd(self.y, rhs.y), z: fadd(self.z, rhs.z) }
    }

    pub fn sub(&self, rhs: &Vec3) -> (r: Vec3)
        requires
            vec_ok(*self),
            vec_ok(*rhs),
        ensures
            r == spec_v_sub(*self, *rhs),
            vec_ok(r),
    {
        Vec3 { x: fsub(self.x, rhs.x), y: fsub(self.y, rhs.y), z: fsub(self.z, rhs.z) }
    }

    pub fn neg(&self) -> (r: Vec3)
        requires
            vec_ok(*self),
        ensures
            r == spec_v_neg(*self),
            vec_ok(r),
    {
        Vec3 { x: -self.x, y: -self.y, z: -self.z }
    }

    pub fn mul(&self, rhs: &Vec3) -> (r: Vec3)
        requires
            vec_ok(*self),
            vec_ok(*rhs),
        ensures
            r == spec_v_mul(*self, *rhs),
            vec_ok(r),
    {
        Vec3 { x: fmul(self.x, rhs.x), y: fmul(self.y, rhs.y), z: fmul(self.z, rhs.z) }
    }

    pub fn scale(&self, s: i64) -> (r: Vec3)
        requires
            vec_ok(*self),
            fx_ok(s as int),
        ensures
            r == spec_v_scale(*self, s as int),
            vec_ok(r),
    {
        Vec3 { x: fmul(self.x, s), y: fmul(self.y, s), z: fmul(self.z, s) }
    }

    pub fn div(&self, s: i64) -> (r: Vec3)
        requires
            vec_ok(*self),
            fx_ok(s as int),
        ensures
            r == spec_v_div(*self, s as int),
            vec_ok(r),
    {
        Vec3 { x: fdiv(self.x, s), y: fdiv(self.y, s), z: fdiv(self.z, s) }
    }

    pub fn dot(&self, v: &Vec3) -> (r: i64)
        requires
            vec_ok(*self),
            vec_ok(*v),
        ensures
            r == spec_dot(*self, *v),
            fx_ok(r as int),
    {
        fadd(fadd(fmul(self.x, v.x), fmul(self.y, v.y)), fmul(self.z, v.z))
    }

    pub fn cross(&self, v: &Vec3) -> (r: Vec3)
        requires
            vec_ok(*self),
            vec_ok(*v),
        ensures
            r == spec_cross(*self, *v),
            vec_ok(r),
    {
        Vec3 {
            x: fsub(fmul(self.y, v.z), fmul(self.z, v.y)),
            y: fsub(fmul(self.z, v.x), fmul(self.x, v.z)),
            z: fsub(fmul(self.x, v.y), fmul(self.y, v.x)),
        }
    }

    pub fn length_squared(&self) -> (r: i64)
        requires
            vec_ok(*self),
        ensures
            r == spec_dot(*self, *self),
            fx_ok(r as int),
    {
        self.dot(self)
    }

    pub fn length(&self) -> (r: i64)
        requires
            vec_ok(*self),
        ensures
            r == spec_length(*self),
            fx_ok(r as int),
            r >= 0,
    {
        fsqrt(self.length_squared())
    }

    pub fn unit_vector(&self) -> (r: Vec3)
        requires
            vec_ok(*self),
        ensures
            r == spec_unit(*self),
            vec_ok(r),
    {
        let l = self.length();
        self.div(l)
    }

    /// A vector whose every component has been rounded away by the fixed-point
    /// grid: the analogue of the float version's tiny-epsilon test.
    pub fn near_zero(&self) -> (r: bool)
        requires
            vec_ok(*self),
        ensures
            r == (self.x == 0 && self.y == 0 && self.z == 0),
    {
        self.x == 0 && self.y == 0 && self.z == 0
    }

    pub fn reflect(&self, normal: &Vec3) -> (r: Vec3)
        requires
            vec_ok(*self),
            vec_ok(*normal),
        ensures
            r == spec_reflect(*self, *normal),
            vec_ok(r),
    {
        let d = self.dot(normal);
        let two_d = fmul(2 * ONE, d);
        self.sub(&normal.scale(two_d))
    }

    pub fn refract(&self, normal: &Vec3, etai_over_etat: i64) -> (r: Vec3)
        requires
            vec_ok(*self),
            vec_ok(*normal),
            fx_ok(etai_over_etat as int),
        ensures
            r == spec_refract(*self, *normal, etai_over_etat as int),
            vec_ok(r),
    {
        let cos_theta = fmin(normal.dot(&self.neg()), ONE);
        let r_out_perp = self.add(&normal.scale(cos_theta)).scale(etai_over_etat);
        let k = fsqrt(fabs(fsub(ONE, r_out_perp.length_squared())));
        let r_out_parallel = normal.scale(-k);
        r_out_perp.add(&r_out_parallel)
    }

    pub fn rotate_x(&self, theta: i64) -> (r: Vec3)
        requires
            vec_ok(*self),
            fx_ok(theta as int),
        ensures
            r == spec_rot_x(*self, spec_cos(theta as int), spec_sin(theta as int)),
            vec_ok(r),
    {
        let s = fsin(theta);
        let c = fcos(theta);
        self.rotate_x_cs(c, s)
    }

    pub fn rotate_x_cs(&self, c: i64, s: i64) -> (r: Vec3)
        requires
            vec_ok(*self),
            fx_ok(c as int),
            fx_ok(s as int),
        ensures
            r == spec_rot_x(*self, c as int, s as int),
            vec_ok(r),
    {
        Vec3 {
            x: self.x,
            y: fsub(fmul(c, self.y), fmul(s, self.z)),
            z: fadd(fmul(s, self.y), fmul(c, self.z)),
        }
    }

    pub fn rotate_y(&self, theta: i64) -> (r: Vec3)
        requires
            vec_ok(*self),
            fx_ok(theta as int),
        ensures
            r == spec_rot_y(*self, spec_cos(theta as int), spec_sin(theta as int)),
            vec_ok(r),
    {
        let s = fsin(theta);
        let c = fcos(theta);
        self.rotate_y_cs(c, s)
    }

    pub fn rotate_y_cs(&self, c: i64, s: i64) -> (r: Vec3)
        requires
            vec_ok(*self),
            fx_ok(c as int),
            fx_ok(s as int),
        ensures
            r == spec_rot_y(*self, c as int, s as int),
            vec_ok(r),
    {
        Vec3 {
            x: fadd(fmul(c, self.x), fmul(s, self.z)),
            y: self.y,
            z: fadd(fmul(-s, self.x), fmul(c, self.z)),
        }
    }

    pub fn rotate_z(&self, theta: i64) -> (r: Vec3)
        requires
            vec_ok(*self),
            fx_ok(theta as int),
        ensures
            r == spec_rot_z(*self, spec_cos(theta as int), spec_sin(theta as int)),
            vec_ok(r),
    {
        let s = fsin(theta);
        let c = fcos(theta);
        self.rotate_z_cs(c, s)
    }

    pub fn rotate_z_cs(&self, c: i64, s: i64) -> (r: Vec3)
        requires
            vec_ok(*self),
            fx_ok(c as int),
            fx_ok(s as int),
        ensures
            r == spec_rot_z(*self, c as int, s as int),
            vec_ok(r),
    {
        Vec3 {
            x: fsub(fmul(c, self.x), fmul(s, self.y)),
            y: fadd(fmul(s, self.x), fmul(c, self.y)),
            z: self.z,
        }
    }

    /// Each component drawn uniformly from [0, ONE).
    pub fn random(rng: &mut rand::rngs::StdRng) -> (r: Vec3)
        ensures
            vec_ok(r),
            0 <= r.x < ONE && 0 <= r.y < ONE && 0 <= r.z < ONE,
    {
        Vec3 { x: rng_unit(rng), y: rng_unit(rng), z: rng_unit(rng) }
    }

    /// Each component drawn uniformly from [start, end).
    pub fn random_range(rng: &mut rand::rngs::StdRng, start: i64, end: i64) -> (r: Vec3)
        requires
            fx_ok(start as int),
            fx_ok(end as int),
        ensures
            vec_ok(r),
            start <= end ==> start <= r.x && r.x as int <= spec_add(
                start as int,
                spec_sub(end as int, start as int),
            ) && start <= r.y && r.y as int <= spec_add(
                start as int,
                spec_sub(end as int, start as int),
            ) && start <= r.z && r.z as int <= spec_add(
                start as int,
                spec_sub(end as int, start as int),
            ),
    {
        let base = Vec3 { x: start, y: start, z: start };
        let span = fsub(end, start);
        let draw = Vec3::random(rng);
        let step = draw.scale(span);
        proof {
            if start <= end {
                crate::fixed::lemma_mul_by_unit(span as int, draw.x as int);
                crate::fixed::lemma_mul_by_unit(span as int, draw.y as int);
                crate::fixed::lemma_mul_by_unit(span as int, draw.z as int);
                crate::fixed::lemma_mul_nonneg(draw.x as int, span as int);
                crate::fixed::lemma_mul_nonneg(draw.y as int, span as int);
                crate::fixed::lemma_mul_nonneg(draw.z as int, span as int);
                assert((draw.x as int) * (span as int) == (span as int) * (draw.x as int))
                    by (nonlinear_arith);
                assert((draw.y as int) * (span as int) == (span as int) * (draw.y as int))
                    by (nonlinear_arith);
                assert((draw.z as int) * (span as int) == (span as int) * (draw.z as int))
                    by (nonlinear_arith);
                assert(0 <= step.x <= span && 0 <= step.y <= span && 0 <= step.z <= span);
            }
        }
        base.add(&step)
    }

    /// A point drawn inside the unit ball: a unit direction scaled by a draw.
    pub fn random_in_unit_sphere(rng: &mut rand::rngs::StdRng) -> (r: Vec3)
        ensures
            vec_ok(r),
            abs_i(r.x as int) <= ONE && abs_i(r.y as int) <= ONE && abs_i(r.z as int) <= ONE,
    {
        let u = rng_unit(rng);
        let dir = Vec3::random_unit_vector(rng);
        proof {
            lemma_unit_mul(dir.x as int, u as int);
            lemma_unit_mul(dir.y as int, u as int);
            lemma_unit_mul(dir.z as int, u as int);
        }
        dir.scale(u)
    }

    /// A direction drawn over the sphere from two uniform angle draws.
    pub fn random_unit_vector(rng: &mut rand::rngs::StdRng) -> (r: Vec3)
        ensures
            vec_ok(r),
            abs_i(r.x as int) <= ONE && abs_i(r.y as int) <= ONE && abs_i(r.z as int) <= ONE,
    {
        let alpha = fmul(rng_unit(rng), PI);
        let beta = fmul(rng_unit(rng), TWO_PI);
        let a = fsin(alpha);
        let zc = fcos(alpha);
        let yc = fsin(beta);
        let xc = fcos(beta);
        proof {
            lemma_unit_mul(xc as int, a as int);
            lemma_unit_mul(yc as int, a as int);
        }
        Vec3 { x: fmul(xc, a), y: fmul(yc, a), z: zc }
    }

    /// A unit-ball draw flipped into the hemisphere around the given normal.
    pub fn random_in_hemisphere(rng: &mut rand::rngs::StdRng, normal: &Vec3) -> (r: Vec3)
        requires
            vec_ok(*normal),
        ensures
            vec_ok(r),
            abs_i(r.x as int) <= ONE && abs_i(r.y as int) <= ONE && abs_i(r.z as int) <= ONE,
    {
        let v = Vec3::random_in_unit_sphere(rng);
        if v.dot(normal) > 0 {
            v
        } else {
            v.neg()
        }
    }

    /// A direction drawn with density proportional to the cosine of its angle
    /// to the z axis.
    pub fn random_cosine_direction(rng: &mut rand::rngs::StdRng) -> (r: Vec3)
        ensures
            vec_ok(r),
            abs_i(r.x as int) <= ONE && abs_i(r.y as int) <= ONE && 0 <= r.z <= ONE,
    {
        let r1 = rng_unit(rng);
        let r2 = rng_unit(rng);
        let z = fsqrt(fsub(ONE, r2));
        let phi = fmul(r1, TWO_PI);
        let sq = fsqrt(r2);
        let cp = fcos(phi);
        let sp = fsin(phi);
        proof {
            assert(z <= ONE && sq <= ONE) by (nonlinear_arith)
                requires
                    z >= 0,
                    sq >= 0,
                    z * z <= (ONE as int) * ONE || z == 0,
                    sq * sq <= (ONE as int) * ONE || sq == 0,
                    ONE == 65536int,
            ;
            lemma_unit_mul(cp as int, sq as int);
            lemma_unit_mul(sp as int, sq as int);
        }
        Vec3 { x: fmul(cp, sq), y: fmul(sp, sq), z }
    }
}

} // verus!
