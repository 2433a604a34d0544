//! Probability densities for importance sampling: cosine-weighted about a
//! normal, uniform over the sphere, toward a light shape, and an even
//! mixture of two densities.
use vstd::prelude::*;

verus! {

use crate::fixed::{
    fx_ok, spec_div, sat_clip, div_floor, div_floor_i128, clip128, fdiv, ONE, PI, SAT,
};
use crate::vec3::{Vec3, vec_ok, spec_dot, spec_unit};
use crate::onb::{Onb, onb_ok, spec_onb_from};
use crate::hittable::{Hittable, hittable_ok};

#[derive(Clone, Copy, PartialEq, Eq, Structural, Debug)]
pub struct CosinePdf {
    pub uvw: Onb,
}

/// The uniform density over the whole sphere of directions.
#[derive(Clone, Copy, PartialEq, Eq, Structural, Debug)]
pub struct SpherePdf {}

pub struct HittablePdf<'a> {
    pub o: Vec3,
    pub ptr: &'a Hittable,
}

/// A density for drawing scatter directions.
pub enum Pdf<'a> {
    Cosine(CosinePdf),
    Sphere(SpherePdf),
    Hittable(HittablePdf<'a>),
}

/// An even mixture of two densities.
pub struct MixturePdf<'a, 'b> {
    pub p0: &'a Pdf<'b>,
    pub p1: &'a Pdf<'b>,
}

pub open spec fn pdf_ok(p: Pdf) -> bool {
    match p {
        Pdf::Cosine(c) => onb_ok(c.uvw),
        Pdf::Sphere(_) => true,
        Pdf::Hittable(h) => hittable_ok(*h.ptr) && vec_ok(h.o),
    }
}

/// The density a pdf reports for a direction.
pub open spec fn spec_pdf_value(p: Pdf, direction: Vec3) -> int {
    match p {
        Pdf::Cosine(c) => {
            let cosine = spec_dot(spec_unit(direction), c.uvw.ax2);
            if cosine < 0 {
                0
            } else {
                spec_div(cosine, PI as int)
            }
        },
        Pdf::Sphere(_) => spec_div(ONE as int, 4 * PI),
        Pdf::Hittable(h) => crate::hittable::spec_pdf_value(*h.ptr, h.o, direction),
    }
}

/// The mixture's density: the fixed-point arithmetic mean of its parts.
pub open spec fn spec_mixture_value(m: MixturePdf, direction: Vec3) -> int {
    sat_clip(div_floor(spec_pdf_value(*m.p0, direction) + spec_pdf_value(*m.p1, direction), 2))
}

impl CosinePdf {
    pub fn new(w: &Vec3) -> (r: CosinePdf)
        requires
            vec_ok(*w),
        ensures
            r.uvw == spec_onb_from(*w),
            onb_ok(r.uvw),
    {
        CosinePdf { uvw: Onb::from_w(w) }
    }
}

impl<'a> HittablePdf<'a> {
    pub fn new(p: &'a Hittable, origin: Vec3) -> (r: HittablePdf<'a>)
        ensures
            r.o == origin,
            r.ptr == p,
    {
        HittablePdf { o: origin, ptr: p }
    }
}

impl<'b> Pdf<'b> {
    pub fn value(&self, direction: &Vec3) -> (r: i64)
        requires
            pdf_ok(*self),
            vec_ok(*direction),
        ensures
            r == spec_pdf_value(*self, *direction),
            fx_ok(r as int),
    {
        match self {
            Pdf::Cosine(c) => {
                let cosine = direction.unit_vector().dot(&c.uvw.w());
                if cosine < 0 {
                    0
                } else {
                    fdiv(cosine, PI)
                }
            },
            Pdf::Sphere(_) => fdiv(ONE, 4 * PI),
            Pdf::Hittable(h) => h.ptr.pdf_value(&h.o, direction),
        }
    }

    pub fn generate(&self, rng: &mut rand::rngs::StdRng) -> (r: Vec3)
        requires
            pdf_ok(*self),
        ensures
            vec_ok(r),
            self matches Pdf::Hittable(h) ==> (match *h.ptr {
                Hittable::XyRect(rc) => r.z == crate::fixed::spec_sub(rc.k as int, h.o.z as int),
                Hittable::XzRect(rc) => r.y == crate::fixed::spec_sub(rc.k as int, h.o.y as int),
                Hittable::YzRect(rc) => r.x == crate::fixed::spec_sub(rc.k as int, h.o.x as int),
                _ => r == (Vec3 { x: ONE, y: 0i64, z: 0i64 }),
            }),
    {
        match self {
            Pdf::Cosine(c) => c.uvw.local_v(&Vec3::random_cosine_direction(rng)),
            Pdf::Sphere(_) => Vec3::random_in_unit_sphere(rng),
            Pdf::Hittable(h) => h.ptr.random(rng, &h.o),
        }
    }
}

impl<'a, 'b> MixturePdf<'a, 'b> {
    pub fn new(p0: &'a Pdf<'b>, p1: &'a Pdf<'b>) -> (r: MixturePdf<'a, 'b>)
        ensures
            r.p0 == p0,
            r.p1 == p1,
    {
        MixturePdf { p0, p1 }
    }

    /// The mean of the two component densities.
    pub fn value(&self, direction: &Vec3) -> (r: i64)
        requires
            pdf_ok(*self.p0),
            pdf_ok(*self.p1),
            vec_ok(*direction),
        ensures
            r == spec_mixture_value(*self, *direction),
            fx_ok(r as int),
    {
        let v0 = self.p0.value(direction);
        let v1 = self.p1.value(direction);
        let q = div_floor_i128(v0 as i128 + v1 as i128, 2);
        clip128(q)
    }

    /// An unbiased coin picks which component to draw from.
    pub fn generate(&self, rng: &mut rand::rngs::StdRng) -> (r: Vec3)
        requires
            pdf_ok(*self.p0),
            pdf_ok(*self.p1),
        ensures
            vec_ok(r),
    {
        if crate::rng::rng_unit(rng) < 32768 {
            self.p0.generate(rng)
        } else {
            self.p1.generate(rng)
        }
    }
}

/// Law: for any direction, the mixture's density is exactly the arithmetic
/// mean of its two components' densities (in fixed point: their sum halved,
/// rounded down), whenever that mean is representable.
pub proof fn lemma_mixture_value_is_mean(m: MixturePdf, direction: Vec3)
    requires
        fx_ok(spec_pdf_value(*m.p0, direction)),
        fx_ok(spec_pdf_value(*m.p1, direction)),
    ensures
        spec_mixture_value(m, direction) == div_floor(
            spec_pdf_value(*m.p0, direction) + spec_pdf_value(*m.p1, direction),
            2,
        ),
{
    let s = spec_pdf_value(*m.p0, direction) + spec_pdf_value(*m.p1, direction);
    crate::fixed::lemma_div_floor_pos(s, 2);
    vstd::arithmetic::div_mod::lemma_div_is_ordered(-2 * SAT, s, 2);
    vstd::arithmetic::div_mod::lemma_div_is_ordered(s, 2 * SAT, 2);
    vstd::arithmetic::div_mod::lemma_div_multiples_vanish(-(SAT as int), 2);
    vstd::arithmetic::div_mod::lemma_div_multiples_vanish(SAT as int, 2);
}

} // verus!
