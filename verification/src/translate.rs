//! A decorator that shifts its inner hittable by a fixed offset.
use vstd::prelude::*;

verus! {

use crate::fixed::fx_ok;
use crate::vec3::{Vec3, vec_ok, spec_v_add, spec_v_sub, spec_v_neg, spec_dot};
use crate::ray::{Ray, ray_ok};
use crate::hittable::{Hittable, HitRecord, spec_hit, rec_ok, spec_front_face, spec_oriented};

#[derive(PartialEq, Eq, Debug)]
pub struct Translate {
    pub inner: Box<Hittable>,
    pub offset: Vec3,
}

impl Translate {
    pub fn new(p: Box<Hittable>, displacement: Vec3) -> (r: Translate)
        requires
            vec_ok(displacement),
        ensures
            r == (Translate { inner: p, offset: displacement }),
    {
        Translate { inner: p, offset: displacement }
    }
}

/// Law: translating a point and translating it back recovers it exactly,
/// whenever the shifted point stays representable.
pub proof fn lemma_translate_roundtrip(p: Vec3, offset: Vec3)
    requires
        vec_ok(p),
        vec_ok(offset),
        fx_ok(p.x + offset.x),
        fx_ok(p.y + offset.y),
        fx_ok(p.z + offset.z),
    ensures
        spec_v_sub(spec_v_add(p, offset), offset) == p,
{
}

/// One unfolding of the wrapper's hit: a front-face hit of the inner
/// geometry at the shifted ray comes back with its point shifted forward.
proof fn lemma_translate_front_hit(t: Translate, ray: Ray, tmin: int, tmax: int, rec0: HitRecord)
    requires
        spec_hit(
            *t.inner,
            Ray { orig: spec_v_sub(ray.orig, t.offset), dir: ray.dir, tm: ray.tm },
            tmin,
            tmax,
        ) == Some(rec0),
        spec_front_face(ray.dir, rec0.normal),
    ensures
        spec_hit(Hittable::Translate(t), ray, tmin, tmax) == Some(
            HitRecord {
                p: spec_v_add(rec0.p, t.offset),
                normal: rec0.normal,
                t: rec0.t,
                u: rec0.u,
                v: rec0.v,
                front_face: true,
                material: rec0.material,
            },
        ),
{
    assert(spec_oriented(ray.dir, rec0.normal) == rec0.normal);
}

/// One unfolding of the wrapper's hit: a miss stays a miss.
proof fn lemma_translate_miss(t: Translate, ray: Ray, tmin: int, tmax: int)
    requires
        spec_hit(
            *t.inner,
            Ray { orig: spec_v_sub(ray.orig, t.offset), dir: ray.dir, tm: ray.tm },
            tmin,
            tmax,
        ) is None,
    ensures
        spec_hit(Hittable::Translate(t), ray, tmin, tmax) is None,
{
}

/// Law: translating geometry and wrapping the result in the inverse
/// translation recovers the original hits exactly — point, normal,
/// parameter and face — for front-face hits whose shifted quantities stay
/// representable. (A back-face hit is re-oriented by each wrapper, as the
/// wrapped query derives the face from the stored normal; at the
/// saturation bound the shifts stop being invertible.)
#[verifier::spinoff_prover]
#[verifier::rlimit(100)]
pub proof fn lemma_translate_inverse_roundtrip(
    inner: Hittable,
    off: Vec3,
    ray: Ray,
    tmin: int,
    tmax: int,
)
    requires
        ray_ok(ray),
        vec_ok(off),
        fx_ok(ray.orig.x + off.x),
        fx_ok(ray.orig.y + off.y),
        fx_ok(ray.orig.z + off.z),
        match spec_hit(inner, ray, tmin, tmax) {
            Some(rec0) => rec_ok(rec0) && rec0.front_face && spec_dot(ray.dir, rec0.normal) < 0
                && fx_ok(rec0.p.x + off.x) && fx_ok(rec0.p.y + off.y) && fx_ok(rec0.p.z + off.z),
            None => true,
        },
    ensures
        spec_hit(
            Hittable::Translate(
                Translate {
                    inner: Box::new(
                        Hittable::Translate(Translate { inner: Box::new(inner), offset: off }),
                    ),
                    offset: spec_v_neg(off),
                },
            ),
            ray,
            tmin,
            tmax,
        ) == spec_hit(inner, ray, tmin, tmax),
{
    let mid_t = Translate { inner: Box::new(inner), offset: off };
    let outer_t = Translate { inner: Box::new(Hittable::Translate(mid_t)), offset: spec_v_neg(off) };
    let outer_moved = Ray { orig: spec_v_sub(ray.orig, spec_v_neg(off)), dir: ray.dir, tm: ray.tm };
    assert(spec_v_sub(outer_moved.orig, off) == ray.orig) by {
        assert(outer_moved.orig == spec_v_add(ray.orig, off));
        lemma_translate_roundtrip(ray.orig, off);
    }
    match spec_hit(inner, ray, tmin, tmax) {
        Some(rec0) => {
            lemma_translate_front_hit(mid_t, outer_moved, tmin, tmax, rec0);
            let rec1 = HitRecord {
                p: spec_v_add(rec0.p, off),
                normal: rec0.normal,
                t: rec0.t,
                u: rec0.u,
                v: rec0.v,
                front_face: true,
                material: rec0.material,
            };
            lemma_translate_front_hit(outer_t, ray, tmin, tmax, rec1);
            assert(spec_v_add(rec1.p, spec_v_neg(off)) == rec0.p) by {
                lemma_translate_roundtrip(rec0.p, off);
            }
        },
        None => {
            lemma_translate_miss(mid_t, outer_moved, tmin, tmax);
            lemma_translate_miss(outer_t, ray, tmin, tmax);
        },
    }
}

/// Law: wrapping geometry in a zero-offset translation leaves its hits
/// unchanged, for front-face hits (a back-face hit is re-oriented by the
/// wrapper, as the wrapped query derives the face from the stored normal).
pub proof fn lemma_translate_zero_identity(inner: Hittable, ray: Ray, tmin: int, tmax: int)
    requires
        ray_ok(ray),
        match spec_hit(inner, ray, tmin, tmax) {
            Some(rec0) => rec_ok(rec0) && rec0.front_face && spec_dot(ray.dir, rec0.normal) < 0,
            None => true,
        },
    ensures
        spec_hit(
            Hittable::Translate(
                Translate {
                    inner: Box::new(inner),
                    offset: Vec3 { x: 0i64, y: 0i64, z: 0i64 },
                },
            ),
            ray,
            tmin,
            tmax,
        ) == spec_hit(inner, ray, tmin, tmax),
{
    let zero = Vec3 { x: 0i64, y: 0i64, z: 0i64 };
    let moved = Ray { orig: spec_v_sub(ray.orig, zero), dir: ray.dir, tm: ray.tm };
    assert(moved == ray);
    match spec_hit(inner, ray, tmin, tmax) {
        Some(rec0) => {
            assert(spec_v_add(rec0.p, zero) == rec0.p);
        },
        None => {},
    }
}

} // verus!
