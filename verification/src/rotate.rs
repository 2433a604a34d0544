//! Decorators that rotate their inner hittable about a coordinate axis.
//! The angle's sine and cosine are fixed at construction; queries rotate the
//! ray into object space and rotate results back.
use vstd::prelude::*;

verus! {

use crate::fixed::{
    fx_ok, spec_sin, spec_cos, spec_mul, spec_div, fsin, fcos, fmul, fdiv, ONE, PI,
};
use crate::vec3::{Vec3, vec_ok, spec_rot_x, spec_rot_y, spec_rot_z};
use crate::aabb::{AABB, aabb_ok, spec_surround};
use crate::hittable::{Hittable, spec_bounding_box, hittable_ok};

#[derive(PartialEq, Eq, Debug)]
pub struct RotateX {
    pub sin_t: i64,
    pub cos_t: i64,
    pub hasbox: bool,
    pub inner: Box<Hittable>,
    pub bbox: AABB,
}

#[derive(PartialEq, Eq, Debug)]
pub struct RotateY {
    pub sin_t: i64,
    pub cos_t: i64,
    pub hasbox: bool,
    pub inner: Box<Hittable>,
    pub bbox: AABB,
}

#[derive(PartialEq, Eq, Debug)]
pub struct RotateZ {
    pub sin_t: i64,
    pub cos_t: i64,
    pub hasbox: bool,
    pub inner: Box<Hittable>,
    pub bbox: AABB,
}

/// Rotation about the axis picked by index: 0 is x, 1 is y, anything else z.
pub open spec fn spec_rot_axis(axis: int, v: Vec3, c: int, s: int) -> Vec3 {
    if axis == 0 {
        spec_rot_x(v, c, s)
    } else if axis == 1 {
        spec_rot_y(v, c, s)
    } else {
        spec_rot_z(v, c, s)
    }
}

/// The box of the rotated child: all eight corners rotated, then united,
/// in the corner order minimum-first per axis.
pub open spec fn spec_rotated_box(axis: int, b: AABB, c: int, s: int) -> AABB {
    let c0 = spec_rot_axis(axis, Vec3 { x: b.minimum.x, y: b.minimum.y, z: b.minimum.z }, c, s);
    let c1 = spec_rot_axis(axis, Vec3 { x: b.minimum.x, y: b.minimum.y, z: b.maximum.z }, c, s);
    let c2 = spec_rot_axis(axis, Vec3 { x: b.minimum.x, y: b.maximum.y, z: b.minimum.z }, c, s);
    let c3 = spec_rot_axis(axis, Vec3 { x: b.minimum.x, y: b.maximum.y, z: b.maximum.z }, c, s);
    let c4 = spec_rot_axis(axis, Vec3 { x: b.maximum.x, y: b.minimum.y, z: b.minimum.z }, c, s);
    let c5 = spec_rot_axis(axis, Vec3 { x: b.maximum.x, y: b.minimum.y, z: b.maximum.z }, c, s);
    let c6 = spec_rot_axis(axis, Vec3 { x: b.maximum.x, y: b.maximum.y, z: b.minimum.z }, c, s);
    let c7 = spec_rot_axis(axis, Vec3 { x: b.maximum.x, y: b.maximum.y, z: b.maximum.z }, c, s);
    let acc1 = spec_surround(AABB { minimum: c0, maximum: c0 }, AABB { minimum: c1, maximum: c1 });
    let acc2 = spec_surround(acc1, AABB { minimum: c2, maximum: c2 });
    let acc3 = spec_surround(acc2, AABB { minimum: c3, maximum: c3 });
    let acc4 = spec_surround(acc3, AABB { minimum: c4, maximum: c4 });
    let acc5 = spec_surround(acc4, AABB { minimum: c5, maximum: c5 });
    let acc6 = spec_surround(acc5, AABB { minimum: c6, maximum: c6 });
    spec_surround(acc6, AABB { minimum: c7, maximum: c7 })
}

fn rot_axis(axis: u8, v: &Vec3, c: i64, s: i64) -> (r: Vec3)
    requires
        vec_ok(*v),
        fx_ok(c as int),
        fx_ok(s as int),
    ensures
        r == spec_rot_axis(axis as int, *v, c as int, s as int),
        vec_ok(r),
{
    if axis == 0 {
        v.rotate_x_cs(c, s)
    } else if axis == 1 {
        v.rotate_y_cs(c, s)
    } else {
        v.rotate_z_cs(c, s)
    }
}

/// Exec twin of `spec_rotated_box`.
fn rotated_box(b: &AABB, axis: u8, c: i64, s: i64) -> (r: AABB)
    requires
        aabb_ok(*b),
        fx_ok(c as int),
        fx_ok(s as int),
    ensures
        r == spec_rotated_box(axis as int, *b, c as int, s as int),
        aabb_ok(r),
{
    let c0 = rot_axis(axis, &Vec3::new(b.minimum.x, b.minimum.y, b.minimum.z), c, s);
    let c1 = rot_axis(axis, &Vec3::new(b.minimum.x, b.minimum.y, b.maximum.z), c, s);
    let c2 = rot_axis(axis, &Vec3::new(b.minimum.x, b.maximum.y, b.minimum.z), c, s);
    let c3 = rot_axis(axis, &Vec3::new(b.minimum.x, b.maximum.y, b.maximum.z), c, s);
    let c4 = rot_axis(axis, &Vec3::new(b.maximum.x, b.minimum.y, b.minimum.z), c, s);
    let c5 = rot_axis(axis, &Vec3::new(b.maximum.x, b.minimum.y, b.maximum.z), c, s);
    let c6 = rot_axis(axis, &Vec3::new(b.maximum.x, b.maximum.y, b.minimum.z), c, s);
    let c7 = rot_axis(axis, &Vec3::new(b.maximum.x, b.maximum.y, b.maximum.z), c, s);
    let mut acc = AABB::surrounding_box(AABB::new(c0, c0), AABB::new(c1, c1));
    acc = AABB::surrounding_box(acc, AABB::new(c2, c2));
    acc = AABB::surrounding_box(acc, AABB::new(c3, c3));
    acc = AABB::surrounding_box(acc, AABB::new(c4, c4));
    acc = AABB::surrounding_box(acc, AABB::new(c5, c5));
    acc = AABB::surrounding_box(acc, AABB::new(c6, c6));
    AABB::surrounding_box(acc, AABB::new(c7, c7))
}

/// The angle in radians of a rotation given in degrees.
pub open spec fn spec_radians(angle: int) -> int {
    spec_div(spec_mul(angle, PI as int), 180 * ONE)
}

fn radians(angle: i64) -> (r: i64)
    requires
        fx_ok(angle as int),
    ensures
        r == spec_radians(angle as int),
        fx_ok(r as int),
{
    fdiv(fmul(angle, PI), 180 * ONE)
}

impl RotateX {
    pub fn new(p: Box<Hittable>, angle: i64) -> (r: RotateX)
        requires
            hittable_ok(*p),
            fx_ok(angle as int),
        ensures
            r.inner == p,
            r.sin_t == spec_sin(spec_radians(angle as int)),
            r.cos_t == spec_cos(spec_radians(angle as int)),
            r.hasbox == spec_bounding_box(*p, 0, ONE as int) is Some,
            r.bbox == spec_rotated_box(
                0,
                crate::aabb::box_or_zero(spec_bounding_box(*p, 0, ONE as int)),
                r.cos_t as int,
                r.sin_t as int,
            ),
            fx_ok(r.sin_t as int) && fx_ok(r.cos_t as int) && aabb_ok(r.bbox),
    {
        let theta = radians(angle);
        let s = fsin(theta);
        let c = fcos(theta);
        let bb = p.bounding_box(0, ONE);
        let (hasbox, inner_box) = match bb {
            Some(b) => (true, b),
            None => (false, AABB::zero()),
        };
        let bbox = rotated_box(&inner_box, 0, c, s);
        RotateX { sin_t: s, cos_t: c, hasbox, inner: p, bbox }
    }
}

impl RotateY {
    pub fn new(p: Box<Hittable>, angle: i64) -> (r: RotateY)
        requires
            hittable_ok(*p),
            fx_ok(angle as int),
        ensures
            r.inner == p,
            r.sin_t == spec_sin(spec_radians(angle as int)),
            r.cos_t == spec_cos(spec_radians(angle as int)),
            r.hasbox == spec_bounding_box(*p, 0, ONE as int) is Some,
            r.bbox == spec_rotated_box(
                1,
                crate::aabb::box_or_zero(spec_bounding_box(*p, 0, ONE as int)),
                r.cos_t as int,
                r.sin_t as int,
            ),
            fx_ok(r.sin_t as int) && fx_ok(r.cos_t as int) && aabb_ok(r.bbox),
    {
        let theta = radians(angle);
        let s = fsin(theta);
        let c = fcos(theta);
        let bb = p.bounding_box(0, ONE);
        let (hasbox, inner_box) = match bb {
            Some(b) => (true, b),
            None => (false, AABB::zero()),
        };
        let bbox = rotated_box(&inner_box, 1, c, s);
        RotateY { sin_t: s, cos_t: c, hasbox, inner: p, bbox }
    }
}

impl RotateZ {
    pub fn new(p: Box<Hittable>, angle: i64) -> (r: RotateZ)
        requires
            hittable_ok(*p),
            fx_ok(angle as int),
        ensures
            r.inner == p,
            r.sin_t == spec_sin(spec_radians(angle as int)),
            r.cos_t == spec_cos(spec_radians(angle as int)),
            r.hasbox == spec_bounding_box(*p, 0, ONE as int) is Some,
            r.bbox == spec_rotated_box(
                2,
                crate::aabb::box_or_zero(spec_bounding_box(*p, 0, ONE as int)),
                r.cos_t as int,
                r.sin_t as int,
            ),
            fx_ok(r.sin_t as int) && fx_ok(r.cos_t as int) && aabb_ok(r.bbox),
    {
        let theta = radians(angle);
        let s = fsin(theta);
        let c = fcos(theta);
        let bb = p.bounding_box(0, ONE);
        let (hasbox, inner_box) = match bb {
            Some(b) => (true, b),
            None => (false, AABB::zero()),
        };
        let bbox = rotated_box(&inner_box, 2, c, s);
        RotateZ { sin_t: s, cos_t: c, hasbox, inner: p, bbox }
    }
}

} // verus!
