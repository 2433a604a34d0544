//! Textures: a color as a function of surface coordinates and position.
use vstd::prelude::*;

verus! {

use crate::fixed::{
    fx_ok, spec_add, spec_sub, spec_mul, spec_div, spec_min, spec_clamp, spec_sin, div_floor,
    div_floor_i128, lemma_div_floor_pos, fadd, fsub, fmul, fdiv, fsin, fclamp, ONE,
};
use crate::vec3::{Vec3, vec_ok};
use crate::perlin::{Perlin, perlin_ok, spec_turb};

#[derive(Clone, PartialEq, Eq, Debug)]
pub struct SolidColor {
    pub color: Vec3,
}

#[derive(PartialEq, Eq, Debug)]
pub struct CheckerTexture {
    pub odd: Box<Texture>,
    pub even: Box<Texture>,
}

#[derive(Clone, PartialEq, Eq, Debug)]
pub struct NoiseTexture {
    pub noise: Perlin,
    pub scale: i64,
}

/// Decoded image data: tightly packed rows of RGB bytes.
#[derive(Clone, PartialEq, Eq, Debug)]
pub struct ImageTexture {
    pub data: Vec<u8>,
    pub width: usize,
    pub height: usize,
}

#[derive(PartialEq, Eq, Debug)]
pub enum Texture {
    Solid(SolidColor),
    Checker(CheckerTexture),
    Noise(NoiseTexture),
    Image(ImageTexture),
}

pub open spec fn image_ok(img: ImageTexture) -> bool {
    img.data@.len() == 3 * img.width * img.height && img.width <= 65536 && img.height <= 65536
}

pub open spec fn texture_ok(t: Texture) -> bool
    decreases t,
{
    match t {
        Texture::Solid(s) => vec_ok(s.color),
        Texture::Checker(c) => texture_ok(*c.odd) && texture_ok(*c.even),
        Texture::Noise(n) => perlin_ok(n.noise) && fx_ok(n.scale as int),
        Texture::Image(img) => image_ok(img),
    }
}

/// Which pixel column a clamped coordinate falls in.
pub open spec fn spec_pixel_index(c: int, extent: int) -> int {
    spec_min(div_floor(c * extent, ONE as int), extent - 1)
}

/// The color an image texture looks up: nearest pixel, scaled to [0, ONE].
pub open spec fn spec_image_value(img: ImageTexture, u: int, v: int) -> Vec3 {
    if img.data@.len() == 0 {
        Vec3 { x: 0i64, y: ONE, z: ONE }
    } else {
        let uc = spec_clamp(u, 0, ONE as int);
        let vc = (ONE as int) - spec_clamp(v, 0, ONE as int);
        let i = spec_pixel_index(uc, img.width as int);
        let j = spec_pixel_index(vc, img.height as int);
        let base = 3 * (j * img.width + i);
        Vec3 {
            x: spec_div(img.data@[base] as int, 255) as i64,
            y: spec_div(img.data@[base + 1] as int, 255) as i64,
            z: spec_div(img.data@[base + 2] as int, 255) as i64,
        }
    }
}

/// What a texture evaluates to at (u, v, p).
pub open spec fn spec_texture_value(t: Texture, u: int, v: int, p: Vec3) -> Vec3
    decreases t,
{
    match t {
        Texture::Solid(s) => s.color,
        Texture::Checker(c) => {
            let sines = spec_mul(
                spec_mul(
                    spec_sin(spec_mul(10 * ONE, p.x as int)),
                    spec_sin(spec_mul(10 * ONE, p.y as int)),
                ),
                spec_sin(spec_mul(10 * ONE, p.z as int)),
            );
            if sines < 0 {
                spec_texture_value(*c.odd, u, v, p)
            } else {
                spec_texture_value(*c.even, u, v, p)
            }
        },
        Texture::Noise(n) => {
            let s = spec_sin(
                spec_add(
                    spec_mul(n.scale as int, p.z as int),
                    spec_mul(10 * ONE, spec_turb(n.noise, p, 7)),
                ),
            );
            let val = spec_mul(32768, spec_add(ONE as int, s)) as i64;
            Vec3 { x: val, y: val, z: val }
        },
        Texture::Image(img) => spec_image_value(img, u, v),
    }
}

impl SolidColor {
    pub fn new(red: i64, green: i64, blue: i64) -> (r: SolidColor)
        requires
            fx_ok(red as int),
            fx_ok(green as int),
            fx_ok(blue as int),
        ensures
            r == (SolidColor { color: Vec3 { x: red, y: green, z: blue } }),
    {
        SolidColor { color: Vec3::new(red, green, blue) }
    }

    pub fn from_color(color: Vec3) -> (r: SolidColor)
        ensures
            r == (SolidColor { color }),
    {
        SolidColor { color }
    }
}

impl CheckerTexture {
    pub fn new(even: Box<Texture>, odd: Box<Texture>) -> (r: CheckerTexture)
        ensures
            r == (CheckerTexture { odd, even }),
    {
        CheckerTexture { odd, even }
    }

    pub fn new_with_color(c1: Vec3, c2: Vec3) -> (r: CheckerTexture)
        ensures
            r == (CheckerTexture {
                odd: Box::new(Texture::Solid(SolidColor { color: c2 })),
                even: Box::new(Texture::Solid(SolidColor { color: c1 })),
            }),
    {
        CheckerTexture {
            even: Box::new(Texture::Solid(SolidColor { color: c1 })),
            odd: Box::new(Texture::Solid(SolidColor { color: c2 })),
        }
    }
}

impl NoiseTexture {
    pub fn new(rng: &mut rand::rngs::StdRng, scale: i64) -> (r: NoiseTexture)
        requires
            fx_ok(scale as int),
        ensures
            r.scale == scale,
            perlin_ok(r.noise),
    {
        NoiseTexture { noise: Perlin::new(rng), scale }
    }
}

impl ImageTexture {
    /// Wrap a decoded RGB byte buffer; its length must match the dimensions.
    pub fn new(data: Vec<u8>, width: u32, height: u32) -> (r: ImageTexture)
        requires
            data@.len() == 3 * width * height,
            width <= 65536,
            height <= 65536,
        ensures
            r == (ImageTexture { data, width: width as usize, height: height as usize }),
            image_ok(r),
    {
        ImageTexture { data, width: width as usize, height: height as usize }
    }
}

/// Nearest-pixel lookup into the image.
fn image_value(img: &ImageTexture, u: i64, v: i64) -> (r: Vec3)
    requires
        image_ok(*img),
        fx_ok(u as int),
        fx_ok(v as int),
    ensures
        r == spec_image_value(*img, u as int, v as int),
        vec_ok(r),
{
    if img.data.len() == 0 {
        return Vec3::new(0, ONE, ONE);
    }
    let uc = fclamp(u, 0, ONE);
    let vc = ONE - fclamp(v, 0, ONE);
    proof {
        assert(img.width >= 1 && img.height >= 1) by (nonlinear_arith)
            requires
                img.data@.len() == 3 * img.width * img.height,
                img.data@.len() > 0,
        ;
    }
    let i = pixel_index(uc, img.width);
    let j = pixel_index(vc, img.height);
    proof {
        assert(3 * ((j as int) * img.width + i) + 2 < 3 * img.width * img.height)
            by (nonlinear_arith)
            requires
                0 <= i < img.width,
                0 <= j < img.height,
        ;
        assert((j as int) * img.width + i >= 0) by (nonlinear_arith)
            requires
                i >= 0,
                j >= 0,
                img.width >= 0,
        ;
    }
    let base = 3 * (j * img.width + i);
    let px = img.data[base];
    let py = img.data[base + 1];
    let pz = img.data[base + 2];
    Vec3::new(fdiv(px as i64, 255), fdiv(py as i64, 255), fdiv(pz as i64, 255))
}

/// The pixel slot of a clamped coordinate, capped at the last pixel.
fn pixel_index(c: i64, extent: usize) -> (r: usize)
    requires
        0 <= c <= ONE,
        1 <= extent <= 65536,
    ensures
        r == spec_pixel_index(c as int, extent as int),
        r < extent,
{
    proof {
        lemma_div_floor_pos(c * extent, ONE as int);
        assert(0 <= c * extent <= 65536 * 65536int) by (nonlinear_arith)
            requires
                0 <= c <= 65536int,
                0 <= extent <= 65536int,
        ;
        vstd::arithmetic::div_mod::lemma_basic_div(0int, ONE as int);
        vstd::arithmetic::div_mod::lemma_div_is_ordered(0, c * extent, ONE as int);
    }
    let q = div_floor_i128((c as i128) * (extent as i128), 65536);
    let qi = q as usize;
    if qi < extent - 1 {
        qi
    } else {
        extent - 1
    }
}

impl Texture {
    /// Evaluate the texture at surface coordinates (u, v) and position p.
    pub fn value(&self, u: i64, v: i64, p: &Vec3) -> (r: Vec3)
        requires
            texture_ok(*self),
            fx_ok(u as int),
            fx_ok(v as int),
            vec_ok(*p),
        ensures
            r == spec_texture_value(*self, u as int, v as int, *p),
            vec_ok(r),
        decreases *self,
    {
        match self {
            Texture::Solid(s) => s.color,
            Texture::Checker(c) => {
                let sines = fmul(
                    fmul(fsin(fmul(10 * ONE, p.x)), fsin(fmul(10 * ONE, p.y))),
                    fsin(fmul(10 * ONE, p.z)),
                );
                if sines < 0 {
                    c.odd.value(u, v, p)
                } else {
                    c.even.value(u, v, p)
                }
            },
            Texture::Noise(n) => {
                let s = fsin(fadd(fmul(n.scale, p.z), fmul(10 * ONE, n.noise.turb(p, 7))));
                let val = fmul(32768, fadd(ONE, s));
                Vec3::new(val, val, val)
            },
            Texture::Image(img) => image_value(img, u, v),
        }
    }
}

} // verus!
