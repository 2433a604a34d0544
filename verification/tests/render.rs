use ray_tracing_weekend::constant_medium::medium_scatter;
use ray_tracing_weekend::fixed::{ONE, SAT};
use ray_tracing_weekend::rng::rng_from_seed;
use ray_tracing_weekend::{
    combine_images, ray_color, render, to_rgb_bytes, CheckerTexture, ConstantMedium, DiffuseLight,
    HitRecord, Hittable, HittableList, Isotropic, Lambertian, Material, Metal, NoiseTexture,
    Perlin, Ray, SolidColor, Sphere, Texture, Vec3, XzRect, T_EPS,
};

fn v(x: i64, y: i64, z: i64) -> Vec3 {
    Vec3::new(x, y, z)
}

#[test]
fn ray_color_depth_zero_is_black() {
    let mut rng = rng_from_seed(1);
    let world = Hittable::Sphere(Sphere::new(v(0, 0, 0), ONE, Some(0)));
    let lights = Hittable::Empty;
    let mats = vec![Material::Lambertian(Lambertian::new_with_color(v(ONE / 2, ONE / 2, ONE / 2)))];
    let bg = v(ONE / 4, ONE / 4, ONE / 4);
    let ray = Ray::new(v(0, 0, -5 * ONE), v(0, 0, ONE), 0);
    let c = ray_color(&ray, &bg, &world, &lights, &mats, 0, &mut rng);
    assert_eq!(c, v(0, 0, 0));
}

#[test]
fn ray_color_miss_returns_background() {
    let mut rng = rng_from_seed(2);
    let world = Hittable::Sphere(Sphere::new(v(0, 0, 0), ONE, Some(0)));
    let lights = Hittable::Empty;
    let mats = vec![Material::Lambertian(Lambertian::new_with_color(v(ONE / 2, ONE / 2, ONE / 2)))];
    let bg = v(ONE / 4, ONE / 3, ONE / 2);
    let ray = Ray::new(v(0, 5 * ONE, -5 * ONE), v(0, 0, ONE), 0);
    let c = ray_color(&ray, &bg, &world, &lights, &mats, 10, &mut rng);
    assert_eq!(c, bg);
}

#[test]
fn lambertian_sphere_never_amplifies_background() {
    // A single diffuse sphere lit only by the background, one sample and
    // depth one: every pixel must lie inside [0, background] per channel.
    let mut rng = rng_from_seed(99);
    let world = Hittable::Sphere(Sphere::new(v(0, 0, 0), 2 * ONE, Some(0)));
    let lights = Hittable::Empty;
    let mats = vec![Material::Lambertian(Lambertian::new_with_color(v(
        ONE / 2,
        ONE / 2,
        ONE / 2,
    )))];
    let bg = v(45875, 52428, 65536); // the gradient-sky blue tone
    let mut rays = Vec::new();
    for i in -4i64..4 {
        for j in -4i64..4 {
            rays.push(Ray::new(
                v(0, 0, -8 * ONE),
                v(i * ONE / 4, j * ONE / 4, ONE),
                0,
            ));
        }
    }
    let image = render(&world, &lights, &mats, &bg, &rays, 1, 1, &mut rng);
    assert_eq!(image.len(), 64);
    for px in &image {
        assert!(0 <= px.x() && px.x() <= bg.x());
        assert!(0 <= px.y() && px.y() <= bg.y());
        assert!(0 <= px.z() && px.z() <= bg.z());
    }
}

#[test]
fn diffuse_light_emits_on_front_face_only() {
    let mut rng = rng_from_seed(3);
    let mats = vec![Material::DiffuseLight(DiffuseLight::new_with_color(v(
        4 * ONE,
        4 * ONE,
        4 * ONE,
    )))];
    let world = Hittable::XzRect(XzRect::new(-ONE, ONE, -ONE, ONE, 0, 0));
    let lights = Hittable::Empty;
    let bg = v(0, 0, 0);
    // From above, the rectangle's +y normal faces the ray: front face.
    let from_above = Ray::new(v(0, 5 * ONE, 0), v(0, -ONE, 0), 0);
    let lit = ray_color(&from_above, &bg, &world, &lights, &mats, 5, &mut rng);
    assert_eq!(lit, v(4 * ONE, 4 * ONE, 4 * ONE));
    // From below it is a back face: black.
    let from_below = Ray::new(v(0, -5 * ONE, 0), v(0, ONE, 0), 0);
    let dark = ray_color(&from_below, &bg, &world, &lights, &mats, 5, &mut rng);
    assert_eq!(dark, v(0, 0, 0));
}

#[test]
fn metal_mirror_reflection_without_fuzz() {
    let mut rng = rng_from_seed(4);
    let metal = Material::Metal(Metal::new(v(ONE, ONE, ONE), 0));
    let rec = HitRecord {
        p: v(0, 0, 0),
        normal: v(0, ONE, 0),
        t: ONE,
        u: 0,
        v: 0,
        front_face: true,
        material: Some(0),
    };
    let ray_in = Ray::new(v(-ONE, ONE, 0), v(ONE, -ONE, 0), 0);
    let srec = metal
        .scatter(&mut rng, &ray_in, &rec)
        .expect("metal reflects");
    let scattered = srec.specular_ray.expect("specular");
    let expected = ray_in.direction().unit_vector().reflect(&rec.normal);
    assert_eq!(scattered.direction(), expected);
    assert_eq!(srec.attenuation, v(ONE, ONE, ONE));
}

#[test]
fn dielectric_total_internal_reflection_is_deterministic() {
    let mut rng = rng_from_seed(5);
    // A grazing ray from inside glass: sin(theta) * ratio > 1 forces
    // reflection regardless of the random draw.
    let glass = Material::Dielectric(ray_tracing_weekend::Dielectric::new(98304)); // 1.5
    let rec = HitRecord {
        p: v(0, 0, 0),
        normal: v(0, ONE, 0),
        t: ONE,
        u: 0,
        v: 0,
        front_face: false,
        material: Some(0),
    };
    let ray_in = Ray::new(v(-ONE, ONE / 8, 0), v(ONE, -ONE / 8, 0), 0);
    for _ in 0..20 {
        let srec = glass
            .scatter(&mut rng, &ray_in, &rec)
            .expect("dielectric always scatters");
        let dir = srec.specular_ray.expect("specular").direction();
        let unit = ray_in.direction().unit_vector();
        assert_eq!(dir, unit.reflect(&rec.normal));
        assert_eq!(srec.attenuation, v(ONE, ONE, ONE));
    }
}

#[test]
fn isotropic_hands_back_sphere_density() {
    let mut rng = rng_from_seed(6);
    let iso = Material::Isotropic(Isotropic::new_with_color(v(ONE / 2, ONE / 2, ONE / 2)));
    let rec = HitRecord {
        p: v(0, 0, 0),
        normal: v(ONE, 0, 0),
        t: ONE,
        u: 0,
        v: 0,
        front_face: true,
        material: Some(0),
    };
    let ray_in = Ray::new(v(-ONE, 0, 0), v(ONE, 0, 0), 0);
    let srec = iso.scatter(&mut rng, &ray_in, &rec).expect("scatters");
    assert!(srec.specular_ray.is_none());
    assert!(srec.pdf.is_some());
    let spdf = iso.scattering_pdf(&ray_in, &rec, &ray_in);
    // 1 / (4 pi) in fixed point.
    assert_eq!(spdf, 5215);
}

#[test]
fn medium_scatter_formulas() {
    let ray = Ray::new(v(0, 0, -5 * ONE), v(0, 0, ONE), 0);
    // Zero negated inverse density: the infinite-density limit scatters
    // exactly at the clamped entry.
    let rec = medium_scatter(0, 3, &ray, 2 * ONE, 4 * ONE, T_EPS, SAT, -ONE)
        .expect("must scatter at entry");
    assert_eq!(rec.t, 2 * ONE);
    assert_eq!(rec.material, Some(3));
    assert!(rec.front_face);
    // A hugely negative inverse density (vanishing density): passes through.
    assert!(medium_scatter(-SAT, 3, &ray, 2 * ONE, 4 * ONE, T_EPS, SAT, -ONE).is_none());
    // Entry after exit: no traversal, no scatter.
    assert!(medium_scatter(0, 3, &ray, 4 * ONE, 2 * ONE, T_EPS, SAT, -ONE).is_none());
}

#[test]
fn constant_medium_limits_through_geometry() {
    // density -> infinity: scatter exactly at the boundary entry.
    let boundary = || Box::new(Hittable::Sphere(Sphere::new(v(0, 0, 0), 2 * ONE, Some(0))));
    let ray = Ray::new(v(0, 0, -5 * ONE), v(0, 0, ONE), 0);
    let dense = Hittable::Medium(ConstantMedium::new(boundary(), SAT, 1));
    let mut rng = rng_from_seed(8);
    for _ in 0..10 {
        let rec = dense.hit(&mut rng, &ray, T_EPS, SAT).expect("dense medium scatters");
        assert_eq!(rec.t, 3 * ONE);
        assert_eq!(rec.material, Some(1));
    }
    // density -> 0: never scatters; the ray passes through unchanged.
    let thin = Hittable::Medium(ConstantMedium::new(boundary(), 1, 1));
    for _ in 0..50 {
        assert!(thin.hit(&mut rng, &ray, T_EPS, SAT).is_none());
    }
}

#[test]
fn checker_texture_picks_by_sine_sign() {
    let red = v(ONE, 0, 0);
    let green = v(0, ONE, 0);
    let checker = Texture::Checker(CheckerTexture::new_with_color(red, green));
    // sin(10 * 0.05) = sin(0.5) > 0 on all axes: the even color.
    let p_even = v(3277, 3277, 3277);
    assert_eq!(checker.value(0, 0, &p_even), red);
    // Flip one axis: one negative sine makes the product negative: odd.
    let p_odd = v(-3277, 3277, 3277);
    assert_eq!(checker.value(0, 0, &p_odd), green);
}

#[test]
fn solid_and_noise_textures() {
    let c = v(ONE / 4, ONE / 2, ONE);
    assert_eq!(Texture::Solid(SolidColor::from_color(c)).value(0, 0, &v(0, 0, 0)), c);
    let mut rng = rng_from_seed(10);
    let noise = Texture::Noise(NoiseTexture::new(&mut rng, 4 * ONE));
    let p = v(ONE / 2, ONE / 3, ONE / 5);
    let a = noise.value(0, 0, &p);
    let b = noise.value(0, 0, &p);
    assert_eq!(a, b);
    // A grey value: all channels equal and within [0, ONE].
    assert_eq!(a.x(), a.y());
    assert_eq!(a.y(), a.z());
    assert!(0 <= a.x() && a.x() <= ONE);
}

#[test]
fn perlin_turbulence_is_nonnegative_and_deterministic() {
    let mut rng = rng_from_seed(12);
    let perlin = Perlin::new(&mut rng);
    let p = v(3 * ONE / 2, -ONE / 3, 7 * ONE / 4);
    let t1 = perlin.turb(&p, 7);
    let t2 = perlin.turb(&p, 7);
    assert_eq!(t1, t2);
    assert!(t1 >= 0);
    let n = perlin.noise(&p);
    assert_eq!(n, perlin.noise(&p));
}

#[test]
fn image_texture_lookup() {
    // A 2x1 image: left pixel pure red, right pixel pure blue.
    let data = vec![255, 0, 0, 0, 0, 255];
    let img = Texture::Image(ray_tracing_weekend::ImageTexture::new(data, 2, 1));
    let left = img.value(0, ONE / 2, &v(0, 0, 0));
    let right = img.value(ONE, ONE / 2, &v(0, 0, 0));
    assert_eq!(left, v(ONE, 0, 0));
    assert_eq!(right, v(0, 0, ONE));
}

#[test]
fn block_box_hit_faces() {
    let bb = ray_tracing_weekend::BlockBox::new(v(-ONE, -ONE, -ONE), v(ONE, ONE, ONE), 2);
    let world = Hittable::BlockBox(bb);
    let ray = Ray::new(v(0, 0, -5 * ONE), v(0, 0, ONE), 0);
    let mut rng = rng_from_seed(13);
    let rec = world.hit(&mut rng, &ray, T_EPS, SAT).expect("hits the box");
    assert_eq!(rec.t, 4 * ONE);
    assert_eq!(rec.p, v(0, 0, -ONE));
    assert_eq!(rec.material, Some(2));
}

#[test]
fn combine_and_tonemap() {
    let a = vec![v(ONE / 4, 0, ONE), v(0, 0, 0)];
    let b = vec![v(ONE / 4, ONE, 0), v(ONE, ONE, ONE)];
    let sum = combine_images(&a, &b);
    assert_eq!(sum[0], v(ONE / 2, ONE, ONE));
    assert_eq!(sum[1], v(ONE, ONE, ONE));
    // One sample: 0.25 -> sqrt -> 0.5 -> byte 127; 1.0 -> 255; 0 -> 0.
    let bytes = to_rgb_bytes(&vec![v(ONE / 4, ONE, 0)], 1);
    assert_eq!(bytes, vec![127, 255, 0]);
    // Averaging two samples of double brightness gives the same bytes.
    let bytes2 = to_rgb_bytes(&vec![v(ONE / 2, 2 * ONE, 0)], 2);
    assert_eq!(bytes2, vec![127, 255, 0]);
}

#[test]
fn render_accumulates_per_pixel() {
    let mut rng = rng_from_seed(14);
    let world = Hittable::Empty;
    let lights = Hittable::Empty;
    let mats: Vec<Material> = Vec::new();
    let bg = v(ONE / 2, ONE / 4, ONE / 8);
    let rays = vec![
        Ray::new(v(0, 0, 0), v(0, 0, ONE), 0),
        Ray::new(v(0, 0, 0), v(0, 0, ONE), 0),
        Ray::new(v(0, 0, 0), v(0, ONE, 0), 0),
        Ray::new(v(0, 0, 0), v(ONE, 0, 0), 0),
    ];
    let image = render(&world, &lights, &mats, &bg, &rays, 2, 3, &mut rng);
    // Two pixels, each the sum of two background samples.
    assert_eq!(image.len(), 2);
    assert_eq!(image[0], v(ONE, ONE / 2, ONE / 4));
    assert_eq!(image[1], v(ONE, ONE / 2, ONE / 4));
}

#[test]
fn empty_material_never_scatters() {
    let mut rng = rng_from_seed(15);
    let empty = Material::Empty(ray_tracing_weekend::EmptyMaterial);
    let rec = HitRecord {
        p: v(0, 0, 0),
        normal: v(0, ONE, 0),
        t: ONE,
        u: 0,
        v: 0,
        front_face: true,
        material: Some(0),
    };
    let ray_in = Ray::new(v(0, ONE, 0), v(0, -ONE, 0), 0);
    assert!(empty.scatter(&mut rng, &ray_in, &rec).is_none());
}

#[test]
fn cornell_style_scene_renders_nonnegative() {
    // A small closed scene with a light: colors stay finite and the light
    // pixel is bright.
    let mut rng = rng_from_seed(16);
    let mut mats = Vec::new();
    mats.push(Material::Lambertian(Lambertian::new_with_color(v(
        47841, 47841, 47841,
    ))));
    mats.push(Material::DiffuseLight(DiffuseLight::new_with_color(v(
        15 * ONE,
        15 * ONE,
        15 * ONE,
    ))));
    let mut list = HittableList::new();
    list.add(Hittable::XzRect(XzRect::new(
        -5 * ONE,
        5 * ONE,
        -5 * ONE,
        5 * ONE,
        0,
        0,
    )));
    list.add(Hittable::XzRect(XzRect::new(
        -ONE,
        ONE,
        -ONE,
        ONE,
        8 * ONE,
        1,
    )));
    let world = Hittable::List(list);
    let lights = Hittable::XzRect(XzRect::new(-ONE, ONE, -ONE, ONE, 8 * ONE, 1));
    let bg = v(0, 0, 0);
    // Looking down onto the light's emitting face.
    let down = Ray::new(v(0, 12 * ONE, 0), v(0, -ONE, 0), 0);
    let lit = ray_color(&down, &bg, &world, &lights, &mats, 4, &mut rng);
    assert_eq!(lit, v(15 * ONE, 15 * ONE, 15 * ONE));
}

#[test]
fn ray_color_emitter_and_absorber_terminate_with_emission() {
    // A light hit from its emitting side at any depth returns the emitted
    // radiance; an empty-material hit returns black; an out-of-range or
    // missing material handle returns black.
    let mut rng = rng_from_seed(30);
    let bg = v(ONE / 8, ONE / 8, ONE / 8);
    let light_world = Hittable::XzRect(XzRect::new(-ONE, ONE, -ONE, ONE, 0, 0));
    let mats = vec![Material::DiffuseLight(DiffuseLight::new_with_color(v(
        2 * ONE,
        3 * ONE,
        4 * ONE,
    )))];
    let down = Ray::new(v(0, 5 * ONE, 0), v(0, -ONE, 0), 0);
    let c = ray_color(&down, &bg, &light_world, &Hittable::Empty, &mats, 7, &mut rng);
    assert_eq!(c, v(2 * ONE, 3 * ONE, 4 * ONE));

    let empty_world = Hittable::Sphere(Sphere::new(v(0, 0, 0), ONE, Some(0)));
    let empties = vec![Material::Empty(ray_tracing_weekend::EmptyMaterial)];
    let at_sphere = Ray::new(v(0, 0, -5 * ONE), v(0, 0, ONE), 0);
    let c = ray_color(&at_sphere, &bg, &empty_world, &Hittable::Empty, &empties, 7, &mut rng);
    assert_eq!(c, v(0, 0, 0));

    let no_mat_world = Hittable::Sphere(Sphere::new(v(0, 0, 0), ONE, None));
    let c = ray_color(&at_sphere, &bg, &no_mat_world, &Hittable::Empty, &empties, 7, &mut rng);
    assert_eq!(c, v(0, 0, 0));

    let bad_id_world = Hittable::Sphere(Sphere::new(v(0, 0, 0), ONE, Some(9)));
    let c = ray_color(&at_sphere, &bg, &bad_id_world, &Hittable::Empty, &empties, 7, &mut rng);
    assert_eq!(c, v(0, 0, 0));
}

#[test]
fn ray_color_depth_one_diffuse_is_black() {
    let mut rng = rng_from_seed(31);
    let world = Hittable::Sphere(Sphere::new(v(0, 0, 0), 2 * ONE, Some(0)));
    let mats = vec![Material::Lambertian(Lambertian::new_with_color(v(
        ONE / 2,
        ONE / 2,
        ONE / 2,
    )))];
    let bg = v(ONE, ONE, ONE);
    let ray = Ray::new(v(0, 0, -5 * ONE), v(0, 0, ONE), 0);
    let c = ray_color(&ray, &bg, &world, &Hittable::Empty, &mats, 1, &mut rng);
    assert_eq!(c, v(0, 0, 0));
}
