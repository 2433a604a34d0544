use ray_tracing_weekend::fixed::{
    facos, fadd, fatan2, fcos, fdiv, fmul, fsin, fsqrt, fsub, ln_unit, HALF_PI, ONE, PI, SAT,
};
use ray_tracing_weekend::hit_sphere;
use ray_tracing_weekend::rng::{rng_below, rng_from_seed, rng_unit};
use ray_tracing_weekend::{
    BvhNode, CosinePdf, HitRecord, Hittable, HittableList, MixturePdf, MovingSphere, Onb, Pdf,
    Ray, Sphere, SpherePdf, Translate, Vec3, XzRect, AABB, T_EPS,
};

fn v(x: i64, y: i64, z: i64) -> Vec3 {
    Vec3::new(x, y, z)
}

#[test]
fn fixed_mul_div_sqrt_exact() {
    assert_eq!(fmul(2 * ONE, 3 * ONE), 6 * ONE);
    assert_eq!(fmul(-2 * ONE, 3 * ONE), -6 * ONE);
    assert_eq!(fdiv(ONE, 2 * ONE), ONE / 2);
    assert_eq!(fdiv(3 * ONE, -ONE), -3 * ONE);
    assert_eq!(fsqrt(4 * ONE), 2 * ONE);
    assert_eq!(fsqrt(ONE / 4), ONE / 2);
    assert_eq!(fsqrt(-ONE), 0);
    assert_eq!(fadd(SAT, SAT), SAT);
    assert_eq!(fsub(-SAT, SAT), -SAT);
}

#[test]
fn fixed_trig_values() {
    assert_eq!(fsin(0), 0);
    assert!((fsin(HALF_PI) - ONE).abs() <= 16);
    assert!((fcos(0) - ONE).abs() <= 16);
    assert!(fsin(PI).abs() <= 64);
    // sin(pi/6) = 0.5
    assert!((fsin(PI / 6) - ONE / 2).abs() <= 160);
}

#[test]
fn fixed_ln_values() {
    // ln(1/2) = -0.6931...
    let half = ONE / 2;
    assert!((ln_unit(half) + 45426).abs() <= 64);
    // ln of anything below ONE is at most -1.
    assert!(ln_unit(ONE - 1) <= -1);
    assert!(ln_unit(1) <= -11 * ONE);
}

#[test]
fn fixed_atan_acos_values() {
    // atan2(1, 1) = pi/4
    assert!((fatan2(ONE, ONE) - PI / 4).abs() <= 300);
    // acos(0) = pi/2, acos(1) = 0, acos(-1) = pi
    assert!((facos(0) - HALF_PI).abs() <= 300);
    assert!(facos(ONE).abs() <= 300);
    assert!((facos(-ONE) - PI).abs() <= 300);
}

#[test]
fn surrounding_box_commutative_and_idempotent() {
    let a = AABB::new(v(-ONE, 0, 0), v(ONE, 2 * ONE, ONE));
    let b = AABB::new(v(-3 * ONE, -ONE, 0), v(0, ONE, 5 * ONE));
    assert_eq!(AABB::surrounding_box(a, b), AABB::surrounding_box(b, a));
    assert_eq!(AABB::surrounding_box(a, a), a);
    assert_eq!(AABB::surrounding_box(b, b), b);
    let u = AABB::surrounding_box(a, b);
    assert_eq!(u.min(), v(-3 * ONE, -ONE, 0));
    assert_eq!(u.max(), v(ONE, 2 * ONE, 5 * ONE));
}

#[test]
fn aabb_slab_test() {
    let b = AABB::new(v(-ONE, -ONE, -ONE), v(ONE, ONE, ONE));
    let through = Ray::new(v(0, 0, -5 * ONE), v(0, 0, ONE), 0);
    assert!(b.hit(&through, 66, SAT));
    let miss = Ray::new(v(5 * ONE, 0, -5 * ONE), v(0, 0, ONE), 0);
    assert!(!b.hit(&miss, 66, SAT));
}

#[test]
fn vec3_algebra_exact() {
    let a = v(ONE, 2 * ONE, 3 * ONE);
    let b = v(4 * ONE, 5 * ONE, 6 * ONE);
    assert_eq!(a.add(&b), v(5 * ONE, 7 * ONE, 9 * ONE));
    assert_eq!(a.sub(&b), v(-3 * ONE, -3 * ONE, -3 * ONE));
    assert_eq!(a.dot(&b), 32 * ONE);
    assert_eq!(a.cross(&b), v(-3 * ONE, 6 * ONE, -3 * ONE));
    assert_eq!(a.scale(2 * ONE), v(2 * ONE, 4 * ONE, 6 * ONE));
    assert_eq!(v(0, 3 * ONE, 4 * ONE).length(), 5 * ONE);
    let d = v(ONE, -ONE, 0);
    let n = v(0, ONE, 0);
    assert_eq!(d.reflect(&n), v(ONE, ONE, 0));
}

#[test]
fn sphere_hit_exact_axis_ray() {
    let s = Sphere::new(v(0, 0, 0), 2 * ONE, Some(0));
    let ray = Ray::new(v(0, 0, -5 * ONE), v(0, 0, ONE), 0);
    let rec = s.hit(&ray, T_EPS, SAT).expect("front hit");
    assert_eq!(rec.t, 3 * ONE);
    assert_eq!(rec.p, v(0, 0, -2 * ONE));
    assert!(rec.front_face);
    assert_eq!(rec.normal, v(0, 0, -ONE));
    assert_eq!(rec.material, Some(0));
    // The normal is oriented against the ray.
    assert!(ray.direction().dot(&rec.normal) <= 0);
}

#[test]
fn sphere_hit_point_on_surface_within_tolerance() {
    let center = v(ONE, 2 * ONE, -3 * ONE);
    let radius = 3 * ONE / 2;
    let s = Sphere::new(center, radius, Some(0));
    let ray = Ray::new(v(-4 * ONE, ONE, ONE), v(ONE, ONE / 4, -ONE), 0);
    if let Some(rec) = s.hit(&ray, T_EPS, SAT) {
        let dist = rec.p.sub(&center).length();
        assert!(
            (dist - radius).abs() <= ONE / 16,
            "distance {} vs radius {}",
            dist,
            radius
        );
        assert!(ray.direction().dot(&rec.normal) <= 0);
    } else {
        panic!("expected a hit");
    }
}

#[test]
fn hit_sphere_free_function() {
    let t = hit_sphere(&v(0, 0, 0), 2 * ONE, &Ray::new(v(0, 0, -5 * ONE), v(0, 0, ONE), 0));
    assert_eq!(t, Some(3 * ONE));
    let miss = hit_sphere(&v(0, 0, 0), ONE, &Ray::new(v(0, 5 * ONE, -5 * ONE), v(0, 0, ONE), 0));
    assert_eq!(miss, None);
}

#[test]
fn moving_sphere_center_endpoints() {
    let m = MovingSphere::new(v(0, 0, 0), v(4 * ONE, 0, 0), 0, ONE, ONE, 0);
    assert_eq!(m.center(0), v(0, 0, 0));
    assert_eq!(m.center(ONE), v(4 * ONE, 0, 0));
    assert_eq!(m.center(ONE / 2), v(2 * ONE, 0, 0));
}

#[test]
fn rect_hit_exact() {
    let rect = XzRect::new(-ONE, ONE, -ONE, ONE, 2 * ONE, 7);
    let ray = Ray::new(v(0, 5 * ONE, 0), v(0, -ONE, 0), 0);
    let rec = rect.hit(&ray, T_EPS, SAT).expect("hit the plane");
    assert_eq!(rec.t, 3 * ONE);
    assert_eq!(rec.p, v(0, 2 * ONE, 0));
    assert_eq!(rec.u, ONE / 2);
    assert_eq!(rec.v, ONE / 2);
    assert_eq!(rec.material, Some(7));
    assert!(rec.front_face);
}

#[test]
fn rect_pdf_zero_on_miss() {
    let rect = XzRect::new(-ONE, ONE, -ONE, ONE, 2 * ONE, 7);
    // Looking away from the plane.
    assert_eq!(rect.pdf_value(&v(0, 5 * ONE, 0), &v(0, ONE, 0)), 0);
    assert!(rect.pdf_value(&v(0, 5 * ONE, 0), &v(0, -ONE, 0)) > 0);
}

#[test]
fn onb_from_axis_normal() {
    let onb = Onb::from_w(&v(0, 0, ONE));
    assert_eq!(onb.w(), v(0, 0, ONE));
    assert_eq!(onb.v(), v(0, ONE, 0));
    assert_eq!(onb.u(), v(-ONE, 0, 0));
    assert_eq!(onb.local(ONE, 0, 0), v(-ONE, 0, 0));
}

#[test]
fn mixture_pdf_value_is_exact_mean() {
    let sphere_pdf = Pdf::Sphere(SpherePdf {});
    let cosine = Pdf::Cosine(CosinePdf::new(&v(0, 0, ONE)));
    let uniform_value = sphere_pdf.value(&v(0, 0, ONE));
    assert_eq!(uniform_value, fdiv(ONE, 4 * PI));

    let mix_same = MixturePdf::new(&sphere_pdf, &sphere_pdf);
    assert_eq!(mix_same.value(&v(ONE, 0, 0)), uniform_value);

    // A direction in the lower hemisphere: the cosine pdf reports zero.
    let down = v(0, 0, -ONE);
    let c_down = cosine.value(&down);
    assert_eq!(c_down, 0);
    let mix = MixturePdf::new(&cosine, &sphere_pdf);
    assert_eq!(mix.value(&down), (c_down + uniform_value) / 2);

    let up = v(0, 0, ONE);
    let c_up = cosine.value(&up);
    let m = mix.value(&up);
    assert_eq!(m, (c_up + uniform_value).div_euclid(2));
}

#[test]
fn cosine_pdf_integrates_to_one() {
    // Numerically integrate the cosine density over the sphere of
    // directions with a spherical-coordinate quadrature: the total must be
    // close to 1.
    let pdf = Pdf::Cosine(CosinePdf::new(&v(0, 0, ONE)));
    let n_theta = 200;
    let n_phi = 200;
    let pi = std::f64::consts::PI;
    let d_theta = pi / n_theta as f64;
    let d_phi = 2.0 * pi / n_phi as f64;
    let mut integral = 0f64;
    for it in 0..n_theta {
        let theta = (it as f64 + 0.5) * d_theta;
        for ip in 0..n_phi {
            let phi = (ip as f64 + 0.5) * d_phi;
            let dir = v(
                (theta.sin() * phi.cos() * ONE as f64) as i64,
                (theta.sin() * phi.sin() * ONE as f64) as i64,
                (theta.cos() * ONE as f64) as i64,
            );
            let val = pdf.value(&dir) as f64 / ONE as f64;
            integral += val * theta.sin() * d_theta * d_phi;
        }
    }
    assert!(
        (integral - 1.0).abs() < 0.05,
        "integral estimate {}",
        integral
    );
}

#[test]
fn cosine_pdf_self_draws_have_positive_density() {
    let mut rng = rng_from_seed(11);
    let pdf = Pdf::Cosine(CosinePdf::new(&v(0, 0, ONE)));
    for _ in 0..200 {
        let d = pdf.generate(&mut rng);
        assert!(pdf.value(&d) >= 0);
    }
}

#[test]
fn translate_roundtrip_exact() {
    let p = v(3 * ONE, -2 * ONE, 5 * ONE);
    let off = v(ONE, 7 * ONE, -4 * ONE);
    assert_eq!(p.add(&off).sub(&off), p);
    assert_eq!(p.sub(&off).add(&off), p);
}

#[test]
fn rotate_y_roundtrip_within_tolerance() {
    let p = v(3 * ONE, -2 * ONE, 5 * ONE);
    let theta = 34315; // about 30 degrees in radians, fixed point
    let back = p.rotate_y(theta).rotate_y(-theta);
    // The rational sine approximation is good to about 0.2%, so the round
    // trip of a coordinate around 5.0 can be off by a few thousandths.
    assert!((back.x - p.x).abs() <= 2000, "x {} vs {}", back.x, p.x);
    assert!((back.y - p.y).abs() <= 2000);
    assert!((back.z - p.z).abs() <= 2000);
}

#[test]
fn rotate_y_quarter_turn_exact() {
    let p = v(3 * ONE, -2 * ONE, 5 * ONE);
    // cos = 0, sin = ONE: a quarter turn; its inverse restores exactly.
    let turned = p.rotate_y_cs(0, ONE);
    assert_eq!(turned, v(5 * ONE, -2 * ONE, -3 * ONE));
    assert_eq!(turned.rotate_y_cs(0, -ONE), p);
}

#[test]
fn translate_zero_offset_keeps_hit_record() {
    let ray = Ray::new(v(0, 0, -5 * ONE), v(0, 0, ONE), 0);
    let plain = Hittable::Sphere(Sphere::new(v(0, 0, 0), 2 * ONE, Some(0)));
    let base = {
        let mut rng = rng_from_seed(1);
        plain.hit(&mut rng, &ray, T_EPS, SAT).expect("hit")
    };
    let wrapped = Hittable::Translate(Translate::new(
        Box::new(Hittable::Sphere(Sphere::new(v(0, 0, 0), 2 * ONE, Some(0)))),
        v(0, 0, 0),
    ));
    let mut rng = rng_from_seed(2);
    let wrapped_rec = wrapped.hit(&mut rng, &ray, T_EPS, SAT).expect("hit");
    assert_eq!(base, wrapped_rec);
}

#[test]
fn translate_shifts_hit_exactly() {
    let off = v(10 * ONE, 0, 0);
    let wrapped = Hittable::Translate(Translate::new(
        Box::new(Hittable::Sphere(Sphere::new(v(0, 0, 0), 2 * ONE, Some(0)))),
        off,
    ));
    let ray = Ray::new(v(10 * ONE, 0, -5 * ONE), v(0, 0, ONE), 0);
    let mut rng = rng_from_seed(3);
    let rec = wrapped.hit(&mut rng, &ray, T_EPS, SAT).expect("hit");
    assert_eq!(rec.t, 3 * ONE);
    assert_eq!(rec.p, v(10 * ONE, 0, -2 * ONE));
}

#[test]
fn flip_face_inverts_side() {
    let plain = Hittable::Sphere(Sphere::new(v(0, 0, 0), 2 * ONE, Some(0)));
    let flipped = Hittable::FlipFace(ray_tracing_weekend::FlipFace::new(Box::new(
        Hittable::Sphere(Sphere::new(v(0, 0, 0), 2 * ONE, Some(0))),
    )));
    let ray = Ray::new(v(0, 0, -5 * ONE), v(0, 0, ONE), 0);
    let mut rng = rng_from_seed(4);
    let a = plain.hit(&mut rng, &ray, T_EPS, SAT).expect("hit");
    let b = flipped.hit(&mut rng, &ray, T_EPS, SAT).expect("hit");
    assert_eq!(a.front_face, !b.front_face);
    assert_eq!(a.t, b.t);
    assert_eq!(a.p, b.p);
}

#[test]
fn list_keeps_closest_hit() {
    let mut list = HittableList::new();
    list.add(Hittable::Sphere(Sphere::new(v(0, 0, 0), ONE, Some(0))));
    list.add(Hittable::Sphere(Sphere::new(v(0, 0, -3 * ONE), ONE, Some(1))));
    let world = Hittable::List(list);
    let ray = Ray::new(v(0, 0, -10 * ONE), v(0, 0, ONE), 0);
    let mut rng = rng_from_seed(5);
    let rec = world.hit(&mut rng, &ray, T_EPS, SAT).expect("hit");
    // The nearer sphere (centered at z = -3) is reported.
    assert_eq!(rec.material, Some(1));
    assert_eq!(rec.t, 6 * ONE);
}

fn random_scene_params(rng: &mut rand::rngs::StdRng, n: u64) -> Vec<(i64, i64, i64, i64)> {
    let mut out = Vec::new();
    for _ in 0..n {
        let x = rng_unit(rng) * 20 - 10 * ONE;
        let y = rng_unit(rng) * 20 - 10 * ONE;
        let z = rng_unit(rng) * 20 - 10 * ONE;
        let r = rng_unit(rng) * 2 + ONE / 4;
        out.push((x, y, z, r));
    }
    out
}

fn scene_objects(params: &[(i64, i64, i64, i64)]) -> Vec<Hittable> {
    params
        .iter()
        .enumerate()
        .map(|(i, &(x, y, z, r))| {
            Hittable::Sphere(Sphere::new(Vec3::new(x, y, z), r, Some(i)))
        })
        .collect()
}

#[test]
fn bvh_matches_brute_force_scan() {
    let mut rng = rng_from_seed(42);
    for scene in 0..100u64 {
        let count = 1 + rng_below(&mut rng, 12);
        let params = random_scene_params(&mut rng, count);
        let mut list = HittableList::new();
        for o in scene_objects(&params) {
            list.add(o);
        }
        let brute = Hittable::List(list);
        let bvh = Hittable::Bvh(BvhNode::new(scene_objects(&params), 0, ONE, &mut rng));
        for _ in 0..20 {
            let ox = rng_unit(&mut rng) * 40 - 20 * ONE;
            let oy = rng_unit(&mut rng) * 40 - 20 * ONE;
            let oz = rng_unit(&mut rng) * 40 - 20 * ONE;
            let dx = rng_unit(&mut rng) * 2 - ONE;
            let dy = rng_unit(&mut rng) * 2 - ONE;
            let dz = rng_unit(&mut rng) * 2 - ONE;
            let ray = Ray::new(Vec3::new(ox, oy, oz), Vec3::new(dx, dy, dz), 0);
            let a: Option<HitRecord> = brute.hit(&mut rng, &ray, T_EPS, SAT);
            let b: Option<HitRecord> = bvh.hit(&mut rng, &ray, T_EPS, SAT);
            match (&a, &b) {
                (Some(ra), Some(rb)) => {
                    assert!(
                        (ra.t - rb.t).abs() <= 2,
                        "scene {}: t {} vs {}",
                        scene,
                        ra.t,
                        rb.t
                    );
                }
                (None, None) => {}
                _ => panic!("scene {}: bvh {:?} vs brute {:?}", scene, b, a),
            }
        }
    }
}

#[test]
fn bvh_box_covers_children() {
    let mut rng = rng_from_seed(9);
    let params = random_scene_params(&mut rng, 8);
    let node = BvhNode::new(scene_objects(&params), 0, ONE, &mut rng);
    let tree = Hittable::Bvh(node);
    let whole = tree.bounding_box(0, ONE).expect("tree has a box");
    for o in scene_objects(&params) {
        let b = o.bounding_box(0, ONE).expect("sphere has a box");
        assert_eq!(AABB::surrounding_box(whole, b), whole);
    }
}

#[test]
fn rng_wrappers_behave() {
    let mut rng = rng_from_seed(123);
    let mut seen_nonzero = false;
    for _ in 0..100 {
        let u = rng_unit(&mut rng);
        assert!(0 <= u && u < ONE);
        if u != 0 {
            seen_nonzero = true;
        }
        assert!(rng_below(&mut rng, 3) < 3);
    }
    assert!(seen_nonzero);
    // Seeding is deterministic.
    let mut a = rng_from_seed(5);
    let mut b = rng_from_seed(5);
    for _ in 0..10 {
        assert_eq!(rng_unit(&mut a), rng_unit(&mut b));
    }
}

#[test]
fn sphere_uv_of_axis_normals() {
    let (u, v_) = Sphere::get_uv(&v(ONE, 0, 0));
    assert!((u - ONE / 2).abs() <= 400, "u {}", u);
    assert!((v_ - ONE / 2).abs() <= 400, "v {}", v_);
    let (_, v_top) = Sphere::get_uv(&v(0, -ONE, 0));
    // acos(1) = 0, so v = 0 at the -y pole.
    assert!(v_top <= 400, "v {}", v_top);
}

#[test]
fn xy_and_yz_rect_hits() {
    let xy = ray_tracing_weekend::XyRect::new(-ONE, ONE, -ONE, ONE, 3 * ONE, 1);
    let rec = xy
        .hit(&Ray::new(v(0, 0, 0), v(0, 0, ONE), 0), T_EPS, SAT)
        .expect("hits the z plane");
    assert_eq!(rec.t, 3 * ONE);
    assert_eq!(rec.material, Some(1));

    let yz = ray_tracing_weekend::YzRect::new(-ONE, ONE, -ONE, ONE, 3 * ONE, 2);
    let rec = yz
        .hit(&Ray::new(v(0, 0, 0), v(ONE, 0, 0), 0), T_EPS, SAT)
        .expect("hits the x plane");
    assert_eq!(rec.t, 3 * ONE);
    assert_eq!(rec.material, Some(2));
}

#[test]
fn rotate_y_wrapper_moves_object() {
    // A sphere at (5, 0, 0), wrapped in a 90 degree turn about y, is found
    // where the rotation carries it: near (0, 0, -5).
    let mut rng = rng_from_seed(21);
    let wrapped = Hittable::RotateY(ray_tracing_weekend::RotateY::new(
        Box::new(Hittable::Sphere(Sphere::new(v(5 * ONE, 0, 0), ONE, Some(0)))),
        90 * ONE,
    ));
    let toward_new_place = Ray::new(v(0, 0, -10 * ONE), v(0, 0, ONE), 0);
    let rec = wrapped
        .hit(&mut rng, &toward_new_place, T_EPS, SAT)
        .expect("the rotated sphere sits on this ray");
    // Entry near t = 4 (the sphere surface at z = -6... -4 from z = -10).
    assert!((rec.t - 4 * ONE).abs() <= ONE / 8, "t {}", rec.t);
    let toward_old_place = Ray::new(v(10 * ONE, 0, 0), v(-ONE, 0, 0), 0);
    assert!(wrapped.hit(&mut rng, &toward_old_place, T_EPS, SAT).is_none());
}

#[test]
fn bvh_leaf_count_over_sizes() {
    // Trees over 1, 2 and 3 objects keep every object findable.
    let mut rng = rng_from_seed(22);
    for n in 1..6i64 {
        let objects: Vec<Hittable> = (0..n)
            .map(|i| {
                Hittable::Sphere(Sphere::new(v(i * 4 * ONE, 0, 0), ONE, Some(i as usize)))
            })
            .collect();
        let tree = Hittable::Bvh(BvhNode::new(objects, 0, ONE, &mut rng));
        for i in 0..n {
            let ray = Ray::new(v(i * 4 * ONE, 0, -5 * ONE), v(0, 0, ONE), 0);
            let rec = tree.hit(&mut rng, &ray, T_EPS, SAT).expect("leaf reachable");
            assert_eq!(rec.material, Some(i as usize));
        }
    }
}

#[test]
fn metal_fuzz_clamps_both_ends() {
    let low = ray_tracing_weekend::Metal::new(v(ONE, ONE, ONE), -3 * ONE);
    assert_eq!(low.fuzz, 0);
    let high = ray_tracing_weekend::Metal::new(v(ONE, ONE, ONE), 2 * ONE);
    assert_eq!(high.fuzz, ONE);
    let mid = ray_tracing_weekend::Metal::new(v(ONE, ONE, ONE), ONE / 4);
    assert_eq!(mid.fuzz, ONE / 4);
}

#[test]
fn random_range_respects_reversed_bounds() {
    let mut rng = rng_from_seed(23);
    for _ in 0..200 {
        let a = ray_tracing_weekend::random_range(&mut rng, -ONE, 3 * ONE);
        assert!(-ONE <= a && a <= 3 * ONE);
        let b = ray_tracing_weekend::random_range(&mut rng, 3 * ONE, -ONE);
        assert!(-ONE <= b && b <= 3 * ONE);
    }
}

#[test]
fn perlin_tables_are_permutations_and_noise_is_bounded() {
    let mut rng = rng_from_seed(24);
    let perlin = ray_tracing_weekend::Perlin::new(&mut rng);
    for table in [&perlin.perm_x, &perlin.perm_y, &perlin.perm_z] {
        let mut sorted = table.clone();
        sorted.sort();
        let identity: Vec<usize> = (0..256).collect();
        assert_eq!(sorted, identity);
    }
    for g in &perlin.ranvec {
        assert!(g.x.abs() <= ONE && g.y.abs() <= ONE && g.z.abs() <= ONE);
    }
    for k in -20i64..20 {
        let p = v(k * ONE / 3, -k * ONE / 7, k * ONE / 11);
        let n = perlin.noise(&p);
        assert!(n.abs() <= 24 * ONE, "noise {}", n);
    }
}

#[test]
fn rect_random_fixed_axis_is_deterministic() {
    let mut rng = rng_from_seed(25);
    let rect = Hittable::XzRect(XzRect::new(-ONE, ONE, -ONE, ONE, 4 * ONE, 0));
    let o = v(ONE, ONE, ONE);
    for _ in 0..20 {
        let d = rect.random(&mut rng, &o);
        assert_eq!(d.y, 3 * ONE);
        assert!(-2 * ONE <= d.x && d.x <= 0);
        assert!(-2 * ONE <= d.z && d.z <= 0);
    }
}

#[test]
fn translate_then_inverse_recovers_hits() {
    let off = v(7 * ONE, -3 * ONE, 2 * ONE);
    let base = Hittable::Sphere(Sphere::new(v(0, 0, 0), 2 * ONE, Some(0)));
    let wrapped = Hittable::Translate(Translate::new(
        Box::new(Hittable::Translate(Translate::new(
            Box::new(Hittable::Sphere(Sphere::new(v(0, 0, 0), 2 * ONE, Some(0)))),
            off,
        ))),
        v(-7 * ONE, 3 * ONE, -2 * ONE),
    ));
    let ray = Ray::new(v(0, 0, -5 * ONE), v(0, 0, ONE), 0);
    let mut rng = rng_from_seed(26);
    let a = base.hit(&mut rng, &ray, T_EPS, SAT).expect("hit");
    let b = wrapped.hit(&mut rng, &ray, T_EPS, SAT).expect("hit");
    assert_eq!(a, b);
}
