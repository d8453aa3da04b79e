use raytracer::fixed::Fx;
use raytracer::hittable::HitRecord;
use raytracer::material::MaterialType;
use raytracer::ray::Ray;
use raytracer::rng::SeededRng;
use raytracer::utils::{random, schlick};
use raytracer::vec3::Vec3;

fn fx(v: f64) -> Fx {
    Fx { raw: (v * 65536.0).round() as i64 }
}

fn to_f(x: Fx) -> f64 {
    x.raw as f64 / 65536.0
}

fn v3(x: f64, y: f64, z: f64) -> Vec3 {
    Vec3::new(fx(x), fx(y), fx(z))
}

fn dielectric_hit(mat: MaterialType) -> HitRecord {
    HitRecord::new(v3(0.0, 0.0, 0.0), v3(0.0, 0.0, 1.0), mat, fx(1.0), true)
}

#[test]
fn test_dielectric_attenuation_always_white() {
    // Whatever the reflect/refract branch, the attenuation is exact white.
    let mat = MaterialType::Dielectric(fx(1.5));
    let rec = dielectric_hit(mat);
    let r_in = Ray::new(v3(0.0, 0.0, 2.0), v3(1.0, 0.0, -1.0).unit_vector());
    let white = Vec3::new_singleton(Fx::from_int(1));
    for seed in 0..32u64 {
        let mut rng = SeededRng::from_seed(seed);
        let sb = mat.scatter(r_in, &rec, &mut rng).expect("dielectric always scatters");
        assert_eq!(sb.albedo, white);
    }
}

#[test]
fn test_dielectric_refraction_obeys_snell() {
    // At 45 degrees into glass, any refracted output direction must obey
    // Snell's law within the fixed-point tolerance.
    let mat = MaterialType::Dielectric(fx(1.5));
    let rec = dielectric_hit(mat);
    let unit_dir = v3(1.0, 0.0, -1.0).unit_vector();
    let r_in = Ray::new(v3(0.0, 0.0, 2.0), unit_dir);
    let n = v3(0.0, 0.0, 1.0);
    let cos = unit_dir.neg().dot(n).min_fx(Fx::from_int(1));
    let ratio = Fx::from_int(1).div(fx(1.5));
    let threshold = schlick(cos, ratio);
    let sin_in = (1.0 - to_f(cos) * to_f(cos)).max(0.0).sqrt();
    let mut refracted_seen = 0;
    for seed in 0..40u64 {
        // The branch is decided by the first draw of this seed's stream.
        let mut probe = SeededRng::from_seed(seed);
        let coin = random(&mut probe);
        let mut rng = SeededRng::from_seed(seed);
        let sb = mat.scatter(r_in, &rec, &mut rng).expect("scatters");
        let out = sb.ray.dir;
        let out_len =
            (to_f(out.x).powi(2) + to_f(out.y).powi(2) + to_f(out.z).powi(2)).sqrt();
        let cos_out = (to_f(out.x) * 0.0 + to_f(out.y) * 0.0 + to_f(out.z) * 1.0) / out_len;
        if threshold.raw > coin.raw {
            // Reflected: stays on the incoming side.
            assert!(cos_out > 0.0);
        } else {
            // Refracted: crosses the surface, bent by the index ratio.
            refracted_seen += 1;
            let sin_out = (1.0 - cos_out * cos_out).max(0.0).sqrt();
            assert!(
                (sin_out - to_f(ratio) * sin_in).abs() < 0.02,
                "sin_out {} expected {}",
                sin_out,
                to_f(ratio) * sin_in
            );
            assert!(cos_out < 0.0);
        }
    }
    assert!(refracted_seen > 0, "no seed exercised the refraction branch");
}

#[test]
fn test_dielectric_total_internal_reflection() {
    // Leaving glass at a grazing angle: ratio * sin_theta > 1 forces a
    // reflection, with no randomness consumed.
    let mat = MaterialType::Dielectric(fx(1.5));
    let rec = HitRecord::new(v3(0.0, 0.0, 0.0), v3(0.0, 0.0, 1.0), mat, fx(1.0), false);
    let unit_dir = v3(1.0, 0.0, -0.2).unit_vector();
    let r_in = Ray::new(v3(0.0, 0.0, 2.0), unit_dir);
    let mut rng = SeededRng::from_seed(0);
    let sb = mat.scatter(r_in, &rec, &mut rng).expect("scatters");
    // Reflected about (0,0,1): x kept, z flipped.
    assert!((to_f(sb.ray.dir.x) - to_f(unit_dir.x)).abs() < 0.01);
    assert!((to_f(sb.ray.dir.z) + to_f(unit_dir.z)).abs() < 0.01);
}

#[test]
fn test_metal_absorbs_into_surface() {
    // A reflection that ends up under the surface is absorbed.
    let mat = MaterialType::Metal(v3(0.8, 0.8, 0.8), fx(0.0));
    let rec = HitRecord::new(v3(0.0, 0.0, 0.0), v3(0.0, 0.0, 1.0), mat, fx(1.0), true);
    let r_in = Ray::new(v3(0.0, 0.0, -2.0), v3(0.0, 0.0, 1.0));
    let mut rng = SeededRng::from_seed(0);
    assert!(mat.scatter(r_in, &rec, &mut rng).is_none());
}

#[test]
fn test_metal_reflects_with_albedo() {
    let albedo = v3(0.8, 0.6, 0.2);
    let mat = MaterialType::Metal(albedo, fx(0.0));
    let rec = HitRecord::new(v3(0.0, 0.0, 0.0), v3(0.0, 0.0, 1.0), mat, fx(1.0), true);
    let r_in = Ray::new(v3(0.0, 0.0, 2.0), v3(1.0, 0.0, -1.0).unit_vector());
    let mut rng = SeededRng::from_seed(0);
    let sb = mat.scatter(r_in, &rec, &mut rng).expect("reflects");
    assert_eq!(sb.albedo, albedo);
    assert!(to_f(sb.ray.dir.z) > 0.0);
}

#[test]
fn test_lambertian_scatters_with_albedo_from_hit_point() {
    let albedo = v3(0.7, 0.3, 0.3);
    let mat = MaterialType::Lambertian(albedo);
    let rec = HitRecord::new(v3(1.0, 2.0, 3.0), v3(0.0, 1.0, 0.0), mat, fx(1.0), true);
    let r_in = Ray::new(v3(0.0, 0.0, 0.0), v3(1.0, 0.0, 0.0));
    let mut rng = SeededRng::from_seed(3);
    let sb = mat.scatter(r_in, &rec, &mut rng).expect("always scatters");
    assert_eq!(sb.albedo, albedo);
    assert_eq!(sb.ray.orig, v3(1.0, 2.0, 3.0));
    // The scatter direction leans toward the normal's hemisphere.
    assert!(to_f(sb.ray.dir.y) > -1.0);
}

#[test]
fn test_schlick_at_normal_incidence() {
    // cos = 1 kills the fifth-power term: r0^2 with r0 = (1-n)/(1+n).
    let s = schlick(Fx::from_int(1), fx(1.5));
    assert!((to_f(s) - 0.04).abs() < 0.005, "schlick {}", to_f(s));
}
