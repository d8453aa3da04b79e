use raytracer::camera::Camera;
use raytracer::fixed::Fx;
use raytracer::hittable::HitRecord;
use raytracer::material::MaterialType;
use raytracer::ray::Ray;
use raytracer::utils::{cos_fx, sin_fx, tan_fx};
use raytracer::vec3::Vec3;

fn fx(v: f64) -> Fx {
    Fx { raw: (v * 65536.0).round() as i64 }
}

fn to_f(x: Fx) -> f64 {
    x.raw as f64 / 65536.0
}

fn v3(x: f64, y: f64, z: f64) -> Vec3 {
    Vec3::new(fx(x), fx(y), fx(z))
}

#[test]
fn test_trig_series_accuracy() {
    for x in [0.0, 0.1, 0.35, 0.5236, 0.7854, 1.0] {
        assert!((to_f(sin_fx(fx(x))) - x.sin()).abs() < 0.002, "sin {}", x);
        assert!((to_f(cos_fx(fx(x))) - x.cos()).abs() < 0.002, "cos {}", x);
        assert!((to_f(tan_fx(fx(x))) - x.tan()).abs() < 0.01, "tan {}", x);
    }
}

#[test]
fn test_camera_new_builds_orthonormal_basis() {
    let cam = Camera::new(
        v3(13.0, 2.0, 3.0),
        v3(0.0, 0.0, 0.0),
        v3(0.0, 1.0, 0.0),
        Fx::from_int(20),
        fx(1.6),
        fx(0.1),
        Fx::from_int(10),
    );
    assert_eq!(cam.origin(), v3(13.0, 2.0, 3.0));
    assert!((to_f(cam.lens_radius()) - 0.05).abs() < 0.001);
    // The basis is near-orthonormal despite the fixed-point rounding.
    for b in [cam.u(), cam.v()] {
        let len = (to_f(b.x).powi(2) + to_f(b.y).powi(2) + to_f(b.z).powi(2)).sqrt();
        assert!((len - 1.0).abs() < 0.01, "basis length {}", len);
    }
    assert!(to_f(cam.u().dot(cam.v())).abs() < 0.01);
    // new_random is this same camera.
    let cam2 = Camera::new_random(fx(1.6));
    assert_eq!(cam, cam2);
}

#[test]
fn test_camera_debug_matches_default_shifted() {
    let a = Camera::new_dfl(fx(1.5));
    let b = Camera::new_debug(fx(1.5));
    assert_eq!(a.horizontal(), b.horizontal());
    assert_eq!(a.vertical(), b.vertical());
    assert_eq!(a.origin(), Vec3::new_dfl());
    assert_eq!(b.origin(), v3(0.0, 0.0, 2.0));
    assert_eq!(a.u(), v3(-1.0, 0.0, 0.0));
    assert_eq!(a.v(), v3(0.0, 1.0, 0.0));
    assert_eq!(a.lens_radius(), fx(0.0));
    assert_eq!(a.lower_left_corner(), v3(-1.5, -1.0, -1.0));
}

#[test]
fn test_hit_record_accessors() {
    let mat = MaterialType::Lambertian(v3(0.5, 0.5, 0.5));
    let mut rec = HitRecord::new(v3(0.0, 0.0, 0.0), v3(0.0, 0.0, 1.0), mat, fx(1.0), true);
    rec.set_p(v3(1.0, 1.0, 1.0));
    rec.set_t(fx(2.5));
    assert_eq!(rec.p(), v3(1.0, 1.0, 1.0));
    assert_eq!(rec.t(), fx(2.5));
    assert_eq!(rec.mat_ptr(), mat);

    // A ray running against the outward normal marks a front face and
    // keeps the normal; one running along it flips the normal.
    let outward = v3(0.0, 0.0, 1.0);
    rec.set_face_normal(&Ray::new(v3(0.0, 0.0, 5.0), v3(0.0, 0.0, -1.0)), &outward);
    assert!(rec.front_face());
    assert_eq!(rec.normal(), outward);
    rec.set_face_normal(&Ray::new(v3(0.0, 0.0, -5.0), v3(0.0, 0.0, 1.0)), &outward);
    assert!(!rec.front_face());
    assert_eq!(rec.normal(), outward.neg());
}

#[test]
fn test_scatter_bundle_accessors() {
    let sb = raytracer::material::ScatterBundle::new(
        v3(0.1, 0.2, 0.3),
        Ray::new(v3(0.0, 0.0, 0.0), v3(1.0, 0.0, 0.0)),
    );
    assert_eq!(sb.albedo(), v3(0.1, 0.2, 0.3));
    assert_eq!(sb.ray().dir, v3(1.0, 0.0, 0.0));
}
