use raytracer::fixed::Fx;
use raytracer::hittable::HittableObject;
use raytracer::material::MaterialType;
use raytracer::ray::Ray;
use raytracer::vec3::Vec3;

fn fx(v: f64) -> Fx {
    Fx { raw: (v * 65536.0).round() as i64 }
}

fn v3(x: f64, y: f64, z: f64) -> Vec3 {
    Vec3::new(fx(x), fx(y), fx(z))
}

fn gray() -> MaterialType {
    MaterialType::Lambertian(v3(0.5, 0.5, 0.5))
}

#[test]
fn test_sphere_hit_through_center() {
    // A ray through the center enters at distance-to-center minus radius.
    let sphere = HittableObject::Sphere(v3(0.0, 0.0, -5.0), fx(1.0), gray());
    let r = Ray::new(v3(0.0, 0.0, 0.0), v3(0.0, 0.0, -1.0));
    let rec = sphere.hit(r, fx(0.001), Fx { raw: i64::MAX }).expect("hit");
    let t = rec.t.raw as f64 / 65536.0;
    assert!((t - 4.0).abs() < 0.01, "t = {}", t);
    assert!(rec.front_face);
    // The outward normal at the entry point faces the ray.
    assert!((rec.normal.z.raw as f64 / 65536.0 - 1.0).abs() < 0.02);
}

#[test]
fn test_sphere_miss_when_closest_approach_exceeds_radius() {
    let sphere = HittableObject::Sphere(v3(0.0, 0.0, -5.0), fx(1.0), gray());
    let r = Ray::new(v3(0.0, 0.0, 0.0), v3(0.0, 1.0, 0.0));
    assert!(sphere.hit(r, fx(0.001), Fx { raw: i64::MAX }).is_none());
}

#[test]
fn test_sphere_no_hit_outside_interval() {
    // Geometric intersections at t = 4 and t = 6 are not reported when the
    // query interval excludes them on either side.
    let sphere = HittableObject::Sphere(v3(0.0, 0.0, -5.0), fx(1.0), gray());
    let r = Ray::new(v3(0.0, 0.0, 0.0), v3(0.0, 0.0, -1.0));
    assert!(sphere.hit(r, fx(0.001), fx(2.0)).is_none());
    assert!(sphere.hit(r, fx(7.0), fx(100.0)).is_none());
}

#[test]
fn test_sphere_second_root_when_inside() {
    // From the center of a sphere the near root is behind the epsilon, so
    // the far root is the hit, with the normal flipped inward.
    let sphere = HittableObject::Sphere(v3(0.0, 0.0, 0.0), fx(1.0), gray());
    let r = Ray::new(v3(0.0, 0.0, 0.0), v3(0.0, 0.0, -1.0));
    let rec = sphere.hit(r, fx(0.001), Fx { raw: i64::MAX }).expect("hit");
    let t = rec.t.raw as f64 / 65536.0;
    assert!((t - 1.0).abs() < 0.01, "t = {}", t);
    assert!(!rec.front_face);
}

#[test]
fn test_list_returns_nearest_hit() {
    let near = HittableObject::Sphere(v3(0.0, 0.0, -5.0), fx(1.0), gray());
    let far = HittableObject::Sphere(
        v3(0.0, 0.0, -10.0),
        fx(1.0),
        MaterialType::Metal(v3(0.8, 0.8, 0.8), fx(0.0)),
    );
    let world = HittableObject::HittableList(vec![far, near]);
    let r = Ray::new(v3(0.0, 0.0, 0.0), v3(0.0, 0.0, -1.0));
    let rec = world.hit(r, fx(0.001), Fx { raw: i64::MAX }).expect("hit");
    let t = rec.t.raw as f64 / 65536.0;
    assert!((t - 4.0).abs() < 0.01, "t = {}", t);
    assert!(matches!(rec.mat, MaterialType::Lambertian(_)));
}

#[test]
fn test_ray_at() {
    let r = Ray::new(v3(1.0, 2.0, 3.0), v3(0.0, 0.0, -2.0));
    let p = r.at(fx(1.5));
    assert_eq!(p, v3(1.0, 2.0, 0.0));
}
