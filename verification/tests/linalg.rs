use raytracer::fixed::Fx;
use raytracer::vec3::Vec3;

fn fx(v: f64) -> Fx {
    Fx { raw: (v * 65536.0).round() as i64 }
}

fn to_f(x: Fx) -> f64 {
    x.raw as f64 / 65536.0
}

fn v3(x: f64, y: f64, z: f64) -> Vec3 {
    Vec3::new(fx(x), fx(y), fx(z))
}

#[test]
fn test_linalg() {
    let vecx = v3(1.0, 0.0, 0.0);
    let vecy = v3(0.0, 1.0, 0.0);
    let vecz = v3(0.0, 0.0, 1.0);
    let zero = Vec3::new_dfl();
    assert_eq!(vecz, Vec3::cross(vecx, vecy));
    assert_eq!(vecz.neg(), Vec3::cross(vecy, vecx));
    assert_eq!(zero, vecx.cross(vecx));
    assert_eq!(zero, vecy.cross(vecy));
    assert_eq!(zero, vecz.cross(vecz));
    assert_eq!(fx(0.0), vecx.dot(vecy));
    assert_eq!(fx(1.0), vecx.dot(vecx));
}

#[test]
fn test_plus_commutative_and_associative() {
    let a = v3(1.25, -2.5, 3.75);
    let b = v3(-0.5, 4.0, 0.125);
    let c = v3(2.0, 2.0, -7.25);
    assert_eq!(a.plus(b), b.plus(a));
    assert_eq!(a.plus(b).plus(c), a.plus(b.plus(c)));
}

#[test]
fn test_dot_commutative() {
    let a = v3(1.23, -4.56, 7.89);
    let b = v3(0.5, 0.25, -3.5);
    assert_eq!(a.dot(b), b.dot(a));
}

#[test]
fn test_cross_self_is_zero() {
    let a = v3(1.23, -4.56, 7.89);
    assert_eq!(a.cross(a), Vec3::new_dfl());
}

#[test]
fn test_length_squared_is_self_dot() {
    let a = v3(1.23, -4.56, 7.89);
    assert_eq!(a.length_squared(), a.dot(a));
}

#[test]
fn test_unit_vector_has_length_one() {
    for v in [
        v3(3.0, 4.0, 0.0),
        v3(1.23, -4.56, 7.89),
        v3(0.1, 0.1, 0.1),
        v3(-250.0, 40.0, 3.0),
    ] {
        let u = v.unit_vector();
        let len = (to_f(u.x) * to_f(u.x) + to_f(u.y) * to_f(u.y) + to_f(u.z) * to_f(u.z)).sqrt();
        assert!((len - 1.0).abs() < 0.01, "length {} for {:?}", len, v);
    }
}

#[test]
fn test_reflect_axis_normal_exact() {
    let d = v3(1.0, -1.0, 0.0);
    let n = v3(0.0, 1.0, 0.0);
    let r = d.reflect(n);
    assert_eq!(r, v3(1.0, 1.0, 0.0));
    assert_eq!(r.reflect(n), d);
    assert_eq!(r.dot(n), d.dot(n).neg());
}

#[test]
fn test_reflect_general_normal_within_tolerance() {
    let d = v3(0.3, -0.8, 0.2);
    let n = v3(1.0, 1.0, 0.0).unit_vector();
    let r = d.reflect(n);
    let twice = r.reflect(n);
    for (got, want) in [
        (twice.x, d.x),
        (twice.y, d.y),
        (twice.z, d.z),
        (r.dot(n), d.dot(n).neg()),
    ] {
        assert!(
            (to_f(got) - to_f(want)).abs() < 0.001,
            "got {} want {}",
            to_f(got),
            to_f(want)
        );
    }
}

#[test]
fn test_near_zero() {
    assert!(Vec3::new_dfl().near_zero());
    assert!(!Vec3::new(Fx { raw: 1 }, Fx { raw: 0 }, Fx { raw: 0 }).near_zero());
}

#[test]
fn test_refract_straight_through() {
    // Normal incidence: refraction keeps the direction straight on.
    let d = v3(0.0, 0.0, -1.0);
    let n = v3(0.0, 0.0, 1.0);
    let out = d.refract(n, fx(1.0 / 1.5));
    assert!((to_f(out.x)).abs() < 0.01);
    assert!((to_f(out.y)).abs() < 0.01);
    assert!(to_f(out.z) < -0.9);
}
