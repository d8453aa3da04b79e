use raytracer::camera::Camera;
use raytracer::fixed::Fx;
use raytracer::hittable::HittableObject;
use raytracer::material::MaterialType;
use raytracer::ray::Ray;
use raytracer::render::{color_to_bitboi, ray_color, render_scene, sky_color};
use raytracer::rng::SeededRng;
use raytracer::vec3::Vec3;

fn fx(v: f64) -> Fx {
    Fx { raw: (v * 65536.0).round() as i64 }
}

fn v3(x: f64, y: f64, z: f64) -> Vec3 {
    Vec3::new(fx(x), fx(y), fx(z))
}

fn channels(c: u32) -> (u32, u32, u32) {
    (c / 65536 % 256, c / 256 % 256, c % 256)
}

fn ground_world() -> HittableObject {
    HittableObject::HittableList(vec![HittableObject::Sphere(
        v3(0.0, -1000.0, 0.0),
        fx(1000.0),
        MaterialType::Lambertian(v3(0.5, 0.5, 0.5)),
    )])
}

fn down_camera() -> Camera {
    Camera::new(
        v3(0.0, 1.0, 0.0),
        v3(0.0, 0.0, -2.0),
        v3(0.0, 1.0, 0.0),
        Fx::from_int(60),
        fx(16.0 / 9.0),
        fx(0.0),
        Fx::from_int(1),
    )
}

#[test]
fn test_ray_color_depth_zero_is_black() {
    let world = ground_world();
    let black = Vec3::new_dfl();
    for (ox, dy) in [(0.0, -1.0), (3.0, 0.5), (-2.0, 0.0)] {
        let r = Ray::new(v3(ox, 5.0, 0.0), v3(0.1, dy, -1.0));
        let mut rng = SeededRng::from_seed(9);
        assert_eq!(ray_color(r, &world, 0, &mut rng), black);
    }
}

#[test]
fn test_render_reproducible() {
    let world = ground_world();
    let cam = down_camera();
    let first = render_scene(&world, 4, 8, 6, 2, cam);
    let second = render_scene(&world, 4, 8, 6, 2, cam);
    assert_eq!(first, second);
}

#[test]
fn test_ground_scene_sky_above_gray_below() {
    let world = ground_world();
    let cam = down_camera();
    let depth1 = render_scene(&world, 1, 9, 7, 1, cam);
    let depth2 = render_scene(&world, 2, 9, 7, 1, cam);

    // The top row only sees sky, which does not depend on the depth.
    assert_eq!(depth1[0], depth2[0]);
    let (r, g, b) = channels(depth1[0][4]);
    assert!(b >= r, "sky is blue-tinted: {} {} {}", r, g, b);
    assert!(r >= 170, "sky is at least half white: {} {} {}", r, g, b);

    // The bottom center ray hits the ground. At depth 1 the single bounce
    // is truncated to black; at depth 2 the bounce reaches the sky through
    // the gray albedo, keeping the sky's channel ordering.
    let bottom = depth1.len() - 1;
    assert_eq!(channels(depth1[bottom][4]), (0, 0, 0));
    let (r2, g2, b2) = channels(depth2[bottom][4]);
    assert!(r2 <= g2 && g2 <= b2, "attenuated sky: {} {} {}", r2, g2, b2);
    assert!(b2 < b, "darker than the sky above: {} vs {}", b2, b);
}

#[test]
fn test_rows_render_independently() {
    // Each row depends only on its own seed, so rendering any row alone,
    // in any order, reproduces the corresponding row of the full image.
    let world = ground_world();
    let cam = down_camera();
    let full = render_scene(&world, 3, 8, 4, 2, cam);
    for (i, want) in full.iter().enumerate() {
        let row = 4 - 1 - i;
        let mut rng = SeededRng::from_seed(row as u64);
        let got = raytracer::render::render_a_row(&world, 3, 8, 4, row, 2, &cam, &mut rng);
        assert_eq!(&got, want);
    }
}

#[test]
fn test_sky_color_gradient() {
    // Straight up is the sky blue, straight down pure white.
    let up = sky_color(Ray::new(v3(0.0, 0.0, 0.0), v3(0.0, 1.0, 0.0)));
    let down = sky_color(Ray::new(v3(0.0, 0.0, 0.0), v3(0.0, -1.0, 0.0)));
    assert!((up.x.raw - 32768).abs() < 700);
    assert!((up.z.raw - 65536).abs() < 700);
    assert!((down.x.raw - 65536).abs() < 700);
    assert!((down.z.raw - 65536).abs() < 700);
}

#[test]
fn test_tone_map_white_and_black() {
    for n in [1usize, 7, 100] {
        let white_sum = Vec3::new_singleton(Fx::from_int(n as i64));
        assert_eq!(channels(color_to_bitboi(white_sum, n)), (255, 255, 255));
        assert_eq!(channels(color_to_bitboi(Vec3::new_dfl(), n)), (0, 0, 0));
    }
}

#[test]
fn test_tone_map_quarter_gray() {
    // 0.25 averaged, gamma-2 corrected to 0.5, scaled: 127.
    let c = Vec3::new_singleton(fx(0.25));
    let (r, g, b) = channels(color_to_bitboi(c, 1));
    assert_eq!((r, g, b), (127, 127, 127));
}

#[test]
fn test_rng_streams_are_deterministic() {
    let mut a = SeededRng::from_seed(42);
    let mut b = SeededRng::from_seed(42);
    let first: Vec<u32> = (0..4).map(|_| a.next_u32()).collect();
    let second: Vec<u32> = (0..4).map(|_| b.next_u32()).collect();
    assert_eq!(first, second);
    // Successive draws move through the stream rather than repeating.
    assert!(first.windows(2).any(|w| w[0] != w[1]));
    // A different seed gives a different stream.
    let mut c = SeededRng::from_seed(43);
    assert_ne!(c.next_u32(), first[0]);
}

#[test]
fn test_random_is_a_unit_fraction() {
    let mut rng = SeededRng::from_seed(5);
    for _ in 0..16 {
        let x = raytracer::utils::random(&mut rng);
        assert!(0 <= x.raw && x.raw < 65536);
    }
}

#[test]
fn test_pinhole_camera_center_ray() {
    let cam = Camera::new_dfl(Fx::from_int(1));
    let mut rng = SeededRng::from_seed(0);
    let r = cam.get_ray(fx(0.5), fx(0.5), &mut rng);
    assert_eq!(r.orig, Vec3::new_dfl());
    assert!((r.dir.x.raw).abs() < 300);
    assert!((r.dir.y.raw).abs() < 300);
    assert!((r.dir.z.raw + 65536).abs() < 300);
}

#[test]
fn test_degrees_to_radians() {
    let pi = raytracer::utils::degrees_to_radians(Fx::from_int(180));
    assert!((pi.raw as f64 / 65536.0 - std::f64::consts::PI).abs() < 0.001);
}
