//! The laws the renderer obeys, stated and proved over the same spec
//! functions its contracts use: vector algebra, intersection intervals,
//! reflection, dielectric energy conservation, estimator termination,
//! reproducibility of a render, and tone-mapping of pure white and black.

use vstd::prelude::*;

use crate::fixed::{int_sqrt, lemma_int_sqrt_is, qdiv, Fx};
use crate::hittable::{spec_hit, spec_list_hit, spec_sphere_hit, HitRecord, HittableObject};
use crate::material::MaterialType;
use crate::ray::Ray;
use crate::render::{
    is_render_of, spec_channel, spec_channel_num, spec_color_to_bitboi, spec_ray_color,
    TONE_CLAMP_RAW,
};
use crate::vec3::Vec3;

verus! {

/// Vector addition is commutative: `a + b == b + a`.
pub proof fn lemma_plus_commutative(a: Vec3, b: Vec3)
    ensures
        a.spec_plus(b) == b.spec_plus(a),
{
}

/// Vector addition is associative, `(a + b) + c == a + (b + c)`, away from
/// the saturation edge of the representation.
pub proof fn lemma_plus_associative(a: Vec3, b: Vec3, c: Vec3)
    requires
        vstd::math::abs(a.x.raw as int) <= 0x1000000000000000,
        vstd::math::abs(a.y.raw as int) <= 0x1000000000000000,
        vstd::math::abs(a.z.raw as int) <= 0x1000000000000000,
        vstd::math::abs(b.x.raw as int) <= 0x1000000000000000,
        vstd::math::abs(b.y.raw as int) <= 0x1000000000000000,
        vstd::math::abs(b.z.raw as int) <= 0x1000000000000000,
        vstd::math::abs(c.x.raw as int) <= 0x1000000000000000,
        vstd::math::abs(c.y.raw as int) <= 0x1000000000000000,
        vstd::math::abs(c.z.raw as int) <= 0x1000000000000000,
    ensures
        a.spec_plus(b).spec_plus(c) == a.spec_plus(b.spec_plus(c)),
{
}

/// The inner product is symmetric: `dot(a, b) == dot(b, a)`.
pub proof fn lemma_dot_commutative(a: Vec3, b: Vec3)
    ensures
        a.spec_dot(b) == b.spec_dot(a),
{
    lemma_times_commutative(a.x, b.x);
    lemma_times_commutative(a.y, b.y);
    lemma_times_commutative(a.z, b.z);
}

/// Scalar multiplication is commutative.
pub proof fn lemma_times_commutative(a: Fx, b: Fx)
    ensures
        a.spec_times(b) == b.spec_times(a),
{
    assert((a.raw as int) * (b.raw as int) == (b.raw as int) * (a.raw as int))
        by (nonlinear_arith);
}

/// The cross product of a vector with itself is the zero vector.
pub proof fn lemma_cross_self_zero(a: Vec3)
    ensures
        a.spec_cross(a) == Vec3::spec_zero(),
{
    lemma_times_commutative(a.y, a.z);
    lemma_times_commutative(a.z, a.x);
    lemma_times_commutative(a.x, a.y);
}

/// The squared length is the inner product with itself:
/// `length_squared(a) == dot(a, a)`.
pub proof fn lemma_length_squared_is_self_dot(a: Vec3)
    ensures
        a.spec_length_squared() == a.spec_dot(a),
{
}

/// A hit is only ever reported inside the query interval: whatever a
/// geometric intersection outside `(tmin, tmax]` would be, it is not
/// returned.
pub proof fn lemma_hit_t_in_interval(obj: HittableObject, r: Ray, tmin: Fx, tmax: Fx)
    requires
        spec_hit(obj, r, tmin, tmax) is Some,
    ensures
        tmin.raw < spec_hit(obj, r, tmin, tmax)->Some_0.t.raw,
        spec_hit(obj, r, tmin, tmax)->Some_0.t.raw <= tmax.raw,
    decreases obj,
{
    match obj {
        HittableObject::Sphere(..) => {
        },
        HittableObject::HittableList(v) => {
            lemma_list_hit_t_in_interval(v@, v@.len() as int, r, tmin, tmax);
        },
    }
}

/// A hit folded over a list's children lies inside the query interval.
pub proof fn lemma_list_hit_t_in_interval(
    s: Seq<HittableObject>,
    n: int,
    r: Ray,
    tmin: Fx,
    tmax: Fx,
)
    requires
        spec_list_hit(s, n, r, tmin, tmax) is Some,
    ensures
        tmin.raw < spec_list_hit(s, n, r, tmin, tmax)->Some_0.t.raw,
        spec_list_hit(s, n, r, tmin, tmax)->Some_0.t.raw <= tmax.raw,
    decreases s, n,
{
    if n <= 0 || n > s.len() {
    } else {
        let prev = spec_list_hit(s, n - 1, r, tmin, tmax);
        let cur = spec_hit(s[n - 1], r, tmin, tmax);
        if cur is Some {
            lemma_hit_t_in_interval(s[n - 1], r, tmin, tmax);
        }
        if prev is Some {
            lemma_list_hit_t_in_interval(s, n - 1, r, tmin, tmax);
        }
    }
}

/// A sphere whose quadratic has a negative discriminant is missed: a ray
/// whose closest approach stays outside the sphere reports no hit.
pub proof fn lemma_sphere_negative_discriminant_misses(
    center: Vec3,
    radius: Fx,
    mat: MaterialType,
    r: Ray,
    tmin: Fx,
    tmax: Fx,
)
    requires
        ({
            let oc = r.orig.spec_minus(center);
            let a = r.dir.spec_length_squared();
            let half_b = oc.spec_dot(r.dir);
            let c = oc.spec_length_squared().spec_minus(radius.spec_times(radius));
            half_b.spec_times(half_b).spec_minus(a.spec_times(c)).raw < 0
        }),
    ensures
        spec_sphere_hit(center, radius, mat, r, tmin, tmax) is None,
{
}

/// A normal that is exactly one coordinate axis, at exactly unit length.
pub open spec fn axis_unit(n: Vec3) -> bool {
    ||| (vstd::math::abs(n.x.raw as int) == 65536 && n.y.raw == 0 && n.z.raw == 0)
    ||| (n.x.raw == 0 && vstd::math::abs(n.y.raw as int) == 65536 && n.z.raw == 0)
    ||| (n.x.raw == 0 && n.y.raw == 0 && vstd::math::abs(n.z.raw as int) == 65536)
}

/// Multiplying by exactly one is exact.
pub proof fn lemma_times_one(a: Fx)
    ensures
        a.spec_times(Fx { raw: 65536 }) == a,
{
    crate::fixed::lemma_qdiv_scale_exact(a.raw as int);
}

/// Multiplying by exactly minus one is exact negation.
pub proof fn lemma_times_neg_one(a: Fx)
    ensures
        a.spec_times(Fx { raw: -65536i64 }) == a.spec_neg(),
{
    crate::fixed::lemma_qdiv_neg_scale_exact(a.raw as int);
}

/// Multiplying by zero is zero.
pub proof fn lemma_times_zero(a: Fx)
    ensures
        a.spec_times(Fx { raw: 0 }) == (Fx { raw: 0 }),
{
    assert((a.raw as int) * 0 == 0 * 65536) by (nonlinear_arith);
    crate::fixed::lemma_qdiv_scale_exact(0);
}

/// Doubling is exact away from the saturation edge.
pub proof fn lemma_times_two(a: Fx)
    requires
        vstd::math::abs(a.raw as int) <= 0x1000000000000000,
    ensures
        Fx::spec_from_int(2).spec_times(a) == (Fx { raw: (2 * a.raw) as i64 }),
{
    assert(131072 * (a.raw as int) == (2 * (a.raw as int)) * 65536) by (nonlinear_arith);
    crate::fixed::lemma_qdiv_scale_exact(2 * (a.raw as int));
}

/// The reflection law, exact for an axis-aligned unit normal: the normal
/// component of the inner product flips sign, and reflecting twice about
/// the same normal returns the original vector. (For general normals the
/// law holds only up to fixed-point rounding; the test suite checks it
/// numerically.)
pub proof fn lemma_reflect_axis_normal(d: Vec3, n: Vec3)
    requires
        axis_unit(n),
        vstd::math::abs(d.x.raw as int) <= 0x1000000000000000,
        vstd::math::abs(d.y.raw as int) <= 0x1000000000000000,
        vstd::math::abs(d.z.raw as int) <= 0x1000000000000000,
    ensures
        d.spec_reflect(n).spec_dot(n) == d.spec_dot(n).spec_neg(),
        d.spec_reflect(n).spec_reflect(n) == d,
{
    lemma_reflect_axis_parts(d, n);
    lemma_reflect_axis_parts(d.spec_reflect(n), n);
}

/// One reflection about an axis-aligned unit normal, written out: the
/// normal component is negated and the others are kept.
#[verifier::rlimit(60)]
proof fn lemma_reflect_axis_parts(d: Vec3, n: Vec3)
    requires
        axis_unit(n),
        vstd::math::abs(d.x.raw as int) <= 0x1000000000000000,
        vstd::math::abs(d.y.raw as int) <= 0x1000000000000000,
        vstd::math::abs(d.z.raw as int) <= 0x1000000000000000,
    ensures
        d.spec_reflect(n).spec_dot(n) == d.spec_dot(n).spec_neg(),
        d.spec_reflect(n).x.raw == if n.x.raw == 0 {
            d.x.raw as int
        } else {
            -d.x.raw as int
        },
        d.spec_reflect(n).y.raw == if n.y.raw == 0 {
            d.y.raw as int
        } else {
            -d.y.raw as int
        },
        d.spec_reflect(n).z.raw == if n.z.raw == 0 {
            d.z.raw as int
        } else {
            -d.z.raw as int
        },
        vstd::math::abs(d.spec_reflect(n).x.raw as int) <= 0x1000000000000000,
        vstd::math::abs(d.spec_reflect(n).y.raw as int) <= 0x1000000000000000,
        vstd::math::abs(d.spec_reflect(n).z.raw as int) <= 0x1000000000000000,
{
    lemma_times_one(d.x);
    lemma_times_one(d.y);
    lemma_times_one(d.z);
    lemma_times_neg_one(d.x);
    lemma_times_neg_one(d.y);
    lemma_times_neg_one(d.z);
    lemma_times_zero(d.x);
    lemma_times_zero(d.y);
    lemma_times_zero(d.z);
    let c = d.spec_dot(n);
    lemma_times_two(c);
    let two_c = Fx::spec_from_int(2).spec_times(c);
    lemma_times_commutative(n.x, two_c);
    lemma_times_commutative(n.y, two_c);
    lemma_times_commutative(n.z, two_c);
    lemma_times_one(two_c);
    lemma_times_neg_one(two_c);
    lemma_times_zero(two_c);
    let refl = d.spec_reflect(n);
    lemma_times_one(refl.x);
    lemma_times_one(refl.y);
    lemma_times_one(refl.z);
    lemma_times_neg_one(refl.x);
    lemma_times_neg_one(refl.y);
    lemma_times_neg_one(refl.z);
    lemma_times_zero(refl.x);
    lemma_times_zero(refl.y);
    lemma_times_zero(refl.z);
}

/// An exact instance of the unit-length law: an axis-aligned unit vector
/// normalizes to itself, and its squared length is exactly one. (For
/// general vectors the length of the normalization is one only up to
/// fixed-point rounding, which the test suite checks numerically; very
/// short vectors, whose squared length rounds to a single raw unit, can
/// normalize far from unit length.)
pub proof fn lemma_unit_vector_of_axis_unit(v: Vec3)
    requires
        axis_unit(v),
    ensures
        v.spec_length_squared().raw == 65536,
        v.spec_unit_vector() == v,
        v.spec_unit_vector().spec_length_squared().raw == 65536,
{
    lemma_times_one(Fx { raw: 65536 });
    lemma_times_neg_one(Fx { raw: -65536i64 });
    lemma_times_zero(Fx { raw: 0 });
    lemma_times_commutative(Fx { raw: 0 }, Fx { raw: 65536 });
    lemma_times_commutative(Fx { raw: 0 }, Fx { raw: -65536i64 });
    assert(v.spec_length_squared().raw == 65536);
    assert(v.spec_length().raw == 65536) by {
        assert(65536int * 65536 == 4294967296) by (nonlinear_arith);
        assert(65537int * 65537 == 4295098369) by (nonlinear_arith);
        lemma_int_sqrt_is(4294967296nat, 65536nat);
    }
    assert(Fx::spec_from_int(1).spec_div(Fx { raw: 65536 }).raw == 65536) by {
        crate::fixed::lemma_qdiv_scale_exact(65536);
    }
    lemma_times_one(v.x);
    lemma_times_one(v.y);
    lemma_times_one(v.z);
    lemma_times_commutative(v.x, Fx { raw: 65536 });
    lemma_times_commutative(v.y, Fx { raw: 65536 });
    lemma_times_commutative(v.z, Fx { raw: 65536 });
}

/// Dielectric energy conservation: whatever the branch (total internal
/// reflection, the Schlick coin, or refraction), a dielectric always
/// scatters and its attenuation is exactly white.
pub proof fn lemma_dielectric_attenuation_white(
    ir: Fx,
    r_in: Ray,
    rec: HitRecord,
    seed: u64,
    k: nat,
)
    ensures
        MaterialType::Dielectric(ir).spec_scatter(r_in, rec, seed, k).0 is Some,
        MaterialType::Dielectric(ir).spec_scatter(r_in, rec, seed, k).0->Some_0.albedo == (Vec3 {
            x: Fx { raw: 65536 },
            y: Fx { raw: 65536 },
            z: Fx { raw: 65536 },
        }),
{
}

/// Estimator termination: with no depth left, the estimate is black and no
/// randomness is consumed, whatever the scene and the ray.
pub proof fn lemma_ray_color_depth_zero(r: Ray, world: HittableObject, seed: u64, k: nat)
    ensures
        spec_ray_color(r, world, 0, seed, k).0 == Vec3::spec_zero(),
        spec_ray_color(r, world, 0, seed, k).1 == k,
{
}

/// Reproducibility: any two images that are renders of the same scene,
/// camera and parameters are identical, row for row and pixel for pixel.
pub proof fn lemma_render_reproducible(
    img_a: Seq<Seq<u32>>,
    img_b: Seq<Seq<u32>>,
    world: HittableObject,
    depth: nat,
    width: i64,
    height: i64,
    spp: nat,
    cam: crate::camera::Camera,
)
    requires
        is_render_of(img_a, world, depth, width, height, spp, cam),
        is_render_of(img_b, world, depth, width, height, spp, cam),
    ensures
        img_a == img_b,
{
    assert(img_a =~~= img_b);
}

/// Tone-mapping pure white: a pixel that accumulated exact white over each
/// of its samples maps to channel value 255 in all three channels.
pub proof fn lemma_tone_map_white(n: nat)
    requires
        1 <= n <= 100000,
    ensures
        spec_color_to_bitboi(
            Vec3 {
                x: Fx { raw: (n * 65536) as i64 },
                y: Fx { raw: (n * 65536) as i64 },
                z: Fx { raw: (n * 65536) as i64 },
            },
            n,
        ) == 0xFFFFFFu32,
{
    lemma_channel_white(n);
}

/// One channel of accumulated pure white maps to 255.
proof fn lemma_channel_white(n: nat)
    requires
        1 <= n <= 100000,
    ensures
        spec_channel(Fx { raw: (n * 65536) as i64 }, n) == 255,
{
    let x = Fx { raw: (n * 65536) as i64 };
    let m = (n * 65536) as int;
    let d = Fx::spec_from_int(n as i64);
    assert(d.raw == m);
    assert(qdiv(m * 65536, m) == 65536) by {
        vstd::arithmetic::mul::lemma_mul_strictly_positive(m, 65536);
        vstd::arithmetic::mul::lemma_mul_is_commutative(m, 65536);
        vstd::arithmetic::div_mod::lemma_div_multiples_vanish(65536, m);
        assert(vstd::math::abs(m * 65536) == m * 65536);
        assert(vstd::math::abs(m) == m);
    }
    let scaled = x.spec_div(d);
    assert(scaled.raw == 65536);
    assert(scaled.spec_sqrt().raw == 65536) by {
        assert(65536int * 65536 == 4294967296) by (nonlinear_arith);
        assert(65537int * 65537 == 4295098369) by (nonlinear_arith);
        lemma_int_sqrt_is(4294967296nat, 65536nat);
    }
    let clamped = scaled.spec_sqrt().spec_min(Fx { raw: TONE_CLAMP_RAW });
    assert(clamped.raw == 65470);
    assert(qdiv(65470int * 16777149, 65536) == 16760253) by {
        assert(65470int * 16777149 == 65536 * 16760253 + 4422) by (nonlinear_arith);
        vstd::arithmetic::div_mod::lemma_div_multiples_vanish_fancy(16760253, 4422, 65536);
        assert(vstd::math::abs(65470int * 16777149) == 65470int * 16777149);
        assert(vstd::math::abs(65536int) == 65536);
    }
    assert(spec_channel_num(x, n) == 16760253);
    assert(16760253int / 65536 == 255) by {
        assert(16760253int == 65536 * 255 + 48573);
        vstd::arithmetic::div_mod::lemma_div_multiples_vanish_fancy(255, 48573, 65536);
    }
}

/// Tone-mapping black: a black pixel maps to 0 in all three channels.
pub proof fn lemma_tone_map_black(n: nat)
    requires
        1 <= n <= 100000,
    ensures
        spec_color_to_bitboi(Vec3::spec_zero(), n) == 0u32,
{
    let x = Fx { raw: 0 };
    let d = Fx::spec_from_int(n as i64);
    assert(d.raw == n * 65536);
    assert(qdiv(0int * 65536, d.raw as int) == 0) by {
        assert(0int * 65536 == 0) by (nonlinear_arith);
        assert(vstd::math::abs(0) == 0);
        vstd::arithmetic::div_mod::lemma_div_of0(vstd::math::abs(d.raw as int) as int);
    }
    assert(x.spec_div(d).raw == 0);
    assert(int_sqrt(0) == 0);
    assert(qdiv(0int * 16777149, 65536) == 0) by {
        assert(0int * 16777149 == 0) by (nonlinear_arith);
        vstd::arithmetic::div_mod::lemma_div_of0(65536);
    }
    assert(spec_channel_num(x, n) == 0);
    assert(0int / 65536 == 0) by {
        vstd::arithmetic::div_mod::lemma_div_of0(65536);
    }
}

} // verus!
