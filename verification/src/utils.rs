//! Scalar helpers: angle conversion, trigonometry, uniform random scalars,
//! and the Schlick reflectance approximation.

use vstd::prelude::*;

use crate::fixed::Fx;
use crate::rng::{rng_stream, SeededRng};

verus! {

/// The raw fixed-point value of pi.
pub const FX_PI_RAW: i64 = 205887;

/// `degrees * pi / 180`.
pub open spec fn spec_degrees_to_radians(degrees: Fx) -> Fx {
    degrees.spec_times(Fx { raw: FX_PI_RAW }).spec_div(Fx::spec_from_int(180))
}

pub fn degrees_to_radians(degrees: Fx) -> (r: Fx)
    ensures
        r == spec_degrees_to_radians(degrees),
{
    degrees.times(Fx { raw: FX_PI_RAW }).div(Fx::from_int(180))
}

/// The uniform draw in `[0, 1)` taken at position `idx` of the stream:
/// the top 16 bits of the 32-bit draw, as a fixed-point fraction.
pub open spec fn spec_random(seed: u64, idx: nat) -> Fx {
    Fx { raw: (rng_stream(seed, idx) as int / 65536) as i64 }
}

/// A uniform scalar in `[0, 1)`.
pub fn random(rng: &mut SeededRng) -> (r: Fx)
    ensures
        r == spec_random(old(rng).seed(), old(rng).idx()),
        final(rng).seed() == old(rng).seed(),
        final(rng).idx() == old(rng).idx() + 1,
        0 <= r.raw < 65536,
{
    let u = rng.next_u32();
    proof {
        assert((u as int) < 65536 * 65536) by (nonlinear_arith)
            requires
                u <= u32::MAX,
        {
        }
        vstd::arithmetic::div_mod::lemma_multiply_divide_lt(u as int, 65536, 65536);
    }
    Fx { raw: (u / 65536u32) as i64 }
}

/// `min + random * (max - min)`.
pub open spec fn spec_random_range(min: Fx, max: Fx, seed: u64, idx: nat) -> Fx {
    min.spec_plus(spec_random(seed, idx).spec_times(max.spec_minus(min)))
}

/// A uniform scalar in `[min, max)`.
pub fn random_range(min: Fx, max: Fx, rng: &mut SeededRng) -> (r: Fx)
    ensures
        r == spec_random_range(min, max, old(rng).seed(), old(rng).idx()),
        final(rng).seed() == old(rng).seed(),
        final(rng).idx() == old(rng).idx() + 1,
{
    let t = random(rng);
    min.plus(t.times(max.minus(min)))
}

/// The fifth power, multiplied out left to right.
pub open spec fn spec_pow5(x: Fx) -> Fx {
    x.spec_times(x).spec_times(x).spec_times(x).spec_times(x)
}

/// The Schlick approximation of the reflectance at a dielectric boundary:
/// `r0 + (1 - r0) * (1 - cosine)^5` with `r0 = ((1 - n) / (1 + n))^2`.
pub open spec fn spec_schlick(cosine: Fx, ref_idx: Fx) -> Fx
    recommends
        ref_idx.raw != -65536,
{
    let one = Fx::spec_from_int(1);
    let r0 = one.spec_minus(ref_idx).spec_div(one.spec_plus(ref_idx));
    let r02 = r0.spec_times(r0);
    r02.spec_plus(one.spec_minus(r02).spec_times(spec_pow5(one.spec_minus(cosine))))
}

pub fn schlick(cosine: Fx, ref_idx: Fx) -> (r: Fx)
    requires
        ref_idx.raw != -65536,
    ensures
        r == spec_schlick(cosine, ref_idx),
{
    let one = Fx::from_int(1);
    let r0 = one.minus(ref_idx).div(one.plus(ref_idx));
    let r02 = r0.times(r0);
    let p = one.minus(cosine);
    let p5 = p.times(p).times(p).times(p).times(p);
    r02.plus(one.minus(r02).times(p5))
}

/// The Maclaurin series of the sine, truncated after the seventh power:
/// `x * (1 - x^2/6 * (1 - x^2/20 * (1 - x^2/42)))`.
pub open spec fn spec_sin(x: Fx) -> Fx {
    let one = Fx::spec_from_int(1);
    let x2 = x.spec_times(x);
    let t3 = one.spec_minus(x2.spec_div(Fx::spec_from_int(42)));
    let t2 = one.spec_minus(x2.spec_times(t3).spec_div(Fx::spec_from_int(20)));
    let t1 = one.spec_minus(x2.spec_times(t2).spec_div(Fx::spec_from_int(6)));
    x.spec_times(t1)
}

/// The sine, by a truncated Maclaurin series; accurate for the small angles
/// the camera construction needs.
pub fn sin_fx(x: Fx) -> (r: Fx)
    ensures
        r == spec_sin(x),
{
    let one = Fx::from_int(1);
    let x2 = x.times(x);
    let t3 = one.minus(x2.div(Fx::from_int(42)));
    let t2 = one.minus(x2.times(t3).div(Fx::from_int(20)));
    let t1 = one.minus(x2.times(t2).div(Fx::from_int(6)));
    x.times(t1)
}

/// The Maclaurin series of the cosine, truncated after the sixth power:
/// `1 - x^2/2 * (1 - x^2/12 * (1 - x^2/30))`.
pub open spec fn spec_cos(x: Fx) -> Fx {
    let one = Fx::spec_from_int(1);
    let x2 = x.spec_times(x);
    let c3 = one.spec_minus(x2.spec_div(Fx::spec_from_int(30)));
    let c2 = one.spec_minus(x2.spec_times(c3).spec_div(Fx::spec_from_int(12)));
    one.spec_minus(x2.spec_times(c2).spec_div(Fx::spec_from_int(2)))
}

/// The cosine, by a truncated Maclaurin series.
pub fn cos_fx(x: Fx) -> (r: Fx)
    ensures
        r == spec_cos(x),
{
    let one = Fx::from_int(1);
    let x2 = x.times(x);
    let c3 = one.minus(x2.div(Fx::from_int(30)));
    let c2 = one.minus(x2.times(c3).div(Fx::from_int(12)));
    one.minus(x2.times(c2).div(Fx::from_int(2)))
}

/// `sin/cos`, saturated where the cosine rounds to zero.
pub open spec fn spec_tan(x: Fx) -> Fx {
    if spec_cos(x).raw == 0 {
        Fx { raw: i64::MAX }
    } else {
        spec_sin(x).spec_div(spec_cos(x))
    }
}

/// The tangent, from the series sine and cosine; a zero cosine saturates.
pub fn tan_fx(x: Fx) -> (r: Fx)
    ensures
        r == spec_tan(x),
{
    let s = sin_fx(x);
    let c = cos_fx(x);
    if c.raw == 0 {
        Fx { raw: i64::MAX }
    } else {
        s.div(c)
    }
}

} // verus!
