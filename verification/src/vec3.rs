//! Three-component fixed-point vectors, used both as points in space and as
//! RGB colors. Every operation returns a new value; each executable method is
//! pinned to a spec twin that states exactly what it computes, including the
//! saturation and truncation of the underlying scalar kernel.

use vstd::prelude::*;

use crate::fixed::{int_sqrt, lemma_int_sqrt_bounds, Fx, FX_ONE};
use crate::rng::SeededRng;
use crate::utils::{random, random_range, spec_random_range};

verus! {

/// How many rejection-sampling candidates are tried before falling back to
/// the zero vector; the odds of exhausting them are astronomically small.
pub const REJECT_TRIES: u32 = 64;

/// A vector (or color) of three fixed-point scalars.
#[derive(Clone, Copy, PartialEq, Eq, Structural, Debug)]
pub struct Vec3 {
    pub x: Fx,
    pub y: Fx,
    pub z: Fx,
}

impl Vec3 {
    pub fn new(x: Fx, y: Fx, z: Fx) -> (r: Vec3)
        ensures
            r == (Vec3 { x, y, z }),
    {
        Vec3 { x, y, z }
    }

    pub fn new_singleton(e: Fx) -> (r: Vec3)
        ensures
            r == (Vec3 { x: e, y: e, z: e }),
    {
        Vec3 { x: e, y: e, z: e }
    }

    /// The zero vector (black, as a color).
    pub fn new_dfl() -> (r: Vec3)
        ensures
            r == Vec3::spec_zero(),
    {
        Vec3 { x: Fx { raw: 0 }, y: Fx { raw: 0 }, z: Fx { raw: 0 } }
    }

    pub open spec fn spec_zero() -> Vec3 {
        Vec3 { x: Fx { raw: 0 }, y: Fx { raw: 0 }, z: Fx { raw: 0 } }
    }

    /// Get the vector's x.
    pub fn x(&self) -> (r: Fx)
        ensures
            r == self.x,
    {
        self.x
    }

    /// Get the vector's y.
    pub fn y(&self) -> (r: Fx)
        ensures
            r == self.y,
    {
        self.y
    }

    /// Get the vector's z.
    pub fn z(&self) -> (r: Fx)
        ensures
            r == self.z,
    {
        self.z
    }

    /// Componentwise sum.
    pub open spec fn spec_plus(self, o: Vec3) -> Vec3 {
        Vec3 { x: self.x.spec_plus(o.x), y: self.y.spec_plus(o.y), z: self.z.spec_plus(o.z) }
    }

    pub fn plus(self, o: Vec3) -> (r: Vec3)
        ensures
            r == self.spec_plus(o),
    {
        Vec3 { x: self.x.plus(o.x), y: self.y.plus(o.y), z: self.z.plus(o.z) }
    }

    /// Componentwise negation.
    pub open spec fn spec_neg(self) -> Vec3 {
        Vec3 { x: self.x.spec_neg(), y: self.y.spec_neg(), z: self.z.spec_neg() }
    }

    pub fn neg(self) -> (r: Vec3)
        ensures
            r == self.spec_neg(),
    {
        Vec3 { x: self.x.neg(), y: self.y.neg(), z: self.z.neg() }
    }

    /// Subtraction, as the sum with the negation.
    pub open spec fn spec_minus(self, o: Vec3) -> Vec3 {
        self.spec_plus(o.spec_neg())
    }

    pub fn minus(self, o: Vec3) -> (r: Vec3)
        ensures
            r == self.spec_minus(o),
    {
        self.plus(o.neg())
    }

    /// Componentwise product.
    pub open spec fn spec_times(self, o: Vec3) -> Vec3 {
        Vec3 { x: self.x.spec_times(o.x), y: self.y.spec_times(o.y), z: self.z.spec_times(o.z) }
    }

    pub fn times(self, o: Vec3) -> (r: Vec3)
        ensures
            r == self.spec_times(o),
    {
        Vec3 { x: self.x.times(o.x), y: self.y.times(o.y), z: self.z.times(o.z) }
    }

    /// The product with a scalar, as the componentwise product with a
    /// singleton vector.
    pub open spec fn spec_scale(self, s: Fx) -> Vec3 {
        self.spec_times(Vec3 { x: s, y: s, z: s })
    }

    pub fn scale(self, s: Fx) -> (r: Vec3)
        ensures
            r == self.spec_scale(s),
    {
        self.times(Vec3::new_singleton(s))
    }

    /// Division by a scalar: the product with its reciprocal.
    pub open spec fn spec_div_scalar(self, s: Fx) -> Vec3
        recommends
            s.raw != 0,
    {
        self.spec_scale(Fx::spec_from_int(1).spec_div(s))
    }

    pub fn div_scalar(self, s: Fx) -> (r: Vec3)
        requires
            s.raw != 0,
        ensures
            r == self.spec_div_scalar(s),
    {
        self.scale(Fx::from_int(1).div(s))
    }

    /// The inner product: the components of the componentwise product,
    /// summed left to right.
    pub open spec fn spec_dot(self, o: Vec3) -> Fx {
        let t = self.spec_times(o);
        t.x.spec_plus(t.y).spec_plus(t.z)
    }

    pub fn dot(self, o: Vec3) -> (r: Fx)
        ensures
            r == self.spec_dot(o),
    {
        let t = self.times(o);
        t.x.plus(t.y).plus(t.z)
    }

    /// The cross product.
    pub open spec fn spec_cross(self, o: Vec3) -> Vec3 {
        Vec3 {
            x: self.y.spec_times(o.z).spec_minus(self.z.spec_times(o.y)),
            y: self.z.spec_times(o.x).spec_minus(self.x.spec_times(o.z)),
            z: self.x.spec_times(o.y).spec_minus(self.y.spec_times(o.x)),
        }
    }

    pub fn cross(self, o: Vec3) -> (r: Vec3)
        ensures
            r == self.spec_cross(o),
    {
        Vec3 {
            x: self.y.times(o.z).minus(self.z.times(o.y)),
            y: self.z.times(o.x).minus(self.x.times(o.z)),
            z: self.x.times(o.y).minus(self.y.times(o.x)),
        }
    }

    /// The squared length: the squares of the components, summed left to right.
    pub open spec fn spec_length_squared(self) -> Fx {
        self.x.spec_times(self.x).spec_plus(self.y.spec_times(self.y)).spec_plus(
            self.z.spec_times(self.z),
        )
    }

    pub fn length_squared(self) -> (r: Fx)
        ensures
            r == self.spec_length_squared(),
    {
        let a = self.x();
        let b = self.y();
        let c = self.z();
        a.times(a).plus(b.times(b)).plus(c.times(c))
    }

    pub open spec fn spec_length(self) -> Fx {
        self.spec_length_squared().spec_sqrt()
    }

    pub fn length(self) -> (r: Fx)
        ensures
            r == self.spec_length(),
    {
        let ls = self.length_squared();
        proof {
            lemma_length_squared_nonneg(self);
        }
        ls.sqrt()
    }

    /// The vector scaled to length one; the caller keeps the squared length
    /// away from zero.
    pub open spec fn spec_unit_vector(self) -> Vec3
        recommends
            self.spec_length_squared().raw != 0,
    {
        self.spec_div_scalar(self.spec_length())
    }

    pub fn unit_vector(self) -> (r: Vec3)
        requires
            self.spec_length_squared().raw != 0,
        ensures
            r == self.spec_unit_vector(),
    {
        let l = self.length();
        proof {
            lemma_length_positive(self);
        }
        self.div_scalar(l)
    }

    /// The unit vector of `self`, or `self` unchanged when its squared
    /// length rounds to zero and no direction can be extracted.
    pub open spec fn spec_unit_dir(self) -> Vec3 {
        if self.spec_length_squared().raw == 0 {
            self
        } else {
            self.spec_unit_vector()
        }
    }

    pub fn unit_dir(self) -> (r: Vec3)
        ensures
            r == self.spec_unit_dir(),
    {
        let ls = self.length_squared();
        if ls.raw == 0 {
            self
        } else {
            self.unit_vector()
        }
    }

    /// Whether the vector is zero in every component; at this fixed-point
    /// resolution that is the degenerate-direction test.
    pub open spec fn spec_near_zero(self) -> bool {
        self.x.raw == 0 && self.y.raw == 0 && self.z.raw == 0
    }

    pub fn near_zero(self) -> (r: bool)
        ensures
            r == self.spec_near_zero(),
    {
        self.x.raw == 0 && self.y.raw == 0 && self.z.raw == 0
    }

    /// The mirror image about a surface normal: `self - 2*dot(self, n)*n`.
    pub open spec fn spec_reflect(self, n: Vec3) -> Vec3 {
        self.spec_minus(n.spec_scale(Fx::spec_from_int(2).spec_times(self.spec_dot(n))))
    }

    pub fn reflect(self, n: Vec3) -> (r: Vec3)
        ensures
            r == self.spec_reflect(n),
    {
        self.minus(n.scale(Fx::from_int(2).times(self.dot(n))))
    }

    /// Snell refraction of the unit direction `self` about the normal `n`,
    /// decomposed into perpendicular and parallel parts.
    pub open spec fn spec_refract(self, n: Vec3, etai_over_etat: Fx) -> Vec3 {
        let one = Fx::spec_from_int(1);
        let cos_theta = n.spec_dot(self.spec_neg()).spec_min(one);
        let r_out_perp = self.spec_plus(n.spec_scale(cos_theta)).spec_scale(etai_over_etat);
        let par_len = one.spec_minus(r_out_perp.spec_length_squared()).spec_abs().spec_sqrt();
        let r_out_parallel = n.spec_scale(par_len.spec_times(Fx::spec_from_int(-1i64)));
        r_out_parallel.spec_plus(r_out_perp)
    }

    pub fn refract(self, n: Vec3, etai_over_etat: Fx) -> (r: Vec3)
        ensures
            r == self.spec_refract(n, etai_over_etat),
    {
        let one = Fx::from_int(1);
        let cos_theta = n.dot(self.neg()).min_fx(one);
        let r_out_perp = self.plus(n.scale(cos_theta)).scale(etai_over_etat);
        let par_len = one.minus(r_out_perp.length_squared()).abs_fx().sqrt();
        let r_out_parallel = n.scale(par_len.times(Fx::from_int(-1)));
        r_out_parallel.plus(r_out_perp)
    }
}

impl Vec3 {
    /// A vector of three uniform draws in `[0, 1)`.
    pub open spec fn spec_random_vec3(seed: u64, k: nat) -> Vec3 {
        Vec3 {
            x: crate::utils::spec_random(seed, k),
            y: crate::utils::spec_random(seed, (k + 1) as nat),
            z: crate::utils::spec_random(seed, (k + 2) as nat),
        }
    }

    pub fn random_vec3(rng: &mut SeededRng) -> (r: Vec3)
        ensures
            r == Vec3::spec_random_vec3(old(rng).seed(), old(rng).idx()),
            final(rng).seed() == old(rng).seed(),
            final(rng).idx() == old(rng).idx() + 3,
    {
        let x = random(rng);
        let y = random(rng);
        let z = random(rng);
        Vec3::new(x, y, z)
    }

    /// A vector of three uniform draws in `[min, max)`.
    pub open spec fn spec_random_vec3_range(min: Fx, max: Fx, seed: u64, k: nat) -> Vec3 {
        Vec3 {
            x: spec_random_range(min, max, seed, k),
            y: spec_random_range(min, max, seed, (k + 1) as nat),
            z: spec_random_range(min, max, seed, (k + 2) as nat),
        }
    }

    pub fn random_vec3_range(min: Fx, max: Fx, rng: &mut SeededRng) -> (r: Vec3)
        ensures
            r == Vec3::spec_random_vec3_range(min, max, old(rng).seed(), old(rng).idx()),
            final(rng).seed() == old(rng).seed(),
            final(rng).idx() == old(rng).idx() + 3,
    {
        let x = random_range(min, max, rng);
        let y = random_range(min, max, rng);
        let z = random_range(min, max, rng);
        Vec3::new(x, y, z)
    }

    /// Rejection sampling for a point inside the unit sphere: candidates in
    /// `[-1, 1)^3` until one has squared length below one, the zero vector
    /// once the fuel runs out. Returns the point and the next draw position.
    pub open spec fn spec_random_in_unit_sphere(seed: u64, k: nat, fuel: nat) -> (Vec3, nat)
        decreases fuel,
    {
        if fuel == 0 {
            (Vec3::spec_zero(), k)
        } else {
            let c = Vec3::spec_random_vec3_range(
                Fx::spec_from_int(-1i64),
                Fx::spec_from_int(1),
                seed,
                k,
            );
            if c.spec_length_squared().raw < FX_ONE {
                (c, (k + 3) as nat)
            } else {
                Vec3::spec_random_in_unit_sphere(seed, (k + 3) as nat, (fuel - 1) as nat)
            }
        }
    }

    /// A point inside the unit sphere.
    pub fn random_in_unit_sphere(rng: &mut SeededRng) -> (r: Vec3)
        ensures
            r == Vec3::spec_random_in_unit_sphere(
                old(rng).seed(),
                old(rng).idx(),
                REJECT_TRIES as nat,
            ).0,
            final(rng).idx() == Vec3::spec_random_in_unit_sphere(
                old(rng).seed(),
                old(rng).idx(),
                REJECT_TRIES as nat,
            ).1,
            final(rng).seed() == old(rng).seed(),
    {
        let mut tries: u32 = 0;
        while tries < REJECT_TRIES
            invariant
                tries <= REJECT_TRIES,
                rng.seed() == old(rng).seed(),
                Vec3::spec_random_in_unit_sphere(old(rng).seed(), old(rng).idx(), REJECT_TRIES as nat)
                    == Vec3::spec_random_in_unit_sphere(
                    old(rng).seed(),
                    rng.idx(),
                    (REJECT_TRIES - tries) as nat,
                ),
            decreases REJECT_TRIES - tries,
        {
            let ghost k = rng.idx();
            let ghost rem = (REJECT_TRIES - tries) as nat;
            let out = Vec3::random_vec3_range(Fx::from_int(-1), Fx::from_int(1), rng);
            let ls = out.length_squared();
            proof {
                assert(Vec3::spec_random_in_unit_sphere(old(rng).seed(), k, rem) == if out.spec_length_squared().raw
                    < FX_ONE {
                    (out, (k + 3) as nat)
                } else {
                    Vec3::spec_random_in_unit_sphere(old(rng).seed(), (k + 3) as nat, (rem - 1) as nat)
                });
            }
            if ls.raw < FX_ONE {
                return out;
            }
            tries = tries + 1;
        }
        Vec3::new_dfl()
    }

    /// A random direction: a point inside the unit sphere, normalized.
    pub open spec fn spec_random_unit_vector(seed: u64, k: nat) -> (Vec3, nat) {
        let p = Vec3::spec_random_in_unit_sphere(seed, k, REJECT_TRIES as nat);
        (p.0.spec_unit_dir(), p.1)
    }

    pub fn random_unit_vector(rng: &mut SeededRng) -> (r: Vec3)
        ensures
            r == Vec3::spec_random_unit_vector(old(rng).seed(), old(rng).idx()).0,
            final(rng).idx() == Vec3::spec_random_unit_vector(old(rng).seed(), old(rng).idx()).1,
            final(rng).seed() == old(rng).seed(),
    {
        let p = Vec3::random_in_unit_sphere(rng);
        p.unit_dir()
    }

    /// A point inside the unit sphere, flipped into the hemisphere of the
    /// given normal.
    pub open spec fn spec_random_in_hemisphere(normal: Vec3, seed: u64, k: nat) -> (Vec3, nat) {
        let p = Vec3::spec_random_in_unit_sphere(seed, k, REJECT_TRIES as nat);
        if p.0.spec_dot(normal).raw > 0 {
            p
        } else {
            (p.0.spec_neg(), p.1)
        }
    }

    pub fn random_in_hemisphere(normal: Vec3, rng: &mut SeededRng) -> (r: Vec3)
        ensures
            r == Vec3::spec_random_in_hemisphere(normal, old(rng).seed(), old(rng).idx()).0,
            final(rng).idx() == Vec3::spec_random_in_hemisphere(
                normal,
                old(rng).seed(),
                old(rng).idx(),
            ).1,
            final(rng).seed() == old(rng).seed(),
    {
        let in_unit_sphere = Vec3::random_in_unit_sphere(rng);
        if in_unit_sphere.dot(normal).raw > 0 {
            in_unit_sphere
        } else {
            in_unit_sphere.neg()
        }
    }

    /// Rejection sampling for a point inside the unit disk of the xy plane,
    /// for lens offsets; the zero vector once the fuel runs out.
    pub open spec fn spec_random_in_unit_disk(seed: u64, k: nat, fuel: nat) -> (Vec3, nat)
        decreases fuel,
    {
        if fuel == 0 {
            (Vec3::spec_zero(), k)
        } else {
            let p = Vec3 {
                x: spec_random_range(Fx::spec_from_int(-1i64), Fx::spec_from_int(1), seed, k),
                y: spec_random_range(
                    Fx::spec_from_int(-1i64),
                    Fx::spec_from_int(1),
                    seed,
                    (k + 1) as nat,
                ),
                z: Fx { raw: 0 },
            };
            if p.spec_length_squared().raw >= FX_ONE {
                Vec3::spec_random_in_unit_disk(seed, (k + 2) as nat, (fuel - 1) as nat)
            } else {
                (p, (k + 2) as nat)
            }
        }
    }

    /// A point inside the unit disk.
    pub fn random_in_unit_disk(rng: &mut SeededRng) -> (r: Vec3)
        ensures
            r == Vec3::spec_random_in_unit_disk(
                old(rng).seed(),
                old(rng).idx(),
                REJECT_TRIES as nat,
            ).0,
            final(rng).idx() == Vec3::spec_random_in_unit_disk(
                old(rng).seed(),
                old(rng).idx(),
                REJECT_TRIES as nat,
            ).1,
            final(rng).seed() == old(rng).seed(),
    {
        let mut tries: u32 = 0;
        while tries < REJECT_TRIES
            invariant
                tries <= REJECT_TRIES,
                rng.seed() == old(rng).seed(),
                Vec3::spec_random_in_unit_disk(old(rng).seed(), old(rng).idx(), REJECT_TRIES as nat)
                    == Vec3::spec_random_in_unit_disk(
                    old(rng).seed(),
                    rng.idx(),
                    (REJECT_TRIES - tries) as nat,
                ),
            decreases REJECT_TRIES - tries,
        {
            let ghost k = rng.idx();
            let ghost rem = (REJECT_TRIES - tries) as nat;
            let a = random_range(Fx::from_int(-1), Fx::from_int(1), rng);
            let b = random_range(Fx::from_int(-1), Fx::from_int(1), rng);
            let p = Vec3::new(a, b, Fx { raw: 0 });
            proof {
                assert(Vec3::spec_random_in_unit_disk(old(rng).seed(), k, rem) == if p.spec_length_squared().raw
                    >= FX_ONE {
                    Vec3::spec_random_in_unit_disk(old(rng).seed(), (k + 2) as nat, (rem - 1) as nat)
                } else {
                    (p, (k + 2) as nat)
                });
            }
            if p.length_squared().raw >= FX_ONE {
                tries = tries + 1;
            } else {
                return p;
            }
        }
        Vec3::new_dfl()
    }
}

/// A squared scalar is non-negative.
pub proof fn lemma_square_nonneg(a: Fx)
    ensures
        a.spec_times(a).raw >= 0,
{
    assert((a.raw as int) * (a.raw as int) >= 0) by (nonlinear_arith);
}

/// A squared length is non-negative.
pub proof fn lemma_length_squared_nonneg(v: Vec3)
    ensures
        v.spec_length_squared().raw >= 0,
{
    lemma_square_nonneg(v.x);
    lemma_square_nonneg(v.y);
    lemma_square_nonneg(v.z);
}

/// A vector whose squared length does not round to zero has a positive length.
pub proof fn lemma_length_positive(v: Vec3)
    requires
        v.spec_length_squared().raw != 0,
    ensures
        v.spec_length().raw > 0,
{
    lemma_length_squared_nonneg(v);
    let n = (v.spec_length_squared().raw * crate::fixed::FX_SCALE) as nat;
    lemma_int_sqrt_bounds(n);
    assert(int_sqrt(n) < 0x10000000000) by (nonlinear_arith)
        requires
            int_sqrt(n) * int_sqrt(n) <= n,
            n < 0x100000000000000000000,
    {
    }
    if int_sqrt(n) == 0 {
        assert(n < 1) by (nonlinear_arith)
            requires
                n < (int_sqrt(n) + 1) * (int_sqrt(n) + 1),
                int_sqrt(n) == 0,
        {
        }
    }
}

} // verus!
