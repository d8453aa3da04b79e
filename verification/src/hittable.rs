//! Geometry and intersection: the hit record, the closed union of
//! primitives (a sphere, or a list of primitives), and the nearest-hit
//! query over a parametric interval.

use vstd::prelude::*;

use crate::fixed::Fx;
use crate::material::MaterialType;
use crate::ray::Ray;
use crate::vec3::Vec3;

verus! {

/// The outcome of a successful intersection: the hit point, the
/// face-corrected normal, the parametric distance, the material of the
/// surface (copied by value into the record), and whether the ray came from
/// outside the surface.
#[derive(Clone, Copy, PartialEq, Eq, Structural, Debug)]
pub struct HitRecord {
    pub p: Vec3,
    pub t: Fx,
    pub normal: Vec3,
    pub mat: MaterialType,
    pub front_face: bool,
}

/// The face flag and corrected normal for a ray and an outward normal: the
/// hit is a front face when the ray runs against the outward normal, which
/// is flipped otherwise.
pub open spec fn spec_face_normal(r: Ray, outward_normal: Vec3) -> (bool, Vec3) {
    let front = r.dir.spec_dot(outward_normal).raw < 0;
    (
        front,
        if front {
            outward_normal
        } else {
            outward_normal.spec_neg()
        },
    )
}

impl HitRecord {
    pub fn new(p: Vec3, normal: Vec3, mat: MaterialType, t: Fx, front_face: bool) -> (r:
        HitRecord)
        ensures
            r == (HitRecord { p, t, normal, mat, front_face }),
    {
        HitRecord { p, t, normal, mat, front_face }
    }

    /// Get the hit record's normal.
    pub fn normal(&self) -> (r: Vec3)
        ensures
            r == self.normal,
    {
        self.normal
    }

    /// Get the hit record's p.
    pub fn p(&self) -> (r: Vec3)
        ensures
            r == self.p,
    {
        self.p
    }

    /// Get if the hit record is a front face.
    pub fn front_face(&self) -> (r: bool)
        ensures
            r == self.front_face,
    {
        self.front_face
    }

    /// Set the hit record's t.
    pub fn set_t(&mut self, t: Fx)
        ensures
            *final(self) == (HitRecord { t, ..*old(self) }),
    {
        self.t = t;
    }

    /// Set the hit record's p.
    pub fn set_p(&mut self, p: Vec3)
        ensures
            *final(self) == (HitRecord { p, ..*old(self) }),
    {
        self.p = p;
    }

    /// Get the hit record's t.
    pub fn t(&self) -> (r: Fx)
        ensures
            r == self.t,
    {
        self.t
    }

    /// Set the hit record's normal.
    pub fn set_normal(&mut self, normal: Vec3)
        ensures
            *final(self) == (HitRecord { normal, ..*old(self) }),
    {
        self.normal = normal;
    }

    /// Set the hit record's front face.
    pub fn set_front_face(&mut self, front_face: bool)
        ensures
            *final(self) == (HitRecord { front_face, ..*old(self) }),
    {
        self.front_face = front_face;
    }

    /// Set the face flag and the face-corrected normal from an outward normal.
    pub fn set_face_normal(&mut self, r: &Ray, outward_normal: &Vec3)
        ensures
            final(self).front_face == spec_face_normal(*r, *outward_normal).0,
            final(self).normal == spec_face_normal(*r, *outward_normal).1,
            final(self).p == old(self).p,
            final(self).t == old(self).t,
            final(self).mat == old(self).mat,
    {
        let front = r.dir().dot(*outward_normal).raw < 0;
        self.set_front_face(front);
        let n = if self.front_face {
            *outward_normal
        } else {
            outward_normal.neg()
        };
        self.set_normal(n);
    }

    /// Get the hit record's material.
    pub fn mat_ptr(&self) -> (r: MaterialType)
        ensures
            r == self.mat,
    {
        self.mat
    }
}

/// A primitive: a sphere (center, radius, material), or a list of
/// primitives queried together.
pub enum HittableObject {
    Sphere(Vec3, Fx, MaterialType),
    HittableList(Vec<HittableObject>),
}

/// The hit record a sphere produces at parametric distance `t`.
pub open spec fn spec_sphere_record(center: Vec3, radius: Fx, mat: MaterialType, r: Ray, t: Fx)
    -> HitRecord
    recommends
        radius.raw != 0,
{
    let p = r.spec_at(t);
    let outward = p.spec_minus(center).spec_div_scalar(radius);
    let fn_pair = spec_face_normal(r, outward);
    HitRecord { p, t, normal: fn_pair.1, mat, front_face: fn_pair.0 }
}

/// The nearest sphere intersection in the open-closed interval
/// `(tmin, tmax]`: solve the quadratic for the ray-center offset, test the
/// smaller root first, and reject degenerate rays (zero squared-length
/// direction) and degenerate spheres (zero radius), which admit no normal.
pub open spec fn spec_sphere_hit(
    center: Vec3,
    radius: Fx,
    mat: MaterialType,
    r: Ray,
    tmin: Fx,
    tmax: Fx,
) -> Option<HitRecord> {
    let oc = r.orig.spec_minus(center);
    let a = r.dir.spec_length_squared();
    let half_b = oc.spec_dot(r.dir);
    let c = oc.spec_length_squared().spec_minus(radius.spec_times(radius));
    let discr = half_b.spec_times(half_b).spec_minus(a.spec_times(c));
    if a.raw == 0 || radius.raw == 0 || discr.raw < 0 {
        None
    } else {
        let sqrtd = discr.spec_sqrt();
        let root1 = half_b.spec_neg().spec_minus(sqrtd).spec_div(a);
        let root2 = half_b.spec_neg().spec_plus(sqrtd).spec_div(a);
        if tmin.raw < root1.raw && root1.raw <= tmax.raw {
            Some(spec_sphere_record(center, radius, mat, r, root1))
        } else if tmin.raw < root2.raw && root2.raw <= tmax.raw {
            Some(spec_sphere_record(center, radius, mat, r, root2))
        } else {
            None
        }
    }
}

/// The nearest hit over the first `n` children of a list: fold the
/// children's hits, keeping the smaller `t`; ties keep the earlier child.
pub open spec fn spec_list_hit(s: Seq<HittableObject>, n: int, r: Ray, tmin: Fx, tmax: Fx)
    -> Option<HitRecord>
    decreases s, n,
{
    if n <= 0 || n > s.len() {
        None
    } else {
        let prev = spec_list_hit(s, n - 1, r, tmin, tmax);
        let cur = spec_hit(s[n - 1], r, tmin, tmax);
        match cur {
            Option::None => prev,
            Option::Some(h) => match prev {
                Option::None => Option::Some(h),
                Option::Some(ph) => if ph.t.raw > h.t.raw {
                    Option::Some(h)
                } else {
                    Option::Some(ph)
                },
            },
        }
    }
}

/// The nearest hit of a primitive in `(tmin, tmax]`.
pub open spec fn spec_hit(obj: HittableObject, r: Ray, tmin: Fx, tmax: Fx) -> Option<HitRecord>
    decreases obj,
{
    match obj {
        HittableObject::Sphere(center, radius, mat) => spec_sphere_hit(
            center,
            radius,
            mat,
            r,
            tmin,
            tmax,
        ),
        HittableObject::HittableList(v) => spec_list_hit(v@, v@.len() as int, r, tmin, tmax),
    }
}

impl HittableObject {
    /// The first `n` children are all well-formed.
    pub open spec fn wf_list(s: Seq<HittableObject>, n: int) -> bool
        decreases s, n,
    {
        if n <= 0 || n > s.len() {
            true
        } else {
            HittableObject::wf_list(s, n - 1) && s[n - 1].wf()
        }
    }

    /// Every material in the scene is one the scattering rule is defined on.
    pub open spec fn wf(self) -> bool
        decreases self,
    {
        match self {
            HittableObject::Sphere(_, _, mat) => mat.wf(),
            HittableObject::HittableList(v) => HittableObject::wf_list(v@, v@.len() as int),
        }
    }

    /// The nearest hit of this primitive in the interval `(tmin, tmax]`.
    pub fn hit(&self, r: Ray, tmin: Fx, tmax: Fx) -> (res: Option<HitRecord>)
        ensures
            res == spec_hit(*self, r, tmin, tmax),
        decreases *self,
    {
        match self {
            HittableObject::Sphere(center, radius, mat) => {
                let oc = r.orig().minus(*center);
                let a = r.dir().length_squared();
                let half_b = oc.dot(r.dir());
                let c = oc.length_squared().minus(radius.times(*radius));
                let discr = half_b.times(half_b).minus(a.times(c));
                if a.raw == 0 || radius.raw == 0 || discr.raw < 0 {
                    None
                } else {
                    let sqrtd = discr.sqrt();
                    let root1 = half_b.neg().minus(sqrtd).div(a);
                    let root2 = half_b.neg().plus(sqrtd).div(a);
                    let root = if tmin.raw < root1.raw && root1.raw <= tmax.raw {
                        Some(root1)
                    } else if tmin.raw < root2.raw && root2.raw <= tmax.raw {
                        Some(root2)
                    } else {
                        None
                    };
                    match root {
                        None => None,
                        Some(t) => {
                            let p = r.at(t);
                            let outward = p.minus(*center).div_scalar(*radius);
                            let front = r.dir().dot(outward).raw < 0;
                            let normal = if front {
                                outward
                            } else {
                                outward.neg()
                            };
                            Some(HitRecord { p, t, normal, mat: *mat, front_face: front })
                        },
                    }
                }
            },
            HittableObject::HittableList(v) => {
                let mut closest: Option<HitRecord> = None;
                let mut i: usize = 0;
                while i < v.len()
                    invariant
                        i <= v.len(),
                        *self is HittableList,
                        self->HittableList_0 == *v,
                        closest == spec_list_hit(v@, i as int, r, tmin, tmax),
                    decreases v.len() - i,
                {
                    proof {
                        assert(self->HittableList_0 == *v);
                        assert(decreases_to!(*self => self->HittableList_0));
                        assert(decreases_to!(*v => v@));
                        assert(decreases_to!(v@ => v@[i as int]));
                    }
                    let cur = v[i].hit(r, tmin, tmax);
                    closest = match cur {
                        None => closest,
                        Some(h) => match closest {
                            None => Some(h),
                            Some(ph) => if ph.t.raw > h.t.raw {
                                Some(h)
                            } else {
                                Some(ph)
                            },
                        },
                    };
                    i = i + 1;
                }
                closest
            },
        }
    }
}

/// A hit found in a well-formed scene carries a well-formed material.
pub proof fn lemma_list_hit_wf(s: Seq<HittableObject>, n: int, r: Ray, tmin: Fx, tmax: Fx)
    requires
        HittableObject::wf_list(s, n),
        spec_list_hit(s, n, r, tmin, tmax) is Some,
    ensures
        spec_list_hit(s, n, r, tmin, tmax)->Some_0.mat.wf(),
    decreases s, n,
{
    if n <= 0 || n > s.len() {
    } else {
        let prev = spec_list_hit(s, n - 1, r, tmin, tmax);
        let cur = spec_hit(s[n - 1], r, tmin, tmax);
        if cur is Some {
            lemma_hit_wf(s[n - 1], r, tmin, tmax);
        }
        if prev is Some {
            lemma_list_hit_wf(s, n - 1, r, tmin, tmax);
        }
    }
}

/// A hit found in a well-formed scene carries a well-formed material.
pub proof fn lemma_hit_wf(obj: HittableObject, r: Ray, tmin: Fx, tmax: Fx)
    requires
        obj.wf(),
        spec_hit(obj, r, tmin, tmax) is Some,
    ensures
        spec_hit(obj, r, tmin, tmax)->Some_0.mat.wf(),
    decreases obj,
{
    match obj {
        HittableObject::Sphere(..) => {
        },
        HittableObject::HittableList(v) => {
            lemma_list_hit_wf(v@, v@.len() as int, r, tmin, tmax);
        },
    }
}

} // verus!
