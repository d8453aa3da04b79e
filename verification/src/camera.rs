//! The camera: immutable configuration derived once from the viewing
//! parameters, and the pure mapping from image-plane coordinates (plus a
//! lens sample for depth of field) to world-space rays.

use vstd::prelude::*;

use crate::fixed::Fx;
use crate::ray::Ray;
use crate::rng::SeededRng;
use crate::utils::{spec_degrees_to_radians, spec_tan, degrees_to_radians, tan_fx};
use crate::vec3::{Vec3, REJECT_TRIES};

verus! {

#[derive(Clone, Copy, PartialEq, Eq, Structural, Debug)]
pub struct Camera {
    pub origin: Vec3,
    pub horizontal: Vec3,
    pub vertical: Vec3,
    pub lower_left_corner: Vec3,
    pub u: Vec3,
    pub v: Vec3,
    pub w: Vec3,
    pub lens_radius: Fx,
}

/// The camera derived from eye position, look-at target, up vector, vertical
/// field of view in degrees, aspect ratio, aperture and focus distance.
/// Degenerate directions (a zero eye-target offset, or an up vector parallel
/// to the view axis) collapse to zero basis vectors instead of dividing by
/// zero; callers owe non-degenerate inputs for a meaningful camera.
pub open spec fn spec_camera_new(
    lookfrom: Vec3,
    lookat: Vec3,
    vup: Vec3,
    vfov: Fx,
    aspect_ratio: Fx,
    aperture: Fx,
    focus_dist: Fx,
) -> Camera {
    let theta = spec_degrees_to_radians(vfov);
    let h = spec_tan(theta.spec_div(Fx::spec_from_int(2)));
    let viewport_height = Fx::spec_from_int(2).spec_times(h);
    let viewport_width = aspect_ratio.spec_times(viewport_height);
    let w = lookfrom.spec_minus(lookat).spec_unit_dir();
    let u = vup.spec_cross(w).spec_unit_dir();
    let v = w.spec_cross(u);
    let origin = lookfrom;
    let horizontal = u.spec_scale(viewport_width).spec_scale(focus_dist);
    let vertical = v.spec_scale(viewport_height).spec_scale(focus_dist);
    let lower_left_corner = origin.spec_minus(
        horizontal.spec_div_scalar(Fx::spec_from_int(2)),
    ).spec_minus(vertical.spec_div_scalar(Fx::spec_from_int(2))).spec_minus(
        w.spec_scale(focus_dist),
    );
    let lens_radius = aperture.spec_div(Fx::spec_from_int(2));
    Camera { origin, horizontal, vertical, lower_left_corner, u, v, w, lens_radius }
}

/// The ray of the viewport point `(u, v)`, with a random lens offset for
/// depth of field, and the draw position after the lens sample.
pub open spec fn spec_get_ray(cam: Camera, u: Fx, v: Fx, seed: u64, k: nat) -> (Ray, nat) {
    let p = Vec3::spec_random_in_unit_disk(seed, k, REJECT_TRIES as nat);
    let rd = p.0.spec_scale(cam.lens_radius);
    let offset = cam.u.spec_scale(rd.x).spec_plus(cam.v.spec_scale(rd.y));
    (
        Ray {
            orig: cam.origin.spec_plus(offset),
            dir: cam.lower_left_corner.spec_plus(cam.horizontal.spec_scale(u)).spec_plus(
                cam.vertical.spec_scale(v),
            ).spec_minus(cam.origin).spec_minus(offset),
        },
        p.1,
    )
}

impl Camera {
    pub fn new(
        lookfrom: Vec3,
        lookat: Vec3,
        vup: Vec3,
        vfov: Fx,
        aspect_ratio: Fx,
        aperture: Fx,
        focus_dist: Fx,
    ) -> (r: Camera)
        ensures
            r == spec_camera_new(lookfrom, lookat, vup, vfov, aspect_ratio, aperture, focus_dist),
    {
        let theta = degrees_to_radians(vfov);
        let h = tan_fx(theta.div(Fx::from_int(2)));
        let viewport_height = Fx::from_int(2).times(h);
        let viewport_width = aspect_ratio.times(viewport_height);

        let w = lookfrom.minus(lookat).unit_dir();
        let u = vup.cross(w).unit_dir();
        let v = w.cross(u);

        let origin = lookfrom;
        let horizontal = u.scale(viewport_width).scale(focus_dist);
        let vertical = v.scale(viewport_height).scale(focus_dist);
        let lower_left_corner = origin.minus(horizontal.div_scalar(Fx::from_int(2))).minus(
            vertical.div_scalar(Fx::from_int(2)),
        ).minus(w.scale(focus_dist));
        let lens_radius = aperture.div(Fx::from_int(2));
        Camera { origin, horizontal, vertical, lower_left_corner, u, v, w, lens_radius }
    }

    /// The pinhole camera looking down the negative z axis from the origin.
    pub open spec fn spec_new_dfl(aspect_ratio: Fx) -> Camera {
        Camera::spec_axis_aligned(aspect_ratio, Vec3::spec_zero())
    }

    /// An axis-aligned pinhole camera at the given origin.
    pub open spec fn spec_axis_aligned(aspect_ratio: Fx, origin: Vec3) -> Camera {
        let viewport_height = Fx::spec_from_int(2);
        let viewport_width = aspect_ratio.spec_times(viewport_height);
        let focal_length = Fx::spec_from_int(1);
        let horizontal = Vec3 { x: viewport_width, y: Fx { raw: 0 }, z: Fx { raw: 0 } };
        let vertical = Vec3 { x: Fx { raw: 0 }, y: viewport_height, z: Fx { raw: 0 } };
        let lower_left_corner = origin.spec_minus(
            horizontal.spec_div_scalar(Fx::spec_from_int(2)),
        ).spec_minus(vertical.spec_div_scalar(Fx::spec_from_int(2))).spec_minus(
            Vec3 { x: Fx { raw: 0 }, y: Fx { raw: 0 }, z: focal_length },
        );
        let w = Vec3 { x: Fx { raw: 0 }, y: Fx { raw: 0 }, z: Fx::spec_from_int(-1i64) };
        let u = Vec3 { x: Fx::spec_from_int(-1i64), y: Fx { raw: 0 }, z: Fx { raw: 0 } };
        let v = w.spec_cross(u);
        Camera {
            origin,
            horizontal,
            vertical,
            lower_left_corner,
            u,
            v,
            w,
            lens_radius: Fx { raw: 0 },
        }
    }

    pub fn new_dfl(aspect_ratio: Fx) -> (r: Camera)
        ensures
            r == Camera::spec_new_dfl(aspect_ratio),
    {
        Camera::axis_aligned(aspect_ratio, Vec3::new_dfl())
    }

    /// The axis-aligned debug camera, two units up the z axis.
    pub fn new_debug(aspect_ratio: Fx) -> (r: Camera)
        ensures
            r == Camera::spec_axis_aligned(
                aspect_ratio,
                Vec3 {
                    x: Fx { raw: 0 },
                    y: Fx { raw: 0 },
                    z: Fx::spec_from_int(2),
                },
            ),
    {
        Camera::axis_aligned(aspect_ratio, Vec3::new(Fx { raw: 0 }, Fx { raw: 0 }, Fx::from_int(2)))
    }

    fn axis_aligned(aspect_ratio: Fx, origin: Vec3) -> (r: Camera)
        ensures
            r == Camera::spec_axis_aligned(aspect_ratio, origin),
    {
        let viewport_height = Fx::from_int(2);
        let viewport_width = aspect_ratio.times(viewport_height);
        let focal_length = Fx::from_int(1);
        let zero = Fx { raw: 0 };
        let horizontal = Vec3::new(viewport_width, zero, zero);
        let vertical = Vec3::new(zero, viewport_height, zero);
        let lower_left_corner = origin.minus(horizontal.div_scalar(Fx::from_int(2))).minus(
            vertical.div_scalar(Fx::from_int(2)),
        ).minus(Vec3::new(zero, zero, focal_length));
        let w = Vec3::new(zero, zero, Fx::from_int(-1));
        let u = Vec3::new(Fx::from_int(-1), zero, zero);
        let v = w.cross(u);
        Camera {
            origin,
            horizontal,
            vertical,
            lower_left_corner,
            u,
            v,
            w,
            lens_radius: zero,
        }
    }

    /// The showcase camera: eye at (13, 2, 3) looking at the origin, a 20
    /// degree field of view, a 0.1 aperture and a focus distance of 10.
    pub fn new_random(aspect_ratio: Fx) -> (r: Camera)
        ensures
            r == spec_camera_new(
                Vec3 { x: Fx::spec_from_int(13), y: Fx::spec_from_int(2), z: Fx::spec_from_int(3) },
                Vec3::spec_zero(),
                Vec3 { x: Fx { raw: 0 }, y: Fx::spec_from_int(1), z: Fx { raw: 0 } },
                Fx::spec_from_int(20),
                aspect_ratio,
                Fx { raw: 6554 },
                Fx::spec_from_int(10),
            ),
    {
        let zero = Fx { raw: 0 };
        Camera::new(
            Vec3::new(Fx::from_int(13), Fx::from_int(2), Fx::from_int(3)),
            Vec3::new_dfl(),
            Vec3::new(zero, Fx::from_int(1), zero),
            Fx::from_int(20),
            aspect_ratio,
            Fx { raw: 6554 },
            Fx::from_int(10),
        )
    }

    /// Get the camera's origin.
    pub fn origin(&self) -> (r: Vec3)
        ensures
            r == self.origin,
    {
        self.origin
    }

    /// Get the camera's lower left corner.
    pub fn lower_left_corner(&self) -> (r: Vec3)
        ensures
            r == self.lower_left_corner,
    {
        self.lower_left_corner
    }

    /// Get the camera's horizontal extent.
    pub fn horizontal(&self) -> (r: Vec3)
        ensures
            r == self.horizontal,
    {
        self.horizontal
    }

    /// Get the camera's vertical extent.
    pub fn vertical(&self) -> (r: Vec3)
        ensures
            r == self.vertical,
    {
        self.vertical
    }

    /// The ray through viewport point `(u, v)`, jittered by a lens sample.
    pub fn get_ray(&self, u: Fx, v: Fx, rng: &mut SeededRng) -> (r: Ray)
        ensures
            r == spec_get_ray(*self, u, v, old(rng).seed(), old(rng).idx()).0,
            final(rng).idx() == spec_get_ray(*self, u, v, old(rng).seed(), old(rng).idx()).1,
            final(rng).seed() == old(rng).seed(),
    {
        let rd = Vec3::random_in_unit_disk(rng).scale(self.lens_radius);
        let offset = self.u().scale(rd.x()).plus(self.v().scale(rd.y()));
        Ray::new(
            self.origin().plus(offset),
            self.lower_left_corner().plus(self.horizontal().scale(u)).plus(
                self.vertical().scale(v),
            ).minus(self.origin()).minus(offset),
        )
    }

    /// Get the camera's lens radius.
    pub fn lens_radius(&self) -> (r: Fx)
        ensures
            r == self.lens_radius,
    {
        self.lens_radius
    }

    /// Get the camera's u basis vector.
    pub fn u(&self) -> (r: Vec3)
        ensures
            r == self.u,
    {
        self.u
    }

    /// Get the camera's v basis vector.
    pub fn v(&self) -> (r: Vec3)
        ensures
            r == self.v,
    {
        self.v
    }
}

} // verus!
