//! The light-transport estimator and the sampling, tone-mapping driver.
//!
//! `ray_color` is the Monte Carlo path estimate with a depth cutoff;
//! `render_a_row` accumulates jittered samples per pixel and tone-maps them;
//! `render_scene` renders every row, each from its own generator seeded by
//! the row index, so the whole image is a pure function of scene, camera and
//! parameters.

use vstd::prelude::*;

use crate::camera::{spec_get_ray, Camera};
use crate::fixed::{qdiv, Fx};
use crate::hittable::{lemma_hit_wf, spec_hit, HittableObject};
use crate::ray::Ray;
use crate::rng::SeededRng;
use crate::utils::spec_random;
use crate::vec3::Vec3;

verus! {

/// The shadow-acne epsilon: hits closer than this along the ray are ignored
/// so a scattered ray cannot re-hit its own origin. About one thousandth.
pub const T_MIN_RAW: i64 = 66;

/// The upper end of the search interval: no hit is farther than this.
pub const T_MAX_RAW: i64 = i64::MAX;

/// The background: a vertical gradient from white below to sky blue above,
/// blended by `t = (y + 1) / 2` of the unit direction.
pub open spec fn spec_sky_color(r: Ray) -> Vec3 {
    let t = Fx { raw: 32768 }.spec_times(
        r.dir.spec_unit_dir().y.spec_plus(Fx::spec_from_int(1)),
    );
    let white = Vec3 { x: Fx { raw: 65536 }, y: Fx { raw: 65536 }, z: Fx { raw: 65536 } };
    let blue = Vec3 { x: Fx { raw: 32768 }, y: Fx { raw: 45875 }, z: Fx { raw: 65536 } };
    white.spec_scale(Fx::spec_from_int(1).spec_minus(t)).spec_plus(blue.spec_scale(t))
}

pub fn sky_color(r: Ray) -> (c: Vec3)
    ensures
        c == spec_sky_color(r),
{
    let t = Fx { raw: 32768 }.times(r.dir().unit_dir().y().plus(Fx::from_int(1)));
    let white = Vec3::new_singleton(Fx::from_int(1));
    let blue = Vec3::new(Fx { raw: 32768 }, Fx { raw: 45875 }, Fx { raw: 65536 });
    white.scale(Fx::from_int(1).minus(t)).plus(blue.scale(t))
}

/// The Monte Carlo path estimate: black once the depth is exhausted; the
/// sky on a miss; otherwise the scattered ray's estimate attenuated by the
/// material, or black on absorption. Returns the color and the draw
/// position after the path.
pub open spec fn spec_ray_color(r: Ray, world: HittableObject, depth: nat, seed: u64, k: nat) -> (
    Vec3,
    nat,
)
    decreases depth,
{
    if depth == 0 {
        (Vec3::spec_zero(), k)
    } else {
        match spec_hit(world, r, Fx { raw: T_MIN_RAW }, Fx { raw: T_MAX_RAW }) {
            Option::None => (spec_sky_color(r), k),
            Option::Some(rec) => {
                let s = rec.mat.spec_scatter(r, rec, seed, k);
                match s.0 {
                    Option::None => (Vec3::spec_zero(), s.1),
                    Option::Some(sb) => {
                        let sub = spec_ray_color(sb.ray, world, (depth - 1) as nat, seed, s.1);
                        (sb.albedo.spec_times(sub.0), sub.1)
                    },
                }
            },
        }
    }
}

/// Estimate the color arriving along a ray, following up to `depth` bounces.
pub fn ray_color(r: Ray, world: &HittableObject, depth: usize, rng: &mut SeededRng) -> (c: Vec3)
    requires
        world.wf(),
    ensures
        c == spec_ray_color(r, *world, depth as nat, old(rng).seed(), old(rng).idx()).0,
        final(rng).idx() == spec_ray_color(
            r,
            *world,
            depth as nat,
            old(rng).seed(),
            old(rng).idx(),
        ).1,
        final(rng).seed() == old(rng).seed(),
    decreases depth,
{
    if depth == 0 {
        return Vec3::new_dfl();
    }
    match world.hit(r, Fx { raw: T_MIN_RAW }, Fx { raw: T_MAX_RAW }) {
        None => sky_color(r),
        Some(rec) => {
            proof {
                lemma_hit_wf(*world, r, Fx { raw: T_MIN_RAW }, Fx { raw: T_MAX_RAW });
            }
            let mat = rec.mat_ptr();
            match mat.scatter(r, &rec, rng) {
                None => Vec3::new_dfl(),
                Some(sb) => {
                    let sub = ray_color(sb.ray(), world, depth - 1, rng);
                    sb.albedo().times(sub)
                },
            }
        },
    }
}

/// One sample of one pixel: jitter the viewport coordinates by a draw each,
/// build the camera ray, and run the estimator.
pub open spec fn spec_get_ray_color(
    world: HittableObject,
    depth: nat,
    width: i64,
    height: i64,
    row: i64,
    col: i64,
    cam: Camera,
    seed: u64,
    k: nat,
) -> (Vec3, nat) {
    let su = spec_random(seed, k);
    let sv = spec_random(seed, (k + 1) as nat);
    let u = Fx::spec_from_int(col).spec_plus(su).spec_div(Fx::spec_from_int((width - 1) as i64));
    let v = Fx::spec_from_int(row).spec_plus(sv).spec_div(Fx::spec_from_int((height - 1) as i64));
    let g = spec_get_ray(cam, u, v, seed, (k + 2) as nat);
    spec_ray_color(g.0, world, depth, seed, g.1)
}

/// Do once for each sample of a pixel.
#[verifier::loop_isolation(false)]
pub fn get_ray_color(
    world: &HittableObject,
    max_depth: usize,
    width: usize,
    height: usize,
    curr_row: usize,
    curr_col: usize,
    cam: &Camera,
    rng: &mut SeededRng,
) -> (c: Vec3)
    requires
        world.wf(),
        2 <= width <= 100000,
        2 <= height <= 100000,
        curr_row < height,
        curr_col < width,
    ensures
        c == spec_get_ray_color(
            *world,
            max_depth as nat,
            width as i64,
            height as i64,
            curr_row as i64,
            curr_col as i64,
            *cam,
            old(rng).seed(),
            old(rng).idx(),
        ).0,
        final(rng).idx() == spec_get_ray_color(
            *world,
            max_depth as nat,
            width as i64,
            height as i64,
            curr_row as i64,
            curr_col as i64,
            *cam,
            old(rng).seed(),
            old(rng).idx(),
        ).1,
        final(rng).seed() == old(rng).seed(),
{
    let su = crate::utils::random(rng);
    let sv = crate::utils::random(rng);
    let u = Fx::from_int(curr_col as i64).plus(su).div(Fx::from_int((width - 1) as i64));
    let v = Fx::from_int(curr_row as i64).plus(sv).div(Fx::from_int((height - 1) as i64));
    let r = cam.get_ray(u, v, rng);
    ray_color(r, world, max_depth, rng)
}

/// The raw value of 0.999, the top of the channel clamp.
pub const TONE_CLAMP_RAW: i64 = 65470;

/// The raw value of 255.999, the channel scale.
pub const TONE_SCALE_RAW: i64 = 16777149;

/// The scaled channel before the final truncation: average over the
/// samples, gamma-2 correct by a square root, clamp to `[0, 0.999]`, and
/// scale by 255.999.
pub open spec fn spec_channel_num(x: Fx, spp: nat) -> int {
    let scaled = x.spec_div(Fx::spec_from_int(spp as i64));
    let nonneg = if scaled.raw < 0 {
        Fx { raw: 0 }
    } else {
        scaled
    };
    let clamped = nonneg.spec_sqrt().spec_min(Fx { raw: TONE_CLAMP_RAW });
    clamped.spec_times(Fx { raw: TONE_SCALE_RAW }).raw as int
}

/// One tone-mapped channel: the scaled channel truncated to its integer part.
pub open spec fn spec_channel(x: Fx, spp: nat) -> int {
    spec_channel_num(x, spp) / 65536
}

/// The three tone-mapped channels of a pixel, packed into the low 24 bits
/// of a `u32`: red times 2^16 plus green times 2^8 plus blue.
pub open spec fn spec_color_to_bitboi(c: Vec3, spp: nat) -> u32 {
    (spec_channel(c.x, spp) * 65536 + spec_channel(c.y, spp) * 256 + spec_channel(c.z, spp)) as u32
}

/// A tone-mapped channel is an integer color value: between 0 and 255.
pub proof fn lemma_channel_bounds(x: Fx, spp: nat)
    ensures
        0 <= spec_channel_num(x, spp) <= 16760253,
        0 <= spec_channel(x, spp) <= 255,
{
    let scaled = x.spec_div(Fx::spec_from_int(spp as i64));
    let nonneg = if scaled.raw < 0 {
        Fx { raw: 0 }
    } else {
        scaled
    };
    let n = (nonneg.raw * crate::fixed::FX_SCALE) as nat;
    crate::fixed::lemma_int_sqrt_bounds(n);
    assert(crate::fixed::int_sqrt(n) < 0x10000000000) by (nonlinear_arith)
        requires
            crate::fixed::int_sqrt(n) * crate::fixed::int_sqrt(n) <= n,
            n < 0x100000000000000000000,
    {
    }
    let root = nonneg.spec_sqrt();
    assert(0 <= root.raw < 0x10000000000);
    let clamped = root.spec_min(Fx { raw: TONE_CLAMP_RAW });
    assert(0 <= clamped.raw <= TONE_CLAMP_RAW);
    let m = clamped.raw * TONE_SCALE_RAW;
    assert(0 <= m <= 1098399945030) by (nonlinear_arith)
        requires
            0 <= clamped.raw <= 65470,
            m == clamped.raw * 16777149,
    {
    }
    let q = qdiv(m, 65536);
    assert(q == m / 65536);
    vstd::arithmetic::div_mod::lemma_div_is_ordered(m, 1098399945030, 65536);
    vstd::arithmetic::div_mod::lemma_div_pos_is_pos(m, 65536);
    assert(0 <= q <= 16760253);
    assert(clamped.spec_times(Fx { raw: TONE_SCALE_RAW }).raw == q);
    vstd::arithmetic::div_mod::lemma_div_is_ordered(q, 16760253, 65536);
    vstd::arithmetic::div_mod::lemma_div_pos_is_pos(q, 65536);
}

/// Note colors are three channel bytes in a `u32` with the top byte zero.
#[verifier::loop_isolation(false)]
pub fn color_to_bitboi(c: Vec3, samples_per_pixel: usize) -> (r: u32)
    requires
        1 <= samples_per_pixel <= 100000,
    ensures
        r == spec_color_to_bitboi(c, samples_per_pixel as nat),
{
    let rx = tone_channel(c.x(), samples_per_pixel);
    let gy = tone_channel(c.y(), samples_per_pixel);
    let bz = tone_channel(c.z(), samples_per_pixel);
    proof {
        lemma_channel_bounds(c.x, samples_per_pixel as nat);
        lemma_channel_bounds(c.y, samples_per_pixel as nat);
        lemma_channel_bounds(c.z, samples_per_pixel as nat);
    }
    rx * 65536 + gy * 256 + bz
}

/// The sum of `n` jittered samples of pixel `(row, col)`, and the draw
/// position after them.
pub open spec fn spec_sample_sum(
    world: HittableObject,
    depth: nat,
    width: i64,
    height: i64,
    row: i64,
    col: i64,
    cam: Camera,
    seed: u64,
    k: nat,
    n: nat,
) -> (Vec3, nat)
    decreases n,
{
    if n == 0 {
        (Vec3::spec_zero(), k)
    } else {
        let prev = spec_sample_sum(
            world,
            depth,
            width,
            height,
            row,
            col,
            cam,
            seed,
            k,
            (n - 1) as nat,
        );
        let g = spec_get_ray_color(world, depth, width, height, row, col, cam, seed, prev.1);
        (prev.0.spec_plus(g.0), g.1)
    }
}

/// The packed pixels of the first `c` columns of a row, and the draw
/// position after them.
pub open spec fn spec_row_cols(
    world: HittableObject,
    depth: nat,
    width: i64,
    height: i64,
    row: i64,
    spp: nat,
    cam: Camera,
    seed: u64,
    k: nat,
    c: nat,
) -> (Seq<u32>, nat)
    decreases c,
{
    if c == 0 {
        (Seq::empty(), k)
    } else {
        let prev = spec_row_cols(
            world,
            depth,
            width,
            height,
            row,
            spp,
            cam,
            seed,
            k,
            (c - 1) as nat,
        );
        let s = spec_sample_sum(
            world,
            depth,
            width,
            height,
            row,
            (c - 1) as i64,
            cam,
            seed,
            prev.1,
            spp,
        );
        (prev.0.push(spec_color_to_bitboi(s.0, spp)), s.1)
    }
}

/// The pixels of one row, rendered from the generator seeded by the row
/// index: this is what makes a render reproducible and independent of how
/// rows are scheduled.
pub open spec fn spec_render_row(
    world: HittableObject,
    depth: nat,
    width: i64,
    height: i64,
    row: i64,
    spp: nat,
    cam: Camera,
) -> Seq<u32> {
    spec_row_cols(world, depth, width, height, row, spp, cam, row as u64, 0, width as nat).0
}

/// Render the pixels of one row, accumulating and tone-mapping
/// `samples_per_pixel` jittered samples per column.
#[verifier::loop_isolation(false)]
#[verifier::rlimit(40)]
pub fn render_a_row(
    world: &HittableObject,
    max_depth: usize,
    width: usize,
    height: usize,
    curr_row: usize,
    samples_per_pixel: usize,
    cam: &Camera,
    rng: &mut SeededRng,
) -> (row: Vec<u32>)
    requires
        world.wf(),
        2 <= width <= 100000,
        2 <= height <= 100000,
        curr_row < height,
        1 <= samples_per_pixel <= 100000,
    ensures
        row@ == spec_row_cols(
            *world,
            max_depth as nat,
            width as i64,
            height as i64,
            curr_row as i64,
            samples_per_pixel as nat,
            *cam,
            old(rng).seed(),
            old(rng).idx(),
            width as nat,
        ).0,
        final(rng).idx() == spec_row_cols(
            *world,
            max_depth as nat,
            width as i64,
            height as i64,
            curr_row as i64,
            samples_per_pixel as nat,
            *cam,
            old(rng).seed(),
            old(rng).idx(),
            width as nat,
        ).1,
        final(rng).seed() == old(rng).seed(),
{
    let mut out: Vec<u32> = Vec::new();
    let mut col: usize = 0;
    while col < width
        invariant
            col <= width,
            rng.seed() == old(rng).seed(),
            out@ == spec_row_cols(
                *world,
                max_depth as nat,
                width as i64,
                height as i64,
                curr_row as i64,
                samples_per_pixel as nat,
                *cam,
                old(rng).seed(),
                old(rng).idx(),
                col as nat,
            ).0,
            rng.idx() == spec_row_cols(
                *world,
                max_depth as nat,
                width as i64,
                height as i64,
                curr_row as i64,
                samples_per_pixel as nat,
                *cam,
                old(rng).seed(),
                old(rng).idx(),
                col as nat,
            ).1,
        decreases width - col,
    {
        let acc = sample_pixel(world, max_depth, width, height, curr_row, col, samples_per_pixel, cam, rng);
        let px = color_to_bitboi(acc, samples_per_pixel);
        out.push(px);
        col = col + 1;
    }
    out
}

/// The accumulated (not yet averaged) color of one pixel over the sample
/// count.
#[verifier::loop_isolation(false)]
#[verifier::rlimit(40)]
fn sample_pixel(
    world: &HittableObject,
    max_depth: usize,
    width: usize,
    height: usize,
    curr_row: usize,
    curr_col: usize,
    samples_per_pixel: usize,
    cam: &Camera,
    rng: &mut SeededRng,
) -> (acc: Vec3)
    requires
        world.wf(),
        2 <= width <= 100000,
        2 <= height <= 100000,
        curr_row < height,
        curr_col < width,
    ensures
        acc == spec_sample_sum(
            *world,
            max_depth as nat,
            width as i64,
            height as i64,
            curr_row as i64,
            curr_col as i64,
            *cam,
            old(rng).seed(),
            old(rng).idx(),
            samples_per_pixel as nat,
        ).0,
        final(rng).idx() == spec_sample_sum(
            *world,
            max_depth as nat,
            width as i64,
            height as i64,
            curr_row as i64,
            curr_col as i64,
            *cam,
            old(rng).seed(),
            old(rng).idx(),
            samples_per_pixel as nat,
        ).1,
        final(rng).seed() == old(rng).seed(),
{
    let mut acc = Vec3::new_dfl();
    let mut s: usize = 0;
    while s < samples_per_pixel
        invariant
            s <= samples_per_pixel,
            rng.seed() == old(rng).seed(),
            acc == spec_sample_sum(
                *world,
                max_depth as nat,
                width as i64,
                height as i64,
                curr_row as i64,
                curr_col as i64,
                *cam,
                old(rng).seed(),
                old(rng).idx(),
                s as nat,
            ).0,
            rng.idx() == spec_sample_sum(
                *world,
                max_depth as nat,
                width as i64,
                height as i64,
                curr_row as i64,
                curr_col as i64,
                *cam,
                old(rng).seed(),
                old(rng).idx(),
                s as nat,
            ).1,
        decreases samples_per_pixel - s,
    {
        let c = get_ray_color(world, max_depth, width, height, curr_row, curr_col, cam, rng);
        acc = acc.plus(c);
        s = s + 1;
    }
    acc
}

/// The whole image: each row rendered from its own generator seeded by the
/// row index, rows ordered top of the image first.
pub open spec fn spec_render_scene(
    world: HittableObject,
    depth: nat,
    width: i64,
    height: i64,
    spp: nat,
    cam: Camera,
) -> Seq<Seq<u32>> {
    Seq::new(
        height as nat,
        |i: int|
            spec_render_row(world, depth, width, height, (height - 1 - i) as i64, spp, cam),
    )
}

/// What it means for an image (as a sequence of pixel rows) to be the
/// render of a scene: the right number of rows, each equal to its row's
/// deterministic rendering.
pub open spec fn is_render_of(
    pic: Seq<Seq<u32>>,
    world: HittableObject,
    depth: nat,
    width: i64,
    height: i64,
    spp: nat,
    cam: Camera,
) -> bool {
    &&& pic.len() == height
    &&& forall|i: int|
        0 <= i < height ==> pic[i] == spec_render_row(
            world,
            depth,
            width,
            height,
            (height - 1 - i) as i64,
            spp,
            cam,
        )
}

/// Render the whole image row by row. Each row's sample loop runs from a
/// generator seeded by its row index alone, so the result does not depend
/// on the order the rows are computed in.
#[verifier::loop_isolation(false)]
pub fn render_scene(
    world: &HittableObject,
    max_depth: usize,
    width: usize,
    height: usize,
    samples_per_pixel: usize,
    cam: Camera,
) -> (pic: Vec<Vec<u32>>)
    requires
        world.wf(),
        2 <= width <= 100000,
        2 <= height <= 100000,
        1 <= samples_per_pixel <= 100000,
    ensures
        pic@.len() == height,
        forall|i: int|
            0 <= i < height ==> #[trigger] pic@[i]@ == spec_render_scene(
                *world,
                max_depth as nat,
                width as i64,
                height as i64,
                samples_per_pixel as nat,
                cam,
            )[i],
        is_render_of(
            Seq::new(height as nat, |i: int| pic@[i]@),
            *world,
            max_depth as nat,
            width as i64,
            height as i64,
            samples_per_pixel as nat,
            cam,
        ),
{
    let mut pic: Vec<Vec<u32>> = Vec::new();
    let mut i: usize = 0;
    while i < height
        invariant
            i <= height,
            pic@.len() == i,
            forall|j: int|
                0 <= j < i ==> #[trigger] pic@[j]@ == spec_render_row(
                    *world,
                    max_depth as nat,
                    width as i64,
                    height as i64,
                    (height - 1 - j) as i64,
                    samples_per_pixel as nat,
                    cam,
                ),
        decreases height - i,
    {
        let row = height - 1 - i;
        let mut rng = SeededRng::from_seed(row as u64);
        let rowpix = render_a_row(
            world,
            max_depth,
            width,
            height,
            row,
            samples_per_pixel,
            &cam,
            &mut rng,
        );
        pic.push(rowpix);
        i = i + 1;
    }
    pic
}

/// One tone-mapped channel as an integer color value.
fn tone_channel(x: Fx, spp: usize) -> (r: u32)
    requires
        1 <= spp <= 100000,
    ensures
        r as int == spec_channel(x, spp as nat),
{
    let scaled = x.div(Fx::from_int(spp as i64));
    let nonneg = if scaled.raw < 0 {
        Fx { raw: 0 }
    } else {
        scaled
    };
    let clamped = nonneg.sqrt().min_fx(Fx { raw: TONE_CLAMP_RAW });
    let num = clamped.times(Fx { raw: TONE_SCALE_RAW }).raw;
    proof {
        lemma_channel_bounds(x, spp as nat);
        assert(num == spec_channel_num(x, spp as nat));
    }
    (num / 65536) as u32
}

} // verus!
