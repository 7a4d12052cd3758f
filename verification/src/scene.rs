//! The scene: a camera transform, spheres, lights and an ambient colour,
//! with the shading trace and the rasterising render loop.

use vstd::prelude::*;
use crate::fixed::{ONE, in_band, chan_byte_v, chan_byte};
use crate::vec3::{V3, V3v, v3_ok, v3_add_v, v3_sub_v, v3_cmul_v, v3_scale_v, v3_dot_v,
    v3_normalize_v};
use crate::mat4::{M4, M4v, m4_ok, det_v};
use crate::ray::{Ray, Rayv, ray_ok, point_at_v, through_screen_v};
use crate::sphere::{Sphere, sphere_ok, intersect_v};

verus! {

/// The fixed diffuse colour applied to the Lambertian term.
pub open spec fn diffuse_v() -> V3v {
    V3v { x: 32768, y: 26214, z: 32768 }
}

/// The nearest hit among the first `n` spheres: index and hit parameter
/// of the sphere with the strictly smallest parameter seen so far, so an
/// earlier sphere wins a tie.
pub open spec fn closest_upto(spheres: Seq<Sphere>, r: Rayv, n: int) -> Option<(int, int)>
    decreases n,
{
    if n <= 0 {
        None
    } else {
        let prev = closest_upto(spheres, r, n - 1);
        match intersect_v(spheres[n - 1]@, r) {
            Some(t) => match prev {
                None => Some((n - 1, t)),
                Some(p) => if t < p.1 { Some((n - 1, t)) } else { prev },
            },
            None => prev,
        }
    }
}

/// Whether some sphere other than `hit` (compared structurally) blocks
/// the shadow ray `sr`.
pub open spec fn occluded_v(spheres: Seq<Sphere>, hit: Sphere, sr: Rayv) -> bool {
    exists|k: int|
        0 <= k < spheres.len() && spheres[k] != hit
            && (#[trigger] intersect_v(spheres[k]@, sr)) is Some
}

/// The shadow ray from the hit point `p` toward a light: the direction is
/// normalised once to aim at the light and once more when the ray itself
/// is built.
pub open spec fn shadow_ray_v(p: V3v, light: Sphere) -> Rayv {
    Rayv { origin: p, dir: v3_normalize_v(v3_normalize_v(v3_sub_v(light@.center, p))) }
}

/// What tracing a ray returns: the ambient colour when nothing is hit or
/// no light exists; otherwise, for the first light only, the hit colour
/// modulated by ambient alone when the light is occluded, and by ambient
/// plus the diffuse Lambertian term when it is not.
pub open spec fn trace_v(spheres: Seq<Sphere>, lights: Seq<Sphere>, ambient: V3v, r: Rayv) -> V3v {
    match closest_upto(spheres, r, spheres.len() as int) {
        None => ambient,
        Some(hit) => {
            if lights.len() == 0 {
                ambient
            } else {
                let hs = spheres[hit.0];
                let light = lights[0];
                let p = point_at_v(r, hit.1);
                let ldir = v3_normalize_v(v3_sub_v(light@.center, p));
                let sr = shadow_ray_v(p, light);
                if occluded_v(spheres, hs, sr) {
                    v3_cmul_v(hs@.color, ambient)
                } else {
                    let nrm = v3_normalize_v(v3_sub_v(p, hs@.center));
                    let dl = v3_dot_v(nrm, ldir);
                    let lam = if dl < 0 { 0 } else { dl };
                    v3_cmul_v(hs@.color, v3_add_v(ambient, v3_scale_v(diffuse_v(), lam)))
                }
            }
        },
    }
}

/// A scene that is ready to render: camera and ambient in band, every
/// sphere and light well formed.
pub open spec fn scene_ok(s: Scene) -> bool {
    &&& m4_ok(s.camera@)
    &&& v3_ok(s.ambient@)
    &&& forall|i: int| 0 <= i < s.spheres@.len() ==> sphere_ok(#[trigger] s.spheres@[i]@)
    &&& forall|i: int| 0 <= i < s.lights@.len() ==> sphere_ok(#[trigger] s.lights@[i]@)
}

/// The colour traced through pixel `(x, y)` of a `w` by `h` screen;
/// meaningful when the camera transform is invertible (otherwise the
/// ambient colour stands in, a case `render` never reaches).
#[verifier::opaque]
pub open spec fn pixel_color_v(
    camera: M4v, spheres: Seq<Sphere>, lights: Seq<Sphere>, ambient: V3v,
    x: int, y: int, w: int, h: int,
) -> V3v {
    match through_screen_v(x * (ONE as int), y * (ONE as int), w * (ONE as int),
        h * (ONE as int), camera) {
        None => ambient,
        Some(rv) => trace_v(spheres, lights, ambient, rv),
    }
}

/// The three bytes of pixel `(x, y)` inside a row-major image.
#[verifier::opaque]
pub open spec fn pixel_ok(
    camera: M4v, spheres: Seq<Sphere>, lights: Seq<Sphere>, ambient: V3v, img: Seq<u8>,
    x: int, y: int, w: int, h: int,
) -> bool {
    let c = pixel_color_v(camera, spheres, lights, ambient, x, y, w, h);
    &&& img[3 * (y * w + x)] as int == chan_byte_v(c.x)
    &&& img[3 * (y * w + x) + 1] as int == chan_byte_v(c.y)
    &&& img[3 * (y * w + x) + 2] as int == chan_byte_v(c.z)
}

/// A scene: the camera's view-projection transform, the spheres to
/// render, the spheres reused as lights, and the ambient colour.
pub struct Scene {
    pub camera: M4,
    pub spheres: Vec<Sphere>,
    pub lights: Vec<Sphere>,
    pub ambient: V3,
}

impl Scene {
    /// A scene with the given camera transform, no spheres, no lights and
    /// the default ambient grey (`0.2` per channel, in fixed point).
    pub fn new(camera: M4) -> (s: Scene)
        requires
            m4_ok(camera@),
        ensures
            s.camera@ == camera@,
            s.spheres@.len() == 0,
            s.lights@.len() == 0,
            s.ambient@ == (V3v { x: 13107, y: 13107, z: 13107 }),
            scene_ok(s),
    {
        Scene {
            camera,
            spheres: Vec::new(),
            lights: Vec::new(),
            ambient: V3 { x: 13107, y: 13107, z: 13107 },
        }
    }

    /// Replace the ambient colour.
    pub fn ambient(self, color: V3) -> (s: Scene)
        requires
            scene_ok(self),
            v3_ok(color@),
        ensures
            s.camera == self.camera,
            s.spheres@ == self.spheres@,
            s.lights@ == self.lights@,
            s.ambient@ == color@,
            scene_ok(s),
    {
        Scene { ambient: color, ..self }
    }

    /// Add a light (a sphere reused as one).
    pub fn add_light(self, center: V3, radius: i64, color: V3) -> (s: Scene)
        requires
            scene_ok(self),
            v3_ok(center@),
            1 <= radius <= crate::fixed::SAT,
            v3_ok(color@),
        ensures
            s.camera == self.camera,
            s.spheres@ == self.spheres@,
            s.lights@ == self.lights@.push(Sphere { center, radius, color }),
            s.ambient == self.ambient,
            scene_ok(s),
    {
        let mut lights = self.lights;
        lights.push(Sphere::new(center, radius, color));
        Scene { lights, ..self }
    }

    /// Add a sphere to the renderable surfaces.
    pub fn add_sphere(self, center: V3, radius: i64, color: V3) -> (s: Scene)
        requires
            scene_ok(self),
            v3_ok(center@),
            1 <= radius <= crate::fixed::SAT,
            v3_ok(color@),
        ensures
            s.camera == self.camera,
            s.spheres@ == self.spheres@.push(Sphere { center, radius, color }),
            s.lights@ == self.lights@,
            s.ambient == self.ambient,
            scene_ok(s),
    {
        let mut spheres = self.spheres;
        spheres.push(Sphere::new(center, radius, color));
        Scene { spheres, ..self }
    }

    /// Trace one ray through the scene and return its colour.
    pub fn trace(&self, ray: &Ray) -> (c: V3)
        requires
            scene_ok(*self),
            ray_ok(ray@),
        ensures
            c@ == trace_v(self.spheres@, self.lights@, self.ambient@, ray@),
            v3_ok(c@),
    {
        let n = self.spheres.len();
        let mut found = false;
        let mut best_idx: usize = 0;
        let mut min_t: i64 = 0;
        let mut i: usize = 0;
        while i < n
            invariant
                i <= n,
                n == self.spheres@.len(),
                scene_ok(*self),
                ray_ok(ray@),
                found ==> best_idx < i && in_band(min_t as int)
                    && closest_upto(self.spheres@, ray@, i as int)
                        == Some((best_idx as int, min_t as int)),
                !found ==> closest_upto(self.spheres@, ray@, i as int) is None,
            decreases n - i,
        {
            let s = self.spheres[i];
            match s.intersect(ray) {
                Some(t) => {
                    if !found || t < min_t {
                        found = true;
                        best_idx = i;
                        min_t = t;
                    }
                },
                None => {},
            }
            i = i + 1;
        }
        if !found {
            return self.ambient;
        }
        let hit = self.spheres[best_idx];
        proof {
            assert(sphere_ok(self.spheres@[best_idx as int]@));
        }
        if self.lights.len() == 0 {
            return self.ambient;
        }
        let light = self.lights[0];
        proof {
            assert(sphere_ok(self.lights@[0]@));
        }
        let p = ray.point_at(min_t);
        let ldir = light.center.sub(&p).normalize();
        let light_ray = Ray::new(p, ldir);
        assert(light_ray@ == shadow_ray_v(p@, light));
        let mut j: usize = 0;
        while j < n
            invariant
                j <= n,
                n == self.spheres@.len(),
                scene_ok(*self),
                ray_ok(ray@),
                ray_ok(light_ray@),
                v3_ok(p@),
                v3_ok(ldir@),
                in_band(min_t as int),
                best_idx < n,
                closest_upto(self.spheres@, ray@, n as int)
                    == Some((best_idx as int, min_t as int)),
                hit == self.spheres@[best_idx as int],
                sphere_ok(hit@),
                sphere_ok(light@),
                self.lights@.len() > 0,
                light == self.lights@[0],
                p@ == point_at_v(ray@, min_t as int),
                ldir@ == v3_normalize_v(v3_sub_v(light@.center, p@)),
                light_ray@ == shadow_ray_v(p@, light),
                forall|k: int| 0 <= k < j ==> !(self.spheres@[k] != hit
                    && (#[trigger] intersect_v(self.spheres@[k]@, light_ray@)) is Some),
            decreases n - j,
        {
            let s = self.spheres[j];
            if !(s == hit) {
                if s.intersect(&light_ray).is_some() {
                    proof {
                        assert(occluded_v(self.spheres@, hit, light_ray@));
                    }
                    return hit.color.cmul(&self.ambient);
                }
            }
            j = j + 1;
        }
        proof {
            assert(!occluded_v(self.spheres@, hit, light_ray@));
        }
        let nrm = p.sub(&hit.center).normalize();
        let dl = nrm.dot(&ldir);
        let lam = if dl < 0 { 0 } else { dl };
        let diffuse = V3 { x: 32768, y: 26214, z: 32768 };
        let illum = self.ambient.add(&diffuse.scale(lam));
        hit.color.cmul(&illum)
    }

    /// Render a `width` by `height` image, one traced ray per pixel, as
    /// row-major RGB byte triples. `None` exactly when the camera
    /// transform is not invertible.
    pub fn render(&self, width: u32, height: u32) -> (r: Option<Vec<u8>>)
        requires
            scene_ok(*self),
            1 <= width <= 4096,
            1 <= height <= 4096,
        ensures
            match r {
                None => det_v(self.camera@) == 0,
                Some(img) => {
                    &&& det_v(self.camera@) != 0
                    &&& img@.len() == 3 * ((height as int) * (width as int))
                    &&& forall|x: int, y: int|
                        0 <= x < width && 0 <= y < height ==> #[trigger] pixel_ok(
                            self.camera@, self.spheres@, self.lights@, self.ambient@, img@,
                            x, y, width as int, height as int)
                },
            },
    {
        let mut img: Vec<u8> = Vec::new();
        let wf = (width as i64) * (ONE as i64);
        let hf = (height as i64) * (ONE as i64);
        let mut y: u32 = 0;
        while y < height
            invariant
                scene_ok(*self),
                1 <= width <= 4096,
                1 <= height <= 4096,
                y <= height,
                wf == (width as int) * (ONE as int),
                hf == (height as int) * (ONE as int),
                det_v(self.camera@) != 0 || y == 0,
                img@.len() == 3 * ((y as int) * (width as int)),
                forall|xx: int, yy: int|
                    0 <= xx < width && 0 <= yy < y ==> #[trigger] pixel_ok(
                        self.camera@, self.spheres@, self.lights@, self.ambient@, img@,
                        xx, yy, width as int, height as int),
            decreases height - y,
        {
            let yf = (y as i64) * (ONE as i64);
            let mut x: u32 = 0;
            while x < width
                invariant
                    scene_ok(*self),
                    1 <= width <= 4096,
                    1 <= height <= 4096,
                    y < height,
                    x <= width,
                    wf == (width as int) * (ONE as int),
                    hf == (height as int) * (ONE as int),
                    yf == (y as int) * (ONE as int),
                    det_v(self.camera@) != 0 || (y == 0 && x == 0),
                    img@.len() == 3 * ((y as int) * (width as int) + (x as int)),
                    forall|xx: int, yy: int|
                        0 <= xx < width && 0 <= yy < y ==> #[trigger] pixel_ok(
                            self.camera@, self.spheres@, self.lights@, self.ambient@, img@,
                            xx, yy, width as int, height as int),
                    forall|xx: int|
                        0 <= xx < x ==> #[trigger] pixel_ok(
                            self.camera@, self.spheres@, self.lights@, self.ambient@, img@,
                            xx, y as int, width as int, height as int),
                decreases width - x,
            {
                let xf = (x as i64) * (ONE as i64);
                let ray = match Ray::through_screen(xf, yf, wf, hf, &self.camera) {
                    None => {
                        return None;
                    },
                    Some(rr) => rr,
                };
                let c = self.trace(&ray);
                let ghost img0 = img@;
                img.push(chan_byte(c.x));
                img.push(chan_byte(c.y));
                img.push(chan_byte(c.z));
                proof {
                    let w = width as int;
                    let h = height as int;
                    let xi = x as int;
                    let yi = y as int;
                    assert(img@ =~= img0 + seq![
                        (chan_byte_v(c@.x) as u8),
                        (chan_byte_v(c@.y) as u8),
                        (chan_byte_v(c@.z) as u8),
                    ]);
                    assert(pixel_ok(self.camera@, self.spheres@, self.lights@, self.ambient@,
                        img@, xi, yi, w, h)) by {
                        reveal(pixel_ok);
                        reveal(pixel_color_v);
                        assert(pixel_color_v(self.camera@, self.spheres@, self.lights@,
                            self.ambient@, xi, yi, w, h) == c@);
                        assert(img@[3 * (yi * w + xi)] as int == chan_byte_v(c@.x));
                        assert(img@[3 * (yi * w + xi) + 1] as int == chan_byte_v(c@.y));
                        assert(img@[3 * (yi * w + xi) + 2] as int == chan_byte_v(c@.z));
                    };
                    assert forall|xx: int, yy: int|
                        0 <= xx < width && 0 <= yy < y implies #[trigger] pixel_ok(
                            self.camera@, self.spheres@, self.lights@, self.ambient@, img@,
                            xx, yy, w, h) by {
                        reveal(pixel_ok);
                        assert(yy * w + xx < yi * w) by (nonlinear_arith)
                            requires
                                0 <= xx < w,
                                0 <= yy <= yi - 1,
                        ;
                        assert(pixel_ok(self.camera@, self.spheres@, self.lights@,
                            self.ambient@, img0, xx, yy, w, h));
                    }
                    assert forall|xx: int|
                        0 <= xx < x implies #[trigger] pixel_ok(
                            self.camera@, self.spheres@, self.lights@, self.ambient@, img@,
                            xx, y as int, w, h) by {
                        reveal(pixel_ok);
                        assert(pixel_ok(self.camera@, self.spheres@, self.lights@,
                            self.ambient@, img0, xx, yi, w, h));
                    }
                }
                x = x + 1;
            }
            proof {
                assert(((y as int) + 1) * (width as int)
                    == (y as int) * (width as int) + (width as int)) by (nonlinear_arith);
            }
            y = y + 1;
        }
        Some(img)
    }
}

/// The nearest-hit scan is sound and complete: a result names a sphere
/// the ray hits at that parameter, no sphere is hit nearer, an earlier
/// sphere wins a tie, and `None` means no sphere is hit at all.
pub proof fn lemma_closest_upto_min(spheres: Seq<Sphere>, r: Rayv, n: int)
    requires
        0 <= n <= spheres.len(),
    ensures
        match closest_upto(spheres, r, n) {
            None => forall|k: int|
                0 <= k < n ==> (#[trigger] intersect_v(spheres[k]@, r)) is None,
            Some(h) => {
                &&& 0 <= h.0 < n
                &&& intersect_v(spheres[h.0]@, r) == Some(h.1)
                &&& forall|k: int|
                    0 <= k < n ==> ((#[trigger] intersect_v(spheres[k]@, r)) matches Some(tk)
                        ==> h.1 <= tk)
                &&& forall|k: int|
                    0 <= k < h.0 ==> ((#[trigger] intersect_v(spheres[k]@, r)) matches Some(tk)
                        ==> h.1 < tk)
            },
        },
    decreases n,
{
    if n > 0 {
        lemma_closest_upto_min(spheres, r, n - 1);
    }
}

/// With no spheres in the scene, tracing returns exactly the ambient
/// colour, whatever the ray.
pub proof fn lemma_trace_empty(spheres: Seq<Sphere>, lights: Seq<Sphere>, ambient: V3v, r: Rayv)
    requires
        spheres.len() == 0,
    ensures
        trace_v(spheres, lights, ambient, r) == ambient,
{
}

/// With no lights, tracing returns the ambient colour even when a
/// surface is hit.
pub proof fn lemma_trace_no_lights(
    spheres: Seq<Sphere>, lights: Seq<Sphere>, ambient: V3v, r: Rayv,
)
    requires
        lights.len() == 0,
    ensures
        trace_v(spheres, lights, ambient, r) == ambient,
{
}

/// One sphere and one light: when the sphere is hit, the path to the
/// light cannot be obstructed (the hit surface is excluded from its own
/// shadow test), and the colour is the hit colour times ambient plus the
/// diffuse Lambertian term.
pub proof fn lemma_trace_single_lit(s: Sphere, light: Sphere, ambient: V3v, r: Rayv, t: int)
    requires
        intersect_v(s@, r) == Some(t),
    ensures
        ({
            let p = point_at_v(r, t);
            let ldir = v3_normalize_v(v3_sub_v(light@.center, p));
            let nrm = v3_normalize_v(v3_sub_v(p, s@.center));
            let dl = v3_dot_v(nrm, ldir);
            let lam = if dl < 0 { 0 } else { dl };
            trace_v(seq![s], seq![light], ambient, r)
                == v3_cmul_v(s@.color, v3_add_v(ambient, v3_scale_v(diffuse_v(), lam)))
        }),
{
    let spheres = seq![s];
    let lights = seq![light];
    assert(spheres[0] == s);
    assert(lights[0] == light);
    reveal_with_fuel(closest_upto, 2);
    assert(closest_upto(spheres, r, 1) == Some((0int, t)));
    let p = point_at_v(r, t);
    let sr = shadow_ray_v(p, light);
    assert(!occluded_v(spheres, s, sr)) by {
        assert forall|k: int|
            0 <= k < spheres.len() implies !(spheres[k] != s
                && (#[trigger] intersect_v(spheres[k]@, sr)) is Some) by {
            assert(spheres[k] == s);
        }
    }
}

/// A second sphere blocking the shadow ray forces the shadow branch: the
/// colour is the hit colour modulated by the ambient colour alone.
pub proof fn lemma_trace_shadowed(
    spheres: Seq<Sphere>, lights: Seq<Sphere>, ambient: V3v, r: Rayv, i: int, t: int, j: int,
)
    requires
        closest_upto(spheres, r, spheres.len() as int) == Some((i, t)),
        lights.len() > 0,
        0 <= j < spheres.len(),
        spheres[j] != spheres[i],
        intersect_v(spheres[j]@, shadow_ray_v(point_at_v(r, t), lights[0])) is Some,
    ensures
        trace_v(spheres, lights, ambient, r) == v3_cmul_v(spheres[i]@.color, ambient),
{
    let sr = shadow_ray_v(point_at_v(r, t), lights[0]);
    assert(spheres[j] != spheres[i] && intersect_v(spheres[j]@, sr) is Some);
    assert(occluded_v(spheres, spheres[i], sr));
}

} // verus!
