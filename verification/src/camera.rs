//! Camera state and the point-projection query.
//!
//! The camera holds the active view transform and the viewport aspect
//! ratio; the projection itself is a fixed-parameter perspective whose
//! vertical field of view is a constant of the design. A world point is
//! taken to camera space by the view transform, divided by its depth with
//! the focal scales applied, and the resulting clip coordinates in
//! `[-1, 1]` are mapped — with the vertical axis flipped, since clip space
//! and screen space run in opposite directions — to pixel coordinates.
//!
//! All coordinates are exact rationals: a point or matrix is a tuple of
//! integers over one shared positive denominator.

use crate::ratio::{fits_i128, Ratio};
use vstd::prelude::*;

verus! {

/// Numerator of the focal scale: the cotangent of half the fixed
/// 60-degree vertical field of view, to six decimal places.
pub const FOCAL_NUM: i128 = 1_732_051;

/// Denominator of the focal scale.
pub const FOCAL_DEN: i128 = 1_000_000;

/// A point with exact rational coordinates over one shared denominator.
#[derive(Clone, Copy, PartialEq, Eq, Structural, Debug)]
pub struct Vec3r {
    pub x: i128,
    pub y: i128,
    pub z: i128,
    pub den: i128,
}

impl Vec3r {
    /// The shared denominator is positive.
    pub open spec fn wf(self) -> bool {
        self.den > 0
    }

    /// The world origin.
    pub fn origin() -> (p: Vec3r)
        ensures
            p == (Vec3r { x: 0, y: 0, z: 0, den: 1 }),
    {
        Vec3r { x: 0, y: 0, z: 0, den: 1 }
    }
}

/// An affine transform: a 3-by-4 integer matrix over one shared
/// positive denominator. Row-major: `mRC` is row `R`, column `C`; the
/// last column is the translation.
#[derive(Clone, Copy, PartialEq, Eq, Structural, Debug)]
pub struct Affine {
    pub m00: i128,
    pub m01: i128,
    pub m02: i128,
    pub m03: i128,
    pub m10: i128,
    pub m11: i128,
    pub m12: i128,
    pub m13: i128,
    pub m20: i128,
    pub m21: i128,
    pub m22: i128,
    pub m23: i128,
    pub den: i128,
}

impl Affine {
    /// The shared denominator is positive.
    pub open spec fn wf(self) -> bool {
        self.den > 0
    }

    /// The identity transform.
    pub open spec fn spec_identity() -> Affine {
        Affine {
            m00: 1,
            m01: 0,
            m02: 0,
            m03: 0,
            m10: 0,
            m11: 1,
            m12: 0,
            m13: 0,
            m20: 0,
            m21: 0,
            m22: 1,
            m23: 0,
            den: 1,
        }
    }

    /// Builds the identity transform.
    pub fn identity() -> (m: Affine)
        ensures
            m == Affine::spec_identity(),
    {
        Affine {
            m00: 1,
            m01: 0,
            m02: 0,
            m03: 0,
            m10: 0,
            m11: 1,
            m12: 0,
            m13: 0,
            m20: 0,
            m21: 0,
            m22: 1,
            m23: 0,
            den: 1,
        }
    }
}

/// First coordinate of `v` applied to `p`, over denominator `v.den * p.den`.
pub open spec fn cam_x(v: Affine, p: Vec3r) -> int {
    v.m00 * p.x + v.m01 * p.y + v.m02 * p.z + v.m03 * p.den
}

/// Second coordinate of `v` applied to `p`.
pub open spec fn cam_y(v: Affine, p: Vec3r) -> int {
    v.m10 * p.x + v.m11 * p.y + v.m12 * p.z + v.m13 * p.den
}

/// Third coordinate (the camera-space depth) of `v` applied to `p`.
pub open spec fn cam_z(v: Affine, p: Vec3r) -> int {
    v.m20 * p.x + v.m21 * p.y + v.m22 * p.z + v.m23 * p.den
}

/// Camera-space coordinates with the sign normalised so the depth
/// component is non-negative; a projective point is unchanged when all
/// its components are negated together.
pub open spec fn norm_x(v: Affine, p: Vec3r) -> int {
    if cam_z(v, p) < 0 {
        -cam_x(v, p)
    } else {
        cam_x(v, p)
    }
}

pub open spec fn norm_y(v: Affine, p: Vec3r) -> int {
    if cam_z(v, p) < 0 {
        -cam_y(v, p)
    } else {
        cam_y(v, p)
    }
}

pub open spec fn norm_z(v: Affine, p: Vec3r) -> int {
    if cam_z(v, p) < 0 {
        -cam_z(v, p)
    } else {
        cam_z(v, p)
    }
}

/// The matrix-point product stays within the widest signed integer.
pub open spec fn row_fits(a: int, b: int, c: int, d: int, p: Vec3r) -> bool {
    &&& fits_i128(a * p.x)
    &&& fits_i128(b * p.y)
    &&& fits_i128(c * p.z)
    &&& fits_i128(d * p.den)
    &&& fits_i128(a * p.x + b * p.y)
    &&& fits_i128(a * p.x + b * p.y + c * p.z)
    &&& fits_i128(a * p.x + b * p.y + c * p.z + d * p.den)
}

pub open spec fn transform_fits(v: Affine, p: Vec3r) -> bool {
    &&& row_fits(v.m00 as int, v.m01 as int, v.m02 as int, v.m03 as int, p)
    &&& row_fits(v.m10 as int, v.m11 as int, v.m12 as int, v.m13 as int, p)
    &&& row_fits(v.m20 as int, v.m21 as int, v.m22 as int, v.m23 as int, p)
    &&& fits_i128(v.den * p.den)
}

/// Applies an affine transform to a point.
pub fn transform(v: &Affine, p: &Vec3r) -> (q: Vec3r)
    requires
        v.wf(),
        p.wf(),
        transform_fits(*v, *p),
    ensures
        q.wf(),
        q.x == cam_x(*v, *p),
        q.y == cam_y(*v, *p),
        q.z == cam_z(*v, *p),
        q.den == v.den * p.den,
{
    proof {
        assert(v.den * p.den > 0) by (nonlinear_arith)
            requires
                v.den > 0,
                p.den > 0;
    }
    Vec3r {
        x: v.m00 * p.x + v.m01 * p.y + v.m02 * p.z + v.m03 * p.den,
        y: v.m10 * p.x + v.m11 * p.y + v.m12 * p.z + v.m13 * p.den,
        z: v.m20 * p.x + v.m21 * p.y + v.m22 * p.z + v.m23 * p.den,
        den: v.den * p.den,
    }
}

/// A screen position in pixels, with exact rational coordinates over one
/// shared denominator.
#[derive(Clone, Copy, PartialEq, Eq, Structural, Debug)]
pub struct ScreenPoint {
    pub x: i128,
    pub y: i128,
    pub den: i128,
}

impl ScreenPoint {
    pub open spec fn wf(self) -> bool {
        self.den > 0
    }
}

/// Numerator of the horizontal screen coordinate of the camera-space
/// point `(qx, _, qz)`: `(clip_x + 1) / 2 * width` over the shared
/// denominator below.
pub open spec fn spec_screen_x_num(aspect: Ratio, qx: int, qz: int, width: int) -> int {
    (FOCAL_NUM * aspect.den * qx + aspect.num * (FOCAL_DEN * qz)) * width
}

/// Numerator of the vertical screen coordinate: `(1 - clip_y) / 2 * height`
/// over the shared denominator below — the vertical axis is flipped.
pub open spec fn spec_screen_y_num(aspect: Ratio, qy: int, qz: int, height: int) -> int {
    ((FOCAL_DEN * qz - FOCAL_NUM * qy) * height) * aspect.num
}

/// Shared denominator of the two screen coordinates.
pub open spec fn spec_screen_den(aspect: Ratio, qz: int) -> int {
    2 * (aspect.num * (FOCAL_DEN * qz))
}

/// The arithmetic of `Camera::project_point` stays within the widest
/// signed integer for these inputs.
pub open spec fn project_fits(cam: Camera, p: Vec3r, width: int, height: int) -> bool {
    let qx = norm_x(cam.view, p);
    let qy = norm_y(cam.view, p);
    let qz = norm_z(cam.view, p);
    &&& transform_fits(cam.view, p)
    &&& fits_i128(FOCAL_NUM * cam.aspect.den)
    &&& fits_i128(FOCAL_NUM * cam.aspect.den * qx)
    &&& fits_i128(FOCAL_DEN * qz)
    &&& fits_i128(cam.aspect.num * (FOCAL_DEN * qz))
    &&& fits_i128(FOCAL_NUM * cam.aspect.den * qx + cam.aspect.num * (FOCAL_DEN * qz))
    &&& fits_i128(
        (FOCAL_NUM * cam.aspect.den * qx + cam.aspect.num * (FOCAL_DEN * qz)) * width,
    )
    &&& fits_i128(FOCAL_NUM * qy)
    &&& fits_i128(FOCAL_DEN * qz - FOCAL_NUM * qy)
    &&& fits_i128((FOCAL_DEN * qz - FOCAL_NUM * qy) * height)
    &&& fits_i128(((FOCAL_DEN * qz - FOCAL_NUM * qy) * height) * cam.aspect.num)
    &&& fits_i128(2 * (cam.aspect.num * (FOCAL_DEN * qz)))
}

/// The camera: the active view transform and the viewport aspect ratio.
#[derive(Clone, Copy, PartialEq, Eq, Structural, Debug)]
pub struct Camera {
    pub view: Affine,
    pub aspect: Ratio,
}

impl Camera {
    pub open spec fn wf(self) -> bool {
        self.view.wf() && self.aspect.wf() && self.aspect.is_pos()
    }

    /// Projects a world point to pixel coordinates in a
    /// `width`-by-`height` screen. A point on the camera plane (depth
    /// zero) has no finite projection; the query answers the screen
    /// centre, the limit along the view axis.
    pub fn project_point(&self, p: &Vec3r, width: u32, height: u32) -> (r: ScreenPoint)
        requires
            self.wf(),
            p.wf(),
            project_fits(*self, *p, width as int, height as int),
        ensures
            r.wf(),
            norm_z(self.view, *p) == 0 ==> r == (ScreenPoint {
                x: width as i128,
                y: height as i128,
                den: 2,
            }),
            norm_z(self.view, *p) != 0 ==> {
                &&& r.x == spec_screen_x_num(
                    self.aspect,
                    norm_x(self.view, *p),
                    norm_z(self.view, *p),
                    width as int,
                )
                &&& r.y == spec_screen_y_num(
                    self.aspect,
                    norm_y(self.view, *p),
                    norm_z(self.view, *p),
                    height as int,
                )
                &&& r.den == spec_screen_den(self.aspect, norm_z(self.view, *p))
            },
    {
        let q = transform(&self.view, p);
        let mut qx = q.x;
        let mut qy = q.y;
        let mut qz = q.z;
        if qz < 0 {
            qx = -qx;
            qy = -qy;
            qz = -qz;
        }
        if qz == 0 {
            ScreenPoint { x: width as i128, y: height as i128, den: 2 }
        } else {
            let base = FOCAL_DEN * qz;
            let side = self.aspect.num * base;
            let x_num = (FOCAL_NUM * self.aspect.den * qx + side) * (width as i128);
            let y_num = ((base - FOCAL_NUM * qy) * (height as i128)) * self.aspect.num;
            let den = 2 * side;
            proof {
                assert(den > 0) by (nonlinear_arith)
                    requires
                        den == 2 * (self.aspect.num * (FOCAL_DEN * qz)),
                        self.aspect.num > 0,
                        FOCAL_DEN > 0,
                        qz > 0;
            }
            ScreenPoint { x: x_num, y: y_num, den }
        }
    }

    /// Camera-space point whose projection is the screen position `s`, at
    /// camera-space depth `depth`. Taking it back to world space would
    /// need the inverse of the view transform, which the camera does not
    /// hold, so the answer stays in camera space; under an identity view
    /// the two spaces coincide.
    pub fn unproject_point(&self, s: &ScreenPoint, depth: Ratio, width: u32, height: u32) -> (p:
        Vec3r)
        requires
            self.wf(),
            s.wf(),
            depth.wf(),
            width >= 1,
            height >= 1,
            unproject_fits(self.aspect, *s, depth, width as int, height as int),
        ensures
            p.wf(),
            p.x == spec_unproj_x(self.aspect, *s, depth, width as int, height as int),
            p.y == spec_unproj_y(self.aspect, *s, depth, width as int, height as int),
            p.z == spec_unproj_z(self.aspect, *s, depth, width as int, height as int),
            p.den == spec_unproj_den(self.aspect, *s, depth, width as int, height as int),
            // The answer lies at the requested depth.
            p.z * depth.den == depth.num * p.den,
    {
        let w = width as i128;
        let h = height as i128;
        let cx = 2 * s.x - s.den * w;
        let cy = s.den * h - 2 * s.y;
        let x_num = (((cx * depth.num) * FOCAL_DEN) * self.aspect.num) * h;
        let y_num = (((cy * depth.num) * FOCAL_DEN) * self.aspect.den) * w;
        let swh = (s.den * w) * h;
        let z_num = depth.num * ((swh * FOCAL_NUM) * self.aspect.den);
        let den = ((swh * depth.den) * FOCAL_NUM) * self.aspect.den;
        proof {
            assert(den > 0) by (nonlinear_arith)
                requires
                    den == (((s.den * (width as int)) * (height as int)) * depth.den) * FOCAL_NUM
                        * self.aspect.den,
                    s.den > 0,
                    width >= 1,
                    height >= 1,
                    depth.den > 0,
                    FOCAL_NUM > 0,
                    self.aspect.den > 0;
            assert(z_num * depth.den == depth.num * den) by (nonlinear_arith)
                requires
                    z_num == depth.num * ((((s.den * (width as int)) * (height as int))
                        * FOCAL_NUM) * self.aspect.den),
                    den == (((s.den * (width as int)) * (height as int)) * depth.den) * FOCAL_NUM
                        * self.aspect.den;
        }
        Vec3r { x: x_num, y: y_num, z: z_num, den }
    }
}

/// Numerator of the horizontal camera-space coordinate answered by
/// `Camera::unproject_point`, over `spec_unproj_den`.
pub open spec fn spec_unproj_x(aspect: Ratio, s: ScreenPoint, depth: Ratio, w: int, h: int) -> int {
    ((((2 * s.x - s.den * w) * depth.num) * FOCAL_DEN) * aspect.num) * h
}

/// Numerator of the vertical camera-space coordinate (vertical axis flipped).
pub open spec fn spec_unproj_y(aspect: Ratio, s: ScreenPoint, depth: Ratio, w: int, h: int) -> int {
    ((((s.den * h - 2 * s.y) * depth.num) * FOCAL_DEN) * aspect.den) * w
}

/// Numerator of the camera-space depth.
pub open spec fn spec_unproj_z(aspect: Ratio, s: ScreenPoint, depth: Ratio, w: int, h: int) -> int {
    depth.num * ((((s.den * w) * h) * FOCAL_NUM) * aspect.den)
}

/// Shared denominator of the camera-space point.
pub open spec fn spec_unproj_den(aspect: Ratio, s: ScreenPoint, depth: Ratio, w: int, h: int) -> int {
    ((((s.den * w) * h) * depth.den) * FOCAL_NUM) * aspect.den
}

/// The arithmetic of `Camera::unproject_point` stays within the widest
/// signed integer for these inputs.
pub open spec fn unproject_fits(aspect: Ratio, s: ScreenPoint, depth: Ratio, w: int, h: int) -> bool {
    &&& fits_i128(2 * s.x)
    &&& fits_i128(s.den * w)
    &&& fits_i128(2 * s.x - s.den * w)
    &&& fits_i128((2 * s.x - s.den * w) * depth.num)
    &&& fits_i128(((2 * s.x - s.den * w) * depth.num) * FOCAL_DEN)
    &&& fits_i128((((2 * s.x - s.den * w) * depth.num) * FOCAL_DEN) * aspect.num)
    &&& fits_i128(spec_unproj_x(aspect, s, depth, w, h))
    &&& fits_i128(2 * s.y)
    &&& fits_i128(s.den * h)
    &&& fits_i128(s.den * h - 2 * s.y)
    &&& fits_i128((s.den * h - 2 * s.y) * depth.num)
    &&& fits_i128(((s.den * h - 2 * s.y) * depth.num) * FOCAL_DEN)
    &&& fits_i128((((s.den * h - 2 * s.y) * depth.num) * FOCAL_DEN) * aspect.den)
    &&& fits_i128(spec_unproj_y(aspect, s, depth, w, h))
    &&& fits_i128((s.den * w) * h)
    &&& fits_i128(((s.den * w) * h) * FOCAL_NUM)
    &&& fits_i128((((s.den * w) * h) * FOCAL_NUM) * aspect.den)
    &&& fits_i128(spec_unproj_z(aspect, s, depth, w, h))
    &&& fits_i128(((s.den * w) * h) * depth.den)
    &&& fits_i128((((s.den * w) * h) * depth.den) * FOCAL_NUM)
    &&& fits_i128(spec_unproj_den(aspect, s, depth, w, h))
}

/// Law: projecting the point obtained by inverse-projecting a screen
/// position returns that screen position exactly. The unprojected point is
/// in camera space, so the projection is taken under an identity view, for
/// any positive depth and any screen position.
pub proof fn lemma_project_unproject_round_trip(
    aspect: Ratio,
    s: ScreenPoint,
    depth: Ratio,
    w: int,
    h: int,
)
    requires
        aspect.wf(),
        aspect.is_pos(),
        s.wf(),
        depth.wf(),
        depth.is_pos(),
        w >= 1,
        h >= 1,
    ensures
        ({
            let qx = spec_unproj_x(aspect, s, depth, w, h);
            let qy = spec_unproj_y(aspect, s, depth, w, h);
            let qz = spec_unproj_z(aspect, s, depth, w, h);
            &&& qz > 0
            &&& spec_screen_x_num(aspect, qx, qz, w) * s.den == s.x * spec_screen_den(aspect, qz)
            &&& spec_screen_y_num(aspect, qy, qz, h) * s.den == s.y * spec_screen_den(aspect, qz)
        }),
{
    let qx = spec_unproj_x(aspect, s, depth, w, h);
    let qy = spec_unproj_y(aspect, s, depth, w, h);
    let qz = spec_unproj_z(aspect, s, depth, w, h);
    assert(qz > 0) by (nonlinear_arith)
        requires
            qz == depth.num * ((((s.den * w) * h) * FOCAL_NUM) * aspect.den),
            depth.num > 0,
            s.den > 0,
            w >= 1,
            h >= 1,
            FOCAL_NUM > 0,
            aspect.den > 0;
    // Common factor of every clip-space term after substitution.
    let m = ((((FOCAL_NUM * aspect.den) * FOCAL_DEN) * aspect.num) * h) * depth.num;
    assert(FOCAL_NUM * aspect.den * qx == m * (2 * s.x - s.den * w)) by (nonlinear_arith)
        requires
            qx == ((((2 * s.x - s.den * w) * depth.num) * FOCAL_DEN) * aspect.num) * h,
            m == ((((FOCAL_NUM * aspect.den) * FOCAL_DEN) * aspect.num) * h) * depth.num;
    assert(aspect.num * (FOCAL_DEN * qz) == m * (s.den * w)) by (nonlinear_arith)
        requires
            qz == depth.num * ((((s.den * w) * h) * FOCAL_NUM) * aspect.den),
            m == ((((FOCAL_NUM * aspect.den) * FOCAL_DEN) * aspect.num) * h) * depth.num;
    assert(spec_screen_x_num(aspect, qx, qz, w) * s.den == s.x * spec_screen_den(aspect, qz))
        by (nonlinear_arith)
        requires
            spec_screen_x_num(aspect, qx, qz, w) == (FOCAL_NUM * aspect.den * qx + aspect.num * (
            FOCAL_DEN * qz)) * w,
            spec_screen_den(aspect, qz) == 2 * (aspect.num * (FOCAL_DEN * qz)),
            FOCAL_NUM * aspect.den * qx == m * (2 * s.x - s.den * w),
            aspect.num * (FOCAL_DEN * qz) == m * (s.den * w);
    // The vertical leg, with its own common factor.
    let n = (((FOCAL_NUM * FOCAL_DEN) * aspect.den) * w) * depth.num;
    assert(FOCAL_NUM * qy == n * (s.den * h - 2 * s.y)) by (nonlinear_arith)
        requires
            qy == ((((s.den * h - 2 * s.y) * depth.num) * FOCAL_DEN) * aspect.den) * w,
            n == (((FOCAL_NUM * FOCAL_DEN) * aspect.den) * w) * depth.num;
    assert(FOCAL_DEN * qz == n * (s.den * h)) by (nonlinear_arith)
        requires
            qz == depth.num * ((((s.den * w) * h) * FOCAL_NUM) * aspect.den),
            n == (((FOCAL_NUM * FOCAL_DEN) * aspect.den) * w) * depth.num;
    assert(spec_screen_y_num(aspect, qy, qz, h) * s.den == s.y * spec_screen_den(aspect, qz))
        by (nonlinear_arith)
        requires
            spec_screen_y_num(aspect, qy, qz, h) == ((FOCAL_DEN * qz - FOCAL_NUM * qy) * h)
                * aspect.num,
            spec_screen_den(aspect, qz) == 2 * (aspect.num * (FOCAL_DEN * qz)),
            FOCAL_NUM * qy == n * (s.den * h - 2 * s.y),
            FOCAL_DEN * qz == n * (s.den * h);
}

} // verus!
