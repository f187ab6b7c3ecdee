//! Frustum derivation for the portal camera.
//!
//! The five generic half spaces come from the rows of
//! `clip * inverse(camera)`, exactly as a renderer extracts a frustum from a
//! view-projection matrix; the far plane uses the camera's backward
//! direction and far distance. The near half space is then replaced
//! according to the portal mode, so that geometry between the portal camera
//! and the destination plane is culled. Half spaces are integer 4-tuples
//! `(a, b, c, d)`: a point `p` with denominator `pw > 0` is inside when
//! `a*p.x + b*p.y + c*p.z + d*pw >= 0`; scaling a tuple by a positive
//! factor leaves the half space unchanged.

use vstd::prelude::*;
use crate::linalg::{SVec3, Vec3, lin3, lin4, mul_b, mat_apply_b, v_scale_b, v_sub_b,
    lemma_applyv_bound, lemma_dotv_bound, lemma_scaled_bound};
use crate::pose::{SPose, Pose, sp_inverse, lemma_inverse_within, POSE_MAT_LIMIT, POSE_T_LIMIT};
use crate::bounds::{lemma_mul_abs_le, lemma_mul_pos, lemma_poly_assoc, lemma_poly_near_eval};


verus! {

/// Denominator of the epsilon margin subtracted from the near-plane offset:
/// the margin is exactly `1 / EPS_DEN` in the plane's normalized distance.
pub const EPS_DEN: i128 = 100000;

/// Largest magnitude accepted for entries of the clip matrix and for the
/// far-distance fraction.
pub const CLIP_LIMIT: i128 = 262144;

/// Largest magnitude accepted for the camera pose's matrix entries,
/// denominator and scale when deriving a frustum.
pub const CAM_MAT_LIMIT: i128 = 68719476736;

/// Largest magnitude accepted for the camera pose's translation entries
/// when deriving a frustum.
pub const CAM_T_LIMIT: i128 = 9007199254740992;

/// Executable 4x4 clip matrix (row-major, `mRC`); any positive scaling of
/// all entries denotes the same projection for culling purposes.
#[derive(Clone, Copy, PartialEq, Eq, Structural, Debug)]
pub struct ClipMat {
    pub m00: i128, pub m01: i128, pub m02: i128, pub m03: i128,
    pub m10: i128, pub m11: i128, pub m12: i128, pub m13: i128,
    pub m20: i128, pub m21: i128, pub m22: i128, pub m23: i128,
    pub m30: i128, pub m31: i128, pub m32: i128, pub m33: i128,
}

/// Unbounded-integer clip matrix, the view of [`ClipMat`].
pub struct SClipMat {
    pub m00: int, pub m01: int, pub m02: int, pub m03: int,
    pub m10: int, pub m11: int, pub m12: int, pub m13: int,
    pub m20: int, pub m21: int, pub m22: int, pub m23: int,
    pub m30: int, pub m31: int, pub m32: int, pub m33: int,
}

impl View for ClipMat {
    type V = SClipMat;

    open spec fn view(&self) -> SClipMat {
        SClipMat {
            m00: self.m00 as int, m01: self.m01 as int, m02: self.m02 as int, m03: self.m03 as int,
            m10: self.m10 as int, m11: self.m11 as int, m12: self.m12 as int, m13: self.m13 as int,
            m20: self.m20 as int, m21: self.m21 as int, m22: self.m22 as int, m23: self.m23 as int,
            m30: self.m30 as int, m31: self.m31 as int, m32: self.m32 as int, m33: self.m33 as int,
        }
    }
}

impl SClipMat {
    /// Every entry has magnitude at most `b`.
    pub open spec fn within(self, b: int) -> bool {
        &&& -b <= self.m00 <= b && -b <= self.m01 <= b && -b <= self.m02 <= b && -b <= self.m03 <= b
        &&& -b <= self.m10 <= b && -b <= self.m11 <= b && -b <= self.m12 <= b && -b <= self.m13 <= b
        &&& -b <= self.m20 <= b && -b <= self.m21 <= b && -b <= self.m22 <= b && -b <= self.m23 <= b
        &&& -b <= self.m30 <= b && -b <= self.m31 <= b && -b <= self.m32 <= b && -b <= self.m33 <= b
    }
}

/// Executable half space.
#[derive(Clone, Copy, PartialEq, Eq, Structural, Debug)]
pub struct HalfSpace {
    pub a: i128,
    pub b: i128,
    pub c: i128,
    pub d: i128,
}

/// Unbounded-integer half space, the view of [`HalfSpace`].
pub struct SHalf {
    pub a: int,
    pub b: int,
    pub c: int,
    pub d: int,
}

impl View for HalfSpace {
    type V = SHalf;

    open spec fn view(&self) -> SHalf {
        SHalf { a: self.a as int, b: self.b as int, c: self.c as int, d: self.d as int }
    }
}

/// The plane function of a half space at the homogeneous point `p / pw`,
/// scaled by the half space's own magnitude and by `pw`.
pub open spec fn sp_eval(h: SHalf, p: SVec3, pw: int) -> int {
    h.a * p.x + h.b * p.y + h.c * p.z + h.d * pw
}

/// Executable frustum: six half spaces. `near` replaces the
/// projection-derived near plane according to the portal mode; the four side
/// planes and the far plane always come from the projection and the far
/// distance.
#[derive(Clone, Copy, PartialEq, Eq, Structural, Debug)]
pub struct Frustum {
    pub left: HalfSpace,
    pub right: HalfSpace,
    pub bottom: HalfSpace,
    pub top: HalfSpace,
    pub near: HalfSpace,
    pub far: HalfSpace,
}

/// Unbounded-integer frustum, the view of [`Frustum`].
#[verifier::ext_equal]
pub struct SFrustum {
    pub left: SHalf,
    pub right: SHalf,
    pub bottom: SHalf,
    pub top: SHalf,
    pub near: SHalf,
    pub far: SHalf,
}

impl View for Frustum {
    type V = SFrustum;

    open spec fn view(&self) -> SFrustum {
        SFrustum {
            left: self.left@,
            right: self.right@,
            bottom: self.bottom@,
            top: self.top@,
            near: self.near@,
            far: self.far@,
        }
    }
}

/// An explicit near plane in destination-local space: normal direction
/// `normal` whose exact length is `normal_len`, and offset
/// `offset_num / offset_den`.
#[derive(Clone, Copy, PartialEq, Eq, Structural, Debug)]
pub struct PlaneSpec {
    pub normal: Vec3,
    pub normal_len: i128,
    pub offset_num: i128,
    pub offset_den: i128,
}

impl PlaneSpec {
    /// Valid plane: the stated length is exact and positive, the offset
    /// denominator positive, all within the external input limits.
    pub open spec fn wf(self) -> bool {
        &&& self.normal@.dotv(self.normal@) == (self.normal_len as int) * (self.normal_len as int)
        &&& 0 < self.normal_len <= POSE_MAT_LIMIT
        &&& 0 < self.offset_den <= POSE_MAT_LIMIT
        &&& -POSE_MAT_LIMIT <= self.offset_num <= POSE_MAT_LIMIT
        &&& self.normal@.within(POSE_MAT_LIMIT as int)
    }
}

impl PlaneSpec {
    /// Runtime check of [`PlaneSpec::wf`], for hosts that assemble plane
    /// specifications by hand.
    pub fn check_wf(&self) -> (r: bool)
        ensures
            r == self.wf(),
    {
        if !(0 < self.normal_len && self.normal_len <= POSE_MAT_LIMIT) {
            return false;
        }
        if !(0 < self.offset_den && self.offset_den <= POSE_MAT_LIMIT) {
            return false;
        }
        if !(-POSE_MAT_LIMIT <= self.offset_num && self.offset_num <= POSE_MAT_LIMIT) {
            return false;
        }
        if !crate::linalg::v3_within(&self.normal, POSE_MAT_LIMIT) {
            return false;
        }
        proof {
            assert(POSE_MAT_LIMIT == 256);
            assert({
                &&& 3 * (256int * 256int) <= i128::MAX
                &&& 256int * 256int <= i128::MAX
            }) by (nonlinear_arith);
        }
        let nn = crate::linalg::lin3(self.normal.x, self.normal.x, self.normal.y, self.normal.y,
            self.normal.z, self.normal.z, Ghost(256int), Ghost(256int));
        let ll = crate::linalg::mul_b(self.normal_len, self.normal_len, Ghost(256int), Ghost(256int));
        nn == ll
    }
}

/// How the near plane of the portal camera's frustum is computed.
#[derive(Clone, Copy, PartialEq, Eq, Structural, Debug)]
pub enum PortalMode {
    /// Keep the projection's own near plane: everything between the camera
    /// and the destination stays visible.
    MaskedImageNoFrustum,
    /// Clip against a half-space plane in destination-local space; `None`
    /// uses the destination's backward-facing plane through its origin.
    /// When `switch_normal` is set and the camera is on the far side of the
    /// plane, the normal is inverted.
    MaskedImageHalfSpaceFrustum { plane: Option<PlaneSpec>, switch_normal: bool },
    /// Clip against the plane tangent to a sphere around
    /// `destination origin + origin / origin_w` with radius
    /// `radius_num / radius_den`, always facing the camera.
    MaskedImageSphereHalfSpaceFrustum {
        origin: Vec3,
        origin_w: i128,
        radius_num: i128,
        radius_den: i128,
    },
}

impl PortalMode {
    /// Valid mode parameters, within the external input limits.
    pub open spec fn wf(self) -> bool {
        match self {
            PortalMode::MaskedImageNoFrustum => true,
            PortalMode::MaskedImageHalfSpaceFrustum { plane, switch_normal } => match plane {
                Option::Some(pl) => pl.wf(),
                Option::None => true,
            },
            PortalMode::MaskedImageSphereHalfSpaceFrustum {
                origin, origin_w, radius_num, radius_den,
            } => {
                &&& origin@.within(POSE_T_LIMIT as int)
                &&& 0 < origin_w <= POSE_MAT_LIMIT
                &&& 0 < radius_den <= POSE_MAT_LIMIT
                &&& -POSE_MAT_LIMIT <= radius_num <= POSE_MAT_LIMIT
            },
        }
    }
}

impl PortalMode {
    /// Runtime check of [`PortalMode::wf`], for hosts that assemble modes
    /// by hand.
    pub fn check_wf(&self) -> (r: bool)
        ensures
            r == self.wf(),
    {
        match self {
            PortalMode::MaskedImageNoFrustum => true,
            PortalMode::MaskedImageHalfSpaceFrustum { plane, switch_normal: _ } => match plane {
                Option::Some(pl) => pl.check_wf(),
                Option::None => true,
            },
            PortalMode::MaskedImageSphereHalfSpaceFrustum {
                origin, origin_w, radius_num, radius_den,
            } => {
                crate::linalg::v3_within(origin, POSE_T_LIMIT)
                    && 0 < *origin_w && *origin_w <= POSE_MAT_LIMIT
                    && 0 < *radius_den && *radius_den <= POSE_MAT_LIMIT
                    && -POSE_MAT_LIMIT <= *radius_num && *radius_num <= POSE_MAT_LIMIT
            },
        }
    }
}

impl Default for PortalMode {
    /// Defaults to the half-space near plane through the destination's
    /// origin facing its backward axis, without normal switching.
    fn default() -> (r: Self)
        ensures
            r == (PortalMode::MaskedImageHalfSpaceFrustum {
                plane: Option::<PlaneSpec>::None,
                switch_normal: false,
            }),
    {
        PortalMode::MaskedImageHalfSpaceFrustum { plane: Option::None, switch_normal: false }
    }
}

/// One row of `clip * inverse(camera)` as a half-space tuple:
/// `(r0 r1 r2 r3)` is the clip matrix row.
pub open spec fn sp_vp_row(cam: SPose, r0: int, r1: int, r2: int, r3: int) -> SHalf {
    let inv = sp_inverse(cam);
    SHalf {
        a: r0 * inv.m.m00 + r1 * inv.m.m10 + r2 * inv.m.m20,
        b: r0 * inv.m.m01 + r1 * inv.m.m11 + r2 * inv.m.m21,
        c: r0 * inv.m.m02 + r1 * inv.m.m12 + r2 * inv.m.m22,
        d: r0 * inv.t.x + r1 * inv.t.y + r2 * inv.t.z + r3 * inv.w,
    }
}

/// Sum of two half-space tuples.
pub open spec fn sp_h_add(x: SHalf, y: SHalf) -> SHalf {
    SHalf { a: x.a + y.a, b: x.b + y.b, c: x.c + y.c, d: x.d + y.d }
}

/// Difference of two half-space tuples.
pub open spec fn sp_h_sub(x: SHalf, y: SHalf) -> SHalf {
    SHalf { a: x.a - y.a, b: x.b - y.b, c: x.c - y.c, d: x.d - y.d }
}

/// Row `r` of the clip matrix applied through the camera inverse.
pub open spec fn sp_vp(clip: SClipMat, cam: SPose, r: int) -> SHalf {
    if r == 0 {
        sp_vp_row(cam, clip.m00, clip.m01, clip.m02, clip.m03)
    } else if r == 1 {
        sp_vp_row(cam, clip.m10, clip.m11, clip.m12, clip.m13)
    } else if r == 2 {
        sp_vp_row(cam, clip.m20, clip.m21, clip.m22, clip.m23)
    } else {
        sp_vp_row(cam, clip.m30, clip.m31, clip.m32, clip.m33)
    }
}

/// The far half space: normal along the camera's backward direction, offset
/// by the far distance `fn / fd` from the camera position.
pub open spec fn sp_far_half(cam: SPose, far_num: int, far_den: int) -> SHalf {
    SHalf {
        a: cam.m.m02 * (far_den * cam.w),
        b: cam.m.m12 * (far_den * cam.w),
        c: cam.m.m22 * (far_den * cam.w),
        d: far_num * (cam.w * cam.s) - far_den * cam.m.col2().dotv(cam.t),
    }
}

/// The near half space for the half-space portal mode, already in world
/// space: normal direction `v` with exact length `len`, plane offset
/// `dn / dd`, epsilon margin `1 / EPS_DEN`.
pub open spec fn sp_near_half(dest: SPose, v: SVec3, len: int, dn: int, dd: int) -> SHalf {
    let e = EPS_DEN as int;
    SHalf {
        a: v.x * ((dest.w * dd) * e),
        b: v.y * ((dest.w * dd) * e),
        c: v.z * ((dest.w * dd) * e),
        d: -(dest.t.dotv(v) * (dd * e)) - dn * ((len * dest.w) * e) - (len * dest.w) * dd,
    }
}

/// The near half space for the sphere portal mode: tangent plane facing the
/// camera, at radius `rn / rd` from `dest origin + o / ow`. This mode keeps
/// the tangent plane exactly at the sphere, without the epsilon margin of
/// the half-space mode, matching the established behaviour of the rendering
/// technique; a host that wants a margin can fold it into the radius.
pub open spec fn sp_sphere_half(cam: SPose, dest: SPose, o: SVec3, ow: int, rn: int, rd: int) -> SHalf {
    let v = cam.m.col2().neg();
    let den = ((dest.w * ow) * rd) * cam.s;
    let ax = dest.t.x * ((ow * rd) * cam.s) + o.x * ((dest.w * rd) * cam.s) - v.x * ((rn * dest.w) * ow);
    let ay = dest.t.y * ((ow * rd) * cam.s) + o.y * ((dest.w * rd) * cam.s) - v.y * ((rn * dest.w) * ow);
    let az = dest.t.z * ((ow * rd) * cam.s) + o.z * ((dest.w * rd) * cam.s) - v.z * ((rn * dest.w) * ow);
    SHalf {
        a: v.x * den,
        b: v.y * den,
        c: v.z * den,
        d: -(ax * v.x + ay * v.y + az * v.z),
    }
}

/// Whether the switched half-space normal must be inverted: true when the
/// camera sits on the positive side of the plane direction relative to the
/// destination.
pub open spec fn sp_switch_side(cam: SPose, dest: SPose, v: SVec3) -> bool {
    v.dotv(cam.t.scaled(dest.w).minus(dest.t.scaled(cam.w))) >= 0
}

/// The near half space selected by the portal mode; `base` is the
/// projection-derived near half space.
pub open spec fn sp_near_for_mode(cam: SPose, dest: SPose, mode: PortalMode, base: SHalf) -> SHalf {
    match mode {
        PortalMode::MaskedImageNoFrustum => base,
        PortalMode::MaskedImageHalfSpaceFrustum { plane, switch_normal } => {
            let v0 = match plane {
                Option::None => dest.m.col2().neg(),
                Option::Some(pl) => dest.m.applyv(pl.normal@),
            };
            let len = match plane {
                Option::None => dest.s,
                Option::Some(pl) => dest.s * pl.normal_len,
            };
            let dn = match plane {
                Option::None => 0,
                Option::Some(pl) => pl.offset_num as int,
            };
            let dd = match plane {
                Option::None => 1,
                Option::Some(pl) => pl.offset_den as int,
            };
            let v = if switch_normal && sp_switch_side(cam, dest, v0) {
                v0.neg()
            } else {
                v0
            };
            sp_near_half(dest, v, len, dn, dd)
        },
        PortalMode::MaskedImageSphereHalfSpaceFrustum {
            origin, origin_w, radius_num, radius_den,
        } => sp_sphere_half(
            cam, dest, origin@, origin_w as int, radius_num as int, radius_den as int,
        ),
    }
}

/// The executable half space whose view is `sh`; meaningful when the
/// components fit the machine range, as every half space the library
/// computes does.
pub open spec fn sp_half_of(sh: SHalf) -> HalfSpace {
    HalfSpace { a: sh.a as i128, b: sh.b as i128, c: sh.c as i128, d: sh.d as i128 }
}

/// The executable frustum whose view is `sf`; meaningful when the
/// components fit the machine range, as every frustum the library computes
/// does.
pub open spec fn sp_frustum_of(sf: SFrustum) -> Frustum {
    Frustum {
        left: sp_half_of(sf.left),
        right: sp_half_of(sf.right),
        bottom: sp_half_of(sf.bottom),
        top: sp_half_of(sf.top),
        near: sp_half_of(sf.near),
        far: sp_half_of(sf.far),
    }
}

/// The whole frustum the library derives: the four side half spaces and the
/// far half space from the projection and far distance, the near half space
/// selected by the portal mode.
pub open spec fn sp_frustum(
    cam: SPose, clip: SClipMat, far_num: int, far_den: int, dest: SPose, mode: PortalMode,
) -> SFrustum {
    SFrustum {
        left: sp_h_add(sp_vp(clip, cam, 3), sp_vp(clip, cam, 0)),
        right: sp_h_sub(sp_vp(clip, cam, 3), sp_vp(clip, cam, 0)),
        bottom: sp_h_add(sp_vp(clip, cam, 3), sp_vp(clip, cam, 1)),
        top: sp_h_sub(sp_vp(clip, cam, 3), sp_vp(clip, cam, 1)),
        near: sp_near_for_mode(cam, dest, mode, sp_h_sub(sp_vp(clip, cam, 3), sp_vp(clip, cam, 2))),
        far: sp_far_half(cam, far_num, far_den),
    }
}

/// One row of the view-projection product, with componentwise magnitude
/// bounds: `bc` bounds the clip row, `bmi` the inverse matrix entries,
/// `bti` the inverse translation and denominator.
#[verifier::spinoff_prover]
fn vp_row(
    inv: &Pose, r0: i128, r1: i128, r2: i128, r3: i128,
    Ghost(cam): Ghost<SPose>, Ghost(bc): Ghost<int>, Ghost(bmi): Ghost<int>, Ghost(bti): Ghost<int>,
) -> (h: HalfSpace)
    requires
        inv@ == sp_inverse(cam),
        inv@.m.within(bmi),
        inv@.t.within(bti),
        -bti <= inv@.w <= bti,
        -bc <= r0 <= bc,
        -bc <= r1 <= bc,
        -bc <= r2 <= bc,
        -bc <= r3 <= bc,
        3 * (bc * bmi) <= i128::MAX,
        4 * (bc * bti) <= i128::MAX,
    ensures
        h@ == sp_vp_row(cam, r0 as int, r1 as int, r2 as int, r3 as int),
        -(3 * (bc * bmi)) <= h@.a <= 3 * (bc * bmi),
        -(3 * (bc * bmi)) <= h@.b <= 3 * (bc * bmi),
        -(3 * (bc * bmi)) <= h@.c <= 3 * (bc * bmi),
        -(4 * (bc * bti)) <= h@.d <= 4 * (bc * bti),
{
    proof {
        lemma_mul_abs_le(r0 as int, bc, inv@.m.m00, bmi);
        lemma_mul_abs_le(r1 as int, bc, inv@.m.m10, bmi);
        lemma_mul_abs_le(r2 as int, bc, inv@.m.m20, bmi);
        lemma_mul_abs_le(r0 as int, bc, inv@.m.m01, bmi);
        lemma_mul_abs_le(r1 as int, bc, inv@.m.m11, bmi);
        lemma_mul_abs_le(r2 as int, bc, inv@.m.m21, bmi);
        lemma_mul_abs_le(r0 as int, bc, inv@.m.m02, bmi);
        lemma_mul_abs_le(r1 as int, bc, inv@.m.m12, bmi);
        lemma_mul_abs_le(r2 as int, bc, inv@.m.m22, bmi);
        lemma_mul_abs_le(r0 as int, bc, inv@.t.x, bti);
        lemma_mul_abs_le(r1 as int, bc, inv@.t.y, bti);
        lemma_mul_abs_le(r2 as int, bc, inv@.t.z, bti);
        lemma_mul_abs_le(r3 as int, bc, inv@.w, bti);
    }
    HalfSpace {
        a: lin3(r0, inv.m.m00, r1, inv.m.m10, r2, inv.m.m20, Ghost(bc), Ghost(bmi)),
        b: lin3(r0, inv.m.m01, r1, inv.m.m11, r2, inv.m.m21, Ghost(bc), Ghost(bmi)),
        c: lin3(r0, inv.m.m02, r1, inv.m.m12, r2, inv.m.m22, Ghost(bc), Ghost(bmi)),
        d: lin4(r0, inv.t.x, r1, inv.t.y, r2, inv.t.z, r3, inv.w, Ghost(bc), Ghost(bti)),
    }
}

/// Componentwise sum of two half-space tuples within the given bounds.
#[verifier::spinoff_prover]
fn h_add(x: &HalfSpace, y: &HalfSpace, Ghost(bx): Ghost<int>, Ghost(by): Ghost<int>) -> (r: HalfSpace)
    requires
        -bx <= x@.a <= bx && -bx <= x@.b <= bx && -bx <= x@.c <= bx && -bx <= x@.d <= bx,
        -by <= y@.a <= by && -by <= y@.b <= by && -by <= y@.c <= by && -by <= y@.d <= by,
        bx + by <= i128::MAX,
    ensures
        r@ == sp_h_add(x@, y@),
{
    HalfSpace { a: x.a + y.a, b: x.b + y.b, c: x.c + y.c, d: x.d + y.d }
}

/// Componentwise difference of two half-space tuples within the given
/// bounds.
#[verifier::spinoff_prover]
fn h_sub(x: &HalfSpace, y: &HalfSpace, Ghost(bx): Ghost<int>, Ghost(by): Ghost<int>) -> (r: HalfSpace)
    requires
        -bx <= x@.a <= bx && -bx <= x@.b <= bx && -bx <= x@.c <= bx && -bx <= x@.d <= bx,
        -by <= y@.a <= by && -by <= y@.b <= by && -by <= y@.c <= by && -by <= y@.d <= by,
        bx + by <= i128::MAX,
    ensures
        r@ == sp_h_sub(x@, y@),
{
    HalfSpace { a: x.a - y.a, b: x.b - y.b, c: x.c - y.c, d: x.d - y.d }
}

/// Derives the portal camera's frustum: the four side half spaces and the
/// far half space come from the projection and far distance exactly as a
/// generic frustum extraction; the near half space is replaced according to
/// the portal mode.
///
/// A degenerate destination direction cannot arise here: a well-formed pose
/// has a positive scale, so its backward axis is never zero and the
/// fall-back to the projection's own near plane that a floating-point
/// implementation needs is unnecessary.
#[verifier::spinoff_prover]
pub fn derive_frustum(
    cam: &Pose, clip: &ClipMat, far_num: i128, far_den: i128, dest: &Pose, mode: &PortalMode,
) -> (r: Frustum)
    requires
        cam@.wf(),
        cam@.within(CAM_MAT_LIMIT as int, CAM_T_LIMIT as int),
        dest@.wf(),
        dest@.within(POSE_MAT_LIMIT as int, POSE_T_LIMIT as int),
        clip@.within(CLIP_LIMIT as int),
        0 < far_den <= CLIP_LIMIT,
        -CLIP_LIMIT <= far_num <= CLIP_LIMIT,
        (*mode).wf(),
    ensures
        r@ == sp_frustum(cam@, clip@, far_num as int, far_den as int, dest@, *mode),
{
    let ghost cm: int = CAM_MAT_LIMIT as int;
    let ghost ct: int = CAM_T_LIMIT as int;
    let ghost bc: int = CLIP_LIMIT as int;
    proof {
        assert(CAM_MAT_LIMIT == 68719476736);
        assert(CAM_T_LIMIT == 9007199254740992);
        assert(CLIP_LIMIT == 262144);
        assert(POSE_MAT_LIMIT == 256);
        assert(POSE_T_LIMIT == 16777216);
        assert({
            &&& 3 * (cm * cm) <= i128::MAX
            &&& 3 * (cm * ct) <= i128::MAX
            &&& cm * cm <= 3 * (cm * ct)
            &&& 3 * (bc * (cm * cm)) <= i128::MAX
            &&& 4 * (bc * (3 * (cm * ct))) <= i128::MAX
            &&& 3 * (bc * (cm * cm)) + 3 * (bc * (cm * cm)) <= i128::MAX
            &&& 4 * (bc * (3 * (cm * ct))) + 4 * (bc * (3 * (cm * ct))) <= i128::MAX
        }) by (nonlinear_arith)
            requires
                cm == 68719476736,
                ct == 9007199254740992,
                bc == 262144,
        {}
        lemma_inverse_within(cam@, cm, ct);
    }
    let inv = cam.inverse_b(Ghost(cm), Ghost(ct));
    let ghost bmi: int = cm * cm;
    let ghost bti: int = 3 * (cm * ct);
    let ghost brow_m: int = 3 * (bc * bmi);
    let ghost brow_t: int = 4 * (bc * bti);
    let ghost brow: int = if brow_m <= brow_t { brow_t } else { brow_m };
    let vp0 = vp_row(&inv, clip.m00, clip.m01, clip.m02, clip.m03, Ghost(cam@), Ghost(bc),
        Ghost(bmi), Ghost(bti));
    let vp1 = vp_row(&inv, clip.m10, clip.m11, clip.m12, clip.m13, Ghost(cam@), Ghost(bc),
        Ghost(bmi), Ghost(bti));
    let vp2 = vp_row(&inv, clip.m20, clip.m21, clip.m22, clip.m23, Ghost(cam@), Ghost(bc),
        Ghost(bmi), Ghost(bti));
    let vp3 = vp_row(&inv, clip.m30, clip.m31, clip.m32, clip.m33, Ghost(cam@), Ghost(bc),
        Ghost(bmi), Ghost(bti));
    proof {
        vstd::arithmetic::mul::lemma_mul_nonnegative(bc, bmi);
        vstd::arithmetic::mul::lemma_mul_nonnegative(bc, bti);
    }
    let left = h_add(&vp3, &vp0, Ghost(brow), Ghost(brow));
    let right = h_sub(&vp3, &vp0, Ghost(brow), Ghost(brow));
    let bottom = h_add(&vp3, &vp1, Ghost(brow), Ghost(brow));
    let top = h_sub(&vp3, &vp1, Ghost(brow), Ghost(brow));
    let base_near = h_sub(&vp3, &vp2, Ghost(brow), Ghost(brow));

    // Far half space from the camera's backward direction and far distance.
    proof {
        assert({
            &&& bc * cm <= i128::MAX
            &&& cm * (bc * cm) <= i128::MAX
            &&& cm * cm <= i128::MAX
            &&& bc * (cm * cm) <= i128::MAX
            &&& 3 * (cm * ct) <= i128::MAX
            &&& bc * (3 * (cm * ct)) <= i128::MAX
            &&& bc * (cm * cm) + bc * (3 * (cm * ct)) <= i128::MAX
        }) by (nonlinear_arith)
            requires
                cm == 68719476736,
                ct == 9007199254740992,
                bc == 262144,
        {}
        lemma_mul_abs_le(far_den as int, bc, cam@.w, cm);
        lemma_mul_abs_le(cam@.w, cm, cam@.s, cm);
        lemma_dotv_bound(cam@.m.col2(), cm, cam@.t, ct);
        lemma_mul_abs_le(far_num as int, bc, cam@.w * cam@.s, cm * cm);
        lemma_mul_abs_le(far_den as int, bc, cam@.m.col2().dotv(cam@.t), 3 * (cm * ct));
    }
    let fdw = mul_b(far_den, cam.w, Ghost(bc), Ghost(cm));
    let fa = mul_b(cam.m.m02, fdw, Ghost(cm), Ghost(bc * cm));
    let fb = mul_b(cam.m.m12, fdw, Ghost(cm), Ghost(bc * cm));
    let fc = mul_b(cam.m.m22, fdw, Ghost(cm), Ghost(bc * cm));
    let ws = mul_b(cam.w, cam.s, Ghost(cm), Ghost(cm));
    let fnws = mul_b(far_num, ws, Ghost(bc), Ghost(cm * cm));
    let c2t = lin3(cam.m.m02, cam.t.x, cam.m.m12, cam.t.y, cam.m.m22, cam.t.z,
        Ghost(cm), Ghost(ct));
    let fdc = mul_b(far_den, c2t, Ghost(bc), Ghost(3 * (cm * ct)));
    let far = HalfSpace { a: fa, b: fb, c: fc, d: fnws - fdc };

    // Near half space according to the portal mode.
    let near = near_for_mode(cam, dest, mode, &base_near, Ghost(brow));

    let r = Frustum { left, right, bottom, top, near, far };
    proof {
        assert(r@ =~= sp_frustum(cam@, clip@, far_num as int, far_den as int, dest@, *mode));
    }
    r
}

/// Computes the near half space for the given portal mode.
#[verifier::spinoff_prover]
fn near_for_mode(
    cam: &Pose, dest: &Pose, mode: &PortalMode, base: &HalfSpace, Ghost(bb): Ghost<int>,
) -> (r: HalfSpace)
    requires
        cam@.wf(),
        cam@.within(CAM_MAT_LIMIT as int, CAM_T_LIMIT as int),
        dest@.wf(),
        dest@.within(POSE_MAT_LIMIT as int, POSE_T_LIMIT as int),
        (*mode).wf(),
    ensures
        r@ == sp_near_for_mode(cam@, dest@, *mode, base@),
{
    let ghost cm: int = CAM_MAT_LIMIT as int;
    let ghost ct: int = CAM_T_LIMIT as int;
    proof {
        assert(CAM_MAT_LIMIT == 68719476736);
        assert(CAM_T_LIMIT == 9007199254740992);
        assert(POSE_MAT_LIMIT == 256);
        assert(POSE_T_LIMIT == 16777216);
        assert(EPS_DEN == 100000);
    }
    match mode {
        PortalMode::MaskedImageNoFrustum => *base,
        PortalMode::MaskedImageHalfSpaceFrustum { plane, switch_normal } => {
            proof {
                assert({
                    &&& 3 * (256int * 256int) <= i128::MAX
                    &&& 256int * 256int <= i128::MAX
                    &&& 256int <= 3 * (256int * 256int)
                    &&& 256int <= 256int * 256int
                }) by (nonlinear_arith);
            }
            let (v0, len, dn, dd): (Vec3, i128, i128, i128) = match plane {
                Option::None => (
                    Vec3 { x: -dest.m.m02, y: -dest.m.m12, z: -dest.m.m22 },
                    dest.s, 0, 1,
                ),
                Option::Some(pl) => {
                    proof {
                        lemma_applyv_bound(dest@.m, 256int, pl.normal@, 256int);
                        lemma_mul_abs_le(dest@.s, 256int, pl.normal_len as int, 256int);
                    }
                    (
                        mat_apply_b(&dest.m, &pl.normal, Ghost(256int), Ghost(256int)),
                        mul_b(dest.s, pl.normal_len, Ghost(256int), Ghost(256int)),
                        pl.offset_num,
                        pl.offset_den,
                    )
                },
            };
            let ghost bv: int = 3 * (256int * 256int);
            let ghost bl: int = 256int * 256int;
            proof {
                assert(v0@.within(bv));
                assert(-bl <= len <= bl);
                assert(-256 <= dn <= 256 && 0 < dd <= 256);
                assert({
                    &&& 256int * ct <= i128::MAX
                    &&& cm * 16777216int <= i128::MAX
                    &&& 256int * ct + cm * 16777216int <= i128::MAX
                    &&& 3 * ((3 * (256int * 256int)) * (256int * ct + cm * 16777216int))
                        <= i128::MAX
                }) by (nonlinear_arith)
                    requires
                        cm == 68719476736,
                        ct == 9007199254740992,
                {}
                lemma_scaled_bound(cam@.t, ct, dest@.w, 256int);
                lemma_scaled_bound(dest@.t, 16777216int, cam@.w, cm);
            }
            let swv = {
                if *switch_normal {
                    let s1 = v_scale_b(&cam.t, dest.w, Ghost(ct), Ghost(256int));
                    let s2 = v_scale_b(&dest.t, cam.w, Ghost(16777216int), Ghost(cm));
                    let diff = v_sub_b(&s1, &s2, Ghost(256int * ct), Ghost(cm * 16777216int));
                    let dot = lin3(v0.x, diff.x, v0.y, diff.y, v0.z, diff.z,
                        Ghost(bv), Ghost(256int * ct + cm * 16777216int));
                    if dot >= 0 {
                        Vec3 { x: -v0.x, y: -v0.y, z: -v0.z }
                    } else {
                        v0
                    }
                } else {
                    v0
                }
            };
            proof {
                assert(swv@ == if *switch_normal && sp_switch_side(cam@, dest@, v0@) {
                    v0@.neg()
                } else {
                    v0@
                });
                assert(swv@.within(bv));
                assert({
                    &&& 256int * 256int <= i128::MAX
                    &&& (256int * 256int) * 100000int <= i128::MAX
                    &&& (3 * (256int * 256int)) * ((256int * 256int) * 100000int) <= i128::MAX
                    &&& 3 * (16777216int * (3 * (256int * 256int))) <= i128::MAX
                    &&& 256int * 100000int <= i128::MAX
                    &&& (3 * (16777216int * (3 * (256int * 256int)))) * (256int * 100000int)
                        <= i128::MAX
                    &&& (256int * 256int) * 256int <= i128::MAX
                    &&& ((256int * 256int) * 256int) * 100000int <= i128::MAX
                    &&& 256int * (((256int * 256int) * 256int) * 100000int) <= i128::MAX
                    &&& ((256int * 256int) * 256int) * 256int <= i128::MAX
                    &&& (3 * (16777216int * (3 * (256int * 256int)))) * (256int * 100000int)
                        + 256int * (((256int * 256int) * 256int) * 100000int)
                        + ((256int * 256int) * 256int) * 256int <= i128::MAX
                }) by (nonlinear_arith);
                lemma_dotv_bound(dest@.t, 16777216int, swv@, bv);
                lemma_mul_abs_le(dest@.w, 256int, dd as int, 256int);
                lemma_mul_abs_le(dest@.w * dd, 256int * 256int, EPS_DEN as int, 100000int);
                lemma_mul_abs_le(len as int, bl, dest@.w, 256int);
                lemma_mul_abs_le(dd as int, 256int, EPS_DEN as int, 100000int);
                lemma_mul_abs_le(dest@.t.dotv(swv@), 3 * (16777216int * bv), (dd as int) * (EPS_DEN as int), 256int * 100000int);
                lemma_mul_abs_le((len as int) * dest@.w, bl * 256int, EPS_DEN as int, 100000int);
                lemma_mul_abs_le(dn as int, 256int, ((len as int) * dest@.w) * (EPS_DEN as int), (bl * 256int) * 100000int);
                lemma_mul_abs_le((len as int) * dest@.w, bl * 256int, dd as int, 256int);
            }
            let k1 = mul_b(dest.w, dd, Ghost(256int), Ghost(256int));
            let k2 = mul_b(k1, EPS_DEN, Ghost(256int * 256int), Ghost(100000int));
            let q = lin3(dest.t.x, swv.x, dest.t.y, swv.y, dest.t.z, swv.z,
                Ghost(16777216int), Ghost(bv));
            let dde = mul_b(dd, EPS_DEN, Ghost(256int), Ghost(100000int));
            let t1 = mul_b(q, dde, Ghost(3 * (16777216int * bv)), Ghost(256int * 100000int));
            let lenw = mul_b(len, dest.w, Ghost(bl), Ghost(256int));
            let lwe = mul_b(lenw, EPS_DEN, Ghost(bl * 256int), Ghost(100000int));
            let t2 = mul_b(dn, lwe, Ghost(256int), Ghost((bl * 256int) * 100000int));
            let t3 = mul_b(lenw, dd, Ghost(bl * 256int), Ghost(256int));
            HalfSpace {
                a: mul_b(swv.x, k2, Ghost(bv), Ghost((256int * 256int) * 100000int)),
                b: mul_b(swv.y, k2, Ghost(bv), Ghost((256int * 256int) * 100000int)),
                c: mul_b(swv.z, k2, Ghost(bv), Ghost((256int * 256int) * 100000int)),
                d: -t1 - t2 - t3,
            }
        },
        PortalMode::MaskedImageSphereHalfSpaceFrustum {
            origin, origin_w, radius_num, radius_den,
        } => {
            proof {
                assert({
                    &&& 256int * 256int <= i128::MAX
                    &&& (256int * 256int) * 256int <= i128::MAX
                    &&& ((256int * 256int) * 256int) * cm <= i128::MAX
                    &&& cm * (((256int * 256int) * 256int) * cm) <= i128::MAX
                    &&& (256int * 256int) * cm <= i128::MAX
                    &&& 16777216int * ((256int * 256int) * cm) <= i128::MAX
                    &&& (256int * 256int) * 256int <= i128::MAX
                    &&& cm * ((256int * 256int) * 256int) <= i128::MAX
                    &&& 16777216int * ((256int * 256int) * cm) + 16777216int * ((256int * 256int) * cm)
                        + cm * ((256int * 256int) * 256int) <= i128::MAX
                    &&& 3 * ((16777216int * ((256int * 256int) * cm)
                        + 16777216int * ((256int * 256int) * cm)
                        + cm * ((256int * 256int) * 256int)) * cm) <= i128::MAX
                    &&& ((256int * 256int) * 256int) * cm <= i128::MAX
                    &&& cm * (((256int * 256int) * 256int) * cm) <= i128::MAX
                }) by (nonlinear_arith)
                    requires
                        cm == 68719476736,
                {}
                lemma_mul_abs_le(dest@.w, 256int, *origin_w as int, 256int);
                lemma_mul_abs_le(dest@.w * (*origin_w as int), 256int * 256int, *radius_den as int, 256int);
                lemma_mul_abs_le((dest@.w * (*origin_w as int)) * (*radius_den as int), (256int * 256int) * 256int, cam@.s, cm);
                lemma_mul_abs_le(*origin_w as int, 256int, *radius_den as int, 256int);
                lemma_mul_abs_le((*origin_w as int) * (*radius_den as int), 256int * 256int, cam@.s, cm);
                lemma_mul_abs_le(*radius_den as int, 256int, cam@.s, cm);
                lemma_mul_abs_le(dest@.w, 256int, *radius_den as int, 256int);
                lemma_mul_abs_le(dest@.w * (*radius_den as int), 256int * 256int, cam@.s, cm);
                lemma_mul_abs_le(*radius_num as int, 256int, dest@.w, 256int);
                lemma_mul_abs_le((*radius_num as int) * dest@.w, 256int * 256int, *origin_w as int, 256int);
            }
            let v = Vec3 { x: -cam.m.m02, y: -cam.m.m12, z: -cam.m.m22 };
            let dwow = mul_b(dest.w, *origin_w, Ghost(256int), Ghost(256int));
            let dwowrd = mul_b(dwow, *radius_den, Ghost(256int * 256int), Ghost(256int));
            let den = mul_b(dwowrd, cam.s, Ghost((256int * 256int) * 256int), Ghost(cm));
            let owrd = mul_b(*origin_w, *radius_den, Ghost(256int), Ghost(256int));
            let k_t = mul_b(owrd, cam.s, Ghost(256int * 256int), Ghost(cm));
            let rds = mul_b(*radius_den, cam.s, Ghost(256int), Ghost(cm));
            let dwrd = mul_b(dest.w, *radius_den, Ghost(256int), Ghost(256int));
            let k_o = mul_b(dwrd, cam.s, Ghost(256int * 256int), Ghost(cm));
            let rndw = mul_b(*radius_num, dest.w, Ghost(256int), Ghost(256int));
            let k_v = mul_b(rndw, *origin_w, Ghost(256int * 256int), Ghost(256int));
            let ghost bkt: int = (256int * 256int) * cm;
            let ghost bkv: int = (256int * 256int) * 256int;
            let ghost bax: int = 16777216int * bkt + 16777216int * bkt + cm * bkv;
            proof {
                lemma_mul_abs_le(dest@.t.x, 16777216int, k_t as int, bkt);
                lemma_mul_abs_le(dest@.t.y, 16777216int, k_t as int, bkt);
                lemma_mul_abs_le(dest@.t.z, 16777216int, k_t as int, bkt);
                lemma_mul_abs_le(origin@.x, 16777216int, k_o as int, bkt);
                lemma_mul_abs_le(origin@.y, 16777216int, k_o as int, bkt);
                lemma_mul_abs_le(origin@.z, 16777216int, k_o as int, bkt);
                lemma_mul_abs_le(v@.x, cm, k_v as int, bkv);
                lemma_mul_abs_le(v@.y, cm, k_v as int, bkv);
                lemma_mul_abs_le(v@.z, cm, k_v as int, bkv);
            }
            let ax = mul_b(dest.t.x, k_t, Ghost(16777216int), Ghost(bkt))
                + mul_b(origin.x, k_o, Ghost(16777216int), Ghost(bkt))
                - mul_b(v.x, k_v, Ghost(cm), Ghost(bkv));
            let ay = mul_b(dest.t.y, k_t, Ghost(16777216int), Ghost(bkt))
                + mul_b(origin.y, k_o, Ghost(16777216int), Ghost(bkt))
                - mul_b(v.y, k_v, Ghost(cm), Ghost(bkv));
            let az = mul_b(dest.t.z, k_t, Ghost(16777216int), Ghost(bkt))
                + mul_b(origin.z, k_o, Ghost(16777216int), Ghost(bkt))
                - mul_b(v.z, k_v, Ghost(cm), Ghost(bkv));
            let d = lin3(ax, v.x, ay, v.y, az, v.z, Ghost(bax), Ghost(cm));
            proof {
                lemma_mul_abs_le(ax as int, bax, v@.x, cm);
                lemma_mul_abs_le(ay as int, bax, v@.y, cm);
                lemma_mul_abs_le(az as int, bax, v@.z, cm);
            }
            HalfSpace {
                a: mul_b(v.x, den, Ghost(cm), Ghost(bkv * cm)),
                b: mul_b(v.y, den, Ghost(cm), Ghost(bkv * cm)),
                c: mul_b(v.z, den, Ghost(cm), Ghost(bkv * cm)),
                d: -d,
            }
        },
    }
}

/// Near-plane containment: with the default half-space mode the
/// destination's own origin lies exactly the epsilon margin `1 / EPS_DEN`
/// behind the computed near plane (the plane function is scaled by the
/// positive factor `dest.s * dest.w * EPS_DEN`, so the normalized signed
/// distance of the origin is exactly `-1 / EPS_DEN`).
#[verifier::spinoff_prover]
pub proof fn lemma_near_plane_contains_destination(dest: SPose)
    requires
        dest.wf(),
    ensures
        sp_eval(
            sp_near_half(dest, dest.m.col2().neg(), dest.s, 0, 1),
            dest.t,
            dest.w,
        ) == -(dest.s * (dest.w * dest.w)),
        0 < dest.s * (dest.w * dest.w),
{
    lemma_near_eval_algebra(dest);
    lemma_mul_pos(dest.w, dest.w);
    lemma_mul_pos(dest.s, dest.w * dest.w);
}

/// The algebraic core of the near-plane containment law; holds for any
/// pose value.
#[verifier::spinoff_prover]
proof fn lemma_near_eval_algebra(dest: SPose)
    ensures
        sp_eval(
            sp_near_half(dest, dest.m.col2().neg(), dest.s, 0, 1),
            dest.t,
            dest.w,
        ) == -(dest.s * (dest.w * dest.w)),
{
    broadcast use vstd::arithmetic::mul::lemma_mul_is_commutative;

    let v = dest.m.col2().neg();
    let e = EPS_DEN as int;
    let q = dest.t.dotv(v);
    let k = (dest.w * 1) * e;
    crate::bounds::lemma_poly_scale3_left(k, v.x, v.y, v.z, dest.t.x, dest.t.y, dest.t.z);
    let d = -(q * (1 * e)) - 0 * ((dest.s * dest.w) * e) - (dest.s * dest.w) * 1;
    vstd::arithmetic::mul::lemma_mul_is_distributive_sub(
        dest.w, -(q * (1 * e)) - 0 * ((dest.s * dest.w) * e), (dest.s * dest.w) * 1);
    vstd::arithmetic::mul::lemma_mul_is_distributive_sub(
        dest.w, -(q * (1 * e)), 0 * ((dest.s * dest.w) * e));
    vstd::arithmetic::mul::lemma_mul_unary_negation(q * (1 * e), dest.w);
    lemma_poly_near_eval(q, dest.w, e, dest.s);
}

} // verus!
