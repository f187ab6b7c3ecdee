//! The portal-camera transform solver.
//!
//! The auxiliary camera must stand to the destination as the main camera
//! stands to the portal surface: its pose is
//! `destination * inverse(portal) * main_camera`, optionally mirrored across
//! a plane given in destination-local space.

use vstd::prelude::*;
use crate::linalg::{SVec3, SMat3, Vec3, Mat3, mul_b, mat_apply_b, v_scale_b, v_add_b,
    lemma_applyv_bound, lemma_scaled_bound, lemma_applyv_scaled_identity, lemma_applyv_matmul,
    lemma_applyv_linear, lemma_matmul_scaled_right, lemma_matmul_scaled_left, lemma_matmul_identity, lemma_scaledm_scaledm,
    lemma_scaled_scaled, lemma_dotv_comm};
use crate::pose::{SPose, Pose, sp_compose, sp_inverse, pose_equiv, similar, lemma_similar_dot,
    lemma_compose_wf, lemma_inverse_wf, lemma_compose_within, lemma_inverse_within,
    POSE_MAT_LIMIT, POSE_T_LIMIT};
use crate::mirror::{sp_mirror_pose, mirror_pose_b, lemma_mirror_wf};
use crate::bounds::{lemma_mul_abs_le, lemma_mul_pos, lemma_poly_assoc, lemma_poly_swap3};

verus! {

/// Mirror configuration in destination-local space: the plane through
/// `origin / origin_w` with normal direction `normal`, plus the two
/// independent texture flip flags, which the solver hands through to the
/// renderer untouched.
#[derive(Clone, Copy, PartialEq, Eq, Structural, Debug)]
pub struct MirrorSpec {
    pub origin: Vec3,
    pub origin_w: i128,
    pub normal: Vec3,
    pub mirror_u: bool,
    pub mirror_v: bool,
}

/// Unbounded-integer mirror configuration, the view of [`MirrorSpec`].
pub struct SMirror {
    pub ov: SVec3,
    pub ow: int,
    pub n: SVec3,
}

impl View for MirrorSpec {
    type V = SMirror;

    open spec fn view(&self) -> SMirror {
        SMirror { ov: self.origin@, ow: self.origin_w as int, n: self.normal@ }
    }
}

impl SMirror {
    /// Valid mirror configuration: positive origin denominator, non-zero
    /// normal, all within the external input limits.
    pub open spec fn wf(self) -> bool {
        &&& 0 < self.ow <= POSE_MAT_LIMIT as int
        &&& 0 < self.n.dotv(self.n)
        &&& self.ov.within(POSE_T_LIMIT as int)
        &&& self.n.within(POSE_MAT_LIMIT as int)
    }
}

impl MirrorSpec {
    /// Runtime check of [`SMirror::wf`], for hosts that assemble mirror
    /// configurations by hand.
    pub fn check_wf(&self) -> (r: bool)
        ensures
            r == self@.wf(),
    {
        if !(0 < self.origin_w && self.origin_w <= POSE_MAT_LIMIT) {
            return false;
        }
        if !crate::linalg::v3_within(&self.origin, POSE_T_LIMIT) {
            return false;
        }
        if !crate::linalg::v3_within(&self.normal, POSE_MAT_LIMIT) {
            return false;
        }
        proof {
            assert(POSE_MAT_LIMIT == 256);
            assert(3 * (256int * 256int) <= i128::MAX) by (nonlinear_arith);
        }
        let nn = crate::linalg::lin3(self.normal.x, self.normal.x, self.normal.y, self.normal.y,
            self.normal.z, self.normal.z, Ghost(256int), Ghost(256int));
        0 < nn
    }
}

impl Default for MirrorSpec {
    /// Defaults to a plane through the destination's origin with the local
    /// horizontal axis as its normal, flipping only the horizontal texture
    /// coordinate: the standard planar-mirror configuration.
    fn default() -> (r: Self)
        ensures
            r.origin@ == crate::linalg::SVec3::zero(),
            r.origin_w == 1,
            r.normal@ == (crate::linalg::SVec3 { x: 1, y: 0, z: 0 }),
            r.mirror_u,
            !r.mirror_v,
            r@.wf(),
    {
        MirrorSpec {
            origin: Vec3 { x: 0, y: 0, z: 0 },
            origin_w: 1,
            normal: Vec3 { x: 1, y: 0, z: 0 },
            mirror_u: true,
            mirror_v: false,
        }
    }
}

/// The mirror plane origin carried into world space by the destination pose.
pub open spec fn sp_world_origin(dest: SPose, ov: SVec3, ow: int) -> SVec3 {
    dest.m.applyv(ov).plus(dest.t.scaled(ow))
}

/// The mirror plane normal direction carried into world space by the
/// destination pose.
pub open spec fn sp_world_normal(dest: SPose, n: SVec3) -> SVec3 {
    dest.m.applyv(n)
}

/// The solved portal-camera pose: `dest * inverse(portal) * cam`, mirrored
/// across the world-space image of the destination-local mirror plane when
/// one is given.
pub open spec fn sp_solve(cam: SPose, portal: SPose, dest: SPose, mir: Option<SMirror>) -> SPose {
    let base = sp_compose(sp_compose(dest, sp_inverse(portal)), cam);
    match mir {
        Option::None => base,
        Option::Some(mi) => sp_mirror_pose(
            base,
            sp_world_origin(dest, mi.ov, mi.ow),
            dest.w * mi.ow,
            sp_world_normal(dest, mi.n),
        ),
    }
}

/// Identity law: when the destination coincides with the portal and no
/// mirror is configured, the solved portal-camera pose is the main camera's
/// pose.
#[verifier::spinoff_prover]
pub proof fn lemma_solve_identity(cam: SPose, portal: SPose)
    requires
        cam.wf(),
        portal.wf(),
    ensures
        pose_equiv(sp_solve(cam, portal, portal, Option::None), cam),
{
    broadcast use lemma_dotv_comm, vstd::arithmetic::mul::lemma_mul_is_commutative;

    let i = sp_inverse(portal);
    let c1 = sp_compose(portal, i);
    let c2 = sp_compose(c1, cam);
    let m = portal.m;
    let s = portal.s;
    let w = portal.w;

    // portal composed with its inverse is a positive multiple of the
    // identity pose.
    lemma_matmul_scaled_right(m, m.transp(), w);
    assert(m.transp().col0() == m.row0());
    assert(m.transp().col1() == m.row1());
    assert(m.transp().col2() == m.row2());
    assert(m.matmul(m.transp()) =~= SMat3::identity().scaledm(s * s));
    assert(c1.m == SMat3::identity().scaledm(s * s).scaledm(w));
    lemma_scaledm_scaledm(SMat3::identity(), s * s, w);
    assert(c1.m == SMat3::identity().scaledm((s * s) * w));

    lemma_applyv_linear(m, m.transp().applyv(portal.t), m.transp().applyv(portal.t));
    assert(m.applyv(m.transp().applyv(portal.t).neg()) == m.applyv(m.transp().applyv(portal.t)).neg());
    lemma_applyv_matmul(m, m.transp(), portal.t);
    lemma_applyv_scaled_identity(s * s, portal.t);
    assert(m.applyv(m.transp().applyv(portal.t)) == portal.t.scaled(s * s));
    assert(c1.t == portal.t.scaled(s * s).neg().plus(portal.t.scaled(i.w)));
    assert(c1.t =~= SVec3::zero());

    // Composing the scaled identity with the camera scales the camera.
    lemma_matmul_scaled_left(SMat3::identity(), cam.m, (s * s) * w);
    lemma_matmul_identity(cam.m);
    assert(c2.m == cam.m.scaledm((s * s) * w));
    lemma_applyv_scaled_identity((s * s) * w, cam.t);
    vstd::arithmetic::mul::lemma_mul_basics(cam.w);
    assert(SVec3::zero().scaled(cam.w) =~= SVec3::zero());
    assert(c1.t.scaled(cam.w) == SVec3::zero().scaled(cam.w));
    assert(c2.t =~= cam.t.scaled((s * s) * w));

    // Cross-multiplied equality with the camera pose.
    lemma_scaledm_scaledm(cam.m, (s * s) * w, cam.w);
    assert(c2.m.scaledm(cam.w) == cam.m.scaledm(((s * s) * w) * cam.w));
    lemma_poly_assoc((s * s) * w, cam.w, 1);
    assert(c2.w == (w * (s * s)) * cam.w);
    assert(((s * s) * w) * cam.w == (w * (s * s)) * cam.w);
    lemma_scaled_scaled(cam.t, (s * s) * w, cam.w);
    assert(c2.t.scaled(cam.w) == cam.t.scaled(((s * s) * w) * cam.w));
    assert(c2.s * cam.w == cam.s * c2.w) by (nonlinear_arith)
        requires
            c2.s == (s * (w * s)) * cam.s,
            c2.w == (w * (s * s)) * cam.w,
    {}
}

/// Solves the world pose of the portal camera from the main camera, portal
/// and destination poses and an optional mirror, exactly.
///
/// Well-formedness of the inputs is a precondition: a well-formed pose has
/// a positive scale, so the portal pose is always invertible and the
/// degenerate-scale failure a floating-point implementation must guard
/// against cannot arise.
#[verifier::spinoff_prover]
pub fn solve_portal_camera_pose(
    cam: &Pose, portal: &Pose, dest: &Pose, mirror: Option<&MirrorSpec>,
) -> (r: Pose)
    requires
        cam@.wf(),
        portal@.wf(),
        dest@.wf(),
        cam@.within(POSE_MAT_LIMIT as int, POSE_T_LIMIT as int),
        portal@.within(POSE_MAT_LIMIT as int, POSE_T_LIMIT as int),
        dest@.within(POSE_MAT_LIMIT as int, POSE_T_LIMIT as int),
        match mirror {
            Option::Some(mi) => mi@.wf(),
            Option::None => true,
        },
    ensures
        r@ == sp_solve(cam@, portal@, dest@, match mirror {
            Option::Some(mi) => Option::Some(mi@),
            Option::None => Option::None,
        }),
        r@.wf(),
{
    proof {
        assert(POSE_MAT_LIMIT == 256);
        assert(POSE_T_LIMIT == 16777216);
        assert({
            &&& 3 * (256int * 256int) <= i128::MAX
            &&& 3 * (256int * 16777216int) <= i128::MAX
            &&& 3 * (256int * (256int * 256int)) <= i128::MAX
            &&& 3 * (256int * (3 * (256int * 16777216int))) + (256int * 256int) * 16777216int
                <= i128::MAX
            &&& 3 * ((3 * (256int * (256int * 256int))) * 256int) <= i128::MAX
            &&& 3 * ((3 * (256int * (256int * 256int))) * 16777216int)
                + 256int * (3 * (256int * (3 * (256int * 16777216int)))
                    + (256int * 256int) * 16777216int) <= i128::MAX
        }) by (nonlinear_arith);
        lemma_inverse_wf(portal@);
        lemma_inverse_within(portal@, 256int, 16777216int);
        lemma_compose_wf(dest@, sp_inverse(portal@));
        lemma_compose_within(dest@, 256int, 16777216int, sp_inverse(portal@),
            256int * 256int, 3 * (256int * 16777216int));
        lemma_compose_wf(sp_compose(dest@, sp_inverse(portal@)), cam@);
        lemma_compose_within(sp_compose(dest@, sp_inverse(portal@)),
            3 * (256int * (256int * 256int)),
            3 * (256int * (3 * (256int * 16777216int))) + (256int * 256int) * 16777216int,
            cam@, 256int, 16777216int);
    }
    let inv = portal.inverse_b(Ghost(256int), Ghost(16777216int));
    let c1 = Pose::compose_b(dest, &inv, Ghost(256int), Ghost(16777216int),
        Ghost(256int * 256int), Ghost(3 * (256int * 16777216int)));
    let ghost m1: int = 3 * (256int * (256int * 256int));
    let ghost t1: int = 3 * (256int * (3 * (256int * 16777216int))) + (256int * 256int) * 16777216int;
    let c2 = Pose::compose_b(&c1, cam, Ghost(m1), Ghost(t1), Ghost(256int), Ghost(16777216int));
    let ghost m2: int = 3 * (m1 * 256int);
    let ghost t2: int = 3 * (m1 * 16777216int) + 256int * t1;
    match mirror {
        Option::None => c2,
        Option::Some(mi) => {
            proof {
                lemma_applyv_bound(dest.m@, 256int, mi.origin@, 16777216int);
                lemma_scaled_bound(dest.t@, 16777216int, mi.origin_w as int, 256int);
                lemma_applyv_bound(dest.m@, 256int, mi.normal@, 256int);
                lemma_mul_abs_le(dest.w as int, 256int, mi.origin_w as int, 256int);
                lemma_mul_pos(dest@.w, mi@.ow);
                lemma_similar_dot(dest@.m, dest@.s, mi@.n, mi@.n);
                lemma_mul_pos(dest@.s, dest@.s);
                lemma_mul_pos(dest@.s * dest@.s, mi@.n.dotv(mi@.n));
                lemma_mirror_wf(c2@, sp_world_origin(dest@, mi@.ov, mi@.ow),
                    dest@.w * mi@.ow, sp_world_normal(dest@, mi@.n));
            }
            let wov = mat_apply_b(&dest.m, &mi.origin, Ghost(256int), Ghost(16777216int));
            let wot = v_scale_b(&dest.t, mi.origin_w, Ghost(16777216int), Ghost(256int));
            let ov = v_add_b(&wov, &wot, Ghost(3 * (256int * 16777216int)),
                Ghost(256int * 16777216int));
            let ow = mul_b(dest.w, mi.origin_w, Ghost(256int), Ghost(256int));
            let n = mat_apply_b(&dest.m, &mi.normal, Ghost(256int), Ghost(256int));
            let ghost bo: int = 3 * (256int * 16777216int) + 256int * 16777216int;
            let ghost bw: int = 256int * 256int;
            let ghost bn: int = 3 * (256int * 256int);
            proof {
                assert({
                    &&& 5 * (bn * bn) <= i128::MAX
                    &&& 3 * (m2 * 1) <= i128::MAX
                    &&& 3 * ((5 * (bn * bn)) * (3 * (m2 * 1))) <= i128::MAX
                    &&& bw * (3 * ((5 * (bn * bn)) * (3 * (m2 * 1)))) <= i128::MAX
                    &&& bw * t2 <= i128::MAX
                    &&& m2 * bo <= i128::MAX
                    &&& bw * t2 + m2 * bo <= i128::MAX
                    &&& 3 * ((5 * (bn * bn)) * (bw * t2 + m2 * bo)) <= i128::MAX
                    &&& (3 * (bn * bn)) * m2 <= i128::MAX
                    &&& ((3 * (bn * bn)) * m2) * bo <= i128::MAX
                    &&& ((3 * (bn * bn)) * m2) * bo
                        + 3 * ((5 * (bn * bn)) * (bw * t2 + m2 * bo)) <= i128::MAX
                    &&& m2 * bw <= i128::MAX
                    &&& (3 * (bn * bn)) * (m2 * bw) <= i128::MAX
                    &&& (3 * (bn * bn)) * bw <= i128::MAX
                    &&& m2 * ((3 * (bn * bn)) * bw) <= i128::MAX
                }) by (nonlinear_arith)
                    requires
                        m1 == 3 * (256int * (256int * 256int)),
                        t1 == 3 * (256int * (3 * (256int * 16777216int)))
                            + (256int * 256int) * 16777216int,
                        m2 == 3 * (m1 * 256int),
                        t2 == 3 * (m1 * 16777216int) + 256int * t1,
                        bo == 3 * (256int * 16777216int) + 256int * 16777216int,
                        bw == 256int * 256int,
                        bn == 3 * (256int * 256int),
                {}
            }
            mirror_pose_b(&c2, &ov, ow, &n, Ghost(m2), Ghost(t2), Ghost(bo), Ghost(bw), Ghost(bn))
        },
    }
}

} // verus!
