//! Mirroring a pose across a plane.
//!
//! The plane is given by an origin point (homogeneous, `ov / ow`) and a
//! normal direction `n` that need not be normalized: all formulas carry the
//! squared length `n.n` as an extra positive factor instead of dividing by
//! it. The reflection matrix is the scaled Householder matrix
//! `(n.n) I - 2 n nT`. A mirrored pose keeps its position reflected across
//! the plane, and its orientation keeps the reflected forward and up
//! directions (its right direction is the negated reflection, which is what
//! rebuilding a look rotation from the reflected forward and up directions
//! yields for a right-handed frame).

use vstd::prelude::*;
use crate::linalg::{SVec3, SMat3, Vec3, Mat3, lin3, mul_b, mat_mul_b, mat_apply_b, mat_scale_b,
    v_scale_b, v_add_b, v_sub_b, lemma_dotv_bound, lemma_matmul_bound, lemma_applyv_bound,
    lemma_scaled_bound, lemma_scaledm_bound, lemma_scaled_scaled, lemma_scaled_linear,
    lemma_applyv_scaled, lemma_applyv_matmul, lemma_applyv_scaled_identity, lemma_matmul_scaled_left, lemma_matmul_scaled_right, lemma_matmul_assoc,
    lemma_matmul_identity, lemma_scaledm_scaledm};
use crate::pose::{SPose, Pose, similar, pose_equiv, lemma_matmul_similar, lemma_scaledm_similar,
    POSE_MAT_LIMIT, POSE_T_LIMIT};
use crate::bounds::{lemma_mul_abs_le, lemma_mul_pos, lemma_poly_assoc, lemma_poly_householder_diag,
    lemma_poly_householder_off, lemma_poly_mirror_shuffle, lemma_poly_swap3};

verus! {

/// The reflection matrix `(n.n) I - 2 n nT`, scaled by the squared length
/// of the unnormalized normal `n`.
pub open spec fn householder(n: SVec3) -> SMat3 {
    SMat3 {
        m00: n.dotv(n) - 2 * (n.x * n.x),
        m01: -(2 * (n.x * n.y)),
        m02: -(2 * (n.x * n.z)),
        m10: -(2 * (n.x * n.y)),
        m11: n.dotv(n) - 2 * (n.y * n.y),
        m12: -(2 * (n.y * n.z)),
        m20: -(2 * (n.x * n.z)),
        m21: -(2 * (n.y * n.z)),
        m22: n.dotv(n) - 2 * (n.z * n.z),
    }
}

/// The sign flip that restores a right-handed frame after a reflection.
pub open spec fn sflip() -> SMat3 {
    SMat3 { m00: -1, m01: 0, m02: 0, m10: 0, m11: 1, m12: 0, m20: 0, m21: 0, m22: 1 }
}

/// A pose mirrored across the world-space plane through `ov / ow` with
/// normal direction `n`. The denominator picks up the factor
/// `(n.n) * ow`, so the represented transform is exact for any
/// non-degenerate plane.
pub open spec fn sp_mirror_pose(p: SPose, ov: SVec3, ow: int, n: SVec3) -> SPose {
    let h = householder(n);
    let nn = n.dotv(n);
    SPose {
        m: h.matmul(p.m.matmul(sflip())).scaledm(ow),
        t: ov.scaled(nn * p.w).plus(h.applyv(p.t.scaled(ow).minus(ov.scaled(p.w)))),
        w: nn * (p.w * ow),
        s: p.s * (nn * ow),
    }
}

/// The Householder matrix is a similarity matrix with scale `n.n`.
#[verifier::spinoff_prover]
pub proof fn lemma_householder_similar(n: SVec3)
    ensures
        similar(householder(n), n.dotv(n)),
{
    broadcast use vstd::arithmetic::mul::lemma_mul_is_commutative;

    lemma_poly_householder_diag(n.x, n.y, n.z);
    lemma_poly_householder_diag(n.y, n.x, n.z);
    lemma_poly_householder_diag(n.z, n.y, n.x);
    lemma_poly_householder_off(n.x, n.y, n.z);
    lemma_poly_householder_off(n.y, n.z, n.x);
    lemma_poly_householder_off(n.z, n.x, n.y);
}

/// Applying the Householder matrix twice scales by the square of `n.n`.
#[verifier::rlimit(60)]
#[verifier::spinoff_prover]
pub proof fn lemma_householder_involution(n: SVec3)
    ensures
        householder(n).matmul(householder(n))
            == SMat3::identity().scaledm(n.dotv(n) * n.dotv(n)),
{
    broadcast use crate::linalg::lemma_dotv_comm;

    let h = householder(n);
    lemma_householder_similar(n);
    assert(h.row0() == h.col0());
    assert(h.row1() == h.col1());
    assert(h.row2() == h.col2());
    let k = n.dotv(n) * n.dotv(n);
    vstd::arithmetic::mul::lemma_mul_basics(k);
    assert(h.matmul(h).m00 == k * 1);
    assert(h.matmul(h).m11 == k * 1);
    assert(h.matmul(h).m22 == k * 1);
    assert(h.matmul(h).m01 == k * 0);
    assert(h.matmul(h).m02 == k * 0);
    assert(h.matmul(h).m10 == k * 0);
    assert(h.matmul(h).m12 == k * 0);
    assert(h.matmul(h).m20 == k * 0);
    assert(h.matmul(h).m21 == k * 0);
    assert(h.matmul(h) =~= SMat3::identity().scaledm(k));
}

/// Mirroring preserves well-formedness for a non-degenerate plane.
#[verifier::rlimit(100)]
#[verifier::spinoff_prover]
pub proof fn lemma_mirror_wf(p: SPose, ov: SVec3, ow: int, n: SVec3)
    requires
        p.wf(),
        0 < ow,
        0 < n.dotv(n),
    ensures
        sp_mirror_pose(p, ov, ow, n).wf(),
{
    let h = householder(n);
    let f = sflip();
    let nn = n.dotv(n);
    lemma_householder_similar(n);
    assert(similar(f, 1));
    lemma_matmul_similar(p.m, p.s, f, 1);
    assert(similar(p.m.matmul(f), p.s));
    lemma_matmul_similar(h, nn, p.m.matmul(f), p.s);
    lemma_scaledm_similar(h.matmul(p.m.matmul(f)), nn * p.s, ow);
    lemma_poly_swap3(ow, nn, p.s);
    lemma_mul_pos(p.w, ow);
    lemma_mul_pos(nn, p.w * ow);
    lemma_mul_pos(nn, ow);
    lemma_mul_pos(p.s, nn * ow);
}

/// Mirror involution: mirroring twice across the same plane returns the
/// original pose, for any pose and any non-degenerate plane.
#[verifier::rlimit(100)]
#[verifier::spinoff_prover]
pub proof fn lemma_mirror_involution(p: SPose, ov: SVec3, ow: int, n: SVec3)
    requires
        p.wf(),
        0 < ow,
        0 < n.dotv(n),
    ensures
        pose_equiv(sp_mirror_pose(sp_mirror_pose(p, ov, ow, n), ov, ow, n), p),
{
    let h = householder(n);
    let f = sflip();
    let nn = n.dotv(n);
    let q1 = sp_mirror_pose(p, ov, ow, n);
    let q2 = sp_mirror_pose(q1, ov, ow, n);
    let core1 = h.matmul(p.m.matmul(f));

    // Matrix part: the two reflections compose to a positive scaling.
    lemma_matmul_scaled_left(core1, f, ow);
    lemma_matmul_scaled_right(h, core1.matmul(f), ow);
    lemma_scaledm_scaledm(h.matmul(core1.matmul(f)), ow, ow);
    assert(q2.m == h.matmul(core1.matmul(f)).scaledm(ow * ow));
    lemma_matmul_assoc(h, p.m.matmul(f), f);
    lemma_matmul_assoc(p.m, f, f);
    assert(f.matmul(f) =~= SMat3::identity());
    lemma_matmul_identity(p.m);
    assert(core1.matmul(f) == h.matmul(p.m));
    lemma_matmul_assoc(h, h, p.m);
    lemma_householder_involution(n);
    lemma_matmul_scaled_left(SMat3::identity(), p.m, nn * nn);
    lemma_matmul_identity(p.m);
    assert(h.matmul(h.matmul(p.m)) == p.m.scaledm(nn * nn));
    lemma_scaledm_scaledm(p.m, nn * nn, ow * ow);
    assert(q2.m == p.m.scaledm((nn * nn) * (ow * ow)));

    // Translation part: the two reflections cancel and the plane origin
    // contributions cancel.
    let d1 = p.t.scaled(ow).minus(ov.scaled(p.w));
    lemma_scaled_linear(ov.scaled(nn * p.w), h.applyv(d1), ow);
    lemma_scaled_scaled(ov, nn * p.w, ow);
    lemma_poly_assoc(nn, p.w, ow);
    assert(ov.scaled(nn * p.w).scaled(ow) == ov.scaled(q1.w));
    let d2 = q1.t.scaled(ow).minus(ov.scaled(q1.w));
    assert(d2 == h.applyv(d1).scaled(ow));
    lemma_applyv_scaled(h, h.applyv(d1), ow);
    lemma_applyv_matmul(h, h, d1);
    assert(h.applyv(h.applyv(d1)) == SMat3::identity().scaledm(nn * nn).applyv(d1));
    lemma_applyv_scaled_identity(nn * nn, d1);
    assert(q2.t == ov.scaled(nn * q1.w).plus(d1.scaled(nn * nn).scaled(ow)));
    lemma_scaled_scaled(d1, nn * nn, ow);
    lemma_scaled_linear(p.t.scaled(ow), ov.scaled(p.w), (nn * nn) * ow);
    lemma_scaled_scaled(p.t, ow, (nn * nn) * ow);
    lemma_scaled_scaled(ov, p.w, (nn * nn) * ow);
    lemma_poly_mirror_shuffle(nn, ow, p.w, p.s);
    assert(nn * q1.w == p.w * ((nn * nn) * ow));
    assert(ov.scaled(nn * q1.w) == ov.scaled(p.w * ((nn * nn) * ow)));
    assert(q2.t == p.t.scaled(ow * ((nn * nn) * ow)));

    // Cross-multiplied equality of all components.
    lemma_scaledm_scaledm(p.m, (nn * nn) * (ow * ow), p.w);
    assert(q2.m.scaledm(p.w) == p.m.scaledm(((nn * nn) * (ow * ow)) * p.w));
    assert(((nn * nn) * (ow * ow)) * p.w == nn * ((nn * (p.w * ow)) * ow));
    assert(q2.w == nn * ((nn * (p.w * ow)) * ow));
    lemma_scaled_scaled(p.t, ow * ((nn * nn) * ow), p.w);
    assert(q2.t.scaled(p.w) == p.t.scaled((ow * ((nn * nn) * ow)) * p.w));
    assert((ow * ((nn * nn) * ow)) * p.w == nn * ((nn * (p.w * ow)) * ow));
    assert(q2.s * p.w == p.s * q2.w);
}

/// Builds the executable Householder matrix for `n`.
#[verifier::spinoff_prover]
fn build_householder(n: &Vec3, Ghost(bn): Ghost<int>) -> (h: Mat3)
    requires
        n@.within(bn),
        5 * (bn * bn) <= i128::MAX,
    ensures
        h@ == householder(n@),
        h@.within(5 * (bn * bn)),
{
    proof {
        lemma_dotv_bound(n@, bn, n@, bn);
        lemma_mul_abs_le(n@.x, bn, n@.x, bn);
        lemma_mul_abs_le(n@.x, bn, n@.y, bn);
        lemma_mul_abs_le(n@.x, bn, n@.z, bn);
        lemma_mul_abs_le(n@.y, bn, n@.y, bn);
        lemma_mul_abs_le(n@.y, bn, n@.z, bn);
        lemma_mul_abs_le(n@.z, bn, n@.z, bn);
        vstd::arithmetic::mul::lemma_mul_nonnegative(bn, bn);
    }
    let nn = lin3(n.x, n.x, n.y, n.y, n.z, n.z, Ghost(bn), Ghost(bn));
    let xx = mul_b(n.x, n.x, Ghost(bn), Ghost(bn));
    let yy = mul_b(n.y, n.y, Ghost(bn), Ghost(bn));
    let zz = mul_b(n.z, n.z, Ghost(bn), Ghost(bn));
    let xy = mul_b(n.x, n.y, Ghost(bn), Ghost(bn));
    let xz = mul_b(n.x, n.z, Ghost(bn), Ghost(bn));
    let yz = mul_b(n.y, n.z, Ghost(bn), Ghost(bn));
    Mat3 {
        m00: nn - (xx + xx),
        m01: -(xy + xy),
        m02: -(xz + xz),
        m10: -(xy + xy),
        m11: nn - (yy + yy),
        m12: -(yz + yz),
        m20: -(xz + xz),
        m21: -(yz + yz),
        m22: nn - (zz + zz),
    }
}

/// Mirrors a pose across a world-space plane, with caller-supplied magnitude
/// bounds: `mp`/`tp` bound the pose, `bo` the plane origin, `bw` its
/// denominator, `bn` the plane normal.
#[verifier::spinoff_prover]
pub(crate) fn mirror_pose_b(
    p: &Pose, ov: &Vec3, ow: i128, n: &Vec3,
    Ghost(mp): Ghost<int>, Ghost(tp): Ghost<int>, Ghost(bo): Ghost<int>, Ghost(bw): Ghost<int>,
    Ghost(bn): Ghost<int>,
) -> (r: Pose)
    requires
        p@.within(mp, tp),
        ov@.within(bo),
        -bw <= ow <= bw,
        n@.within(bn),
        5 * (bn * bn) <= i128::MAX,
        3 * (mp * 1) <= i128::MAX,
        3 * ((5 * (bn * bn)) * (3 * (mp * 1))) <= i128::MAX,
        bw * (3 * ((5 * (bn * bn)) * (3 * (mp * 1)))) <= i128::MAX,
        bw * tp <= i128::MAX,
        mp * bo <= i128::MAX,
        bw * tp + mp * bo <= i128::MAX,
        3 * ((5 * (bn * bn)) * (bw * tp + mp * bo)) <= i128::MAX,
        (3 * (bn * bn)) * mp <= i128::MAX,
        ((3 * (bn * bn)) * mp) * bo <= i128::MAX,
        ((3 * (bn * bn)) * mp) * bo + 3 * ((5 * (bn * bn)) * (bw * tp + mp * bo)) <= i128::MAX,
        mp * bw <= i128::MAX,
        (3 * (bn * bn)) * (mp * bw) <= i128::MAX,
        (3 * (bn * bn)) * bw <= i128::MAX,
        mp * ((3 * (bn * bn)) * bw) <= i128::MAX,
    ensures
        r@ == sp_mirror_pose(p@, ov@, ow as int, n@),
{
    let ghost hb: int = 5 * (bn * bn);
    let ghost bnn: int = 3 * (bn * bn);
    let h = build_householder(n, Ghost(bn));
    let nn = lin3(n.x, n.x, n.y, n.y, n.z, n.z, Ghost(bn), Ghost(bn));
    proof {
        lemma_dotv_bound(n@, bn, n@, bn);
    }
    let f = Mat3 { m00: -1, m01: 0, m02: 0, m10: 0, m11: 1, m12: 0, m20: 0, m21: 0, m22: 1 };
    assert(f@ == sflip());
    assert(f@.within(1));
    let mf = mat_mul_b(&p.m, &f, Ghost(mp), Ghost(1));
    proof {
        lemma_matmul_bound(p.m@, mp, f@, 1);
    }
    let ghost bmf: int = 3 * (mp * 1);
    let hmf = mat_mul_b(&h, &mf, Ghost(hb), Ghost(bmf));
    proof {
        lemma_matmul_bound(h@, hb, mf@, bmf);
    }
    let ghost bhmf: int = 3 * (hb * bmf);
    let mm = mat_scale_b(&hmf, ow, Ghost(bhmf), Ghost(bw));

    let tsc = v_scale_b(&p.t, ow, Ghost(tp), Ghost(bw));
    proof {
        lemma_scaled_bound(p.t@, tp, ow as int, bw);
        lemma_scaled_bound(ov@, bo, p@.w, mp);
    }
    let osc = v_scale_b(ov, p.w, Ghost(bo), Ghost(mp));
    let d = v_sub_b(&tsc, &osc, Ghost(bw * tp), Ghost(mp * bo));
    let ghost bd: int = bw * tp + mp * bo;
    let hd = mat_apply_b(&h, &d, Ghost(hb), Ghost(bd));
    proof {
        lemma_applyv_bound(h@, hb, d@, bd);
        lemma_mul_abs_le(nn as int, bnn, p.w as int, mp);
    }
    let nw = mul_b(nn, p.w, Ghost(bnn), Ghost(mp));
    let ghost bnw: int = bnn * mp;
    let ovs = v_scale_b(ov, nw, Ghost(bo), Ghost(bnw));
    proof {
        lemma_scaled_bound(ov@, bo, nw as int, bnw);
    }
    let tt = v_add_b(&ovs, &hd, Ghost(bnw * bo), Ghost(3 * (hb * bd)));

    let wo = mul_b(p.w, ow, Ghost(mp), Ghost(bw));
    proof {
        lemma_mul_abs_le(p.w as int, mp, ow as int, bw);
    }
    let ww = mul_b(nn, wo, Ghost(bnn), Ghost(mp * bw));
    let no = mul_b(nn, ow, Ghost(bnn), Ghost(bw));
    proof {
        lemma_mul_abs_le(nn as int, bnn, ow as int, bw);
    }
    let ss = mul_b(p.s, no, Ghost(mp), Ghost(bnn * bw));
    Pose { m: mm, t: tt, w: ww, s: ss }
}

/// Reflects a free vector across the plane through the origin with normal
/// direction `n`; the result carries the extra positive factor `n.n`, so it
/// denotes `(v - 2 (v.n / n.n) n) * (n.n)` exactly.
#[verifier::spinoff_prover]
pub fn mirror_vector(v: &Vec3, n: &Vec3) -> (r: Vec3)
    requires
        v@.within(POSE_T_LIMIT as int),
        n@.within(POSE_MAT_LIMIT as int),
    ensures
        r@ == householder(n@).applyv(v@),
{
    proof {
        assert(POSE_MAT_LIMIT == 256);
        assert(POSE_T_LIMIT == 16777216);
        assert({
            &&& 5 * (256int * 256int) <= i128::MAX
            &&& 3 * ((5 * (256int * 256int)) * 16777216int) <= i128::MAX
        }) by (nonlinear_arith);
    }
    let h = build_householder(n, Ghost(256int));
    mat_apply_b(&h, v, Ghost(5 * (256int * 256int)), Ghost(16777216int))
}

/// Mirrors a pose across the world-space plane through `ov / ow` with normal
/// direction `n`.
#[verifier::spinoff_prover]
pub fn mirror_pose(p: &Pose, ov: &Vec3, ow: i128, n: &Vec3) -> (r: Pose)
    requires
        p@.wf(),
        p@.within(POSE_MAT_LIMIT as int, POSE_T_LIMIT as int),
        ov@.within(POSE_T_LIMIT as int),
        0 < ow <= POSE_MAT_LIMIT,
        n@.within(POSE_MAT_LIMIT as int),
        0 < n@.dotv(n@),
    ensures
        r@ == sp_mirror_pose(p@, ov@, ow as int, n@),
        r@.wf(),
{
    proof {
        lemma_mirror_wf(p@, ov@, ow as int, n@);
        assert(POSE_MAT_LIMIT == 256);
        assert(POSE_T_LIMIT == 16777216);
        assert({
            &&& 5 * (256int * 256int) <= i128::MAX
            &&& 3 * (256int * 1) <= i128::MAX
            &&& 3 * ((5 * (256int * 256int)) * (3 * (256int * 1))) <= i128::MAX
            &&& 256int * (3 * ((5 * (256int * 256int)) * (3 * (256int * 1)))) <= i128::MAX
            &&& 256int * 16777216int <= i128::MAX
            &&& 256int * 16777216int + 256int * 16777216int <= i128::MAX
            &&& 3 * ((5 * (256int * 256int)) * (256int * 16777216int + 256int * 16777216int))
                <= i128::MAX
            &&& (3 * (256int * 256int)) * 256int <= i128::MAX
            &&& ((3 * (256int * 256int)) * 256int) * 16777216int <= i128::MAX
            &&& ((3 * (256int * 256int)) * 256int) * 16777216int
                + 3 * ((5 * (256int * 256int)) * (256int * 16777216int + 256int * 16777216int))
                <= i128::MAX
            &&& 256int * 256int <= i128::MAX
            &&& (3 * (256int * 256int)) * (256int * 256int) <= i128::MAX
            &&& (3 * (256int * 256int)) * 256int <= i128::MAX
            &&& 256int * ((3 * (256int * 256int)) * 256int) <= i128::MAX
        }) by (nonlinear_arith);
    }
    mirror_pose_b(p, ov, ow, n, Ghost(256int), Ghost(16777216int),
        Ghost(16777216int), Ghost(256int), Ghost(256int))
}

} // verus!
