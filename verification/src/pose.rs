//! World-space poses as exact similarity transforms.
//!
//! A pose maps a point `x` to `(m * x + t) / w`: `m` is an integer matrix
//! whose rows and columns are pairwise orthogonal with common squared length
//! `s * s`, so `m / s` is orthonormal and `s / w` is the pose's uniform
//! scale; `w > 0` is the common denominator that keeps the arithmetic exact.
//! Two poses denote the same transform exactly when they are proportional;
//! [`pose_equiv`] states that relation and the laws are proved up to it.

use vstd::prelude::*;
use crate::linalg::{SVec3, SMat3, Vec3, Mat3, lin3, lin3x1, lemma_dotv_comm, lemma_dotv_bound,
    lemma_applyv_bound, lemma_matmul_bound, lemma_scaled_bound, lemma_scaledm_bound,
    lemma_scaled_scaled, lemma_applyv_scaled, lemma_dotv_scaled_both, lemma_dotv_scaled_left,
    lemma_applyv_linear, lemma_applyv_matmul};
use crate::bounds::{lemma_mul_abs_le, lemma_mul_pos, lemma_mul_by_zero, lemma_poly_sym_expand, lemma_distrib3};

verus! {

/// Expansion of a product of two dot products against a common left vector,
/// grouped by the quadratic terms of the left vector.
#[verifier::spinoff_prover]
proof fn lemma_dot_sym_expand(a: SVec3, u: SVec3, v: SVec3)
    ensures
        a.dotv(u) * a.dotv(v) == (a.x * a.x) * (u.x * v.x) + (a.y * a.y) * (u.y * v.y)
            + (a.z * a.z) * (u.z * v.z) + (a.x * a.y) * (u.x * v.y + u.y * v.x)
            + (a.y * a.z) * (u.y * v.z + u.z * v.y) + (a.z * a.x) * (u.z * v.x + u.x * v.z),
{
    lemma_poly_sym_expand(a.x, a.y, a.z, u.x, u.y, u.z, v.x, v.y, v.z);
}

/// Unbounded-integer pose, the view of [`Pose`].
pub struct SPose {
    pub m: SMat3,
    pub t: SVec3,
    pub w: int,
    pub s: int,
}

/// The matrix is a scaled orthonormal matrix: columns and rows are pairwise
/// orthogonal with squared length `s * s`.
pub open spec fn similar(m: SMat3, s: int) -> bool {
    &&& m.col0().dotv(m.col0()) == s * s
    &&& m.col1().dotv(m.col1()) == s * s
    &&& m.col2().dotv(m.col2()) == s * s
    &&& m.col0().dotv(m.col1()) == 0
    &&& m.col1().dotv(m.col2()) == 0
    &&& m.col2().dotv(m.col0()) == 0
    &&& m.row0().dotv(m.row0()) == s * s
    &&& m.row1().dotv(m.row1()) == s * s
    &&& m.row2().dotv(m.row2()) == s * s
    &&& m.row0().dotv(m.row1()) == 0
    &&& m.row1().dotv(m.row2()) == 0
    &&& m.row2().dotv(m.row0()) == 0
}

impl SPose {
    /// Well-formed pose: positive denominator, positive scale, similarity
    /// matrix.
    pub open spec fn wf(self) -> bool {
        &&& 0 < self.w
        &&& 0 < self.s
        &&& similar(self.m, self.s)
    }

    /// All matrix entries, the denominator and the scale have magnitude at
    /// most `mb`; the translation entries at most `tb`.
    pub open spec fn within(self, mb: int, tb: int) -> bool {
        &&& self.m.within(mb)
        &&& self.t.within(tb)
        &&& -mb <= self.w <= mb
        &&& -mb <= self.s <= mb
    }
}

/// The identity pose.
pub open spec fn sp_identity() -> SPose {
    SPose { m: SMat3::identity(), t: SVec3::zero(), w: 1, s: 1 }
}

/// Composition: `sp_compose(a, b)` applies `b` first, then `a`.
pub open spec fn sp_compose(a: SPose, b: SPose) -> SPose {
    SPose {
        m: a.m.matmul(b.m),
        t: a.m.applyv(b.t).plus(a.t.scaled(b.w)),
        w: a.w * b.w,
        s: a.s * b.s,
    }
}

/// Inverse of a similarity pose: the matrix inverse is the transpose divided
/// by the squared scale.
pub open spec fn sp_inverse(p: SPose) -> SPose {
    SPose {
        m: p.m.transp().scaledm(p.w),
        t: p.m.transp().applyv(p.t).neg(),
        w: p.s * p.s,
        s: p.w * p.s,
    }
}

/// Two poses denote the same similarity transform: all components are
/// proportional (cross-multiplied by the positive denominators).
pub open spec fn pose_equiv(a: SPose, b: SPose) -> bool {
    &&& a.m.scaledm(b.w) == b.m.scaledm(a.w)
    &&& a.t.scaled(b.w) == b.t.scaled(a.w)
    &&& a.s * b.w == b.s * a.w
}

/// A similarity matrix preserves dot products up to the squared scale.
#[verifier::spinoff_prover]
pub proof fn lemma_similar_dot(m: SMat3, s: int, u: SVec3, v: SVec3)
    requires
        similar(m, s),
    ensures
        m.applyv(u).dotv(m.applyv(v)) == (s * s) * u.dotv(v),
{
    broadcast use vstd::arithmetic::mul::lemma_mul_is_commutative;

    // Expand each row's contribution, then regroup by column dot products.
    lemma_dot_sym_expand(m.row0(), u, v);
    lemma_dot_sym_expand(m.row1(), u, v);
    lemma_dot_sym_expand(m.row2(), u, v);
    lemma_distrib3(m.m00 * m.m00, m.m10 * m.m10, m.m20 * m.m20, u.x * v.x);
    lemma_distrib3(m.m01 * m.m01, m.m11 * m.m11, m.m21 * m.m21, u.y * v.y);
    lemma_distrib3(m.m02 * m.m02, m.m12 * m.m12, m.m22 * m.m22, u.z * v.z);
    lemma_distrib3(m.m00 * m.m01, m.m10 * m.m11, m.m20 * m.m21, u.x * v.y + u.y * v.x);
    lemma_distrib3(m.m01 * m.m02, m.m11 * m.m12, m.m21 * m.m22, u.y * v.z + u.z * v.y);
    lemma_distrib3(m.m02 * m.m00, m.m12 * m.m10, m.m22 * m.m20, u.z * v.x + u.x * v.z);
    lemma_mul_by_zero(m.m00 * m.m01 + m.m10 * m.m11 + m.m20 * m.m21, u.x * v.y + u.y * v.x);
    lemma_mul_by_zero(m.m01 * m.m02 + m.m11 * m.m12 + m.m21 * m.m22, u.y * v.z + u.z * v.y);
    lemma_mul_by_zero(m.m02 * m.m00 + m.m12 * m.m10 + m.m22 * m.m20, u.z * v.x + u.x * v.z);
    lemma_distrib3(u.x * v.x, u.y * v.y, u.z * v.z, s * s);
}

/// The transpose of a similarity matrix is a similarity matrix.
#[verifier::spinoff_prover]
pub proof fn lemma_transp_similar(m: SMat3, s: int)
    requires
        similar(m, s),
    ensures
        similar(m.transp(), s),
{
}

/// The product of two similarity matrices is a similarity matrix whose scale
/// is the product of the scales.
#[verifier::spinoff_prover]
pub proof fn lemma_matmul_similar(a: SMat3, sa: int, b: SMat3, sb: int)
    requires
        similar(a, sa),
        similar(b, sb),
    ensures
        similar(a.matmul(b), sa * sb),
{
    broadcast use lemma_dotv_comm, vstd::arithmetic::mul::lemma_mul_is_commutative;

    let c = a.matmul(b);

    // Columns of the product are the a-image of b's columns.
    assert(c.col0() == a.applyv(b.col0()));
    assert(c.col1() == a.applyv(b.col1()));
    assert(c.col2() == a.applyv(b.col2()));
    lemma_similar_dot(a, sa, b.col0(), b.col0());
    lemma_similar_dot(a, sa, b.col1(), b.col1());
    lemma_similar_dot(a, sa, b.col2(), b.col2());
    lemma_similar_dot(a, sa, b.col0(), b.col1());
    lemma_similar_dot(a, sa, b.col1(), b.col2());
    lemma_similar_dot(a, sa, b.col2(), b.col0());
    assert((sa * sa) * (sb * sb) == (sa * sb) * (sa * sb)) by (nonlinear_arith);
    assert((sa * sa) * 0 == 0) by (nonlinear_arith);

    // Rows of the product are the transposed-b-image of a's rows.
    assert(c.row0() == b.transp().applyv(a.row0()));
    assert(c.row1() == b.transp().applyv(a.row1()));
    assert(c.row2() == b.transp().applyv(a.row2()));
    lemma_transp_similar(b, sb);
    lemma_similar_dot(b.transp(), sb, a.row0(), a.row0());
    lemma_similar_dot(b.transp(), sb, a.row1(), a.row1());
    lemma_similar_dot(b.transp(), sb, a.row2(), a.row2());
    lemma_similar_dot(b.transp(), sb, a.row0(), a.row1());
    lemma_similar_dot(b.transp(), sb, a.row1(), a.row2());
    lemma_similar_dot(b.transp(), sb, a.row2(), a.row0());
    assert((sb * sb) * (sa * sa) == (sa * sb) * (sa * sb)) by (nonlinear_arith);
    assert((sb * sb) * 0 == 0) by (nonlinear_arith);
}

/// Scaling a similarity matrix by `k` scales its scale by `k`.
#[verifier::spinoff_prover]
pub proof fn lemma_scaledm_similar(m: SMat3, s: int, k: int)
    requires
        similar(m, s),
    ensures
        similar(m.scaledm(k), k * s),
{
    let q = m.scaledm(k);
    assert(q.row0() == m.row0().scaled(k));
    assert(q.row1() == m.row1().scaled(k));
    assert(q.row2() == m.row2().scaled(k));
    assert(q.col0() == m.col0().scaled(k));
    assert(q.col1() == m.col1().scaled(k));
    assert(q.col2() == m.col2().scaled(k));
    lemma_dotv_scaled_both(m.row0(), m.row0(), k);
    lemma_dotv_scaled_both(m.row1(), m.row1(), k);
    lemma_dotv_scaled_both(m.row2(), m.row2(), k);
    lemma_dotv_scaled_both(m.row0(), m.row1(), k);
    lemma_dotv_scaled_both(m.row1(), m.row2(), k);
    lemma_dotv_scaled_both(m.row2(), m.row0(), k);
    lemma_dotv_scaled_both(m.col0(), m.col0(), k);
    lemma_dotv_scaled_both(m.col1(), m.col1(), k);
    lemma_dotv_scaled_both(m.col2(), m.col2(), k);
    lemma_dotv_scaled_both(m.col0(), m.col1(), k);
    lemma_dotv_scaled_both(m.col1(), m.col2(), k);
    lemma_dotv_scaled_both(m.col2(), m.col0(), k);
    assert((k * k) * (s * s) == (k * s) * (k * s)) by (nonlinear_arith);
    assert((k * k) * 0 == 0) by (nonlinear_arith);
}

/// Composition preserves well-formedness.
#[verifier::spinoff_prover]
pub proof fn lemma_compose_wf(a: SPose, b: SPose)
    requires
        a.wf(),
        b.wf(),
    ensures
        sp_compose(a, b).wf(),
{
    lemma_mul_pos(a.w as int, b.w as int);
    lemma_mul_pos(a.s as int, b.s as int);
    lemma_matmul_similar(a.m, a.s, b.m, b.s);
}

/// Inversion preserves well-formedness.
#[verifier::spinoff_prover]
pub proof fn lemma_inverse_wf(p: SPose)
    requires
        p.wf(),
    ensures
        sp_inverse(p).wf(),
{
    lemma_mul_pos(p.s as int, p.s as int);
    lemma_mul_pos(p.w as int, p.s as int);
    lemma_transp_similar(p.m, p.s);
    lemma_scaledm_similar(p.m.transp(), p.s, p.w);
}

/// Magnitude bounds for a composition.
#[verifier::spinoff_prover]
pub proof fn lemma_compose_within(a: SPose, ma: int, ta: int, b: SPose, mb: int, tb: int)
    requires
        a.within(ma, ta),
        b.within(mb, tb),
    ensures
        sp_compose(a, b).within(3 * (ma * mb), 3 * (ma * tb) + mb * ta),
{
    broadcast use vstd::arithmetic::mul::lemma_mul_is_commutative;

    lemma_matmul_bound(a.m, ma, b.m, mb);
    lemma_applyv_bound(a.m, ma, b.t, tb);
    lemma_scaled_bound(a.t, ta, b.w, mb);
    lemma_mul_abs_le(a.w as int, ma, b.w as int, mb);
    lemma_mul_abs_le(a.s as int, ma, b.s as int, mb);
    vstd::arithmetic::mul::lemma_mul_nonnegative(ma, mb);
    vstd::arithmetic::mul::lemma_mul_nonnegative(ma, tb);
    vstd::arithmetic::mul::lemma_mul_nonnegative(mb, ta);
}

/// Magnitude bounds for an inverse.
#[verifier::spinoff_prover]
pub proof fn lemma_inverse_within(p: SPose, mb: int, tb: int)
    requires
        p.within(mb, tb),
    ensures
        sp_inverse(p).within(mb * mb, 3 * (mb * tb)),
{
    lemma_scaledm_bound(p.m.transp(), mb, p.w as int, mb);
    lemma_applyv_bound(p.m.transp(), mb, p.t, tb);
    lemma_mul_abs_le(p.s as int, mb, p.s as int, mb);
    lemma_mul_abs_le(p.w as int, mb, p.s as int, mb);
    vstd::arithmetic::mul::lemma_mul_nonnegative(mb, mb);
    vstd::arithmetic::mul::lemma_mul_nonnegative(mb, tb);
}

/// Largest magnitude accepted for matrix entries, denominator and scale of
/// an externally supplied pose.
pub const POSE_MAT_LIMIT: i128 = 256;

/// Largest magnitude accepted for translation entries of an externally
/// supplied pose.
pub const POSE_T_LIMIT: i128 = 16777216;

/// Largest magnitude of matrix entries, denominator and scale accepted by
/// [`Pose::compose`] and [`Pose::inverse`].
pub const GEN_MAT_LIMIT: i128 = 1152921504606846976;

/// Largest magnitude of translation entries accepted by [`Pose::compose`]
/// and [`Pose::inverse`].
pub const GEN_T_LIMIT: i128 = 1152921504606846976;

/// The executable pose whose view is `sp`; meaningful when all components
/// of `sp` fit the machine range, as every pose the library computes does.
pub open spec fn sp_pose_of(sp: SPose) -> Pose {
    Pose {
        m: Mat3 {
            m00: sp.m.m00 as i128, m01: sp.m.m01 as i128, m02: sp.m.m02 as i128,
            m10: sp.m.m10 as i128, m11: sp.m.m11 as i128, m12: sp.m.m12 as i128,
            m20: sp.m.m20 as i128, m21: sp.m.m21 as i128, m22: sp.m.m22 as i128,
        },
        t: Vec3 { x: sp.t.x as i128, y: sp.t.y as i128, z: sp.t.z as i128 },
        w: sp.w as i128,
        s: sp.s as i128,
    }
}

/// Executable pose; see the module documentation for the reading of the
/// fields.
#[derive(Clone, Copy, PartialEq, Eq, Structural, Debug)]
pub struct Pose {
    pub m: Mat3,
    pub t: Vec3,
    pub w: i128,
    pub s: i128,
}

impl View for Pose {
    type V = SPose;

    open spec fn view(&self) -> SPose {
        SPose { m: self.m@, t: self.t@, w: self.w as int, s: self.s as int }
    }
}

impl Pose {
    /// The identity pose.
    #[verifier::spinoff_prover]
    pub fn identity() -> (r: Pose)
        ensures
            r@ == sp_identity(),
            r@.wf(),
    {
        Pose { m: Mat3::identity(), t: Vec3::zero(), w: 1, s: 1 }
    }

    /// True when all components lie within the given magnitude limits.
    #[verifier::spinoff_prover]
    pub fn within_limits(&self, mb: i128, tb: i128) -> (r: bool)
        requires
            0 <= mb,
            0 <= tb,
        ensures
            r == self@.within(mb as int, tb as int),
    {
        -mb <= self.m.m00 && self.m.m00 <= mb
            && -mb <= self.m.m01 && self.m.m01 <= mb
            && -mb <= self.m.m02 && self.m.m02 <= mb
            && -mb <= self.m.m10 && self.m.m10 <= mb
            && -mb <= self.m.m11 && self.m.m11 <= mb
            && -mb <= self.m.m12 && self.m.m12 <= mb
            && -mb <= self.m.m20 && self.m.m20 <= mb
            && -mb <= self.m.m21 && self.m.m21 <= mb
            && -mb <= self.m.m22 && self.m.m22 <= mb
            && -tb <= self.t.x && self.t.x <= tb
            && -tb <= self.t.y && self.t.y <= tb
            && -tb <= self.t.z && self.t.z <= tb
            && -mb <= self.w && self.w <= mb
            && -mb <= self.s && self.s <= mb
    }

    /// Checked constructor: accepts exactly the well-formed poses within the
    /// external input limits.
    #[verifier::spinoff_prover]
    pub fn try_new(m: Mat3, t: Vec3, w: i128, s: i128) -> (r: Option<Pose>)
        ensures
            match r {
                Some(p) => {
                    &&& p == (Pose { m, t, w, s })
                    &&& p@.wf()
                    &&& p@.within(POSE_MAT_LIMIT as int, POSE_T_LIMIT as int)
                },
                None => !((Pose { m, t, w, s })@.wf()
                    && (Pose { m, t, w, s })@.within(POSE_MAT_LIMIT as int, POSE_T_LIMIT as int)),
            },
    {
        let p = Pose { m, t, w, s };
        if !p.within_limits(POSE_MAT_LIMIT, POSE_T_LIMIT) {
            return None;
        }
        if !(w > 0 && s > 0) {
            return None;
        }
        let ghost bm: int = POSE_MAT_LIMIT as int;
        let ss = lin3(s, s, 0, 0, 0, 0, Ghost(bm), Ghost(bm));
        let c00 = lin3(m.m00, m.m00, m.m10, m.m10, m.m20, m.m20, Ghost(bm), Ghost(bm));
        let c11 = lin3(m.m01, m.m01, m.m11, m.m11, m.m21, m.m21, Ghost(bm), Ghost(bm));
        let c22 = lin3(m.m02, m.m02, m.m12, m.m12, m.m22, m.m22, Ghost(bm), Ghost(bm));
        let c01 = lin3(m.m00, m.m01, m.m10, m.m11, m.m20, m.m21, Ghost(bm), Ghost(bm));
        let c12 = lin3(m.m01, m.m02, m.m11, m.m12, m.m21, m.m22, Ghost(bm), Ghost(bm));
        let c20 = lin3(m.m02, m.m00, m.m12, m.m10, m.m22, m.m20, Ghost(bm), Ghost(bm));
        let r00 = lin3(m.m00, m.m00, m.m01, m.m01, m.m02, m.m02, Ghost(bm), Ghost(bm));
        let r11 = lin3(m.m10, m.m10, m.m11, m.m11, m.m12, m.m12, Ghost(bm), Ghost(bm));
        let r22 = lin3(m.m20, m.m20, m.m21, m.m21, m.m22, m.m22, Ghost(bm), Ghost(bm));
        let r01 = lin3(m.m00, m.m10, m.m01, m.m11, m.m02, m.m12, Ghost(bm), Ghost(bm));
        let r12 = lin3(m.m10, m.m20, m.m11, m.m21, m.m12, m.m22, Ghost(bm), Ghost(bm));
        let r20 = lin3(m.m20, m.m00, m.m21, m.m01, m.m22, m.m02, Ghost(bm), Ghost(bm));
        if c00 == ss && c11 == ss && c22 == ss && c01 == 0 && c12 == 0 && c20 == 0
            && r00 == ss && r11 == ss && r22 == ss && r01 == 0 && r12 == 0 && r20 == 0
        {
            Some(p)
        } else {
            None
        }
    }

    /// Composition of two poses: the result applies `b` first, then `a`.
    #[verifier::spinoff_prover]
    pub fn compose(a: &Pose, b: &Pose) -> (r: Pose)
        requires
            a@.wf(),
            b@.wf(),
            a@.within(GEN_MAT_LIMIT as int, GEN_T_LIMIT as int),
            b@.within(GEN_MAT_LIMIT as int, GEN_T_LIMIT as int),
        ensures
            r@ == sp_compose(a@, b@),
            r@.wf(),
    {
        proof {
            lemma_compose_wf(a@, b@);
        }
        Self::compose_b(a, b, Ghost(GEN_MAT_LIMIT as int), Ghost(GEN_T_LIMIT as int),
            Ghost(GEN_MAT_LIMIT as int), Ghost(GEN_T_LIMIT as int))
    }

    /// Composition with caller-supplied magnitude bounds.
    #[verifier::spinoff_prover]
    pub(crate) fn compose_b(
        a: &Pose, b: &Pose,
        Ghost(ma): Ghost<int>, Ghost(ta): Ghost<int>, Ghost(mb): Ghost<int>, Ghost(tb): Ghost<int>,
    ) -> (r: Pose)
        requires
            a@.within(ma, ta),
            b@.within(mb, tb),
            3 * (ma * mb) <= i128::MAX,
            3 * (ma * tb) + mb * ta <= i128::MAX,
        ensures
            r@ == sp_compose(a@, b@),
    {
        proof {
            vstd::arithmetic::mul::lemma_mul_nonnegative(ma, tb);
            vstd::arithmetic::mul::lemma_mul_nonnegative(mb, ta);
        }
        let m = Mat3 {
            m00: lin3(a.m.m00, b.m.m00, a.m.m01, b.m.m10, a.m.m02, b.m.m20, Ghost(ma), Ghost(mb)),
            m01: lin3(a.m.m00, b.m.m01, a.m.m01, b.m.m11, a.m.m02, b.m.m21, Ghost(ma), Ghost(mb)),
            m02: lin3(a.m.m00, b.m.m02, a.m.m01, b.m.m12, a.m.m02, b.m.m22, Ghost(ma), Ghost(mb)),
            m10: lin3(a.m.m10, b.m.m00, a.m.m11, b.m.m10, a.m.m12, b.m.m20, Ghost(ma), Ghost(mb)),
            m11: lin3(a.m.m10, b.m.m01, a.m.m11, b.m.m11, a.m.m12, b.m.m21, Ghost(ma), Ghost(mb)),
            m12: lin3(a.m.m10, b.m.m02, a.m.m11, b.m.m12, a.m.m12, b.m.m22, Ghost(ma), Ghost(mb)),
            m20: lin3(a.m.m20, b.m.m00, a.m.m21, b.m.m10, a.m.m22, b.m.m20, Ghost(ma), Ghost(mb)),
            m21: lin3(a.m.m20, b.m.m01, a.m.m21, b.m.m11, a.m.m22, b.m.m21, Ghost(ma), Ghost(mb)),
            m22: lin3(a.m.m20, b.m.m02, a.m.m21, b.m.m12, a.m.m22, b.m.m22, Ghost(ma), Ghost(mb)),
        };
        let t = Vec3 {
            x: lin3x1(a.m.m00, b.t.x, a.m.m01, b.t.y, a.m.m02, b.t.z, b.w, a.t.x,
                Ghost(ma), Ghost(tb), Ghost(mb), Ghost(ta)),
            y: lin3x1(a.m.m10, b.t.x, a.m.m11, b.t.y, a.m.m12, b.t.z, b.w, a.t.y,
                Ghost(ma), Ghost(tb), Ghost(mb), Ghost(ta)),
            z: lin3x1(a.m.m20, b.t.x, a.m.m21, b.t.y, a.m.m22, b.t.z, b.w, a.t.z,
                Ghost(ma), Ghost(tb), Ghost(mb), Ghost(ta)),
        };
        let w = lin3(a.w, b.w, 0, 0, 0, 0, Ghost(ma), Ghost(mb));
        let s = lin3(a.s, b.s, 0, 0, 0, 0, Ghost(ma), Ghost(mb));
        Pose { m, t, w, s }
    }

    /// Inverse of a pose.
    #[verifier::spinoff_prover]
    pub fn inverse(&self) -> (r: Pose)
        requires
            self@.wf(),
            self@.within(GEN_MAT_LIMIT as int, GEN_T_LIMIT as int),
        ensures
            r@ == sp_inverse(self@),
            r@.wf(),
    {
        proof {
            lemma_inverse_wf(self@);
        }
        self.inverse_b(Ghost(GEN_MAT_LIMIT as int), Ghost(GEN_T_LIMIT as int))
    }

    /// Inverse with caller-supplied magnitude bounds.
    #[verifier::spinoff_prover]
    pub(crate) fn inverse_b(&self, Ghost(mb): Ghost<int>, Ghost(tb): Ghost<int>) -> (r: Pose)
        requires
            self@.within(mb, tb),
            0 <= mb <= i128::MAX,
            0 <= tb <= i128::MAX,
            3 * (mb * mb) <= i128::MAX,
            3 * (mb * tb) <= i128::MAX,
        ensures
            r@ == sp_inverse(self@),
    {
        proof {
            vstd::arithmetic::mul::lemma_mul_unary_negation(self.m.m00 as int, self.t.x as int);
            vstd::arithmetic::mul::lemma_mul_unary_negation(self.m.m10 as int, self.t.y as int);
            vstd::arithmetic::mul::lemma_mul_unary_negation(self.m.m20 as int, self.t.z as int);
            vstd::arithmetic::mul::lemma_mul_unary_negation(self.m.m01 as int, self.t.x as int);
            vstd::arithmetic::mul::lemma_mul_unary_negation(self.m.m11 as int, self.t.y as int);
            vstd::arithmetic::mul::lemma_mul_unary_negation(self.m.m21 as int, self.t.z as int);
            vstd::arithmetic::mul::lemma_mul_unary_negation(self.m.m02 as int, self.t.x as int);
            vstd::arithmetic::mul::lemma_mul_unary_negation(self.m.m12 as int, self.t.y as int);
            vstd::arithmetic::mul::lemma_mul_unary_negation(self.m.m22 as int, self.t.z as int);
        }
        let m = Mat3 {
            m00: lin3(self.w, self.m.m00, 0, 0, 0, 0, Ghost(mb), Ghost(mb)),
            m01: lin3(self.w, self.m.m10, 0, 0, 0, 0, Ghost(mb), Ghost(mb)),
            m02: lin3(self.w, self.m.m20, 0, 0, 0, 0, Ghost(mb), Ghost(mb)),
            m10: lin3(self.w, self.m.m01, 0, 0, 0, 0, Ghost(mb), Ghost(mb)),
            m11: lin3(self.w, self.m.m11, 0, 0, 0, 0, Ghost(mb), Ghost(mb)),
            m12: lin3(self.w, self.m.m21, 0, 0, 0, 0, Ghost(mb), Ghost(mb)),
            m20: lin3(self.w, self.m.m02, 0, 0, 0, 0, Ghost(mb), Ghost(mb)),
            m21: lin3(self.w, self.m.m12, 0, 0, 0, 0, Ghost(mb), Ghost(mb)),
            m22: lin3(self.w, self.m.m22, 0, 0, 0, 0, Ghost(mb), Ghost(mb)),
        };
        let t = Vec3 {
            x: lin3(-self.m.m00, self.t.x, -self.m.m10, self.t.y, -self.m.m20, self.t.z,
                Ghost(mb), Ghost(tb)),
            y: lin3(-self.m.m01, self.t.x, -self.m.m11, self.t.y, -self.m.m21, self.t.z,
                Ghost(mb), Ghost(tb)),
            z: lin3(-self.m.m02, self.t.x, -self.m.m12, self.t.y, -self.m.m22, self.t.z,
                Ghost(mb), Ghost(tb)),
        };
        let w = lin3(self.s, self.s, 0, 0, 0, 0, Ghost(mb), Ghost(mb));
        let s = lin3(self.w, self.s, 0, 0, 0, 0, Ghost(mb), Ghost(mb));
        Pose { m, t, w, s }
    }
}

} // verus!
