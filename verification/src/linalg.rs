//! Integer 3-vectors and 3x3 matrices.
//!
//! Executable values hold `i128` components; their views are the unbounded
//! integer forms that the specifications and laws are stated over.

use vstd::prelude::*;
use crate::bounds::{lemma_mul_abs_le, lemma_poly_rescale, lemma_poly_scale3_right, lemma_poly_scale3_left, lemma_poly_scale_both3, lemma_poly_dot3_plus, lemma_poly_apply_matmul};

verus! {

/// Unbounded-integer 3-vector, the view of [`Vec3`].
#[verifier::ext_equal]
pub struct SVec3 {
    pub x: int,
    pub y: int,
    pub z: int,
}

/// Unbounded-integer 3x3 matrix, the view of [`Mat3`]; `mRC` is row `R`,
/// column `C`.
#[verifier::ext_equal]
pub struct SMat3 {
    pub m00: int, pub m01: int, pub m02: int,
    pub m10: int, pub m11: int, pub m12: int,
    pub m20: int, pub m21: int, pub m22: int,
}

impl SVec3 {
    pub open spec fn zero() -> SVec3 {
        SVec3 { x: 0, y: 0, z: 0 }
    }

    pub open spec fn plus(self, o: SVec3) -> SVec3 {
        SVec3 { x: self.x + o.x, y: self.y + o.y, z: self.z + o.z }
    }

    pub open spec fn minus(self, o: SVec3) -> SVec3 {
        SVec3 { x: self.x - o.x, y: self.y - o.y, z: self.z - o.z }
    }

    pub open spec fn neg(self) -> SVec3 {
        SVec3 { x: -self.x, y: -self.y, z: -self.z }
    }

    pub open spec fn scaled(self, k: int) -> SVec3 {
        SVec3 { x: k * self.x, y: k * self.y, z: k * self.z }
    }

    pub open spec fn dotv(self, o: SVec3) -> int {
        self.x * o.x + self.y * o.y + self.z * o.z
    }

    pub open spec fn crossv(self, o: SVec3) -> SVec3 {
        SVec3 {
            x: self.y * o.z - self.z * o.y,
            y: self.z * o.x - self.x * o.z,
            z: self.x * o.y - self.y * o.x,
        }
    }

    /// Every component has magnitude at most `b`.
    pub open spec fn within(self, b: int) -> bool {
        &&& -b <= self.x <= b
        &&& -b <= self.y <= b
        &&& -b <= self.z <= b
    }
}

impl SMat3 {
    pub open spec fn identity() -> SMat3 {
        SMat3 { m00: 1, m01: 0, m02: 0, m10: 0, m11: 1, m12: 0, m20: 0, m21: 0, m22: 1 }
    }

    pub open spec fn row0(self) -> SVec3 {
        SVec3 { x: self.m00, y: self.m01, z: self.m02 }
    }

    pub open spec fn row1(self) -> SVec3 {
        SVec3 { x: self.m10, y: self.m11, z: self.m12 }
    }

    pub open spec fn row2(self) -> SVec3 {
        SVec3 { x: self.m20, y: self.m21, z: self.m22 }
    }

    pub open spec fn col0(self) -> SVec3 {
        SVec3 { x: self.m00, y: self.m10, z: self.m20 }
    }

    pub open spec fn col1(self) -> SVec3 {
        SVec3 { x: self.m01, y: self.m11, z: self.m21 }
    }

    pub open spec fn col2(self) -> SVec3 {
        SVec3 { x: self.m02, y: self.m12, z: self.m22 }
    }

    pub open spec fn transp(self) -> SMat3 {
        SMat3 {
            m00: self.m00, m01: self.m10, m02: self.m20,
            m10: self.m01, m11: self.m11, m12: self.m21,
            m20: self.m02, m21: self.m12, m22: self.m22,
        }
    }

    /// Matrix product `self * o`.
    pub open spec fn matmul(self, o: SMat3) -> SMat3 {
        SMat3 {
            m00: self.row0().dotv(o.col0()),
            m01: self.row0().dotv(o.col1()),
            m02: self.row0().dotv(o.col2()),
            m10: self.row1().dotv(o.col0()),
            m11: self.row1().dotv(o.col1()),
            m12: self.row1().dotv(o.col2()),
            m20: self.row2().dotv(o.col0()),
            m21: self.row2().dotv(o.col1()),
            m22: self.row2().dotv(o.col2()),
        }
    }

    /// Matrix-vector product `self * v`.
    pub open spec fn applyv(self, v: SVec3) -> SVec3 {
        SVec3 { x: self.row0().dotv(v), y: self.row1().dotv(v), z: self.row2().dotv(v) }
    }

    pub open spec fn scaledm(self, k: int) -> SMat3 {
        SMat3 {
            m00: k * self.m00, m01: k * self.m01, m02: k * self.m02,
            m10: k * self.m10, m11: k * self.m11, m12: k * self.m12,
            m20: k * self.m20, m21: k * self.m21, m22: k * self.m22,
        }
    }

    /// Every entry has magnitude at most `b`.
    pub open spec fn within(self, b: int) -> bool {
        &&& -b <= self.m00 <= b && -b <= self.m01 <= b && -b <= self.m02 <= b
        &&& -b <= self.m10 <= b && -b <= self.m11 <= b && -b <= self.m12 <= b
        &&& -b <= self.m20 <= b && -b <= self.m21 <= b && -b <= self.m22 <= b
    }
}

/// Executable 3-vector.
#[derive(Clone, Copy, PartialEq, Eq, Structural, Debug)]
pub struct Vec3 {
    pub x: i128,
    pub y: i128,
    pub z: i128,
}

/// Executable 3x3 matrix; `mRC` is row `R`, column `C`.
#[derive(Clone, Copy, PartialEq, Eq, Structural, Debug)]
pub struct Mat3 {
    pub m00: i128, pub m01: i128, pub m02: i128,
    pub m10: i128, pub m11: i128, pub m12: i128,
    pub m20: i128, pub m21: i128, pub m22: i128,
}

impl View for Vec3 {
    type V = SVec3;

    open spec fn view(&self) -> SVec3 {
        SVec3 { x: self.x as int, y: self.y as int, z: self.z as int }
    }
}

impl View for Mat3 {
    type V = SMat3;

    open spec fn view(&self) -> SMat3 {
        SMat3 {
            m00: self.m00 as int, m01: self.m01 as int, m02: self.m02 as int,
            m10: self.m10 as int, m11: self.m11 as int, m12: self.m12 as int,
            m20: self.m20 as int, m21: self.m21 as int, m22: self.m22 as int,
        }
    }
}

impl Vec3 {
        pub fn zero() -> (r: Vec3)
        ensures
            r@ == SVec3::zero(),
    {
        Vec3 { x: 0, y: 0, z: 0 }
    }
}

impl Mat3 {
        pub fn identity() -> (r: Mat3)
        ensures
            r@ == SMat3::identity(),
    {
        Mat3 { m00: 1, m01: 0, m02: 0, m10: 0, m11: 1, m12: 0, m20: 0, m21: 0, m22: 1 }
    }
}

/// The dot product is symmetric.
pub broadcast proof fn lemma_dotv_comm(u: SVec3, v: SVec3)
    by (nonlinear_arith)
    ensures
        #[trigger] u.dotv(v) == v.dotv(u),
{
}

/// Magnitude bound for a dot product of bounded vectors.
#[verifier::spinoff_prover]
pub proof fn lemma_dotv_bound(u: SVec3, bu: int, v: SVec3, bv: int)
    requires
        u.within(bu),
        v.within(bv),
    ensures
        -(3 * (bu * bv)) <= u.dotv(v) <= 3 * (bu * bv),
{
    lemma_mul_abs_le(u.x, bu, v.x, bv);
    lemma_mul_abs_le(u.y, bu, v.y, bv);
    lemma_mul_abs_le(u.z, bu, v.z, bv);
}

/// Magnitude bound for a matrix-vector product with bounded factors.
#[verifier::spinoff_prover]
pub proof fn lemma_applyv_bound(m: SMat3, bm: int, v: SVec3, bv: int)
    requires
        m.within(bm),
        v.within(bv),
    ensures
        m.applyv(v).within(3 * (bm * bv)),
{
    lemma_dotv_bound(m.row0(), bm, v, bv);
    lemma_dotv_bound(m.row1(), bm, v, bv);
    lemma_dotv_bound(m.row2(), bm, v, bv);
}

/// Magnitude bound for a matrix product with bounded factors.
#[verifier::spinoff_prover]
pub proof fn lemma_matmul_bound(a: SMat3, ba: int, b: SMat3, bb: int)
    requires
        a.within(ba),
        b.within(bb),
    ensures
        a.matmul(b).within(3 * (ba * bb)),
{
    lemma_dotv_bound(a.row0(), ba, b.col0(), bb);
    lemma_dotv_bound(a.row0(), ba, b.col1(), bb);
    lemma_dotv_bound(a.row0(), ba, b.col2(), bb);
    lemma_dotv_bound(a.row1(), ba, b.col0(), bb);
    lemma_dotv_bound(a.row1(), ba, b.col1(), bb);
    lemma_dotv_bound(a.row1(), ba, b.col2(), bb);
    lemma_dotv_bound(a.row2(), ba, b.col0(), bb);
    lemma_dotv_bound(a.row2(), ba, b.col1(), bb);
    lemma_dotv_bound(a.row2(), ba, b.col2(), bb);
}

/// Magnitude bound for a scaled vector.
#[verifier::spinoff_prover]
pub proof fn lemma_scaled_bound(v: SVec3, bv: int, k: int, bk: int)
    requires
        v.within(bv),
        -bk <= k <= bk,
    ensures
        v.scaled(k).within(bk * bv),
{
    lemma_mul_abs_le(k, bk, v.x, bv);
    lemma_mul_abs_le(k, bk, v.y, bv);
    lemma_mul_abs_le(k, bk, v.z, bv);
}

/// Scaling twice is scaling by the product.
#[verifier::spinoff_prover]
pub proof fn lemma_scaled_scaled(v: SVec3, a: int, b: int)
    ensures
        v.scaled(a).scaled(b) == v.scaled(a * b),
{
    lemma_poly_rescale(a, b, v.x);
    lemma_poly_rescale(a, b, v.y);
    lemma_poly_rescale(a, b, v.z);
}


/// A matrix application commutes with scaling the vector.
#[verifier::spinoff_prover]
pub proof fn lemma_applyv_scaled(m: SMat3, v: SVec3, k: int)
    ensures
        m.applyv(v.scaled(k)) == m.applyv(v).scaled(k),
{
    lemma_poly_scale3_right(k, m.m00, m.m01, m.m02, v.x, v.y, v.z);
    lemma_poly_scale3_right(k, m.m10, m.m11, m.m12, v.x, v.y, v.z);
    lemma_poly_scale3_right(k, m.m20, m.m21, m.m22, v.x, v.y, v.z);
}

/// Scaling both arguments of a dot product scales it by the square.
#[verifier::spinoff_prover]
pub proof fn lemma_dotv_scaled_both(u: SVec3, v: SVec3, k: int)
    ensures
        u.scaled(k).dotv(v.scaled(k)) == (k * k) * u.dotv(v),
{
    lemma_poly_scale_both3(k, u.x, u.y, u.z, v.x, v.y, v.z);
}

/// A dot product with a scaled left argument.
#[verifier::spinoff_prover]
pub proof fn lemma_dotv_scaled_left(u: SVec3, k: int, v: SVec3)
    ensures
        u.scaled(k).dotv(v) == k * u.dotv(v),
{
    lemma_poly_scale3_left(k, u.x, u.y, u.z, v.x, v.y, v.z);
}

/// Magnitude bound for a scaled matrix.
#[verifier::spinoff_prover]
pub proof fn lemma_scaledm_bound(m: SMat3, bm: int, k: int, bk: int)
    requires
        m.within(bm),
        -bk <= k <= bk,
    ensures
        m.scaledm(k).within(bk * bm),
{
    lemma_mul_abs_le(k, bk, m.m00, bm);
    lemma_mul_abs_le(k, bk, m.m01, bm);
    lemma_mul_abs_le(k, bk, m.m02, bm);
    lemma_mul_abs_le(k, bk, m.m10, bm);
    lemma_mul_abs_le(k, bk, m.m11, bm);
    lemma_mul_abs_le(k, bk, m.m12, bm);
    lemma_mul_abs_le(k, bk, m.m20, bm);
    lemma_mul_abs_le(k, bk, m.m21, bm);
    lemma_mul_abs_le(k, bk, m.m22, bm);
}

/// A matrix application distributes over vector sums, differences and
/// negation.
#[verifier::spinoff_prover]
pub proof fn lemma_applyv_linear(m: SMat3, x: SVec3, y: SVec3)
    ensures
        m.applyv(x.plus(y)) == m.applyv(x).plus(m.applyv(y)),
        m.applyv(x.minus(y)) == m.applyv(x).minus(m.applyv(y)),
        m.applyv(x.neg()) == m.applyv(x).neg(),
{
    lemma_poly_dot3_plus(m.m00, m.m01, m.m02, x.x, x.y, x.z, y.x, y.y, y.z);
    lemma_poly_dot3_plus(m.m10, m.m11, m.m12, x.x, x.y, x.z, y.x, y.y, y.z);
    lemma_poly_dot3_plus(m.m20, m.m21, m.m22, x.x, x.y, x.z, y.x, y.y, y.z);
}

/// Matrix application composes with the matrix product.
#[verifier::spinoff_prover]
pub proof fn lemma_applyv_matmul(a: SMat3, b: SMat3, v: SVec3)
    ensures
        a.matmul(b).applyv(v) == a.applyv(b.applyv(v)),
{
    lemma_poly_apply_matmul(
        a.m00, a.m01, a.m02,
        b.m00, b.m01, b.m02, b.m10, b.m11, b.m12, b.m20, b.m21, b.m22,
        v.x, v.y, v.z,
    );
    lemma_poly_apply_matmul(
        a.m10, a.m11, a.m12,
        b.m00, b.m01, b.m02, b.m10, b.m11, b.m12, b.m20, b.m21, b.m22,
        v.x, v.y, v.z,
    );
    lemma_poly_apply_matmul(
        a.m20, a.m21, a.m22,
        b.m00, b.m01, b.m02, b.m10, b.m11, b.m12, b.m20, b.m21, b.m22,
        v.x, v.y, v.z,
    );
}

/// Scaling distributes over vector sums and differences.
#[verifier::spinoff_prover]
pub proof fn lemma_scaled_linear(x: SVec3, y: SVec3, k: int)
    ensures
        x.plus(y).scaled(k) == x.scaled(k).plus(y.scaled(k)),
        x.minus(y).scaled(k) == x.scaled(k).minus(y.scaled(k)),
{
    vstd::arithmetic::mul::lemma_mul_is_distributive_add(k, x.x, y.x);
    vstd::arithmetic::mul::lemma_mul_is_distributive_add(k, x.y, y.y);
    vstd::arithmetic::mul::lemma_mul_is_distributive_add(k, x.z, y.z);
    vstd::arithmetic::mul::lemma_mul_is_distributive_sub(k, x.x, y.x);
    vstd::arithmetic::mul::lemma_mul_is_distributive_sub(k, x.y, y.y);
    vstd::arithmetic::mul::lemma_mul_is_distributive_sub(k, x.z, y.z);
}

/// Scaling a matrix twice is scaling by the product.
#[verifier::spinoff_prover]
pub proof fn lemma_scaledm_scaledm(m: SMat3, a: int, b: int)
    ensures
        m.scaledm(a).scaledm(b) == m.scaledm(a * b),
{
    lemma_poly_rescale(a, b, m.m00);
    lemma_poly_rescale(a, b, m.m01);
    lemma_poly_rescale(a, b, m.m02);
    lemma_poly_rescale(a, b, m.m10);
    lemma_poly_rescale(a, b, m.m11);
    lemma_poly_rescale(a, b, m.m12);
    lemma_poly_rescale(a, b, m.m20);
    lemma_poly_rescale(a, b, m.m21);
    lemma_poly_rescale(a, b, m.m22);
}

/// A dot product with a scaled right argument.
#[verifier::spinoff_prover]
pub proof fn lemma_dotv_scaled_right(u: SVec3, k: int, v: SVec3)
    ensures
        u.dotv(v.scaled(k)) == k * u.dotv(v),
{
    lemma_poly_scale3_right(k, u.x, u.y, u.z, v.x, v.y, v.z);
}

/// A scale factor on the left factor of a matrix product scales the
/// product.
#[verifier::spinoff_prover]
pub proof fn lemma_matmul_scaled_left(a: SMat3, b: SMat3, k: int)
    ensures
        a.scaledm(k).matmul(b) == a.matmul(b).scaledm(k),
{
    assert(a.scaledm(k).row0() == a.row0().scaled(k));
    assert(a.scaledm(k).row1() == a.row1().scaled(k));
    assert(a.scaledm(k).row2() == a.row2().scaled(k));
    lemma_dotv_scaled_left(a.row0(), k, b.col0());
    lemma_dotv_scaled_left(a.row0(), k, b.col1());
    lemma_dotv_scaled_left(a.row0(), k, b.col2());
    lemma_dotv_scaled_left(a.row1(), k, b.col0());
    lemma_dotv_scaled_left(a.row1(), k, b.col1());
    lemma_dotv_scaled_left(a.row1(), k, b.col2());
    lemma_dotv_scaled_left(a.row2(), k, b.col0());
    lemma_dotv_scaled_left(a.row2(), k, b.col1());
    lemma_dotv_scaled_left(a.row2(), k, b.col2());
    assert(a.scaledm(k).matmul(b) =~= a.matmul(b).scaledm(k));
}

/// A scale factor on the right factor of a matrix product scales the
/// product.
#[verifier::spinoff_prover]
pub proof fn lemma_matmul_scaled_right(a: SMat3, b: SMat3, k: int)
    ensures
        a.matmul(b.scaledm(k)) == a.matmul(b).scaledm(k),
{
    assert(b.scaledm(k).col0() == b.col0().scaled(k));
    assert(b.scaledm(k).col1() == b.col1().scaled(k));
    assert(b.scaledm(k).col2() == b.col2().scaled(k));
    lemma_dotv_scaled_right(a.row0(), k, b.col0());
    lemma_dotv_scaled_right(a.row0(), k, b.col1());
    lemma_dotv_scaled_right(a.row0(), k, b.col2());
    lemma_dotv_scaled_right(a.row1(), k, b.col0());
    lemma_dotv_scaled_right(a.row1(), k, b.col1());
    lemma_dotv_scaled_right(a.row1(), k, b.col2());
    lemma_dotv_scaled_right(a.row2(), k, b.col0());
    lemma_dotv_scaled_right(a.row2(), k, b.col1());
    lemma_dotv_scaled_right(a.row2(), k, b.col2());
    assert(a.matmul(b.scaledm(k)) =~= a.matmul(b).scaledm(k));
}

/// The matrix product is associative.
#[verifier::spinoff_prover]
pub proof fn lemma_matmul_assoc(a: SMat3, b: SMat3, c: SMat3)
    ensures
        a.matmul(b).matmul(c) == a.matmul(b.matmul(c)),
{
    lemma_applyv_matmul(a, b, c.col0());
    lemma_applyv_matmul(a, b, c.col1());
    lemma_applyv_matmul(a, b, c.col2());
    assert(a.matmul(b).matmul(c).col0() == a.matmul(b).applyv(c.col0()));
    assert(a.matmul(b).matmul(c).col1() == a.matmul(b).applyv(c.col1()));
    assert(a.matmul(b).matmul(c).col2() == a.matmul(b).applyv(c.col2()));
    assert(b.matmul(c).col0() == b.applyv(c.col0()));
    assert(b.matmul(c).col1() == b.applyv(c.col1()));
    assert(b.matmul(c).col2() == b.applyv(c.col2()));
    assert(a.matmul(b.matmul(c)).col0() == a.applyv(b.matmul(c).col0()));
    assert(a.matmul(b.matmul(c)).col1() == a.applyv(b.matmul(c).col1()));
    assert(a.matmul(b.matmul(c)).col2() == a.applyv(b.matmul(c).col2()));
    assert(a.matmul(b).matmul(c).col0() == a.matmul(b.matmul(c)).col0());
    assert(a.matmul(b).matmul(c).col1() == a.matmul(b.matmul(c)).col1());
    assert(a.matmul(b).matmul(c).col2() == a.matmul(b.matmul(c)).col2());
    assert(a.matmul(b).matmul(c) =~= a.matmul(b.matmul(c)));
}

/// The scaled identity matrix acts on a vector as scaling.
#[verifier::spinoff_prover]
pub proof fn lemma_applyv_scaled_identity(k: int, v: SVec3)
    ensures
        SMat3::identity().scaledm(k).applyv(v) == v.scaled(k),
{
    vstd::arithmetic::mul::lemma_mul_basics(k);
    vstd::arithmetic::mul::lemma_mul_basics(v.x);
    vstd::arithmetic::mul::lemma_mul_basics(v.y);
    vstd::arithmetic::mul::lemma_mul_basics(v.z);
    assert(SMat3::identity().scaledm(k).applyv(v) =~= v.scaled(k));
}

/// The identity matrix is neutral for the matrix product.
#[verifier::spinoff_prover]
pub proof fn lemma_matmul_identity(m: SMat3)
    ensures
        m.matmul(SMat3::identity()) == m,
        SMat3::identity().matmul(m) == m,
{
    vstd::arithmetic::mul::lemma_mul_basics(m.m00);
    vstd::arithmetic::mul::lemma_mul_basics(m.m01);
    vstd::arithmetic::mul::lemma_mul_basics(m.m02);
    vstd::arithmetic::mul::lemma_mul_basics(m.m10);
    vstd::arithmetic::mul::lemma_mul_basics(m.m11);
    vstd::arithmetic::mul::lemma_mul_basics(m.m12);
    vstd::arithmetic::mul::lemma_mul_basics(m.m20);
    vstd::arithmetic::mul::lemma_mul_basics(m.m21);
    vstd::arithmetic::mul::lemma_mul_basics(m.m22);
    assert(m.matmul(SMat3::identity()) =~= m);
    assert(SMat3::identity().matmul(m) =~= m);
}

/// `a1*b1 + a2*b2 + a3*b3`, exact, for factors within the given ghost bounds.
#[verifier::spinoff_prover]
pub(crate) fn lin3(
    a1: i128, b1: i128, a2: i128, b2: i128, a3: i128, b3: i128,
    Ghost(ba): Ghost<int>, Ghost(bb): Ghost<int>,
) -> (r: i128)
    requires
        -ba <= a1 <= ba,
        -ba <= a2 <= ba,
        -ba <= a3 <= ba,
        -bb <= b1 <= bb,
        -bb <= b2 <= bb,
        -bb <= b3 <= bb,
        3 * (ba * bb) <= i128::MAX,
    ensures
        r == a1 * b1 + a2 * b2 + a3 * b3,
{
    proof {
        lemma_mul_abs_le(a1 as int, ba, b1 as int, bb);
        lemma_mul_abs_le(a2 as int, ba, b2 as int, bb);
        lemma_mul_abs_le(a3 as int, ba, b3 as int, bb);
        lemma_mul_abs_le(ba, ba, bb, bb);
    }
    a1 * b1 + a2 * b2 + a3 * b3
}

/// `a1*b1 + a2*b2 + a3*b3 + a4*b4`, exact, for factors within the given
/// ghost bounds.
#[verifier::spinoff_prover]
pub(crate) fn lin4(
    a1: i128, b1: i128, a2: i128, b2: i128, a3: i128, b3: i128, a4: i128, b4: i128,
    Ghost(ba): Ghost<int>, Ghost(bb): Ghost<int>,
) -> (r: i128)
    requires
        -ba <= a1 <= ba,
        -ba <= a2 <= ba,
        -ba <= a3 <= ba,
        -ba <= a4 <= ba,
        -bb <= b1 <= bb,
        -bb <= b2 <= bb,
        -bb <= b3 <= bb,
        -bb <= b4 <= bb,
        4 * (ba * bb) <= i128::MAX,
    ensures
        r == a1 * b1 + a2 * b2 + a3 * b3 + a4 * b4,
{
    proof {
        lemma_mul_abs_le(a1 as int, ba, b1 as int, bb);
        lemma_mul_abs_le(a2 as int, ba, b2 as int, bb);
        lemma_mul_abs_le(a3 as int, ba, b3 as int, bb);
        lemma_mul_abs_le(a4 as int, ba, b4 as int, bb);
        lemma_mul_abs_le(ba, ba, bb, bb);
    }
    a1 * b1 + a2 * b2 + a3 * b3 + a4 * b4
}

/// `a1*b1 + a2*b2 + a3*b3 + c*d`, exact, where the first three products and
/// the last one carry separate ghost bounds.
#[verifier::spinoff_prover]
pub(crate) fn lin3x1(
    a1: i128, b1: i128, a2: i128, b2: i128, a3: i128, b3: i128, c: i128, d: i128,
    Ghost(ba): Ghost<int>, Ghost(bb): Ghost<int>, Ghost(bc): Ghost<int>, Ghost(bd): Ghost<int>,
) -> (r: i128)
    requires
        -ba <= a1 <= ba,
        -ba <= a2 <= ba,
        -ba <= a3 <= ba,
        -bb <= b1 <= bb,
        -bb <= b2 <= bb,
        -bb <= b3 <= bb,
        -bc <= c <= bc,
        -bd <= d <= bd,
        3 * (ba * bb) + bc * bd <= i128::MAX,
    ensures
        r == a1 * b1 + a2 * b2 + a3 * b3 + c * d,
{
    proof {
        lemma_mul_abs_le(a1 as int, ba, b1 as int, bb);
        lemma_mul_abs_le(a2 as int, ba, b2 as int, bb);
        lemma_mul_abs_le(a3 as int, ba, b3 as int, bb);
        lemma_mul_abs_le(c as int, bc, d as int, bd);
        lemma_mul_abs_le(ba, ba, bb, bb);
        lemma_mul_abs_le(bc, bc, bd, bd);
    }
    a1 * b1 + a2 * b2 + a3 * b3 + c * d
}

/// Runtime check that all vector components have magnitude at most `b`.
pub fn v3_within(v: &Vec3, b: i128) -> (r: bool)
    requires
        0 <= b,
    ensures
        r == v@.within(b as int),
{
    -b <= v.x && v.x <= b && -b <= v.y && v.y <= b && -b <= v.z && v.z <= b
}

/// Single exact product within the given ghost bounds.
#[verifier::spinoff_prover]
pub(crate) fn mul_b(a: i128, b: i128, Ghost(ba): Ghost<int>, Ghost(bb): Ghost<int>) -> (r: i128)
    requires
        -ba <= a <= ba,
        -bb <= b <= bb,
        ba * bb <= i128::MAX,
    ensures
        r == a * b,
{
    proof {
        lemma_mul_abs_le(a as int, ba, b as int, bb);
    }
    a * b
}

/// Exact matrix product within the given ghost bounds.
#[verifier::spinoff_prover]
pub(crate) fn mat_mul_b(a: &Mat3, b: &Mat3, Ghost(ba): Ghost<int>, Ghost(bb): Ghost<int>) -> (r: Mat3)
    requires
        a@.within(ba),
        b@.within(bb),
        3 * (ba * bb) <= i128::MAX,
    ensures
        r@ == a@.matmul(b@),
{
    Mat3 {
        m00: lin3(a.m00, b.m00, a.m01, b.m10, a.m02, b.m20, Ghost(ba), Ghost(bb)),
        m01: lin3(a.m00, b.m01, a.m01, b.m11, a.m02, b.m21, Ghost(ba), Ghost(bb)),
        m02: lin3(a.m00, b.m02, a.m01, b.m12, a.m02, b.m22, Ghost(ba), Ghost(bb)),
        m10: lin3(a.m10, b.m00, a.m11, b.m10, a.m12, b.m20, Ghost(ba), Ghost(bb)),
        m11: lin3(a.m10, b.m01, a.m11, b.m11, a.m12, b.m21, Ghost(ba), Ghost(bb)),
        m12: lin3(a.m10, b.m02, a.m11, b.m12, a.m12, b.m22, Ghost(ba), Ghost(bb)),
        m20: lin3(a.m20, b.m00, a.m21, b.m10, a.m22, b.m20, Ghost(ba), Ghost(bb)),
        m21: lin3(a.m20, b.m01, a.m21, b.m11, a.m22, b.m21, Ghost(ba), Ghost(bb)),
        m22: lin3(a.m20, b.m02, a.m21, b.m12, a.m22, b.m22, Ghost(ba), Ghost(bb)),
    }
}

/// Exact matrix-vector product within the given ghost bounds.
#[verifier::spinoff_prover]
pub(crate) fn mat_apply_b(m: &Mat3, v: &Vec3, Ghost(bm): Ghost<int>, Ghost(bv): Ghost<int>) -> (r: Vec3)
    requires
        m@.within(bm),
        v@.within(bv),
        3 * (bm * bv) <= i128::MAX,
    ensures
        r@ == m@.applyv(v@),
{
    Vec3 {
        x: lin3(m.m00, v.x, m.m01, v.y, m.m02, v.z, Ghost(bm), Ghost(bv)),
        y: lin3(m.m10, v.x, m.m11, v.y, m.m12, v.z, Ghost(bm), Ghost(bv)),
        z: lin3(m.m20, v.x, m.m21, v.y, m.m22, v.z, Ghost(bm), Ghost(bv)),
    }
}

/// Exact scaled matrix within the given ghost bounds.
#[verifier::spinoff_prover]
pub(crate) fn mat_scale_b(m: &Mat3, k: i128, Ghost(bm): Ghost<int>, Ghost(bk): Ghost<int>) -> (r: Mat3)
    requires
        m@.within(bm),
        -bk <= k <= bk,
        bk * bm <= i128::MAX,
    ensures
        r@ == m@.scaledm(k as int),
{
    Mat3 {
        m00: mul_b(k, m.m00, Ghost(bk), Ghost(bm)),
        m01: mul_b(k, m.m01, Ghost(bk), Ghost(bm)),
        m02: mul_b(k, m.m02, Ghost(bk), Ghost(bm)),
        m10: mul_b(k, m.m10, Ghost(bk), Ghost(bm)),
        m11: mul_b(k, m.m11, Ghost(bk), Ghost(bm)),
        m12: mul_b(k, m.m12, Ghost(bk), Ghost(bm)),
        m20: mul_b(k, m.m20, Ghost(bk), Ghost(bm)),
        m21: mul_b(k, m.m21, Ghost(bk), Ghost(bm)),
        m22: mul_b(k, m.m22, Ghost(bk), Ghost(bm)),
    }
}

/// Exact scaled vector within the given ghost bounds.
#[verifier::spinoff_prover]
pub(crate) fn v_scale_b(v: &Vec3, k: i128, Ghost(bv): Ghost<int>, Ghost(bk): Ghost<int>) -> (r: Vec3)
    requires
        v@.within(bv),
        -bk <= k <= bk,
        bk * bv <= i128::MAX,
    ensures
        r@ == v@.scaled(k as int),
{
    Vec3 {
        x: mul_b(k, v.x, Ghost(bk), Ghost(bv)),
        y: mul_b(k, v.y, Ghost(bk), Ghost(bv)),
        z: mul_b(k, v.z, Ghost(bk), Ghost(bv)),
    }
}

/// Exact vector sum within the given ghost bounds.
#[verifier::spinoff_prover]
pub(crate) fn v_add_b(a: &Vec3, b: &Vec3, Ghost(ba): Ghost<int>, Ghost(bb): Ghost<int>) -> (r: Vec3)
    requires
        a@.within(ba),
        b@.within(bb),
        ba + bb <= i128::MAX,
    ensures
        r@ == a@.plus(b@),
{
    Vec3 { x: a.x + b.x, y: a.y + b.y, z: a.z + b.z }
}

/// Exact vector difference within the given ghost bounds.
#[verifier::spinoff_prover]
pub(crate) fn v_sub_b(a: &Vec3, b: &Vec3, Ghost(ba): Ghost<int>, Ghost(bb): Ghost<int>) -> (r: Vec3)
    requires
        a@.within(ba),
        b@.within(bb),
        ba + bb <= i128::MAX,
    ensures
        r@ == a@.minus(b@),
{
    Vec3 { x: a.x - b.x, y: a.y - b.y, z: a.z - b.z }
}

} // verus!
