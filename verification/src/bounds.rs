//! Magnitude bounds for products, used to show that the exact integer
//! arithmetic of the geometry kernel stays inside `i128`.

use vstd::prelude::*;

verus! {

/// The product of two integers of bounded magnitude is bounded by the
/// product of the bounds.
pub proof fn lemma_mul_abs_le(a: int, ab: int, b: int, bb: int)
    by (nonlinear_arith)
    requires
        -ab <= a <= ab,
        -bb <= b <= bb,
    ensures
        -(ab * bb) <= a * b <= ab * bb,
{
}

/// The product of two positive integers is positive.
pub proof fn lemma_mul_pos(a: int, b: int)
    by (nonlinear_arith)
    requires
        0 < a,
        0 < b,
    ensures
        0 < a * b,
{
}

/// A product with a zero factor is zero.
#[verifier::spinoff_prover]
pub proof fn lemma_mul_by_zero(a: int, k: int)
    requires
        a == 0,
    ensures
        a * k == 0,
{
    broadcast use vstd::arithmetic::mul::group_mul_properties;
}

/// Swapping the outer factors of a nested product.
#[verifier::spinoff_prover]
pub proof fn lemma_poly_swap3(a: int, b: int, c: int)
    ensures
        a * (b * c) == c * (b * a),
{
    broadcast use vstd::arithmetic::mul::group_mul_properties;
}

/// Shuffles used by the near-plane containment law.
#[verifier::spinoff_prover]
pub proof fn lemma_poly_near_eval(q: int, w: int, e: int, s: int)
    ensures
        ((w * 1) * e) * q == (q * (1 * e)) * w,
        ((s * w) * 1) * w == s * (w * w),
{
    broadcast use vstd::arithmetic::mul::group_mul_properties;
}

/// Reassociating a scalar product.
#[verifier::spinoff_prover]
pub proof fn lemma_poly_rescale(a: int, b: int, x: int)
    ensures
        b * (a * x) == (a * b) * x,
{
    broadcast use vstd::arithmetic::mul::group_mul_properties;
}

/// Pulling a common right-hand scale factor out of a three-term sum of
/// products.
#[verifier::spinoff_prover]
pub proof fn lemma_poly_scale3_right(k: int, a1: int, a2: int, a3: int, v1: int, v2: int, v3: int)
    ensures
        a1 * (k * v1) + a2 * (k * v2) + a3 * (k * v3) == k * (a1 * v1 + a2 * v2 + a3 * v3),
{
    broadcast use vstd::arithmetic::mul::group_mul_properties;
}

/// Pulling a common left-hand scale factor out of a three-term sum of
/// products.
#[verifier::spinoff_prover]
pub proof fn lemma_poly_scale3_left(k: int, u1: int, u2: int, u3: int, v1: int, v2: int, v3: int)
    ensures
        (k * u1) * v1 + (k * u2) * v2 + (k * u3) * v3 == k * (u1 * v1 + u2 * v2 + u3 * v3),
{
    broadcast use vstd::arithmetic::mul::group_mul_properties;
}

/// Pulling a scale factor applied to both sides out of a three-term sum of
/// products.
#[verifier::spinoff_prover]
pub proof fn lemma_poly_scale_both3(k: int, u1: int, u2: int, u3: int, v1: int, v2: int, v3: int)
    ensures
        (k * u1) * (k * v1) + (k * u2) * (k * v2) + (k * u3) * (k * v3)
            == (k * k) * (u1 * v1 + u2 * v2 + u3 * v3),
{
    broadcast use vstd::arithmetic::mul::group_mul_properties;
}

/// Expansion of a product of two linear forms sharing their coefficients,
/// grouped by the quadratic coefficient terms.
#[verifier::spinoff_prover]
pub proof fn lemma_poly_sym_expand(
    ax: int, ay: int, az: int, ux: int, uy: int, uz: int, vx: int, vy: int, vz: int,
)
    ensures
        (ax * ux + ay * uy + az * uz) * (ax * vx + ay * vy + az * vz)
            == (ax * ax) * (ux * vx) + (ay * ay) * (uy * vy) + (az * az) * (uz * vz)
                + (ax * ay) * (ux * vy + uy * vx) + (ay * az) * (uy * vz + uz * vy)
                + (az * ax) * (uz * vx + ux * vz),
{
    broadcast use vstd::arithmetic::mul::group_mul_properties;
}

/// A three-term linear form distributes over a sum of vectors.
#[verifier::spinoff_prover]
pub proof fn lemma_poly_dot3_plus(
    a1: int, a2: int, a3: int, x1: int, x2: int, x3: int, y1: int, y2: int, y3: int,
)
    ensures
        a1 * (x1 + y1) + a2 * (x2 + y2) + a3 * (x3 + y3)
            == (a1 * x1 + a2 * x2 + a3 * x3) + (a1 * y1 + a2 * y2 + a3 * y3),
        a1 * (x1 - y1) + a2 * (x2 - y2) + a3 * (x3 - y3)
            == (a1 * x1 + a2 * x2 + a3 * x3) - (a1 * y1 + a2 * y2 + a3 * y3),
        a1 * (-x1) + a2 * (-x2) + a3 * (-x3) == -(a1 * x1 + a2 * x2 + a3 * x3),
{
    vstd::arithmetic::mul::lemma_mul_is_distributive_add(a1, x1, y1);
    vstd::arithmetic::mul::lemma_mul_is_distributive_add(a2, x2, y2);
    vstd::arithmetic::mul::lemma_mul_is_distributive_add(a3, x3, y3);
    vstd::arithmetic::mul::lemma_mul_is_distributive_sub(a1, x1, y1);
    vstd::arithmetic::mul::lemma_mul_is_distributive_sub(a2, x2, y2);
    vstd::arithmetic::mul::lemma_mul_is_distributive_sub(a3, x3, y3);
    vstd::arithmetic::mul::lemma_mul_unary_negation(a1, x1);
    vstd::arithmetic::mul::lemma_mul_unary_negation(a2, x2);
    vstd::arithmetic::mul::lemma_mul_unary_negation(a3, x3);
    vstd::arithmetic::mul::lemma_mul_is_commutative(a1, -x1);
    vstd::arithmetic::mul::lemma_mul_is_commutative(a2, -x2);
    vstd::arithmetic::mul::lemma_mul_is_commutative(a3, -x3);
    vstd::arithmetic::mul::lemma_mul_is_commutative(a1, x1);
    vstd::arithmetic::mul::lemma_mul_is_commutative(a2, x2);
    vstd::arithmetic::mul::lemma_mul_is_commutative(a3, x3);
}

/// Distributing a common factor over a three-term sum.
#[verifier::spinoff_prover]
pub proof fn lemma_distrib3(a1: int, a2: int, a3: int, k: int)
    ensures
        (a1 + a2 + a3) * k == a1 * k + a2 * k + a3 * k,
        k * (a1 + a2 + a3) == k * a1 + k * a2 + k * a3,
        k * (a1 + a2 + a3) == a1 * k + a2 * k + a3 * k,
{
    broadcast use vstd::arithmetic::mul::group_mul_properties;
}

/// Associativity of multiplication.
#[verifier::spinoff_prover]
pub proof fn lemma_poly_assoc(a: int, b: int, c: int)
    ensures
        (a * b) * c == a * (b * c),
{
    broadcast use vstd::arithmetic::mul::group_mul_properties;
}

/// A matrix-vector product composes: one component of `(a*b)*v == a*(b*v)`.
#[verifier::spinoff_prover]
pub proof fn lemma_poly_apply_matmul(
    a1: int, a2: int, a3: int,
    b00: int, b01: int, b02: int, b10: int, b11: int, b12: int, b20: int, b21: int, b22: int,
    vx: int, vy: int, vz: int,
)
    ensures
        (a1 * b00 + a2 * b10 + a3 * b20) * vx + (a1 * b01 + a2 * b11 + a3 * b21) * vy
            + (a1 * b02 + a2 * b12 + a3 * b22) * vz
            == a1 * (b00 * vx + b01 * vy + b02 * vz) + a2 * (b10 * vx + b11 * vy + b12 * vz)
                + a3 * (b20 * vx + b21 * vy + b22 * vz),
{
    lemma_distrib3(a1 * b00, a2 * b10, a3 * b20, vx);
    lemma_distrib3(a1 * b01, a2 * b11, a3 * b21, vy);
    lemma_distrib3(a1 * b02, a2 * b12, a3 * b22, vz);
    lemma_poly_assoc(a1, b00, vx);
    lemma_poly_assoc(a2, b10, vx);
    lemma_poly_assoc(a3, b20, vx);
    lemma_poly_assoc(a1, b01, vy);
    lemma_poly_assoc(a2, b11, vy);
    lemma_poly_assoc(a3, b21, vy);
    lemma_poly_assoc(a1, b02, vz);
    lemma_poly_assoc(a2, b12, vz);
    lemma_poly_assoc(a3, b22, vz);
    lemma_distrib3(b00 * vx, b01 * vy, b02 * vz, a1);
    lemma_distrib3(b10 * vx, b11 * vy, b12 * vz, a2);
    lemma_distrib3(b20 * vx, b21 * vy, b22 * vz, a3);
}

/// Product shuffles used by the mirror involution: `a` is the squared normal
/// length, `b` the mirror origin denominator, `w` a pose denominator, `s` a
/// pose scale.
#[verifier::spinoff_prover]
pub proof fn lemma_poly_mirror_shuffle(a: int, b: int, w: int, s: int)
    ensures
        ((a * a) * (b * b)) * w == a * ((a * (w * b)) * b),
        a * (a * (w * b)) == w * ((a * a) * b),
        (b * ((a * a) * b)) * w == a * ((a * (w * b)) * b),
        ((s * (a * b)) * (a * b)) * w == s * (a * ((a * (w * b)) * b)),
{
    broadcast use vstd::arithmetic::mul::group_mul_properties;
}

/// One diagonal orthogonality equation of the reflection matrix
/// `(n.n) I - 2 n nT`, written for the first component; the others follow by
/// renaming.
#[verifier::spinoff_prover]
pub proof fn lemma_poly_householder_diag(x: int, y: int, z: int)
    ensures
        ((x * x + y * y + z * z) - 2 * (x * x)) * ((x * x + y * y + z * z) - 2 * (x * x))
            + (-(2 * (x * y))) * (-(2 * (x * y))) + (-(2 * (x * z))) * (-(2 * (x * z)))
            == (x * x + y * y + z * z) * (x * x + y * y + z * z),
{
    assert(((x * x + y * y + z * z) - 2 * (x * x)) * ((x * x + y * y + z * z) - 2 * (x * x))
        + (-(2 * (x * y))) * (-(2 * (x * y))) + (-(2 * (x * z))) * (-(2 * (x * z)))
        == (x * x + y * y + z * z) * (x * x + y * y + z * z)) by (nonlinear_arith);
}

/// One off-diagonal orthogonality equation of the reflection matrix
/// `(n.n) I - 2 n nT`, written for the first two components; the others
/// follow by renaming.
#[verifier::spinoff_prover]
pub proof fn lemma_poly_householder_off(x: int, y: int, z: int)
    ensures
        ((x * x + y * y + z * z) - 2 * (x * x)) * (-(2 * (x * y)))
            + (-(2 * (x * y))) * ((x * x + y * y + z * z) - 2 * (y * y))
            + (-(2 * (x * z))) * (-(2 * (y * z))) == 0,
        (-(2 * (x * y))) * ((x * x + y * y + z * z) - 2 * (x * x))
            + ((x * x + y * y + z * z) - 2 * (y * y)) * (-(2 * (x * y)))
            + (-(2 * (y * z))) * (-(2 * (x * z))) == 0,
{
    assert(((x * x + y * y + z * z) - 2 * (x * x)) * (-(2 * (x * y)))
        + (-(2 * (x * y))) * ((x * x + y * y + z * z) - 2 * (y * y))
        + (-(2 * (x * z))) * (-(2 * (y * z))) == 0) by (nonlinear_arith);
    assert((-(2 * (x * y))) * ((x * x + y * y + z * z) - 2 * (x * x))
        + ((x * x + y * y + z * z) - 2 * (y * y)) * (-(2 * (x * y)))
        + (-(2 * (y * z))) * (-(2 * (x * z))) == 0) by (nonlinear_arith);
}

} // verus!
