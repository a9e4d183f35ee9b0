use vstd::prelude::*;
use crate::matrix::{singular_det, Mat3};

verus! {

/// Transposing twice gives back the matrix.
pub proof fn lemma_transpose_involutive(m: Mat3)
    ensures
        m.transpose().transpose() == m,
{
}

/// Matrix addition is commutative.
pub proof fn lemma_add_commutative(a: Mat3, b: Mat3)
    ensures
        a.add(b) == b.add(a),
{
}

/// Subtracting `b` is adding `b` scaled by -1.
pub proof fn lemma_sub_is_add_negated(a: Mat3, b: Mat3)
    ensures
        a.sub(b) == a.add(b.scale(-1)),
{
}

/// The identity is neutral for the matrix product on either side.
pub proof fn lemma_mul_identity(a: Mat3)
    ensures
        a.mul(Mat3::identity()) == a,
        Mat3::identity().mul(a) == a,
{
    broadcast use vstd::arithmetic::mul::group_mul_basics;

    let i = Mat3::identity();
    let (p, q) = (a.mul(i), i.mul(a));
    assert(p.r1 == a.r1 && p.r2 == a.r2 && p.r3 == a.r3);
    assert(q.r1 == a.r1 && q.r2 == a.r2 && q.r3 == a.r3);
}

/// The identity has determinant 1.
pub proof fn lemma_det_identity()
    ensures
        Mat3::identity().det() == 1,
{
    broadcast use vstd::arithmetic::mul::group_mul_basics;

    let t = Mat3::identity().det_terms();
    assert(t[0] == 1 && t[1] == 0 && t[2] == 0 && t[3] == 0 && t[4] == 0 && t[5] == 0);
}

/// Each row of the matrix with rows (x1, y1, z1), (x2, y2, z2), (x3, y3, z3)
/// dotted with each column of its adjugate: the determinant on the diagonal,
/// zero elsewhere.
proof fn lemma_cofactor_identities(
    x1: int, y1: int, z1: int, x2: int, y2: int, z2: int, x3: int, y3: int, z3: int,
)
    ensures
        ({
            let det = x1 * y2 * z3 + x2 * y3 * z1 + x3 * y1 * z2 - x1 * y3 * z2 - x2 * y1 * z3
                - x3 * y2 * z1;
            let (c11, c12, c13) = (y2 * z3 - y3 * z2, z2 * x3 - z3 * x2, x2 * y3 - x3 * y2);
            let (c21, c22, c23) = (y3 * z1 - y1 * z3, z3 * x1 - z1 * x3, x3 * y1 - x1 * y3);
            let (c31, c32, c33) = (y1 * z2 - y2 * z1, z1 * x2 - z2 * x1, x1 * y2 - x2 * y1);
            &&& x1 * c11 + y1 * c12 + z1 * c13 == det
            &&& x1 * c21 + y1 * c22 + z1 * c23 == 0
            &&& x1 * c31 + y1 * c32 + z1 * c33 == 0
            &&& x2 * c11 + y2 * c12 + z2 * c13 == 0
            &&& x2 * c21 + y2 * c22 + z2 * c23 == det
            &&& x2 * c31 + y2 * c32 + z2 * c33 == 0
            &&& x3 * c11 + y3 * c12 + z3 * c13 == 0
            &&& x3 * c21 + y3 * c22 + z3 * c23 == 0
            &&& x3 * c31 + y3 * c32 + z3 * c33 == det
        }),
{
    assert(x1 * (y2 * z3 - y3 * z2) == x1 * y2 * z3 - x1 * y3 * z2) by (nonlinear_arith);
    assert(y1 * (z2 * x3 - z3 * x2) == x3 * y1 * z2 - x2 * y1 * z3) by (nonlinear_arith);
    assert(z1 * (x2 * y3 - x3 * y2) == x2 * y3 * z1 - x3 * y2 * z1) by (nonlinear_arith);
    assert(x1 * (y2 * z3 - y3 * z2) + y1 * (z2 * x3 - z3 * x2) + z1 * (x2 * y3 - x3 * y2) ==
        (x1 * y2 * z3 + x2 * y3 * z1 + x3 * y1 * z2 - x1 * y3 * z2 - x2 * y1 * z3 - x3 * y2 * z1));
    assert(x1 * (y3 * z1 - y1 * z3) + y1 * (z3 * x1 - z1 * x3) + z1 * (x3 * y1 - x1 * y3) == 0)
        by (nonlinear_arith);
    assert(x1 * (y1 * z2 - y2 * z1) + y1 * (z1 * x2 - z2 * x1) + z1 * (x1 * y2 - x2 * y1) == 0)
        by (nonlinear_arith);
    assert(x2 * (y2 * z3 - y3 * z2) + y2 * (z2 * x3 - z3 * x2) + z2 * (x2 * y3 - x3 * y2) == 0)
        by (nonlinear_arith);
    assert(x2 * (y3 * z1 - y1 * z3) == x2 * y3 * z1 - x2 * y1 * z3) by (nonlinear_arith);
    assert(y2 * (z3 * x1 - z1 * x3) == x1 * y2 * z3 - x3 * y2 * z1) by (nonlinear_arith);
    assert(z2 * (x3 * y1 - x1 * y3) == x3 * y1 * z2 - x1 * y3 * z2) by (nonlinear_arith);
    assert(x2 * (y3 * z1 - y1 * z3) + y2 * (z3 * x1 - z1 * x3) + z2 * (x3 * y1 - x1 * y3) ==
        (x1 * y2 * z3 + x2 * y3 * z1 + x3 * y1 * z2 - x1 * y3 * z2 - x2 * y1 * z3 - x3 * y2 * z1));
    assert(x2 * (y1 * z2 - y2 * z1) + y2 * (z1 * x2 - z2 * x1) + z2 * (x1 * y2 - x2 * y1) == 0)
        by (nonlinear_arith);
    assert(x3 * (y2 * z3 - y3 * z2) + y3 * (z2 * x3 - z3 * x2) + z3 * (x2 * y3 - x3 * y2) == 0)
        by (nonlinear_arith);
    assert(x3 * (y3 * z1 - y1 * z3) + y3 * (z3 * x1 - z1 * x3) + z3 * (x3 * y1 - x1 * y3) == 0)
        by (nonlinear_arith);
    assert(x3 * (y1 * z2 - y2 * z1) == x3 * y1 * z2 - x3 * y2 * z1) by (nonlinear_arith);
    assert(y3 * (z1 * x2 - z2 * x1) == x2 * y3 * z1 - x1 * y3 * z2) by (nonlinear_arith);
    assert(z3 * (x1 * y2 - x2 * y1) == x1 * y2 * z3 - x2 * y1 * z3) by (nonlinear_arith);
    assert(x3 * (y1 * z2 - y2 * z1) + y3 * (z1 * x2 - z2 * x1) + z3 * (x1 * y2 - x2 * y1) ==
        (x1 * y2 * z3 + x2 * y3 * z1 + x3 * y1 * z2 - x1 * y3 * z2 - x2 * y1 * z3 - x3 * y2 * z1));
}

/// A matrix times its adjugate is its determinant times the identity; so, where
/// the determinant is not zero, the matrix times its inverse (the adjugate over
/// the determinant) is exactly the identity.
pub proof fn lemma_mul_adjugate(a: Mat3)
    ensures
        a.mul(a.adjugate()) == Mat3::identity().scale(a.det()),
{
    broadcast use vstd::arithmetic::mul::group_mul_basics;

    let (p, d) = (a.mul(a.adjugate()), Mat3::identity().scale(a.det()));
    let t = a.det_terms();
    assert(t[0] == a.r1.x * a.r2.y * a.r3.z && t[1] == a.r2.x * a.r3.y * a.r1.z);
    assert(t[2] == a.r3.x * a.r1.y * a.r2.z && t[3] == a.r1.x * a.r3.y * a.r2.z);
    assert(t[4] == a.r2.x * a.r1.y * a.r3.z && t[5] == a.r3.x * a.r2.y * a.r1.z);
    lemma_cofactor_identities(
        a.r1.x, a.r1.y, a.r1.z, a.r2.x, a.r2.y, a.r2.z, a.r3.x, a.r3.y, a.r3.z,
    );
    assert(p.r1 == d.r1);
    assert(p.r2 == d.r2);
    assert(p.r3 == d.r3);
}

/// An integer determinant counts as singular exactly when it is zero.
pub proof fn lemma_singular_iff_zero(d: int)
    ensures
        singular_det(d) <==> d == 0,
{
}

} // verus!
