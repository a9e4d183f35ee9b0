use vstd::prelude::*;
use vstd::string::StringExecFns;
use crate::text::{int_text, push_int};
use crate::vector::{fits_i64, lemma_product_bound, Vec3, Vector3D};

verus! {

/// The mathematical model of a [`Matrix3D`]: three rows of unbounded integers.
pub struct Mat3 {
    pub r1: Vec3,
    pub r2: Vec3,
    pub r3: Vec3,
}

pub open spec fn vec3(x: int, y: int, z: int) -> Vec3 {
    Vec3 { x, y, z }
}

impl Mat3 {
    pub open spec fn identity() -> Mat3 {
        Mat3 { r1: vec3(1, 0, 0), r2: vec3(0, 1, 0), r3: vec3(0, 0, 1) }
    }

    pub open spec fn constant(v: int) -> Mat3 {
        Mat3 { r1: vec3(v, v, v), r2: vec3(v, v, v), r3: vec3(v, v, v) }
    }

    pub open spec fn add(self, o: Mat3) -> Mat3 {
        Mat3 { r1: self.r1.add(o.r1), r2: self.r2.add(o.r2), r3: self.r3.add(o.r3) }
    }

    pub open spec fn sub(self, o: Mat3) -> Mat3 {
        Mat3 { r1: self.r1.sub(o.r1), r2: self.r2.sub(o.r2), r3: self.r3.sub(o.r3) }
    }

    pub open spec fn scale(self, s: int) -> Mat3 {
        Mat3 { r1: self.r1.scale(s), r2: self.r2.scale(s), r3: self.r3.scale(s) }
    }

    pub open spec fn transpose(self) -> Mat3 {
        Mat3 {
            r1: vec3(self.r1.x, self.r2.x, self.r3.x),
            r2: vec3(self.r1.y, self.r2.y, self.r3.y),
            r3: vec3(self.r1.z, self.r2.z, self.r3.z),
        }
    }

    /// The product `self · v`: each component is a row of `self` dotted with `v`.
    pub open spec fn mul_vec(self, v: Vec3) -> Vec3 {
        vec3(self.r1.dot(v), self.r2.dot(v), self.r3.dot(v))
    }

    /// The product `self · o`: entry (i, j) is row i of `self` dotted with column j of `o`.
    pub open spec fn mul(self, o: Mat3) -> Mat3 {
        let cols = o.transpose();
        Mat3 {
            r1: vec3(self.r1.dot(cols.r1), self.r1.dot(cols.r2), self.r1.dot(cols.r3)),
            r2: vec3(self.r2.dot(cols.r1), self.r2.dot(cols.r2), self.r2.dot(cols.r3)),
            r3: vec3(self.r3.dot(cols.r1), self.r3.dot(cols.r2), self.r3.dot(cols.r3)),
        }
    }

    /// The six products of the determinant's expansion over the columns a, b, c,
    /// the first three taken with a plus sign and the last three with a minus sign.
    pub open spec fn det_terms(self) -> Seq<int> {
        let t = self.transpose();
        let (a, b, c) = (t.r1, t.r2, t.r3);
        seq![
            a.x * b.y * c.z,
            a.y * b.z * c.x,
            a.z * b.x * c.y,
            a.x * b.z * c.y,
            a.y * b.x * c.z,
            a.z * b.y * c.x,
        ]
    }

    pub open spec fn det(self) -> int {
        let t = self.det_terms();
        t[0] + t[1] + t[2] - t[3] - t[4] - t[5]
    }

    /// The adjugate: with a, b, c the columns, its rows are `b × c`, `c × a`, `a × b`.
    pub open spec fn adjugate(self) -> Mat3 {
        let t = self.transpose();
        Mat3 { r1: t.r2.cross(t.r3), r2: t.r3.cross(t.r1), r3: t.r1.cross(t.r2) }
    }

    /// Whether every entry can be held by an `i64`.
    pub open spec fn fits(self) -> bool {
        self.r1.fits() && self.r2.fits() && self.r3.fits()
    }

    /// Whether the determinant, and each product of its expansion, can be held by an `i64`.
    pub open spec fn det_fits(self) -> bool {
        &&& forall|i: int| 0 <= i < 6 ==> fits_i64(#[trigger] self.det_terms()[i])
        &&& fits_i64(self.det())
    }
}

/// A row as shown: its three entries separated by two spaces, then a newline.
pub open spec fn row_text(v: Vec3) -> Seq<char> {
    int_text(v.x) + seq![' ', ' '] + int_text(v.y) + seq![' ', ' '] + int_text(v.z) + seq!['\n']
}

/// A matrix as shown: a newline, then its three rows.
pub open spec fn matrix_text(m: Mat3) -> Seq<char> {
    seq!['\n'] + row_text(m.r1) + row_text(m.r2) + row_text(m.r3)
}

/// Whether a determinant counts as singular: it lies in `[-0.00001, 0.00001)`,
/// written here scaled by 100000. For an integer this holds of 0 alone.
pub open spec fn singular_det(d: int) -> bool {
    -1 <= 100000 * d < 1
}

/// A 3×3 matrix of integers, held as three rows.
#[derive(Clone, Copy, Debug, PartialEq, Eq, Structural)]
pub struct Matrix3D {
    pub r1: Vector3D,
    pub r2: Vector3D,
    pub r3: Vector3D,
}

impl View for Matrix3D {
    type V = Mat3;

    open spec fn view(&self) -> Mat3 {
        Mat3 { r1: self.r1@, r2: self.r2@, r3: self.r3@ }
    }
}

/// The inverse of a matrix, held exactly: entry (i, j) of the inverse is
/// `adjugate` entry (i, j) divided by `det`.
#[derive(Clone, Copy, Debug, PartialEq, Eq, Structural)]
pub struct Inverse3D {
    pub adjugate: Matrix3D,
    pub det: i64,
}

/// The message of the error that `inverse` returns on a singular matrix.
pub const SINGULAR_MATRIX: &'static str = "Determinant = 0. Cannot calculate the inverse.";

fn push_row(out: &mut String, v: &Vector3D)
    ensures
        final(out)@ == old(out)@ + row_text(v@),
{
    proof {
        reveal_strlit("  ");
        reveal_strlit("\n");
    }
    push_int(out, v.x);
    out.append("  ");
    push_int(out, v.y);
    out.append("  ");
    push_int(out, v.z);
    out.append("\n");
    assert(final(out)@ =~= old(out)@ + row_text(v@));
}

/// The product `a * b * c` of `i64` values, computed in `i128`.
fn triple_product(a: i64, b: i64, c: i64) -> (r: i128)
    requires
        fits_i64(a * b * c),
    ensures
        r == a * b * c,
{
    proof {
        lemma_product_bound(a as int, b as int);
    }
    let p = (a as i128) * (b as i128);
    p * (c as i128)
}

impl Matrix3D {
    /// A matrix whose nine entries are all `value`.
    pub fn new_constant(value: i64) -> (r: Matrix3D)
        ensures
            r@ == Mat3::constant(value as int),
    {
        Matrix3D {
            r1: Vector3D { x: value, y: value, z: value },
            r2: Vector3D { x: value, y: value, z: value },
            r3: Vector3D { x: value, y: value, z: value },
        }
    }

    /// The identity matrix: ones on the diagonal, zeros elsewhere.
    pub fn new_identity() -> (r: Matrix3D)
        ensures
            r@ == Mat3::identity(),
    {
        Matrix3D {
            r1: Vector3D { x: 1, y: 0, z: 0 },
            r2: Vector3D { x: 0, y: 1, z: 0 },
            r3: Vector3D { x: 0, y: 0, z: 1 },
        }
    }

    /// Rows and columns swapped.
    pub fn transpose(&self) -> (r: Matrix3D)
        ensures
            r@ == self@.transpose(),
    {
        let new_r1 = Vector3D { x: self.r1.x, y: self.r2.x, z: self.r3.x };
        let new_r2 = Vector3D { x: self.r1.y, y: self.r2.y, z: self.r3.y };
        let new_r3 = Vector3D { x: self.r1.z, y: self.r2.z, z: self.r3.z };
        Matrix3D { r1: new_r1, r2: new_r2, r3: new_r3 }
    }

    /// Row-wise sum.
    pub fn add(&self, o: &Matrix3D) -> (r: Matrix3D)
        requires
            self@.add(o@).fits(),
        ensures
            r@ == self@.add(o@),
    {
        Matrix3D { r1: self.r1.add(&o.r1), r2: self.r2.add(&o.r2), r3: self.r3.add(&o.r3) }
    }

    /// Row-wise difference.
    pub fn sub(&self, o: &Matrix3D) -> (r: Matrix3D)
        requires
            self@.sub(o@).fits(),
        ensures
            r@ == self@.sub(o@),
    {
        Matrix3D { r1: self.r1.sub(&o.r1), r2: self.r2.sub(&o.r2), r3: self.r3.sub(&o.r3) }
    }

    /// Every entry multiplied by `s`.
    pub fn scale(&self, s: i64) -> (r: Matrix3D)
        requires
            self@.scale(s as int).fits(),
        ensures
            r@ == self@.scale(s as int),
    {
        Matrix3D { r1: self.r1.scale(s), r2: self.r2.scale(s), r3: self.r3.scale(s) }
    }

    /// The matrix product `self · o`, taken row by column through the transpose of `o`.
    pub fn mul(&self, o: &Matrix3D) -> (r: Matrix3D)
        requires
            self@.mul(o@).fits(),
        ensures
            r@ == self@.mul(o@),
    {
        let b_trans = o.transpose();
        let new_r1 = Vector3D {
            x: self.r1.dot(&b_trans.r1),
            y: self.r1.dot(&b_trans.r2),
            z: self.r1.dot(&b_trans.r3),
        };
        let new_r2 = Vector3D {
            x: self.r2.dot(&b_trans.r1),
            y: self.r2.dot(&b_trans.r2),
            z: self.r2.dot(&b_trans.r3),
        };
        let new_r3 = Vector3D {
            x: self.r3.dot(&b_trans.r1),
            y: self.r3.dot(&b_trans.r2),
            z: self.r3.dot(&b_trans.r3),
        };
        Matrix3D { r1: new_r1, r2: new_r2, r3: new_r3 }
    }

    /// The matrix-vector product `self · v`.
    pub fn mul_vec(&self, v: &Vector3D) -> (r: Vector3D)
        requires
            self@.mul_vec(v@).fits(),
        ensures
            r@ == self@.mul_vec(v@),
    {
        Vector3D { x: self.r1.dot(v), y: self.r2.dot(v), z: self.r3.dot(v) }
    }

    /// The determinant, expanded over the columns.
    pub fn determinant(&self) -> (r: i64)
        requires
            self@.det_fits(),
        ensures
            r == self@.det(),
    {
        let col_vectors = self.transpose();
        let a = col_vectors.r1;
        let b = col_vectors.r2;
        let c = col_vectors.r3;
        proof {
            let t = self@.det_terms();
            assert(fits_i64(t[0]) && fits_i64(t[1]) && fits_i64(t[2]));
            assert(fits_i64(t[3]) && fits_i64(t[4]) && fits_i64(t[5]));
        }
        let d = triple_product(a.x, b.y, c.z) + triple_product(a.y, b.z, c.x)
            + triple_product(a.z, b.x, c.y) - triple_product(a.x, b.z, c.y)
            - triple_product(a.y, b.x, c.z) - triple_product(a.z, b.y, c.x);
        d as i64
    }

    /// The inverse, held as the adjugate over the determinant; fails with
    /// [`SINGULAR_MATRIX`] when the determinant lies in `[-0.00001, 0.00001)`.
    pub fn inverse(&self) -> (r: Result<Inverse3D, &'static str>)
        requires
            self@.det_fits(),
            !singular_det(self@.det()) ==> self@.adjugate().fits(),
        ensures
            r is Err <==> singular_det(self@.det()),
            r matches Ok(inv) ==> inv.adjugate@ == self@.adjugate() && inv.det == self@.det(),
            r matches Err(msg) ==> msg == SINGULAR_MATRIX,
    {
        let det = self.determinant();
        if det == 0 {
            Err(SINGULAR_MATRIX)
        } else {
            Ok(self.calc_inverse())
        }
    }

    /// The adjugate, whose rows are cross products of the columns, with the determinant.
    fn calc_inverse(&self) -> (r: Inverse3D)
        requires
            self@.det_fits(),
            self@.adjugate().fits(),
        ensures
            r.adjugate@ == self@.adjugate(),
            r.det == self@.det(),
    {
        let cols = self.transpose();
        let det = self.determinant();
        let a = cols.r1;
        let b = cols.r2;
        let c = cols.r3;
        let new_r1 = b.cross(&c);
        let new_r2 = c.cross(&a);
        let new_r3 = a.cross(&b);
        Inverse3D { adjugate: Matrix3D { r1: new_r1, r2: new_r2, r3: new_r3 }, det }
    }

    /// The matrix as text for people to read: a newline, then each row on a
    /// line of its own, entries separated by two spaces.
    pub fn to_display_string(&self) -> (r: String)
        ensures
            r@ == matrix_text(self@),
    {
        proof {
            reveal_strlit("\n");
        }
        let mut out = String::new();
        out.append("\n");
        push_row(&mut out, &self.r1);
        push_row(&mut out, &self.r2);
        push_row(&mut out, &self.r3);
        assert(out@ =~= matrix_text(self@));
        out
    }
}

} // verus!
