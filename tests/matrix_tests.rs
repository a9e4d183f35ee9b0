use matrix3d::matrix::{Inverse3D, Matrix3D, SINGULAR_MATRIX};
use matrix3d::vector::Vector3D;

const M0: Matrix3D = Matrix3D {
    r1: Vector3D { x: -9, y: -8, z: -7 },
    r2: Vector3D { x: -6, y: -5, z: -4 },
    r3: Vector3D { x: -3, y: -2, z: -1 },
};
const M1: Matrix3D = Matrix3D {
    r1: Vector3D { x: 1, y: 2, z: 3 },
    r2: Vector3D { x: 4, y: 5, z: 6 },
    r3: Vector3D { x: 7, y: 8, z: 9 },
};
const M2: Matrix3D = Matrix3D {
    r1: Vector3D { x: 1, y: 2, z: 4 },
    r2: Vector3D { x: 4, y: 5, z: 6 },
    r3: Vector3D { x: 7, y: 8, z: 9 },
};

/// Entry (row, col) of an inverse, as the quotient of adjugate entry and determinant.
fn inverse_entry(inv: &Inverse3D, row: usize, col: usize) -> f32 {
    let r = match row {
        1 => inv.adjugate.r1,
        2 => inv.adjugate.r2,
        _ => inv.adjugate.r3,
    };
    let n = match col {
        1 => r.x,
        2 => r.y,
        _ => r.z,
    };
    n as f32 / inv.det as f32
}

#[test]
fn test_new_constant_matrix() {
    let constant = 0;
    let m = Matrix3D::new_constant(constant);
    assert_eq!(m.r1.x, constant);
    assert_eq!(m.r1.y, constant);
    assert_eq!(m.r1.z, constant);
    assert_eq!(m.r2.x, constant);
    assert_eq!(m.r2.y, constant);
    assert_eq!(m.r2.z, constant);
    assert_eq!(m.r3.x, constant);
    assert_eq!(m.r3.y, constant);
    assert_eq!(m.r3.z, constant);
}

#[test]
fn test_new_identity_matrix() {
    let m = Matrix3D::new_identity();
    assert_eq!(m.r1.x, 1);
    assert_eq!(m.r1.y, 0);
    assert_eq!(m.r1.z, 0);
    assert_eq!(m.r2.x, 0);
    assert_eq!(m.r2.y, 1);
    assert_eq!(m.r2.z, 0);
    assert_eq!(m.r3.x, 0);
    assert_eq!(m.r3.y, 0);
    assert_eq!(m.r3.z, 1);
}

#[test]
fn test_add_matrices() {
    let m = M0.add(&M1);
    assert_eq!(m.r1.x, -8);
    assert_eq!(m.r1.y, -6);
    assert_eq!(m.r1.z, -4);
    assert_eq!(m.r2.x, -2);
    assert_eq!(m.r2.y, 0);
    assert_eq!(m.r2.z, 2);
    assert_eq!(m.r3.x, 4);
    assert_eq!(m.r3.y, 6);
    assert_eq!(m.r3.z, 8);
}

#[test]
fn test_sub_matrices() {
    let m = M0.sub(&M1);
    assert_eq!(m.r1.x, -10);
    assert_eq!(m.r1.y, -10);
    assert_eq!(m.r1.z, -10);
    assert_eq!(m.r2.x, -10);
    assert_eq!(m.r2.y, -10);
    assert_eq!(m.r2.z, -10);
    assert_eq!(m.r3.x, -10);
    assert_eq!(m.r3.y, -10);
    assert_eq!(m.r3.z, -10);
}

#[test]
fn test_transpose_matrix() {
    let m = &M1.transpose();
    assert_eq!(m.r1.x, 1);
    assert_eq!(m.r1.y, 4);
    assert_eq!(m.r1.z, 7);
    assert_eq!(m.r2.x, 2);
    assert_eq!(m.r2.y, 5);
    assert_eq!(m.r2.z, 8);
    assert_eq!(m.r3.x, 3);
    assert_eq!(m.r3.y, 6);
    assert_eq!(m.r3.z, 9);
}

#[test]
fn test_multiply_matrices() {
    let m = M0.mul(&M1);
    assert_eq!(m.r1.x, -90);
    assert_eq!(m.r1.y, -114);
    assert_eq!(m.r1.z, -138);
    assert_eq!(m.r2.x, -54);
    assert_eq!(m.r2.y, -69);
    assert_eq!(m.r2.z, -84);
    assert_eq!(m.r3.x, -18);
    assert_eq!(m.r3.y, -24);
    assert_eq!(m.r3.z, -30);
}

#[test]
fn test_scalar_multiply_matrices() {
    let s = 2;
    let m = M1.scale(s);
    assert_eq!(m.r1.x, 2);
    assert_eq!(m.r1.y, 4);
    assert_eq!(m.r1.z, 6);
    assert_eq!(m.r2.x, 8);
    assert_eq!(m.r2.y, 10);
    assert_eq!(m.r2.z, 12);
    assert_eq!(m.r3.x, 14);
    assert_eq!(m.r3.y, 16);
    assert_eq!(m.r3.z, 18);
}

#[test]
fn test_vector_multiply_matrices() {
    let v = Vector3D { x: 2, y: 3, z: 4 };
    let prod = M1.mul_vec(&v);
    assert_eq!(prod.x, 20);
    assert_eq!(prod.y, 47);
    assert_eq!(prod.z, 74);
}

#[test]
fn test_matrix_determinant() {
    let det = M2.determinant();
    assert_eq!(det, -3);
}

#[test]
fn test_invertable_matrix() {
    let inv = M2.inverse().unwrap();
    assert_eq!(inverse_entry(&inv, 1, 1), 1.0);
    assert_eq!(format!("{:.5}", inverse_entry(&inv, 1, 2)), format!("{:.5}", -14.0 / 3.0));
    assert_eq!(inverse_entry(&inv, 1, 3), 8.0 / 3.0);
    assert_eq!(inverse_entry(&inv, 2, 1), -2.0);
    assert_eq!(inverse_entry(&inv, 2, 2), 19.0 / 3.0);
    assert_eq!(format!("{:.5}", inverse_entry(&inv, 2, 3)), format!("{:.5}", -10.0 / 3.0));
    assert_eq!(inverse_entry(&inv, 3, 1), 1.0);
    assert_eq!(inverse_entry(&inv, 3, 2), -2.0);
    assert_eq!(inverse_entry(&inv, 3, 3), 1.0);
}

#[test]
fn test_non_invertable_matrix() {
    let inv = M1.inverse();
    assert!(inv.is_err());
}

#[test]
fn inverse_holds_adjugate_and_determinant() {
    let inv = M2.inverse().unwrap();
    assert_eq!(inv.det, -3);
    assert_eq!(inv.adjugate.r1, Vector3D { x: -3, y: 14, z: -8 });
    assert_eq!(inv.adjugate.r2, Vector3D { x: 6, y: -19, z: 10 });
    assert_eq!(inv.adjugate.r3, Vector3D { x: -3, y: 6, z: -3 });
}

#[test]
fn singular_inverse_reports_message() {
    assert_eq!(M1.inverse(), Err(SINGULAR_MATRIX));
    assert_eq!(SINGULAR_MATRIX, "Determinant = 0. Cannot calculate the inverse.");
    assert_eq!(Matrix3D::new_constant(0).inverse(), Err(SINGULAR_MATRIX));
}

#[test]
fn smallest_nonzero_determinant_is_invertible() {
    let m = Matrix3D {
        r1: Vector3D { x: 1, y: 0, z: 0 },
        r2: Vector3D { x: 0, y: -1, z: 0 },
        r3: Vector3D { x: 0, y: 0, z: 1 },
    };
    assert_eq!(m.determinant(), -1);
    let inv = m.inverse().unwrap();
    assert_eq!(inv.det, -1);
    assert_eq!(inv.adjugate.mul(&Matrix3D::new_identity()).scale(-1), m);
}

#[test]
fn matrix_times_adjugate_is_scaled_identity() {
    let inv = M2.inverse().unwrap();
    let p = M2.mul(&inv.adjugate);
    assert_eq!(p, Matrix3D::new_identity().scale(inv.det));
}

#[test]
fn transpose_twice_is_identity_map() {
    assert_eq!(M2.transpose().transpose(), M2);
    assert_eq!(M0.transpose().transpose(), M0);
}

#[test]
fn add_commutes_and_sub_adds_negation() {
    assert_eq!(M0.add(&M1), M1.add(&M0));
    assert_eq!(M0.sub(&M1), M0.add(&M1.scale(-1)));
}

#[test]
fn identity_is_neutral_for_mul() {
    let i = Matrix3D::new_identity();
    assert_eq!(M0.mul(&i), M0);
    assert_eq!(i.mul(&M0), M0);
}

#[test]
fn identity_determinant_is_one() {
    assert_eq!(Matrix3D::new_identity().determinant(), 1);
}

#[test]
fn constant_matrix_fills_every_entry() {
    let m = Matrix3D::new_constant(-7);
    let row = Vector3D { x: -7, y: -7, z: -7 };
    assert_eq!(m, Matrix3D { r1: row, r2: row, r3: row });
}

#[test]
fn determinant_of_large_entries() {
    let big = 1_i64 << 20;
    let m = Matrix3D::new_identity().scale(big);
    assert_eq!(m.determinant(), 1_i64 << 60);
}

#[test]
fn vector_operations() {
    let a = Vector3D { x: 1, y: 2, z: 3 };
    let b = Vector3D { x: 4, y: 5, z: 6 };
    assert_eq!(a.add(&b), Vector3D { x: 5, y: 7, z: 9 });
    assert_eq!(a.sub(&b), Vector3D { x: -3, y: -3, z: -3 });
    assert_eq!(a.dot(&b), 32);
    assert_eq!(a.scale(-2), Vector3D { x: -2, y: -4, z: -6 });
    assert_eq!(a.cross(&b), Vector3D { x: -3, y: 6, z: -3 });
    assert_eq!(b.cross(&a), Vector3D { x: 3, y: -6, z: 3 });
}

#[test]
fn dot_product_near_the_i64_limits() {
    let a = Vector3D { x: i64::MIN, y: i64::MIN, z: 1 };
    let b = Vector3D { x: 1, y: -1, z: i64::MAX };
    assert_eq!(a.dot(&b), i64::MAX);
}

#[test]
fn display_shows_each_row_on_its_line() {
    assert_eq!(M0.to_display_string(), "\n-9  -8  -7\n-6  -5  -4\n-3  -2  -1\n");
    assert_eq!(M1.to_display_string(), "\n1  2  3\n4  5  6\n7  8  9\n");
}

#[test]
fn display_of_extreme_entries() {
    let m = Matrix3D {
        r1: Vector3D { x: i64::MIN, y: 0, z: i64::MAX },
        r2: Vector3D { x: 10, y: -100, z: 1000 },
        r3: Vector3D { x: 0, y: 0, z: 0 },
    };
    assert_eq!(
        m.to_display_string(),
        "\n-9223372036854775808  0  9223372036854775807\n10  -100  1000\n0  0  0\n"
    );
}
