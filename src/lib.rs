//! Fixed-size linear algebra over exact integers: a three-component vector
//! and a 3×3 matrix, with every operation proved against a model over `int`.
pub mod vector;
pub mod matrix;
pub mod laws;
pub mod text;
