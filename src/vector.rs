use vstd::prelude::*;

verus! {

/// 2^126, the largest magnitude a product of two `i64` values can reach.
pub open spec fn product_bound() -> int {
    0x4000_0000_0000_0000_0000_0000_0000_0000
}

/// Whether `v` can be held by an `i64`.
pub open spec fn fits_i64(v: int) -> bool {
    i64::MIN <= v <= i64::MAX
}

/// The mathematical model of a [`Vector3D`]: three unbounded integers.
pub struct Vec3 {
    pub x: int,
    pub y: int,
    pub z: int,
}

impl Vec3 {
    pub open spec fn add(self, o: Vec3) -> Vec3 {
        Vec3 { x: self.x + o.x, y: self.y + o.y, z: self.z + o.z }
    }

    pub open spec fn sub(self, o: Vec3) -> Vec3 {
        Vec3 { x: self.x - o.x, y: self.y - o.y, z: self.z - o.z }
    }

    pub open spec fn dot(self, o: Vec3) -> int {
        self.x * o.x + self.y * o.y + self.z * o.z
    }

    pub open spec fn scale(self, s: int) -> Vec3 {
        Vec3 { x: self.x * s, y: self.y * s, z: self.z * s }
    }

    pub open spec fn cross(self, o: Vec3) -> Vec3 {
        Vec3 {
            x: self.y * o.z - self.z * o.y,
            y: self.z * o.x - self.x * o.z,
            z: self.x * o.y - self.y * o.x,
        }
    }

    /// Whether every component can be held by an `i64`.
    pub open spec fn fits(self) -> bool {
        fits_i64(self.x) && fits_i64(self.y) && fits_i64(self.z)
    }
}

/// The product of two `i64` values stays within 2^126 in magnitude.
pub proof fn lemma_product_bound(a: int, b: int)
    requires
        fits_i64(a),
        fits_i64(b),
    ensures
        -product_bound() <= a * b <= product_bound(),
{
    assert(-product_bound() <= a * b <= product_bound()) by (nonlinear_arith)
        requires
            -0x8000_0000_0000_0000 <= a <= 0x8000_0000_0000_0000,
            -0x8000_0000_0000_0000 <= b <= 0x8000_0000_0000_0000,
    ;
}

/// A vector of three integer components.
#[derive(Clone, Copy, Debug, PartialEq, Eq, Structural)]
pub struct Vector3D {
    pub x: i64,
    pub y: i64,
    pub z: i64,
}

impl View for Vector3D {
    type V = Vec3;

    open spec fn view(&self) -> Vec3 {
        Vec3 { x: self.x as int, y: self.y as int, z: self.z as int }
    }
}

/// The dot product of two `i64` triples, computed in `i128`.
fn dot_i64(a1: i64, a2: i64, a3: i64, b1: i64, b2: i64, b3: i64) -> (r: i64)
    requires
        fits_i64(a1 * b1 + a2 * b2 + a3 * b3),
    ensures
        r == a1 * b1 + a2 * b2 + a3 * b3,
{
    proof {
        lemma_product_bound(a1 as int, b1 as int);
        lemma_product_bound(a2 as int, b2 as int);
        lemma_product_bound(a3 as int, b3 as int);
    }
    let p1 = (a1 as i128) * (b1 as i128);
    let p2 = (a2 as i128) * (b2 as i128);
    let p3 = (a3 as i128) * (b3 as i128);
    let s = p1 + p2 + p3;
    s as i64
}

/// The 2×2 determinant `a * d - b * c` of `i64` values, computed in `i128`.
fn det2_i64(a: i64, b: i64, c: i64, d: i64) -> (r: i64)
    requires
        fits_i64(a * d - b * c),
    ensures
        r == a * d - b * c,
{
    proof {
        lemma_product_bound(a as int, d as int);
        lemma_product_bound(b as int, c as int);
    }
    let p = (a as i128) * (d as i128);
    let q = (b as i128) * (c as i128);
    let s = p - q;
    s as i64
}

impl Vector3D {
    /// Component-wise sum.
    pub fn add(&self, o: &Vector3D) -> (r: Vector3D)
        requires
            self@.add(o@).fits(),
        ensures
            r@ == self@.add(o@),
    {
        Vector3D { x: self.x + o.x, y: self.y + o.y, z: self.z + o.z }
    }

    /// Component-wise difference.
    pub fn sub(&self, o: &Vector3D) -> (r: Vector3D)
        requires
            self@.sub(o@).fits(),
        ensures
            r@ == self@.sub(o@),
    {
        Vector3D { x: self.x - o.x, y: self.y - o.y, z: self.z - o.z }
    }

    /// The dot product `x*o.x + y*o.y + z*o.z`.
    pub fn dot(&self, o: &Vector3D) -> (r: i64)
        requires
            fits_i64(self@.dot(o@)),
        ensures
            r == self@.dot(o@),
    {
        dot_i64(self.x, self.y, self.z, o.x, o.y, o.z)
    }

    /// Every component multiplied by `s`.
    pub fn scale(&self, s: i64) -> (r: Vector3D)
        requires
            self@.scale(s as int).fits(),
        ensures
            r@ == self@.scale(s as int),
    {
        Vector3D { x: self.x * s, y: self.y * s, z: self.z * s }
    }

    /// The cross product `self × o`.
    pub fn cross(&self, o: &Vector3D) -> (r: Vector3D)
        requires
            self@.cross(o@).fits(),
        ensures
            r@ == self@.cross(o@),
    {
        Vector3D {
            x: det2_i64(self.y, self.z, o.y, o.z),
            y: det2_i64(self.z, self.x, o.z, o.x),
            z: det2_i64(self.x, self.y, o.x, o.y),
        }
    }
}

} // verus!
