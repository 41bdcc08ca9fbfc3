//! Points, homogeneous vectors and 4x4 transforms over fixed-point scalars.

use vstd::prelude::*;
use super::fixed::{lemma_product_bound, rescale, rescale_i128, saturate, saturate_i64, ONE};

verus! {

/// A point or direction in space. Each component is a fixed-point scalar.
#[derive(Debug, Copy, Clone)]
pub struct Vec3 {
    pub x: i32,
    pub y: i32,
    pub z: i32,
}

/// A homogeneous vector. Each component is a fixed-point scalar; the type is
/// wide enough to hold every transformed `Vec3`.
#[derive(Debug, Copy, Clone)]
pub struct Vec4 {
    pub x: i64,
    pub y: i64,
    pub z: i64,
    pub w: i64,
}

/// A transform: sixteen fixed-point scalars, row after row.
#[derive(Debug, Copy, Clone)]
pub struct Mat4x4 {
    pub values: [i32; 16],
}

/// The range of a product of two integers of `[-m, m)`: only the square of
/// the least value reaches the upper end.
proof fn lemma_product_range(a: int, b: int, m: int)
    by (nonlinear_arith)
    requires
        -m <= a < m,
        -m <= b < m,
    ensures
        -(m * (m - 1)) <= a * b <= m * m,
{
    assert((a + m) * (b + m) >= 0);
    assert((m - 1 - a) * (m - 1 - b) >= 0);
    assert((a + m) * (m - b) >= 0);
    assert((m - a) * (m + b) >= 0);
}

impl Vec3 {
    /// The homogeneous form of a direction: `w` is zero.
    pub open spec fn spec_as_vector(&self) -> Vec4 {
        Vec4 { x: self.x as i64, y: self.y as i64, z: self.z as i64, w: 0 }
    }

    /// The homogeneous form of a position: `w` is one.
    pub open spec fn spec_as_point(&self) -> Vec4 {
        Vec4 { x: self.x as i64, y: self.y as i64, z: self.z as i64, w: ONE as i64 }
    }

    pub fn new(x: i32, y: i32, z: i32) -> (v: Vec3)
        ensures
            v == (Vec3 { x, y, z }),
    {
        Vec3 { x, y, z }
    }

    #[verifier::when_used_as_spec(spec_as_vector)]
    pub fn as_vector(&self) -> (v: Vec4)
        ensures
            v == self.spec_as_vector(),
    {
        Vec4 { x: self.x as i64, y: self.y as i64, z: self.z as i64, w: 0 }
    }

    #[verifier::when_used_as_spec(spec_as_point)]
    pub fn as_point(&self) -> (v: Vec4)
        ensures
            v == self.spec_as_point(),
    {
        Vec4 { x: self.x as i64, y: self.y as i64, z: self.z as i64, w: ONE as i64 }
    }
}

impl Vec4 {
    /// The z component of the cross product of the two vectors projected on
    /// the xy plane. The result carries twice the fractional bits of a scalar.
    pub open spec fn spec_det_2d(&self, other: &Vec4) -> int {
        self.x * other.y - self.y * other.x
    }

    /// The component-wise difference, each component saturated.
    pub open spec fn spec_sub(self, other: Vec4) -> Vec4 {
        Vec4 {
            x: saturate(self.x - other.x) as i64,
            y: saturate(self.y - other.y) as i64,
            z: saturate(self.z - other.z) as i64,
            w: saturate(self.w - other.w) as i64,
        }
    }

    pub fn new(x: i64, y: i64, z: i64, w: i64) -> (v: Vec4)
        ensures
            v == (Vec4 { x, y, z, w }),
    {
        Vec4 { x, y, z, w }
    }

    pub fn det_2d(&self, other: &Vec4) -> (d: i128)
        ensures
            d == self.spec_det_2d(other),
    {
        proof {
            lemma_product_range(self.x as int, other.y as int, 0x8000_0000_0000_0000);
            lemma_product_range(self.y as int, other.x as int, 0x8000_0000_0000_0000);
        }
        (self.x as i128) * (other.y as i128) - (self.y as i128) * (other.x as i128)
    }
}

impl core::ops::Sub for Vec4 {
    type Output = Vec4;

    /// Component-wise difference; a component that an `i64` cannot hold
    /// saturates.
    fn sub(self, other: Vec4) -> (d: Vec4)
        ensures
            d == self.spec_sub(other),
    {
        Vec4 {
            x: saturate_i64(self.x as i128 - other.x as i128),
            y: saturate_i64(self.y as i128 - other.y as i128),
            z: saturate_i64(self.z as i128 - other.z as i128),
            w: saturate_i64(self.w as i128 - other.w as i128),
        }
    }
}

impl vstd::std_specs::ops::SubSpecImpl for Vec4 {
    open spec fn obeys_sub_spec() -> bool {
        true
    }

    open spec fn sub_req(self, other: Vec4) -> bool {
        true
    }

    open spec fn sub_spec(self, other: Vec4) -> Vec4 {
        self.spec_sub(other)
    }
}

impl Mat4x4 {
    /// The entries of the identity transform.
    pub open spec fn spec_identity() -> Seq<i32> {
        seq![ONE, 0i32, 0i32, 0i32, 0i32, ONE, 0i32, 0i32, 0i32, 0i32, ONE, 0i32, 0i32, 0i32, 0i32, ONE]
    }

    /// The dot product of row `r` with `v`, at twice the fractional bits of a
    /// scalar.
    pub open spec fn spec_row(self, r: int, v: Vec4) -> int {
        self.values[4 * r] * v.x + self.values[4 * r + 1] * v.y + self.values[4 * r + 2] * v.z
            + self.values[4 * r + 3] * v.w
    }

    /// Component `r` of the product of the matrix with `v`.
    pub open spec fn spec_component(self, r: int, v: Vec4) -> int {
        saturate(rescale(self.spec_row(r, v)))
    }

    /// The product of the matrix with the column vector `v`.
    pub open spec fn spec_mul(self, v: Vec4) -> Vec4 {
        Vec4 {
            x: self.spec_component(0, v) as i64,
            y: self.spec_component(1, v) as i64,
            z: self.spec_component(2, v) as i64,
            w: self.spec_component(3, v) as i64,
        }
    }

    pub fn new(values: [i32; 16]) -> (m: Mat4x4)
        ensures
            m.values == values,
    {
        Mat4x4 { values }
    }

    pub fn identity() -> (m: Mat4x4)
        ensures
            m.values@ == Self::spec_identity(),
    {
        Mat4x4 { values: [ONE, 0, 0, 0, 0, ONE, 0, 0, 0, 0, ONE, 0, 0, 0, 0, ONE] }
    }

    fn component(&self, r: usize, v: &Vec4) -> (c: i64)
        requires
            r < 4,
        ensures
            c == self.spec_component(r as int, *v),
    {
        let m0: i128 = self.values[4 * r] as i128;
        let m1: i128 = self.values[4 * r + 1] as i128;
        let m2: i128 = self.values[4 * r + 2] as i128;
        let m3: i128 = self.values[4 * r + 3] as i128;
        proof {
            let p: int = 0x8000_0000;
            let q: int = 0x8000_0000_0000_0000;
            lemma_product_bound(m0 as int, v.x as int, p, q);
            lemma_product_bound(m1 as int, v.y as int, p, q);
            lemma_product_bound(m2 as int, v.z as int, p, q);
            lemma_product_bound(m3 as int, v.w as int, p, q);
        }
        let dot: i128 = m0 * (v.x as i128) + m1 * (v.y as i128) + m2 * (v.z as i128) + m3 * (
        v.w as i128);
        saturate_i64(rescale_i128(dot))
    }
}

/// A product with a factor of known value.
proof fn lemma_scale(a: int, b: int, k: int)
    by (nonlinear_arith)
    requires
        a == k,
    ensures
        a * b == k * b,
{
}

/// The identity transform leaves every vector as it is.
pub proof fn lemma_identity_is_neutral(m: Mat4x4, v: Vec4)
    requires
        m.values@ == Mat4x4::spec_identity(),
    ensures
        m.spec_mul(v) == v,
{
    assert forall|r: int| 0 <= r < 4 implies #[trigger] m.spec_row(r, v) == ONE * (if r == 0 {
        v.x
    } else if r == 1 {
        v.y
    } else if r == 2 {
        v.z
    } else {
        v.w
    }) by {
        let one: int = ONE as int;
        lemma_scale(m.values[4 * r] as int, v.x as int, if r == 0 { one } else { 0 });
        lemma_scale(m.values[4 * r + 1] as int, v.y as int, if r == 1 { one } else { 0 });
        lemma_scale(m.values[4 * r + 2] as int, v.z as int, if r == 2 { one } else { 0 });
        lemma_scale(m.values[4 * r + 3] as int, v.w as int, if r == 3 { one } else { 0 });
    }
    assert(m.spec_component(0, v) == v.x);
    assert(m.spec_component(1, v) == v.y);
    assert(m.spec_component(2, v) == v.z);
    assert(m.spec_component(3, v) == v.w);
}

impl core::ops::Mul<Vec4> for Mat4x4 {
    type Output = Vec4;

    /// The product of the matrix with a column vector: each component is the
    /// dot product of one row with `rhs`, rescaled and saturated.
    fn mul(self, rhs: Vec4) -> (v: Vec4)
        ensures
            v == self.spec_mul(rhs),
    {
        Vec4 {
            x: self.component(0, &rhs),
            y: self.component(1, &rhs),
            z: self.component(2, &rhs),
            w: self.component(3, &rhs),
        }
    }
}

impl vstd::std_specs::ops::MulSpecImpl<Vec4> for Mat4x4 {
    open spec fn obeys_mul_spec() -> bool {
        true
    }

    open spec fn mul_req(self, rhs: Vec4) -> bool {
        true
    }

    open spec fn mul_spec(self, rhs: Vec4) -> Vec4 {
        self.spec_mul(rhs)
    }
}

} // verus!
