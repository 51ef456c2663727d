use vstd::prelude::*;

verus! {

/// Mathematical model of a three-component vector: three unbounded integers.
pub ghost struct Vec3Model {
    pub x: int,
    pub y: int,
    pub z: int,
}

/// Truncating integer division (rounds toward zero), the semantics of `/` on
/// the machine integer element type. Unspecified for `b == 0`.
pub open spec fn div_trunc(a: int, b: int) -> int {
    if a >= 0 {
        a / b
    } else {
        -((-a) / b)
    }
}

/// Whether an unbounded integer fits the element type.
pub open spec fn in_element_range(v: int) -> bool {
    i64::MIN <= v <= i64::MAX
}

impl Vec3Model {
    /// Component-wise sum.
    pub open spec fn add(self, rhs: Vec3Model) -> Vec3Model {
        Vec3Model { x: self.x + rhs.x, y: self.y + rhs.y, z: self.z + rhs.z }
    }

    /// Component-wise difference.
    pub open spec fn sub(self, rhs: Vec3Model) -> Vec3Model {
        Vec3Model { x: self.x - rhs.x, y: self.y - rhs.y, z: self.z - rhs.z }
    }

    /// Dot product: element-wise multiply-and-sum.
    pub open spec fn dot(self, rhs: Vec3Model) -> int {
        self.x * rhs.x + self.y * rhs.y + self.z * rhs.z
    }

    /// Each component multiplied by the scalar `s`.
    pub open spec fn scale(self, s: int) -> Vec3Model {
        Vec3Model { x: self.x * s, y: self.y * s, z: self.z * s }
    }

    /// Each component divided by the scalar `s`, rounding toward zero.
    pub open spec fn scale_div(self, s: int) -> Vec3Model {
        Vec3Model { x: div_trunc(self.x, s), y: div_trunc(self.y, s), z: div_trunc(self.z, s) }
    }

    /// The zero vector, the identity of addition.
    pub open spec fn zero() -> Vec3Model {
        Vec3Model { x: 0, y: 0, z: 0 }
    }

    /// Whether every component fits the element type.
    pub open spec fn in_range(self) -> bool {
        in_element_range(self.x) && in_element_range(self.y) && in_element_range(self.z)
    }
}

/// A three-component vector over a machine integer element type.
#[derive(Copy, Clone, PartialEq, Eq, Structural, Debug)]
pub struct Vec3 {
    pub x: i64,
    pub y: i64,
    pub z: i64,
}

impl View for Vec3 {
    type V = Vec3Model;

    open spec fn view(&self) -> Vec3Model {
        Vec3Model { x: self.x as int, y: self.y as int, z: self.z as int }
    }
}

impl Vec3 {
    /// Create a new `Vec3`.
    pub fn new(x: i64, y: i64, z: i64) -> (result: Vec3)
        ensures
            result.x == x,
            result.y == y,
            result.z == z,
    {
        Vec3 { x, y, z }
    }

    /// Add two `Vec3` component-wise.
    pub fn add(self, rhs: Vec3) -> (result: Vec3)
        requires
            self@.add(rhs@).in_range(),
        ensures
            result@ == self@.add(rhs@),
    {
        Vec3 { x: self.x + rhs.x, y: self.y + rhs.y, z: self.z + rhs.z }
    }

    /// Add `rhs` to `self` in place.
    pub fn add_assign(&mut self, rhs: Vec3)
        requires
            old(self)@.add(rhs@).in_range(),
        ensures
            final(self)@ == old(self)@.add(rhs@),
    {
        *self = (*self).add(rhs);
    }

    /// Subtract two `Vec3` component-wise.
    pub fn sub(self, rhs: Vec3) -> (result: Vec3)
        requires
            self@.sub(rhs@).in_range(),
        ensures
            result@ == self@.sub(rhs@),
    {
        Vec3 { x: self.x - rhs.x, y: self.y - rhs.y, z: self.z - rhs.z }
    }

    /// Subtract `rhs` from `self` in place.
    pub fn sub_assign(&mut self, rhs: Vec3)
        requires
            old(self)@.sub(rhs@).in_range(),
        ensures
            final(self)@ == old(self)@.sub(rhs@),
    {
        *self = (*self).sub(rhs);
    }

    /// Compute the dot product of two `Vec3`, a scalar.
    pub fn dot(self, rhs: Vec3) -> (result: i64)
        requires
            in_element_range(self@.x * rhs@.x),
            in_element_range(self@.y * rhs@.y),
            in_element_range(self@.z * rhs@.z),
            in_element_range(self@.x * rhs@.x + self@.y * rhs@.y),
            in_element_range(self@.dot(rhs@)),
        ensures
            result == self@.dot(rhs@),
    {
        self.x * rhs.x + self.y * rhs.y + self.z * rhs.z
    }

    /// Multiply a `Vec3` by a scalar.
    pub fn mul(self, rhs: i64) -> (result: Vec3)
        requires
            self@.scale(rhs as int).in_range(),
        ensures
            result@ == self@.scale(rhs as int),
    {
        Vec3 { x: self.x * rhs, y: self.y * rhs, z: self.z * rhs }
    }

    /// Multiply a `Vec3` by a scalar in place.
    pub fn mul_assign(&mut self, rhs: i64)
        requires
            old(self)@.scale(rhs as int).in_range(),
        ensures
            final(self)@ == old(self)@.scale(rhs as int),
    {
        *self = (*self).mul(rhs);
    }

    /// Divide a `Vec3` by a scalar, each component rounding toward zero.
    pub fn div(self, rhs: i64) -> (result: Vec3)
        requires
            rhs != 0,
            self@.scale_div(rhs as int).in_range(),
        ensures
            result@ == self@.scale_div(rhs as int),
    {
        Vec3 { x: self.x / rhs, y: self.y / rhs, z: self.z / rhs }
    }

    /// Divide a `Vec3` by a scalar in place.
    pub fn div_assign(&mut self, rhs: i64)
        requires
            rhs != 0,
            old(self)@.scale_div(rhs as int).in_range(),
        ensures
            final(self)@ == old(self)@.scale_div(rhs as int),
    {
        *self = (*self).div(rhs);
    }
}

/// Vector addition is associative.
pub proof fn lemma_add_associative(a: Vec3Model, b: Vec3Model, c: Vec3Model)
    ensures
        a.add(b).add(c) == a.add(b.add(c)),
{
}

/// Vector addition is commutative.
pub proof fn lemma_add_commutative(a: Vec3Model, b: Vec3Model)
    ensures
        a.add(b) == b.add(a),
{
}

/// Adding a vector and then subtracting it again gives the original back.
pub proof fn lemma_add_sub_cancel(a: Vec3Model, b: Vec3Model)
    ensures
        a.add(b).sub(b) == a,
{
}

/// The dot product is commutative.
pub proof fn lemma_dot_commutative(a: Vec3Model, b: Vec3Model)
    ensures
        a.dot(b) == b.dot(a),
{
}

/// Multiplying by the scalar one leaves a vector unchanged.
pub proof fn lemma_scale_one(v: Vec3Model)
    ensures
        v.scale(1) == v,
{
}

/// Multiplying by the scalar zero gives the zero vector.
pub proof fn lemma_scale_zero(v: Vec3Model)
    ensures
        v.scale(0) == Vec3Model::zero(),
{
}

/// Dividing an exact multiple by a nonzero scalar is exact.
proof fn lemma_div_trunc_exact(x: int, s: int)
    requires
        s != 0,
    ensures
        div_trunc(x * s, s) == x,
{
    assert(div_trunc(x * s, s) == x) by (nonlinear_arith)
        requires
            s != 0,
    ;
}

/// Multiplying a vector by a nonzero scalar and then dividing by the same
/// scalar gives the original vector back.
pub proof fn lemma_scale_div_cancel(v: Vec3Model, s: int)
    requires
        s != 0,
    ensures
        v.scale(s).scale_div(s) == v,
{
    lemma_div_trunc_exact(v.x, s);
    lemma_div_trunc_exact(v.y, s);
    lemma_div_trunc_exact(v.z, s);
}

} // verus!
