//! Three-component vectors: points, directions and colors.

use crate::scalar::{deterministic, Scalar, ScalarSpec};
use std::ops::{AddAssign, DivAssign, MulAssign};
use vstd::prelude::*;
use vstd::std_specs::cmp::PartialEqSpecImpl;
use vstd::std_specs::ops::{AddSpecImpl, DivSpecImpl, MulSpecImpl, NegSpecImpl, SubSpecImpl};

verus! {

/// A vector of three scalars. It has value semantics: every operator returns a new
/// vector and leaves its operands as they were.
#[derive(Clone, Copy, Debug)]
pub struct Vec3<T> {
    pub x: T,
    pub y: T,
    pub z: T,
}

/// A position in space.
pub type Point3<T> = Vec3<T>;

/// A color, one intensity per channel: red, green, blue.
pub type Color<T> = Vec3<T>;

impl<T: Scalar> Vec3<T> {
    /// The vector whose three components are all zero.
    pub open spec fn zero() -> Self {
        Vec3 { x: T::whole(0), y: T::whole(0), z: T::whole(0) }
    }

    /// The component-wise sum.
    pub open spec fn plus(self, rhs: Self) -> Self {
        Vec3 { x: self.x.plus(rhs.x), y: self.y.plus(rhs.y), z: self.z.plus(rhs.z) }
    }

    /// The component-wise difference.
    pub open spec fn minus(self, rhs: Self) -> Self {
        Vec3 { x: self.x.minus(rhs.x), y: self.y.minus(rhs.y), z: self.z.minus(rhs.z) }
    }

    /// The component-wise product.
    pub open spec fn times(self, rhs: Self) -> Self {
        Vec3 { x: self.x.times(rhs.x), y: self.y.times(rhs.y), z: self.z.times(rhs.z) }
    }

    /// Each component multiplied by `s`.
    pub open spec fn scaled(self, s: T) -> Self {
        Vec3 { x: self.x.times(s), y: self.y.times(s), z: self.z.times(s) }
    }

    /// Each component divided by `s`.
    pub open spec fn divided(self, s: T) -> Self {
        Vec3 { x: self.x.over(s), y: self.y.over(s), z: self.z.over(s) }
    }

    /// Each component negated.
    pub open spec fn negated(self) -> Self {
        Vec3 { x: self.x.negated(), y: self.y.negated(), z: self.z.negated() }
    }

    /// Whether the two vectors agree in every component, by the scalars' own equality.
    pub open spec fn same(self, rhs: Self) -> bool {
        self.x.same(rhs.x) && self.y.same(rhs.y) && self.z.same(rhs.z)
    }

    /// The component at `index`: 0 is `x`, 1 is `y`, 2 is `z`.
    pub open spec fn component(self, index: int) -> T
        recommends
            0 <= index < 3,
    {
        if index == 0 {
            self.x
        } else if index == 1 {
            self.y
        } else {
            self.z
        }
    }

    /// This vector with the component at `index` replaced by `value`.
    pub open spec fn with_component(self, index: int, value: T) -> Self
        recommends
            0 <= index < 3,
    {
        if index == 0 {
            Vec3 { x: value, ..self }
        } else if index == 1 {
            Vec3 { y: value, ..self }
        } else {
            Vec3 { z: value, ..self }
        }
    }

    /// The dot product, summed from the left: `(x*x' + y*y') + z*z'`.
    pub open spec fn spec_dot(self, rhs: Self) -> T {
        self.x.times(rhs.x).plus(self.y.times(rhs.y)).plus(self.z.times(rhs.z))
    }

    /// The cross product.
    pub open spec fn spec_cross(self, rhs: Self) -> Self {
        Vec3 {
            x: self.y.times(rhs.z).minus(self.z.times(rhs.y)),
            y: self.z.times(rhs.x).minus(self.x.times(rhs.z)),
            z: self.x.times(rhs.y).minus(self.y.times(rhs.x)),
        }
    }

    /// The squared length: the sum of the squares of the components, from the left.
    pub open spec fn spec_length_squared(self) -> T {
        self.x.times(self.x).plus(self.y.times(self.y)).plus(self.z.times(self.z))
    }

    /// The length: the square root of the squared length.
    pub open spec fn spec_length(self) -> T {
        self.spec_length_squared().root()
    }

    /// Whether the length compares unequal to zero.
    pub open spec fn has_length(self) -> bool {
        !self.spec_length().same(T::whole(0))
    }

    /// The vector divided by its length.
    pub open spec fn spec_unit_vector(self) -> Self {
        self.divided(self.spec_length())
    }

    /// Adding a vector and taking it away again gives back what was there, wherever
    /// that holds of each component. (Where the scalars round, it does not hold of all.)
    pub proof fn lemma_add_then_sub(self, w: Self)
        requires
            self.x.plus(w.x).minus(w.x).same(self.x),
            self.y.plus(w.y).minus(w.y).same(self.y),
            self.z.plus(w.z).minus(w.z).same(self.z),
        ensures
            self.plus(w).minus(w).same(self),
    {
    }

    /// Scaling by `s` and dividing by it again gives back what was there, wherever that
    /// holds of each component.
    pub proof fn lemma_scale_then_divide(self, s: T)
        requires
            self.x.times(s).over(s).same(self.x),
            self.y.times(s).over(s).same(self.y),
            self.z.times(s).over(s).same(self.z),
        ensures
            self.scaled(s).divided(s).same(self),
    {
    }

    /// The squared length of a vector is its dot product with itself, and its length
    /// is the square root of that.
    pub proof fn lemma_length_squared_is_dot(self)
        ensures
            self.spec_length_squared() == self.spec_dot(self),
            self.spec_length() == self.spec_dot(self).root(),
    {
    }

    pub fn new(x: T, y: T, z: T) -> (out: Self)
        ensures
            out == (Vec3 { x, y, z }),
    {
        Vec3 { x, y, z }
    }

    /// The point that all coordinates are measured from.
    pub fn origin() -> (out: Self)
        ensures
            deterministic::<T>() ==> out == Self::zero(),
    {
        Vec3::new(T::from_i32(0), T::from_i32(0), T::from_i32(0))
    }

    pub fn x(&self) -> (out: T)
        ensures
            out == self.x,
    {
        self.x
    }

    pub fn y(&self) -> (out: T)
        ensures
            out == self.y,
    {
        self.y
    }

    pub fn z(&self) -> (out: T)
        ensures
            out == self.z,
    {
        self.z
    }

    pub fn length(self) -> (out: T)
        ensures
            deterministic::<T>() ==> out == self.spec_length(),
    {
        self.length_squared().sqrt()
    }

    pub fn length_squared(self) -> (out: T)
        ensures
            deterministic::<T>() ==> out == self.spec_length_squared(),
            deterministic::<T>() ==> out == self.spec_dot(self),
    {
        self.dot(&self)
    }

    pub fn dot(&self, rhs: &Vec3<T>) -> (out: T)
        ensures
            deterministic::<T>() ==> out == self.spec_dot(*rhs),
    {
        self.x.mul(rhs.x).add(self.y.mul(rhs.y)).add(self.z.mul(rhs.z))
    }

    pub fn cross(&self, rhs: &Vec3<T>) -> (out: Vec3<T>)
        ensures
            deterministic::<T>() ==> out == self.spec_cross(*rhs),
    {
        Vec3::new(
            self.y.mul(rhs.z).sub(self.z.mul(rhs.y)),
            self.z.mul(rhs.x).sub(self.x.mul(rhs.z)),
            self.x.mul(rhs.y).sub(self.y.mul(rhs.x)),
        )
    }

    /// The vector of the same direction and of length one. A vector without length has
    /// no direction, so it is not accepted.
    pub fn unit_vector(self) -> (out: Vec3<T>)
        requires
            deterministic::<T>() ==> self.has_length(),
        ensures
            deterministic::<T>() ==> out == self.spec_unit_vector(),
    {
        self / self.length()
    }

    /// The component at `index`, which is 0, 1 or 2, for writing. The other two
    /// components stay as they are.
    pub fn index_mut(&mut self, index: usize) -> (out: &mut T)
        requires
            index < 3,
        ensures
            *out == old(self).component(index as int),
            *final(self) == old(self).with_component(index as int, *final(out)),
    {
        match index {
            0 => &mut self.x,
            1 => &mut self.y,
            _ => &mut self.z,
        }
    }

    /// Whether a vector can be normalized: `unit_vector` accepts exactly the vectors for
    /// which this returns true.
    pub fn is_normalizable(self) -> (out: bool)
        ensures
            deterministic::<T>() ==> out == self.has_length(),
    {
        !self.length().eq(T::from_i32(0))
    }
}

impl<T: Scalar> core::ops::Neg for Vec3<T> {
    type Output = Vec3<T>;

    fn neg(self) -> (out: Vec3<T>)
        ensures
            deterministic::<T>() ==> out == self.negated(),
    {
        Vec3::new(self.x.neg(), self.y.neg(), self.z.neg())
    }
}

impl<T: Scalar> NegSpecImpl for Vec3<T> {
    open spec fn obeys_neg_spec() -> bool {
        deterministic::<T>()
    }

    open spec fn neg_req(self) -> bool {
        true
    }

    open spec fn neg_spec(self) -> Vec3<T> {
        self.negated()
    }
}

impl<T: Scalar> core::ops::Index<usize> for Vec3<T> {
    type Output = T;

    /// The component at `index`, which is 0, 1 or 2.
    fn index(&self, index: usize) -> (out: &T)
        ensures
            *out == self.component(index as int),
    {
        match index {
            0 => &self.x,
            1 => &self.y,
            _ => &self.z,
        }
    }
}

impl<T: Scalar> vstd::std_specs::core::IndexSpecImpl<usize> for Vec3<T> {
    open spec fn index_req(&self, index: &usize) -> bool {
        *index < 3
    }
}

impl<T: Scalar> AddAssign<Vec3<T>> for Vec3<T> {
    fn add_assign(&mut self, rhs: Vec3<T>)
        ensures
            deterministic::<T>() ==> *final(self) == old(self).plus(rhs),
    {
        self.x = self.x.add(rhs.x);
        self.y = self.y.add(rhs.y);
        self.z = self.z.add(rhs.z);
    }
}

impl<T: Scalar> core::ops::Add<Vec3<T>> for Vec3<T> {
    type Output = Vec3<T>;

    fn add(self, rhs: Vec3<T>) -> (out: Vec3<T>)
        ensures
            deterministic::<T>() ==> out == self.plus(rhs),
    {
        Vec3::new(self.x.add(rhs.x), self.y.add(rhs.y), self.z.add(rhs.z))
    }
}

impl<T: Scalar> AddSpecImpl<Vec3<T>> for Vec3<T> {
    open spec fn obeys_add_spec() -> bool {
        deterministic::<T>()
    }

    open spec fn add_req(self, rhs: Vec3<T>) -> bool {
        true
    }

    open spec fn add_spec(self, rhs: Vec3<T>) -> Vec3<T> {
        self.plus(rhs)
    }
}

impl<T: Scalar> MulAssign<T> for Vec3<T> {
    fn mul_assign(&mut self, rhs: T)
        ensures
            deterministic::<T>() ==> *final(self) == old(self).scaled(rhs),
    {
        self.x = self.x.mul(rhs);
        self.y = self.y.mul(rhs);
        self.z = self.z.mul(rhs);
    }
}

impl<T: Scalar> core::ops::Mul<Vec3<T>> for Vec3<T> {
    type Output = Vec3<T>;

    fn mul(self, rhs: Vec3<T>) -> (out: Vec3<T>)
        ensures
            deterministic::<T>() ==> out == self.times(rhs),
    {
        Vec3::new(self.x.mul(rhs.x), self.y.mul(rhs.y), self.z.mul(rhs.z))
    }
}

impl<T: Scalar> MulSpecImpl<Vec3<T>> for Vec3<T> {
    open spec fn obeys_mul_spec() -> bool {
        deterministic::<T>()
    }

    open spec fn mul_req(self, rhs: Vec3<T>) -> bool {
        true
    }

    open spec fn mul_spec(self, rhs: Vec3<T>) -> Vec3<T> {
        self.times(rhs)
    }
}

impl<T: Scalar> core::ops::Mul<T> for Vec3<T> {
    type Output = Vec3<T>;

    fn mul(self, rhs: T) -> (out: Vec3<T>)
        ensures
            deterministic::<T>() ==> out == self.scaled(rhs),
    {
        Vec3::new(self.x.mul(rhs), self.y.mul(rhs), self.z.mul(rhs))
    }
}

impl<T: Scalar> MulSpecImpl<T> for Vec3<T> {
    open spec fn obeys_mul_spec() -> bool {
        deterministic::<T>()
    }

    open spec fn mul_req(self, rhs: T) -> bool {
        true
    }

    open spec fn mul_spec(self, rhs: T) -> Vec3<T> {
        self.scaled(rhs)
    }
}

impl<T: Scalar> DivAssign<T> for Vec3<T> {
    /// Divides in place, by multiplying with the reciprocal of `rhs`.
    fn div_assign(&mut self, rhs: T)
        ensures
            deterministic::<T>() ==> *final(self) == old(self).scaled(T::whole(1).over(rhs)),
    {
        self.mul_assign(T::from_i32(1).div(rhs));
    }
}

impl<T: Scalar> core::ops::Div<T> for Vec3<T> {
    type Output = Vec3<T>;

    fn div(self, rhs: T) -> (out: Vec3<T>)
        ensures
            deterministic::<T>() ==> out == self.divided(rhs),
    {
        Vec3::new(self.x.div(rhs), self.y.div(rhs), self.z.div(rhs))
    }
}

impl<T: Scalar> DivSpecImpl<T> for Vec3<T> {
    open spec fn obeys_div_spec() -> bool {
        deterministic::<T>()
    }

    open spec fn div_req(self, rhs: T) -> bool {
        true
    }

    open spec fn div_spec(self, rhs: T) -> Vec3<T> {
        self.divided(rhs)
    }
}

impl<T: Scalar> core::ops::Sub<Vec3<T>> for Vec3<T> {
    type Output = Vec3<T>;

    fn sub(self, rhs: Vec3<T>) -> (out: Vec3<T>)
        ensures
            deterministic::<T>() ==> out == self.minus(rhs),
    {
        Vec3::new(self.x.sub(rhs.x), self.y.sub(rhs.y), self.z.sub(rhs.z))
    }
}

impl<T: Scalar> SubSpecImpl<Vec3<T>> for Vec3<T> {
    open spec fn obeys_sub_spec() -> bool {
        deterministic::<T>()
    }

    open spec fn sub_req(self, rhs: Vec3<T>) -> bool {
        true
    }

    open spec fn sub_spec(self, rhs: Vec3<T>) -> Vec3<T> {
        self.minus(rhs)
    }
}

impl<T: Scalar> PartialEq for Vec3<T> {
    /// Exact comparison, component by component, with no tolerance.
    fn eq(&self, other: &Self) -> (out: bool)
        ensures
            deterministic::<T>() ==> out == self.same(*other),
    {
        self.x.eq(other.x) && self.y.eq(other.y) && self.z.eq(other.z)
    }
}

impl<T: Scalar> PartialEqSpecImpl for Vec3<T> {
    open spec fn obeys_eq_spec() -> bool {
        deterministic::<T>()
    }

    open spec fn eq_spec(&self, other: &Self) -> bool {
        self.same(*other)
    }
}

} // verus!
