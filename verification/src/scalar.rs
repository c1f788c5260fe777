//! The numbers the geometry is computed with.

use vstd::prelude::*;

verus! {

/// A number type with the arithmetic, the order and the conversions that ray casting
/// needs.
///
/// An implementation gives each operation for every operand: none may fail, so division
/// by zero and the square root of a negative number return some value too, as they do
/// for floating-point numbers. The methods carry no contract. What the library proves
/// of a scalar type it proves from what the type's operations return, under the
/// conditions [`deterministic`] and [`ordered`].
pub trait Scalar: Copy {
    /// `self + rhs`.
    fn add(self, rhs: Self) -> Self;

    /// `self - rhs`.
    fn sub(self, rhs: Self) -> Self;

    /// `self * rhs`.
    fn mul(self, rhs: Self) -> Self;

    /// `self / rhs`.
    fn div(self, rhs: Self) -> Self;

    /// `-self`.
    fn neg(self) -> Self;

    /// The square root of `self`.
    fn sqrt(self) -> Self;

    /// Whether `self < rhs`.
    fn lt(self, rhs: Self) -> bool;

    /// Whether `self <= rhs`.
    fn le(self, rhs: Self) -> bool;

    /// Whether `self == rhs`, by the number type's own equality, which need not be
    /// identity of values.
    fn eq(self, rhs: Self) -> bool;

    /// The scalar for a whole number.
    fn from_i32(n: i32) -> Self;

    /// The whole number for a scalar: its fraction is dropped, and a value outside the
    /// range of `i32` goes to the nearest end of it.
    fn to_i32(self) -> i32;

    /// The scalar that is above every finite one.
    fn infinity() -> Self;
}

/// Names for what the operations of a scalar type return, for use in contracts.
///
/// Nothing is said here of what the arithmetic adds up to (it may round). A name only
/// stands for the value that the operation returns, so a contract built from these
/// names describes which operations are composed and how. A name means something only
/// for a type whose operations are [`deterministic`].
pub trait ScalarSpec: Scalar {
    /// The value of `self.add(rhs)`.
    spec fn plus(self, rhs: Self) -> Self;

    /// The value of `self.sub(rhs)`.
    spec fn minus(self, rhs: Self) -> Self;

    /// The value of `self.mul(rhs)`.
    spec fn times(self, rhs: Self) -> Self;

    /// The value of `self.div(rhs)`.
    spec fn over(self, rhs: Self) -> Self;

    /// The value of `self.neg()`.
    spec fn negated(self) -> Self;

    /// The value of `self.sqrt()`.
    spec fn root(self) -> Self;

    /// The value of `self.lt(rhs)`.
    spec fn below(self, rhs: Self) -> bool;

    /// The value of `self.le(rhs)`.
    spec fn at_most(self, rhs: Self) -> bool;

    /// The value of `self.eq(rhs)`.
    spec fn same(self, rhs: Self) -> bool;

    /// The value of `Self::from_i32(n)`.
    spec fn whole(n: i32) -> Self;

    /// The value of `self.to_i32()`.
    spec fn truncated(self) -> i32;

    /// The value of `Self::infinity()`.
    spec fn unbounded() -> Self;
}

impl<T: Scalar> ScalarSpec for T {
    open spec fn plus(self, rhs: Self) -> Self {
        choose|out: T| call_ensures(T::add, (self, rhs), out)
    }

    open spec fn minus(self, rhs: Self) -> Self {
        choose|out: T| call_ensures(T::sub, (self, rhs), out)
    }

    open spec fn times(self, rhs: Self) -> Self {
        choose|out: T| call_ensures(T::mul, (self, rhs), out)
    }

    open spec fn over(self, rhs: Self) -> Self {
        choose|out: T| call_ensures(T::div, (self, rhs), out)
    }

    open spec fn negated(self) -> Self {
        choose|out: T| call_ensures(T::neg, (self,), out)
    }

    open spec fn root(self) -> Self {
        choose|out: T| call_ensures(T::sqrt, (self,), out)
    }

    open spec fn below(self, rhs: Self) -> bool {
        choose|out: bool| call_ensures(T::lt, (self, rhs), out)
    }

    open spec fn at_most(self, rhs: Self) -> bool {
        choose|out: bool| call_ensures(T::le, (self, rhs), out)
    }

    open spec fn same(self, rhs: Self) -> bool {
        choose|out: bool| call_ensures(T::eq, (self, rhs), out)
    }

    open spec fn whole(n: i32) -> Self {
        choose|out: T| call_ensures(T::from_i32, (n,), out)
    }

    open spec fn truncated(self) -> i32 {
        choose|out: i32| call_ensures(T::to_i32, (self,), out)
    }

    open spec fn unbounded() -> Self {
        choose|out: T| call_ensures(T::infinity, (), out)
    }
}

/// Whether each operation of `T` is a function of its operands: given the same
/// operands, it returns the same value. The contracts of this crate speak of such
/// types.
pub open spec fn deterministic<T: Scalar>() -> bool {
    &&& forall|a: T, b: T, x: T, y: T|
        #![trigger call_ensures(T::add, (a, b), x), call_ensures(T::add, (a, b), y)]
        call_ensures(T::add, (a, b), x) && call_ensures(T::add, (a, b), y) ==> x == y
    &&& forall|a: T, b: T, x: T, y: T|
        #![trigger call_ensures(T::sub, (a, b), x), call_ensures(T::sub, (a, b), y)]
        call_ensures(T::sub, (a, b), x) && call_ensures(T::sub, (a, b), y) ==> x == y
    &&& forall|a: T, b: T, x: T, y: T|
        #![trigger call_ensures(T::mul, (a, b), x), call_ensures(T::mul, (a, b), y)]
        call_ensures(T::mul, (a, b), x) && call_ensures(T::mul, (a, b), y) ==> x == y
    &&& forall|a: T, b: T, x: T, y: T|
        #![trigger call_ensures(T::div, (a, b), x), call_ensures(T::div, (a, b), y)]
        call_ensures(T::div, (a, b), x) && call_ensures(T::div, (a, b), y) ==> x == y
    &&& forall|a: T, x: T, y: T|
        #![trigger call_ensures(T::neg, (a,), x), call_ensures(T::neg, (a,), y)]
        call_ensures(T::neg, (a,), x) && call_ensures(T::neg, (a,), y) ==> x == y
    &&& forall|a: T, x: T, y: T|
        #![trigger call_ensures(T::sqrt, (a,), x), call_ensures(T::sqrt, (a,), y)]
        call_ensures(T::sqrt, (a,), x) && call_ensures(T::sqrt, (a,), y) ==> x == y
    &&& forall|a: T, b: T, x: bool, y: bool|
        #![trigger call_ensures(T::lt, (a, b), x), call_ensures(T::lt, (a, b), y)]
        call_ensures(T::lt, (a, b), x) && call_ensures(T::lt, (a, b), y) ==> x == y
    &&& forall|a: T, b: T, x: bool, y: bool|
        #![trigger call_ensures(T::le, (a, b), x), call_ensures(T::le, (a, b), y)]
        call_ensures(T::le, (a, b), x) && call_ensures(T::le, (a, b), y) ==> x == y
    &&& forall|a: T, b: T, x: bool, y: bool|
        #![trigger call_ensures(T::eq, (a, b), x), call_ensures(T::eq, (a, b), y)]
        call_ensures(T::eq, (a, b), x) && call_ensures(T::eq, (a, b), y) ==> x == y
    &&& forall|n: i32, x: T, y: T|
        #![trigger call_ensures(T::from_i32, (n,), x), call_ensures(T::from_i32, (n,), y)]
        call_ensures(T::from_i32, (n,), x) && call_ensures(T::from_i32, (n,), y) ==> x == y
    &&& forall|a: T, x: i32, y: i32|
        #![trigger call_ensures(T::to_i32, (a,), x), call_ensures(T::to_i32, (a,), y)]
        call_ensures(T::to_i32, (a,), x) && call_ensures(T::to_i32, (a,), y) ==> x == y
    &&& forall|x: T, y: T|
        #![trigger call_ensures(T::infinity, (), x), call_ensures(T::infinity, (), y)]
        call_ensures(T::infinity, (), x) && call_ensures(T::infinity, (), y) ==> x == y
}

/// Whether `lt` and `le` of `T` order it: whatever is below is also at most, and
/// `at_most` is transitive.
pub open spec fn ordered<T: Scalar>() -> bool {
    &&& forall|a: T, b: T| #[trigger] a.below(b) ==> a.at_most(b)
    &&& forall|a: T, b: T, c: T| #[trigger]
        a.at_most(b) && #[trigger] b.at_most(c) ==> a.at_most(c)
}

/// The quotient of the whole numbers `n` and `d`, as the scalar type computes it.
pub open spec fn ratio<T: Scalar>(n: i32, d: i32) -> T {
    T::whole(n).over(T::whole(d))
}

/// Computes the scalar for the fraction `n / d`.
pub fn ratio_of<T: Scalar>(n: i32, d: i32) -> (out: T)
    ensures
        deterministic::<T>() ==> out == ratio::<T>(n, d),
{
    T::from_i32(n).div(T::from_i32(d))
}

} // verus!
