//! Ranges of scalars, used to bound the ray parameters that count as a hit.

use crate::scalar::{deterministic, ordered, Scalar, ScalarSpec};
use vstd::prelude::*;
use vstd::std_specs::cmp::PartialEqSpecImpl;

verus! {

/// The range from `min` to `max`. The bounds are kept as given: they are never put in
/// order, so a caller who wants a range that holds anything passes `min` at most `max`.
#[derive(Debug)]
pub struct Interval<T> {
    pub min: T,
    pub max: T,
}

impl<T: Scalar> Interval<T> {
    /// The distance from `min` to `max`.
    pub open spec fn spec_size(self) -> T {
        self.max.minus(self.min)
    }

    /// Whether `x` lies in the range, the two bounds included.
    pub open spec fn spec_contains(self, x: T) -> bool {
        self.min.at_most(x) && x.at_most(self.max)
    }

    /// Whether `x` lies in the range, the two bounds excluded.
    pub open spec fn spec_surrounds(self, x: T) -> bool {
        self.min.below(x) && x.below(self.max)
    }

    /// Whether the two ranges agree in both bounds, by the scalars' own equality.
    pub open spec fn same(self, rhs: Self) -> bool {
        self.min.same(rhs.min) && self.max.same(rhs.max)
    }

    pub fn new(min: T, max: T) -> (out: Self)
        ensures
            out == (Interval { min, max }),
    {
        Interval { min, max }
    }

    /// The range that marks "nothing found yet": both bounds are the unbounded scalar.
    pub fn default() -> (out: Self)
        ensures
            deterministic::<T>() ==> out == (Interval { min: T::unbounded(), max: T::unbounded() }),
    {
        Interval { min: T::infinity(), max: T::infinity() }
    }

    pub fn size(&self) -> (out: T)
        ensures
            deterministic::<T>() ==> out == self.spec_size(),
    {
        self.max.sub(self.min)
    }

    /// Whether `min <= x <= max`.
    pub fn contains(&self, x: T) -> (out: bool)
        ensures
            deterministic::<T>() ==> out == self.spec_contains(x),
            deterministic::<T>() ==> out == (self.min.at_most(x) && x.at_most(self.max)),
    {
        self.min.le(x) && x.le(self.max)
    }

    /// Whether `min < x < max`. A value on a bound is not surrounded.
    pub fn surrounds(&self, x: T) -> (out: bool)
        ensures
            deterministic::<T>() ==> out == self.spec_surrounds(x),
            deterministic::<T>() ==> out == (self.min.below(x) && x.below(self.max)),
    {
        self.min.lt(x) && x.lt(self.max)
    }

    pub fn max(&self) -> (out: T)
        ensures
            out == self.max,
    {
        self.max
    }

    pub fn min(&self) -> (out: T)
        ensures
            out == self.min,
    {
        self.min
    }

    /// Where the scalars are ordered, a surrounded value is also contained.
    pub proof fn lemma_surrounds_contains(self, x: T)
        requires
            ordered::<T>(),
            self.spec_surrounds(x),
        ensures
            self.spec_contains(x),
    {
    }
}

impl<T: Scalar> PartialEq for Interval<T> {
    fn eq(&self, other: &Self) -> (out: bool)
        ensures
            deterministic::<T>() ==> out == self.same(*other),
    {
        self.min.eq(other.min) && self.max.eq(other.max)
    }
}

impl<T: Scalar> PartialEqSpecImpl for Interval<T> {
    open spec fn obeys_eq_spec() -> bool {
        deterministic::<T>()
    }

    open spec fn eq_spec(&self, other: &Self) -> bool {
        self.same(*other)
    }
}

} // verus!
