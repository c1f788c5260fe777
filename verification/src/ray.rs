//! Rays: half of a line, given by where it starts and which way it goes.

use crate::scalar::{deterministic, Scalar};
use crate::vec3::{Point3, Vec3};
use vstd::prelude::*;
use vstd::std_specs::cmp::PartialEqSpecImpl;

verus! {

/// The line `origin + t * direction`, with `t` as its parameter. The direction need not
/// have length one.
#[derive(Debug)]
pub struct Ray<T> {
    pub origin: Point3<T>,
    pub direction: Vec3<T>,
}

impl<T: Scalar> Ray<T> {
    /// The point of the ray at parameter `t`: `origin + t * direction`.
    pub open spec fn spec_at(self, t: T) -> Point3<T> {
        self.origin.plus(self.direction.scaled(t))
    }

    /// Whether the two rays agree in origin and direction, by the scalars' own equality.
    pub open spec fn same(self, rhs: Self) -> bool {
        self.origin.same(rhs.origin) && self.direction.same(rhs.direction)
    }

    pub fn new(origin: Vec3<T>, direction: Vec3<T>) -> (out: Ray<T>)
        ensures
            out == (Ray { origin, direction }),
    {
        Ray { origin, direction }
    }

    pub fn origin(&self) -> (out: Point3<T>)
        ensures
            out == self.origin,
    {
        self.origin
    }

    pub fn direction(&self) -> (out: Vec3<T>)
        ensures
            out == self.direction,
    {
        self.direction
    }

    /// The point of the ray at parameter `t`. Any `t` is accepted, also a negative one.
    pub fn at(&self, t: T) -> (out: Point3<T>)
        ensures
            deterministic::<T>() ==> out == self.spec_at(t),
            deterministic::<T>() ==> out == self.origin.plus(self.direction.scaled(t)),
    {
        self.origin() + self.direction() * t
    }
}

impl<T: Scalar> PartialEq for Ray<T> {
    fn eq(&self, other: &Self) -> (out: bool)
        ensures
            deterministic::<T>() ==> out == self.same(*other),
    {
        self.origin == other.origin && self.direction == other.direction
    }
}

impl<T: Scalar> PartialEqSpecImpl for Ray<T> {
    open spec fn obeys_eq_spec() -> bool {
        deterministic::<T>()
    }

    open spec fn eq_spec(&self, other: &Self) -> bool {
        self.same(*other)
    }
}

} // verus!
