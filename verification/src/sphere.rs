//! Spheres, and where a ray meets one.

use crate::hittable::{HitRecord, HitTable};
use crate::interval::Interval;
use crate::ray::Ray;
use crate::scalar::{deterministic, ordered, Scalar, ScalarSpec};
use crate::vec3::{Point3, Vec3};
use vstd::prelude::*;
use vstd::std_specs::cmp::PartialEqSpecImpl;

verus! {

/// A sphere, given by its center and its radius. The square of the radius is computed
/// once, when the sphere is made, and kept.
#[derive(Debug)]
pub struct Sphere<T: Scalar> {
    center: Point3<T>,
    radius: T,
    r_squared: T,
}

/// The numbers of the equation `a*t*t - 2*h*t + c = 0`, whose solutions are the
/// parameters at which a ray meets a sphere.
pub struct Quadratic<T> {
    pub a: T,
    pub h: T,
    pub c: T,
}

impl<T: Scalar> Quadratic<T> {
    /// `h*h - a*c`: below zero exactly where the ray misses the sphere.
    pub open spec fn discriminant(self) -> T {
        self.h.times(self.h).minus(self.a.times(self.c))
    }

    /// The smaller solution, `(h - sqrt(discriminant)) / a`.
    pub open spec fn near_root(self) -> T {
        self.h.minus(self.discriminant().root()).over(self.a)
    }

    /// The larger solution, `(h + sqrt(discriminant)) / a`.
    pub open spec fn far_root(self) -> T {
        self.h.plus(self.discriminant().root()).over(self.a)
    }

    /// The solution that counts as the hit within `ray_t`: the smaller one if the range
    /// surrounds it, else the larger one if the range surrounds that, else none. There
    /// is none either where the discriminant is below zero.
    pub open spec fn root_within(self, ray_t: Interval<T>) -> Option<T> {
        if self.discriminant().below(T::whole(0)) {
            None
        } else if ray_t.spec_surrounds(self.near_root()) {
            Some(self.near_root())
        } else if ray_t.spec_surrounds(self.far_root()) {
            Some(self.far_root())
        } else {
            None
        }
    }
}

impl<T: Scalar> Sphere<T> {
    #[verifier::type_invariant]
    spec fn inv(self) -> bool {
        deterministic::<T>() ==> self.r_squared == self.radius.times(self.radius)
    }

    pub closed spec fn spec_center(self) -> Point3<T> {
        self.center
    }

    pub closed spec fn spec_radius(self) -> T {
        self.radius
    }

    pub closed spec fn spec_r_squared(self) -> T {
        self.r_squared
    }

    /// Whether the two spheres agree in center, radius and squared radius, by the
    /// scalars' own equality.
    pub open spec fn same(self, rhs: Self) -> bool {
        &&& self.spec_center().same(rhs.spec_center())
        &&& self.spec_radius().same(rhs.spec_radius())
        &&& self.spec_r_squared().same(rhs.spec_r_squared())
    }

    /// The equation for the ray `r` and this sphere: with `oc` from the ray's origin to
    /// the center, `a` is the squared length of the direction, `h` the dot product of
    /// the direction with `oc`, and `c` the squared length of `oc` less the squared
    /// radius.
    pub open spec fn quadratic(self, r: Ray<T>) -> Quadratic<T> {
        let oc = self.spec_center().minus(r.origin);
        Quadratic {
            a: r.direction.spec_length_squared(),
            h: r.direction.spec_dot(oc),
            c: oc.spec_length_squared().minus(self.spec_radius().times(self.spec_radius())),
        }
    }

    /// The outward normal at the point `p` of the surface: from the center to `p`,
    /// divided by the radius.
    pub open spec fn outward_normal(self, p: Point3<T>) -> Vec3<T> {
        p.minus(self.spec_center()).divided(self.spec_radius())
    }

    /// The record of the hit of `r` at parameter `root`, oriented against the ray.
    pub open spec fn record_at(self, r: Ray<T>, root: T) -> HitRecord<T> {
        let p = r.spec_at(root);
        (HitRecord { p, normal: None, t: root, front_face: None }).oriented(
            r,
            self.outward_normal(p),
        )
    }

    pub fn new(center: Point3<T>, radius: T) -> (out: Self)
        ensures
            out.spec_center() == center,
            out.spec_radius() == radius,
            deterministic::<T>() ==> out.spec_r_squared() == radius.times(radius),
    {
        Sphere { center, radius, r_squared: radius.mul(radius) }
    }

    pub fn center(&self) -> (out: Point3<T>)
        ensures
            out == self.spec_center(),
    {
        self.center
    }

    pub fn radius(&self) -> (out: T)
        ensures
            out == self.spec_radius(),
    {
        self.radius
    }

    /// The square of the radius, as it was computed when the sphere was made.
    pub fn r_squared(&self) -> (out: T)
        ensures
            out == self.spec_r_squared(),
            deterministic::<T>() ==> out == self.spec_radius().times(self.spec_radius()),
    {
        proof {
            use_type_invariant(self);
        }
        self.r_squared
    }
}

impl<T: Scalar> PartialEq for Sphere<T> {
    fn eq(&self, other: &Self) -> (out: bool)
        ensures
            deterministic::<T>() ==> out == self.same(*other),
    {
        self.center == other.center && self.radius.eq(other.radius) && self.r_squared.eq(
            other.r_squared,
        )
    }
}

impl<T: Scalar> PartialEqSpecImpl for Sphere<T> {
    open spec fn obeys_eq_spec() -> bool {
        deterministic::<T>()
    }

    open spec fn eq_spec(&self, other: &Self) -> bool {
        self.same(*other)
    }
}

impl<T: Scalar> HitTable<T> for Sphere<T> {
    /// The hit is at the solution of the sphere's equation that `ray_t` admits; see
    /// [`Quadratic::root_within`].
    open spec fn spec_hit(&self, r: Ray<T>, ray_t: Interval<T>) -> Option<HitRecord<T>> {
        match self.quadratic(r).root_within(ray_t) {
            Some(root) => Some(self.record_at(r, root)),
            None => None,
        }
    }

    /// Solves the sphere's equation for the ray. The nearer solution is the hit where
    /// `ray_t` surrounds it; the farther one is looked at only where it does not. So a
    /// hit lies strictly between the bounds of `ray_t`.
    fn hit(&self, r: &Ray<T>, ray_t: &Interval<T>) -> (out: (bool, Option<HitRecord<T>>))
        ensures
            deterministic::<T>() ==> (out.1 matches Some(rec) ==> ray_t.spec_surrounds(rec.t)),
    {
        proof {
            use_type_invariant(self);
        }
        let oc = self.center - r.origin();
        let a = r.direction().length_squared();
        let h = r.direction().dot(&oc);
        let c = oc.length_squared().sub(self.r_squared);
        let discriminant = h.mul(h).sub(a.mul(c));
        if discriminant.lt(T::from_i32(0)) {
            return (false, None);
        }
        let sqrtd = discriminant.sqrt();
        let mut root = h.sub(sqrtd).div(a);
        if !ray_t.surrounds(root) {
            root = h.add(sqrtd).div(a);
            if !ray_t.surrounds(root) {
                return (false, None);
            }
        }
        proof {
            if deterministic::<T>() && ordered::<T>() {
                ray_t.lemma_surrounds_contains(root);
            }
        }
        let p = r.at(root);
        let outward_normal = (p - self.center) / self.radius;
        let mut hr = HitRecord::new(p, None, root);
        hr.set_face_normal(r, outward_normal);
        (true, Some(hr))
    }
}

} // verus!
