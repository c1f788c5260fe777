//! What a ray can hit: the record of a hit, the capability of being hit, and the list
//! that finds the nearest hit among its members.

use crate::interval::Interval;
use crate::ray::Ray;
use crate::scalar::{deterministic, ordered, Scalar, ScalarSpec};
use crate::vec3::{Point3, Vec3};
use std::ops::Neg;
use std::rc::Rc;
use vstd::prelude::*;
use vstd::std_specs::cmp::PartialEqSpecImpl;

verus! {

/// Where a ray met a surface. `normal` and `front_face` are unset until the record has
/// been oriented, and are then set together.
#[derive(Debug)]
pub struct HitRecord<T> {
    pub p: Point3<T>,
    pub normal: Option<Vec3<T>>,
    pub t: T,
    pub front_face: Option<bool>,
}

impl<T: Scalar> HitRecord<T> {
    /// Whether a ray going along `direction` meets the side of a surface that
    /// `outward_normal` points away from: the two then point against each other.
    pub open spec fn faces(direction: Vec3<T>, outward_normal: Vec3<T>) -> bool {
        direction.spec_dot(outward_normal).below(T::whole(0))
    }

    /// This record oriented against the ray `r`: the normal is `outward_normal` where
    /// the ray meets the front face and its negation otherwise, so that it always points
    /// back to the side the ray came from.
    pub open spec fn oriented(self, r: Ray<T>, outward_normal: Vec3<T>) -> Self {
        let front = Self::faces(r.direction, outward_normal);
        HitRecord {
            p: self.p,
            normal: Some(
                if front {
                    outward_normal
                } else {
                    outward_normal.negated()
                },
            ),
            t: self.t,
            front_face: Some(front),
        }
    }

    /// Whether the record has been oriented: `normal` and `front_face` are set.
    pub open spec fn is_oriented(self) -> bool {
        self.normal.is_some() && self.front_face.is_some()
    }

    /// Whether the two records agree in every field, by the scalars' own equality.
    pub open spec fn same(self, rhs: Self) -> bool {
        &&& self.p.same(rhs.p)
        &&& match (self.normal, rhs.normal) {
            (Some(a), Some(b)) => a.same(b),
            (None, None) => true,
            _ => false,
        }
        &&& self.t.same(rhs.t)
        &&& self.front_face == rhs.front_face
    }

    /// A record that has not been oriented yet: `front_face` is unset.
    pub fn new(p: Point3<T>, normal: Option<Vec3<T>>, t: T) -> (out: Self)
        ensures
            out == (HitRecord { p, normal, t, front_face: None }),
    {
        HitRecord { p, normal, t, front_face: None }
    }

    /// Orients the record against the ray: sets `front_face` to whether the ray's
    /// direction and `outward_normal` point against each other, and `normal` to
    /// `outward_normal` if so and to its negation if not. Point and parameter stay.
    pub fn set_face_normal(&mut self, r: &Ray<T>, outward_normal: Vec3<T>)
        ensures
            final(self).p == old(self).p,
            final(self).t == old(self).t,
            final(self).is_oriented(),
            final(self).front_face == Some(true) ==> final(self).normal == Some(outward_normal),
            deterministic::<T>() ==> final(self).front_face == Some(
                r.direction.spec_dot(outward_normal).below(T::whole(0)),
            ),
            deterministic::<T>() ==> final(self).normal == Some(
                if r.direction.spec_dot(outward_normal).below(T::whole(0)) {
                    outward_normal
                } else {
                    outward_normal.negated()
                },
            ),
            deterministic::<T>() ==> *final(self) == old(self).oriented(*r, outward_normal),
    {
        let front = r.direction().dot(&outward_normal).lt(T::from_i32(0));
        self.front_face = Some(front);
        self.normal = if front {
            Some(outward_normal)
        } else {
            Some(outward_normal.neg())
        };
    }

    pub fn normal(&self) -> (out: Option<Vec3<T>>)
        ensures
            out == self.normal,
    {
        self.normal
    }
}

impl<T: Scalar> PartialEq for HitRecord<T> {
    fn eq(&self, other: &Self) -> (out: bool)
        ensures
            deterministic::<T>() ==> out == self.same(*other),
    {
        let normals = match (self.normal, other.normal) {
            (Some(a), Some(b)) => a == b,
            (None, None) => true,
            _ => false,
        };
        let faces = match (self.front_face, other.front_face) {
            (Some(a), Some(b)) => a == b,
            (None, None) => true,
            _ => false,
        };
        self.p == other.p && normals && self.t.eq(other.t) && faces
    }
}

impl<T: Scalar> PartialEqSpecImpl for HitRecord<T> {
    open spec fn obeys_eq_spec() -> bool {
        deterministic::<T>()
    }

    open spec fn eq_spec(&self, other: &Self) -> bool {
        self.same(*other)
    }
}

/// Anything that a ray can hit.
pub trait HitTable<T: Scalar> {
    /// The record of the hit of `r` on this object within `ray_t`, if there is one.
    spec fn spec_hit(&self, r: Ray<T>, ray_t: Interval<T>) -> Option<HitRecord<T>>;

    /// Tests the ray against this object. The flag says whether a hit was found, and a
    /// record comes with it exactly then. The record is oriented, its point is the
    /// ray's point at its parameter, and its parameter lies within `ray_t`, the bounds
    /// included. A ray whose direction has no length is not accepted.
    fn hit(&self, r: &Ray<T>, ray_t: &Interval<T>) -> (out: (bool, Option<HitRecord<T>>))
        requires
            deterministic::<T>() ==> r.direction.has_length(),
        ensures
            out.0 == out.1.is_some(),
            out.1 matches Some(rec) ==> rec.is_oriented(),
            deterministic::<T>() ==> out.1 == self.spec_hit(*r, *ray_t),
            deterministic::<T>() ==> (out.1 matches Some(rec) ==> rec.p == r.spec_at(rec.t)),
            deterministic::<T>() && ordered::<T>() ==> (out.1 matches Some(rec)
                ==> ray_t.spec_contains(rec.t)),
    ;
}

/// Puts `item` behind the last of `items`.
fn append<A>(item: A, items: &mut Vec<A>)
    ensures
        final(items)@ == old(items)@.push(item),
{
    items.push(item)
}

/// A list of objects, in the order in which they were added. A member is shared, not
/// owned: it may stand in more than one list.
#[verifier::reject_recursive_types(T)]
pub struct HitTableList<T> {
    objects: Vec<Rc<dyn HitTable<T>>>,
}

impl<T: Scalar> HitTableList<T> {
    /// The members, in the order in which they were added.
    pub closed spec fn view(&self) -> Seq<Rc<dyn HitTable<T>>> {
        self.objects@
    }

    /// The upper bound for the next member's test: the parameter of the nearest hit so
    /// far, or the range's own upper bound while nothing has been hit.
    pub open spec fn limit(best: Option<HitRecord<T>>, ray_t: Interval<T>) -> T {
        match best {
            Some(rec) => rec.t,
            None => ray_t.max,
        }
    }

    /// The nearest hit of `r` among `objects` within `ray_t`. The members are tested in
    /// order, each within the range from `ray_t.min` to the nearest hit before it, so a
    /// member that is hit replaces what was found before it.
    pub open spec fn nearest(
        objects: Seq<Rc<dyn HitTable<T>>>,
        r: Ray<T>,
        ray_t: Interval<T>,
    ) -> Option<HitRecord<T>>
        decreases objects.len(),
    {
        if objects.len() == 0 {
            None
        } else {
            let before = Self::nearest(objects.drop_last(), r, ray_t);
            let within = Interval { min: ray_t.min, max: Self::limit(before, ray_t) };
            match objects.last().spec_hit(r, within) {
                Some(rec) => Some(rec),
                None => before,
            }
        }
    }

    /// The empty list.
    pub fn new() -> (out: Self)
        ensures
            out@.len() == 0,
    {
        HitTableList { objects: Vec::new() }
    }

    /// Removes every member.
    pub fn clear(&mut self)
        ensures
            final(self)@.len() == 0,
    {
        self.objects.clear()
    }

    /// Appends `object` after the members that are there.
    pub fn add(&mut self, object: Rc<dyn HitTable<T>>)
        ensures
            final(self)@.len() == old(self)@.len() + 1,
            final(self)@.drop_last() == old(self)@,
            final(self)@.last() == object,
    {
        append(object, &mut self.objects)
    }

    /// An empty list is hit by no ray.
    pub proof fn lemma_empty_list_is_never_hit(&self, r: Ray<T>, ray_t: Interval<T>)
        requires
            self@.len() == 0,
        ensures
            self.spec_hit(r, ray_t).is_none(),
    {
    }

    /// A list of one member is hit exactly where that member is, with the same record.
    pub proof fn lemma_single_member_decides(&self, r: Ray<T>, ray_t: Interval<T>)
        requires
            self@.len() == 1,
        ensures
            self.spec_hit(r, ray_t) == self@[0].spec_hit(r, ray_t),
    {
        let objects = self@;
        assert(Self::nearest(objects.drop_last(), r, ray_t).is_none());
        assert((Interval { min: ray_t.min, max: ray_t.max }) == ray_t);
        assert(objects.last() == objects[0]);
    }

    /// The number of members.
    pub fn len(&self) -> (out: usize)
        ensures
            out == self@.len(),
    {
        self.objects.len()
    }
}

impl<T: Scalar> HitTable<T> for HitTableList<T> {
    /// The nearest hit among the members; see [`HitTableList::nearest`].
    open spec fn spec_hit(&self, r: Ray<T>, ray_t: Interval<T>) -> Option<HitRecord<T>> {
        Self::nearest(self@, r, ray_t)
    }

    /// Tests the members in order, each within the range from `ray_t.min` to the
    /// nearest hit so far. With no member there is no hit.
    fn hit(&self, r: &Ray<T>, ray_t: &Interval<T>) -> (out: (bool, Option<HitRecord<T>>))
        ensures
            self@.len() == 0 ==> !out.0,
    {
        let mut temp_rec: Option<HitRecord<T>> = None;
        let mut hit_anything = false;
        let mut closest_so_far = ray_t.max();
        let mut i: usize = 0;
        while i < self.objects.len()
            invariant
                i <= self.objects.len(),
                deterministic::<T>() ==> r.direction.has_length(),
                hit_anything == temp_rec.is_some(),
                self@.len() == 0 ==> !hit_anything,
                closest_so_far == Self::limit(temp_rec, *ray_t),
                temp_rec matches Some(rec) ==> rec.is_oriented(),
                deterministic::<T>() ==> temp_rec == Self::nearest(
                    self@.subrange(0, i as int),
                    *r,
                    *ray_t,
                ),
                deterministic::<T>() ==> (temp_rec matches Some(rec) ==> rec.p == r.spec_at(rec.t)),
                deterministic::<T>() && ordered::<T>() ==> (temp_rec matches Some(rec)
                    ==> ray_t.spec_contains(rec.t)),
            decreases self.objects.len() - i,
        {
            proof {
                assert(self@.subrange(0, i + 1).drop_last() =~= self@.subrange(0, i as int));
            }
            let within = Interval::new(ray_t.min(), closest_so_far);
            if let (_, Some(hr)) = self.objects[i].hit(r, &within) {
                hit_anything = true;
                closest_so_far = hr.t;
                temp_rec = Some(hr);
            }
            i += 1;
        }
        proof {
            assert(self@.subrange(0, i as int) =~= self@);
        }
        (hit_anything, temp_rec)
    }
}

} // verus!
