//! Hit records, spheres, lists of objects, the camera and the picture, over
//! double-precision numbers.

use raytracer::camera::{ray_color, Camera};
use raytracer::hittable::{HitRecord, HitTable, HitTableList};
use raytracer::interval::Interval;
use raytracer::ray::Ray;
use raytracer::scalar::Scalar;
use raytracer::sphere::Sphere;
use raytracer::vec3::{Color, Point3, Vec3};
use std::rc::Rc;

/// A double-precision number as the scalar of the geometry.
#[derive(Clone, Copy, Debug, PartialEq)]
struct Real(f64);

impl Scalar for Real {
    fn add(self, rhs: Self) -> Self {
        Real(self.0 + rhs.0)
    }

    fn sub(self, rhs: Self) -> Self {
        Real(self.0 - rhs.0)
    }

    fn mul(self, rhs: Self) -> Self {
        Real(self.0 * rhs.0)
    }

    fn div(self, rhs: Self) -> Self {
        Real(self.0 / rhs.0)
    }

    fn neg(self) -> Self {
        Real(-self.0)
    }

    fn sqrt(self) -> Self {
        Real(self.0.sqrt())
    }

    fn lt(self, rhs: Self) -> bool {
        self.0 < rhs.0
    }

    fn le(self, rhs: Self) -> bool {
        self.0 <= rhs.0
    }

    fn eq(self, rhs: Self) -> bool {
        self.0 == rhs.0
    }

    fn from_i32(n: i32) -> Self {
        Real(f64::from(n))
    }

    fn to_i32(self) -> i32 {
        self.0 as i32
    }

    fn infinity() -> Self {
        Real(f64::INFINITY)
    }
}

fn vec3(x: f64, y: f64, z: f64) -> Vec3<Real> {
    Vec3::new(Real(x), Real(y), Real(z))
}

fn interval(min: f64, max: f64) -> Interval<Real> {
    Interval::new(Real(min), Real(max))
}

fn from_origin(x: f64, y: f64, z: f64) -> Ray<Real> {
    Ray::new(Vec3::origin(), vec3(x, y, z))
}

fn small_sphere() -> Sphere<Real> {
    Sphere::new(vec3(0.0, 0.0, -1.0), Real(0.5))
}

fn close(a: Real, b: f64) -> bool {
    (a.0 - b).abs() < 1e-12
}

/// The background color behind a direction of unit length whose height is `y`.
fn sky(y: f64) -> (f64, f64, f64) {
    let a = 0.5 * (y + 1.0);
    ((1.0 - a) + a * 0.5, (1.0 - a) + a * 0.7, (1.0 - a) + a)
}

#[test]
fn test_hit_record() {
    let mut hr = HitRecord::new(vec3(1.0, 1.0, 1.0), None, Real(1.5));
    assert_eq!(
        hr,
        HitRecord {
            p: vec3(1.0, 1.0, 1.0),
            normal: None,
            t: Real(1.5),
            front_face: None,
        }
    );

    let ray = Ray::new(Vec3::origin(), vec3(1.0, 1.0, 1.0));
    hr.set_face_normal(&ray, vec3(-1.0, -1.0, -1.0));
    assert!(hr.front_face.unwrap_or(false));
    assert_eq!(hr.normal().unwrap(), vec3(-1.0, -1.0, -1.0));

    hr.set_face_normal(&ray, vec3(2.0, 2.0, 2.0));
    assert!(!hr.front_face.unwrap_or(false));
    assert_eq!(hr.normal().unwrap(), vec3(-2.0, -2.0, -2.0));
}

#[test]
fn set_face_normal_keeps_point_and_parameter() {
    let mut hr = HitRecord::new(vec3(1.0, 2.0, 3.0), None, Real(1.5));
    hr.set_face_normal(&from_origin(0.0, 0.0, -1.0), vec3(0.0, 0.0, 1.0));
    assert_eq!(hr.p, vec3(1.0, 2.0, 3.0));
    assert_eq!(hr.t, Real(1.5));
    assert_eq!(hr.front_face, Some(true));
}

#[test]
fn a_normal_across_the_ray_counts_as_the_back() {
    // the dot product is zero, which is not below zero
    let mut hr = HitRecord::new(vec3(0.0, 0.0, 0.0), None, Real(1.0));
    hr.set_face_normal(&from_origin(1.0, 0.0, 0.0), vec3(0.0, 1.0, 0.0));
    assert_eq!(hr.front_face, Some(false));
    assert_eq!(hr.normal().unwrap(), vec3(0.0, -1.0, 0.0));
}

#[test]
fn test_hit_table_list() {
    let mut world = HitTableList::new();
    assert_eq!(world.len(), 0);
    world.add(Rc::new(Sphere::new(vec3(0.0, 0.0, -1.0), Real(0.5))));
    assert_eq!(world.len(), 1);

    // The sphere lies behind this ray: the line meets it at about -0.146 and -0.051,
    // and neither lies between 1 and 3.
    let (hit, hr) = world.hit(&from_origin(1.0, 1.0, 10.0), &interval(1.0, 3.0));
    assert!(!hit);
    assert!(hr.is_none());

    // This one meets it at 0.5 and 1.5, and the second lies between 1 and 3.
    let (hit, hr) = world.hit(&from_origin(0.0, 0.0, -1.0), &interval(1.0, 3.0));
    assert!(hit);
    assert!(hr.is_some());

    world.clear();
    assert_eq!(world.len(), 0);
}

#[test]
fn an_empty_list_is_never_hit() {
    let mut world: HitTableList<Real> = HitTableList::new();
    let everything = interval(f64::NEG_INFINITY, f64::INFINITY);
    for ray in [
        from_origin(0.0, 0.0, -1.0),
        from_origin(1.0, 1.0, 10.0),
        from_origin(-1.0, -1.0, -1.0),
    ] {
        assert_eq!(world.hit(&ray, &everything), (false, None));
    }

    world.add(Rc::new(small_sphere()));
    let (hit, _) = world.hit(&from_origin(0.0, 0.0, -1.0), &everything);
    assert!(hit);

    world.clear();
    for ray in [from_origin(0.0, 0.0, -1.0), from_origin(1.0, 1.0, 10.0)] {
        assert_eq!(world.hit(&ray, &everything), (false, None));
    }
}

#[test]
fn a_list_of_one_sphere_is_hit_as_the_sphere_is() {
    let mut world = HitTableList::new();
    world.add(Rc::new(small_sphere()));
    let sphere = small_sphere();
    let rays = [
        from_origin(0.0, 0.0, -1.0),
        from_origin(0.1, 0.2, -1.0),
        from_origin(1.0, 1.0, 10.0),
        from_origin(-1.0, -1.0, -1.0),
        from_origin(0.0, 1.0, 0.0),
    ];
    let ranges = [interval(0.0, f64::INFINITY), interval(1.0, 3.0), interval(0.5, 1.5)];
    for ray in &rays {
        for range in &ranges {
            assert_eq!(world.hit(ray, range), sphere.hit(ray, range));
        }
    }
}

#[test]
fn the_list_returns_the_nearest_member() {
    let near: Rc<dyn HitTable<Real>> = Rc::new(Sphere::new(vec3(0.0, 0.0, -2.0), Real(0.5)));
    let far: Rc<dyn HitTable<Real>> = Rc::new(Sphere::new(vec3(0.0, 0.0, -5.0), Real(0.5)));
    let ray = from_origin(0.0, 0.0, -1.0);
    let range = interval(0.0, f64::INFINITY);

    let mut world = HitTableList::new();
    world.add(far.clone());
    world.add(near.clone());
    let (hit, hr) = world.hit(&ray, &range);
    assert!(hit);
    assert_eq!(hr.unwrap().t, Real(1.5));

    // in the other order the far sphere is tested only up to 1.5, and is missed
    let mut world = HitTableList::new();
    world.add(near);
    world.add(far);
    let (hit, hr) = world.hit(&ray, &range);
    assert!(hit);
    let hr = hr.unwrap();
    assert_eq!(hr.t, Real(1.5));
    assert_eq!(hr.p, vec3(0.0, 0.0, -1.5));
}

#[test]
fn a_list_can_hold_a_list() {
    let mut inner = HitTableList::new();
    inner.add(Rc::new(small_sphere()));
    let mut outer: HitTableList<Real> = HitTableList::new();
    outer.add(Rc::new(inner));
    let ray = from_origin(0.0, 0.0, -1.0);
    let range = interval(0.0, f64::INFINITY);
    assert_eq!(outer.hit(&ray, &range), small_sphere().hit(&ray, &range));
}

#[test]
fn test_sphere_functionality() {
    let s = Sphere::new(vec3(0.0, 0.0, -1.0), Real(0.5));
    assert_eq!(s.center(), vec3(0.0, 0.0, -1.0));
    assert_eq!(s.radius(), Real(0.5));
    assert_eq!(s.r_squared(), Real(0.25));
    assert_eq!(s, Sphere::new(vec3(0.0, 0.0, -1.0), Real(0.5)));

    // The sphere lies behind this ray: the line meets it at about -0.146 and -0.051,
    // and neither lies between 1 and 3.
    let (hit, hr) = s.hit(&from_origin(1.0, 1.0, 10.0), &interval(1.0, 3.0));
    assert!(!hit);
    assert!(hr.is_none());

    // hit
    let (hit, hr) = s.hit(&from_origin(0.0, 0.0, -1.0), &interval(1.0, 3.0));
    assert!(hit);
    assert!(hr.is_some());

    // miss
    let (miss, hm) = s.hit(&from_origin(-1.0, -1.0, -1.0), &interval(1.0, 3.0));
    assert!(!miss);
    assert!(hm.is_none());
}

#[test]
fn the_sphere_is_hit_at_the_nearer_solution() {
    let (hit, hr) = small_sphere().hit(&from_origin(0.0, 0.0, -1.0), &interval(0.0, f64::INFINITY));
    assert!(hit);
    assert_eq!(
        hr.unwrap(),
        HitRecord {
            p: vec3(0.0, 0.0, -0.5),
            normal: Some(vec3(0.0, 0.0, 1.0)),
            t: Real(0.5),
            front_face: Some(true),
        }
    );
}

#[test]
fn from_inside_the_sphere_is_hit_at_the_farther_solution() {
    let ray = Ray::new(vec3(0.0, 0.0, -1.0), vec3(0.0, 0.0, -1.0));
    let (hit, hr) = small_sphere().hit(&ray, &interval(0.0, f64::INFINITY));
    assert!(hit);
    assert_eq!(
        hr.unwrap(),
        HitRecord {
            p: vec3(0.0, 0.0, -1.5),
            normal: Some(vec3(0.0, 0.0, 1.0)),
            t: Real(0.5),
            front_face: Some(false),
        }
    );
}

#[test]
fn a_solution_on_a_bound_does_not_count() {
    let sphere = small_sphere();
    let ray = from_origin(0.0, 0.0, -1.0);
    // 0.5 is the lower bound: the farther solution, 1.5, is the hit
    let (hit, hr) = sphere.hit(&ray, &interval(0.5, 3.0));
    assert!(hit);
    assert_eq!(hr.unwrap().t, Real(1.5));
    // 0.5 and 1.5 are the bounds: no hit
    assert_eq!(sphere.hit(&ray, &interval(0.5, 1.5)), (false, None));
    // 1.5 is the upper bound, and 0.5 lies below the range
    assert_eq!(sphere.hit(&ray, &interval(1.0, 1.5)), (false, None));
}

#[test]
fn the_length_of_the_direction_does_not_move_the_hit() {
    let (hit, hr) = small_sphere().hit(&from_origin(0.0, 0.0, -4.0), &interval(0.0, f64::INFINITY));
    assert!(hit);
    let hr = hr.unwrap();
    assert_eq!(hr.t, Real(0.125));
    assert_eq!(hr.p, vec3(0.0, 0.0, -0.5));
}

#[test]
fn a_hit_lies_on_the_ray_and_within_the_range() {
    let sphere = small_sphere();
    let range = interval(0.0, f64::INFINITY);
    for (x, y) in [(0.0, 0.0), (0.1, 0.2), (-0.3, 0.1), (0.2, -0.35)] {
        let ray = from_origin(x, y, -1.0);
        let (hit, hr) = sphere.hit(&ray, &range);
        assert!(hit);
        let hr = hr.unwrap();
        assert!(range.contains(hr.t));
        assert_eq!(hr.p, ray.at(hr.t));
        assert!(hr.normal.is_some() && hr.front_face.is_some());
    }
}

#[test]
fn test_creating_camera() {
    let camera = Camera::new(400, Real(16.0 / 9.0));
    assert_eq!(camera.image_width(), 400);
    assert_eq!(camera.image_height(), 225);
    assert_eq!(camera.center(), Vec3::origin());

    let pixel00_loc = camera.pixel00_loc();
    assert_eq!(pixel00_loc.x().0.round(), -2.0);
    assert_eq!(pixel00_loc.y().0.round(), 1.0);
    assert_eq!(pixel00_loc.z().0.round(), -1.0);
}

#[test]
fn the_camera_steps_by_the_realized_ratio() {
    let camera = Camera::new(400, Real(16.0 / 9.0));
    let viewport_width = 2.0 * (400.0 / 225.0);
    assert_eq!(camera.pixel_delta_u(), vec3(viewport_width / 400.0, 0.0, 0.0));
    assert_eq!(camera.pixel_delta_v(), vec3(0.0, -2.0 / 225.0, 0.0));
    let du = viewport_width / 400.0;
    let dv = -2.0 / 225.0;
    assert_eq!(
        camera.pixel00_loc(),
        vec3(
            0.0 - 0.0 - viewport_width / 2.0 - 0.0 + (du + 0.0) * 0.5,
            0.0 - 0.0 - 0.0 - (-2.0 / 2.0) + (0.0 + dv) * 0.5,
            0.0 - 1.0 - 0.0 - 0.0 + 0.0,
        )
    );

    // 300 / 1.7 is 176.47: the picture has 176 rows, and the viewport follows them
    let camera = Camera::new(300, Real(1.7));
    assert_eq!(camera.image_height(), 176);
    assert_eq!(camera.pixel_delta_u().x(), Real(2.0 * (300.0 / 176.0) / 300.0));
}

#[test]
fn a_picture_has_at_least_one_row() {
    assert_eq!(Camera::new(1, Real(16.0 / 9.0)).image_height(), 1);
    assert_eq!(Camera::new(10, Real(100.0)).image_height(), 1);
    assert_eq!(Camera::new(10, Real(-2.0)).image_height(), 1);
    assert_eq!(Camera::new(10, Real(2.0)).image_height(), 5);
}

#[test]
fn the_ray_of_a_pixel_goes_through_its_middle() {
    let camera = Camera::new(400, Real(16.0 / 9.0));
    let ray = camera.pixel_ray(0, 0);
    assert_eq!(ray.origin(), Vec3::origin());
    assert_eq!(ray.direction(), camera.pixel00_loc() - camera.center());

    let ray = camera.pixel_ray(3, 7);
    let center: Point3<Real> = camera.pixel00_loc()
        + camera.pixel_delta_u() * Real(3.0)
        + camera.pixel_delta_v() * Real(7.0);
    assert_eq!(ray.direction(), center - camera.center());
}

#[test]
fn a_ray_that_misses_brings_back_the_sky() {
    let world: HitTableList<Real> = HitTableList::new();
    // straight up: all sky blue
    assert_eq!(ray_color(&from_origin(0.0, 2.0, 0.0), &world), vec3(0.5, 0.7, 1.0));
    // straight down: all white
    assert_eq!(ray_color(&from_origin(0.0, -3.0, 0.0), &world), vec3(1.0, 1.0, 1.0));
    // level: half and half
    let (r, g, b) = sky(0.0);
    assert_eq!(ray_color(&from_origin(0.0, 0.0, -1.0), &world), vec3(r, g, b));
    assert_eq!((r, g, b), (0.75, 0.85, 1.0));
}

#[test]
fn a_ray_that_hits_brings_back_the_shade_of_the_normal() {
    let mut world = HitTableList::new();
    world.add(Rc::new(small_sphere()));
    // the normal is (0, 0, 1)
    let color: Color<Real> = ray_color(&from_origin(0.0, 0.0, -1.0), &world);
    assert_eq!(color, vec3(0.5, 0.5, 1.0));
    // through a single sphere, without a list around it
    assert_eq!(ray_color(&from_origin(0.0, 0.0, -1.0), &small_sphere()), vec3(0.5, 0.5, 1.0));
    // a sphere behind the camera is not seen
    assert_eq!(ray_color(&from_origin(0.0, 0.0, 1.0), &world), {
        let (r, g, b) = sky(0.0);
        vec3(r, g, b)
    });
}

#[test]
fn the_picture_goes_row_by_row_from_the_top() {
    let mut world = HitTableList::new();
    world.add(Rc::new(Sphere::new(vec3(0.0, 0.0, -1.0), Real(0.5))));
    world.add(Rc::new(Sphere::new(vec3(0.0, -100.5, -1.0), Real(100.0))));
    let camera = Camera::new(400, Real(16.0 / 9.0));

    let pixels = camera.render(&world).unwrap();
    assert_eq!(pixels.len(), 400 * 225);

    let range = interval(0.0, f64::INFINITY);
    let mut hits = 0;
    let mut misses = 0;
    for j in 0..225 {
        for i in 0..400 {
            let ray = camera.pixel_ray(i, j);
            let pixel = pixels[(j * 400 + i) as usize];
            assert_eq!(camera.pixel_color(i, j, &world), Some(pixel));
            match world.hit(&ray, &range) {
                (true, Some(rec)) => {
                    hits += 1;
                    let n = rec.normal().unwrap();
                    assert_eq!(
                        pixel,
                        vec3(0.5 * (n.x().0 + 1.0), 0.5 * (n.y().0 + 1.0), 0.5 * (n.z().0 + 1.0))
                    );
                }
                (false, None) => {
                    misses += 1;
                    let d = ray.direction();
                    let length = (d.x().0 * d.x().0 + d.y().0 * d.y().0 + d.z().0 * d.z().0).sqrt();
                    let (r, g, b) = sky(d.y().0 / length);
                    assert_eq!(pixel, vec3(r, g, b));
                }
                other => panic!("flag and record disagree: {:?}", other),
            }
        }
    }
    assert!(hits > 0 && misses > 0);
    assert_eq!(hits + misses, 400 * 225);

    // the upper left corner is sky, the middle is the small sphere, the bottom is ground
    let corner = pixels[0];
    assert!(close(corner.z(), 1.0) && corner.x().0 < 0.75 && corner.x().0 < corner.y().0);
    let middle = pixels[112 * 400 + 200];
    assert!((middle.x().0 - 0.5).abs() < 0.01 && (middle.y().0 - 0.5).abs() < 0.01);
    assert!(middle.z().0 > 0.99);
    let bottom = pixels[224 * 400 + 200];
    assert!((bottom.x().0 - 0.5).abs() < 0.01 && bottom.y().0 > 0.99);
}

#[test]
fn a_picture_without_columns_is_empty() {
    let world: HitTableList<Real> = HitTableList::new();
    assert_eq!(Camera::new(0, Real(2.0)).render(&world), Some(vec![]));
    assert_eq!(Camera::new(-3, Real(2.0)).render(&world), Some(vec![]));
}

#[test]
fn a_small_picture_of_nothing_is_all_sky() {
    let world: HitTableList<Real> = HitTableList::new();
    let camera = Camera::new(4, Real(2.0));
    assert_eq!(camera.image_height(), 2);
    let pixels = camera.render(&world).unwrap();
    assert_eq!(pixels.len(), 8);
    // the upper row is bluer than the lower one, and a row is the same left and right
    for i in 0..4 {
        assert!(pixels[i].x().0 < pixels[4 + i].x().0);
        assert_eq!(pixels[i].y(), pixels[3 - i].y());
    }
}

/// A number type with a single value, so that every vector has length zero.
#[derive(Clone, Copy, Debug, PartialEq)]
struct Nought;

impl Scalar for Nought {
    fn add(self, _rhs: Self) -> Self {
        Nought
    }

    fn sub(self, _rhs: Self) -> Self {
        Nought
    }

    fn mul(self, _rhs: Self) -> Self {
        Nought
    }

    fn div(self, _rhs: Self) -> Self {
        Nought
    }

    fn neg(self) -> Self {
        Nought
    }

    fn sqrt(self) -> Self {
        Nought
    }

    fn lt(self, _rhs: Self) -> bool {
        false
    }

    fn le(self, _rhs: Self) -> bool {
        true
    }

    fn eq(self, _rhs: Self) -> bool {
        true
    }

    fn from_i32(_n: i32) -> Self {
        Nought
    }

    fn to_i32(self) -> i32 {
        0
    }

    fn infinity() -> Self {
        Nought
    }
}

#[test]
fn there_is_no_picture_where_a_ray_has_no_direction() {
    let world: HitTableList<Nought> = HitTableList::new();
    let camera = Camera::new(2, Nought);
    assert_eq!(camera.image_height(), 1);
    assert!(!camera.pixel_ray(0, 0).direction().is_normalizable());
    assert_eq!(camera.pixel_color(0, 0, &world), None);
    assert_eq!(camera.render(&world), None);
    // without a pixel there is no such ray
    assert_eq!(Camera::new(0, Nought).render(&world), Some(vec![]));
}

#[test]
fn a_scene_can_be_handed_over_as_any_object() {
    let mut list = HitTableList::new();
    list.add(Rc::new(small_sphere()));
    let world: &dyn HitTable<Real> = &list;
    assert_eq!(ray_color(&from_origin(0.0, 0.0, -1.0), world), vec3(0.5, 0.5, 1.0));
    let camera = Camera::new(8, Real(2.0));
    assert_eq!(camera.render(world), camera.render(&list));
    assert_eq!(camera.render(world).unwrap().len(), 32);
}

#[test]
fn colors_go_to_whole_numbers() {
    assert_eq!(vec3(0.5, 0.7, 1.0).to_rgb(), (127, 179, 255));
    assert_eq!(vec3(0.0, 0.25, 0.999).to_rgb(), (0, 63, 255));
    // what lies outside 0 to 1 is not brought back into it
    assert_eq!(vec3(-0.5, 2.0, 1.0).to_rgb(), (-127, 511, 255));
}
