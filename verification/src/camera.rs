//! The camera: where the viewport lies, which ray goes through which pixel, and what
//! color a ray brings back.

use crate::hittable::HitTable;
use crate::interval::Interval;
use crate::ray::Ray;
use crate::scalar::{deterministic, ratio, ratio_of, Scalar, ScalarSpec};
use crate::vec3::{Color, Point3, Vec3};
use vstd::prelude::*;

verus! {

/// A camera at the origin that looks along the negative z axis, with the viewport one
/// unit in front of it. Everything is computed once, when the camera is made.
#[derive(Debug)]
pub struct Camera<T: Scalar> {
    image_width: i32,
    image_height: i32,
    center: Point3<T>,
    pixel00_loc: Point3<T>,
    pixel_delta_u: Vec3<T>,
    pixel_delta_v: Vec3<T>,
}

/// The color of the sky at the top of the picture's gradient: `(0.5, 0.7, 1.0)`.
pub open spec fn sky_blue<T: Scalar>() -> Color<T> {
    Vec3 { x: ratio::<T>(1, 2), y: ratio::<T>(7, 10), z: T::whole(1) }
}

/// White, and the vector that is added to a normal to shade it: `(1, 1, 1)`.
pub open spec fn white<T: Scalar>() -> Color<T> {
    Vec3 { x: T::whole(1), y: T::whole(1), z: T::whole(1) }
}

/// The range of parameters at which a ray from the camera can hit: from zero on.
pub open spec fn visible<T: Scalar>() -> Interval<T> {
    Interval { min: T::whole(0), max: T::unbounded() }
}

/// The shade of a surface whose normal is `normal`: `0.5 * (normal + (1, 1, 1))`, which
/// takes each component from between -1 and 1 to between 0 and 1.
pub open spec fn normal_shade<T: Scalar>(normal: Vec3<T>) -> Color<T> {
    normal.plus(white::<T>()).scaled(ratio::<T>(1, 2))
}

/// The color of the background behind a ray that goes along `direction`: with
/// `a = 0.5 * (y + 1)` for the `y` of the unit vector of the direction, the blend
/// `(1 - a) * white + a * sky_blue`.
pub open spec fn background<T: Scalar>(direction: Vec3<T>) -> Color<T> {
    let a = ratio::<T>(1, 2).times(direction.spec_unit_vector().y.plus(T::whole(1)));
    white::<T>().scaled(T::whole(1).minus(a)).plus(sky_blue::<T>().scaled(a))
}

/// The color that the ray `r` brings back from `world`: the shade of the normal where
/// it hits something at a parameter from zero on, the background where it does not.
pub open spec fn spec_ray_color<T: Scalar, W: HitTable<T> + ?Sized>(r: Ray<T>, world: &W) -> Color<
    T,
> {
    match world.spec_hit(r, visible::<T>()) {
        Some(rec) => normal_shade(rec.normal.unwrap()),
        None => background(r.direction),
    }
}

/// Computes the color that the ray `r` brings back from `world`. A ray whose direction
/// has no length is not accepted.
pub fn ray_color<T: Scalar, W: HitTable<T> + ?Sized>(r: &Ray<T>, world: &W) -> (out: Color<T>)
    requires
        deterministic::<T>() ==> r.direction.has_length(),
    ensures
        deterministic::<T>() ==> out == spec_ray_color(*r, world),
{
    let one = T::from_i32(1);
    let half: T = ratio_of(1, 2);
    let white = Vec3::new(one, one, one);
    if let (true, Some(rec)) = world.hit(r, &Interval::new(T::from_i32(0), T::infinity())) {
        return (rec.normal().unwrap() + white) * half;
    }
    let unit_direction = r.direction().unit_vector();
    let a = half.mul(unit_direction.y().add(one));
    white * one.sub(a) + Vec3::new(half, ratio_of(7, 10), one) * a
}

impl<T: Scalar> Camera<T> {
    #[verifier::type_invariant]
    spec fn inv(self) -> bool {
        self.image_height >= 1
    }

    pub closed spec fn spec_image_width(self) -> i32 {
        self.image_width
    }

    pub closed spec fn spec_image_height(self) -> i32 {
        self.image_height
    }

    pub closed spec fn spec_center(self) -> Point3<T> {
        self.center
    }

    pub closed spec fn spec_pixel00_loc(self) -> Point3<T> {
        self.pixel00_loc
    }

    pub closed spec fn spec_pixel_delta_u(self) -> Vec3<T> {
        self.pixel_delta_u
    }

    pub closed spec fn spec_pixel_delta_v(self) -> Vec3<T> {
        self.pixel_delta_v
    }

    /// The number of rows for a picture of `image_width` columns: the whole part of
    /// `image_width / aspect_ratio`, and 1 where that would be less.
    pub open spec fn height_for(image_width: i32, aspect_ratio: T) -> i32 {
        let rows = T::whole(image_width).over(aspect_ratio).truncated();
        if rows >= 1 {
            rows
        } else {
            1
        }
    }

    /// The height of the viewport, which is fixed.
    pub open spec fn viewport_height() -> T {
        T::whole(2)
    }

    /// The width of the viewport: its height times the ratio of the picture's columns
    /// to its rows. The rows are a whole number, so this ratio may differ a little from
    /// the aspect ratio that was asked for.
    pub open spec fn viewport_width(image_width: i32, image_height: i32) -> T {
        Self::viewport_height().times(
            T::whole(image_width).over(T::whole(image_height)),
        )
    }

    /// The vector along the viewport's upper edge, from left to right.
    pub open spec fn viewport_u(image_width: i32, image_height: i32) -> Vec3<T> {
        Vec3 { x: Self::viewport_width(image_width, image_height), y: T::whole(0), z: T::whole(0) }
    }

    /// The vector along the viewport's left edge, from top to bottom: it points down,
    /// since the rows of a picture are counted downwards.
    pub open spec fn viewport_v() -> Vec3<T> {
        Vec3 { x: T::whole(0), y: Self::viewport_height().negated(), z: T::whole(0) }
    }

    /// The step from one pixel to the next in its row.
    pub open spec fn delta_u(image_width: i32, image_height: i32) -> Vec3<T> {
        Self::viewport_u(image_width, image_height).divided(T::whole(image_width))
    }

    /// The step from one pixel to the one below it.
    pub open spec fn delta_v(image_height: i32) -> Vec3<T> {
        Self::viewport_v().divided(T::whole(image_height))
    }

    /// The viewport's upper left corner: one focal length, which is 1, in front of the
    /// center, then half the viewport to the left and half of it up.
    pub open spec fn upper_left(image_width: i32, image_height: i32) -> Point3<T> {
        Vec3::<T>::zero().minus(Vec3 { x: T::whole(0), y: T::whole(0), z: T::whole(1) }).minus(
            Self::viewport_u(image_width, image_height).divided(T::whole(2)),
        ).minus(Self::viewport_v().divided(T::whole(2)))
    }

    /// The middle of the pixel in the upper left corner: half a step along and half a
    /// step down from the viewport's corner.
    pub open spec fn first_pixel(image_width: i32, image_height: i32) -> Point3<T> {
        Self::upper_left(image_width, image_height).plus(
            Self::delta_u(image_width, image_height).plus(Self::delta_v(image_height)).scaled(
                ratio::<T>(1, 2),
            ),
        )
    }

    /// The middle of the pixel in column `i` of row `j`.
    pub open spec fn pixel_center(self, i: i32, j: i32) -> Point3<T> {
        self.spec_pixel00_loc().plus(self.spec_pixel_delta_u().scaled(T::whole(i))).plus(
            self.spec_pixel_delta_v().scaled(T::whole(j)),
        )
    }

    /// The ray from the camera's center through the middle of the pixel in column `i`
    /// of row `j`.
    pub open spec fn spec_pixel_ray(self, i: i32, j: i32) -> Ray<T> {
        Ray {
            origin: self.spec_center(),
            direction: self.pixel_center(i, j).minus(self.spec_center()),
        }
    }

    /// Whether column `i` of row `j` is a pixel of the picture.
    pub open spec fn has_pixel(self, i: i32, j: i32) -> bool {
        0 <= i < self.spec_image_width() && 0 <= j < self.spec_image_height()
    }

    /// The number of pixels of the picture.
    pub open spec fn pixel_count(self) -> int {
        if self.spec_image_width() > 0 {
            self.spec_image_width() * self.spec_image_height()
        } else {
            0
        }
    }

    /// The place of the pixel in column `i` of row `j` in the picture, which goes row by
    /// row from the top, and from left to right within a row.
    pub open spec fn pixel_index(self, i: i32, j: i32) -> int {
        j * self.spec_image_width() + i
    }

    /// Makes the camera for a picture of `image_width` columns and, as nearly as whole
    /// rows allow, of the given ratio of width to height.
    pub fn new(image_width: i32, aspect_ratio: T) -> (out: Self)
        ensures
            out.spec_image_width() == image_width,
            out.spec_image_height() >= 1,
            deterministic::<T>() ==> {
                &&& out.spec_image_height() == Self::height_for(image_width, aspect_ratio)
                &&& out.spec_center() == Vec3::<T>::zero()
                &&& out.spec_pixel_delta_u() == Self::delta_u(
                    image_width,
                    out.spec_image_height(),
                )
                &&& out.spec_pixel_delta_v() == Self::delta_v(out.spec_image_height())
                &&& out.spec_pixel00_loc() == Self::first_pixel(
                    image_width,
                    out.spec_image_height(),
                )
            },
    {
        let temp = T::from_i32(image_width).div(aspect_ratio).to_i32();
        let image_height = if temp >= 1 {
            temp
        } else {
            1
        };
        let center = Vec3::origin();

        let zero = T::from_i32(0);
        let two = T::from_i32(2);
        let focal_length = T::from_i32(1);
        let viewport_height = two;
        let viewport_width = viewport_height.mul(
            T::from_i32(image_width).div(T::from_i32(image_height)),
        );

        let viewport_u = Vec3::new(viewport_width, zero, zero);
        let viewport_v = Vec3::new(zero, viewport_height.neg(), zero);

        let pixel_delta_u = viewport_u / T::from_i32(image_width);
        let pixel_delta_v = viewport_v / T::from_i32(image_height);

        let viewport_upper_left = center - Vec3::new(zero, zero, focal_length) - viewport_u / two
            - viewport_v / two;
        let pixel00_loc = viewport_upper_left + (pixel_delta_u + pixel_delta_v) * ratio_of::<T>(1, 2);
        Camera { image_width, image_height, center, pixel00_loc, pixel_delta_u, pixel_delta_v }
    }

    pub fn image_width(&self) -> (out: i32)
        ensures
            out == self.spec_image_width(),
    {
        self.image_width
    }

    pub fn image_height(&self) -> (out: i32)
        ensures
            out == self.spec_image_height(),
            out >= 1,
    {
        proof {
            use_type_invariant(self);
        }
        self.image_height
    }

    pub fn center(&self) -> (out: Point3<T>)
        ensures
            out == self.spec_center(),
    {
        self.center
    }

    pub fn pixel00_loc(&self) -> (out: Point3<T>)
        ensures
            out == self.spec_pixel00_loc(),
    {
        self.pixel00_loc
    }

    pub fn pixel_delta_u(&self) -> (out: Vec3<T>)
        ensures
            out == self.spec_pixel_delta_u(),
    {
        self.pixel_delta_u
    }

    pub fn pixel_delta_v(&self) -> (out: Vec3<T>)
        ensures
            out == self.spec_pixel_delta_v(),
    {
        self.pixel_delta_v
    }

    /// The ray from the camera's center through the middle of the pixel in column `i`
    /// of row `j`.
    pub fn pixel_ray(&self, i: i32, j: i32) -> (out: Ray<T>)
        ensures
            deterministic::<T>() ==> out == self.spec_pixel_ray(i, j),
    {
        let pixel_center = self.pixel00_loc + self.pixel_delta_u * T::from_i32(i)
            + self.pixel_delta_v * T::from_i32(j);
        let ray_direction = pixel_center - self.center;
        Ray::new(self.center, ray_direction)
    }

    /// The color of the pixel in column `i` of row `j`: the color that the ray through
    /// its middle brings back from `world`. There is none where that ray's direction
    /// has no length.
    pub open spec fn spec_pixel_color<W: HitTable<T> + ?Sized>(
        self,
        i: i32,
        j: i32,
        world: &W,
    ) -> Option<Color<T>> {
        let r = self.spec_pixel_ray(i, j);
        if r.direction.has_length() {
            Some(spec_ray_color(r, world))
        } else {
            None
        }
    }

    /// Computes the color of the pixel in column `i` of row `j`.
    pub fn pixel_color<W: HitTable<T> + ?Sized>(&self, i: i32, j: i32, world: &W) -> (out: Option<
        Color<T>,
    >)
        ensures
            deterministic::<T>() ==> out == self.spec_pixel_color(i, j, world),
    {
        let r = self.pixel_ray(i, j);
        if r.direction().is_normalizable() {
            Some(ray_color(&r, world))
        } else {
            None
        }
    }

    /// Computes the picture of `world`: the colors of all pixels, row by row from the
    /// top, and from left to right within a row. There is no picture where the ray
    /// through some pixel has a direction without length.
    pub fn render<W: HitTable<T> + ?Sized>(&self, world: &W) -> (out: Option<Vec<Color<T>>>)
        ensures
            out matches Some(pixels) ==> pixels@.len() == self.pixel_count(),
            deterministic::<T>() ==> match out {
                Some(pixels) => forall|i: i32, j: i32|
                    self.has_pixel(i, j) ==> Some(pixels@[#[trigger] self.pixel_index(i, j)])
                        == self.spec_pixel_color(i, j, world),
                None => exists|i: i32, j: i32|
                    self.has_pixel(i, j) && (#[trigger] self.spec_pixel_color(
                        i,
                        j,
                        world,
                    )).is_none(),
            },
    {
        proof {
            use_type_invariant(self);
        }
        let w = self.image_width;
        let h = self.image_height;
        let mut pixels: Vec<Color<T>> = Vec::new();
        if w <= 0 {
            return Some(pixels);
        }
        let mut j: i32 = 0;
        while j < h
            invariant
                w == self.spec_image_width(),
                h == self.spec_image_height(),
                w >= 1,
                0 <= j <= h,
                pixels@.len() == j * w,
                deterministic::<T>() ==> forall|ii: i32, jj: i32|
                    0 <= ii < w && 0 <= jj < j ==> Some(
                        pixels@[#[trigger] self.pixel_index(ii, jj)],
                    ) == self.spec_pixel_color(ii, jj, world),
            decreases h - j,
        {
            let mut i: i32 = 0;
            while i < w
                invariant
                    w == self.spec_image_width(),
                    h == self.spec_image_height(),
                    w >= 1,
                    0 <= j < h,
                    0 <= i <= w,
                    pixels@.len() == j * w + i,
                    deterministic::<T>() ==> forall|ii: i32, jj: i32|
                        0 <= ii < w && (0 <= jj < j || (jj == j && ii < i)) ==> Some(
                            pixels@[#[trigger] self.pixel_index(ii, jj)],
                        ) == self.spec_pixel_color(ii, jj, world),
                decreases w - i,
            {
                let pixel_color = match self.pixel_color(i, j, world) {
                    Some(color) => color,
                    None => {
                        assert(self.has_pixel(i, j));
                        return None;
                    },
                };
                let ghost before = pixels@;
                pixels.push(pixel_color);
                proof {
                    assert forall|ii: i32, jj: i32|
                        deterministic::<T>() && 0 <= ii < w && (0 <= jj < j || (jj == j && ii < i
                            + 1)) implies Some(pixels@[#[trigger] self.pixel_index(ii, jj)])
                        == self.spec_pixel_color(ii, jj, world) by {
                        if jj < j {
                            assert((jj + 1) * w <= j * w) by (nonlinear_arith)
                                requires
                                    jj + 1 <= j,
                                    w >= 0,
                            ;
                            assert((jj + 1) * w == jj * w + w) by (nonlinear_arith);
                            assert(pixels@[self.pixel_index(ii, jj)] == before[self.pixel_index(
                                ii,
                                jj,
                            )]);
                        } else if ii < i {
                            assert(pixels@[self.pixel_index(ii, jj)] == before[self.pixel_index(
                                ii,
                                jj,
                            )]);
                        }
                    }
                }
                i += 1;
            }
            proof {
                assert((j + 1) * w == j * w + w) by (nonlinear_arith);
            }
            j += 1;
        }
        proof {
            assert(h * w == w * h) by (nonlinear_arith);
        }
        Some(pixels)
    }
}

} // verus!
