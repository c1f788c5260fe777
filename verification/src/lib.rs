//! A ray caster: one ray per pixel, from a fixed viewpoint through a viewport into a
//! scene of spheres, each ray shaded by where it strikes the scene.
//!
//! # Scalars
//!
//! The geometry is written over any number type that implements [`scalar::Scalar`]. A
//! contract names the value that an operation of that type returns (see
//! [`scalar::ScalarSpec`]) and so says which operations a function composes, and how;
//! it never says what the arithmetic adds up to, since a number type may round.
//!
//! A name for "the value that `a.add(b)` returns" means something only where there is
//! one such value. So what a contract says of computed values holds for the types that
//! are [`scalar::deterministic`], and is stated with that condition in front. What
//! depends on the order of the scalars is stated for the types that are
//! [`scalar::ordered`] as well.
//!
//! # Modules
//!
//! - [`scalar`]: the number type, and the names for what its operations return.
//! - [`vec3`]: vectors of three scalars, used as points, directions and colors.
//! - [`ray`]: rays, and the point of a ray at a parameter.
//! - [`interval`]: ranges of ray parameters.
//! - [`hittable`]: hit records, the objects a ray can hit, and lists of them.
//! - [`sphere`]: the sphere, and the solution of its equation that counts as the hit.
//! - [`camera`]: the viewport, the ray through each pixel, its color, and the picture.
//! - [`color`]: colors as whole numbers.

pub mod scalar;
pub mod vec3;
pub mod ray;
pub mod interval;
pub mod hittable;
pub mod sphere;
pub mod camera;
pub mod color;
