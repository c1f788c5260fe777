//! Colors as whole numbers, as a picture file holds them.

use crate::scalar::{deterministic, ratio, ratio_of, Scalar, ScalarSpec};
use crate::vec3::Vec3;
use vstd::prelude::*;

verus! {

impl<T: Scalar> Vec3<T> {
    /// The whole number for the intensity `c` of one channel: the whole part of
    /// `255.999 * c`, so that an intensity from 0 to 1 goes to a number from 0 to 255.
    /// An intensity outside that range is not brought back into it.
    pub open spec fn channel(c: T) -> i32 {
        ratio::<T>(255999, 1000).times(c).truncated()
    }

    /// The color as three whole numbers: red, green, blue.
    pub fn to_rgb(&self) -> (out: (i32, i32, i32))
        ensures
            deterministic::<T>() ==> out == (
                Self::channel(self.x),
                Self::channel(self.y),
                Self::channel(self.z),
            ),
    {
        let number: T = ratio_of(255999, 1000);
        let ir = number.mul(self.x).to_i32();
        let ig = number.mul(self.y).to_i32();
        let ib = number.mul(self.z).to_i32();
        (ir, ig, ib)
    }
}

} // verus!
