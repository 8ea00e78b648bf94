//! Angles, given by the sine and cosine of their half.

use crate::scalar::Scalar;
use vstd::prelude::*;

verus! {

/// An angle of rotation, held as the sine and the cosine of half the angle,
/// which is all that a motor needs of it. The two numbers are stored as
/// given: whoever builds an `Angle` answers for `sin_half^2 + cos_half^2`
/// being one.
#[derive(Clone, Copy, Debug, PartialEq, Eq, Structural)]
pub struct Angle {
    pub sin_half: Scalar,
    pub cos_half: Scalar,
}

impl Angle {
    /// The angle whose half has the given sine and cosine.
    pub fn new(sin_half: Scalar, cos_half: Scalar) -> (r: Angle)
        ensures
            r == (Angle { sin_half, cos_half }),
    {
        Angle { sin_half, cos_half }
    }
}

} // verus!
