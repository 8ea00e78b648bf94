//! Planes.

use crate::exact::ExactPlane;
use crate::scalar::Scalar;
use vstd::prelude::*;

verus! {

/// A homogeneous plane: normal `(x, y, z)` and offset `w`. The coefficients
/// are stored as given; no normal length is enforced.
#[derive(Clone, Copy, Debug, PartialEq, Eq, Structural)]
pub struct Plane {
    pub x: Scalar,
    pub y: Scalar,
    pub z: Scalar,
    pub w: Scalar,
}

impl View for Plane {
    type V = ExactPlane;

    open spec fn view(&self) -> ExactPlane {
        ExactPlane { x: self.x@, y: self.y@, z: self.z@, w: self.w@ }
    }
}

impl Plane {
    /// Every coordinate is a valid scalar.
    pub open spec fn is_valid(self) -> bool {
        self.x.is_valid()
            && self.y.is_valid()
            && self.z.is_valid()
            && self.w.is_valid()
    }

    /// The plane stored for the exact coefficients `e`, each divided by `d`.
    pub open spec fn of(e: ExactPlane, d: int) -> Plane {
        Plane {
            x: Scalar::of(e.x, d),
            y: Scalar::of(e.y, d),
            z: Scalar::of(e.z, d),
            w: Scalar::of(e.w, d),
        }
    }

    /// The plane with the given coefficients.
    pub fn new(x: Scalar, y: Scalar, z: Scalar, w: Scalar) -> (r: Plane)
        ensures
            r == (Plane { x, y, z, w }),
    {
        Plane { x, y, z, w }
    }
}

} // verus!
