//! Lines.

use crate::exact::ExactLine;
use crate::plane::Plane;
use crate::point::Point;
use crate::scalar::{prod, Scalar, ONE_RAW};
use vstd::prelude::*;

verus! {

/// A line in Pluecker form: direction `(vx, vy, vz)` and moment
/// `(mx, my, mz)`. The constructor stores any six numbers; lines made by
/// joining points have a moment perpendicular to their direction.
#[derive(Clone, Copy, Debug, PartialEq, Eq, Structural)]
pub struct Line {
    pub vx: Scalar,
    pub vy: Scalar,
    pub vz: Scalar,
    pub mx: Scalar,
    pub my: Scalar,
    pub mz: Scalar,
}

impl View for Line {
    type V = ExactLine;

    open spec fn view(&self) -> ExactLine {
        ExactLine {
            vx: self.vx@,
            vy: self.vy@,
            vz: self.vz@,
            mx: self.mx@,
            my: self.my@,
            mz: self.mz@,
        }
    }
}

impl Line {
    /// Every coordinate is a valid scalar.
    pub open spec fn is_valid(self) -> bool {
        self.vx.is_valid()
            && self.vy.is_valid()
            && self.vz.is_valid()
            && self.mx.is_valid()
            && self.my.is_valid()
            && self.mz.is_valid()
    }

    /// The line stored for the exact coordinates `e`, each divided by `d`.
    pub open spec fn of(e: ExactLine, d: int) -> Line {
        Line {
            vx: Scalar::of(e.vx, d),
            vy: Scalar::of(e.vy, d),
            vz: Scalar::of(e.vz, d),
            mx: Scalar::of(e.mx, d),
            my: Scalar::of(e.my, d),
            mz: Scalar::of(e.mz, d),
        }
    }

    /// What [`Line::join`] returns.
    pub open spec fn spec_join(self, rhs: Point) -> Plane {
        Plane::of(self@.join(rhs@), ONE_RAW as int)
    }

    /// What [`Line::expand`] returns.
    pub open spec fn spec_expand(self, rhs: Plane) -> Plane {
        Plane::of(self@.expand(rhs@), ONE_RAW as int)
    }

    /// The line with the given direction and moment.
    pub fn new(vx: Scalar, vy: Scalar, vz: Scalar, mx: Scalar, my: Scalar, mz: Scalar) -> (r: Line)
        ensures
            r == (Line { vx, vy, vz, mx, my, mz }),
    {
        Line { vx, vy, vz, mx, my, mz }
    }

    /// The plane through this line and the point `rhs`; the zero plane when
    /// the point lies on the line.
    #[verifier::when_used_as_spec(spec_join)]
    pub fn join(self, rhs: Point) -> (r: Plane)
        ensures
            r == self.spec_join(rhs),
    {
        let one: i128 = ONE_RAW as i128;
        Plane::new(
            Scalar::from_ratio(
                prod(self.vy, rhs.z) - prod(self.vz, rhs.y) + prod(self.mx, rhs.w),
                one,
            ),
            Scalar::from_ratio(
                prod(self.vz, rhs.x) - prod(self.vx, rhs.z) + prod(self.my, rhs.w),
                one,
            ),
            Scalar::from_ratio(
                prod(self.vx, rhs.y) - prod(self.vy, rhs.x) + prod(self.mz, rhs.w),
                one,
            ),
            Scalar::from_ratio(
                -(prod(self.mx, rhs.x) + prod(self.my, rhs.y) + prod(self.mz, rhs.z)),
                one,
            ),
        )
    }

    /// What this line and the plane `rhs` have in common: the four
    /// coordinates of the point where the line meets the plane, held as a
    /// plane. They are all zero exactly when the line lies in the plane.
    #[verifier::when_used_as_spec(spec_expand)]
    pub fn expand(self, rhs: Plane) -> (r: Plane)
        ensures
            r == self.spec_expand(rhs),
    {
        let one: i128 = ONE_RAW as i128;
        Plane::new(
            Scalar::from_ratio(
                prod(rhs.y, self.mz) - prod(rhs.z, self.my) - prod(rhs.w, self.vx),
                one,
            ),
            Scalar::from_ratio(
                prod(rhs.z, self.mx) - prod(rhs.x, self.mz) - prod(rhs.w, self.vy),
                one,
            ),
            Scalar::from_ratio(
                prod(rhs.x, self.my) - prod(rhs.y, self.mx) - prod(rhs.w, self.vz),
                one,
            ),
            Scalar::from_ratio(
                prod(rhs.x, self.vx) + prod(rhs.y, self.vy) + prod(rhs.z, self.vz),
                one,
            ),
        )
    }
}

} // verus!
