//! Transforms: motors that compose from right to left.

use crate::exact::ExactMotor;
use crate::motor::Motor;
use crate::point::Point;
use crate::scalar::{Scalar, ONE_RAW};
use vstd::prelude::*;

verus! {

/// A rigid motion with the coordinates of a [`Motor`], whose product takes
/// its factors in the other order: in `a.combine(b)` it is `b` that acts
/// first.
#[derive(Clone, Copy, Debug, PartialEq, Eq, Structural)]
pub struct Transform {
    pub vx: Scalar,
    pub vy: Scalar,
    pub vz: Scalar,
    pub vw: Scalar,
    pub mx: Scalar,
    pub my: Scalar,
    pub mz: Scalar,
    pub mw: Scalar,
}

impl View for Transform {
    type V = ExactMotor;

    open spec fn view(&self) -> ExactMotor {
        ExactMotor {
            vx: self.vx@,
            vy: self.vy@,
            vz: self.vz@,
            vw: self.vw@,
            mx: self.mx@,
            my: self.my@,
            mz: self.mz@,
            mw: self.mw@,
        }
    }
}

impl Transform {
    /// Every coordinate is a valid scalar.
    pub open spec fn is_valid(self) -> bool {
        self.vx.is_valid()
            && self.vy.is_valid()
            && self.vz.is_valid()
            && self.vw.is_valid()
            && self.mx.is_valid()
            && self.my.is_valid()
            && self.mz.is_valid()
            && self.mw.is_valid()
    }

    /// The transform stored for the exact coordinates `e`, each divided by
    /// `d`.
    pub open spec fn of(e: ExactMotor, d: int) -> Transform {
        Transform {
            vx: Scalar::of(e.vx, d),
            vy: Scalar::of(e.vy, d),
            vz: Scalar::of(e.vz, d),
            vw: Scalar::of(e.vw, d),
            mx: Scalar::of(e.mx, d),
            my: Scalar::of(e.my, d),
            mz: Scalar::of(e.mz, d),
            mw: Scalar::of(e.mw, d),
        }
    }

    /// The motor with the same eight coordinates.
    pub open spec fn as_motor(self) -> Motor {
        Motor {
            vx: self.vx,
            vy: self.vy,
            vz: self.vz,
            vw: self.vw,
            mx: self.mx,
            my: self.my,
            mz: self.mz,
            mw: self.mw,
        }
    }

    /// What [`Transform::identity`] returns.
    pub open spec fn spec_identity() -> Transform {
        Transform {
            vx: Scalar { raw: 0 },
            vy: Scalar { raw: 0 },
            vz: Scalar { raw: 0 },
            vw: Scalar { raw: ONE_RAW },
            mx: Scalar { raw: 0 },
            my: Scalar { raw: 0 },
            mz: Scalar { raw: 0 },
            mw: Scalar { raw: 0 },
        }
    }

    /// What [`Transform::combine`] returns.
    pub open spec fn spec_combine(self, other: Transform) -> Transform {
        Transform::of(self@.combine_after(other@), ONE_RAW as int)
    }

    /// What [`Transform::transform`] returns.
    pub open spec fn spec_transform(&self, p: Point) -> Point {
        self.as_motor().spec_transform(p)
    }

    /// The transform that leaves every point where it is:
    /// `(0, 0, 0, 1, 0, 0, 0, 0)`.
    #[verifier::when_used_as_spec(spec_identity)]
    pub fn identity() -> (r: Transform)
        ensures
            r == Transform::spec_identity(),
    {
        let zero = Scalar::zero();
        Transform::new(zero, zero, zero, Scalar::one(), zero, zero, zero, zero)
    }

    /// The transform with the given eight coordinates.
    pub fn new(
        vx: Scalar,
        vy: Scalar,
        vz: Scalar,
        vw: Scalar,
        mx: Scalar,
        my: Scalar,
        mz: Scalar,
        mw: Scalar,
    ) -> (r: Transform)
        ensures
            r == (Transform { vx, vy, vz, vw, mx, my, mz, mw }),
    {
        Transform { vx, vy, vz, vw, mx, my, mz, mw }
    }

    /// The product in which `other` acts first and `self` second: the
    /// motor product of the two, taken in the other order.
    #[verifier::when_used_as_spec(spec_combine)]
    pub fn combine(self, other: Transform) -> (r: Transform)
        ensures
            r == self.spec_combine(other),
    {
        let first = Motor::new(
            other.vx,
            other.vy,
            other.vz,
            other.vw,
            other.mx,
            other.my,
            other.mz,
            other.mw,
        );
        let second = Motor::new(
            self.vx,
            self.vy,
            self.vz,
            self.vw,
            self.mx,
            self.my,
            self.mz,
            self.mw,
        );
        let c = first.combine(second);
        Transform::new(c.vx, c.vy, c.vz, c.vw, c.mx, c.my, c.mz, c.mw)
    }

    /// The image of `p` under the motion, as [`Motor::transform`] gives it
    /// for the same eight coordinates.
    #[verifier::when_used_as_spec(spec_transform)]
    pub fn transform(&self, p: Point) -> (r: Point)
        ensures
            r == self.spec_transform(p),
    {
        Motor::new(self.vx, self.vy, self.vz, self.vw, self.mx, self.my, self.mz, self.mw).transform(
            p,
        )
    }
}

} // verus!
