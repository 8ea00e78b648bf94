//! Points.

use crate::exact::ExactPoint;
use crate::line::Line;
use crate::plane::Plane;
use crate::scalar::{prod, Scalar, ONE_RAW};
use vstd::prelude::*;

verus! {

/// A homogeneous point. A weight `w` of one marks a position, a weight of
/// zero a direction (a point at infinity).
#[derive(Clone, Copy, Debug, PartialEq, Eq, Structural)]
pub struct Point {
    pub x: Scalar,
    pub y: Scalar,
    pub z: Scalar,
    pub w: Scalar,
}

impl View for Point {
    type V = ExactPoint;

    open spec fn view(&self) -> ExactPoint {
        ExactPoint { x: self.x@, y: self.y@, z: self.z@, w: self.w@ }
    }
}

impl Default for Point {
    /// The origin.
    fn default() -> (r: Point)
        ensures
            r == Point::spec_position(0, 0, 0),
    {
        Point::zero()
    }
}

impl Point {
    /// Every coordinate is a valid scalar.
    pub open spec fn is_valid(self) -> bool {
        self.x.is_valid()
            && self.y.is_valid()
            && self.z.is_valid()
            && self.w.is_valid()
    }

    /// The point stored for the exact coordinates `e`, each divided by `d`.
    pub open spec fn of(e: ExactPoint, d: int) -> Point {
        Point {
            x: Scalar::of(e.x, d),
            y: Scalar::of(e.y, d),
            z: Scalar::of(e.z, d),
            w: Scalar::of(e.w, d),
        }
    }

    /// The position with the given whole-number coordinates.
    pub open spec fn spec_position(x: int, y: int, z: int) -> Point {
        Point {
            x: Scalar { raw: (x * ONE_RAW) as i32 },
            y: Scalar { raw: (y * ONE_RAW) as i32 },
            z: Scalar { raw: (z * ONE_RAW) as i32 },
            w: Scalar { raw: ONE_RAW },
        }
    }

    /// What [`Point::join`] returns.
    pub open spec fn spec_join(self, rhs: Point) -> Line {
        Line::of(self@.join(rhs@), ONE_RAW as int)
    }

    /// What [`Point::expand_plane`] returns.
    pub open spec fn spec_expand_plane(self, rhs: Plane) -> Line {
        Line::of(self@.expand_plane(rhs@), ONE_RAW as int)
    }

    /// What [`Point::expand_line`] returns.
    pub open spec fn spec_expand_line(self, rhs: Line) -> Plane {
        Plane::of(self@.expand_line(rhs@), ONE_RAW as int)
    }

    /// What [`Point::dot`] returns.
    pub open spec fn spec_dot(self, rhs: Point) -> Scalar {
        Scalar::of(self@.dot(rhs@), ONE_RAW as int)
    }

    /// What [`Point::antidot`] returns.
    pub open spec fn spec_antidot(self, rhs: Point) -> Scalar {
        Scalar::of(self@.antidot(rhs@), ONE_RAW as int)
    }

    /// What [`Point::magnitude_squared`] returns.
    pub open spec fn spec_magnitude_squared(self) -> Scalar {
        Scalar::of(self@.dot(self@) * ONE_RAW, self@.antidot(self@))
    }

    /// What [`Point::magnitude`] returns.
    pub open spec fn spec_magnitude(self) -> Scalar {
        self.spec_magnitude_squared().spec_sqrt()
    }

    /// What [`Point::scaled`] returns.
    pub open spec fn spec_scaled(&self) -> Point {
        Point::of(self@.times(ONE_RAW as int), self.w@)
    }

    /// What `self + rhs` is.
    pub open spec fn spec_plus(self, rhs: Point) -> Point {
        Point::of(self@.plus(rhs@), ONE_RAW as int)
    }

    /// What `self - rhs` is.
    pub open spec fn spec_minus(self, rhs: Point) -> Point {
        Point::of(self@.minus(rhs@), ONE_RAW as int)
    }

    /// What [`Point::dist`] returns.
    pub open spec fn spec_dist(self, other: Point) -> Scalar {
        other.spec_minus(self).spec_magnitude()
    }

    /// What [`Point::round`] returns.
    pub open spec fn spec_round(self) -> Point {
        Point { x: self.x.spec_round(), y: self.y.spec_round(), z: self.z.spec_round(), w: self.w }
    }

    /// What [`Point::is_finite`] returns.
    pub open spec fn spec_is_finite(&self) -> bool {
        self.w@ != 0
    }

    /// The origin `(0, 0, 0, 1)`.
    pub fn zero() -> (r: Point)
        ensures
            r == Point::spec_position(0, 0, 0),
    {
        Point::new_position(Scalar::from_int(0), Scalar::from_int(0), Scalar::from_int(0))
    }

    /// The position `(0, 1, 0, 1)`.
    pub fn up() -> (r: Point)
        ensures
            r == Point::spec_position(0, 1, 0),
    {
        Point::new_position(Scalar::from_int(0), Scalar::from_int(1), Scalar::from_int(0))
    }

    /// The position `(0, -1, 0, 1)`.
    pub fn down() -> (r: Point)
        ensures
            r == Point::spec_position(0, -1, 0),
    {
        Point::new_position(Scalar::from_int(0), Scalar::from_int(-1), Scalar::from_int(0))
    }

    /// The position `(-1, 0, 0, 1)`.
    pub fn left() -> (r: Point)
        ensures
            r == Point::spec_position(-1, 0, 0),
    {
        Point::new_position(Scalar::from_int(-1), Scalar::from_int(0), Scalar::from_int(0))
    }

    /// The position `(1, 0, 0, 1)`.
    pub fn right() -> (r: Point)
        ensures
            r == Point::spec_position(1, 0, 0),
    {
        Point::new_position(Scalar::from_int(1), Scalar::from_int(0), Scalar::from_int(0))
    }

    /// The position `(0, 0, -1, 1)`.
    pub fn forward() -> (r: Point)
        ensures
            r == Point::spec_position(0, 0, -1),
    {
        Point::new_position(Scalar::from_int(0), Scalar::from_int(0), Scalar::from_int(-1))
    }

    /// The position `(0, 0, 1, 1)`.
    pub fn back() -> (r: Point)
        ensures
            r == Point::spec_position(0, 0, 1),
    {
        Point::new_position(Scalar::from_int(0), Scalar::from_int(0), Scalar::from_int(1))
    }

    /// The point with the given coordinates and weight.
    pub fn new(x: Scalar, y: Scalar, z: Scalar, w: Scalar) -> (r: Point)
        ensures
            r == (Point { x, y, z, w }),
    {
        Point { x, y, z, w }
    }

    /// The position `(x, y, z)`: weight one.
    pub fn new_position(x: Scalar, y: Scalar, z: Scalar) -> (r: Point)
        ensures
            r == (Point { x, y, z, w: Scalar { raw: ONE_RAW } }),
    {
        Point { x, y, z, w: Scalar::one() }
    }

    /// The direction `(x, y, z)`: weight zero.
    pub fn new_direction(x: Scalar, y: Scalar, z: Scalar) -> (r: Point)
        ensures
            r == (Point { x, y, z, w: Scalar { raw: 0 } }),
    {
        Point { x, y, z, w: Scalar::zero() }
    }

    /// The point whose three coordinates are all `v`, with weight `w`.
    pub fn from_val(v: Scalar, w: Scalar) -> (r: Point)
        ensures
            r == (Point { x: v, y: v, z: v, w }),
    {
        Point { x: v, y: v, z: v, w }
    }

    /// The coordinates in the order `x, y, z, w`.
    pub fn into_buffer(&self) -> (r: [Scalar; 4])
        ensures
            r@ == seq![self.x, self.y, self.z, self.w],
    {
        [self.x, self.y, self.z, self.w]
    }

    /// The raw 32-bit words of the coordinates in the order `x, y, z, w`.
    pub fn into_buffer_32(&self) -> (r: [i32; 4])
        ensures
            r@ == seq![self.x.raw, self.y.raw, self.z.raw, self.w.raw],
    {
        [self.x.raw, self.y.raw, self.z.raw, self.w.raw]
    }

    /// Writes the raw 32-bit words of the coordinates to the first four
    /// places of `buf`, in the order `x, y, z, w`, and leaves the rest of
    /// `buf` as it was.
    pub fn copy_to_buffer_32(&self, buf: &mut [i32])
        requires
            old(buf)@.len() >= 4,
        ensures
            final(buf)@ == old(buf)@.update(0, self.x.raw).update(1, self.y.raw).update(
                2,
                self.z.raw,
            ).update(3, self.w.raw),
    {
        buf[0] = self.x.raw;
        buf[1] = self.y.raw;
        buf[2] = self.z.raw;
        buf[3] = self.w.raw;
    }

    /// Whether the point is a position rather than a direction: whether
    /// its weight is not zero.
    #[verifier::when_used_as_spec(spec_is_finite)]
    pub fn is_finite(&self) -> (r: bool)
        ensures
            r == self.spec_is_finite(),
    {
        self.w.raw != 0
    }

    /// The line through this point and `rhs`.
    #[verifier::when_used_as_spec(spec_join)]
    pub fn join(self, rhs: Point) -> (r: Line)
        ensures
            r == self.spec_join(rhs),
    {
        let one: i128 = ONE_RAW as i128;
        Line::new(
            Scalar::from_ratio(prod(self.w, rhs.x) - prod(self.x, rhs.w), one),
            Scalar::from_ratio(prod(self.w, rhs.y) - prod(self.y, rhs.w), one),
            Scalar::from_ratio(prod(self.w, rhs.z) - prod(self.z, rhs.w), one),
            Scalar::from_ratio(prod(self.y, rhs.z) - prod(self.z, rhs.y), one),
            Scalar::from_ratio(prod(self.z, rhs.x) - prod(self.x, rhs.z), one),
            Scalar::from_ratio(prod(self.x, rhs.y) - prod(self.y, rhs.x), one),
        )
    }

    /// The point with `x`, `y` and `z` rounded to the nearest whole number
    /// and `w` as it was.
    #[verifier::when_used_as_spec(spec_round)]
    pub fn round(self) -> (r: Point)
        ensures
            r == self.spec_round(),
    {
        Point::new(self.x.round(), self.y.round(), self.z.round(), self.w)
    }

    /// The sum of the products of corresponding coordinates, the weights
    /// included.
    #[verifier::when_used_as_spec(spec_dot)]
    pub fn dot(self, rhs: Point) -> (r: Scalar)
        ensures
            r == self.spec_dot(rhs),
    {
        Scalar::from_ratio(
            prod(self.x, rhs.x) + prod(self.y, rhs.y) + prod(self.z, rhs.z) + prod(self.w, rhs.w),
            ONE_RAW as i128,
        )
    }

    /// The product of the two weights.
    #[verifier::when_used_as_spec(spec_antidot)]
    pub fn antidot(self, rhs: Point) -> (r: Scalar)
        ensures
            r == self.spec_antidot(rhs),
    {
        Scalar::from_ratio(prod(self.w, rhs.w), ONE_RAW as i128)
    }

    /// The sum of the squares of all four coordinates divided by the
    /// square of the weight. A direction has no finite magnitude: for a
    /// zero weight the result is the largest scalar, or zero if all four
    /// coordinates are zero.
    #[verifier::when_used_as_spec(spec_magnitude_squared)]
    pub fn magnitude_squared(self) -> (r: Scalar)
        ensures
            r == self.spec_magnitude_squared(),
            r@ >= 0,
    {
        let n: i128 = prod(self.x, self.x) + prod(self.y, self.y) + prod(self.z, self.z) + prod(
            self.w,
            self.w,
        );
        let d: i128 = prod(self.w, self.w);
        proof {
            let x = self.x@;
            let y = self.y@;
            let z = self.z@;
            let w = self.w@;
            assert(x * x >= 0 && y * y >= 0 && z * z >= 0 && w * w >= 0) by (nonlinear_arith);
            if d != 0 {
                crate::scalar::lemma_round_div_bounded(n * ONE_RAW, d as int);
            }
        }
        Scalar::from_ratio(n * (ONE_RAW as i128), d)
    }

    /// The square root of [`Point::magnitude_squared`].
    #[verifier::when_used_as_spec(spec_magnitude)]
    pub fn magnitude(self) -> (r: Scalar)
        ensures
            r == self.spec_magnitude(),
    {
        self.magnitude_squared().sqrt()
    }

    /// The same point with its coordinates divided by its weight, so that
    /// the weight becomes one. For a zero weight the coordinates saturate
    /// and the weight stays zero.
    #[verifier::when_used_as_spec(spec_scaled)]
    pub fn scaled(&self) -> (r: Point)
        ensures
            r == self.spec_scaled(),
    {
        let d: i128 = self.w.raw as i128;
        let one: i128 = ONE_RAW as i128;
        Point::new(
            Scalar::from_ratio(one * (self.x.raw as i128), d),
            Scalar::from_ratio(one * (self.y.raw as i128), d),
            Scalar::from_ratio(one * (self.z.raw as i128), d),
            Scalar::from_ratio(one * (self.w.raw as i128), d),
        )
    }

    /// The magnitude of `other - self`. The magnitude counts the weight with
    /// the coordinates, so that for two positions of weight one this is
    /// the square root of their squared distance plus one.
    #[verifier::when_used_as_spec(spec_dist)]
    pub fn dist(self, other: Point) -> (r: Scalar)
        ensures
            r == self.spec_dist(other),
    {
        (other - self).magnitude()
    }

    /// The line through this point whose direction is minus the weight
    /// times the normal of `rhs`.
    #[verifier::when_used_as_spec(spec_expand_plane)]
    pub fn expand_plane(self, rhs: Plane) -> (r: Line)
        ensures
            r == self.spec_expand_plane(rhs),
    {
        let one: i128 = ONE_RAW as i128;
        Line::new(
            Scalar::from_ratio(-prod(self.w, rhs.x), one),
            Scalar::from_ratio(-prod(self.w, rhs.y), one),
            Scalar::from_ratio(-prod(self.w, rhs.z), one),
            Scalar::from_ratio(prod(self.z, rhs.y) - prod(self.y, rhs.z), one),
            Scalar::from_ratio(prod(self.x, rhs.z) - prod(self.z, rhs.x), one),
            Scalar::from_ratio(prod(self.y, rhs.x) - prod(self.x, rhs.y), one),
        )
    }

    /// The plane through this point and the line `rhs`, as [`Line::join`]
    /// gives it: the zero plane when the point lies on the line.
    #[verifier::when_used_as_spec(spec_expand_line)]
    pub fn expand_line(self, rhs: Line) -> (r: Plane)
        ensures
            r == self.spec_expand_line(rhs),
            r == rhs.spec_join(self),
    {
        rhs.join(self)
    }
}

impl core::ops::Add for Point {
    type Output = Point;

    /// The weighted sum: each coordinate of one point times the weight of
    /// the other, added; the weights multiplied.
    fn add(self, rhs: Point) -> (r: Point)
        ensures
            r == self.spec_plus(rhs),
    {
        let one: i128 = ONE_RAW as i128;
        Point::new(
            Scalar::from_ratio(prod(rhs.x, self.w) + prod(self.x, rhs.w), one),
            Scalar::from_ratio(prod(rhs.y, self.w) + prod(self.y, rhs.w), one),
            Scalar::from_ratio(prod(rhs.z, self.w) + prod(self.z, rhs.w), one),
            Scalar::from_ratio(prod(rhs.w, self.w), one),
        )
    }
}

impl vstd::std_specs::ops::AddSpecImpl for Point {
    open spec fn obeys_add_spec() -> bool {
        true
    }

    open spec fn add_req(self, rhs: Point) -> bool {
        true
    }

    open spec fn add_spec(self, rhs: Point) -> Point {
        self.spec_plus(rhs)
    }
}

impl core::ops::Sub for Point {
    type Output = Point;

    /// The weighted difference: each coordinate of `rhs` times the weight
    /// of `self`, less that of `self` times the weight of `rhs`; the
    /// weights multiplied.
    fn sub(self, rhs: Point) -> (r: Point)
        ensures
            r == self.spec_minus(rhs),
    {
        let one: i128 = ONE_RAW as i128;
        Point::new(
            Scalar::from_ratio(prod(rhs.x, self.w) - prod(self.x, rhs.w), one),
            Scalar::from_ratio(prod(rhs.y, self.w) - prod(self.y, rhs.w), one),
            Scalar::from_ratio(prod(rhs.z, self.w) - prod(self.z, rhs.w), one),
            Scalar::from_ratio(prod(rhs.w, self.w), one),
        )
    }
}

impl vstd::std_specs::ops::SubSpecImpl for Point {
    open spec fn obeys_sub_spec() -> bool {
        true
    }

    open spec fn sub_req(self, rhs: Point) -> bool {
        true
    }

    open spec fn sub_spec(self, rhs: Point) -> Point {
        self.spec_minus(rhs)
    }
}

} // verus!
