//! Motors: rigid motions, a rotation followed by a translation.

use crate::angle::Angle;
use crate::exact::ExactMotor;
use crate::point::Point;
use crate::scalar::{
    lemma_quantize_multiple, lemma_quantize_zero, prod, scale, Scalar, MAX_RAW, ONE_RAW,
    ONE_SQUARED,
};
use vstd::prelude::*;

verus! {

/// A rigid motion. `(vx, vy, vz, vw)` is a quaternion that holds the
/// rotation; `(mx, my, mz, mw)` holds the translation, coupled to the
/// rotation. [`Motor::transform`] and [`Motor::inverse`] describe a rigid
/// motion only while the rotation part has length one; the constructors
/// below give such motors, up to rounding, from an axis of length one and
/// an [`Angle`] whose sine and cosine belong together.
#[derive(Clone, Copy, Debug, PartialEq, Eq, Structural)]
pub struct Motor {
    pub vx: Scalar,
    pub vy: Scalar,
    pub vz: Scalar,
    pub vw: Scalar,
    pub mx: Scalar,
    pub my: Scalar,
    pub mz: Scalar,
    pub mw: Scalar,
}

impl View for Motor {
    type V = ExactMotor;

    open spec fn view(&self) -> ExactMotor {
        ExactMotor {
            vx: self.vx@,
            vy: self.vy@,
            vz: self.vz@,
            vw: self.vw@,
            mx: self.mx@,
            my: self.my@,
            mz: self.mz@,
            mw: self.mw@,
        }
    }
}

/// Whether `(x, y, z)` has length one to within a hundredth: whether the
/// sum of the three squares differs from one by less than 0.01.
pub open spec fn axis_is_normalized(x: Scalar, y: Scalar, z: Scalar) -> bool {
    let excess = x@ * x@ + y@ * y@ + z@ * z@ - ONE_SQUARED;
    -ONE_SQUARED < 100 * excess < ONE_SQUARED
}

impl Motor {
    /// Every coordinate is a valid scalar.
    pub open spec fn is_valid(self) -> bool {
        self.vx.is_valid()
            && self.vy.is_valid()
            && self.vz.is_valid()
            && self.vw.is_valid()
            && self.mx.is_valid()
            && self.my.is_valid()
            && self.mz.is_valid()
            && self.mw.is_valid()
    }

    /// The motor stored for the exact coordinates `e`, each divided by `d`.
    pub open spec fn of(e: ExactMotor, d: int) -> Motor {
        Motor {
            vx: Scalar::of(e.vx, d),
            vy: Scalar::of(e.vy, d),
            vz: Scalar::of(e.vz, d),
            vw: Scalar::of(e.vw, d),
            mx: Scalar::of(e.mx, d),
            my: Scalar::of(e.my, d),
            mz: Scalar::of(e.mz, d),
            mw: Scalar::of(e.mw, d),
        }
    }

    /// What [`Motor::identity`] returns.
    pub open spec fn spec_identity() -> Motor {
        Motor {
            vx: Scalar { raw: 0 },
            vy: Scalar { raw: 0 },
            vz: Scalar { raw: 0 },
            vw: Scalar { raw: ONE_RAW },
            mx: Scalar { raw: 0 },
            my: Scalar { raw: 0 },
            mz: Scalar { raw: 0 },
            mw: Scalar { raw: 0 },
        }
    }

    /// What [`Motor::from_translation`] returns.
    pub open spec fn spec_from_translation(x: Scalar, y: Scalar, z: Scalar) -> Motor {
        Motor {
            vx: Scalar { raw: 0 },
            vy: Scalar { raw: 0 },
            vz: Scalar { raw: 0 },
            vw: Scalar { raw: ONE_RAW },
            mx: Scalar::of(x@, 2),
            my: Scalar::of(y@, 2),
            mz: Scalar::of(z@, 2),
            mw: Scalar { raw: 0 },
        }
    }

    /// What [`Motor::from_rotation_around_axis`] returns.
    pub open spec fn spec_from_rotation_around_axis(
        axis_x: Scalar,
        axis_y: Scalar,
        axis_z: Scalar,
        angle: Angle,
    ) -> Motor {
        Motor {
            vx: Scalar::of(axis_x@ * angle.sin_half@, ONE_RAW as int),
            vy: Scalar::of(axis_y@ * angle.sin_half@, ONE_RAW as int),
            vz: Scalar::of(axis_z@ * angle.sin_half@, ONE_RAW as int),
            vw: angle.cos_half,
            mx: Scalar { raw: 0 },
            my: Scalar { raw: 0 },
            mz: Scalar { raw: 0 },
            mw: Scalar { raw: 0 },
        }
    }

    /// The rotation by `angle` about the first coordinate axis.
    pub open spec fn spec_rotation_x(angle: Angle) -> Motor {
        Motor::spec_from_rotation_around_axis(
            Scalar { raw: ONE_RAW },
            Scalar { raw: 0 },
            Scalar { raw: 0 },
            angle,
        )
    }

    /// The rotation by `angle` about the second coordinate axis.
    pub open spec fn spec_rotation_y(angle: Angle) -> Motor {
        Motor::spec_from_rotation_around_axis(
            Scalar { raw: 0 },
            Scalar { raw: ONE_RAW },
            Scalar { raw: 0 },
            angle,
        )
    }

    /// The rotation by `angle` about the third coordinate axis.
    pub open spec fn spec_rotation_z(angle: Angle) -> Motor {
        Motor::spec_from_rotation_around_axis(
            Scalar { raw: 0 },
            Scalar { raw: 0 },
            Scalar { raw: ONE_RAW },
            angle,
        )
    }

    /// What [`Motor::from_euler_angles`] returns: the rotation about the
    /// third axis, then that about the first, then that about the second.
    pub open spec fn spec_from_euler_angles(x: Angle, y: Angle, z: Angle) -> Motor {
        Motor::spec_rotation_z(z).spec_combine(Motor::spec_rotation_x(x)).spec_combine(
            Motor::spec_rotation_y(y),
        )
    }

    /// What [`Motor::from_euler_pos_and_rot`] returns: the rotation of
    /// [`Motor::from_euler_angles`], then the translation.
    pub open spec fn spec_from_euler_pos_and_rot(
        pos_x: Scalar,
        pos_y: Scalar,
        pos_z: Scalar,
        rot_x: Angle,
        rot_y: Angle,
        rot_z: Angle,
    ) -> Motor {
        Motor::spec_from_euler_angles(rot_x, rot_y, rot_z).spec_combine(
            Motor::spec_from_translation(pos_x, pos_y, pos_z),
        )
    }

    /// What [`Motor::combine`] returns.
    pub open spec fn spec_combine(&self, other: Motor) -> Motor {
        Motor::of(self@.combine(other@), ONE_RAW as int)
    }

    /// What [`Motor::transform`] returns.
    pub open spec fn spec_transform(&self, p: Point) -> Point {
        let t = self@.transform(p@, ONE_RAW as int);
        Point {
            x: Scalar::of(t.x, ONE_SQUARED as int),
            y: Scalar::of(t.y, ONE_SQUARED as int),
            z: Scalar::of(t.z, ONE_SQUARED as int),
            w: p.w,
        }
    }

    /// What [`Motor::inverse`] returns.
    pub open spec fn spec_inverse(&self) -> Motor {
        Motor {
            vx: self.vx.spec_negated(),
            vy: self.vy.spec_negated(),
            vz: self.vz.spec_negated(),
            vw: self.vw,
            mx: self.mx.spec_negated(),
            my: self.my.spec_negated(),
            mz: self.mz.spec_negated(),
            mw: self.mw,
        }
    }

    /// What [`Motor::translation_euler`] returns.
    pub open spec fn spec_translation_euler(&self) -> Point {
        Point {
            x: Scalar::of(2 * self@.shift_x(), ONE_RAW as int),
            y: Scalar::of(2 * self@.shift_y(), ONE_RAW as int),
            z: Scalar::of(2 * self@.shift_z(), ONE_RAW as int),
            w: Scalar { raw: ONE_RAW },
        }
    }

    /// What [`Motor::factor_translation`] returns.
    pub open spec fn spec_factor_translation(&self) -> Motor {
        Motor {
            vx: Scalar { raw: 0 },
            vy: Scalar { raw: 0 },
            vz: Scalar { raw: 0 },
            vw: Scalar { raw: ONE_RAW },
            mx: Scalar::of(self@.shift_x(), ONE_RAW as int),
            my: Scalar::of(self@.shift_y(), ONE_RAW as int),
            mz: Scalar::of(self@.shift_z(), ONE_RAW as int),
            mw: Scalar { raw: 0 },
        }
    }

    /// What [`Motor::factor_rotation`] returns.
    pub open spec fn spec_factor_rotation(&self) -> Motor {
        self.spec_combine(self.spec_factor_translation().spec_inverse())
    }

    /// What [`Motor::factorize`] returns.
    pub open spec fn spec_factorize(&self) -> (Motor, Motor) {
        (self.spec_factor_translation(), self.spec_factor_rotation())
    }

    /// The motor that leaves every point where it is:
    /// `(0, 0, 0, 1, 0, 0, 0, 0)`.
    #[verifier::when_used_as_spec(spec_identity)]
    pub fn identity() -> (r: Motor)
        ensures
            r == Motor::spec_identity(),
    {
        let zero = Scalar::zero();
        Motor::new(zero, zero, zero, Scalar::one(), zero, zero, zero, zero)
    }

    /// The motor with the given eight coordinates.
    pub fn new(
        vx: Scalar,
        vy: Scalar,
        vz: Scalar,
        vw: Scalar,
        mx: Scalar,
        my: Scalar,
        mz: Scalar,
        mw: Scalar,
    ) -> (r: Motor)
        ensures
            r == (Motor { vx, vy, vz, vw, mx, my, mz, mw }),
    {
        Motor { vx, vy, vz, vw, mx, my, mz, mw }
    }

    /// The translation by `(x, y, z)`: the identity rotation and the
    /// translation part `(x / 2, y / 2, z / 2, 0)`.
    #[verifier::when_used_as_spec(spec_from_translation)]
    pub fn from_translation(x: Scalar, y: Scalar, z: Scalar) -> (r: Motor)
        ensures
            r == Motor::spec_from_translation(x, y, z),
    {
        let zero = Scalar::zero();
        Motor::new(
            zero,
            zero,
            zero,
            Scalar::one(),
            Scalar::from_ratio(x.raw as i128, 2),
            Scalar::from_ratio(y.raw as i128, 2),
            Scalar::from_ratio(z.raw as i128, 2),
            zero,
        )
    }

    /// The rotation about the third axis by `z`, then about the first by
    /// `x`, then about the second by `y`.
    #[verifier::when_used_as_spec(spec_from_euler_angles)]
    pub fn from_euler_angles(x: Angle, y: Angle, z: Angle) -> (r: Motor)
        ensures
            r == Motor::spec_from_euler_angles(x, y, z),
            r.mx@ == 0 && r.my@ == 0 && r.mz@ == 0 && r.mw@ == 0,
            -MAX_RAW <= r.vx@ && -MAX_RAW <= r.vy@ && -MAX_RAW <= r.vz@ && -MAX_RAW <= r.vw@,
    {
        let one: i128 = ONE_RAW as i128;
        let unit = Scalar::one();
        let zero = Scalar::zero();

        let sin_z = Scalar::from_ratio(prod(unit, z.sin_half), one);
        let vz1 = sin_z;
        let vw1 = z.cos_half;

        let sin_x = Scalar::from_ratio(prod(unit, x.sin_half), one);
        let cos_x = x.cos_half;
        let vx2 = Scalar::from_ratio(prod(sin_x, vw1), one);
        let vy2 = Scalar::from_ratio(-prod(sin_x, vz1), one);
        let vz2 = Scalar::from_ratio(prod(cos_x, vz1), one);
        let vw2 = Scalar::from_ratio(prod(cos_x, vw1), one);

        let sin_y = Scalar::from_ratio(prod(unit, y.sin_half), one);
        let cos_y = y.cos_half;
        let vx3 = Scalar::from_ratio(prod(cos_y, vx2) + prod(sin_y, vz2), one);
        let vy3 = Scalar::from_ratio(prod(sin_y, vw2) + prod(cos_y, vy2), one);
        let vz3 = Scalar::from_ratio(prod(cos_y, vz2) - prod(sin_y, vx2), one);
        let vw3 = Scalar::from_ratio(prod(cos_y, vw2) - prod(sin_y, vy2), one);

        proof {
            let rz = Motor::spec_rotation_z(z);
            let rx = Motor::spec_rotation_x(x);
            let ry = Motor::spec_rotation_y(y);
            Self::lemma_axis_rotation_coordinates(z);
            Self::lemma_axis_rotation_coordinates(x);
            Self::lemma_axis_rotation_coordinates(y);
            let zx = rz.spec_combine(rx);
            let second = Motor {
                vx: vx2,
                vy: vy2,
                vz: vz2,
                vw: vw2,
                mx: zero,
                my: zero,
                mz: zero,
                mw: zero,
            };
            Self::lemma_rotation_products(rz, rx);
            assert(zx == second);
            Self::lemma_rotation_products(second, ry);
        }
        Motor::new(vx3, vy3, vz3, vw3, zero, zero, zero, zero)
    }

    /// The three coordinate-axis rotations by `a` hold zero wherever the
    /// axis does, and the sine of `a` as [`Scalar::of`] stores it.
    proof fn lemma_axis_rotation_coordinates(a: Angle)
        ensures
            Motor::spec_rotation_x(a) == (Motor {
                vx: Scalar::of(ONE_RAW * a.sin_half@, ONE_RAW as int),
                vy: Scalar { raw: 0 },
                vz: Scalar { raw: 0 },
                vw: a.cos_half,
                mx: Scalar { raw: 0 },
                my: Scalar { raw: 0 },
                mz: Scalar { raw: 0 },
                mw: Scalar { raw: 0 },
            }),
            Motor::spec_rotation_y(a) == (Motor {
                vx: Scalar { raw: 0 },
                vy: Scalar::of(ONE_RAW * a.sin_half@, ONE_RAW as int),
                vz: Scalar { raw: 0 },
                vw: a.cos_half,
                mx: Scalar { raw: 0 },
                my: Scalar { raw: 0 },
                mz: Scalar { raw: 0 },
                mw: Scalar { raw: 0 },
            }),
            Motor::spec_rotation_z(a) == (Motor {
                vx: Scalar { raw: 0 },
                vy: Scalar { raw: 0 },
                vz: Scalar::of(ONE_RAW * a.sin_half@, ONE_RAW as int),
                vw: a.cos_half,
                mx: Scalar { raw: 0 },
                my: Scalar { raw: 0 },
                mz: Scalar { raw: 0 },
                mw: Scalar { raw: 0 },
            }),
    {
        broadcast use vstd::arithmetic::mul::group_mul_basics;
        lemma_quantize_zero(ONE_RAW as int);
    }

    /// In the product of two motors without translation part, every term
    /// with a zero factor is zero.
    proof fn lemma_rotation_products(a: Motor, b: Motor)
        requires
            a.mx@ == 0 && a.my@ == 0 && a.mz@ == 0 && a.mw@ == 0,
            b.mx@ == 0 && b.my@ == 0 && b.mz@ == 0 && b.mw@ == 0,
        ensures
            a.spec_combine(b).mx@ == 0,
            a.spec_combine(b).my@ == 0,
            a.spec_combine(b).mz@ == 0,
            a.spec_combine(b).mw@ == 0,
            a.vx@ == 0 && a.vy@ == 0 && b.vy@ == 0 && b.vz@ == 0 ==> a.spec_combine(b) == (Motor {
                vx: Scalar::of(b.vx@ * a.vw@, ONE_RAW as int),
                vy: Scalar::of(-(b.vx@ * a.vz@), ONE_RAW as int),
                vz: Scalar::of(b.vw@ * a.vz@, ONE_RAW as int),
                vw: Scalar::of(b.vw@ * a.vw@, ONE_RAW as int),
                mx: Scalar { raw: 0 },
                my: Scalar { raw: 0 },
                mz: Scalar { raw: 0 },
                mw: Scalar { raw: 0 },
            }),
            b.vx@ == 0 && b.vz@ == 0 ==> a.spec_combine(b) == (Motor {
                vx: Scalar::of(b.vw@ * a.vx@ + b.vy@ * a.vz@, ONE_RAW as int),
                vy: Scalar::of(b.vy@ * a.vw@ + b.vw@ * a.vy@, ONE_RAW as int),
                vz: Scalar::of(b.vw@ * a.vz@ - b.vy@ * a.vx@, ONE_RAW as int),
                vw: Scalar::of(b.vw@ * a.vw@ - b.vy@ * a.vy@, ONE_RAW as int),
                mx: Scalar { raw: 0 },
                my: Scalar { raw: 0 },
                mz: Scalar { raw: 0 },
                mw: Scalar { raw: 0 },
            }),
    {
        broadcast use vstd::arithmetic::mul::group_mul_basics;
        lemma_quantize_zero(ONE_RAW as int);
    }

    /// The rotation of [`Motor::from_euler_angles`] followed by the
    /// translation by `(pos_x, pos_y, pos_z)`.
    #[verifier::when_used_as_spec(spec_from_euler_pos_and_rot)]
    pub fn from_euler_pos_and_rot(
        pos_x: Scalar,
        pos_y: Scalar,
        pos_z: Scalar,
        rot_x: Angle,
        rot_y: Angle,
        rot_z: Angle,
    ) -> (r: Motor)
        ensures
            r == Motor::spec_from_euler_pos_and_rot(pos_x, pos_y, pos_z, rot_x, rot_y, rot_z),
    {
        let one: i128 = ONE_RAW as i128;
        let rotation = Motor::from_euler_angles(rot_x, rot_y, rot_z);
        let vx3 = rotation.vx;
        let vy3 = rotation.vy;
        let vz3 = rotation.vz;
        let vw3 = rotation.vw;

        let mx = Scalar::from_ratio(pos_x.raw as i128, 2);
        let my = Scalar::from_ratio(pos_y.raw as i128, 2);
        let mz = Scalar::from_ratio(pos_z.raw as i128, 2);

        proof {
            Self::lemma_then_translation(rotation, Motor::spec_from_translation(pos_x, pos_y, pos_z));
        }
        Motor::new(
            vx3,
            vy3,
            vz3,
            vw3,
            Scalar::from_ratio(prod(mx, vw3) - prod(mz, vy3) + prod(my, vz3), one),
            Scalar::from_ratio(prod(my, vw3) - prod(mx, vz3) + prod(mz, vx3), one),
            Scalar::from_ratio(prod(mz, vw3) - prod(my, vx3) + prod(mx, vy3), one),
            Scalar::from_ratio(-(prod(mx, vx3) + prod(my, vy3) + prod(mz, vz3)), one),
        )
    }

    /// The product of a motor without translation part and a translation.
    proof fn lemma_then_translation(a: Motor, t: Motor)
        requires
            a.mx@ == 0 && a.my@ == 0 && a.mz@ == 0 && a.mw@ == 0,
            -MAX_RAW <= a.vx@ && -MAX_RAW <= a.vy@ && -MAX_RAW <= a.vz@ && -MAX_RAW <= a.vw@,
            t.vx@ == 0 && t.vy@ == 0 && t.vz@ == 0 && t.vw@ == ONE_RAW && t.mw@ == 0,
        ensures
            a.spec_combine(t) == (Motor {
                vx: a.vx,
                vy: a.vy,
                vz: a.vz,
                vw: a.vw,
                mx: Scalar::of(t.mx@ * a.vw@ - t.mz@ * a.vy@ + t.my@ * a.vz@, ONE_RAW as int),
                my: Scalar::of(t.my@ * a.vw@ - t.mx@ * a.vz@ + t.mz@ * a.vx@, ONE_RAW as int),
                mz: Scalar::of(t.mz@ * a.vw@ - t.my@ * a.vx@ + t.mx@ * a.vy@, ONE_RAW as int),
                mw: Scalar::of(-(t.mx@ * a.vx@ + t.my@ * a.vy@ + t.mz@ * a.vz@), ONE_RAW as int),
            }),
    {
        broadcast use vstd::arithmetic::mul::group_mul_basics;
        let one = ONE_RAW as int;
        assert(t.vw@ * a.vx@ == a.vx@ * one && t.vw@ * a.vy@ == a.vy@ * one && t.vw@ * a.vz@
            == a.vz@ * one && t.vw@ * a.vw@ == a.vw@ * one) by (nonlinear_arith)
            requires
                t.vw@ == one,
        ;
        lemma_quantize_multiple(a.vx@, one);
        lemma_quantize_multiple(a.vy@, one);
        lemma_quantize_multiple(a.vz@, one);
        lemma_quantize_multiple(a.vw@, one);
    }

    /// The rotation by `angle` about the axis `(axis_x, axis_y, axis_z)`,
    /// which must have length one: `(axis * sin, cos, 0, 0, 0, 0)` of half
    /// the angle.
    #[verifier::when_used_as_spec(spec_from_rotation_around_axis)]
    pub fn from_rotation_around_axis(
        axis_x: Scalar,
        axis_y: Scalar,
        axis_z: Scalar,
        angle: Angle,
    ) -> (r: Motor)
        requires
            axis_is_normalized(axis_x, axis_y, axis_z),
        ensures
            r == Motor::spec_from_rotation_around_axis(axis_x, axis_y, axis_z, angle),
    {
        let one: i128 = ONE_RAW as i128;
        let zero = Scalar::zero();
        Motor::new(
            Scalar::from_ratio(prod(axis_x, angle.sin_half), one),
            Scalar::from_ratio(prod(axis_y, angle.sin_half), one),
            Scalar::from_ratio(prod(axis_z, angle.sin_half), one),
            angle.cos_half,
            zero,
            zero,
            zero,
            zero,
        )
    }

    /// [`Motor::from_rotation_around_axis`] for an axis that may not have
    /// length one: `None` exactly when it has not, to within a hundredth.
    pub fn try_from_rotation_around_axis(
        axis_x: Scalar,
        axis_y: Scalar,
        axis_z: Scalar,
        angle: Angle,
    ) -> (r: Option<Motor>)
        ensures
            axis_is_normalized(axis_x, axis_y, axis_z) ==> r == Some(
                Motor::spec_from_rotation_around_axis(axis_x, axis_y, axis_z, angle),
            ),
            !axis_is_normalized(axis_x, axis_y, axis_z) ==> r.is_none(),
    {
        let square: i128 = ONE_SQUARED as i128;
        let excess: i128 = prod(axis_x, axis_x) + prod(axis_y, axis_y) + prod(axis_z, axis_z)
            - square;
        if -square < 100 * excess && 100 * excess < square {
            Some(Motor::from_rotation_around_axis(axis_x, axis_y, axis_z, angle))
        } else {
            None
        }
    }

    /// The product of two motors: the motor that does what `self` does and
    /// then what `other` does.
    #[verifier::when_used_as_spec(spec_combine)]
    pub fn combine(&self, other: Motor) -> (r: Motor)
        ensures
            r == self.spec_combine(other),
    {
        let one: i128 = ONE_RAW as i128;
        Motor::new(
            Scalar::from_ratio(
                prod(other.vx, self.vw) + prod(other.vw, self.vx) + (prod(other.vy, self.vz) - prod(
                    other.vz,
                    self.vy,
                )),
                one,
            ),
            Scalar::from_ratio(
                prod(other.vy, self.vw) + prod(other.vw, self.vy) + (prod(other.vz, self.vx) - prod(
                    other.vx,
                    self.vz,
                )),
                one,
            ),
            Scalar::from_ratio(
                prod(other.vz, self.vw) + prod(other.vw, self.vz) + (prod(other.vx, self.vy) - prod(
                    other.vy,
                    self.vx,
                )),
                one,
            ),
            Scalar::from_ratio(
                prod(other.vw, self.vw) - (prod(other.vx, self.vx) + prod(other.vy, self.vy) + prod(
                    other.vz,
                    self.vz,
                )),
                one,
            ),
            Scalar::from_ratio(
                prod(other.mx, self.vw) + prod(other.vw, self.mx) + prod(other.vy, self.mz) - prod(
                    other.mz,
                    self.vy,
                ) + prod(other.my, self.vz) - prod(other.vz, self.my) + prod(other.mw, self.vx)
                    + prod(other.vx, self.mw),
                one,
            ),
            Scalar::from_ratio(
                prod(other.my, self.vw) + prod(other.vw, self.my) + prod(other.vz, self.mx) - prod(
                    other.mx,
                    self.vz,
                ) + prod(other.mz, self.vx) - prod(other.vx, self.mz) + prod(other.mw, self.vy)
                    + prod(other.vy, self.mw),
                one,
            ),
            Scalar::from_ratio(
                prod(other.mz, self.vw) + prod(other.vw, self.mz) + prod(other.vx, self.my) - prod(
                    other.my,
                    self.vx,
                ) + prod(other.mx, self.vy) - prod(other.vy, self.mx) + prod(other.mw, self.vz)
                    + prod(other.vz, self.mw),
                one,
            ),
            Scalar::from_ratio(
                prod(other.vw, self.mw) + prod(other.mw, self.vw) - (prod(other.vx, self.mx) + prod(
                    other.mx,
                    self.vx,
                ) + prod(other.vy, self.my) + prod(other.my, self.vy) + prod(other.vz, self.mz)
                    + prod(other.mz, self.vz)),
                one,
            ),
        )
    }

    /// The image of `p` under the motion; the weight of `p` is kept.
    #[verifier::when_used_as_spec(spec_transform)]
    pub fn transform(&self, p: Point) -> (r: Point)
        ensures
            r == self.spec_transform(p),
    {
        let square: i128 = ONE_SQUARED as i128;
        let ax: i128 = prod(self.vy, p.z) - prod(self.vz, p.y) + prod(p.w, self.mx);
        let ay: i128 = prod(self.vz, p.x) - prod(self.vx, p.z) + prod(p.w, self.my);
        let az: i128 = prod(self.vx, p.y) - prod(self.vy, p.x) + prod(p.w, self.mz);
        let mp: i128 = prod(self.mw, p.w);
        assert(ONE_RAW * ONE_RAW == ONE_SQUARED) by (nonlinear_arith);

        Point::new(
            Scalar::from_ratio(
                (p.x.raw as i128) * square + 2 * (scale(self.vw, ax) + (scale(self.vy, az) - scale(
                    self.vz,
                    ay,
                )) - scale(self.vx, mp)),
                square,
            ),
            Scalar::from_ratio(
                (p.y.raw as i128) * square + 2 * (scale(self.vw, ay) + (scale(self.vz, ax) - scale(
                    self.vx,
                    az,
                )) - scale(self.vy, mp)),
                square,
            ),
            Scalar::from_ratio(
                (p.z.raw as i128) * square + 2 * (scale(self.vw, az) + (scale(self.vx, ay) - scale(
                    self.vy,
                    ax,
                )) - scale(self.vz, mp)),
                square,
            ),
            p.w,
        )
    }

    /// The motor that undoes this one, for a motor whose rotation part has
    /// length one: the vector parts negated, `vw` and `mw` kept.
    #[verifier::when_used_as_spec(spec_inverse)]
    pub fn inverse(&self) -> (r: Motor)
        ensures
            r == self.spec_inverse(),
    {
        Motor::new(
            self.vx.negated(),
            self.vy.negated(),
            self.vz.negated(),
            self.vw,
            self.mx.negated(),
            self.my.negated(),
            self.mz.negated(),
            self.mw,
        )
    }

    /// The position to which the motion takes the origin.
    #[verifier::when_used_as_spec(spec_translation_euler)]
    pub fn translation_euler(&self) -> (r: Point)
        ensures
            r == self.spec_translation_euler(),
    {
        let one: i128 = ONE_RAW as i128;
        Point::new(
            Scalar::from_ratio(2 * self.shift_x(), one),
            Scalar::from_ratio(2 * self.shift_y(), one),
            Scalar::from_ratio(2 * self.shift_z(), one),
            Scalar::one(),
        )
    }

    fn shift_x(&self) -> (r: i128)
        ensures
            r == self@.shift_x(),
            -0x1_0000_0000_0000_0000 <= r <= 0x1_0000_0000_0000_0000,
    {
        prod(self.vw, self.mx) + prod(self.vy, self.mz) - prod(self.vz, self.my) - prod(
            self.mw,
            self.vx,
        )
    }

    fn shift_y(&self) -> (r: i128)
        ensures
            r == self@.shift_y(),
            -0x1_0000_0000_0000_0000 <= r <= 0x1_0000_0000_0000_0000,
    {
        prod(self.vw, self.my) + prod(self.vz, self.mx) - prod(self.vx, self.mz) - prod(
            self.mw,
            self.vy,
        )
    }

    fn shift_z(&self) -> (r: i128)
        ensures
            r == self@.shift_z(),
            -0x1_0000_0000_0000_0000 <= r <= 0x1_0000_0000_0000_0000,
    {
        prod(self.vw, self.mz) + prod(self.vx, self.my) - prod(self.vy, self.mx) - prod(
            self.mw,
            self.vz,
        )
    }

    /// The two factors of the motion: the translation and the rotation, in
    /// this order. For a motor made of a rotation followed by a
    /// translation they are, up to rounding, that translation and that
    /// rotation.
    #[verifier::when_used_as_spec(spec_factorize)]
    pub fn factorize(&self) -> (r: (Motor, Motor))
        ensures
            r == self.spec_factorize(),
    {
        let translation = self.factor_translation();
        let rotation = self.combine(translation.inverse());
        (translation, rotation)
    }

    /// The translation of the motion: the motor without rotation that
    /// takes the origin where the motion takes it.
    #[verifier::when_used_as_spec(spec_factor_translation)]
    pub fn factor_translation(&self) -> (r: Motor)
        ensures
            r == self.spec_factor_translation(),
    {
        let one: i128 = ONE_RAW as i128;
        let zero = Scalar::zero();
        Motor::new(
            zero,
            zero,
            zero,
            Scalar::one(),
            Scalar::from_ratio(self.shift_x(), one),
            Scalar::from_ratio(self.shift_y(), one),
            Scalar::from_ratio(self.shift_z(), one),
            zero,
        )
    }

    /// The rotation of the motion: the motion followed by the inverse of
    /// its translation.
    #[verifier::when_used_as_spec(spec_factor_rotation)]
    pub fn factor_rotation(&self) -> (r: Motor)
        ensures
            r == self.spec_factor_rotation(),
    {
        self.combine(self.factor_translation().inverse())
    }
}

} // verus!
