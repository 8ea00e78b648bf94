//! The laws of the algebra.
//!
//! The laws are stated of the exact polynomials of [`crate::exact`], of
//! which every operation of the library stores the rounded value. `one` is
//! the integer that stands for the number one: the laws hold of raw
//! fixed-point values with `one == 1048576` as of plain integers with
//! `one == 1`. The modules below hold the algebra on which the laws rest.

pub mod accuracy;
pub mod affine;
pub mod association;
pub mod composition;
pub mod coupling;
pub mod distance;
pub mod incidence;
pub mod rotation;
pub mod shift;

use crate::exact::{ExactLine, ExactMotor, ExactPlane, ExactPoint};
use crate::laws::affine::lemma_monomial;
use crate::laws::composition::{lemma_combine_composes, lemma_product_is_unit};
use crate::laws::coupling::{lemma_coupling_of_product, lemma_shift_against_rotation};
use crate::laws::rotation::lemma_cross;
use crate::laws::shift::lemma_shift_of_product;
use crate::angle::Angle;
use crate::line::Line;
use crate::plane::Plane;
use crate::transform::Transform;
use crate::motor::Motor;
use crate::point::Point;
use crate::scalar::{
    lemma_quantize_multiple, lemma_quantize_neg, lemma_quantize_zero, Scalar, MAX_RAW, ONE_RAW,
    ONE_SQUARED,
};
use vstd::prelude::*;

verus! {

/// Joining two points in the other order negates every coordinate of the
/// line, before rounding and after it.
pub proof fn lemma_join_antisymmetric(p1: Point, p2: Point)
    ensures
        p2@.join(p1@) == p1@.join(p2@).negated(),
        p2.join(p1)@ == p1.join(p2)@.negated(),
{
    let a = p1@;
    let b = p2@;
    assert(b.w * a.x == a.x * b.w && b.x * a.w == a.w * b.x && b.w * a.y == a.y * b.w && b.y
        * a.w == a.w * b.y && b.w * a.z == a.z * b.w && b.z * a.w == a.w * b.z) by (nonlinear_arith);
    assert(b.y * a.z == a.z * b.y && b.z * a.y == a.y * b.z && b.z * a.x == a.x * b.z && b.x
        * a.z == a.z * b.x && b.x * a.y == a.y * b.x && b.y * a.x == a.x * b.y) by (nonlinear_arith);
    let e = a.join(b);
    let d = b.join(a);
    assert(d == e.negated());
    lemma_quantize_neg(e.vx, ONE_RAW as int);
    lemma_quantize_neg(e.vy, ONE_RAW as int);
    lemma_quantize_neg(e.vz, ONE_RAW as int);
    lemma_quantize_neg(e.mx, ONE_RAW as int);
    lemma_quantize_neg(e.my, ONE_RAW as int);
    lemma_quantize_neg(e.mz, ONE_RAW as int);
}

/// The join of a point with itself is the zero line.
pub proof fn lemma_join_degenerate(p: Point)
    ensures
        p@.join(p@) == ExactLine::zero(),
        p.join(p)@ == ExactLine::zero(),
{
    let a = p@;
    assert(a.w * a.x == a.x * a.w && a.w * a.y == a.y * a.w && a.w * a.z == a.z * a.w && a.y
        * a.z == a.z * a.y && a.z * a.x == a.x * a.z && a.x * a.y == a.y * a.x) by (nonlinear_arith);
    lemma_quantize_zero(ONE_RAW as int);
}

/// Where the two motions can be done in either order, the product also
/// does what the second does and then what the first does.
pub proof fn lemma_combine_of_commuting(
    a: ExactMotor,
    b: ExactMotor,
    p: ExactPoint,
    one_a: int,
    one_b: int,
)
    requires
        a.is_unit(one_a),
        b.is_unit(one_b),
        a.transform(b.transform(p, one_b), one_a) == b.transform(a.transform(p, one_a), one_b),
    ensures
        a.combine(b).transform(p, one_a * one_b) == a.transform(b.transform(p, one_b), one_a),
{
    lemma_combine_composes(a, b, p, one_a, one_b);
}

/// Three motors combined act as the three in sequence.
pub proof fn lemma_three_in_sequence(
    a: ExactMotor,
    b: ExactMotor,
    c: ExactMotor,
    p: ExactPoint,
    one: int,
)
    requires
        a.is_unit(one),
        b.is_unit(one),
        c.is_unit(one),
    ensures
        a.combine(b).combine(c).transform(p, one * one * one) == c.transform(
            b.transform(a.transform(p, one), one),
            one,
        ),
{
    let ab = a.combine(b);
    lemma_product_is_unit(a, b, one, one);
    lemma_combine_composes(a, b, p, one, one);
    lemma_combine_composes(ab, c, p, one * one, one);
}

/// The products of two numbers and of their negatives, in either order.
proof fn lemma_signs(x: int, y: int)
    by (nonlinear_arith)
    ensures
        (-x) * y == -(x * y),
        x * (-y) == -(x * y),
        (-x) * (-y) == x * y,
        y * x == x * y,
{
}

/// The product of a motor with its inverse, in either order, has the
/// squared length of the rotation part as `vw`, twice the coupling as
/// `mw`, and zero elsewhere.
proof fn lemma_products_with_inverse(m: ExactMotor)
    ensures
        m.combine(m.inverse()) == (ExactMotor {
            vx: 0,
            vy: 0,
            vz: 0,
            vw: m.norm(),
            mx: 0,
            my: 0,
            mz: 0,
            mw: 2 * m.coupling(),
        }),
        m.inverse().combine(m) == m.combine(m.inverse()),
{
    lemma_signs(m.vx, m.vx);
    lemma_signs(m.vx, m.vy);
    lemma_signs(m.vy, m.vx);
    lemma_signs(m.vx, m.vz);
    lemma_signs(m.vz, m.vx);
    lemma_signs(m.vx, m.vw);
    lemma_signs(m.vw, m.vx);
    lemma_signs(m.vx, m.mx);
    lemma_signs(m.mx, m.vx);
    lemma_signs(m.vx, m.my);
    lemma_signs(m.my, m.vx);
    lemma_signs(m.vx, m.mz);
    lemma_signs(m.mz, m.vx);
    lemma_signs(m.vx, m.mw);
    lemma_signs(m.mw, m.vx);
    lemma_signs(m.vy, m.vy);
    lemma_signs(m.vy, m.vz);
    lemma_signs(m.vz, m.vy);
    lemma_signs(m.vy, m.vw);
    lemma_signs(m.vw, m.vy);
    lemma_signs(m.vy, m.mx);
    lemma_signs(m.mx, m.vy);
    lemma_signs(m.vy, m.my);
    lemma_signs(m.my, m.vy);
    lemma_signs(m.vy, m.mz);
    lemma_signs(m.mz, m.vy);
    lemma_signs(m.vy, m.mw);
    lemma_signs(m.mw, m.vy);
    lemma_signs(m.vz, m.vz);
    lemma_signs(m.vz, m.vw);
    lemma_signs(m.vw, m.vz);
    lemma_signs(m.vz, m.mx);
    lemma_signs(m.mx, m.vz);
    lemma_signs(m.vz, m.my);
    lemma_signs(m.my, m.vz);
    lemma_signs(m.vz, m.mz);
    lemma_signs(m.mz, m.vz);
    lemma_signs(m.vz, m.mw);
    lemma_signs(m.mw, m.vz);
    lemma_signs(m.vw, m.vw);
    lemma_signs(m.vw, m.mx);
    lemma_signs(m.mx, m.vw);
    lemma_signs(m.vw, m.my);
    lemma_signs(m.my, m.vw);
    lemma_signs(m.vw, m.mz);
    lemma_signs(m.mz, m.vw);
    lemma_signs(m.vw, m.mw);
    lemma_signs(m.mw, m.vw);
}

/// The product of a motor with its inverse has the squared length of the
/// rotation part as `vw`, twice the coupling as `mw`, and zero elsewhere.
pub proof fn lemma_combine_inverse(m: ExactMotor)
    ensures
        m.combine(m.inverse()) == (ExactMotor {
            vx: 0,
            vy: 0,
            vz: 0,
            vw: m.norm(),
            mx: 0,
            my: 0,
            mz: 0,
            mw: 2 * m.coupling(),
        }),
{
    lemma_products_with_inverse(m);
}

/// The product of the inverse of a motor with the motor is the product of
/// the motor with its inverse.
pub proof fn lemma_inverse_combine(m: ExactMotor)
    ensures
        m.inverse().combine(m) == m.combine(m.inverse()),
{
    lemma_products_with_inverse(m);
}

/// A motor and its inverse have rotation parts of one length.
pub proof fn lemma_inverse_is_unit(m: ExactMotor, one: int)
    requires
        m.is_unit(one),
    ensures
        m.inverse().is_unit(one),
{
    lemma_signs(m.vx, m.vx);
    lemma_signs(m.vy, m.vy);
    lemma_signs(m.vz, m.vz);
}

/// A motor whose rotation part has length `one`, followed by its inverse
/// or following it, puts every point back where it was.
pub proof fn lemma_inverse_undoes(m: ExactMotor, p: ExactPoint, one: int)
    requires
        m.is_unit(one),
    ensures
        m.inverse().transform(m.transform(p, one), one) == p.times((one * one) * (one * one)),
        m.transform(m.inverse().transform(p, one), one) == p.times((one * one) * (one * one)),
{
    broadcast use vstd::arithmetic::mul::group_mul_basics;
    let i = m.inverse();
    let c = m.combine(i);
    lemma_combine_inverse(m);
    lemma_inverse_combine(m);
    lemma_inverse_is_unit(m, one);
    lemma_combine_composes(m, i, p, one, one);
    lemma_combine_composes(i, m, p, one, one);
    let k = (one * one) * (one * one);
    assert(p.x * k == k * p.x && p.y * k == k * p.y && p.z * k == k * p.z && p.w * k == k * p.w)
        by (nonlinear_arith);
    assert(c.transform(p, one * one) == p.times(k));
}

/// A rotation followed by a translation is a motor in good standing: with
/// both of length `one`, the product has a rotation part of length
/// `one * one`, no coupling, the rotation part of the rotation and the
/// shift of the translation, each times a power of `one`.
pub proof fn lemma_rotation_then_translation(
    r: ExactMotor,
    tx: int,
    ty: int,
    tz: int,
    one: int,
)
    requires
        r.is_rotation(),
        r.is_unit(one),
    ensures
        ({
            let m = r.combine(ExactMotor::translation(tx, ty, tz, one));
            &&& m.is_unit(one * one)
            &&& m.coupling() == 0
            &&& m.vx == one * r.vx && m.vy == one * r.vy && m.vz == one * r.vz && m.vw == one
                * r.vw
            &&& m.shift_x() == (one * one) * (one * tx)
            &&& m.shift_y() == (one * one) * (one * ty)
            &&& m.shift_z() == (one * one) * (one * tz)
        }),
{
    broadcast use vstd::arithmetic::mul::group_mul_basics;
    let t = ExactMotor::translation(tx, ty, tz, one);
    let m = r.combine(t);
    assert(t.is_unit(one));
    lemma_product_is_unit(r, t, one, one);
    lemma_coupling_of_product(r, t);
    lemma_shift_of_product(r, t);
    assert(r.shift_x() == 0 && r.shift_y() == 0 && r.shift_z() == 0);
    assert(r.coupling() == 0 && t.coupling() == 0);
    assert(t.shift_x() == one * tx && t.shift_y() == one * ty && t.shift_z() == one * tz);
}

/// A common factor of the second factors of three products, taken out of
/// their sum and out of the first two less the third.
proof fn lemma_scaled_sum(u: int, a1: int, x1: int, a2: int, x2: int, a3: int, x3: int)
    ensures
        a1 * (u * x1) + a2 * (u * x2) + a3 * (u * x3) == u * (a1 * x1 + a2 * x2 + a3 * x3),
        a1 * (u * x1) + a2 * (u * x2) - a3 * (u * x3) == u * (a1 * x1 + a2 * x2 - a3 * x3),
{
    let p1 = a1 * x1;
    let p2 = a2 * x2;
    let p3 = a3 * x3;
    assert(u * (p1 + p2 + p3) == u * p1 + u * p2 + u * p3) by (nonlinear_arith);
    assert(u * (p1 + p2 - p3) == u * p1 + u * p2 - u * p3) by (nonlinear_arith);
    lemma_monomial(u, a1, x1);
    lemma_monomial(u, a2, x2);
    lemma_monomial(u, a3, x3);
}

/// What factoring gives of a motor in good standing. For a motor with a
/// rotation part of length `one` and no coupling, the rotation factor has
/// no translation part and the rotation part of the motor, and the
/// rotation factor followed by the translation factor is the motor; each
/// times a power of `one`.
pub proof fn lemma_factorize(m: ExactMotor, one: int)
    requires
        m.is_unit(one),
        m.coupling() == 0,
    ensures
        m.factor_rotation(one) == (ExactMotor {
            vx: (one * one) * m.vx,
            vy: (one * one) * m.vy,
            vz: (one * one) * m.vz,
            vw: (one * one) * m.vw,
            mx: 0,
            my: 0,
            mz: 0,
            mw: 0,
        }),
        m.factor_rotation(one).combine(m.factor_translation(one)) == m.times(
            (one * one) * (one * one),
        ),
{
    broadcast use vstd::arithmetic::mul::group_mul_basics;
    let u = one * one;
    let k = u * u;
    let t = m.factor_translation(one);
    let i = t.inverse();
    let r = m.factor_rotation(one);
    let sx = m.shift_x();
    let sy = m.shift_y();
    let sz = m.shift_z();
    lemma_shift_against_rotation(m);
    assert(i.mx * m.vw == -(sx * m.vw) && i.mz * m.vy == -(sz * m.vy) && i.my * m.vz == -(sy
        * m.vz) && i.my * m.vw == -(sy * m.vw) && i.mx * m.vz == -(sx * m.vz) && i.mz * m.vx
        == -(sz * m.vx) && i.mz * m.vw == -(sz * m.vw) && i.my * m.vx == -(sy * m.vx) && i.mx
        * m.vy == -(sx * m.vy) && i.mx * m.vx == -(sx * m.vx) && i.my * m.vy == -(sy * m.vy)
        && i.mz * m.vz == -(sz * m.vz)) by (nonlinear_arith)
        requires
            i.mx == -sx,
            i.my == -sy,
            i.mz == -sz,
    ;
    assert(r.mx == 0);
    assert(r.my == 0);
    assert(r.mz == 0);
    assert(r.mw == 0);
    let c = r.combine(t);
    assert(u * (u * m.vx) == k * m.vx && u * (u * m.vy) == k * m.vy && u * (u * m.vz) == k * m.vz
        && u * (u * m.vw) == k * m.vw && u * (u * m.mx) == k * m.mx && u * (u * m.my) == k * m.my
        && u * (u * m.mz) == k * m.mz && u * (u * m.mw) == k * m.mw) by (nonlinear_arith)
        requires
            k == u * u,
    ;
    lemma_scaled_sum(u, sx, m.vw, sy, m.vz, sz, m.vy);
    lemma_scaled_sum(u, sy, m.vw, sz, m.vx, sx, m.vz);
    lemma_scaled_sum(u, sz, m.vw, sx, m.vy, sy, m.vx);
    lemma_scaled_sum(u, sx, m.vx, sy, m.vy, sz, m.vz);
    assert(u * (-(u * m.mw)) == -(u * (u * m.mw))) by (nonlinear_arith);
    assert(c.vx == k * m.vx);
    assert(c.vw == k * m.vw);
    assert(c.mx == k * m.mx);
    assert(c.my == k * m.my);
    assert(c.mz == k * m.mz);
    assert(c.mw == k * m.mw);
}

/// Factoring undoes building: of a rotation of length `one` followed by a
/// translation, the translation factor is the translation, the rotation
/// factor is the rotation, and the rotation factor followed by the
/// translation factor is the motor; each times a power of `one`.
pub proof fn lemma_factorize_rotation_then_translation(
    r: ExactMotor,
    tx: int,
    ty: int,
    tz: int,
    one: int,
)
    requires
        r.is_rotation(),
        r.is_unit(one),
    ensures
        ({
            let t = ExactMotor::translation(tx, ty, tz, one);
            let m = r.combine(t);
            let u = one * one;
            &&& m.factor_translation(u) == t.times(u * one)
            &&& m.factor_rotation(u) == r.times((u * u) * one)
            &&& m.factor_rotation(u).combine(m.factor_translation(u)) == m.times(
                (u * u) * (u * u),
            )
        }),
{
    broadcast use vstd::arithmetic::mul::group_mul_basics;
    let t = ExactMotor::translation(tx, ty, tz, one);
    let m = r.combine(t);
    let u = one * one;
    lemma_rotation_then_translation(r, tx, ty, tz, one);
    lemma_factorize(m, u);
    lemma_monomial(u, one, tx);
    lemma_monomial(u, one, ty);
    lemma_monomial(u, one, tz);
    assert((u * one) * one == u * u) by (nonlinear_arith)
        requires
            u == one * one,
    ;
    lemma_monomial(u * u, one, r.vx);
    lemma_monomial(u * u, one, r.vy);
    lemma_monomial(u * u, one, r.vz);
    lemma_monomial(u * u, one, r.vw);
}

/// The rotation about an axis of length `one`, by an angle whose sine and
/// cosine belong together, has no translation part and a rotation part of
/// length `one * one`.
pub proof fn lemma_axis_rotation_is_unit(ax: int, ay: int, az: int, sin: int, cos: int, one: int)
    requires
        ax * ax + ay * ay + az * az == one * one,
        sin * sin + cos * cos == one * one,
    ensures
        ExactMotor::axis_rotation(ax, ay, az, sin, cos, one).is_rotation(),
        ExactMotor::axis_rotation(ax, ay, az, sin, cos, one).is_unit(one * one),
{
    let u = one * one;
    let ss = sin * sin;
    let cc = cos * cos;
    lemma_cross(ax, sin, ax, sin);
    lemma_cross(ay, sin, ay, sin);
    lemma_cross(az, sin, az, sin);
    lemma_cross(cos, one, cos, one);
    assert((ax * ax) * ss + (ay * ay) * ss + (az * az) * ss + cc * u == u * u) by (nonlinear_arith)
        requires
            ax * ax + ay * ay + az * az == u,
            ss + cc == u,
    ;
}

/// A translation has a rotation part of length `one`.
pub proof fn lemma_translation_is_unit(tx: int, ty: int, tz: int, one: int)
    ensures
        ExactMotor::translation(tx, ty, tz, one).is_translation(),
        ExactMotor::translation(tx, ty, tz, one).is_unit(one),
        ExactMotor::translation(tx, ty, tz, one).coupling() == 0,
{
    broadcast use vstd::arithmetic::mul::group_mul_basics;
}

/// The identity is neutral: a product with it is the other factor, and it
/// moves no point; each times a power of `one`.
pub proof fn lemma_identity_is_neutral(m: ExactMotor, p: ExactPoint, one: int)
    ensures
        m.combine(ExactMotor::identity(one)) == m.times(one),
        ExactMotor::identity(one).combine(m) == m.times(one),
        ExactMotor::identity(one).transform(p, one) == p.times(one * one),
{
    broadcast use vstd::arithmetic::mul::group_mul_basics;
    assert(m.vx * one == one * m.vx && m.vy * one == one * m.vy && m.vz * one == one * m.vz
        && m.vw * one == one * m.vw && m.mx * one == one * m.mx && m.my * one == one * m.my
        && m.mz * one == one * m.mz && m.mw * one == one * m.mw) by (nonlinear_arith);
    let u = one * one;
    assert(p.x * u == u * p.x && p.y * u == u * p.y && p.z * u == u * p.z && p.w * u == u * p.w)
        by (nonlinear_arith);
}

/// A motor keeps the weight of a point, and so takes positions to
/// positions and directions to directions.
pub proof fn lemma_transform_keeps_weight(m: Motor, p: Point)
    ensures
        m.transform(p).w == p.w,
        m.transform(p).is_finite() == p.is_finite(),
{
}

/// The product of transforms does what the second does and then what the
/// first does.
pub proof fn lemma_combine_after_composes(
    a: ExactMotor,
    b: ExactMotor,
    p: ExactPoint,
    one: int,
)
    requires
        a.is_unit(one),
        b.is_unit(one),
    ensures
        a.combine_after(b).transform(p, one * one) == a.transform(b.transform(p, one), one),
{
    lemma_combine_composes(b, a, p, one, one);
}

/// The join of a point with a multiple of itself is the zero line.
pub proof fn lemma_join_of_multiples(p: ExactPoint, k: int)
    ensures
        p.join(p.times(k)) == ExactLine::zero(),
        p.times(k).join(p) == ExactLine::zero(),
{
    lemma_monomial(k, p.x, p.w);
    lemma_monomial(k, p.y, p.w);
    lemma_monomial(k, p.z, p.w);
    lemma_monomial(k, p.x, p.y);
    lemma_monomial(k, p.x, p.z);
    lemma_monomial(k, p.y, p.z);
}

/// What the constructors and the unary operations store is the exact
/// motor of the same name, rounded: the laws of the exact motors are laws
/// of what the library builds, up to that rounding.
pub proof fn lemma_stored_motors(m: Motor, x: Scalar, y: Scalar, z: Scalar, angle: Angle)
    ensures
        Motor::identity() == Motor::of(ExactMotor::identity(ONE_RAW as int), 1),
        Motor::from_translation(x, y, z) == Motor::of(
            ExactMotor::translation(x@, y@, z@, 2 * ONE_RAW),
            2,
        ),
        angle.cos_half@ >= -MAX_RAW ==> Motor::from_rotation_around_axis(x, y, z, angle)
            == Motor::of(
            ExactMotor::axis_rotation(x@, y@, z@, angle.sin_half@, angle.cos_half@, ONE_RAW as int),
            ONE_RAW as int,
        ),
        m.vw@ >= -MAX_RAW && m.mw@ >= -MAX_RAW ==> m.inverse() == Motor::of(m@.inverse(), 1),
        m.factor_translation() == Motor::of(m@.factor_translation(ONE_RAW as int), ONE_RAW as int),
{
    lemma_quantize_zero(1);
    lemma_quantize_zero(2);
    lemma_quantize_zero(ONE_RAW as int);
    lemma_quantize_multiple(ONE_RAW as int, 1);
    lemma_quantize_multiple(ONE_RAW as int, 2);
    lemma_quantize_multiple(ONE_RAW as int, ONE_RAW as int);
    lemma_quantize_multiple(angle.cos_half@, ONE_RAW as int);
    lemma_quantize_multiple(m.vw@, 1);
    lemma_quantize_multiple(m.mw@, 1);
}

/// Whatever is stored for exact coordinates is valid: every operation of
/// the library that rounds gives valid values.
pub proof fn lemma_stored_is_valid(
    p: ExactPoint,
    l: ExactLine,
    g: ExactPlane,
    m: ExactMotor,
    d: int,
)
    ensures
        Scalar::of(p.x, d).is_valid(),
        Point::of(p, d).is_valid(),
        Line::of(l, d).is_valid(),
        Plane::of(g, d).is_valid(),
        Motor::of(m, d).is_valid(),
        Transform::of(m, d).is_valid(),
{
}

/// Of valid motors and points, the identity is neutral as stored: no
/// rounding and no clamping comes between.
pub proof fn lemma_identity_is_neutral_as_stored(m: Motor, p: Point)
    requires
        m.is_valid(),
        p.is_valid(),
    ensures
        m.combine(Motor::identity()) == m,
        Motor::identity().combine(m) == m,
        Motor::identity().transform(p) == p,
{
    let one = ONE_RAW as int;
    lemma_identity_is_neutral(m@, p@, one);
    assert(Motor::identity()@ == ExactMotor::identity(one));
    lemma_quantize_multiple(m.vx@, one);
    lemma_quantize_multiple(m.vy@, one);
    lemma_quantize_multiple(m.vz@, one);
    lemma_quantize_multiple(m.vw@, one);
    lemma_quantize_multiple(m.mx@, one);
    lemma_quantize_multiple(m.my@, one);
    lemma_quantize_multiple(m.mz@, one);
    lemma_quantize_multiple(m.mw@, one);
    assert(one * one == ONE_SQUARED) by (nonlinear_arith)
        requires
            one == 1048576,
    ;
    lemma_quantize_multiple(p.x@, ONE_SQUARED as int);
    lemma_quantize_multiple(p.y@, ONE_SQUARED as int);
    lemma_quantize_multiple(p.z@, ONE_SQUARED as int);
}

/// Of a valid motor the inverse is stored exactly, and the inverse of the
/// inverse is the motor.
pub proof fn lemma_inverse_as_stored(m: Motor)
    requires
        m.is_valid(),
    ensures
        m.inverse()@ == m@.inverse(),
        m.inverse().is_valid(),
        m.inverse().inverse() == m,
{
    lemma_negated_twice(m.vx);
    lemma_negated_twice(m.vy);
    lemma_negated_twice(m.vz);
    lemma_negated_twice(m.mx);
    lemma_negated_twice(m.my);
    lemma_negated_twice(m.mz);
}

/// Negating a valid scalar is exact, and negating twice gives it back.
pub proof fn lemma_negated_twice(s: Scalar)
    requires
        s.is_valid(),
    ensures
        s.negated()@ == -s@,
        s.negated().is_valid(),
        s.negated().negated() == s,
{
    lemma_quantize_multiple(-s@, 1);
    lemma_quantize_multiple(s@, 1);
}

/// A valid motor whose rotation part has length one and which has no
/// coupling gives, with its inverse and in either order, the identity as
/// stored.
pub proof fn lemma_inverse_combine_as_stored(m: Motor)
    requires
        m.is_valid(),
        m@.is_unit(ONE_RAW as int),
        m@.coupling() == 0,
    ensures
        m.inverse().combine(m) == Motor::identity(),
        m.combine(m.inverse()) == Motor::identity(),
{
    let one = ONE_RAW as int;
    lemma_inverse_as_stored(m);
    lemma_combine_inverse(m@);
    lemma_inverse_combine(m@);
    lemma_quantize_zero(one);
    lemma_quantize_multiple(one, one);
}

} // verus!
