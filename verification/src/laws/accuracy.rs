//! What rounding costs.

use crate::exact::{ExactMotor, ExactPoint};
use crate::laws::composition::lemma_unit_transform;
use crate::laws::distance::{lemma_rotation_is_orthogonal, lemma_rotation_of_inverse};
use crate::laws::{lemma_inverse_as_stored, lemma_inverse_is_unit, lemma_inverse_undoes};
use crate::motor::Motor;
use crate::point::Point;
use crate::scalar::{lemma_quantize_error, magnitude, quantize, MAX_RAW, ONE_RAW, ONE_SQUARED};
use vstd::prelude::*;

verus! {

/// The coordinate lies far enough inside the range that neither an image
/// of it nor the way back is clamped.
pub open spec fn is_inside(v: int) -> bool {
    -MAX_RAW + 2 <= v <= MAX_RAW - 2
}

/// A number whose square is at most the square of a positive bound is at
/// most the bound.
proof fn lemma_root_bound(a: int, b: int)
    by (nonlinear_arith)
    requires
        b > 0,
        a * a <= b * b,
    ensures
        -b <= a <= b,
{
}

/// A product of a bounded number and a bounded error.
proof fn lemma_bounded_product(r: int, e: int, b: int)
    by (nonlinear_arith)
    requires
        b > 0,
        -b <= r <= b,
        -b <= 2 * e <= b,
    ensures
        -(b * b) <= 2 * (r * e) <= b * b,
{
}

/// One coordinate of the way back: `u` is the image of the rounded image
/// `q*`, `t*` is the exact image, of which the way back is exact.
proof fn lemma_way_back(
    r1: int,
    r2: int,
    r3: int,
    s: int,
    w: int,
    q1: int,
    q2: int,
    q3: int,
    t1: int,
    t2: int,
    t3: int,
    b: int,
    u: int,
    target: int,
)
    requires
        b > 0,
        r1 * r1 + r2 * r2 + r3 * r3 == b * b,
        -b <= 2 * (q1 * b - t1) <= b,
        -b <= 2 * (q2 * b - t2) <= b,
        -b <= 2 * (q3 * b - t3) <= b,
        u == r1 * q1 + r2 * q2 + r3 * q3 + 2 * (s * w),
        (b * b) * target == r1 * t1 + r2 * t2 + r3 * t3 + 2 * (s * (w * b)),
    ensures
        -(3 * b) <= 2 * (u - b * target) <= 3 * b,
{
    assert(r1 * r1 >= 0 && r2 * r2 >= 0 && r3 * r3 >= 0) by (nonlinear_arith);
    lemma_root_bound(r1, b);
    lemma_root_bound(r2, b);
    lemma_root_bound(r3, b);
    let e1 = q1 * b - t1;
    let e2 = q2 * b - t2;
    let e3 = q3 * b - t3;
    lemma_bounded_product(r1, e1, b);
    lemma_bounded_product(r2, e2, b);
    lemma_bounded_product(r3, e3, b);
    assert(r1 * e1 == r1 * (q1 * b) - r1 * t1 && r2 * e2 == r2 * (q2 * b) - r2 * t2 && r3 * e3
        == r3 * (q3 * b) - r3 * t3) by (nonlinear_arith)
        requires
            e1 == q1 * b - t1,
            e2 == q2 * b - t2,
            e3 == q3 * b - t3,
    ;
    assert(r1 * (q1 * b) == b * (r1 * q1) && r2 * (q2 * b) == b * (r2 * q2) && r3 * (q3 * b) == b
        * (r3 * q3) && s * (w * b) == b * (s * w)) by (nonlinear_arith);
    let d = u - b * target;
    assert(b * d == r1 * e1 + r2 * e2 + r3 * e3) by (nonlinear_arith)
        requires
            d == u - b * target,
            u == r1 * q1 + r2 * q2 + r3 * q3 + 2 * (s * w),
            (b * b) * target == r1 * t1 + r2 * t2 + r3 * t3 + 2 * (b * (s * w)),
            r1 * e1 == b * (r1 * q1) - r1 * t1,
            r2 * e2 == b * (r2 * q2) - r2 * t2,
            r3 * e3 == b * (r3 * q3) - r3 * t3,
    ;
    assert(-(3 * b) <= 2 * d <= 3 * b) by (nonlinear_arith)
        requires
            b > 0,
            -(3 * (b * b)) <= 2 * (b * d) <= 3 * (b * b),
    ;
}

/// What is stored for a dividend near a multiple of the divisor is near
/// the multiplier: within one and a half divisors, it is within two.
proof fn lemma_quantize_near(n: int, d: int, v: int)
    requires
        d > 0,
        is_inside(v),
        -(3 * d) <= 2 * (n - d * v) <= 3 * d,
    ensures
        -2 <= quantize(n, d) - v <= 2,
{
    let m = MAX_RAW as int;
    assert(-(m * d) <= n <= m * d) by (nonlinear_arith)
        requires
            d > 0,
            -m + 2 <= v <= m - 2,
            -(3 * d) <= 2 * (n - d * v) <= 3 * d,
    ;
    assert((-m) * d == -(m * d)) by (nonlinear_arith);
    lemma_quantize_error(n, d);
    let q = quantize(n, d);
    assert(-2 <= q - v <= 2) by (nonlinear_arith)
        requires
            d > 0,
            -d <= 2 * (q * d - n) <= d,
            -(3 * d) <= 2 * (n - d * v) <= 3 * d,
    ;
}

/// A motor and then its inverse, as stored, put a point back to within two
/// raw units in every coordinate, and keep its weight: for a valid motor
/// whose rotation part has length one, and a point that lies, with its
/// image, inside the range.
pub proof fn lemma_inverse_undoes_as_stored(m: Motor, p: Point)
    requires
        m.is_valid(),
        m@.is_unit(ONE_RAW as int),
        is_inside(p.x@) && is_inside(p.y@) && is_inside(p.z@),
        ({
            let t = m@.transform(p@, ONE_RAW as int);
            &&& magnitude(t.x) <= MAX_RAW * ONE_SQUARED
            &&& magnitude(t.y) <= MAX_RAW * ONE_SQUARED
            &&& magnitude(t.z) <= MAX_RAW * ONE_SQUARED
        }),
    ensures
        ({
            let back = m.inverse().transform(m.transform(p));
            &&& -2 <= back.x@ - p.x@ <= 2
            &&& -2 <= back.y@ - p.y@ <= 2
            &&& -2 <= back.z@ - p.z@ <= 2
            &&& back.w == p.w
        }),
{
    let one = ONE_RAW as int;
    let b = ONE_SQUARED as int;
    assert(one * one == b) by (nonlinear_arith)
        requires
            one == 1048576,
            b == 1099511627776,
    ;
    let i = m@.inverse();
    let t = m@.transform(p@, one);
    let q = m.transform(p);
    lemma_inverse_as_stored(m);
    lemma_inverse_is_unit(m@, one);
    lemma_quantize_error(t.x, b);
    lemma_quantize_error(t.y, b);
    lemma_quantize_error(t.z, b);
    let u = i.transform(q@, one);
    lemma_unit_transform(i, q@, one);
    lemma_unit_transform(i, t, one);
    lemma_inverse_undoes(m@, p@, one);
    lemma_rotation_of_inverse(m@);
    lemma_rotation_is_orthogonal(m@);
    let r = i.rotation();
    assert(m@.norm() * m@.norm() == b * b);
    lemma_way_back(
        r.xx, r.xy, r.xz, i.shift_x(), p.w@, q.x@, q.y@, q.z@, t.x, t.y, t.z, b, u.x, p.x@,
    );
    lemma_way_back(
        r.yx, r.yy, r.yz, i.shift_y(), p.w@, q.x@, q.y@, q.z@, t.x, t.y, t.z, b, u.y, p.y@,
    );
    lemma_way_back(
        r.zx, r.zy, r.zz, i.shift_z(), p.w@, q.x@, q.y@, q.z@, t.x, t.y, t.z, b, u.z, p.z@,
    );
    lemma_quantize_near(u.x, b, p.x@);
    lemma_quantize_near(u.y, b, p.y@);
    lemma_quantize_near(u.z, b, p.z@);
}

/// The inverse of a motor and then the motor, as stored, put a point back
/// to within two raw units in every coordinate, and keep its weight.
pub proof fn lemma_inverse_is_undone_as_stored(m: Motor, p: Point)
    requires
        m.is_valid(),
        m@.is_unit(ONE_RAW as int),
        is_inside(p.x@) && is_inside(p.y@) && is_inside(p.z@),
        ({
            let t = m@.inverse().transform(p@, ONE_RAW as int);
            &&& magnitude(t.x) <= MAX_RAW * ONE_SQUARED
            &&& magnitude(t.y) <= MAX_RAW * ONE_SQUARED
            &&& magnitude(t.z) <= MAX_RAW * ONE_SQUARED
        }),
    ensures
        ({
            let back = m.transform(m.inverse().transform(p));
            &&& -2 <= back.x@ - p.x@ <= 2
            &&& -2 <= back.y@ - p.y@ <= 2
            &&& -2 <= back.z@ - p.z@ <= 2
            &&& back.w == p.w
        }),
{
    lemma_inverse_as_stored(m);
    lemma_inverse_is_unit(m@, ONE_RAW as int);
    lemma_inverse_undoes_as_stored(m.inverse(), p);
}

} // verus!
