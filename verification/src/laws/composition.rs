//! The motor product composes motions.

use crate::exact::{ExactMotor, ExactPoint};
use crate::laws::affine::{lemma_transform_is_affine, lemma_triple};
use crate::laws::rotation::lemma_rotation_of_product;
use crate::laws::shift::lemma_shift_of_product;
use vstd::prelude::*;

verus! {

/// One row of a matrix applied to an affine image, regrouped by the
/// coordinates of the point: with `r` a row of the second matrix, `k*` the
/// three rows of the first, `s*` its shift and `t` the shift of the second.
proof fn lemma_row_of_composition(
    r1: int,
    r2: int,
    r3: int,
    k11: int,
    k12: int,
    k13: int,
    k21: int,
    k22: int,
    k23: int,
    k31: int,
    k32: int,
    k33: int,
    s1: int,
    s2: int,
    s3: int,
    t: int,
    n: int,
    x: int,
    y: int,
    z: int,
    w: int,
)
    ensures
        r1 * (k11 * x + k12 * y + k13 * z + 2 * (s1 * w)) + r2 * (k21 * x + k22 * y + k23 * z + 2
            * (s2 * w)) + r3 * (k31 * x + k32 * y + k33 * z + 2 * (s3 * w)) + 2 * (t * (w * n))
            == (r1 * k11 + r2 * k21 + r3 * k31) * x + (r1 * k12 + r2 * k22 + r3 * k32) * y + (r1
            * k13 + r2 * k23 + r3 * k33) * z + 2 * ((r1 * s1 + r2 * s2 + r3 * s3 + n * t) * w),
{
    let q1 = k11 * x + k12 * y + k13 * z + 2 * (s1 * w);
    let q2 = k21 * x + k22 * y + k23 * z + 2 * (s2 * w);
    let q3 = k31 * x + k32 * y + k33 * z + 2 * (s3 * w);
    assert(r1 * q1 == r1 * (k11 * x) + r1 * (k12 * y) + r1 * (k13 * z) + 2 * (r1 * (s1
        * w))) by (nonlinear_arith)
        requires
            q1 == (k11 * x) + (k12 * y) + (k13 * z) + 2 * (s1 * w),
    ;
    lemma_triple(r1, k11, x);
    lemma_triple(r1, k12, y);
    lemma_triple(r1, k13, z);
    lemma_triple(r1, s1, w);
    assert(r2 * q2 == r2 * (k21 * x) + r2 * (k22 * y) + r2 * (k23 * z) + 2 * (r2 * (s2
        * w))) by (nonlinear_arith)
        requires
            q2 == (k21 * x) + (k22 * y) + (k23 * z) + 2 * (s2 * w),
    ;
    lemma_triple(r2, k21, x);
    lemma_triple(r2, k22, y);
    lemma_triple(r2, k23, z);
    lemma_triple(r2, s2, w);
    assert(r3 * q3 == r3 * (k31 * x) + r3 * (k32 * y) + r3 * (k33 * z) + 2 * (r3 * (s3
        * w))) by (nonlinear_arith)
        requires
            q3 == (k31 * x) + (k32 * y) + (k33 * z) + 2 * (s3 * w),
    ;
    lemma_triple(r3, k31, x);
    lemma_triple(r3, k32, y);
    lemma_triple(r3, k33, z);
    lemma_triple(r3, s3, w);
    assert(t * (w * n) == (n * t) * w) by (nonlinear_arith);
    let c1 = r1 * k11 + r2 * k21 + r3 * k31;
    let c2 = r1 * k12 + r2 * k22 + r3 * k32;
    let c3 = r1 * k13 + r2 * k23 + r3 * k33;
    let c4 = r1 * s1 + r2 * s2 + r3 * s3 + n * t;
    assert(c1 * x == (r1 * k11) * x + (r2 * k21) * x + (r3 * k31) * x) by (nonlinear_arith)
        requires
            c1 == r1 * k11 + r2 * k21 + r3 * k31,
    ;
    assert(c2 * y == (r1 * k12) * y + (r2 * k22) * y + (r3 * k32) * y) by (nonlinear_arith)
        requires
            c2 == r1 * k12 + r2 * k22 + r3 * k32,
    ;
    assert(c3 * z == (r1 * k13) * z + (r2 * k23) * z + (r3 * k33) * z) by (nonlinear_arith)
        requires
            c3 == r1 * k13 + r2 * k23 + r3 * k33,
    ;
    assert(c4 * w == (r1 * s1) * w + (r2 * s2) * w + (r3 * s3) * w + (n * t) * w)
        by (nonlinear_arith)
        requires
            c4 == r1 * s1 + r2 * s2 + r3 * s3 + n * t,
    ;
}

/// The product of two motors of length `one_a` and `one_b` has length
/// `one_a * one_b`.
pub proof fn lemma_product_is_unit(a: ExactMotor, b: ExactMotor, one_a: int, one_b: int)
    requires
        a.is_unit(one_a),
        b.is_unit(one_b),
    ensures
        a.combine(b).is_unit(one_a * one_b),
{
    lemma_rotation_of_product(a, b);
    assert((one_b * one_b) * (one_a * one_a) == (one_a * one_b) * (one_a * one_b))
        by (nonlinear_arith);
}

/// A motor acts on a point, when its rotation part has length `one`, by
/// its rotation matrix and its shift alone.
pub proof fn lemma_unit_transform(m: ExactMotor, p: ExactPoint, one: int)
    requires
        m.is_unit(one),
    ensures
        m.transform(p, one).x == m.rotation().xx * p.x + m.rotation().xy * p.y + m.rotation().xz
            * p.z + 2 * (m.shift_x() * p.w),
        m.transform(p, one).y == m.rotation().yx * p.x + m.rotation().yy * p.y + m.rotation().yz
            * p.z + 2 * (m.shift_y() * p.w),
        m.transform(p, one).z == m.rotation().zx * p.x + m.rotation().zy * p.y + m.rotation().zz
            * p.z + 2 * (m.shift_z() * p.w),
        m.transform(p, one).w == p.w * (one * one),
{
    broadcast use vstd::arithmetic::mul::group_mul_basics;
    lemma_transform_is_affine(m, p, one);
}

/// The product of two motors does what the first does and then what the
/// second does: for `a` of length `one_a` and `b` of length `one_b`, the
/// image of any point under `a.combine(b)` is the image under `b` of its
/// image under `a`.
pub proof fn lemma_combine_composes(
    a: ExactMotor,
    b: ExactMotor,
    p: ExactPoint,
    one_a: int,
    one_b: int,
)
    requires
        a.is_unit(one_a),
        b.is_unit(one_b),
    ensures
        a.combine(b).transform(p, one_a * one_b) == b.transform(a.transform(p, one_a), one_b),
{
    let c = a.combine(b);
    let q = a.transform(p, one_a);
    let ra = a.rotation();
    let rb = b.rotation();
    let n = a.norm();
    lemma_product_is_unit(a, b, one_a, one_b);
    lemma_rotation_of_product(a, b);
    lemma_shift_of_product(a, b);
    lemma_unit_transform(c, p, one_a * one_b);
    lemma_unit_transform(a, p, one_a);
    lemma_unit_transform(b, q, one_b);
    lemma_row_of_composition(
        rb.xx, rb.xy, rb.xz,
        ra.xx, ra.xy, ra.xz, ra.yx, ra.yy, ra.yz, ra.zx, ra.zy, ra.zz,
        a.shift_x(), a.shift_y(), a.shift_z(), b.shift_x(), n, p.x, p.y, p.z, p.w,
    );
    lemma_row_of_composition(
        rb.yx, rb.yy, rb.yz,
        ra.xx, ra.xy, ra.xz, ra.yx, ra.yy, ra.yz, ra.zx, ra.zy, ra.zz,
        a.shift_x(), a.shift_y(), a.shift_z(), b.shift_y(), n, p.x, p.y, p.z, p.w,
    );
    lemma_row_of_composition(
        rb.zx, rb.zy, rb.zz,
        ra.xx, ra.xy, ra.xz, ra.yx, ra.yy, ra.yz, ra.zx, ra.zy, ra.zz,
        a.shift_x(), a.shift_y(), a.shift_z(), b.shift_z(), n, p.x, p.y, p.z, p.w,
    );
    assert(p.w * (one_a * one_a) * (one_b * one_b) == p.w * ((one_a * one_b) * (one_a * one_b)))
        by (nonlinear_arith);
}

} // verus!
