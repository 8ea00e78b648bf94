//! Points on lines and lines in planes.

use crate::exact::{ExactLine, ExactPlane, ExactPoint};
use crate::laws::affine::lemma_monomial;
use vstd::prelude::*;

verus! {

/// The plane through a line and one of the two points that the line
/// joins, before the signs are put to the terms: every product of a
/// coordinate of the line with a coordinate of either point.
proof fn lemma_line_times_point(p1: ExactPoint, p2: ExactPoint, q: ExactPoint)
    ensures
        ({
            let l = p1.join(p2);
            &&& l.vx * q.x == (p1.w * p2.x) * q.x - (p1.x * p2.w) * q.x
            &&& l.vx * q.y == (p1.w * p2.x) * q.y - (p1.x * p2.w) * q.y
            &&& l.vx * q.z == (p1.w * p2.x) * q.z - (p1.x * p2.w) * q.z
            &&& l.vx * q.w == (p1.w * p2.x) * q.w - (p1.x * p2.w) * q.w
            &&& l.vy * q.x == (p1.w * p2.y) * q.x - (p1.y * p2.w) * q.x
            &&& l.vy * q.y == (p1.w * p2.y) * q.y - (p1.y * p2.w) * q.y
            &&& l.vy * q.z == (p1.w * p2.y) * q.z - (p1.y * p2.w) * q.z
            &&& l.vy * q.w == (p1.w * p2.y) * q.w - (p1.y * p2.w) * q.w
            &&& l.vz * q.x == (p1.w * p2.z) * q.x - (p1.z * p2.w) * q.x
            &&& l.vz * q.y == (p1.w * p2.z) * q.y - (p1.z * p2.w) * q.y
            &&& l.vz * q.z == (p1.w * p2.z) * q.z - (p1.z * p2.w) * q.z
            &&& l.vz * q.w == (p1.w * p2.z) * q.w - (p1.z * p2.w) * q.w
            &&& l.mx * q.x == (p1.y * p2.z) * q.x - (p1.z * p2.y) * q.x
            &&& l.mx * q.y == (p1.y * p2.z) * q.y - (p1.z * p2.y) * q.y
            &&& l.mx * q.z == (p1.y * p2.z) * q.z - (p1.z * p2.y) * q.z
            &&& l.mx * q.w == (p1.y * p2.z) * q.w - (p1.z * p2.y) * q.w
            &&& l.my * q.x == (p1.z * p2.x) * q.x - (p1.x * p2.z) * q.x
            &&& l.my * q.y == (p1.z * p2.x) * q.y - (p1.x * p2.z) * q.y
            &&& l.my * q.z == (p1.z * p2.x) * q.z - (p1.x * p2.z) * q.z
            &&& l.my * q.w == (p1.z * p2.x) * q.w - (p1.x * p2.z) * q.w
            &&& l.mz * q.x == (p1.x * p2.y) * q.x - (p1.y * p2.x) * q.x
            &&& l.mz * q.y == (p1.x * p2.y) * q.y - (p1.y * p2.x) * q.y
            &&& l.mz * q.z == (p1.x * p2.y) * q.z - (p1.y * p2.x) * q.z
            &&& l.mz * q.w == (p1.x * p2.y) * q.w - (p1.y * p2.x) * q.w
        }),
{
    let l = p1.join(p2);
    let l_vx = l.vx;
    assert(l_vx * q.x == (p1.w * p2.x) * q.x - (p1.x * p2.w) * q.x) by (nonlinear_arith)
        requires
            l_vx == p1.w * p2.x - p1.x * p2.w,
    ;
    assert(l_vx * q.y == (p1.w * p2.x) * q.y - (p1.x * p2.w) * q.y) by (nonlinear_arith)
        requires
            l_vx == p1.w * p2.x - p1.x * p2.w,
    ;
    assert(l_vx * q.z == (p1.w * p2.x) * q.z - (p1.x * p2.w) * q.z) by (nonlinear_arith)
        requires
            l_vx == p1.w * p2.x - p1.x * p2.w,
    ;
    assert(l_vx * q.w == (p1.w * p2.x) * q.w - (p1.x * p2.w) * q.w) by (nonlinear_arith)
        requires
            l_vx == p1.w * p2.x - p1.x * p2.w,
    ;
    let l_vy = l.vy;
    assert(l_vy * q.x == (p1.w * p2.y) * q.x - (p1.y * p2.w) * q.x) by (nonlinear_arith)
        requires
            l_vy == p1.w * p2.y - p1.y * p2.w,
    ;
    assert(l_vy * q.y == (p1.w * p2.y) * q.y - (p1.y * p2.w) * q.y) by (nonlinear_arith)
        requires
            l_vy == p1.w * p2.y - p1.y * p2.w,
    ;
    assert(l_vy * q.z == (p1.w * p2.y) * q.z - (p1.y * p2.w) * q.z) by (nonlinear_arith)
        requires
            l_vy == p1.w * p2.y - p1.y * p2.w,
    ;
    assert(l_vy * q.w == (p1.w * p2.y) * q.w - (p1.y * p2.w) * q.w) by (nonlinear_arith)
        requires
            l_vy == p1.w * p2.y - p1.y * p2.w,
    ;
    let l_vz = l.vz;
    assert(l_vz * q.x == (p1.w * p2.z) * q.x - (p1.z * p2.w) * q.x) by (nonlinear_arith)
        requires
            l_vz == p1.w * p2.z - p1.z * p2.w,
    ;
    assert(l_vz * q.y == (p1.w * p2.z) * q.y - (p1.z * p2.w) * q.y) by (nonlinear_arith)
        requires
            l_vz == p1.w * p2.z - p1.z * p2.w,
    ;
    assert(l_vz * q.z == (p1.w * p2.z) * q.z - (p1.z * p2.w) * q.z) by (nonlinear_arith)
        requires
            l_vz == p1.w * p2.z - p1.z * p2.w,
    ;
    assert(l_vz * q.w == (p1.w * p2.z) * q.w - (p1.z * p2.w) * q.w) by (nonlinear_arith)
        requires
            l_vz == p1.w * p2.z - p1.z * p2.w,
    ;
    let l_mx = l.mx;
    assert(l_mx * q.x == (p1.y * p2.z) * q.x - (p1.z * p2.y) * q.x) by (nonlinear_arith)
        requires
            l_mx == p1.y * p2.z - p1.z * p2.y,
    ;
    assert(l_mx * q.y == (p1.y * p2.z) * q.y - (p1.z * p2.y) * q.y) by (nonlinear_arith)
        requires
            l_mx == p1.y * p2.z - p1.z * p2.y,
    ;
    assert(l_mx * q.z == (p1.y * p2.z) * q.z - (p1.z * p2.y) * q.z) by (nonlinear_arith)
        requires
            l_mx == p1.y * p2.z - p1.z * p2.y,
    ;
    assert(l_mx * q.w == (p1.y * p2.z) * q.w - (p1.z * p2.y) * q.w) by (nonlinear_arith)
        requires
            l_mx == p1.y * p2.z - p1.z * p2.y,
    ;
    let l_my = l.my;
    assert(l_my * q.x == (p1.z * p2.x) * q.x - (p1.x * p2.z) * q.x) by (nonlinear_arith)
        requires
            l_my == p1.z * p2.x - p1.x * p2.z,
    ;
    assert(l_my * q.y == (p1.z * p2.x) * q.y - (p1.x * p2.z) * q.y) by (nonlinear_arith)
        requires
            l_my == p1.z * p2.x - p1.x * p2.z,
    ;
    assert(l_my * q.z == (p1.z * p2.x) * q.z - (p1.x * p2.z) * q.z) by (nonlinear_arith)
        requires
            l_my == p1.z * p2.x - p1.x * p2.z,
    ;
    assert(l_my * q.w == (p1.z * p2.x) * q.w - (p1.x * p2.z) * q.w) by (nonlinear_arith)
        requires
            l_my == p1.z * p2.x - p1.x * p2.z,
    ;
    let l_mz = l.mz;
    assert(l_mz * q.x == (p1.x * p2.y) * q.x - (p1.y * p2.x) * q.x) by (nonlinear_arith)
        requires
            l_mz == p1.x * p2.y - p1.y * p2.x,
    ;
    assert(l_mz * q.y == (p1.x * p2.y) * q.y - (p1.y * p2.x) * q.y) by (nonlinear_arith)
        requires
            l_mz == p1.x * p2.y - p1.y * p2.x,
    ;
    assert(l_mz * q.z == (p1.x * p2.y) * q.z - (p1.y * p2.x) * q.z) by (nonlinear_arith)
        requires
            l_mz == p1.x * p2.y - p1.y * p2.x,
    ;
    assert(l_mz * q.w == (p1.x * p2.y) * q.w - (p1.y * p2.x) * q.w) by (nonlinear_arith)
        requires
            l_mz == p1.x * p2.y - p1.y * p2.x,
    ;
}

/// Every product of a coefficient of a plane with a coordinate of the
/// line that joins two points.
proof fn lemma_plane_times_line(p1: ExactPoint, p2: ExactPoint, g: ExactPlane)
    ensures
        ({
            let l = p1.join(p2);
            &&& g.x * l.vx == g.x * (p1.w * p2.x) - g.x * (p1.x * p2.w)
            &&& g.y * l.vx == g.y * (p1.w * p2.x) - g.y * (p1.x * p2.w)
            &&& g.z * l.vx == g.z * (p1.w * p2.x) - g.z * (p1.x * p2.w)
            &&& g.w * l.vx == g.w * (p1.w * p2.x) - g.w * (p1.x * p2.w)
            &&& g.x * l.vy == g.x * (p1.w * p2.y) - g.x * (p1.y * p2.w)
            &&& g.y * l.vy == g.y * (p1.w * p2.y) - g.y * (p1.y * p2.w)
            &&& g.z * l.vy == g.z * (p1.w * p2.y) - g.z * (p1.y * p2.w)
            &&& g.w * l.vy == g.w * (p1.w * p2.y) - g.w * (p1.y * p2.w)
            &&& g.x * l.vz == g.x * (p1.w * p2.z) - g.x * (p1.z * p2.w)
            &&& g.y * l.vz == g.y * (p1.w * p2.z) - g.y * (p1.z * p2.w)
            &&& g.z * l.vz == g.z * (p1.w * p2.z) - g.z * (p1.z * p2.w)
            &&& g.w * l.vz == g.w * (p1.w * p2.z) - g.w * (p1.z * p2.w)
            &&& g.x * l.mx == g.x * (p1.y * p2.z) - g.x * (p1.z * p2.y)
            &&& g.y * l.mx == g.y * (p1.y * p2.z) - g.y * (p1.z * p2.y)
            &&& g.z * l.mx == g.z * (p1.y * p2.z) - g.z * (p1.z * p2.y)
            &&& g.w * l.mx == g.w * (p1.y * p2.z) - g.w * (p1.z * p2.y)
            &&& g.x * l.my == g.x * (p1.z * p2.x) - g.x * (p1.x * p2.z)
            &&& g.y * l.my == g.y * (p1.z * p2.x) - g.y * (p1.x * p2.z)
            &&& g.z * l.my == g.z * (p1.z * p2.x) - g.z * (p1.x * p2.z)
            &&& g.w * l.my == g.w * (p1.z * p2.x) - g.w * (p1.x * p2.z)
            &&& g.x * l.mz == g.x * (p1.x * p2.y) - g.x * (p1.y * p2.x)
            &&& g.y * l.mz == g.y * (p1.x * p2.y) - g.y * (p1.y * p2.x)
            &&& g.z * l.mz == g.z * (p1.x * p2.y) - g.z * (p1.y * p2.x)
            &&& g.w * l.mz == g.w * (p1.x * p2.y) - g.w * (p1.y * p2.x)
        }),
{
    let l = p1.join(p2);
    let l_vx = l.vx;
    assert(g.x * l_vx == g.x * (p1.w * p2.x) - g.x * (p1.x * p2.w)) by (nonlinear_arith)
        requires
            l_vx == p1.w * p2.x - p1.x * p2.w,
    ;
    assert(g.y * l_vx == g.y * (p1.w * p2.x) - g.y * (p1.x * p2.w)) by (nonlinear_arith)
        requires
            l_vx == p1.w * p2.x - p1.x * p2.w,
    ;
    assert(g.z * l_vx == g.z * (p1.w * p2.x) - g.z * (p1.x * p2.w)) by (nonlinear_arith)
        requires
            l_vx == p1.w * p2.x - p1.x * p2.w,
    ;
    assert(g.w * l_vx == g.w * (p1.w * p2.x) - g.w * (p1.x * p2.w)) by (nonlinear_arith)
        requires
            l_vx == p1.w * p2.x - p1.x * p2.w,
    ;
    let l_vy = l.vy;
    assert(g.x * l_vy == g.x * (p1.w * p2.y) - g.x * (p1.y * p2.w)) by (nonlinear_arith)
        requires
            l_vy == p1.w * p2.y - p1.y * p2.w,
    ;
    assert(g.y * l_vy == g.y * (p1.w * p2.y) - g.y * (p1.y * p2.w)) by (nonlinear_arith)
        requires
            l_vy == p1.w * p2.y - p1.y * p2.w,
    ;
    assert(g.z * l_vy == g.z * (p1.w * p2.y) - g.z * (p1.y * p2.w)) by (nonlinear_arith)
        requires
            l_vy == p1.w * p2.y - p1.y * p2.w,
    ;
    assert(g.w * l_vy == g.w * (p1.w * p2.y) - g.w * (p1.y * p2.w)) by (nonlinear_arith)
        requires
            l_vy == p1.w * p2.y - p1.y * p2.w,
    ;
    let l_vz = l.vz;
    assert(g.x * l_vz == g.x * (p1.w * p2.z) - g.x * (p1.z * p2.w)) by (nonlinear_arith)
        requires
            l_vz == p1.w * p2.z - p1.z * p2.w,
    ;
    assert(g.y * l_vz == g.y * (p1.w * p2.z) - g.y * (p1.z * p2.w)) by (nonlinear_arith)
        requires
            l_vz == p1.w * p2.z - p1.z * p2.w,
    ;
    assert(g.z * l_vz == g.z * (p1.w * p2.z) - g.z * (p1.z * p2.w)) by (nonlinear_arith)
        requires
            l_vz == p1.w * p2.z - p1.z * p2.w,
    ;
    assert(g.w * l_vz == g.w * (p1.w * p2.z) - g.w * (p1.z * p2.w)) by (nonlinear_arith)
        requires
            l_vz == p1.w * p2.z - p1.z * p2.w,
    ;
    let l_mx = l.mx;
    assert(g.x * l_mx == g.x * (p1.y * p2.z) - g.x * (p1.z * p2.y)) by (nonlinear_arith)
        requires
            l_mx == p1.y * p2.z - p1.z * p2.y,
    ;
    assert(g.y * l_mx == g.y * (p1.y * p2.z) - g.y * (p1.z * p2.y)) by (nonlinear_arith)
        requires
            l_mx == p1.y * p2.z - p1.z * p2.y,
    ;
    assert(g.z * l_mx == g.z * (p1.y * p2.z) - g.z * (p1.z * p2.y)) by (nonlinear_arith)
        requires
            l_mx == p1.y * p2.z - p1.z * p2.y,
    ;
    assert(g.w * l_mx == g.w * (p1.y * p2.z) - g.w * (p1.z * p2.y)) by (nonlinear_arith)
        requires
            l_mx == p1.y * p2.z - p1.z * p2.y,
    ;
    let l_my = l.my;
    assert(g.x * l_my == g.x * (p1.z * p2.x) - g.x * (p1.x * p2.z)) by (nonlinear_arith)
        requires
            l_my == p1.z * p2.x - p1.x * p2.z,
    ;
    assert(g.y * l_my == g.y * (p1.z * p2.x) - g.y * (p1.x * p2.z)) by (nonlinear_arith)
        requires
            l_my == p1.z * p2.x - p1.x * p2.z,
    ;
    assert(g.z * l_my == g.z * (p1.z * p2.x) - g.z * (p1.x * p2.z)) by (nonlinear_arith)
        requires
            l_my == p1.z * p2.x - p1.x * p2.z,
    ;
    assert(g.w * l_my == g.w * (p1.z * p2.x) - g.w * (p1.x * p2.z)) by (nonlinear_arith)
        requires
            l_my == p1.z * p2.x - p1.x * p2.z,
    ;
    let l_mz = l.mz;
    assert(g.x * l_mz == g.x * (p1.x * p2.y) - g.x * (p1.y * p2.x)) by (nonlinear_arith)
        requires
            l_mz == p1.x * p2.y - p1.y * p2.x,
    ;
    assert(g.y * l_mz == g.y * (p1.x * p2.y) - g.y * (p1.y * p2.x)) by (nonlinear_arith)
        requires
            l_mz == p1.x * p2.y - p1.y * p2.x,
    ;
    assert(g.z * l_mz == g.z * (p1.x * p2.y) - g.z * (p1.y * p2.x)) by (nonlinear_arith)
        requires
            l_mz == p1.x * p2.y - p1.y * p2.x,
    ;
    assert(g.w * l_mz == g.w * (p1.x * p2.y) - g.w * (p1.y * p2.x)) by (nonlinear_arith)
        requires
            l_mz == p1.x * p2.y - p1.y * p2.x,
    ;
}

/// The plane through a line and either of the two points that the line
/// joins is the zero plane.
pub proof fn lemma_line_holds_its_points(p1: ExactPoint, p2: ExactPoint)
    ensures
        p1.join(p2).join(p1) == ExactPlane::zero(),
        p1.join(p2).join(p2) == ExactPlane::zero(),
        p1.expand_line(p1.join(p2)) == ExactPlane::zero(),
        p2.expand_line(p1.join(p2)) == ExactPlane::zero(),
{
    lemma_line_times_point(p1, p2, p1);
    lemma_line_times_point(p1, p2, p2);
    lemma_monomial(p1.w, p2.x, p1.y);
    lemma_monomial(p1.w, p2.x, p1.z);
    lemma_monomial(p1.w, p2.y, p1.x);
    lemma_monomial(p1.w, p2.y, p1.z);
    lemma_monomial(p1.w, p2.z, p1.x);
    lemma_monomial(p1.w, p2.z, p1.y);
    lemma_monomial(p1.x, p2.w, p1.y);
    lemma_monomial(p1.x, p2.w, p1.z);
    lemma_monomial(p1.x, p2.y, p1.w);
    lemma_monomial(p1.x, p2.y, p1.z);
    lemma_monomial(p1.x, p2.z, p1.w);
    lemma_monomial(p1.x, p2.z, p1.y);
    lemma_monomial(p1.y, p2.w, p1.x);
    lemma_monomial(p1.y, p2.w, p1.z);
    lemma_monomial(p1.y, p2.x, p1.w);
    lemma_monomial(p1.y, p2.x, p1.z);
    lemma_monomial(p1.y, p2.z, p1.w);
    lemma_monomial(p1.y, p2.z, p1.x);
    lemma_monomial(p1.z, p2.w, p1.x);
    lemma_monomial(p1.z, p2.w, p1.y);
    lemma_monomial(p1.z, p2.x, p1.w);
    lemma_monomial(p1.z, p2.x, p1.y);
    lemma_monomial(p1.z, p2.y, p1.w);
    lemma_monomial(p1.z, p2.y, p1.x);
    lemma_monomial(p1.w, p2.x, p2.y);
    lemma_monomial(p1.w, p2.x, p2.z);
    lemma_monomial(p1.w, p2.y, p2.x);
    lemma_monomial(p1.w, p2.y, p2.z);
    lemma_monomial(p1.w, p2.z, p2.x);
    lemma_monomial(p1.w, p2.z, p2.y);
    lemma_monomial(p1.x, p2.w, p2.y);
    lemma_monomial(p1.x, p2.w, p2.z);
    lemma_monomial(p1.x, p2.y, p2.w);
    lemma_monomial(p1.x, p2.y, p2.z);
    lemma_monomial(p1.x, p2.z, p2.w);
    lemma_monomial(p1.x, p2.z, p2.y);
    lemma_monomial(p1.y, p2.w, p2.x);
    lemma_monomial(p1.y, p2.w, p2.z);
    lemma_monomial(p1.y, p2.x, p2.w);
    lemma_monomial(p1.y, p2.x, p2.z);
    lemma_monomial(p1.y, p2.z, p2.w);
    lemma_monomial(p1.y, p2.z, p2.x);
    lemma_monomial(p1.z, p2.w, p2.x);
    lemma_monomial(p1.z, p2.w, p2.y);
    lemma_monomial(p1.z, p2.x, p2.w);
    lemma_monomial(p1.z, p2.x, p2.y);
    lemma_monomial(p1.z, p2.y, p2.w);
    lemma_monomial(p1.z, p2.y, p2.x);
}

/// The plane through a line and any point on it is the zero plane: for
/// the line that joins `p1` and `p2` and the point `a * p1 + b * p2`.
pub proof fn lemma_point_on_line(p1: ExactPoint, p2: ExactPoint, a: int, b: int)
    ensures
        ({
            let q = ExactPoint {
                x: a * p1.x + b * p2.x,
                y: a * p1.y + b * p2.y,
                z: a * p1.z + b * p2.z,
                w: a * p1.w + b * p2.w,
            };
            &&& p1.join(p2).join(q) == ExactPlane::zero()
            &&& q.expand_line(p1.join(p2)) == ExactPlane::zero()
        }),
{
    broadcast use vstd::arithmetic::mul::group_mul_basics;
    let l = p1.join(p2);
    let q = ExactPoint {
        x: a * p1.x + b * p2.x,
        y: a * p1.y + b * p2.y,
        z: a * p1.z + b * p2.z,
        w: a * p1.w + b * p2.w,
    };
    lemma_line_holds_its_points(p1, p2);
    assert(l.join(p1) == ExactPlane::zero());
    assert(l.join(p2) == ExactPlane::zero());
    assert(l.vy * q.z == a * (l.vy * p1.z) + b * (l.vy * p2.z)) by (nonlinear_arith)
        requires
            q.z == a * p1.z + b * p2.z,
    ;
    assert(l.vz * q.y == a * (l.vz * p1.y) + b * (l.vz * p2.y)) by (nonlinear_arith)
        requires
            q.y == a * p1.y + b * p2.y,
    ;
    assert(l.mx * q.w == a * (l.mx * p1.w) + b * (l.mx * p2.w)) by (nonlinear_arith)
        requires
            q.w == a * p1.w + b * p2.w,
    ;
    assert(l.vz * q.x == a * (l.vz * p1.x) + b * (l.vz * p2.x)) by (nonlinear_arith)
        requires
            q.x == a * p1.x + b * p2.x,
    ;
    assert(l.vx * q.z == a * (l.vx * p1.z) + b * (l.vx * p2.z)) by (nonlinear_arith)
        requires
            q.z == a * p1.z + b * p2.z,
    ;
    assert(l.my * q.w == a * (l.my * p1.w) + b * (l.my * p2.w)) by (nonlinear_arith)
        requires
            q.w == a * p1.w + b * p2.w,
    ;
    assert(l.vx * q.y == a * (l.vx * p1.y) + b * (l.vx * p2.y)) by (nonlinear_arith)
        requires
            q.y == a * p1.y + b * p2.y,
    ;
    assert(l.vy * q.x == a * (l.vy * p1.x) + b * (l.vy * p2.x)) by (nonlinear_arith)
        requires
            q.x == a * p1.x + b * p2.x,
    ;
    assert(l.mz * q.w == a * (l.mz * p1.w) + b * (l.mz * p2.w)) by (nonlinear_arith)
        requires
            q.w == a * p1.w + b * p2.w,
    ;
    assert(l.mx * q.x == a * (l.mx * p1.x) + b * (l.mx * p2.x)) by (nonlinear_arith)
        requires
            q.x == a * p1.x + b * p2.x,
    ;
    assert(l.my * q.y == a * (l.my * p1.y) + b * (l.my * p2.y)) by (nonlinear_arith)
        requires
            q.y == a * p1.y + b * p2.y,
    ;
    assert(l.mz * q.z == a * (l.mz * p1.z) + b * (l.mz * p2.z)) by (nonlinear_arith)
        requires
            q.z == a * p1.z + b * p2.z,
    ;
    assert(a * (l.vy * p1.z) - a * (l.vz * p1.y) + a * (l.mx * p1.w) == a * ((l.vy * p1.z) - (l.vz * p1.y) + (l.mx * p1.w))) by (nonlinear_arith);
    assert(b * (l.vy * p2.z) - b * (l.vz * p2.y) + b * (l.mx * p2.w) == b * ((l.vy * p2.z) - (l.vz * p2.y) + (l.mx * p2.w))) by (nonlinear_arith);
    assert(a * (l.vz * p1.x) - a * (l.vx * p1.z) + a * (l.my * p1.w) == a * ((l.vz * p1.x) - (l.vx * p1.z) + (l.my * p1.w))) by (nonlinear_arith);
    assert(b * (l.vz * p2.x) - b * (l.vx * p2.z) + b * (l.my * p2.w) == b * ((l.vz * p2.x) - (l.vx * p2.z) + (l.my * p2.w))) by (nonlinear_arith);
    assert(a * (l.vx * p1.y) - a * (l.vy * p1.x) + a * (l.mz * p1.w) == a * ((l.vx * p1.y) - (l.vy * p1.x) + (l.mz * p1.w))) by (nonlinear_arith);
    assert(b * (l.vx * p2.y) - b * (l.vy * p2.x) + b * (l.mz * p2.w) == b * ((l.vx * p2.y) - (l.vy * p2.x) + (l.mz * p2.w))) by (nonlinear_arith);
    assert(-(a * (l.mx * p1.x)) - a * (l.my * p1.y) - a * (l.mz * p1.z) == a * (-(l.mx * p1.x) - (l.my * p1.y) - (l.mz * p1.z))) by (nonlinear_arith);
    assert(-(b * (l.mx * p2.x)) - b * (l.my * p2.y) - b * (l.mz * p2.z) == b * (-(l.mx * p2.x) - (l.my * p2.y) - (l.mz * p2.z))) by (nonlinear_arith);
}

/// What the line that joins two points has in common with a plane: the
/// first point as often as the second is off the plane, less the second
/// as often as the first is.
pub proof fn lemma_expand_of_join(p1: ExactPoint, p2: ExactPoint, g: ExactPlane)
    ensures
        p1.join(p2).expand(g) == (ExactPlane {
            x: g.at(p2) * p1.x - g.at(p1) * p2.x,
            y: g.at(p2) * p1.y - g.at(p1) * p2.y,
            z: g.at(p2) * p1.z - g.at(p1) * p2.z,
            w: g.at(p2) * p1.w - g.at(p1) * p2.w,
        }),
{
    let gp1 = g.at(p1);
    let gp2 = g.at(p2);
    lemma_plane_times_line(p1, p2, g);
    assert(gp2 * p1.x == (g.x * p2.x) * p1.x + (g.y * p2.y) * p1.x + (g.z * p2.z)
        * p1.x + (g.w * p2.w) * p1.x) by (nonlinear_arith)
        requires
            gp2 == g.x * p2.x + g.y * p2.y + g.z * p2.z + g.w * p2.w,
    ;
    assert(gp1 * p2.x == (g.x * p1.x) * p2.x + (g.y * p1.y) * p2.x + (g.z * p1.z)
        * p2.x + (g.w * p1.w) * p2.x) by (nonlinear_arith)
        requires
            gp1 == g.x * p1.x + g.y * p1.y + g.z * p1.z + g.w * p1.w,
    ;
    assert(gp2 * p1.y == (g.x * p2.x) * p1.y + (g.y * p2.y) * p1.y + (g.z * p2.z)
        * p1.y + (g.w * p2.w) * p1.y) by (nonlinear_arith)
        requires
            gp2 == g.x * p2.x + g.y * p2.y + g.z * p2.z + g.w * p2.w,
    ;
    assert(gp1 * p2.y == (g.x * p1.x) * p2.y + (g.y * p1.y) * p2.y + (g.z * p1.z)
        * p2.y + (g.w * p1.w) * p2.y) by (nonlinear_arith)
        requires
            gp1 == g.x * p1.x + g.y * p1.y + g.z * p1.z + g.w * p1.w,
    ;
    assert(gp2 * p1.z == (g.x * p2.x) * p1.z + (g.y * p2.y) * p1.z + (g.z * p2.z)
        * p1.z + (g.w * p2.w) * p1.z) by (nonlinear_arith)
        requires
            gp2 == g.x * p2.x + g.y * p2.y + g.z * p2.z + g.w * p2.w,
    ;
    assert(gp1 * p2.z == (g.x * p1.x) * p2.z + (g.y * p1.y) * p2.z + (g.z * p1.z)
        * p2.z + (g.w * p1.w) * p2.z) by (nonlinear_arith)
        requires
            gp1 == g.x * p1.x + g.y * p1.y + g.z * p1.z + g.w * p1.w,
    ;
    assert(gp2 * p1.w == (g.x * p2.x) * p1.w + (g.y * p2.y) * p1.w + (g.z * p2.z)
        * p1.w + (g.w * p2.w) * p1.w) by (nonlinear_arith)
        requires
            gp2 == g.x * p2.x + g.y * p2.y + g.z * p2.z + g.w * p2.w,
    ;
    assert(gp1 * p2.w == (g.x * p1.x) * p2.w + (g.y * p1.y) * p2.w + (g.z * p1.z)
        * p2.w + (g.w * p1.w) * p2.w) by (nonlinear_arith)
        requires
            gp1 == g.x * p1.x + g.y * p1.y + g.z * p1.z + g.w * p1.w,
    ;
    lemma_monomial(g.w, p1.w, p2.w);
    lemma_monomial(g.w, p1.w, p2.x);
    lemma_monomial(g.w, p1.w, p2.y);
    lemma_monomial(g.w, p1.w, p2.z);
    lemma_monomial(g.w, p1.x, p2.w);
    lemma_monomial(g.w, p1.x, p2.x);
    lemma_monomial(g.w, p1.x, p2.y);
    lemma_monomial(g.w, p1.x, p2.z);
    lemma_monomial(g.w, p1.y, p2.w);
    lemma_monomial(g.w, p1.y, p2.x);
    lemma_monomial(g.w, p1.y, p2.y);
    lemma_monomial(g.w, p1.y, p2.z);
    lemma_monomial(g.w, p1.z, p2.w);
    lemma_monomial(g.w, p1.z, p2.x);
    lemma_monomial(g.w, p1.z, p2.y);
    lemma_monomial(g.w, p1.z, p2.z);
    lemma_monomial(g.x, p1.w, p2.w);
    lemma_monomial(g.x, p1.w, p2.x);
    lemma_monomial(g.x, p1.w, p2.y);
    lemma_monomial(g.x, p1.w, p2.z);
    lemma_monomial(g.x, p1.x, p2.w);
    lemma_monomial(g.x, p1.x, p2.x);
    lemma_monomial(g.x, p1.x, p2.y);
    lemma_monomial(g.x, p1.x, p2.z);
    lemma_monomial(g.x, p1.y, p2.w);
    lemma_monomial(g.x, p1.y, p2.x);
    lemma_monomial(g.x, p1.y, p2.y);
    lemma_monomial(g.x, p1.y, p2.z);
    lemma_monomial(g.x, p1.z, p2.w);
    lemma_monomial(g.x, p1.z, p2.x);
    lemma_monomial(g.x, p1.z, p2.y);
    lemma_monomial(g.x, p1.z, p2.z);
    lemma_monomial(g.y, p1.w, p2.w);
    lemma_monomial(g.y, p1.w, p2.x);
    lemma_monomial(g.y, p1.w, p2.y);
    lemma_monomial(g.y, p1.w, p2.z);
    lemma_monomial(g.y, p1.x, p2.w);
    lemma_monomial(g.y, p1.x, p2.x);
    lemma_monomial(g.y, p1.x, p2.y);
    lemma_monomial(g.y, p1.x, p2.z);
    lemma_monomial(g.y, p1.y, p2.w);
    lemma_monomial(g.y, p1.y, p2.x);
    lemma_monomial(g.y, p1.y, p2.y);
    lemma_monomial(g.y, p1.y, p2.z);
    lemma_monomial(g.y, p1.z, p2.w);
    lemma_monomial(g.y, p1.z, p2.x);
    lemma_monomial(g.y, p1.z, p2.y);
    lemma_monomial(g.y, p1.z, p2.z);
    lemma_monomial(g.z, p1.w, p2.w);
    lemma_monomial(g.z, p1.w, p2.x);
    lemma_monomial(g.z, p1.w, p2.y);
    lemma_monomial(g.z, p1.w, p2.z);
    lemma_monomial(g.z, p1.x, p2.w);
    lemma_monomial(g.z, p1.x, p2.x);
    lemma_monomial(g.z, p1.x, p2.y);
    lemma_monomial(g.z, p1.x, p2.z);
    lemma_monomial(g.z, p1.y, p2.w);
    lemma_monomial(g.z, p1.y, p2.x);
    lemma_monomial(g.z, p1.y, p2.y);
    lemma_monomial(g.z, p1.y, p2.z);
    lemma_monomial(g.z, p1.z, p2.w);
    lemma_monomial(g.z, p1.z, p2.x);
    lemma_monomial(g.z, p1.z, p2.y);
    lemma_monomial(g.z, p1.z, p2.z);
}

/// Two numbers in the proportion of two others make every minor vanish.
proof fn lemma_minor(g1: int, g2: int, a1: int, b1: int, a2: int, b2: int)
    by (nonlinear_arith)
    requires
        g2 * a1 == g1 * a2,
        g2 * b1 == g1 * b2,
    ensures
        g1 * (b1 * a2 - a1 * b2) == 0,
        g2 * (b1 * a2 - a1 * b2) == 0,
{
}

/// A product is zero only if a factor is.
proof fn lemma_no_zero_divisors(a: int, b: int)
    by (nonlinear_arith)
    requires
        a * b == 0,
        b != 0,
    ensures
        a == 0,
{
}

/// A line gives the zero plane with a plane exactly when it lies in the
/// plane: for two points that are not one point, what their line has in
/// common with a plane is zero if and only if both points, and so the
/// whole line, lie in the plane.
pub proof fn lemma_expand_is_zero_iff(p1: ExactPoint, p2: ExactPoint, g: ExactPlane)
    requires
        p1.join(p2) != ExactLine::zero(),
    ensures
        p1.join(p2).expand(g) == ExactPlane::zero() <==> (g.at(p1) == 0 && g.at(p2) == 0),
{
    broadcast use vstd::arithmetic::mul::group_mul_basics;
    let l = p1.join(p2);
    let g1 = g.at(p1);
    let g2 = g.at(p2);
    lemma_expand_of_join(p1, p2, g);
    if l.expand(g) == ExactPlane::zero() {
        lemma_minor(g1, g2, p1.x, p1.w, p2.x, p2.w);
        lemma_minor(g1, g2, p1.y, p1.w, p2.y, p2.w);
        lemma_minor(g1, g2, p1.z, p1.w, p2.z, p2.w);
        lemma_minor(g1, g2, p1.z, p1.y, p2.z, p2.y);
        lemma_minor(g1, g2, p1.x, p1.z, p2.x, p2.z);
        lemma_minor(g1, g2, p1.y, p1.x, p2.y, p2.x);
        if l.vx != 0 {
            lemma_no_zero_divisors(g1, l.vx);
            lemma_no_zero_divisors(g2, l.vx);
        } else if l.vy != 0 {
            lemma_no_zero_divisors(g1, l.vy);
            lemma_no_zero_divisors(g2, l.vy);
        } else if l.vz != 0 {
            lemma_no_zero_divisors(g1, l.vz);
            lemma_no_zero_divisors(g2, l.vz);
        } else if l.mx != 0 {
            lemma_no_zero_divisors(g1, l.mx);
            lemma_no_zero_divisors(g2, l.mx);
        } else if l.my != 0 {
            lemma_no_zero_divisors(g1, l.my);
            lemma_no_zero_divisors(g2, l.my);
        } else {
            lemma_no_zero_divisors(g1, l.mz);
            lemma_no_zero_divisors(g2, l.mz);
        }
    }
}

} // verus!
