//! A motor acts on a point by a matrix and a shift.

use crate::exact::{ExactMotor, ExactPoint};
use vstd::prelude::*;

verus! {

/// A product of three numbers, regrouped.
pub proof fn lemma_triple(x: int, y: int, z: int)
    by (nonlinear_arith)
    ensures
        x * (y * z) == (x * y) * z,
        x * (y * z) == (y * x) * z,
        x * (y * z) == (x * z) * y,
        x * (y * z) == (z * x) * y,
{
}

/// A product of three numbers, in every order and grouping.
pub proof fn lemma_monomial(x: int, y: int, z: int)
    by (nonlinear_arith)
    ensures
        (x * y) * z == (y * x) * z,
        (x * y) * z == (x * z) * y,
        (x * y) * z == (z * x) * y,
        (x * y) * z == (y * z) * x,
        (x * y) * z == (z * y) * x,
        (x * y) * z == x * (y * z),
        (x * y) * z == x * (z * y),
        (x * y) * z == y * (x * z),
        (x * y) * z == y * (z * x),
        (x * y) * z == z * (x * y),
        (x * y) * z == z * (y * x),
{
}

/// [`lemma_transform_is_affine`], coordinate `x`.
proof fn lemma_transform_is_affine_x(m: ExactMotor, p: ExactPoint, one: int)
    ensures
        m.transform(p, one).x == m.rotation().xx * p.x + m.rotation().xy * p.y + m.rotation().xz * p.z + 2 * (m.shift_x() * p.w) + (one * one - m.norm()) * p.x,
{
    let ax = m.vy * p.z - m.vz * p.y + p.w * m.mx;
    let ay = m.vz * p.x - m.vx * p.z + p.w * m.my;
    let az = m.vx * p.y - m.vy * p.x + p.w * m.mz;
    assert(m.vw * ax == m.vw * (m.vy * p.z) - m.vw * (m.vz * p.y) + m.vw * (p.w * m.mx)) by (nonlinear_arith)
        requires
            ax == m.vy * p.z - m.vz * p.y + p.w * m.mx,
    ;
    lemma_triple(m.vw, m.vy, p.z);
    lemma_triple(m.vw, m.vz, p.y);
    lemma_triple(m.vw, p.w, m.mx);
    assert(m.vy * az == m.vy * (m.vx * p.y) - m.vy * (m.vy * p.x) + m.vy * (p.w * m.mz)) by (nonlinear_arith)
        requires
            az == m.vx * p.y - m.vy * p.x + p.w * m.mz,
    ;
    lemma_triple(m.vy, m.vx, p.y);
    lemma_triple(m.vy, m.vy, p.x);
    lemma_triple(m.vy, p.w, m.mz);
    assert(m.vz * ay == m.vz * (m.vz * p.x) - m.vz * (m.vx * p.z) + m.vz * (p.w * m.my)) by (nonlinear_arith)
        requires
            ay == m.vz * p.x - m.vx * p.z + p.w * m.my,
    ;
    lemma_triple(m.vz, m.vz, p.x);
    lemma_triple(m.vz, m.vx, p.z);
    lemma_triple(m.vz, p.w, m.my);
    lemma_triple(m.vx, m.mw, p.w);
    let r = m.rotation();
    let rxx = r.xx;
    assert(rxx * p.x == (m.vw * m.vw) * p.x + (m.vx * m.vx) * p.x - (m.vy * m.vy) * p.x - (m.vz * m.vz) * p.x) by (nonlinear_arith)
        requires
            rxx == m.vw * m.vw + m.vx * m.vx - m.vy * m.vy - m.vz * m.vz,
    ;
    let rxy = r.xy;
    assert(rxy * p.y == 2 * ((m.vx * m.vy) * p.y) - 2 * ((m.vz * m.vw) * p.y)) by (nonlinear_arith)
        requires
            rxy == 2 * (m.vx * m.vy - m.vz * m.vw),
    ;
    let rxz = r.xz;
    assert(rxz * p.z == 2 * ((m.vx * m.vz) * p.z) + 2 * ((m.vy * m.vw) * p.z)) by (nonlinear_arith)
        requires
            rxz == 2 * (m.vx * m.vz + m.vy * m.vw),
    ;
    let s = m.shift_x();
    assert(s * p.w == (m.vw * m.mx) * p.w + (m.vy * m.mz) * p.w - (m.vz * m.my) * p.w - (m.mw * m.vx) * p.w) by (nonlinear_arith)
        requires
            s == m.vw * m.mx + m.vy * m.mz - m.vz * m.my - m.mw * m.vx,
    ;
    let n = m.norm();
    assert((one * one - n) * p.x == p.x * (one * one) - (m.vx * m.vx) * p.x - (m.vy * m.vy) * p.x - (m.vz * m.vz) * p.x - (m.vw * m.vw) * p.x) by (nonlinear_arith)
        requires
            n == m.vx * m.vx + m.vy * m.vy + m.vz * m.vz + m.vw * m.vw,
    ;
}

/// [`lemma_transform_is_affine`], coordinate `y`.
proof fn lemma_transform_is_affine_y(m: ExactMotor, p: ExactPoint, one: int)
    ensures
        m.transform(p, one).y == m.rotation().yx * p.x + m.rotation().yy * p.y + m.rotation().yz * p.z + 2 * (m.shift_y() * p.w) + (one * one - m.norm()) * p.y,
{
    let ax = m.vy * p.z - m.vz * p.y + p.w * m.mx;
    let ay = m.vz * p.x - m.vx * p.z + p.w * m.my;
    let az = m.vx * p.y - m.vy * p.x + p.w * m.mz;
    assert(m.vw * ay == m.vw * (m.vz * p.x) - m.vw * (m.vx * p.z) + m.vw * (p.w * m.my)) by (nonlinear_arith)
        requires
            ay == m.vz * p.x - m.vx * p.z + p.w * m.my,
    ;
    lemma_triple(m.vw, m.vz, p.x);
    lemma_triple(m.vw, m.vx, p.z);
    lemma_triple(m.vw, p.w, m.my);
    assert(m.vz * ax == m.vz * (m.vy * p.z) - m.vz * (m.vz * p.y) + m.vz * (p.w * m.mx)) by (nonlinear_arith)
        requires
            ax == m.vy * p.z - m.vz * p.y + p.w * m.mx,
    ;
    lemma_triple(m.vz, m.vy, p.z);
    lemma_triple(m.vz, m.vz, p.y);
    lemma_triple(m.vz, p.w, m.mx);
    assert(m.vx * az == m.vx * (m.vx * p.y) - m.vx * (m.vy * p.x) + m.vx * (p.w * m.mz)) by (nonlinear_arith)
        requires
            az == m.vx * p.y - m.vy * p.x + p.w * m.mz,
    ;
    lemma_triple(m.vx, m.vx, p.y);
    lemma_triple(m.vx, m.vy, p.x);
    lemma_triple(m.vx, p.w, m.mz);
    lemma_triple(m.vy, m.mw, p.w);
    let r = m.rotation();
    let ryx = r.yx;
    assert(ryx * p.x == 2 * ((m.vx * m.vy) * p.x) + 2 * ((m.vz * m.vw) * p.x)) by (nonlinear_arith)
        requires
            ryx == 2 * (m.vx * m.vy + m.vz * m.vw),
    ;
    let ryy = r.yy;
    assert(ryy * p.y == (m.vw * m.vw) * p.y - (m.vx * m.vx) * p.y + (m.vy * m.vy) * p.y - (m.vz * m.vz) * p.y) by (nonlinear_arith)
        requires
            ryy == m.vw * m.vw - m.vx * m.vx + m.vy * m.vy - m.vz * m.vz,
    ;
    let ryz = r.yz;
    assert(ryz * p.z == 2 * ((m.vy * m.vz) * p.z) - 2 * ((m.vx * m.vw) * p.z)) by (nonlinear_arith)
        requires
            ryz == 2 * (m.vy * m.vz - m.vx * m.vw),
    ;
    let s = m.shift_y();
    assert(s * p.w == (m.vw * m.my) * p.w + (m.vz * m.mx) * p.w - (m.vx * m.mz) * p.w - (m.mw * m.vy) * p.w) by (nonlinear_arith)
        requires
            s == m.vw * m.my + m.vz * m.mx - m.vx * m.mz - m.mw * m.vy,
    ;
    let n = m.norm();
    assert((one * one - n) * p.y == p.y * (one * one) - (m.vx * m.vx) * p.y - (m.vy * m.vy) * p.y - (m.vz * m.vz) * p.y - (m.vw * m.vw) * p.y) by (nonlinear_arith)
        requires
            n == m.vx * m.vx + m.vy * m.vy + m.vz * m.vz + m.vw * m.vw,
    ;
}

/// [`lemma_transform_is_affine`], coordinate `z`.
proof fn lemma_transform_is_affine_z(m: ExactMotor, p: ExactPoint, one: int)
    ensures
        m.transform(p, one).z == m.rotation().zx * p.x + m.rotation().zy * p.y + m.rotation().zz * p.z + 2 * (m.shift_z() * p.w) + (one * one - m.norm()) * p.z,
{
    let ax = m.vy * p.z - m.vz * p.y + p.w * m.mx;
    let ay = m.vz * p.x - m.vx * p.z + p.w * m.my;
    let az = m.vx * p.y - m.vy * p.x + p.w * m.mz;
    assert(m.vw * az == m.vw * (m.vx * p.y) - m.vw * (m.vy * p.x) + m.vw * (p.w * m.mz)) by (nonlinear_arith)
        requires
            az == m.vx * p.y - m.vy * p.x + p.w * m.mz,
    ;
    lemma_triple(m.vw, m.vx, p.y);
    lemma_triple(m.vw, m.vy, p.x);
    lemma_triple(m.vw, p.w, m.mz);
    assert(m.vx * ay == m.vx * (m.vz * p.x) - m.vx * (m.vx * p.z) + m.vx * (p.w * m.my)) by (nonlinear_arith)
        requires
            ay == m.vz * p.x - m.vx * p.z + p.w * m.my,
    ;
    lemma_triple(m.vx, m.vz, p.x);
    lemma_triple(m.vx, m.vx, p.z);
    lemma_triple(m.vx, p.w, m.my);
    assert(m.vy * ax == m.vy * (m.vy * p.z) - m.vy * (m.vz * p.y) + m.vy * (p.w * m.mx)) by (nonlinear_arith)
        requires
            ax == m.vy * p.z - m.vz * p.y + p.w * m.mx,
    ;
    lemma_triple(m.vy, m.vy, p.z);
    lemma_triple(m.vy, m.vz, p.y);
    lemma_triple(m.vy, p.w, m.mx);
    lemma_triple(m.vz, m.mw, p.w);
    let r = m.rotation();
    let rzx = r.zx;
    assert(rzx * p.x == 2 * ((m.vx * m.vz) * p.x) - 2 * ((m.vy * m.vw) * p.x)) by (nonlinear_arith)
        requires
            rzx == 2 * (m.vx * m.vz - m.vy * m.vw),
    ;
    let rzy = r.zy;
    assert(rzy * p.y == 2 * ((m.vy * m.vz) * p.y) + 2 * ((m.vx * m.vw) * p.y)) by (nonlinear_arith)
        requires
            rzy == 2 * (m.vy * m.vz + m.vx * m.vw),
    ;
    let rzz = r.zz;
    assert(rzz * p.z == (m.vw * m.vw) * p.z - (m.vx * m.vx) * p.z - (m.vy * m.vy) * p.z + (m.vz * m.vz) * p.z) by (nonlinear_arith)
        requires
            rzz == m.vw * m.vw - m.vx * m.vx - m.vy * m.vy + m.vz * m.vz,
    ;
    let s = m.shift_z();
    assert(s * p.w == (m.vw * m.mz) * p.w + (m.vx * m.my) * p.w - (m.vy * m.mx) * p.w - (m.mw * m.vz) * p.w) by (nonlinear_arith)
        requires
            s == m.vw * m.mz + m.vx * m.my - m.vy * m.mx - m.mw * m.vz,
    ;
    let n = m.norm();
    assert((one * one - n) * p.z == p.z * (one * one) - (m.vx * m.vx) * p.z - (m.vy * m.vy) * p.z - (m.vz * m.vz) * p.z - (m.vw * m.vw) * p.z) by (nonlinear_arith)
        requires
            n == m.vx * m.vx + m.vy * m.vy + m.vz * m.vz + m.vw * m.vw,
    ;
}

/// The image of a point under a motor is the rotation matrix of the motor
/// applied to the point, plus twice its shift times the weight of the
/// point, plus the point times what the rotation part lacks of length
/// `one`.
pub proof fn lemma_transform_is_affine(m: ExactMotor, p: ExactPoint, one: int)
    ensures
        m.transform(p, one).x == m.rotation().xx * p.x + m.rotation().xy * p.y + m.rotation().xz
            * p.z + 2 * (m.shift_x() * p.w) + (one * one - m.norm()) * p.x,
        m.transform(p, one).y == m.rotation().yx * p.x + m.rotation().yy * p.y + m.rotation().yz
            * p.z + 2 * (m.shift_y() * p.w) + (one * one - m.norm()) * p.y,
        m.transform(p, one).z == m.rotation().zx * p.x + m.rotation().zy * p.y + m.rotation().zz
            * p.z + 2 * (m.shift_z() * p.w) + (one * one - m.norm()) * p.z,
        m.transform(p, one).w == p.w * (one * one),
{
    lemma_transform_is_affine_x(m, p, one);
    lemma_transform_is_affine_y(m, p, one);
    lemma_transform_is_affine_z(m, p, one);
}

} // verus!
