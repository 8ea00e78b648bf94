//! How the shift of a motor behaves under the motor product.

use crate::exact::ExactMotor;
use crate::laws::rotation::{lemma_cross, lemma_cross_row};
use vstd::prelude::*;

verus! {

/// [`lemma_shift_of_product`], coordinate `x`.
proof fn lemma_shift_of_product_x(a: ExactMotor, b: ExactMotor)
    ensures
        a.combine(b).shift_x() == b.rotation().xx * a.shift_x() + b.rotation().xy * a.shift_y() + b.rotation().xz * a.shift_z() + a.norm() * b.shift_x(),
{
    let c = a.combine(b);
    let rb = b.rotation();
    let c_vx = c.vx;
    let c_vy = c.vy;
    let c_vz = c.vz;
    let c_vw = c.vw;
    let c_mx = c.mx;
    let c_my = c.my;
    let c_mz = c.mz;
    let c_mw = c.mw;
    let q_mw_vw = b.mw * a.vw;
    let q_mw_vx = b.mw * a.vx;
    let q_mw_vy = b.mw * a.vy;
    let q_mw_vz = b.mw * a.vz;
    let q_mx_vw = b.mx * a.vw;
    let q_mx_vx = b.mx * a.vx;
    let q_mx_vy = b.mx * a.vy;
    let q_mx_vz = b.mx * a.vz;
    let q_my_vw = b.my * a.vw;
    let q_my_vx = b.my * a.vx;
    let q_my_vy = b.my * a.vy;
    let q_my_vz = b.my * a.vz;
    let q_mz_vw = b.mz * a.vw;
    let q_mz_vx = b.mz * a.vx;
    let q_mz_vy = b.mz * a.vy;
    let q_mz_vz = b.mz * a.vz;
    let q_vw_mw = b.vw * a.mw;
    let q_vw_mx = b.vw * a.mx;
    let q_vw_my = b.vw * a.my;
    let q_vw_mz = b.vw * a.mz;
    let q_vw_vw = b.vw * a.vw;
    let q_vw_vx = b.vw * a.vx;
    let q_vw_vy = b.vw * a.vy;
    let q_vw_vz = b.vw * a.vz;
    let q_vx_mw = b.vx * a.mw;
    let q_vx_mx = b.vx * a.mx;
    let q_vx_my = b.vx * a.my;
    let q_vx_mz = b.vx * a.mz;
    let q_vx_vw = b.vx * a.vw;
    let q_vx_vx = b.vx * a.vx;
    let q_vx_vy = b.vx * a.vy;
    let q_vx_vz = b.vx * a.vz;
    let q_vy_mw = b.vy * a.mw;
    let q_vy_mx = b.vy * a.mx;
    let q_vy_my = b.vy * a.my;
    let q_vy_mz = b.vy * a.mz;
    let q_vy_vw = b.vy * a.vw;
    let q_vy_vx = b.vy * a.vx;
    let q_vy_vy = b.vy * a.vy;
    let q_vy_vz = b.vy * a.vz;
    let q_vz_mw = b.vz * a.mw;
    let q_vz_mx = b.vz * a.mx;
    let q_vz_my = b.vz * a.my;
    let q_vz_mz = b.vz * a.mz;
    let q_vz_vw = b.vz * a.vw;
    let q_vz_vx = b.vz * a.vx;
    let q_vz_vy = b.vz * a.vy;
    let q_vz_vz = b.vz * a.vz;
    assert(c_vw * c_mx == c_vw * q_mx_vw + c_vw * q_vw_mx + c_vw * q_vy_mz - c_vw * q_mz_vy + c_vw * q_my_vz - c_vw * q_vz_my + c_vw * q_mw_vx + c_vw * q_vx_mw) by (nonlinear_arith)
        requires
            c_mx == q_mx_vw + q_vw_mx + q_vy_mz - q_mz_vy + q_my_vz - q_vz_my + q_mw_vx + q_vx_mw,
    ;
    assert(c_vw * q_mx_vw == q_vw_vw * q_mx_vw - q_vx_vx * q_mx_vw - q_vy_vy * q_mx_vw - q_vz_vz * q_mx_vw) by (nonlinear_arith)
        requires
            c_vw == q_vw_vw - q_vx_vx - q_vy_vy - q_vz_vz,
    ;
    assert(c_vw * q_vw_mx == q_vw_vw * q_vw_mx - q_vx_vx * q_vw_mx - q_vy_vy * q_vw_mx - q_vz_vz * q_vw_mx) by (nonlinear_arith)
        requires
            c_vw == q_vw_vw - q_vx_vx - q_vy_vy - q_vz_vz,
    ;
    assert(c_vw * q_vy_mz == q_vw_vw * q_vy_mz - q_vx_vx * q_vy_mz - q_vy_vy * q_vy_mz - q_vz_vz * q_vy_mz) by (nonlinear_arith)
        requires
            c_vw == q_vw_vw - q_vx_vx - q_vy_vy - q_vz_vz,
    ;
    assert(c_vw * q_mz_vy == q_vw_vw * q_mz_vy - q_vx_vx * q_mz_vy - q_vy_vy * q_mz_vy - q_vz_vz * q_mz_vy) by (nonlinear_arith)
        requires
            c_vw == q_vw_vw - q_vx_vx - q_vy_vy - q_vz_vz,
    ;
    assert(c_vw * q_my_vz == q_vw_vw * q_my_vz - q_vx_vx * q_my_vz - q_vy_vy * q_my_vz - q_vz_vz * q_my_vz) by (nonlinear_arith)
        requires
            c_vw == q_vw_vw - q_vx_vx - q_vy_vy - q_vz_vz,
    ;
    assert(c_vw * q_vz_my == q_vw_vw * q_vz_my - q_vx_vx * q_vz_my - q_vy_vy * q_vz_my - q_vz_vz * q_vz_my) by (nonlinear_arith)
        requires
            c_vw == q_vw_vw - q_vx_vx - q_vy_vy - q_vz_vz,
    ;
    assert(c_vw * q_mw_vx == q_vw_vw * q_mw_vx - q_vx_vx * q_mw_vx - q_vy_vy * q_mw_vx - q_vz_vz * q_mw_vx) by (nonlinear_arith)
        requires
            c_vw == q_vw_vw - q_vx_vx - q_vy_vy - q_vz_vz,
    ;
    assert(c_vw * q_vx_mw == q_vw_vw * q_vx_mw - q_vx_vx * q_vx_mw - q_vy_vy * q_vx_mw - q_vz_vz * q_vx_mw) by (nonlinear_arith)
        requires
            c_vw == q_vw_vw - q_vx_vx - q_vy_vy - q_vz_vz,
    ;
    lemma_cross_row(b.vw, a.vw, b.mx, a.vw, b.vw, a.mx, b.vy, a.mz, b.mz, a.vy);
    lemma_cross_row(b.vw, a.vw, b.my, a.vz, b.vz, a.my, b.mw, a.vx, b.vx, a.mw);
    lemma_cross_row(b.vx, a.vx, b.mx, a.vw, b.vw, a.mx, b.vy, a.mz, b.mz, a.vy);
    lemma_cross_row(b.vx, a.vx, b.my, a.vz, b.vz, a.my, b.mw, a.vx, b.vx, a.mw);
    lemma_cross_row(b.vy, a.vy, b.mx, a.vw, b.vw, a.mx, b.vy, a.mz, b.mz, a.vy);
    lemma_cross_row(b.vy, a.vy, b.my, a.vz, b.vz, a.my, b.mw, a.vx, b.vx, a.mw);
    lemma_cross_row(b.vz, a.vz, b.mx, a.vw, b.vw, a.mx, b.vy, a.mz, b.mz, a.vy);
    lemma_cross_row(b.vz, a.vz, b.my, a.vz, b.vz, a.my, b.mw, a.vx, b.vx, a.mw);
    assert(c_vy * c_mz == c_vy * q_mz_vw + c_vy * q_vw_mz + c_vy * q_vx_my - c_vy * q_my_vx + c_vy * q_mx_vy - c_vy * q_vy_mx + c_vy * q_mw_vz + c_vy * q_vz_mw) by (nonlinear_arith)
        requires
            c_mz == q_mz_vw + q_vw_mz + q_vx_my - q_my_vx + q_mx_vy - q_vy_mx + q_mw_vz + q_vz_mw,
    ;
    assert(c_vy * q_mz_vw == q_vy_vw * q_mz_vw + q_vw_vy * q_mz_vw + q_vz_vx * q_mz_vw - q_vx_vz * q_mz_vw) by (nonlinear_arith)
        requires
            c_vy == q_vy_vw + q_vw_vy + q_vz_vx - q_vx_vz,
    ;
    assert(c_vy * q_vw_mz == q_vy_vw * q_vw_mz + q_vw_vy * q_vw_mz + q_vz_vx * q_vw_mz - q_vx_vz * q_vw_mz) by (nonlinear_arith)
        requires
            c_vy == q_vy_vw + q_vw_vy + q_vz_vx - q_vx_vz,
    ;
    assert(c_vy * q_vx_my == q_vy_vw * q_vx_my + q_vw_vy * q_vx_my + q_vz_vx * q_vx_my - q_vx_vz * q_vx_my) by (nonlinear_arith)
        requires
            c_vy == q_vy_vw + q_vw_vy + q_vz_vx - q_vx_vz,
    ;
    assert(c_vy * q_my_vx == q_vy_vw * q_my_vx + q_vw_vy * q_my_vx + q_vz_vx * q_my_vx - q_vx_vz * q_my_vx) by (nonlinear_arith)
        requires
            c_vy == q_vy_vw + q_vw_vy + q_vz_vx - q_vx_vz,
    ;
    assert(c_vy * q_mx_vy == q_vy_vw * q_mx_vy + q_vw_vy * q_mx_vy + q_vz_vx * q_mx_vy - q_vx_vz * q_mx_vy) by (nonlinear_arith)
        requires
            c_vy == q_vy_vw + q_vw_vy + q_vz_vx - q_vx_vz,
    ;
    assert(c_vy * q_vy_mx == q_vy_vw * q_vy_mx + q_vw_vy * q_vy_mx + q_vz_vx * q_vy_mx - q_vx_vz * q_vy_mx) by (nonlinear_arith)
        requires
            c_vy == q_vy_vw + q_vw_vy + q_vz_vx - q_vx_vz,
    ;
    assert(c_vy * q_mw_vz == q_vy_vw * q_mw_vz + q_vw_vy * q_mw_vz + q_vz_vx * q_mw_vz - q_vx_vz * q_mw_vz) by (nonlinear_arith)
        requires
            c_vy == q_vy_vw + q_vw_vy + q_vz_vx - q_vx_vz,
    ;
    assert(c_vy * q_vz_mw == q_vy_vw * q_vz_mw + q_vw_vy * q_vz_mw + q_vz_vx * q_vz_mw - q_vx_vz * q_vz_mw) by (nonlinear_arith)
        requires
            c_vy == q_vy_vw + q_vw_vy + q_vz_vx - q_vx_vz,
    ;
    lemma_cross_row(b.vy, a.vw, b.mz, a.vw, b.vw, a.mz, b.vx, a.my, b.my, a.vx);
    lemma_cross_row(b.vy, a.vw, b.mx, a.vy, b.vy, a.mx, b.mw, a.vz, b.vz, a.mw);
    lemma_cross_row(b.vw, a.vy, b.mz, a.vw, b.vw, a.mz, b.vx, a.my, b.my, a.vx);
    lemma_cross_row(b.vw, a.vy, b.mx, a.vy, b.vy, a.mx, b.mw, a.vz, b.vz, a.mw);
    lemma_cross_row(b.vz, a.vx, b.mz, a.vw, b.vw, a.mz, b.vx, a.my, b.my, a.vx);
    lemma_cross_row(b.vz, a.vx, b.mx, a.vy, b.vy, a.mx, b.mw, a.vz, b.vz, a.mw);
    lemma_cross_row(b.vx, a.vz, b.mz, a.vw, b.vw, a.mz, b.vx, a.my, b.my, a.vx);
    lemma_cross_row(b.vx, a.vz, b.mx, a.vy, b.vy, a.mx, b.mw, a.vz, b.vz, a.mw);
    assert(c_vz * c_my == c_vz * q_my_vw + c_vz * q_vw_my + c_vz * q_vz_mx - c_vz * q_mx_vz + c_vz * q_mz_vx - c_vz * q_vx_mz + c_vz * q_mw_vy + c_vz * q_vy_mw) by (nonlinear_arith)
        requires
            c_my == q_my_vw + q_vw_my + q_vz_mx - q_mx_vz + q_mz_vx - q_vx_mz + q_mw_vy + q_vy_mw,
    ;
    assert(c_vz * q_my_vw == q_vz_vw * q_my_vw + q_vw_vz * q_my_vw + q_vx_vy * q_my_vw - q_vy_vx * q_my_vw) by (nonlinear_arith)
        requires
            c_vz == q_vz_vw + q_vw_vz + q_vx_vy - q_vy_vx,
    ;
    assert(c_vz * q_vw_my == q_vz_vw * q_vw_my + q_vw_vz * q_vw_my + q_vx_vy * q_vw_my - q_vy_vx * q_vw_my) by (nonlinear_arith)
        requires
            c_vz == q_vz_vw + q_vw_vz + q_vx_vy - q_vy_vx,
    ;
    assert(c_vz * q_vz_mx == q_vz_vw * q_vz_mx + q_vw_vz * q_vz_mx + q_vx_vy * q_vz_mx - q_vy_vx * q_vz_mx) by (nonlinear_arith)
        requires
            c_vz == q_vz_vw + q_vw_vz + q_vx_vy - q_vy_vx,
    ;
    assert(c_vz * q_mx_vz == q_vz_vw * q_mx_vz + q_vw_vz * q_mx_vz + q_vx_vy * q_mx_vz - q_vy_vx * q_mx_vz) by (nonlinear_arith)
        requires
            c_vz == q_vz_vw + q_vw_vz + q_vx_vy - q_vy_vx,
    ;
    assert(c_vz * q_mz_vx == q_vz_vw * q_mz_vx + q_vw_vz * q_mz_vx + q_vx_vy * q_mz_vx - q_vy_vx * q_mz_vx) by (nonlinear_arith)
        requires
            c_vz == q_vz_vw + q_vw_vz + q_vx_vy - q_vy_vx,
    ;
    assert(c_vz * q_vx_mz == q_vz_vw * q_vx_mz + q_vw_vz * q_vx_mz + q_vx_vy * q_vx_mz - q_vy_vx * q_vx_mz) by (nonlinear_arith)
        requires
            c_vz == q_vz_vw + q_vw_vz + q_vx_vy - q_vy_vx,
    ;
    assert(c_vz * q_mw_vy == q_vz_vw * q_mw_vy + q_vw_vz * q_mw_vy + q_vx_vy * q_mw_vy - q_vy_vx * q_mw_vy) by (nonlinear_arith)
        requires
            c_vz == q_vz_vw + q_vw_vz + q_vx_vy - q_vy_vx,
    ;
    assert(c_vz * q_vy_mw == q_vz_vw * q_vy_mw + q_vw_vz * q_vy_mw + q_vx_vy * q_vy_mw - q_vy_vx * q_vy_mw) by (nonlinear_arith)
        requires
            c_vz == q_vz_vw + q_vw_vz + q_vx_vy - q_vy_vx,
    ;
    lemma_cross_row(b.vz, a.vw, b.my, a.vw, b.vw, a.my, b.vz, a.mx, b.mx, a.vz);
    lemma_cross_row(b.vz, a.vw, b.mz, a.vx, b.vx, a.mz, b.mw, a.vy, b.vy, a.mw);
    lemma_cross_row(b.vw, a.vz, b.my, a.vw, b.vw, a.my, b.vz, a.mx, b.mx, a.vz);
    lemma_cross_row(b.vw, a.vz, b.mz, a.vx, b.vx, a.mz, b.mw, a.vy, b.vy, a.mw);
    lemma_cross_row(b.vx, a.vy, b.my, a.vw, b.vw, a.my, b.vz, a.mx, b.mx, a.vz);
    lemma_cross_row(b.vx, a.vy, b.mz, a.vx, b.vx, a.mz, b.mw, a.vy, b.vy, a.mw);
    lemma_cross_row(b.vy, a.vx, b.my, a.vw, b.vw, a.my, b.vz, a.mx, b.mx, a.vz);
    lemma_cross_row(b.vy, a.vx, b.mz, a.vx, b.vx, a.mz, b.mw, a.vy, b.vy, a.mw);
    assert(c_mw * c_vx == c_mw * q_vx_vw + c_mw * q_vw_vx + c_mw * q_vy_vz - c_mw * q_vz_vy) by (nonlinear_arith)
        requires
            c_vx == q_vx_vw + q_vw_vx + q_vy_vz - q_vz_vy,
    ;
    assert(c_mw * q_vx_vw == q_vw_mw * q_vx_vw + q_mw_vw * q_vx_vw - q_vx_mx * q_vx_vw - q_mx_vx * q_vx_vw - q_vy_my * q_vx_vw - q_my_vy * q_vx_vw - q_vz_mz * q_vx_vw - q_mz_vz * q_vx_vw) by (nonlinear_arith)
        requires
            c_mw == q_vw_mw + q_mw_vw - q_vx_mx - q_mx_vx - q_vy_my - q_my_vy - q_vz_mz - q_mz_vz,
    ;
    assert(c_mw * q_vw_vx == q_vw_mw * q_vw_vx + q_mw_vw * q_vw_vx - q_vx_mx * q_vw_vx - q_mx_vx * q_vw_vx - q_vy_my * q_vw_vx - q_my_vy * q_vw_vx - q_vz_mz * q_vw_vx - q_mz_vz * q_vw_vx) by (nonlinear_arith)
        requires
            c_mw == q_vw_mw + q_mw_vw - q_vx_mx - q_mx_vx - q_vy_my - q_my_vy - q_vz_mz - q_mz_vz,
    ;
    assert(c_mw * q_vy_vz == q_vw_mw * q_vy_vz + q_mw_vw * q_vy_vz - q_vx_mx * q_vy_vz - q_mx_vx * q_vy_vz - q_vy_my * q_vy_vz - q_my_vy * q_vy_vz - q_vz_mz * q_vy_vz - q_mz_vz * q_vy_vz) by (nonlinear_arith)
        requires
            c_mw == q_vw_mw + q_mw_vw - q_vx_mx - q_mx_vx - q_vy_my - q_my_vy - q_vz_mz - q_mz_vz,
    ;
    assert(c_mw * q_vz_vy == q_vw_mw * q_vz_vy + q_mw_vw * q_vz_vy - q_vx_mx * q_vz_vy - q_mx_vx * q_vz_vy - q_vy_my * q_vz_vy - q_my_vy * q_vz_vy - q_vz_mz * q_vz_vy - q_mz_vz * q_vz_vy) by (nonlinear_arith)
        requires
            c_mw == q_vw_mw + q_mw_vw - q_vx_mx - q_mx_vx - q_vy_my - q_my_vy - q_vz_mz - q_mz_vz,
    ;
    lemma_cross_row(b.vw, a.mw, b.vx, a.vw, b.vw, a.vx, b.vy, a.vz, b.vz, a.vy);
    lemma_cross_row(b.mw, a.vw, b.vx, a.vw, b.vw, a.vx, b.vy, a.vz, b.vz, a.vy);
    lemma_cross_row(b.vx, a.mx, b.vx, a.vw, b.vw, a.vx, b.vy, a.vz, b.vz, a.vy);
    lemma_cross_row(b.mx, a.vx, b.vx, a.vw, b.vw, a.vx, b.vy, a.vz, b.vz, a.vy);
    lemma_cross_row(b.vy, a.my, b.vx, a.vw, b.vw, a.vx, b.vy, a.vz, b.vz, a.vy);
    lemma_cross_row(b.my, a.vy, b.vx, a.vw, b.vw, a.vx, b.vy, a.vz, b.vz, a.vy);
    lemma_cross_row(b.vz, a.mz, b.vx, a.vw, b.vw, a.vx, b.vy, a.vz, b.vz, a.vy);
    lemma_cross_row(b.mz, a.vz, b.vx, a.vw, b.vw, a.vx, b.vy, a.vz, b.vz, a.vy);
    let sa_x = a.shift_x();
    let sa_y = a.shift_y();
    let sa_z = a.shift_z();
    let sb = b.shift_x();
    let na = a.norm();
    let bxx = b.vx * b.vx;
    let bxy = b.vx * b.vy;
    let bxz = b.vx * b.vz;
    let bxw = b.vx * b.vw;
    let byy = b.vy * b.vy;
    let byz = b.vy * b.vz;
    let byw = b.vy * b.vw;
    let bzz = b.vz * b.vz;
    let bzw = b.vz * b.vw;
    let bww = b.vw * b.vw;
    let rbxx = rb.xx;
    assert(rbxx * sa_x == rbxx * (a.vw * a.mx) + rbxx * (a.vy * a.mz) - rbxx * (a.vz * a.my) - rbxx * (a.mw * a.vx)) by (nonlinear_arith)
        requires
            sa_x == a.vw * a.mx + a.vy * a.mz - a.vz * a.my - a.mw * a.vx,
    ;
    assert(rbxx * (a.vw * a.mx) == bww * (a.vw * a.mx) + bxx * (a.vw * a.mx) - byy * (a.vw * a.mx) - bzz * (a.vw * a.mx)) by (nonlinear_arith)
        requires
            rbxx == bww + bxx - byy - bzz,
    ;
    assert(rbxx * (a.vy * a.mz) == bww * (a.vy * a.mz) + bxx * (a.vy * a.mz) - byy * (a.vy * a.mz) - bzz * (a.vy * a.mz)) by (nonlinear_arith)
        requires
            rbxx == bww + bxx - byy - bzz,
    ;
    assert(rbxx * (a.vz * a.my) == bww * (a.vz * a.my) + bxx * (a.vz * a.my) - byy * (a.vz * a.my) - bzz * (a.vz * a.my)) by (nonlinear_arith)
        requires
            rbxx == bww + bxx - byy - bzz,
    ;
    assert(rbxx * (a.mw * a.vx) == bww * (a.mw * a.vx) + bxx * (a.mw * a.vx) - byy * (a.mw * a.vx) - bzz * (a.mw * a.vx)) by (nonlinear_arith)
        requires
            rbxx == bww + bxx - byy - bzz,
    ;
    let rbxy = rb.xy;
    assert(rbxy * sa_y == rbxy * (a.vw * a.my) + rbxy * (a.vz * a.mx) - rbxy * (a.vx * a.mz) - rbxy * (a.mw * a.vy)) by (nonlinear_arith)
        requires
            sa_y == a.vw * a.my + a.vz * a.mx - a.vx * a.mz - a.mw * a.vy,
    ;
    assert(rbxy * (a.vw * a.my) == 2 * (bxy * (a.vw * a.my)) - 2 * (bzw * (a.vw * a.my))) by (nonlinear_arith)
        requires
            rbxy == 2 * (bxy - bzw),
    ;
    assert(rbxy * (a.vz * a.mx) == 2 * (bxy * (a.vz * a.mx)) - 2 * (bzw * (a.vz * a.mx))) by (nonlinear_arith)
        requires
            rbxy == 2 * (bxy - bzw),
    ;
    assert(rbxy * (a.vx * a.mz) == 2 * (bxy * (a.vx * a.mz)) - 2 * (bzw * (a.vx * a.mz))) by (nonlinear_arith)
        requires
            rbxy == 2 * (bxy - bzw),
    ;
    assert(rbxy * (a.mw * a.vy) == 2 * (bxy * (a.mw * a.vy)) - 2 * (bzw * (a.mw * a.vy))) by (nonlinear_arith)
        requires
            rbxy == 2 * (bxy - bzw),
    ;
    let rbxz = rb.xz;
    assert(rbxz * sa_z == rbxz * (a.vw * a.mz) + rbxz * (a.vx * a.my) - rbxz * (a.vy * a.mx) - rbxz * (a.mw * a.vz)) by (nonlinear_arith)
        requires
            sa_z == a.vw * a.mz + a.vx * a.my - a.vy * a.mx - a.mw * a.vz,
    ;
    assert(rbxz * (a.vw * a.mz) == 2 * (bxz * (a.vw * a.mz)) + 2 * (byw * (a.vw * a.mz))) by (nonlinear_arith)
        requires
            rbxz == 2 * (bxz + byw),
    ;
    assert(rbxz * (a.vx * a.my) == 2 * (bxz * (a.vx * a.my)) + 2 * (byw * (a.vx * a.my))) by (nonlinear_arith)
        requires
            rbxz == 2 * (bxz + byw),
    ;
    assert(rbxz * (a.vy * a.mx) == 2 * (bxz * (a.vy * a.mx)) + 2 * (byw * (a.vy * a.mx))) by (nonlinear_arith)
        requires
            rbxz == 2 * (bxz + byw),
    ;
    assert(rbxz * (a.mw * a.vz) == 2 * (bxz * (a.mw * a.vz)) + 2 * (byw * (a.mw * a.vz))) by (nonlinear_arith)
        requires
            rbxz == 2 * (bxz + byw),
    ;
    assert(na * sb == (b.vw * b.mx) * na + (b.vy * b.mz) * na - (b.vz * b.my) * na - (b.mw * b.vx) * na) by (nonlinear_arith)
        requires
            sb == b.vw * b.mx + b.vy * b.mz - b.vz * b.my - b.mw * b.vx,
    ;
    assert((b.vw * b.mx) * na == (b.vw * b.mx) * (a.vx * a.vx) + (b.vw * b.mx) * (a.vy * a.vy) + (b.vw * b.mx) * (a.vz * a.vz) + (b.vw * b.mx) * (a.vw * a.vw)) by (nonlinear_arith)
        requires
            na == a.vx * a.vx + a.vy * a.vy + a.vz * a.vz + a.vw * a.vw,
    ;
    assert((b.vy * b.mz) * na == (b.vy * b.mz) * (a.vx * a.vx) + (b.vy * b.mz) * (a.vy * a.vy) + (b.vy * b.mz) * (a.vz * a.vz) + (b.vy * b.mz) * (a.vw * a.vw)) by (nonlinear_arith)
        requires
            na == a.vx * a.vx + a.vy * a.vy + a.vz * a.vz + a.vw * a.vw,
    ;
    assert((b.vz * b.my) * na == (b.vz * b.my) * (a.vx * a.vx) + (b.vz * b.my) * (a.vy * a.vy) + (b.vz * b.my) * (a.vz * a.vz) + (b.vz * b.my) * (a.vw * a.vw)) by (nonlinear_arith)
        requires
            na == a.vx * a.vx + a.vy * a.vy + a.vz * a.vz + a.vw * a.vw,
    ;
    assert((b.mw * b.vx) * na == (b.mw * b.vx) * (a.vx * a.vx) + (b.mw * b.vx) * (a.vy * a.vy) + (b.mw * b.vx) * (a.vz * a.vz) + (b.mw * b.vx) * (a.vw * a.vw)) by (nonlinear_arith)
        requires
            na == a.vx * a.vx + a.vy * a.vy + a.vz * a.vz + a.vw * a.vw,
    ;
}

/// [`lemma_shift_of_product`], coordinate `y`.
proof fn lemma_shift_of_product_y(a: ExactMotor, b: ExactMotor)
    ensures
        a.combine(b).shift_y() == b.rotation().yx * a.shift_x() + b.rotation().yy * a.shift_y() + b.rotation().yz * a.shift_z() + a.norm() * b.shift_y(),
{
    let c = a.combine(b);
    let rb = b.rotation();
    let c_vx = c.vx;
    let c_vy = c.vy;
    let c_vz = c.vz;
    let c_vw = c.vw;
    let c_mx = c.mx;
    let c_my = c.my;
    let c_mz = c.mz;
    let c_mw = c.mw;
    let q_mw_vw = b.mw * a.vw;
    let q_mw_vx = b.mw * a.vx;
    let q_mw_vy = b.mw * a.vy;
    let q_mw_vz = b.mw * a.vz;
    let q_mx_vw = b.mx * a.vw;
    let q_mx_vx = b.mx * a.vx;
    let q_mx_vy = b.mx * a.vy;
    let q_mx_vz = b.mx * a.vz;
    let q_my_vw = b.my * a.vw;
    let q_my_vx = b.my * a.vx;
    let q_my_vy = b.my * a.vy;
    let q_my_vz = b.my * a.vz;
    let q_mz_vw = b.mz * a.vw;
    let q_mz_vx = b.mz * a.vx;
    let q_mz_vy = b.mz * a.vy;
    let q_mz_vz = b.mz * a.vz;
    let q_vw_mw = b.vw * a.mw;
    let q_vw_mx = b.vw * a.mx;
    let q_vw_my = b.vw * a.my;
    let q_vw_mz = b.vw * a.mz;
    let q_vw_vw = b.vw * a.vw;
    let q_vw_vx = b.vw * a.vx;
    let q_vw_vy = b.vw * a.vy;
    let q_vw_vz = b.vw * a.vz;
    let q_vx_mw = b.vx * a.mw;
    let q_vx_mx = b.vx * a.mx;
    let q_vx_my = b.vx * a.my;
    let q_vx_mz = b.vx * a.mz;
    let q_vx_vw = b.vx * a.vw;
    let q_vx_vx = b.vx * a.vx;
    let q_vx_vy = b.vx * a.vy;
    let q_vx_vz = b.vx * a.vz;
    let q_vy_mw = b.vy * a.mw;
    let q_vy_mx = b.vy * a.mx;
    let q_vy_my = b.vy * a.my;
    let q_vy_mz = b.vy * a.mz;
    let q_vy_vw = b.vy * a.vw;
    let q_vy_vx = b.vy * a.vx;
    let q_vy_vy = b.vy * a.vy;
    let q_vy_vz = b.vy * a.vz;
    let q_vz_mw = b.vz * a.mw;
    let q_vz_mx = b.vz * a.mx;
    let q_vz_my = b.vz * a.my;
    let q_vz_mz = b.vz * a.mz;
    let q_vz_vw = b.vz * a.vw;
    let q_vz_vx = b.vz * a.vx;
    let q_vz_vy = b.vz * a.vy;
    let q_vz_vz = b.vz * a.vz;
    assert(c_vw * c_my == c_vw * q_my_vw + c_vw * q_vw_my + c_vw * q_vz_mx - c_vw * q_mx_vz + c_vw * q_mz_vx - c_vw * q_vx_mz + c_vw * q_mw_vy + c_vw * q_vy_mw) by (nonlinear_arith)
        requires
            c_my == q_my_vw + q_vw_my + q_vz_mx - q_mx_vz + q_mz_vx - q_vx_mz + q_mw_vy + q_vy_mw,
    ;
    assert(c_vw * q_my_vw == q_vw_vw * q_my_vw - q_vx_vx * q_my_vw - q_vy_vy * q_my_vw - q_vz_vz * q_my_vw) by (nonlinear_arith)
        requires
            c_vw == q_vw_vw - q_vx_vx - q_vy_vy - q_vz_vz,
    ;
    assert(c_vw * q_vw_my == q_vw_vw * q_vw_my - q_vx_vx * q_vw_my - q_vy_vy * q_vw_my - q_vz_vz * q_vw_my) by (nonlinear_arith)
        requires
            c_vw == q_vw_vw - q_vx_vx - q_vy_vy - q_vz_vz,
    ;
    assert(c_vw * q_vz_mx == q_vw_vw * q_vz_mx - q_vx_vx * q_vz_mx - q_vy_vy * q_vz_mx - q_vz_vz * q_vz_mx) by (nonlinear_arith)
        requires
            c_vw == q_vw_vw - q_vx_vx - q_vy_vy - q_vz_vz,
    ;
    assert(c_vw * q_mx_vz == q_vw_vw * q_mx_vz - q_vx_vx * q_mx_vz - q_vy_vy * q_mx_vz - q_vz_vz * q_mx_vz) by (nonlinear_arith)
        requires
            c_vw == q_vw_vw - q_vx_vx - q_vy_vy - q_vz_vz,
    ;
    assert(c_vw * q_mz_vx == q_vw_vw * q_mz_vx - q_vx_vx * q_mz_vx - q_vy_vy * q_mz_vx - q_vz_vz * q_mz_vx) by (nonlinear_arith)
        requires
            c_vw == q_vw_vw - q_vx_vx - q_vy_vy - q_vz_vz,
    ;
    assert(c_vw * q_vx_mz == q_vw_vw * q_vx_mz - q_vx_vx * q_vx_mz - q_vy_vy * q_vx_mz - q_vz_vz * q_vx_mz) by (nonlinear_arith)
        requires
            c_vw == q_vw_vw - q_vx_vx - q_vy_vy - q_vz_vz,
    ;
    assert(c_vw * q_mw_vy == q_vw_vw * q_mw_vy - q_vx_vx * q_mw_vy - q_vy_vy * q_mw_vy - q_vz_vz * q_mw_vy) by (nonlinear_arith)
        requires
            c_vw == q_vw_vw - q_vx_vx - q_vy_vy - q_vz_vz,
    ;
    assert(c_vw * q_vy_mw == q_vw_vw * q_vy_mw - q_vx_vx * q_vy_mw - q_vy_vy * q_vy_mw - q_vz_vz * q_vy_mw) by (nonlinear_arith)
        requires
            c_vw == q_vw_vw - q_vx_vx - q_vy_vy - q_vz_vz,
    ;
    lemma_cross_row(b.vw, a.vw, b.my, a.vw, b.vw, a.my, b.vz, a.mx, b.mx, a.vz);
    lemma_cross_row(b.vw, a.vw, b.mz, a.vx, b.vx, a.mz, b.mw, a.vy, b.vy, a.mw);
    lemma_cross_row(b.vx, a.vx, b.my, a.vw, b.vw, a.my, b.vz, a.mx, b.mx, a.vz);
    lemma_cross_row(b.vx, a.vx, b.mz, a.vx, b.vx, a.mz, b.mw, a.vy, b.vy, a.mw);
    lemma_cross_row(b.vy, a.vy, b.my, a.vw, b.vw, a.my, b.vz, a.mx, b.mx, a.vz);
    lemma_cross_row(b.vy, a.vy, b.mz, a.vx, b.vx, a.mz, b.mw, a.vy, b.vy, a.mw);
    lemma_cross_row(b.vz, a.vz, b.my, a.vw, b.vw, a.my, b.vz, a.mx, b.mx, a.vz);
    lemma_cross_row(b.vz, a.vz, b.mz, a.vx, b.vx, a.mz, b.mw, a.vy, b.vy, a.mw);
    assert(c_vz * c_mx == c_vz * q_mx_vw + c_vz * q_vw_mx + c_vz * q_vy_mz - c_vz * q_mz_vy + c_vz * q_my_vz - c_vz * q_vz_my + c_vz * q_mw_vx + c_vz * q_vx_mw) by (nonlinear_arith)
        requires
            c_mx == q_mx_vw + q_vw_mx + q_vy_mz - q_mz_vy + q_my_vz - q_vz_my + q_mw_vx + q_vx_mw,
    ;
    assert(c_vz * q_mx_vw == q_vz_vw * q_mx_vw + q_vw_vz * q_mx_vw + q_vx_vy * q_mx_vw - q_vy_vx * q_mx_vw) by (nonlinear_arith)
        requires
            c_vz == q_vz_vw + q_vw_vz + q_vx_vy - q_vy_vx,
    ;
    assert(c_vz * q_vw_mx == q_vz_vw * q_vw_mx + q_vw_vz * q_vw_mx + q_vx_vy * q_vw_mx - q_vy_vx * q_vw_mx) by (nonlinear_arith)
        requires
            c_vz == q_vz_vw + q_vw_vz + q_vx_vy - q_vy_vx,
    ;
    assert(c_vz * q_vy_mz == q_vz_vw * q_vy_mz + q_vw_vz * q_vy_mz + q_vx_vy * q_vy_mz - q_vy_vx * q_vy_mz) by (nonlinear_arith)
        requires
            c_vz == q_vz_vw + q_vw_vz + q_vx_vy - q_vy_vx,
    ;
    assert(c_vz * q_mz_vy == q_vz_vw * q_mz_vy + q_vw_vz * q_mz_vy + q_vx_vy * q_mz_vy - q_vy_vx * q_mz_vy) by (nonlinear_arith)
        requires
            c_vz == q_vz_vw + q_vw_vz + q_vx_vy - q_vy_vx,
    ;
    assert(c_vz * q_my_vz == q_vz_vw * q_my_vz + q_vw_vz * q_my_vz + q_vx_vy * q_my_vz - q_vy_vx * q_my_vz) by (nonlinear_arith)
        requires
            c_vz == q_vz_vw + q_vw_vz + q_vx_vy - q_vy_vx,
    ;
    assert(c_vz * q_vz_my == q_vz_vw * q_vz_my + q_vw_vz * q_vz_my + q_vx_vy * q_vz_my - q_vy_vx * q_vz_my) by (nonlinear_arith)
        requires
            c_vz == q_vz_vw + q_vw_vz + q_vx_vy - q_vy_vx,
    ;
    assert(c_vz * q_mw_vx == q_vz_vw * q_mw_vx + q_vw_vz * q_mw_vx + q_vx_vy * q_mw_vx - q_vy_vx * q_mw_vx) by (nonlinear_arith)
        requires
            c_vz == q_vz_vw + q_vw_vz + q_vx_vy - q_vy_vx,
    ;
    assert(c_vz * q_vx_mw == q_vz_vw * q_vx_mw + q_vw_vz * q_vx_mw + q_vx_vy * q_vx_mw - q_vy_vx * q_vx_mw) by (nonlinear_arith)
        requires
            c_vz == q_vz_vw + q_vw_vz + q_vx_vy - q_vy_vx,
    ;
    lemma_cross_row(b.vz, a.vw, b.mx, a.vw, b.vw, a.mx, b.vy, a.mz, b.mz, a.vy);
    lemma_cross_row(b.vz, a.vw, b.my, a.vz, b.vz, a.my, b.mw, a.vx, b.vx, a.mw);
    lemma_cross_row(b.vw, a.vz, b.mx, a.vw, b.vw, a.mx, b.vy, a.mz, b.mz, a.vy);
    lemma_cross_row(b.vw, a.vz, b.my, a.vz, b.vz, a.my, b.mw, a.vx, b.vx, a.mw);
    lemma_cross_row(b.vx, a.vy, b.mx, a.vw, b.vw, a.mx, b.vy, a.mz, b.mz, a.vy);
    lemma_cross_row(b.vx, a.vy, b.my, a.vz, b.vz, a.my, b.mw, a.vx, b.vx, a.mw);
    lemma_cross_row(b.vy, a.vx, b.mx, a.vw, b.vw, a.mx, b.vy, a.mz, b.mz, a.vy);
    lemma_cross_row(b.vy, a.vx, b.my, a.vz, b.vz, a.my, b.mw, a.vx, b.vx, a.mw);
    assert(c_vx * c_mz == c_vx * q_mz_vw + c_vx * q_vw_mz + c_vx * q_vx_my - c_vx * q_my_vx + c_vx * q_mx_vy - c_vx * q_vy_mx + c_vx * q_mw_vz + c_vx * q_vz_mw) by (nonlinear_arith)
        requires
            c_mz == q_mz_vw + q_vw_mz + q_vx_my - q_my_vx + q_mx_vy - q_vy_mx + q_mw_vz + q_vz_mw,
    ;
    assert(c_vx * q_mz_vw == q_vx_vw * q_mz_vw + q_vw_vx * q_mz_vw + q_vy_vz * q_mz_vw - q_vz_vy * q_mz_vw) by (nonlinear_arith)
        requires
            c_vx == q_vx_vw + q_vw_vx + q_vy_vz - q_vz_vy,
    ;
    assert(c_vx * q_vw_mz == q_vx_vw * q_vw_mz + q_vw_vx * q_vw_mz + q_vy_vz * q_vw_mz - q_vz_vy * q_vw_mz) by (nonlinear_arith)
        requires
            c_vx == q_vx_vw + q_vw_vx + q_vy_vz - q_vz_vy,
    ;
    assert(c_vx * q_vx_my == q_vx_vw * q_vx_my + q_vw_vx * q_vx_my + q_vy_vz * q_vx_my - q_vz_vy * q_vx_my) by (nonlinear_arith)
        requires
            c_vx == q_vx_vw + q_vw_vx + q_vy_vz - q_vz_vy,
    ;
    assert(c_vx * q_my_vx == q_vx_vw * q_my_vx + q_vw_vx * q_my_vx + q_vy_vz * q_my_vx - q_vz_vy * q_my_vx) by (nonlinear_arith)
        requires
            c_vx == q_vx_vw + q_vw_vx + q_vy_vz - q_vz_vy,
    ;
    assert(c_vx * q_mx_vy == q_vx_vw * q_mx_vy + q_vw_vx * q_mx_vy + q_vy_vz * q_mx_vy - q_vz_vy * q_mx_vy) by (nonlinear_arith)
        requires
            c_vx == q_vx_vw + q_vw_vx + q_vy_vz - q_vz_vy,
    ;
    assert(c_vx * q_vy_mx == q_vx_vw * q_vy_mx + q_vw_vx * q_vy_mx + q_vy_vz * q_vy_mx - q_vz_vy * q_vy_mx) by (nonlinear_arith)
        requires
            c_vx == q_vx_vw + q_vw_vx + q_vy_vz - q_vz_vy,
    ;
    assert(c_vx * q_mw_vz == q_vx_vw * q_mw_vz + q_vw_vx * q_mw_vz + q_vy_vz * q_mw_vz - q_vz_vy * q_mw_vz) by (nonlinear_arith)
        requires
            c_vx == q_vx_vw + q_vw_vx + q_vy_vz - q_vz_vy,
    ;
    assert(c_vx * q_vz_mw == q_vx_vw * q_vz_mw + q_vw_vx * q_vz_mw + q_vy_vz * q_vz_mw - q_vz_vy * q_vz_mw) by (nonlinear_arith)
        requires
            c_vx == q_vx_vw + q_vw_vx + q_vy_vz - q_vz_vy,
    ;
    lemma_cross_row(b.vx, a.vw, b.mz, a.vw, b.vw, a.mz, b.vx, a.my, b.my, a.vx);
    lemma_cross_row(b.vx, a.vw, b.mx, a.vy, b.vy, a.mx, b.mw, a.vz, b.vz, a.mw);
    lemma_cross_row(b.vw, a.vx, b.mz, a.vw, b.vw, a.mz, b.vx, a.my, b.my, a.vx);
    lemma_cross_row(b.vw, a.vx, b.mx, a.vy, b.vy, a.mx, b.mw, a.vz, b.vz, a.mw);
    lemma_cross_row(b.vy, a.vz, b.mz, a.vw, b.vw, a.mz, b.vx, a.my, b.my, a.vx);
    lemma_cross_row(b.vy, a.vz, b.mx, a.vy, b.vy, a.mx, b.mw, a.vz, b.vz, a.mw);
    lemma_cross_row(b.vz, a.vy, b.mz, a.vw, b.vw, a.mz, b.vx, a.my, b.my, a.vx);
    lemma_cross_row(b.vz, a.vy, b.mx, a.vy, b.vy, a.mx, b.mw, a.vz, b.vz, a.mw);
    assert(c_mw * c_vy == c_mw * q_vy_vw + c_mw * q_vw_vy + c_mw * q_vz_vx - c_mw * q_vx_vz) by (nonlinear_arith)
        requires
            c_vy == q_vy_vw + q_vw_vy + q_vz_vx - q_vx_vz,
    ;
    assert(c_mw * q_vy_vw == q_vw_mw * q_vy_vw + q_mw_vw * q_vy_vw - q_vx_mx * q_vy_vw - q_mx_vx * q_vy_vw - q_vy_my * q_vy_vw - q_my_vy * q_vy_vw - q_vz_mz * q_vy_vw - q_mz_vz * q_vy_vw) by (nonlinear_arith)
        requires
            c_mw == q_vw_mw + q_mw_vw - q_vx_mx - q_mx_vx - q_vy_my - q_my_vy - q_vz_mz - q_mz_vz,
    ;
    assert(c_mw * q_vw_vy == q_vw_mw * q_vw_vy + q_mw_vw * q_vw_vy - q_vx_mx * q_vw_vy - q_mx_vx * q_vw_vy - q_vy_my * q_vw_vy - q_my_vy * q_vw_vy - q_vz_mz * q_vw_vy - q_mz_vz * q_vw_vy) by (nonlinear_arith)
        requires
            c_mw == q_vw_mw + q_mw_vw - q_vx_mx - q_mx_vx - q_vy_my - q_my_vy - q_vz_mz - q_mz_vz,
    ;
    assert(c_mw * q_vz_vx == q_vw_mw * q_vz_vx + q_mw_vw * q_vz_vx - q_vx_mx * q_vz_vx - q_mx_vx * q_vz_vx - q_vy_my * q_vz_vx - q_my_vy * q_vz_vx - q_vz_mz * q_vz_vx - q_mz_vz * q_vz_vx) by (nonlinear_arith)
        requires
            c_mw == q_vw_mw + q_mw_vw - q_vx_mx - q_mx_vx - q_vy_my - q_my_vy - q_vz_mz - q_mz_vz,
    ;
    assert(c_mw * q_vx_vz == q_vw_mw * q_vx_vz + q_mw_vw * q_vx_vz - q_vx_mx * q_vx_vz - q_mx_vx * q_vx_vz - q_vy_my * q_vx_vz - q_my_vy * q_vx_vz - q_vz_mz * q_vx_vz - q_mz_vz * q_vx_vz) by (nonlinear_arith)
        requires
            c_mw == q_vw_mw + q_mw_vw - q_vx_mx - q_mx_vx - q_vy_my - q_my_vy - q_vz_mz - q_mz_vz,
    ;
    lemma_cross_row(b.vw, a.mw, b.vy, a.vw, b.vw, a.vy, b.vz, a.vx, b.vx, a.vz);
    lemma_cross_row(b.mw, a.vw, b.vy, a.vw, b.vw, a.vy, b.vz, a.vx, b.vx, a.vz);
    lemma_cross_row(b.vx, a.mx, b.vy, a.vw, b.vw, a.vy, b.vz, a.vx, b.vx, a.vz);
    lemma_cross_row(b.mx, a.vx, b.vy, a.vw, b.vw, a.vy, b.vz, a.vx, b.vx, a.vz);
    lemma_cross_row(b.vy, a.my, b.vy, a.vw, b.vw, a.vy, b.vz, a.vx, b.vx, a.vz);
    lemma_cross_row(b.my, a.vy, b.vy, a.vw, b.vw, a.vy, b.vz, a.vx, b.vx, a.vz);
    lemma_cross_row(b.vz, a.mz, b.vy, a.vw, b.vw, a.vy, b.vz, a.vx, b.vx, a.vz);
    lemma_cross_row(b.mz, a.vz, b.vy, a.vw, b.vw, a.vy, b.vz, a.vx, b.vx, a.vz);
    let sa_x = a.shift_x();
    let sa_y = a.shift_y();
    let sa_z = a.shift_z();
    let sb = b.shift_y();
    let na = a.norm();
    let bxx = b.vx * b.vx;
    let bxy = b.vx * b.vy;
    let bxz = b.vx * b.vz;
    let bxw = b.vx * b.vw;
    let byy = b.vy * b.vy;
    let byz = b.vy * b.vz;
    let byw = b.vy * b.vw;
    let bzz = b.vz * b.vz;
    let bzw = b.vz * b.vw;
    let bww = b.vw * b.vw;
    let rbyx = rb.yx;
    assert(rbyx * sa_x == rbyx * (a.vw * a.mx) + rbyx * (a.vy * a.mz) - rbyx * (a.vz * a.my) - rbyx * (a.mw * a.vx)) by (nonlinear_arith)
        requires
            sa_x == a.vw * a.mx + a.vy * a.mz - a.vz * a.my - a.mw * a.vx,
    ;
    assert(rbyx * (a.vw * a.mx) == 2 * (bxy * (a.vw * a.mx)) + 2 * (bzw * (a.vw * a.mx))) by (nonlinear_arith)
        requires
            rbyx == 2 * (bxy + bzw),
    ;
    assert(rbyx * (a.vy * a.mz) == 2 * (bxy * (a.vy * a.mz)) + 2 * (bzw * (a.vy * a.mz))) by (nonlinear_arith)
        requires
            rbyx == 2 * (bxy + bzw),
    ;
    assert(rbyx * (a.vz * a.my) == 2 * (bxy * (a.vz * a.my)) + 2 * (bzw * (a.vz * a.my))) by (nonlinear_arith)
        requires
            rbyx == 2 * (bxy + bzw),
    ;
    assert(rbyx * (a.mw * a.vx) == 2 * (bxy * (a.mw * a.vx)) + 2 * (bzw * (a.mw * a.vx))) by (nonlinear_arith)
        requires
            rbyx == 2 * (bxy + bzw),
    ;
    let rbyy = rb.yy;
    assert(rbyy * sa_y == rbyy * (a.vw * a.my) + rbyy * (a.vz * a.mx) - rbyy * (a.vx * a.mz) - rbyy * (a.mw * a.vy)) by (nonlinear_arith)
        requires
            sa_y == a.vw * a.my + a.vz * a.mx - a.vx * a.mz - a.mw * a.vy,
    ;
    assert(rbyy * (a.vw * a.my) == bww * (a.vw * a.my) - bxx * (a.vw * a.my) + byy * (a.vw * a.my) - bzz * (a.vw * a.my)) by (nonlinear_arith)
        requires
            rbyy == bww - bxx + byy - bzz,
    ;
    assert(rbyy * (a.vz * a.mx) == bww * (a.vz * a.mx) - bxx * (a.vz * a.mx) + byy * (a.vz * a.mx) - bzz * (a.vz * a.mx)) by (nonlinear_arith)
        requires
            rbyy == bww - bxx + byy - bzz,
    ;
    assert(rbyy * (a.vx * a.mz) == bww * (a.vx * a.mz) - bxx * (a.vx * a.mz) + byy * (a.vx * a.mz) - bzz * (a.vx * a.mz)) by (nonlinear_arith)
        requires
            rbyy == bww - bxx + byy - bzz,
    ;
    assert(rbyy * (a.mw * a.vy) == bww * (a.mw * a.vy) - bxx * (a.mw * a.vy) + byy * (a.mw * a.vy) - bzz * (a.mw * a.vy)) by (nonlinear_arith)
        requires
            rbyy == bww - bxx + byy - bzz,
    ;
    let rbyz = rb.yz;
    assert(rbyz * sa_z == rbyz * (a.vw * a.mz) + rbyz * (a.vx * a.my) - rbyz * (a.vy * a.mx) - rbyz * (a.mw * a.vz)) by (nonlinear_arith)
        requires
            sa_z == a.vw * a.mz + a.vx * a.my - a.vy * a.mx - a.mw * a.vz,
    ;
    assert(rbyz * (a.vw * a.mz) == 2 * (byz * (a.vw * a.mz)) - 2 * (bxw * (a.vw * a.mz))) by (nonlinear_arith)
        requires
            rbyz == 2 * (byz - bxw),
    ;
    assert(rbyz * (a.vx * a.my) == 2 * (byz * (a.vx * a.my)) - 2 * (bxw * (a.vx * a.my))) by (nonlinear_arith)
        requires
            rbyz == 2 * (byz - bxw),
    ;
    assert(rbyz * (a.vy * a.mx) == 2 * (byz * (a.vy * a.mx)) - 2 * (bxw * (a.vy * a.mx))) by (nonlinear_arith)
        requires
            rbyz == 2 * (byz - bxw),
    ;
    assert(rbyz * (a.mw * a.vz) == 2 * (byz * (a.mw * a.vz)) - 2 * (bxw * (a.mw * a.vz))) by (nonlinear_arith)
        requires
            rbyz == 2 * (byz - bxw),
    ;
    assert(na * sb == (b.vw * b.my) * na + (b.vz * b.mx) * na - (b.vx * b.mz) * na - (b.mw * b.vy) * na) by (nonlinear_arith)
        requires
            sb == b.vw * b.my + b.vz * b.mx - b.vx * b.mz - b.mw * b.vy,
    ;
    assert((b.vw * b.my) * na == (b.vw * b.my) * (a.vx * a.vx) + (b.vw * b.my) * (a.vy * a.vy) + (b.vw * b.my) * (a.vz * a.vz) + (b.vw * b.my) * (a.vw * a.vw)) by (nonlinear_arith)
        requires
            na == a.vx * a.vx + a.vy * a.vy + a.vz * a.vz + a.vw * a.vw,
    ;
    assert((b.vz * b.mx) * na == (b.vz * b.mx) * (a.vx * a.vx) + (b.vz * b.mx) * (a.vy * a.vy) + (b.vz * b.mx) * (a.vz * a.vz) + (b.vz * b.mx) * (a.vw * a.vw)) by (nonlinear_arith)
        requires
            na == a.vx * a.vx + a.vy * a.vy + a.vz * a.vz + a.vw * a.vw,
    ;
    assert((b.vx * b.mz) * na == (b.vx * b.mz) * (a.vx * a.vx) + (b.vx * b.mz) * (a.vy * a.vy) + (b.vx * b.mz) * (a.vz * a.vz) + (b.vx * b.mz) * (a.vw * a.vw)) by (nonlinear_arith)
        requires
            na == a.vx * a.vx + a.vy * a.vy + a.vz * a.vz + a.vw * a.vw,
    ;
    assert((b.mw * b.vy) * na == (b.mw * b.vy) * (a.vx * a.vx) + (b.mw * b.vy) * (a.vy * a.vy) + (b.mw * b.vy) * (a.vz * a.vz) + (b.mw * b.vy) * (a.vw * a.vw)) by (nonlinear_arith)
        requires
            na == a.vx * a.vx + a.vy * a.vy + a.vz * a.vz + a.vw * a.vw,
    ;
}

/// [`lemma_shift_of_product`], coordinate `z`.
proof fn lemma_shift_of_product_z(a: ExactMotor, b: ExactMotor)
    ensures
        a.combine(b).shift_z() == b.rotation().zx * a.shift_x() + b.rotation().zy * a.shift_y() + b.rotation().zz * a.shift_z() + a.norm() * b.shift_z(),
{
    let c = a.combine(b);
    let rb = b.rotation();
    let c_vx = c.vx;
    let c_vy = c.vy;
    let c_vz = c.vz;
    let c_vw = c.vw;
    let c_mx = c.mx;
    let c_my = c.my;
    let c_mz = c.mz;
    let c_mw = c.mw;
    let q_mw_vw = b.mw * a.vw;
    let q_mw_vx = b.mw * a.vx;
    let q_mw_vy = b.mw * a.vy;
    let q_mw_vz = b.mw * a.vz;
    let q_mx_vw = b.mx * a.vw;
    let q_mx_vx = b.mx * a.vx;
    let q_mx_vy = b.mx * a.vy;
    let q_mx_vz = b.mx * a.vz;
    let q_my_vw = b.my * a.vw;
    let q_my_vx = b.my * a.vx;
    let q_my_vy = b.my * a.vy;
    let q_my_vz = b.my * a.vz;
    let q_mz_vw = b.mz * a.vw;
    let q_mz_vx = b.mz * a.vx;
    let q_mz_vy = b.mz * a.vy;
    let q_mz_vz = b.mz * a.vz;
    let q_vw_mw = b.vw * a.mw;
    let q_vw_mx = b.vw * a.mx;
    let q_vw_my = b.vw * a.my;
    let q_vw_mz = b.vw * a.mz;
    let q_vw_vw = b.vw * a.vw;
    let q_vw_vx = b.vw * a.vx;
    let q_vw_vy = b.vw * a.vy;
    let q_vw_vz = b.vw * a.vz;
    let q_vx_mw = b.vx * a.mw;
    let q_vx_mx = b.vx * a.mx;
    let q_vx_my = b.vx * a.my;
    let q_vx_mz = b.vx * a.mz;
    let q_vx_vw = b.vx * a.vw;
    let q_vx_vx = b.vx * a.vx;
    let q_vx_vy = b.vx * a.vy;
    let q_vx_vz = b.vx * a.vz;
    let q_vy_mw = b.vy * a.mw;
    let q_vy_mx = b.vy * a.mx;
    let q_vy_my = b.vy * a.my;
    let q_vy_mz = b.vy * a.mz;
    let q_vy_vw = b.vy * a.vw;
    let q_vy_vx = b.vy * a.vx;
    let q_vy_vy = b.vy * a.vy;
    let q_vy_vz = b.vy * a.vz;
    let q_vz_mw = b.vz * a.mw;
    let q_vz_mx = b.vz * a.mx;
    let q_vz_my = b.vz * a.my;
    let q_vz_mz = b.vz * a.mz;
    let q_vz_vw = b.vz * a.vw;
    let q_vz_vx = b.vz * a.vx;
    let q_vz_vy = b.vz * a.vy;
    let q_vz_vz = b.vz * a.vz;
    assert(c_vw * c_mz == c_vw * q_mz_vw + c_vw * q_vw_mz + c_vw * q_vx_my - c_vw * q_my_vx + c_vw * q_mx_vy - c_vw * q_vy_mx + c_vw * q_mw_vz + c_vw * q_vz_mw) by (nonlinear_arith)
        requires
            c_mz == q_mz_vw + q_vw_mz + q_vx_my - q_my_vx + q_mx_vy - q_vy_mx + q_mw_vz + q_vz_mw,
    ;
    assert(c_vw * q_mz_vw == q_vw_vw * q_mz_vw - q_vx_vx * q_mz_vw - q_vy_vy * q_mz_vw - q_vz_vz * q_mz_vw) by (nonlinear_arith)
        requires
            c_vw == q_vw_vw - q_vx_vx - q_vy_vy - q_vz_vz,
    ;
    assert(c_vw * q_vw_mz == q_vw_vw * q_vw_mz - q_vx_vx * q_vw_mz - q_vy_vy * q_vw_mz - q_vz_vz * q_vw_mz) by (nonlinear_arith)
        requires
            c_vw == q_vw_vw - q_vx_vx - q_vy_vy - q_vz_vz,
    ;
    assert(c_vw * q_vx_my == q_vw_vw * q_vx_my - q_vx_vx * q_vx_my - q_vy_vy * q_vx_my - q_vz_vz * q_vx_my) by (nonlinear_arith)
        requires
            c_vw == q_vw_vw - q_vx_vx - q_vy_vy - q_vz_vz,
    ;
    assert(c_vw * q_my_vx == q_vw_vw * q_my_vx - q_vx_vx * q_my_vx - q_vy_vy * q_my_vx - q_vz_vz * q_my_vx) by (nonlinear_arith)
        requires
            c_vw == q_vw_vw - q_vx_vx - q_vy_vy - q_vz_vz,
    ;
    assert(c_vw * q_mx_vy == q_vw_vw * q_mx_vy - q_vx_vx * q_mx_vy - q_vy_vy * q_mx_vy - q_vz_vz * q_mx_vy) by (nonlinear_arith)
        requires
            c_vw == q_vw_vw - q_vx_vx - q_vy_vy - q_vz_vz,
    ;
    assert(c_vw * q_vy_mx == q_vw_vw * q_vy_mx - q_vx_vx * q_vy_mx - q_vy_vy * q_vy_mx - q_vz_vz * q_vy_mx) by (nonlinear_arith)
        requires
            c_vw == q_vw_vw - q_vx_vx - q_vy_vy - q_vz_vz,
    ;
    assert(c_vw * q_mw_vz == q_vw_vw * q_mw_vz - q_vx_vx * q_mw_vz - q_vy_vy * q_mw_vz - q_vz_vz * q_mw_vz) by (nonlinear_arith)
        requires
            c_vw == q_vw_vw - q_vx_vx - q_vy_vy - q_vz_vz,
    ;
    assert(c_vw * q_vz_mw == q_vw_vw * q_vz_mw - q_vx_vx * q_vz_mw - q_vy_vy * q_vz_mw - q_vz_vz * q_vz_mw) by (nonlinear_arith)
        requires
            c_vw == q_vw_vw - q_vx_vx - q_vy_vy - q_vz_vz,
    ;
    lemma_cross_row(b.vw, a.vw, b.mz, a.vw, b.vw, a.mz, b.vx, a.my, b.my, a.vx);
    lemma_cross_row(b.vw, a.vw, b.mx, a.vy, b.vy, a.mx, b.mw, a.vz, b.vz, a.mw);
    lemma_cross_row(b.vx, a.vx, b.mz, a.vw, b.vw, a.mz, b.vx, a.my, b.my, a.vx);
    lemma_cross_row(b.vx, a.vx, b.mx, a.vy, b.vy, a.mx, b.mw, a.vz, b.vz, a.mw);
    lemma_cross_row(b.vy, a.vy, b.mz, a.vw, b.vw, a.mz, b.vx, a.my, b.my, a.vx);
    lemma_cross_row(b.vy, a.vy, b.mx, a.vy, b.vy, a.mx, b.mw, a.vz, b.vz, a.mw);
    lemma_cross_row(b.vz, a.vz, b.mz, a.vw, b.vw, a.mz, b.vx, a.my, b.my, a.vx);
    lemma_cross_row(b.vz, a.vz, b.mx, a.vy, b.vy, a.mx, b.mw, a.vz, b.vz, a.mw);
    assert(c_vx * c_my == c_vx * q_my_vw + c_vx * q_vw_my + c_vx * q_vz_mx - c_vx * q_mx_vz + c_vx * q_mz_vx - c_vx * q_vx_mz + c_vx * q_mw_vy + c_vx * q_vy_mw) by (nonlinear_arith)
        requires
            c_my == q_my_vw + q_vw_my + q_vz_mx - q_mx_vz + q_mz_vx - q_vx_mz + q_mw_vy + q_vy_mw,
    ;
    assert(c_vx * q_my_vw == q_vx_vw * q_my_vw + q_vw_vx * q_my_vw + q_vy_vz * q_my_vw - q_vz_vy * q_my_vw) by (nonlinear_arith)
        requires
            c_vx == q_vx_vw + q_vw_vx + q_vy_vz - q_vz_vy,
    ;
    assert(c_vx * q_vw_my == q_vx_vw * q_vw_my + q_vw_vx * q_vw_my + q_vy_vz * q_vw_my - q_vz_vy * q_vw_my) by (nonlinear_arith)
        requires
            c_vx == q_vx_vw + q_vw_vx + q_vy_vz - q_vz_vy,
    ;
    assert(c_vx * q_vz_mx == q_vx_vw * q_vz_mx + q_vw_vx * q_vz_mx + q_vy_vz * q_vz_mx - q_vz_vy * q_vz_mx) by (nonlinear_arith)
        requires
            c_vx == q_vx_vw + q_vw_vx + q_vy_vz - q_vz_vy,
    ;
    assert(c_vx * q_mx_vz == q_vx_vw * q_mx_vz + q_vw_vx * q_mx_vz + q_vy_vz * q_mx_vz - q_vz_vy * q_mx_vz) by (nonlinear_arith)
        requires
            c_vx == q_vx_vw + q_vw_vx + q_vy_vz - q_vz_vy,
    ;
    assert(c_vx * q_mz_vx == q_vx_vw * q_mz_vx + q_vw_vx * q_mz_vx + q_vy_vz * q_mz_vx - q_vz_vy * q_mz_vx) by (nonlinear_arith)
        requires
            c_vx == q_vx_vw + q_vw_vx + q_vy_vz - q_vz_vy,
    ;
    assert(c_vx * q_vx_mz == q_vx_vw * q_vx_mz + q_vw_vx * q_vx_mz + q_vy_vz * q_vx_mz - q_vz_vy * q_vx_mz) by (nonlinear_arith)
        requires
            c_vx == q_vx_vw + q_vw_vx + q_vy_vz - q_vz_vy,
    ;
    assert(c_vx * q_mw_vy == q_vx_vw * q_mw_vy + q_vw_vx * q_mw_vy + q_vy_vz * q_mw_vy - q_vz_vy * q_mw_vy) by (nonlinear_arith)
        requires
            c_vx == q_vx_vw + q_vw_vx + q_vy_vz - q_vz_vy,
    ;
    assert(c_vx * q_vy_mw == q_vx_vw * q_vy_mw + q_vw_vx * q_vy_mw + q_vy_vz * q_vy_mw - q_vz_vy * q_vy_mw) by (nonlinear_arith)
        requires
            c_vx == q_vx_vw + q_vw_vx + q_vy_vz - q_vz_vy,
    ;
    lemma_cross_row(b.vx, a.vw, b.my, a.vw, b.vw, a.my, b.vz, a.mx, b.mx, a.vz);
    lemma_cross_row(b.vx, a.vw, b.mz, a.vx, b.vx, a.mz, b.mw, a.vy, b.vy, a.mw);
    lemma_cross_row(b.vw, a.vx, b.my, a.vw, b.vw, a.my, b.vz, a.mx, b.mx, a.vz);
    lemma_cross_row(b.vw, a.vx, b.mz, a.vx, b.vx, a.mz, b.mw, a.vy, b.vy, a.mw);
    lemma_cross_row(b.vy, a.vz, b.my, a.vw, b.vw, a.my, b.vz, a.mx, b.mx, a.vz);
    lemma_cross_row(b.vy, a.vz, b.mz, a.vx, b.vx, a.mz, b.mw, a.vy, b.vy, a.mw);
    lemma_cross_row(b.vz, a.vy, b.my, a.vw, b.vw, a.my, b.vz, a.mx, b.mx, a.vz);
    lemma_cross_row(b.vz, a.vy, b.mz, a.vx, b.vx, a.mz, b.mw, a.vy, b.vy, a.mw);
    assert(c_vy * c_mx == c_vy * q_mx_vw + c_vy * q_vw_mx + c_vy * q_vy_mz - c_vy * q_mz_vy + c_vy * q_my_vz - c_vy * q_vz_my + c_vy * q_mw_vx + c_vy * q_vx_mw) by (nonlinear_arith)
        requires
            c_mx == q_mx_vw + q_vw_mx + q_vy_mz - q_mz_vy + q_my_vz - q_vz_my + q_mw_vx + q_vx_mw,
    ;
    assert(c_vy * q_mx_vw == q_vy_vw * q_mx_vw + q_vw_vy * q_mx_vw + q_vz_vx * q_mx_vw - q_vx_vz * q_mx_vw) by (nonlinear_arith)
        requires
            c_vy == q_vy_vw + q_vw_vy + q_vz_vx - q_vx_vz,
    ;
    assert(c_vy * q_vw_mx == q_vy_vw * q_vw_mx + q_vw_vy * q_vw_mx + q_vz_vx * q_vw_mx - q_vx_vz * q_vw_mx) by (nonlinear_arith)
        requires
            c_vy == q_vy_vw + q_vw_vy + q_vz_vx - q_vx_vz,
    ;
    assert(c_vy * q_vy_mz == q_vy_vw * q_vy_mz + q_vw_vy * q_vy_mz + q_vz_vx * q_vy_mz - q_vx_vz * q_vy_mz) by (nonlinear_arith)
        requires
            c_vy == q_vy_vw + q_vw_vy + q_vz_vx - q_vx_vz,
    ;
    assert(c_vy * q_mz_vy == q_vy_vw * q_mz_vy + q_vw_vy * q_mz_vy + q_vz_vx * q_mz_vy - q_vx_vz * q_mz_vy) by (nonlinear_arith)
        requires
            c_vy == q_vy_vw + q_vw_vy + q_vz_vx - q_vx_vz,
    ;
    assert(c_vy * q_my_vz == q_vy_vw * q_my_vz + q_vw_vy * q_my_vz + q_vz_vx * q_my_vz - q_vx_vz * q_my_vz) by (nonlinear_arith)
        requires
            c_vy == q_vy_vw + q_vw_vy + q_vz_vx - q_vx_vz,
    ;
    assert(c_vy * q_vz_my == q_vy_vw * q_vz_my + q_vw_vy * q_vz_my + q_vz_vx * q_vz_my - q_vx_vz * q_vz_my) by (nonlinear_arith)
        requires
            c_vy == q_vy_vw + q_vw_vy + q_vz_vx - q_vx_vz,
    ;
    assert(c_vy * q_mw_vx == q_vy_vw * q_mw_vx + q_vw_vy * q_mw_vx + q_vz_vx * q_mw_vx - q_vx_vz * q_mw_vx) by (nonlinear_arith)
        requires
            c_vy == q_vy_vw + q_vw_vy + q_vz_vx - q_vx_vz,
    ;
    assert(c_vy * q_vx_mw == q_vy_vw * q_vx_mw + q_vw_vy * q_vx_mw + q_vz_vx * q_vx_mw - q_vx_vz * q_vx_mw) by (nonlinear_arith)
        requires
            c_vy == q_vy_vw + q_vw_vy + q_vz_vx - q_vx_vz,
    ;
    lemma_cross_row(b.vy, a.vw, b.mx, a.vw, b.vw, a.mx, b.vy, a.mz, b.mz, a.vy);
    lemma_cross_row(b.vy, a.vw, b.my, a.vz, b.vz, a.my, b.mw, a.vx, b.vx, a.mw);
    lemma_cross_row(b.vw, a.vy, b.mx, a.vw, b.vw, a.mx, b.vy, a.mz, b.mz, a.vy);
    lemma_cross_row(b.vw, a.vy, b.my, a.vz, b.vz, a.my, b.mw, a.vx, b.vx, a.mw);
    lemma_cross_row(b.vz, a.vx, b.mx, a.vw, b.vw, a.mx, b.vy, a.mz, b.mz, a.vy);
    lemma_cross_row(b.vz, a.vx, b.my, a.vz, b.vz, a.my, b.mw, a.vx, b.vx, a.mw);
    lemma_cross_row(b.vx, a.vz, b.mx, a.vw, b.vw, a.mx, b.vy, a.mz, b.mz, a.vy);
    lemma_cross_row(b.vx, a.vz, b.my, a.vz, b.vz, a.my, b.mw, a.vx, b.vx, a.mw);
    assert(c_mw * c_vz == c_mw * q_vz_vw + c_mw * q_vw_vz + c_mw * q_vx_vy - c_mw * q_vy_vx) by (nonlinear_arith)
        requires
            c_vz == q_vz_vw + q_vw_vz + q_vx_vy - q_vy_vx,
    ;
    assert(c_mw * q_vz_vw == q_vw_mw * q_vz_vw + q_mw_vw * q_vz_vw - q_vx_mx * q_vz_vw - q_mx_vx * q_vz_vw - q_vy_my * q_vz_vw - q_my_vy * q_vz_vw - q_vz_mz * q_vz_vw - q_mz_vz * q_vz_vw) by (nonlinear_arith)
        requires
            c_mw == q_vw_mw + q_mw_vw - q_vx_mx - q_mx_vx - q_vy_my - q_my_vy - q_vz_mz - q_mz_vz,
    ;
    assert(c_mw * q_vw_vz == q_vw_mw * q_vw_vz + q_mw_vw * q_vw_vz - q_vx_mx * q_vw_vz - q_mx_vx * q_vw_vz - q_vy_my * q_vw_vz - q_my_vy * q_vw_vz - q_vz_mz * q_vw_vz - q_mz_vz * q_vw_vz) by (nonlinear_arith)
        requires
            c_mw == q_vw_mw + q_mw_vw - q_vx_mx - q_mx_vx - q_vy_my - q_my_vy - q_vz_mz - q_mz_vz,
    ;
    assert(c_mw * q_vx_vy == q_vw_mw * q_vx_vy + q_mw_vw * q_vx_vy - q_vx_mx * q_vx_vy - q_mx_vx * q_vx_vy - q_vy_my * q_vx_vy - q_my_vy * q_vx_vy - q_vz_mz * q_vx_vy - q_mz_vz * q_vx_vy) by (nonlinear_arith)
        requires
            c_mw == q_vw_mw + q_mw_vw - q_vx_mx - q_mx_vx - q_vy_my - q_my_vy - q_vz_mz - q_mz_vz,
    ;
    assert(c_mw * q_vy_vx == q_vw_mw * q_vy_vx + q_mw_vw * q_vy_vx - q_vx_mx * q_vy_vx - q_mx_vx * q_vy_vx - q_vy_my * q_vy_vx - q_my_vy * q_vy_vx - q_vz_mz * q_vy_vx - q_mz_vz * q_vy_vx) by (nonlinear_arith)
        requires
            c_mw == q_vw_mw + q_mw_vw - q_vx_mx - q_mx_vx - q_vy_my - q_my_vy - q_vz_mz - q_mz_vz,
    ;
    lemma_cross_row(b.vw, a.mw, b.vz, a.vw, b.vw, a.vz, b.vx, a.vy, b.vy, a.vx);
    lemma_cross_row(b.mw, a.vw, b.vz, a.vw, b.vw, a.vz, b.vx, a.vy, b.vy, a.vx);
    lemma_cross_row(b.vx, a.mx, b.vz, a.vw, b.vw, a.vz, b.vx, a.vy, b.vy, a.vx);
    lemma_cross_row(b.mx, a.vx, b.vz, a.vw, b.vw, a.vz, b.vx, a.vy, b.vy, a.vx);
    lemma_cross_row(b.vy, a.my, b.vz, a.vw, b.vw, a.vz, b.vx, a.vy, b.vy, a.vx);
    lemma_cross_row(b.my, a.vy, b.vz, a.vw, b.vw, a.vz, b.vx, a.vy, b.vy, a.vx);
    lemma_cross_row(b.vz, a.mz, b.vz, a.vw, b.vw, a.vz, b.vx, a.vy, b.vy, a.vx);
    lemma_cross_row(b.mz, a.vz, b.vz, a.vw, b.vw, a.vz, b.vx, a.vy, b.vy, a.vx);
    let sa_x = a.shift_x();
    let sa_y = a.shift_y();
    let sa_z = a.shift_z();
    let sb = b.shift_z();
    let na = a.norm();
    let bxx = b.vx * b.vx;
    let bxy = b.vx * b.vy;
    let bxz = b.vx * b.vz;
    let bxw = b.vx * b.vw;
    let byy = b.vy * b.vy;
    let byz = b.vy * b.vz;
    let byw = b.vy * b.vw;
    let bzz = b.vz * b.vz;
    let bzw = b.vz * b.vw;
    let bww = b.vw * b.vw;
    let rbzx = rb.zx;
    assert(rbzx * sa_x == rbzx * (a.vw * a.mx) + rbzx * (a.vy * a.mz) - rbzx * (a.vz * a.my) - rbzx * (a.mw * a.vx)) by (nonlinear_arith)
        requires
            sa_x == a.vw * a.mx + a.vy * a.mz - a.vz * a.my - a.mw * a.vx,
    ;
    assert(rbzx * (a.vw * a.mx) == 2 * (bxz * (a.vw * a.mx)) - 2 * (byw * (a.vw * a.mx))) by (nonlinear_arith)
        requires
            rbzx == 2 * (bxz - byw),
    ;
    assert(rbzx * (a.vy * a.mz) == 2 * (bxz * (a.vy * a.mz)) - 2 * (byw * (a.vy * a.mz))) by (nonlinear_arith)
        requires
            rbzx == 2 * (bxz - byw),
    ;
    assert(rbzx * (a.vz * a.my) == 2 * (bxz * (a.vz * a.my)) - 2 * (byw * (a.vz * a.my))) by (nonlinear_arith)
        requires
            rbzx == 2 * (bxz - byw),
    ;
    assert(rbzx * (a.mw * a.vx) == 2 * (bxz * (a.mw * a.vx)) - 2 * (byw * (a.mw * a.vx))) by (nonlinear_arith)
        requires
            rbzx == 2 * (bxz - byw),
    ;
    let rbzy = rb.zy;
    assert(rbzy * sa_y == rbzy * (a.vw * a.my) + rbzy * (a.vz * a.mx) - rbzy * (a.vx * a.mz) - rbzy * (a.mw * a.vy)) by (nonlinear_arith)
        requires
            sa_y == a.vw * a.my + a.vz * a.mx - a.vx * a.mz - a.mw * a.vy,
    ;
    assert(rbzy * (a.vw * a.my) == 2 * (byz * (a.vw * a.my)) + 2 * (bxw * (a.vw * a.my))) by (nonlinear_arith)
        requires
            rbzy == 2 * (byz + bxw),
    ;
    assert(rbzy * (a.vz * a.mx) == 2 * (byz * (a.vz * a.mx)) + 2 * (bxw * (a.vz * a.mx))) by (nonlinear_arith)
        requires
            rbzy == 2 * (byz + bxw),
    ;
    assert(rbzy * (a.vx * a.mz) == 2 * (byz * (a.vx * a.mz)) + 2 * (bxw * (a.vx * a.mz))) by (nonlinear_arith)
        requires
            rbzy == 2 * (byz + bxw),
    ;
    assert(rbzy * (a.mw * a.vy) == 2 * (byz * (a.mw * a.vy)) + 2 * (bxw * (a.mw * a.vy))) by (nonlinear_arith)
        requires
            rbzy == 2 * (byz + bxw),
    ;
    let rbzz = rb.zz;
    assert(rbzz * sa_z == rbzz * (a.vw * a.mz) + rbzz * (a.vx * a.my) - rbzz * (a.vy * a.mx) - rbzz * (a.mw * a.vz)) by (nonlinear_arith)
        requires
            sa_z == a.vw * a.mz + a.vx * a.my - a.vy * a.mx - a.mw * a.vz,
    ;
    assert(rbzz * (a.vw * a.mz) == bww * (a.vw * a.mz) - bxx * (a.vw * a.mz) - byy * (a.vw * a.mz) + bzz * (a.vw * a.mz)) by (nonlinear_arith)
        requires
            rbzz == bww - bxx - byy + bzz,
    ;
    assert(rbzz * (a.vx * a.my) == bww * (a.vx * a.my) - bxx * (a.vx * a.my) - byy * (a.vx * a.my) + bzz * (a.vx * a.my)) by (nonlinear_arith)
        requires
            rbzz == bww - bxx - byy + bzz,
    ;
    assert(rbzz * (a.vy * a.mx) == bww * (a.vy * a.mx) - bxx * (a.vy * a.mx) - byy * (a.vy * a.mx) + bzz * (a.vy * a.mx)) by (nonlinear_arith)
        requires
            rbzz == bww - bxx - byy + bzz,
    ;
    assert(rbzz * (a.mw * a.vz) == bww * (a.mw * a.vz) - bxx * (a.mw * a.vz) - byy * (a.mw * a.vz) + bzz * (a.mw * a.vz)) by (nonlinear_arith)
        requires
            rbzz == bww - bxx - byy + bzz,
    ;
    assert(na * sb == (b.vw * b.mz) * na + (b.vx * b.my) * na - (b.vy * b.mx) * na - (b.mw * b.vz) * na) by (nonlinear_arith)
        requires
            sb == b.vw * b.mz + b.vx * b.my - b.vy * b.mx - b.mw * b.vz,
    ;
    assert((b.vw * b.mz) * na == (b.vw * b.mz) * (a.vx * a.vx) + (b.vw * b.mz) * (a.vy * a.vy) + (b.vw * b.mz) * (a.vz * a.vz) + (b.vw * b.mz) * (a.vw * a.vw)) by (nonlinear_arith)
        requires
            na == a.vx * a.vx + a.vy * a.vy + a.vz * a.vz + a.vw * a.vw,
    ;
    assert((b.vx * b.my) * na == (b.vx * b.my) * (a.vx * a.vx) + (b.vx * b.my) * (a.vy * a.vy) + (b.vx * b.my) * (a.vz * a.vz) + (b.vx * b.my) * (a.vw * a.vw)) by (nonlinear_arith)
        requires
            na == a.vx * a.vx + a.vy * a.vy + a.vz * a.vz + a.vw * a.vw,
    ;
    assert((b.vy * b.mx) * na == (b.vy * b.mx) * (a.vx * a.vx) + (b.vy * b.mx) * (a.vy * a.vy) + (b.vy * b.mx) * (a.vz * a.vz) + (b.vy * b.mx) * (a.vw * a.vw)) by (nonlinear_arith)
        requires
            na == a.vx * a.vx + a.vy * a.vy + a.vz * a.vz + a.vw * a.vw,
    ;
    assert((b.mw * b.vz) * na == (b.mw * b.vz) * (a.vx * a.vx) + (b.mw * b.vz) * (a.vy * a.vy) + (b.mw * b.vz) * (a.vz * a.vz) + (b.mw * b.vz) * (a.vw * a.vw)) by (nonlinear_arith)
        requires
            na == a.vx * a.vx + a.vy * a.vy + a.vz * a.vz + a.vw * a.vw,
    ;
}

/// The shift of a product is the shift of the first factor turned by the
/// second, plus the shift of the second times the squared length of the
/// first.
pub proof fn lemma_shift_of_product(a: ExactMotor, b: ExactMotor)
    ensures
        a.combine(b).shift_x() == b.rotation().xx * a.shift_x() + b.rotation().xy * a.shift_y()
            + b.rotation().xz * a.shift_z() + a.norm() * b.shift_x(),
        a.combine(b).shift_y() == b.rotation().yx * a.shift_x() + b.rotation().yy * a.shift_y()
            + b.rotation().yz * a.shift_z() + a.norm() * b.shift_y(),
        a.combine(b).shift_z() == b.rotation().zx * a.shift_x() + b.rotation().zy * a.shift_y()
            + b.rotation().zz * a.shift_z() + a.norm() * b.shift_z(),
{
    lemma_shift_of_product_x(a, b);
    lemma_shift_of_product_y(a, b);
    lemma_shift_of_product_z(a, b);
}

} // verus!
