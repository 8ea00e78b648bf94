//! How the coupling of a motor behaves under the motor product, and how
//! the shift, the coupling and the squared length of one motor hang
//! together.

use crate::exact::ExactMotor;
use crate::laws::affine::lemma_monomial;
use crate::laws::rotation::{lemma_cross, lemma_cross_row};
use vstd::prelude::*;

verus! {

/// The coupling of a product is the coupling of each factor times the
/// squared length of the other.
pub proof fn lemma_coupling_of_product(a: ExactMotor, b: ExactMotor)
    ensures
        a.combine(b).coupling() == b.norm() * a.coupling() + a.norm() * b.coupling(),
{
    let c = a.combine(b);
    let c_vx = c.vx;
    let c_vy = c.vy;
    let c_vz = c.vz;
    let c_vw = c.vw;
    let c_mx = c.mx;
    let c_my = c.my;
    let c_mz = c.mz;
    let c_mw = c.mw;
    let q_mw_vw = b.mw * a.vw;
    let q_mw_vx = b.mw * a.vx;
    let q_mw_vy = b.mw * a.vy;
    let q_mw_vz = b.mw * a.vz;
    let q_mx_vw = b.mx * a.vw;
    let q_mx_vx = b.mx * a.vx;
    let q_mx_vy = b.mx * a.vy;
    let q_mx_vz = b.mx * a.vz;
    let q_my_vw = b.my * a.vw;
    let q_my_vx = b.my * a.vx;
    let q_my_vy = b.my * a.vy;
    let q_my_vz = b.my * a.vz;
    let q_mz_vw = b.mz * a.vw;
    let q_mz_vx = b.mz * a.vx;
    let q_mz_vy = b.mz * a.vy;
    let q_mz_vz = b.mz * a.vz;
    let q_vw_mw = b.vw * a.mw;
    let q_vw_mx = b.vw * a.mx;
    let q_vw_my = b.vw * a.my;
    let q_vw_mz = b.vw * a.mz;
    let q_vw_vw = b.vw * a.vw;
    let q_vw_vx = b.vw * a.vx;
    let q_vw_vy = b.vw * a.vy;
    let q_vw_vz = b.vw * a.vz;
    let q_vx_mw = b.vx * a.mw;
    let q_vx_mx = b.vx * a.mx;
    let q_vx_my = b.vx * a.my;
    let q_vx_mz = b.vx * a.mz;
    let q_vx_vw = b.vx * a.vw;
    let q_vx_vx = b.vx * a.vx;
    let q_vx_vy = b.vx * a.vy;
    let q_vx_vz = b.vx * a.vz;
    let q_vy_mw = b.vy * a.mw;
    let q_vy_mx = b.vy * a.mx;
    let q_vy_my = b.vy * a.my;
    let q_vy_mz = b.vy * a.mz;
    let q_vy_vw = b.vy * a.vw;
    let q_vy_vx = b.vy * a.vx;
    let q_vy_vy = b.vy * a.vy;
    let q_vy_vz = b.vy * a.vz;
    let q_vz_mw = b.vz * a.mw;
    let q_vz_mx = b.vz * a.mx;
    let q_vz_my = b.vz * a.my;
    let q_vz_mz = b.vz * a.mz;
    let q_vz_vw = b.vz * a.vw;
    let q_vz_vx = b.vz * a.vx;
    let q_vz_vy = b.vz * a.vy;
    let q_vz_vz = b.vz * a.vz;
    assert(c_vx * c_mx == c_vx * q_mx_vw + c_vx * q_vw_mx + c_vx * q_vy_mz - c_vx * q_mz_vy + c_vx * q_my_vz - c_vx * q_vz_my + c_vx * q_mw_vx + c_vx * q_vx_mw) by (nonlinear_arith)
        requires
            c_mx == q_mx_vw + q_vw_mx + q_vy_mz - q_mz_vy + q_my_vz - q_vz_my + q_mw_vx + q_vx_mw,
    ;
    assert(c_vx * q_mx_vw == q_vx_vw * q_mx_vw + q_vw_vx * q_mx_vw + q_vy_vz * q_mx_vw - q_vz_vy * q_mx_vw) by (nonlinear_arith)
        requires
            c_vx == q_vx_vw + q_vw_vx + q_vy_vz - q_vz_vy,
    ;
    assert(c_vx * q_vw_mx == q_vx_vw * q_vw_mx + q_vw_vx * q_vw_mx + q_vy_vz * q_vw_mx - q_vz_vy * q_vw_mx) by (nonlinear_arith)
        requires
            c_vx == q_vx_vw + q_vw_vx + q_vy_vz - q_vz_vy,
    ;
    assert(c_vx * q_vy_mz == q_vx_vw * q_vy_mz + q_vw_vx * q_vy_mz + q_vy_vz * q_vy_mz - q_vz_vy * q_vy_mz) by (nonlinear_arith)
        requires
            c_vx == q_vx_vw + q_vw_vx + q_vy_vz - q_vz_vy,
    ;
    assert(c_vx * q_mz_vy == q_vx_vw * q_mz_vy + q_vw_vx * q_mz_vy + q_vy_vz * q_mz_vy - q_vz_vy * q_mz_vy) by (nonlinear_arith)
        requires
            c_vx == q_vx_vw + q_vw_vx + q_vy_vz - q_vz_vy,
    ;
    assert(c_vx * q_my_vz == q_vx_vw * q_my_vz + q_vw_vx * q_my_vz + q_vy_vz * q_my_vz - q_vz_vy * q_my_vz) by (nonlinear_arith)
        requires
            c_vx == q_vx_vw + q_vw_vx + q_vy_vz - q_vz_vy,
    ;
    assert(c_vx * q_vz_my == q_vx_vw * q_vz_my + q_vw_vx * q_vz_my + q_vy_vz * q_vz_my - q_vz_vy * q_vz_my) by (nonlinear_arith)
        requires
            c_vx == q_vx_vw + q_vw_vx + q_vy_vz - q_vz_vy,
    ;
    assert(c_vx * q_mw_vx == q_vx_vw * q_mw_vx + q_vw_vx * q_mw_vx + q_vy_vz * q_mw_vx - q_vz_vy * q_mw_vx) by (nonlinear_arith)
        requires
            c_vx == q_vx_vw + q_vw_vx + q_vy_vz - q_vz_vy,
    ;
    assert(c_vx * q_vx_mw == q_vx_vw * q_vx_mw + q_vw_vx * q_vx_mw + q_vy_vz * q_vx_mw - q_vz_vy * q_vx_mw) by (nonlinear_arith)
        requires
            c_vx == q_vx_vw + q_vw_vx + q_vy_vz - q_vz_vy,
    ;
    lemma_cross_row(b.vx, a.vw, b.mx, a.vw, b.vw, a.mx, b.vy, a.mz, b.mz, a.vy);
    lemma_cross_row(b.vx, a.vw, b.my, a.vz, b.vz, a.my, b.mw, a.vx, b.vx, a.mw);
    lemma_cross_row(b.vw, a.vx, b.mx, a.vw, b.vw, a.mx, b.vy, a.mz, b.mz, a.vy);
    lemma_cross_row(b.vw, a.vx, b.my, a.vz, b.vz, a.my, b.mw, a.vx, b.vx, a.mw);
    lemma_cross_row(b.vy, a.vz, b.mx, a.vw, b.vw, a.mx, b.vy, a.mz, b.mz, a.vy);
    lemma_cross_row(b.vy, a.vz, b.my, a.vz, b.vz, a.my, b.mw, a.vx, b.vx, a.mw);
    lemma_cross_row(b.vz, a.vy, b.mx, a.vw, b.vw, a.mx, b.vy, a.mz, b.mz, a.vy);
    lemma_cross_row(b.vz, a.vy, b.my, a.vz, b.vz, a.my, b.mw, a.vx, b.vx, a.mw);
    assert(c_vy * c_my == c_vy * q_my_vw + c_vy * q_vw_my + c_vy * q_vz_mx - c_vy * q_mx_vz + c_vy * q_mz_vx - c_vy * q_vx_mz + c_vy * q_mw_vy + c_vy * q_vy_mw) by (nonlinear_arith)
        requires
            c_my == q_my_vw + q_vw_my + q_vz_mx - q_mx_vz + q_mz_vx - q_vx_mz + q_mw_vy + q_vy_mw,
    ;
    assert(c_vy * q_my_vw == q_vy_vw * q_my_vw + q_vw_vy * q_my_vw + q_vz_vx * q_my_vw - q_vx_vz * q_my_vw) by (nonlinear_arith)
        requires
            c_vy == q_vy_vw + q_vw_vy + q_vz_vx - q_vx_vz,
    ;
    assert(c_vy * q_vw_my == q_vy_vw * q_vw_my + q_vw_vy * q_vw_my + q_vz_vx * q_vw_my - q_vx_vz * q_vw_my) by (nonlinear_arith)
        requires
            c_vy == q_vy_vw + q_vw_vy + q_vz_vx - q_vx_vz,
    ;
    assert(c_vy * q_vz_mx == q_vy_vw * q_vz_mx + q_vw_vy * q_vz_mx + q_vz_vx * q_vz_mx - q_vx_vz * q_vz_mx) by (nonlinear_arith)
        requires
            c_vy == q_vy_vw + q_vw_vy + q_vz_vx - q_vx_vz,
    ;
    assert(c_vy * q_mx_vz == q_vy_vw * q_mx_vz + q_vw_vy * q_mx_vz + q_vz_vx * q_mx_vz - q_vx_vz * q_mx_vz) by (nonlinear_arith)
        requires
            c_vy == q_vy_vw + q_vw_vy + q_vz_vx - q_vx_vz,
    ;
    assert(c_vy * q_mz_vx == q_vy_vw * q_mz_vx + q_vw_vy * q_mz_vx + q_vz_vx * q_mz_vx - q_vx_vz * q_mz_vx) by (nonlinear_arith)
        requires
            c_vy == q_vy_vw + q_vw_vy + q_vz_vx - q_vx_vz,
    ;
    assert(c_vy * q_vx_mz == q_vy_vw * q_vx_mz + q_vw_vy * q_vx_mz + q_vz_vx * q_vx_mz - q_vx_vz * q_vx_mz) by (nonlinear_arith)
        requires
            c_vy == q_vy_vw + q_vw_vy + q_vz_vx - q_vx_vz,
    ;
    assert(c_vy * q_mw_vy == q_vy_vw * q_mw_vy + q_vw_vy * q_mw_vy + q_vz_vx * q_mw_vy - q_vx_vz * q_mw_vy) by (nonlinear_arith)
        requires
            c_vy == q_vy_vw + q_vw_vy + q_vz_vx - q_vx_vz,
    ;
    assert(c_vy * q_vy_mw == q_vy_vw * q_vy_mw + q_vw_vy * q_vy_mw + q_vz_vx * q_vy_mw - q_vx_vz * q_vy_mw) by (nonlinear_arith)
        requires
            c_vy == q_vy_vw + q_vw_vy + q_vz_vx - q_vx_vz,
    ;
    lemma_cross_row(b.vy, a.vw, b.my, a.vw, b.vw, a.my, b.vz, a.mx, b.mx, a.vz);
    lemma_cross_row(b.vy, a.vw, b.mz, a.vx, b.vx, a.mz, b.mw, a.vy, b.vy, a.mw);
    lemma_cross_row(b.vw, a.vy, b.my, a.vw, b.vw, a.my, b.vz, a.mx, b.mx, a.vz);
    lemma_cross_row(b.vw, a.vy, b.mz, a.vx, b.vx, a.mz, b.mw, a.vy, b.vy, a.mw);
    lemma_cross_row(b.vz, a.vx, b.my, a.vw, b.vw, a.my, b.vz, a.mx, b.mx, a.vz);
    lemma_cross_row(b.vz, a.vx, b.mz, a.vx, b.vx, a.mz, b.mw, a.vy, b.vy, a.mw);
    lemma_cross_row(b.vx, a.vz, b.my, a.vw, b.vw, a.my, b.vz, a.mx, b.mx, a.vz);
    lemma_cross_row(b.vx, a.vz, b.mz, a.vx, b.vx, a.mz, b.mw, a.vy, b.vy, a.mw);
    assert(c_vz * c_mz == c_vz * q_mz_vw + c_vz * q_vw_mz + c_vz * q_vx_my - c_vz * q_my_vx + c_vz * q_mx_vy - c_vz * q_vy_mx + c_vz * q_mw_vz + c_vz * q_vz_mw) by (nonlinear_arith)
        requires
            c_mz == q_mz_vw + q_vw_mz + q_vx_my - q_my_vx + q_mx_vy - q_vy_mx + q_mw_vz + q_vz_mw,
    ;
    assert(c_vz * q_mz_vw == q_vz_vw * q_mz_vw + q_vw_vz * q_mz_vw + q_vx_vy * q_mz_vw - q_vy_vx * q_mz_vw) by (nonlinear_arith)
        requires
            c_vz == q_vz_vw + q_vw_vz + q_vx_vy - q_vy_vx,
    ;
    assert(c_vz * q_vw_mz == q_vz_vw * q_vw_mz + q_vw_vz * q_vw_mz + q_vx_vy * q_vw_mz - q_vy_vx * q_vw_mz) by (nonlinear_arith)
        requires
            c_vz == q_vz_vw + q_vw_vz + q_vx_vy - q_vy_vx,
    ;
    assert(c_vz * q_vx_my == q_vz_vw * q_vx_my + q_vw_vz * q_vx_my + q_vx_vy * q_vx_my - q_vy_vx * q_vx_my) by (nonlinear_arith)
        requires
            c_vz == q_vz_vw + q_vw_vz + q_vx_vy - q_vy_vx,
    ;
    assert(c_vz * q_my_vx == q_vz_vw * q_my_vx + q_vw_vz * q_my_vx + q_vx_vy * q_my_vx - q_vy_vx * q_my_vx) by (nonlinear_arith)
        requires
            c_vz == q_vz_vw + q_vw_vz + q_vx_vy - q_vy_vx,
    ;
    assert(c_vz * q_mx_vy == q_vz_vw * q_mx_vy + q_vw_vz * q_mx_vy + q_vx_vy * q_mx_vy - q_vy_vx * q_mx_vy) by (nonlinear_arith)
        requires
            c_vz == q_vz_vw + q_vw_vz + q_vx_vy - q_vy_vx,
    ;
    assert(c_vz * q_vy_mx == q_vz_vw * q_vy_mx + q_vw_vz * q_vy_mx + q_vx_vy * q_vy_mx - q_vy_vx * q_vy_mx) by (nonlinear_arith)
        requires
            c_vz == q_vz_vw + q_vw_vz + q_vx_vy - q_vy_vx,
    ;
    assert(c_vz * q_mw_vz == q_vz_vw * q_mw_vz + q_vw_vz * q_mw_vz + q_vx_vy * q_mw_vz - q_vy_vx * q_mw_vz) by (nonlinear_arith)
        requires
            c_vz == q_vz_vw + q_vw_vz + q_vx_vy - q_vy_vx,
    ;
    assert(c_vz * q_vz_mw == q_vz_vw * q_vz_mw + q_vw_vz * q_vz_mw + q_vx_vy * q_vz_mw - q_vy_vx * q_vz_mw) by (nonlinear_arith)
        requires
            c_vz == q_vz_vw + q_vw_vz + q_vx_vy - q_vy_vx,
    ;
    lemma_cross_row(b.vz, a.vw, b.mz, a.vw, b.vw, a.mz, b.vx, a.my, b.my, a.vx);
    lemma_cross_row(b.vz, a.vw, b.mx, a.vy, b.vy, a.mx, b.mw, a.vz, b.vz, a.mw);
    lemma_cross_row(b.vw, a.vz, b.mz, a.vw, b.vw, a.mz, b.vx, a.my, b.my, a.vx);
    lemma_cross_row(b.vw, a.vz, b.mx, a.vy, b.vy, a.mx, b.mw, a.vz, b.vz, a.mw);
    lemma_cross_row(b.vx, a.vy, b.mz, a.vw, b.vw, a.mz, b.vx, a.my, b.my, a.vx);
    lemma_cross_row(b.vx, a.vy, b.mx, a.vy, b.vy, a.mx, b.mw, a.vz, b.vz, a.mw);
    lemma_cross_row(b.vy, a.vx, b.mz, a.vw, b.vw, a.mz, b.vx, a.my, b.my, a.vx);
    lemma_cross_row(b.vy, a.vx, b.mx, a.vy, b.vy, a.mx, b.mw, a.vz, b.vz, a.mw);
    assert(c_vw * c_mw == c_vw * q_vw_mw + c_vw * q_mw_vw - c_vw * q_vx_mx - c_vw * q_mx_vx - c_vw * q_vy_my - c_vw * q_my_vy - c_vw * q_vz_mz - c_vw * q_mz_vz) by (nonlinear_arith)
        requires
            c_mw == q_vw_mw + q_mw_vw - q_vx_mx - q_mx_vx - q_vy_my - q_my_vy - q_vz_mz - q_mz_vz,
    ;
    assert(c_vw * q_vw_mw == q_vw_vw * q_vw_mw - q_vx_vx * q_vw_mw - q_vy_vy * q_vw_mw - q_vz_vz * q_vw_mw) by (nonlinear_arith)
        requires
            c_vw == q_vw_vw - q_vx_vx - q_vy_vy - q_vz_vz,
    ;
    assert(c_vw * q_mw_vw == q_vw_vw * q_mw_vw - q_vx_vx * q_mw_vw - q_vy_vy * q_mw_vw - q_vz_vz * q_mw_vw) by (nonlinear_arith)
        requires
            c_vw == q_vw_vw - q_vx_vx - q_vy_vy - q_vz_vz,
    ;
    assert(c_vw * q_vx_mx == q_vw_vw * q_vx_mx - q_vx_vx * q_vx_mx - q_vy_vy * q_vx_mx - q_vz_vz * q_vx_mx) by (nonlinear_arith)
        requires
            c_vw == q_vw_vw - q_vx_vx - q_vy_vy - q_vz_vz,
    ;
    assert(c_vw * q_mx_vx == q_vw_vw * q_mx_vx - q_vx_vx * q_mx_vx - q_vy_vy * q_mx_vx - q_vz_vz * q_mx_vx) by (nonlinear_arith)
        requires
            c_vw == q_vw_vw - q_vx_vx - q_vy_vy - q_vz_vz,
    ;
    assert(c_vw * q_vy_my == q_vw_vw * q_vy_my - q_vx_vx * q_vy_my - q_vy_vy * q_vy_my - q_vz_vz * q_vy_my) by (nonlinear_arith)
        requires
            c_vw == q_vw_vw - q_vx_vx - q_vy_vy - q_vz_vz,
    ;
    assert(c_vw * q_my_vy == q_vw_vw * q_my_vy - q_vx_vx * q_my_vy - q_vy_vy * q_my_vy - q_vz_vz * q_my_vy) by (nonlinear_arith)
        requires
            c_vw == q_vw_vw - q_vx_vx - q_vy_vy - q_vz_vz,
    ;
    assert(c_vw * q_vz_mz == q_vw_vw * q_vz_mz - q_vx_vx * q_vz_mz - q_vy_vy * q_vz_mz - q_vz_vz * q_vz_mz) by (nonlinear_arith)
        requires
            c_vw == q_vw_vw - q_vx_vx - q_vy_vy - q_vz_vz,
    ;
    assert(c_vw * q_mz_vz == q_vw_vw * q_mz_vz - q_vx_vx * q_mz_vz - q_vy_vy * q_mz_vz - q_vz_vz * q_mz_vz) by (nonlinear_arith)
        requires
            c_vw == q_vw_vw - q_vx_vx - q_vy_vy - q_vz_vz,
    ;
    lemma_cross_row(b.vw, a.vw, b.vw, a.mw, b.mw, a.vw, b.vx, a.mx, b.mx, a.vx);
    lemma_cross_row(b.vw, a.vw, b.vy, a.my, b.my, a.vy, b.vz, a.mz, b.mz, a.vz);
    lemma_cross_row(b.vx, a.vx, b.vw, a.mw, b.mw, a.vw, b.vx, a.mx, b.mx, a.vx);
    lemma_cross_row(b.vx, a.vx, b.vy, a.my, b.my, a.vy, b.vz, a.mz, b.mz, a.vz);
    lemma_cross_row(b.vy, a.vy, b.vw, a.mw, b.mw, a.vw, b.vx, a.mx, b.mx, a.vx);
    lemma_cross_row(b.vy, a.vy, b.vy, a.my, b.my, a.vy, b.vz, a.mz, b.mz, a.vz);
    lemma_cross_row(b.vz, a.vz, b.vw, a.mw, b.mw, a.vw, b.vx, a.mx, b.mx, a.vx);
    lemma_cross_row(b.vz, a.vz, b.vy, a.my, b.my, a.vy, b.vz, a.mz, b.mz, a.vz);
    let nb = b.norm();
    let na = a.norm();
    let ka = a.coupling();
    let kb = b.coupling();
    assert(nb * ka == nb * (a.vx * a.mx) + nb * (a.vy * a.my) + nb * (a.vz * a.mz) + nb * (a.vw * a.mw)) by (nonlinear_arith)
        requires
            ka == a.vx * a.mx + a.vy * a.my + a.vz * a.mz + a.vw * a.mw,
    ;
    assert(nb * (a.vx * a.mx) == (b.vx * b.vx) * (a.vx * a.mx) + (b.vy * b.vy) * (a.vx * a.mx) + (b.vz * b.vz) * (a.vx * a.mx) + (b.vw * b.vw) * (a.vx * a.mx)) by (nonlinear_arith)
        requires
            nb == b.vx * b.vx + b.vy * b.vy + b.vz * b.vz + b.vw * b.vw,
    ;
    assert(nb * (a.vy * a.my) == (b.vx * b.vx) * (a.vy * a.my) + (b.vy * b.vy) * (a.vy * a.my) + (b.vz * b.vz) * (a.vy * a.my) + (b.vw * b.vw) * (a.vy * a.my)) by (nonlinear_arith)
        requires
            nb == b.vx * b.vx + b.vy * b.vy + b.vz * b.vz + b.vw * b.vw,
    ;
    assert(nb * (a.vz * a.mz) == (b.vx * b.vx) * (a.vz * a.mz) + (b.vy * b.vy) * (a.vz * a.mz) + (b.vz * b.vz) * (a.vz * a.mz) + (b.vw * b.vw) * (a.vz * a.mz)) by (nonlinear_arith)
        requires
            nb == b.vx * b.vx + b.vy * b.vy + b.vz * b.vz + b.vw * b.vw,
    ;
    assert(nb * (a.vw * a.mw) == (b.vx * b.vx) * (a.vw * a.mw) + (b.vy * b.vy) * (a.vw * a.mw) + (b.vz * b.vz) * (a.vw * a.mw) + (b.vw * b.vw) * (a.vw * a.mw)) by (nonlinear_arith)
        requires
            nb == b.vx * b.vx + b.vy * b.vy + b.vz * b.vz + b.vw * b.vw,
    ;
    assert(na * kb == (b.vx * b.mx) * na + (b.vy * b.my) * na + (b.vz * b.mz) * na + (b.vw * b.mw) * na) by (nonlinear_arith)
        requires
            kb == b.vx * b.mx + b.vy * b.my + b.vz * b.mz + b.vw * b.mw,
    ;
    assert((b.vx * b.mx) * na == (b.vx * b.mx) * (a.vx * a.vx) + (b.vx * b.mx) * (a.vy * a.vy) + (b.vx * b.mx) * (a.vz * a.vz) + (b.vx * b.mx) * (a.vw * a.vw)) by (nonlinear_arith)
        requires
            na == a.vx * a.vx + a.vy * a.vy + a.vz * a.vz + a.vw * a.vw,
    ;
    assert((b.vy * b.my) * na == (b.vy * b.my) * (a.vx * a.vx) + (b.vy * b.my) * (a.vy * a.vy) + (b.vy * b.my) * (a.vz * a.vz) + (b.vy * b.my) * (a.vw * a.vw)) by (nonlinear_arith)
        requires
            na == a.vx * a.vx + a.vy * a.vy + a.vz * a.vz + a.vw * a.vw,
    ;
    assert((b.vz * b.mz) * na == (b.vz * b.mz) * (a.vx * a.vx) + (b.vz * b.mz) * (a.vy * a.vy) + (b.vz * b.mz) * (a.vz * a.vz) + (b.vz * b.mz) * (a.vw * a.vw)) by (nonlinear_arith)
        requires
            na == a.vx * a.vx + a.vy * a.vy + a.vz * a.vz + a.vw * a.vw,
    ;
    assert((b.vw * b.mw) * na == (b.vw * b.mw) * (a.vx * a.vx) + (b.vw * b.mw) * (a.vy * a.vy) + (b.vw * b.mw) * (a.vz * a.vz) + (b.vw * b.mw) * (a.vw * a.vw)) by (nonlinear_arith)
        requires
            na == a.vx * a.vx + a.vy * a.vy + a.vz * a.vz + a.vw * a.vw,
    ;
}


/// Four identities of one motor: its shift against its rotation part,
/// in terms of its coupling and its squared length.
pub proof fn lemma_shift_against_rotation(m: ExactMotor)
    ensures
        m.shift_x() * m.vw + m.shift_y() * m.vz - m.shift_z() * m.vy == m.norm() * m.mx - m.vx * m.coupling(),
        m.shift_y() * m.vw + m.shift_z() * m.vx - m.shift_x() * m.vz == m.norm() * m.my - m.vy * m.coupling(),
        m.shift_z() * m.vw + m.shift_x() * m.vy - m.shift_y() * m.vx == m.norm() * m.mz - m.vz * m.coupling(),
        m.shift_x() * m.vx + m.shift_y() * m.vy + m.shift_z() * m.vz == m.vw * m.coupling() - m.norm() * m.mw,
{
    let sx = m.shift_x();
    let sy = m.shift_y();
    let sz = m.shift_z();
    let n = m.norm();
    let k = m.coupling();
    assert(sx * m.vx == (m.vw * m.mx) * m.vx + (m.vy * m.mz) * m.vx - (m.vz * m.my) * m.vx - (m.mw * m.vx) * m.vx) by (nonlinear_arith)
        requires
            sx == m.vw * m.mx + m.vy * m.mz - m.vz * m.my - m.mw * m.vx,
    ;
    assert(sx * m.vy == (m.vw * m.mx) * m.vy + (m.vy * m.mz) * m.vy - (m.vz * m.my) * m.vy - (m.mw * m.vx) * m.vy) by (nonlinear_arith)
        requires
            sx == m.vw * m.mx + m.vy * m.mz - m.vz * m.my - m.mw * m.vx,
    ;
    assert(sx * m.vz == (m.vw * m.mx) * m.vz + (m.vy * m.mz) * m.vz - (m.vz * m.my) * m.vz - (m.mw * m.vx) * m.vz) by (nonlinear_arith)
        requires
            sx == m.vw * m.mx + m.vy * m.mz - m.vz * m.my - m.mw * m.vx,
    ;
    assert(sx * m.vw == (m.vw * m.mx) * m.vw + (m.vy * m.mz) * m.vw - (m.vz * m.my) * m.vw - (m.mw * m.vx) * m.vw) by (nonlinear_arith)
        requires
            sx == m.vw * m.mx + m.vy * m.mz - m.vz * m.my - m.mw * m.vx,
    ;
    assert(sy * m.vx == (m.vw * m.my) * m.vx + (m.vz * m.mx) * m.vx - (m.vx * m.mz) * m.vx - (m.mw * m.vy) * m.vx) by (nonlinear_arith)
        requires
            sy == m.vw * m.my + m.vz * m.mx - m.vx * m.mz - m.mw * m.vy,
    ;
    assert(sy * m.vy == (m.vw * m.my) * m.vy + (m.vz * m.mx) * m.vy - (m.vx * m.mz) * m.vy - (m.mw * m.vy) * m.vy) by (nonlinear_arith)
        requires
            sy == m.vw * m.my + m.vz * m.mx - m.vx * m.mz - m.mw * m.vy,
    ;
    assert(sy * m.vz == (m.vw * m.my) * m.vz + (m.vz * m.mx) * m.vz - (m.vx * m.mz) * m.vz - (m.mw * m.vy) * m.vz) by (nonlinear_arith)
        requires
            sy == m.vw * m.my + m.vz * m.mx - m.vx * m.mz - m.mw * m.vy,
    ;
    assert(sy * m.vw == (m.vw * m.my) * m.vw + (m.vz * m.mx) * m.vw - (m.vx * m.mz) * m.vw - (m.mw * m.vy) * m.vw) by (nonlinear_arith)
        requires
            sy == m.vw * m.my + m.vz * m.mx - m.vx * m.mz - m.mw * m.vy,
    ;
    assert(sz * m.vx == (m.vw * m.mz) * m.vx + (m.vx * m.my) * m.vx - (m.vy * m.mx) * m.vx - (m.mw * m.vz) * m.vx) by (nonlinear_arith)
        requires
            sz == m.vw * m.mz + m.vx * m.my - m.vy * m.mx - m.mw * m.vz,
    ;
    assert(sz * m.vy == (m.vw * m.mz) * m.vy + (m.vx * m.my) * m.vy - (m.vy * m.mx) * m.vy - (m.mw * m.vz) * m.vy) by (nonlinear_arith)
        requires
            sz == m.vw * m.mz + m.vx * m.my - m.vy * m.mx - m.mw * m.vz,
    ;
    assert(sz * m.vz == (m.vw * m.mz) * m.vz + (m.vx * m.my) * m.vz - (m.vy * m.mx) * m.vz - (m.mw * m.vz) * m.vz) by (nonlinear_arith)
        requires
            sz == m.vw * m.mz + m.vx * m.my - m.vy * m.mx - m.mw * m.vz,
    ;
    assert(sz * m.vw == (m.vw * m.mz) * m.vw + (m.vx * m.my) * m.vw - (m.vy * m.mx) * m.vw - (m.mw * m.vz) * m.vw) by (nonlinear_arith)
        requires
            sz == m.vw * m.mz + m.vx * m.my - m.vy * m.mx - m.mw * m.vz,
    ;
    assert(n * m.mx == (m.vx * m.vx) * m.mx + (m.vy * m.vy) * m.mx + (m.vz * m.vz) * m.mx + (m.vw * m.vw) * m.mx) by (nonlinear_arith)
        requires
            n == m.vx * m.vx + m.vy * m.vy + m.vz * m.vz + m.vw * m.vw,
    ;
    assert(n * m.my == (m.vx * m.vx) * m.my + (m.vy * m.vy) * m.my + (m.vz * m.vz) * m.my + (m.vw * m.vw) * m.my) by (nonlinear_arith)
        requires
            n == m.vx * m.vx + m.vy * m.vy + m.vz * m.vz + m.vw * m.vw,
    ;
    assert(n * m.mz == (m.vx * m.vx) * m.mz + (m.vy * m.vy) * m.mz + (m.vz * m.vz) * m.mz + (m.vw * m.vw) * m.mz) by (nonlinear_arith)
        requires
            n == m.vx * m.vx + m.vy * m.vy + m.vz * m.vz + m.vw * m.vw,
    ;
    assert(n * m.mw == (m.vx * m.vx) * m.mw + (m.vy * m.vy) * m.mw + (m.vz * m.vz) * m.mw + (m.vw * m.vw) * m.mw) by (nonlinear_arith)
        requires
            n == m.vx * m.vx + m.vy * m.vy + m.vz * m.vz + m.vw * m.vw,
    ;
    assert(m.vx * k == m.vx * (m.vx * m.mx) + m.vx * (m.vy * m.my) + m.vx * (m.vz * m.mz) + m.vx * (m.vw * m.mw)) by (nonlinear_arith)
        requires
            k == m.vx * m.mx + m.vy * m.my + m.vz * m.mz + m.vw * m.mw,
    ;
    assert(m.vy * k == m.vy * (m.vx * m.mx) + m.vy * (m.vy * m.my) + m.vy * (m.vz * m.mz) + m.vy * (m.vw * m.mw)) by (nonlinear_arith)
        requires
            k == m.vx * m.mx + m.vy * m.my + m.vz * m.mz + m.vw * m.mw,
    ;
    assert(m.vz * k == m.vz * (m.vx * m.mx) + m.vz * (m.vy * m.my) + m.vz * (m.vz * m.mz) + m.vz * (m.vw * m.mw)) by (nonlinear_arith)
        requires
            k == m.vx * m.mx + m.vy * m.my + m.vz * m.mz + m.vw * m.mw,
    ;
    assert(m.vw * k == m.vw * (m.vx * m.mx) + m.vw * (m.vy * m.my) + m.vw * (m.vz * m.mz) + m.vw * (m.vw * m.mw)) by (nonlinear_arith)
        requires
            k == m.vx * m.mx + m.vy * m.my + m.vz * m.mz + m.vw * m.mw,
    ;
    lemma_monomial(m.mw, m.vw, m.vw);
    lemma_monomial(m.mw, m.vw, m.vx);
    lemma_monomial(m.mw, m.vw, m.vy);
    lemma_monomial(m.mw, m.vw, m.vz);
    lemma_monomial(m.mw, m.vx, m.vx);
    lemma_monomial(m.mw, m.vx, m.vy);
    lemma_monomial(m.mw, m.vx, m.vz);
    lemma_monomial(m.mw, m.vy, m.vy);
    lemma_monomial(m.mw, m.vy, m.vz);
    lemma_monomial(m.mw, m.vz, m.vz);
    lemma_monomial(m.mx, m.vw, m.vw);
    lemma_monomial(m.mx, m.vw, m.vx);
    lemma_monomial(m.mx, m.vw, m.vy);
    lemma_monomial(m.mx, m.vw, m.vz);
    lemma_monomial(m.mx, m.vx, m.vx);
    lemma_monomial(m.mx, m.vx, m.vy);
    lemma_monomial(m.mx, m.vx, m.vz);
    lemma_monomial(m.mx, m.vy, m.vy);
    lemma_monomial(m.mx, m.vy, m.vz);
    lemma_monomial(m.mx, m.vz, m.vz);
    lemma_monomial(m.my, m.vw, m.vw);
    lemma_monomial(m.my, m.vw, m.vx);
    lemma_monomial(m.my, m.vw, m.vy);
    lemma_monomial(m.my, m.vw, m.vz);
    lemma_monomial(m.my, m.vx, m.vx);
    lemma_monomial(m.my, m.vx, m.vy);
    lemma_monomial(m.my, m.vx, m.vz);
    lemma_monomial(m.my, m.vy, m.vy);
    lemma_monomial(m.my, m.vy, m.vz);
    lemma_monomial(m.my, m.vz, m.vz);
    lemma_monomial(m.mz, m.vw, m.vw);
    lemma_monomial(m.mz, m.vw, m.vx);
    lemma_monomial(m.mz, m.vw, m.vy);
    lemma_monomial(m.mz, m.vw, m.vz);
    lemma_monomial(m.mz, m.vx, m.vx);
    lemma_monomial(m.mz, m.vx, m.vy);
    lemma_monomial(m.mz, m.vx, m.vz);
    lemma_monomial(m.mz, m.vy, m.vy);
    lemma_monomial(m.mz, m.vy, m.vz);
    lemma_monomial(m.mz, m.vz, m.vz);
}

} // verus!
