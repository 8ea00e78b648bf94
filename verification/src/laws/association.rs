//! The motor product does not depend on the grouping.

use crate::exact::ExactMotor;
use crate::laws::affine::lemma_monomial;
use vstd::prelude::*;

verus! {

/// The rotation part of a product of three motors does not depend on
/// which two are multiplied first.
proof fn lemma_rotation_parts_associate(a: ExactMotor, b: ExactMotor, c: ExactMotor)
    ensures
        a.combine(b).combine(c).vx == a.combine(b.combine(c)).vx,
        a.combine(b).combine(c).vy == a.combine(b.combine(c)).vy,
        a.combine(b).combine(c).vz == a.combine(b.combine(c)).vz,
        a.combine(b).combine(c).vw == a.combine(b.combine(c)).vw,
{
    let ab = a.combine(b);
    let bc = b.combine(c);
    let ab_vx = ab.vx;
    let ab_vy = ab.vy;
    let ab_vz = ab.vz;
    let ab_vw = ab.vw;
    let bc_vx = bc.vx;
    let bc_vy = bc.vy;
    let bc_vz = bc.vz;
    let bc_vw = bc.vw;
    assert(c.vx * ab_vw == c.vx * (b.vw * a.vw) - c.vx * (b.vx * a.vx) - c.vx * (b.vy * a.vy) - c.vx * (b.vz * a.vz)) by (nonlinear_arith)
        requires
            ab_vw == b.vw * a.vw - b.vx * a.vx - b.vy * a.vy - b.vz * a.vz,
    ;
    assert(bc_vx * a.vw == (c.vx * b.vw) * a.vw + (c.vw * b.vx) * a.vw + (c.vy * b.vz) * a.vw - (c.vz * b.vy) * a.vw) by (nonlinear_arith)
        requires
            bc_vx == c.vx * b.vw + c.vw * b.vx + c.vy * b.vz - c.vz * b.vy,
    ;
    assert(c.vw * ab_vx == c.vw * (b.vx * a.vw) + c.vw * (b.vw * a.vx) + c.vw * (b.vy * a.vz) - c.vw * (b.vz * a.vy)) by (nonlinear_arith)
        requires
            ab_vx == b.vx * a.vw + b.vw * a.vx + b.vy * a.vz - b.vz * a.vy,
    ;
    assert(bc_vw * a.vx == (c.vw * b.vw) * a.vx - (c.vx * b.vx) * a.vx - (c.vy * b.vy) * a.vx - (c.vz * b.vz) * a.vx) by (nonlinear_arith)
        requires
            bc_vw == c.vw * b.vw - c.vx * b.vx - c.vy * b.vy - c.vz * b.vz,
    ;
    assert(c.vy * ab_vz == c.vy * (b.vz * a.vw) + c.vy * (b.vw * a.vz) + c.vy * (b.vx * a.vy) - c.vy * (b.vy * a.vx)) by (nonlinear_arith)
        requires
            ab_vz == b.vz * a.vw + b.vw * a.vz + b.vx * a.vy - b.vy * a.vx,
    ;
    assert(bc_vy * a.vz == (c.vy * b.vw) * a.vz + (c.vw * b.vy) * a.vz + (c.vz * b.vx) * a.vz - (c.vx * b.vz) * a.vz) by (nonlinear_arith)
        requires
            bc_vy == c.vy * b.vw + c.vw * b.vy + c.vz * b.vx - c.vx * b.vz,
    ;
    assert(c.vz * ab_vy == c.vz * (b.vy * a.vw) + c.vz * (b.vw * a.vy) + c.vz * (b.vz * a.vx) - c.vz * (b.vx * a.vz)) by (nonlinear_arith)
        requires
            ab_vy == b.vy * a.vw + b.vw * a.vy + b.vz * a.vx - b.vx * a.vz,
    ;
    assert(bc_vz * a.vy == (c.vz * b.vw) * a.vy + (c.vw * b.vz) * a.vy + (c.vx * b.vy) * a.vy - (c.vy * b.vx) * a.vy) by (nonlinear_arith)
        requires
            bc_vz == c.vz * b.vw + c.vw * b.vz + c.vx * b.vy - c.vy * b.vx,
    ;
    assert(c.vy * ab_vw == c.vy * (b.vw * a.vw) - c.vy * (b.vx * a.vx) - c.vy * (b.vy * a.vy) - c.vy * (b.vz * a.vz)) by (nonlinear_arith)
        requires
            ab_vw == b.vw * a.vw - b.vx * a.vx - b.vy * a.vy - b.vz * a.vz,
    ;
    assert(bc_vy * a.vw == (c.vy * b.vw) * a.vw + (c.vw * b.vy) * a.vw + (c.vz * b.vx) * a.vw - (c.vx * b.vz) * a.vw) by (nonlinear_arith)
        requires
            bc_vy == c.vy * b.vw + c.vw * b.vy + c.vz * b.vx - c.vx * b.vz,
    ;
    assert(c.vw * ab_vy == c.vw * (b.vy * a.vw) + c.vw * (b.vw * a.vy) + c.vw * (b.vz * a.vx) - c.vw * (b.vx * a.vz)) by (nonlinear_arith)
        requires
            ab_vy == b.vy * a.vw + b.vw * a.vy + b.vz * a.vx - b.vx * a.vz,
    ;
    assert(bc_vw * a.vy == (c.vw * b.vw) * a.vy - (c.vx * b.vx) * a.vy - (c.vy * b.vy) * a.vy - (c.vz * b.vz) * a.vy) by (nonlinear_arith)
        requires
            bc_vw == c.vw * b.vw - c.vx * b.vx - c.vy * b.vy - c.vz * b.vz,
    ;
    assert(c.vz * ab_vx == c.vz * (b.vx * a.vw) + c.vz * (b.vw * a.vx) + c.vz * (b.vy * a.vz) - c.vz * (b.vz * a.vy)) by (nonlinear_arith)
        requires
            ab_vx == b.vx * a.vw + b.vw * a.vx + b.vy * a.vz - b.vz * a.vy,
    ;
    assert(bc_vz * a.vx == (c.vz * b.vw) * a.vx + (c.vw * b.vz) * a.vx + (c.vx * b.vy) * a.vx - (c.vy * b.vx) * a.vx) by (nonlinear_arith)
        requires
            bc_vz == c.vz * b.vw + c.vw * b.vz + c.vx * b.vy - c.vy * b.vx,
    ;
    assert(c.vx * ab_vz == c.vx * (b.vz * a.vw) + c.vx * (b.vw * a.vz) + c.vx * (b.vx * a.vy) - c.vx * (b.vy * a.vx)) by (nonlinear_arith)
        requires
            ab_vz == b.vz * a.vw + b.vw * a.vz + b.vx * a.vy - b.vy * a.vx,
    ;
    assert(bc_vx * a.vz == (c.vx * b.vw) * a.vz + (c.vw * b.vx) * a.vz + (c.vy * b.vz) * a.vz - (c.vz * b.vy) * a.vz) by (nonlinear_arith)
        requires
            bc_vx == c.vx * b.vw + c.vw * b.vx + c.vy * b.vz - c.vz * b.vy,
    ;
    assert(c.vz * ab_vw == c.vz * (b.vw * a.vw) - c.vz * (b.vx * a.vx) - c.vz * (b.vy * a.vy) - c.vz * (b.vz * a.vz)) by (nonlinear_arith)
        requires
            ab_vw == b.vw * a.vw - b.vx * a.vx - b.vy * a.vy - b.vz * a.vz,
    ;
    assert(bc_vz * a.vw == (c.vz * b.vw) * a.vw + (c.vw * b.vz) * a.vw + (c.vx * b.vy) * a.vw - (c.vy * b.vx) * a.vw) by (nonlinear_arith)
        requires
            bc_vz == c.vz * b.vw + c.vw * b.vz + c.vx * b.vy - c.vy * b.vx,
    ;
    assert(c.vw * ab_vz == c.vw * (b.vz * a.vw) + c.vw * (b.vw * a.vz) + c.vw * (b.vx * a.vy) - c.vw * (b.vy * a.vx)) by (nonlinear_arith)
        requires
            ab_vz == b.vz * a.vw + b.vw * a.vz + b.vx * a.vy - b.vy * a.vx,
    ;
    assert(bc_vw * a.vz == (c.vw * b.vw) * a.vz - (c.vx * b.vx) * a.vz - (c.vy * b.vy) * a.vz - (c.vz * b.vz) * a.vz) by (nonlinear_arith)
        requires
            bc_vw == c.vw * b.vw - c.vx * b.vx - c.vy * b.vy - c.vz * b.vz,
    ;
    assert(c.vx * ab_vy == c.vx * (b.vy * a.vw) + c.vx * (b.vw * a.vy) + c.vx * (b.vz * a.vx) - c.vx * (b.vx * a.vz)) by (nonlinear_arith)
        requires
            ab_vy == b.vy * a.vw + b.vw * a.vy + b.vz * a.vx - b.vx * a.vz,
    ;
    assert(bc_vx * a.vy == (c.vx * b.vw) * a.vy + (c.vw * b.vx) * a.vy + (c.vy * b.vz) * a.vy - (c.vz * b.vy) * a.vy) by (nonlinear_arith)
        requires
            bc_vx == c.vx * b.vw + c.vw * b.vx + c.vy * b.vz - c.vz * b.vy,
    ;
    assert(c.vy * ab_vx == c.vy * (b.vx * a.vw) + c.vy * (b.vw * a.vx) + c.vy * (b.vy * a.vz) - c.vy * (b.vz * a.vy)) by (nonlinear_arith)
        requires
            ab_vx == b.vx * a.vw + b.vw * a.vx + b.vy * a.vz - b.vz * a.vy,
    ;
    assert(bc_vy * a.vx == (c.vy * b.vw) * a.vx + (c.vw * b.vy) * a.vx + (c.vz * b.vx) * a.vx - (c.vx * b.vz) * a.vx) by (nonlinear_arith)
        requires
            bc_vy == c.vy * b.vw + c.vw * b.vy + c.vz * b.vx - c.vx * b.vz,
    ;
    assert(c.vw * ab_vw == c.vw * (b.vw * a.vw) - c.vw * (b.vx * a.vx) - c.vw * (b.vy * a.vy) - c.vw * (b.vz * a.vz)) by (nonlinear_arith)
        requires
            ab_vw == b.vw * a.vw - b.vx * a.vx - b.vy * a.vy - b.vz * a.vz,
    ;
    assert(bc_vw * a.vw == (c.vw * b.vw) * a.vw - (c.vx * b.vx) * a.vw - (c.vy * b.vy) * a.vw - (c.vz * b.vz) * a.vw) by (nonlinear_arith)
        requires
            bc_vw == c.vw * b.vw - c.vx * b.vx - c.vy * b.vy - c.vz * b.vz,
    ;
    assert(c.vx * ab_vx == c.vx * (b.vx * a.vw) + c.vx * (b.vw * a.vx) + c.vx * (b.vy * a.vz) - c.vx * (b.vz * a.vy)) by (nonlinear_arith)
        requires
            ab_vx == b.vx * a.vw + b.vw * a.vx + b.vy * a.vz - b.vz * a.vy,
    ;
    assert(bc_vx * a.vx == (c.vx * b.vw) * a.vx + (c.vw * b.vx) * a.vx + (c.vy * b.vz) * a.vx - (c.vz * b.vy) * a.vx) by (nonlinear_arith)
        requires
            bc_vx == c.vx * b.vw + c.vw * b.vx + c.vy * b.vz - c.vz * b.vy,
    ;
    assert(c.vy * ab_vy == c.vy * (b.vy * a.vw) + c.vy * (b.vw * a.vy) + c.vy * (b.vz * a.vx) - c.vy * (b.vx * a.vz)) by (nonlinear_arith)
        requires
            ab_vy == b.vy * a.vw + b.vw * a.vy + b.vz * a.vx - b.vx * a.vz,
    ;
    assert(bc_vy * a.vy == (c.vy * b.vw) * a.vy + (c.vw * b.vy) * a.vy + (c.vz * b.vx) * a.vy - (c.vx * b.vz) * a.vy) by (nonlinear_arith)
        requires
            bc_vy == c.vy * b.vw + c.vw * b.vy + c.vz * b.vx - c.vx * b.vz,
    ;
    assert(c.vz * ab_vz == c.vz * (b.vz * a.vw) + c.vz * (b.vw * a.vz) + c.vz * (b.vx * a.vy) - c.vz * (b.vy * a.vx)) by (nonlinear_arith)
        requires
            ab_vz == b.vz * a.vw + b.vw * a.vz + b.vx * a.vy - b.vy * a.vx,
    ;
    assert(bc_vz * a.vz == (c.vz * b.vw) * a.vz + (c.vw * b.vz) * a.vz + (c.vx * b.vy) * a.vz - (c.vy * b.vx) * a.vz) by (nonlinear_arith)
        requires
            bc_vz == c.vz * b.vw + c.vw * b.vz + c.vx * b.vy - c.vy * b.vx,
    ;
    lemma_monomial(c.vw, b.vw, a.vw);
    lemma_monomial(c.vw, b.vw, a.vx);
    lemma_monomial(c.vw, b.vw, a.vy);
    lemma_monomial(c.vw, b.vw, a.vz);
    lemma_monomial(c.vw, b.vx, a.vw);
    lemma_monomial(c.vw, b.vx, a.vx);
    lemma_monomial(c.vw, b.vx, a.vy);
    lemma_monomial(c.vw, b.vx, a.vz);
    lemma_monomial(c.vw, b.vy, a.vw);
    lemma_monomial(c.vw, b.vy, a.vx);
    lemma_monomial(c.vw, b.vy, a.vy);
    lemma_monomial(c.vw, b.vy, a.vz);
    lemma_monomial(c.vw, b.vz, a.vw);
    lemma_monomial(c.vw, b.vz, a.vx);
    lemma_monomial(c.vw, b.vz, a.vy);
    lemma_monomial(c.vw, b.vz, a.vz);
    lemma_monomial(c.vx, b.vw, a.vw);
    lemma_monomial(c.vx, b.vw, a.vx);
    lemma_monomial(c.vx, b.vw, a.vy);
    lemma_monomial(c.vx, b.vw, a.vz);
    lemma_monomial(c.vx, b.vx, a.vw);
    lemma_monomial(c.vx, b.vx, a.vx);
    lemma_monomial(c.vx, b.vx, a.vy);
    lemma_monomial(c.vx, b.vx, a.vz);
    lemma_monomial(c.vx, b.vy, a.vw);
    lemma_monomial(c.vx, b.vy, a.vx);
    lemma_monomial(c.vx, b.vy, a.vy);
    lemma_monomial(c.vx, b.vy, a.vz);
    lemma_monomial(c.vx, b.vz, a.vw);
    lemma_monomial(c.vx, b.vz, a.vx);
    lemma_monomial(c.vx, b.vz, a.vy);
    lemma_monomial(c.vx, b.vz, a.vz);
    lemma_monomial(c.vy, b.vw, a.vw);
    lemma_monomial(c.vy, b.vw, a.vx);
    lemma_monomial(c.vy, b.vw, a.vy);
    lemma_monomial(c.vy, b.vw, a.vz);
    lemma_monomial(c.vy, b.vx, a.vw);
    lemma_monomial(c.vy, b.vx, a.vx);
    lemma_monomial(c.vy, b.vx, a.vy);
    lemma_monomial(c.vy, b.vx, a.vz);
    lemma_monomial(c.vy, b.vy, a.vw);
    lemma_monomial(c.vy, b.vy, a.vx);
    lemma_monomial(c.vy, b.vy, a.vy);
    lemma_monomial(c.vy, b.vy, a.vz);
    lemma_monomial(c.vy, b.vz, a.vw);
    lemma_monomial(c.vy, b.vz, a.vx);
    lemma_monomial(c.vy, b.vz, a.vy);
    lemma_monomial(c.vy, b.vz, a.vz);
    lemma_monomial(c.vz, b.vw, a.vw);
    lemma_monomial(c.vz, b.vw, a.vx);
    lemma_monomial(c.vz, b.vw, a.vy);
    lemma_monomial(c.vz, b.vw, a.vz);
    lemma_monomial(c.vz, b.vx, a.vw);
    lemma_monomial(c.vz, b.vx, a.vx);
    lemma_monomial(c.vz, b.vx, a.vy);
    lemma_monomial(c.vz, b.vx, a.vz);
    lemma_monomial(c.vz, b.vy, a.vw);
    lemma_monomial(c.vz, b.vy, a.vx);
    lemma_monomial(c.vz, b.vy, a.vy);
    lemma_monomial(c.vz, b.vy, a.vz);
    lemma_monomial(c.vz, b.vz, a.vw);
    lemma_monomial(c.vz, b.vz, a.vx);
    lemma_monomial(c.vz, b.vz, a.vy);
    lemma_monomial(c.vz, b.vz, a.vz);
}

/// The `mx` of a product of three motors does not depend on which two
/// are multiplied first.
proof fn lemma_mx_associates(a: ExactMotor, b: ExactMotor, c: ExactMotor)
    ensures
        a.combine(b).combine(c).mx == a.combine(b.combine(c)).mx,
{
    let ab = a.combine(b);
    let bc = b.combine(c);
    let ab_vx = ab.vx;
    let ab_vy = ab.vy;
    let ab_vz = ab.vz;
    let ab_vw = ab.vw;
    let ab_mx = ab.mx;
    let ab_my = ab.my;
    let ab_mz = ab.mz;
    let ab_mw = ab.mw;
    let bc_vx = bc.vx;
    let bc_vy = bc.vy;
    let bc_vz = bc.vz;
    let bc_vw = bc.vw;
    let bc_mx = bc.mx;
    let bc_my = bc.my;
    let bc_mz = bc.mz;
    let bc_mw = bc.mw;
    assert(c.mx * ab_vw == c.mx * (b.vw * a.vw) - c.mx * (b.vx * a.vx) - c.mx * (b.vy * a.vy) - c.mx * (b.vz * a.vz)) by (nonlinear_arith)
        requires
            ab_vw == b.vw * a.vw - b.vx * a.vx - b.vy * a.vy - b.vz * a.vz,
    ;
    assert(bc_mx * a.vw == (c.mx * b.vw) * a.vw + (c.vw * b.mx) * a.vw + (c.vy * b.mz) * a.vw - (c.mz * b.vy) * a.vw + (c.my * b.vz) * a.vw - (c.vz * b.my) * a.vw + (c.mw * b.vx) * a.vw + (c.vx * b.mw) * a.vw) by (nonlinear_arith)
        requires
            bc_mx == c.mx * b.vw + c.vw * b.mx + c.vy * b.mz - c.mz * b.vy + c.my * b.vz - c.vz * b.my + c.mw * b.vx + c.vx * b.mw,
    ;
    assert(c.vw * ab_mx == c.vw * (b.mx * a.vw) + c.vw * (b.vw * a.mx) + c.vw * (b.vy * a.mz) - c.vw * (b.mz * a.vy) + c.vw * (b.my * a.vz) - c.vw * (b.vz * a.my) + c.vw * (b.mw * a.vx) + c.vw * (b.vx * a.mw)) by (nonlinear_arith)
        requires
            ab_mx == b.mx * a.vw + b.vw * a.mx + b.vy * a.mz - b.mz * a.vy + b.my * a.vz - b.vz * a.my + b.mw * a.vx + b.vx * a.mw,
    ;
    assert(bc_vw * a.mx == (c.vw * b.vw) * a.mx - (c.vx * b.vx) * a.mx - (c.vy * b.vy) * a.mx - (c.vz * b.vz) * a.mx) by (nonlinear_arith)
        requires
            bc_vw == c.vw * b.vw - c.vx * b.vx - c.vy * b.vy - c.vz * b.vz,
    ;
    assert(c.vy * ab_mz == c.vy * (b.mz * a.vw) + c.vy * (b.vw * a.mz) + c.vy * (b.vx * a.my) - c.vy * (b.my * a.vx) + c.vy * (b.mx * a.vy) - c.vy * (b.vy * a.mx) + c.vy * (b.mw * a.vz) + c.vy * (b.vz * a.mw)) by (nonlinear_arith)
        requires
            ab_mz == b.mz * a.vw + b.vw * a.mz + b.vx * a.my - b.my * a.vx + b.mx * a.vy - b.vy * a.mx + b.mw * a.vz + b.vz * a.mw,
    ;
    assert(bc_vy * a.mz == (c.vy * b.vw) * a.mz + (c.vw * b.vy) * a.mz + (c.vz * b.vx) * a.mz - (c.vx * b.vz) * a.mz) by (nonlinear_arith)
        requires
            bc_vy == c.vy * b.vw + c.vw * b.vy + c.vz * b.vx - c.vx * b.vz,
    ;
    assert(c.mz * ab_vy == c.mz * (b.vy * a.vw) + c.mz * (b.vw * a.vy) + c.mz * (b.vz * a.vx) - c.mz * (b.vx * a.vz)) by (nonlinear_arith)
        requires
            ab_vy == b.vy * a.vw + b.vw * a.vy + b.vz * a.vx - b.vx * a.vz,
    ;
    assert(bc_mz * a.vy == (c.mz * b.vw) * a.vy + (c.vw * b.mz) * a.vy + (c.vx * b.my) * a.vy - (c.my * b.vx) * a.vy + (c.mx * b.vy) * a.vy - (c.vy * b.mx) * a.vy + (c.mw * b.vz) * a.vy + (c.vz * b.mw) * a.vy) by (nonlinear_arith)
        requires
            bc_mz == c.mz * b.vw + c.vw * b.mz + c.vx * b.my - c.my * b.vx + c.mx * b.vy - c.vy * b.mx + c.mw * b.vz + c.vz * b.mw,
    ;
    assert(c.my * ab_vz == c.my * (b.vz * a.vw) + c.my * (b.vw * a.vz) + c.my * (b.vx * a.vy) - c.my * (b.vy * a.vx)) by (nonlinear_arith)
        requires
            ab_vz == b.vz * a.vw + b.vw * a.vz + b.vx * a.vy - b.vy * a.vx,
    ;
    assert(bc_my * a.vz == (c.my * b.vw) * a.vz + (c.vw * b.my) * a.vz + (c.vz * b.mx) * a.vz - (c.mx * b.vz) * a.vz + (c.mz * b.vx) * a.vz - (c.vx * b.mz) * a.vz + (c.mw * b.vy) * a.vz + (c.vy * b.mw) * a.vz) by (nonlinear_arith)
        requires
            bc_my == c.my * b.vw + c.vw * b.my + c.vz * b.mx - c.mx * b.vz + c.mz * b.vx - c.vx * b.mz + c.mw * b.vy + c.vy * b.mw,
    ;
    assert(c.vz * ab_my == c.vz * (b.my * a.vw) + c.vz * (b.vw * a.my) + c.vz * (b.vz * a.mx) - c.vz * (b.mx * a.vz) + c.vz * (b.mz * a.vx) - c.vz * (b.vx * a.mz) + c.vz * (b.mw * a.vy) + c.vz * (b.vy * a.mw)) by (nonlinear_arith)
        requires
            ab_my == b.my * a.vw + b.vw * a.my + b.vz * a.mx - b.mx * a.vz + b.mz * a.vx - b.vx * a.mz + b.mw * a.vy + b.vy * a.mw,
    ;
    assert(bc_vz * a.my == (c.vz * b.vw) * a.my + (c.vw * b.vz) * a.my + (c.vx * b.vy) * a.my - (c.vy * b.vx) * a.my) by (nonlinear_arith)
        requires
            bc_vz == c.vz * b.vw + c.vw * b.vz + c.vx * b.vy - c.vy * b.vx,
    ;
    assert(c.mw * ab_vx == c.mw * (b.vx * a.vw) + c.mw * (b.vw * a.vx) + c.mw * (b.vy * a.vz) - c.mw * (b.vz * a.vy)) by (nonlinear_arith)
        requires
            ab_vx == b.vx * a.vw + b.vw * a.vx + b.vy * a.vz - b.vz * a.vy,
    ;
    assert(bc_mw * a.vx == (c.vw * b.mw) * a.vx + (c.mw * b.vw) * a.vx - (c.vx * b.mx) * a.vx - (c.mx * b.vx) * a.vx - (c.vy * b.my) * a.vx - (c.my * b.vy) * a.vx - (c.vz * b.mz) * a.vx - (c.mz * b.vz) * a.vx) by (nonlinear_arith)
        requires
            bc_mw == c.vw * b.mw + c.mw * b.vw - c.vx * b.mx - c.mx * b.vx - c.vy * b.my - c.my * b.vy - c.vz * b.mz - c.mz * b.vz,
    ;
    assert(c.vx * ab_mw == c.vx * (b.vw * a.mw) + c.vx * (b.mw * a.vw) - c.vx * (b.vx * a.mx) - c.vx * (b.mx * a.vx) - c.vx * (b.vy * a.my) - c.vx * (b.my * a.vy) - c.vx * (b.vz * a.mz) - c.vx * (b.mz * a.vz)) by (nonlinear_arith)
        requires
            ab_mw == b.vw * a.mw + b.mw * a.vw - b.vx * a.mx - b.mx * a.vx - b.vy * a.my - b.my * a.vy - b.vz * a.mz - b.mz * a.vz,
    ;
    assert(bc_vx * a.mw == (c.vx * b.vw) * a.mw + (c.vw * b.vx) * a.mw + (c.vy * b.vz) * a.mw - (c.vz * b.vy) * a.mw) by (nonlinear_arith)
        requires
            bc_vx == c.vx * b.vw + c.vw * b.vx + c.vy * b.vz - c.vz * b.vy,
    ;
    lemma_monomial(c.mw, b.vw, a.vx);
    lemma_monomial(c.mw, b.vx, a.vw);
    lemma_monomial(c.mw, b.vy, a.vz);
    lemma_monomial(c.mw, b.vz, a.vy);
    lemma_monomial(c.mx, b.vw, a.vw);
    lemma_monomial(c.mx, b.vx, a.vx);
    lemma_monomial(c.mx, b.vy, a.vy);
    lemma_monomial(c.mx, b.vz, a.vz);
    lemma_monomial(c.my, b.vw, a.vz);
    lemma_monomial(c.my, b.vx, a.vy);
    lemma_monomial(c.my, b.vy, a.vx);
    lemma_monomial(c.my, b.vz, a.vw);
    lemma_monomial(c.mz, b.vw, a.vy);
    lemma_monomial(c.mz, b.vx, a.vz);
    lemma_monomial(c.mz, b.vy, a.vw);
    lemma_monomial(c.mz, b.vz, a.vx);
    lemma_monomial(c.vw, b.mw, a.vx);
    lemma_monomial(c.vw, b.mx, a.vw);
    lemma_monomial(c.vw, b.my, a.vz);
    lemma_monomial(c.vw, b.mz, a.vy);
    lemma_monomial(c.vw, b.vw, a.mx);
    lemma_monomial(c.vw, b.vx, a.mw);
    lemma_monomial(c.vw, b.vy, a.mz);
    lemma_monomial(c.vw, b.vz, a.my);
    lemma_monomial(c.vx, b.mw, a.vw);
    lemma_monomial(c.vx, b.mx, a.vx);
    lemma_monomial(c.vx, b.my, a.vy);
    lemma_monomial(c.vx, b.mz, a.vz);
    lemma_monomial(c.vx, b.vw, a.mw);
    lemma_monomial(c.vx, b.vx, a.mx);
    lemma_monomial(c.vx, b.vy, a.my);
    lemma_monomial(c.vx, b.vz, a.mz);
    lemma_monomial(c.vy, b.mw, a.vz);
    lemma_monomial(c.vy, b.mx, a.vy);
    lemma_monomial(c.vy, b.my, a.vx);
    lemma_monomial(c.vy, b.mz, a.vw);
    lemma_monomial(c.vy, b.vw, a.mz);
    lemma_monomial(c.vy, b.vx, a.my);
    lemma_monomial(c.vy, b.vy, a.mx);
    lemma_monomial(c.vy, b.vz, a.mw);
    lemma_monomial(c.vz, b.mw, a.vy);
    lemma_monomial(c.vz, b.mx, a.vz);
    lemma_monomial(c.vz, b.my, a.vw);
    lemma_monomial(c.vz, b.mz, a.vx);
    lemma_monomial(c.vz, b.vw, a.my);
    lemma_monomial(c.vz, b.vx, a.mz);
    lemma_monomial(c.vz, b.vy, a.mw);
    lemma_monomial(c.vz, b.vz, a.mx);
}

/// The `my` of a product of three motors does not depend on which two
/// are multiplied first.
proof fn lemma_my_associates(a: ExactMotor, b: ExactMotor, c: ExactMotor)
    ensures
        a.combine(b).combine(c).my == a.combine(b.combine(c)).my,
{
    let ab = a.combine(b);
    let bc = b.combine(c);
    let ab_vx = ab.vx;
    let ab_vy = ab.vy;
    let ab_vz = ab.vz;
    let ab_vw = ab.vw;
    let ab_mx = ab.mx;
    let ab_my = ab.my;
    let ab_mz = ab.mz;
    let ab_mw = ab.mw;
    let bc_vx = bc.vx;
    let bc_vy = bc.vy;
    let bc_vz = bc.vz;
    let bc_vw = bc.vw;
    let bc_mx = bc.mx;
    let bc_my = bc.my;
    let bc_mz = bc.mz;
    let bc_mw = bc.mw;
    assert(c.my * ab_vw == c.my * (b.vw * a.vw) - c.my * (b.vx * a.vx) - c.my * (b.vy * a.vy) - c.my * (b.vz * a.vz)) by (nonlinear_arith)
        requires
            ab_vw == b.vw * a.vw - b.vx * a.vx - b.vy * a.vy - b.vz * a.vz,
    ;
    assert(bc_my * a.vw == (c.my * b.vw) * a.vw + (c.vw * b.my) * a.vw + (c.vz * b.mx) * a.vw - (c.mx * b.vz) * a.vw + (c.mz * b.vx) * a.vw - (c.vx * b.mz) * a.vw + (c.mw * b.vy) * a.vw + (c.vy * b.mw) * a.vw) by (nonlinear_arith)
        requires
            bc_my == c.my * b.vw + c.vw * b.my + c.vz * b.mx - c.mx * b.vz + c.mz * b.vx - c.vx * b.mz + c.mw * b.vy + c.vy * b.mw,
    ;
    assert(c.vw * ab_my == c.vw * (b.my * a.vw) + c.vw * (b.vw * a.my) + c.vw * (b.vz * a.mx) - c.vw * (b.mx * a.vz) + c.vw * (b.mz * a.vx) - c.vw * (b.vx * a.mz) + c.vw * (b.mw * a.vy) + c.vw * (b.vy * a.mw)) by (nonlinear_arith)
        requires
            ab_my == b.my * a.vw + b.vw * a.my + b.vz * a.mx - b.mx * a.vz + b.mz * a.vx - b.vx * a.mz + b.mw * a.vy + b.vy * a.mw,
    ;
    assert(bc_vw * a.my == (c.vw * b.vw) * a.my - (c.vx * b.vx) * a.my - (c.vy * b.vy) * a.my - (c.vz * b.vz) * a.my) by (nonlinear_arith)
        requires
            bc_vw == c.vw * b.vw - c.vx * b.vx - c.vy * b.vy - c.vz * b.vz,
    ;
    assert(c.vz * ab_mx == c.vz * (b.mx * a.vw) + c.vz * (b.vw * a.mx) + c.vz * (b.vy * a.mz) - c.vz * (b.mz * a.vy) + c.vz * (b.my * a.vz) - c.vz * (b.vz * a.my) + c.vz * (b.mw * a.vx) + c.vz * (b.vx * a.mw)) by (nonlinear_arith)
        requires
            ab_mx == b.mx * a.vw + b.vw * a.mx + b.vy * a.mz - b.mz * a.vy + b.my * a.vz - b.vz * a.my + b.mw * a.vx + b.vx * a.mw,
    ;
    assert(bc_vz * a.mx == (c.vz * b.vw) * a.mx + (c.vw * b.vz) * a.mx + (c.vx * b.vy) * a.mx - (c.vy * b.vx) * a.mx) by (nonlinear_arith)
        requires
            bc_vz == c.vz * b.vw + c.vw * b.vz + c.vx * b.vy - c.vy * b.vx,
    ;
    assert(c.mx * ab_vz == c.mx * (b.vz * a.vw) + c.mx * (b.vw * a.vz) + c.mx * (b.vx * a.vy) - c.mx * (b.vy * a.vx)) by (nonlinear_arith)
        requires
            ab_vz == b.vz * a.vw + b.vw * a.vz + b.vx * a.vy - b.vy * a.vx,
    ;
    assert(bc_mx * a.vz == (c.mx * b.vw) * a.vz + (c.vw * b.mx) * a.vz + (c.vy * b.mz) * a.vz - (c.mz * b.vy) * a.vz + (c.my * b.vz) * a.vz - (c.vz * b.my) * a.vz + (c.mw * b.vx) * a.vz + (c.vx * b.mw) * a.vz) by (nonlinear_arith)
        requires
            bc_mx == c.mx * b.vw + c.vw * b.mx + c.vy * b.mz - c.mz * b.vy + c.my * b.vz - c.vz * b.my + c.mw * b.vx + c.vx * b.mw,
    ;
    assert(c.mz * ab_vx == c.mz * (b.vx * a.vw) + c.mz * (b.vw * a.vx) + c.mz * (b.vy * a.vz) - c.mz * (b.vz * a.vy)) by (nonlinear_arith)
        requires
            ab_vx == b.vx * a.vw + b.vw * a.vx + b.vy * a.vz - b.vz * a.vy,
    ;
    assert(bc_mz * a.vx == (c.mz * b.vw) * a.vx + (c.vw * b.mz) * a.vx + (c.vx * b.my) * a.vx - (c.my * b.vx) * a.vx + (c.mx * b.vy) * a.vx - (c.vy * b.mx) * a.vx + (c.mw * b.vz) * a.vx + (c.vz * b.mw) * a.vx) by (nonlinear_arith)
        requires
            bc_mz == c.mz * b.vw + c.vw * b.mz + c.vx * b.my - c.my * b.vx + c.mx * b.vy - c.vy * b.mx + c.mw * b.vz + c.vz * b.mw,
    ;
    assert(c.vx * ab_mz == c.vx * (b.mz * a.vw) + c.vx * (b.vw * a.mz) + c.vx * (b.vx * a.my) - c.vx * (b.my * a.vx) + c.vx * (b.mx * a.vy) - c.vx * (b.vy * a.mx) + c.vx * (b.mw * a.vz) + c.vx * (b.vz * a.mw)) by (nonlinear_arith)
        requires
            ab_mz == b.mz * a.vw + b.vw * a.mz + b.vx * a.my - b.my * a.vx + b.mx * a.vy - b.vy * a.mx + b.mw * a.vz + b.vz * a.mw,
    ;
    assert(bc_vx * a.mz == (c.vx * b.vw) * a.mz + (c.vw * b.vx) * a.mz + (c.vy * b.vz) * a.mz - (c.vz * b.vy) * a.mz) by (nonlinear_arith)
        requires
            bc_vx == c.vx * b.vw + c.vw * b.vx + c.vy * b.vz - c.vz * b.vy,
    ;
    assert(c.mw * ab_vy == c.mw * (b.vy * a.vw) + c.mw * (b.vw * a.vy) + c.mw * (b.vz * a.vx) - c.mw * (b.vx * a.vz)) by (nonlinear_arith)
        requires
            ab_vy == b.vy * a.vw + b.vw * a.vy + b.vz * a.vx - b.vx * a.vz,
    ;
    assert(bc_mw * a.vy == (c.vw * b.mw) * a.vy + (c.mw * b.vw) * a.vy - (c.vx * b.mx) * a.vy - (c.mx * b.vx) * a.vy - (c.vy * b.my) * a.vy - (c.my * b.vy) * a.vy - (c.vz * b.mz) * a.vy - (c.mz * b.vz) * a.vy) by (nonlinear_arith)
        requires
            bc_mw == c.vw * b.mw + c.mw * b.vw - c.vx * b.mx - c.mx * b.vx - c.vy * b.my - c.my * b.vy - c.vz * b.mz - c.mz * b.vz,
    ;
    assert(c.vy * ab_mw == c.vy * (b.vw * a.mw) + c.vy * (b.mw * a.vw) - c.vy * (b.vx * a.mx) - c.vy * (b.mx * a.vx) - c.vy * (b.vy * a.my) - c.vy * (b.my * a.vy) - c.vy * (b.vz * a.mz) - c.vy * (b.mz * a.vz)) by (nonlinear_arith)
        requires
            ab_mw == b.vw * a.mw + b.mw * a.vw - b.vx * a.mx - b.mx * a.vx - b.vy * a.my - b.my * a.vy - b.vz * a.mz - b.mz * a.vz,
    ;
    assert(bc_vy * a.mw == (c.vy * b.vw) * a.mw + (c.vw * b.vy) * a.mw + (c.vz * b.vx) * a.mw - (c.vx * b.vz) * a.mw) by (nonlinear_arith)
        requires
            bc_vy == c.vy * b.vw + c.vw * b.vy + c.vz * b.vx - c.vx * b.vz,
    ;
    lemma_monomial(c.mw, b.vw, a.vy);
    lemma_monomial(c.mw, b.vx, a.vz);
    lemma_monomial(c.mw, b.vy, a.vw);
    lemma_monomial(c.mw, b.vz, a.vx);
    lemma_monomial(c.mx, b.vw, a.vz);
    lemma_monomial(c.mx, b.vx, a.vy);
    lemma_monomial(c.mx, b.vy, a.vx);
    lemma_monomial(c.mx, b.vz, a.vw);
    lemma_monomial(c.my, b.vw, a.vw);
    lemma_monomial(c.my, b.vx, a.vx);
    lemma_monomial(c.my, b.vy, a.vy);
    lemma_monomial(c.my, b.vz, a.vz);
    lemma_monomial(c.mz, b.vw, a.vx);
    lemma_monomial(c.mz, b.vx, a.vw);
    lemma_monomial(c.mz, b.vy, a.vz);
    lemma_monomial(c.mz, b.vz, a.vy);
    lemma_monomial(c.vw, b.mw, a.vy);
    lemma_monomial(c.vw, b.mx, a.vz);
    lemma_monomial(c.vw, b.my, a.vw);
    lemma_monomial(c.vw, b.mz, a.vx);
    lemma_monomial(c.vw, b.vw, a.my);
    lemma_monomial(c.vw, b.vx, a.mz);
    lemma_monomial(c.vw, b.vy, a.mw);
    lemma_monomial(c.vw, b.vz, a.mx);
    lemma_monomial(c.vx, b.mw, a.vz);
    lemma_monomial(c.vx, b.mx, a.vy);
    lemma_monomial(c.vx, b.my, a.vx);
    lemma_monomial(c.vx, b.mz, a.vw);
    lemma_monomial(c.vx, b.vw, a.mz);
    lemma_monomial(c.vx, b.vx, a.my);
    lemma_monomial(c.vx, b.vy, a.mx);
    lemma_monomial(c.vx, b.vz, a.mw);
    lemma_monomial(c.vy, b.mw, a.vw);
    lemma_monomial(c.vy, b.mx, a.vx);
    lemma_monomial(c.vy, b.my, a.vy);
    lemma_monomial(c.vy, b.mz, a.vz);
    lemma_monomial(c.vy, b.vw, a.mw);
    lemma_monomial(c.vy, b.vx, a.mx);
    lemma_monomial(c.vy, b.vy, a.my);
    lemma_monomial(c.vy, b.vz, a.mz);
    lemma_monomial(c.vz, b.mw, a.vx);
    lemma_monomial(c.vz, b.mx, a.vw);
    lemma_monomial(c.vz, b.my, a.vz);
    lemma_monomial(c.vz, b.mz, a.vy);
    lemma_monomial(c.vz, b.vw, a.mx);
    lemma_monomial(c.vz, b.vx, a.mw);
    lemma_monomial(c.vz, b.vy, a.mz);
    lemma_monomial(c.vz, b.vz, a.my);
}

/// The `mz` of a product of three motors does not depend on which two
/// are multiplied first.
proof fn lemma_mz_associates(a: ExactMotor, b: ExactMotor, c: ExactMotor)
    ensures
        a.combine(b).combine(c).mz == a.combine(b.combine(c)).mz,
{
    let ab = a.combine(b);
    let bc = b.combine(c);
    let ab_vx = ab.vx;
    let ab_vy = ab.vy;
    let ab_vz = ab.vz;
    let ab_vw = ab.vw;
    let ab_mx = ab.mx;
    let ab_my = ab.my;
    let ab_mz = ab.mz;
    let ab_mw = ab.mw;
    let bc_vx = bc.vx;
    let bc_vy = bc.vy;
    let bc_vz = bc.vz;
    let bc_vw = bc.vw;
    let bc_mx = bc.mx;
    let bc_my = bc.my;
    let bc_mz = bc.mz;
    let bc_mw = bc.mw;
    assert(c.mz * ab_vw == c.mz * (b.vw * a.vw) - c.mz * (b.vx * a.vx) - c.mz * (b.vy * a.vy) - c.mz * (b.vz * a.vz)) by (nonlinear_arith)
        requires
            ab_vw == b.vw * a.vw - b.vx * a.vx - b.vy * a.vy - b.vz * a.vz,
    ;
    assert(bc_mz * a.vw == (c.mz * b.vw) * a.vw + (c.vw * b.mz) * a.vw + (c.vx * b.my) * a.vw - (c.my * b.vx) * a.vw + (c.mx * b.vy) * a.vw - (c.vy * b.mx) * a.vw + (c.mw * b.vz) * a.vw + (c.vz * b.mw) * a.vw) by (nonlinear_arith)
        requires
            bc_mz == c.mz * b.vw + c.vw * b.mz + c.vx * b.my - c.my * b.vx + c.mx * b.vy - c.vy * b.mx + c.mw * b.vz + c.vz * b.mw,
    ;
    assert(c.vw * ab_mz == c.vw * (b.mz * a.vw) + c.vw * (b.vw * a.mz) + c.vw * (b.vx * a.my) - c.vw * (b.my * a.vx) + c.vw * (b.mx * a.vy) - c.vw * (b.vy * a.mx) + c.vw * (b.mw * a.vz) + c.vw * (b.vz * a.mw)) by (nonlinear_arith)
        requires
            ab_mz == b.mz * a.vw + b.vw * a.mz + b.vx * a.my - b.my * a.vx + b.mx * a.vy - b.vy * a.mx + b.mw * a.vz + b.vz * a.mw,
    ;
    assert(bc_vw * a.mz == (c.vw * b.vw) * a.mz - (c.vx * b.vx) * a.mz - (c.vy * b.vy) * a.mz - (c.vz * b.vz) * a.mz) by (nonlinear_arith)
        requires
            bc_vw == c.vw * b.vw - c.vx * b.vx - c.vy * b.vy - c.vz * b.vz,
    ;
    assert(c.vx * ab_my == c.vx * (b.my * a.vw) + c.vx * (b.vw * a.my) + c.vx * (b.vz * a.mx) - c.vx * (b.mx * a.vz) + c.vx * (b.mz * a.vx) - c.vx * (b.vx * a.mz) + c.vx * (b.mw * a.vy) + c.vx * (b.vy * a.mw)) by (nonlinear_arith)
        requires
            ab_my == b.my * a.vw + b.vw * a.my + b.vz * a.mx - b.mx * a.vz + b.mz * a.vx - b.vx * a.mz + b.mw * a.vy + b.vy * a.mw,
    ;
    assert(bc_vx * a.my == (c.vx * b.vw) * a.my + (c.vw * b.vx) * a.my + (c.vy * b.vz) * a.my - (c.vz * b.vy) * a.my) by (nonlinear_arith)
        requires
            bc_vx == c.vx * b.vw + c.vw * b.vx + c.vy * b.vz - c.vz * b.vy,
    ;
    assert(c.my * ab_vx == c.my * (b.vx * a.vw) + c.my * (b.vw * a.vx) + c.my * (b.vy * a.vz) - c.my * (b.vz * a.vy)) by (nonlinear_arith)
        requires
            ab_vx == b.vx * a.vw + b.vw * a.vx + b.vy * a.vz - b.vz * a.vy,
    ;
    assert(bc_my * a.vx == (c.my * b.vw) * a.vx + (c.vw * b.my) * a.vx + (c.vz * b.mx) * a.vx - (c.mx * b.vz) * a.vx + (c.mz * b.vx) * a.vx - (c.vx * b.mz) * a.vx + (c.mw * b.vy) * a.vx + (c.vy * b.mw) * a.vx) by (nonlinear_arith)
        requires
            bc_my == c.my * b.vw + c.vw * b.my + c.vz * b.mx - c.mx * b.vz + c.mz * b.vx - c.vx * b.mz + c.mw * b.vy + c.vy * b.mw,
    ;
    assert(c.mx * ab_vy == c.mx * (b.vy * a.vw) + c.mx * (b.vw * a.vy) + c.mx * (b.vz * a.vx) - c.mx * (b.vx * a.vz)) by (nonlinear_arith)
        requires
            ab_vy == b.vy * a.vw + b.vw * a.vy + b.vz * a.vx - b.vx * a.vz,
    ;
    assert(bc_mx * a.vy == (c.mx * b.vw) * a.vy + (c.vw * b.mx) * a.vy + (c.vy * b.mz) * a.vy - (c.mz * b.vy) * a.vy + (c.my * b.vz) * a.vy - (c.vz * b.my) * a.vy + (c.mw * b.vx) * a.vy + (c.vx * b.mw) * a.vy) by (nonlinear_arith)
        requires
            bc_mx == c.mx * b.vw + c.vw * b.mx + c.vy * b.mz - c.mz * b.vy + c.my * b.vz - c.vz * b.my + c.mw * b.vx + c.vx * b.mw,
    ;
    assert(c.vy * ab_mx == c.vy * (b.mx * a.vw) + c.vy * (b.vw * a.mx) + c.vy * (b.vy * a.mz) - c.vy * (b.mz * a.vy) + c.vy * (b.my * a.vz) - c.vy * (b.vz * a.my) + c.vy * (b.mw * a.vx) + c.vy * (b.vx * a.mw)) by (nonlinear_arith)
        requires
            ab_mx == b.mx * a.vw + b.vw * a.mx + b.vy * a.mz - b.mz * a.vy + b.my * a.vz - b.vz * a.my + b.mw * a.vx + b.vx * a.mw,
    ;
    assert(bc_vy * a.mx == (c.vy * b.vw) * a.mx + (c.vw * b.vy) * a.mx + (c.vz * b.vx) * a.mx - (c.vx * b.vz) * a.mx) by (nonlinear_arith)
        requires
            bc_vy == c.vy * b.vw + c.vw * b.vy + c.vz * b.vx - c.vx * b.vz,
    ;
    assert(c.mw * ab_vz == c.mw * (b.vz * a.vw) + c.mw * (b.vw * a.vz) + c.mw * (b.vx * a.vy) - c.mw * (b.vy * a.vx)) by (nonlinear_arith)
        requires
            ab_vz == b.vz * a.vw + b.vw * a.vz + b.vx * a.vy - b.vy * a.vx,
    ;
    assert(bc_mw * a.vz == (c.vw * b.mw) * a.vz + (c.mw * b.vw) * a.vz - (c.vx * b.mx) * a.vz - (c.mx * b.vx) * a.vz - (c.vy * b.my) * a.vz - (c.my * b.vy) * a.vz - (c.vz * b.mz) * a.vz - (c.mz * b.vz) * a.vz) by (nonlinear_arith)
        requires
            bc_mw == c.vw * b.mw + c.mw * b.vw - c.vx * b.mx - c.mx * b.vx - c.vy * b.my - c.my * b.vy - c.vz * b.mz - c.mz * b.vz,
    ;
    assert(c.vz * ab_mw == c.vz * (b.vw * a.mw) + c.vz * (b.mw * a.vw) - c.vz * (b.vx * a.mx) - c.vz * (b.mx * a.vx) - c.vz * (b.vy * a.my) - c.vz * (b.my * a.vy) - c.vz * (b.vz * a.mz) - c.vz * (b.mz * a.vz)) by (nonlinear_arith)
        requires
            ab_mw == b.vw * a.mw + b.mw * a.vw - b.vx * a.mx - b.mx * a.vx - b.vy * a.my - b.my * a.vy - b.vz * a.mz - b.mz * a.vz,
    ;
    assert(bc_vz * a.mw == (c.vz * b.vw) * a.mw + (c.vw * b.vz) * a.mw + (c.vx * b.vy) * a.mw - (c.vy * b.vx) * a.mw) by (nonlinear_arith)
        requires
            bc_vz == c.vz * b.vw + c.vw * b.vz + c.vx * b.vy - c.vy * b.vx,
    ;
    lemma_monomial(c.mw, b.vw, a.vz);
    lemma_monomial(c.mw, b.vx, a.vy);
    lemma_monomial(c.mw, b.vy, a.vx);
    lemma_monomial(c.mw, b.vz, a.vw);
    lemma_monomial(c.mx, b.vw, a.vy);
    lemma_monomial(c.mx, b.vx, a.vz);
    lemma_monomial(c.mx, b.vy, a.vw);
    lemma_monomial(c.mx, b.vz, a.vx);
    lemma_monomial(c.my, b.vw, a.vx);
    lemma_monomial(c.my, b.vx, a.vw);
    lemma_monomial(c.my, b.vy, a.vz);
    lemma_monomial(c.my, b.vz, a.vy);
    lemma_monomial(c.mz, b.vw, a.vw);
    lemma_monomial(c.mz, b.vx, a.vx);
    lemma_monomial(c.mz, b.vy, a.vy);
    lemma_monomial(c.mz, b.vz, a.vz);
    lemma_monomial(c.vw, b.mw, a.vz);
    lemma_monomial(c.vw, b.mx, a.vy);
    lemma_monomial(c.vw, b.my, a.vx);
    lemma_monomial(c.vw, b.mz, a.vw);
    lemma_monomial(c.vw, b.vw, a.mz);
    lemma_monomial(c.vw, b.vx, a.my);
    lemma_monomial(c.vw, b.vy, a.mx);
    lemma_monomial(c.vw, b.vz, a.mw);
    lemma_monomial(c.vx, b.mw, a.vy);
    lemma_monomial(c.vx, b.mx, a.vz);
    lemma_monomial(c.vx, b.my, a.vw);
    lemma_monomial(c.vx, b.mz, a.vx);
    lemma_monomial(c.vx, b.vw, a.my);
    lemma_monomial(c.vx, b.vx, a.mz);
    lemma_monomial(c.vx, b.vy, a.mw);
    lemma_monomial(c.vx, b.vz, a.mx);
    lemma_monomial(c.vy, b.mw, a.vx);
    lemma_monomial(c.vy, b.mx, a.vw);
    lemma_monomial(c.vy, b.my, a.vz);
    lemma_monomial(c.vy, b.mz, a.vy);
    lemma_monomial(c.vy, b.vw, a.mx);
    lemma_monomial(c.vy, b.vx, a.mw);
    lemma_monomial(c.vy, b.vy, a.mz);
    lemma_monomial(c.vy, b.vz, a.my);
    lemma_monomial(c.vz, b.mw, a.vw);
    lemma_monomial(c.vz, b.mx, a.vx);
    lemma_monomial(c.vz, b.my, a.vy);
    lemma_monomial(c.vz, b.mz, a.vz);
    lemma_monomial(c.vz, b.vw, a.mw);
    lemma_monomial(c.vz, b.vx, a.mx);
    lemma_monomial(c.vz, b.vy, a.my);
    lemma_monomial(c.vz, b.vz, a.mz);
}

/// The `mw` of a product of three motors does not depend on which two
/// are multiplied first.
proof fn lemma_mw_associates(a: ExactMotor, b: ExactMotor, c: ExactMotor)
    ensures
        a.combine(b).combine(c).mw == a.combine(b.combine(c)).mw,
{
    let ab = a.combine(b);
    let bc = b.combine(c);
    let ab_vx = ab.vx;
    let ab_vy = ab.vy;
    let ab_vz = ab.vz;
    let ab_vw = ab.vw;
    let ab_mx = ab.mx;
    let ab_my = ab.my;
    let ab_mz = ab.mz;
    let ab_mw = ab.mw;
    let bc_vx = bc.vx;
    let bc_vy = bc.vy;
    let bc_vz = bc.vz;
    let bc_vw = bc.vw;
    let bc_mx = bc.mx;
    let bc_my = bc.my;
    let bc_mz = bc.mz;
    let bc_mw = bc.mw;
    assert(c.vw * ab_mw == c.vw * (b.vw * a.mw) + c.vw * (b.mw * a.vw) - c.vw * (b.vx * a.mx) - c.vw * (b.mx * a.vx) - c.vw * (b.vy * a.my) - c.vw * (b.my * a.vy) - c.vw * (b.vz * a.mz) - c.vw * (b.mz * a.vz)) by (nonlinear_arith)
        requires
            ab_mw == b.vw * a.mw + b.mw * a.vw - b.vx * a.mx - b.mx * a.vx - b.vy * a.my - b.my * a.vy - b.vz * a.mz - b.mz * a.vz,
    ;
    assert(bc_vw * a.mw == (c.vw * b.vw) * a.mw - (c.vx * b.vx) * a.mw - (c.vy * b.vy) * a.mw - (c.vz * b.vz) * a.mw) by (nonlinear_arith)
        requires
            bc_vw == c.vw * b.vw - c.vx * b.vx - c.vy * b.vy - c.vz * b.vz,
    ;
    assert(c.mw * ab_vw == c.mw * (b.vw * a.vw) - c.mw * (b.vx * a.vx) - c.mw * (b.vy * a.vy) - c.mw * (b.vz * a.vz)) by (nonlinear_arith)
        requires
            ab_vw == b.vw * a.vw - b.vx * a.vx - b.vy * a.vy - b.vz * a.vz,
    ;
    assert(bc_mw * a.vw == (c.vw * b.mw) * a.vw + (c.mw * b.vw) * a.vw - (c.vx * b.mx) * a.vw - (c.mx * b.vx) * a.vw - (c.vy * b.my) * a.vw - (c.my * b.vy) * a.vw - (c.vz * b.mz) * a.vw - (c.mz * b.vz) * a.vw) by (nonlinear_arith)
        requires
            bc_mw == c.vw * b.mw + c.mw * b.vw - c.vx * b.mx - c.mx * b.vx - c.vy * b.my - c.my * b.vy - c.vz * b.mz - c.mz * b.vz,
    ;
    assert(c.vx * ab_mx == c.vx * (b.mx * a.vw) + c.vx * (b.vw * a.mx) + c.vx * (b.vy * a.mz) - c.vx * (b.mz * a.vy) + c.vx * (b.my * a.vz) - c.vx * (b.vz * a.my) + c.vx * (b.mw * a.vx) + c.vx * (b.vx * a.mw)) by (nonlinear_arith)
        requires
            ab_mx == b.mx * a.vw + b.vw * a.mx + b.vy * a.mz - b.mz * a.vy + b.my * a.vz - b.vz * a.my + b.mw * a.vx + b.vx * a.mw,
    ;
    assert(bc_vx * a.mx == (c.vx * b.vw) * a.mx + (c.vw * b.vx) * a.mx + (c.vy * b.vz) * a.mx - (c.vz * b.vy) * a.mx) by (nonlinear_arith)
        requires
            bc_vx == c.vx * b.vw + c.vw * b.vx + c.vy * b.vz - c.vz * b.vy,
    ;
    assert(c.mx * ab_vx == c.mx * (b.vx * a.vw) + c.mx * (b.vw * a.vx) + c.mx * (b.vy * a.vz) - c.mx * (b.vz * a.vy)) by (nonlinear_arith)
        requires
            ab_vx == b.vx * a.vw + b.vw * a.vx + b.vy * a.vz - b.vz * a.vy,
    ;
    assert(bc_mx * a.vx == (c.mx * b.vw) * a.vx + (c.vw * b.mx) * a.vx + (c.vy * b.mz) * a.vx - (c.mz * b.vy) * a.vx + (c.my * b.vz) * a.vx - (c.vz * b.my) * a.vx + (c.mw * b.vx) * a.vx + (c.vx * b.mw) * a.vx) by (nonlinear_arith)
        requires
            bc_mx == c.mx * b.vw + c.vw * b.mx + c.vy * b.mz - c.mz * b.vy + c.my * b.vz - c.vz * b.my + c.mw * b.vx + c.vx * b.mw,
    ;
    assert(c.vy * ab_my == c.vy * (b.my * a.vw) + c.vy * (b.vw * a.my) + c.vy * (b.vz * a.mx) - c.vy * (b.mx * a.vz) + c.vy * (b.mz * a.vx) - c.vy * (b.vx * a.mz) + c.vy * (b.mw * a.vy) + c.vy * (b.vy * a.mw)) by (nonlinear_arith)
        requires
            ab_my == b.my * a.vw + b.vw * a.my + b.vz * a.mx - b.mx * a.vz + b.mz * a.vx - b.vx * a.mz + b.mw * a.vy + b.vy * a.mw,
    ;
    assert(bc_vy * a.my == (c.vy * b.vw) * a.my + (c.vw * b.vy) * a.my + (c.vz * b.vx) * a.my - (c.vx * b.vz) * a.my) by (nonlinear_arith)
        requires
            bc_vy == c.vy * b.vw + c.vw * b.vy + c.vz * b.vx - c.vx * b.vz,
    ;
    assert(c.my * ab_vy == c.my * (b.vy * a.vw) + c.my * (b.vw * a.vy) + c.my * (b.vz * a.vx) - c.my * (b.vx * a.vz)) by (nonlinear_arith)
        requires
            ab_vy == b.vy * a.vw + b.vw * a.vy + b.vz * a.vx - b.vx * a.vz,
    ;
    assert(bc_my * a.vy == (c.my * b.vw) * a.vy + (c.vw * b.my) * a.vy + (c.vz * b.mx) * a.vy - (c.mx * b.vz) * a.vy + (c.mz * b.vx) * a.vy - (c.vx * b.mz) * a.vy + (c.mw * b.vy) * a.vy + (c.vy * b.mw) * a.vy) by (nonlinear_arith)
        requires
            bc_my == c.my * b.vw + c.vw * b.my + c.vz * b.mx - c.mx * b.vz + c.mz * b.vx - c.vx * b.mz + c.mw * b.vy + c.vy * b.mw,
    ;
    assert(c.vz * ab_mz == c.vz * (b.mz * a.vw) + c.vz * (b.vw * a.mz) + c.vz * (b.vx * a.my) - c.vz * (b.my * a.vx) + c.vz * (b.mx * a.vy) - c.vz * (b.vy * a.mx) + c.vz * (b.mw * a.vz) + c.vz * (b.vz * a.mw)) by (nonlinear_arith)
        requires
            ab_mz == b.mz * a.vw + b.vw * a.mz + b.vx * a.my - b.my * a.vx + b.mx * a.vy - b.vy * a.mx + b.mw * a.vz + b.vz * a.mw,
    ;
    assert(bc_vz * a.mz == (c.vz * b.vw) * a.mz + (c.vw * b.vz) * a.mz + (c.vx * b.vy) * a.mz - (c.vy * b.vx) * a.mz) by (nonlinear_arith)
        requires
            bc_vz == c.vz * b.vw + c.vw * b.vz + c.vx * b.vy - c.vy * b.vx,
    ;
    assert(c.mz * ab_vz == c.mz * (b.vz * a.vw) + c.mz * (b.vw * a.vz) + c.mz * (b.vx * a.vy) - c.mz * (b.vy * a.vx)) by (nonlinear_arith)
        requires
            ab_vz == b.vz * a.vw + b.vw * a.vz + b.vx * a.vy - b.vy * a.vx,
    ;
    assert(bc_mz * a.vz == (c.mz * b.vw) * a.vz + (c.vw * b.mz) * a.vz + (c.vx * b.my) * a.vz - (c.my * b.vx) * a.vz + (c.mx * b.vy) * a.vz - (c.vy * b.mx) * a.vz + (c.mw * b.vz) * a.vz + (c.vz * b.mw) * a.vz) by (nonlinear_arith)
        requires
            bc_mz == c.mz * b.vw + c.vw * b.mz + c.vx * b.my - c.my * b.vx + c.mx * b.vy - c.vy * b.mx + c.mw * b.vz + c.vz * b.mw,
    ;
    lemma_monomial(c.mw, b.vw, a.vw);
    lemma_monomial(c.mw, b.vx, a.vx);
    lemma_monomial(c.mw, b.vy, a.vy);
    lemma_monomial(c.mw, b.vz, a.vz);
    lemma_monomial(c.mx, b.vw, a.vx);
    lemma_monomial(c.mx, b.vx, a.vw);
    lemma_monomial(c.mx, b.vy, a.vz);
    lemma_monomial(c.mx, b.vz, a.vy);
    lemma_monomial(c.my, b.vw, a.vy);
    lemma_monomial(c.my, b.vx, a.vz);
    lemma_monomial(c.my, b.vy, a.vw);
    lemma_monomial(c.my, b.vz, a.vx);
    lemma_monomial(c.mz, b.vw, a.vz);
    lemma_monomial(c.mz, b.vx, a.vy);
    lemma_monomial(c.mz, b.vy, a.vx);
    lemma_monomial(c.mz, b.vz, a.vw);
    lemma_monomial(c.vw, b.mw, a.vw);
    lemma_monomial(c.vw, b.mx, a.vx);
    lemma_monomial(c.vw, b.my, a.vy);
    lemma_monomial(c.vw, b.mz, a.vz);
    lemma_monomial(c.vw, b.vw, a.mw);
    lemma_monomial(c.vw, b.vx, a.mx);
    lemma_monomial(c.vw, b.vy, a.my);
    lemma_monomial(c.vw, b.vz, a.mz);
    lemma_monomial(c.vx, b.mw, a.vx);
    lemma_monomial(c.vx, b.mx, a.vw);
    lemma_monomial(c.vx, b.my, a.vz);
    lemma_monomial(c.vx, b.mz, a.vy);
    lemma_monomial(c.vx, b.vw, a.mx);
    lemma_monomial(c.vx, b.vx, a.mw);
    lemma_monomial(c.vx, b.vy, a.mz);
    lemma_monomial(c.vx, b.vz, a.my);
    lemma_monomial(c.vy, b.mw, a.vy);
    lemma_monomial(c.vy, b.mx, a.vz);
    lemma_monomial(c.vy, b.my, a.vw);
    lemma_monomial(c.vy, b.mz, a.vx);
    lemma_monomial(c.vy, b.vw, a.my);
    lemma_monomial(c.vy, b.vx, a.mz);
    lemma_monomial(c.vy, b.vy, a.mw);
    lemma_monomial(c.vy, b.vz, a.mx);
    lemma_monomial(c.vz, b.mw, a.vz);
    lemma_monomial(c.vz, b.mx, a.vy);
    lemma_monomial(c.vz, b.my, a.vx);
    lemma_monomial(c.vz, b.mz, a.vw);
    lemma_monomial(c.vz, b.vw, a.mz);
    lemma_monomial(c.vz, b.vx, a.my);
    lemma_monomial(c.vz, b.vy, a.mx);
    lemma_monomial(c.vz, b.vz, a.mw);
}

/// The motor product is associative.
pub proof fn lemma_combine_associates(a: ExactMotor, b: ExactMotor, c: ExactMotor)
    ensures
        a.combine(b).combine(c) == a.combine(b.combine(c)),
{
    lemma_rotation_parts_associate(a, b, c);
    lemma_mx_associates(a, b, c);
    lemma_my_associates(a, b, c);
    lemma_mz_associates(a, b, c);
    lemma_mw_associates(a, b, c);
}

} // verus!
