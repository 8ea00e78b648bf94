//! How the rotation matrix of a motor behaves under the motor product.

use crate::exact::ExactMotor;
use vstd::prelude::*;

verus! {

/// A product of two products, regrouped into the product of the first
/// factors and the product of the second factors.
pub proof fn lemma_cross(b0: int, a0: int, b1: int, a1: int)
    by (nonlinear_arith)
    ensures
        (b0 * a0) * (b1 * a1) == (b0 * b1) * (a0 * a1),
        (b0 * a0) * (b1 * a1) == (b1 * b0) * (a0 * a1),
        (b0 * a0) * (b1 * a1) == (b0 * b1) * (a1 * a0),
        (b0 * a0) * (b1 * a1) == (b1 * b0) * (a1 * a0),
{
}

/// A product of two products of a `b` and an `a`, regrouped into the
/// product of the two `b`s and the product of the two `a`s, for one pair
/// against four others.
pub proof fn lemma_cross_row(
    b0: int,
    a0: int,
    b1: int,
    a1: int,
    b2: int,
    a2: int,
    b3: int,
    a3: int,
    b4: int,
    a4: int,
)
    by (nonlinear_arith)
    ensures
        (b0 * a0) * (b1 * a1) == (b0 * b1) * (a0 * a1),
        (b0 * a0) * (b1 * a1) == (b1 * b0) * (a0 * a1),
        (b0 * a0) * (b1 * a1) == (b0 * b1) * (a1 * a0),
        (b0 * a0) * (b1 * a1) == (b1 * b0) * (a1 * a0),
        (b0 * a0) * (b2 * a2) == (b0 * b2) * (a0 * a2),
        (b0 * a0) * (b2 * a2) == (b2 * b0) * (a0 * a2),
        (b0 * a0) * (b2 * a2) == (b0 * b2) * (a2 * a0),
        (b0 * a0) * (b2 * a2) == (b2 * b0) * (a2 * a0),
        (b0 * a0) * (b3 * a3) == (b0 * b3) * (a0 * a3),
        (b0 * a0) * (b3 * a3) == (b3 * b0) * (a0 * a3),
        (b0 * a0) * (b3 * a3) == (b0 * b3) * (a3 * a0),
        (b0 * a0) * (b3 * a3) == (b3 * b0) * (a3 * a0),
        (b0 * a0) * (b4 * a4) == (b0 * b4) * (a0 * a4),
        (b0 * a0) * (b4 * a4) == (b4 * b0) * (a0 * a4),
        (b0 * a0) * (b4 * a4) == (b0 * b4) * (a4 * a0),
        (b0 * a0) * (b4 * a4) == (b4 * b0) * (a4 * a0),
{
}

/// The rotation matrix of a product is the product of the rotation
/// matrices, that of the second factor on the left; the squared length of
/// the rotation part of a product is the product of the squared lengths.
pub proof fn lemma_rotation_of_product(a: ExactMotor, b: ExactMotor)
    ensures
        a.combine(b).rotation() == b.rotation().product(a.rotation()),
        a.combine(b).norm() == b.norm() * a.norm(),
{
    let c = a.combine(b);
    let rb = b.rotation();
    let ra = a.rotation();
    let cx = c.vx;
    let cy = c.vy;
    let cz = c.vz;
    let cw = c.vw;
    let rbxx = rb.xx;
    let raxx = ra.xx;
    let rbxy = rb.xy;
    let raxy = ra.xy;
    let rbxz = rb.xz;
    let raxz = ra.xz;
    let rbyx = rb.yx;
    let rayx = ra.yx;
    let rbyy = rb.yy;
    let rayy = ra.yy;
    let rbyz = rb.yz;
    let rayz = ra.yz;
    let rbzx = rb.zx;
    let razx = ra.zx;
    let rbzy = rb.zy;
    let razy = ra.zy;
    let rbzz = rb.zz;
    let razz = ra.zz;
    let pxx = b.vx * a.vx;
    let pxy = b.vx * a.vy;
    let pxz = b.vx * a.vz;
    let pxw = b.vx * a.vw;
    let pyx = b.vy * a.vx;
    let pyy = b.vy * a.vy;
    let pyz = b.vy * a.vz;
    let pyw = b.vy * a.vw;
    let pzx = b.vz * a.vx;
    let pzy = b.vz * a.vy;
    let pzz = b.vz * a.vz;
    let pzw = b.vz * a.vw;
    let pwx = b.vw * a.vx;
    let pwy = b.vw * a.vy;
    let pwz = b.vw * a.vz;
    let pww = b.vw * a.vw;
    let bxx = b.vx * b.vx;
    let axx = a.vx * a.vx;
    let bxy = b.vx * b.vy;
    let axy = a.vx * a.vy;
    let bxz = b.vx * b.vz;
    let axz = a.vx * a.vz;
    let bxw = b.vx * b.vw;
    let axw = a.vx * a.vw;
    let byy = b.vy * b.vy;
    let ayy = a.vy * a.vy;
    let byz = b.vy * b.vz;
    let ayz = a.vy * a.vz;
    let byw = b.vy * b.vw;
    let ayw = a.vy * a.vw;
    let bzz = b.vz * b.vz;
    let azz = a.vz * a.vz;
    let bzw = b.vz * b.vw;
    let azw = a.vz * a.vw;
    let bww = b.vw * b.vw;
    let aww = a.vw * a.vw;
    assert(cx * cx == cx * pxw + cx * pwx + cx * pyz - cx * pzy) by (nonlinear_arith)
        requires
            cx == pxw + pwx + (pyz - pzy),
    ;
    assert(cx * pxw == pxw * pxw + pwx * pxw + pyz * pxw - pzy * pxw) by (nonlinear_arith)
        requires
            cx == pxw + pwx + (pyz - pzy),
    ;
    assert(cx * pwx == pxw * pwx + pwx * pwx + pyz * pwx - pzy * pwx) by (nonlinear_arith)
        requires
            cx == pxw + pwx + (pyz - pzy),
    ;
    assert(cx * pyz == pxw * pyz + pwx * pyz + pyz * pyz - pzy * pyz) by (nonlinear_arith)
        requires
            cx == pxw + pwx + (pyz - pzy),
    ;
    assert(cx * pzy == pxw * pzy + pwx * pzy + pyz * pzy - pzy * pzy) by (nonlinear_arith)
        requires
            cx == pxw + pwx + (pyz - pzy),
    ;
    lemma_cross_row(b.vx, a.vw, b.vx, a.vw, b.vw, a.vx, b.vy, a.vz, b.vz, a.vy);
    lemma_cross_row(b.vw, a.vx, b.vx, a.vw, b.vw, a.vx, b.vy, a.vz, b.vz, a.vy);
    lemma_cross_row(b.vy, a.vz, b.vx, a.vw, b.vw, a.vx, b.vy, a.vz, b.vz, a.vy);
    lemma_cross_row(b.vz, a.vy, b.vx, a.vw, b.vw, a.vx, b.vy, a.vz, b.vz, a.vy);
    assert(cx * cy == cx * pyw + cx * pwy + cx * pzx - cx * pxz) by (nonlinear_arith)
        requires
            cy == pyw + pwy + (pzx - pxz),
    ;
    assert(cx * pyw == pxw * pyw + pwx * pyw + pyz * pyw - pzy * pyw) by (nonlinear_arith)
        requires
            cx == pxw + pwx + (pyz - pzy),
    ;
    assert(cx * pwy == pxw * pwy + pwx * pwy + pyz * pwy - pzy * pwy) by (nonlinear_arith)
        requires
            cx == pxw + pwx + (pyz - pzy),
    ;
    assert(cx * pzx == pxw * pzx + pwx * pzx + pyz * pzx - pzy * pzx) by (nonlinear_arith)
        requires
            cx == pxw + pwx + (pyz - pzy),
    ;
    assert(cx * pxz == pxw * pxz + pwx * pxz + pyz * pxz - pzy * pxz) by (nonlinear_arith)
        requires
            cx == pxw + pwx + (pyz - pzy),
    ;
    lemma_cross_row(b.vx, a.vw, b.vy, a.vw, b.vw, a.vy, b.vz, a.vx, b.vx, a.vz);
    lemma_cross_row(b.vw, a.vx, b.vy, a.vw, b.vw, a.vy, b.vz, a.vx, b.vx, a.vz);
    lemma_cross_row(b.vy, a.vz, b.vy, a.vw, b.vw, a.vy, b.vz, a.vx, b.vx, a.vz);
    lemma_cross_row(b.vz, a.vy, b.vy, a.vw, b.vw, a.vy, b.vz, a.vx, b.vx, a.vz);
    assert(cx * cz == cx * pzw + cx * pwz + cx * pxy - cx * pyx) by (nonlinear_arith)
        requires
            cz == pzw + pwz + (pxy - pyx),
    ;
    assert(cx * pzw == pxw * pzw + pwx * pzw + pyz * pzw - pzy * pzw) by (nonlinear_arith)
        requires
            cx == pxw + pwx + (pyz - pzy),
    ;
    assert(cx * pwz == pxw * pwz + pwx * pwz + pyz * pwz - pzy * pwz) by (nonlinear_arith)
        requires
            cx == pxw + pwx + (pyz - pzy),
    ;
    assert(cx * pxy == pxw * pxy + pwx * pxy + pyz * pxy - pzy * pxy) by (nonlinear_arith)
        requires
            cx == pxw + pwx + (pyz - pzy),
    ;
    assert(cx * pyx == pxw * pyx + pwx * pyx + pyz * pyx - pzy * pyx) by (nonlinear_arith)
        requires
            cx == pxw + pwx + (pyz - pzy),
    ;
    lemma_cross_row(b.vx, a.vw, b.vz, a.vw, b.vw, a.vz, b.vx, a.vy, b.vy, a.vx);
    lemma_cross_row(b.vw, a.vx, b.vz, a.vw, b.vw, a.vz, b.vx, a.vy, b.vy, a.vx);
    lemma_cross_row(b.vy, a.vz, b.vz, a.vw, b.vw, a.vz, b.vx, a.vy, b.vy, a.vx);
    lemma_cross_row(b.vz, a.vy, b.vz, a.vw, b.vw, a.vz, b.vx, a.vy, b.vy, a.vx);
    assert(cx * cw == cx * pww - cx * pxx - cx * pyy - cx * pzz) by (nonlinear_arith)
        requires
            cw == pww - (pxx + pyy + pzz),
    ;
    assert(cx * pww == pxw * pww + pwx * pww + pyz * pww - pzy * pww) by (nonlinear_arith)
        requires
            cx == pxw + pwx + (pyz - pzy),
    ;
    assert(cx * pxx == pxw * pxx + pwx * pxx + pyz * pxx - pzy * pxx) by (nonlinear_arith)
        requires
            cx == pxw + pwx + (pyz - pzy),
    ;
    assert(cx * pyy == pxw * pyy + pwx * pyy + pyz * pyy - pzy * pyy) by (nonlinear_arith)
        requires
            cx == pxw + pwx + (pyz - pzy),
    ;
    assert(cx * pzz == pxw * pzz + pwx * pzz + pyz * pzz - pzy * pzz) by (nonlinear_arith)
        requires
            cx == pxw + pwx + (pyz - pzy),
    ;
    lemma_cross_row(b.vx, a.vw, b.vw, a.vw, b.vx, a.vx, b.vy, a.vy, b.vz, a.vz);
    lemma_cross_row(b.vw, a.vx, b.vw, a.vw, b.vx, a.vx, b.vy, a.vy, b.vz, a.vz);
    lemma_cross_row(b.vy, a.vz, b.vw, a.vw, b.vx, a.vx, b.vy, a.vy, b.vz, a.vz);
    lemma_cross_row(b.vz, a.vy, b.vw, a.vw, b.vx, a.vx, b.vy, a.vy, b.vz, a.vz);
    assert(cy * cy == cy * pyw + cy * pwy + cy * pzx - cy * pxz) by (nonlinear_arith)
        requires
            cy == pyw + pwy + (pzx - pxz),
    ;
    assert(cy * pyw == pyw * pyw + pwy * pyw + pzx * pyw - pxz * pyw) by (nonlinear_arith)
        requires
            cy == pyw + pwy + (pzx - pxz),
    ;
    assert(cy * pwy == pyw * pwy + pwy * pwy + pzx * pwy - pxz * pwy) by (nonlinear_arith)
        requires
            cy == pyw + pwy + (pzx - pxz),
    ;
    assert(cy * pzx == pyw * pzx + pwy * pzx + pzx * pzx - pxz * pzx) by (nonlinear_arith)
        requires
            cy == pyw + pwy + (pzx - pxz),
    ;
    assert(cy * pxz == pyw * pxz + pwy * pxz + pzx * pxz - pxz * pxz) by (nonlinear_arith)
        requires
            cy == pyw + pwy + (pzx - pxz),
    ;
    lemma_cross_row(b.vy, a.vw, b.vy, a.vw, b.vw, a.vy, b.vz, a.vx, b.vx, a.vz);
    lemma_cross_row(b.vw, a.vy, b.vy, a.vw, b.vw, a.vy, b.vz, a.vx, b.vx, a.vz);
    lemma_cross_row(b.vz, a.vx, b.vy, a.vw, b.vw, a.vy, b.vz, a.vx, b.vx, a.vz);
    lemma_cross_row(b.vx, a.vz, b.vy, a.vw, b.vw, a.vy, b.vz, a.vx, b.vx, a.vz);
    assert(cy * cz == cy * pzw + cy * pwz + cy * pxy - cy * pyx) by (nonlinear_arith)
        requires
            cz == pzw + pwz + (pxy - pyx),
    ;
    assert(cy * pzw == pyw * pzw + pwy * pzw + pzx * pzw - pxz * pzw) by (nonlinear_arith)
        requires
            cy == pyw + pwy + (pzx - pxz),
    ;
    assert(cy * pwz == pyw * pwz + pwy * pwz + pzx * pwz - pxz * pwz) by (nonlinear_arith)
        requires
            cy == pyw + pwy + (pzx - pxz),
    ;
    assert(cy * pxy == pyw * pxy + pwy * pxy + pzx * pxy - pxz * pxy) by (nonlinear_arith)
        requires
            cy == pyw + pwy + (pzx - pxz),
    ;
    assert(cy * pyx == pyw * pyx + pwy * pyx + pzx * pyx - pxz * pyx) by (nonlinear_arith)
        requires
            cy == pyw + pwy + (pzx - pxz),
    ;
    lemma_cross_row(b.vy, a.vw, b.vz, a.vw, b.vw, a.vz, b.vx, a.vy, b.vy, a.vx);
    lemma_cross_row(b.vw, a.vy, b.vz, a.vw, b.vw, a.vz, b.vx, a.vy, b.vy, a.vx);
    lemma_cross_row(b.vz, a.vx, b.vz, a.vw, b.vw, a.vz, b.vx, a.vy, b.vy, a.vx);
    lemma_cross_row(b.vx, a.vz, b.vz, a.vw, b.vw, a.vz, b.vx, a.vy, b.vy, a.vx);
    assert(cy * cw == cy * pww - cy * pxx - cy * pyy - cy * pzz) by (nonlinear_arith)
        requires
            cw == pww - (pxx + pyy + pzz),
    ;
    assert(cy * pww == pyw * pww + pwy * pww + pzx * pww - pxz * pww) by (nonlinear_arith)
        requires
            cy == pyw + pwy + (pzx - pxz),
    ;
    assert(cy * pxx == pyw * pxx + pwy * pxx + pzx * pxx - pxz * pxx) by (nonlinear_arith)
        requires
            cy == pyw + pwy + (pzx - pxz),
    ;
    assert(cy * pyy == pyw * pyy + pwy * pyy + pzx * pyy - pxz * pyy) by (nonlinear_arith)
        requires
            cy == pyw + pwy + (pzx - pxz),
    ;
    assert(cy * pzz == pyw * pzz + pwy * pzz + pzx * pzz - pxz * pzz) by (nonlinear_arith)
        requires
            cy == pyw + pwy + (pzx - pxz),
    ;
    lemma_cross_row(b.vy, a.vw, b.vw, a.vw, b.vx, a.vx, b.vy, a.vy, b.vz, a.vz);
    lemma_cross_row(b.vw, a.vy, b.vw, a.vw, b.vx, a.vx, b.vy, a.vy, b.vz, a.vz);
    lemma_cross_row(b.vz, a.vx, b.vw, a.vw, b.vx, a.vx, b.vy, a.vy, b.vz, a.vz);
    lemma_cross_row(b.vx, a.vz, b.vw, a.vw, b.vx, a.vx, b.vy, a.vy, b.vz, a.vz);
    assert(cz * cz == cz * pzw + cz * pwz + cz * pxy - cz * pyx) by (nonlinear_arith)
        requires
            cz == pzw + pwz + (pxy - pyx),
    ;
    assert(cz * pzw == pzw * pzw + pwz * pzw + pxy * pzw - pyx * pzw) by (nonlinear_arith)
        requires
            cz == pzw + pwz + (pxy - pyx),
    ;
    assert(cz * pwz == pzw * pwz + pwz * pwz + pxy * pwz - pyx * pwz) by (nonlinear_arith)
        requires
            cz == pzw + pwz + (pxy - pyx),
    ;
    assert(cz * pxy == pzw * pxy + pwz * pxy + pxy * pxy - pyx * pxy) by (nonlinear_arith)
        requires
            cz == pzw + pwz + (pxy - pyx),
    ;
    assert(cz * pyx == pzw * pyx + pwz * pyx + pxy * pyx - pyx * pyx) by (nonlinear_arith)
        requires
            cz == pzw + pwz + (pxy - pyx),
    ;
    lemma_cross_row(b.vz, a.vw, b.vz, a.vw, b.vw, a.vz, b.vx, a.vy, b.vy, a.vx);
    lemma_cross_row(b.vw, a.vz, b.vz, a.vw, b.vw, a.vz, b.vx, a.vy, b.vy, a.vx);
    lemma_cross_row(b.vx, a.vy, b.vz, a.vw, b.vw, a.vz, b.vx, a.vy, b.vy, a.vx);
    lemma_cross_row(b.vy, a.vx, b.vz, a.vw, b.vw, a.vz, b.vx, a.vy, b.vy, a.vx);
    assert(cz * cw == cz * pww - cz * pxx - cz * pyy - cz * pzz) by (nonlinear_arith)
        requires
            cw == pww - (pxx + pyy + pzz),
    ;
    assert(cz * pww == pzw * pww + pwz * pww + pxy * pww - pyx * pww) by (nonlinear_arith)
        requires
            cz == pzw + pwz + (pxy - pyx),
    ;
    assert(cz * pxx == pzw * pxx + pwz * pxx + pxy * pxx - pyx * pxx) by (nonlinear_arith)
        requires
            cz == pzw + pwz + (pxy - pyx),
    ;
    assert(cz * pyy == pzw * pyy + pwz * pyy + pxy * pyy - pyx * pyy) by (nonlinear_arith)
        requires
            cz == pzw + pwz + (pxy - pyx),
    ;
    assert(cz * pzz == pzw * pzz + pwz * pzz + pxy * pzz - pyx * pzz) by (nonlinear_arith)
        requires
            cz == pzw + pwz + (pxy - pyx),
    ;
    lemma_cross_row(b.vz, a.vw, b.vw, a.vw, b.vx, a.vx, b.vy, a.vy, b.vz, a.vz);
    lemma_cross_row(b.vw, a.vz, b.vw, a.vw, b.vx, a.vx, b.vy, a.vy, b.vz, a.vz);
    lemma_cross_row(b.vx, a.vy, b.vw, a.vw, b.vx, a.vx, b.vy, a.vy, b.vz, a.vz);
    lemma_cross_row(b.vy, a.vx, b.vw, a.vw, b.vx, a.vx, b.vy, a.vy, b.vz, a.vz);
    assert(cw * cw == cw * pww - cw * pxx - cw * pyy - cw * pzz) by (nonlinear_arith)
        requires
            cw == pww - (pxx + pyy + pzz),
    ;
    assert(cw * pww == pww * pww - pxx * pww - pyy * pww - pzz * pww) by (nonlinear_arith)
        requires
            cw == pww - (pxx + pyy + pzz),
    ;
    assert(cw * pxx == pww * pxx - pxx * pxx - pyy * pxx - pzz * pxx) by (nonlinear_arith)
        requires
            cw == pww - (pxx + pyy + pzz),
    ;
    assert(cw * pyy == pww * pyy - pxx * pyy - pyy * pyy - pzz * pyy) by (nonlinear_arith)
        requires
            cw == pww - (pxx + pyy + pzz),
    ;
    assert(cw * pzz == pww * pzz - pxx * pzz - pyy * pzz - pzz * pzz) by (nonlinear_arith)
        requires
            cw == pww - (pxx + pyy + pzz),
    ;
    lemma_cross_row(b.vw, a.vw, b.vw, a.vw, b.vx, a.vx, b.vy, a.vy, b.vz, a.vz);
    lemma_cross_row(b.vx, a.vx, b.vw, a.vw, b.vx, a.vx, b.vy, a.vy, b.vz, a.vz);
    lemma_cross_row(b.vy, a.vy, b.vw, a.vw, b.vx, a.vx, b.vy, a.vy, b.vz, a.vz);
    lemma_cross_row(b.vz, a.vz, b.vw, a.vw, b.vx, a.vx, b.vy, a.vy, b.vz, a.vz);
    assert(rbxx * raxx == rbxx * aww + rbxx * axx - rbxx * ayy - rbxx * azz) by (nonlinear_arith)
        requires
            raxx == aww + axx - ayy - azz,
    ;
    assert(rbxx * aww == bww * aww + bxx * aww - byy * aww - bzz * aww) by (nonlinear_arith)
        requires
            rbxx == bww + bxx - byy - bzz,
    ;
    assert(rbxx * axx == bww * axx + bxx * axx - byy * axx - bzz * axx) by (nonlinear_arith)
        requires
            rbxx == bww + bxx - byy - bzz,
    ;
    assert(rbxx * ayy == bww * ayy + bxx * ayy - byy * ayy - bzz * ayy) by (nonlinear_arith)
        requires
            rbxx == bww + bxx - byy - bzz,
    ;
    assert(rbxx * azz == bww * azz + bxx * azz - byy * azz - bzz * azz) by (nonlinear_arith)
        requires
            rbxx == bww + bxx - byy - bzz,
    ;
    assert(rbxy * rayx == 4 * (bxy * axy) + 4 * (bxy * azw) - 4 * (bzw * axy) - 4 * (bzw * azw)) by (nonlinear_arith)
        requires
            rbxy == 2 * (bxy - bzw),
            rayx == 2 * (axy + azw),
    ;
    assert(rbxz * razx == 4 * (bxz * axz) - 4 * (bxz * ayw) + 4 * (byw * axz) - 4 * (byw * ayw)) by (nonlinear_arith)
        requires
            rbxz == 2 * (bxz + byw),
            razx == 2 * (axz - ayw),
    ;
    assert(rbxx * raxy == 2 * (bww * axy) - 2 * (bww * azw) + 2 * (bxx * axy) - 2 * (bxx * azw) - 2 * (byy * axy) + 2 * (byy * azw) - 2 * (bzz * axy) + 2 * (bzz * azw)) by (nonlinear_arith)
        requires
            rbxx == bww + bxx - byy - bzz,
            raxy == 2 * (axy - azw),
    ;
    assert(rbxy * rayy == 2 * (bxy * aww) - 2 * (bxy * axx) + 2 * (bxy * ayy) - 2 * (bxy * azz) - 2 * (bzw * aww) + 2 * (bzw * axx) - 2 * (bzw * ayy) + 2 * (bzw * azz)) by (nonlinear_arith)
        requires
            rbxy == 2 * (bxy - bzw),
            rayy == aww - axx + ayy - azz,
    ;
    assert(rbxz * razy == 4 * (bxz * ayz) + 4 * (bxz * axw) + 4 * (byw * ayz) + 4 * (byw * axw)) by (nonlinear_arith)
        requires
            rbxz == 2 * (bxz + byw),
            razy == 2 * (ayz + axw),
    ;
    assert(rbxx * raxz == 2 * (bww * axz) + 2 * (bww * ayw) + 2 * (bxx * axz) + 2 * (bxx * ayw) - 2 * (byy * axz) - 2 * (byy * ayw) - 2 * (bzz * axz) - 2 * (bzz * ayw)) by (nonlinear_arith)
        requires
            rbxx == bww + bxx - byy - bzz,
            raxz == 2 * (axz + ayw),
    ;
    assert(rbxy * rayz == 4 * (bxy * ayz) - 4 * (bxy * axw) - 4 * (bzw * ayz) + 4 * (bzw * axw)) by (nonlinear_arith)
        requires
            rbxy == 2 * (bxy - bzw),
            rayz == 2 * (ayz - axw),
    ;
    assert(rbxz * razz == 2 * (bxz * aww) - 2 * (bxz * axx) - 2 * (bxz * ayy) + 2 * (bxz * azz) + 2 * (byw * aww) - 2 * (byw * axx) - 2 * (byw * ayy) + 2 * (byw * azz)) by (nonlinear_arith)
        requires
            rbxz == 2 * (bxz + byw),
            razz == aww - axx - ayy + azz,
    ;
    assert(rbyx * raxx == 2 * (bxy * aww) + 2 * (bxy * axx) - 2 * (bxy * ayy) - 2 * (bxy * azz) + 2 * (bzw * aww) + 2 * (bzw * axx) - 2 * (bzw * ayy) - 2 * (bzw * azz)) by (nonlinear_arith)
        requires
            rbyx == 2 * (bxy + bzw),
            raxx == aww + axx - ayy - azz,
    ;
    assert(rbyy * rayx == 2 * (bww * axy) + 2 * (bww * azw) - 2 * (bxx * axy) - 2 * (bxx * azw) + 2 * (byy * axy) + 2 * (byy * azw) - 2 * (bzz * axy) - 2 * (bzz * azw)) by (nonlinear_arith)
        requires
            rbyy == bww - bxx + byy - bzz,
            rayx == 2 * (axy + azw),
    ;
    assert(rbyz * razx == 4 * (byz * axz) - 4 * (byz * ayw) - 4 * (bxw * axz) + 4 * (bxw * ayw)) by (nonlinear_arith)
        requires
            rbyz == 2 * (byz - bxw),
            razx == 2 * (axz - ayw),
    ;
    assert(rbyx * raxy == 4 * (bxy * axy) - 4 * (bxy * azw) + 4 * (bzw * axy) - 4 * (bzw * azw)) by (nonlinear_arith)
        requires
            rbyx == 2 * (bxy + bzw),
            raxy == 2 * (axy - azw),
    ;
    assert(rbyy * rayy == rbyy * aww - rbyy * axx + rbyy * ayy - rbyy * azz) by (nonlinear_arith)
        requires
            rayy == aww - axx + ayy - azz,
    ;
    assert(rbyy * aww == bww * aww - bxx * aww + byy * aww - bzz * aww) by (nonlinear_arith)
        requires
            rbyy == bww - bxx + byy - bzz,
    ;
    assert(rbyy * axx == bww * axx - bxx * axx + byy * axx - bzz * axx) by (nonlinear_arith)
        requires
            rbyy == bww - bxx + byy - bzz,
    ;
    assert(rbyy * ayy == bww * ayy - bxx * ayy + byy * ayy - bzz * ayy) by (nonlinear_arith)
        requires
            rbyy == bww - bxx + byy - bzz,
    ;
    assert(rbyy * azz == bww * azz - bxx * azz + byy * azz - bzz * azz) by (nonlinear_arith)
        requires
            rbyy == bww - bxx + byy - bzz,
    ;
    assert(rbyz * razy == 4 * (byz * ayz) + 4 * (byz * axw) - 4 * (bxw * ayz) - 4 * (bxw * axw)) by (nonlinear_arith)
        requires
            rbyz == 2 * (byz - bxw),
            razy == 2 * (ayz + axw),
    ;
    assert(rbyx * raxz == 4 * (bxy * axz) + 4 * (bxy * ayw) + 4 * (bzw * axz) + 4 * (bzw * ayw)) by (nonlinear_arith)
        requires
            rbyx == 2 * (bxy + bzw),
            raxz == 2 * (axz + ayw),
    ;
    assert(rbyy * rayz == 2 * (bww * ayz) - 2 * (bww * axw) - 2 * (bxx * ayz) + 2 * (bxx * axw) + 2 * (byy * ayz) - 2 * (byy * axw) - 2 * (bzz * ayz) + 2 * (bzz * axw)) by (nonlinear_arith)
        requires
            rbyy == bww - bxx + byy - bzz,
            rayz == 2 * (ayz - axw),
    ;
    assert(rbyz * razz == 2 * (byz * aww) - 2 * (byz * axx) - 2 * (byz * ayy) + 2 * (byz * azz) - 2 * (bxw * aww) + 2 * (bxw * axx) + 2 * (bxw * ayy) - 2 * (bxw * azz)) by (nonlinear_arith)
        requires
            rbyz == 2 * (byz - bxw),
            razz == aww - axx - ayy + azz,
    ;
    assert(rbzx * raxx == 2 * (bxz * aww) + 2 * (bxz * axx) - 2 * (bxz * ayy) - 2 * (bxz * azz) - 2 * (byw * aww) - 2 * (byw * axx) + 2 * (byw * ayy) + 2 * (byw * azz)) by (nonlinear_arith)
        requires
            rbzx == 2 * (bxz - byw),
            raxx == aww + axx - ayy - azz,
    ;
    assert(rbzy * rayx == 4 * (byz * axy) + 4 * (byz * azw) + 4 * (bxw * axy) + 4 * (bxw * azw)) by (nonlinear_arith)
        requires
            rbzy == 2 * (byz + bxw),
            rayx == 2 * (axy + azw),
    ;
    assert(rbzz * razx == 2 * (bww * axz) - 2 * (bww * ayw) - 2 * (bxx * axz) + 2 * (bxx * ayw) - 2 * (byy * axz) + 2 * (byy * ayw) + 2 * (bzz * axz) - 2 * (bzz * ayw)) by (nonlinear_arith)
        requires
            rbzz == bww - bxx - byy + bzz,
            razx == 2 * (axz - ayw),
    ;
    assert(rbzx * raxy == 4 * (bxz * axy) - 4 * (bxz * azw) - 4 * (byw * axy) + 4 * (byw * azw)) by (nonlinear_arith)
        requires
            rbzx == 2 * (bxz - byw),
            raxy == 2 * (axy - azw),
    ;
    assert(rbzy * rayy == 2 * (byz * aww) - 2 * (byz * axx) + 2 * (byz * ayy) - 2 * (byz * azz) + 2 * (bxw * aww) - 2 * (bxw * axx) + 2 * (bxw * ayy) - 2 * (bxw * azz)) by (nonlinear_arith)
        requires
            rbzy == 2 * (byz + bxw),
            rayy == aww - axx + ayy - azz,
    ;
    assert(rbzz * razy == 2 * (bww * ayz) + 2 * (bww * axw) - 2 * (bxx * ayz) - 2 * (bxx * axw) - 2 * (byy * ayz) - 2 * (byy * axw) + 2 * (bzz * ayz) + 2 * (bzz * axw)) by (nonlinear_arith)
        requires
            rbzz == bww - bxx - byy + bzz,
            razy == 2 * (ayz + axw),
    ;
    assert(rbzx * raxz == 4 * (bxz * axz) + 4 * (bxz * ayw) - 4 * (byw * axz) - 4 * (byw * ayw)) by (nonlinear_arith)
        requires
            rbzx == 2 * (bxz - byw),
            raxz == 2 * (axz + ayw),
    ;
    assert(rbzy * rayz == 4 * (byz * ayz) - 4 * (byz * axw) + 4 * (bxw * ayz) - 4 * (bxw * axw)) by (nonlinear_arith)
        requires
            rbzy == 2 * (byz + bxw),
            rayz == 2 * (ayz - axw),
    ;
    assert(rbzz * razz == rbzz * aww - rbzz * axx - rbzz * ayy + rbzz * azz) by (nonlinear_arith)
        requires
            razz == aww - axx - ayy + azz,
    ;
    assert(rbzz * aww == bww * aww - bxx * aww - byy * aww + bzz * aww) by (nonlinear_arith)
        requires
            rbzz == bww - bxx - byy + bzz,
    ;
    assert(rbzz * axx == bww * axx - bxx * axx - byy * axx + bzz * axx) by (nonlinear_arith)
        requires
            rbzz == bww - bxx - byy + bzz,
    ;
    assert(rbzz * ayy == bww * ayy - bxx * ayy - byy * ayy + bzz * ayy) by (nonlinear_arith)
        requires
            rbzz == bww - bxx - byy + bzz,
    ;
    assert(rbzz * azz == bww * azz - bxx * azz - byy * azz + bzz * azz) by (nonlinear_arith)
        requires
            rbzz == bww - bxx - byy + bzz,
    ;
    let nb = b.norm();
    let na = a.norm();
    assert(nb * na == nb * axx + nb * ayy + nb * azz + nb * aww) by (nonlinear_arith)
        requires
            na == axx + ayy + azz + aww,
    ;
    assert(nb * axx == bxx * axx + byy * axx + bzz * axx + bww * axx) by (nonlinear_arith)
        requires
            nb == bxx + byy + bzz + bww,
    ;
    assert(nb * ayy == bxx * ayy + byy * ayy + bzz * ayy + bww * ayy) by (nonlinear_arith)
        requires
            nb == bxx + byy + bzz + bww,
    ;
    assert(nb * azz == bxx * azz + byy * azz + bzz * azz + bww * azz) by (nonlinear_arith)
        requires
            nb == bxx + byy + bzz + bww,
    ;
    assert(nb * aww == bxx * aww + byy * aww + bzz * aww + bww * aww) by (nonlinear_arith)
        requires
            nb == bxx + byy + bzz + bww,
    ;
}

} // verus!
