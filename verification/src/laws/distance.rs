//! A motor keeps distances.

use crate::exact::{ExactMatrix, ExactMotor, ExactPoint};
use crate::laws::affine::lemma_monomial;
use crate::laws::composition::lemma_unit_transform;
use crate::laws::rotation::{lemma_cross, lemma_rotation_of_product};
use vstd::prelude::*;

verus! {

/// The rotation matrix of the inverse is the rotation matrix transposed.
pub proof fn lemma_rotation_of_inverse(m: ExactMotor)
    ensures
        m.inverse().rotation() == m.rotation().transposed(),
{
    let i = m.inverse();
    assert(i.vx * i.vx == m.vx * m.vx && i.vy * i.vy == m.vy * m.vy && i.vz * i.vz == m.vz * m.vz
        && i.vw * i.vw == m.vw * m.vw && i.vx * i.vy == m.vx * m.vy && i.vx * i.vz == m.vx * m.vz
        && i.vy * i.vz == m.vy * m.vz && i.vx * i.vw == -(m.vx * m.vw) && i.vy * i.vw == -(m.vy
        * m.vw) && i.vz * i.vw == -(m.vz * m.vw)) by (nonlinear_arith)
        requires
            i.vx == -m.vx,
            i.vy == -m.vy,
            i.vz == -m.vz,
            i.vw == m.vw,
    ;
}

/// The rotation matrix, multiplied by itself transposed, is the square of
/// the squared length of the rotation part, on the diagonal.
pub proof fn lemma_rotation_is_orthogonal(m: ExactMotor)
    ensures
        m.rotation().transposed().product(m.rotation()) == ExactMatrix::diagonal(
            m.norm() * m.norm(),
        ),
{
    broadcast use vstd::arithmetic::mul::group_mul_basics;
    let i = m.inverse();
    let c = m.combine(i);
    crate::laws::lemma_combine_inverse(m);
    lemma_rotation_of_inverse(m);
    lemma_rotation_of_product(m, i);
    assert(c.rotation() == ExactMatrix::diagonal(m.norm() * m.norm()));
}

/// The squared length of a vector turned by a matrix, in terms of the
/// matrix multiplied by itself transposed: `g*` are the entries of that
/// product on and above the diagonal.
proof fn lemma_quadratic_form(
    r11: int,
    r12: int,
    r13: int,
    r21: int,
    r22: int,
    r23: int,
    r31: int,
    r32: int,
    r33: int,
    d1: int,
    d2: int,
    d3: int,
)
    ensures
        ({
            let e1 = r11 * d1 + r12 * d2 + r13 * d3;
            let e2 = r21 * d1 + r22 * d2 + r23 * d3;
            let e3 = r31 * d1 + r32 * d2 + r33 * d3;
            let g11 = r11 * r11 + r21 * r21 + r31 * r31;
            let g22 = r12 * r12 + r22 * r22 + r32 * r32;
            let g33 = r13 * r13 + r23 * r23 + r33 * r33;
            let g12 = r11 * r12 + r21 * r22 + r31 * r32;
            let g13 = r11 * r13 + r21 * r23 + r31 * r33;
            let g23 = r12 * r13 + r22 * r23 + r32 * r33;
            e1 * e1 + e2 * e2 + e3 * e3 == g11 * (d1 * d1) + g22 * (d2 * d2) + g33 * (d3 * d3) + 2
                * (g12 * (d1 * d2)) + 2 * (g13 * (d1 * d3)) + 2 * (g23 * (d2 * d3))
        }),
{
    lemma_square_of_row(r11, r12, r13, d1, d2, d3);
    lemma_square_of_row(r21, r22, r23, d1, d2, d3);
    lemma_square_of_row(r31, r32, r33, d1, d2, d3);
    lemma_sum_of_three(r11 * r11, r21 * r21, r31 * r31, d1 * d1);
    lemma_sum_of_three(r12 * r12, r22 * r22, r32 * r32, d2 * d2);
    lemma_sum_of_three(r13 * r13, r23 * r23, r33 * r33, d3 * d3);
    lemma_sum_of_three(r11 * r12, r21 * r22, r31 * r32, d1 * d2);
    lemma_sum_of_three(r11 * r13, r21 * r23, r31 * r33, d1 * d3);
    lemma_sum_of_three(r12 * r13, r22 * r23, r32 * r33, d2 * d3);
}

/// A sum of three numbers times a fourth.
proof fn lemma_sum_of_three(a: int, b: int, c: int, k: int)
    by (nonlinear_arith)
    ensures
        (a + b + c) * k == a * k + b * k + c * k,
{
}

/// The square of one coordinate of a vector turned by a matrix.
proof fn lemma_square_of_row(r1: int, r2: int, r3: int, d1: int, d2: int, d3: int)
    ensures
        (r1 * d1 + r2 * d2 + r3 * d3) * (r1 * d1 + r2 * d2 + r3 * d3) == (r1 * r1) * (d1 * d1) + (r2
            * r2) * (d2 * d2) + (r3 * r3) * (d3 * d3) + 2 * ((r1 * r2) * (d1 * d2)) + 2 * ((r1
            * r3) * (d1 * d3)) + 2 * ((r2 * r3) * (d2 * d3)),
{
    let t1 = r1 * d1;
    let t2 = r2 * d2;
    let t3 = r3 * d3;
    assert((t1 + t2 + t3) * (t1 + t2 + t3) == t1 * t1 + t2 * t2 + t3 * t3 + 2 * (t1 * t2) + 2 * (t1
        * t3) + 2 * (t2 * t3)) by (nonlinear_arith);
    lemma_cross(r1, d1, r1, d1);
    lemma_cross(r2, d2, r2, d2);
    lemma_cross(r3, d3, r3, d3);
    lemma_cross(r1, d1, r2, d2);
    lemma_cross(r1, d1, r3, d3);
    lemma_cross(r2, d2, r3, d3);
}

/// One coordinate of the weighted difference of two images, in terms of
/// the weighted difference of the two points: with `r*` a row of the
/// rotation matrix, `s` the shift and `u` the factor of the weights.
proof fn lemma_difference_of_images(
    r1: int,
    r2: int,
    r3: int,
    s: int,
    u: int,
    px: int,
    py: int,
    pz: int,
    pw: int,
    qx: int,
    qy: int,
    qz: int,
    qw: int,
)
    ensures
        (r1 * qx + r2 * qy + r3 * qz + 2 * (s * qw)) * (pw * u) - (r1 * px + r2 * py + r3 * pz + 2
            * (s * pw)) * (qw * u) == u * (r1 * (qx * pw - px * qw) + r2 * (qy * pw - py * qw)
            + r3 * (qz * pw - pz * qw)),
{
    let a = r1 * qx + r2 * qy + r3 * qz;
    let b = r1 * px + r2 * py + r3 * pz;
    let sq = s * qw;
    let sp = s * pw;
    let pu = pw * u;
    let qu = qw * u;
    assert((a + 2 * sq) * pu == a * pu + 2 * (sq * pu)) by (nonlinear_arith);
    assert((b + 2 * sp) * qu == b * qu + 2 * (sp * qu)) by (nonlinear_arith);
    assert(sq * pu == sp * qu) by (nonlinear_arith)
        requires
            sq == s * qw,
            sp == s * pw,
            pu == pw * u,
            qu == qw * u,
    ;
    lemma_monomial(a, pw, u);
    lemma_monomial(b, qw, u);
    assert(a * pw == (r1 * qx) * pw + (r2 * qy) * pw + (r3 * qz) * pw) by (nonlinear_arith)
        requires
            a == r1 * qx + r2 * qy + r3 * qz,
    ;
    assert(b * qw == (r1 * px) * qw + (r2 * py) * qw + (r3 * pz) * qw) by (nonlinear_arith)
        requires
            b == r1 * px + r2 * py + r3 * pz,
    ;
    lemma_monomial(r1, qx, pw);
    lemma_monomial(r2, qy, pw);
    lemma_monomial(r3, qz, pw);
    lemma_monomial(r1, px, qw);
    lemma_monomial(r2, py, qw);
    lemma_monomial(r3, pz, qw);
    let x1 = qx * pw;
    let y1 = px * qw;
    let x2 = qy * pw;
    let y2 = py * qw;
    let x3 = qz * pw;
    let y3 = pz * qw;
    assert(r1 * (x1 - y1) == r1 * x1 - r1 * y1 && r2 * (x2 - y2) == r2 * x2 - r2 * y2 && r3 * (x3
        - y3) == r3 * x3 - r3 * y3) by (nonlinear_arith);
    let ap = a * pw;
    let bq = b * qw;
    assert(u * (ap - bq) == u * ap - u * bq) by (nonlinear_arith);
}

/// A motor whose rotation part has length `one` keeps the distance
/// between any two points: the separation of the images is that of the
/// points, times the fourth power of `one * one`, as the weights of the
/// images are those of the points times `one * one`.
pub proof fn lemma_transform_keeps_distance(m: ExactMotor, p: ExactPoint, q: ExactPoint, one: int)
    requires
        m.is_unit(one),
    ensures
        ({
            let u = one * one;
            m.transform(p, one).separation(m.transform(q, one)) == ((u * u) * (u * u))
                * p.separation(q)
        }),
{
    broadcast use vstd::arithmetic::mul::group_mul_basics;
    let u = one * one;
    let r = m.rotation();
    let d = p.minus(q);
    let image = m.transform(p, one).minus(m.transform(q, one));
    lemma_unit_transform(m, p, one);
    lemma_unit_transform(m, q, one);
    lemma_difference_of_images(
        r.xx, r.xy, r.xz, m.shift_x(), u, p.x, p.y, p.z, p.w, q.x, q.y, q.z, q.w,
    );
    lemma_difference_of_images(
        r.yx, r.yy, r.yz, m.shift_y(), u, p.x, p.y, p.z, p.w, q.x, q.y, q.z, q.w,
    );
    lemma_difference_of_images(
        r.zx, r.zy, r.zz, m.shift_z(), u, p.x, p.y, p.z, p.w, q.x, q.y, q.z, q.w,
    );
    let e1 = r.xx * d.x + r.xy * d.y + r.xz * d.z;
    let e2 = r.yx * d.x + r.yy * d.y + r.yz * d.z;
    let e3 = r.zx * d.x + r.zy * d.y + r.zz * d.z;
    assert(image.x == u * e1 && image.y == u * e2 && image.z == u * e3);
    lemma_cross(u, e1, u, e1);
    lemma_cross(u, e2, u, e2);
    lemma_cross(u, e3, u, e3);
    lemma_rotation_is_orthogonal(m);
    lemma_quadratic_form(r.xx, r.xy, r.xz, r.yx, r.yy, r.yz, r.zx, r.zy, r.zz, d.x, d.y, d.z);
    let g = m.rotation().transposed().product(m.rotation());
    assert(g.xx == u * u && g.yy == u * u && g.zz == u * u && g.xy == 0 && g.xz == 0 && g.yz == 0);
    let uu = u * u;
    let s1 = e1 * e1;
    let s2 = e2 * e2;
    let s3 = e3 * e3;
    let n1 = d.x * d.x;
    let n2 = d.y * d.y;
    let n3 = d.z * d.z;
    assert(s1 + s2 + s3 == uu * n1 + uu * n2 + uu * n3);
    assert(uu * s1 + uu * s2 + uu * s3 == uu * (uu * (n1 + n2 + n3))) by (nonlinear_arith)
        requires
            s1 + s2 + s3 == uu * n1 + uu * n2 + uu * n3,
    ;
    lemma_monomial(uu, uu, n1 + n2 + n3);
}

} // verus!
