//! The algebra without rounding.
//!
//! Each type here is the integer counterpart of one of the library's value
//! types, and each function is the polynomial that the operation of the same
//! name evaluates before it rounds. Coordinates are plain integers; where a
//! formula adds terms of different degree, the integer `one` that stands for
//! the number one is a parameter, so that the same polynomial describes raw
//! fixed-point values (`one == 1048576`) and ordinary integers (`one == 1`).

use vstd::prelude::*;

verus! {

/// A homogeneous point `(x, y, z, w)`.
pub struct ExactPoint {
    pub x: int,
    pub y: int,
    pub z: int,
    pub w: int,
}

/// A homogeneous plane `(x, y, z, w)`.
pub struct ExactPlane {
    pub x: int,
    pub y: int,
    pub z: int,
    pub w: int,
}

/// A line: direction `(vx, vy, vz)` and moment `(mx, my, mz)`.
pub struct ExactLine {
    pub vx: int,
    pub vy: int,
    pub vz: int,
    pub mx: int,
    pub my: int,
    pub mz: int,
}

/// A motor: rotation part `(vx, vy, vz, vw)` and translation part
/// `(mx, my, mz, mw)`.
pub struct ExactMotor {
    pub vx: int,
    pub vy: int,
    pub vz: int,
    pub vw: int,
    pub mx: int,
    pub my: int,
    pub mz: int,
    pub mw: int,
}

/// A three-by-three matrix; `xy` is the entry in row `x`, column `y`.
pub struct ExactMatrix {
    pub xx: int,
    pub xy: int,
    pub xz: int,
    pub yx: int,
    pub yy: int,
    pub yz: int,
    pub zx: int,
    pub zy: int,
    pub zz: int,
}

impl ExactMatrix {
    /// The matrix with rows and columns exchanged.
    pub open spec fn transposed(self) -> ExactMatrix {
        ExactMatrix {
            xx: self.xx,
            xy: self.yx,
            xz: self.zx,
            yx: self.xy,
            yy: self.yy,
            yz: self.zy,
            zx: self.xz,
            zy: self.yz,
            zz: self.zz,
        }
    }

    /// The matrix with `k` on the diagonal and zero elsewhere.
    pub open spec fn diagonal(k: int) -> ExactMatrix {
        ExactMatrix { xx: k, xy: 0, xz: 0, yx: 0, yy: k, yz: 0, zx: 0, zy: 0, zz: k }
    }

    /// The matrix product `self * rhs`.
    pub open spec fn product(self, rhs: ExactMatrix) -> ExactMatrix {
        ExactMatrix {
            xx: self.xx * rhs.xx + self.xy * rhs.yx + self.xz * rhs.zx,
            xy: self.xx * rhs.xy + self.xy * rhs.yy + self.xz * rhs.zy,
            xz: self.xx * rhs.xz + self.xy * rhs.yz + self.xz * rhs.zz,
            yx: self.yx * rhs.xx + self.yy * rhs.yx + self.yz * rhs.zx,
            yy: self.yx * rhs.xy + self.yy * rhs.yy + self.yz * rhs.zy,
            yz: self.yx * rhs.xz + self.yy * rhs.yz + self.yz * rhs.zz,
            zx: self.zx * rhs.xx + self.zy * rhs.yx + self.zz * rhs.zx,
            zy: self.zx * rhs.xy + self.zy * rhs.yy + self.zz * rhs.zy,
            zz: self.zx * rhs.xz + self.zy * rhs.yz + self.zz * rhs.zz,
        }
    }
}

impl ExactPoint {
    /// The line through two points.
    pub open spec fn join(self, rhs: ExactPoint) -> ExactLine {
        ExactLine {
            vx: self.w * rhs.x - self.x * rhs.w,
            vy: self.w * rhs.y - self.y * rhs.w,
            vz: self.w * rhs.z - self.z * rhs.w,
            mx: self.y * rhs.z - self.z * rhs.y,
            my: self.z * rhs.x - self.x * rhs.z,
            mz: self.x * rhs.y - self.y * rhs.x,
        }
    }

    /// The line through a point, perpendicular to a plane.
    pub open spec fn expand_plane(self, rhs: ExactPlane) -> ExactLine {
        ExactLine {
            vx: -(self.w * rhs.x),
            vy: -(self.w * rhs.y),
            vz: -(self.w * rhs.z),
            mx: self.z * rhs.y - self.y * rhs.z,
            my: self.x * rhs.z - self.z * rhs.x,
            mz: self.y * rhs.x - self.x * rhs.y,
        }
    }

    /// The plane through a point and a line: the zero plane when the point
    /// lies on the line.
    pub open spec fn expand_line(self, rhs: ExactLine) -> ExactPlane {
        rhs.join(self)
    }

    /// The sum of the products of corresponding coordinates, `w` included.
    pub open spec fn dot(self, rhs: ExactPoint) -> int {
        self.x * rhs.x + self.y * rhs.y + self.z * rhs.z + self.w * rhs.w
    }

    /// The product of the two weights.
    pub open spec fn antidot(self, rhs: ExactPoint) -> int {
        self.w * rhs.w
    }

    /// The weighted sum of two points.
    pub open spec fn plus(self, rhs: ExactPoint) -> ExactPoint {
        ExactPoint {
            x: rhs.x * self.w + self.x * rhs.w,
            y: rhs.y * self.w + self.y * rhs.w,
            z: rhs.z * self.w + self.z * rhs.w,
            w: rhs.w * self.w,
        }
    }

    /// The weighted difference `rhs - self`.
    pub open spec fn minus(self, rhs: ExactPoint) -> ExactPoint {
        ExactPoint {
            x: rhs.x * self.w - self.x * rhs.w,
            y: rhs.y * self.w - self.y * rhs.w,
            z: rhs.z * self.w - self.z * rhs.w,
            w: rhs.w * self.w,
        }
    }

    /// The squared distance between two points, times the squares of both
    /// weights: the squared length of the weighted difference.
    pub open spec fn separation(self, rhs: ExactPoint) -> int {
        let d = self.minus(rhs);
        d.x * d.x + d.y * d.y + d.z * d.z
    }

    /// Every coordinate multiplied by `k`.
    pub open spec fn times(self, k: int) -> ExactPoint {
        ExactPoint { x: k * self.x, y: k * self.y, z: k * self.z, w: k * self.w }
    }
}

impl ExactPlane {
    /// The plane whose four coefficients are zero.
    pub open spec fn zero() -> ExactPlane {
        ExactPlane { x: 0, y: 0, z: 0, w: 0 }
    }

    /// The left side of the plane equation at a point: zero exactly when
    /// the point lies in the plane.
    pub open spec fn at(self, p: ExactPoint) -> int {
        self.x * p.x + self.y * p.y + self.z * p.z + self.w * p.w
    }
}

impl ExactLine {
    /// The plane through a line and a point.
    pub open spec fn join(self, rhs: ExactPoint) -> ExactPlane {
        ExactPlane {
            x: self.vy * rhs.z - self.vz * rhs.y + self.mx * rhs.w,
            y: self.vz * rhs.x - self.vx * rhs.z + self.my * rhs.w,
            z: self.vx * rhs.y - self.vy * rhs.x + self.mz * rhs.w,
            w: -(self.mx * rhs.x + self.my * rhs.y + self.mz * rhs.z),
        }
    }

    /// What a line and a plane have in common: the four coordinates of the
    /// point where the line meets the plane, which are all zero exactly
    /// when the line lies in the plane.
    pub open spec fn expand(self, rhs: ExactPlane) -> ExactPlane {
        ExactPlane {
            x: rhs.y * self.mz - rhs.z * self.my - rhs.w * self.vx,
            y: rhs.z * self.mx - rhs.x * self.mz - rhs.w * self.vy,
            z: rhs.x * self.my - rhs.y * self.mx - rhs.w * self.vz,
            w: rhs.x * self.vx + rhs.y * self.vy + rhs.z * self.vz,
        }
    }

    /// Every coordinate negated.
    pub open spec fn negated(self) -> ExactLine {
        ExactLine {
            vx: -self.vx,
            vy: -self.vy,
            vz: -self.vz,
            mx: -self.mx,
            my: -self.my,
            mz: -self.mz,
        }
    }

    /// The line whose six coordinates are zero.
    pub open spec fn zero() -> ExactLine {
        ExactLine { vx: 0, vy: 0, vz: 0, mx: 0, my: 0, mz: 0 }
    }
}

impl ExactMotor {
    /// The motor that leaves every point where it is.
    pub open spec fn identity(one: int) -> ExactMotor {
        ExactMotor { vx: 0, vy: 0, vz: 0, vw: one, mx: 0, my: 0, mz: 0, mw: 0 }
    }

    /// The motor that moves every point by twice `(mx, my, mz)`.
    pub open spec fn translation(mx: int, my: int, mz: int, one: int) -> ExactMotor {
        ExactMotor { vx: 0, vy: 0, vz: 0, vw: one, mx, my, mz, mw: 0 }
    }

    /// The rotation about the axis `(ax, ay, az)` by the angle whose half
    /// has the sine `sin` and the cosine `cos`, before it is divided by
    /// `one`.
    pub open spec fn axis_rotation(ax: int, ay: int, az: int, sin: int, cos: int, one: int)
        -> ExactMotor {
        ExactMotor {
            vx: ax * sin,
            vy: ay * sin,
            vz: az * sin,
            vw: cos * one,
            mx: 0,
            my: 0,
            mz: 0,
            mw: 0,
        }
    }

    /// The motor has no translation part.
    pub open spec fn is_rotation(self) -> bool {
        self.mx == 0 && self.my == 0 && self.mz == 0 && self.mw == 0
    }

    /// The motor has the rotation part of a translation, and `mw` zero.
    pub open spec fn is_translation(self) -> bool {
        self.vx == 0 && self.vy == 0 && self.vz == 0 && self.mw == 0
    }

    /// The motor product: `self` acts first, `other` second.
    pub open spec fn combine(self, other: ExactMotor) -> ExactMotor {
        ExactMotor {
            vx: other.vx * self.vw + other.vw * self.vx + (other.vy * self.vz - other.vz * self.vy),
            vy: other.vy * self.vw + other.vw * self.vy + (other.vz * self.vx - other.vx * self.vz),
            vz: other.vz * self.vw + other.vw * self.vz + (other.vx * self.vy - other.vy * self.vx),
            vw: other.vw * self.vw - (other.vx * self.vx + other.vy * self.vy + other.vz * self.vz),
            mx: other.mx * self.vw + other.vw * self.mx + other.vy * self.mz - other.mz * self.vy
                + other.my * self.vz - other.vz * self.my + other.mw * self.vx + other.vx
                * self.mw,
            my: other.my * self.vw + other.vw * self.my + other.vz * self.mx - other.mx * self.vz
                + other.mz * self.vx - other.vx * self.mz + other.mw * self.vy + other.vy
                * self.mw,
            mz: other.mz * self.vw + other.vw * self.mz + other.vx * self.my - other.my * self.vx
                + other.mx * self.vy - other.vy * self.mx + other.mw * self.vz + other.vz
                * self.mw,
            mw: other.vw * self.mw + other.mw * self.vw - (other.vx * self.mx + other.mx * self.vx
                + other.vy * self.my + other.my * self.vy + other.vz * self.mz + other.mz
                * self.vz),
        }
    }

    /// The motor product with the factors exchanged: `other` acts first,
    /// `self` second.
    pub open spec fn combine_after(self, other: ExactMotor) -> ExactMotor {
        other.combine(self)
    }

    /// The image of `p`, in units of `1 / one^2` of `p`'s own: the `w` of the
    /// result is `one^2` times that of `p`.
    pub open spec fn transform(self, p: ExactPoint, one: int) -> ExactPoint {
        let ax = self.vy * p.z - self.vz * p.y + p.w * self.mx;
        let ay = self.vz * p.x - self.vx * p.z + p.w * self.my;
        let az = self.vx * p.y - self.vy * p.x + p.w * self.mz;
        ExactPoint {
            x: p.x * (one * one) + 2 * (self.vw * ax + (self.vy * az - self.vz * ay) - self.vx
                * (self.mw * p.w)),
            y: p.y * (one * one) + 2 * (self.vw * ay + (self.vz * ax - self.vx * az) - self.vy
                * (self.mw * p.w)),
            z: p.z * (one * one) + 2 * (self.vw * az + (self.vx * ay - self.vy * ax) - self.vz
                * (self.mw * p.w)),
            w: p.w * (one * one),
        }
    }

    /// The vector parts negated, the scalar parts kept.
    pub open spec fn inverse(self) -> ExactMotor {
        ExactMotor {
            vx: -self.vx,
            vy: -self.vy,
            vz: -self.vz,
            vw: self.vw,
            mx: -self.mx,
            my: -self.my,
            mz: -self.mz,
            mw: self.mw,
        }
    }

    /// Half of the displacement that the motor gives the origin, first
    /// coordinate.
    pub open spec fn shift_x(self) -> int {
        self.vw * self.mx + self.vy * self.mz - self.vz * self.my - self.mw * self.vx
    }

    /// Half of the displacement that the motor gives the origin, second
    /// coordinate.
    pub open spec fn shift_y(self) -> int {
        self.vw * self.my + self.vz * self.mx - self.vx * self.mz - self.mw * self.vy
    }

    /// Half of the displacement that the motor gives the origin, third
    /// coordinate.
    pub open spec fn shift_z(self) -> int {
        self.vw * self.mz + self.vx * self.my - self.vy * self.mx - self.mw * self.vz
    }

    /// The matrix by which the motor rotates, times the squared length of
    /// its rotation part.
    pub open spec fn rotation(self) -> ExactMatrix {
        ExactMatrix {
            xx: self.vw * self.vw + self.vx * self.vx - self.vy * self.vy - self.vz * self.vz,
            xy: 2 * (self.vx * self.vy - self.vz * self.vw),
            xz: 2 * (self.vx * self.vz + self.vy * self.vw),
            yx: 2 * (self.vx * self.vy + self.vz * self.vw),
            yy: self.vw * self.vw - self.vx * self.vx + self.vy * self.vy - self.vz * self.vz,
            yz: 2 * (self.vy * self.vz - self.vx * self.vw),
            zx: 2 * (self.vx * self.vz - self.vy * self.vw),
            zy: 2 * (self.vy * self.vz + self.vx * self.vw),
            zz: self.vw * self.vw - self.vx * self.vx - self.vy * self.vy + self.vz * self.vz,
        }
    }

    /// The translation that takes the origin where the motor takes it, for
    /// a motor whose rotation part has length `one`.
    pub open spec fn factor_translation(self, one: int) -> ExactMotor {
        ExactMotor::translation(self.shift_x(), self.shift_y(), self.shift_z(), one * one)
    }

    /// The motor followed by the inverse of its translation.
    pub open spec fn factor_rotation(self, one: int) -> ExactMotor {
        self.combine(self.factor_translation(one).inverse())
    }

    /// The squared length of the rotation part.
    pub open spec fn norm(self) -> int {
        self.vx * self.vx + self.vy * self.vy + self.vz * self.vz + self.vw * self.vw
    }

    /// The product of the rotation part with the translation part; it is
    /// zero for every motor that is a rotation followed by a translation.
    pub open spec fn coupling(self) -> int {
        self.vx * self.mx + self.vy * self.my + self.vz * self.mz + self.vw * self.mw
    }

    /// The rotation part has length `one`.
    pub open spec fn is_unit(self, one: int) -> bool {
        self.norm() == one * one
    }

    /// Every coordinate multiplied by `k`.
    pub open spec fn times(self, k: int) -> ExactMotor {
        ExactMotor {
            vx: k * self.vx,
            vy: k * self.vy,
            vz: k * self.vz,
            vw: k * self.vw,
            mx: k * self.mx,
            my: k * self.my,
            mz: k * self.mz,
            mw: k * self.mw,
        }
    }
}

} // verus!
