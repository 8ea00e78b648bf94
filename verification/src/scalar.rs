//! Fixed-point scalars and the rounding rule shared by every operation.

use vstd::prelude::*;

verus! {

/// Number of fractional bits of a [`Scalar`].
pub const FRACTION_BITS: u32 = 20;

/// The raw value that stands for the number one.
pub const ONE_RAW: i32 = 1048576;

/// Half of [`ONE_RAW`].
pub const HALF_RAW: i32 = 524288;

/// The square of [`ONE_RAW`]: the unit of a product of two raw values.
pub const ONE_SQUARED: i64 = 1099511627776;

/// The largest raw value; valid scalars lie within `-MAX_RAW ..= MAX_RAW`.
pub const MAX_RAW: i32 = 2147483647;

/// The absolute value.
pub open spec fn magnitude(v: int) -> int {
    if v >= 0 {
        v
    } else {
        -v
    }
}

/// The quotient `n / d` rounded to the nearest integer, halves away from
/// zero, for `d != 0`.
pub open spec fn round_div(n: int, d: int) -> int {
    let r = (2 * magnitude(n) + magnitude(d)) / (2 * magnitude(d));
    if (n < 0) == (d < 0) {
        r
    } else {
        -r
    }
}

/// `v` brought into the symmetric range `-MAX_RAW ..= MAX_RAW`.
pub open spec fn clamp(v: int) -> int {
    if v > MAX_RAW {
        MAX_RAW as int
    } else if v < -MAX_RAW {
        -MAX_RAW
    } else {
        v
    }
}

/// The raw value stored for the exact quotient `n / d`: the quotient rounded
/// to the nearest integer and clamped. A zero divisor saturates by the sign
/// of `n`.
pub open spec fn quantize(n: int, d: int) -> int {
    if d == 0 {
        if n > 0 {
            MAX_RAW as int
        } else if n < 0 {
            -MAX_RAW
        } else {
            0
        }
    } else {
        clamp(round_div(n, d))
    }
}

/// The rounded quotient is not negative, and no larger than the dividend
/// is far from zero, plus one.
pub proof fn lemma_round_div_bounded(n: int, d: int)
    requires
        d != 0,
    ensures
        0 <= (2 * magnitude(n) + magnitude(d)) / (2 * magnitude(d)) <= magnitude(n) + 1,
{
    let a = magnitude(n);
    let b = magnitude(d);
    assert(0 <= (2 * a + b) / (2 * b) <= a + 1) by (nonlinear_arith)
        requires
            a >= 0,
            b >= 1,
    ;
}

/// Rounding costs at most half a raw unit: where the quotient is in
/// range, what is stored, times the divisor, differs from the dividend by
/// at most half the divisor.
pub proof fn lemma_quantize_error(n: int, d: int)
    requires
        d > 0,
        -MAX_RAW * d <= n <= MAX_RAW * d,
    ensures
        -d <= 2 * (quantize(n, d) * d - n) <= d,
{
    let m = MAX_RAW as int;
    let a = magnitude(n);
    let q = (2 * a + d) / (2 * d);
    assert((-m) * d == -(m * d)) by (nonlinear_arith);
    assert(2 * (q * d) <= 2 * a + d < 2 * (q * d) + 2 * d && 0 <= q <= m) by (nonlinear_arith)
        requires
            q == (2 * a + d) / (2 * d),
            d > 0,
            0 <= a <= m * d,
    ;
    assert((-q) * d == -(q * d)) by (nonlinear_arith);
}

/// Storing the negated dividend stores the negated value.
pub proof fn lemma_quantize_neg(n: int, d: int)
    ensures
        quantize(-n, d) == -quantize(n, d),
{
    if d != 0 && n == 0 {
        lemma_quantize_zero(d);
    }
}

/// A zero dividend is stored as zero.
pub proof fn lemma_quantize_zero(d: int)
    ensures
        quantize(0, d) == 0,
{
    if d != 0 {
        let b = magnitude(d);
        assert(b / (2 * b) == 0) by (nonlinear_arith)
            requires
                b >= 1,
        ;
    }
}

/// A multiple of a positive divisor is stored exactly, up to clamping.
pub proof fn lemma_quantize_multiple(v: int, d: int)
    requires
        d > 0,
    ensures
        quantize(v * d, d) == clamp(v),
{
    let a = magnitude(v);
    assert(magnitude(v * d) == a * d && ((v * d < 0) == (v < 0)) && (2 * (a * d) + d) / (2 * d)
        == a) by (nonlinear_arith)
        requires
            d > 0,
            a == magnitude(v),
    ;
}

/// `r` is the largest integer whose square does not exceed `n`.
pub open spec fn is_floor_sqrt(r: int, n: int) -> bool {
    0 <= r && r * r <= n < (r + 1) * (r + 1)
}

/// The largest integer whose square does not exceed `n`, for `n >= 0`.
pub closed spec fn floor_sqrt(n: int) -> int {
    choose|r: int| is_floor_sqrt(r, n)
}

/// At most one integer is the floor of a square root.
pub proof fn lemma_floor_sqrt_unique(r: int, n: int)
    requires
        is_floor_sqrt(r, n),
    ensures
        floor_sqrt(n) == r,
{
    let s = floor_sqrt(n);
    assert(is_floor_sqrt(s, n));
    assert(s == r) by (nonlinear_arith)
        requires
            0 <= r,
            r * r <= n < (r + 1) * (r + 1),
            0 <= s,
            s * s <= n < (s + 1) * (s + 1),
    ;
}

/// The raw value nearest to `v` that stands for a whole number, halves
/// rounded away from zero.
pub open spec fn round_raw(v: int) -> int {
    if v >= 0 {
        clamp((v + HALF_RAW) / (ONE_RAW as int) * ONE_RAW)
    } else {
        -clamp((HALF_RAW - v) / (ONE_RAW as int) * ONE_RAW)
    }
}

/// A signed fixed-point number: `raw / 1048576`. Every scalar that the
/// library makes is valid: its raw value is not the least of its type, so
/// that the range is symmetric and negating is exact.
#[derive(Clone, Copy, Debug, PartialEq, Eq, Structural)]
pub struct Scalar {
    pub raw: i32,
}

impl View for Scalar {
    type V = int;

    /// The raw value as a mathematical integer.
    open spec fn view(&self) -> int {
        self.raw as int
    }
}

impl Scalar {
    /// The scalar stored for the exact quotient `n / d`.
    pub open spec fn of(n: int, d: int) -> Scalar {
        Scalar { raw: quantize(n, d) as i32 }
    }

    /// The raw value lies within `-MAX_RAW ..= MAX_RAW`.
    pub open spec fn is_valid(self) -> bool {
        -MAX_RAW <= self@
    }

    /// The scalar with the given raw value; the least raw value, the one
    /// without a negative, gives the least valid scalar.
    pub fn from_raw(raw: i32) -> (r: Scalar)
        ensures
            r@ == clamp(raw as int),
            r.is_valid(),
    {
        if raw == i32::MIN {
            Scalar { raw: -MAX_RAW }
        } else {
            Scalar { raw }
        }
    }

    /// The scalar that stands for the whole number `i`, clamped where `i`
    /// is out of range.
    pub fn from_int(i: i16) -> (r: Scalar)
        ensures
            r@ == clamp(i * ONE_RAW),
            r.is_valid(),
    {
        let wide: i64 = (i as i64) * (ONE_RAW as i64);
        if wide > MAX_RAW as i64 {
            Scalar { raw: MAX_RAW }
        } else if wide < -(MAX_RAW as i64) {
            Scalar { raw: -MAX_RAW }
        } else {
            Scalar { raw: wide as i32 }
        }
    }

    /// Zero.
    pub fn zero() -> (r: Scalar)
        ensures
            r@ == 0,
    {
        Scalar { raw: 0 }
    }

    /// One.
    pub fn one() -> (r: Scalar)
        ensures
            r@ == ONE_RAW,
    {
        Scalar { raw: ONE_RAW }
    }

    /// What [`Scalar::negated`] returns.
    pub open spec fn spec_negated(self) -> Scalar {
        Scalar::of(-self@, 1)
    }

    /// The negated scalar; the one raw value whose negation is out of
    /// range gives the largest scalar.
    #[verifier::when_used_as_spec(spec_negated)]
    pub fn negated(self) -> (r: Scalar)
        ensures
            r == self.spec_negated(),
            r@ == clamp(-self@),
    {
        proof {
            let a = magnitude(-self@);
            assert(magnitude(1) == 1);
            assert((2 * a + 1) / 2 == a);
        }
        if self.raw == i32::MIN {
            Scalar { raw: MAX_RAW }
        } else {
            Scalar { raw: -self.raw }
        }
    }

    /// What [`Scalar::round`] returns.
    pub open spec fn spec_round(self) -> Scalar {
        Scalar { raw: round_raw(self@) as i32 }
    }

    /// What [`Scalar::sqrt`] returns.
    pub open spec fn spec_sqrt(self) -> Scalar {
        if self@ <= 0 {
            Scalar { raw: 0 }
        } else {
            Scalar { raw: floor_sqrt(self@ * ONE_RAW) as i32 }
        }
    }

    /// The nearest whole number, halves rounded away from zero; clamped
    /// where the nearest whole number is out of range.
    #[verifier::when_used_as_spec(spec_round)]
    pub fn round(self) -> (r: Scalar)
        ensures
            r == self.spec_round(),
            r@ == round_raw(self@),
    {
        let v: i64 = self.raw as i64;
        let half: i64 = HALF_RAW as i64;
        let one: i64 = ONE_RAW as i64;
        if v >= 0 {
            let t: i64 = (v + half) / one * one;
            if t > MAX_RAW as i64 {
                Scalar { raw: MAX_RAW }
            } else {
                Scalar { raw: t as i32 }
            }
        } else {
            let t: i64 = (half - v) / one * one;
            if t > MAX_RAW as i64 {
                Scalar { raw: -MAX_RAW }
            } else {
                Scalar { raw: (-t) as i32 }
            }
        }
    }

    /// The square root, rounded down to the grid; zero for a scalar that
    /// is not positive.
    #[verifier::when_used_as_spec(spec_sqrt)]
    pub fn sqrt(self) -> (r: Scalar)
        ensures
            r == self.spec_sqrt(),
            self@ > 0 ==> is_floor_sqrt(r@, self@ * ONE_RAW),
    {
        if self.raw <= 0 {
            return Scalar { raw: 0 };
        }
        let n: u64 = (self.raw as u64) * (ONE_RAW as u64);
        let mut lo: u64 = 0;
        let mut hi: u64 = 0x400_0000;
        assert(lo * lo <= n < hi * hi) by (nonlinear_arith)
            requires
                lo == 0,
                hi == 0x400_0000,
                n < 0x8_0000_0000_0000,
        ;
        while hi - lo > 1
            invariant
                lo < hi <= 0x400_0000,
                lo * lo <= n < hi * hi,
            decreases hi - lo,
        {
            let mid: u64 = lo + (hi - lo) / 2;
            assert(mid * mid < 0x10_0000_0000_0000) by (nonlinear_arith)
                requires
                    mid < 0x400_0000,
            ;
            if mid * mid <= n {
                lo = mid;
            } else {
                hi = mid;
            }
        }
        proof {
            lemma_floor_sqrt_unique(lo as int, n as int);
        }
        Scalar { raw: lo as i32 }
    }

    /// Rounds the exact quotient `n / d` to the nearest raw value and
    /// stores it.
    pub(crate) fn from_ratio(n: i128, d: i128) -> (r: Scalar)
        requires
            -0x1000_0000_0000_0000_0000_0000_0000_0000 <= n <= 0x1000_0000_0000_0000_0000_0000_0000_0000,
            -0x1000_0000_0000_0000_0000_0000_0000_0000 <= d <= 0x1000_0000_0000_0000_0000_0000_0000_0000,
        ensures
            r == Scalar::of(n as int, d as int),
            r@ == quantize(n as int, d as int),
            r.is_valid(),
            r@ <= MAX_RAW,
    {
        if d == 0 {
            if n > 0 {
                Scalar { raw: MAX_RAW }
            } else if n < 0 {
                Scalar { raw: -MAX_RAW }
            } else {
                Scalar { raw: 0 }
            }
        } else {
            proof {
                lemma_round_div_bounded(n as int, d as int);
            }
            let a: i128 = if n >= 0 { n } else { -n };
            let b: i128 = if d >= 0 { d } else { -d };
            let q: i128 = (2 * a + b) / (2 * b);
            let same: bool = (n < 0) == (d < 0);
            if q > MAX_RAW as i128 {
                if same {
                    Scalar { raw: MAX_RAW }
                } else {
                    Scalar { raw: -MAX_RAW }
                }
            } else if same {
                Scalar { raw: q as i32 }
            } else {
                Scalar { raw: (-q) as i32 }
            }
        }
    }
}

/// The exact product of two scalars, in units of the square of a raw unit.
pub(crate) fn prod(a: Scalar, b: Scalar) -> (r: i128)
    ensures
        r == a@ * b@,
        -0x4000_0000_0000_0000 <= r <= 0x4000_0000_0000_0000,
{
    let x: i128 = a.raw as i128;
    let y: i128 = b.raw as i128;
    assert(-0x4000_0000_0000_0000 <= x * y <= 0x4000_0000_0000_0000) by (nonlinear_arith)
        requires
            -0x8000_0000 <= x <= 0x7fff_ffff,
            -0x8000_0000 <= y <= 0x7fff_ffff,
    ;
    x * y
}

/// The exact product of a scalar and a wide intermediate value.
pub(crate) fn scale(a: Scalar, t: i128) -> (r: i128)
    requires
        -0x1_0000_0000_0000_0000_0000 <= t <= 0x1_0000_0000_0000_0000_0000,
    ensures
        r == a@ * t,
        -0x8000_0000_0000_0000_0000_0000_0000 <= r <= 0x8000_0000_0000_0000_0000_0000_0000,
{
    let x: i128 = a.raw as i128;
    assert(-0x8000_0000_0000_0000_0000_0000_0000 <= x * t <= 0x8000_0000_0000_0000_0000_0000_0000)
        by (nonlinear_arith)
        requires
            -0x8000_0000 <= x <= 0x7fff_ffff,
            -0x1_0000_0000_0000_0000_0000 <= t <= 0x1_0000_0000_0000_0000_0000,
    ;
    x * t
}

} // verus!
