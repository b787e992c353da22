//! A decimal fixed-point scalar.
//!
//! A [`Fixed`] counts millionths: the value `raw / 1_000_000`. Sums,
//! differences, products and quotients are exact where the result fits and
//! saturate at the ends of the `i64` range where it does not; products and
//! quotients round toward zero.

use crate::scalar::Scalar;
use vstd::prelude::*;

verus! {

/// How many units of `raw` make one.
pub const SCALE: i64 = 1_000_000;

/// The number `raw / 1_000_000`.
#[derive(Clone, Copy, Debug, PartialEq, Eq, Structural)]
pub struct Fixed {
    pub raw: i64,
}

/// `v`, or the end of the `i64` range nearest to it.
pub open spec fn saturate(v: int) -> i64 {
    if v < i64::MIN {
        i64::MIN
    } else if v > i64::MAX {
        i64::MAX
    } else {
        v as i64
    }
}

/// `n / d` rounded toward zero, for `d != 0`.
pub open spec fn quotient(n: int, d: int) -> int {
    if n >= 0 && d > 0 {
        n / d
    } else if n >= 0 {
        -(n / (-d))
    } else if d > 0 {
        -((-n) / d)
    } else {
        (-n) / (-d)
    }
}

fn narrow(v: i128) -> (r: i64)
    ensures
        r == saturate(v as int),
{
    if v < i64::MIN as i128 {
        i64::MIN
    } else if v > i64::MAX as i128 {
        i64::MAX
    } else {
        v as i64
    }
}

fn divide(n: i128, d: i128) -> (r: i128)
    requires
        d != 0,
        -0x4000_0000_0000_0000_0000_0000_0000_0000 <= n <= 0x4000_0000_0000_0000_0000_0000_0000_0000,
        -0x4000_0000_0000_0000_0000_0000_0000_0000 <= d <= 0x4000_0000_0000_0000_0000_0000_0000_0000,
    ensures
        r == quotient(n as int, d as int),
{
    if n >= 0 && d > 0 {
        n / d
    } else if n >= 0 {
        let q: i128 = n / (-d);
        -q
    } else if d > 0 {
        let q: i128 = (-n) / d;
        -q
    } else {
        (-n) / (-d)
    }
}

impl Scalar for Fixed {
    open spec fn zero_spec() -> Self {
        Fixed { raw: 0 }
    }

    open spec fn one_spec() -> Self {
        Fixed { raw: SCALE }
    }

    open spec fn from_count_spec(n: usize) -> Self {
        Fixed { raw: saturate(n * SCALE) }
    }

    open spec fn add_spec(self, rhs: Self) -> Self {
        Fixed { raw: saturate(self.raw + rhs.raw) }
    }

    open spec fn sub_spec(self, rhs: Self) -> Self {
        Fixed { raw: saturate(self.raw - rhs.raw) }
    }

    open spec fn mul_spec(self, rhs: Self) -> Self {
        Fixed { raw: saturate(quotient(self.raw * rhs.raw, SCALE as int)) }
    }

    /// Division by zero saturates in the direction of the dividend's sign,
    /// and zero divided by zero is zero.
    open spec fn div_spec(self, rhs: Self) -> Self {
        if rhs.raw == 0 {
            if self.raw > 0 {
                Fixed { raw: i64::MAX }
            } else if self.raw < 0 {
                Fixed { raw: i64::MIN }
            } else {
                Fixed { raw: 0 }
            }
        } else {
            Fixed { raw: saturate(quotient(self.raw * SCALE, rhs.raw as int)) }
        }
    }

    open spec fn le_spec(self, rhs: Self) -> bool {
        self.raw <= rhs.raw
    }

    fn zero() -> (r: Self) {
        Fixed { raw: 0 }
    }

    fn one() -> (r: Self) {
        Fixed { raw: SCALE }
    }

    fn from_count(n: usize) -> (r: Self) {
        let scale: i128 = SCALE as i128;
        assert(scale == 1_000_000);
        let wide: i128 = (n as i128) * scale;
        Fixed { raw: narrow(wide) }
    }

    fn add(self, rhs: Self) -> (r: Self) {
        let wide: i128 = self.raw as i128 + rhs.raw as i128;
        Fixed { raw: narrow(wide) }
    }

    fn sub(self, rhs: Self) -> (r: Self) {
        let wide: i128 = self.raw as i128 - rhs.raw as i128;
        Fixed { raw: narrow(wide) }
    }

    fn mul(self, rhs: Self) -> (r: Self) {
        let a: i128 = self.raw as i128;
        let b: i128 = rhs.raw as i128;
        assert(-0x4000_0000_0000_0000_0000_0000_0000_0000 <= a * b
            <= 0x4000_0000_0000_0000_0000_0000_0000_0000) by (nonlinear_arith)
            requires
                -0x8000_0000_0000_0000 <= a <= 0x8000_0000_0000_0000,
                -0x8000_0000_0000_0000 <= b <= 0x8000_0000_0000_0000,
        ;
        let wide: i128 = a * b;
        let scale: i128 = SCALE as i128;
        assert(scale == 1_000_000);
        Fixed { raw: narrow(divide(wide, scale)) }
    }

    fn div(self, rhs: Self) -> (r: Self) {
        if rhs.raw == 0 {
            if self.raw > 0 {
                Fixed { raw: i64::MAX }
            } else if self.raw < 0 {
                Fixed { raw: i64::MIN }
            } else {
                Fixed { raw: 0 }
            }
        } else {
            let scale: i128 = SCALE as i128;
            assert(scale == 1_000_000);
            let wide: i128 = (self.raw as i128) * scale;
            Fixed { raw: narrow(divide(wide, rhs.raw as i128)) }
        }
    }

    fn le(self, rhs: Self) -> (r: bool) {
        self.raw <= rhs.raw
    }
}

} // verus!
