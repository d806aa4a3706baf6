//! Fixed-point scalars.
//!
//! Every real quantity of the viewer (lengths, pixel deltas, scroll amounts,
//! angles, field of view) is a [`Fixed`]: a signed 64-bit count of millionths.
//! Arithmetic rounds toward zero and saturates at the ends of the 64-bit range,
//! so every operation is total and its result is stated exactly over `int`.

use vstd::prelude::*;

verus! {

/// Number of raw units in one whole unit.
pub const SCALE: i64 = 1_000_000;

/// `v` brought into the 64-bit range.
pub open spec fn saturate(v: int) -> int {
    if v < i64::MIN as int {
        i64::MIN as int
    } else if v > i64::MAX as int {
        i64::MAX as int
    } else {
        v
    }
}

/// The quotient of `a` by `b`, rounded toward zero. Meaningful for `b != 0`.
pub open spec fn quotient(a: int, b: int) -> int {
    if a >= 0 {
        a / b
    } else {
        -((-a) / b)
    }
}

/// Fixed-point sum of two raw values.
pub open spec fn sum(a: int, b: int) -> int {
    saturate(a + b)
}

/// Fixed-point difference of two raw values.
pub open spec fn difference(a: int, b: int) -> int {
    saturate(a - b)
}

/// Fixed-point negation of a raw value.
pub open spec fn negation(a: int) -> int {
    saturate(-a)
}

/// Fixed-point product of two raw values.
pub open spec fn product(a: int, b: int) -> int {
    saturate(quotient(a * b, SCALE as int))
}

/// Fixed-point ratio of two raw values. Meaningful for `b != 0`.
pub open spec fn ratio(a: int, b: int) -> int {
    saturate(quotient(a * SCALE as int, b))
}

/// The larger of two raw values.
pub open spec fn larger(a: int, b: int) -> int {
    if a >= b {
        a
    } else {
        b
    }
}

/// A real number held as a count of millionths.
#[derive(Clone, Copy, Debug, PartialEq, Eq, Structural, PartialOrd, Ord, Hash)]
pub struct Fixed {
    /// The value times [`SCALE`].
    pub micro: i64,
}

impl View for Fixed {
    type V = int;

    open spec fn view(&self) -> int {
        self.micro as int
    }
}

/// Brings a wide intermediate result into the 64-bit range.
fn narrow(v: i128) -> (r: i64)
    ensures
        r as int == saturate(v as int),
{
    if v < i64::MIN as i128 {
        i64::MIN
    } else if v > i64::MAX as i128 {
        i64::MAX
    } else {
        v as i64
    }
}

impl Fixed {
    /// The value zero.
    pub fn zero() -> (r: Fixed)
        ensures
            r@ == 0,
    {
        Fixed { micro: 0 }
    }

    /// The value with the given count of millionths.
    pub fn from_micro(micro: i64) -> (r: Fixed)
        ensures
            r@ == micro,
    {
        Fixed { micro }
    }

    /// The whole number `n`.
    pub fn from_int(n: i32) -> (r: Fixed)
        ensures
            r@ == n * SCALE,
    {
        let wide: i64 = n as i64;
        Fixed { micro: wide * SCALE }
    }

    /// The count of millionths.
    pub fn micro(self) -> (m: i64)
        ensures
            m == self@,
    {
        self.micro
    }

    /// Whether the value is exactly zero.
    pub fn is_zero(self) -> (z: bool)
        ensures
            z == (self@ == 0),
    {
        self.micro == 0
    }

    /// `self + rhs`, saturating.
    pub fn plus(self, rhs: Fixed) -> (r: Fixed)
        ensures
            r@ == sum(self@, rhs@),
    {
        Fixed { micro: narrow(self.micro as i128 + rhs.micro as i128) }
    }

    /// `self - rhs`, saturating.
    pub fn minus(self, rhs: Fixed) -> (r: Fixed)
        ensures
            r@ == difference(self@, rhs@),
    {
        Fixed { micro: narrow(self.micro as i128 - rhs.micro as i128) }
    }

    /// `-self`, saturating.
    pub fn negated(self) -> (r: Fixed)
        ensures
            r@ == negation(self@),
    {
        Fixed { micro: narrow(0i128 - self.micro as i128) }
    }

    /// `self * rhs`, rounded toward zero and saturating.
    pub fn times(self, rhs: Fixed) -> (r: Fixed)
        ensures
            r@ == product(self@, rhs@),
    {
        let a: i128 = self.micro as i128;
        let b: i128 = rhs.micro as i128;
        proof {
            lemma_product_fits(a as int, b as int);
        }
        let wide: i128 = a * b;
        Fixed { micro: narrow(wide / (SCALE as i128)) }
    }

    /// `self / rhs`, rounded toward zero and saturating.
    pub fn over(self, rhs: Fixed) -> (r: Fixed)
        requires
            rhs@ != 0,
        ensures
            r@ == ratio(self@, rhs@),
    {
        let a: i128 = self.micro as i128;
        let b: i128 = rhs.micro as i128;
        assert(a * SCALE == a * 1_000_000);
        let wide: i128 = a * (SCALE as i128);
        proof {
            lemma_quotient_bounded(wide as int, b as int);
        }
        Fixed { micro: narrow(wide / b) }
    }

    /// The larger of `self` and `rhs`.
    pub fn at_least(self, rhs: Fixed) -> (r: Fixed)
        ensures
            r@ == larger(self@, rhs@),
    {
        if self.micro >= rhs.micro {
            self
        } else {
            rhs
        }
    }
}

/// A quotient is no larger in magnitude than its dividend.
proof fn lemma_quotient_bounded(a: int, b: int)
    requires
        b != 0,
    ensures
        a >= 0 ==> -a <= a / b <= a,
        a < 0 ==> a <= (-a) / b <= -a,
{
    if a >= 0 {
        assert(-a <= a / b <= a) by (nonlinear_arith)
            requires
                a >= 0,
                b != 0,
        ;
    } else {
        let m = -a;
        assert(-m <= m / b <= m) by (nonlinear_arith)
            requires
                m >= 0,
                b != 0,
        ;
    }
}

/// The product of two 64-bit values fits in 128 bits.
proof fn lemma_product_fits(a: int, b: int)
    requires
        i64::MIN <= a <= i64::MAX,
        i64::MIN <= b <= i64::MAX,
    ensures
        i128::MIN <= a * b <= i128::MAX,
{
    assert(-0x4000_0000_0000_0000_0000_0000_0000_0000 <= a * b
        <= 0x4000_0000_0000_0000_0000_0000_0000_0000) by (nonlinear_arith)
        requires
            -0x8000_0000_0000_0000 <= a <= 0x8000_0000_0000_0000,
            -0x8000_0000_0000_0000 <= b <= 0x8000_0000_0000_0000,
    ;
}

} // verus!
