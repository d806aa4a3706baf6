//! Vectors of fixed-point components.

use vstd::prelude::*;
use crate::fixed::{Fixed, saturate, sum, product};

verus! {

/// What a [`Vector2`] stands for: two raw fixed-point values.
pub struct Pair {
    pub x: int,
    pub y: int,
}

/// A displacement on the screen, in pixels.
#[derive(Clone, Copy, Debug, PartialEq, Eq, Structural)]
pub struct Vector2 {
    pub x: Fixed,
    pub y: Fixed,
}

impl View for Vector2 {
    type V = Pair;

    open spec fn view(&self) -> Pair {
        Pair { x: self.x@, y: self.y@ }
    }
}

/// What a [`Vector3`] stands for: three raw fixed-point values.
pub struct Triple {
    pub x: int,
    pub y: int,
    pub z: int,
}

/// A point or direction in world space.
#[derive(Clone, Copy, Debug, PartialEq, Eq, Structural)]
pub struct Vector3 {
    pub x: Fixed,
    pub y: Fixed,
    pub z: Fixed,
}

impl View for Vector3 {
    type V = Triple;

    open spec fn view(&self) -> Triple {
        Triple { x: self.x@, y: self.y@, z: self.z@ }
    }
}

/// Component-wise fixed-point sum.
pub open spec fn added(a: Triple, b: Triple) -> Triple {
    Triple { x: sum(a.x, b.x), y: sum(a.y, b.y), z: sum(a.z, b.z) }
}

/// Every component multiplied by the fixed-point factor `k`.
pub open spec fn scaled(v: Triple, k: int) -> Triple {
    Triple { x: product(v.x, k), y: product(v.y, k), z: product(v.z, k) }
}

impl Vector3 {
    /// The origin.
    pub fn zero() -> (v: Vector3)
        ensures
            v@ == (Triple { x: 0, y: 0, z: 0 }),
    {
        Vector3 { x: Fixed::zero(), y: Fixed::zero(), z: Fixed::zero() }
    }

    /// `self + rhs`, component by component.
    pub fn plus(self, rhs: Vector3) -> (v: Vector3)
        ensures
            v@ == added(self@, rhs@),
    {
        Vector3 { x: self.x.plus(rhs.x), y: self.y.plus(rhs.y), z: self.z.plus(rhs.z) }
    }

    /// `self` with every component multiplied by `k`.
    pub fn times(self, k: Fixed) -> (v: Vector3)
        ensures
            v@ == scaled(self@, k@),
    {
        Vector3 { x: self.x.times(k), y: self.y.times(k), z: self.z.times(k) }
    }
}

/// Whether `r` is the square root of `n`, rounded down.
pub open spec fn is_root(r: int, n: int) -> bool {
    0 <= r && r * r <= n < (r + 1) * (r + 1)
}

/// The square root of `n`, rounded down. Meaningful for `n >= 0`.
pub open spec fn root(n: int) -> int {
    choose|r: int| is_root(r, n)
}

/// The Euclidean length of `v`, rounded down to a raw value.
pub open spec fn length(v: Triple) -> int {
    saturate(root(v.x * v.x + v.y * v.y + v.z * v.z))
}

/// A number that is the square root of `n`, rounded down, is [`root`] of `n`.
pub proof fn lemma_root_unique(r: int, n: int)
    requires
        is_root(r, n),
    ensures
        root(n) == r,
{
    let s = root(n);
    if r < s {
        assert((r + 1) * (r + 1) <= s * s) by (nonlinear_arith)
            requires
                0 <= r,
                r + 1 <= s,
        ;
    } else if s < r {
        assert((s + 1) * (s + 1) <= r * r) by (nonlinear_arith)
            requires
                0 <= s,
                s + 1 <= r,
        ;
    }
}

/// The square of a 64-bit magnitude fits in 126 bits.
proof fn lemma_square_fits(a: int)
    requires
        0 <= a <= 0x8000_0000_0000_0000,
    ensures
        0 <= a * a <= 0x4000_0000_0000_0000_0000_0000_0000_0000,
{
    assert(0 <= a * a <= 0x4000_0000_0000_0000_0000_0000_0000_0000) by (nonlinear_arith)
        requires
            0 <= a <= 0x8000_0000_0000_0000,
    ;
}

/// The square of a raw value, as an unsigned number.
fn square(a: Fixed) -> (q: u128)
    ensures
        q == a@ * a@,
        q <= 0x4000_0000_0000_0000_0000_0000_0000_0000,
{
    let wide: i128 = a.micro() as i128;
    let magnitude: u128 = if wide < 0 {
        (0 - wide) as u128
    } else {
        wide as u128
    };
    proof {
        lemma_square_fits(magnitude as int);
        assert(magnitude * magnitude == a@ * a@) by (nonlinear_arith)
            requires
                magnitude == a@ || magnitude == -a@,
        ;
    }
    magnitude * magnitude
}

/// The square root of `n`, rounded down, by bisection.
fn integer_root(n: u128) -> (r: u128)
    ensures
        is_root(r as int, n as int),
        r < 0x1_0000_0000_0000_0000,
{
    let mut low: u128 = 0;
    let mut high: u128 = 0x1_0000_0000_0000_0000;
    assert(n < high * high) by (nonlinear_arith)
        requires
            high == 0x1_0000_0000_0000_0000,
            n <= u128::MAX,
    ;
    while high - low > 1
        invariant
            low < high <= 0x1_0000_0000_0000_0000,
            low * low <= n < high * high,
        decreases high - low,
    {
        let middle: u128 = low + (high - low) / 2;
        assert(middle * middle <= 0xffff_ffff_ffff_ffff * 0xffff_ffff_ffff_ffff)
            by (nonlinear_arith)
            requires
                0 <= middle <= 0xffff_ffff_ffff_ffff,
        ;
        if middle * middle <= n {
            low = middle;
        } else {
            high = middle;
        }
    }
    low
}

impl Vector3 {
    /// The Euclidean length, rounded down and saturating.
    pub fn length(self) -> (l: Fixed)
        ensures
            l@ == length(self@),
    {
        let total: u128 = square(self.x) + square(self.y) + square(self.z);
        let r: u128 = integer_root(total);
        proof {
            let n = self@.x * self@.x + self@.y * self@.y + self@.z * self@.z;
            lemma_root_unique(r as int, n);
        }
        if r > i64::MAX as u128 {
            Fixed::from_micro(i64::MAX)
        } else {
            Fixed::from_micro(r as i64)
        }
    }
}

} // verus!
