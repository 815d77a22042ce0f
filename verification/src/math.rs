//! Fixed-point scalars and vectors.
//!
//! Every quantity of the simulation (positions, velocities, input axes, volumes) is a
//! signed 32-bit integer counting thousandths of a unit. All arithmetic saturates at
//! the ends of the 32-bit range, so identical inputs give identical results on every
//! machine.

use vstd::prelude::*;

verus! {

/// Number of raw steps in one whole unit.
pub const SCALE: i32 = 1000;

/// The nearest value to `v` that a raw 32-bit scalar can hold.
pub open spec fn saturate(v: int) -> int {
    if v < i32::MIN as int {
        i32::MIN as int
    } else if v > i32::MAX as int {
        i32::MAX as int
    } else {
        v
    }
}

/// Quotient of `n` by a positive `d`, rounded toward zero.
pub open spec fn trunc_div(n: int, d: int) -> int
    recommends
        d > 0,
{
    if n >= 0 {
        n / d
    } else {
        -((-n) / d)
    }
}

/// Product of two fixed-point scalars, rounded toward zero and saturated.
pub open spec fn fx_mul_spec(a: int, b: int) -> int {
    saturate(trunc_div(a * b, SCALE as int))
}

/// `num / den` of a fixed-point scalar, rounded toward zero and saturated.
pub open spec fn fx_ratio_spec(a: int, num: int, den: int) -> int
    recommends
        den > 0,
{
    saturate(trunc_div(a * num, den))
}

fn clamp_i64(v: i64) -> (r: i32)
    ensures
        r as int == saturate(v as int),
{
    if v < i32::MIN as i64 {
        i32::MIN
    } else if v > i32::MAX as i64 {
        i32::MAX
    } else {
        v as i32
    }
}

fn trunc_div_i64(n: i64, d: i64) -> (q: i64)
    requires
        d > 0,
        n > i64::MIN,
    ensures
        q as int == trunc_div(n as int, d as int),
{
    if n >= 0 {
        ((n as u64) / (d as u64)) as i64
    } else {
        let m: u64 = (-n) as u64;
        -((m / (d as u64)) as i64)
    }
}

/// Saturating negation: the mirror image of `a`, with the one value that has no
/// mirror image mapped to the largest scalar.
pub fn fx_neg(a: i32) -> (r: i32)
    ensures
        r as int == saturate(-(a as int)),
{
    if a == i32::MIN {
        i32::MAX
    } else {
        -a
    }
}

/// Saturating sum.
pub fn fx_add(a: i32, b: i32) -> (r: i32)
    ensures
        r as int == saturate(a as int + b as int),
{
    clamp_i64(a as i64 + b as i64)
}

/// Saturating fixed-point product.
pub fn fx_mul(a: i32, b: i32) -> (r: i32)
    ensures
        r as int == fx_mul_spec(a as int, b as int),
{
    assert(-0x4000_0000_0000_0000 < (a as int) * (b as int) <= 0x4000_0000_0000_0000) by (nonlinear_arith)
        requires
            -0x8000_0000 <= a as int <= 0x7fff_ffff,
            -0x8000_0000 <= b as int <= 0x7fff_ffff,
    ;
    let p: i64 = (a as i64) * (b as i64);
    clamp_i64(trunc_div_i64(p, SCALE as i64))
}

/// Saturating multiplication by the fraction `num / den`.
pub fn fx_ratio(a: i32, num: u16, den: u16) -> (r: i32)
    requires
        den > 0,
    ensures
        r as int == fx_ratio_spec(a as int, num as int, den as int),
{
    assert(-0x8000_0000_0000 < (a as int) * (num as int) < 0x8000_0000_0000) by (nonlinear_arith)
        requires
            -0x8000_0000 <= a as int <= 0x7fff_ffff,
            0 <= num as int <= 0xffff,
    ;
    let p: i64 = (a as i64) * (num as i64);
    clamp_i64(trunc_div_i64(p, den as i64))
}

/// A point or direction in the plane.
#[derive(Clone, Copy, Debug, PartialEq, Eq, Structural)]
pub struct Vec2 {
    pub x: i32,
    pub y: i32,
}

/// A point in the plane together with its draw depth.
#[derive(Clone, Copy, Debug, PartialEq, Eq, Structural)]
pub struct Vec3 {
    pub x: i32,
    pub y: i32,
    pub z: i32,
}

impl Vec2 {
    pub open spec fn zero() -> Vec2 {
        Vec2 { x: 0, y: 0 }
    }

    /// The vector with its horizontal component mirrored when `flip` is set.
    pub open spec fn mirrored_spec(self, flip: bool) -> Vec2 {
        if flip {
            Vec2 { x: saturate(-(self.x as int)) as i32, y: self.y }
        } else {
            self
        }
    }

    /// Component-wise fixed-point product with a scalar.
    pub open spec fn scaled_spec(self, s: i32) -> Vec2 {
        Vec2 {
            x: fx_mul_spec(self.x as int, s as int) as i32,
            y: fx_mul_spec(self.y as int, s as int) as i32,
        }
    }

    pub fn new(x: i32, y: i32) -> (v: Vec2)
        ensures
            v == (Vec2 { x, y }),
    {
        Vec2 { x, y }
    }

    /// Mirrors the horizontal component when `flip` is set; the vertical one is kept.
    pub fn mirrored(self, flip: bool) -> (v: Vec2)
        ensures
            v == self.mirrored_spec(flip),
    {
        if flip {
            Vec2 { x: fx_neg(self.x), y: self.y }
        } else {
            self
        }
    }

    /// Multiplies both components by the fixed-point scalar `s`.
    pub fn scaled(self, s: i32) -> (v: Vec2)
        ensures
            v == self.scaled_spec(s),
    {
        Vec2 { x: fx_mul(self.x, s), y: fx_mul(self.y, s) }
    }

    /// Appends a draw depth.
    pub fn extend(self, z: i32) -> (v: Vec3)
        ensures
            v == (Vec3 { x: self.x, y: self.y, z }),
    {
        Vec3 { x: self.x, y: self.y, z }
    }
}

} // verus!
