//! Fixed-point units and the saturating / truncating arithmetic shared by the
//! rest of the crate.
//!
//! Units used throughout:
//! - lengths, speeds and accelerations are in thousandths of a unit;
//! - dimensionless factors are in thousandths as well;
//! - contact-normal components are in millionths (`NORMAL_UNIT`);
//! - durations are in microseconds.

use vstd::prelude::*;

verus! {

/// A 2D velocity in thousandths of a unit per second.
#[derive(Clone, Copy, Debug, PartialEq, Eq, Structural)]
pub struct Velocity {
    pub x: i64,
    pub y: i64,
}

/// A 3D sample (position or velocity) in thousandths of a unit.
#[derive(Clone, Copy, Debug, PartialEq, Eq, Structural)]
pub struct Sample {
    pub x: i64,
    pub y: i64,
    pub z: i64,
}

/// Clamp a mathematical integer into the `i64` range.
pub open spec fn saturate(v: int) -> i64 {
    if v > i64::MAX {
        i64::MAX
    } else if v < i64::MIN {
        i64::MIN
    } else {
        v as i64
    }
}

/// Integer division rounding toward zero (the divisor is positive).
pub open spec fn trunc_div(a: int, d: int) -> int {
    if a >= 0 {
        a / d
    } else {
        -((-a) / d)
    }
}

/// Exec counterpart of `saturate` for values held in an `i128`.
pub fn saturate_i128(v: i128) -> (r: i64)
    ensures
        r == saturate(v as int),
{
    if v > i64::MAX as i128 {
        i64::MAX
    } else if v < i64::MIN as i128 {
        i64::MIN
    } else {
        v as i64
    }
}

/// Exec counterpart of `trunc_div` on `i128`.
pub fn trunc_div_i128(a: i128, d: i128) -> (r: i128)
    requires
        d > 0,
        a > i128::MIN,
    ensures
        r as int == trunc_div(a as int, d as int),
        a >= 0 ==> 0 <= r <= a,
        a < 0 ==> a <= r <= 0,
{
    if a >= 0 {
        assert(a / d <= a) by (nonlinear_arith)
            requires a >= 0, d >= 1;
        a / d
    } else {
        let m: i128 = -a;
        assert(m / d <= m) by (nonlinear_arith)
            requires m >= 0, d >= 1;
        -(m / d)
    }
}

} // verus!
