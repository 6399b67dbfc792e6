//! Fixed-point units and saturating 64-bit arithmetic.
//!
//! Positions, setpoints and gains are carried as signed 64-bit integers in
//! micro-units: [`UNIT`] stands for the value one, so the normalized interval
//! [0, 1] is [0, `UNIT`]. A product of two micro-unit quantities (a gain times
//! an error) lands in the finer product scale, where [`SIGNAL_UNIT`] stands
//! for one; control signals and the deadband half-width live there.
//!
//! All arithmetic saturates at the `i64` range instead of wrapping or
//! panicking, so every operation is total and a controller that has run for an
//! arbitrarily long time still behaves predictably at the extremes.

use vstd::prelude::*;

verus! {

/// One, in the micro-unit scale of positions, setpoints and gains.
pub const UNIT: i64 = 1_000_000;

/// One, in the product scale of control signals and deadbands.
pub const SIGNAL_UNIT: i64 = 1_000_000 * 1_000_000;

/// The mathematical value `x` clamped into the range of `i64`.
pub open spec fn sat64(x: int) -> int {
    if x < i64::MIN as int {
        i64::MIN as int
    } else if x > i64::MAX as int {
        i64::MAX as int
    } else {
        x
    }
}

/// The mathematical value `x` clamped into the normalized interval
/// [0, [`UNIT`]].
pub open spec fn clamp_unit_spec(x: int) -> int {
    if x < 0 {
        0
    } else if x > UNIT as int {
        UNIT as int
    } else {
        x
    }
}

fn clamp_wide(wide: i128) -> (r: i64)
    ensures
        r as int == sat64(wide as int),
{
    if wide > i64::MAX as i128 {
        i64::MAX
    } else if wide < i64::MIN as i128 {
        i64::MIN
    } else {
        wide as i64
    }
}

/// The sum of `a` and `b`, saturating at the `i64` range.
pub fn sat_add64(a: i64, b: i64) -> (r: i64)
    ensures
        r as int == sat64(a + b),
{
    clamp_wide(a as i128 + b as i128)
}

/// The difference `a - b`, saturating at the `i64` range.
pub fn sat_sub64(a: i64, b: i64) -> (r: i64)
    ensures
        r as int == sat64(a - b),
{
    clamp_wide(a as i128 - b as i128)
}

/// The product of `a` and `b`, saturating at the `i64` range.
pub fn sat_mul64(a: i64, b: i64) -> (r: i64)
    ensures
        r as int == sat64(a * b),
{
    proof {
        assert((a as int) * (b as int) <= 0x4000_0000_0000_0000_0000_0000_0000_0000int
            && (a as int) * (b as int) >= -0x4000_0000_0000_0000_0000_0000_0000_0000int)
            by (nonlinear_arith)
            requires
                i64::MIN as int <= a as int <= i64::MAX as int,
                i64::MIN as int <= b as int <= i64::MAX as int,
        ;
    }
    clamp_wide(a as i128 * b as i128)
}

/// `x` clamped into the normalized interval [0, [`UNIT`]].
pub fn clamp_unit(x: i64) -> (r: i64)
    ensures
        r as int == clamp_unit_spec(x as int),
{
    if x < 0 {
        0
    } else if x > UNIT {
        UNIT
    } else {
        x
    }
}

/// A raw 16-bit transducer word normalized into micro-units, by the
/// convention that the full-scale raw value stands for the position one.
pub fn normalize_measurement(raw: u16) -> (measurement: i64)
    ensures
        measurement as int == (raw as int * UNIT as int) / 65535,
        0 <= measurement as int <= UNIT as int,
{
    proof {
        assert((raw as int * UNIT as int) / 65535 <= UNIT as int && 0 <= (raw as int * UNIT
            as int) / 65535) by (nonlinear_arith)
            requires
                0 <= raw as int <= 65535,
        ;
    }
    (raw as i64 * UNIT) / 65535
}

} // verus!
