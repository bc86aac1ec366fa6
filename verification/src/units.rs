//! Conversions between mechanism angles and native actuator units.
//!
//! An angle in millidegrees maps to motor milli-rotations through a gear
//! ratio given in thousandths: one mechanism revolution is `ratio / 1000`
//! motor rotations, so `native = angle * ratio / 360_000`, rounded toward
//! zero.

use vstd::prelude::*;

use crate::constants::MAX_GEAR_RATIO_MILLI;
use crate::constants::MILLIDEG_PER_REV;

verus! {

/// A gear ratio in thousandths is accepted only when it is positive and
/// within the largest reduction the units fit; zero in particular is a
/// configuration fault, not a usable default.
pub open spec fn valid_gear_ratio(ratio_milli: i64) -> bool {
    1 <= ratio_milli <= MAX_GEAR_RATIO_MILLI
}

/// The native setpoint, in milli-rotations, for a nonnegative angle in
/// millidegrees under a gear ratio in thousandths.
pub open spec fn spec_millideg_to_native(angle_millideg: i64, ratio_milli: i64) -> int {
    angle_millideg * ratio_milli / (MILLIDEG_PER_REV as int)
}

/// Convert a mechanism angle to the native setpoint commanded to the motor.
pub fn millideg_to_native(angle_millideg: i64, ratio_milli: i64) -> (r: i64)
    requires
        0 <= angle_millideg <= MILLIDEG_PER_REV,
        valid_gear_ratio(ratio_milli),
    ensures
        r == spec_millideg_to_native(angle_millideg, ratio_milli),
        0 <= r <= ratio_milli,
{
    proof {
        assert(0 <= angle_millideg * ratio_milli <= MILLIDEG_PER_REV * MAX_GEAR_RATIO_MILLI)
            by (nonlinear_arith)
            requires
                0 <= angle_millideg <= MILLIDEG_PER_REV,
                1 <= ratio_milli <= MAX_GEAR_RATIO_MILLI,
        ;
        assert(angle_millideg * ratio_milli / (MILLIDEG_PER_REV as int)
            <= MILLIDEG_PER_REV * ratio_milli / (MILLIDEG_PER_REV as int)) by (nonlinear_arith)
            requires
                0 <= angle_millideg <= MILLIDEG_PER_REV,
                1 <= ratio_milli,
                MILLIDEG_PER_REV > 0,
        ;
        assert(MILLIDEG_PER_REV * ratio_milli / (MILLIDEG_PER_REV as int) == ratio_milli)
            by (nonlinear_arith)
            requires
                MILLIDEG_PER_REV == 360_000,
                1 <= ratio_milli,
        ;
    }
    let product: u64 = (angle_millideg as u64) * (ratio_milli as u64);
    let native: u64 = product / (MILLIDEG_PER_REV as u64);
    native as i64
}

/// The angle in millidegrees that a native reading stands for: the inverse
/// conversion, rounded toward zero, sign kept.
pub open spec fn spec_native_to_millideg(pos_milli: i64, ratio_milli: i64) -> int {
    if pos_milli >= 0 {
        pos_milli * (MILLIDEG_PER_REV as int) / (ratio_milli as int)
    } else {
        -((-(pos_milli as int)) * (MILLIDEG_PER_REV as int) / (ratio_milli as int))
    }
}

/// Largest native reading the inverse conversion accepts, in milli-rotations;
/// beyond it the angle would overflow the machine word.
pub const MAX_NATIVE_READING_MILLI: i64 = 1_000_000_000_000;

/// Convert a native position reading back to a mechanism angle.
pub fn native_to_millideg(pos_milli: i64, ratio_milli: i64) -> (r: i64)
    requires
        valid_gear_ratio(ratio_milli),
        -MAX_NATIVE_READING_MILLI <= pos_milli <= MAX_NATIVE_READING_MILLI,
    ensures
        r == spec_native_to_millideg(pos_milli, ratio_milli),
{
    if pos_milli >= 0 {
        proof {
            assert(0 <= pos_milli * MILLIDEG_PER_REV
                <= MAX_NATIVE_READING_MILLI * MILLIDEG_PER_REV) by (nonlinear_arith)
                requires
                    0 <= pos_milli <= MAX_NATIVE_READING_MILLI,
                    MILLIDEG_PER_REV > 0,
            ;
            assert(pos_milli * MILLIDEG_PER_REV / (ratio_milli as int)
                <= pos_milli * MILLIDEG_PER_REV) by (nonlinear_arith)
                requires
                    0 <= pos_milli * MILLIDEG_PER_REV,
                    1 <= ratio_milli,
            ;
        }
        let product: u64 = (pos_milli as u64) * (MILLIDEG_PER_REV as u64);
        let angle: u64 = product / (ratio_milli as u64);
        angle as i64
    } else {
        proof {
            assert(0 < (-(pos_milli as int)) * MILLIDEG_PER_REV
                <= MAX_NATIVE_READING_MILLI * MILLIDEG_PER_REV) by (nonlinear_arith)
                requires
                    0 < -(pos_milli as int) <= MAX_NATIVE_READING_MILLI,
                    MILLIDEG_PER_REV > 0,
            ;
            assert((-(pos_milli as int)) * MILLIDEG_PER_REV / (ratio_milli as int)
                <= (-(pos_milli as int)) * MILLIDEG_PER_REV) by (nonlinear_arith)
                requires
                    0 <= (-(pos_milli as int)) * MILLIDEG_PER_REV,
                    1 <= ratio_milli,
            ;
        }
        let magnitude: u64 = (-pos_milli) as u64;
        let product: u64 = magnitude * (MILLIDEG_PER_REV as u64);
        let angle: u64 = product / (ratio_milli as u64);
        -(angle as i64)
    }
}

} // verus!
