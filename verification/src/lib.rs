//! Actuation and telemetry core for a small flight-control unit.
//!
//! The library turns high-level setpoints (throttle, control-surface
//! deflections, system mode) into bounded, hardware-safe pulse-width
//! commands, collects bias-corrected inertial telemetry, and carries the
//! command/message envelopes that tie the pieces together. Bus drivers
//! (the PWM controller and the inertial sensor) are external collaborators:
//! this crate computes what must be written and checks what was read.
//!
//! Scalars are fixed-point integers: degrees for angles, percent for
//! throttle, microseconds for pulse widths, milli-units for sensor samples.

pub mod actuation;
pub mod commands;
pub mod control;
pub mod messages;
pub mod system;
pub mod telemetry;

use vstd::prelude::*;

verus! {

/// Inclusive saturation of `x` into the bound pair `[lo, hi]`:
/// `x <= lo` gives `lo`, `x >= hi` gives `hi`, anything between passes through.
pub open spec fn clamp_spec(x: int, lo: int, hi: int) -> int {
    if x <= lo {
        lo
    } else if x >= hi {
        hi
    } else {
        x
    }
}

/// Saturate `x` into the inclusive bound `[lo, hi]`.
pub fn clamp_i64(x: i64, lo: i64, hi: i64) -> (r: i64)
    ensures
        r == clamp_spec(x as int, lo as int, hi as int),
{
    if x <= lo {
        lo
    } else if x >= hi {
        hi
    } else {
        x
    }
}

} // verus!
