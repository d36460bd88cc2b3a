//! Proportional-integral-derivative voltage regulator.
//!
//! The controller turns the error between the setpoint and the measured
//! bus voltage into a normalised duty command in parts per million of
//! full scale.  Gains are integers in millionths (a gain of one million
//! is 1.0 per volt of error); the tick period is folded into the
//! integral and derivative gains.  The integral is clamped to a fixed
//! window as an anti-windup measure, and the final command is clamped
//! to `[0, 1_000_000]`.

use vstd::prelude::*;

verus! {

/// Full-scale duty command: one million parts per million.
pub const OUTPUT_SCALE_PPM: i64 = 1_000_000;

/// Anti-windup clamp on the accumulated integral, in millivolt-ticks.
pub const INTEGRAL_CLAMP_MV: i64 = 10_000_000;

/// Largest accepted gain, in millionths.
pub const MAX_GAIN_MICRO: i64 = 1_000_000_000;

/// Largest accepted setpoint or measurement magnitude, in millivolts.
pub const MAX_SIGNAL_MV: i64 = 1_000_000;

/// The integral after one update: the error is accumulated, then the
/// sum is clamped into the anti-windup window.
pub open spec fn next_integral(integral: int, error: int) -> int {
    let sum = integral + error;
    if sum > INTEGRAL_CLAMP_MV {
        INTEGRAL_CLAMP_MV as int
    } else if sum < -INTEGRAL_CLAMP_MV {
        -(INTEGRAL_CLAMP_MV as int)
    } else {
        sum
    }
}

/// The raw control law in milli-millionths before scaling: the three
/// gain terms over the error, the clamped integral, and the error
/// difference.
pub open spec fn raw_command(
    kp_micro: int,
    ki_micro: int,
    kd_micro: int,
    error: int,
    integral: int,
    prev_error: int,
) -> int {
    kp_micro * error + ki_micro * integral + kd_micro * (error - prev_error)
}

/// The normalised command: the raw law scaled from millivolts to volts
/// and clamped to `[0, OUTPUT_SCALE_PPM]`.
pub open spec fn command_ppm(raw: int) -> int {
    if raw <= 0 {
        0
    } else if raw / 1000 >= OUTPUT_SCALE_PPM {
        OUTPUT_SCALE_PPM as int
    } else {
        raw / 1000
    }
}

/// The regulator's memory after one update on a measurement: the error
/// is folded into the clamped integral and remembered for the next
/// derivative.
pub open spec fn update_state(p: PidController, measured_mv: int) -> PidController {
    let error = p.setpoint_mv - measured_mv;
    PidController {
        integral_mv: next_integral(p.integral_mv as int, error) as i64,
        prev_error_mv: error as i64,
        ..p
    }
}

/// The normalised command one update on a measurement returns.
pub open spec fn update_output(p: PidController, measured_mv: int) -> int {
    let error = p.setpoint_mv - measured_mv;
    command_ppm(
        raw_command(
            p.kp_micro as int,
            p.ki_micro as int,
            p.kd_micro as int,
            error,
            next_integral(p.integral_mv as int, error),
            p.prev_error_mv as int,
        ),
    )
}

/// The regulator's memory after a reset: the integral and the
/// derivative memory cleared, everything else preserved.
pub open spec fn reset_state(p: PidController) -> PidController {
    PidController { integral_mv: 0, prev_error_mv: 0, ..p }
}

/// The regulator's memory: configured gains, the target, the clamped
/// integral accumulation and the previous error.
pub struct PidController {
    /// Proportional gain in millionths per volt.
    pub kp_micro: i64,
    /// Integral gain in millionths per volt-tick.
    pub ki_micro: i64,
    /// Derivative gain in millionths per volt per tick.
    pub kd_micro: i64,
    /// Target voltage in millivolts.
    pub setpoint_mv: i64,
    /// Accumulated, clamped error in millivolt-ticks.
    pub integral_mv: i64,
    /// Error of the previous update in millivolts.
    pub prev_error_mv: i64,
}

impl PidController {
    /// Every field stays inside the window that keeps the control law
    /// within 64 bits.
    pub open spec fn wf(self) -> bool {
        &&& 0 <= self.kp_micro <= MAX_GAIN_MICRO
        &&& 0 <= self.ki_micro <= MAX_GAIN_MICRO
        &&& 0 <= self.kd_micro <= MAX_GAIN_MICRO
        &&& 0 <= self.setpoint_mv <= MAX_SIGNAL_MV
        &&& -INTEGRAL_CLAMP_MV <= self.integral_mv <= INTEGRAL_CLAMP_MV
        &&& -2 * MAX_SIGNAL_MV <= self.prev_error_mv <= 2 * MAX_SIGNAL_MV
    }

    /// Builds a regulator with the given gains and initial setpoint and
    /// cleared memory.
    pub fn new(kp_micro: i64, ki_micro: i64, kd_micro: i64, setpoint_mv: i64) -> (r: PidController)
        requires
            0 <= kp_micro <= MAX_GAIN_MICRO,
            0 <= ki_micro <= MAX_GAIN_MICRO,
            0 <= kd_micro <= MAX_GAIN_MICRO,
            0 <= setpoint_mv <= MAX_SIGNAL_MV,
        ensures
            r.wf(),
            r.kp_micro == kp_micro,
            r.ki_micro == ki_micro,
            r.kd_micro == kd_micro,
            r.setpoint_mv == setpoint_mv,
            r.integral_mv == 0,
            r.prev_error_mv == 0,
    {
        PidController {
            kp_micro,
            ki_micro,
            kd_micro,
            setpoint_mv,
            integral_mv: 0,
            prev_error_mv: 0,
        }
    }

    /// Changes the target voltage; the regulator memory is untouched.
    pub fn set_setpoint(&mut self, setpoint_mv: i64)
        requires
            old(self).wf(),
            0 <= setpoint_mv <= MAX_SIGNAL_MV,
        ensures
            final(self).wf(),
            final(self).setpoint_mv == setpoint_mv,
            final(self).kp_micro == old(self).kp_micro,
            final(self).ki_micro == old(self).ki_micro,
            final(self).kd_micro == old(self).kd_micro,
            final(self).integral_mv == old(self).integral_mv,
            final(self).prev_error_mv == old(self).prev_error_mv,
    {
        self.setpoint_mv = setpoint_mv;
    }

    /// Clears the integral accumulation and the derivative memory; the
    /// setpoint and the gains are preserved.
    pub fn reset(&mut self)
        requires
            old(self).wf(),
        ensures
            final(self).wf(),
            *final(self) == reset_state(*old(self)),
            final(self).integral_mv == 0,
            final(self).prev_error_mv == 0,
            final(self).setpoint_mv == old(self).setpoint_mv,
    {
        self.integral_mv = 0;
        self.prev_error_mv = 0;
    }

    /// One regulation step: accumulates the error into the clamped
    /// integral, applies the control law to the error, the integral and
    /// the error difference, and returns the command clamped to
    /// `[0, OUTPUT_SCALE_PPM]` parts per million.
    pub fn update(&mut self, measured_mv: i64) -> (out_ppm: u32)
        requires
            old(self).wf(),
            -MAX_SIGNAL_MV <= measured_mv <= MAX_SIGNAL_MV,
        ensures
            final(self).wf(),
            *final(self) == update_state(*old(self), measured_mv as int),
            out_ppm == update_output(*old(self), measured_mv as int),
            out_ppm <= OUTPUT_SCALE_PPM,
    {
        let error: i64 = self.setpoint_mv - measured_mv;
        let sum: i64 = self.integral_mv + error;
        self.integral_mv = if sum > INTEGRAL_CLAMP_MV {
            INTEGRAL_CLAMP_MV
        } else if sum < -INTEGRAL_CLAMP_MV {
            -INTEGRAL_CLAMP_MV
        } else {
            sum
        };
        let delta: i64 = error - self.prev_error_mv;
        self.prev_error_mv = error;
        proof {
            lemma_gain_term_bounded(self.kp_micro as int, error as int, 2 * MAX_SIGNAL_MV);
            lemma_gain_term_bounded(self.ki_micro as int, self.integral_mv as int, INTEGRAL_CLAMP_MV as int);
            lemma_gain_term_bounded(self.kd_micro as int, delta as int, 4 * MAX_SIGNAL_MV);
        }
        let raw: i64 = self.kp_micro * error + self.ki_micro * self.integral_mv + self.kd_micro * delta;
        if raw <= 0 {
            0
        } else {
            let scaled: u64 = (raw as u64) / 1000;
            if scaled >= OUTPUT_SCALE_PPM as u64 {
                OUTPUT_SCALE_PPM as u32
            } else {
                scaled as u32
            }
        }
    }
}

/// A non-negative gain times a magnitude-bounded signal stays within
/// the gain ceiling times the signal bound.
proof fn lemma_gain_term_bounded(gain: int, signal: int, bound: int) by (nonlinear_arith)
    requires
        0 <= gain <= MAX_GAIN_MICRO,
        0 <= bound,
        -bound <= signal <= bound,
    ensures
        -MAX_GAIN_MICRO * bound <= gain * signal <= MAX_GAIN_MICRO * bound,
{
}

} // verus!
