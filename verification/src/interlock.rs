//! Safety interlock supervisor.
//!
//! A pure, stateless evaluation of one tick's telemetry against the
//! configured ceilings.  Measurements that failed to arrive this tick
//! are passed as `None` and the rules that depend on them are skipped,
//! so a bus error can never trip (or mask) a limit by itself.

use vstd::prelude::*;

verus! {

/// Configured safety ceilings, loaded once at startup.
#[derive(Clone, Copy, PartialEq, Eq, Structural)]
pub struct SafetyLimits {
    /// Maximum load current in milliamps.
    pub max_current_ma: u32,
    /// Maximum load power in milliwatts.
    pub max_power_mw: u32,
    /// Maximum temperature in millidegrees Celsius.
    pub max_temperature_mc: u32,
}

/// The verdict of one interlock evaluation.  Any `Stop` verdict latches
/// the load off until the user restarts it; an overshoot only forces a
/// regulator reset for the tick.
#[derive(Clone, Copy, Debug, PartialEq, Eq, Structural)]
pub enum InterlockVerdict {
    /// No rule fired.
    AllClear,
    /// Measured current exceeded the effective current ceiling.
    StopCurrentLimit,
    /// Measured power exceeded the configured power ceiling.
    StopPowerLimit,
    /// Measured temperature exceeded the configured ceiling.
    StopTemperatureLimit,
    /// Measured voltage exceeded 110 % of a positive setpoint.
    OvershootResetOnly,
}

/// One tick's measurements after calibration offsets were applied.
/// A `None` field is a reading that failed on the bus this tick.
#[derive(Clone, Copy)]
pub struct Measurements {
    /// Bus voltage in microvolts (offset-corrected, so possibly negative).
    pub voltage_uv: Option<i64>,
    /// Load current in nanoamps (offset-corrected, so possibly negative).
    pub current_na: Option<i64>,
    /// Load power in nanowatts.
    pub power_nw: Option<u64>,
    /// Temperature in millidegrees Celsius.
    pub temp_mc: Option<u32>,
}

/// Bounds under which every comparison below fits in 64 bits.
pub open spec fn measurements_bounded(m: Measurements) -> bool {
    &&& (m.voltage_uv matches Some(v) ==> -2_000_000_000_000 <= v <= 2_000_000_000_000)
    &&& (m.current_na matches Some(c) ==> -2_000_000_000_000 <= c <= 2_000_000_000_000)
}

/// Whether the current rule fires: a current reading strictly above the
/// effective ceiling while the load is active.
pub open spec fn current_over(m: Measurements, effective_max_current_ma: u32, load_active: bool) -> bool {
    load_active && (m.current_na matches Some(c) && c > effective_max_current_ma * 1_000_000)
}

/// Whether the power rule fires.
pub open spec fn power_over(m: Measurements, limits: SafetyLimits, load_active: bool) -> bool {
    load_active && (m.power_nw matches Some(p) && p > limits.max_power_mw * 1_000_000)
}

/// Whether the temperature rule fires.
pub open spec fn temperature_over(m: Measurements, limits: SafetyLimits, load_active: bool) -> bool {
    load_active && (m.temp_mc matches Some(t) && t > limits.max_temperature_mc)
}

/// Whether the voltage overshoot rule fires: a voltage reading strictly
/// above 110 % of a positive setpoint.
pub open spec fn overshoot(m: Measurements, setpoint_mv: u32) -> bool {
    setpoint_mv > 0 && (m.voltage_uv matches Some(v) && v * 10 > setpoint_mv * 11_000)
}

/// The verdict the evaluator must return: the stop rules in a fixed
/// order (current, power, temperature), then the overshoot rule.
pub open spec fn verdict_spec(
    m: Measurements,
    setpoint_mv: u32,
    limits: SafetyLimits,
    effective_max_current_ma: u32,
    load_active: bool,
) -> InterlockVerdict {
    if current_over(m, effective_max_current_ma, load_active) {
        InterlockVerdict::StopCurrentLimit
    } else if power_over(m, limits, load_active) {
        InterlockVerdict::StopPowerLimit
    } else if temperature_over(m, limits, load_active) {
        InterlockVerdict::StopTemperatureLimit
    } else if overshoot(m, setpoint_mv) {
        InterlockVerdict::OvershootResetOnly
    } else {
        InterlockVerdict::AllClear
    }
}

/// The effective current ceiling: the more restrictive of the
/// configured limit and the negotiated source ceiling.
pub fn effective_max_current_ma(config_max_ma: u32, source_max_ma: u32) -> (r: u32)
    ensures
        r == if source_max_ma < config_max_ma { source_max_ma as int } else { config_max_ma as int },
        r <= config_max_ma,
        r <= source_max_ma,
{
    if source_max_ma < config_max_ma {
        source_max_ma
    } else {
        config_max_ma
    }
}

/// Evaluates every interlock rule for one tick.
///
/// A current reading strictly greater than the effective ceiling while
/// the load is active always yields `StopCurrentLimit`, whatever the
/// other fields hold.
pub fn evaluate(
    m: &Measurements,
    setpoint_mv: u32,
    limits: &SafetyLimits,
    effective_max_current_ma: u32,
    load_active: bool,
) -> (r: InterlockVerdict)
    requires
        measurements_bounded(*m),
        setpoint_mv <= 1_000_000,
    ensures
        r == verdict_spec(*m, setpoint_mv, *limits, effective_max_current_ma, load_active),
{
    if load_active {
        if let Some(c) = m.current_na {
            if c > (effective_max_current_ma as i64) * 1_000_000 {
                return InterlockVerdict::StopCurrentLimit;
            }
        }
        if let Some(p) = m.power_nw {
            if p > (limits.max_power_mw as u64) * 1_000_000 {
                return InterlockVerdict::StopPowerLimit;
            }
        }
        if let Some(t) = m.temp_mc {
            if t > limits.max_temperature_mc {
                return InterlockVerdict::StopTemperatureLimit;
            }
        }
    }
    if setpoint_mv > 0 {
        if let Some(v) = m.voltage_uv {
            if v * 10 > (setpoint_mv as i64) * 11_000 {
                return InterlockVerdict::OvershootResetOnly;
            }
        }
    }
    InterlockVerdict::AllClear
}

/// The current rule pre-empts every other rule: whenever it fires the
/// verdict is `StopCurrentLimit`, for any other field values.
pub proof fn lemma_current_interlock_preempts(
    m: Measurements,
    setpoint_mv: u32,
    limits: SafetyLimits,
    effective_max_current_ma: u32,
)
    requires
        current_over(m, effective_max_current_ma, true),
    ensures
        verdict_spec(m, setpoint_mv, limits, effective_max_current_ma, true)
            == InterlockVerdict::StopCurrentLimit,
{
}

} // verus!
