//! The control loop's state and per-tick decisions.
//!
//! A fixed-period loop outside the library drives the hardware; every
//! decision it takes — applying input events to the setpoint, start and
//! stop transitions, when to renegotiate the supply, how the interlock
//! verdict gates the actuator, and the log buffer's back-pressure —
//! lives here as a verified step function over this state.

use vstd::prelude::*;
use crate::interlock;
use crate::interlock::InterlockVerdict;
use crate::interlock::Measurements;
use crate::interlock::SafetyLimits;
use crate::pid::PidController;
use crate::telemetry::CALIBRATION_MAX_CURRENT_NA;
use crate::telemetry::CALIBRATION_MAX_VOLTAGE_UV;
use crate::touch::KeyEvent;

verus! {

/// The sample log's capacity: reaching it auto-stops logging.
pub const LOG_CAPACITY: usize = 4095;

/// Ticks between two drains of the input event queue.
pub const EVENT_SUBSAMPLE: u64 = 10;

/// Millivolts of setpoint change that trigger a renegotiation.
pub const RENEGOTIATE_THRESHOLD_MV: u32 = 100;

/// One measurement tick, immutable once built.
#[derive(Clone, Copy, Debug, PartialEq, Eq, Structural)]
pub struct TelemetrySample {
    /// Timestamp in nanoseconds.
    pub clock_ns: u64,
    /// Calibrated bus voltage in microvolts (0 when the read failed).
    pub voltage_uv: i64,
    /// Calibrated current in nanoamps (0 when the read failed).
    pub current_na: i64,
    /// Power in nanowatts (0 when the read failed).
    pub power_nw: u64,
    /// Temperature in millidegrees Celsius (0 when the read failed).
    pub temp_mc: u32,
    /// The duty the actuator was driven with this tick.
    pub duty: u32,
}

/// The append-only buffer of samples awaiting transfer.
pub struct SampleLog {
    /// The buffered samples, oldest first.
    pub samples: Vec<TelemetrySample>,
}

impl SampleLog {
    /// An empty log.
    pub fn new() -> (r: SampleLog)
        ensures
            r.samples@ == Seq::<TelemetrySample>::empty(),
    {
        SampleLog { samples: Vec::new() }
    }

    /// Appends one sample.
    pub fn record(&mut self, sample: TelemetrySample)
        requires
            old(self).samples@.len() < usize::MAX,
        ensures
            final(self).samples@ == old(self).samples@.push(sample),
    {
        self.samples.push(sample);
    }

    /// The number of buffered samples.
    pub fn get_size(&self) -> (r: usize)
        ensures
            r == self.samples@.len(),
    {
        self.samples.len()
    }

    /// Discards every buffered sample.
    pub fn clear(&mut self)
        ensures
            final(self).samples@ == Seq::<TelemetrySample>::empty(),
    {
        self.samples.clear();
    }

    /// A copy of every buffered sample, oldest first, for the transfer
    /// collaborator.
    pub fn get_all_data(&self) -> (r: Vec<TelemetrySample>)
        ensures
            r@ == self.samples@,
    {
        let mut out: Vec<TelemetrySample> = Vec::new();
        let mut k: usize = 0;
        while k < self.samples.len()
            invariant
                k <= self.samples@.len(),
                out@ == self.samples@.take(k as int),
            decreases self.samples@.len() - k,
        {
            out.push(self.samples[k]);
            proof {
                assert(self.samples@.take(k as int + 1) =~= self.samples@.take(k as int).push(
                    self.samples@[k as int],
                ));
            }
            k = k + 1;
        }
        proof {
            assert(self.samples@.take(self.samples@.len() as int) =~= self.samples@);
        }
        out
    }

    /// Retires the oldest `n` samples after the transfer collaborator
    /// reports them consumed.
    pub fn remove_data(&mut self, n: usize)
        requires
            n <= old(self).samples@.len(),
        ensures
            final(self).samples@ == old(self).samples@.skip(n as int),
    {
        let mut out: Vec<TelemetrySample> = Vec::new();
        let mut k: usize = n;
        while k < self.samples.len()
            invariant
                n <= k <= self.samples@.len(),
                self.samples@ == old(self).samples@,
                out@ == self.samples@.subrange(n as int, k as int),
            decreases self.samples@.len() - k,
        {
            out.push(self.samples[k]);
            proof {
                assert(self.samples@.subrange(n as int, k as int + 1) =~= self.samples@.subrange(
                    n as int,
                    k as int,
                ).push(self.samples@[k as int]));
            }
            k = k + 1;
        }
        proof {
            assert(old(self).samples@.subrange(
                n as int,
                old(self).samples@.len() as int,
            ) =~= old(self).samples@.skip(n as int));
        }
        self.samples = out;
    }
}

/// What one batch of input events asked for besides setpoint changes.
#[derive(Clone, Copy, Debug, PartialEq, Eq, Structural)]
pub struct KeyOutcome {
    /// The start/stop toggle flipped an odd number of times.
    pub toggle_start_stop: bool,
    /// A center press asked for the transient message to be cleared.
    pub clear_message: bool,
}

/// The setpoint after one input event, always inside
/// `[0, max_mv]`: short presses step by 100 mV, side presses by 10 mV,
/// long presses step to the next whole volt.
pub open spec fn setpoint_after_event(sp: int, ev: KeyEvent, max_mv: int) -> int {
    match ev {
        KeyEvent::UpKeyDown => if sp + 100 > max_mv {
            max_mv
        } else {
            sp + 100
        },
        KeyEvent::RightKeyDown => if sp + 10 > max_mv {
            max_mv
        } else {
            sp + 10
        },
        KeyEvent::UpKeyDownLong => {
            let stepped = ((sp + 1000) / 1000) * 1000;
            if stepped > max_mv {
                max_mv
            } else {
                stepped
            }
        },
        KeyEvent::DownKeyDown => if sp < 100 {
            0
        } else {
            sp - 100
        },
        KeyEvent::LeftKeyDown => if sp < 10 {
            0
        } else {
            sp - 10
        },
        KeyEvent::DownKeyDownLong => if sp < 1000 {
            0
        } else {
            ((sp - 1000) / 1000) * 1000
        },
        _ => sp,
    }
}

/// The setpoint after a sequence of input events, applied in order.
pub open spec fn setpoint_after_events(sp: int, evs: Seq<KeyEvent>, max_mv: int) -> int
    decreases evs.len(),
{
    if evs.len() == 0 {
        sp
    } else {
        setpoint_after_events(setpoint_after_event(sp, evs[0], max_mv), evs.skip(1), max_mv)
    }
}

/// The setpoint stays clamped within `[0, max_mv]` after any sequence
/// of adjustment events.
pub proof fn lemma_setpoint_always_clamped(sp: int, evs: Seq<KeyEvent>, max_mv: int)
    requires
        0 <= sp <= max_mv,
    ensures
        0 <= setpoint_after_events(sp, evs, max_mv) <= max_mv,
    decreases evs.len(),
{
    if evs.len() > 0 {
        lemma_setpoint_event_clamped(sp, evs[0], max_mv);
        lemma_setpoint_always_clamped(setpoint_after_event(sp, evs[0], max_mv), evs.skip(1), max_mv);
    }
}

/// One adjustment event keeps the setpoint inside `[0, max_mv]`.
pub proof fn lemma_setpoint_event_clamped(sp: int, ev: KeyEvent, max_mv: int)
    requires
        0 <= sp <= max_mv,
    ensures
        0 <= setpoint_after_event(sp, ev, max_mv) <= max_mv,
{
    assert(0 <= (sp + 1000) / 1000 * 1000) by (nonlinear_arith)
        requires
            sp >= 0,
    ;
    if sp >= 1000 {
        assert(0 <= (sp - 1000) / 1000 * 1000 <= sp) by (nonlinear_arith)
            requires
                sp >= 1000,
        ;
    }
}

/// Whether a batch of events flips the start/stop toggle: each center
/// long-press flips it once.
pub open spec fn toggle_after_events(evs: Seq<KeyEvent>) -> bool
    decreases evs.len(),
{
    if evs.len() == 0 {
        false
    } else {
        (evs[0] is CenterKeyDownLong) != toggle_after_events(evs.skip(1))
    }
}

/// Whether a batch of events requests calibration (an Up+Down
/// combination).
pub open spec fn calibration_requested(evs: Seq<KeyEvent>) -> bool {
    exists|i: int| 0 <= i < evs.len() && evs[i] is UpDownKeyCombinationDown
}

/// Whether a batch of events clears the transient message (a center
/// press).
pub open spec fn clear_message_requested(evs: Seq<KeyEvent>) -> bool {
    exists|i: int| 0 <= i < evs.len() && evs[i] is CenterKeyDown
}

/// The control loop's state between ticks.
pub struct ControlState {
    /// Whether the load is active (drives the regulator and the
    /// interlock rules); latched off by any stop verdict.
    pub load_start: bool,
    /// Whether samples are appended to the log; auto-stopped by
    /// back-pressure.
    pub logging_start: bool,
    /// Whether a calibration run was requested and is pending.
    pub calibration_start: bool,
    /// The user's target voltage in millivolts.
    pub setpoint_mv: u32,
    /// The setpoint of the last issued supply request, in millivolts.
    pub previous_setpoint_mv: u32,
    /// Ticks since the last start transition.
    pub measurement_count: u64,
    /// The maximum voltage the source advertises, in millivolts.
    pub source_max_voltage_mv: u32,
    /// The more restrictive of the configured and negotiated current
    /// ceilings, in milliamps.
    pub effective_max_current_ma: u32,
    /// Calibration offset subtracted from every raw current reading,
    /// in nanoamps.
    pub current_offset_na: i64,
    /// Calibration offset subtracted from every raw voltage reading,
    /// in microvolts.
    pub voltage_offset_uv: i64,
    /// The configured safety ceilings.
    pub limits: SafetyLimits,
    /// The actuator's full-scale duty.
    pub max_duty: u32,
    /// The fixed duty added to every regulator command.
    pub pwm_offset: u32,
    /// The voltage regulator.
    pub pid: PidController,
    /// The sample buffer awaiting transfer.
    pub log: SampleLog,
}

/// The duty the actuator is driven with for a regulator command:
/// the normalised command scaled into the duty range, plus the fixed
/// offset, clamped to the full-scale duty.
pub open spec fn duty_for_command(out_ppm: int, max_duty: int, pwm_offset: int) -> int {
    let duty = out_ppm * max_duty / 1_000_000 + pwm_offset;
    if duty > max_duty {
        max_duty
    } else {
        duty
    }
}

/// A microvolt value in millivolts, rounded toward zero.
pub open spec fn uv_to_mv(uv: int) -> int {
    if uv >= 0 {
        uv / 1000
    } else {
        -((-uv) / 1000)
    }
}

impl ControlState {
    /// The state invariant: the setpoint is clamped to the advertised
    /// ceiling, the offsets stay within one sample's bounds, logging
    /// implies room in the buffer, and the regulator and the duty
    /// parameters stay within their windows.
    pub open spec fn wf(self) -> bool {
        &&& self.pid.wf()
        &&& self.source_max_voltage_mv <= 65535
        &&& self.setpoint_mv <= self.source_max_voltage_mv
        &&& self.previous_setpoint_mv <= 65535
        &&& self.log.samples@.len() <= LOG_CAPACITY
        &&& (self.logging_start ==> self.log.samples@.len() < LOG_CAPACITY)
        &&& -CALIBRATION_MAX_CURRENT_NA <= self.current_offset_na <= CALIBRATION_MAX_CURRENT_NA
        &&& 0 <= self.voltage_offset_uv <= CALIBRATION_MAX_VOLTAGE_UV
        &&& self.max_duty <= 1_048_576
        &&& self.pwm_offset <= 1_048_576
        &&& self.limits.max_current_ma <= 1_000_000
    }

    /// A stopped, idle loop over the given configuration and regulator.
    pub fn new(
        pid: PidController,
        limits: SafetyLimits,
        source_max_voltage_mv: u16,
        effective_max_current_ma: u32,
        max_duty: u32,
        pwm_offset: u32,
    ) -> (r: ControlState)
        requires
            pid.wf(),
            max_duty <= 1_048_576,
            pwm_offset <= 1_048_576,
            limits.max_current_ma <= 1_000_000,
        ensures
            r.wf(),
            !r.load_start,
            !r.logging_start,
            !r.calibration_start,
            r.setpoint_mv == 0,
            r.previous_setpoint_mv == 0,
            r.measurement_count == 0,
            r.source_max_voltage_mv == source_max_voltage_mv,
            r.effective_max_current_ma == effective_max_current_ma,
            r.current_offset_na == 0,
            r.voltage_offset_uv == 0,
            r.limits == limits,
            r.max_duty == max_duty,
            r.pwm_offset == pwm_offset,
            r.pid == pid,
            r.log.samples@ == Seq::<TelemetrySample>::empty(),
    {
        ControlState {
            load_start: false,
            logging_start: false,
            calibration_start: false,
            setpoint_mv: 0,
            previous_setpoint_mv: 0,
            measurement_count: 0,
            source_max_voltage_mv: source_max_voltage_mv as u32,
            effective_max_current_ma,
            current_offset_na: 0,
            voltage_offset_uv: 0,
            limits,
            max_duty,
            pwm_offset,
            pid,
            log: SampleLog::new(),
        }
    }

    /// Counts one tick and says whether this is an event-drain tick
    /// (every tenth).
    pub fn begin_tick(&mut self) -> (drain: bool)
        requires
            old(self).wf(),
            old(self).measurement_count < u64::MAX,
        ensures
            final(self).wf(),
            final(self).measurement_count == old(self).measurement_count + 1,
            drain == (final(self).measurement_count % EVENT_SUBSAMPLE == 0),
            *final(self) == (ControlState {
                measurement_count: final(self).measurement_count,
                ..*old(self)
            }),
    {
        self.measurement_count = self.measurement_count + 1;
        self.measurement_count % EVENT_SUBSAMPLE == 0
    }

    /// Applies one batch of drained input events: every setpoint
    /// adjustment in order (each clamped to `[0, ceiling]`), the
    /// calibration request, and the start/stop and message flags
    /// reported back to the caller.
    pub fn apply_key_events(&mut self, events: &Vec<KeyEvent>) -> (r: KeyOutcome)
        requires
            old(self).wf(),
        ensures
            final(self).wf(),
            final(self).setpoint_mv == setpoint_after_events(
                old(self).setpoint_mv as int,
                events@,
                old(self).source_max_voltage_mv as int,
            ),
            final(self).setpoint_mv <= final(self).source_max_voltage_mv,
            final(self).calibration_start == (old(self).calibration_start || calibration_requested(
                events@,
            )),
            r.toggle_start_stop == toggle_after_events(events@),
            r.clear_message == clear_message_requested(events@),
            *final(self) == (ControlState {
                setpoint_mv: final(self).setpoint_mv,
                calibration_start: final(self).calibration_start,
                ..*old(self)
            }),
    {
        let ghost evs = events@;
        let ghost max_mv = self.source_max_voltage_mv as int;
        let mut toggle: bool = false;
        let mut clear: bool = false;
        let mut k: usize = 0;
        proof {
            lemma_setpoint_always_clamped(old(self).setpoint_mv as int, evs, max_mv);
            assert(evs.skip(0) =~= evs);
            assert(evs.take(0) =~= Seq::<KeyEvent>::empty());
        }
        while k < events.len()
            invariant
                k <= evs.len(),
                events@ == evs,
                self.wf(),
                max_mv == self.source_max_voltage_mv as int,
                setpoint_after_events(old(self).setpoint_mv as int, evs, max_mv)
                    == setpoint_after_events(self.setpoint_mv as int, evs.skip(k as int), max_mv),
                self.calibration_start == (old(self).calibration_start || calibration_requested(
                    evs.take(k as int),
                )),
                toggle == toggle_after_events(evs.take(k as int)),
                clear == clear_message_requested(evs.take(k as int)),
                *self == (ControlState {
                    setpoint_mv: self.setpoint_mv,
                    calibration_start: self.calibration_start,
                    ..*old(self)
                }),
            decreases evs.len() - k,
        {
            let ev = events[k];
            proof {
                assert(evs.skip(k as int)[0] == evs[k as int]);
                assert(evs.skip(k as int).skip(1) =~= evs.skip(k as int + 1));
                assert(evs.take(k as int + 1).drop_last() =~= evs.take(k as int));
                assert(evs.take(k as int + 1).last() == evs[k as int]);
                lemma_setpoint_event_clamped(self.setpoint_mv as int, ev, max_mv);
            }
            match ev {
                KeyEvent::CenterKeyDown => {
                    clear = true;
                },
                KeyEvent::CenterKeyDownLong => {
                    toggle = !toggle;
                },
                KeyEvent::UpKeyDown => {
                    let stepped: u32 = self.setpoint_mv + 100;
                    self.setpoint_mv = if stepped > self.source_max_voltage_mv {
                        self.source_max_voltage_mv
                    } else {
                        stepped
                    };
                },
                KeyEvent::RightKeyDown => {
                    let stepped: u32 = self.setpoint_mv + 10;
                    self.setpoint_mv = if stepped > self.source_max_voltage_mv {
                        self.source_max_voltage_mv
                    } else {
                        stepped
                    };
                },
                KeyEvent::UpKeyDownLong => {
                    let stepped: u32 = (self.setpoint_mv + 1000) / 1000 * 1000;
                    self.setpoint_mv = if stepped > self.source_max_voltage_mv {
                        self.source_max_voltage_mv
                    } else {
                        stepped
                    };
                },
                KeyEvent::DownKeyDown => {
                    self.setpoint_mv = if self.setpoint_mv < 100 {
                        0
                    } else {
                        self.setpoint_mv - 100
                    };
                },
                KeyEvent::LeftKeyDown => {
                    self.setpoint_mv = if self.setpoint_mv < 10 {
                        0
                    } else {
                        self.setpoint_mv - 10
                    };
                },
                KeyEvent::DownKeyDownLong => {
                    self.setpoint_mv = if self.setpoint_mv < 1000 {
                        0
                    } else {
                        (self.setpoint_mv - 1000) / 1000 * 1000
                    };
                },
                KeyEvent::UpDownKeyCombinationDown => {
                    self.calibration_start = true;
                },
                _ => {},
            }
            k = k + 1;
            proof {
                assert(calibration_requested(evs.take(k as int)) == (calibration_requested(
                    evs.take(k as int - 1),
                ) || evs[k as int - 1] is UpDownKeyCombinationDown)) by {
                    if calibration_requested(evs.take(k as int - 1)) {
                        let i = choose|i: int|
                            0 <= i < k - 1 && (#[trigger] evs.take(k as int - 1)[i]) is UpDownKeyCombinationDown;
                        assert(evs.take(k as int)[i] is UpDownKeyCombinationDown);
                    }
                    if evs[k as int - 1] is UpDownKeyCombinationDown {
                        assert(evs.take(k as int)[k as int - 1] is UpDownKeyCombinationDown);
                    }
                    if calibration_requested(evs.take(k as int)) {
                        let i = choose|i: int|
                            0 <= i < k && (#[trigger] evs.take(k as int)[i]) is UpDownKeyCombinationDown;
                        if i < k - 1 {
                            assert(evs.take(k as int - 1)[i] is UpDownKeyCombinationDown);
                        }
                    }
                }
                assert(clear_message_requested(evs.take(k as int)) == (clear_message_requested(
                    evs.take(k as int - 1),
                ) || evs[k as int - 1] is CenterKeyDown)) by {
                    if clear_message_requested(evs.take(k as int - 1)) {
                        let i = choose|i: int|
                            0 <= i < k - 1 && (#[trigger] evs.take(k as int - 1)[i]) is CenterKeyDown;
                        assert(evs.take(k as int)[i] is CenterKeyDown);
                    }
                    if evs[k as int - 1] is CenterKeyDown {
                        assert(evs.take(k as int)[k as int - 1] is CenterKeyDown);
                    }
                    if clear_message_requested(evs.take(k as int)) {
                        let i = choose|i: int|
                            0 <= i < k && (#[trigger] evs.take(k as int)[i]) is CenterKeyDown;
                        if i < k - 1 {
                            assert(evs.take(k as int - 1)[i] is CenterKeyDown);
                        }
                    }
                }
                lemma_toggle_take_step(evs, k as int);
            }
        }
        proof {
            assert(evs.skip(evs.len() as int) =~= Seq::<KeyEvent>::empty());
            assert(evs.take(evs.len() as int) =~= evs);
        }
        KeyOutcome { toggle_start_stop: toggle, clear_message: clear }
    }

    /// Applies the start/stop toggle.  A stop suspends logging,
    /// deactivates the load, and reports that the supply output must be
    /// idled (the caller issues the disable request).  A start clears
    /// the regulator memory and the sample log and zeroes the tick
    /// counter and the previous-setpoint tracker.
    pub fn start_stop_transition(&mut self, toggle: bool) -> (pd_disable: bool)
        requires
            old(self).wf(),
        ensures
            final(self).wf(),
            !toggle ==> *final(self) == *old(self) && !pd_disable,
            toggle && old(self).load_start ==> {
                &&& !final(self).load_start
                &&& !final(self).logging_start
                &&& pd_disable
                &&& *final(self) == (ControlState {
                    load_start: false,
                    logging_start: false,
                    ..*old(self)
                })
            },
            toggle && !old(self).load_start ==> {
                &&& final(self).load_start
                &&& final(self).logging_start
                &&& !pd_disable
                &&& final(self).measurement_count == 0
                &&& final(self).previous_setpoint_mv == 0
                &&& final(self).pid.integral_mv == 0
                &&& final(self).pid.prev_error_mv == 0
                &&& final(self).pid.setpoint_mv == old(self).pid.setpoint_mv
                &&& final(self).pid.kp_micro == old(self).pid.kp_micro
                &&& final(self).pid.ki_micro == old(self).pid.ki_micro
                &&& final(self).pid.kd_micro == old(self).pid.kd_micro
                &&& final(self).log.samples@ == Seq::<TelemetrySample>::empty()
                &&& *final(self) == (ControlState {
                    load_start: true,
                    logging_start: true,
                    measurement_count: 0,
                    previous_setpoint_mv: 0,
                    pid: final(self).pid,
                    log: final(self).log,
                    ..*old(self)
                })
            },
    {
        if !toggle {
            return false;
        }
        if self.load_start {
            self.logging_start = false;
            self.load_start = false;
            true
        } else {
            self.logging_start = true;
            self.load_start = true;
            self.measurement_count = 0;
            self.previous_setpoint_mv = 0;
            self.pid.reset();
            self.log.clear();
            false
        }
    }

    /// Feeds the setpoint to the regulator and decides whether the
    /// supply must be renegotiated: only while the load is active, and
    /// only when the setpoint moved at least the renegotiation
    /// threshold since the last issued request.  Returns the millivolt
    /// target the caller must request (the negotiation policy adds the
    /// configured offset and clamps to the advertised ceiling).
    pub fn update_request(&mut self) -> (r: Option<u32>)
        requires
            old(self).wf(),
        ensures
            final(self).wf(),
            !old(self).load_start ==> *final(self) == *old(self) && r is None,
            old(self).load_start ==> {
                let moved = old(self).setpoint_mv >= old(self).previous_setpoint_mv + RENEGOTIATE_THRESHOLD_MV
                    || old(self).setpoint_mv + RENEGOTIATE_THRESHOLD_MV <= old(self).previous_setpoint_mv;
                &&& final(self).pid.setpoint_mv == old(self).setpoint_mv
                &&& final(self).pid.integral_mv == old(self).pid.integral_mv
                &&& final(self).pid.prev_error_mv == old(self).pid.prev_error_mv
                &&& (moved ==> r == Some(old(self).setpoint_mv) && final(self).previous_setpoint_mv
                    == old(self).setpoint_mv)
                &&& (!moved ==> r is None && final(self).previous_setpoint_mv == old(
                    self,
                ).previous_setpoint_mv)
                &&& *final(self) == (ControlState {
                    previous_setpoint_mv: final(self).previous_setpoint_mv,
                    pid: final(self).pid,
                    ..*old(self)
                })
            },
    {
        if !self.load_start {
            return None;
        }
        self.pid.set_setpoint(self.setpoint_mv as i64);
        let moved: bool = if self.setpoint_mv >= self.previous_setpoint_mv {
            self.setpoint_mv - self.previous_setpoint_mv >= RENEGOTIATE_THRESHOLD_MV
        } else {
            self.previous_setpoint_mv - self.setpoint_mv >= RENEGOTIATE_THRESHOLD_MV
        };
        if moved {
            self.previous_setpoint_mv = self.setpoint_mv;
            Some(self.setpoint_mv)
        } else {
            None
        }
    }

    /// Installs the offsets a completed calibration run produced and
    /// clears the pending-calibration flag.
    pub fn apply_calibration(&mut self, current_offset_na: i64, voltage_offset_uv: i64)
        requires
            old(self).wf(),
            -CALIBRATION_MAX_CURRENT_NA <= current_offset_na <= CALIBRATION_MAX_CURRENT_NA,
            0 <= voltage_offset_uv <= CALIBRATION_MAX_VOLTAGE_UV,
        ensures
            final(self).wf(),
            *final(self) == (ControlState {
                calibration_start: false,
                current_offset_na,
                voltage_offset_uv,
                ..*old(self)
            }),
    {
        self.current_offset_na = current_offset_na;
        self.voltage_offset_uv = voltage_offset_uv;
        self.calibration_start = false;
    }

    /// Abandons a failed calibration run: the flag is cleared and the
    /// previous offsets stay in effect.
    pub fn cancel_calibration(&mut self)
        requires
            old(self).wf(),
        ensures
            final(self).wf(),
            *final(self) == (ControlState { calibration_start: false, ..*old(self) }),
    {
        self.calibration_start = false;
    }

    /// Applies the calibration offsets to one tick's raw readings.
    /// A reading that failed on the bus stays unavailable — it is never
    /// substituted by zero.
    pub fn calibrate_measurements(
        &self,
        voltage_uv: Option<u32>,
        current_na: Option<i64>,
        power_nw: Option<u64>,
        temp_mc: Option<u32>,
    ) -> (m: Measurements)
        requires
            self.wf(),
            voltage_uv matches Some(v) ==> v <= 204_800_000,
            current_na matches Some(c) ==> -CALIBRATION_MAX_CURRENT_NA <= c
                <= CALIBRATION_MAX_CURRENT_NA,
        ensures
            interlock::measurements_bounded(m),
            voltage_uv is None <==> m.voltage_uv is None,
            voltage_uv matches Some(v) ==> m.voltage_uv == Some((v - self.voltage_offset_uv) as i64),
            current_na is None <==> m.current_na is None,
            current_na matches Some(c) ==> m.current_na == Some((c - self.current_offset_na) as i64),
            m.power_nw == power_nw,
            m.temp_mc == temp_mc,
            m.voltage_uv matches Some(v) ==> -205_000_000 <= v <= 205_000_000,
    {
        let voltage: Option<i64> = match voltage_uv {
            Some(v) => Some(v as i64 - self.voltage_offset_uv),
            None => None,
        };
        let current: Option<i64> = match current_na {
            Some(c) => Some(c - self.current_offset_na),
            None => None,
        };
        Measurements { voltage_uv: voltage, current_na: current, power_nw, temp_mc }
    }

    /// Evaluates the interlock rules and decides the actuator duty for
    /// one tick.
    ///
    /// Any stop verdict — a current reading above the effective
    /// ceiling among them — latches the load off, suspends logging and
    /// forces the duty to zero on this very actuation step.  An
    /// inactive load also holds the duty at zero with the regulator
    /// memory cleared.  Otherwise an overshoot first resets the
    /// regulator, then one regulation step runs on the measured voltage
    /// and its command is scaled into the duty range; when the voltage
    /// reading failed this tick the regulator is left untouched and no
    /// duty is commanded (`None`).
    pub fn actuate(&mut self, m: &Measurements) -> (r: (InterlockVerdict, Option<u32>))
        requires
            old(self).wf(),
            interlock::measurements_bounded(*m),
            m.voltage_uv matches Some(v) ==> -205_000_000 <= v <= 205_000_000,
        ensures
            final(self).wf(),
            r.0 == interlock::verdict_spec(
                *m,
                old(self).setpoint_mv,
                old(self).limits,
                old(self).effective_max_current_ma,
                old(self).load_start,
            ),
            ({
                let stop = r.0 is StopCurrentLimit || r.0 is StopPowerLimit
                    || r.0 is StopTemperatureLimit;
                let active_after = old(self).load_start && !stop;
                &&& final(self).load_start == active_after
                &&& final(self).logging_start == (old(self).logging_start && !stop)
                &&& (!active_after ==> r.1 == Some(0u32) && final(self).pid
                    == crate::pid::reset_state(old(self).pid))
                &&& (active_after && m.voltage_uv is None ==> r.1 is None && final(self).pid == old(
                    self,
                ).pid)
                &&& (active_after ==> (m.voltage_uv matches Some(v) ==> {
                    let p0 = if r.0 is OvershootResetOnly {
                        crate::pid::reset_state(old(self).pid)
                    } else {
                        old(self).pid
                    };
                    &&& final(self).pid == crate::pid::update_state(p0, uv_to_mv(v as int))
                    &&& r.1 == Some(
                        duty_for_command(
                            crate::pid::update_output(p0, uv_to_mv(v as int)),
                            old(self).max_duty as int,
                            old(self).pwm_offset as int,
                        ) as u32,
                    )
                }))
                &&& *final(self) == (ControlState {
                    load_start: final(self).load_start,
                    logging_start: final(self).logging_start,
                    pid: final(self).pid,
                    ..*old(self)
                })
            }),
    {
        let verdict = interlock::evaluate(
            m,
            self.setpoint_mv,
            &self.limits,
            self.effective_max_current_ma,
            self.load_start,
        );
        let stop: bool = match verdict {
            InterlockVerdict::StopCurrentLimit => true,
            InterlockVerdict::StopPowerLimit => true,
            InterlockVerdict::StopTemperatureLimit => true,
            _ => false,
        };
        if stop {
            self.load_start = false;
            self.logging_start = false;
        }
        if !self.load_start {
            self.pid.reset();
            return (verdict, Some(0));
        }
        if let InterlockVerdict::OvershootResetOnly = verdict {
            self.pid.reset();
        }
        match m.voltage_uv {
            None => (verdict, None),
            Some(v) => {
                let measured_mv = microvolts_to_millivolts(v);
                let out: u32 = self.pid.update(measured_mv);
                proof {
                    assert((out as int) * (self.max_duty as int) <= 1_000_000 * 1_048_576)
                        by (nonlinear_arith)
                        requires
                            0 <= out <= 1_000_000,
                            0 <= self.max_duty <= 1_048_576,
                    ;
                }
                let scaled: u64 = (out as u64) * (self.max_duty as u64) / 1_000_000 + (
                self.pwm_offset as u64);
                let duty: u32 = if scaled > self.max_duty as u64 {
                    self.max_duty
                } else {
                    scaled as u32
                };
                (verdict, Some(duty))
            },
        }
    }

    /// Builds this tick's sample from the calibrated measurements; a
    /// reading that failed is recorded as zero in the log (the
    /// interlock and regulator never saw it).
    pub fn make_sample(&self, m: &Measurements, clock_ns: u64, duty: u32) -> (s: TelemetrySample)
        ensures
            s.clock_ns == clock_ns,
            s.duty == duty,
            s.voltage_uv == match m.voltage_uv {
                Some(v) => v,
                None => 0i64,
            },
            s.current_na == match m.current_na {
                Some(c) => c,
                None => 0i64,
            },
            s.power_nw == match m.power_nw {
                Some(p) => p,
                None => 0u64,
            },
            s.temp_mc == match m.temp_mc {
                Some(t) => t,
                None => 0u32,
            },
    {
        TelemetrySample {
            clock_ns,
            voltage_uv: match m.voltage_uv {
                Some(v) => v,
                None => 0,
            },
            current_na: match m.current_na {
                Some(c) => c,
                None => 0,
            },
            power_nw: match m.power_nw {
                Some(p) => p,
                None => 0,
            },
            temp_mc: match m.temp_mc {
                Some(t) => t,
                None => 0,
            },
            duty,
        }
    }

    /// Appends this tick's sample while logging is active and applies
    /// the back-pressure policy: the moment the buffered count reaches
    /// the capacity, logging auto-stops and no further sample is
    /// appended until the user restarts.  Returns the buffer fill in
    /// percent.
    pub fn record_sample(&mut self, sample: TelemetrySample) -> (fill_percent: u32)
        requires
            old(self).wf(),
        ensures
            final(self).wf(),
            old(self).logging_start ==> final(self).log.samples@ == old(self).log.samples@.push(
                sample,
            ),
            !old(self).logging_start ==> final(self).log.samples@ == old(self).log.samples@
                && !final(self).logging_start,
            final(self).logging_start == (old(self).logging_start
                && final(self).log.samples@.len() < LOG_CAPACITY),
            fill_percent == (final(self).log.samples@.len() as int) * 100 / (LOG_CAPACITY as int),
            *final(self) == (ControlState {
                logging_start: final(self).logging_start,
                log: final(self).log,
                ..*old(self)
            }),
    {
        if self.logging_start {
            self.log.record(sample);
        }
        let size: usize = self.log.get_size();
        if size >= LOG_CAPACITY {
            self.logging_start = false;
        }
        ((size as u64) * 100 / (LOG_CAPACITY as u64)) as u32
    }
}

/// Converts a signed microvolt reading to millivolts, rounded toward
/// zero.
pub fn microvolts_to_millivolts(uv: i64) -> (r: i64)
    requires
        -9_000_000_000_000_000_000 <= uv <= 9_000_000_000_000_000_000,
    ensures
        r == uv_to_mv(uv as int),
        -9_000_000_000_000_000 <= r <= 9_000_000_000_000_000,
{
    if uv >= 0 {
        ((uv as u64) / 1000) as i64
    } else {
        -((((-uv) as u64) / 1000) as i64)
    }
}

/// Extending a prefix by one event flips the fold exactly when the new
/// event is a center long-press.
proof fn lemma_toggle_take_step(evs: Seq<KeyEvent>, k: int)
    requires
        1 <= k <= evs.len(),
    ensures
        toggle_after_events(evs.take(k)) == ((evs[k - 1] is CenterKeyDownLong)
            != toggle_after_events(evs.take(k - 1))),
    decreases k,
{
    if k == 1 {
        assert(evs.take(1).skip(1) =~= Seq::<KeyEvent>::empty());
        assert(evs.take(0) =~= Seq::<KeyEvent>::empty());
    } else {
        assert(evs.take(k).skip(1) =~= evs.skip(1).take(k - 1));
        assert(evs.take(k - 1).skip(1) =~= evs.skip(1).take(k - 2));
        lemma_toggle_take_step(evs.skip(1), k - 1);
        assert(evs.skip(1)[k - 2] == evs[k - 1]);
        assert(evs.take(k)[0] == evs[0]);
        assert(evs.take(k - 1)[0] == evs[0]);
    }
}

} // verus!
