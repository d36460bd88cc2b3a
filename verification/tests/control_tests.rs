use dcpowerunit::control::ControlState;
use dcpowerunit::control::LOG_CAPACITY;
use dcpowerunit::control::SampleLog;
use dcpowerunit::control::TelemetrySample;
use dcpowerunit::control::microvolts_to_millivolts;
use dcpowerunit::interlock::InterlockVerdict;
use dcpowerunit::interlock::Measurements;
use dcpowerunit::interlock::SafetyLimits;
use dcpowerunit::pid::PidController;
use dcpowerunit::touch::KeyEvent;

fn limits() -> SafetyLimits {
    SafetyLimits { max_current_ma: 11000, max_power_mw: 110_000, max_temperature_mc: 75_000 }
}

fn state() -> ControlState {
    let pid = PidController::new(10, 50_000, 1, 0);
    // Source ceiling 20 V, effective current ceiling 5 A, 14-bit duty.
    ControlState::new(pid, limits(), 20000, 5000, 16383, 4500)
}

fn sample(duty: u32) -> TelemetrySample {
    TelemetrySample {
        clock_ns: 1,
        voltage_uv: 5_000_000,
        current_na: 1_000_000_000,
        power_nw: 5_000_000_000,
        temp_mc: 25_000,
        duty,
    }
}

fn measurements() -> Measurements {
    Measurements {
        voltage_uv: Some(4_000_000),
        current_na: Some(1_000_000_000),
        power_nw: Some(5_000_000_000),
        temp_mc: Some(25_000),
    }
}

#[test]
fn setpoint_steps_and_clamps() {
    let mut st = state();
    let events = vec![KeyEvent::UpKeyDown, KeyEvent::UpKeyDown, KeyEvent::RightKeyDown];
    st.apply_key_events(&events);
    assert_eq!(st.setpoint_mv, 210);
    let events = vec![KeyEvent::DownKeyDown, KeyEvent::LeftKeyDown];
    st.apply_key_events(&events);
    assert_eq!(st.setpoint_mv, 100);
    // Down below zero saturates at zero.
    let events = vec![KeyEvent::DownKeyDown, KeyEvent::DownKeyDown];
    st.apply_key_events(&events);
    assert_eq!(st.setpoint_mv, 0);
}

#[test]
fn coarse_steps_land_on_whole_volts() {
    let mut st = state();
    let events = vec![
        KeyEvent::UpKeyDown,
        KeyEvent::RightKeyDown,
        KeyEvent::RightKeyDown,
        KeyEvent::UpKeyDownLong,
    ];
    // 0 -> 100 -> 110 -> 120 -> next whole volt above +1 V: 1000.
    st.apply_key_events(&events);
    assert_eq!(st.setpoint_mv, 1000);
    let events = vec![KeyEvent::UpKeyDownLong];
    st.apply_key_events(&events);
    assert_eq!(st.setpoint_mv, 2000);
    let events = vec![KeyEvent::DownKeyDown, KeyEvent::DownKeyDownLong];
    // 2000 -> 1900 -> (1900 - 1000) floored to the volt: 0? 900 / 1000
    // floors to 0, so the coarse step lands on 0.
    st.apply_key_events(&events);
    assert_eq!(st.setpoint_mv, 0);
}

#[test]
fn setpoint_clamps_to_source_ceiling_for_any_sequence() {
    let mut st = state();
    let mut events = Vec::new();
    for _ in 0..300 {
        events.push(KeyEvent::UpKeyDown);
        events.push(KeyEvent::UpKeyDownLong);
    }
    st.apply_key_events(&events);
    assert_eq!(st.setpoint_mv, 20000);
    events.push(KeyEvent::DownKeyDown);
    let mut st2 = state();
    st2.apply_key_events(&events);
    assert_eq!(st2.setpoint_mv, 19900);
}

#[test]
fn center_long_press_toggles_start_stop() {
    let mut st = state();
    let events = vec![KeyEvent::CenterKeyDownLong];
    let out = st.apply_key_events(&events);
    assert!(out.toggle_start_stop);
    // Two flips in one batch cancel out.
    let events = vec![KeyEvent::CenterKeyDownLong, KeyEvent::CenterKeyDownLong];
    let out = st.apply_key_events(&events);
    assert!(!out.toggle_start_stop);
}

#[test]
fn combination_requests_calibration() {
    let mut st = state();
    let events = vec![KeyEvent::UpDownKeyCombinationDown];
    st.apply_key_events(&events);
    assert!(st.calibration_start);
}

#[test]
fn center_press_clears_message() {
    let mut st = state();
    let out = st.apply_key_events(&vec![KeyEvent::CenterKeyDown]);
    assert!(out.clear_message);
    let out = st.apply_key_events(&vec![KeyEvent::UpKeyDown]);
    assert!(!out.clear_message);
}

#[test]
fn start_transition_resets_loop_state() {
    let mut st = state();
    st.apply_key_events(&vec![KeyEvent::UpKeyDown]);
    let pd_disable = st.start_stop_transition(true);
    assert!(!pd_disable);
    assert!(st.load_start);
    assert!(st.logging_start);
    assert_eq!(st.measurement_count, 0);
    assert_eq!(st.previous_setpoint_mv, 0);
    assert_eq!(st.pid.integral_mv, 0);
    assert_eq!(st.log.get_size(), 0);
}

#[test]
fn stop_transition_requests_supply_idle() {
    let mut st = state();
    st.start_stop_transition(true);
    let pd_disable = st.start_stop_transition(true);
    assert!(pd_disable);
    assert!(!st.load_start);
    assert!(!st.logging_start);
}

#[test]
fn renegotiation_on_large_setpoint_moves_only() {
    let mut st = state();
    st.start_stop_transition(true);
    st.apply_key_events(&vec![KeyEvent::UpKeyDown]); // 100 mV
    assert_eq!(st.update_request(), Some(100));
    assert_eq!(st.previous_setpoint_mv, 100);
    // A 10 mV move stays below the 100 mV threshold.
    st.apply_key_events(&vec![KeyEvent::RightKeyDown]);
    assert_eq!(st.update_request(), None);
    assert_eq!(st.previous_setpoint_mv, 100);
    // Another 90 mV reaches it again.
    st.apply_key_events(&vec![KeyEvent::UpKeyDown]);
    assert_eq!(st.update_request(), Some(210));
}

#[test]
fn no_renegotiation_while_stopped() {
    let mut st = state();
    st.apply_key_events(&vec![KeyEvent::UpKeyDownLong]);
    assert_eq!(st.update_request(), None);
}

#[test]
fn tick_counter_subsamples_events() {
    let mut st = state();
    let mut drains = 0;
    for _ in 0..30 {
        if st.begin_tick() {
            drains += 1;
        }
    }
    assert_eq!(drains, 3);
    assert_eq!(st.measurement_count, 30);
}

#[test]
fn calibration_offsets_apply_and_cancel() {
    let mut st = state();
    st.apply_key_events(&vec![KeyEvent::UpDownKeyCombinationDown]);
    st.apply_calibration(1500, 2500);
    assert!(!st.calibration_start);
    assert_eq!(st.current_offset_na, 1500);
    assert_eq!(st.voltage_offset_uv, 2500);
    let m = st.calibrate_measurements(Some(10_000), Some(5000), Some(7), Some(9));
    assert_eq!(m.voltage_uv, Some(7500));
    assert_eq!(m.current_na, Some(3500));
    assert_eq!(m.power_nw, Some(7));
    assert_eq!(m.temp_mc, Some(9));
    // A failed calibration keeps the previous offsets.
    st.apply_key_events(&vec![KeyEvent::UpDownKeyCombinationDown]);
    st.cancel_calibration();
    assert!(!st.calibration_start);
    assert_eq!(st.current_offset_na, 1500);
}

#[test]
fn failed_readings_stay_unavailable() {
    let st = state();
    let m = st.calibrate_measurements(None, None, None, None);
    assert_eq!(m.voltage_uv, None);
    assert_eq!(m.current_na, None);
}

#[test]
fn current_trip_forces_duty_zero_and_latches() {
    let mut st = state();
    st.start_stop_transition(true);
    let mut m = measurements();
    m.current_na = Some(5_000_000_001);
    let (verdict, duty) = st.actuate(&m);
    assert_eq!(verdict, InterlockVerdict::StopCurrentLimit);
    assert_eq!(duty, Some(0));
    assert!(!st.load_start);
    assert!(!st.logging_start);
    // Latched: the next tick stays off even with a clean reading.
    let (verdict, duty) = st.actuate(&measurements());
    assert_eq!(verdict, InterlockVerdict::AllClear);
    assert_eq!(duty, Some(0));
    assert!(!st.load_start);
}

#[test]
fn active_load_commands_scaled_duty() {
    let mut st = state();
    st.start_stop_transition(true);
    st.apply_key_events(&vec![KeyEvent::UpKeyDownLong]); // 1 V setpoint
    st.update_request();
    // Gains: kp 10 micro, measured 0 V, error 1000 mV ->
    // raw = 10 * 1000 + 50000 * 1000 + 1 * 1000 = 50_011_000;
    // command 50_011_000 / 1000 = 50011 ppm of 16383 -> 819 + 4500.
    let mut m = measurements();
    m.voltage_uv = Some(0);
    let (verdict, duty) = st.actuate(&m);
    assert_eq!(verdict, InterlockVerdict::AllClear);
    assert_eq!(duty, Some(819 + 4500));
    assert!(st.load_start);
}

#[test]
fn duty_clamps_to_full_scale() {
    let pid = PidController::new(1_000_000, 0, 0, 0);
    let mut st = ControlState::new(pid, limits(), 20000, 5000, 16383, 4500);
    st.start_stop_transition(true);
    for _ in 0..200 {
        st.apply_key_events(&vec![KeyEvent::UpKeyDownLong]);
    }
    st.update_request();
    let mut m = measurements();
    m.voltage_uv = Some(0);
    let (_, duty) = st.actuate(&m);
    assert_eq!(duty, Some(16383));
}

#[test]
fn overshoot_resets_regulator_but_keeps_load() {
    let mut st = state();
    st.start_stop_transition(true);
    st.apply_key_events(&vec![KeyEvent::UpKeyDownLong]); // 1 V
    st.update_request();
    let mut m = measurements();
    m.voltage_uv = Some(2_000_000); // 2 V measured: 200 % of setpoint
    // Seed some integral first.
    let mut m0 = measurements();
    m0.voltage_uv = Some(0);
    st.actuate(&m0);
    assert!(st.pid.integral_mv > 0);
    let (verdict, duty) = st.actuate(&m);
    assert_eq!(verdict, InterlockVerdict::OvershootResetOnly);
    assert!(st.load_start);
    // The regulator restarted from a clean integral on this tick's
    // negative error, so the command bottoms out at the fixed offset.
    assert_eq!(duty, Some(4500));
}

#[test]
fn unavailable_voltage_skips_regulator_step() {
    let mut st = state();
    st.start_stop_transition(true);
    let mut m = measurements();
    m.voltage_uv = None;
    let before = st.pid.integral_mv;
    let (verdict, duty) = st.actuate(&m);
    assert_eq!(verdict, InterlockVerdict::AllClear);
    assert_eq!(duty, None);
    assert_eq!(st.pid.integral_mv, before);
}

#[test]
fn log_back_pressure_auto_stops() {
    let mut st = state();
    st.start_stop_transition(true);
    for _ in 0..(LOG_CAPACITY - 1) {
        st.record_sample(sample(0));
        assert!(st.logging_start);
    }
    // The sample that fills the buffer to capacity stops logging.
    let fill = st.record_sample(sample(0));
    assert_eq!(fill, 100);
    assert!(!st.logging_start);
    assert_eq!(st.log.get_size(), LOG_CAPACITY);
    // No further sample is appended until restarted.
    st.record_sample(sample(1));
    assert_eq!(st.log.get_size(), LOG_CAPACITY);
    // A restart clears the buffer and resumes logging.
    st.start_stop_transition(true);
    st.start_stop_transition(true);
    assert!(st.logging_start);
    assert_eq!(st.log.get_size(), 0);
}

#[test]
fn fill_percent_reports_buffer_watermark() {
    let mut st = state();
    st.start_stop_transition(true);
    let mut fill = 0;
    for _ in 0..409 {
        fill = st.record_sample(sample(0));
    }
    assert_eq!(fill, 409 * 100 / LOG_CAPACITY as u32);
    assert_eq!(fill, 9);
}

#[test]
fn sample_log_transfer_round_trip() {
    let mut log = SampleLog::new();
    for i in 0..5 {
        log.record(sample(i));
    }
    let all = log.get_all_data();
    assert_eq!(all.len(), 5);
    assert_eq!(all[0].duty, 0);
    assert_eq!(all[4].duty, 4);
    // The transfer consumed three samples: the two youngest remain.
    log.remove_data(3);
    assert_eq!(log.get_size(), 2);
    let rest = log.get_all_data();
    assert_eq!(rest[0].duty, 3);
    assert_eq!(rest[1].duty, 4);
    log.clear();
    assert_eq!(log.get_size(), 0);
}

#[test]
fn sample_records_measurements_and_zeroes_failures() {
    let st = state();
    let m = measurements();
    let s = st.make_sample(&m, 42, 7);
    assert_eq!(s.clock_ns, 42);
    assert_eq!(s.duty, 7);
    assert_eq!(s.voltage_uv, 4_000_000);
    assert_eq!(s.current_na, 1_000_000_000);
    let mut m2 = measurements();
    m2.voltage_uv = None;
    m2.power_nw = None;
    let s2 = st.make_sample(&m2, 43, 8);
    assert_eq!(s2.voltage_uv, 0);
    assert_eq!(s2.power_nw, 0);
}

#[test]
fn microvolt_conversion_rounds_toward_zero() {
    assert_eq!(microvolts_to_millivolts(4_999), 4);
    assert_eq!(microvolts_to_millivolts(-4_999), -4);
    assert_eq!(microvolts_to_millivolts(5_000_000), 5_000);
    assert_eq!(microvolts_to_millivolts(0), 0);
}
