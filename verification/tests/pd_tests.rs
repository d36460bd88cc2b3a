use dcpowerunit::pd::PdNegotiator;
use dcpowerunit::pd::PdRequest;
use dcpowerunit::pd::PdoOption;
use dcpowerunit::pd::VoltageClass;
use dcpowerunit::pd::class_millivolts;
use dcpowerunit::pd::fixed_class_for;
use dcpowerunit::pd::select_pdo;

fn fixed(index: u8, voltage_mv: u16, current_ma: u16) -> PdoOption {
    PdoOption {
        index,
        voltage_mv,
        current_ma,
        max_power_mw: voltage_mv as u32 * current_ma as u32 / 1000,
        is_fixed: true,
    }
}

fn variable(index: u8, voltage_mv: u16, current_ma: u16) -> PdoOption {
    PdoOption {
        index,
        voltage_mv,
        current_ma,
        max_power_mw: voltage_mv as u32 * current_ma as u32 / 1000,
        is_fixed: false,
    }
}

#[test]
fn selection_smallest_surplus_among_fixed() {
    let pdos = vec![fixed(1, 5000, 3000), fixed(2, 9000, 3000), fixed(3, 20000, 5000)];
    assert_eq!(select_pdo(&pdos, 9000), Some(1));
    assert_eq!(select_pdo(&pdos, 7000), Some(1));
    assert_eq!(select_pdo(&pdos, 9001), Some(2));
    assert_eq!(select_pdo(&pdos, 20000), Some(2));
}

#[test]
fn selection_variable_beats_fixed() {
    let pdos = vec![fixed(1, 9000, 3000), variable(2, 11000, 5000)];
    // The fixed 9 V profile matches the request more closely by
    // ceiling, but the variable profile supplies 9 V exactly.
    assert_eq!(select_pdo(&pdos, 9000), Some(1));
    let pdos2 = vec![variable(1, 11000, 5000), fixed(2, 9000, 3000)];
    assert_eq!(select_pdo(&pdos2, 9000), Some(0));
}

#[test]
fn selection_tie_prefers_higher_power() {
    let pdos = vec![fixed(1, 9000, 1000), fixed(2, 9000, 3000)];
    assert_eq!(select_pdo(&pdos, 8000), Some(1));
}

#[test]
fn selection_full_tie_keeps_earliest() {
    let pdos = vec![fixed(1, 9000, 3000), fixed(2, 9000, 3000)];
    assert_eq!(select_pdo(&pdos, 8000), Some(0));
}

#[test]
fn selection_none_qualifies() {
    let pdos = vec![fixed(1, 5000, 3000), variable(2, 11000, 5000)];
    assert_eq!(select_pdo(&pdos, 12000), None);
    let empty: Vec<PdoOption> = Vec::new();
    assert_eq!(select_pdo(&empty, 5000), None);
}

#[test]
fn selection_is_idempotent() {
    // The same list and requested voltage always select the same
    // profile.
    let pdos = vec![
        fixed(1, 5000, 3000),
        variable(2, 11000, 5000),
        fixed(3, 15000, 3000),
        fixed(4, 20000, 5000),
    ];
    for mv in [0u16, 4999, 5000, 9000, 11000, 11001, 15000, 20000] {
        let first = select_pdo(&pdos, mv);
        let second = select_pdo(&pdos, mv);
        assert_eq!(first, second);
    }
}

#[test]
fn fixed_class_breakpoints() {
    assert_eq!(fixed_class_for(0), VoltageClass::V5);
    assert_eq!(fixed_class_for(6500), VoltageClass::V5);
    assert_eq!(fixed_class_for(6501), VoltageClass::V9);
    assert_eq!(fixed_class_for(10500), VoltageClass::V9);
    assert_eq!(fixed_class_for(10501), VoltageClass::V12);
    assert_eq!(fixed_class_for(13500), VoltageClass::V12);
    assert_eq!(fixed_class_for(13501), VoltageClass::V15);
    assert_eq!(fixed_class_for(17500), VoltageClass::V15);
    assert_eq!(fixed_class_for(17501), VoltageClass::V20);
    assert_eq!(fixed_class_for(24000), VoltageClass::V20);
    assert_eq!(fixed_class_for(24001), VoltageClass::V28);
    assert_eq!(fixed_class_for(48000), VoltageClass::V28);
}

#[test]
fn class_values() {
    assert_eq!(class_millivolts(VoltageClass::V5), 5000);
    assert_eq!(class_millivolts(VoltageClass::V9), 9000);
    assert_eq!(class_millivolts(VoltageClass::V12), 12000);
    assert_eq!(class_millivolts(VoltageClass::V15), 15000);
    assert_eq!(class_millivolts(VoltageClass::V20), 20000);
    assert_eq!(class_millivolts(VoltageClass::V28), 28000);
}

#[test]
fn extended_range_marker() {
    assert!(!fixed(7, 20000, 3000).is_extended_range());
    assert!(fixed(8, 28000, 5000).is_extended_range());
}

#[test]
fn fresh_negotiator_has_no_profiles() {
    let neg = PdNegotiator::new();
    assert!(neg.pdo_options().is_empty());
    assert_eq!(neg.source_max_voltage_mv(), 0);
    assert_eq!(neg.get_pdo_limits(), (0, 0));
}

#[test]
fn plan_idles_on_non_positive_setpoint() {
    let neg = PdNegotiator::new();
    assert_eq!(neg.plan_request(0, 0, 0), PdRequest::FixedClass(VoltageClass::V5));
    assert_eq!(neg.plan_request(-100, 500, 0), PdRequest::FixedClass(VoltageClass::V5));
}

#[test]
fn plan_clamps_to_empty_advertisement() {
    // With nothing enumerated the ceiling is 0, so every request
    // clamps below the 5 V floor and idles on the lowest fixed class.
    let neg = PdNegotiator::new();
    assert_eq!(neg.plan_request(9000, 0, 0), PdRequest::FixedClass(VoltageClass::V5));
}
