//! Drives the negotiator against the real sink-controller driver over
//! a scripted bus, so the profile enumeration the library's policy
//! reads is the one the driver parsed from register bytes.

use dcpowerunit::pd::PdNegotiator;
use dcpowerunit::pd::PdRequest;
use dcpowerunit::pd::VoltageClass;
use embedded_hal::i2c::ErrorKind;
use embedded_hal::i2c::ErrorType;
use embedded_hal::i2c::I2c;
use embedded_hal::i2c::Operation;

const REG_STATUS: u8 = 0x01;
const REG_SRCPDO: u8 = 0x20;

#[derive(Debug)]
struct MockBusError;

impl embedded_hal::i2c::Error for MockBusError {
    fn kind(&self) -> ErrorKind {
        ErrorKind::Other
    }
}

/// A scripted register file standing in for the sink controller.
struct MockBus {
    pdo_words: [u16; 13],
    last_reg: u8,
}

impl ErrorType for MockBus {
    type Error = MockBusError;
}

impl I2c for MockBus {
    fn transaction(
        &mut self,
        _address: u8,
        operations: &mut [Operation<'_>],
    ) -> Result<(), MockBusError> {
        for op in operations.iter_mut() {
            match op {
                Operation::Write(bytes) => {
                    if !bytes.is_empty() {
                        self.last_reg = bytes[0];
                    }
                }
                Operation::Read(buffer) => match self.last_reg {
                    REG_STATUS => {
                        for b in buffer.iter_mut() {
                            *b = 0x02;
                        }
                    }
                    REG_SRCPDO => {
                        for (i, b) in buffer.iter_mut().enumerate() {
                            let word = self.pdo_words[i / 2];
                            *b = if i % 2 == 0 { (word & 0xFF) as u8 } else { (word >> 8) as u8 };
                        }
                    }
                    _ => {
                        for b in buffer.iter_mut() {
                            *b = 0;
                        }
                    }
                },
            }
        }
        Ok(())
    }
}

/// A source-capability register word: detect bit, programmable-type
/// bit, current index (the driver's current table), voltage unit.
fn pdo_word(programmable: bool, current_idx: u16, voltage_unit: u16) -> u16 {
    let mut word = 0x8000u16 | (current_idx << 10) | (voltage_unit & 0xFF);
    if programmable {
        word |= 0x4000;
    }
    word
}

/// 5 V fixed at 3 A, plus a programmable profile up to 11 V at 5 A.
fn init_with_pps() -> PdNegotiator {
    let mut words = [0u16; 13];
    words[0] = pdo_word(false, 8, 50); // 5000 mV fixed, 3000 mA
    words[1] = pdo_word(true, 15, 110); // 11000 mV programmable, 5000 mA
    let mut bus = MockBus { pdo_words: words, last_reg: 0 };
    let mut neg = PdNegotiator::new();
    neg.driver.init(&mut bus).expect("scripted init");
    neg
}

/// Fixed profiles only: 5 V / 3 A, 9 V / 3 A, 20 V / 5 A.
fn init_fixed_only() -> PdNegotiator {
    let mut words = [0u16; 13];
    words[0] = pdo_word(false, 8, 50);
    words[1] = pdo_word(false, 8, 90);
    words[2] = pdo_word(false, 15, 200);
    let mut bus = MockBus { pdo_words: words, last_reg: 0 };
    let mut neg = PdNegotiator::new();
    neg.driver.init(&mut bus).expect("scripted init");
    neg
}

#[test]
fn enumeration_converts_driver_profiles() {
    let neg = init_with_pps();
    let pdos = neg.pdo_options();
    assert_eq!(pdos.len(), 2);
    assert_eq!(pdos[0].index, 1);
    assert_eq!(pdos[0].voltage_mv, 5000);
    assert_eq!(pdos[0].current_ma, 3000);
    assert_eq!(pdos[0].max_power_mw, 15000);
    assert!(pdos[0].is_fixed);
    assert_eq!(pdos[1].index, 2);
    assert_eq!(pdos[1].voltage_mv, 11000);
    assert_eq!(pdos[1].current_ma, 5000);
    assert_eq!(pdos[1].max_power_mw, 55000);
    assert!(!pdos[1].is_fixed);
}

#[test]
fn limits_from_enumerated_profiles() {
    let neg = init_with_pps();
    assert_eq!(neg.source_max_voltage_mv(), 11000);
    assert_eq!(neg.get_pdo_limits(), (11000, 5000));
}

#[test]
fn plan_uses_programmable_profile_exactly() {
    let neg = init_with_pps();
    assert_eq!(
        neg.plan_request(9000, 0, 0),
        PdRequest::Variable { voltage_mv: 9000, current_limit_ma: 5000 }
    );
}

#[test]
fn plan_retry_reduces_current_ceiling() {
    // The first attempt asks for 5 A; the retry falls back to 3 A.
    let neg = init_with_pps();
    assert_eq!(
        neg.plan_request(9000, 0, 1),
        PdRequest::Variable { voltage_mv: 9000, current_limit_ma: 3000 }
    );
}

#[test]
fn plan_clamps_to_advertised_ceiling() {
    let neg = init_with_pps();
    assert_eq!(
        neg.plan_request(12000, 0, 0),
        PdRequest::Variable { voltage_mv: 11000, current_limit_ma: 5000 }
    );
}

#[test]
fn plan_applies_configured_offset() {
    let neg = init_with_pps();
    assert_eq!(
        neg.plan_request(8000, 500, 0),
        PdRequest::Variable { voltage_mv: 8500, current_limit_ma: 5000 }
    );
}

#[test]
fn plan_below_floor_requests_lowest_class() {
    let neg = init_with_pps();
    assert_eq!(neg.plan_request(3000, 0, 0), PdRequest::FixedClass(VoltageClass::V5));
}

#[test]
fn plan_maps_fixed_winner_to_class() {
    let neg = init_fixed_only();
    assert_eq!(neg.plan_request(7000, 0, 0), PdRequest::FixedClass(VoltageClass::V9));
    assert_eq!(neg.plan_request(15000, 0, 0), PdRequest::FixedClass(VoltageClass::V20));
    assert_eq!(neg.plan_request(5000, 0, 0), PdRequest::FixedClass(VoltageClass::V5));
}
