//! Codec for the shunt sensor's register protocol.
//!
//! The sensor sits on an I2C bus at a fixed device address and exposes
//! 16-bit configuration registers and 24-bit measurement registers.  The
//! functions here turn raw register bytes into calibrated physical
//! quantities and build the byte payloads written to the device; the bus
//! transactions themselves live outside the library.
//!
//! Units: current is carried in nanoamps, bus voltage in microvolts,
//! power in nanowatts, die temperature in microdegrees Celsius.  With the
//! sensor's two full-scale ranges every register LSB is an exact integer
//! in these units, so no conversion loses precision.

use vstd::prelude::*;

verus! {

/// Current-register LSB in nanoamps for the high-resolution ADC range.
///
/// 40.96 / 524288 A = 78125 nA exactly.
pub const CURRENT_LSB_HIGH_RES_NA: u32 = 78125;

/// Current-register LSB in nanoamps for the low-resolution ADC range.
///
/// 163.84 / 524288 A = 312500 nA exactly.
pub const CURRENT_LSB_LOW_RES_NA: u32 = 312500;

/// Power-register LSB in nanowatts for the high-resolution ADC range:
/// 3.2 times the current LSB.
pub const POWER_LSB_HIGH_RES_NW: u32 = 250000;

/// Power-register LSB in nanowatts for the low-resolution ADC range:
/// 3.2 times the current LSB.
pub const POWER_LSB_LOW_RES_NW: u32 = 1000000;

/// The 24-bit register value carried by a 3-byte read, most significant
/// byte first.
pub open spec fn raw24(b0: u8, b1: u8, b2: u8) -> int {
    b0 * 0x10000 + b1 * 0x100 + b2
}

/// Signed decoding of the 24-bit current register: the payload is the
/// top 20 bits (a right shift by 4, i.e. division by 16), and the sign
/// bit (bit 23) selects two's-complement decoding over a 0x100000
/// modulus.
pub open spec fn current_counts_spec(b0: u8, b1: u8, b2: u8) -> int {
    if b0 >= 0x80 {
        -(0x100000 - raw24(b0, b1, b2) / 16)
    } else {
        raw24(b0, b1, b2) / 16
    }
}

/// Decodes the 3 bytes of the current register into signed ADC counts.
pub fn decode_current_counts(b0: u8, b1: u8, b2: u8) -> (r: i32)
    ensures
        r == current_counts_spec(b0, b1, b2),
        -0x80000 <= r < 0x80000,
{
    let raw: u32 = (b0 as u32) * 65536 + (b1 as u32) * 256 + (b2 as u32);
    let shifted: u32 = raw / 16;
    if b0 >= 128 {
        assert(shifted >= 0x80000);
        -((0x100000u32 - shifted) as i32)
    } else {
        assert(shifted < 0x80000);
        shifted as i32
    }
}

/// The current-register LSB in nanoamps for the configured ADC range.
pub fn current_lsb_na(high_res: bool) -> (r: u32)
    ensures
        r == if high_res { CURRENT_LSB_HIGH_RES_NA as int } else { CURRENT_LSB_LOW_RES_NA as int },
{
    if high_res {
        CURRENT_LSB_HIGH_RES_NA
    } else {
        CURRENT_LSB_LOW_RES_NA
    }
}

/// The current LSB is exactly the full-scale shunt range divided by
/// 2^19 counts: 40.96 A over 524288 counts in high resolution and
/// 163.84 A over 524288 counts in low resolution, both exact in
/// nanoamps.
pub proof fn lemma_current_lsb_exact()
    ensures
        CURRENT_LSB_HIGH_RES_NA * 524288 == 40_960_000_000u64,
        CURRENT_LSB_LOW_RES_NA * 524288 == 163_840_000_000u64,
{
}

/// The power LSB is exactly 3.2 times the current LSB in each range:
/// 10 * power_lsb == 32 * current_lsb.
pub proof fn lemma_power_lsb_exact()
    ensures
        10 * POWER_LSB_HIGH_RES_NW == 32 * CURRENT_LSB_HIGH_RES_NA,
        10 * POWER_LSB_LOW_RES_NW == 32 * CURRENT_LSB_LOW_RES_NA,
{
}

/// Scales decoded current counts by the configured LSB, giving nanoamps.
pub fn current_nanoamps(counts: i32, lsb_na: u32) -> (r: i64)
    requires
        -0x80000 <= counts < 0x80000,
        lsb_na <= 1_000_000,
    ensures
        r == counts * lsb_na,
{
    proof {
        assert(counts * lsb_na <= 0x80000 * 1_000_000 && counts * lsb_na >= -0x80000 * 1_000_000)
            by (nonlinear_arith)
            requires
                -0x80000 <= counts < 0x80000,
                0 <= lsb_na <= 1_000_000,
        ;
    }
    (counts as i64) * (lsb_na as i64)
}

/// Bus-voltage decoding: the payload is the top 20 bits of the 24-bit
/// register and each count is 195.3125 uV, i.e. 3125/16 uV exactly.
pub open spec fn voltage_microvolts_spec(b0: u8, b1: u8, b2: u8) -> int {
    (raw24(b0, b1, b2) / 16) * 3125 / 16
}

/// Decodes the 3 bytes of the bus-voltage register into microvolts
/// (truncated to the microvolt below; each count is 195.3125 uV).
pub fn decode_voltage_microvolts(b0: u8, b1: u8, b2: u8) -> (r: u32)
    ensures
        r == voltage_microvolts_spec(b0, b1, b2),
        r <= 204_800_000,
{
    let raw: u32 = (b0 as u32) * 65536 + (b1 as u32) * 256 + (b2 as u32);
    let counts: u32 = raw / 16;
    assert(counts < 0x100000);
    let scaled: u64 = (counts as u64) * 3125;
    (scaled / 16) as u32
}

/// Power decoding: the full 24-bit register times the power LSB of the
/// configured range, in nanowatts.
pub open spec fn power_nanowatts_spec(b0: u8, b1: u8, b2: u8, high_res: bool) -> int {
    raw24(b0, b1, b2) * if high_res { POWER_LSB_HIGH_RES_NW as int } else { POWER_LSB_LOW_RES_NW as int }
}

/// Decodes the 3 bytes of the power register into nanowatts.
pub fn decode_power_nanowatts(b0: u8, b1: u8, b2: u8, high_res: bool) -> (r: u64)
    ensures
        r == power_nanowatts_spec(b0, b1, b2, high_res),
{
    let raw: u64 = (b0 as u64) * 65536 + (b1 as u64) * 256 + (b2 as u64);
    let lsb: u64 = if high_res { POWER_LSB_HIGH_RES_NW as u64 } else { POWER_LSB_LOW_RES_NW as u64 };
    proof {
        assert(raw * lsb <= 16777215 * 1_000_000) by (nonlinear_arith)
            requires
                0 <= raw <= 16777215,
                0 <= lsb <= 1_000_000,
        ;
    }
    raw * lsb
}

/// Die-temperature decoding: each count of the 16-bit register is
/// 7.8125 mC, i.e. 15625/2 uC exactly; the result is in microdegrees
/// Celsius, truncated.
pub open spec fn die_temp_microcelsius_spec(raw: u16) -> int {
    raw * 15625 / 2
}

/// Converts the 16-bit die-temperature register to microdegrees Celsius.
pub fn die_temp_microcelsius(raw: u16) -> (r: u32)
    ensures
        r == die_temp_microcelsius_spec(raw),
{
    let scaled: u64 = (raw as u64) * 15625;
    (scaled / 2) as u32
}

/// Converts the board's thermistor ADC reading to millidegrees
/// Celsius: each count is 0.05 degrees, i.e. 50 millidegrees exactly.
pub fn adc_temp_millicelsius(counts: u16) -> (r: u32)
    ensures
        r == counts * 50,
{
    (counts as u32) * 50
}

/// The shunt calibration coefficient written to the device:
/// 13107.2 * current_lsb * 10^6 * shunt_resistance * scale, truncated to
/// a 16-bit register, where scale is 4 in high resolution and 1
/// otherwise.  In both ranges the product collapses to exactly
/// 512/125 per micro-ohm of shunt resistance.
pub open spec fn shunt_cal_spec(shunt_micro_ohm: u32) -> int {
    let v = shunt_micro_ohm * 512 / 125;
    if v > 0xFFFF {
        0xFFFF
    } else {
        v
    }
}

/// Computes the shunt calibration register value from the shunt
/// resistance in micro-ohms.  The same value results in either ADC
/// range: the high-resolution LSB is 4 times smaller and its scale
/// factor 4 times larger.
pub fn shunt_cal_register(shunt_micro_ohm: u32) -> (r: u16)
    ensures
        r == shunt_cal_spec(shunt_micro_ohm),
{
    let v: u64 = (shunt_micro_ohm as u64) * 512 / 125;
    if v > 0xFFFF {
        0xFFFF
    } else {
        v as u16
    }
}

/// The device's calibration formula in integer form.  The datasheet
/// coefficient 13107.2 equals 65536/5, so over an LSB in nanoamps and
/// a resistance in micro-ohms the uncapped register value is
/// `lsb_na * scale * 65536 * shunt_micro_ohm / 5_000_000_000`, floored.
pub open spec fn shunt_cal_formula(lsb_na: int, scale: int, shunt_micro_ohm: int) -> int {
    (lsb_na * scale * 65536 * shunt_micro_ohm) / 5_000_000_000
}

/// The calibration register value is determined by the LSB, the shunt
/// resistance and the range's scale factor — and is in fact the same
/// in both ADC ranges, because the high-resolution scale factor of 4
/// exactly cancels its 4-times-smaller LSB: either way the formula
/// collapses to `shunt_micro_ohm * 512 / 125`.
pub proof fn lemma_shunt_cal_deterministic(shunt_micro_ohm: u32)
    ensures
        shunt_cal_formula(CURRENT_LSB_HIGH_RES_NA as int, 4, shunt_micro_ohm as int)
            == shunt_micro_ohm * 512 / 125,
        shunt_cal_formula(CURRENT_LSB_LOW_RES_NA as int, 1, shunt_micro_ohm as int)
            == shunt_micro_ohm * 512 / 125,
{
    let r = shunt_micro_ohm as int;
    assert((CURRENT_LSB_HIGH_RES_NA as int) * 4 * 65536 * r == (r * 512) * 40_000_000)
        by (nonlinear_arith);
    assert((CURRENT_LSB_LOW_RES_NA as int) * 1 * 65536 * r == (r * 512) * 40_000_000)
        by (nonlinear_arith);
    assert(((r * 512) * 40_000_000) / 5_000_000_000 == (r * 512) / 125) by {
        vstd::arithmetic::div_mod::lemma_div_denominator((r * 512) * 40_000_000, 40_000_000, 125);
        vstd::arithmetic::div_mod::lemma_div_by_multiple(r * 512, 40_000_000);
        assert(40_000_000 * 125 == 5_000_000_000);
    }
}

/// The device-configuration register value selecting the ADC range;
/// the temperature-compensation bit (bit 5) is always set and the
/// range bit (bit 4) is set exactly in high resolution.
pub fn config_register_value(high_res: bool) -> (r: u16)
    ensures
        high_res ==> r == 0x0030,
        !high_res ==> r == 0x0020,
{
    if high_res {
        0x0030
    } else {
        0x0020
    }
}

/// The ADC averaging configuration: the low 3 bits of the current value
/// are replaced by the average-count selector (16-sample averaging).
pub fn adc_averaging_value(current: u16) -> (r: u16)
    ensures
        r == (current & 0xFFF8) | 0x04,
{
    (current & 0xFFF8) | 0x04
}

/// The 3-byte payload of a 16-bit register write: the register number
/// followed by the value, most significant byte first.
pub fn encode_reg16_write(reg: u8, value: u16) -> (r: [u8; 3])
    ensures
        r[0] == reg,
        r[1] as int * 256 + r[2] as int == value,
{
    let hi: u8 = (value / 256) as u8;
    let lo: u8 = (value % 256) as u8;
    [reg, hi, lo]
}

/// The 16-bit value carried by a 2-byte register read, most significant
/// byte first.
pub fn decode_reg16(b0: u8, b1: u8) -> (r: u16)
    ensures
        r == b0 as int * 256 + b1 as int,
{
    (b0 as u16) * 256 + (b1 as u16)
}

/// Number of raw samples a calibration run averages.
pub const CALIBRATION_SAMPLES: u32 = 300;

/// Largest current magnitude (in nanoamps) a single decoded sample can
/// carry: 2^19 counts times the largest LSB bound.
pub const CALIBRATION_MAX_CURRENT_NA: i64 = 524_288_000_000;

/// Largest bus voltage (in microvolts) a single decoded sample can
/// carry.
pub const CALIBRATION_MAX_VOLTAGE_UV: i64 = 204_800_000;

/// Quotient of a sum by the sample count, rounded toward zero (the
/// integer form of the arithmetic mean).
pub open spec fn mean_of_samples(sum: int) -> int {
    if sum >= 0 {
        sum / (CALIBRATION_SAMPLES as int)
    } else {
        -((-sum) / (CALIBRATION_SAMPLES as int))
    }
}

/// Zero-point calibration: accumulates exactly
/// [`CALIBRATION_SAMPLES`] consecutive raw (uncalibrated) current and
/// voltage readings and yields their arithmetic means as the offsets to
/// subtract from every later reading.
///
/// The bus reads and the fixed inter-sample delay happen outside the
/// library; an abandoned run is simply dropped, leaving the previous
/// offsets in effect.
pub struct CalibrationRun {
    /// Sum of the raw current samples pushed so far, in nanoamps.
    pub sum_current_na: i64,
    /// Sum of the raw voltage samples pushed so far, in microvolts.
    pub sum_voltage_uv: i64,
    /// Number of samples pushed so far.
    pub count: u32,
}

impl CalibrationRun {
    /// The sums stay within the per-sample bounds times the count, so
    /// no accumulation can overflow.
    pub open spec fn wf(self) -> bool {
        &&& self.count <= CALIBRATION_SAMPLES
        &&& -(self.count as int) * CALIBRATION_MAX_CURRENT_NA <= self.sum_current_na
        &&& self.sum_current_na <= (self.count as int) * CALIBRATION_MAX_CURRENT_NA
        &&& 0 <= self.sum_voltage_uv <= (self.count as int) * CALIBRATION_MAX_VOLTAGE_UV
    }

    /// Starts a calibration run with no samples.
    pub fn new() -> (r: CalibrationRun)
        ensures
            r.wf(),
            r.count == 0,
            r.sum_current_na == 0,
            r.sum_voltage_uv == 0,
    {
        CalibrationRun { sum_current_na: 0, sum_voltage_uv: 0, count: 0 }
    }

    /// Accumulates one raw (uncalibrated) current/voltage sample.
    pub fn push_sample(&mut self, current_na: i64, voltage_uv: u32)
        requires
            old(self).wf(),
            old(self).count < CALIBRATION_SAMPLES,
            -CALIBRATION_MAX_CURRENT_NA <= current_na <= CALIBRATION_MAX_CURRENT_NA,
            voltage_uv <= CALIBRATION_MAX_VOLTAGE_UV,
        ensures
            final(self).wf(),
            final(self).count == old(self).count + 1,
            final(self).sum_current_na == old(self).sum_current_na + current_na,
            final(self).sum_voltage_uv == old(self).sum_voltage_uv + voltage_uv,
    {
        proof {
            let c = old(self).count as int;
            assert((c + 1) * CALIBRATION_MAX_CURRENT_NA
                == c * CALIBRATION_MAX_CURRENT_NA + CALIBRATION_MAX_CURRENT_NA)
                by (nonlinear_arith);
            assert((c + 1) * CALIBRATION_MAX_VOLTAGE_UV
                == c * CALIBRATION_MAX_VOLTAGE_UV + CALIBRATION_MAX_VOLTAGE_UV)
                by (nonlinear_arith);
        }
        self.sum_current_na = self.sum_current_na + current_na;
        self.sum_voltage_uv = self.sum_voltage_uv + voltage_uv as i64;
        self.count = self.count + 1;
    }

    /// Whether the run has collected every required sample.
    pub fn is_complete(&self) -> (r: bool)
        ensures
            r == (self.count == CALIBRATION_SAMPLES),
    {
        self.count == CALIBRATION_SAMPLES
    }

    /// The calibration offsets: the arithmetic means (rounded toward
    /// zero) of the accumulated current and voltage samples.
    pub fn offsets(&self) -> (r: (i64, i64))
        requires
            self.wf(),
            self.count == CALIBRATION_SAMPLES,
        ensures
            r.0 == mean_of_samples(self.sum_current_na as int),
            r.1 == mean_of_samples(self.sum_voltage_uv as int),
    {
        let current_offset: i64 = if self.sum_current_na >= 0 {
            ((self.sum_current_na as u64) / (CALIBRATION_SAMPLES as u64)) as i64
        } else {
            let neg: u64 = (-self.sum_current_na) as u64;
            -((neg / (CALIBRATION_SAMPLES as u64)) as i64)
        };
        let voltage_offset: i64 = ((self.sum_voltage_uv as u64) / (CALIBRATION_SAMPLES as u64)) as i64;
        (current_offset, voltage_offset)
    }
}

} // verus!
