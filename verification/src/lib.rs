//! Control-and-safety core of a programmable DC electronic load.
//!
//! The crate covers the shunt-sensor telemetry codec and calibration,
//! the USB-PD negotiation policy, the PID voltage regulator, the safety
//! interlock supervisor, the touch-input state machine, and the control
//! loop that ties them together.  Physical quantities are carried as
//! integers in fixed fine-grained units — setpoints in millivolts, bus
//! voltage in microvolts, current in nanoamps, power in nanowatts,
//! temperatures in milli- or microdegrees Celsius — chosen so that
//! every register LSB and every rule threshold is exact.
//!
//! Peripheral wiring, bus transactions, threads and the display are the
//! embedding program's concern: the library exposes the decisions as
//! pure step functions over explicit state, with the clock and every
//! reading passed in as plain values.

pub mod control;
pub mod interlock;
pub mod pd;
pub mod pid;
pub mod telemetry;
pub mod touch;
