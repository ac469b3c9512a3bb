//! Core logic of a temperature-alarm device.
//!
//! The device samples a digital temperature sensor twice per second, drives a
//! visual indicator when the reading exceeds an adjustable threshold, and lets
//! two momentary buttons move the threshold up and down by one degree per
//! debounced press.  Everything here is the decision logic of that control
//! loop: hardware access (the sensor bus, the pins, the system timer and the
//! diagnostic transport) stays outside and hands this library plain values.
//!
//! Temperatures are carried as fixed-point values in sixteenths of a degree
//! Celsius, the finest resolution of the sensor's ambient-temperature
//! register, so the whole core is exact integer arithmetic.

pub mod control;
pub mod debounce;
pub mod diagnostics;
pub mod render;
pub mod temperature;
pub mod threshold;

pub use control::{ControlLoop, PassOutcome, SensorError, TickOutcome};
pub use debounce::{DebouncePhase, DebounceStep};
pub use diagnostics::{Diagnostic, Level};
pub use temperature::Celsius;
pub use threshold::{ButtonDirection, Threshold};
