//! Diagnostics the control loop emits.
//!
//! The loop reports through a fire-and-forget text sink; nothing outside the
//! core ever sees a structured error value, only leveled log lines.  Here a
//! diagnostic is data — the event and the values it quotes — and the exact
//! text of each line is pinned down by `message`.

use vstd::prelude::*;
use vstd::string::StringExecFns;
use crate::render::spec_celsius_chars;
use crate::render::celsius_string;
use crate::temperature::Celsius;

verus! {

/// Severity of a diagnostic line.
#[derive(Clone, Copy, PartialEq, Eq, Structural, Debug)]
pub enum Level {
    Info,
    Warning,
    Error,
}

/// One diagnostic event of the control loop.
#[derive(Clone, Copy, PartialEq, Eq, Structural, Debug)]
pub enum Diagnostic {
    /// A cadence tick's reading beside the current threshold.
    Temperature { reading: Celsius, threshold: Celsius },
    /// A read succeeded but the value lies outside the sensor's range.
    SensorOutOfRange,
    /// The sensor could not be read over its bus.
    SensorReadFailed,
    /// A debounced press of the down button lowered the threshold.
    ThresholdDecreased { threshold: Celsius },
    /// A debounced press of the up button raised the threshold.
    ThresholdIncreased { threshold: Celsius },
    /// A press left the threshold outside the sensor's range.
    ThresholdOutOfRange,
}

impl Diagnostic {
    /// The severity this event is reported at.
    pub open spec fn spec_level(self) -> Level {
        match self {
            Diagnostic::Temperature { .. } => Level::Info,
            Diagnostic::SensorOutOfRange => Level::Error,
            Diagnostic::SensorReadFailed => Level::Error,
            Diagnostic::ThresholdDecreased { .. } => Level::Info,
            Diagnostic::ThresholdIncreased { .. } => Level::Info,
            Diagnostic::ThresholdOutOfRange => Level::Warning,
        }
    }

    /// Severity of the diagnostic: readings and threshold changes are
    /// informational, a threshold outside the sensor's range is a warning,
    /// and sensor trouble is an error.
    pub fn level(&self) -> (l: Level)
        ensures
            l == self.spec_level(),
    {
        match self {
            Diagnostic::Temperature { .. } => Level::Info,
            Diagnostic::SensorOutOfRange => Level::Error,
            Diagnostic::SensorReadFailed => Level::Error,
            Diagnostic::ThresholdDecreased { .. } => Level::Info,
            Diagnostic::ThresholdIncreased { .. } => Level::Info,
            Diagnostic::ThresholdOutOfRange => Level::Warning,
        }
    }

    /// The exact text of the diagnostic line.
    pub open spec fn spec_message(self) -> Seq<char> {
        match self {
            Diagnostic::Temperature { reading, threshold } => "Temperature: "@
                + spec_celsius_chars(reading.sixteenths as int) + " °C, Threshold: "@
                + spec_celsius_chars(threshold.sixteenths as int) + " °C"@,
            Diagnostic::SensorOutOfRange => "Sensor reading is out of range."@,
            Diagnostic::SensorReadFailed => "Error: failed to read the temperature sensor."@,
            Diagnostic::ThresholdDecreased { threshold } => "Decreased alarm threshold to "@
                + spec_celsius_chars(threshold.sixteenths as int) + " °C."@,
            Diagnostic::ThresholdIncreased { threshold } => "Increased alarm threshold to "@
                + spec_celsius_chars(threshold.sixteenths as int) + " °C."@,
            Diagnostic::ThresholdOutOfRange => "Threshold is out of range -40 °C to 125 °C."@,
        }
    }

    /// Render the diagnostic line, quoting temperatures in exact decimal.
    pub fn message(&self) -> (m: String)
        ensures
            m@ == self.spec_message(),
    {
        match self {
            Diagnostic::Temperature { reading, threshold } => {
                let mut m = String::from_str("Temperature: ");
                m.append(celsius_string(reading.sixteenths).as_str());
                m.append(" °C, Threshold: ");
                m.append(celsius_string(threshold.sixteenths).as_str());
                m.append(" °C");
                proof {
                    assert(m@ =~= self.spec_message());
                }
                m
            },
            Diagnostic::SensorOutOfRange => String::from_str("Sensor reading is out of range."),
            Diagnostic::SensorReadFailed => String::from_str(
                "Error: failed to read the temperature sensor.",
            ),
            Diagnostic::ThresholdDecreased { threshold } => {
                let mut m = String::from_str("Decreased alarm threshold to ");
                m.append(celsius_string(threshold.sixteenths).as_str());
                m.append(" °C.");
                proof {
                    assert(m@ =~= self.spec_message());
                }
                m
            },
            Diagnostic::ThresholdIncreased { threshold } => {
                let mut m = String::from_str("Increased alarm threshold to ");
                m.append(celsius_string(threshold.sixteenths).as_str());
                m.append(" °C.");
                proof {
                    assert(m@ =~= self.spec_message());
                }
                m
            },
            Diagnostic::ThresholdOutOfRange => String::from_str(
                "Threshold is out of range -40 °C to 125 °C.",
            ),
        }
    }
}

} // verus!
