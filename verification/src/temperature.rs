//! Fixed-point temperatures and the sensor's datasheet range.
//!
//! The MCP9808 ambient-temperature register resolves 0.0625 °C, one sixteenth
//! of a degree, so a temperature is an integer count of sixteenths.  The
//! sensor's operating range is -40 °C to 125 °C; readings and thresholds
//! outside it are legal values that the control loop merely flags.

use vstd::prelude::*;

verus! {

/// One degree Celsius, in register counts.
pub const SIXTEENTHS_PER_DEGREE: i32 = 16;

/// Lower bound of the sensor's datasheet range: -40 °C.
pub const SENSOR_MIN_SIXTEENTHS: i32 = -640;

/// Upper bound of the sensor's datasheet range: 125 °C.
pub const SENSOR_MAX_SIXTEENTHS: i32 = 2000;

/// A temperature in sixteenths of a degree Celsius.
#[derive(Clone, Copy, PartialEq, Eq, Structural, Debug)]
pub struct Celsius {
    pub sixteenths: i32,
}

/// The temperature encoded in the sensor's ambient-temperature register:
/// the low thirteen bits hold a two's-complement count of sixteenths of a
/// degree, and the top three bits carry alert flags that are not part of
/// the reading.
pub open spec fn spec_decode_ambient_register(raw: u16) -> int {
    let bits = raw & 0x1fff;
    if bits >= 4096 {
        bits - 8192
    } else {
        bits as int
    }
}

impl Celsius {
    /// Decode the sensor's ambient-temperature register: a 13-bit
    /// two's-complement count of sixteenths of a degree in the low bits,
    /// alert flags in the top three bits.
    pub fn from_ambient_register(raw: u16) -> (t: Celsius)
        ensures
            t.sixteenths == spec_decode_ambient_register(raw),
    {
        let bits: u16 = raw & 0x1fff;
        assert(bits < 8192) by (bit_vector)
            requires
                bits == raw & 0x1fff,
        ;
        if bits >= 4096 {
            Celsius { sixteenths: bits as i32 - 8192 }
        } else {
            Celsius { sixteenths: bits as i32 }
        }
    }

    /// The temperature a whole number of degrees Celsius denotes.
    pub fn from_degrees(degrees: i32) -> (t: Celsius)
        requires
            -134217728 <= degrees <= 134217727,
        ensures
            t.sixteenths == degrees * SIXTEENTHS_PER_DEGREE,
    {
        Celsius { sixteenths: degrees * SIXTEENTHS_PER_DEGREE }
    }

    /// Whether this temperature lies within the sensor's datasheet range.
    pub open spec fn spec_in_sensor_range(self) -> bool {
        SENSOR_MIN_SIXTEENTHS <= self.sixteenths <= SENSOR_MAX_SIXTEENTHS
    }

    /// Is the temperature within the sensor's operating range of
    /// -40 °C to 125 °C?
    pub fn in_sensor_range(&self) -> (r: bool)
        ensures
            r == self.spec_in_sensor_range(),
    {
        SENSOR_MIN_SIXTEENTHS <= self.sixteenths && self.sixteenths <= SENSOR_MAX_SIXTEENTHS
    }

    /// Does this temperature strictly exceed `other`?  Equality does not
    /// count as exceeding.
    pub fn exceeds(&self, other: &Celsius) -> (r: bool)
        ensures
            r == (self.sixteenths > other.sixteenths),
    {
        self.sixteenths > other.sixteenths
    }
}

} // verus!
