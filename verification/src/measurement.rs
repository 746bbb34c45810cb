//! Sensor readings and their one-byte quantization.

use vstd::prelude::*;

verus! {

/// One combined reading of the sensor, in fixed point.
///
/// A reading is produced once per cycle and never changed afterwards, so the
/// fields are only reachable through getters.
#[derive(Clone, Copy, Debug, PartialEq, Eq)]
pub struct Measurement {
    millicelsius: i32,
    millipercent: u32,
}

/// Whole degrees Celsius of a temperature given in thousandths of a degree,
/// as they fit into one unsigned byte.
///
/// The fraction is cut off, never rounded. What lies outside a byte is pinned
/// to the nearest end: anything below zero becomes 0, anything from 256 °C up
/// becomes 255.
pub open spec fn quantized_celsius(millicelsius: int) -> int {
    if millicelsius < 0 {
        0
    } else if millicelsius / 1000 > 255 {
        255
    } else {
        millicelsius / 1000
    }
}

impl Measurement {
    /// A reading of `millicelsius` thousandths of a degree Celsius and
    /// `millipercent` thousandths of a percent relative humidity.
    pub fn new(millicelsius: i32, millipercent: u32) -> (m: Measurement)
        ensures
            m.millicelsius() == millicelsius,
            m.millipercent() == millipercent,
    {
        Measurement { millicelsius, millipercent }
    }

    /// Temperature in thousandths of a degree Celsius.
    #[verifier::when_used_as_spec(spec_millicelsius)]
    pub fn millicelsius(&self) -> (t: i32)
        ensures
            t == self.millicelsius(),
    {
        self.millicelsius
    }

    pub closed spec fn spec_millicelsius(&self) -> i32 {
        self.millicelsius
    }

    /// Relative humidity in thousandths of a percent.
    #[verifier::when_used_as_spec(spec_millipercent)]
    pub fn millipercent(&self) -> (h: u32)
        ensures
            h == self.millipercent(),
    {
        self.millipercent
    }

    pub closed spec fn spec_millipercent(&self) -> u32 {
        self.millipercent
    }

    /// The temperature as the single byte that is broadcast.
    pub fn quantized_temperature(&self) -> (byte: u8)
        ensures
            byte == quantized_celsius(self.millicelsius() as int),
    {
        quantize_millicelsius(self.millicelsius)
    }
}

/// Quantizes a temperature in thousandths of a degree Celsius to one byte.
pub fn quantize_millicelsius(millicelsius: i32) -> (byte: u8)
    ensures
        byte == quantized_celsius(millicelsius as int),
{
    if millicelsius < 0 {
        0
    } else {
        let whole: u32 = (millicelsius as u32) / 1000;
        if whole > 255 {
            255
        } else {
            whole as u8
        }
    }
}

} // verus!
