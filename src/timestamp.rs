use vstd::prelude::*;

verus! {

/// A clock sample that a driver attaches to a classic read: milliseconds,
/// how many times the 32-bit millisecond counter has wrapped, and the
/// sub-millisecond remainder in microseconds.
#[derive(Debug, Clone, Copy, PartialEq, Eq, Structural)]
pub struct Timestamp {
    pub millis: u32,
    pub millis_overflow: u16,
    pub micros: u16,
}

impl Default for Timestamp {
    /// The all-zero sample.
    fn default() -> (r: Timestamp)
        ensures
            r == (Timestamp { millis: 0, millis_overflow: 0, micros: 0 }),
    {
        Timestamp { millis: 0, millis_overflow: 0, micros: 0 }
    }
}

} // verus!
