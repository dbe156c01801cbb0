//! The real-time clocks.

use vstd::prelude::*;

verus! {

/// A point in time as a calendar date and a time of day.
#[derive(Clone, Copy, Debug, PartialEq, Eq, Structural)]
pub struct SystemTime {
    pub year: u16,
    pub month: u8,
    pub day: u8,
    pub hour: u8,
    pub minute: u8,
    pub second: u8,
    pub nanos: u64,
}

/// The start of the year `year`.
pub open spec fn new_year(year: u16) -> SystemTime {
    SystemTime { year, month: 1, day: 1, hour: 0, minute: 0, second: 0, nanos: 0 }
}

/// The clock of a LoongArch machine. It cannot be read yet and stands at
/// the start of 2023.
#[derive(Clone, Copy, Debug)]
pub struct RtcLoongarch;

impl RtcLoongarch {
    /// The clock. There always is one.
    pub fn try_new() -> (r: Option<Self>)
        ensures
            r is Some,
    {
        Some(RtcLoongarch)
    }

    /// The time that the clock shows.
    pub fn read_rtc(&self) -> (r: SystemTime)
        ensures
            r == new_year(2023),
    {
        SystemTime { year: 2023, month: 1, day: 1, hour: 0, minute: 0, second: 0, nanos: 0 }
    }
}

/// The clock of a Loongson board. It cannot be read yet and stands at the
/// start of 2025.
#[derive(Clone, Copy, Debug)]
pub struct RtcLoongson;

impl RtcLoongson {
    /// The clock. There always is one.
    pub fn try_new() -> (r: Option<Self>)
        ensures
            r is Some,
    {
        Some(RtcLoongson)
    }

    /// The time that the clock shows.
    pub fn read_rtc(&self) -> (r: SystemTime)
        ensures
            r == new_year(2025),
    {
        SystemTime { year: 2025, month: 1, day: 1, hour: 0, minute: 0, second: 0, nanos: 0 }
    }
}

} // verus!
