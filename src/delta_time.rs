use vstd::prelude::*;

verus! {

/// Nanoseconds in one millisecond.
pub const NANOS_PER_MILLI: i64 = 1_000_000;

/// Nanoseconds in one microsecond.
pub const NANOS_PER_MICRO: i64 = 1_000;

/// An elapsed duration, held as a signed count of nanoseconds.
///
/// A negative duration can be represented but is read as zero by
/// `as_nanos`, the view meant for consumption.
#[derive(Debug, Clone, Copy, PartialEq, Eq, Structural)]
pub struct DeltaTime {
    pub nanos: i64,
}

/// Integer division rounding toward zero, as Rust's `/` does on signed integers.
pub open spec fn div_toward_zero(a: int, b: int) -> int {
    if a >= 0 { a / b } else { -((-a) / b) }
}

/// A signed count clamped at zero.
pub open spec fn clamp_non_negative(n: int) -> int {
    if n < 0 { 0 } else { n }
}

impl DeltaTime {
    /// The raw duration, possibly negative.
    pub open spec fn raw(&self) -> int {
        self.nanos as int
    }

    pub fn new(nanos: i64) -> (r: DeltaTime)
        ensures
            r == (DeltaTime { nanos }),
    {
        DeltaTime { nanos }
    }

    /// The duration in nanoseconds, clamped at zero.
    pub fn as_nanos(&self) -> (r: u64)
        ensures
            r as int == clamp_non_negative(self.raw()),
    {
        if self.nanos < 0 {
            0
        } else {
            self.nanos as u64
        }
    }

    /// The raw duration in whole milliseconds, rounded toward zero.
    pub fn to_milliseconds(&self) -> (r: i64)
        ensures
            r as int == div_toward_zero(self.raw(), NANOS_PER_MILLI as int),
    {
        self.nanos / NANOS_PER_MILLI
    }

    /// The raw duration in whole microseconds, rounded toward zero.
    pub fn to_microseconds(&self) -> (r: i64)
        ensures
            r as int == div_toward_zero(self.raw(), NANOS_PER_MICRO as int),
    {
        self.nanos / NANOS_PER_MICRO
    }
}

} // verus!
