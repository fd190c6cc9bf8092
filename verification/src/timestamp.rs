use vstd::prelude::*;

verus! {

/// A non-negative position or span on the media timeline, in milliseconds.
///
/// Subtraction saturates at zero (a position never leaves the timeline)
/// and addition saturates at `u64::MAX`, so timestamp arithmetic is total.
#[derive(Clone, Copy, Debug, PartialEq, Eq, Structural)]
pub struct Timestamp {
    /// Milliseconds since the start of the media.
    pub millis: u64,
}

/// Saturating sum of two timeline values, capped at `u64::MAX`.
pub open spec fn sat_add(a: int, b: int) -> int {
    if a + b > u64::MAX {
        u64::MAX as int
    } else {
        a + b
    }
}

/// Saturating difference of two timeline values, never below zero.
pub open spec fn sat_sub(a: int, b: int) -> int {
    if a >= b {
        a - b
    } else {
        0
    }
}

impl Timestamp {
    /// The position as a mathematical integer, in milliseconds.
    pub open spec fn as_millis(self) -> int {
        self.millis as int
    }

    /// The start of the media.
    pub fn zero() -> (r: Self)
        ensures
            r.millis == 0,
    {
        Timestamp { millis: 0 }
    }

    /// A position `millis` milliseconds into the media.
    pub fn from_millis(millis: u64) -> (r: Self)
        ensures
            r.millis == millis,
    {
        Timestamp { millis }
    }

    /// A position `secs` seconds into the media, saturating at `u64::MAX` ms.
    pub fn from_secs(secs: u64) -> (r: Self)
        ensures
            r.as_millis() == if 1000 * secs <= u64::MAX {
                1000 * (secs as int)
            } else {
                u64::MAX as int
            },
    {
        if secs <= u64::MAX / 1000 {
            Timestamp { millis: secs * 1000 }
        } else {
            Timestamp { millis: u64::MAX }
        }
    }

    /// Saturating addition on positions.
    pub fn saturating_add(self, other: Self) -> (r: Self)
        ensures
            r.as_millis() == sat_add(self.as_millis(), other.as_millis()),
    {
        if self.millis <= u64::MAX - other.millis {
            Timestamp { millis: self.millis + other.millis }
        } else {
            Timestamp { millis: u64::MAX }
        }
    }

    /// Saturating subtraction on positions: never negative.
    pub fn saturating_sub(self, other: Self) -> (r: Self)
        ensures
            r.as_millis() == sat_sub(self.as_millis(), other.as_millis()),
    {
        if self.millis >= other.millis {
            Timestamp { millis: self.millis - other.millis }
        } else {
            Timestamp { millis: 0 }
        }
    }

    /// The later of two positions.
    pub fn max(self, other: Self) -> (r: Self)
        ensures
            r.as_millis() == if self.as_millis() >= other.as_millis() {
                self.as_millis()
            } else {
                other.as_millis()
            },
    {
        if self.millis >= other.millis {
            self
        } else {
            other
        }
    }

    /// Whole seconds of the position, rounded down.
    pub fn secs(self) -> (r: u64)
        ensures
            r == self.millis / 1000,
    {
        self.millis / 1000
    }

    /// The position split into whole minutes and leftover seconds,
    /// as shown in a `MM:SS` overlay.
    pub fn minutes_seconds(self) -> (r: (u64, u64))
        ensures
            r.0 == (self.millis / 1000) / 60,
            r.1 == (self.millis / 1000) % 60,
    {
        let s = self.millis / 1000;
        (s / 60, s % 60)
    }
}

} // verus!
