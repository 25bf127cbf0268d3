//! Times of day.

use vstd::prelude::*;

verus! {

pub const NANOS_PER_SECOND: u64 = 1_000_000_000;

pub const NANOS_PER_MINUTE: u64 = 60_000_000_000;

pub const NANOS_PER_HOUR: u64 = 3_600_000_000_000;

pub const NANOS_PER_DAY: u64 = 86_400_000_000_000;

/// A wall-clock time of day with nanosecond precision, from `00:00:00` up to
/// but not including `24:00:00`.
#[derive(Clone, Copy, Debug, PartialEq, Eq, Structural, Hash)]
pub struct TimeOfDay {
    nanos: u64,
}

impl View for TimeOfDay {
    type V = nat;

    /// Nanoseconds since midnight.
    closed spec fn view(&self) -> nat {
        self.nanos as nat
    }
}

impl TimeOfDay {
    #[verifier::type_invariant]
    closed spec fn in_day(self) -> bool {
        self.nanos < NANOS_PER_DAY
    }

    /// Nanoseconds since midnight of the time `hour:minute:second` and
    /// `nanosecond` nanoseconds.
    pub open spec fn nanos_of(hour: int, minute: int, second: int, nanosecond: int) -> int {
        hour * NANOS_PER_HOUR + minute * NANOS_PER_MINUTE + second * NANOS_PER_SECOND + nanosecond
    }

    /// Whether the four fields name a time of day.
    pub open spec fn is_valid(hour: int, minute: int, second: int, nanosecond: int) -> bool {
        &&& 0 <= hour < 24
        &&& 0 <= minute < 60
        &&& 0 <= second < 60
        &&& 0 <= nanosecond < NANOS_PER_SECOND
    }

    pub fn midnight() -> (r: TimeOfDay)
        ensures
            r@ == 0,
    {
        TimeOfDay { nanos: 0 }
    }

    pub fn from_hms_nano(hour: u8, minute: u8, second: u8, nanosecond: u32) -> (r: Option<
        TimeOfDay,
    >)
        ensures
            r is Some <==> Self::is_valid(hour as int, minute as int, second as int, nanosecond as int),
            r matches Some(t) ==> t@ == Self::nanos_of(
                hour as int,
                minute as int,
                second as int,
                nanosecond as int,
            ),
    {
        if hour < 24 && minute < 60 && second < 60 && (nanosecond as u64) < NANOS_PER_SECOND {
            let nanos: u64 = (hour as u64) * NANOS_PER_HOUR + (minute as u64) * NANOS_PER_MINUTE + (
            second as u64) * NANOS_PER_SECOND + (nanosecond as u64);
            Some(TimeOfDay { nanos })
        } else {
            None
        }
    }

    pub fn from_hms(hour: u8, minute: u8, second: u8) -> (r: Option<TimeOfDay>)
        ensures
            r is Some <==> Self::is_valid(hour as int, minute as int, second as int, 0),
            r matches Some(t) ==> t@ == Self::nanos_of(hour as int, minute as int, second as int, 0),
    {
        Self::from_hms_nano(hour, minute, second, 0)
    }

    /// The time that lies `nanos` nanoseconds after midnight, if that is
    /// within the day.
    pub fn from_nanos(nanos: u64) -> (r: Option<TimeOfDay>)
        ensures
            r is Some <==> nanos < NANOS_PER_DAY,
            r matches Some(t) ==> t@ == nanos,
    {
        if nanos < NANOS_PER_DAY {
            Some(TimeOfDay { nanos })
        } else {
            None
        }
    }

    /// Nanoseconds since midnight.
    pub fn nanos(&self) -> (r: u64)
        ensures
            r == self@,
            r < NANOS_PER_DAY,
    {
        proof {
            use_type_invariant(self);
        }
        self.nanos
    }

    pub fn hour(&self) -> (r: u8)
        ensures
            r == self@ / (NANOS_PER_HOUR as nat),
            r < 24,
    {
        proof {
            use_type_invariant(self);
        }
        (self.nanos / NANOS_PER_HOUR) as u8
    }

    pub fn minute(&self) -> (r: u8)
        ensures
            r == (self@ / (NANOS_PER_MINUTE as nat)) % 60,
            r < 60,
    {
        ((self.nanos / NANOS_PER_MINUTE) % 60) as u8
    }

    pub fn second(&self) -> (r: u8)
        ensures
            r == (self@ / (NANOS_PER_SECOND as nat)) % 60,
            r < 60,
    {
        ((self.nanos / NANOS_PER_SECOND) % 60) as u8
    }

    pub fn subsec_nanosecond(&self) -> (r: u32)
        ensures
            r == self@ % (NANOS_PER_SECOND as nat),
            r < NANOS_PER_SECOND,
    {
        (self.nanos % NANOS_PER_SECOND) as u32
    }
}

/// The four fields of a time of day give the time back.
pub proof fn lemma_fields_round_trip(hour: int, minute: int, second: int, nanosecond: int)
    requires
        TimeOfDay::is_valid(hour, minute, second, nanosecond),
    ensures
        ({
            let n = TimeOfDay::nanos_of(hour, minute, second, nanosecond);
            &&& 0 <= n < NANOS_PER_DAY
            &&& n / (NANOS_PER_HOUR as int) == hour
            &&& (n / (NANOS_PER_MINUTE as int)) % 60 == minute
            &&& (n / (NANOS_PER_SECOND as int)) % 60 == second
            &&& n % (NANOS_PER_SECOND as int) == nanosecond
        }),
{
}

} // verus!
