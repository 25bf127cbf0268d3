//! The system clock and the time zone database, both reached through `jiff`.
//!
//! Nothing here is proved: the three functions below call into `jiff`, and the
//! verifier takes their contracts on trust. None of them promises anything
//! about what it returns, so whatever is built on them holds for every answer
//! that clock and database may give.

use crate::time::TimeOfDay;
use vstd::prelude::*;

verus! {

/// `jiff::tz::TimeZone`: a time zone of the database, opaque to the verifier.
#[verifier::external_type_specification]
#[verifier::external_body]
pub struct ExTimeZone(jiff::tz::TimeZone);

/// Looks `name` up in the time zone database with `jiff::tz::TimeZone::get`;
/// `None` when the database holds no zone of that name. Which names it holds
/// depends on the machine, so nothing is claimed of the result.
#[verifier::external_body]
pub(crate) fn lookup_time_zone(name: &str) -> (r: Option<jiff::tz::TimeZone>) {
    match jiff::tz::TimeZone::get(name) {
        Ok(zone) => Some(zone),
        Err(_) => None,
    }
}

/// Reads the system clock and turns the reading into a `jiff::Timestamp` with
/// `jiff::Timestamp::try_from`, then gives its whole milliseconds since the
/// Unix epoch, as `jiff::Timestamp::as_millisecond` counts them. `None` when
/// the clock is set to a time that `jiff` does not represent. Nothing is
/// claimed of the number.
#[verifier::external_body]
pub(crate) fn unix_millis_now() -> (r: Option<i64>) {
    match jiff::Timestamp::try_from(std::time::SystemTime::now()) {
        Ok(timestamp) => Some(timestamp.as_millisecond()),
        Err(_) => None,
    }
}

/// The hour, minute, second and nanosecond that clocks in `zone` show at
/// `millis` milliseconds since the Unix epoch: `jiff::Timestamp::from_millisecond`,
/// `jiff::Timestamp::to_zoned` and `jiff::Zoned::time`, then the four getters
/// of `jiff::civil::Time`. `None` when `millis` is outside the range of
/// `jiff::Timestamp`. Nothing is claimed of the four numbers: the caller
/// checks them.
#[verifier::external_body]
pub(crate) fn civil_time_fields(millis: i64, zone: &jiff::tz::TimeZone) -> (r: Option<
    (i8, i8, i8, i32),
>) {
    match jiff::Timestamp::from_millisecond(millis) {
        Ok(timestamp) => {
            let time = timestamp.to_zoned(zone.clone()).time();
            Some((time.hour(), time.minute(), time.second(), time.subsec_nanosecond()))
        },
        Err(_) => None,
    }
}

/// The zone in which the schedule is read, given what the time zone database
/// made of the configured zone and of the default one: the configured zone
/// where there is one and the database knows it, and else the default zone,
/// if the database knows that.
pub fn zone_in_force(
    configured: Option<jiff::tz::TimeZone>,
    fallback: Option<jiff::tz::TimeZone>,
) -> (r: Option<jiff::tz::TimeZone>)
    ensures
        r == if configured is Some {
            configured
        } else {
            fallback
        },
{
    match configured {
        Some(zone) => Some(zone),
        None => fallback,
    }
}

/// The time of day with the given fields, if they name one.
pub fn time_from_fields(hour: i8, minute: i8, second: i8, nanosecond: i32) -> (r: Option<
    TimeOfDay,
>)
    ensures
        r is Some <==> TimeOfDay::is_valid(
            hour as int,
            minute as int,
            second as int,
            nanosecond as int,
        ),
        r is Some ==> r->0@ == TimeOfDay::nanos_of(
            hour as int,
            minute as int,
            second as int,
            nanosecond as int,
        ),
{
    if hour < 0 || minute < 0 || second < 0 || nanosecond < 0 {
        None
    } else {
        TimeOfDay::from_hms_nano(hour as u8, minute as u8, second as u8, nanosecond as u32)
    }
}

} // verus!
