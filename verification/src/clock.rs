//! The two clocks the cache reads: seconds since the epoch, which age the
//! snapshot, and local wall-clock text, which stamps a record.

use vstd::prelude::*;

verus! {

/// What `SystemTime::elapsed` returns for a clock that is set before the
/// moment it is measured from.
#[verifier::external_type_specification]
#[verifier::external_body]
pub struct ExSystemTimeError(std::time::SystemTimeError);

/// Calls `SystemTime::elapsed` on `std::time::UNIX_EPOCH`: the time that has
/// passed since the epoch, or an error when the system clock is set before
/// it. Nothing is claimed of the time: it is whatever the clock shows.
#[verifier::external_body]
fn elapsed_since_epoch() -> (elapsed: Result<std::time::Duration, std::time::SystemTimeError>) {
    std::time::UNIX_EPOCH.elapsed()
}

/// The whole seconds that a duration holds: what `Duration::as_secs` gives
/// for it.
pub uninterp spec fn whole_seconds(duration: std::time::Duration) -> u64;

/// `Duration::as_secs` returns the whole seconds that the duration holds.
/// They depend on the duration alone, so they have a name; nothing more is
/// claimed of them, since a duration shows nothing else of itself here.
pub assume_specification[ std::time::Duration::as_secs ](duration: &std::time::Duration) -> (seconds:
    u64)
    ensures
        seconds == whole_seconds(*duration),
;

/// What a reading of the clock counts as: the whole seconds that have passed
/// since the epoch, and 0 where the clock is set before the epoch.
pub open spec fn seconds_read(
    elapsed: Result<std::time::Duration, std::time::SystemTimeError>,
) -> u64 {
    match elapsed {
        Ok(duration) => whole_seconds(duration),
        Err(_) => 0,
    }
}

/// The seconds that a reading of the clock counts as.
pub fn seconds_of(elapsed: Result<std::time::Duration, std::time::SystemTimeError>) -> (seconds:
    u64)
    ensures
        seconds == seconds_read(elapsed),
{
    match elapsed {
        Ok(duration) => duration.as_secs(),
        Err(_) => 0,
    }
}

/// Whole seconds since the Unix epoch; a clock set before the epoch reads as 0.
pub fn get_current_time() -> (seconds: u64)
    ensures
        exists|elapsed: Result<std::time::Duration, std::time::SystemTimeError>|
            seconds == seconds_read(elapsed),
{
    seconds_of(elapsed_since_epoch())
}

/// The pattern every record's `effective` stamp is written in.
pub const TIMESTAMP_PATTERN: &'static str = "%Y-%m-%d %H:%M:%S";

/// The last second that has a stamp of its own, the end of the year 9999 in
/// universal time. Every later second is stamped as this one.
pub const LAST_STAMPED_SECOND: u64 = 253_402_300_799;

/// Calls `chrono::DateTime::from_timestamp` for the second, moves the moment
/// into the machine's time zone with `chrono::DateTime::with_timezone` and
/// writes it out with `chrono::DateTime::format`. The moment is of a type
/// that cannot be handed through verified code, so the three calls stand
/// together here.
///
/// The second is restricted to the years 1970 to 9999, which chrono places on
/// its calendar: that it does so is the one claim. The pattern is restricted
/// to the one the library uses, which chrono accepts. Nothing is claimed of
/// the text: it depends on the machine's time zone.
///
/// chrono looks the time zone up on the machine. A zone that is set up with
/// an offset of a whole day or more makes it stop the program; no argument
/// has a part in that, and chrono offers no local time without that lookup.
#[verifier::external_body]
fn local_time_text(second: i64, pattern: &str) -> (text: Option<String>)
    requires
        0 <= second <= LAST_STAMPED_SECOND,
        pattern@ == TIMESTAMP_PATTERN@,
    ensures
        text is Some,
{
    match chrono::DateTime::from_timestamp(second, 0) {
        Some(moment) => Some(moment.with_timezone(&chrono::Local).format(pattern).to_string()),
        None => None,
    }
}

/// The local time of a second since the epoch as `YYYY-MM-DD HH:MM:SS`. A
/// second after the last stamped one is stamped as that one.
pub fn timestamp_at(seconds: u64) -> String {
    let second = if seconds <= LAST_STAMPED_SECOND {
        seconds
    } else {
        LAST_STAMPED_SECOND
    };
    local_time_text(second as i64, TIMESTAMP_PATTERN).unwrap()
}

/// The current local time as `YYYY-MM-DD HH:MM:SS`. A clock set before the
/// epoch is stamped as the epoch.
pub fn current_timestamp() -> String {
    timestamp_at(get_current_time())
}

} // verus!
