//! Where the time comes from, in seconds since the Unix epoch.

use std::time::{Duration, SystemTime, SystemTimeError, UNIX_EPOCH};
use vstd::prelude::*;

verus! {

/// A moment of the system clock, carried and not looked into.
#[verifier::external_type_specification]
#[verifier::external_body]
pub struct ExSystemTime(SystemTime);

/// The failure of `SystemTime::duration_since`, carried and not looked into.
#[verifier::external_type_specification]
#[verifier::external_body]
pub struct ExSystemTimeError(SystemTimeError);

/// `SystemTime::now`: whatever moment the machine says it is. Nothing is
/// claimed of it.
pub assume_specification[ std::time::SystemTime::now ]() -> std::time::SystemTime;

/// `Duration::as_secs`: the whole seconds of a duration. A duration is opaque
/// here, so nothing is claimed of their number.
pub assume_specification[ std::time::Duration::as_secs ](duration: &std::time::Duration) -> u64;

/// `SystemTime::duration_since` with the Unix epoch: how long after the epoch
/// `moment` is, or a failure where it is before. Moments and durations are
/// opaque here, so nothing is claimed of the answer.
#[verifier::external_body]
fn since_epoch(moment: SystemTime) -> Result<Duration, SystemTimeError> {
    moment.duration_since(UNIX_EPOCH)
}

/// The seconds since the Unix epoch that a clock shows: `since` is how many
/// whole seconds after the epoch it stands, or nothing where it stands before.
pub open spec fn seconds_shown(since: Option<u64>) -> i64 {
    match since {
        Some(seconds) => if seconds <= i64::MAX {
            seconds as i64
        } else {
            i64::MAX
        },
        None => 0,
    }
}

/// The seconds since the Unix epoch to go by: zero for a clock that stands
/// before it, and the largest there is for one that is past counting.
pub fn shown(since: Option<u64>) -> (seconds: i64)
    ensures
        seconds == seconds_shown(since),
{
    match since {
        Some(seconds) => if seconds <= i64::MAX as u64 {
            seconds as i64
        } else {
            i64::MAX
        },
        None => 0,
    }
}

/// Whether a clock that stands `since` the Unix epoch, or before it, shows
/// `seconds`: the whole seconds of the duration, or nothing where there is none.
pub open spec fn reading_shows(since: Result<Duration, SystemTimeError>, seconds: i64) -> bool {
    match since {
        Ok(since) => exists|count: u64| #[trigger]
            call_ensures(Duration::as_secs, (&since,), count) && seconds == seconds_shown(
                Some(count),
            ),
        Err(_) => seconds == seconds_shown(None),
    }
}

/// Whether `since` is what holding `moment` against the Unix epoch gives.
pub closed spec fn epoch_reading(
    moment: SystemTime,
    since: Result<Duration, SystemTimeError>,
) -> bool {
    call_ensures(since_epoch, (moment,), since)
}

/// A reading against the epoch is what `since_epoch` gives, and nothing else.
proof fn law_a_reading_is_taken(moment: SystemTime, since: Result<Duration, SystemTimeError>)
    ensures
        epoch_reading(moment, since) <==> call_ensures(since_epoch, (moment,), since),
{
}

/// Whether `seconds` is what the machine's clock shows: a moment it says it is,
/// held against the Unix epoch, and what that reading shows.
pub open spec fn machine_shows(seconds: i64) -> bool {
    exists|moment: SystemTime, since: Result<Duration, SystemTimeError>| #[trigger]
        epoch_reading(moment, since) && call_ensures(SystemTime::now, (), moment)
            && reading_shows(since, seconds)
}

/// Seconds since the Unix epoch, now: the whole seconds that the machine's
/// moment stands after the epoch, as far as they can be counted, and zero where
/// it stands before.
#[must_use]
pub fn now() -> (seconds: i64)
    ensures
        machine_shows(seconds),
        exists|moment: SystemTime, since: Result<Duration, SystemTimeError>| #[trigger]
            epoch_reading(moment, since) && call_ensures(SystemTime::now, (), moment) && match since {
                Ok(since) => exists|count: u64| #[trigger]
                    call_ensures(Duration::as_secs, (&since,), count) && (count <= i64::MAX
                        ==> seconds == count) && (count > i64::MAX ==> seconds == i64::MAX),
                Err(_) => seconds == 0,
            },
        seconds >= 0,
{
    let moment = SystemTime::now();
    let since = since_epoch(moment);
    proof {
        law_a_reading_is_taken(moment, since);
    }
    let count = match since {
        Ok(since) => {
            let count = since.as_secs();
            assert(call_ensures(Duration::as_secs, (&since,), count));
            Some(count)
        },
        Err(_) => None,
    };
    shown(count)
}

/// Something that tells the time.
pub(crate) trait Clock: Send + Sync {
    /// Whether the clock can be read.
    spec fn readable(&self) -> bool;

    /// Whether the clock can show `now`.
    spec fn shows(&self, now: i64) -> bool;

    /// What the clock shows.
    fn read(&self) -> (now: i64)
        requires
            self.readable(),
        ensures
            self.shows(now),
    ;
}

/// The machine's clock.
pub(crate) struct SystemClock;

impl Clock for SystemClock {
    open spec fn readable(&self) -> bool {
        true
    }

    open spec fn shows(&self, seconds: i64) -> bool {
        call_ensures(now, (), seconds)
    }

    fn read(&self) -> (seconds: i64) {
        now()
    }
}

/// A clock that is a function.
pub(crate) struct FunctionClock<F>(pub F);

impl<F: Fn() -> i64 + Send + Sync> Clock for FunctionClock<F> {
    open spec fn readable(&self) -> bool {
        call_requires(self.0, ())
    }

    open spec fn shows(&self, now: i64) -> bool {
        call_ensures(self.0, (), now)
    }

    fn read(&self) -> (now: i64) {
        (self.0)()
    }
}

} // verus!
