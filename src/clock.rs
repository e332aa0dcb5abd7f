//! Clock sources: milliseconds elapsed since the custom epoch.

use vstd::prelude::*;
use std::sync::atomic::{AtomicU64, Ordering};
use std::time::{Duration, SystemTime, SystemTimeError, UNIX_EPOCH};

verus! {

/// The custom epoch, 2021-01-01T00:00:00Z, in milliseconds since the Unix epoch.
pub const BASE_EPOCH_MS: u64 = 1_609_459_200_000;

#[verifier::external_type_specification]
#[verifier::external_body]
pub struct ExSystemTime(SystemTime);

#[verifier::external_type_specification]
#[verifier::external_body]
pub struct ExSystemTimeError(SystemTimeError);

/// Relies on std's `SystemTime::now`: the wall-clock time; nothing is known of it.
pub assume_specification[ SystemTime::now ]() -> SystemTime;

/// Relies on std's `SystemTime::duration_since`: the time elapsed since
/// `earlier`, or an error when `earlier` is the later of the two.
pub assume_specification[ SystemTime::duration_since ](
    t: &SystemTime,
    earlier: SystemTime,
) -> Result<Duration, SystemTimeError>;

/// Relies on std's `Duration::as_millis`: the whole milliseconds of a duration.
pub assume_specification[ Duration::as_millis ](d: &Duration) -> u128;

/// Relies on std's `UNIX_EPOCH`: the instant that `duration_since` measures from.
#[verifier::external_body]
fn unix_epoch() -> SystemTime {
    UNIX_EPOCH
}

/// Milliseconds since the custom epoch for a reading of `unix_ms` milliseconds
/// since the Unix epoch; `None` before the custom epoch or past what a `u64` holds.
pub fn millis_since_epoch(unix_ms: u128) -> (r: Option<u64>)
    ensures
        r is Some <==> BASE_EPOCH_MS <= unix_ms <= BASE_EPOCH_MS + u64::MAX,
        r matches Some(t) ==> t == unix_ms - BASE_EPOCH_MS,
{
    if unix_ms < BASE_EPOCH_MS as u128 {
        None
    } else {
        let elapsed = unix_ms - BASE_EPOCH_MS as u128;
        if elapsed > u64::MAX as u128 {
            None
        } else {
            Some(elapsed as u64)
        }
    }
}

/// The wall clock as milliseconds since the custom epoch; `None` when the
/// clock reads a time before it.
pub fn system_millis() -> (r: Option<u64>) {
    let now = SystemTime::now();
    match now.duration_since(unix_epoch()) {
        Ok(elapsed) => millis_since_epoch(elapsed.as_millis()),
        Err(_) => None,
    }
}

/// A clock that plays back fixed readings: the first read gives the first
/// reading, and so on; once they run out the last one repeats.
pub struct MockClock {
    readings: Vec<u64>,
    reads: AtomicU64,
}

impl MockClock {
    /// The readings played back.
    pub closed spec fn readings(&self) -> Seq<u64> {
        self.readings@
    }

    pub fn new(readings: Vec<u64>) -> (r: MockClock)
        ensures
            r.readings() == readings@,
    {
        MockClock { readings, reads: AtomicU64::new(0) }
    }

    /// The next reading; `None` when there are no readings at all. Reads from
    /// several threads each take one reading in turn.
    pub fn now_ms(&self) -> (r: Option<u64>)
        ensures
            r is Some <==> self.readings().len() > 0,
            r matches Some(t) ==> self.readings().contains(t),
    {
        let n = self.readings.len();
        if n == 0 {
            return None;
        }
        let taken = self.reads.fetch_add(1, Ordering::SeqCst);
        let index: usize = if taken >= n as u64 {
            n - 1
        } else {
            taken as usize
        };
        let t = self.readings[index];
        assert(self.readings()[index as int] == t);
        Some(t)
    }
}

/// Where a generator takes its time from.
pub enum TimestampGenerator {
    /// The wall clock.
    Default,
    /// Readings fixed in advance.
    Mock(MockClock),
}

impl TimestampGenerator {
    /// Milliseconds since the custom epoch, or `None` when no time can be read.
    pub fn now_ms(&self) -> (r: Option<u64>)
        ensures
            self matches TimestampGenerator::Mock(m) ==> {
                &&& (r is Some <==> m.readings().len() > 0)
                &&& (r matches Some(t) ==> m.readings().contains(t))
            },
    {
        match self {
            TimestampGenerator::Default => system_millis(),
            TimestampGenerator::Mock(m) => m.now_ms(),
        }
    }
}

} // verus!
