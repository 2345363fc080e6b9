//! Points in time as whole seconds since the Unix epoch plus a sub-second
//! nanosecond part, and the whole-unit distances between them.

use vstd::prelude::*;

verus! {

pub const NANOS_PER_SECOND: i128 = 1_000_000_000;

/// Length of an hour in nanoseconds.
pub const NANOS_PER_HOUR: i128 = 3_600_000_000_000;

/// Length of a day in nanoseconds.
pub const NANOS_PER_DAY: i128 = 86_400_000_000_000;

/// A point in time in UTC. `nanos` may reach past one second only during a
/// leap second.
#[derive(Clone, Copy, Debug, PartialEq, Eq)]
pub struct Instant {
    pub secs: i64,
    pub nanos: u32,
}

impl Instant {
    /// Nanoseconds since the Unix epoch.
    pub open spec fn total_nanos(self) -> int {
        self.secs * 1_000_000_000 + self.nanos
    }
}

/// Signed time from `from` to `to`, in nanoseconds.
pub open spec fn elapsed(from: Instant, to: Instant) -> int {
    to.total_nanos() - from.total_nanos()
}

/// Division that rounds toward zero.
pub open spec fn div_toward_zero(a: int, b: int) -> int {
    if a >= 0 {
        a / b
    } else {
        -((-a) / b)
    }
}

/// Whole days from `from` to `to`, rounded toward zero.
pub open spec fn whole_days(from: Instant, to: Instant) -> int {
    div_toward_zero(elapsed(from, to), NANOS_PER_DAY as int)
}

/// Whether something last changed at `modified` is still fresh at `now`:
/// less than an hour has gone by (a time in the future counts as fresh).
pub open spec fn within_hour(modified: Instant, now: Instant) -> bool {
    elapsed(modified, now) < NANOS_PER_HOUR as int
}

fn elapsed_nanos(from: Instant, to: Instant) -> (r: i128)
    ensures
        r == elapsed(from, to),
{
    let a: i128 = from.secs as i128 * NANOS_PER_SECOND + from.nanos as i128;
    let b: i128 = to.secs as i128 * NANOS_PER_SECOND + to.nanos as i128;
    b - a
}

/// Whether a cache entry written at `modified` may still be served at `now`.
pub fn is_fresh(modified: Instant, now: Instant) -> (r: bool)
    ensures
        r == within_hour(modified, now),
{
    elapsed_nanos(modified, now) < NANOS_PER_HOUR
}

/// Whole days from `from` to `to`, rounded toward zero.
pub fn days_between(from: Instant, to: Instant) -> (r: i64)
    ensures
        r == whole_days(from, to),
{
    let e = elapsed_nanos(from, to);
    if e >= 0 {
        let d = e / NANOS_PER_DAY;
        proof {
            lemma_day_count_fits(e as int);
        }
        d as i64
    } else {
        let d = (-e) / NANOS_PER_DAY;
        proof {
            lemma_day_count_fits(-e);
        }
        -(d as i64)
    }
}

proof fn lemma_day_count_fits(e: int)
    requires
        0 <= e <= 0x1_0000_0000_0000_0000 * 1_000_000_000 + 0x1_0000_0000,
    ensures
        0 <= e / (NANOS_PER_DAY as int) <= 0x7fff_ffff_ffff_ffff,
{
    assert(0 <= e / 86_400_000_000_000 <= 0x7fff_ffff_ffff_ffff) by (nonlinear_arith)
        requires
            0 <= e <= 0x1_0000_0000_0000_0000 * 1_000_000_000 + 0x1_0000_0000,
    ;
}

/// Reads the clock the way chrono's `Utc::now` does, without its panics:
/// std's `SystemTime::now` and `duration_since(UNIX_EPOCH)` give the time
/// since the epoch (an error before 1970), and chrono's
/// `DateTime::from_timestamp` turns it into a UTC date and time (`None` out
/// of chrono's range), taken apart by `timestamp` and
/// `timestamp_subsec_nanos`. `None` where either step fails; otherwise the
/// sub-second part is that of a `Duration`, below a second.
#[verifier::external_body]
pub(crate) fn utc_now() -> (r: Option<Instant>)
    ensures
        r matches Some(t) ==> t.nanos < 1_000_000_000,
{
    let d = std::time::SystemTime::now().duration_since(std::time::UNIX_EPOCH).ok()?;
    let t = chrono::DateTime::from_timestamp(i64::try_from(d.as_secs()).ok()?, d.subsec_nanos())?;
    Some(Instant { secs: t.timestamp(), nanos: t.timestamp_subsec_nanos() })
}

/// The instant that `s` denotes as an RFC 3339 date and time, if it is one, as
/// seconds since the epoch and the sub-second nanoseconds.
pub uninterp spec fn rfc3339_instant(s: Seq<char>) -> Option<(i64, u32)>;

/// Relies on chrono's `DateTime::parse_from_rfc3339`, with the result taken
/// to UTC (`timestamp`, `timestamp_subsec_nanos`): `None` where chrono refuses
/// the text.
#[verifier::external_body]
pub(crate) fn parse_rfc3339(s: &str) -> (r: Option<Instant>)
    ensures
        r is Some <==> rfc3339_instant(s@) is Some,
        r matches Some(t) ==> rfc3339_instant(s@) == Some((t.secs, t.nanos)),
{
    match chrono::DateTime::parse_from_rfc3339(s) {
        Ok(t) => Some(Instant { secs: t.timestamp(), nanos: t.timestamp_subsec_nanos() }),
        Err(_) => None,
    }
}

} // verus!
