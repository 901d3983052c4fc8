//! Points in time, and the whole minutes between two of them.
use vstd::prelude::*;

verus! {

/// Nanoseconds in one second.
pub const NANOS_PER_SEC: u32 = 1_000_000_000;

/// Nanoseconds in one minute.
pub const NANOS_PER_MINUTE: u64 = 60_000_000_000;

/// A point in time: seconds since the Unix epoch and nanoseconds into that
/// second.
#[derive(PartialEq, Eq, Debug, Clone, Copy, Structural)]
pub struct Timestamp {
    /// Whole seconds since 1970-01-01T00:00:00Z; negative before it.
    pub secs: i64,
    /// Nanoseconds past `secs`.
    pub nanos: u32,
}

/// What `chrono::DateTime::parse_from_rfc3339` makes of a text: the seconds
/// since the Unix epoch and the nanoseconds into that second of the instant
/// it denotes, or `None` where the text is no RFC 3339 date and time.
pub uninterp spec fn rfc3339_parsed(text: Seq<char>) -> Option<(int, int)>;

/// What `chrono::DateTime::to_rfc3339` writes for the instant `nanos`
/// nanoseconds after second `secs` since the Unix epoch, in UTC, or `None`
/// where `chrono::DateTime::from_timestamp` has no date for it.
pub uninterp spec fn rfc3339_text(secs: int, nanos: int) -> Option<Seq<char>>;

/// The quotient of `n` by `d`, rounded towards zero.
pub open spec fn truncated_div(n: int, d: int) -> int
    recommends
        d > 0,
{
    if n >= 0 {
        n / d
    } else {
        -((-n) / d)
    }
}

/// The whole minutes from `from` to `to`, rounded towards zero; negative
/// where `to` lies before `from`.
pub open spec fn elapsed_minutes(from: Timestamp, to: Timestamp) -> int {
    truncated_div(to.instant() - from.instant(), NANOS_PER_MINUTE as int)
}

impl Timestamp {
    /// Nanoseconds since the Unix epoch.
    pub open spec fn instant(self) -> int {
        self.secs * (NANOS_PER_SEC as int) + self.nanos
    }

    /// The point in time `nanos` nanoseconds after second `secs`.
    pub fn new(secs: i64, nanos: u32) -> (t: Timestamp)
        ensures
            t.secs == secs,
            t.nanos == nanos,
    {
        Timestamp { secs, nanos }
    }

    /// Reads the system clock through `chrono::Utc::now`, which fails on a
    /// clock set before 1970. Nothing is claimed of the result.
    #[verifier::external_body]
    pub(crate) fn now() -> (t: Timestamp) {
        let t = chrono::Utc::now();
        Timestamp { secs: t.timestamp(), nanos: t.timestamp_subsec_nanos() }
    }

    /// Calls `chrono::DateTime::parse_from_rfc3339` and takes the instant
    /// from what it returns. The claim: the result is a function of the
    /// text.
    #[verifier::external_body]
    pub(crate) fn parse_rfc3339(text: &str) -> (t: Option<Timestamp>)
        ensures
            match t {
                Some(t) => rfc3339_parsed(text@) == Some((t.secs as int, t.nanos as int)),
                None => rfc3339_parsed(text@) is None,
            },
    {
        match chrono::DateTime::parse_from_rfc3339(text) {
            Ok(t) => Some(Timestamp { secs: t.timestamp(), nanos: t.timestamp_subsec_nanos() }),
            Err(_) => None,
        }
    }

    /// Calls `chrono::DateTime::from_timestamp` and, on the date it gives,
    /// `chrono::DateTime::to_rfc3339`. The claim: the result is a function
    /// of the instant.
    #[verifier::external_body]
    pub(crate) fn to_rfc3339(&self) -> (text: Option<String>)
        ensures
            match text {
                Some(text) => rfc3339_text(self.secs as int, self.nanos as int) == Some(text@),
                None => rfc3339_text(self.secs as int, self.nanos as int) is None,
            },
    {
        match chrono::DateTime::from_timestamp(self.secs, self.nanos) {
            Some(t) => Some(t.to_rfc3339()),
            None => None,
        }
    }

    /// The whole minutes from `earlier` to `self`, rounded towards zero.
    pub fn minutes_since(&self, earlier: &Timestamp) -> (minutes: i64)
        ensures
            minutes == elapsed_minutes(*earlier, *self),
    {
        let secs: i128 = self.secs as i128 - earlier.secs as i128;
        let nanos: i128 = self.nanos as i128 - earlier.nanos as i128;
        let span: i128 = secs * 1_000_000_000 + nanos;
        if span >= 0 {
            let whole: u128 = (span as u128) / 60_000_000_000;
            whole as i64
        } else {
            let whole: u128 = ((-span) as u128) / 60_000_000_000;
            -(whole as i64)
        }
    }
}

} // verus!
