use chrono::{DateTime, SecondsFormat, Utc};
use vstd::prelude::*;

verus! {

/// The largest sub-second nanosecond count; chrono goes past one second only
/// to represent a leap second.
pub const MAX_NANOS: u32 = 1_999_999_999;

/// An absolute instant in UTC: whole seconds since the Unix epoch and the
/// nanoseconds within that second.
#[derive(Clone, Copy, Debug, PartialEq, Eq, Structural)]
pub struct Timestamp {
    pub secs: i64,
    pub nanos: u32,
}

/// The instant (seconds, nanoseconds, normalised to UTC) that an RFC 3339 text
/// denotes, or `None` where the text is not RFC 3339.
pub uninterp spec fn rfc3339_instant(text: Seq<char>) -> Option<(i64, u32)>;

/// The RFC 3339 text, in UTC with a `Z` suffix and as many fractional digits
/// as the nanoseconds need, of the given instant; `None` where the instant is
/// outside the range that can be written.
pub uninterp spec fn rfc3339_text(secs: i64, nanos: u32) -> Option<Seq<char>>;

impl Timestamp {
    pub open spec fn wf(self) -> bool {
        self.nanos <= MAX_NANOS
    }

    /// Parses an RFC 3339 text with any UTC offset into the instant it denotes.
    pub fn parse_rfc3339(text: &str) -> (r: Option<Timestamp>)
        ensures
            match r {
                Some(t) => rfc3339_instant(text@) == Some((t.secs, t.nanos)) && t.wf(),
                None => rfc3339_instant(text@) is None,
            },
    {
        parse_instant(text)
    }

    /// The RFC 3339 form of this instant in UTC, as the event's wire format
    /// writes it.
    pub fn to_rfc3339(&self) -> (r: Option<String>)
        ensures
            match r {
                Some(s) => rfc3339_text(self.secs, self.nanos) == Some(s@),
                None => rfc3339_text(self.secs, self.nanos) is None,
            },
    {
        format_instant(self.secs, self.nanos)
    }

    /// The current instant of the system clock.
    pub fn now() -> (r: Timestamp)
        ensures
            r.wf(),
    {
        clock_now()
    }
}

/// Relies on chrono's `DateTime::parse_from_rfc3339`; the parsed value is read
/// back through `timestamp` and `timestamp_subsec_nanos`, whose nanoseconds
/// stay below two seconds (one past only for a leap second).
#[verifier::external_body]
fn parse_instant(text: &str) -> (r: Option<Timestamp>)
    ensures
        match r {
            Some(t) => rfc3339_instant(text@) == Some((t.secs, t.nanos)) && t.nanos <= MAX_NANOS,
            None => rfc3339_instant(text@) is None,
        },
{
    match DateTime::parse_from_rfc3339(text) {
        Ok(dt) => Some(Timestamp { secs: dt.timestamp(), nanos: dt.timestamp_subsec_nanos() }),
        Err(_) => None,
    }
}

/// Relies on chrono's `DateTime::<Utc>::from_timestamp` (which refuses an
/// instant out of its range) and `to_rfc3339_opts(SecondsFormat::AutoSi, true)`,
/// the form chrono's serde support writes.
#[verifier::external_body]
fn format_instant(secs: i64, nanos: u32) -> (r: Option<String>)
    ensures
        match r {
            Some(s) => rfc3339_text(secs, nanos) == Some(s@),
            None => rfc3339_text(secs, nanos) is None,
        },
{
    match DateTime::<Utc>::from_timestamp(secs, nanos) {
        Some(dt) => Some(dt.to_rfc3339_opts(SecondsFormat::AutoSi, true)),
        None => None,
    }
}

/// Relies on chrono's `Utc::now`; its sub-second nanoseconds stay below two
/// seconds.
#[verifier::external_body]
fn clock_now() -> (r: Timestamp)
    ensures
        r.nanos <= MAX_NANOS,
{
    let now = Utc::now();
    Timestamp { secs: now.timestamp(), nanos: now.timestamp_subsec_nanos() }
}

} // verus!
