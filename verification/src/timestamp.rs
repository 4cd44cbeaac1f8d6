//! Feed timestamps: RFC 3339 text parsed once into POSIX seconds.

use vstd::prelude::*;

verus! {

/// What chrono's RFC 3339 parser yields for a given piece of text: `Some`
/// POSIX seconds where the text is a well-formed RFC 3339 timestamp with an
/// explicit offset, `None` where chrono rejects it. The result depends on the
/// text alone.
pub uninterp spec fn rfc3339_epoch(s: Seq<char>) -> Option<i64>;

/// Relies on `chrono::DateTime::parse_from_rfc3339`, which parses RFC 3339
/// text with an explicit offset, and `chrono::DateTime::timestamp`, which
/// returns the parsed moment as POSIX seconds. Neither call panics, and both
/// depend on the text alone.
#[verifier::external_body]
fn parse_rfc3339_epoch(s: &str) -> (r: Option<i64>)
    ensures
        r == rfc3339_epoch(s@),
{
    match chrono::DateTime::parse_from_rfc3339(s) {
        Ok(t) => Some(t.timestamp()),
        Err(_) => None,
    }
}

/// A timestamp taken from the feed: the POSIX seconds of a successfully
/// parsed RFC 3339 value, or `None` where the text did not parse.
#[derive(Clone, Copy, Debug, PartialEq, Eq)]
pub struct Timestamp {
    pub epoch_seconds: Option<i64>,
}

impl Timestamp {
    /// Parses RFC 3339 text into a timestamp; text that chrono rejects gives
    /// an invalid timestamp rather than an error.
    pub fn parse(s: &str) -> (t: Timestamp)
        ensures
            t.epoch_seconds == rfc3339_epoch(s@),
    {
        Timestamp { epoch_seconds: parse_rfc3339_epoch(s) }
    }

    /// A timestamp already known in POSIX seconds.
    pub fn from_epoch(seconds: i64) -> (t: Timestamp)
        ensures
            t.epoch_seconds == Some(seconds),
    {
        Timestamp { epoch_seconds: Some(seconds) }
    }

    /// The timestamp of a field that was absent or did not parse.
    pub fn invalid() -> (t: Timestamp)
        ensures
            t.epoch_seconds is None,
    {
        Timestamp { epoch_seconds: None }
    }

    /// Whether the source text parsed.
    pub fn is_valid(&self) -> (r: bool)
        ensures
            r == (self.epoch_seconds is Some),
    {
        self.epoch_seconds.is_some()
    }

    /// The seconds that a feed message carries for this timestamp: the parsed
    /// POSIX seconds reinterpreted as unsigned, or zero (the epoch) where the
    /// source text did not parse.
    pub open spec fn spec_feed_seconds(self) -> u64 {
        match self.epoch_seconds {
            Some(e) => e as u64,
            None => 0,
        }
    }

    /// The best-effort unsigned seconds for feed output; an unparsable
    /// timestamp degrades to the epoch instead of failing.
    pub fn feed_seconds(&self) -> (r: u64)
        ensures
            r == self.spec_feed_seconds(),
    {
        match self.epoch_seconds {
            Some(e) => e as u64,
            None => 0,
        }
    }
}

} // verus!
