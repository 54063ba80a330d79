//! Points in time, read and written by the `chrono` crate.

use crate::error::PostError;
use vstd::prelude::*;

verus! {

/// The parse error of the `chrono` crate, `chrono::ParseError`, whose inside
/// is not looked into.
#[verifier::external_type_specification]
#[verifier::external_body]
pub struct ExChronoParseError(chrono::ParseError);

/// The instant that `chrono` reads from a text as a `DateTime<Utc>`, given
/// as whole seconds since the Unix epoch and the nanoseconds past them, or
/// `None` where it rejects the text.
pub uninterp spec fn utc_instant(text: Seq<char>) -> Option<(i64, u32)>;

/// The RFC 3339 text that `chrono` writes for an instant, or `None` where
/// it has no `DateTime<Utc>` for these seconds and nanoseconds.
pub uninterp spec fn utc_text(seconds: i64, nanoseconds: u32) -> Option<Seq<char>>;

/// Parses a text as a `chrono::DateTime<chrono::Utc>` through its `FromStr`
/// and hands the instant back as `timestamp()` and
/// `timestamp_subsec_nanos()` give it. Trusted: the outcome is the one that
/// `utc_instant` names for the text; and an instant that was read has a
/// text, since `chrono` documents that `from_timestamp` gives the
/// `DateTime` back from these two numbers of it.
#[verifier::external_body]
fn parse_utc(text: &str) -> (parsed: Result<(i64, u32), chrono::ParseError>)
    ensures
        match parsed {
            Ok(instant) => utc_instant(text@) == Some(instant) && utc_text(
                instant.0,
                instant.1,
            ).is_some(),
            Err(_) => utc_instant(text@).is_none(),
        },
{
    match text.parse::<chrono::DateTime<chrono::Utc>>() {
        Ok(instant) => Ok((instant.timestamp(), instant.timestamp_subsec_nanos())),
        Err(error) => Err(error),
    }
}

/// Makes the instant with `chrono::DateTime::from_timestamp` and writes it
/// with `to_rfc3339_opts`, subsecond digits as needed and `Z` for the
/// offset. Trusted: the outcome is the one that `utc_text` names for the
/// seconds and nanoseconds.
#[verifier::external_body]
fn format_utc(seconds: i64, nanoseconds: u32) -> (text: Option<String>)
    ensures
        match text {
            Some(text) => utc_text(seconds, nanoseconds) == Some(text@),
            None => utc_text(seconds, nanoseconds).is_none(),
        },
{
    match chrono::DateTime::from_timestamp(seconds, nanoseconds) {
        Some(instant) => Some(instant.to_rfc3339_opts(chrono::SecondsFormat::AutoSi, true)),
        None => None,
    }
}

/// A point in time in UTC: whole seconds since the Unix epoch, and the
/// nanoseconds past them.
#[derive(Clone, Copy, Debug, PartialEq, Eq, Structural, Hash)]
pub struct Timestamp {
    pub seconds: i64,
    pub nanoseconds: u32,
}

impl Timestamp {
    /// The point in time with the given parts.
    pub fn new(seconds: i64, nanoseconds: u32) -> (timestamp: Timestamp)
        ensures
            timestamp.seconds == seconds,
            timestamp.nanoseconds == nanoseconds,
    {
        Timestamp { seconds, nanoseconds }
    }

    /// What `parse` makes of a text: the instant that the text reads as,
    /// which is one that has a text.
    pub open spec fn spec_parse(text: Seq<char>) -> Result<Timestamp, PostError> {
        match utc_instant(text) {
            Some(instant) => if utc_text(instant.0, instant.1).is_some() {
                Ok(Timestamp { seconds: instant.0, nanoseconds: instant.1 })
            } else {
                Err(PostError::InvalidTimestamp)
            },
            None => Err(PostError::InvalidTimestamp),
        }
    }

    /// A point in time that was read from a text has a text.
    pub proof fn lemma_read_time_has_a_text(text: Seq<char>, time: Timestamp)
        requires
            Self::spec_parse(text) == Ok::<Timestamp, PostError>(time),
        ensures
            time.spec_text().is_some(),
    {
    }

    /// Reads a point in time from date-and-time text.
    pub fn parse(text: &str) -> (parsed: Result<Timestamp, PostError>)
        ensures
            parsed == Self::spec_parse(text@),
    {
        match parse_utc(text) {
            Ok(instant) => Ok(Timestamp { seconds: instant.0, nanoseconds: instant.1 }),
            Err(_) => Err(PostError::InvalidTimestamp),
        }
    }

    /// The point in time as text, where it has one.
    pub open spec fn spec_text(self) -> Option<Seq<char>> {
        utc_text(self.seconds, self.nanoseconds)
    }

    /// Writes the point in time as RFC 3339 text; `None` where the calendar
    /// does not reach it.
    pub fn to_text(&self) -> (text: Option<String>)
        ensures
            match text {
                Some(text) => self.spec_text() == Some(text@),
                None => self.spec_text().is_none(),
            },
    {
        format_utc(self.seconds, self.nanoseconds)
    }
}

} // verus!
