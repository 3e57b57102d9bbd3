//! Instants of time, held as plain numbers and rendered by `chrono`.

use chrono::DateTime;
use chrono::Utc;
use std::time::SystemTime;
use vstd::prelude::*;

verus! {

/// Whether `chrono` has a UTC date-time that lies `secs` whole seconds and
/// `nanos` nanoseconds after the Unix epoch.
pub uninterp spec fn utc_datetime_exists(secs: int, nanos: int) -> bool;

/// The RFC 3339 text that `chrono` writes for the UTC date-time at `secs`
/// seconds and `nanos` nanoseconds after the Unix epoch.
pub uninterp spec fn rfc3339_text(secs: int, nanos: int) -> Seq<char>;

/// Calls `chrono::DateTime::from_timestamp` and reports whether it found a
/// date-time.  Nothing is claimed beyond naming that answer.
#[verifier::external_body]
fn datetime_exists(secs: i64, nanos: u32) -> (found: bool)
    ensures
        found == utc_datetime_exists(secs as int, nanos as int),
{
    DateTime::from_timestamp(secs, nanos).is_some()
}

/// Calls `chrono::DateTime::to_rfc3339` on the date-time that
/// `DateTime::from_timestamp` builds from the two numbers.  The result is
/// `None` exactly when there is no such date-time; otherwise it is the text
/// that `chrono` wrote, which is only named here.
#[verifier::external_body]
fn rfc3339_of(secs: i64, nanos: u32) -> (text: Option<String>)
    ensures
        text is Some <==> utc_datetime_exists(secs as int, nanos as int),
        text matches Some(t) ==> t@ == rfc3339_text(secs as int, nanos as int),
{
    match DateTime::from_timestamp(secs, nanos) {
        Some(moment) => Some(moment.to_rfc3339()),
        None => None,
    }
}

/// The text that `chrono` writes for the UTC date-time at `secs` seconds and
/// `nanos` nanoseconds after the Unix epoch under the pattern
/// `%Y-%m-%d %H:%M:%S UTC`.
pub uninterp spec fn display_text(secs: int, nanos: int) -> Seq<char>;

/// Calls `chrono::DateTime::format` with the pattern `%Y-%m-%d %H:%M:%S UTC`
/// on the date-time that `DateTime::from_timestamp` builds from the two
/// numbers, and renders the outcome.  The result is `None` exactly when
/// there is no such date-time; otherwise it is the text that `chrono` wrote,
/// which is only named here.
#[verifier::external_body]
fn display_of(secs: i64, nanos: u32) -> (text: Option<String>)
    ensures
        text is Some <==> utc_datetime_exists(secs as int, nanos as int),
        text matches Some(t) ==> t@ == display_text(secs as int, nanos as int),
{
    match DateTime::from_timestamp(secs, nanos) {
        Some(moment) => Some(moment.format("%Y-%m-%d %H:%M:%S UTC").to_string()),
        None => None,
    }
}

/// The instant that `chrono` reads from a text under the pattern
/// `%Y-%m-%d %H:%M:%S %z`, as seconds and nanoseconds after the Unix epoch,
/// or `None` where `chrono` does not accept the text.
pub uninterp spec fn parsed_instant(text: Seq<char>) -> Option<(int, int)>;

/// The words in which `chrono` says why it does not accept a text under the
/// pattern `%Y-%m-%d %H:%M:%S %z`.
pub uninterp spec fn parse_refusal(text: Seq<char>) -> Seq<char>;

/// Calls `chrono::DateTime::parse_from_str` with the pattern
/// `%Y-%m-%d %H:%M:%S %z`.  An accepted text is moved to UTC with
/// `DateTime::with_timezone` and handed back as Unix seconds and sub-second
/// nanoseconds; a refusal is handed back in the words of `chrono`'s
/// `Display` for its `ParseError`.  Both outcomes are only named; of the two
/// numbers it is claimed, as `chrono` documents, that
/// `DateTime::from_timestamp` leads back from them to the same date-time.
#[verifier::external_body]
fn parse_instant(text: &str) -> (parsed: Result<(i64, u32), String>)
    ensures
        parsed is Ok <==> parsed_instant(text@) is Some,
        parsed matches Ok(p) ==> parsed_instant(text@) == Some((p.0 as int, p.1 as int))
            && utc_datetime_exists(p.0 as int, p.1 as int),
        parsed matches Err(reason) ==> reason@ == parse_refusal(text@),
{
    match DateTime::parse_from_str(text, "%Y-%m-%d %H:%M:%S %z") {
        Ok(moment) => {
            let utc = moment.with_timezone(&Utc);
            Ok((utc.timestamp(), utc.timestamp_subsec_nanos()))
        },
        Err(failure) => Err(failure.to_string()),
    }
}

/// Calls std's `SystemTime::now` and `chrono`'s conversion of that reading
/// into a UTC date-time (`From<SystemTime> for DateTime<Utc>`), and hands
/// back its Unix seconds and sub-second nanoseconds.  The conversion takes a
/// clock that reads before the Unix epoch as a negative count of seconds; it
/// gives up only on a clock that reads beyond the years that `chrono` can
/// represent, some 262,000 years from the epoch.  `chrono` documents that
/// the two numbers always lead back to the same date-time through
/// `DateTime::from_timestamp`, and that is all that is claimed.
#[verifier::external_body]
fn utc_now() -> (reading: (i64, u32))
    ensures
        utc_datetime_exists(reading.0 as int, reading.1 as int),
{
    let moment: DateTime<Utc> = DateTime::from(SystemTime::now());
    (moment.timestamp(), moment.timestamp_subsec_nanos())
}

/// An instant in UTC: whole seconds since the Unix epoch and the nanoseconds
/// within that second.  Every value names a date-time that `chrono` can
/// represent.
#[derive(Clone, Copy, Debug, PartialEq, Eq, Structural)]
pub struct Timestamp {
    secs: i64,
    nanos: u32,
}

impl Timestamp {
    #[verifier::type_invariant]
    spec fn representable(self) -> bool {
        utc_datetime_exists(self.secs as int, self.nanos as int)
    }

    /// Whole seconds since the Unix epoch.
    pub closed spec fn seconds(self) -> int {
        self.secs as int
    }

    /// Nanoseconds within the second.
    pub closed spec fn subsec_nanos(self) -> int {
        self.nanos as int
    }

    /// The RFC 3339 text of the instant, as `chrono` writes it.
    pub open spec fn rfc3339(self) -> Seq<char> {
        rfc3339_text(self.seconds(), self.subsec_nanos())
    }

    /// The instant at `secs` seconds and `nanos` nanoseconds after the Unix
    /// epoch, or `None` when `chrono` has no such date-time.
    pub fn new(secs: i64, nanos: u32) -> (made: Option<Timestamp>)
        ensures
            made is Some <==> utc_datetime_exists(secs as int, nanos as int),
            made matches Some(t) ==> t.seconds() == secs && t.subsec_nanos() == nanos,
    {
        if datetime_exists(secs, nanos) {
            Some(Timestamp { secs, nanos })
        } else {
            None
        }
    }

    /// The current reading of the system clock: whatever it reads, an instant that `chrono` has.
    pub fn now() -> (reading: Timestamp)
        ensures
            utc_datetime_exists(reading.seconds(), reading.subsec_nanos()),
    {
        let clock = utc_now();
        Timestamp { secs: clock.0, nanos: clock.1 }
    }

    /// Whole seconds since the Unix epoch.
    pub fn secs(&self) -> (s: i64)
        ensures
            s == self.seconds(),
    {
        self.secs
    }

    /// Nanoseconds within the second.
    pub fn nanos(&self) -> (n: u32)
        ensures
            n == self.subsec_nanos(),
    {
        self.nanos
    }

    /// The text of this instant for display, such as
    /// `2015-05-15 00:00:00 UTC`.
    pub open spec fn display(self) -> Seq<char> {
        display_text(self.seconds(), self.subsec_nanos())
    }

    /// The text of this instant for display.
    pub fn to_display(&self) -> (text: String)
        ensures
            text@ == self.display(),
    {
        proof {
            use_type_invariant(self);
        }
        match display_of(self.secs, self.nanos) {
            Some(text) => text,
            None => {
                assert(false);
                String::new()
            },
        }
    }

    /// Reads an instant from a text such as `2015-05-15 00:00:00 +0000`:
    /// date, time of day and offset from UTC.  The result is `Ok` exactly
    /// for the texts that `chrono` accepts under this pattern; for the
    /// others it is `chrono`'s reason for refusing them, in its own words.
    pub fn parse(text: &str) -> (parsed: Result<Timestamp, String>)
        ensures
            parsed is Ok <==> parsed_instant(text@) is Some,
            parsed matches Ok(t) ==> parsed_instant(text@) == Some(
                (t.seconds(), t.subsec_nanos()),
            ),
            parsed matches Err(reason) ==> reason@ == parse_refusal(text@),
    {
        match parse_instant(text) {
            Ok(p) => Ok(Timestamp { secs: p.0, nanos: p.1 }),
            Err(reason) => Err(reason),
        }
    }

    /// The RFC 3339 text of this instant, such as `2015-05-15T00:00:00+00:00`.
    pub fn to_rfc3339(&self) -> (text: String)
        ensures
            text@ == self.rfc3339(),
    {
        proof {
            use_type_invariant(self);
        }
        match rfc3339_of(self.secs, self.nanos) {
            Some(text) => text,
            None => {
                assert(false);
                String::new()
            },
        }
    }
}

} // verus!
