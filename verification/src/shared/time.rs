//! Instants in time, held as the whole seconds since the Unix epoch (UTC)
//! and the nanoseconds past them.

use vstd::prelude::*;

verus! {

/// An instant: whole seconds since 1970-01-01T00:00:00Z and the nanoseconds
/// past them.
#[derive(Clone, Copy, Debug, PartialEq, Eq, Structural, PartialOrd, Ord, Hash)]
pub struct Timestamp {
    pub seconds: i64,
    pub nanoseconds: u32,
}

/// What `chrono::DateTime::parse_from_rfc3339` gives for a text, read in UTC
/// as (seconds since the epoch, nanoseconds past them); `None` where the text
/// is no RFC 3339 date and time.
pub uninterp spec fn rfc3339_instant(text: Seq<char>) -> Option<(i64, u32)>;

/// Parses `text` with `chrono::DateTime::parse_from_rfc3339` and reads the
/// instant in UTC with `timestamp` and `timestamp_subsec_nanos`. The parse
/// depends on the text alone; its result is named by `rfc3339_instant`.
#[verifier::external_body]
fn parse_rfc3339(text: &str) -> (r: Option<(i64, u32)>)
    ensures
        r == rfc3339_instant(text@),
{
    match chrono::DateTime::parse_from_rfc3339(text) {
        Ok(d) => {
            let utc = d.with_timezone(&chrono::Utc);
            Some((utc.timestamp(), utc.timestamp_subsec_nanos()))
        },
        Err(_) => None,
    }
}

/// The RFC 3339 text that chrono writes for an instant,
/// `DateTime::from_timestamp(seconds, nanoseconds)` then `to_rfc3339`; `None`
/// where chrono cannot represent the instant.
pub uninterp spec fn rfc3339_text(seconds: i64, nanoseconds: u32) -> Option<Seq<char>>;

/// An instant from the start of year 0 to the end of year 9999, with fewer
/// than a second's nanoseconds, or a leap second (the nanoseconds from one to
/// two seconds, on the last second of a minute): the instants whose RFC 3339
/// text chrono writes with a four-digit year, which its RFC 3339 parser reads
/// back.
pub open spec fn is_storable_instant(t: Timestamp) -> bool {
    &&& -62_167_219_200 <= t.seconds <= 253_402_300_799
    &&& (t.nanoseconds < 1_000_000_000 || (t.nanoseconds < 2_000_000_000 && t.seconds % 60 == 59))
}

/// Writes an instant as RFC 3339 text with `chrono::DateTime::from_timestamp`
/// and `to_rfc3339`. The text depends on the instant alone; it is named by
/// `rfc3339_text`. For an instant in years 0 to 9999, `from_timestamp` gives a
/// value where the nanoseconds are below a second, or below two seconds on the
/// last second of a minute (its only other failure is days beyond `i32`);
/// `to_rfc3339` writes it as `YYYY-MM-DDTHH:MM:SS`, a leap second as second 60,
/// the nonzero fraction of a second in full and `+00:00` (`write_rfc3339` in
/// chrono's `formatting.rs`); and `parse_from_rfc3339` reads that back as the
/// same instant, second 60 as second 59 plus a second of nanoseconds
/// (`parse_rfc3339` in chrono's `parse.rs`).
#[verifier::external_body]
fn format_rfc3339(seconds: i64, nanoseconds: u32) -> (r: Option<String>)
    ensures
        match r {
            Some(t) => {
                &&& rfc3339_text(seconds, nanoseconds) == Some(t@)
                &&& is_storable_instant(Timestamp { seconds, nanoseconds }) ==> rfc3339_instant(t@)
                    == Some((seconds, nanoseconds))
            },
            None => {
                &&& rfc3339_text(seconds, nanoseconds) is None
                &&& !is_storable_instant(Timestamp { seconds, nanoseconds })
            },
        },
{
    chrono::DateTime::from_timestamp(seconds, nanoseconds).map(|d| d.to_rfc3339())
}

/// The current instant by the system clock, `chrono::Utc::now()`, as seconds
/// and nanoseconds. It depends on the clock; what holds of every reading is
/// what `Utc::now` builds it from, a `Duration` since the epoch: whole seconds
/// that are not negative and fewer than a second's nanoseconds. The call
/// panics where the clock reads a time before the epoch.
#[verifier::external_body]
fn clock_now() -> (r: (i64, u32))
    ensures
        r.0 >= 0,
        r.1 < 1_000_000_000,
{
    let now = chrono::Utc::now();
    (now.timestamp(), now.timestamp_subsec_nanos())
}

/// What every reading of the system clock satisfies: seconds since the epoch
/// that are not negative and fewer than a second's nanoseconds.
pub open spec fn is_clock_reading(t: Timestamp) -> bool {
    t.seconds >= 0 && t.nanoseconds < 1_000_000_000
}

/// The timestamp that an RFC 3339 text names, if it names one.
pub open spec fn parsed_instant(text: Seq<char>) -> Option<Timestamp> {
    match rfc3339_instant(text) {
        Some((s, n)) => Some(Timestamp { seconds: s, nanoseconds: n }),
        None => None,
    }
}

/// The date that an optional text field gives: none for a missing or empty
/// text, and none for a text that is no RFC 3339 date and time.
pub open spec fn optional_date(text: Option<Seq<char>>) -> Option<Timestamp> {
    match text {
        Some(t) => if t.len() == 0 {
            None
        } else {
            parsed_instant(t)
        },
        None => None,
    }
}

impl Timestamp {
    /// The current instant.
    pub fn now() -> (r: Timestamp)
        ensures
            is_clock_reading(r),
    {
        let (seconds, nanoseconds) = clock_now();
        Timestamp { seconds, nanoseconds }
    }

    /// The RFC 3339 text of this instant, or `None` where chrono cannot
    /// represent it. The text of a storable instant reads back as the instant.
    pub fn to_rfc3339(&self) -> (r: Option<String>)
        ensures
            match r {
                Some(t) => rfc3339_text(self.seconds, self.nanoseconds) == Some(t@),
                None => rfc3339_text(self.seconds, self.nanoseconds) is None,
            },
            is_storable_instant(*self) ==> (r matches Some(t) && parsed_instant(t@) == Some(*self)),
    {
        format_rfc3339(self.seconds, self.nanoseconds)
    }

    /// The instant that an RFC 3339 text names, or `None`.
    pub fn parse(text: &str) -> (r: Option<Timestamp>)
        ensures
            r == parsed_instant(text@),
    {
        match parse_rfc3339(text) {
            Some((seconds, nanoseconds)) => Some(Timestamp { seconds, nanoseconds }),
            None => None,
        }
    }
}

/// Reads an optional date field: a missing or empty text gives no date, and so
/// does a text that does not parse.
pub fn parse_optional_date(text: &Option<String>) -> (r: Option<Timestamp>)
    ensures
        r == optional_date(match text {
            Some(t) => Some(t@),
            None => None,
        }),
{
    match text {
        Some(t) => {
            if t.as_str().unicode_len() == 0 {
                None
            } else {
                Timestamp::parse(t.as_str())
            }
        },
        None => None,
    }
}

} // verus!
