//! A UTC instant stored either as whole seconds since the Unix epoch or as RFC 3339 text.

use vstd::prelude::*;
use chrono::TimeZone;
use vstd::utf8::encode_utf8;
use crate::value::{SqlValue, ColumnError, text_value};

verus! {

/// The earliest second a UTC date-time can hold: January 1 of 262144 BCE, 00:00:00.
pub const MIN_TIMESTAMP: i64 = -8334601228800;

/// The latest second a UTC date-time can hold: December 31 of 262142 CE, 23:59:59.
pub const MAX_TIMESTAMP: i64 = 8210266876799;

/// A UTC date-time: seconds since the Unix epoch and nanoseconds past that second.
/// Nanoseconds of 10^9 and above mark a leap second and occur only on the last second
/// of a minute.
pub open spec fn valid_instant(secs: int, nanos: int) -> bool {
    &&& MIN_TIMESTAMP <= secs <= MAX_TIMESTAMP
    &&& 0 <= nanos
    &&& (nanos < 1_000_000_000 || (nanos < 2_000_000_000 && secs % 60 == 59))
}

/// The instant falls in a year from 0 to 9999, the years RFC 3339 text writes with
/// four digits: from 0000-01-01T00:00:00Z to 9999-12-31T23:59:59Z.
pub open spec fn four_digit_year(secs: int) -> bool {
    -62167219200 <= secs <= 253402300799
}

/// The RFC 3339 text `chrono` writes for an instant (`DateTime::to_rfc3339`).
pub uninterp spec fn rfc3339_text(secs: int, nanos: int) -> Seq<char>;

/// The UTC instant, as seconds and nanoseconds, that `chrono` parses from RFC 3339 text
/// (`DateTime::parse_from_rfc3339`), if it accepts the text.
pub uninterp spec fn rfc3339_instant(text: Seq<char>) -> Option<(int, int)>;

/// The UTC date-time at a whole second, with `chrono`'s `Utc.timestamp_opt(secs, 0)`.
///
/// The contract states what the crate's source shows: a date-time exists exactly for
/// the seconds between the earliest and latest date-time `chrono` represents, and it
/// gives back the same second with no fraction.
#[verifier::external_body]
fn utc_at_second(secs: i64) -> (r: Option<(i64, u32)>)
    ensures
        r is Some <==> MIN_TIMESTAMP <= secs <= MAX_TIMESTAMP,
        r matches Some(p) ==> p.0 == secs && p.1 == 0,
{
    match chrono::Utc.timestamp_opt(secs, 0).single() {
        Some(dt) => Some((dt.timestamp(), dt.timestamp_subsec_nanos())),
        None => None,
    }
}

/// Formats an instant with `chrono`'s `DateTime::to_rfc3339`; the text is named
/// `rfc3339_text` and not spelled out.
///
/// The contract also states how `DateTime::parse_from_rfc3339` reads that text, as the
/// crate's source shows it: a year from 0 to 9999 is written with four digits, and the
/// parser gives back the same second and nanosecond (a leap second is written as second
/// 60 and read back as such); any other year is written with a sign, which the parser
/// rejects.
#[verifier::external_body]
fn format_rfc3339(secs: i64, nanos: u32) -> (s: String)
    requires
        valid_instant(secs as int, nanos as int),
    ensures
        s@ == rfc3339_text(secs as int, nanos as int),
        four_digit_year(secs as int) ==> rfc3339_instant(s@) == Some((secs as int, nanos as int)),
        !four_digit_year(secs as int) ==> rfc3339_instant(s@) is None,
{
    chrono::DateTime::from_timestamp(secs, nanos).unwrap().to_rfc3339()
}

/// Parses RFC 3339 text with `chrono`'s `DateTime::parse_from_rfc3339` and takes the UTC
/// instant it denotes; the result is named `rfc3339_instant`. Any date-time `chrono`
/// returns lies in its representable range, which the contract states.
#[verifier::external_body]
fn parse_rfc3339(text: &str) -> (r: Option<(i64, u32)>)
    ensures
        match r {
            Some(p) => rfc3339_instant(text@) == Some((p.0 as int, p.1 as int)),
            None => rfc3339_instant(text@) is None,
        },
        r matches Some(p) ==> valid_instant(p.0 as int, p.1 as int),
{
    match chrono::DateTime::parse_from_rfc3339(text) {
        Ok(dt) => {
            let utc = dt.with_timezone(&chrono::Utc);
            Some((utc.timestamp(), utc.timestamp_subsec_nanos()))
        },
        Err(_) => None,
    }
}

/// A point in time in UTC.
#[derive(Debug, Clone, Copy, PartialEq, Eq)]
pub struct UtcDateTime {
    secs: i64,
    nanos: u32,
}

impl UtcDateTime {
    #[verifier::type_invariant]
    spec fn well_formed(self) -> bool {
        valid_instant(self.secs as int, self.nanos as int)
    }

    /// Whole seconds since 1970-01-01T00:00:00Z.
    pub closed spec fn secs(self) -> int {
        self.secs as int
    }

    /// Nanoseconds past the second.
    pub closed spec fn nanos(self) -> int {
        self.nanos as int
    }

    /// The date-time `secs` seconds and `nanos` nanoseconds after the Unix epoch, if it
    /// is a valid instant.
    pub fn new(secs: i64, nanos: u32) -> (r: Option<Self>)
        ensures
            r is Some <==> valid_instant(secs as int, nanos as int),
            r matches Some(t) ==> t.secs() == secs && t.nanos() == nanos,
    {
        if secs < MIN_TIMESTAMP || secs > MAX_TIMESTAMP {
            return None;
        }
        // MIN_TIMESTAMP is a whole number of minutes, so the offset from it has the same
        // second-of-minute as `secs`.
        let offset = (secs - MIN_TIMESTAMP) as u64;
        assert(offset as int % 60 == secs as int % 60);
        if nanos < 1_000_000_000 || (nanos < 2_000_000_000 && offset % 60 == 59) {
            Some(UtcDateTime { secs, nanos })
        } else {
            None
        }
    }

    /// Whole seconds since the Unix epoch.
    pub fn timestamp(&self) -> (s: i64)
        ensures
            s == self.secs(),
            valid_instant(self.secs(), self.nanos()),
    {
        proof {
            use_type_invariant(self);
        }
        self.secs
    }

    /// Nanoseconds past the second.
    pub fn timestamp_subsec_nanos(&self) -> (n: u32)
        ensures
            n == self.nanos(),
    {
        self.nanos
    }
}

/// An instant stored as an INTEGER count of seconds.
#[derive(Debug, Clone, Copy, PartialEq, Eq)]
pub struct DateTimeSeconds(pub UtcDateTime);

/// An instant stored as RFC 3339 TEXT.
#[derive(Debug, Clone, Copy, PartialEq, Eq)]
pub struct DateTimeString(pub UtcDateTime);

/// Reading whole seconds from a column: an INTEGER within the representable range.
pub open spec fn seconds_read(v: SqlValue) -> Result<int, ColumnError> {
    match v.int_of() {
        Ok(secs) => if MIN_TIMESTAMP <= secs <= MAX_TIMESTAMP {
            Ok(secs as int)
        } else {
            Err(ColumnError::InvalidType)
        },
        Err(e) => Err(e),
    }
}

/// Reading RFC 3339 text from a column: TEXT that `chrono` parses.
pub open spec fn rfc3339_read(v: SqlValue) -> Result<(int, int), ColumnError> {
    match v.text_of() {
        Ok(text) => match rfc3339_instant(text) {
            Some(p) => Ok(p),
            None => Err(ColumnError::InvalidType),
        },
        Err(e) => Err(e),
    }
}

impl DateTimeSeconds {
    /// The value bound for this instant: its whole seconds since the epoch as an INTEGER
    /// (the fraction of a second is dropped).
    pub fn to_sql(&self) -> (v: SqlValue)
        ensures
            v == SqlValue::Integer(self.0.secs() as i64),
    {
        SqlValue::Integer(self.0.timestamp())
    }

    /// Reads whole seconds: an INTEGER within the representable range gives that second;
    /// an integer outside it is `InvalidType`, and so is any other storage class.
    pub fn column_result(value: &SqlValue) -> (r: Result<DateTimeSeconds, ColumnError>)
        ensures
            match r {
                Ok(d) => seconds_read(*value) == Ok::<int, ColumnError>(d.0.secs()) && d.0.nanos() == 0,
                Err(e) => seconds_read(*value) == Err::<int, ColumnError>(e),
            },
    {
        let ts = match value.as_i64() {
            Ok(t) => t,
            Err(e) => return Err(e),
        };
        match utc_at_second(ts) {
            Some((secs, nanos)) => Ok(DateTimeSeconds(UtcDateTime { secs, nanos })),
            None => Err(ColumnError::InvalidType),
        }
    }
}

impl DateTimeString {
    /// The value bound for this instant: its RFC 3339 text as TEXT.
    ///
    /// Reading the value back gives the same instant, to the nanosecond, when its year
    /// is from 0 to 9999; for any other year the text does not read back.
    pub fn to_sql(&self) -> (v: SqlValue)
        ensures
            v matches SqlValue::Text(bytes) && bytes@ == encode_utf8(rfc3339_text(self.0.secs(), self.0.nanos())),
            v.text_of() == Ok::<Seq<char>, ColumnError>(rfc3339_text(self.0.secs(), self.0.nanos())),
            rfc3339_read(v) == if four_digit_year(self.0.secs()) {
                Ok::<(int, int), ColumnError>((self.0.secs(), self.0.nanos()))
            } else {
                Err::<(int, int), ColumnError>(ColumnError::InvalidType)
            },
    {
        proof {
            use_type_invariant(self.0);
        }
        let text = format_rfc3339(self.0.secs, self.0.nanos);
        text_value(text.as_str())
    }

    /// Reads RFC 3339 text: a non-TEXT value is `InvalidType`, text that is not UTF-8 is
    /// `InvalidUtf8`, and text `chrono` does not parse is `InvalidType`.
    pub fn column_result(value: &SqlValue) -> (r: Result<DateTimeString, ColumnError>)
        ensures
            match r {
                Ok(d) => rfc3339_read(*value) == Ok::<(int, int), ColumnError>((d.0.secs(), d.0.nanos())),
                Err(e) => rfc3339_read(*value) == Err::<(int, int), ColumnError>(e),
            },
    {
        let text = match value.as_str() {
            Ok(t) => t,
            Err(e) => return Err(e),
        };
        match parse_rfc3339(text) {
            Some((secs, nanos)) => Ok(DateTimeString(UtcDateTime { secs, nanos })),
            None => Err(ColumnError::InvalidType),
        }
    }
}

/// An instant stored as seconds reads back as the same second; only the fraction of a
/// second is lost.
pub proof fn law_seconds_round_trip(d: DateTimeSeconds)
    requires
        valid_instant(d.0.secs(), d.0.nanos()),
    ensures
        seconds_read(SqlValue::Integer(d.0.secs() as i64)) == Ok::<int, ColumnError>(d.0.secs()),
{
}

} // verus!
