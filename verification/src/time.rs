//! Instants, and their RFC 3339 texts.

use crate::error::Error;
use crate::text::text_before;
use vstd::prelude::*;

verus! {

/// An instant in UTC: seconds since 1970 and nanoseconds on top of them. During a leap second,
/// which follows the last second of a minute, the nanoseconds go on counting past a second.
#[derive(Debug, Clone, Copy, PartialEq, Eq, Structural)]
pub struct Timestamp {
    pub secs: i64,
    pub nanos: u32,
}

/// The first second of the year -262143.
pub const FIRST_SECOND: i64 = -8_334_601_228_800;

/// The last second of the year 262142.
pub const LAST_SECOND: i64 = 8_210_266_876_799;

/// The first second of the year 0.
pub const FIRST_FOUR_DIGIT_SECOND: i64 = -62_167_219_200;

/// The last second of the year 9999.
pub const LAST_FOUR_DIGIT_SECOND: i64 = 253_402_300_799;

impl Timestamp {
    /// Whether the instant lies in the calendar's range and its nanoseconds are in theirs.
    pub open spec fn valid(self) -> bool {
        &&& FIRST_SECOND <= self.secs <= LAST_SECOND
        &&& self.nanos < 1_000_000_000 || (self.nanos < 2_000_000_000 && self.secs as int % 60
            == 59)
    }

    /// Whether the instant lies in a year that is written with four digits and no sign.
    pub open spec fn in_four_digit_year(self) -> bool {
        FIRST_FOUR_DIGIT_SECOND <= self.secs <= LAST_FOUR_DIGIT_SECOND
    }

    /// Where the instant stands on a line: its nanoseconds, with room for a leap second behind
    /// every second.
    pub open spec fn ticks(self) -> int {
        self.secs * 2_000_000_000 + self.nanos
    }

    /// Whether this instant comes before `other`.
    pub open spec fn earlier(self, other: Timestamp) -> bool {
        self.secs < other.secs || (self.secs == other.secs && self.nanos < other.nanos)
    }

    /// The instant of these seconds and nanoseconds, if there is one.
    pub fn new(secs: i64, nanos: u32) -> (r: Option<Timestamp>)
        ensures
            r == if (Timestamp { secs, nanos }).valid() {
                Some(Timestamp { secs, nanos })
            } else {
                None
            },
    {
        if secs < FIRST_SECOND || secs > LAST_SECOND {
            return None;
        }
        if nanos < 1_000_000_000 {
            return Some(Timestamp { secs, nanos });
        }
        let shifted: u64 = (secs as i128 - (FIRST_SECOND as i128)) as u64;
        assert(shifted as int == secs - FIRST_SECOND);
        assert(FIRST_SECOND as int % 60 == 0);
        assert(shifted as int % 60 == secs as int % 60);
        if nanos < 2_000_000_000 && shifted % 60 == 59 {
            Some(Timestamp { secs, nanos })
        } else {
            None
        }
    }
}

/// Why a text is not an RFC 3339 time.
#[derive(Debug, Clone, Copy, PartialEq, Eq, Structural)]
pub enum TimeError {
    OutOfRange,
    Impossible,
    NotEnough,
    Invalid,
    TooShort,
    TooLong,
    BadFormat,
}

/// What reading a text as an RFC 3339 time gives.
pub uninterp spec fn rfc3339_instant(text: Seq<char>) -> Result<Timestamp, TimeError>;

/// How an instant is written in RFC 3339.
pub uninterp spec fn rfc3339_text(t: Timestamp) -> Seq<char>;

/// `chrono::DateTime::parse_from_rfc3339`, turned to UTC: the outcome depends on the text alone,
/// and an instant that is read is one of the calendar. Which texts are accepted is left to the
/// grammar of RFC 3339.
#[verifier::external_body]
fn read_rfc3339(text: &str) -> (r: Result<Timestamp, TimeError>)
    ensures
        r == rfc3339_instant(text@),
        r matches Ok(t) ==> t.valid(),
{
    match chrono::DateTime::parse_from_rfc3339(text).map(|t| t.with_timezone(&chrono::Utc)) {
        Ok(t) => Ok(Timestamp { secs: t.timestamp(), nanos: t.timestamp_subsec_nanos() }),
        Err(e) => Err(match e.kind() {
            chrono::format::ParseErrorKind::OutOfRange => TimeError::OutOfRange,
            chrono::format::ParseErrorKind::Impossible => TimeError::Impossible,
            chrono::format::ParseErrorKind::NotEnough => TimeError::NotEnough,
            chrono::format::ParseErrorKind::Invalid => TimeError::Invalid,
            chrono::format::ParseErrorKind::TooShort => TimeError::TooShort,
            chrono::format::ParseErrorKind::TooLong => TimeError::TooLong,
            _ => TimeError::BadFormat,
        }),
    }
}

/// `chrono::DateTime::to_rfc3339` of the instant in UTC: the text depends on the instant alone,
/// reading it gives the instant back, and texts sort as their instants do. They do because every
/// part of a text has a fixed width but for the fraction of the second, of which trailing zeros
/// are left out by threes, and behind it comes the `+` of the offset, which sorts before the
/// point and the digits. Of years with a sign, which RFC 3339 does not have, only the first is
/// claimed.
#[verifier::external_body]
pub(crate) fn write_rfc3339(t: Timestamp) -> (r: String)
    requires
        t.valid(),
    ensures
        r@ == rfc3339_text(t),
        t.in_four_digit_year() ==> rfc3339_instant(r@) is Ok,
        t.in_four_digit_year() ==> rfc3339_instant(r@)->Ok_0 == t,
        t.in_four_digit_year() ==> forall|u: Timestamp|
            u.valid() && u.in_four_digit_year() ==> text_before(#[trigger] rfc3339_text(u), r@)
                == u.earlier(t),
        t.in_four_digit_year() ==> forall|u: Timestamp|
            u.valid() && u.in_four_digit_year() ==> text_before(r@, #[trigger] rfc3339_text(u))
                == t.earlier(u),
{
    chrono::DateTime::from_timestamp(t.secs, t.nanos).unwrap().to_rfc3339()
}

/// The bound that a text which was read as a time sets.
pub fn time_bound(read: Result<Timestamp, TimeError>) -> (r: Result<Option<Timestamp>, Error>)
    ensures
        match read {
            Ok(t) => r matches Ok(Some(bound)) && bound == t,
            Err(e) => r matches Err(Error::Time(why)) && why == e,
        },
{
    match read {
        Ok(t) => Ok(Some(t)),
        Err(e) => Err(Error::Time(e)),
    }
}

/// Reads an optional bound: none given is none set.
pub fn parse_time(input: Option<&str>) -> (r: Result<Option<Timestamp>, Error>)
    ensures
        match input {
            Some(text) => match rfc3339_instant(text@) {
                Ok(t) => (r matches Ok(Some(bound)) && bound == t) && t.valid(),
                Err(e) => r matches Err(Error::Time(why)) && why == e,
            },
            None => r matches Ok(None),
        },
{
    match input {
        Some(text) => time_bound(read_rfc3339(text)),
        None => Ok(None),
    }
}

/// Reads a single time.
pub(crate) fn parse_instant(text: &str) -> (r: Result<Timestamp, Error>)
    ensures
        match rfc3339_instant(text@) {
            Ok(t) => (r matches Ok(read) && read == t) && t.valid(),
            Err(e) => r matches Err(Error::Time(why)) && why == e,
        },
{
    match read_rfc3339(text) {
        Ok(t) => Ok(t),
        Err(e) => Err(Error::Time(e)),
    }
}

/// The calendar runs from the year -262143 to the year 262142 without a gap. A second has a
/// thousand million nanoseconds, and the last one of a minute may have as many more.
pub proof fn law_calendar_has_no_gaps(t: Timestamp, later: Timestamp)
    ensures
        t.nanos < 1_000_000_000 ==> (t.valid() <==> -8_334_601_228_800 <= t.secs
            <= 8_210_266_876_799),
        t.nanos >= 2_000_000_000 ==> !t.valid(),
        1_000_000_000 <= t.nanos < 2_000_000_000 ==> (t.valid() <==> (Timestamp {
            nanos: 0,
            ..t
        }).valid() && (t.secs + 1) % 60 == 0),
        t.in_four_digit_year() <==> -62_167_219_200 <= t.secs < 253_402_300_800,
        t.valid() && later.valid() ==> (t.earlier(later) <==> t.ticks() < later.ticks()),
{
}

} // verus!
