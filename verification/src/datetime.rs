//! Instants with a fixed offset from UTC, read and written in the format of
//! RFC 2822 by the `chrono` crate and kept as plain numbers.

use vstd::prelude::*;

verus! {

/// The error of `chrono::DateTime::parse_from_rfc2822`, which is carried
/// through unread.
#[verifier::external_type_specification]
#[verifier::external_body]
pub struct ExChronoParseError(chrono::format::ParseError);

/// An instant together with the offset of the local time it was written in.
#[derive(Clone, Copy, Debug, PartialEq, Eq, Structural)]
pub struct DateTime {
    /// Seconds since 1970-01-01 00:00:00 UTC, leap seconds not counted.
    pub seconds: i64,
    /// Nanoseconds since the last whole second; 1,000,000,000 and more during
    /// a leap second.
    pub nanoseconds: u32,
    /// Seconds that local time is ahead of UTC.
    pub offset: i32,
}

/// Local seconds since the epoch at which the year 0 begins.
pub const YEAR_0_START: i64 = -62_167_219_200;

/// Local seconds since the epoch at which the year 10000 begins.
pub const YEAR_10000_START: i64 = 253_402_300_800;

/// What `chrono::DateTime::parse_from_rfc2822` makes of `text`, or `None`
/// where it refuses `text`.
pub uninterp spec fn parsed_rfc2822(text: Seq<char>) -> Option<DateTime>;

/// What `chrono::DateTime::to_rfc2822` writes for the instant, or `None`
/// where `chrono` has no date and time for the three numbers.
pub uninterp spec fn rfc2822_text(instant: DateTime) -> Option<Seq<char>>;

/// Calls `chrono::DateTime::parse_from_rfc2822` and takes the result apart
/// into the UTC timestamp, its nanoseconds and the offset, in this order.
/// Nothing is claimed of the numbers but that they are what the parser
/// gives for this text, and that the parser fails exactly where
/// [`parsed_rfc2822`] is `None`.
#[verifier::external_body]
fn parse_rfc2822(text: &str) -> (r: Result<(i64, u32, i32), chrono::format::ParseError>)
    ensures
        match r {
            Ok(parts) => parsed_rfc2822(text@) == Some(
                DateTime { seconds: parts.0, nanoseconds: parts.1, offset: parts.2 },
            ),
            Err(_) => parsed_rfc2822(text@) is None,
        },
{
    match chrono::DateTime::parse_from_rfc2822(text) {
        Ok(parsed) => Ok(
            (parsed.timestamp(), parsed.timestamp_subsec_nanos(), parsed.offset().local_minus_utc()),
        ),
        Err(e) => Err(e),
    }
}

/// Rebuilds the `chrono` value from the three numbers and calls
/// `chrono::DateTime::to_rfc2822` on it. That method panics for a local year
/// outside 0 to 9999, which the precondition leaves out. Where `chrono` has
/// no value for the numbers the result is `None`.
#[verifier::external_body]
fn write_rfc2822(instant: &DateTime) -> (r: Option<String>)
    requires
        instant.year_has_four_digits(),
    ensures
        match r {
            Some(text) => rfc2822_text(*instant) == Some(text@),
            None => rfc2822_text(*instant) is None,
        },
{
    let offset = chrono::FixedOffset::east_opt(instant.offset)?;
    let utc = chrono::DateTime::from_timestamp(instant.seconds, instant.nanoseconds)?;
    Some(utc.with_timezone(&offset).to_rfc2822())
}

impl DateTime {
    /// The local time lies in the years 0 to 9999, the only ones that
    /// RFC 2822 can write.
    pub open spec fn year_has_four_digits(self) -> bool {
        YEAR_0_START <= self.seconds + self.offset < YEAR_10000_START
    }

    /// Whether the local time lies in the years 0 to 9999.
    pub fn has_four_digit_year(&self) -> (b: bool)
        ensures
            b == self.year_has_four_digits(),
    {
        let local: i128 = self.seconds as i128 + self.offset as i128;
        YEAR_0_START as i128 <= local && local < YEAR_10000_START as i128
    }

    /// Parses a date and time in the format of RFC 2822. Succeeds exactly
    /// where `chrono`'s parser does; the value is the one that it gives.
    pub fn parse_from_rfc2822(text: &str) -> (r: Result<DateTime, chrono::format::ParseError>)
        ensures
            match r {
                Ok(instant) => parsed_rfc2822(text@) == Some(instant),
                Err(_) => parsed_rfc2822(text@) is None,
            },
    {
        match parse_rfc2822(text) {
            Ok((seconds, nanoseconds, offset)) => Ok(DateTime { seconds, nanoseconds, offset }),
            Err(e) => Err(e),
        }
    }

    /// The instant in the format of RFC 2822, or `None` where the local year
    /// has more than four digits or is negative, for which the format has no
    /// text, or where the numbers are no date and time.
    pub fn to_rfc2822(&self) -> (r: Option<String>)
        ensures
            match r {
                Some(text) => self.year_has_four_digits() && rfc2822_text(*self) == Some(text@),
                None => !self.year_has_four_digits() || rfc2822_text(*self) is None,
            },
    {
        if self.has_four_digit_year() {
            write_rfc2822(self)
        } else {
            None
        }
    }
}

} // verus!
