//! Conversions of the raw text of a field to the value it stands for. Each
//! kind of value has its own limit of length: 256 bytes for a URL, 128 for a
//! date and time, 16 for a geographic point. A text that is empty or over
//! the limit of its kind is refused before its form is looked at.

use vstd::prelude::*;
use crate::datetime::{parsed_rfc2822, DateTime};
use crate::decimal::is_float_literal;
use crate::rss::GeoRssPoint;
use crate::rss2::{Coordinates, ElementKind};
use crate::text::{byte_len, byte_length, chars_of, split, split_spans, Span};
use crate::weburl::{parsed_url, Url};

verus! {

/// The greatest length in bytes of the raw text of a string or of a URL.
pub const FIELD_MAX_LEN: usize = 256;

/// The greatest length in bytes of the raw text of a date and time.
pub const DATE_TIME_MAX_LEN: usize = 128;

/// The greatest length in bytes of the raw text of a geographic point.
pub const POINT_MAX_LEN: usize = 16;

/// Why a raw text could not be converted.
#[derive(Clone, Copy, Debug, PartialEq, Eq, Structural)]
pub enum Error {
    Conversion,
}

/// A raw text is within a limit where it is not empty and has at most
/// `max_len` bytes.
pub open spec fn is_within(s: Seq<char>, max_len: nat) -> bool {
    0 < s.len() && byte_len(s) <= max_len
}

/// Whether a raw text is not empty and has at most `max_len` bytes.
pub fn within(s: &str, max_len: usize) -> (b: bool)
    ensures
        b == is_within(s@, max_len as nat),
{
    !s.is_empty() && byte_length(s) <= max_len
}

/// A raw text is admitted as a string or as a URL where it is not empty and
/// has at most 256 bytes.
pub open spec fn is_valid_str(s: Seq<char>) -> bool {
    is_within(s, FIELD_MAX_LEN as nat)
}

/// Whether a raw text is admitted as a string or as a URL.
pub fn valid_str(s: &str) -> (b: bool)
    ensures
        b == is_valid_str(s@),
{
    if s.is_empty() || byte_length(s) > FIELD_MAX_LEN {
        return false;
    }
    true
}

/// The instant that a text gives in the format of RFC 2822, for a text that
/// is not empty and has at most 128 bytes; a longer text gives none,
/// whatever its form.
pub open spec fn date_time_of(s: Seq<char>) -> Option<DateTime> {
    if is_within(s, DATE_TIME_MAX_LEN as nat) {
        parsed_rfc2822(s)
    } else {
        None
    }
}

/// Converts a raw text to a date and time.
pub fn to_date_time(s: &str) -> (r: Result<DateTime, Error>)
    ensures
        match r {
            Ok(instant) => date_time_of(s@) == Some(instant),
            Err(_) => date_time_of(s@) is None,
        },
{
    if !within(s, DATE_TIME_MAX_LEN) {
        return Err(Error::Conversion);
    }
    match DateTime::parse_from_rfc2822(s) {
        Ok(parsed) => Ok(parsed),
        Err(_) => Err(Error::Conversion),
    }
}

/// The serialization of the URL that a text gives, for a text that is not
/// empty and has at most 256 bytes; a longer text gives none.
pub open spec fn url_of(s: Seq<char>) -> Option<Seq<char>> {
    if is_valid_str(s) {
        parsed_url(s)
    } else {
        None
    }
}

/// Converts a raw text to a URL.
pub fn to_url(s: &str) -> (r: Result<Url, Error>)
    ensures
        match r {
            Ok(url) => url_of(s@) == Some(url@),
            Err(_) => url_of(s@) is None,
        },
{
    if !valid_str(s) {
        return Err(Error::Conversion);
    }
    match Url::parse(s) {
        Ok(parsed) => Ok(parsed),
        Err(_) => Err(Error::Conversion),
    }
}

/// The point that a text gives, for a text that is not empty and has at
/// most 16 bytes: a single space parts it into exactly two pieces, the
/// latitude and the longitude, which are both floating-point literals. A
/// longer text gives none, whatever its form.
pub open spec fn point_of(s: Seq<char>) -> Option<Coordinates> {
    let parts = split(s, ' ');
    if is_within(s, POINT_MAX_LEN as nat) && parts.len() == 2 && is_float_literal(parts[0])
        && is_float_literal(parts[1]) {
        Some(Coordinates { latitude: parts[0], longitude: parts[1] })
    } else {
        None
    }
}

/// Each converter gives a value exactly for the texts that the kind of the
/// value accepts as an element: a text that is empty, longer than the
/// kind's limit or not of the kind's form gives none.
pub proof fn lemma_converters_keep_the_limits(s: Seq<char>)
    ensures
        url_of(s) is Some <==> ElementKind::Url.refusal(s) is None,
        date_time_of(s) is Some <==> ElementKind::DateTime.refusal(s) is None,
        point_of(s) is Some <==> ElementKind::GeoRssPoint.refusal(s) is None,
        byte_len(s) > 256 ==> url_of(s) is None,
        byte_len(s) > 128 ==> date_time_of(s) is None,
        byte_len(s) > 16 ==> point_of(s) is None,
{
}

/// Converts a raw text to a geographic point.
pub fn to_geo_rss_point(s: &str) -> (r: Result<GeoRssPoint, Error>)
    ensures
        match r {
            Ok(point) => point_of(s@) == Some(point@),
            Err(_) => point_of(s@) is None,
        },
{
    if !within(s, POINT_MAX_LEN) {
        return Err(Error::Conversion);
    }
    let chars = chars_of(s);
    let collected = split_spans(&chars, ' ');
    if collected.len() != 2 {
        return Err(Error::Conversion);
    }
    let first: Span = collected[0];
    let second: Span = collected[1];
    match GeoRssPoint::new(
        s.substring_char(first.start, first.end),
        s.substring_char(second.start, second.end),
    ) {
        Ok(point) => Ok(point),
        Err(_) => Err(Error::Conversion),
    }
}

} // verus!
