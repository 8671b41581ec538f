//! A reader of a weather provider's forecast feed.
//!
//! The feed is an RSS document with GeoRSS points. [`parser::parse_document`]
//! walks the events of the document and gives the channel with its items,
//! every field validated; [`model::Forecast`] reads the forecast of each day
//! from the items. Fetching the document and printing the forecast are left
//! to the caller.

use vstd::prelude::*;
use vstd::string::StringExecFns;
use crate::dayoption::Day;
use crate::error::Error;
use crate::model::{Daily, DailyView, Forecast};
use crate::rss2::views;
use crate::text::{byte_len, byte_length};
use crate::weburl::{parsed_url, Url};

pub mod convert;
pub mod datetime;
pub mod dayoption;
pub mod decimal;
pub mod display;
pub mod error;
pub mod forecast;
pub mod model;
pub mod parser;
pub mod rss;
pub mod rss2;
pub mod text;
pub mod weburl;
pub mod xml;

verus! {

/// The address under which the three-day feeds are found.
pub const URL_PART: &'static str =
    "https://weather-broker-cdn.api.bbci.co.uk/en/forecast/rss/3day";

/// The greatest length in bytes of the segment that names a location.
pub const SEGMENT_MAX: usize = 128;

/// The address of the feed of a location: the segment is not empty and has
/// at most 128 bytes, and the address is what the URL parser makes of the
/// common part, a slash and the segment.
pub open spec fn feed_url(segment: Seq<char>) -> Result<Seq<char>, Error> {
    if segment.len() == 0 || byte_len(segment) > SEGMENT_MAX {
        Err(Error::InvalidSegment)
    } else {
        match parsed_url(URL_PART@ + "/"@ + segment) {
            Some(url) => Ok(url),
            None => Err(Error::Conversion),
        }
    }
}

/// The address of the feed of the location that `segment` names.
pub fn build_url(segment: &str) -> (r: Result<Url, Error>)
    ensures
        match r {
            Ok(url) => feed_url(segment@) == Ok::<Seq<char>, Error>(url@),
            Err(e) => feed_url(segment@) == Err::<Seq<char>, Error>(e),
        },
{
    if segment.is_empty() || byte_length(segment) > SEGMENT_MAX {
        return Err(Error::InvalidSegment);
    }
    let mut address = String::from_str(URL_PART);
    address.append("/");
    address.append(segment);
    match Url::parse(address.as_str()) {
        Ok(url) => Ok(url),
        Err(e) => Err(Error::from(e)),
    }
}

/// The three lines that show one day: its name, its summary and its
/// details.
pub open spec fn day_lines(name: Seq<char>, daily: DailyView) -> Seq<Seq<char>> {
    seq![name, "Summary: "@ + daily.summary, daily.details.text()]
}

/// The lines of the first `n` days of a forecast, each under its name.
pub open spec fn all_lines(days: Seq<DailyView>, n: int) -> Seq<Seq<char>>
    decreases n,
{
    if n <= 0 {
        Seq::empty()
    } else {
        all_lines(days, n - 1) + day_lines(day_of(n - 1).spec_name(), days[n - 1])
    }
}

/// The day at a position of the feed; the third also for every later one.
pub open spec fn day_of(position: int) -> Day {
    if position <= 0 {
        Day::Today
    } else if position == 1 {
        Day::Tomorrow
    } else {
        Day::Overmorrow
    }
}

/// The lines that show a forecast.
///
/// For a day that was asked for: the lines of that day, where the forecast
/// has it, which for the second and the third day means that it has exactly
/// three days; else a conversion error. With no day asked for: the lines of
/// the first three days, or of all where there are fewer.
pub open spec fn report_of(days: Seq<DailyView>, day_option: Option<Day>) -> Result<
    Seq<Seq<char>>,
    Error,
> {
    match day_option {
        Some(Day::Today) => if days.len() > 0 {
            Ok(day_lines(Day::Today.spec_name(), days[0]))
        } else {
            Err(Error::Conversion)
        },
        Some(day) => if days.len() == 3 {
            Ok(day_lines(day.spec_name(), days[day.spec_index() as int]))
        } else {
            Err(Error::Conversion)
        },
        None => Ok(
            all_lines(
                days,
                if days.len() < 3 {
                    days.len() as int
                } else {
                    3
                },
            ),
        ),
    }
}

/// Appends the three lines that show one day.
fn push_day(lines: &mut Vec<String>, name: &str, daily: &Daily)
    ensures
        views(final(lines)@) == views(old(lines)@) + day_lines(
            name@,
            daily@,
        ),
{
    lines.push(String::from_str(name));
    lines.push(daily.summary().to_text());
    lines.push(daily.details().to_text());
}

/// The lines that show a forecast, or the one day of it that was asked for.
pub fn report(forecast: &Forecast, day_option: Option<Day>) -> (r: Result<Vec<String>, Error>)
    ensures
        match r {
            Ok(lines) => report_of(forecast@, day_option) == Ok::<Seq<Seq<char>>, Error>(
                views(lines@),
            ),
            Err(e) => report_of(forecast@, day_option) == Err::<Seq<Seq<char>>, Error>(e),
        },
{
    let mut lines: Vec<String> = Vec::new();
    match day_option {
        Some(day) => {
            let daily = match day {
                Day::Today => forecast.one(),
                Day::Tomorrow => forecast.two(),
                Day::Overmorrow => forecast.three(),
            };
            match daily {
                Ok(daily) => {
                    push_day(&mut lines, day.name(), daily);
                    Ok(lines)
                },
                Err(e) => Err(e),
            }
        },
        None => {
            let days = forecast.days();
            let mut i: usize = 0;
            while i < days.len() && i < 3
                invariant
                    0 <= i <= days.len(),
                    i <= 3,
                    views(days@) == forecast@,
                    views(lines@) == all_lines(forecast@, i as int),
                decreases days.len() - i,
            {
                let day = match i {
                    0 => Day::Today,
                    1 => Day::Tomorrow,
                    _ => Day::Overmorrow,
                };
                push_day(&mut lines, day.name(), &days[i]);
                i = i + 1;
            }
            Ok(lines)
        },
    }
}

} // verus!
