//! The forecast that a feed's items give: for each day a summary, read from
//! the item's title, and eleven measures, read from its description.
//!
//! A title has the form `Today: Sunny Intervals, Minimum Temperature: ...`:
//! the summary is what stands between the first colon and the comma. A
//! description has eleven fields parted by commas, each a name, a colon, one
//! more character and a value.

use vstd::prelude::*;
use vstd::string::StringExecFns;
use crate::display::{key_at, key_of, DescriptionKey};
use crate::error::Error;
use crate::parser::Item;
use crate::rss2::{views, ItemView};
use crate::text::{
    byte_len, byte_length, chars_of, copy_range, find, find_char, pieces, split, split_spans, trim,
    trim_span, Span,
};

verus! {

/// The greatest length of a title in bytes.
pub const TITLE_MAX: usize = 1024;

/// The greatest length of a description in bytes.
pub const DESCRIPTION_MAX: usize = 4096;

/// The number of fields of a title.
pub const TITLE_FIELDS: usize = 2;

/// The number of fields of a description.
pub const DESCRIPTION_FIELDS: usize = 11;

/// The two parts of a field around its first colon: what stands before the
/// colon, and what follows the colon and one more character. There are none
/// where the field has no colon, or nothing after the character that follows
/// the colon.
pub open spec fn around_colon(field: Seq<char>) -> Option<(Seq<char>, Seq<char>)> {
    match find(field, ':') {
        None => None,
        Some(colon) => if field.len() - colon > 2 {
            Some((field.take(colon), field.skip(colon + 2)))
        } else {
            None
        },
    }
}

/// The ranges of the two parts of a field around its first colon.
fn split_around_colon(text: &Vec<char>, field: Span) -> (r: Option<(Span, Span)>)
    requires
        field.within(text@.len()),
    ensures
        match r {
            Some((name, value)) => name.within(text@.len()) && value.within(text@.len())
                && around_colon(field.of(text@)) == Some((name.of(text@), value.of(text@))),
            None => around_colon(field.of(text@)) is None,
        },
{
    let inner = copy_range(text, field.start, field.end);
    let colon = find_char(&inner, ':', 0);
    if colon >= inner.len() || inner.len() - colon <= 2 {
        return None;
    }
    let name = Span { start: field.start, end: field.start + colon };
    let value = Span { start: field.start + colon + 2, end: field.end };
    Some((name, value))
}

/// The summary that a title gives: the title is not empty and has at most
/// 1024 bytes, one comma parts it into two fields, and the summary is what
/// follows the first colon of the first field and one more character.
pub open spec fn summary_of(title: Seq<char>) -> Option<Seq<char>> {
    if title.len() == 0 || byte_len(title) > TITLE_MAX || split(title, ',').len() != TITLE_FIELDS {
        None
    } else {
        match around_colon(split(title, ',')[0]) {
            Some((_, summary)) => Some(summary),
            None => None,
        }
    }
}

/// The weather of one day in a few words.
#[derive(Debug)]
pub struct Summary {
    summary: String,
}

impl View for Summary {
    type V = Seq<char>;

    closed spec fn view(&self) -> Seq<char> {
        self.summary@
    }
}

impl Default for Summary {
    fn default() -> (r: Self)
        ensures
            r@ == Seq::<char>::empty(),
    {
        Summary { summary: String::new() }
    }
}

impl Summary {
    /// Reads the summary from the title of an item; a title that gives none
    /// is a conversion error.
    pub fn parse_from_str(title: &str) -> (r: Result<Summary, Error>)
        ensures
            match r {
                Ok(summary) => summary_of(title@) == Some(summary@),
                Err(e) => summary_of(title@) is None && e == Error::Conversion,
            },
    {
        if title.is_empty() || byte_length(title) > TITLE_MAX {
            return Err(Error::Conversion);
        }
        let chars = chars_of(title);
        let fields = split_spans(&chars, ',');
        if fields.len() != TITLE_FIELDS {
            return Err(Error::Conversion);
        }
        let first: Span = fields[0];
        match split_around_colon(&chars, first) {
            Some((_, value)) => Ok(
                Summary { summary: title.substring_char(value.start, value.end).to_owned() },
            ),
            None => Err(Error::Conversion),
        }
    }

    /// The summary.
    pub fn summary(&self) -> (s: &str)
        ensures
            s@ == self@,
    {
        self.summary.as_str()
    }

    /// The summary as it is shown to a reader.
    pub open spec fn spec_text(self) -> Seq<char> {
        "Summary: "@ + self@
    }

    /// The summary as it is shown to a reader.
    pub fn to_text(&self) -> (s: String)
        ensures
            s@ == self.spec_text(),
    {
        let mut s = String::from_str("Summary: ");
        s.append(self.summary.as_str());
        s
    }
}

/// What the details of one day hold.
pub ghost struct DetailsView {
    pub temperature_max: Seq<char>,
    pub temperature_min: Seq<char>,
    pub wind_direction: Seq<char>,
    pub wind_speed: Seq<char>,
    pub visibility: Seq<char>,
    pub pressure: Seq<char>,
    pub humidity: Seq<char>,
    pub uv_risk: Seq<char>,
    pub pollution_level: Seq<char>,
    pub sunrise_time: Seq<char>,
    pub sunset_time: Seq<char>,
}

impl DetailsView {
    /// Details of which every value is empty.
    pub open spec fn empty() -> DetailsView {
        DetailsView {
            temperature_max: Seq::empty(),
            temperature_min: Seq::empty(),
            wind_direction: Seq::empty(),
            wind_speed: Seq::empty(),
            visibility: Seq::empty(),
            pressure: Seq::empty(),
            humidity: Seq::empty(),
            uv_risk: Seq::empty(),
            pollution_level: Seq::empty(),
            sunrise_time: Seq::empty(),
            sunset_time: Seq::empty(),
        }
    }

    /// The value of a measure.
    pub open spec fn value(self, key: DescriptionKey) -> Seq<char> {
        match key {
            DescriptionKey::MaximumTemperature => self.temperature_max,
            DescriptionKey::MinimumTemperature => self.temperature_min,
            DescriptionKey::WindDirection => self.wind_direction,
            DescriptionKey::WindSpeed => self.wind_speed,
            DescriptionKey::Visibility => self.visibility,
            DescriptionKey::Pressure => self.pressure,
            DescriptionKey::Humidity => self.humidity,
            DescriptionKey::UVRisk => self.uv_risk,
            DescriptionKey::Pollution => self.pollution_level,
            DescriptionKey::Sunrise => self.sunrise_time,
            DescriptionKey::Sunset => self.sunset_time,
        }
    }

    /// The details with the value of one measure replaced.
    pub open spec fn with(self, key: DescriptionKey, value: Seq<char>) -> DetailsView {
        match key {
            DescriptionKey::MaximumTemperature => DetailsView { temperature_max: value, ..self },
            DescriptionKey::MinimumTemperature => DetailsView { temperature_min: value, ..self },
            DescriptionKey::WindDirection => DetailsView { wind_direction: value, ..self },
            DescriptionKey::WindSpeed => DetailsView { wind_speed: value, ..self },
            DescriptionKey::Visibility => DetailsView { visibility: value, ..self },
            DescriptionKey::Pressure => DetailsView { pressure: value, ..self },
            DescriptionKey::Humidity => DetailsView { humidity: value, ..self },
            DescriptionKey::UVRisk => DetailsView { uv_risk: value, ..self },
            DescriptionKey::Pollution => DetailsView { pollution_level: value, ..self },
            DescriptionKey::Sunrise => DetailsView { sunrise_time: value, ..self },
            DescriptionKey::Sunset => DetailsView { sunset_time: value, ..self },
        }
    }

    /// The details as they are shown to a reader: one line for each measure.
    pub open spec fn text(self) -> Seq<char> {
        "Maximum Temperature: "@ + self.temperature_max + "\n"@ + "Minimum Temperature: "@
            + self.temperature_min + "\n"@ + "Wind Direction: "@ + self.wind_direction + "\n"@
            + "Wind Speed: "@ + self.wind_speed + "\n"@ + "Visibility: "@ + self.visibility
            + "\n"@ + "Pressure: "@ + self.pressure + "\n"@ + "Humidity: "@ + self.humidity
            + "\n"@ + "UV Risk: "@ + self.uv_risk + "\n"@ + "Pollution: "@ + self.pollution_level
            + "\n"@ + "Sunrise: "@ + self.sunrise_time + "\n"@ + "Sunset: "@ + self.sunset_time
            + "\n"@
    }
}

/// The measure and the value of one field of a description: the name is
/// what stands before the first colon, without the white space at its ends,
/// and must be one of the eleven.
pub open spec fn measure_of(field: Seq<char>) -> Option<(DescriptionKey, Seq<char>)> {
    match around_colon(field) {
        None => None,
        Some((name, value)) => match key_of(trim(name)) {
            None => None,
            Some(key) => Some((key, value)),
        },
    }
}

/// The details after the fields were entered one after the other, a later
/// value for a measure replacing an earlier one; `None` where a field gives
/// no measure.
pub open spec fn entered(details: DetailsView, fields: Seq<Seq<char>>) -> Option<DetailsView>
    decreases fields.len(),
{
    if fields.len() == 0 {
        Some(details)
    } else {
        match measure_of(fields[0]) {
            None => None,
            Some((key, value)) => entered(details.with(key, value), fields.drop_first()),
        }
    }
}

/// The details that a description gives: the description is not empty and
/// has at most 4096 bytes, commas part it into eleven fields, and every
/// field gives a measure. A measure that no field gives has an empty value.
pub open spec fn details_of(description: Seq<char>) -> Option<DetailsView> {
    if description.len() == 0 || byte_len(description) > DESCRIPTION_MAX || split(
        description,
        ',',
    ).len() != DESCRIPTION_FIELDS {
        None
    } else {
        entered(DetailsView::empty(), split(description, ','))
    }
}

/// The eleven measures of one day.
#[derive(Debug)]
pub struct Details {
    temperature_max: String,
    temperature_min: String,
    wind_direction: String,
    wind_speed: String,
    visibility: String,
    pressure: String,
    humidity: String,
    uv_risk: String,
    pollution_level: String,
    sunrise_time: String,
    sunset_time: String,
}

impl View for Details {
    type V = DetailsView;

    closed spec fn view(&self) -> DetailsView {
        DetailsView {
            temperature_max: self.temperature_max@,
            temperature_min: self.temperature_min@,
            wind_direction: self.wind_direction@,
            wind_speed: self.wind_speed@,
            visibility: self.visibility@,
            pressure: self.pressure@,
            humidity: self.humidity@,
            uv_risk: self.uv_risk@,
            pollution_level: self.pollution_level@,
            sunrise_time: self.sunrise_time@,
            sunset_time: self.sunset_time@,
        }
    }
}

impl Default for Details {
    fn default() -> (r: Self)
        ensures
            r@ == DetailsView::empty(),
    {
        Details {
            temperature_max: String::new(),
            temperature_min: String::new(),
            wind_direction: String::new(),
            wind_speed: String::new(),
            visibility: String::new(),
            pressure: String::new(),
            humidity: String::new(),
            uv_risk: String::new(),
            pollution_level: String::new(),
            sunrise_time: String::new(),
            sunset_time: String::new(),
        }
    }
}

/// Appends a label, a value and a line feed.
fn append_line(out: &mut String, label: &str, value: &str)
    ensures
        final(out)@ == old(out)@ + label@ + value@ + "\n"@,
{
    out.append(label);
    out.append(value);
    out.append("\n");
}

impl Details {
    /// Reads the details from the description of an item; a description
    /// that gives none is a conversion error.
    pub fn parse_from_str(description: &str) -> (r: Result<Details, Error>)
        ensures
            match r {
                Ok(details) => details_of(description@) == Some(details@),
                Err(e) => details_of(description@) is None && e == Error::Conversion,
            },
    {
        let mut details = Details::default();
        if description.is_empty() || byte_length(description) > DESCRIPTION_MAX {
            return Err(Error::Conversion);
        }
        let chars = chars_of(description);
        let fields = split_spans(&chars, ',');
        if fields.len() != DESCRIPTION_FIELDS {
            return Err(Error::Conversion);
        }
        let ghost all = split(description@, ',');
        let mut i: usize = 0;
        assert(all.skip(0) == all);
        while i < fields.len()
            invariant
                chars@ == description@,
                all == split(description@, ','),
                pieces(chars@, fields@) == all,
                fields@.len() == all.len(),
                forall|k: int|
                    0 <= k < fields.len() ==> (#[trigger] fields[k]).within(chars@.len()),
                0 <= i <= fields.len(),
                entered(details@, all.skip(i as int)) == entered(DetailsView::empty(), all),
            decreases fields.len() - i,
        {
            let field: Span = fields[i];
            proof {
                assert(all.skip(i as int).drop_first() == all.skip(i + 1));
            }
            let (name, value) = match split_around_colon(&chars, field) {
                Some(parts) => parts,
                None => {
                    return Err(Error::Conversion);
                },
            };
            let key = match key_at(&chars, trim_span(&chars, name)) {
                Some(key) => key,
                None => {
                    return Err(Error::Conversion);
                },
            };
            details.set(key, description.substring_char(value.start, value.end).to_owned());
            i = i + 1;
        }
        Ok(details)
    }

    /// Replaces the value of one measure.
    pub fn set(&mut self, key: DescriptionKey, value: String)
        ensures
            final(self)@ == old(self)@.with(key, value@),
    {
        match key {
            DescriptionKey::MaximumTemperature => self.temperature_max = value,
            DescriptionKey::MinimumTemperature => self.temperature_min = value,
            DescriptionKey::WindDirection => self.wind_direction = value,
            DescriptionKey::WindSpeed => self.wind_speed = value,
            DescriptionKey::Visibility => self.visibility = value,
            DescriptionKey::Pressure => self.pressure = value,
            DescriptionKey::Humidity => self.humidity = value,
            DescriptionKey::UVRisk => self.uv_risk = value,
            DescriptionKey::Pollution => self.pollution_level = value,
            DescriptionKey::Sunrise => self.sunrise_time = value,
            DescriptionKey::Sunset => self.sunset_time = value,
        }
    }

    /// The value of one measure.
    pub fn get(&self, key: DescriptionKey) -> (s: &str)
        ensures
            s@ == self@.value(key),
    {
        match key {
            DescriptionKey::MaximumTemperature => self.temperature_max.as_str(),
            DescriptionKey::MinimumTemperature => self.temperature_min.as_str(),
            DescriptionKey::WindDirection => self.wind_direction.as_str(),
            DescriptionKey::WindSpeed => self.wind_speed.as_str(),
            DescriptionKey::Visibility => self.visibility.as_str(),
            DescriptionKey::Pressure => self.pressure.as_str(),
            DescriptionKey::Humidity => self.humidity.as_str(),
            DescriptionKey::UVRisk => self.uv_risk.as_str(),
            DescriptionKey::Pollution => self.pollution_level.as_str(),
            DescriptionKey::Sunrise => self.sunrise_time.as_str(),
            DescriptionKey::Sunset => self.sunset_time.as_str(),
        }
    }

    /// The details as they are shown to a reader: one line for each measure.
    pub fn to_text(&self) -> (s: String)
        ensures
            s@ == self@.text(),
    {
        let mut s = String::new();
        append_line(&mut s, "Maximum Temperature: ", self.temperature_max.as_str());
        append_line(&mut s, "Minimum Temperature: ", self.temperature_min.as_str());
        append_line(&mut s, "Wind Direction: ", self.wind_direction.as_str());
        append_line(&mut s, "Wind Speed: ", self.wind_speed.as_str());
        append_line(&mut s, "Visibility: ", self.visibility.as_str());
        append_line(&mut s, "Pressure: ", self.pressure.as_str());
        append_line(&mut s, "Humidity: ", self.humidity.as_str());
        append_line(&mut s, "UV Risk: ", self.uv_risk.as_str());
        append_line(&mut s, "Pollution: ", self.pollution_level.as_str());
        append_line(&mut s, "Sunrise: ", self.sunrise_time.as_str());
        append_line(&mut s, "Sunset: ", self.sunset_time.as_str());
        s
    }
}

/// What the forecast of one day holds.
pub ghost struct DailyView {
    pub summary: Seq<char>,
    pub details: DetailsView,
}

/// The forecast of one day that a title and a description give, where both
/// give their part.
pub open spec fn daily_of(title: Seq<char>, description: Seq<char>) -> Option<DailyView> {
    match (summary_of(title), details_of(description)) {
        (Some(summary), Some(details)) => Some(DailyView { summary, details }),
        _ => None,
    }
}

/// The forecast of one day.
#[derive(Debug)]
pub struct Daily {
    summary: Summary,
    details: Details,
}

impl View for Daily {
    type V = DailyView;

    closed spec fn view(&self) -> DailyView {
        DailyView { summary: self.summary@, details: self.details@ }
    }
}

impl Default for Daily {
    fn default() -> (r: Self)
        ensures
            r@ == (DailyView { summary: Seq::empty(), details: DetailsView::empty() }),
    {
        Daily { summary: Summary::default(), details: Details::default() }
    }
}

impl Daily {
    /// Reads the forecast of one day from the title and the description of
    /// an item.
    pub fn parse_from_item_title_and_description(title: &str, description: &str) -> (r: Result<
        Daily,
        Error,
    >)
        ensures
            match r {
                Ok(daily) => daily_of(title@, description@) == Some(daily@),
                Err(e) => daily_of(title@, description@) is None && e == Error::Conversion,
            },
    {
        let summary = match Summary::parse_from_str(title) {
            Ok(summary) => summary,
            Err(e) => {
                return Err(e);
            },
        };
        let details = match Details::parse_from_str(description) {
            Ok(details) => details,
            Err(e) => {
                return Err(e);
            },
        };
        Ok(Daily { summary, details })
    }

    /// The summary of the day.
    pub fn summary(&self) -> (s: &Summary)
        ensures
            s@ == self@.summary,
    {
        &self.summary
    }

    /// The measures of the day.
    pub fn details(&self) -> (d: &Details)
        ensures
            d@ == self@.details,
    {
        &self.details
    }

    /// The day in one line: the summary, a tab and the maximum temperature.
    pub open spec fn spec_text(self) -> Seq<char> {
        self@.summary + "\t"@ + self@.details.temperature_max
    }

    /// The day in one line: the summary, a tab and the maximum temperature.
    pub fn to_text(&self) -> (s: String)
        ensures
            s@ == self.spec_text(),
    {
        let mut s = String::from_str(self.summary.summary());
        s.append("\t");
        s.append(self.details.get(DescriptionKey::MaximumTemperature));
        s
    }
}

/// The forecasts that the first `n` items give, in the order of the items;
/// `None` where one of them gives no forecast.
pub open spec fn days_of(items: Seq<ItemView>, n: int) -> Option<Seq<DailyView>>
    decreases n,
{
    if n <= 0 {
        Some(Seq::empty())
    } else {
        match (days_of(items, n - 1), daily_of(items[n - 1].title, items[n - 1].description)) {
            (Some(days), Some(daily)) => Some(days.push(daily)),
            _ => None,
        }
    }
}

/// The forecast of a feed: one day for each item, in the order of the items.
#[derive(Debug)]
pub struct Forecast {
    days: Vec<Daily>,
}

impl View for Forecast {
    type V = Seq<DailyView>;

    closed spec fn view(&self) -> Seq<DailyView> {
        views(self.days@)
    }
}

impl Default for Forecast {
    fn default() -> (r: Self)
        ensures
            r@ == Seq::<DailyView>::empty(),
    {
        let forecast = Forecast { days: Vec::new() };
        forecast
    }
}

impl Forecast {
    /// Reads the forecast from the items of a feed; an item that gives no
    /// forecast is a conversion error.
    pub fn parse_from_items(items: &Vec<Item>) -> (r: Result<Forecast, Error>)
        ensures
            match r {
                Ok(forecast) => days_of(views(items@), items@.len() as int) == Some(forecast@),
                Err(e) => days_of(views(items@), items@.len() as int) is None && e
                    == Error::Conversion,
            },
    {
        let mut days: Vec<Daily> = Vec::new();
        let mut i: usize = 0;
        while i < items.len()
            invariant
                0 <= i <= items.len(),
                days_of(views(items@), i as int) == Some(views(days@)),
            decreases items.len() - i,
        {
            let item = &items[i];
            match Daily::parse_from_item_title_and_description(
                item.get_title(),
                item.get_description(),
            ) {
                Ok(daily) => {
                    days.push(daily);
                },
                Err(e) => {
                    proof {
                        lemma_days_of_fails(views(items@), i as int + 1, items@.len() as int);
                    }
                    return Err(e);
                },
            }
            i = i + 1;
        }
        Ok(Forecast { days })
    }

    /// The days, in the order of the items.
    pub fn days(&self) -> (days: &Vec<Daily>)
        ensures
            views(days@) == self@,
    {
        &self.days
    }

    /// The days, in the order of the items.
    pub fn into_days(self) -> (days: Vec<Daily>)
        ensures
            views(days@) == self@,
    {
        self.days
    }

    /// The first day, where the forecast has a day.
    pub fn one(&self) -> (r: Result<&Daily, Error>)
        ensures
            match r {
                Ok(daily) => self@.len() > 0 && daily@ == self@[0],
                Err(e) => self@.len() == 0 && e == Error::Conversion,
            },
    {
        if self.days.len() == 0 {
            return Err(Error::Conversion);
        }
        Ok(&self.days[0])
    }

    /// The second day, where the forecast has exactly three days.
    pub fn two(&self) -> (r: Result<&Daily, Error>)
        ensures
            match r {
                Ok(daily) => self@.len() == 3 && daily@ == self@[1],
                Err(e) => self@.len() != 3 && e == Error::Conversion,
            },
    {
        if self.days.len() != 3 {
            return Err(Error::Conversion);
        }
        Ok(&self.days[1])
    }

    /// The third day, where the forecast has exactly three days.
    pub fn three(&self) -> (r: Result<&Daily, Error>)
        ensures
            match r {
                Ok(daily) => self@.len() == 3 && daily@ == self@[2],
                Err(e) => self@.len() != 3 && e == Error::Conversion,
            },
    {
        if self.days.len() != 3 {
            return Err(Error::Conversion);
        }
        Ok(&self.days[2])
    }
}

/// Once the first `n` items give no forecast, no longer run of them does.
pub proof fn lemma_days_of_fails(items: Seq<ItemView>, n: int, m: int)
    requires
        0 <= n <= m,
        days_of(items, n) is None,
    ensures
        days_of(items, m) is None,
    decreases m - n,
{
    if n < m {
        lemma_days_of_fails(items, n, m - 1);
    }
}

} // verus!
