//! The description of one day as a table from the eleven known measures to
//! their values.
//!
//! A description is a text of eleven fields parted by commas, each a name
//! and a value parted by a colon and a space:
//! `Maximum Temperature: 20°C (68°F), Minimum Temperature: 12°C (54°F), ...`.

use vstd::prelude::*;
use crate::text::{
    byte_len, byte_length, chars_of, copy_range, pieces, span_equals, split, split_spans, trim,
    trim_span, Span,
};

verus! {

/// The eleven measures that a description gives.
#[derive(Clone, Copy, Debug, PartialEq, Eq, Hash, Structural)]
pub enum DescriptionKey {
    MaximumTemperature,
    MinimumTemperature,
    WindDirection,
    WindSpeed,
    Visibility,
    Pressure,
    Humidity,
    UVRisk,
    Pollution,
    Sunrise,
    Sunset,
}

impl DescriptionKey {
    /// The position of the measure among the eleven.
    pub open spec fn spec_index(self) -> int {
        match self {
            DescriptionKey::MaximumTemperature => 0,
            DescriptionKey::MinimumTemperature => 1,
            DescriptionKey::WindDirection => 2,
            DescriptionKey::WindSpeed => 3,
            DescriptionKey::Visibility => 4,
            DescriptionKey::Pressure => 5,
            DescriptionKey::Humidity => 6,
            DescriptionKey::UVRisk => 7,
            DescriptionKey::Pollution => 8,
            DescriptionKey::Sunrise => 9,
            DescriptionKey::Sunset => 10,
        }
    }

    /// The position of the measure among the eleven.
    pub fn index(&self) -> (i: usize)
        ensures
            i == self.spec_index(),
            i < 11,
    {
        match self {
            DescriptionKey::MaximumTemperature => 0,
            DescriptionKey::MinimumTemperature => 1,
            DescriptionKey::WindDirection => 2,
            DescriptionKey::WindSpeed => 3,
            DescriptionKey::Visibility => 4,
            DescriptionKey::Pressure => 5,
            DescriptionKey::Humidity => 6,
            DescriptionKey::UVRisk => 7,
            DescriptionKey::Pollution => 8,
            DescriptionKey::Sunrise => 9,
            DescriptionKey::Sunset => 10,
        }
    }

    /// The name under which a description gives the measure.
    pub open spec fn spec_name(self) -> Seq<char> {
        match self {
            DescriptionKey::MaximumTemperature => "Maximum Temperature"@,
            DescriptionKey::MinimumTemperature => "Minimum Temperature"@,
            DescriptionKey::WindDirection => "Wind Direction"@,
            DescriptionKey::WindSpeed => "Wind Speed"@,
            DescriptionKey::Visibility => "Visibility"@,
            DescriptionKey::Pressure => "Pressure"@,
            DescriptionKey::Humidity => "Humidity"@,
            DescriptionKey::UVRisk => "UV Risk"@,
            DescriptionKey::Pollution => "Pollution"@,
            DescriptionKey::Sunrise => "Sunrise"@,
            DescriptionKey::Sunset => "Sunset"@,
        }
    }

    /// The name under which a description gives the measure.
    pub fn name(&self) -> (s: &'static str)
        ensures
            s@ == self.spec_name(),
    {
        match self {
            DescriptionKey::MaximumTemperature => "Maximum Temperature",
            DescriptionKey::MinimumTemperature => "Minimum Temperature",
            DescriptionKey::WindDirection => "Wind Direction",
            DescriptionKey::WindSpeed => "Wind Speed",
            DescriptionKey::Visibility => "Visibility",
            DescriptionKey::Pressure => "Pressure",
            DescriptionKey::Humidity => "Humidity",
            DescriptionKey::UVRisk => "UV Risk",
            DescriptionKey::Pollution => "Pollution",
            DescriptionKey::Sunrise => "Sunrise",
            DescriptionKey::Sunset => "Sunset",
        }
    }
}

/// The measure that a name stands for, if it is one of the eleven.
pub open spec fn key_of(name: Seq<char>) -> Option<DescriptionKey> {
    if name == DescriptionKey::MaximumTemperature.spec_name() {
        Some(DescriptionKey::MaximumTemperature)
    } else if name == DescriptionKey::MinimumTemperature.spec_name() {
        Some(DescriptionKey::MinimumTemperature)
    } else if name == DescriptionKey::WindDirection.spec_name() {
        Some(DescriptionKey::WindDirection)
    } else if name == DescriptionKey::WindSpeed.spec_name() {
        Some(DescriptionKey::WindSpeed)
    } else if name == DescriptionKey::Visibility.spec_name() {
        Some(DescriptionKey::Visibility)
    } else if name == DescriptionKey::Pressure.spec_name() {
        Some(DescriptionKey::Pressure)
    } else if name == DescriptionKey::Humidity.spec_name() {
        Some(DescriptionKey::Humidity)
    } else if name == DescriptionKey::UVRisk.spec_name() {
        Some(DescriptionKey::UVRisk)
    } else if name == DescriptionKey::Pollution.spec_name() {
        Some(DescriptionKey::Pollution)
    } else if name == DescriptionKey::Sunrise.spec_name() {
        Some(DescriptionKey::Sunrise)
    } else if name == DescriptionKey::Sunset.spec_name() {
        Some(DescriptionKey::Sunset)
    } else {
        None
    }
}

/// The measure that the characters of a range name, if they name one.
pub fn key_at(text: &Vec<char>, span: Span) -> (key: Option<DescriptionKey>)
    requires
        span.within(text@.len()),
    ensures
        key == key_of(span.of(text@)),
{
    if span_equals(text, span, DescriptionKey::MaximumTemperature.name()) {
        Some(DescriptionKey::MaximumTemperature)
    } else if span_equals(text, span, DescriptionKey::MinimumTemperature.name()) {
        Some(DescriptionKey::MinimumTemperature)
    } else if span_equals(text, span, DescriptionKey::WindDirection.name()) {
        Some(DescriptionKey::WindDirection)
    } else if span_equals(text, span, DescriptionKey::WindSpeed.name()) {
        Some(DescriptionKey::WindSpeed)
    } else if span_equals(text, span, DescriptionKey::Visibility.name()) {
        Some(DescriptionKey::Visibility)
    } else if span_equals(text, span, DescriptionKey::Pressure.name()) {
        Some(DescriptionKey::Pressure)
    } else if span_equals(text, span, DescriptionKey::Humidity.name()) {
        Some(DescriptionKey::Humidity)
    } else if span_equals(text, span, DescriptionKey::UVRisk.name()) {
        Some(DescriptionKey::UVRisk)
    } else if span_equals(text, span, DescriptionKey::Pollution.name()) {
        Some(DescriptionKey::Pollution)
    } else if span_equals(text, span, DescriptionKey::Sunrise.name()) {
        Some(DescriptionKey::Sunrise)
    } else if span_equals(text, span, DescriptionKey::Sunset.name()) {
        Some(DescriptionKey::Sunset)
    } else {
        None
    }
}

/// Index of the first colon at or after `from` that a space follows, or the
/// length of `text` where there is none.
pub open spec fn find_separator(text: Seq<char>, from: int) -> int
    decreases text.len() - from,
{
    if from >= text.len() {
        text.len() as int
    } else if text[from] == ':' && from + 1 < text.len() && text[from + 1] == ' ' {
        from
    } else {
        find_separator(text, from + 1)
    }
}

/// Index of the first colon at or after `from` that a space follows, or the
/// length of `text` where there is none.
pub fn find_separator_in(text: &Vec<char>, from: usize) -> (i: usize)
    requires
        from <= text.len(),
    ensures
        i == find_separator(text@, from as int),
        from <= i <= text.len(),
        i < text.len() ==> i + 1 < text.len(),
{
    let mut i: usize = from;
    while i < text.len() && !(text[i] == ':' && i + 1 < text.len() && text[i + 1] == ' ')
        invariant
            from <= i <= text.len(),
            find_separator(text@, i as int) == find_separator(text@, from as int),
        decreases text.len() - i,
    {
        i = i + 1;
    }
    i
}

/// The name and the value of one field: the field holds a colon and a space
/// exactly once, the name is what stands before them with the white space
/// at its ends removed, and the value is what follows them.
pub open spec fn name_and_value(field: Seq<char>) -> Option<(Seq<char>, Seq<char>)> {
    let at = find_separator(field, 0);
    if at < field.len() && find_separator(field, at + 2) >= field.len() {
        Some((trim(field.take(at)), field.skip(at + 2)))
    } else {
        None
    }
}

/// The measure and the value of one field, where the field has a name and a
/// value and the name is one of the eleven.
pub open spec fn entry_of(field: Seq<char>) -> Option<(DescriptionKey, Seq<char>)> {
    match name_and_value(field) {
        None => None,
        Some((name, value)) => match key_of(name) {
            None => None,
            Some(key) => Some((key, value)),
        },
    }
}

/// The table after the fields were entered one after the other, a later
/// value for a measure replacing an earlier one; `None` where a field has no
/// entry.
pub open spec fn entered(
    table: Map<DescriptionKey, Seq<char>>,
    fields: Seq<Seq<char>>,
) -> Option<Map<DescriptionKey, Seq<char>>>
    decreases fields.len(),
{
    if fields.len() == 0 {
        Some(table)
    } else {
        match entry_of(fields[0]) {
            None => None,
            Some((key, value)) => entered(table.insert(key, value), fields.drop_first()),
        }
    }
}

/// The table that a description gives: the description is not empty and has
/// at most 256 bytes, commas part it into exactly eleven fields, and every
/// field has an entry.
pub open spec fn table_of(d: Seq<char>) -> Option<Map<DescriptionKey, Seq<char>>> {
    if d.len() == 0 || byte_len(d) > 256 || split(d, ',').len() != 11 {
        None
    } else {
        entered(Map::empty(), split(d, ','))
    }
}

/// Why a description was refused.
#[derive(Clone, Copy, Debug, PartialEq, Eq, Structural)]
pub enum Error {
    InvalidInput,
}

/// The values of a description by measure.
#[derive(Debug)]
pub struct DescriptionModel {
    maximum_temperature: Option<String>,
    minimum_temperature: Option<String>,
    wind_direction: Option<String>,
    wind_speed: Option<String>,
    visibility: Option<String>,
    pressure: Option<String>,
    humidity: Option<String>,
    uv_risk: Option<String>,
    pollution: Option<String>,
    sunrise: Option<String>,
    sunset: Option<String>,
}

impl DescriptionModel {
    /// The place of a measure.
    spec fn place(self, key: DescriptionKey) -> Option<String> {
        match key {
            DescriptionKey::MaximumTemperature => self.maximum_temperature,
            DescriptionKey::MinimumTemperature => self.minimum_temperature,
            DescriptionKey::WindDirection => self.wind_direction,
            DescriptionKey::WindSpeed => self.wind_speed,
            DescriptionKey::Visibility => self.visibility,
            DescriptionKey::Pressure => self.pressure,
            DescriptionKey::Humidity => self.humidity,
            DescriptionKey::UVRisk => self.uv_risk,
            DescriptionKey::Pollution => self.pollution,
            DescriptionKey::Sunrise => self.sunrise,
            DescriptionKey::Sunset => self.sunset,
        }
    }
}

impl View for DescriptionModel {
    type V = Map<DescriptionKey, Seq<char>>;

    closed spec fn view(&self) -> Map<DescriptionKey, Seq<char>> {
        Map::new(
            |key: DescriptionKey| self.place(key) is Some,
            |key: DescriptionKey| self.place(key)->0@,
        )
    }
}

impl DescriptionModel {
    /// The number of fields of a description.
    pub const EXPECTED_FIELDS: usize = 11;

    /// The greatest length of a description in bytes.
    pub const DESCRIPTION_MAX: usize = 256;

    /// A table without values.
    pub fn empty() -> (model: DescriptionModel)
        ensures
            model@ == Map::<DescriptionKey, Seq<char>>::empty(),
    {
        let model = DescriptionModel {
            maximum_temperature: None,
            minimum_temperature: None,
            wind_direction: None,
            wind_speed: None,
            visibility: None,
            pressure: None,
            humidity: None,
            uv_risk: None,
            pollution: None,
            sunrise: None,
            sunset: None,
        };
        model
    }

    /// Reads a description. It is refused where it is empty or longer than
    /// 256 bytes, where it has not eleven fields, and where a field has not
    /// exactly one colon with a space behind it or a name that is none of
    /// the eleven.
    pub fn new(d: &str) -> (r: Result<DescriptionModel, Error>)
        ensures
            match r {
                Ok(model) => table_of(d@) == Some(model@),
                Err(_) => table_of(d@) is None,
            },
    {
        if d.is_empty() || byte_length(d) > Self::DESCRIPTION_MAX {
            return Err(Error::InvalidInput);
        }
        let chars = chars_of(d);
        let fields = split_spans(&chars, ',');
        if fields.len() != Self::EXPECTED_FIELDS {
            return Err(Error::InvalidInput);
        }
        let mut result = DescriptionModel::empty();
        let ghost all = split(d@, ',');
        let mut i: usize = 0;
        assert(all.skip(0) == all);
        while i < fields.len()
            invariant
                chars@ == d@,
                all == split(d@, ','),
                pieces(chars@, fields@) == all,
                fields@.len() == all.len(),
                forall|k: int| 0 <= k < fields.len() ==> (#[trigger] fields[k]).within(chars@.len()),
                0 <= i <= fields.len(),
                entered(result@, all.skip(i as int)) == entered(Map::empty(), all),
            decreases fields.len() - i,
        {
            let span: Span = fields[i];
            proof {
                assert(all.skip(i as int).drop_first() == all.skip(i + 1));
            }
            let field = copy_range(&chars, span.start, span.end);
            let at = find_separator_in(&field, 0);
            if at >= field.len() {
                return Err(Error::InvalidInput);
            }
            if find_separator_in(&field, at + 2) < field.len() {
                return Err(Error::InvalidInput);
            }
            let name = trim_span(&field, Span { start: 0, end: at });
            let key = match key_at(&field, name) {
                Some(key) => key,
                None => {
                    return Err(Error::InvalidInput);
                },
            };
            let value = d.substring_char(span.start + at + 2, span.end).to_owned();
            proof {
                assert(value@ == field@.skip(at + 2));
            }
            result.enter(key, value);
            i = i + 1;
        }
        Ok(result)
    }

    /// Enters a value for a measure; a value entered before is replaced.
    pub fn enter(&mut self, key: DescriptionKey, value: String)
        ensures
            final(self)@ == old(self)@.insert(key, value@),
    {
        match key {
            DescriptionKey::MaximumTemperature => self.maximum_temperature = Some(value),
            DescriptionKey::MinimumTemperature => self.minimum_temperature = Some(value),
            DescriptionKey::WindDirection => self.wind_direction = Some(value),
            DescriptionKey::WindSpeed => self.wind_speed = Some(value),
            DescriptionKey::Visibility => self.visibility = Some(value),
            DescriptionKey::Pressure => self.pressure = Some(value),
            DescriptionKey::Humidity => self.humidity = Some(value),
            DescriptionKey::UVRisk => self.uv_risk = Some(value),
            DescriptionKey::Pollution => self.pollution = Some(value),
            DescriptionKey::Sunrise => self.sunrise = Some(value),
            DescriptionKey::Sunset => self.sunset = Some(value),
        }
    }

    /// The value of a measure, if the description gave one.
    pub fn get(&self, key: DescriptionKey) -> (value: Option<&str>)
        ensures
            match value {
                Some(s) => self@.contains_key(key) && self@[key] == s@,
                None => !self@.contains_key(key),
            },
    {
        let place = match key {
            DescriptionKey::MaximumTemperature => &self.maximum_temperature,
            DescriptionKey::MinimumTemperature => &self.minimum_temperature,
            DescriptionKey::WindDirection => &self.wind_direction,
            DescriptionKey::WindSpeed => &self.wind_speed,
            DescriptionKey::Visibility => &self.visibility,
            DescriptionKey::Pressure => &self.pressure,
            DescriptionKey::Humidity => &self.humidity,
            DescriptionKey::UVRisk => &self.uv_risk,
            DescriptionKey::Pollution => &self.pollution,
            DescriptionKey::Sunrise => &self.sunrise,
            DescriptionKey::Sunset => &self.sunset,
        };
        match place {
            Some(s) => Some(s.as_str()),
            None => None,
        }
    }
}

} // verus!
