//! Validated leaf values of a feed, the two structures that are made of
//! them, and the builders that collect their fields.
//!
//! A leaf value is made from the raw text of one element by
//! [`ElementParser::new`], which refuses an empty text, a text longer than
//! the kind's limit, and a text that has not the kind's form, in this order.

use vstd::prelude::*;
use crate::datetime::{parsed_rfc2822, rfc2822_text, DateTime};
use crate::decimal::{check_float_literal, is_float_literal};
use crate::text::{
    byte_len, byte_length, chars_of, copy_range, lemma_byte_len_bounds, split, split_spans, Span,
};
use crate::weburl::{parsed_url, Url};

verus! {

/// Why a raw text was refused as an element.
#[derive(Clone, Copy, Debug, PartialEq, Eq, Structural)]
pub enum ElementParserError {
    /// The text was empty.
    BufferEmpty,
    /// The text was longer than the kind allows.
    BufferTooLarge,
    /// The text had not the form of the kind.
    InvalidInput,
}

/// The four kinds of leaf value.
#[derive(Clone, Copy, Debug, PartialEq, Eq, Structural)]
pub enum ElementKind {
    /// A bounded string.
    String,
    /// An absolute URL.
    Url,
    /// A date and time in the format of RFC 2822.
    DateTime,
    /// A latitude and a longitude.
    GeoRssPoint,
}

/// A text is a geographic point where a single space parts it into exactly
/// two pieces that are both floating-point literals.
pub open spec fn is_point(text: Seq<char>) -> bool {
    let parts = split(text, ' ');
    parts.len() == 2 && is_float_literal(parts[0]) && is_float_literal(parts[1])
}

impl ElementKind {
    /// The greatest length in bytes of a raw text of this kind.
    pub open spec fn max_len(self) -> nat {
        match self {
            ElementKind::String => 256,
            ElementKind::Url => 256,
            ElementKind::DateTime => 128,
            ElementKind::GeoRssPoint => 16,
        }
    }

    /// Whether a raw text has the form of this kind.
    pub open spec fn well_formed(self, text: Seq<char>) -> bool {
        match self {
            ElementKind::String => true,
            ElementKind::Url => parsed_url(text) is Some,
            ElementKind::DateTime => parsed_rfc2822(text) is Some,
            ElementKind::GeoRssPoint => is_point(text),
        }
    }

    /// The reason for which a raw text is refused as an element of this
    /// kind, or `None` where it is accepted.
    pub open spec fn refusal(self, text: Seq<char>) -> Option<ElementParserError> {
        if text.len() == 0 {
            Some(ElementParserError::BufferEmpty)
        } else if byte_len(text) > self.max_len() {
            Some(ElementParserError::BufferTooLarge)
        } else if !self.well_formed(text) {
            Some(ElementParserError::InvalidInput)
        } else {
            None
        }
    }
}

/// For each of the four kinds: a text longer than the kind's limit is
/// refused, the empty text is refused, and a text whose length is exactly
/// the limit is accepted where it has the kind's form.
pub proof fn lemma_length_limits(kind: ElementKind, text: Seq<char>)
    ensures
        byte_len(text) > kind.max_len() ==> kind.refusal(text) is Some,
        text.len() == 0 ==> kind.refusal(text) is Some,
        byte_len(text) == kind.max_len() && kind.well_formed(text) ==> kind.refusal(text) is None,
{
    lemma_byte_len_bounds(text);
}

/// A type of validated leaf value that is made from the raw text of one
/// element.
pub trait ElementParser: Sized {
    /// The greatest length in bytes of a raw text that is accepted.
    const MAX_LEN: usize;

    /// The kind of leaf value that the type holds.
    spec fn kind() -> ElementKind;

    /// The limit of the type is the limit of its kind.
    proof fn max_len_is_of_kind()
        ensures
            Self::MAX_LEN == Self::kind().max_len(),
    ;

    /// Validates and converts the raw text of one element. It is refused
    /// exactly where the kind says so, and for the kind's reason.
    fn new(buffer: &str) -> (r: Result<Self, ElementParserError>)
        ensures
            match r {
                Ok(_) => Self::kind().refusal(buffer@) is None,
                Err(e) => Self::kind().refusal(buffer@) == Some(e),
            },
    ;
}

/// The test on the length of a raw text that all kinds share.
fn check_length(buffer: &str, max_len: usize) -> (r: Result<(), ElementParserError>)
    ensures
        match r {
            Ok(_) => buffer@.len() > 0 && byte_len(buffer@) <= max_len,
            Err(e) => if buffer@.len() == 0 {
                e == ElementParserError::BufferEmpty
            } else {
                byte_len(buffer@) > max_len && e == ElementParserError::BufferTooLarge
            },
        },
{
    proof {
        lemma_byte_len_bounds(buffer@);
    }
    if buffer.is_empty() {
        Err(ElementParserError::BufferEmpty)
    } else if byte_length(buffer) > max_len {
        Err(ElementParserError::BufferTooLarge)
    } else {
        Ok(())
    }
}

/// A latitude and a longitude, each kept as the floating-point literal that
/// the feed gave.
#[derive(Debug)]
pub struct GeoRSSPointElement {
    latitude: String,
    longitude: String,
}

/// What a geographic point holds.
pub ghost struct Coordinates {
    pub latitude: Seq<char>,
    pub longitude: Seq<char>,
}

impl View for GeoRSSPointElement {
    type V = Coordinates;

    closed spec fn view(&self) -> Coordinates {
        Coordinates { latitude: self.latitude@, longitude: self.longitude@ }
    }
}

impl Clone for GeoRSSPointElement {
    fn clone(&self) -> (r: Self)
        ensures
            r@ == self@,
    {
        proof {
            use_type_invariant(self);
        }
        GeoRSSPointElement { latitude: self.latitude.clone(), longitude: self.longitude.clone() }
    }
}

impl GeoRSSPointElement {
    /// The number of pieces that a single space must part the raw text into.
    pub const REQUIRED_PARTS: usize = 2;

    #[verifier::type_invariant]
    spec fn both_are_literals(self) -> bool {
        is_float_literal(self.latitude@) && is_float_literal(self.longitude@)
    }

    /// The latitude, a floating-point literal.
    pub fn latitude(&self) -> (s: &str)
        ensures
            s@ == self@.latitude,
            is_float_literal(s@),
    {
        proof {
            use_type_invariant(self);
        }
        self.latitude.as_str()
    }

    /// The longitude, a floating-point literal.
    pub fn longitude(&self) -> (s: &str)
        ensures
            s@ == self@.longitude,
            is_float_literal(s@),
    {
        proof {
            use_type_invariant(self);
        }
        self.longitude.as_str()
    }
}

impl ElementParser for GeoRSSPointElement {
    const MAX_LEN: usize = 16;

    open spec fn kind() -> ElementKind {
        ElementKind::GeoRssPoint
    }

    proof fn max_len_is_of_kind() {
    }

    /// The latitude is the piece before the space and the longitude the piece
    /// after it.
    fn new(buffer: &str) -> (r: Result<GeoRSSPointElement, ElementParserError>)
        ensures
            r matches Ok(point) ==> point@ == (Coordinates {
                latitude: split(buffer@, ' ')[0],
                longitude: split(buffer@, ' ')[1],
            }),
    {
        match check_length(buffer, Self::MAX_LEN) {
            Err(e) => {
                return Err(e);
            },
            Ok(_) => {},
        }
        let chars = chars_of(buffer);
        let parts = split_spans(&chars, ' ');
        if parts.len() != Self::REQUIRED_PARTS {
            return Err(ElementParserError::InvalidInput);
        }
        let first: Span = parts[0];
        let second: Span = parts[1];
        let latitude = copy_range(&chars, first.start, first.end);
        let longitude = copy_range(&chars, second.start, second.end);
        if !check_float_literal(&latitude) || !check_float_literal(&longitude) {
            return Err(ElementParserError::InvalidInput);
        }
        Ok(
            GeoRSSPointElement {
                latitude: buffer.substring_char(first.start, first.end).to_owned(),
                longitude: buffer.substring_char(second.start, second.end).to_owned(),
            },
        )
    }
}

/// An absolute URL.
#[derive(Debug)]
pub struct UrlElement {
    url: Url,
}

impl View for UrlElement {
    type V = Seq<char>;

    /// The serialization of the URL.
    closed spec fn view(&self) -> Seq<char> {
        self.url@
    }
}

impl Clone for UrlElement {
    fn clone(&self) -> (r: Self)
        ensures
            r@ == self@,
    {
        UrlElement { url: self.url.clone() }
    }
}

impl UrlElement {
    /// The serialization of the URL.
    pub fn as_str(&self) -> (s: &str)
        ensures
            s@ == self@,
    {
        self.url.as_str()
    }
}

impl ElementParser for UrlElement {
    const MAX_LEN: usize = 256;

    open spec fn kind() -> ElementKind {
        ElementKind::Url
    }

    proof fn max_len_is_of_kind() {
    }

    /// The value is the serialization that the URL parser gives.
    fn new(buffer: &str) -> (r: Result<UrlElement, ElementParserError>)
        ensures
            r matches Ok(e) ==> parsed_url(buffer@) == Some(e@),
    {
        match check_length(buffer, Self::MAX_LEN) {
            Err(e) => {
                return Err(e);
            },
            Ok(_) => {},
        }
        match Url::parse(buffer) {
            Ok(url) => Ok(UrlElement { url }),
            Err(_) => Err(ElementParserError::InvalidInput),
        }
    }
}

/// A date and time with its offset from UTC.
#[derive(Debug)]
pub struct DateTimeElement {
    date_time: DateTime,
}

impl View for DateTimeElement {
    type V = DateTime;

    closed spec fn view(&self) -> DateTime {
        self.date_time
    }
}

impl Clone for DateTimeElement {
    fn clone(&self) -> (r: Self)
        ensures
            r@ == self@,
    {
        DateTimeElement { date_time: self.date_time }
    }
}

impl DateTimeElement {
    /// The instant and its offset.
    pub fn date_time(&self) -> (d: DateTime)
        ensures
            d == self@,
    {
        self.date_time
    }

    /// The instant in the format of RFC 2822, or `None` where the local year
    /// is negative or has more than four digits, for which the format has
    /// no text.
    pub fn to_rfc2822(&self) -> (r: Option<String>)
        ensures
            match r {
                Some(text) => self@.year_has_four_digits() && rfc2822_text(self@) == Some(text@),
                None => !self@.year_has_four_digits() || rfc2822_text(self@) is None,
            },
    {
        self.date_time.to_rfc2822()
    }
}

impl ElementParser for DateTimeElement {
    const MAX_LEN: usize = 128;

    open spec fn kind() -> ElementKind {
        ElementKind::DateTime
    }

    proof fn max_len_is_of_kind() {
    }

    /// The value is the instant that the RFC 2822 parser gives.
    fn new(buffer: &str) -> (r: Result<DateTimeElement, ElementParserError>)
        ensures
            r matches Ok(e) ==> parsed_rfc2822(buffer@) == Some(e@),
    {
        match check_length(buffer, Self::MAX_LEN) {
            Err(e) => {
                return Err(e);
            },
            Ok(_) => {},
        }
        match DateTime::parse_from_rfc2822(buffer) {
            Ok(date_time) => Ok(DateTimeElement { date_time }),
            Err(_) => Err(ElementParserError::InvalidInput),
        }
    }
}

/// A string of 1 to 256 bytes.
#[derive(Debug)]
pub struct StringElement {
    string: String,
}

impl View for StringElement {
    type V = Seq<char>;

    closed spec fn view(&self) -> Seq<char> {
        self.string@
    }
}

impl Clone for StringElement {
    fn clone(&self) -> (r: Self)
        ensures
            r@ == self@,
    {
        proof {
            use_type_invariant(self);
        }
        StringElement { string: self.string.clone() }
    }
}

impl StringElement {
    #[verifier::type_invariant]
    spec fn within_limit(self) -> bool {
        0 < self.string@.len() && byte_len(self.string@) <= 256
    }

    /// The text, which is not empty and has at most 256 bytes.
    pub fn as_str(&self) -> (s: &str)
        ensures
            s@ == self@,
            0 < s@.len(),
            byte_len(s@) <= 256,
    {
        proof {
            use_type_invariant(self);
        }
        self.string.as_str()
    }
}

impl ElementParser for StringElement {
    const MAX_LEN: usize = 256;

    open spec fn kind() -> ElementKind {
        ElementKind::String
    }

    proof fn max_len_is_of_kind() {
    }

    /// The value is the raw text itself.
    fn new(buffer: &str) -> (r: Result<StringElement, ElementParserError>)
        ensures
            r matches Ok(e) ==> e@ == buffer@,
    {
        match check_length(buffer, Self::MAX_LEN) {
            Err(e) => {
                return Err(e);
            },
            Ok(_) => {},
        }
        Ok(StringElement { string: buffer.to_owned() })
    }
}

/// The views of the members of a sequence, in order.
pub open spec fn views<T: View>(items: Seq<T>) -> Seq<T::V> {
    Seq::new(items.len(), |k: int| items[k]@)
}

/// What an item holds.
pub ghost struct ItemView {
    pub title: Seq<char>,
    pub link: Seq<char>,
    pub description: Seq<char>,
    pub pub_date: DateTime,
    pub guid: Seq<char>,
    pub geo_rss_point: Coordinates,
}

/// What a channel holds.
pub ghost struct ChannelView {
    pub title: Seq<char>,
    pub link: Seq<char>,
    pub description: Seq<char>,
    pub language: Seq<char>,
    pub copyright: Seq<char>,
    pub pub_date: DateTime,
    pub items: Seq<ItemView>,
}

/// One forecast entry of the three-day feed.
#[derive(Debug)]
pub struct BBCWeatherThreeDayItem {
    title: StringElement,
    link: UrlElement,
    description: StringElement,
    pub_date: DateTimeElement,
    guid: UrlElement,
    geo_rss_point: GeoRSSPointElement,
}

impl View for BBCWeatherThreeDayItem {
    type V = ItemView;

    closed spec fn view(&self) -> ItemView {
        ItemView {
            title: self.title@,
            link: self.link@,
            description: self.description@,
            pub_date: self.pub_date@,
            guid: self.guid@,
            geo_rss_point: self.geo_rss_point@,
        }
    }
}

impl BBCWeatherThreeDayItem {
    /// The title.
    pub fn title(&self) -> (e: &StringElement)
        ensures
            e@ == self@.title,
    {
        &self.title
    }

    /// The link.
    pub fn link(&self) -> (e: &UrlElement)
        ensures
            e@ == self@.link,
    {
        &self.link
    }

    /// The description.
    pub fn description(&self) -> (e: &StringElement)
        ensures
            e@ == self@.description,
    {
        &self.description
    }

    /// The date of publication.
    pub fn pub_date(&self) -> (e: &DateTimeElement)
        ensures
            e@ == self@.pub_date,
    {
        &self.pub_date
    }

    /// The identifier.
    pub fn guid(&self) -> (e: &UrlElement)
        ensures
            e@ == self@.guid,
    {
        &self.guid
    }

    /// The geographic point.
    pub fn geo_rss_point(&self) -> (e: &GeoRSSPointElement)
        ensures
            e@ == self@.geo_rss_point,
    {
        &self.geo_rss_point
    }
}

/// The three-day feed: its own fields and its items in the order of the
/// document.
#[derive(Debug)]
pub struct BBCWeatherThreeDay {
    title: StringElement,
    link: UrlElement,
    description: StringElement,
    language: StringElement,
    copyright: StringElement,
    pub_date: DateTimeElement,
    items: Vec<BBCWeatherThreeDayItem>,
}

impl View for BBCWeatherThreeDay {
    type V = ChannelView;

    closed spec fn view(&self) -> ChannelView {
        ChannelView {
            title: self.title@,
            link: self.link@,
            description: self.description@,
            language: self.language@,
            copyright: self.copyright@,
            pub_date: self.pub_date@,
            items: views(self.items@),
        }
    }
}

impl BBCWeatherThreeDay {
    #[verifier::type_invariant]
    spec fn has_items(self) -> bool {
        self.items@.len() > 0
    }

    /// The title.
    pub fn title(&self) -> (e: &StringElement)
        ensures
            e@ == self@.title,
    {
        &self.title
    }

    /// The link.
    pub fn link(&self) -> (e: &UrlElement)
        ensures
            e@ == self@.link,
    {
        &self.link
    }

    /// The description.
    pub fn description(&self) -> (e: &StringElement)
        ensures
            e@ == self@.description,
    {
        &self.description
    }

    /// The language.
    pub fn language(&self) -> (e: &StringElement)
        ensures
            e@ == self@.language,
    {
        &self.language
    }

    /// The copyright.
    pub fn copyright(&self) -> (e: &StringElement)
        ensures
            e@ == self@.copyright,
    {
        &self.copyright
    }

    /// The date of publication.
    pub fn pub_date(&self) -> (e: &DateTimeElement)
        ensures
            e@ == self@.pub_date,
    {
        &self.pub_date
    }

    /// The items, in the order in which they were added; there is at least
    /// one.
    pub fn items(&self) -> (items: &Vec<BBCWeatherThreeDayItem>)
        ensures
            views(items@) == self@.items,
            items@.len() > 0,
    {
        proof {
            use_type_invariant(self);
        }
        &self.items
    }
}

/// A type that starts out as an empty accumulator.
pub trait Builder: Sized {
    /// What a fresh accumulator holds.
    spec fn empty(&self) -> bool;

    /// A fresh accumulator, with no field set.
    fn new() -> (r: Self)
        ensures
            r.empty(),
    ;
}

/// The view of an optional value.
pub open spec fn view_of<T: View>(field: Option<T>) -> Option<T::V> {
    match field {
        Some(value) => Some(value@),
        None => None,
    }
}

/// What a channel's accumulator holds: each field as far as it was set.
pub ghost struct ChannelFields {
    pub title: Option<Seq<char>>,
    pub link: Option<Seq<char>>,
    pub description: Option<Seq<char>>,
    pub language: Option<Seq<char>>,
    pub copyright: Option<Seq<char>>,
    pub pub_date: Option<DateTime>,
    /// The items that were added, in the order in which they were added.
    pub items: Seq<ItemView>,
}

impl ChannelFields {
    /// No field is set.
    pub open spec fn none() -> ChannelFields {
        ChannelFields {
            title: None,
            link: None,
            description: None,
            language: None,
            copyright: None,
            pub_date: None,
            items: Seq::empty(),
        }
    }

    /// Every field is set, and at least one item was added.
    pub open spec fn complete(self) -> bool {
        &&& self.title is Some
        &&& self.link is Some
        &&& self.description is Some
        &&& self.language is Some
        &&& self.copyright is Some
        &&& self.pub_date is Some
        &&& self.items.len() > 0
    }

    /// The channel that complete fields make.
    pub open spec fn channel(self) -> ChannelView
        recommends
            self.complete(),
    {
        ChannelView {
            title: self.title->0,
            link: self.link->0,
            description: self.description->0,
            language: self.language->0,
            copyright: self.copyright->0,
            pub_date: self.pub_date->0,
            items: self.items,
        }
    }

    /// The fields after one more item was added behind those that are there.
    pub open spec fn with_item(self, item: ItemView) -> ChannelFields {
        ChannelFields { items: self.items.push(item), ..self }
    }
}

/// What an item's accumulator holds: each field as far as it was set.
pub ghost struct ItemFields {
    pub title: Option<Seq<char>>,
    pub link: Option<Seq<char>>,
    pub description: Option<Seq<char>>,
    pub pub_date: Option<DateTime>,
    pub guid: Option<Seq<char>>,
    pub geo_rss_point: Option<Coordinates>,
}

impl ItemFields {
    /// No field is set.
    pub open spec fn none() -> ItemFields {
        ItemFields {
            title: None,
            link: None,
            description: None,
            pub_date: None,
            guid: None,
            geo_rss_point: None,
        }
    }

    /// Every field is set.
    pub open spec fn complete(self) -> bool {
        &&& self.title is Some
        &&& self.link is Some
        &&& self.description is Some
        &&& self.pub_date is Some
        &&& self.guid is Some
        &&& self.geo_rss_point is Some
    }

    /// The item that complete fields make.
    pub open spec fn item(self) -> ItemView
        recommends
            self.complete(),
    {
        ItemView {
            title: self.title->0,
            link: self.link->0,
            description: self.description->0,
            pub_date: self.pub_date->0,
            guid: self.guid->0,
            geo_rss_point: self.geo_rss_point->0,
        }
    }
}

/// Collects the fields of a three-day feed, in any order.
#[derive(Debug)]
pub struct ChannelBuilder {
    title: Option<StringElement>,
    link: Option<UrlElement>,
    description: Option<StringElement>,
    language: Option<StringElement>,
    copyright: Option<StringElement>,
    pub_date: Option<DateTimeElement>,
    items: Vec<BBCWeatherThreeDayItem>,
}

impl View for ChannelBuilder {
    type V = ChannelFields;

    closed spec fn view(&self) -> ChannelFields {
        ChannelFields {
            title: view_of(self.title),
            link: view_of(self.link),
            description: view_of(self.description),
            language: view_of(self.language),
            copyright: view_of(self.copyright),
            pub_date: view_of(self.pub_date),
            items: views(self.items@),
        }
    }
}

impl ChannelBuilder {
    /// Sets the title; a title set before is replaced.
    pub fn set_title(&mut self, title: StringElement)
        ensures
            final(self)@ == (ChannelFields { title: Some(title@), ..old(self)@ }),
    {
        self.title = Some(title);
    }

    /// Sets the link; a link set before is replaced.
    pub fn set_link(&mut self, link: UrlElement)
        ensures
            final(self)@ == (ChannelFields { link: Some(link@), ..old(self)@ }),
    {
        self.link = Some(link);
    }

    /// Sets the description; a description set before is replaced.
    pub fn set_description(&mut self, description: StringElement)
        ensures
            final(self)@ == (ChannelFields { description: Some(description@), ..old(self)@ }),
    {
        self.description = Some(description);
    }

    /// Sets the language; a language set before is replaced.
    pub fn set_language(&mut self, language: StringElement)
        ensures
            final(self)@ == (ChannelFields { language: Some(language@), ..old(self)@ }),
    {
        self.language = Some(language);
    }

    /// Sets the copyright; a copyright set before is replaced.
    pub fn set_copyright(&mut self, copyright: StringElement)
        ensures
            final(self)@ == (ChannelFields { copyright: Some(copyright@), ..old(self)@ }),
    {
        self.copyright = Some(copyright);
    }

    /// Sets the date of publication; a date set before is replaced.
    pub fn set_pub_date(&mut self, pub_date: DateTimeElement)
        ensures
            final(self)@ == (ChannelFields { pub_date: Some(pub_date@), ..old(self)@ }),
    {
        self.pub_date = Some(pub_date);
    }

    /// Adds an item behind those that were added before, which stay as they
    /// are.
    pub fn set_item(&mut self, item: BBCWeatherThreeDayItem)
        ensures
            final(self)@ == old(self)@.with_item(item@),
    {
        let ghost before = self.items@;
        self.items.push(item);
        assert(views(self.items@) == views(before).push(item@));
    }

    /// The feed, where every field was set and an item was added; else an
    /// error.
    pub fn get(self) -> (r: Result<BBCWeatherThreeDay, ()>)
        ensures
            match r {
                Ok(feed) => self@.complete() && feed@ == self@.channel(),
                Err(_) => !self@.complete(),
            },
    {
        if self.items.len() == 0 {
            return Err(());
        }
        match (
            self.title,
            self.link,
            self.description,
            self.language,
            self.copyright,
            self.pub_date,
        ) {
            (
                Some(title),
                Some(link),
                Some(description),
                Some(language),
                Some(copyright),
                Some(pub_date),
            ) => Ok(
                BBCWeatherThreeDay {
                    title,
                    link,
                    description,
                    language,
                    copyright,
                    pub_date,
                    items: self.items,
                },
            ),
            _ => Err(()),
        }
    }
}

impl Builder for ChannelBuilder {
    open spec fn empty(&self) -> bool {
        self@ == ChannelFields::none()
    }

    fn new() -> (r: ChannelBuilder) {
        let builder = ChannelBuilder {
            title: None,
            link: None,
            description: None,
            language: None,
            copyright: None,
            pub_date: None,
            items: Vec::new(),
        };
        assert(builder@.items =~= Seq::empty());
        builder
    }
}

/// Collects the fields of one item, in any order.
#[derive(Debug)]
pub struct ItemBuilder {
    title: Option<StringElement>,
    link: Option<UrlElement>,
    description: Option<StringElement>,
    pub_date: Option<DateTimeElement>,
    guid: Option<UrlElement>,
    geo_rss_point: Option<GeoRSSPointElement>,
}

impl View for ItemBuilder {
    type V = ItemFields;

    closed spec fn view(&self) -> ItemFields {
        ItemFields {
            title: view_of(self.title),
            link: view_of(self.link),
            description: view_of(self.description),
            pub_date: view_of(self.pub_date),
            guid: view_of(self.guid),
            geo_rss_point: view_of(self.geo_rss_point),
        }
    }
}

impl ItemBuilder {
    /// Sets the title; a title set before is replaced.
    pub fn set_title(&mut self, title: StringElement)
        ensures
            final(self)@ == (ItemFields { title: Some(title@), ..old(self)@ }),
    {
        self.title = Some(title);
    }

    /// Sets the link; a link set before is replaced.
    pub fn set_link(&mut self, link: UrlElement)
        ensures
            final(self)@ == (ItemFields { link: Some(link@), ..old(self)@ }),
    {
        self.link = Some(link);
    }

    /// Sets the description; a description set before is replaced.
    pub fn set_description(&mut self, description: StringElement)
        ensures
            final(self)@ == (ItemFields { description: Some(description@), ..old(self)@ }),
    {
        self.description = Some(description);
    }

    /// Sets the date of publication; a date set before is replaced.
    pub fn set_pub_date(&mut self, pub_date: DateTimeElement)
        ensures
            final(self)@ == (ItemFields { pub_date: Some(pub_date@), ..old(self)@ }),
    {
        self.pub_date = Some(pub_date);
    }

    /// Sets the identifier; an identifier set before is replaced.
    pub fn set_guid(&mut self, guid: UrlElement)
        ensures
            final(self)@ == (ItemFields { guid: Some(guid@), ..old(self)@ }),
    {
        self.guid = Some(guid);
    }

    /// Sets the geographic point; a point set before is replaced.
    pub fn set_geo_rss_point(&mut self, geo_rss_point: GeoRSSPointElement)
        ensures
            final(self)@ == (ItemFields { geo_rss_point: Some(geo_rss_point@), ..old(self)@ }),
    {
        self.geo_rss_point = Some(geo_rss_point);
    }

    /// A copy of the item, where every field was set; else an error.
    pub fn get(&self) -> (r: Result<BBCWeatherThreeDayItem, ()>)
        ensures
            match r {
                Ok(item) => self@.complete() && item@ == self@.item(),
                Err(_) => !self@.complete(),
            },
    {
        match (
            &self.title,
            &self.link,
            &self.description,
            &self.pub_date,
            &self.guid,
            &self.geo_rss_point,
        ) {
            (
                Some(title),
                Some(link),
                Some(description),
                Some(pub_date),
                Some(guid),
                Some(geo_rss_point),
            ) => Ok(
                BBCWeatherThreeDayItem {
                    title: title.clone(),
                    link: link.clone(),
                    description: description.clone(),
                    pub_date: pub_date.clone(),
                    guid: guid.clone(),
                    geo_rss_point: geo_rss_point.clone(),
                },
            ),
            _ => Err(()),
        }
    }
}

impl Builder for ItemBuilder {
    open spec fn empty(&self) -> bool {
        self@ == ItemFields::none()
    }

    fn new() -> (r: ItemBuilder) {
        ItemBuilder {
            title: None,
            link: None,
            description: None,
            pub_date: None,
            guid: None,
            geo_rss_point: None,
        }
    }
}

} // verus!
