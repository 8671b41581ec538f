//! The feed of the latest observations: the same fields as the three-day
//! feed, kept as plain values and set without a check of their length.

use vstd::prelude::*;
use crate::datetime::{rfc2822_text, DateTime};
use crate::decimal::{check_float_literal, is_float_literal};
use crate::rss2::{view_of, views, ChannelFields, ChannelView, Coordinates, ItemFields, ItemView};
use crate::text::chars_of;
use crate::weburl::Url;

verus! {

/// Why a value of the feed could not be made.
#[derive(Clone, Copy, Debug, PartialEq, Eq, Structural)]
pub enum Error {
    /// A structure was to be completed while a field was not set.
    Converstion,
    /// A coordinate was no floating-point literal.
    GeoRssPoint,
}

/// A latitude and a longitude, each kept as the floating-point literal that
/// it was made from.
#[derive(Debug)]
pub struct GeoRssPoint {
    latitude: String,
    longitude: String,
}

impl View for GeoRssPoint {
    type V = Coordinates;

    closed spec fn view(&self) -> Coordinates {
        Coordinates { latitude: self.latitude@, longitude: self.longitude@ }
    }
}

impl Clone for GeoRssPoint {
    fn clone(&self) -> (r: Self)
        ensures
            r@ == self@,
    {
        proof {
            use_type_invariant(self);
        }
        GeoRssPoint { latitude: self.latitude.clone(), longitude: self.longitude.clone() }
    }
}

impl GeoRssPoint {
    #[verifier::type_invariant]
    spec fn both_are_literals(self) -> bool {
        is_float_literal(self.latitude@) && is_float_literal(self.longitude@)
    }

    /// The point of a latitude and a longitude, where both are
    /// floating-point literals.
    pub fn new(latitude: &str, longitude: &str) -> (r: Result<GeoRssPoint, Error>)
        ensures
            match r {
                Ok(point) => is_float_literal(latitude@) && is_float_literal(longitude@) && point@
                    == (Coordinates { latitude: latitude@, longitude: longitude@ }),
                Err(e) => !(is_float_literal(latitude@) && is_float_literal(longitude@)) && e
                    == Error::GeoRssPoint,
            },
    {
        if !check_float_literal(&chars_of(latitude)) {
            return Err(Error::GeoRssPoint);
        }
        if !check_float_literal(&chars_of(longitude)) {
            return Err(Error::GeoRssPoint);
        }
        Ok(GeoRssPoint { latitude: latitude.to_owned(), longitude: longitude.to_owned() })
    }

    /// The latitude, a floating-point literal.
    pub fn latitude(&self) -> (s: &str)
        ensures
            s@ == self@.latitude,
            is_float_literal(s@),
    {
        proof {
            use_type_invariant(self);
        }
        self.latitude.as_str()
    }

    /// The longitude, a floating-point literal.
    pub fn longitude(&self) -> (s: &str)
        ensures
            s@ == self@.longitude,
            is_float_literal(s@),
    {
        proof {
            use_type_invariant(self);
        }
        self.longitude.as_str()
    }
}

/// One observation.
#[derive(Debug)]
pub struct BBCWeatherLatestItem {
    title: String,
    link: Url,
    description: String,
    pub_date: DateTime,
    guid: Url,
    geo_rss_point: GeoRssPoint,
}

impl View for BBCWeatherLatestItem {
    type V = ItemView;

    closed spec fn view(&self) -> ItemView {
        ItemView {
            title: self.title@,
            link: self.link@,
            description: self.description@,
            pub_date: self.pub_date,
            guid: self.guid@,
            geo_rss_point: self.geo_rss_point@,
        }
    }
}

impl BBCWeatherLatestItem {
    /// The title.
    pub fn title(&self) -> (s: &str)
        ensures
            s@ == self@.title,
    {
        self.title.as_str()
    }

    /// The description.
    pub fn description(&self) -> (s: &str)
        ensures
            s@ == self@.description,
    {
        self.description.as_str()
    }

    /// The date of publication in the format of RFC 2822, or `None` where
    /// the local year is negative or has more than four digits, for which
    /// the format has no text.
    pub fn pub_date(&self) -> (r: Option<String>)
        ensures
            match r {
                Some(text) => self@.pub_date.year_has_four_digits() && rfc2822_text(
                    self@.pub_date,
                ) == Some(text@),
                None => !self@.pub_date.year_has_four_digits() || rfc2822_text(self@.pub_date)
                    is None,
            },
    {
        self.pub_date.to_rfc2822()
    }

    /// The date of publication.
    pub fn date_time(&self) -> (d: DateTime)
        ensures
            d == self@.pub_date,
    {
        self.pub_date
    }
}

/// Collects the fields of one observation, in any order.
#[derive(Debug)]
pub struct ItemBuilder {
    title: Option<String>,
    link: Option<Url>,
    description: Option<String>,
    pub_date: Option<DateTime>,
    guid: Option<Url>,
    geo_rss_point: Option<GeoRssPoint>,
}

impl View for ItemBuilder {
    type V = ItemFields;

    closed spec fn view(&self) -> ItemFields {
        ItemFields {
            title: view_of(self.title),
            link: view_of(self.link),
            description: view_of(self.description),
            pub_date: self.pub_date,
            guid: view_of(self.guid),
            geo_rss_point: view_of(self.geo_rss_point),
        }
    }
}

impl ItemBuilder {
    /// A fresh accumulator, with no field set.
    pub fn new() -> (r: ItemBuilder)
        ensures
            r@ == ItemFields::none(),
    {
        ItemBuilder {
            title: None,
            link: None,
            description: None,
            pub_date: None,
            guid: None,
            geo_rss_point: None,
        }
    }

    /// Sets the title; a title set before is replaced.
    pub fn set_title(&mut self, title: &str)
        ensures
            final(self)@ == (ItemFields { title: Some(title@), ..old(self)@ }),
    {
        self.title = Some(title.to_owned());
    }

    /// Sets the link; a link set before is replaced.
    pub fn set_link(&mut self, link: Url)
        ensures
            final(self)@ == (ItemFields { link: Some(link@), ..old(self)@ }),
    {
        self.link = Some(link);
    }

    /// Sets the description; a description set before is replaced.
    pub fn set_description(&mut self, description: &str)
        ensures
            final(self)@ == (ItemFields { description: Some(description@), ..old(self)@ }),
    {
        self.description = Some(description.to_owned());
    }

    /// Sets the date of publication; a date set before is replaced.
    pub fn set_pub_date(&mut self, pub_date: DateTime)
        ensures
            final(self)@ == (ItemFields { pub_date: Some(pub_date), ..old(self)@ }),
    {
        self.pub_date = Some(pub_date);
    }

    /// Sets the identifier; an identifier set before is replaced.
    pub fn set_guid(&mut self, guid: Url)
        ensures
            final(self)@ == (ItemFields { guid: Some(guid@), ..old(self)@ }),
    {
        self.guid = Some(guid);
    }

    /// Sets the geographic point; a point set before is replaced.
    pub fn set_geo_rss_point(&mut self, geo_rss_point: GeoRssPoint)
        ensures
            final(self)@ == (ItemFields { geo_rss_point: Some(geo_rss_point@), ..old(self)@ }),
    {
        self.geo_rss_point = Some(geo_rss_point);
    }

    /// A copy of the observation, where every field was set; else an error.
    pub fn get(&self) -> (r: Result<BBCWeatherLatestItem, Error>)
        ensures
            match r {
                Ok(item) => self@.complete() && item@ == self@.item(),
                Err(e) => !self@.complete() && e == Error::Converstion,
            },
    {
        match (
            &self.title,
            &self.link,
            &self.description,
            &self.pub_date,
            &self.guid,
            &self.geo_rss_point,
        ) {
            (
                Some(title),
                Some(link),
                Some(description),
                Some(pub_date),
                Some(guid),
                Some(geo_rss_point),
            ) => Ok(
                BBCWeatherLatestItem {
                    title: title.clone(),
                    link: link.clone(),
                    description: description.clone(),
                    pub_date: *pub_date,
                    guid: guid.clone(),
                    geo_rss_point: geo_rss_point.clone(),
                },
            ),
            _ => Err(Error::Converstion),
        }
    }
}

/// The feed of the latest observations.
#[derive(Debug)]
pub struct BBCWeatherLatest {
    title: String,
    link: Url,
    description: String,
    language: String,
    copyright: String,
    pub_date: DateTime,
    items: Vec<BBCWeatherLatestItem>,
}

impl View for BBCWeatherLatest {
    type V = ChannelView;

    closed spec fn view(&self) -> ChannelView {
        ChannelView {
            title: self.title@,
            link: self.link@,
            description: self.description@,
            language: self.language@,
            copyright: self.copyright@,
            pub_date: self.pub_date,
            items: views(self.items@),
        }
    }
}

impl BBCWeatherLatest {
    #[verifier::type_invariant]
    spec fn has_items(self) -> bool {
        self.items@.len() > 0
    }

    /// The title.
    pub fn title(&self) -> (s: &str)
        ensures
            s@ == self@.title,
    {
        self.title.as_str()
    }

    /// The description.
    pub fn description(&self) -> (s: &str)
        ensures
            s@ == self@.description,
    {
        self.description.as_str()
    }

    /// The observations, in the order in which they were added; there is at
    /// least one.
    pub fn items(&self) -> (items: &Vec<BBCWeatherLatestItem>)
        ensures
            views(items@) == self@.items,
            items@.len() > 0,
    {
        proof {
            use_type_invariant(self);
        }
        &self.items
    }
}

/// Collects the fields of the feed, in any order.
#[derive(Debug)]
pub struct RssBuilder {
    title: Option<String>,
    link: Option<Url>,
    description: Option<String>,
    language: Option<String>,
    copyright: Option<String>,
    pub_date: Option<DateTime>,
    items: Vec<BBCWeatherLatestItem>,
}

impl View for RssBuilder {
    type V = ChannelFields;

    closed spec fn view(&self) -> ChannelFields {
        ChannelFields {
            title: view_of(self.title),
            link: view_of(self.link),
            description: view_of(self.description),
            language: view_of(self.language),
            copyright: view_of(self.copyright),
            pub_date: self.pub_date,
            items: views(self.items@),
        }
    }
}

impl RssBuilder {
    /// A fresh accumulator, with no field set.
    pub fn new() -> (r: RssBuilder)
        ensures
            r@ == ChannelFields::none(),
    {
        let builder = RssBuilder {
            title: None,
            link: None,
            description: None,
            language: None,
            copyright: None,
            pub_date: None,
            items: Vec::new(),
        };
        assert(builder@.items =~= Seq::empty());
        builder
    }

    /// Sets the title; a title set before is replaced.
    pub fn set_title(&mut self, title: &str)
        ensures
            final(self)@ == (ChannelFields { title: Some(title@), ..old(self)@ }),
    {
        self.title = Some(title.to_owned());
    }

    /// Sets the link; a link set before is replaced.
    pub fn set_link(&mut self, link: Url)
        ensures
            final(self)@ == (ChannelFields { link: Some(link@), ..old(self)@ }),
    {
        self.link = Some(link);
    }

    /// Sets the description; a description set before is replaced.
    pub fn set_description(&mut self, description: &str)
        ensures
            final(self)@ == (ChannelFields { description: Some(description@), ..old(self)@ }),
    {
        self.description = Some(description.to_owned());
    }

    /// Sets the language; a language set before is replaced.
    pub fn set_language(&mut self, language: &str)
        ensures
            final(self)@ == (ChannelFields { language: Some(language@), ..old(self)@ }),
    {
        self.language = Some(language.to_owned());
    }

    /// Sets the copyright; a copyright set before is replaced.
    pub fn set_copyright(&mut self, copyright: &str)
        ensures
            final(self)@ == (ChannelFields { copyright: Some(copyright@), ..old(self)@ }),
    {
        self.copyright = Some(copyright.to_owned());
    }

    /// Sets the date of publication; a date set before is replaced.
    pub fn set_pub_date(&mut self, pub_date: DateTime)
        ensures
            final(self)@ == (ChannelFields { pub_date: Some(pub_date), ..old(self)@ }),
    {
        self.pub_date = Some(pub_date);
    }

    /// Adds an observation behind those that were added before, which stay
    /// as they are.
    pub fn set_item(&mut self, item: BBCWeatherLatestItem)
        ensures
            final(self)@ == old(self)@.with_item(item@),
    {
        let ghost before = self.items@;
        self.items.push(item);
        assert(views(self.items@) == views(before).push(item@));
    }

    /// The feed, where every field was set and an observation was added;
    /// else an error.
    pub fn get(self) -> (r: Result<BBCWeatherLatest, Error>)
        ensures
            match r {
                Ok(feed) => self@.complete() && feed@ == self@.channel(),
                Err(e) => !self@.complete() && e == Error::Converstion,
            },
    {
        if self.items.len() == 0 {
            return Err(Error::Converstion);
        }
        match (
            self.title,
            self.link,
            self.description,
            self.language,
            self.copyright,
            self.pub_date,
        ) {
            (
                Some(title),
                Some(link),
                Some(description),
                Some(language),
                Some(copyright),
                Some(pub_date),
            ) => Ok(
                BBCWeatherLatest {
                    title,
                    link,
                    description,
                    language,
                    copyright,
                    pub_date,
                    items: self.items,
                },
            ),
            _ => Err(Error::Converstion),
        }
    }
}

} // verus!
