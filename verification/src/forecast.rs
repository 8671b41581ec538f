//! The three-day feed, made from values that are at hand.

use vstd::prelude::*;
use crate::rss2::{
    views, ChannelView, DateTimeElement, GeoRSSPointElement, ItemView, StringElement, UrlElement,
};

verus! {

/// One forecast entry of the three-day feed.
#[derive(Debug)]
pub struct BBCWeatherThreeDayItem {
    title: StringElement,
    link: UrlElement,
    description: StringElement,
    pub_date: DateTimeElement,
    guid: UrlElement,
    geo_rss_point: GeoRSSPointElement,
}

impl View for BBCWeatherThreeDayItem {
    type V = ItemView;

    closed spec fn view(&self) -> ItemView {
        ItemView {
            title: self.title@,
            link: self.link@,
            description: self.description@,
            pub_date: self.pub_date@,
            guid: self.guid@,
            geo_rss_point: self.geo_rss_point@,
        }
    }
}

impl BBCWeatherThreeDayItem {
    /// The entry of the six values.
    pub fn new(
        title: StringElement,
        link: UrlElement,
        description: StringElement,
        pub_date: DateTimeElement,
        guid: UrlElement,
        geo_rss_point: GeoRSSPointElement,
    ) -> (item: BBCWeatherThreeDayItem)
        ensures
            item@ == (ItemView {
                title: title@,
                link: link@,
                description: description@,
                pub_date: pub_date@,
                guid: guid@,
                geo_rss_point: geo_rss_point@,
            }),
    {
        BBCWeatherThreeDayItem { title, link, description, pub_date, guid, geo_rss_point }
    }

    /// The title.
    pub fn title(&self) -> (e: &StringElement)
        ensures
            e@ == self@.title,
    {
        &self.title
    }

    /// The link.
    pub fn link(&self) -> (e: &UrlElement)
        ensures
            e@ == self@.link,
    {
        &self.link
    }

    /// The description.
    pub fn description(&self) -> (e: &StringElement)
        ensures
            e@ == self@.description,
    {
        &self.description
    }

    /// The date of publication.
    pub fn pub_date(&self) -> (e: &DateTimeElement)
        ensures
            e@ == self@.pub_date,
    {
        &self.pub_date
    }

    /// The identifier.
    pub fn guid(&self) -> (e: &UrlElement)
        ensures
            e@ == self@.guid,
    {
        &self.guid
    }

    /// The geographic point.
    pub fn geo_rss_point(&self) -> (e: &GeoRSSPointElement)
        ensures
            e@ == self@.geo_rss_point,
    {
        &self.geo_rss_point
    }
}

/// The three-day feed: its own fields and its entries in the order given.
#[derive(Debug)]
pub struct BBCWeatherThreeDay {
    title: StringElement,
    link: UrlElement,
    description: StringElement,
    language: StringElement,
    copyright: StringElement,
    pub_date: DateTimeElement,
    items: Vec<BBCWeatherThreeDayItem>,
}

impl View for BBCWeatherThreeDay {
    type V = ChannelView;

    closed spec fn view(&self) -> ChannelView {
        ChannelView {
            title: self.title@,
            link: self.link@,
            description: self.description@,
            language: self.language@,
            copyright: self.copyright@,
            pub_date: self.pub_date@,
            items: views(self.items@),
        }
    }
}

impl BBCWeatherThreeDay {
    /// The feed of the six values and the entries.
    pub fn new(
        title: StringElement,
        link: UrlElement,
        description: StringElement,
        language: StringElement,
        copyright: StringElement,
        pub_date: DateTimeElement,
        items: Vec<BBCWeatherThreeDayItem>,
    ) -> (feed: BBCWeatherThreeDay)
        ensures
            feed@ == (ChannelView {
                title: title@,
                link: link@,
                description: description@,
                language: language@,
                copyright: copyright@,
                pub_date: pub_date@,
                items: views(items@),
            }),
    {
        BBCWeatherThreeDay { title, link, description, language, copyright, pub_date, items }
    }

    /// The title.
    pub fn title(&self) -> (e: &StringElement)
        ensures
            e@ == self@.title,
    {
        &self.title
    }

    /// The link.
    pub fn link(&self) -> (e: &UrlElement)
        ensures
            e@ == self@.link,
    {
        &self.link
    }

    /// The description.
    pub fn description(&self) -> (e: &StringElement)
        ensures
            e@ == self@.description,
    {
        &self.description
    }

    /// The language.
    pub fn language(&self) -> (e: &StringElement)
        ensures
            e@ == self@.language,
    {
        &self.language
    }

    /// The copyright.
    pub fn copyright(&self) -> (e: &StringElement)
        ensures
            e@ == self@.copyright,
    {
        &self.copyright
    }

    /// The date of publication.
    pub fn pub_date(&self) -> (e: &DateTimeElement)
        ensures
            e@ == self@.pub_date,
    {
        &self.pub_date
    }

    /// The items, in the order in which they were given.
    pub fn items(&self) -> (items: &Vec<BBCWeatherThreeDayItem>)
        ensures
            views(items@) == self@.items,
    {
        &self.items
    }
}

} // verus!
