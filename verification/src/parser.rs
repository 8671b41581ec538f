//! The feed parser: a walk over the events of an XML document that fills a
//! channel and its items.
//!
//! The walk keeps two states, one for the channel and one for the item that
//! is open, and one buffer of text. A start tag moves a state; a text event
//! fills the buffer; an end tag converts the buffer to the value of its
//! element and hands it to the accumulator of the structure that is open.
//! The first refusal ends the walk: no partial channel is ever returned.
//!
//! The schema has two structures, the channel and the item. Elements that it
//! does not know are passed over, and what is nested in them counts for the
//! structure that is open.
//!
//! [`spec_walk`] says what a sequence of events gives. [`parse_events`]
//! computes it for events at hand and [`parse_document`] for the events that
//! the reader yields for a document.

use vstd::prelude::*;
use vstd::utf8::encode_utf8;
use crate::datetime::{parsed_rfc2822, DateTime};
use crate::error::{Error, MissingFields};
use crate::rss2::{
    views, view_of, ChannelFields, ChannelView, Coordinates, DateTimeElement, ElementKind,
    ElementParser, ElementParserError, GeoRSSPointElement, ItemFields, ItemView, StringElement,
    UrlElement,
};
use crate::text::{byte_len, split};
use crate::weburl::parsed_url;
use crate::xml::{
    decoded_all, document_events, ends_once, next_event, open_reader, pending, Event, EventView,
};

verus! {

/// The name of the root element.
pub const RSS_EL: &'static str = "rss";

/// The name of the element that holds a title.
pub const TITLE_EL: &'static str = "title";

/// The name of the element that holds a link.
pub const LINK_EL: &'static str = "link";

/// The name of the element that holds a description.
pub const DESCRIPTION_EL: &'static str = "description";

/// The name of the element that holds the channel's language.
pub const LANGUAGE_EL: &'static str = "language";

/// The name of the element that holds the channel's copyright.
pub const COPYRIGHT_EL: &'static str = "copyright";

/// The name of the element that holds a date of publication.
pub const PUBDATE_EL: &'static str = "pubDate";

/// The name of the element that holds one item.
pub const ITEM_EL: &'static str = "item";

/// The name of the element that holds an item's identifier.
pub const GUID_EL: &'static str = "guid";

/// The name of the element that holds an item's geographic point.
pub const GEORSS_POINT_EL: &'static str = "georss:point";

/// The elements that the schema knows, and one for all others.
#[derive(Clone, Copy, Debug, PartialEq, Eq, Structural)]
pub enum Tag {
    Rss,
    Title,
    Link,
    Description,
    Language,
    Copyright,
    PubDate,
    Item,
    Guid,
    GeoRssPoint,
    Other,
}

/// The element that a qualified name stands for: the name is compared, byte
/// for byte, with the names that the schema knows.
pub open spec fn tag_of(name: Seq<u8>) -> Tag {
    if name == encode_utf8(RSS_EL@) {
        Tag::Rss
    } else if name == encode_utf8(TITLE_EL@) {
        Tag::Title
    } else if name == encode_utf8(LINK_EL@) {
        Tag::Link
    } else if name == encode_utf8(DESCRIPTION_EL@) {
        Tag::Description
    } else if name == encode_utf8(LANGUAGE_EL@) {
        Tag::Language
    } else if name == encode_utf8(COPYRIGHT_EL@) {
        Tag::Copyright
    } else if name == encode_utf8(PUBDATE_EL@) {
        Tag::PubDate
    } else if name == encode_utf8(ITEM_EL@) {
        Tag::Item
    } else if name == encode_utf8(GUID_EL@) {
        Tag::Guid
    } else if name == encode_utf8(GEORSS_POINT_EL@) {
        Tag::GeoRssPoint
    } else {
        Tag::Other
    }
}

/// Whether `name` is `word` in UTF-8.
fn is_name(name: &Vec<u8>, word: &str) -> (b: bool)
    ensures
        b == (name@ == encode_utf8(word@)),
{
    let bytes = word.as_bytes();
    if name.len() != bytes.len() {
        return false;
    }
    let mut i: usize = 0;
    while i < name.len()
        invariant
            0 <= i <= name.len(),
            name.len() == bytes@.len(),
            bytes@ == encode_utf8(word@),
            forall|j: int| 0 <= j < i ==> name@[j] == bytes@[j],
        decreases name.len() - i,
    {
        if name[i] != bytes[i] {
            return false;
        }
        i = i + 1;
    }
    assert(name@ =~= bytes@);
    true
}

/// The element that a qualified name stands for.
pub fn classify(name: &Vec<u8>) -> (tag: Tag)
    ensures
        tag == tag_of(name@),
{
    if is_name(name, RSS_EL) {
        Tag::Rss
    } else if is_name(name, TITLE_EL) {
        Tag::Title
    } else if is_name(name, LINK_EL) {
        Tag::Link
    } else if is_name(name, DESCRIPTION_EL) {
        Tag::Description
    } else if is_name(name, LANGUAGE_EL) {
        Tag::Language
    } else if is_name(name, COPYRIGHT_EL) {
        Tag::Copyright
    } else if is_name(name, PUBDATE_EL) {
        Tag::PubDate
    } else if is_name(name, ITEM_EL) {
        Tag::Item
    } else if is_name(name, GUID_EL) {
        Tag::Guid
    } else if is_name(name, GEORSS_POINT_EL) {
        Tag::GeoRssPoint
    } else {
        Tag::Other
    }
}

/// Where the walk stands in the channel.
#[derive(Clone, Copy, Debug, PartialEq, Eq, Structural)]
pub enum State {
    /// Nothing was read yet.
    Initial,
    /// At the level of the channel: the root was opened, or an item was
    /// closed.
    Rss,
    Title,
    Link,
    Description,
    Language,
    Copyright,
    PubDate,
    /// Inside an item.
    Item,
    /// The root was closed.
    Complete,
}

/// Where the walk stands in the item that is open.
#[derive(Clone, Copy, Debug, PartialEq, Eq, Structural)]
pub enum ItemState {
    /// No field of the item was opened yet.
    Initial,
    Title,
    Link,
    Description,
    PubDate,
    Guid,
    GeoRssPoint,
}

/// The structure that takes the value of an element.
#[derive(Clone, Copy, Debug, PartialEq, Eq, Structural)]
pub enum Destination {
    Channel,
    Item,
}

/// The two states after a start tag.
///
/// Inside an item the tag moves the item's state, where the item has a field
/// of that name, and a nested `item` starts the item's state over; no other
/// tag moves anything. Outside an item the tag moves the channel's state,
/// where the channel has a field of that name; `item` opens an item. Once
/// the root was closed nothing moves.
///
/// An element that the schema does not know, such as `image` or `url`,
/// moves nothing and opens no structure of its own. So a field that is
/// nested in such an element counts for the structure that is open: a
/// `title` or a `link` inside an `image` at the level of the channel is
/// handed to the channel, where it replaces a value that was set before.
pub open spec fn next_states(state: State, item_state: ItemState, tag: Tag) -> (State, ItemState) {
    match state {
        State::Complete => (state, item_state),
        State::Item => match tag {
            Tag::Title => (state, ItemState::Title),
            Tag::Link => (state, ItemState::Link),
            Tag::Description => (state, ItemState::Description),
            Tag::PubDate => (state, ItemState::PubDate),
            Tag::Guid => (state, ItemState::Guid),
            Tag::GeoRssPoint => (state, ItemState::GeoRssPoint),
            Tag::Item => (state, ItemState::Initial),
            _ => (state, item_state),
        },
        _ => match tag {
            Tag::Rss => (State::Rss, item_state),
            Tag::Title => (State::Title, item_state),
            Tag::Link => (State::Link, item_state),
            Tag::Description => (State::Description, item_state),
            Tag::Language => (State::Language, item_state),
            Tag::Copyright => (State::Copyright, item_state),
            Tag::PubDate => (State::PubDate, item_state),
            Tag::Item => (State::Item, ItemState::Initial),
            _ => (state, item_state),
        },
    }
}

/// The two states after a start tag.
pub fn transition(state: State, item_state: ItemState, tag: Tag) -> (next: (State, ItemState))
    ensures
        next == next_states(state, item_state, tag),
{
    match state {
        State::Complete => (state, item_state),
        State::Item => match tag {
            Tag::Title => (state, ItemState::Title),
            Tag::Link => (state, ItemState::Link),
            Tag::Description => (state, ItemState::Description),
            Tag::PubDate => (state, ItemState::PubDate),
            Tag::Guid => (state, ItemState::Guid),
            Tag::GeoRssPoint => (state, ItemState::GeoRssPoint),
            Tag::Item => (state, ItemState::Initial),
            _ => (state, item_state),
        },
        _ => match tag {
            Tag::Rss => (State::Rss, item_state),
            Tag::Title => (State::Title, item_state),
            Tag::Link => (State::Link, item_state),
            Tag::Description => (State::Description, item_state),
            Tag::Language => (State::Language, item_state),
            Tag::Copyright => (State::Copyright, item_state),
            Tag::PubDate => (State::PubDate, item_state),
            Tag::Item => (State::Item, ItemState::Initial),
            _ => (state, item_state),
        },
    }
}

/// The structure that is open in a state: the item inside an item, else the
/// channel.
pub open spec fn destination_of(state: State) -> Destination {
    if state == State::Item {
        Destination::Item
    } else {
        Destination::Channel
    }
}

/// The kind of value that an element holds, for the elements that hold one.
pub open spec fn kind_of(tag: Tag) -> Option<ElementKind> {
    match tag {
        Tag::Title | Tag::Description | Tag::Language | Tag::Copyright => Some(
            ElementKind::String,
        ),
        Tag::Link | Tag::Guid => Some(ElementKind::Url),
        Tag::PubDate => Some(ElementKind::DateTime),
        Tag::GeoRssPoint => Some(ElementKind::GeoRssPoint),
        Tag::Rss | Tag::Item | Tag::Other => None,
    }
}

impl Destination {
    /// Whether the structure has a field for the element. The language and
    /// the copyright belong to the channel alone, the identifier and the
    /// geographic point to an item alone.
    pub open spec fn accepts(self, tag: Tag) -> bool {
        match self {
            Destination::Channel => tag == Tag::Title || tag == Tag::Link || tag
                == Tag::Description || tag == Tag::Language || tag == Tag::Copyright || tag
                == Tag::PubDate,
            Destination::Item => tag == Tag::Title || tag == Tag::Link || tag == Tag::Description
                || tag == Tag::PubDate || tag == Tag::Guid || tag == Tag::GeoRssPoint,
        }
    }

    /// The structure that is open in a state.
    pub fn of_state(state: State) -> (destination: Destination)
        ensures
            destination == destination_of(state),
    {
        match state {
            State::Item => Destination::Item,
            _ => Destination::Channel,
        }
    }

    /// The structure that takes the value of an element in a state, or the
    /// structural error where the schema has no place for the element there.
    pub fn route(state: State, tag: Tag) -> (r: Result<Destination, Error>)
        ensures
            match r {
                Ok(destination) => destination == destination_of(state) && destination.accepts(
                    tag,
                ),
                Err(e) => e == Error::InvalidDestination && !destination_of(state).accepts(tag),
            },
    {
        let destination = Destination::of_state(state);
        let accepted = match destination {
            Destination::Channel => match tag {
                Tag::Title | Tag::Link | Tag::Description | Tag::Language | Tag::Copyright
                | Tag::PubDate => true,
                _ => false,
            },
            Destination::Item => match tag {
                Tag::Title | Tag::Link | Tag::Description | Tag::PubDate | Tag::Guid
                | Tag::GeoRssPoint => true,
                _ => false,
            },
        };
        if accepted {
            Ok(destination)
        } else {
            Err(Error::InvalidDestination)
        }
    }
}

/// One forecast entry.
#[derive(Debug)]
pub struct Item {
    title: StringElement,
    link: UrlElement,
    description: StringElement,
    pub_date: DateTimeElement,
    guid: UrlElement,
    geo_rss_point: GeoRSSPointElement,
}

impl View for Item {
    type V = ItemView;

    closed spec fn view(&self) -> ItemView {
        ItemView {
            title: self.title@,
            link: self.link@,
            description: self.description@,
            pub_date: self.pub_date@,
            guid: self.guid@,
            geo_rss_point: self.geo_rss_point@,
        }
    }
}

impl Clone for Item {
    fn clone(&self) -> (r: Self)
        ensures
            r@ == self@,
    {
        Item {
            title: self.title.clone(),
            link: self.link.clone(),
            description: self.description.clone(),
            pub_date: self.pub_date.clone(),
            guid: self.guid.clone(),
            geo_rss_point: self.geo_rss_point.clone(),
        }
    }
}

impl Item {
    /// The title.
    pub fn get_title(&self) -> (s: &str)
        ensures
            s@ == self@.title,
    {
        self.title.as_str()
    }

    /// The serialization of the link.
    pub fn get_link(&self) -> (s: &str)
        ensures
            s@ == self@.link,
    {
        self.link.as_str()
    }

    /// The description.
    pub fn get_description(&self) -> (s: &str)
        ensures
            s@ == self@.description,
    {
        self.description.as_str()
    }

    /// The date of publication.
    pub fn get_pub_date(&self) -> (d: DateTime)
        ensures
            d == self@.pub_date,
    {
        self.pub_date.date_time()
    }

    /// The serialization of the identifier.
    pub fn get_guid(&self) -> (s: &str)
        ensures
            s@ == self@.guid,
    {
        self.guid.as_str()
    }

    /// The geographic point.
    pub fn get_geo_rss_point(&self) -> (p: &GeoRSSPointElement)
        ensures
            p@ == self@.geo_rss_point,
    {
        &self.geo_rss_point
    }
}

/// The feed: its own fields and its items in the order of the document.
#[derive(Debug)]
pub struct Channel {
    title: StringElement,
    link: UrlElement,
    description: StringElement,
    language: StringElement,
    copyright: StringElement,
    pub_date: DateTimeElement,
    items: Vec<Item>,
}

impl View for Channel {
    type V = ChannelView;

    closed spec fn view(&self) -> ChannelView {
        ChannelView {
            title: self.title@,
            link: self.link@,
            description: self.description@,
            language: self.language@,
            copyright: self.copyright@,
            pub_date: self.pub_date@,
            items: views(self.items@),
        }
    }
}

impl Clone for Channel {
    fn clone(&self) -> (r: Self)
        ensures
            r@ == self@,
    {
        proof {
            use_type_invariant(self);
        }
        let mut items: Vec<Item> = Vec::new();
        let mut i: usize = 0;
        while i < self.items.len()
            invariant
                0 <= i <= self.items.len(),
                items@.len() == i,
                views(items@) == views(self.items@).take(i as int),
            decreases self.items.len() - i,
        {
            items.push(self.items[i].clone());
            i = i + 1;
        }
        assert(views(self.items@).take(i as int) == views(self.items@));
        Channel {
            title: self.title.clone(),
            link: self.link.clone(),
            description: self.description.clone(),
            language: self.language.clone(),
            copyright: self.copyright.clone(),
            pub_date: self.pub_date.clone(),
            items,
        }
    }
}

impl Channel {
    #[verifier::type_invariant]
    spec fn has_items(self) -> bool {
        self.items@.len() > 0
    }

    /// The title.
    pub fn get_title(&self) -> (s: &str)
        ensures
            s@ == self@.title,
    {
        self.title.as_str()
    }

    /// The serialization of the link.
    pub fn get_link(&self) -> (s: &str)
        ensures
            s@ == self@.link,
    {
        self.link.as_str()
    }

    /// The description.
    pub fn get_description(&self) -> (s: &str)
        ensures
            s@ == self@.description,
    {
        self.description.as_str()
    }

    /// The language.
    pub fn get_language(&self) -> (s: &str)
        ensures
            s@ == self@.language,
    {
        self.language.as_str()
    }

    /// The copyright.
    pub fn get_copyright(&self) -> (s: &str)
        ensures
            s@ == self@.copyright,
    {
        self.copyright.as_str()
    }

    /// The date of publication.
    pub fn get_pub_date(&self) -> (d: DateTime)
        ensures
            d == self@.pub_date,
    {
        self.pub_date.date_time()
    }

    /// The items, in the order of the document; there is at least one.
    pub fn get_items(&self) -> (items: &Vec<Item>)
        ensures
            views(items@) == self@.items,
            items@.len() > 0,
    {
        proof {
            use_type_invariant(self);
        }
        &self.items
    }
}

/// The mandatory fields of an item that are not set.
pub open spec fn item_missing(fields: ItemFields) -> MissingFields {
    MissingFields {
        title: fields.title is None,
        link: fields.link is None,
        description: fields.description is None,
        language: false,
        copyright: false,
        pub_date: fields.pub_date is None,
        guid: fields.guid is None,
        geo_rss_point: fields.geo_rss_point is None,
        items: false,
    }
}

/// The mandatory fields of a channel that are not set. The items count as
/// one field, which is set once an item was added: a channel without items
/// is not complete.
pub open spec fn channel_missing(fields: ChannelFields) -> MissingFields {
    MissingFields {
        title: fields.title is None,
        link: fields.link is None,
        description: fields.description is None,
        language: fields.language is None,
        copyright: fields.copyright is None,
        pub_date: fields.pub_date is None,
        guid: false,
        geo_rss_point: false,
        items: fields.items.len() == 0,
    }
}

/// What completing an item's fields gives: the item where all six are set,
/// else the error that names the missing ones.
pub open spec fn item_of(fields: ItemFields) -> Result<ItemView, Error> {
    if fields.complete() {
        Ok(fields.item())
    } else {
        Err(Error::MissingField(Destination::Item, item_missing(fields)))
    }
}

/// What completing a channel's fields gives: the channel where all are set
/// and an item was added, else the error that names the missing ones.
pub open spec fn channel_of(fields: ChannelFields) -> Result<ChannelView, Error> {
    if fields.complete() {
        Ok(fields.channel())
    } else {
        Err(Error::MissingField(Destination::Channel, channel_missing(fields)))
    }
}

/// Collects the fields of a channel, in any order.
#[derive(Debug)]
pub struct ChannelBuilder {
    title: Option<StringElement>,
    link: Option<UrlElement>,
    description: Option<StringElement>,
    language: Option<StringElement>,
    copyright: Option<StringElement>,
    pub_date: Option<DateTimeElement>,
    items: Vec<Item>,
}

impl View for ChannelBuilder {
    type V = ChannelFields;

    closed spec fn view(&self) -> ChannelFields {
        ChannelFields {
            title: view_of(self.title),
            link: view_of(self.link),
            description: view_of(self.description),
            language: view_of(self.language),
            copyright: view_of(self.copyright),
            pub_date: view_of(self.pub_date),
            items: views(self.items@),
        }
    }
}

impl ChannelBuilder {
    /// Sets the title; a title set before is replaced.
    pub fn set_title(&mut self, title: StringElement)
        ensures
            final(self)@ == (ChannelFields { title: Some(title@), ..old(self)@ }),
    {
        self.title = Some(title);
    }

    /// Sets the link; a link set before is replaced.
    pub fn set_link(&mut self, link: UrlElement)
        ensures
            final(self)@ == (ChannelFields { link: Some(link@), ..old(self)@ }),
    {
        self.link = Some(link);
    }

    /// Sets the description; a description set before is replaced.
    pub fn set_description(&mut self, description: StringElement)
        ensures
            final(self)@ == (ChannelFields { description: Some(description@), ..old(self)@ }),
    {
        self.description = Some(description);
    }

    /// Sets the language; a language set before is replaced.
    pub fn set_language(&mut self, language: StringElement)
        ensures
            final(self)@ == (ChannelFields { language: Some(language@), ..old(self)@ }),
    {
        self.language = Some(language);
    }

    /// Sets the copyright; a copyright set before is replaced.
    pub fn set_copyright(&mut self, copyright: StringElement)
        ensures
            final(self)@ == (ChannelFields { copyright: Some(copyright@), ..old(self)@ }),
    {
        self.copyright = Some(copyright);
    }

    /// Sets the date of publication; a date set before is replaced.
    pub fn set_pub_date(&mut self, pub_date: DateTimeElement)
        ensures
            final(self)@ == (ChannelFields { pub_date: Some(pub_date@), ..old(self)@ }),
    {
        self.pub_date = Some(pub_date);
    }

    /// Adds an item behind those that were added before, which stay as they
    /// are.
    pub fn set_items(&mut self, item: Item)
        ensures
            final(self)@ == old(self)@.with_item(item@),
    {
        let ghost before = self.items@;
        self.items.push(item);
        assert(views(self.items@) == views(before).push(item@));
    }

    /// The mandatory fields that are not set.
    pub fn missing(&self) -> (m: MissingFields)
        ensures
            m == channel_missing(self@),
            m.any() <==> !self@.complete(),
    {
        MissingFields {
            title: self.title.is_none(),
            link: self.link.is_none(),
            description: self.description.is_none(),
            language: self.language.is_none(),
            copyright: self.copyright.is_none(),
            pub_date: self.pub_date.is_none(),
            guid: false,
            geo_rss_point: false,
            items: self.items.len() == 0,
        }
    }

    /// Completes the channel: the channel where every field is set and an
    /// item was added, else the error that names the missing fields. The
    /// accumulator is used up either way.
    pub fn build(self) -> (r: Result<Channel, Error>)
        ensures
            match r {
                Ok(channel) => channel_of(self@) == Ok::<ChannelView, Error>(channel@),
                Err(e) => channel_of(self@) == Err::<ChannelView, Error>(e),
            },
    {
        let missing = self.missing();
        if missing.items {
            return Err(Error::MissingField(Destination::Channel, missing));
        }
        match (
            self.title,
            self.link,
            self.description,
            self.language,
            self.copyright,
            self.pub_date,
        ) {
            (
                Some(title),
                Some(link),
                Some(description),
                Some(language),
                Some(copyright),
                Some(pub_date),
            ) => Ok(
                Channel {
                    title,
                    link,
                    description,
                    language,
                    copyright,
                    pub_date,
                    items: self.items,
                },
            ),
            _ => Err(Error::MissingField(Destination::Channel, missing)),
        }
    }
}

impl Default for ChannelBuilder {
    fn default() -> (r: Self)
        ensures
            r@ == ChannelFields::none(),
    {
        let builder = ChannelBuilder {
            title: None,
            link: None,
            description: None,
            language: None,
            copyright: None,
            pub_date: None,
            items: Vec::new(),
        };
        assert(builder@.items =~= Seq::empty());
        builder
    }
}

/// Collects the fields of one item, in any order.
#[derive(Debug)]
pub struct ItemBuilder {
    title: Option<StringElement>,
    link: Option<UrlElement>,
    description: Option<StringElement>,
    pub_date: Option<DateTimeElement>,
    guid: Option<UrlElement>,
    geo_rss_point: Option<GeoRSSPointElement>,
}

impl View for ItemBuilder {
    type V = ItemFields;

    closed spec fn view(&self) -> ItemFields {
        ItemFields {
            title: view_of(self.title),
            link: view_of(self.link),
            description: view_of(self.description),
            pub_date: view_of(self.pub_date),
            guid: view_of(self.guid),
            geo_rss_point: view_of(self.geo_rss_point),
        }
    }
}

impl ItemBuilder {
    /// Sets the title; a title set before is replaced.
    pub fn set_title(&mut self, title: StringElement)
        ensures
            final(self)@ == (ItemFields { title: Some(title@), ..old(self)@ }),
    {
        self.title = Some(title);
    }

    /// Sets the link; a link set before is replaced.
    pub fn set_link(&mut self, link: UrlElement)
        ensures
            final(self)@ == (ItemFields { link: Some(link@), ..old(self)@ }),
    {
        self.link = Some(link);
    }

    /// Sets the description; a description set before is replaced.
    pub fn set_description(&mut self, description: StringElement)
        ensures
            final(self)@ == (ItemFields { description: Some(description@), ..old(self)@ }),
    {
        self.description = Some(description);
    }

    /// Sets the date of publication; a date set before is replaced.
    pub fn set_pub_date(&mut self, pub_date: DateTimeElement)
        ensures
            final(self)@ == (ItemFields { pub_date: Some(pub_date@), ..old(self)@ }),
    {
        self.pub_date = Some(pub_date);
    }

    /// Sets the identifier; an identifier set before is replaced.
    pub fn set_guid(&mut self, guid: UrlElement)
        ensures
            final(self)@ == (ItemFields { guid: Some(guid@), ..old(self)@ }),
    {
        self.guid = Some(guid);
    }

    /// Sets the geographic point; a point set before is replaced.
    pub fn set_geo_rss_point(&mut self, geo_rss_point: GeoRSSPointElement)
        ensures
            final(self)@ == (ItemFields { geo_rss_point: Some(geo_rss_point@), ..old(self)@ }),
    {
        self.geo_rss_point = Some(geo_rss_point);
    }

    /// The mandatory fields that are not set.
    pub fn missing(&self) -> (m: MissingFields)
        ensures
            m == item_missing(self@),
            m.any() <==> !self@.complete(),
    {
        MissingFields {
            title: self.title.is_none(),
            link: self.link.is_none(),
            description: self.description.is_none(),
            language: false,
            copyright: false,
            pub_date: self.pub_date.is_none(),
            guid: self.guid.is_none(),
            geo_rss_point: self.geo_rss_point.is_none(),
            items: false,
        }
    }

    /// Completes the item: the item where all six fields are set, else the
    /// error that names the missing ones. The accumulator is used up either
    /// way.
    pub fn build(self) -> (r: Result<Item, Error>)
        ensures
            match r {
                Ok(item) => item_of(self@) == Ok::<ItemView, Error>(item@),
                Err(e) => item_of(self@) == Err::<ItemView, Error>(e),
            },
    {
        let missing = self.missing();
        match (
            self.title,
            self.link,
            self.description,
            self.pub_date,
            self.guid,
            self.geo_rss_point,
        ) {
            (
                Some(title),
                Some(link),
                Some(description),
                Some(pub_date),
                Some(guid),
                Some(geo_rss_point),
            ) => Ok(Item { title, link, description, pub_date, guid, geo_rss_point }),
            _ => Err(Error::MissingField(Destination::Item, missing)),
        }
    }
}

impl Default for ItemBuilder {
    fn default() -> (r: Self)
        ensures
            r@ == ItemFields::none(),
    {
        ItemBuilder {
            title: None,
            link: None,
            description: None,
            pub_date: None,
            guid: None,
            geo_rss_point: None,
        }
    }
}

/// What the two accumulators of a walk hold.
pub ghost struct Fields {
    pub channel: ChannelFields,
    pub item: ItemFields,
}

impl Fields {
    /// No field of either structure is set.
    pub open spec fn none() -> Fields {
        Fields { channel: ChannelFields::none(), item: ItemFields::none() }
    }

    /// The fields after the value that `text` converts to was stored for
    /// the element `tag` in the structure `destination`, for a text that has
    /// the form of the element's kind and a structure that has the field.
    pub open spec fn stored(self, destination: Destination, tag: Tag, text: Seq<char>) -> Fields {
        let point = Coordinates { latitude: split(text, ' ')[0], longitude: split(text, ' ')[1] };
        match destination {
            Destination::Channel => Fields {
                channel: match tag {
                    Tag::Title => ChannelFields { title: Some(text), ..self.channel },
                    Tag::Link => ChannelFields { link: parsed_url(text), ..self.channel },
                    Tag::Description => ChannelFields { description: Some(text), ..self.channel },
                    Tag::Language => ChannelFields { language: Some(text), ..self.channel },
                    Tag::Copyright => ChannelFields { copyright: Some(text), ..self.channel },
                    Tag::PubDate => ChannelFields {
                        pub_date: parsed_rfc2822(text),
                        ..self.channel
                    },
                    _ => self.channel,
                },
                ..self
            },
            Destination::Item => Fields {
                item: match tag {
                    Tag::Title => ItemFields { title: Some(text), ..self.item },
                    Tag::Link => ItemFields { link: parsed_url(text), ..self.item },
                    Tag::Description => ItemFields { description: Some(text), ..self.item },
                    Tag::PubDate => ItemFields { pub_date: parsed_rfc2822(text), ..self.item },
                    Tag::Guid => ItemFields { guid: parsed_url(text), ..self.item },
                    Tag::GeoRssPoint => ItemFields { geo_rss_point: Some(point), ..self.item },
                    _ => self.item,
                },
                ..self
            },
        }
    }

    /// What handing the text of the element `tag` to the structure
    /// `destination` gives. The text is converted first: a text that the
    /// element's kind refuses gives the validation error with the kind and
    /// the reason. Then the structure is asked: one that has no such field
    /// gives the structural error. Else the value is stored.
    pub open spec fn set(self, destination: Destination, tag: Tag, text: Seq<char>) -> Result<
        Fields,
        Error,
    > {
        match kind_of(tag) {
            None => Err(Error::InvalidDestination),
            Some(kind) => match kind.refusal(text) {
                Some(reason) => Err(Error::Element(kind, reason)),
                None => if destination.accepts(tag) {
                    Ok(self.stored(destination, tag, text))
                } else {
                    Err(Error::InvalidDestination)
                },
            },
        }
    }

    /// What closing the open item gives: the fields with the item added
    /// behind the channel's items and no field of an item set, or the error
    /// that names the item's missing fields.
    pub open spec fn close_item(self) -> Result<Fields, Error> {
        match item_of(self.item) {
            Ok(item) => Ok(
                Fields { channel: self.channel.with_item(item), item: ItemFields::none() },
            ),
            Err(e) => Err(e),
        }
    }
}

/// What a call on the accumulators was to give and what it did: on success
/// the new fields are the ones given, on failure the error is the one given
/// and the fields are unchanged.
pub open spec fn agrees(
    expected: Result<Fields, Error>,
    before: Fields,
    after: Fields,
    r: Result<(), Error>,
) -> bool {
    match r {
        Ok(_) => expected == Ok::<Fields, Error>(after),
        Err(e) => expected == Err::<Fields, Error>(e) && after == before,
    }
}

/// The two accumulators of a walk, and the one way to hand them the text of
/// an element: by the structure that is open.
#[derive(Debug)]
pub struct Proxy {
    channel_builder: ChannelBuilder,
    item_builder: ItemBuilder,
}

impl View for Proxy {
    type V = Fields;

    closed spec fn view(&self) -> Fields {
        Fields { channel: self.channel_builder@, item: self.item_builder@ }
    }
}

impl Proxy {
    /// Two fresh accumulators.
    pub fn new() -> (proxy: Proxy)
        ensures
            proxy@ == Fields::none(),
    {
        Proxy { channel_builder: ChannelBuilder::default(), item_builder: ItemBuilder::default() }
    }

    /// Hands a title to the channel or to the open item.
    pub fn set_title(&mut self, destination: &Destination, title: &str) -> (r: Result<(), Error>)
        ensures
            agrees(old(self)@.set(*destination, Tag::Title, title@), old(self)@, final(self)@, r),
    {
        match StringElement::new(title) {
            Err(reason) => Err(Error::Element(ElementKind::String, reason)),
            Ok(value) => {
                match destination {
                    Destination::Channel => self.channel_builder.set_title(value),
                    Destination::Item => self.item_builder.set_title(value),
                }
                Ok(())
            },
        }
    }

    /// Hands a link to the channel or to the open item.
    pub fn set_link(&mut self, destination: &Destination, link: &str) -> (r: Result<(), Error>)
        ensures
            agrees(old(self)@.set(*destination, Tag::Link, link@), old(self)@, final(self)@, r),
    {
        match UrlElement::new(link) {
            Err(reason) => Err(Error::Element(ElementKind::Url, reason)),
            Ok(value) => {
                match destination {
                    Destination::Channel => self.channel_builder.set_link(value),
                    Destination::Item => self.item_builder.set_link(value),
                }
                Ok(())
            },
        }
    }

    /// Hands a description to the channel or to the open item.
    pub fn set_description(&mut self, destination: &Destination, description: &str) -> (r: Result<
        (),
        Error,
    >)
        ensures
            agrees(
                old(self)@.set(*destination, Tag::Description, description@),
                old(self)@,
                final(self)@,
                r,
            ),
    {
        match StringElement::new(description) {
            Err(reason) => Err(Error::Element(ElementKind::String, reason)),
            Ok(value) => {
                match destination {
                    Destination::Channel => self.channel_builder.set_description(value),
                    Destination::Item => self.item_builder.set_description(value),
                }
                Ok(())
            },
        }
    }

    /// Hands a language to the channel; an item has none.
    pub fn set_language(&mut self, destination: &Destination, language: &str) -> (r: Result<
        (),
        Error,
    >)
        ensures
            agrees(
                old(self)@.set(*destination, Tag::Language, language@),
                old(self)@,
                final(self)@,
                r,
            ),
    {
        match StringElement::new(language) {
            Err(reason) => Err(Error::Element(ElementKind::String, reason)),
            Ok(value) => match destination {
                Destination::Channel => {
                    self.channel_builder.set_language(value);
                    Ok(())
                },
                Destination::Item => Err(Error::InvalidDestination),
            },
        }
    }

    /// Hands a copyright to the channel; an item has none.
    pub fn set_copyright(&mut self, destination: &Destination, copyright: &str) -> (r: Result<
        (),
        Error,
    >)
        ensures
            agrees(
                old(self)@.set(*destination, Tag::Copyright, copyright@),
                old(self)@,
                final(self)@,
                r,
            ),
    {
        match StringElement::new(copyright) {
            Err(reason) => Err(Error::Element(ElementKind::String, reason)),
            Ok(value) => match destination {
                Destination::Channel => {
                    self.channel_builder.set_copyright(value);
                    Ok(())
                },
                Destination::Item => Err(Error::InvalidDestination),
            },
        }
    }

    /// Hands a date of publication to the channel or to the open item.
    pub fn set_pub_date(&mut self, destination: &Destination, pub_date: &str) -> (r: Result<
        (),
        Error,
    >)
        ensures
            agrees(
                old(self)@.set(*destination, Tag::PubDate, pub_date@),
                old(self)@,
                final(self)@,
                r,
            ),
    {
        match DateTimeElement::new(pub_date) {
            Err(reason) => Err(Error::Element(ElementKind::DateTime, reason)),
            Ok(value) => {
                match destination {
                    Destination::Channel => self.channel_builder.set_pub_date(value),
                    Destination::Item => self.item_builder.set_pub_date(value),
                }
                Ok(())
            },
        }
    }

    /// Hands an identifier to the open item; the channel has none.
    pub fn set_guid(&mut self, destination: &Destination, guid: &str) -> (r: Result<(), Error>)
        ensures
            agrees(old(self)@.set(*destination, Tag::Guid, guid@), old(self)@, final(self)@, r),
    {
        match UrlElement::new(guid) {
            Err(reason) => Err(Error::Element(ElementKind::Url, reason)),
            Ok(value) => match destination {
                Destination::Channel => Err(Error::InvalidDestination),
                Destination::Item => {
                    self.item_builder.set_guid(value);
                    Ok(())
                },
            },
        }
    }

    /// Hands a geographic point to the open item; the channel has none.
    pub fn set_geo_rss_point(&mut self, destination: &Destination, point: &str) -> (r: Result<
        (),
        Error,
    >)
        ensures
            agrees(
                old(self)@.set(*destination, Tag::GeoRssPoint, point@),
                old(self)@,
                final(self)@,
                r,
            ),
    {
        match GeoRSSPointElement::new(point) {
            Err(reason) => Err(Error::Element(ElementKind::GeoRssPoint, reason)),
            Ok(value) => match destination {
                Destination::Channel => Err(Error::InvalidDestination),
                Destination::Item => {
                    self.item_builder.set_geo_rss_point(value);
                    Ok(())
                },
            },
        }
    }

    /// Hands the text of the element `tag` to the structure `destination`.
    pub fn set(&mut self, destination: &Destination, tag: Tag, text: &str) -> (r: Result<
        (),
        Error,
    >)
        ensures
            agrees(old(self)@.set(*destination, tag, text@), old(self)@, final(self)@, r),
    {
        match tag {
            Tag::Title => self.set_title(destination, text),
            Tag::Link => self.set_link(destination, text),
            Tag::Description => self.set_description(destination, text),
            Tag::Language => self.set_language(destination, text),
            Tag::Copyright => self.set_copyright(destination, text),
            Tag::PubDate => self.set_pub_date(destination, text),
            Tag::Guid => self.set_guid(destination, text),
            Tag::GeoRssPoint => self.set_geo_rss_point(destination, text),
            Tag::Rss | Tag::Item | Tag::Other => Err(Error::InvalidDestination),
        }
    }

    /// Completes the open item, adds it behind the channel's items and
    /// starts a fresh item. Where a field of the item is missing, nothing
    /// changes.
    pub fn set_item(&mut self) -> (r: Result<(), Error>)
        ensures
            agrees(old(self)@.close_item(), old(self)@, final(self)@, r),
    {
        let missing = self.item_builder.missing();
        if missing.is_any() {
            return Err(Error::MissingField(Destination::Item, missing));
        }
        let mut builder = ItemBuilder::default();
        core::mem::swap(&mut builder, &mut self.item_builder);
        match builder.build() {
            Ok(item) => {
                self.channel_builder.set_items(item);
                Ok(())
            },
            Err(e) => Err(e),
        }
    }

    /// Completes the channel. Fields of an item that was not closed are
    /// dropped.
    pub fn get(self) -> (r: Result<Channel, Error>)
        ensures
            match r {
                Ok(channel) => channel_of(self@.channel) == Ok::<ChannelView, Error>(channel@),
                Err(e) => channel_of(self@.channel) == Err::<ChannelView, Error>(e),
            },
    {
        self.channel_builder.build()
    }
}

/// What a walk holds between two events.
pub ghost struct WalkerView {
    pub state: State,
    pub item_state: ItemState,
    /// The text of the last text event, or the empty text.
    pub text: Seq<char>,
    pub fields: Fields,
}

impl WalkerView {
    /// The walk before the first event.
    pub open spec fn initial() -> WalkerView {
        WalkerView {
            state: State::Initial,
            item_state: ItemState::Initial,
            text: Seq::empty(),
            fields: Fields::none(),
        }
    }

    /// The walk after an end tag.
    ///
    /// The root's end tag completes the walk. The end tag of `item` closes
    /// the open item and leads back to the level of the channel; outside an
    /// item it is a structural error. The end tag of an element that holds a
    /// value hands the buffered text to the structure that is open. Any
    /// other end tag changes nothing.
    pub open spec fn end(self, tag: Tag) -> Result<WalkerView, Error> {
        match tag {
            Tag::Rss => Ok(WalkerView { state: State::Complete, ..self }),
            Tag::Item => if self.state == State::Item {
                match self.fields.close_item() {
                    Ok(fields) => Ok(
                        WalkerView {
                            state: State::Rss,
                            item_state: ItemState::Initial,
                            fields,
                            ..self
                        },
                    ),
                    Err(e) => Err(e),
                }
            } else {
                Err(Error::InvalidDestination)
            },
            Tag::Other => Ok(self),
            _ => match self.fields.set(destination_of(self.state), tag, self.text) {
                Ok(fields) => Ok(WalkerView { fields, ..self }),
                Err(e) => Err(e),
            },
        }
    }

    /// The walk after one event, or the error that ends it.
    ///
    /// A start tag moves the states. A text event replaces the buffered
    /// text. An end tag does what [`WalkerView::end`] says. The end of the
    /// document, which comes before the root was closed, and malformed
    /// markup are failures of the tokenizer. Any other event changes
    /// nothing, and a complete walk takes no event.
    pub open spec fn step(self, event: EventView) -> Result<WalkerView, Error> {
        if self.state == State::Complete {
            Ok(self)
        } else {
            match event {
                EventView::Start(name) => {
                    let next = next_states(self.state, self.item_state, tag_of(name));
                    Ok(WalkerView { state: next.0, item_state: next.1, ..self })
                },
                EventView::Text(text) => Ok(WalkerView { text, ..self }),
                EventView::End(name) => self.end(tag_of(name)),
                EventView::Eof => Err(Error::ParseLibrary),
                EventView::Malformed => Err(Error::ParseLibrary),
                EventView::Other => Ok(self),
            }
        }
    }
}

/// What a walk gives that goes on over `events`: once the root was closed,
/// the channel of the fields collected so far, whatever follows; else the
/// error of the first event that is refused; and the failure of the
/// tokenizer where the events run out before the root was closed.
pub open spec fn spec_walk(walker: WalkerView, events: Seq<EventView>) -> Result<
    ChannelView,
    Error,
>
    decreases events.len(),
{
    if walker.state == State::Complete {
        channel_of(walker.fields.channel)
    } else if events.len() == 0 {
        Err(Error::ParseLibrary)
    } else {
        match walker.step(events[0]) {
            Ok(next) => spec_walk(next, events.drop_first()),
            Err(e) => Err(e),
        }
    }
}

/// What a sequence of events gives from the start of a walk.
pub open spec fn spec_parse_events(events: Seq<EventView>) -> Result<ChannelView, Error> {
    spec_walk(WalkerView::initial(), events)
}

/// What a document gives: what the events give that the reader yields for
/// it.
pub open spec fn spec_parse_document(body: Seq<char>) -> Result<ChannelView, Error> {
    spec_parse_events(document_events(body))
}

/// Whether what a parse returned is what it was to give.
pub open spec fn gives(r: Result<Channel, Error>, expected: Result<ChannelView, Error>) -> bool {
    match r {
        Ok(channel) => expected == Ok::<ChannelView, Error>(channel@),
        Err(e) => expected == Err::<ChannelView, Error>(e),
    }
}

/// The state of a walk over the events of a document.
#[derive(Debug)]
pub struct Walker {
    state: State,
    item_state: ItemState,
    text: String,
    proxy: Proxy,
}

impl View for Walker {
    type V = WalkerView;

    closed spec fn view(&self) -> WalkerView {
        WalkerView {
            state: self.state,
            item_state: self.item_state,
            text: self.text@,
            fields: self.proxy@,
        }
    }
}

impl Walker {
    /// The walk before the first event.
    pub fn new() -> (walker: Walker)
        ensures
            walker@ == WalkerView::initial(),
    {
        Walker {
            state: State::Initial,
            item_state: ItemState::Initial,
            text: String::new(),
            proxy: Proxy::new(),
        }
    }

    /// Where the walk stands in the channel.
    pub fn state(&self) -> (state: State)
        ensures
            state == self@.state,
    {
        self.state
    }

    /// Where the walk stands in the open item.
    pub fn item_state(&self) -> (item_state: ItemState)
        ensures
            item_state == self@.item_state,
    {
        self.item_state
    }

    /// Whether the root was closed.
    pub fn is_complete(&self) -> (b: bool)
        ensures
            b == (self@.state == State::Complete),
    {
        self.state == State::Complete
    }

    /// Takes one event. On an error the walk is unchanged.
    pub fn step(&mut self, event: &Event) -> (r: Result<(), Error>)
        ensures
            match r {
                Ok(_) => old(self)@.step(event@) == Ok::<WalkerView, Error>(final(self)@),
                Err(e) => old(self)@.step(event@) == Err::<WalkerView, Error>(e) && final(self)@
                    == old(self)@,
            },
    {
        if self.is_complete() {
            return Ok(());
        }
        match event {
            Event::Start(name) => {
                let next = transition(self.state, self.item_state, classify(name));
                self.state = next.0;
                self.item_state = next.1;
                Ok(())
            },
            Event::Text(text) => {
                self.text = text.clone();
                Ok(())
            },
            Event::End(name) => {
                let tag = classify(name);
                match tag {
                    Tag::Rss => {
                        self.state = State::Complete;
                        Ok(())
                    },
                    Tag::Item => {
                        if self.state == State::Item {
                            match self.proxy.set_item() {
                                Ok(_) => {
                                    self.state = State::Rss;
                                    self.item_state = ItemState::Initial;
                                    Ok(())
                                },
                                Err(e) => Err(e),
                            }
                        } else {
                            Err(Error::InvalidDestination)
                        }
                    },
                    Tag::Other => Ok(()),
                    _ => {
                        let destination = Destination::of_state(self.state);
                        self.proxy.set(&destination, tag, self.text.as_str())
                    },
                }
            },
            Event::Eof => Err(Error::ParseLibrary),
            Event::Malformed => Err(Error::ParseLibrary),
            Event::Other => Ok(()),
        }
    }

    /// Completes the channel of a walk.
    pub fn finish(self) -> (r: Result<Channel, Error>)
        ensures
            gives(r, channel_of(self@.fields.channel)),
    {
        self.proxy.get()
    }
}

/// Parses a feed from its events, which are taken in order until the root
/// is closed.
pub fn parse_events(events: &Vec<Event>) -> (r: Result<Channel, Error>)
    ensures
        gives(r, spec_parse_events(views(events@))),
{
    let ghost all = views(events@);
    let mut walker = Walker::new();
    let mut done: usize = 0;
    assert(all.skip(0) == all);
    while done < events.len() && !walker.is_complete()
        invariant
            all == views(events@),
            0 <= done <= events.len(),
            spec_walk(walker@, all.skip(done as int)) == spec_parse_events(all),
        decreases events.len() - done,
    {
        proof {
            assert(all.skip(done as int).drop_first() == all.skip(done + 1));
        }
        match walker.step(&events[done]) {
            Ok(_) => {},
            Err(e) => {
                return Err(e);
            },
        }
        done = done + 1;
    }
    if walker.is_complete() {
        walker.finish()
    } else {
        Err(Error::ParseLibrary)
    }
}

/// Parses a feed from the text of its document. The reader yields the
/// events one at a time; the walk ends with the first event that is refused
/// or once the root was closed, and does not read on.
pub fn parse_document(body: &str) -> (r: Result<Channel, Error>)
    ensures
        gives(r, spec_parse_document(body@)),
{
    let mut reader = open_reader(body);
    let mut walker = Walker::new();
    while !walker.is_complete()
        invariant
            ends_once(pending(reader)),
            spec_walk(walker@, decoded_all(pending(reader))) == spec_parse_document(body@),
        decreases pending(reader).len(),
    {
        let ghost before = pending(reader);
        let event = next_event(&mut reader);
        proof {
            assert(decoded_all(before).drop_first() == decoded_all(before.drop_first()));
        }
        match walker.step(&event) {
            Ok(_) => {},
            Err(e) => {
                return Err(e);
            },
        }
    }
    walker.finish()
}

/// A text that the kind of an element refuses ends the walk at the
/// element's end tag with the validation error of that kind, in whatever
/// structure the element stands.
pub proof fn lemma_refused_text_ends_walk(walker: WalkerView, name: Seq<u8>)
    requires
        walker.state != State::Complete,
        kind_of(tag_of(name)) is Some,
        kind_of(tag_of(name))->0.refusal(walker.text) is Some,
    ensures
        walker.step(EventView::End(name)) == Err::<WalkerView, Error>(
            Error::Element(
                kind_of(tag_of(name))->0,
                kind_of(tag_of(name))->0.refusal(walker.text)->0,
            ),
        ),
{
}

/// A text that is not empty, has at most 16 bytes and is not parted by
/// single spaces into exactly two pieces is refused as a geographic point
/// for its form.
pub proof fn lemma_point_needs_two_tokens(text: Seq<char>)
    requires
        text.len() > 0,
        byte_len(text) <= 16,
        split(text, ' ').len() != 2,
    ensures
        ElementKind::GeoRssPoint.refusal(text) == Some(ElementParserError::InvalidInput),
{
}

/// Inside an item, the end tag of a language or of a copyright whose text
/// is valid is a structural error; so is, outside an item, the end tag of
/// an identifier or of a geographic point whose text is valid.
pub proof fn lemma_misplaced_element_ends_walk(walker: WalkerView, name: Seq<u8>)
    requires
        walker.state != State::Complete,
        kind_of(tag_of(name)) is Some,
        kind_of(tag_of(name))->0.refusal(walker.text) is None,
        !destination_of(walker.state).accepts(tag_of(name)),
    ensures
        walker.step(EventView::End(name)) == Err::<WalkerView, Error>(Error::InvalidDestination),
        walker.state == State::Item <==> (tag_of(name) == Tag::Language || tag_of(name)
            == Tag::Copyright),
        walker.state != State::Item <==> (tag_of(name) == Tag::Guid || tag_of(name)
            == Tag::GeoRssPoint),
{
}

/// A step leaves the items that were added as they are and in their order,
/// and adds at most one behind them.
pub proof fn lemma_step_keeps_items(walker: WalkerView, event: EventView)
    requires
        walker.step(event) is Ok,
    ensures
        walker.fields.channel.items.is_prefix_of(walker.step(event)->Ok_0.fields.channel.items),
        walker.step(event)->Ok_0.fields.channel.items.len() <= walker.fields.channel.items.len()
            + 1,
{
}

/// The items of the channel that a walk gives begin with the items that
/// were added before, in their order.
pub proof fn lemma_walk_keeps_items(walker: WalkerView, events: Seq<EventView>)
    requires
        spec_walk(walker, events) is Ok,
    ensures
        walker.fields.channel.items.is_prefix_of(spec_walk(walker, events)->Ok_0.items),
    decreases events.len(),
{
    if walker.state != State::Complete {
        lemma_step_keeps_items(walker, events[0]);
        lemma_walk_keeps_items(walker.step(events[0])->Ok_0, events.drop_first());
    }
}

/// A walk over events among which no copyright is closed gives no channel,
/// whatever else is set: the channel's copyright is mandatory. Where the
/// walk gets as far as completing the channel, the error names the
/// copyright among the missing fields.
pub proof fn lemma_copyright_is_mandatory(walker: WalkerView, events: Seq<EventView>)
    requires
        walker.fields.channel.copyright is None,
        forall|i: int|
            0 <= i < events.len() ==> !(#[trigger] events[i] matches EventView::End(name)
                && tag_of(name) == Tag::Copyright),
    ensures
        spec_walk(walker, events) is Err,
        spec_walk(walker, events) matches Err(
            Error::MissingField(Destination::Channel, missing),
        ) ==> missing.copyright,
    decreases events.len(),
{
    if walker.state != State::Complete && events.len() > 0 {
        match walker.step(events[0]) {
            Ok(next) => {
                lemma_copyright_is_mandatory(next, events.drop_first());
            },
            Err(_) => {},
        }
    }
}

/// A walk over events among which the root is not closed gives no channel:
/// a document that ends early, or whose markup is refused before the root is
/// closed, never gives a channel that is built in part.
pub proof fn lemma_root_must_close(walker: WalkerView, events: Seq<EventView>)
    requires
        walker.state != State::Complete,
        forall|i: int|
            0 <= i < events.len() ==> !(#[trigger] events[i] matches EventView::End(name)
                && tag_of(name) == Tag::Rss),
    ensures
        spec_walk(walker, events) is Err,
    decreases events.len(),
{
    if events.len() > 0 {
        match walker.step(events[0]) {
            Ok(next) => {
                lemma_root_must_close(next, events.drop_first());
            },
            Err(_) => {},
        }
    }
}

/// An element that the schema does not know changes nothing, at its start
/// tag and at its end tag: the states, the buffered text and the fields
/// stay, so what is nested in it counts for the structure that is open.
pub proof fn lemma_unknown_element_changes_nothing(walker: WalkerView, name: Seq<u8>)
    requires
        tag_of(name) == Tag::Other,
    ensures
        walker.step(EventView::Start(name)) == Ok::<WalkerView, Error>(walker),
        walker.step(EventView::End(name)) == Ok::<WalkerView, Error>(walker),
{
}

/// Malformed markup and the end of the document end a walk that is not
/// complete with the failure of the tokenizer.
pub proof fn lemma_malformed_markup_ends_walk(walker: WalkerView, events: Seq<EventView>)
    requires
        walker.state != State::Complete,
        events.len() > 0,
        events[0] is Malformed || events[0] is Eof,
    ensures
        spec_walk(walker, events) == Err::<ChannelView, Error>(Error::ParseLibrary),
{
}

/// Parsing is a function of the document's text: two parses of the same
/// text give the same channel or the same error.
pub proof fn lemma_parse_is_deterministic(
    first: Seq<char>,
    second: Seq<char>,
    r1: Result<Channel, Error>,
    r2: Result<Channel, Error>,
)
    requires
        first == second,
        gives(r1, spec_parse_document(first)),
        gives(r2, spec_parse_document(second)),
    ensures
        r1 is Ok <==> r2 is Ok,
        r1 is Ok ==> r1->Ok_0@ == r2->Ok_0@,
        r1 is Err ==> r1->Err_0 == r2->Err_0,
{
}

} // verus!
