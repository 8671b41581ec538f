use text_weather::datetime::DateTime;
use text_weather::error::{Error, MissingFields};
use text_weather::parser::{
    classify, parse_document, parse_events, transition, Channel, ChannelBuilder, Destination,
    ItemBuilder, ItemState, Proxy, State, Tag, Walker,
};
use text_weather::rss2::{
    DateTimeElement, ElementKind, ElementParser, ElementParserError, GeoRSSPointElement,
    StringElement, UrlElement,
};
use text_weather::xml::Event;

const NONE_MISSING: MissingFields = MissingFields {
    title: false,
    link: false,
    description: false,
    language: false,
    copyright: false,
    pub_date: false,
    guid: false,
    geo_rss_point: false,
    items: false,
};

fn item(day: &str, point: &str) -> String {
    format!(
        "<item>\n\
         <title>{day}: Sunny Intervals, Minimum Temperature: 12°C (54°F) Maximum Temperature: 20°C (68°F)</title>\n\
         <link>https://www.bbc.co.uk/weather/2643743?day={day}</link>\n\
         <description>Maximum Temperature: 20°C (68°F), Minimum Temperature: 12°C (54°F)</description>\n\
         <pubDate>Thu, 23 Jul 2020 07:32:38 GMT</pubDate>\n\
         <guid isPermaLink=\"false\">https://www.bbc.co.uk/weather/2643743-{day}</guid>\n\
         <dc:date>2020-07-23T07:32:38Z</dc:date>\n\
         <georss:point>{point}</georss:point>\n\
         </item>\n"
    )
}

fn document(channel_fields: &str, items: &str) -> String {
    format!(
        "<?xml version=\"1.0\" encoding=\"UTF-8\"?>\n\
         <rss xmlns:atom=\"http://www.w3.org/2005/Atom\" version=\"2.0\">\n\
         <channel>\n{channel_fields}\
         <atom:link href=\"https://example.com/self\" rel=\"self\" />\n\
         <!-- the days follow -->\n\
         {items}</channel>\n</rss>\n"
    )
}

const CHANNEL_FIELDS: &str = "<title>BBC Weather - Forecast for London, GB</title>\n\
    <link>https://www.bbc.co.uk/weather/2643743</link>\n\
    <description>3-day forecast for London</description>\n\
    <language>en</language>\n\
    <copyright>Copyright: (C) British Broadcasting Corporation</copyright>\n\
    <pubDate>Thu, 23 Jul 2020 07:32:38 GMT</pubDate>\n";

fn three_items() -> String {
    format!(
        "{}{}{}",
        item("Today", "51.51 -0.13"),
        item("Tomorrow", "51.52 -0.14"),
        item("Overmorrow", "51.53 -0.15")
    )
}

fn sample() -> Channel {
    parse_document(&document(CHANNEL_FIELDS, &three_items())).unwrap()
}

#[test]
fn document_gives_the_fields_of_the_channel() {
    let channel = sample();
    assert_eq!(channel.get_title(), "BBC Weather - Forecast for London, GB");
    assert_eq!(channel.get_link(), "https://www.bbc.co.uk/weather/2643743");
    assert_eq!(channel.get_description(), "3-day forecast for London");
    assert_eq!(channel.get_language(), "en");
    assert_eq!(channel.get_copyright(), "Copyright: (C) British Broadcasting Corporation");
    assert_eq!(
        channel.get_pub_date(),
        DateTime { seconds: 1595489558, nanoseconds: 0, offset: 0 }
    );
}

#[test]
fn three_items_come_in_document_order() {
    let channel = sample();
    let items = channel.get_items();
    assert_eq!(items.len(), 3);
    let links: Vec<&str> = items.iter().map(|i| i.get_link()).collect();
    assert_eq!(
        links,
        vec![
            "https://www.bbc.co.uk/weather/2643743?day=Today",
            "https://www.bbc.co.uk/weather/2643743?day=Tomorrow",
            "https://www.bbc.co.uk/weather/2643743?day=Overmorrow",
        ]
    );
    let latitudes: Vec<&str> = items.iter().map(|i| i.get_geo_rss_point().latitude()).collect();
    assert_eq!(latitudes, vec!["51.51", "51.52", "51.53"]);
}

#[test]
fn document_gives_the_fields_of_an_item() {
    let channel = sample();
    let first = &channel.get_items()[0];
    assert_eq!(
        first.get_title(),
        "Today: Sunny Intervals, Minimum Temperature: 12°C (54°F) Maximum Temperature: 20°C (68°F)"
    );
    assert_eq!(
        first.get_description(),
        "Maximum Temperature: 20°C (68°F), Minimum Temperature: 12°C (54°F)"
    );
    assert_eq!(first.get_pub_date().seconds, 1595489558);
    assert_eq!(first.get_guid(), "https://www.bbc.co.uk/weather/2643743-Today");
    assert_eq!(first.get_geo_rss_point().latitude().parse::<f32>().unwrap(), 51.51f32);
    assert_eq!(first.get_geo_rss_point().longitude().parse::<f32>().unwrap(), -0.13f32);
    let copy = first.clone();
    assert_eq!(copy.get_title(), first.get_title());
    assert_eq!(copy.get_guid(), first.get_guid());
}

#[test]
fn parsing_twice_gives_equal_results() {
    let body = document(CHANNEL_FIELDS, &three_items());
    let first = parse_document(&body).unwrap();
    let second = parse_document(&body).unwrap();
    assert_eq!(format!("{:?}", first), format!("{:?}", second));
    let copy = first.clone();
    assert_eq!(format!("{:?}", first), format!("{:?}", copy));
    let broken = document(CHANNEL_FIELDS, &item("Today", "1 2 3"));
    assert_eq!(parse_document(&broken).unwrap_err(), parse_document(&broken).unwrap_err());
}

#[test]
fn channel_without_copyright_is_incomplete() {
    let fields = CHANNEL_FIELDS.replace(
        "<copyright>Copyright: (C) British Broadcasting Corporation</copyright>\n",
        "",
    );
    let r = parse_document(&document(&fields, &three_items()));
    assert_eq!(
        r.unwrap_err(),
        Error::MissingField(Destination::Channel, MissingFields { copyright: true, ..NONE_MISSING })
    );
}

#[test]
fn channel_without_items_is_incomplete() {
    let r = parse_document(&document(CHANNEL_FIELDS, ""));
    assert_eq!(
        r.unwrap_err(),
        Error::MissingField(Destination::Channel, MissingFields { items: true, ..NONE_MISSING })
    );
}

#[test]
fn all_missing_fields_are_reported() {
    let r = parse_document("<rss><channel><title>t</title></channel></rss>");
    assert_eq!(
        r.unwrap_err(),
        Error::MissingField(
            Destination::Channel,
            MissingFields {
                link: true,
                description: true,
                language: true,
                copyright: true,
                pub_date: true,
                items: true,
                ..NONE_MISSING
            }
        )
    );
}

#[test]
fn point_of_three_tokens_is_a_validation_error() {
    let items = format!("{}{}", item("Today", "51.51 -0.13"), item("Tomorrow", "51.52 -0.14 3"));
    let r = parse_document(&document(CHANNEL_FIELDS, &items));
    assert_eq!(
        r.unwrap_err(),
        Error::Element(ElementKind::GeoRssPoint, ElementParserError::InvalidInput)
    );
}

#[test]
fn language_inside_an_item_is_a_structural_error() {
    let bad = item("Today", "51.51 -0.13").replace(
        "<dc:date>2020-07-23T07:32:38Z</dc:date>",
        "<language>en</language>",
    );
    let r = parse_document(&document(CHANNEL_FIELDS, &bad));
    assert_eq!(r.unwrap_err(), Error::InvalidDestination);
}

#[test]
fn copyright_inside_an_item_is_a_structural_error() {
    let bad = item("Today", "51.51 -0.13").replace(
        "<dc:date>2020-07-23T07:32:38Z</dc:date>",
        "<copyright>(C)</copyright>",
    );
    let r = parse_document(&document(CHANNEL_FIELDS, &bad));
    assert_eq!(r.unwrap_err(), Error::InvalidDestination);
}

#[test]
fn guid_outside_an_item_is_a_structural_error() {
    let fields = format!("{}<guid>https://example.com/g</guid>\n", CHANNEL_FIELDS);
    let r = parse_document(&document(&fields, &three_items()));
    assert_eq!(r.unwrap_err(), Error::InvalidDestination);
}

#[test]
fn point_outside_an_item_is_a_structural_error() {
    let fields = format!("{}<georss:point>1 2</georss:point>\n", CHANNEL_FIELDS);
    let r = parse_document(&document(&fields, &three_items()));
    assert_eq!(r.unwrap_err(), Error::InvalidDestination);
}

#[test]
fn conversion_comes_before_routing() {
    // The text is no URL, and the channel has no identifier: the text is
    // refused first.
    let fields = format!("{}<guid>no url</guid>\n", CHANNEL_FIELDS);
    let r = parse_document(&document(&fields, &three_items()));
    assert_eq!(
        r.unwrap_err(),
        Error::Element(ElementKind::Url, ElementParserError::InvalidInput)
    );
}

#[test]
fn unclosed_item_is_a_tokenizer_failure() {
    let body = document(CHANNEL_FIELDS, &three_items()).replacen("</item>", "", 1);
    assert_eq!(parse_document(&body).unwrap_err(), Error::ParseLibrary);
}

#[test]
fn truncated_document_is_a_tokenizer_failure() {
    let body = document(CHANNEL_FIELDS, &three_items());
    let cut = body.find("</channel>").unwrap();
    assert_eq!(parse_document(&body[..cut]).unwrap_err(), Error::ParseLibrary);
    assert_eq!(parse_document("<rss><channel><item>").unwrap_err(), Error::ParseLibrary);
    assert_eq!(parse_document("").unwrap_err(), Error::ParseLibrary);
    assert_eq!(parse_document("no markup at all").unwrap_err(), Error::ParseLibrary);
}

#[test]
fn mismatched_end_tag_is_a_tokenizer_failure() {
    let r = parse_document("<rss><channel><title>t</link></channel></rss>");
    assert_eq!(r.unwrap_err(), Error::ParseLibrary);
}

#[test]
fn unknown_entity_is_a_tokenizer_failure() {
    let fields = CHANNEL_FIELDS.replace("<language>en</language>", "<language>&nosuch;</language>");
    let r = parse_document(&document(&fields, &three_items()));
    assert_eq!(r.unwrap_err(), Error::ParseLibrary);
}

#[test]
fn text_is_unescaped() {
    let fields = CHANNEL_FIELDS.replace(
        "<description>3-day forecast for London</description>",
        "<description>Wind &amp; rain &lt;now&gt; &#65;&#x42;</description>",
    );
    let channel = parse_document(&document(&fields, &three_items())).unwrap();
    assert_eq!(channel.get_description(), "Wind & rain <now> AB");
}

#[test]
fn empty_field_is_a_validation_error() {
    let fields = CHANNEL_FIELDS.replace("<language>en</language>", "<language></language>");
    let r = parse_document(&document(&fields, &three_items()));
    assert_eq!(
        r.unwrap_err(),
        Error::Element(ElementKind::String, ElementParserError::BufferEmpty)
    );
}

#[test]
fn oversized_field_is_a_validation_error() {
    let long = "x".repeat(257);
    let fields = CHANNEL_FIELDS.replace("<language>en</language>", &format!("<language>{}</language>", long));
    let r = parse_document(&document(&fields, &three_items()));
    assert_eq!(
        r.unwrap_err(),
        Error::Element(ElementKind::String, ElementParserError::BufferTooLarge)
    );
}

#[test]
fn malformed_date_is_a_validation_error() {
    let fields = CHANNEL_FIELDS.replace("Thu, 23 Jul 2020 07:32:38 GMT", "yesterday");
    let r = parse_document(&document(&fields, &three_items()));
    assert_eq!(
        r.unwrap_err(),
        Error::Element(ElementKind::DateTime, ElementParserError::InvalidInput)
    );
}

#[test]
fn incomplete_item_fails_the_parse() {
    let bad = item("Today", "51.51 -0.13").replace("<georss:point>51.51 -0.13</georss:point>\n", "");
    let r = parse_document(&document(CHANNEL_FIELDS, &bad));
    assert_eq!(
        r.unwrap_err(),
        Error::MissingField(Destination::Item, MissingFields { geo_rss_point: true, ..NONE_MISSING })
    );
}

#[test]
fn what_follows_the_root_is_not_read() {
    let body = format!("{}<unclosed><title>", document(CHANNEL_FIELDS, &three_items()));
    assert_eq!(parse_document(&body).unwrap().get_items().len(), 3);
}

#[test]
fn a_later_value_replaces_an_earlier_one() {
    let fields = format!("{}<image><title>Logo</title><url>https://example.com/l.png</url></image>\n", CHANNEL_FIELDS);
    let channel = parse_document(&document(&fields, &three_items())).unwrap();
    assert_eq!(channel.get_title(), "Logo");
}

fn start(name: &str) -> Event {
    Event::Start(name.as_bytes().to_vec())
}

fn end(name: &str) -> Event {
    Event::End(name.as_bytes().to_vec())
}

fn text(t: &str) -> Event {
    Event::Text(t.to_string())
}

fn field(name: &str, value: &str) -> Vec<Event> {
    vec![start(name), text(value), end(name)]
}

fn channel_events() -> Vec<Event> {
    let mut events = vec![start("rss"), start("channel")];
    events.extend(field("title", "Feed"));
    events.extend(field("link", "https://example.com"));
    events.extend(field("description", "Forecast"));
    events.extend(field("language", "en"));
    events.extend(field("copyright", "(C)"));
    events.extend(field("pubDate", "Tue, 1 Jul 2003 10:52:37 +0200"));
    events
}

fn item_events(title: &str) -> Vec<Event> {
    let mut events = vec![start("item")];
    events.extend(field("title", title));
    events.extend(field("link", "https://example.com/item"));
    events.extend(field("description", "Warm"));
    events.extend(field("pubDate", "Tue, 1 Jul 2003 10:52:37 +0200"));
    events.extend(field("guid", "https://example.com/guid"));
    events.extend(field("georss:point", "51.5 -0.1"));
    events.push(end("item"));
    events
}

fn closing() -> Vec<Event> {
    vec![end("channel"), end("rss")]
}

#[test]
fn events_give_the_channel() {
    let mut events = channel_events();
    events.extend(item_events("one"));
    events.extend(item_events("two"));
    events.extend(closing());
    let channel = parse_events(&events).unwrap();
    assert_eq!(channel.get_title(), "Feed");
    assert_eq!(channel.get_link(), "https://example.com/");
    assert_eq!(channel.get_pub_date(), DateTime { seconds: 1057049557, nanoseconds: 0, offset: 7200 });
    let titles: Vec<&str> = channel.get_items().iter().map(|i| i.get_title()).collect();
    assert_eq!(titles, vec!["one", "two"]);
    assert_eq!(channel.get_items()[1].get_geo_rss_point().longitude(), "-0.1");
}

#[test]
fn events_after_the_root_are_ignored() {
    let mut events = channel_events();
    events.extend(item_events("one"));
    events.extend(closing());
    events.push(Event::Malformed);
    events.extend(field("title", ""));
    assert_eq!(parse_events(&events).unwrap().get_title(), "Feed");
}

#[test]
fn events_that_run_out_are_a_tokenizer_failure() {
    assert_eq!(parse_events(&Vec::new()).unwrap_err(), Error::ParseLibrary);
    let mut events = channel_events();
    events.extend(item_events("one"));
    assert_eq!(parse_events(&events).unwrap_err(), Error::ParseLibrary);
    events.push(Event::Eof);
    events.extend(closing());
    assert_eq!(parse_events(&events).unwrap_err(), Error::ParseLibrary);
}

#[test]
fn malformed_event_is_a_tokenizer_failure() {
    let mut events = channel_events();
    events.push(Event::Malformed);
    events.extend(item_events("one"));
    events.extend(closing());
    assert_eq!(parse_events(&events).unwrap_err(), Error::ParseLibrary);
}

#[test]
fn other_events_change_nothing() {
    let mut events = vec![Event::Other];
    events.extend(channel_events());
    events.push(Event::Other);
    events.extend(item_events("one"));
    events.push(start("dc:date"));
    events.push(end("dc:date"));
    events.extend(closing());
    assert_eq!(parse_events(&events).unwrap().get_items().len(), 1);
}

#[test]
fn end_of_item_outside_an_item_is_a_structural_error() {
    let mut events = channel_events();
    events.push(end("item"));
    events.extend(closing());
    assert_eq!(parse_events(&events).unwrap_err(), Error::InvalidDestination);
}

#[test]
fn the_buffer_keeps_the_last_text() {
    // The end tag of the link takes the text that was read last, here the
    // text of an element that the schema does not know.
    let mut events = channel_events();
    events.extend(vec![start("unknown"), text("https://example.org/other"), end("unknown")]);
    events.extend(vec![start("link"), end("link")]);
    events.extend(item_events("one"));
    events.extend(closing());
    assert_eq!(parse_events(&events).unwrap().get_link(), "https://example.org/other");
}

#[test]
fn names_are_classified() {
    assert_eq!(classify(&b"rss".to_vec()), Tag::Rss);
    assert_eq!(classify(&b"title".to_vec()), Tag::Title);
    assert_eq!(classify(&b"link".to_vec()), Tag::Link);
    assert_eq!(classify(&b"description".to_vec()), Tag::Description);
    assert_eq!(classify(&b"language".to_vec()), Tag::Language);
    assert_eq!(classify(&b"copyright".to_vec()), Tag::Copyright);
    assert_eq!(classify(&b"pubDate".to_vec()), Tag::PubDate);
    assert_eq!(classify(&b"item".to_vec()), Tag::Item);
    assert_eq!(classify(&b"guid".to_vec()), Tag::Guid);
    assert_eq!(classify(&b"georss:point".to_vec()), Tag::GeoRssPoint);
    assert_eq!(classify(&b"channel".to_vec()), Tag::Other);
    assert_eq!(classify(&b"Title".to_vec()), Tag::Other);
    assert_eq!(classify(&b"pubdate".to_vec()), Tag::Other);
    assert_eq!(classify(&b"point".to_vec()), Tag::Other);
    assert_eq!(classify(&b"".to_vec()), Tag::Other);
    assert_eq!(classify(&vec![0xff, 0xfe]), Tag::Other);
}

#[test]
fn start_tags_move_the_states() {
    let i = ItemState::Initial;
    assert_eq!(transition(State::Initial, i, Tag::Rss), (State::Rss, i));
    assert_eq!(transition(State::Rss, i, Tag::Title), (State::Title, i));
    assert_eq!(transition(State::Title, i, Tag::Link), (State::Link, i));
    assert_eq!(transition(State::Link, i, Tag::Description), (State::Description, i));
    assert_eq!(transition(State::Rss, i, Tag::Language), (State::Language, i));
    assert_eq!(transition(State::Rss, i, Tag::Copyright), (State::Copyright, i));
    assert_eq!(transition(State::Rss, i, Tag::PubDate), (State::PubDate, i));
    assert_eq!(transition(State::PubDate, ItemState::Guid, Tag::Item), (State::Item, i));
    assert_eq!(transition(State::Rss, i, Tag::Guid), (State::Rss, i));
    assert_eq!(transition(State::Rss, i, Tag::GeoRssPoint), (State::Rss, i));
    assert_eq!(transition(State::Title, i, Tag::Other), (State::Title, i));
}

#[test]
fn start_tags_inside_an_item_move_the_item_state() {
    let s = State::Item;
    assert_eq!(transition(s, ItemState::Initial, Tag::Title), (s, ItemState::Title));
    assert_eq!(transition(s, ItemState::Title, Tag::Link), (s, ItemState::Link));
    assert_eq!(transition(s, ItemState::Link, Tag::Description), (s, ItemState::Description));
    assert_eq!(transition(s, ItemState::Link, Tag::PubDate), (s, ItemState::PubDate));
    assert_eq!(transition(s, ItemState::Link, Tag::Guid), (s, ItemState::Guid));
    assert_eq!(transition(s, ItemState::Link, Tag::GeoRssPoint), (s, ItemState::GeoRssPoint));
    assert_eq!(transition(s, ItemState::Link, Tag::Item), (s, ItemState::Initial));
    assert_eq!(transition(s, ItemState::Link, Tag::Language), (s, ItemState::Link));
    assert_eq!(transition(s, ItemState::Link, Tag::Copyright), (s, ItemState::Link));
    assert_eq!(transition(s, ItemState::Link, Tag::Rss), (s, ItemState::Link));
    assert_eq!(transition(s, ItemState::Link, Tag::Other), (s, ItemState::Link));
}

#[test]
fn nothing_moves_a_complete_walk() {
    for tag in [Tag::Rss, Tag::Title, Tag::Item, Tag::Guid, Tag::Other] {
        assert_eq!(
            transition(State::Complete, ItemState::Guid, tag),
            (State::Complete, ItemState::Guid)
        );
    }
}

#[test]
fn router_knows_the_schema() {
    assert_eq!(Destination::of_state(State::Item), Destination::Item);
    assert_eq!(Destination::of_state(State::Rss), Destination::Channel);
    assert_eq!(Destination::of_state(State::Title), Destination::Channel);
    for tag in [Tag::Title, Tag::Link, Tag::Description, Tag::PubDate] {
        assert_eq!(Destination::route(State::Rss, tag), Ok(Destination::Channel));
        assert_eq!(Destination::route(State::Item, tag), Ok(Destination::Item));
    }
    for tag in [Tag::Language, Tag::Copyright] {
        assert_eq!(Destination::route(State::PubDate, tag), Ok(Destination::Channel));
        assert_eq!(Destination::route(State::Item, tag), Err(Error::InvalidDestination));
    }
    for tag in [Tag::Guid, Tag::GeoRssPoint] {
        assert_eq!(Destination::route(State::Item, tag), Ok(Destination::Item));
        assert_eq!(Destination::route(State::Rss, tag), Err(Error::InvalidDestination));
    }
    for tag in [Tag::Rss, Tag::Item, Tag::Other] {
        assert_eq!(Destination::route(State::Item, tag), Err(Error::InvalidDestination));
        assert_eq!(Destination::route(State::Rss, tag), Err(Error::InvalidDestination));
    }
}

#[test]
fn walker_steps_through_an_item() {
    let mut walker = Walker::new();
    assert_eq!(walker.state(), State::Initial);
    assert_eq!(walker.item_state(), ItemState::Initial);
    walker.step(&start("rss")).unwrap();
    assert_eq!(walker.state(), State::Rss);
    walker.step(&start("item")).unwrap();
    assert_eq!(walker.state(), State::Item);
    walker.step(&start("guid")).unwrap();
    assert_eq!(walker.item_state(), ItemState::Guid);
    walker.step(&text("no url")).unwrap();
    assert_eq!(
        walker.step(&end("guid")).unwrap_err(),
        Error::Element(ElementKind::Url, ElementParserError::InvalidInput)
    );
    assert_eq!(walker.state(), State::Item);
    assert!(!walker.is_complete());
    assert_eq!(
        walker.step(&end("item")).unwrap_err(),
        Error::MissingField(
            Destination::Item,
            MissingFields {
                title: true,
                link: true,
                description: true,
                pub_date: true,
                guid: true,
                geo_rss_point: true,
                ..NONE_MISSING
            }
        )
    );
    walker.step(&end("rss")).unwrap();
    assert!(walker.is_complete());
    walker.step(&Event::Eof).unwrap();
    assert!(walker.is_complete());
    assert!(walker.finish().is_err());
}

#[test]
fn walker_returns_to_the_channel_after_an_item() {
    let mut walker = Walker::new();
    for e in channel_events() {
        walker.step(&e).unwrap();
    }
    for e in item_events("one") {
        walker.step(&e).unwrap();
    }
    assert_eq!(walker.state(), State::Rss);
    assert_eq!(walker.item_state(), ItemState::Initial);
    walker.step(&start("language")).unwrap();
    walker.step(&text("fr")).unwrap();
    walker.step(&end("language")).unwrap();
    walker.step(&end("rss")).unwrap();
    let channel = walker.finish().unwrap();
    assert_eq!(channel.get_language(), "fr");
    assert_eq!(channel.get_items().len(), 1);
}

#[test]
fn proxy_routes_by_destination() {
    let mut proxy = Proxy::new();
    proxy.set_title(&Destination::Channel, "Feed").unwrap();
    proxy.set_title(&Destination::Item, "Today").unwrap();
    proxy.set_link(&Destination::Channel, "https://example.com/feed").unwrap();
    proxy.set_link(&Destination::Item, "https://example.com/item").unwrap();
    proxy.set_description(&Destination::Channel, "Forecast").unwrap();
    proxy.set_description(&Destination::Item, "Warm").unwrap();
    proxy.set_language(&Destination::Channel, "en").unwrap();
    proxy.set_copyright(&Destination::Channel, "(C)").unwrap();
    proxy.set_pub_date(&Destination::Channel, "Tue, 1 Jul 2003 10:52:37 +0200").unwrap();
    proxy.set_pub_date(&Destination::Item, "Thu, 23 Jul 2020 07:32:38 GMT").unwrap();
    proxy.set_guid(&Destination::Item, "https://example.com/guid").unwrap();
    proxy.set_geo_rss_point(&Destination::Item, "51.5 -0.1").unwrap();
    proxy.set_item().unwrap();
    let channel = proxy.get().unwrap();
    assert_eq!(channel.get_title(), "Feed");
    assert_eq!(channel.get_link(), "https://example.com/feed");
    assert_eq!(channel.get_pub_date().seconds, 1057049557);
    let item = &channel.get_items()[0];
    assert_eq!(item.get_title(), "Today");
    assert_eq!(item.get_link(), "https://example.com/item");
    assert_eq!(item.get_description(), "Warm");
    assert_eq!(item.get_pub_date().seconds, 1595489558);
}

#[test]
fn proxy_refuses_fields_of_the_other_structure() {
    let mut proxy = Proxy::new();
    assert_eq!(proxy.set_language(&Destination::Item, "en").unwrap_err(), Error::InvalidDestination);
    assert_eq!(proxy.set_copyright(&Destination::Item, "(C)").unwrap_err(), Error::InvalidDestination);
    assert_eq!(
        proxy.set_guid(&Destination::Channel, "https://example.com/").unwrap_err(),
        Error::InvalidDestination
    );
    assert_eq!(
        proxy.set_geo_rss_point(&Destination::Channel, "1 2").unwrap_err(),
        Error::InvalidDestination
    );
    assert_eq!(
        proxy.set(&Destination::Channel, Tag::Item, "x").unwrap_err(),
        Error::InvalidDestination
    );
    assert_eq!(
        proxy.set(&Destination::Item, Tag::Other, "x").unwrap_err(),
        Error::InvalidDestination
    );
}

#[test]
fn proxy_names_the_kind_that_refused() {
    let mut proxy = Proxy::new();
    assert_eq!(
        proxy.set_title(&Destination::Channel, "").unwrap_err(),
        Error::Element(ElementKind::String, ElementParserError::BufferEmpty)
    );
    assert_eq!(
        proxy.set_link(&Destination::Item, "::").unwrap_err(),
        Error::Element(ElementKind::Url, ElementParserError::InvalidInput)
    );
    assert_eq!(
        proxy.set_pub_date(&Destination::Item, &"1".repeat(129)).unwrap_err(),
        Error::Element(ElementKind::DateTime, ElementParserError::BufferTooLarge)
    );
    assert_eq!(
        proxy.set_geo_rss_point(&Destination::Item, "1 2 3").unwrap_err(),
        Error::Element(ElementKind::GeoRssPoint, ElementParserError::InvalidInput)
    );
    assert_eq!(
        proxy.set(&Destination::Item, Tag::Description, "").unwrap_err(),
        Error::Element(ElementKind::String, ElementParserError::BufferEmpty)
    );
}

#[test]
fn builders_report_what_is_missing() {
    let mut item = ItemBuilder::default();
    item.set_title(StringElement::new("t").unwrap());
    item.set_guid(UrlElement::new("https://example.com/").unwrap());
    assert_eq!(
        item.missing(),
        MissingFields {
            link: true,
            description: true,
            pub_date: true,
            geo_rss_point: true,
            ..NONE_MISSING
        }
    );
    assert!(item.missing().is_any());
    item.set_link(UrlElement::new("https://example.com/").unwrap());
    item.set_description(StringElement::new("d").unwrap());
    item.set_pub_date(DateTimeElement::new("Tue, 1 Jul 2003 10:52:37 +0200").unwrap());
    item.set_geo_rss_point(GeoRSSPointElement::new("1 2").unwrap());
    assert!(!item.missing().is_any());
    let built = item.build().unwrap();
    let mut channel = ChannelBuilder::default();
    channel.set_items(built);
    channel.set_language(StringElement::new("en").unwrap());
    assert_eq!(
        channel.build().unwrap_err(),
        Error::MissingField(
            Destination::Channel,
            MissingFields {
                title: true,
                link: true,
                description: true,
                copyright: true,
                pub_date: true,
                ..NONE_MISSING
            }
        )
    );
}

#[test]
fn channel_builder_takes_the_last_value() {
    let mut channel = ChannelBuilder::default();
    channel.set_title(StringElement::new("first").unwrap());
    channel.set_title(StringElement::new("second").unwrap());
    channel.set_link(UrlElement::new("https://example.com/").unwrap());
    channel.set_description(StringElement::new("d").unwrap());
    channel.set_language(StringElement::new("en").unwrap());
    channel.set_copyright(StringElement::new("c").unwrap());
    channel.set_pub_date(DateTimeElement::new("Tue, 1 Jul 2003 10:52:37 +0200").unwrap());
    let mut item = ItemBuilder::default();
    item.set_title(StringElement::new("t").unwrap());
    item.set_link(UrlElement::new("https://example.com/").unwrap());
    item.set_description(StringElement::new("d").unwrap());
    item.set_pub_date(DateTimeElement::new("Tue, 1 Jul 2003 10:52:37 +0200").unwrap());
    item.set_guid(UrlElement::new("https://example.com/").unwrap());
    item.set_geo_rss_point(GeoRSSPointElement::new("1 2").unwrap());
    channel.set_items(item.build().unwrap());
    let built = channel.build().unwrap();
    assert_eq!(built.get_title(), "second");
    assert_eq!(built.get_items().len(), 1);
}

#[test]
fn character_data_sections_are_not_read() {
    let fields = CHANNEL_FIELDS.replace("<language>en</language>", "<language><![CDATA[en]]></language>");
    let r = parse_document(&document(&fields, &three_items()));
    assert_eq!(
        r.unwrap_err(),
        Error::Element(ElementKind::String, ElementParserError::BufferEmpty)
    );
}

#[test]
fn empty_elements_set_nothing() {
    let fields = CHANNEL_FIELDS.replace("<language>en</language>", "<language/>");
    let r = parse_document(&document(&fields, &three_items()));
    assert_eq!(
        r.unwrap_err(),
        Error::MissingField(Destination::Channel, MissingFields { language: true, ..NONE_MISSING })
    );
}

#[test]
fn text_keeps_its_white_space() {
    let fields = CHANNEL_FIELDS.replace("<language>en</language>", "<language> en\n</language>");
    let channel = parse_document(&document(&fields, &three_items())).unwrap();
    assert_eq!(channel.get_language(), " en\n");
}

#[test]
fn attributes_are_no_part_of_a_name() {
    let fields = CHANNEL_FIELDS.replace("<language>en</language>", "<language xml:lang=\"en\" >en-gb</language >");
    let channel = parse_document(&document(&fields, &three_items())).unwrap();
    assert_eq!(channel.get_language(), "en-gb");
}

#[test]
fn item_fields_do_not_leak_into_the_next_item() {
    let second = item("Tomorrow", "51.52 -0.14").replace("<georss:point>51.52 -0.14</georss:point>\n", "");
    let items = format!("{}{}", item("Today", "51.51 -0.13"), second);
    let r = parse_document(&document(CHANNEL_FIELDS, &items));
    assert_eq!(
        r.unwrap_err(),
        Error::MissingField(Destination::Item, MissingFields { geo_rss_point: true, ..NONE_MISSING })
    );
}
