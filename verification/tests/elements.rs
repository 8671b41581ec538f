use text_weather::datetime::DateTime;
use text_weather::rss2::{
    Builder, ChannelBuilder, DateTimeElement, ElementParser, ElementParserError,
    GeoRSSPointElement, ItemBuilder, StringElement, UrlElement,
};

fn repeat(c: char, n: usize) -> String {
    let mut s = String::new();
    for _ in 0..n {
        s.push(c);
    }
    s
}

#[test]
fn string_element_keeps_the_text() {
    let e = StringElement::new("BBC Weather").unwrap();
    assert_eq!(e.as_str(), "BBC Weather");
}

#[test]
fn string_element_refuses_the_empty_text() {
    assert_eq!(StringElement::new("").unwrap_err(), ElementParserError::BufferEmpty);
}

#[test]
fn string_element_limit_is_256_bytes() {
    assert_eq!(StringElement::MAX_LEN, 256);
    let at_limit = repeat('a', 256);
    assert_eq!(StringElement::new(&at_limit).unwrap().as_str(), at_limit);
    let over = repeat('a', 257);
    assert_eq!(StringElement::new(&over).unwrap_err(), ElementParserError::BufferTooLarge);
}

#[test]
fn string_element_counts_bytes_not_characters() {
    // 128 characters of two bytes each are 256 bytes.
    let at_limit = repeat('é', 128);
    assert!(StringElement::new(&at_limit).is_ok());
    let over = repeat('é', 129);
    assert_eq!(StringElement::new(&over).unwrap_err(), ElementParserError::BufferTooLarge);
}

#[test]
fn string_element_clone_is_equal() {
    let e = StringElement::new("en").unwrap();
    assert_eq!(e.clone().as_str(), "en");
}

#[test]
fn url_element_is_normalized() {
    let e = UrlElement::new("HTTPS://Example.com").unwrap();
    assert_eq!(e.as_str(), "https://example.com/");
    assert_eq!(e.clone().as_str(), "https://example.com/");
}

#[test]
fn url_element_refuses_what_is_no_url() {
    assert_eq!(UrlElement::new("not a url").unwrap_err(), ElementParserError::InvalidInput);
    assert_eq!(UrlElement::new("/relative/path").unwrap_err(), ElementParserError::InvalidInput);
}

#[test]
fn url_element_refuses_the_empty_text() {
    assert_eq!(UrlElement::new("").unwrap_err(), ElementParserError::BufferEmpty);
}

#[test]
fn url_element_limit_is_256_bytes() {
    assert_eq!(UrlElement::MAX_LEN, 256);
    let prefix = "https://example.com/";
    let at_limit = format!("{}{}", prefix, repeat('a', 256 - prefix.len()));
    assert_eq!(at_limit.len(), 256);
    assert_eq!(UrlElement::new(&at_limit).unwrap().as_str(), at_limit);
    let over = format!("{}a", at_limit);
    assert_eq!(UrlElement::new(&over).unwrap_err(), ElementParserError::BufferTooLarge);
}

#[test]
fn date_time_element_reads_rfc2822() {
    let e = DateTimeElement::new("Thu, 23 Jul 2020 07:32:38 GMT").unwrap();
    assert_eq!(
        e.date_time(),
        DateTime { seconds: 1595489558, nanoseconds: 0, offset: 0 }
    );
    let e = DateTimeElement::new("Tue, 1 Jul 2003 10:52:37 +0200").unwrap();
    assert_eq!(
        e.date_time(),
        DateTime { seconds: 1057049557, nanoseconds: 0, offset: 7200 }
    );
    assert_eq!(e.clone().date_time(), e.date_time());
}

#[test]
fn date_time_element_refuses_other_formats() {
    assert_eq!(
        DateTimeElement::new("2020-07-23T07:32:38Z").unwrap_err(),
        ElementParserError::InvalidInput
    );
    assert_eq!(
        DateTimeElement::new("Thu, 23 Jul 2020 07:32:38").unwrap_err(),
        ElementParserError::InvalidInput
    );
}

#[test]
fn date_time_element_refuses_the_empty_text() {
    assert_eq!(DateTimeElement::new("").unwrap_err(), ElementParserError::BufferEmpty);
}

#[test]
fn date_time_element_limit_is_128_bytes() {
    assert_eq!(DateTimeElement::MAX_LEN, 128);
    let date = "Tue, 1 Jul 2003 10:52:37 +0200";
    let at_limit = format!("{}{}", repeat(' ', 128 - date.len()), date);
    assert_eq!(at_limit.len(), 128);
    assert_eq!(
        DateTimeElement::new(&at_limit).unwrap().date_time(),
        DateTime { seconds: 1057049557, nanoseconds: 0, offset: 7200 }
    );
    let over = format!(" {}", at_limit);
    assert_eq!(DateTimeElement::new(&over).unwrap_err(), ElementParserError::BufferTooLarge);
}

#[test]
fn geo_point_has_two_distinct_coordinates() {
    let p = GeoRSSPointElement::new("51.5 -0.1").unwrap();
    assert_eq!(p.latitude(), "51.5");
    assert_eq!(p.longitude(), "-0.1");
    assert_eq!(p.latitude().parse::<f32>().unwrap(), 51.5f32);
    assert_eq!(p.longitude().parse::<f32>().unwrap(), -0.1f32);
    let q = p.clone();
    assert_eq!(q.latitude(), "51.5");
    assert_eq!(q.longitude(), "-0.1");
}

#[test]
fn geo_point_refuses_three_tokens() {
    assert_eq!(
        GeoRSSPointElement::new("51.5 -0.1 7").unwrap_err(),
        ElementParserError::InvalidInput
    );
}

#[test]
fn geo_point_refuses_one_token() {
    assert_eq!(GeoRSSPointElement::new("51.5").unwrap_err(), ElementParserError::InvalidInput);
}

#[test]
fn geo_point_refuses_two_spaces() {
    assert_eq!(
        GeoRSSPointElement::new("51.5  -0.1").unwrap_err(),
        ElementParserError::InvalidInput
    );
    assert_eq!(GeoRSSPointElement::new(" 51.5").unwrap_err(), ElementParserError::InvalidInput);
    assert_eq!(GeoRSSPointElement::new("51.5 ").unwrap_err(), ElementParserError::InvalidInput);
}

#[test]
fn geo_point_refuses_what_is_no_number() {
    assert_eq!(
        GeoRSSPointElement::new("north west").unwrap_err(),
        ElementParserError::InvalidInput
    );
    assert_eq!(
        GeoRSSPointElement::new("51.5 0x1").unwrap_err(),
        ElementParserError::InvalidInput
    );
    assert_eq!(
        GeoRSSPointElement::new("51.5\t-0.1").unwrap_err(),
        ElementParserError::InvalidInput
    );
}

#[test]
fn geo_point_refuses_the_empty_text() {
    assert_eq!(GeoRSSPointElement::new("").unwrap_err(), ElementParserError::BufferEmpty);
}

#[test]
fn geo_point_limit_is_16_bytes() {
    assert_eq!(GeoRSSPointElement::MAX_LEN, 16);
    assert_eq!(GeoRSSPointElement::REQUIRED_PARTS, 2);
    let at_limit = "51.5000 -0.10000";
    assert_eq!(at_limit.len(), 16);
    let p = GeoRSSPointElement::new(at_limit).unwrap();
    assert_eq!(p.latitude(), "51.5000");
    assert_eq!(p.longitude(), "-0.10000");
    assert_eq!(
        GeoRSSPointElement::new("51.50000 -0.10000").unwrap_err(),
        ElementParserError::BufferTooLarge
    );
}

#[test]
fn geo_point_takes_every_form_of_literal() {
    for text in [
        "1 2", "+1 -2", "1. .5", "1e5 1E5", "1.5e-3 2.5E+3", "inf -inf", "NaN nan",
        "Infinity 0", "+.5 -5.", "007 1e0",
    ] {
        let p = GeoRSSPointElement::new(text).unwrap();
        assert!(p.latitude().parse::<f32>().is_ok(), "{}", text);
        assert!(p.longitude().parse::<f32>().is_ok(), "{}", text);
    }
    for text in [
        ". 1", "1 .", "e5 1", "1e 1", "1e+ 1", "+ 1", "1 -", "1.2.3 1", "1_0 1", "infi 1",
        "1 nane", "++1 1", "1e5.5 1", "1 1f32",
    ] {
        assert_eq!(
            GeoRSSPointElement::new(text).unwrap_err(),
            ElementParserError::InvalidInput,
            "{}",
            text
        );
    }
}

fn words(alphabet: &[char], len: usize) -> Vec<String> {
    let mut all = vec![String::new()];
    let mut last = vec![String::new()];
    for _ in 0..len {
        let mut next = Vec::new();
        for w in &last {
            for c in alphabet {
                let mut longer = w.clone();
                longer.push(*c);
                next.push(longer);
            }
        }
        all.extend(next.iter().cloned());
        last = next;
    }
    all
}

#[test]
fn geo_point_accepts_exactly_what_converts_to_a_number() {
    let alphabet = ['0', '7', '.', 'e', 'E', '+', '-', 'x'];
    for token in words(&alphabet, 5) {
        if token.is_empty() {
            continue;
        }
        let text = format!("{} 1", token);
        let accepted = GeoRSSPointElement::new(&text).is_ok();
        assert_eq!(accepted, token.parse::<f32>().is_ok(), "{:?}", token);
    }
}

#[test]
fn geo_point_accepts_the_special_words_in_either_case() {
    let alphabet = ['i', 'I', 'n', 'N', 'f', 'a', 'A', '-'];
    for token in words(&alphabet, 4) {
        if token.is_empty() {
            continue;
        }
        let text = format!("1 {}", token);
        let accepted = GeoRSSPointElement::new(&text).is_ok();
        assert_eq!(accepted, token.parse::<f32>().is_ok(), "{:?}", token);
    }
    for token in ["infinity", "INFINITY", "InFiNiTy", "+infinity", "-Infinity", "infinit", "infinityy"] {
        let text = format!("1 {}", token);
        let accepted = GeoRSSPointElement::new(&text).is_ok();
        assert_eq!(accepted, token.parse::<f32>().is_ok(), "{:?}", token);
    }
}

fn sample_item_builder() -> ItemBuilder {
    let mut b = <ItemBuilder as Builder>::new();
    b.set_title(StringElement::new("Today: Sunny").unwrap());
    b.set_link(UrlElement::new("https://example.com/a").unwrap());
    b.set_description(StringElement::new("Warm").unwrap());
    b.set_pub_date(DateTimeElement::new("Thu, 23 Jul 2020 07:32:38 GMT").unwrap());
    b.set_guid(UrlElement::new("https://example.com/guid").unwrap());
    b.set_geo_rss_point(GeoRSSPointElement::new("51.5 -0.1").unwrap());
    b
}

#[test]
fn item_builder_gives_the_item_when_all_is_set() {
    let item = sample_item_builder().get().unwrap();
    assert_eq!(item.title().as_str(), "Today: Sunny");
    assert_eq!(item.link().as_str(), "https://example.com/a");
    assert_eq!(item.description().as_str(), "Warm");
    assert_eq!(item.pub_date().date_time().seconds, 1595489558);
    assert_eq!(item.guid().as_str(), "https://example.com/guid");
    assert_eq!(item.geo_rss_point().latitude(), "51.5");
    assert_eq!(item.geo_rss_point().longitude(), "-0.1");
}

#[test]
fn item_builder_needs_all_six_fields() {
    let mut b = <ItemBuilder as Builder>::new();
    assert!(b.get().is_err());
    b.set_title(StringElement::new("Today: Sunny").unwrap());
    b.set_link(UrlElement::new("https://example.com/a").unwrap());
    b.set_description(StringElement::new("Warm").unwrap());
    assert!(b.get().is_err());
    b.set_pub_date(DateTimeElement::new("Thu, 23 Jul 2020 07:32:38 GMT").unwrap());
    b.set_guid(UrlElement::new("https://example.com/guid").unwrap());
    assert!(b.get().is_err());
    b.set_geo_rss_point(GeoRSSPointElement::new("51.5 -0.1").unwrap());
    assert!(b.get().is_ok());
}

#[test]
fn item_builder_keeps_the_last_value() {
    let mut b = sample_item_builder();
    b.set_title(StringElement::new("Tomorrow: Rain").unwrap());
    assert_eq!(b.get().unwrap().title().as_str(), "Tomorrow: Rain");
}

#[test]
fn channel_builder_keeps_items_in_order() {
    let mut b = <ChannelBuilder as Builder>::new();
    b.set_title(StringElement::new("Feed").unwrap());
    b.set_link(UrlElement::new("https://example.com/").unwrap());
    b.set_description(StringElement::new("Forecast").unwrap());
    b.set_language(StringElement::new("en").unwrap());
    b.set_copyright(StringElement::new("(C) BBC").unwrap());
    b.set_pub_date(DateTimeElement::new("Thu, 23 Jul 2020 07:32:38 GMT").unwrap());
    for title in ["one", "two", "three"] {
        let mut item = sample_item_builder();
        item.set_title(StringElement::new(title).unwrap());
        b.set_item(item.get().unwrap());
    }
    let feed = b.get().unwrap();
    assert_eq!(feed.title().as_str(), "Feed");
    assert_eq!(feed.link().as_str(), "https://example.com/");
    assert_eq!(feed.description().as_str(), "Forecast");
    assert_eq!(feed.language().as_str(), "en");
    assert_eq!(feed.copyright().as_str(), "(C) BBC");
    assert_eq!(feed.pub_date().date_time().offset, 0);
    let titles: Vec<&str> = feed.items().iter().map(|i| i.title().as_str()).collect();
    assert_eq!(titles, vec!["one", "two", "three"]);
}

#[test]
fn channel_builder_needs_every_field_and_an_item() {
    let mut b = <ChannelBuilder as Builder>::new();
    b.set_title(StringElement::new("Feed").unwrap());
    b.set_link(UrlElement::new("https://example.com/").unwrap());
    b.set_description(StringElement::new("Forecast").unwrap());
    b.set_language(StringElement::new("en").unwrap());
    b.set_copyright(StringElement::new("(C) BBC").unwrap());
    b.set_pub_date(DateTimeElement::new("Thu, 23 Jul 2020 07:32:38 GMT").unwrap());
    assert!(b.get().is_err());
}
