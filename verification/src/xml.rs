//! The events of an XML document, as the `quick-xml` crate's pull reader
//! yields them, one at a time.
//!
//! The reader is an outside value. What it has yet to yield is named by
//! [`pending`]; this module states how reading changes that and reads no
//! markup itself.

use vstd::prelude::*;

verus! {

/// An event as the reader yields it: names and text are the bytes of the
/// document, text still escaped.
#[derive(Debug)]
pub enum RawEvent {
    /// A start tag with the element's qualified name.
    Start(Vec<u8>),
    /// An end tag with the element's qualified name.
    End(Vec<u8>),
    /// Character data between two tags.
    Text(Vec<u8>),
    /// The end of the document.
    Eof,
    /// Any other event: an empty element, a comment, a CDATA section, a
    /// declaration, a processing instruction or a document type.
    Other,
}

/// What a raw event holds.
pub ghost enum RawEventView {
    Start(Seq<u8>),
    End(Seq<u8>),
    Text(Seq<u8>),
    Eof,
    Other,
}

impl View for RawEvent {
    type V = RawEventView;

    open spec fn view(&self) -> RawEventView {
        match self {
            RawEvent::Start(name) => RawEventView::Start(name@),
            RawEvent::End(name) => RawEventView::End(name@),
            RawEvent::Text(text) => RawEventView::Text(text@),
            RawEvent::Eof => RawEventView::Eof,
            RawEvent::Other => RawEventView::Other,
        }
    }
}

/// An event as the walker takes it: text is unescaped and decoded.
#[derive(Debug)]
pub enum Event {
    /// A start tag with the element's qualified name.
    Start(Vec<u8>),
    /// An end tag with the element's qualified name.
    End(Vec<u8>),
    /// Character data between two tags.
    Text(String),
    /// The end of the document.
    Eof,
    /// Any other well-formed event.
    Other,
    /// Markup that the reader refused, or text that could not be unescaped
    /// and decoded.
    Malformed,
}

/// What an event holds.
pub ghost enum EventView {
    Start(Seq<u8>),
    End(Seq<u8>),
    Text(Seq<char>),
    Eof,
    Other,
    Malformed,
}

impl View for Event {
    type V = EventView;

    open spec fn view(&self) -> EventView {
        match self {
            Event::Start(name) => EventView::Start(name@),
            Event::End(name) => EventView::End(name@),
            Event::Text(text) => EventView::Text(text@),
            Event::Eof => EventView::Eof,
            Event::Other => EventView::Other,
            Event::Malformed => EventView::Malformed,
        }
    }
}

/// A `quick_xml::Reader` over the bytes of a string, with the settings that
/// `Reader::from_str` gives it. The reader's own type is bound by a trait of
/// the standard library's input, which the verifier does not take; so the
/// reader is held here and stays opaque.
#[verifier::external_body]
pub struct EventReader<'a> {
    reader: quick_xml::Reader<&'a [u8]>,
}

/// What successive calls of `Reader::read_event` on this reader return, up
/// to and with the first end of document or failure: `Some` of the event
/// for `Ok`, `None` for `Err`.
pub uninterp spec fn pending(reader: EventReader) -> Seq<Option<RawEventView>>;

/// What successive calls of `Reader::read_event` return on a reader that
/// `Reader::from_str` made for `body`, up to and with the first end of
/// document or failure.
pub uninterp spec fn raw_events(body: Seq<char>) -> Seq<Option<RawEventView>>;

/// The text that `BytesText::unescape_and_decode` makes of escaped bytes, or
/// `None` where it fails.
pub uninterp spec fn unescaped(raw: Seq<u8>) -> Option<Seq<char>>;

/// A result of reading after which the reader yields nothing more: the end
/// of the document, or a failure.
pub open spec fn is_last(outcome: Option<RawEventView>) -> bool {
    outcome is None || outcome == Some(RawEventView::Eof)
}

/// The sequence ends with the end of the document or a failure, and holds
/// neither before its end.
pub open spec fn ends_once(outcomes: Seq<Option<RawEventView>>) -> bool {
    &&& outcomes.len() > 0
    &&& is_last(outcomes.last())
    &&& forall|i: int| 0 <= i < outcomes.len() - 1 ==> !is_last(#[trigger] outcomes[i])
}

/// Calls `Reader::from_str`. The claim is that reading from the new reader
/// reaches the end of the document or a failure after finitely many events:
/// every other event takes at least one byte of the input.
#[verifier::external_body]
pub(crate) fn open_reader<'a>(body: &'a str) -> (reader: EventReader<'a>)
    ensures
        pending(reader) == raw_events(body@),
        ends_once(pending(reader)),
{
    EventReader { reader: quick_xml::Reader::from_str(body) }
}

/// Calls `Reader::read_event` with a fresh buffer and copies the name or the
/// escaped text out of the event. The result is the first of what was
/// pending, and the rest is pending afterwards.
#[verifier::external_body]
pub(crate) fn read_event(reader: &mut EventReader) -> (r: Option<RawEvent>)
    requires
        pending(*old(reader)).len() > 0,
    ensures
        pending(*final(reader)) == pending(*old(reader)).drop_first(),
        match r {
            Some(event) => pending(*old(reader))[0] == Some(event@),
            None => pending(*old(reader))[0] is None,
        },
{
    let mut buffer = Vec::new();
    match reader.reader.read_event(&mut buffer) {
        Ok(quick_xml::events::Event::Start(e)) => Some(RawEvent::Start(e.name().to_vec())),
        Ok(quick_xml::events::Event::End(e)) => Some(RawEvent::End(e.name().to_vec())),
        Ok(quick_xml::events::Event::Text(e)) => Some(RawEvent::Text(e.escaped().to_vec())),
        Ok(quick_xml::events::Event::Eof) => Some(RawEvent::Eof),
        Ok(_) => Some(RawEvent::Other),
        Err(_) => None,
    }
}

/// Calls `BytesText::unescape_and_decode` on the escaped bytes of a text
/// event. The reader only lends its decoder, which is that of UTF-8: the
/// result depends on the bytes alone.
#[verifier::external_body]
pub(crate) fn unescape_and_decode(reader: &EventReader, raw: &Vec<u8>) -> (r: Option<String>)
    ensures
        match r {
            Some(text) => unescaped(raw@) == Some(text@),
            None => unescaped(raw@) is None,
        },
{
    quick_xml::events::BytesText::from_escaped(raw.as_slice()).unescape_and_decode(
        &reader.reader,
    ).ok()
}

/// The event that the walker takes for a result of reading.
pub open spec fn decoded(outcome: Option<RawEventView>) -> EventView {
    match outcome {
        None => EventView::Malformed,
        Some(RawEventView::Start(name)) => EventView::Start(name),
        Some(RawEventView::End(name)) => EventView::End(name),
        Some(RawEventView::Text(raw)) => match unescaped(raw) {
            Some(text) => EventView::Text(text),
            None => EventView::Malformed,
        },
        Some(RawEventView::Eof) => EventView::Eof,
        Some(RawEventView::Other) => EventView::Other,
    }
}

/// The events that the walker takes for a sequence of results of reading.
pub open spec fn decoded_all(outcomes: Seq<Option<RawEventView>>) -> Seq<EventView> {
    Seq::new(outcomes.len(), |i: int| decoded(outcomes[i]))
}

/// The events of a document, as the walker takes them.
pub open spec fn document_events(body: Seq<char>) -> Seq<EventView> {
    decoded_all(raw_events(body))
}

/// Reads the next event and unescapes and decodes its text. Needs a reader
/// that has something pending, which one is until it has yielded the end of
/// the document or a failure.
pub(crate) fn next_event(reader: &mut EventReader) -> (event: Event)
    requires
        pending(*old(reader)).len() > 0,
    ensures
        pending(*final(reader)) == pending(*old(reader)).drop_first(),
        event@ == decoded(pending(*old(reader))[0]),
        is_last(pending(*old(reader))[0]) ==> event@ is Eof || event@ is Malformed,
{
    match read_event(reader) {
        Some(RawEvent::Start(name)) => Event::Start(name),
        Some(RawEvent::End(name)) => Event::End(name),
        Some(RawEvent::Text(raw)) => match unescape_and_decode(reader, &raw) {
            Some(text) => Event::Text(text),
            None => Event::Malformed,
        },
        Some(RawEvent::Eof) => Event::Eof,
        Some(RawEvent::Other) => Event::Other,
        None => Event::Malformed,
    }
}

} // verus!
