//! The one error type of the feed parser.

use vstd::prelude::*;
use vstd::std_specs::convert::FromSpecImpl;
use crate::parser::Destination;
use crate::rss2::{ElementKind, ElementParserError};

verus! {

/// The mandatory fields of a structure that were not set when it was to be
/// completed: `true` marks a missing field.
#[derive(Clone, Copy, Debug, PartialEq, Eq, Structural)]
pub struct MissingFields {
    pub title: bool,
    pub link: bool,
    pub description: bool,
    pub language: bool,
    pub copyright: bool,
    pub pub_date: bool,
    pub guid: bool,
    pub geo_rss_point: bool,
    pub items: bool,
}

impl MissingFields {
    /// At least one field is missing.
    pub open spec fn any(self) -> bool {
        ||| self.title
        ||| self.link
        ||| self.description
        ||| self.language
        ||| self.copyright
        ||| self.pub_date
        ||| self.guid
        ||| self.geo_rss_point
        ||| self.items
    }

    /// Whether at least one field is missing.
    pub fn is_any(&self) -> (b: bool)
        ensures
            b == self.any(),
    {
        self.title || self.link || self.description || self.language || self.copyright
            || self.pub_date || self.guid || self.geo_rss_point || self.items
    }
}

/// Why a feed could not be fetched or parsed.
#[derive(Clone, Copy, Debug, PartialEq, Eq, Structural)]
pub enum Error {
    /// The feed could not be fetched.
    Reqwest,
    /// A text could not be converted: a URL or a date outside an element,
    /// the title or the description of an item that is no forecast, or a
    /// forecast that has not the day asked for.
    Conversion,
    /// An element stood where the schema has no place for it.
    InvalidDestination,
    /// The markup was malformed, or ended before the root element was closed.
    ParseLibrary,
    /// The text of an element was refused as a value of the given kind, for
    /// the given reason.
    Element(ElementKind, ElementParserError),
    /// A structure was to be completed while mandatory fields were not set.
    MissingField(Destination, MissingFields),
    /// The segment that names a location was empty or too long.
    InvalidSegment,
}

impl Error {
    /// The sentence that describes the kind of error.
    pub open spec fn spec_message(self) -> Seq<char> {
        match self {
            Error::Reqwest => "An error occured in reqwest"@,
            Error::Conversion => "A type conversion error occurred"@,
            Error::InvalidDestination => "An element was placed in an invalid destination"@,
            Error::ParseLibrary => "An error occurred in quick_xml"@,
            Error::Element(_, _) => "The text of an element is not valid"@,
            Error::MissingField(_, _) => "A mandatory field was not set"@,
            Error::InvalidSegment => "The segment is empty or too long"@,
        }
    }

    /// The sentence that describes the kind of error.
    pub fn message(&self) -> (s: &'static str)
        ensures
            s@ == self.spec_message(),
    {
        match self {
            Error::Reqwest => "An error occured in reqwest",
            Error::Conversion => "A type conversion error occurred",
            Error::InvalidDestination => "An element was placed in an invalid destination",
            Error::ParseLibrary => "An error occurred in quick_xml",
            Error::Element(_, _) => "The text of an element is not valid",
            Error::MissingField(_, _) => "A mandatory field was not set",
            Error::InvalidSegment => "The segment is empty or too long",
        }
    }
}

impl From<chrono::format::ParseError> for Error {
    fn from(e: chrono::format::ParseError) -> (r: Error) {
        Error::Conversion
    }
}

impl FromSpecImpl<chrono::format::ParseError> for Error {
    open spec fn obeys_from_spec() -> bool {
        true
    }

    open spec fn from_spec(e: chrono::format::ParseError) -> Error {
        Error::Conversion
    }
}

impl From<url::ParseError> for Error {
    fn from(e: url::ParseError) -> (r: Error) {
        Error::Conversion
    }
}

impl FromSpecImpl<url::ParseError> for Error {
    open spec fn obeys_from_spec() -> bool {
        true
    }

    open spec fn from_spec(e: url::ParseError) -> Error {
        Error::Conversion
    }
}

} // verus!
