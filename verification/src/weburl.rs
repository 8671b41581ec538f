//! Absolute URLs, parsed by the `url` crate and kept as their serialization.

use vstd::prelude::*;

verus! {

/// The error of `url::Url::parse`, which is carried through unread.
#[verifier::external_type_specification]
#[verifier::external_body]
pub struct ExUrlParseError(url::ParseError);

/// The serialization of the URL that `url::Url::parse` makes of `input`, or
/// `None` where it refuses `input`.
pub uninterp spec fn parsed_url(input: Seq<char>) -> Option<Seq<char>>;

/// Calls `url::Url::parse` and keeps the serialization of the URL it
/// returns. Nothing is claimed of the serialization but that it is the one
/// the parser gives for this input, and that the parser fails exactly where
/// [`parsed_url`] is `None`.
#[verifier::external_body]
fn parse_serialization(input: &str) -> (r: Result<String, url::ParseError>)
    ensures
        match r {
            Ok(serialization) => parsed_url(input@) == Some(serialization@),
            Err(_) => parsed_url(input@) is None,
        },
{
    match url::Url::parse(input) {
        Ok(parsed) => Ok(String::from(parsed)),
        Err(e) => Err(e),
    }
}

/// An absolute URL in its normalized serialization.
#[derive(Debug)]
pub struct Url {
    serialization: String,
}

impl View for Url {
    type V = Seq<char>;

    /// The serialization.
    closed spec fn view(&self) -> Seq<char> {
        self.serialization@
    }
}

impl Url {
    /// Parses an absolute URL. Succeeds exactly where the `url` crate's parser
    /// does; the value is the serialization that it gives.
    pub fn parse(input: &str) -> (r: Result<Url, url::ParseError>)
        ensures
            match r {
                Ok(u) => parsed_url(input@) == Some(u@),
                Err(_) => parsed_url(input@) is None,
            },
    {
        match parse_serialization(input) {
            Ok(serialization) => Ok(Url { serialization }),
            Err(e) => Err(e),
        }
    }

    /// The serialization of the URL.
    pub fn as_str(&self) -> (s: &str)
        ensures
            s@ == self@,
    {
        self.serialization.as_str()
    }
}

impl Clone for Url {
    fn clone(&self) -> (r: Self)
        ensures
            r@ == self@,
    {
        Url { serialization: self.serialization.clone() }
    }
}

} // verus!
