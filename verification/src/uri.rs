//! Identifiers: absolute URLs in the spelling that the `url` crate gives them.

use vstd::prelude::*;
use crate::error::{Error, Failure};

verus! {

/// The serialization that `url::Url::parse` gives an input; `None` where it
/// rejects the input.
pub uninterp spec fn url_serialization(input: Seq<char>) -> Option<Seq<char>>;

/// The text is an identifier in its final spelling: parsing it gives it back.
pub open spec fn is_url(text: Seq<char>) -> bool {
    url_serialization(text) == Some(text)
}

/// `url::Url::parse`, then the serialization of what it built. The contract
/// names the serialization and claims that it parses to itself, which the
/// crate lists among the invariants of every `Url`.
#[verifier::external_body]
fn parse_outside(input: &str) -> (outcome: Result<String, String>)
    ensures
        match outcome {
            Ok(text) => url_serialization(input@) == Some(text@) && is_url(text@),
            Err(_) => url_serialization(input@) is None,
        },
{
    match url::Url::parse(input) {
        Ok(parsed) => Ok(String::from(parsed)),
        Err(error) => Err(error.to_string()),
    }
}

/// An absolute URL, held as its serialization.
#[derive(Debug)]
pub struct Url {
    text: String,
}

impl View for Url {
    type V = Seq<char>;

    closed spec fn view(&self) -> Seq<char> {
        self.text@
    }
}

impl DeepView for Url {
    type V = Seq<char>;

    open spec fn deep_view(&self) -> Seq<char> {
        self@
    }
}

impl Clone for Url {
    fn clone(&self) -> (copy: Url)
        ensures
            copy@ == self@,
    {
        proof {
            use_type_invariant(self);
        }
        Url { text: self.text.clone() }
    }
}

impl Url {
    #[verifier::type_invariant]
    spec fn well_formed(&self) -> bool {
        is_url(self.text@)
    }

    /// Parses an absolute URL. Fails with `MalformedInput` exactly where the
    /// `url` crate rejects the input.
    pub fn parse(input: &str) -> (outcome: Result<Url, Error>)
        ensures
            match outcome {
                Ok(url) => url_serialization(input@) == Some(url@) && is_url(url@),
                Err(error) => url_serialization(input@) is None && error.failure()
                    == Failure::MalformedInput,
            },
    {
        match parse_outside(input) {
            Ok(text) => Ok(Url { text }),
            Err(reason) => Err(Error::MalformedInput(reason)),
        }
    }

    /// The serialization of the URL.
    pub fn as_str(&self) -> (text: &str)
        ensures
            text@ == self@,
            is_url(self@),
    {
        proof {
            use_type_invariant(self);
        }
        self.text.as_str()
    }

    /// The serialization of the URL, as an owned text.
    pub fn to_text(&self) -> (text: String)
        ensures
            text@ == self@,
            is_url(self@),
    {
        proof {
            use_type_invariant(self);
        }
        self.text.clone()
    }

    /// Whether two URLs have the same serialization.
    pub fn same_as(&self, other: &Url) -> (same: bool)
        ensures
            same == (self@ == other@),
    {
        self.text == other.text
    }
}

} // verus!
