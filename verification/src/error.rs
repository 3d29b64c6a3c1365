//! The failures that the operations on credentials and presentations report.

use vstd::prelude::*;

verus! {

/// What went wrong, without the accompanying text.
#[derive(Clone, Copy, Debug, PartialEq, Eq, Structural)]
pub enum Failure {
    /// The input is not a document: it does not parse, a field has the wrong
    /// shape, or an object holds a key that the document does not have.
    MalformedInput,
    /// No schema was supplied and the credential does not name the meta-schema.
    MissingSchema,
    /// The schema credential is unsigned or its signature does not verify.
    UntrustedSchema,
    /// The subject breaks the schema.
    SchemaValidation,
    /// The document has no proof.
    Unsigned,
    /// The proof does not match the document and the key.
    InvalidSignature,
    /// The key material is rejected or could not be produced.
    KeyError,
    /// A binary message is corrupt: a union with no arm set, a missing part,
    /// a text that is no identifier, an instant that does not exist.
    DecodeError,
}

/// A failure together with the text that explains it.
#[derive(Debug)]
pub enum Error {
    MalformedInput(String),
    MissingSchema,
    UntrustedSchema,
    SchemaValidation(String),
    Unsigned,
    InvalidSignature,
    KeyError(String),
    DecodeError(String),
}

impl Error {
    /// The failure that this error reports.
    pub open spec fn failure(&self) -> Failure {
        match self {
            Error::MalformedInput(_) => Failure::MalformedInput,
            Error::MissingSchema => Failure::MissingSchema,
            Error::UntrustedSchema => Failure::UntrustedSchema,
            Error::SchemaValidation(_) => Failure::SchemaValidation,
            Error::Unsigned => Failure::Unsigned,
            Error::InvalidSignature => Failure::InvalidSignature,
            Error::KeyError(_) => Failure::KeyError,
            Error::DecodeError(_) => Failure::DecodeError,
        }
    }

    /// The text carried by the error; the empty text where it carries none.
    pub open spec fn detail(&self) -> Seq<char> {
        match self {
            Error::MalformedInput(text) => text@,
            Error::SchemaValidation(text) => text@,
            Error::KeyError(text) => text@,
            Error::DecodeError(text) => text@,
            _ => Seq::empty(),
        }
    }

    /// The failure that this error reports.
    pub fn kind(&self) -> (kind: Failure)
        ensures
            kind == self.failure(),
    {
        match self {
            Error::MalformedInput(_) => Failure::MalformedInput,
            Error::MissingSchema => Failure::MissingSchema,
            Error::UntrustedSchema => Failure::UntrustedSchema,
            Error::SchemaValidation(_) => Failure::SchemaValidation,
            Error::Unsigned => Failure::Unsigned,
            Error::InvalidSignature => Failure::InvalidSignature,
            Error::KeyError(_) => Failure::KeyError,
            Error::DecodeError(_) => Failure::DecodeError,
        }
    }

    /// The message of the error: a fixed sentence for the kinds that carry no
    /// text, and the carried text for the others.
    pub fn message(&self) -> (text: String)
        ensures
            text@ == (match self.failure() {
                Failure::MissingSchema => "Missing schema"@,
                Failure::UntrustedSchema => "Failed to verify schema signature"@,
                Failure::Unsigned => "Document is unsigned"@,
                Failure::InvalidSignature => "Failed to verify"@,
                _ => self.detail(),
            }),
    {
        match self {
            Error::MalformedInput(text) => text.clone(),
            Error::MissingSchema => String::from_str("Missing schema"),
            Error::UntrustedSchema => String::from_str("Failed to verify schema signature"),
            Error::SchemaValidation(text) => text.clone(),
            Error::Unsigned => String::from_str("Document is unsigned"),
            Error::InvalidSignature => String::from_str("Failed to verify"),
            Error::KeyError(text) => text.clone(),
            Error::DecodeError(text) => text.clone(),
        }
    }
}

} // verus!
