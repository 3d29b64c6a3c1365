//! Documents as CBOR: the JSON tree of a document, written and read by
//! `ciborium`. The shape in bytes is the shape of the tree.
//!
//! What `ciborium` writes and reads has names here and no more. Whether
//! given bytes hold a given document is told by reading them.

use vstd::prelude::*;
use crate::error::{Error, Failure};
use crate::json::{from_outside, to_outside, JsonModel, JsonValue};
use crate::json_codec::{
    credential_json, credential_of_json, presentation_json, presentation_of_json,
};
use crate::model::{
    CredentialModel, PresentationModel, VerifiableCredential, VerifiablePresentation,
};

verus! {

/// The bytes that `ciborium` writes for a tree; `None` where it fails.
pub uninterp spec fn cbor_bytes(value: JsonModel) -> Option<Seq<u8>>;

/// The tree that `ciborium` reads from bytes; `None` where it rejects them.
pub uninterp spec fn cbor_value(bytes: Seq<u8>) -> Option<JsonModel>;

/// `ciborium::into_writer` on the `serde_json::Value` that stands for the
/// tree, into an empty buffer. The contract names the bytes.
#[verifier::external_body]
fn write_outside(value: &JsonValue) -> (outcome: Result<Vec<u8>, String>)
    ensures
        match outcome {
            Ok(bytes) => cbor_bytes(value@) == Some(bytes@),
            Err(_) => cbor_bytes(value@) is None,
        },
{
    let mut buffer = Vec::new();
    match ciborium::into_writer(&to_outside(value), &mut buffer) {
        Ok(_) => Ok(buffer),
        Err(error) => Err(error.to_string()),
    }
}

/// `ciborium::from_reader` to a `serde_json::Value`. The contract names the tree.
#[verifier::external_body]
fn read_outside(bytes: &[u8]) -> (outcome: Result<JsonValue, String>)
    ensures
        match outcome {
            Ok(value) => cbor_value(bytes@) == Some(value@),
            Err(_) => cbor_value(bytes@) is None,
        },
{
    match ciborium::from_reader::<serde_json::Value, _>(bytes) {
        Ok(value) => Ok(from_outside(&value)),
        Err(error) => Err(error.to_string()),
    }
}

impl JsonValue {
    /// The tree as CBOR. Fails with `DecodeError` exactly where `ciborium`
    /// cannot write it.
    pub fn to_cbor(&self) -> (outcome: Result<Vec<u8>, Error>)
        ensures
            match outcome {
                Ok(bytes) => cbor_bytes(self@) == Some(bytes@),
                Err(error) => cbor_bytes(self@) is None && error.failure()
                    == Failure::DecodeError,
            },
    {
        match write_outside(self) {
            Ok(bytes) => Ok(bytes),
            Err(reason) => Err(Error::DecodeError(reason)),
        }
    }

    /// The tree that CBOR bytes hold. Fails with `DecodeError` exactly where
    /// `ciborium` rejects them.
    pub fn from_cbor(bytes: &[u8]) -> (outcome: Result<JsonValue, Error>)
        ensures
            match outcome {
                Ok(value) => cbor_value(bytes@) == Some(value@),
                Err(error) => cbor_value(bytes@) is None && error.failure()
                    == Failure::DecodeError,
            },
    {
        match read_outside(bytes) {
            Ok(value) => Ok(value),
            Err(reason) => Err(Error::DecodeError(reason)),
        }
    }
}

/// The bytes hold the credential: they are CBOR of a tree, and the tree
/// holds the credential.
pub open spec fn cbor_holds_credential(bytes: Seq<u8>, credential: CredentialModel) -> bool {
    cbor_value(bytes) matches Some(tree) && credential_of_json(tree) == Some(credential)
}

/// The bytes hold the presentation.
pub open spec fn cbor_holds_presentation(bytes: Seq<u8>, presentation: PresentationModel) -> bool {
    cbor_value(bytes) matches Some(tree) && presentation_of_json(tree) == Some(presentation)
}

impl VerifiableCredential {
    /// The credential as CBOR: the bytes of its JSON tree.
    pub fn serialize_cbor(&self) -> (outcome: Result<Vec<u8>, Error>)
        ensures
            match outcome {
                Ok(bytes) => cbor_bytes(credential_json(self@)) == Some(bytes@),
                Err(error) => cbor_bytes(credential_json(self@)) is None && error.failure()
                    == Failure::DecodeError,
            },
    {
        self.to_json().to_cbor()
    }

    /// The credential that CBOR bytes hold. Fails with `DecodeError` exactly
    /// where the bytes are no CBOR of a tree, and with `MalformedInput`
    /// exactly where the tree holds no credential.
    pub fn deserialize_cbor(reader: Vec<u8>) -> (outcome: Result<VerifiableCredential, Error>)
        ensures
            match outcome {
                Ok(credential) => cbor_value(reader@) matches Some(tree) && credential_of_json(
                    tree,
                ) == Some(credential@),
                Err(error) => match cbor_value(reader@) {
                    None => error.failure() == Failure::DecodeError,
                    Some(tree) => credential_of_json(tree) is None && error.failure()
                        == Failure::MalformedInput,
                },
            },
    {
        match JsonValue::from_cbor(reader.as_slice()) {
            Ok(tree) => VerifiableCredential::from_json(&tree),
            Err(error) => Err(error),
        }
    }
}

impl VerifiableCredential {
    /// Whether the bytes hold this credential: whether reading them gives it
    /// back, field by field, with each field that holds one value or a list
    /// as it is. This reads the bytes and compares.
    pub fn is_held_by_cbor(&self, bytes: &[u8]) -> (held: bool)
        ensures
            held == cbor_holds_credential(bytes@, self@),
    {
        match JsonValue::from_cbor(bytes) {
            Ok(tree) => match VerifiableCredential::from_json(&tree) {
                Ok(read) => {
                    let mine = self.to_json();
                    let theirs = read.to_json();
                    theirs.same_as(&mine)
                },
                Err(_) => false,
            },
            Err(_) => false,
        }
    }
}

impl VerifiablePresentation {
    /// Whether the bytes hold this presentation. This reads the bytes and
    /// compares.
    pub fn is_held_by_cbor(&self, bytes: &[u8]) -> (held: bool)
        ensures
            held == cbor_holds_presentation(bytes@, self@),
    {
        match JsonValue::from_cbor(bytes) {
            Ok(tree) => match VerifiablePresentation::from_json(&tree) {
                Ok(read) => {
                    let mine = self.to_json();
                    let theirs = read.to_json();
                    theirs.same_as(&mine)
                },
                Err(_) => false,
            },
            Err(_) => false,
        }
    }

    /// The presentation as CBOR: the bytes of its JSON tree.
    pub fn serialize_cbor(&self) -> (outcome: Result<Vec<u8>, Error>)
        ensures
            match outcome {
                Ok(bytes) => cbor_bytes(presentation_json(self@)) == Some(bytes@),
                Err(error) => cbor_bytes(presentation_json(self@)) is None && error.failure()
                    == Failure::DecodeError,
            },
    {
        self.to_json().to_cbor()
    }

    /// The presentation that CBOR bytes hold. Fails with `DecodeError`
    /// exactly where the bytes are no CBOR of a tree, and with
    /// `MalformedInput` exactly where the tree holds no presentation.
    pub fn deserialize_cbor(reader: Vec<u8>) -> (outcome: Result<VerifiablePresentation, Error>)
        ensures
            match outcome {
                Ok(presentation) => cbor_value(reader@) matches Some(tree)
                    && presentation_of_json(tree) == Some(presentation@),
                Err(error) => match cbor_value(reader@) {
                    None => error.failure() == Failure::DecodeError,
                    Some(tree) => presentation_of_json(tree) is None && error.failure()
                        == Failure::MalformedInput,
                },
            },
    {
        match JsonValue::from_cbor(reader.as_slice()) {
            Ok(tree) => VerifiablePresentation::from_json(&tree),
            Err(error) => Err(error),
        }
    }
}

} // verus!
