//! Verifiable credentials and presentations: a closed document model, a
//! canonical text that signatures are made over, a schema check that trusts a
//! schema only once its own signature has been verified, and documents as a
//! JSON tree, as CBOR, and as the parts of a binary message.

pub mod builder;
pub mod cbor;
pub mod error;
pub mod github;
pub mod json;
pub mod json_codec;
pub mod keys;
pub mod model;
pub mod schema;
pub mod signing;
pub mod time;
pub mod uri;
pub mod wire;

pub use builder::VerifiableCredentialBuilder;
pub use error::{Error, Failure};
pub use github::construct_github_api_url;
pub use json::{JsonValue, Member};
pub use keys::{gen_keys, SignatureKeyPair};
pub use model::{
    CredentialSchema, CredentialStatus, Proof, SchemaEnum, StatusEnum, TypeEnum, VerifiableCredential,
    VerifiableCredentialEnum, VerifiablePresentation,
};
pub use schema::SignedSchema;
pub use signing::VerifiableFunctions;
pub use time::Timestamp;
pub use uri::Url;
