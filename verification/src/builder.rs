//! Building credentials: an envelope with fresh identifiers around a
//! subject, and the steps to fill in the rest.

use vstd::prelude::*;
use crate::error::{Error, Failure};
use crate::json::{JsonModel, JsonValue};
use crate::model::{
    CredentialModel, CredentialSchema, Proof, SchemaEnum, SchemaModel, SchemasModel, StatusEnum,
    TypeEnum, TypeModel, VerifiableCredential,
};
use crate::schema::{
    breaks_schema, check_outcome, reports_violations, SignedSchema, SignedSchemaModel,
    META_SCHEMA_ID,
};
use crate::time::Timestamp;
use crate::uri::{is_url, url_serialization, Url};

verus! {

/// The namespace that every credential starts its context with.
pub const CORE_CONTEXT: &'static str = "https://www.w3.org/ns/credentials/v2";

/// The text has the form of a UUID: 36 characters, with a hyphen after the
/// eighth and after each of the next three groups of four.
pub open spec fn is_uuid_text(text: Seq<char>) -> bool {
    &&& text.len() == 36
    &&& text[8] == '-'
    &&& text[13] == '-'
    &&& text[18] == '-'
    &&& text[23] == '-'
}

/// `uuid::Uuid::new_v4`, as the text that the type displays: its digits in
/// groups of 8, 4, 4, 4 and 12, with hyphens between them. Which digits is
/// left to chance.
#[verifier::external_body]
fn fresh_uuid_outside() -> (text: String)
    ensures
        is_uuid_text(text@),
{
    uuid::Uuid::new_v4().to_string()
}

/// A fresh random UUID, as a text.
pub fn fresh_uuid() -> (text: String)
    ensures
        is_uuid_text(text@),
{
    fresh_uuid_outside()
}

/// The URN of a UUID.
pub open spec fn urn(uuid: Seq<char>) -> Seq<char> {
    "urn:uuid:"@ + uuid
}

/// The URN of a UUID, as a URL. Fails with `MalformedInput` exactly where
/// the URN is no URL.
pub fn urn_of(uuid: &str) -> (outcome: Result<Url, Error>)
    ensures
        match outcome {
            Ok(url) => url_serialization(urn(uuid@)) == Some(url@) && is_url(url@),
            Err(error) => url_serialization(urn(uuid@)) is None && error.failure()
                == Failure::MalformedInput,
        },
{
    let mut text = String::from_str("urn:uuid:");
    text.append(uuid);
    Url::parse(text.as_str())
}

/// The credential that a builder starts from: the core namespace as its
/// context, the URNs of two UUIDs as its identifier and its issuer, the type
/// `VerifiableCredential`, one schema reference of the type `JsonSchema`,
/// the subject, and nothing else. `None` where one of the four texts is no URL.
pub open spec fn envelope(
    subject: JsonModel,
    schema_id: Seq<char>,
    id: Seq<char>,
    issuer: Seq<char>,
) -> Option<CredentialModel> {
    match (
        url_serialization(CORE_CONTEXT@),
        url_serialization(urn(id)),
        url_serialization(urn(issuer)),
        url_serialization(schema_id),
    ) {
        (Some(context), Some(id), Some(issuer), Some(schema)) => Some(
            CredentialModel {
                context: seq![context],
                id: Some(id),
                vc_type: TypeModel::Single("VerifiableCredential"@),
                name: None,
                description: None,
                issuer,
                valid_from: None,
                valid_until: None,
                credential_status: None,
                credential_schema: SchemasModel::Single(
                    SchemaModel { id: schema, credential_type: "JsonSchema"@ },
                ),
                credential_subject: subject,
                proof: None,
            },
        ),
        _ => None,
    }
}

/// A credential in the making.
pub struct VerifiableCredentialBuilder {
    context: Vec<Url>,
    id: Option<Url>,
    vc_type: TypeEnum,
    name: Option<String>,
    description: Option<String>,
    issuer: Url,
    valid_from: Option<Timestamp>,
    valid_until: Option<Timestamp>,
    credential_status: Option<StatusEnum>,
    credential_schema: SchemaEnum,
    credential_subject: JsonValue,
    proof: Option<Proof>,
}

impl View for VerifiableCredentialBuilder {
    type V = CredentialModel;

    /// The credential that `build` would give.
    closed spec fn view(&self) -> CredentialModel {
        CredentialModel {
            context: self.context.deep_view(),
            id: self.id.deep_view(),
            vc_type: self.vc_type@,
            name: self.name.deep_view(),
            description: self.description.deep_view(),
            issuer: self.issuer@,
            valid_from: self.valid_from.deep_view(),
            valid_until: self.valid_until.deep_view(),
            credential_status: self.credential_status.deep_view(),
            credential_schema: self.credential_schema@,
            credential_subject: self.credential_subject@,
            proof: self.proof.deep_view(),
        }
    }
}

impl VerifiableCredentialBuilder {
    /// Starts a credential from its subject, the identifier of its schema,
    /// and the two UUIDs that its identifier and its issuer are made of.
    /// Fails with `MalformedInput` exactly where one of the four texts of
    /// the envelope is no URL.
    pub fn with_ids(credential_subject: JsonValue, schema_id: &str, id: &str, issuer: &str) -> (outcome:
        Result<Self, Error>)
        ensures
            match outcome {
                Ok(builder) => envelope(credential_subject@, schema_id@, id@, issuer@) == Some(
                    builder@,
                ),
                Err(error) => envelope(credential_subject@, schema_id@, id@, issuer@) is None
                    && error.failure() == Failure::MalformedInput,
            },
    {
        let core = match Url::parse(CORE_CONTEXT) {
            Ok(core) => core,
            Err(error) => {
                return Err(error);
            },
        };
        let id = match urn_of(id) {
            Ok(id) => id,
            Err(error) => {
                return Err(error);
            },
        };
        let issuer = match urn_of(issuer) {
            Ok(issuer) => issuer,
            Err(error) => {
                return Err(error);
            },
        };
        let schema = match Url::parse(schema_id) {
            Ok(schema) => schema,
            Err(error) => {
                return Err(error);
            },
        };
        let mut context: Vec<Url> = Vec::new();
        context.push(core);
        assert(context.deep_view() =~= seq![core@]);
        Ok(
            Self {
                context,
                id: Some(id),
                vc_type: TypeEnum::Single(String::from_str("VerifiableCredential")),
                name: None,
                description: None,
                issuer,
                valid_from: None,
                valid_until: None,
                credential_status: None,
                credential_schema: SchemaEnum::Single(
                    CredentialSchema { id: schema, credential_type: String::from_str("JsonSchema") },
                ),
                credential_subject,
                proof: None,
            },
        )
    }

    /// Starts a credential from its subject and the identifier of its
    /// schema, with the URNs of two fresh random UUIDs as its identifier and
    /// its issuer. It is [`Self::with_ids`] on those two UUIDs: there are two
    /// texts of the form of a UUID for which the builder is the envelope
    /// around the subject, or for which there is no envelope and the failure
    /// is a `MalformedInput`.
    pub fn new(credential_subject: JsonValue, schema_id: &str) -> (outcome: Result<Self, Error>)
        ensures
            exists|id: Seq<char>, issuer: Seq<char>|
                is_uuid_text(id) && is_uuid_text(issuer) && match outcome {
                    Ok(builder) => #[trigger] envelope(credential_subject@, schema_id@, id, issuer)
                        == Some(builder@),
                    Err(error) => envelope(credential_subject@, schema_id@, id, issuer) is None
                        && error.failure() == Failure::MalformedInput,
                },
    {
        let id = fresh_uuid();
        let issuer = fresh_uuid();
        Self::with_ids(credential_subject, schema_id, id.as_str(), issuer.as_str())
    }

    /// Sets the name, or takes it away.
    pub fn name(self, name: Option<String>) -> (builder: Self)
        ensures
            builder@ == (CredentialModel { name: name.deep_view(), ..self@ }),
    {
        let mut builder = self;
        builder.name = name;
        builder
    }

    /// Sets the description, or takes it away.
    pub fn description(self, description: Option<String>) -> (builder: Self)
        ensures
            builder@ == (CredentialModel { description: description.deep_view(), ..self@ }),
    {
        let mut builder = self;
        builder.description = description;
        builder
    }

    /// Sets the instant from which the credential is valid, or takes it away.
    pub fn valid_from(self, valid_from: Option<Timestamp>) -> (builder: Self)
        ensures
            builder@ == (CredentialModel { valid_from: valid_from.deep_view(), ..self@ }),
    {
        let mut builder = self;
        builder.valid_from = valid_from;
        builder
    }

    /// Sets the instant until which the credential is valid, or takes it away.
    pub fn valid_until(self, valid_until: Option<Timestamp>) -> (builder: Self)
        ensures
            builder@ == (CredentialModel { valid_until: valid_until.deep_view(), ..self@ }),
    {
        let mut builder = self;
        builder.valid_until = valid_until;
        builder
    }

    /// Sets the issuer.
    pub fn issuer(self, issuer: Url) -> (builder: Self)
        ensures
            builder@ == (CredentialModel { issuer: issuer@, ..self@ }),
    {
        let mut builder = self;
        builder.issuer = issuer;
        builder
    }

    /// Sets the proof, or takes it away.
    pub fn with_proof(self, attached: Option<Proof>) -> (builder: Self)
        ensures
            builder@ == (CredentialModel { proof: attached.deep_view(), ..self@ }),
    {
        let mut builder = self;
        builder.proof = attached;
        builder
    }

    /// Adds a namespace at the end of the context.
    pub fn add_context(self, url: Url) -> (builder: Self)
        ensures
            builder@ == (CredentialModel { context: self@.context.push(url@), ..self@ }),
    {
        let mut builder = self;
        let ghost before = self.context.deep_view();
        builder.context.push(url);
        assert(builder.context.deep_view() =~= before.push(url@));
        builder
    }

    /// Sets the identifier, or takes it away.
    pub fn id(self, id: Option<Url>) -> (builder: Self)
        ensures
            builder@ == (CredentialModel { id: id.deep_view(), ..self@ }),
    {
        let mut builder = self;
        builder.id = id;
        builder
    }

    /// Sets the status, or takes it away.
    pub fn status(self, credential_status: Option<StatusEnum>) -> (builder: Self)
        ensures
            builder@ == (CredentialModel {
                credential_status: credential_status.deep_view(),
                ..self@
            }),
    {
        let mut builder = self;
        builder.credential_status = credential_status;
        builder
    }

    /// The credential. This never fails.
    pub fn build(self) -> (outcome: Result<VerifiableCredential, Error>)
        ensures
            outcome matches Ok(credential) && credential@ == self@,
    {
        Ok(
            VerifiableCredential {
                context: self.context,
                id: self.id,
                vc_type: self.vc_type,
                name: self.name,
                description: self.description,
                issuer: self.issuer,
                valid_from: self.valid_from,
                valid_until: self.valid_until,
                credential_status: self.credential_status,
                credential_schema: self.credential_schema,
                credential_subject: self.credential_subject,
                proof: self.proof,
            },
        )
    }
}

/// The identifier that a new credential gives its schema: the meta-schema
/// where no schema is supplied, else the `$id` of the subject of the schema
/// credential; `None` where that is absent or no string.
pub open spec fn declared_schema_id(schema: Option<SignedSchemaModel>) -> Option<Seq<char>> {
    match schema {
        None => Some(META_SCHEMA_ID@),
        Some(supplied) => match supplied.vc.credential_subject.field("$id"@) {
            Some(JsonModel::Text(id)) => Some(id),
            _ => None,
        },
    }
}

/// What creating a credential comes to, given the two UUIDs: the envelope
/// around the subject where the schema check passes it; `MalformedInput`
/// where the schema has no `$id` or a text of the envelope is no URL; else
/// the failure of the schema check.
pub open spec fn created(
    subject: JsonModel,
    schema: Option<SignedSchemaModel>,
    id: Seq<char>,
    issuer: Seq<char>,
) -> Result<CredentialModel, Failure> {
    match declared_schema_id(schema) {
        None => Err(Failure::MalformedInput),
        Some(schema_id) => match envelope(subject, schema_id, id, issuer) {
            None => Err(Failure::MalformedInput),
            Some(credential) => match check_outcome(credential, schema) {
                Ok(_) => Ok(credential),
                Err(failure) => Err(failure),
            },
        },
    }
}

/// The envelope around the subject was held against a schema, the
/// meta-schema or a trusted one, and the subject breaks it.
pub open spec fn creation_breaks_schema(
    subject: JsonModel,
    schema: Option<SignedSchemaModel>,
    id: Seq<char>,
    issuer: Seq<char>,
) -> bool {
    declared_schema_id(schema) matches Some(schema_id) && (envelope(
        subject,
        schema_id,
        id,
        issuer,
    ) matches Some(credential) && breaks_schema(credential, schema))
}

/// The identifier that a new credential gives its schema.
pub fn schema_id_of(schema: &Option<SignedSchema>) -> (outcome: Result<String, Error>)
    ensures
        match outcome {
            Ok(id) => declared_schema_id(schema.deep_view()) == Some(id@),
            Err(error) => declared_schema_id(schema.deep_view()) is None && error.failure()
                == Failure::MalformedInput,
        },
{
    match schema {
        None => Ok(String::from_str(META_SCHEMA_ID)),
        Some(supplied) => match supplied.vc.credential_subject.get("$id") {
            Some(JsonValue::Text(id)) => Ok(id.clone()),
            Some(_) => Err(Error::MalformedInput(String::from_str("$id is not str"))),
            None => Err(Error::MalformedInput(String::from_str("No $id field in schema"))),
        },
    }
}

impl VerifiableCredential {
    /// Creates a credential around a subject, with the two UUIDs that its
    /// identifier and its issuer are made of, and checks the subject against
    /// the schema. See [`created`]. Where the subject breaks the schema, the
    /// text of the failure reports every violation that was found.
    pub fn create_with_ids(
        subject: JsonValue,
        schema: Option<SignedSchema>,
        id: &str,
        issuer: &str,
    ) -> (outcome: Result<VerifiableCredential, Error>)
        ensures
            match outcome {
                Ok(credential) => created(subject@, schema.deep_view(), id@, issuer@) == Ok::<
                    CredentialModel,
                    Failure,
                >(credential@),
                Err(error) => {
                    &&& created(subject@, schema.deep_view(), id@, issuer@) == Err::<
                        CredentialModel,
                        Failure,
                    >(error.failure())
                    &&& creation_breaks_schema(subject@, schema.deep_view(), id@, issuer@)
                        ==> reports_violations(error.detail())
                },
            },
    {
        let schema_id = match schema_id_of(&schema) {
            Ok(schema_id) => schema_id,
            Err(error) => {
                return Err(error);
            },
        };
        let builder = match VerifiableCredentialBuilder::with_ids(
            subject,
            schema_id.as_str(),
            id,
            issuer,
        ) {
            Ok(builder) => builder,
            Err(error) => {
                return Err(error);
            },
        };
        match builder.build() {
            Ok(credential) => credential.schema_check(schema),
            Err(error) => Err(error),
        }
    }

    /// Creates a credential around a subject, with the URNs of two fresh
    /// random UUIDs as its identifier and its issuer, and checks the subject
    /// against the schema. It is [`Self::create_with_ids`] on those two UUIDs.
    pub fn create(subject: JsonValue, schema: Option<SignedSchema>) -> (outcome: Result<
        VerifiableCredential,
        Error,
    >)
        ensures
            exists|id: Seq<char>, issuer: Seq<char>|
                is_uuid_text(id) && is_uuid_text(issuer) && match outcome {
                    Ok(credential) => #[trigger] created(subject@, schema.deep_view(), id, issuer)
                        == Ok::<CredentialModel, Failure>(credential@),
                    Err(error) => {
                        &&& created(subject@, schema.deep_view(), id, issuer) == Err::<
                            CredentialModel,
                            Failure,
                        >(error.failure())
                        &&& creation_breaks_schema(subject@, schema.deep_view(), id, issuer)
                            ==> reports_violations(error.detail())
                    },
                },
    {
        let id = fresh_uuid();
        let issuer = fresh_uuid();
        Self::create_with_ids(subject, schema, id.as_str(), issuer.as_str())
    }
}

} // verus!
