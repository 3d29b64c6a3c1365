//! The parts of the binary message, and the way between documents and those
//! parts.
//!
//! The message has no field that is either one value or a list, no free-form
//! value and no identifier type. So a field of the first kind becomes a union
//! of two arms, of which a decoder must find one set; the subject travels as
//! its JSON text inside an opaque payload; an instant becomes seconds and
//! nanoseconds; and an identifier becomes a text that is parsed again on the
//! way back. Whatever a decoder finds amiss is a `DecodeError`.

use vstd::prelude::*;
use crate::error::{Error, Failure};
use crate::json::{json_parsed, json_text, JsonModel, JsonValue};
use crate::model::{
    CredentialModel, CredentialSchema, CredentialStatus, CredentialsModel, PresentationModel,
    Proof, ProofModel, SchemaEnum, SchemaModel, SchemasModel, StatusEnum, StatusModel,
    StatusesModel, TypeEnum, TypeModel, VerifiableCredential, VerifiableCredentialEnum,
    VerifiablePresentation,
};
use crate::time::{utc_text, Instant, Timestamp};
use crate::uri::{is_url, url_serialization, Url};

verus! {

/// The arm of a type union that is set.
#[derive(Clone, Debug)]
pub enum WireTypeArm {
    SingleType(String),
    MultipleType(Vec<String>),
}

/// A type union: at most one arm is set.
#[derive(Clone, Debug)]
pub struct WireType {
    pub oneof_type: Option<WireTypeArm>,
}

/// A schema reference, its identifier as a text.
#[derive(Clone, Debug)]
pub struct WireSchema {
    pub schema_id: String,
    pub schema_type: String,
}

/// One schema reference or a list of them.
#[derive(Clone, Debug)]
pub enum WireSchemas {
    SingleSchema(WireSchema),
    MultipleSchema(Vec<WireSchema>),
}

/// A status, its identifier as a text.
#[derive(Clone, Debug)]
pub struct WireStatus {
    pub status_id: Option<String>,
    pub status_type: Option<WireType>,
}

/// One status or a list of them.
#[derive(Clone, Debug)]
pub enum WireStatuses {
    SingleStatus(WireStatus),
    MultipleStatus(Vec<WireStatus>),
}

/// An instant as whole seconds and nanoseconds.
#[derive(Clone, Copy, Debug)]
pub struct WireTimestamp {
    pub seconds: i64,
    pub nanos: i32,
}

/// An opaque payload with a label that says what it holds.
#[derive(Clone, Debug)]
pub struct WireAny {
    pub type_url: String,
    pub value: Vec<u8>,
}

/// A proof, the time of its creation as an optional part.
#[derive(Clone, Debug)]
pub struct WireProof {
    pub proof_type: String,
    pub created: Option<WireTimestamp>,
    pub cryptosuite: String,
    pub proof_purpose: String,
    pub proof_value: String,
}

/// A credential as the message holds it.
#[derive(Clone, Debug)]
pub struct WireCredential {
    pub context: Vec<String>,
    pub vc_type: Option<WireType>,
    pub name: Option<String>,
    pub description: Option<String>,
    pub valid_from: Option<WireTimestamp>,
    pub valid_until: Option<WireTimestamp>,
    pub credential_schema: Option<WireSchemas>,
    pub credential_subject: Option<WireAny>,
    pub proof: Option<WireProof>,
    pub vc_id: Option<String>,
    pub issuer: String,
    pub credential_status: Option<WireStatuses>,
}

/// One credential or a list of them.
#[derive(Clone, Debug)]
pub enum WireCredentials {
    SingleVc(WireCredential),
    MultipleVc(Vec<WireCredential>),
}

/// A presentation as the message holds it.
#[derive(Clone, Debug)]
pub struct WirePresentation {
    pub vp_id: Option<String>,
    pub vp_type: Option<WireType>,
    pub verifiable_credential: Option<WireCredentials>,
    pub holder: Option<String>,
    pub proof: Option<WireProof>,
}

/// The mathematical value of a [`WireTypeArm`].
pub ghost enum WireTypeArmModel {
    SingleType(Seq<char>),
    MultipleType(Seq<Seq<char>>),
}

/// The mathematical value of a [`WireType`].
pub ghost struct WireTypeModel {
    pub oneof_type: Option<WireTypeArmModel>,
}

/// The mathematical value of a [`WireSchema`].
pub ghost struct WireSchemaModel {
    pub schema_id: Seq<char>,
    pub schema_type: Seq<char>,
}

/// The mathematical value of a [`WireSchemas`].
pub ghost enum WireSchemasModel {
    SingleSchema(WireSchemaModel),
    MultipleSchema(Seq<WireSchemaModel>),
}

/// The mathematical value of a [`WireStatus`].
pub ghost struct WireStatusModel {
    pub status_id: Option<Seq<char>>,
    pub status_type: Option<WireTypeModel>,
}

/// The mathematical value of a [`WireStatuses`].
pub ghost enum WireStatusesModel {
    SingleStatus(WireStatusModel),
    MultipleStatus(Seq<WireStatusModel>),
}

/// The mathematical value of a [`WireTimestamp`].
pub ghost struct WireTimestampModel {
    pub seconds: i64,
    pub nanos: i32,
}

/// The mathematical value of a [`WireAny`].
pub ghost struct WireAnyModel {
    pub type_url: Seq<char>,
    pub value: Seq<u8>,
}

/// The mathematical value of a [`WireProof`].
pub ghost struct WireProofModel {
    pub proof_type: Seq<char>,
    pub created: Option<WireTimestampModel>,
    pub cryptosuite: Seq<char>,
    pub proof_purpose: Seq<char>,
    pub proof_value: Seq<char>,
}

/// The mathematical value of a [`WireCredential`].
pub ghost struct WireCredentialModel {
    pub context: Seq<Seq<char>>,
    pub vc_type: Option<WireTypeModel>,
    pub name: Option<Seq<char>>,
    pub description: Option<Seq<char>>,
    pub valid_from: Option<WireTimestampModel>,
    pub valid_until: Option<WireTimestampModel>,
    pub credential_schema: Option<WireSchemasModel>,
    pub credential_subject: Option<WireAnyModel>,
    pub proof: Option<WireProofModel>,
    pub vc_id: Option<Seq<char>>,
    pub issuer: Seq<char>,
    pub credential_status: Option<WireStatusesModel>,
}

/// The mathematical value of a [`WireCredentials`].
pub ghost enum WireCredentialsModel {
    SingleVc(WireCredentialModel),
    MultipleVc(Seq<WireCredentialModel>),
}

/// The mathematical value of a [`WirePresentation`].
pub ghost struct WirePresentationModel {
    pub vp_id: Option<Seq<char>>,
    pub vp_type: Option<WireTypeModel>,
    pub verifiable_credential: Option<WireCredentialsModel>,
    pub holder: Option<Seq<char>>,
    pub proof: Option<WireProofModel>,
}

impl DeepView for WireTypeArm {
    type V = WireTypeArmModel;

    open spec fn deep_view(&self) -> WireTypeArmModel {
        match self {
            WireTypeArm::SingleType(name) => WireTypeArmModel::SingleType(name@),
            WireTypeArm::MultipleType(names) => WireTypeArmModel::MultipleType(names.deep_view()),
        }
    }
}

impl DeepView for WireType {
    type V = WireTypeModel;

    open spec fn deep_view(&self) -> WireTypeModel {
        WireTypeModel { oneof_type: self.oneof_type.deep_view() }
    }
}

impl DeepView for WireSchema {
    type V = WireSchemaModel;

    open spec fn deep_view(&self) -> WireSchemaModel {
        WireSchemaModel { schema_id: self.schema_id@, schema_type: self.schema_type@ }
    }
}

impl DeepView for WireSchemas {
    type V = WireSchemasModel;

    open spec fn deep_view(&self) -> WireSchemasModel {
        match self {
            WireSchemas::SingleSchema(schema) => WireSchemasModel::SingleSchema(
                schema.deep_view(),
            ),
            WireSchemas::MultipleSchema(schemas) => WireSchemasModel::MultipleSchema(
                schemas.deep_view(),
            ),
        }
    }
}

impl DeepView for WireStatus {
    type V = WireStatusModel;

    open spec fn deep_view(&self) -> WireStatusModel {
        WireStatusModel {
            status_id: self.status_id.deep_view(),
            status_type: self.status_type.deep_view(),
        }
    }
}

impl DeepView for WireStatuses {
    type V = WireStatusesModel;

    open spec fn deep_view(&self) -> WireStatusesModel {
        match self {
            WireStatuses::SingleStatus(status) => WireStatusesModel::SingleStatus(
                status.deep_view(),
            ),
            WireStatuses::MultipleStatus(statuses) => WireStatusesModel::MultipleStatus(
                statuses.deep_view(),
            ),
        }
    }
}

impl DeepView for WireTimestamp {
    type V = WireTimestampModel;

    open spec fn deep_view(&self) -> WireTimestampModel {
        WireTimestampModel { seconds: self.seconds, nanos: self.nanos }
    }
}

impl DeepView for WireAny {
    type V = WireAnyModel;

    open spec fn deep_view(&self) -> WireAnyModel {
        WireAnyModel { type_url: self.type_url@, value: self.value@ }
    }
}

impl DeepView for WireProof {
    type V = WireProofModel;

    open spec fn deep_view(&self) -> WireProofModel {
        WireProofModel {
            proof_type: self.proof_type@,
            created: self.created.deep_view(),
            cryptosuite: self.cryptosuite@,
            proof_purpose: self.proof_purpose@,
            proof_value: self.proof_value@,
        }
    }
}

impl DeepView for WireCredential {
    type V = WireCredentialModel;

    open spec fn deep_view(&self) -> WireCredentialModel {
        WireCredentialModel {
            context: self.context.deep_view(),
            vc_type: self.vc_type.deep_view(),
            name: self.name.deep_view(),
            description: self.description.deep_view(),
            valid_from: self.valid_from.deep_view(),
            valid_until: self.valid_until.deep_view(),
            credential_schema: self.credential_schema.deep_view(),
            credential_subject: self.credential_subject.deep_view(),
            proof: self.proof.deep_view(),
            vc_id: self.vc_id.deep_view(),
            issuer: self.issuer@,
            credential_status: self.credential_status.deep_view(),
        }
    }
}

impl DeepView for WireCredentials {
    type V = WireCredentialsModel;

    open spec fn deep_view(&self) -> WireCredentialsModel {
        match self {
            WireCredentials::SingleVc(credential) => WireCredentialsModel::SingleVc(
                credential.deep_view(),
            ),
            WireCredentials::MultipleVc(credentials) => WireCredentialsModel::MultipleVc(
                credentials.deep_view(),
            ),
        }
    }
}

impl DeepView for WirePresentation {
    type V = WirePresentationModel;

    open spec fn deep_view(&self) -> WirePresentationModel {
        WirePresentationModel {
            vp_id: self.vp_id.deep_view(),
            vp_type: self.vp_type.deep_view(),
            verifiable_credential: self.verifiable_credential.deep_view(),
            holder: self.holder.deep_view(),
            proof: self.proof.deep_view(),
        }
    }
}

/// The bytes of the message that `prost` writes for a text.
pub uninterp spec fn string_message(text: Seq<char>) -> Seq<u8>;

/// The text that `prost` reads from the bytes of a message; `None` where it
/// rejects them.
pub uninterp spec fn string_message_text(bytes: Seq<u8>) -> Option<Seq<char>>;

/// `prost::Message::encode_to_vec` on a `String`, which `prost` takes for a
/// message with the text as its one field. The contract names the bytes and
/// claims that they decode to the text: the encoder writes that field, or
/// nothing for the empty text, and the decoder starts from the empty text
/// and reads that field.
#[verifier::external_body]
fn encode_text_outside(text: &String) -> (bytes: Vec<u8>)
    ensures
        bytes@ == string_message(text@),
        string_message_text(bytes@) == Some(text@),
{
    prost::Message::encode_to_vec(text)
}

/// `prost::Message::decode` to a `String`. The contract names the text.
#[verifier::external_body]
fn decode_text_outside(bytes: &[u8]) -> (outcome: Result<String, String>)
    ensures
        match outcome {
            Ok(text) => string_message_text(bytes@) == Some(text@),
            Err(_) => string_message_text(bytes@) is None,
        },
{
    match <String as prost::Message>::decode(bytes) {
        Ok(text) => Ok(text),
        Err(error) => Err(error.to_string()),
    }
}

/// The label of the payload that holds a subject.
pub open spec fn subject_label() -> Seq<char> {
    "Value.to_string()"@
}

/// A type as a union with one arm set.
pub open spec fn type_to_wire(kind: TypeModel) -> WireTypeModel {
    WireTypeModel {
        oneof_type: Some(
            match kind {
                TypeModel::Single(name) => WireTypeArmModel::SingleType(name),
                TypeModel::Multiple(names) => WireTypeArmModel::MultipleType(names),
            },
        ),
    }
}

/// A schema reference with its identifier as a text.
pub open spec fn schema_to_wire(schema: SchemaModel) -> WireSchemaModel {
    WireSchemaModel { schema_id: schema.id, schema_type: schema.credential_type }
}

/// Schema references, one or a list as they were.
pub open spec fn schemas_to_wire(schemas: SchemasModel) -> WireSchemasModel {
    match schemas {
        SchemasModel::Single(schema) => WireSchemasModel::SingleSchema(schema_to_wire(schema)),
        SchemasModel::Multiple(list) => WireSchemasModel::MultipleSchema(
            list.map_values(|schema: SchemaModel| schema_to_wire(schema)),
        ),
    }
}

/// A status with its identifier as a text and its type as a union.
pub open spec fn status_to_wire(status: StatusModel) -> WireStatusModel {
    WireStatusModel { status_id: status.id, status_type: Some(type_to_wire(status.status_type)) }
}

/// Statuses, one or a list as they were.
pub open spec fn statuses_to_wire(statuses: StatusesModel) -> WireStatusesModel {
    match statuses {
        StatusesModel::Single(status) => WireStatusesModel::SingleStatus(status_to_wire(status)),
        StatusesModel::Multiple(list) => WireStatusesModel::MultipleStatus(
            list.map_values(|status: StatusModel| status_to_wire(status)),
        ),
    }
}

/// An instant as seconds and nanoseconds.
pub open spec fn instant_to_wire(instant: Instant) -> WireTimestampModel {
    WireTimestampModel { seconds: instant.seconds, nanos: instant.nanos as i32 }
}

/// An instant that may be absent: absent, it is an absent part, never zero.
pub open spec fn optional_instant_to_wire(instant: Option<Instant>) -> Option<
    WireTimestampModel,
> {
    match instant {
        Some(instant) => Some(instant_to_wire(instant)),
        None => None,
    }
}

/// A proof with the time of its creation as a part.
pub open spec fn proof_to_wire(proof: ProofModel) -> WireProofModel {
    WireProofModel {
        proof_type: proof.proof_type,
        created: Some(instant_to_wire(proof.created)),
        cryptosuite: proof.cryptosuite,
        proof_purpose: proof.proof_purpose,
        proof_value: proof.proof_value,
    }
}

/// A proof that may be absent.
pub open spec fn optional_proof_to_wire(attached: Option<ProofModel>) -> Option<WireProofModel> {
    match attached {
        Some(proof) => Some(proof_to_wire(proof)),
        None => None,
    }
}

/// A subject as an opaque payload: its JSON text, as a message of one text.
pub open spec fn subject_to_wire(subject: JsonModel) -> WireAnyModel {
    WireAnyModel { type_url: subject_label(), value: string_message(json_text(subject)) }
}

/// A credential as the message holds it.
pub open spec fn credential_to_wire(credential: CredentialModel) -> WireCredentialModel {
    WireCredentialModel {
        context: credential.context,
        vc_type: Some(type_to_wire(credential.vc_type)),
        name: credential.name,
        description: credential.description,
        valid_from: optional_instant_to_wire(credential.valid_from),
        valid_until: optional_instant_to_wire(credential.valid_until),
        credential_schema: Some(schemas_to_wire(credential.credential_schema)),
        credential_subject: Some(subject_to_wire(credential.credential_subject)),
        proof: optional_proof_to_wire(credential.proof),
        vc_id: credential.id,
        issuer: credential.issuer,
        credential_status: match credential.credential_status {
            Some(statuses) => Some(statuses_to_wire(statuses)),
            None => None,
        },
    }
}

/// Credentials, one or a list as they were.
pub open spec fn credentials_to_wire(credentials: CredentialsModel) -> WireCredentialsModel {
    match credentials {
        CredentialsModel::Single(credential) => WireCredentialsModel::SingleVc(
            credential_to_wire(credential),
        ),
        CredentialsModel::Multiple(list) => WireCredentialsModel::MultipleVc(
            list.map_values(|credential: CredentialModel| credential_to_wire(credential)),
        ),
    }
}

/// A presentation as the message holds it.
pub open spec fn presentation_to_wire(presentation: PresentationModel) -> WirePresentationModel {
    WirePresentationModel {
        vp_id: presentation.id,
        vp_type: Some(type_to_wire(presentation.vp_type)),
        verifiable_credential: Some(credentials_to_wire(presentation.verifiable_credential)),
        holder: presentation.holder,
        proof: optional_proof_to_wire(presentation.proof),
    }
}

/// A copy of a list of texts.
pub fn copy_texts(texts: &Vec<String>) -> (copies: Vec<String>)
    ensures
        copies.deep_view() == texts.deep_view(),
{
    let mut copies: Vec<String> = Vec::new();
    let mut i: usize = 0;
    while i < texts.len()
        invariant
            i <= texts.len(),
            copies.len() == i,
            forall|j: int| 0 <= j < i ==> copies[j]@ == texts[j]@,
        decreases texts.len() - i,
    {
        copies.push(texts[i].clone());
        i += 1;
    }
    assert(copies.deep_view() =~= texts.deep_view());
    copies
}

/// The serializations of a list of URLs.
pub fn texts_of_urls(urls: &Vec<Url>) -> (texts: Vec<String>)
    ensures
        texts.deep_view() == urls.deep_view(),
        forall|i: int| 0 <= i < urls.len() ==> is_url(#[trigger] urls.deep_view()[i]),
{
    let mut texts: Vec<String> = Vec::new();
    let mut i: usize = 0;
    while i < urls.len()
        invariant
            i <= urls.len(),
            texts.len() == i,
            forall|j: int| 0 <= j < i ==> texts[j]@ == urls[j]@ && is_url(urls[j]@),
        decreases urls.len() - i,
    {
        texts.push(urls[i].to_text());
        i += 1;
    }
    assert(texts.deep_view() =~= urls.deep_view());
    texts
}

/// The serialization of a URL that may be absent.
pub fn text_of_optional_url(url: &Option<Url>) -> (text: Option<String>)
    ensures
        text.deep_view() == url.deep_view(),
        url matches Some(u) ==> is_url(u@),
{
    match url {
        Some(url) => Some(url.to_text()),
        None => None,
    }
}

/// A copy of a text that may be absent.
pub fn copy_optional_text(text: &Option<String>) -> (copy: Option<String>)
    ensures
        copy.deep_view() == text.deep_view(),
{
    match text {
        Some(text) => Some(text.clone()),
        None => None,
    }
}

impl TypeEnum {
    /// The type as a union with one arm set.
    pub fn to_wire(&self) -> (wire: WireType)
        ensures
            wire.deep_view() == type_to_wire(self@),
    {
        match self {
            TypeEnum::Single(name) => WireType {
                oneof_type: Some(WireTypeArm::SingleType(name.clone())),
            },
            TypeEnum::Multiple(names) => WireType {
                oneof_type: Some(WireTypeArm::MultipleType(copy_texts(names))),
            },
        }
    }
}

impl CredentialSchema {
    /// The schema reference with its identifier as a text.
    pub fn to_wire(&self) -> (wire: WireSchema)
        ensures
            wire.deep_view() == schema_to_wire(self@),
            self@.wf(),
    {
        WireSchema { schema_id: self.id.to_text(), schema_type: self.credential_type.clone() }
    }
}

impl SchemaEnum {
    /// The schema references, one or a list as they are.
    pub fn to_wire(&self) -> (wire: WireSchemas)
        ensures
            wire.deep_view() == schemas_to_wire(self@),
            self@.wf(),
    {
        match self {
            SchemaEnum::Single(schema) => WireSchemas::SingleSchema(schema.to_wire()),
            SchemaEnum::Multiple(schemas) => {
                let mut list: Vec<WireSchema> = Vec::new();
                let mut i: usize = 0;
                while i < schemas.len()
                    invariant
                        i <= schemas.len(),
                        list.len() == i,
                        forall|j: int|
                            0 <= j < i ==> (#[trigger] list[j]).deep_view() == schema_to_wire(
                                schemas[j]@,
                            ),
                        forall|j: int| 0 <= j < i ==> (#[trigger] schemas[j])@.wf(),
                    decreases schemas.len() - i,
                {
                    list.push(schemas[i].to_wire());
                    i += 1;
                }
                assert(list.deep_view() =~= schemas.deep_view().map_values(
                    |schema: SchemaModel| schema_to_wire(schema),
                ));
                assert forall|k: int| 0 <= k < schemas.len() implies (
                #[trigger] schemas.deep_view()[k]).wf() by {
                    assert(schemas.deep_view()[k] == schemas[k]@);
                }
                WireSchemas::MultipleSchema(list)
            },
        }
    }
}

impl CredentialStatus {
    /// The status with its identifier as a text and its type as a union.
    pub fn to_wire(&self) -> (wire: WireStatus)
        ensures
            wire.deep_view() == status_to_wire(self@),
            self@.wf(),
    {
        WireStatus {
            status_id: text_of_optional_url(&self.id),
            status_type: Some(self.status_type.to_wire()),
        }
    }
}

impl StatusEnum {
    /// The statuses, one or a list as they are.
    pub fn to_wire(&self) -> (wire: WireStatuses)
        ensures
            wire.deep_view() == statuses_to_wire(self@),
            self@.wf(),
    {
        match self {
            StatusEnum::Single(status) => WireStatuses::SingleStatus(status.to_wire()),
            StatusEnum::Multiple(statuses) => {
                let mut list: Vec<WireStatus> = Vec::new();
                let mut i: usize = 0;
                while i < statuses.len()
                    invariant
                        i <= statuses.len(),
                        list.len() == i,
                        forall|j: int|
                            0 <= j < i ==> (#[trigger] list[j]).deep_view() == status_to_wire(
                                statuses[j]@,
                            ),
                        forall|j: int| 0 <= j < i ==> (#[trigger] statuses[j])@.wf(),
                    decreases statuses.len() - i,
                {
                    list.push(statuses[i].to_wire());
                    i += 1;
                }
                assert(list.deep_view() =~= statuses.deep_view().map_values(
                    |status: StatusModel| status_to_wire(status),
                ));
                assert forall|k: int| 0 <= k < statuses.len() implies (
                #[trigger] statuses.deep_view()[k]).wf() by {
                    assert(statuses.deep_view()[k] == statuses[k]@);
                }
                WireStatuses::MultipleStatus(list)
            },
        }
    }
}

impl Timestamp {
    /// The instant as seconds and nanoseconds.
    pub fn to_wire(&self) -> (wire: WireTimestamp)
        ensures
            wire.deep_view() == instant_to_wire(self@),
            self@.wf(),
    {
        let nanos = self.nanos();
        WireTimestamp { seconds: self.seconds(), nanos: nanos as i32 }
    }
}

/// An instant that may be absent, as a part that may be absent.
pub fn optional_timestamp_to_wire(stamp: &Option<Timestamp>) -> (wire: Option<WireTimestamp>)
    ensures
        wire.deep_view() == optional_instant_to_wire(stamp.deep_view()),
        stamp matches Some(s) ==> s@.wf(),
{
    match stamp {
        Some(stamp) => Some(stamp.to_wire()),
        None => None,
    }
}

impl Proof {
    /// The proof with the time of its creation as a part.
    pub fn to_wire(&self) -> (wire: WireProof)
        ensures
            wire.deep_view() == proof_to_wire(self@),
            self@.wf(),
    {
        WireProof {
            proof_type: self.proof_type.clone(),
            created: Some(self.created.to_wire()),
            cryptosuite: self.cryptosuite.clone(),
            proof_purpose: self.proof_purpose.clone(),
            proof_value: self.proof_value.clone(),
        }
    }
}

/// A proof that may be absent, as a part that may be absent.
pub fn optional_proof_to_wire_parts(attached: &Option<Proof>) -> (wire: Option<WireProof>)
    ensures
        wire.deep_view() == optional_proof_to_wire(attached.deep_view()),
        attached matches Some(p) ==> p@.wf(),
{
    match attached {
        Some(proof) => Some(proof.to_wire()),
        None => None,
    }
}

/// A subject as an opaque payload, which decodes to the text of the subject.
pub fn subject_to_wire_parts(subject: &JsonValue) -> (wire: WireAny)
    ensures
        wire.deep_view() == subject_to_wire(subject@),
        string_message_text(wire.value@) == Some(json_text(subject@)),
{
    let text = subject.to_text();
    WireAny { type_url: String::from_str("Value.to_string()"), value: encode_text_outside(&text) }
}

impl VerifiableCredential {
    /// The credential as the message holds it. Where the subject is
    /// canonical, decoding what comes out gives the credential back.
    pub fn to_wire(&self) -> (wire: WireCredential)
        ensures
            wire.deep_view() == credential_to_wire(self@),
            self@.wf(),
            self@.credential_subject.canonical() ==> self@.portable() && credential_from_wire(
                wire.deep_view(),
            ) == Some(self@),
    {
        let credential_status = match &self.credential_status {
            Some(statuses) => Some(statuses.to_wire()),
            None => None,
        };
        let wire = WireCredential {
            context: texts_of_urls(&self.context),
            vc_type: Some(self.vc_type.to_wire()),
            name: copy_optional_text(&self.name),
            description: copy_optional_text(&self.description),
            valid_from: optional_timestamp_to_wire(&self.valid_from),
            valid_until: optional_timestamp_to_wire(&self.valid_until),
            credential_schema: Some(self.credential_schema.to_wire()),
            credential_subject: Some(subject_to_wire_parts(&self.credential_subject)),
            proof: optional_proof_to_wire_parts(&self.proof),
            vc_id: text_of_optional_url(&self.id),
            issuer: self.issuer.to_text(),
            credential_status,
        };
        proof {
            if self@.credential_subject.canonical() {
                lemma_credential_round_trip(self@);
            }
        }
        wire
    }
}

/// The type that a union holds; `None` where the union is absent or has no
/// arm set.
pub open spec fn type_from_wire(wire: Option<WireTypeModel>) -> Option<TypeModel> {
    match wire {
        Some(WireTypeModel { oneof_type: Some(WireTypeArmModel::SingleType(name)) }) => Some(
            TypeModel::Single(name),
        ),
        Some(WireTypeModel { oneof_type: Some(WireTypeArmModel::MultipleType(names)) }) => Some(
            TypeModel::Multiple(names),
        ),
        _ => None,
    }
}

/// The URLs that a list of texts parses to; `None` where one of them is no URL.
pub open spec fn urls_from_wire(texts: Seq<Seq<char>>) -> Option<Seq<Seq<char>>> {
    if forall|i: int| 0 <= i < texts.len() ==> url_serialization(#[trigger] texts[i]) is Some {
        Some(texts.map_values(|text: Seq<char>| url_serialization(text).unwrap()))
    } else {
        None
    }
}

/// The URL that a text parses to, where there is a text; `None` where the
/// text is no URL.
pub open spec fn optional_url_from_wire(text: Option<Seq<char>>) -> Option<Option<Seq<char>>> {
    match text {
        None => Some(None),
        Some(text) => match url_serialization(text) {
            Some(url) => Some(Some(url)),
            None => None,
        },
    }
}

/// The instant of a pair of seconds and nanoseconds; `None` where the
/// nanoseconds are negative or there is no such instant.
pub open spec fn instant_from_wire(wire: WireTimestampModel) -> Option<Instant> {
    if wire.nanos >= 0 && utc_text(wire.seconds, wire.nanos as u32) is Some {
        Some(Instant { seconds: wire.seconds, nanos: wire.nanos as u32 })
    } else {
        None
    }
}

/// The instant of a part that may be absent; `None` where the part is there
/// and is no instant.
pub open spec fn optional_instant_from_wire(wire: Option<WireTimestampModel>) -> Option<
    Option<Instant>,
> {
    match wire {
        None => Some(None),
        Some(wire) => match instant_from_wire(wire) {
            Some(instant) => Some(Some(instant)),
            None => None,
        },
    }
}

/// The schema reference of its parts; `None` where the identifier is no URL.
pub open spec fn schema_from_wire(wire: WireSchemaModel) -> Option<SchemaModel> {
    match url_serialization(wire.schema_id) {
        Some(id) => Some(SchemaModel { id, credential_type: wire.schema_type }),
        None => None,
    }
}

/// The schema references of a union; `None` where the union is absent or a
/// reference in it fails.
pub open spec fn schemas_from_wire(wire: Option<WireSchemasModel>) -> Option<SchemasModel> {
    match wire {
        Some(WireSchemasModel::SingleSchema(schema)) => match schema_from_wire(schema) {
            Some(schema) => Some(SchemasModel::Single(schema)),
            None => None,
        },
        Some(WireSchemasModel::MultipleSchema(list)) => if forall|i: int|
            0 <= i < list.len() ==> schema_from_wire(#[trigger] list[i]) is Some {
            Some(
                SchemasModel::Multiple(
                    list.map_values(|schema: WireSchemaModel| schema_from_wire(schema).unwrap()),
                ),
            )
        } else {
            None
        },
        None => None,
    }
}

/// The status of its parts; `None` where the identifier is no URL or the
/// type has no arm set.
pub open spec fn status_from_wire(wire: WireStatusModel) -> Option<StatusModel> {
    match (optional_url_from_wire(wire.status_id), type_from_wire(wire.status_type)) {
        (Some(id), Some(status_type)) => Some(StatusModel { id, status_type }),
        _ => None,
    }
}

/// The statuses of a union that may be absent; `None` where a status in it
/// fails.
pub open spec fn statuses_from_wire(wire: Option<WireStatusesModel>) -> Option<
    Option<StatusesModel>,
> {
    match wire {
        None => Some(None),
        Some(WireStatusesModel::SingleStatus(status)) => match status_from_wire(status) {
            Some(status) => Some(Some(StatusesModel::Single(status))),
            None => None,
        },
        Some(WireStatusesModel::MultipleStatus(list)) => if forall|i: int|
            0 <= i < list.len() ==> status_from_wire(#[trigger] list[i]) is Some {
            Some(
                Some(
                    StatusesModel::Multiple(
                        list.map_values(|status: WireStatusModel| status_from_wire(status).unwrap()),
                    ),
                ),
            )
        } else {
            None
        },
    }
}

/// The proof of its parts; `None` where the time of creation is absent or is
/// no instant.
pub open spec fn proof_from_wire(wire: WireProofModel) -> Option<ProofModel> {
    match wire.created {
        Some(created) => match instant_from_wire(created) {
            Some(created) => Some(
                ProofModel {
                    proof_type: wire.proof_type,
                    created,
                    cryptosuite: wire.cryptosuite,
                    proof_purpose: wire.proof_purpose,
                    proof_value: wire.proof_value,
                },
            ),
            None => None,
        },
        None => None,
    }
}

/// The proof of a part that may be absent; `None` where the part is there
/// and fails.
pub open spec fn optional_proof_from_wire(wire: Option<WireProofModel>) -> Option<
    Option<ProofModel>,
> {
    match wire {
        None => Some(None),
        Some(wire) => match proof_from_wire(wire) {
            Some(proof) => Some(Some(proof)),
            None => None,
        },
    }
}

/// The subject inside a payload; `None` where the payload is absent, is no
/// message of one text, or the text is no JSON.
pub open spec fn subject_from_wire(wire: Option<WireAnyModel>) -> Option<JsonModel> {
    match wire {
        Some(payload) => match string_message_text(payload.value) {
            Some(text) => json_parsed(text),
            None => None,
        },
        None => None,
    }
}

/// The credential that a message holds; `None` where a part that must be
/// there is absent, a union has no arm set, a text is no URL, a pair is no
/// instant, or the payload holds no subject.
pub open spec fn credential_from_wire(wire: WireCredentialModel) -> Option<CredentialModel> {
    match (
        urls_from_wire(wire.context),
        optional_url_from_wire(wire.vc_id),
        type_from_wire(wire.vc_type),
        url_serialization(wire.issuer),
    ) {
        (Some(context), Some(id), Some(vc_type), Some(issuer)) => match (
            optional_instant_from_wire(wire.valid_from),
            optional_instant_from_wire(wire.valid_until),
            statuses_from_wire(wire.credential_status),
            schemas_from_wire(wire.credential_schema),
        ) {
            (
                Some(valid_from),
                Some(valid_until),
                Some(credential_status),
                Some(credential_schema),
            ) => match (
                subject_from_wire(wire.credential_subject),
                optional_proof_from_wire(wire.proof),
            ) {
                (Some(credential_subject), Some(proof)) => Some(
                    CredentialModel {
                        context,
                        id,
                        vc_type,
                        name: wire.name,
                        description: wire.description,
                        issuer,
                        valid_from,
                        valid_until,
                        credential_status,
                        credential_schema,
                        credential_subject,
                        proof,
                    },
                ),
                _ => None,
            },
            _ => None,
        },
        _ => None,
    }
}

/// The credentials of a union; `None` where the union is absent or a
/// credential in it fails.
pub open spec fn credentials_from_wire(wire: Option<WireCredentialsModel>) -> Option<
    CredentialsModel,
> {
    match wire {
        Some(WireCredentialsModel::SingleVc(credential)) => match credential_from_wire(
            credential,
        ) {
            Some(credential) => Some(CredentialsModel::Single(credential)),
            None => None,
        },
        Some(WireCredentialsModel::MultipleVc(list)) => if forall|i: int|
            0 <= i < list.len() ==> credential_from_wire(#[trigger] list[i]) is Some {
            Some(
                CredentialsModel::Multiple(
                    list.map_values(
                        |credential: WireCredentialModel| credential_from_wire(credential).unwrap(),
                    ),
                ),
            )
        } else {
            None
        },
        None => None,
    }
}

/// The presentation that a message holds; `None` where a part of it fails.
pub open spec fn presentation_from_wire(wire: WirePresentationModel) -> Option<
    PresentationModel,
> {
    match (
        optional_url_from_wire(wire.vp_id),
        type_from_wire(wire.vp_type),
        credentials_from_wire(wire.verifiable_credential),
        optional_url_from_wire(wire.holder),
        optional_proof_from_wire(wire.proof),
    ) {
        (Some(id), Some(vp_type), Some(verifiable_credential), Some(holder), Some(proof)) => Some(
            PresentationModel { id, vp_type, verifiable_credential, holder, proof },
        ),
        _ => None,
    }
}

/// The subject passes through its payload unchanged: it reads back from its
/// own text, and the text from its own message.
pub open spec fn portable_subject(subject: JsonModel) -> bool {
    &&& subject.canonical()
    &&& string_message_text(string_message(json_text(subject))) == Some(json_text(subject))
}

impl CredentialModel {
    /// The credential is well formed and its subject passes through the
    /// payload unchanged.
    pub open spec fn portable(self) -> bool {
        self.wf() && portable_subject(self.credential_subject)
    }
}

impl CredentialsModel {
    /// Every credential is portable.
    pub open spec fn portable(self) -> bool {
        match self {
            CredentialsModel::Single(credential) => credential.portable(),
            CredentialsModel::Multiple(credentials) => forall|i: int|
                0 <= i < credentials.len() ==> (#[trigger] credentials[i]).portable(),
        }
    }
}

impl PresentationModel {
    /// The presentation is well formed and each of its credentials portable.
    pub open spec fn portable(self) -> bool {
        self.wf() && self.verifiable_credential.portable()
    }
}

/// An instant comes back from its seconds and nanoseconds.
pub proof fn lemma_instant_round_trip(instant: Instant)
    requires
        instant.wf(),
    ensures
        instant_from_wire(instant_to_wire(instant)) == Some(instant),
{
}

/// Decoding the parts that a credential was encoded to gives the credential
/// back, with the arm of each of its unions as it was.
pub proof fn lemma_credential_round_trip(credential: CredentialModel)
    requires
        credential.portable(),
    ensures
        credential_from_wire(credential_to_wire(credential)) == Some(credential),
{
    let wire = credential_to_wire(credential);
    assert(urls_from_wire(wire.context) == Some(credential.context)) by {
        assert(wire.context.map_values(|text: Seq<char>| url_serialization(text).unwrap())
            =~= credential.context);
    }
    lemma_schemas_round_trip(credential.credential_schema);
    if let Some(statuses) = credential.credential_status {
        lemma_statuses_round_trip(statuses);
    }
    if let Some(from) = credential.valid_from {
        lemma_instant_round_trip(from);
    }
    if let Some(until) = credential.valid_until {
        lemma_instant_round_trip(until);
    }
    if let Some(attached) = credential.proof {
        lemma_instant_round_trip(attached.created);
    }
}

/// Schema references come back from their parts.
pub proof fn lemma_schemas_round_trip(schemas: SchemasModel)
    requires
        schemas.wf(),
    ensures
        schemas_from_wire(Some(schemas_to_wire(schemas))) == Some(schemas),
{
    match schemas {
        SchemasModel::Single(schema) => {},
        SchemasModel::Multiple(list) => {
            let wire = list.map_values(|schema: SchemaModel| schema_to_wire(schema));
            assert forall|i: int| 0 <= i < wire.len() implies schema_from_wire(
                #[trigger] wire[i],
            ) == Some(list[i]) by {
                assert(list[i].wf());
            }
            assert(wire.map_values(|schema: WireSchemaModel| schema_from_wire(schema).unwrap())
                =~= list);
        },
    }
}

/// Statuses come back from their parts.
pub proof fn lemma_statuses_round_trip(statuses: StatusesModel)
    requires
        statuses.wf(),
    ensures
        statuses_from_wire(Some(statuses_to_wire(statuses))) == Some(Some(statuses)),
{
    match statuses {
        StatusesModel::Single(status) => {},
        StatusesModel::Multiple(list) => {
            let wire = list.map_values(|status: StatusModel| status_to_wire(status));
            assert forall|i: int| 0 <= i < wire.len() implies status_from_wire(
                #[trigger] wire[i],
            ) == Some(list[i]) by {
                assert(list[i].wf());
            }
            assert(wire.map_values(|status: WireStatusModel| status_from_wire(status).unwrap())
                =~= list);
        },
    }
}

/// Decoding the parts that a presentation was encoded to gives the
/// presentation back.
pub proof fn lemma_presentation_round_trip(presentation: PresentationModel)
    requires
        presentation.portable(),
    ensures
        presentation_from_wire(presentation_to_wire(presentation)) == Some(presentation),
{
    match presentation.verifiable_credential {
        CredentialsModel::Single(credential) => {
            lemma_credential_round_trip(credential);
        },
        CredentialsModel::Multiple(list) => {
            let wire = list.map_values(
                |credential: CredentialModel| credential_to_wire(credential),
            );
            assert forall|i: int| 0 <= i < wire.len() implies credential_from_wire(
                #[trigger] wire[i],
            ) == Some(list[i]) by {
                assert(list[i].portable());
                lemma_credential_round_trip(list[i]);
            }
            assert(wire.map_values(
                |credential: WireCredentialModel| credential_from_wire(credential).unwrap(),
            ) =~= list);
        },
    }
    if let Some(attached) = presentation.proof {
        lemma_instant_round_trip(attached.created);
    }
}

/// A `DecodeError` with the given text.
pub fn decode_error(text: &str) -> (error: Error)
    ensures
        error.failure() == Failure::DecodeError,
        error.detail() == text@,
{
    Error::DecodeError(String::from_str(text))
}

/// Parses a text of the message as a URL.
pub fn url_from_text(text: &str) -> (outcome: Result<Url, Error>)
    ensures
        match outcome {
            Ok(url) => url_serialization(text@) == Some(url@) && is_url(url@),
            Err(error) => url_serialization(text@) is None && error.failure()
                == Failure::DecodeError,
        },
{
    match Url::parse(text) {
        Ok(url) => Ok(url),
        Err(error) => Err(Error::DecodeError(error.message())),
    }
}

/// Parses a text of the message that may be absent as a URL.
pub fn optional_url_from_text(text: &Option<String>) -> (outcome: Result<Option<Url>, Error>)
    ensures
        match outcome {
            Ok(url) => optional_url_from_wire(text.deep_view()) == Some(url.deep_view()) && (
            url matches Some(u) ==> is_url(u@)),
            Err(error) => optional_url_from_wire(text.deep_view()) is None && error.failure()
                == Failure::DecodeError,
        },
{
    match text {
        None => Ok(None),
        Some(text) => match url_from_text(text.as_str()) {
            Ok(url) => Ok(Some(url)),
            Err(error) => Err(error),
        },
    }
}

/// Parses each text of a list as a URL.
pub fn urls_from_texts(texts: &Vec<String>) -> (outcome: Result<Vec<Url>, Error>)
    ensures
        match outcome {
            Ok(urls) => urls_from_wire(texts.deep_view()) == Some(urls.deep_view()) && forall|
                i: int,
            | 0 <= i < urls.len() ==> is_url(#[trigger] urls.deep_view()[i]),
            Err(error) => urls_from_wire(texts.deep_view()) is None && error.failure()
                == Failure::DecodeError,
        },
{
    let mut urls: Vec<Url> = Vec::new();
    let mut i: usize = 0;
    while i < texts.len()
        invariant
            i <= texts.len(),
            urls.len() == i,
            forall|j: int|
                0 <= j < i ==> url_serialization(texts[j]@) == Some((#[trigger] urls[j])@)
                    && is_url(urls[j]@),
        decreases texts.len() - i,
    {
        match url_from_text(texts[i].as_str()) {
            Ok(url) => {
                urls.push(url);
            },
            Err(error) => {
                assert(url_serialization(texts.deep_view()[i as int]) is None);
                return Err(error);
            },
        }
        i += 1;
    }
    proof {
        assert forall|k: int| 0 <= k < texts.len() implies url_serialization(
            #[trigger] texts.deep_view()[k],
        ) is Some by {
            assert(urls[k]@ == urls[k]@);
        }
        assert(texts.deep_view().map_values(|text: Seq<char>| url_serialization(text).unwrap())
            =~= urls.deep_view()) by {
            assert forall|k: int| 0 <= k < texts.len() implies url_serialization(
                texts.deep_view()[k],
            ).unwrap() == urls.deep_view()[k] by {
                assert(urls[k]@ == urls[k]@);
            }
        }
        assert forall|k: int| 0 <= k < urls.len() implies is_url(
            #[trigger] urls.deep_view()[k],
        ) by {
            assert(urls[k]@ == urls[k]@);
        }
    }
    Ok(urls)
}

impl TypeEnum {
    /// The type that a union holds. Fails where the union is absent or has no
    /// arm set.
    pub fn from_wire(wire: &Option<WireType>) -> (outcome: Result<TypeEnum, Error>)
        ensures
            match outcome {
                Ok(kind) => type_from_wire(wire.deep_view()) == Some(kind@),
                Err(error) => type_from_wire(wire.deep_view()) is None && error.failure()
                    == Failure::DecodeError,
            },
    {
        match wire {
            Some(WireType { oneof_type: Some(WireTypeArm::SingleType(name)) }) => Ok(
                TypeEnum::Single(name.clone()),
            ),
            Some(WireType { oneof_type: Some(WireTypeArm::MultipleType(names)) }) => Ok(
                TypeEnum::Multiple(copy_texts(names)),
            ),
            _ => Err(decode_error("Error in type: no arm of the union is set")),
        }
    }
}

impl Timestamp {
    /// The instant of a pair of seconds and nanoseconds. Fails where the
    /// nanoseconds are negative or there is no such instant.
    pub fn from_wire(wire: &WireTimestamp) -> (outcome: Result<Timestamp, Error>)
        ensures
            match outcome {
                Ok(stamp) => instant_from_wire(wire.deep_view()) == Some(stamp@) && stamp@.wf(),
                Err(error) => instant_from_wire(wire.deep_view()) is None && error.failure()
                    == Failure::DecodeError,
            },
    {
        if wire.nanos < 0 {
            return Err(decode_error("Error in timestamp: negative nanoseconds"));
        }
        match Timestamp::new(wire.seconds, wire.nanos as u32) {
            Some(stamp) => Ok(stamp),
            None => Err(decode_error("Error in timestamp: no such instant")),
        }
    }
}

/// The instant of a part that may be absent.
pub fn optional_timestamp_from_wire(wire: &Option<WireTimestamp>) -> (outcome: Result<
    Option<Timestamp>,
    Error,
>)
    ensures
        match outcome {
            Ok(stamp) => optional_instant_from_wire(wire.deep_view()) == Some(stamp.deep_view())
                && (stamp matches Some(s) ==> s@.wf()),
            Err(error) => optional_instant_from_wire(wire.deep_view()) is None && error.failure()
                == Failure::DecodeError,
        },
{
    match wire {
        None => Ok(None),
        Some(wire) => match Timestamp::from_wire(wire) {
            Ok(stamp) => Ok(Some(stamp)),
            Err(error) => Err(error),
        },
    }
}

impl CredentialSchema {
    /// The schema reference of its parts. Fails where the identifier is no URL.
    pub fn from_wire(wire: &WireSchema) -> (outcome: Result<CredentialSchema, Error>)
        ensures
            match outcome {
                Ok(schema) => schema_from_wire(wire.deep_view()) == Some(schema@) && schema@.wf(),
                Err(error) => schema_from_wire(wire.deep_view()) is None && error.failure()
                    == Failure::DecodeError,
            },
    {
        match url_from_text(wire.schema_id.as_str()) {
            Ok(id) => Ok(CredentialSchema { id, credential_type: wire.schema_type.clone() }),
            Err(error) => Err(error),
        }
    }
}

impl SchemaEnum {
    /// The schema references of a union. Fails where the union is absent or a
    /// reference in it fails.
    pub fn from_wire(wire: &Option<WireSchemas>) -> (outcome: Result<SchemaEnum, Error>)
        ensures
            match outcome {
                Ok(schemas) => schemas_from_wire(wire.deep_view()) == Some(schemas@)
                    && schemas@.wf(),
                Err(error) => schemas_from_wire(wire.deep_view()) is None && error.failure()
                    == Failure::DecodeError,
            },
    {
        match wire {
            Some(WireSchemas::SingleSchema(schema)) => match CredentialSchema::from_wire(schema) {
                Ok(schema) => Ok(SchemaEnum::Single(schema)),
                Err(error) => Err(error),
            },
            Some(WireSchemas::MultipleSchema(list)) => {
                let ghost models = list.deep_view();
                let mut schemas: Vec<CredentialSchema> = Vec::new();
                let mut i: usize = 0;
                while i < list.len()
                    invariant
                        i <= list.len(),
                        schemas.len() == i,
                        models == list.deep_view(),
                        wire.deep_view() == Some(WireSchemasModel::MultipleSchema(models)),
                        forall|j: int|
                            0 <= j < i ==> #[trigger] schema_from_wire(models[j]) == Some(
                                schemas[j]@,
                            ),
                        forall|j: int| 0 <= j < i ==> (#[trigger] schemas[j])@.wf(),
                    decreases list.len() - i,
                {
                    assert(list[i as int].deep_view() == models[i as int]);
                    match CredentialSchema::from_wire(&list[i]) {
                        Ok(schema) => {
                            schemas.push(schema);
                        },
                        Err(error) => {
                            assert(schema_from_wire(models[i as int]) is None);
                            return Err(error);
                        },
                    }
                    i += 1;
                }
                proof {
                    assert(models.map_values(
                        |schema: WireSchemaModel| schema_from_wire(schema).unwrap(),
                    ) =~= schemas.deep_view());
                    assert forall|k: int| 0 <= k < schemas.len() implies (
                    #[trigger] schemas.deep_view()[k]).wf() by {
                        assert(schemas[k]@ == schemas[k]@);
                    }
                }
                Ok(SchemaEnum::Multiple(schemas))
            },
            None => Err(decode_error("Error in credential schema: the union is not set")),
        }
    }
}

impl CredentialStatus {
    /// The status of its parts. Fails where the identifier is no URL or the
    /// type has no arm set.
    pub fn from_wire(wire: &WireStatus) -> (outcome: Result<CredentialStatus, Error>)
        ensures
            match outcome {
                Ok(status) => status_from_wire(wire.deep_view()) == Some(status@) && status@.wf(),
                Err(error) => status_from_wire(wire.deep_view()) is None && error.failure()
                    == Failure::DecodeError,
            },
    {
        let id = match optional_url_from_text(&wire.status_id) {
            Ok(id) => id,
            Err(error) => {
                return Err(error);
            },
        };
        match TypeEnum::from_wire(&wire.status_type) {
            Ok(status_type) => Ok(CredentialStatus { id, status_type }),
            Err(error) => Err(error),
        }
    }
}

impl StatusEnum {
    /// The statuses of a union that may be absent. Fails where a status in
    /// it fails.
    pub fn from_wire(wire: &Option<WireStatuses>) -> (outcome: Result<Option<StatusEnum>, Error>)
        ensures
            match outcome {
                Ok(statuses) => statuses_from_wire(wire.deep_view()) == Some(statuses.deep_view())
                    && (statuses matches Some(s) ==> s@.wf()),
                Err(error) => statuses_from_wire(wire.deep_view()) is None && error.failure()
                    == Failure::DecodeError,
            },
    {
        match wire {
            None => Ok(None),
            Some(WireStatuses::SingleStatus(status)) => match CredentialStatus::from_wire(status) {
                Ok(status) => Ok(Some(StatusEnum::Single(status))),
                Err(error) => Err(error),
            },
            Some(WireStatuses::MultipleStatus(list)) => {
                let ghost models = list.deep_view();
                let mut statuses: Vec<CredentialStatus> = Vec::new();
                let mut i: usize = 0;
                while i < list.len()
                    invariant
                        i <= list.len(),
                        statuses.len() == i,
                        models == list.deep_view(),
                        wire.deep_view() == Some(WireStatusesModel::MultipleStatus(models)),
                        forall|j: int|
                            0 <= j < i ==> #[trigger] status_from_wire(models[j]) == Some(
                                statuses[j]@,
                            ),
                        forall|j: int| 0 <= j < i ==> (#[trigger] statuses[j])@.wf(),
                    decreases list.len() - i,
                {
                    assert(list[i as int].deep_view() == models[i as int]);
                    match CredentialStatus::from_wire(&list[i]) {
                        Ok(status) => {
                            statuses.push(status);
                        },
                        Err(error) => {
                            assert(status_from_wire(models[i as int]) is None);
                            return Err(error);
                        },
                    }
                    i += 1;
                }
                proof {
                    assert(models.map_values(
                        |status: WireStatusModel| status_from_wire(status).unwrap(),
                    ) =~= statuses.deep_view());
                    assert forall|k: int| 0 <= k < statuses.len() implies (
                    #[trigger] statuses.deep_view()[k]).wf() by {
                        assert(statuses[k]@ == statuses[k]@);
                    }
                }
                Ok(Some(StatusEnum::Multiple(statuses)))
            },
        }
    }
}

impl Proof {
    /// The proof of its parts. Fails where the time of creation is absent or
    /// is no instant.
    pub fn from_wire(wire: &WireProof) -> (outcome: Result<Proof, Error>)
        ensures
            match outcome {
                Ok(made) => proof_from_wire(wire.deep_view()) == Some(made@) && made@.wf(),
                Err(error) => proof_from_wire(wire.deep_view()) is None && error.failure()
                    == Failure::DecodeError,
            },
    {
        match &wire.created {
            Some(created) => match Timestamp::from_wire(created) {
                Ok(created) => Ok(
                    Proof {
                        proof_type: wire.proof_type.clone(),
                        created,
                        cryptosuite: wire.cryptosuite.clone(),
                        proof_purpose: wire.proof_purpose.clone(),
                        proof_value: wire.proof_value.clone(),
                    },
                ),
                Err(error) => Err(error),
            },
            None => Err(decode_error("Error in proof: the time of creation is not set")),
        }
    }
}

/// The proof of a part that may be absent.
pub fn optional_proof_from_wire_parts(wire: &Option<WireProof>) -> (outcome: Result<
    Option<Proof>,
    Error,
>)
    ensures
        match outcome {
            Ok(made) => optional_proof_from_wire(wire.deep_view()) == Some(made.deep_view()) && (
            made matches Some(p) ==> p@.wf()),
            Err(error) => optional_proof_from_wire(wire.deep_view()) is None && error.failure()
                == Failure::DecodeError,
        },
{
    match wire {
        None => Ok(None),
        Some(wire) => match Proof::from_wire(wire) {
            Ok(made) => Ok(Some(made)),
            Err(error) => Err(error),
        },
    }
}

/// The subject inside a payload. Fails where the payload is absent, is no
/// message of one text, or the text is no JSON.
pub fn subject_from_wire_parts(wire: &Option<WireAny>) -> (outcome: Result<JsonValue, Error>)
    ensures
        match outcome {
            Ok(subject) => subject_from_wire(wire.deep_view()) == Some(subject@),
            Err(error) => subject_from_wire(wire.deep_view()) is None && error.failure()
                == Failure::DecodeError,
        },
{
    match wire {
        Some(payload) => match decode_text_outside(payload.value.as_slice()) {
            Ok(text) => match JsonValue::parse(text.as_str()) {
                Ok(subject) => Ok(subject),
                Err(error) => Err(Error::DecodeError(error.message())),
            },
            Err(reason) => Err(Error::DecodeError(reason)),
        },
        None => Err(decode_error("Error in credential subject: the payload is not set")),
    }
}

impl VerifiableCredential {
    /// The credential that a message holds. Fails with `DecodeError` where a
    /// part that must be there is absent, a union has no arm set, a text is
    /// no URL, a pair is no instant, or the payload holds no subject.
    pub fn from_wire(wire: &WireCredential) -> (outcome: Result<VerifiableCredential, Error>)
        ensures
            match outcome {
                Ok(credential) => credential_from_wire(wire.deep_view()) == Some(credential@)
                    && credential@.wf(),
                Err(error) => credential_from_wire(wire.deep_view()) is None && error.failure()
                    == Failure::DecodeError,
            },
    {
        let context = match urls_from_texts(&wire.context) {
            Ok(context) => context,
            Err(error) => {
                return Err(error);
            },
        };
        let id = match optional_url_from_text(&wire.vc_id) {
            Ok(id) => id,
            Err(error) => {
                return Err(error);
            },
        };
        let vc_type = match TypeEnum::from_wire(&wire.vc_type) {
            Ok(vc_type) => vc_type,
            Err(error) => {
                return Err(error);
            },
        };
        let issuer = match url_from_text(wire.issuer.as_str()) {
            Ok(issuer) => issuer,
            Err(error) => {
                return Err(error);
            },
        };
        let valid_from = match optional_timestamp_from_wire(&wire.valid_from) {
            Ok(valid_from) => valid_from,
            Err(error) => {
                return Err(error);
            },
        };
        let valid_until = match optional_timestamp_from_wire(&wire.valid_until) {
            Ok(valid_until) => valid_until,
            Err(error) => {
                return Err(error);
            },
        };
        let credential_status = match StatusEnum::from_wire(&wire.credential_status) {
            Ok(credential_status) => credential_status,
            Err(error) => {
                return Err(error);
            },
        };
        let credential_schema = match SchemaEnum::from_wire(&wire.credential_schema) {
            Ok(credential_schema) => credential_schema,
            Err(error) => {
                return Err(error);
            },
        };
        let credential_subject = match subject_from_wire_parts(&wire.credential_subject) {
            Ok(credential_subject) => credential_subject,
            Err(error) => {
                return Err(error);
            },
        };
        let attached = match optional_proof_from_wire_parts(&wire.proof) {
            Ok(attached) => attached,
            Err(error) => {
                return Err(error);
            },
        };
        Ok(
            VerifiableCredential {
                context,
                id,
                vc_type,
                name: copy_optional_text(&wire.name),
                description: copy_optional_text(&wire.description),
                issuer,
                valid_from,
                valid_until,
                credential_status,
                credential_schema,
                credential_subject,
                proof: attached,
            },
        )
    }
}

impl VerifiableCredentialEnum {
    /// The credentials, one or a list as they are.
    pub fn to_wire(&self) -> (wire: WireCredentials)
        ensures
            wire.deep_view() == credentials_to_wire(self@),
            self@.wf(),
            self@.canonical() ==> self@.portable(),
    {
        match self {
            VerifiableCredentialEnum::Single(credential) => WireCredentials::SingleVc(
                credential.to_wire(),
            ),
            VerifiableCredentialEnum::Multiple(credentials) => {
                let mut list: Vec<WireCredential> = Vec::new();
                let mut i: usize = 0;
                while i < credentials.len()
                    invariant
                        i <= credentials.len(),
                        list.len() == i,
                        forall|j: int|
                            0 <= j < i ==> (#[trigger] list[j]).deep_view() == credential_to_wire(
                                credentials[j]@,
                            ),
                        forall|j: int| 0 <= j < i ==> (#[trigger] credentials[j])@.wf(),
                        forall|j: int|
                            0 <= j < i ==> (#[trigger] credentials[j])@.credential_subject.canonical()
                                ==> credentials[j]@.portable(),
                    decreases credentials.len() - i,
                {
                    list.push(credentials[i].to_wire());
                    i += 1;
                }
                assert(list.deep_view() =~= credentials.deep_view().map_values(
                    |credential: CredentialModel| credential_to_wire(credential),
                ));
                assert forall|k: int| 0 <= k < credentials.len() implies (
                #[trigger] credentials.deep_view()[k]).wf() by {
                    assert(credentials.deep_view()[k] == credentials[k]@);
                }
                assert forall|k: int|
                    0 <= k < credentials.len() && self@.canonical() implies (
                #[trigger] credentials.deep_view()[k]).portable() by {
                    assert(credentials.deep_view()[k] == credentials[k]@);
                    assert(credentials.deep_view()[k].credential_subject.canonical());
                }
                WireCredentials::MultipleVc(list)
            },
        }
    }

    /// The credentials of a union. Fails where the union is absent or a
    /// credential in it fails.
    pub fn from_wire(wire: &Option<WireCredentials>) -> (outcome: Result<
        VerifiableCredentialEnum,
        Error,
    >)
        ensures
            match outcome {
                Ok(credentials) => credentials_from_wire(wire.deep_view()) == Some(credentials@)
                    && credentials@.wf(),
                Err(error) => credentials_from_wire(wire.deep_view()) is None && error.failure()
                    == Failure::DecodeError,
            },
    {
        match wire {
            Some(WireCredentials::SingleVc(credential)) => match VerifiableCredential::from_wire(
                credential,
            ) {
                Ok(credential) => Ok(VerifiableCredentialEnum::Single(credential)),
                Err(error) => Err(error),
            },
            Some(WireCredentials::MultipleVc(list)) => {
                let ghost models = list.deep_view();
                let mut credentials: Vec<VerifiableCredential> = Vec::new();
                let mut i: usize = 0;
                while i < list.len()
                    invariant
                        i <= list.len(),
                        credentials.len() == i,
                        models == list.deep_view(),
                        wire.deep_view() == Some(WireCredentialsModel::MultipleVc(models)),
                        forall|j: int|
                            0 <= j < i ==> #[trigger] credential_from_wire(models[j]) == Some(
                                credentials[j]@,
                            ),
                        forall|j: int| 0 <= j < i ==> (#[trigger] credentials[j])@.wf(),
                    decreases list.len() - i,
                {
                    assert(list[i as int].deep_view() == models[i as int]);
                    match VerifiableCredential::from_wire(&list[i]) {
                        Ok(credential) => {
                            credentials.push(credential);
                        },
                        Err(error) => {
                            assert(credential_from_wire(models[i as int]) is None);
                            return Err(error);
                        },
                    }
                    i += 1;
                }
                proof {
                    assert(models.map_values(
                        |credential: WireCredentialModel| credential_from_wire(credential).unwrap(),
                    ) =~= credentials.deep_view());
                    assert forall|k: int| 0 <= k < credentials.len() implies (
                    #[trigger] credentials.deep_view()[k]).wf() by {
                        assert(credentials[k]@ == credentials[k]@);
                    }
                }
                Ok(VerifiableCredentialEnum::Multiple(credentials))
            },
            None => Err(decode_error("Error in presentation: no credential is set")),
        }
    }
}

impl VerifiablePresentation {
    /// The presentation as the message holds it. Where the subject of each
    /// of its credentials is canonical, decoding what comes out gives the
    /// presentation back.
    pub fn to_wire(&self) -> (wire: WirePresentation)
        ensures
            wire.deep_view() == presentation_to_wire(self@),
            self@.wf(),
            self@.verifiable_credential.canonical() ==> self@.portable()
                && presentation_from_wire(wire.deep_view()) == Some(self@),
    {
        let wire = WirePresentation {
            vp_id: text_of_optional_url(&self.id),
            vp_type: Some(self.vp_type.to_wire()),
            verifiable_credential: Some(self.verifiable_credential.to_wire()),
            holder: text_of_optional_url(&self.holder),
            proof: optional_proof_to_wire_parts(&self.proof),
        };
        proof {
            if self@.verifiable_credential.canonical() {
                lemma_presentation_round_trip(self@);
            }
        }
        wire
    }

    /// The presentation that a message holds. Fails with `DecodeError` where
    /// a part of it fails.
    pub fn from_wire(wire: &WirePresentation) -> (outcome: Result<VerifiablePresentation, Error>)
        ensures
            match outcome {
                Ok(presentation) => presentation_from_wire(wire.deep_view()) == Some(
                    presentation@,
                ) && presentation@.wf(),
                Err(error) => presentation_from_wire(wire.deep_view()) is None && error.failure()
                    == Failure::DecodeError,
            },
    {
        let id = match optional_url_from_text(&wire.vp_id) {
            Ok(id) => id,
            Err(error) => {
                return Err(error);
            },
        };
        let vp_type = match TypeEnum::from_wire(&wire.vp_type) {
            Ok(vp_type) => vp_type,
            Err(error) => {
                return Err(error);
            },
        };
        let verifiable_credential = match VerifiableCredentialEnum::from_wire(
            &wire.verifiable_credential,
        ) {
            Ok(verifiable_credential) => verifiable_credential,
            Err(error) => {
                return Err(error);
            },
        };
        let holder = match optional_url_from_text(&wire.holder) {
            Ok(holder) => holder,
            Err(error) => {
                return Err(error);
            },
        };
        let attached = match optional_proof_from_wire_parts(&wire.proof) {
            Ok(attached) => attached,
            Err(error) => {
                return Err(error);
            },
        };
        Ok(VerifiablePresentation { id, vp_type, verifiable_credential, holder, proof: attached })
    }
}

} // verus!
