//! The documents: credentials, presentations, proofs, and the fields that
//! hold either one value or a list of values.
//!
//! Each type has a mathematical value, reached with `@`, over which the
//! contracts of the library are stated.

use vstd::prelude::*;
use crate::json::{JsonModel, JsonValue};
use crate::time::{Instant, Timestamp};
use crate::uri::{is_url, Url};

verus! {

/// One text or a list of texts. The two are different values: a list of one
/// text is not that text.
#[derive(Clone, Debug)]
pub enum TypeEnum {
    Single(String),
    Multiple(Vec<String>),
}

/// The mathematical value of a [`TypeEnum`].
pub ghost enum TypeModel {
    Single(Seq<char>),
    Multiple(Seq<Seq<char>>),
}

impl DeepView for TypeEnum {
    type V = TypeModel;

    open spec fn deep_view(&self) -> TypeModel {
        match self {
            TypeEnum::Single(name) => TypeModel::Single(name@),
            TypeEnum::Multiple(names) => TypeModel::Multiple(names.deep_view()),
        }
    }
}

impl View for TypeEnum {
    type V = TypeModel;

    open spec fn view(&self) -> TypeModel {
        self.deep_view()
    }
}

/// Where the status of a credential can be looked up.
#[derive(Clone, Debug)]
pub struct CredentialStatus {
    pub id: Option<Url>,
    pub status_type: TypeEnum,
}

/// The mathematical value of a [`CredentialStatus`].
pub ghost struct StatusModel {
    pub id: Option<Seq<char>>,
    pub status_type: TypeModel,
}

impl StatusModel {
    /// The identifier, where there is one, is a URL.
    pub open spec fn wf(self) -> bool {
        self.id matches Some(id) ==> is_url(id)
    }
}

impl DeepView for CredentialStatus {
    type V = StatusModel;

    open spec fn deep_view(&self) -> StatusModel {
        StatusModel { id: self.id.deep_view(), status_type: self.status_type@ }
    }
}

impl View for CredentialStatus {
    type V = StatusModel;

    open spec fn view(&self) -> StatusModel {
        self.deep_view()
    }
}

/// One status or a list of them.
#[derive(Clone, Debug)]
pub enum StatusEnum {
    Single(CredentialStatus),
    Multiple(Vec<CredentialStatus>),
}

/// The mathematical value of a [`StatusEnum`].
pub ghost enum StatusesModel {
    Single(StatusModel),
    Multiple(Seq<StatusModel>),
}

impl StatusesModel {
    /// Every status is well formed.
    pub open spec fn wf(self) -> bool {
        match self {
            StatusesModel::Single(status) => status.wf(),
            StatusesModel::Multiple(statuses) => forall|i: int|
                0 <= i < statuses.len() ==> (#[trigger] statuses[i]).wf(),
        }
    }
}

impl DeepView for StatusEnum {
    type V = StatusesModel;

    open spec fn deep_view(&self) -> StatusesModel {
        match self {
            StatusEnum::Single(status) => StatusesModel::Single(status@),
            StatusEnum::Multiple(statuses) => StatusesModel::Multiple(statuses.deep_view()),
        }
    }
}

impl View for StatusEnum {
    type V = StatusesModel;

    open spec fn view(&self) -> StatusesModel {
        self.deep_view()
    }
}

/// The schema that the subject of a credential is checked against.
#[derive(Clone, Debug)]
pub struct CredentialSchema {
    pub id: Url,
    pub credential_type: String,
}

/// The mathematical value of a [`CredentialSchema`].
pub ghost struct SchemaModel {
    pub id: Seq<char>,
    pub credential_type: Seq<char>,
}

impl SchemaModel {
    /// The identifier is a URL.
    pub open spec fn wf(self) -> bool {
        is_url(self.id)
    }
}

impl DeepView for CredentialSchema {
    type V = SchemaModel;

    open spec fn deep_view(&self) -> SchemaModel {
        SchemaModel { id: self.id@, credential_type: self.credential_type@ }
    }
}

impl View for CredentialSchema {
    type V = SchemaModel;

    open spec fn view(&self) -> SchemaModel {
        self.deep_view()
    }
}

/// One schema reference or a list of them.
#[derive(Clone, Debug)]
pub enum SchemaEnum {
    Single(CredentialSchema),
    Multiple(Vec<CredentialSchema>),
}

/// The mathematical value of a [`SchemaEnum`].
pub ghost enum SchemasModel {
    Single(SchemaModel),
    Multiple(Seq<SchemaModel>),
}

impl SchemasModel {
    /// Every schema reference is well formed.
    pub open spec fn wf(self) -> bool {
        match self {
            SchemasModel::Single(schema) => schema.wf(),
            SchemasModel::Multiple(schemas) => forall|i: int|
                0 <= i < schemas.len() ==> (#[trigger] schemas[i]).wf(),
        }
    }
}

impl DeepView for SchemaEnum {
    type V = SchemasModel;

    open spec fn deep_view(&self) -> SchemasModel {
        match self {
            SchemaEnum::Single(schema) => SchemasModel::Single(schema@),
            SchemaEnum::Multiple(schemas) => SchemasModel::Multiple(schemas.deep_view()),
        }
    }
}

impl View for SchemaEnum {
    type V = SchemasModel;

    open spec fn view(&self) -> SchemasModel {
        self.deep_view()
    }
}

/// The attestation attached to a signed document. The value is the
/// signature in base64.
#[derive(Clone, Debug)]
pub struct Proof {
    pub proof_type: String,
    pub created: Timestamp,
    pub cryptosuite: String,
    pub proof_purpose: String,
    pub proof_value: String,
}

/// The mathematical value of a [`Proof`].
pub ghost struct ProofModel {
    pub proof_type: Seq<char>,
    pub created: Instant,
    pub cryptosuite: Seq<char>,
    pub proof_purpose: Seq<char>,
    pub proof_value: Seq<char>,
}

impl ProofModel {
    /// The time of creation is an instant.
    pub open spec fn wf(self) -> bool {
        self.created.wf()
    }
}

impl DeepView for Proof {
    type V = ProofModel;

    open spec fn deep_view(&self) -> ProofModel {
        ProofModel {
            proof_type: self.proof_type@,
            created: self.created@,
            cryptosuite: self.cryptosuite@,
            proof_purpose: self.proof_purpose@,
            proof_value: self.proof_value@,
        }
    }
}

impl View for Proof {
    type V = ProofModel;

    open spec fn view(&self) -> ProofModel {
        self.deep_view()
    }
}

/// A credential: claims about a subject, made by an issuer.
#[derive(Clone, Debug)]
pub struct VerifiableCredential {
    pub context: Vec<Url>,
    pub id: Option<Url>,
    pub vc_type: TypeEnum,
    pub name: Option<String>,
    pub description: Option<String>,
    pub issuer: Url,
    pub valid_from: Option<Timestamp>,
    pub valid_until: Option<Timestamp>,
    pub credential_status: Option<StatusEnum>,
    pub credential_schema: SchemaEnum,
    pub credential_subject: JsonValue,
    pub proof: Option<Proof>,
}

/// The mathematical value of a [`VerifiableCredential`].
pub ghost struct CredentialModel {
    pub context: Seq<Seq<char>>,
    pub id: Option<Seq<char>>,
    pub vc_type: TypeModel,
    pub name: Option<Seq<char>>,
    pub description: Option<Seq<char>>,
    pub issuer: Seq<char>,
    pub valid_from: Option<Instant>,
    pub valid_until: Option<Instant>,
    pub credential_status: Option<StatusesModel>,
    pub credential_schema: SchemasModel,
    pub credential_subject: JsonModel,
    pub proof: Option<ProofModel>,
}

impl CredentialModel {
    /// Every identifier is a URL and every time an instant. This holds of the
    /// value of every [`VerifiableCredential`].
    pub open spec fn wf(self) -> bool {
        &&& forall|i: int| 0 <= i < self.context.len() ==> is_url(#[trigger] self.context[i])
        &&& self.id matches Some(id) ==> is_url(id)
        &&& is_url(self.issuer)
        &&& self.valid_from matches Some(from) ==> from.wf()
        &&& self.valid_until matches Some(until) ==> until.wf()
        &&& self.credential_status matches Some(statuses) ==> statuses.wf()
        &&& self.credential_schema.wf()
        &&& self.proof matches Some(proof) ==> proof.wf()
    }

    /// The credential without its proof.
    pub open spec fn unsigned(self) -> CredentialModel {
        CredentialModel { proof: None, ..self }
    }
}

impl DeepView for VerifiableCredential {
    type V = CredentialModel;

    open spec fn deep_view(&self) -> CredentialModel {
        CredentialModel {
            context: self.context.deep_view(),
            id: self.id.deep_view(),
            vc_type: self.vc_type@,
            name: self.name.deep_view(),
            description: self.description.deep_view(),
            issuer: self.issuer@,
            valid_from: self.valid_from.deep_view(),
            valid_until: self.valid_until.deep_view(),
            credential_status: self.credential_status.deep_view(),
            credential_schema: self.credential_schema@,
            credential_subject: self.credential_subject@,
            proof: self.proof.deep_view(),
        }
    }
}

impl View for VerifiableCredential {
    type V = CredentialModel;

    open spec fn view(&self) -> CredentialModel {
        self.deep_view()
    }
}

/// One credential or a list of them.
#[derive(Clone, Debug)]
pub enum VerifiableCredentialEnum {
    Single(VerifiableCredential),
    Multiple(Vec<VerifiableCredential>),
}

/// The mathematical value of a [`VerifiableCredentialEnum`].
pub ghost enum CredentialsModel {
    Single(CredentialModel),
    Multiple(Seq<CredentialModel>),
}

impl CredentialsModel {
    /// The subject of every credential is canonical.
    pub open spec fn canonical(self) -> bool {
        match self {
            CredentialsModel::Single(credential) => credential.credential_subject.canonical(),
            CredentialsModel::Multiple(credentials) => forall|i: int|
                0 <= i < credentials.len() ==> (
                #[trigger] credentials[i]).credential_subject.canonical(),
        }
    }

    /// Every credential is well formed.
    pub open spec fn wf(self) -> bool {
        match self {
            CredentialsModel::Single(credential) => credential.wf(),
            CredentialsModel::Multiple(credentials) => forall|i: int|
                0 <= i < credentials.len() ==> (#[trigger] credentials[i]).wf(),
        }
    }
}

impl DeepView for VerifiableCredentialEnum {
    type V = CredentialsModel;

    open spec fn deep_view(&self) -> CredentialsModel {
        match self {
            VerifiableCredentialEnum::Single(credential) => CredentialsModel::Single(credential@),
            VerifiableCredentialEnum::Multiple(credentials) => CredentialsModel::Multiple(
                credentials.deep_view(),
            ),
        }
    }
}

impl View for VerifiableCredentialEnum {
    type V = CredentialsModel;

    open spec fn view(&self) -> CredentialsModel {
        self.deep_view()
    }
}

/// A presentation: credentials handed over by a holder.
#[derive(Clone, Debug)]
pub struct VerifiablePresentation {
    pub id: Option<Url>,
    pub vp_type: TypeEnum,
    pub verifiable_credential: VerifiableCredentialEnum,
    pub holder: Option<Url>,
    pub proof: Option<Proof>,
}

/// The mathematical value of a [`VerifiablePresentation`].
pub ghost struct PresentationModel {
    pub id: Option<Seq<char>>,
    pub vp_type: TypeModel,
    pub verifiable_credential: CredentialsModel,
    pub holder: Option<Seq<char>>,
    pub proof: Option<ProofModel>,
}

impl PresentationModel {
    /// Every identifier is a URL, every time an instant, and every credential
    /// well formed. This holds of the value of every [`VerifiablePresentation`].
    pub open spec fn wf(self) -> bool {
        &&& self.id matches Some(id) ==> is_url(id)
        &&& self.verifiable_credential.wf()
        &&& self.holder matches Some(holder) ==> is_url(holder)
        &&& self.proof matches Some(proof) ==> proof.wf()
    }

    /// The presentation without its proof.
    pub open spec fn unsigned(self) -> PresentationModel {
        PresentationModel { proof: None, ..self }
    }
}

impl DeepView for VerifiablePresentation {
    type V = PresentationModel;

    open spec fn deep_view(&self) -> PresentationModel {
        PresentationModel {
            id: self.id.deep_view(),
            vp_type: self.vp_type@,
            verifiable_credential: self.verifiable_credential@,
            holder: self.holder.deep_view(),
            proof: self.proof.deep_view(),
        }
    }
}

impl View for VerifiablePresentation {
    type V = PresentationModel;

    open spec fn view(&self) -> PresentationModel {
        self.deep_view()
    }
}

} // verus!
