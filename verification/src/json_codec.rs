//! Documents as JSON trees, and JSON trees as documents.
//!
//! Encoding writes every field of a document, in one fixed order, with
//! `null` for a field that is absent. Decoding is closed: an object that
//! holds a key which the document does not have is rejected. A field that
//! holds one value or a list is written without a mark of which it is; the
//! decoder tries the single value first and the list only where that fails.

use vstd::prelude::*;
use crate::error::{Error, Failure};
use crate::json::{
    find_member, lemma_lookup_first, lemma_view_array, lemma_view_object, lookup, JsonModel,
    JsonValue, Member, MemberModel,
};
use crate::model::{
    CredentialModel, CredentialSchema, CredentialStatus, CredentialsModel, PresentationModel,
    Proof, ProofModel, SchemaEnum, SchemaModel, SchemasModel, StatusEnum, StatusModel,
    StatusesModel, TypeEnum, TypeModel, VerifiableCredential, VerifiableCredentialEnum,
    VerifiablePresentation,
};
use crate::time::{instant_of_text, Instant, Timestamp};
use crate::uri::{is_url, url_serialization, Url};

verus! {

pub open spec fn key_context() -> Seq<char> {
    "@context"@
}

pub open spec fn key_id() -> Seq<char> {
    "id"@
}

pub open spec fn key_type() -> Seq<char> {
    "type"@
}

pub open spec fn key_name() -> Seq<char> {
    "name"@
}

pub open spec fn key_description() -> Seq<char> {
    "description"@
}

pub open spec fn key_issuer() -> Seq<char> {
    "issuer"@
}

pub open spec fn key_valid_from() -> Seq<char> {
    "validFrom"@
}

pub open spec fn key_valid_until() -> Seq<char> {
    "validUntil"@
}

pub open spec fn key_status() -> Seq<char> {
    "credentialStatus"@
}

pub open spec fn key_schema() -> Seq<char> {
    "credentialSchema"@
}

pub open spec fn key_subject() -> Seq<char> {
    "credentialSubject"@
}

pub open spec fn key_proof() -> Seq<char> {
    "proof"@
}

pub open spec fn key_created() -> Seq<char> {
    "created"@
}

pub open spec fn key_cryptosuite() -> Seq<char> {
    "cryptosuite"@
}

pub open spec fn key_purpose() -> Seq<char> {
    "proofPurpose"@
}

pub open spec fn key_value() -> Seq<char> {
    "proofValue"@
}

pub open spec fn key_credential() -> Seq<char> {
    "verifiableCredential"@
}

pub open spec fn key_holder() -> Seq<char> {
    "holder"@
}

/// The keys of a credential, in the order in which they are written.
pub open spec fn credential_keys() -> Seq<Seq<char>> {
    seq![
        key_context(),
        key_id(),
        key_type(),
        key_name(),
        key_description(),
        key_issuer(),
        key_valid_from(),
        key_valid_until(),
        key_status(),
        key_schema(),
        key_subject(),
        key_proof(),
    ]
}

/// The keys of a presentation, in the order in which they are written.
pub open spec fn presentation_keys() -> Seq<Seq<char>> {
    seq![key_id(), key_type(), key_credential(), key_holder(), key_proof()]
}

/// The keys of a status and of a schema reference.
pub open spec fn reference_keys() -> Seq<Seq<char>> {
    seq![key_id(), key_type()]
}

/// Every key of the object is among `known`.
pub open spec fn closed(members: Seq<MemberModel>, known: Seq<Seq<char>>) -> bool {
    forall|i: int| 0 <= i < members.len() ==> known.contains(#[trigger] members[i].key)
}

/// An entry of an object.
pub open spec fn member(key: Seq<char>, value: JsonModel) -> MemberModel {
    MemberModel { key, value }
}

/// A text that may be absent: `null` where it is.
pub open spec fn optional_text_json(text: Option<Seq<char>>) -> JsonModel {
    match text {
        Some(text) => JsonModel::Text(text),
        None => JsonModel::Null,
    }
}

/// A list of texts as an array of strings.
pub open spec fn texts_json(texts: Seq<Seq<char>>) -> JsonModel {
    JsonModel::Array(texts.map_values(|text: Seq<char>| JsonModel::Text(text)))
}

/// A type: a string for one name, an array of strings for a list.
pub open spec fn type_json(kind: TypeModel) -> JsonModel {
    match kind {
        TypeModel::Single(name) => JsonModel::Text(name),
        TypeModel::Multiple(names) => texts_json(names),
    }
}

/// A status as an object.
pub open spec fn status_json(status: StatusModel) -> JsonModel {
    JsonModel::Object(
        seq![
            member(key_id(), optional_text_json(status.id)),
            member(key_type(), type_json(status.status_type)),
        ],
    )
}

/// Statuses: an object for one, an array of objects for a list.
pub open spec fn statuses_json(statuses: StatusesModel) -> JsonModel {
    match statuses {
        StatusesModel::Single(status) => status_json(status),
        StatusesModel::Multiple(list) => JsonModel::Array(
            list.map_values(|status: StatusModel| status_json(status)),
        ),
    }
}

/// A schema reference as an object.
pub open spec fn schema_json(schema: SchemaModel) -> JsonModel {
    JsonModel::Object(
        seq![
            member(key_id(), JsonModel::Text(schema.id)),
            member(key_type(), JsonModel::Text(schema.credential_type)),
        ],
    )
}

/// Schema references: an object for one, an array of objects for a list.
pub open spec fn schemas_json(schemas: SchemasModel) -> JsonModel {
    match schemas {
        SchemasModel::Single(schema) => schema_json(schema),
        SchemasModel::Multiple(list) => JsonModel::Array(
            list.map_values(|schema: SchemaModel| schema_json(schema)),
        ),
    }
}

/// An instant that may be absent: its RFC 3339 text, or `null`.
pub open spec fn optional_instant_json(instant: Option<Instant>) -> JsonModel {
    match instant {
        Some(instant) => JsonModel::Text(instant.text()),
        None => JsonModel::Null,
    }
}

/// A proof as an object.
pub open spec fn proof_json(attached: ProofModel) -> JsonModel {
    JsonModel::Object(
        seq![
            member(key_type(), JsonModel::Text(attached.proof_type)),
            member(key_created(), JsonModel::Text(attached.created.text())),
            member(key_cryptosuite(), JsonModel::Text(attached.cryptosuite)),
            member(key_purpose(), JsonModel::Text(attached.proof_purpose)),
            member(key_value(), JsonModel::Text(attached.proof_value)),
        ],
    )
}

/// A proof that may be absent: an object, or `null`.
pub open spec fn optional_proof_json(attached: Option<ProofModel>) -> JsonModel {
    match attached {
        Some(attached) => proof_json(attached),
        None => JsonModel::Null,
    }
}

/// A credential as an object of its twelve fields.
pub open spec fn credential_json(credential: CredentialModel) -> JsonModel {
    JsonModel::Object(
        seq![
            member(key_context(), texts_json(credential.context)),
            member(key_id(), optional_text_json(credential.id)),
            member(key_type(), type_json(credential.vc_type)),
            member(key_name(), optional_text_json(credential.name)),
            member(key_description(), optional_text_json(credential.description)),
            member(key_issuer(), JsonModel::Text(credential.issuer)),
            member(key_valid_from(), optional_instant_json(credential.valid_from)),
            member(key_valid_until(), optional_instant_json(credential.valid_until)),
            member(
                key_status(),
                match credential.credential_status {
                    Some(statuses) => statuses_json(statuses),
                    None => JsonModel::Null,
                },
            ),
            member(key_schema(), schemas_json(credential.credential_schema)),
            member(key_subject(), credential.credential_subject),
            member(key_proof(), optional_proof_json(credential.proof)),
        ],
    )
}

/// Credentials: an object for one, an array of objects for a list.
pub open spec fn credentials_json(credentials: CredentialsModel) -> JsonModel {
    match credentials {
        CredentialsModel::Single(credential) => credential_json(credential),
        CredentialsModel::Multiple(list) => JsonModel::Array(
            list.map_values(|credential: CredentialModel| credential_json(credential)),
        ),
    }
}

/// A presentation as an object of its five fields.
pub open spec fn presentation_json(presentation: PresentationModel) -> JsonModel {
    JsonModel::Object(
        seq![
            member(key_id(), optional_text_json(presentation.id)),
            member(key_type(), type_json(presentation.vp_type)),
            member(key_credential(), credentials_json(presentation.verifiable_credential)),
            member(key_holder(), optional_text_json(presentation.holder)),
            member(key_proof(), optional_proof_json(presentation.proof)),
        ],
    )
}

/// The text of a field that must hold a string.
pub open spec fn text_of_json(value: Option<JsonModel>) -> Option<Seq<char>> {
    match value {
        Some(JsonModel::Text(text)) => Some(text),
        _ => None,
    }
}

/// The text of a field that may be absent or `null`; `None` where it holds
/// anything but a string.
pub open spec fn optional_text_of_json(value: Option<JsonModel>) -> Option<Option<Seq<char>>> {
    match value {
        None => Some(None),
        Some(JsonModel::Null) => Some(None),
        Some(JsonModel::Text(text)) => Some(Some(text)),
        _ => None,
    }
}

/// The URL of a field that must hold one.
pub open spec fn url_of_json(value: Option<JsonModel>) -> Option<Seq<char>> {
    match value {
        Some(JsonModel::Text(text)) => url_serialization(text),
        _ => None,
    }
}

/// The URL of a field that may be absent or `null`.
pub open spec fn optional_url_of_json(value: Option<JsonModel>) -> Option<Option<Seq<char>>> {
    match value {
        None => Some(None),
        Some(JsonModel::Null) => Some(None),
        Some(JsonModel::Text(text)) => match url_serialization(text) {
            Some(url) => Some(Some(url)),
            None => None,
        },
        _ => None,
    }
}

/// The texts of a list of strings; `None` where an item is no string.
pub open spec fn texts_of_json(items: Seq<JsonModel>) -> Option<Seq<Seq<char>>> {
    if forall|i: int| 0 <= i < items.len() ==> (#[trigger] items[i]) is Text {
        Some(items.map_values(|item: JsonModel| item->Text_0))
    } else {
        None
    }
}

/// The URLs of a field that must hold an array of them.
pub open spec fn urls_of_json(value: Option<JsonModel>) -> Option<Seq<Seq<char>>> {
    match value {
        Some(JsonModel::Array(items)) => if forall|i: int|
            0 <= i < items.len() ==> url_of_json(Some(#[trigger] items[i])) is Some {
            Some(items.map_values(|item: JsonModel| url_of_json(Some(item)).unwrap()))
        } else {
            None
        },
        _ => None,
    }
}

/// The type of a field that must hold one: the single name where the field
/// is a string, else the list where it is an array of strings.
pub open spec fn type_of_json(value: Option<JsonModel>) -> Option<TypeModel> {
    match value {
        Some(JsonModel::Text(name)) => Some(TypeModel::Single(name)),
        Some(JsonModel::Array(items)) => match texts_of_json(items) {
            Some(names) => Some(TypeModel::Multiple(names)),
            None => None,
        },
        _ => None,
    }
}

/// The status that an object holds; `None` where the value is no object,
/// has a key other than `id` and `type`, or a field of it fails.
pub open spec fn status_of_json(value: JsonModel) -> Option<StatusModel> {
    match value {
        JsonModel::Object(members) => if closed(members, reference_keys()) {
            match (
                optional_url_of_json(lookup(members, key_id())),
                type_of_json(lookup(members, key_type())),
            ) {
                (Some(id), Some(status_type)) => Some(StatusModel { id, status_type }),
                _ => None,
            }
        } else {
            None
        },
        _ => None,
    }
}

/// The statuses of a field that may be absent or `null`: the single status
/// where the field reads as one, else the list where it is an array of them.
pub open spec fn statuses_of_json(value: Option<JsonModel>) -> Option<Option<StatusesModel>> {
    match value {
        None => Some(None),
        Some(JsonModel::Null) => Some(None),
        Some(value) => match status_of_json(value) {
            Some(status) => Some(Some(StatusesModel::Single(status))),
            None => match value {
                JsonModel::Array(items) => if forall|i: int|
                    0 <= i < items.len() ==> status_of_json(#[trigger] items[i]) is Some {
                    Some(
                        Some(
                            StatusesModel::Multiple(
                                items.map_values(|item: JsonModel| status_of_json(item).unwrap()),
                            ),
                        ),
                    )
                } else {
                    None
                },
                _ => None,
            },
        },
    }
}

/// The schema reference that an object holds; `None` where the value is no
/// object, has a key other than `id` and `type`, or a field of it fails.
pub open spec fn schema_of_json(value: JsonModel) -> Option<SchemaModel> {
    match value {
        JsonModel::Object(members) => if closed(members, reference_keys()) {
            match (
                url_of_json(lookup(members, key_id())),
                text_of_json(lookup(members, key_type())),
            ) {
                (Some(id), Some(credential_type)) => Some(SchemaModel { id, credential_type }),
                _ => None,
            }
        } else {
            None
        },
        _ => None,
    }
}

/// The schema references of a field that must hold them: the single one
/// where the field reads as one, else the list where it is an array of them.
pub open spec fn schemas_of_json(value: Option<JsonModel>) -> Option<SchemasModel> {
    match value {
        None => None,
        Some(value) => match schema_of_json(value) {
            Some(schema) => Some(SchemasModel::Single(schema)),
            None => match value {
                JsonModel::Array(items) => if forall|i: int|
                    0 <= i < items.len() ==> schema_of_json(#[trigger] items[i]) is Some {
                    Some(
                        SchemasModel::Multiple(
                            items.map_values(|item: JsonModel| schema_of_json(item).unwrap()),
                        ),
                    )
                } else {
                    None
                },
                _ => None,
            },
        },
    }
}

/// The instant of a field that must hold one as a text.
pub open spec fn instant_of_json(value: Option<JsonModel>) -> Option<Instant> {
    match value {
        Some(JsonModel::Text(text)) => instant_of_text(text),
        _ => None,
    }
}

/// The instant of a field that may be absent or `null`.
pub open spec fn optional_instant_of_json(value: Option<JsonModel>) -> Option<Option<Instant>> {
    match value {
        None => Some(None),
        Some(JsonModel::Null) => Some(None),
        Some(value) => match instant_of_json(Some(value)) {
            Some(instant) => Some(Some(instant)),
            None => None,
        },
    }
}

/// The proof that an object holds; `None` where the value is no object or
/// one of the five fields is absent or fails. Other keys are passed over.
pub open spec fn proof_of_json(value: JsonModel) -> Option<ProofModel> {
    match value {
        JsonModel::Object(members) => match (
            text_of_json(lookup(members, key_type())),
            instant_of_json(lookup(members, key_created())),
            text_of_json(lookup(members, key_cryptosuite())),
            text_of_json(lookup(members, key_purpose())),
            text_of_json(lookup(members, key_value())),
        ) {
            (
                Some(proof_type),
                Some(created),
                Some(cryptosuite),
                Some(proof_purpose),
                Some(proof_value),
            ) => Some(
                ProofModel { proof_type, created, cryptosuite, proof_purpose, proof_value },
            ),
            _ => None,
        },
        _ => None,
    }
}

/// The proof of a field that may be absent or `null`.
pub open spec fn optional_proof_of_json(value: Option<JsonModel>) -> Option<Option<ProofModel>> {
    match value {
        None => Some(None),
        Some(JsonModel::Null) => Some(None),
        Some(value) => match proof_of_json(value) {
            Some(attached) => Some(Some(attached)),
            None => None,
        },
    }
}

/// The credential that a tree holds; `None` where the tree is no object, has
/// a key that a credential does not have, lacks a field that must be there,
/// or a field of it fails.
pub open spec fn credential_of_json(value: JsonModel) -> Option<CredentialModel> {
    match value {
        JsonModel::Object(members) => if closed(members, credential_keys()) {
            match (
                urls_of_json(lookup(members, key_context())),
                optional_url_of_json(lookup(members, key_id())),
                type_of_json(lookup(members, key_type())),
                optional_text_of_json(lookup(members, key_name())),
                optional_text_of_json(lookup(members, key_description())),
                url_of_json(lookup(members, key_issuer())),
            ) {
                (
                    Some(context),
                    Some(id),
                    Some(vc_type),
                    Some(name),
                    Some(description),
                    Some(issuer),
                ) => match (
                    optional_instant_of_json(lookup(members, key_valid_from())),
                    optional_instant_of_json(lookup(members, key_valid_until())),
                    statuses_of_json(lookup(members, key_status())),
                    schemas_of_json(lookup(members, key_schema())),
                    lookup(members, key_subject()),
                    optional_proof_of_json(lookup(members, key_proof())),
                ) {
                    (
                        Some(valid_from),
                        Some(valid_until),
                        Some(credential_status),
                        Some(credential_schema),
                        Some(credential_subject),
                        Some(attached),
                    ) => Some(
                        CredentialModel {
                            context,
                            id,
                            vc_type,
                            name,
                            description,
                            issuer,
                            valid_from,
                            valid_until,
                            credential_status,
                            credential_schema,
                            credential_subject,
                            proof: attached,
                        },
                    ),
                    _ => None,
                },
                _ => None,
            }
        } else {
            None
        },
        _ => None,
    }
}

/// The credentials of a field that must hold them: the single one where the
/// field reads as one, else the list where it is an array of them.
pub open spec fn credentials_of_json(value: Option<JsonModel>) -> Option<CredentialsModel> {
    match value {
        None => None,
        Some(value) => match credential_of_json(value) {
            Some(credential) => Some(CredentialsModel::Single(credential)),
            None => match value {
                JsonModel::Array(items) => if forall|i: int|
                    0 <= i < items.len() ==> credential_of_json(#[trigger] items[i]) is Some {
                    Some(
                        CredentialsModel::Multiple(
                            items.map_values(|item: JsonModel| credential_of_json(item).unwrap()),
                        ),
                    )
                } else {
                    None
                },
                _ => None,
            },
        },
    }
}

/// The presentation that a tree holds; `None` where the tree is no object,
/// has a key that a presentation does not have, or a field of it fails.
pub open spec fn presentation_of_json(value: JsonModel) -> Option<PresentationModel> {
    match value {
        JsonModel::Object(members) => if closed(members, presentation_keys()) {
            match (
                optional_url_of_json(lookup(members, key_id())),
                type_of_json(lookup(members, key_type())),
                credentials_of_json(lookup(members, key_credential())),
                optional_url_of_json(lookup(members, key_holder())),
                optional_proof_of_json(lookup(members, key_proof())),
            ) {
                (
                    Some(id),
                    Some(vp_type),
                    Some(verifiable_credential),
                    Some(holder),
                    Some(attached),
                ) => Some(
                    PresentationModel { id, vp_type, verifiable_credential, holder, proof: attached },
                ),
                _ => None,
            }
        } else {
            None
        },
        _ => None,
    }
}

/// No key occurs twice among the keys of a credential, of a presentation, of
/// a proof, or of a status.
pub proof fn lemma_keys_distinct()
    ensures
        credential_keys().len() == 12,
        forall|i: int, j: int|
            0 <= i < j < 12 ==> #[trigger] credential_keys()[i] != #[trigger] credential_keys()[j],
        presentation_keys().len() == 5,
        forall|i: int, j: int|
            0 <= i < j < 5 ==> #[trigger] presentation_keys()[i]
                != #[trigger] presentation_keys()[j],
        key_id() != key_type(),
        key_type() != key_created(),
        key_type() != key_cryptosuite(),
        key_type() != key_purpose(),
        key_type() != key_value(),
        key_created() != key_cryptosuite(),
        key_created() != key_purpose(),
        key_created() != key_value(),
        key_cryptosuite() != key_purpose(),
        key_cryptosuite() != key_value(),
        key_purpose() != key_value(),
{
    reveal_strlit("@context");
    reveal_strlit("id");
    reveal_strlit("type");
    reveal_strlit("name");
    reveal_strlit("description");
    reveal_strlit("issuer");
    reveal_strlit("validFrom");
    reveal_strlit("validUntil");
    reveal_strlit("credentialStatus");
    reveal_strlit("credentialSchema");
    reveal_strlit("credentialSubject");
    reveal_strlit("proof");
    reveal_strlit("created");
    reveal_strlit("cryptosuite");
    reveal_strlit("proofPurpose");
    reveal_strlit("proofValue");
    reveal_strlit("verifiableCredential");
    reveal_strlit("holder");
    assert(key_type()[0] != key_name()[0]);
    assert(key_status()[11] != key_schema()[11]);
    assert(key_id().len() == 2 && key_type().len() == 4 && key_created().len() == 7);
    assert(key_cryptosuite().len() == 11 && key_purpose().len() == 12 && key_value().len() == 10);
    let keys = credential_keys();
    assert(keys[0].len() == 8 && keys[1].len() == 2 && keys[2].len() == 4 && keys[3].len() == 4);
    assert(keys[4].len() == 11 && keys[5].len() == 6 && keys[6].len() == 9);
    assert(keys[7].len() == 10 && keys[8].len() == 16 && keys[9].len() == 16);
    assert(keys[10].len() == 17 && keys[11].len() == 5);
    assert forall|i: int, j: int| 0 <= i < j < 12 implies #[trigger] keys[i] != #[trigger] keys[j] by {
        if keys[i].len() == keys[j].len() {
            assert((i == 2 && j == 3) || (i == 8 && j == 9));
        }
    }
    let others = presentation_keys();
    assert(others[0].len() == 2 && others[1].len() == 4 && others[2].len() == 20);
    assert(others[3].len() == 6 && others[4].len() == 5);
    assert forall|i: int, j: int| 0 <= i < j < 5 implies #[trigger] others[i] != #[trigger] others[j] by {
        assert(others[i].len() != others[j].len());
    }
}

/// A type comes back from its JSON.
pub proof fn lemma_type_round_trip(kind: TypeModel)
    ensures
        type_of_json(Some(type_json(kind))) == Some(kind),
{
    match kind {
        TypeModel::Single(name) => {},
        TypeModel::Multiple(names) => {
            let items = names.map_values(|text: Seq<char>| JsonModel::Text(text));
            assert(items.map_values(|item: JsonModel| item->Text_0) =~= names);
        },
    }
}

/// A status comes back from its JSON.
pub proof fn lemma_status_round_trip(status: StatusModel)
    requires
        status.wf(),
    ensures
        status_of_json(status_json(status)) == Some(status),
{
    lemma_keys_distinct();
    lemma_type_round_trip(status.status_type);
    let members = status_json(status)->Object_0;
    lemma_lookup_first(members, 0);
    lemma_lookup_first(members, 1);
    assert(reference_keys()[0] == key_id());
    assert(reference_keys()[1] == key_type());
}

/// A schema reference comes back from its JSON.
pub proof fn lemma_schema_round_trip(schema: SchemaModel)
    requires
        schema.wf(),
    ensures
        schema_of_json(schema_json(schema)) == Some(schema),
{
    lemma_keys_distinct();
    let members = schema_json(schema)->Object_0;
    lemma_lookup_first(members, 0);
    lemma_lookup_first(members, 1);
    assert(reference_keys()[0] == key_id());
    assert(reference_keys()[1] == key_type());
}

/// Statuses come back from their JSON, one or a list as they were.
pub proof fn lemma_statuses_round_trip(statuses: StatusesModel)
    requires
        statuses.wf(),
    ensures
        statuses_of_json(Some(statuses_json(statuses))) == Some(Some(statuses)),
{
    match statuses {
        StatusesModel::Single(status) => {
            lemma_status_round_trip(status);
        },
        StatusesModel::Multiple(list) => {
            let items = list.map_values(|status: StatusModel| status_json(status));
            assert forall|i: int| 0 <= i < items.len() implies status_of_json(
                #[trigger] items[i],
            ) == Some(list[i]) by {
                assert(list[i].wf());
                lemma_status_round_trip(list[i]);
            }
            assert(items.map_values(|item: JsonModel| status_of_json(item).unwrap()) =~= list);
        },
    }
}

/// Schema references come back from their JSON, one or a list as they were.
pub proof fn lemma_schemas_round_trip(schemas: SchemasModel)
    requires
        schemas.wf(),
    ensures
        schemas_of_json(Some(schemas_json(schemas))) == Some(schemas),
{
    match schemas {
        SchemasModel::Single(schema) => {
            lemma_schema_round_trip(schema);
        },
        SchemasModel::Multiple(list) => {
            let items = list.map_values(|schema: SchemaModel| schema_json(schema));
            assert forall|i: int| 0 <= i < items.len() implies schema_of_json(
                #[trigger] items[i],
            ) == Some(list[i]) by {
                assert(list[i].wf());
                lemma_schema_round_trip(list[i]);
            }
            assert(items.map_values(|item: JsonModel| schema_of_json(item).unwrap()) =~= list);
        },
    }
}

/// A proof comes back from its JSON.
pub proof fn lemma_proof_round_trip(attached: ProofModel)
    requires
        attached.wf(),
    ensures
        proof_of_json(proof_json(attached)) == Some(attached),
{
    lemma_keys_distinct();
    let members = proof_json(attached)->Object_0;
    lemma_lookup_first(members, 0);
    lemma_lookup_first(members, 1);
    lemma_lookup_first(members, 2);
    lemma_lookup_first(members, 3);
    lemma_lookup_first(members, 4);
}

/// Decoding the JSON that a credential was encoded to gives the credential
/// back, with each field that holds one value or a list as it was.
pub proof fn lemma_credential_round_trip(credential: CredentialModel)
    requires
        credential.wf(),
    ensures
        credential_of_json(credential_json(credential)) == Some(credential),
{
    lemma_keys_distinct();
    let members = credential_json(credential)->Object_0;
    let keys = credential_keys();
    assert forall|i: int| 0 <= i < 12 implies (#[trigger] members[i]).key == keys[i] by {}
    assert forall|i: int| 0 <= i < 12 implies lookup(members, #[trigger] keys[i]) == Some(
        members[i].value,
    ) by {
        assert(members[i].key == keys[i]);
        assert forall|j: int| 0 <= j < i implies (#[trigger] members[j]).key != members[i].key by {
            assert(members[j].key == keys[j]);
        }
        lemma_lookup_first(members, i);
    }
    assert(closed(members, keys)) by {
        assert forall|i: int| 0 <= i < members.len() implies keys.contains(
            #[trigger] members[i].key,
        ) by {
            assert(members[i].key == keys[i]);
        }
    }
    assert(lookup(members, key_context()) == Some(members[0].value)) by {
        assert(keys[0] == key_context());
    }
    assert(lookup(members, key_id()) == Some(members[1].value)) by {
        assert(keys[1] == key_id());
    }
    assert(lookup(members, key_type()) == Some(members[2].value)) by {
        assert(keys[2] == key_type());
    }
    assert(lookup(members, key_name()) == Some(members[3].value)) by {
        assert(keys[3] == key_name());
    }
    assert(lookup(members, key_description()) == Some(members[4].value)) by {
        assert(keys[4] == key_description());
    }
    assert(lookup(members, key_issuer()) == Some(members[5].value)) by {
        assert(keys[5] == key_issuer());
    }
    assert(lookup(members, key_valid_from()) == Some(members[6].value)) by {
        assert(keys[6] == key_valid_from());
    }
    assert(lookup(members, key_valid_until()) == Some(members[7].value)) by {
        assert(keys[7] == key_valid_until());
    }
    assert(lookup(members, key_status()) == Some(members[8].value)) by {
        assert(keys[8] == key_status());
    }
    assert(lookup(members, key_schema()) == Some(members[9].value)) by {
        assert(keys[9] == key_schema());
    }
    assert(lookup(members, key_subject()) == Some(members[10].value)) by {
        assert(keys[10] == key_subject());
    }
    assert(lookup(members, key_proof()) == Some(members[11].value)) by {
        assert(keys[11] == key_proof());
    }
    assert(urls_of_json(Some(texts_json(credential.context))) == Some(credential.context)) by {
        let items = credential.context.map_values(|text: Seq<char>| JsonModel::Text(text));
        assert forall|i: int| 0 <= i < items.len() implies url_of_json(
            Some(#[trigger] items[i]),
        ) == Some(credential.context[i]) by {
            assert(crate::uri::is_url(credential.context[i]));
        }
        assert(items.map_values(|item: JsonModel| url_of_json(Some(item)).unwrap())
            =~= credential.context);
    }
    lemma_type_round_trip(credential.vc_type);
    lemma_schemas_round_trip(credential.credential_schema);
    if let Some(statuses) = credential.credential_status {
        lemma_statuses_round_trip(statuses);
    }
    if let Some(attached) = credential.proof {
        lemma_proof_round_trip(attached);
    }
}

/// Decoding the JSON that a presentation was encoded to gives the
/// presentation back.
pub proof fn lemma_presentation_round_trip(presentation: PresentationModel)
    requires
        presentation.wf(),
    ensures
        presentation_of_json(presentation_json(presentation)) == Some(presentation),
{
    lemma_keys_distinct();
    let members = presentation_json(presentation)->Object_0;
    let keys = presentation_keys();
    assert forall|i: int| 0 <= i < 5 implies (#[trigger] members[i]).key == keys[i] by {}
    assert forall|i: int| 0 <= i < 5 implies lookup(members, #[trigger] keys[i]) == Some(
        members[i].value,
    ) by {
        assert(members[i].key == keys[i]);
        assert forall|j: int| 0 <= j < i implies (#[trigger] members[j]).key != members[i].key by {
            assert(members[j].key == keys[j]);
        }
        lemma_lookup_first(members, i);
    }
    assert(closed(members, keys)) by {
        assert forall|i: int| 0 <= i < members.len() implies keys.contains(
            #[trigger] members[i].key,
        ) by {
            assert(members[i].key == keys[i]);
        }
    }
    assert(lookup(members, key_id()) == Some(members[0].value)) by {
        assert(keys[0] == key_id());
    }
    assert(lookup(members, key_type()) == Some(members[1].value)) by {
        assert(keys[1] == key_type());
    }
    assert(lookup(members, key_credential()) == Some(members[2].value)) by {
        assert(keys[2] == key_credential());
    }
    assert(lookup(members, key_holder()) == Some(members[3].value)) by {
        assert(keys[3] == key_holder());
    }
    assert(lookup(members, key_proof()) == Some(members[4].value)) by {
        assert(keys[4] == key_proof());
    }
    lemma_type_round_trip(presentation.vp_type);
    match presentation.verifiable_credential {
        CredentialsModel::Single(credential) => {
            lemma_credential_round_trip(credential);
        },
        CredentialsModel::Multiple(list) => {
            let items = list.map_values(|credential: CredentialModel| credential_json(credential));
            assert forall|i: int| 0 <= i < items.len() implies credential_of_json(
                #[trigger] items[i],
            ) == Some(list[i]) by {
                assert(list[i].wf());
                lemma_credential_round_trip(list[i]);
            }
            assert(items.map_values(|item: JsonModel| credential_of_json(item).unwrap())
                =~= list);
            assert(credential_of_json(JsonModel::Array(items)) is None);
        },
    }
    if let Some(attached) = presentation.proof {
        lemma_proof_round_trip(attached);
    }
}

/// An entry of an object.
pub fn entry(key: &str, value: JsonValue) -> (made: Member)
    ensures
        made@ == member(key@, value@),
{
    Member { key: String::from_str(key), value }
}

/// A text that may be absent, as a string or `null`.
pub fn optional_text_to_json(text: &Option<String>) -> (tree: JsonValue)
    ensures
        tree@ == optional_text_json(text.deep_view()),
{
    match text {
        Some(text) => JsonValue::Text(text.clone()),
        None => JsonValue::Null,
    }
}

/// A URL that may be absent, as a string or `null`.
pub fn optional_url_to_json(url: &Option<Url>) -> (tree: JsonValue)
    ensures
        tree@ == optional_text_json(url.deep_view()),
        url matches Some(u) ==> is_url(u@),
{
    match url {
        Some(url) => JsonValue::Text(url.to_text()),
        None => JsonValue::Null,
    }
}

/// A list of texts as an array of strings.
pub fn texts_to_json(texts: &Vec<String>) -> (tree: JsonValue)
    ensures
        tree@ == texts_json(texts.deep_view()),
{
    let mut items: Vec<JsonValue> = Vec::new();
    let mut i: usize = 0;
    while i < texts.len()
        invariant
            i <= texts.len(),
            items.len() == i,
            forall|j: int| 0 <= j < i ==> (#[trigger] items[j])@ == JsonModel::Text(texts[j]@),
        decreases texts.len() - i,
    {
        items.push(JsonValue::Text(texts[i].clone()));
        i += 1;
    }
    proof {
        lemma_view_array(items);
        assert(items.deep_view() =~= texts.deep_view().map_values(
            |text: Seq<char>| JsonModel::Text(text),
        ));
    }
    JsonValue::Array(items)
}

/// A list of URLs as an array of strings.
pub fn urls_to_json(urls: &Vec<Url>) -> (tree: JsonValue)
    ensures
        tree@ == texts_json(urls.deep_view()),
        forall|i: int| 0 <= i < urls.len() ==> is_url(#[trigger] urls.deep_view()[i]),
{
    let mut items: Vec<JsonValue> = Vec::new();
    let mut i: usize = 0;
    while i < urls.len()
        invariant
            i <= urls.len(),
            items.len() == i,
            forall|j: int| 0 <= j < i ==> (#[trigger] items[j])@ == JsonModel::Text(urls[j]@),
            forall|j: int| 0 <= j < i ==> is_url((#[trigger] urls[j])@),
        decreases urls.len() - i,
    {
        items.push(JsonValue::Text(urls[i].to_text()));
        i += 1;
    }
    proof {
        lemma_view_array(items);
        assert(items.deep_view() =~= urls.deep_view().map_values(
            |text: Seq<char>| JsonModel::Text(text),
        ));
        assert forall|k: int| 0 <= k < urls.len() implies is_url(
            #[trigger] urls.deep_view()[k],
        ) by {
            assert(urls.deep_view()[k] == urls[k]@);
        }
    }
    JsonValue::Array(items)
}

/// An instant that may be absent, as its RFC 3339 text or `null`.
pub fn optional_timestamp_to_json(stamp: &Option<Timestamp>) -> (tree: JsonValue)
    ensures
        tree@ == optional_instant_json(stamp.deep_view()),
        stamp matches Some(s) ==> s@.wf(),
{
    match stamp {
        Some(stamp) => JsonValue::Text(stamp.to_text()),
        None => JsonValue::Null,
    }
}

impl TypeEnum {
    /// The type as JSON: a string for one name, an array for a list.
    pub fn to_json(&self) -> (tree: JsonValue)
        ensures
            tree@ == type_json(self@),
    {
        match self {
            TypeEnum::Single(name) => JsonValue::Text(name.clone()),
            TypeEnum::Multiple(names) => texts_to_json(names),
        }
    }
}

impl CredentialStatus {
    /// The status as a JSON object.
    pub fn to_json(&self) -> (tree: JsonValue)
        ensures
            tree@ == status_json(self@),
            self@.wf(),
    {
        let mut members: Vec<Member> = Vec::new();
        members.push(entry("id", optional_url_to_json(&self.id)));
        members.push(entry("type", self.status_type.to_json()));
        proof {
            lemma_view_object(members);
            assert(members.deep_view() =~= status_json(self@)->Object_0);
        }
        JsonValue::Object(members)
    }
}

impl StatusEnum {
    /// The statuses as JSON: an object for one, an array for a list.
    pub fn to_json(&self) -> (tree: JsonValue)
        ensures
            tree@ == statuses_json(self@),
            self@.wf(),
    {
        match self {
            StatusEnum::Single(status) => status.to_json(),
            StatusEnum::Multiple(statuses) => {
                let mut items: Vec<JsonValue> = Vec::new();
                let mut i: usize = 0;
                while i < statuses.len()
                    invariant
                        i <= statuses.len(),
                        items.len() == i,
                        forall|j: int|
                            0 <= j < i ==> (#[trigger] items[j])@ == status_json(statuses[j]@),
                        forall|j: int| 0 <= j < i ==> (#[trigger] statuses[j])@.wf(),
                    decreases statuses.len() - i,
                {
                    items.push(statuses[i].to_json());
                    i += 1;
                }
                proof {
                    lemma_view_array(items);
                    assert(items.deep_view() =~= statuses.deep_view().map_values(
                        |status: StatusModel| status_json(status),
                    ));
                    assert forall|k: int| 0 <= k < statuses.len() implies (
                    #[trigger] statuses.deep_view()[k]).wf() by {
                        assert(statuses.deep_view()[k] == statuses[k]@);
                    }
                }
                JsonValue::Array(items)
            },
        }
    }
}

impl CredentialSchema {
    /// The schema reference as a JSON object.
    pub fn to_json(&self) -> (tree: JsonValue)
        ensures
            tree@ == schema_json(self@),
            self@.wf(),
    {
        let mut members: Vec<Member> = Vec::new();
        members.push(entry("id", JsonValue::Text(self.id.to_text())));
        members.push(entry("type", JsonValue::Text(self.credential_type.clone())));
        proof {
            lemma_view_object(members);
            assert(members.deep_view() =~= schema_json(self@)->Object_0);
        }
        JsonValue::Object(members)
    }
}

impl SchemaEnum {
    /// The schema references as JSON: an object for one, an array for a list.
    pub fn to_json(&self) -> (tree: JsonValue)
        ensures
            tree@ == schemas_json(self@),
            self@.wf(),
    {
        match self {
            SchemaEnum::Single(schema) => schema.to_json(),
            SchemaEnum::Multiple(schemas) => {
                let mut items: Vec<JsonValue> = Vec::new();
                let mut i: usize = 0;
                while i < schemas.len()
                    invariant
                        i <= schemas.len(),
                        items.len() == i,
                        forall|j: int|
                            0 <= j < i ==> (#[trigger] items[j])@ == schema_json(schemas[j]@),
                        forall|j: int| 0 <= j < i ==> (#[trigger] schemas[j])@.wf(),
                    decreases schemas.len() - i,
                {
                    items.push(schemas[i].to_json());
                    i += 1;
                }
                proof {
                    lemma_view_array(items);
                    assert(items.deep_view() =~= schemas.deep_view().map_values(
                        |schema: SchemaModel| schema_json(schema),
                    ));
                    assert forall|k: int| 0 <= k < schemas.len() implies (
                    #[trigger] schemas.deep_view()[k]).wf() by {
                        assert(schemas.deep_view()[k] == schemas[k]@);
                    }
                }
                JsonValue::Array(items)
            },
        }
    }
}

impl Proof {
    /// The proof as a JSON object.
    pub fn to_json(&self) -> (tree: JsonValue)
        ensures
            tree@ == proof_json(self@),
            self@.wf(),
    {
        let mut members: Vec<Member> = Vec::new();
        members.push(entry("type", JsonValue::Text(self.proof_type.clone())));
        members.push(entry("created", JsonValue::Text(self.created.to_text())));
        members.push(entry("cryptosuite", JsonValue::Text(self.cryptosuite.clone())));
        members.push(entry("proofPurpose", JsonValue::Text(self.proof_purpose.clone())));
        members.push(entry("proofValue", JsonValue::Text(self.proof_value.clone())));
        proof {
            lemma_view_object(members);
            assert(members.deep_view() =~= proof_json(self@)->Object_0);
        }
        JsonValue::Object(members)
    }
}

/// A proof that may be absent, as a JSON object or `null`.
pub fn optional_proof_to_json(attached: &Option<Proof>) -> (tree: JsonValue)
    ensures
        tree@ == optional_proof_json(attached.deep_view()),
        attached matches Some(p) ==> p@.wf(),
{
    match attached {
        Some(attached) => attached.to_json(),
        None => JsonValue::Null,
    }
}

impl VerifiableCredential {
    /// The credential as a JSON object of its twelve fields, with its proof
    /// or, where `signed` is false, with `null` in its place.
    pub fn to_json_with(&self, signed: bool) -> (tree: JsonValue)
        ensures
            tree@ == credential_json(
                if signed {
                    self@
                } else {
                    self@.unsigned()
                },
            ),
            self@.wf(),
    {
        let status = match &self.credential_status {
            Some(statuses) => statuses.to_json(),
            None => JsonValue::Null,
        };
        let attached = optional_proof_to_json(&self.proof);
        let mut members: Vec<Member> = Vec::new();
        members.push(entry("@context", urls_to_json(&self.context)));
        members.push(entry("id", optional_url_to_json(&self.id)));
        members.push(entry("type", self.vc_type.to_json()));
        members.push(entry("name", optional_text_to_json(&self.name)));
        members.push(entry("description", optional_text_to_json(&self.description)));
        members.push(entry("issuer", JsonValue::Text(self.issuer.to_text())));
        members.push(entry("validFrom", optional_timestamp_to_json(&self.valid_from)));
        members.push(entry("validUntil", optional_timestamp_to_json(&self.valid_until)));
        members.push(entry("credentialStatus", status));
        members.push(entry("credentialSchema", self.credential_schema.to_json()));
        members.push(entry("credentialSubject", self.credential_subject.clone()));
        members.push(
            entry(
                "proof",
                if signed {
                    attached
                } else {
                    JsonValue::Null
                },
            ),
        );
        proof {
            lemma_view_object(members);
            let model = if signed {
                self@
            } else {
                self@.unsigned()
            };
            assert(members.deep_view() =~= credential_json(model)->Object_0);
        }
        JsonValue::Object(members)
    }

    /// The credential as a JSON object of its twelve fields.
    pub fn to_json(&self) -> (tree: JsonValue)
        ensures
            tree@ == credential_json(self@),
            self@.wf(),
            credential_of_json(tree@) == Some(self@),
    {
        let tree = self.to_json_with(true);
        proof {
            lemma_credential_round_trip(self@);
        }
        tree
    }
}

impl VerifiableCredentialEnum {
    /// The credentials as JSON: an object for one, an array for a list.
    pub fn to_json(&self) -> (tree: JsonValue)
        ensures
            tree@ == credentials_json(self@),
            self@.wf(),
    {
        match self {
            VerifiableCredentialEnum::Single(credential) => credential.to_json(),
            VerifiableCredentialEnum::Multiple(credentials) => {
                let mut items: Vec<JsonValue> = Vec::new();
                let mut i: usize = 0;
                while i < credentials.len()
                    invariant
                        i <= credentials.len(),
                        items.len() == i,
                        forall|j: int|
                            0 <= j < i ==> (#[trigger] items[j])@ == credential_json(
                                credentials[j]@,
                            ),
                        forall|j: int| 0 <= j < i ==> (#[trigger] credentials[j])@.wf(),
                    decreases credentials.len() - i,
                {
                    items.push(credentials[i].to_json());
                    i += 1;
                }
                proof {
                    lemma_view_array(items);
                    assert(items.deep_view() =~= credentials.deep_view().map_values(
                        |credential: CredentialModel| credential_json(credential),
                    ));
                    assert forall|k: int| 0 <= k < credentials.len() implies (
                    #[trigger] credentials.deep_view()[k]).wf() by {
                        assert(credentials.deep_view()[k] == credentials[k]@);
                    }
                }
                JsonValue::Array(items)
            },
        }
    }
}

impl VerifiablePresentation {
    /// The presentation as a JSON object of its five fields, with its proof
    /// or, where `signed` is false, with `null` in its place.
    pub fn to_json_with(&self, signed: bool) -> (tree: JsonValue)
        ensures
            tree@ == presentation_json(
                if signed {
                    self@
                } else {
                    self@.unsigned()
                },
            ),
            self@.wf(),
    {
        let attached = optional_proof_to_json(&self.proof);
        let mut members: Vec<Member> = Vec::new();
        members.push(entry("id", optional_url_to_json(&self.id)));
        members.push(entry("type", self.vp_type.to_json()));
        members.push(entry("verifiableCredential", self.verifiable_credential.to_json()));
        members.push(entry("holder", optional_url_to_json(&self.holder)));
        members.push(
            entry(
                "proof",
                if signed {
                    attached
                } else {
                    JsonValue::Null
                },
            ),
        );
        proof {
            lemma_view_object(members);
            let model = if signed {
                self@
            } else {
                self@.unsigned()
            };
            assert(members.deep_view() =~= presentation_json(model)->Object_0);
        }
        JsonValue::Object(members)
    }

    /// The presentation as a JSON object of its five fields.
    pub fn to_json(&self) -> (tree: JsonValue)
        ensures
            tree@ == presentation_json(self@),
            self@.wf(),
            presentation_of_json(tree@) == Some(self@),
    {
        let tree = self.to_json_with(true);
        proof {
            lemma_presentation_round_trip(self@);
        }
        tree
    }
}

/// A `MalformedInput` with the given text.
pub fn malformed(text: &str) -> (error: Error)
    ensures
        error.failure() == Failure::MalformedInput,
        error.detail() == text@,
{
    Error::MalformedInput(String::from_str(text))
}

/// Whether `key` is among `known`.
pub fn is_known(known: &Vec<String>, key: &String) -> (found: bool)
    ensures
        found == known.deep_view().contains(key@),
{
    let mut i: usize = 0;
    while i < known.len()
        invariant
            i <= known.len(),
            forall|j: int| 0 <= j < i ==> (#[trigger] known.deep_view()[j]) != key@,
        decreases known.len() - i,
    {
        if known[i] == *key {
            assert(known.deep_view()[i as int] == key@);
            return true;
        }
        i += 1;
    }
    false
}

/// Whether every key of the object is among `known`.
pub fn keys_known(members: &Vec<Member>, known: &Vec<String>) -> (all: bool)
    ensures
        all == closed(members.deep_view(), known.deep_view()),
{
    let mut i: usize = 0;
    while i < members.len()
        invariant
            i <= members.len(),
            forall|j: int|
                0 <= j < i ==> known.deep_view().contains(
                    (#[trigger] members.deep_view()[j]).key,
                ),
        decreases members.len() - i,
    {
        if !is_known(known, &members[i].key) {
            assert(members.deep_view()[i as int].key == members[i as int].key@);
            return false;
        }
        assert(members.deep_view()[i as int].key == members[i as int].key@);
        i += 1;
    }
    true
}

/// The keys of a status and of a schema reference.
pub fn reference_key_list() -> (keys: Vec<String>)
    ensures
        keys.deep_view() == reference_keys(),
{
    let mut keys: Vec<String> = Vec::new();
    keys.push(String::from_str("id"));
    keys.push(String::from_str("type"));
    assert(keys.deep_view() =~= reference_keys());
    keys
}

/// The keys of a credential.
pub fn credential_key_list() -> (keys: Vec<String>)
    ensures
        keys.deep_view() == credential_keys(),
{
    let mut keys: Vec<String> = Vec::new();
    keys.push(String::from_str("@context"));
    keys.push(String::from_str("id"));
    keys.push(String::from_str("type"));
    keys.push(String::from_str("name"));
    keys.push(String::from_str("description"));
    keys.push(String::from_str("issuer"));
    keys.push(String::from_str("validFrom"));
    keys.push(String::from_str("validUntil"));
    keys.push(String::from_str("credentialStatus"));
    keys.push(String::from_str("credentialSchema"));
    keys.push(String::from_str("credentialSubject"));
    keys.push(String::from_str("proof"));
    assert(keys.deep_view() =~= credential_keys());
    keys
}

/// The keys of a presentation.
pub fn presentation_key_list() -> (keys: Vec<String>)
    ensures
        keys.deep_view() == presentation_keys(),
{
    let mut keys: Vec<String> = Vec::new();
    keys.push(String::from_str("id"));
    keys.push(String::from_str("type"));
    keys.push(String::from_str("verifiableCredential"));
    keys.push(String::from_str("holder"));
    keys.push(String::from_str("proof"));
    assert(keys.deep_view() =~= presentation_keys());
    keys
}

/// The text of a field that must hold a string.
pub fn text_from_json(value: Option<&JsonValue>) -> (outcome: Result<String, Error>)
    ensures
        match outcome {
            Ok(text) => text_of_json(value.deep_view()) == Some(text@),
            Err(error) => text_of_json(value.deep_view()) is None && error.failure()
                == Failure::MalformedInput,
        },
{
    match value {
        Some(JsonValue::Text(text)) => Ok(text.clone()),
        _ => Err(malformed("a field that must hold a string is absent or holds something else")),
    }
}

/// The text of a field that may be absent or `null`.
pub fn optional_text_from_json(value: Option<&JsonValue>) -> (outcome: Result<
    Option<String>,
    Error,
>)
    ensures
        match outcome {
            Ok(text) => optional_text_of_json(value.deep_view()) == Some(text.deep_view()),
            Err(error) => optional_text_of_json(value.deep_view()) is None && error.failure()
                == Failure::MalformedInput,
        },
{
    match value {
        None => Ok(None),
        Some(JsonValue::Null) => Ok(None),
        Some(JsonValue::Text(text)) => Ok(Some(text.clone())),
        _ => Err(malformed("a field that may hold a string holds something else")),
    }
}

/// The URL of a field that must hold one.
pub fn url_from_json(value: Option<&JsonValue>) -> (outcome: Result<Url, Error>)
    ensures
        match outcome {
            Ok(url) => url_of_json(value.deep_view()) == Some(url@) && is_url(url@),
            Err(error) => url_of_json(value.deep_view()) is None && error.failure()
                == Failure::MalformedInput,
        },
{
    match value {
        Some(JsonValue::Text(text)) => Url::parse(text.as_str()),
        _ => Err(malformed("a field that must hold a URL is absent or holds no string")),
    }
}

/// The URL of a field that may be absent or `null`.
pub fn optional_url_from_json(value: Option<&JsonValue>) -> (outcome: Result<Option<Url>, Error>)
    ensures
        match outcome {
            Ok(url) => optional_url_of_json(value.deep_view()) == Some(url.deep_view()) && (
            url matches Some(u) ==> is_url(u@)),
            Err(error) => optional_url_of_json(value.deep_view()) is None && error.failure()
                == Failure::MalformedInput,
        },
{
    match value {
        None => Ok(None),
        Some(JsonValue::Null) => Ok(None),
        Some(JsonValue::Text(text)) => match Url::parse(text.as_str()) {
            Ok(url) => Ok(Some(url)),
            Err(error) => Err(error),
        },
        _ => Err(malformed("a field that may hold a URL holds no string")),
    }
}

/// The texts of a list of strings.
pub fn texts_from_json(items: &Vec<JsonValue>) -> (outcome: Result<Vec<String>, Error>)
    ensures
        match outcome {
            Ok(texts) => texts_of_json(items.deep_view()) == Some(texts.deep_view()),
            Err(error) => texts_of_json(items.deep_view()) is None && error.failure()
                == Failure::MalformedInput,
        },
{
    let mut texts: Vec<String> = Vec::new();
    let mut i: usize = 0;
    while i < items.len()
        invariant
            i <= items.len(),
            texts.len() == i,
            forall|j: int|
                0 <= j < i ==> (#[trigger] items.deep_view()[j]) == JsonModel::Text(texts[j]@),
        decreases items.len() - i,
    {
        assert(items.deep_view()[i as int] == items[i as int]@);
        match &items[i] {
            JsonValue::Text(text) => {
                texts.push(text.clone());
            },
            _ => {
                return Err(malformed("an array of strings holds something else"));
            },
        }
        i += 1;
    }
    assert(items.deep_view().map_values(|item: JsonModel| item->Text_0) =~= texts.deep_view());
    Ok(texts)
}

/// The URLs of a field that must hold an array of them.
pub fn urls_from_json(value: Option<&JsonValue>) -> (outcome: Result<Vec<Url>, Error>)
    ensures
        match outcome {
            Ok(urls) => urls_of_json(value.deep_view()) == Some(urls.deep_view()) && forall|
                i: int,
            | 0 <= i < urls.len() ==> is_url(#[trigger] urls.deep_view()[i]),
            Err(error) => urls_of_json(value.deep_view()) is None && error.failure()
                == Failure::MalformedInput,
        },
{
    match value {
        Some(JsonValue::Array(items)) => {
            proof {
                lemma_view_array(*items);
            }
            let ghost models = items.deep_view();
            let mut urls: Vec<Url> = Vec::new();
            let mut i: usize = 0;
            while i < items.len()
                invariant
                    i <= items.len(),
                    urls.len() == i,
                    models == items.deep_view(),
                    value.deep_view() == Some(JsonModel::Array(models)),
                    forall|j: int|
                        0 <= j < i ==> #[trigger] url_of_json(Some(models[j])) == Some(urls[j]@),
                    forall|j: int| 0 <= j < i ==> is_url((#[trigger] urls[j])@),
                decreases items.len() - i,
            {
                assert(models[i as int] == items[i as int]@);
                match url_from_json(Some(&items[i])) {
                    Ok(url) => {
                        urls.push(url);
                    },
                    Err(error) => {
                        assert(url_of_json(Some(models[i as int])) is None);
                        return Err(error);
                    },
                }
                i += 1;
            }
            proof {
                assert(models.map_values(|item: JsonModel| url_of_json(Some(item)).unwrap())
                    =~= urls.deep_view());
                assert forall|k: int| 0 <= k < urls.len() implies is_url(
                    #[trigger] urls.deep_view()[k],
                ) by {
                    assert(urls[k]@ == urls[k]@);
                }
            }
            Ok(urls)
        },
        _ => Err(malformed("a field that must hold an array of URLs is absent or holds no array")),
    }
}

impl TypeEnum {
    /// The type of a field that must hold one: the single name where the
    /// field is a string, else the list where it is an array of strings.
    pub fn from_json(value: Option<&JsonValue>) -> (outcome: Result<TypeEnum, Error>)
        ensures
            match outcome {
                Ok(kind) => type_of_json(value.deep_view()) == Some(kind@),
                Err(error) => type_of_json(value.deep_view()) is None && error.failure()
                    == Failure::MalformedInput,
            },
    {
        match value {
            Some(JsonValue::Text(name)) => Ok(TypeEnum::Single(name.clone())),
            Some(JsonValue::Array(items)) => {
                proof {
                    lemma_view_array(*items);
                }
                match texts_from_json(items) {
                    Ok(names) => Ok(TypeEnum::Multiple(names)),
                    Err(error) => Err(error),
                }
            },
            _ => Err(malformed("a type is absent or is neither a string nor an array of strings")),
        }
    }
}

impl Timestamp {
    /// The instant of a field that must hold one as a text.
    pub fn from_json(value: Option<&JsonValue>) -> (outcome: Result<Timestamp, Error>)
        ensures
            match outcome {
                Ok(stamp) => instant_of_json(value.deep_view()) == Some(stamp@) && stamp@.wf(),
                Err(error) => instant_of_json(value.deep_view()) is None && error.failure()
                    == Failure::MalformedInput,
            },
    {
        match value {
            Some(JsonValue::Text(text)) => match Timestamp::parse(text.as_str()) {
                Some(stamp) => Ok(stamp),
                None => Err(malformed("a time is not in the form of RFC 3339")),
            },
            _ => Err(malformed("a time is absent or holds no string")),
        }
    }
}

/// The instant of a field that may be absent or `null`.
pub fn optional_timestamp_from_json(value: Option<&JsonValue>) -> (outcome: Result<
    Option<Timestamp>,
    Error,
>)
    ensures
        match outcome {
            Ok(stamp) => optional_instant_of_json(value.deep_view()) == Some(stamp.deep_view())
                && (stamp matches Some(s) ==> s@.wf()),
            Err(error) => optional_instant_of_json(value.deep_view()) is None && error.failure()
                == Failure::MalformedInput,
        },
{
    match value {
        None => Ok(None),
        Some(JsonValue::Null) => Ok(None),
        Some(value) => match Timestamp::from_json(Some(value)) {
            Ok(stamp) => Ok(Some(stamp)),
            Err(error) => Err(error),
        },
    }
}

impl CredentialStatus {
    /// The status that an object holds.
    pub fn from_json(value: &JsonValue) -> (outcome: Result<CredentialStatus, Error>)
        ensures
            match outcome {
                Ok(status) => status_of_json(value@) == Some(status@) && status@.wf(),
                Err(error) => status_of_json(value@) is None && error.failure()
                    == Failure::MalformedInput,
            },
    {
        match value {
            JsonValue::Object(members) => {
                proof {
                    lemma_view_object(*members);
                }
                if !keys_known(members, &reference_key_list()) {
                    return Err(malformed("a status holds a key that it does not have"));
                }
                let id = match optional_url_from_json(find_member(members, "id")) {
                    Ok(id) => id,
                    Err(error) => {
                        return Err(error);
                    },
                };
                match TypeEnum::from_json(find_member(members, "type")) {
                    Ok(status_type) => Ok(CredentialStatus { id, status_type }),
                    Err(error) => Err(error),
                }
            },
            _ => Err(malformed("a status is no object")),
        }
    }
}

impl StatusEnum {
    /// The statuses of a field that may be absent or `null`: the single
    /// status where the field reads as one, else the list.
    pub fn from_json(value: Option<&JsonValue>) -> (outcome: Result<Option<StatusEnum>, Error>)
        ensures
            match outcome {
                Ok(statuses) => statuses_of_json(value.deep_view()) == Some(statuses.deep_view())
                    && (statuses matches Some(s) ==> s@.wf()),
                Err(error) => statuses_of_json(value.deep_view()) is None && error.failure()
                    == Failure::MalformedInput,
            },
    {
        match value {
            None => Ok(None),
            Some(JsonValue::Null) => Ok(None),
            Some(given) => match CredentialStatus::from_json(given) {
                Ok(status) => Ok(Some(StatusEnum::Single(status))),
                Err(first) => match given {
                    JsonValue::Array(items) => {
                        proof {
                            lemma_view_array(*items);
                        }
                        let ghost models = items.deep_view();
                        let mut statuses: Vec<CredentialStatus> = Vec::new();
                        let mut i: usize = 0;
                        while i < items.len()
                            invariant
                                i <= items.len(),
                                statuses.len() == i,
                                models == items.deep_view(),
                                given@ == JsonModel::Array(models),
                                value.deep_view() == Some(given@),
                                status_of_json(given@) is None,
                                forall|j: int|
                                    0 <= j < i ==> #[trigger] status_of_json(models[j]) == Some(
                                        statuses[j]@,
                                    ),
                                forall|j: int| 0 <= j < i ==> (#[trigger] statuses[j])@.wf(),
                            decreases items.len() - i,
                        {
                            assert(models[i as int] == items[i as int]@);
                            match CredentialStatus::from_json(&items[i]) {
                                Ok(status) => {
                                    statuses.push(status);
                                },
                                Err(error) => {
                                    assert(status_of_json(models[i as int]) is None);
                                    return Err(error);
                                },
                            }
                            i += 1;
                        }
                        proof {
                            assert(models.map_values(
                                |item: JsonModel| status_of_json(item).unwrap(),
                            ) =~= statuses.deep_view());
                            assert forall|k: int| 0 <= k < statuses.len() implies (
                            #[trigger] statuses.deep_view()[k]).wf() by {
                                assert(statuses[k]@ == statuses[k]@);
                            }
                        }
                        Ok(Some(StatusEnum::Multiple(statuses)))
                    },
                    _ => Err(first),
                },
            },
        }
    }
}

impl CredentialSchema {
    /// The schema reference that an object holds.
    pub fn from_json(value: &JsonValue) -> (outcome: Result<CredentialSchema, Error>)
        ensures
            match outcome {
                Ok(schema) => schema_of_json(value@) == Some(schema@) && schema@.wf(),
                Err(error) => schema_of_json(value@) is None && error.failure()
                    == Failure::MalformedInput,
            },
    {
        match value {
            JsonValue::Object(members) => {
                proof {
                    lemma_view_object(*members);
                }
                if !keys_known(members, &reference_key_list()) {
                    return Err(malformed("a schema reference holds a key that it does not have"));
                }
                let id = match url_from_json(find_member(members, "id")) {
                    Ok(id) => id,
                    Err(error) => {
                        return Err(error);
                    },
                };
                match text_from_json(find_member(members, "type")) {
                    Ok(credential_type) => Ok(CredentialSchema { id, credential_type }),
                    Err(error) => Err(error),
                }
            },
            _ => Err(malformed("a schema reference is no object")),
        }
    }
}

impl SchemaEnum {
    /// The schema references of a field that must hold them: the single one
    /// where the field reads as one, else the list.
    pub fn from_json(value: Option<&JsonValue>) -> (outcome: Result<SchemaEnum, Error>)
        ensures
            match outcome {
                Ok(schemas) => schemas_of_json(value.deep_view()) == Some(schemas@)
                    && schemas@.wf(),
                Err(error) => schemas_of_json(value.deep_view()) is None && error.failure()
                    == Failure::MalformedInput,
            },
    {
        match value {
            None => Err(malformed("the schema reference is absent")),
            Some(given) => match CredentialSchema::from_json(given) {
                Ok(schema) => Ok(SchemaEnum::Single(schema)),
                Err(first) => match given {
                    JsonValue::Array(items) => {
                        proof {
                            lemma_view_array(*items);
                        }
                        let ghost models = items.deep_view();
                        let mut schemas: Vec<CredentialSchema> = Vec::new();
                        let mut i: usize = 0;
                        while i < items.len()
                            invariant
                                i <= items.len(),
                                schemas.len() == i,
                                models == items.deep_view(),
                                given@ == JsonModel::Array(models),
                                value.deep_view() == Some(given@),
                                schema_of_json(given@) is None,
                                forall|j: int|
                                    0 <= j < i ==> #[trigger] schema_of_json(models[j]) == Some(
                                        schemas[j]@,
                                    ),
                                forall|j: int| 0 <= j < i ==> (#[trigger] schemas[j])@.wf(),
                            decreases items.len() - i,
                        {
                            assert(models[i as int] == items[i as int]@);
                            match CredentialSchema::from_json(&items[i]) {
                                Ok(schema) => {
                                    schemas.push(schema);
                                },
                                Err(error) => {
                                    assert(schema_of_json(models[i as int]) is None);
                                    return Err(error);
                                },
                            }
                            i += 1;
                        }
                        proof {
                            assert(models.map_values(
                                |item: JsonModel| schema_of_json(item).unwrap(),
                            ) =~= schemas.deep_view());
                            assert forall|k: int| 0 <= k < schemas.len() implies (
                            #[trigger] schemas.deep_view()[k]).wf() by {
                                assert(schemas[k]@ == schemas[k]@);
                            }
                        }
                        Ok(SchemaEnum::Multiple(schemas))
                    },
                    _ => Err(first),
                },
            },
        }
    }
}

impl Proof {
    /// The proof that an object holds. Keys other than its five are passed over.
    pub fn from_json(value: &JsonValue) -> (outcome: Result<Proof, Error>)
        ensures
            match outcome {
                Ok(made) => proof_of_json(value@) == Some(made@) && made@.wf(),
                Err(error) => proof_of_json(value@) is None && error.failure()
                    == Failure::MalformedInput,
            },
    {
        match value {
            JsonValue::Object(members) => {
                proof {
                    lemma_view_object(*members);
                }
                let proof_type = match text_from_json(find_member(members, "type")) {
                    Ok(proof_type) => proof_type,
                    Err(error) => {
                        return Err(error);
                    },
                };
                let created = match Timestamp::from_json(find_member(members, "created")) {
                    Ok(created) => created,
                    Err(error) => {
                        return Err(error);
                    },
                };
                let cryptosuite = match text_from_json(find_member(members, "cryptosuite")) {
                    Ok(cryptosuite) => cryptosuite,
                    Err(error) => {
                        return Err(error);
                    },
                };
                let proof_purpose = match text_from_json(find_member(members, "proofPurpose")) {
                    Ok(proof_purpose) => proof_purpose,
                    Err(error) => {
                        return Err(error);
                    },
                };
                match text_from_json(find_member(members, "proofValue")) {
                    Ok(proof_value) => Ok(
                        Proof { proof_type, created, cryptosuite, proof_purpose, proof_value },
                    ),
                    Err(error) => Err(error),
                }
            },
            _ => Err(malformed("a proof is no object")),
        }
    }
}

/// The proof of a field that may be absent or `null`.
pub fn optional_proof_from_json(value: Option<&JsonValue>) -> (outcome: Result<
    Option<Proof>,
    Error,
>)
    ensures
        match outcome {
            Ok(made) => optional_proof_of_json(value.deep_view()) == Some(made.deep_view()) && (
            made matches Some(p) ==> p@.wf()),
            Err(error) => optional_proof_of_json(value.deep_view()) is None && error.failure()
                == Failure::MalformedInput,
        },
{
    match value {
        None => Ok(None),
        Some(JsonValue::Null) => Ok(None),
        Some(value) => match Proof::from_json(value) {
            Ok(made) => Ok(Some(made)),
            Err(error) => Err(error),
        },
    }
}

impl VerifiableCredential {
    /// The credential that a tree holds. Fails with `MalformedInput` where
    /// the tree is no object, has a key that a credential does not have,
    /// lacks a field that must be there, or a field of it fails.
    pub fn from_json(value: &JsonValue) -> (outcome: Result<VerifiableCredential, Error>)
        ensures
            match outcome {
                Ok(credential) => credential_of_json(value@) == Some(credential@)
                    && credential@.wf(),
                Err(error) => credential_of_json(value@) is None && error.failure()
                    == Failure::MalformedInput,
            },
    {
        match value {
            JsonValue::Object(members) => {
                proof {
                    lemma_view_object(*members);
                }
                if !keys_known(members, &credential_key_list()) {
                    return Err(malformed("a credential holds a key that it does not have"));
                }
                let context = match urls_from_json(find_member(members, "@context")) {
                    Ok(context) => context,
                    Err(error) => {
                        return Err(error);
                    },
                };
                let id = match optional_url_from_json(find_member(members, "id")) {
                    Ok(id) => id,
                    Err(error) => {
                        return Err(error);
                    },
                };
                let vc_type = match TypeEnum::from_json(find_member(members, "type")) {
                    Ok(vc_type) => vc_type,
                    Err(error) => {
                        return Err(error);
                    },
                };
                let name = match optional_text_from_json(find_member(members, "name")) {
                    Ok(name) => name,
                    Err(error) => {
                        return Err(error);
                    },
                };
                let description = match optional_text_from_json(
                    find_member(members, "description"),
                ) {
                    Ok(description) => description,
                    Err(error) => {
                        return Err(error);
                    },
                };
                let issuer = match url_from_json(find_member(members, "issuer")) {
                    Ok(issuer) => issuer,
                    Err(error) => {
                        return Err(error);
                    },
                };
                let valid_from = match optional_timestamp_from_json(
                    find_member(members, "validFrom"),
                ) {
                    Ok(valid_from) => valid_from,
                    Err(error) => {
                        return Err(error);
                    },
                };
                let valid_until = match optional_timestamp_from_json(
                    find_member(members, "validUntil"),
                ) {
                    Ok(valid_until) => valid_until,
                    Err(error) => {
                        return Err(error);
                    },
                };
                let credential_status = match StatusEnum::from_json(
                    find_member(members, "credentialStatus"),
                ) {
                    Ok(credential_status) => credential_status,
                    Err(error) => {
                        return Err(error);
                    },
                };
                let credential_schema = match SchemaEnum::from_json(
                    find_member(members, "credentialSchema"),
                ) {
                    Ok(credential_schema) => credential_schema,
                    Err(error) => {
                        return Err(error);
                    },
                };
                let credential_subject = match find_member(members, "credentialSubject") {
                    Some(subject) => subject.clone(),
                    None => {
                        return Err(malformed("the subject of the credential is absent"));
                    },
                };
                let attached = match optional_proof_from_json(find_member(members, "proof")) {
                    Ok(attached) => attached,
                    Err(error) => {
                        return Err(error);
                    },
                };
                Ok(
                    VerifiableCredential {
                        context,
                        id,
                        vc_type,
                        name,
                        description,
                        issuer,
                        valid_from,
                        valid_until,
                        credential_status,
                        credential_schema,
                        credential_subject,
                        proof: attached,
                    },
                )
            },
            _ => Err(malformed("a credential is no object")),
        }
    }
}

impl VerifiableCredentialEnum {
    /// The credentials of a field that must hold them: the single one where
    /// the field reads as one, else the list.
    pub fn from_json(value: Option<&JsonValue>) -> (outcome: Result<
        VerifiableCredentialEnum,
        Error,
    >)
        ensures
            match outcome {
                Ok(credentials) => credentials_of_json(value.deep_view()) == Some(credentials@)
                    && credentials@.wf(),
                Err(error) => credentials_of_json(value.deep_view()) is None && error.failure()
                    == Failure::MalformedInput,
            },
    {
        match value {
            None => Err(malformed("the credential of the presentation is absent")),
            Some(given) => match VerifiableCredential::from_json(given) {
                Ok(credential) => Ok(VerifiableCredentialEnum::Single(credential)),
                Err(first) => match given {
                    JsonValue::Array(items) => {
                        proof {
                            lemma_view_array(*items);
                        }
                        let ghost models = items.deep_view();
                        let mut credentials: Vec<VerifiableCredential> = Vec::new();
                        let mut i: usize = 0;
                        while i < items.len()
                            invariant
                                i <= items.len(),
                                credentials.len() == i,
                                models == items.deep_view(),
                                given@ == JsonModel::Array(models),
                                value.deep_view() == Some(given@),
                                credential_of_json(given@) is None,
                                forall|j: int|
                                    0 <= j < i ==> #[trigger] credential_of_json(models[j])
                                        == Some(credentials[j]@),
                                forall|j: int| 0 <= j < i ==> (#[trigger] credentials[j])@.wf(),
                            decreases items.len() - i,
                        {
                            assert(models[i as int] == items[i as int]@);
                            match VerifiableCredential::from_json(&items[i]) {
                                Ok(credential) => {
                                    credentials.push(credential);
                                },
                                Err(error) => {
                                    assert(credential_of_json(models[i as int]) is None);
                                    return Err(error);
                                },
                            }
                            i += 1;
                        }
                        proof {
                            assert(models.map_values(
                                |item: JsonModel| credential_of_json(item).unwrap(),
                            ) =~= credentials.deep_view());
                            assert forall|k: int| 0 <= k < credentials.len() implies (
                            #[trigger] credentials.deep_view()[k]).wf() by {
                                assert(credentials[k]@ == credentials[k]@);
                            }
                        }
                        Ok(VerifiableCredentialEnum::Multiple(credentials))
                    },
                    _ => Err(first),
                },
            },
        }
    }
}

impl VerifiablePresentation {
    /// Reads a presentation from a JSON tree. See [`Self::from_json`].
    pub fn new(value: &JsonValue) -> (outcome: Result<VerifiablePresentation, Error>)
        ensures
            match outcome {
                Ok(presentation) => presentation_of_json(value@) == Some(presentation@)
                    && presentation@.wf(),
                Err(error) => presentation_of_json(value@) is None && error.failure()
                    == Failure::MalformedInput,
            },
    {
        VerifiablePresentation::from_json(value)
    }

    /// The presentation that a tree holds. Fails with `MalformedInput` where
    /// the tree is no object, has a key that a presentation does not have, or
    /// a field of it fails.
    pub fn from_json(value: &JsonValue) -> (outcome: Result<VerifiablePresentation, Error>)
        ensures
            match outcome {
                Ok(presentation) => presentation_of_json(value@) == Some(presentation@)
                    && presentation@.wf(),
                Err(error) => presentation_of_json(value@) is None && error.failure()
                    == Failure::MalformedInput,
            },
    {
        match value {
            JsonValue::Object(members) => {
                proof {
                    lemma_view_object(*members);
                }
                if !keys_known(members, &presentation_key_list()) {
                    return Err(malformed("a presentation holds a key that it does not have"));
                }
                let id = match optional_url_from_json(find_member(members, "id")) {
                    Ok(id) => id,
                    Err(error) => {
                        return Err(error);
                    },
                };
                let vp_type = match TypeEnum::from_json(find_member(members, "type")) {
                    Ok(vp_type) => vp_type,
                    Err(error) => {
                        return Err(error);
                    },
                };
                let verifiable_credential = match VerifiableCredentialEnum::from_json(
                    find_member(members, "verifiableCredential"),
                ) {
                    Ok(verifiable_credential) => verifiable_credential,
                    Err(error) => {
                        return Err(error);
                    },
                };
                let holder = match optional_url_from_json(find_member(members, "holder")) {
                    Ok(holder) => holder,
                    Err(error) => {
                        return Err(error);
                    },
                };
                let attached = match optional_proof_from_json(find_member(members, "proof")) {
                    Ok(attached) => attached,
                    Err(error) => {
                        return Err(error);
                    },
                };
                Ok(
                    VerifiablePresentation {
                        id,
                        vp_type,
                        verifiable_credential,
                        holder,
                        proof: attached,
                    },
                )
            },
            _ => Err(malformed("a presentation is no object")),
        }
    }
}

} // verus!
