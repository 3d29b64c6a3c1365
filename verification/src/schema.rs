//! The schema check: a subject is held against a schema only once the
//! schema can be trusted.
//!
//! A credential that names the JSON Schema meta-schema is checked against
//! the copy of it that this library carries: that is the root of trust, and
//! lets a credential that defines a schema stand without another signer.
//! Every other credential needs a schema that is itself a signed
//! credential. Its signature is verified first, and its subject is used as
//! a schema only after that. The schema of the schema is not looked at: the
//! chain has one link.

use vstd::prelude::*;
use crate::error::{Error, Failure};
use crate::json::{json_parsed, to_outside, JsonModel, JsonValue};
use crate::json_codec::credential_of_json;
use crate::model::{CredentialModel, SchemaEnum, SchemasModel, VerifiableCredential};
use crate::signing::credential_verdict;

verus! {

/// The identifier of the JSON Schema meta-schema.
pub const META_SCHEMA_ID: &'static str = "https://json-schema.org/draft/2020-12/schema";

/// The meta-schema of JSON Schema, draft 2020-12.
pub const META_SCHEMA: &'static str =
    "{\"$schema\":\"https://json-schema.org/draft/2020-12/schema\",\
\"$id\":\"https://json-schema.org/draft/2020-12/schema\",\
\"$vocabulary\":{\
\"https://json-schema.org/draft/2020-12/vocab/core\":true,\
\"https://json-schema.org/draft/2020-12/vocab/applicator\":true,\
\"https://json-schema.org/draft/2020-12/vocab/unevaluated\":true,\
\"https://json-schema.org/draft/2020-12/vocab/validation\":true,\
\"https://json-schema.org/draft/2020-12/vocab/meta-data\":true,\
\"https://json-schema.org/draft/2020-12/vocab/format-annotation\":true,\
\"https://json-schema.org/draft/2020-12/vocab/content\":true},\
\"$dynamicAnchor\":\"meta\",\
\"title\":\"Core and Validation specifications meta-schema\",\
\"allOf\":[{\"$ref\":\"meta/core\"},{\"$ref\":\"meta/applicator\"},\
{\"$ref\":\"meta/unevaluated\"},{\"$ref\":\"meta/validation\"},\
{\"$ref\":\"meta/meta-data\"},{\"$ref\":\"meta/format-annotation\"},\
{\"$ref\":\"meta/content\"}],\
\"type\":[\"object\",\"boolean\"],\
\"properties\":{\
\"definitions\":{\"type\":\"object\",\
\"additionalProperties\":{\"$dynamicRef\":\"#meta\"},\"deprecated\":true,\"default\":{}},\
\"dependencies\":{\"type\":\"object\",\
\"additionalProperties\":{\"anyOf\":[{\"$dynamicRef\":\"#meta\"},\
{\"$ref\":\"meta/validation#/$defs/stringArray\"}]},\"deprecated\":true,\"default\":{}},\
\"$recursiveAnchor\":{\"$ref\":\"meta/core#/$defs/anchorString\",\"deprecated\":true},\
\"$recursiveRef\":{\"$ref\":\"meta/core#/$defs/uriReferenceString\",\"deprecated\":true}}}";

/// One way in which a value breaks a schema: what is wrong, and where in the
/// value.
#[derive(Clone, Debug)]
pub struct Violation {
    pub message: String,
    pub instance_path: String,
}

/// The mathematical value of a [`Violation`].
pub ghost struct ViolationModel {
    pub message: Seq<char>,
    pub instance_path: Seq<char>,
}

impl DeepView for Violation {
    type V = ViolationModel;

    open spec fn deep_view(&self) -> ViolationModel {
        ViolationModel { message: self.message@, instance_path: self.instance_path@ }
    }
}

/// Whether `jsonschema` takes a tree for a schema: whether it builds a
/// validator from it, with the draft detected from the tree and nothing
/// fetched from outside.
pub uninterp spec fn schema_compiles(schema: JsonModel) -> bool;

/// Whether the validator that `jsonschema` builds from a schema finds no
/// error in a value.
pub uninterp spec fn schema_accepts(schema: JsonModel, instance: JsonModel) -> bool;

/// `jsonschema::validator_for` on the schema, then `iter_errors` of the
/// validator on the value, each error as its message and its place in the
/// value. It fails exactly where the schema does not compile. The contract
/// names whether it failed and whether there is any error; it says nothing of
/// which errors there are nor of their order.
#[verifier::external_body]
fn violations_outside(schema: &JsonValue, instance: &JsonValue) -> (outcome: Result<
    Vec<Violation>,
    String,
>)
    ensures
        match outcome {
            Ok(found) => schema_compiles(schema@) && (found.len() == 0 <==> schema_accepts(
                schema@,
                instance@,
            )),
            Err(_) => !schema_compiles(schema@),
        },
{
    let instance = to_outside(instance);
    match jsonschema::validator_for(&to_outside(schema)) {
        Ok(validator) => Ok(
            validator.iter_errors(&instance).map(
                |error|
                    Violation {
                        message: error.to_string(),
                        instance_path: error.instance_path().to_string(),
                    },
            ).collect(),
        ),
        Err(error) => Err(error.to_string()),
    }
}

/// The line that reports one violation.
pub open spec fn violation_line(violation: ViolationModel) -> Seq<char> {
    "Schema validation error: "@ + violation.message + " At: "@ + violation.instance_path
}

/// The report of a list of violations: one line each, in their order.
pub open spec fn report_text(violations: Seq<ViolationModel>) -> Seq<char>
    decreases violations.len(),
{
    if violations.len() == 0 {
        Seq::empty()
    } else if violations.len() == 1 {
        violation_line(violations[0])
    } else {
        report_text(violations.drop_last()) + "\n"@ + violation_line(violations.last())
    }
}

/// Turns the violations that a validator found into the outcome of the
/// check: success where there is none, else a `SchemaValidation` that
/// reports every one of them.
pub fn report(violations: &Vec<Violation>) -> (outcome: Result<(), Error>)
    ensures
        match outcome {
            Ok(_) => violations.len() == 0,
            Err(error) => violations.len() > 0 && error.failure() == Failure::SchemaValidation
                && error.detail() == report_text(violations.deep_view()),
        },
{
    if violations.len() == 0 {
        return Ok(());
    }
    let mut text = String::from_str("");
    let mut i: usize = 0;
    proof {
        reveal_strlit("");
        assert(violations.deep_view().take(0) =~= Seq::<ViolationModel>::empty());
    }
    while i < violations.len()
        invariant
            i <= violations.len(),
            text@ == report_text(violations.deep_view().take(i as int)),
        decreases violations.len() - i,
    {
        let ghost before = violations.deep_view().take(i as int);
        let ghost after = violations.deep_view().take(i + 1);
        if i > 0 {
            text.append("\n");
        }
        text.append("Schema validation error: ");
        text.append(violations[i].message.as_str());
        text.append(" At: ");
        text.append(violations[i].instance_path.as_str());
        proof {
            assert(after.drop_last() =~= before);
            assert(after.last() == violations[i as int].deep_view());
            if i == 0 {
                assert(text@ =~= violation_line(after[0]));
            } else {
                assert(text@ =~= report_text(before) + "\n"@ + violation_line(after.last()));
            }
        }
        i += 1;
    }
    assert(violations.deep_view().take(violations.len() as int) =~= violations.deep_view());
    Err(Error::SchemaValidation(text))
}

/// The text reports a list of violations that is not empty: a line for each
/// of them, with what is wrong and where.
pub open spec fn reports_violations(text: Seq<char>) -> bool {
    exists|found: Seq<ViolationModel>| found.len() > 0 && text == #[trigger] report_text(found)
}

/// The schema is one, and the subject breaks it.
pub open spec fn breaks(schema: Option<JsonModel>, subject: JsonModel) -> bool {
    schema matches Some(schema) && schema_compiles(schema) && !schema_accepts(schema, subject)
}

/// What holding a subject against a schema comes to: success where the
/// schema is one and the subject meets it, `SchemaValidation` where the
/// subject breaks it or the schema is no schema.
pub open spec fn subject_outcome(schema: Option<JsonModel>, subject: JsonModel) -> Result<
    (),
    Failure,
> {
    match schema {
        Some(schema) => if schema_compiles(schema) && schema_accepts(schema, subject) {
            Ok(())
        } else {
            Err(Failure::SchemaValidation)
        },
        None => Err(Failure::SchemaValidation),
    }
}

/// Holds a subject against a schema. Where the subject breaks the schema,
/// the text of the failure reports every violation that was found.
pub fn check_subject(schema: &JsonValue, subject: &JsonValue) -> (outcome: Result<(), Error>)
    ensures
        match outcome {
            Ok(_) => subject_outcome(Some(schema@), subject@) is Ok,
            Err(error) => {
                &&& subject_outcome(Some(schema@), subject@) is Err
                &&& error.failure() == Failure::SchemaValidation
                &&& breaks(Some(schema@), subject@) ==> reports_violations(error.detail())
            },
        },
{
    match violations_outside(schema, subject) {
        Ok(violations) => report(&violations),
        Err(reason) => Err(Error::SchemaValidation(reason)),
    }
}

/// A schema as a signed credential, with the public key of its signer.
pub struct SignedSchema<'a> {
    pub vc: VerifiableCredential,
    pub public_key: &'a [u8],
}

/// The mathematical value of a [`SignedSchema`].
pub ghost struct SignedSchemaModel {
    pub vc: CredentialModel,
    pub public_key: Seq<u8>,
}

impl<'a> DeepView for SignedSchema<'a> {
    type V = SignedSchemaModel;

    open spec fn deep_view(&self) -> SignedSchemaModel {
        SignedSchemaModel { vc: self.vc@, public_key: self.public_key@ }
    }
}

impl<'a> SignedSchema<'a> {
    /// A schema credential and the key to verify it with.
    pub fn new(vc: VerifiableCredential, public_key: &'a [u8]) -> (schema: Self)
        ensures
            schema.deep_view() == (SignedSchemaModel { vc: vc@, public_key: public_key@ }),
    {
        Self { vc, public_key }
    }
}

/// The credential names the meta-schema as its one schema.
pub open spec fn names_meta_schema(credential: CredentialModel) -> bool {
    credential.credential_schema matches SchemasModel::Single(schema) && schema.id
        == META_SCHEMA_ID@
}

/// What the schema check says of a credential and the schema supplied with it.
pub open spec fn check_outcome(credential: CredentialModel, schema: Option<SignedSchemaModel>)
    -> Result<(), Failure> {
    if names_meta_schema(credential) {
        subject_outcome(json_parsed(META_SCHEMA@), credential.credential_subject)
    } else {
        match schema {
            None => Err(Failure::MissingSchema),
            Some(schema) => if credential_verdict(schema.vc, schema.public_key) is Ok {
                subject_outcome(
                    Some(schema.vc.credential_subject),
                    credential.credential_subject,
                )
            } else {
                Err(Failure::UntrustedSchema)
            },
        }
    }
}

/// The subject was held against a schema, the meta-schema or a trusted one,
/// and breaks it.
pub open spec fn breaks_schema(credential: CredentialModel, schema: Option<SignedSchemaModel>)
    -> bool {
    if names_meta_schema(credential) {
        breaks(json_parsed(META_SCHEMA@), credential.credential_subject)
    } else {
        schema matches Some(supplied) && credential_verdict(supplied.vc, supplied.public_key)
            is Ok && breaks(Some(supplied.vc.credential_subject), credential.credential_subject)
    }
}

/// No subject is held against a schema that cannot be trusted: where the
/// credential does not name the meta-schema and the schema credential does
/// not verify under the key supplied, the check fails with `UntrustedSchema`,
/// whatever the subject and the schema say; and where no schema is supplied
/// at all, with `MissingSchema`.
pub proof fn lemma_untrusted_schema_is_refused(
    credential: CredentialModel,
    schema: Option<SignedSchemaModel>,
)
    requires
        !names_meta_schema(credential),
    ensures
        schema is None ==> check_outcome(credential, schema) == Err::<(), Failure>(
            Failure::MissingSchema,
        ),
        schema matches Some(supplied) ==> !(credential_verdict(supplied.vc, supplied.public_key)
            is Ok) ==> check_outcome(credential, schema) == Err::<(), Failure>(
            Failure::UntrustedSchema,
        ),
{
}

impl VerifiableCredential {
    /// Whether the credential names the meta-schema as its one schema.
    pub fn names_meta_schema(&self) -> (named: bool)
        ensures
            named == names_meta_schema(self@),
    {
        match &self.credential_schema {
            SchemaEnum::Single(schema) => {
                let wanted = String::from_str(META_SCHEMA_ID);
                schema.id.to_text() == wanted
            },
            SchemaEnum::Multiple(_) => false,
        }
    }

    /// Checks the subject of the credential against its schema and hands the
    /// credential back where it passes. See [`check_outcome`] for what
    /// decides. Where the subject breaks the schema, the text of the failure
    /// reports every violation that was found.
    pub fn schema_check(self, schema: Option<SignedSchema>) -> (outcome: Result<
        VerifiableCredential,
        Error,
    >)
        ensures
            match outcome {
                Ok(checked) => checked@ == self@ && check_outcome(self@, schema.deep_view())
                    is Ok,
                Err(error) => {
                    &&& check_outcome(self@, schema.deep_view()) == Err::<(), Failure>(
                        error.failure(),
                    )
                    &&& breaks_schema(self@, schema.deep_view()) ==> reports_violations(
                        error.detail(),
                    )
                },
            },
    {
        let checked = if self.names_meta_schema() {
            match JsonValue::parse(META_SCHEMA) {
                Ok(meta) => check_subject(&meta, &self.credential_subject),
                Err(error) => Err(Error::SchemaValidation(error.message())),
            }
        } else {
            match schema {
                None => Err(Error::MissingSchema),
                Some(supplied) => match supplied.vc.verify(supplied.public_key) {
                    Ok(_) => check_subject(
                        &supplied.vc.credential_subject,
                        &self.credential_subject,
                    ),
                    Err(_) => Err(Error::UntrustedSchema),
                },
            }
        };
        match checked {
            Ok(_) => Ok(self),
            Err(error) => Err(error),
        }
    }

    /// Reads a credential from a JSON tree and checks its subject against
    /// its schema. Fails with `MalformedInput` exactly where the tree holds
    /// no credential, and else as the schema check does: where the subject
    /// breaks the schema, the text of the failure reports every violation
    /// that was found.
    pub fn new(value: &JsonValue, schema: Option<SignedSchema>) -> (outcome: Result<
        VerifiableCredential,
        Error,
    >)
        ensures
            match outcome {
                Ok(credential) => credential_of_json(value@) == Some(credential@)
                    && check_outcome(credential@, schema.deep_view()) is Ok,
                Err(error) => match credential_of_json(value@) {
                    None => error.failure() == Failure::MalformedInput,
                    Some(credential) => {
                        &&& check_outcome(credential, schema.deep_view()) == Err::<(), Failure>(
                            error.failure(),
                        )
                        &&& breaks_schema(credential, schema.deep_view()) ==> reports_violations(
                            error.detail(),
                        )
                    },
                },
            },
    {
        match VerifiableCredential::from_json(value) {
            Ok(credential) => credential.schema_check(schema),
            Err(error) => Err(error),
        }
    }
}

} // verus!
