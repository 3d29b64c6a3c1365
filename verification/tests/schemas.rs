use vc_signing::builder::{fresh_uuid, urn_of};
use vc_signing::github::{download_url_of, schema_of_content};
use vc_signing::schema::{check_subject, report, SignedSchema, Violation};
use vc_signing::{
    construct_github_api_url, Error, Failure, JsonValue, SchemaEnum, SignatureKeyPair, Timestamp,
    TypeEnum, Url, VerifiableCredential, VerifiableCredentialBuilder,
};

const SCHEMA_SUBJECT: &str = r#"{
    "$id": "urn:uuid:9a2dc235-17a2-471c-b1f3-a8b29ed4a3d3",
    "$schema": "https://json-schema.org/draft/2020-12/schema",
    "title": "example",
    "type": "object",
    "properties": {
        "id": {"type": "string"},
        "created_at": {"type": "integer"}
    },
    "required": ["id", "created_at"]
}"#;

fn schema_credential(pair: &SignatureKeyPair) -> VerifiableCredential {
    VerifiableCredential::create(JsonValue::parse(SCHEMA_SUBJECT).unwrap(), None)
        .unwrap()
        .sign(&pair.private_key)
        .unwrap()
}

fn failure<T>(outcome: Result<T, Error>) -> Failure {
    match outcome {
        Ok(_) => panic!("the operation succeeded"),
        Err(error) => error.kind(),
    }
}

fn subject(text: &str) -> JsonValue {
    JsonValue::parse(text).unwrap()
}

#[test]
fn subject_that_meets_a_trusted_schema_passes() {
    let pair = SignatureKeyPair::new().unwrap();
    let schema = schema_credential(&pair);
    let vc = VerifiableCredential::create(
        subject(r#"{"id": "example_id", "created_at": 1724929200}"#),
        Some(SignedSchema::new(schema, &pair.public_key)),
    )
    .unwrap();
    assert!(matches!(&vc.credential_schema, SchemaEnum::Single(schema)
        if schema.id.as_str() == "urn:uuid:9a2dc235-17a2-471c-b1f3-a8b29ed4a3d3"
            && schema.credential_type == "JsonSchema"));
    assert_eq!(
        vc.credential_subject.to_text(),
        r#"{"created_at":1724929200,"id":"example_id"}"#
    );
}

#[test]
fn schema_that_is_unsigned_or_signed_by_another_is_untrusted() {
    let pair = SignatureKeyPair::new().unwrap();
    let other = SignatureKeyPair::new().unwrap();
    let good = subject(r#"{"id": "example_id", "created_at": 1}"#);

    let unsigned = VerifiableCredential::create(subject(SCHEMA_SUBJECT), None).unwrap();
    assert_eq!(
        failure(VerifiableCredential::create(
            good.clone(),
            Some(SignedSchema::new(unsigned, &pair.public_key))
        )),
        Failure::UntrustedSchema
    );

    let signed = schema_credential(&pair);
    assert_eq!(
        failure(VerifiableCredential::create(
            good.clone(),
            Some(SignedSchema::new(signed.clone(), &other.public_key))
        )),
        Failure::UntrustedSchema
    );

    let mut changed = signed;
    changed.credential_subject = subject(r#"{"$id": "urn:uuid:9a2dc235-17a2-471c-b1f3-a8b29ed4a3d3"}"#);
    assert_eq!(
        failure(VerifiableCredential::create(
            good,
            Some(SignedSchema::new(changed, &pair.public_key))
        )),
        Failure::UntrustedSchema
    );
}

#[test]
fn untrusted_schema_is_not_even_looked_at() {
    let pair = SignatureKeyPair::new().unwrap();
    let unsigned = VerifiableCredential::create(subject(SCHEMA_SUBJECT), None).unwrap();
    let breaks_it = subject(r#"{"created_at": "soon"}"#);
    assert_eq!(
        failure(VerifiableCredential::create(
            breaks_it,
            Some(SignedSchema::new(unsigned, &pair.public_key))
        )),
        Failure::UntrustedSchema
    );
}

#[test]
fn missing_field_is_reported_with_its_name() {
    let pair = SignatureKeyPair::new().unwrap();
    let schema = schema_credential(&pair);
    let outcome = VerifiableCredential::create(
        subject(r#"{"created_at": 1724929200}"#),
        Some(SignedSchema::new(schema, &pair.public_key)),
    );
    match outcome {
        Err(error) => {
            assert_eq!(error.kind(), Failure::SchemaValidation);
            let message = error.message();
            assert!(message.starts_with("Schema validation error: "));
            assert!(message.contains("\"id\""));
            assert!(message.contains(" At: "));
            assert_eq!(message.lines().count(), 1);
        }
        Ok(_) => panic!("the subject passed"),
    }
}

#[test]
fn every_violation_is_reported() {
    let pair = SignatureKeyPair::new().unwrap();
    let schema = schema_credential(&pair);
    let outcome = VerifiableCredential::create(
        subject(r#"{"id": 7, "created_at": "soon"}"#),
        Some(SignedSchema::new(schema, &pair.public_key)),
    );
    match outcome {
        Err(error) => {
            assert_eq!(error.kind(), Failure::SchemaValidation);
            let message = error.message();
            assert_eq!(message.lines().count(), 2);
            assert!(message.contains(" At: /id"));
            assert!(message.contains(" At: /created_at"));
            for line in message.lines() {
                assert!(line.starts_with("Schema validation error: "));
            }
        }
        Ok(_) => panic!("the subject passed"),
    }
}

#[test]
fn empty_subject_is_reported_for_each_field_that_it_lacks() {
    let pair = SignatureKeyPair::new().unwrap();
    let schema = schema_credential(&pair);
    let text = r#"{
        "@context": ["https://www.w3.org/ns/credentials/v2"],
        "type": "VerifiableCredential",
        "issuer": "urn:uuid:67cddd6f-727f-4aea-91d4-e5f314252671",
        "credentialSchema": {"id": "urn:uuid:9a2dc235-17a2-471c-b1f3-a8b29ed4a3d3", "type": "JsonSchema"},
        "credentialSubject": {}
    }"#;
    let vc = VerifiableCredential::from_json(&subject(text)).unwrap();
    match vc.schema_check(Some(SignedSchema::new(schema, &pair.public_key))) {
        Err(error) => {
            assert_eq!(error.kind(), Failure::SchemaValidation);
            let message = error.message();
            assert!(message.lines().count() >= 2);
            assert!(message.contains("\"id\""));
            assert!(message.contains("\"created_at\""));
            for line in message.lines() {
                assert!(line.starts_with("Schema validation error: "));
                assert!(line.contains(" At: "));
            }
        }
        Ok(_) => panic!("the subject passed"),
    }
}

#[test]
fn report_names_each_violation_on_a_line_of_its_own() {
    assert!(report(&vec![]).is_ok());
    let one = Violation {
        message: "a".to_string(),
        instance_path: "/x".to_string(),
    };
    let two = Violation {
        message: "b".to_string(),
        instance_path: "".to_string(),
    };
    match report(&vec![one.clone()]) {
        Err(error) => {
            assert_eq!(error.kind(), Failure::SchemaValidation);
            assert_eq!(error.message(), "Schema validation error: a At: /x");
        }
        Ok(_) => panic!("no violation was reported"),
    }
    match report(&vec![one.clone(), two.clone(), one]) {
        Err(error) => assert_eq!(
            error.message(),
            "Schema validation error: a At: /x\nSchema validation error: b At: \nSchema validation error: a At: /x"
        ),
        Ok(_) => panic!("no violation was reported"),
    }
}

#[test]
fn subject_is_held_against_a_schema() {
    let schema = subject(r#"{"type": "object", "required": ["id"]}"#);
    assert!(check_subject(&schema, &subject(r#"{"id": 1}"#)).is_ok());
    assert_eq!(
        failure(check_subject(&schema, &subject(r#"{"other": 1}"#))),
        Failure::SchemaValidation
    );
    assert_eq!(
        failure(check_subject(&schema, &subject("7"))),
        Failure::SchemaValidation
    );
    let no_schema = subject(r#"{"type": 7}"#);
    assert_eq!(
        failure(check_subject(&no_schema, &subject("{}"))),
        Failure::SchemaValidation
    );
}

#[test]
fn no_schema_is_legal_for_the_meta_schema_alone() {
    let vc = VerifiableCredential::create(subject(SCHEMA_SUBJECT), None).unwrap();
    assert!(vc.names_meta_schema());
    assert!(matches!(&vc.credential_schema, SchemaEnum::Single(schema)
        if schema.id.as_str() == "https://json-schema.org/draft/2020-12/schema"));

    let text = r#"{
        "@context": ["https://www.w3.org/ns/credentials/v2"],
        "type": "VerifiableCredential",
        "issuer": "urn:uuid:67cddd6f-727f-4aea-91d4-e5f314252671",
        "credentialSchema": {"id": "urn:uuid:9a2dc235-17a2-471c-b1f3-a8b29ed4a3d3", "type": "JsonSchema"},
        "credentialSubject": {"id": "example_id"}
    }"#;
    assert_eq!(
        failure(VerifiableCredential::new(&subject(text), None)),
        Failure::MissingSchema
    );
    let list = r#"{
        "@context": ["https://www.w3.org/ns/credentials/v2"],
        "type": "VerifiableCredential",
        "issuer": "urn:uuid:67cddd6f-727f-4aea-91d4-e5f314252671",
        "credentialSchema": [{"id": "https://json-schema.org/draft/2020-12/schema", "type": "JsonSchema"}],
        "credentialSubject": {"type": "object"}
    }"#;
    assert_eq!(
        failure(VerifiableCredential::new(&subject(list), None)),
        Failure::MissingSchema
    );
}

#[test]
fn subject_that_is_no_schema_fails_against_the_meta_schema() {
    assert_eq!(
        failure(VerifiableCredential::create(subject(r#"{"type": 7}"#), None)),
        Failure::SchemaValidation
    );
    assert_eq!(
        failure(VerifiableCredential::create(subject(r#"{"required": "id"}"#), None)),
        Failure::SchemaValidation
    );
    assert!(VerifiableCredential::create(subject("true"), None).is_ok());
    assert!(VerifiableCredential::create(subject("{}"), None).is_ok());
}

#[test]
fn schema_of_the_schema_is_not_followed() {
    let pair = SignatureKeyPair::new().unwrap();
    let text = format!(
        r#"{{
        "@context": ["https://www.w3.org/ns/credentials/v2"],
        "type": "VerifiableCredential",
        "issuer": "urn:uuid:67cddd6f-727f-4aea-91d4-e5f314252671",
        "credentialSchema": {{"id": "https://example.com/never-fetched", "type": "JsonSchema"}},
        "credentialSubject": {}
    }}"#,
        SCHEMA_SUBJECT
    );
    let schema = VerifiableCredential::from_json(&subject(&text))
        .unwrap()
        .sign(&pair.private_key)
        .unwrap();
    assert!(VerifiableCredential::create(
        subject(r#"{"id": "example_id", "created_at": 1}"#),
        Some(SignedSchema::new(schema, &pair.public_key))
    )
    .is_ok());
}

#[test]
fn schema_without_an_id_cannot_back_a_new_credential() {
    let pair = SignatureKeyPair::new().unwrap();
    let no_id = VerifiableCredential::create(subject(r#"{"type": "object"}"#), None)
        .unwrap()
        .sign(&pair.private_key)
        .unwrap();
    assert_eq!(
        failure(VerifiableCredential::create(
            subject("{}"),
            Some(SignedSchema::new(no_id, &pair.public_key))
        )),
        Failure::MalformedInput
    );
    let odd_id = VerifiableCredential::create(subject(r#"{"$id": "not a url"}"#), None)
        .unwrap()
        .sign(&pair.private_key)
        .unwrap();
    assert_eq!(
        failure(VerifiableCredential::create(
            subject("{}"),
            Some(SignedSchema::new(odd_id, &pair.public_key))
        )),
        Failure::MalformedInput
    );
}

#[test]
fn created_credential_has_the_envelope_around_its_subject() {
    let vc = VerifiableCredential::create_with_ids(
        subject(r#"{"type": "object"}"#),
        None,
        "a8059f21-dc57-4684-a88f-9d2457e21631",
        "67cddd6f-727f-4aea-91d4-e5f314252671",
    )
    .unwrap();
    assert_eq!(
        vc.to_json().to_text(),
        [
            r#"{"@context":["https://www.w3.org/ns/credentials/v2"],"#,
            r#""credentialSchema":{"id":"https://json-schema.org/draft/2020-12/schema","type":"JsonSchema"},"#,
            r#""credentialStatus":null,"credentialSubject":{"type":"object"},"description":null,"#,
            r#""id":"urn:uuid:a8059f21-dc57-4684-a88f-9d2457e21631","#,
            r#""issuer":"urn:uuid:67cddd6f-727f-4aea-91d4-e5f314252671","name":null,"proof":null,"#,
            r#""type":"VerifiableCredential","validFrom":null,"validUntil":null}"#,
        ]
        .concat()
    );
}

#[test]
fn created_credentials_get_fresh_identifiers() {
    let one = VerifiableCredential::create(subject("{}"), None).unwrap();
    let two = VerifiableCredential::create(subject("{}"), None).unwrap();
    let id = one.id.as_ref().unwrap().as_str().to_string();
    assert!(id.starts_with("urn:uuid:"));
    assert_eq!(id.len(), 45);
    assert!(one.issuer.as_str().starts_with("urn:uuid:"));
    assert_ne!(one.id.as_ref().unwrap().as_str(), one.issuer.as_str());
    assert_ne!(one.id.as_ref().unwrap().as_str(), two.id.as_ref().unwrap().as_str());
    assert_ne!(one.issuer.as_str(), two.issuer.as_str());
}

#[test]
fn fresh_uuid_has_the_form_of_one() {
    let uuid = fresh_uuid();
    assert_eq!(uuid.len(), 36);
    for (position, character) in uuid.chars().enumerate() {
        if [8, 13, 18, 23].contains(&position) {
            assert_eq!(character, '-');
        } else {
            assert!(character.is_ascii_hexdigit() && !character.is_ascii_uppercase());
        }
    }
    assert_ne!(fresh_uuid(), uuid);
    assert_eq!(
        urn_of("a8059f21-dc57-4684-a88f-9d2457e21631").unwrap().as_str(),
        "urn:uuid:a8059f21-dc57-4684-a88f-9d2457e21631"
    );
}

#[test]
fn builder_fills_in_the_credential() {
    let stamp = Timestamp::new(1724932800, 0).unwrap();
    let vc = VerifiableCredentialBuilder::with_ids(
        subject(r#"{"id": "example_id"}"#),
        "https://example.com/schema",
        "a8059f21-dc57-4684-a88f-9d2457e21631",
        "67cddd6f-727f-4aea-91d4-e5f314252671",
    )
    .unwrap()
    .name(Some("a name".to_string()))
    .description(Some("a description".to_string()))
    .valid_from(Some(stamp))
    .valid_until(Some(Timestamp::new(1724932801, 0).unwrap()))
    .issuer(Url::parse("https://example.com/issuer").unwrap())
    .add_context(Url::parse("https://example.com/context").unwrap())
    .id(None)
    .with_proof(None)
    .status(None)
    .build()
    .unwrap();
    assert_eq!(vc.context.len(), 2);
    assert_eq!(vc.context[0].as_str(), "https://www.w3.org/ns/credentials/v2");
    assert_eq!(vc.context[1].as_str(), "https://example.com/context");
    assert!(vc.id.is_none());
    assert!(matches!(&vc.vc_type, TypeEnum::Single(name) if name == "VerifiableCredential"));
    assert_eq!(vc.name.as_deref(), Some("a name"));
    assert_eq!(vc.description.as_deref(), Some("a description"));
    assert_eq!(vc.issuer.as_str(), "https://example.com/issuer");
    assert_eq!(vc.valid_from.unwrap().seconds(), 1724932800);
    assert_eq!(vc.valid_until.unwrap().seconds(), 1724932801);
    assert!(vc.credential_status.is_none());
    assert!(vc.proof.is_none());
    assert_eq!(vc.credential_subject.to_text(), r#"{"id":"example_id"}"#);
}

#[test]
fn builder_refuses_a_schema_identifier_that_is_no_url() {
    assert_eq!(
        failure(VerifiableCredentialBuilder::new(subject("{}"), "not a url")),
        Failure::MalformedInput
    );
    assert_eq!(
        failure(VerifiableCredentialBuilder::with_ids(
            subject("{}"),
            "",
            "a8059f21-dc57-4684-a88f-9d2457e21631",
            "67cddd6f-727f-4aea-91d4-e5f314252671"
        )),
        Failure::MalformedInput
    );
    let built = VerifiableCredentialBuilder::new(subject("{}"), "https://example.com/schema")
        .unwrap()
        .build()
        .unwrap();
    assert!(built.id.as_ref().unwrap().as_str().starts_with("urn:uuid:"));
    assert_eq!(built.id.as_ref().unwrap().as_str().len(), 45);
    assert!(built.issuer.as_str().starts_with("urn:uuid:"));
    assert_ne!(built.id.as_ref().unwrap().as_str(), built.issuer.as_str());
    assert!(matches!(&built.credential_schema, SchemaEnum::Single(schema)
        if schema.id.as_str() == "https://example.com/schema"));
    assert_eq!(built.credential_subject.to_text(), "{}");
}

#[test]
fn github_address_of_a_file() {
    assert_eq!(
        construct_github_api_url(
            "https://github.com/nqminds/claim-cascade-schemas/blob/master/src/schema.json"
        )
        .unwrap(),
        "https://api.github.com/repos/nqminds/claim-cascade-schemas/contents/src/schema.json?ref=master"
    );
    assert_eq!(
        construct_github_api_url(
            "https://github.com/nqminds/ClaimCascade/tree/main/packages/schemas/src/identity.json"
        )
        .unwrap(),
        "https://api.github.com/repos/nqminds/ClaimCascade/contents/packages/schemas/src/identity.json?ref=main"
    );
    assert_eq!(
        construct_github_api_url("github.com/o/r/tree/b/x/blob/y/z").unwrap(),
        "https://api.github.com/repos/o/r/tree/b/x/contents/z?ref=y"
    );
    assert_eq!(
        construct_github_api_url("github.com/é/r/blob/ü/").unwrap(),
        "https://api.github.com/repos/é/r/contents/?ref=ü"
    );
}

#[test]
fn github_url_without_its_parts_is_malformed() {
    for url in [
        "",
        "https://github.com/owner/repo",
        "https://example.com/owner/repo/blob/main/file.json",
        "https://github.com/owner/repo/blob/main",
        "https://example.com/blob/github.com/main/file.json",
        "/blob/",
    ] {
        assert_eq!(
            failure(construct_github_api_url(url)),
            Failure::MalformedInput,
            "{}",
            url
        );
    }
    match construct_github_api_url("https://github.com/owner/repo") {
        Err(error) => assert_eq!(
            error.message(),
            "Invalid GitHub URL: missing '/blob/' or '/tree/'"
        ),
        Ok(_) => panic!("an address was built"),
    }
    match construct_github_api_url("https://github.com/owner/repo/blob/main") {
        Err(error) => assert_eq!(error.message(), "Invalid GitHub URL: missing file path"),
        Ok(_) => panic!("an address was built"),
    }
}

#[test]
fn answers_of_github_are_read() {
    let metadata = subject(r#"{"name": "schema.json", "download_url": "https://example.com/raw"}"#);
    assert_eq!(download_url_of(&metadata).unwrap(), "https://example.com/raw");
    assert_eq!(
        failure(download_url_of(&subject(r#"{"download_url": null}"#))),
        Failure::MalformedInput
    );
    assert_eq!(
        failure(download_url_of(&subject(r#"{"name": "schema.json"}"#))),
        Failure::MalformedInput
    );
    assert_eq!(failure(download_url_of(&subject("[]"))), Failure::MalformedInput);

    let yaml = schema_of_content("type: object\nrequired:\n  - id\nminProperties: 1\n").unwrap();
    assert_eq!(
        yaml.to_text(),
        r#"{"minProperties":1,"required":["id"],"type":"object"}"#
    );
    let json = schema_of_content(r#"{"type": "object"}"#).unwrap();
    assert_eq!(json.to_text(), r#"{"type":"object"}"#);
    assert_eq!(
        failure(schema_of_content("a: [unclosed")),
        Failure::MalformedInput
    );
}
