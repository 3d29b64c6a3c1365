use vc_signing::json_codec::malformed;
use vc_signing::{
    Error, Failure, JsonValue, Member, SchemaEnum, StatusEnum, Timestamp, TypeEnum, Url,
    VerifiableCredential, VerifiableCredentialEnum, VerifiablePresentation,
};

const CREDENTIAL: &str = r#"{
    "@context": ["https://www.w3.org/ns/credentials/v2"],
    "id": "urn:uuid:a8059f21-dc57-4684-a88f-9d2457e21631",
    "type": ["VerifiableCredential", "Example"],
    "issuer": "urn:uuid:67cddd6f-727f-4aea-91d4-e5f314252671",
    "validFrom": "2024-11-15T15:21:33.057003610Z",
    "credentialSchema": {
        "id": "urn:uuid:9a2dc235-17a2-471c-b1f3-a8b29ed4a3d3",
        "type": "JsonSchema"
    },
    "credentialSubject": {"id": "example_id"}
}"#;

fn canonical() -> String {
    [
        r#"{"@context":["https://www.w3.org/ns/credentials/v2"],"#,
        r#""credentialSchema":{"id":"urn:uuid:9a2dc235-17a2-471c-b1f3-a8b29ed4a3d3","type":"JsonSchema"},"#,
        r#""credentialStatus":null,"credentialSubject":{"id":"example_id"},"description":null,"#,
        r#""id":"urn:uuid:a8059f21-dc57-4684-a88f-9d2457e21631","#,
        r#""issuer":"urn:uuid:67cddd6f-727f-4aea-91d4-e5f314252671","name":null,"proof":null,"#,
        r#""type":["VerifiableCredential","Example"],"validFrom":"2024-11-15T15:21:33.057003610Z","#,
        r#""validUntil":null}"#,
    ]
    .concat()
}

fn credential() -> VerifiableCredential {
    VerifiableCredential::from_json(&JsonValue::parse(CREDENTIAL).unwrap()).unwrap()
}

fn with_field(text: &str, key: &str, value: &str) -> JsonValue {
    let mut tree = JsonValue::parse(text).unwrap();
    if let JsonValue::Object(members) = &mut tree {
        members.retain(|member| member.key != key);
        members.push(Member {
            key: key.to_string(),
            value: JsonValue::parse(value).unwrap(),
        });
    }
    tree
}

fn kind_of<T>(outcome: Result<T, Error>) -> Failure {
    match outcome {
        Ok(_) => panic!("the operation succeeded"),
        Err(error) => error.kind(),
    }
}

#[test]
fn json_tree_sorts_keys_and_keeps_values() {
    let tree = JsonValue::parse(r#"{"b": 1, "a": [true, null, "x", 1.5, -3], "c": {"z": {}}}"#)
        .unwrap();
    assert_eq!(
        tree.to_text(),
        r#"{"a":[true,null,"x",1.5,-3],"b":1,"c":{"z":{}}}"#
    );
    assert_eq!(tree.get("b").unwrap().to_text(), "1");
    assert!(tree.get("missing").is_none());
    assert!(tree.get("a").unwrap().get("b").is_none());
    assert_eq!(
        JsonValue::parse(r#""text""#).unwrap().as_text().unwrap(),
        "text"
    );
    assert!(tree.as_text().is_none());
    assert_eq!(tree.clone().to_text(), tree.to_text());
}

#[test]
fn json_text_that_is_no_json_is_malformed() {
    assert_eq!(kind_of(JsonValue::parse("{\"a\":")), Failure::MalformedInput);
    assert_eq!(kind_of(JsonValue::parse("")), Failure::MalformedInput);
}

#[test]
fn parsed_tree_reads_back_from_its_own_text() {
    let texts = [
        r#"{"n": 0.1, "big": 18446744073709551616, "neg": -0, "e": 1e300, "s": "a\"b\\cé\n"}"#,
        r#"[[], {}, [1, [2, [3]]], {"k": {"k": {"k": null}}}]"#,
        r#"{"dup": 1, "dup": 2}"#,
        "123456789012345678",
        "3.141592653589793",
    ];
    for text in texts {
        let tree = JsonValue::parse(text).unwrap();
        let again = JsonValue::parse(&tree.to_text()).unwrap();
        assert_eq!(again.to_text(), tree.to_text());
        assert_eq!(format!("{:?}", again), format!("{:?}", tree));
        assert!(tree.is_canonical());
        assert!(again.same_as(&tree));
    }
}

#[test]
fn trees_are_compared_by_value() {
    let one = JsonValue::parse(r#"{"a": [1, {"b": "x"}], "c": null}"#).unwrap();
    let same = JsonValue::parse(r#"{"c": null, "a": [1, {"b": "x"}]}"#).unwrap();
    assert!(one.same_as(&same));
    for other in [
        r#"{"a": [1, {"b": "y"}], "c": null}"#,
        r#"{"a": [1, {"d": "x"}], "c": null}"#,
        r#"{"a": [1, {"b": "x"}, 2], "c": null}"#,
        r#"{"a": [1, {"b": "x"}]}"#,
        r#"{"a": [1.0, {"b": "x"}], "c": null}"#,
        r#"{"a": ["1", {"b": "x"}], "c": null}"#,
        r#"{"a": [1, {"b": "x"}], "c": false}"#,
        r#"[]"#,
    ] {
        assert!(!one.same_as(&JsonValue::parse(other).unwrap()), "{}", other);
    }
    assert!(JsonValue::Bool(true).same_as(&JsonValue::Bool(true)));
    assert!(!JsonValue::Bool(true).same_as(&JsonValue::Bool(false)));
    assert!(!JsonValue::Text("1".to_string()).same_as(&JsonValue::Number("1".to_string())));
}

#[test]
fn pretty_text_reads_as_the_plain_text() {
    let tree = JsonValue::parse(CREDENTIAL).unwrap();
    let pretty = tree.to_pretty_text();
    assert!(pretty.contains('\n'));
    assert_eq!(JsonValue::parse(&pretty).unwrap().to_text(), tree.to_text());
}

#[test]
fn url_is_held_in_its_serialization() {
    let url = Url::parse("HTTPS://Example.COM").unwrap();
    assert_eq!(url.as_str(), "https://example.com/");
    assert_eq!(url.to_text(), "https://example.com/");
    assert!(url.same_as(&Url::parse("https://example.com/").unwrap()));
    assert!(!url.same_as(&Url::parse("https://example.org/").unwrap()));
    assert_eq!(url.clone().as_str(), url.as_str());
    assert_eq!(
        Url::parse("urn:uuid:a8059f21-dc57-4684-a88f-9d2457e21631")
            .unwrap()
            .as_str(),
        "urn:uuid:a8059f21-dc57-4684-a88f-9d2457e21631"
    );
}

#[test]
fn text_that_is_no_url_is_malformed() {
    assert_eq!(kind_of(Url::parse("not a url")), Failure::MalformedInput);
    assert_eq!(kind_of(Url::parse("")), Failure::MalformedInput);
}

#[test]
fn timestamp_text_and_parts() {
    let stamp = Timestamp::parse("2024-11-15T15:21:33.057003610Z").unwrap();
    assert_eq!(stamp.seconds(), 1731684093);
    assert_eq!(stamp.nanos(), 57003610);
    assert_eq!(stamp.to_text(), "2024-11-15T15:21:33.057003610Z");
    let whole = Timestamp::new(1724932800, 0).unwrap();
    assert_eq!(whole.to_text(), "2024-08-29T12:00:00Z");
    let millis = Timestamp::new(1724932800, 250_000_000).unwrap();
    assert_eq!(millis.to_text(), "2024-08-29T12:00:00.250Z");
    let shifted = Timestamp::parse("2024-08-29T14:00:00+02:00").unwrap();
    assert_eq!(shifted.seconds(), 1724932800);
    assert_eq!(shifted.to_text(), "2024-08-29T12:00:00Z");
}

#[test]
fn timestamp_that_does_not_exist_is_refused() {
    assert!(Timestamp::new(0, 2_000_000_000).is_none());
    assert!(Timestamp::new(0, 1_500_000_000).is_none());
    assert!(Timestamp::new(59, 1_500_000_000).is_some());
    assert!(Timestamp::new(i64::MAX, 0).is_none());
    assert!(Timestamp::parse("yesterday").is_none());
    assert!(Timestamp::parse("2024-13-01T00:00:00Z").is_none());
}

#[test]
fn now_is_an_instant_that_reads_back() {
    let now = Timestamp::now();
    let again = Timestamp::parse(&now.to_text()).unwrap();
    assert_eq!(again.seconds(), now.seconds());
    assert_eq!(again.nanos(), now.nanos());
    assert!(now.seconds() > 1_700_000_000);
}

#[test]
fn credential_fields_are_read() {
    let vc = credential();
    assert_eq!(vc.context.len(), 1);
    assert_eq!(vc.context[0].as_str(), "https://www.w3.org/ns/credentials/v2");
    assert_eq!(
        vc.id.as_ref().unwrap().as_str(),
        "urn:uuid:a8059f21-dc57-4684-a88f-9d2457e21631"
    );
    assert!(matches!(&vc.vc_type, TypeEnum::Multiple(names) if names.len() == 2));
    assert!(vc.name.is_none());
    assert!(vc.description.is_none());
    assert_eq!(
        vc.issuer.as_str(),
        "urn:uuid:67cddd6f-727f-4aea-91d4-e5f314252671"
    );
    assert_eq!(vc.valid_from.unwrap().seconds(), 1731684093);
    assert!(vc.valid_until.is_none());
    assert!(vc.credential_status.is_none());
    assert!(matches!(&vc.credential_schema, SchemaEnum::Single(schema)
        if schema.credential_type == "JsonSchema"));
    assert_eq!(vc.credential_subject.to_text(), r#"{"id":"example_id"}"#);
    assert!(vc.proof.is_none());
}

#[test]
fn canonical_text_has_every_field_in_one_order() {
    assert_eq!(credential().signing_text(), canonical());
    assert_eq!(credential().to_json().to_text(), canonical());
}

#[test]
fn canonical_text_does_not_depend_on_the_order_of_the_input() {
    let reordered = r#"{
        "credentialSubject": {"id": "example_id"},
        "validFrom": "2024-11-15T15:21:33.057003610Z",
        "issuer": "urn:uuid:67cddd6f-727f-4aea-91d4-e5f314252671",
        "credentialSchema": {
            "type": "JsonSchema",
            "id": "urn:uuid:9a2dc235-17a2-471c-b1f3-a8b29ed4a3d3"
        },
        "type": ["VerifiableCredential", "Example"],
        "id": "urn:uuid:a8059f21-dc57-4684-a88f-9d2457e21631",
        "@context": ["https://www.w3.org/ns/credentials/v2"],
        "proof": null, "name": null
    }"#;
    let vc = VerifiableCredential::from_json(&JsonValue::parse(reordered).unwrap()).unwrap();
    assert_eq!(vc.signing_text(), canonical());
}

#[test]
fn json_round_trip_gives_the_credential_back() {
    let vc = credential();
    let again = VerifiableCredential::from_json(&vc.to_json()).unwrap();
    assert_eq!(format!("{:?}", again), format!("{:?}", vc));
    let text = vc.to_json().to_text();
    let read = VerifiableCredential::from_json(&JsonValue::parse(&text).unwrap()).unwrap();
    assert_eq!(format!("{:?}", read), format!("{:?}", vc));
}

#[test]
fn json_round_trip_keeps_one_value_apart_from_a_list_of_one() {
    let single = VerifiableCredential::from_json(&with_field(CREDENTIAL, "type", r#""Only""#))
        .unwrap();
    assert!(matches!(&single.vc_type, TypeEnum::Single(name) if name == "Only"));
    let again = VerifiableCredential::from_json(&single.to_json()).unwrap();
    assert!(matches!(&again.vc_type, TypeEnum::Single(name) if name == "Only"));
    assert_eq!(single.to_json().get("type").unwrap().to_text(), r#""Only""#);

    let list = VerifiableCredential::from_json(&with_field(CREDENTIAL, "type", r#"["Only"]"#))
        .unwrap();
    assert!(matches!(&list.vc_type, TypeEnum::Multiple(names) if names.len() == 1));
    let again = VerifiableCredential::from_json(&list.to_json()).unwrap();
    assert!(matches!(&again.vc_type, TypeEnum::Multiple(names) if names.len() == 1));
    assert_eq!(list.to_json().get("type").unwrap().to_text(), r#"["Only"]"#);
}

#[test]
fn schema_and_status_lists_are_read_and_written() {
    let tree = with_field(
        &with_field(
            CREDENTIAL,
            "credentialSchema",
            r#"[{"id": "https://example.com/a", "type": "JsonSchema"},
                {"id": "https://example.com/b", "type": "Other"}]"#,
        )
        .to_text(),
        "credentialStatus",
        r#"[{"id": "https://example.com/status/1", "type": "List"},
            {"type": ["A", "B"]}]"#,
    );
    let vc = VerifiableCredential::from_json(&tree).unwrap();
    assert!(matches!(&vc.credential_schema, SchemaEnum::Multiple(list) if list.len() == 2));
    match &vc.credential_status {
        Some(StatusEnum::Multiple(list)) => {
            assert_eq!(list.len(), 2);
            assert_eq!(list[0].id.as_ref().unwrap().as_str(), "https://example.com/status/1");
            assert!(list[1].id.is_none());
            assert!(matches!(&list[1].status_type, TypeEnum::Multiple(names) if names.len() == 2));
        }
        other => panic!("unexpected status {:?}", other),
    }
    let again = VerifiableCredential::from_json(&vc.to_json()).unwrap();
    assert_eq!(format!("{:?}", again), format!("{:?}", vc));
    assert_eq!(
        vc.to_json().get("credentialStatus").unwrap().to_text(),
        r#"[{"id":"https://example.com/status/1","type":"List"},{"id":null,"type":["A","B"]}]"#
    );

    let one = with_field(CREDENTIAL, "credentialStatus", r#"{"type": "List"}"#);
    let vc = VerifiableCredential::from_json(&one).unwrap();
    assert!(matches!(&vc.credential_status, Some(StatusEnum::Single(_))));
    let again = VerifiableCredential::from_json(&vc.to_json()).unwrap();
    assert!(matches!(&again.credential_status, Some(StatusEnum::Single(_))));
}

#[test]
fn unknown_key_is_rejected() {
    let tree = with_field(CREDENTIAL, "extra", "1");
    assert_eq!(
        kind_of(VerifiableCredential::from_json(&tree)),
        Failure::MalformedInput
    );
    let nested = with_field(
        CREDENTIAL,
        "credentialSchema",
        r#"{"id": "https://example.com/a", "type": "JsonSchema", "extra": 1}"#,
    );
    assert_eq!(
        kind_of(VerifiableCredential::from_json(&nested)),
        Failure::MalformedInput
    );
    let status = with_field(
        CREDENTIAL,
        "credentialStatus",
        r#"{"type": "List", "extra": 1}"#,
    );
    assert_eq!(
        kind_of(VerifiableCredential::from_json(&status)),
        Failure::MalformedInput
    );
}

#[test]
fn missing_or_misshapen_field_is_rejected() {
    for key in ["@context", "type", "issuer", "credentialSchema", "credentialSubject"] {
        let mut tree = JsonValue::parse(CREDENTIAL).unwrap();
        if let JsonValue::Object(members) = &mut tree {
            members.retain(|member| member.key != key);
        }
        assert_eq!(
            kind_of(VerifiableCredential::from_json(&tree)),
            Failure::MalformedInput,
            "without {}",
            key
        );
    }
    for (key, value) in [
        ("@context", r#""https://www.w3.org/ns/credentials/v2""#),
        ("@context", r#"["not a url"]"#),
        ("id", "7"),
        ("id", r#""not a url""#),
        ("type", "7"),
        ("type", r#"["a", 7]"#),
        ("name", "7"),
        ("description", "[]"),
        ("issuer", "null"),
        ("validFrom", r#""yesterday""#),
        ("validUntil", "7"),
        ("credentialStatus", "7"),
        ("credentialStatus", r#"[{"id": "x", "type": "t"}]"#),
        ("credentialSchema", "null"),
        ("credentialSchema", r#"{"id": "https://example.com/a"}"#),
        ("proof", "7"),
        ("proof", r#"{"type": "DataIntegrityProof"}"#),
    ] {
        assert_eq!(
            kind_of(VerifiableCredential::from_json(&with_field(CREDENTIAL, key, value))),
            Failure::MalformedInput,
            "with {} = {}",
            key,
            value
        );
    }
    assert_eq!(
        kind_of(VerifiableCredential::from_json(&JsonValue::parse("[]").unwrap())),
        Failure::MalformedInput
    );
}

#[test]
fn absent_and_null_are_the_same_for_a_field_that_may_be_absent() {
    let tree = with_field(&with_field(CREDENTIAL, "id", "null").to_text(), "name", "null");
    let vc = VerifiableCredential::from_json(&tree).unwrap();
    assert!(vc.id.is_none());
    assert!(vc.name.is_none());
    let subject = with_field(CREDENTIAL, "credentialSubject", "null");
    let vc = VerifiableCredential::from_json(&subject).unwrap();
    assert_eq!(vc.credential_subject.to_text(), "null");
}

#[test]
fn proof_is_read_and_other_keys_in_it_are_passed_over() {
    let tree = with_field(
        CREDENTIAL,
        "proof",
        r#"{"type": "DataIntegrityProof", "created": "2024-08-29T12:00:00Z",
            "cryptosuite": "eddsa-rdfc-2022", "proofPurpose": "assertionMethod",
            "proofValue": "AAAA", "note": "passed over"}"#,
    );
    let vc = VerifiableCredential::from_json(&tree).unwrap();
    let proof = vc.proof.as_ref().unwrap();
    assert_eq!(proof.proof_type, "DataIntegrityProof");
    assert_eq!(proof.created.seconds(), 1724932800);
    assert_eq!(proof.cryptosuite, "eddsa-rdfc-2022");
    assert_eq!(proof.proof_purpose, "assertionMethod");
    assert_eq!(proof.proof_value, "AAAA");
    assert_eq!(
        vc.to_json().get("proof").unwrap().to_text(),
        [
            r#"{"created":"2024-08-29T12:00:00Z","cryptosuite":"eddsa-rdfc-2022","#,
            r#""proofPurpose":"assertionMethod","proofValue":"AAAA","type":"DataIntegrityProof"}"#,
        ]
        .concat()
    );
    assert_eq!(vc.signing_text(), canonical());
}

#[test]
fn presentation_round_trip() {
    let text = format!(
        r#"{{"id": "urn:uuid:11111111-2222-3333-4444-555555555555", "type": "VerifiablePresentation",
            "verifiableCredential": [{}, {}], "holder": "https://example.com/holder"}}"#,
        CREDENTIAL, CREDENTIAL
    );
    let vp = VerifiablePresentation::new(&JsonValue::parse(&text).unwrap()).unwrap();
    assert!(matches!(&vp.verifiable_credential,
        VerifiableCredentialEnum::Multiple(list) if list.len() == 2));
    assert_eq!(vp.holder.as_ref().unwrap().as_str(), "https://example.com/holder");
    let again = VerifiablePresentation::from_json(&vp.to_json()).unwrap();
    assert_eq!(format!("{:?}", again), format!("{:?}", vp));

    let single = format!(
        r#"{{"type": ["VerifiablePresentation"], "verifiableCredential": {}}}"#,
        CREDENTIAL
    );
    let vp = VerifiablePresentation::new(&JsonValue::parse(&single).unwrap()).unwrap();
    assert!(matches!(&vp.verifiable_credential, VerifiableCredentialEnum::Single(_)));
    assert!(vp.id.is_none());
    let again = VerifiablePresentation::from_json(&vp.to_json()).unwrap();
    assert!(matches!(&again.verifiable_credential, VerifiableCredentialEnum::Single(_)));
    assert_eq!(
        vp.signing_text(),
        format!(
            r#"{{"holder":null,"id":null,"proof":null,"type":["VerifiablePresentation"],"verifiableCredential":{}}}"#,
            canonical()
        )
    );
}

#[test]
fn presentation_with_unknown_key_or_bad_credential_is_rejected() {
    let text = format!(
        r#"{{"type": "VerifiablePresentation", "verifiableCredential": {}, "extra": true}}"#,
        CREDENTIAL
    );
    assert_eq!(
        kind_of(VerifiablePresentation::new(&JsonValue::parse(&text).unwrap())),
        Failure::MalformedInput
    );
    let text = r#"{"type": "VerifiablePresentation", "verifiableCredential": [{}]}"#;
    assert_eq!(
        kind_of(VerifiablePresentation::new(&JsonValue::parse(text).unwrap())),
        Failure::MalformedInput
    );
    let text = r#"{"type": "VerifiablePresentation"}"#;
    assert_eq!(
        kind_of(VerifiablePresentation::new(&JsonValue::parse(text).unwrap())),
        Failure::MalformedInput
    );
}

#[test]
fn cbor_round_trip_gives_the_document_back() {
    let vc = credential();
    let bytes = vc.serialize_cbor().unwrap();
    assert_eq!(bytes[0], 0xac);
    assert_ne!(bytes, vc.to_json().to_text().into_bytes());
    assert!(vc.is_held_by_cbor(&bytes));
    let again = VerifiableCredential::deserialize_cbor(bytes.clone()).unwrap();
    assert_eq!(format!("{:?}", again), format!("{:?}", vc));

    let text = format!(
        r#"{{"type": "VerifiablePresentation", "verifiableCredential": {}}}"#,
        CREDENTIAL
    );
    let vp = VerifiablePresentation::new(&JsonValue::parse(&text).unwrap()).unwrap();
    let vp_bytes = vp.serialize_cbor().unwrap();
    assert!(vp.is_held_by_cbor(&vp_bytes));
    assert!(!vp.is_held_by_cbor(&bytes));
    assert!(!vc.is_held_by_cbor(&vp_bytes));
    let again = VerifiablePresentation::deserialize_cbor(vp_bytes).unwrap();
    assert_eq!(format!("{:?}", again), format!("{:?}", vp));
}

#[test]
fn bytes_hold_one_credential_and_no_other() {
    let vc = credential();
    let bytes = vc.serialize_cbor().unwrap();
    let mut renamed = credential();
    renamed.name = Some("another name".to_string());
    assert!(!renamed.is_held_by_cbor(&bytes));
    assert!(renamed.is_held_by_cbor(&renamed.serialize_cbor().unwrap()));
    let mut one_of_a_list = credential();
    one_of_a_list.vc_type = TypeEnum::Multiple(vec!["Only".to_string()]);
    let mut one = credential();
    one.vc_type = TypeEnum::Single("Only".to_string());
    assert!(!one.is_held_by_cbor(&one_of_a_list.serialize_cbor().unwrap()));
    assert!(one.is_held_by_cbor(&one.serialize_cbor().unwrap()));
    assert!(!vc.is_held_by_cbor(&[]));
    assert!(!vc.is_held_by_cbor(&[0xff, 0x00]));
    assert!(!vc.is_held_by_cbor(&JsonValue::parse("{}").unwrap().to_cbor().unwrap()));

    let mut unsorted = credential();
    unsorted.credential_subject = JsonValue::Object(vec![
        Member {
            key: "b".to_string(),
            value: JsonValue::Null,
        },
        Member {
            key: "a".to_string(),
            value: JsonValue::Null,
        },
    ]);
    assert!(!unsorted.is_held_by_cbor(&unsorted.serialize_cbor().unwrap()));
    unsorted.credential_subject = unsorted.credential_subject.canonicalize().unwrap();
    assert!(unsorted.is_held_by_cbor(&unsorted.serialize_cbor().unwrap()));
}

#[test]
fn cbor_of_a_small_tree_is_exact() {
    let tree = JsonValue::parse(r#"{"a": [1, "x", null]}"#).unwrap();
    assert_eq!(
        tree.to_cbor().unwrap(),
        vec![0xa1, 0x61, 0x61, 0x83, 0x01, 0x61, 0x78, 0xf6]
    );
    let read = JsonValue::from_cbor(&[0xa1, 0x61, 0x61, 0x83, 0x01, 0x61, 0x78, 0xf6]).unwrap();
    assert_eq!(read.to_text(), r#"{"a":[1,"x",null]}"#);
}

#[test]
fn bytes_that_are_no_cbor_are_a_decode_error() {
    assert_eq!(
        kind_of(VerifiableCredential::deserialize_cbor(vec![0xff, 0x00])),
        Failure::DecodeError
    );
    assert_eq!(
        kind_of(VerifiablePresentation::deserialize_cbor(vec![])),
        Failure::DecodeError
    );
    let other = JsonValue::parse(r#"{"a": 1}"#).unwrap().to_cbor().unwrap();
    assert_eq!(
        kind_of(VerifiableCredential::deserialize_cbor(other)),
        Failure::MalformedInput
    );
}

#[test]
fn error_kinds_and_messages() {
    assert_eq!(Error::MissingSchema.message(), "Missing schema");
    assert_eq!(
        Error::UntrustedSchema.message(),
        "Failed to verify schema signature"
    );
    assert_eq!(Error::Unsigned.message(), "Document is unsigned");
    assert_eq!(Error::InvalidSignature.message(), "Failed to verify");
    assert_eq!(Error::KeyError("k".to_string()).message(), "k");
    assert_eq!(Error::DecodeError("d".to_string()).message(), "d");
    assert_eq!(Error::SchemaValidation("s".to_string()).message(), "s");
    assert_eq!(malformed("m").message(), "m");
    assert_eq!(malformed("m").kind(), Failure::MalformedInput);
}

#[test]
fn instants_far_from_now_read_back_from_their_text() {
    for (seconds, nanos, text) in [
        (253402300800i64, 0u32, "+10000-01-01T00:00:00Z"),
        (253402300799, 999_999_999, "9999-12-31T23:59:59.999999999Z"),
        (-62167219200, 0, "0000-01-01T00:00:00Z"),
        (-62167219201, 1, "-0001-12-31T23:59:59.000000001Z"),
        (8210266876799, 999_999_999, "+262142-12-31T23:59:59.999999999Z"),
        (-8334601228800, 0, "-262143-01-01T00:00:00Z"),
        (1483228799, 1_000_000_000, "2016-12-31T23:59:60Z"),
        (59, 1_999_999_999, "1970-01-01T00:00:60.999999999Z"),
        (0, 1000, "1970-01-01T00:00:00.000001Z"),
        (-1, 999_999_999, "1969-12-31T23:59:59.999999999Z"),
    ] {
        let stamp = Timestamp::new(seconds, nanos).unwrap();
        assert_eq!(stamp.to_text(), text);
        let again = Timestamp::parse(text).unwrap();
        assert_eq!((again.seconds(), again.nanos()), (seconds, nanos));
    }
    assert!(Timestamp::new(8210266876800, 0).is_none());
    assert!(Timestamp::new(-8334601228801, 0).is_none());
}

#[test]
fn serialization_of_a_url_parses_to_itself() {
    for (text, serialization) in [
        ("http://EXAMPLE.com/a b?q=é#f g", "http://example.com/a%20b?q=%C3%A9#f%20g"),
        ("HTTP://user:pw@host:80/../a/./b", "http://user:pw@host/a/b"),
        ("http://[::1]:80/", "http://[::1]/"),
        ("urn:X:y z", "urn:X:y z"),
        ("mailto:a@b", "mailto:a@b"),
        ("x-y://h//p?#", "x-y://h//p?#"),
    ] {
        let url = Url::parse(text).unwrap();
        assert_eq!(url.as_str(), serialization);
        assert_eq!(Url::parse(url.as_str()).unwrap().as_str(), serialization);
    }
}

#[test]
fn tree_built_by_hand_is_brought_into_canonical_form() {
    let tree = JsonValue::Object(vec![
        Member {
            key: "b".to_string(),
            value: JsonValue::Number("1.50".to_string()),
        },
        Member {
            key: "a".to_string(),
            value: JsonValue::Array(vec![JsonValue::Bool(false), JsonValue::Null]),
        },
        Member {
            key: "b".to_string(),
            value: JsonValue::Number("2e2".to_string()),
        },
        Member {
            key: "c".to_string(),
            value: JsonValue::Number("no number".to_string()),
        },
    ]);
    assert_eq!(tree.to_text(), r#"{"a":[false,null],"b":200.0,"c":null}"#);
    assert!(!tree.is_canonical());
    let canonical = tree.canonicalize().unwrap();
    assert!(canonical.is_canonical());
    assert!(!canonical.same_as(&tree));
    assert!(canonical.same_as(&canonical.clone()));
    assert_eq!(
        format!("{:?}", canonical),
        format!(
            "{:?}",
            JsonValue::Object(vec![
                Member {
                    key: "a".to_string(),
                    value: JsonValue::Array(vec![JsonValue::Bool(false), JsonValue::Null]),
                },
                Member {
                    key: "b".to_string(),
                    value: JsonValue::Number("200.0".to_string()),
                },
                Member {
                    key: "c".to_string(),
                    value: JsonValue::Null,
                },
            ])
        )
    );
    let again = canonical.canonicalize().unwrap();
    assert_eq!(format!("{:?}", again), format!("{:?}", canonical));
}
