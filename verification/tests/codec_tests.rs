use licc::codec::{code_from_json, code_list_from_json, code_list_to_json, code_to_json};
use licc::json::{parse_json, JsonValue};
use licc::{Code, Source};

fn sample_code() -> Code {
    Code {
        code: "FOOB-BARS-TEST".to_string(),
        expired: false,
        expires_at: Some("2024-01-01 00:00:00.0".to_string()),
        creator: Some(Source {
            id: 1,
            name: "foo".to_string(),
            url: "https://foo.example".to_string(),
        }),
        submitter: None,
        lister: Some(Source {
            id: 3,
            name: "lister".to_string(),
            url: "https://lister.example".to_string(),
        }),
    }
}

#[test]
fn test_code_round_trip() {
    let original = sample_code();
    let document = code_to_json(&original);
    let read = code_from_json(&document).unwrap();

    assert_eq!(read.code, original.code);
    assert_eq!(read.expired, original.expired);
    assert_eq!(read.expires_at, original.expires_at);
    let creator = read.creator.as_ref().unwrap();
    assert_eq!(creator.id, 1);
    assert_eq!(creator.name, "foo");
    assert_eq!(creator.url, "https://foo.example");
    assert!(read.submitter.is_none());
    assert_eq!(read.lister.as_ref().unwrap().id, 3);
}

#[test]
fn test_code_round_trip_with_all_fields_absent() {
    let original = Code {
        code: "SLIM-CODE-0000".to_string(),
        expired: true,
        expires_at: None,
        creator: None,
        submitter: None,
        lister: None,
    };
    let document = code_to_json(&original);
    let read = code_from_json(&document).unwrap();

    assert_eq!(read.code, "SLIM-CODE-0000");
    assert!(read.expired);
    assert!(read.expires_at.is_none());
    assert!(read.creator.is_none());
    assert!(read.submitter.is_none());
    assert!(read.lister.is_none());
}

#[test]
fn test_code_list_round_trip_preserves_order() {
    let mut second = sample_code();
    second.code = "SECO-NDCO-DE00".to_string();
    let list = vec![sample_code(), second];

    let document = code_list_to_json(&list);
    let read = code_list_from_json(&document).unwrap();

    assert_eq!(read.len(), 2);
    assert_eq!(read[0].code, "FOOB-BARS-TEST");
    assert_eq!(read[1].code, "SECO-NDCO-DE00");
}

#[test]
fn test_full_projection_survives_round_trip() {
    let wire = licc::wire::WireResponse {
        codes: vec![licc::wire::WireCode {
            code: "FOOB-BARS-TEST".to_string(),
            expired: false,
            expires_at: "2024-01-01 00:00:00.0".to_string(),
            sources: licc::wire::SourcesMapping { creator: 1, submitter: 9, lister: 1 },
        }],
        sources: vec![(
            1,
            Source { id: 1, name: "foo".to_string(), url: "https://foo.example".to_string() },
        )],
    };
    let projected = licc::wire::mapping_full(wire);

    let document = code_list_to_json(&projected);
    let read = code_list_from_json(&document).unwrap();

    assert_eq!(read.len(), 1);
    assert_eq!(read[0].code, projected[0].code);
    assert_eq!(read[0].expired, projected[0].expired);
    assert_eq!(read[0].expires_at, projected[0].expires_at);
    assert_eq!(read[0].creator.as_ref().unwrap().name, "foo");
    assert!(read[0].submitter.is_none());
    assert_eq!(read[0].lister.as_ref().unwrap().id, 1);
}

#[test]
fn test_code_from_json_rejects_other_shapes() {
    assert!(code_from_json(&JsonValue::Null).is_none());
    assert!(code_from_json(&JsonValue::Str("FOOB".to_string())).is_none());
    assert!(code_from_json(&JsonValue::Obj(vec![])).is_none());
    assert!(code_list_from_json(&JsonValue::Obj(vec![])).is_none());
}

#[test]
fn test_code_list_from_json_text() {
    let tree = parse_json(
        r#"[{"code":"FOOB-BARS-TEST","expired":false,"expires_at":null,"creator":null,"submitter":null,"lister":{"id":3,"name":"lister","url":"https://lister.example"}}]"#,
    )
    .unwrap();
    let read = code_list_from_json(&tree).unwrap();
    assert_eq!(read.len(), 1);
    assert_eq!(read[0].code, "FOOB-BARS-TEST");
    assert!(read[0].expires_at.is_none());
    assert!(read[0].creator.is_none());
    assert_eq!(read[0].lister.as_ref().unwrap().name, "lister");
}
