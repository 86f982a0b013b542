use licc::api_key::ApiKey;
use licc::client::{
    classify_response, decode_codes_full, decode_codes_slim, default_base_url, envelope_from_json,
    CodesClient,
};
use licc::error::ClientError;
use licc::json::parse_json;

#[test]
fn test_construct_client_default() {
    let client = CodesClient::default();
    assert!(client.base_url.eq(default_base_url()));
    assert!(client.api_key.is_none());
}

#[test]
fn test_construct_client_with_api_key() {
    assert!(CodesClient::new(Some(ApiKey::new("foo".to_string()))).api_key.is_some());
}

#[test]
fn test_construct_client_with_base_url() {
    assert_eq!(
        CodesClient::new_full(None, Some("http://foo.example".to_string())).base_url,
        "http://foo.example"
    );
}

#[test]
fn test_client_url() {
    let client = CodesClient::default();

    assert_eq!(client.url("foo"), format!("{}/foo", default_base_url()));
    assert_eq!(client.url("/foo"), format!("{}/foo", default_base_url()));
}

#[test]
fn test_client_url_trailing_slash_base() {
    let client = CodesClient::new_full(None, Some("http://foo.example/".to_string()));
    assert_eq!(client.url("foo"), "http://foo.example/foo");
    assert_eq!(client.url("/foo"), "http://foo.example/foo");
}

#[test]
fn test_require_api_key_missing() {
    let client = CodesClient::new(None);
    assert!(matches!(client.require_api_key(), Err(ClientError::ApiKeyMissing)));
}

#[test]
fn test_require_api_key_present() {
    let client = CodesClient::new(Some(ApiKey::new("foo".to_string())));
    assert_eq!(client.require_api_key().unwrap(), "foo");
}

#[test]
fn test_can_deserialize_rocket_error() {
    let tree = parse_json(
        r#"{"error":{ "code": 422,"reason":"Unprocessable Entity","description": "data.."}}"#,
    )
    .unwrap();

    let output = envelope_from_json(&tree);

    assert!(output.is_some());
}

#[test]
fn test_can_deserialize_remote_error() {
    let tree =
        parse_json(r#"{"error":{"code":401,"description":"Invalid API key","debug":null}}"#)
            .unwrap();

    let output = envelope_from_json(&tree);

    assert!(output.is_some());
}

#[test]
fn test_classify_response_success_passes_body_through() {
    let r = classify_response(true, "anything at all".to_string());
    assert_eq!(r.unwrap(), "anything at all");
}

#[test]
fn test_classify_response_failure_with_envelope() {
    let r = classify_response(
        false,
        r#"{"error":{"code":401,"description":"Invalid API key","debug":null}}"#.to_string(),
    );
    match r {
        Err(ClientError::ServerError(e)) => {
            assert_eq!(e.error.code, 401);
            assert_eq!(e.error.description, "Invalid API key");
            assert!(e.error.debug.is_none());
        }
        other => panic!("expected ServerError, got {:?}", other),
    }
}

#[test]
fn test_classify_response_failure_with_debug_detail() {
    let r = classify_response(
        false,
        r#"{"error":{"code":500,"description":"boom","debug":"stack trace"}}"#.to_string(),
    );
    match r {
        Err(ClientError::ServerError(e)) => {
            assert_eq!(e.error.code, 500);
            assert_eq!(e.error.debug, Some("stack trace".to_string()));
        }
        other => panic!("expected ServerError, got {:?}", other),
    }
}

#[test]
fn test_classify_response_failure_without_envelope() {
    let r = classify_response(false, r#"{"message":"no envelope here"}"#.to_string());
    assert!(matches!(r, Err(ClientError::Serde(_))));
}

#[test]
fn test_classify_response_failure_with_unparseable_body() {
    let r = classify_response(false, "{".to_string());
    match r {
        Err(ClientError::Serde(m)) => assert!(!m.is_empty()),
        other => panic!("expected Serde, got {:?}", other),
    }
}

#[test]
fn test_classify_response_failure_with_wrongly_typed_debug() {
    let r = classify_response(
        false,
        r#"{"error":{"code":1,"description":"d","debug":7}}"#.to_string(),
    );
    assert!(matches!(r, Err(ClientError::Serde(_))));
}

fn wire_body() -> &'static str {
    r#"{"codes":[{"code":"FOOB-BARS-TEST","expired":false,"expires_at":"2024-01-01 00:00:00.0","sources":{"creator":1,"submitter":2,"lister":9}}],"sources":{"1":{"id":1,"name":"foo","url":"https://foo.example"},"2":{"id":2,"name":"bar","url":"https://bar.example"}}}"#
}

#[test]
fn test_decode_codes_full_from_text() {
    let codes = decode_codes_full(wire_body()).unwrap();
    assert_eq!(codes.len(), 1);
    assert_eq!(codes[0].code, "FOOB-BARS-TEST");
    assert!(!codes[0].expired);
    assert_eq!(codes[0].expires_at, Some("2024-01-01 00:00:00.0".to_string()));
    let creator = codes[0].creator.as_ref().unwrap();
    assert_eq!(creator.id, 1);
    assert_eq!(creator.name, "foo");
    assert_eq!(creator.url, "https://foo.example");
    assert_eq!(codes[0].submitter.as_ref().unwrap().name, "bar");
    assert!(codes[0].lister.is_none());
}

#[test]
fn test_decode_codes_slim_from_text() {
    let codes = decode_codes_slim(wire_body()).unwrap();
    assert_eq!(codes.len(), 1);
    assert_eq!(codes[0].code, "FOOB-BARS-TEST");
    assert!(!codes[0].expired);
    assert!(codes[0].expires_at.is_none());
    assert!(codes[0].creator.is_none());
    assert!(codes[0].submitter.is_none());
    assert!(codes[0].lister.is_none());
}

#[test]
fn test_decode_codes_rejects_malformed_text() {
    assert!(matches!(decode_codes_full("not json"), Err(ClientError::Serde(_))));
    assert!(matches!(decode_codes_full(r#"{"codes":[]}"#), Err(ClientError::Serde(_))));
    assert!(matches!(
        decode_codes_full(r#"{"codes":[{"code":"X"}],"sources":{}}"#),
        Err(ClientError::Serde(_))
    ));
}

#[test]
fn test_decode_codes_rejects_malformed_source_key() {
    let body = r#"{"codes":[],"sources":{"01":{"id":1,"name":"n","url":"u"}}}"#;
    assert!(matches!(decode_codes_full(body), Err(ClientError::Serde(_))));
}

#[test]
fn test_decode_codes_empty_lists() {
    let codes = decode_codes_full(r#"{"codes":[],"sources":{}}"#).unwrap();
    assert!(codes.is_empty());
}
