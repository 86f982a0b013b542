use licc::error::ClientError;
use licc::write::{
    encode_insert_request, insert_outcome, InsertCodeRequest, RemoteInsertCodeRequest,
    SourceLookup,
};

#[test]
fn test_it_can_serialize_insert_request() {
    let insert_request = InsertCodeRequest {
        code: "FOOB-BARS-TEST".to_string(),
        expires_at: 800,
        creator: SourceLookup {
            name: "Example Creator".to_string(),
            url: "https://creator.example.org".to_string(),
        },
        submitter: Some(SourceLookup {
            name: "Example Submitter".to_string(),
            url: "https://submitter.example.org".to_string(),
        }),
    };

    let remote_request = RemoteInsertCodeRequest::from(insert_request);

    let ser = encode_insert_request(&remote_request);

    assert_eq!(
        ser,
        r#"{"code":"FOOB-BARS-TEST","expires_at":800,"creator_name":"Example Creator","creator_url":"https://creator.example.org","submitter_name":"Example Submitter","submitter_url":"https://submitter.example.org"}"#
    );
}

#[test]
fn test_serialize_insert_request_without_submitter() {
    let insert_request = InsertCodeRequest {
        code: "FOOB-BARS-TEST".to_string(),
        expires_at: 800,
        creator: SourceLookup { name: "c".to_string(), url: "https://c.example".to_string() },
        submitter: None,
    };

    let remote_request = RemoteInsertCodeRequest::from(insert_request);

    assert_eq!(
        encode_insert_request(&remote_request),
        r#"{"code":"FOOB-BARS-TEST","expires_at":800,"creator_name":"c","creator_url":"https://c.example","submitter_name":null,"submitter_url":null}"#
    );
}

#[test]
fn test_serialize_escapes_special_characters() {
    let remote_request = RemoteInsertCodeRequest {
        code: "a\"b\\c\nd".to_string(),
        expires_at: 0,
        creator_name: "tab\there".to_string(),
        creator_url: "ctl\u{1f}".to_string(),
        submitter_name: None,
        submitter_url: None,
    };

    assert_eq!(
        encode_insert_request(&remote_request),
        "{\"code\":\"a\\\"b\\\\c\\nd\",\"expires_at\":0,\"creator_name\":\"tab\\there\",\"creator_url\":\"ctl\\u001f\",\"submitter_name\":null,\"submitter_url\":null}"
    );
}

#[test]
fn test_serialize_largest_expiry() {
    let remote_request = RemoteInsertCodeRequest {
        code: "x".to_string(),
        expires_at: 18446744073709551615,
        creator_name: "n".to_string(),
        creator_url: "u".to_string(),
        submitter_name: None,
        submitter_url: None,
    };

    let ser = encode_insert_request(&remote_request);
    assert!(ser.contains("\"expires_at\":18446744073709551615,"));
}

#[test]
fn test_insert_outcome_with_numeric_body() {
    let r = insert_outcome(Ok("12".to_string()));
    assert_eq!(r.unwrap(), Some(12));
}

#[test]
fn test_insert_outcome_with_unparseable_body() {
    let r = insert_outcome(Ok("not-a-number".to_string()));
    assert_eq!(r.unwrap(), None);
}

#[test]
fn test_insert_outcome_passes_errors_through() {
    let r = insert_outcome(Err(ClientError::ApiKeyMissing));
    assert!(matches!(r, Err(ClientError::ApiKeyMissing)));
}
