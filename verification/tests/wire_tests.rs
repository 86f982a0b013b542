use licc::wire::{mapping_full, mapping_slim, SourcesMapping, WireCode, WireResponse};
use licc::Source;

fn mock_response() -> WireResponse {
    let sources = vec![
        (
            1,
            Source { id: 1, name: "foo".to_string(), url: "https://foo.example".to_string() },
        ),
        (
            2,
            Source { id: 2, name: "bar".to_string(), url: "https://bar.example".to_string() },
        ),
        (
            3,
            Source {
                id: 3,
                name: "lister".to_string(),
                url: "https://lister.example".to_string(),
            },
        ),
    ];

    WireResponse {
        codes: vec![WireCode {
            code: "FOOB-BARS-TEST".to_string(),
            expired: false,
            expires_at: "2024-01-01 00:00:00.0".to_string(),
            sources: SourcesMapping { creator: 1, submitter: 2, lister: 3 },
        }],
        sources,
    }
}

#[test]
fn test_mapping_slim() {
    let m = mapping_slim(mock_response());
    assert_eq!(m.len(), 1);
    assert_eq!(m[0].code, "FOOB-BARS-TEST");
    assert!(!m[0].expired);
    assert!(m[0].expires_at.is_none());
    assert!(m[0].creator.is_none());
    assert!(m[0].submitter.is_none());
    assert!(m[0].lister.is_none());
}

#[test]
fn test_mapping_full() {
    let m = mapping_full(mock_response());
    assert_eq!(m.len(), 1);
    assert_eq!(m[0].code, "FOOB-BARS-TEST");
    assert!(!m[0].expired);
    assert!(m[0].expires_at.is_some());
    assert_eq!(m[0].expires_at, Some("2024-01-01 00:00:00.0".to_string()));
    assert!(m[0].creator.is_some());
    assert!(m[0].submitter.is_some());
    assert!(m[0].lister.is_some());
}

#[test]
fn test_mapping_full_resolves_each_source() {
    let m = mapping_full(mock_response());
    let creator = m[0].creator.as_ref().unwrap();
    assert_eq!(creator.id, 1);
    assert_eq!(creator.name, "foo");
    assert_eq!(creator.url, "https://foo.example");
    let submitter = m[0].submitter.as_ref().unwrap();
    assert_eq!(submitter.id, 2);
    assert_eq!(submitter.name, "bar");
    let lister = m[0].lister.as_ref().unwrap();
    assert_eq!(lister.id, 3);
    assert_eq!(lister.name, "lister");
}

#[test]
fn test_mapping_full_absent_source_id() {
    let mut response = mock_response();
    response.codes[0].sources.submitter = 9;
    let m = mapping_full(response);
    assert_eq!(m.len(), 1);
    assert!(m[0].creator.is_some());
    assert!(m[0].submitter.is_none());
    assert!(m[0].lister.is_some());
}

#[test]
fn test_mapping_empty_response() {
    let response = WireResponse { codes: vec![], sources: vec![] };
    assert!(mapping_full(response).is_empty());
    let response = WireResponse { codes: vec![], sources: vec![] };
    assert!(mapping_slim(response).is_empty());
}

#[test]
fn test_mapping_preserves_order_and_count() {
    let mut response = mock_response();
    response.codes.push(WireCode {
        code: "SECO-NDCO-DE00".to_string(),
        expired: true,
        expires_at: "2020-01-01 00:00:00.0".to_string(),
        sources: SourcesMapping { creator: 3, submitter: 3, lister: 1 },
    });
    let m = mapping_slim(response);
    assert_eq!(m.len(), 2);
    assert_eq!(m[0].code, "FOOB-BARS-TEST");
    assert_eq!(m[1].code, "SECO-NDCO-DE00");
    assert!(m[1].expired);
}
