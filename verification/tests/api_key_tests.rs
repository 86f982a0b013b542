use licc::api_key::ApiKey;

#[test]
fn test_api_key() {
    let key = ApiKey::new("test".to_string());
    assert_eq!(key.get(), "test");
}
