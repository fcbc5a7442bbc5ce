use turbodocx_sdk::http::HttpClientConfig;
use turbodocx_sdk::TurboSign;
use turbodocx_sdk::TurboTemplate;

#[test]
fn test_config_default() {
    let config = HttpClientConfig::default();
    assert_eq!(config.base_url, "https://api.turbodocx.com");
}

#[test]
fn test_config_builder() {
    let config = HttpClientConfig::new("test-api-key")
        .with_base_url("https://test.example.com")
        .with_org_id("org-123")
        .with_sender_email("test@example.com");

    assert_eq!(config.api_key, Some("test-api-key".to_string()));
    assert_eq!(config.base_url, "https://test.example.com");
    assert_eq!(config.org_id, Some("org-123".to_string()));
    assert_eq!(config.sender_email, Some("test@example.com".to_string()));
}

#[test]
fn sign_test_configure() {
    let config = HttpClientConfig::new("test-key")
        .with_org_id("test-org")
        .with_sender_email("test@example.com");
    let result = TurboSign::configure(config);
    assert!(result.is_ok());
}

#[test]
fn template_test_configure() {
    let config = HttpClientConfig::new("test-key");
    let result = TurboTemplate::configure(config);
    assert!(result.is_ok());
}

#[test]
fn test_config_access_token_and_sender_name() {
    let config = HttpClientConfig::new("key")
        .with_access_token("tok")
        .with_sender_name("Support");
    assert_eq!(config.access_token, Some("tok".to_string()));
    assert_eq!(config.sender_name, Some("Support".to_string()));
    assert_eq!(config.api_key, Some("key".to_string()));
}

#[test]
fn test_headers_api_key_precedence() {
    let config = HttpClientConfig::new("key").with_access_token("tok").with_org_id("org-1");
    let headers = turbodocx_sdk::http::json_headers(&config);
    assert_eq!(
        headers,
        vec![
            ("Authorization".to_string(), "Bearer key".to_string()),
            ("x-rapiddocx-org-id".to_string(), "org-1".to_string()),
            ("Content-Type".to_string(), "application/json".to_string()),
        ]
    );
}

#[test]
fn test_headers_access_token_fallback() {
    let config = HttpClientConfig::default().with_access_token("tok");
    let headers = turbodocx_sdk::http::auth_headers(&config);
    assert_eq!(headers, vec![("Authorization".to_string(), "Bearer tok".to_string())]);
}

#[test]
fn test_build_url_concatenates() {
    let config = HttpClientConfig::new("k").with_base_url("https://x.example");
    let url = turbodocx_sdk::http::build_url(&config, "/v1/deliverable");
    assert_eq!(url, "https://x.example/v1/deliverable");
}
