use palpo_admin::api::ApiResponse;
use palpo_admin::{ApiClient, ApiError, Method};

fn header<'a>(headers: &'a [(String, String)], name: &str) -> Vec<&'a str> {
    headers.iter().filter(|h| h.0 == name).map(|h| h.1.as_str()).collect()
}

#[test]
fn test_api_client_creation() {
    let client = ApiClient::new("https://example.com".to_string());
    assert_eq!(client.base_url(), "https://example.com");
    assert!(client.token().is_none());
}

#[test]
fn test_api_client_with_token() {
    let client = ApiClient::new("https://example.com".to_string()).with_token("test_token".to_string());
    assert_eq!(client.token(), Some("test_token"));
}

#[test]
fn test_api_client_set_token() {
    let mut client = ApiClient::new("https://example.com".to_string());
    assert!(client.token().is_none());

    client.set_token(Some("new_token".to_string()));
    assert_eq!(client.token(), Some("new_token"));

    client.set_token(None);
    assert!(client.token().is_none());
}

#[test]
fn test_build_url() {
    let client = ApiClient::new("https://example.com".to_string());
    assert_eq!(client.build_url("/api/test"), "https://example.com/api/test");
    assert_eq!(client.build_url("api/test"), "https://example.com/api/test");
    assert_eq!(client.build_url("https://other.com/api"), "https://other.com/api");
}

#[test]
fn test_build_url_with_trailing_slash() {
    let client = ApiClient::new("https://example.com/".to_string());
    assert_eq!(client.build_url("api/test"), "https://example.com/api/test");
}

#[test]
fn test_api_error_display() {
    let error = ApiError::Status(404, "Not Found".to_string());
    assert_eq!(error.to_string(), "HTTP 404: Not Found");

    let error = ApiError::Network("Connection failed".to_string());
    assert_eq!(error.to_string(), "Network error: Connection failed");

    let error = ApiError::Json("Invalid JSON".to_string());
    assert_eq!(error.to_string(), "JSON error: Invalid JSON");

    let error = ApiError::Other("Unknown error".to_string());
    assert_eq!(error.to_string(), "Error: Unknown error");
}

#[test]
fn test_api_response_success() {
    let mut map = serde_json::Map::new();
    map.insert("key".to_string(), serde_json::Value::String("value".to_string()));
    let data = serde_json::Value::Object(map);
    let response: ApiResponse<serde_json::Value> = ApiResponse::success(data.clone());

    assert!(response.success);
    assert_eq!(response.data, Some(data));
    assert!(response.error.is_none());
}

#[test]
fn test_api_response_error() {
    let response: ApiResponse<String> = ApiResponse::error("Test error".to_string());

    assert!(!response.success);
    assert!(response.data.is_none());
    assert_eq!(response.error, Some("Test error".to_string()));
}

#[test]
fn test_complex_url_building() {
    let client = ApiClient::new("http://localhost:8008".to_string());
    assert_eq!(
        client.build_url("/_matrix/client/v3/login"),
        "http://localhost:8008/_matrix/client/v3/login"
    );
    assert_eq!(
        client.build_url("/api/users?from=10&limit=20"),
        "http://localhost:8008/api/users?from=10&limit=20"
    );
}

#[test]
fn test_api_client_clone() {
    let client1 = ApiClient::new("https://example.com".to_string()).with_token("token1".to_string());

    let mut client2 = client1.clone();
    client2.set_token(Some("token2".to_string()));

    assert_eq!(client1.token(), Some("token1"));
    assert_eq!(client2.token(), Some("token2"));
}

#[test]
fn every_trailing_and_leading_slash_is_dropped() {
    let client = ApiClient::new("https://example.com///".to_string());
    assert_eq!(client.base_url(), "https://example.com");
    assert_eq!(client.build_url("//a/b"), "https://example.com/a/b");
    assert_eq!(client.build_url(""), "https://example.com/");
}

#[test]
fn http_prefix_is_case_sensitive_and_absolute() {
    let client = ApiClient::new("https://example.com".to_string());
    assert_eq!(client.build_url("http://x/y"), "http://x/y");
    assert_eq!(client.build_url("httpfoo"), "httpfoo");
    assert_eq!(client.build_url("HTTP://x"), "https://example.com/HTTP://x");
}

#[test]
fn bearer_header_is_sent_once_per_request() {
    let client = ApiClient::new("https://h".to_string()).with_token("T".to_string());
    for req in [
        client.get("/a"),
        client.delete("/a"),
        client.post("/a", "{}".to_string()),
        client.put("/a", "{}".to_string()),
    ] {
        assert_eq!(header(&req.headers, "Authorization"), vec!["Bearer T"]);
    }
}

#[test]
fn requests_without_token_carry_no_authorization() {
    let client = ApiClient::new("https://h".to_string());
    let get = client.get("x");
    assert_eq!(get.method, Method::Get);
    assert_eq!(get.method.as_str(), "GET");
    assert_eq!(get.url, "https://h/x");
    assert!(get.headers.is_empty());
    assert!(get.body.is_none());

    let post = client.post("x", "{\"a\":1}".to_string());
    assert_eq!(post.method.as_str(), "POST");
    assert_eq!(post.headers, vec![("Content-Type".to_string(), "application/json".to_string())]);
    assert_eq!(post.body.as_deref(), Some("{\"a\":1}"));
    assert_eq!(client.put("x", "1".to_string()).method.as_str(), "PUT");
    assert_eq!(client.delete("x").method.as_str(), "DELETE");
}

#[test]
fn success_response_yields_body_or_empty_object() {
    let client = ApiClient::new("https://h".to_string());
    assert_eq!(client.handle_response(200, "{\"a\":1}".to_string()).unwrap(), "{\"a\":1}");
    assert_eq!(client.handle_response(204, String::new()).unwrap(), "{}");
    assert_eq!(client.handle_response(299, "x".to_string()).unwrap(), "x");
}

#[test]
fn error_response_uses_error_field_or_raw_text() {
    let client = ApiClient::new("https://h".to_string());
    match client.handle_response(401, "{\"error\": \"Invalid token\"}".to_string()) {
        Err(ApiError::Status(401, m)) => assert_eq!(m, "Invalid token"),
        other => panic!("unexpected {:?}", other),
    }
    match client.handle_response(500, "upstream down".to_string()) {
        Err(ApiError::Status(500, m)) => assert_eq!(m, "upstream down"),
        other => panic!("unexpected {:?}", other),
    }
    match client.handle_response(300, "{\"error\": 5}".to_string()) {
        Err(ApiError::Status(300, m)) => assert_eq!(m, "{\"error\": 5}"),
        other => panic!("unexpected {:?}", other),
    }
    match client.handle_response(199, "{\"errcode\":\"X\"}".to_string()) {
        Err(ApiError::Status(199, m)) => assert_eq!(m, "{\"errcode\":\"X\"}"),
        other => panic!("unexpected {:?}", other),
    }
}

#[test]
fn decode_failure_quotes_the_body() {
    match ApiClient::decode_failure("expected value".to_string(), "oops") {
        ApiError::Json(m) => assert_eq!(m, "Failed to parse JSON: expected value. Response: oops"),
        other => panic!("unexpected {:?}", other),
    }
    match ApiClient::decode_failure("missing field".to_string(), "") {
        ApiError::Json(m) => assert_eq!(m, "missing field"),
        other => panic!("unexpected {:?}", other),
    }
}

#[test]
fn decimal_renders_extremes() {
    assert_eq!(palpo_admin::decimal(0), "0");
    assert_eq!(palpo_admin::decimal(-42), "-42");
    assert_eq!(palpo_admin::decimal(i64::MIN), "-9223372036854775808");
    assert_eq!(palpo_admin::decimal(i64::MAX), "9223372036854775807");
}

#[test]
fn text_helpers() {
    assert!(palpo_admin::contains("xx invalid yy", "invalid"));
    assert!(!palpo_admin::contains("inval", "invalid"));
    assert!(palpo_admin::contains("abc", ""));
    assert!(palpo_admin::starts_with("https://a", "http"));
    assert!(!palpo_admin::starts_with("htt", "http"));
    assert_eq!(palpo_admin::trim_end_slash("a//"), "a");
    assert_eq!(palpo_admin::trim_start_slash("//a/"), "a/");
}
