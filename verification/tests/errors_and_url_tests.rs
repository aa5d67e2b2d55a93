use async_anthropic::errors::{AnthropicError, StreamError};
use async_anthropic::url::format_url;

#[test]
fn only_rate_limits_count_as_transient() {
    assert!(AnthropicError::RateLimit { retry_after: None }.is_rate_limit());
    assert!(AnthropicError::RateLimit { retry_after: Some(3) }.is_rate_limit());
    assert!(!AnthropicError::Unauthorized.is_rate_limit());
    assert!(!AnthropicError::Unknown("x".to_string()).is_rate_limit());
}

#[test]
fn stream_error_renders_type_and_message() {
    let e = StreamError::new("overloaded_error".to_string(), "Overloaded".to_string());
    assert_eq!(e.display_string(), "Error (overloaded_error): Overloaded");
}

#[test]
fn stream_error_renders_the_nested_value() {
    let e = StreamError {
        error_type: "api_error".to_string(),
        message: Some("bad".to_string()),
        error: Some(serde_json::Value::Bool(true)),
    };
    assert_eq!(e.display_string(), "Error (api_error): bad - true");

    let bare = StreamError { error_type: "api_error".to_string(), message: None, error: None };
    assert_eq!(bare.display_string(), "Error (api_error): ");
}

#[test]
fn url_joining_uses_exactly_one_slash() {
    assert_eq!(
        format_url("https://api.example.com", "v1/messages"),
        "https://api.example.com/v1/messages"
    );
    assert_eq!(
        format_url("https://api.example.com/", "/v1/messages"),
        "https://api.example.com/v1/messages"
    );
    assert_eq!(
        format_url("https://api.example.com///", "///v1/messages"),
        "https://api.example.com/v1/messages"
    );
    assert_eq!(format_url("base", ""), "base/");
    assert_eq!(format_url("", "path"), "/path");
}
