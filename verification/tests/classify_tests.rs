use async_anthropic::classify::{classify_response, parse_retry_after};
use async_anthropic::errors::AnthropicError;

#[test]
fn success_hands_the_body_back_for_decoding() {
    let r = classify_response(200, None, "{\"ok\":true}".to_string());
    assert_eq!(r, Ok("{\"ok\":true}".to_string()));
}

#[test]
fn bad_request_carries_the_raw_body() {
    let r = classify_response(400, None, "invalid model".to_string());
    assert_eq!(r, Err(AnthropicError::BadRequest("invalid model".to_string())));
}

#[test]
fn unauthorized_reads_no_body() {
    let r = classify_response(401, None, "ignored".to_string());
    assert_eq!(r, Err(AnthropicError::Unauthorized));
}

#[test]
fn rate_limit_reads_retry_after_seconds() {
    let r = classify_response(429, Some(b"5"), "slow down".to_string());
    assert_eq!(r, Err(AnthropicError::RateLimit { retry_after: Some(5) }));
}

#[test]
fn rate_limit_without_header_leaves_the_policy_to_decide() {
    let r = classify_response(429, None, "slow down".to_string());
    assert_eq!(r, Err(AnthropicError::RateLimit { retry_after: None }));
}

#[test]
fn overloaded_status_is_a_rate_limit() {
    let r = classify_response(529, Some(b"12"), "overloaded".to_string());
    assert_eq!(r, Err(AnthropicError::RateLimit { retry_after: Some(12) }));
}

#[test]
fn unparseable_retry_after_counts_as_absent() {
    let r = classify_response(429, Some(b"tomorrow"), "busy".to_string());
    assert_eq!(r, Err(AnthropicError::RateLimit { retry_after: None }));
}

#[test]
fn other_statuses_are_unknown_with_the_raw_body() {
    for status in [201u16, 204, 301, 403, 404, 500, 503] {
        let r = classify_response(status, None, "body".to_string());
        assert_eq!(r, Err(AnthropicError::Unknown("body".to_string())));
    }
}

#[test]
fn retry_after_parsing_follows_integer_syntax() {
    assert_eq!(parse_retry_after(b"0"), Some(0));
    assert_eq!(parse_retry_after(b"5"), Some(5));
    assert_eq!(parse_retry_after(b"+5"), Some(5));
    assert_eq!(parse_retry_after(b"007"), Some(7));
    assert_eq!(parse_retry_after(b"18446744073709551615"), Some(u64::MAX));
    assert_eq!(parse_retry_after(b""), None);
    assert_eq!(parse_retry_after(b"+"), None);
    assert_eq!(parse_retry_after(b"-1"), None);
    assert_eq!(parse_retry_after(b"5s"), None);
    assert_eq!(parse_retry_after(b" 5"), None);
    assert_eq!(parse_retry_after(b"5 "), None);
    assert_eq!(parse_retry_after(b"18446744073709551616"), None);
    assert_eq!(parse_retry_after(b"Fri, 31 Dec 1999 23:59:59 GMT"), None);
}
