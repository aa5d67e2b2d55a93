use async_anthropic::backoff::BackoffConfig;
use async_anthropic::errors::{AnthropicError, StreamError};
use async_anthropic::stream::{
    bridge_step, classify_frame, pump, transport_fault_error, unknown_event_error, BridgeEffect,
    BridgeState, BridgeStep, Delivered, FrameClass,
};

fn config(max_attempts: Option<u32>) -> BackoffConfig {
    BackoffConfig {
        min_delay_ms: 100,
        max_delay_ms: 1000,
        factor: 2,
        jitter: false,
        max_attempts,
    }
}

fn allow_list() -> Vec<String> {
    vec!["message_start".to_string(), "message_delta".to_string(), "message_stop".to_string()]
}

fn overloaded() -> StreamError {
    StreamError::new("overloaded_error".to_string(), "Overloaded".to_string())
}

#[test]
fn frame_names_classify_against_the_allow_list() {
    let allow = allow_list();
    assert_eq!(classify_frame(&"ping".to_string(), &allow), FrameClass::Ignored);
    assert_eq!(classify_frame(&"error".to_string(), &allow), FrameClass::ErrorEvent);
    assert_eq!(classify_frame(&"message_delta".to_string(), &allow), FrameClass::Data);
    assert_eq!(classify_frame(&"surprise".to_string(), &allow), FrameClass::UnknownEvent);
}

#[test]
fn pings_then_clean_close_deliver_nothing() {
    // An endless keepalive stream that closes cleanly yields an empty
    // sequence with no error.
    let cfg = config(Some(4));
    let steps = vec![
        BridgeStep::Opened,
        BridgeStep::FrameIgnored,
        BridgeStep::FrameIgnored,
        BridgeStep::FrameIgnored,
        BridgeStep::Ended,
    ];
    let samples = vec![0; 5];
    assert_eq!(pump(&cfg, &steps, &samples), Vec::<Delivered>::new());
}

#[test]
fn decode_failure_ends_the_stream_after_the_first_event() {
    // One decoded event, then a malformed payload: exactly two items.
    let cfg = config(Some(4));
    let steps = vec![
        BridgeStep::Opened,
        BridgeStep::FrameData(Ok(())),
        BridgeStep::FrameData(Err("expected value at line 1".to_string())),
        BridgeStep::FrameData(Ok(())),
    ];
    let samples = vec![0; 4];
    let out = pump(&cfg, &steps, &samples);
    assert_eq!(out, vec![
        Delivered::Event,
        Delivered::Error(AnthropicError::DeserializationError(
            "expected value at line 1".to_string(),
        )),
    ]);
}

#[test]
fn server_error_event_is_the_sole_item() {
    let cfg = config(Some(4));
    let steps = vec![BridgeStep::Opened, BridgeStep::FrameError(Ok(overloaded()))];
    let samples = vec![0; 2];
    let out = pump(&cfg, &steps, &samples);
    assert_eq!(out, vec![Delivered::Error(AnthropicError::StreamError(overloaded()))]);
}

#[test]
fn malformed_error_event_surfaces_as_deserialization_failure() {
    let cfg = config(Some(4));
    let steps = vec![BridgeStep::FrameError(Err("not json".to_string()))];
    let samples = vec![0];
    let out = pump(&cfg, &steps, &samples);
    assert_eq!(out, vec![Delivered::Error(AnthropicError::DeserializationError(
        "not json".to_string(),
    ))]);
}

#[test]
fn unknown_event_name_is_terminal() {
    let cfg = config(Some(4));
    let steps = vec![
        BridgeStep::FrameData(Ok(())),
        BridgeStep::FrameUnknown("surprise".to_string()),
        BridgeStep::FrameData(Ok(())),
    ];
    let samples = vec![0; 3];
    let out = pump(&cfg, &steps, &samples);
    assert_eq!(out, vec![
        Delivered::Event,
        Delivered::UnknownEvent("surprise".to_string()),
    ]);
}

#[test]
fn retryable_rejection_reconnects_silently() {
    let cfg = config(None);
    let steps = vec![
        BridgeStep::Rejected {
            status: 429,
            retry_after_header: Some(b"5".to_vec()),
            body: "busy".to_string(),
        },
        BridgeStep::Opened,
        BridgeStep::FrameData(Ok(())),
        BridgeStep::Ended,
    ];
    let samples = vec![0; 4];
    let out = pump(&cfg, &steps, &samples);
    assert_eq!(out, vec![Delivered::Event]);
}

#[test]
fn non_retryable_rejection_is_delivered_and_terminal() {
    let cfg = config(None);
    let steps = vec![
        BridgeStep::Rejected { status: 401, retry_after_header: None, body: "no".to_string() },
        BridgeStep::Opened,
    ];
    let samples = vec![0; 2];
    let out = pump(&cfg, &steps, &samples);
    assert_eq!(out, vec![Delivered::Error(AnthropicError::Unauthorized)]);
}

#[test]
fn exhausted_reconnect_budget_surfaces_the_rate_limit() {
    let cfg = config(Some(1));
    let steps = vec![BridgeStep::Rejected {
        status: 529,
        retry_after_header: Some(b"7".to_vec()),
        body: "overloaded".to_string(),
    }];
    let samples = vec![0];
    let out = pump(&cfg, &steps, &samples);
    assert_eq!(out, vec![Delivered::Error(AnthropicError::RateLimit { retry_after: Some(7) })]);
}

#[test]
fn transport_fault_is_terminal() {
    let cfg = config(Some(4));
    let steps = vec![BridgeStep::Faulted("connection reset".to_string())];
    let samples = vec![0];
    let out = pump(&cfg, &steps, &samples);
    assert_eq!(out, vec![Delivered::TransportFault("connection reset".to_string())]);
}

#[test]
fn reconnect_pause_honors_retry_after_then_policy() {
    let cfg = config(None);
    let mut st = BridgeState::new();
    let effect = bridge_step(
        &cfg,
        &mut st,
        BridgeStep::Rejected {
            status: 429,
            retry_after_header: Some(b"5".to_vec()),
            body: "busy".to_string(),
        },
        0,
    );
    assert!(matches!(effect, BridgeEffect::Reconnect { pause_ms: 5000 }));
    assert_eq!(st.reconnects, 1);

    // No header: the policy's delay for reconnect index 1.
    let effect = bridge_step(
        &cfg,
        &mut st,
        BridgeStep::Rejected { status: 429, retry_after_header: None, body: "busy".to_string() },
        0,
    );
    assert!(matches!(effect, BridgeEffect::Reconnect { pause_ms: 200 }));
    assert_eq!(st.reconnects, 2);

    // A successful open resets the reconnect budget.
    let effect = bridge_step(&cfg, &mut st, BridgeStep::Opened, 0);
    assert!(matches!(effect, BridgeEffect::Silent));
    assert_eq!(st.reconnects, 0);
}

#[test]
fn unknown_event_error_names_the_event() {
    let e = unknown_event_error("surprise".to_string());
    assert_eq!(e.error_type, "unknown_event_type");
    assert_eq!(e.message, Some("Unknown event type: surprise".to_string()));
    assert_eq!(e.error, None);
}

#[test]
fn transport_fault_error_carries_the_description() {
    let e = transport_fault_error("timed out".to_string());
    assert_eq!(e.error_type, "sse_error");
    assert_eq!(e.message, Some("timed out".to_string()));
    assert_eq!(e.error, None);
}
