use async_anthropic::types::{
    CreateMessagesResponse, Message, MessageContent, MessageContentList, MessageRole, Text,
    Thinking, ToolChoice, ToolResult, ToolUse, Usage,
};

#[test]
fn test_from_str() {
    let message: Message = "Hello world!".into();

    assert_eq!(
        message,
        Message {
            role: MessageRole::User,
            content: MessageContentList(vec![MessageContent::Text(Text {
                text: "Hello world!".to_string(),
                cache_control: None,
            })]),
        }
    );

    assert_eq!(message.text(), Some("Hello world!".to_string()));
}

#[test]
fn response_messages_are_assistant_messages_per_block() {
    let response = CreateMessagesResponse {
        id: Some("msg_01KkaCASJuaAgTWD2wqdbwC8".to_string()),
        content: vec![MessageContent::Text(Text {
            text: "Hi! How can I help you today?".to_string(),
            cache_control: None,
        })],
        model: Some("example-model-20241022".to_string()),
        stop_reason: Some("end_turn".to_string()),
        stop_sequence: None,
        usage: Some(Usage { input_tokens: Some(10), output_tokens: Some(12) }),
    };

    let messages = response.messages();
    assert_eq!(messages.len(), 1);
    assert_eq!(messages[0].role, MessageRole::Assistant);
    assert_eq!(
        messages[0].content.0.first().unwrap().as_text(),
        Some(&Text { text: "Hi! How can I help you today?".to_string(), cache_control: None })
    );

    let usage = response.usage.as_ref().unwrap();
    assert_eq!(usage.input_tokens, Some(10));
    assert_eq!(usage.output_tokens, Some(12));
}

#[test]
fn tool_choice_constructors_set_the_documented_defaults() {
    assert!(matches!(ToolChoice::none(), ToolChoice::NoTools));
    assert!(matches!(
        ToolChoice::auto(),
        ToolChoice::Auto { disable_parallel_tool_use: false }
    ));
    assert!(matches!(
        ToolChoice::any(),
        ToolChoice::Any { disable_parallel_tool_use: false }
    ));
    match ToolChoice::tool("calculator".to_string()) {
        ToolChoice::Tool { name, disable_parallel_tool_use } => {
            assert_eq!(name, "calculator");
            assert!(!disable_parallel_tool_use);
        },
        _ => panic!("expected a tool choice"),
    }
}

#[test]
fn disable_parallel_tool_use_flag_is_set_per_variant() {
    assert!(matches!(
        ToolChoice::auto().with_disable_parallel_tool_use(true),
        ToolChoice::Auto { disable_parallel_tool_use: true }
    ));
    assert!(matches!(
        ToolChoice::any().with_disable_parallel_tool_use(true),
        ToolChoice::Any { disable_parallel_tool_use: true }
    ));
    assert!(matches!(
        ToolChoice::none().with_disable_parallel_tool_use(true),
        ToolChoice::NoTools
    ));
    match ToolChoice::tool("calculator".to_string()).with_disable_parallel_tool_use(true) {
        ToolChoice::Tool { name, disable_parallel_tool_use } => {
            assert_eq!(name, "calculator");
            assert!(disable_parallel_tool_use);
        },
        _ => panic!("expected a tool choice"),
    }
}

#[test]
fn with_signature_signs_a_thinking_block() {
    let t = Thinking::from("step by step").with_signature("sig".to_string());
    assert_eq!(t.thinking, "step by step");
    assert_eq!(t.signature, Some("sig".to_string()));
}

#[test]
fn tool_uses_collects_only_tool_use_blocks_in_order() {
    let first = ToolUse {
        id: "a".to_string(),
        input: serde_json::Value::Null,
        name: "one".to_string(),
        cache_control: None,
    };
    let second = ToolUse {
        id: "b".to_string(),
        input: serde_json::Value::Bool(true),
        name: "two".to_string(),
        cache_control: None,
    };
    let message = Message {
        role: MessageRole::Assistant,
        content: MessageContentList(vec![
            MessageContent::Text(Text::from("before")),
            MessageContent::ToolUse(first.clone()),
            MessageContent::Thinking(Thinking::from("hm")),
            MessageContent::ToolUse(second.clone()),
        ]),
    };
    assert_eq!(message.tool_uses(), vec![first, second]);
}

#[test]
fn text_returns_the_first_text_block_only() {
    let message = Message {
        role: MessageRole::Assistant,
        content: MessageContentList(vec![
            MessageContent::Thinking(Thinking::from("hm")),
            MessageContent::Text(Text::from("first")),
            MessageContent::Text(Text::from("second")),
        ]),
    };
    assert_eq!(message.text(), Some("first".to_string()));

    let empty = Message { role: MessageRole::User, content: MessageContentList(vec![]) };
    assert_eq!(empty.text(), None);
}

#[test]
fn content_block_accessors_match_their_variant() {
    let text = MessageContent::Text(Text::from("t"));
    assert!(text.as_text().is_some());
    assert!(text.as_tool_use().is_none());
    assert!(text.as_tool_result().is_none());

    let result = MessageContent::ToolResult(ToolResult {
        tool_use_id: "a".to_string(),
        content: Some("out".to_string()),
        is_error: false,
        cache_control: None,
    });
    assert!(result.as_tool_result().is_some());
    assert!(result.as_text().is_none());
}

#[test]
fn conversions_wrap_blocks_into_lists() {
    let list: MessageContentList = Text::from("hello").into();
    assert_eq!(list.0.len(), 1);
    assert!(list.0[0].as_text().is_some());

    let list: MessageContentList = "plain".into();
    assert_eq!(
        list,
        MessageContentList(vec![MessageContent::Text(Text {
            text: "plain".to_string(),
            cache_control: None,
        })])
    );
}
