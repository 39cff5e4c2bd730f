use llm_backend::{ContentBlock, Message, MessageRole, ToolCall};
use serde_json::Value;

fn call(id: &str, name: &str, input: Value) -> ToolCall {
    ToolCall { id: id.to_string(), name: name.to_string(), input }
}

#[test]
fn test_message_creation() {
    let msg = Message::text(MessageRole::User, "Hello");
    assert_eq!(msg.role, MessageRole::User);
    assert_eq!(msg.content.len(), 1);
}

#[test]
fn text_message_holds_the_text_and_the_role() {
    let msg = Message::text(MessageRole::Assistant, "Hello");
    assert_eq!(msg.role, MessageRole::Assistant);
    assert_eq!(msg.content, vec![ContentBlock::Text("Hello".to_string())]);
    let system = Message::text(MessageRole::System, "");
    assert_eq!(system.role, MessageRole::System);
    assert_eq!(system.content, vec![ContentBlock::Text(String::new())]);
}

#[test]
fn with_tool_calls_puts_the_text_first_and_keeps_the_order() {
    let first = call("call-1", "search", Value::String("rust".to_string()));
    let second = call("call-2", "fetch", Value::Bool(true));
    let msg = Message::with_tool_calls(
        MessageRole::Assistant,
        "Looking it up",
        vec![first.clone(), second.clone()],
    );
    assert_eq!(msg.role, MessageRole::Assistant);
    assert_eq!(
        msg.content,
        vec![
            ContentBlock::Text("Looking it up".to_string()),
            ContentBlock::ToolCall(first),
            ContentBlock::ToolCall(second),
        ]
    );
}

#[test]
fn with_no_tool_calls_only_the_text_is_there() {
    let msg = Message::with_tool_calls(MessageRole::Assistant, "Nothing to do", Vec::new());
    assert_eq!(msg.content, vec![ContentBlock::Text("Nothing to do".to_string())]);
}

#[test]
fn tool_result_is_a_user_message_with_one_block() {
    let msg = Message::tool_result("call-1", "42");
    assert_eq!(msg.role, MessageRole::User);
    assert_eq!(
        msg.content,
        vec![ContentBlock::ToolResult {
            tool_call_id: "call-1".to_string(),
            result: "42".to_string(),
        }]
    );
}

#[test]
fn tool_calls_are_read_off_the_content_in_order() {
    let first = call("a", "search", Value::Null);
    let second = call("b", "fetch", Value::String("https://example.org".to_string()));
    let msg = Message {
        role: MessageRole::Assistant,
        content: vec![
            ContentBlock::ToolCall(first.clone()),
            ContentBlock::Text("between".to_string()),
            ContentBlock::ToolResult { tool_call_id: "x".to_string(), result: "y".to_string() },
            ContentBlock::ToolCall(second.clone()),
        ],
    };
    assert_eq!(msg.tool_calls(), vec![first, second]);
    assert_eq!(Message::text(MessageRole::User, "hi").tool_calls(), Vec::<ToolCall>::new());
}

#[test]
fn duplicate_copies_every_field_of_a_tool_call() {
    let mut object = serde_json::Map::new();
    object.insert("query".to_string(), Value::String("verus".to_string()));
    object.insert("limit".to_string(), Value::from(3u64));
    let source = call("call-9", "search", Value::Object(object));
    let copy = source.duplicate();
    assert_eq!(copy, source);
    assert_eq!(copy.id, "call-9");
    assert_eq!(copy.name, "search");
    assert_eq!(copy.input["query"], Value::String("verus".to_string()));
    assert_eq!(copy.input["limit"], Value::from(3u64));
}
