use llm_backend::request::{DEFAULT_MAX_TOKENS, DEFAULT_TEMPERATURE_BITS, DEFAULT_TOP_P_BITS};
use llm_backend::{
    BackendError, BackendStatus, ChatRequest, ChatResponse, ContentBlock, InferenceConfig,
    Message, MessageRole, RetryAction, RetryConfig, RetryEvent, RetryState, StatusCallback,
    StatusSink, Tool, ToolCall, Usage,
};
use serde_json::Value;
use std::sync::{Arc, Mutex};
use uuid::Uuid;

fn request(model: Option<&str>) -> ChatRequest {
    ChatRequest {
        messages: vec![Message::text(MessageRole::User, "Hello")],
        model: model.map(|m| m.to_string()),
        tools: None,
        inference_config: None,
        session_id: None,
        status_callback: None,
    }
}

fn models() -> Vec<String> {
    vec!["small".to_string(), "large".to_string()]
}

struct Recorder {
    seen: Mutex<Vec<BackendStatus>>,
}

impl StatusSink for Recorder {
    fn notify(&self, status: BackendStatus) {
        self.seen.lock().unwrap().push(status);
    }
}

#[test]
fn default_inference_config() {
    let config = InferenceConfig::default();
    assert_eq!(config.temperature.map(f32::from_bits), Some(0.7));
    assert_eq!(config.top_p.map(f32::from_bits), Some(0.9));
    assert_eq!(config.max_tokens, Some(4096));
}

#[test]
fn default_bit_patterns_stand_for_the_default_numbers() {
    assert_eq!(DEFAULT_TEMPERATURE_BITS, 0.7f32.to_bits());
    assert_eq!(DEFAULT_TOP_P_BITS, 0.9f32.to_bits());
    assert_eq!(DEFAULT_MAX_TOKENS, 4096);
}

#[test]
fn a_request_without_a_model_gets_the_default() {
    assert_eq!(request(None).resolve_model(&models(), "small"), Ok("small".to_string()));
    assert_eq!(request(None).resolve_model(&Vec::new(), "other"), Ok("other".to_string()));
}

#[test]
fn a_supported_model_is_taken() {
    assert_eq!(request(Some("large")).resolve_model(&models(), "small"), Ok("large".to_string()));
    assert_eq!(request(Some("small")).resolve_model(&models(), "small"), Ok("small".to_string()));
}

#[test]
fn an_unsupported_model_is_refused_before_any_attempt() {
    let outcome = request(Some("nonexistent")).resolve_model(&models(), "small");
    assert_eq!(outcome, Err(BackendError::UnsupportedModel { model: "nonexistent".to_string() }));
    let error = outcome.unwrap_err();
    assert_eq!(error.to_string(), "Model not supported: nonexistent");
    assert!(!error.is_retryable());
    let config = RetryConfig { verbose: true, ..RetryConfig::default() };
    assert_eq!(
        config.step(RetryState::start(), RetryEvent::Failure { error: error.clone() }),
        Some((RetryState::Failed { retries: 0 }, RetryAction::Propagate { error }))
    );
}

#[test]
fn model_names_are_matched_exactly() {
    let refused = |name: &str| {
        Err(BackendError::UnsupportedModel { model: name.to_string() })
    };
    assert_eq!(request(Some("Large")).resolve_model(&models(), "small"), refused("Large"));
    assert_eq!(request(Some("larg")).resolve_model(&models(), "small"), refused("larg"));
    assert_eq!(request(Some("")).resolve_model(&models(), "small"), refused(""));
    assert_eq!(request(Some("large")).resolve_model(&Vec::new(), "large"), refused("large"));
}

#[test]
fn a_response_echoes_the_session_and_sets_the_tool_calls_apart() {
    let session = Uuid::from_u128(0x1234_5678_9abc_def0_1234_5678_9abc_def0);
    let mut asked = request(Some("large"));
    asked.session_id = Some(session);
    let call = ToolCall {
        id: "call-1".to_string(),
        name: "search".to_string(),
        input: Value::String("rust".to_string()),
    };
    let reply = Message::with_tool_calls(MessageRole::Assistant, "On it", vec![call.clone()]);
    let usage = Usage { input_tokens: 10, output_tokens: 5, total_tokens: 15 };
    let response =
        ChatResponse::for_request(&asked, reply.clone(), "large".to_string(), Some(usage));
    assert_eq!(response.session_id, Some(session));
    assert_eq!(response.message, reply);
    assert_eq!(response.tool_calls, vec![call.clone()]);
    assert_eq!(response.usage, Some(usage));
    assert_eq!(response.model, "large");
    assert_eq!(
        response.message.content,
        vec![ContentBlock::Text("On it".to_string()), ContentBlock::ToolCall(call)]
    );
}

#[test]
fn a_response_to_a_request_without_session_has_none() {
    let reply = Message::text(MessageRole::Assistant, "Hi");
    let response = ChatResponse::for_request(&request(None), reply, "small".to_string(), None);
    assert_eq!(response.session_id, None);
    assert_eq!(response.usage, None);
    assert!(response.tool_calls.is_empty());
}

#[test]
fn a_request_carries_tools_and_a_status_sink() {
    let recorder = Arc::new(Recorder { seen: Mutex::new(Vec::new()) });
    let sink: StatusCallback = recorder.clone();
    let mut asked = request(None);
    asked.tools = Some(vec![Tool {
        name: "search".to_string(),
        description: "Searches the web".to_string(),
        input_schema: Value::Object(serde_json::Map::new()),
    }]);
    asked.inference_config = Some(InferenceConfig::default());
    asked.status_callback = Some(sink);
    let copy = asked.clone();
    let status = BackendStatus::NonRetryableError { message: "no".to_string() };
    copy.status_callback.as_ref().unwrap().notify(status.clone());
    assert_eq!(*recorder.seen.lock().unwrap(), vec![status]);
    assert_eq!(copy.tools, asked.tools);
    assert_eq!(copy.inference_config, Some(InferenceConfig::default()));
}

fn tool(name: &str) -> Tool {
    Tool {
        name: name.to_string(),
        description: format!("The {} tool", name),
        input_schema: Value::Null,
    }
}

#[test]
fn tools_are_told_apart_by_their_names() {
    let mut asked = request(None);
    assert!(asked.has_distinct_tool_names());
    asked.tools = Some(Vec::new());
    assert!(asked.has_distinct_tool_names());
    asked.tools = Some(vec![tool("search")]);
    assert!(asked.has_distinct_tool_names());
    asked.tools = Some(vec![tool("search"), tool("fetch"), tool("Search")]);
    assert!(asked.has_distinct_tool_names());
    asked.tools = Some(vec![tool("search"), tool("fetch"), tool("search")]);
    assert!(!asked.has_distinct_tool_names());
    asked.tools = Some(vec![tool("fetch"), tool("fetch")]);
    assert!(!asked.has_distinct_tool_names());
    asked.tools = Some(vec![tool("a"), tool("b"), tool("c"), tool("d"), tool("c")]);
    assert!(!asked.has_distinct_tool_names());
}

#[test]
fn tool_calls_are_told_apart_by_their_identifiers() {
    let call = |id: &str| ToolCall {
        id: id.to_string(),
        name: "search".to_string(),
        input: Value::Null,
    };
    let respond = |calls: Vec<ToolCall>| {
        let reply = Message::with_tool_calls(MessageRole::Assistant, "", calls);
        ChatResponse::for_request(&request(None), reply, "small".to_string(), None)
    };
    assert!(respond(Vec::new()).has_distinct_tool_call_ids());
    assert!(respond(vec![call("1")]).has_distinct_tool_call_ids());
    assert!(respond(vec![call("1"), call("2"), call("3")]).has_distinct_tool_call_ids());
    assert!(!respond(vec![call("1"), call("2"), call("1")]).has_distinct_tool_call_ids());
    assert!(!respond(vec![call("2"), call("2")]).has_distinct_tool_call_ids());
}
