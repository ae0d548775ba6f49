use openai_interface::chat::no_streaming::{ChatCompletion, ChatCompletionMessageToolCall, ResponseRole};
use openai_interface::chat::request::{
    AssistantToolCall, ExtraBody, Message, RequestBody, RequestTool, StopKeywords, StreamOptions,
    ToolCallFunction, ToolChoice, ToolChoiceFunction, ToolChoiceSpecific, ToolCustom,
    ToolCustomFormat, ToolFunction,
};
use openai_interface::chat::response::{FinishReason, ServiceTier};
use openai_interface::files::request::{CreateFileRequest, ExpiresAfter, FilePurpose};
use openai_interface::files::response::{FileObject, FileStatus};
use openai_interface::json::{i64_text, parse_u64, same_text, u64_text, IntoJson, JsonMember, JsonValue};
use openai_interface::rest::post::Post;

fn keys(v: &JsonValue) -> Vec<String> {
    match v {
        JsonValue::Object(ms) => ms.iter().map(|m| m.key.clone()).collect(),
        other => panic!("not an object: {:?}", other),
    }
}

fn member<'a>(v: &'a JsonValue, key: &str) -> &'a JsonValue {
    v.get(key).unwrap_or_else(|| panic!("no member {}", key))
}

fn text(v: &JsonValue) -> &str {
    match v {
        JsonValue::Str(s) => s,
        other => panic!("not a string: {:?}", other),
    }
}

#[test]
fn minimal_request_has_the_documented_names() {
    let request = RequestBody {
        messages: vec![
            Message::System { content: "Reply briefly".to_string(), name: None },
            Message::User { content: "What's your name?".to_string(), name: None },
        ],
        model: "x".to_string(),
        stream: true,
        ..Default::default()
    };
    assert!(request.is_streaming());
    let v = request.into_json();
    assert_eq!(keys(&v), vec!["messages", "model", "stream"]);
    assert_eq!(text(member(&v, "model")), "x");
    assert!(matches!(member(&v, "stream"), JsonValue::Bool(true)));
    match member(&v, "messages") {
        JsonValue::Array(items) => {
            assert_eq!(items.len(), 2);
            assert_eq!(keys(&items[0]), vec!["role", "content"]);
            assert_eq!(text(member(&items[0], "role")), "system");
            assert_eq!(text(member(&items[1], "role")), "user");
            assert_eq!(text(member(&items[1], "content")), "What's your name?");
        }
        other => panic!("messages: {:?}", other),
    }
}

#[test]
fn full_request_names_every_field() {
    let request = RequestBody {
        messages: vec![],
        model: "qwen-plus".to_string(),
        stream: true,
        frequency_penalty: Some("0.5".to_string()),
        max_tokens: Some(500),
        seed: Some(-42),
        n: Some(1),
        stop: Some(StopKeywords::Words(vec!["END".to_string(), "STOP".to_string()])),
        stream_options: Some(StreamOptions { include_usage: true }),
        temperature: Some("0.7".to_string()),
        tool_choice: Some(ToolChoice::Auto),
        logprobs: Some(false),
        extra_body: Some(ExtraBody { enable_thinking: Some(true), thinking_budget: None, top_k: Some(20) }),
        extra_body_map: Some(vec![JsonMember { key: "vendor_flag".to_string(), value: JsonValue::Bool(true) }]),
        ..Default::default()
    };
    let v = request.into_json();
    assert_eq!(
        keys(&v),
        vec![
            "messages", "model", "stream", "frequency_penalty", "max_tokens", "seed", "n", "stop",
            "stream_options", "temperature", "tool_choice", "logprobs", "enable_thinking", "top_k",
            "vendor_flag",
        ]
    );
    assert!(matches!(member(&v, "max_tokens"), JsonValue::Number(t) if t == "500"));
    assert!(matches!(member(&v, "seed"), JsonValue::Number(t) if t == "-42"));
    assert!(matches!(member(&v, "temperature"), JsonValue::Number(t) if t == "0.7"));
    assert!(matches!(member(&v, "top_k"), JsonValue::Number(t) if t == "20"));
    assert_eq!(text(member(&v, "tool_choice")), "auto");
    assert_eq!(keys(member(&v, "stream_options")), vec!["include_usage"]);
    match member(&v, "stop") {
        JsonValue::Array(items) => assert_eq!(items.iter().map(text).collect::<Vec<_>>(), vec!["END", "STOP"]),
        other => panic!("stop: {:?}", other),
    }
}

#[test]
fn assistant_message_sends_prefix_only_when_set() {
    let plain = Message::Assistant {
        content: None,
        refusal: None,
        name: None,
        prefix: false,
        reasoning_content: None,
        tool_calls: None,
    }
    .into_json();
    assert_eq!(keys(&plain), vec!["role", "content"]);
    assert!(matches!(member(&plain, "content"), JsonValue::Null));
    let prefixed = Message::Assistant {
        content: Some("```python\n".to_string()),
        refusal: None,
        name: None,
        prefix: true,
        reasoning_content: Some("think".to_string()),
        tool_calls: Some(vec![AssistantToolCall::Function {
            id: "call_1".to_string(),
            function: ToolCallFunction { arguments: "{}".to_string(), name: "now".to_string() },
        }]),
    }
    .into_json();
    assert_eq!(keys(&prefixed), vec!["role", "content", "prefix", "reasoning_content", "tool_calls"]);
    match member(&prefixed, "tool_calls") {
        JsonValue::Array(calls) => {
            assert_eq!(keys(&calls[0]), vec!["id", "type", "function"]);
            assert_eq!(text(member(&calls[0], "type")), "function");
            assert_eq!(keys(member(&calls[0], "function")), vec!["arguments", "name"]);
        }
        other => panic!("tool_calls: {:?}", other),
    }
}

#[test]
fn other_messages_carry_their_roles() {
    let tool = Message::Tool { content: "42".to_string(), tool_call_id: "call_1".to_string() }.into_json();
    assert_eq!(keys(&tool), vec!["role", "content", "tool_call_id"]);
    assert_eq!(text(member(&tool, "role")), "tool");
    let function = Message::Function { content: "ok".to_string(), name: "f".to_string() }.into_json();
    assert_eq!(text(member(&function, "role")), "function");
    let developer = Message::Developer { content: "rules".to_string(), name: Some("dev".to_string()) }.into_json();
    assert_eq!(keys(&developer), vec!["role", "content", "name"]);
    assert_eq!(text(member(&developer, "role")), "developer");
}

#[test]
fn tools_and_tool_choice_are_tagged_by_type() {
    let tools = vec![
        RequestTool::Function {
            function: ToolFunction {
                name: "get_time".to_string(),
                description: "now".to_string(),
                parameters: JsonValue::Object(vec![]),
                strict: Some(true),
            },
        },
        RequestTool::Custom {
            custom: ToolCustom {
                name: "sql".to_string(),
                description: "runs sql".to_string(),
                format: ToolCustomFormat::CustomFormatText,
            },
        },
    ];
    let request = RequestBody {
        model: "m".to_string(),
        tools: Some(tools),
        tool_choice: Some(ToolChoice::Specific(ToolChoiceSpecific::Function {
            function: ToolChoiceFunction { name: "get_time".to_string() },
        })),
        ..Default::default()
    };
    let v = request.into_json();
    match member(&v, "tools") {
        JsonValue::Array(items) => {
            assert_eq!(text(member(&items[0], "type")), "function");
            assert_eq!(keys(member(&items[0], "function")), vec!["name", "description", "parameters", "strict"]);
            assert_eq!(text(member(&items[1], "type")), "custom");
            assert_eq!(text(member(member(member(&items[1], "custom"), "format"), "type")), "text");
        }
        other => panic!("tools: {:?}", other),
    }
    let choice = member(&v, "tool_choice");
    assert_eq!(text(member(choice, "type")), "function");
    assert_eq!(text(member(member(choice, "function"), "name")), "get_time");
    assert_eq!(text(&ToolChoice::NoTool.into_json()), "none");
    assert_eq!(text(&ToolChoice::Required.into_json()), "required");
    assert_eq!(text(&StopKeywords::Word("END".to_string()).into_json()), "END");
}

#[test]
fn completion_fields_are_read() {
    let json = r#"{"id":"c","object":"chat.completion","created":1757944111,"model":"deepseek-chat","service_tier":"default",
        "choices":[{"index":0,"message":{"role":"assistant","content":null,"tool_calls":[
            {"id":"t1","type":"function","function":{"name":"now","arguments":"{}"}}]},"finish_reason":"tool_calls"}],
        "usage":{"prompt_tokens":10,"completion_tokens":11,"total_tokens":21,"prompt_cache_hit_tokens":0,"prompt_cache_miss_tokens":10,
            "completion_tokens_details":{"reasoning_tokens":3}}}"#;
    let c = ChatCompletion::parse_string(json).unwrap();
    assert_eq!(c.created, 1757944111);
    assert_eq!(c.service_tier, Some(ServiceTier::Default));
    assert_eq!(c.choices[0].finish_reason, FinishReason::ToolCalls);
    assert_eq!(c.choices[0].message.role, ResponseRole::Assistant);
    assert_eq!(c.choices[0].message.content, None);
    match &c.choices[0].message.tool_calls.as_ref().unwrap()[0] {
        ChatCompletionMessageToolCall::Function { id, function } => {
            assert_eq!(id, "t1");
            assert_eq!(function.name, "now");
            assert_eq!(function.arguments, "{}");
        }
        other => panic!("call: {:?}", other),
    }
    let usage = c.usage.unwrap();
    assert_eq!((usage.prompt_tokens, usage.completion_tokens, usage.total_tokens), (10, 11, 21));
    assert_eq!(usage.prompt_cache_miss_tokens, Some(10));
    assert_eq!(usage.completion_tokens_details.unwrap().reasoning_tokens, Some(3));
}

#[test]
fn completion_with_wrong_object_or_role_is_refused() {
    let wrong_object = r#"{"id":"c","object":"chat.completion.chunk","created":1,"model":"m","choices":[]}"#;
    assert!(ChatCompletion::parse_string(wrong_object).is_err());
    let wrong_role = r#"{"id":"c","object":"chat.completion","created":1,"model":"m","choices":[
        {"index":0,"message":{"role":"user","content":"x"},"finish_reason":"stop"}]}"#;
    assert!(ChatCompletion::parse_string(wrong_role).is_err());
    let no_finish = r#"{"id":"c","object":"chat.completion","created":1,"model":"m","choices":[
        {"index":0,"message":{"role":"assistant","content":"x"}}]}"#;
    assert!(ChatCompletion::parse_string(no_finish).is_err());
}

#[test]
fn file_request_fields() {
    let request = CreateFileRequest {
        file: "src/files/create/file-test.txt".to_string(),
        purpose: FilePurpose::Other("file-extract".to_string()),
        ..Default::default()
    };
    assert!(!request.is_streaming());
    assert_eq!(request.purpose_text(), "file-extract");
    assert!(request.expires_after_json().is_none());
    let batch = CreateFileRequest {
        expires_after: Some(ExpiresAfter::CreatedAt { seconds: 3600 }),
        ..Default::default()
    };
    assert_eq!(batch.purpose_text(), "batch");
    assert_eq!(FilePurpose::FineTune.as_text(), "fine-tune");
    let e = batch.expires_after_json().unwrap();
    assert_eq!(keys(&e), vec!["anchor", "seconds"]);
    assert_eq!(text(member(&e, "anchor")), "created_at");
    assert!(matches!(member(&e, "seconds"), JsonValue::Number(t) if t == "3600"));
}

#[test]
fn file_object_is_read() {
    let json = r#"{"id":"file-1","bytes":120,"created_at":1700000000,"filename":"a.jsonl","object":"file","purpose":"batch","status":"processed"}"#;
    let f = FileObject::parse_string(json).unwrap();
    assert_eq!(f.id, "file-1");
    assert_eq!(f.bytes, 120);
    assert_eq!(f.status, Some(FileStatus::Processed));
    assert_eq!(f.expires_at, None);
    assert!(FileObject::from_response(404, json).is_err());
    assert!(FileObject::parse_string(r#"{"id":"x"}"#).is_err());
}

#[test]
fn integer_texts() {
    assert_eq!(u64_text(0), "0");
    assert_eq!(u64_text(1234567890), "1234567890");
    assert_eq!(u64_text(u64::MAX), "18446744073709551615");
    assert_eq!(i64_text(-7), "-7");
    assert_eq!(i64_text(i64::MIN), "-9223372036854775808");
    assert_eq!(parse_u64("18446744073709551615"), Some(u64::MAX));
    assert_eq!(parse_u64("18446744073709551616"), None);
    assert_eq!(parse_u64("007"), Some(7));
    assert_eq!(parse_u64(""), None);
    assert_eq!(parse_u64("1.5"), None);
    assert!(same_text("abc", "abc"));
    assert!(!same_text("abc", "abd"));
}
