use openai_interface::chat::no_streaming::ChatCompletion;
use openai_interface::chat::request::{Message, RequestBody};
use openai_interface::chat::response::FinishReason;
use openai_interface::chat::streaming::{concat_content, ChatCompletionChunk, CompletionContent, CompletionRole};
use openai_interface::errors::OapiError;
use openai_interface::rest::post::{check_status, prepare_post, Header};
use openai_interface::rest::stream::{collect_chunks, open_stream, ChunkErrorPolicy, ChunkStream, StreamState};

fn chunk_event(index: u32, content: &str, finish: Option<&str>) -> Result<String, OapiError> {
    let finish = match finish {
        Some(f) => format!("\"{}\"", f),
        None => "null".to_string(),
    };
    Ok(format!(
        "{{\"id\":\"c1\",\"choices\":[{{\"index\":{},\"delta\":{{\"content\":\"{}\",\"role\":\"assistant\"}},\"finish_reason\":{}}}],\"created\":1718345013,\"model\":\"x\",\"object\":\"chat.completion.chunk\"}}",
        index, content, finish
    ))
}

fn done_event() -> Result<String, OapiError> {
    Ok("[DONE]".to_string())
}

fn content_of(chunk: &ChatCompletionChunk) -> String {
    match &chunk.choices[0].delta.content {
        Some(CompletionContent::Content(s)) => s.clone(),
        Some(CompletionContent::ReasoningContent(s)) => s.clone(),
        None => String::new(),
    }
}

fn streaming_request(stream: bool) -> RequestBody {
    RequestBody {
        messages: vec![
            Message::System { content: "Reply briefly".to_string(), name: None },
            Message::User { content: "What's your name?".to_string(), name: None },
        ],
        model: "x".to_string(),
        stream,
        ..Default::default()
    }
}

#[test]
fn sentinel_ends_the_sequence_after_n_items() {
    let mut events = Vec::new();
    for i in 0..5u32 {
        events.push(chunk_event(i, "a", None));
    }
    events.push(done_event());
    events.push(chunk_event(99, "late", None));
    let items = collect_chunks(events, ChunkErrorPolicy::Continue);
    assert_eq!(items.len(), 5);
    assert!(items.iter().all(|i| i.is_ok()));
}

#[test]
fn reasoning_is_left_out_of_the_joined_content() {
    let reasoning = r#"{"id":"a","choices":[{"index":0,"delta":{"reasoning_content":"hmm"}}],"created":1,"model":"m","object":"o"}"#;
    let usage_only = r#"{"id":"a","choices":[],"created":1,"model":"m","object":"o","usage":{"completion_tokens":1,"prompt_tokens":2,"total_tokens":3}}"#;
    let chunks = vec![
        ChatCompletionChunk::parse_string(reasoning).unwrap(),
        ChatCompletionChunk::parse_string(chunk_event(0, "ok", None).unwrap().as_str()).unwrap(),
        ChatCompletionChunk::parse_string(usage_only).unwrap(),
    ];
    assert_eq!(concat_content(&chunks), "ok");
    assert_eq!(chunks[2].usage.unwrap().total_tokens, 3);
}

#[test]
fn sentinel_alone_yields_nothing() {
    let items = collect_chunks(vec![done_event()], ChunkErrorPolicy::Continue);
    assert!(items.is_empty());
}

#[test]
fn empty_stream_yields_nothing() {
    let items = collect_chunks(Vec::new(), ChunkErrorPolicy::Stop);
    assert!(items.is_empty());
}

#[test]
fn chunk_without_vendor_fields_decodes() {
    let text = r#"{"id":"a","choices":[{"index":0,"delta":{"content":"hi"}}],"created":1,"model":"m","object":"chat.completion.chunk"}"#;
    let chunk = ChatCompletionChunk::parse_string(text).unwrap();
    assert_eq!(chunk.system_fingerprint, None);
    assert_eq!(chunk.usage, None);
    assert_eq!(chunk.choices[0].finish_reason, None);
    assert_eq!(chunk.choices[0].delta.role, None);
    assert_eq!(chunk.choices[0].delta.content, Some(CompletionContent::Content("hi".to_string())));
}

#[test]
fn reasoning_delta_decodes_as_reasoning() {
    let text = r#"{"id":"a","choices":[{"index":0,"delta":{"content":null,"reasoning_content":"think","role":"assistant"},"finish_reason":null}],"created":1,"model":"m","object":"chat.completion.chunk"}"#;
    let chunk = ChatCompletionChunk::parse_string(text).unwrap();
    assert_eq!(chunk.choices[0].delta.content, Some(CompletionContent::ReasoningContent("think".to_string())));
    assert_eq!(chunk.choices[0].delta.role, Some(CompletionRole::Assistant));
}

#[test]
fn chunk_with_wrong_types_is_a_deserialization_error() {
    let missing_id = r#"{"choices":[],"created":1,"model":"m","object":"o"}"#;
    assert!(matches!(ChatCompletionChunk::parse_string(missing_id), Err(OapiError::DeserializationError(_))));
    let bad_created = r#"{"id":"a","choices":[],"created":-1,"model":"m","object":"o"}"#;
    assert!(matches!(ChatCompletionChunk::parse_string(bad_created), Err(OapiError::DeserializationError(_))));
    let bad_reason = r#"{"id":"a","choices":[{"index":0,"delta":{},"finish_reason":"tired"}],"created":1,"model":"m","object":"o"}"#;
    assert!(matches!(ChatCompletionChunk::parse_string(bad_reason), Err(OapiError::DeserializationError(_))));
}

#[test]
fn text_that_is_not_json_keeps_the_parser_message() {
    match ChatCompletionChunk::parse_string("{not json") {
        Err(OapiError::DeserializationError(m)) => assert!(!m.is_empty() && m != "{not json"),
        other => panic!("unexpected {:?}", other),
    }
}

#[test]
fn malformed_event_between_chunks_continue() {
    let events = vec![chunk_event(0, "a", None), Ok("{oops".to_string()), chunk_event(1, "b", None), done_event()];
    let items = collect_chunks(events, ChunkErrorPolicy::Continue);
    assert_eq!(items.len(), 3);
    assert!(items[0].is_ok());
    assert!(matches!(items[1], Err(OapiError::DeserializationError(_))));
    assert_eq!(content_of(items[2].as_ref().unwrap()), "b");
}

#[test]
fn malformed_event_between_chunks_stop() {
    let events = vec![chunk_event(0, "a", None), Ok("{oops".to_string()), chunk_event(1, "b", None), done_event()];
    let items = collect_chunks(events, ChunkErrorPolicy::Stop);
    assert_eq!(items.len(), 2);
    assert!(items[0].is_ok());
    assert!(matches!(items[1], Err(OapiError::DeserializationError(_))));
}

#[test]
fn byte_stream_failure_is_yielded_once_and_ends() {
    let events = vec![
        chunk_event(0, "a", None),
        Err(OapiError::SseParseError("broken".to_string())),
        chunk_event(1, "b", None),
    ];
    let items = collect_chunks(events, ChunkErrorPolicy::Continue);
    assert_eq!(items.len(), 2);
    assert!(matches!(&items[1], Err(OapiError::SseParseError(m)) if m == "broken"));
}

#[test]
fn chunks_come_out_in_wire_order() {
    let events: Vec<_> = (0..8u32).map(|i| chunk_event(i, &i.to_string(), None)).collect();
    let items = collect_chunks(events, ChunkErrorPolicy::Continue);
    let indices: Vec<u32> = items.iter().map(|c| c.as_ref().unwrap().choices[0].index).collect();
    assert_eq!(indices, (0..8u32).collect::<Vec<_>>());
}

#[test]
fn next_item_steps_through_the_states() {
    let mut stream = ChunkStream::new(ChunkErrorPolicy::Continue);
    assert_eq!(stream.state(), StreamState::Streaming);
    assert!(stream.next_item(Some(chunk_event(0, "a", None))).unwrap().is_ok());
    assert!(!stream.is_finished());
    assert!(stream.next_item(Some(done_event())).is_none());
    assert_eq!(stream.state(), StreamState::Done);
    assert!(stream.next_item(Some(chunk_event(1, "b", None))).is_none());
    let mut ended = ChunkStream::new(ChunkErrorPolicy::Stop);
    assert!(ended.next_item(None).is_none());
    assert_eq!(ended.state(), StreamState::Done);
    let mut failing = ChunkStream::new(ChunkErrorPolicy::Stop);
    assert!(failing.next_item(Some(Ok("[]".to_string()))).unwrap().is_err());
    assert_eq!(failing.state(), StreamState::Failed);
}

#[test]
fn end_to_end_reply_is_the_concatenation() {
    let words = ["My", " name", " is", " X", ",", " a", " helpful", " assistant", " here", "."];
    let request = streaming_request(true);
    let mut transport_calls = 0;
    let headers = prepare_post(&request, "key", true).unwrap();
    transport_calls += 1;
    let mut stream = open_stream(200, ChunkErrorPolicy::Continue).unwrap();
    let mut wire: Vec<Result<String, OapiError>> = words.iter().enumerate().map(|(_, w)| chunk_event(0, w, None)).collect();
    wire.push(chunk_event(0, "", Some("stop")));
    wire.push(done_event());
    let mut reply = String::new();
    let mut chunks: Vec<ChatCompletionChunk> = Vec::new();
    let mut wire = wire.into_iter();
    while !stream.is_finished() {
        if let Some(item) = stream.next_item(wire.next()) {
            let chunk = item.unwrap();
            reply.push_str(&content_of(&chunk));
            chunks.push(chunk);
        }
    }
    assert_eq!(transport_calls, 1);
    assert_eq!(headers[1], Header { name: "Accept".to_string(), value: "text/event-stream".to_string() });
    assert_eq!(chunks.len(), 11);
    assert_eq!(reply, words.concat());
    assert_eq!(concat_content(&chunks), "My name is X, a helpful assistant here.");
    assert_eq!(chunks.last().unwrap().choices[0].finish_reason, Some(FinishReason::Stop));
}

#[test]
fn streaming_path_refuses_a_non_streaming_request_before_sending() {
    let request = streaming_request(false);
    let mut transport_calls = 0;
    match prepare_post(&request, "key", true) {
        Ok(_) => transport_calls += 1,
        Err(e) => assert!(matches!(e, OapiError::StreamingViolation)),
    }
    assert_eq!(transport_calls, 0);
}

#[test]
fn single_path_refuses_a_streaming_request_before_sending() {
    let request = streaming_request(true);
    let mut transport_calls = 0;
    match prepare_post(&request, "key", false) {
        Ok(_) => transport_calls += 1,
        Err(e) => assert!(matches!(e, OapiError::NonStreamingViolation)),
    }
    assert_eq!(transport_calls, 0);
}

#[test]
fn headers_of_a_single_response_request() {
    let request = streaming_request(false);
    let headers = prepare_post(&request, "sk-1", false).unwrap();
    assert_eq!(
        headers,
        vec![
            Header { name: "Content-Type".to_string(), value: "application/json".to_string() },
            Header { name: "Accept".to_string(), value: "application/json".to_string() },
            Header { name: "Authorization".to_string(), value: "Bearer sk-1".to_string() },
        ]
    );
}

#[test]
fn status_429_is_reported_without_reading_the_body() {
    let body = r#"{"id":"a","object":"chat.completion","created":1,"model":"m","choices":[]}"#;
    assert!(matches!(ChatCompletion::from_response(429, body), Err(OapiError::ResponseStatus(429))));
    assert!(matches!(ChatCompletion::from_response(429, "not json"), Err(OapiError::ResponseStatus(429))));
    assert!(matches!(open_stream(429, ChunkErrorPolicy::Continue), Err(OapiError::ResponseStatus(429))));
    assert!(ChatCompletion::from_response(200, body).is_ok());
}

#[test]
fn status_rules_of_the_two_paths() {
    assert!(check_status(200, false).is_ok());
    assert!(matches!(check_status(201, false), Err(OapiError::ResponseStatus(201))));
    assert!(check_status(201, true).is_ok());
    assert!(check_status(299, true).is_ok());
    assert!(matches!(check_status(300, true), Err(OapiError::ResponseStatus(300))));
    assert!(matches!(check_status(199, true), Err(OapiError::ResponseStatus(199))));
}
