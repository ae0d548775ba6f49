use openai_interface::chat::no_streaming::ChatCompletion;
use openai_interface::chat::streaming::ChatCompletionChunk;

#[test]
fn completion_logprobs_are_read() {
    let json = r#"{"id":"c","object":"chat.completion","created":1,"model":"m","choices":[
        {"index":0,"message":{"role":"assistant","content":"Hi"},"finish_reason":"stop",
         "logprobs":{"content":[{"token":"Hi","logprob":-0.25,"bytes":[72,105],
            "top_logprobs":[{"token":"Hi","logprob":-0.25,"bytes":[72,105]},{"token":"Hello","logprob":-9999.0,"bytes":null}]}],
          "refusal":null}}]}"#;
    let c = ChatCompletion::parse_string(json).unwrap();
    let logprobs = c.choices[0].logprobs.as_ref().unwrap();
    let tokens = logprobs.content.as_ref().unwrap();
    assert_eq!(tokens.len(), 1);
    assert_eq!(tokens[0].token, "Hi");
    assert_eq!(tokens[0].logprob, "-0.25");
    assert_eq!(tokens[0].bytes, Some(vec![72, 105]));
    assert_eq!(tokens[0].top_logprobs.len(), 2);
    assert_eq!(tokens[0].top_logprobs[1].token, "Hello");
    assert_eq!(tokens[0].top_logprobs[1].bytes, None);
    assert_eq!(logprobs.refusal, None);
    assert_eq!(logprobs.reasoning_content, None);
}

#[test]
fn logprob_byte_out_of_range_is_refused() {
    let json = r#"{"id":"a","choices":[{"index":0,"delta":{"content":"x"},"logprobs":{"content":[
        {"token":"x","logprob":-1,"bytes":[256],"top_logprobs":[]}]}}],"created":1,"model":"m","object":"chat.completion.chunk"}"#;
    assert!(ChatCompletionChunk::parse_string(json).is_err());
}

#[test]
fn chunk_logprobs_are_read() {
    let json = r#"{"id":"a","choices":[{"index":0,"delta":{"content":"x"},"logprobs":{"content":[
        {"token":"x","logprob":-1,"bytes":[120],"top_logprobs":[]}]}}],"created":1,"model":"m","object":"chat.completion.chunk"}"#;
    let chunk = ChatCompletionChunk::parse_string(json).unwrap();
    let tokens = chunk.choices[0].logprobs.as_ref().unwrap().content.as_ref().unwrap();
    assert_eq!(tokens[0].logprob, "-1");
    assert_eq!(tokens[0].bytes, Some(vec![120]));
}
