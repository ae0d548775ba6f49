use openai_interface::errors::OapiError;

#[test]
fn messages_name_the_error_and_what_it_carries() {
    assert_eq!(OapiError::ResponseStatus(429).message(), "Invalid response status: 429");
    assert_eq!(OapiError::ResponseCode(0).message(), "Invalid response code: 0");
    assert_eq!(OapiError::SendError("timeout".to_string()).message(), "Failed to send request: timeout");
    assert_eq!(
        OapiError::DeserializationError("EOF while parsing".to_string()).message(),
        "Deserialization error: EOF while parsing"
    );
    assert_eq!(
        OapiError::StreamingViolation.message(),
        "You cannot post a non-streaming request in a streaming context"
    );
    assert_eq!(
        OapiError::NonStreamingViolation.message(),
        "You cannot post a streaming request in a non-streaming context"
    );
    assert_eq!(OapiError::StreamError("gone".to_string()).message(), "gone");
    assert_eq!(OapiError::FileNotFoundError("a.txt".to_string()).message(), "File not found at: a.txt");
    assert_eq!(OapiError::NotImplemented.message(), "Not implemented");
}
