//! What is decided before a request goes out and when its status comes back.
use crate::errors::OapiError;
use vstd::prelude::*;

verus! {

/// A request that can be posted: it says which response path it is meant for,
/// and whether its fields can be sent as they are.
pub trait Post {
    spec fn spec_is_streaming(&self) -> bool;

    /// Whether every field holds a value that can be sent.
    spec fn spec_fields_valid(&self) -> bool;

    fn is_streaming(&self) -> (r: bool)
        ensures
            r == self.spec_is_streaming();

    /// Checks the fields; the error names the first field that cannot be sent.
    fn check_fields(&self) -> (r: Result<(), OapiError>)
        ensures
            r is Ok <==> self.spec_fields_valid(),
            r is Err ==> r->Err_0 is InvalidRequest;
}

/// The error for a request posted on the wrong path, if it is.
pub open spec fn mode_error(request_streams: bool, streaming_path: bool) -> Option<OapiError> {
    if request_streams == streaming_path {
        None
    } else if streaming_path {
        Some(OapiError::StreamingViolation)
    } else {
        Some(OapiError::NonStreamingViolation)
    }
}

/// Checks a request against the path it is posted on. This is the first step
/// of both paths, made before any network access.
pub fn check_mode<T: Post>(request: &T, streaming_path: bool) -> (r: Result<(), OapiError>)
    ensures
        r is Ok <==> mode_error(request.spec_is_streaming(), streaming_path) is None,
        r is Err ==> mode_error(request.spec_is_streaming(), streaming_path) == Some(r->Err_0),
{
    let streams = request.is_streaming();
    if streams == streaming_path {
        Ok(())
    } else if streaming_path {
        Err(OapiError::StreamingViolation)
    } else {
        Err(OapiError::NonStreamingViolation)
    }
}

/// Whether a status lets the response be read: 200 on the single-response
/// path, any 2xx on the streaming path.
pub open spec fn status_accepted(status: u16, streaming_path: bool) -> bool {
    if streaming_path {
        200 <= status <= 299
    } else {
        status == 200
    }
}

/// Checks the status of a response; a rejected one is reported with its code
/// and nothing else.
pub fn check_status(status: u16, streaming_path: bool) -> (r: Result<(), OapiError>)
    ensures
        r is Ok <==> status_accepted(status, streaming_path),
        r is Err ==> r == Err::<(), OapiError>(OapiError::ResponseStatus(status)),
{
    let ok = if streaming_path {
        200 <= status && status <= 299
    } else {
        status == 200
    };
    if ok {
        Ok(())
    } else {
        Err(OapiError::ResponseStatus(status))
    }
}

/// One header of an outgoing request.
#[derive(Debug, Clone, PartialEq, Eq)]
pub struct Header {
    pub name: String,
    pub value: String,
}

/// The headers of a JSON request: content type, the media type accepted on
/// the path, and bearer authorization.
pub open spec fn spec_headers_fit(headers: Seq<Header>, key: Seq<char>, streaming_path: bool) -> bool {
    &&& headers.len() == 3
    &&& headers[0].name@ == "Content-Type"@
    &&& headers[0].value@ == "application/json"@
    &&& headers[1].name@ == "Accept"@
    &&& headers[1].value@ == (if streaming_path {
        "text/event-stream"@
    } else {
        "application/json"@
    })
    &&& headers[2].name@ == "Authorization"@
    &&& headers[2].value@ == "Bearer "@ + key
}

/// Prepares a JSON request for a path: the mode check first, then the check
/// of the fields, and only when both pass, the headers to send.
pub fn prepare_post<T: Post>(request: &T, key: &str, streaming_path: bool) -> (r: Result<Vec<Header>, OapiError>)
    ensures
        r is Ok <==> mode_error(request.spec_is_streaming(), streaming_path) is None
            && request.spec_fields_valid(),
        mode_error(request.spec_is_streaming(), streaming_path) is Some ==> r
            == Err::<Vec<Header>, OapiError>(mode_error(request.spec_is_streaming(), streaming_path)->0),
        mode_error(request.spec_is_streaming(), streaming_path) is None && !request.spec_fields_valid()
            ==> r is Err && r->Err_0 is InvalidRequest,
        r is Ok ==> spec_headers_fit(r->Ok_0@, key@, streaming_path),
{
    match check_mode(request, streaming_path) {
        Ok(()) => {},
        Err(e) => return Err(e),
    }
    match request.check_fields() {
        Ok(()) => {},
        Err(e) => return Err(e),
    }
    let accept = if streaming_path {
        String::from_str("text/event-stream")
    } else {
        String::from_str("application/json")
    };
    let mut headers: Vec<Header> = Vec::new();
    headers.push(
        Header { name: String::from_str("Content-Type"), value: String::from_str("application/json") },
    );
    headers.push(Header { name: String::from_str("Accept"), value: accept });
    headers.push(
        Header { name: String::from_str("Authorization"), value: String::from_str("Bearer ").concat(key) },
    );
    Ok(headers)
}

} // verus!
