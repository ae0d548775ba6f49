//! The upload request. The file itself is read and sent as a multipart form
//! by the caller's transport; the library decides what the text fields say.
use crate::json::{
    has_member_with, is_number_of, is_text, keys_of, object_keys, push_member, text_value,
    u64_text, JsonMember, JsonValue,
};
use crate::errors::OapiError;
use crate::rest::post::Post;
use vstd::prelude::*;

verus! {

/// What an uploaded file is for.
#[derive(Debug, Clone, PartialEq, Eq)]
pub enum FilePurpose {
    Assistant,
    Batch,
    FineTune,
    Vision,
    UserData,
    Evals,
    /// A purpose of a vendor's own, sent as it is (Qwen's `file-extract`).
    Other(String),
}

impl FilePurpose {
    /// The text of the `purpose` form field.
    pub open spec fn spec_text(&self) -> Seq<char> {
        match self {
            FilePurpose::Assistant => "assistant"@,
            FilePurpose::Batch => "batch"@,
            FilePurpose::FineTune => "fine-tune"@,
            FilePurpose::Vision => "vision"@,
            FilePurpose::UserData => "user_data"@,
            FilePurpose::Evals => "evals"@,
            FilePurpose::Other(s) => s@,
        }
    }

    pub fn as_text(&self) -> (r: String)
        ensures
            r@ == self.spec_text(),
    {
        match self {
            FilePurpose::Assistant => String::from_str("assistant"),
            FilePurpose::Batch => String::from_str("batch"),
            FilePurpose::FineTune => String::from_str("fine-tune"),
            FilePurpose::Vision => String::from_str("vision"),
            FilePurpose::UserData => String::from_str("user_data"),
            FilePurpose::Evals => String::from_str("evals"),
            FilePurpose::Other(s) => s.clone(),
        }
    }
}

/// When an uploaded file expires.
#[derive(Debug, Clone, Copy, PartialEq, Eq, Structural)]
pub enum ExpiresAfter {
    /// So many seconds after its creation (between 3600 and 2592000).
    CreatedAt { seconds: usize },
}

impl ExpiresAfter {
    /// Whether `v` is the JSON form of the policy: its anchor and its seconds.
    pub open spec fn json_fits(self, v: JsonValue) -> bool {
        match self {
            ExpiresAfter::CreatedAt { seconds } => {
                &&& object_keys(v) == seq!["anchor"@, "seconds"@]
                &&& has_member_with(v, "anchor"@, |x: JsonValue| is_text(x, "created_at"@))
                &&& has_member_with(v, "seconds"@, |x: JsonValue| is_number_of(x, seconds as int))
            },
        }
    }

    /// The JSON form sent as the `expires_after` form field.
    pub fn to_json(&self) -> (r: JsonValue)
        ensures
            self.json_fits(r),
    {
        match self {
            ExpiresAfter::CreatedAt { seconds } => {
                let mut ms: Vec<JsonMember> = Vec::new();
                push_member(&mut ms, "anchor", text_value("created_at"));
                push_member(&mut ms, "seconds", JsonValue::Number(u64_text(*seconds as u64)));
                assert(keys_of(ms@) =~= seq!["anchor"@, "seconds"@]);
                assert(ms@[0].key@ == "anchor"@ && ms@[1].key@ == "seconds"@);
                JsonValue::Object(ms)
            },
        }
    }
}

/// A request to upload one file.
#[derive(Debug)]
pub struct CreateFileRequest {
    /// The path of the file to upload.
    pub file: String,
    pub purpose: FilePurpose,
    /// The default: batch files expire after 30 days, others are kept.
    pub expires_after: Option<ExpiresAfter>,
    /// Further vendor fields.
    pub extra_body: Option<Vec<JsonMember>>,
}

impl Default for CreateFileRequest {
    fn default() -> (r: CreateFileRequest)
        ensures
            r.file@.len() == 0,
            r.purpose == FilePurpose::Batch,
            r.expires_after is None,
            r.extra_body is None,
    {
        CreateFileRequest {
            file: String::new(),
            purpose: FilePurpose::Batch,
            expires_after: None,
            extra_body: None,
        }
    }
}

impl Post for CreateFileRequest {
    /// An upload always has a single response.
    open spec fn spec_is_streaming(&self) -> bool {
        false
    }

    /// The form fields are texts that need no check.
    open spec fn spec_fields_valid(&self) -> bool {
        true
    }

    #[inline]
    fn is_streaming(&self) -> (r: bool) {
        false
    }

    fn check_fields(&self) -> (r: Result<(), OapiError>) {
        Ok(())
    }
}

impl CreateFileRequest {
    /// The text of the `purpose` form field.
    pub fn purpose_text(&self) -> (r: String)
        ensures
            r@ == self.purpose.spec_text(),
    {
        self.purpose.as_text()
    }

    /// The JSON form of the `expires_after` form field, when there is one.
    pub fn expires_after_json(&self) -> (r: Option<JsonValue>)
        ensures
            r is Some <==> self.expires_after is Some,
            r is Some ==> self.expires_after->0.json_fits(r->0),
    {
        match &self.expires_after {
            Some(e) => Some(e.to_json()),
            None => None,
        }
    }
}

} // verus!
