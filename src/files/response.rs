//! The file object that an upload returns.
use crate::errors::{schema_error, schema_message, OapiError};
use crate::json::{
    json_parse_of, opt_string, opt_usize, parse_json_text, req_string, req_usize, same_text,
    spec_opt_member, spec_opt_string, spec_opt_usize, spec_req_string, spec_req_usize, JsonValue,
};
use crate::rest::post::check_status;
use vstd::prelude::*;

verus! {

/// The state of an uploaded file (deprecated by the service).
#[derive(Debug, Clone, Copy, PartialEq, Eq, Structural)]
pub enum FileStatus {
    Uploaded,
    Processed,
    Error,
}

impl FileStatus {
    pub open spec fn spec_decode(v: JsonValue) -> Option<FileStatus> {
        match v {
            JsonValue::Str(s) => if s@ == "uploaded"@ {
                Some(FileStatus::Uploaded)
            } else if s@ == "processed"@ {
                Some(FileStatus::Processed)
            } else if s@ == "error"@ {
                Some(FileStatus::Error)
            } else {
                None
            },
            _ => None,
        }
    }

    pub fn decode(v: &JsonValue) -> (r: Option<FileStatus>)
        ensures
            r == Self::spec_decode(*v),
    {
        match v {
            JsonValue::Str(s) => {
                let s = s.as_str();
                if same_text(s, "uploaded") {
                    Some(FileStatus::Uploaded)
                } else if same_text(s, "processed") {
                    Some(FileStatus::Processed)
                } else if same_text(s, "error") {
                    Some(FileStatus::Error)
                } else {
                    None
                }
            },
            _ => None,
        }
    }
}

/// What a stored file is for, as the service reports it.
#[derive(Debug, Clone, Copy, PartialEq, Eq, Structural)]
pub enum FilePurpose {
    Assistant,
    AssistantsOutput,
    Batch,
    BatchOutput,
    FineTune,
    FineTuneResults,
    Vision,
    UserData,
}

impl FilePurpose {
    pub open spec fn spec_decode(v: JsonValue) -> Option<FilePurpose> {
        match v {
            JsonValue::Str(s) => if s@ == "assistant"@ {
                Some(FilePurpose::Assistant)
            } else if s@ == "assistants_output"@ {
                Some(FilePurpose::AssistantsOutput)
            } else if s@ == "batch"@ {
                Some(FilePurpose::Batch)
            } else if s@ == "batch_output"@ {
                Some(FilePurpose::BatchOutput)
            } else if s@ == "fine-tune"@ {
                Some(FilePurpose::FineTune)
            } else if s@ == "fine-tune-results"@ {
                Some(FilePurpose::FineTuneResults)
            } else if s@ == "vision"@ {
                Some(FilePurpose::Vision)
            } else if s@ == "user_data"@ {
                Some(FilePurpose::UserData)
            } else {
                None
            },
            _ => None,
        }
    }

    pub fn decode(v: &JsonValue) -> (r: Option<FilePurpose>)
        ensures
            r == Self::spec_decode(*v),
    {
        match v {
            JsonValue::Str(s) => {
                let s = s.as_str();
                if same_text(s, "assistant") {
                    Some(FilePurpose::Assistant)
                } else if same_text(s, "assistants_output") {
                    Some(FilePurpose::AssistantsOutput)
                } else if same_text(s, "batch") {
                    Some(FilePurpose::Batch)
                } else if same_text(s, "batch_output") {
                    Some(FilePurpose::BatchOutput)
                } else if same_text(s, "fine-tune") {
                    Some(FilePurpose::FineTune)
                } else if same_text(s, "fine-tune-results") {
                    Some(FilePurpose::FineTuneResults)
                } else if same_text(s, "vision") {
                    Some(FilePurpose::Vision)
                } else if same_text(s, "user_data") {
                    Some(FilePurpose::UserData)
                } else {
                    None
                }
            },
            _ => None,
        }
    }
}

/// A stored file.
#[derive(Debug, Clone, PartialEq, Eq)]
pub struct FileObject {
    /// The identifier that other endpoints refer to it by.
    pub id: String,
    /// Its size in bytes.
    pub bytes: usize,
    /// The Unix time (seconds) of its creation.
    pub created_at: usize,
    pub filename: String,
    /// Always `file`.
    pub object: String,
    pub purpose: FilePurpose,
    pub status: Option<FileStatus>,
    /// The Unix time (seconds) at which it expires.
    pub expires_at: Option<usize>,
    pub status_details: Option<String>,
}

impl FileObject {
    pub open spec fn spec_purpose(v: JsonValue) -> Option<FilePurpose> {
        match v.field("purpose"@) {
            Some(x) => FilePurpose::spec_decode(x),
            None => None,
        }
    }

    pub open spec fn spec_status(v: JsonValue) -> Option<Option<FileStatus>> {
        spec_opt_member(v, "status"@, |x: JsonValue| FileStatus::spec_decode(x))
    }

    pub open spec fn spec_decode(v: JsonValue) -> Option<FileObject> {
        if spec_req_string(v, "id"@) is Some && spec_req_usize(v, "bytes"@) is Some && spec_req_usize(
            v,
            "created_at"@,
        ) is Some && spec_req_string(v, "filename"@) is Some && spec_req_string(v, "object"@) is Some
            && Self::spec_purpose(v) is Some && Self::spec_status(v) is Some && spec_opt_usize(
            v,
            "expires_at"@,
        ) is Some && spec_opt_string(v, "status_details"@) is Some {
            Some(
                FileObject {
                    id: spec_req_string(v, "id"@)->0,
                    bytes: spec_req_usize(v, "bytes"@)->0,
                    created_at: spec_req_usize(v, "created_at"@)->0,
                    filename: spec_req_string(v, "filename"@)->0,
                    object: spec_req_string(v, "object"@)->0,
                    purpose: Self::spec_purpose(v)->0,
                    status: Self::spec_status(v)->0,
                    expires_at: spec_opt_usize(v, "expires_at"@)->0,
                    status_details: spec_opt_string(v, "status_details"@)->0,
                },
            )
        } else {
            None
        }
    }

    pub fn decode(v: &JsonValue) -> (r: Option<FileObject>)
        ensures
            r == Self::spec_decode(*v),
    {
        let id = match req_string(v, "id") {
            Some(x) => x,
            None => return None,
        };
        let bytes = match req_usize(v, "bytes") {
            Some(x) => x,
            None => return None,
        };
        let created_at = match req_usize(v, "created_at") {
            Some(x) => x,
            None => return None,
        };
        let filename = match req_string(v, "filename") {
            Some(x) => x,
            None => return None,
        };
        let object = match req_string(v, "object") {
            Some(x) => x,
            None => return None,
        };
        let purpose = match v.get("purpose") {
            Some(x) => match FilePurpose::decode(x) {
                Some(p) => p,
                None => return None,
            },
            None => return None,
        };
        let status = match v.get("status") {
            None => None,
            Some(JsonValue::Null) => None,
            Some(x) => match FileStatus::decode(x) {
                Some(s) => Some(s),
                None => return None,
            },
        };
        let expires_at = match opt_usize(v, "expires_at") {
            Some(x) => x,
            None => return None,
        };
        let status_details = match opt_string(v, "status_details") {
            Some(x) => x,
            None => return None,
        };
        Some(
            FileObject {
                id,
                bytes,
                created_at,
                filename,
                object,
                purpose,
                status,
                expires_at,
                status_details,
            },
        )
    }

    /// What a text holds as a file object, if it is JSON of that shape.
    pub open spec fn spec_from_text(text: Seq<char>) -> Option<FileObject> {
        match json_parse_of(text) {
            Ok(v) => Self::spec_decode(v),
            Err(_) => None,
        }
    }

    /// The first member, in the order they are read, that keeps `v` from
    /// being a file object.
    pub open spec fn spec_problem(v: JsonValue) -> Seq<char> {
        if spec_req_string(v, "id"@) is None {
            "id"@
        } else if spec_req_usize(v, "bytes"@) is None {
            "bytes"@
        } else if spec_req_usize(v, "created_at"@) is None {
            "created_at"@
        } else if spec_req_string(v, "filename"@) is None {
            "filename"@
        } else if spec_req_string(v, "object"@) is None {
            "object"@
        } else if Self::spec_purpose(v) is None {
            "purpose"@
        } else if Self::spec_status(v) is None {
            "status"@
        } else if spec_opt_usize(v, "expires_at"@) is None {
            "expires_at"@
        } else {
            "status_details"@
        }
    }

    /// Names the member that keeps `v` from being a file object.
    pub fn problem(v: &JsonValue) -> (r: &'static str)
        ensures
            r@ == Self::spec_problem(*v),
    {
        let purpose_ok = match v.get("purpose") {
            Some(x) => FilePurpose::decode(x).is_some(),
            None => false,
        };
        let status_ok = match v.get("status") {
            None => true,
            Some(JsonValue::Null) => true,
            Some(x) => FileStatus::decode(x).is_some(),
        };
        if req_string(v, "id").is_none() {
            "id"
        } else if req_usize(v, "bytes").is_none() {
            "bytes"
        } else if req_usize(v, "created_at").is_none() {
            "created_at"
        } else if req_string(v, "filename").is_none() {
            "filename"
        } else if req_string(v, "object").is_none() {
            "object"
        } else if !purpose_ok {
            "purpose"
        } else if !status_ok {
            "status"
        } else if opt_usize(v, "expires_at").is_none() {
            "expires_at"
        } else {
            "status_details"
        }
    }

    /// Reads a file object out of a response body. A text that is not JSON
    /// gives serde_json's message; one that is JSON of another shape gives a
    /// message that names the first member in the way.
    pub fn parse_string(text: &str) -> (r: Result<FileObject, OapiError>)
        ensures
            r is Ok <==> Self::spec_from_text(text@) is Some,
            r is Ok ==> r->Ok_0 == Self::spec_from_text(text@)->0,
            r is Err ==> r->Err_0 is DeserializationError,
            json_parse_of(text@) is Err ==> (r matches Err(OapiError::DeserializationError(m)) && m@
                == json_parse_of(text@)->Err_0),
            json_parse_of(text@) is Ok && Self::spec_decode(json_parse_of(text@)->Ok_0) is None ==> (
            r matches Err(OapiError::DeserializationError(m)) && m@ == schema_message(
                Self::spec_problem(json_parse_of(text@)->Ok_0),
            )),
    {
        match parse_json_text(text) {
            Ok(v) => match Self::decode(&v) {
                Some(f) => Ok(f),
                None => Err(schema_error(Self::problem(&v))),
            },
            Err(m) => Err(OapiError::DeserializationError(m)),
        }
    }

    /// What the upload makes of the status and body of its response: a status
    /// other than 200 is an error that carries it, and the body is then not
    /// read; else the body is parsed.
    pub fn from_response(status: u16, body: &str) -> (r: Result<FileObject, OapiError>)
        ensures
            status != 200 ==> r == Err::<FileObject, OapiError>(OapiError::ResponseStatus(status)),
            status == 200 ==> (r is Ok <==> Self::spec_from_text(body@) is Some),
            status == 200 && r is Ok ==> r->Ok_0 == Self::spec_from_text(body@)->0,
            status == 200 && r is Err ==> r->Err_0 is DeserializationError,
            status == 200 && json_parse_of(body@) is Err ==> (r matches Err(
                OapiError::DeserializationError(m),
            ) && m@ == json_parse_of(body@)->Err_0),
    {
        match check_status(status, false) {
            Ok(()) => Self::parse_string(body),
            Err(e) => Err(e),
        }
    }
}

impl std::str::FromStr for FileObject {
    type Err = OapiError;

    fn from_str(text: &str) -> Result<FileObject, OapiError> {
        FileObject::parse_string(text)
    }
}

} // verus!
