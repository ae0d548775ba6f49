//! The single-response schema: one full chat completion.
use crate::chat::response::{
    decode_logprobs, logprobs_fit, logprobs_ok, ChoiceLogprobs, CompletionUsage, FinishReason,
    ServiceTier,
};
use crate::errors::{schema_error, schema_message, OapiError};
use crate::json::{
    json_parse_of, opt_string, parse_json_text, req_string, req_u64, req_usize, same_text,
    spec_opt_member, spec_opt_string, spec_req_string, spec_req_u64, spec_req_usize, JsonValue,
};
use crate::rest::post::check_status;
use vstd::prelude::*;

verus! {

/// The object type of a completion, always `chat.completion`.
#[derive(Debug, Clone, Copy, PartialEq, Eq, Structural)]
pub enum ChatCompletionObject {
    ChatCompletion,
}

impl ChatCompletionObject {
    pub open spec fn spec_decode(v: JsonValue) -> Option<ChatCompletionObject> {
        match v {
            JsonValue::Str(s) => if s@ == "chat.completion"@ {
                Some(ChatCompletionObject::ChatCompletion)
            } else {
                None
            },
            _ => None,
        }
    }

    pub fn decode(v: &JsonValue) -> (r: Option<ChatCompletionObject>)
        ensures
            r == Self::spec_decode(*v),
    {
        match v {
            JsonValue::Str(s) => if same_text(s.as_str(), "chat.completion") {
                Some(ChatCompletionObject::ChatCompletion)
            } else {
                None
            },
            _ => None,
        }
    }
}

/// The role of a response message, always the assistant.
#[derive(Debug, Clone, Copy, PartialEq, Eq, Structural)]
pub enum ResponseRole {
    Assistant,
}

impl ResponseRole {
    pub open spec fn spec_decode(v: JsonValue) -> Option<ResponseRole> {
        match v {
            JsonValue::Str(s) => if s@ == "assistant"@ {
                Some(ResponseRole::Assistant)
            } else {
                None
            },
            _ => None,
        }
    }

    pub fn decode(v: &JsonValue) -> (r: Option<ResponseRole>)
        ensures
            r == Self::spec_decode(*v),
    {
        match v {
            JsonValue::Str(s) => if same_text(s.as_str(), "assistant") {
                Some(ResponseRole::Assistant)
            } else {
                None
            },
            _ => None,
        }
    }
}

/// A function call made by the model; the arguments are kept as the text the
/// model wrote, which need not be valid JSON.
#[derive(Debug, Clone, PartialEq, Eq)]
pub struct MessageToolCallFunction {
    pub arguments: String,
    pub name: String,
}

/// A call of a custom tool made by the model.
#[derive(Debug, Clone, PartialEq, Eq)]
pub struct MessageToolCallCustom {
    pub input: String,
    pub name: String,
}

/// One tool call of a response message, told apart by its `type` member.
#[derive(Debug, Clone, PartialEq, Eq)]
pub enum ChatCompletionMessageToolCall {
    Function { id: String, function: MessageToolCallFunction },
    Custom { id: String, custom: MessageToolCallCustom },
}

impl ChatCompletionMessageToolCall {
    pub open spec fn spec_function(v: JsonValue) -> Option<MessageToolCallFunction> {
        match v.field("function"@) {
            Some(f) => if spec_req_string(f, "arguments"@) is Some && spec_req_string(f, "name"@) is Some {
                Some(
                    MessageToolCallFunction {
                        arguments: spec_req_string(f, "arguments"@)->0,
                        name: spec_req_string(f, "name"@)->0,
                    },
                )
            } else {
                None
            },
            None => None,
        }
    }

    pub open spec fn spec_custom(v: JsonValue) -> Option<MessageToolCallCustom> {
        match v.field("custom"@) {
            Some(f) => if spec_req_string(f, "input"@) is Some && spec_req_string(f, "name"@) is Some {
                Some(
                    MessageToolCallCustom {
                        input: spec_req_string(f, "input"@)->0,
                        name: spec_req_string(f, "name"@)->0,
                    },
                )
            } else {
                None
            },
            None => None,
        }
    }

    /// The discriminant `type` is read first; the payload is then decoded as
    /// the variant it names.
    pub open spec fn spec_decode(v: JsonValue) -> Option<ChatCompletionMessageToolCall> {
        match (spec_req_string(v, "type"@), spec_req_string(v, "id"@)) {
            (Some(t), Some(id)) => if t@ == "function"@ {
                match Self::spec_function(v) {
                    Some(f) => Some(ChatCompletionMessageToolCall::Function { id, function: f }),
                    None => None,
                }
            } else if t@ == "custom"@ {
                match Self::spec_custom(v) {
                    Some(c) => Some(ChatCompletionMessageToolCall::Custom { id, custom: c }),
                    None => None,
                }
            } else {
                None
            },
            _ => None,
        }
    }

    pub fn decode(v: &JsonValue) -> (r: Option<ChatCompletionMessageToolCall>)
        ensures
            r == Self::spec_decode(*v),
    {
        let t = match req_string(v, "type") {
            Some(t) => t,
            None => return None,
        };
        let id = match req_string(v, "id") {
            Some(id) => id,
            None => return None,
        };
        if same_text(t.as_str(), "function") {
            let f = match v.get("function") {
                Some(f) => f,
                None => return None,
            };
            let arguments = match req_string(f, "arguments") {
                Some(x) => x,
                None => return None,
            };
            let name = match req_string(f, "name") {
                Some(x) => x,
                None => return None,
            };
            Some(
                ChatCompletionMessageToolCall::Function {
                    id,
                    function: MessageToolCallFunction { arguments, name },
                },
            )
        } else if same_text(t.as_str(), "custom") {
            let c = match v.get("custom") {
                Some(c) => c,
                None => return None,
            };
            let input = match req_string(c, "input") {
                Some(x) => x,
                None => return None,
            };
            let name = match req_string(c, "name") {
                Some(x) => x,
                None => return None,
            };
            Some(ChatCompletionMessageToolCall::Custom { id, custom: MessageToolCallCustom { input, name } })
        } else {
            None
        }
    }
}

/// The message of one choice.
#[derive(Debug, Clone, PartialEq, Eq)]
pub struct ChatCompletionMessage {
    pub role: ResponseRole,
    pub content: Option<String>,
    /// The reasoning trace of reasoning models.
    pub reasoning_content: Option<String>,
    pub refusal: Option<String>,
    pub tool_calls: Option<Vec<ChatCompletionMessageToolCall>>,
}

impl ChatCompletionMessage {
    pub open spec fn spec_role(v: JsonValue) -> Option<ResponseRole> {
        match v.field("role"@) {
            Some(x) => ResponseRole::spec_decode(x),
            None => None,
        }
    }

    /// Whether the tool calls of `v` (absent, null or an array) are `calls`.
    pub open spec fn tool_calls_fit(v: JsonValue, calls: Option<Vec<ChatCompletionMessageToolCall>>) -> bool {
        match v.field("tool_calls"@) {
            None => calls is None,
            Some(JsonValue::Null) => calls is None,
            Some(JsonValue::Array(items)) => calls is Some && items@.len() == calls->0@.len() && forall|i: int|
                0 <= i < items@.len() ==> ChatCompletionMessageToolCall::spec_decode(items@[i]) == Some(
                    #[trigger] calls->0@[i],
                ),
            _ => false,
        }
    }

    pub open spec fn tool_calls_ok(v: JsonValue) -> bool {
        match v.field("tool_calls"@) {
            None => true,
            Some(JsonValue::Null) => true,
            Some(JsonValue::Array(items)) => forall|i: int|
                0 <= i < items@.len() ==> (#[trigger] ChatCompletionMessageToolCall::spec_decode(
                    items@[i],
                )) is Some,
            _ => false,
        }
    }

    pub open spec fn decodable(v: JsonValue) -> bool {
        &&& Self::spec_role(v) is Some
        &&& spec_opt_string(v, "content"@) is Some
        &&& spec_opt_string(v, "reasoning_content"@) is Some
        &&& spec_opt_string(v, "refusal"@) is Some
        &&& Self::tool_calls_ok(v)
    }

    pub open spec fn decodes_to(v: JsonValue, m: ChatCompletionMessage) -> bool {
        &&& Self::spec_role(v) == Some(m.role)
        &&& spec_opt_string(v, "content"@) == Some(m.content)
        &&& spec_opt_string(v, "reasoning_content"@) == Some(m.reasoning_content)
        &&& spec_opt_string(v, "refusal"@) == Some(m.refusal)
        &&& Self::tool_calls_fit(v, m.tool_calls)
    }

    pub fn decode(v: &JsonValue) -> (r: Option<ChatCompletionMessage>)
        ensures
            r is Some <==> Self::decodable(*v),
            r is Some ==> Self::decodes_to(*v, r->0),
    {
        let role = match v.get("role") {
            Some(x) => match ResponseRole::decode(x) {
                Some(r) => r,
                None => return None,
            },
            None => return None,
        };
        let content = match opt_string(v, "content") {
            Some(x) => x,
            None => return None,
        };
        let reasoning_content = match opt_string(v, "reasoning_content") {
            Some(x) => x,
            None => return None,
        };
        let refusal = match opt_string(v, "refusal") {
            Some(x) => x,
            None => return None,
        };
        let tool_calls = match v.get("tool_calls") {
            None => None,
            Some(JsonValue::Null) => None,
            Some(JsonValue::Array(items)) => {
                let mut calls: Vec<ChatCompletionMessageToolCall> = Vec::new();
                let mut i: usize = 0;
                while i < items.len()
                    invariant
                        v.field("tool_calls"@) == Some(JsonValue::Array(*items)),
                        i <= items@.len(),
                        calls@.len() == i,
                        forall|j: int|
                            0 <= j < i ==> ChatCompletionMessageToolCall::spec_decode(items@[j])
                                == Some(#[trigger] calls@[j]),
                    decreases items@.len() - i,
                {
                    match ChatCompletionMessageToolCall::decode(&items[i]) {
                        Some(c) => calls.push(c),
                        None => return None,
                    }
                    i = i + 1;
                }
                assert forall|j: int| 0 <= j < items@.len() implies (
                #[trigger] ChatCompletionMessageToolCall::spec_decode(items@[j])) is Some by {
                    assert(ChatCompletionMessageToolCall::spec_decode(items@[j]) == Some(calls@[j]));
                }
                Some(calls)
            },
            Some(_) => return None,
        };
        Some(ChatCompletionMessage { role, content, reasoning_content, refusal, tool_calls })
    }
}

/// One choice of a completion: exactly one finish reason, one full message.
#[derive(Debug, Clone, PartialEq, Eq)]
pub struct Choice {
    pub finish_reason: FinishReason,
    pub index: usize,
    pub logprobs: Option<ChoiceLogprobs>,
    pub message: ChatCompletionMessage,
}

impl Choice {
    pub open spec fn spec_finish(v: JsonValue) -> Option<FinishReason> {
        match v.field("finish_reason"@) {
            Some(x) => FinishReason::spec_decode(x),
            None => None,
        }
    }

    pub open spec fn decodable(v: JsonValue) -> bool {
        &&& Self::spec_finish(v) is Some
        &&& spec_req_usize(v, "index"@) is Some
        &&& logprobs_ok(v)
        &&& v.field("message"@) is Some
        &&& ChatCompletionMessage::decodable(v.field("message"@)->0)
    }

    pub open spec fn decodes_to(v: JsonValue, c: Choice) -> bool {
        &&& Self::spec_finish(v) == Some(c.finish_reason)
        &&& spec_req_usize(v, "index"@) == Some(c.index)
        &&& logprobs_fit(v, c.logprobs)
        &&& v.field("message"@) is Some
        &&& ChatCompletionMessage::decodes_to(v.field("message"@)->0, c.message)
    }

    pub fn decode(v: &JsonValue) -> (r: Option<Choice>)
        ensures
            r is Some <==> Self::decodable(*v),
            r is Some ==> Self::decodes_to(*v, r->0),
    {
        let finish_reason = match v.get("finish_reason") {
            Some(x) => match FinishReason::decode(x) {
                Some(f) => f,
                None => return None,
            },
            None => return None,
        };
        let index = match req_usize(v, "index") {
            Some(x) => x,
            None => return None,
        };
        let logprobs = match decode_logprobs(v) {
            Some(l) => l,
            None => return None,
        };
        let message = match v.get("message") {
            Some(m) => match ChatCompletionMessage::decode(m) {
                Some(m) => m,
                None => return None,
            },
            None => return None,
        };
        Some(Choice { finish_reason, index, logprobs, message })
    }
}

/// A full chat completion.
#[derive(Debug, Clone, PartialEq, Eq)]
pub struct ChatCompletion {
    pub id: String,
    pub choices: Vec<Choice>,
    /// The Unix time (seconds) of creation.
    pub created: u64,
    pub model: String,
    pub service_tier: Option<ServiceTier>,
    pub system_fingerprint: Option<String>,
    pub object: ChatCompletionObject,
    pub usage: Option<CompletionUsage>,
}

pub open spec fn spec_items(v: JsonValue) -> Option<Seq<JsonValue>> {
    match v.field("choices"@) {
        Some(JsonValue::Array(items)) => Some(items@),
        _ => None,
    }
}

pub open spec fn spec_object(v: JsonValue) -> Option<ChatCompletionObject> {
    match v.field("object"@) {
        Some(x) => ChatCompletionObject::spec_decode(x),
        None => None,
    }
}

pub open spec fn spec_tier(v: JsonValue) -> Option<Option<ServiceTier>> {
    spec_opt_member(v, "service_tier"@, |x: JsonValue| ServiceTier::spec_decode(x))
}

pub open spec fn spec_usage(v: JsonValue) -> Option<Option<CompletionUsage>> {
    spec_opt_member(v, "usage"@, |x: JsonValue| CompletionUsage::spec_decode(x))
}

impl ChatCompletion {
    pub open spec fn decodable(v: JsonValue) -> bool {
        &&& spec_req_string(v, "id"@) is Some
        &&& spec_req_u64(v, "created"@) is Some
        &&& spec_req_string(v, "model"@) is Some
        &&& spec_tier(v) is Some
        &&& spec_opt_string(v, "system_fingerprint"@) is Some
        &&& spec_object(v) is Some
        &&& spec_usage(v) is Some
        &&& spec_items(v) is Some
        &&& forall|i: int| 0 <= i < spec_items(v)->0.len() ==> #[trigger] Choice::decodable(spec_items(v)->0[i])
    }

    pub open spec fn decodes_to(v: JsonValue, c: ChatCompletion) -> bool {
        &&& spec_req_string(v, "id"@) == Some(c.id)
        &&& spec_req_u64(v, "created"@) == Some(c.created)
        &&& spec_req_string(v, "model"@) == Some(c.model)
        &&& spec_tier(v) == Some(c.service_tier)
        &&& spec_opt_string(v, "system_fingerprint"@) == Some(c.system_fingerprint)
        &&& spec_object(v) == Some(c.object)
        &&& spec_usage(v) == Some(c.usage)
        &&& spec_items(v) is Some
        &&& spec_items(v)->0.len() == c.choices@.len()
        &&& forall|i: int| 0 <= i < c.choices@.len() ==> Choice::decodes_to(spec_items(v)->0[i], #[trigger] c.choices@[i])
    }

    pub open spec fn text_decodable(text: Seq<char>) -> bool {
        match json_parse_of(text) {
            Ok(v) => Self::decodable(v),
            Err(_) => false,
        }
    }

    pub open spec fn text_decodes_to(text: Seq<char>, c: ChatCompletion) -> bool {
        match json_parse_of(text) {
            Ok(v) => Self::decodes_to(v, c),
            Err(_) => false,
        }
    }

    pub fn decode(v: &JsonValue) -> (r: Option<ChatCompletion>)
        ensures
            r is Some <==> Self::decodable(*v),
            r is Some ==> Self::decodes_to(*v, r->0),
    {
        let id = match req_string(v, "id") {
            Some(x) => x,
            None => return None,
        };
        let created = match req_u64(v, "created") {
            Some(x) => x,
            None => return None,
        };
        let model = match req_string(v, "model") {
            Some(x) => x,
            None => return None,
        };
        let service_tier = match v.get("service_tier") {
            None => None,
            Some(JsonValue::Null) => None,
            Some(x) => match ServiceTier::decode(x) {
                Some(t) => Some(t),
                None => return None,
            },
        };
        let system_fingerprint = match opt_string(v, "system_fingerprint") {
            Some(x) => x,
            None => return None,
        };
        let object = match v.get("object") {
            Some(x) => match ChatCompletionObject::decode(x) {
                Some(o) => o,
                None => return None,
            },
            None => return None,
        };
        let usage = match v.get("usage") {
            None => None,
            Some(JsonValue::Null) => None,
            Some(x) => match CompletionUsage::decode(x) {
                Some(u) => Some(u),
                None => return None,
            },
        };
        let items = match v.get("choices") {
            Some(JsonValue::Array(items)) => items,
            _ => return None,
        };
        let mut choices: Vec<Choice> = Vec::new();
        let mut i: usize = 0;
        while i < items.len()
            invariant
                spec_items(*v) == Some(items@),
                i <= items@.len(),
                choices@.len() == i,
                forall|j: int| 0 <= j < i ==> Choice::decodes_to(items@[j], #[trigger] choices@[j]),
                forall|j: int| 0 <= j < i ==> #[trigger] Choice::decodable(items@[j]),
            decreases items@.len() - i,
        {
            match Choice::decode(&items[i]) {
                Some(c) => choices.push(c),
                None => {
                    assert(spec_items(*v)->0[i as int] == items@[i as int]);
                    return None;
                },
            }
            i = i + 1;
        }
        Some(ChatCompletion { id, choices, created, model, service_tier, system_fingerprint, object, usage })
    }

    /// The first member, in the order they are read, that keeps `v` from
    /// being a completion.
    pub open spec fn spec_problem(v: JsonValue) -> Seq<char> {
        if spec_req_string(v, "id"@) is None {
            "id"@
        } else if spec_req_u64(v, "created"@) is None {
            "created"@
        } else if spec_req_string(v, "model"@) is None {
            "model"@
        } else if spec_tier(v) is None {
            "service_tier"@
        } else if spec_opt_string(v, "system_fingerprint"@) is None {
            "system_fingerprint"@
        } else if spec_object(v) is None {
            "object"@
        } else if spec_usage(v) is None {
            "usage"@
        } else {
            "choices"@
        }
    }

    /// Names the member that keeps `v` from being a completion.
    pub fn problem(v: &JsonValue) -> (r: &'static str)
        ensures
            r@ == Self::spec_problem(*v),
    {
        let tier_ok = match v.get("service_tier") {
            None => true,
            Some(JsonValue::Null) => true,
            Some(x) => ServiceTier::decode(x).is_some(),
        };
        let object_ok = match v.get("object") {
            Some(x) => ChatCompletionObject::decode(x).is_some(),
            None => false,
        };
        let usage_ok = match v.get("usage") {
            None => true,
            Some(JsonValue::Null) => true,
            Some(x) => CompletionUsage::decode(x).is_some(),
        };
        if req_string(v, "id").is_none() {
            "id"
        } else if req_u64(v, "created").is_none() {
            "created"
        } else if req_string(v, "model").is_none() {
            "model"
        } else if !tier_ok {
            "service_tier"
        } else if opt_string(v, "system_fingerprint").is_none() {
            "system_fingerprint"
        } else if !object_ok {
            "object"
        } else if !usage_ok {
            "usage"
        } else {
            "choices"
        }
    }

    /// Reads a completion out of a response body. A text that is not JSON
    /// gives serde_json's message; one that is JSON of another shape gives a
    /// message that names the first member in the way.
    pub fn parse_string(text: &str) -> (r: Result<ChatCompletion, OapiError>)
        ensures
            r is Ok <==> Self::text_decodable(text@),
            r is Ok ==> Self::text_decodes_to(text@, r->Ok_0),
            r is Err ==> r->Err_0 is DeserializationError,
            json_parse_of(text@) is Err ==> (r matches Err(OapiError::DeserializationError(m)) && m@
                == json_parse_of(text@)->Err_0),
            json_parse_of(text@) is Ok && !Self::decodable(json_parse_of(text@)->Ok_0) ==> (r matches Err(
                OapiError::DeserializationError(m),
            ) && m@ == schema_message(Self::spec_problem(json_parse_of(text@)->Ok_0))),
    {
        match parse_json_text(text) {
            Ok(v) => match Self::decode(&v) {
                Some(c) => Ok(c),
                None => Err(schema_error(Self::problem(&v))),
            },
            Err(m) => Err(OapiError::DeserializationError(m)),
        }
    }

    /// What the single-response path makes of the status and body of the
    /// response: a status other than 200 is an error that carries it, and the
    /// body is then not read; else the body is parsed.
    pub fn from_response(status: u16, body: &str) -> (r: Result<ChatCompletion, OapiError>)
        ensures
            status != 200 ==> r == Err::<ChatCompletion, OapiError>(OapiError::ResponseStatus(status)),
            status == 200 ==> (r is Ok <==> Self::text_decodable(body@)),
            status == 200 && r is Ok ==> Self::text_decodes_to(body@, r->Ok_0),
            status == 200 && r is Err ==> r->Err_0 is DeserializationError,
            status == 200 && json_parse_of(body@) is Err ==> (r matches Err(
                OapiError::DeserializationError(m),
            ) && m@ == json_parse_of(body@)->Err_0),
    {
        match check_status(status, false) {
            Ok(()) => Self::parse_string(body),
            Err(e) => Err(e),
        }
    }
}

impl std::str::FromStr for ChatCompletion {
    type Err = OapiError;

    fn from_str(text: &str) -> Result<ChatCompletion, OapiError> {
        ChatCompletion::parse_string(text)
    }
}

} // verus!
