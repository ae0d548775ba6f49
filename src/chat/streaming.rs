//! The streaming schema: one chunk per server-sent event.
use crate::chat::response::{
    decode_logprobs, logprobs_fit, logprobs_ok, ChoiceLogprobs, CompletionUsage, FinishReason,
};
use crate::errors::{schema_error, schema_message, OapiError};
use crate::json::{
    decode_list, json_parse_of, lemma_without_key, without_key, list_decodable, list_decodes_to, opt_string, parse_json_text,
    req_string, req_u64, spec_opt_member, spec_opt_string, spec_req_string, spec_req_u64,
    FromJson, JsonValue,
};
use vstd::prelude::*;

verus! {

/// The role announced by the first delta of a choice.
#[derive(Debug, Clone, Copy, PartialEq, Eq, Structural)]
pub enum CompletionRole {
    User,
    Assistant,
    System,
    Tool,
}

impl CompletionRole {
    pub open spec fn spec_decode(v: JsonValue) -> Option<CompletionRole> {
        match v {
            JsonValue::Str(s) => if s@ == "user"@ {
                Some(CompletionRole::User)
            } else if s@ == "assistant"@ {
                Some(CompletionRole::Assistant)
            } else if s@ == "system"@ {
                Some(CompletionRole::System)
            } else if s@ == "tool"@ {
                Some(CompletionRole::Tool)
            } else {
                None
            },
            _ => None,
        }
    }

    pub fn decode(v: &JsonValue) -> (r: Option<CompletionRole>)
        ensures
            r == Self::spec_decode(*v),
    {
        match v {
            JsonValue::Str(s) => {
                let s = s.as_str();
                if crate::json::same_text(s, "user") {
                    Some(CompletionRole::User)
                } else if crate::json::same_text(s, "assistant") {
                    Some(CompletionRole::Assistant)
                } else if crate::json::same_text(s, "system") {
                    Some(CompletionRole::System)
                } else if crate::json::same_text(s, "tool") {
                    Some(CompletionRole::Tool)
                } else {
                    None
                }
            },
            _ => None,
        }
    }
}

/// One fragment of generated text: ordinary content or reasoning trace.
#[derive(Debug, Clone, PartialEq, Eq)]
pub enum CompletionContent {
    Content(String),
    ReasoningContent(String),
}

/// The incremental part of one choice in one chunk.
#[derive(Debug, Clone, PartialEq, Eq)]
pub struct CompletionDelta {
    pub content: Option<CompletionContent>,
    pub role: Option<CompletionRole>,
}

impl CompletionDelta {
    /// The fragment of a delta. A `reasoning_content` string is taken when there
    /// is no `content` string or that one is empty; else a `content` string.
    pub open spec fn spec_content(v: JsonValue) -> Option<Option<CompletionContent>> {
        let c = spec_opt_string(v, "content"@);
        let rc = spec_opt_string(v, "reasoning_content"@);
        if c is None || rc is None {
            None
        } else {
            match (c->0, rc->0) {
                (Some(s), Some(t)) => if s@.len() == 0 {
                    Some(Some(CompletionContent::ReasoningContent(t)))
                } else {
                    Some(Some(CompletionContent::Content(s)))
                },
                (Some(s), None) => Some(Some(CompletionContent::Content(s))),
                (None, Some(t)) => Some(Some(CompletionContent::ReasoningContent(t))),
                (None, None) => Some(None),
            }
        }
    }

    pub open spec fn spec_decode(v: JsonValue) -> Option<CompletionDelta> {
        let content = Self::spec_content(v);
        let role = spec_opt_member(v, "role"@, |x: JsonValue| CompletionRole::spec_decode(x));
        if v is Object && content is Some && role is Some {
            Some(CompletionDelta { content: content->0, role: role->0 })
        } else {
            None
        }
    }

    pub fn decode(v: &JsonValue) -> (r: Option<CompletionDelta>)
        ensures
            r == Self::spec_decode(*v),
    {
        if !matches!(v, JsonValue::Object(_)) {
            return None;
        }
        let c = match opt_string(v, "content") {
            Some(c) => c,
            None => return None,
        };
        let rc = match opt_string(v, "reasoning_content") {
            Some(rc) => rc,
            None => return None,
        };
        let content = match (c, rc) {
            (Some(s), Some(t)) => if s.unicode_len() == 0 {
                Some(CompletionContent::ReasoningContent(t))
            } else {
                Some(CompletionContent::Content(s))
            },
            (Some(s), None) => Some(CompletionContent::Content(s)),
            (None, Some(t)) => Some(CompletionContent::ReasoningContent(t)),
            (None, None) => None,
        };
        let role = match v.get("role") {
            None => None,
            Some(JsonValue::Null) => None,
            Some(x) => match CompletionRole::decode(x) {
                Some(r) => Some(r),
                None => return None,
            },
        };
        Some(CompletionDelta { content, role })
    }
}

/// One choice of one chunk.
#[derive(Debug, Clone, PartialEq, Eq)]
pub struct CompletionChoice {
    pub delta: CompletionDelta,
    pub index: u32,
    pub logprobs: Option<ChoiceLogprobs>,
    pub finish_reason: Option<FinishReason>,
}

impl CompletionChoice {
    pub open spec fn spec_index(v: JsonValue) -> Option<u32> {
        match spec_req_u64(v, "index"@) {
            Some(x) => if x <= u32::MAX { Some(x as u32) } else { None },
            None => None,
        }
    }

    pub open spec fn spec_delta(v: JsonValue) -> Option<CompletionDelta> {
        match v.field("delta"@) {
            Some(d) => CompletionDelta::spec_decode(d),
            None => None,
        }
    }

    pub open spec fn spec_finish(v: JsonValue) -> Option<Option<FinishReason>> {
        spec_opt_member(v, "finish_reason"@, |x: JsonValue| FinishReason::spec_decode_chunk(x))
    }
}

impl FromJson for CompletionChoice {
    open spec fn json_decodable(v: JsonValue) -> bool {
        &&& Self::spec_delta(v) is Some
        &&& Self::spec_index(v) is Some
        &&& logprobs_ok(v)
        &&& Self::spec_finish(v) is Some
    }

    open spec fn json_decodes_to(v: JsonValue, c: CompletionChoice) -> bool {
        &&& Self::spec_delta(v) == Some(c.delta)
        &&& Self::spec_index(v) == Some(c.index)
        &&& logprobs_fit(v, c.logprobs)
        &&& Self::spec_finish(v) == Some(c.finish_reason)
    }

    fn from_json(v: &JsonValue) -> (r: Option<CompletionChoice>) {
        let delta = match v.get("delta") {
            Some(d) => match CompletionDelta::decode(d) {
                Some(d) => d,
                None => return None,
            },
            None => return None,
        };
        let index = match req_u64(v, "index") {
            Some(x) => if x <= u32::MAX as u64 {
                x as u32
            } else {
                return None;
            },
            None => return None,
        };
        let logprobs = match decode_logprobs(v) {
            Some(l) => l,
            None => return None,
        };
        let finish_reason = match v.get("finish_reason") {
            None => None,
            Some(JsonValue::Null) => None,
            Some(x) => match FinishReason::decode_chunk(x) {
                Some(f) => Some(f),
                None => return None,
            },
        };
        Some(CompletionChoice { delta, index, logprobs, finish_reason })
    }
}

/// The payload of one server-sent event of a streaming chat completion.
#[derive(Debug, Clone, PartialEq, Eq)]
pub struct ChatCompletionChunk {
    /// The identifier shared by every chunk of one completion.
    pub id: String,
    /// The deltas of this chunk; empty on the final usage-only chunk.
    pub choices: Vec<CompletionChoice>,
    /// The Unix time (seconds) of creation.
    pub created: u64,
    pub model: String,
    /// Always `chat.completion.chunk`.
    pub object: String,
    pub system_fingerprint: Option<String>,
    /// Present on the final chunk when usage was asked for.
    pub usage: Option<CompletionUsage>,
}

/// The items of the member `choices`, when it is an array.
pub open spec fn spec_choice_items(v: JsonValue) -> Option<Seq<JsonValue>> {
    match v.field("choices"@) {
        Some(JsonValue::Array(items)) => Some(items@),
        _ => None,
    }
}

pub open spec fn spec_usage(v: JsonValue) -> Option<Option<CompletionUsage>> {
    spec_opt_member(v, "usage"@, |x: JsonValue| CompletionUsage::spec_decode(x))
}

impl ChatCompletionChunk {
    /// Whether a document is a chunk: unknown members are ignored, optional
    /// ones may be absent or null.
    pub open spec fn decodable(v: JsonValue) -> bool {
        &&& spec_req_string(v, "id"@) is Some
        &&& spec_req_u64(v, "created"@) is Some
        &&& spec_req_string(v, "model"@) is Some
        &&& spec_req_string(v, "object"@) is Some
        &&& spec_opt_string(v, "system_fingerprint"@) is Some
        &&& spec_usage(v) is Some
        &&& spec_choice_items(v) is Some
        &&& list_decodable::<CompletionChoice>(spec_choice_items(v)->0)
    }

    /// Whether `c` is what the document `v` holds.
    pub open spec fn decodes_to(v: JsonValue, c: ChatCompletionChunk) -> bool {
        &&& spec_req_string(v, "id"@) == Some(c.id)
        &&& spec_req_u64(v, "created"@) == Some(c.created)
        &&& spec_req_string(v, "model"@) == Some(c.model)
        &&& spec_req_string(v, "object"@) == Some(c.object)
        &&& spec_opt_string(v, "system_fingerprint"@) == Some(c.system_fingerprint)
        &&& spec_usage(v) == Some(c.usage)
        &&& spec_choice_items(v) is Some
        &&& list_decodes_to(spec_choice_items(v)->0, c.choices@)
    }

    /// Whether a text is JSON that holds a chunk.
    pub open spec fn text_decodable(text: Seq<char>) -> bool {
        match json_parse_of(text) {
            Ok(v) => Self::decodable(v),
            Err(_) => false,
        }
    }

    /// Whether `c` is the chunk that the text holds.
    pub open spec fn text_decodes_to(text: Seq<char>, c: ChatCompletionChunk) -> bool {
        match json_parse_of(text) {
            Ok(v) => Self::decodes_to(v, c),
            Err(_) => false,
        }
    }

    /// Reads a chunk out of a document tree.
    pub fn decode(v: &JsonValue) -> (r: Option<ChatCompletionChunk>)
        ensures
            r is Some <==> Self::decodable(*v),
            r is Some ==> Self::decodes_to(*v, r->0),
    {
        let id = match req_string(v, "id") {
            Some(x) => x,
            None => return None,
        };
        let created = match req_u64(v, "created") {
            Some(x) => x,
            None => return None,
        };
        let model = match req_string(v, "model") {
            Some(x) => x,
            None => return None,
        };
        let object = match req_string(v, "object") {
            Some(x) => x,
            None => return None,
        };
        let system_fingerprint = match opt_string(v, "system_fingerprint") {
            Some(x) => x,
            None => return None,
        };
        let usage = match v.get("usage") {
            None => None,
            Some(JsonValue::Null) => None,
            Some(x) => match CompletionUsage::decode(x) {
                Some(u) => Some(u),
                None => return None,
            },
        };
        let items = match v.get("choices") {
            Some(JsonValue::Array(items)) => items,
            _ => return None,
        };
        let choices: Vec<CompletionChoice> = match decode_list(items) {
            Some(xs) => xs,
            None => return None,
        };
        Some(ChatCompletionChunk { id, choices, created, model, object, system_fingerprint, usage })
    }

    /// The first member, in the order they are read, that keeps `v` from
    /// being a chunk.
    pub open spec fn spec_problem(v: JsonValue) -> Seq<char> {
        if spec_req_string(v, "id"@) is None {
            "id"@
        } else if spec_req_u64(v, "created"@) is None {
            "created"@
        } else if spec_req_string(v, "model"@) is None {
            "model"@
        } else if spec_req_string(v, "object"@) is None {
            "object"@
        } else if spec_opt_string(v, "system_fingerprint"@) is None {
            "system_fingerprint"@
        } else if spec_usage(v) is None {
            "usage"@
        } else {
            "choices"@
        }
    }

    /// Names the member that keeps `v` from being a chunk.
    pub fn problem(v: &JsonValue) -> (r: &'static str)
        ensures
            r@ == Self::spec_problem(*v),
    {
        if req_string(v, "id").is_none() {
            "id"
        } else if req_u64(v, "created").is_none() {
            "created"
        } else if req_string(v, "model").is_none() {
            "model"
        } else if req_string(v, "object").is_none() {
            "object"
        } else if opt_string(v, "system_fingerprint").is_none() {
            "system_fingerprint"
        } else if !usage_ok(v) {
            "usage"
        } else {
            "choices"
        }
    }

    /// Reads a chunk out of the text of one event. A text that is not JSON
    /// gives serde_json's message; one that is JSON of another shape gives a
    /// message that names the first member in the way.
    pub fn parse_string(text: &str) -> (r: Result<ChatCompletionChunk, OapiError>)
        ensures
            r is Ok <==> Self::text_decodable(text@),
            r is Ok ==> Self::text_decodes_to(text@, r->Ok_0),
            r is Err ==> r->Err_0 is DeserializationError,
            json_parse_of(text@) is Err ==> (r matches Err(OapiError::DeserializationError(m)) && m@
                == json_parse_of(text@)->Err_0),
            json_parse_of(text@) is Ok && !Self::decodable(json_parse_of(text@)->Ok_0) ==> (r matches Err(
                OapiError::DeserializationError(m),
            ) && m@ == schema_message(Self::spec_problem(json_parse_of(text@)->Ok_0))),
    {
        match parse_json_text(text) {
            Ok(v) => match Self::decode(&v) {
                Some(c) => Ok(c),
                None => Err(schema_error(Self::problem(&v))),
            },
            Err(m) => Err(OapiError::DeserializationError(m)),
        }
    }
}

/// Whether the member `usage` can be read.
fn usage_ok(v: &JsonValue) -> (r: bool)
    ensures
        r == (spec_usage(*v) is Some),
{
    match v.get("usage") {
        None => true,
        Some(JsonValue::Null) => true,
        Some(x) => CompletionUsage::decode(x).is_some(),
    }
}

/// The ordinary content that a chunk adds to the first choice's message.
pub open spec fn content_fragment(c: ChatCompletionChunk) -> Seq<char> {
    if c.choices@.len() > 0 {
        match c.choices@[0].delta.content {
            Some(CompletionContent::Content(t)) => t@,
            _ => Seq::empty(),
        }
    } else {
        Seq::empty()
    }
}

/// The message that a run of chunks spells out: their fragments, in order.
pub open spec fn spelled_message(chunks: Seq<ChatCompletionChunk>) -> Seq<char>
    decreases chunks.len(),
{
    if chunks.len() == 0 {
        Seq::empty()
    } else {
        spelled_message(chunks.drop_last()) + content_fragment(chunks.last())
    }
}

/// The ordinary content that the first choice of a chunk document carries.
pub open spec fn json_fragment(v: JsonValue) -> Seq<char> {
    match spec_choice_items(v) {
        Some(items) => if items.len() > 0 {
            match CompletionChoice::spec_delta(items[0]) {
                Some(d) => match d.content {
                    Some(CompletionContent::Content(t)) => t@,
                    _ => Seq::empty(),
                },
                None => Seq::empty(),
            }
        } else {
            Seq::empty()
        },
        None => Seq::empty(),
    }
}

/// The fragment of a decoded chunk is the one its document carries.
pub proof fn lemma_fragment_of_document(v: JsonValue, c: ChatCompletionChunk)
    requires
        ChatCompletionChunk::decodes_to(v, c),
    ensures
        content_fragment(c) == json_fragment(v),
{
    let items = spec_choice_items(v)->0;
    if items.len() > 0 {
        assert(CompletionChoice::json_decodes_to(items[0], c.choices@[0]));
    }
}

/// Joins the ordinary content of the first choice of each chunk, in order;
/// reasoning fragments are left out.
pub fn concat_content(chunks: &Vec<ChatCompletionChunk>) -> (r: String)
    ensures
        r@ == spelled_message(chunks@),
{
    let mut out = String::new();
    let mut i: usize = 0;
    while i < chunks.len()
        invariant
            i <= chunks@.len(),
            out@ == spelled_message(chunks@.subrange(0, i as int)),
        decreases chunks@.len() - i,
    {
        let c = &chunks[i];
        proof {
            let pre = chunks@.subrange(0, i + 1);
            assert(pre.drop_last() =~= chunks@.subrange(0, i as int));
            assert(pre.last() == *c);
        }
        if c.choices.len() > 0 {
            match &c.choices[0].delta.content {
                Some(CompletionContent::Content(t)) => out.append(t.as_str()),
                _ => {},
            }
        }
        i = i + 1;
    }
    assert(chunks@.subrange(0, chunks@.len() as int) =~= chunks@);
    out
}

/// A chunk whose vendor-specific members (`system_fingerprint`, `usage`) are
/// missing or null still decodes, with those fields absent.
pub proof fn lemma_vendor_fields_optional(v: JsonValue)
    requires
        spec_req_string(v, "id"@) is Some,
        spec_req_u64(v, "created"@) is Some,
        spec_req_string(v, "model"@) is Some,
        spec_req_string(v, "object"@) is Some,
        spec_choice_items(v) is Some,
        list_decodable::<CompletionChoice>(spec_choice_items(v)->0),
        v.field("system_fingerprint"@) is None || v.field("system_fingerprint"@) == Some(JsonValue::Null),
        v.field("usage"@) is None || v.field("usage"@) == Some(JsonValue::Null),
    ensures
        ChatCompletionChunk::decodable(v),
        forall|c: ChatCompletionChunk|
            #[trigger] ChatCompletionChunk::decodes_to(v, c) ==> c.system_fingerprint is None && c.usage is None,
{
}

/// Taking the vendor-specific members `system_fingerprint` and `usage` out of
/// a chunk keeps it a chunk: the same one, with those two fields absent.
pub proof fn lemma_vendor_fields_removed(v: JsonValue, c: ChatCompletionChunk, v2: JsonValue)
    requires
        ChatCompletionChunk::decodable(v),
        ChatCompletionChunk::decodes_to(v, c),
        v is Object,
        v2 is Object,
        v2->Object_0@ == without_key(without_key(v->Object_0@, "system_fingerprint"@), "usage"@),
    ensures
        ChatCompletionChunk::decodable(v2),
        ChatCompletionChunk::decodes_to(
            v2,
            ChatCompletionChunk {
                id: c.id,
                choices: c.choices,
                created: c.created,
                model: c.model,
                object: c.object,
                system_fingerprint: None,
                usage: None,
            },
        ),
{
    let ms = v->Object_0@;
    let ms1 = without_key(ms, "system_fingerprint"@);
    reveal_strlit("system_fingerprint");
    reveal_strlit("usage");
    reveal_strlit("id");
    reveal_strlit("created");
    reveal_strlit("model");
    reveal_strlit("object");
    reveal_strlit("choices");
    assert("id"@.len() == 2 && "usage"@.len() == 5 && "system_fingerprint"@.len() == 18);
    assert("model"@[0] == 'm' && "usage"@[0] == 'u');
    assert("id"@ != "usage"@ && "id"@ != "system_fingerprint"@);
    assert("created"@ != "usage"@ && "created"@ != "system_fingerprint"@);
    assert("model"@ != "usage"@ && "model"@ != "system_fingerprint"@);
    assert("object"@ != "usage"@ && "object"@ != "system_fingerprint"@);
    assert("choices"@ != "usage"@ && "choices"@ != "system_fingerprint"@);
    assert("system_fingerprint"@ != "usage"@);
    lemma_without_key(ms, "system_fingerprint"@, "id"@);
    lemma_without_key(ms1, "usage"@, "id"@);
    lemma_without_key(ms, "system_fingerprint"@, "created"@);
    lemma_without_key(ms1, "usage"@, "created"@);
    lemma_without_key(ms, "system_fingerprint"@, "model"@);
    lemma_without_key(ms1, "usage"@, "model"@);
    lemma_without_key(ms, "system_fingerprint"@, "object"@);
    lemma_without_key(ms1, "usage"@, "object"@);
    lemma_without_key(ms, "system_fingerprint"@, "choices"@);
    lemma_without_key(ms1, "usage"@, "choices"@);
    lemma_without_key(ms, "system_fingerprint"@, "system_fingerprint"@);
    lemma_without_key(ms1, "usage"@, "system_fingerprint"@);
    lemma_without_key(ms, "system_fingerprint"@, "usage"@);
    lemma_without_key(ms1, "usage"@, "usage"@);
    let items = spec_choice_items(v)->0;
    assert(spec_choice_items(v2) == Some(items));
}

impl std::str::FromStr for ChatCompletionChunk {
    type Err = OapiError;

    fn from_str(text: &str) -> Result<ChatCompletionChunk, OapiError> {
        ChatCompletionChunk::parse_string(text)
    }
}

} // verus!
