//! The request schema of chat completions and its JSON form.
//!
//! Every type turns into the JSON tree that is posted; each contract names
//! the members of that tree, in order, and what each of them holds. Absent
//! optional fields are left out rather than sent as null.
use crate::json::{
    has_member_with, is_integer_of, is_number_of, is_text, key_if, keys_of,
    lemma_seq_has_concat, list_fits, list_into_json, object_keys, push_member, push_opt_bool,
    push_opt_text, push_opt_u64, seq_has, text_value, IntoJson, JsonMember, JsonValue,
};
use crate::errors::OapiError;
use crate::json::{is_json_number, is_json_number_text};
use crate::rest::post::Post;
use vstd::prelude::*;

verus! {

/// Whether `v` has the member `key` holding the string `s`.
pub open spec fn text_member(v: JsonValue, key: Seq<char>, s: String) -> bool {
    has_member_with(v, key, |x: JsonValue| x == JsonValue::Str(s))
}

/// Whether `v` has the member `key` holding `s`, when there is an `s`.
pub open spec fn opt_text_member(v: JsonValue, key: Seq<char>, s: Option<String>) -> bool {
    s is Some ==> text_member(v, key, s->0)
}

/// Whether `v` has the member `key` holding the boolean `b`, when there is one.
pub open spec fn opt_bool_member(v: JsonValue, key: Seq<char>, b: Option<bool>) -> bool {
    b is Some ==> has_member_with(v, key, |x: JsonValue| x == JsonValue::Bool(b->0))
}

/// Whether a flag is unset, in which case it is not sent.
#[inline]
pub fn is_false(value: &bool) -> (r: bool)
    ensures
        r == !*value,
{
    !*value
}

/// The function that an assistant's tool call invokes.
#[derive(Debug, Clone, PartialEq, Eq)]
pub struct ToolCallFunction {
    /// The arguments, as JSON text written by the model.
    pub arguments: String,
    pub name: String,
}

impl IntoJson for ToolCallFunction {
    open spec fn json_fits(&self, v: JsonValue) -> bool {
        &&& object_keys(v) == seq!["arguments"@, "name"@]
        &&& text_member(v, "arguments"@, self.arguments)
        &&& text_member(v, "name"@, self.name)
    }

    fn into_json(self) -> (r: JsonValue) {
        let mut ms: Vec<JsonMember> = Vec::new();
        push_member(&mut ms, "arguments", JsonValue::Str(self.arguments));
        push_member(&mut ms, "name", JsonValue::Str(self.name));
        assert(keys_of(ms@) =~= seq!["arguments"@, "name"@]);
        assert(ms@[0].key@ == "arguments"@ && ms@[1].key@ == "name"@);
        JsonValue::Object(ms)
    }
}

/// The custom tool that an assistant's tool call invokes.
#[derive(Debug, Clone, PartialEq, Eq)]
pub struct ToolCallCustom {
    /// The input written by the model.
    pub input: String,
    pub name: String,
}

impl IntoJson for ToolCallCustom {
    open spec fn json_fits(&self, v: JsonValue) -> bool {
        &&& object_keys(v) == seq!["input"@, "name"@]
        &&& text_member(v, "input"@, self.input)
        &&& text_member(v, "name"@, self.name)
    }

    fn into_json(self) -> (r: JsonValue) {
        let mut ms: Vec<JsonMember> = Vec::new();
        push_member(&mut ms, "input", JsonValue::Str(self.input));
        push_member(&mut ms, "name", JsonValue::Str(self.name));
        assert(keys_of(ms@) =~= seq!["input"@, "name"@]);
        assert(ms@[0].key@ == "input"@ && ms@[1].key@ == "name"@);
        JsonValue::Object(ms)
    }
}

/// A tool call of an earlier assistant message, tagged by `type`.
#[derive(Debug, Clone, PartialEq, Eq)]
pub enum AssistantToolCall {
    Function { id: String, function: ToolCallFunction },
    Custom { id: String, custom: ToolCallCustom },
}

impl IntoJson for AssistantToolCall {
    open spec fn json_fits(&self, v: JsonValue) -> bool {
        match self {
            AssistantToolCall::Function { id, function } => {
                &&& object_keys(v) == seq!["id"@, "type"@, "function"@]
                &&& text_member(v, "id"@, *id)
                &&& has_member_with(v, "type"@, |x: JsonValue| is_text(x, "function"@))
                &&& has_member_with(v, "function"@, |x: JsonValue| function.json_fits(x))
            },
            AssistantToolCall::Custom { id, custom } => {
                &&& object_keys(v) == seq!["id"@, "type"@, "custom"@]
                &&& text_member(v, "id"@, *id)
                &&& has_member_with(v, "type"@, |x: JsonValue| is_text(x, "custom"@))
                &&& has_member_with(v, "custom"@, |x: JsonValue| custom.json_fits(x))
            },
        }
    }

    fn into_json(self) -> (r: JsonValue) {
        let mut ms: Vec<JsonMember> = Vec::new();
        match self {
            AssistantToolCall::Function { id, function } => {
                push_member(&mut ms, "id", JsonValue::Str(id));
                push_member(&mut ms, "type", text_value("function"));
                push_member(&mut ms, "function", function.into_json());
                assert(keys_of(ms@) =~= seq!["id"@, "type"@, "function"@]);
                assert(ms@[0].key@ == "id"@ && ms@[1].key@ == "type"@ && ms@[2].key@ == "function"@);
            },
            AssistantToolCall::Custom { id, custom } => {
                push_member(&mut ms, "id", JsonValue::Str(id));
                push_member(&mut ms, "type", text_value("custom"));
                push_member(&mut ms, "custom", custom.into_json());
                assert(keys_of(ms@) =~= seq!["id"@, "type"@, "custom"@]);
                assert(ms@[0].key@ == "id"@ && ms@[1].key@ == "type"@ && ms@[2].key@ == "custom"@);
            },
        }
        JsonValue::Object(ms)
    }
}

/// One message of a conversation, tagged by `role`.
#[derive(Debug, Clone, PartialEq, Eq)]
#[allow(inconsistent_fields)]
pub enum Message {
    System { content: String, name: Option<String> },
    User { content: String, name: Option<String> },
    /// An earlier reply of the model, or the prefix it is to continue.
    Assistant {
        content: Option<String>,
        refusal: Option<String>,
        name: Option<String>,
        /// Continue this message rather than answer it; sent only when set.
        prefix: bool,
        /// The reasoning trace for a prefix continuation (DeepSeek).
        reasoning_content: Option<String>,
        tool_calls: Option<Vec<AssistantToolCall>>,
    },
    Tool { content: String, tool_call_id: String },
    Function { content: String, name: String },
    Developer { content: String, name: Option<String> },
}

/// Whether `v` is a message with the role `role`, the string content
/// `content` and the optional `name`.
pub open spec fn plain_message_fits(v: JsonValue, role: Seq<char>, content: String, name: Option<String>) -> bool {
    &&& object_keys(v) == seq!["role"@, "content"@] + key_if(name is Some, "name"@)
    &&& has_member_with(v, "role"@, |x: JsonValue| is_text(x, role))
    &&& text_member(v, "content"@, content)
    &&& opt_text_member(v, "name"@, name)
}

impl Message {
    /// The JSON form of a message with a plain string content.
    fn plain_json(role: &str, content: String, name: Option<String>) -> (r: JsonValue)
        ensures
            plain_message_fits(r, role@, content, name),
    {
        let ghost name_g = name;
        let mut ms: Vec<JsonMember> = Vec::new();
        push_member(&mut ms, "role", text_value(role));
        push_member(&mut ms, "content", JsonValue::Str(content));
        push_opt_text(&mut ms, "name", name);
        proof {
            assert(keys_of(ms@) =~= seq!["role"@, "content"@] + key_if(name_g is Some, "name"@));
            assert(ms@[0].key@ == "role"@ && ms@[1].key@ == "content"@);
            if name_g is Some {
                assert(ms@[2].key@ == "name"@);
            }
        }
        JsonValue::Object(ms)
    }
}

impl IntoJson for Message {
    open spec fn json_fits(&self, v: JsonValue) -> bool {
        match self {
            Message::System { content, name } => plain_message_fits(v, "system"@, *content, *name),
            Message::User { content, name } => plain_message_fits(v, "user"@, *content, *name),
            Message::Developer { content, name } => plain_message_fits(v, "developer"@, *content, *name),
            Message::Tool { content, tool_call_id } => {
                &&& object_keys(v) == seq!["role"@, "content"@, "tool_call_id"@]
                &&& has_member_with(v, "role"@, |x: JsonValue| is_text(x, "tool"@))
                &&& text_member(v, "content"@, *content)
                &&& text_member(v, "tool_call_id"@, *tool_call_id)
            },
            Message::Function { content, name } => {
                &&& object_keys(v) == seq!["role"@, "content"@, "name"@]
                &&& has_member_with(v, "role"@, |x: JsonValue| is_text(x, "function"@))
                &&& text_member(v, "content"@, *content)
                &&& text_member(v, "name"@, *name)
            },
            Message::Assistant { content, refusal, name, prefix, reasoning_content, tool_calls } => {
                &&& object_keys(v) == seq!["role"@, "content"@] + key_if(refusal is Some, "refusal"@)
                    + key_if(name is Some, "name"@) + key_if(*prefix, "prefix"@) + key_if(
                    reasoning_content is Some,
                    "reasoning_content"@,
                ) + key_if(tool_calls is Some, "tool_calls"@)
                &&& has_member_with(v, "role"@, |x: JsonValue| is_text(x, "assistant"@))
                &&& content is Some ==> text_member(v, "content"@, content->0)
                &&& content is None ==> has_member_with(v, "content"@, |x: JsonValue| x == JsonValue::Null)
                &&& opt_text_member(v, "refusal"@, *refusal)
                &&& opt_text_member(v, "name"@, *name)
                &&& *prefix ==> has_member_with(v, "prefix"@, |x: JsonValue| x == JsonValue::Bool(true))
                &&& opt_text_member(v, "reasoning_content"@, *reasoning_content)
                &&& tool_calls is Some ==> has_member_with(
                    v,
                    "tool_calls"@,
                    |x: JsonValue| list_fits(tool_calls->0@, x),
                )
            },
        }
    }

    fn into_json(self) -> (r: JsonValue) {
        match self {
            Message::System { content, name } => Message::plain_json("system", content, name),
            Message::User { content, name } => Message::plain_json("user", content, name),
            Message::Developer { content, name } => Message::plain_json("developer", content, name),
            Message::Tool { content, tool_call_id } => {
                let mut ms: Vec<JsonMember> = Vec::new();
                push_member(&mut ms, "role", text_value("tool"));
                push_member(&mut ms, "content", JsonValue::Str(content));
                push_member(&mut ms, "tool_call_id", JsonValue::Str(tool_call_id));
                assert(keys_of(ms@) =~= seq!["role"@, "content"@, "tool_call_id"@]);
                assert(ms@[0].key@ == "role"@ && ms@[1].key@ == "content"@ && ms@[2].key@ == "tool_call_id"@);
                JsonValue::Object(ms)
            },
            Message::Function { content, name } => {
                let mut ms: Vec<JsonMember> = Vec::new();
                push_member(&mut ms, "role", text_value("function"));
                push_member(&mut ms, "content", JsonValue::Str(content));
                push_member(&mut ms, "name", JsonValue::Str(name));
                assert(keys_of(ms@) =~= seq!["role"@, "content"@, "name"@]);
                assert(ms@[0].key@ == "role"@ && ms@[1].key@ == "content"@ && ms@[2].key@ == "name"@);
                JsonValue::Object(ms)
            },
            Message::Assistant { content, refusal, name, prefix, reasoning_content, tool_calls } => {
                let ghost has_calls = tool_calls is Some;
                let ghost calls = tool_calls;
                let ghost refusal_g = refusal;
                let ghost name_g = name;
                let ghost reasoning_g = reasoning_content;
                let mut ms: Vec<JsonMember> = Vec::new();
                push_member(&mut ms, "role", text_value("assistant"));
                let content_value = match content {
                    Some(c) => JsonValue::Str(c),
                    None => JsonValue::Null,
                };
                push_member(&mut ms, "content", content_value);
                let ghost i_refusal = ms@.len();
                push_opt_text(&mut ms, "refusal", refusal);
                let ghost i_name = ms@.len();
                push_opt_text(&mut ms, "name", name);
                let ghost i_prefix = ms@.len();
                if !is_false(&prefix) {
                    push_member(&mut ms, "prefix", JsonValue::Bool(true));
                }
                let ghost i_reasoning = ms@.len();
                push_opt_text(&mut ms, "reasoning_content", reasoning_content);
                let ghost i_calls = ms@.len();
                match tool_calls {
                    Some(calls) => push_member(&mut ms, "tool_calls", list_into_json(calls)),
                    None => {},
                }
                proof {
                    assert(keys_of(ms@) =~= seq!["role"@, "content"@] + key_if(refusal_g is Some, "refusal"@)
                        + key_if(name_g is Some, "name"@) + key_if(prefix, "prefix"@) + key_if(
                        reasoning_g is Some,
                        "reasoning_content"@,
                    ) + key_if(has_calls, "tool_calls"@));
                    assert(ms@[0].key@ == "role"@ && ms@[1].key@ == "content"@);
                    if refusal_g is Some {
                        assert(ms@[i_refusal as int].key@ == "refusal"@);
                    }
                    if name_g is Some {
                        assert(ms@[i_name as int].key@ == "name"@);
                    }
                    if prefix {
                        assert(ms@[i_prefix as int].key@ == "prefix"@);
                    }
                    if reasoning_g is Some {
                        assert(ms@[i_reasoning as int].key@ == "reasoning_content"@);
                    }
                    if has_calls {
                        assert(ms@[i_calls as int].key@ == "tool_calls"@);
                        assert(list_fits(calls->0@, ms@[i_calls as int].value));
                    }
                }
                JsonValue::Object(ms)
            },
        }
    }
}

/// Where generation stops: one sequence, or several.
#[derive(Debug, Clone, PartialEq, Eq)]
pub enum StopKeywords {
    Word(String),
    Words(Vec<String>),
}

impl IntoJson for StopKeywords {
    open spec fn json_fits(&self, v: JsonValue) -> bool {
        match self {
            StopKeywords::Word(w) => v == JsonValue::Str(*w),
            StopKeywords::Words(ws) => list_fits(ws@, v),
        }
    }

    fn into_json(self) -> (r: JsonValue) {
        match self {
            StopKeywords::Word(w) => JsonValue::Str(w),
            StopKeywords::Words(ws) => list_into_json(ws),
        }
    }
}

/// Options of a streamed response.
#[derive(Debug, Clone, Copy, PartialEq, Eq, Structural)]
pub struct StreamOptions {
    /// Ask for a final chunk with the usage of the whole request.
    pub include_usage: bool,
}

impl IntoJson for StreamOptions {
    open spec fn json_fits(&self, v: JsonValue) -> bool {
        &&& object_keys(v) == seq!["include_usage"@]
        &&& has_member_with(v, "include_usage"@, |x: JsonValue| x == JsonValue::Bool(self.include_usage))
    }

    fn into_json(self) -> (r: JsonValue) {
        let mut ms: Vec<JsonMember> = Vec::new();
        push_member(&mut ms, "include_usage", JsonValue::Bool(self.include_usage));
        assert(keys_of(ms@) =~= seq!["include_usage"@]);
        assert(ms@[0].key@ == "include_usage"@);
        JsonValue::Object(ms)
    }
}

/// A function the model may call.
#[derive(Debug)]
pub struct ToolFunction {
    pub name: String,
    pub description: String,
    /// The parameters, as a JSON Schema object.
    pub parameters: JsonValue,
    /// Whether the model must follow the schema exactly.
    pub strict: Option<bool>,
}

impl IntoJson for ToolFunction {
    open spec fn json_fits(&self, v: JsonValue) -> bool {
        &&& object_keys(v) == seq!["name"@, "description"@, "parameters"@] + key_if(
            self.strict is Some,
            "strict"@,
        )
        &&& text_member(v, "name"@, self.name)
        &&& text_member(v, "description"@, self.description)
        &&& has_member_with(v, "parameters"@, |x: JsonValue| x == self.parameters)
        &&& opt_bool_member(v, "strict"@, self.strict)
    }

    fn into_json(self) -> (r: JsonValue) {
        let ghost strict = self.strict;
        let mut ms: Vec<JsonMember> = Vec::new();
        push_member(&mut ms, "name", JsonValue::Str(self.name));
        push_member(&mut ms, "description", JsonValue::Str(self.description));
        push_member(&mut ms, "parameters", self.parameters);
        push_opt_bool(&mut ms, "strict", self.strict);
        proof {
            assert(keys_of(ms@) =~= seq!["name"@, "description"@, "parameters"@] + key_if(
                strict is Some,
                "strict"@,
            ));
            assert(ms@[0].key@ == "name"@ && ms@[1].key@ == "description"@ && ms@[2].key@ == "parameters"@);
            if strict is Some {
                assert(ms@[3].key@ == "strict"@);
            }
        }
        JsonValue::Object(ms)
    }
}

/// The syntax of a grammar.
#[derive(Debug, Clone, Copy, PartialEq, Eq, Structural)]
pub enum ToolCustomFormatGrammarGrammarSyntax {
    Lark,
    Regex,
}

impl IntoJson for ToolCustomFormatGrammarGrammarSyntax {
    open spec fn json_fits(&self, v: JsonValue) -> bool {
        match self {
            ToolCustomFormatGrammarGrammarSyntax::Lark => is_text(v, "lark"@),
            ToolCustomFormatGrammarGrammarSyntax::Regex => is_text(v, "regex"@),
        }
    }

    fn into_json(self) -> (r: JsonValue) {
        match self {
            ToolCustomFormatGrammarGrammarSyntax::Lark => text_value("lark"),
            ToolCustomFormatGrammarGrammarSyntax::Regex => text_value("regex"),
        }
    }
}

/// A grammar that constrains the input of a custom tool.
#[derive(Debug, Clone, PartialEq, Eq)]
pub struct ToolCustomFormatGrammarGrammar {
    pub definition: String,
    pub syntax: ToolCustomFormatGrammarGrammarSyntax,
}

impl IntoJson for ToolCustomFormatGrammarGrammar {
    open spec fn json_fits(&self, v: JsonValue) -> bool {
        &&& object_keys(v) == seq!["definition"@, "syntax"@]
        &&& text_member(v, "definition"@, self.definition)
        &&& has_member_with(v, "syntax"@, |x: JsonValue| self.syntax.json_fits(x))
    }

    fn into_json(self) -> (r: JsonValue) {
        let mut ms: Vec<JsonMember> = Vec::new();
        push_member(&mut ms, "definition", JsonValue::Str(self.definition));
        push_member(&mut ms, "syntax", self.syntax.into_json());
        assert(keys_of(ms@) =~= seq!["definition"@, "syntax"@]);
        assert(ms@[0].key@ == "definition"@ && ms@[1].key@ == "syntax"@);
        JsonValue::Object(ms)
    }
}

/// The input format of a custom tool, tagged by `type`.
#[derive(Debug, Clone, PartialEq, Eq)]
pub enum ToolCustomFormat {
    /// Unconstrained text.
    CustomFormatText,
    /// Text that a grammar accepts.
    CustomFormatGrammar { grammar: ToolCustomFormatGrammarGrammar },
}

impl IntoJson for ToolCustomFormat {
    open spec fn json_fits(&self, v: JsonValue) -> bool {
        match self {
            ToolCustomFormat::CustomFormatText => {
                &&& object_keys(v) == seq!["type"@]
                &&& has_member_with(v, "type"@, |x: JsonValue| is_text(x, "text"@))
            },
            ToolCustomFormat::CustomFormatGrammar { grammar } => {
                &&& object_keys(v) == seq!["type"@, "grammar"@]
                &&& has_member_with(v, "type"@, |x: JsonValue| is_text(x, "grammar"@))
                &&& has_member_with(v, "grammar"@, |x: JsonValue| grammar.json_fits(x))
            },
        }
    }

    fn into_json(self) -> (r: JsonValue) {
        let mut ms: Vec<JsonMember> = Vec::new();
        match self {
            ToolCustomFormat::CustomFormatText => {
                push_member(&mut ms, "type", text_value("text"));
                assert(keys_of(ms@) =~= seq!["type"@]);
                assert(ms@[0].key@ == "type"@);
            },
            ToolCustomFormat::CustomFormatGrammar { grammar } => {
                push_member(&mut ms, "type", text_value("grammar"));
                push_member(&mut ms, "grammar", grammar.into_json());
                assert(keys_of(ms@) =~= seq!["type"@, "grammar"@]);
                assert(ms@[0].key@ == "type"@ && ms@[1].key@ == "grammar"@);
            },
        }
        JsonValue::Object(ms)
    }
}

/// A custom tool the model may call.
#[derive(Debug, Clone, PartialEq, Eq)]
pub struct ToolCustom {
    pub name: String,
    pub description: String,
    pub format: ToolCustomFormat,
}

impl IntoJson for ToolCustom {
    open spec fn json_fits(&self, v: JsonValue) -> bool {
        &&& object_keys(v) == seq!["name"@, "description"@, "format"@]
        &&& text_member(v, "name"@, self.name)
        &&& text_member(v, "description"@, self.description)
        &&& has_member_with(v, "format"@, |x: JsonValue| self.format.json_fits(x))
    }

    fn into_json(self) -> (r: JsonValue) {
        let mut ms: Vec<JsonMember> = Vec::new();
        push_member(&mut ms, "name", JsonValue::Str(self.name));
        push_member(&mut ms, "description", JsonValue::Str(self.description));
        push_member(&mut ms, "format", self.format.into_json());
        assert(keys_of(ms@) =~= seq!["name"@, "description"@, "format"@]);
        assert(ms@[0].key@ == "name"@ && ms@[1].key@ == "description"@ && ms@[2].key@ == "format"@);
        JsonValue::Object(ms)
    }
}

/// A tool the model may call, tagged by `type`.
#[derive(Debug)]
pub enum RequestTool {
    Function { function: ToolFunction },
    Custom { custom: ToolCustom },
}

impl IntoJson for RequestTool {
    open spec fn json_fits(&self, v: JsonValue) -> bool {
        match self {
            RequestTool::Function { function } => {
                &&& object_keys(v) == seq!["type"@, "function"@]
                &&& has_member_with(v, "type"@, |x: JsonValue| is_text(x, "function"@))
                &&& has_member_with(v, "function"@, |x: JsonValue| function.json_fits(x))
            },
            RequestTool::Custom { custom } => {
                &&& object_keys(v) == seq!["type"@, "custom"@]
                &&& has_member_with(v, "type"@, |x: JsonValue| is_text(x, "custom"@))
                &&& has_member_with(v, "custom"@, |x: JsonValue| custom.json_fits(x))
            },
        }
    }

    fn into_json(self) -> (r: JsonValue) {
        let mut ms: Vec<JsonMember> = Vec::new();
        match self {
            RequestTool::Function { function } => {
                push_member(&mut ms, "type", text_value("function"));
                push_member(&mut ms, "function", function.into_json());
                assert(keys_of(ms@) =~= seq!["type"@, "function"@]);
                assert(ms@[0].key@ == "type"@ && ms@[1].key@ == "function"@);
            },
            RequestTool::Custom { custom } => {
                push_member(&mut ms, "type", text_value("custom"));
                push_member(&mut ms, "custom", custom.into_json());
                assert(keys_of(ms@) =~= seq!["type"@, "custom"@]);
                assert(ms@[0].key@ == "type"@ && ms@[1].key@ == "custom"@);
            },
        }
        JsonValue::Object(ms)
    }
}

/// The function that a tool choice names.
#[derive(Debug, Clone, PartialEq, Eq)]
pub struct ToolChoiceFunction {
    pub name: String,
}

/// The custom tool that a tool choice names.
#[derive(Debug, Clone, PartialEq, Eq)]
pub struct ToolChoiceCustom {
    pub name: String,
}

/// The object `{"name": name}`.
fn name_object(name: String) -> (r: JsonValue)
    ensures
        object_keys(r) == seq!["name"@],
        text_member(r, "name"@, name),
{
    let mut ms: Vec<JsonMember> = Vec::new();
    push_member(&mut ms, "name", JsonValue::Str(name));
    assert(keys_of(ms@) =~= seq!["name"@]);
    assert(ms@[0].key@ == "name"@);
    JsonValue::Object(ms)
}

/// How the model may use the allowed tools.
#[derive(Debug, Clone, Copy, PartialEq, Eq, Structural)]
pub enum ToolChoiceAllowedToolsMode {
    /// The model may pick among the allowed tools or answer with a message.
    Auto,
    /// The model must call at least one of the allowed tools.
    Required,
}

impl IntoJson for ToolChoiceAllowedToolsMode {
    open spec fn json_fits(&self, v: JsonValue) -> bool {
        match self {
            ToolChoiceAllowedToolsMode::Auto => is_text(v, "auto"@),
            ToolChoiceAllowedToolsMode::Required => is_text(v, "required"@),
        }
    }

    fn into_json(self) -> (r: JsonValue) {
        match self {
            ToolChoiceAllowedToolsMode::Auto => text_value("auto"),
            ToolChoiceAllowedToolsMode::Required => text_value("required"),
        }
    }
}

/// A subset of the tools that the model is restricted to.
#[derive(Debug)]
pub struct ToolChoiceAllowedTools {
    pub mode: ToolChoiceAllowedToolsMode,
    /// Tool definitions such as `{"type": "function", "function": {"name": "get_time"}}`.
    pub tools: Vec<JsonValue>,
}

impl IntoJson for ToolChoiceAllowedTools {
    open spec fn json_fits(&self, v: JsonValue) -> bool {
        &&& object_keys(v) == seq!["mode"@, "tools"@]
        &&& has_member_with(v, "mode"@, |x: JsonValue| self.mode.json_fits(x))
        &&& has_member_with(v, "tools"@, |x: JsonValue| list_fits(self.tools@, x))
    }

    fn into_json(self) -> (r: JsonValue) {
        let mut ms: Vec<JsonMember> = Vec::new();
        push_member(&mut ms, "mode", self.mode.into_json());
        push_member(&mut ms, "tools", list_into_json(self.tools));
        assert(keys_of(ms@) =~= seq!["mode"@, "tools"@]);
        assert(ms@[0].key@ == "mode"@ && ms@[1].key@ == "tools"@);
        JsonValue::Object(ms)
    }
}

/// A tool choice that names tools, tagged by `type`.
#[derive(Debug)]
pub enum ToolChoiceSpecific {
    AllowedTools { allowed_tools: ToolChoiceAllowedTools },
    Function { function: ToolChoiceFunction },
    Custom { custom: ToolChoiceCustom },
}

impl IntoJson for ToolChoiceSpecific {
    open spec fn json_fits(&self, v: JsonValue) -> bool {
        match self {
            ToolChoiceSpecific::AllowedTools { allowed_tools } => {
                &&& object_keys(v) == seq!["type"@, "allowed_tools"@]
                &&& has_member_with(v, "type"@, |x: JsonValue| is_text(x, "allowed_tools"@))
                &&& has_member_with(v, "allowed_tools"@, |x: JsonValue| allowed_tools.json_fits(x))
            },
            ToolChoiceSpecific::Function { function } => {
                &&& object_keys(v) == seq!["type"@, "function"@]
                &&& has_member_with(v, "type"@, |x: JsonValue| is_text(x, "function"@))
                &&& has_member_with(
                    v,
                    "function"@,
                    |x: JsonValue| object_keys(x) == seq!["name"@] && text_member(x, "name"@, function.name),
                )
            },
            ToolChoiceSpecific::Custom { custom } => {
                &&& object_keys(v) == seq!["type"@, "custom"@]
                &&& has_member_with(v, "type"@, |x: JsonValue| is_text(x, "custom"@))
                &&& has_member_with(
                    v,
                    "custom"@,
                    |x: JsonValue| object_keys(x) == seq!["name"@] && text_member(x, "name"@, custom.name),
                )
            },
        }
    }

    fn into_json(self) -> (r: JsonValue) {
        let mut ms: Vec<JsonMember> = Vec::new();
        match self {
            ToolChoiceSpecific::AllowedTools { allowed_tools } => {
                push_member(&mut ms, "type", text_value("allowed_tools"));
                push_member(&mut ms, "allowed_tools", allowed_tools.into_json());
                assert(keys_of(ms@) =~= seq!["type"@, "allowed_tools"@]);
                assert(ms@[0].key@ == "type"@ && ms@[1].key@ == "allowed_tools"@);
            },
            ToolChoiceSpecific::Function { function } => {
                push_member(&mut ms, "type", text_value("function"));
                push_member(&mut ms, "function", name_object(function.name));
                assert(keys_of(ms@) =~= seq!["type"@, "function"@]);
                assert(ms@[0].key@ == "type"@ && ms@[1].key@ == "function"@);
            },
            ToolChoiceSpecific::Custom { custom } => {
                push_member(&mut ms, "type", text_value("custom"));
                push_member(&mut ms, "custom", name_object(custom.name));
                assert(keys_of(ms@) =~= seq!["type"@, "custom"@]);
                assert(ms@[0].key@ == "type"@ && ms@[1].key@ == "custom"@);
            },
        }
        JsonValue::Object(ms)
    }
}

/// Which tool, if any, the model calls: a bare word, or an object that names
/// tools.
#[derive(Debug)]
pub enum ToolChoice {
    /// The model calls no tool; sent as `none`.
    NoTool,
    Auto,
    Required,
    Specific(ToolChoiceSpecific),
}

impl IntoJson for ToolChoice {
    open spec fn json_fits(&self, v: JsonValue) -> bool {
        match self {
            ToolChoice::NoTool => is_text(v, "none"@),
            ToolChoice::Auto => is_text(v, "auto"@),
            ToolChoice::Required => is_text(v, "required"@),
            ToolChoice::Specific(s) => s.json_fits(v),
        }
    }

    fn into_json(self) -> (r: JsonValue) {
        match self {
            ToolChoice::NoTool => text_value("none"),
            ToolChoice::Auto => text_value("auto"),
            ToolChoice::Required => text_value("required"),
            ToolChoice::Specific(s) => s.into_json(),
        }
    }
}

/// A JSON Schema that Structured Outputs holds the reply to.
#[derive(Debug)]
pub struct JSONSchema {
    pub name: String,
    pub description: String,
    /// The schema, as a JSON Schema object.
    pub schema: JsonValue,
    /// Whether the reply must follow the schema exactly.
    pub strict: Option<bool>,
}

impl IntoJson for JSONSchema {
    open spec fn json_fits(&self, v: JsonValue) -> bool {
        &&& object_keys(v) == seq!["name"@, "description"@, "schema"@] + key_if(
            self.strict is Some,
            "strict"@,
        )
        &&& text_member(v, "name"@, self.name)
        &&& text_member(v, "description"@, self.description)
        &&& has_member_with(v, "schema"@, |x: JsonValue| x == self.schema)
        &&& opt_bool_member(v, "strict"@, self.strict)
    }

    fn into_json(self) -> (r: JsonValue) {
        let ghost strict = self.strict;
        let mut ms: Vec<JsonMember> = Vec::new();
        push_member(&mut ms, "name", JsonValue::Str(self.name));
        push_member(&mut ms, "description", JsonValue::Str(self.description));
        push_member(&mut ms, "schema", self.schema);
        push_opt_bool(&mut ms, "strict", self.strict);
        proof {
            assert(keys_of(ms@) =~= seq!["name"@, "description"@, "schema"@] + key_if(
                strict is Some,
                "strict"@,
            ));
            assert(ms@[0].key@ == "name"@ && ms@[1].key@ == "description"@ && ms@[2].key@ == "schema"@);
            if strict is Some {
                assert(ms@[3].key@ == "strict"@);
            }
        }
        JsonValue::Object(ms)
    }
}

/// The format the reply must take, tagged by `type`.
#[derive(Debug)]
pub enum ResponseFormat {
    JsonSchema { json_schema: JSONSchema },
    JsonObject,
    Text,
}

impl IntoJson for ResponseFormat {
    open spec fn json_fits(&self, v: JsonValue) -> bool {
        match self {
            ResponseFormat::JsonSchema { json_schema } => {
                &&& object_keys(v) == seq!["type"@, "json_schema"@]
                &&& has_member_with(v, "type"@, |x: JsonValue| is_text(x, "json_schema"@))
                &&& has_member_with(v, "json_schema"@, |x: JsonValue| json_schema.json_fits(x))
            },
            ResponseFormat::JsonObject => {
                &&& object_keys(v) == seq!["type"@]
                &&& has_member_with(v, "type"@, |x: JsonValue| is_text(x, "json_object"@))
            },
            ResponseFormat::Text => {
                &&& object_keys(v) == seq!["type"@]
                &&& has_member_with(v, "type"@, |x: JsonValue| is_text(x, "text"@))
            },
        }
    }

    fn into_json(self) -> (r: JsonValue) {
        let mut ms: Vec<JsonMember> = Vec::new();
        match self {
            ResponseFormat::JsonSchema { json_schema } => {
                push_member(&mut ms, "type", text_value("json_schema"));
                push_member(&mut ms, "json_schema", json_schema.into_json());
                assert(keys_of(ms@) =~= seq!["type"@, "json_schema"@]);
                assert(ms@[0].key@ == "type"@ && ms@[1].key@ == "json_schema"@);
            },
            ResponseFormat::JsonObject => {
                push_member(&mut ms, "type", text_value("json_object"));
                assert(keys_of(ms@) =~= seq!["type"@]);
                assert(ms@[0].key@ == "type"@);
            },
            ResponseFormat::Text => {
                push_member(&mut ms, "type", text_value("text"));
                assert(keys_of(ms@) =~= seq!["type"@]);
                assert(ms@[0].key@ == "type"@);
            },
        }
        JsonValue::Object(ms)
    }
}

/// Qwen's extensions of the request, sent at the top level of the body.
#[derive(Debug, Clone, Copy, PartialEq, Eq, Structural)]
pub struct ExtraBody {
    pub enable_thinking: Option<bool>,
    pub thinking_budget: Option<u32>,
    /// The size of the candidate set for sampling.
    pub top_k: Option<u32>,
}

impl ExtraBody {
    /// The keys it adds to the body, in order.
    pub open spec fn keys(self) -> Seq<Seq<char>> {
        key_if(self.enable_thinking is Some, "enable_thinking"@) + key_if(
            self.thinking_budget is Some,
            "thinking_budget"@,
        ) + key_if(self.top_k is Some, "top_k"@)
    }

}

/// An optional `u32` as an optional `u64`.
pub open spec fn widen(n: Option<u32>) -> Option<u64> {
    match n {
        Some(x) => Some(x as u64),
        None => None,
    }
}

fn widen_exec(n: Option<u32>) -> (r: Option<u64>)
    ensures
        r == widen(n),
{
    match n {
        Some(x) => Some(x as u64),
        None => None,
    }
}

/// Whether `ms` has the member `key` holding the string `s`.
pub open spec fn seq_text(ms: Seq<JsonMember>, key: Seq<char>, s: String) -> bool {
    seq_has(ms, key, |x: JsonValue| x == JsonValue::Str(s))
}

/// Whether `ms` has the member `key` holding `s`, when there is an `s`.
pub open spec fn seq_opt_text(ms: Seq<JsonMember>, key: Seq<char>, s: Option<String>) -> bool {
    s is Some ==> seq_text(ms, key, s->0)
}

/// Whether `ms` has the member `key` holding the number text `t`, when there
/// is one.
pub open spec fn seq_opt_decimal(ms: Seq<JsonMember>, key: Seq<char>, t: Option<String>) -> bool {
    t is Some ==> seq_has(ms, key, |x: JsonValue| x == JsonValue::Number(t->0))
}

/// Whether `ms` has the member `key` holding the number `n`, when there is one.
pub open spec fn seq_opt_number(ms: Seq<JsonMember>, key: Seq<char>, n: Option<u32>) -> bool {
    n is Some ==> seq_has(ms, key, |x: JsonValue| is_number_of(x, n->0 as int))
}

/// Whether `ms` has the member `key` holding the integer `n`, when there is one.
pub open spec fn seq_opt_integer(ms: Seq<JsonMember>, key: Seq<char>, n: Option<i64>) -> bool {
    n is Some ==> seq_has(ms, key, |x: JsonValue| is_integer_of(x, n->0 as int))
}

/// Whether `ms` has the member `key` holding the boolean `b`.
pub open spec fn seq_bool(ms: Seq<JsonMember>, key: Seq<char>, b: bool) -> bool {
    seq_has(ms, key, |x: JsonValue| x == JsonValue::Bool(b))
}

/// Whether `ms` has the member `key` holding the boolean `b`, when there is one.
pub open spec fn seq_opt_bool(ms: Seq<JsonMember>, key: Seq<char>, b: Option<bool>) -> bool {
    b is Some ==> seq_bool(ms, key, b->0)
}

/// Whether `ms` has the member `key` holding the JSON form of `t`, when there
/// is one.
pub open spec fn seq_opt_json<T: IntoJson>(ms: Seq<JsonMember>, key: Seq<char>, t: Option<T>) -> bool {
    t is Some ==> seq_has(ms, key, |x: JsonValue| t->0.json_fits(x))
}

/// Whether `ms` has the member `key` holding the array of the JSON forms of
/// `items`.
pub open spec fn seq_list<T: IntoJson>(ms: Seq<JsonMember>, key: Seq<char>, items: Seq<T>) -> bool {
    seq_has(ms, key, |x: JsonValue| list_fits(items, x))
}

/// The JSON form of an optional value, pushed when there is one.
fn push_opt_json<T: IntoJson>(ms: &mut Vec<JsonMember>, key: &str, value: Option<T>)
    ensures
        value is None ==> final(ms)@ == old(ms)@,
        value is Some ==> final(ms)@ == old(ms)@.push(final(ms)@.last()) && final(ms)@.last().key@
            == key@ && value->0.json_fits(final(ms)@.last().value),
{
    match value {
        Some(x) => push_member(ms, key, x.into_json()),
        None => {},
    }
}

/// The array of the JSON forms of an optional list, pushed when there is one.
fn push_opt_list<T: IntoJson>(ms: &mut Vec<JsonMember>, key: &str, value: Option<Vec<T>>)
    ensures
        value is None ==> final(ms)@ == old(ms)@,
        value is Some ==> final(ms)@ == old(ms)@.push(final(ms)@.last()) && final(ms)@.last().key@
            == key@ && list_fits(value->0@, final(ms)@.last().value),
{
    match value {
        Some(x) => push_member(ms, key, list_into_json(x)),
        None => {},
    }
}

/// A number given as its text, pushed when there is one.
fn push_opt_decimal(ms: &mut Vec<JsonMember>, key: &str, value: Option<String>)
    ensures
        value is None ==> final(ms)@ == old(ms)@,
        value is Some ==> final(ms)@ == old(ms)@.push(final(ms)@.last()) && final(ms)@.last().key@
            == key@ && final(ms)@.last().value == JsonValue::Number(value->0),
{
    match value {
        Some(t) => push_member(ms, key, JsonValue::Number(t)),
        None => {},
    }
}

/// The body of a chat-completion request.
///
/// Sampling parameters that take fractions (`temperature`, `top_p` and the
/// penalties) hold the decimal text of the number, such as `0.7`; a text that
/// is not a JSON number is refused before anything is sent.
#[derive(Debug)]
pub struct RequestBody {
    /// The conversation so far.
    pub messages: Vec<Message>,
    /// The model that generates the reply.
    pub model: String,
    /// Whether the reply is streamed; it must agree with the path the request
    /// is posted on.
    pub stream: bool,
    /// Between -2.0 and 2.0; positive values penalize tokens by how often they
    /// occurred so far.
    pub frequency_penalty: Option<String>,
    /// Between -2.0 and 2.0; positive values penalize tokens that occurred so far.
    pub presence_penalty: Option<String>,
    /// The largest number of generated tokens (superseded by
    /// `max_completion_tokens`).
    pub max_tokens: Option<u32>,
    /// The largest number of generated tokens, reasoning included.
    pub max_completion_tokens: Option<u32>,
    pub response_format: Option<ResponseFormat>,
    /// A stable identifier of the end user.
    pub safety_identifier: Option<String>,
    /// Asks for deterministic sampling.
    pub seed: Option<i64>,
    /// How many choices to generate.
    pub n: Option<u32>,
    /// Up to 4 sequences where generation stops.
    pub stop: Option<StopKeywords>,
    /// Only with `stream` set.
    pub stream_options: Option<StreamOptions>,
    /// Between 0 and 2; higher values make the reply more random.
    pub temperature: Option<String>,
    /// Nucleus sampling: the probability mass of the tokens considered.
    pub top_p: Option<String>,
    pub tools: Option<Vec<RequestTool>>,
    pub tool_choice: Option<ToolChoice>,
    /// Whether to return the log probabilities of the output tokens.
    pub logprobs: Option<bool>,
    /// Between 0 and 20: how many likely tokens to return at each position.
    pub top_logprobs: Option<u32>,
    /// Vendor extensions with a known shape.
    pub extra_body: Option<ExtraBody>,
    /// Any further vendor extensions, passed through as they are.
    pub extra_body_map: Option<Vec<JsonMember>>,
}

impl Default for RequestBody {
    fn default() -> (r: RequestBody)
        ensures
            r.messages@.len() == 0,
            r.model@.len() == 0,
            !r.stream,
            r.frequency_penalty is None,
            r.presence_penalty is None,
            r.max_tokens is None,
            r.max_completion_tokens is None,
            r.response_format is None,
            r.safety_identifier is None,
            r.seed is None,
            r.n is None,
            r.stop is None,
            r.stream_options is None,
            r.temperature is None,
            r.top_p is None,
            r.tools is None,
            r.tool_choice is None,
            r.logprobs is None,
            r.top_logprobs is None,
            r.extra_body is None,
            r.extra_body_map is None,
    {
        RequestBody {
            messages: Vec::new(),
            model: String::new(),
            stream: false,
            frequency_penalty: None,
            presence_penalty: None,
            max_tokens: None,
            max_completion_tokens: None,
            response_format: None,
            safety_identifier: None,
            seed: None,
            n: None,
            stop: None,
            stream_options: None,
            temperature: None,
            top_p: None,
            tools: None,
            tool_choice: None,
            logprobs: None,
            top_logprobs: None,
            extra_body: None,
            extra_body_map: None,
        }
    }
}

/// Whether an optional number text is absent or a number as JSON writes one.
pub open spec fn number_text_ok(t: Option<String>) -> bool {
    t is Some ==> is_json_number(t->0@)
}

fn check_number_text(t: &Option<String>, field: &str) -> (r: Result<(), OapiError>)
    ensures
        r is Ok <==> number_text_ok(*t),
        r matches Err(e) ==> e matches OapiError::InvalidRequest(m) && m@ == field@,
{
    match t {
        Some(s) => if is_json_number_text(s.as_str()) {
            Ok(())
        } else {
            Err(OapiError::InvalidRequest(String::from_str(field)))
        },
        None => Ok(()),
    }
}

impl Post for RequestBody {
    open spec fn spec_is_streaming(&self) -> bool {
        self.stream
    }

    /// The fractional parameters, given as text, must be JSON numbers.
    open spec fn spec_fields_valid(&self) -> bool {
        &&& number_text_ok(self.frequency_penalty)
        &&& number_text_ok(self.presence_penalty)
        &&& number_text_ok(self.temperature)
        &&& number_text_ok(self.top_p)
    }

    fn is_streaming(&self) -> (r: bool) {
        self.stream
    }

    fn check_fields(&self) -> (r: Result<(), OapiError>) {
        match check_number_text(&self.frequency_penalty, "frequency_penalty") {
            Ok(()) => {},
            Err(e) => return Err(e),
        }
        match check_number_text(&self.presence_penalty, "presence_penalty") {
            Ok(()) => {},
            Err(e) => return Err(e),
        }
        match check_number_text(&self.temperature, "temperature") {
            Ok(()) => {},
            Err(e) => return Err(e),
        }
        check_number_text(&self.top_p, "top_p")
    }
}

/// The keys of the conversation and the penalties.
pub open spec fn core_keys(fp: bool, pp: bool, mt: bool, mct: bool) -> Seq<Seq<char>> {
    seq!["messages"@, "model"@, "stream"@] + key_if(fp, "frequency_penalty"@) + key_if(pp, "presence_penalty"@)
        + key_if(mt, "max_tokens"@) + key_if(mct, "max_completion_tokens"@)
}

/// The keys of the output controls.
pub open spec fn output_keys(rf: bool, si: bool, seed: bool, n: bool, stop: bool, so: bool) -> Seq<Seq<char>> {
    key_if(rf, "response_format"@) + key_if(si, "safety_identifier"@) + key_if(seed, "seed"@) + key_if(n, "n"@)
        + key_if(stop, "stop"@) + key_if(so, "stream_options"@)
}

/// The keys of sampling, tools and log probabilities.
pub open spec fn sampling_keys(t: bool, tp: bool, tools: bool, tc: bool, lp: bool, tlp: bool) -> Seq<Seq<char>> {
    key_if(t, "temperature"@) + key_if(tp, "top_p"@) + key_if(tools, "tools"@) + key_if(tc, "tool_choice"@)
        + key_if(lp, "logprobs"@) + key_if(tlp, "top_logprobs"@)
}

#[verifier::rlimit(50)]
fn core_members(
    messages: Vec<Message>,
    model: String,
    stream: bool,
    frequency_penalty: Option<String>,
    presence_penalty: Option<String>,
    max_tokens: Option<u32>,
    max_completion_tokens: Option<u32>,
) -> (r: Vec<JsonMember>)
    ensures
        keys_of(r@) == core_keys(
            frequency_penalty is Some,
            presence_penalty is Some,
            max_tokens is Some,
            max_completion_tokens is Some,
        ),
        seq_list(r@, "messages"@, messages@),
        seq_text(r@, "model"@, model),
        seq_bool(r@, "stream"@, stream),
        seq_opt_decimal(r@, "frequency_penalty"@, frequency_penalty),
        seq_opt_decimal(r@, "presence_penalty"@, presence_penalty),
        seq_opt_number(r@, "max_tokens"@, max_tokens),
        seq_opt_number(r@, "max_completion_tokens"@, max_completion_tokens),
{
    let ghost (fp, pp, mt, mct) = (frequency_penalty, presence_penalty, max_tokens, max_completion_tokens);
    let mut ms: Vec<JsonMember> = Vec::new();
    push_member(&mut ms, "messages", list_into_json(messages));
    push_member(&mut ms, "model", JsonValue::Str(model));
    push_member(&mut ms, "stream", JsonValue::Bool(stream));
    let ghost i_fp = ms@.len();
    push_opt_decimal(&mut ms, "frequency_penalty", frequency_penalty);
    let ghost i_pp = ms@.len();
    push_opt_decimal(&mut ms, "presence_penalty", presence_penalty);
    let ghost i_mt = ms@.len();
    push_opt_u64(&mut ms, "max_tokens", widen_exec(max_tokens));
    let ghost i_mct = ms@.len();
    push_opt_u64(&mut ms, "max_completion_tokens", widen_exec(max_completion_tokens));
    proof {
        assert(keys_of(ms@) =~= core_keys(fp is Some, pp is Some, mt is Some, mct is Some));
        assert(ms@[0].key@ == "messages"@ && ms@[1].key@ == "model"@ && ms@[2].key@ == "stream"@);
        if fp is Some {
            assert(ms@[i_fp as int].key@ == "frequency_penalty"@);
        }
        if pp is Some {
            assert(ms@[i_pp as int].key@ == "presence_penalty"@);
        }
        if mt is Some {
            assert(ms@[i_mt as int].key@ == "max_tokens"@);
        }
        if mct is Some {
            assert(ms@[i_mct as int].key@ == "max_completion_tokens"@);
        }
    }
    ms
}

#[verifier::rlimit(50)]
fn output_members(
    response_format: Option<ResponseFormat>,
    safety_identifier: Option<String>,
    seed: Option<i64>,
    n: Option<u32>,
    stop: Option<StopKeywords>,
    stream_options: Option<StreamOptions>,
) -> (r: Vec<JsonMember>)
    ensures
        keys_of(r@) == output_keys(
            response_format is Some,
            safety_identifier is Some,
            seed is Some,
            n is Some,
            stop is Some,
            stream_options is Some,
        ),
        seq_opt_json(r@, "response_format"@, response_format),
        seq_opt_text(r@, "safety_identifier"@, safety_identifier),
        seq_opt_integer(r@, "seed"@, seed),
        seq_opt_number(r@, "n"@, n),
        seq_opt_json(r@, "stop"@, stop),
        seq_opt_json(r@, "stream_options"@, stream_options),
{
    let ghost (rf, si, sd, nn, st, so) = (response_format, safety_identifier, seed, n, stop, stream_options);
    let mut ms: Vec<JsonMember> = Vec::new();
    push_opt_json(&mut ms, "response_format", response_format);
    let ghost i_si = ms@.len();
    push_opt_text(&mut ms, "safety_identifier", safety_identifier);
    let ghost i_seed = ms@.len();
    match seed {
        Some(x) => push_member(&mut ms, "seed", JsonValue::Number(crate::json::i64_text(x))),
        None => {},
    }
    let ghost i_n = ms@.len();
    push_opt_u64(&mut ms, "n", widen_exec(n));
    let ghost i_stop = ms@.len();
    push_opt_json(&mut ms, "stop", stop);
    let ghost i_so = ms@.len();
    push_opt_json(&mut ms, "stream_options", stream_options);
    proof {
        assert(keys_of(ms@) =~= output_keys(
            rf is Some,
            si is Some,
            sd is Some,
            nn is Some,
            st is Some,
            so is Some,
        ));
        if rf is Some {
            assert(ms@[0].key@ == "response_format"@);
        }
        if si is Some {
            assert(ms@[i_si as int].key@ == "safety_identifier"@);
        }
        if sd is Some {
            assert(ms@[i_seed as int].key@ == "seed"@);
        }
        if nn is Some {
            assert(ms@[i_n as int].key@ == "n"@);
        }
        if st is Some {
            assert(ms@[i_stop as int].key@ == "stop"@);
        }
        if so is Some {
            assert(ms@[i_so as int].key@ == "stream_options"@);
        }
    }
    ms
}

#[verifier::rlimit(50)]
fn sampling_members(
    temperature: Option<String>,
    top_p: Option<String>,
    tools: Option<Vec<RequestTool>>,
    tool_choice: Option<ToolChoice>,
    logprobs: Option<bool>,
    top_logprobs: Option<u32>,
) -> (r: Vec<JsonMember>)
    ensures
        keys_of(r@) == sampling_keys(
            temperature is Some,
            top_p is Some,
            tools is Some,
            tool_choice is Some,
            logprobs is Some,
            top_logprobs is Some,
        ),
        seq_opt_decimal(r@, "temperature"@, temperature),
        seq_opt_decimal(r@, "top_p"@, top_p),
        tools is Some ==> seq_list(r@, "tools"@, tools->0@),
        seq_opt_json(r@, "tool_choice"@, tool_choice),
        seq_opt_bool(r@, "logprobs"@, logprobs),
        seq_opt_number(r@, "top_logprobs"@, top_logprobs),
{
    let ghost (t, tp, tl, tc, lp, tlp) = (temperature, top_p, tools, tool_choice, logprobs, top_logprobs);
    let mut ms: Vec<JsonMember> = Vec::new();
    push_opt_decimal(&mut ms, "temperature", temperature);
    let ghost i_tp = ms@.len();
    push_opt_decimal(&mut ms, "top_p", top_p);
    let ghost i_tools = ms@.len();
    push_opt_list(&mut ms, "tools", tools);
    let ghost i_tc = ms@.len();
    push_opt_json(&mut ms, "tool_choice", tool_choice);
    let ghost i_lp = ms@.len();
    push_opt_bool(&mut ms, "logprobs", logprobs);
    let ghost i_tlp = ms@.len();
    push_opt_u64(&mut ms, "top_logprobs", widen_exec(top_logprobs));
    proof {
        assert(keys_of(ms@) =~= sampling_keys(
            t is Some,
            tp is Some,
            tl is Some,
            tc is Some,
            lp is Some,
            tlp is Some,
        ));
        if t is Some {
            assert(ms@[0].key@ == "temperature"@);
        }
        if tp is Some {
            assert(ms@[i_tp as int].key@ == "top_p"@);
        }
        if tl is Some {
            assert(ms@[i_tools as int].key@ == "tools"@);
        }
        if tc is Some {
            assert(ms@[i_tc as int].key@ == "tool_choice"@);
        }
        if lp is Some {
            assert(ms@[i_lp as int].key@ == "logprobs"@);
        }
        if tlp is Some {
            assert(ms@[i_tlp as int].key@ == "top_logprobs"@);
        }
    }
    ms
}

impl ExtraBody {
    /// The members it adds to the body.
    fn members(self) -> (r: Vec<JsonMember>)
        ensures
            keys_of(r@) == self.keys(),
            seq_opt_bool(r@, "enable_thinking"@, self.enable_thinking),
            seq_opt_number(r@, "thinking_budget"@, self.thinking_budget),
            seq_opt_number(r@, "top_k"@, self.top_k),
    {
        let mut ms: Vec<JsonMember> = Vec::new();
        push_opt_bool(&mut ms, "enable_thinking", self.enable_thinking);
        let ghost i_tb = ms@.len();
        push_opt_u64(&mut ms, "thinking_budget", widen_exec(self.thinking_budget));
        let ghost i_tk = ms@.len();
        push_opt_u64(&mut ms, "top_k", widen_exec(self.top_k));
        proof {
            assert(keys_of(ms@) =~= self.keys());
            if self.enable_thinking is Some {
                assert(ms@[0].key@ == "enable_thinking"@);
            }
            if self.thinking_budget is Some {
                assert(ms@[i_tb as int].key@ == "thinking_budget"@);
            }
            if self.top_k is Some {
                assert(ms@[i_tk as int].key@ == "top_k"@);
            }
        }
        ms
    }
}

impl RequestBody {
    /// The member names of the body, in order: the documented names of the
    /// fields that are set, then those of the extensions.
    pub open spec fn spec_keys(&self) -> Seq<Seq<char>> {
        core_keys(
            self.frequency_penalty is Some,
            self.presence_penalty is Some,
            self.max_tokens is Some,
            self.max_completion_tokens is Some,
        ) + output_keys(
            self.response_format is Some,
            self.safety_identifier is Some,
            self.seed is Some,
            self.n is Some,
            self.stop is Some,
            self.stream_options is Some,
        ) + sampling_keys(
            self.temperature is Some,
            self.top_p is Some,
            self.tools is Some,
            self.tool_choice is Some,
            self.logprobs is Some,
            self.top_logprobs is Some,
        ) + (if self.extra_body is Some {
            self.extra_body->0.keys()
        } else {
            Seq::empty()
        }) + (if self.extra_body_map is Some {
            keys_of(self.extra_body_map->0@)
        } else {
            Seq::empty()
        })
    }

    /// Whether each member of `ms` holds what its field holds.
    pub open spec fn members_fit(&self, ms: Seq<JsonMember>) -> bool {
        &&& seq_list(ms, "messages"@, self.messages@)
        &&& seq_text(ms, "model"@, self.model)
        &&& seq_bool(ms, "stream"@, self.stream)
        &&& seq_opt_decimal(ms, "frequency_penalty"@, self.frequency_penalty)
        &&& seq_opt_decimal(ms, "presence_penalty"@, self.presence_penalty)
        &&& seq_opt_number(ms, "max_tokens"@, self.max_tokens)
        &&& seq_opt_number(ms, "max_completion_tokens"@, self.max_completion_tokens)
        &&& seq_opt_json(ms, "response_format"@, self.response_format)
        &&& seq_opt_text(ms, "safety_identifier"@, self.safety_identifier)
        &&& seq_opt_integer(ms, "seed"@, self.seed)
        &&& seq_opt_number(ms, "n"@, self.n)
        &&& seq_opt_json(ms, "stop"@, self.stop)
        &&& seq_opt_json(ms, "stream_options"@, self.stream_options)
        &&& seq_opt_decimal(ms, "temperature"@, self.temperature)
        &&& seq_opt_decimal(ms, "top_p"@, self.top_p)
        &&& self.tools is Some ==> seq_list(ms, "tools"@, self.tools->0@)
        &&& seq_opt_json(ms, "tool_choice"@, self.tool_choice)
        &&& seq_opt_bool(ms, "logprobs"@, self.logprobs)
        &&& seq_opt_number(ms, "top_logprobs"@, self.top_logprobs)
        &&& self.extra_body is Some ==> {
            &&& seq_opt_bool(ms, "enable_thinking"@, self.extra_body->0.enable_thinking)
            &&& seq_opt_number(ms, "thinking_budget"@, self.extra_body->0.thinking_budget)
            &&& seq_opt_number(ms, "top_k"@, self.extra_body->0.top_k)
        }
        &&& self.extra_body_map is Some ==> ms.len() >= self.extra_body_map->0@.len() && ms.subrange(
            ms.len() - self.extra_body_map->0@.len(),
            ms.len() as int,
        ) == self.extra_body_map->0@
    }
}

impl IntoJson for RequestBody {
    open spec fn json_fits(&self, v: JsonValue) -> bool {
        &&& v is Object
        &&& keys_of(v->Object_0@) == self.spec_keys()
        &&& self.members_fit(v->Object_0@)
    }

    fn into_json(self) -> (r: JsonValue) {
        let ghost g = self;
        let mut ms = core_members(
            self.messages,
            self.model,
            self.stream,
            self.frequency_penalty,
            self.presence_penalty,
            self.max_tokens,
            self.max_completion_tokens,
        );
        let mut out = output_members(
            self.response_format,
            self.safety_identifier,
            self.seed,
            self.n,
            self.stop,
            self.stream_options,
        );
        let ghost a = ms@;
        let ghost b = out@;
        ms.append(&mut out);
        proof {
            lemma_seq_has_concat(a, b);
        }
        let mut sampling = sampling_members(
            self.temperature,
            self.top_p,
            self.tools,
            self.tool_choice,
            self.logprobs,
            self.top_logprobs,
        );
        let ghost a = ms@;
        let ghost b = sampling@;
        ms.append(&mut sampling);
        proof {
            lemma_seq_has_concat(a, b);
        }
        let mut extra = match self.extra_body {
            Some(e) => e.members(),
            None => Vec::new(),
        };
        let ghost a = ms@;
        let ghost b = extra@;
        ms.append(&mut extra);
        proof {
            lemma_seq_has_concat(a, b);
            if g.extra_body is None {
                assert(keys_of(b) =~= Seq::empty());
            }
        }
        let mut map = match self.extra_body_map {
            Some(m) => m,
            None => Vec::new(),
        };
        let ghost a = ms@;
        let ghost b = map@;
        ms.append(&mut map);
        proof {
            lemma_seq_has_concat(a, b);
            if g.extra_body_map is None {
                assert(keys_of(b) =~= Seq::empty());
            } else {
                assert(ms@.subrange(ms@.len() - b.len(), ms@.len() as int) =~= b);
            }
            assert(keys_of(ms@) =~= g.spec_keys());
        }
        JsonValue::Object(ms)
    }
}

} // verus!
