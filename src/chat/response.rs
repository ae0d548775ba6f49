//! Response parts shared by the streaming and the single-response schemas.
use crate::json::{
    decode_list, number_text, opt_list, opt_list_fits, opt_list_ok, opt_usize, req_string,
    req_usize, same_text, spec_number_text, spec_opt_member, spec_opt_usize, spec_req_string,
    spec_req_usize, list_decodable, list_decodes_to, FromJson, JsonValue,
};
use vstd::prelude::*;

verus! {

/// Why the model stopped generating for one choice.
#[derive(Debug, Clone, Copy, PartialEq, Eq, Structural)]
pub enum FinishReason {
    Length,
    Stop,
    ToolCalls,
    FunctionCall,
    ContentFilter,
    /// Only found in the manual of DeepSeek.
    InsufficientSystemResource,
}

impl FinishReason {
    pub open spec fn spec_decode(v: JsonValue) -> Option<FinishReason> {
        match v {
            JsonValue::Str(s) => if s@ == "length"@ {
                Some(FinishReason::Length)
            } else if s@ == "stop"@ {
                Some(FinishReason::Stop)
            } else if s@ == "tool_calls"@ {
                Some(FinishReason::ToolCalls)
            } else if s@ == "function_call"@ {
                Some(FinishReason::FunctionCall)
            } else if s@ == "content_filter"@ {
                Some(FinishReason::ContentFilter)
            } else if s@ == "insufficient_system_resource"@ {
                Some(FinishReason::InsufficientSystemResource)
            } else {
                None
            },
            _ => None,
        }
    }

    pub fn decode(v: &JsonValue) -> (r: Option<FinishReason>)
        ensures
            r == Self::spec_decode(*v),
    {
        match v {
            JsonValue::Str(s) => {
                let s = s.as_str();
                if same_text(s, "length") {
                    Some(FinishReason::Length)
                } else if same_text(s, "stop") {
                    Some(FinishReason::Stop)
                } else if same_text(s, "tool_calls") {
                    Some(FinishReason::ToolCalls)
                } else if same_text(s, "function_call") {
                    Some(FinishReason::FunctionCall)
                } else if same_text(s, "content_filter") {
                    Some(FinishReason::ContentFilter)
                } else if same_text(s, "insufficient_system_resource") {
                    Some(FinishReason::InsufficientSystemResource)
                } else {
                    None
                }
            },
            _ => None,
        }
    }

    /// The finish reason of a streamed chunk: one of `length`, `stop`,
    /// `content_filter`, `tool_calls` and `insufficient_system_resource`;
    /// `function_call` is not among them.
    pub open spec fn spec_decode_chunk(v: JsonValue) -> Option<FinishReason> {
        match Self::spec_decode(v) {
            Some(FinishReason::FunctionCall) => None,
            other => other,
        }
    }

    pub fn decode_chunk(v: &JsonValue) -> (r: Option<FinishReason>)
        ensures
            r == Self::spec_decode_chunk(*v),
    {
        match Self::decode(v) {
            Some(FinishReason::FunctionCall) => None,
            other => other,
        }
    }
}

/// The processing tier that served a request.
#[derive(Debug, Clone, Copy, PartialEq, Eq, Structural)]
pub enum ServiceTier {
    Auto,
    Default,
    Flex,
    Scale,
    Priority,
}

impl ServiceTier {
    pub open spec fn spec_decode(v: JsonValue) -> Option<ServiceTier> {
        match v {
            JsonValue::Str(s) => if s@ == "auto"@ {
                Some(ServiceTier::Auto)
            } else if s@ == "default"@ {
                Some(ServiceTier::Default)
            } else if s@ == "flex"@ {
                Some(ServiceTier::Flex)
            } else if s@ == "scale"@ {
                Some(ServiceTier::Scale)
            } else if s@ == "priority"@ {
                Some(ServiceTier::Priority)
            } else {
                None
            },
            _ => None,
        }
    }

    pub fn decode(v: &JsonValue) -> (r: Option<ServiceTier>)
        ensures
            r == Self::spec_decode(*v),
    {
        match v {
            JsonValue::Str(s) => {
                let s = s.as_str();
                if same_text(s, "auto") {
                    Some(ServiceTier::Auto)
                } else if same_text(s, "default") {
                    Some(ServiceTier::Default)
                } else if same_text(s, "flex") {
                    Some(ServiceTier::Flex)
                } else if same_text(s, "scale") {
                    Some(ServiceTier::Scale)
                } else if same_text(s, "priority") {
                    Some(ServiceTier::Priority)
                } else {
                    None
                }
            },
            _ => None,
        }
    }
}

/// Breakdown of the tokens of a completion.
#[derive(Debug, Clone, Copy, PartialEq, Eq, Structural)]
pub struct CompletionTokensDetails {
    /// With Predicted Outputs, the predicted tokens that appeared in the
    /// completion.
    pub accepted_prediction_tokens: Option<usize>,
    /// Audio tokens generated by the model.
    pub audio_tokens: Option<usize>,
    /// Tokens generated by the model for reasoning.
    pub reasoning_tokens: Option<usize>,
    /// With Predicted Outputs, the predicted tokens that did not appear in the
    /// completion.
    pub rejected_prediction_tokens: Option<usize>,
}

impl CompletionTokensDetails {
    pub open spec fn spec_decode(v: JsonValue) -> Option<CompletionTokensDetails> {
        if v is Object
            && spec_opt_usize(v, "accepted_prediction_tokens"@) is Some
            && spec_opt_usize(v, "audio_tokens"@) is Some
            && spec_opt_usize(v, "reasoning_tokens"@) is Some
            && spec_opt_usize(v, "rejected_prediction_tokens"@) is Some
        {
            Some(CompletionTokensDetails {
                accepted_prediction_tokens: spec_opt_usize(v, "accepted_prediction_tokens"@)->0,
                audio_tokens: spec_opt_usize(v, "audio_tokens"@)->0,
                reasoning_tokens: spec_opt_usize(v, "reasoning_tokens"@)->0,
                rejected_prediction_tokens: spec_opt_usize(v, "rejected_prediction_tokens"@)->0,
            })
        } else {
            None
        }
    }

    pub fn decode(v: &JsonValue) -> (r: Option<CompletionTokensDetails>)
        ensures
            r == Self::spec_decode(*v),
    {
        if !matches!(v, JsonValue::Object(_)) {
            return None;
        }
        let accepted_prediction_tokens = match opt_usize(v, "accepted_prediction_tokens") {
            Some(x) => x,
            None => return None,
        };
        let audio_tokens = match opt_usize(v, "audio_tokens") {
            Some(x) => x,
            None => return None,
        };
        let reasoning_tokens = match opt_usize(v, "reasoning_tokens") {
            Some(x) => x,
            None => return None,
        };
        let rejected_prediction_tokens = match opt_usize(v, "rejected_prediction_tokens") {
            Some(x) => x,
            None => return None,
        };
        Some(CompletionTokensDetails {
            accepted_prediction_tokens,
            audio_tokens,
            reasoning_tokens,
            rejected_prediction_tokens,
        })
    }
}

/// Breakdown of the tokens of a prompt.
#[derive(Debug, Clone, Copy, PartialEq, Eq, Structural)]
pub struct PromptTokensDetails {
    /// Audio tokens present in the prompt.
    pub audio_tokens: Option<usize>,
    /// Cached tokens present in the prompt.
    pub cached_tokens: Option<usize>,
}

impl PromptTokensDetails {
    pub open spec fn spec_decode(v: JsonValue) -> Option<PromptTokensDetails> {
        if v is Object && spec_opt_usize(v, "audio_tokens"@) is Some && spec_opt_usize(v, "cached_tokens"@) is Some {
            Some(PromptTokensDetails {
                audio_tokens: spec_opt_usize(v, "audio_tokens"@)->0,
                cached_tokens: spec_opt_usize(v, "cached_tokens"@)->0,
            })
        } else {
            None
        }
    }

    pub fn decode(v: &JsonValue) -> (r: Option<PromptTokensDetails>)
        ensures
            r == Self::spec_decode(*v),
    {
        if !matches!(v, JsonValue::Object(_)) {
            return None;
        }
        let audio_tokens = match opt_usize(v, "audio_tokens") {
            Some(x) => x,
            None => return None,
        };
        let cached_tokens = match opt_usize(v, "cached_tokens") {
            Some(x) => x,
            None => return None,
        };
        Some(PromptTokensDetails { audio_tokens, cached_tokens })
    }
}

/// Token counts of a request; the cache counts are DeepSeek's.
#[derive(Debug, Clone, Copy, PartialEq, Eq, Structural)]
pub struct CompletionUsage {
    /// Tokens in the generated completion.
    pub completion_tokens: usize,
    /// Tokens in the prompt.
    pub prompt_tokens: usize,
    /// Tokens in the prompt that hit the context cache.
    pub prompt_cache_hit_tokens: Option<usize>,
    /// Tokens in the prompt that missed the context cache.
    pub prompt_cache_miss_tokens: Option<usize>,
    /// Tokens used in the request, prompt and completion together.
    pub total_tokens: usize,
    pub completion_tokens_details: Option<CompletionTokensDetails>,
    pub prompt_tokens_details: Option<PromptTokensDetails>,
}

impl CompletionUsage {
    pub open spec fn spec_decode(v: JsonValue) -> Option<CompletionUsage> {
        let details = spec_opt_member(
            v,
            "completion_tokens_details"@,
            |x: JsonValue| CompletionTokensDetails::spec_decode(x),
        );
        let prompt_details = spec_opt_member(
            v,
            "prompt_tokens_details"@,
            |x: JsonValue| PromptTokensDetails::spec_decode(x),
        );
        if spec_req_usize(v, "completion_tokens"@) is Some
            && spec_req_usize(v, "prompt_tokens"@) is Some
            && spec_opt_usize(v, "prompt_cache_hit_tokens"@) is Some
            && spec_opt_usize(v, "prompt_cache_miss_tokens"@) is Some
            && spec_req_usize(v, "total_tokens"@) is Some
            && details is Some
            && prompt_details is Some
        {
            Some(CompletionUsage {
                completion_tokens: spec_req_usize(v, "completion_tokens"@)->0,
                prompt_tokens: spec_req_usize(v, "prompt_tokens"@)->0,
                prompt_cache_hit_tokens: spec_opt_usize(v, "prompt_cache_hit_tokens"@)->0,
                prompt_cache_miss_tokens: spec_opt_usize(v, "prompt_cache_miss_tokens"@)->0,
                total_tokens: spec_req_usize(v, "total_tokens"@)->0,
                completion_tokens_details: details->0,
                prompt_tokens_details: prompt_details->0,
            })
        } else {
            None
        }
    }

    pub fn decode(v: &JsonValue) -> (r: Option<CompletionUsage>)
        ensures
            r == Self::spec_decode(*v),
    {
        let completion_tokens = match req_usize(v, "completion_tokens") {
            Some(x) => x,
            None => return None,
        };
        let prompt_tokens = match req_usize(v, "prompt_tokens") {
            Some(x) => x,
            None => return None,
        };
        let prompt_cache_hit_tokens = match opt_usize(v, "prompt_cache_hit_tokens") {
            Some(x) => x,
            None => return None,
        };
        let prompt_cache_miss_tokens = match opt_usize(v, "prompt_cache_miss_tokens") {
            Some(x) => x,
            None => return None,
        };
        let total_tokens = match req_usize(v, "total_tokens") {
            Some(x) => x,
            None => return None,
        };
        let completion_tokens_details = match v.get("completion_tokens_details") {
            None => None,
            Some(JsonValue::Null) => None,
            Some(x) => match CompletionTokensDetails::decode(x) {
                Some(d) => Some(d),
                None => return None,
            },
        };
        let prompt_tokens_details = match v.get("prompt_tokens_details") {
            None => None,
            Some(JsonValue::Null) => None,
            Some(x) => match PromptTokensDetails::decode(x) {
                Some(d) => Some(d),
                None => return None,
            },
        };
        Some(CompletionUsage {
            completion_tokens,
            prompt_tokens,
            prompt_cache_hit_tokens,
            prompt_cache_miss_tokens,
            total_tokens,
            completion_tokens_details,
            prompt_tokens_details,
        })
    }
}

/// One of the most likely tokens at a position.
#[derive(Debug, Clone, PartialEq, Eq)]
pub struct TopLogprob {
    pub token: String,
    /// The log probability, as the decimal text the service sent.
    pub logprob: String,
    /// The UTF-8 bytes of the token, when it has such a form.
    pub bytes: Option<Vec<u8>>,
}

impl FromJson for TopLogprob {
    open spec fn json_decodable(v: JsonValue) -> bool {
        &&& spec_req_string(v, "token"@) is Some
        &&& spec_number_text(v, "logprob"@) is Some
        &&& opt_list_ok::<u8>(v, "bytes"@)
    }

    open spec fn json_decodes_to(v: JsonValue, x: TopLogprob) -> bool {
        &&& spec_req_string(v, "token"@) == Some(x.token)
        &&& spec_number_text(v, "logprob"@) == Some(x.logprob)
        &&& opt_list_fits(v, "bytes"@, x.bytes)
    }

    fn from_json(v: &JsonValue) -> (r: Option<TopLogprob>) {
        let token = match req_string(v, "token") {
            Some(x) => x,
            None => return None,
        };
        let logprob = match number_text(v, "logprob") {
            Some(x) => x,
            None => return None,
        };
        let bytes = match opt_list(v, "bytes") {
            Some(x) => x,
            None => return None,
        };
        Some(TopLogprob { token, logprob, bytes })
    }
}

/// The log probability of one output token, with the likeliest alternatives.
#[derive(Debug, Clone, PartialEq, Eq)]
pub struct TokenLogProb {
    pub token: String,
    /// The log probability, as the decimal text the service sent (`-9999.0`
    /// for a very unlikely token).
    pub logprob: String,
    /// The UTF-8 bytes of the token, when it has such a form.
    pub bytes: Option<Vec<u8>>,
    pub top_logprobs: Vec<TopLogprob>,
}

/// The items of the member `top_logprobs`, when it is an array.
pub open spec fn spec_top_items(v: JsonValue) -> Option<Seq<JsonValue>> {
    match v.field("top_logprobs"@) {
        Some(JsonValue::Array(items)) => Some(items@),
        _ => None,
    }
}

impl FromJson for TokenLogProb {
    open spec fn json_decodable(v: JsonValue) -> bool {
        &&& spec_req_string(v, "token"@) is Some
        &&& spec_number_text(v, "logprob"@) is Some
        &&& opt_list_ok::<u8>(v, "bytes"@)
        &&& spec_top_items(v) is Some
        &&& list_decodable::<TopLogprob>(spec_top_items(v)->0)
    }

    open spec fn json_decodes_to(v: JsonValue, x: TokenLogProb) -> bool {
        &&& spec_req_string(v, "token"@) == Some(x.token)
        &&& spec_number_text(v, "logprob"@) == Some(x.logprob)
        &&& opt_list_fits(v, "bytes"@, x.bytes)
        &&& spec_top_items(v) is Some
        &&& list_decodes_to(spec_top_items(v)->0, x.top_logprobs@)
    }

    fn from_json(v: &JsonValue) -> (r: Option<TokenLogProb>) {
        let token = match req_string(v, "token") {
            Some(x) => x,
            None => return None,
        };
        let logprob = match number_text(v, "logprob") {
            Some(x) => x,
            None => return None,
        };
        let bytes = match opt_list(v, "bytes") {
            Some(x) => x,
            None => return None,
        };
        let top_logprobs = match v.get("top_logprobs") {
            Some(JsonValue::Array(items)) => match decode_list(items) {
                Some(xs) => xs,
                None => return None,
            },
            _ => return None,
        };
        Some(TokenLogProb { token, logprob, bytes, top_logprobs })
    }
}

/// Log-probability information of one choice.
#[derive(Debug, Clone, PartialEq, Eq)]
pub struct ChoiceLogprobs {
    /// The tokens of the content.
    pub content: Option<Vec<TokenLogProb>>,
    /// The tokens of the reasoning trace (DeepSeek).
    pub reasoning_content: Option<Vec<TokenLogProb>>,
    /// The tokens of a refusal.
    pub refusal: Option<Vec<TokenLogProb>>,
}

impl FromJson for ChoiceLogprobs {
    open spec fn json_decodable(v: JsonValue) -> bool {
        &&& v is Object
        &&& opt_list_ok::<TokenLogProb>(v, "content"@)
        &&& opt_list_ok::<TokenLogProb>(v, "reasoning_content"@)
        &&& opt_list_ok::<TokenLogProb>(v, "refusal"@)
    }

    open spec fn json_decodes_to(v: JsonValue, x: ChoiceLogprobs) -> bool {
        &&& opt_list_fits(v, "content"@, x.content)
        &&& opt_list_fits(v, "reasoning_content"@, x.reasoning_content)
        &&& opt_list_fits(v, "refusal"@, x.refusal)
    }

    fn from_json(v: &JsonValue) -> (r: Option<ChoiceLogprobs>) {
        if !matches!(v, JsonValue::Object(_)) {
            return None;
        }
        let content = match opt_list(v, "content") {
            Some(x) => x,
            None => return None,
        };
        let reasoning_content = match opt_list(v, "reasoning_content") {
            Some(x) => x,
            None => return None,
        };
        let refusal = match opt_list(v, "refusal") {
            Some(x) => x,
            None => return None,
        };
        Some(ChoiceLogprobs { content, reasoning_content, refusal })
    }
}

/// Whether the member `logprobs` (absent, null or an object) can be read.
pub open spec fn logprobs_ok(v: JsonValue) -> bool {
    match v.field("logprobs"@) {
        None => true,
        Some(JsonValue::Null) => true,
        Some(x) => ChoiceLogprobs::json_decodable(x),
    }
}

/// Whether `l` is what the member `logprobs` holds.
pub open spec fn logprobs_fit(v: JsonValue, l: Option<ChoiceLogprobs>) -> bool {
    match v.field("logprobs"@) {
        None => l is None,
        Some(JsonValue::Null) => l is None,
        Some(x) => l is Some && ChoiceLogprobs::json_decodes_to(x, l->0),
    }
}

/// Reads the member `logprobs`; the outer `None` means it cannot be read.
pub fn decode_logprobs(v: &JsonValue) -> (r: Option<Option<ChoiceLogprobs>>)
    ensures
        r is Some <==> logprobs_ok(*v),
        r is Some ==> logprobs_fit(*v, r->0),
{
    match v.get("logprobs") {
        None => Some(None),
        Some(JsonValue::Null) => Some(None),
        Some(x) => match ChoiceLogprobs::from_json(x) {
            Some(l) => Some(Some(l)),
            None => None,
        },
    }
}

} // verus!
