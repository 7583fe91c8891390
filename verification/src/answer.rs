//! What is done with a converted answer: it is logged, its texts are rewritten, and it is sent.
use vstd::prelude::*;
use vstd::utf8::encode_utf8;

use crate::codec::json_text;
use crate::response::{TranslatedOf, TranslatedView};
use crate::responses::{
    response_json, ItemOf, MessageOf, OutputItem, OutputPart, PartOf, ResponseOf,
};
use crate::text::{owned, text_in};
use crate::usage::ServiceTier;

verus! {

/// What is logged of an answer.
#[derive(Debug)]
pub struct LLMResponseOf<S> {
    pub input_tokens: Option<u64>,
    pub output_tokens: Option<u64>,
    pub total_tokens: Option<u64>,
    pub cached_input_tokens: Option<u64>,
    pub cache_creation_input_tokens: Option<u64>,
    pub reasoning_tokens: Option<u64>,
    pub provider_model: Option<S>,
    pub service_tier: Option<S>,
}

pub type LLMResponse = LLMResponseOf<String>;

impl View for LLMResponseOf<String> {
    type V = LLMResponseOf<Seq<char>>;

    open spec fn view(&self) -> LLMResponseOf<Seq<char>> {
        LLMResponseOf {
            input_tokens: self.input_tokens,
            output_tokens: self.output_tokens,
            total_tokens: self.total_tokens,
            cached_input_tokens: self.cached_input_tokens,
            cache_creation_input_tokens: self.cache_creation_input_tokens,
            reasoning_tokens: self.reasoning_tokens,
            provider_model: text_in(self.provider_model),
            service_tier: text_in(self.service_tier),
        }
    }
}

/// The name under which a service tier is logged.
pub open spec fn logged_tier(tier: ServiceTier) -> Seq<char> {
    match tier {
        ServiceTier::Default => "standard"@,
        ServiceTier::Priority => "priority"@,
    }
}

/// What is logged of a converted answer. The input is counted without the cache, and so is the
/// total, which is left out where it does not fit.
pub open spec fn logged(t: TranslatedView) -> LLMResponseOf<Seq<char>> {
    let output = match t.response.usage {
        Some(usage) => Some(usage.output_tokens as u64),
        None => None,
    };
    LLMResponseOf {
        input_tokens: Some(t.input_tokens),
        output_tokens: output,
        total_tokens: match output {
            Some(n) => if t.input_tokens + n <= u64::MAX {
                Some((t.input_tokens + n) as u64)
            } else {
                None
            },
            None => None,
        },
        cached_input_tokens: match t.response.usage {
            Some(usage) => Some(usage.input_tokens_details.cached_tokens as u64),
            None => None,
        },
        cache_creation_input_tokens: t.cache_creation_input_tokens,
        reasoning_tokens: t.reasoning_tokens,
        provider_model: Some(t.provider_model),
        service_tier: match t.response.service_tier {
            Some(tier) => Some(logged_tier(tier)),
            None => None,
        },
    }
}

/// Whether a text is what a function may make of another.
pub open spec fn text_visited<F: Fn(&str) -> String>(f: F, was: Seq<char>, is: String) -> bool {
    exists|s: &str| s@ == was && #[trigger] call_ensures(f, (s,), is)
}

/// Whether a part is what it was but for its text, which a function was applied to.
pub open spec fn part_visited<F: Fn(&str) -> String>(f: F, was: OutputPart, is: OutputPart) -> bool {
    match (was, is) {
        (PartOf::OutputText(a), PartOf::OutputText(b)) => text_visited(f, a@, b),
        (PartOf::Refusal(a), PartOf::Refusal(b)) => a == b,
        _ => false,
    }
}

/// Whether parts are what they were but for their texts.
pub open spec fn parts_visited<F: Fn(&str) -> String>(
    f: F,
    was: Seq<OutputPart>,
    is: Seq<OutputPart>,
) -> bool {
    was.len() == is.len() && forall|k: int|
        0 <= k < was.len() ==> #[trigger] part_visited(f, was[k], is[k])
}

/// Whether an item is what it was but for its texts.
pub open spec fn item_visited<F: Fn(&str) -> String>(f: F, was: OutputItem, is: OutputItem) -> bool {
    match (was, is) {
        (ItemOf::Message(a), ItemOf::Message(b)) => a.id == b.id && a.phase == b.phase && a.status
            == b.status && parts_visited(f, a.content@, b.content@),
        (ItemOf::Message(_), _) => false,
        _ => was == is,
    }
}

fn visit_part<F: Fn(&str) -> String>(f: &F, part: OutputPart) -> (r: OutputPart)
    requires
        forall|s: &str| #[trigger] call_requires(*f, (s,)),
    ensures
        part_visited(*f, part, r),
{
    match part {
        PartOf::OutputText(text) => {
            let s = text.as_str();
            let new = (*f)(s);
            assert(text_visited(*f, text@, new));
            PartOf::OutputText(new)
        },
        PartOf::Refusal(text) => PartOf::Refusal(text),
    }
}

fn visit_parts<F: Fn(&str) -> String>(f: &F, parts: Vec<OutputPart>) -> (r: Vec<OutputPart>)
    requires
        forall|s: &str| #[trigger] call_requires(*f, (s,)),
    ensures
        parts_visited(*f, parts@, r@),
{
    let ghost was = parts@;
    let mut rest = parts;
    let mut out: Vec<OutputPart> = Vec::new();
    while rest.len() > 0
        invariant
            forall|s: &str| #[trigger] call_requires(*f, (s,)),
            rest.len() + out.len() == was.len(),
            forall|k: int| 0 <= k < rest.len() ==> rest@[k] == was[out.len() + k],
            forall|k: int| 0 <= k < out.len() ==> #[trigger] part_visited(*f, was[k], out@[k]),
        decreases rest.len(),
    {
        let part = rest.remove(0);
        let new = visit_part(f, part);
        out.push(new);
    }
    out
}

impl TranslatedOf<String, Vec<OutputItem>> {
    /// What is logged of the answer.
    pub fn to_llm_response(&self) -> (r: LLMResponse)
        ensures
            r@ == logged(self@),
    {
        let output_tokens = match &self.response.usage {
            Some(usage) => Some(usage.output_tokens as u64),
            None => None,
        };
        LLMResponseOf {
            input_tokens: Some(self.input_tokens),
            output_tokens,
            total_tokens: match output_tokens {
                Some(n) => self.input_tokens.checked_add(n),
                None => None,
            },
            cached_input_tokens: match &self.response.usage {
                Some(usage) => Some(usage.input_tokens_details.cached_tokens as u64),
                None => None,
            },
            cache_creation_input_tokens: self.cache_creation_input_tokens,
            reasoning_tokens: self.reasoning_tokens,
            provider_model: Some(owned(self.provider_model.as_str())),
            service_tier: match self.response.service_tier {
                Some(ServiceTier::Default) => Some(owned("standard")),
                Some(ServiceTier::Priority) => Some(owned("priority")),
                None => None,
            },
        }
    }

    /// The answer as it is sent.
    pub fn serialize(&self) -> (r: Vec<u8>)
        ensures
            r@ == encode_utf8(json_text(response_json(self@.response))),
    {
        self.response.to_json().to_bytes()
    }

    /// Rewrites the texts that the answer puts out, each by what a function makes of it. Nothing
    /// else changes.
    pub fn visit_text_mut<F: Fn(&str) -> String>(&mut self, f: F)
        requires
            forall|s: &str| #[trigger] call_requires(f, (s,)),
        ensures
            *final(self) == (TranslatedOf {
                response: ResponseOf {
                    output: final(self).response.output,
                    ..old(self).response
                },
                ..*old(self)
            }),
            final(self).response.output@.len() == old(self).response.output@.len(),
            forall|k: int|
                0 <= k < old(self).response.output@.len() ==> #[trigger] item_visited(
                    f,
                    old(self).response.output@[k],
                    final(self).response.output@[k],
                ),
    {
        let ghost was = self.response.output@;
        let mut rest: Vec<OutputItem> = Vec::new();
        std::mem::swap(&mut rest, &mut self.response.output);
        let mut out: Vec<OutputItem> = Vec::new();
        while rest.len() > 0
            invariant
                forall|s: &str| #[trigger] call_requires(f, (s,)),
                rest.len() + out.len() == was.len(),
                forall|k: int| 0 <= k < rest.len() ==> rest@[k] == was[out.len() + k],
                forall|k: int| 0 <= k < out.len() ==> #[trigger] item_visited(f, was[k], out@[k]),
            decreases rest.len(),
        {
            let new = match rest.remove(0) {
                ItemOf::Message(message) => ItemOf::Message(
                    MessageOf {
                        content: visit_parts(&f, message.content),
                        id: message.id,
                        phase: message.phase,
                        status: message.status,
                    },
                ),
                item => item,
            };
            assert(item_visited(f, was[out.len() as int], new));
            out.push(new);
        }
        self.response.output = out;
    }
}

} // verus!
