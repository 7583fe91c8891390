//! The Messages API: what its requests and answers are made of.
use vstd::prelude::*;

use crate::text::{copy_opt, text_in};

verus! {

/// Who speaks.
#[derive(Debug, Clone, Copy, PartialEq, Eq, Structural)]
pub enum Role {
    User,
    Assistant,
    System,
}

/// Why the model stopped.
#[derive(Debug, Clone, Copy, PartialEq, Eq, Structural)]
pub enum StopReason {
    EndTurn,
    MaxTokens,
    StopSequence,
    ToolUse,
    PauseTurn,
    Refusal,
    ModelContextWindowExceeded,
}

/// How hard the model is asked to think.
#[derive(Debug, Clone, Copy, PartialEq, Eq, Structural)]
pub enum ThinkingEffort {
    Low,
    Medium,
    High,
    XHigh,
    Max,
}

/// How the output tokens divide.
#[derive(Debug, Clone, Copy, PartialEq, Eq, Structural)]
pub struct OutputTokensDetails {
    pub thinking_tokens: Option<usize>,
    /// Whether other counts were given too.
    pub extra: bool,
}

/// The tokens that an answer took.
#[derive(Debug)]
pub struct UsageOf<S> {
    pub input_tokens: usize,
    pub output_tokens: usize,
    pub cache_creation_input_tokens: Option<usize>,
    pub cache_read_input_tokens: Option<usize>,
    pub service_tier: Option<S>,
    pub output_tokens_details: Option<OutputTokensDetails>,
}

pub type Usage = UsageOf<String>;

impl View for UsageOf<String> {
    type V = UsageOf<Seq<char>>;

    open spec fn view(&self) -> UsageOf<Seq<char>> {
        UsageOf {
            input_tokens: self.input_tokens,
            output_tokens: self.output_tokens,
            cache_creation_input_tokens: self.cache_creation_input_tokens,
            cache_read_input_tokens: self.cache_read_input_tokens,
            service_tier: text_in(self.service_tier),
            output_tokens_details: self.output_tokens_details,
        }
    }
}

impl UsageOf<String> {
    /// A copy.
    pub fn copy(&self) -> (r: Usage)
        ensures
            r@ == self@,
    {
        UsageOf {
            input_tokens: self.input_tokens,
            output_tokens: self.output_tokens,
            cache_creation_input_tokens: self.cache_creation_input_tokens,
            cache_read_input_tokens: self.cache_read_input_tokens,
            service_tier: copy_opt(&self.service_tier),
            output_tokens_details: self.output_tokens_details,
        }
    }
}

/// The tokens counted when a stream ends. What is absent is as it was at the start.
#[derive(Debug, Clone, Copy, PartialEq, Eq, Structural)]
pub struct MessageDeltaUsage {
    pub input_tokens: Option<usize>,
    pub output_tokens: Option<usize>,
    pub cache_creation_input_tokens: Option<usize>,
    pub cache_read_input_tokens: Option<usize>,
    pub output_tokens_details: Option<OutputTokensDetails>,
}

} // verus!
