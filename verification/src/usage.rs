//! Token counts, stop reasons and service tiers, from the Messages API to the Responses API.
use vstd::prelude::*;

use crate::error::{invalid, invalid_response, AIError};
use crate::messages::{MessageDeltaUsage, OutputTokensDetails, StopReason, Usage, UsageOf};
use crate::text::{same, text_of};

verus! {

/// How input tokens divide.
#[derive(Debug, Clone, Copy, PartialEq, Eq, Structural)]
pub struct InputTokenDetails {
    pub cached_tokens: u32,
    pub cache_write_tokens: Option<u32>,
}

/// How output tokens divide.
#[derive(Debug, Clone, Copy, PartialEq, Eq, Structural)]
pub struct OutputTokenDetails {
    pub reasoning_tokens: u32,
}

/// The tokens that a response took, as the Responses API counts them: input includes the cache.
#[derive(Debug, Clone, Copy, PartialEq, Eq, Structural)]
pub struct ResponseUsage {
    pub input_tokens: u32,
    pub output_tokens: u32,
    pub total_tokens: u32,
    pub input_tokens_details: InputTokenDetails,
    pub output_tokens_details: OutputTokenDetails,
}

/// How a response was served.
#[derive(Debug, Clone, Copy, PartialEq, Eq, Structural)]
pub enum ServiceTier {
    Default,
    Priority,
}

impl ServiceTier {
    pub open spec fn name_spec(self) -> Seq<char> {
        match self {
            ServiceTier::Default => "default"@,
            ServiceTier::Priority => "priority"@,
        }
    }

    /// The name that the Responses API has for the tier.
    pub fn name(&self) -> (r: &'static str)
        ensures
            r@ == self.name_spec(),
    {
        match self {
            ServiceTier::Default => "default",
            ServiceTier::Priority => "priority",
        }
    }
}

/// Whether a message is on the way to an answer or is the answer.
#[derive(Debug, Clone, Copy, PartialEq, Eq, Structural)]
pub enum MessagePhase {
    Commentary,
    FinalAnswer,
}

impl MessagePhase {
    pub open spec fn name_spec(self) -> Seq<char> {
        match self {
            MessagePhase::Commentary => "commentary"@,
            MessagePhase::FinalAnswer => "final_answer"@,
        }
    }

    /// The name that the Responses API has for the phase.
    pub fn name(&self) -> (r: &'static str)
        ensures
            r@ == self.name_spec(),
    {
        match self {
            MessagePhase::Commentary => "commentary",
            MessagePhase::FinalAnswer => "final_answer",
        }
    }
}

/// How a response ended.
#[derive(Debug, Clone, Copy, PartialEq, Eq, Structural)]
pub enum Ending {
    Completed,
    /// Cut off by a limit on the output tokens.
    Incomplete,
}

impl Ending {
    pub open spec fn status(self) -> Seq<char> {
        match self {
            Ending::Completed => "completed"@,
            Ending::Incomplete => "incomplete"@,
        }
    }

    pub open spec fn reason(self) -> Option<Seq<char>> {
        match self {
            Ending::Completed => None,
            Ending::Incomplete => Some("max_output_tokens"@),
        }
    }
}

/// How a response ends that stops for a reason; a paused turn is no end.
pub open spec fn ending(stop_reason: StopReason) -> Option<Ending> {
    match stop_reason {
        StopReason::EndTurn | StopReason::StopSequence | StopReason::ToolUse
        | StopReason::Refusal => Some(Ending::Completed),
        StopReason::MaxTokens | StopReason::ModelContextWindowExceeded => Some(Ending::Incomplete),
        StopReason::PauseTurn => None,
    }
}

/// The status and, where the response is incomplete, the reason that go with a stop reason.
pub fn terminal_status(stop_reason: StopReason) -> (r: Option<
    (&'static str, Option<&'static str>),
>)
    ensures
        match (r, ending(stop_reason)) {
            (Some((status, reason)), Some(end)) => status@ == end.status() && text_of(reason)
                == end.reason(),
            (None, None) => true,
            _ => false,
        },
{
    match stop_reason {
        StopReason::EndTurn | StopReason::StopSequence | StopReason::ToolUse
        | StopReason::Refusal => Some(("completed", None)),
        StopReason::MaxTokens | StopReason::ModelContextWindowExceeded => Some(
            ("incomplete", Some("max_output_tokens")),
        ),
        StopReason::PauseTurn => None,
    }
}

/// The phase that goes with a stop reason: only a turn that waits for a tool is commentary.
pub open spec fn phase_of(stop_reason: StopReason) -> MessagePhase {
    if stop_reason == StopReason::ToolUse {
        MessagePhase::Commentary
    } else {
        MessagePhase::FinalAnswer
    }
}

/// The phase of the messages of a turn that stopped for a reason. A turn that stops to have a
/// tool run holds no final answer; every other end of a turn does.
pub fn message_phase(stop_reason: StopReason) -> (r: MessagePhase)
    ensures
        r == phase_of(stop_reason),
{
    match stop_reason {
        StopReason::ToolUse => MessagePhase::Commentary,
        _ => MessagePhase::FinalAnswer,
    }
}

/// An optional count, 0 where absent.
pub open spec fn count(n: Option<usize>) -> usize {
    match n {
        Some(n) => n,
        None => 0,
    }
}

/// Whether counts can be told in 32 bits, and no more was thought than put out.
pub open spec fn usage_fits(
    input: usize,
    output: usize,
    cache_read: usize,
    cache_creation: usize,
    thinking: Option<usize>,
) -> bool {
    input + cache_read + cache_creation + output <= u32::MAX && count(thinking) <= output
}

/// The counts as the Responses API tells them.
pub open spec fn usage_told(
    input: usize,
    output: usize,
    cache_read: usize,
    cache_creation: usize,
    thinking: Option<usize>,
) -> ResponseUsage {
    ResponseUsage {
        input_tokens: (input + cache_read + cache_creation) as u32,
        output_tokens: output as u32,
        total_tokens: (input + cache_read + cache_creation + output) as u32,
        input_tokens_details: InputTokenDetails {
            cached_tokens: cache_read as u32,
            cache_write_tokens: Some(cache_creation as u32),
        },
        output_tokens_details: OutputTokenDetails { reasoning_tokens: count(thinking) as u32 },
    }
}

/// Tells counts as the Responses API does, where they fit.
pub fn response_usage(
    input: usize,
    output: usize,
    cache_read: usize,
    cache_creation: usize,
    thinking: Option<usize>,
) -> (r: Result<ResponseUsage, ()>)
    ensures
        r == (if usage_fits(input, output, cache_read, cache_creation, thinking) {
            Ok(usage_told(input, output, cache_read, cache_creation, thinking))
        } else {
            Err(())
        }),
{
    let with_read: usize = match input.checked_add(cache_read) {
        Some(n) => n,
        None => return Err(()),
    };
    let all_input: usize = match with_read.checked_add(cache_creation) {
        Some(n) => n,
        None => return Err(()),
    };
    let limit: usize = u32::MAX as usize;
    if all_input > limit || output > limit {
        return Err(());
    }
    let thought: usize = match thinking {
        Some(n) => n,
        None => 0,
    };
    if thought > output {
        return Err(());
    }
    let total: u32 = match (all_input as u32).checked_add(output as u32) {
        Some(n) => n,
        None => return Err(()),
    };
    Ok(
        ResponseUsage {
            input_tokens: all_input as u32,
            output_tokens: output as u32,
            total_tokens: total,
            input_tokens_details: InputTokenDetails {
                cached_tokens: cache_read as u32,
                cache_write_tokens: Some(cache_creation as u32),
            },
            output_tokens_details: OutputTokenDetails { reasoning_tokens: thought as u32 },
        },
    )
}

/// What was thought, as far as it was counted.
pub open spec fn thinking_of(details: Option<OutputTokensDetails>) -> Option<usize> {
    match details {
        Some(details) => details.thinking_tokens,
        None => None,
    }
}

/// An answer's counts as the Responses API tells them, or none where they do not fit.
pub open spec fn told(usage: UsageOf<Seq<char>>) -> Option<ResponseUsage> {
    let read = count(usage.cache_read_input_tokens);
    let creation = count(usage.cache_creation_input_tokens);
    let thinking = thinking_of(usage.output_tokens_details);
    if usage_fits(usage.input_tokens, usage.output_tokens, read, creation, thinking) {
        Some(usage_told(usage.input_tokens, usage.output_tokens, read, creation, thinking))
    } else {
        None
    }
}

/// An answer's counts as the Responses API tells them.
pub fn responses_usage(usage: &Usage) -> (r: Result<ResponseUsage, AIError>)
    ensures
        r == (match told(usage@) {
            Some(told) => Ok::<ResponseUsage, AIError>(told),
            None => Err(invalid()),
        }),
{
    let read: usize = match usage.cache_read_input_tokens {
        Some(n) => n,
        None => 0,
    };
    let creation: usize = match usage.cache_creation_input_tokens {
        Some(n) => n,
        None => 0,
    };
    let thinking = match usage.output_tokens_details {
        Some(details) => details.thinking_tokens,
        None => None,
    };
    match response_usage(usage.input_tokens, usage.output_tokens, read, creation, thinking) {
        Ok(told) => Ok(told),
        Err(_) => Err(invalid_response()),
    }
}

/// The public name of a service tier, where it has one.
pub open spec fn tier_of(service_tier: Seq<char>) -> Option<ServiceTier> {
    if service_tier == "standard"@ {
        Some(ServiceTier::Default)
    } else if service_tier == "priority"@ {
        Some(ServiceTier::Priority)
    } else {
        None
    }
}

/// The public name of a service tier.
pub fn public_service_tier(service_tier: &str) -> (r: Result<ServiceTier, AIError>)
    ensures
        r == (match tier_of(service_tier@) {
            Some(tier) => Ok::<ServiceTier, AIError>(tier),
            None => Err(invalid()),
        }),
{
    if same(service_tier, "standard") {
        Ok(ServiceTier::Default)
    } else if same(service_tier, "priority") {
        Ok(ServiceTier::Priority)
    } else {
        Err(invalid_response())
    }
}

/// The public name of a service tier, where one is given. The outer option is none where the tier
/// has no public name.
pub open spec fn tier_in(tier: Option<Seq<char>>) -> Option<Option<ServiceTier>> {
    match tier {
        None => Some(None),
        Some(tier) => match tier_of(tier) {
            Some(tier) => Some(Some(tier)),
            None => None,
        },
    }
}

/// The public name of a stream's service tier, where one is given.
pub fn stream_service_tier(tier: Option<&str>) -> (r: Result<Option<ServiceTier>, ()>)
    ensures
        r == (match tier_in(text_of(tier)) {
            Some(tier) => Ok::<Option<ServiceTier>, ()>(tier),
            None => Err(()),
        }),
{
    match tier {
        None => Ok(None),
        Some(tier) => match public_service_tier(tier) {
            Ok(tier) => Ok(Some(tier)),
            Err(_) => Err(()),
        },
    }
}

/// What was thought over a stream: the last count given, which may not be less than the first.
/// None where another count was given too, or the count went down.
pub open spec fn stream_thinking(
    initial: Option<OutputTokensDetails>,
    terminal: Option<OutputTokensDetails>,
) -> Option<Option<usize>> {
    if (initial is Some && initial->0.extra) || (terminal is Some && terminal->0.extra) {
        None
    } else {
        match (thinking_of(initial), thinking_of(terminal)) {
            (Some(first), Some(last)) => if last < first {
                None
            } else {
                Some(Some(last))
            },
            (Some(first), None) => Some(Some(first)),
            (None, last) => Some(last),
        }
    }
}

/// The thinking tokens of details that hold no other count.
pub fn strict_thinking_tokens(details: Option<OutputTokensDetails>) -> (r: Result<
    Option<usize>,
    (),
>)
    ensures
        r == (if details is Some && details->0.extra {
            Err::<Option<usize>, ()>(())
        } else {
            Ok(thinking_of(details))
        }),
{
    match details {
        None => Ok(None),
        Some(details) => if details.extra {
            Err(())
        } else {
            Ok(details.thinking_tokens)
        },
    }
}

/// What was thought over a stream.
pub fn stream_thinking_tokens(initial: &Usage, terminal: &MessageDeltaUsage) -> (r: Result<
    Option<usize>,
    (),
>)
    ensures
        r == (match stream_thinking(initial.output_tokens_details, terminal.output_tokens_details) {
            Some(thinking) => Ok::<Option<usize>, ()>(thinking),
            None => Err(()),
        }),
{
    let first = match strict_thinking_tokens(initial.output_tokens_details) {
        Ok(n) => n,
        Err(_) => return Err(()),
    };
    let last = match strict_thinking_tokens(terminal.output_tokens_details) {
        Ok(n) => n,
        Err(_) => return Err(()),
    };
    match (first, last) {
        (Some(first), Some(last)) => if last < first {
            Err(())
        } else {
            Ok(Some(last))
        },
        (Some(first), None) => Ok(Some(first)),
        (None, last) => Ok(last),
    }
}

/// A count at the end of a stream: the last one given.
pub open spec fn last_count(initial: Option<usize>, terminal: Option<usize>) -> Option<usize> {
    if terminal is Some {
        terminal
    } else {
        initial
    }
}

/// Whether a count went down over a stream.
pub open spec fn regressed(initial: Option<usize>, terminal: Option<usize>) -> bool {
    terminal is Some && terminal->0 < count(initial)
}

/// A stream's counts as the Responses API tells them, or none where one went down, another kind
/// of count was given or they do not fit.
pub open spec fn stream_told(
    initial: UsageOf<Seq<char>>,
    terminal: MessageDeltaUsage,
) -> Option<ResponseUsage> {
    let thinking = stream_thinking(initial.output_tokens_details, terminal.output_tokens_details);
    let input = last_count(Some(initial.input_tokens), terminal.input_tokens);
    let output = last_count(Some(initial.output_tokens), terminal.output_tokens);
    let read = last_count(initial.cache_read_input_tokens, terminal.cache_read_input_tokens);
    let creation = last_count(
        initial.cache_creation_input_tokens,
        terminal.cache_creation_input_tokens,
    );
    if thinking is None || regressed(Some(initial.input_tokens), terminal.input_tokens)
        || regressed(Some(initial.output_tokens), terminal.output_tokens)
        || regressed(initial.cache_read_input_tokens, terminal.cache_read_input_tokens)
        || regressed(initial.cache_creation_input_tokens, terminal.cache_creation_input_tokens)
        || !usage_fits(count(input), count(output), count(read), count(creation), thinking->0) {
        None
    } else {
        Some(usage_told(count(input), count(output), count(read), count(creation), thinking->0))
    }
}

fn or_else(terminal: Option<usize>, initial: Option<usize>) -> (r: Option<usize>)
    ensures
        r == last_count(initial, terminal),
{
    match terminal {
        Some(n) => Some(n),
        None => initial,
    }
}

fn went_down(initial: Option<usize>, terminal: Option<usize>) -> (r: bool)
    ensures
        r == regressed(initial, terminal),
{
    match terminal {
        Some(last) => match initial {
            Some(first) => last < first,
            None => false,
        },
        None => false,
    }
}

fn or_zero(n: Option<usize>) -> (r: usize)
    ensures
        r == count(n),
{
    match n {
        Some(n) => n,
        None => 0,
    }
}

/// A stream's counts as the Responses API tells them.
pub fn stream_usage(initial: &Usage, terminal: &MessageDeltaUsage) -> (r: Result<
    ResponseUsage,
    (),
>)
    ensures
        r == (match stream_told(initial@, *terminal) {
            Some(told) => Ok::<ResponseUsage, ()>(told),
            None => Err(()),
        }),
{
    let thinking = match stream_thinking_tokens(initial, terminal) {
        Ok(n) => n,
        Err(_) => return Err(()),
    };
    if went_down(Some(initial.input_tokens), terminal.input_tokens) || went_down(
        Some(initial.output_tokens),
        terminal.output_tokens,
    ) || went_down(initial.cache_read_input_tokens, terminal.cache_read_input_tokens) || went_down(
        initial.cache_creation_input_tokens,
        terminal.cache_creation_input_tokens,
    ) {
        return Err(());
    }
    let input = or_zero(or_else(terminal.input_tokens, Some(initial.input_tokens)));
    let output = or_zero(or_else(terminal.output_tokens, Some(initial.output_tokens)));
    let read = or_zero(or_else(terminal.cache_read_input_tokens, initial.cache_read_input_tokens));
    let creation = or_zero(
        or_else(terminal.cache_creation_input_tokens, initial.cache_creation_input_tokens),
    );
    response_usage(input, output, read, creation, thinking)
}

/// What is told adds up: input and output give the total, and the cache is part of the input.
pub proof fn lemma_usage_adds_up(
    input: usize,
    output: usize,
    cache_read: usize,
    cache_creation: usize,
    thinking: Option<usize>,
)
    requires
        usage_fits(input, output, cache_read, cache_creation, thinking),
    ensures
        ({
            let told = usage_told(input, output, cache_read, cache_creation, thinking);
            &&& told.total_tokens == told.input_tokens + told.output_tokens
            &&& told.input_tokens == input + told.input_tokens_details.cached_tokens
                + told.input_tokens_details.cache_write_tokens->0
            &&& told.output_tokens_details.reasoning_tokens <= told.output_tokens
        }),
{
}

/// No count told at the end of a stream is less than what was counted at its start.
pub proof fn lemma_stream_counts_grow(initial: UsageOf<Seq<char>>, terminal: MessageDeltaUsage)
    requires
        stream_told(initial, terminal) is Some,
    ensures
        stream_told(initial, terminal)->0.output_tokens >= initial.output_tokens,
        stream_told(initial, terminal)->0.input_tokens >= initial.input_tokens + count(
            initial.cache_read_input_tokens,
        ) + count(initial.cache_creation_input_tokens),
        stream_told(initial, terminal)->0.output_tokens_details.reasoning_tokens >= count(
            thinking_of(initial.output_tokens_details),
        ),
{
}

} // verus!
