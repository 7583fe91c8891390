//! What holds of everything that is read of an answer: its events, its counts, its end and its
//! failure.
use vstd::prelude::*;

use crate::decode::{
    block_of, event_of, stop_reason_named, BlockOf, DeltaOf, EventOf, EventView,
};
use crate::json::{field, Fields, JsonView};
use crate::lookups::group_lookups;
use crate::messages::{MessageDeltaUsage, OutputTokensDetails, Role, StopReason, UsageOf};
use crate::request::error_body;
use crate::text::{decimal, digit};
use crate::usage::{
    ending, phase_of, stream_told, tier_of, told, Ending, MessagePhase, ServiceTier,
};

verus! {

proof fn lemma_event_names()
    ensures
        "message_start"@ != "content_block_start"@,
        "message_start"@ != "content_block_delta"@,
        "message_start"@ != "content_block_stop"@,
        "message_start"@ != "message_delta"@,
        "message_start"@ != "message_stop"@,
        "message_start"@ != "ping"@,
        "content_block_start"@ != "content_block_delta"@,
        "content_block_start"@ != "content_block_stop"@,
        "content_block_start"@ != "message_delta"@,
        "content_block_start"@ != "message_stop"@,
        "content_block_start"@ != "ping"@,
        "content_block_delta"@ != "content_block_stop"@,
        "content_block_delta"@ != "message_delta"@,
        "content_block_delta"@ != "message_stop"@,
        "content_block_delta"@ != "ping"@,
        "content_block_stop"@ != "message_delta"@,
        "content_block_stop"@ != "message_stop"@,
        "content_block_stop"@ != "ping"@,
        "message_delta"@ != "message_stop"@,
        "message_delta"@ != "ping"@,
        "message_stop"@ != "ping"@,
{
    reveal_strlit("message_start");
    reveal_strlit("content_block_start");
    reveal_strlit("content_block_delta");
    reveal_strlit("content_block_stop");
    reveal_strlit("message_delta");
    reveal_strlit("message_stop");
    reveal_strlit("ping");
    assert("message_start"@.len() == 13);
    assert("content_block_start"@.len() == 19);
    assert("content_block_delta"@.len() == 19);
    assert("content_block_stop"@.len() == 18);
    assert("message_delta"@.len() == 13);
    assert("message_stop"@.len() == 12);
    assert("ping"@.len() == 4);
    assert("message_start"@[8] == 's');
    assert("message_delta"@[8] == 'd');
    assert("content_block_start"@[14] == 's');
    assert("content_block_delta"@[14] == 'd');
}

proof fn lemma_delta_names()
    ensures
        "text_delta"@ != "input_json_delta"@,
        "text_delta"@ != "thinking_delta"@,
        "text_delta"@ != "signature_delta"@,
        "input_json_delta"@ != "thinking_delta"@,
        "input_json_delta"@ != "signature_delta"@,
        "thinking_delta"@ != "signature_delta"@,
{
    reveal_strlit("text_delta");
    reveal_strlit("input_json_delta");
    reveal_strlit("thinking_delta");
    reveal_strlit("signature_delta");
    assert("text_delta"@.len() == 10);
    assert("input_json_delta"@.len() == 16);
    assert("thinking_delta"@.len() == 14);
    assert("signature_delta"@.len() == 15);
}

proof fn lemma_blocks_names()
    ensures
        "text"@ != "tool_use"@,
        "text"@ != "thinking"@,
        "text"@ != "redacted_thinking"@,
        "tool_use"@ != "thinking"@,
        "tool_use"@ != "redacted_thinking"@,
        "thinking"@ != "redacted_thinking"@,
{
    reveal_strlit("text");
    reveal_strlit("tool_use");
    reveal_strlit("thinking");
    reveal_strlit("redacted_thinking");
    assert("text"@.len() == 4);
    assert("tool_use"@.len() == 8);
    assert("thinking"@.len() == 8);
    assert("redacted_thinking"@.len() == 17);
    assert("tool_use"@[1] == 'o');
    assert("thinking"@[1] == 'h');
}

proof fn lemma_stop_names()
    ensures
        "end_turn"@ != "max_tokens"@,
        "end_turn"@ != "stop_sequence"@,
        "end_turn"@ != "tool_use"@,
        "end_turn"@ != "pause_turn"@,
        "end_turn"@ != "refusal"@,
        "end_turn"@ != "model_context_window_exceeded"@,
        "max_tokens"@ != "stop_sequence"@,
        "max_tokens"@ != "tool_use"@,
        "max_tokens"@ != "pause_turn"@,
        "max_tokens"@ != "refusal"@,
        "max_tokens"@ != "model_context_window_exceeded"@,
        "stop_sequence"@ != "tool_use"@,
        "stop_sequence"@ != "pause_turn"@,
        "stop_sequence"@ != "refusal"@,
        "stop_sequence"@ != "model_context_window_exceeded"@,
        "tool_use"@ != "pause_turn"@,
        "tool_use"@ != "refusal"@,
        "tool_use"@ != "model_context_window_exceeded"@,
        "pause_turn"@ != "refusal"@,
        "pause_turn"@ != "model_context_window_exceeded"@,
        "refusal"@ != "model_context_window_exceeded"@,
{
    reveal_strlit("end_turn");
    reveal_strlit("max_tokens");
    reveal_strlit("stop_sequence");
    reveal_strlit("tool_use");
    reveal_strlit("pause_turn");
    reveal_strlit("refusal");
    reveal_strlit("model_context_window_exceeded");
    assert("end_turn"@.len() == 8);
    assert("max_tokens"@.len() == 10);
    assert("stop_sequence"@.len() == 13);
    assert("tool_use"@.len() == 8);
    assert("pause_turn"@.len() == 10);
    assert("refusal"@.len() == 7);
    assert("model_context_window_exceeded"@.len() == 29);
    assert("end_turn"@[0] == 'e');
    assert("tool_use"@[0] == 't');
    assert("max_tokens"@[0] == 'm');
    assert("pause_turn"@[0] == 'p');
}

proof fn lemma_tiers()
    ensures
        "standard"@ != "priority"@,
{
    reveal_strlit("standard");
    reveal_strlit("priority");
    assert("standard"@.len() == 8);
    assert("priority"@.len() == 8);
    assert("standard"@[0] == 's');
    assert("priority"@[0] == 'p');
}

proof fn lemma_error_names()
    ensures
        "error"@ != "message"@,
        "error"@ != "type"@,
        "error"@ != "param"@,
        "error"@ != "code"@,
        "message"@ != "type"@,
        "message"@ != "param"@,
        "message"@ != "code"@,
        "type"@ != "param"@,
        "type"@ != "code"@,
        "param"@ != "code"@,
{
    reveal_strlit("error");
    reveal_strlit("message");
    reveal_strlit("type");
    reveal_strlit("param");
    reveal_strlit("code");
    assert("error"@.len() == 5);
    assert("message"@.len() == 7);
    assert("type"@.len() == 4);
    assert("param"@.len() == 5);
    assert("code"@.len() == 4);
    assert("error"@[0] == 'e');
    assert("param"@[0] == 'p');
    assert("type"@[0] == 't');
    assert("code"@[0] == 'c');
}


/// A piece of an answer is read as it is told: what is said, what of an input is written, a
/// thought, or its signature; at the place that is told.
pub proof fn lemma_delta_is_read(v: JsonView, index: u64)
    requires
        v.get("type"@) == Some(JsonView::Text("content_block_delta"@)),
        v.get("index"@) == Some(JsonView::Unsigned(index)),
        index <= u32::MAX,
        v.get("delta"@) is Some,
        v.get("delta"@)->0 is Object,
    ensures
        ({
            let delta = v.get("delta"@)->0;
            &&& forall|text: Seq<char>|
                delta.get("type"@) == Some(JsonView::Text("text_delta"@)) && #[trigger] is_text(
                    delta.get("text"@),
                    text,
                ) ==> event_of(v) == Some(
                    EventView::ContentBlockDelta { index: index as usize, delta: DeltaOf::Text(text) },
                )
            &&& forall|text: Seq<char>|
                delta.get("type"@) == Some(JsonView::Text("input_json_delta"@))
                    && #[trigger] is_text(delta.get("partial_json"@), text) ==> event_of(v) == Some(
                    EventView::ContentBlockDelta {
                        index: index as usize,
                        delta: DeltaOf::InputJson(text),
                    },
                )
            &&& forall|text: Seq<char>|
                delta.get("type"@) == Some(JsonView::Text("thinking_delta"@))
                    && #[trigger] is_text(delta.get("thinking"@), text) ==> event_of(v) == Some(
                    EventView::ContentBlockDelta { index: index as usize, delta: DeltaOf::Thinking },
                )
            &&& forall|text: Seq<char>|
                delta.get("type"@) == Some(JsonView::Text("signature_delta"@))
                    && #[trigger] is_text(delta.get("signature"@), text) ==> event_of(v) == Some(
                    EventView::ContentBlockDelta {
                        index: index as usize,
                        delta: DeltaOf::Signature(text),
                    },
                )
        }),
{
    lemma_event_names();
    lemma_delta_names();
}

/// Whether a value is a string.
pub open spec fn is_text(v: Option<JsonView>, text: Seq<char>) -> bool {
    v == Some(JsonView::Text(text))
}

/// What is read of an event is told in it.
#[verifier::rlimit(40)]
#[verifier::spinoff_prover]
pub proof fn lemma_event_was_told(v: JsonView)
    ensures
        match event_of(v) {
            None => true,
            Some(EventOf::MessageStart(start)) => {
                let m = v.get("message"@)->0;
                &&& v.get("type"@) == Some(JsonView::Text("message_start"@))
                &&& v.get("message"@) is Some
                &&& m.get("id"@) == Some(JsonView::Text(start.id))
                &&& m.get("type"@) == Some(JsonView::Text(start.kind))
                &&& m.get("model"@) == Some(JsonView::Text(start.model))
                &&& m.get("role"@) == Some(
                    JsonView::Text(
                        match start.role {
                            Role::User => "user"@,
                            Role::Assistant => "assistant"@,
                            Role::System => "system"@,
                        },
                    ),
                )
                &&& m.get("content"@) is Some
                &&& m.get("content"@)->0 is Array
                &&& start.bare <==> m.get("content"@)->0->Array_0.len() == 0
                &&& m.get("usage"@) is Some
                &&& counts_told(m.get("usage"@)->0, start.usage)
                &&& start.stop_reason is None <==> m.get("stop_reason"@) is None || m.get(
                    "stop_reason"@,
                ) == Some(JsonView::Null)
            },
            Some(EventOf::ContentBlockStart { index, block }) => {
                &&& v.get("type"@) == Some(JsonView::Text("content_block_start"@))
                &&& v.get("index"@) == Some(JsonView::Unsigned(index as u64))
                &&& v.get("content_block"@) is Some
                &&& block_of(v.get("content_block"@)->0) == Some(block)
            },
            Some(EventOf::ContentBlockDelta { index, delta }) => {
                let d = v.get("delta"@)->0;
                &&& v.get("type"@) == Some(JsonView::Text("content_block_delta"@))
                &&& v.get("index"@) == Some(JsonView::Unsigned(index as u64))
                &&& v.get("delta"@) is Some
                &&& match delta {
                    DeltaOf::Text(text) => is_text(d.get("type"@), "text_delta"@) && is_text(
                        d.get("text"@),
                        text,
                    ),
                    DeltaOf::InputJson(text) => is_text(d.get("type"@), "input_json_delta"@)
                        && is_text(d.get("partial_json"@), text),
                    DeltaOf::Thinking => is_text(d.get("type"@), "thinking_delta"@),
                    DeltaOf::Signature(text) => is_text(d.get("type"@), "signature_delta"@)
                        && is_text(d.get("signature"@), text),
                }
            },
            Some(EventOf::ContentBlockStop { index }) => v.get("type"@) == Some(
                JsonView::Text("content_block_stop"@),
            ) && v.get("index"@) == Some(JsonView::Unsigned(index as u64)),
            Some(EventOf::MessageDelta { stop_reason, stop_sequence, usage }) => {
                let d = v.get("delta"@)->0;
                &&& v.get("type"@) == Some(JsonView::Text("message_delta"@))
                &&& v.get("delta"@) is Some
                &&& stop_reason is None ==> d.get("stop_reason"@) is None || d.get("stop_reason"@)
                    == Some(JsonView::Null)
                &&& stop_reason is Some ==> is_text(d.get("stop_reason"@), name_of(stop_reason->0))
                &&& stop_sequence is None ==> d.get("stop_sequence"@) is None || d.get(
                    "stop_sequence"@,
                ) == Some(JsonView::Null)
                &&& stop_sequence is Some ==> is_text(d.get("stop_sequence"@), stop_sequence->0)
                &&& v.get("usage"@) is Some
                &&& maybe_told(v.get("usage"@)->0.get("input_tokens"@), usage.input_tokens)
                &&& maybe_told(v.get("usage"@)->0.get("output_tokens"@), usage.output_tokens)
                &&& maybe_told(
                    v.get("usage"@)->0.get("cache_read_input_tokens"@),
                    usage.cache_read_input_tokens,
                )
                &&& maybe_told(
                    v.get("usage"@)->0.get("cache_creation_input_tokens"@),
                    usage.cache_creation_input_tokens,
                )
            },
            Some(EventOf::MessageStop) => v.get("type"@) == Some(JsonView::Text("message_stop"@)),
            Some(EventOf::Ping) => v.get("type"@) == Some(JsonView::Text("ping"@)),
        },
{
    lemma_event_names();
    lemma_delta_names();
    lemma_stop_names();
}

/// The name of the reason for which an answer stopped.
pub open spec fn name_of(reason: StopReason) -> Seq<char> {
    match reason {
        StopReason::EndTurn => "end_turn"@,
        StopReason::MaxTokens => "max_tokens"@,
        StopReason::StopSequence => "stop_sequence"@,
        StopReason::ToolUse => "tool_use"@,
        StopReason::PauseTurn => "pause_turn"@,
        StopReason::Refusal => "refusal"@,
        StopReason::ModelContextWindowExceeded => "model_context_window_exceeded"@,
    }
}

/// Every reason is read by its name, and by no other.
pub proof fn lemma_reason_is_read(name: Seq<char>, reason: StopReason)
    ensures
        stop_reason_named(name) == Some(reason) <==> name == name_of(reason),
{
    lemma_stop_names();
}

/// Whether a count that may be left out is told.
pub open spec fn maybe_told(v: Option<JsonView>, n: Option<usize>) -> bool {
    match n {
        Some(n) => v == Some(JsonView::Unsigned(n as u64)),
        None => v is None || v == Some(JsonView::Null),
    }
}

/// Whether the counts of an answer are told.
pub open spec fn counts_told(v: JsonView, usage: UsageOf<Seq<char>>) -> bool {
    &&& v.get("input_tokens"@) == Some(JsonView::Unsigned(usage.input_tokens as u64))
    &&& v.get("output_tokens"@) == Some(JsonView::Unsigned(usage.output_tokens as u64))
    &&& maybe_told(v.get("cache_read_input_tokens"@), usage.cache_read_input_tokens)
    &&& maybe_told(v.get("cache_creation_input_tokens"@), usage.cache_creation_input_tokens)
    &&& match usage.service_tier {
        Some(tier) => is_text(v.get("service_tier"@), tier),
        None => v.get("service_tier"@) is None || v.get("service_tier"@) == Some(JsonView::Null),
    }
    &&& match usage.output_tokens_details {
        Some(details) => v.get("output_tokens_details"@) is Some && maybe_told(
            v.get("output_tokens_details"@)->0.get("thinking_tokens"@),
            details.thinking_tokens,
        ),
        None => v.get("output_tokens_details"@) is None || v.get("output_tokens_details"@) == Some(
            JsonView::Null,
        ),
    }
}

/// A block is read as it is told: a text with what it says, a call with its id, its tool and its
/// input.
pub proof fn lemma_block_is_read(o: Fields)
    ensures
        match block_of(JsonView::Object(o)) {
            None => true,
            Some(BlockOf::Text { text, .. }) => is_text(field(o, "type"@), "text"@) && is_text(
                field(o, "text"@),
                text,
            ),
            Some(BlockOf::ToolUse { id, name, input, .. }) => is_text(
                field(o, "type"@),
                "tool_use"@,
            ) && is_text(field(o, "id"@), id) && is_text(field(o, "name"@), name) && field(
                o,
                "input"@,
            ) == Some(input),
            Some(BlockOf::Thinking) => is_text(field(o, "type"@), "thinking"@),
            Some(BlockOf::RedactedThinking) => is_text(field(o, "type"@), "redacted_thinking"@),
        },
        is_text(field(o, "type"@), "text"@) && field(o, "text"@) is Some && field(o, "text"@)->0
            is Text ==> block_of(JsonView::Object(o)) is Some,
        is_text(field(o, "type"@), "tool_use"@) && field(o, "id"@) is Some && field(o, "id"@)->0
            is Text && field(o, "name"@) is Some && field(o, "name"@)->0 is Text && field(
            o,
            "input"@,
        ) is Some ==> block_of(JsonView::Object(o)) is Some,
{
    lemma_blocks_names();
}

/// How an answer ends that stops for a reason, and the phase of what was said: an answer that ran
/// out of room is incomplete, one that pauses has no end, every other is complete; and only what
/// is said before a call is commentary.
pub proof fn lemma_end(reason: StopReason)
    ensures
        ending(reason) == Some(Ending::Incomplete) <==> name_of(reason) == "max_tokens"@ || name_of(
            reason,
        ) == "model_context_window_exceeded"@,
        ending(reason) is None <==> name_of(reason) == "pause_turn"@,
        phase_of(reason) == MessagePhase::Commentary <==> name_of(reason) == "tool_use"@,
{
    lemma_stop_names();
}

/// The tiers that have a name here.
pub proof fn lemma_tier(tier: Seq<char>)
    ensures
        tier_of(tier) == Some(ServiceTier::Default) <==> tier == "standard"@,
        tier_of(tier) == Some(ServiceTier::Priority) <==> tier == "priority"@,
        tier_of(tier) is Some <==> tier == "standard"@ || tier == "priority"@,
{
    lemma_tiers();
}

/// A count, or 0 where there is none.
pub open spec fn at_least_zero(n: Option<usize>) -> int {
    match n {
        Some(n) => n as int,
        None => 0,
    }
}

/// What was thought, or 0 where that is not told.
pub open spec fn thoughts(details: Option<OutputTokensDetails>) -> int {
    match details {
        Some(details) => at_least_zero(details.thinking_tokens),
        None => 0,
    }
}

/// The counts of an answer are told in full, with the cache as part of the input; and they are
/// told just where they fit in 32 bits and no more was thought than put out.
pub proof fn lemma_usage(usage: UsageOf<Seq<char>>)
    ensures
        ({
            let read = at_least_zero(usage.cache_read_input_tokens);
            let written = at_least_zero(usage.cache_creation_input_tokens);
            let input = usage.input_tokens + read + written;
            let thought = thoughts(usage.output_tokens_details);
            match told(usage) {
                Some(t) => {
                    &&& t.input_tokens == input
                    &&& t.output_tokens == usage.output_tokens
                    &&& t.total_tokens == input + usage.output_tokens
                    &&& t.input_tokens_details.cached_tokens == read
                    &&& t.input_tokens_details.cache_write_tokens is Some
                    &&& t.input_tokens_details.cache_write_tokens->0 == written
                    &&& t.output_tokens_details.reasoning_tokens == thought
                },
                None => input + usage.output_tokens > u32::MAX || thought > usage.output_tokens,
            }
        }),
{
}

/// The last count that was given.
pub open spec fn latest(first: Option<usize>, last: Option<usize>) -> int {
    match last {
        Some(n) => n as int,
        None => at_least_zero(first),
    }
}

/// What was thought as far as it was counted.
pub open spec fn thinking_in(details: Option<OutputTokensDetails>) -> Option<usize> {
    match details {
        Some(details) => details.thinking_tokens,
        None => None,
    }
}

/// The counts of a stream are the last ones given, each of them; and they are told just where
/// none went down, they fit in 32 bits, no more was thought than put out, and no other count of
/// the output was given.
pub proof fn lemma_stream_usage(first: UsageOf<Seq<char>>, last: MessageDeltaUsage)
    ensures
        ({
            let input = latest(Some(first.input_tokens), last.input_tokens);
            let output = latest(Some(first.output_tokens), last.output_tokens);
            let read = latest(first.cache_read_input_tokens, last.cache_read_input_tokens);
            let written = latest(
                first.cache_creation_input_tokens,
                last.cache_creation_input_tokens,
            );
            let thought = latest(
                thinking_in(first.output_tokens_details),
                thinking_in(last.output_tokens_details),
            );
            match stream_told(first, last) {
                Some(t) => {
                    &&& t.input_tokens == input + read + written
                    &&& t.output_tokens == output
                    &&& t.total_tokens == input + read + written + output
                    &&& t.input_tokens_details.cached_tokens == read
                    &&& t.input_tokens_details.cache_write_tokens is Some
                    &&& t.input_tokens_details.cache_write_tokens->0 == written
                    &&& t.output_tokens_details.reasoning_tokens == thought
                },
                None => {
                    ||| input < first.input_tokens
                    ||| output < first.output_tokens
                    ||| read < at_least_zero(first.cache_read_input_tokens)
                    ||| written < at_least_zero(first.cache_creation_input_tokens)
                    ||| thought < thoughts(first.output_tokens_details)
                    ||| thought > output
                    ||| input + read + written + output > u32::MAX
                    ||| first.output_tokens_details is Some
                        && first.output_tokens_details->0.extra
                    ||| last.output_tokens_details is Some && last.output_tokens_details->0.extra
                },
            }
        }),
{
}

/// The number that decimal digits stand for.
pub open spec fn number_read(s: Seq<char>) -> int
    decreases s.len(),
{
    if s.len() == 0 {
        0
    } else {
        number_read(s.drop_last()) * 10 + (s.last() as int - '0' as int)
    }
}

/// The digits that a number is written in stand for that number, and do not start with a zero
/// that could be left out.
pub proof fn lemma_digits_are_the_number(n: nat)
    ensures
        number_read(decimal(n)) == n,
        decimal(n).len() > 0,
        forall|i: int| 0 <= i < decimal(n).len() ==> '0' <= (#[trigger] decimal(n)[i]) && decimal(
            n,
        )[i] <= '9',
        n > 0 ==> decimal(n)[0] != '0',
    decreases n,
{
    assert(digit(n % 10) as int - '0' as int == n % 10);
    if n < 10 {
        assert(decimal(n).drop_last() == Seq::<char>::empty());
        assert(number_read(Seq::<char>::empty()) == 0);
        assert(decimal(n).last() == digit(n));
        assert(n % 10 == n);
    } else {
        lemma_digits_are_the_number(n / 10);
        assert(decimal(n).drop_last() == decimal(n / 10));
        assert(decimal(n).last() == digit(n % 10));
    }
}

/// What a client is told of a failure upstream: the status, and the type of error that it stands
/// for; and nothing of what the upstream said.
#[verifier::rlimit(40)]
pub proof fn lemma_failure(status: u16)
    ensures
        ({
            let body = error_body(status);
            let e = body.get("error"@)->0;
            &&& body.get("error"@) is Some
            &&& body->Object_0.len() == 1
            &&& e->Object_0.len() == 4
            &&& is_text(
                e.get("message"@),
                "Upstream Anthropic request failed with HTTP "@ + decimal(status as nat),
            )
            &&& e.get("param"@) == Some(JsonView::Null)
            &&& e.get("code"@) == Some(JsonView::Null)
            &&& status == 400 ==> is_text(e.get("type"@), "invalid_request_error"@)
            &&& status == 401 ==> is_text(e.get("type"@), "authentication_error"@)
            &&& status == 403 ==> is_text(e.get("type"@), "permission_error"@)
            &&& status == 404 ==> is_text(e.get("type"@), "not_found_error"@)
            &&& status == 409 ==> is_text(e.get("type"@), "conflict_error"@)
            &&& status == 413 ==> is_text(e.get("type"@), "request_too_large"@)
            &&& status == 429 ==> is_text(e.get("type"@), "rate_limit_error"@)
            &&& status != 400 && status != 401 && status != 403 && status != 404 && status != 409
                && status != 413 && status != 429 ==> is_text(e.get("type"@), "server_error"@)
        }),
{
    broadcast use group_lookups;

    lemma_error_names();
    let inner = error_body(status).get("error"@)->0;
    assert(error_body(status)->Object_0 == seq![("error"@, inner)]);
    crate::json::lemma_position(Seq::<(Seq<char>, JsonView)>::empty(), "message"@, 0);
    let one: Fields = crate::json::put(Seq::empty(), "message"@, inner.get("message"@)->0);
    crate::json::lemma_position(one, "type"@, 0);
    let two = crate::json::put(one, "type"@, inner.get("type"@)->0);
    crate::json::lemma_position(two, "param"@, 0);
    let three = crate::json::put(two, "param"@, JsonView::Null);
    crate::json::lemma_position(three, "code"@, 0);
    let four = crate::json::put(three, "code"@, JsonView::Null);
    assert(inner == JsonView::Object(four));
    assert(one.len() == 1 && two.len() == 2 && three.len() == 3 && four.len() == 4);
}

} // verus!
