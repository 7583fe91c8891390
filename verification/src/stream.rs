//! Converting a streamed answer, event by event.
use vstd::prelude::*;

use crate::calls::{item_id, item_id_of};
use crate::codec::parsed;
use crate::decode::{event_name_of, event_of, read_event, EventOf, EventView, MessagesStreamEvent};
use crate::items::{
    empty_refusal_item, message_item, set_output_item_status, stream_empty_refusal_item,
    stream_message_item, stream_refusal_part, with_status,
};
use crate::json::Json;
use crate::messages::{MessageDeltaUsage, StopReason, Usage, UsageOf};
use crate::responses::{
    item_views, items_json, render_items, ItemOf, ItemView, MessageOf, OutputItem, OutputStatus,
    PartOf, ResponseOf, Status,
};
use crate::stream_blocks::{
    block_started, block_stopped, content_block_delta, content_block_start, content_block_stop,
    delta_taken, follows, message_start, numbered, response_id_of, started, steady, take_numbers,
    Moment, Step,
};
use crate::stream_events::{
    item_told, part_told, response_told, tell_item, tell_part, tell_response, tell_text, text_told,
};
use crate::stream_state::{
    after_error, error_told, json_len, json_size, retained, retained_size, streamed_views,
    ResponsesStreamState, StreamOf, StreamView, Streamed, StreamedView, ToolCallLogOf,
};
use crate::text::{blank, copy_opt, join, owned, same, text_in, text_of};
use crate::tools::{State, Table};
use crate::usage::{
    ending, last_count, message_phase, phase_of, stream_service_tier, stream_thinking,
    stream_thinking_tokens, stream_told, stream_usage, terminal_status, tier_in, Ending,
    MessagePhase, ResponseUsage,
};

verus! {

/// What is logged of a streamed answer.
#[derive(Debug)]
pub struct TelemetryOf<S, L> {
    pub input_tokens: u64,
    pub output_tokens: u64,
    pub total_tokens: u64,
    pub reasoning_tokens: Option<u64>,
    pub cached_input_tokens: u64,
    pub cache_creation_input_tokens: Option<u64>,
    pub provider_model: Option<S>,
    /// When the client first saw output, on the caller's clock.
    pub first_token: Option<u64>,
    pub service_tier: Option<S>,
    pub completion: Option<S>,
    pub output_messages: Option<ToolCallLogOf<L>>,
}

pub type StreamTelemetry = TelemetryOf<String, Vec<OutputItem>>;

pub type TelemetryView = TelemetryOf<Seq<char>, Seq<ItemView>>;

impl View for TelemetryOf<String, Vec<OutputItem>> {
    type V = TelemetryOf<Seq<char>, Seq<ItemView>>;

    open spec fn view(&self) -> TelemetryView {
        TelemetryOf {
            input_tokens: self.input_tokens,
            output_tokens: self.output_tokens,
            total_tokens: self.total_tokens,
            reasoning_tokens: self.reasoning_tokens,
            cached_input_tokens: self.cached_input_tokens,
            cache_creation_input_tokens: self.cache_creation_input_tokens,
            provider_model: text_in(self.provider_model),
            first_token: self.first_token,
            service_tier: text_in(self.service_tier),
            completion: text_in(self.completion),
            output_messages: match self.output_messages {
                Some(log) => Some(log@),
                None => None,
            },
        }
    }
}

/// A count in 64 bits.
pub open spec fn wide(n: Option<usize>) -> Option<u64> {
    match n {
        Some(n) => Some(n as u64),
        None => None,
    }
}

fn widen(n: Option<usize>) -> (r: Option<u64>)
    ensures
        r == wide(n),
{
    match n {
        Some(n) => Some(n as u64),
        None => None,
    }
}

/// What is logged of a stream, where its counts can be told. Unlike the response, the log counts
/// the input without the cache.
pub open spec fn telemetry_of(s: StreamView) -> Option<TelemetryView> {
    match (s.initial_usage, s.terminal_usage) {
        (Some(initial), Some(terminal)) => match stream_told(initial, terminal) {
            Some(usage) => {
                let input = last_count(Some(initial.input_tokens), terminal.input_tokens)->0;
                Some(
                    TelemetryOf {
                        input_tokens: input as u64,
                        output_tokens: usage.output_tokens as u64,
                        total_tokens: (input + usage.output_tokens) as u64,
                        reasoning_tokens: wide(
                            stream_thinking(
                                initial.output_tokens_details,
                                terminal.output_tokens_details,
                            )->0,
                        ),
                        cached_input_tokens: usage.input_tokens_details.cached_tokens as u64,
                        cache_creation_input_tokens: wide(
                            last_count(
                                initial.cache_creation_input_tokens,
                                terminal.cache_creation_input_tokens,
                            ),
                        ),
                        provider_model: s.upstream_model,
                        first_token: s.first_visible_at,
                        service_tier: initial.service_tier,
                        completion: s.completion,
                        output_messages: s.output_messages,
                    },
                )
            },
            None => None,
        },
        _ => None,
    }
}

fn copy_items(items: &Vec<OutputItem>) -> (r: Vec<OutputItem>)
    ensures
        item_views(r@) == item_views(items@),
{
    let mut r: Vec<OutputItem> = Vec::new();
    let mut i: usize = 0;
    while i < items.len()
        invariant
            i <= items.len(),
            r.len() == i,
            forall|j: int| 0 <= j < i ==> (#[trigger] r@[j])@ == items@[j]@,
        decreases items.len() - i,
    {
        r.push(items[i].copy());
        i = i + 1;
    }
    assert(item_views(r@) == item_views(items@));
    r
}

/// What is logged of a stream.
pub fn commit_stream_telemetry(stream: &ResponsesStreamState) -> (r: Result<StreamTelemetry, ()>)
    ensures
        match telemetry_of(stream@) {
            Some(t) => r is Ok && r->Ok_0@ == t,
            None => r is Err,
        },
{
    let initial = match &stream.initial_usage {
        Some(u) => u,
        None => return Err(()),
    };
    let terminal = match &stream.terminal_usage {
        Some(u) => u,
        None => return Err(()),
    };
    let usage = match stream_usage(initial, terminal) {
        Ok(u) => u,
        Err(_) => return Err(()),
    };
    let input: usize = match terminal.input_tokens {
        Some(n) => n,
        None => initial.input_tokens,
    };
    let total: u64 = match (input as u64).checked_add(usage.output_tokens as u64) {
        Some(n) => n,
        None => return Err(()),
    };
    let creation = match terminal.cache_creation_input_tokens {
        Some(n) => Some(n),
        None => initial.cache_creation_input_tokens,
    };
    let thinking = match stream_thinking_tokens(initial, terminal) {
        Ok(n) => n,
        Err(_) => return Err(()),
    };
    let log = match &stream.output_messages {
        Some(log) => Some(
            ToolCallLogOf { calls: copy_items(&log.calls), completed: log.completed },
        ),
        None => None,
    };
    Ok(
        TelemetryOf {
            input_tokens: input as u64,
            output_tokens: usage.output_tokens as u64,
            total_tokens: total,
            reasoning_tokens: widen(thinking),
            cached_input_tokens: usage.input_tokens_details.cached_tokens as u64,
            cache_creation_input_tokens: widen(creation),
            provider_model: copy_opt(&stream.upstream_model),
            first_token: stream.first_visible_at,
            service_tier: copy_opt(&initial.service_tier),
            completion: copy_opt(&stream.completion),
            output_messages: log,
        },
    )
}

/// The end of the answer is told: why it stops and what it took.
pub open spec fn end_told(
    s: StreamView,
    stop_reason: Option<StopReason>,
    stop_sequence: Option<Seq<char>>,
    usage: MessageDeltaUsage,
) -> Step {
    if s.message_id is None || s.active_block is Some || s.saw_message_delta || stop_reason
        is None {
        None
    } else {
        Some(
            (
                StreamOf {
                    saw_message_delta: true,
                    stop_reason,
                    stop_sequence,
                    terminal_usage: Some(usage),
                    ..s
                },
                Seq::empty(),
            ),
        )
    }
}

/// The end of the answer is told.
pub fn message_delta(
    stream: &mut ResponsesStreamState,
    stop_reason: Option<StopReason>,
    stop_sequence: Option<String>,
    usage: MessageDeltaUsage,
) -> (r: Result<Vec<Streamed>, ()>)
    ensures
        follows(
            end_told(old(stream)@, stop_reason, text_in(stop_sequence), usage),
            old(stream)@,
            final(stream)@,
            r,
        ),
{
    if stream.message_id.is_none() || stream.active_block.is_some() || stream.saw_message_delta
        || stop_reason.is_none() {
        return Err(());
    }
    stream.saw_message_delta = true;
    stream.stop_reason = stop_reason;
    stream.stop_sequence = stop_sequence;
    stream.terminal_usage = Some(usage);
    let events: Vec<Streamed> = Vec::new();
    assert(streamed_views(events@) == Seq::<StreamedView>::empty());
    Ok(events)
}

/// Whether a stop reason goes with the blocks that came and the stop sequence that was told.
pub open spec fn stop_fits(s: StreamView, reason: StopReason) -> bool {
    &&& reason == StopReason::ToolUse ==> s.saw_tool
    &&& (reason == StopReason::EndTurn || reason == StopReason::StopSequence || reason
        == StopReason::Refusal) ==> !s.saw_tool
    &&& if reason == StopReason::StopSequence {
        s.stop_sequence is Some && s.stop_sequence->0.len() > 0
    } else {
        s.stop_sequence is None
    }
}

fn check_stop(stream: &ResponsesStreamState, reason: StopReason) -> (r: bool)
    ensures
        r == stop_fits(stream@, reason),
{
    let tools_fit = match reason {
        StopReason::ToolUse => stream.saw_tool,
        StopReason::EndTurn | StopReason::StopSequence | StopReason::Refusal => !stream.saw_tool,
        _ => true,
    };
    let sequence_fits = match reason {
        StopReason::StopSequence => match &stream.stop_sequence {
            Some(sequence) => !blank(sequence.as_str()),
            None => false,
        },
        _ => stream.stop_sequence.is_none(),
    };
    tools_fit && sequence_fits
}

/// An item as it stands when the response ends: with its last status, and with a phase where it
/// is a message.
pub open spec fn item_closed(
    item: ItemView,
    status: OutputStatus,
    phase: MessagePhase,
) -> Option<ItemView> {
    match with_status(item, status) {
        Some(ItemOf::Message(m)) => Some(
            ItemOf::Message(
                MessageOf {
                    content: m.content,
                    id: m.id,
                    phase: Some(phase),
                    status: m.status,
                },
            ),
        ),
        other => other,
    }
}

/// The items as they stand when the response ends, from the `i`th on.
pub open spec fn items_closed(
    items: Seq<ItemView>,
    status: OutputStatus,
    phase: MessagePhase,
    i: int,
) -> Option<Seq<ItemView>>
    decreases items.len() - i,
{
    if i < 0 || i >= items.len() {
        Some(Seq::empty())
    } else {
        match (item_closed(items[i], status, phase), items_closed(items, status, phase, i + 1)) {
            (Some(item), Some(rest)) => Some(seq![item] + rest),
            _ => None,
        }
    }
}

fn close_items(items: Vec<OutputItem>, status: OutputStatus, phase: MessagePhase) -> (r: Result<
    Vec<OutputItem>,
    (),
>)
    ensures
        match items_closed(item_views(items@), status, phase, 0) {
            Some(closed) => r is Ok && item_views(r->Ok_0@) == closed,
            None => r is Err,
        },
{
    let ghost all = item_views(items@);
    let mut done: Vec<OutputItem> = Vec::new();
    let mut i: usize = 0;
    while i < items.len()
        invariant
            i <= items.len(),
            all == item_views(items@),
            match items_closed(all, status, phase, i as int) {
                Some(rest) => items_closed(all, status, phase, 0) == Some(
                    item_views(done@) + rest,
                ),
                None => items_closed(all, status, phase, 0) is None,
            },
        decreases items.len() - i,
    {
        assert(all[i as int] == items@[i as int]@);
        let mut item = items[i].copy();
        match set_output_item_status(&mut item, status) {
            Ok(_) => {},
            Err(_) => return Err(()),
        }
        match &mut item {
            ItemOf::Message(m) => {
                m.phase = Some(phase);
            },
            _ => {},
        }
        let ghost before = item_views(done@);
        assert(item_closed(all[i as int], status, phase) == Some(item@));
        done.push(item);
        assert(item_views(done@) == before.push(item@));
        proof {
            match items_closed(all, status, phase, i as int + 1) {
                Some(rest) => {
                    assert(before + (seq![item@] + rest) == item_views(done@) + rest);
                },
                None => {},
            }
        }
        i = i + 1;
    }
    assert(item_views(done@) + Seq::<ItemView>::empty() == item_views(done@));
    Ok(done)
}

/// Whether an item is a call of a tool.
pub open spec fn is_call(item: ItemView) -> bool {
    match item {
        ItemOf::Message(_) | ItemOf::Reasoning(_) | ItemOf::Other(_) => false,
        _ => true,
    }
}

/// The tool calls of a finished response, where there are any.
pub open spec fn calls_logged(items: Seq<ItemView>, completed: bool) -> Option<
    ToolCallLogOf<Seq<ItemView>>,
> {
    let calls = items.filter(|i: ItemView| is_call(i));
    if calls.len() == 0 {
        None
    } else {
        Some(ToolCallLogOf { calls, completed })
    }
}

fn log_calls(items: &Vec<OutputItem>, completed: bool) -> (r: Option<
    ToolCallLogOf<Vec<OutputItem>>,
>)
    ensures
        (match r {
            Some(log) => Some(log@),
            None => None,
        }) == calls_logged(item_views(items@), completed),
{
    let ghost all = item_views(items@);
    let ghost picks = |i: ItemView| is_call(i);
    let mut calls: Vec<OutputItem> = Vec::new();
    let mut i: usize = 0;
    assert(all.take(0).filter(picks) == Seq::<ItemView>::empty()) by {
        assert(all.take(0) == Seq::<ItemView>::empty());
        reveal(Seq::filter);
    }
    assert(item_views(calls@) == all.take(0).filter(picks));
    while i < items.len()
        invariant
            i <= items.len(),
            all == item_views(items@),
            picks == (|i: ItemView| is_call(i)),
            item_views(calls@) == all.take(i as int).filter(picks),
        decreases items.len() - i,
    {
        let ghost before = item_views(calls@);
        proof {
            assert(all.take(i as int + 1).drop_last() == all.take(i as int));
            assert(all.take(i as int + 1).last() == all[i as int]);
            reveal(Seq::filter);
        }
        match &items[i] {
            ItemOf::Message(_) | ItemOf::Reasoning(_) | ItemOf::Other(_) => {},
            item => {
                calls.push(item.copy());
                assert(item_views(calls@) == before.push(all[i as int]));
            },
        }
        i = i + 1;
    }
    assert(all.take(all.len() as int) == all);
    if calls.len() == 0 {
        assert(item_views(calls@).len() == 0);
        None
    } else {
        Some(ToolCallLogOf { calls, completed })
    }
}

/// Every item is told as done, in order.
pub open spec fn items_done(items: Seq<ItemView>, n: nat) -> Seq<StreamedView> {
    Seq::new(
        items.len(),
        |i: int|
            item_told("response.output_item.done"@, (n + i) as u64, i as u32, items[i]),
    )
}

/// An empty refusal is told like any other item: begun, filled and done.
pub open spec fn refusal_told(id: Seq<char>, n: nat) -> Seq<StreamedView> {
    let part = PartOf::Refusal(Seq::empty());
    seq![
        item_told(
            "response.output_item.added"@,
            n as u64,
            0,
            message_item(id, Seq::empty(), OutputStatus::InProgress),
        ),
        part_told("response.content_part.added"@, (n + 1) as u64, id, 0, 0, part),
        text_told("response.refusal.done"@, (n + 2) as u64, id, 0, 0, "refusal"@, Seq::empty()),
        part_told("response.content_part.done"@, (n + 3) as u64, id, 0, 0, part),
    ]
}

fn tell_refusal(id: &str, n: u64) -> (r: Vec<Streamed>)
    requires
        n + 3 <= u64::MAX,
    ensures
        streamed_views(r@) == refusal_told(id@, n as nat),
{
    let part = stream_refusal_part(String::new());
    let item = stream_message_item(owned(id), String::new(), OutputStatus::InProgress);
    let nothing = String::new();
    assert(nothing@ == Seq::<char>::empty());
    let mut events: Vec<Streamed> = Vec::new();
    events.push(tell_item("response.output_item.added", n, 0, &item));
    events.push(tell_part("response.content_part.added", n + 1, id, 0, 0, &part));
    events.push(tell_text("response.refusal.done", n + 2, id, 0, 0, "refusal", nothing.as_str()));
    events.push(tell_part("response.content_part.done", n + 3, id, 0, 0, &part));
    assert(streamed_views(events@) == refusal_told(id@, n as nat));
    events
}

/// What the end of an answer comes to.
pub enum EndOf<S, E, T> {
    /// The response is complete: what becomes of the stream, and what the client is told.
    Complete(S, E),
    /// A refusal came after text was already told as text; the counts are still logged.
    Late(T),
    Invalid,
}

pub type EndView = EndOf<StreamView, Seq<StreamedView>, TelemetryView>;

/// How the last status of a response and of its items follow from how it ended.
pub open spec fn final_status(end: Ending) -> Status {
    match end {
        Ending::Completed => Status::Completed,
        Ending::Incomplete => Status::Incomplete,
    }
}

pub open spec fn final_item_status(end: Ending) -> OutputStatus {
    match end {
        Ending::Completed => OutputStatus::Completed,
        Ending::Incomplete => OutputStatus::Incomplete,
    }
}

pub open spec fn final_event(end: Ending) -> Seq<char> {
    match end {
        Ending::Completed => "response.completed"@,
        Ending::Incomplete => "response.incomplete"@,
    }
}

/// The answer is over. Its counts must be tellable, its stop reason must go with what came, and
/// all that was kept must be within the limit. A refusal must come before any output, for output
/// that was told as text cannot be told as a refusal.
pub open spec fn stopped(s: StreamView, limit: usize, model: Seq<char>, log_calls: bool) -> EndView {
    if !s.saw_message_delta || s.active_block is Some {
        EndOf::Invalid
    } else {
        match (s.initial_usage, s.terminal_usage, s.stop_reason, s.message_id) {
            (Some(initial), Some(terminal), Some(reason), Some(message_id)) => {
                if stream_told(initial, terminal) is None || !stop_fits(s, reason)
                    || retained_size(s, model) > limit {
                    EndOf::Invalid
                } else if reason == StopReason::Refusal && s.output.len() > 0 {
                    match telemetry_of(s) {
                        Some(t) => EndOf::Late(t),
                        None => EndOf::Invalid,
                    }
                } else if reason == StopReason::Refusal {
                    let id = item_id_of("msg"@, message_id, 0);
                    match numbered(s, 4) {
                        Some(told) => match retained(
                            told,
                            empty_refusal_item(id, OutputStatus::InProgress),
                        ) {
                            Some(kept) => finished(
                                kept,
                                refusal_told(id, s.sequence_number as nat),
                                reason,
                                message_id,
                                initial,
                                stream_told(initial, terminal)->0,
                                limit,
                                model,
                                log_calls,
                            ),
                            None => EndOf::Invalid,
                        },
                        None => EndOf::Invalid,
                    }
                } else {
                    finished(
                        s,
                        Seq::empty(),
                        reason,
                        message_id,
                        initial,
                        stream_told(initial, terminal)->0,
                        limit,
                        model,
                        log_calls,
                    )
                }
            },
            _ => EndOf::Invalid,
        }
    }
}

/// The response is put together: every item is closed and told as done, then the whole.
pub open spec fn finished(
    s: StreamView,
    told: Seq<StreamedView>,
    reason: StopReason,
    message_id: Seq<char>,
    initial: UsageOf<Seq<char>>,
    usage: ResponseUsage,
    limit: usize,
    model: Seq<char>,
    log_calls: bool,
) -> EndView {
    match (s.created_at, ending(reason), tier_in(initial.service_tier)) {
        (Some(created_at), Some(end), Some(service_tier)) => match items_closed(
            s.output,
            final_item_status(end),
            phase_of(reason),
            0,
        ) {
            Some(items) => {
                let size = json_size(items_json(items));
                let closed = StreamOf {
                    output: items,
                    retained_output_bytes: (size - 2) as usize,
                    ..s
                };
                let n = s.sequence_number as nat;
                if size < 2 || retained_size(closed, model) > limit || items.len() > u32::MAX + 1
                    || numbered(closed, items.len() + 1) is None {
                    EndOf::Invalid
                } else {
                    let response = ResponseOf {
                        id: response_id_of(message_id),
                        created_at,
                        status: final_status(end),
                        output: items,
                        model,
                        usage: Some(usage),
                        service_tier,
                    };
                    EndOf::Complete(
                        StreamOf {
                            output: Seq::empty(),
                            output_messages: match calls_logged(items, end == Ending::Completed) {
                                Some(log) => if log_calls {
                                    Some(log)
                                } else {
                                    s.output_messages
                                },
                                None => s.output_messages,
                            },
                            terminal_ready: true,
                            ..numbered(closed, items.len() + 1)->0
                        },
                        told + items_done(items, n) + seq![
                            response_told(final_event(end), (n + items.len()) as u64, response),
                        ],
                    )
                }
            },
            None => EndOf::Invalid,
        },
        _ => EndOf::Invalid,
    }
}

/// Whether the end of an answer came to what is due.
pub open spec fn ends(
    due: EndView,
    before: StreamView,
    after: StreamView,
    r: EndOf<(), Vec<Streamed>, StreamTelemetry>,
) -> bool {
    match (due, r) {
        (EndOf::Complete(s, told), EndOf::Complete(_, events)) => after == s && streamed_views(
            events@,
        ) == told,
        (EndOf::Late(due), EndOf::Late(t)) => t@ == due && after == before,
        (EndOf::Invalid, EndOf::Invalid) => steady(before, after),
        _ => false,
    }
}

fn finish(
    stream: &mut ResponsesStreamState,
    told: Vec<Streamed>,
    reason: StopReason,
    message_id: &str,
    initial: &Usage,
    usage: ResponseUsage,
    limit: usize,
    model: &str,
    calls_are_logged: bool,
) -> (r: EndOf<(), Vec<Streamed>, StreamTelemetry>)
    ensures
        ends(
            finished(
                old(stream)@,
                streamed_views(told@),
                reason,
                message_id@,
                initial@,
                usage,
                limit,
                model@,
                calls_are_logged,
            ),
            old(stream)@,
            final(stream)@,
            r,
        ),
{
    let ghost s = stream@;
    let ghost due = finished(
        s,
        streamed_views(told@),
        reason,
        message_id@,
        initial@,
        usage,
        limit,
        model@,
        calls_are_logged,
    );
    let created_at: u64 = match stream.created_at {
        Some(at) => at,
        None => return EndOf::Invalid,
    };
    let completed = match terminal_status(reason) {
        Some((_, why)) => why.is_none(),
        None => return EndOf::Invalid,
    };
    let tier_name = match &initial.service_tier {
        Some(tier) => Some(tier.as_str()),
        None => None,
    };
    let service_tier = match stream_service_tier(tier_name) {
        Ok(tier) => tier,
        Err(_) => return EndOf::Invalid,
    };
    let item_status = if completed {
        OutputStatus::Completed
    } else {
        OutputStatus::Incomplete
    };
    let mut output: Vec<OutputItem> = Vec::new();
    std::mem::swap(&mut output, &mut stream.output);
    let items = match close_items(output, item_status, message_phase(reason)) {
        Ok(items) => items,
        Err(_) => return EndOf::Invalid,
    };
    let ghost closed_items = item_views(items@);
    let size = json_len(&render_items(&items));
    if size < 2 {
        return EndOf::Invalid;
    }
    stream.output = items;
    stream.retained_output_bytes = size - 2;
    let ghost closed = StreamOf {
        output: closed_items,
        retained_output_bytes: (size - 2) as usize,
        ..s
    };
    assert(stream@ == closed);
    if stream.ensure_retained_limit(limit, model).is_err() {
        return EndOf::Invalid;
    }
    let mut items: Vec<OutputItem> = Vec::new();
    std::mem::swap(&mut items, &mut stream.output);
    let count: usize = items.len();
    if count as u64 > u32::MAX as u64 + 1 {
        return EndOf::Invalid;
    }
    let n: u64 = match take_numbers(stream, count as u64 + 1) {
        Ok(n) => n,
        Err(_) => return EndOf::Invalid,
    };
    if calls_are_logged {
        match log_calls(&items, completed) {
            Some(log) => {
                stream.output_messages = Some(log);
            },
            None => {},
        }
    }
    let mut events = told;
    let ghost first = streamed_views(events@);
    let mut i: usize = 0;
    while i < items.len()
        invariant
            i <= items.len() == count,
            count <= u32::MAX + 1,
            n + count + 1 <= u64::MAX,
            item_views(items@) == closed_items,
            streamed_views(events@) == first + items_done(closed_items, n as nat).take(i as int),
        decreases items.len() - i,
    {
        let ghost before = streamed_views(events@);
        let done = tell_item("response.output_item.done", n + i as u64, i as u32, &items[i]);
        assert(closed_items[i as int] == items@[i as int]@);
        assert(done@ == items_done(closed_items, n as nat)[i as int]);
        events.push(done);
        assert(streamed_views(events@) == before.push(done@));
        assert(before.push(done@) == first + items_done(closed_items, n as nat).take(i as int + 1));
        i = i + 1;
    }
    let response = ResponseOf {
        id: join("resp_", message_id),
        created_at,
        status: if completed {
            Status::Completed
        } else {
            Status::Incomplete
        },
        output: items,
        model: owned(model),
        usage: Some(usage),
        service_tier,
    };
    let kind = if completed {
        "response.completed"
    } else {
        "response.incomplete"
    };
    let ghost before = streamed_views(events@);
    assert(items_done(closed_items, n as nat).take(count as int) == items_done(
        closed_items,
        n as nat,
    ));
    let last = tell_response(kind, n + count as u64, &response);
    events.push(last);
    assert(streamed_views(events@) == before + seq![last@]);
    stream.terminal_ready = true;
    assert(stream@.output == Seq::<ItemView>::empty());
    EndOf::Complete((), events)
}

/// The answer is over.
pub fn message_stop(
    stream: &mut ResponsesStreamState,
    limit: usize,
    model: &str,
    calls_are_logged: bool,
) -> (r: EndOf<(), Vec<Streamed>, StreamTelemetry>)
    ensures
        ends(
            stopped(old(stream)@, limit, model@, calls_are_logged),
            old(stream)@,
            final(stream)@,
            r,
        ),
{
    if !stream.saw_message_delta || stream.active_block.is_some() {
        return EndOf::Invalid;
    }
    let initial = match &stream.initial_usage {
        Some(u) => u.copy(),
        None => return EndOf::Invalid,
    };
    let terminal = match stream.terminal_usage {
        Some(u) => u,
        None => return EndOf::Invalid,
    };
    let reason = match stream.stop_reason {
        Some(reason) => reason,
        None => return EndOf::Invalid,
    };
    let message_id = match &stream.message_id {
        Some(id) => owned(id.as_str()),
        None => return EndOf::Invalid,
    };
    let usage = match stream_usage(&initial, &terminal) {
        Ok(u) => u,
        Err(_) => return EndOf::Invalid,
    };
    if !check_stop(stream, reason) || stream.ensure_retained_limit(limit, model).is_err() {
        return EndOf::Invalid;
    }
    let mut told: Vec<Streamed> = Vec::new();
    if reason == StopReason::Refusal {
        if stream.output.len() > 0 {
            return match commit_stream_telemetry(stream) {
                Ok(t) => EndOf::Late(t),
                Err(_) => EndOf::Invalid,
            };
        }
        let n: u64 = match take_numbers(stream, 4) {
            Ok(n) => n,
            Err(_) => return EndOf::Invalid,
        };
        let id = item_id("msg", message_id.as_str(), 0);
        told = tell_refusal(id.as_str(), n);
        match stream.retain_output(stream_empty_refusal_item(id, OutputStatus::InProgress)) {
            Ok(_) => {},
            Err(_) => return EndOf::Invalid,
        }
    } else {
        assert(streamed_views(told@) == Seq::<StreamedView>::empty());
    }
    finish(
        stream,
        told,
        reason,
        message_id.as_str(),
        &initial,
        usage,
        limit,
        model,
        calls_are_logged,
    )
}

/// How a stream is converted.
#[derive(Debug)]
pub struct StreamSettingsOf<S> {
    /// How many bytes a stream may keep.
    pub buffer_limit: usize,
    /// The model that the client asked for.
    pub model: S,
    /// Whether tool calls are logged.
    pub log_tool_calls: bool,
}

pub type StreamSettings = StreamSettingsOf<String>;

impl View for StreamSettingsOf<String> {
    type V = StreamSettingsOf<Seq<char>>;

    open spec fn view(&self) -> StreamSettingsOf<Seq<char>> {
        StreamSettingsOf {
            buffer_limit: self.buffer_limit,
            model: self.model@,
            log_tool_calls: self.log_tool_calls,
        }
    }
}

/// What arrives from upstream.
#[derive(Debug)]
pub enum StrictSseJsonEvent {
    /// An event with its name, if it has one, and its data.
    Data { event_name: Option<String>, data: Vec<u8> },
    Eof,
    Done,
    TransportError,
}

/// What a stream says to something that arrived.
#[derive(Debug)]
pub struct StreamStep {
    pub events: Vec<Streamed>,
    /// Whether the stream is over.
    pub terminated: bool,
    /// What is to be logged now.
    pub telemetry: Option<StreamTelemetry>,
}

/// A step as an end.
pub open spec fn as_end(step: Step) -> EndView {
    match step {
        Some((s, told)) => EndOf::Complete(s, told),
        None => EndOf::Invalid,
    }
}

/// What an event comes to, limits aside.
#[verifier::opaque]
pub open spec fn event_taken(
    s: StreamView,
    e: EventView,
    settings: StreamSettingsOf<Seq<char>>,
    tools: Table,
    at: Moment,
) -> EndView {
    match e {
        EventOf::MessageStart(m) => as_end(started(s, m, settings.model, at)),
        EventOf::ContentBlockStart { index, block } => as_end(
            block_started(s, index, block, tools),
        ),
        EventOf::ContentBlockDelta { index, delta } => as_end(
            delta_taken(s, index, delta, tools, at.instant),
        ),
        EventOf::ContentBlockStop { index } => as_end(block_stopped(s, index, tools, at.instant)),
        EventOf::MessageDelta { stop_reason, stop_sequence, usage } => as_end(
            end_told(s, stop_reason, stop_sequence, usage),
        ),
        EventOf::MessageStop => stopped(
            s,
            settings.buffer_limit,
            settings.model,
            settings.log_tool_calls,
        ),
        EventOf::Ping => EndOf::Complete(s, Seq::empty()),
    }
}

/// What is due on an event: what becomes of the stream, what the client is told and what is
/// logged. An event must come under its own name, and what the stream keeps must stay within the
/// limit. A response is only complete once its counts are logged.
pub open spec fn due_on(
    s: StreamView,
    event_name: Option<Seq<char>>,
    event: Option<EventView>,
    settings: StreamSettingsOf<Seq<char>>,
    tools: Table,
    at: Moment,
) -> EndOf<StreamView, (Seq<StreamedView>, Option<TelemetryView>), TelemetryView> {
    match event {
        None => EndOf::Invalid,
        Some(e) => if event_name != Some(event_name_of(e)) {
            EndOf::Invalid
        } else {
            match event_taken(s, e, settings, tools, at) {
                EndOf::Invalid => EndOf::Invalid,
                EndOf::Late(t) => EndOf::Late(t),
                EndOf::Complete(next, told) => if retained_size(next, settings.model)
                    > settings.buffer_limit {
                    EndOf::Invalid
                } else if next.terminal_ready {
                    match telemetry_of(next) {
                        Some(t) => EndOf::Complete(
                            StreamOf { terminated: true, ..next },
                            (told, Some(t)),
                        ),
                        None => EndOf::Invalid,
                    }
                } else {
                    EndOf::Complete(next, (told, None))
                },
            }
        },
    }
}

/// Whether a stream went on as is due: to its next state, or to its end with one error event.
pub open spec fn goes(
    due: EndOf<StreamView, (Seq<StreamedView>, Option<TelemetryView>), TelemetryView>,
    before: StreamView,
    after: StreamView,
    step: StreamStep,
) -> bool {
    let logged = match step.telemetry {
        Some(t) => Some(t@),
        None => None,
    };
    match due {
        EndOf::Complete(s, (told, t)) => {
            &&& after == s
            &&& streamed_views(step.events@) == told
            &&& step.terminated == s.terminated
            &&& logged == t
        },
        EndOf::Late(t) => failed(before, after, step, true) && logged == Some(t),
        EndOf::Invalid => failed(before, after, step, before.late_refusal) && logged is None,
    }
}

/// Whether a stream ended with one error event, numbered as if nothing else had been told since
/// the last event that was.
pub open spec fn failed(
    before: StreamView,
    after: StreamView,
    step: StreamStep,
    late: bool,
) -> bool {
    &&& streamed_views(step.events@) == seq![error_told(before.sequence_number, late)]
    &&& step.terminated
    &&& after.terminated
    &&& after.sequence_number == after_error(before).sequence_number
}

fn fail(stream: &mut ResponsesStreamState, checkpoint: u64, telemetry: Option<StreamTelemetry>) -> (r:
    StreamStep)
    requires
        !old(stream).terminated,
    ensures
        streamed_views(r.events@) == seq![error_told(checkpoint, old(stream).late_refusal)],
        r.terminated,
        r.telemetry == telemetry,
        final(stream)@ == after_error(
            (StreamOf { sequence_number: checkpoint, ..old(stream)@ }),
        ),
{
    stream.sequence_number = checkpoint;
    let events = stream.error_event();
    StreamStep { events, terminated: stream.terminated, telemetry }
}

fn from_step(r: Result<Vec<Streamed>, ()>) -> (e: EndOf<(), Vec<Streamed>, StreamTelemetry>)
    ensures
        match r {
            Ok(events) => e is Complete && e->Complete_1 == events,
            Err(_) => e is Invalid,
        },
{
    match r {
        Ok(events) => EndOf::Complete((), events),
        Err(_) => EndOf::Invalid,
    }
}

/// What an event comes to, limits aside.
fn react(
    stream: &mut ResponsesStreamState,
    event: MessagesStreamEvent,
    settings: &StreamSettings,
    state: &State,
    at: Moment,
) -> (r: EndOf<(), Vec<Streamed>, StreamTelemetry>)
    ensures
        ends(
            event_taken(old(stream)@, event@, settings@, state@, at),
            old(stream)@,
            final(stream)@,
            r,
        ),
{
    reveal(event_taken);
    match event {
        EventOf::MessageStart(m) => from_step(
            message_start(stream, m, settings.model.as_str(), at),
        ),
        EventOf::ContentBlockStart { index, block } => from_step(
            content_block_start(stream, index, block, state),
        ),
        EventOf::ContentBlockDelta { index, delta } => from_step(
            content_block_delta(stream, index, delta, state, at.instant),
        ),
        EventOf::ContentBlockStop { index } => from_step(
            content_block_stop(stream, index, state, at.instant),
        ),
        EventOf::MessageDelta { stop_reason, stop_sequence, usage } => from_step(
            message_delta(stream, stop_reason, stop_sequence, usage),
        ),
        EventOf::MessageStop => message_stop(
            stream,
            settings.buffer_limit,
            settings.model.as_str(),
            settings.log_tool_calls,
        ),
        EventOf::Ping => {
            let events: Vec<Streamed> = Vec::new();
            assert(streamed_views(events@) == Seq::<StreamedView>::empty());
            EndOf::Complete((), events)
        },
    }
}

/// Takes an event that has been read from its data, where it could be.
pub fn take_event(
    stream: &mut ResponsesStreamState,
    event_name: Option<&str>,
    event: Option<MessagesStreamEvent>,
    settings: &StreamSettings,
    state: &State,
    at: Moment,
) -> (r: StreamStep)
    requires
        !old(stream).terminated,
    ensures
        goes(
            due_on(
                old(stream)@,
                text_of(event_name),
                match event {
                    Some(e) => Some(e@),
                    None => None,
                },
                settings@,
                state@,
                at,
            ),
            old(stream)@,
            final(stream)@,
            r,
        ),
{
    let checkpoint: u64 = stream.sequence_number;
    let ghost s = stream@;
    let event = match event {
        Some(event) => event,
        None => return fail(stream, checkpoint, None),
    };
    let named = match event_name {
        Some(name) => same(name, event.event_name()),
        None => false,
    };
    if !named {
        return fail(stream, checkpoint, None);
    }
    let ghost e = event@;
    let events = match react(stream, event, settings, state, at) {
        EndOf::Complete(_, events) => events,
        EndOf::Late(t) => {
            stream.late_refusal = true;
            return fail(stream, checkpoint, Some(t));
        },
        EndOf::Invalid => return fail(stream, checkpoint, None),
    };
    proof {
        lemma_event_keeps(s, e, settings@, state@, at);
    }
    if stream.ensure_retained_limit(settings.buffer_limit, settings.model.as_str()).is_err() {
        return fail(stream, checkpoint, None);
    }
    if stream.terminal_ready {
        match commit_stream_telemetry(stream) {
            Ok(t) => {
                stream.terminated = true;
                StreamStep { events, terminated: true, telemetry: Some(t) }
            },
            Err(_) => fail(stream, checkpoint, None),
        }
    } else {
        StreamStep { events, terminated: stream.terminated, telemetry: None }
    }
}

/// No event by itself ends a stream or marks a late refusal.
proof fn lemma_event_keeps(
    s: StreamView,
    e: EventView,
    settings: StreamSettingsOf<Seq<char>>,
    tools: Table,
    at: Moment,
)
    ensures
        event_taken(s, e, settings, tools, at) matches EndOf::Complete(next, _) ==> steady(s, next),
{
    reveal(event_taken);
}

/// The event that data stands for, where it is one.
pub open spec fn event_in(data: Seq<u8>) -> Option<EventView> {
    match parsed(data) {
        Some(v) => event_of(v),
        None => None,
    }
}

/// Converts what arrives from upstream, one piece at a time. A stream that is over says nothing
/// more. One that breaks off, or is declared done by anything but its own last event, ends with
/// one error event.
pub fn translate_stream(
    stream: &mut ResponsesStreamState,
    event: StrictSseJsonEvent,
    settings: &StreamSettings,
    state: &State,
    at: Moment,
) -> (r: StreamStep)
    ensures
        if old(stream).terminated {
            &&& r.events@.len() == 0
            &&& r.terminated
            &&& r.telemetry is None
            &&& *final(stream) == *old(stream)
        } else {
            match event {
                StrictSseJsonEvent::Data { event_name, data } => goes(
                    due_on(
                        old(stream)@,
                        text_in(event_name),
                        event_in(data@),
                        settings@,
                        state@,
                        at,
                    ),
                    old(stream)@,
                    final(stream)@,
                    r,
                ),
                _ => goes(EndOf::Invalid, old(stream)@, final(stream)@, r),
            }
        },
{
    if stream.terminated {
        return StreamStep { events: Vec::new(), terminated: true, telemetry: None };
    }
    match event {
        StrictSseJsonEvent::Data { event_name, data } => {
            let event = match Json::parse(data.as_slice()) {
                Some(v) => read_event(&v),
                None => None,
            };
            let name = match &event_name {
                Some(name) => Some(name.as_str()),
                None => None,
            };
            take_event(stream, name, event, settings, state, at)
        },
        _ => {
            let checkpoint: u64 = stream.sequence_number;
            fail(stream, checkpoint, None)
        },
    }
}

} // verus!
