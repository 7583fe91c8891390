//! What holds of every stream: how its events are numbered, and how it ends.
use vstd::prelude::*;

use crate::decode::{DeltaOf, EventOf, EventView};
use crate::envelope::as_number;
use crate::json::{lemma_put_field, JsonView};
use crate::stream::{
    due_on, event_taken, finished, goes, items_done, refusal_told, stopped, EndOf, StreamSettingsOf,
    StreamStep,
};
use crate::stream_blocks::{
    block_started, block_stopped, call_finished, delta_taken, input_added, started, text_added,
    text_closed, text_opened, tool_closed, tool_opened, Moment, Step,
};
use crate::stream_events::{call_told, item_told, part_told, response_told, text_told};
use crate::stream_state::{
    error_told, event_head, retained_size, streamed_views, StreamBlockOf, StreamTextBlockOf,
    StreamToolBlockOf, StreamView, StreamedView,
};
use crate::tools::Table;

verus! {

/// The number of an event.
pub open spec fn number_of(e: StreamedView) -> Option<u64> {
    as_number(e.body.get("sequence_number"@))
}

/// Whether events are numbered one after the other, from a number on.
pub open spec fn numbered_from(events: Seq<StreamedView>, first: int) -> bool {
    forall|i: int|
        0 <= i < events.len() ==> first + i <= u64::MAX && number_of(#[trigger] events[i]) == Some(
            (first + i) as u64,
        )
}

/// Whether a step tells events with the next numbers, and uses up no others.
pub open spec fn keeps_count(s: StreamView, step: Step) -> bool {
    step matches Some((next, told)) ==> numbered_from(told, s.sequence_number as int)
        && next.sequence_number == s.sequence_number + told.len()
}

proof fn lemma_head_number(kind: Seq<char>, n: u64)
    ensures
        as_number(event_head(kind, n).get("sequence_number"@)) == Some(n),
        event_head(kind, n) is Object,
{
    lemma_put_field(
        JsonView::object().with("type"@, JsonView::Text(kind))->Object_0,
        "sequence_number"@,
        JsonView::Unsigned(n),
        "type"@,
    );
}

proof fn lemma_other_field(v: JsonView, name: Seq<char>, value: JsonView)
    requires
        v is Object,
        name != "sequence_number"@,
    ensures
        v.with(name, value).get("sequence_number"@) == v.get("sequence_number"@),
        v.with(name, value) is Object,
{
    lemma_put_field(v->Object_0, name, value, "sequence_number"@);
}

proof fn lemma_names()
    ensures
        "sequence_number"@ != "response"@,
        "sequence_number"@ != "output_index"@,
        "sequence_number"@ != "item"@,
        "sequence_number"@ != "item_id"@,
        "sequence_number"@ != "content_index"@,
        "sequence_number"@ != "part"@,
        "sequence_number"@ != "name"@,
        "sequence_number"@ != "delta"@,
        "sequence_number"@ != "text"@,
        "sequence_number"@ != "refusal"@,
        "sequence_number"@ != "arguments"@,
        "sequence_number"@ != "input"@,
        "sequence_number"@ != "code"@,
        "sequence_number"@ != "message"@,
        "sequence_number"@ != "param"@,
{
    reveal_strlit("sequence_number");
    reveal_strlit("response");
    reveal_strlit("output_index");
    reveal_strlit("item");
    reveal_strlit("item_id");
    reveal_strlit("content_index");
    reveal_strlit("part");
    reveal_strlit("name");
    reveal_strlit("delta");
    reveal_strlit("text");
    reveal_strlit("refusal");
    reveal_strlit("arguments");
    reveal_strlit("input");
    reveal_strlit("code");
    reveal_strlit("message");
    reveal_strlit("param");
    assert("sequence_number"@.len() == 15);
    assert("response"@.len() == 8);
    assert("output_index"@.len() == 12);
    assert("item"@.len() == 4);
    assert("item_id"@.len() == 7);
    assert("content_index"@.len() == 13);
    assert("part"@.len() == 4);
    assert("name"@.len() == 4);
    assert("delta"@.len() == 5);
    assert("text"@.len() == 4);
    assert("refusal"@.len() == 7);
    assert("arguments"@.len() == 9);
    assert("input"@.len() == 5);
    assert("code"@.len() == 4);
    assert("message"@.len() == 7);
    assert("param"@.len() == 5);
}

proof fn lemma_response_number(kind: Seq<char>, n: u64, response: crate::responses::ResponseView)
    ensures
        number_of(response_told(kind, n, response)) == Some(n),
{
    lemma_names();
    lemma_head_number(kind, n);
    lemma_other_field(
        event_head(kind, n),
        "response"@,
        crate::responses::response_json(response),
    );
}

proof fn lemma_item_number(
    kind: Seq<char>,
    n: u64,
    output_index: u32,
    item: crate::responses::ItemView,
)
    ensures
        number_of(item_told(kind, n, output_index, item)) == Some(n),
{
    lemma_names();
    lemma_head_number(kind, n);
    let head = event_head(kind, n);
    let index = JsonView::Unsigned(output_index as u64);
    lemma_other_field(head, "output_index"@, index);
    lemma_other_field(
        head.with("output_index"@, index),
        "item"@,
        crate::responses::item_json(item),
    );
}

proof fn lemma_place_number(
    head: JsonView,
    item_id: Seq<char>,
    output_index: u32,
    content_index: u32,
)
    requires
        head is Object,
    ensures
        crate::stream_events::part_place(head, item_id, output_index, content_index).get(
            "sequence_number"@,
        ) == head.get("sequence_number"@),
        crate::stream_events::part_place(head, item_id, output_index, content_index) is Object,
{
    lemma_names();
    let a = JsonView::Text(item_id);
    let b = JsonView::Unsigned(output_index as u64);
    let c = JsonView::Unsigned(content_index as u64);
    lemma_other_field(head, "item_id"@, a);
    lemma_other_field(head.with("item_id"@, a), "output_index"@, b);
    lemma_other_field(
        head.with("item_id"@, a).with("output_index"@, b),
        "content_index"@,
        c,
    );
}

proof fn lemma_part_number(
    kind: Seq<char>,
    n: u64,
    item_id: Seq<char>,
    output_index: u32,
    content_index: u32,
    part: crate::responses::PartView,
)
    ensures
        number_of(part_told(kind, n, item_id, output_index, content_index, part)) == Some(n),
{
    lemma_names();
    lemma_head_number(kind, n);
    lemma_place_number(event_head(kind, n), item_id, output_index, content_index);
    lemma_other_field(
        crate::stream_events::part_place(
            event_head(kind, n),
            item_id,
            output_index,
            content_index,
        ),
        "part"@,
        crate::responses::part_json(part),
    );
}

proof fn lemma_text_number(
    kind: Seq<char>,
    n: u64,
    item_id: Seq<char>,
    output_index: u32,
    content_index: u32,
    field: Seq<char>,
    text: Seq<char>,
)
    requires
        field != "sequence_number"@,
    ensures
        number_of(text_told(kind, n, item_id, output_index, content_index, field, text)) == Some(n),
{
    lemma_head_number(kind, n);
    lemma_place_number(event_head(kind, n), item_id, output_index, content_index);
    lemma_other_field(
        crate::stream_events::part_place(
            event_head(kind, n),
            item_id,
            output_index,
            content_index,
        ),
        field,
        JsonView::Text(text),
    );
}

proof fn lemma_call_number(
    kind: Seq<char>,
    n: u64,
    item_id: Seq<char>,
    output_index: u32,
    name: Option<Seq<char>>,
    field: Seq<char>,
    text: Seq<char>,
)
    requires
        field != "sequence_number"@,
    ensures
        number_of(call_told(kind, n, item_id, output_index, name, field, text)) == Some(n),
{
    lemma_names();
    lemma_head_number(kind, n);
    let head = event_head(kind, n);
    let a = JsonView::Text(item_id);
    let b = JsonView::Unsigned(output_index as u64);
    lemma_other_field(head, "item_id"@, a);
    lemma_other_field(head.with("item_id"@, a), "output_index"@, b);
    let placed = head.with("item_id"@, a).with("output_index"@, b);
    match name {
        Some(name) => {
            lemma_other_field(placed, "name"@, JsonView::Text(name));
            lemma_other_field(
                placed.with("name"@, JsonView::Text(name)),
                field,
                JsonView::Text(text),
            );
        },
        None => {
            lemma_other_field(placed, field, JsonView::Text(text));
        },
    }
}

proof fn lemma_error_number(n: u64, late: bool)
    ensures
        number_of(error_told(n, late)) == Some(n),
{
    lemma_names();
    lemma_head_number("error"@, n);
    let head = event_head("error"@, n);
    let code = JsonView::Text(
        if late {
            "refusal_after_streaming"@
        } else {
            "server_error"@
        },
    );
    let message = error_told(n, late).body.get("message"@);
    lemma_other_field(head, "code"@, code);
    let coded = head.with("code"@, code);
    let said = JsonView::Text(
        if late {
            "Anthropic reported a refusal after content had already been streamed as ordinary text; the emitted content cannot be retyped as a refusal"@
        } else {
            "Upstream Anthropic stream was invalid"@
        },
    );
    lemma_other_field(coded, "message"@, said);
    lemma_other_field(coded.with("message"@, said), "param"@, JsonView::Null);
}

proof fn lemma_text_opened(s: StreamView, message_id: Seq<char>, index: usize)
    ensures
        keeps_count(s, text_opened(s, message_id, index)),
{
    match text_opened(s, message_id, index) {
        Some((next, told)) => {
            let (output_index, content_index, id, _) = crate::stream_blocks::text_place(
                s,
                message_id,
                index,
            );
            let n = s.sequence_number;
            let part = crate::responses::PartOf::OutputText(Seq::empty());
            lemma_item_number(
                "response.output_item.added"@,
                n,
                output_index as u32,
                crate::items::message_item(
                    id,
                    Seq::empty(),
                    crate::responses::OutputStatus::InProgress,
                ),
            );
            lemma_part_number(
                "response.content_part.added"@,
                n,
                id,
                output_index as u32,
                content_index as u32,
                part,
            );
            lemma_part_number(
                "response.content_part.added"@,
                (n + 1) as u64,
                id,
                output_index as u32,
                content_index as u32,
                part,
            );
        },
        None => {},
    }
}

proof fn lemma_tool_opened(
    s: StreamView,
    message_id: Seq<char>,
    index: usize,
    id: Seq<char>,
    name: Seq<char>,
    input: JsonView,
    caller: Option<JsonView>,
    marked: bool,
    tools: Table,
)
    ensures
        keeps_count(s, tool_opened(s, message_id, index, id, name, input, caller, marked, tools)),
{
    match crate::stream_blocks::call_announced(message_id, index, id, name, tools) {
        Some((_, Some(item))) => {
            lemma_item_number(
                "response.output_item.added"@,
                s.sequence_number,
                s.output.len() as u32,
                item,
            );
        },
        _ => {},
    }
}

proof fn lemma_text_added(
    s: StreamView,
    b: StreamTextBlockOf<Seq<char>>,
    text: Seq<char>,
    now: u64,
)
    ensures
        keeps_count(s, text_added(s, b, text, now)),
{
    lemma_names();
    lemma_text_number(
        "response.output_text.delta"@,
        s.sequence_number,
        b.item_id,
        b.output_index,
        b.content_index,
        "delta"@,
        text,
    );
}

proof fn lemma_input_added(
    s: StreamView,
    b: StreamToolBlockOf<Seq<char>>,
    json: Seq<char>,
    tools: Table,
    now: u64,
)
    ensures
        keeps_count(s, input_added(s, b, json, tools, now)),
{
    lemma_names();
    lemma_call_number(
        "response.function_call_arguments.delta"@,
        s.sequence_number,
        b.item_id,
        b.output_index,
        None,
        "delta"@,
        json,
    );
}

proof fn lemma_text_closed(s: StreamView, b: StreamTextBlockOf<Seq<char>>)
    ensures
        keeps_count(s, text_closed(s, b)),
{
    lemma_names();
    let n = s.sequence_number;
    lemma_text_number(
        "response.output_text.done"@,
        n,
        b.item_id,
        b.output_index,
        b.content_index,
        "text"@,
        b.text,
    );
    lemma_part_number(
        "response.content_part.done"@,
        (n + 1) as u64,
        b.item_id,
        b.output_index,
        b.content_index,
        crate::responses::PartOf::OutputText(b.text),
    );
}

proof fn lemma_call_finished(
    b: StreamToolBlockOf<Seq<char>>,
    declared: crate::tools::DeclaredOf<Seq<char>>,
    input: JsonView,
    item: crate::responses::ItemView,
    n: u64,
)
    requires
        n + call_finished(b, declared, input, item, n).len() <= u64::MAX,
    ensures
        numbered_from(call_finished(b, declared, input, item, n), n as int),
{
    lemma_names();
    let told = call_finished(b, declared, input, item, n);
    let next = (n + 1) as u64;
    let arguments = crate::codec::json_text(crate::calls::at(input, "arguments"@));
    let text = crate::calls::at(input, "input"@)->Text_0;
    match declared {
        crate::tools::DeclaredOf::Function => {
            lemma_call_number(
                "response.function_call_arguments.done"@,
                n,
                b.item_id,
                b.output_index,
                Some(b.upstream_name),
                "arguments"@,
                crate::stream_blocks::input_text(b),
            );
        },
        crate::tools::DeclaredOf::Wrapped(w) => {
            lemma_call_number(
                "response.function_call_arguments.delta"@,
                n,
                b.item_id,
                b.output_index,
                None,
                "delta"@,
                arguments,
            );
            lemma_call_number(
                "response.function_call_arguments.done"@,
                next,
                b.item_id,
                b.output_index,
                Some(w.name),
                "arguments"@,
                arguments,
            );
            lemma_call_number(
                "response.custom_tool_call_input.delta"@,
                n,
                b.item_id,
                b.output_index,
                None,
                "delta"@,
                text,
            );
            lemma_call_number(
                "response.custom_tool_call_input.done"@,
                next,
                b.item_id,
                b.output_index,
                None,
                "input"@,
                text,
            );
            lemma_item_number("response.output_item.added"@, n, b.output_index, item);
        },
    }
}

proof fn lemma_tool_closed(
    s: StreamView,
    b: StreamToolBlockOf<Seq<char>>,
    input: Option<JsonView>,
    tools: Table,
    now: u64,
)
    ensures
        keeps_count(s, tool_closed(s, b, input, tools, now)),
{
    match (input, crate::tools::tool_named(tools, b.upstream_name), s.message_id) {
        (Some(JsonView::Object(fields)), Some(declared), Some(message_id)) => {
            let given = JsonView::Object(fields);
            let item = crate::items::item_of(
                crate::calls::tool_item(
                    message_id,
                    b.index as nat,
                    "in_progress"@,
                    b.call_id,
                    b.upstream_name,
                    given,
                    tools,
                )->0,
            );
            if item is Some {
                let told = call_finished(b, declared, given, item->0, s.sequence_number);
                if s.sequence_number + told.len() <= u64::MAX {
                    lemma_call_finished(b, declared, given, item->0, s.sequence_number);
                }
            }
        },
        _ => {},
    }
}

proof fn lemma_items_done(items: Seq<crate::responses::ItemView>, n: nat)
    requires
        n + items.len() <= u64::MAX,
    ensures
        numbered_from(items_done(items, n), n as int),
{
    assert forall|i: int| 0 <= i < items_done(items, n).len() implies n + i <= u64::MAX
        && number_of(#[trigger] items_done(items, n)[i]) == Some((n + i) as u64) by {
        lemma_item_number("response.output_item.done"@, (n + i) as u64, i as u32, items[i]);
    }
}

proof fn lemma_refusal_told(id: Seq<char>, n: nat)
    requires
        n + 4 <= u64::MAX,
    ensures
        numbered_from(refusal_told(id, n), n as int),
{
    lemma_names();
    let part = crate::responses::PartOf::Refusal(Seq::empty());
    lemma_item_number(
        "response.output_item.added"@,
        n as u64,
        0,
        crate::items::message_item(
            id,
            Seq::empty(),
            crate::responses::OutputStatus::InProgress,
        ),
    );
    lemma_part_number("response.content_part.added"@, (n + 1) as u64, id, 0, 0, part);
    lemma_text_number(
        "response.refusal.done"@,
        (n + 2) as u64,
        id,
        0,
        0,
        "refusal"@,
        Seq::empty(),
    );
    lemma_part_number("response.content_part.done"@, (n + 3) as u64, id, 0, 0, part);
}

proof fn lemma_joined(a: Seq<StreamedView>, b: Seq<StreamedView>, first: int)
    requires
        numbered_from(a, first),
        numbered_from(b, first + a.len()),
    ensures
        numbered_from(a + b, first),
{
    assert forall|i: int| 0 <= i < (a + b).len() implies first + i <= u64::MAX && number_of(
        #[trigger] (a + b)[i],
    ) == Some((first + i) as u64) by {
        if i < a.len() {
            assert((a + b)[i] == a[i]);
        } else {
            assert((a + b)[i] == b[i - a.len()]);
        }
    }
}

proof fn lemma_finished(
    s: StreamView,
    told: Seq<StreamedView>,
    first: int,
    reason: crate::messages::StopReason,
    message_id: Seq<char>,
    initial: crate::messages::UsageOf<Seq<char>>,
    usage: crate::usage::ResponseUsage,
    limit: usize,
    model: Seq<char>,
    log_calls: bool,
)
    requires
        numbered_from(told, first),
        s.sequence_number == first + told.len(),
    ensures
        finished(s, told, reason, message_id, initial, usage, limit, model, log_calls) matches
            EndOf::Complete(next, all) ==> numbered_from(all, first) && next.sequence_number == first
            + all.len(),
{
    match finished(s, told, reason, message_id, initial, usage, limit, model, log_calls) {
        EndOf::Complete(next, all) => {
            let end = crate::usage::ending(reason)->0;
            let items = crate::stream::items_closed(
                s.output,
                crate::stream::final_item_status(end),
                crate::usage::phase_of(reason),
                0,
            )->0;
            let n = s.sequence_number as nat;
            let done = items_done(items, n);
            assert(n + items.len() + 1 <= u64::MAX);
            lemma_items_done(items, n);
            lemma_joined(told, done, first);
            let response = crate::responses::ResponseOf {
                id: crate::stream_blocks::response_id_of(message_id),
                created_at: s.created_at->0,
                status: crate::stream::final_status(end),
                output: items,
                model,
                usage: Some(usage),
                service_tier: crate::usage::tier_in(initial.service_tier)->0,
            };
            let last = response_told(
                crate::stream::final_event(end),
                (n + items.len()) as u64,
                response,
            );
            lemma_response_number(
                crate::stream::final_event(end),
                (n + items.len()) as u64,
                response,
            );
            assert(numbered_from(seq![last], (n + items.len()) as int));
            lemma_joined(told + done, seq![last], first);
            assert(all == told + done + seq![last]);
        },
        _ => {},
    }
}

proof fn lemma_stopped(s: StreamView, limit: usize, model: Seq<char>, log_calls: bool)
    ensures
        stopped(s, limit, model, log_calls) matches EndOf::Complete(next, told) ==> numbered_from(
            told,
            s.sequence_number as int,
        ) && next.sequence_number == s.sequence_number + told.len(),
{
    match (s.initial_usage, s.terminal_usage, s.stop_reason, s.message_id) {
        (Some(initial), Some(terminal), Some(reason), Some(message_id)) => {
            let usage = crate::usage::stream_told(initial, terminal)->0;
            if reason == crate::messages::StopReason::Refusal {
                let id = crate::calls::item_id_of("msg"@, message_id, 0);
                match crate::stream_blocks::numbered(s, 4) {
                    Some(told) => {
                        lemma_refusal_told(id, s.sequence_number as nat);
                        match crate::stream_state::retained(
                            told,
                            crate::items::empty_refusal_item(
                                id,
                                crate::responses::OutputStatus::InProgress,
                            ),
                        ) {
                            Some(kept) => {
                                lemma_finished(
                                    kept,
                                    refusal_told(id, s.sequence_number as nat),
                                    s.sequence_number as int,
                                    reason,
                                    message_id,
                                    initial,
                                    usage,
                                    limit,
                                    model,
                                    log_calls,
                                );
                            },
                            None => {},
                        }
                    },
                    None => {},
                }
            } else {
                lemma_finished(
                    s,
                    Seq::empty(),
                    s.sequence_number as int,
                    reason,
                    message_id,
                    initial,
                    usage,
                    limit,
                    model,
                    log_calls,
                );
            }
        },
        _ => {},
    }
}

proof fn lemma_started(
    s: StreamView,
    m: crate::decode::StartOf<Seq<char>>,
    model: Seq<char>,
    at: Moment,
)
    ensures
        keeps_count(s, started(s, m, model, at)),
{
    match crate::usage::tier_in(m.usage.service_tier) {
        Some(tier) => {
            let snapshot = crate::stream_blocks::snapshot_of(m.id, at.seconds, model, tier);
            lemma_response_number("response.created"@, s.sequence_number, snapshot);
            lemma_response_number(
                "response.in_progress"@,
                (s.sequence_number + 1) as u64,
                snapshot,
            );
        },
        None => {},
    }
}

proof fn lemma_block_started(
    s: StreamView,
    index: usize,
    block: crate::decode::BlockView,
    tools: Table,
)
    ensures
        keeps_count(s, block_started(s, index, block, tools)),
{
    if s.message_id is Some && s.next_block_index < usize::MAX {
        let next = crate::stream_state::StreamOf {
            next_block_index: (s.next_block_index + 1) as usize,
            ..s
        };
        match block {
            crate::decode::BlockOf::Text { text, marked } => {
                lemma_text_opened(next, s.message_id->0, index);
            },
            crate::decode::BlockOf::ToolUse { id, name, input, caller, marked } => {
                lemma_tool_opened(
                    next,
                    s.message_id->0,
                    index,
                    id,
                    name,
                    input,
                    caller,
                    marked,
                    tools,
                );
            },
            _ => {},
        }
    }
}

proof fn lemma_delta_taken(
    s: StreamView,
    index: usize,
    delta: DeltaOf<Seq<char>>,
    tools: Table,
    now: u64,
)
    ensures
        keeps_count(s, delta_taken(s, index, delta, tools, now)),
{
    match (s.active_block, delta) {
        (Some(StreamBlockOf::Text(b)), DeltaOf::Text(text)) => {
            lemma_text_added(s, b, text, now);
        },
        (Some(StreamBlockOf::Tool(b)), DeltaOf::InputJson(json)) => {
            lemma_input_added(s, b, json, tools, now);
        },
        _ => {},
    }
}

proof fn lemma_block_stopped(s: StreamView, index: usize, tools: Table, now: u64)
    ensures
        keeps_count(s, block_stopped(s, index, tools, now)),
{
    let taken = crate::stream_state::StreamOf { active_block: None, ..s };
    match s.active_block {
        Some(StreamBlockOf::Text(b)) => {
            lemma_text_closed(taken, b);
        },
        Some(StreamBlockOf::Tool(b)) => {
            lemma_tool_closed(
                taken,
                b,
                crate::codec::parsed(
                    vstd::utf8::encode_utf8(crate::stream_blocks::input_text(b)),
                ),
                tools,
                now,
            );
        },
        _ => {},
    }
}

proof fn lemma_event_numbers(
    s: StreamView,
    e: EventView,
    settings: StreamSettingsOf<Seq<char>>,
    tools: Table,
    at: Moment,
)
    ensures
        event_taken(s, e, settings, tools, at) matches EndOf::Complete(next, told)
            ==> numbered_from(told, s.sequence_number as int) && next.sequence_number
            == s.sequence_number + told.len(),
{
    reveal(event_taken);
    match e {
        EventOf::MessageStart(m) => {
            lemma_started(s, m, settings.model, at);
        },
        EventOf::ContentBlockStart { index, block } => {
            lemma_block_started(s, index, block, tools);
        },
        EventOf::ContentBlockDelta { index, delta } => {
            lemma_delta_taken(s, index, delta, tools, at.instant);
        },
        EventOf::ContentBlockStop { index } => {
            lemma_block_stopped(s, index, tools, at.instant);
        },
        EventOf::MessageStop => {
            lemma_stopped(
                s,
                settings.buffer_limit,
                settings.model,
                settings.log_tool_calls,
            );
        },
        _ => {},
    }
}

/// What a stream tells at one step is numbered one after the other, from the number that was next,
/// and the number after these is then next: unless the stream is over, none is left out.
pub proof fn lemma_step_is_numbered(
    before: StreamView,
    after: StreamView,
    event_name: Option<Seq<char>>,
    event: Option<EventView>,
    settings: StreamSettingsOf<Seq<char>>,
    tools: Table,
    at: Moment,
    step: StreamStep,
)
    requires
        goes(due_on(before, event_name, event, settings, tools, at), before, after, step),
    ensures
        numbered_from(streamed_views(step.events@), before.sequence_number as int),
        after.terminated || after.sequence_number == before.sequence_number + step.events@.len(),
        step.terminated == after.terminated,
{
    match event {
        Some(e) => {
            lemma_event_numbers(before, e, settings, tools, at);
        },
        None => {},
    }
    lemma_error_number(before.sequence_number, true);
    lemma_error_number(before.sequence_number, before.late_refusal);
}

/// A stream goes on only while what it keeps is within the limit.
pub proof fn lemma_step_keeps_limit(
    before: StreamView,
    after: StreamView,
    event_name: Option<Seq<char>>,
    event: Option<EventView>,
    settings: StreamSettingsOf<Seq<char>>,
    tools: Table,
    at: Moment,
    step: StreamStep,
)
    requires
        goes(due_on(before, event_name, event, settings, tools, at), before, after, step),
    ensures
        !after.terminated ==> retained_size(after, settings.model) <= settings.buffer_limit,
{
}

/// Something that arrives at a stream: an event under a name, and when.
pub struct Arrival {
    pub event_name: Option<Seq<char>>,
    /// None where what arrived is no event.
    pub event: Option<EventView>,
    pub at: Moment,
}

/// Whether a stream takes something that arrives, and tells what it does: nothing once it is over.
pub open spec fn takes(
    before: StreamView,
    after: StreamView,
    told: Seq<StreamedView>,
    a: Arrival,
    settings: StreamSettingsOf<Seq<char>>,
    tools: Table,
) -> bool {
    if before.terminated {
        after == before && told.len() == 0
    } else {
        exists|step: StreamStep| #[trigger]
            goes(
                due_on(before, a.event_name, a.event, settings, tools, a.at),
                before,
                after,
                step,
            ) && streamed_views(step.events@) == told
    }
}

/// Whether a stream goes through states, taking what arrives and telling what it does.
pub open spec fn runs(
    states: Seq<StreamView>,
    told: Seq<Seq<StreamedView>>,
    arrivals: Seq<Arrival>,
    settings: StreamSettingsOf<Seq<char>>,
    tools: Table,
) -> bool {
    &&& states.len() == arrivals.len() + 1
    &&& told.len() == arrivals.len()
    &&& forall|i: int, j: int|
        #![trigger states[i], states[j]]
        0 <= i < arrivals.len() && j == i + 1 ==> takes(
            states[i],
            states[j],
            told[i],
            arrivals[i],
            settings,
            tools,
        )
}

proof fn lemma_takes_numbered(
    before: StreamView,
    after: StreamView,
    told: Seq<StreamedView>,
    a: Arrival,
    settings: StreamSettingsOf<Seq<char>>,
    tools: Table,
)
    requires
        takes(before, after, told, a, settings, tools),
    ensures
        numbered_from(told, before.sequence_number as int),
        after.terminated || after.sequence_number == before.sequence_number + told.len(),
        before.terminated ==> told.len() == 0 && after == before,
{
    if !before.terminated {
        let step = choose|step: StreamStep| #[trigger]
            goes(
                due_on(before, a.event_name, a.event, settings, tools, a.at),
                before,
                after,
                step,
            ) && streamed_views(step.events@) == told;
        lemma_step_is_numbered(
            before,
            after,
            a.event_name,
            a.event,
            settings,
            tools,
            a.at,
            step,
        );
    }
}

/// All that a stream tells, from its first step to its last, is numbered one after the other.
/// Once it is over it tells nothing more.
pub proof fn lemma_run_is_numbered(
    states: Seq<StreamView>,
    told: Seq<Seq<StreamedView>>,
    arrivals: Seq<Arrival>,
    settings: StreamSettingsOf<Seq<char>>,
    tools: Table,
)
    requires
        runs(states, told, arrivals, settings, tools),
    ensures
        numbered_from(told.flatten(), states[0].sequence_number as int),
        states[0].terminated ==> told.flatten().len() == 0,
    decreases told.len(),
{
    if told.len() > 0 {
        let rest = told.drop_first();
        let later = states.drop_first();
        let ahead = arrivals.drop_first();
        assert(states[0] == states[0] && states[1] == later[0]);
        lemma_takes_numbered(states[0], states[1], told[0], arrivals[0], settings, tools);
        assert(runs(later, rest, ahead, settings, tools)) by {
            assert forall|i: int, j: int|
                #![trigger later[i], later[j]]
                0 <= i < ahead.len() && j == i + 1 implies takes(
                later[i],
                later[j],
                rest[i],
                ahead[i],
                settings,
                tools,
            ) by {
                assert(later[i] == states[i + 1]);
                assert(later[j] == states[j + 1]);
            }
        }
        lemma_run_is_numbered(later, rest, ahead, settings, tools);
        assert(told.flatten() == told[0] + rest.flatten());
        if later[0].terminated {
            assert(rest.flatten().len() == 0);
            assert(told.flatten() == told[0]);
        } else {
            lemma_joined(told[0], rest.flatten(), states[0].sequence_number as int);
        }
    }
}

/// A stream after pieces of text came for a block, where it takes them all.
pub open spec fn fed(s: StreamView, index: usize, pieces: Seq<Seq<char>>, tools: Table, now: u64) -> Option<
    StreamView,
>
    decreases pieces.len(),
{
    if pieces.len() == 0 {
        Some(s)
    } else {
        match fed(s, index, pieces.drop_last(), tools, now) {
            None => None,
            Some(before) => match delta_taken(
                before,
                index,
                DeltaOf::Text(pieces.last()),
                tools,
                now,
            ) {
                Some((after, _)) => Some(after),
                None => None,
            },
        }
    }
}

/// Pieces of text, one after the other.
pub open spec fn joined(pieces: Seq<Seq<char>>) -> Seq<char>
    decreases pieces.len(),
{
    if pieces.len() == 0 {
        Seq::empty()
    } else {
        joined(pieces.drop_last()) + pieces.last()
    }
}

/// The text that is told as done, and kept, is that of the pieces that were told before: they
/// were passed on as they came, and nothing was added or left out.
pub proof fn lemma_pieces_add_up(
    s: StreamView,
    b: StreamTextBlockOf<Seq<char>>,
    pieces: Seq<Seq<char>>,
    tools: Table,
    now: u64,
)
    requires
        s.active_block == Some(StreamBlockOf::Text(b)),
        b.text.len() == 0,
    ensures
        fed(s, b.index, pieces, tools, now) matches Some(after) ==> after.active_block == Some(
            StreamBlockOf::Text(StreamTextBlockOf { text: joined(pieces), ..b }),
        ),
        fed(s, b.index, pieces, tools, now) matches Some(after) ==> block_stopped(
            after,
            b.index,
            tools,
            now,
        ) == text_closed(
            (crate::stream_state::StreamOf { active_block: None, ..after }),
            StreamTextBlockOf { text: joined(pieces), ..b },
        ),
    decreases pieces.len(),
{
    if pieces.len() == 0 {
        assert(b.text == joined(pieces));
    } else {
        lemma_pieces_add_up(s, b, pieces.drop_last(), tools, now);
    }
}

} // verus!
