//! What a stream says nothing of: pings, thinking, and when things arrive.
use vstd::prelude::*;

use crate::calls::item_id_of;
use crate::decode::{
    block_of, delta_of, event_of, BlockOf, BlockView, DeltaOf, EventOf, EventView, StartOf,
};
use crate::items::empty_refusal_item;
use crate::json::{lemma_put_field, JsonView};
use crate::messages::{StopReason, UsageOf};
use crate::responses::{OutputStatus, ResponseOf, ResponseView};
use crate::stream::{
    due_on, event_taken, final_event, final_item_status, final_status, finished, goes, items_closed,
    items_done, refusal_told, stopped, EndOf, EndView, StreamSettingsOf, StreamStep,
};
use crate::stream_blocks::{
    block_started, block_stopped, delta_taken, numbered, response_id_of, snapshot_of, started,
    Moment, Step,
};
use crate::stream_events::response_told;
use crate::stream_laws::{runs, takes, Arrival};
use crate::stream_state::{
    retained, retained_size, streamed_views, StreamOf, StreamView, StreamedView,
};
use crate::tools::Table;
use crate::usage::{ending, phase_of, stream_told, tier_in, ResponseUsage};

verus! {

/// Whether two values are the same but for what is thought in them: the text of a piece of
/// thinking, that of a signature, which stays one, or the data of redacted thinking.
pub open spec fn rethought(v: JsonView, w: JsonView) -> bool {
    ||| v == w
    ||| exists|text: Seq<char>| #[trigger]
        delta_rewritten(v, w, "thinking_delta"@, "thinking"@, text)
    ||| exists|text: Seq<char>| #[trigger]
        delta_rewritten(v, w, "signature_delta"@, "signature"@, text) && text.len() > 0 && (v.get(
            "delta"@,
        )->0).text_at("signature"@)->0.len() > 0
    ||| exists|text: Seq<char>| #[trigger] data_rewritten(v, w, text)
}

/// Whether a value tells a piece of some kind, and the other the same piece with another text.
pub open spec fn delta_rewritten(
    v: JsonView,
    w: JsonView,
    kind: Seq<char>,
    name: Seq<char>,
    text: Seq<char>,
) -> bool {
    v.get("delta"@) matches Some(delta) && delta.text_at("type"@) == Some(kind) && delta.text_at(
        name,
    ) is Some && w == v.with("delta"@, delta.with(name, JsonView::Text(text)))
}

/// Whether a value tells redacted thinking, and the other the same with other data.
pub open spec fn data_rewritten(v: JsonView, w: JsonView, text: Seq<char>) -> bool {
    v.get("content_block"@) matches Some(block) && block.text_at("type"@) == Some(
        "redacted_thinking"@,
    ) && block.text_at("data"@) is Some && w == v.with(
        "content_block"@,
        block.with("data"@, JsonView::Text(text)),
    )
}

/// Whether two events are the same but for the text of a signature that each of them has.
pub open spec fn same_event(e: Option<EventView>, f: Option<EventView>) -> bool {
    e == f || match (e, f) {
        (
            Some(EventOf::ContentBlockDelta { index: i, delta: DeltaOf::Signature(a) }),
            Some(EventOf::ContentBlockDelta { index: j, delta: DeltaOf::Signature(b) }),
        ) => i == j && a.len() > 0 && b.len() > 0,
        _ => false,
    }
}

proof fn lemma_names()
    ensures
        "delta"@ != "type"@,
        "delta"@ != "index"@,
        "delta"@ != "content_block"@,
        "delta"@ != "message"@,
        "delta"@ != "usage"@,
        "content_block"@ != "type"@,
        "content_block"@ != "index"@,
        "content_block"@ != "message"@,
        "content_block"@ != "usage"@,
        "thinking"@ != "type"@,
        "signature"@ != "type"@,
        "data"@ != "type"@,
        "thinking"@ != "stop_reason"@,
        "thinking"@ != "stop_sequence"@,
        "signature"@ != "stop_reason"@,
        "signature"@ != "stop_sequence"@,
        "thinking_delta"@ != "text_delta"@,
        "thinking_delta"@ != "input_json_delta"@,
        "signature_delta"@ != "text_delta"@,
        "signature_delta"@ != "input_json_delta"@,
        "signature_delta"@ != "thinking_delta"@,
        "redacted_thinking"@ != "text"@,
        "redacted_thinking"@ != "tool_use"@,
        "redacted_thinking"@ != "thinking"@,
{
    reveal_strlit("delta");
    reveal_strlit("type");
    reveal_strlit("index");
    reveal_strlit("content_block");
    reveal_strlit("message");
    reveal_strlit("usage");
    reveal_strlit("thinking");
    reveal_strlit("signature");
    reveal_strlit("data");
    reveal_strlit("stop_reason");
    reveal_strlit("stop_sequence");
    reveal_strlit("thinking_delta");
    reveal_strlit("signature_delta");
    reveal_strlit("text_delta");
    reveal_strlit("input_json_delta");
    reveal_strlit("redacted_thinking");
    reveal_strlit("text");
    reveal_strlit("tool_use");
    assert("delta"@[0] == 'd' && "index"@[0] == 'i' && "usage"@[0] == 'u');
    assert("data"@[0] == 'd' && "type"@[0] == 't');
    assert("delta"@.len() == 5);
    assert("type"@.len() == 4);
    assert("index"@.len() == 5);
    assert("content_block"@.len() == 13);
    assert("message"@.len() == 7);
    assert("usage"@.len() == 5);
    assert("thinking"@.len() == 8);
    assert("signature"@.len() == 9);
    assert("data"@.len() == 4);
    assert("stop_reason"@.len() == 11);
    assert("stop_sequence"@.len() == 13);
    assert("thinking_delta"@.len() == 14);
    assert("signature_delta"@.len() == 15);
    assert("text_delta"@.len() == 10);
    assert("input_json_delta"@.len() == 16);
    assert("redacted_thinking"@.len() == 17);
    assert("text"@.len() == 4);
    assert("tool_use"@.len() == 8);
}

/// What a value tells with other thoughts in it is the same event, but for the text of a
/// signature.
pub proof fn lemma_thoughts_are_not_read(v: JsonView, w: JsonView)
    requires
        rethought(v, w),
    ensures
        same_event(event_of(v), event_of(w)),
{
    lemma_names();
    if v != w {
        let fields = v->Object_0;
        if exists|text: Seq<char>| #[trigger] data_rewritten(v, w, text) {
            let text = choose|text: Seq<char>| #[trigger] data_rewritten(v, w, text);
            let block = v.get("content_block"@)->0;
            let other = block.with("data"@, JsonView::Text(text));
            lemma_put_field(block->Object_0, "data"@, JsonView::Text(text), "type"@);
            lemma_put_field(fields, "content_block"@, other, "type"@);
            lemma_put_field(fields, "content_block"@, other, "index"@);
            lemma_put_field(fields, "content_block"@, other, "message"@);
            lemma_put_field(fields, "content_block"@, other, "delta"@);
            lemma_put_field(fields, "content_block"@, other, "usage"@);
            assert(block_of(block) == Some(BlockOf::<Seq<char>, JsonView>::RedactedThinking));
            assert(block_of(other) == block_of(block));
        } else {
            let (kind, name, text) = if exists|text: Seq<char>| #[trigger]
                delta_rewritten(v, w, "thinking_delta"@, "thinking"@, text) {
                (
                    "thinking_delta"@,
                    "thinking"@,
                    choose|text: Seq<char>| #[trigger]
                        delta_rewritten(v, w, "thinking_delta"@, "thinking"@, text),
                )
            } else {
                (
                    "signature_delta"@,
                    "signature"@,
                    choose|text: Seq<char>| #[trigger]
                        delta_rewritten(v, w, "signature_delta"@, "signature"@, text)
                            && text.len() > 0,
                )
            };
            let delta = v.get("delta"@)->0;
            let other = delta.with(name, JsonView::Text(text));
            lemma_put_field(delta->Object_0, name, JsonView::Text(text), "type"@);
            lemma_put_field(delta->Object_0, name, JsonView::Text(text), "stop_reason"@);
            lemma_put_field(delta->Object_0, name, JsonView::Text(text), "stop_sequence"@);
            lemma_put_field(fields, "delta"@, other, "type"@);
            lemma_put_field(fields, "delta"@, other, "index"@);
            lemma_put_field(fields, "delta"@, other, "message"@);
            lemma_put_field(fields, "delta"@, other, "content_block"@);
            lemma_put_field(fields, "delta"@, other, "usage"@);
            assert(delta_of(Some(delta)) is Some && delta_of(Some(other)) is Some);
        }
    }
}

/// A response as of another time.
pub open spec fn dated(r: ResponseView, created_at: u64) -> ResponseView {
    ResponseOf { created_at, ..r }
}

/// Whether two events tell the client the same, but for when the response was created.
pub open spec fn same_told(a: StreamedView, b: StreamedView) -> bool {
    a == b || exists|kind: Seq<char>, n: u64, r: ResponseView, created_at: u64|
        a == response_told(kind, n, r) && b == #[trigger] response_told(
            kind,
            n,
            dated(r, created_at),
        )
}

/// Whether events tell the client the same one by one, but for when the response was created.
pub open spec fn all_same_told(a: Seq<StreamedView>, b: Seq<StreamedView>) -> bool {
    a.len() == b.len() && forall|i: int|
        #![trigger a[i], b[i]]
        0 <= i < a.len() ==> same_told(a[i], b[i])
}

/// Whether two streams stand at the same place, but for the times at which they came there.
pub open spec fn alike(s: StreamView, t: StreamView) -> bool {
    &&& t == (StreamOf {
        created_at: t.created_at,
        first_visible_at: t.first_visible_at,
        ..s
    })
    &&& s.created_at is Some <==> t.created_at is Some
}

spec fn steps_alike(x: Step, y: Step) -> bool {
    match (x, y) {
        (Some((s, told)), Some((t, said))) => alike(s, t) && all_same_told(told, said),
        (None, None) => true,
        _ => false,
    }
}

spec fn ends_alike(x: EndView, y: EndView) -> bool {
    match (x, y) {
        (EndOf::Complete(s, told), EndOf::Complete(t, said)) => alike(s, t) && all_same_told(
            told,
            said,
        ),
        (EndOf::Late(_), EndOf::Late(_)) => true,
        (EndOf::Invalid, EndOf::Invalid) => true,
        _ => false,
    }
}

proof fn lemma_started_alike(
    s: StreamView,
    t: StreamView,
    m: StartOf<Seq<char>>,
    model: Seq<char>,
    at: Moment,
    other: Moment,
)
    requires
        alike(s, t),
    ensures
        steps_alike(started(s, m, model, at), started(t, m, model, other)),
{
    if started(s, m, model, at) is Some {
        let tier = tier_in(m.usage.service_tier)->0;
        let first = snapshot_of(m.id, at.seconds, model, tier);
        let second = snapshot_of(m.id, other.seconds, model, tier);
        assert(second == dated(first, other.seconds));
        let n = s.sequence_number;
        let told = (started(s, m, model, at)->0).1;
        let said = (started(t, m, model, other)->0).1;
        assert(said[0] == response_told(
            "response.created"@,
            n,
            dated(first, other.seconds),
        ));
        assert(said[1] == response_told(
            "response.in_progress"@,
            (n + 1) as u64,
            dated(first, other.seconds),
        ));
        assert(all_same_told(told, said));
    }
}

proof fn lemma_block_started_alike(
    s: StreamView,
    t: StreamView,
    index: usize,
    block: BlockView,
    tools: Table,
)
    requires
        alike(s, t),
    ensures
        steps_alike(block_started(s, index, block, tools), block_started(t, index, block, tools)),
{
}

proof fn lemma_delta_taken_alike(
    s: StreamView,
    t: StreamView,
    index: usize,
    delta: DeltaOf<Seq<char>>,
    other: DeltaOf<Seq<char>>,
    tools: Table,
    now: u64,
    then: u64,
)
    requires
        alike(s, t),
        same_event(
            Some(EventOf::ContentBlockDelta { index, delta }),
            Some(EventOf::ContentBlockDelta { index, delta: other }),
        ),
    ensures
        steps_alike(
            delta_taken(s, index, delta, tools, now),
            delta_taken(t, index, other, tools, then),
        ),
{
}

proof fn lemma_block_stopped_alike(
    s: StreamView,
    t: StreamView,
    index: usize,
    tools: Table,
    now: u64,
    then: u64,
)
    requires
        alike(s, t),
    ensures
        steps_alike(block_stopped(s, index, tools, now), block_stopped(t, index, tools, then)),
{
}

proof fn lemma_tail_same_told(told: Seq<StreamedView>, a: StreamedView, b: StreamedView)
    requires
        same_told(a, b),
    ensures
        all_same_told(told + seq![a], told + seq![b]),
{
}

proof fn lemma_finished_alike(
    s: StreamView,
    t: StreamView,
    told: Seq<StreamedView>,
    reason: StopReason,
    message_id: Seq<char>,
    initial: UsageOf<Seq<char>>,
    usage: ResponseUsage,
    limit: usize,
    model: Seq<char>,
    log_calls: bool,
)
    requires
        alike(s, t),
    ensures
        ends_alike(
            finished(s, told, reason, message_id, initial, usage, limit, model, log_calls),
            finished(t, told, reason, message_id, initial, usage, limit, model, log_calls),
        ),
{
    let x = finished(s, told, reason, message_id, initial, usage, limit, model, log_calls);
    if x is Complete {
        let end = ending(reason)->0;
        let items = items_closed(s.output, final_item_status(end), phase_of(reason), 0)->0;
        let n = s.sequence_number as nat;
        let response = ResponseOf {
            id: response_id_of(message_id),
            created_at: s.created_at->0,
            status: final_status(end),
            output: items,
            model,
            usage: Some(usage),
            service_tier: tier_in(initial.service_tier)->0,
        };
        let a = response_told(final_event(end), (n + items.len()) as u64, response);
        let b = response_told(
            final_event(end),
            (n + items.len()) as u64,
            dated(response, t.created_at->0),
        );
        assert(same_told(a, b));
        lemma_tail_same_told(told + items_done(items, n), a, b);
    }
}

proof fn lemma_stopped_alike(
    s: StreamView,
    t: StreamView,
    limit: usize,
    model: Seq<char>,
    log_calls: bool,
)
    requires
        alike(s, t),
    ensures
        ends_alike(stopped(s, limit, model, log_calls), stopped(t, limit, model, log_calls)),
{
    match (s.initial_usage, s.terminal_usage, s.stop_reason, s.message_id) {
        (Some(initial), Some(terminal), Some(reason), Some(message_id)) => {
            let usage = stream_told(initial, terminal)->0;
            lemma_finished_alike(
                s,
                t,
                Seq::empty(),
                reason,
                message_id,
                initial,
                usage,
                limit,
                model,
                log_calls,
            );
            let id = item_id_of("msg"@, message_id, 0);
            let item = empty_refusal_item(id, OutputStatus::InProgress);
            if numbered(s, 4) is Some && retained(numbered(s, 4)->0, item) is Some {
                lemma_finished_alike(
                    retained(numbered(s, 4)->0, item)->0,
                    retained(numbered(t, 4)->0, item)->0,
                    refusal_told(id, s.sequence_number as nat),
                    reason,
                    message_id,
                    initial,
                    usage,
                    limit,
                    model,
                    log_calls,
                );
            }
        },
        _ => {},
    }
}

proof fn lemma_event_alike(
    s: StreamView,
    t: StreamView,
    e: EventView,
    f: EventView,
    settings: StreamSettingsOf<Seq<char>>,
    tools: Table,
    at: Moment,
    other: Moment,
)
    requires
        alike(s, t),
        same_event(Some(e), Some(f)),
    ensures
        ends_alike(
            event_taken(s, e, settings, tools, at),
            event_taken(t, f, settings, tools, other),
        ),
{
    reveal(event_taken);
    match (e, f) {
        (EventOf::MessageStart(m), _) => {
            lemma_started_alike(s, t, m, settings.model, at, other);
        },
        (EventOf::ContentBlockStart { index, block }, _) => {
            lemma_block_started_alike(s, t, index, block, tools);
        },
        (
            EventOf::ContentBlockDelta { index, delta },
            EventOf::ContentBlockDelta { index: _, delta: with },
        ) => {
            lemma_delta_taken_alike(s, t, index, delta, with, tools, at.instant, other.instant);
        },
        (EventOf::ContentBlockStop { index }, _) => {
            lemma_block_stopped_alike(s, t, index, tools, at.instant, other.instant);
        },
        (EventOf::MessageStop, _) => {
            lemma_stopped_alike(
                s,
                t,
                settings.buffer_limit,
                settings.model,
                settings.log_tool_calls,
            );
        },
        _ => {},
    }
}

/// Whether streams that took the same stand at the same place: both over, or alike.
pub open spec fn level(s: StreamView, t: StreamView) -> bool {
    s.terminated == t.terminated && (!s.terminated ==> alike(s, t))
}

/// Whether a stream that is not over keeps no more than it may, and is not due to end.
pub open spec fn in_order(s: StreamView, settings: StreamSettingsOf<Seq<char>>) -> bool {
    !s.terminated ==> retained_size(s, settings.model) <= settings.buffer_limit
        && !s.terminal_ready
}

proof fn lemma_takes_in_order(
    before: StreamView,
    after: StreamView,
    told: Seq<StreamedView>,
    a: Arrival,
    settings: StreamSettingsOf<Seq<char>>,
    tools: Table,
)
    requires
        takes(before, after, told, a, settings, tools),
        in_order(before, settings),
    ensures
        in_order(after, settings),
        is_ping(a) ==> after == before && told.len() == 0,
{
    reveal(event_taken);
    if !before.terminated {
        let step = choose|step: StreamStep| #[trigger]
            goes(
                due_on(before, a.event_name, a.event, settings, tools, a.at),
                before,
                after,
                step,
            ) && streamed_views(step.events@) == told;
    }
}

/// Whether what arrives is a ping.
pub open spec fn is_ping(a: Arrival) -> bool {
    a.event == Some(EventOf::<Seq<char>, JsonView>::Ping) && a.event_name == Some("ping"@)
}

/// Whether the same arrives, but for what is thought in it and for when it does.
pub open spec fn same_arrival(a: Arrival, b: Arrival) -> bool {
    &&& a.event_name == b.event_name
    &&& a.event == b.event || exists|v: JsonView, w: JsonView| #[trigger]
        rethought(v, w) && a.event == event_of(v) && b.event == event_of(w)
}

proof fn lemma_takes_alike(
    s: StreamView,
    s_after: StreamView,
    told: Seq<StreamedView>,
    a: Arrival,
    t: StreamView,
    t_after: StreamView,
    said: Seq<StreamedView>,
    b: Arrival,
    settings: StreamSettingsOf<Seq<char>>,
    tools: Table,
)
    requires
        takes(s, s_after, told, a, settings, tools),
        takes(t, t_after, said, b, settings, tools),
        level(s, t),
        same_arrival(a, b),
    ensures
        level(s_after, t_after),
        all_same_told(told, said),
{
    if a.event != b.event {
        let (v, w) = choose|v: JsonView, w: JsonView| #[trigger]
            rethought(v, w) && a.event == event_of(v) && b.event == event_of(w);
        lemma_thoughts_are_not_read(v, w);
    }
    if !s.terminated {
        let x = choose|step: StreamStep| #[trigger]
            goes(due_on(s, a.event_name, a.event, settings, tools, a.at), s, s_after, step)
                && streamed_views(step.events@) == told;
        let y = choose|step: StreamStep| #[trigger]
            goes(due_on(t, b.event_name, b.event, settings, tools, b.at), t, t_after, step)
                && streamed_views(step.events@) == said;
        match (a.event, b.event) {
            (Some(e), Some(f)) => {
                lemma_event_alike(s, t, e, f, settings, tools, a.at, b.at);
            },
            _ => {},
        }
    }
}

/// Whether the same arrives at two streams one by one, but for pings at either, for what is
/// thought, and for when it does.
pub open spec fn same_arrivals(a: Seq<Arrival>, b: Seq<Arrival>) -> bool
    decreases a.len() + b.len(),
{
    ||| a.len() == 0 && b.len() == 0
    ||| a.len() > 0 && is_ping(a[0]) && same_arrivals(a.drop_first(), b)
    ||| b.len() > 0 && is_ping(b[0]) && same_arrivals(a, b.drop_first())
    ||| a.len() > 0 && b.len() > 0 && same_arrival(a[0], b[0]) && same_arrivals(
        a.drop_first(),
        b.drop_first(),
    )
}

proof fn lemma_first_step(
    states: Seq<StreamView>,
    told: Seq<Seq<StreamedView>>,
    arrivals: Seq<Arrival>,
    settings: StreamSettingsOf<Seq<char>>,
    tools: Table,
)
    requires
        runs(states, told, arrivals, settings, tools),
        arrivals.len() > 0,
    ensures
        takes(states[0], states[1], told[0], arrivals[0], settings, tools),
        runs(states.drop_first(), told.drop_first(), arrivals.drop_first(), settings, tools),
        states.drop_first().last() == states.last(),
        told.flatten() == told[0] + told.drop_first().flatten(),
{
    let rest = told.drop_first();
    let later = states.drop_first();
    let ahead = arrivals.drop_first();
    assert(states[0] == states[0] && states[1] == later[0]);
    assert forall|i: int, j: int|
        #![trigger later[i], later[j]]
        0 <= i < ahead.len() && j == i + 1 implies takes(
        later[i],
        later[j],
        rest[i],
        ahead[i],
        settings,
        tools,
    ) by {
        assert(later[i] == states[i + 1]);
        assert(later[j] == states[j + 1]);
    }
}

proof fn lemma_same_told_joined(
    a: Seq<StreamedView>,
    b: Seq<StreamedView>,
    c: Seq<StreamedView>,
    d: Seq<StreamedView>,
)
    requires
        all_same_told(a, b),
        all_same_told(c, d),
    ensures
        all_same_told(a + c, b + d),
{
    assert forall|i: int|
        #![trigger (a + c)[i], (b + d)[i]]
        0 <= i < (a + c).len() implies same_told((a + c)[i], (b + d)[i]) by {
        if i < a.len() {
            assert((a + c)[i] == a[i] && (b + d)[i] == b[i]);
        } else {
            assert((a + c)[i] == c[i - a.len()] && (b + d)[i] == d[i - a.len()]);
        }
    }
}

/// Two streams at which the same arrives tell the client the same, event by event, and come to the
/// same place, whatever pings arrive at either, whatever is thought, and whenever anything
/// arrives. Only the time at which the response was created may differ.
pub proof fn lemma_silence(
    states: Seq<StreamView>,
    told: Seq<Seq<StreamedView>>,
    arrivals: Seq<Arrival>,
    other_states: Seq<StreamView>,
    other_told: Seq<Seq<StreamedView>>,
    other_arrivals: Seq<Arrival>,
    settings: StreamSettingsOf<Seq<char>>,
    tools: Table,
)
    requires
        runs(states, told, arrivals, settings, tools),
        runs(other_states, other_told, other_arrivals, settings, tools),
        same_arrivals(arrivals, other_arrivals),
        level(states[0], other_states[0]),
        in_order(states[0], settings),
        in_order(other_states[0], settings),
    ensures
        all_same_told(told.flatten(), other_told.flatten()),
        level(states.last(), other_states.last()),
    decreases arrivals.len() + other_arrivals.len(),
{
    let (a, b) = (arrivals, other_arrivals);
    if a.len() > 0 {
        lemma_first_step(states, told, a, settings, tools);
        lemma_takes_in_order(states[0], states[1], told[0], a[0], settings, tools);
    }
    if b.len() > 0 {
        lemma_first_step(other_states, other_told, b, settings, tools);
        lemma_takes_in_order(
            other_states[0],
            other_states[1],
            other_told[0],
            b[0],
            settings,
            tools,
        );
    }
    if a.len() > 0 && is_ping(a[0]) && same_arrivals(a.drop_first(), b) {
        lemma_silence(
            states.drop_first(),
            told.drop_first(),
            a.drop_first(),
            other_states,
            other_told,
            b,
            settings,
            tools,
        );
        assert(told.flatten() == told.drop_first().flatten());
    } else if b.len() > 0 && is_ping(b[0]) && same_arrivals(a, b.drop_first()) {
        lemma_silence(
            states,
            told,
            a,
            other_states.drop_first(),
            other_told.drop_first(),
            b.drop_first(),
            settings,
            tools,
        );
        assert(other_told.flatten() == other_told.drop_first().flatten());
    } else if a.len() > 0 {
        lemma_takes_alike(
            states[0],
            states[1],
            told[0],
            a[0],
            other_states[0],
            other_states[1],
            other_told[0],
            b[0],
            settings,
            tools,
        );
        lemma_silence(
            states.drop_first(),
            told.drop_first(),
            a.drop_first(),
            other_states.drop_first(),
            other_told.drop_first(),
            b.drop_first(),
            settings,
            tools,
        );
        lemma_same_told_joined(
            told[0],
            other_told[0],
            told.drop_first().flatten(),
            other_told.drop_first().flatten(),
        );
    } else {
        assert(told.flatten() == Seq::<StreamedView>::empty());
        assert(other_told.flatten() == Seq::<StreamedView>::empty());
    }
}

} // verus!
