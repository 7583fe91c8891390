//! How every stream ends: with one last event, after which nothing is told.
use vstd::prelude::*;

use crate::codec::parsed;
use crate::decode::{BlockView, DeltaOf, EventOf, EventView, StartOf};
use crate::json::JsonView;
use crate::messages::{StopReason, UsageOf};
use crate::responses::{ItemView, OutputStatus};
use crate::stream::{
    due_on, event_taken, finished, goes, items_done, refusal_told, stopped, EndOf, StreamSettingsOf,
    StreamStep,
};
use crate::stream_blocks::{
    block_started, block_stopped, call_finished, delta_taken, input_text, started, tool_closed,
    Moment, Step,
};
use crate::stream_laws::{runs, takes, Arrival};
use crate::stream_state::{
    streamed_views, StreamBlockOf, StreamOf, StreamToolBlockOf, StreamView, StreamedView,
};
use crate::tools::{DeclaredOf, Table};
use crate::usage::ResponseUsage;

verus! {

/// Whether an event is the last of a stream.
pub open spec fn is_last(e: StreamedView) -> bool {
    e.name == "error"@ || e.name == "response.completed"@ || e.name == "response.incomplete"@
}

/// Whether none of the events is the last of a stream.
pub open spec fn none_last(events: Seq<StreamedView>) -> bool {
    forall|i: int| 0 <= i < events.len() ==> !is_last(#[trigger] events[i])
}

/// Whether the last of the events, and no other, is the last of a stream.
pub open spec fn ends_once(events: Seq<StreamedView>) -> bool {
    events.len() > 0 && is_last(events.last()) && none_last(events.drop_last())
}

/// Whether a stream that has told its last event is over.
pub open spec fn over_when_ready(s: StreamView) -> bool {
    s.terminal_ready ==> s.terminated
}

/// Whether a step goes on: it tells no last event and does not get ready to end.
pub open spec fn goes_on(s: StreamView, step: Step) -> bool {
    step matches Some((next, told)) ==> none_last(told) && next.terminal_ready == s.terminal_ready
}

proof fn lemma_middle_names()
    ensures
        forall|e: StreamedView|
            #![trigger e.name]
            e.name == "response.created"@ || e.name == "response.in_progress"@ || e.name
                == "response.output_item.added"@ || e.name == "response.output_item.done"@ || e.name
                == "response.content_part.added"@ || e.name == "response.content_part.done"@
                || e.name == "response.refusal.done"@ || e.name == "response.output_text.delta"@
                || e.name == "response.output_text.done"@ || e.name
                == "response.function_call_arguments.delta"@ || e.name
                == "response.function_call_arguments.done"@ || e.name
                == "response.custom_tool_call_input.delta"@ || e.name
                == "response.custom_tool_call_input.done"@ ==> !is_last(e),
{
    reveal_strlit("error");
    reveal_strlit("response.completed");
    reveal_strlit("response.incomplete");
    reveal_strlit("response.created");
    reveal_strlit("response.in_progress");
    reveal_strlit("response.output_item.added");
    reveal_strlit("response.output_item.done");
    reveal_strlit("response.content_part.added");
    reveal_strlit("response.content_part.done");
    reveal_strlit("response.refusal.done");
    reveal_strlit("response.output_text.delta");
    reveal_strlit("response.output_text.done");
    reveal_strlit("response.function_call_arguments.delta");
    reveal_strlit("response.function_call_arguments.done");
    reveal_strlit("response.custom_tool_call_input.delta");
    reveal_strlit("response.custom_tool_call_input.done");
    assert("error"@.len() == 5);
    assert("response.completed"@.len() == 18);
    assert("response.incomplete"@.len() == 19);
    assert("response.created"@.len() == 16);
    assert("response.in_progress"@.len() == 20);
    assert("response.output_item.added"@.len() == 26);
    assert("response.output_item.done"@.len() == 25);
    assert("response.content_part.added"@.len() == 27);
    assert("response.content_part.done"@.len() == 26);
    assert("response.refusal.done"@.len() == 21);
    assert("response.output_text.delta"@.len() == 26);
    assert("response.output_text.done"@.len() == 25);
    assert("response.function_call_arguments.delta"@.len() == 38);
    assert("response.function_call_arguments.done"@.len() == 37);
    assert("response.custom_tool_call_input.delta"@.len() == 37);
    assert("response.custom_tool_call_input.done"@.len() == 36);
}

proof fn lemma_started(s: StreamView, m: StartOf<Seq<char>>, model: Seq<char>, at: Moment)
    ensures
        goes_on(s, started(s, m, model, at)),
{
    lemma_middle_names();
}

proof fn lemma_block_started(s: StreamView, index: usize, block: BlockView, tools: Table)
    ensures
        goes_on(s, block_started(s, index, block, tools)),
{
    lemma_middle_names();
}

proof fn lemma_delta_taken(
    s: StreamView,
    index: usize,
    delta: DeltaOf<Seq<char>>,
    tools: Table,
    now: u64,
)
    ensures
        goes_on(s, delta_taken(s, index, delta, tools, now)),
{
    lemma_middle_names();
}

proof fn lemma_call_finished(
    b: StreamToolBlockOf<Seq<char>>,
    declared: DeclaredOf<Seq<char>>,
    input: JsonView,
    item: ItemView,
    n: u64,
)
    ensures
        none_last(call_finished(b, declared, input, item, n)),
{
    lemma_middle_names();
}

proof fn lemma_block_stopped(s: StreamView, index: usize, tools: Table, now: u64)
    ensures
        goes_on(s, block_stopped(s, index, tools, now)),
{
    lemma_middle_names();
    match s.active_block {
        Some(StreamBlockOf::Tool(b)) => {
            let taken = StreamOf { active_block: None, ..s };
            let input = parsed(vstd::utf8::encode_utf8(input_text(b)));
            match (input, crate::tools::tool_named(tools, b.upstream_name), s.message_id) {
                (Some(JsonView::Object(fields)), Some(declared), Some(message_id)) => {
                    let given = JsonView::Object(fields);
                    let item = crate::items::item_of(
                        crate::calls::tool_item(
                            message_id,
                            b.index as nat,
                            "in_progress"@,
                            b.call_id,
                            b.upstream_name,
                            given,
                            tools,
                        )->0,
                    );
                    if item is Some {
                        lemma_call_finished(b, declared, given, item->0, s.sequence_number);
                    }
                },
                _ => {},
            }
            assert(goes_on(taken, tool_closed(taken, b, input, tools, now)));
        },
        _ => {},
    }
}

proof fn lemma_finished(
    s: StreamView,
    told: Seq<StreamedView>,
    reason: StopReason,
    message_id: Seq<char>,
    initial: UsageOf<Seq<char>>,
    usage: ResponseUsage,
    limit: usize,
    model: Seq<char>,
    log_calls: bool,
)
    requires
        none_last(told),
    ensures
        finished(s, told, reason, message_id, initial, usage, limit, model, log_calls) matches
            EndOf::Complete(next, all) ==> ends_once(all) && next.terminal_ready,
{
    lemma_middle_names();
    match finished(s, told, reason, message_id, initial, usage, limit, model, log_calls) {
        EndOf::Complete(next, all) => {
            let end = crate::usage::ending(reason)->0;
            let items = crate::stream::items_closed(
                s.output,
                crate::stream::final_item_status(end),
                crate::usage::phase_of(reason),
                0,
            )->0;
            let done = items_done(items, s.sequence_number as nat);
            assert(all.drop_last() == told + done);
            assert forall|i: int| 0 <= i < (told + done).len() implies !is_last(
                #[trigger] (told + done)[i],
            ) by {
                if i < told.len() {
                    assert((told + done)[i] == told[i]);
                } else {
                    assert((told + done)[i] == done[i - told.len()]);
                    assert(done[i - told.len()].name == "response.output_item.done"@);
                }
            }
        },
        _ => {},
    }
}

proof fn lemma_stopped(s: StreamView, limit: usize, model: Seq<char>, log_calls: bool)
    ensures
        stopped(s, limit, model, log_calls) matches EndOf::Complete(next, told) ==> ends_once(told)
            && next.terminal_ready,
{
    lemma_middle_names();
    match (s.initial_usage, s.terminal_usage, s.stop_reason, s.message_id) {
        (Some(initial), Some(terminal), Some(reason), Some(message_id)) => {
            let usage = crate::usage::stream_told(initial, terminal)->0;
            if reason == StopReason::Refusal {
                let id = crate::calls::item_id_of("msg"@, message_id, 0);
                match crate::stream_blocks::numbered(s, 4) {
                    Some(told) => match crate::stream_state::retained(
                        told,
                        crate::items::empty_refusal_item(id, OutputStatus::InProgress),
                    ) {
                        Some(kept) => {
                            lemma_finished(
                                kept,
                                refusal_told(id, s.sequence_number as nat),
                                reason,
                                message_id,
                                initial,
                                usage,
                                limit,
                                model,
                                log_calls,
                            );
                        },
                        None => {},
                    },
                    None => {},
                }
            } else {
                lemma_finished(
                    s,
                    Seq::empty(),
                    reason,
                    message_id,
                    initial,
                    usage,
                    limit,
                    model,
                    log_calls,
                );
            }
        },
        _ => {},
    }
}

proof fn lemma_event(
    s: StreamView,
    e: EventView,
    settings: StreamSettingsOf<Seq<char>>,
    tools: Table,
    at: Moment,
)
    ensures
        event_taken(s, e, settings, tools, at) matches EndOf::Complete(next, told) ==> if e
            is MessageStop {
            ends_once(told) && next.terminal_ready
        } else {
            none_last(told) && next.terminal_ready == s.terminal_ready
        },
        event_taken(s, e, settings, tools, at) matches EndOf::Complete(next, told)
            ==> next.terminated == s.terminated,
{
    reveal(event_taken);
    match e {
        EventOf::MessageStart(m) => {
            lemma_started(s, m, settings.model, at);
        },
        EventOf::ContentBlockStart { index, block } => {
            lemma_block_started(s, index, block, tools);
        },
        EventOf::ContentBlockDelta { index, delta } => {
            lemma_delta_taken(s, index, delta, tools, at.instant);
        },
        EventOf::ContentBlockStop { index } => {
            lemma_block_stopped(s, index, tools, at.instant);
        },
        EventOf::MessageStop => {
            lemma_stopped(s, settings.buffer_limit, settings.model, settings.log_tool_calls);
        },
        _ => {},
    }
}

/// A stream that goes on after a step has told no last event. One that is over after it has told
/// one, and nothing after that; and only then is anything logged.
pub proof fn lemma_step_ends_once(
    before: StreamView,
    after: StreamView,
    event_name: Option<Seq<char>>,
    event: Option<EventView>,
    settings: StreamSettingsOf<Seq<char>>,
    tools: Table,
    at: Moment,
    step: StreamStep,
)
    requires
        goes(due_on(before, event_name, event, settings, tools, at), before, after, step),
        !before.terminated,
        over_when_ready(before),
    ensures
        over_when_ready(after),
        !after.terminated ==> none_last(streamed_views(step.events@)) && step.telemetry is None,
        after.terminated ==> ends_once(streamed_views(step.events@)),
{
    match event {
        Some(e) => {
            lemma_event(before, e, settings, tools, at);
        },
        None => {},
    }
}

proof fn lemma_takes(
    before: StreamView,
    after: StreamView,
    told: Seq<StreamedView>,
    a: Arrival,
    settings: StreamSettingsOf<Seq<char>>,
    tools: Table,
)
    requires
        takes(before, after, told, a, settings, tools),
        over_when_ready(before),
    ensures
        over_when_ready(after),
        before.terminated ==> told.len() == 0 && after == before,
        !after.terminated ==> none_last(told),
        !before.terminated && after.terminated ==> ends_once(told),
{
    if !before.terminated {
        let step = choose|step: StreamStep| #[trigger]
            goes(
                due_on(before, a.event_name, a.event, settings, tools, a.at),
                before,
                after,
                step,
            ) && streamed_views(step.events@) == told;
        lemma_step_ends_once(before, after, a.event_name, a.event, settings, tools, a.at, step);
    }
}

/// A stream that is over has told one last event in all, at the very end; and one that is not
/// over has told none.
pub proof fn lemma_run_ends_once(
    states: Seq<StreamView>,
    told: Seq<Seq<StreamedView>>,
    arrivals: Seq<Arrival>,
    settings: StreamSettingsOf<Seq<char>>,
    tools: Table,
)
    requires
        runs(states, told, arrivals, settings, tools),
        over_when_ready(states[0]),
    ensures
        states[0].terminated ==> told.flatten().len() == 0 && states.last().terminated,
        !states[0].terminated && states.last().terminated ==> ends_once(told.flatten()),
        !states.last().terminated ==> none_last(told.flatten()),
    decreases told.len(),
{
    if told.len() > 0 {
        let rest = told.drop_first();
        let later = states.drop_first();
        let ahead = arrivals.drop_first();
        assert(states[0] == states[0] && states[1] == later[0]);
        lemma_takes(states[0], states[1], told[0], arrivals[0], settings, tools);
        assert(runs(later, rest, ahead, settings, tools)) by {
            assert forall|i: int, j: int|
                #![trigger later[i], later[j]]
                0 <= i < ahead.len() && j == i + 1 implies takes(
                later[i],
                later[j],
                rest[i],
                ahead[i],
                settings,
                tools,
            ) by {
                assert(later[i] == states[i + 1]);
                assert(later[j] == states[j + 1]);
            }
        }
        lemma_run_ends_once(later, rest, ahead, settings, tools);
        assert(later.last() == states.last());
        let all = told.flatten();
        assert(all == told[0] + rest.flatten());
        if later[0].terminated {
            assert(all == told[0]);
        } else {
            assert(forall|i: int|
                0 <= i < all.len() ==> #[trigger] all[i] == (if i < told[0].len() {
                    told[0][i]
                } else {
                    rest.flatten()[i - told[0].len()]
                }));
            if states.last().terminated {
                let tail = rest.flatten();
                assert(all.last() == tail.last());
                assert forall|i: int| 0 <= i < all.drop_last().len() implies !is_last(
                    #[trigger] all.drop_last()[i],
                ) by {
                    if i >= told[0].len() {
                        assert(all.drop_last()[i] == tail.drop_last()[i - told[0].len()]);
                    } else {
                        assert(all.drop_last()[i] == told[0][i]);
                    }
                }
            }
        }
    } else {
        assert(told.flatten() == Seq::<StreamedView>::empty());
    }
}

} // verus!
