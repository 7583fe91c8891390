//! What holds of every stream: an event that comes in its place is taken, one that does not ends
//! the stream; and what is logged is what came.
use vstd::prelude::*;
use vstd::utf8::encode_utf8;

use crate::codec::json_text;
use crate::decode::{BlockOf, DeltaOf, EventOf, EventView, StartOf};
use crate::json::JsonView;
use crate::lookups::group_lookups;
use crate::messages::{MessageDeltaUsage, Role, StopReason};
use crate::read_laws::{latest, thinking_in};
use crate::responses::{
    item_json, items_json, part_json, ItemOf, ItemView, MessageOf, OutputStatus, PartOf,
};
use crate::stream::{
    calls_logged, due_on, event_taken, items_closed, telemetry_of, EndOf, StreamSettingsOf,
};
use crate::stream_blocks::Moment;
use crate::stream_state::{
    error_told, retained_size, StreamBlockOf, StreamOf, StreamTextBlockOf, StreamToolBlockOf,
    StreamView,
};
use crate::tools::{tool_named, Table};
use crate::usage::{stream_told, MessagePhase};

verus! {

proof fn lemma_names()
    ensures
        "type"@ != "sequence_number"@,
        "type"@ != "code"@,
        "type"@ != "message"@,
        "type"@ != "param"@,
        "sequence_number"@ != "code"@,
        "sequence_number"@ != "message"@,
        "sequence_number"@ != "param"@,
        "code"@ != "message"@,
        "code"@ != "param"@,
        "message"@ != "param"@,
{
    reveal_strlit("type");
    reveal_strlit("sequence_number");
    reveal_strlit("code");
    reveal_strlit("message");
    reveal_strlit("param");
    assert("type"@.len() == 4);
    assert("sequence_number"@.len() == 15);
    assert("code"@.len() == 4);
    assert("message"@.len() == 7);
    assert("param"@.len() == 5);
    assert("type"@[0] == 't');
    assert("code"@[0] == 'c');
}


/// An answer begins once, as a message of the assistant that has an id and a model, but no content
/// and no end.
pub proof fn lemma_bad_start(
    s: StreamView,
    m: StartOf<Seq<char>>,
    settings: StreamSettingsOf<Seq<char>>,
    tools: Table,
    at: Moment,
)
    ensures
        s.message_id is Some || m.kind != "message"@ || m.role != Role::Assistant || !m.bare
            || m.stop_reason is Some || m.stop_sequence is Some || m.id.len() == 0 || m.model.len()
            == 0 || (m.usage.service_tier is Some && m.usage.service_tier->0 != "standard"@
            && m.usage.service_tier->0 != "priority"@) ==> event_taken(
            s,
            EventOf::MessageStart(m),
            settings,
            tools,
            at,
        ) is Invalid,
        s.message_id is None && m.kind == "message"@ && m.role == Role::Assistant && m.bare
            && m.stop_reason is None && m.stop_sequence is None && m.id.len() > 0 && m.model.len()
            > 0 && m.usage.service_tier is None && s.sequence_number + 2 <= u64::MAX
            ==> event_taken(s, EventOf::MessageStart(m), settings, tools, at) is Complete,
{
    reveal(event_taken);
}

/// Blocks come one at a time, in order, after the beginning of the answer and before its end is
/// told; and a block begins empty.
pub proof fn lemma_bad_block(
    s: StreamView,
    index: usize,
    block: crate::decode::BlockView,
    settings: StreamSettingsOf<Seq<char>>,
    tools: Table,
    at: Moment,
)
    ensures
        ({
            let taken = event_taken(
                s,
                EventOf::ContentBlockStart { index, block },
                settings,
                tools,
                at,
            );
            &&& s.message_id is None ==> taken is Invalid
            &&& s.active_block is Some ==> taken is Invalid
            &&& s.saw_message_delta ==> taken is Invalid
            &&& index != s.next_block_index ==> taken is Invalid
            &&& match block {
                BlockOf::Text { text, .. } => text.len() > 0 ==> taken is Invalid,
                BlockOf::ToolUse { id, name, input, .. } => id.len() == 0 || name.len() == 0
                    || tool_named(tools, name) is None || s.tool_ids.contains(id) || input
                    != JsonView::Object(Seq::empty()) ==> taken is Invalid,
                _ => true,
            }
        }),
{
    reveal(event_taken);
}

/// Whether a stream is where a block may begin.
pub open spec fn between_blocks(s: StreamView, index: usize) -> bool {
    &&& s.message_id is Some
    &&& s.active_block is None
    &&& !s.saw_message_delta
    &&& index == s.next_block_index
    &&& index < usize::MAX
    &&& s.output.len() <= u32::MAX
    &&& s.sequence_number + 2 <= u64::MAX
}

/// A block that comes in its place is taken: a text, a call of a declared tool under a new id, or
/// a thought, of which the client is told nothing. Nothing that was kept is lost.
#[verifier::rlimit(40)]
#[verifier::spinoff_prover]
pub proof fn lemma_block_is_taken(
    s: StreamView,
    index: usize,
    block: crate::decode::BlockView,
    settings: StreamSettingsOf<Seq<char>>,
    tools: Table,
    at: Moment,
)
    requires
        between_blocks(s, index),
        s.output.len() > 0
            && s.output.last() is Message ==> s.output.last()->Message_0.content.len()
            <= u32::MAX,
    ensures
        ({
            let taken = event_taken(
                s,
                EventOf::ContentBlockStart { index, block },
                settings,
                tools,
                at,
            );
            let next = taken->Complete_0;
            let told = taken->Complete_1;
            &&& match block {
                BlockOf::Text { text, marked } => text.len() == 0 && !marked ==> taken is Complete
                    && next.active_block is Some && next.active_block->0 is Text,
                BlockOf::ToolUse { id, name, input, caller, marked } => id.len() > 0 && name.len()
                    > 0 && input == JsonView::Object(Seq::empty()) && caller is None && !marked
                    && tool_named(tools, name) is Some && !s.tool_ids.contains(id)
                    && s.tool_id_bytes + encode_utf8(id).len() <= usize::MAX ==> {
                    &&& taken is Complete
                    &&& next.tool_ids == s.tool_ids.push(id)
                    &&& next.saw_tool
                    &&& match next.active_block {
                        Some(StreamBlockOf::Tool(b)) => b.call_id == id && b.upstream_name == name
                            && b.json.len() == 0 && b.index == index,
                        _ => false,
                    }
                },
                BlockOf::Thinking => taken is Complete && told.len() == 0 && next.active_block
                    == Some(
                    StreamBlockOf::<Seq<char>>::DroppedThinking { index, signature_seen: false },
                ),
                BlockOf::RedactedThinking => taken is Complete && told.len() == 0
                    && next.active_block == Some(
                    StreamBlockOf::<Seq<char>>::DroppedRedactedThinking { index },
                ),
            }
            &&& taken is Complete ==> next.output == s.output && next.next_block_index == index + 1
                && next.completion == s.completion && next.first_visible_at == s.first_visible_at
                && next.message_id == s.message_id && next.initial_usage == s.initial_usage
        }),
{
    reveal(event_taken);
}

/// A piece that comes for the block that is open is taken, and for no other block: a text grows by
/// it and so does what is logged of the text, an input grows by it; and the client is noted to
/// have seen the first piece that is not empty when it came. All else stays.
#[verifier::rlimit(40)]
#[verifier::spinoff_prover]
pub proof fn lemma_piece_is_taken(
    s: StreamView,
    index: usize,
    piece: Seq<char>,
    settings: StreamSettingsOf<Seq<char>>,
    tools: Table,
    at: Moment,
)
    requires
        !s.saw_message_delta,
        s.sequence_number < u64::MAX,
    ensures
        ({
            let text = event_taken(
                s,
                EventOf::ContentBlockDelta { index, delta: DeltaOf::Text(piece) },
                settings,
                tools,
                at,
            );
            let input = event_taken(
                s,
                EventOf::ContentBlockDelta { index, delta: DeltaOf::InputJson(piece) },
                settings,
                tools,
                at,
            );
            let first = if s.first_visible_at is None && piece.len() > 0 {
                Some(at.instant)
            } else {
                s.first_visible_at
            };
            &&& match s.active_block {
                Some(StreamBlockOf::Text(b)) => {
                    &&& input is Invalid
                    &&& b.index != index ==> text is Invalid
                    &&& b.index == index ==> text is Complete && text->Complete_0 == (StreamOf {
                        active_block: Some(
                            StreamBlockOf::Text(StreamTextBlockOf { text: b.text + piece, ..b }),
                        ),
                        completion: if s.completion is Some {
                            Some(s.completion->0 + piece)
                        } else {
                            None
                        },
                        first_visible_at: first,
                        sequence_number: (s.sequence_number + 1) as u64,
                        ..s
                    })
                },
                Some(StreamBlockOf::Tool(b)) => {
                    &&& text is Invalid
                    &&& b.index != index ==> input is Invalid
                    &&& tool_named(tools, b.upstream_name) is None ==> input is Invalid
                    &&& b.index == index && tool_named(tools, b.upstream_name) is Some ==> input
                        is Complete && input->Complete_0 == (StreamOf {
                        active_block: Some(
                            StreamBlockOf::Tool(StreamToolBlockOf { json: b.json + piece, ..b }),
                        ),
                        first_visible_at: first,
                        sequence_number: if tool_named(tools, b.upstream_name)->0 is Function {
                            (s.sequence_number + 1) as u64
                        } else {
                            s.sequence_number
                        },
                        ..s
                    })
                },
                _ => text is Invalid && input is Invalid,
            }
        }),
{
    reveal(event_taken);
}

/// A thought is taken, told to nobody, and must be signed before it is done.
pub proof fn lemma_thought_is_dropped(
    s: StreamView,
    index: usize,
    signature: Seq<char>,
    settings: StreamSettingsOf<Seq<char>>,
    tools: Table,
    at: Moment,
)
    requires
        !s.saw_message_delta,
    ensures
        ({
            let thought = event_taken(
                s,
                EventOf::ContentBlockDelta { index, delta: DeltaOf::Thinking },
                settings,
                tools,
                at,
            );
            let signed = event_taken(
                s,
                EventOf::ContentBlockDelta { index, delta: DeltaOf::Signature(signature) },
                settings,
                tools,
                at,
            );
            let done = event_taken(
                s,
                EventOf::ContentBlockStop { index },
                settings,
                tools,
                at,
            );
            match s.active_block {
                Some(StreamBlockOf::DroppedThinking { index: i, signature_seen }) => {
                    &&& i == index && !signature_seen ==> thought is Complete && thought->Complete_0
                        == s && thought->Complete_1.len() == 0
                    &&& i != index || signature_seen ==> thought is Invalid && signed is Invalid
                    &&& signature.len() == 0 ==> signed is Invalid
                    &&& i == index && !signature_seen && signature.len() > 0 ==> signed is Complete
                        && signed->Complete_1.len() == 0 && signed->Complete_0.active_block == Some(
                        StreamBlockOf::<Seq<char>>::DroppedThinking { index, signature_seen: true },
                    )
                    &&& i != index || !signature_seen ==> done is Invalid
                    &&& i == index && signature_seen ==> done is Complete && done->Complete_0
                        == (StreamOf { active_block: None, ..s }) && done->Complete_1.len() == 0
                },
                Some(StreamBlockOf::DroppedRedactedThinking { index: i }) => {
                    &&& thought is Invalid && signed is Invalid
                    &&& i != index ==> done is Invalid
                    &&& i == index ==> done is Complete && done->Complete_0 == (StreamOf {
                        active_block: None,
                        ..s
                    }) && done->Complete_1.len() == 0
                },
                None => thought is Invalid && signed is Invalid && done is Invalid,
                _ => thought is Invalid && signed is Invalid,
            }
        }),
{
    reveal(event_taken);
}

/// A text that is done is kept: as the last piece of the message that it stands in.
#[verifier::rlimit(40)]
#[verifier::spinoff_prover]
pub proof fn lemma_text_is_kept(
    s: StreamView,
    b: StreamTextBlockOf<Seq<char>>,
    settings: StreamSettingsOf<Seq<char>>,
    tools: Table,
    at: Moment,
)
    requires
        s.active_block == Some(StreamBlockOf::Text(b)),
        s.sequence_number + 2 <= u64::MAX,
    ensures
        ({
            let done = event_taken(
                s,
                EventOf::ContentBlockStop { index: b.index },
                settings,
                tools,
                at,
            );
            let next = done->Complete_0;
            let n = s.output.len();
            let whole = MessageOf {
                content: seq![PartOf::OutputText(b.text)],
                id: b.item_id,
                phase: None,
                status: OutputStatus::InProgress,
            };
            &&& done is Complete ==> next.active_block is None && next.completion == s.completion
                && next.first_visible_at == s.first_visible_at
            &&& b.output_index == n && b.content_index == 0 && s.retained_output_bytes
                + encode_utf8(json_text(item_json(ItemOf::Message(whole)))).len() + 1
                <= usize::MAX ==> done is Complete && next.output == s.output.push(
                ItemOf::Message(whole),
            )
            &&& b.output_index + 1 == n && s.output.last() is Message ==> {
                let m = s.output.last()->Message_0;
                m.id == b.item_id && m.status == OutputStatus::InProgress && m.content.len()
                    == b.content_index && s.retained_output_bytes + encode_utf8(
                    json_text(part_json(PartOf::OutputText(b.text))),
                ).len() + 1 <= usize::MAX ==> done is Complete && next.output
                    == s.output.drop_last().push(
                    ItemOf::Message(
                        MessageOf { content: m.content.push(PartOf::OutputText(b.text)), ..m },
                    ),
                )
            }
        }),
{
    reveal(event_taken);
    let n = s.output.len();
    if b.output_index + 1 == n && s.output.last() is Message {
        let m = s.output.last()->Message_0;
        let item = ItemOf::Message(
            MessageOf { content: m.content.push(PartOf::OutputText(b.text)), ..m },
        );
        assert(s.output.update(n - 1, item) == s.output.drop_last().push(item));
    }
}

/// The end of an answer is told once, between blocks, with a reason; and it is noted with what it
/// took. The client is told nothing of it yet.
pub proof fn lemma_end_is_noted(
    s: StreamView,
    stop_reason: Option<StopReason>,
    stop_sequence: Option<Seq<char>>,
    usage: MessageDeltaUsage,
    settings: StreamSettingsOf<Seq<char>>,
    tools: Table,
    at: Moment,
)
    ensures
        ({
            let taken = event_taken(
                s,
                EventOf::MessageDelta { stop_reason, stop_sequence, usage },
                settings,
                tools,
                at,
            );
            let fits = s.message_id is Some && s.active_block is None && !s.saw_message_delta
                && stop_reason is Some;
            &&& !fits ==> taken is Invalid
            &&& fits ==> taken is Complete && taken->Complete_1.len() == 0 && taken->Complete_0
                == (StreamOf {
                saw_message_delta: true,
                stop_reason,
                stop_sequence,
                terminal_usage: Some(usage),
                ..s
            })
        }),
{
    reveal(event_taken);
}

/// An answer is over only after its end was told, between blocks, where it stopped for calls if
/// it has any that it had to stop for, and told of a stop sequence just where it stopped at one.
/// One that refuses after something was said ends late, one that pauses does not end.
pub proof fn lemma_bad_end(
    s: StreamView,
    settings: StreamSettingsOf<Seq<char>>,
    tools: Table,
    at: Moment,
)
    ensures
        ({
            let over = event_taken(s, EventOf::MessageStop, settings, tools, at);
            let reason = s.stop_reason;
            &&& !s.saw_message_delta || s.active_block is Some || reason is None || s.message_id
                is None || s.initial_usage is None || s.terminal_usage is None ==> over is Invalid
            &&& reason == Some(StopReason::PauseTurn) ==> over is Invalid
            &&& reason == Some(StopReason::ToolUse) && !s.saw_tool ==> over is Invalid
            &&& (reason == Some(StopReason::EndTurn) || reason == Some(StopReason::StopSequence)
                || reason == Some(StopReason::Refusal)) && s.saw_tool ==> over is Invalid
            &&& reason == Some(StopReason::StopSequence) && !(s.stop_sequence is Some
                && s.stop_sequence->0.len() > 0) ==> over is Invalid
            &&& reason != Some(StopReason::StopSequence) && s.stop_sequence is Some
                ==> over is Invalid
            &&& reason == Some(StopReason::Refusal) && s.output.len() > 0 ==> !(over is Complete)
            &&& over is Late ==> reason == Some(StopReason::Refusal) && s.output.len() > 0
            &&& retained_size(s, settings.model) > settings.buffer_limit ==> over is Invalid
        }),
{
    reveal(event_taken);
}

/// An answer that stopped as it may, with counts that can be told and within the limit, is over:
/// the response is complete.
#[verifier::rlimit(40)]
#[verifier::spinoff_prover]
pub proof fn lemma_good_end(
    s: StreamView,
    settings: StreamSettingsOf<Seq<char>>,
    tools: Table,
    at: Moment,
    reason: StopReason,
    items: Seq<ItemView>,
)
    requires
        s.saw_message_delta,
        s.active_block is None,
        s.stop_reason == Some(reason),
        s.stop_sequence is None,
        s.message_id is Some,
        s.created_at is Some,
        s.initial_usage is Some,
        s.initial_usage->0.service_tier is None,
        s.terminal_usage is Some,
        stream_told(s.initial_usage->0, s.terminal_usage->0) is Some,
        reason == StopReason::ToolUse && s.saw_tool || reason == StopReason::EndTurn && !s.saw_tool
            || reason == StopReason::MaxTokens || reason == StopReason::ModelContextWindowExceeded,
        retained_size(s, settings.model) <= settings.buffer_limit,
        items_closed(
            s.output,
            if reason == StopReason::ToolUse || reason == StopReason::EndTurn {
                OutputStatus::Completed
            } else {
                OutputStatus::Incomplete
            },
            if reason == StopReason::ToolUse {
                MessagePhase::Commentary
            } else {
                MessagePhase::FinalAnswer
            },
            0,
        ) == Some(items),
        items.len() <= u32::MAX,
        s.sequence_number + items.len() + 1 <= u64::MAX,
        2 <= encode_utf8(json_text(items_json(items))).len() <= usize::MAX,
        retained_size(
            (StreamOf {
                output: items,
                retained_output_bytes: (encode_utf8(json_text(items_json(items))).len()
                    - 2) as usize,
                ..s
            }),
            settings.model,
        ) <= settings.buffer_limit,
    ensures
        event_taken(s, EventOf::MessageStop, settings, tools, at) is Complete,
        event_taken(s, EventOf::MessageStop, settings, tools, at)->Complete_0.terminal_ready,
{
    reveal(event_taken);
}

/// A ping changes nothing and tells nothing.
pub proof fn lemma_ping(
    s: StreamView,
    settings: StreamSettingsOf<Seq<char>>,
    tools: Table,
    at: Moment,
)
    ensures
        event_taken(s, EventOf::Ping, settings, tools, at) is Complete,
        event_taken(s, EventOf::Ping, settings, tools, at)->Complete_0 == s,
        event_taken(s, EventOf::Ping, settings, tools, at)->Complete_1.len() == 0,
{
    reveal(event_taken);
}

/// An event is taken only under its own name, and where what is kept stays within the limit; and
/// a stream ends with its last event just where its counts are logged.
pub proof fn lemma_events_are_named(
    s: StreamView,
    name: Option<Seq<char>>,
    event: Option<EventView>,
    settings: StreamSettingsOf<Seq<char>>,
    tools: Table,
    at: Moment,
)
    ensures
        ({
            let due = due_on(s, name, event, settings, tools, at);
            let own = match event {
                Some(EventOf::MessageStart(_)) => "message_start"@,
                Some(EventOf::ContentBlockStart { .. }) => "content_block_start"@,
                Some(EventOf::ContentBlockDelta { .. }) => "content_block_delta"@,
                Some(EventOf::ContentBlockStop { .. }) => "content_block_stop"@,
                Some(EventOf::MessageDelta { .. }) => "message_delta"@,
                Some(EventOf::MessageStop) => "message_stop"@,
                _ => "ping"@,
            };
            &&& event is None || name != Some(own) ==> due is Invalid
            &&& event is Some && name == Some(own) ==> (match event_taken(
                s,
                event->0,
                settings,
                tools,
                at,
            ) {
                EndOf::Complete(next, told) => {
                    &&& retained_size(next, settings.model) > settings.buffer_limit
                        ==> due is Invalid
                    &&& due is Complete ==> due->Complete_1.0 == told && (next.terminal_ready <==>
                        due->Complete_1.1 is Some) && (next.terminal_ready
                        ==> due->Complete_0.terminated)
                    &&& !next.terminal_ready && retained_size(next, settings.model)
                        <= settings.buffer_limit ==> due is Complete && due->Complete_0 == next
                },
                EndOf::Late(_) => due is Late,
                EndOf::Invalid => due is Invalid,
            })
        }),
{
}

/// What is logged of a stream is what the upstream counted last, the input without the cache; the
/// model that answered, its tier, all that was said where that is logged, and when the client
/// first saw something.
pub proof fn lemma_log(s: StreamView)
    ensures
        telemetry_of(s) matches Some(t) ==> {
            let first = s.initial_usage->0;
            let last = s.terminal_usage->0;
            let input = latest(Some(first.input_tokens), last.input_tokens);
            let output = latest(Some(first.output_tokens), last.output_tokens);
            let creation = if last.cache_creation_input_tokens is Some {
                last.cache_creation_input_tokens
            } else {
                first.cache_creation_input_tokens
            };
            let thought = if thinking_in(last.output_tokens_details) is Some {
                thinking_in(last.output_tokens_details)
            } else {
                thinking_in(first.output_tokens_details)
            };
            &&& s.initial_usage is Some
            &&& s.terminal_usage is Some
            &&& t.input_tokens == input
            &&& t.output_tokens == output
            &&& t.total_tokens == input + output
            &&& t.cached_input_tokens == latest(
                first.cache_read_input_tokens,
                last.cache_read_input_tokens,
            )
            &&& creation is None ==> t.cache_creation_input_tokens is None
            &&& creation is Some ==> t.cache_creation_input_tokens is Some
                && t.cache_creation_input_tokens->0 == creation->0
            &&& thought is None ==> t.reasoning_tokens is None
            &&& thought is Some ==> t.reasoning_tokens is Some && t.reasoning_tokens->0
                == thought->0
            &&& t.provider_model == s.upstream_model
            &&& t.first_token == s.first_visible_at
            &&& t.service_tier == first.service_tier
            &&& t.completion == s.completion
            &&& t.output_messages == s.output_messages
        },
{
}

/// The one event that ends a stream that went wrong says that the upstream's stream was invalid,
/// or that a refusal came too late; and nothing of what the upstream said.
pub proof fn lemma_error_event(n: u64, late: bool)
    ensures
        ({
            let e = error_told(n, late);
            &&& e.name == "error"@
            &&& e.body.get("type"@) == Some(JsonView::Text("error"@))
            &&& e.body.get("sequence_number"@) == Some(JsonView::Unsigned(n))
            &&& e.body.get("param"@) == Some(JsonView::Null)
            &&& late ==> e.body.get("code"@) == Some(JsonView::Text("refusal_after_streaming"@))
            &&& !late ==> e.body.get("code"@) == Some(JsonView::Text("server_error"@))
                && e.body.get("message"@) == Some(
                JsonView::Text("Upstream Anthropic stream was invalid"@),
            )
        }),
{
    broadcast use group_lookups;

    lemma_names();
}

/// What is logged of the calls of a response: all of them, and nothing else.
pub proof fn lemma_logged_calls(items: Seq<ItemView>, completed: bool, k: int)
    requires
        0 <= k < items.len(),
    ensures
        items[k] is FunctionCall || items[k] is CustomToolCall || items[k] is LocalShellCall
            || items[k] is ShellCall || items[k] is ApplyPatchCall ==> calls_logged(
            items,
            completed,
        ) is Some && calls_logged(items, completed)->0.calls.contains(items[k])
            && calls_logged(items, completed)->0.completed == completed,
        items[k] is Message ==> (calls_logged(items, completed) is Some ==> !calls_logged(
            items,
            completed,
        )->0.calls.contains(items[k])),
{
    broadcast use vstd::seq_lib::group_filter_ensures;

    let picks = |i: ItemView| crate::stream::is_call(i);
    let calls = items.filter(picks);
    if crate::stream::is_call(items[k]) {
        assert(picks(items[k]));
        assert(calls.contains(items[k]));
    }
    if items[k] is Message && calls.contains(items[k]) {
        let j = choose|j: int| 0 <= j < calls.len() && calls[j] == items[k];
        assert(picks(calls[j]));
    }
}

} // verus!
