//! How a streamed conversion reacts to the beginning of an answer and to its blocks.
use vstd::prelude::*;
use vstd::utf8::encode_utf8;

use crate::calls::{
    at, direct, direct_tool_caller, item_id, item_id_of, response_tool_output, tool_item,
    validate_wrapped_response_input, wrapped_ok,
};
use crate::codec::{json_text, parsed};
use crate::decode::{Block, BlockOf, BlockView, Delta, DeltaOf, MessageStart, StartOf};
use crate::items::{item_of, message_item, stream_item, stream_message_item, stream_output_part};
use crate::json::{view_in, Json, JsonView, Object};
use crate::messages::Role;
use crate::responses::{
    CustomToolCallOf, FunctionCallOf, ItemOf, ItemView, OutputItem, OutputStatus, PartOf,
    ResponseOf, ResponseView, Status,
};
use crate::stream_events::{
    call_told, item_told, part_told, response_told, tell_call, tell_item, tell_part, tell_response,
    tell_text, text_told,
};
use crate::stream_state::{
    id_retained, retained, seen, streamed_views, text_retained, ResponsesStreamState, StreamBlockOf,
    StreamOf, StreamTextBlock, StreamTextBlockOf, StreamToolBlock, StreamToolBlockOf, StreamView,
    Streamed, StreamedView,
};
use crate::text::{blank, copy_opt, join, owned, same};
use crate::tools::{tool_named, DeclaredOf, State, Table, WrappedKind};
use crate::usage::{stream_service_tier, tier_in, ServiceTier};

verus! {

/// A moment, on the clock of the world and on that of the caller.
#[derive(Debug, Clone, Copy, PartialEq, Eq, Structural)]
pub struct Moment {
    /// Seconds of the Unix epoch.
    pub seconds: u64,
    /// A reading of a clock that never goes back.
    pub instant: u64,
}

/// What a stream becomes and what the client is told; none where the event does not fit.
pub type Step = Option<(StreamView, Seq<StreamedView>)>;

/// Whether a stream did not end or change its mind about a refusal.
pub open spec fn steady(before: StreamView, after: StreamView) -> bool {
    before.terminated == after.terminated && before.late_refusal == after.late_refusal
}

/// Whether a reaction is the one that is due.
pub open spec fn follows(
    due: Step,
    before: StreamView,
    after: StreamView,
    r: Result<Vec<Streamed>, ()>,
) -> bool {
    match due {
        Some((s, events)) => r is Ok && after == s && streamed_views(r->Ok_0@) == events,
        None => r is Err && steady(before, after),
    }
}

/// The stream with the numbers of the next events used up, where there are that many.
pub open spec fn numbered(s: StreamView, count: nat) -> Option<StreamView> {
    if s.sequence_number + count <= u64::MAX {
        Some(StreamOf { sequence_number: (s.sequence_number + count) as u64, ..s })
    } else {
        None
    }
}

/// Takes the numbers of the next events and gives the first of them.
pub fn take_numbers(stream: &mut ResponsesStreamState, count: u64) -> (r: Result<u64, ()>)
    ensures
        match numbered(old(stream)@, count as nat) {
            Some(s) => r == Ok::<u64, ()>(old(stream).sequence_number) && final(stream)@ == s,
            None => r is Err && *final(stream) == *old(stream),
        },
{
    let first: u64 = stream.sequence_number;
    match first.checked_add(count) {
        Some(next) => {
            stream.sequence_number = next;
            Ok(first)
        },
        None => Err(()),
    }
}

/// The id of a response: that of the answer it is made of, marked as a response's.
pub open spec fn response_id_of(message_id: Seq<char>) -> Seq<char> {
    "resp_"@ + message_id
}

/// A response that has just begun.
pub open spec fn snapshot_of(
    message_id: Seq<char>,
    created_at: u64,
    model: Seq<char>,
    service_tier: Option<ServiceTier>,
) -> ResponseView {
    ResponseOf {
        id: response_id_of(message_id),
        created_at,
        status: Status::InProgress,
        output: Seq::empty(),
        model,
        usage: None,
        service_tier,
    }
}

/// The answer begins: the response is told twice, as created and as in progress.
pub open spec fn started(
    s: StreamView,
    m: StartOf<Seq<char>>,
    model: Seq<char>,
    at: Moment,
) -> Step {
    let tier = tier_in(m.usage.service_tier);
    if s.message_id is Some || m.kind != "message"@ || m.role != Role::Assistant || !m.bare
        || m.stop_reason is Some || m.stop_sequence is Some || m.id.len() == 0 || m.model.len()
        == 0 || tier is None || numbered(s, 2) is None {
        None
    } else {
        let snapshot = snapshot_of(m.id, at.seconds, model, tier->0);
        let n = s.sequence_number;
        Some(
            (
                StreamOf {
                    message_id: Some(m.id),
                    upstream_model: Some(m.model),
                    created_at: Some(at.seconds),
                    initial_usage: Some(m.usage),
                    ..numbered(s, 2)->0
                },
                seq![
                    response_told("response.created"@, n, snapshot),
                    response_told("response.in_progress"@, (n + 1) as u64, snapshot),
                ],
            ),
        )
    }
}

/// The answer begins.
pub fn message_start(
    stream: &mut ResponsesStreamState,
    message: MessageStart,
    model: &str,
    at: Moment,
) -> (r: Result<Vec<Streamed>, ()>)
    ensures
        follows(started(old(stream)@, message@, model@, at), old(stream)@, final(stream)@, r),
{
    if stream.message_id.is_some() || !same(message.kind.as_str(), "message") || message.role
        != Role::Assistant || !message.bare || message.stop_reason.is_some()
        || message.stop_sequence.is_some() || blank(message.id.as_str()) || blank(
        message.model.as_str(),
    ) {
        return Err(());
    }
    let tier_name = match &message.usage.service_tier {
        Some(tier) => Some(tier.as_str()),
        None => None,
    };
    let tier = match stream_service_tier(tier_name) {
        Ok(tier) => tier,
        Err(_) => return Err(()),
    };
    let n: u64 = match take_numbers(stream, 2) {
        Ok(n) => n,
        Err(_) => return Err(()),
    };
    let snapshot = ResponseOf {
        id: join("resp_", message.id.as_str()),
        created_at: at.seconds,
        status: Status::InProgress,
        output: Vec::new(),
        model: owned(model),
        usage: None,
        service_tier: tier,
    };
    assert(snapshot@.output == Seq::<ItemView>::empty());
    let mut events: Vec<Streamed> = Vec::new();
    events.push(tell_response("response.created", n, &snapshot));
    events.push(tell_response("response.in_progress", n + 1, &snapshot));
    stream.message_id = Some(message.id);
    stream.upstream_model = Some(message.model);
    stream.created_at = Some(at.seconds);
    stream.initial_usage = Some(message.usage);
    assert(streamed_views(events@) == (started(old(stream)@, message@, model@, at)->0).1);
    Ok(events)
}

/// Where a text that begins will stand: in the message that is the last item, or in a new one.
pub open spec fn text_place(s: StreamView, message_id: Seq<char>, index: usize) -> (
    nat,
    nat,
    Seq<char>,
    bool,
) {
    let n = s.output.len();
    if n > 0 && s.output[n - 1] is Message {
        let m = s.output[n - 1]->Message_0;
        ((n - 1) as nat, m.content.len(), m.id, false)
    } else {
        (n, 0, item_id_of("msg"@, message_id, index as nat), true)
    }
}

/// A text begins.
pub open spec fn text_opened(s: StreamView, message_id: Seq<char>, index: usize) -> Step {
    let (output_index, content_index, id, fresh_item) = text_place(s, message_id, index);
    let count: nat = if fresh_item {
        2
    } else {
        1
    };
    if content_index > u32::MAX || numbered(s, count) is None {
        None
    } else {
        let n = s.sequence_number;
        let part = PartOf::OutputText(Seq::empty());
        Some(
            (
                StreamOf {
                    active_block: Some(
                        StreamBlockOf::Text(
                            StreamTextBlockOf {
                                index,
                                output_index: output_index as u32,
                                content_index: content_index as u32,
                                item_id: id,
                                text: Seq::empty(),
                            },
                        ),
                    ),
                    ..numbered(s, count)->0
                },
                if fresh_item {
                    seq![
                        item_told(
                            "response.output_item.added"@,
                            n,
                            output_index as u32,
                            message_item(id, Seq::empty(), OutputStatus::InProgress),
                        ),
                        part_told(
                            "response.content_part.added"@,
                            (n + 1) as u64,
                            id,
                            output_index as u32,
                            content_index as u32,
                            part,
                        ),
                    ]
                } else {
                    seq![
                        part_told(
                            "response.content_part.added"@,
                            n,
                            id,
                            output_index as u32,
                            content_index as u32,
                            part,
                        ),
                    ]
                },
            ),
        )
    }
}

fn open_text(
    stream: &mut ResponsesStreamState,
    message_id: &str,
    index: usize,
) -> (r: Result<Vec<Streamed>, ()>)
    requires
        old(stream).output.len() <= u32::MAX,
    ensures
        follows(
            text_opened(old(stream)@, message_id@, index),
            old(stream)@,
            final(stream)@,
            r,
        ),
{
    let n: usize = stream.output.len();
    let mut output_index: usize = n;
    let mut content_index: usize = 0;
    let mut id: Option<String> = None;
    if n > 0 {
        assert(stream@.output[n - 1] == stream.output@[n - 1]@);
        match &stream.output[n - 1] {
            ItemOf::Message(m) => {
                output_index = n - 1;
                content_index = m.content.len();
                id = Some(owned(m.id.as_str()));
            },
            _ => {},
        }
    }
    let fresh_item = id.is_none();
    let id = match id {
        Some(id) => id,
        None => item_id("msg", message_id, index),
    };
    if content_index as u64 > u32::MAX as u64 {
        return Err(());
    }
    let output_index: u32 = output_index as u32;
    let content_index: u32 = content_index as u32;
    let first: u64 = match take_numbers(
        stream,
        if fresh_item {
            2
        } else {
            1
        },
    ) {
        Ok(first) => first,
        Err(_) => return Err(()),
    };
    let mut events: Vec<Streamed> = Vec::new();
    let nothing = String::new();
    assert(nothing@ == Seq::<char>::empty());
    let part = stream_output_part(String::new());
    if fresh_item {
        let item = stream_message_item(
            owned(id.as_str()),
            String::new(),
            OutputStatus::InProgress,
        );
        events.push(tell_item("response.output_item.added", first, output_index, &item));
        events.push(
            tell_part(
                "response.content_part.added",
                first + 1,
                id.as_str(),
                output_index,
                content_index,
                &part,
            ),
        );
    } else {
        events.push(
            tell_part(
                "response.content_part.added",
                first,
                id.as_str(),
                output_index,
                content_index,
                &part,
            ),
        );
    }
    stream.active_block = Some(
        StreamBlockOf::Text(
            StreamTextBlockOf { index, output_index, content_index, item_id: id, text: nothing },
        ),
    );
    assert(streamed_views(events@) == (text_opened(old(stream)@, message_id@, index)->0).1);
    Ok(events)
}

/// The id of a call that begins, and the item that announces it where the client can follow it
/// from the start. Calls that ask the client to act are announced when they are complete.
pub open spec fn call_announced(
    message_id: Seq<char>,
    index: usize,
    call_id: Seq<char>,
    name: Seq<char>,
    tools: Table,
) -> Option<(Seq<char>, Option<ItemView>)> {
    match tool_named(tools, name) {
        None => None,
        Some(DeclaredOf::Function) => {
            let id = item_id_of("fc"@, message_id, index as nat);
            Some(
                (
                    id,
                    Some(
                        ItemOf::FunctionCall(
                            FunctionCallOf {
                                id: Some(id),
                                call_id,
                                namespace: None,
                                name,
                                arguments: Seq::empty(),
                                status: Some(OutputStatus::InProgress),
                            },
                        ),
                    ),
                ),
            )
        },
        Some(DeclaredOf::Wrapped(w)) => {
            let id = item_id_of(w.kind.prefix(), message_id, index as nat);
            Some(
                (
                    id,
                    match w.kind {
                        WrappedKind::NamespaceFunction => Some(
                            ItemOf::FunctionCall(
                                FunctionCallOf {
                                    id: Some(id),
                                    call_id,
                                    namespace: w.namespace,
                                    name: w.name,
                                    arguments: Seq::empty(),
                                    status: Some(OutputStatus::InProgress),
                                },
                            ),
                        ),
                        WrappedKind::NamespaceCustom | WrappedKind::Custom => Some(
                            ItemOf::CustomToolCall(
                                CustomToolCallOf {
                                    id,
                                    call_id,
                                    namespace: w.namespace,
                                    name: w.name,
                                    input: Seq::empty(),
                                },
                            ),
                        ),
                        _ => None,
                    },
                ),
            )
        },
    }
}

/// The id of a call that begins, and the item that announces it.
pub fn stream_tool_added_item(
    message_id: &str,
    index: usize,
    call_id: &str,
    upstream_name: &str,
    state: &State,
) -> (r: Result<(String, Option<OutputItem>), ()>)
    ensures
        match call_announced(message_id@, index, call_id@, upstream_name@, state@) {
            Some((id, item)) => {
                &&& r is Ok
                &&& r->Ok_0.0@ == id
                &&& (match r->Ok_0.1 {
                    Some(i) => Some(i@),
                    None => None,
                }) == item
            },
            None => r is Err,
        },
{
    let declared = match state.get(upstream_name) {
        Some(declared) => declared,
        None => return Err(()),
    };
    let nothing = String::new();
    assert(nothing@ == Seq::<char>::empty());
    match declared {
        DeclaredOf::Function => {
            let id = item_id("fc", message_id, index);
            let item = ItemOf::FunctionCall(
                FunctionCallOf {
                    id: Some(owned(id.as_str())),
                    call_id: owned(call_id),
                    namespace: None,
                    name: owned(upstream_name),
                    arguments: nothing,
                    status: Some(OutputStatus::InProgress),
                },
            );
            Ok((id, Some(item)))
        },
        DeclaredOf::Wrapped(w) => {
            let id = item_id(w.kind.id_prefix(), message_id, index);
            let item = match w.kind {
                WrappedKind::NamespaceFunction => Some(
                    ItemOf::FunctionCall(
                        FunctionCallOf {
                            id: Some(owned(id.as_str())),
                            call_id: owned(call_id),
                            namespace: copy_opt(&w.namespace),
                            name: owned(w.name.as_str()),
                            arguments: nothing,
                            status: Some(OutputStatus::InProgress),
                        },
                    ),
                ),
                WrappedKind::NamespaceCustom | WrappedKind::Custom => Some(
                    ItemOf::CustomToolCall(
                        CustomToolCallOf {
                            id: owned(id.as_str()),
                            call_id: owned(call_id),
                            namespace: copy_opt(&w.namespace),
                            name: owned(w.name.as_str()),
                            input: nothing,
                        },
                    ),
                ),
                _ => None,
            };
            Ok((id, item))
        },
    }
}

/// A tool use begins. It must come from the model itself, with a new id and without input.
pub open spec fn tool_opened(
    s: StreamView,
    message_id: Seq<char>,
    index: usize,
    id: Seq<char>,
    name: Seq<char>,
    input: JsonView,
    caller: Option<JsonView>,
    marked: bool,
    tools: Table,
) -> Step {
    let announced = call_announced(message_id, index, id, name, tools);
    let kept = id_retained(s, id);
    if id.len() == 0 || name.len() == 0 || input != JsonView::object() || !direct(caller) || marked
        || announced is None || kept is None {
        None
    } else {
        let (item_id, item) = announced->0;
        let opened = StreamOf {
            saw_tool: true,
            active_block: Some(
                StreamBlockOf::Tool(
                    StreamToolBlockOf {
                        index,
                        output_index: s.output.len() as u32,
                        item_id,
                        call_id: id,
                        upstream_name: name,
                        json: Seq::empty(),
                    },
                ),
            ),
            ..kept->0
        };
        match item {
            None => Some((opened, Seq::empty())),
            Some(item) => match numbered(opened, 1) {
                Some(after) => Some(
                    (
                        after,
                        seq![
                            item_told(
                                "response.output_item.added"@,
                                s.sequence_number,
                                s.output.len() as u32,
                                item,
                            ),
                        ],
                    ),
                ),
                None => None,
            },
        }
    }
}

fn open_tool(
    stream: &mut ResponsesStreamState,
    message_id: &str,
    index: usize,
    id: String,
    name: String,
    input: &Json,
    caller: Option<&Json>,
    marked: bool,
    state: &State,
) -> (r: Result<Vec<Streamed>, ()>)
    requires
        old(stream).output.len() <= u32::MAX,
    ensures
        follows(
            tool_opened(
                old(stream)@,
                message_id@,
                index,
                id@,
                name@,
                input@,
                view_in(caller),
                marked,
                state@,
            ),
            old(stream)@,
            final(stream)@,
            r,
        ),
{
    let empty_input = match input {
        Json::Object(o) => {
            let empty = o.len() == 0;
            proof {
                if empty {
                    assert(o@ == Seq::<(Seq<char>, JsonView)>::empty());
                }
            }
            empty
        },
        _ => false,
    };
    if blank(id.as_str()) || blank(name.as_str()) || !empty_input || !direct_tool_caller(caller)
        || marked {
        return Err(());
    }
    match stream.retain_tool_id(owned(id.as_str())) {
        Ok(_) => {},
        Err(_) => return Err(()),
    }
    stream.saw_tool = true;
    let (item_id, added) = match stream_tool_added_item(
        message_id,
        index,
        id.as_str(),
        name.as_str(),
        state,
    ) {
        Ok(found) => found,
        Err(_) => return Err(()),
    };
    let output_index: u32 = stream.output.len() as u32;
    let nothing = String::new();
    assert(nothing@ == Seq::<char>::empty());
    stream.active_block = Some(
        StreamBlockOf::Tool(
            StreamToolBlockOf {
                index,
                output_index,
                item_id,
                call_id: id,
                upstream_name: name,
                json: nothing,
            },
        ),
    );
    let mut events: Vec<Streamed> = Vec::new();
    match added {
        Some(item) => {
            let n: u64 = match take_numbers(stream, 1) {
                Ok(n) => n,
                Err(_) => return Err(()),
            };
            events.push(tell_item("response.output_item.added", n, output_index, &item));
            assert(streamed_views(events@) == seq![
                item_told("response.output_item.added"@, n, output_index, item@),
            ]);
        },
        None => {
            assert(streamed_views(events@) == Seq::<StreamedView>::empty());
        },
    }
    Ok(events)
}

/// A block begins. Blocks come one after the other, in order, before the answer's end is told.
/// Thinking is dropped.
pub open spec fn block_started(
    s: StreamView,
    index: usize,
    block: BlockView,
    tools: Table,
) -> Step {
    if s.message_id is None || s.active_block is Some || s.saw_message_delta || index
        != s.next_block_index || s.output.len() > u32::MAX || s.next_block_index == usize::MAX {
        None
    } else {
        let message_id = s.message_id->0;
        let next = StreamOf { next_block_index: (s.next_block_index + 1) as usize, ..s };
        match block {
            BlockOf::Text { text, marked } => if text.len() > 0 || marked {
                None
            } else {
                text_opened(next, message_id, index)
            },
            BlockOf::ToolUse { id, name, input, caller, marked } => tool_opened(
                next,
                message_id,
                index,
                id,
                name,
                input,
                caller,
                marked,
                tools,
            ),
            BlockOf::Thinking => Some(
                (
                    StreamOf {
                        active_block: Some(
                            StreamBlockOf::DroppedThinking { index, signature_seen: false },
                        ),
                        ..next
                    },
                    Seq::empty(),
                ),
            ),
            BlockOf::RedactedThinking => Some(
                (
                    StreamOf {
                        active_block: Some(StreamBlockOf::DroppedRedactedThinking { index }),
                        ..next
                    },
                    Seq::empty(),
                ),
            ),
        }
    }
}

/// A block begins.
pub fn content_block_start(
    stream: &mut ResponsesStreamState,
    index: usize,
    block: Block,
    state: &State,
) -> (r: Result<Vec<Streamed>, ()>)
    ensures
        follows(
            block_started(old(stream)@, index, block@, state@),
            old(stream)@,
            final(stream)@,
            r,
        ),
{
    if stream.active_block.is_some() || stream.saw_message_delta || index
        != stream.next_block_index || stream.output.len() as u64 > u32::MAX as u64 {
        return Err(());
    }
    let message_id = match &stream.message_id {
        Some(id) => owned(id.as_str()),
        None => return Err(()),
    };
    stream.next_block_index = match stream.next_block_index.checked_add(1) {
        Some(next) => next,
        None => return Err(()),
    };
    match block {
        BlockOf::Text { text, marked } => {
            if !blank(text.as_str()) || marked {
                return Err(());
            }
            open_text(stream, message_id.as_str(), index)
        },
        BlockOf::ToolUse { id, name, input, caller, marked } => {
            let from = match &caller {
                Some(c) => Some(c),
                None => None,
            };
            open_tool(stream, message_id.as_str(), index, id, name, &input, from, marked, state)
        },
        BlockOf::Thinking => {
            stream.active_block = Some(
                StreamBlockOf::DroppedThinking { index, signature_seen: false },
            );
            let events: Vec<Streamed> = Vec::new();
            assert(streamed_views(events@) == Seq::<StreamedView>::empty());
            Ok(events)
        },
        BlockOf::RedactedThinking => {
            stream.active_block = Some(StreamBlockOf::DroppedRedactedThinking { index });
            let events: Vec<Streamed> = Vec::new();
            assert(streamed_views(events@) == Seq::<StreamedView>::empty());
            Ok(events)
        },
    }
}

/// Something is added to the open block.
pub open spec fn delta_taken(
    s: StreamView,
    index: usize,
    delta: DeltaOf<Seq<char>>,
    tools: Table,
    now: u64,
) -> Step {
    if s.saw_message_delta {
        None
    } else {
        match (s.active_block, delta) {
            (Some(StreamBlockOf::Text(b)), DeltaOf::Text(text)) => if b.index == index {
                text_added(s, b, text, now)
            } else {
                None
            },
            (Some(StreamBlockOf::Tool(b)), DeltaOf::InputJson(json)) => if b.index == index {
                input_added(s, b, json, tools, now)
            } else {
                None
            },
            (
                Some(StreamBlockOf::DroppedThinking { index: i, signature_seen }),
                DeltaOf::Thinking,
            ) => if i == index && !signature_seen {
                Some((s, Seq::empty()))
            } else {
                None
            },
            (
                Some(StreamBlockOf::DroppedThinking { index: i, signature_seen }),
                DeltaOf::Signature(signature),
            ) => if i == index && !signature_seen && signature.len() > 0 {
                Some(
                    (
                        StreamOf {
                            active_block: Some(
                                StreamBlockOf::DroppedThinking { index, signature_seen: true },
                            ),
                            ..s
                        },
                        Seq::empty(),
                    ),
                )
            } else {
                None
            },
            _ => None,
        }
    }
}

/// The stream with output shown to the client, where there is any.
pub open spec fn shown(s: StreamView, text: Seq<char>, now: u64) -> StreamView {
    if text.len() > 0 {
        seen(s, now)
    } else {
        s
    }
}

/// Text is added to the open text.
pub open spec fn text_added(
    s: StreamView,
    b: StreamTextBlockOf<Seq<char>>,
    text: Seq<char>,
    now: u64,
) -> Step {
    let grown = shown(
        StreamOf {
            active_block: Some(
                StreamBlockOf::Text(StreamTextBlockOf { text: b.text + text, ..b }),
            ),
            completion: match s.completion {
                Some(c) => Some(c + text),
                None => None,
            },
            ..s
        },
        text,
        now,
    );
    match numbered(grown, 1) {
        Some(after) => Some(
            (
                after,
                seq![
                    text_told(
                        "response.output_text.delta"@,
                        s.sequence_number,
                        b.item_id,
                        b.output_index,
                        b.content_index,
                        "delta"@,
                        text,
                    ),
                ],
            ),
        ),
        None => None,
    }
}

/// Input is added to the open tool use. Only that of a plain function is passed on at once.
pub open spec fn input_added(
    s: StreamView,
    b: StreamToolBlockOf<Seq<char>>,
    json: Seq<char>,
    tools: Table,
    now: u64,
) -> Step {
    let grown = shown(
        StreamOf {
            active_block: Some(
                StreamBlockOf::Tool(StreamToolBlockOf { json: b.json + json, ..b }),
            ),
            ..s
        },
        json,
        now,
    );
    match tool_named(tools, b.upstream_name) {
        None => None,
        Some(DeclaredOf::Wrapped(_)) => Some((grown, Seq::empty())),
        Some(DeclaredOf::Function) => match numbered(grown, 1) {
            Some(after) => Some(
                (
                    after,
                    seq![
                        call_told(
                            "response.function_call_arguments.delta"@,
                            s.sequence_number,
                            b.item_id,
                            b.output_index,
                            None,
                            "delta"@,
                            json,
                        ),
                    ],
                ),
            ),
            None => None,
        },
    }
}

fn add_text(
    stream: &mut ResponsesStreamState,
    b: StreamTextBlock,
    text: String,
    now: u64,
) -> (r: Result<Vec<Streamed>, ()>)
    requires
        old(stream).active_block is None,
    ensures
        follows(text_added(old(stream)@, b@, text@, now), old(stream)@, final(stream)@, r),
{
    let mut b = b;
    let ghost before = b@;
    b.text.append(text.as_str());
    match stream.completion.take() {
        Some(c) => {
            stream.completion = Some(c.concat(text.as_str()));
        },
        None => {},
    }
    if !blank(text.as_str()) {
        stream.mark_visible(now);
    }
    let n: u64 = match take_numbers(stream, 1) {
        Ok(n) => n,
        Err(_) => return Err(()),
    };
    let mut events: Vec<Streamed> = Vec::new();
    events.push(
        tell_text(
            "response.output_text.delta",
            n,
            b.item_id.as_str(),
            b.output_index,
            b.content_index,
            "delta",
            text.as_str(),
        ),
    );
    stream.active_block = Some(StreamBlockOf::Text(b));
    assert(streamed_views(events@) == (text_added(old(stream)@, before, text@, now)->0).1);
    Ok(events)
}

fn add_input(
    stream: &mut ResponsesStreamState,
    b: StreamToolBlock,
    json: String,
    state: &State,
    now: u64,
) -> (r: Result<Vec<Streamed>, ()>)
    requires
        old(stream).active_block is None,
    ensures
        follows(
            input_added(old(stream)@, b@, json@, state@, now),
            old(stream)@,
            final(stream)@,
            r,
        ),
{
    let mut b = b;
    let ghost before = b@;
    b.json.append(json.as_str());
    if !blank(json.as_str()) {
        stream.mark_visible(now);
    }
    let plain = match state.get(b.upstream_name.as_str()) {
        Some(DeclaredOf::Function) => true,
        Some(DeclaredOf::Wrapped(_)) => false,
        None => return Err(()),
    };
    let mut events: Vec<Streamed> = Vec::new();
    if plain {
        let n: u64 = match take_numbers(stream, 1) {
            Ok(n) => n,
            Err(_) => return Err(()),
        };
        events.push(
            tell_call(
                "response.function_call_arguments.delta",
                n,
                b.item_id.as_str(),
                b.output_index,
                None,
                "delta",
                json.as_str(),
            ),
        );
    }
    stream.active_block = Some(StreamBlockOf::Tool(b));
    assert(streamed_views(events@) == (input_added(
        old(stream)@,
        before,
        json@,
        state@,
        now,
    )->0).1);
    Ok(events)
}

/// Something is added to the open block.
pub fn content_block_delta(
    stream: &mut ResponsesStreamState,
    index: usize,
    delta: Delta,
    state: &State,
    now: u64,
) -> (r: Result<Vec<Streamed>, ()>)
    ensures
        follows(
            delta_taken(old(stream)@, index, delta@, state@, now),
            old(stream)@,
            final(stream)@,
            r,
        ),
{
    if stream.saw_message_delta {
        return Err(());
    }
    let ghost s = stream@;
    let block = stream.active_block.take();
    let ghost taken = stream@;
    match (block, delta) {
        (Some(StreamBlockOf::Text(b)), DeltaOf::Text(text)) => {
            if b.index != index {
                return Err(());
            }
            proof {
                assert(text_added(taken, b@, text@, now) == text_added(s, b@, text@, now));
            }
            add_text(stream, b, text, now)
        },
        (Some(StreamBlockOf::Tool(b)), DeltaOf::InputJson(json)) => {
            if b.index != index {
                return Err(());
            }
            proof {
                assert(input_added(taken, b@, json@, state@, now) == input_added(
                    s,
                    b@,
                    json@,
                    state@,
                    now,
                ));
            }
            add_input(stream, b, json, state, now)
        },
        (
            Some(StreamBlockOf::DroppedThinking { index: i, signature_seen }),
            DeltaOf::Thinking,
        ) => {
            if i != index || signature_seen {
                return Err(());
            }
            stream.active_block = Some(
                StreamBlockOf::DroppedThinking { index: i, signature_seen: false },
            );
            let events: Vec<Streamed> = Vec::new();
            assert(streamed_views(events@) == Seq::<StreamedView>::empty());
            Ok(events)
        },
        (
            Some(StreamBlockOf::DroppedThinking { index: i, signature_seen }),
            DeltaOf::Signature(signature),
        ) => {
            if i != index || signature_seen || blank(signature.as_str()) {
                return Err(());
            }
            stream.active_block = Some(
                StreamBlockOf::DroppedThinking { index: i, signature_seen: true },
            );
            let events: Vec<Streamed> = Vec::new();
            assert(streamed_views(events@) == Seq::<StreamedView>::empty());
            Ok(events)
        },
        _ => Err(()),
    }
}

/// A text is done.
pub open spec fn text_closed(s: StreamView, b: StreamTextBlockOf<Seq<char>>) -> Step {
    match text_retained(s, b) {
        None => None,
        Some(kept) => match numbered(kept, 2) {
            None => None,
            Some(after) => Some(
                (
                    after,
                    seq![
                        text_told(
                            "response.output_text.done"@,
                            s.sequence_number,
                            b.item_id,
                            b.output_index,
                            b.content_index,
                            "text"@,
                            b.text,
                        ),
                        part_told(
                            "response.content_part.done"@,
                            (s.sequence_number + 1) as u64,
                            b.item_id,
                            b.output_index,
                            b.content_index,
                            PartOf::OutputText(b.text),
                        ),
                    ],
                ),
            ),
        },
    }
}

fn close_text(stream: &mut ResponsesStreamState, b: StreamTextBlock) -> (r: Result<
    Vec<Streamed>,
    (),
>)
    ensures
        follows(text_closed(old(stream)@, b@), old(stream)@, final(stream)@, r),
{
    match stream.retain_text_part(&b) {
        Ok(_) => {},
        Err(_) => return Err(()),
    }
    let n: u64 = match take_numbers(stream, 2) {
        Ok(n) => n,
        Err(_) => return Err(()),
    };
    let mut events: Vec<Streamed> = Vec::new();
    events.push(
        tell_text(
            "response.output_text.done",
            n,
            b.item_id.as_str(),
            b.output_index,
            b.content_index,
            "text",
            b.text.as_str(),
        ),
    );
    let part = stream_output_part(owned(b.text.as_str()));
    events.push(
        tell_part(
            "response.content_part.done",
            n + 1,
            b.item_id.as_str(),
            b.output_index,
            b.content_index,
            &part,
        ),
    );
    assert(streamed_views(events@) == (text_closed(old(stream)@, b@)->0).1);
    Ok(events)
}

/// The text of a tool use's input; one that never came stands for no arguments.
pub open spec fn input_text(b: StreamToolBlockOf<Seq<char>>) -> Seq<char> {
    if b.json.len() == 0 {
        "{}"@
    } else {
        b.json
    }
}

/// What the client is told of a call that is complete, and how many events that takes.
pub open spec fn call_finished(
    b: StreamToolBlockOf<Seq<char>>,
    declared: DeclaredOf<Seq<char>>,
    input: JsonView,
    item: ItemView,
    n: u64,
) -> Seq<StreamedView> {
    let next = (n + 1) as u64;
    match declared {
        DeclaredOf::Function => seq![
            call_told(
                "response.function_call_arguments.done"@,
                n,
                b.item_id,
                b.output_index,
                Some(b.upstream_name),
                "arguments"@,
                input_text(b),
            ),
        ],
        DeclaredOf::Wrapped(w) => match w.kind {
            WrappedKind::NamespaceFunction => {
                let arguments = json_text(at(input, "arguments"@));
                seq![
                    call_told(
                        "response.function_call_arguments.delta"@,
                        n,
                        b.item_id,
                        b.output_index,
                        None,
                        "delta"@,
                        arguments,
                    ),
                    call_told(
                        "response.function_call_arguments.done"@,
                        next,
                        b.item_id,
                        b.output_index,
                        Some(w.name),
                        "arguments"@,
                        arguments,
                    ),
                ]
            },
            WrappedKind::NamespaceCustom | WrappedKind::Custom => {
                let text = at(input, "input"@)->Text_0;
                seq![
                    call_told(
                        "response.custom_tool_call_input.delta"@,
                        n,
                        b.item_id,
                        b.output_index,
                        None,
                        "delta"@,
                        text,
                    ),
                    call_told(
                        "response.custom_tool_call_input.done"@,
                        next,
                        b.item_id,
                        b.output_index,
                        None,
                        "input"@,
                        text,
                    ),
                ]
            },
            _ => seq![item_told("response.output_item.added"@, n, b.output_index, item)],
        },
    }
}

/// Whether a call that is complete shows the client something new.
pub open spec fn call_shows(declared: DeclaredOf<Seq<char>>, input: JsonView) -> bool {
    match declared {
        DeclaredOf::Function => false,
        DeclaredOf::Wrapped(w) => match w.kind {
            WrappedKind::NamespaceCustom | WrappedKind::Custom => at(
                input,
                "input"@,
            )->Text_0.len() > 0,
            _ => true,
        },
    }
}

/// A tool use is done, with the input that its text stands for. The input must be an object, and
/// that of a wrapped tool its payload.
pub open spec fn tool_closed(
    s: StreamView,
    b: StreamToolBlockOf<Seq<char>>,
    input: Option<JsonView>,
    tools: Table,
    now: u64,
) -> Step {
    match (input, tool_named(tools, b.upstream_name), s.message_id) {
        (Some(JsonView::Object(fields)), Some(declared), Some(message_id)) => {
            let given = JsonView::Object(fields);
            let item = item_of(
                tool_item(
                    message_id,
                    b.index as nat,
                    "in_progress"@,
                    b.call_id,
                    b.upstream_name,
                    given,
                    tools,
                )->0,
            );
            if (declared is Wrapped && !wrapped_ok(declared->Wrapped_0.kind, fields)) || item
                is None || retained(s, item->0) is None {
                None
            } else {
                let kept = retained(s, item->0)->0;
                let told = call_finished(b, declared, given, item->0, s.sequence_number);
                let visible = if call_shows(declared, given) {
                    seen(kept, now)
                } else {
                    kept
                };
                match numbered(visible, told.len()) {
                    Some(after) => Some((after, told)),
                    None => None,
                }
            }
        },
        _ => None,
    }
}

/// A tool use is done, with the input that its text stands for.
pub fn close_tool(
    stream: &mut ResponsesStreamState,
    b: StreamToolBlock,
    input: Option<Json>,
    state: &State,
    now: u64,
) -> (r: Result<Vec<Streamed>, ()>)
    ensures
        follows(
            tool_closed(
                old(stream)@,
                b@,
                match input {
                    Some(j) => Some(j@),
                    None => None,
                },
                state@,
                now,
            ),
            old(stream)@,
            final(stream)@,
            r,
        ),
{
    let ghost s = stream@;
    let input = match input {
        Some(input) => input,
        None => return Err(()),
    };
    let fields = match &input {
        Json::Object(fields) => fields,
        _ => return Err(()),
    };
    let declared = match state.get(b.upstream_name.as_str()) {
        Some(declared) => declared,
        None => return Err(()),
    };
    match declared {
        DeclaredOf::Wrapped(w) => match validate_wrapped_response_input(w, fields) {
            Ok(_) => {},
            Err(_) => return Err(()),
        },
        DeclaredOf::Function => {},
    }
    let message_id = match &stream.message_id {
        Some(id) => owned(id.as_str()),
        None => return Err(()),
    };
    let value = match response_tool_output(
        message_id.as_str(),
        b.index,
        "in_progress",
        b.call_id.as_str(),
        b.upstream_name.as_str(),
        &input,
        state,
    ) {
        Ok(value) => value,
        Err(_) => return Err(()),
    };
    let item = match stream_item(&value) {
        Ok(item) => item,
        Err(_) => return Err(()),
    };
    match stream.retain_output(item.copy()) {
        Ok(_) => {},
        Err(_) => return Err(()),
    }
    let mut events: Vec<Streamed> = Vec::new();
    match declared {
        DeclaredOf::Function => {
            let n: u64 = match take_numbers(stream, 1) {
                Ok(n) => n,
                Err(_) => return Err(()),
            };
            let arguments = if blank(b.json.as_str()) {
                "{}"
            } else {
                b.json.as_str()
            };
            events.push(
                tell_call(
                    "response.function_call_arguments.done",
                    n,
                    b.item_id.as_str(),
                    b.output_index,
                    Some(b.upstream_name.as_str()),
                    "arguments",
                    arguments,
                ),
            );
        },
        DeclaredOf::Wrapped(w) => match w.kind {
            WrappedKind::NamespaceFunction => {
                stream.mark_visible(now);
                let n: u64 = match take_numbers(stream, 2) {
                    Ok(n) => n,
                    Err(_) => return Err(()),
                };
                let arguments = match fields.get("arguments") {
                    Some(v) => v.render(),
                    None => Json::Null.render(),
                };
                events.push(
                    tell_call(
                        "response.function_call_arguments.delta",
                        n,
                        b.item_id.as_str(),
                        b.output_index,
                        None,
                        "delta",
                        arguments.as_str(),
                    ),
                );
                events.push(
                    tell_call(
                        "response.function_call_arguments.done",
                        n + 1,
                        b.item_id.as_str(),
                        b.output_index,
                        Some(w.name.as_str()),
                        "arguments",
                        arguments.as_str(),
                    ),
                );
            },
            WrappedKind::NamespaceCustom | WrappedKind::Custom => {
                let text = match fields.text("input") {
                    Some(text) => owned(text),
                    None => return Err(()),
                };
                if !blank(text.as_str()) {
                    stream.mark_visible(now);
                }
                let n: u64 = match take_numbers(stream, 2) {
                    Ok(n) => n,
                    Err(_) => return Err(()),
                };
                events.push(
                    tell_call(
                        "response.custom_tool_call_input.delta",
                        n,
                        b.item_id.as_str(),
                        b.output_index,
                        None,
                        "delta",
                        text.as_str(),
                    ),
                );
                events.push(
                    tell_call(
                        "response.custom_tool_call_input.done",
                        n + 1,
                        b.item_id.as_str(),
                        b.output_index,
                        None,
                        "input",
                        text.as_str(),
                    ),
                );
            },
            _ => {
                stream.mark_visible(now);
                let n: u64 = match take_numbers(stream, 1) {
                    Ok(n) => n,
                    Err(_) => return Err(()),
                };
                events.push(tell_item("response.output_item.added", n, b.output_index, &item));
            },
        },
    }
    assert(streamed_views(events@) == call_finished(
        b@,
        declared@,
        input@,
        item@,
        s.sequence_number,
    ));
    Ok(events)
}

/// A block is done. A tool use's input is what its text stands for as JSON.
pub open spec fn block_stopped(s: StreamView, index: usize, tools: Table, now: u64) -> Step {
    let taken = StreamOf { active_block: None, ..s };
    match s.active_block {
        Some(StreamBlockOf::DroppedThinking { index: i, signature_seen }) => if i == index
            && signature_seen {
            Some((taken, Seq::empty()))
        } else {
            None
        },
        Some(StreamBlockOf::DroppedRedactedThinking { index: i }) => if i == index {
            Some((taken, Seq::empty()))
        } else {
            None
        },
        Some(StreamBlockOf::Text(b)) => if b.index == index {
            text_closed(taken, b)
        } else {
            None
        },
        Some(StreamBlockOf::Tool(b)) => if b.index == index {
            tool_closed(taken, b, parsed(encode_utf8(input_text(b))), tools, now)
        } else {
            None
        },
        None => None,
    }
}

/// A block is done.
pub fn content_block_stop(
    stream: &mut ResponsesStreamState,
    index: usize,
    state: &State,
    now: u64,
) -> (r: Result<Vec<Streamed>, ()>)
    ensures
        follows(
            block_stopped(old(stream)@, index, state@, now),
            old(stream)@,
            final(stream)@,
            r,
        ),
{
    match stream.active_block.take() {
        Some(StreamBlockOf::DroppedThinking { index: i, signature_seen }) => {
            if i != index || !signature_seen {
                return Err(());
            }
            let events: Vec<Streamed> = Vec::new();
            assert(streamed_views(events@) == Seq::<StreamedView>::empty());
            Ok(events)
        },
        Some(StreamBlockOf::DroppedRedactedThinking { index: i }) => {
            if i != index {
                return Err(());
            }
            let events: Vec<Streamed> = Vec::new();
            assert(streamed_views(events@) == Seq::<StreamedView>::empty());
            Ok(events)
        },
        Some(StreamBlockOf::Text(b)) => {
            if b.index != index {
                return Err(());
            }
            close_text(stream, b)
        },
        Some(StreamBlockOf::Tool(b)) => {
            if b.index != index {
                return Err(());
            }
            let raw = if blank(b.json.as_str()) {
                "{}"
            } else {
                b.json.as_str()
            };
            let input = Json::parse(raw.as_bytes());
            close_tool(stream, b, input, state, now)
        },
        None => Err(()),
    }
}

} // verus!
