//! Reading the answers of the Messages API, whole or streamed, from JSON.
use vstd::prelude::*;

use crate::items::{maybe_text, unless_null};
use crate::json::{field, only, text_field, view_in, Fields, Json, JsonView, Object};
use crate::messages::{MessageDeltaUsage, OutputTokensDetails, Role, StopReason, Usage, UsageOf};
use crate::text::{owned, same, text_in};

verus! {

broadcast use crate::json::lemma_array_view;

/// A block of an answer.
#[derive(Debug)]
pub enum BlockOf<S, J> {
    Text {
        text: S,
        /// Whether citations or cache marks are given.
        marked: bool,
    },
    ToolUse {
        id: S,
        name: S,
        input: J,
        caller: Option<J>,
        /// Whether cache marks are given.
        marked: bool,
    },
    Thinking,
    RedactedThinking,
}

pub type Block = BlockOf<String, Json>;

pub type BlockView = BlockOf<Seq<char>, JsonView>;

impl View for BlockOf<String, Json> {
    type V = BlockOf<Seq<char>, JsonView>;

    open spec fn view(&self) -> BlockView {
        match self {
            BlockOf::Text { text, marked } => BlockOf::Text { text: text@, marked: *marked },
            BlockOf::ToolUse { id, name, input, caller, marked } => BlockOf::ToolUse {
                id: id@,
                name: name@,
                input: input@,
                caller: match caller {
                    Some(c) => Some(c@),
                    None => None,
                },
                marked: *marked,
            },
            BlockOf::Thinking => BlockOf::Thinking,
            BlockOf::RedactedThinking => BlockOf::RedactedThinking,
        }
    }
}

/// Whether a field is there and not null.
pub open spec fn given(fields: Fields, name: Seq<char>) -> bool {
    unless_null(field(fields, name)) is Some
}

fn is_given(o: &Object, name: &str) -> (r: bool)
    ensures
        r == given(o@, name@),
{
    match o.get(name) {
        None | Some(Json::Null) => false,
        _ => true,
    }
}

/// The block that a JSON value stands for, where it is one.
pub open spec fn block_of(v: JsonView) -> Option<BlockView> {
    match v {
        JsonView::Object(fields) => {
            let kind = text_field(fields, "type"@);
            if kind == Some("text"@) {
                match text_field(fields, "text"@) {
                    Some(text) => Some(
                        BlockOf::Text {
                            text,
                            marked: given(fields, "citations"@) || given(fields, "cache_control"@),
                        },
                    ),
                    None => None,
                }
            } else if kind == Some("tool_use"@) {
                match (
                    text_field(fields, "id"@),
                    text_field(fields, "name"@),
                    field(fields, "input"@),
                ) {
                    (Some(id), Some(name), Some(input)) => Some(
                        BlockOf::ToolUse {
                            id,
                            name,
                            input,
                            caller: unless_null(field(fields, "caller"@)),
                            marked: given(fields, "cache_control"@),
                        },
                    ),
                    _ => None,
                }
            } else if kind == Some("thinking"@) {
                if text_field(fields, "thinking"@) is Some && text_field(fields, "signature"@)
                    is Some {
                    Some(BlockOf::Thinking)
                } else {
                    None
                }
            } else if kind == Some("redacted_thinking"@) {
                if text_field(fields, "data"@) is Some {
                    Some(BlockOf::RedactedThinking)
                } else {
                    None
                }
            } else {
                None
            }
        },
        _ => None,
    }
}

/// The block that a JSON value stands for.
pub fn read_block(v: &Json) -> (r: Option<Block>)
    ensures
        (match r {
            Some(b) => Some(b@),
            None => None,
        }) == block_of(v@),
{
    let o = match v {
        Json::Object(o) => o,
        _ => return None,
    };
    let kind = match o.text("type") {
        Some(kind) => kind,
        None => return None,
    };
    if same(kind, "text") {
        match o.text("text") {
            Some(text) => Some(
                BlockOf::Text {
                    text: owned(text),
                    marked: is_given(o, "citations") || is_given(o, "cache_control"),
                },
            ),
            None => None,
        }
    } else if same(kind, "tool_use") {
        match (o.text("id"), o.text("name"), o.get("input")) {
            (Some(id), Some(name), Some(input)) => {
                let caller = match o.get("caller") {
                    None | Some(Json::Null) => None,
                    Some(c) => Some(c.copy()),
                };
                Some(
                    BlockOf::ToolUse {
                        id: owned(id),
                        name: owned(name),
                        input: input.copy(),
                        caller,
                        marked: is_given(o, "cache_control"),
                    },
                )
            },
            _ => None,
        }
    } else if same(kind, "thinking") {
        if o.text("thinking").is_some() && o.text("signature").is_some() {
            Some(BlockOf::Thinking)
        } else {
            None
        }
    } else if same(kind, "redacted_thinking") {
        if o.text("data").is_some() {
            Some(BlockOf::RedactedThinking)
        } else {
            None
        }
    } else {
        None
    }
}

/// The stop reason of a name.
pub open spec fn stop_reason_named(name: Seq<char>) -> Option<StopReason> {
    if name == "end_turn"@ {
        Some(StopReason::EndTurn)
    } else if name == "max_tokens"@ {
        Some(StopReason::MaxTokens)
    } else if name == "stop_sequence"@ {
        Some(StopReason::StopSequence)
    } else if name == "tool_use"@ {
        Some(StopReason::ToolUse)
    } else if name == "pause_turn"@ {
        Some(StopReason::PauseTurn)
    } else if name == "refusal"@ {
        Some(StopReason::Refusal)
    } else if name == "model_context_window_exceeded"@ {
        Some(StopReason::ModelContextWindowExceeded)
    } else {
        None
    }
}

/// The stop reason of a name.
pub fn parse_stop_reason(name: &str) -> (r: Option<StopReason>)
    ensures
        r == stop_reason_named(name@),
{
    if same(name, "end_turn") {
        Some(StopReason::EndTurn)
    } else if same(name, "max_tokens") {
        Some(StopReason::MaxTokens)
    } else if same(name, "stop_sequence") {
        Some(StopReason::StopSequence)
    } else if same(name, "tool_use") {
        Some(StopReason::ToolUse)
    } else if same(name, "pause_turn") {
        Some(StopReason::PauseTurn)
    } else if same(name, "refusal") {
        Some(StopReason::Refusal)
    } else if same(name, "model_context_window_exceeded") {
        Some(StopReason::ModelContextWindowExceeded)
    } else {
        None
    }
}

/// A stop reason that may be absent or null. None where it is neither that nor a stop reason.
pub open spec fn maybe_stop_reason(fields: Fields) -> Option<Option<StopReason>> {
    match maybe_text(fields, "stop_reason"@) {
        Some(Some(name)) => match stop_reason_named(name) {
            Some(reason) => Some(Some(reason)),
            None => None,
        },
        Some(None) => Some(None),
        None => None,
    }
}

fn read_maybe_stop_reason(o: &Object) -> (r: Option<Option<StopReason>>)
    ensures
        r == maybe_stop_reason(o@),
{
    match o.get("stop_reason") {
        None | Some(Json::Null) => Some(None),
        Some(Json::Text(name)) => match parse_stop_reason(name.as_str()) {
            Some(reason) => Some(Some(reason)),
            None => None,
        },
        _ => None,
    }
}

fn read_maybe_text(o: &Object, name: &str) -> (r: Option<Option<String>>)
    ensures
        (match r {
            Some(s) => Some(text_in(s)),
            None => None,
        }) == maybe_text(o@, name@),
{
    match o.get(name) {
        None | Some(Json::Null) => Some(None),
        Some(Json::Text(s)) => Some(Some(owned(s.as_str()))),
        _ => None,
    }
}

/// The count that a value stands for.
pub open spec fn count_of(v: Option<JsonView>) -> Option<usize> {
    match v {
        Some(JsonView::Unsigned(n)) => if n <= usize::MAX {
            Some(n as usize)
        } else {
            None
        },
        _ => None,
    }
}

fn fits(n: u64) -> (r: Option<usize>)
    ensures
        r == (if n <= usize::MAX {
            Some(n as usize)
        } else {
            None
        }),
{
    if n <= usize::MAX as u64 {
        Some(n as usize)
    } else {
        None
    }
}

fn read_count(v: Option<&Json>) -> (r: Option<usize>)
    ensures
        r == count_of(view_in(v)),
{
    match v {
        Some(Json::Unsigned(n)) => fits(*n),
        Some(Json::Negative(n)) => if *n >= 0 {
            fits(*n as u64)
        } else {
            None
        },
        _ => None,
    }
}

/// A count that may be absent or null. None where it is neither that nor a count.
pub open spec fn maybe_count(fields: Fields, name: Seq<char>) -> Option<Option<usize>> {
    match unless_null(field(fields, name)) {
        None => Some(None),
        v => match count_of(v) {
            Some(n) => Some(Some(n)),
            None => None,
        },
    }
}

fn read_maybe_count(o: &Object, name: &str) -> (r: Option<Option<usize>>)
    ensures
        r == maybe_count(o@, name@),
{
    match o.get(name) {
        None | Some(Json::Null) => Some(None),
        v => match read_count(v) {
            Some(n) => Some(Some(n)),
            None => None,
        },
    }
}

/// How the output tokens divide, where that is told. None where it is told in no object or with
/// no count.
pub open spec fn maybe_details(fields: Fields) -> Option<Option<OutputTokensDetails>> {
    match unless_null(field(fields, "output_tokens_details"@)) {
        None => Some(None),
        Some(JsonView::Object(details)) => match maybe_count(details, "thinking_tokens"@) {
            Some(thinking_tokens) => Some(
                Some(
                    OutputTokensDetails {
                        thinking_tokens,
                        extra: !only(details, seq!["thinking_tokens"]),
                    },
                ),
            ),
            None => None,
        },
        _ => None,
    }
}

fn read_maybe_details(o: &Object) -> (r: Option<Option<OutputTokensDetails>>)
    ensures
        r == maybe_details(o@),
{
    match o.get("output_tokens_details") {
        None | Some(Json::Null) => Some(None),
        Some(Json::Object(details)) => match read_maybe_count(details, "thinking_tokens") {
            Some(thinking_tokens) => {
                let known = ["thinking_tokens"];
                let extra = details.has_unknown_field(&known);
                assert(known@ == seq!["thinking_tokens"]);
                Some(Some(OutputTokensDetails { thinking_tokens, extra }))
            },
            None => None,
        },
        _ => None,
    }
}

/// The tokens that an answer took, where they are told.
pub open spec fn usage_of(v: Option<JsonView>) -> Option<UsageOf<Seq<char>>> {
    match v {
        Some(JsonView::Object(fields)) => {
            let input = count_of(field(fields, "input_tokens"@));
            let output = count_of(field(fields, "output_tokens"@));
            let creation = maybe_count(fields, "cache_creation_input_tokens"@);
            let read = maybe_count(fields, "cache_read_input_tokens"@);
            let tier = maybe_text(fields, "service_tier"@);
            let details = maybe_details(fields);
            if input is Some && output is Some && creation is Some && read is Some && tier is Some
                && details is Some {
                Some(
                    UsageOf {
                        input_tokens: input->0,
                        output_tokens: output->0,
                        cache_creation_input_tokens: creation->0,
                        cache_read_input_tokens: read->0,
                        service_tier: tier->0,
                        output_tokens_details: details->0,
                    },
                )
            } else {
                None
            }
        },
        _ => None,
    }
}

/// The tokens that an answer took.
pub fn read_usage(v: Option<&Json>) -> (r: Option<Usage>)
    ensures
        (match r {
            Some(u) => Some(u@),
            None => None,
        }) == usage_of(view_in(v)),
{
    match v {
        Some(Json::Object(o)) => match (
            read_count(o.get("input_tokens")),
            read_count(o.get("output_tokens")),
            read_maybe_count(o, "cache_creation_input_tokens"),
            read_maybe_count(o, "cache_read_input_tokens"),
            read_maybe_text(o, "service_tier"),
            read_maybe_details(o),
        ) {
            (
                Some(input_tokens),
                Some(output_tokens),
                Some(creation),
                Some(read),
                Some(service_tier),
                Some(details),
            ) => Some(
                UsageOf {
                    input_tokens,
                    output_tokens,
                    cache_creation_input_tokens: creation,
                    cache_read_input_tokens: read,
                    service_tier,
                    output_tokens_details: details,
                },
            ),
            _ => None,
        },
        _ => None,
    }
}

/// The tokens counted at the end of a stream, where they are told.
pub open spec fn delta_usage_of(v: Option<JsonView>) -> Option<MessageDeltaUsage> {
    match v {
        Some(JsonView::Object(fields)) => {
            let input = maybe_count(fields, "input_tokens"@);
            let output = maybe_count(fields, "output_tokens"@);
            let creation = maybe_count(fields, "cache_creation_input_tokens"@);
            let read = maybe_count(fields, "cache_read_input_tokens"@);
            let details = maybe_details(fields);
            if input is Some && output is Some && creation is Some && read is Some && details
                is Some {
                Some(
                    MessageDeltaUsage {
                        input_tokens: input->0,
                        output_tokens: output->0,
                        cache_creation_input_tokens: creation->0,
                        cache_read_input_tokens: read->0,
                        output_tokens_details: details->0,
                    },
                )
            } else {
                None
            }
        },
        _ => None,
    }
}

fn read_delta_usage(v: Option<&Json>) -> (r: Option<MessageDeltaUsage>)
    ensures
        r == delta_usage_of(view_in(v)),
{
    match v {
        Some(Json::Object(o)) => match (
            read_maybe_count(o, "input_tokens"),
            read_maybe_count(o, "output_tokens"),
            read_maybe_count(o, "cache_creation_input_tokens"),
            read_maybe_count(o, "cache_read_input_tokens"),
            read_maybe_details(o),
        ) {
            (
                Some(input_tokens),
                Some(output_tokens),
                Some(creation),
                Some(read),
                Some(details),
            ) => Some(
                MessageDeltaUsage {
                    input_tokens,
                    output_tokens,
                    cache_creation_input_tokens: creation,
                    cache_read_input_tokens: read,
                    output_tokens_details: details,
                },
            ),
            _ => None,
        },
        _ => None,
    }
}

/// What a stream adds to the block that is open.
#[derive(Debug)]
pub enum DeltaOf<S> {
    Text(S),
    InputJson(S),
    Thinking,
    Signature(S),
}

/// How a streamed answer begins.
#[derive(Debug)]
pub struct StartOf<S> {
    pub id: S,
    pub kind: S,
    pub role: Role,
    pub model: S,
    /// Whether the answer begins without content.
    pub bare: bool,
    pub stop_reason: Option<StopReason>,
    pub stop_sequence: Option<S>,
    pub usage: UsageOf<S>,
}

/// An event of a streamed answer.
#[derive(Debug)]
pub enum EventOf<S, J> {
    MessageStart(StartOf<S>),
    ContentBlockStart { index: usize, block: BlockOf<S, J> },
    ContentBlockDelta { index: usize, delta: DeltaOf<S> },
    ContentBlockStop { index: usize },
    MessageDelta {
        stop_reason: Option<StopReason>,
        stop_sequence: Option<S>,
        usage: MessageDeltaUsage,
    },
    MessageStop,
    Ping,
}

pub type Delta = DeltaOf<String>;

pub type MessageStart = StartOf<String>;

pub type MessagesStreamEvent = EventOf<String, Json>;

pub type EventView = EventOf<Seq<char>, JsonView>;

impl View for DeltaOf<String> {
    type V = DeltaOf<Seq<char>>;

    open spec fn view(&self) -> DeltaOf<Seq<char>> {
        match self {
            DeltaOf::Text(s) => DeltaOf::Text(s@),
            DeltaOf::InputJson(s) => DeltaOf::InputJson(s@),
            DeltaOf::Thinking => DeltaOf::Thinking,
            DeltaOf::Signature(s) => DeltaOf::Signature(s@),
        }
    }
}

impl View for StartOf<String> {
    type V = StartOf<Seq<char>>;

    open spec fn view(&self) -> StartOf<Seq<char>> {
        StartOf {
            id: self.id@,
            kind: self.kind@,
            role: self.role,
            model: self.model@,
            bare: self.bare,
            stop_reason: self.stop_reason,
            stop_sequence: text_in(self.stop_sequence),
            usage: self.usage@,
        }
    }
}

impl View for EventOf<String, Json> {
    type V = EventOf<Seq<char>, JsonView>;

    open spec fn view(&self) -> EventView {
        match self {
            EventOf::MessageStart(m) => EventOf::MessageStart(m@),
            EventOf::ContentBlockStart { index, block } => EventOf::ContentBlockStart {
                index: *index,
                block: block@,
            },
            EventOf::ContentBlockDelta { index, delta } => EventOf::ContentBlockDelta {
                index: *index,
                delta: delta@,
            },
            EventOf::ContentBlockStop { index } => EventOf::ContentBlockStop { index: *index },
            EventOf::MessageDelta { stop_reason, stop_sequence, usage } => EventOf::MessageDelta {
                stop_reason: *stop_reason,
                stop_sequence: text_in(*stop_sequence),
                usage: *usage,
            },
            EventOf::MessageStop => EventOf::MessageStop,
            EventOf::Ping => EventOf::Ping,
        }
    }
}

/// The name of an event.
pub open spec fn event_name_of(e: EventView) -> Seq<char> {
    match e {
        EventOf::MessageStart(_) => "message_start"@,
        EventOf::ContentBlockStart { .. } => "content_block_start"@,
        EventOf::ContentBlockDelta { .. } => "content_block_delta"@,
        EventOf::ContentBlockStop { .. } => "content_block_stop"@,
        EventOf::MessageDelta { .. } => "message_delta"@,
        EventOf::MessageStop => "message_stop"@,
        EventOf::Ping => "ping"@,
    }
}

impl EventOf<String, Json> {
    /// The name of the event.
    pub fn event_name(&self) -> (r: &'static str)
        ensures
            r@ == event_name_of(self@),
    {
        match self {
            EventOf::MessageStart(_) => "message_start",
            EventOf::ContentBlockStart { .. } => "content_block_start",
            EventOf::ContentBlockDelta { .. } => "content_block_delta",
            EventOf::ContentBlockStop { .. } => "content_block_stop",
            EventOf::MessageDelta { .. } => "message_delta",
            EventOf::MessageStop => "message_stop",
            EventOf::Ping => "ping",
        }
    }
}

/// The role of a name.
pub open spec fn role_named(name: Seq<char>) -> Option<Role> {
    if name == "user"@ {
        Some(Role::User)
    } else if name == "assistant"@ {
        Some(Role::Assistant)
    } else if name == "system"@ {
        Some(Role::System)
    } else {
        None
    }
}

fn parse_role(name: &str) -> (r: Option<Role>)
    ensures
        r == role_named(name@),
{
    if same(name, "user") {
        Some(Role::User)
    } else if same(name, "assistant") {
        Some(Role::Assistant)
    } else if same(name, "system") {
        Some(Role::System)
    } else {
        None
    }
}

/// How a streamed answer begins, where that is told.
pub open spec fn start_of(v: Option<JsonView>) -> Option<StartOf<Seq<char>>> {
    match v {
        Some(JsonView::Object(fields)) => {
            let id = text_field(fields, "id"@);
            let kind = text_field(fields, "type"@);
            let role = match text_field(fields, "role"@) {
                Some(name) => role_named(name),
                None => None,
            };
            let model = text_field(fields, "model"@);
            let stop_reason = maybe_stop_reason(fields);
            let stop_sequence = maybe_text(fields, "stop_sequence"@);
            let usage = usage_of(field(fields, "usage"@));
            match field(fields, "content"@) {
                Some(JsonView::Array(blocks)) => if id is Some && kind is Some && role is Some
                    && model is Some && stop_reason is Some && stop_sequence is Some && usage
                    is Some {
                    Some(
                        StartOf {
                            id: id->0,
                            kind: kind->0,
                            role: role->0,
                            model: model->0,
                            bare: blocks.len() == 0,
                            stop_reason: stop_reason->0,
                            stop_sequence: stop_sequence->0,
                            usage: usage->0,
                        },
                    )
                } else {
                    None
                },
                _ => None,
            }
        },
        _ => None,
    }
}

fn read_start(v: Option<&Json>) -> (r: Option<MessageStart>)
    ensures
        (match r {
            Some(m) => Some(m@),
            None => None,
        }) == start_of(view_in(v)),
{
    let o = match v {
        Some(Json::Object(o)) => o,
        _ => return None,
    };
    let bare = match o.get("content") {
        Some(Json::Array(blocks)) => blocks.len() == 0,
        _ => return None,
    };
    let role = match o.text("role") {
        Some(name) => parse_role(name),
        None => None,
    };
    match (
        o.text("id"),
        o.text("type"),
        role,
        o.text("model"),
        read_maybe_stop_reason(o),
        read_maybe_text(o, "stop_sequence"),
        read_usage(o.get("usage")),
    ) {
        (
            Some(id),
            Some(kind),
            Some(role),
            Some(model),
            Some(stop_reason),
            Some(stop_sequence),
            Some(usage),
        ) => Some(
            StartOf {
                id: owned(id),
                kind: owned(kind),
                role,
                model: owned(model),
                bare,
                stop_reason,
                stop_sequence,
                usage,
            },
        ),
        _ => None,
    }
}

/// What a stream adds to the block that is open, where that is told.
pub open spec fn delta_of(v: Option<JsonView>) -> Option<DeltaOf<Seq<char>>> {
    match v {
        Some(JsonView::Object(fields)) => {
            let kind = text_field(fields, "type"@);
            if kind == Some("text_delta"@) {
                match text_field(fields, "text"@) {
                    Some(text) => Some(DeltaOf::Text(text)),
                    None => None,
                }
            } else if kind == Some("input_json_delta"@) {
                match text_field(fields, "partial_json"@) {
                    Some(json) => Some(DeltaOf::InputJson(json)),
                    None => None,
                }
            } else if kind == Some("thinking_delta"@) {
                match text_field(fields, "thinking"@) {
                    Some(_) => Some(DeltaOf::Thinking),
                    None => None,
                }
            } else if kind == Some("signature_delta"@) {
                match text_field(fields, "signature"@) {
                    Some(signature) => Some(DeltaOf::Signature(signature)),
                    None => None,
                }
            } else {
                None
            }
        },
        _ => None,
    }
}

fn read_delta(v: Option<&Json>) -> (r: Option<Delta>)
    ensures
        (match r {
            Some(d) => Some(d@),
            None => None,
        }) == delta_of(view_in(v)),
{
    let o = match v {
        Some(Json::Object(o)) => o,
        _ => return None,
    };
    let kind = match o.text("type") {
        Some(kind) => kind,
        None => return None,
    };
    if same(kind, "text_delta") {
        match o.text("text") {
            Some(text) => Some(DeltaOf::Text(owned(text))),
            None => None,
        }
    } else if same(kind, "input_json_delta") {
        match o.text("partial_json") {
            Some(json) => Some(DeltaOf::InputJson(owned(json))),
            None => None,
        }
    } else if same(kind, "thinking_delta") {
        match o.text("thinking") {
            Some(_) => Some(DeltaOf::Thinking),
            None => None,
        }
    } else if same(kind, "signature_delta") {
        match o.text("signature") {
            Some(signature) => Some(DeltaOf::Signature(owned(signature))),
            None => None,
        }
    } else {
        None
    }
}

/// The event that a JSON value stands for, where it is one.
pub open spec fn event_of(v: JsonView) -> Option<EventView> {
    let kind = v.text_at("type"@);
    let index = count_of(v.get("index"@));
    if kind == Some("message_start"@) {
        match start_of(v.get("message"@)) {
            Some(start) => Some(EventOf::MessageStart(start)),
            None => None,
        }
    } else if kind == Some("content_block_start"@) {
        match (index, v.get("content_block"@)) {
            (Some(index), Some(block)) => match block_of(block) {
                Some(block) => Some(EventOf::ContentBlockStart { index, block }),
                None => None,
            },
            _ => None,
        }
    } else if kind == Some("content_block_delta"@) {
        match (index, delta_of(v.get("delta"@))) {
            (Some(index), Some(delta)) => Some(EventOf::ContentBlockDelta { index, delta }),
            _ => None,
        }
    } else if kind == Some("content_block_stop"@) {
        match index {
            Some(index) => Some(EventOf::ContentBlockStop { index }),
            None => None,
        }
    } else if kind == Some("message_delta"@) {
        match (v.get("delta"@), delta_usage_of(v.get("usage"@))) {
            (Some(JsonView::Object(delta)), Some(usage)) => match (
                maybe_stop_reason(delta),
                maybe_text(delta, "stop_sequence"@),
            ) {
                (Some(stop_reason), Some(stop_sequence)) => Some(
                    EventOf::MessageDelta { stop_reason, stop_sequence, usage },
                ),
                _ => None,
            },
            _ => None,
        }
    } else if kind == Some("message_stop"@) {
        Some(EventOf::MessageStop)
    } else if kind == Some("ping"@) {
        Some(EventOf::Ping)
    } else {
        None
    }
}

/// The event that a JSON value stands for.
pub fn read_event(v: &Json) -> (r: Option<MessagesStreamEvent>)
    ensures
        (match r {
            Some(e) => Some(e@),
            None => None,
        }) == event_of(v@),
{
    let kind = match v.text_at("type") {
        Some(kind) => kind,
        None => return None,
    };
    let index = read_count(v.get("index"));
    if same(kind, "message_start") {
        match read_start(v.get("message")) {
            Some(start) => Some(EventOf::MessageStart(start)),
            None => None,
        }
    } else if same(kind, "content_block_start") {
        match (index, v.get("content_block")) {
            (Some(index), Some(block)) => match read_block(block) {
                Some(block) => Some(EventOf::ContentBlockStart { index, block }),
                None => None,
            },
            _ => None,
        }
    } else if same(kind, "content_block_delta") {
        match (index, read_delta(v.get("delta"))) {
            (Some(index), Some(delta)) => Some(EventOf::ContentBlockDelta { index, delta }),
            _ => None,
        }
    } else if same(kind, "content_block_stop") {
        match index {
            Some(index) => Some(EventOf::ContentBlockStop { index }),
            None => None,
        }
    } else if same(kind, "message_delta") {
        match (v.get("delta"), read_delta_usage(v.get("usage"))) {
            (Some(Json::Object(delta)), Some(usage)) => match (
                read_maybe_stop_reason(delta),
                read_maybe_text(delta, "stop_sequence"),
            ) {
                (Some(stop_reason), Some(stop_sequence)) => Some(
                    EventOf::MessageDelta { stop_reason, stop_sequence, usage },
                ),
                _ => None,
            },
            _ => None,
        }
    } else if same(kind, "message_stop") {
        Some(EventOf::MessageStop)
    } else if same(kind, "ping") {
        Some(EventOf::Ping)
    } else {
        None
    }
}

} // verus!
