//! Converting a whole answer.
use vstd::prelude::*;

use crate::calls::{
    direct, direct_tool_caller, item_id, item_id_of, response_tool_output, tool_item,
    validate_wrapped_response_input, wrapped_ok,
};
use crate::codec::parsed;
use crate::decode::{
    block_of, parse_stop_reason, read_block, read_usage, stop_reason_named, usage_of, Block,
    BlockOf, BlockView,
};
use crate::envelope::{nanos_at, read_clock, NANOS_PER_SECOND};
use crate::error::{invalid, invalid_response, AIError, Malformed};
use crate::items::{item_of, stream_item};
use crate::json::{field, only, text_field, views, Fields, Json, JsonView, Object};
use crate::messages::{StopReason, UsageOf};
use crate::responses::{item_views, response_json, ItemView, OutputItem, PartOf, ResponseOf, Status};
use crate::stream_state::{json_len, json_size};
use crate::text::{blank, holds, join, owned, same, texts};
use crate::tools::{tool_named, DeclaredOf, State, Table};
use crate::usage::{
    ending, message_phase, phase_of, public_service_tier, responses_usage, terminal_status, tier_in,
    told, Ending, MessagePhase,
};

verus! {

broadcast use crate::json::lemma_array_view;

/// Whether a field holds a string that is not empty.
pub open spec fn nonempty(fields: Fields, name: Seq<char>) -> bool {
    match text_field(fields, name) {
        Some(s) => s.len() > 0,
        None => false,
    }
}

/// Whether a field holds a string that is not empty.
pub fn required_response_string(object: &Object, name: &str) -> (r: bool)
    ensures
        r == nonempty(object@, name@),
{
    match object.text(name) {
        Some(s) => !blank(s),
        None => false,
    }
}

/// Whether a tool use tells an id, a name and where it comes from as it must.
pub open spec fn tool_use_told(block: Fields) -> bool {
    &&& only(block, seq!["type", "id", "name", "input", "caller"])
    &&& nonempty(block, "id"@)
    &&& nonempty(block, "name"@)
    &&& direct(field(block, "caller"@))
}

/// Whether a tool use names a declared tool, comes from the model itself and has input that goes
/// with the tool.
pub open spec fn tool_use_ok(block: Fields, tools: Table) -> bool {
    &&& tool_use_told(block)
    &&& match field(block, "input"@) {
        Some(JsonView::Object(input)) => match tool_named(tools, text_field(block, "name"@)->0) {
            Some(DeclaredOf::Function) => true,
            Some(DeclaredOf::Wrapped(w)) => wrapped_ok(w.kind, input),
            None => false,
        },
        _ => false,
    }
}

/// The ids of tool uses, with the one of a block that tells an id that was not there.
pub open spec fn id_noted(ids: Seq<Seq<char>>, block: Fields) -> Seq<Seq<char>> {
    let id = text_field(block, "id"@)->0;
    if tool_use_told(block) && !ids.contains(id) {
        ids.push(id)
    } else {
        ids
    }
}

/// Checks a tool use, whose id may not occur twice. The id is taken note of before the tool and
/// its input are looked at, and so where these do not do, too.
pub fn validate_response_tool(
    block: &Object,
    state: &State,
    tool_ids: &mut Vec<String>,
) -> (r: Result<(), AIError>)
    ensures
        texts(final(tool_ids)@) == id_noted(texts(old(tool_ids)@), block@),
        r == (if tool_use_ok(block@, state@) && !texts(old(tool_ids)@).contains(
            text_field(block@, "id"@)->0,
        ) {
            Ok::<(), AIError>(())
        } else {
            Err(invalid())
        }),
{
    if block.has_unknown_field(&["type", "id", "name", "input", "caller"])
        || !required_response_string(block, "id") || !required_response_string(block, "name")
        || !direct_tool_caller(block.get("caller")) {
        return Err(invalid_response());
    }
    let (id, name) = match (block.text("id"), block.text("name")) {
        (Some(id), Some(name)) => (id, name),
        _ => return Err(invalid_response()),
    };
    if holds(tool_ids, id) {
        return Err(invalid_response());
    }
    let ghost before = tool_ids@;
    tool_ids.push(owned(id));
    assert(texts(tool_ids@) == texts(before).push(id@));
    let input = match block.get("input") {
        Some(Json::Object(input)) => input,
        _ => return Err(invalid_response()),
    };
    match state.get(name) {
        None => Err(invalid_response()),
        Some(DeclaredOf::Function) => Ok(()),
        Some(DeclaredOf::Wrapped(wrapped)) => match validate_wrapped_response_input(
            wrapped,
            input,
        ) {
            Ok(_) => Ok(()),
            Err(_) => Err(invalid_response()),
        },
    }
}

/// Whether a value is a tool use.
pub open spec fn is_tool_use(v: JsonView) -> bool {
    v.text_at("type"@) == Some("tool_use"@)
}

/// Whether a block has a known kind and what that kind has, and nothing else.
pub open spec fn block_ok(v: JsonView, tools: Table) -> bool {
    match v {
        JsonView::Object(block) => {
            let kind = text_field(block, "type"@);
            if kind == Some("text"@) {
                only(block, seq!["type", "text"]) && text_field(block, "text"@) is Some
            } else if kind == Some("thinking"@) {
                only(block, seq!["type", "thinking", "signature"])
            } else if kind == Some("redacted_thinking"@) {
                only(block, seq!["type", "data"])
            } else if kind == Some("tool_use"@) {
                tool_use_ok(block, tools)
            } else {
                false
            }
        },
        _ => false,
    }
}

/// The ids of the tool uses among blocks, in order.
pub open spec fn tool_ids_of(blocks: Seq<JsonView>) -> Seq<Seq<char>>
    decreases blocks.len(),
{
    if blocks.len() == 0 {
        Seq::empty()
    } else if is_tool_use(blocks.last()) {
        tool_ids_of(blocks.drop_last()).push(blocks.last().text_at("id"@)->0)
    } else {
        tool_ids_of(blocks.drop_last())
    }
}

/// Whether every block is in order and no id of a tool use occurs twice.
pub open spec fn blocks_ok(blocks: Seq<JsonView>, tools: Table) -> bool {
    &&& forall|i: int| 0 <= i < blocks.len() ==> block_ok(#[trigger] blocks[i], tools)
    &&& tool_ids_of(blocks).no_duplicates()
}

proof fn lemma_tool_ids_prefix(blocks: Seq<JsonView>, n: int)
    requires
        0 <= n <= blocks.len(),
    ensures
        tool_ids_of(blocks.take(n)).is_prefix_of(tool_ids_of(blocks)),
    decreases blocks.len() - n,
{
    if n < blocks.len() {
        lemma_tool_ids_prefix(blocks, n + 1);
        assert(blocks.take(n + 1).drop_last() == blocks.take(n));
    } else {
        assert(blocks.take(n) == blocks);
    }
}

fn validate_block(block: &Json, state: &State, tool_ids: &mut Vec<String>) -> (r: bool)
    ensures
        r ==> block_ok(block@, state@) && texts(final(tool_ids)@) == (if is_tool_use(block@) {
            texts(old(tool_ids)@).push(block@.text_at("id"@)->0)
        } else {
            texts(old(tool_ids)@)
        }) && (is_tool_use(block@) ==> !texts(old(tool_ids)@).contains(
            block@.text_at("id"@)->0,
        )),
        !r ==> !block_ok(block@, state@) || (is_tool_use(block@) && texts(
            old(tool_ids)@,
        ).contains(block@.text_at("id"@)->0)),
{
    proof {
        reveal_strlit("text");
        reveal_strlit("thinking");
        reveal_strlit("redacted_thinking");
        reveal_strlit("tool_use");
        assert("thinking"@[1] != "tool_use"@[1]);
    }
    let object = match block {
        Json::Object(object) => object,
        _ => return false,
    };
    let kind = match object.text("type") {
        Some(kind) => kind,
        None => return false,
    };
    if same(kind, "text") {
        !object.has_unknown_field(&["type", "text"]) && object.text("text").is_some()
    } else if same(kind, "thinking") {
        !object.has_unknown_field(&["type", "thinking", "signature"])
    } else if same(kind, "redacted_thinking") {
        !object.has_unknown_field(&["type", "data"])
    } else if same(kind, "tool_use") {
        validate_response_tool(object, state, tool_ids).is_ok()
    } else {
        false
    }
}

fn validate_blocks(blocks: &Vec<Json>, state: &State) -> (r: Result<bool, AIError>)
    ensures
        if blocks_ok(views(blocks@), state@) {
            r == Ok::<bool, AIError>(tool_ids_of(views(blocks@)).len() > 0)
        } else {
            r == Err::<bool, AIError>(invalid())
        },
{
    let ghost all = views(blocks@);
    let mut tool_ids: Vec<String> = Vec::new();
    let mut i: usize = 0;
    assert(all.take(0) == Seq::<JsonView>::empty());
    assert(texts(tool_ids@) == tool_ids_of(all.take(0)));
    while i < blocks.len()
        invariant
            i <= blocks.len(),
            all == views(blocks@),
            forall|j: int| 0 <= j < i ==> block_ok(#[trigger] all[j], state@),
            texts(tool_ids@) == tool_ids_of(all.take(i as int)),
            texts(tool_ids@).no_duplicates(),
        decreases blocks.len() - i,
    {
        let ghost before = texts(tool_ids@);
        let ghost next = all.take(i as int + 1);
        proof {
            assert(all[i as int] == blocks@[i as int]@);
            assert(next.drop_last() == all.take(i as int));
            assert(next.last() == all[i as int]);
            lemma_tool_ids_prefix(all, i as int + 1);
        }
        if !validate_block(&blocks[i], state, &mut tool_ids) {
            proof {
                if is_tool_use(all[i as int]) && before.contains(
                    all[i as int].text_at("id"@)->0,
                ) {
                    let id = all[i as int].text_at("id"@)->0;
                    let k = choose|k: int| 0 <= k < before.len() && before[k] == id;
                    let ids = tool_ids_of(next);
                    assert(ids[k] == id && ids[before.len() as int] == id);
                    assert(tool_ids_of(all)[k] == ids[k]);
                    assert(tool_ids_of(all)[before.len() as int] == ids[before.len() as int]);
                    assert(!tool_ids_of(all).no_duplicates());
                }
            }
            return Err(invalid_response());
        }
        i = i + 1;
    }
    assert(all.take(all.len() as int) == all);
    Ok(tool_ids.len() > 0)
}

/// Whether a stop sequence is told exactly where it is why the model stopped.
pub open spec fn sequence_ok(reason: Seq<char>, sequence: Option<JsonView>) -> bool {
    if reason == "stop_sequence"@ {
        match sequence {
            Some(JsonView::Text(s)) => s.len() > 0,
            _ => false,
        }
    } else {
        sequence is None || sequence == Some(JsonView::Null)
    }
}

/// Whether the counts of an answer are all known ones, and those that must be told are.
pub open spec fn counts_ok(usage: Fields) -> bool {
    &&& only(
        usage,
        seq![
            "input_tokens",
            "output_tokens",
            "cache_creation_input_tokens",
            "cache_read_input_tokens",
            "service_tier",
            "cache_creation",
            "inference_geo",
            "output_tokens_details",
        ],
    )
    &&& field(usage, "input_tokens"@) is Some
    &&& field(usage, "output_tokens"@) is Some
    &&& match field(usage, "output_tokens_details"@) {
        None => true,
        Some(JsonView::Object(details)) => only(details, seq!["thinking_tokens"]) && (match field(
            details,
            "thinking_tokens"@,
        ) {
            None | Some(JsonView::Unsigned(_)) => true,
            _ => false,
        }),
        Some(_) => false,
    }
}

fn counts_valid(usage: &Object) -> (r: bool)
    ensures
        r == counts_ok(usage@),
{
    if usage.has_unknown_field(
        &[
            "input_tokens",
            "output_tokens",
            "cache_creation_input_tokens",
            "cache_read_input_tokens",
            "service_tier",
            "cache_creation",
            "inference_geo",
            "output_tokens_details",
        ],
    ) || !usage.has("input_tokens") || !usage.has("output_tokens") {
        return false;
    }
    match usage.get("output_tokens_details") {
        None => true,
        Some(Json::Object(details)) => {
            let known = ["thinking_tokens"];
            let unknown = details.has_unknown_field(&known);
            assert(known@ == seq!["thinking_tokens"]);
            !unknown && match details.get("thinking_tokens") {
                None | Some(Json::Unsigned(_)) => true,
                Some(Json::Negative(n)) => *n >= 0,
                _ => false,
            }
        },
        Some(_) => false,
    }
}

/// Whether a stop reason goes with the use of tools.
pub open spec fn reason_fits(reason: Seq<char>, has_tool: bool) -> bool {
    if has_tool {
        reason != "end_turn"@ && reason != "stop_sequence"@ && reason != "refusal"@
    } else {
        reason != "tool_use"@
    }
}

/// Whether an answer has all it must have, in a form that is known, and nothing else.
pub open spec fn response_ok(v: JsonView, tools: Table) -> bool {
    match v {
        JsonView::Object(o) => {
            &&& only(
                o,
                seq![
                    "id",
                    "type",
                    "role",
                    "content",
                    "model",
                    "stop_reason",
                    "stop_sequence",
                    "usage",
                    "copilot_usage",
                    "stop_details",
                ],
            )
            &&& text_field(o, "type"@) == Some("message"@)
            &&& text_field(o, "role"@) == Some("assistant"@)
            &&& nonempty(o, "id"@)
            &&& nonempty(o, "model"@)
            &&& match (
                text_field(o, "stop_reason"@),
                field(o, "usage"@),
                field(o, "content"@),
            ) {
                (Some(reason), Some(JsonView::Object(usage)), Some(JsonView::Array(blocks))) => {
                    &&& sequence_ok(reason, field(o, "stop_sequence"@))
                    &&& counts_ok(usage)
                    &&& blocks_ok(blocks, tools)
                    &&& reason_fits(reason, tool_ids_of(blocks).len() > 0)
                },
                _ => false,
            }
        },
        _ => false,
    }
}

/// Checks an answer.
pub fn validate_response(raw: &Json, state: &State) -> (r: Result<(), AIError>)
    ensures
        r == (if response_ok(raw@, state@) {
            Ok::<(), AIError>(())
        } else {
            Err(invalid())
        }),
{
    let object = match raw {
        Json::Object(object) => object,
        _ => return Err(invalid_response()),
    };
    let is_message = match object.text("type") {
        Some(kind) => same(kind, "message"),
        None => false,
    };
    let is_assistant = match object.text("role") {
        Some(role) => same(role, "assistant"),
        None => false,
    };
    if object.has_unknown_field(
        &[
            "id",
            "type",
            "role",
            "content",
            "model",
            "stop_reason",
            "stop_sequence",
            "usage",
            "copilot_usage",
            "stop_details",
        ],
    ) || !is_message || !is_assistant || !required_response_string(object, "id")
        || !required_response_string(object, "model") {
        return Err(invalid_response());
    }
    let reason = match object.text("stop_reason") {
        Some(reason) => reason,
        None => return Err(invalid_response()),
    };
    let sequence_valid = if same(reason, "stop_sequence") {
        match object.get("stop_sequence") {
            Some(Json::Text(s)) => !blank(s.as_str()),
            _ => false,
        }
    } else {
        match object.get("stop_sequence") {
            None | Some(Json::Null) => true,
            _ => false,
        }
    };
    if !sequence_valid {
        return Err(invalid_response());
    }
    match object.get("usage") {
        Some(Json::Object(usage)) => if !counts_valid(usage) {
            return Err(invalid_response());
        },
        _ => return Err(invalid_response()),
    }
    let blocks = match object.get("content") {
        Some(Json::Array(blocks)) => blocks,
        _ => return Err(invalid_response()),
    };
    let has_tool = match validate_blocks(blocks, state) {
        Ok(has_tool) => has_tool,
        Err(_) => return Err(invalid_response()),
    };
    let fits = if has_tool {
        !same(reason, "end_turn") && !same(reason, "stop_sequence") && !same(reason, "refusal")
    } else {
        !same(reason, "tool_use")
    };
    if fits {
        Ok(())
    } else {
        Err(invalid_response())
    }
}

/// An answer.
#[derive(Debug)]
pub struct AnswerOf<S, L> {
    pub id: S,
    pub model: S,
    pub stop_reason: StopReason,
    pub usage: UsageOf<S>,
    pub content: L,
}

pub type Answer = AnswerOf<String, Vec<Block>>;

pub type AnswerView = AnswerOf<Seq<char>, Seq<BlockView>>;

/// What the blocks of a list hold.
pub open spec fn block_views(blocks: Seq<Block>) -> Seq<BlockView> {
    blocks.map_values(|b: Block| b@)
}

impl View for AnswerOf<String, Vec<Block>> {
    type V = AnswerOf<Seq<char>, Seq<BlockView>>;

    open spec fn view(&self) -> AnswerView {
        AnswerOf {
            id: self.id@,
            model: self.model@,
            stop_reason: self.stop_reason,
            usage: self.usage@,
            content: block_views(self.content@),
        }
    }
}

/// The blocks that values stand for, from the `n`th on, where every one is a block.
pub open spec fn blocks_from(items: Seq<JsonView>, n: int) -> Option<Seq<BlockView>>
    decreases items.len() - n,
{
    if n < 0 || n >= items.len() {
        Some(Seq::empty())
    } else {
        match (block_of(items[n]), blocks_from(items, n + 1)) {
            (Some(block), Some(rest)) => Some(seq![block] + rest),
            _ => None,
        }
    }
}

fn read_blocks(items: &Vec<Json>) -> (r: Option<Vec<Block>>)
    ensures
        (match r {
            Some(blocks) => Some(block_views(blocks@)),
            None => None,
        }) == blocks_from(views(items@), 0),
{
    let mut blocks: Vec<Block> = Vec::new();
    let mut i: usize = 0;
    while i < items.len()
        invariant
            i <= items.len(),
            match blocks_from(views(items@), i as int) {
                Some(rest) => blocks_from(views(items@), 0) == Some(block_views(blocks@) + rest),
                None => blocks_from(views(items@), 0) is None,
            },
        decreases items.len() - i,
    {
        assert(views(items@)[i as int] == items@[i as int]@);
        match read_block(&items[i]) {
            Some(block) => {
                let ghost before = block_views(blocks@);
                blocks.push(block);
                assert(block_views(blocks@) == before.push(block@));
                proof {
                    match blocks_from(views(items@), i as int + 1) {
                        Some(rest) => {
                            assert(before + (seq![block@] + rest) == block_views(blocks@) + rest);
                        },
                        None => {},
                    }
                }
            },
            None => return None,
        }
        i = i + 1;
    }
    assert(block_views(blocks@) + Seq::<BlockView>::empty() == block_views(blocks@));
    Some(blocks)
}

/// The answer that a value stands for, where it is one.
pub open spec fn answer_of(v: JsonView) -> Option<AnswerView> {
    let reason = match v.text_at("stop_reason"@) {
        Some(name) => stop_reason_named(name),
        None => None,
    };
    match (
        v.text_at("id"@),
        v.text_at("model"@),
        reason,
        usage_of(v.get("usage"@)),
        v.get("content"@),
    ) {
        (Some(id), Some(model), Some(stop_reason), Some(usage), Some(JsonView::Array(items))) =>
            match blocks_from(items, 0) {
                Some(content) => Some(AnswerOf { id, model, stop_reason, usage, content }),
                None => None,
            },
        _ => None,
    }
}

/// The answer that a value stands for.
pub fn read_answer(v: &Json) -> (r: Option<Answer>)
    ensures
        (match r {
            Some(a) => Some(a@),
            None => None,
        }) == answer_of(v@),
{
    let reason = match v.text_at("stop_reason") {
        Some(name) => parse_stop_reason(name),
        None => None,
    };
    match (
        v.text_at("id"),
        v.text_at("model"),
        reason,
        read_usage(v.get("usage")),
        v.get("content"),
    ) {
        (Some(id), Some(model), Some(stop_reason), Some(usage), Some(Json::Array(items))) =>
            match read_blocks(items) {
                Some(content) => Some(
                    AnswerOf { id: owned(id), model: owned(model), stop_reason, usage, content },
                ),
                None => None,
            },
        _ => None,
    }
}

/// The size of values as JSON texts.
pub open spec fn total_size(values: Seq<JsonView>) -> int
    decreases values.len(),
{
    if values.len() == 0 {
        0
    } else {
        total_size(values.drop_last()) + json_size(values.last())
    }
}

proof fn lemma_total_size_add(a: Seq<JsonView>, b: Seq<JsonView>)
    ensures
        total_size(a + b) == total_size(a) + total_size(b),
        total_size(b) >= 0,
    decreases b.len(),
{
    if b.len() == 0 {
        assert(a + b == a);
    } else {
        lemma_total_size_add(a, b.drop_last());
        assert((a + b).drop_last() == a + b.drop_last());
        assert((a + b).last() == b.last());
    }
}

/// The error for output that is larger than the limit.
pub open spec fn too_large() -> AIError {
    AIError::InvalidResponse(Malformed::OutputTooLarge)
}

/// The error for output that is larger than the limit.
pub fn response_output_too_large() -> (r: AIError)
    ensures
        r == too_large(),
{
    AIError::InvalidResponse(Malformed::OutputTooLarge)
}

/// Keeps an item, where that keeps the output within the limit. An item that does not fit is
/// neither kept nor counted.
pub fn retain_response_item(
    output: &mut Vec<Json>,
    item: Json,
    buffer_limit: usize,
    retained_bytes: &mut usize,
) -> (r: Result<(), AIError>)
    ensures
        if *old(retained_bytes) + json_size(item@) <= buffer_limit {
            &&& r is Ok
            &&& views(final(output)@) == views(old(output)@).push(item@)
            &&& *final(retained_bytes) == *old(retained_bytes) + json_size(item@)
        } else {
            &&& r == Err::<(), AIError>(too_large())
            &&& *final(output) == *old(output)
            &&& *final(retained_bytes) == *old(retained_bytes)
        },
{
    let size = json_len(&item);
    let total: usize = match retained_bytes.checked_add(size) {
        Some(total) => total,
        None => return Err(response_output_too_large()),
    };
    if total > buffer_limit {
        return Err(response_output_too_large());
    }
    *retained_bytes = total;
    let ghost before = output@;
    output.push(item);
    assert(views(output@) == views(before).push(item@));
    Ok(())
}

/// What goes into every item of an answer.
pub struct FrameOf<S> {
    pub message_id: S,
    pub completed: bool,
    pub phase: MessagePhase,
    pub refusal: bool,
}

pub type Frame = FrameOf<String>;

impl View for FrameOf<String> {
    type V = FrameOf<Seq<char>>;

    open spec fn view(&self) -> FrameOf<Seq<char>> {
        FrameOf {
            message_id: self.message_id@,
            completed: self.completed,
            phase: self.phase,
            refusal: self.refusal,
        }
    }
}

impl FrameOf<Seq<char>> {
    pub open spec fn status(self) -> Seq<char> {
        if self.completed {
            "completed"@
        } else {
            "incomplete"@
        }
    }

    /// The piece that a text becomes.
    pub open spec fn part(self, text: Seq<char>) -> JsonView {
        if self.refusal {
            crate::responses::part_json(PartOf::Refusal(text))
        } else {
            crate::responses::part_json(PartOf::OutputText(text))
        }
    }

    /// A message of the answer, named by where its first text stands.
    pub open spec fn message(self, index: nat, parts: Seq<JsonView>) -> JsonView {
        JsonView::object().with("type"@, JsonView::Text("message"@)).with(
            "id"@,
            JsonView::Text(item_id_of("msg"@, self.message_id, index)),
        ).with("role"@, JsonView::Text("assistant"@)).with(
            "phase"@,
            JsonView::Text(self.phase.name_spec()),
        ).with("status"@, JsonView::Text(self.status())).with("content"@, JsonView::Array(parts))
    }

    /// The message that is open, as the values it becomes: one, or none.
    pub open spec fn flushed(self, open: Option<(nat, Seq<JsonView>)>) -> Seq<JsonView> {
        match open {
            Some((index, parts)) => seq![self.message(index, parts)],
            None => Seq::empty(),
        }
    }
}

impl FrameOf<String> {
    fn status_name(&self) -> (r: &'static str)
        ensures
            r@ == self@.status(),
    {
        if self.completed {
            "completed"
        } else {
            "incomplete"
        }
    }

    fn make_part(&self, text: &str) -> (r: Json)
        ensures
            r@ == self@.part(text@),
    {
        if self.refusal {
            PartOf::Refusal(owned(text)).to_json()
        } else {
            PartOf::OutputText(owned(text)).to_json()
        }
    }

    fn make_message(&self, index: usize, parts: Vec<Json>) -> (r: Json)
        ensures
            r@ == self@.message(index as nat, views(parts@)),
    {
        Json::object().with("type", Json::text("message")).with(
            "id",
            Json::Text(item_id("msg", self.message_id.as_str(), index)),
        ).with("role", Json::text("assistant")).with("phase", Json::text(self.phase.name())).with(
            "status",
            Json::text(self.status_name()),
        ).with("content", Json::Array(parts))
    }
}

/// The items that blocks become, from the `i`th on, and whether every tool was declared. Texts
/// that no tool use parts are one message; thinking is dropped and parts nothing.
pub open spec fn items_built(
    frame: FrameOf<Seq<char>>,
    blocks: Seq<BlockView>,
    tools: Table,
    i: int,
    open: Option<(nat, Seq<JsonView>)>,
) -> (Seq<JsonView>, bool)
    decreases blocks.len() - i,
{
    if i < 0 || i >= blocks.len() {
        (frame.flushed(open), true)
    } else {
        match blocks[i] {
            BlockOf::Text { text, .. } => {
                let (index, parts) = match open {
                    Some((index, parts)) => (index, parts),
                    None => (i as nat, Seq::empty()),
                };
                items_built(
                    frame,
                    blocks,
                    tools,
                    i + 1,
                    Some((index, parts.push(frame.part(text)))),
                )
            },
            BlockOf::Thinking | BlockOf::RedactedThinking => items_built(
                frame,
                blocks,
                tools,
                i + 1,
                open,
            ),
            BlockOf::ToolUse { id, name, input, .. } => match tool_item(
                frame.message_id,
                i as nat,
                frame.status(),
                id,
                name,
                input,
                tools,
            ) {
                Some(item) => {
                    let (rest, all) = items_built(frame, blocks, tools, i + 1, None);
                    (frame.flushed(open) + seq![item] + rest, all)
                },
                None => (frame.flushed(open), false),
            },
        }
    }
}

/// The items that an answer becomes, within the limit. A refusal without a word becomes a message
/// with an empty refusal.
pub open spec fn output_of(
    frame: FrameOf<Seq<char>>,
    blocks: Seq<BlockView>,
    tools: Table,
    limit: usize,
) -> Result<Seq<JsonView>, AIError> {
    let (built, all) = items_built(frame, blocks, tools, 0, None);
    let items = if all && frame.refusal && built.len() == 0 {
        seq![
            frame.message(
                0,
                seq![crate::responses::part_json(PartOf::Refusal(Seq::<char>::empty()))],
            ),
        ]
    } else {
        built
    };
    if total_size(items) > limit {
        Err(too_large())
    } else if !all {
        Err(invalid())
    } else {
        Ok(items)
    }
}

/// Puts the open message out.
pub fn flush_response_text(
    output: &mut Vec<Json>,
    pending: Option<(usize, Vec<Json>)>,
    frame: &Frame,
    buffer_limit: usize,
    retained_bytes: &mut usize,
) -> (r: Result<(), AIError>)
    ensures
        ({
            let more = frame@.flushed(
                match pending {
                    Some((index, parts)) => Some((index as nat, views(parts@))),
                    None => None,
                },
            );
            if *old(retained_bytes) + total_size(more) <= buffer_limit || more.len() == 0 {
                &&& r is Ok
                &&& views(final(output)@) == views(old(output)@) + more
                &&& *final(retained_bytes) == *old(retained_bytes) + total_size(more)
            } else {
                r == Err::<(), AIError>(too_large())
            }
        }),
{
    match pending {
        Some((index, parts)) => {
            let ghost parts_seen = views(parts@);
            let item = frame.make_message(index, parts);
            proof {
                let more = frame@.flushed(Some((index as nat, parts_seen)));
                assert(more == seq![item@]);
                assert(more.drop_last() == Seq::<JsonView>::empty());
                assert(total_size(more) == json_size(item@)) by {
                    reveal_with_fuel(total_size, 2);
                }
                assert(views(output@).push(item@) == views(output@) + more);
            }
            retain_response_item(output, item, buffer_limit, retained_bytes)
        },
        None => {
            assert(views(output@) + Seq::<JsonView>::empty() == views(output@));
            Ok(())
        },
    }
}

/// What the open message holds.
spec fn open_view(open: Option<(usize, Vec<Json>)>) -> Option<(nat, Seq<JsonView>)> {
    match open {
        Some((index, parts)) => Some((index as nat, views(parts@))),
        None => None,
    }
}

proof fn lemma_prefix_too_large(done: Seq<JsonView>, rest: Seq<JsonView>, limit: usize)
    requires
        total_size(done) > limit,
    ensures
        total_size(done + rest) > limit,
{
    lemma_total_size_add(done, rest);
}

/// The items that an answer becomes.
#[verifier::rlimit(40)]
pub fn response_output(
    frame: &Frame,
    content: &Vec<Block>,
    state: &State,
    buffer_limit: usize,
) -> (r: Result<Vec<Json>, AIError>)
    ensures
        match output_of(frame@, block_views(content@), state@, buffer_limit) {
            Ok(items) => r is Ok && views(r->Ok_0@) == items,
            Err(e) => r is Err && r->Err_0 == e,
        },
{
    let ghost blocks = block_views(content@);
    let ghost (built, all) = items_built(frame@, blocks, state@, 0, None);
    let mut output: Vec<Json> = Vec::new();
    let mut pending: Option<(usize, Vec<Json>)> = None;
    let mut retained_bytes: usize = 0;
    let mut i: usize = 0;
    proof {
        assert(views(output@) == Seq::<JsonView>::empty());
        assert(views(output@) + built == built);
    }
    while i < content.len()
        invariant
            i <= content.len(),
            blocks == block_views(content@),
            (built, all) == items_built(frame@, blocks, state@, 0, None),
            ({
                let (rest, rest_all) = items_built(
                    frame@,
                    blocks,
                    state@,
                    i as int,
                    open_view(pending),
                );
                built == views(output@) + rest && all == rest_all
            }),
            retained_bytes == total_size(views(output@)),
            retained_bytes <= buffer_limit,
        decreases content.len() - i,
    {
        assert(blocks[i as int] == content@[i as int]@);
        match &content[i] {
            BlockOf::Text { text, .. } => {
                let part = frame.make_part(text.as_str());
                let ghost was = open_view(pending);
                let (index, mut parts): (usize, Vec<Json>) = match pending {
                    Some(open) => open,
                    None => (i, Vec::new()),
                };
                let ghost before = views(parts@);
                parts.push(part);
                proof {
                    assert(views(parts@) == before.push(part@));
                    assert(was is None ==> before == Seq::<JsonView>::empty());
                }
                pending = Some((index, parts));
            },
            BlockOf::Thinking | BlockOf::RedactedThinking => {},
            BlockOf::ToolUse { id, name, input, .. } => {
                let ghost done = views(output@);
                let ghost flushed = frame@.flushed(open_view(pending));
                let ghost (rest, rest_all) = items_built(
                    frame@,
                    blocks,
                    state@,
                    i as int,
                    open_view(pending),
                );
                proof {
                    lemma_total_size_add(done, flushed);
                    if rest != flushed {
                        let (tail, _) = items_built(frame@, blocks, state@, i as int + 1, None);
                        let item = tool_item(
                            frame@.message_id,
                            i as nat,
                            frame@.status(),
                            id@,
                            name@,
                            input@,
                            state@,
                        )->0;
                        assert(rest == flushed + (seq![item] + tail));
                        assert(built == (done + flushed) + (seq![item] + tail));
                        if total_size(done + flushed) > buffer_limit {
                            lemma_prefix_too_large(
                                done + flushed,
                                seq![item] + tail,
                                buffer_limit,
                            );
                        }
                    }
                }
                match flush_response_text(
                    &mut output,
                    pending,
                    frame,
                    buffer_limit,
                    &mut retained_bytes,
                ) {
                    Ok(_) => {},
                    Err(e) => {
                        assert(built.len() > 0);
                        return Err(e);
                    },
                }
                pending = None;
                let ghost kept = views(output@);
                proof {
                    if flushed.len() == 0 {
                        assert(done + flushed == done);
                    }
                    assert(kept == done + flushed);
                }
                let item = match response_tool_output(
                    frame.message_id.as_str(),
                    i,
                    frame.status_name(),
                    id.as_str(),
                    name.as_str(),
                    input,
                    state,
                ) {
                    Ok(item) => item,
                    Err(e) => {
                        assert(!all);
                        assert(built == kept);
                        return Err(e);
                    },
                };
                let ghost (tail, _) = items_built(frame@, blocks, state@, i as int + 1, None);
                proof {
                    assert(built == (kept + seq![item@]) + tail);
                    assert(kept.push(item@) == kept + seq![item@]);
                    assert(kept.push(item@).drop_last() == kept);
                    assert(kept.push(item@).last() == item@);
                    if total_size(kept.push(item@)) > buffer_limit {
                        lemma_prefix_too_large(kept.push(item@), tail, buffer_limit);
                    }
                    assert(built.len() > 0);
                }
                match retain_response_item(&mut output, item, buffer_limit, &mut retained_bytes) {
                    Ok(_) => {},
                    Err(e) => return Err(e),
                }
            },
        }
        i = i + 1;
    }
    let ghost done = views(output@);
    let ghost flushed = frame@.flushed(open_view(pending));
    proof {
        lemma_total_size_add(done, flushed);
        assert(built == done + flushed);
        assert(all);
        if flushed.len() == 0 {
            assert(done + flushed == done);
        }
    }
    match flush_response_text(&mut output, pending, frame, buffer_limit, &mut retained_bytes) {
        Ok(_) => {},
        Err(e) => return Err(e),
    }
    assert(views(output@) == built);
    if frame.refusal && output.len() == 0 {
        let nothing = String::new();
        let mut parts: Vec<Json> = Vec::new();
        parts.push(PartOf::Refusal(nothing).to_json());
        proof {
            assert(nothing@ == Seq::<char>::empty());
            assert(views(parts@) == seq![
                crate::responses::part_json(PartOf::Refusal(Seq::<char>::empty())),
            ]);
        }
        let item = frame.make_message(0, parts);
        proof {
            assert(views(output@).push(item@) == seq![item@]);
            assert(seq![item@].drop_last() == Seq::<JsonView>::empty());
            assert(total_size(seq![item@]) == json_size(item@)) by {
                reveal_with_fuel(total_size, 2);
            }
            assert(built.len() == 0);
            assert(total_size(built) == 0);
        }
        match retain_response_item(&mut output, item, buffer_limit, &mut retained_bytes) {
            Ok(_) => {},
            Err(e) => return Err(e),
        }
    }
    Ok(output)
}

/// The items that values stand for, from the `n`th on, where every one is an item.
pub open spec fn items_from(values: Seq<JsonView>, n: int) -> Option<Seq<ItemView>>
    decreases values.len() - n,
{
    if n < 0 || n >= values.len() {
        Some(Seq::empty())
    } else {
        match (item_of(values[n]), items_from(values, n + 1)) {
            (Some(item), Some(rest)) => Some(seq![item] + rest),
            _ => None,
        }
    }
}

fn read_items(values: &Vec<Json>) -> (r: Option<Vec<OutputItem>>)
    ensures
        (match r {
            Some(items) => Some(item_views(items@)),
            None => None,
        }) == items_from(views(values@), 0),
{
    let mut items: Vec<OutputItem> = Vec::new();
    let mut i: usize = 0;
    while i < values.len()
        invariant
            i <= values.len(),
            match items_from(views(values@), i as int) {
                Some(rest) => items_from(views(values@), 0) == Some(item_views(items@) + rest),
                None => items_from(views(values@), 0) is None,
            },
        decreases values.len() - i,
    {
        assert(views(values@)[i as int] == values@[i as int]@);
        match stream_item(&values[i]) {
            Ok(item) => {
                let ghost before = item_views(items@);
                items.push(item);
                assert(item_views(items@) == before.push(item@));
                proof {
                    match items_from(views(values@), i as int + 1) {
                        Some(rest) => {
                            assert(before + (seq![item@] + rest) == item_views(items@) + rest);
                        },
                        None => {},
                    }
                }
            },
            Err(_) => return None,
        }
        i = i + 1;
    }
    assert(item_views(items@) + Seq::<ItemView>::empty() == item_views(items@));
    Some(items)
}

/// A converted answer, with what is logged of it.
#[derive(Debug)]
pub struct TranslatedOf<S, L> {
    pub response: ResponseOf<S, L>,
    pub input_tokens: u64,
    pub cache_creation_input_tokens: Option<u64>,
    pub reasoning_tokens: Option<u64>,
    pub provider_model: S,
}

pub type TranslatedResponse = TranslatedOf<String, Vec<OutputItem>>;

pub type TranslatedView = TranslatedOf<Seq<char>, Seq<ItemView>>;

impl View for TranslatedOf<String, Vec<OutputItem>> {
    type V = TranslatedOf<Seq<char>, Seq<ItemView>>;

    open spec fn view(&self) -> TranslatedView {
        TranslatedOf {
            response: self.response@,
            input_tokens: self.input_tokens,
            cache_creation_input_tokens: self.cache_creation_input_tokens,
            reasoning_tokens: self.reasoning_tokens,
            provider_model: self.provider_model@,
        }
    }
}

/// What an answer is converted to, or why it is not.
pub open spec fn converted(
    v: JsonView,
    model: Seq<char>,
    tools: Table,
    limit: usize,
    created_at: u64,
) -> Result<TranslatedView, AIError> {
    if !response_ok(v, tools) {
        Err(invalid())
    } else {
        match answer_of(v) {
            None => Err(invalid()),
            Some(a) => match (
                ending(a.stop_reason),
                told(a.usage),
                tier_in(a.usage.service_tier),
            ) {
                (Some(end), Some(usage), Some(service_tier)) => {
                    let frame = FrameOf {
                        message_id: a.id,
                        completed: end == Ending::Completed,
                        phase: phase_of(a.stop_reason),
                        refusal: a.stop_reason == StopReason::Refusal,
                    };
                    match output_of(frame, a.content, tools, limit) {
                        Err(e) => Err(e),
                        Ok(values) => match items_from(values, 0) {
                            None => Err(invalid()),
                            Some(output) => {
                                let response = ResponseOf {
                                    id: "resp_"@ + a.id,
                                    created_at,
                                    status: if end == Ending::Completed {
                                        Status::Completed
                                    } else {
                                        Status::Incomplete
                                    },
                                    output,
                                    model,
                                    usage: Some(usage),
                                    service_tier,
                                };
                                if json_size(response_json(response)) > limit {
                                    Err(too_large())
                                } else {
                                    Ok(
                                        TranslatedOf {
                                            response,
                                            input_tokens: a.usage.input_tokens as u64,
                                            cache_creation_input_tokens: crate::stream::wide(
                                                a.usage.cache_creation_input_tokens,
                                            ),
                                            reasoning_tokens: crate::stream::wide(
                                                crate::usage::thinking_of(
                                                    a.usage.output_tokens_details,
                                                ),
                                            ),
                                            provider_model: a.model,
                                        },
                                    )
                                }
                            },
                        },
                    }
                },
                _ => Err(invalid()),
            },
        }
    }
}

/// Whether a conversion came to what is due.
pub open spec fn comes_to(
    due: Result<TranslatedView, AIError>,
    r: Result<TranslatedResponse, AIError>,
) -> bool {
    match due {
        Ok(t) => r is Ok && r->Ok_0@ == t,
        Err(e) => r is Err && r->Err_0 == e,
    }
}

fn widen(n: Option<usize>) -> (r: Option<u64>)
    ensures
        r == crate::stream::wide(n),
{
    match n {
        Some(n) => Some(n as u64),
        None => None,
    }
}

/// Converts an answer that has been read as JSON.
pub fn convert_answer(
    raw: &Json,
    model: &str,
    state: &State,
    buffer_limit: usize,
    created_at: u64,
) -> (r: Result<TranslatedResponse, AIError>)
    ensures
        comes_to(converted(raw@, model@, state@, buffer_limit, created_at), r),
{
    match validate_response(raw, state) {
        Ok(_) => {},
        Err(e) => return Err(e),
    }
    let answer = match read_answer(raw) {
        Some(answer) => answer,
        None => return Err(invalid_response()),
    };
    let completed = match terminal_status(answer.stop_reason) {
        Some((_, why)) => why.is_none(),
        None => return Err(invalid_response()),
    };
    let usage = match responses_usage(&answer.usage) {
        Ok(usage) => usage,
        Err(e) => return Err(e),
    };
    let service_tier = match &answer.usage.service_tier {
        Some(tier) => match public_service_tier(tier.as_str()) {
            Ok(tier) => Some(tier),
            Err(e) => return Err(e),
        },
        None => None,
    };
    let reasoning = match answer.usage.output_tokens_details {
        Some(details) => details.thinking_tokens,
        None => None,
    };
    let frame = FrameOf {
        message_id: owned(answer.id.as_str()),
        completed,
        phase: message_phase(answer.stop_reason),
        refusal: answer.stop_reason == StopReason::Refusal,
    };
    let values = match response_output(&frame, &answer.content, state, buffer_limit) {
        Ok(values) => values,
        Err(e) => return Err(e),
    };
    let output = match read_items(&values) {
        Some(output) => output,
        None => return Err(invalid_response()),
    };
    let response = ResponseOf {
        id: join("resp_", answer.id.as_str()),
        created_at,
        status: if completed {
            Status::Completed
        } else {
            Status::Incomplete
        },
        output,
        model: owned(model),
        usage: Some(usage),
        service_tier,
    };
    // Options that a call leaves out may be written as null in the end, so the whole is measured
    // once more.
    if json_len(&response.to_json()) > buffer_limit {
        return Err(response_output_too_large());
    }
    Ok(
        TranslatedOf {
            response,
            input_tokens: answer.usage.input_tokens as u64,
            cache_creation_input_tokens: widen(answer.usage.cache_creation_input_tokens),
            reasoning_tokens: widen(reasoning),
            provider_model: answer.model,
        },
    )
}

/// What the bytes of an answer are converted to, or why they are not.
pub open spec fn converted_bytes(
    bytes: Seq<u8>,
    model: Seq<char>,
    tools: Table,
    limit: usize,
    created_at: u64,
) -> Result<TranslatedView, AIError> {
    match parsed(bytes) {
        Some(v) => converted(v, model, tools, limit, created_at),
        None => Err(invalid()),
    }
}

/// Converts an answer that came at a given time.
pub fn translate_response_at(
    bytes: &[u8],
    model: &str,
    state: &State,
    buffer_limit: usize,
    created_at: u64,
) -> (r: Result<TranslatedResponse, AIError>)
    ensures
        comes_to(converted_bytes(bytes@, model@, state@, buffer_limit, created_at), r),
{
    match Json::parse(bytes) {
        Some(raw) => convert_answer(&raw, model, state, buffer_limit, created_at),
        None => Err(invalid_response()),
    }
}

/// The last second that an answer may come in: that of the year 262142.
pub const LAST_SECOND: u64 = 8_210_266_876_799;

/// `chrono::DateTime::from_timestamp` and `timestamp`: the time that is so many seconds after the
/// Unix epoch, told in seconds after the epoch again. A time past the year 262142 is none.
#[verifier::external_body]
fn unix_seconds(seconds: i64) -> (r: Option<i64>)
    requires
        seconds >= 0,
    ensures
        r == (if seconds <= LAST_SECOND {
            Some(seconds)
        } else {
            None
        }),
{
    Some(chrono::DateTime::from_timestamp(seconds, 0)?.timestamp())
}

/// The second of the Unix epoch that a number of nanoseconds after it falls in, where it is one
/// that can be told. None stands for a time before the epoch.
pub open spec fn second_of(nanos: Option<u128>) -> Option<u64> {
    match nanos {
        Some(n) => if n / NANOS_PER_SECOND as u128 <= LAST_SECOND {
            Some((n / NANOS_PER_SECOND as u128) as u64)
        } else {
            None
        },
        None => None,
    }
}

fn tell_second(nanos: Option<u128>) -> (r: Option<u64>)
    ensures
        r == second_of(nanos),
{
    match nanos {
        Some(n) => {
            let seconds: u128 = n / NANOS_PER_SECOND as u128;
            if seconds <= i64::MAX as u128 {
                match unix_seconds(seconds as i64) {
                    Some(t) => Some(t as u64),
                    None => None,
                }
            } else {
                None
            }
        },
        None => None,
    }
}

/// What an answer comes to that came when the clock stood so many nanoseconds after the epoch. One
/// that is valid cannot be converted where the time cannot be told.
pub open spec fn converted_when(
    bytes: Seq<u8>,
    model: Seq<char>,
    tools: Table,
    limit: usize,
    nanos: Option<u128>,
) -> Result<TranslatedView, AIError> {
    match second_of(nanos) {
        Some(created_at) => converted_bytes(bytes, model, tools, limit, created_at),
        None => match converted_bytes(bytes, model, tools, limit, 0) {
            Ok(_) => Err(AIError::UnsupportedClock),
            Err(e) => Err(e),
        },
    }
}

/// Converts an answer that came when the clock stood so many nanoseconds after the epoch.
pub fn translate_response_when(
    bytes: &[u8],
    model: &str,
    state: &State,
    buffer_limit: usize,
    nanos: Option<u128>,
) -> (r: Result<TranslatedResponse, AIError>)
    ensures
        comes_to(converted_when(bytes@, model@, state@, buffer_limit, nanos), r),
{
    match tell_second(nanos) {
        Some(created_at) => translate_response_at(bytes, model, state, buffer_limit, created_at),
        None => match translate_response_at(bytes, model, state, buffer_limit, 0) {
            Ok(_) => Err(AIError::UnsupportedClock),
            Err(e) => Err(e),
        },
    }
}

/// Converts an answer that has just come.
pub fn translate_response(
    bytes: &[u8],
    model: &str,
    state: &State,
    buffer_limit: usize,
) -> (r: Result<TranslatedResponse, AIError>)
    ensures
        exists|nanos: Option<u128>|
            comes_to(
                #[trigger] converted_when(bytes@, model@, state@, buffer_limit, nanos),
                r,
            ),
{
    let nanos = nanos_at(&read_clock());
    translate_response_when(bytes, model, state, buffer_limit, nanos)
}

} // verus!
