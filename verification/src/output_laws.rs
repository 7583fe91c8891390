//! What holds of every whole answer: all that the model said and asked for is put out, in order,
//! and nothing else.
use vstd::prelude::*;

use crate::agreement::{last_message, lemma_message_read, written};
use crate::call_laws::{asks_for, lemma_call_asks_for_what_was_asked};
use crate::calls::tool_item;
use crate::decode::{block_of, BlockOf, BlockView};
use crate::error::AIError;
use crate::items::item_of;
use crate::json::JsonView;
use crate::lookups::lemma_put_lookup;
use crate::messages::StopReason;
use crate::response::{
    answer_of, block_ok, blocks_from, converted, items_built, items_from, FrameOf, TranslatedView,
};
use crate::responses::{
    item_json, part_json, response_json, ItemOf, ItemView, OutputStatus, PartOf, PartView,
};
use crate::text::decimal;
use crate::tools::Table;
use crate::usage::{ending, phase_of, told, Ending, MessagePhase};

verus! {

proof fn lemma_block_kinds()
    ensures
        "text"@ != "thinking"@,
        "text"@ != "redacted_thinking"@,
        "text"@ != "tool_use"@,
        "thinking"@ != "redacted_thinking"@,
        "thinking"@ != "tool_use"@,
        "redacted_thinking"@ != "tool_use"@,
{
    reveal_strlit("text");
    reveal_strlit("thinking");
    reveal_strlit("redacted_thinking");
    reveal_strlit("tool_use");
    assert("text"@.len() == 4);
    assert("thinking"@.len() == 8);
    assert("redacted_thinking"@.len() == 17);
    assert("tool_use"@.len() == 8);
    assert("thinking"@[1] == 'h');
    assert("tool_use"@[1] == 'o');
}

proof fn lemma_reasons()
    ensures
        "end_turn"@ != "max_tokens"@,
        "end_turn"@ != "stop_sequence"@,
        "end_turn"@ != "tool_use"@,
        "end_turn"@ != "pause_turn"@,
        "end_turn"@ != "refusal"@,
        "end_turn"@ != "model_context_window_exceeded"@,
        "max_tokens"@ != "stop_sequence"@,
        "max_tokens"@ != "tool_use"@,
        "max_tokens"@ != "pause_turn"@,
        "max_tokens"@ != "refusal"@,
        "max_tokens"@ != "model_context_window_exceeded"@,
        "stop_sequence"@ != "tool_use"@,
        "stop_sequence"@ != "pause_turn"@,
        "stop_sequence"@ != "refusal"@,
        "stop_sequence"@ != "model_context_window_exceeded"@,
        "tool_use"@ != "pause_turn"@,
        "tool_use"@ != "refusal"@,
        "tool_use"@ != "model_context_window_exceeded"@,
        "pause_turn"@ != "refusal"@,
        "pause_turn"@ != "model_context_window_exceeded"@,
        "refusal"@ != "model_context_window_exceeded"@,
{
    reveal_strlit("end_turn");
    reveal_strlit("max_tokens");
    reveal_strlit("stop_sequence");
    reveal_strlit("tool_use");
    reveal_strlit("pause_turn");
    reveal_strlit("refusal");
    reveal_strlit("model_context_window_exceeded");
    assert("end_turn"@.len() == 8);
    assert("max_tokens"@.len() == 10);
    assert("stop_sequence"@.len() == 13);
    assert("tool_use"@.len() == 8);
    assert("pause_turn"@.len() == 10);
    assert("refusal"@.len() == 7);
    assert("model_context_window_exceeded"@.len() == 29);
    assert("end_turn"@[0] == 'e');
    assert("tool_use"@[0] == 't');
    assert("max_tokens"@[0] == 'm');
    assert("pause_turn"@[0] == 'p');
}

proof fn lemma_head_names()
    ensures
        "id"@ != "object"@,
        "id"@ != "created_at"@,
        "id"@ != "status"@,
        "id"@ != "output"@,
        "id"@ != "model"@,
        "id"@ != "usage"@,
        "id"@ != "incomplete_details"@,
        "id"@ != "service_tier"@,
        "object"@ != "created_at"@,
        "object"@ != "status"@,
        "object"@ != "output"@,
        "object"@ != "model"@,
        "object"@ != "usage"@,
        "object"@ != "incomplete_details"@,
        "object"@ != "service_tier"@,
        "created_at"@ != "status"@,
        "created_at"@ != "output"@,
        "created_at"@ != "model"@,
        "created_at"@ != "usage"@,
        "created_at"@ != "incomplete_details"@,
        "created_at"@ != "service_tier"@,
        "status"@ != "output"@,
        "status"@ != "model"@,
        "status"@ != "usage"@,
        "status"@ != "incomplete_details"@,
        "status"@ != "service_tier"@,
        "output"@ != "model"@,
        "output"@ != "usage"@,
        "output"@ != "incomplete_details"@,
        "output"@ != "service_tier"@,
        "model"@ != "usage"@,
        "model"@ != "incomplete_details"@,
        "model"@ != "service_tier"@,
        "usage"@ != "incomplete_details"@,
        "usage"@ != "service_tier"@,
        "incomplete_details"@ != "service_tier"@,
{
    reveal_strlit("id");
    reveal_strlit("object");
    reveal_strlit("created_at");
    reveal_strlit("status");
    reveal_strlit("output");
    reveal_strlit("model");
    reveal_strlit("usage");
    reveal_strlit("incomplete_details");
    reveal_strlit("service_tier");
    assert("id"@.len() == 2);
    assert("object"@.len() == 6);
    assert("created_at"@.len() == 10);
    assert("status"@.len() == 6);
    assert("output"@.len() == 6);
    assert("model"@.len() == 5);
    assert("usage"@.len() == 5);
    assert("incomplete_details"@.len() == 18);
    assert("service_tier"@.len() == 12);
    assert("object"@[0] == 'o');
    assert("status"@[0] == 's');
    assert("object"@[1] == 'b');
    assert("output"@[1] == 'u');
    assert("output"@[0] == 'o');
    assert("model"@[0] == 'm');
    assert("usage"@[0] == 'u');
}

proof fn lemma_count_names()
    ensures
        "input_tokens"@ != "input_tokens_details"@,
        "input_tokens"@ != "output_tokens"@,
        "input_tokens"@ != "output_tokens_details"@,
        "input_tokens"@ != "total_tokens"@,
        "input_tokens_details"@ != "output_tokens"@,
        "input_tokens_details"@ != "output_tokens_details"@,
        "input_tokens_details"@ != "total_tokens"@,
        "output_tokens"@ != "output_tokens_details"@,
        "output_tokens"@ != "total_tokens"@,
        "output_tokens_details"@ != "total_tokens"@,
{
    reveal_strlit("input_tokens");
    reveal_strlit("input_tokens_details");
    reveal_strlit("output_tokens");
    reveal_strlit("output_tokens_details");
    reveal_strlit("total_tokens");
    assert("input_tokens"@.len() == 12);
    assert("input_tokens_details"@.len() == 20);
    assert("output_tokens"@.len() == 13);
    assert("output_tokens_details"@.len() == 21);
    assert("total_tokens"@.len() == 12);
    assert("input_tokens"@[0] == 'i');
    assert("total_tokens"@[0] == 't');
}

proof fn lemma_cache_names()
    ensures
        "cached_tokens"@ != "cache_write_tokens"@,
{
    reveal_strlit("cached_tokens");
    reveal_strlit("cache_write_tokens");
    assert("cached_tokens"@.len() == 13);
    assert("cache_write_tokens"@.len() == 18);
}

proof fn lemma_part_names()
    ensures
        "type"@ != "annotations"@,
        "type"@ != "logprobs"@,
        "type"@ != "text"@,
        "type"@ != "refusal"@,
        "annotations"@ != "logprobs"@,
        "annotations"@ != "text"@,
        "annotations"@ != "refusal"@,
        "logprobs"@ != "text"@,
        "logprobs"@ != "refusal"@,
        "text"@ != "refusal"@,
{
    reveal_strlit("type");
    reveal_strlit("annotations");
    reveal_strlit("logprobs");
    reveal_strlit("text");
    reveal_strlit("refusal");
    assert("type"@.len() == 4);
    assert("annotations"@.len() == 11);
    assert("logprobs"@.len() == 8);
    assert("text"@.len() == 4);
    assert("refusal"@.len() == 7);
    assert("type"@[1] == 'y');
    assert("text"@[1] == 'e');
}

proof fn lemma_message_names()
    ensures
        "type"@ != "id"@,
        "type"@ != "role"@,
        "type"@ != "phase"@,
        "type"@ != "status"@,
        "type"@ != "content"@,
        "id"@ != "role"@,
        "id"@ != "phase"@,
        "id"@ != "status"@,
        "id"@ != "content"@,
        "role"@ != "phase"@,
        "role"@ != "status"@,
        "role"@ != "content"@,
        "phase"@ != "status"@,
        "phase"@ != "content"@,
        "status"@ != "content"@,
{
    reveal_strlit("type");
    reveal_strlit("id");
    reveal_strlit("role");
    reveal_strlit("phase");
    reveal_strlit("status");
    reveal_strlit("content");
    assert("type"@.len() == 4);
    assert("id"@.len() == 2);
    assert("role"@.len() == 4);
    assert("phase"@.len() == 5);
    assert("status"@.len() == 6);
    assert("content"@.len() == 7);
    assert("type"@[0] == 't');
    assert("role"@[0] == 'r');
}

/// One thing that an answer puts out: something said, or a call.
pub enum Atom {
    Said(PartView),
    Call(ItemView),
}

/// What items put out, one after the other.
pub open spec fn atoms(items: Seq<ItemView>) -> Seq<Atom>
    decreases items.len(),
{
    if items.len() == 0 {
        Seq::empty()
    } else {
        (match items[0] {
            ItemOf::Message(m) => m.content.map_values(|p: PartView| Atom::Said(p)),
            other => seq![Atom::Call(other)],
        }) + atoms(items.drop_first())
    }
}

/// The places of the blocks that are to be put out, from the `n`th on: texts and tool uses.
pub open spec fn shown(blocks: Seq<JsonView>, n: int) -> Seq<int>
    decreases blocks.len() - n,
{
    if n < 0 || n >= blocks.len() {
        Seq::empty()
    } else if blocks[n].get("type"@) == Some(JsonView::Text("text"@)) || blocks[n].get("type"@)
        == Some(JsonView::Text("tool_use"@)) {
        seq![n] + shown(blocks, n + 1)
    } else {
        shown(blocks, n + 1)
    }
}

/// Whether a block is put out as it must be: a text as a text, or as a refusal in an answer that
/// refuses, and a tool use as a call that asks for the same.
pub open spec fn put_out(
    block: JsonView,
    place: int,
    atom: Atom,
    message_id: Seq<char>,
    completed: bool,
    refusal: bool,
    tools: Table,
) -> bool {
    if block.get("type"@) == Some(JsonView::Text("text"@)) {
        block.get("text"@) matches Some(JsonView::Text(text)) && atom == Atom::Said(
            if refusal {
                PartOf::Refusal(text)
            } else {
                PartOf::OutputText(text)
            },
        )
    } else {
        match (block.get("id"@), block.get("name"@), block.get("input"@)) {
            (Some(JsonView::Text(id)), Some(JsonView::Text(name)), Some(input)) => atom matches Atom::Call(
                item,
            ) && asks_for(
                item_json(item),
                message_id,
                place as nat,
                if completed {
                    "completed"@
                } else {
                    "incomplete"@
                },
                id,
                name,
                input,
                tools,
            ),
            _ => false,
        }
    }
}

proof fn lemma_items_join(a: Seq<JsonView>, b: Seq<JsonView>, n: int)
    requires
        0 <= n <= a.len(),
    ensures
        match (items_from(a, n), items_from(b, 0)) {
            (Some(x), Some(y)) => items_from(a + b, n) == Some(x + y),
            _ => items_from(a + b, n) is None,
        },
    decreases a.len() - n,
{
    if n < a.len() {
        lemma_items_join(a, b, n + 1);
        assert((a + b)[n] == a[n]);
        match (item_of(a[n]), items_from(a, n + 1), items_from(b, 0)) {
            (Some(item), Some(x), Some(y)) => {
                assert(seq![item] + (x + y) == (seq![item] + x) + y);
            },
            _ => {},
        }
    } else {
        lemma_items_shift(a, b, 0);
        match items_from(b, 0) {
            Some(y) => {
                assert(Seq::<ItemView>::empty() + y == y);
            },
            None => {},
        }
    }
}

proof fn lemma_items_shift(a: Seq<JsonView>, b: Seq<JsonView>, n: int)
    requires
        0 <= n <= b.len(),
    ensures
        items_from(a + b, a.len() + n) == items_from(b, n),
    decreases b.len() - n,
{
    if n < b.len() {
        assert((a + b)[a.len() + n] == b[n]);
        lemma_items_shift(a, b, n + 1);
    }
}

proof fn lemma_atoms_join(a: Seq<ItemView>, b: Seq<ItemView>)
    ensures
        atoms(a + b) == atoms(a) + atoms(b),
    decreases a.len(),
{
    if a.len() == 0 {
        assert(a + b == b);
        assert(atoms(a) + atoms(b) == atoms(b));
    } else {
        assert((a + b).drop_first() == a.drop_first() + b);
        assert((a + b)[0] == a[0]);
        lemma_atoms_join(a.drop_first(), b);
        let first = match a[0] {
            ItemOf::Message(m) => m.content.map_values(|p: PartView| Atom::Said(p)),
            other => seq![Atom::Call(other)],
        };
        assert(first + (atoms(a.drop_first()) + atoms(b)) == (first + atoms(a.drop_first()))
            + atoms(b));
    }
}

/// What is put out of a message that is open.
pub open spec fn open_atoms(content: Option<(nat, Seq<PartView>)>) -> Seq<Atom> {
    match content {
        Some((_, parts)) => parts.map_values(|p: PartView| Atom::Said(p)),
        None => Seq::empty(),
    }
}

pub open spec fn open_json(content: Option<(nat, Seq<PartView>)>) -> Option<(nat, Seq<JsonView>)> {
    match content {
        Some((index, parts)) => Some((index, written(parts))),
        None => None,
    }
}

proof fn lemma_flushed(frame: FrameOf<Seq<char>>, open: Option<(nat, Seq<PartView>)>)
    ensures
        items_from(frame.flushed(open_json(open)), 0) matches Some(items) && atoms(items)
            == open_atoms(open) && items.len() <= 1 && (open matches Some((index, parts)) ==> items
            == seq![last_message(frame, index, parts)]) && (open is None ==> items.len() == 0),
{
    match open {
        Some((index, parts)) => {
            lemma_message_read(frame, index, parts);
            let value = frame.message(index, written(parts));
            assert(frame.flushed(open_json(open)) == seq![value]);
            reveal_with_fuel(items_from, 2);
            let item = last_message(frame, index, parts);
            assert(items_from(seq![value], 0) == Some(seq![item] + Seq::<ItemView>::empty()));
            assert(seq![item] + Seq::<ItemView>::empty() == seq![item]);
            reveal_with_fuel(atoms, 2);
            assert(seq![item].drop_first() == Seq::<ItemView>::empty());
            assert(open_atoms(open) + Seq::<Atom>::empty() == open_atoms(open));
        },
        None => {
            assert(frame.flushed(open_json(open)) == Seq::<JsonView>::empty());
        },
    }
}

/// Whether a raw block and what is read of it go together.
pub open spec fn reads(raw: Seq<JsonView>, blocks: Seq<BlockView>) -> bool {
    raw.len() == blocks.len() && forall|i: int|
        #![trigger raw[i], blocks[i]]
        0 <= i < raw.len() ==> block_of(raw[i]) == Some(blocks[i])
}

pub(crate) proof fn lemma_blocks_read(raw: Seq<JsonView>, n: int)
    requires
        0 <= n <= raw.len(),
        blocks_from(raw, n) is Some,
    ensures
        reads(raw.skip(n), blocks_from(raw, n)->0),
    decreases raw.len() - n,
{
    if n < raw.len() {
        lemma_blocks_read(raw, n + 1);
        let all = blocks_from(raw, n)->0;
        let rest = blocks_from(raw, n + 1)->0;
        assert forall|i: int|
            #![trigger raw.skip(n)[i], all[i]]
            0 <= i < raw.skip(n).len() implies block_of(raw.skip(n)[i]) == Some(all[i]) by {
            if i > 0 {
                assert(raw.skip(n)[i] == raw.skip(n + 1)[i - 1]);
                assert(all[i] == rest[i - 1]);
            }
        }
    }
}

/// Whether atoms are what the blocks at some places are put out as.
pub open spec fn all_put_out(
    raw: Seq<JsonView>,
    places: Seq<int>,
    out: Seq<Atom>,
    frame: FrameOf<Seq<char>>,
    tools: Table,
) -> bool {
    out.len() == places.len() && forall|k: int|
        0 <= k < out.len() ==> put_out(
            raw[places[k]],
            places[k],
            #[trigger] out[k],
            frame.message_id,
            frame.completed,
            frame.refusal,
            tools,
        )
}

/// Whether no two messages stand next to each other.
pub open spec fn messages_apart(items: Seq<ItemView>) -> bool {
    forall|k: int, l: int|
        #![trigger items[k], items[l]]
        0 <= k && l == k + 1 && l < items.len() ==> !(items[k] is Message && items[l] is Message)
}

/// Whether every message is named after its answer and a place in it, is as complete as its answer
/// and of its phase.
pub open spec fn marked(
    items: Seq<ItemView>,
    message_id: Seq<char>,
    completed: bool,
    phase: MessagePhase,
) -> bool {
    forall|k: int|
        0 <= k < items.len() && items[k] is Message ==> marks(
            #[trigger] items[k],
            message_id,
            completed,
            phase,
        )
}

/// Whether a message is named after its answer and a place in it, is as complete as its answer and
/// of its phase.
pub open spec fn marks(
    item: ItemView,
    message_id: Seq<char>,
    completed: bool,
    phase: MessagePhase,
) -> bool {
    match item {
        ItemOf::Message(m) => {
            &&& m.phase == Some(phase)
            &&& m.status == OutputStatus::Completed <==> completed
            &&& m.status == OutputStatus::Incomplete <==> !completed
            &&& exists|place: nat| m.id == "msg"@ + "_"@ + message_id + "_"@ + #[trigger] decimal(
                place,
            )
        },
        _ => false,
    }
}

proof fn lemma_last_marks(frame: FrameOf<Seq<char>>, index: nat, parts: Seq<PartView>)
    ensures
        marks(
            last_message(frame, index, parts),
            frame.message_id,
            frame.completed,
            frame.phase,
        ),
{
    assert(decimal(index) == decimal(index));
}

#[verifier::rlimit(60)]
pub(crate) proof fn lemma_built(
    frame: FrameOf<Seq<char>>,
    raw: Seq<JsonView>,
    blocks: Seq<BlockView>,
    tools: Table,
    i: int,
    open: Option<(nat, Seq<PartView>)>,
)
    requires
        0 <= i <= blocks.len(),
        reads(raw, blocks),
        forall|k: int| 0 <= k < raw.len() ==> block_ok(#[trigger] raw[k], tools),
    ensures
        ({
            let (vals, all) = items_built(frame, blocks, tools, i, open_json(open));
            &&& all
            &&& items_from(vals, 0) matches Some(items) && ({
                let said = open_atoms(open);
                &&& atoms(items).len() >= said.len()
                &&& atoms(items).take(said.len() as int) == said
                &&& all_put_out(
                    raw,
                    shown(raw, i),
                    atoms(items).skip(said.len() as int),
                    frame,
                    tools,
                )
                &&& messages_apart(items)
                &&& marked(items, frame.message_id, frame.completed, frame.phase)
                &&& open is None && shown(raw, i).len() == 0 ==> vals.len() == 0
                &&& shown(raw, i).len() > 0 ==> vals.len() > 0
            })
        }),
    decreases blocks.len() - i,
{
    let (vals, all) = items_built(frame, blocks, tools, i, open_json(open));
    let said = open_atoms(open);
    if i >= blocks.len() {
        lemma_flushed(frame, open);
        let items = items_from(vals, 0)->0;
        if open is Some {
            lemma_last_marks(frame, (open->0).0, (open->0).1);
        }
        assert(atoms(items).take(said.len() as int) == said);
        assert(atoms(items).skip(said.len() as int) == Seq::<Atom>::empty());
    } else {
        assert(block_of(raw[i]) == Some(blocks[i]));
        assert(block_ok(raw[i], tools));
        lemma_block_kinds();
        match blocks[i] {
            BlockOf::Text { text, .. } => {
                let part = if frame.refusal {
                    PartOf::Refusal(text)
                } else {
                    PartOf::OutputText(text)
                };
                let (index, parts) = match open {
                    Some((index, parts)) => (index, parts),
                    None => (i as nat, Seq::<PartView>::empty()),
                };
                let next = Some((index, parts.push(part)));
                assert(written(parts.push(part)) == written(parts).push(part_json(part)));
                assert(written(Seq::<PartView>::empty()) == Seq::<JsonView>::empty());
                lemma_built(frame, raw, blocks, tools, i + 1, next);
                let items = items_from(vals, 0)->0;
                let out = atoms(items);
                let more = open_atoms(next);
                assert(more == said.push(Atom::Said(part))) by {
                    assert(parts.push(part).map_values(|p: PartView| Atom::Said(p))
                        == parts.map_values(|p: PartView| Atom::Said(p)).push(Atom::Said(part)));
                    if open is None {
                        assert(parts.map_values(|p: PartView| Atom::Said(p)) == said);
                    }
                }
                assert(out.take(said.len() as int) == said) by {
                    assert forall|k: int| 0 <= k < said.len() implies out[k] == said[k] by {
                        assert(out.take(more.len() as int)[k] == more[k]);
                    }
                }
                assert(out[said.len() as int] == Atom::Said(part)) by {
                    assert(out.take(more.len() as int)[said.len() as int] == more[said.len() as int]);
                }
                let tail = out.skip(said.len() as int);
                let rest = out.skip(more.len() as int);
                assert(shown(raw, i) == seq![i] + shown(raw, i + 1));
                assert forall|k: int| 0 <= k < tail.len() implies put_out(
                    raw[shown(raw, i)[k]],
                    shown(raw, i)[k],
                    #[trigger] tail[k],
                    frame.message_id,
                    frame.completed,
                    frame.refusal,
                    tools,
                ) by {
                    if k > 0 {
                        assert(tail[k] == rest[k - 1]);
                        assert(shown(raw, i)[k] == shown(raw, i + 1)[k - 1]);
                    }
                }
            },
            BlockOf::Thinking | BlockOf::RedactedThinking => {
                lemma_built(frame, raw, blocks, tools, i + 1, open);
            },
            BlockOf::ToolUse { id, name, input, .. } => {
                lemma_call_asks_for_what_was_asked(
                    frame.message_id,
                    i as nat,
                    frame.status(),
                    id,
                    name,
                    input,
                    tools,
                );
                let value = tool_item(
                    frame.message_id,
                    i as nat,
                    frame.status(),
                    id,
                    name,
                    input,
                    tools,
                )->0;
                let item = item_of(value)->0;
                lemma_built(frame, raw, blocks, tools, i + 1, None);
                lemma_flushed(frame, open);
                let (rest_vals, _) = items_built(frame, blocks, tools, i + 1, None);
                let flushed = frame.flushed(open_json(open));
                let before = items_from(flushed, 0)->0;
                let after = items_from(rest_vals, 0)->0;
                assert(items_from(seq![value], 0) == Some(seq![item])) by {
                    reveal_with_fuel(items_from, 2);
                    assert(seq![item] + Seq::<ItemView>::empty() == seq![item]);
                }
                lemma_items_join(flushed, seq![value], 0);
                lemma_items_join(flushed + seq![value], rest_vals, 0);
                let items = before + seq![item] + after;
                assert(items_from(vals, 0) == Some(items));
                if open is Some {
                    lemma_last_marks(frame, (open->0).0, (open->0).1);
                }
                assert forall|k: int| 0 <= k < items.len() && items[k] is Message implies marks(
                    #[trigger] items[k],
                    frame.message_id,
                    frame.completed,
                    frame.phase,
                ) by {
                    if k < before.len() {
                        assert(items[k] == before[k]);
                    } else if k == before.len() {
                        assert(items[k] == item);
                    } else {
                        assert(items[k] == after[k - before.len() - 1]);
                    }
                }
                lemma_atoms_join(before, seq![item]);
                lemma_atoms_join(before + seq![item], after);
                assert(atoms(seq![item]) == seq![Atom::Call(item)]) by {
                    reveal_with_fuel(atoms, 2);
                    assert(seq![item].drop_first() == Seq::<ItemView>::empty());
                    assert(seq![Atom::Call(item)] + Seq::<Atom>::empty() == seq![Atom::Call(item)]);
                }
                let out = atoms(items);
                assert(out == said + seq![Atom::Call(item)] + atoms(after));
                assert(out.take(said.len() as int) == said);
                let tail = out.skip(said.len() as int);
                assert(tail == seq![Atom::Call(item)] + atoms(after));
                assert(shown(raw, i) == seq![i] + shown(raw, i + 1));
                assert(atoms(after).skip(0) == atoms(after));
                assert forall|k: int| 0 <= k < tail.len() implies put_out(
                    raw[shown(raw, i)[k]],
                    shown(raw, i)[k],
                    #[trigger] tail[k],
                    frame.message_id,
                    frame.completed,
                    frame.refusal,
                    tools,
                ) by {
                    if k > 0 {
                        assert(tail[k] == atoms(after).skip(0)[k - 1]);
                        assert(shown(raw, i)[k] == shown(raw, i + 1)[k - 1]);
                    } else {
                        assert(tail[0] == Atom::Call(item));
                    }
                }
                assert forall|k: int, l: int|
                    #![trigger items[k], items[l]]
                    0 <= k && l == k + 1 && l < items.len() implies !(items[k] is Message
                    && items[l] is Message) by {
                    if l < before.len() {
                    } else if l == before.len() {
                        assert(items[l] == item);
                    } else if k == before.len() {
                        assert(items[k] == item);
                    } else {
                        let shift = before.len() + 1;
                        assert(items[k] == after[k - shift]);
                        assert(items[l] == after[l - shift]);
                    }
                }
                assert(vals.len() > 0);
            },
        }
    }
}

/// A refusal without a word is a message that is read.
pub(crate) proof fn lemma_empty_refusal(frame: FrameOf<Seq<char>>)
    ensures
        items_from(
            seq![
                frame.message(0, seq![part_json(PartOf::Refusal(Seq::<char>::empty()))]),
            ],
            0,
        ) is Some,
{
    let parts = seq![PartOf::<Seq<char>>::Refusal(Seq::empty())];
    assert(written(parts) == seq![part_json(PartOf::Refusal(Seq::<char>::empty()))]);
    lemma_flushed(frame, Some((0, parts)));
}

/// Everything that the model said and asked for is put out, in order and once, and nothing else
/// is, except for an answer that refuses without a word. Texts that no tool use parts are one
/// message.
pub proof fn lemma_answer_is_put_out(
    v: JsonView,
    model: Seq<char>,
    tools: Table,
    limit: usize,
    created_at: u64,
    t: TranslatedView,
    raw: Seq<JsonView>,
    message_id: Seq<char>,
    reason: Seq<char>,
)
    requires
        converted(v, model, tools, limit, created_at) == Ok::<TranslatedView, AIError>(t),
        v.get("content"@) == Some(JsonView::Array(raw)),
        v.get("id"@) == Some(JsonView::Text(message_id)),
        v.get("stop_reason"@) == Some(JsonView::Text(reason)),
    ensures
        ({
            let places = shown(raw, 0);
            let out = atoms(t.response.output);
            let items = t.response.output;
            &&& places.len() == 0 && reason == "refusal"@ ==> out == seq![
                Atom::Said(PartOf::Refusal(Seq::<char>::empty())),
            ]
            &&& places.len() == 0 && reason != "refusal"@ ==> items.len() == 0
            &&& places.len() > 0 ==> out.len() == places.len()
            &&& forall|k: int|
                0 <= k < places.len() ==> put_out(
                    raw[places[k]],
                    places[k],
                    #[trigger] out[k],
                    message_id,
                    reason != "max_tokens"@ && reason != "model_context_window_exceeded"@,
                    reason == "refusal"@,
                    tools,
                )
            &&& forall|k: int, l: int|
                #![trigger items[k], items[l]]
                0 <= k && l == k + 1 && l < items.len() ==> !(items[k] is Message
                    && items[l] is Message)
            &&& marked(
                items,
                message_id,
                reason != "max_tokens"@ && reason != "model_context_window_exceeded"@,
                if reason == "tool_use"@ {
                    MessagePhase::Commentary
                } else {
                    MessagePhase::FinalAnswer
                },
            )
        }),
{
    lemma_reasons();
    let a = answer_of(v)->0;
    let end = ending(a.stop_reason)->0;
    let frame = FrameOf {
        message_id: a.id,
        completed: end == Ending::Completed,
        phase: phase_of(a.stop_reason),
        refusal: a.stop_reason == StopReason::Refusal,
    };
    lemma_blocks_read(raw, 0);
    assert(raw.skip(0) == raw);
    lemma_built(frame, raw, a.content, tools, 0, None);
    let built = items_built(frame, a.content, tools, 0, None).0;
    let out = atoms(t.response.output);
    if frame.refusal && built.len() == 0 {
        let parts = seq![PartOf::<Seq<char>>::Refusal(Seq::empty())];
        assert(written(parts) == seq![part_json(PartOf::Refusal(Seq::<char>::empty()))]);
        lemma_flushed(frame, Some((0, parts)));
        lemma_last_marks(frame, 0, parts);
        assert(open_atoms(Some((0, parts))) == seq![
            Atom::Said(PartOf::Refusal(Seq::<char>::empty())),
        ]);
    } else {
        assert(out.skip(0) == out);
        assert forall|k: int| 0 <= k < shown(raw, 0).len() implies put_out(
            raw[shown(raw, 0)[k]],
            shown(raw, 0)[k],
            #[trigger] out[k],
            message_id,
            frame.completed,
            frame.refusal,
            tools,
        ) by {
            assert(out.skip(0)[k] == out[k]);
        }
    }
}

/// The text of a piece, as the client reads it.
pub proof fn lemma_piece(part: PartView)
    ensures
        match part {
            PartOf::OutputText(text) => part_json(part).get("type"@) == Some(
                JsonView::Text("output_text"@),
            ) && part_json(part).get("text"@) == Some(JsonView::Text(text)),
            PartOf::Refusal(text) => part_json(part).get("type"@) == Some(
                JsonView::Text("refusal"@),
            ) && part_json(part).get("refusal"@) == Some(JsonView::Text(text)),
        },
{
    broadcast use lemma_put_lookup;

    lemma_part_names();
}

/// A message, as the client reads it: from the assistant, with its pieces in order.
pub proof fn lemma_message(m: crate::responses::MessageView)
    ensures
        ({
            let j = item_json(ItemOf::Message(m));
            &&& j.get("type"@) == Some(JsonView::Text("message"@))
            &&& j.get("id"@) == Some(JsonView::Text(m.id))
            &&& j.get("role"@) == Some(JsonView::Text("assistant"@))
            &&& j.get("status"@) == Some(
                JsonView::Text(
                    match m.status {
                        OutputStatus::InProgress => "in_progress"@,
                        OutputStatus::Completed => "completed"@,
                        OutputStatus::Incomplete => "incomplete"@,
                    },
                ),
            )
            &&& j.get("phase"@) == (match m.phase {
                Some(MessagePhase::Commentary) => Some(JsonView::Text("commentary"@)),
                Some(MessagePhase::FinalAnswer) => Some(JsonView::Text("final_answer"@)),
                None => None,
            })
            &&& j.get("content"@) matches Some(JsonView::Array(parts)) && parts.len()
                == m.content.len() && forall|i: int|
                0 <= i < parts.len() ==> #[trigger] parts[i] == part_json(m.content[i])
        }),
{
    broadcast use lemma_put_lookup;

    lemma_message_names();
}

/// A count, where a value tells one; 0 where it tells none.
pub open spec fn count_at(v: JsonView, name: Seq<char>) -> int {
    match v.get(name) {
        Some(JsonView::Unsigned(n)) => n as int,
        _ => 0,
    }
}

/// A response tells which answer it is, the model that was asked for, when it was made, whether
/// the answer is complete and if not why, the tokens that were taken with those of the cache among
/// the input, and the tier, all as the answer has them.
pub proof fn lemma_response_head(
    v: JsonView,
    model: Seq<char>,
    tools: Table,
    limit: usize,
    created_at: u64,
    t: TranslatedView,
    message_id: Seq<char>,
    reason: Seq<char>,
)
    requires
        converted(v, model, tools, limit, created_at) == Ok::<TranslatedView, AIError>(t),
        v.get("id"@) == Some(JsonView::Text(message_id)),
        v.get("stop_reason"@) == Some(JsonView::Text(reason)),
    ensures
        ({
            let j = response_json(t.response);
            let cut = reason == "max_tokens"@ || reason == "model_context_window_exceeded"@;
            &&& j.get("id"@) == Some(JsonView::Text("resp_"@ + message_id))
            &&& j.get("object"@) == Some(JsonView::Text("response"@))
            &&& j.get("created_at"@) == Some(JsonView::Unsigned(created_at))
            &&& j.get("model"@) == Some(JsonView::Text(model))
            &&& j.get("status"@) == Some(
                JsonView::Text(
                    if cut {
                        "incomplete"@
                    } else {
                        "completed"@
                    },
                ),
            )
            &&& if cut {
                j.get("incomplete_details"@) matches Some(why) && why.get("reason"@) == Some(
                    JsonView::Text("max_output_tokens"@),
                )
            } else {
                j.get("incomplete_details"@) is None
            }
            &&& reason != "pause_turn"@
            &&& j.get("output"@) matches Some(JsonView::Array(list)) && list.len()
                == t.response.output.len() && forall|i: int|
                0 <= i < list.len() ==> #[trigger] list[i] == item_json(t.response.output[i])
            &&& match (v.get("usage"@), j.get("usage"@)) {
                (Some(took), Some(told)) => {
                    let read = count_at(took, "cache_read_input_tokens"@);
                    let creation = count_at(took, "cache_creation_input_tokens"@);
                    let input = count_at(took, "input_tokens"@) + read + creation;
                    let output = count_at(took, "output_tokens"@);
                    let thought = match took.get("output_tokens_details"@) {
                        Some(details) => count_at(details, "thinking_tokens"@),
                        None => 0,
                    };
                    &&& told.get("input_tokens"@) == Some(JsonView::Unsigned(input as u64))
                    &&& told.get("output_tokens"@) == Some(JsonView::Unsigned(output as u64))
                    &&& told.get("total_tokens"@) == Some(
                        JsonView::Unsigned((input + output) as u64),
                    )
                    &&& input + output <= 0xffff_ffff
                    &&& thought <= output
                    &&& told.get("input_tokens_details"@) matches Some(split) && split.get(
                        "cached_tokens"@,
                    ) == Some(JsonView::Unsigned(read as u64)) && split.get("cache_write_tokens"@)
                        == Some(JsonView::Unsigned(creation as u64))
                    &&& told.get("output_tokens_details"@) matches Some(split) && split.get(
                        "reasoning_tokens"@,
                    ) == Some(JsonView::Unsigned(thought as u64))
                    &&& match took.get("service_tier"@) {
                        Some(JsonView::Text(tier)) => {
                            ||| tier == "standard"@ && j.get("service_tier"@) == Some(
                                JsonView::Text("default"@),
                            )
                            ||| tier == "priority"@ && j.get("service_tier"@) == Some(
                                JsonView::Text("priority"@),
                            )
                        },
                        _ => j.get("service_tier"@) is None,
                    }
                    &&& t.input_tokens == count_at(took, "input_tokens"@)
                },
                _ => false,
            }
        }),
{
    broadcast use lemma_put_lookup;

    lemma_reasons();
    lemma_head_names();
    lemma_count_names();
    lemma_cache_names();
}

} // verus!
