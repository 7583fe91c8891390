//! What holds of every answer that comes whole: a good one is converted, and one that is not as it
//! must be is refused.
use vstd::prelude::*;

use crate::answer::{item_visited, logged, part_visited};
use crate::decode::{block_of, usage_of};
use crate::error::{invalid, AIError};
use crate::json::{field, lemma_position, only, Fields, JsonView};
use crate::messages::StopReason;
use crate::output_laws::{lemma_blocks_read, lemma_built};
use crate::response::{
    answer_of, block_ok, blocks_from, blocks_ok, converted, is_tool_use, items_built, items_from,
    response_ok, too_large, tool_ids_of, FrameOf, TranslatedView,
};
use crate::responses::{ItemOf, OutputItem, PartOf};
use crate::text::named;
use crate::tools::{tool_named, DeclaredOf, Table};
use crate::usage::{ending, phase_of, Ending, ServiceTier};

verus! {

proof fn lemma_reason_names()
    ensures
        "end_turn"@ != "max_tokens"@,
        "end_turn"@ != "stop_sequence"@,
        "end_turn"@ != "tool_use"@,
        "end_turn"@ != "pause_turn"@,
        "end_turn"@ != "refusal"@,
        "end_turn"@ != "model_context_window_exceeded"@,
        "max_tokens"@ != "stop_sequence"@,
        "max_tokens"@ != "tool_use"@,
        "max_tokens"@ != "pause_turn"@,
        "max_tokens"@ != "refusal"@,
        "max_tokens"@ != "model_context_window_exceeded"@,
        "stop_sequence"@ != "tool_use"@,
        "stop_sequence"@ != "pause_turn"@,
        "stop_sequence"@ != "refusal"@,
        "stop_sequence"@ != "model_context_window_exceeded"@,
        "tool_use"@ != "pause_turn"@,
        "tool_use"@ != "refusal"@,
        "tool_use"@ != "model_context_window_exceeded"@,
        "pause_turn"@ != "refusal"@,
        "pause_turn"@ != "model_context_window_exceeded"@,
        "refusal"@ != "model_context_window_exceeded"@,
{
    reveal_strlit("end_turn");
    reveal_strlit("max_tokens");
    reveal_strlit("stop_sequence");
    reveal_strlit("tool_use");
    reveal_strlit("pause_turn");
    reveal_strlit("refusal");
    reveal_strlit("model_context_window_exceeded");
    assert("end_turn"@.len() == 8);
    assert("max_tokens"@.len() == 10);
    assert("stop_sequence"@.len() == 13);
    assert("tool_use"@.len() == 8);
    assert("pause_turn"@.len() == 10);
    assert("refusal"@.len() == 7);
    assert("model_context_window_exceeded"@.len() == 29);
    assert("end_turn"@[0] == 'e');
    assert("tool_use"@[0] == 't');
    assert("max_tokens"@[0] == 'm');
    assert("pause_turn"@[0] == 'p');
}

proof fn lemma_kinds()
    ensures
        "text"@ != "tool_use"@,
        "text"@ != "thinking"@,
        "text"@ != "redacted_thinking"@,
        "tool_use"@ != "thinking"@,
        "tool_use"@ != "redacted_thinking"@,
        "thinking"@ != "redacted_thinking"@,
{
    reveal_strlit("text");
    reveal_strlit("tool_use");
    reveal_strlit("thinking");
    reveal_strlit("redacted_thinking");
    assert("text"@.len() == 4);
    assert("tool_use"@.len() == 8);
    assert("thinking"@.len() == 8);
    assert("redacted_thinking"@.len() == 17);
    assert("tool_use"@[1] == 'o');
    assert("thinking"@[1] == 'h');
}

proof fn lemma_fields()
    ensures
        "type"@ != "text"@,
        "type"@ != "id"@,
        "type"@ != "name"@,
        "type"@ != "input"@,
        "type"@ != "caller"@,
        "type"@ != "citations"@,
        "type"@ != "cache_control"@,
        "text"@ != "id"@,
        "text"@ != "name"@,
        "text"@ != "input"@,
        "text"@ != "caller"@,
        "text"@ != "citations"@,
        "text"@ != "cache_control"@,
        "id"@ != "name"@,
        "id"@ != "input"@,
        "id"@ != "caller"@,
        "id"@ != "citations"@,
        "id"@ != "cache_control"@,
        "name"@ != "input"@,
        "name"@ != "caller"@,
        "name"@ != "citations"@,
        "name"@ != "cache_control"@,
        "input"@ != "caller"@,
        "input"@ != "citations"@,
        "input"@ != "cache_control"@,
        "caller"@ != "citations"@,
        "caller"@ != "cache_control"@,
        "citations"@ != "cache_control"@,
{
    reveal_strlit("type");
    reveal_strlit("text");
    reveal_strlit("id");
    reveal_strlit("name");
    reveal_strlit("input");
    reveal_strlit("caller");
    reveal_strlit("citations");
    reveal_strlit("cache_control");
    assert("type"@.len() == 4);
    assert("text"@.len() == 4);
    assert("id"@.len() == 2);
    assert("name"@.len() == 4);
    assert("input"@.len() == 5);
    assert("caller"@.len() == 6);
    assert("citations"@.len() == 9);
    assert("cache_control"@.len() == 13);
    assert("type"@[1] == 'y');
    assert("text"@[1] == 'e');
    assert("type"@[0] == 't');
    assert("name"@[0] == 'n');
    assert("text"@[0] == 't');
}

proof fn lemma_counts()
    ensures
        "input_tokens"@ != "output_tokens"@,
        "input_tokens"@ != "cache_creation_input_tokens"@,
        "input_tokens"@ != "cache_read_input_tokens"@,
        "input_tokens"@ != "service_tier"@,
        "input_tokens"@ != "output_tokens_details"@,
        "output_tokens"@ != "cache_creation_input_tokens"@,
        "output_tokens"@ != "cache_read_input_tokens"@,
        "output_tokens"@ != "service_tier"@,
        "output_tokens"@ != "output_tokens_details"@,
        "cache_creation_input_tokens"@ != "cache_read_input_tokens"@,
        "cache_creation_input_tokens"@ != "service_tier"@,
        "cache_creation_input_tokens"@ != "output_tokens_details"@,
        "cache_read_input_tokens"@ != "service_tier"@,
        "cache_read_input_tokens"@ != "output_tokens_details"@,
        "service_tier"@ != "output_tokens_details"@,
{
    reveal_strlit("input_tokens");
    reveal_strlit("output_tokens");
    reveal_strlit("cache_creation_input_tokens");
    reveal_strlit("cache_read_input_tokens");
    reveal_strlit("service_tier");
    reveal_strlit("output_tokens_details");
    assert("input_tokens"@.len() == 12);
    assert("output_tokens"@.len() == 13);
    assert("cache_creation_input_tokens"@.len() == 27);
    assert("cache_read_input_tokens"@.len() == 23);
    assert("service_tier"@.len() == 12);
    assert("output_tokens_details"@.len() == 21);
    assert("input_tokens"@[0] == 'i');
    assert("service_tier"@[0] == 's');
}


/// Whether a call among blocks has an id.
pub open spec fn id_used(blocks: Seq<JsonView>, id: Seq<char>) -> bool {
    exists|i: int|
        0 <= i < blocks.len() && is_tool_use(#[trigger] blocks[i]) && blocks[i].text_at("id"@)->0
            == id
}

proof fn lemma_ids(blocks: Seq<JsonView>)
    ensures
        forall|i: int|
            0 <= i < blocks.len() && is_tool_use(#[trigger] blocks[i]) ==> tool_ids_of(
                blocks,
            ).contains(blocks[i].text_at("id"@)->0),
        forall|k: int|
            0 <= k < tool_ids_of(blocks).len() ==> id_used(blocks, #[trigger] tool_ids_of(blocks)[k]),
    decreases blocks.len(),
{
    if blocks.len() > 0 {
        let front = blocks.drop_last();
        lemma_ids(front);
        let ids = tool_ids_of(blocks);
        assert forall|i: int| 0 <= i < blocks.len() && is_tool_use(
            #[trigger] blocks[i],
        ) implies ids.contains(blocks[i].text_at("id"@)->0) by {
            if i < front.len() {
                assert(front[i] == blocks[i]);
                let k = choose|k: int|
                    0 <= k < tool_ids_of(front).len() && tool_ids_of(front)[k]
                        == blocks[i].text_at("id"@)->0;
                assert(ids[k] == tool_ids_of(front)[k]);
            } else {
                assert(ids.last() == blocks[i].text_at("id"@)->0);
            }
        }
        assert forall|k: int| 0 <= k < ids.len() implies id_used(blocks, #[trigger] ids[k]) by {
            if k < tool_ids_of(front).len() {
                assert(ids[k] == tool_ids_of(front)[k]);
                assert(id_used(front, tool_ids_of(front)[k]));
                let i = choose|i: int|
                    0 <= i < front.len() && is_tool_use(#[trigger] front[i]) && front[i].text_at(
                        "id"@,
                    )->0 == tool_ids_of(front)[k];
                assert(blocks[i] == front[i]);
            } else {
                assert(is_tool_use(blocks[blocks.len() - 1]));
            }
        }
    }
}

proof fn lemma_ids_differ(blocks: Seq<JsonView>)
    ensures
        tool_ids_of(blocks).no_duplicates() <==> forall|i: int, k: int|
            0 <= i < k < blocks.len() && is_tool_use(#[trigger] blocks[i]) && is_tool_use(
                #[trigger] blocks[k],
            ) ==> blocks[i].text_at("id"@)->0 != blocks[k].text_at("id"@)->0,
    decreases blocks.len(),
{
    if blocks.len() > 0 {
        let front = blocks.drop_last();
        let last = blocks.len() - 1;
        lemma_ids_differ(front);
        lemma_ids(front);
        let ids = tool_ids_of(blocks);
        let before = tool_ids_of(front);
        assert forall|i: int| 0 <= i < front.len() implies front[i] == blocks[i] by {}
        if ids.no_duplicates() {
            assert(before.no_duplicates()) by {
                assert forall|a: int, b: int| 0 <= a < b < before.len() implies before[a]
                    != before[b] by {
                    assert(ids[a] == before[a] && ids[b] == before[b]);
                }
            }
            assert forall|i: int, k: int|
                0 <= i < k < blocks.len() && is_tool_use(#[trigger] blocks[i]) && is_tool_use(
                    #[trigger] blocks[k],
                ) implies blocks[i].text_at("id"@)->0 != blocks[k].text_at("id"@)->0 by {
                if k < last {
                    assert(front[i] == blocks[i] && front[k] == blocks[k]);
                } else {
                    assert(front[i] == blocks[i]);
                    assert(before.contains(front[i].text_at("id"@)->0));
                    let a = choose|a: int|
                        0 <= a < before.len() && before[a] == front[i].text_at("id"@)->0;
                    assert(ids[a] == before[a]);
                    assert(ids[before.len() as int] == blocks[k].text_at("id"@)->0);
                }
            }
        } else {
            if before.no_duplicates() {
                assert(is_tool_use(blocks[last]));
                assert(before.contains(blocks[last].text_at("id"@)->0)) by {
                    if !before.contains(blocks[last].text_at("id"@)->0) {
                        assert forall|a: int, b: int|
                            0 <= a < ids.len() && 0 <= b < ids.len() && a != b implies ids[a]
                            != ids[b] by {
                            if a < before.len() && b < before.len() {
                                assert(ids[a] == before[a] && ids[b] == before[b]);
                            } else if a < before.len() {
                                assert(before.contains(before[a]));
                            } else {
                                assert(before.contains(before[b]));
                            }
                        }
                        assert(ids.no_duplicates());
                    }
                }
                let a = choose|a: int|
                    0 <= a < before.len() && before[a] == blocks[last].text_at("id"@)->0;
                assert(id_used(front, before[a]));
                let i = choose|i: int|
                    0 <= i < front.len() && is_tool_use(#[trigger] front[i]) && front[i].text_at(
                        "id"@,
                    )->0 == before[a];
                assert(blocks[i] == front[i]);
                assert(is_tool_use(blocks[i]) && is_tool_use(blocks[last]));
            } else {
                let (i, k) = choose|i: int, k: int|
                    0 <= i < k < front.len() && is_tool_use(#[trigger] front[i]) && is_tool_use(
                        #[trigger] front[k],
                    ) && front[i].text_at("id"@)->0 == front[k].text_at("id"@)->0;
                assert(blocks[i] == front[i] && blocks[k] == front[k]);
            }
        }
    }
}

/// Whether a block is a text, and nothing else.
pub open spec fn plain_text(v: JsonView) -> bool {
    match v {
        JsonView::Object(o) => {
            &&& field(o, "type"@) == Some(JsonView::Text("text"@))
            &&& field(o, "text"@) is Some
            &&& field(o, "text"@)->0 is Text
            &&& forall|i: int|
                0 <= i < o.len() ==> (#[trigger] o[i]).0 == "type"@ || o[i].0 == "text"@
        },
        _ => false,
    }
}

/// Whether a block is a call of a declared function with an object, and nothing else.
pub open spec fn plain_call(v: JsonView, tools: Table) -> bool {
    match v {
        JsonView::Object(o) => {
            &&& field(o, "type"@) == Some(JsonView::Text("tool_use"@))
            &&& field(o, "id"@) is Some
            &&& field(o, "id"@)->0 is Text
            &&& field(o, "id"@)->0->Text_0.len() > 0
            &&& field(o, "name"@) is Some
            &&& field(o, "name"@)->0 is Text
            &&& field(o, "name"@)->0->Text_0.len() > 0
            &&& tool_named(tools, field(o, "name"@)->0->Text_0) == Some(DeclaredOf::<Seq<char>>::Function)
            &&& field(o, "input"@) is Some
            &&& field(o, "input"@)->0 is Object
            &&& forall|i: int|
                0 <= i < o.len() ==> (#[trigger] o[i]).0 == "type"@ || o[i].0 == "id"@ || o[i].0
                    == "name"@ || o[i].0 == "input"@
        },
        _ => false,
    }
}

/// Whether an answer says and asks as the model may: texts, and calls of declared functions that
/// each have an id of their own; it stops for calls where it has any, and for no calls where it
/// has none; and its counts fit.
pub open spec fn good_answer(v: JsonView, tools: Table, blocks: Seq<JsonView>) -> bool {
    &&& v is Object
    &&& forall|i: int|
        0 <= i < v->Object_0.len() ==> {
            let name = (#[trigger] v->Object_0[i]).0;
            ||| name == "id"@
            ||| name == "type"@
            ||| name == "role"@
            ||| name == "content"@
            ||| name == "model"@
            ||| name == "stop_reason"@
            ||| name == "usage"@
        }
    &&& v.get("stop_sequence"@) is None
    &&& v.get("type"@) == Some(JsonView::Text("message"@))
    &&& v.get("role"@) == Some(JsonView::Text("assistant"@))
    &&& v.get("id"@) is Some && v.get("id"@)->0 is Text && v.get("id"@)->0->Text_0.len() > 0
    &&& v.get("model"@) is Some && v.get("model"@)->0 is Text && v.get("model"@)->0->Text_0.len()
        > 0
    &&& v.get("content"@) == Some(JsonView::Array(blocks))
    &&& forall|i: int|
        0 <= i < blocks.len() ==> plain_text(#[trigger] blocks[i]) || plain_call(blocks[i], tools)
    &&& forall|i: int, k: int|
        0 <= i < k < blocks.len() && plain_call(#[trigger] blocks[i], tools) && plain_call(
            #[trigger] blocks[k],
            tools,
        ) ==> blocks[i].get("id"@) != blocks[k].get("id"@)
    &&& match v.get("stop_reason"@) {
        Some(JsonView::Text(reason)) => {
            ||| reason == "max_tokens"@
            ||| reason == "model_context_window_exceeded"@
            ||| reason == "tool_use"@ && exists|i: int|
                0 <= i < blocks.len() && plain_call(#[trigger] blocks[i], tools)
            ||| (reason == "end_turn"@ || reason == "refusal"@) && forall|i: int|
                0 <= i < blocks.len() ==> !plain_call(#[trigger] blocks[i], tools)
        },
        _ => false,
    }
    &&& match v.get("usage"@) {
        Some(JsonView::Object(usage)) => {
            &&& usage.len() == 2
            &&& match (field(usage, "input_tokens"@), field(usage, "output_tokens"@)) {
                (Some(JsonView::Unsigned(a)), Some(JsonView::Unsigned(b))) => a + b <= u32::MAX,
                _ => false,
            }
        },
        _ => false,
    }
}

proof fn lemma_absent(o: Fields, name: Seq<char>)
    requires
        forall|i: int| 0 <= i < o.len() ==> (#[trigger] o[i]).0 != name,
    ensures
        field(o, name) is None,
{
    lemma_position(o, name, 0);
}

proof fn lemma_good_block(v: JsonView, tools: Table)
    requires
        plain_text(v) || plain_call(v, tools),
    ensures
        block_ok(v, tools),
        block_of(v) is Some,
        is_tool_use(v) <==> plain_call(v, tools),
{
    lemma_kinds();
    lemma_fields();
    let o = v->Object_0;
    let texts = seq!["type", "text"];
    assert(texts[0]@ == "type"@ && texts[1]@ == "text"@);
    let calls = seq!["type", "id", "name", "input", "caller"];
    assert(calls[0]@ == "type"@ && calls[1]@ == "id"@ && calls[2]@ == "name"@ && calls[3]@
        == "input"@);
    if plain_call(v, tools) {
        lemma_absent(o, "caller"@);
    }
}

proof fn lemma_read_all(blocks: Seq<JsonView>, n: int)
    requires
        0 <= n <= blocks.len(),
        forall|i: int| 0 <= i < blocks.len() ==> block_of(#[trigger] blocks[i]) is Some,
    ensures
        blocks_from(blocks, n) is Some,
    decreases blocks.len() - n,
{
    if n < blocks.len() {
        lemma_read_all(blocks, n + 1);
    }
}

proof fn lemma_good_counts(usage: Fields)
    requires
        usage.len() == 2,
        field(usage, "input_tokens"@) is Some,
        field(usage, "output_tokens"@) is Some,
    ensures
        field(usage, "cache_creation_input_tokens"@) is None,
        field(usage, "cache_read_input_tokens"@) is None,
        field(usage, "service_tier"@) is None,
        field(usage, "output_tokens_details"@) is None,
        only(
            usage,
            seq![
                "input_tokens",
                "output_tokens",
                "cache_creation_input_tokens",
                "cache_read_input_tokens",
                "service_tier",
                "cache_creation",
                "inference_geo",
                "output_tokens_details",
            ],
        ),
{
    lemma_counts();
    lemma_position(usage, "input_tokens"@, 0);
    lemma_position(usage, "output_tokens"@, 0);
    lemma_position(usage, "cache_creation_input_tokens"@, 0);
    lemma_position(usage, "cache_read_input_tokens"@, 0);
    lemma_position(usage, "service_tier"@, 0);
    lemma_position(usage, "output_tokens_details"@, 0);
    let list = seq![
        "input_tokens",
        "output_tokens",
        "cache_creation_input_tokens",
        "cache_read_input_tokens",
        "service_tier",
        "cache_creation",
        "inference_geo",
        "output_tokens_details",
    ];
    assert(list[0]@ == "input_tokens"@ && list[1]@ == "output_tokens"@);
    assert forall|i: int| 0 <= i < usage.len() implies named(list, (#[trigger] usage[i]).0) by {
        assert(i == 0 || i == 1);
    }
}

/// A good answer is converted, unless what it comes to is too large.
#[verifier::rlimit(60)]
#[verifier::spinoff_prover]
pub proof fn lemma_good_answer_is_taken(
    v: JsonView,
    model: Seq<char>,
    tools: Table,
    limit: usize,
    created_at: u64,
    blocks: Seq<JsonView>,
)
    requires
        good_answer(v, tools, blocks),
    ensures
        converted(v, model, tools, limit, created_at) is Ok || converted(
            v,
            model,
            tools,
            limit,
            created_at,
        ) == Err::<TranslatedView, AIError>(too_large()),
{
    lemma_reason_names();
    lemma_kinds();
    let o = v->Object_0;
    let usage = v.get("usage"@)->0->Object_0;
    lemma_good_counts(usage);
    assert forall|i: int| 0 <= i < blocks.len() implies block_ok(#[trigger] blocks[i], tools)
        && block_of(blocks[i]) is Some && (is_tool_use(blocks[i]) <==> plain_call(
        blocks[i],
        tools,
    )) by {
        lemma_good_block(blocks[i], tools);
    }
    lemma_ids_differ(blocks);
    lemma_ids(blocks);
    assert forall|i: int, k: int|
        0 <= i < k < blocks.len() && is_tool_use(#[trigger] blocks[i]) && is_tool_use(
            #[trigger] blocks[k],
        ) implies blocks[i].text_at("id"@)->0 != blocks[k].text_at("id"@)->0 by {
        assert(plain_call(blocks[i], tools) && plain_call(blocks[k], tools));
    }
    assert(blocks_ok(blocks, tools));
    let list = seq![
        "id",
        "type",
        "role",
        "content",
        "model",
        "stop_reason",
        "stop_sequence",
        "usage",
        "copilot_usage",
        "stop_details",
    ];
    assert(list[0]@ == "id"@ && list[1]@ == "type"@ && list[2]@ == "role"@ && list[3]@
        == "content"@ && list[4]@ == "model"@ && list[5]@ == "stop_reason"@ && list[7]@
        == "usage"@);
    assert(only(o, list));
    let reason = v.get("stop_reason"@)->0->Text_0;
    let ids = tool_ids_of(blocks);
    if reason == "tool_use"@ {
        let i = choose|i: int| 0 <= i < blocks.len() && plain_call(#[trigger] blocks[i], tools);
        assert(is_tool_use(blocks[i]));
        assert(ids.contains(blocks[i].text_at("id"@)->0));
        assert(ids.len() > 0);
    }
    if reason == "end_turn"@ || reason == "refusal"@ {
        if ids.len() > 0 {
            assert(id_used(blocks, ids[0]));
            let i = choose|i: int|
                0 <= i < blocks.len() && is_tool_use(#[trigger] blocks[i]) && blocks[i].text_at(
                    "id"@,
                )->0 == ids[0];
            assert(plain_call(blocks[i], tools));
            assert(false);
        }
    }
    assert(response_ok(v, tools));
    lemma_read_all(blocks, 0);
    assert(usage_of(v.get("usage"@)) is Some);
    assert(answer_of(v) is Some);
    let a = answer_of(v)->0;
    let frame = FrameOf {
        message_id: a.id,
        completed: ending(a.stop_reason)->0 == Ending::Completed,
        phase: phase_of(a.stop_reason),
        refusal: a.stop_reason == StopReason::Refusal,
    };
    lemma_blocks_read(blocks, 0);
    assert(blocks.skip(0) == blocks);
    lemma_built(frame, blocks, a.content, tools, 0, None);
    let built = items_built(frame, a.content, tools, 0, None).0;
    assert(items_from(built, 0) is Some);
    if frame.refusal && built.len() == 0 {
        crate::output_laws::lemma_empty_refusal(frame);
    }
}

/// An answer that is not as it must be is refused: one that is no message of the assistant, that
/// has no id or model, that does not say why it stopped, that pauses, or that stops for calls
/// without any or not for calls with some.
pub proof fn lemma_bad_answer_is_refused(
    v: JsonView,
    model: Seq<char>,
    tools: Table,
    limit: usize,
    created_at: u64,
)
    ensures
        ({
            let refused = converted(v, model, tools, limit, created_at) == Err::<
                TranslatedView,
                AIError,
            >(invalid());
            let reason = v.get("stop_reason"@);
            &&& v.get("type"@) != Some(JsonView::Text("message"@)) ==> refused
            &&& v.get("role"@) != Some(JsonView::Text("assistant"@)) ==> refused
            &&& !(v.get("id"@) is Some && v.get("id"@)->0 is Text && v.get("id"@)->0->Text_0.len()
                > 0) ==> refused
            &&& !(v.get("model"@) is Some && v.get("model"@)->0 is Text && v.get(
                "model"@,
            )->0->Text_0.len() > 0) ==> refused
            &&& !(v.get("usage"@) is Some && v.get("usage"@)->0 is Object) ==> refused
            &&& !(reason is Some && reason->0 is Text) ==> refused
            &&& reason == Some(JsonView::Text("pause_turn"@)) ==> refused
            &&& reason != Some(JsonView::Text("stop_sequence"@)) && v.get("stop_sequence"@) is Some
                && v.get("stop_sequence"@) != Some(JsonView::Null) ==> refused
            &&& match v.get("content"@) {
                Some(JsonView::Array(blocks)) => {
                    &&& (exists|i: int|
                        0 <= i < blocks.len() && !block_ok(#[trigger] blocks[i], tools)) ==> refused
                    &&& (exists|i: int, k: int|
                        0 <= i < k < blocks.len() && is_tool_use(#[trigger] blocks[i])
                            && is_tool_use(#[trigger] blocks[k]) && blocks[i].text_at("id"@)
                            == blocks[k].text_at("id"@)) ==> refused
                    &&& reason == Some(JsonView::Text("tool_use"@)) && (forall|i: int|
                        0 <= i < blocks.len() ==> !is_tool_use(#[trigger] blocks[i])) ==> refused
                    &&& (reason == Some(JsonView::Text("end_turn"@)) || reason == Some(
                        JsonView::Text("refusal"@),
                    ) || reason == Some(JsonView::Text("stop_sequence"@))) && (exists|i: int|
                        0 <= i < blocks.len() && is_tool_use(#[trigger] blocks[i])) ==> refused
                },
                _ => refused,
            }
        }),
{
    lemma_reason_names();
    match v.get("content"@) {
        Some(JsonView::Array(blocks)) => {
            lemma_ids(blocks);
            lemma_ids_differ(blocks);
            let ids = tool_ids_of(blocks);
            if ids.len() > 0 {
                assert(id_used(blocks, ids[0]));
            }
            if exists|i: int| 0 <= i < blocks.len() && is_tool_use(#[trigger] blocks[i]) {
                let i = choose|i: int| 0 <= i < blocks.len() && is_tool_use(#[trigger] blocks[i]);
                assert(ids.contains(blocks[i].text_at("id"@)->0));
                assert(ids.len() > 0);
            }
        },
        _ => {},
    }
}

/// A block is as it must be only where it is a text, a thought or a call, and a call only of a
/// tool that was declared.
pub proof fn lemma_good_blocks(o: Fields, tools: Table)
    ensures
        block_ok(JsonView::Object(o), tools) ==> {
            let kind = field(o, "type"@);
            ||| kind == Some(JsonView::Text("text"@)) && field(o, "text"@) is Some && field(
                o,
                "text"@,
            )->0 is Text
            ||| kind == Some(JsonView::Text("thinking"@))
            ||| kind == Some(JsonView::Text("redacted_thinking"@))
            ||| kind == Some(JsonView::Text("tool_use"@)) && field(o, "id"@) is Some && field(
                o,
                "id"@,
            )->0 is Text && field(o, "id"@)->0->Text_0.len() > 0 && field(o, "name"@) is Some
                && field(o, "name"@)->0 is Text && tool_named(
                tools,
                field(o, "name"@)->0->Text_0,
            ) is Some && field(o, "input"@) is Some && field(o, "input"@)->0 is Object
        },
{
    lemma_kinds();
}

/// What is logged of an answer: what the upstream counted of the input without the cache, of the
/// output, their sum, the cache and the thoughts, the model that answered and its tier.
pub proof fn lemma_logged(t: TranslatedView)
    ensures
        ({
            let l = logged(t);
            &&& l.input_tokens == Some(t.input_tokens)
            &&& l.cache_creation_input_tokens == t.cache_creation_input_tokens
            &&& l.reasoning_tokens == t.reasoning_tokens
            &&& l.provider_model == Some(t.provider_model)
            &&& t.response.usage is None ==> l.output_tokens is None && l.total_tokens is None
                && l.cached_input_tokens is None
            &&& t.response.usage is Some ==> {
                &&& l.output_tokens is Some
                &&& l.output_tokens->0 == t.response.usage->0.output_tokens
                &&& l.cached_input_tokens is Some
                &&& l.cached_input_tokens->0
                    == t.response.usage->0.input_tokens_details.cached_tokens
                &&& t.input_tokens + t.response.usage->0.output_tokens <= u64::MAX
                    ==> l.total_tokens is Some && l.total_tokens->0 == t.input_tokens
                    + t.response.usage->0.output_tokens
            }
            &&& t.response.service_tier is None ==> l.service_tier is None
            &&& t.response.service_tier == Some(ServiceTier::Default) ==> l.service_tier == Some(
                "standard"@,
            )
            &&& t.response.service_tier == Some(ServiceTier::Priority) ==> l.service_tier == Some(
                "priority"@,
            )
        }),
{
}

/// What is logged of the input is what the upstream counted of it, and of the cache and the
/// thoughts likewise.
pub proof fn lemma_counted(
    v: JsonView,
    model: Seq<char>,
    tools: Table,
    limit: usize,
    created_at: u64,
)
    ensures
        converted(v, model, tools, limit, created_at) matches Ok(t) ==> {
            let took = v.get("usage"@)->0;
            &&& v.get("usage"@) is Some
            &&& took.get("input_tokens"@) == Some(JsonView::Unsigned(t.input_tokens))
            &&& v.get("model"@) == Some(JsonView::Text(t.provider_model))
            &&& match took.get("cache_creation_input_tokens"@) {
                Some(JsonView::Unsigned(n)) => t.cache_creation_input_tokens == Some(n),
                _ => t.cache_creation_input_tokens is None,
            }
        },
{
}

/// Where the texts of an item are rewritten, a message keeps its id, its phase, its status and its
/// refusals, and has each of its texts rewritten, every one; and every other item stays as it is.
pub proof fn lemma_rewritten<F: Fn(&str) -> String>(f: F, was: OutputItem, is: OutputItem)
    requires
        item_visited(f, was, is),
    ensures
        match was {
            ItemOf::Message(a) => {
                &&& is is Message
                &&& is->Message_0.id == a.id
                &&& is->Message_0.phase == a.phase
                &&& is->Message_0.status == a.status
                &&& is->Message_0.content@.len() == a.content@.len()
                &&& forall|k: int|
                    0 <= k < a.content@.len() ==> match #[trigger] a.content@[k] {
                        PartOf::OutputText(text) => is->Message_0.content@[k] is OutputText
                            && exists|s: &str|
                            s@ == text@ && #[trigger] call_ensures(
                                f,
                                (s,),
                                is->Message_0.content@[k]->OutputText_0,
                            ),
                        PartOf::Refusal(_) => is->Message_0.content@[k] == a.content@[k],
                    }
            },
            _ => is == was,
        },
{
    match (was, is) {
        (ItemOf::Message(a), ItemOf::Message(b)) => {
            assert forall|k: int| 0 <= k < a.content@.len() implies part_visited(
                f,
                #[trigger] a.content@[k],
                b.content@[k],
            ) by {}
        },
        _ => {},
    }
}

} // verus!
