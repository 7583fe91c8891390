//! What holds of every answer: how large it is, and the names of its calls.
use vstd::prelude::*;

use crate::calls::tool_item;
use crate::json::{lemma_put_field, JsonView};
use crate::response::converted;
use crate::responses::{response_json, ItemOf, ItemView};
use crate::stream_blocks::call_announced;
use crate::stream_state::json_size;
use crate::tools::Table;

verus! {

/// An answer that is passed on is no larger than the limit.
pub proof fn lemma_answer_keeps_limit(
    v: JsonView,
    model: Seq<char>,
    tools: Table,
    limit: usize,
    created_at: u64,
)
    ensures
        converted(v, model, tools, limit, created_at) matches Ok(t) ==> json_size(
            response_json(t.response),
        ) <= limit,
{
}

/// The id of an item that is a call of a function or of a tool that takes free text.
pub open spec fn call_item_id(item: ItemView) -> Option<Seq<char>> {
    match item {
        ItemOf::FunctionCall(call) => call.id,
        ItemOf::CustomToolCall(call) => Some(call.id),
        _ => None,
    }
}

broadcast proof fn lemma_id_stays(v: JsonView, name: Seq<char>, value: JsonView)
    requires
        v is Object,
        name != "id"@,
    ensures
        #[trigger] v.with(name, value).get("id"@) == v.get("id"@),
{
    lemma_put_field(v->Object_0, name, value, "id"@);
}

broadcast proof fn lemma_id_set(v: JsonView, value: JsonView)
    requires
        v is Object,
    ensures
        #[trigger] v.with("id"@, value).get("id"@) == Some(value),
{
    lemma_put_field(v->Object_0, "id"@, value, "id"@);
}

proof fn lemma_other_names()
    ensures
        "call_id"@ != "id"@,
        "namespace"@ != "id"@,
        "name"@ != "id"@,
        "arguments"@ != "id"@,
        "status"@ != "id"@,
        "input"@ != "id"@,
        "action"@ != "id"@,
        "environment"@ != "id"@,
        "operation"@ != "id"@,
{
    reveal_strlit("id");
    reveal_strlit("call_id");
    reveal_strlit("namespace");
    reveal_strlit("name");
    reveal_strlit("arguments");
    reveal_strlit("status");
    reveal_strlit("input");
    reveal_strlit("action");
    reveal_strlit("environment");
    reveal_strlit("operation");
    assert("id"@.len() == 2);
    assert("call_id"@.len() == 7);
    assert("namespace"@.len() == 9);
    assert("name"@.len() == 4);
    assert("arguments"@.len() == 9);
    assert("status"@.len() == 6);
    assert("input"@.len() == 5);
    assert("action"@.len() == 6);
    assert("environment"@.len() == 11);
    assert("operation"@.len() == 9);
}

/// A call has the same id in the stream when it is announced as in the answer when it is
/// complete, whatever its status and its input; and a tool that cannot be announced makes no call.
pub proof fn lemma_call_keeps_its_id(
    message_id: Seq<char>,
    index: usize,
    status: Seq<char>,
    call_id: Seq<char>,
    name: Seq<char>,
    input: JsonView,
    tools: Table,
)
    ensures
        match (
            call_announced(message_id, index, call_id, name, tools),
            tool_item(message_id, index as nat, status, call_id, name, input, tools),
        ) {
            (Some((id, announced)), Some(item)) => {
                &&& item.get("id"@) == Some(JsonView::Text(id))
                &&& announced matches Some(first) ==> call_item_id(first) == Some(id)
            },
            (None, None) => true,
            _ => false,
        },
{
    broadcast use lemma_id_stays;
    broadcast use lemma_id_set;

    lemma_other_names();
}

} // verus!
