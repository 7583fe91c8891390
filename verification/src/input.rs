//! The conversation that a request carries.
use vstd::prelude::*;

use crate::actions::{bad_history, invalid_tool_history};
use crate::content::{
    alternating, assistant_fault, assistant_text_content, assistant_texts, lemma_pushed_alternates,
    push_blocks, push_message, pushed, text_blocks, text_content, texts_in, user_blocks,
    user_content, validate_assistant,
};
use crate::error::{refuse, unsupported, AIError, Unsupported};
use crate::history::{
    history_taken, no_calls, translate_tool_history_item, History, HistoryOf, HistoryView,
};
use crate::json::{field, only, text_field, views, Fields, Json, JsonView, Object};
use crate::messages::Role;
use crate::request_types::{
    content_views, turn_views, ContentBlock, ContentOf, ContentView, Message, TurnView,
};
use crate::text::{blank, holds, owned, same, text_of, texts};
use crate::tools::{State, Table};

verus! {

broadcast use crate::json::lemma_array_view;

/// Whether a block is a call with an id.
pub open spec fn is_call(block: ContentView, id: Seq<char>) -> bool {
    block matches ContentOf::ToolUse { id: own, .. } && own == id
}

/// Whether a block is a result of the call with an id.
pub open spec fn is_result(block: ContentView, id: Seq<char>) -> bool {
    block matches ContentOf::ToolResult { tool_use_id, .. } && tool_use_id == id
}

/// Whether one of the first `n` blocks is a call with an id.
pub open spec fn calls_in(content: Seq<ContentView>, n: int, id: Seq<char>) -> bool {
    exists|k: int| 0 <= k < n && #[trigger] is_call(content[k], id)
}

/// Whether one of the first `n` blocks is a result of the call with an id.
pub open spec fn results_in(content: Seq<ContentView>, n: int, id: Seq<char>) -> bool {
    exists|k: int| 0 <= k < n && #[trigger] is_result(content[k], id)
}

/// Whether a message makes a call with an id.
pub open spec fn makes(turn: TurnView, id: Seq<char>) -> bool {
    calls_in(turn.content, turn.content.len() as int, id)
}

/// Whether a message gives the result of the call with an id.
pub open spec fn gives(turn: TurnView, id: Seq<char>) -> bool {
    results_in(turn.content, turn.content.len() as int, id)
}

/// Whether the first `n` blocks hold results before anything else, and no two of one call.
pub open spec fn results_lead(content: Seq<ContentView>, n: int) -> bool {
    forall|k: int, m: int|
        #![trigger content[k], content[m]]
        0 <= k < m < n && content[m] is ToolResult ==> content[k] is ToolResult
            && content[k]->tool_use_id != content[m]->tool_use_id
}

/// Whether one message gives the results of just the calls that another makes.
pub open spec fn settles(result: TurnView, call: TurnView) -> bool {
    forall|id: Seq<char>| #[trigger] gives(result, id) <==> #[trigger] makes(call, id)
}

/// Whether a message makes no call.
pub open spec fn calls_nothing(turn: TurnView) -> bool {
    forall|id: Seq<char>| !#[trigger] makes(turn, id)
}

/// Whether a message gives no result.
pub open spec fn gives_nothing(turn: TurnView) -> bool {
    forall|id: Seq<char>| !#[trigger] gives(turn, id)
}

/// Whether a message stands in its place as far as calls and results go: calls of the assistant
/// are all settled by the message of the user right after them, and results come right after
/// their calls.
pub open spec fn in_place(turns: Seq<TurnView>, i: int) -> bool {
    match turns[i].role {
        Role::System => false,
        Role::Assistant => calls_nothing(turns[i]) || (i + 1 < turns.len() && turns[i + 1].role
            == Role::User && settles(turns[i + 1], turns[i])),
        Role::User => results_lead(turns[i].content, turns[i].content.len() as int) && (
        gives_nothing(turns[i]) || (i > 0 && turns[i - 1].role == Role::Assistant && settles(
            turns[i],
            turns[i - 1],
        ))),
    }
}

/// Whether every message stands in its place as far as calls and results go.
pub open spec fn in_order(turns: Seq<TurnView>) -> bool {
    forall|i: int| 0 <= i < turns.len() ==> #[trigger] in_place(turns, i)
}

fn call_ids(content: &Vec<ContentBlock>) -> (r: Vec<String>)
    ensures
        forall|id: Seq<char>| #[trigger]
            texts(r@).contains(id) <==> calls_in(
                content_views(content@),
                content.len() as int,
                id,
            ),
{
    let ghost blocks = content_views(content@);
    let mut ids: Vec<String> = Vec::new();
    let mut i: usize = 0;
    while i < content.len()
        invariant
            i <= content.len(),
            blocks == content_views(content@),
            forall|id: Seq<char>| #[trigger]
                texts(ids@).contains(id) <==> calls_in(blocks, i as int, id),
        decreases content.len() - i,
    {
        assert(blocks[i as int] == content@[i as int]@);
        let ghost before = ids@;
        match &content[i] {
            ContentOf::ToolUse { id, .. } => {
                ids.push(owned(id.as_str()));
                proof {
                    let own = id@;
                    assert(is_call(blocks[i as int], own));
                    assert(texts(ids@) == texts(before).push(own));
                    assert forall|id: Seq<char>| #[trigger]
                        texts(ids@).contains(id) <==> calls_in(blocks, i + 1, id) by {
                        lemma_pushed_contains(texts(before), own, id);
                        if calls_in(blocks, i + 1, id) && id != own {
                            let k = choose|k: int|
                                0 <= k < i + 1 && #[trigger] is_call(blocks[k], id);
                            assert(k < i);
                            assert(calls_in(blocks, i as int, id));
                        }
                        if calls_in(blocks, i as int, id) {
                            let k = choose|k: int|
                                0 <= k < i && #[trigger] is_call(blocks[k], id);
                            assert(is_call(blocks[k], id));
                        }
                    }
                }
            },
            _ => {
                proof {
                    assert(blocks[i as int] !is ToolUse);
                    assert forall|id: Seq<char>| #[trigger]
                        texts(ids@).contains(id) <==> calls_in(blocks, i + 1, id) by {
                        if calls_in(blocks, i as int, id) {
                            let k = choose|k: int|
                                0 <= k < i && #[trigger] is_call(blocks[k], id);
                            assert(is_call(blocks[k], id));
                        }
                        if calls_in(blocks, i + 1, id) {
                            let k = choose|k: int|
                                0 <= k < i + 1 && #[trigger] is_call(blocks[k], id);
                            assert(k < i);
                            assert(calls_in(blocks, i as int, id));
                        }
                    }
                }
            },
        }
        i = i + 1;
    }
    ids
}

proof fn lemma_pushed_contains(list: Seq<Seq<char>>, own: Seq<char>, id: Seq<char>)
    ensures
        list.push(own).contains(id) <==> list.contains(id) || id == own,
{
    if list.contains(id) {
        let k = choose|k: int| 0 <= k < list.len() && list[k] == id;
        assert(list.push(own)[k] == id);
    }
    assert(list.push(own)[list.len() as int] == own);
    if list.push(own).contains(id) && id != own {
        let k = choose|k: int| 0 <= k < list.push(own).len() && list.push(own)[k] == id;
        assert(list[k] == id);
    }
}

/// The ids of the results that blocks hold, where these come first and no two are of one call.
fn result_ids(content: &Vec<ContentBlock>) -> (r: Option<Vec<String>>)
    ensures
        r is Some <==> results_lead(content_views(content@), content.len() as int),
        r is Some ==> forall|id: Seq<char>| #[trigger]
            texts(r->0@).contains(id) <==> results_in(
                content_views(content@),
                content.len() as int,
                id,
            ),
{
    let ghost blocks = content_views(content@);
    let mut ids: Vec<String> = Vec::new();
    let mut other = false;
    let mut i: usize = 0;
    while i < content.len()
        invariant
            i <= content.len(),
            blocks == content_views(content@),
            blocks.len() == content.len(),
            results_lead(blocks, i as int),
            other <==> exists|k: int| 0 <= k < i && !((#[trigger] blocks[k]) is ToolResult),
            forall|id: Seq<char>| #[trigger]
                texts(ids@).contains(id) <==> results_in(blocks, i as int, id),
        decreases content.len() - i,
    {
        assert(blocks[i as int] == content@[i as int]@);
        let ghost before = ids@;
        match &content[i] {
            ContentOf::ToolResult { tool_use_id, .. } => {
                let ghost own = tool_use_id@;
                assert(is_result(blocks[i as int], own));
                if other || holds(&ids, tool_use_id.as_str()) {
                    proof {
                        if other {
                            let k = choose|k: int|
                                0 <= k < i && !((#[trigger] blocks[k]) is ToolResult);
                            assert(!results_lead(blocks, blocks.len() as int));
                        } else {
                            assert(results_in(blocks, i as int, own));
                            let k = choose|k: int|
                                0 <= k < i && #[trigger] is_result(blocks[k], own);
                            assert(blocks[k]->tool_use_id == blocks[i as int]->tool_use_id);
                            assert(!results_lead(blocks, blocks.len() as int));
                        }
                    }
                    return None;
                }
                ids.push(owned(tool_use_id.as_str()));
                proof {
                    assert(texts(ids@) == texts(before).push(own));
                    assert forall|id: Seq<char>| #[trigger]
                        texts(ids@).contains(id) <==> results_in(blocks, i + 1, id) by {
                        lemma_pushed_contains(texts(before), own, id);
                        if results_in(blocks, i + 1, id) && id != own {
                            let k = choose|k: int|
                                0 <= k < i + 1 && #[trigger] is_result(blocks[k], id);
                            assert(k < i);
                            assert(results_in(blocks, i as int, id));
                        }
                        if results_in(blocks, i as int, id) {
                            let k = choose|k: int|
                                0 <= k < i && #[trigger] is_result(blocks[k], id);
                            assert(is_result(blocks[k], id));
                        }
                    }
                    assert forall|k: int, m: int|
                        #![trigger blocks[k], blocks[m]]
                        0 <= k < m < i + 1 && blocks[m] is ToolResult implies blocks[k] is ToolResult
                        && blocks[k]->tool_use_id != blocks[m]->tool_use_id by {
                        if m == i {
                            assert(blocks[k] is ToolResult);
                            if blocks[k]->tool_use_id == own {
                                assert(is_result(blocks[k], own));
                                assert(results_in(blocks, i as int, own));
                                assert(texts(before).contains(own));
                            }
                        }
                    }
                }
            },
            _ => {
                other = true;
                proof {
                    assert(blocks[i as int] !is ToolResult);
                    assert forall|id: Seq<char>| #[trigger]
                        texts(ids@).contains(id) <==> results_in(blocks, i + 1, id) by {
                        if results_in(blocks, i as int, id) {
                            let k = choose|k: int|
                                0 <= k < i && #[trigger] is_result(blocks[k], id);
                            assert(is_result(blocks[k], id));
                        }
                        if results_in(blocks, i + 1, id) {
                            let k = choose|k: int|
                                0 <= k < i + 1 && #[trigger] is_result(blocks[k], id);
                            assert(k < i);
                            assert(results_in(blocks, i as int, id));
                        }
                    }
                }
            },
        }
        i = i + 1;
    }
    Some(ids)
}

fn all_held(list: &Vec<String>, by_list: &Vec<String>) -> (r: bool)
    ensures
        r <==> forall|id: Seq<char>| #[trigger]
            texts(list@).contains(id) ==> texts(by_list@).contains(id),
{
    let mut i: usize = 0;
    while i < list.len()
        invariant
            i <= list.len(),
            forall|k: int| 0 <= k < i ==> texts(by_list@).contains(#[trigger] texts(list@)[k]),
        decreases list.len() - i,
    {
        if !holds(by_list, list[i].as_str()) {
            assert(texts(list@)[i as int] == list@[i as int]@);
            assert(texts(list@).contains(list@[i as int]@));
            return false;
        }
        i = i + 1;
    }
    true
}

/// Whether every call of a conversation has its result where it must be.
pub fn validate_tool_result_order(history: &Vec<Message>) -> (r: Result<(), AIError>)
    ensures
        match r {
            Ok(_) => in_order(turn_views(history@)),
            Err(e) => !in_order(turn_views(history@)) && e == bad_history(),
        },
{
    let ghost turns = turn_views(history@);
    let mut expected: Option<Vec<String>> = None;
    let mut i: usize = 0;
    while i < history.len()
        invariant
            i <= history.len(),
            turns == turn_views(history@),
            turns.len() == history.len(),
            forall|j: int|
                0 <= j < i && (j + 1 < i || turns[j].role != Role::Assistant || expected is None)
                    ==> #[trigger] in_place(turns, j),
            expected is Some ==> {
                &&& i > 0
                &&& turns[i - 1].role == Role::Assistant
                &&& !calls_nothing(turns[i - 1])
                &&& forall|id: Seq<char>| #[trigger]
                    texts(expected->0@).contains(id) <==> makes(turns[i - 1], id)
            },
            expected is None && i > 0 && turns[i - 1].role == Role::Assistant ==> calls_nothing(
                turns[i - 1],
            ),
        decreases history.len() - i,
    {
        let message = &history[i];
        let ghost turn = turns[i as int];
        assert(turn == message@);
        match message.role {
            Role::Assistant => {
                if expected.is_some() {
                    assert(!in_place(turns, i - 1));
                    return Err(invalid_tool_history());
                }
                let calls = call_ids(&message.content);
                if calls.len() > 0 {
                    proof {
                        assert(texts(calls@).contains(calls@[0]@)) by {
                            assert(texts(calls@)[0] == calls@[0]@);
                        }
                        assert(makes(turn, calls@[0]@));
                    }
                    expected = Some(calls);
                } else {
                    assert(calls_nothing(turn)) by {
                        assert forall|id: Seq<char>| !#[trigger] makes(turn, id) by {
                            assert(!texts(calls@).contains(id));
                        }
                    }
                    assert(in_place(turns, i as int));
                }
            },
            Role::User => {
                let results = match result_ids(&message.content) {
                    Some(results) => results,
                    None => {
                        assert(!in_place(turns, i as int));
                        return Err(invalid_tool_history());
                    },
                };
                match expected {
                    Some(calls) => {
                        if !all_held(&results, &calls) || !all_held(&calls, &results) {
                            proof {
                                if settles(turn, turns[i - 1]) {
                                    assert forall|id: Seq<char>|
                                        (#[trigger] texts(results@).contains(id)) == (
                                        #[trigger] texts(calls@).contains(id)) by {
                                        assert(gives(turn, id) <==> makes(turns[i - 1], id));
                                    }
                                    assert(false);
                                }
                                assert(!in_place(turns, i - 1));
                            }
                            return Err(invalid_tool_history());
                        }
                        proof {
                            assert(settles(turn, turns[i - 1])) by {
                                assert forall|id: Seq<char>|
                                    (#[trigger] gives(turn, id)) == (#[trigger] makes(
                                        turns[i - 1],
                                        id,
                                    )) by {
                                    assert(texts(results@).contains(id) <==> gives(turn, id));
                                    assert(texts(calls@).contains(id) <==> makes(
                                        turns[i - 1],
                                        id,
                                    ));
                                }
                            }
                            assert(in_place(turns, i - 1));
                            assert(in_place(turns, i as int));
                        }
                    },
                    None => {
                        if results.len() > 0 {
                            proof {
                                let id = results@[0]@;
                                assert(texts(results@)[0] == id);
                                assert(texts(results@).contains(id));
                                assert(gives(turn, id));
                                if i > 0 && turns[i - 1].role == Role::Assistant {
                                    assert(!makes(turns[i - 1], id));
                                    assert(!settles(turn, turns[i - 1]));
                                }
                                assert(!in_place(turns, i as int));
                            }
                            return Err(invalid_tool_history());
                        }
                        assert(gives_nothing(turn)) by {
                            assert forall|id: Seq<char>| !#[trigger] gives(turn, id) by {
                                assert(!texts(results@).contains(id));
                            }
                        }
                        assert(in_place(turns, i as int));
                    },
                }
                expected = None;
            },
            Role::System => {
                assert(!in_place(turns, i as int));
                return Err(invalid_tool_history());
            },
        }
        i = i + 1;
    }
    if expected.is_some() {
        assert(!in_place(turns, i - 1));
        return Err(invalid_tool_history());
    }
    Ok(())
}

/// A conversation on the way: its messages, its system texts, and its calls.
pub struct TallyOf<M, L, H> {
    pub output: M,
    pub system: L,
    pub history: H,
}

pub type Tally = TallyOf<Vec<Message>, Vec<String>, History>;

pub type TallyView = TallyOf<Seq<TurnView>, Seq<Seq<char>>, HistoryView>;

impl View for TallyOf<Vec<Message>, Vec<String>, History> {
    type V = TallyOf<Seq<TurnView>, Seq<Seq<char>>, HistoryView>;

    open spec fn view(&self) -> TallyView {
        TallyOf {
            output: turn_views(self.output@),
            system: texts(self.system@),
            history: self.history@,
        }
    }
}

/// Whether an item has only the fields that a message with a role may have.
pub open spec fn message_fields_ok(o: Fields, role: Seq<char>) -> bool {
    if role == "assistant"@ {
        only(o, seq!["type", "role", "content", "id", "phase", "status"])
    } else {
        only(o, seq!["type", "role", "content", "id"])
    }
}

/// A conversation with one more message, or why the message cannot be taken.
pub open spec fn message_taken(o: Fields, t: TallyView) -> Result<TallyView, AIError> {
    let kind = field(o, "type"@);
    if kind == Some(JsonView::Text("reasoning"@)) {
        Err(unsupported(Unsupported::ReasoningHistory))
    } else if kind is Some && kind != Some(JsonView::Text("message"@)) {
        Err(unsupported(Unsupported::InputItem))
    } else if field(o, "id"@) is Some && text_field(o, "id"@) is None {
        Err(unsupported(Unsupported::MessageId))
    } else {
        match text_field(o, "role"@) {
            None => Err(unsupported(Unsupported::MessageRoleRequired)),
            Some(role) => if !message_fields_ok(o, role) {
                Err(unsupported(Unsupported::InputItemField))
            } else {
                match field(o, "content"@) {
                    None => Err(unsupported(Unsupported::MessageContentRequired)),
                    Some(content) => content_taken(o, role, content, t),
                }
            },
        }
    }
}

/// A conversation with what one message holds, or why it cannot be taken.
pub open spec fn content_taken(
    o: Fields,
    role: Seq<char>,
    content: JsonView,
    t: TallyView,
) -> Result<TallyView, AIError> {
    if role == "system"@ || role == "developer"@ {
        if t.output.len() > 0 {
            Err(unsupported(Unsupported::SystemOrder))
        } else {
            match texts_in(content, "input_text"@) {
                Ok(list) => Ok(
                    TallyOf { output: t.output, system: t.system + list, history: t.history },
                ),
                Err(e) => Err(e),
            }
        }
    } else if role == "user"@ {
        match user_blocks(content) {
            Ok(blocks) => Ok(
                TallyOf {
                    output: pushed(t.output, Role::User, blocks),
                    system: t.system,
                    history: t.history,
                },
            ),
            Err(e) => Err(e),
        }
    } else if role == "assistant"@ {
        match (assistant_fault(o), assistant_texts(content)) {
            (Some(e), _) => Err(e),
            (None, Err(e)) => Err(e),
            (None, Ok(list)) => Ok(
                TallyOf {
                    output: pushed(t.output, Role::Assistant, text_blocks(list)),
                    system: t.system,
                    history: t.history,
                },
            ),
        }
    } else {
        Err(unsupported(Unsupported::MessageRole))
    }
}

/// A conversation with one more item: a call, a result or a message. Or why it cannot be taken.
pub open spec fn item_taken(item: JsonView, tools: Table, t: TallyView) -> Result<
    TallyView,
    AIError,
> {
    match item {
        JsonView::Object(o) => match history_taken(o, tools, t.history) {
            Err(e) => Err(e),
            Ok(Some((role, block, history))) => Ok(
                TallyOf {
                    output: pushed(t.output, role, seq![block]),
                    system: t.system,
                    history,
                },
            ),
            Ok(None) => message_taken(o, t),
        },
        _ => Err(unsupported(Unsupported::InputItem)),
    }
}

/// A conversation with the items from the `n`th on, or why the first that cannot be taken cannot.
pub open spec fn items_taken(items: Seq<JsonView>, n: int, tools: Table, t: TallyView) -> Result<
    TallyView,
    AIError,
>
    decreases items.len() - n,
{
    if n < 0 || n >= items.len() {
        Ok(t)
    } else {
        match item_taken(items[n], tools, t) {
            Ok(next) => items_taken(items, n + 1, tools, next),
            Err(e) => Err(e),
        }
    }
}

/// A conversation before its first item.
pub open spec fn tally_start(instructions: Option<Seq<char>>) -> TallyView {
    TallyOf {
        output: Seq::empty(),
        system: match instructions {
            Some(text) => seq![text],
            None => Seq::empty(),
        },
        history: no_calls(),
    }
}

/// The messages and the system texts of a conversation, or why it cannot be taken.
pub open spec fn conversation(input: JsonView, instructions: Option<Seq<char>>, tools: Table) -> Result<
    (Seq<TurnView>, Option<Seq<Seq<char>>>),
    AIError,
> {
    let start = tally_start(instructions);
    if instructions matches Some(text) && text.len() == 0 {
        Err(unsupported(Unsupported::InstructionsEmpty))
    } else if crate::content::nothing_in(input) {
        Err(unsupported(Unsupported::InputEmpty))
    } else {
        match input {
            JsonView::Text(text) => checked(
                Ok(
                    TallyOf {
                        output: pushed(
                            Seq::empty(),
                            Role::User,
                            seq![ContentOf::Text(text)],
                        ),
                        system: start.system,
                        history: start.history,
                    },
                ),
            ),
            JsonView::Array(items) => checked(items_taken(items, 0, tools, start)),
            _ => Err(unsupported(Unsupported::Input)),
        }
    }
}

/// What a conversation comes to once all of it is there.
pub open spec fn checked(t: Result<TallyView, AIError>) -> Result<
    (Seq<TurnView>, Option<Seq<Seq<char>>>),
    AIError,
> {
    match t {
        Err(e) => Err(e),
        Ok(t) => if !in_order(t.output) {
            Err(bad_history())
        } else {
            Ok(
                (
                    t.output,
                    if t.system.len() == 0 {
                        None
                    } else {
                        Some(t.system)
                    },
                ),
            )
        },
    }
}

fn take_message(object: &Object, tally: &mut Tally) -> (r: Result<(), AIError>)
    ensures
        match message_taken(object@, old(tally)@) {
            Ok(t) => r is Ok && final(tally)@ == t,
            Err(e) => r is Err && r->Err_0 == e,
        },
{
    proof {
        reveal_strlit("reasoning");
        reveal_strlit("message");
        assert("reasoning"@.len() == 9);
        assert("message"@.len() == 7);
    }
    match object.get("type") {
        None => {},
        Some(Json::Text(kind)) => {
            if same(kind.as_str(), "reasoning") {
                return Err(refuse(Unsupported::ReasoningHistory));
            }
            if !same(kind.as_str(), "message") {
                return Err(refuse(Unsupported::InputItem));
            }
        },
        Some(_) => return Err(refuse(Unsupported::InputItem)),
    }
    match object.get("id") {
        None | Some(Json::Text(_)) => {},
        Some(_) => return Err(refuse(Unsupported::MessageId)),
    }
    let role = match object.text("role") {
        Some(role) => role,
        None => return Err(refuse(Unsupported::MessageRoleRequired)),
    };
    let unknown = if same(role, "assistant") {
        object.has_unknown_field(&["type", "role", "content", "id", "phase", "status"])
    } else {
        object.has_unknown_field(&["type", "role", "content", "id"])
    };
    if unknown {
        return Err(refuse(Unsupported::InputItemField));
    }
    match object.get("content") {
        Some(content) => take_content(object, role, content, tally),
        None => Err(refuse(Unsupported::MessageContentRequired)),
    }
}

fn take_content(object: &Object, role: &str, content: &Json, tally: &mut Tally) -> (r: Result<
    (),
    AIError,
>)
    ensures
        match content_taken(object@, role@, content@, old(tally)@) {
            Ok(t) => r is Ok && final(tally)@ == t,
            Err(e) => r is Err && r->Err_0 == e,
        },
{
    if same(role, "system") || same(role, "developer") {
        if tally.output.len() > 0 {
            return Err(refuse(Unsupported::SystemOrder));
        }
        let mut list = match text_content(content, "input_text") {
            Ok(list) => list,
            Err(e) => return Err(e),
        };
        let ghost before = tally.system@;
        let ghost added = list@;
        tally.system.append(&mut list);
        assert(texts(tally.system@) == texts(before) + texts(added));
        Ok(())
    } else if same(role, "user") {
        match user_content(content) {
            Ok(blocks) => {
                push_blocks(&mut tally.output, Role::User, blocks);
                Ok(())
            },
            Err(e) => Err(e),
        }
    } else if same(role, "assistant") {
        match validate_assistant(object) {
            Ok(_) => {},
            Err(e) => return Err(e),
        }
        match assistant_text_content(content) {
            Ok(list) => {
                push_message(&mut tally.output, Role::Assistant, list);
                Ok(())
            },
            Err(e) => Err(e),
        }
    } else {
        Err(refuse(Unsupported::MessageRole))
    }
}

fn take_item(item: &Json, state: &State, tally: &mut Tally) -> (r: Result<(), AIError>)
    ensures
        match item_taken(item@, state@, old(tally)@) {
            Ok(t) => r is Ok && final(tally)@ == t,
            Err(e) => r is Err && r->Err_0 == e,
        },
{
    let object = match item {
        Json::Object(object) => object,
        _ => return Err(refuse(Unsupported::InputItem)),
    };
    match translate_tool_history_item(object, state, &mut tally.history) {
        Err(e) => Err(e),
        Ok(Some((role, block))) => {
            let ghost one = block@;
            let blocks = vec![block];
            assert(content_views(blocks@) == seq![one]);
            push_blocks(&mut tally.output, role, blocks);
            Ok(())
        },
        Ok(None) => take_message(object, tally),
    }
}

/// The messages and the system texts of a conversation.
pub fn translate_input(input: &Json, instructions: Option<&str>, state: &State) -> (r: Result<
    (Vec<Message>, Option<Vec<String>>),
    AIError,
>)
    ensures
        match conversation(input@, text_of(instructions), state@) {
            Ok((messages, system)) => {
                &&& r is Ok
                &&& turn_views((r->Ok_0).0@) == messages
                &&& match (r->Ok_0).1 {
                    Some(list) => system == Some(texts(list@)),
                    None => system is None,
                }
            },
            Err(e) => r is Err && r->Err_0 == e,
        },
{
    let mut system: Vec<String> = Vec::new();
    assert(texts(system@) == Seq::<Seq<char>>::empty());
    match instructions {
        Some(text) => {
            if blank(text) {
                return Err(refuse(Unsupported::InstructionsEmpty));
            }
            system.push(owned(text));
            assert(texts(system@) == seq![text@]);
        },
        None => {},
    }
    let mut tally: Tally = TallyOf {
        output: Vec::new(),
        system,
        history: HistoryOf { calls: Vec::new(), done: Vec::new() },
    };
    let ghost start = tally_start(text_of(instructions));
    assert(tally@ == start) by {
        assert(tally@.output == start.output);
        assert(tally@.system == start.system);
        assert(tally@.history.calls == start.history.calls);
        assert(tally@.history.done == start.history.done);
    }
    match input {
        Json::Text(text) => {
            if blank(text.as_str()) {
                return Err(refuse(Unsupported::InputEmpty));
            }
            let list = vec![owned(text.as_str())];
            assert(texts(list@) == seq![text@]);
            assert(text_blocks(seq![text@]) == seq![ContentView::Text(text@)]);
            push_message(&mut tally.output, Role::User, list);
        },
        Json::Array(items) => {
            if items.len() == 0 {
                return Err(refuse(Unsupported::InputEmpty));
            }
            let ghost all = views(items@);
            assert(input@ == JsonView::Array(all));
            let mut i: usize = 0;
            while i < items.len()
                invariant
                    i <= items.len(),
                    all == views(items@),
                    all.len() > 0,
                    input@ == JsonView::Array(all),
                    !(text_of(instructions) matches Some(text) && text.len() == 0),
                    start == tally_start(text_of(instructions)),
                    items_taken(all, i as int, state@, tally@) == items_taken(all, 0, state@, start),
                decreases items.len() - i,
            {
                assert(all[i as int] == items@[i as int]@);
                match take_item(&items[i], state, &mut tally) {
                    Ok(_) => {},
                    Err(e) => return Err(e),
                }
                i = i + 1;
            }
        },
        _ => return Err(refuse(Unsupported::Input)),
    }
    match validate_tool_result_order(&tally.output) {
        Ok(_) => {},
        Err(e) => return Err(e),
    }
    let system = if tally.system.len() == 0 {
        None
    } else {
        Some(tally.system)
    };
    Ok((tally.output, system))
}

/// In a conversation that is taken the roles alternate, and every call has its result right after
/// it.
pub proof fn lemma_conversation_alternates(
    input: JsonView,
    instructions: Option<Seq<char>>,
    tools: Table,
)
    ensures
        conversation(input, instructions, tools) matches Ok((messages, _)) ==> alternating(messages)
            && in_order(messages),
{
    match input {
        JsonView::Array(items) => {
            lemma_items_alternate(items, 0, tools, tally_start(instructions));
        },
        JsonView::Text(text) => {
            lemma_pushed_alternates(Seq::empty(), Role::User, seq![ContentOf::Text(text)]);
        },
        _ => {},
    }
}

proof fn lemma_item_alternates(item: JsonView, tools: Table, t: TallyView)
    requires
        alternating(t.output),
    ensures
        item_taken(item, tools, t) matches Ok(next) ==> alternating(next.output),
{
    match item {
        JsonView::Object(o) => match history_taken(o, tools, t.history) {
            Ok(Some((role, block, history))) => {
                lemma_pushed_alternates(t.output, role, seq![block]);
            },
            Ok(None) => {
                lemma_message_alternates(o, t);
            },
            Err(_) => {},
        },
        _ => {},
    }
}

proof fn lemma_message_alternates(o: Fields, t: TallyView)
    requires
        alternating(t.output),
    ensures
        message_taken(o, t) matches Ok(next) ==> alternating(next.output),
{
    match field(o, "content"@) {
        Some(content) => {
            match user_blocks(content) {
                Ok(blocks) => {
                    lemma_pushed_alternates(t.output, Role::User, blocks);
                },
                Err(_) => {},
            }
            match assistant_texts(content) {
                Ok(list) => {
                    lemma_pushed_alternates(t.output, Role::Assistant, text_blocks(list));
                },
                Err(_) => {},
            }
        },
        None => {},
    }
}

proof fn lemma_items_alternate(items: Seq<JsonView>, n: int, tools: Table, t: TallyView)
    requires
        alternating(t.output),
    ensures
        items_taken(items, n, tools, t) matches Ok(end) ==> alternating(end.output),
    decreases items.len() - n,
{
    if 0 <= n < items.len() {
        match item_taken(items[n], tools, t) {
            Ok(next) => {
                lemma_item_alternates(items[n], tools, t);
                lemma_items_alternate(items, n + 1, tools, next);
            },
            Err(_) => {},
        }
    }
}

} // verus!
