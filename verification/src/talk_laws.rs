//! What holds of every conversation that is taken: all that was said stands in it, in order and
//! as it was said.
use vstd::prelude::*;

use crate::content::{
    assistant_part, assistant_parts_from, assistant_texts, pushed, text_part, text_parts_from,
    texts_in, user_blocks, user_part, user_parts_from,
};
use crate::error::AIError;
use crate::history::history_taken;
use crate::input::{conversation, item_taken, items_taken, message_taken, TallyView};
use crate::json::{field, only, Fields, JsonView};
use crate::messages::Role;
use crate::request_types::{ContentOf, ContentView, TurnView};
use crate::text::named;
use crate::tools::Table;

verus! {

proof fn lemma_roles()
    ensures
        "system"@ != "developer"@,
        "system"@ != "user"@,
        "system"@ != "assistant"@,
        "developer"@ != "user"@,
        "developer"@ != "assistant"@,
        "user"@ != "assistant"@,
{
    reveal_strlit("system");
    reveal_strlit("developer");
    reveal_strlit("user");
    reveal_strlit("assistant");
    assert("system"@.len() == 6);
    assert("developer"@.len() == 9);
    assert("user"@.len() == 4);
    assert("assistant"@.len() == 9);
    assert("developer"@[0] == 'd');
    assert("assistant"@[0] == 'a');
}

proof fn lemma_item_types()
    ensures
        "message"@ != "reasoning"@,
{
    reveal_strlit("message");
    reveal_strlit("reasoning");
    assert("message"@.len() == 7);
    assert("reasoning"@.len() == 9);
}

proof fn lemma_part_types()
    ensures
        "input_text"@ != "input_image"@,
        "input_text"@ != "input_file"@,
        "input_text"@ != "output_text"@,
        "input_text"@ != "refusal"@,
        "input_image"@ != "input_file"@,
        "input_image"@ != "output_text"@,
        "input_image"@ != "refusal"@,
        "input_file"@ != "output_text"@,
        "input_file"@ != "refusal"@,
        "output_text"@ != "refusal"@,
{
    reveal_strlit("input_text");
    reveal_strlit("input_image");
    reveal_strlit("input_file");
    reveal_strlit("output_text");
    reveal_strlit("refusal");
    assert("input_text"@.len() == 10);
    assert("input_image"@.len() == 11);
    assert("input_file"@.len() == 10);
    assert("output_text"@.len() == 11);
    assert("refusal"@.len() == 7);
    assert("input_text"@[6] == 't');
    assert("input_file"@[6] == 'f');
    assert("input_image"@[0] == 'i');
    assert("output_text"@[0] == 'o');
}


/// Parts that must be text give their texts one for one and in order, or what the first that is
/// no such text is refused for.
pub proof fn lemma_text_parts(items: Seq<JsonView>, n: int, kind: Seq<char>)
    requires
        0 <= n <= items.len(),
    ensures
        match text_parts_from(items, n, kind) {
            Ok(list) => list.len() == items.len() - n && forall|i: int, k: int|
                #![trigger list[i], items[k]]
                0 <= i < list.len() && k == n + i ==> text_part(items[k], kind) == Ok::<
                    Seq<char>,
                    AIError,
                >(list[i]),
            Err(e) => exists|k: int|
                n <= k < items.len()
                    && #[trigger] text_part(items[k], kind) == Err::<Seq<char>, AIError>(
                    e,
                ) && forall|j: int|
                    n <= j < k ==> (#[trigger] text_part(items[j], kind)) is Ok,
        },
    decreases items.len() - n,
{
    if n < items.len() {
        lemma_text_parts(items, n + 1, kind);
        match text_parts_from(items, n, kind) {
            Ok(list) => {
                let rest = text_parts_from(items, n + 1, kind)->Ok_0;
                let first = text_part(items[n], kind)->Ok_0;
                assert(list == seq![first] + rest);
                assert forall|i: int, k: int|
                    #![trigger list[i], items[k]]
                    0 <= i < list.len() && k == n + i implies text_part(items[k], kind) == Ok::<
                    Seq<char>,
                    AIError,
                >(list[i]) by {
                    if i > 0 {
                        assert(list[i] == rest[i - 1]);
                        assert(k == n + 1 + (i - 1));
                        let _ = (rest[i - 1], items[k]);
                    }
                }
            },
            Err(e) => {
                if text_part(items[n], kind) is Err {
                    assert(text_part(items[n], kind) == Err::<Seq<char>, AIError>(e));
                } else {
                    let k = choose|k: int|
                        n + 1 <= k < items.len() && #[trigger] text_part(items[k], kind) == Err::<
                            Seq<char>,
                            AIError,
                        >(e) && forall|j: int|
                            n + 1 <= j < k ==> (#[trigger] text_part(items[j], kind)) is Ok;
                    assert(text_part(items[k], kind) == Err::<Seq<char>, AIError>(e));
                }
            },
        }
    }
}

/// The parts of what the user said give their blocks one for one and in order, or what the first
/// that has none is refused for.
pub proof fn lemma_user_parts(items: Seq<JsonView>, n: int)
    requires
        0 <= n <= items.len(),
    ensures
        match user_parts_from(items, n) {
            Ok(list) => list.len() == items.len() - n && forall|i: int, k: int|
                #![trigger list[i], items[k]]
                0 <= i < list.len() && k == n + i ==> user_part(items[k]) == Ok::<
                    ContentView,
                    AIError,
                >(list[i]),
            Err(e) => exists|k: int|
                n <= k < items.len()
                    && #[trigger] user_part(items[k]) == Err::<ContentView, AIError>(
                    e,
                ) && forall|j: int|
                    n <= j < k ==> (#[trigger] user_part(items[j])) is Ok,
        },
    decreases items.len() - n,
{
    if n < items.len() {
        lemma_user_parts(items, n + 1);
        match user_parts_from(items, n) {
            Ok(list) => {
                let rest = user_parts_from(items, n + 1)->Ok_0;
                let first = user_part(items[n])->Ok_0;
                assert(list == seq![first] + rest);
                assert forall|i: int, k: int|
                    #![trigger list[i], items[k]]
                    0 <= i < list.len() && k == n + i implies user_part(items[k]) == Ok::<
                    ContentView,
                    AIError,
                >(list[i]) by {
                    if i > 0 {
                        assert(list[i] == rest[i - 1]);
                        assert(k == n + 1 + (i - 1));
                        let _ = (rest[i - 1], items[k]);
                    }
                }
            },
            Err(e) => {
                if user_part(items[n]) is Err {
                    assert(user_part(items[n]) == Err::<ContentView, AIError>(e));
                } else {
                    let k = choose|k: int|
                        n + 1 <= k < items.len() && #[trigger] user_part(items[k]) == Err::<
                            ContentView,
                            AIError,
                        >(e) && forall|j: int|
                            n + 1 <= j < k ==> (#[trigger] user_part(items[j])) is Ok;
                    assert(user_part(items[k]) == Err::<ContentView, AIError>(e));
                }
            },
        }
    }
}

/// The parts of what the assistant said give their texts one for one and in order, or what the
/// first that has none is refused for.
pub proof fn lemma_assistant_parts(items: Seq<JsonView>, n: int)
    requires
        0 <= n <= items.len(),
    ensures
        match assistant_parts_from(items, n) {
            Ok(list) => list.len() == items.len() - n && forall|i: int, k: int|
                #![trigger list[i], items[k]]
                0 <= i < list.len() && k == n + i ==> assistant_part(items[k]) == Ok::<
                    Seq<char>,
                    AIError,
                >(list[i]),
            Err(e) => exists|k: int|
                n <= k < items.len()
                    && #[trigger] assistant_part(items[k]) == Err::<Seq<char>, AIError>(
                    e,
                ) && forall|j: int|
                    n <= j < k ==> (#[trigger] assistant_part(items[j])) is Ok,
        },
    decreases items.len() - n,
{
    if n < items.len() {
        lemma_assistant_parts(items, n + 1);
        match assistant_parts_from(items, n) {
            Ok(list) => {
                let rest = assistant_parts_from(items, n + 1)->Ok_0;
                let first = assistant_part(items[n])->Ok_0;
                assert(list == seq![first] + rest);
                assert forall|i: int, k: int|
                    #![trigger list[i], items[k]]
                    0 <= i < list.len() && k == n + i implies assistant_part(items[k]) == Ok::<
                    Seq<char>,
                    AIError,
                >(list[i]) by {
                    if i > 0 {
                        assert(list[i] == rest[i - 1]);
                        assert(k == n + 1 + (i - 1));
                        let _ = (rest[i - 1], items[k]);
                    }
                }
            },
            Err(e) => {
                if assistant_part(items[n]) is Err {
                    assert(assistant_part(items[n]) == Err::<Seq<char>, AIError>(e));
                } else {
                    let k = choose|k: int|
                        n + 1 <= k < items.len() && #[trigger] assistant_part(items[k]) == Err::<
                            Seq<char>,
                            AIError,
                        >(e) && forall|j: int|
                            n + 1 <= j < k ==> (#[trigger] assistant_part(items[j])) is Ok;
                    assert(assistant_part(items[k]) == Err::<Seq<char>, AIError>(e));
                }
            },
        }
    }
}

/// A part that must be text is taken just where it is an object of its type with a text that is
/// not empty and nothing else, and then as that text.
pub proof fn lemma_text_part(o: Fields, kind: Seq<char>)
    ensures
        match text_part(JsonView::Object(o), kind) {
            Ok(text) => {
                &&& field(o, "type"@) == Some(JsonView::Text(kind))
                &&& field(o, "text"@) == Some(JsonView::Text(text))
                &&& text.len() > 0
                &&& forall|i: int|
                    0 <= i < o.len() ==> (#[trigger] o[i]).0 == "type"@ || o[i].0 == "text"@
            },
            Err(_) => {
                ||| field(o, "type"@) != Some(JsonView::Text(kind))
                ||| exists|i: int|
                    0 <= i < o.len() && (#[trigger] o[i]).0 != "type"@ && o[i].0 != "text"@
                ||| !(field(o, "text"@) is Some && field(o, "text"@)->0 is Text && field(
                    o,
                    "text"@,
                )->0->Text_0.len() > 0)
            },
        },
{
    let list = seq!["type", "text"];
    assert(list[0]@ == "type"@ && list[1]@ == "text"@);
    if !only(o, list) {
        let i = choose|i: int| 0 <= i < o.len() && !named(list, (#[trigger] o[i]).0);
        assert(o[i].0 != "type"@ && o[i].0 != "text"@);
    }
}

/// What the user says is text as it stands, an image or a file.
pub proof fn lemma_user_part(v: JsonView)
    ensures
        v.text_at("type"@) == Some("input_text"@) ==> (match text_part(v, "input_text"@) {
            Ok(text) => user_part(v) == Ok::<ContentView, AIError>(ContentOf::Text(text)),
            Err(e) => user_part(v) == Err::<ContentView, AIError>(e),
        }),
        v.text_at("type"@) == Some("input_image"@) ==> (match crate::media::image_of(
            v->Object_0,
        ) {
            Ok(source) => user_part(v) == Ok::<ContentView, AIError>(
                ContentOf::Image { source },
            ),
            Err(e) => user_part(v) == Err::<ContentView, AIError>(e),
        }),
        v.text_at("type"@) == Some("input_file"@) ==> (match crate::media::file_of(v->Object_0) {
            Ok((source, title)) => user_part(v) == Ok::<ContentView, AIError>(
                ContentOf::Document { source, title },
            ),
            Err(e) => user_part(v) == Err::<ContentView, AIError>(e),
        }),
        user_part(v) is Ok ==> v.text_at("type"@) == Some("input_text"@) || v.text_at("type"@)
            == Some("input_image"@) || v.text_at("type"@) == Some("input_file"@),
{
    lemma_part_types();
}

/// What the assistant said is taken by its text, or by why it refused.
pub proof fn lemma_assistant_part(o: Fields)
    ensures
        match assistant_part(JsonView::Object(o)) {
            Ok(text) => text.len() > 0 && (field(o, "type"@) == Some(
                JsonView::Text("output_text"@),
            ) && field(o, "text"@) == Some(JsonView::Text(text)) || field(o, "type"@) == Some(
                JsonView::Text("refusal"@),
            ) && field(o, "refusal"@) == Some(JsonView::Text(text))),
            Err(_) => true,
        },
        o.len() == 2 && field(o, "type"@) == Some(JsonView::Text("output_text"@)) && field(
            o,
            "text"@,
        ) is Some && field(o, "text"@)->0 is Text && field(o, "text"@)->0->Text_0.len() > 0
            ==> assistant_part(JsonView::Object(o)) is Ok,
        o.len() == 2 && field(o, "type"@) == Some(JsonView::Text("refusal"@)) && field(
            o,
            "refusal"@,
        ) is Some && field(o, "refusal"@)->0 is Text && field(o, "refusal"@)->0->Text_0.len() > 0
            ==> assistant_part(JsonView::Object(o)) is Ok,
{
    lemma_part_types();
    lemma_two(o, "type"@, "text"@, seq!["type", "text", "annotations", "logprobs"], 0, 1);
    lemma_two(o, "type"@, "refusal"@, seq!["type", "refusal"], 0, 1);
    reveal_strlit("type");
    reveal_strlit("text");
    reveal_strlit("refusal");
    reveal_strlit("annotations");
    reveal_strlit("logprobs");
    assert("text"@[1] == 'e');
    assert("type"@[1] == 'y');
    if o.len() == 2 && field(o, "text"@) is Some && field(o, "type"@) is Some {
        lemma_other(o, "type"@, "text"@, "annotations"@);
        lemma_other(o, "type"@, "text"@, "logprobs"@);
    }
}

proof fn lemma_two(
    o: Fields,
    a: Seq<char>,
    b: Seq<char>,
    names: Seq<&'static str>,
    i: int,
    k: int,
)
    requires
        0 <= i < names.len(),
        0 <= k < names.len(),
        names[i]@ == a,
        names[k]@ == b,
    ensures
        o.len() == 2 && field(o, a) is Some && field(o, b) is Some && a != b ==> only(o, names),
{
    crate::json::lemma_position(o, a, 0);
    crate::json::lemma_position(o, b, 0);
}

proof fn lemma_other(o: Fields, a: Seq<char>, b: Seq<char>, c: Seq<char>)
    requires
        o.len() == 2,
        field(o, a) is Some,
        field(o, b) is Some,
        a != b,
        c != a,
        c != b,
    ensures
        field(o, c) is None,
{
    crate::json::lemma_position(o, a, 0);
    crate::json::lemma_position(o, b, 0);
    crate::json::lemma_position(o, c, 0);
}

/// What was said in a conversation, block by block, each with who said it.
pub open spec fn said(turns: Seq<TurnView>) -> Seq<(Role, ContentView)>
    decreases turns.len(),
{
    if turns.len() == 0 {
        Seq::empty()
    } else {
        said(turns.drop_last()) + said_by(turns.last().role, turns.last().content)
    }
}

/// Blocks, each with who said it.
pub open spec fn said_by(role: Role, content: Seq<ContentView>) -> Seq<(Role, ContentView)> {
    Seq::new(content.len(), |i: int| (role, content[i]))
}

/// What is added to a conversation comes after all that was said in it.
pub proof fn lemma_pushed_is_said(turns: Seq<TurnView>, role: Role, content: Seq<ContentView>)
    ensures
        said(pushed(turns, role, content)) == said(turns) + said_by(role, content),
{
    let after = pushed(turns, role, content);
    if turns.len() > 0 && turns.last().role == role {
        assert(after.drop_last() == turns.drop_last());
        assert(said_by(role, turns.last().content + content) == said_by(role, turns.last().content)
            + said_by(role, content));
        assert(said(after) == said(turns) + said_by(role, content));
    } else {
        assert(after.drop_last() == turns);
    }
}

/// Each item of a conversation is taken, after the items before it and before those that follow.
pub proof fn lemma_items_are_taken_in_order(
    before: Seq<JsonView>,
    after: Seq<JsonView>,
    n: int,
    tools: Table,
    t: TallyView,
)
    requires
        0 <= n <= before.len(),
    ensures
        items_taken(before + after, n, tools, t) == (match items_taken(before, n, tools, t) {
            Ok(mid) => items_taken(after, 0, tools, mid),
            Err(e) => Err(e),
        }),
    decreases before.len() - n,
{
    let all = before + after;
    if n < before.len() {
        assert(all[n] == before[n]);
        match item_taken(before[n], tools, t) {
            Ok(next) => {
                lemma_items_are_taken_in_order(before, after, n + 1, tools, next);
            },
            Err(_) => {},
        }
    } else {
        lemma_shifted(before, after, 0, tools, t);
    }
}

proof fn lemma_shifted(
    before: Seq<JsonView>,
    after: Seq<JsonView>,
    k: int,
    tools: Table,
    t: TallyView,
)
    requires
        0 <= k <= after.len(),
    ensures
        items_taken(before + after, before.len() + k, tools, t) == items_taken(after, k, tools, t),
    decreases after.len() - k,
{
    let all = before + after;
    if k < after.len() {
        assert(all[before.len() + k] == after[k]);
        match item_taken(after[k], tools, t) {
            Ok(next) => {
                lemma_shifted(before, after, k + 1, tools, next);
            },
            Err(_) => {},
        }
    }
}

/// A single item is taken as it is, and no item changes nothing.
pub proof fn lemma_item_is_taken(item: JsonView, tools: Table, t: TallyView)
    ensures
        items_taken(seq![item], 0, tools, t) == item_taken(item, tools, t),
        items_taken(Seq::empty(), 0, tools, t) == Ok::<TallyView, AIError>(t),
{
    reveal_with_fuel(items_taken, 2);
}

/// What a message adds to a conversation: what the user said as the user's, what the assistant
/// said as the assistant's, and what the system or the developer said to the system texts. It
/// adds nothing else, and no call.
#[verifier::rlimit(60)]
#[verifier::spinoff_prover]
pub proof fn lemma_message_is_said(o: Fields, t: TallyView)
    requires
        message_taken(o, t) is Ok,
    ensures
        ({
            let next = message_taken(o, t)->Ok_0;
            let content = field(o, "content"@)->0;
            &&& field(o, "type"@) is None || field(o, "type"@) == Some(JsonView::Text("message"@))
            &&& field(o, "content"@) is Some
            &&& next.history == t.history
            &&& match field(o, "role"@) {
                Some(JsonView::Text(role)) => {
                    &&& role == "user"@ || role == "assistant"@ || role == "system"@ || role
                        == "developer"@
                    &&& role == "user"@ ==> user_blocks(content) is Ok && said(next.output) == said(
                        t.output,
                    ) + said_by(Role::User, user_blocks(content)->Ok_0) && next.system == t.system
                    &&& role == "assistant"@ ==> assistant_texts(content) is Ok && next.system
                        == t.system && said(next.output) == said(t.output) + said_by(
                        Role::Assistant,
                        Seq::new(
                            assistant_texts(content)->Ok_0.len(),
                            |i: int| ContentView::Text(assistant_texts(content)->Ok_0[i]),
                        ),
                    )
                    &&& role == "system"@ || role == "developer"@ ==> texts_in(
                        content,
                        "input_text"@,
                    ) is Ok && next.system == t.system + texts_in(content, "input_text"@)->Ok_0
                        && next.output == t.output && t.output.len() == 0
                },
                _ => false,
            }
        }),
{
    lemma_roles();
    lemma_item_types();
    let content = field(o, "content"@)->0;
    if user_blocks(content) is Ok {
        lemma_pushed_is_said(t.output, Role::User, user_blocks(content)->Ok_0);
    }
    if assistant_texts(content) is Ok {
        let list = assistant_texts(content)->Ok_0;
        lemma_pushed_is_said(t.output, Role::Assistant, crate::content::text_blocks(list));
        assert(crate::content::text_blocks(list) == Seq::new(
            list.len(),
            |i: int| ContentView::Text(list[i]),
        ));
    }
}

/// What is said as a plain string is said as one text, by the user, by the assistant or to the
/// system; and an empty string is refused.
pub proof fn lemma_plain_content(text: Seq<char>)
    ensures
        text.len() > 0 ==> user_blocks(JsonView::Text(text)) == Ok::<Seq<ContentView>, AIError>(
            seq![ContentOf::Text(text)],
        ),
        text.len() > 0 ==> assistant_texts(JsonView::Text(text)) == Ok::<Seq<Seq<char>>, AIError>(
            seq![text],
        ),
        text.len() > 0 ==> texts_in(JsonView::Text(text), "input_text"@) == Ok::<
            Seq<Seq<char>>,
            AIError,
        >(seq![text]),
        text.len() == 0 ==> user_blocks(JsonView::Text(text)) is Err && assistant_texts(
            JsonView::Text(text),
        ) is Err && texts_in(JsonView::Text(text), "input_text"@) is Err,
{
}

/// What is said in parts is said part by part; and no parts are refused.
pub proof fn lemma_parted_content(items: Seq<JsonView>)
    ensures
        items.len() > 0 ==> user_blocks(JsonView::Array(items)) == user_parts_from(items, 0)
            && assistant_texts(JsonView::Array(items)) == assistant_parts_from(items, 0)
            && texts_in(JsonView::Array(items), "input_text"@) == text_parts_from(
            items,
            0,
            "input_text"@,
        ),
        items.len() == 0 ==> user_blocks(JsonView::Array(items)) is Err && assistant_texts(
            JsonView::Array(items),
        ) is Err && texts_in(JsonView::Array(items), "input_text"@) is Err,
{
}

/// An item is a call or a result of one, which adds its one block, or else a message.
pub proof fn lemma_item_is_said(o: Fields, tools: Table, t: TallyView)
    ensures
        match history_taken(o, tools, t.history) {
            Err(e) => item_taken(JsonView::Object(o), tools, t) == Err::<TallyView, AIError>(e),
            Ok(Some((role, block, history))) => {
                &&& item_taken(JsonView::Object(o), tools, t) is Ok
                &&& said((item_taken(JsonView::Object(o), tools, t)->Ok_0).output) == said(
                    t.output,
                ).push((role, block))
                &&& (item_taken(JsonView::Object(o), tools, t)->Ok_0).system == t.system
                &&& (item_taken(JsonView::Object(o), tools, t)->Ok_0).history == history
            },
            Ok(None) => item_taken(JsonView::Object(o), tools, t) == message_taken(o, t),
        },
{
    match history_taken(o, tools, t.history) {
        Ok(Some((role, block, _))) => {
            lemma_pushed_is_said(t.output, role, seq![block]);
            assert(said(t.output) + said_by(role, seq![block]) == said(t.output).push(
                (role, block),
            ));
        },
        _ => {},
    }
}

/// A conversation that is a plain string is one message of the user, under the instructions.
pub proof fn lemma_plain_conversation(
    text: Seq<char>,
    instructions: Option<Seq<char>>,
    tools: Table,
)
    requires
        text.len() > 0,
        instructions is Some ==> instructions->0.len() > 0,
    ensures
        conversation(JsonView::Text(text), instructions, tools) is Ok,
        ({
            let (messages, system) = conversation(JsonView::Text(text), instructions, tools)->Ok_0;
            &&& messages.len() == 1
            &&& messages[0].role == Role::User
            &&& messages[0].content == seq![ContentView::Text(text)]
            &&& instructions is Some ==> system == Some(seq![instructions->0])
            &&& instructions is None ==> system is None
        }),
{
    let turns = pushed(Seq::empty(), Role::User, seq![ContentView::Text(text)]);
    assert(turns.len() == 1);
    assert(turns[0].content.len() == 1);
    assert(crate::input::gives_nothing(turns[0]));
    assert(crate::input::in_place(turns, 0));
    assert(crate::input::in_order(turns));
}

/// In a conversation that is taken, every call of the assistant has its result in the message
/// right after it, and every result its call in the message right before it; no result comes
/// twice in one message or after anything else in it.
pub proof fn lemma_calls_are_answered(
    input: JsonView,
    instructions: Option<Seq<char>>,
    tools: Table,
    i: int,
    k: int,
)
    requires
        conversation(input, instructions, tools) is Ok,
        0 <= i < (conversation(input, instructions, tools)->Ok_0).0.len(),
        0 <= k < (conversation(input, instructions, tools)->Ok_0).0[i].content.len(),
    ensures
        ({
            let turns = (conversation(input, instructions, tools)->Ok_0).0;
            &&& turns[i].role == Role::User || turns[i].role == Role::Assistant
            &&& match turns[i].content[k] {
                ContentOf::ToolUse { id, .. } => turns[i].role == Role::Assistant ==> i + 1
                    < turns.len() && turns[i + 1].role == Role::User && exists|m: int|
                    0 <= m < turns[i + 1].content.len() && (
                    #[trigger] turns[i + 1].content[m]) is ToolResult
                        && turns[i + 1].content[m]->tool_use_id == id,
                ContentOf::ToolResult { tool_use_id, .. } => turns[i].role == Role::User ==> {
                    &&& i > 0
                    &&& turns[i - 1].role == Role::Assistant
                    &&& exists|m: int|
                        0 <= m < turns[i - 1].content.len() && (
                        #[trigger] turns[i - 1].content[m]) is ToolUse
                            && turns[i - 1].content[m]->id == tool_use_id
                    &&& forall|m: int|
                        0 <= m < k ==> (#[trigger] turns[i].content[m]) is ToolResult
                            && turns[i].content[m]->tool_use_id != tool_use_id
                },
                _ => true,
            }
        }),
{
    let turns = (conversation(input, instructions, tools)->Ok_0).0;
    assert(crate::input::in_order(turns));
    assert(crate::input::in_place(turns, i));
    match turns[i].content[k] {
        ContentOf::ToolUse { id, .. } => {
            assert(crate::input::is_call(turns[i].content[k], id));
            assert(crate::input::makes(turns[i], id));
            if turns[i].role == Role::Assistant {
                assert(crate::input::gives(turns[i + 1], id));
                let m = choose|m: int|
                    0 <= m < turns[i + 1].content.len() && #[trigger] crate::input::is_result(
                        turns[i + 1].content[m],
                        id,
                    );
                assert(turns[i + 1].content[m] is ToolResult);
            }
        },
        ContentOf::ToolResult { tool_use_id, .. } => {
            assert(crate::input::is_result(turns[i].content[k], tool_use_id));
            assert(crate::input::gives(turns[i], tool_use_id));
            if turns[i].role == Role::User {
                assert(crate::input::makes(turns[i - 1], tool_use_id));
                let m = choose|m: int|
                    0 <= m < turns[i - 1].content.len() && #[trigger] crate::input::is_call(
                        turns[i - 1].content[m],
                        tool_use_id,
                    );
                assert(turns[i - 1].content[m] is ToolUse);
                assert forall|m: int| 0 <= m < k implies (#[trigger] turns[i].content[m]) is ToolResult
                    && turns[i].content[m]->tool_use_id != tool_use_id by {
                    let _ = turns[i].content[k];
                }
            }
        },
        _ => {},
    }
}

} // verus!
