//! What an answer puts out, the next request can carry: nothing is stored between the two, so a
//! client sends back what it was given.
use vstd::prelude::*;
use vstd::utf8::encode_utf8;

use crate::actions::action_ok;
use crate::choice::{sole, WantedOf};
use crate::codec::parsed;
use crate::content::{assistant_part, assistant_parts_from, assistant_texts, pushed, text_blocks};
use crate::error::{unsupported, AIError, Unsupported};
use crate::history::{arguments_in, called, history_taken, HistoryView};
use crate::input::{item_taken, TallyOf, TallyView};
use crate::json::{field, lemma_position, lemma_put_field, only, put, JsonView};
use crate::messages::Role;
use crate::request_types::{ContentOf, ContentView};
use crate::responses::{
    item_json, part_json, parts_json, ActionCallOf, CustomToolCallOf, FunctionCallOf, ItemOf,
    ItemView, MessageView, OutputStatus, PartOf, PartView,
};
use crate::text::named;
use crate::tools::{DeclaredOf, Table, WrappedKind};

verus! {

/// What is known of an object once a field is set.
proof fn lemma_with(v: JsonView, name: Seq<char>, value: JsonView, names: Seq<&str>)
    requires
        v is Object,
    ensures
        v.with(name, value) is Object,
        field(v.with(name, value)->Object_0, name) == Some(value),
        forall|other: Seq<char>|
            other != name ==> #[trigger] field(v.with(name, value)->Object_0, other) == field(
                v->Object_0,
                other,
            ),
        only(v->Object_0, names) && named(names, name) ==> only(
            v.with(name, value)->Object_0,
            names,
        ),
{
    let o = v->Object_0;
    lemma_position(o, name, 0);
    lemma_put_field(o, name, value, name);
    assert forall|other: Seq<char>| other != name implies #[trigger] field(
        v.with(name, value)->Object_0,
        other,
    ) == field(o, other) by {
        lemma_put_field(o, name, value, other);
    }
    if only(o, names) && named(names, name) {
        let set = put(o, name, value);
        assert forall|i: int| 0 <= i < set.len() implies named(names, (#[trigger] set[i]).0) by {
            if i < o.len() {
                assert(named(names, o[i].0));
            }
        }
    }
}

/// The object without fields has none.
proof fn lemma_empty(names: Seq<&str>)
    ensures
        JsonView::object() is Object,
        only(JsonView::object()->Object_0, names),
        forall|name: Seq<char>| (#[trigger] field(JsonView::object()->Object_0, name)) is None,
{
}

proof fn lemma_field_names()
    ensures
        "type"@.len() == 4 && "type"@[0] == 't',
        "id"@.len() == 2,
        "role"@.len() == 4 && "role"@[0] == 'r',
        "phase"@.len() == 5 && "phase"@[0] == 'p',
        "status"@.len() == 6 && "status"@[0] == 's',
        "content"@.len() == 7 && "content"@[1] == 'o',
        "call_id"@.len() == 7 && "call_id"@[1] == 'a',
        "namespace"@.len() == 9 && "namespace"@[0] == 'n',
        "name"@.len() == 4 && "name"@[0] == 'n',
        "arguments"@.len() == 9 && "arguments"@[0] == 'a',
        "input"@.len() == 5 && "input"@[0] == 'i',
        "action"@.len() == 6 && "action"@[0] == 'a',
        "operation"@.len() == 9 && "operation"@[0] == 'o',
        "environment"@.len() == 11,
        "text"@.len() == 4 && "text"@[1] == 'e' && "type"@[1] == 'y',
        "refusal"@.len() == 7 && "refusal"@[0] == 'r',
        "annotations"@.len() == 11,
        "logprobs"@.len() == 8,
{
    reveal_strlit("type");
    reveal_strlit("id");
    reveal_strlit("role");
    reveal_strlit("phase");
    reveal_strlit("status");
    reveal_strlit("content");
    reveal_strlit("call_id");
    reveal_strlit("namespace");
    reveal_strlit("name");
    reveal_strlit("arguments");
    reveal_strlit("input");
    reveal_strlit("action");
    reveal_strlit("operation");
    reveal_strlit("environment");
    reveal_strlit("text");
    reveal_strlit("refusal");
    reveal_strlit("annotations");
    reveal_strlit("logprobs");
}

proof fn lemma_kinds()
    ensures
        "message"@.len() == 7,
        "reasoning"@.len() == 9,
        "function_call"@.len() == 13,
        "custom_tool_call"@.len() == 16 && "custom_tool_call"@[0] == 'c',
        "local_shell_call"@.len() == 16 && "local_shell_call"@[0] == 'l',
        "shell_call"@.len() == 10,
        "apply_patch_call"@.len() == 16 && "apply_patch_call"@[0] == 'a',
        "function_call_output"@.len() == 20,
        "custom_tool_call_output"@.len() == 23,
        "local_shell_call_output"@.len() == 23,
        "shell_call_output"@.len() == 17,
        "apply_patch_call_output"@.len() == 23,
        "output_text"@.len() == 11,
        "system"@.len() == 6,
        "developer"@.len() == 9 && "developer"@[0] == 'd',
        "user"@.len() == 4,
        "assistant"@.len() == 9 && "assistant"@[0] == 'a',
{
    reveal_strlit("message");
    reveal_strlit("reasoning");
    reveal_strlit("function_call");
    reveal_strlit("custom_tool_call");
    reveal_strlit("local_shell_call");
    reveal_strlit("shell_call");
    reveal_strlit("apply_patch_call");
    reveal_strlit("function_call_output");
    reveal_strlit("custom_tool_call_output");
    reveal_strlit("local_shell_call_output");
    reveal_strlit("shell_call_output");
    reveal_strlit("apply_patch_call_output");
    reveal_strlit("output_text");
    reveal_strlit("system");
    reveal_strlit("developer");
    reveal_strlit("user");
    reveal_strlit("assistant");
}

/// The text of a part.
pub open spec fn part_text(part: PartView) -> Seq<char> {
    match part {
        PartOf::OutputText(text) => text,
        PartOf::Refusal(text) => text,
    }
}

/// A part of an answer is taken again as its text, whether it was put out as text or as a
/// refusal. Only a part without text is not.
pub proof fn lemma_part_replays(part: PartView)
    ensures
        part_text(part).len() > 0 ==> assistant_part(part_json(part)) == Ok::<Seq<char>, AIError>(
            part_text(part),
        ),
        part matches PartOf::OutputText(text) && text.len() == 0 ==> assistant_part(
            part_json(part),
        ) == Err::<Seq<char>, AIError>(unsupported(Unsupported::AssistantText)),
        part matches PartOf::Refusal(text) && text.len() == 0 ==> assistant_part(part_json(part))
            == Err::<Seq<char>, AIError>(unsupported(Unsupported::EmptyRefusal)),
{
    lemma_field_names();
    lemma_kinds();
    match part {
        PartOf::OutputText(text) => {
            let names = seq!["type", "text", "annotations", "logprobs"];
            assert(names[0]@ == "type"@ && names[1]@ == "text"@ && names[2]@ == "annotations"@
                && names[3]@ == "logprobs"@);
            lemma_empty(names);
            let a = JsonView::object();
            lemma_with(a, "type"@, JsonView::Text("output_text"@), names);
            let b = a.with("type"@, JsonView::Text("output_text"@));
            lemma_with(b, "annotations"@, JsonView::Array(Seq::empty()), names);
            let c = b.with("annotations"@, JsonView::Array(Seq::empty()));
            lemma_with(c, "logprobs"@, JsonView::Null, names);
            let d = c.with("logprobs"@, JsonView::Null);
            lemma_with(d, "text"@, JsonView::Text(text), names);
        },
        PartOf::Refusal(text) => {
            let names = seq!["type", "refusal"];
            assert(names[0]@ == "type"@ && names[1]@ == "refusal"@);
            lemma_empty(names);
            let a = JsonView::object();
            lemma_with(a, "type"@, JsonView::Text("refusal"@), names);
            let b = a.with("type"@, JsonView::Text("refusal"@));
            lemma_with(b, "refusal"@, JsonView::Text(text), names);
        },
    }
}

/// The texts of parts.
pub open spec fn part_texts(parts: Seq<PartView>) -> Seq<Seq<char>> {
    parts.map_values(|p: PartView| part_text(p))
}

proof fn lemma_parts_replay(parts: Seq<PartView>, n: int)
    requires
        0 <= n <= parts.len(),
        forall|i: int| 0 <= i < parts.len() ==> part_text(#[trigger] parts[i]).len() > 0,
    ensures
        assistant_parts_from(parts_json(parts)->Array_0, n) == Ok::<Seq<Seq<char>>, AIError>(
            part_texts(parts).skip(n),
        ),
    decreases parts.len() - n,
{
    let items = parts_json(parts)->Array_0;
    if n < parts.len() {
        lemma_parts_replay(parts, n + 1);
        lemma_part_replays(parts[n]);
        assert(items[n] == part_json(parts[n]));
        assert(part_texts(parts).skip(n) == seq![part_text(parts[n])] + part_texts(parts).skip(
            n + 1,
        ));
    } else {
        assert(part_texts(parts).skip(n) == Seq::<Seq<char>>::empty());
    }
}

/// A message that an answer put out is taken again as a message of the assistant with the same
/// texts, provided that it is over, and that none of its parts is without text.
pub proof fn lemma_message_replays(m: MessageView, tools: Table, t: TallyView)
    requires
        m.status != OutputStatus::InProgress,
        m.content.len() > 0,
        forall|i: int| 0 <= i < m.content.len() ==> part_text(#[trigger] m.content[i]).len() > 0,
    ensures
        item_taken(item_json(ItemOf::Message(m)), tools, t) == Ok::<TallyView, AIError>(
            (TallyOf {
                output: pushed(
                    t.output,
                    Role::Assistant,
                    text_blocks(part_texts(m.content)),
                ),
                system: t.system,
                history: t.history,
            }),
        ),
{
    lemma_field_names();
    lemma_kinds();
    let names = seq!["type", "role", "content", "id", "phase", "status"];
    assert(names[0]@ == "type"@ && names[1]@ == "role"@ && names[2]@ == "content"@ && names[3]@
        == "id"@ && names[4]@ == "phase"@ && names[5]@ == "status"@);
    lemma_empty(names);
    let a = JsonView::object();
    lemma_with(a, "type"@, JsonView::Text("message"@), names);
    let b = a.with("type"@, JsonView::Text("message"@));
    lemma_with(b, "id"@, JsonView::Text(m.id), names);
    let c = b.with("id"@, JsonView::Text(m.id));
    lemma_with(c, "role"@, JsonView::Text("assistant"@), names);
    let d = c.with("role"@, JsonView::Text("assistant"@));
    let e = d.with_some("phase"@, crate::responses::phase_json(m.phase));
    match m.phase {
        Some(phase) => {
            lemma_with(d, "phase"@, JsonView::Text(phase.name_spec()), names);
        },
        None => {},
    }
    lemma_with(e, "status"@, JsonView::Text(m.status.name_spec()), names);
    let f = e.with("status"@, JsonView::Text(m.status.name_spec()));
    lemma_with(f, "content"@, parts_json(m.content), names);
    let o = item_json(ItemOf::Message(m))->Object_0;
    assert(history_taken(o, tools, t.history) == Ok::<
        Option<(Role, ContentView, HistoryView)>,
        AIError,
    >(None)) by {
        reveal(history_taken);
    }
    lemma_parts_replay(m.content, 0);
    assert(part_texts(m.content).skip(0) == part_texts(m.content));
    assert(assistant_texts(parts_json(m.content)) == Ok::<Seq<Seq<char>>, AIError>(
        part_texts(m.content),
    ));
}

/// A call of a function that an answer put out is taken again as the call that it was: with the
/// same id, of the tool that was declared under its name, with the arguments that its text stands
/// for. It must be over, its id new, and the tool still the only one of its name.
pub proof fn lemma_function_call_replays(
    c: FunctionCallOf<Seq<char>>,
    upstream: Seq<char>,
    declared: DeclaredOf<Seq<char>>,
    tools: Table,
    h: HistoryView,
)
    requires
        c.call_id.len() > 0,
        c.status != Some(OutputStatus::InProgress),
        c.namespace matches Some(namespace) ==> namespace.len() > 0,
        sole(
            tools,
            WantedOf::Exactly {
                kind: WrappedKind::NamespaceFunction,
                name: c.name,
                namespace: c.namespace,
                or_function: true,
            },
        ) == Some((upstream, declared)),
        called(h, c.call_id, declared) is Some,
    ensures
        parsed(encode_utf8(c.arguments)) matches Some(JsonView::Object(arguments)) ==> history_taken(
            item_json(ItemOf::FunctionCall(c))->Object_0,
            tools,
            h,
        ) == Ok::<Option<(Role, ContentView, HistoryView)>, AIError>(
            Some(
                (
                    Role::Assistant,
                    ContentOf::ToolUse {
                        id: c.call_id,
                        name: upstream,
                        input: match declared {
                            DeclaredOf::Function => JsonView::Object(arguments),
                            DeclaredOf::Wrapped(_) => JsonView::object().with(
                                "arguments"@,
                                JsonView::Object(arguments),
                            ),
                        },
                    },
                    called(h, c.call_id, declared)->0,
                ),
            ),
        ),
{
    lemma_field_names();
    lemma_kinds();
    let names = seq!["type", "arguments", "call_id", "namespace", "name", "id", "status"];
    assert(names[0]@ == "type"@ && names[1]@ == "arguments"@ && names[2]@ == "call_id"@ && names[3]@
        == "namespace"@ && names[4]@ == "name"@ && names[5]@ == "id"@ && names[6]@ == "status"@);
    lemma_empty(names);
    let a = JsonView::object();
    lemma_with(a, "type"@, JsonView::Text("function_call"@), names);
    let b = a.with("type"@, JsonView::Text("function_call"@));
    let d = b.with_some("id"@, crate::responses::text_json(c.id));
    match c.id {
        Some(id) => {
            lemma_with(b, "id"@, JsonView::Text(id), names);
        },
        None => {},
    }
    lemma_with(d, "call_id"@, JsonView::Text(c.call_id), names);
    let e = d.with("call_id"@, JsonView::Text(c.call_id));
    let f = e.with_some("namespace"@, crate::responses::text_json(c.namespace));
    match c.namespace {
        Some(namespace) => {
            lemma_with(e, "namespace"@, JsonView::Text(namespace), names);
        },
        None => {},
    }
    lemma_with(f, "name"@, JsonView::Text(c.name), names);
    let g = f.with("name"@, JsonView::Text(c.name));
    lemma_with(g, "arguments"@, JsonView::Text(c.arguments), names);
    let i = g.with("arguments"@, JsonView::Text(c.arguments));
    match c.status {
        Some(status) => {
            lemma_with(i, "status"@, JsonView::Text(status.name_spec()), names);
        },
        None => {},
    }
    let o = item_json(ItemOf::FunctionCall(c))->Object_0;
    assert(arguments_in(o) == parsed(encode_utf8(c.arguments)));
    reveal(history_taken);
}

/// A call of a tool that takes free text is taken again as the call that it was, with the same id
/// and text.
pub proof fn lemma_custom_call_replays(
    c: CustomToolCallOf<Seq<char>>,
    upstream: Seq<char>,
    declared: DeclaredOf<Seq<char>>,
    tools: Table,
    h: HistoryView,
)
    requires
        c.id.len() > 0,
        c.call_id.len() > 0,
        c.namespace matches Some(namespace) ==> namespace.len() > 0,
        sole(
            tools,
            WantedOf::Exactly {
                kind: if c.namespace is Some {
                    WrappedKind::NamespaceCustom
                } else {
                    WrappedKind::Custom
                },
                name: c.name,
                namespace: c.namespace,
                or_function: false,
            },
        ) == Some((upstream, declared)),
        called(h, c.call_id, declared) is Some,
    ensures
        history_taken(item_json(ItemOf::CustomToolCall(c))->Object_0, tools, h) == Ok::<
            Option<(Role, ContentView, HistoryView)>,
            AIError,
        >(
            Some(
                (
                    Role::Assistant,
                    ContentOf::ToolUse {
                        id: c.call_id,
                        name: upstream,
                        input: JsonView::object().with("input"@, JsonView::Text(c.input)),
                    },
                    called(h, c.call_id, declared)->0,
                ),
            ),
        ),
{
    lemma_field_names();
    lemma_kinds();
    let names = seq!["type", "call_id", "namespace", "input", "name", "id", "status"];
    assert(names[0]@ == "type"@ && names[1]@ == "call_id"@ && names[2]@ == "namespace"@ && names[3]@
        == "input"@ && names[4]@ == "name"@ && names[5]@ == "id"@ && names[6]@ == "status"@);
    lemma_empty(names);
    let a = JsonView::object();
    lemma_with(a, "type"@, JsonView::Text("custom_tool_call"@), names);
    let b = a.with("type"@, JsonView::Text("custom_tool_call"@));
    lemma_with(b, "id"@, JsonView::Text(c.id), names);
    let d = b.with("id"@, JsonView::Text(c.id));
    lemma_with(d, "call_id"@, JsonView::Text(c.call_id), names);
    let e = d.with("call_id"@, JsonView::Text(c.call_id));
    let f = e.with_some("namespace"@, crate::responses::text_json(c.namespace));
    match c.namespace {
        Some(namespace) => {
            lemma_with(e, "namespace"@, JsonView::Text(namespace), names);
        },
        None => {},
    }
    lemma_with(f, "name"@, JsonView::Text(c.name), names);
    let g = f.with("name"@, JsonView::Text(c.name));
    lemma_with(g, "input"@, JsonView::Text(c.input), names);
    reveal(history_taken);
}

/// The item that a call for an action is put out as.
pub open spec fn action_item(kind: WrappedKind, c: ActionCallOf<Seq<char>, JsonView>) -> ItemView {
    match kind {
        WrappedKind::LocalShell => ItemOf::LocalShellCall(c),
        WrappedKind::Shell => ItemOf::ShellCall(c),
        _ => ItemOf::ApplyPatchCall(c),
    }
}

/// A call for an action is taken again as the call that it was, with the same id and action.
pub proof fn lemma_action_call_replays(
    kind: WrappedKind,
    c: ActionCallOf<Seq<char>, JsonView>,
    upstream: Seq<char>,
    declared: DeclaredOf<Seq<char>>,
    tools: Table,
    h: HistoryView,
)
    requires
        crate::actions::has_action(kind),
        c.id.len() > 0,
        c.call_id.len() > 0,
        c.status != OutputStatus::InProgress,
        action_ok(kind, c.action),
        sole(tools, WantedOf::Kind(kind)) == Some((upstream, declared)),
        called(h, c.call_id, declared) is Some,
    ensures
        history_taken(item_json(action_item(kind, c))->Object_0, tools, h) == Ok::<
            Option<(Role, ContentView, HistoryView)>,
            AIError,
        >(
            Some(
                (
                    Role::Assistant,
                    ContentOf::ToolUse {
                        id: c.call_id,
                        name: upstream,
                        input: JsonView::object().with(kind.field(), c.action),
                    },
                    called(h, c.call_id, declared)->0,
                ),
            ),
        ),
{
    lemma_field_names();
    lemma_kinds();
    let names = match kind {
        WrappedKind::Shell => seq!["type", "id", "call_id", "action", "status", "environment"],
        WrappedKind::LocalShell => seq!["type", "id", "call_id", "action", "status"],
        _ => seq!["type", "id", "call_id", "operation", "status"],
    };
    let told = match kind {
        WrappedKind::Shell => "shell_call"@,
        WrappedKind::LocalShell => "local_shell_call"@,
        _ => "apply_patch_call"@,
    };
    assert(names[0]@ == "type"@ && names[1]@ == "id"@ && names[2]@ == "call_id"@ && names[3]@
        == kind.field() && names[4]@ == "status"@);
    lemma_empty(names);
    let a = JsonView::object();
    lemma_with(a, "type"@, JsonView::Text(told), names);
    let b = a.with("type"@, JsonView::Text(told));
    lemma_with(b, "id"@, JsonView::Text(c.id), names);
    let d = b.with("id"@, JsonView::Text(c.id));
    lemma_with(d, "call_id"@, JsonView::Text(c.call_id), names);
    let e = d.with("call_id"@, JsonView::Text(c.call_id));
    lemma_with(e, kind.field(), c.action, names);
    let f = e.with(kind.field(), c.action);
    lemma_with(f, "status"@, JsonView::Text(c.status.name_spec()), names);
    let g = f.with("status"@, JsonView::Text(c.status.name_spec()));
    if kind == WrappedKind::Shell {
        assert(names[5]@ == "environment"@);
        lemma_with(g, "environment"@, crate::responses::local_json(), names);
        assert(crate::actions::local_environment(crate::responses::local_json())) by {
            lemma_empty(names);
            lemma_with(JsonView::object(), "type"@, JsonView::Text("local"@), names);
        }
    }
    reveal(history_taken);
}

} // verus!
