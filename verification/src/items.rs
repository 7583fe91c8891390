//! Making output items: from plain parts, and from the JSON values that calls are built as.
use vstd::prelude::*;

use crate::json::{field, text_field, view_in, views, Fields, Json, JsonView, Object};
use crate::responses::{
    part_views, ActionCallOf, CustomToolCallOf, FunctionCallOf, ItemOf, ItemView, MessageOf,
    OutputItem, OutputPart, OutputStatus, PartOf, PartView, ReasoningOf,
};
use crate::text::{blank, owned, same, text_in};
use crate::usage::MessagePhase;

verus! {

broadcast use crate::json::lemma_array_view;

/// A piece of ordinary text.
pub fn stream_output_part(text: String) -> (r: OutputPart)
    ensures
        r@ == PartOf::OutputText(text@),
{
    PartOf::OutputText(text)
}

/// A piece that refuses.
pub fn stream_refusal_part(refusal: String) -> (r: OutputPart)
    ensures
        r@ == PartOf::Refusal(refusal@),
{
    PartOf::Refusal(refusal)
}

/// A message of one piece of text, or of none where it is just begun. Its phase is not yet known.
pub open spec fn message_item(
    id: Seq<char>,
    text: Seq<char>,
    status: OutputStatus,
) -> ItemView {
    ItemOf::Message(
        MessageOf {
            content: if text.len() == 0 && status == OutputStatus::InProgress {
                Seq::empty()
            } else {
                seq![PartOf::OutputText(text)]
            },
            id,
            phase: None,
            status,
        },
    )
}

/// A message of one piece of text, or of none where it is just begun.
pub fn stream_message_item(item_id: String, text: String, status: OutputStatus) -> (r: OutputItem)
    ensures
        r@ == message_item(item_id@, text@, status),
{
    let mut content: Vec<OutputPart> = Vec::new();
    if !blank(text.as_str()) || status != OutputStatus::InProgress {
        content.push(PartOf::OutputText(text));
    }
    let item = ItemOf::Message(MessageOf { content, id: item_id, phase: None, status });
    assert(part_views(content@) == message_item(item_id@, text@, status)->Message_0.content);
    item
}

/// A message that refuses without a word.
pub open spec fn empty_refusal_item(id: Seq<char>, status: OutputStatus) -> ItemView {
    ItemOf::Message(
        MessageOf { content: seq![PartOf::Refusal(Seq::empty())], id, phase: None, status },
    )
}

/// A message that refuses without a word.
pub fn stream_empty_refusal_item(item_id: String, status: OutputStatus) -> (r: OutputItem)
    ensures
        r@ == empty_refusal_item(item_id@, status),
{
    let mut content: Vec<OutputPart> = Vec::new();
    let nothing = String::new();
    content.push(PartOf::Refusal(nothing));
    assert(nothing@ == Seq::<char>::empty());
    assert(part_views(content@) == seq![PartOf::<Seq<char>>::Refusal(Seq::empty())]);
    ItemOf::Message(MessageOf { content, id: item_id, phase: None, status })
}

/// The item with a status, where its kind has one. A patch is never incomplete; a call of a tool
/// that takes free text has no status. None where the item is of an unknown kind.
pub open spec fn with_status(item: ItemView, status: OutputStatus) -> Option<ItemView> {
    match item {
        ItemOf::Message(m) => Some(
            ItemOf::Message(
                MessageOf { content: m.content, id: m.id, phase: m.phase, status },
            ),
        ),
        ItemOf::FunctionCall(c) => Some(
            ItemOf::FunctionCall(FunctionCallOf { status: Some(status), ..c }),
        ),
        ItemOf::Reasoning(i) => Some(
            ItemOf::Reasoning(ReasoningOf { id: i.id, status: Some(status) }),
        ),
        ItemOf::LocalShellCall(c) => Some(ItemOf::LocalShellCall(ActionCallOf { status, ..c })),
        ItemOf::ShellCall(c) => Some(ItemOf::ShellCall(ActionCallOf { status, ..c })),
        ItemOf::ApplyPatchCall(c) => Some(
            ItemOf::ApplyPatchCall(ActionCallOf { status: patch_status(status), ..c }),
        ),
        ItemOf::CustomToolCall(c) => Some(ItemOf::CustomToolCall(c)),
        ItemOf::Other(_) => None,
    }
}

/// The status of a patch, which is in progress or completed.
pub open spec fn patch_status(status: OutputStatus) -> OutputStatus {
    if status == OutputStatus::InProgress {
        OutputStatus::InProgress
    } else {
        OutputStatus::Completed
    }
}

/// Gives an item a status, where its kind has one.
pub fn set_output_item_status(item: &mut OutputItem, status: OutputStatus) -> (r: Result<(), ()>)
    ensures
        match with_status(old(item)@, status) {
            Some(set) => r is Ok && final(item)@ == set,
            None => r is Err && *final(item) == *old(item),
        },
{
    match item {
        ItemOf::Message(m) => {
            m.status = status;
        },
        ItemOf::FunctionCall(c) => {
            c.status = Some(status);
        },
        ItemOf::Reasoning(i) => {
            i.status = Some(status);
        },
        ItemOf::LocalShellCall(c) => {
            c.status = status;
        },
        ItemOf::ShellCall(c) => {
            c.status = status;
        },
        ItemOf::ApplyPatchCall(c) => {
            c.status = match status {
                OutputStatus::InProgress => OutputStatus::InProgress,
                OutputStatus::Completed | OutputStatus::Incomplete => OutputStatus::Completed,
            };
        },
        ItemOf::CustomToolCall(_) => {},
        ItemOf::Other(_) => {
            return Err(());
        },
    }
    Ok(())
}

/// The status of a name.
pub open spec fn status_named(name: Seq<char>) -> Option<OutputStatus> {
    if name == "in_progress"@ {
        Some(OutputStatus::InProgress)
    } else if name == "completed"@ {
        Some(OutputStatus::Completed)
    } else if name == "incomplete"@ {
        Some(OutputStatus::Incomplete)
    } else {
        None
    }
}

fn parse_status(name: &str) -> (r: Option<OutputStatus>)
    ensures
        r == status_named(name@),
{
    if same(name, "in_progress") {
        Some(OutputStatus::InProgress)
    } else if same(name, "completed") {
        Some(OutputStatus::Completed)
    } else if same(name, "incomplete") {
        Some(OutputStatus::Incomplete)
    } else {
        None
    }
}

/// The status in a field, where it is there and a status.
pub open spec fn status_field(fields: Fields) -> Option<OutputStatus> {
    match text_field(fields, "status"@) {
        Some(name) => status_named(name),
        None => None,
    }
}

fn read_status(o: &Object) -> (r: Option<OutputStatus>)
    ensures
        r == status_field(o@),
{
    match o.text("status") {
        Some(name) => parse_status(name),
        None => None,
    }
}

/// The string in a field that may be absent or null. None where it is anything else.
pub open spec fn maybe_text(fields: Fields, name: Seq<char>) -> Option<Option<Seq<char>>> {
    match field(fields, name) {
        None | Some(JsonView::Null) => Some(None),
        Some(JsonView::Text(s)) => Some(Some(s)),
        _ => None,
    }
}

fn read_maybe_text(o: &Object, name: &str) -> (r: Option<Option<String>>)
    ensures
        (match r {
            Some(s) => Some(text_in(s)),
            None => None,
        }) == maybe_text(o@, name@),
{
    match o.get(name) {
        None | Some(Json::Null) => Some(None),
        Some(Json::Text(s)) => Some(Some(owned(s.as_str()))),
        _ => None,
    }
}

/// A call of a function, where all it needs is there.
pub open spec fn function_of(fields: Fields) -> Option<ItemView> {
    let id = maybe_text(fields, "id"@);
    let call_id = text_field(fields, "call_id"@);
    let namespace = maybe_text(fields, "namespace"@);
    let name = text_field(fields, "name"@);
    let arguments = text_field(fields, "arguments"@);
    let status = status_field(fields);
    if id is Some && call_id is Some && namespace is Some && name is Some && arguments is Some
        && status is Some {
        Some(
            ItemOf::FunctionCall(
                FunctionCallOf {
                    id: id->0,
                    call_id: call_id->0,
                    namespace: namespace->0,
                    name: name->0,
                    arguments: arguments->0,
                    status: Some(status->0),
                },
            ),
        )
    } else {
        None
    }
}

fn read_function(o: &Object) -> (r: Option<OutputItem>)
    ensures
        (match r {
            Some(i) => Some(i@),
            None => None,
        }) == function_of(o@),
{
    match (
        read_maybe_text(o, "id"),
        o.text("call_id"),
        read_maybe_text(o, "namespace"),
        o.text("name"),
        o.text("arguments"),
        read_status(o),
    ) {
        (
            Some(id),
            Some(call_id),
            Some(namespace),
            Some(name),
            Some(arguments),
            Some(status),
        ) => Some(
            ItemOf::FunctionCall(
                FunctionCallOf {
                    id,
                    call_id: owned(call_id),
                    namespace,
                    name: owned(name),
                    arguments: owned(arguments),
                    status: Some(status),
                },
            ),
        ),
        _ => None,
    }
}

/// A call of a tool that takes free text, where all it needs is there.
pub open spec fn custom_of(fields: Fields) -> Option<ItemView> {
    let id = text_field(fields, "id"@);
    let call_id = text_field(fields, "call_id"@);
    let namespace = maybe_text(fields, "namespace"@);
    let name = text_field(fields, "name"@);
    let input = text_field(fields, "input"@);
    if id is Some && call_id is Some && namespace is Some && name is Some && input is Some {
        Some(
            ItemOf::CustomToolCall(
                CustomToolCallOf {
                    id: id->0,
                    call_id: call_id->0,
                    namespace: namespace->0,
                    name: name->0,
                    input: input->0,
                },
            ),
        )
    } else {
        None
    }
}

fn read_custom(o: &Object) -> (r: Option<OutputItem>)
    ensures
        (match r {
            Some(i) => Some(i@),
            None => None,
        }) == custom_of(o@),
{
    match (
        o.text("id"),
        o.text("call_id"),
        read_maybe_text(o, "namespace"),
        o.text("name"),
        o.text("input"),
    ) {
        (Some(id), Some(call_id), Some(namespace), Some(name), Some(input)) => Some(
            ItemOf::CustomToolCall(
                CustomToolCallOf {
                    id: owned(id),
                    call_id: owned(call_id),
                    namespace,
                    name: owned(name),
                    input: owned(input),
                },
            ),
        ),
        _ => None,
    }
}

/// A value, or null where it is absent.
pub open spec fn or_null(v: Option<JsonView>) -> JsonView {
    match v {
        Some(v) => v,
        None => JsonView::Null,
    }
}

/// A value, unless it is null.
pub open spec fn unless_null(v: Option<JsonView>) -> Option<JsonView> {
    if v == Some(JsonView::Null) {
        None
    } else {
        v
    }
}

fn copy_or_null(v: Option<&Json>) -> (r: Json)
    ensures
        r@ == or_null(view_in(v)),
{
    match v {
        Some(v) => v.copy(),
        None => Json::Null,
    }
}

fn copy_unless_null(v: Option<&Json>) -> (r: Option<Json>)
    ensures
        (match r {
            Some(j) => Some(j@),
            None => None,
        }) == unless_null(view_in(v)),
{
    match v {
        None | Some(Json::Null) => None,
        Some(v) => Some(v.copy()),
    }
}

/// An action of a local shell with every option written out, null where it is not given.
pub open spec fn local_action(fields: Fields) -> JsonView {
    JsonView::object().with("command"@, or_null(field(fields, "command"@))).with(
        "env"@,
        or_null(field(fields, "env"@)),
    ).with("timeout_ms"@, or_null(field(fields, "timeout_ms"@))).with(
        "user"@,
        or_null(field(fields, "user"@)),
    ).with("working_directory"@, or_null(field(fields, "working_directory"@)))
}

fn read_local_action(o: &Object) -> (r: Json)
    ensures
        r@ == local_action(o@),
{
    Json::object().with("command", copy_or_null(o.get("command"))).with(
        "env",
        copy_or_null(o.get("env")),
    ).with("timeout_ms", copy_or_null(o.get("timeout_ms"))).with(
        "user",
        copy_or_null(o.get("user")),
    ).with("working_directory", copy_or_null(o.get("working_directory")))
}

/// An action of a shell with the options that are given.
pub open spec fn shell_action(fields: Fields) -> JsonView {
    JsonView::object().with("commands"@, or_null(field(fields, "commands"@))).with_some(
        "timeout_ms"@,
        unless_null(field(fields, "timeout_ms"@)),
    ).with_some("max_output_length"@, unless_null(field(fields, "max_output_length"@)))
}

fn read_shell_action(o: &Object) -> (r: Json)
    ensures
        r@ == shell_action(o@),
{
    Json::object().with("commands", copy_or_null(o.get("commands"))).with_some(
        "timeout_ms",
        copy_unless_null(o.get("timeout_ms")),
    ).with_some("max_output_length", copy_unless_null(o.get("max_output_length")))
}

/// Which action a call asks for.
#[derive(Debug, Clone, Copy, PartialEq, Eq, Structural)]
pub enum ActionKind {
    LocalShell,
    Shell,
    Patch,
}

/// A call that asks the client to act, where all it needs is there.
pub open spec fn action_of(kind: ActionKind, fields: Fields) -> Option<ItemView> {
    let id = text_field(fields, "id"@);
    let call_id = text_field(fields, "call_id"@);
    let status = status_field(fields);
    let action = if kind == ActionKind::Patch {
        field(fields, "operation"@)
    } else {
        field(fields, "action"@)
    };
    if id is Some && call_id is Some && status is Some && action is Some && action->0 is Object {
        let given = action->0->Object_0;
        match kind {
            ActionKind::LocalShell => Some(
                ItemOf::LocalShellCall(
                    ActionCallOf {
                        id: id->0,
                        call_id: call_id->0,
                        action: local_action(given),
                        status: status->0,
                    },
                ),
            ),
            ActionKind::Shell => Some(
                ItemOf::ShellCall(
                    ActionCallOf {
                        id: id->0,
                        call_id: call_id->0,
                        action: shell_action(given),
                        status: status->0,
                    },
                ),
            ),
            ActionKind::Patch => Some(
                ItemOf::ApplyPatchCall(
                    ActionCallOf {
                        id: id->0,
                        call_id: call_id->0,
                        action: action->0,
                        status: status->0,
                    },
                ),
            ),
        }
    } else {
        None
    }
}

fn read_action(kind: ActionKind, o: &Object) -> (r: Option<OutputItem>)
    ensures
        (match r {
            Some(i) => Some(i@),
            None => None,
        }) == action_of(kind, o@),
{
    let action = match kind {
        ActionKind::Patch => o.get("operation"),
        _ => o.get("action"),
    };
    match (o.text("id"), o.text("call_id"), read_status(o), action) {
        (Some(id), Some(call_id), Some(status), Some(Json::Object(given))) => {
            let id = owned(id);
            let call_id = owned(call_id);
            match kind {
                ActionKind::LocalShell => Some(
                    ItemOf::LocalShellCall(
                        ActionCallOf { id, call_id, action: read_local_action(given), status },
                    ),
                ),
                ActionKind::Shell => Some(
                    ItemOf::ShellCall(
                        ActionCallOf { id, call_id, action: read_shell_action(given), status },
                    ),
                ),
                ActionKind::Patch => Some(
                    ItemOf::ApplyPatchCall(
                        ActionCallOf { id, call_id, action: Json::Object(given.copy()), status },
                    ),
                ),
            }
        },
        _ => None,
    }
}

/// A piece of a message, where it is one.
pub open spec fn part_of(v: JsonView) -> Option<PartView> {
    if v.text_at("type"@) == Some("output_text"@) && v.text_at("text"@) is Some {
        Some(PartOf::OutputText(v.text_at("text"@)->0))
    } else if v.text_at("type"@) == Some("refusal"@) && v.text_at("refusal"@) is Some {
        Some(PartOf::Refusal(v.text_at("refusal"@)->0))
    } else {
        None
    }
}

fn read_part(v: &Json) -> (r: Option<OutputPart>)
    ensures
        (match r {
            Some(p) => Some(p@),
            None => None,
        }) == part_of(v@),
{
    match v.text_at("type") {
        Some(kind) => {
            if same(kind, "output_text") {
                if let Some(text) = v.text_at("text") {
                    return Some(PartOf::OutputText(owned(text)));
                }
            }
            if same(kind, "refusal") {
                if let Some(text) = v.text_at("refusal") {
                    proof {
                        reveal_strlit("refusal");
                        reveal_strlit("output_text");
                    }
                    return Some(PartOf::Refusal(owned(text)));
                }
            }
            None
        },
        None => None,
    }
}

/// The pieces of a message, from the `n`th on, where every one is a piece.
pub open spec fn parts_from(items: Seq<JsonView>, n: int) -> Option<Seq<PartView>>
    decreases items.len() - n,
{
    if n < 0 || n >= items.len() {
        Some(Seq::empty())
    } else {
        match (part_of(items[n]), parts_from(items, n + 1)) {
            (Some(part), Some(rest)) => Some(seq![part] + rest),
            _ => None,
        }
    }
}

fn read_parts(items: &Vec<Json>) -> (r: Option<Vec<OutputPart>>)
    ensures
        (match r {
            Some(parts) => Some(part_views(parts@)),
            None => None,
        }) == parts_from(views(items@), 0),
{
    let mut parts: Vec<OutputPart> = Vec::new();
    let mut i: usize = 0;
    while i < items.len()
        invariant
            i <= items.len(),
            match parts_from(views(items@), i as int) {
                Some(rest) => parts_from(views(items@), 0) == Some(part_views(parts@) + rest),
                None => parts_from(views(items@), 0) is None,
            },
        decreases items.len() - i,
    {
        assert(views(items@)[i as int] == items@[i as int]@);
        match read_part(&items[i]) {
            Some(part) => {
                let ghost before = part_views(parts@);
                parts.push(part);
                assert(part_views(parts@) == before.push(part@));
                proof {
                    match parts_from(views(items@), i as int + 1) {
                        Some(rest) => {
                            assert(before + (seq![part@] + rest) == part_views(parts@) + rest);
                        },
                        None => {},
                    }
                }
            },
            None => return None,
        }
        i = i + 1;
    }
    assert(part_views(parts@) + Seq::<PartView>::empty() == part_views(parts@));
    Some(parts)
}

/// The phase in a field that may be absent. None where it is no phase.
pub open spec fn phase_field(fields: Fields) -> Option<Option<MessagePhase>> {
    match field(fields, "phase"@) {
        None => Some(None),
        Some(JsonView::Text(name)) => if name == "commentary"@ {
            Some(Some(MessagePhase::Commentary))
        } else if name == "final_answer"@ {
            Some(Some(MessagePhase::FinalAnswer))
        } else {
            None
        },
        _ => None,
    }
}

fn read_phase(o: &Object) -> (r: Option<Option<MessagePhase>>)
    ensures
        r == phase_field(o@),
{
    match o.get("phase") {
        None => Some(None),
        Some(Json::Text(name)) => if same(name.as_str(), "commentary") {
            Some(Some(MessagePhase::Commentary))
        } else if same(name.as_str(), "final_answer") {
            Some(Some(MessagePhase::FinalAnswer))
        } else {
            None
        },
        _ => None,
    }
}

/// A message, where all it needs is there.
pub open spec fn message_of(fields: Fields) -> Option<ItemView> {
    let id = text_field(fields, "id"@);
    let phase = phase_field(fields);
    let status = status_field(fields);
    match field(fields, "content"@) {
        Some(JsonView::Array(items)) => {
            let parts = parts_from(items, 0);
            if id is Some && phase is Some && status is Some && parts is Some {
                Some(
                    ItemOf::Message(
                        MessageOf {
                            content: parts->0,
                            id: id->0,
                            phase: phase->0,
                            status: status->0,
                        },
                    ),
                )
            } else {
                None
            }
        },
        _ => None,
    }
}

fn read_message(o: &Object) -> (r: Option<OutputItem>)
    ensures
        (match r {
            Some(i) => Some(i@),
            None => None,
        }) == message_of(o@),
{
    match o.get("content") {
        Some(Json::Array(items)) => match (
            o.text("id"),
            read_phase(o),
            read_status(o),
            read_parts(items),
        ) {
            (Some(id), Some(phase), Some(status), Some(content)) => Some(
                ItemOf::Message(MessageOf { content, id: owned(id), phase, status }),
            ),
            _ => None,
        },
        _ => None,
    }
}

/// The item that a JSON value stands for, where it is one.
pub open spec fn item_of(v: JsonView) -> Option<ItemView> {
    match v {
        JsonView::Object(fields) => {
            let kind = text_field(fields, "type"@);
            if kind == Some("message"@) {
                message_of(fields)
            } else if kind == Some("function_call"@) {
                function_of(fields)
            } else if kind == Some("custom_tool_call"@) {
                custom_of(fields)
            } else if kind == Some("local_shell_call"@) {
                action_of(ActionKind::LocalShell, fields)
            } else if kind == Some("shell_call"@) {
                action_of(ActionKind::Shell, fields)
            } else if kind == Some("apply_patch_call"@) {
                action_of(ActionKind::Patch, fields)
            } else {
                None
            }
        },
        _ => None,
    }
}

/// The item that a JSON value stands for. Options that are not given are written as the Responses
/// API writes them.
pub fn stream_item(v: &Json) -> (r: Result<OutputItem, ()>)
    ensures
        match r {
            Ok(item) => item_of(v@) == Some(item@),
            Err(_) => item_of(v@) is None,
        },
{
    let o = match v {
        Json::Object(o) => o,
        _ => return Err(()),
    };
    let kind = match o.text("type") {
        Some(kind) => kind,
        None => return Err(()),
    };
    let item = if same(kind, "message") {
        read_message(o)
    } else if same(kind, "function_call") {
        read_function(o)
    } else if same(kind, "custom_tool_call") {
        read_custom(o)
    } else if same(kind, "local_shell_call") {
        read_action(ActionKind::LocalShell, o)
    } else if same(kind, "shell_call") {
        read_action(ActionKind::Shell, o)
    } else if same(kind, "apply_patch_call") {
        read_action(ActionKind::Patch, o)
    } else {
        None
    };
    match item {
        Some(item) => Ok(item),
        None => Err(()),
    }
}

} // verus!
