//! What holds of every call that an answer puts out: the client is asked for what the model asked
//! for.
use vstd::prelude::*;

use crate::calls::{tool_item, wrapped_ok};
use crate::codec::json_text;
use crate::items::item_of;
use crate::json::JsonView;
use crate::lookups::lemma_put_lookup;
use crate::responses::item_json;
use crate::text::decimal;
use crate::tools::{tool_named, DeclaredOf, Table, WrappedKind};

verus! {

proof fn lemma_item_names()
    ensures
        "type"@ != "id"@,
        "type"@ != "call_id"@,
        "type"@ != "name"@,
        "type"@ != "namespace"@,
        "type"@ != "arguments"@,
        "type"@ != "status"@,
        "type"@ != "input"@,
        "type"@ != "action"@,
        "type"@ != "operation"@,
        "type"@ != "environment"@,
        "id"@ != "call_id"@,
        "id"@ != "name"@,
        "id"@ != "namespace"@,
        "id"@ != "arguments"@,
        "id"@ != "status"@,
        "id"@ != "input"@,
        "id"@ != "action"@,
        "id"@ != "operation"@,
        "id"@ != "environment"@,
        "call_id"@ != "name"@,
        "call_id"@ != "namespace"@,
        "call_id"@ != "arguments"@,
        "call_id"@ != "status"@,
        "call_id"@ != "input"@,
        "call_id"@ != "action"@,
        "call_id"@ != "operation"@,
        "call_id"@ != "environment"@,
        "name"@ != "namespace"@,
        "name"@ != "arguments"@,
        "name"@ != "status"@,
        "name"@ != "input"@,
        "name"@ != "action"@,
        "name"@ != "operation"@,
        "name"@ != "environment"@,
        "namespace"@ != "arguments"@,
        "namespace"@ != "status"@,
        "namespace"@ != "input"@,
        "namespace"@ != "action"@,
        "namespace"@ != "operation"@,
        "namespace"@ != "environment"@,
        "arguments"@ != "status"@,
        "arguments"@ != "input"@,
        "arguments"@ != "action"@,
        "arguments"@ != "operation"@,
        "arguments"@ != "environment"@,
        "status"@ != "input"@,
        "status"@ != "action"@,
        "status"@ != "operation"@,
        "status"@ != "environment"@,
        "input"@ != "action"@,
        "input"@ != "operation"@,
        "input"@ != "environment"@,
        "action"@ != "operation"@,
        "action"@ != "environment"@,
        "operation"@ != "environment"@,
{
    reveal_strlit("type");
    reveal_strlit("id");
    reveal_strlit("call_id");
    reveal_strlit("name");
    reveal_strlit("namespace");
    reveal_strlit("arguments");
    reveal_strlit("status");
    reveal_strlit("input");
    reveal_strlit("action");
    reveal_strlit("operation");
    reveal_strlit("environment");
    assert("type"@.len() == 4);
    assert("id"@.len() == 2);
    assert("call_id"@.len() == 7);
    assert("name"@.len() == 4);
    assert("namespace"@.len() == 9);
    assert("arguments"@.len() == 9);
    assert("status"@.len() == 6);
    assert("input"@.len() == 5);
    assert("action"@.len() == 6);
    assert("operation"@.len() == 9);
    assert("environment"@.len() == 11);
    assert("type"@[0] == 't');
    assert("name"@[0] == 'n');
    assert("namespace"@[0] == 'n');
    assert("arguments"@[0] == 'a');
    assert("operation"@[0] == 'o');
    assert("status"@[0] == 's');
    assert("action"@[0] == 'a');
}

proof fn lemma_action_names()
    ensures
        "command"@ != "env"@,
        "command"@ != "timeout_ms"@,
        "command"@ != "user"@,
        "command"@ != "working_directory"@,
        "command"@ != "commands"@,
        "command"@ != "max_output_length"@,
        "env"@ != "timeout_ms"@,
        "env"@ != "user"@,
        "env"@ != "working_directory"@,
        "env"@ != "commands"@,
        "env"@ != "max_output_length"@,
        "timeout_ms"@ != "user"@,
        "timeout_ms"@ != "working_directory"@,
        "timeout_ms"@ != "commands"@,
        "timeout_ms"@ != "max_output_length"@,
        "user"@ != "working_directory"@,
        "user"@ != "commands"@,
        "user"@ != "max_output_length"@,
        "working_directory"@ != "commands"@,
        "working_directory"@ != "max_output_length"@,
        "commands"@ != "max_output_length"@,
{
    reveal_strlit("command");
    reveal_strlit("env");
    reveal_strlit("timeout_ms");
    reveal_strlit("user");
    reveal_strlit("working_directory");
    reveal_strlit("commands");
    reveal_strlit("max_output_length");
    assert("command"@.len() == 7);
    assert("env"@.len() == 3);
    assert("timeout_ms"@.len() == 10);
    assert("user"@.len() == 4);
    assert("working_directory"@.len() == 17);
    assert("commands"@.len() == 8);
    assert("max_output_length"@.len() == 17);
    assert("working_directory"@[0] == 'w');
    assert("max_output_length"@[0] == 'm');
}

proof fn lemma_item_types()
    ensures
        "message"@ != "function_call"@,
        "message"@ != "custom_tool_call"@,
        "message"@ != "local_shell_call"@,
        "message"@ != "shell_call"@,
        "message"@ != "apply_patch_call"@,
        "function_call"@ != "custom_tool_call"@,
        "function_call"@ != "local_shell_call"@,
        "function_call"@ != "shell_call"@,
        "function_call"@ != "apply_patch_call"@,
        "custom_tool_call"@ != "local_shell_call"@,
        "custom_tool_call"@ != "shell_call"@,
        "custom_tool_call"@ != "apply_patch_call"@,
        "local_shell_call"@ != "shell_call"@,
        "local_shell_call"@ != "apply_patch_call"@,
        "shell_call"@ != "apply_patch_call"@,
{
    reveal_strlit("message");
    reveal_strlit("function_call");
    reveal_strlit("custom_tool_call");
    reveal_strlit("local_shell_call");
    reveal_strlit("shell_call");
    reveal_strlit("apply_patch_call");
    assert("message"@.len() == 7);
    assert("function_call"@.len() == 13);
    assert("custom_tool_call"@.len() == 16);
    assert("local_shell_call"@.len() == 16);
    assert("shell_call"@.len() == 10);
    assert("apply_patch_call"@.len() == 16);
    assert("custom_tool_call"@[0] == 'c');
    assert("local_shell_call"@[0] == 'l');
    assert("apply_patch_call"@[0] == 'a');
}

proof fn lemma_status_names()
    ensures
        "in_progress"@ != "completed"@,
        "in_progress"@ != "incomplete"@,
        "completed"@ != "incomplete"@,
{
    reveal_strlit("in_progress");
    reveal_strlit("completed");
    reveal_strlit("incomplete");
    assert("in_progress"@.len() == 11);
    assert("completed"@.len() == 9);
    assert("incomplete"@.len() == 10);
}

/// Whether a value holds under a name what another holds there, and null where that holds nothing.
pub open spec fn carries(v: JsonView, from: JsonView, name: Seq<char>) -> bool {
    v.get(name) == Some(
        match from.get(name) {
            Some(x) => x,
            None => JsonView::Null,
        },
    )
}

/// Whether a value holds under a name what another holds there, and nothing where that holds
/// nothing or null.
pub open spec fn carries_if_given(v: JsonView, from: JsonView, name: Seq<char>) -> bool {
    match from.get(name) {
        None | Some(JsonView::Null) => v.get(name) is None,
        Some(x) => v.get(name) == Some(x),
    }
}

/// The id of an item: what it is, the answer that it stands in and where.
pub open spec fn named_id(prefix: Seq<char>, message_id: Seq<char>, index: nat) -> JsonView {
    JsonView::Text(prefix + seq!['_'] + message_id + seq!['_'] + decimal(index))
}

/// Whether an item asks the client for what a tool use asks for: under the id of the tool use, of
/// the declared tool by the name that the client knows, with all that the model gave.
pub open spec fn asks_for(
    item: JsonView,
    message_id: Seq<char>,
    index: nat,
    status: Seq<char>,
    call_id: Seq<char>,
    name: Seq<char>,
    input: JsonView,
    tools: Table,
) -> bool {
    &&& item.get("call_id"@) == Some(JsonView::Text(call_id))
    &&& match tool_named(tools, name) {
        None => false,
        Some(DeclaredOf::Function) => {
            &&& item.get("type"@) == Some(JsonView::Text("function_call"@))
            &&& item.get("id"@) == Some(named_id("fc"@, message_id, index))
            &&& item.get("name"@) == Some(JsonView::Text(name))
            &&& item.get("namespace"@) is None
            &&& item.get("arguments"@) == Some(JsonView::Text(json_text(input)))
            &&& item.get("status"@) == Some(JsonView::Text(status))
        },
        Some(DeclaredOf::Wrapped(w)) => match w.kind {
            WrappedKind::NamespaceFunction => {
                &&& item.get("type"@) == Some(JsonView::Text("function_call"@))
                &&& item.get("id"@) == Some(named_id("fc"@, message_id, index))
                &&& item.get("name"@) == Some(JsonView::Text(w.name))
                &&& item.get("namespace"@) == (match w.namespace {
                    Some(namespace) => Some(JsonView::Text(namespace)),
                    None => None,
                })
                &&& input.get("arguments"@) matches Some(given) && item.get("arguments"@) == Some(
                    JsonView::Text(json_text(given)),
                )
                &&& item.get("status"@) == Some(JsonView::Text(status))
            },
            WrappedKind::NamespaceCustom | WrappedKind::Custom => {
                &&& item.get("type"@) == Some(JsonView::Text("custom_tool_call"@))
                &&& item.get("id"@) == Some(named_id("ctc"@, message_id, index))
                &&& item.get("name"@) == Some(JsonView::Text(w.name))
                &&& item.get("namespace"@) == (match w.namespace {
                    Some(namespace) => Some(JsonView::Text(namespace)),
                    None => None,
                })
                &&& input.get("input"@) is Some && item.get("input"@) == input.get("input"@)
            },
            WrappedKind::LocalShell => {
                &&& item.get("type"@) == Some(JsonView::Text("local_shell_call"@))
                &&& item.get("id"@) == Some(named_id("lsc"@, message_id, index))
                &&& item.get("status"@) == Some(JsonView::Text(status))
                &&& match (item.get("action"@), input.get("action"@)) {
                    (Some(told), Some(given)) => {
                        &&& carries(told, given, "command"@)
                        &&& carries(told, given, "env"@)
                        &&& carries(told, given, "timeout_ms"@)
                        &&& carries(told, given, "user"@)
                        &&& carries(told, given, "working_directory"@)
                    },
                    _ => false,
                }
            },
            WrappedKind::Shell => {
                &&& item.get("type"@) == Some(JsonView::Text("shell_call"@))
                &&& item.get("id"@) == Some(named_id("shc"@, message_id, index))
                &&& item.get("status"@) == Some(JsonView::Text(status))
                &&& match (item.get("action"@), input.get("action"@)) {
                    (Some(told), Some(given)) => {
                        &&& carries(told, given, "commands"@)
                        &&& carries_if_given(told, given, "timeout_ms"@)
                        &&& carries_if_given(told, given, "max_output_length"@)
                    },
                    _ => false,
                }
                &&& item.get("environment"@) matches Some(place) && place.get("type"@) == Some(
                    JsonView::Text("local"@),
                )
            },
            WrappedKind::ApplyPatch => {
                &&& item.get("type"@) == Some(JsonView::Text("apply_patch_call"@))
                &&& item.get("id"@) == Some(named_id("apc"@, message_id, index))
                &&& item.get("status"@) == Some(
                    JsonView::Text(
                        if status == "in_progress"@ {
                            "in_progress"@
                        } else {
                            "completed"@
                        },
                    ),
                )
                &&& input.get("operation"@) is Some && item.get("operation"@) == input.get(
                    "operation"@,
                )
            },
        },
    }
}

#[verifier::spinoff_prover]
#[verifier::rlimit(60)]
proof fn lemma_function_asked(
    message_id: Seq<char>,
    index: nat,
    status: Seq<char>,
    call_id: Seq<char>,
    name: Seq<char>,
    input: JsonView,
    tools: Table,
)
    requires
        tool_named(tools, name) == Some(DeclaredOf::<Seq<char>>::Function),
        input is Object,
        tool_named(tools, name) matches Some(DeclaredOf::Wrapped(w)) ==> wrapped_ok(
            w.kind,
            input->Object_0,
        ),
        status == "completed"@ || status == "incomplete"@ || status == "in_progress"@,
    ensures
        tool_item(message_id, index, status, call_id, name, input, tools) matches Some(value)
            && item_of(value) matches Some(item) && asks_for(
            item_json(item),
            message_id,
            index,
            status,
            call_id,
            name,
            input,
            tools,
        ) && !(item is Message),
{
    broadcast use lemma_put_lookup;

    lemma_item_names();
    lemma_action_names();
    lemma_item_types();
    lemma_status_names();
    reveal_strlit("_");
    assert("_"@ == seq!['_']);
}

#[verifier::spinoff_prover]
#[verifier::rlimit(60)]
proof fn lemma_namespace_function_asked(
    message_id: Seq<char>,
    index: nat,
    status: Seq<char>,
    call_id: Seq<char>,
    name: Seq<char>,
    input: JsonView,
    tools: Table,
)
    requires
        tool_named(tools, name) matches Some(DeclaredOf::Wrapped(w))
            && w.kind == WrappedKind::NamespaceFunction,
        input is Object,
        tool_named(tools, name) matches Some(DeclaredOf::Wrapped(w)) ==> wrapped_ok(
            w.kind,
            input->Object_0,
        ),
        status == "completed"@ || status == "incomplete"@ || status == "in_progress"@,
    ensures
        tool_item(message_id, index, status, call_id, name, input, tools) matches Some(value)
            && item_of(value) matches Some(item) && asks_for(
            item_json(item),
            message_id,
            index,
            status,
            call_id,
            name,
            input,
            tools,
        ) && !(item is Message),
{
    broadcast use lemma_put_lookup;

    lemma_item_names();
    lemma_action_names();
    lemma_item_types();
    lemma_status_names();
    reveal_strlit("_");
    assert("_"@ == seq!['_']);
}

#[verifier::spinoff_prover]
#[verifier::rlimit(60)]
proof fn lemma_namespace_custom_asked(
    message_id: Seq<char>,
    index: nat,
    status: Seq<char>,
    call_id: Seq<char>,
    name: Seq<char>,
    input: JsonView,
    tools: Table,
)
    requires
        tool_named(tools, name) matches Some(DeclaredOf::Wrapped(w))
            && w.kind == WrappedKind::NamespaceCustom,
        input is Object,
        tool_named(tools, name) matches Some(DeclaredOf::Wrapped(w)) ==> wrapped_ok(
            w.kind,
            input->Object_0,
        ),
        status == "completed"@ || status == "incomplete"@ || status == "in_progress"@,
    ensures
        tool_item(message_id, index, status, call_id, name, input, tools) matches Some(value)
            && item_of(value) matches Some(item) && asks_for(
            item_json(item),
            message_id,
            index,
            status,
            call_id,
            name,
            input,
            tools,
        ) && !(item is Message),
{
    broadcast use lemma_put_lookup;

    lemma_item_names();
    lemma_action_names();
    lemma_item_types();
    lemma_status_names();
    reveal_strlit("_");
    assert("_"@ == seq!['_']);
}

#[verifier::spinoff_prover]
#[verifier::rlimit(60)]
proof fn lemma_custom_asked(
    message_id: Seq<char>,
    index: nat,
    status: Seq<char>,
    call_id: Seq<char>,
    name: Seq<char>,
    input: JsonView,
    tools: Table,
)
    requires
        tool_named(tools, name) matches Some(DeclaredOf::Wrapped(w))
            && w.kind == WrappedKind::Custom,
        input is Object,
        tool_named(tools, name) matches Some(DeclaredOf::Wrapped(w)) ==> wrapped_ok(
            w.kind,
            input->Object_0,
        ),
        status == "completed"@ || status == "incomplete"@ || status == "in_progress"@,
    ensures
        tool_item(message_id, index, status, call_id, name, input, tools) matches Some(value)
            && item_of(value) matches Some(item) && asks_for(
            item_json(item),
            message_id,
            index,
            status,
            call_id,
            name,
            input,
            tools,
        ) && !(item is Message),
{
    broadcast use lemma_put_lookup;

    lemma_item_names();
    lemma_action_names();
    lemma_item_types();
    lemma_status_names();
    reveal_strlit("_");
    assert("_"@ == seq!['_']);
}

#[verifier::spinoff_prover]
#[verifier::rlimit(60)]
proof fn lemma_local_shell_asked(
    message_id: Seq<char>,
    index: nat,
    status: Seq<char>,
    call_id: Seq<char>,
    name: Seq<char>,
    input: JsonView,
    tools: Table,
)
    requires
        tool_named(tools, name) matches Some(DeclaredOf::Wrapped(w))
            && w.kind == WrappedKind::LocalShell,
        input is Object,
        tool_named(tools, name) matches Some(DeclaredOf::Wrapped(w)) ==> wrapped_ok(
            w.kind,
            input->Object_0,
        ),
        status == "completed"@ || status == "incomplete"@ || status == "in_progress"@,
    ensures
        tool_item(message_id, index, status, call_id, name, input, tools) matches Some(value)
            && item_of(value) matches Some(item) && asks_for(
            item_json(item),
            message_id,
            index,
            status,
            call_id,
            name,
            input,
            tools,
        ) && !(item is Message),
{
    broadcast use lemma_put_lookup;

    lemma_item_names();
    lemma_action_names();
    lemma_item_types();
    lemma_status_names();
    reveal_strlit("_");
    assert("_"@ == seq!['_']);
}

#[verifier::spinoff_prover]
#[verifier::rlimit(60)]
proof fn lemma_shell_asked(
    message_id: Seq<char>,
    index: nat,
    status: Seq<char>,
    call_id: Seq<char>,
    name: Seq<char>,
    input: JsonView,
    tools: Table,
)
    requires
        tool_named(tools, name) matches Some(DeclaredOf::Wrapped(w))
            && w.kind == WrappedKind::Shell,
        input is Object,
        tool_named(tools, name) matches Some(DeclaredOf::Wrapped(w)) ==> wrapped_ok(
            w.kind,
            input->Object_0,
        ),
        status == "completed"@ || status == "incomplete"@ || status == "in_progress"@,
    ensures
        tool_item(message_id, index, status, call_id, name, input, tools) matches Some(value)
            && item_of(value) matches Some(item) && asks_for(
            item_json(item),
            message_id,
            index,
            status,
            call_id,
            name,
            input,
            tools,
        ) && !(item is Message),
{
    broadcast use lemma_put_lookup;

    lemma_item_names();
    lemma_action_names();
    lemma_item_types();
    lemma_status_names();
    reveal_strlit("_");
    assert("_"@ == seq!['_']);
}

#[verifier::spinoff_prover]
#[verifier::rlimit(60)]
proof fn lemma_patch_asked(
    message_id: Seq<char>,
    index: nat,
    status: Seq<char>,
    call_id: Seq<char>,
    name: Seq<char>,
    input: JsonView,
    tools: Table,
)
    requires
        tool_named(tools, name) matches Some(DeclaredOf::Wrapped(w))
            && w.kind == WrappedKind::ApplyPatch,
        input is Object,
        tool_named(tools, name) matches Some(DeclaredOf::Wrapped(w)) ==> wrapped_ok(
            w.kind,
            input->Object_0,
        ),
        status == "completed"@ || status == "incomplete"@ || status == "in_progress"@,
    ensures
        tool_item(message_id, index, status, call_id, name, input, tools) matches Some(value)
            && item_of(value) matches Some(item) && asks_for(
            item_json(item),
            message_id,
            index,
            status,
            call_id,
            name,
            input,
            tools,
        ) && !(item is Message),
{
    broadcast use lemma_put_lookup;

    lemma_item_names();
    lemma_action_names();
    lemma_item_types();
    lemma_status_names();
    reveal_strlit("_");
    assert("_"@ == seq!['_']);
}

/// Every valid use of a declared tool is put out as an item that asks the client for it, with all
/// that the model gave.
pub proof fn lemma_call_asks_for_what_was_asked(
    message_id: Seq<char>,
    index: nat,
    status: Seq<char>,
    call_id: Seq<char>,
    name: Seq<char>,
    input: JsonView,
    tools: Table,
)
    requires
        tool_named(tools, name) is Some,
        input is Object,
        tool_named(tools, name) matches Some(DeclaredOf::Wrapped(w)) ==> wrapped_ok(
            w.kind,
            input->Object_0,
        ),
        status == "completed"@ || status == "incomplete"@ || status == "in_progress"@,
    ensures
        tool_item(message_id, index, status, call_id, name, input, tools) matches Some(value)
            && item_of(value) matches Some(item) && asks_for(
            item_json(item),
            message_id,
            index,
            status,
            call_id,
            name,
            input,
            tools,
        ) && !(item is Message),
{
    match tool_named(tools, name) {
        Some(DeclaredOf::Function) => {
            lemma_function_asked(message_id, index, status, call_id, name, input, tools);
        },
        Some(DeclaredOf::Wrapped(w)) => match w.kind {
            WrappedKind::NamespaceFunction => {
                lemma_namespace_function_asked(message_id, index, status, call_id, name, input, tools);
            },
            WrappedKind::NamespaceCustom => {
                lemma_namespace_custom_asked(message_id, index, status, call_id, name, input, tools);
            },
            WrappedKind::Custom => {
                lemma_custom_asked(message_id, index, status, call_id, name, input, tools);
            },
            WrappedKind::LocalShell => {
                lemma_local_shell_asked(message_id, index, status, call_id, name, input, tools);
            },
            WrappedKind::Shell => {
                lemma_shell_asked(message_id, index, status, call_id, name, input, tools);
            },
            WrappedKind::ApplyPatch => {
                lemma_patch_asked(message_id, index, status, call_id, name, input, tools);
            },
        },
        None => {},
    }
}

/// What a valid use of a wrapped tool looks like: its payload in the one field for it, and nothing
/// else.
pub proof fn lemma_wrapped_use(kind: WrappedKind, input: crate::json::Fields)
    ensures
        wrapped_ok(kind, input) ==> match kind {
            WrappedKind::NamespaceFunction => JsonView::Object(input).get("arguments"@) matches Some(
                JsonView::Object(_),
            ),
            WrappedKind::NamespaceCustom | WrappedKind::Custom => JsonView::Object(input).get(
                "input"@,
            ) matches Some(JsonView::Text(_)),
            WrappedKind::LocalShell => JsonView::Object(input).get("action"@) matches Some(action)
                && (action.get("command"@) matches Some(JsonView::Array(words)) && forall|i: int|
                0 <= i < words.len() ==> (#[trigger] words[i]) is Text)
                    && (action.get("env"@) matches Some(
                JsonView::Object(env),
            ) && forall|i: int| 0 <= i < env.len() ==> (#[trigger] env[i]).1 is Text),
            WrappedKind::Shell => JsonView::Object(input).get("action"@) matches Some(action) && (
            action.get("commands"@) matches Some(JsonView::Array(words)) && forall|i: int|
                0 <= i < words.len() ==> (#[trigger] words[i]) is Text),
            WrappedKind::ApplyPatch => JsonView::Object(input).get("operation"@) matches Some(patch)
                && (patch.get("path"@) matches Some(JsonView::Text(_))) && ((patch.get("type"@)
                == Some(JsonView::Text("create_file"@)) || patch.get("type"@) == Some(
                JsonView::Text("update_file"@),
            )) && (patch.get("diff"@) matches Some(JsonView::Text(_)))
                || patch.get("type"@) == Some(
                JsonView::Text("delete_file"@),
            )),
        },
{
}

} // verus!
