//! What holds of every action that a client is asked for or was asked for: which are good, how
//! they are taken up again, and which results go with which calls.
use vstd::prelude::*;

use crate::actions::action_ok;
use crate::calls::{direct, wrapped_ok};
use crate::choice::{is_wanted, WantedOf};
use crate::error::AIError;
use crate::history::{
    history_taken, result_part_of, result_parts_from, HistoryView,
};
use crate::history_laws::lemma_sole_found;
use crate::json::{field, only, Fields, JsonView};
use crate::media::{file_of, image_of};
use crate::messages::Role;
use crate::outgoing::{yaml_host_token, yaml_token_from};
use crate::policy::{policy_json, StateView};
use crate::lookups::{group_lookups, lemma_some_get, lemma_some_is_object};
use crate::request_types::{ContentView, ResultPartOf, ResultPartView};
use crate::responses::{
    ActionCallOf, FunctionCallOf, ItemOf, ItemView, MessageOf, OutputStatus,
};
use crate::stream::items_closed;
use crate::text::{named, trimmed};
use crate::tools::{lemma_tool_put_found, tool_named, DeclaredOf, Table, WrappedKind};
use crate::usage::MessagePhase;
use crate::yaml::{yaml_field, YamlView};

verus! {

proof fn lemma_call_types()
    ensures
        "function_call"@ != "custom_tool_call"@,
        "function_call"@ != "local_shell_call"@,
        "function_call"@ != "shell_call"@,
        "function_call"@ != "apply_patch_call"@,
        "function_call"@ != "function_call_output"@,
        "function_call"@ != "custom_tool_call_output"@,
        "function_call"@ != "local_shell_call_output"@,
        "function_call"@ != "shell_call_output"@,
        "function_call"@ != "apply_patch_call_output"@,
        "custom_tool_call"@ != "local_shell_call"@,
        "custom_tool_call"@ != "shell_call"@,
        "custom_tool_call"@ != "apply_patch_call"@,
        "custom_tool_call"@ != "function_call_output"@,
        "custom_tool_call"@ != "custom_tool_call_output"@,
        "custom_tool_call"@ != "local_shell_call_output"@,
        "custom_tool_call"@ != "shell_call_output"@,
        "custom_tool_call"@ != "apply_patch_call_output"@,
        "local_shell_call"@ != "shell_call"@,
        "local_shell_call"@ != "apply_patch_call"@,
        "local_shell_call"@ != "function_call_output"@,
        "local_shell_call"@ != "custom_tool_call_output"@,
        "local_shell_call"@ != "local_shell_call_output"@,
        "local_shell_call"@ != "shell_call_output"@,
        "local_shell_call"@ != "apply_patch_call_output"@,
        "shell_call"@ != "apply_patch_call"@,
        "shell_call"@ != "function_call_output"@,
        "shell_call"@ != "custom_tool_call_output"@,
        "shell_call"@ != "local_shell_call_output"@,
        "shell_call"@ != "shell_call_output"@,
        "shell_call"@ != "apply_patch_call_output"@,
        "apply_patch_call"@ != "function_call_output"@,
        "apply_patch_call"@ != "custom_tool_call_output"@,
        "apply_patch_call"@ != "local_shell_call_output"@,
        "apply_patch_call"@ != "shell_call_output"@,
        "apply_patch_call"@ != "apply_patch_call_output"@,
        "function_call_output"@ != "custom_tool_call_output"@,
        "function_call_output"@ != "local_shell_call_output"@,
        "function_call_output"@ != "shell_call_output"@,
        "function_call_output"@ != "apply_patch_call_output"@,
        "custom_tool_call_output"@ != "local_shell_call_output"@,
        "custom_tool_call_output"@ != "shell_call_output"@,
        "custom_tool_call_output"@ != "apply_patch_call_output"@,
        "local_shell_call_output"@ != "shell_call_output"@,
        "local_shell_call_output"@ != "apply_patch_call_output"@,
        "shell_call_output"@ != "apply_patch_call_output"@,
{
    reveal_strlit("function_call");
    reveal_strlit("custom_tool_call");
    reveal_strlit("local_shell_call");
    reveal_strlit("shell_call");
    reveal_strlit("apply_patch_call");
    reveal_strlit("function_call_output");
    reveal_strlit("custom_tool_call_output");
    reveal_strlit("local_shell_call_output");
    reveal_strlit("shell_call_output");
    reveal_strlit("apply_patch_call_output");
    assert("function_call"@.len() == 13);
    assert("custom_tool_call"@.len() == 16);
    assert("local_shell_call"@.len() == 16);
    assert("shell_call"@.len() == 10);
    assert("apply_patch_call"@.len() == 16);
    assert("function_call_output"@.len() == 20);
    assert("custom_tool_call_output"@.len() == 23);
    assert("local_shell_call_output"@.len() == 23);
    assert("shell_call_output"@.len() == 17);
    assert("apply_patch_call_output"@.len() == 23);
    assert("custom_tool_call"@[0] == 'c');
    assert("local_shell_call"@[0] == 'l');
    assert("apply_patch_call"@[0] == 'a');
    assert("custom_tool_call_output"@[0] == 'c');
    assert("local_shell_call_output"@[0] == 'l');
    assert("apply_patch_call_output"@[0] == 'a');
}

proof fn lemma_patch_types()
    ensures
        "create_file"@ != "update_file"@,
        "create_file"@ != "delete_file"@,
        "update_file"@ != "delete_file"@,
{
    reveal_strlit("create_file");
    reveal_strlit("update_file");
    reveal_strlit("delete_file");
    assert("create_file"@.len() == 11);
    assert("update_file"@.len() == 11);
    assert("delete_file"@.len() == 11);
    assert("create_file"@[0] == 'c');
    assert("update_file"@[0] == 'u');
    assert("delete_file"@[0] == 'd');
}

proof fn lemma_piece_types()
    ensures
        "input_text"@ != "input_image"@,
        "input_text"@ != "input_file"@,
        "input_image"@ != "input_file"@,
{
    reveal_strlit("input_text");
    reveal_strlit("input_image");
    reveal_strlit("input_file");
    assert("input_text"@.len() == 10);
    assert("input_image"@.len() == 11);
    assert("input_file"@.len() == 10);
    assert("input_text"@[6] == 't');
    assert("input_file"@[6] == 'f');
}

proof fn lemma_policy_names()
    ensures
        "translationError"@ != "clientId"@,
        "translationError"@ != "audience"@,
        "translationError"@ != "allowedUserIds"@,
        "translationError"@ != "credentialTTL"@,
        "translationError"@ != "disableExpiry"@,
        "translationError"@ != "policyId"@,
        "clientId"@ != "audience"@,
        "clientId"@ != "allowedUserIds"@,
        "clientId"@ != "credentialTTL"@,
        "clientId"@ != "disableExpiry"@,
        "clientId"@ != "policyId"@,
        "audience"@ != "allowedUserIds"@,
        "audience"@ != "credentialTTL"@,
        "audience"@ != "disableExpiry"@,
        "audience"@ != "policyId"@,
        "allowedUserIds"@ != "credentialTTL"@,
        "allowedUserIds"@ != "disableExpiry"@,
        "allowedUserIds"@ != "policyId"@,
        "credentialTTL"@ != "disableExpiry"@,
        "credentialTTL"@ != "policyId"@,
        "disableExpiry"@ != "policyId"@,
{
    reveal_strlit("translationError");
    reveal_strlit("clientId");
    reveal_strlit("audience");
    reveal_strlit("allowedUserIds");
    reveal_strlit("credentialTTL");
    reveal_strlit("disableExpiry");
    reveal_strlit("policyId");
    assert("translationError"@.len() == 16);
    assert("clientId"@.len() == 8);
    assert("audience"@.len() == 8);
    assert("allowedUserIds"@.len() == 14);
    assert("credentialTTL"@.len() == 13);
    assert("disableExpiry"@.len() == 13);
    assert("policyId"@.len() == 8);
    assert("clientId"@[0] == 'c');
    assert("audience"@[0] == 'a');
    assert("policyId"@[0] == 'p');
    assert("credentialTTL"@[0] == 'c');
    assert("disableExpiry"@[0] == 'd');
}


/// Whether a value is a list of strings.
pub open spec fn all_strings(v: Option<JsonView>) -> bool {
    v is Some && v->0 is Array && forall|i: int|
        0 <= i < v->0->Array_0.len() ==> (#[trigger] v->0->Array_0[i]) is Text
}

/// Whether a value is left out, null or a count.
pub open spec fn maybe_number(v: Option<JsonView>) -> bool {
    v is None || v->0 is Null || v->0 is Unsigned
}

/// Whether a value is left out, null or a string.
pub open spec fn maybe_words(v: Option<JsonView>) -> bool {
    v is None || v->0 is Null || v->0 is Text
}

/// An action of a local shell is good just where it has a command of strings, an environment of
/// strings, and nothing else but a limit of time, a user and a directory.
pub proof fn lemma_local_shell_action(o: Fields)
    ensures
        action_ok(WrappedKind::LocalShell, JsonView::Object(o)) <==> {
            &&& forall|i: int|
                0 <= i < o.len() ==> (#[trigger] o[i]).0 == "command"@ || o[i].0 == "env"@
                    || o[i].0 == "timeout_ms"@ || o[i].0 == "user"@ || o[i].0
                    == "working_directory"@
            &&& all_strings(field(o, "command"@))
            &&& field(o, "env"@) is Some
            &&& field(o, "env"@)->0 is Object
            &&& forall|i: int|
                0 <= i < field(o, "env"@)->0->Object_0.len() ==> (#[trigger] field(
                    o,
                    "env"@,
                )->0->Object_0[i]).1 is Text
            &&& maybe_number(field(o, "timeout_ms"@))
            &&& maybe_words(field(o, "user"@))
            &&& maybe_words(field(o, "working_directory"@))
        },
{
    let list = seq!["command", "env", "timeout_ms", "user", "working_directory"];
    assert(list[0]@ == "command"@ && list[1]@ == "env"@ && list[2]@ == "timeout_ms"@ && list[3]@
        == "user"@ && list[4]@ == "working_directory"@);
    lemma_five(o, list);
}

proof fn lemma_five(o: Fields, list: Seq<&'static str>)
    requires
        list.len() == 5,
    ensures
        only(o, list) <==> forall|i: int|
            0 <= i < o.len() ==> (#[trigger] o[i]).0 == list[0]@ || o[i].0 == list[1]@ || o[i].0
                == list[2]@ || o[i].0 == list[3]@ || o[i].0 == list[4]@,
{
    if only(o, list) {
        assert forall|i: int| 0 <= i < o.len() implies (#[trigger] o[i]).0 == list[0]@ || o[i].0
            == list[1]@ || o[i].0 == list[2]@ || o[i].0 == list[3]@ || o[i].0 == list[4]@ by {
            assert(named(list, o[i].0));
        }
    }
}

proof fn lemma_three(o: Fields, list: Seq<&'static str>)
    requires
        list.len() == 3,
    ensures
        only(o, list) <==> forall|i: int|
            0 <= i < o.len() ==> (#[trigger] o[i]).0 == list[0]@ || o[i].0 == list[1]@ || o[i].0
                == list[2]@,
{
    if only(o, list) {
        assert forall|i: int| 0 <= i < o.len() implies (#[trigger] o[i]).0 == list[0]@ || o[i].0
            == list[1]@ || o[i].0 == list[2]@ by {
            assert(named(list, o[i].0));
        }
    }
}

proof fn lemma_two_names(o: Fields, list: Seq<&'static str>)
    requires
        list.len() == 2,
    ensures
        only(o, list) <==> forall|i: int|
            0 <= i < o.len() ==> (#[trigger] o[i]).0 == list[0]@ || o[i].0 == list[1]@,
{
    if only(o, list) {
        assert forall|i: int| 0 <= i < o.len() implies (#[trigger] o[i]).0 == list[0]@ || o[i].0
            == list[1]@ by {
            assert(named(list, o[i].0));
        }
    }
}

/// An action of a shell is good just where it has commands, and nothing else but a limit of time
/// and one of output.
pub proof fn lemma_shell_action(o: Fields)
    ensures
        action_ok(WrappedKind::Shell, JsonView::Object(o)) <==> {
            &&& forall|i: int|
                0 <= i < o.len() ==> (#[trigger] o[i]).0 == "commands"@ || o[i].0 == "timeout_ms"@
                    || o[i].0 == "max_output_length"@
            &&& all_strings(field(o, "commands"@))
            &&& maybe_number(field(o, "timeout_ms"@))
            &&& maybe_number(field(o, "max_output_length"@))
        },
{
    lemma_three(o, seq!["commands", "timeout_ms", "max_output_length"]);
}

/// A patch is good just where it creates or updates a file by a path and a difference, or deletes
/// one by a path, and has nothing else.
pub proof fn lemma_patch_action(o: Fields)
    ensures
        action_ok(WrappedKind::ApplyPatch, JsonView::Object(o)) <==> {
            &&& field(o, "path"@) is Some
            &&& field(o, "path"@)->0 is Text
            &&& {
                ||| (field(o, "type"@) == Some(JsonView::Text("create_file"@)) || field(o, "type"@)
                    == Some(JsonView::Text("update_file"@))) && field(o, "diff"@) is Some && field(
                    o,
                    "diff"@,
                )->0 is Text && forall|i: int|
                    0 <= i < o.len() ==> (#[trigger] o[i]).0 == "type"@ || o[i].0 == "path"@
                        || o[i].0 == "diff"@
                ||| field(o, "type"@) == Some(JsonView::Text("delete_file"@)) && forall|i: int|
                    0 <= i < o.len() ==> (#[trigger] o[i]).0 == "type"@ || o[i].0 == "path"@
            }
        },
{
    lemma_patch_types();
    lemma_three(o, seq!["type", "path", "diff"]);
    lemma_two_names(o, seq!["type", "path"]);
}

/// The input of a wrapped tool is good just where it is its payload under the one name for it: an
/// object of arguments, a string, or an action that is good.
pub proof fn lemma_wrapped_input(kind: WrappedKind, input: Fields)
    ensures
        ({
            let key = match kind {
                WrappedKind::NamespaceFunction => "arguments"@,
                WrappedKind::NamespaceCustom => "input"@,
                WrappedKind::Custom => "input"@,
                WrappedKind::LocalShell => "action"@,
                WrappedKind::Shell => "action"@,
                WrappedKind::ApplyPatch => "operation"@,
            };
            let payload = field(input, key);
            wrapped_ok(kind, input) <==> {
                &&& forall|i: int| 0 <= i < input.len() ==> (#[trigger] input[i]).0 == key
                &&& payload is Some
                &&& match kind {
                    WrappedKind::NamespaceFunction => payload->0 is Object,
                    WrappedKind::NamespaceCustom => payload->0 is Text,
                    WrappedKind::Custom => payload->0 is Text,
                    _ => action_ok(kind, payload->0),
                }
            }
        }),
{
}

/// A call comes from the model itself where no caller is told, or just that it is direct.
pub proof fn lemma_direct(caller: Option<JsonView>)
    ensures
        direct(caller) <==> caller is None || (caller->0 is Object && caller->0->Object_0.len() == 1
            && caller->0.get("type"@) == Some(JsonView::Text("direct"@))),
{
}

/// A call of a shell or patch tool is taken where it is told in full, its action is good, its id
/// is new and just one tool of its kind was declared.
#[verifier::rlimit(40)]
#[verifier::spinoff_prover]
pub proof fn lemma_action_call_is_taken(
    o: Fields,
    tools: Table,
    h: HistoryView,
    kind: WrappedKind,
    call_id: Seq<char>,
    id: Seq<char>,
    action: JsonView,
    k: int,
)
    requires
        kind == WrappedKind::LocalShell && field(o, "type"@) == Some(
            JsonView::Text("local_shell_call"@),
        ) || kind == WrappedKind::Shell && field(o, "type"@) == Some(JsonView::Text("shell_call"@))
            || kind == WrappedKind::ApplyPatch && field(o, "type"@) == Some(
            JsonView::Text("apply_patch_call"@),
        ),
        forall|i: int|
            0 <= i < o.len() ==> (#[trigger] o[i]).0 == "type"@ || o[i].0 == "id"@ || o[i].0
                == "call_id"@ || o[i].0 == "status"@ || o[i].0 == (if kind
                == WrappedKind::ApplyPatch {
                "operation"@
            } else {
                "action"@
            }),
        kind == WrappedKind::Shell ==> field(o, "environment"@) is None,
        field(o, "status"@) is None || field(o, "status"@) == Some(JsonView::Text("completed"@))
            || field(o, "status"@) == Some(JsonView::Text("incomplete"@)),
        field(o, "id"@) == Some(JsonView::Text(id)),
        id.len() > 0,
        field(o, "call_id"@) == Some(JsonView::Text(call_id)),
        call_id.len() > 0,
        field(
            o,
            if kind == WrappedKind::ApplyPatch {
                "operation"@
            } else {
                "action"@
            },
        ) == Some(action),
        action_ok(kind, action),
        tool_named(h.calls, call_id) is None,
        0 <= k < tools.len(),
        tools[k].1 is Wrapped && tools[k].1->Wrapped_0.kind == kind,
        forall|i: int|
            0 <= i < tools.len() && i != k ==> !((#[trigger] tools[i]).1 is Wrapped
                && tools[i].1->Wrapped_0.kind == kind),
    ensures
        history_taken(o, tools, h) is Ok,
        history_taken(o, tools, h)->Ok_0 is Some,
        ({
            let (role, block, after) = (history_taken(o, tools, h)->Ok_0)->0;
            &&& role == Role::Assistant
            &&& block is ToolUse
            &&& block->id == call_id
            &&& block->name == tools[k].0
            &&& tool_named(after.calls, call_id) == Some(tools[k].1)
            &&& after.done == h.done
        }),
{
    reveal(history_taken);
    lemma_call_types();
    let w = WantedOf::Kind(kind);
    assert(is_wanted(w, tools[k]));
    assert forall|i: int| 0 <= i < tools.len()
        && i != k implies !is_wanted(w, #[trigger] tools[i]) by {}
    lemma_sole_found(tools, w, k);
    lemma_tool_put_found(h.calls, call_id, tools[k].1);
    let local = seq!["type", "id", "call_id", "action", "status"];
    assert(local[0]@ == "type"@ && local[1]@ == "id"@ && local[2]@ == "call_id"@ && local[3]@
        == "action"@ && local[4]@ == "status"@);
    let shell = seq!["type", "id", "call_id", "action", "status", "environment"];
    assert(shell[0]@ == "type"@ && shell[1]@ == "id"@ && shell[2]@ == "call_id"@ && shell[3]@
        == "action"@ && shell[4]@ == "status"@);
    let patch = seq!["type", "id", "call_id", "operation", "status"];
    assert(patch[0]@ == "type"@ && patch[1]@ == "id"@ && patch[2]@ == "call_id"@ && patch[3]@
        == "operation"@ && patch[4]@ == "status"@);
    assert(kind == WrappedKind::LocalShell ==> only(o, local));
    assert(kind == WrappedKind::Shell ==> only(o, shell));
    assert(kind == WrappedKind::ApplyPatch ==> only(o, patch));
}

/// A result goes with a call of its own kind, that was made and has none yet; every other is
/// refused.
#[verifier::rlimit(40)]
#[verifier::spinoff_prover]
pub proof fn lemma_stray_result_is_refused(o: Fields, tools: Table, h: HistoryView)
    ensures
        ({
            let kind = field(o, "type"@);
            let id = if kind == Some(JsonView::Text("local_shell_call_output"@)) {
                field(o, "id"@)
            } else {
                field(o, "call_id"@)
            };
            let result = kind == Some(JsonView::Text("function_call_output"@)) || kind == Some(
                JsonView::Text("custom_tool_call_output"@),
            ) || kind == Some(JsonView::Text("local_shell_call_output"@)) || kind == Some(
                JsonView::Text("shell_call_output"@),
            ) || kind == Some(JsonView::Text("apply_patch_call_output"@));
            &&& result && !(id is Some && id->0 is Text) ==> history_taken(o, tools, h) is Err
            &&& result && id is Some && id->0 is Text && (tool_named(h.calls, id->0->Text_0) is None
                || h.done.contains(id->0->Text_0)) ==> history_taken(o, tools, h) is Err
            &&& result && id is Some && id->0 is Text ==> (match tool_named(
                h.calls,
                id->0->Text_0,
            ) {
                Some(DeclaredOf::Function) => kind != Some(
                    JsonView::Text("function_call_output"@),
                ) ==> history_taken(o, tools, h) is Err,
                Some(DeclaredOf::Wrapped(w)) => {
                    let due = match w.kind {
                        WrappedKind::NamespaceFunction => "function_call_output"@,
                        WrappedKind::NamespaceCustom => "custom_tool_call_output"@,
                        WrappedKind::Custom => "custom_tool_call_output"@,
                        WrappedKind::LocalShell => "local_shell_call_output"@,
                        WrappedKind::Shell => "shell_call_output"@,
                        WrappedKind::ApplyPatch => "apply_patch_call_output"@,
                    };
                    kind != Some(JsonView::Text(due)) ==> history_taken(o, tools, h) is Err
                },
                None => true,
            })
        }),
{
    reveal(history_taken);
    lemma_call_types();
}

/// An item is a call or a result just where its type says so; else it is left to be a message.
pub proof fn lemma_history_types(o: Fields, tools: Table, h: HistoryView)
    ensures
        history_taken(o, tools, h) == Ok::<Option<(Role, ContentView, HistoryView)>, AIError>(None)
            <==> {
            let kind = field(o, "type"@);
            &&& kind != Some(JsonView::Text("function_call"@))
            &&& kind != Some(JsonView::Text("custom_tool_call"@))
            &&& kind != Some(JsonView::Text("local_shell_call"@))
            &&& kind != Some(JsonView::Text("shell_call"@))
            &&& kind != Some(JsonView::Text("apply_patch_call"@))
            &&& kind != Some(JsonView::Text("function_call_output"@))
            &&& kind != Some(JsonView::Text("custom_tool_call_output"@))
            &&& kind != Some(JsonView::Text("local_shell_call_output"@))
            &&& kind != Some(JsonView::Text("shell_call_output"@))
            &&& kind != Some(JsonView::Text("apply_patch_call_output"@))
        },
{
    reveal(history_taken);
    lemma_call_types();
}

/// The pieces of what a tool gave back are told one for one and in order, or the first that cannot
/// be told is what they are refused for.
pub proof fn lemma_result_parts(items: Seq<JsonView>, n: int)
    requires
        0 <= n <= items.len(),
    ensures
        match result_parts_from(items, n) {
            Ok(list) => list.len() == items.len() - n && forall|i: int, k: int|
                #![trigger list[i], items[k]]
                0 <= i < list.len() && k == n + i ==> result_part_of(items[k]) == Ok::<
                    ResultPartView,
                    AIError,
                >(list[i]),
            Err(e) => exists|k: int|
                n <= k < items.len() && #[trigger] result_part_of(items[k]) == Err::<
                    ResultPartView,
                    AIError,
                >(e),
        },
    decreases items.len() - n,
{
    if n < items.len() {
        lemma_result_parts(items, n + 1);
        match result_parts_from(items, n) {
            Ok(list) => {
                let rest = result_parts_from(items, n + 1)->Ok_0;
                assert forall|i: int, k: int|
                    #![trigger list[i], items[k]]
                    0 <= i < list.len() && k == n + i implies result_part_of(items[k]) == Ok::<
                    ResultPartView,
                    AIError,
                >(list[i]) by {
                    if i > 0 {
                        assert(list[i] == rest[i - 1]);
                        assert(k == n + 1 + (i - 1));
                        let _ = (rest[i - 1], items[k]);
                    }
                }
            },
            Err(e) => {
                if result_part_of(items[n]) is Ok {
                    let k = choose|k: int|
                        n + 1 <= k < items.len() && #[trigger] result_part_of(items[k]) == Err::<
                            ResultPartView,
                            AIError,
                        >(e);
                    assert(result_part_of(items[k]) == Err::<ResultPartView, AIError>(e));
                } else {
                    assert(result_part_of(items[n]) == Err::<ResultPartView, AIError>(e));
                }
            },
        }
    }
}

/// A piece of what a tool gave back is a text as it stands, an image or a file, as the user may
/// say them.
pub proof fn lemma_result_part(o: Fields)
    ensures
        ({
            let kind = field(o, "type"@);
            let part = result_part_of(JsonView::Object(o));
            &&& kind == Some(JsonView::Text("input_image"@)) ==> (match image_of(o) {
                Ok(source) => part == Ok::<ResultPartView, AIError>(
                    ResultPartOf::Image { source },
                ),
                Err(e) => part == Err::<ResultPartView, AIError>(e),
            })
            &&& kind == Some(JsonView::Text("input_file"@)) ==> (match file_of(o) {
                Ok((source, title)) => part == Ok::<ResultPartView, AIError>(
                    ResultPartOf::Document { source, title },
                ),
                Err(e) => part == Err::<ResultPartView, AIError>(e),
            })
            &&& kind == Some(JsonView::Text("input_text"@)) && part is Ok ==> part->Ok_0 is Text
                && field(o, "text"@) == Some(JsonView::Text(part->Ok_0->Text_0))
            &&& part is Ok ==> kind == Some(JsonView::Text("input_text"@)) || kind == Some(
                JsonView::Text("input_image"@),
            ) || kind == Some(JsonView::Text("input_file"@))
        }),
{
    lemma_piece_types();
}

/// Whether an item is as it was but for what is only known at the end: how complete it is, and the
/// phase of a message.
pub open spec fn same_at_end(
    was: ItemView,
    is: ItemView,
    status: OutputStatus,
    phase: MessagePhase,
) -> bool {
    match was {
        ItemOf::Message(m) => is == ItemView::Message(
            MessageOf { phase: Some(phase), status, ..m },
        ),
        ItemOf::FunctionCall(c) => is == ItemView::FunctionCall(
            FunctionCallOf { status: Some(status), ..c },
        ),
        ItemOf::CustomToolCall(c) => is == was,
        ItemOf::LocalShellCall(c) => is == ItemView::LocalShellCall(ActionCallOf { status, ..c }),
        ItemOf::ShellCall(c) => is == ItemView::ShellCall(ActionCallOf { status, ..c }),
        ItemOf::ApplyPatchCall(c) => is is ApplyPatchCall && is->ApplyPatchCall_0
            == (ActionCallOf { status: is->ApplyPatchCall_0.status, ..c })
            && is->ApplyPatchCall_0.status == (if status == OutputStatus::InProgress {
            OutputStatus::InProgress
        } else {
            OutputStatus::Completed
        }),
        ItemOf::Reasoning(_) => is is Reasoning,
        ItemOf::Other(_) => false,
    }
}

/// When a stream ends every item that it kept is in the response, in order, and as it was but for
/// how complete it is and the phase of messages.
pub proof fn lemma_items_at_end(
    items: Seq<ItemView>,
    status: OutputStatus,
    phase: MessagePhase,
    n: int,
)
    requires
        0 <= n <= items.len(),
    ensures
        match items_closed(items, status, phase, n) {
            Some(list) => list.len() == items.len() - n && forall|i: int, k: int|
                #![trigger list[i], items[k]]
                0 <= i < list.len() && k == n + i ==> same_at_end(items[k], list[i], status, phase),
            None => exists|k: int| n <= k < items.len() && (#[trigger] items[k]) is Other,
        },
    decreases items.len() - n,
{
    if n < items.len() {
        lemma_items_at_end(items, status, phase, n + 1);
        match items_closed(items, status, phase, n) {
            Some(list) => {
                let rest = items_closed(items, status, phase, n + 1)->0;
                assert forall|i: int, k: int|
                    #![trigger list[i], items[k]]
                    0 <= i < list.len() && k == n + i implies same_at_end(
                    items[k],
                    list[i],
                    status,
                    phase,
                ) by {
                    if i > 0 {
                        assert(list[i] == rest[i - 1]);
                        assert(k == n + 1 + (i - 1));
                        let _ = (rest[i - 1], items[k]);
                    }
                }
            },
            None => {
                if items_closed(items, status, phase, n + 1) is None {
                    let k = choose|k: int| n + 1 <= k < items.len()
                        && (#[trigger] items[k]) is Other;
                    assert(items[k] is Other);
                } else {
                    assert(items[n] is Other);
                }
            },
        }
    }
}

/// The token that is found in a mapping is that of the first host of the domain that has one,
/// without the white space around it.
pub proof fn lemma_mapping_token(entries: Seq<(YamlView, YamlView)>, domain: Seq<char>, n: int)
    requires
        0 <= n <= entries.len(),
    ensures
        match yaml_token_from(entries, domain, n) {
            Some(token) => exists|k: int|
                n <= k < entries.len() && #[trigger] entry_token(entries, domain, k) == Some(token)
                    && forall|j: int|
                    n <= j < k ==> (#[trigger] entry_token(entries, domain, j)) is None,
            None => forall|k: int|
                n <= k < entries.len() ==> (#[trigger] entry_token(entries, domain, k)) is None,
        },
    decreases entries.len() - n,
{
    if n < entries.len() {
        lemma_mapping_token(entries, domain, n + 1);
        let here = entry_token(entries, domain, n);
        match yaml_token_from(entries, domain, n) {
            Some(token) => {
                if here is None {
                    let k = choose|k: int|
                        n + 1 <= k < entries.len() && #[trigger] entry_token(entries, domain, k)
                            == Some(token) && forall|j: int|
                            n + 1 <= j < k ==> (#[trigger] entry_token(entries, domain, j)) is None;
                    assert(entry_token(entries, domain, k) == Some(token));
                }
            },
            None => {},
        }
    }
}

/// The token of a host, where its name starts with the domain and it has one.
pub open spec fn entry_token(
    entries: Seq<(YamlView, YamlView)>,
    domain: Seq<char>,
    k: int,
) -> Option<Seq<char>> {
    match crate::yaml::untagged(entries[k].0) {
        YamlView::Text(name) => if domain.is_prefix_of(name) {
            yaml_host_token(entries[k].1)
        } else {
            None
        },
        _ => None,
    }
}

/// The token of a host is what stands under `oauth_token`, without the white space around it, and
/// not blank.
pub proof fn lemma_host_token(entries: Seq<(YamlView, YamlView)>)
    ensures
        yaml_host_token(YamlView::Mapping(entries)) == (match yaml_field(
            entries,
            "oauth_token"@,
            0,
        ) {
            Some(v) => match crate::yaml::untagged(v) {
                YamlView::Text(s) => if trimmed(s).len() > 0 {
                    Some(trimmed(s))
                } else {
                    None
                },
                _ => None,
            },
            None => None,
        }),
{
}

/// What may be shown of a policy is its configuration; and of one that could not be made just that
/// it could not.
#[verifier::rlimit(40)]
pub proof fn lemma_shown_policy(s: StateView, ttl: Option<Seq<char>>)
    ensures
        ({
            let j = policy_json(Some(s), ttl);
            &&& j.get("clientId"@) == Some(JsonView::Text(s.config.client_id))
            &&& j.get("audience"@) == Some(JsonView::Text(s.config.audience))
            &&& j.get("policyId"@) == Some(JsonView::Text(s.config.policy_id))
            &&& j.get("allowedUserIds"@) is Some
            &&& j.get("allowedUserIds"@)->0 is Array
            &&& j.get("allowedUserIds"@)->0->Array_0.len() == s.config.allowed_user_ids.len()
            &&& forall|i: int|
                0 <= i < s.config.allowed_user_ids.len() ==> #[trigger] j.get(
                    "allowedUserIds"@,
                )->0->Array_0[i] == JsonView::Unsigned(s.config.allowed_user_ids[i])
            &&& s.config.disable_expiry is None ==> j.get("disableExpiry"@) is None
            &&& s.config.disable_expiry is Some ==> j.get("disableExpiry"@) == Some(
                JsonView::Bool(s.config.disable_expiry->0),
            )
            &&& s.config.credential_ttl is None ==> j.get("credentialTTL"@) is None
            &&& s.config.credential_ttl is Some && ttl is Some ==> j.get("credentialTTL"@) == Some(
                JsonView::Text(ttl->0),
            )
        }),
        policy_json(None, ttl).get("translationError"@) == Some(
            JsonView::Text("invalid Copilot authentication configuration"@),
        ),
        forall|name: Seq<char>|
            name != "translationError"@ ==> (#[trigger] policy_json(None, ttl).get(name)) is None,
        forall|name: Seq<char>|
            name != "clientId"@ && name != "audience"@ && name != "policyId"@ && name
                != "allowedUserIds"@ && name != "disableExpiry"@ && name != "credentialTTL"@ ==> (
            #[trigger] policy_json(Some(s), ttl).get(name)) is None,
{
    broadcast use {group_lookups, lemma_some_get, lemma_some_is_object};

    lemma_policy_names();
}

} // verus!
