//! What holds of every tool call and every result in a conversation's history.
use vstd::prelude::*;
use vstd::utf8::encode_utf8;

use crate::actions::bad_history;
use crate::choice::{is_wanted, lemma_sole_declared, sole, WantedOf};
use crate::codec::{json_text, parsed};
use crate::error::AIError;
use crate::history::{any_failed, command_failed, history_taken, result_parts_from, HistoryView};
use crate::json::{field, only, Fields, JsonView};
use crate::lookups::group_lookups;
use crate::messages::Role;
use crate::request_types::{ContentOf, ContentView, ResultOf, ResultPartOf, ResultPartView};
use crate::text::named;
use crate::tools::{tool_named, tool_put, DeclaredOf, Table, WrappedKind, WrappedOf};

verus! {

proof fn lemma_item_kinds()
    ensures
        "function_call"@ != "custom_tool_call"@,
        "function_call"@ != "local_shell_call"@,
        "function_call"@ != "shell_call"@,
        "function_call"@ != "apply_patch_call"@,
        "function_call"@ != "function_call_output"@,
        "function_call"@ != "custom_tool_call_output"@,
        "function_call"@ != "local_shell_call_output"@,
        "function_call"@ != "shell_call_output"@,
        "function_call"@ != "apply_patch_call_output"@,
        "custom_tool_call"@ != "local_shell_call"@,
        "custom_tool_call"@ != "shell_call"@,
        "custom_tool_call"@ != "apply_patch_call"@,
        "custom_tool_call"@ != "function_call_output"@,
        "custom_tool_call"@ != "custom_tool_call_output"@,
        "custom_tool_call"@ != "local_shell_call_output"@,
        "custom_tool_call"@ != "shell_call_output"@,
        "custom_tool_call"@ != "apply_patch_call_output"@,
        "local_shell_call"@ != "shell_call"@,
        "local_shell_call"@ != "apply_patch_call"@,
        "local_shell_call"@ != "function_call_output"@,
        "local_shell_call"@ != "custom_tool_call_output"@,
        "local_shell_call"@ != "local_shell_call_output"@,
        "local_shell_call"@ != "shell_call_output"@,
        "local_shell_call"@ != "apply_patch_call_output"@,
        "shell_call"@ != "apply_patch_call"@,
        "shell_call"@ != "function_call_output"@,
        "shell_call"@ != "custom_tool_call_output"@,
        "shell_call"@ != "local_shell_call_output"@,
        "shell_call"@ != "shell_call_output"@,
        "shell_call"@ != "apply_patch_call_output"@,
        "apply_patch_call"@ != "function_call_output"@,
        "apply_patch_call"@ != "custom_tool_call_output"@,
        "apply_patch_call"@ != "local_shell_call_output"@,
        "apply_patch_call"@ != "shell_call_output"@,
        "apply_patch_call"@ != "apply_patch_call_output"@,
        "function_call_output"@ != "custom_tool_call_output"@,
        "function_call_output"@ != "local_shell_call_output"@,
        "function_call_output"@ != "shell_call_output"@,
        "function_call_output"@ != "apply_patch_call_output"@,
        "custom_tool_call_output"@ != "local_shell_call_output"@,
        "custom_tool_call_output"@ != "shell_call_output"@,
        "custom_tool_call_output"@ != "apply_patch_call_output"@,
        "local_shell_call_output"@ != "shell_call_output"@,
        "local_shell_call_output"@ != "apply_patch_call_output"@,
        "shell_call_output"@ != "apply_patch_call_output"@,
{
    reveal_strlit("function_call");
    reveal_strlit("custom_tool_call");
    reveal_strlit("local_shell_call");
    reveal_strlit("shell_call");
    reveal_strlit("apply_patch_call");
    reveal_strlit("function_call_output");
    reveal_strlit("custom_tool_call_output");
    reveal_strlit("local_shell_call_output");
    reveal_strlit("shell_call_output");
    reveal_strlit("apply_patch_call_output");
    assert("function_call"@.len() == 13);
    assert("custom_tool_call"@.len() == 16);
    assert("local_shell_call"@.len() == 16);
    assert("shell_call"@.len() == 10);
    assert("apply_patch_call"@.len() == 16);
    assert("function_call_output"@.len() == 20);
    assert("custom_tool_call_output"@.len() == 23);
    assert("local_shell_call_output"@.len() == 23);
    assert("shell_call_output"@.len() == 17);
    assert("apply_patch_call_output"@.len() == 23);
    assert("custom_tool_call"@[0] == 'c');
    assert("local_shell_call"@[0] == 'l');
    assert("apply_patch_call"@[0] == 'a');
    assert("custom_tool_call_output"@[0] == 'c');
    assert("local_shell_call_output"@[0] == 'l');
    assert("apply_patch_call_output"@[0] == 'a');
}

proof fn lemma_statuses()
    ensures
        "completed"@ != "incomplete"@,
        "completed"@ != "failed"@,
        "incomplete"@ != "failed"@,
{
    reveal_strlit("completed");
    reveal_strlit("incomplete");
    reveal_strlit("failed");
    assert("completed"@.len() == 9);
    assert("incomplete"@.len() == 10);
    assert("failed"@.len() == 6);
}

proof fn lemma_outcomes()
    ensures
        "timeout"@ != "exit"@,
{
    reveal_strlit("timeout");
    reveal_strlit("exit");
    assert("timeout"@.len() == 7);
    assert("exit"@.len() == 4);
}

/// Whether an object has no other fields than these.
pub open spec fn function_output_fields(o: Fields) -> bool {
    forall|i: int|
        0 <= i < o.len() ==> (#[trigger] o[i]).0 == "type"@ || o[i].0 == "call_id"@
            || o[i].0 == "output"@ || o[i].0 == "id"@ || o[i].0 == "status"@
}

proof fn lemma_function_output_fields(o: Fields)
    ensures
        function_output_fields(o) <==> only(o, seq!["type", "call_id", "output", "id", "status"]),
{
    let names = seq!["type", "call_id", "output", "id", "status"];
    assert(names[0]@ == "type"@);
    assert(names[1]@ == "call_id"@);
    assert(names[2]@ == "output"@);
    assert(names[3]@ == "id"@);
    assert(names[4]@ == "status"@);
    if function_output_fields(o) {
        assert forall|i: int| 0 <= i < o.len() implies named(names, (#[trigger] o[i]).0) by {}
    }
    if only(o, names) {
        assert forall|i: int| 0 <= i < o.len() implies (#[trigger] o[i]).0 == "type"@
            || o[i].0 == "call_id"@ || o[i].0 == "output"@ || o[i].0 == "id"@
            || o[i].0 == "status"@ by {
            assert(named(names, o[i].0));
        }
    }
}

/// Whether an object has no other fields than these.
pub open spec fn custom_output_fields(o: Fields) -> bool {
    forall|i: int|
        0 <= i < o.len() ==> (#[trigger] o[i]).0 == "type"@ || o[i].0 == "call_id"@
            || o[i].0 == "output"@ || o[i].0 == "id"@
}

proof fn lemma_custom_output_fields(o: Fields)
    ensures
        custom_output_fields(o) <==> only(o, seq!["type", "call_id", "output", "id"]),
{
    let names = seq!["type", "call_id", "output", "id"];
    assert(names[0]@ == "type"@);
    assert(names[1]@ == "call_id"@);
    assert(names[2]@ == "output"@);
    assert(names[3]@ == "id"@);
    if custom_output_fields(o) {
        assert forall|i: int| 0 <= i < o.len() implies named(names, (#[trigger] o[i]).0) by {}
    }
    if only(o, names) {
        assert forall|i: int| 0 <= i < o.len() implies (#[trigger] o[i]).0 == "type"@
            || o[i].0 == "call_id"@ || o[i].0 == "output"@ || o[i].0 == "id"@ by {
            assert(named(names, o[i].0));
        }
    }
}

/// Whether an object has no other fields than these.
pub open spec fn local_output_fields(o: Fields) -> bool {
    forall|i: int|
        0 <= i < o.len() ==> (#[trigger] o[i]).0 == "type"@ || o[i].0 == "id"@
            || o[i].0 == "output"@ || o[i].0 == "status"@
}

proof fn lemma_local_output_fields(o: Fields)
    ensures
        local_output_fields(o) <==> only(o, seq!["type", "id", "output", "status"]),
{
    let names = seq!["type", "id", "output", "status"];
    assert(names[0]@ == "type"@);
    assert(names[1]@ == "id"@);
    assert(names[2]@ == "output"@);
    assert(names[3]@ == "status"@);
    if local_output_fields(o) {
        assert forall|i: int| 0 <= i < o.len() implies named(names, (#[trigger] o[i]).0) by {}
    }
    if only(o, names) {
        assert forall|i: int| 0 <= i < o.len() implies (#[trigger] o[i]).0 == "type"@
            || o[i].0 == "id"@ || o[i].0 == "output"@ || o[i].0 == "status"@ by {
            assert(named(names, o[i].0));
        }
    }
}

/// Whether an object has no other fields than these.
pub open spec fn shell_output_fields(o: Fields) -> bool {
    forall|i: int|
        0 <= i < o.len() ==> (#[trigger] o[i]).0 == "type"@ || o[i].0 == "id"@
            || o[i].0 == "call_id"@ || o[i].0 == "output"@ || o[i].0 == "max_output_length"@
}

proof fn lemma_shell_output_fields(o: Fields)
    ensures
        shell_output_fields(o) <==> only(o, seq!["type", "id", "call_id", "output", "max_output_length"]),
{
    let names = seq!["type", "id", "call_id", "output", "max_output_length"];
    assert(names[0]@ == "type"@);
    assert(names[1]@ == "id"@);
    assert(names[2]@ == "call_id"@);
    assert(names[3]@ == "output"@);
    assert(names[4]@ == "max_output_length"@);
    if shell_output_fields(o) {
        assert forall|i: int| 0 <= i < o.len() implies named(names, (#[trigger] o[i]).0) by {}
    }
    if only(o, names) {
        assert forall|i: int| 0 <= i < o.len() implies (#[trigger] o[i]).0 == "type"@
            || o[i].0 == "id"@ || o[i].0 == "call_id"@ || o[i].0 == "output"@
            || o[i].0 == "max_output_length"@ by {
            assert(named(names, o[i].0));
        }
    }
}

/// Whether an object has no other fields than these.
pub open spec fn patch_output_fields(o: Fields) -> bool {
    forall|i: int|
        0 <= i < o.len() ==> (#[trigger] o[i]).0 == "type"@ || o[i].0 == "id"@
            || o[i].0 == "call_id"@ || o[i].0 == "status"@ || o[i].0 == "output"@
}

proof fn lemma_patch_output_fields(o: Fields)
    ensures
        patch_output_fields(o) <==> only(o, seq!["type", "id", "call_id", "status", "output"]),
{
    let names = seq!["type", "id", "call_id", "status", "output"];
    assert(names[0]@ == "type"@);
    assert(names[1]@ == "id"@);
    assert(names[2]@ == "call_id"@);
    assert(names[3]@ == "status"@);
    assert(names[4]@ == "output"@);
    if patch_output_fields(o) {
        assert forall|i: int| 0 <= i < o.len() implies named(names, (#[trigger] o[i]).0) by {}
    }
    if only(o, names) {
        assert forall|i: int| 0 <= i < o.len() implies (#[trigger] o[i]).0 == "type"@
            || o[i].0 == "id"@ || o[i].0 == "call_id"@ || o[i].0 == "status"@
            || o[i].0 == "output"@ by {
            assert(named(names, o[i].0));
        }
    }
}

/// Whether an object has no other fields than these.
pub open spec fn function_call_fields(o: Fields) -> bool {
    forall|i: int|
        0 <= i < o.len() ==> (#[trigger] o[i]).0 == "type"@ || o[i].0 == "arguments"@
            || o[i].0 == "call_id"@ || o[i].0 == "namespace"@ || o[i].0 == "name"@
            || o[i].0 == "id"@ || o[i].0 == "status"@
}

proof fn lemma_function_call_fields(o: Fields)
    ensures
        function_call_fields(o) <==> only(o, seq!["type", "arguments", "call_id", "namespace", "name", "id", "status"]),
{
    let names = seq!["type", "arguments", "call_id", "namespace", "name", "id", "status"];
    assert(names[0]@ == "type"@);
    assert(names[1]@ == "arguments"@);
    assert(names[2]@ == "call_id"@);
    assert(names[3]@ == "namespace"@);
    assert(names[4]@ == "name"@);
    assert(names[5]@ == "id"@);
    assert(names[6]@ == "status"@);
    if function_call_fields(o) {
        assert forall|i: int| 0 <= i < o.len() implies named(names, (#[trigger] o[i]).0) by {}
    }
    if only(o, names) {
        assert forall|i: int| 0 <= i < o.len() implies (#[trigger] o[i]).0 == "type"@
            || o[i].0 == "arguments"@ || o[i].0 == "call_id"@ || o[i].0 == "namespace"@
            || o[i].0 == "name"@ || o[i].0 == "id"@ || o[i].0 == "status"@ by {
            assert(named(names, o[i].0));
        }
    }
}

/// Whether an object has no other fields than these.
pub open spec fn custom_call_fields(o: Fields) -> bool {
    forall|i: int|
        0 <= i < o.len() ==> (#[trigger] o[i]).0 == "type"@ || o[i].0 == "call_id"@
            || o[i].0 == "namespace"@ || o[i].0 == "input"@ || o[i].0 == "name"@
            || o[i].0 == "id"@ || o[i].0 == "status"@
}

proof fn lemma_custom_call_fields(o: Fields)
    ensures
        custom_call_fields(o) <==> only(o, seq!["type", "call_id", "namespace", "input", "name", "id", "status"]),
{
    let names = seq!["type", "call_id", "namespace", "input", "name", "id", "status"];
    assert(names[0]@ == "type"@);
    assert(names[1]@ == "call_id"@);
    assert(names[2]@ == "namespace"@);
    assert(names[3]@ == "input"@);
    assert(names[4]@ == "name"@);
    assert(names[5]@ == "id"@);
    assert(names[6]@ == "status"@);
    if custom_call_fields(o) {
        assert forall|i: int| 0 <= i < o.len() implies named(names, (#[trigger] o[i]).0) by {}
    }
    if only(o, names) {
        assert forall|i: int| 0 <= i < o.len() implies (#[trigger] o[i]).0 == "type"@
            || o[i].0 == "call_id"@ || o[i].0 == "namespace"@ || o[i].0 == "input"@
            || o[i].0 == "name"@ || o[i].0 == "id"@ || o[i].0 == "status"@ by {
            assert(named(names, o[i].0));
        }
    }
}

/// Whether an object has no other fields than these.
pub open spec fn command_fields(o: Fields) -> bool {
    forall|i: int|
        0 <= i < o.len() ==> (#[trigger] o[i]).0 == "stdout"@ || o[i].0 == "stderr"@
            || o[i].0 == "outcome"@
}

proof fn lemma_command_fields(o: Fields)
    ensures
        command_fields(o) <==> only(o, seq!["stdout", "stderr", "outcome"]),
{
    let names = seq!["stdout", "stderr", "outcome"];
    assert(names[0]@ == "stdout"@);
    assert(names[1]@ == "stderr"@);
    assert(names[2]@ == "outcome"@);
    if command_fields(o) {
        assert forall|i: int| 0 <= i < o.len() implies named(names, (#[trigger] o[i]).0) by {}
    }
    if only(o, names) {
        assert forall|i: int| 0 <= i < o.len() implies (#[trigger] o[i]).0 == "stdout"@
            || o[i].0 == "stderr"@ || o[i].0 == "outcome"@ by {
            assert(named(names, o[i].0));
        }
    }
}

/// What an item of the history comes to.
pub type Outcome = Result<Option<(Role, ContentView, HistoryView)>, AIError>;

/// Whether an item came to the result of a call: told by the user, under the id of the call, which
/// was made before and had no result yet and now has one. Nothing else changes.
pub open spec fn comes_to_result(
    due: Outcome,
    h: HistoryView,
    call_id: Seq<char>,
    content: ResultOf<Seq<char>, Seq<ResultPartView>>,
    is_error: bool,
) -> bool {
    due matches Ok(Some((role, block, after))) && role == Role::User && block == (
    ContentOf::ToolResult::<Seq<char>, JsonView, ResultOf<Seq<char>, Seq<ResultPartView>>> {
        tool_use_id: call_id,
        content,
        is_error,
    }) && after.calls == h.calls && after.done == h.done.push(call_id) && !h.done.contains(call_id)
        && tool_named(h.calls, call_id) is Some
}

/// Whether a call is on record under an id and has no result yet.
pub open spec fn awaits(h: HistoryView, call_id: Seq<char>, tool: DeclaredOf<Seq<char>>) -> bool {
    tool_named(h.calls, call_id) == Some(tool) && !h.done.contains(call_id) && call_id.len() > 0
}

/// Whether a status tells that something is over.
pub open spec fn is_status(v: Option<JsonView>) -> bool {
    v is None || v == Some(JsonView::Text("completed"@)) || v == Some(JsonView::Text("incomplete"@))
}

/// Whether the outcome of a command is a failure: it ran out of time, or its exit code is not 0.
pub open spec fn bad_outcome(command: JsonView) -> bool {
    command.get("outcome"@) matches Some(outcome) && (outcome.get("type"@) == Some(
        JsonView::Text("timeout"@),
    ) || (outcome.get("exit_code"@) is Some && outcome.get("exit_code"@) != Some(
        JsonView::Unsigned(0),
    )))
}

/// Whether a value tells what a command put out and what came of it, and nothing else.
pub open spec fn is_command(command: JsonView) -> bool {
    &&& command matches JsonView::Object(o) && command_fields(o)
    &&& command.get("stdout"@) matches Some(JsonView::Text(_))
    &&& command.get("stderr"@) matches Some(JsonView::Text(_))
    &&& command.get("outcome"@) matches Some(JsonView::Object(outcome)) && ({
        ||| outcome.len() == 1 && field(outcome, "type"@) == Some(JsonView::Text("timeout"@))
        ||| outcome.len() == 2 && field(outcome, "type"@) == Some(JsonView::Text("exit"@)) && (
        match field(outcome, "exit_code"@) {
            Some(JsonView::Unsigned(code)) => code <= 0x7fff_ffff,
            Some(JsonView::Negative(code)) => code >= -0x8000_0000,
            _ => false,
        })
    })
}

proof fn lemma_command(command: JsonView)
    ensures
        command_failed(command) == (if is_command(command) {
            Some(bad_outcome(command))
        } else {
            None
        }),
{
    lemma_outcomes();
    match command {
        JsonView::Object(o) => {
            lemma_command_fields(o);
            match field(o, "outcome"@) {
                Some(JsonView::Object(outcome)) => {
                    lemma_one_field(outcome);
                },
                _ => {},
            }
        },
        _ => {},
    }
}

proof fn lemma_one_field(outcome: Fields)
    ensures
        outcome.len() == 1 && field(outcome, "type"@) is Some ==> field(outcome, "exit_code"@)
            is None,
{
    reveal_strlit("type");
    reveal_strlit("exit_code");
    assert("type"@.len() == 4);
    assert("exit_code"@.len() == 9);
    if outcome.len() == 1 {
        crate::json::lemma_position(outcome, "type"@, 0);
        crate::json::lemma_position(outcome, "exit_code"@, 0);
    }
}

proof fn lemma_any_failed(items: Seq<JsonView>, n: int)
    requires
        0 <= n,
    ensures
        match any_failed(items, n) {
            Some(failed) => (forall|i: int| n <= i < items.len() ==> is_command(#[trigger] items[i]))
                && (failed <==> exists|i: int|
                n <= i < items.len() && bad_outcome(#[trigger] items[i])),
            None => exists|i: int| n <= i < items.len() && !is_command(#[trigger] items[i]),
        },
    decreases items.len() - n,
{
    if n < items.len() {
        lemma_any_failed(items, n + 1);
        lemma_command(items[n]);
        match any_failed(items, n + 1) {
            Some(rest) => {
                if rest {
                    let i = choose|i: int|
                        n + 1 <= i < items.len() && bad_outcome(#[trigger] items[i]);
                    assert(bad_outcome(items[i]));
                }
                if !is_command(items[n]) {
                    assert(any_failed(items, n) is None);
                }
            },
            None => {
                let i = choose|i: int| n + 1 <= i < items.len() && !is_command(#[trigger] items[i]);
                assert(!is_command(items[i]));
            },
        }
    }
}

/// The result of a shell call is an error exactly where one of its commands, wherever it stands,
/// ran out of time or ended with an exit code that is not 0. The model is told what all of them put
/// out.
pub proof fn lemma_shell_result(
    o: Fields,
    tools: Table,
    h: HistoryView,
    call_id: Seq<char>,
    items: Seq<JsonView>,
    tool: WrappedOf<Seq<char>>,
)
    requires
        field(o, "type"@) == Some(JsonView::Text("shell_call_output"@)),
        shell_output_fields(o),
        field(o, "call_id"@) == Some(JsonView::Text(call_id)),
        field(o, "id"@) matches Some(id) ==> id is Text,
        field(o, "max_output_length"@) matches Some(n) ==> n is Null || n is Unsigned,
        field(o, "output"@) == Some(JsonView::Array(items)),
        tool.kind == WrappedKind::Shell,
        awaits(h, call_id, DeclaredOf::Wrapped(tool)),
    ensures
        (forall|i: int| 0 <= i < items.len() ==> is_command(#[trigger] items[i]))
            ==> comes_to_result(
            history_taken(o, tools, h),
            h,
            call_id,
            ResultOf::Text(json_text(JsonView::Array(items))),
            exists|i: int| 0 <= i < items.len() && bad_outcome(#[trigger] items[i]),
        ),
        (exists|i: int| 0 <= i < items.len() && !is_command(#[trigger] items[i])) ==> history_taken(
            o,
            tools,
            h,
        ) == Err::<Option<(Role, ContentView, HistoryView)>, AIError>(bad_history()),
{
    reveal(history_taken);
    lemma_item_kinds();
    lemma_shell_output_fields(o);
    lemma_any_failed(items, 0);
}

/// The result of a function call is told as it is, under the id of the call, and as an error
/// exactly where it is incomplete.
pub proof fn lemma_function_result(
    o: Fields,
    tools: Table,
    h: HistoryView,
    call_id: Seq<char>,
    text: Seq<char>,
    tool: DeclaredOf<Seq<char>>,
)
    requires
        field(o, "type"@) == Some(JsonView::Text("function_call_output"@)),
        function_output_fields(o),
        field(o, "call_id"@) == Some(JsonView::Text(call_id)),
        field(o, "id"@) matches Some(id) ==> id is Text,
        is_status(field(o, "status"@)),
        field(o, "output"@) == Some(JsonView::Text(text)),
        tool is Function || (tool matches DeclaredOf::Wrapped(w) && w.kind
            == WrappedKind::NamespaceFunction),
        awaits(h, call_id, tool),
    ensures
        comes_to_result(
            history_taken(o, tools, h),
            h,
            call_id,
            ResultOf::Text(text),
            field(o, "status"@) == Some(JsonView::Text("incomplete"@)),
        ),
{
    reveal(history_taken);
    lemma_item_kinds();
    lemma_statuses();
    lemma_function_output_fields(o);
}

/// The result of a tool that takes free text is told as it is, under the id of the call, and never
/// as an error.
pub proof fn lemma_custom_result(
    o: Fields,
    tools: Table,
    h: HistoryView,
    call_id: Seq<char>,
    text: Seq<char>,
    tool: WrappedOf<Seq<char>>,
)
    requires
        field(o, "type"@) == Some(JsonView::Text("custom_tool_call_output"@)),
        custom_output_fields(o),
        field(o, "call_id"@) == Some(JsonView::Text(call_id)),
        field(o, "id"@) matches Some(id) ==> id is Text,
        field(o, "output"@) == Some(JsonView::Text(text)),
        tool.kind == WrappedKind::Custom || tool.kind == WrappedKind::NamespaceCustom,
        awaits(h, call_id, DeclaredOf::Wrapped(tool)),
    ensures
        comes_to_result(history_taken(o, tools, h), h, call_id, ResultOf::Text(text), false),
{
    reveal(history_taken);
    lemma_item_kinds();
    lemma_custom_output_fields(o);
}

/// The result of a local shell call is told as it is, under its id, and as an error exactly where
/// it is incomplete.
pub proof fn lemma_local_shell_result(
    o: Fields,
    tools: Table,
    h: HistoryView,
    id: Seq<char>,
    text: Seq<char>,
    tool: WrappedOf<Seq<char>>,
)
    requires
        field(o, "type"@) == Some(JsonView::Text("local_shell_call_output"@)),
        local_output_fields(o),
        field(o, "id"@) == Some(JsonView::Text(id)),
        is_status(field(o, "status"@)),
        field(o, "output"@) == Some(JsonView::Text(text)),
        tool.kind == WrappedKind::LocalShell,
        awaits(h, id, DeclaredOf::Wrapped(tool)),
    ensures
        comes_to_result(
            history_taken(o, tools, h),
            h,
            id,
            ResultOf::Text(text),
            field(o, "status"@) == Some(JsonView::Text("incomplete"@)),
        ),
{
    reveal(history_taken);
    lemma_item_kinds();
    lemma_statuses();
    lemma_local_output_fields(o);
}

/// The result of a patch is what is said of it, or nothing, and an error exactly where it failed.
pub proof fn lemma_patch_result(
    o: Fields,
    tools: Table,
    h: HistoryView,
    call_id: Seq<char>,
    said: Option<Seq<char>>,
    tool: WrappedOf<Seq<char>>,
)
    requires
        field(o, "type"@) == Some(JsonView::Text("apply_patch_call_output"@)),
        patch_output_fields(o),
        field(o, "call_id"@) == Some(JsonView::Text(call_id)),
        field(o, "id"@) matches Some(id) ==> id is Text,
        field(o, "status"@) == Some(JsonView::Text("completed"@)) || field(o, "status"@) == Some(
            JsonView::Text("failed"@),
        ),
        match said {
            Some(text) => field(o, "output"@) == Some(JsonView::Text(text)),
            None => field(o, "output"@) is None || field(o, "output"@) == Some(JsonView::Null),
        },
        tool.kind == WrappedKind::ApplyPatch,
        awaits(h, call_id, DeclaredOf::Wrapped(tool)),
    ensures
        comes_to_result(
            history_taken(o, tools, h),
            h,
            call_id,
            ResultOf::Text(
                match said {
                    Some(text) => text,
                    None => Seq::empty(),
                },
            ),
            field(o, "status"@) == Some(JsonView::Text("failed"@)),
        ),
{
    reveal(history_taken);
    lemma_item_kinds();
    lemma_statuses();
    lemma_patch_output_fields(o);
}

/// Whether a piece of a result is told as it is, where it is a text.
pub open spec fn piece_told(item: JsonView, part: ResultPartView) -> bool {
    item.get("type"@) == Some(JsonView::Text("input_text"@)) ==> (item.get("text"@) matches Some(
        JsonView::Text(text),
    ) && part == ResultPartOf::<Seq<char>, JsonView>::Text(text))
}

/// A result in pieces is told piece by piece, in order, and texts as they are.
pub proof fn lemma_result_pieces(items: Seq<JsonView>, n: int)
    requires
        0 <= n <= items.len(),
    ensures
        result_parts_from(items, n) matches Ok(parts) ==> parts.len() == items.len() - n
            && forall|i: int|
            0 <= i < parts.len() ==> piece_told(items[n + i], #[trigger] parts[i]),
    decreases items.len() - n,
{
    if n < items.len() {
        lemma_result_pieces(items, n + 1);
        match result_parts_from(items, n) {
            Ok(parts) => {
                let rest = result_parts_from(items, n + 1)->Ok_0;
                assert forall|i: int| 0 <= i < parts.len() implies piece_told(
                    items[n + i],
                    #[trigger] parts[i],
                ) by {
                    if i > 0 {
                        assert(parts[i] == rest[i - 1]);
                        assert(piece_told(items[(n + 1) + (i - 1)], rest[i - 1]));
                    }
                }
            },
            Err(_) => {},
        }
    }
}

/// No result is taken twice, none without its call, and no call under the id of an earlier one;
/// what is taken is noted.
pub proof fn lemma_history_is_noted(o: Fields, tools: Table, h: HistoryView)
    ensures
        history_taken(o, tools, h) matches Ok(Some((role, block, after))) ==> match block {
            ContentOf::ToolUse { id, name, input } => {
                &&& role == Role::Assistant
                &&& field(o, "call_id"@) == Some(JsonView::Text(id))
                &&& id.len() > 0
                &&& tool_named(h.calls, id) is None
                &&& tool_named(after.calls, id) is Some
                &&& after.done == h.done
                &&& exists|k: int|
                    0 <= k < tools.len() && (#[trigger] tools[k]).0 == name && tool_named(
                        after.calls,
                        id,
                    ) == Some(tools[k].1)
                &&& input is Object
            },
            ContentOf::ToolResult { tool_use_id, content, is_error } => {
                &&& role == Role::User
                &&& field(o, "call_id"@) == Some(JsonView::Text(tool_use_id)) || field(o, "id"@)
                    == Some(JsonView::Text(tool_use_id))
                &&& tool_named(h.calls, tool_use_id) is Some
                &&& !h.done.contains(tool_use_id)
                &&& after.done == h.done.push(tool_use_id)
                &&& after.calls == h.calls
            },
            _ => false,
        },
{
    broadcast use group_lookups;

    reveal(history_taken);
    match history_taken(o, tools, h) {
        Ok(Some((role, ContentOf::ToolUse { id, name, input }, after))) => {
            assert forall|w: WantedOf<Seq<char>>| (#[trigger] sole(tools, w)) is Some implies exists|
                k: int,
            | 0 <= k < tools.len() && #[trigger] tools[k] == sole(tools, w)->0 by {
                lemma_sole_declared(tools, w);
            }
            assert forall|tool: DeclaredOf<Seq<char>>| tool_named(
                #[trigger] tool_put(h.calls, id, tool),
                id,
            ) == Some(tool) by {
                crate::tools::lemma_tool_put_found(h.calls, id, tool);
            }
        },
        _ => {},
    }
}

proof fn lemma_filter_single<A>(s: Seq<A>, picks: spec_fn(A) -> bool, k: int)
    requires
        0 <= k < s.len(),
        picks(s[k]),
        forall|i: int| 0 <= i < s.len() && i != k ==> !picks(#[trigger] s[i]),
    ensures
        s.filter(picks) == seq![s[k]],
    decreases s.len(),
{
    reveal(Seq::filter);
    let front = s.drop_last();
    if k == s.len() - 1 {
        lemma_filter_none(front, picks);
        assert(front.filter(picks).push(s.last()) == seq![s[k]]);
    } else {
        assert(!picks(s[s.len() - 1]));
        assert forall|i: int| 0 <= i < front.len()
            && i != k implies !picks(#[trigger] front[i]) by {
            assert(!picks(s[i]));
        }
        lemma_filter_single(front, picks, k);
    }
}

proof fn lemma_filter_none<A>(s: Seq<A>, picks: spec_fn(A) -> bool)
    requires
        forall|i: int| 0 <= i < s.len() ==> !picks(#[trigger] s[i]),
    ensures
        s.filter(picks).len() == 0,
    decreases s.len(),
{
    reveal(Seq::filter);
    if s.len() > 0 {
        let front = s.drop_last();
        assert(!picks(s[s.len() - 1]));
        assert forall|i: int| 0 <= i < front.len() implies !picks(#[trigger] front[i]) by {
            assert(!picks(s[i]));
        }
        lemma_filter_none(front, picks);
    }
}

/// A tool is found where exactly one that was declared is what is looked for.
pub proof fn lemma_sole_found(table: Table, w: WantedOf<Seq<char>>, k: int)
    requires
        0 <= k < table.len(),
        is_wanted(w, table[k]),
        forall|i: int| 0 <= i < table.len() && i != k ==> !is_wanted(w, #[trigger] table[i]),
    ensures
        sole(table, w) == Some(table[k]),
{
    let picks = |e: (Seq<char>, DeclaredOf<Seq<char>>)| is_wanted(w, e);
    assert forall|i: int| 0 <= i < table.len() && i != k implies !picks(#[trigger] table[i]) by {
        assert(!is_wanted(w, table[i]));
    }
    lemma_filter_single(table, picks, k);
}

/// Whether a declared tool is a function of a name, outside of namespaces or in one.
pub open spec fn is_function(
    entry: (Seq<char>, DeclaredOf<Seq<char>>),
    name: Seq<char>,
    namespace: Option<Seq<char>>,
) -> bool {
    match entry.1 {
        DeclaredOf::Function => entry.0 == name && namespace is None,
        DeclaredOf::Wrapped(w) => w.kind == WrappedKind::NamespaceFunction && w.name == name
            && w.namespace == namespace,
    }
}

/// The namespace that an object tells, where it tells one.
pub open spec fn tells_namespace(o: Fields, namespace: Option<Seq<char>>) -> bool {
    match namespace {
        Some(s) => field(o, "namespace"@) == Some(JsonView::Text(s)) && s.len() > 0,
        None => field(o, "namespace"@) is None,
    }
}

/// A call of a function is the use of the one tool that was declared for it, under the id of the
/// call, with the arguments as input: the object that their text stands for, or, in a namespace,
/// that object in its wrapper.
pub proof fn lemma_function_call(
    o: Fields,
    tools: Table,
    h: HistoryView,
    call_id: Seq<char>,
    name: Seq<char>,
    namespace: Option<Seq<char>>,
    text: Seq<char>,
    arguments: JsonView,
    k: int,
)
    requires
        field(o, "type"@) == Some(JsonView::Text("function_call"@)),
        function_call_fields(o),
        field(o, "call_id"@) == Some(JsonView::Text(call_id)),
        call_id.len() > 0,
        field(o, "id"@) matches Some(id) ==> id is Text,
        is_status(field(o, "status"@)),
        field(o, "name"@) == Some(JsonView::Text(name)),
        tells_namespace(o, namespace),
        field(o, "arguments"@) == Some(JsonView::Text(text)),
        parsed(encode_utf8(text)) == Some(arguments),
        arguments is Object,
        tool_named(h.calls, call_id) is None,
        0 <= k < tools.len(),
        is_function(tools[k], name, namespace),
        forall|i: int|
            0 <= i < tools.len() && i != k ==> !is_function(#[trigger] tools[i], name, namespace),
    ensures
        history_taken(o, tools, h) matches Ok(Some((role, block, after))) && role == Role::Assistant
            && (block matches ContentOf::ToolUse { id, name: used, input } && id == call_id && used
            == tools[k].0 && (match tools[k].1 {
            DeclaredOf::Function => input == arguments,
            DeclaredOf::Wrapped(_) => input == JsonView::Object(seq![("arguments"@, arguments)]),
        })) && tool_named(after.calls, call_id) == Some(tools[k].1) && after.done == h.done,
{
    reveal(history_taken);
    lemma_item_kinds();
    lemma_function_call_fields(o);
    let w = WantedOf::Exactly {
        kind: WrappedKind::NamespaceFunction,
        name,
        namespace,
        or_function: true,
    };
    assert(is_wanted(w, tools[k]));
    assert forall|i: int| 0 <= i < tools.len()
        && i != k implies !is_wanted(w, #[trigger] tools[i]) by {
        assert(!is_function(tools[i], name, namespace));
    }
    lemma_sole_found(tools, w, k);
    crate::tools::lemma_tool_put_found(h.calls, call_id, tools[k].1);
    assert(JsonView::object().with("arguments"@, arguments) == JsonView::Object(
        seq![("arguments"@, arguments)],
    )) by {
        assert(JsonView::object()->Object_0.push(("arguments"@, arguments)) == seq![
            ("arguments"@, arguments),
        ]);
    }
}

/// A call of a tool that takes free text is the use of the one tool that was declared for it, with
/// the text in its wrapper as input.
pub proof fn lemma_custom_call(
    o: Fields,
    tools: Table,
    h: HistoryView,
    call_id: Seq<char>,
    id: Seq<char>,
    name: Seq<char>,
    namespace: Option<Seq<char>>,
    text: Seq<char>,
    k: int,
)
    requires
        field(o, "type"@) == Some(JsonView::Text("custom_tool_call"@)),
        custom_call_fields(o),
        field(o, "call_id"@) == Some(JsonView::Text(call_id)),
        call_id.len() > 0,
        field(o, "id"@) == Some(JsonView::Text(id)),
        id.len() > 0,
        is_status(field(o, "status"@)),
        field(o, "name"@) == Some(JsonView::Text(name)),
        tells_namespace(o, namespace),
        field(o, "input"@) == Some(JsonView::Text(text)),
        tool_named(h.calls, call_id) is None,
        0 <= k < tools.len(),
        is_custom(tools[k], name, namespace),
        forall|i: int|
            0 <= i < tools.len() && i != k ==> !is_custom(#[trigger] tools[i], name, namespace),
    ensures
        history_taken(o, tools, h) matches Ok(Some((role, block, after))) && role == Role::Assistant
            && (block matches ContentOf::ToolUse { id: used_id, name: used, input } && used_id
            == call_id && used == tools[k].0 && input == JsonView::Object(
            seq![("input"@, JsonView::Text(text))],
        )) && tool_named(after.calls, call_id) == Some(tools[k].1) && after.done == h.done,
{
    reveal(history_taken);
    lemma_item_kinds();
    lemma_custom_call_fields(o);
    let w = WantedOf::Exactly {
        kind: if namespace is Some {
            WrappedKind::NamespaceCustom
        } else {
            WrappedKind::Custom
        },
        name,
        namespace,
        or_function: false,
    };
    assert(is_wanted(w, tools[k]));
    assert forall|i: int| 0 <= i < tools.len()
        && i != k implies !is_wanted(w, #[trigger] tools[i]) by {
        assert(!is_custom(tools[i], name, namespace));
    }
    lemma_sole_found(tools, w, k);
    crate::tools::lemma_tool_put_found(h.calls, call_id, tools[k].1);
    let input = JsonView::Text(text);
    assert(JsonView::object().with("input"@, input) == JsonView::Object(seq![("input"@, input)])) by {
        assert(JsonView::object()->Object_0.push(("input"@, input)) == seq![("input"@, input)]);
    }
}

/// Whether a declared tool takes free text and has a name, outside of namespaces or in one.
pub open spec fn is_custom(
    entry: (Seq<char>, DeclaredOf<Seq<char>>),
    name: Seq<char>,
    namespace: Option<Seq<char>>,
) -> bool {
    entry.1 matches DeclaredOf::Wrapped(w) && w.name == name && w.namespace == namespace && w.kind
        == (if namespace is Some {
        WrappedKind::NamespaceCustom
    } else {
        WrappedKind::Custom
    })
}

/// A call that asks the client to act is the use of the one tool that was declared for it, with
/// what is asked, as it is, in its wrapper as input.
pub proof fn lemma_action_call(o: Fields, tools: Table, h: HistoryView, kind: WrappedKind)
    requires
        kind == WrappedKind::LocalShell ==> field(o, "type"@) == Some(
            JsonView::Text("local_shell_call"@),
        ),
        kind == WrappedKind::Shell ==> field(o, "type"@) == Some(JsonView::Text("shell_call"@)),
        kind == WrappedKind::ApplyPatch ==> field(o, "type"@) == Some(
            JsonView::Text("apply_patch_call"@),
        ),
        kind == WrappedKind::LocalShell || kind == WrappedKind::Shell || kind
            == WrappedKind::ApplyPatch,
    ensures
        history_taken(o, tools, h) matches Ok(Some((role, block, after))) ==> role
            == Role::Assistant && (block matches ContentOf::ToolUse { id, name, input } && field(
            o,
            "call_id"@,
        ) == Some(JsonView::Text(id)) && ({
            let key = if kind == WrappedKind::ApplyPatch {
                "operation"@
            } else {
                "action"@
            };
            field(o, key) matches Some(asked) && input == JsonView::Object(seq![(key, asked)])
        }) && exists|k: int|
            0 <= k < tools.len() && (#[trigger] tools[k]).0 == name
                && (tools[k].1 matches DeclaredOf::Wrapped(
                w,
            ) && w.kind == kind)),
{
    reveal(history_taken);
    lemma_item_kinds();
    match history_taken(o, tools, h) {
        Ok(Some(_)) => {
            lemma_sole_declared(tools, WantedOf::Kind(kind));
            let asked = field(o, kind.field())->0;
            assert(JsonView::object().with(kind.field(), asked) == JsonView::Object(
                seq![(kind.field(), asked)],
            )) by {
                assert(JsonView::object()->Object_0.push((kind.field(), asked)) == seq![
                    (kind.field(), asked),
                ]);
            }
        },
        _ => {},
    }
}

} // verus!
