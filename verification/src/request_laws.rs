//! What holds of every request that goes upstream: each of its fields says what was asked, and it
//! has no other fields.
use vstd::prelude::*;

use crate::choice::{choice_of, is_wanted, lemma_sole_declared, wanted_by};
use crate::history_laws::lemma_sole_found;
use crate::json::{field, text_field, Fields, JsonView};
use crate::lookups::{group_lookups, lemma_some_get, lemma_some_is_object};
use crate::messages::Role;
use crate::request::{converted, RequestInView};
use crate::request_types::{
    choice_json, content_json, request_json, result_part_json, tool_json, turn_json, ContentOf,
    ContentView, ResultOf, ResultPartOf, ResultPartView, ToolView, TurnView,
};
use crate::tools::{DeclaredOf, Table, WrappedKind};

verus! {

proof fn lemma_request_names()
    ensures
        "messages"@ != "system"@,
        "messages"@ != "model"@,
        "messages"@ != "max_tokens"@,
        "messages"@ != "stream"@,
        "messages"@ != "temperature"@,
        "messages"@ != "top_p"@,
        "messages"@ != "tools"@,
        "messages"@ != "tool_choice"@,
        "messages"@ != "metadata"@,
        "messages"@ != "thinking"@,
        "messages"@ != "output_config"@,
        "system"@ != "model"@,
        "system"@ != "max_tokens"@,
        "system"@ != "stream"@,
        "system"@ != "temperature"@,
        "system"@ != "top_p"@,
        "system"@ != "tools"@,
        "system"@ != "tool_choice"@,
        "system"@ != "metadata"@,
        "system"@ != "thinking"@,
        "system"@ != "output_config"@,
        "model"@ != "max_tokens"@,
        "model"@ != "stream"@,
        "model"@ != "temperature"@,
        "model"@ != "top_p"@,
        "model"@ != "tools"@,
        "model"@ != "tool_choice"@,
        "model"@ != "metadata"@,
        "model"@ != "thinking"@,
        "model"@ != "output_config"@,
        "max_tokens"@ != "stream"@,
        "max_tokens"@ != "temperature"@,
        "max_tokens"@ != "top_p"@,
        "max_tokens"@ != "tools"@,
        "max_tokens"@ != "tool_choice"@,
        "max_tokens"@ != "metadata"@,
        "max_tokens"@ != "thinking"@,
        "max_tokens"@ != "output_config"@,
        "stream"@ != "temperature"@,
        "stream"@ != "top_p"@,
        "stream"@ != "tools"@,
        "stream"@ != "tool_choice"@,
        "stream"@ != "metadata"@,
        "stream"@ != "thinking"@,
        "stream"@ != "output_config"@,
        "temperature"@ != "top_p"@,
        "temperature"@ != "tools"@,
        "temperature"@ != "tool_choice"@,
        "temperature"@ != "metadata"@,
        "temperature"@ != "thinking"@,
        "temperature"@ != "output_config"@,
        "top_p"@ != "tools"@,
        "top_p"@ != "tool_choice"@,
        "top_p"@ != "metadata"@,
        "top_p"@ != "thinking"@,
        "top_p"@ != "output_config"@,
        "tools"@ != "tool_choice"@,
        "tools"@ != "metadata"@,
        "tools"@ != "thinking"@,
        "tools"@ != "output_config"@,
        "tool_choice"@ != "metadata"@,
        "tool_choice"@ != "thinking"@,
        "tool_choice"@ != "output_config"@,
        "metadata"@ != "thinking"@,
        "metadata"@ != "output_config"@,
        "thinking"@ != "output_config"@,
{
    reveal_strlit("messages");
    reveal_strlit("system");
    reveal_strlit("model");
    reveal_strlit("max_tokens");
    reveal_strlit("stream");
    reveal_strlit("temperature");
    reveal_strlit("top_p");
    reveal_strlit("tools");
    reveal_strlit("tool_choice");
    reveal_strlit("metadata");
    reveal_strlit("thinking");
    reveal_strlit("output_config");
    assert("messages"@.len() == 8);
    assert("system"@.len() == 6);
    assert("model"@.len() == 5);
    assert("max_tokens"@.len() == 10);
    assert("stream"@.len() == 6);
    assert("temperature"@.len() == 11);
    assert("top_p"@.len() == 5);
    assert("tools"@.len() == 5);
    assert("tool_choice"@.len() == 11);
    assert("metadata"@.len() == 8);
    assert("thinking"@.len() == 8);
    assert("output_config"@.len() == 13);
    assert("messages"@[2] == 's');
    assert("metadata"@[2] == 't');
    assert("messages"@[0] == 'm');
    assert("thinking"@[0] == 't');
    assert("system"@[1] == 'y');
    assert("stream"@[1] == 't');
    assert("model"@[0] == 'm');
    assert("top_p"@[0] == 't');
    assert("tools"@[0] == 't');
    assert("temperature"@[1] == 'e');
    assert("tool_choice"@[1] == 'o');
    assert("top_p"@[2] == 'p');
    assert("tools"@[2] == 'o');
    assert("metadata"@[0] == 'm');
}

proof fn lemma_small_names()
    ensures
        "type"@ != "effort"@,
        "type"@ != "format"@,
        "type"@ != "schema"@,
        "type"@ != "user_id"@,
        "type"@ != "name"@,
        "type"@ != "description"@,
        "type"@ != "input_schema"@,
        "type"@ != "disable_parallel_tool_use"@,
        "type"@ != "text"@,
        "type"@ != "source"@,
        "type"@ != "title"@,
        "type"@ != "id"@,
        "type"@ != "input"@,
        "type"@ != "tool_use_id"@,
        "type"@ != "content"@,
        "type"@ != "is_error"@,
        "type"@ != "role"@,
        "effort"@ != "format"@,
        "effort"@ != "schema"@,
        "effort"@ != "user_id"@,
        "effort"@ != "name"@,
        "effort"@ != "description"@,
        "effort"@ != "input_schema"@,
        "effort"@ != "disable_parallel_tool_use"@,
        "effort"@ != "text"@,
        "effort"@ != "source"@,
        "effort"@ != "title"@,
        "effort"@ != "id"@,
        "effort"@ != "input"@,
        "effort"@ != "tool_use_id"@,
        "effort"@ != "content"@,
        "effort"@ != "is_error"@,
        "effort"@ != "role"@,
        "format"@ != "schema"@,
        "format"@ != "user_id"@,
        "format"@ != "name"@,
        "format"@ != "description"@,
        "format"@ != "input_schema"@,
        "format"@ != "disable_parallel_tool_use"@,
        "format"@ != "text"@,
        "format"@ != "source"@,
        "format"@ != "title"@,
        "format"@ != "id"@,
        "format"@ != "input"@,
        "format"@ != "tool_use_id"@,
        "format"@ != "content"@,
        "format"@ != "is_error"@,
        "format"@ != "role"@,
        "schema"@ != "user_id"@,
        "schema"@ != "name"@,
        "schema"@ != "description"@,
        "schema"@ != "input_schema"@,
        "schema"@ != "disable_parallel_tool_use"@,
        "schema"@ != "text"@,
        "schema"@ != "source"@,
        "schema"@ != "title"@,
        "schema"@ != "id"@,
        "schema"@ != "input"@,
        "schema"@ != "tool_use_id"@,
        "schema"@ != "content"@,
        "schema"@ != "is_error"@,
        "schema"@ != "role"@,
        "user_id"@ != "name"@,
        "user_id"@ != "description"@,
        "user_id"@ != "input_schema"@,
        "user_id"@ != "disable_parallel_tool_use"@,
        "user_id"@ != "text"@,
        "user_id"@ != "source"@,
        "user_id"@ != "title"@,
        "user_id"@ != "id"@,
        "user_id"@ != "input"@,
        "user_id"@ != "tool_use_id"@,
        "user_id"@ != "content"@,
        "user_id"@ != "is_error"@,
        "user_id"@ != "role"@,
        "name"@ != "description"@,
        "name"@ != "input_schema"@,
        "name"@ != "disable_parallel_tool_use"@,
        "name"@ != "text"@,
        "name"@ != "source"@,
        "name"@ != "title"@,
        "name"@ != "id"@,
        "name"@ != "input"@,
        "name"@ != "tool_use_id"@,
        "name"@ != "content"@,
        "name"@ != "is_error"@,
        "name"@ != "role"@,
        "description"@ != "input_schema"@,
        "description"@ != "disable_parallel_tool_use"@,
        "description"@ != "text"@,
        "description"@ != "source"@,
        "description"@ != "title"@,
        "description"@ != "id"@,
        "description"@ != "input"@,
        "description"@ != "tool_use_id"@,
        "description"@ != "content"@,
        "description"@ != "is_error"@,
        "description"@ != "role"@,
        "input_schema"@ != "disable_parallel_tool_use"@,
        "input_schema"@ != "text"@,
        "input_schema"@ != "source"@,
        "input_schema"@ != "title"@,
        "input_schema"@ != "id"@,
        "input_schema"@ != "input"@,
        "input_schema"@ != "tool_use_id"@,
        "input_schema"@ != "content"@,
        "input_schema"@ != "is_error"@,
        "input_schema"@ != "role"@,
        "disable_parallel_tool_use"@ != "text"@,
        "disable_parallel_tool_use"@ != "source"@,
        "disable_parallel_tool_use"@ != "title"@,
        "disable_parallel_tool_use"@ != "id"@,
        "disable_parallel_tool_use"@ != "input"@,
        "disable_parallel_tool_use"@ != "tool_use_id"@,
        "disable_parallel_tool_use"@ != "content"@,
        "disable_parallel_tool_use"@ != "is_error"@,
        "disable_parallel_tool_use"@ != "role"@,
        "text"@ != "source"@,
        "text"@ != "title"@,
        "text"@ != "id"@,
        "text"@ != "input"@,
        "text"@ != "tool_use_id"@,
        "text"@ != "content"@,
        "text"@ != "is_error"@,
        "text"@ != "role"@,
        "source"@ != "title"@,
        "source"@ != "id"@,
        "source"@ != "input"@,
        "source"@ != "tool_use_id"@,
        "source"@ != "content"@,
        "source"@ != "is_error"@,
        "source"@ != "role"@,
        "title"@ != "id"@,
        "title"@ != "input"@,
        "title"@ != "tool_use_id"@,
        "title"@ != "content"@,
        "title"@ != "is_error"@,
        "title"@ != "role"@,
        "id"@ != "input"@,
        "id"@ != "tool_use_id"@,
        "id"@ != "content"@,
        "id"@ != "is_error"@,
        "id"@ != "role"@,
        "input"@ != "tool_use_id"@,
        "input"@ != "content"@,
        "input"@ != "is_error"@,
        "input"@ != "role"@,
        "tool_use_id"@ != "content"@,
        "tool_use_id"@ != "is_error"@,
        "tool_use_id"@ != "role"@,
        "content"@ != "is_error"@,
        "content"@ != "role"@,
        "is_error"@ != "role"@,
{
    reveal_strlit("type");
    reveal_strlit("effort");
    reveal_strlit("format");
    reveal_strlit("schema");
    reveal_strlit("user_id");
    reveal_strlit("name");
    reveal_strlit("description");
    reveal_strlit("input_schema");
    reveal_strlit("disable_parallel_tool_use");
    reveal_strlit("text");
    reveal_strlit("source");
    reveal_strlit("title");
    reveal_strlit("id");
    reveal_strlit("input");
    reveal_strlit("tool_use_id");
    reveal_strlit("content");
    reveal_strlit("is_error");
    reveal_strlit("role");
    assert("type"@.len() == 4);
    assert("effort"@.len() == 6);
    assert("format"@.len() == 6);
    assert("schema"@.len() == 6);
    assert("user_id"@.len() == 7);
    assert("name"@.len() == 4);
    assert("description"@.len() == 11);
    assert("input_schema"@.len() == 12);
    assert("disable_parallel_tool_use"@.len() == 25);
    assert("text"@.len() == 4);
    assert("source"@.len() == 6);
    assert("title"@.len() == 5);
    assert("id"@.len() == 2);
    assert("input"@.len() == 5);
    assert("tool_use_id"@.len() == 11);
    assert("content"@.len() == 7);
    assert("is_error"@.len() == 8);
    assert("role"@.len() == 4);
    assert("type"@[0] == 't');
    assert("name"@[0] == 'n');
    assert("type"@[1] == 'y');
    assert("text"@[1] == 'e');
    assert("role"@[0] == 'r');
    assert("effort"@[0] == 'e');
    assert("format"@[0] == 'f');
    assert("schema"@[0] == 's');
    assert("source"@[0] == 's');
    assert("schema"@[1] == 'c');
    assert("source"@[1] == 'o');
    assert("user_id"@[0] == 'u');
    assert("content"@[0] == 'c');
    assert("text"@[0] == 't');
    assert("description"@[0] == 'd');
    assert("tool_use_id"@[0] == 't');
    assert("title"@[0] == 't');
    assert("input"@[0] == 'i');
}

proof fn lemma_efforts()
    ensures
        "none"@ != "low"@,
        "none"@ != "medium"@,
        "none"@ != "high"@,
        "none"@ != "xhigh"@,
        "none"@ != "max"@,
        "low"@ != "medium"@,
        "low"@ != "high"@,
        "low"@ != "xhigh"@,
        "low"@ != "max"@,
        "medium"@ != "high"@,
        "medium"@ != "xhigh"@,
        "medium"@ != "max"@,
        "high"@ != "xhigh"@,
        "high"@ != "max"@,
        "xhigh"@ != "max"@,
{
    reveal_strlit("none");
    reveal_strlit("low");
    reveal_strlit("medium");
    reveal_strlit("high");
    reveal_strlit("xhigh");
    reveal_strlit("max");
    assert("none"@.len() == 4);
    assert("low"@.len() == 3);
    assert("medium"@.len() == 6);
    assert("high"@.len() == 4);
    assert("xhigh"@.len() == 5);
    assert("max"@.len() == 3);
    assert("none"@[0] == 'n');
    assert("high"@[0] == 'h');
    assert("low"@[0] == 'l');
    assert("max"@[0] == 'm');
}

proof fn lemma_modes()
    ensures
        "auto"@ != "required"@,
        "auto"@ != "none"@,
        "auto"@ != "any"@,
        "auto"@ != "tool"@,
        "required"@ != "none"@,
        "required"@ != "any"@,
        "required"@ != "tool"@,
        "none"@ != "any"@,
        "none"@ != "tool"@,
        "any"@ != "tool"@,
{
    reveal_strlit("auto");
    reveal_strlit("required");
    reveal_strlit("none");
    reveal_strlit("any");
    reveal_strlit("tool");
    assert("auto"@.len() == 4);
    assert("required"@.len() == 8);
    assert("none"@.len() == 4);
    assert("any"@.len() == 3);
    assert("tool"@.len() == 4);
    assert("auto"@[0] == 'a');
    assert("none"@[0] == 'n');
    assert("tool"@[0] == 't');
}

proof fn lemma_formats()
    ensures
        "text"@ != "json_schema"@,
{
    reveal_strlit("text");
    reveal_strlit("json_schema");
    assert("text"@.len() == 4);
    assert("json_schema"@.len() == 11);
}

proof fn lemma_choices()
    ensures
        "function"@ != "custom"@,
        "function"@ != "local_shell"@,
        "function"@ != "shell"@,
        "function"@ != "apply_patch"@,
        "custom"@ != "local_shell"@,
        "custom"@ != "shell"@,
        "custom"@ != "apply_patch"@,
        "local_shell"@ != "shell"@,
        "local_shell"@ != "apply_patch"@,
        "shell"@ != "apply_patch"@,
{
    reveal_strlit("function");
    reveal_strlit("custom");
    reveal_strlit("local_shell");
    reveal_strlit("shell");
    reveal_strlit("apply_patch");
    assert("function"@.len() == 8);
    assert("custom"@.len() == 6);
    assert("local_shell"@.len() == 11);
    assert("shell"@.len() == 5);
    assert("apply_patch"@.len() == 11);
    assert("local_shell"@[0] == 'l');
    assert("apply_patch"@[0] == 'a');
}


/// The string of a field, where there is one and it is not empty.
pub open spec fn told_by(raw: JsonView, name: Seq<char>) -> Option<Seq<char>> {
    match raw.get(name) {
        Some(JsonView::Text(s)) => if s.len() == 0 {
            None
        } else {
            Some(s)
        },
        _ => None,
    }
}

/// What goes upstream is what was asked: the model, the length of the answer or 4096 tokens where
/// none is given, whether to stream, the temperature, the nucleus and the user; and it has no
/// field but those that are known upstream.
#[verifier::rlimit(60)]
#[verifier::spinoff_prover]
pub proof fn lemma_request_as_asked(req: RequestInView)
    requires
        converted(req) is Ok,
    ensures
        ({
            let sent = request_json((converted(req)->Ok_0).0);
            &&& sent is Object
            &&& sent.get("model"@) == Some(
                JsonView::Text(
                    if req.model is Some {
                        req.model->0
                    } else {
                        Seq::empty()
                    },
                ),
            )
            &&& sent.get("max_tokens"@) == Some(
                JsonView::Unsigned(
                    if req.max_output_tokens is Some {
                        req.max_output_tokens->0
                    } else {
                        4096
                    },
                ),
            )
            &&& sent.get("stream"@) == (if req.stream == Some(true) {
                Some(JsonView::Bool(true))
            } else {
                None
            })
            &&& req.temperature is None ==> sent.get("temperature"@) is None
            &&& req.temperature is Some ==> req.temperature->0.in_unit_range && sent.get(
                "temperature"@,
            ) == Some(req.temperature->0.number)
            &&& sent.get("top_p"@) == req.top_p
            &&& match (told_by(req.raw, "safety_identifier"@), told_by(req.raw, "user"@)) {
                (Some(id), _) => sent.get("metadata"@) is Some && sent.get("metadata"@)->0.get(
                    "user_id"@,
                ) == Some(JsonView::Text(id)),
                (None, Some(id)) => sent.get("metadata"@) is Some && sent.get("metadata"@)->0.get(
                    "user_id"@,
                ) == Some(JsonView::Text(id)),
                (None, None) => sent.get("metadata"@) is None,
            }
            &&& forall|name: Seq<char>|
                name != "messages"@ && name != "system"@ && name != "model"@
                    && name != "max_tokens"@ && name != "stream"@ && name != "temperature"@
                    && name != "top_p"@ && name != "tools"@ && name != "tool_choice"@
                    && name != "metadata"@ && name != "thinking"@
                    && name != "output_config"@ ==> (#[trigger] sent.get(name)) is None
        }),
{
    broadcast use {group_lookups, lemma_some_get, lemma_some_is_object};

    lemma_request_names();
    lemma_small_names();
}

/// What is asked of the model's thinking: nothing where no effort is given, none where the effort
/// is `none`, and else as much as is asked, by the name of the effort.
#[verifier::rlimit(60)]
#[verifier::spinoff_prover]
pub proof fn lemma_effort_as_asked(req: RequestInView)
    requires
        converted(req) is Ok,
    ensures
        ({
            let sent = request_json((converted(req)->Ok_0).0);
            let thinking = sent.get("thinking"@);
            let output = sent.get("output_config"@);
            match req.raw.get("reasoning"@) {
                None => thinking is None && (output is Some ==> output->0.get("effort"@) is None),
                Some(JsonView::Object(r)) => match field(r, "effort"@) {
                    None => thinking is None && (output is Some ==> output->0.get(
                        "effort"@,
                    ) is None),
                    Some(JsonView::Text(effort)) => if effort == "none"@ {
                        thinking is Some && thinking->0.get("type"@) == Some(
                            JsonView::Text("disabled"@),
                        ) && (output is Some ==> output->0.get("effort"@) is None)
                    } else {
                        (effort == "low"@ || effort == "medium"@ || effort == "high"@ || effort
                            == "xhigh"@ || effort == "max"@) && thinking is Some
                            && thinking->0.get("type"@) == Some(JsonView::Text("adaptive"@))
                            && output is Some && output->0.get("effort"@) == Some(
                            JsonView::Text(effort),
                        )
                    },
                    _ => false,
                },
                _ => false,
            }
        }),
{
    broadcast use {group_lookups, lemma_some_get, lemma_some_is_object};

    lemma_request_names();
    lemma_small_names();
    lemma_efforts();
}

/// What is asked of the output: a schema that is asked for goes upstream as it is, but that it
/// takes the description of the format where it has none; and no schema goes where none is asked
/// for.
#[verifier::rlimit(60)]
#[verifier::spinoff_prover]
pub proof fn lemma_schema_as_asked(req: RequestInView, format: Fields, name: Seq<char>)
    requires
        converted(req) is Ok,
        req.raw.get("text"@) is Some,
        req.raw.get("text"@)->0.get("format"@) == Some(JsonView::Object(format)),
    ensures
        ({
            let sent = request_json((converted(req)->Ok_0).0);
            let output = sent.get("output_config"@);
            let form = output->0.get("format"@);
            let schema = field(format, "schema"@);
            &&& text_field(format, "type"@) == Some("json_schema"@) ==> {
                &&& output is Some
                &&& form is Some
                &&& form->0.get("type"@) == Some(JsonView::Text("json_schema"@))
                &&& form->0.get("schema"@) is Some
                &&& schema is Some
                &&& field(format, "strict"@) == Some(JsonView::Bool(true))
                &&& !(schema->0 is Object) ==> form->0.get("schema"@) == schema
                &&& schema->0 is Object && name != "description"@ ==> form->0.get(
                    "schema"@,
                )->0.get(name) == schema->0.get(name)
                &&& schema->0 is Object && schema->0.get("description"@) is Some ==> form->0.get(
                    "schema"@,
                ) == schema
                &&& schema->0 is Object && schema->0.get("description"@) is None ==> form->0.get(
                    "schema"@,
                )->0.get("description"@) == (match field(format, "description"@) {
                    Some(JsonView::Text(text)) => Some(JsonView::Text(text)),
                    _ => None,
                })
            }
            &&& text_field(format, "type"@) == Some("text"@) ==> (output is Some ==> form is None)
        }),
{
    broadcast use {group_lookups, lemma_some_get, lemma_some_is_object};

    lemma_request_names();
    lemma_small_names();
    lemma_formats();
    if text_field(format, "type"@) == Some("json_schema"@) {
        let i = crate::json::position_from(format, "type"@, 0)->0;
        crate::json::lemma_position(format, "type"@, 0);
        reveal_strlit("json_schema");
        assert(crate::json::effect(format[i].1));
        assert(crate::json::effect(JsonView::Object(format)));
    }
}

/// No schema goes upstream where no format is given.
#[verifier::rlimit(60)]
#[verifier::spinoff_prover]
pub proof fn lemma_no_schema(req: RequestInView)
    requires
        converted(req) is Ok,
        req.raw.get("text"@) is None || req.raw.get("text"@)->0.get("format"@) is None,
    ensures
        ({
            let output = request_json((converted(req)->Ok_0).0).get("output_config"@);
            output is Some ==> output->0.get("format"@) is None
        }),
{
    broadcast use {group_lookups, lemma_some_get, lemma_some_is_object};

    lemma_request_names();
    lemma_small_names();
}

/// Whether a tool is the one that an object names: by what it is, and by its name where it has
/// one.
pub open spec fn chosen_by(o: Fields, entry: (Seq<char>, DeclaredOf<Seq<char>>)) -> bool {
    let kind = text_field(o, "type"@);
    let name = text_field(o, "name"@);
    match entry.1 {
        DeclaredOf::Function => kind == Some("function"@) && name == Some(entry.0),
        DeclaredOf::Wrapped(t) => match t.kind {
            WrappedKind::NamespaceFunction => kind == Some("function"@) && name == Some(t.name),
            WrappedKind::NamespaceCustom => kind == Some("custom"@) && name == Some(t.name),
            WrappedKind::Custom => kind == Some("custom"@) && name == Some(t.name),
            WrappedKind::LocalShell => kind == Some("local_shell"@),
            WrappedKind::Shell => kind == Some("shell"@),
            WrappedKind::ApplyPatch => kind == Some("apply_patch"@),
        },
    }
}

/// What the model is told of which tools to use: `auto`, `required` and `none` as such, and one
/// tool by its name upstream where the request names it and no other tool goes by what it says.
/// Tools are called one at a time where the request says so.
#[verifier::rlimit(60)]
#[verifier::spinoff_prover]
pub proof fn lemma_choice_as_asked(raw: JsonView, tools: Table)
    requires
        choice_of(raw, tools) is Ok,
    ensures
        ({
            let chosen = choice_of(raw, tools)->Ok_0;
            let sent = choice_json(chosen->0);
            let serial = raw.get("parallel_tool_calls"@) == Some(JsonView::Bool(false));
            let told = if serial {
                Some(JsonView::Bool(true))
            } else {
                None
            };
            match raw.get("tool_choice"@) {
                Some(JsonView::Text(mode)) => {
                    &&& chosen is Some
                    &&& mode == "auto"@ || mode == "required"@ || mode == "none"@
                    &&& mode == "auto"@ ==> sent.get("type"@) == Some(JsonView::Text("auto"@))
                        && sent.get("disable_parallel_tool_use"@) == told
                    &&& mode == "required"@ ==> sent.get("type"@) == Some(JsonView::Text("any"@))
                        && sent.get("disable_parallel_tool_use"@) == told && tools.len() > 0
                    &&& mode == "none"@ ==> sent.get("type"@) == Some(JsonView::Text("none"@))
                        && sent.get("disable_parallel_tool_use"@) is None
                },
                Some(JsonView::Object(o)) => {
                    &&& chosen is Some
                    &&& sent.get("type"@) == Some(JsonView::Text("tool"@))
                    &&& sent.get("disable_parallel_tool_use"@) == told
                    &&& exists|k: int|
                        0 <= k < tools.len() && chosen_by(o, #[trigger] tools[k]) && sent.get(
                            "name"@,
                        ) == Some(JsonView::Text(tools[k].0))
                    &&& forall|i: int, k: int|
                        0 <= i < tools.len() && 0 <= k < tools.len() && chosen_by(
                            o,
                            #[trigger] tools[i],
                        ) && chosen_by(o, #[trigger] tools[k]) ==> tools[i] == tools[k]
                },
                None | Some(JsonView::Null) => if serial && tools.len() > 0 {
                    chosen is Some && sent.get("type"@) == Some(JsonView::Text("auto"@))
                        && sent.get("disable_parallel_tool_use"@) == Some(JsonView::Bool(true))
                } else {
                    chosen is None
                },
                _ => false,
            }
        }),
{
    broadcast use {group_lookups, lemma_some_get, lemma_some_is_object};

    lemma_small_names();
    lemma_modes();
    lemma_choices();
    match raw.get("tool_choice"@) {
        Some(JsonView::Object(o)) => {
            let w = wanted_by(o)->0;
            lemma_sole_declared(tools, w);
            assert forall|k: int| 0 <= k < tools.len() implies chosen_by(o, #[trigger] tools[k])
                == is_wanted(w, tools[k]) by {}
        },
        _ => {},
    }
}

/// A choice of one tool is taken where it says no more than which tool it is, and just one tool
/// goes by that.
#[verifier::rlimit(60)]
#[verifier::spinoff_prover]
pub proof fn lemma_named_tool_is_chosen(raw: JsonView, tools: Table, o: Fields, k: int)
    requires
        raw.get("tool_choice"@) == Some(JsonView::Object(o)),
        0 <= k < tools.len(),
        chosen_by(o, tools[k]),
        forall|i: int| 0 <= i < tools.len() && i != k ==> !chosen_by(o, #[trigger] tools[i]),
        text_field(o, "type"@) == Some("function"@) || text_field(o, "type"@) == Some("custom"@)
            ==> text_field(o, "name"@)->0.len() > 0 && forall|i: int|
            0 <= i < o.len() ==> (#[trigger] o[i]).0 == "type"@ || o[i].0 == "name"@,
        text_field(o, "type"@) != Some("function"@) && text_field(o, "type"@) != Some("custom"@)
            ==> o.len() == 1,
    ensures
        choice_of(raw, tools) is Ok,
        choice_of(raw, tools)->Ok_0 is Some,
        choice_json((choice_of(raw, tools)->Ok_0)->0).get("name"@) == Some(
            JsonView::Text(tools[k].0),
        ),
{
    broadcast use {group_lookups, lemma_some_get, lemma_some_is_object};

    lemma_small_names();
    lemma_choices();
    let list = seq!["type", "name"];
    assert(list[0]@ == "type"@ && list[1]@ == "name"@);
    assert(wanted_by(o) is Some);
    let w = wanted_by(o)->0;
    assert forall|i: int| 0 <= i < tools.len()
        && i != k implies !is_wanted(w, #[trigger] tools[i]) by {
        assert(!chosen_by(o, tools[i]));
    }
    lemma_sole_found(tools, w, k);
}

/// A choice of tools that the request leaves open is never refused, and neither is `auto` or
/// `none`; `required` is refused where there are no tools.
pub proof fn lemma_choice_is_taken(raw: JsonView, tools: Table)
    ensures
        raw.get("tool_choice"@) is None || raw.get("tool_choice"@) == Some(JsonView::Null)
            || raw.get("tool_choice"@) == Some(JsonView::Text("auto"@)) || raw.get("tool_choice"@)
            == Some(JsonView::Text("none"@)) ==> choice_of(raw, tools) is Ok,
        raw.get("tool_choice"@) == Some(JsonView::Text("required"@)) ==> (choice_of(
            raw,
            tools,
        ) is Ok <==> tools.len() > 0),
{
    lemma_modes();
}

/// The tools, the choice among them, the messages and the system texts of a request stand in it
/// one for one and in order.
#[verifier::rlimit(60)]
#[verifier::spinoff_prover]
pub proof fn lemma_lists_as_asked(r: crate::request_types::RequestView)
    ensures
        ({
            let sent = request_json(r);
            let messages = sent.get("messages"@)->0->Array_0;
            let tools = sent.get("tools"@)->0->Array_0;
            let system = sent.get("system"@)->0->Array_0;
            &&& sent.get("messages"@) is Some
            &&& sent.get("messages"@)->0 is Array
            &&& messages.len() == r.messages.len()
            &&& forall|i: int|
                0 <= i < messages.len() ==> #[trigger] messages[i] == turn_json(r.messages[i])
            &&& r.tools is None ==> sent.get("tools"@) is None
            &&& r.tools is Some ==> {
                &&& sent.get("tools"@) is Some
                &&& sent.get("tools"@)->0 is Array
                &&& tools.len() == r.tools->0.len()
                &&& forall|i: int|
                    0 <= i < tools.len() ==> #[trigger] tools[i] == tool_json(r.tools->0[i])
            }
            &&& r.system is None ==> sent.get("system"@) is None
            &&& r.system is Some ==> {
                &&& sent.get("system"@) is Some
                &&& sent.get("system"@)->0 is Array
                &&& system.len() == r.system->0.len()
                &&& forall|i: int|
                    0 <= i < system.len() ==> (#[trigger] system[i]).get("type"@) == Some(
                        JsonView::Text("text"@),
                    ) && system[i].get("text"@) == Some(JsonView::Text(r.system->0[i]))
            }
            &&& r.tool_choice is None ==> sent.get("tool_choice"@) is None
            &&& r.tool_choice is Some ==> sent.get("tool_choice"@) == Some(
                choice_json(r.tool_choice->0),
            )
        }),
{
    broadcast use {group_lookups, lemma_some_get, lemma_some_is_object};

    lemma_request_names();
    lemma_small_names();
}

/// A tool is told by its name, its description where it has one, and the schema of its input.
pub proof fn lemma_tool_as_declared(t: ToolView)
    ensures
        tool_json(t).get("name"@) == Some(JsonView::Text(t.name)),
        t.description is Some ==> tool_json(t).get("description"@) == Some(
            JsonView::Text(t.description->0),
        ),
        t.description is None ==> tool_json(t).get("description"@) is None,
        tool_json(t).get("input_schema"@) == Some(t.input_schema),
{
    broadcast use {group_lookups, lemma_some_get, lemma_some_is_object};

    lemma_small_names();
}

/// A message is told by its role and its blocks, in order.
pub proof fn lemma_turn_as_said(m: TurnView)
    ensures
        turn_json(m).get("role"@) == Some(
            JsonView::Text(
                match m.role {
                    Role::User => "user"@,
                    Role::Assistant => "assistant"@,
                    Role::System => "system"@,
                },
            ),
        ),
        turn_json(m).get("content"@) is Some,
        turn_json(m).get("content"@)->0 is Array,
        turn_json(m).get("content"@)->0->Array_0.len() == m.content.len(),
        forall|i: int|
            0 <= i < m.content.len() ==> #[trigger] turn_json(m).get("content"@)->0->Array_0[i]
                == content_json(m.content[i]),
{
    broadcast use {group_lookups, lemma_some_get, lemma_some_is_object};

    lemma_small_names();
}

/// A block is told by what it is and by all that it holds.
#[verifier::rlimit(60)]
#[verifier::spinoff_prover]
pub proof fn lemma_block_as_said(b: ContentView)
    ensures
        ({
            let sent = content_json(b);
            match b {
                ContentOf::Text(text) => sent.get("type"@) == Some(JsonView::Text("text"@))
                    && sent.get("text"@) == Some(JsonView::Text(text)),
                ContentOf::Image { source } => sent.get("type"@) == Some(
                    JsonView::Text("image"@),
                ) && sent.get("source"@) == Some(source),
                ContentOf::Document { source, title } => {
                    &&& sent.get("type"@) == Some(JsonView::Text("document"@))
                    &&& sent.get("source"@) == Some(source)
                    &&& title is Some ==> sent.get("title"@) == Some(JsonView::Text(title->0))
                    &&& title is None ==> sent.get("title"@) is None
                },
                ContentOf::ToolUse { id, name, input } => {
                    &&& sent.get("type"@) == Some(JsonView::Text("tool_use"@))
                    &&& sent.get("id"@) == Some(JsonView::Text(id))
                    &&& sent.get("name"@) == Some(JsonView::Text(name))
                    &&& sent.get("input"@) == Some(input)
                },
                ContentOf::ToolResult { tool_use_id, content, is_error } => {
                    &&& sent.get("type"@) == Some(JsonView::Text("tool_result"@))
                    &&& sent.get("tool_use_id"@) == Some(JsonView::Text(tool_use_id))
                    &&& is_error ==> sent.get("is_error"@) == Some(JsonView::Bool(true))
                    &&& !is_error ==> sent.get("is_error"@) is None
                    &&& match content {
                        ResultOf::Text(text) => sent.get("content"@) == Some(JsonView::Text(text)),
                        ResultOf::Array(parts) => {
                            &&& sent.get("content"@) is Some
                            &&& sent.get("content"@)->0 is Array
                            &&& sent.get("content"@)->0->Array_0.len() == parts.len()
                            &&& forall|i: int|
                                0 <= i < parts.len() ==> #[trigger] sent.get(
                                    "content"@,
                                )->0->Array_0[i] == result_part_json(parts[i])
                        },
                    }
                },
            }
        }),
{
    broadcast use {group_lookups, lemma_some_get, lemma_some_is_object};

    lemma_small_names();
}

/// A piece of what a tool gave back is told like a block that the user says.
pub proof fn lemma_result_part_as_said(p: ResultPartView)
    ensures
        result_part_json(p) == content_json(
            match p {
                ResultPartOf::Text(text) => ContentView::Text(text),
                ResultPartOf::Image { source } => ContentView::Image { source },
                ResultPartOf::Document { source, title } => ContentView::Document {
                    source,
                    title,
                },
            },
        ),
{
}

} // verus!
