//! What the arguments of shell and patch calls must look like.
use vstd::prelude::*;

use crate::error::{refuse, unsupported, AIError, Unsupported};
use crate::json::{field, only, text_field, view_in, Fields, Json, JsonView, Object};
use crate::text::same;
use crate::tools::WrappedKind;

verus! {

/// Whether a value is an array of strings.
pub open spec fn strings(v: Option<JsonView>) -> bool {
    match v {
        Some(JsonView::Array(items)) => forall|i: int|
            0 <= i < items.len() ==> (#[trigger] items[i]) is Text,
        _ => false,
    }
}

/// Whether a value is an array of strings.
pub fn string_array(v: Option<&Json>) -> (r: bool)
    ensures
        r == strings(view_in(v)),
{
    match v {
        Some(Json::Array(items)) => {
            let ghost all = v->0@->Array_0;
            let mut i: usize = 0;
            while i < items.len()
                invariant
                    v == Some(&Json::Array(*items)),
                    all == v->0@->Array_0,
                    all.len() == items@.len(),
                    i <= items.len(),
                    forall|j: int| 0 <= j < i ==> (#[trigger] all[j]) is Text,
                decreases items.len() - i,
            {
                assert(all[i as int] == items@[i as int]@);
                match &items[i] {
                    Json::Text(_) => {},
                    _ => return false,
                }
                i = i + 1;
            }
            true
        },
        _ => false,
    }
}

/// Whether a value is an object of strings.
pub open spec fn string_fields(v: JsonView) -> bool {
    match v {
        JsonView::Object(fields) => forall|i: int|
            0 <= i < fields.len() ==> (#[trigger] fields[i]).1 is Text,
        _ => false,
    }
}

/// Whether a value is an object of strings.
pub fn string_map(v: &Json) -> (r: bool)
    ensures
        r == string_fields(v@),
{
    match v {
        Json::Object(o) => {
            let mut i: usize = 0;
            while i < o.len()
                invariant
                    *v == Json::Object(*o),
                    i <= o@.len(),
                    forall|j: int| 0 <= j < i ==> (#[trigger] o@[j]).1 is Text,
                decreases o@.len() - i,
            {
                match o.value(i) {
                    Json::Text(_) => {},
                    _ => {
                        assert(!(o@[i as int].1 is Text));
                        return false;
                    },
                }
                i = i + 1;
            }
            true
        },
        _ => false,
    }
}

/// Whether a value is absent, null or a count.
pub open spec fn count_or_null(v: Option<JsonView>) -> bool {
    match v {
        None | Some(JsonView::Null) | Some(JsonView::Unsigned(_)) => true,
        _ => false,
    }
}

/// Whether a value is absent, null or a count.
pub fn optional_u64(v: Option<&Json>) -> (r: bool)
    ensures
        r == count_or_null(view_in(v)),
{
    match v {
        None | Some(Json::Null) | Some(Json::Unsigned(_)) => true,
        Some(Json::Negative(n)) => *n >= 0,
        _ => false,
    }
}

/// Whether a value is absent, null or a string.
pub open spec fn text_or_null(v: Option<JsonView>) -> bool {
    match v {
        None | Some(JsonView::Null) | Some(JsonView::Text(_)) => true,
        _ => false,
    }
}

/// Whether a value is absent, null or a string.
pub fn optional_nullable_string_value(v: Option<&Json>) -> (r: bool)
    ensures
        r == text_or_null(view_in(v)),
{
    match v {
        None | Some(Json::Null) | Some(Json::Text(_)) => true,
        _ => false,
    }
}

/// Whether a value says that a shell runs on the client's own computer, and nothing else.
pub open spec fn local_environment(v: JsonView) -> bool {
    match v {
        JsonView::Object(fields) => fields.len() == 1 && text_field(fields, "type"@) == Some(
            "local"@,
        ),
        _ => false,
    }
}

/// Whether a value says that a shell runs on the client's own computer, and nothing else.
pub fn shell_environment_is_local(v: &Json) -> (r: bool)
    ensures
        r == local_environment(v@),
{
    match v {
        Json::Object(o) => o.len() == 1 && match o.text("type") {
            Some(kind) => same(kind, "local"),
            None => false,
        },
        _ => false,
    }
}

/// Whether a patch creates, updates or deletes one file and says all that takes.
pub open spec fn patch_ok(fields: Fields) -> bool {
    let kind = text_field(fields, "type"@);
    if kind == Some("create_file"@) || kind == Some("update_file"@) {
        only(fields, seq!["type", "path", "diff"]) && text_field(fields, "path"@) is Some
            && text_field(fields, "diff"@) is Some
    } else if kind == Some("delete_file"@) {
        only(fields, seq!["type", "path"]) && text_field(fields, "path"@) is Some
    } else {
        false
    }
}

/// The error for history that does not fit together.
pub open spec fn bad_history() -> AIError {
    unsupported(Unsupported::ToolHistory)
}

/// The error for history that does not fit together.
pub fn invalid_tool_history() -> (r: AIError)
    ensures
        r == bad_history(),
{
    refuse(Unsupported::ToolHistory)
}

/// Checks a patch.
pub fn validate_patch_operation(object: &Object) -> (r: Result<(), AIError>)
    ensures
        r == (if patch_ok(object@) {
            Ok::<(), AIError>(())
        } else {
            Err(bad_history())
        }),
{
    let valid = match object.text("type") {
        Some(kind) => if same(kind, "create_file") || same(kind, "update_file") {
            !object.has_unknown_field(&["type", "path", "diff"]) && object.text("path").is_some()
                && object.text("diff").is_some()
        } else if same(kind, "delete_file") {
            !object.has_unknown_field(&["type", "path"]) && object.text("path").is_some()
        } else {
            false
        },
        None => false,
    };
    if valid {
        Ok(())
    } else {
        Err(invalid_tool_history())
    }
}

/// Whether a kind of call carries an action.
pub open spec fn has_action(kind: WrappedKind) -> bool {
    kind == WrappedKind::LocalShell || kind == WrappedKind::Shell || kind
        == WrappedKind::ApplyPatch
}

/// Whether a value is an action of a kind of call.
pub open spec fn action_ok(kind: WrappedKind, v: JsonView) -> bool {
    match v {
        JsonView::Object(fields) => match kind {
            WrappedKind::LocalShell => {
                &&& only(fields, seq!["command", "env", "timeout_ms", "user", "working_directory"])
                &&& strings(field(fields, "command"@))
                &&& field(fields, "env"@) is Some
                &&& string_fields(field(fields, "env"@)->0)
                &&& count_or_null(field(fields, "timeout_ms"@))
                &&& text_or_null(field(fields, "user"@))
                &&& text_or_null(field(fields, "working_directory"@))
            },
            WrappedKind::Shell => {
                &&& only(fields, seq!["commands", "timeout_ms", "max_output_length"])
                &&& strings(field(fields, "commands"@))
                &&& count_or_null(field(fields, "timeout_ms"@))
                &&& count_or_null(field(fields, "max_output_length"@))
            },
            WrappedKind::ApplyPatch => patch_ok(fields),
            _ => false,
        },
        _ => false,
    }
}

/// Checks an action.
pub fn validate_action(kind: WrappedKind, v: &Json) -> (r: Result<(), AIError>)
    requires
        has_action(kind),
    ensures
        r == (if action_ok(kind, v@) {
            Ok::<(), AIError>(())
        } else {
            Err(bad_history())
        }),
{
    let object = match v {
        Json::Object(o) => o,
        _ => return Err(invalid_tool_history()),
    };
    match kind {
        WrappedKind::LocalShell => {
            let env_ok = match object.get("env") {
                Some(env) => string_map(env),
                None => false,
            };
            if object.has_unknown_field(
                &["command", "env", "timeout_ms", "user", "working_directory"],
            ) || !string_array(object.get("command")) || !env_ok || !optional_u64(
                object.get("timeout_ms"),
            ) || !optional_nullable_string_value(object.get("user"))
                || !optional_nullable_string_value(object.get("working_directory")) {
                return Err(invalid_tool_history());
            }
            Ok(())
        },
        WrappedKind::Shell => {
            if object.has_unknown_field(&["commands", "timeout_ms", "max_output_length"])
                || !string_array(object.get("commands")) || !optional_u64(object.get("timeout_ms"))
                || !optional_u64(object.get("max_output_length")) {
                return Err(invalid_tool_history());
            }
            Ok(())
        },
        _ => validate_patch_operation(object),
    }
}

} // verus!
