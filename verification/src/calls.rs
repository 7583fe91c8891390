//! Turning the tool uses of an answer into calls that the Responses API knows.
use vstd::prelude::*;

use crate::actions::{action_ok, validate_action};
use crate::codec::json_text;
use crate::error::{invalid, invalid_response, AIError};
use crate::items::or_null;
use crate::json::{field, text_field, view_in, Fields, Json, JsonView, Object};
use crate::text::{decimal, decimal_text, owned, same};
use crate::tools::{tool_named, DeclaredOf, State, Table, WrappedKind, WrappedOf, WrappedTool};

verus! {

/// The id of an item: what it is, the answer that it stands in and where.
pub open spec fn item_id_of(prefix: Seq<char>, message_id: Seq<char>, index: nat) -> Seq<char> {
    prefix + "_"@ + message_id + "_"@ + decimal(index)
}

/// The id of an item: what it is, the answer that it stands in and where.
pub fn item_id(prefix: &str, message_id: &str, index: usize) -> (r: String)
    ensures
        r@ == item_id_of(prefix@, message_id@, index as nat),
{
    owned(prefix).concat("_").concat(message_id).concat("_").concat(
        decimal_text(index as u64).as_str(),
    )
}

/// Whether a tool use comes from the model itself.
pub open spec fn direct(caller: Option<JsonView>) -> bool {
    match caller {
        None => true,
        Some(JsonView::Object(fields)) => fields.len() == 1 && text_field(fields, "type"@) == Some(
            "direct"@,
        ),
        _ => false,
    }
}

/// Whether a tool use comes from the model itself.
pub fn direct_tool_caller(caller: Option<&Json>) -> (r: bool)
    ensures
        r == direct(view_in(caller)),
{
    match caller {
        None => true,
        Some(Json::Object(o)) => o.len() == 1 && match o.text("type") {
            Some(kind) => same(kind, "direct"),
            None => false,
        },
        _ => false,
    }
}

/// Whether the input of a wrapped tool is its payload, in the one field for it.
pub open spec fn wrapped_ok(kind: WrappedKind, input: Fields) -> bool {
    &&& forall|i: int| 0 <= i < input.len() ==> (#[trigger] input[i]).0 == kind.field()
    &&& match field(input, kind.field()) {
        Some(payload) => match kind {
            WrappedKind::NamespaceFunction => payload is Object,
            WrappedKind::NamespaceCustom | WrappedKind::Custom => payload is Text,
            _ => action_ok(kind, payload),
        },
        None => false,
    }
}

/// Checks the input of a wrapped tool.
pub fn validate_wrapped_response_input(wrapped: &WrappedTool, input: &Object) -> (r: Result<
    (),
    AIError,
>)
    ensures
        r == (if wrapped_ok(wrapped.kind, input@) {
            Ok::<(), AIError>(())
        } else {
            Err(invalid())
        }),
{
    let name = wrapped.kind.field_name();
    let known = [name];
    let unknown = input.has_unknown_field(&known);
    proof {
        assert(known@ == seq![name]);
        assert(unknown == !(forall|i: int|
            0 <= i < input@.len() ==> (#[trigger] input@[i]).0 == wrapped.kind.field())) by {
            if !unknown {
                assert forall|i: int| 0 <= i < input@.len() implies (#[trigger] input@[i]).0
                    == wrapped.kind.field() by {
                    assert(crate::text::named(known@, input@[i].0));
                }
            } else {
                let i = choose|i: int|
                    0 <= i < input@.len() && !crate::text::named(known@, (#[trigger] input@[i]).0);
                assert(known@[0]@ == wrapped.kind.field());
                assert(input@[i].0 != wrapped.kind.field());
            }
        }
    }
    if unknown {
        return Err(invalid_response());
    }
    let payload = match input.get(name) {
        Some(payload) => payload,
        None => return Err(invalid_response()),
    };
    let ok = match wrapped.kind {
        WrappedKind::NamespaceFunction => match payload {
            Json::Object(_) => true,
            _ => false,
        },
        WrappedKind::NamespaceCustom | WrappedKind::Custom => match payload {
            Json::Text(_) => true,
            _ => false,
        },
        kind => match validate_action(kind, payload) {
            Ok(_) => true,
            Err(_) => false,
        },
    };
    if ok {
        Ok(())
    } else {
        Err(invalid_response())
    }
}

/// The value of a field, null where it is absent.
pub open spec fn at(v: JsonView, name: Seq<char>) -> JsonView {
    or_null(v.get(name))
}

fn copy_at(v: &Json, name: &str) -> (r: Json)
    ensures
        r@ == at(v@, name@),
{
    match v.get(name) {
        Some(v) => v.copy(),
        None => Json::Null,
    }
}

/// The status of a patch call, which is in progress or completed.
pub open spec fn patch_status_name(status: Seq<char>) -> Seq<char> {
    if status == "in_progress"@ {
        "in_progress"@
    } else {
        "completed"@
    }
}

/// The call that a use of a wrapped tool stands for.
pub open spec fn wrapped_item(
    message_id: Seq<char>,
    index: nat,
    status: Seq<char>,
    call_id: Seq<char>,
    wrapped: WrappedOf<Seq<char>>,
    input: JsonView,
) -> JsonView {
    let id = JsonView::Text(item_id_of(wrapped.kind.prefix(), message_id, index));
    match wrapped.kind {
        WrappedKind::NamespaceFunction => JsonView::object().with(
            "type"@,
            JsonView::Text("function_call"@),
        ).with("id"@, id).with("call_id"@, JsonView::Text(call_id)).with(
            "namespace"@,
            JsonView::opt_text(wrapped.namespace),
        ).with("name"@, JsonView::Text(wrapped.name)).with(
            "arguments"@,
            JsonView::Text(json_text(at(input, "arguments"@))),
        ).with("status"@, JsonView::Text(status)),
        WrappedKind::NamespaceCustom | WrappedKind::Custom => JsonView::object().with(
            "type"@,
            JsonView::Text("custom_tool_call"@),
        ).with("id"@, id).with("call_id"@, JsonView::Text(call_id)).with(
            "name"@,
            JsonView::Text(wrapped.name),
        ).with("input"@, at(input, "input"@)).with_some("namespace"@, match wrapped.namespace {
            Some(namespace) => Some(JsonView::Text(namespace)),
            None => None,
        }),
        WrappedKind::LocalShell => JsonView::object().with(
            "type"@,
            JsonView::Text("local_shell_call"@),
        ).with("id"@, id).with("call_id"@, JsonView::Text(call_id)).with(
            "action"@,
            at(input, "action"@),
        ).with("status"@, JsonView::Text(status)),
        WrappedKind::Shell => JsonView::object().with(
            "type"@,
            JsonView::Text("shell_call"@),
        ).with("id"@, id).with("call_id"@, JsonView::Text(call_id)).with(
            "action"@,
            at(input, "action"@),
        ).with("status"@, JsonView::Text(status)).with(
            "environment"@,
            JsonView::object().with("type"@, JsonView::Text("local"@)),
        ),
        WrappedKind::ApplyPatch => JsonView::object().with(
            "type"@,
            JsonView::Text("apply_patch_call"@),
        ).with("id"@, id).with("call_id"@, JsonView::Text(call_id)).with(
            "operation"@,
            at(input, "operation"@),
        ).with("status"@, JsonView::Text(patch_status_name(status))),
    }
}

/// The call that a use of a wrapped tool stands for.
pub fn wrapped_response_tool(
    message_id: &str,
    index: usize,
    status: &str,
    call_id: &str,
    wrapped: &WrappedTool,
    input: &Json,
) -> (r: Json)
    ensures
        r@ == wrapped_item(message_id@, index as nat, status@, call_id@, wrapped@, input@),
{
    let id = Json::Text(item_id(wrapped.kind.id_prefix(), message_id, index));
    match wrapped.kind {
        WrappedKind::NamespaceFunction => {
            let namespace = match &wrapped.namespace {
                Some(namespace) => Json::text(namespace.as_str()),
                None => Json::Null,
            };
            Json::object().with("type", Json::text("function_call")).with("id", id).with(
                "call_id",
                Json::text(call_id),
            ).with("namespace", namespace).with("name", Json::text(wrapped.name.as_str())).with(
                "arguments",
                Json::Text(copy_at(input, "arguments").render()),
            ).with("status", Json::text(status))
        },
        WrappedKind::NamespaceCustom | WrappedKind::Custom => {
            let namespace = match &wrapped.namespace {
                Some(namespace) => Some(Json::text(namespace.as_str())),
                None => None,
            };
            Json::object().with("type", Json::text("custom_tool_call")).with("id", id).with(
                "call_id",
                Json::text(call_id),
            ).with("name", Json::text(wrapped.name.as_str())).with(
                "input",
                copy_at(input, "input"),
            ).with_some("namespace", namespace)
        },
        WrappedKind::LocalShell => Json::object().with(
            "type",
            Json::text("local_shell_call"),
        ).with("id", id).with("call_id", Json::text(call_id)).with(
            "action",
            copy_at(input, "action"),
        ).with("status", Json::text(status)),
        WrappedKind::Shell => Json::object().with("type", Json::text("shell_call")).with(
            "id",
            id,
        ).with("call_id", Json::text(call_id)).with("action", copy_at(input, "action")).with(
            "status",
            Json::text(status),
        ).with("environment", Json::object().with("type", Json::text("local"))),
        WrappedKind::ApplyPatch => {
            let told = if same(status, "in_progress") {
                "in_progress"
            } else {
                "completed"
            };
            Json::object().with("type", Json::text("apply_patch_call")).with("id", id).with(
                "call_id",
                Json::text(call_id),
            ).with("operation", copy_at(input, "operation")).with("status", Json::text(told))
        },
    }
}

/// The call that a tool use stands for, where the tool was declared.
pub open spec fn tool_item(
    message_id: Seq<char>,
    index: nat,
    status: Seq<char>,
    call_id: Seq<char>,
    name: Seq<char>,
    input: JsonView,
    tools: Table,
) -> Option<JsonView> {
    match tool_named(tools, name) {
        None => None,
        Some(DeclaredOf::Function) => Some(
            JsonView::object().with("type"@, JsonView::Text("function_call"@)).with(
                "id"@,
                JsonView::Text(item_id_of("fc"@, message_id, index)),
            ).with("call_id"@, JsonView::Text(call_id)).with("name"@, JsonView::Text(name)).with(
                "arguments"@,
                JsonView::Text(json_text(input)),
            ).with("status"@, JsonView::Text(status)),
        ),
        Some(DeclaredOf::Wrapped(wrapped)) => Some(
            wrapped_item(message_id, index, status, call_id, wrapped, input),
        ),
    }
}

/// The call that a tool use stands for. A tool that was not declared is an error.
pub fn response_tool_output(
    message_id: &str,
    index: usize,
    status: &str,
    call_id: &str,
    upstream_name: &str,
    input: &Json,
    state: &State,
) -> (r: Result<Json, AIError>)
    ensures
        match tool_item(
            message_id@,
            index as nat,
            status@,
            call_id@,
            upstream_name@,
            input@,
            state@,
        ) {
            Some(item) => r is Ok && r->Ok_0@ == item,
            None => r is Err && r->Err_0 == invalid(),
        },
{
    match state.get(upstream_name) {
        None => Err(invalid_response()),
        Some(DeclaredOf::Function) => Ok(
            Json::object().with("type", Json::text("function_call")).with(
                "id",
                Json::Text(item_id("fc", message_id, index)),
            ).with("call_id", Json::text(call_id)).with("name", Json::text(upstream_name)).with(
                "arguments",
                Json::Text(input.render()),
            ).with("status", Json::text(status)),
        ),
        Some(DeclaredOf::Wrapped(wrapped)) => Ok(
            wrapped_response_tool(message_id, index, status, call_id, wrapped, input),
        ),
    }
}

} // verus!
