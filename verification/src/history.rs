//! Tool calls and their results in the history of a conversation.
use vstd::prelude::*;
use vstd::utf8::encode_utf8;

use crate::actions::{
    action_ok, bad_history, count_or_null, has_action, invalid_tool_history, local_environment,
    optional_u64, shell_environment_is_local, text_or_null, validate_action,
};
use crate::choice::{find_sole, sole, WantedOf};
use crate::codec::{json_text, parsed};
use crate::error::AIError;
use crate::json::{field, only, text_field, view_in, views, Fields, Json, JsonView, Object};
use crate::media::{file_of, image_of, input_file_source, input_image_source};
use crate::messages::Role;
use crate::request_types::{
    result_part_views, ContentBlock, ContentOf, ContentView, ResultOf, ResultPartOf, ResultPartView,
    ResultView, ToolResultContent, ToolResultContentPart,
};
use crate::response::nonempty;
use crate::text::{blank, holds, owned, same, text_of, texts};
use crate::tools::{
    place_from, table_of, tool_named, tool_put, DeclaredOf, DeclaredTool, State, Table, WrappedKind,
};

verus! {

broadcast use crate::json::lemma_array_view;

/// The calls of a conversation by their ids, and those that have a result.
pub struct HistoryOf<C, D> {
    pub calls: C,
    pub done: D,
}

pub type History = HistoryOf<Vec<(String, DeclaredTool)>, Vec<String>>;

pub type HistoryView = HistoryOf<Table, Seq<Seq<char>>>;

impl View for HistoryOf<Vec<(String, DeclaredTool)>, Vec<String>> {
    type V = HistoryOf<Table, Seq<Seq<char>>>;

    open spec fn view(&self) -> HistoryView {
        HistoryOf { calls: table_of(self.calls@), done: texts(self.done@) }
    }
}

/// No calls.
pub open spec fn no_calls() -> HistoryView {
    HistoryOf { calls: Seq::empty(), done: Seq::empty() }
}

/// The history with a call under its id, in place of one that had it.
pub open spec fn noted(
    h: HistoryView,
    call_id: Seq<char>,
    declared: DeclaredOf<Seq<char>>,
) -> HistoryView {
    HistoryOf { calls: tool_put(h.calls, call_id, declared), done: h.done }
}

/// The history with one more call. None where the id was used before.
pub open spec fn called(
    h: HistoryView,
    call_id: Seq<char>,
    declared: DeclaredOf<Seq<char>>,
) -> Option<HistoryView> {
    if tool_named(h.calls, call_id) is Some {
        None
    } else {
        Some(noted(h, call_id, declared))
    }
}

fn call_place(calls: &Vec<(String, DeclaredTool)>, call_id: &str) -> (r: Option<usize>)
    ensures
        match r {
            Some(i) => i < calls@.len() && place_from(table_of(calls@), call_id@, 0) == Some(
                i as int,
            ),
            None => place_from(table_of(calls@), call_id@, 0) is None,
        },
{
    let ghost table = table_of(calls@);
    let mut i: usize = 0;
    while i < calls.len()
        invariant
            i <= calls.len(),
            table == table_of(calls@),
            place_from(table, call_id@, 0) == place_from(table, call_id@, i as int),
        decreases calls.len() - i,
    {
        assert(table[i as int] == (calls@[i as int].0@, calls@[i as int].1@));
        if same(calls[i].0.as_str(), call_id) {
            return Some(i);
        }
        i = i + 1;
    }
    None
}

fn find_call<'a>(calls: &'a Vec<(String, DeclaredTool)>, call_id: &str) -> (r: Option<
    &'a DeclaredTool,
>)
    ensures
        match r {
            Some(tool) => tool_named(table_of(calls@), call_id@) == Some(tool@),
            None => tool_named(table_of(calls@), call_id@) is None,
        },
{
    match call_place(calls, call_id) {
        Some(i) => Some(&calls[i].1),
        None => None,
    }
}

impl HistoryOf<Vec<(String, DeclaredTool)>, Vec<String>> {
    /// No calls.
    pub fn new() -> (r: History)
        ensures
            r@ == no_calls(),
    {
        let r = HistoryOf { calls: Vec::new(), done: Vec::new() };
        assert(r@.calls == Seq::<(Seq<char>, DeclaredOf<Seq<char>>)>::empty());
        assert(r@.done == Seq::<Seq<char>>::empty());
        r
    }

    /// Takes note of a call, whose id may not have been used before. A second call of an id takes
    /// the place of the first, and is an error.
    pub fn record_call(&mut self, call_id: &str, declared: DeclaredTool) -> (r: Result<
        (),
        AIError,
    >)
        ensures
            final(self)@ == noted(old(self)@, call_id@, declared@),
            r == (if called(old(self)@, call_id@, declared@) is Some {
                Ok::<(), AIError>(())
            } else {
                Err(bad_history())
            }),
    {
        let ghost before = self.calls@;
        match call_place(&self.calls, call_id) {
            Some(i) => {
                self.calls.set(i, (owned(call_id), declared));
                assert(table_of(self.calls@) == table_of(before).update(
                    i as int,
                    (call_id@, declared@),
                ));
                Err(invalid_tool_history())
            },
            None => {
                self.calls.push((owned(call_id), declared));
                assert(table_of(self.calls@) == table_of(before).push((call_id@, declared@)));
                Ok(())
            },
        }
    }
}

/// Whether a value is absent or a string.
pub open spec fn string_if_any(v: Option<JsonView>) -> bool {
    match v {
        None | Some(JsonView::Text(_)) => true,
        _ => false,
    }
}

/// Whether a field is absent or a string.
pub fn validate_optional_string(object: &Object, name: &str) -> (r: Result<(), AIError>)
    ensures
        r == (if string_if_any(field(object@, name@)) {
            Ok::<(), AIError>(())
        } else {
            Err(bad_history())
        }),
{
    match object.get(name) {
        None | Some(Json::Text(_)) => Ok(()),
        _ => Err(invalid_tool_history()),
    }
}

/// The string in a field that may be absent, but not empty. None where it is anything else.
pub open spec fn namespace_in(fields: Fields, name: Seq<char>) -> Option<Option<Seq<char>>> {
    match field(fields, name) {
        None => Some(None),
        Some(JsonView::Text(s)) => if s.len() > 0 {
            Some(Some(s))
        } else {
            None
        },
        _ => None,
    }
}

/// The string in a field that may be absent, but not empty.
pub fn optional_history_string<'a>(object: &'a Object, name: &str) -> (r: Result<
    Option<&'a str>,
    AIError,
>)
    ensures
        match namespace_in(object@, name@) {
            Some(s) => r is Ok && text_of(r->Ok_0) == s,
            None => r is Err && r->Err_0 == bad_history(),
        },
{
    match object.get(name) {
        None => Ok(None),
        Some(Json::Text(s)) => if blank(s.as_str()) {
            Err(invalid_tool_history())
        } else {
            Ok(Some(s.as_str()))
        },
        _ => Err(invalid_tool_history()),
    }
}

/// The string in a field.
pub fn history_string<'a>(object: &'a Object, name: &str) -> (r: Result<&'a str, AIError>)
    ensures
        match text_field(object@, name@) {
            Some(s) => r is Ok && r->Ok_0@ == s,
            None => r is Err && r->Err_0 == bad_history(),
        },
{
    match object.text(name) {
        Some(s) => Ok(s),
        None => Err(invalid_tool_history()),
    }
}

/// The string in a field, which may not be empty.
pub fn history_call_id<'a>(object: &'a Object, name: &str) -> (r: Result<&'a str, AIError>)
    ensures
        if nonempty(object@, name@) {
            r is Ok && text_field(object@, name@) == Some(r->Ok_0@)
        } else {
            r is Err && r->Err_0 == bad_history()
        },
{
    match object.text(name) {
        Some(s) => if blank(s) {
            Err(invalid_tool_history())
        } else {
            Ok(s)
        },
        None => Err(invalid_tool_history()),
    }
}

/// Whether a call is told as over, or nothing is told of that.
pub open spec fn call_over(v: Option<JsonView>) -> bool {
    v is None || v == Some(JsonView::Text("completed"@)) || v == Some(JsonView::Text("incomplete"@))
}

/// Checks that a call is over.
pub fn validate_terminal_call_status(v: Option<&Json>) -> (r: Result<(), AIError>)
    ensures
        r == (if call_over(view_in(v)) {
            Ok::<(), AIError>(())
        } else {
            Err(bad_history())
        }),
{
    match v {
        None => Ok(()),
        Some(Json::Text(status)) => if same(status.as_str(), "completed") || same(
            status.as_str(),
            "incomplete",
        ) {
            Ok(())
        } else {
            Err(invalid_tool_history())
        },
        _ => Err(invalid_tool_history()),
    }
}

/// Whether a result is told as an error: it is where it is incomplete. None where it is neither
/// that nor complete.
pub open spec fn result_failed(v: Option<JsonView>) -> Option<bool> {
    match v {
        None => Some(false),
        Some(JsonView::Text(status)) => if status == "completed"@ {
            Some(false)
        } else if status == "incomplete"@ {
            Some(true)
        } else {
            None
        },
        _ => None,
    }
}

/// Whether a result is told as an error.
pub fn function_output_status_is_error(v: Option<&Json>) -> (r: Result<bool, AIError>)
    ensures
        r == (match result_failed(view_in(v)) {
            Some(failed) => Ok::<bool, AIError>(failed),
            None => Err(bad_history()),
        }),
{
    match v {
        None => Ok(false),
        Some(Json::Text(status)) => if same(status.as_str(), "completed") {
            Ok(false)
        } else if same(status.as_str(), "incomplete") {
            Ok(true)
        } else {
            Err(invalid_tool_history())
        },
        _ => Err(invalid_tool_history()),
    }
}

/// What an item of the history comes to: a block of a message, and the history with it.
pub type Taken = Option<(ContentView, HistoryView)>;

/// Whether an item was taken as is due.
pub open spec fn takes(
    due: Taken,
    after: HistoryView,
    r: Result<ContentBlock, AIError>,
) -> bool {
    match due {
        Some((block, h)) => r is Ok && r->Ok_0@ == block && after == h,
        None => r is Err && r->Err_0 == bad_history(),
    }
}

/// A call of a function, with the arguments that its text stands for. It must be over, its id new,
/// its arguments an object, and the function exactly one that was declared.
pub open spec fn function_called(
    o: Fields,
    arguments: Option<JsonView>,
    tools: Table,
    h: HistoryView,
) -> Taken {
    let namespace = namespace_in(o, "namespace"@);
    if !only(o, seq!["type", "arguments", "call_id", "namespace", "name", "id", "status"])
        || !call_over(field(o, "status"@)) || !string_if_any(field(o, "id"@)) || !nonempty(
        o,
        "call_id"@,
    ) || text_field(o, "name"@) is None || namespace is None || arguments is None || !(arguments->0
        is Object) {
        None
    } else {
        let call_id = text_field(o, "call_id"@)->0;
        match sole(
            tools,
            WantedOf::Exactly {
                kind: WrappedKind::NamespaceFunction,
                name: text_field(o, "name"@)->0,
                namespace: namespace->0,
                or_function: true,
            },
        ) {
            Some((name, declared)) => match called(h, call_id, declared) {
                Some(h) => Some(
                    (
                        ContentOf::ToolUse {
                            id: call_id,
                            name,
                            input: match declared {
                                DeclaredOf::Function => arguments->0,
                                DeclaredOf::Wrapped(_) => JsonView::object().with(
                                    "arguments"@,
                                    arguments->0,
                                ),
                            },
                        },
                        h,
                    ),
                ),
                None => None,
            },
            None => None,
        }
    }
}

/// A call of a function, with the arguments that its text stands for.
pub fn function_call(
    object: &Object,
    arguments: Option<Json>,
    state: &State,
    history: &mut History,
) -> (r: Result<ContentBlock, AIError>)
    ensures
        takes(
            function_called(
                object@,
                match arguments {
                    Some(j) => Some(j@),
                    None => None,
                },
                state@,
                old(history)@,
            ),
            final(history)@,
            r,
        ),
{
    if object.has_unknown_field(
        &["type", "arguments", "call_id", "namespace", "name", "id", "status"],
    ) {
        return Err(invalid_tool_history());
    }
    match validate_terminal_call_status(object.get("status")) {
        Ok(_) => {},
        Err(e) => return Err(e),
    }
    match validate_optional_string(object, "id") {
        Ok(_) => {},
        Err(e) => return Err(e),
    }
    let call_id = match history_call_id(object, "call_id") {
        Ok(id) => id,
        Err(e) => return Err(e),
    };
    let name = match history_string(object, "name") {
        Ok(name) => name,
        Err(e) => return Err(e),
    };
    let namespace = match optional_history_string(object, "namespace") {
        Ok(namespace) => namespace,
        Err(e) => return Err(e),
    };
    let arguments = match arguments {
        Some(arguments) => arguments,
        None => return Err(invalid_tool_history()),
    };
    match &arguments {
        Json::Object(_) => {},
        _ => {
            assert(!(arguments@ is Object));
            return Err(invalid_tool_history());
        },
    }
    let wanted = WantedOf::Exactly {
        kind: WrappedKind::NamespaceFunction,
        name,
        namespace,
        or_function: true,
    };
    let place = match find_sole(state, &wanted) {
        Some(place) => place,
        None => return Err(invalid_tool_history()),
    };
    let declared = state.tool(place);
    let input = match declared {
        DeclaredOf::Function => arguments,
        DeclaredOf::Wrapped(_) => Json::object().with("arguments", arguments),
    };
    match history.record_call(call_id, declared.copy()) {
        Ok(_) => {},
        Err(e) => return Err(e),
    }
    Ok(ContentOf::ToolUse { id: owned(call_id), name: owned(state.name(place)), input })
}

/// The arguments that a call of a function is told with, as far as they are JSON.
pub open spec fn arguments_in(o: Fields) -> Option<JsonView> {
    match text_field(o, "arguments"@) {
        Some(text) => parsed(encode_utf8(text)),
        None => None,
    }
}

fn read_arguments(object: &Object) -> (r: Option<Json>)
    ensures
        (match r {
            Some(j) => Some(j@),
            None => None,
        }) == arguments_in(object@),
{
    match object.text("arguments") {
        Some(text) => Json::parse(text.as_bytes()),
        None => None,
    }
}

/// A call of a tool that takes free text.
pub open spec fn custom_called(o: Fields, tools: Table, h: HistoryView) -> Taken {
    let namespace = namespace_in(o, "namespace"@);
    if !only(o, seq!["type", "call_id", "namespace", "input", "name", "id", "status"])
        || !call_over(field(o, "status"@)) || !nonempty(o, "id"@) || !nonempty(o, "call_id"@)
        || text_field(o, "name"@) is None || namespace is None || text_field(o, "input"@)
        is None {
        None
    } else {
        let call_id = text_field(o, "call_id"@)->0;
        match sole(
            tools,
            WantedOf::Exactly {
                kind: if namespace->0 is Some {
                    WrappedKind::NamespaceCustom
                } else {
                    WrappedKind::Custom
                },
                name: text_field(o, "name"@)->0,
                namespace: namespace->0,
                or_function: false,
            },
        ) {
            Some((name, declared)) => match called(h, call_id, declared) {
                Some(h) => Some(
                    (
                        ContentOf::ToolUse {
                            id: call_id,
                            name,
                            input: JsonView::object().with(
                                "input"@,
                                JsonView::Text(text_field(o, "input"@)->0),
                            ),
                        },
                        h,
                    ),
                ),
                None => None,
            },
            None => None,
        }
    }
}

/// A call of a tool that takes free text.
pub fn custom_tool_call(object: &Object, state: &State, history: &mut History) -> (r: Result<
    ContentBlock,
    AIError,
>)
    ensures
        takes(custom_called(object@, state@, old(history)@), final(history)@, r),
{
    if object.has_unknown_field(
        &["type", "call_id", "namespace", "input", "name", "id", "status"],
    ) {
        return Err(invalid_tool_history());
    }
    match validate_terminal_call_status(object.get("status")) {
        Ok(_) => {},
        Err(e) => return Err(e),
    }
    match history_call_id(object, "id") {
        Ok(_) => {},
        Err(e) => return Err(e),
    }
    let call_id = match history_call_id(object, "call_id") {
        Ok(id) => id,
        Err(e) => return Err(e),
    };
    let name = match history_string(object, "name") {
        Ok(name) => name,
        Err(e) => return Err(e),
    };
    let namespace = match optional_history_string(object, "namespace") {
        Ok(namespace) => namespace,
        Err(e) => return Err(e),
    };
    let input = match history_string(object, "input") {
        Ok(input) => input,
        Err(e) => return Err(e),
    };
    let kind = if namespace.is_some() {
        WrappedKind::NamespaceCustom
    } else {
        WrappedKind::Custom
    };
    let wanted = WantedOf::Exactly { kind, name, namespace, or_function: false };
    let place = match find_sole(state, &wanted) {
        Some(place) => place,
        None => return Err(invalid_tool_history()),
    };
    match history.record_call(call_id, state.tool(place).copy()) {
        Ok(_) => {},
        Err(e) => return Err(e),
    }
    Ok(
        ContentOf::ToolUse {
            id: owned(call_id),
            name: owned(state.name(place)),
            input: Json::object().with("input", Json::text(input)),
        },
    )
}

/// Whether a call that asks the client to act has no field that its kind does not have.
pub open spec fn action_fields_ok(kind: WrappedKind, o: Fields) -> bool {
    match kind {
        WrappedKind::Shell => only(
            o,
            seq!["type", "id", "call_id", "action", "status", "environment"],
        ),
        WrappedKind::LocalShell => only(o, seq!["type", "id", "call_id", "action", "status"]),
        _ => only(o, seq!["type", "id", "call_id", "operation", "status"]),
    }
}

/// A call that asks the client to act. A shell must be local, if it says where it is.
pub open spec fn action_called(
    kind: WrappedKind,
    o: Fields,
    tools: Table,
    h: HistoryView,
) -> Taken {
    let id_ok = if kind == WrappedKind::LocalShell {
        nonempty(o, "id"@)
    } else {
        string_if_any(field(o, "id"@))
    };
    let place_ok = kind == WrappedKind::Shell ==> (match field(o, "environment"@) {
        Some(environment) => local_environment(environment),
        None => true,
    });
    let action = field(o, kind.field());
    if !action_fields_ok(kind, o) || !call_over(field(o, "status"@)) || !id_ok || !place_ok
        || !nonempty(o, "call_id"@) || action is None || !action_ok(kind, action->0) {
        None
    } else {
        let call_id = text_field(o, "call_id"@)->0;
        match sole(tools, WantedOf::Kind(kind)) {
            Some((name, declared)) => match called(h, call_id, declared) {
                Some(h) => Some(
                    (
                        ContentOf::ToolUse {
                            id: call_id,
                            name,
                            input: JsonView::object().with(kind.field(), action->0),
                        },
                        h,
                    ),
                ),
                None => None,
            },
            None => None,
        }
    }
}

/// A call that asks the client to act.
pub fn tool_action_call(
    object: &Object,
    state: &State,
    history: &mut History,
    kind: WrappedKind,
) -> (r: Result<ContentBlock, AIError>)
    requires
        has_action(kind),
    ensures
        takes(action_called(kind, object@, state@, old(history)@), final(history)@, r),
{
    let unknown = match kind {
        WrappedKind::Shell => object.has_unknown_field(
            &["type", "id", "call_id", "action", "status", "environment"],
        ),
        WrappedKind::LocalShell => object.has_unknown_field(
            &["type", "id", "call_id", "action", "status"],
        ),
        _ => object.has_unknown_field(&["type", "id", "call_id", "operation", "status"]),
    };
    if unknown {
        return Err(invalid_tool_history());
    }
    match validate_terminal_call_status(object.get("status")) {
        Ok(_) => {},
        Err(e) => return Err(e),
    }
    if kind == WrappedKind::LocalShell {
        match history_call_id(object, "id") {
            Ok(_) => {},
            Err(e) => return Err(e),
        }
    } else {
        match validate_optional_string(object, "id") {
            Ok(_) => {},
            Err(e) => return Err(e),
        }
    }
    if kind == WrappedKind::Shell {
        if let Some(environment) = object.get("environment") {
            if !shell_environment_is_local(environment) {
                return Err(invalid_tool_history());
            }
        }
    }
    let call_id = match history_call_id(object, "call_id") {
        Ok(id) => id,
        Err(e) => return Err(e),
    };
    let action = match object.get(kind.field_name()) {
        Some(action) => action,
        None => return Err(invalid_tool_history()),
    };
    match validate_action(kind, action) {
        Ok(_) => {},
        Err(e) => return Err(e),
    }
    let wanted = WantedOf::Kind(kind);
    let place = match find_sole(state, &wanted) {
        Some(place) => place,
        None => return Err(invalid_tool_history()),
    };
    match history.record_call(call_id, state.tool(place).copy()) {
        Ok(_) => {},
        Err(e) => return Err(e),
    }
    Ok(
        ContentOf::ToolUse {
            id: owned(call_id),
            name: owned(state.name(place)),
            input: Json::object().with(kind.field_name(), action.copy()),
        },
    )
}

/// What a result must be the result of.
#[derive(Debug, Clone, Copy, PartialEq, Eq, Structural)]
pub enum ResultKind {
    /// A function, in a namespace or outside.
    Function,
    /// A tool that takes free text, in a namespace or outside.
    Custom,
    /// A tool of one kind.
    Of(WrappedKind),
}

/// Whether a call is one that a result may be the result of.
pub open spec fn answers(kind: ResultKind, declared: DeclaredOf<Seq<char>>) -> bool {
    match (kind, declared) {
        (ResultKind::Function, DeclaredOf::Function) => true,
        (ResultKind::Function, DeclaredOf::Wrapped(t)) => t.kind == WrappedKind::NamespaceFunction,
        (ResultKind::Custom, DeclaredOf::Wrapped(t)) => t.kind == WrappedKind::Custom || t.kind
            == WrappedKind::NamespaceCustom,
        (ResultKind::Of(kind), DeclaredOf::Wrapped(t)) => t.kind == kind,
        _ => false,
    }
}

/// A result of a call that was made before, and has none yet.
pub open spec fn resulted(
    o: Fields,
    id_name: Seq<char>,
    kind: ResultKind,
    content: ResultView,
    is_error: bool,
    h: HistoryView,
) -> Taken {
    if !nonempty(o, id_name) {
        None
    } else {
        let call_id = text_field(o, id_name)->0;
        match tool_named(h.calls, call_id) {
            Some(declared) => if answers(kind, declared) && !h.done.contains(call_id) {
                Some(
                    (
                        ContentOf::ToolResult { tool_use_id: call_id, content, is_error },
                        HistoryOf { calls: h.calls, done: h.done.push(call_id) },
                    ),
                )
            } else {
                None
            },
            None => None,
        }
    }
}

/// A result of a call that was made before, and has none yet.
pub fn tool_output(
    object: &Object,
    id_name: &str,
    history: &mut History,
    kind: ResultKind,
    content: ToolResultContent,
    is_error: bool,
) -> (r: Result<ContentBlock, AIError>)
    ensures
        takes(
            resulted(object@, id_name@, kind, content@, is_error, old(history)@),
            final(history)@,
            r,
        ),
{
    let call_id = match history_call_id(object, id_name) {
        Ok(id) => id,
        Err(e) => return Err(e),
    };
    let fits = match find_call(&history.calls, call_id) {
        Some(declared) => match (kind, declared) {
            (ResultKind::Function, DeclaredOf::Function) => true,
            (ResultKind::Function, DeclaredOf::Wrapped(t)) => t.kind
                == WrappedKind::NamespaceFunction,
            (ResultKind::Custom, DeclaredOf::Wrapped(t)) => t.kind == WrappedKind::Custom || t.kind
                == WrappedKind::NamespaceCustom,
            (ResultKind::Of(kind), DeclaredOf::Wrapped(t)) => t.kind == kind,
            _ => false,
        },
        None => false,
    };
    if !fits || holds(&history.done, call_id) {
        return Err(invalid_tool_history());
    }
    let ghost before = history.done@;
    history.done.push(owned(call_id));
    assert(texts(history.done@) == texts(before).push(call_id@));
    Ok(ContentOf::ToolResult { tool_use_id: owned(call_id), content, is_error })
}

/// A piece of what a tool gave back, or why it is none.
pub open spec fn result_part_of(v: JsonView) -> Result<ResultPartView, AIError> {
    match v {
        JsonView::Object(o) => {
            let kind = text_field(o, "type"@);
            if kind == Some("input_text"@) {
                if only(o, seq!["type", "text"]) && text_field(o, "text"@) is Some {
                    Ok(ResultPartOf::Text(text_field(o, "text"@)->0))
                } else {
                    Err(bad_history())
                }
            } else if kind == Some("input_image"@) {
                match image_of(o) {
                    Ok(source) => Ok(ResultPartOf::Image { source }),
                    Err(e) => Err(e),
                }
            } else if kind == Some("input_file"@) {
                match file_of(o) {
                    Ok((source, title)) => Ok(ResultPartOf::Document { source, title }),
                    Err(e) => Err(e),
                }
            } else {
                Err(bad_history())
            }
        },
        _ => Err(bad_history()),
    }
}

/// A piece of what a tool gave back.
pub fn tool_result_content_part(part: &Json) -> (r: Result<ToolResultContentPart, AIError>)
    ensures
        match result_part_of(part@) {
            Ok(p) => r is Ok && r->Ok_0@ == p,
            Err(e) => r is Err && r->Err_0 == e,
        },
{
    let object = match part {
        Json::Object(object) => object,
        _ => return Err(invalid_tool_history()),
    };
    let kind = match object.text("type") {
        Some(kind) => kind,
        None => return Err(invalid_tool_history()),
    };
    if same(kind, "input_text") {
        if object.has_unknown_field(&["type", "text"]) {
            return Err(invalid_tool_history());
        }
        match object.text("text") {
            Some(text) => Ok(ResultPartOf::Text(owned(text))),
            None => Err(invalid_tool_history()),
        }
    } else if same(kind, "input_image") {
        match input_image_source(object) {
            Ok(source) => Ok(ResultPartOf::Image { source }),
            Err(e) => Err(e),
        }
    } else if same(kind, "input_file") {
        match input_file_source(object) {
            Ok((source, title)) => Ok(ResultPartOf::Document { source, title }),
            Err(e) => Err(e),
        }
    } else {
        Err(invalid_tool_history())
    }
}

/// The pieces of what a tool gave back, from the `n`th on, or why the first that is none is none.
pub open spec fn result_parts_from(items: Seq<JsonView>, n: int) -> Result<
    Seq<ResultPartView>,
    AIError,
>
    decreases items.len() - n,
{
    if n < 0 || n >= items.len() {
        Ok(Seq::empty())
    } else {
        match result_part_of(items[n]) {
            Err(e) => Err(e),
            Ok(part) => match result_parts_from(items, n + 1) {
                Ok(rest) => Ok(seq![part] + rest),
                Err(e) => Err(e),
            },
        }
    }
}

/// What a tool gave back, or why it is nothing that can be told.
pub open spec fn result_of(v: Option<JsonView>) -> Result<ResultView, AIError> {
    match v {
        Some(JsonView::Text(text)) => Ok(ResultOf::Text(text)),
        Some(JsonView::Array(items)) => match result_parts_from(items, 0) {
            Ok(parts) => Ok(ResultOf::Array(parts)),
            Err(e) => Err(e),
        },
        _ => Err(bad_history()),
    }
}

/// What a tool gave back.
pub fn tool_result_content(v: Option<&Json>) -> (r: Result<ToolResultContent, AIError>)
    ensures
        match result_of(view_in(v)) {
            Ok(c) => r is Ok && r->Ok_0@ == c,
            Err(e) => r is Err && r->Err_0 == e,
        },
{
    match v {
        Some(Json::Text(text)) => Ok(ResultOf::Text(owned(text.as_str()))),
        Some(Json::Array(items)) => {
            let ghost all = views(items@);
            let ghost due = result_parts_from(all, 0);
            let mut parts: Vec<ToolResultContentPart> = Vec::new();
            let mut i: usize = 0;
            assert(result_part_views(parts@) == Seq::<ResultPartView>::empty());
            while i < items.len()
                invariant
                    i <= items.len(),
                    all == views(items@),
                    due == result_parts_from(all, 0),
                    v == Some(&Json::Array(*items)),
                    match result_parts_from(all, i as int) {
                        Ok(rest) => due == Ok::<Seq<ResultPartView>, AIError>(
                            result_part_views(parts@) + rest,
                        ),
                        Err(e) => due == Err::<Seq<ResultPartView>, AIError>(e),
                    },
                decreases items.len() - i,
            {
                assert(all[i as int] == items@[i as int]@);
                match tool_result_content_part(&items[i]) {
                    Ok(part) => {
                        let ghost before = result_part_views(parts@);
                        parts.push(part);
                        assert(result_part_views(parts@) == before.push(part@));
                        proof {
                            match result_parts_from(all, i as int + 1) {
                                Ok(rest) => {
                                    assert(before + (seq![part@] + rest) == result_part_views(
                                        parts@,
                                    ) + rest);
                                },
                                Err(_) => {},
                            }
                        }
                    },
                    Err(e) => {
                        assert(view_in(v) == Some(JsonView::Array(all)));
                        return Err(e);
                    },
                }
                i = i + 1;
            }
            assert(result_part_views(parts@) + Seq::<ResultPartView>::empty() == result_part_views(
                parts@,
            ));
            Ok(ResultOf::Array(parts))
        },
        _ => Err(invalid_tool_history()),
    }
}

/// Whether one command of a shell failed: by running out of time, or by its exit code. None where
/// that is not told as it must be.
pub open spec fn command_failed(v: JsonView) -> Option<bool> {
    match v {
        JsonView::Object(o) => match (
            text_field(o, "stdout"@),
            text_field(o, "stderr"@),
            field(o, "outcome"@),
        ) {
            (Some(_), Some(_), Some(JsonView::Object(outcome))) => if !only(
                o,
                seq!["stdout", "stderr", "outcome"],
            ) {
                None
            } else {
                let kind = text_field(outcome, "type"@);
                if kind == Some("timeout"@) && outcome.len() == 1 {
                    Some(true)
                } else if kind == Some("exit"@) && outcome.len() == 2 {
                    match field(outcome, "exit_code"@) {
                        Some(JsonView::Unsigned(code)) => if code <= i32::MAX {
                            Some(code != 0)
                        } else {
                            None
                        },
                        Some(JsonView::Negative(code)) => if code >= i32::MIN {
                            Some(true)
                        } else {
                            None
                        },
                        _ => None,
                    }
                } else {
                    None
                }
            },
            _ => None,
        },
        _ => None,
    }
}

fn command_outcome(v: &Json) -> (r: Option<bool>)
    ensures
        r == command_failed(v@),
{
    let object = match v {
        Json::Object(object) => object,
        _ => return None,
    };
    if object.has_unknown_field(&["stdout", "stderr", "outcome"]) || object.text(
        "stdout",
    ).is_none() || object.text("stderr").is_none() {
        return None;
    }
    let outcome = match object.get("outcome") {
        Some(Json::Object(outcome)) => outcome,
        _ => return None,
    };
    let kind = match outcome.text("type") {
        Some(kind) => kind,
        None => return None,
    };
    proof {
        reveal_strlit("timeout");
        reveal_strlit("exit");
        assert("timeout"@.len() == 7);
        assert("exit"@.len() == 4);
    }
    if same(kind, "timeout") && outcome.len() == 1 {
        Some(true)
    } else if same(kind, "exit") && outcome.len() == 2 {
        match outcome.get("exit_code") {
            Some(Json::Unsigned(code)) => if *code <= i32::MAX as u64 {
                Some(*code != 0)
            } else {
                None
            },
            Some(Json::Negative(code)) => if *code >= i32::MIN as i64 && *code <= i32::MAX as i64 {
                Some(*code != 0)
            } else {
                None
            },
            _ => None,
        }
    } else {
        None
    }
}

/// Whether any command of a shell failed, from the `n`th on.
pub open spec fn any_failed(items: Seq<JsonView>, n: int) -> Option<bool>
    decreases items.len() - n,
{
    if n < 0 || n >= items.len() {
        Some(false)
    } else {
        match (command_failed(items[n]), any_failed(items, n + 1)) {
            (Some(this), Some(rest)) => Some(this || rest),
            _ => None,
        }
    }
}

fn commands_outcome(items: &Vec<Json>) -> (r: Option<bool>)
    ensures
        r == any_failed(views(items@), 0),
{
    let ghost all = views(items@);
    let mut failed = false;
    let mut i: usize = 0;
    while i < items.len()
        invariant
            i <= items.len(),
            all == views(items@),
            match any_failed(all, i as int) {
                Some(rest) => any_failed(all, 0) == Some(failed || rest),
                None => any_failed(all, 0) is None,
            },
        decreases items.len() - i,
    {
        assert(all[i as int] == items@[i as int]@);
        match command_outcome(&items[i]) {
            Some(this) => {
                failed = failed || this;
            },
            None => return None,
        }
        i = i + 1;
    }
    Some(failed)
}

/// The result of a shell call: what every command put out, told as JSON.
pub open spec fn shell_resulted(o: Fields, h: HistoryView) -> Taken {
    if !only(o, seq!["type", "id", "call_id", "output", "max_output_length"]) || !string_if_any(
        field(o, "id"@),
    ) || !count_or_null(field(o, "max_output_length"@)) {
        None
    } else {
        match field(o, "output"@) {
            Some(JsonView::Array(items)) => match any_failed(items, 0) {
                Some(failed) => resulted(
                    o,
                    "call_id"@,
                    ResultKind::Of(WrappedKind::Shell),
                    ResultOf::Text(json_text(JsonView::Array(items))),
                    failed,
                    h,
                ),
                None => None,
            },
            _ => None,
        }
    }
}

/// The result of a shell call.
pub fn shell_call_output(object: &Object, history: &mut History) -> (r: Result<
    ContentBlock,
    AIError,
>)
    ensures
        takes(shell_resulted(object@, old(history)@), final(history)@, r),
{
    if object.has_unknown_field(&["type", "id", "call_id", "output", "max_output_length"]) {
        return Err(invalid_tool_history());
    }
    match validate_optional_string(object, "id") {
        Ok(_) => {},
        Err(e) => return Err(e),
    }
    if !optional_u64(object.get("max_output_length")) {
        return Err(invalid_tool_history());
    }
    let output = match object.get("output") {
        Some(output) => output,
        None => return Err(invalid_tool_history()),
    };
    let failed = match output {
        Json::Array(items) => match commands_outcome(items) {
            Some(failed) => failed,
            None => return Err(invalid_tool_history()),
        },
        _ => return Err(invalid_tool_history()),
    };
    let content = ResultOf::Text(output.render());
    tool_output(
        object,
        "call_id",
        history,
        ResultKind::Of(WrappedKind::Shell),
        content,
        failed,
    )
}

/// The result of a patch: what is said of it, if anything.
pub open spec fn patch_resulted(o: Fields, h: HistoryView) -> Taken {
    let status = text_field(o, "status"@);
    if !only(o, seq!["type", "id", "call_id", "status", "output"]) || !text_or_null(
        field(o, "output"@),
    ) || !string_if_any(field(o, "id"@)) || (status != Some("completed"@) && status != Some(
        "failed"@,
    )) {
        None
    } else {
        resulted(
            o,
            "call_id"@,
            ResultKind::Of(WrappedKind::ApplyPatch),
            ResultOf::Text(
                match text_field(o, "output"@) {
                    Some(text) => text,
                    None => Seq::empty(),
                },
            ),
            status == Some("failed"@),
            h,
        )
    }
}

/// The result of a patch.
pub fn apply_patch_call_output(object: &Object, history: &mut History) -> (r: Result<
    ContentBlock,
    AIError,
>)
    ensures
        takes(patch_resulted(object@, old(history)@), final(history)@, r),
{
    if object.has_unknown_field(&["type", "id", "call_id", "status", "output"])
        || !crate::actions::optional_nullable_string_value(object.get("output")) {
        return Err(invalid_tool_history());
    }
    match validate_optional_string(object, "id") {
        Ok(_) => {},
        Err(e) => return Err(e),
    }
    proof {
        reveal_strlit("completed");
        reveal_strlit("failed");
        assert("completed"@.len() == 9);
        assert("failed"@.len() == 6);
    }
    let failed = match object.text("status") {
        Some(status) => if same(status, "completed") {
            false
        } else if same(status, "failed") {
            true
        } else {
            return Err(invalid_tool_history());
        },
        None => return Err(invalid_tool_history()),
    };
    let text = match object.text("output") {
        Some(text) => owned(text),
        None => String::new(),
    };
    assert(text@ == (match text_field(object@, "output"@) {
        Some(text) => text,
        None => Seq::empty(),
    }));
    tool_output(
        object,
        "call_id",
        history,
        ResultKind::Of(WrappedKind::ApplyPatch),
        ResultOf::Text(text),
        failed,
    )
}

/// What an item of the history comes to, where it is a call or a result; or why it cannot be
/// taken.
#[verifier::opaque]
pub open spec fn history_taken(o: Fields, tools: Table, h: HistoryView) -> Result<
    Option<(Role, ContentView, HistoryView)>,
    AIError,
> {
    let kind = text_field(o, "type"@);
    if kind == Some("function_call"@) {
        call_taken(function_called(o, arguments_in(o), tools, h))
    } else if kind == Some("custom_tool_call"@) {
        call_taken(custom_called(o, tools, h))
    } else if kind == Some("local_shell_call"@) {
        call_taken(action_called(WrappedKind::LocalShell, o, tools, h))
    } else if kind == Some("shell_call"@) {
        call_taken(action_called(WrappedKind::Shell, o, tools, h))
    } else if kind == Some("apply_patch_call"@) {
        call_taken(action_called(WrappedKind::ApplyPatch, o, tools, h))
    } else if kind == Some("function_call_output"@) {
        if !only(o, seq!["type", "call_id", "output", "id", "status"]) || !string_if_any(
            field(o, "id"@),
        ) {
            Err(bad_history())
        } else {
            told_result(o, "call_id"@, ResultKind::Function, result_failed(field(o, "status"@)), h)
        }
    } else if kind == Some("custom_tool_call_output"@) {
        if !only(o, seq!["type", "call_id", "output", "id"]) || !string_if_any(field(o, "id"@)) {
            Err(bad_history())
        } else {
            told_result(o, "call_id"@, ResultKind::Custom, Some(false), h)
        }
    } else if kind == Some("local_shell_call_output"@) {
        if !only(o, seq!["type", "id", "output", "status"]) || text_field(o, "output"@) is None {
            Err(bad_history())
        } else {
            told_result(
                o,
                "id"@,
                ResultKind::Of(WrappedKind::LocalShell),
                result_failed(field(o, "status"@)),
                h,
            )
        }
    } else if kind == Some("shell_call_output"@) {
        result_taken(shell_resulted(o, h))
    } else if kind == Some("apply_patch_call_output"@) {
        result_taken(patch_resulted(o, h))
    } else {
        Ok(None)
    }
}

/// A call comes from the assistant.
pub open spec fn call_taken(t: Taken) -> Result<Option<(Role, ContentView, HistoryView)>, AIError> {
    match t {
        Some((block, h)) => Ok(Some((Role::Assistant, block, h))),
        None => Err(bad_history()),
    }
}

/// A result comes from the user.
pub open spec fn result_taken(t: Taken) -> Result<
    Option<(Role, ContentView, HistoryView)>,
    AIError,
> {
    match t {
        Some((block, h)) => Ok(Some((Role::User, block, h))),
        None => Err(bad_history()),
    }
}

/// A result that is told in the field for it.
pub open spec fn told_result(
    o: Fields,
    id_name: Seq<char>,
    kind: ResultKind,
    failed: Option<bool>,
    h: HistoryView,
) -> Result<Option<(Role, ContentView, HistoryView)>, AIError> {
    match result_of(field(o, "output"@)) {
        Err(e) => Err(e),
        Ok(content) => match failed {
            Some(failed) => result_taken(resulted(o, id_name, kind, content, failed, h)),
            None => Err(bad_history()),
        },
    }
}

fn take_result(
    object: &Object,
    id_name: &str,
    history: &mut History,
    kind: ResultKind,
    status: Option<&Json>,
) -> (r: Result<ContentBlock, AIError>)
    ensures
        match told_result(
            object@,
            id_name@,
            kind,
            result_failed(view_in(status)),
            old(history)@,
        ) {
            Ok(Some((role, block, h))) => r is Ok && role == Role::User && r->Ok_0@ == block
                && final(history)@ == h,
            Ok(None) => false,
            Err(e) => r is Err && r->Err_0 == e,
        },
{
    let content = match tool_result_content(object.get("output")) {
        Ok(content) => content,
        Err(e) => return Err(e),
    };
    let failed = match function_output_status_is_error(status) {
        Ok(failed) => failed,
        Err(e) => return Err(e),
    };
    tool_output(object, id_name, history, kind, content, failed)
}

fn told_by(role: Role, r: Result<ContentBlock, AIError>) -> (t: Result<
    Option<(Role, ContentBlock)>,
    AIError,
>)
    ensures
        match r {
            Ok(block) => t == Ok::<Option<(Role, ContentBlock)>, AIError>(Some((role, block))),
            Err(e) => t == Err::<Option<(Role, ContentBlock)>, AIError>(e),
        },
{
    match r {
        Ok(block) => Ok(Some((role, block))),
        Err(e) => Err(e),
    }
}

/// Takes an item of the history, where it is a call or a result.
pub fn translate_tool_history_item(
    object: &Object,
    state: &State,
    history: &mut History,
) -> (r: Result<Option<(Role, ContentBlock)>, AIError>)
    ensures
        match history_taken(object@, state@, old(history)@) {
            Ok(Some((role, block, h))) => {
                &&& r matches Ok(Some((told, taken)))
                &&& told == role
                &&& taken@ == block
                &&& final(history)@ == h
            },
            Ok(None) => r is Ok && r->Ok_0 is None && *final(history) == *old(history),
            Err(e) => r is Err && r->Err_0 == e,
        },
{
    reveal(history_taken);
    let kind = match object.text("type") {
        Some(kind) => kind,
        None => return Ok(None),
    };
    if same(kind, "function_call") {
        let arguments = read_arguments(object);
        told_by(Role::Assistant, function_call(object, arguments, state, history))
    } else if same(kind, "custom_tool_call") {
        told_by(Role::Assistant, custom_tool_call(object, state, history))
    } else if same(kind, "local_shell_call") {
        told_by(Role::Assistant, tool_action_call(object, state, history, WrappedKind::LocalShell))
    } else if same(kind, "shell_call") {
        told_by(Role::Assistant, tool_action_call(object, state, history, WrappedKind::Shell))
    } else if same(kind, "apply_patch_call") {
        told_by(Role::Assistant, tool_action_call(object, state, history, WrappedKind::ApplyPatch))
    } else if same(kind, "function_call_output") {
        if object.has_unknown_field(&["type", "call_id", "output", "id", "status"])
            || validate_optional_string(object, "id").is_err() {
            return Err(invalid_tool_history());
        }
        told_by(
            Role::User,
            take_result(
                object,
                "call_id",
                history,
                ResultKind::Function,
                object.get("status"),
            ),
        )
    } else if same(kind, "custom_tool_call_output") {
        if object.has_unknown_field(&["type", "call_id", "output", "id"])
            || validate_optional_string(object, "id").is_err() {
            return Err(invalid_tool_history());
        }
        told_by(Role::User, take_result(object, "call_id", history, ResultKind::Custom, None))
    } else if same(kind, "local_shell_call_output") {
        if object.has_unknown_field(&["type", "id", "output", "status"]) || object.text(
            "output",
        ).is_none() {
            return Err(invalid_tool_history());
        }
        told_by(
            Role::User,
            take_result(
                object,
                "id",
                history,
                ResultKind::Of(WrappedKind::LocalShell),
                object.get("status"),
            ),
        )
    } else if same(kind, "shell_call_output") {
        told_by(Role::User, shell_call_output(object, history))
    } else if same(kind, "apply_patch_call_output") {
        told_by(Role::User, apply_patch_call_output(object, history))
    } else {
        Ok(None)
    }
}

} // verus!
