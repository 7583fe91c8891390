//! What holds of every tool that a request declares: the model is told of it under a name by which
//! it is known again, with its description and the schema of its input.
use vstd::prelude::*;

use crate::declare::{
    children_added, child_added, closed_object, custom_added, definition_added, definitions_added,
    function_added, name_ok, namespace_added, patch_way, tools_declared, unit_added, unit_schema,
    DeclView,
};
use crate::error::AIError;
use crate::json::{field, only, text_field, Fields, JsonView};
use crate::lookups::group_lookups;
use crate::schema::wrapped_schema;
use crate::text::decimal;
use crate::tools::{lemma_tool_put_found, tool_named, DeclaredOf, WrappedKind, WrappedOf};

verus! {

proof fn lemma_definition_types()
    ensures
        "function"@ != "namespace"@,
        "function"@ != "custom"@,
        "function"@ != "local_shell"@,
        "function"@ != "shell"@,
        "function"@ != "apply_patch"@,
        "namespace"@ != "custom"@,
        "namespace"@ != "local_shell"@,
        "namespace"@ != "shell"@,
        "namespace"@ != "apply_patch"@,
        "custom"@ != "local_shell"@,
        "custom"@ != "shell"@,
        "custom"@ != "apply_patch"@,
        "local_shell"@ != "shell"@,
        "local_shell"@ != "apply_patch"@,
        "shell"@ != "apply_patch"@,
{
    reveal_strlit("function");
    reveal_strlit("namespace");
    reveal_strlit("custom");
    reveal_strlit("local_shell");
    reveal_strlit("shell");
    reveal_strlit("apply_patch");
    assert("function"@.len() == 8);
    assert("namespace"@.len() == 9);
    assert("custom"@.len() == 6);
    assert("local_shell"@.len() == 11);
    assert("shell"@.len() == 5);
    assert("apply_patch"@.len() == 11);
    assert("local_shell"@[0] == 'l');
    assert("apply_patch"@[0] == 'a');
}

proof fn lemma_schema_names()
    ensures
        "type"@ != "properties"@,
        "type"@ != "required"@,
        "type"@ != "additionalProperties"@,
        "type"@ != "items"@,
        "type"@ != "minimum"@,
        "type"@ != "oneOf"@,
        "type"@ != "const"@,
        "properties"@ != "required"@,
        "properties"@ != "additionalProperties"@,
        "properties"@ != "items"@,
        "properties"@ != "minimum"@,
        "properties"@ != "oneOf"@,
        "properties"@ != "const"@,
        "required"@ != "additionalProperties"@,
        "required"@ != "items"@,
        "required"@ != "minimum"@,
        "required"@ != "oneOf"@,
        "required"@ != "const"@,
        "additionalProperties"@ != "items"@,
        "additionalProperties"@ != "minimum"@,
        "additionalProperties"@ != "oneOf"@,
        "additionalProperties"@ != "const"@,
        "items"@ != "minimum"@,
        "items"@ != "oneOf"@,
        "items"@ != "const"@,
        "minimum"@ != "oneOf"@,
        "minimum"@ != "const"@,
        "oneOf"@ != "const"@,
{
    reveal_strlit("type");
    reveal_strlit("properties");
    reveal_strlit("required");
    reveal_strlit("additionalProperties");
    reveal_strlit("items");
    reveal_strlit("minimum");
    reveal_strlit("oneOf");
    reveal_strlit("const");
    assert("type"@.len() == 4);
    assert("properties"@.len() == 10);
    assert("required"@.len() == 8);
    assert("additionalProperties"@.len() == 20);
    assert("items"@.len() == 5);
    assert("minimum"@.len() == 7);
    assert("oneOf"@.len() == 5);
    assert("const"@.len() == 5);
    assert("items"@[0] == 'i');
    assert("oneOf"@[0] == 'o');
    assert("const"@[0] == 'c');
}

proof fn lemma_input_names()
    ensures
        "command"@ != "env"@,
        "command"@ != "timeout_ms"@,
        "command"@ != "user"@,
        "command"@ != "working_directory"@,
        "command"@ != "commands"@,
        "command"@ != "max_output_length"@,
        "command"@ != "path"@,
        "command"@ != "diff"@,
        "command"@ != "type"@,
        "env"@ != "timeout_ms"@,
        "env"@ != "user"@,
        "env"@ != "working_directory"@,
        "env"@ != "commands"@,
        "env"@ != "max_output_length"@,
        "env"@ != "path"@,
        "env"@ != "diff"@,
        "env"@ != "type"@,
        "timeout_ms"@ != "user"@,
        "timeout_ms"@ != "working_directory"@,
        "timeout_ms"@ != "commands"@,
        "timeout_ms"@ != "max_output_length"@,
        "timeout_ms"@ != "path"@,
        "timeout_ms"@ != "diff"@,
        "timeout_ms"@ != "type"@,
        "user"@ != "working_directory"@,
        "user"@ != "commands"@,
        "user"@ != "max_output_length"@,
        "user"@ != "path"@,
        "user"@ != "diff"@,
        "user"@ != "type"@,
        "working_directory"@ != "commands"@,
        "working_directory"@ != "max_output_length"@,
        "working_directory"@ != "path"@,
        "working_directory"@ != "diff"@,
        "working_directory"@ != "type"@,
        "commands"@ != "max_output_length"@,
        "commands"@ != "path"@,
        "commands"@ != "diff"@,
        "commands"@ != "type"@,
        "max_output_length"@ != "path"@,
        "max_output_length"@ != "diff"@,
        "max_output_length"@ != "type"@,
        "path"@ != "diff"@,
        "path"@ != "type"@,
        "diff"@ != "type"@,
{
    reveal_strlit("command");
    reveal_strlit("env");
    reveal_strlit("timeout_ms");
    reveal_strlit("user");
    reveal_strlit("working_directory");
    reveal_strlit("commands");
    reveal_strlit("max_output_length");
    reveal_strlit("path");
    reveal_strlit("diff");
    reveal_strlit("type");
    assert("command"@.len() == 7);
    assert("env"@.len() == 3);
    assert("timeout_ms"@.len() == 10);
    assert("user"@.len() == 4);
    assert("working_directory"@.len() == 17);
    assert("commands"@.len() == 8);
    assert("max_output_length"@.len() == 17);
    assert("path"@.len() == 4);
    assert("diff"@.len() == 4);
    assert("type"@.len() == 4);
    assert("user"@[0] == 'u');
    assert("path"@[0] == 'p');
    assert("diff"@[0] == 'd');
    assert("type"@[0] == 't');
    assert("working_directory"@[0] == 'w');
    assert("max_output_length"@[0] == 'm');
}


/// Whether a tool was added after all others: with a name, a description and a schema, known again
/// by its name as what it is. All that was declared before is as it was.
pub open spec fn tool_added(
    before: DeclView,
    after: DeclView,
    name: Seq<char>,
    description: Option<Seq<char>>,
    input_schema: JsonView,
    tool: DeclaredOf<Seq<char>>,
) -> bool {
    &&& after.tools.len() == before.tools.len() + 1
    &&& after.tools.drop_last() == before.tools
    &&& after.tools.last().name == name
    &&& after.tools.last().description == description
    &&& after.tools.last().input_schema == input_schema
    &&& tool_named(after.state, name) == Some(tool)
}

/// The name upstream of a tool that has another name here.
pub open spec fn name_upstream(kind: Seq<char>, place: nat) -> Seq<char> {
    "agentgateway__responses__"@ + kind + "_"@ + decimal(place)
}

/// A function is told of by its own name, with its own description and its own parameters, or any
/// object where it has none.
#[verifier::rlimit(40)]
#[verifier::spinoff_prover]
pub proof fn lemma_function_is_told(d: DeclView, o: Fields)
    ensures
        function_added(d, o, None) matches Some(after) ==> {
            &&& field(o, "name"@) is Some
            &&& field(o, "name"@)->0 is Text
            &&& name_ok(field(o, "name"@)->0->Text_0)
            &&& !"agentgateway__responses__"@.is_prefix_of(field(o, "name"@)->0->Text_0)
            &&& tool_added(
                d,
                after,
                field(o, "name"@)->0->Text_0,
                match field(o, "description"@) {
                    Some(JsonView::Text(text)) => Some(text),
                    _ => None,
                },
                match field(o, "parameters"@) {
                    Some(p) => p,
                    None => JsonView::Object(seq![("type"@, JsonView::Text("object"@))]),
                },
                DeclaredOf::Function,
            )
        },
{
    match function_added(d, o, None) {
        Some(after) => {
            let name = text_field(o, "name"@)->0;
            lemma_tool_put_found(d.state, name, DeclaredOf::Function);
            assert(after.tools.drop_last() == d.tools);
            assert(crate::declare::any_object()->Object_0 == seq![
                ("type"@, JsonView::Text("object"@)),
            ]);
        },
        None => {},
    }
}

/// A function is declared where it says no more than its name, its description and its
/// parameters, its name is one that may be told and no function has it yet.
#[verifier::rlimit(40)]
#[verifier::spinoff_prover]
pub proof fn lemma_function_is_taken(d: DeclView, o: Fields, name: Seq<char>)
    requires
        field(o, "name"@) == Some(JsonView::Text(name)),
        field(o, "strict"@) is None,
        field(o, "defer_loading"@) is None,
        field(o, "description"@) is None || field(o, "description"@)->0 is Text,
        field(o, "parameters"@) is None || field(o, "parameters"@)->0 is Object,
        forall|i: int|
            0 <= i < o.len() ==> (#[trigger] o[i]).0 == "type"@ || o[i].0 == "name"@ || o[i].0
                == "description"@ || o[i].0 == "parameters"@,
        0 < name.len() <= 64,
        forall|i: int|
            0 <= i < name.len() ==> {
                ||| 'a' <= (#[trigger] name[i]) && name[i] <= 'z'
                ||| 'A' <= name[i] && name[i] <= 'Z'
                ||| '0' <= name[i] && name[i] <= '9'
                ||| name[i] == '_'
                ||| name[i] == '-'
            },
        !"agentgateway__responses__"@.is_prefix_of(name),
        !d.keys.contains("function:"@ + name),
    ensures
        function_added(d, o, None) is Some,
{
    let list = seq!["type", "name", "description", "parameters", "strict", "defer_loading"];
    assert(list[0]@ == "type"@ && list[1]@ == "name"@ && list[2]@ == "description"@ && list[3]@
        == "parameters"@);
    assert(only(o, list));
    assert(name_ok(name));
}

/// A name that a function may have upstream is of letters, digits, underscores and hyphens, and
/// has up to 64 of them.
pub proof fn lemma_name_ok(name: Seq<char>)
    ensures
        name_ok(name) <==> 0 < name.len() <= 64 && forall|i: int|
            0 <= i < name.len() ==> {
                ||| 'a' <= (#[trigger] name[i]) && name[i] <= 'z'
                ||| 'A' <= name[i] && name[i] <= 'Z'
                ||| '0' <= name[i] && name[i] <= '9'
                ||| name[i] == '_'
                ||| name[i] == '-'
            },
{
    if name_ok(name) {
        assert forall|i: int| 0 <= i < name.len() implies {
            ||| 'a' <= (#[trigger] name[i]) && name[i] <= 'z'
            ||| 'A' <= name[i] && name[i] <= 'Z'
            ||| '0' <= name[i] && name[i] <= '9'
            ||| name[i] == '_'
            ||| name[i] == '-'
        } by {
            assert(crate::declare::name_char(name[i]));
        }
    }
}

/// A text after a space, or nothing where there is none or it is empty.
pub open spec fn after_space(text: Option<Seq<char>>) -> Seq<char> {
    if text is Some && text->0.len() > 0 {
        " "@ + text->0
    } else {
        Seq::empty()
    }
}

/// A function of a namespace is told of by what it is and its place, described by its full name,
/// by its namespace's description and by its own, and takes its parameters under `arguments`.
#[verifier::rlimit(40)]
#[verifier::spinoff_prover]
pub proof fn lemma_namespaced_function_is_told(
    d: DeclView,
    o: Fields,
    namespace: Seq<char>,
    about: Seq<char>,
)
    ensures
        function_added(d, o, Some((namespace, about))) matches Some(after) ==> {
            let name = field(o, "name"@)->0->Text_0;
            &&& field(o, "name"@) is Some
            &&& field(o, "name"@)->0 is Text
            &&& name.len() > 0
            &&& tool_added(
                d,
                after,
                name_upstream("namespace_function"@, d.tools.len()),
                Some(
                    "Responses tool "@ + (namespace + "."@ + name) + "."@ + after_space(Some(about))
                        + after_space(
                        match field(o, "description"@) {
                            Some(JsonView::Text(text)) => Some(text),
                            _ => None,
                        },
                    ),
                ),
                wrapped_schema(
                    "arguments"@,
                    match field(o, "parameters"@) {
                        Some(p) => p,
                        None => JsonView::Object(seq![("type"@, JsonView::Text("object"@))]),
                    },
                ),
                DeclaredOf::Wrapped(
                    WrappedOf {
                        kind: WrappedKind::NamespaceFunction,
                        name,
                        namespace: Some(namespace),
                    },
                ),
            )
        },
{
    match function_added(d, o, Some((namespace, about))) {
        Some(after) => {
            let name = text_field(o, "name"@)->0;
            lemma_tool_put_found(
                d.state,
                name_upstream("namespace_function"@, d.tools.len()),
                DeclaredOf::Wrapped(
                    WrappedOf {
                        kind: WrappedKind::NamespaceFunction,
                        name,
                        namespace: Some(namespace),
                    },
                ),
            );
            assert(after.tools.drop_last() == d.tools);
            assert(crate::declare::any_object()->Object_0 == seq![
                ("type"@, JsonView::Text("object"@)),
            ]);
        },
        None => {},
    }
}

/// A tool that takes free text is told of by what it is and its place, described by its full name,
/// by its namespace's description, where it has one, and by its own, and takes a string under
/// `input`.
#[verifier::rlimit(40)]
#[verifier::spinoff_prover]
pub proof fn lemma_custom_is_told(
    d: DeclView,
    o: Fields,
    namespace: Option<(Seq<char>, Seq<char>)>,
)
    ensures
        custom_added(d, o, namespace) matches Some(after) ==> {
            let name = field(o, "name"@)->0->Text_0;
            let kind = if namespace is Some {
                WrappedKind::NamespaceCustom
            } else {
                WrappedKind::Custom
            };
            let full = if namespace is Some {
                (namespace->0).0 + "."@ + name
            } else {
                name
            };
            &&& field(o, "name"@) is Some
            &&& field(o, "name"@)->0 is Text
            &&& name.len() > 0
            &&& tool_added(
                d,
                after,
                name_upstream(
                    if namespace is Some {
                        "namespace_custom"@
                    } else {
                        "custom"@
                    },
                    d.tools.len(),
                ),
                Some(
                    "Responses tool "@ + full + "."@ + after_space(
                        if namespace is Some {
                            Some((namespace->0).1)
                        } else {
                            None
                        },
                    ) + after_space(
                        match field(o, "description"@) {
                            Some(JsonView::Text(text)) => Some(text),
                            _ => None,
                        },
                    ),
                ),
                wrapped_schema(
                    "input"@,
                    JsonView::Object(seq![("type"@, JsonView::Text("string"@))]),
                ),
                DeclaredOf::Wrapped(
                    WrappedOf {
                        kind,
                        name,
                        namespace: if namespace is Some {
                            Some((namespace->0).0)
                        } else {
                            None
                        },
                    },
                ),
            )
        },
{
    match custom_added(d, o, namespace) {
        Some(after) => {
            let name = text_field(o, "name"@)->0;
            let tool = DeclaredOf::Wrapped(
                WrappedOf {
                    kind: if namespace is Some {
                        WrappedKind::NamespaceCustom
                    } else {
                        WrappedKind::Custom
                    },
                    name,
                    namespace: if namespace is Some {
                        Some((namespace->0).0)
                    } else {
                        None
                    },
                },
            );
            lemma_tool_put_found(d.state, after.tools.last().name, tool);
            assert(after.tools.drop_last() == d.tools);
            assert(crate::declare::any_text()->Object_0 == seq![
                ("type"@, JsonView::Text("string"@)),
            ]);
        },
        None => {},
    }
}

/// A shell or patch tool is told of by what it is and its place, takes the input that is its own,
/// and says nothing but which tool it is; a shell says that it is local.
#[verifier::rlimit(40)]
#[verifier::spinoff_prover]
pub proof fn lemma_unit_is_told(d: DeclView, o: Fields, kind: WrappedKind)
    requires
        kind == WrappedKind::LocalShell || kind == WrappedKind::Shell || kind
            == WrappedKind::ApplyPatch,
    ensures
        unit_added(d, o, kind) matches Some(after) ==> {
            let name = match kind {
                WrappedKind::LocalShell => "local_shell"@,
                WrappedKind::Shell => "shell"@,
                _ => "apply_patch"@,
            };
            &&& after.tools.last().description is Some
            &&& tool_added(
                d,
                after,
                name_upstream(name, d.tools.len()),
                after.tools.last().description,
                unit_schema(kind),
                DeclaredOf::Wrapped(WrappedOf { kind, name, namespace: None }),
            )
            &&& kind == WrappedKind::Shell ==> field(o, "environment"@) is Some && field(
                o,
                "environment"@,
            )->0.get("type"@) == Some(JsonView::Text("local"@))
        },
{
    match unit_added(d, o, kind) {
        Some(after) => {
            lemma_tool_put_found(
                d.state,
                after.tools.last().name,
                DeclaredOf::Wrapped(
                    WrappedOf { kind, name: crate::declare::unit_token(kind), namespace: None },
                ),
            );
            assert(after.tools.drop_last() == d.tools);
        },
        None => {},
    }
}

/// A definition is taken for what its type says that it is, and one of any other type is refused.
pub proof fn lemma_definition_types_count(d: DeclView, o: Fields)
    ensures
        ({
            let kind = field(o, "type"@);
            let added = definition_added(d, JsonView::Object(o));
            &&& kind == Some(JsonView::Text("function"@)) ==> (match function_added(d, o, None) {
                Some(after) => added == Ok::<DeclView, AIError>(after),
                None => added is Err,
            })
            &&& kind == Some(JsonView::Text("namespace"@)) ==> (match namespace_added(d, o) {
                Some(after) => added == Ok::<DeclView, AIError>(after),
                None => added is Err,
            })
            &&& kind == Some(JsonView::Text("custom"@)) ==> (match custom_added(d, o, None) {
                Some(after) => added == Ok::<DeclView, AIError>(after),
                None => added is Err,
            })
            &&& kind == Some(JsonView::Text("local_shell"@)) ==> (match unit_added(
                d,
                o,
                WrappedKind::LocalShell,
            ) {
                Some(after) => added == Ok::<DeclView, AIError>(after),
                None => added is Err,
            })
            &&& kind == Some(JsonView::Text("shell"@)) ==> (match unit_added(
                d,
                o,
                WrappedKind::Shell,
            ) {
                Some(after) => added == Ok::<DeclView, AIError>(after),
                None => added is Err,
            })
            &&& kind == Some(JsonView::Text("apply_patch"@)) ==> (match unit_added(
                d,
                o,
                WrappedKind::ApplyPatch,
            ) {
                Some(after) => added == Ok::<DeclView, AIError>(after),
                None => added is Err,
            })
            &&& added is Ok ==> kind == Some(JsonView::Text("function"@)) || kind == Some(
                JsonView::Text("namespace"@),
            ) || kind == Some(JsonView::Text("custom"@)) || kind == Some(
                JsonView::Text("local_shell"@),
            ) || kind == Some(JsonView::Text("shell"@)) || kind == Some(
                JsonView::Text("apply_patch"@),
            )
        }),
{
    lemma_definition_types();
}

/// Each definition is declared, after those before it and before those that follow.
pub proof fn lemma_definitions_in_order(
    before: Seq<JsonView>,
    after: Seq<JsonView>,
    n: int,
    d: DeclView,
)
    requires
        0 <= n <= before.len(),
    ensures
        definitions_added(d, before + after, n) == (match definitions_added(d, before, n) {
            Ok(mid) => definitions_added(mid, after, 0),
            Err(e) => Err(e),
        }),
    decreases before.len() - n,
{
    let all = before + after;
    if n < before.len() {
        assert(all[n] == before[n]);
        match definition_added(d, before[n]) {
            Ok(next) => {
                lemma_definitions_in_order(before, after, n + 1, next);
            },
            Err(_) => {},
        }
    } else {
        lemma_later_definitions(before, after, 0, d);
    }
}

proof fn lemma_later_definitions(
    before: Seq<JsonView>,
    after: Seq<JsonView>,
    k: int,
    d: DeclView,
)
    requires
        0 <= k <= after.len(),
    ensures
        definitions_added(d, before + after, before.len() + k) == definitions_added(d, after, k),
    decreases after.len() - k,
{
    let all = before + after;
    if k < after.len() {
        assert(all[before.len() + k] == after[k]);
        match definition_added(d, after[k]) {
            Ok(next) => {
                lemma_later_definitions(before, after, k + 1, next);
            },
            Err(_) => {},
        }
    }
}

/// A single definition is declared as it is, and no definitions declare nothing.
pub proof fn lemma_single_definition(d: DeclView, v: JsonView)
    ensures
        definitions_added(d, seq![v], 0) == definition_added(d, v),
        definitions_added(d, Seq::empty(), 0) == Ok::<DeclView, AIError>(d),
{
    reveal_with_fuel(definitions_added, 2);
}

/// The tools of a request are those of its list, and it has none where it has no list.
pub proof fn lemma_tools_of_request(raw: JsonView)
    ensures
        raw.get("tools"@) is None ==> tools_declared(raw) is Ok && (tools_declared(
            raw,
        )->Ok_0).tools.len() == 0 && (tools_declared(raw)->Ok_0).state.len() == 0,
        raw.get("tools"@) matches Some(JsonView::Array(list)) ==> tools_declared(raw)
            == definitions_added(crate::declare::nothing_declared(), list, 0),
        raw.get("tools"@) is Some && !(raw.get("tools"@)->0 is Array) ==> tools_declared(
            raw,
        ) is Err,
        crate::declare::nothing_declared().tools.len() == 0,
        crate::declare::nothing_declared().state.len() == 0,
        crate::declare::nothing_declared().keys.len() == 0,
{
}

/// The tools of a namespace are declared one after the other.
pub proof fn lemma_children_in_order(
    d: DeclView,
    children: Seq<JsonView>,
    i: int,
    namespace: (Seq<char>, Seq<char>),
)
    requires
        0 <= i <= children.len(),
    ensures
        i < children.len() ==> children_added(d, children, i, namespace) == (match child_added(
            d,
            children[i],
            namespace,
        ) {
            Some(next) => children_added(next, children, i + 1, namespace),
            None => None,
        }),
        i == children.len() ==> children_added(d, children, i, namespace) == Some(d),
        i < children.len() ==> (match children[i].text_at("type"@) {
            Some(kind) => {
                &&& kind == "function"@ ==> child_added(d, children[i], namespace)
                    == function_added(d, children[i]->Object_0, Some(namespace))
                &&& kind == "custom"@ ==> child_added(d, children[i], namespace) == custom_added(
                    d,
                    children[i]->Object_0,
                    Some(namespace),
                )
                &&& kind != "function"@ && kind != "custom"@ ==> child_added(
                    d,
                    children[i],
                    namespace,
                ) is None
            },
            None => child_added(d, children[i], namespace) is None,
        }),
{
    lemma_definition_types();
}

/// Whether a schema is that of an object that must have some fields and may have no others than
/// those that are told of.
pub open spec fn asks_object(schema: JsonView, required: Seq<JsonView>) -> bool {
    &&& schema.get("type"@) == Some(JsonView::Text("object"@))
    &&& schema.get("required"@) == Some(JsonView::Array(required))
    &&& schema.get("additionalProperties"@) == Some(JsonView::Bool(false))
    &&& schema.get("properties"@) is Some
}

/// The schema of a field.
pub open spec fn asked_field(schema: JsonView, name: Seq<char>) -> Option<JsonView> {
    schema.get("properties"@)->0.get(name)
}

/// Whether a schema is that of a list of strings.
pub open spec fn asks_strings(schema: Option<JsonView>) -> bool {
    schema is Some && schema->0.get("type"@) == Some(JsonView::Text("array"@))
        && schema->0.get("items"@) is Some && schema->0.get("items"@)->0.get("type"@) == Some(
        JsonView::Text("string"@),
    )
}

/// Whether a schema is that of a value of a type or null.
pub open spec fn asks_maybe(schema: Option<JsonView>, kind: Seq<char>) -> bool {
    schema is Some && schema->0.get("type"@) == Some(
        JsonView::Array(seq![JsonView::Text(kind), JsonView::Text("null"@)]),
    )
}

/// A local shell takes an action of one command, an environment, and, where they are given, a
/// limit of time, a user and a directory.
#[verifier::rlimit(60)]
#[verifier::spinoff_prover]
pub proof fn lemma_local_shell_input()
    ensures
        exists|action: JsonView|
            {
                &&& unit_schema(WrappedKind::LocalShell) == #[trigger] wrapped_schema(
                    "action"@,
                    action,
                )
                &&& asks_object(
                    action,
                    seq![JsonView::Text("command"@), JsonView::Text("env"@)],
                )
                &&& asks_strings(asked_field(action, "command"@))
                &&& asked_field(action, "env"@) is Some
                &&& asked_field(action, "env"@)->0.get("additionalProperties"@) is Some
                &&& asked_field(action, "env"@)->0.get("additionalProperties"@)->0.get("type"@)
                    == Some(JsonView::Text("string"@))
                &&& asks_maybe(asked_field(action, "timeout_ms"@), "integer"@)
                &&& asks_maybe(asked_field(action, "user"@), "string"@)
                &&& asks_maybe(asked_field(action, "working_directory"@), "string"@)
            },
{
    broadcast use group_lookups;

    lemma_schema_names();
    lemma_input_names();
    let action = closed_object(
        JsonView::object().with("command"@, crate::declare::strings_json()).with(
            "env"@,
            crate::declare::typed_json("object"@).with(
                "additionalProperties"@,
                crate::declare::typed_json("string"@),
            ),
        ).with("timeout_ms"@, crate::declare::maybe_count_json()).with(
            "user"@,
            crate::declare::maybe_string_json(),
        ).with("working_directory"@, crate::declare::maybe_string_json()),
        seq!["command", "env"],
    );
    assert(unit_schema(WrappedKind::LocalShell) == wrapped_schema("action"@, action));
    assert(crate::declare::names_json(seq!["command", "env"])->Array_0 == seq![
        JsonView::Text("command"@),
        JsonView::Text("env"@),
    ]);
    assert(crate::declare::names_json(seq!["integer", "null"])->Array_0 == seq![
        JsonView::Text("integer"@),
        JsonView::Text("null"@),
    ]);
    assert(crate::declare::names_json(seq!["string", "null"])->Array_0 == seq![
        JsonView::Text("string"@),
        JsonView::Text("null"@),
    ]);
}

/// A shell takes an action of a list of commands and, where they are given, a limit of time and
/// one of output.
#[verifier::rlimit(60)]
#[verifier::spinoff_prover]
pub proof fn lemma_shell_input()
    ensures
        exists|action: JsonView|
            {
                &&& unit_schema(WrappedKind::Shell) == #[trigger] wrapped_schema(
                    "action"@,
                    action,
                )
                &&& asks_object(action, seq![JsonView::Text("commands"@)])
                &&& asks_strings(asked_field(action, "commands"@))
                &&& asks_maybe(asked_field(action, "timeout_ms"@), "integer"@)
                &&& asks_maybe(asked_field(action, "max_output_length"@), "integer"@)
            },
{
    broadcast use group_lookups;

    lemma_schema_names();
    lemma_input_names();
    let action = closed_object(
        JsonView::object().with("commands"@, crate::declare::strings_json()).with(
            "timeout_ms"@,
            crate::declare::maybe_count_json(),
        ).with("max_output_length"@, crate::declare::maybe_count_json()),
        seq!["commands"],
    );
    assert(unit_schema(WrappedKind::Shell) == wrapped_schema("action"@, action));
    assert(crate::declare::names_json(seq!["commands"])->Array_0 == seq![
        JsonView::Text("commands"@),
    ]);
    assert(crate::declare::names_json(seq!["integer", "null"])->Array_0 == seq![
        JsonView::Text("integer"@),
        JsonView::Text("null"@),
    ]);
}

/// Whether a schema is that of a patch of a kind: with a path, and with a difference or without.
pub open spec fn asks_patch(schema: JsonView, kind: Seq<char>, with_diff: bool) -> bool {
    &&& asks_object(
        schema,
        if with_diff {
            seq![JsonView::Text("type"@), JsonView::Text("path"@), JsonView::Text("diff"@)]
        } else {
            seq![JsonView::Text("type"@), JsonView::Text("path"@)]
        },
    )
    &&& asked_field(schema, "type"@) is Some
    &&& asked_field(schema, "type"@)->0.get("const"@) == Some(JsonView::Text(kind))
    &&& asked_field(schema, "path"@) is Some
    &&& asked_field(schema, "path"@)->0.get("type"@) == Some(JsonView::Text("string"@))
    &&& with_diff ==> asked_field(schema, "diff"@) is Some && asked_field(
        schema,
        "diff"@,
    )->0.get("type"@) == Some(JsonView::Text("string"@))
    &&& !with_diff ==> asked_field(schema, "diff"@) is None
}

/// A patch tool takes an operation: to create or update a file by a difference, or to delete one.
#[verifier::rlimit(60)]
#[verifier::spinoff_prover]
pub proof fn lemma_patch_input()
    ensures
        exists|operation: JsonView|
            {
                &&& unit_schema(WrappedKind::ApplyPatch) == #[trigger] wrapped_schema(
                    "operation"@,
                    operation,
                )
                &&& match operation.get("oneOf"@) {
                    Some(JsonView::Array(ways)) => ways.len() == 3 && asks_patch(
                        ways[0],
                        "create_file"@,
                        true,
                    ) && asks_patch(ways[1], "delete_file"@, false) && asks_patch(
                        ways[2],
                        "update_file"@,
                        true,
                    ),
                    _ => false,
                }
            },
{
    broadcast use group_lookups;

    lemma_schema_names();
    lemma_input_names();
    let ways = seq![
        patch_way("create_file"@, true),
        patch_way("delete_file"@, false),
        patch_way("update_file"@, true),
    ];
    let operation = JsonView::object().with("oneOf"@, JsonView::Array(ways));
    assert(unit_schema(WrappedKind::ApplyPatch) == wrapped_schema("operation"@, operation));
    assert(crate::declare::names_json(seq!["type", "path", "diff"])->Array_0 == seq![
        JsonView::Text("type"@),
        JsonView::Text("path"@),
        JsonView::Text("diff"@),
    ]);
    assert(crate::declare::names_json(seq!["type", "path"])->Array_0 == seq![
        JsonView::Text("type"@),
        JsonView::Text("path"@),
    ]);
    assert(asks_patch(ways[0], "create_file"@, true));
    assert(asks_patch(ways[1], "delete_file"@, false));
    assert(asks_patch(ways[2], "update_file"@, true));
}

} // verus!
