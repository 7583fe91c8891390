//! Declaring the tools of a request upstream.
use vstd::prelude::*;

use crate::actions::{local_environment, shell_environment_is_local};
use crate::error::{refuse, unsupported, AIError, Unsupported};
use crate::json::{
    absent_or_false, field, off, only, text_field, views, Fields, Json, JsonView, Object,
};
use crate::request_types::{tool_views, Tool, ToolOf, ToolView};
use crate::response::nonempty;
use crate::schema::{wrapped_schema, wrapper_schema};
use crate::text::{
    begins_with, blank, chars_of, decimal, decimal_text, holds, join, owned, owned_opt, same,
    text_of, texts,
};
use crate::tools::{tool_put, DeclaredOf, State, Table, WrappedKind, WrappedOf};

verus! {

broadcast use crate::json::lemma_array_view;

/// What has been declared so far: the tools upstream, what they stand for, and the keys under
/// which they were declared, none of which may occur twice.
pub struct DeclaredSoFarOf<T, M, K> {
    pub tools: T,
    pub state: M,
    pub keys: K,
}

pub type Declarations = DeclaredSoFarOf<Vec<Tool>, State, Vec<String>>;

pub type DeclView = DeclaredSoFarOf<Seq<ToolView>, Table, Seq<Seq<char>>>;

impl View for DeclaredSoFarOf<Vec<Tool>, State, Vec<String>> {
    type V = DeclaredSoFarOf<Seq<ToolView>, Table, Seq<Seq<char>>>;

    open spec fn view(&self) -> DeclView {
        DeclaredSoFarOf {
            tools: tool_views(self.tools@),
            state: self.state@,
            keys: texts(self.keys@),
        }
    }
}

/// The error for a tool that cannot be declared.
pub open spec fn bad_declaration() -> AIError {
    unsupported(Unsupported::ToolDeclaration)
}

/// The error for a tool that cannot be declared.
pub fn invalid_tool_declaration() -> (r: AIError)
    ensures
        r == bad_declaration(),
{
    refuse(Unsupported::ToolDeclaration)
}

/// Whether a character may stand in the name of a tool upstream.
pub open spec fn name_char(c: char) -> bool {
    ('a' <= c && c <= 'z') || ('A' <= c && c <= 'Z') || ('0' <= c && c <= '9') || c == '_' || c
        == '-'
}

/// Whether a string may be the name of a tool upstream.
pub open spec fn name_ok(name: Seq<char>) -> bool {
    0 < name.len() <= 64 && forall|i: int| 0 <= i < name.len() ==> name_char(#[trigger] name[i])
}

/// Whether a string may be the name of a tool upstream: up to 64 ASCII letters, digits, `_` and
/// `-`.
pub fn valid_anthropic_tool_name(name: &str) -> (r: bool)
    ensures
        r == name_ok(name@),
{
    let cs = chars_of(name);
    if cs.len() == 0 || cs.len() > 64 {
        return false;
    }
    let mut i: usize = 0;
    while i < cs.len()
        invariant
            cs@ == name@,
            i <= cs.len(),
            forall|j: int| 0 <= j < i ==> name_char(#[trigger] name@[j]),
        decreases cs.len() - i,
    {
        let c = cs[i];
        if !(('a' <= c && c <= 'z') || ('A' <= c && c <= 'Z') || ('0' <= c && c <= '9') || c == '_'
            || c == '-') {
            assert(!name_char(name@[i as int]));
            return false;
        }
        i = i + 1;
    }
    true
}

/// What a wrapped tool is described as: by its full name, then by its namespace's description and
/// its own, as far as there are any.
pub open spec fn description_of(
    namespace: Option<(Seq<char>, Seq<char>)>,
    name: Seq<char>,
    description: Option<Seq<char>>,
) -> Seq<char> {
    let qualified = match namespace {
        Some((namespace, _)) => namespace + "."@ + name,
        None => name,
    };
    "Responses tool "@ + qualified + "."@ + spaced(
        match namespace {
            Some((_, d)) => Some(d),
            None => None,
        },
    ) + spaced(description)
}

/// A string after a space, where there is one and it is not empty.
pub open spec fn spaced(s: Option<Seq<char>>) -> Seq<char> {
    match s {
        Some(s) => if s.len() > 0 {
            " "@ + s
        } else {
            Seq::empty()
        },
        None => Seq::empty(),
    }
}

fn append_spaced(text: String, s: Option<&str>) -> (r: String)
    ensures
        r@ == text@ + spaced(text_of(s)),
{
    match s {
        Some(s) => if !blank(s) {
            let r = text.concat(" ").concat(s);
            assert(r@ == text@ + (" "@ + s@));
            r
        } else {
            assert(text@ + Seq::<char>::empty() == text@);
            text
        },
        None => {
            assert(text@ + Seq::<char>::empty() == text@);
            text
        },
    }
}

/// The namespace of a tool: its name and its description.
pub open spec fn namespace_of(namespace: Option<(&str, &str)>) -> Option<(Seq<char>, Seq<char>)> {
    match namespace {
        Some((name, description)) => Some((name@, description@)),
        None => None,
    }
}

/// What a wrapped tool is described as.
pub fn wrapped_tool_description(
    namespace: Option<(&str, &str)>,
    name: &str,
    description: Option<&str>,
) -> (r: String)
    ensures
        r@ == description_of(namespace_of(namespace), name@, text_of(description)),
{
    let qualified = match namespace {
        Some((namespace, _)) => owned(namespace).concat(".").concat(name),
        None => owned(name),
    };
    let head = join("Responses tool ", qualified.as_str()).concat(".");
    let with_namespace = append_spaced(
        head,
        match namespace {
            Some((_, d)) => Some(d),
            None => None,
        },
    );
    append_spaced(with_namespace, description)
}

/// The string in a field that may be absent. None where it is anything else.
pub open spec fn optional_text(fields: Fields, name: Seq<char>) -> Option<Option<Seq<char>>> {
    match field(fields, name) {
        None => Some(None),
        Some(JsonView::Text(s)) => Some(Some(s)),
        _ => None,
    }
}

/// The string in a field that may be absent.
pub fn optional_string<'a>(object: &'a Object, name: &str) -> (r: Result<Option<&'a str>, AIError>)
    ensures
        match optional_text(object@, name@) {
            Some(s) => r is Ok && text_of(r->Ok_0) == s,
            None => r is Err && r->Err_0 == bad_declaration(),
        },
{
    match object.get(name) {
        None => Ok(None),
        Some(Json::Text(s)) => Ok(Some(s.as_str())),
        Some(_) => Err(invalid_tool_declaration()),
    }
}

/// The string in a field, which may not be empty.
pub fn required_nonempty_string<'a>(object: &'a Object, name: &str) -> (r: Result<
    &'a str,
    AIError,
>)
    ensures
        if nonempty(object@, name@) {
            r is Ok && text_field(object@, name@) == Some(r->Ok_0@)
        } else {
            r is Err && r->Err_0 == bad_declaration()
        },
{
    match object.text(name) {
        Some(s) => if blank(s) {
            Err(invalid_tool_declaration())
        } else {
            Ok(s)
        },
        None => Err(invalid_tool_declaration()),
    }
}

/// What is declared once a key is taken. None where it was taken before.
pub open spec fn keyed(d: DeclView, key: Seq<char>) -> Option<DeclView> {
    if d.keys.contains(key) {
        None
    } else {
        Some(DeclaredSoFarOf { tools: d.tools, state: d.state, keys: d.keys.push(key) })
    }
}

/// The name that a wrapped tool has upstream: what it is and its place.
pub open spec fn upstream_name_of(token: Seq<char>, place: nat) -> Seq<char> {
    "agentgateway__responses__"@ + token + "_"@ + decimal(place)
}

/// What is declared with one more tool.
pub open spec fn tooled(
    d: DeclView,
    tool: ToolView,
    declared: DeclaredOf<Seq<char>>,
) -> DeclView {
    DeclaredSoFarOf {
        tools: d.tools.push(tool),
        state: tool_put(d.state, tool.name, declared),
        keys: d.keys,
    }
}

/// What is declared with one more wrapped tool.
pub open spec fn wrapped_added(
    d: DeclView,
    kind: WrappedKind,
    token: Seq<char>,
    name: Seq<char>,
    namespace: Option<Seq<char>>,
    description: Seq<char>,
    input_schema: JsonView,
) -> DeclView {
    tooled(
        d,
        ToolOf {
            name: upstream_name_of(token, d.tools.len()),
            description: Some(description),
            input_schema,
        },
        DeclaredOf::Wrapped(WrappedOf { kind, name, namespace }),
    )
}

impl DeclaredSoFarOf<Vec<Tool>, State, Vec<String>> {
    fn take_key(&mut self, key: String) -> (r: bool)
        ensures
            match keyed(old(self)@, key@) {
                Some(d) => r && final(self)@ == d,
                None => !r && *final(self) == *old(self),
            },
    {
        if holds(&self.keys, key.as_str()) {
            return false;
        }
        let ghost before = self.keys@;
        self.keys.push(key);
        assert(texts(self.keys@) == texts(before).push(key@));
        true
    }

    fn add_tool(&mut self, tool: Tool, declared: DeclaredOf<String>)
        ensures
            final(self)@ == tooled(old(self)@, tool@, declared@),
    {
        let name = owned(tool.name.as_str());
        let ghost before = self.tools@;
        self.tools.push(tool);
        assert(tool_views(self.tools@) == tool_views(before).push(tool@));
        self.state.insert(name, declared);
    }

    /// Declares a wrapped tool.
    pub fn add_wrapped_tool(
        &mut self,
        kind: WrappedKind,
        token: &str,
        name: &str,
        namespace: Option<&str>,
        description: String,
        input_schema: Json,
    )
        ensures
            final(self)@ == wrapped_added(
                old(self)@,
                kind,
                token@,
                name@,
                text_of(namespace),
                description@,
                input_schema@,
            ),
    {
        let place = decimal_text(self.tools.len() as u64);
        let upstream = join("agentgateway__responses__", token).concat("_").concat(
            place.as_str(),
        );
        let tool = ToolOf { name: upstream, description: Some(description), input_schema };
        let declared = DeclaredOf::Wrapped(
            WrappedOf { kind, name: owned(name), namespace: owned_opt(namespace) },
        );
        self.add_tool(tool, declared);
    }
}

/// The schema of a function that is declared without one: any object.
pub open spec fn any_object() -> JsonView {
    JsonView::object().with("type"@, JsonView::Text("object"@))
}

/// What is declared with one more function. None where it cannot be declared: it asks for what
/// has no counterpart, its parameters are no object, its name is taken or, outside a namespace,
/// is no name upstream or one that wrapped tools have.
pub open spec fn function_added(
    d: DeclView,
    o: Fields,
    namespace: Option<(Seq<char>, Seq<char>)>,
) -> Option<DeclView> {
    let description = optional_text(o, "description"@);
    let parameters = match field(o, "parameters"@) {
        Some(p) => p,
        None => any_object(),
    };
    if !only(o, seq!["type", "name", "description", "parameters", "strict", "defer_loading"])
        || !off(field(o, "strict"@)) || !off(field(o, "defer_loading"@)) || !nonempty(o, "name"@)
        || description is None || !(parameters is Object) {
        None
    } else {
        let name = text_field(o, "name"@)->0;
        match namespace {
            Some((ns, ns_description)) => match keyed(
                d,
                "namespace_function:"@ + ns + ":"@ + name,
            ) {
                Some(d) => Some(
                    wrapped_added(
                        d,
                        WrappedKind::NamespaceFunction,
                        "namespace_function"@,
                        name,
                        Some(ns),
                        description_of(namespace, name, description->0),
                        wrapped_schema("arguments"@, parameters),
                    ),
                ),
                None => None,
            },
            None => if !name_ok(name) || "agentgateway__responses__"@.is_prefix_of(name) {
                None
            } else {
                match keyed(d, "function:"@ + name) {
                    Some(d) => Some(
                        tooled(
                            d,
                            ToolOf { name, description: description->0, input_schema: parameters },
                            DeclaredOf::Function,
                        ),
                    ),
                    None => None,
                }
            },
        }
    }
}

/// Whether a declaration came to what is due.
pub open spec fn declares(due: Option<DeclView>, after: DeclView, r: Result<(), AIError>) -> bool {
    match due {
        Some(d) => r is Ok && after == d,
        None => r is Err && r->Err_0 == bad_declaration(),
    }
}

/// Declares a function.
pub fn add_function_tool(
    d: &mut Declarations,
    object: &Object,
    namespace: Option<(&str, &str)>,
) -> (r: Result<(), AIError>)
    ensures
        declares(function_added(old(d)@, object@, namespace_of(namespace)), final(d)@, r),
{
    if object.has_unknown_field(
        &["type", "name", "description", "parameters", "strict", "defer_loading"],
    ) || !absent_or_false(object.get("strict")) || !absent_or_false(object.get("defer_loading")) {
        return Err(invalid_tool_declaration());
    }
    let name = match required_nonempty_string(object, "name") {
        Ok(name) => name,
        Err(e) => return Err(e),
    };
    let description = match optional_string(object, "description") {
        Ok(description) => description,
        Err(e) => return Err(e),
    };
    let parameters = match object.get("parameters") {
        Some(p) => p.copy(),
        None => Json::object().with("type", Json::text("object")),
    };
    match &parameters {
        Json::Object(_) => {},
        _ => {
            assert(!(parameters@ is Object));
            return Err(invalid_tool_declaration());
        },
    }
    match namespace {
        Some((ns, _)) => {
            let key = join("namespace_function:", ns).concat(":").concat(name);
            if !d.take_key(key) {
                return Err(invalid_tool_declaration());
            }
            let text = wrapped_tool_description(namespace, name, description);
            let schema = wrapper_schema(WrappedKind::NamespaceFunction.field_name(), &parameters);
            d.add_wrapped_tool(
                WrappedKind::NamespaceFunction,
                "namespace_function",
                name,
                Some(ns),
                text,
                schema,
            );
        },
        None => {
            if !valid_anthropic_tool_name(name) || begins_with(name, "agentgateway__responses__")
                || !d.take_key(join("function:", name)) {
                return Err(invalid_tool_declaration());
            }
            d.add_tool(
                ToolOf {
                    name: owned(name),
                    description: owned_opt(description),
                    input_schema: parameters,
                },
                DeclaredOf::Function,
            );
        },
    }
    Ok(())
}

/// Whether a format is absent or is plain text.
pub open spec fn plain_format(v: Option<JsonView>) -> bool {
    match v {
        None => true,
        Some(JsonView::Object(fields)) => fields.len() == 1 && text_field(fields, "type"@) == Some(
            "text"@,
        ),
        _ => false,
    }
}

/// The schema of free text.
pub open spec fn any_text() -> JsonView {
    JsonView::object().with("type"@, JsonView::Text("string"@))
}

/// What is declared with one more tool that takes free text. None where it cannot be declared.
pub open spec fn custom_added(
    d: DeclView,
    o: Fields,
    namespace: Option<(Seq<char>, Seq<char>)>,
) -> Option<DeclView> {
    let description = optional_text(o, "description"@);
    if !only(o, seq!["type", "name", "description", "format", "defer_loading"]) || !off(
        field(o, "defer_loading"@),
    ) || !plain_format(field(o, "format"@)) || !nonempty(o, "name"@) || description is None {
        None
    } else {
        let name = text_field(o, "name"@)->0;
        let told = description_of(namespace, name, description->0);
        let schema = wrapped_schema("input"@, any_text());
        match namespace {
            Some((ns, _)) => match keyed(d, "namespace_custom:"@ + ns + ":"@ + name) {
                Some(d) => Some(
                    wrapped_added(
                        d,
                        WrappedKind::NamespaceCustom,
                        "namespace_custom"@,
                        name,
                        Some(ns),
                        told,
                        schema,
                    ),
                ),
                None => None,
            },
            None => match keyed(d, "custom:"@ + name) {
                Some(d) => Some(
                    wrapped_added(d, WrappedKind::Custom, "custom"@, name, None, told, schema),
                ),
                None => None,
            },
        }
    }
}

/// Declares a tool that takes free text.
pub fn add_custom_tool(
    d: &mut Declarations,
    object: &Object,
    namespace: Option<(&str, &str)>,
) -> (r: Result<(), AIError>)
    ensures
        declares(custom_added(old(d)@, object@, namespace_of(namespace)), final(d)@, r),
{
    if object.has_unknown_field(&["type", "name", "description", "format", "defer_loading"])
        || !absent_or_false(object.get("defer_loading")) {
        return Err(invalid_tool_declaration());
    }
    let plain = match object.get("format") {
        None => true,
        Some(Json::Object(format)) => format.len() == 1 && match format.text("type") {
            Some(kind) => same(kind, "text"),
            None => false,
        },
        _ => false,
    };
    if !plain {
        return Err(invalid_tool_declaration());
    }
    let name = match required_nonempty_string(object, "name") {
        Ok(name) => name,
        Err(e) => return Err(e),
    };
    let description = match optional_string(object, "description") {
        Ok(description) => description,
        Err(e) => return Err(e),
    };
    let (kind, token, key, ns) = match namespace {
        Some((ns, _)) => (
            WrappedKind::NamespaceCustom,
            "namespace_custom",
            join("namespace_custom:", ns).concat(":").concat(name),
            Some(ns),
        ),
        None => (WrappedKind::Custom, "custom", join("custom:", name), None),
    };
    if !d.take_key(key) {
        return Err(invalid_tool_declaration());
    }
    let text = wrapped_tool_description(namespace, name, description);
    let inner = Json::object().with("type", Json::text("string"));
    let schema = wrapper_schema(kind.field_name(), &inner);
    d.add_wrapped_tool(kind, token, name, ns, text, schema);
    Ok(())
}

/// A list of strings.
pub open spec fn names_json(names: Seq<&str>) -> JsonView {
    JsonView::Array(names.map_values(|s: &str| JsonView::Text(s@)))
}

fn name_list(names: &[&str]) -> (r: Json)
    ensures
        r@ == names_json(names@),
{
    let mut list: Vec<Json> = Vec::new();
    let mut i: usize = 0;
    while i < names.len()
        invariant
            i <= names.len(),
            list.len() == i,
            forall|j: int| 0 <= j < i ==> (#[trigger] list@[j])@ == JsonView::Text(names@[j]@),
        decreases names.len() - i,
    {
        list.push(Json::text(names[i]));
        i = i + 1;
    }
    assert(views(list@) == names@.map_values(|s: &str| JsonView::Text(s@)));
    Json::Array(list)
}

/// The schema of a value of one type.
pub open spec fn typed_json(kind: Seq<char>) -> JsonView {
    JsonView::object().with("type"@, JsonView::Text(kind))
}

fn typed(kind: &str) -> (r: Json)
    ensures
        r@ == typed_json(kind@),
{
    Json::object().with("type", Json::text(kind))
}

/// The schema of a list of strings.
pub open spec fn strings_json() -> JsonView {
    typed_json("array"@).with("items"@, typed_json("string"@))
}

/// The schema of a count that may be null.
pub open spec fn maybe_count_json() -> JsonView {
    JsonView::object().with("type"@, names_json(seq!["integer", "null"])).with(
        "minimum"@,
        JsonView::Unsigned(0),
    )
}

/// The schema of a string that may be null.
pub open spec fn maybe_string_json() -> JsonView {
    JsonView::object().with("type"@, names_json(seq!["string", "null"]))
}

fn strings_schema() -> (r: Json)
    ensures
        r@ == strings_json(),
{
    typed("array").with("items", typed("string"))
}

fn maybe_count_schema() -> (r: Json)
    ensures
        r@ == maybe_count_json(),
{
    let kinds = ["integer", "null"];
    assert(kinds@ == seq!["integer", "null"]);
    Json::object().with("type", name_list(&kinds)).with("minimum", Json::Unsigned(0))
}

fn maybe_string_schema() -> (r: Json)
    ensures
        r@ == maybe_string_json(),
{
    let kinds = ["string", "null"];
    assert(kinds@ == seq!["string", "null"]);
    Json::object().with("type", name_list(&kinds))
}

/// The schema of an object with these fields and no others.
pub open spec fn closed_object(properties: JsonView, required: Seq<&str>) -> JsonView {
    typed_json("object"@).with("properties"@, properties).with(
        "required"@,
        names_json(required),
    ).with("additionalProperties"@, JsonView::Bool(false))
}

fn closed_object_schema(properties: Json, required: &[&str]) -> (r: Json)
    ensures
        r@ == closed_object(properties@, required@),
{
    typed("object").with("properties", properties).with("required", name_list(required)).with(
        "additionalProperties",
        Json::Bool(false),
    )
}

/// The schema of a local shell's input.
pub open spec fn local_shell_json() -> JsonView {
    wrapped_schema(
        "action"@,
        closed_object(
            JsonView::object().with("command"@, strings_json()).with(
                "env"@,
                typed_json("object"@).with("additionalProperties"@, typed_json("string"@)),
            ).with("timeout_ms"@, maybe_count_json()).with("user"@, maybe_string_json()).with(
                "working_directory"@,
                maybe_string_json(),
            ),
            seq!["command", "env"],
        ),
    )
}

/// The schema of a local shell's input.
pub fn local_shell_schema() -> (r: Json)
    ensures
        r@ == local_shell_json(),
{
    let properties = Json::object().with("command", strings_schema()).with(
        "env",
        typed("object").with("additionalProperties", typed("string")),
    ).with("timeout_ms", maybe_count_schema()).with("user", maybe_string_schema()).with(
        "working_directory",
        maybe_string_schema(),
    );
    let required = ["command", "env"];
    assert(required@ == seq!["command", "env"]);
    wrapper_schema(
        WrappedKind::LocalShell.field_name(),
        &closed_object_schema(properties, &required),
    )
}

/// The schema of a shell's input.
pub open spec fn shell_json() -> JsonView {
    wrapped_schema(
        "action"@,
        closed_object(
            JsonView::object().with("commands"@, strings_json()).with(
                "timeout_ms"@,
                maybe_count_json(),
            ).with("max_output_length"@, maybe_count_json()),
            seq!["commands"],
        ),
    )
}

/// The schema of a shell's input.
pub fn shell_schema() -> (r: Json)
    ensures
        r@ == shell_json(),
{
    let properties = Json::object().with("commands", strings_schema()).with(
        "timeout_ms",
        maybe_count_schema(),
    ).with("max_output_length", maybe_count_schema());
    let required = ["commands"];
    assert(required@ == seq!["commands"]);
    wrapper_schema(WrappedKind::Shell.field_name(), &closed_object_schema(properties, &required))
}

/// The schema of one way to patch a file, with or without a difference.
pub open spec fn patch_way(kind: Seq<char>, with_diff: bool) -> JsonView {
    let properties = JsonView::object().with(
        "type"@,
        JsonView::object().with("const"@, JsonView::Text(kind)),
    ).with("path"@, typed_json("string"@));
    if with_diff {
        closed_object(
            properties.with("diff"@, typed_json("string"@)),
            seq!["type", "path", "diff"],
        )
    } else {
        closed_object(properties, seq!["type", "path"])
    }
}

fn patch_way_schema(kind: &str, with_diff: bool) -> (r: Json)
    ensures
        r@ == patch_way(kind@, with_diff),
{
    let properties = Json::object().with(
        "type",
        Json::object().with("const", Json::text(kind)),
    ).with("path", typed("string"));
    if with_diff {
        let required = ["type", "path", "diff"];
        assert(required@ == seq!["type", "path", "diff"]);
        closed_object_schema(properties.with("diff", typed("string")), &required)
    } else {
        let required = ["type", "path"];
        assert(required@ == seq!["type", "path"]);
        closed_object_schema(properties, &required)
    }
}

/// The schema of a patch's input.
pub open spec fn apply_patch_json() -> JsonView {
    wrapped_schema(
        "operation"@,
        JsonView::object().with(
            "oneOf"@,
            JsonView::Array(
                seq![
                    patch_way("create_file"@, true),
                    patch_way("delete_file"@, false),
                    patch_way("update_file"@, true),
                ],
            ),
        ),
    )
}

/// The schema of a patch's input.
pub fn apply_patch_schema() -> (r: Json)
    ensures
        r@ == apply_patch_json(),
{
    let mut ways: Vec<Json> = Vec::new();
    ways.push(patch_way_schema("create_file", true));
    ways.push(patch_way_schema("delete_file", false));
    ways.push(patch_way_schema("update_file", true));
    assert(views(ways@) == seq![
        patch_way("create_file"@, true),
        patch_way("delete_file"@, false),
        patch_way("update_file"@, true),
    ]);
    wrapper_schema(
        WrappedKind::ApplyPatch.field_name(),
        &Json::object().with("oneOf", Json::Array(ways)),
    )
}

/// The name of a tool that comes without one.
pub open spec fn unit_token(kind: WrappedKind) -> Seq<char> {
    match kind {
        WrappedKind::LocalShell => "local_shell"@,
        WrappedKind::Shell => "shell"@,
        _ => "apply_patch"@,
    }
}

/// What a tool that comes without a description is described as.
pub open spec fn unit_description(kind: WrappedKind) -> Seq<char> {
    match kind {
        WrappedKind::LocalShell =>
            "Execute one command on the client's local computer. Provide command as an argv array, env as string environment variables, and optional timeout_ms, user, and working_directory."@,
        WrappedKind::Shell =>
            "Execute one or more shell command strings in order on the client's local computer. Optional timeout_ms and max_output_length values limit total execution time and captured output."@,
        _ =>
            "Create, delete, or update one file in the client's local workspace. Create and update operations use path and diff. Delete operations use path."@,
    }
}

/// The schema of the input of a tool that comes without one.
pub open spec fn unit_schema(kind: WrappedKind) -> JsonView {
    match kind {
        WrappedKind::LocalShell => local_shell_json(),
        WrappedKind::Shell => shell_json(),
        _ => apply_patch_json(),
    }
}

/// Whether a declaration says nothing but which tool it is; a shell must say that it is local.
pub open spec fn unit_ok(kind: WrappedKind, o: Fields) -> bool {
    if kind == WrappedKind::Shell {
        only(o, seq!["type", "environment"]) && field(o, "environment"@) is Some
            && local_environment(field(o, "environment"@)->0)
    } else {
        only(o, seq!["type"])
    }
}

/// What is declared with one more shell or patch tool. None where it cannot be declared.
pub open spec fn unit_added(d: DeclView, o: Fields, kind: WrappedKind) -> Option<DeclView> {
    match keyed(d, unit_token(kind)) {
        Some(d) => if unit_ok(kind, o) {
            Some(
                wrapped_added(
                    d,
                    kind,
                    unit_token(kind),
                    unit_token(kind),
                    None,
                    unit_description(kind),
                    unit_schema(kind),
                ),
            )
        } else {
            None
        },
        None => None,
    }
}

/// Declares a shell or patch tool.
pub fn add_unit_wrapped_tool(d: &mut Declarations, object: &Object, kind: WrappedKind) -> (r:
    Result<(), AIError>)
    requires
        crate::actions::has_action(kind),
    ensures
        declares(unit_added(old(d)@, object@, kind), final(d)@, r),
{
    let ok = if kind == WrappedKind::Shell {
        !object.has_unknown_field(&["type", "environment"]) && match object.get("environment") {
            Some(environment) => shell_environment_is_local(environment),
            None => false,
        }
    } else {
        let known = ["type"];
        let unknown = object.has_unknown_field(&known);
        assert(known@ == seq!["type"]);
        !unknown
    };
    let token = match kind {
        WrappedKind::LocalShell => "local_shell",
        WrappedKind::Shell => "shell",
        _ => "apply_patch",
    };
    if !ok || !d.take_key(owned(token)) {
        return Err(invalid_tool_declaration());
    }
    let (description, schema) = match kind {
        WrappedKind::LocalShell => (
            "Execute one command on the client's local computer. Provide command as an argv array, env as string environment variables, and optional timeout_ms, user, and working_directory.",
            local_shell_schema(),
        ),
        WrappedKind::Shell => (
            "Execute one or more shell command strings in order on the client's local computer. Optional timeout_ms and max_output_length values limit total execution time and captured output.",
            shell_schema(),
        ),
        _ => (
            "Create, delete, or update one file in the client's local workspace. Create and update operations use path and diff. Delete operations use path.",
            apply_patch_schema(),
        ),
    };
    d.add_wrapped_tool(kind, token, token, None, owned(description), schema);
    Ok(())
}

/// What is declared with the tools of a namespace, from the `i`th on.
pub open spec fn children_added(
    d: DeclView,
    children: Seq<JsonView>,
    i: int,
    namespace: (Seq<char>, Seq<char>),
) -> Option<DeclView>
    decreases children.len() - i,
{
    if i < 0 || i >= children.len() {
        Some(d)
    } else {
        match child_added(d, children[i], namespace) {
            Some(next) => children_added(next, children, i + 1, namespace),
            None => None,
        }
    }
}

/// What is declared with one tool of a namespace: a function or one that takes free text.
pub open spec fn child_added(
    d: DeclView,
    child: JsonView,
    namespace: (Seq<char>, Seq<char>),
) -> Option<DeclView> {
    match child {
        JsonView::Object(o) => {
            let kind = text_field(o, "type"@);
            if kind == Some("function"@) {
                function_added(d, o, Some(namespace))
            } else if kind == Some("custom"@) {
                custom_added(d, o, Some(namespace))
            } else {
                None
            }
        },
        _ => None,
    }
}

fn add_child(d: &mut Declarations, child: &Json, namespace: (&str, &str)) -> (r: Result<
    (),
    AIError,
>)
    ensures
        declares(child_added(old(d)@, child@, (namespace.0@, namespace.1@)), final(d)@, r),
{
    let object = match child {
        Json::Object(object) => object,
        _ => return Err(invalid_tool_declaration()),
    };
    match object.text("type") {
        Some(kind) => if same(kind, "function") {
            add_function_tool(d, object, Some(namespace))
        } else if same(kind, "custom") {
            add_custom_tool(d, object, Some(namespace))
        } else {
            Err(invalid_tool_declaration())
        },
        None => Err(invalid_tool_declaration()),
    }
}

/// What is declared with a namespace and its tools. None where it cannot be declared.
pub open spec fn namespace_added(d: DeclView, o: Fields) -> Option<DeclView> {
    if !only(o, seq!["type", "name", "description", "tools"]) || !nonempty(o, "name"@) {
        None
    } else {
        let name = text_field(o, "name"@)->0;
        match (
            keyed(d, "namespace:"@ + name),
            text_field(o, "description"@),
            field(o, "tools"@),
        ) {
            (Some(d), Some(description), Some(JsonView::Array(children))) => children_added(
                d,
                children,
                0,
                (name, description),
            ),
            _ => None,
        }
    }
}

fn add_namespace(d: &mut Declarations, object: &Object) -> (r: Result<(), AIError>)
    ensures
        declares(namespace_added(old(d)@, object@), final(d)@, r),
{
    if object.has_unknown_field(&["type", "name", "description", "tools"]) {
        return Err(invalid_tool_declaration());
    }
    let name = match required_nonempty_string(object, "name") {
        Ok(name) => name,
        Err(e) => return Err(e),
    };
    if !d.take_key(join("namespace:", name)) {
        return Err(invalid_tool_declaration());
    }
    let description = match object.text("description") {
        Some(description) => description,
        None => return Err(invalid_tool_declaration()),
    };
    let children = match object.get("tools") {
        Some(Json::Array(children)) => children,
        _ => return Err(invalid_tool_declaration()),
    };
    let ghost all = views(children@);
    let ghost ns = (name@, description@);
    let ghost due = children_added(d@, all, 0, ns);
    let mut i: usize = 0;
    while i < children.len()
        invariant
            i <= children.len(),
            all == views(children@),
            ns == (name@, description@),
            due == children_added(d@, all, i as int, ns),
            due == namespace_added(old(d)@, object@),
        decreases children.len() - i,
    {
        assert(all[i as int] == children@[i as int]@);
        match add_child(d, &children[i], (name, description)) {
            Ok(_) => {},
            Err(e) => return Err(e),
        }
        i = i + 1;
    }
    Ok(())
}

/// What is declared with one more definition, or why it cannot be.
pub open spec fn definition_added(d: DeclView, v: JsonView) -> Result<DeclView, AIError> {
    match v {
        JsonView::Object(o) => {
            let kind = text_field(o, "type"@);
            let added = if kind == Some("function"@) {
                function_added(d, o, None)
            } else if kind == Some("namespace"@) {
                namespace_added(d, o)
            } else if kind == Some("custom"@) {
                custom_added(d, o, None)
            } else if kind == Some("local_shell"@) {
                unit_added(d, o, WrappedKind::LocalShell)
            } else if kind == Some("shell"@) {
                unit_added(d, o, WrappedKind::Shell)
            } else if kind == Some("apply_patch"@) {
                unit_added(d, o, WrappedKind::ApplyPatch)
            } else {
                None
            };
            match added {
                Some(d) => Ok(d),
                None => if hosted_search(o) {
                    Err(unsupported(Unsupported::HostedWebSearch))
                } else {
                    Err(bad_declaration())
                },
            }
        },
        _ => Err(bad_declaration()),
    }
}

/// Whether a definition asks for a web search by the provider.
pub open spec fn hosted_search(o: Fields) -> bool {
    text_field(o, "type"@) == Some("web_search"@) && only(o, seq!["type", "external_web_access"])
        && field(o, "external_web_access"@) is Some && field(
        o,
        "external_web_access"@,
    )->0 is Bool
}

fn add_definition(d: &mut Declarations, definition: &Json) -> (r: Result<(), AIError>)
    ensures
        match definition_added(old(d)@, definition@) {
            Ok(due) => r is Ok && final(d)@ == due,
            Err(e) => r is Err && r->Err_0 == e,
        },
{
    let object = match definition {
        Json::Object(object) => object,
        _ => return Err(invalid_tool_declaration()),
    };
    let kind = match object.text("type") {
        Some(kind) => kind,
        None => return Err(invalid_tool_declaration()),
    };
    proof {
        lemma_kinds_differ();
    }
    if same(kind, "function") {
        add_function_tool(d, object, None)
    } else if same(kind, "namespace") {
        add_namespace(d, object)
    } else if same(kind, "custom") {
        add_custom_tool(d, object, None)
    } else if same(kind, "local_shell") {
        add_unit_wrapped_tool(d, object, WrappedKind::LocalShell)
    } else if same(kind, "shell") {
        add_unit_wrapped_tool(d, object, WrappedKind::Shell)
    } else if same(kind, "apply_patch") {
        add_unit_wrapped_tool(d, object, WrappedKind::ApplyPatch)
    } else if same(kind, "web_search") {
        let known = ["type", "external_web_access"];
        assert(known@ == seq!["type", "external_web_access"]);
        if !object.has_unknown_field(&known) {
            if let Some(Json::Bool(_)) = object.get("external_web_access") {
                return Err(refuse(Unsupported::HostedWebSearch));
            }
        }
        Err(invalid_tool_declaration())
    } else {
        Err(invalid_tool_declaration())
    }
}

proof fn lemma_kinds_differ()
    ensures
        "web_search"@ != "function"@,
        "web_search"@ != "namespace"@,
        "web_search"@ != "custom"@,
        "web_search"@ != "local_shell"@,
        "web_search"@ != "shell"@,
        "web_search"@ != "apply_patch"@,
{
    reveal_strlit("web_search");
    reveal_strlit("function");
    reveal_strlit("namespace");
    reveal_strlit("custom");
    reveal_strlit("local_shell");
    reveal_strlit("shell");
    reveal_strlit("apply_patch");
    assert("web_search"@.len() == 10);
    assert("function"@.len() == 8);
    assert("namespace"@.len() == 9);
    assert("custom"@.len() == 6);
    assert("local_shell"@.len() == 11);
    assert("shell"@.len() == 5);
    assert("apply_patch"@.len() == 11);
}

/// What is declared with definitions, from the `i`th on, or why one cannot be.
pub open spec fn definitions_added(d: DeclView, list: Seq<JsonView>, i: int) -> Result<
    DeclView,
    AIError,
>
    decreases list.len() - i,
{
    if i < 0 || i >= list.len() {
        Ok(d)
    } else {
        match definition_added(d, list[i]) {
            Ok(next) => definitions_added(next, list, i + 1),
            Err(e) => Err(e),
        }
    }
}

/// Nothing declared.
pub open spec fn nothing_declared() -> DeclView {
    DeclaredSoFarOf { tools: Seq::empty(), state: Seq::empty(), keys: Seq::empty() }
}

/// What the tools of a request come to upstream, or why they cannot be declared.
pub open spec fn tools_declared(raw: JsonView) -> Result<DeclView, AIError> {
    match raw.get("tools"@) {
        None => Ok(nothing_declared()),
        Some(JsonView::Array(list)) => definitions_added(nothing_declared(), list, 0),
        Some(_) => Err(bad_declaration()),
    }
}

/// Declares the tools of a request upstream.
pub fn translate_tools(raw: &Json) -> (r: Result<Declarations, AIError>)
    ensures
        match tools_declared(raw@) {
            Ok(d) => r is Ok && r->Ok_0@ == d,
            Err(e) => r is Err && r->Err_0 == e,
        },
{
    let mut d: Declarations = DeclaredSoFarOf {
        tools: Vec::new(),
        state: State::default(),
        keys: Vec::new(),
    };
    proof {
        assert(d@.tools == Seq::<ToolView>::empty());
        assert(d@.keys == Seq::<Seq<char>>::empty());
    }
    let list = match raw.get("tools") {
        None => return Ok(d),
        Some(Json::Array(list)) => list,
        Some(_) => return Err(invalid_tool_declaration()),
    };
    let ghost all = views(list@);
    let ghost due = definitions_added(d@, all, 0);
    let mut i: usize = 0;
    while i < list.len()
        invariant
            i <= list.len(),
            all == views(list@),
            due == definitions_added(d@, all, i as int),
            due == tools_declared(raw@),
        decreases list.len() - i,
    {
        assert(all[i as int] == list@[i as int]@);
        match add_definition(&mut d, &list[i]) {
            Ok(_) => {},
            Err(e) => return Err(e),
        }
        i = i + 1;
    }
    Ok(d)
}

} // verus!
