//! What holds of all tools that are declared upstream: they can be told apart by their names.
use vstd::prelude::*;

use crate::declare::{
    children_added, child_added, custom_added, definition_added, definitions_added, function_added,
    keyed, name_ok, namespace_added, nothing_declared, tooled, tools_declared, unit_added,
    unit_token, upstream_name_of, wrapped_added, DeclView,
};
use crate::json::{field, text_field, Fields, JsonView};
use crate::request_types::ToolView;
use crate::text::{decimal, digit};
use crate::tools::{lemma_place, names_distinct, place_from, tool_named, DeclaredOf, WrappedKind};

verus! {

/// What a wrapped tool is, as it stands in its name.
pub open spec fn token_of(kind: WrappedKind) -> Seq<char> {
    match kind {
        WrappedKind::NamespaceFunction => "namespace_function"@,
        WrappedKind::NamespaceCustom => "namespace_custom"@,
        WrappedKind::Custom => "custom"@,
        _ => unit_token(kind),
    }
}

/// Whether a tool is known by the name it has upstream. A function has its own name, which no
/// wrapped tool has; a wrapped tool has one made of what it is and of its place.
pub open spec fn known_by_name(d: DeclView, i: int) -> bool {
    let name = d.tools[i].name;
    &&& d.state[i].0 == name
    &&& match d.state[i].1 {
        DeclaredOf::Function => name_ok(name) && !"agentgateway__responses__"@.is_prefix_of(name)
            && d.keys.contains("function:"@ + name),
        DeclaredOf::Wrapped(w) => name == upstream_name_of(token_of(w.kind), i as nat),
    }
}

/// Whether every tool is known by the name it has upstream, and no two have the same.
pub open spec fn told_apart(d: DeclView) -> bool {
    &&& d.state.len() == d.tools.len()
    &&& forall|i: int| 0 <= i < d.tools.len() ==> #[trigger] known_by_name(d, i)
    &&& names_distinct(d.state)
}

/// Whether a character is a decimal digit.
pub open spec fn is_digit(c: char) -> bool {
    '0' <= c <= '9'
}

proof fn lemma_digits(n: nat)
    ensures
        decimal(n).len() >= 1,
        forall|i: int| 0 <= i < decimal(n).len() ==> is_digit(#[trigger] decimal(n)[i]),
    decreases n,
{
    if n >= 10 {
        lemma_digits(n / 10);
    }
}

proof fn lemma_decimal_distinct(a: nat, b: nat)
    requires
        decimal(a) == decimal(b),
    ensures
        a == b,
    decreases a,
{
    lemma_digits(a / 10);
    lemma_digits(b / 10);
    assert(decimal(a).last() == digit(a % 10));
    assert(decimal(b).last() == digit(b % 10));
    if a >= 10 && b >= 10 {
        assert(decimal(a / 10) == decimal(a).drop_last());
        assert(decimal(b / 10) == decimal(b).drop_last());
        lemma_decimal_distinct(a / 10, b / 10);
    }
}

/// The names of wrapped tools at different places differ.
proof fn lemma_places_differ(a: Seq<char>, b: Seq<char>, p: nat, q: nat)
    requires
        upstream_name_of(a, p) == upstream_name_of(b, q),
    ensures
        p == q,
{
    reveal_strlit("_");
    lemma_digits(p);
    lemma_digits(q);
    let s = upstream_name_of(a, p);
    let head = "agentgateway__responses__"@ + a + "_"@;
    let other = "agentgateway__responses__"@ + b + "_"@;
    assert(s == head + decimal(p));
    assert(s == other + decimal(q));
    assert(s[head.len() - 1] == '_');
    assert(s[other.len() - 1] == '_');
    if head.len() > other.len() {
        assert(s[head.len() - 1] == decimal(q)[head.len() - 1 - other.len()]);
    } else if other.len() > head.len() {
        assert(s[other.len() - 1] == decimal(p)[other.len() - 1 - head.len()]);
    }
    assert(decimal(p) == s.skip(head.len() as int));
    assert(decimal(q) == s.skip(other.len() as int));
    lemma_decimal_distinct(p, q);
}

proof fn lemma_has_prefix(token: Seq<char>, place: nat)
    ensures
        "agentgateway__responses__"@.is_prefix_of(upstream_name_of(token, place)),
{
    let prefix = "agentgateway__responses__"@;
    assert(upstream_name_of(token, place).subrange(0, prefix.len() as int) == prefix);
}

proof fn lemma_keyed(d: DeclView, key: Seq<char>)
    requires
        told_apart(d),
    ensures
        keyed(d, key) matches Some(after) ==> told_apart(after),
{
    match keyed(d, key) {
        Some(after) => {
            assert forall|i: int| 0 <= i < after.tools.len() implies #[trigger] known_by_name(
                after,
                i,
            ) by {
                assert(known_by_name(d, i));
                match d.state[i].1 {
                    DeclaredOf::Function => {
                        let own = "function:"@ + d.tools[i].name;
                        let k = choose|k: int| 0 <= k < d.keys.len() && d.keys[k] == own;
                        assert(after.keys[k] == own);
                    },
                    _ => {},
                }
            }
        },
        None => {},
    }
}

proof fn lemma_tooled(d: DeclView, tool: ToolView, declared: DeclaredOf<Seq<char>>)
    requires
        told_apart(d),
        forall|i: int| 0 <= i < d.tools.len() ==> (#[trigger] d.tools[i]).name != tool.name,
        known_by_name(tooled(d, tool, declared), d.tools.len() as int) || place_from(
            d.state,
            tool.name,
            0,
        ) is Some,
    ensures
        told_apart(tooled(d, tool, declared)),
{
    let after = tooled(d, tool, declared);
    lemma_place(d.state, tool.name, 0);
    match place_from(d.state, tool.name, 0) {
        Some(k) => {
            assert(known_by_name(d, k));
            assert(d.tools[k].name == tool.name);
        },
        None => {},
    }
    assert(after.state == d.state.push((tool.name, declared)));
    assert forall|i: int| 0 <= i < after.tools.len() implies #[trigger] known_by_name(after, i) by {
        if i < d.tools.len() {
            assert(known_by_name(d, i));
        }
    }
    assert(names_distinct(after.state)) by {
        assert forall|i: int, j: int| 0 <= i < j < after.state.len() implies #[trigger] after.state[i].0
            != #[trigger] after.state[j].0 by {
            assert(known_by_name(d, i));
        }
    }
}

proof fn lemma_wrapped(
    d: DeclView,
    kind: WrappedKind,
    name: Seq<char>,
    namespace: Option<Seq<char>>,
    description: Seq<char>,
    schema: JsonView,
)
    requires
        told_apart(d),
    ensures
        told_apart(
            wrapped_added(d, kind, token_of(kind), name, namespace, description, schema),
        ),
{
    let after = wrapped_added(d, kind, token_of(kind), name, namespace, description, schema);
    let place = d.tools.len();
    let own = upstream_name_of(token_of(kind), place);
    lemma_has_prefix(token_of(kind), place);
    assert forall|i: int| 0 <= i < d.tools.len() implies (#[trigger] d.tools[i]).name != own by {
        assert(known_by_name(d, i));
        match d.state[i].1 {
            DeclaredOf::Function => {},
            DeclaredOf::Wrapped(w) => {
                if d.tools[i].name == own {
                    lemma_places_differ(token_of(w.kind), token_of(kind), i as nat, place);
                }
            },
        }
    }
    lemma_place(d.state, own, 0);
    match place_from(d.state, own, 0) {
        Some(k) => {
            assert(known_by_name(d, k));
        },
        None => {
            assert(after.state[place as int].0 == own);
        },
    }
    lemma_tooled(d, after.tools.last(), after.state.last().1);
}

proof fn lemma_function(d: DeclView, o: Fields, namespace: Option<(Seq<char>, Seq<char>)>)
    requires
        told_apart(d),
    ensures
        function_added(d, o, namespace) matches Some(after) ==> told_apart(after),
{
    match function_added(d, o, namespace) {
        Some(after) => {
            let name = text_field(o, "name"@)->0;
            match namespace {
                Some((ns, _)) => {
                    let key = "namespace_function:"@ + ns + ":"@ + name;
                    lemma_keyed(d, key);
                    lemma_wrapped(
                        keyed(d, key)->0,
                        WrappedKind::NamespaceFunction,
                        name,
                        Some(ns),
                        after.tools.last().description->0,
                        after.tools.last().input_schema,
                    );
                },
                None => {
                    let key = "function:"@ + name;
                    lemma_keyed(d, key);
                    let d1 = keyed(d, key)->0;
                    let tool = after.tools.last();
                    assert(d1.keys.last() == key);
                    assert forall|i: int| 0 <= i < d1.tools.len() implies (#[trigger] d1.tools[i]).name
                        != name by {
                        assert(known_by_name(d, i));
                        match d.state[i].1 {
                            DeclaredOf::Function => {},
                            DeclaredOf::Wrapped(w) => {
                                lemma_has_prefix(token_of(w.kind), i as nat);
                            },
                        }
                    }
                    lemma_place(d1.state, name, 0);
                    lemma_tooled(d1, tool, DeclaredOf::Function);
                },
            }
        },
        None => {},
    }
}

proof fn lemma_custom(d: DeclView, o: Fields, namespace: Option<(Seq<char>, Seq<char>)>)
    requires
        told_apart(d),
    ensures
        custom_added(d, o, namespace) matches Some(after) ==> told_apart(after),
{
    match custom_added(d, o, namespace) {
        Some(after) => {
            let name = text_field(o, "name"@)->0;
            let (key, kind, space) = match namespace {
                Some((ns, _)) => (
                    "namespace_custom:"@ + ns + ":"@ + name,
                    WrappedKind::NamespaceCustom,
                    Some(ns),
                ),
                None => ("custom:"@ + name, WrappedKind::Custom, None),
            };
            lemma_keyed(d, key);
            lemma_wrapped(
                keyed(d, key)->0,
                kind,
                name,
                space,
                after.tools.last().description->0,
                after.tools.last().input_schema,
            );
        },
        None => {},
    }
}

proof fn lemma_unit(d: DeclView, o: Fields, kind: WrappedKind)
    requires
        told_apart(d),
        kind == WrappedKind::LocalShell || kind == WrappedKind::Shell || kind
            == WrappedKind::ApplyPatch,
    ensures
        unit_added(d, o, kind) matches Some(after) ==> told_apart(after),
{
    match unit_added(d, o, kind) {
        Some(after) => {
            lemma_keyed(d, unit_token(kind));
            lemma_wrapped(
                keyed(d, unit_token(kind))->0,
                kind,
                unit_token(kind),
                None,
                after.tools.last().description->0,
                after.tools.last().input_schema,
            );
        },
        None => {},
    }
}

proof fn lemma_children(
    d: DeclView,
    children: Seq<JsonView>,
    i: int,
    namespace: (Seq<char>, Seq<char>),
)
    requires
        told_apart(d),
    ensures
        children_added(d, children, i, namespace) matches Some(after) ==> told_apart(after),
    decreases children.len() - i,
{
    if 0 <= i < children.len() {
        match children[i] {
            JsonView::Object(o) => {
                lemma_function(d, o, Some(namespace));
                lemma_custom(d, o, Some(namespace));
            },
            _ => {},
        }
        match child_added(d, children[i], namespace) {
            Some(next) => {
                lemma_children(next, children, i + 1, namespace);
            },
            None => {},
        }
    }
}

proof fn lemma_definition(d: DeclView, v: JsonView)
    requires
        told_apart(d),
    ensures
        definition_added(d, v) matches Ok(after) ==> told_apart(after),
{
    match v {
        JsonView::Object(o) => {
            lemma_function(d, o, None);
            lemma_custom(d, o, None);
            lemma_unit(d, o, WrappedKind::LocalShell);
            lemma_unit(d, o, WrappedKind::Shell);
            lemma_unit(d, o, WrappedKind::ApplyPatch);
            match namespace_added(d, o) {
                Some(_) => {
                    let name = text_field(o, "name"@)->0;
                    lemma_keyed(d, "namespace:"@ + name);
                    match (text_field(o, "description"@), field(o, "tools"@)) {
                        (Some(description), Some(JsonView::Array(children))) => {
                            lemma_children(
                                keyed(d, "namespace:"@ + name)->0,
                                children,
                                0,
                                (name, description),
                            );
                        },
                        _ => {},
                    }
                },
                None => {},
            }
        },
        _ => {},
    }
}

proof fn lemma_definitions(d: DeclView, list: Seq<JsonView>, i: int)
    requires
        told_apart(d),
    ensures
        definitions_added(d, list, i) matches Ok(after) ==> told_apart(after),
    decreases list.len() - i,
{
    if 0 <= i < list.len() {
        lemma_definition(d, list[i]);
        match definition_added(d, list[i]) {
            Ok(next) => {
                lemma_definitions(next, list, i + 1);
            },
            Err(_) => {},
        }
    }
}

/// Every tool that a request declares upstream is known by its name when the answer comes: no two
/// have the same name, and nothing else is known. What the model calls can always be told apart
/// from other tools and from what it made up.
pub proof fn lemma_declared_tools_are_told_apart(raw: JsonView)
    ensures
        tools_declared(raw) matches Ok(d) ==> told_apart(d),
        tools_declared(raw) matches Ok(d) ==> forall|name: Seq<char>|
            (#[trigger] tool_named(d.state, name)) is Some ==> exists|i: int|
                0 <= i < d.tools.len() && (#[trigger] d.tools[i]).name == name && tool_named(
                    d.state,
                    name,
                ) == Some(d.state[i].1),
{
    assert(told_apart(nothing_declared()));
    match raw.get("tools"@) {
        Some(JsonView::Array(list)) => {
            lemma_definitions(nothing_declared(), list, 0);
        },
        _ => {},
    }
    match tools_declared(raw) {
        Ok(d) => {
            assert forall|name: Seq<char>| (#[trigger] tool_named(d.state, name)) is Some implies exists|
                i: int,
            |
                0 <= i < d.tools.len() && (#[trigger] d.tools[i]).name == name && tool_named(
                    d.state,
                    name,
                ) == Some(d.state[i].1) by {
                lemma_place(d.state, name, 0);
                let i = place_from(d.state, name, 0)->0;
                assert(known_by_name(d, i));
                assert(d.tools[i].name == name);
            }
        },
        Err(_) => {},
    }
}

} // verus!
