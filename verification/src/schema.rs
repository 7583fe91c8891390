//! Nesting a JSON schema into another: references to the root follow it.
use vstd::prelude::*;

use crate::json::{entry_views, field, views, Fields, Json, JsonView, Object};
use crate::text::{begins_with, blank, is_named, join3, named, owned, same, strip_prefix};

verus! {

broadcast use crate::json::lemma_array_view;

/// A reference as it reads once its schema stands at `prefix`: one to the root (`#`) or to a
/// place below it (`#/...`) follows, any other is left alone.
pub open spec fn moved_ref(r: Seq<char>, prefix: Seq<char>) -> Seq<char> {
    match crate::text::after_prefix(r, "#"@) {
        Some(rest) => if rest.len() == 0 || "/"@.is_prefix_of(rest) {
            "#"@ + prefix + rest
        } else {
            r
        },
        None => r,
    }
}

fn move_ref(r: &str, prefix: &str) -> (moved: String)
    ensures
        moved@ == moved_ref(r@, prefix@),
{
    match strip_prefix(r, "#") {
        Some(rest) => if blank(rest) || begins_with(rest, "/") {
            join3("#", prefix, rest)
        } else {
            owned(r)
        },
        None => owned(r),
    }
}

/// What a keyword of a schema holds.
#[derive(Debug, Clone, Copy, PartialEq, Eq, Structural)]
pub enum Holds {
    /// A reference.
    Reference,
    /// One schema.
    Schema,
    /// One schema, or one for each position.
    SchemaOrList,
    /// A list of schemas.
    List,
    /// Schemas by name.
    Names,
    /// Data that is no schema, whatever it looks like.
    Data,
}

/// What a keyword of a schema holds.
pub open spec fn keyword(name: Seq<char>) -> Holds {
    if named(seq!["$ref", "$recursiveRef"], name) {
        Holds::Reference
    } else if named(
        seq![
            "additionalProperties",
            "unevaluatedProperties",
            "unevaluatedItems",
            "propertyNames",
            "contains",
            "if",
            "then",
            "else",
            "not",
        ],
        name,
    ) {
        Holds::Schema
    } else if name == "items"@ {
        Holds::SchemaOrList
    } else if named(seq!["allOf", "anyOf", "oneOf", "prefixItems"], name) {
        Holds::List
    } else if named(
        seq!["properties", "patternProperties", "$defs", "definitions", "dependentSchemas"],
        name,
    ) {
        Holds::Names
    } else {
        Holds::Data
    }
}

fn keyword_of(name: &str) -> (r: Holds)
    ensures
        r == keyword(name@),
{
    if is_named(&["$ref", "$recursiveRef"], name) {
        Holds::Reference
    } else if is_named(
        &[
            "additionalProperties",
            "unevaluatedProperties",
            "unevaluatedItems",
            "propertyNames",
            "contains",
            "if",
            "then",
            "else",
            "not",
        ],
        name,
    ) {
        Holds::Schema
    } else if same(name, "items") {
        Holds::SchemaOrList
    } else if is_named(&["allOf", "anyOf", "oneOf", "prefixItems"], name) {
        Holds::List
    } else if is_named(
        &["properties", "patternProperties", "$defs", "definitions", "dependentSchemas"],
        name,
    ) {
        Holds::Names
    } else {
        Holds::Data
    }
}

/// A schema as it reads once it stands at `prefix`. A schema with an `$id` of its own is the root
/// of its references and is left alone.
pub open spec fn moved(v: JsonView, prefix: Seq<char>) -> JsonView
    decreases v, 0int,
{
    match v {
        JsonView::Object(fields) => if field(fields, "$id"@) is Some {
            v
        } else {
            JsonView::Object(
                Seq::new(
                    fields.len(),
                    |i: int|
                        if 0 <= i < fields.len() {
                            (fields[i].0, moved_field(fields[i].0, fields[i].1, prefix))
                        } else {
                            (Seq::empty(), JsonView::Null)
                        },
                ),
            )
        },
        _ => v,
    }
}

/// The value of a keyword as it reads once its schema stands at `prefix`.
pub open spec fn moved_field(name: Seq<char>, v: JsonView, prefix: Seq<char>) -> JsonView
    decreases v, 1int,
{
    match (keyword(name), v) {
        (Holds::Reference, JsonView::Text(r)) => JsonView::Text(moved_ref(r, prefix)),
        (Holds::Schema, _) => moved(v, prefix),
        (Holds::SchemaOrList, JsonView::Array(items)) => JsonView::Array(
            Seq::new(
                items.len(),
                |i: int|
                    if 0 <= i < items.len() {
                        moved(items[i], prefix)
                    } else {
                        JsonView::Null
                    },
            ),
        ),
        (Holds::SchemaOrList, _) => moved(v, prefix),
        (Holds::List, JsonView::Array(items)) => JsonView::Array(
            Seq::new(
                items.len(),
                |i: int|
                    if 0 <= i < items.len() {
                        moved(items[i], prefix)
                    } else {
                        JsonView::Null
                    },
            ),
        ),
        (Holds::Names, JsonView::Object(fields)) => JsonView::Object(
            Seq::new(
                fields.len(),
                |i: int|
                    if 0 <= i < fields.len() {
                        (fields[i].0, moved(fields[i].1, prefix))
                    } else {
                        (Seq::empty(), JsonView::Null)
                    },
            ),
        ),
        _ => v,
    }
}

/// Rewrites a schema for its new place: references to its root, or to a place below, are made to
/// point there again. Only what a keyword defines as a schema is gone into.
pub fn rewrite_wrapped_schema_refs(schema: &Json, prefix: &str) -> (r: Json)
    ensures
        r@ == moved(schema@, prefix@),
    decreases schema@, 0int,
{
    match schema {
        Json::Object(object) => {
            if object.has("$id") {
                return schema.copy();
            }
            let ghost fields = object@;
            let n: usize = object.len();
            let mut entries: Vec<(String, Json)> = Vec::new();
            let mut i: usize = 0;
            while i < n
                invariant
                    i <= n,
                    n == object@.len(),
                    fields == object@,
                    schema@ == JsonView::Object(fields),
                    entries.len() == i,
                    forall|j: int|
                        0 <= j < i ==> (#[trigger] entries@[j]).0@ == fields[j].0 && entries@[j].1@
                            == moved_field(fields[j].0, fields[j].1, prefix@),
                decreases n - i,
            {
                let name = object.name(i);
                assert(decreases_to!(schema@ => schema@->Object_0));
                assert(decreases_to!(fields => fields[i as int]));
                assert(decreases_to!(fields[i as int] => fields[i as int].1));
                let value = rewrite_keyword(name, object.value(i), prefix);
                entries.push((owned(name), value));
                i = i + 1;
            }
            proof {
                assert forall|a: int, b: int| 0 <= a < b < entry_views(entries@).len() implies (
                #[trigger] entry_views(entries@)[a]).0 != (#[trigger] entry_views(entries@)[b]).0 by {
                    assert(entry_views(entries@)[a].0 == fields[a].0);
                    assert(entry_views(entries@)[b].0 == fields[b].0);
                }
                assert(entry_views(entries@) == moved(schema@, prefix@)->Object_0);
            }
            Json::Object(Object::from_entries(entries))
        },
        _ => schema.copy(),
    }
}

fn rewrite_list(items: &Vec<Json>, prefix: &str) -> (r: Vec<Json>)
    ensures
        r.len() == items.len(),
        forall|i: int| 0 <= i < items.len() ==> (#[trigger] r@[i])@ == moved(items@[i]@, prefix@),
    decreases JsonView::Array(views(items@)), 0int,
{
    let ghost whole = JsonView::Array(views(items@));
    let mut list: Vec<Json> = Vec::new();
    let mut i: usize = 0;
    while i < items.len()
        invariant
            i <= items.len(),
            list.len() == i,
            whole == JsonView::Array(views(items@)),
            forall|j: int| 0 <= j < i ==> (#[trigger] list@[j])@ == moved(items@[j]@, prefix@),
        decreases items.len() - i,
    {
        assert(views(items@)[i as int] == items@[i as int]@);
        assert(decreases_to!(whole => whole->Array_0));
        assert(decreases_to!(whole->Array_0 => whole->Array_0[i as int]));
        list.push(rewrite_wrapped_schema_refs(&items[i], prefix));
        i = i + 1;
    }
    list
}

fn rewrite_keyword(name: &str, v: &Json, prefix: &str) -> (r: Json)
    ensures
        r@ == moved_field(name@, v@, prefix@),
    decreases v@, 1int,
{
    match (keyword_of(name), v) {
        (Holds::Reference, Json::Text(r)) => Json::Text(move_ref(r.as_str(), prefix)),
        (Holds::Schema, _) => rewrite_wrapped_schema_refs(v, prefix),
        (Holds::SchemaOrList, Json::Array(items)) | (Holds::List, Json::Array(items)) => {
            let list = rewrite_list(items, prefix);
            proof {
                assert(views(list@) == moved_field(name@, v@, prefix@)->Array_0);
            }
            Json::Array(list)
        },
        (Holds::SchemaOrList, _) => rewrite_wrapped_schema_refs(v, prefix),
        (Holds::Names, Json::Object(object)) => {
            let ghost fields = object@;
            let n: usize = object.len();
            let mut entries: Vec<(String, Json)> = Vec::new();
            let mut i: usize = 0;
            while i < n
                invariant
                    i <= n,
                    n == object@.len(),
                    fields == object@,
                    v@ == JsonView::Object(fields),
                    entries.len() == i,
                    forall|j: int|
                        0 <= j < i ==> (#[trigger] entries@[j]).0@ == fields[j].0 && entries@[j].1@
                            == moved(fields[j].1, prefix@),
                decreases n - i,
            {
                assert(decreases_to!(v@ => v@->Object_0));
                assert(decreases_to!(fields => fields[i as int]));
                assert(decreases_to!(fields[i as int] => fields[i as int].1));
                let value = rewrite_wrapped_schema_refs(object.value(i), prefix);
                entries.push((owned(object.name(i)), value));
                i = i + 1;
            }
            proof {
                assert forall|a: int, b: int| 0 <= a < b < entry_views(entries@).len() implies (
                #[trigger] entry_views(entries@)[a]).0 != (#[trigger] entry_views(entries@)[b]).0 by {
                    assert(entry_views(entries@)[a].0 == fields[a].0);
                    assert(entry_views(entries@)[b].0 == fields[b].0);
                }
                assert(entry_views(entries@) == moved_field(name@, v@, prefix@)->Object_0);
            }
            Json::Object(Object::from_entries(entries))
        },
        _ => v.copy(),
    }
}

/// A schema of an object with one field, which holds what another schema allows.
pub open spec fn wrapped_schema(field: Seq<char>, v: JsonView) -> JsonView {
    JsonView::object().with("type"@, JsonView::Text("object"@)).with(
        "properties"@,
        JsonView::object().with(field, moved(v, "/properties/"@ + field)),
    ).with("required"@, JsonView::Array(seq![JsonView::Text(field)])).with(
        "additionalProperties"@,
        JsonView::Bool(false),
    )
}

/// A schema of an object with one field, which holds what another schema allows.
pub fn wrapper_schema(field: &str, value: &Json) -> (r: Json)
    ensures
        r@ == wrapped_schema(field@, value@),
{
    let prefix = crate::text::join("/properties/", field);
    let inner = rewrite_wrapped_schema_refs(value, prefix.as_str());
    let mut required: Vec<Json> = Vec::new();
    required.push(Json::text(field));
    assert(views(required@) == seq![JsonView::Text(field@)]);
    Json::object().with("type", Json::text("object")).with(
        "properties",
        Json::object().with(field, inner),
    ).with("required", Json::Array(required)).with("additionalProperties", Json::Bool(false))
}

/// Moving the references of a schema keeps its fields in order under their names, and keeps what
/// is data as it is, whatever it looks like.
pub proof fn lemma_moving_keeps_names_and_data(fields: Fields, prefix: Seq<char>)
    ensures
        moved(JsonView::Object(fields), prefix) matches JsonView::Object(after) && after.len()
            == fields.len() && forall|i: int|
            0 <= i < fields.len() ==> (#[trigger] after[i]).0 == fields[i].0 && (keyword(
                fields[i].0,
            ) == Holds::Data ==> after[i].1 == fields[i].1),
{
}

/// A schema with an identifier of its own is left alone: its references are relative to itself.
pub proof fn lemma_identified_schema_stays(fields: Fields, prefix: Seq<char>)
    requires
        field(fields, "$id"@) is Some,
    ensures
        moved(JsonView::Object(fields), prefix) == JsonView::Object(fields),
{
}

/// Where a wrapped schema stands in its wrapper is what its references are moved to.
pub proof fn lemma_wrapped_schema_stands_at_prefix(name: Seq<char>, v: JsonView)
    ensures
        wrapped_schema(name, v).get("properties"@) matches Some(properties) && properties.get(name)
            == Some(moved(v, "/properties/"@ + name)),
{
    reveal_strlit("type");
    reveal_strlit("properties");
    reveal_strlit("required");
    reveal_strlit("additionalProperties");
    assert("type"@.len() == 4);
    assert("properties"@.len() == 10);
    assert("required"@.len() == 8);
    assert("additionalProperties"@.len() == 20);
    let inner = JsonView::object().with(name, moved(v, "/properties/"@ + name));
    let a = JsonView::object().with("type"@, JsonView::Text("object"@));
    let b = a.with("properties"@, inner);
    let required = JsonView::Array(seq![JsonView::Text(name)]);
    let c = b.with("required"@, required);
    crate::json::lemma_put_field(
        JsonView::object()->Object_0,
        name,
        moved(v, "/properties/"@ + name),
        name,
    );
    crate::json::lemma_put_field(a->Object_0, "properties"@, inner, "properties"@);
    crate::json::lemma_put_field(b->Object_0, "required"@, required, "properties"@);
    crate::json::lemma_put_field(
        c->Object_0,
        "additionalProperties"@,
        JsonView::Bool(false),
        "properties"@,
    );
}

} // verus!
