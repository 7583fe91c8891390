//! What holds of every schema that is nested into another: its references still lead where they
//! led.
use vstd::prelude::*;

use crate::json::{field, lemma_position, position_from, Fields, JsonView};
use crate::lookups::group_lookups;
use crate::schema::{keyword, moved, moved_field, moved_ref, wrapped_schema, Holds};
use crate::text::named;

verus! {

/// Whether a keyword holds one schema. `items` does, unless it holds a list.
pub open spec fn holds_one(name: Seq<char>) -> bool {
    ||| name == "additionalProperties"@
    ||| name == "unevaluatedProperties"@
    ||| name == "unevaluatedItems"@
    ||| name == "propertyNames"@
    ||| name == "contains"@
    ||| name == "if"@
    ||| name == "then"@
    ||| name == "else"@
    ||| name == "not"@
    ||| name == "items"@
}

/// Whether a keyword holds a list of schemas. `items` does where it holds a list.
pub open spec fn holds_list(name: Seq<char>) -> bool {
    ||| name == "allOf"@
    ||| name == "anyOf"@
    ||| name == "oneOf"@
    ||| name == "prefixItems"@
    ||| name == "items"@
}

/// Whether a keyword holds schemas by name.
pub open spec fn holds_names(name: Seq<char>) -> bool {
    ||| name == "properties"@
    ||| name == "patternProperties"@
    ||| name == "$defs"@
    ||| name == "definitions"@
    ||| name == "dependentSchemas"@
}

/// One step from a schema to one that stands in it.
pub enum Down {
    /// To the schema of a keyword that holds one.
    One(Seq<char>),
    /// To one of the schemas of a keyword that holds a list.
    Nth(Seq<char>, int),
    /// To the schema with a name, of a keyword that holds schemas by name.
    Named(Seq<char>, Seq<char>),
}

/// The schema to which one step leads. A schema with an identifier of its own is not entered.
pub open spec fn below(v: JsonView, step: Down) -> Option<JsonView> {
    if v.get("$id"@) is Some {
        None
    } else {
        match step {
            Down::One(k) => if holds_one(k) && !(k == "items"@ && v.get(k) matches Some(
                JsonView::Array(_),
            )) {
                v.get(k)
            } else {
                None
            },
            Down::Nth(k, i) => match v.get(k) {
                Some(JsonView::Array(items)) => if holds_list(k) && 0 <= i < items.len() {
                    Some(items[i])
                } else {
                    None
                },
                _ => None,
            },
            Down::Named(k, name) => if holds_names(k) {
                match v.get(k) {
                    Some(m) => m.get(name),
                    None => None,
                }
            } else {
                None
            },
        }
    }
}

/// The schema to which steps lead, one after the other.
pub open spec fn reached(v: JsonView, steps: Seq<Down>) -> Option<JsonView>
    decreases steps.len(),
{
    if steps.len() == 0 {
        Some(v)
    } else {
        match below(v, steps[0]) {
            Some(next) => reached(next, steps.drop_first()),
            None => None,
        }
    }
}

proof fn lemma_keyword(name: Seq<char>)
    ensures
        keyword(name) == Holds::Reference <==> name == "$ref"@ || name == "$recursiveRef"@,
        keyword(name) == Holds::SchemaOrList <==> name == "items"@,
        keyword(name) == Holds::Schema <==> holds_one(name) && name != "items"@,
        keyword(name) == Holds::List <==> holds_list(name) && name != "items"@,
        keyword(name) == Holds::Names <==> holds_names(name),
{
    lemma_keywords_differ();
    {
        let list = seq!["$ref", "$recursiveRef"];
        assert(list[0]@ == "$ref"@);
        assert(list[1]@ == "$recursiveRef"@);
        if named(list, name) {
            let i = choose|i: int| 0 <= i < list.len() && (#[trigger] list[i])@ == name;
        }
    }
    {
        let list = seq!["additionalProperties", "unevaluatedProperties", "unevaluatedItems", "propertyNames", "contains", "if", "then", "else", "not"];
        assert(list[0]@ == "additionalProperties"@);
        assert(list[1]@ == "unevaluatedProperties"@);
        assert(list[2]@ == "unevaluatedItems"@);
        assert(list[3]@ == "propertyNames"@);
        assert(list[4]@ == "contains"@);
        assert(list[5]@ == "if"@);
        assert(list[6]@ == "then"@);
        assert(list[7]@ == "else"@);
        assert(list[8]@ == "not"@);
        if named(list, name) {
            let i = choose|i: int| 0 <= i < list.len() && (#[trigger] list[i])@ == name;
        }
    }
    {
        let list = seq!["allOf", "anyOf", "oneOf", "prefixItems"];
        assert(list[0]@ == "allOf"@);
        assert(list[1]@ == "anyOf"@);
        assert(list[2]@ == "oneOf"@);
        assert(list[3]@ == "prefixItems"@);
        if named(list, name) {
            let i = choose|i: int| 0 <= i < list.len() && (#[trigger] list[i])@ == name;
        }
    }
    {
        let list = seq!["properties", "patternProperties", "$defs", "definitions", "dependentSchemas"];
        assert(list[0]@ == "properties"@);
        assert(list[1]@ == "patternProperties"@);
        assert(list[2]@ == "$defs"@);
        assert(list[3]@ == "definitions"@);
        assert(list[4]@ == "dependentSchemas"@);
        if named(list, name) {
            let i = choose|i: int| 0 <= i < list.len() && (#[trigger] list[i])@ == name;
        }
    }
}

proof fn lemma_moved_position(fields: Fields, prefix: Seq<char>, name: Seq<char>, n: int)
    requires
        field(fields, "$id"@) is None,
        0 <= n <= fields.len(),
    ensures
        moved(JsonView::Object(fields), prefix) matches JsonView::Object(after) && position_from(
            after,
            name,
            n,
        ) == position_from(fields, name, n),
    decreases fields.len() - n,
{
    if n < fields.len() && fields[n].0 != name {
        lemma_moved_position(fields, prefix, name, n + 1);
    }
}

proof fn lemma_moved_get(v: JsonView, prefix: Seq<char>, name: Seq<char>)
    requires
        v.get("$id"@) is None,
    ensures
        moved(v, prefix).get(name) == (match v.get(name) {
            Some(x) => Some(moved_field(name, x, prefix)),
            None => None,
        }),
{
    match v {
        JsonView::Object(fields) => {
            lemma_moved_position(fields, prefix, name, 0);
            lemma_position(fields, name, 0);
        },
        _ => {},
    }
}

proof fn lemma_names_position(fields: Fields, after: Fields, name: Seq<char>, n: int)
    requires
        after.len() == fields.len(),
        forall|i: int| 0 <= i < fields.len() ==> (#[trigger] after[i]).0 == fields[i].0,
        0 <= n <= fields.len(),
    ensures
        position_from(after, name, n) == position_from(fields, name, n),
    decreases fields.len() - n,
{
    if n < fields.len() {
        assert(after[n].0 == fields[n].0);
        if fields[n].0 != name {
            lemma_names_position(fields, after, name, n + 1);
        }
    }
}

proof fn lemma_below(v: JsonView, step: Down, prefix: Seq<char>)
    ensures
        below(v, step) matches Some(x) ==> below(moved(v, prefix), step) == Some(moved(x, prefix)),
{
    if below(v, step) is Some {
        lemma_moved_get(v, prefix, "$id"@);
        match step {
            Down::One(k) => {
                lemma_moved_get(v, prefix, k);
                lemma_keyword(k);
            },
            Down::Nth(k, i) => {
                lemma_moved_get(v, prefix, k);
                lemma_keyword(k);
            },
            Down::Named(k, name) => {
                lemma_moved_get(v, prefix, k);
                lemma_keyword(k);
                let m = v.get(k)->0->Object_0;
                let after = moved_field(k, v.get(k)->0, prefix)->Object_0;
                lemma_names_position(m, after, name, 0);
                lemma_position(m, name, 0);
            },
        }
    }
}

/// Wherever a schema stands in one that is moved, it stands at the same place in what that
/// becomes, moved too.
pub proof fn lemma_every_schema_is_moved(v: JsonView, steps: Seq<Down>, prefix: Seq<char>)
    ensures
        reached(v, steps) matches Some(x) ==> reached(moved(v, prefix), steps) == Some(
            moved(x, prefix),
        ),
    decreases steps.len(),
{
    if steps.len() > 0 {
        lemma_below(v, steps[0], prefix);
        match below(v, steps[0]) {
            Some(next) => {
                lemma_every_schema_is_moved(next, steps.drop_first(), prefix);
            },
            None => {},
        }
    }
}

/// Wherever a schema stands in one that is moved, its references to the root, or to a place
/// below it, have the prefix put in behind the hash sign, and its other references are left alone.
pub proof fn lemma_every_reference_is_moved(
    v: JsonView,
    steps: Seq<Down>,
    prefix: Seq<char>,
    keyword: Seq<char>,
    reference: Seq<char>,
)
    requires
        reached(v, steps) matches Some(x) && x.get("$id"@) is None && x.get(keyword) == Some(
            JsonView::Text(reference),
        ),
        keyword == "$ref"@ || keyword == "$recursiveRef"@,
    ensures
        reached(moved(v, prefix), steps) matches Some(y) && y.get(keyword) == Some(
            JsonView::Text(
                if reference == seq!['#'] || (reference.len() >= 2 && reference[0] == '#'
                    && reference[1] == '/') {
                    seq!['#'] + prefix + reference.skip(1)
                } else {
                    reference
                },
            ),
        ),
{
    lemma_every_schema_is_moved(v, steps, prefix);
    let x = reached(v, steps)->0;
    lemma_moved_get(x, prefix, keyword);
    lemma_keyword(keyword);
    reveal_strlit("#");
    reveal_strlit("/");
    assert("#"@ == seq!['#']);
    assert("/"@ == seq!['/']);
    if seq!['#'].is_prefix_of(reference) {
        let rest = reference.skip(1);
        assert(reference.subrange(0, 1)[0] == '#');
        if seq!['/'].is_prefix_of(rest) {
            assert(rest.subrange(0, 1)[0] == '/');
            assert(reference[1] == '/');
        }
        if reference.len() >= 2 && reference[1] == '/' {
            assert(rest[0] == '/');
            assert(seq!['/'].is_prefix_of(rest));
        }
        if rest.len() == 0 {
            assert(reference == seq!['#']);
        }
    } else {
        if reference.len() > 0 && reference[0] == '#' {
            assert(seq!['#'].is_prefix_of(reference));
        }
    }
}

/// What is neither a reference nor a schema is left as it is.
pub proof fn lemma_other_keywords_stay(v: JsonView, prefix: Seq<char>, name: Seq<char>)
    requires
        name != "$ref"@,
        name != "$recursiveRef"@,
        !holds_one(name),
        !holds_list(name),
        !holds_names(name),
    ensures
        moved(v, prefix).get(name) == v.get(name),
{
    if v.get("$id"@) is None {
        lemma_moved_get(v, prefix, name);
        lemma_keyword(name);
    }
}

/// A pointer: the names that lead from the root to a place, each after a slash.
pub open spec fn pointer(names: Seq<Seq<char>>) -> Seq<char>
    decreases names.len(),
{
    if names.len() == 0 {
        seq![]
    } else {
        pointer(names.drop_last()) + seq!['/'] + names.last()
    }
}

/// A reference leads to the place it led to, which now stands below where the schema was put.
pub proof fn lemma_reference_leads_where_it_led(place: Seq<Seq<char>>, names: Seq<Seq<char>>)
    ensures
        moved_ref(seq!['#'] + pointer(names), pointer(place)) == seq!['#'] + pointer(place + names),
    decreases names.len(),
{
    reveal_strlit("#");
    reveal_strlit("/");
    assert("#"@ == seq!['#']);
    assert("/"@ == seq!['/']);
    let r = seq!['#'] + pointer(names);
    assert(seq!['#'].is_prefix_of(r));
    assert(r.skip(1) == pointer(names));
    lemma_pointer_starts(names);
    lemma_pointers_join(place, names);
    assert(seq!['#'] + pointer(place) + pointer(names) == seq!['#'] + (pointer(place) + pointer(
        names,
    )));
}

proof fn lemma_pointer_starts(names: Seq<Seq<char>>)
    ensures
        names.len() > 0 ==> seq!['/'].is_prefix_of(pointer(names)),
        names.len() == 0 ==> pointer(names).len() == 0,
    decreases names.len(),
{
    if names.len() > 0 {
        let rest = names.drop_last();
        lemma_pointer_starts(rest);
        let whole = pointer(names);
        assert(whole[0] == '/') by {
            if rest.len() > 0 {
                assert(pointer(rest).subrange(0, 1)[0] == '/');
            }
        }
        assert(whole.subrange(0, 1) == seq!['/']);
    }
}

proof fn lemma_pointers_join(a: Seq<Seq<char>>, b: Seq<Seq<char>>)
    ensures
        pointer(a + b) == pointer(a) + pointer(b),
    decreases b.len(),
{
    if b.len() == 0 {
        assert(a + b == a);
        assert(pointer(a) + pointer(b) == pointer(a));
    } else {
        lemma_pointers_join(a, b.drop_last());
        assert((a + b).drop_last() == a + b.drop_last());
        assert((a + b).last() == b.last());
    }
}

/// A wrapper is the schema of an object that has one field, must have it and may have no other;
/// and under that field stands the wrapped schema, moved to where it stands.
pub proof fn lemma_wrapper(name: Seq<char>, v: JsonView)
    ensures
        ({
            let w = wrapped_schema(name, v);
            &&& w.get("type"@) == Some(JsonView::Text("object"@))
            &&& w.get("required"@) == Some(JsonView::Array(seq![JsonView::Text(name)]))
            &&& w.get("additionalProperties"@) == Some(JsonView::Bool(false))
            &&& w.get("properties"@) matches Some(JsonView::Object(properties)) && properties.len()
                == 1 && properties[0] == (name, moved(v, pointer(seq!["properties"@, name])))
        }),
{
    broadcast use group_lookups;

    lemma_wrapper_names();
    let place = pointer(seq!["properties"@, name]);
    assert(place == "/properties/"@ + name) by {
        let names = seq!["properties"@, name];
        reveal_with_fuel(pointer, 3);
        assert(names.drop_last() == seq!["properties"@]);
        assert(seq!["properties"@].drop_last() == Seq::<Seq<char>>::empty());
        reveal_strlit("/properties/");
        reveal_strlit("properties");
        assert("/properties/"@ == seq!['/'] + "properties"@ + seq!['/']);
        assert(place == seq![] + seq!['/'] + "properties"@ + seq!['/'] + name);
    }
    assert(JsonView::object().with(name, moved(v, place)) == JsonView::Object(
        seq![(name, moved(v, place))],
    )) by {
        assert(JsonView::object()->Object_0.push((name, moved(v, place))) == seq![
            (name, moved(v, place)),
        ]);
    }
}

proof fn lemma_wrapper_names()
    ensures
        "type"@ != "properties"@,
        "type"@ != "required"@,
        "type"@ != "additionalProperties"@,
        "properties"@ != "required"@,
        "properties"@ != "additionalProperties"@,
        "required"@ != "additionalProperties"@,
{
    reveal_strlit("type");
    reveal_strlit("properties");
    reveal_strlit("required");
    reveal_strlit("additionalProperties");
    assert("type"@.len() == 4);
    assert("properties"@.len() == 10);
    assert("required"@.len() == 8);
    assert("additionalProperties"@.len() == 20);
}

proof fn lemma_keywords_differ()
    ensures
        "$ref"@ != "$recursiveRef"@,
        "$ref"@ != "additionalProperties"@,
        "$ref"@ != "unevaluatedProperties"@,
        "$ref"@ != "unevaluatedItems"@,
        "$ref"@ != "propertyNames"@,
        "$ref"@ != "contains"@,
        "$ref"@ != "if"@,
        "$ref"@ != "then"@,
        "$ref"@ != "else"@,
        "$ref"@ != "not"@,
        "$ref"@ != "allOf"@,
        "$ref"@ != "anyOf"@,
        "$ref"@ != "oneOf"@,
        "$ref"@ != "prefixItems"@,
        "$ref"@ != "properties"@,
        "$ref"@ != "patternProperties"@,
        "$ref"@ != "$defs"@,
        "$ref"@ != "definitions"@,
        "$ref"@ != "dependentSchemas"@,
        "$ref"@ != "items"@,
        "$recursiveRef"@ != "additionalProperties"@,
        "$recursiveRef"@ != "unevaluatedProperties"@,
        "$recursiveRef"@ != "unevaluatedItems"@,
        "$recursiveRef"@ != "propertyNames"@,
        "$recursiveRef"@ != "contains"@,
        "$recursiveRef"@ != "if"@,
        "$recursiveRef"@ != "then"@,
        "$recursiveRef"@ != "else"@,
        "$recursiveRef"@ != "not"@,
        "$recursiveRef"@ != "allOf"@,
        "$recursiveRef"@ != "anyOf"@,
        "$recursiveRef"@ != "oneOf"@,
        "$recursiveRef"@ != "prefixItems"@,
        "$recursiveRef"@ != "properties"@,
        "$recursiveRef"@ != "patternProperties"@,
        "$recursiveRef"@ != "$defs"@,
        "$recursiveRef"@ != "definitions"@,
        "$recursiveRef"@ != "dependentSchemas"@,
        "$recursiveRef"@ != "items"@,
        "additionalProperties"@ != "unevaluatedProperties"@,
        "additionalProperties"@ != "unevaluatedItems"@,
        "additionalProperties"@ != "propertyNames"@,
        "additionalProperties"@ != "contains"@,
        "additionalProperties"@ != "if"@,
        "additionalProperties"@ != "then"@,
        "additionalProperties"@ != "else"@,
        "additionalProperties"@ != "not"@,
        "additionalProperties"@ != "allOf"@,
        "additionalProperties"@ != "anyOf"@,
        "additionalProperties"@ != "oneOf"@,
        "additionalProperties"@ != "prefixItems"@,
        "additionalProperties"@ != "properties"@,
        "additionalProperties"@ != "patternProperties"@,
        "additionalProperties"@ != "$defs"@,
        "additionalProperties"@ != "definitions"@,
        "additionalProperties"@ != "dependentSchemas"@,
        "additionalProperties"@ != "items"@,
        "unevaluatedProperties"@ != "unevaluatedItems"@,
        "unevaluatedProperties"@ != "propertyNames"@,
        "unevaluatedProperties"@ != "contains"@,
        "unevaluatedProperties"@ != "if"@,
        "unevaluatedProperties"@ != "then"@,
        "unevaluatedProperties"@ != "else"@,
        "unevaluatedProperties"@ != "not"@,
        "unevaluatedProperties"@ != "allOf"@,
        "unevaluatedProperties"@ != "anyOf"@,
        "unevaluatedProperties"@ != "oneOf"@,
        "unevaluatedProperties"@ != "prefixItems"@,
        "unevaluatedProperties"@ != "properties"@,
        "unevaluatedProperties"@ != "patternProperties"@,
        "unevaluatedProperties"@ != "$defs"@,
        "unevaluatedProperties"@ != "definitions"@,
        "unevaluatedProperties"@ != "dependentSchemas"@,
        "unevaluatedProperties"@ != "items"@,
        "unevaluatedItems"@ != "propertyNames"@,
        "unevaluatedItems"@ != "contains"@,
        "unevaluatedItems"@ != "if"@,
        "unevaluatedItems"@ != "then"@,
        "unevaluatedItems"@ != "else"@,
        "unevaluatedItems"@ != "not"@,
        "unevaluatedItems"@ != "allOf"@,
        "unevaluatedItems"@ != "anyOf"@,
        "unevaluatedItems"@ != "oneOf"@,
        "unevaluatedItems"@ != "prefixItems"@,
        "unevaluatedItems"@ != "properties"@,
        "unevaluatedItems"@ != "patternProperties"@,
        "unevaluatedItems"@ != "$defs"@,
        "unevaluatedItems"@ != "definitions"@,
        "unevaluatedItems"@ != "dependentSchemas"@,
        "unevaluatedItems"@ != "items"@,
        "propertyNames"@ != "contains"@,
        "propertyNames"@ != "if"@,
        "propertyNames"@ != "then"@,
        "propertyNames"@ != "else"@,
        "propertyNames"@ != "not"@,
        "propertyNames"@ != "allOf"@,
        "propertyNames"@ != "anyOf"@,
        "propertyNames"@ != "oneOf"@,
        "propertyNames"@ != "prefixItems"@,
        "propertyNames"@ != "properties"@,
        "propertyNames"@ != "patternProperties"@,
        "propertyNames"@ != "$defs"@,
        "propertyNames"@ != "definitions"@,
        "propertyNames"@ != "dependentSchemas"@,
        "propertyNames"@ != "items"@,
        "contains"@ != "if"@,
        "contains"@ != "then"@,
        "contains"@ != "else"@,
        "contains"@ != "not"@,
        "contains"@ != "allOf"@,
        "contains"@ != "anyOf"@,
        "contains"@ != "oneOf"@,
        "contains"@ != "prefixItems"@,
        "contains"@ != "properties"@,
        "contains"@ != "patternProperties"@,
        "contains"@ != "$defs"@,
        "contains"@ != "definitions"@,
        "contains"@ != "dependentSchemas"@,
        "contains"@ != "items"@,
        "if"@ != "then"@,
        "if"@ != "else"@,
        "if"@ != "not"@,
        "if"@ != "allOf"@,
        "if"@ != "anyOf"@,
        "if"@ != "oneOf"@,
        "if"@ != "prefixItems"@,
        "if"@ != "properties"@,
        "if"@ != "patternProperties"@,
        "if"@ != "$defs"@,
        "if"@ != "definitions"@,
        "if"@ != "dependentSchemas"@,
        "if"@ != "items"@,
        "then"@ != "else"@,
        "then"@ != "not"@,
        "then"@ != "allOf"@,
        "then"@ != "anyOf"@,
        "then"@ != "oneOf"@,
        "then"@ != "prefixItems"@,
        "then"@ != "properties"@,
        "then"@ != "patternProperties"@,
        "then"@ != "$defs"@,
        "then"@ != "definitions"@,
        "then"@ != "dependentSchemas"@,
        "then"@ != "items"@,
        "else"@ != "not"@,
        "else"@ != "allOf"@,
        "else"@ != "anyOf"@,
        "else"@ != "oneOf"@,
        "else"@ != "prefixItems"@,
        "else"@ != "properties"@,
        "else"@ != "patternProperties"@,
        "else"@ != "$defs"@,
        "else"@ != "definitions"@,
        "else"@ != "dependentSchemas"@,
        "else"@ != "items"@,
        "not"@ != "allOf"@,
        "not"@ != "anyOf"@,
        "not"@ != "oneOf"@,
        "not"@ != "prefixItems"@,
        "not"@ != "properties"@,
        "not"@ != "patternProperties"@,
        "not"@ != "$defs"@,
        "not"@ != "definitions"@,
        "not"@ != "dependentSchemas"@,
        "not"@ != "items"@,
        "allOf"@ != "anyOf"@,
        "allOf"@ != "oneOf"@,
        "allOf"@ != "prefixItems"@,
        "allOf"@ != "properties"@,
        "allOf"@ != "patternProperties"@,
        "allOf"@ != "$defs"@,
        "allOf"@ != "definitions"@,
        "allOf"@ != "dependentSchemas"@,
        "allOf"@ != "items"@,
        "anyOf"@ != "oneOf"@,
        "anyOf"@ != "prefixItems"@,
        "anyOf"@ != "properties"@,
        "anyOf"@ != "patternProperties"@,
        "anyOf"@ != "$defs"@,
        "anyOf"@ != "definitions"@,
        "anyOf"@ != "dependentSchemas"@,
        "anyOf"@ != "items"@,
        "oneOf"@ != "prefixItems"@,
        "oneOf"@ != "properties"@,
        "oneOf"@ != "patternProperties"@,
        "oneOf"@ != "$defs"@,
        "oneOf"@ != "definitions"@,
        "oneOf"@ != "dependentSchemas"@,
        "oneOf"@ != "items"@,
        "prefixItems"@ != "properties"@,
        "prefixItems"@ != "patternProperties"@,
        "prefixItems"@ != "$defs"@,
        "prefixItems"@ != "definitions"@,
        "prefixItems"@ != "dependentSchemas"@,
        "prefixItems"@ != "items"@,
        "properties"@ != "patternProperties"@,
        "properties"@ != "$defs"@,
        "properties"@ != "definitions"@,
        "properties"@ != "dependentSchemas"@,
        "properties"@ != "items"@,
        "patternProperties"@ != "$defs"@,
        "patternProperties"@ != "definitions"@,
        "patternProperties"@ != "dependentSchemas"@,
        "patternProperties"@ != "items"@,
        "$defs"@ != "definitions"@,
        "$defs"@ != "dependentSchemas"@,
        "$defs"@ != "items"@,
        "definitions"@ != "dependentSchemas"@,
        "definitions"@ != "items"@,
        "dependentSchemas"@ != "items"@,
{
    reveal_strlit("$ref");
    reveal_strlit("$recursiveRef");
    reveal_strlit("additionalProperties");
    reveal_strlit("unevaluatedProperties");
    reveal_strlit("unevaluatedItems");
    reveal_strlit("propertyNames");
    reveal_strlit("contains");
    reveal_strlit("if");
    reveal_strlit("then");
    reveal_strlit("else");
    reveal_strlit("not");
    reveal_strlit("allOf");
    reveal_strlit("anyOf");
    reveal_strlit("oneOf");
    reveal_strlit("prefixItems");
    reveal_strlit("properties");
    reveal_strlit("patternProperties");
    reveal_strlit("$defs");
    reveal_strlit("definitions");
    reveal_strlit("dependentSchemas");
    reveal_strlit("items");
    assert("$ref"@.len() == 4);
    assert("$recursiveRef"@.len() == 13);
    assert("additionalProperties"@.len() == 20);
    assert("unevaluatedProperties"@.len() == 21);
    assert("unevaluatedItems"@.len() == 16);
    assert("propertyNames"@.len() == 13);
    assert("contains"@.len() == 8);
    assert("if"@.len() == 2);
    assert("then"@.len() == 4);
    assert("else"@.len() == 4);
    assert("not"@.len() == 3);
    assert("allOf"@.len() == 5);
    assert("anyOf"@.len() == 5);
    assert("oneOf"@.len() == 5);
    assert("prefixItems"@.len() == 11);
    assert("properties"@.len() == 10);
    assert("patternProperties"@.len() == 17);
    assert("$defs"@.len() == 5);
    assert("definitions"@.len() == 11);
    assert("dependentSchemas"@.len() == 16);
    assert("items"@.len() == 5);
    assert("$ref"@[0] == '$');
    assert("then"@[0] == 't');
    assert("else"@[0] == 'e');
    assert("$recursiveRef"@[0] == '$');
    assert("propertyNames"@[0] == 'p');
    assert("unevaluatedItems"@[0] == 'u');
    assert("dependentSchemas"@[0] == 'd');
    assert("allOf"@[1] == 'l');
    assert("anyOf"@[1] == 'n');
    assert("allOf"@[0] == 'a');
    assert("oneOf"@[0] == 'o');
    assert("$defs"@[0] == '$');
    assert("items"@[0] == 'i');
    assert("anyOf"@[0] == 'a');
    assert("prefixItems"@[0] == 'p');
    assert("definitions"@[0] == 'd');
}

} // verus!
