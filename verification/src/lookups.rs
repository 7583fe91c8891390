//! Reading the fields of objects that were built one field after the other.
use vstd::prelude::*;

use crate::json::{field, lemma_put_field, put, Fields, JsonView};

verus! {

/// A field that was set is read back, and every other field reads as before.
pub broadcast proof fn lemma_with_get(
    v: JsonView,
    name: Seq<char>,
    value: JsonView,
    other: Seq<char>,
)
    requires
        v is Object,
    ensures
        #[trigger] v.with(name, value).get(other) == (if other == name {
            Some(value)
        } else {
            v.get(other)
        }),
{
    lemma_put_field(v->Object_0, name, value, other);
}

/// Setting a field of an object gives an object.
pub broadcast proof fn lemma_with_is_object(v: JsonView, name: Seq<char>, value: JsonView)
    requires
        v is Object,
    ensures
        (#[trigger] v.with(name, value)) is Object,
{
}

/// The empty object has no field.
pub broadcast proof fn lemma_object_get(name: Seq<char>)
    ensures
        (#[trigger] JsonView::object().get(name)) is None,
        JsonView::object() is Object,
{
}

/// The string in a field is what the field holds, where it holds one.
pub broadcast proof fn lemma_text_at(v: JsonView, name: Seq<char>)
    ensures
        #[trigger] v.text_at(name) == (match v.get(name) {
            Some(JsonView::Text(s)) => Some(s),
            _ => None,
        }),
{
}

/// A field that may be set is read back where it was, and every other field reads as before.
pub broadcast proof fn lemma_some_get(
    v: JsonView,
    name: Seq<char>,
    value: Option<JsonView>,
    other: Seq<char>,
)
    requires
        v is Object,
    ensures
        #[trigger] v.with_some(name, value).get(other) == (if other == name && value is Some {
            value
        } else {
            v.get(other)
        }),
{
    if value is Some {
        lemma_with_get(v, name, value->0, other);
    }
}

/// Setting a field of an object, or not, gives an object.
pub broadcast proof fn lemma_some_is_object(v: JsonView, name: Seq<char>, value: Option<JsonView>)
    requires
        v is Object,
    ensures
        (#[trigger] v.with_some(name, value)) is Object,
{
}

/// The same of the fields themselves.
pub broadcast proof fn lemma_put_lookup(
    fields: Fields,
    name: Seq<char>,
    value: JsonView,
    other: Seq<char>,
)
    ensures
        #[trigger] field(put(fields, name, value), other) == (if other == name {
            Some(value)
        } else {
            field(fields, other)
        }),
{
    lemma_put_field(fields, name, value, other);
}

pub broadcast group group_lookups {
    lemma_with_get,
    lemma_with_is_object,
    lemma_object_get,
    lemma_text_at,
}

} // verus!
