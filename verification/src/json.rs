//! JSON values as plain data.
use vstd::prelude::*;

use crate::text::{is_named, named, owned, same, text_of};

verus! {

/// A number with a fraction or an exponent, or one outside the 64-bit integers, is kept as
/// `serde_json::Number` and carried through unread.
#[verifier::external_type_specification]
#[verifier::external_body]
pub struct ExNumber(serde_json::Number);

/// `<serde_json::Number as Clone>::clone` gives the same number.
pub assume_specification[ <serde_json::Number as Clone>::clone ](n: &serde_json::Number) -> (r:
    serde_json::Number)
    ensures
        r == *n,
;

/// A number that is no 64-bit integer. Only reading a JSON text makes one.
#[derive(Debug)]
pub struct Decimal {
    pub(crate) number: serde_json::Number,
}

/// A JSON value.
#[derive(Debug)]
pub enum Json {
    Null,
    Bool(bool),
    /// An integer from 0 to `u64::MAX`.
    Unsigned(u64),
    /// An integer that a signed 64-bit integer holds.
    Negative(i64),
    /// Any other number.
    Decimal(Decimal),
    Text(String),
    Array(Vec<Json>),
    Object(Object),
}

/// The fields of a JSON object, in order. No name occurs twice.
#[derive(Debug)]
pub struct Object {
    entries: Vec<(String, Json)>,
}

/// What a JSON value holds. Each integer has one form: those below zero are `Negative`.
pub enum JsonView {
    Null,
    Bool(bool),
    Unsigned(u64),
    Negative(i64),
    Decimal(Decimal),
    Text(Seq<char>),
    Array(Seq<JsonView>),
    Object(Seq<(Seq<char>, JsonView)>),
}

/// Names and values of an object's fields, in order.
pub type Fields = Seq<(Seq<char>, JsonView)>;

pub open spec fn view_of(j: Json) -> JsonView
    decreases j,
{
    match j {
        Json::Null => JsonView::Null,
        Json::Bool(b) => JsonView::Bool(b),
        Json::Unsigned(n) => JsonView::Unsigned(n),
        Json::Negative(n) => if n < 0 {
            JsonView::Negative(n)
        } else {
            JsonView::Unsigned(n as u64)
        },
        Json::Decimal(n) => JsonView::Decimal(n),
        Json::Text(s) => JsonView::Text(s@),
        Json::Array(items) => JsonView::Array(
            Seq::new(
                items@.len(),
                |i: int|
                    if 0 <= i < items@.len() {
                        view_of(items@[i])
                    } else {
                        JsonView::Null
                    },
            ),
        ),
        Json::Object(o) => JsonView::Object(fields_of(o)),
    }
}

pub closed spec fn fields_of(o: Object) -> Fields
    decreases o,
{
    Seq::new(
        o.entries@.len(),
        |i: int|
            if 0 <= i < o.entries@.len() {
                (o.entries@[i].0@, view_of(o.entries@[i].1))
            } else {
                (Seq::empty(), JsonView::Null)
            },
    )
}

impl View for Json {
    type V = JsonView;

    open spec fn view(&self) -> JsonView {
        view_of(*self)
    }
}

impl View for Object {
    type V = Fields;

    open spec fn view(&self) -> Fields {
        fields_of(*self)
    }
}

/// What the values of a list hold.
pub open spec fn views(items: Seq<Json>) -> Seq<JsonView> {
    items.map_values(|j: Json| j@)
}

/// An array holds what its items hold.
pub broadcast proof fn lemma_array_view(items: Vec<Json>)
    ensures
        #[trigger] Json::Array(items)@ == JsonView::Array(views(items@)),
{
    assert(Json::Array(items)@->Array_0 =~= views(items@));
}

/// What an optional value holds.
pub open spec fn view_in(j: Option<&Json>) -> Option<JsonView> {
    match j {
        Some(j) => Some(j@),
        None => None,
    }
}

/// Whether no name occurs twice.
pub open spec fn distinct(fields: Fields) -> bool {
    forall|i: int, j: int|
        0 <= i < j < fields.len() ==> #[trigger] fields[i].0 != #[trigger] fields[j].0
}

/// The first position, at or after `i`, of the field `name`.
pub open spec fn position_from(fields: Fields, name: Seq<char>, i: int) -> Option<int>
    decreases fields.len() - i,
{
    if i < 0 || i >= fields.len() {
        None
    } else if fields[i].0 == name {
        Some(i)
    } else {
        position_from(fields, name, i + 1)
    }
}

/// The value of the field `name`.
pub open spec fn field(fields: Fields, name: Seq<char>) -> Option<JsonView> {
    match position_from(fields, name, 0) {
        Some(i) => Some(fields[i].1),
        None => None,
    }
}

/// The fields with `name` set to `value`: in place where it is there, else at the end.
pub open spec fn put(fields: Fields, name: Seq<char>, value: JsonView) -> Fields {
    match position_from(fields, name, 0) {
        Some(i) => fields.update(i, (name, value)),
        None => fields.push((name, value)),
    }
}

/// The string in the field `name`.
pub open spec fn text_field(fields: Fields, name: Seq<char>) -> Option<Seq<char>> {
    match field(fields, name) {
        Some(JsonView::Text(s)) => Some(s),
        _ => None,
    }
}

/// Whether every field has one of the names.
pub open spec fn only(fields: Fields, names: Seq<&str>) -> bool {
    forall|i: int| 0 <= i < fields.len() ==> named(names, (#[trigger] fields[i]).0)
}

/// Whether a position found is one of the field, and the first.
pub proof fn lemma_position(fields: Fields, name: Seq<char>, i: int)
    requires
        0 <= i <= fields.len(),
    ensures
        match position_from(fields, name, i) {
            Some(p) => i <= p < fields.len() && fields[p].0 == name && forall|j: int|
                i <= j < p ==> (#[trigger] fields[j]).0 != name,
            None => forall|j: int| i <= j < fields.len() ==> (#[trigger] fields[j]).0 != name,
        },
    decreases fields.len() - i,
{
    if i < fields.len() && fields[i].0 != name {
        lemma_position(fields, name, i + 1);
    }
}

/// Setting a field keeps the names distinct.
pub proof fn lemma_put_distinct(fields: Fields, name: Seq<char>, value: JsonView)
    requires
        distinct(fields),
    ensures
        distinct(put(fields, name, value)),
{
    lemma_position(fields, name, 0);
}

/// A field that was set is read back, and every other field is unchanged.
pub proof fn lemma_put_field(fields: Fields, name: Seq<char>, value: JsonView, other: Seq<char>)
    ensures
        field(put(fields, name, value), name) == Some(value),
        other != name ==> field(put(fields, name, value), other) == field(fields, other),
{
    let set = put(fields, name, value);
    lemma_position(fields, name, 0);
    lemma_position(set, name, 0);
    lemma_position(fields, other, 0);
    lemma_position(set, other, 0);
    if position_from(fields, name, 0) is None {
        assert(set[fields.len() as int].0 == name);
    } else {
        assert(set[position_from(fields, name, 0).unwrap()].0 == name);
    }
    if other != name {
        match position_from(fields, other, 0) {
            Some(p) => {
                assert(set[p].0 == other);
            },
            None => {
                match position_from(set, other, 0) {
                    Some(p) => {
                        assert(p < fields.len() ==> fields[p].0 == other);
                    },
                    None => {},
                }
            },
        }
    }
}

impl JsonView {
    /// The empty object.
    pub open spec fn object() -> JsonView {
        JsonView::Object(Seq::empty())
    }

    /// The object with one field set; anything else unchanged.
    pub open spec fn with(self, name: Seq<char>, value: JsonView) -> JsonView {
        match self {
            JsonView::Object(fields) => JsonView::Object(put(fields, name, value)),
            _ => self,
        }
    }

    /// The object with one field set, where there is a value for it.
    pub open spec fn with_some(self, name: Seq<char>, value: Option<JsonView>) -> JsonView {
        match value {
            Some(value) => self.with(name, value),
            None => self,
        }
    }

    /// The value of a field, where this is an object that has it.
    pub open spec fn get(self, name: Seq<char>) -> Option<JsonView> {
        match self {
            JsonView::Object(fields) => field(fields, name),
            _ => None,
        }
    }

    /// The string in a field, where this is an object that has it.
    pub open spec fn text_at(self, name: Seq<char>) -> Option<Seq<char>> {
        match self {
            JsonView::Object(fields) => text_field(fields, name),
            _ => None,
        }
    }

    /// The string, or null where there is none.
    pub open spec fn opt_text(s: Option<Seq<char>>) -> JsonView {
        match s {
            Some(s) => JsonView::Text(s),
            None => JsonView::Null,
        }
    }
}

impl Object {
    #[verifier::type_invariant]
    spec fn names_distinct(self) -> bool {
        distinct(fields_of(self))
    }

    /// The object without fields.
    pub fn new() -> (r: Object)
        ensures
            r@ == Seq::<(Seq<char>, JsonView)>::empty(),
    {
        let r = Object { entries: Vec::new() };
        assert(r@ == Seq::<(Seq<char>, JsonView)>::empty());
        r
    }

    /// The number of fields. No name occurs twice.
    pub fn len(&self) -> (r: usize)
        ensures
            r == self@.len(),
            distinct(self@),
    {
        proof {
            use_type_invariant(self);
        }
        self.entries.len()
    }

    /// The name of a field.
    pub fn name(&self, i: usize) -> (r: &str)
        requires
            i < self@.len(),
        ensures
            r@ == self@[i as int].0,
    {
        self.entries[i].0.as_str()
    }

    /// The value of a field.
    pub fn value(&self, i: usize) -> (r: &Json)
        requires
            i < self@.len(),
        ensures
            r@ == self@[i as int].1,
            decreases_to!(self => r),
    {
        &self.entries[i].1
    }

    /// Names and values, in order. No name occurs twice.
    pub fn into_entries(self) -> (r: Vec<(String, Json)>)
        ensures
            entry_views(r@) == self@,
            distinct(self@),
    {
        proof {
            use_type_invariant(&self);
        }
        assert(entry_views(self.entries@) == self@);
        self.entries
    }

    /// The object with these fields.
    pub fn from_entries(entries: Vec<(String, Json)>) -> (r: Object)
        requires
            distinct(entry_views(entries@)),
        ensures
            r@ == entry_views(entries@),
    {
        let ghost o = Object { entries };
        assert(fields_of(o) == entry_views(entries@));
        Object { entries }
    }

    /// The position of a field.
    fn position(&self, name: &str) -> (r: Option<usize>)
        ensures
            match r {
                Some(i) => position_from(self@, name@, 0) == Some(i as int),
                None => position_from(self@, name@, 0) is None,
            },
            r is Some ==> r->0 < self@.len(),
    {
        let mut i: usize = 0;
        while i < self.entries.len()
            invariant
                i <= self@.len(),
                self@.len() == self.entries@.len(),
                position_from(self@, name@, 0) == position_from(self@, name@, i as int),
            decreases self.entries.len() - i,
        {
            if same(self.name(i), name) {
                return Some(i);
            }
            i = i + 1;
        }
        None
    }

    /// The value of a field.
    pub fn get(&self, name: &str) -> (r: Option<&Json>)
        ensures
            view_in(r) == field(self@, name@),
            r is Some ==> decreases_to!(self => r->0),
    {
        match self.position(name) {
            Some(i) => Some(self.value(i)),
            None => None,
        }
    }

    /// Whether a field is there.
    pub fn has(&self, name: &str) -> (r: bool)
        ensures
            r == (field(self@, name@) is Some),
    {
        self.position(name).is_some()
    }

    /// The string in a field.
    pub fn text(&self, name: &str) -> (r: Option<&str>)
        ensures
            text_of(r) == text_field(self@, name@),
    {
        match self.get(name) {
            Some(Json::Text(s)) => Some(s.as_str()),
            _ => None,
        }
    }

    /// Sets a field: in place where it is there, else at the end.
    pub fn insert(&mut self, name: &str, value: Json)
        ensures
            final(self)@ == put(old(self)@, name@, value@),
    {
        proof {
            use_type_invariant(&*self);
            lemma_put_distinct(self@, name@, value@);
        }
        let at = self.position(name);
        let ghost before = *self;
        let mut entries: Vec<(String, Json)> = Vec::new();
        std::mem::swap(&mut entries, &mut self.entries);
        let ghost kept = entries@;
        let key = owned(name);
        match at {
            Some(i) => {
                entries.set(i, (key, value));
            },
            None => {
                entries.push((key, value));
            },
        }
        let ghost after = Object { entries };
        assert(fields_of(after) == put(before@, name@, value@));
        self.entries = entries;
    }

    /// Whether a field has none of the names.
    pub fn has_unknown_field(&self, names: &[&str]) -> (r: bool)
        ensures
            r == !only(self@, names@),
    {
        let mut i: usize = 0;
        while i < self.entries.len()
            invariant
                i <= self@.len(),
                self@.len() == self.entries@.len(),
                forall|j: int| 0 <= j < i ==> named(names@, (#[trigger] self@[j]).0),
            decreases self.entries.len() - i,
        {
            if !is_named(names, self.name(i)) {
                return true;
            }
            i = i + 1;
        }
        false
    }

    /// A copy.
    pub fn copy(&self) -> (r: Object)
        ensures
            r@ == self@,
        decreases self,
    {
        proof {
            use_type_invariant(self);
        }
        let mut entries: Vec<(String, Json)> = Vec::new();
        let mut i: usize = 0;
        while i < self.entries.len()
            invariant
                i <= self.entries.len(),
                i == entries.len(),
                forall|j: int|
                    0 <= j < i ==> entries@[j].0@ == self.entries@[j].0@ && entries@[j].1@
                        == self.entries@[j].1@,
            decreases self.entries.len() - i,
        {
            let entry = &self.entries[i];
            assert(decreases_to!(self => self.entries));
            assert(decreases_to!(self.entries@ => self.entries@[i as int]));
            entries.push((owned(entry.0.as_str()), entry.1.copy()));
            i = i + 1;
        }
        let ghost o = Object { entries };
        assert(fields_of(o) == self@);
        Object { entries }
    }
}

/// Names and values of a list of fields.
pub open spec fn entry_views(entries: Seq<(String, Json)>) -> Fields {
    entries.map_values(|e: (String, Json)| (e.0@, e.1@))
}

impl Json {
    /// A string.
    pub fn text(s: &str) -> (r: Json)
        ensures
            r@ == JsonView::Text(s@),
    {
        Json::Text(owned(s))
    }

    /// The empty object.
    pub fn object() -> (r: Json)
        ensures
            r@ == JsonView::object(),
    {
        Json::Object(Object::new())
    }

    /// The object with one field set; anything else unchanged.
    pub fn with(self, name: &str, value: Json) -> (r: Json)
        ensures
            r@ == self@.with(name@, value@),
    {
        match self {
            Json::Object(o) => {
                let mut o = o;
                o.insert(name, value);
                Json::Object(o)
            },
            other => other,
        }
    }

    /// The object with one field set, where there is a value for it.
    pub fn with_some(self, name: &str, value: Option<Json>) -> (r: Json)
        ensures
            r@ == self@.with_some(name@, match value {
                Some(value) => Some(value@),
                None => None,
            }),
    {
        match value {
            Some(value) => self.with(name, value),
            None => self,
        }
    }

    /// The string, or null where there is none.
    pub fn opt_text(s: Option<&str>) -> (r: Json)
        ensures
            r@ == JsonView::opt_text(text_of(s)),
    {
        match s {
            Some(s) => Json::text(s),
            None => Json::Null,
        }
    }

    /// The value of a field, where this is an object that has it.
    pub fn get(&self, name: &str) -> (r: Option<&Json>)
        ensures
            view_in(r) == self@.get(name@),
            r is Some ==> decreases_to!(self => r->0),
    {
        match self {
            Json::Object(o) => o.get(name),
            _ => None,
        }
    }

    /// The string in a field, where this is an object that has it.
    pub fn text_at(&self, name: &str) -> (r: Option<&str>)
        ensures
            text_of(r) == self@.text_at(name@),
    {
        match self {
            Json::Object(o) => o.text(name),
            _ => None,
        }
    }

    /// A copy.
    pub fn copy(&self) -> (r: Json)
        ensures
            r@ == self@,
        decreases self,
    {
        match self {
            Json::Null => Json::Null,
            Json::Bool(b) => Json::Bool(*b),
            Json::Unsigned(n) => Json::Unsigned(*n),
            Json::Negative(n) => Json::Negative(*n),
            Json::Decimal(d) => Json::Decimal(Decimal { number: d.number.clone() }),
            Json::Text(s) => Json::text(s.as_str()),
            Json::Array(items) => {
                let mut copies: Vec<Json> = Vec::new();
                let mut i: usize = 0;
                while i < items.len()
                    invariant
                        *self == Json::Array(*items),
                        i <= items.len(),
                        i == copies.len(),
                        forall|j: int| 0 <= j < i ==> (#[trigger] copies@[j])@ == items@[j]@,
                    decreases items.len() - i,
                {
                    assert(decreases_to!(*self => self->Array_0));
                    assert(decreases_to!(*items => items@));
                    assert(decreases_to!(items@ => items@[i as int]));
                    copies.push(items[i].copy());
                    i = i + 1;
                }
                proof {
                    lemma_array_view(copies);
                    lemma_array_view(*items);
                    assert(views(copies@) == views(items@));
                }
                Json::Array(copies)
            },
            Json::Object(o) => Json::Object(o.copy()),
        }
    }
}

/// Whether a value asks for anything: null, false and the empty string do not, nor does an array
/// or an object none of whose values does.
pub open spec fn effect(v: JsonView) -> bool
    decreases v,
{
    match v {
        JsonView::Null => false,
        JsonView::Bool(b) => b,
        JsonView::Text(s) => s.len() > 0,
        JsonView::Array(items) => exists|i: int|
            0 <= i < items.len() && effect(#[trigger] items[i]),
        JsonView::Object(fields) => exists|i: int|
            0 <= i < fields.len() && effect((#[trigger] fields[i]).1),
        _ => true,
    }
}

/// Whether a value asks for anything.
pub fn has_effect(v: &Json) -> (r: bool)
    ensures
        r == effect(v@),
    decreases v,
{
    match v {
        Json::Null => false,
        Json::Bool(b) => *b,
        Json::Text(s) => s.as_str().unicode_len() > 0,
        Json::Array(items) => {
            let mut i: usize = 0;
            while i < items.len()
                invariant
                    *v == Json::Array(*items),
                    i <= items.len(),
                    forall|j: int| 0 <= j < i ==> !effect((#[trigger] items@[j])@),
                decreases items.len() - i,
            {
                assert(decreases_to!(items@ => items@[i as int]));
                if has_effect(&items[i]) {
                    assert(effect(v@->Array_0[i as int]));
                    return true;
                }
                i = i + 1;
            }
            assert forall|j: int| 0 <= j < v@->Array_0.len() implies !effect(
                #[trigger] v@->Array_0[j],
            ) by {
                assert(v@->Array_0[j] == items@[j]@);
            }
            false
        },
        Json::Object(o) => {
            let mut i: usize = 0;
            while i < o.len()
                invariant
                    *v == Json::Object(*o),
                    i <= o@.len(),
                    forall|j: int| 0 <= j < i ==> !effect((#[trigger] o@[j]).1),
                decreases o@.len() - i,
            {
                assert(decreases_to!(*v => *o));
                if has_effect(o.value(i)) {
                    assert(v@->Object_0[i as int] == o@[i as int]);
                    return true;
                }
                i = i + 1;
            }
            false
        },
        _ => true,
    }
}

/// Whether a field with none of the names asks for anything.
pub open spec fn effectful_unknown(fields: Fields, names: Seq<&str>) -> bool {
    exists|i: int|
        0 <= i < fields.len() && !named(names, (#[trigger] fields[i]).0) && effect(fields[i].1)
}

/// Whether a field with none of the names asks for anything.
pub fn has_effectful_unknown_field(object: &Object, names: &[&str]) -> (r: bool)
    ensures
        r == effectful_unknown(object@, names@),
{
    let mut i: usize = 0;
    while i < object.len()
        invariant
            i <= object@.len(),
            forall|j: int|
                0 <= j < i ==> named(names@, (#[trigger] object@[j]).0) || !effect(object@[j].1),
        decreases object@.len() - i,
    {
        if !is_named(names, object.name(i)) && has_effect(object.value(i)) {
            return true;
        }
        i = i + 1;
    }
    false
}

/// Whether a value is absent or false.
pub open spec fn off(v: Option<JsonView>) -> bool {
    v is None || v == Some(JsonView::Bool(false))
}

/// Whether a value is absent or false.
pub fn absent_or_false(v: Option<&Json>) -> (r: bool)
    ensures
        r == off(view_in(v)),
{
    match v {
        None => true,
        Some(Json::Bool(b)) => !*b,
        _ => false,
    }
}

} // verus!
