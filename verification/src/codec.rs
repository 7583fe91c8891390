//! JSON text: reading and writing it with `serde_json`.
use vstd::prelude::*;
use vstd::utf8::encode_utf8;

use crate::json::{distinct, entry_views, views, Decimal, Fields, Json, JsonView, Object};

verus! {

broadcast use crate::json::lemma_array_view;

/// A parsed document as `serde_json` holds it.
#[verifier::external_type_specification]
#[verifier::external_body]
pub struct ExValue(serde_json::Value);

/// What a `serde_json::Value` holds.
pub uninterp spec fn value_json(v: serde_json::Value) -> JsonView;

/// The value that a JSON text stands for, or none where it is not one `serde_json::from_slice`
/// accepts.
pub uninterp spec fn parsed(bytes: Seq<u8>) -> Option<JsonView>;

/// Whether `serde_json::from_slice` accepts a JSON text where every object has to tell each of its
/// names once.
pub uninterp spec fn tells_once(bytes: Seq<u8>) -> bool;

/// The text that `serde_json::to_string` writes for a value.
pub uninterp spec fn json_text(v: JsonView) -> Seq<char>;

/// The value that a JSON text stands for in which every object tells each of its names once.
pub open spec fn parsed_once(bytes: Seq<u8>) -> Option<JsonView> {
    if tells_once(bytes) {
        parsed(bytes)
    } else {
        None
    }
}

/// One level of a `serde_json::Value`.
enum Node {
    Leaf(Json),
    Array(Vec<serde_json::Value>),
    Object(Vec<(String, serde_json::Value)>),
}

spec fn node_items(items: Seq<serde_json::Value>) -> Seq<JsonView> {
    items.map_values(|v: serde_json::Value| value_json(v))
}

spec fn node_fields(entries: Seq<(String, serde_json::Value)>) -> Fields {
    entries.map_values(|e: (String, serde_json::Value)| (e.0@, value_json(e.1)))
}

spec fn node_view(node: Node) -> JsonView {
    match node {
        Node::Leaf(j) => j@,
        Node::Array(items) => JsonView::Array(node_items(items@)),
        Node::Object(entries) => JsonView::Object(node_fields(entries@)),
    }
}

/// Opens one level of a `serde_json::Value`: the variant's own data, a number by
/// `Number::as_u64` and `Number::as_i64` where it is an integer, an object's entries in the order
/// in which `Map::into_iter` yields them. A map holds each name once.
#[verifier::external_body]
fn open_value(v: serde_json::Value) -> (r: Node)
    ensures
        node_view(r) == value_json(v),
        r matches Node::Object(entries) ==> distinct(node_fields(entries@)),
        r matches Node::Leaf(j) ==> !(j is Array) && !(j is Object),
{
    match v {
        serde_json::Value::Null => Node::Leaf(Json::Null),
        serde_json::Value::Bool(b) => Node::Leaf(Json::Bool(b)),
        serde_json::Value::Number(n) => match (n.as_u64(), n.as_i64()) {
            (Some(u), _) => Node::Leaf(Json::Unsigned(u)),
            (None, Some(i)) => Node::Leaf(Json::Negative(i)),
            (None, None) => Node::Leaf(Json::Decimal(Decimal { number: n })),
        },
        serde_json::Value::String(s) => Node::Leaf(Json::Text(s)),
        serde_json::Value::Array(items) => Node::Array(items),
        serde_json::Value::Object(map) => Node::Object(map.into_iter().collect()),
    }
}

/// Closes one level into a `serde_json::Value`: the variant with that data. `Map::from_iter`
/// keeps the entries in order where their names are distinct. `Number::from` keeps an integer.
#[verifier::external_body]
fn close_value(node: Node) -> (r: serde_json::Value)
    requires
        node matches Node::Object(entries) ==> distinct(node_fields(entries@)),
        node matches Node::Leaf(j) ==> !(j is Array) && !(j is Object),
    ensures
        value_json(r) == node_view(node),
{
    match node {
        Node::Leaf(Json::Bool(b)) => serde_json::Value::Bool(b),
        Node::Leaf(Json::Unsigned(n)) => serde_json::Value::Number(n.into()),
        Node::Leaf(Json::Negative(n)) => serde_json::Value::Number(n.into()),
        Node::Leaf(Json::Decimal(d)) => serde_json::Value::Number(d.number),
        Node::Leaf(Json::Text(s)) => serde_json::Value::String(s),
        Node::Leaf(_) => serde_json::Value::Null,
        Node::Array(items) => serde_json::Value::Array(items),
        Node::Object(entries) => serde_json::Value::Object(entries.into_iter().collect()),
    }
}

/// `serde_json::from_slice` at type `Value`: the outcome is a function of the bytes.
#[verifier::external_body]
fn parse_value(bytes: &[u8]) -> (r: Option<serde_json::Value>)
    ensures
        match r {
            Some(v) => parsed(bytes@) == Some(value_json(v)),
            None => parsed(bytes@) is None,
        },
{
    serde_json::from_slice::<serde_json::Value>(bytes).ok()
}

/// `serde_json::from_slice` at type `serde_yaml::Value`: whether it succeeds is a function of the
/// bytes. It takes what it takes at type `serde_json::Value`, but for an object that tells a name
/// twice, which a `serde_yaml::Mapping` refuses.
#[verifier::external_body]
fn parses_once(bytes: &[u8]) -> (r: bool)
    ensures
        r == tells_once(bytes@),
{
    serde_json::from_slice::<serde_yaml::Value>(bytes).is_ok()
}

/// Whether a value is an object whose values are no arrays, no objects and no decimals.
pub open spec fn flat(v: JsonView) -> bool {
    match v {
        JsonView::Object(fields) => distinct(fields) && forall|i: int|
            0 <= i < fields.len() ==> match (#[trigger] fields[i]).1 {
                JsonView::Array(_) | JsonView::Object(_) | JsonView::Decimal(_) => false,
                _ => true,
            },
        _ => false,
    }
}

/// The items of the array to which a path leads, which names one item or field after the other by
/// its place.
pub open spec fn array_at(v: JsonView, path: Seq<int>) -> Option<Seq<JsonView>>
    decreases path.len(),
{
    if path.len() == 0 {
        match v {
            JsonView::Array(items) => Some(items),
            _ => None,
        }
    } else {
        match v {
            JsonView::Array(items) => if 0 <= path[0] < items.len() {
                array_at(items[path[0]], path.skip(1))
            } else {
                None
            },
            JsonView::Object(fields) => if 0 <= path[0] < fields.len() {
                array_at(fields[path[0]].1, path.skip(1))
            } else {
                None
            },
            _ => None,
        }
    }
}

/// The value with one more item in the array to which a path leads.
pub open spec fn appended(v: JsonView, path: Seq<int>, item: JsonView) -> JsonView
    decreases path.len(),
{
    match v {
        JsonView::Array(items) => if path.len() == 0 {
            JsonView::Array(items.push(item))
        } else {
            JsonView::Array(
                items.update(path[0], appended(items[path[0]], path.skip(1), item)),
            )
        },
        JsonView::Object(fields) => if path.len() == 0 {
            v
        } else {
            JsonView::Object(
                fields.update(
                    path[0],
                    (fields[path[0]].0, appended(fields[path[0]].1, path.skip(1), item)),
                ),
            )
        },
        _ => v,
    }
}

/// Whether a text is another one with something put in at some place.
pub open spec fn put_in(text: Seq<char>, before: Seq<char>, added: Seq<char>) -> bool {
    exists|at: int|
        0 <= at <= before.len() && text == #[trigger] before.take(at) + added + before.skip(at)
}

/// What stands before an item that is appended to others.
pub open spec fn comma_after(items: Seq<JsonView>) -> Seq<char> {
    if items.len() == 0 {
        seq![]
    } else {
        seq![',']
    }
}

/// `serde_json::to_string` at type `Value`: the text is a function of the value. It never fails:
/// it writes to a `Vec`, names are strings, and a `Number` is finite. Parsing what it wrote for a
/// flat object gives the object back, each of whose names it wrote once. The text of an array with
/// the value as its one item is the value's own in brackets; and wherever in a larger value the
/// value is appended to an array, its own text is put into the text of the larger value, after a
/// comma where it is not the first item.
#[verifier::external_body]
fn render_value(v: &serde_json::Value) -> (r: String)
    ensures
        r@ == json_text(value_json(*v)),
        flat(value_json(*v)) ==> parsed(encode_utf8(r@)) == Some(value_json(*v)) && tells_once(
            encode_utf8(r@),
        ),
        json_text(JsonView::Array(seq![value_json(*v)])) == seq!['['] + r@ + seq![']'],
        forall|whole: JsonView, path: Seq<int>|
            array_at(whole, path) matches Some(items) ==> put_in(
                json_text(#[trigger] appended(whole, path, value_json(*v))),
                json_text(whole),
                comma_after(items) + r@,
            ),
{
    serde_json::to_string(v).expect("a JSON value has a text")
}

/// Copies a `serde_json::Value` into plain data.
fn from_value(v: serde_json::Value) -> (r: Json)
    ensures
        r@ == value_json(v),
    decreases value_json(v),
{
    let ghost whole = value_json(v);
    match open_value(v) {
        Node::Leaf(j) => j,
        Node::Array(items) => {
            let ghost all = items@;
            let mut rest = items;
            let mut done: Vec<Json> = Vec::new();
            // Taken from the back, so the copies come in reverse.
            while rest.len() > 0
                invariant
                    whole == value_json(v),
                    whole == JsonView::Array(node_items(all)),
                    rest.len() <= all.len(),
                    rest@ == all.take(rest.len() as int),
                    done.len() + rest.len() == all.len(),
                    forall|k: int|
                        0 <= k < done.len() ==> (#[trigger] done@[k])@ == value_json(
                            all[all.len() - 1 - k],
                        ),
                decreases rest.len(),
            {
                let ghost n = rest.len() - 1;
                let item = rest.pop();
                match item {
                    Some(item) => {
                        assert(item == all[n as int]);
                        assert(node_items(all)[n as int] == value_json(item));
                        assert(decreases_to!(whole => whole->Array_0));
                        assert(decreases_to!(whole->Array_0 => whole->Array_0[n as int]));
                        done.push(from_value(item));
                        assert(rest@ == all.take(rest.len() as int));
                    },
                    None => {},
                }
            }
            let list = reversed(done);
            assert(views(list@) == node_items(all));
            Json::Array(list)
        },
        Node::Object(entries) => {
            let ghost all = entries@;
            let mut rest = entries;
            let mut done: Vec<(String, Json)> = Vec::new();
            while rest.len() > 0
                invariant
                    whole == value_json(v),
                    whole == JsonView::Object(node_fields(all)),
                    rest.len() <= all.len(),
                    rest@ == all.take(rest.len() as int),
                    done.len() + rest.len() == all.len(),
                    forall|k: int|
                        0 <= k < done.len() ==> (#[trigger] done@[k]).0@ == all[all.len() - 1
                            - k].0@ && done@[k].1@ == value_json(all[all.len() - 1 - k].1),
                decreases rest.len(),
            {
                let ghost n = rest.len() - 1;
                let entry = rest.pop();
                match entry {
                    Some((name, value)) => {
                        assert(node_fields(all)[n as int] == (name@, value_json(value)));
                        assert(decreases_to!(whole => whole->Object_0));
                        assert(decreases_to!(whole->Object_0 => whole->Object_0[n as int]));
                        assert(decreases_to!(whole->Object_0[n as int] => whole->Object_0[n as int].1));
                        done.push((name, from_value(value)));
                        assert(rest@ == all.take(rest.len() as int));
                    },
                    None => {},
                }
            }
            let list = reversed(done);
            assert(entry_views(list@) == node_fields(all));
            Json::Object(Object::from_entries(list))
        },
    }
}

/// The items in reverse order.
fn reversed<T>(items: Vec<T>) -> (r: Vec<T>)
    ensures
        r@ == items@.reverse(),
{
    let ghost all = items@;
    let mut rest = items;
    let mut r: Vec<T> = Vec::new();
    while rest.len() > 0
        invariant
            rest.len() <= all.len(),
            rest@ == all.take(rest.len() as int),
            r@ == all.reverse().take(r.len() as int),
            r.len() + rest.len() == all.len(),
        decreases rest.len(),
    {
        match rest.pop() {
            Some(item) => {
                r.push(item);
                assert(rest@ == all.take(rest.len() as int));
                assert(r@ == all.reverse().take(r.len() as int));
            },
            None => {},
        }
    }
    assert(r@ == all.reverse());
    r
}

/// Copies plain data into a `serde_json::Value`.
fn to_value(j: Json) -> (r: serde_json::Value)
    ensures
        value_json(r) == j@,
    decreases j@,
{
    let ghost whole = j@;
    match j {
        Json::Array(items) => {
            let ghost all = items@;
            let mut rest = items;
            let mut done: Vec<serde_json::Value> = Vec::new();
            while rest.len() > 0
                invariant
                    whole == j@,
                    whole == JsonView::Array(views(all)),
                    rest.len() <= all.len(),
                    rest@ == all.take(rest.len() as int),
                    done.len() + rest.len() == all.len(),
                    forall|k: int|
                        0 <= k < done.len() ==> value_json(#[trigger] done@[k]) == all[all.len() - 1
                            - k]@,
                decreases rest.len(),
            {
                let ghost n = rest.len() - 1;
                match rest.pop() {
                    Some(item) => {
                        assert(views(all)[n as int] == item@);
                        assert(decreases_to!(whole => whole->Array_0));
                        assert(decreases_to!(whole->Array_0 => whole->Array_0[n as int]));
                        done.push(to_value(item));
                        assert(rest@ == all.take(rest.len() as int));
                    },
                    None => {},
                }
            }
            let list = reversed(done);
            assert(node_items(list@) == views(all));
            close_value(Node::Array(list))
        },
        Json::Object(object) => {
            let entries = object.into_entries();
            let ghost all = entries@;
            let mut rest = entries;
            let mut done: Vec<(String, serde_json::Value)> = Vec::new();
            while rest.len() > 0
                invariant
                    whole == j@,
                    whole == JsonView::Object(entry_views(all)),
                    rest.len() <= all.len(),
                    rest@ == all.take(rest.len() as int),
                    done.len() + rest.len() == all.len(),
                    forall|k: int|
                        0 <= k < done.len() ==> (#[trigger] done@[k]).0@ == all[all.len() - 1
                            - k].0@ && value_json(done@[k].1) == all[all.len() - 1 - k].1@,
                decreases rest.len(),
            {
                let ghost n = rest.len() - 1;
                match rest.pop() {
                    Some((name, value)) => {
                        assert(entry_views(all)[n as int] == (name@, value@));
                        assert(decreases_to!(whole => whole->Object_0));
                        assert(decreases_to!(whole->Object_0 => whole->Object_0[n as int]));
                        assert(decreases_to!(whole->Object_0[n as int] => whole->Object_0[n as int].1));
                        done.push((name, to_value(value)));
                        assert(rest@ == all.take(rest.len() as int));
                    },
                    None => {},
                }
            }
            let list = reversed(done);
            assert(node_fields(list@) == entry_views(all));
            close_value(Node::Object(list))
        },
        leaf => close_value(Node::Leaf(leaf)),
    }
}

impl Json {
    /// Reads a JSON text.
    pub fn parse(bytes: &[u8]) -> (r: Option<Json>)
        ensures
            match r {
                Some(j) => parsed(bytes@) == Some(j@),
                None => parsed(bytes@) is None,
            },
    {
        match parse_value(bytes) {
            Some(v) => Some(from_value(v)),
            None => None,
        }
    }

    /// Reads a JSON text in which every object tells each of its names once.
    pub fn parse_once(bytes: &[u8]) -> (r: Option<Json>)
        ensures
            (match r {
                Some(j) => Some(j@),
                None => None,
            }) == parsed_once(bytes@),
    {
        if parses_once(bytes) {
            Json::parse(bytes)
        } else {
            None
        }
    }

    /// Writes the JSON text.
    pub fn render(&self) -> (r: String)
        ensures
            r@ == json_text(self@),
            flat(self@) ==> parsed(encode_utf8(r@)) == Some(self@) && tells_once(encode_utf8(r@)),
            json_text(JsonView::Array(seq![self@])) == seq!['['] + r@ + seq![']'],
            forall|whole: JsonView, path: Seq<int>|
                array_at(whole, path) matches Some(items) ==> put_in(
                    json_text(#[trigger] appended(whole, path, self@)),
                    json_text(whole),
                    comma_after(items) + r@,
                ),
    {
        let v = to_value(self.copy());
        render_value(&v)
    }

    /// Writes the JSON text as bytes.
    pub fn to_bytes(&self) -> (r: Vec<u8>)
        ensures
            r@ == encode_utf8(json_text(self@)),
            flat(self@) ==> parsed(r@) == Some(self@) && tells_once(r@),
    {
        let text = self.render();
        text.as_str().as_bytes_vec()
    }
}

} // verus!
