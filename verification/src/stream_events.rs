//! The events that a streamed response is told in.
use vstd::prelude::*;

use crate::json::{Json, JsonView};
use crate::responses::{
    item_json, part_json, response_json, ItemView, OutputItem, OutputPart, PartView, Response,
    ResponseView,
};
use crate::stream_state::{event_head, make_head, Streamed, StreamedOf, StreamedView};

verus! {

/// A snapshot of the whole response.
pub open spec fn response_told(kind: Seq<char>, n: u64, response: ResponseView) -> StreamedView {
    StreamedOf { name: kind, body: event_head(kind, n).with("response"@, response_json(response)) }
}

pub fn tell_response(kind: &'static str, n: u64, response: &Response) -> (r: Streamed)
    ensures
        r@ == response_told(kind@, n, response@),
{
    StreamedOf { name: kind, body: make_head(kind, n).with("response", response.to_json()) }
}

/// An item begins or is done.
pub open spec fn item_told(
    kind: Seq<char>,
    n: u64,
    output_index: u32,
    item: ItemView,
) -> StreamedView {
    StreamedOf {
        name: kind,
        body: event_head(kind, n).with(
            "output_index"@,
            JsonView::Unsigned(output_index as u64),
        ).with("item"@, item_json(item)),
    }
}

pub fn tell_item(kind: &'static str, n: u64, output_index: u32, item: &OutputItem) -> (r: Streamed)
    ensures
        r@ == item_told(kind@, n, output_index, item@),
{
    StreamedOf {
        name: kind,
        body: make_head(kind, n).with(
            "output_index",
            Json::Unsigned(output_index as u64),
        ).with("item", item.to_json()),
    }
}

/// Where a piece of a message stands.
pub open spec fn part_place(
    head: JsonView,
    item_id: Seq<char>,
    output_index: u32,
    content_index: u32,
) -> JsonView {
    head.with("item_id"@, JsonView::Text(item_id)).with(
        "output_index"@,
        JsonView::Unsigned(output_index as u64),
    ).with("content_index"@, JsonView::Unsigned(content_index as u64))
}

fn place_part(head: Json, item_id: &str, output_index: u32, content_index: u32) -> (r: Json)
    ensures
        r@ == part_place(head@, item_id@, output_index, content_index),
{
    head.with("item_id", Json::text(item_id)).with(
        "output_index",
        Json::Unsigned(output_index as u64),
    ).with("content_index", Json::Unsigned(content_index as u64))
}

/// A piece of a message begins or is done.
pub open spec fn part_told(
    kind: Seq<char>,
    n: u64,
    item_id: Seq<char>,
    output_index: u32,
    content_index: u32,
    part: PartView,
) -> StreamedView {
    StreamedOf {
        name: kind,
        body: part_place(event_head(kind, n), item_id, output_index, content_index).with(
            "part"@,
            part_json(part),
        ),
    }
}

pub fn tell_part(
    kind: &'static str,
    n: u64,
    item_id: &str,
    output_index: u32,
    content_index: u32,
    part: &OutputPart,
) -> (r: Streamed)
    ensures
        r@ == part_told(kind@, n, item_id@, output_index, content_index, part@),
{
    StreamedOf {
        name: kind,
        body: place_part(make_head(kind, n), item_id, output_index, content_index).with(
            "part",
            part.to_json(),
        ),
    }
}

/// Something is said of a piece of a message: a text added, the whole text, a refusal.
pub open spec fn text_told(
    kind: Seq<char>,
    n: u64,
    item_id: Seq<char>,
    output_index: u32,
    content_index: u32,
    field: Seq<char>,
    text: Seq<char>,
) -> StreamedView {
    StreamedOf {
        name: kind,
        body: part_place(event_head(kind, n), item_id, output_index, content_index).with(
            field,
            JsonView::Text(text),
        ),
    }
}

pub fn tell_text(
    kind: &'static str,
    n: u64,
    item_id: &str,
    output_index: u32,
    content_index: u32,
    field: &str,
    text: &str,
) -> (r: Streamed)
    ensures
        r@ == text_told(kind@, n, item_id@, output_index, content_index, field@, text@),
{
    StreamedOf {
        name: kind,
        body: place_part(make_head(kind, n), item_id, output_index, content_index).with(
            field,
            Json::text(text),
        ),
    }
}

/// Something is said of a call: input added, or the whole input.
pub open spec fn call_told(
    kind: Seq<char>,
    n: u64,
    item_id: Seq<char>,
    output_index: u32,
    name: Option<Seq<char>>,
    field: Seq<char>,
    text: Seq<char>,
) -> StreamedView {
    StreamedOf {
        name: kind,
        body: event_head(kind, n).with("item_id"@, JsonView::Text(item_id)).with(
            "output_index"@,
            JsonView::Unsigned(output_index as u64),
        ).with_some("name"@, match name {
            Some(name) => Some(JsonView::Text(name)),
            None => None,
        }).with(field, JsonView::Text(text)),
    }
}

pub fn tell_call(
    kind: &'static str,
    n: u64,
    item_id: &str,
    output_index: u32,
    name: Option<&str>,
    field: &str,
    text: &str,
) -> (r: Streamed)
    ensures
        r@ == call_told(
            kind@,
            n,
            item_id@,
            output_index,
            crate::text::text_of(name),
            field@,
            text@,
        ),
{
    let named = match name {
        Some(name) => Some(Json::text(name)),
        None => None,
    };
    StreamedOf {
        name: kind,
        body: make_head(kind, n).with("item_id", Json::text(item_id)).with(
            "output_index",
            Json::Unsigned(output_index as u64),
        ).with_some("name", named).with(field, Json::text(text)),
    }
}

} // verus!
