//! What every event of a streamed response tells the client: what just came, and nothing else.
use vstd::prelude::*;
use vstd::utf8::encode_utf8;

use crate::call_laws::{asks_for, lemma_call_asks_for_what_was_asked, named_id};
use crate::codec::{json_text, parsed};
use crate::decode::{BlockOf, DeltaOf, EventOf, StartOf};
use crate::json::JsonView;
use crate::lookups::lemma_put_lookup;
use crate::messages::StopReason;
use crate::responses::{item_json, part_json, ItemOf, ItemView, OutputStatus, PartOf};
use crate::stream::{event_taken, EndOf, StreamSettingsOf};
use crate::stream_blocks::Moment;
use crate::stream_state::{
    StreamBlockOf, StreamTextBlockOf, StreamToolBlockOf, StreamView, StreamedView,
};
use crate::tools::{tool_named, DeclaredOf, Table, WrappedKind};

verus! {

proof fn lemma_event_names()
    ensures
        "type"@ != "sequence_number"@,
        "type"@ != "item_id"@,
        "type"@ != "output_index"@,
        "type"@ != "content_index"@,
        "type"@ != "delta"@,
        "type"@ != "text"@,
        "type"@ != "part"@,
        "type"@ != "item"@,
        "type"@ != "name"@,
        "type"@ != "arguments"@,
        "type"@ != "input"@,
        "type"@ != "response"@,
        "type"@ != "refusal"@,
        "sequence_number"@ != "item_id"@,
        "sequence_number"@ != "output_index"@,
        "sequence_number"@ != "content_index"@,
        "sequence_number"@ != "delta"@,
        "sequence_number"@ != "text"@,
        "sequence_number"@ != "part"@,
        "sequence_number"@ != "item"@,
        "sequence_number"@ != "name"@,
        "sequence_number"@ != "arguments"@,
        "sequence_number"@ != "input"@,
        "sequence_number"@ != "response"@,
        "sequence_number"@ != "refusal"@,
        "item_id"@ != "output_index"@,
        "item_id"@ != "content_index"@,
        "item_id"@ != "delta"@,
        "item_id"@ != "text"@,
        "item_id"@ != "part"@,
        "item_id"@ != "item"@,
        "item_id"@ != "name"@,
        "item_id"@ != "arguments"@,
        "item_id"@ != "input"@,
        "item_id"@ != "response"@,
        "item_id"@ != "refusal"@,
        "output_index"@ != "content_index"@,
        "output_index"@ != "delta"@,
        "output_index"@ != "text"@,
        "output_index"@ != "part"@,
        "output_index"@ != "item"@,
        "output_index"@ != "name"@,
        "output_index"@ != "arguments"@,
        "output_index"@ != "input"@,
        "output_index"@ != "response"@,
        "output_index"@ != "refusal"@,
        "content_index"@ != "delta"@,
        "content_index"@ != "text"@,
        "content_index"@ != "part"@,
        "content_index"@ != "item"@,
        "content_index"@ != "name"@,
        "content_index"@ != "arguments"@,
        "content_index"@ != "input"@,
        "content_index"@ != "response"@,
        "content_index"@ != "refusal"@,
        "delta"@ != "text"@,
        "delta"@ != "part"@,
        "delta"@ != "item"@,
        "delta"@ != "name"@,
        "delta"@ != "arguments"@,
        "delta"@ != "input"@,
        "delta"@ != "response"@,
        "delta"@ != "refusal"@,
        "text"@ != "part"@,
        "text"@ != "item"@,
        "text"@ != "name"@,
        "text"@ != "arguments"@,
        "text"@ != "input"@,
        "text"@ != "response"@,
        "text"@ != "refusal"@,
        "part"@ != "item"@,
        "part"@ != "name"@,
        "part"@ != "arguments"@,
        "part"@ != "input"@,
        "part"@ != "response"@,
        "part"@ != "refusal"@,
        "item"@ != "name"@,
        "item"@ != "arguments"@,
        "item"@ != "input"@,
        "item"@ != "response"@,
        "item"@ != "refusal"@,
        "name"@ != "arguments"@,
        "name"@ != "input"@,
        "name"@ != "response"@,
        "name"@ != "refusal"@,
        "arguments"@ != "input"@,
        "arguments"@ != "response"@,
        "arguments"@ != "refusal"@,
        "input"@ != "response"@,
        "input"@ != "refusal"@,
        "response"@ != "refusal"@,
{
    reveal_strlit("type");
    reveal_strlit("sequence_number");
    reveal_strlit("item_id");
    reveal_strlit("output_index");
    reveal_strlit("content_index");
    reveal_strlit("delta");
    reveal_strlit("text");
    reveal_strlit("part");
    reveal_strlit("item");
    reveal_strlit("name");
    reveal_strlit("arguments");
    reveal_strlit("input");
    reveal_strlit("response");
    reveal_strlit("refusal");
    assert("type"@.len() == 4);
    assert("sequence_number"@.len() == 15);
    assert("item_id"@.len() == 7);
    assert("output_index"@.len() == 12);
    assert("content_index"@.len() == 13);
    assert("delta"@.len() == 5);
    assert("text"@.len() == 4);
    assert("part"@.len() == 4);
    assert("item"@.len() == 4);
    assert("name"@.len() == 4);
    assert("arguments"@.len() == 9);
    assert("input"@.len() == 5);
    assert("response"@.len() == 8);
    assert("refusal"@.len() == 7);
    assert("type"@[1] == 'y');
    assert("text"@[1] == 'e');
    assert("type"@[0] == 't');
    assert("part"@[0] == 'p');
    assert("item"@[0] == 'i');
    assert("name"@[0] == 'n');
    assert("item_id"@[0] == 'i');
    assert("refusal"@[0] == 'r');
    assert("delta"@[0] == 'd');
    assert("input"@[0] == 'i');
    assert("text"@[0] == 't');
}

proof fn lemma_item_names()
    ensures
        "type"@ != "id"@,
        "type"@ != "call_id"@,
        "type"@ != "name"@,
        "type"@ != "namespace"@,
        "type"@ != "arguments"@,
        "type"@ != "status"@,
        "type"@ != "input"@,
        "type"@ != "role"@,
        "type"@ != "phase"@,
        "type"@ != "content"@,
        "id"@ != "call_id"@,
        "id"@ != "name"@,
        "id"@ != "namespace"@,
        "id"@ != "arguments"@,
        "id"@ != "status"@,
        "id"@ != "input"@,
        "id"@ != "role"@,
        "id"@ != "phase"@,
        "id"@ != "content"@,
        "call_id"@ != "name"@,
        "call_id"@ != "namespace"@,
        "call_id"@ != "arguments"@,
        "call_id"@ != "status"@,
        "call_id"@ != "input"@,
        "call_id"@ != "role"@,
        "call_id"@ != "phase"@,
        "call_id"@ != "content"@,
        "name"@ != "namespace"@,
        "name"@ != "arguments"@,
        "name"@ != "status"@,
        "name"@ != "input"@,
        "name"@ != "role"@,
        "name"@ != "phase"@,
        "name"@ != "content"@,
        "namespace"@ != "arguments"@,
        "namespace"@ != "status"@,
        "namespace"@ != "input"@,
        "namespace"@ != "role"@,
        "namespace"@ != "phase"@,
        "namespace"@ != "content"@,
        "arguments"@ != "status"@,
        "arguments"@ != "input"@,
        "arguments"@ != "role"@,
        "arguments"@ != "phase"@,
        "arguments"@ != "content"@,
        "status"@ != "input"@,
        "status"@ != "role"@,
        "status"@ != "phase"@,
        "status"@ != "content"@,
        "input"@ != "role"@,
        "input"@ != "phase"@,
        "input"@ != "content"@,
        "role"@ != "phase"@,
        "role"@ != "content"@,
        "phase"@ != "content"@,
{
    reveal_strlit("type");
    reveal_strlit("id");
    reveal_strlit("call_id");
    reveal_strlit("name");
    reveal_strlit("namespace");
    reveal_strlit("arguments");
    reveal_strlit("status");
    reveal_strlit("input");
    reveal_strlit("role");
    reveal_strlit("phase");
    reveal_strlit("content");
    assert("type"@.len() == 4);
    assert("id"@.len() == 2);
    assert("call_id"@.len() == 7);
    assert("name"@.len() == 4);
    assert("namespace"@.len() == 9);
    assert("arguments"@.len() == 9);
    assert("status"@.len() == 6);
    assert("input"@.len() == 5);
    assert("role"@.len() == 4);
    assert("phase"@.len() == 5);
    assert("content"@.len() == 7);
    assert("type"@[0] == 't');
    assert("name"@[0] == 'n');
    assert("role"@[0] == 'r');
    assert("call_id"@[1] == 'a');
    assert("content"@[1] == 'o');
    assert("namespace"@[0] == 'n');
    assert("arguments"@[0] == 'a');
    assert("input"@[0] == 'i');
    assert("phase"@[0] == 'p');
}

proof fn lemma_part_names()
    ensures
        "type"@ != "annotations"@,
        "type"@ != "logprobs"@,
        "type"@ != "text"@,
        "type"@ != "refusal"@,
        "annotations"@ != "logprobs"@,
        "annotations"@ != "text"@,
        "annotations"@ != "refusal"@,
        "logprobs"@ != "text"@,
        "logprobs"@ != "refusal"@,
        "text"@ != "refusal"@,
{
    reveal_strlit("type");
    reveal_strlit("annotations");
    reveal_strlit("logprobs");
    reveal_strlit("text");
    reveal_strlit("refusal");
    assert("type"@.len() == 4);
    assert("annotations"@.len() == 11);
    assert("logprobs"@.len() == 8);
    assert("text"@.len() == 4);
    assert("refusal"@.len() == 7);
    assert("type"@[1] == 'y');
    assert("text"@[1] == 'e');
}

/// Whether an event is of a kind and has a number.
pub open spec fn is_event(e: StreamedView, kind: Seq<char>, n: int) -> bool {
    e.name == kind && e.body.get("type"@) == Some(JsonView::Text(kind)) && 0 <= n <= u64::MAX
        && e.body.get("sequence_number"@) == Some(JsonView::Unsigned(n as u64))
}

/// Whether an event is of an item, by its id and its place.
pub open spec fn of_item(e: StreamedView, item_id: Seq<char>, output_index: u32) -> bool {
    e.body.get("item_id"@) == Some(JsonView::Text(item_id)) && e.body.get("output_index"@) == Some(
        JsonView::Unsigned(output_index as u64),
    )
}

/// Whether an event is of the piece of a message that a text block is.
pub open spec fn of_text(e: StreamedView, b: StreamTextBlockOf<Seq<char>>) -> bool {
    of_item(e, b.item_id, b.output_index) && e.body.get("content_index"@) == Some(
        JsonView::Unsigned(b.content_index as u64),
    )
}

/// Whether an event tells a text under a name.
pub open spec fn tells(e: StreamedView, name: Seq<char>, text: Seq<char>) -> bool {
    e.body.get(name) == Some(JsonView::Text(text))
}

/// A piece of text that comes is passed on by itself, as it is, and added to what the block holds.
pub proof fn lemma_text_piece_is_told(
    s: StreamView,
    index: usize,
    piece: Seq<char>,
    settings: StreamSettingsOf<Seq<char>>,
    tools: Table,
    at: Moment,
)
    ensures
        event_taken(
            s,
            EventOf::ContentBlockDelta { index, delta: DeltaOf::Text(piece) },
            settings,
            tools,
            at,
        ) matches EndOf::Complete(next, told) ==> {
            &&& s.active_block matches Some(StreamBlockOf::Text(b)) && b.index == index
                && told.len() == 1 && is_event(
                told[0],
                "response.output_text.delta"@,
                s.sequence_number as int,
            ) && of_text(told[0], b) && tells(told[0], "delta"@, piece) && (
            next.active_block matches Some(StreamBlockOf::Text(c)) && c == (StreamTextBlockOf {
                text: b.text + piece,
                ..b
            }))
            &&& next.output == s.output
        },
{
    broadcast use lemma_put_lookup;

    reveal(event_taken);
    lemma_event_names();
}

/// A piece of a function's input that comes is passed on by itself, as it is; a piece of any other
/// tool's input is not passed on. Either is added to what the block holds.
pub proof fn lemma_input_piece_is_told(
    s: StreamView,
    index: usize,
    piece: Seq<char>,
    settings: StreamSettingsOf<Seq<char>>,
    tools: Table,
    at: Moment,
)
    ensures
        event_taken(
            s,
            EventOf::ContentBlockDelta { index, delta: DeltaOf::InputJson(piece) },
            settings,
            tools,
            at,
        ) matches EndOf::Complete(next, told) ==> {
            &&& s.active_block matches Some(StreamBlockOf::Tool(b)) && b.index == index && (
            match tool_named(tools, b.upstream_name) {
                Some(DeclaredOf::Function) => told.len() == 1 && is_event(
                    told[0],
                    "response.function_call_arguments.delta"@,
                    s.sequence_number as int,
                ) && of_item(told[0], b.item_id, b.output_index) && tells(
                    told[0],
                    "delta"@,
                    piece,
                ),
                Some(DeclaredOf::Wrapped(_)) => told.len() == 0,
                None => false,
            }) && (next.active_block matches Some(StreamBlockOf::Tool(c)) && c == (
            StreamToolBlockOf { json: b.json + piece, ..b }))
            &&& next.output == s.output
        },
{
    broadcast use lemma_put_lookup;

    reveal(event_taken);
    lemma_event_names();
}

/// What comes of pieces, one after the other: the stream then, and all that was told.
pub open spec fn pieces_taken(
    s: StreamView,
    index: usize,
    pieces: Seq<DeltaOf<Seq<char>>>,
    settings: StreamSettingsOf<Seq<char>>,
    tools: Table,
    at: Moment,
) -> Option<(StreamView, Seq<StreamedView>)>
    decreases pieces.len(),
{
    if pieces.len() == 0 {
        Some((s, Seq::empty()))
    } else {
        match pieces_taken(s, index, pieces.drop_last(), settings, tools, at) {
            Some((before, told)) => match event_taken(
                before,
                EventOf::ContentBlockDelta { index, delta: pieces.last() },
                settings,
                tools,
                at,
            ) {
                EndOf::Complete(next, more) => Some((next, told + more)),
                _ => None,
            },
            None => None,
        }
    }
}

/// What the deltas of events are when they are put together.
pub open spec fn put_together(events: Seq<StreamedView>) -> Seq<char>
    decreases events.len(),
{
    if events.len() == 0 {
        Seq::empty()
    } else {
        put_together(events.drop_last()) + (match events.last().body.get("delta"@) {
            Some(JsonView::Text(text)) => text,
            _ => Seq::empty(),
        })
    }
}

proof fn lemma_put_together_more(events: Seq<StreamedView>, e: StreamedView)
    ensures
        put_together(events + seq![e]) == put_together(events) + put_together(seq![e]),
        e.body.get("delta"@) matches Some(JsonView::Text(text)) ==> put_together(seq![e]) == text,
{
    assert((events + seq![e]).drop_last() == events);
    assert(seq![e].drop_last() == Seq::<StreamedView>::empty());
    reveal_with_fuel(put_together, 2);
    match e.body.get("delta"@) {
        Some(JsonView::Text(text)) => {
            assert(Seq::<char>::empty() + text == text);
        },
        _ => {
            assert(Seq::<char>::empty() + Seq::<char>::empty() == Seq::<char>::empty());
        },
    }
}

proof fn lemma_input_pieces(
    s: StreamView,
    b: StreamToolBlockOf<Seq<char>>,
    pieces: Seq<DeltaOf<Seq<char>>>,
    settings: StreamSettingsOf<Seq<char>>,
    tools: Table,
    at: Moment,
)
    requires
        s.active_block == Some(StreamBlockOf::Tool(b)),
        b.json.len() == 0,
        tool_named(tools, b.upstream_name) == Some(DeclaredOf::<Seq<char>>::Function),
        forall|k: int| 0 <= k < pieces.len() ==> (#[trigger] pieces[k]) is InputJson,
    ensures
        pieces_taken(s, b.index, pieces, settings, tools, at) matches Some((next, told)) ==> {
            &&& next.active_block matches Some(StreamBlockOf::Tool(c)) && c == (StreamToolBlockOf {
                json: put_together(told),
                ..b
            })
            &&& told.len() == pieces.len()
            &&& forall|k: int|
                0 <= k < told.len() ==> tells(#[trigger] told[k], "delta"@, pieces[k]->InputJson_0)
                    && told[k].name == "response.function_call_arguments.delta"@ && of_item(
                    told[k],
                    b.item_id,
                    b.output_index,
                )
        },
    decreases pieces.len(),
{
    if pieces.len() > 0 {
        lemma_input_pieces(s, b, pieces.drop_last(), settings, tools, at);
        match pieces_taken(s, b.index, pieces.drop_last(), settings, tools, at) {
            Some((before, told)) => {
                assert(pieces[pieces.len() - 1] is InputJson);
                let piece = pieces.last()->InputJson_0;
                lemma_input_piece_is_told(before, b.index, piece, settings, tools, at);
                match event_taken(
                    before,
                    EventOf::ContentBlockDelta { index: b.index, delta: pieces.last() },
                    settings,
                    tools,
                    at,
                ) {
                    EndOf::Complete(next, more) => {
                        assert(more == seq![more[0]]);
                        lemma_put_together_more(told, more[0]);
                        assert forall|k: int| 0 <= k < (told + more).len() implies tells(
                            #[trigger] (told + more)[k],
                            "delta"@,
                            pieces[k]->InputJson_0,
                        ) && (told + more)[k].name == "response.function_call_arguments.delta"@
                            && of_item((told + more)[k], b.item_id, b.output_index) by {
                            if k < told.len() {
                                assert((told + more)[k] == told[k]);
                                assert(pieces.drop_last()[k] == pieces[k]);
                            } else {
                                assert((told + more)[k] == more[0]);
                            }
                        }
                    },
                    _ => {},
                }
            },
            None => {},
        }
    } else {
        assert(put_together(Seq::empty()) == b.json);
    }
}

proof fn lemma_text_pieces(
    s: StreamView,
    b: StreamTextBlockOf<Seq<char>>,
    pieces: Seq<DeltaOf<Seq<char>>>,
    settings: StreamSettingsOf<Seq<char>>,
    tools: Table,
    at: Moment,
)
    requires
        s.active_block == Some(StreamBlockOf::Text(b)),
        b.text.len() == 0,
        forall|k: int| 0 <= k < pieces.len() ==> (#[trigger] pieces[k]) is Text,
    ensures
        pieces_taken(s, b.index, pieces, settings, tools, at) matches Some((next, told)) ==> {
            &&& next.active_block matches Some(StreamBlockOf::Text(c)) && c == (StreamTextBlockOf {
                text: put_together(told),
                ..b
            })
            &&& told.len() == pieces.len()
            &&& forall|k: int|
                0 <= k < told.len() ==> tells(#[trigger] told[k], "delta"@, pieces[k]->Text_0)
                    && told[k].name == "response.output_text.delta"@ && of_text(told[k], b)
        },
    decreases pieces.len(),
{
    if pieces.len() > 0 {
        lemma_text_pieces(s, b, pieces.drop_last(), settings, tools, at);
        match pieces_taken(s, b.index, pieces.drop_last(), settings, tools, at) {
            Some((before, told)) => {
                assert(pieces[pieces.len() - 1] is Text);
                let piece = pieces.last()->Text_0;
                lemma_text_piece_is_told(before, b.index, piece, settings, tools, at);
                match event_taken(
                    before,
                    EventOf::ContentBlockDelta { index: b.index, delta: pieces.last() },
                    settings,
                    tools,
                    at,
                ) {
                    EndOf::Complete(next, more) => {
                        assert(more == seq![more[0]]);
                        lemma_put_together_more(told, more[0]);
                        assert forall|k: int| 0 <= k < (told + more).len() implies tells(
                            #[trigger] (told + more)[k],
                            "delta"@,
                            pieces[k]->Text_0,
                        ) && (told + more)[k].name == "response.output_text.delta"@ && of_text(
                            (told + more)[k],
                            b,
                        ) by {
                            if k < told.len() {
                                assert((told + more)[k] == told[k]);
                                assert(pieces.drop_last()[k] == pieces[k]);
                            } else {
                                assert((told + more)[k] == more[0]);
                            }
                        }
                    },
                    _ => {},
                }
            },
            None => {},
        }
    } else {
        assert(put_together(Seq::empty()) == b.text);
    }
}

/// A text that is done is told as done with all of its text, and kept as the last piece that the
/// response has so far.
pub proof fn lemma_text_done(
    s: StreamView,
    b: StreamTextBlockOf<Seq<char>>,
    settings: StreamSettingsOf<Seq<char>>,
    tools: Table,
    at: Moment,
)
    requires
        s.active_block == Some(StreamBlockOf::Text(b)),
    ensures
        event_taken(
            s,
            EventOf::ContentBlockStop { index: b.index },
            settings,
            tools,
            at,
        ) matches EndOf::Complete(next, told) ==> {
            &&& told.len() == 2
            &&& is_event(told[0], "response.output_text.done"@, s.sequence_number as int)
            &&& of_text(told[0], b)
            &&& tells(told[0], "text"@, b.text)
            &&& is_event(told[1], "response.content_part.done"@, s.sequence_number + 1)
            &&& of_text(told[1], b)
            &&& told[1].body.get("part"@) matches Some(part) && part.get("type"@) == Some(
                JsonView::Text("output_text"@),
            ) && part.get("text"@) == Some(JsonView::Text(b.text))
            &&& next.active_block is None
            &&& next.output.len() > 0
            &&& next.output.last() matches ItemOf::Message(m) && m.id == b.item_id
                && m.content.len()
                == b.content_index + 1 && m.content.last() == PartOf::OutputText(b.text)
            &&& next.output.len() == b.output_index + 1
            &&& next.output.drop_last() == s.output.take(b.output_index as int)
        },
{
    broadcast use lemma_put_lookup;

    reveal(event_taken);
    lemma_event_names();
    lemma_part_names();
}

/// The deltas that are told of a function call, put together, are the arguments that it is told as
/// done with. Where no input came, these are an empty object.
pub proof fn lemma_argument_deltas_are_the_arguments(
    s: StreamView,
    b: StreamToolBlockOf<Seq<char>>,
    pieces: Seq<DeltaOf<Seq<char>>>,
    settings: StreamSettingsOf<Seq<char>>,
    tools: Table,
    at: Moment,
    then: Moment,
)
    requires
        s.active_block == Some(StreamBlockOf::Tool(b)),
        b.json.len() == 0,
        tool_named(tools, b.upstream_name) == Some(DeclaredOf::<Seq<char>>::Function),
        forall|k: int| 0 <= k < pieces.len() ==> (#[trigger] pieces[k]) is InputJson,
    ensures
        pieces_taken(s, b.index, pieces, settings, tools, at) matches Some((next, told)) ==> {
            &&& told.len() == pieces.len()
            &&& forall|k: int|
                0 <= k < told.len() ==> tells(#[trigger] told[k], "delta"@, pieces[k]->InputJson_0)
                    && told[k].name == "response.function_call_arguments.delta"@
            &&& event_taken(
                next,
                EventOf::ContentBlockStop { index: b.index },
                settings,
                tools,
                then,
            ) matches EndOf::Complete(after, done) ==> {
                &&& done.len() == 1
                &&& is_event(
                    done[0],
                    "response.function_call_arguments.done"@,
                    next.sequence_number as int,
                )
                &&& of_item(done[0], b.item_id, b.output_index)
                &&& tells(done[0], "name"@, b.upstream_name)
                &&& tells(
                    done[0],
                    "arguments"@,
                    if put_together(told).len() == 0 {
                        "{}"@
                    } else {
                        put_together(told)
                    },
                )
                &&& after.output.len() == next.output.len() + 1
            }
        },
{
    broadcast use lemma_put_lookup;

    lemma_input_pieces(s, b, pieces, settings, tools, at);
    lemma_event_names();
    reveal(event_taken);
}

/// The deltas that are told of a text, put together, are the text that it is told as done with,
/// and the text of the piece that the response has.
pub proof fn lemma_text_deltas_are_the_text(
    s: StreamView,
    b: StreamTextBlockOf<Seq<char>>,
    pieces: Seq<DeltaOf<Seq<char>>>,
    settings: StreamSettingsOf<Seq<char>>,
    tools: Table,
    at: Moment,
    then: Moment,
)
    requires
        s.active_block == Some(StreamBlockOf::Text(b)),
        b.text.len() == 0,
        forall|k: int| 0 <= k < pieces.len() ==> (#[trigger] pieces[k]) is Text,
    ensures
        pieces_taken(s, b.index, pieces, settings, tools, at) matches Some((next, told)) ==> {
            &&& told.len() == pieces.len()
            &&& forall|k: int|
                0 <= k < told.len() ==> tells(#[trigger] told[k], "delta"@, pieces[k]->Text_0)
                    && told[k].name == "response.output_text.delta"@
            &&& event_taken(
                next,
                EventOf::ContentBlockStop { index: b.index },
                settings,
                tools,
                then,
            ) matches EndOf::Complete(after, done) ==> {
                &&& done.len() == 2
                &&& tells(done[0], "text"@, put_together(told))
                &&& after.output.last() matches ItemOf::Message(m) && m.content.last()
                    == PartOf::OutputText(put_together(told))
            }
        },
{
    lemma_text_pieces(s, b, pieces, settings, tools, at);
    match pieces_taken(s, b.index, pieces, settings, tools, at) {
        Some((next, told)) => {
            let c = StreamTextBlockOf { text: put_together(told), ..b };
            lemma_text_done(next, c, settings, tools, then);
        },
        None => {},
    }
}

/// A tool use that is done is kept as a call that asks the client for what the model asked for;
/// and the client is told its input as the call has it, or the call itself.
#[verifier::rlimit(60)]
pub proof fn lemma_call_done(
    s: StreamView,
    b: StreamToolBlockOf<Seq<char>>,
    message_id: Seq<char>,
    input: JsonView,
    settings: StreamSettingsOf<Seq<char>>,
    tools: Table,
    at: Moment,
)
    requires
        s.active_block == Some(StreamBlockOf::Tool(b)),
        s.message_id == Some(message_id),
        parsed(
            encode_utf8(
                if b.json.len() == 0 {
                    "{}"@
                } else {
                    b.json
                },
            ),
        ) == Some(input),
    ensures
        event_taken(
            s,
            EventOf::ContentBlockStop { index: b.index },
            settings,
            tools,
            at,
        ) matches EndOf::Complete(next, told) ==> {
            &&& next.active_block is None
            &&& next.output.len() == s.output.len() + 1
            &&& next.output.drop_last() == s.output
            &&& asks_for(
                item_json(next.output.last()),
                message_id,
                b.index as nat,
                "in_progress"@,
                b.call_id,
                b.upstream_name,
                input,
                tools,
            )
            &&& match tool_named(tools, b.upstream_name) {
                None => false,
                Some(DeclaredOf::Function) => true,
                Some(DeclaredOf::Wrapped(w)) => match w.kind {
                    WrappedKind::NamespaceFunction => {
                        let arguments = json_text(input.get("arguments"@)->0);
                        &&& told.len() == 2
                        &&& is_event(
                            told[0],
                            "response.function_call_arguments.delta"@,
                            s.sequence_number as int,
                        )
                        &&& of_item(told[0], b.item_id, b.output_index)
                        &&& tells(told[0], "delta"@, arguments)
                        &&& is_event(
                            told[1],
                            "response.function_call_arguments.done"@,
                            s.sequence_number + 1,
                        )
                        &&& of_item(told[1], b.item_id, b.output_index)
                        &&& tells(told[1], "name"@, w.name)
                        &&& tells(told[1], "arguments"@, arguments)
                    },
                    WrappedKind::NamespaceCustom | WrappedKind::Custom => {
                        &&& told.len() == 2
                        &&& is_event(
                            told[0],
                            "response.custom_tool_call_input.delta"@,
                            s.sequence_number as int,
                        )
                        &&& of_item(told[0], b.item_id, b.output_index)
                        &&& told[0].body.get("delta"@) == input.get("input"@)
                        &&& is_event(
                            told[1],
                            "response.custom_tool_call_input.done"@,
                            s.sequence_number + 1,
                        )
                        &&& of_item(told[1], b.item_id, b.output_index)
                        &&& told[1].body.get("input"@) == input.get("input"@)
                    },
                    _ => {
                        &&& told.len() == 1
                        &&& is_event(
                            told[0],
                            "response.output_item.added"@,
                            s.sequence_number as int,
                        )
                        &&& told[0].body.get("output_index"@) == Some(
                            JsonView::Unsigned(b.output_index as u64),
                        )
                        &&& told[0].body.get("item"@) == Some(item_json(next.output.last()))
                    },
                },
            }
        },
{
    reveal(event_taken);
    match event_taken(s, EventOf::ContentBlockStop { index: b.index }, settings, tools, at) {
        EndOf::Complete(next, told) => {
            lemma_call_asks_for_what_was_asked(
                message_id,
                b.index as nat,
                "in_progress"@,
                b.call_id,
                b.upstream_name,
                input,
                tools,
            );
            lemma_call_done_events(s, b, message_id, input, settings, tools, at);
        },
        _ => {},
    }
}

#[verifier::rlimit(60)]
proof fn lemma_call_done_events(
    s: StreamView,
    b: StreamToolBlockOf<Seq<char>>,
    message_id: Seq<char>,
    input: JsonView,
    settings: StreamSettingsOf<Seq<char>>,
    tools: Table,
    at: Moment,
)
    requires
        s.active_block == Some(StreamBlockOf::Tool(b)),
        s.message_id == Some(message_id),
        parsed(
            encode_utf8(
                if b.json.len() == 0 {
                    "{}"@
                } else {
                    b.json
                },
            ),
        ) == Some(input),
    ensures
        event_taken(
            s,
            EventOf::ContentBlockStop { index: b.index },
            settings,
            tools,
            at,
        ) matches EndOf::Complete(next, told) ==> match tool_named(tools, b.upstream_name) {
            None => false,
            Some(DeclaredOf::Function) => true,
            Some(DeclaredOf::Wrapped(w)) => match w.kind {
                WrappedKind::NamespaceFunction => {
                    let arguments = json_text(input.get("arguments"@)->0);
                    &&& told.len() == 2
                    &&& is_event(
                        told[0],
                        "response.function_call_arguments.delta"@,
                        s.sequence_number as int,
                    )
                    &&& of_item(told[0], b.item_id, b.output_index)
                    &&& tells(told[0], "delta"@, arguments)
                    &&& is_event(
                        told[1],
                        "response.function_call_arguments.done"@,
                        s.sequence_number + 1,
                    )
                    &&& of_item(told[1], b.item_id, b.output_index)
                    &&& tells(told[1], "name"@, w.name)
                    &&& tells(told[1], "arguments"@, arguments)
                },
                WrappedKind::NamespaceCustom | WrappedKind::Custom => {
                    &&& told.len() == 2
                    &&& is_event(
                        told[0],
                        "response.custom_tool_call_input.delta"@,
                        s.sequence_number as int,
                    )
                    &&& of_item(told[0], b.item_id, b.output_index)
                    &&& told[0].body.get("delta"@) == input.get("input"@)
                    &&& is_event(
                        told[1],
                        "response.custom_tool_call_input.done"@,
                        s.sequence_number + 1,
                    )
                    &&& of_item(told[1], b.item_id, b.output_index)
                    &&& told[1].body.get("input"@) == input.get("input"@)
                },
                _ => {
                    &&& told.len() == 1
                    &&& is_event(told[0], "response.output_item.added"@, s.sequence_number as int)
                    &&& told[0].body.get("output_index"@) == Some(
                        JsonView::Unsigned(b.output_index as u64),
                    )
                    &&& told[0].body.get("item"@) == Some(item_json(next.output.last()))
                },
            },
        },
{
    broadcast use lemma_put_lookup;

    reveal(event_taken);
    lemma_event_names();
}

/// A text that begins is announced: as a new piece of the message that is the last item, or of a
/// new message at the end. It begins empty.
pub proof fn lemma_text_begins(
    s: StreamView,
    message_id: Seq<char>,
    index: usize,
    settings: StreamSettingsOf<Seq<char>>,
    tools: Table,
    at: Moment,
)
    requires
        s.message_id == Some(message_id),
    ensures
        event_taken(
            s,
            EventOf::ContentBlockStart {
                index,
                block: BlockOf::Text { text: Seq::empty(), marked: false },
            },
            settings,
            tools,
            at,
        ) matches EndOf::Complete(next, told) ==> {
            &&& next.output == s.output
            &&& next.active_block matches Some(StreamBlockOf::Text(b)) && b.index == index
                && b.text.len() == 0 && ({
                let last = told[told.len() - 1];
                let n = s.sequence_number as int;
                &&& of_text(last, b)
                &&& last.body.get("part"@) matches Some(part) && part.get("type"@) == Some(
                    JsonView::Text("output_text"@),
                ) && part.get("text"@) == Some(JsonView::Text(Seq::empty()))
                &&& if s.output.len() > 0 && s.output.last() is Message {
                    &&& told.len() == 1
                    &&& is_event(last, "response.content_part.added"@, n)
                    &&& b.output_index == s.output.len() - 1
                    &&& b.item_id == s.output.last()->Message_0.id
                    &&& b.content_index == s.output.last()->Message_0.content.len()
                } else {
                    &&& told.len() == 2
                    &&& is_event(told[0], "response.output_item.added"@, n)
                    &&& is_event(last, "response.content_part.added"@, n + 1)
                    &&& b.output_index == s.output.len()
                    &&& b.content_index == 0
                    &&& JsonView::Text(b.item_id) == named_id("msg"@, message_id, index as nat)
                    &&& told[0].body.get("output_index"@) == Some(
                        JsonView::Unsigned(b.output_index as u64),
                    )
                    &&& told[0].body.get("item"@) matches Some(item) && item.get("type"@) == Some(
                        JsonView::Text("message"@),
                    ) && item.get("id"@) == Some(JsonView::Text(b.item_id)) && item.get("role"@)
                        == Some(JsonView::Text("assistant"@)) && item.get("status"@) == Some(
                        JsonView::Text("in_progress"@),
                    ) && item.get("content"@) == Some(JsonView::Array(Seq::empty()))
                }
            })
        },
{
    broadcast use lemma_put_lookup;

    reveal(event_taken);
    lemma_event_names();
    lemma_item_names();
    lemma_part_names();
    reveal_strlit("_");
    assert("_"@ == seq!['_']);
    assert(Seq::<crate::responses::PartView>::empty().map_values(
        |p: crate::responses::PartView| part_json(p),
    ) == Seq::<JsonView>::empty());
}

/// A tool use that begins is announced under its id, without input, where the client can follow it
/// from the start: a call of a function, or of a tool that takes free text.
#[verifier::rlimit(60)]
pub proof fn lemma_call_begins(
    s: StreamView,
    message_id: Seq<char>,
    index: usize,
    id: Seq<char>,
    name: Seq<char>,
    caller: Option<JsonView>,
    settings: StreamSettingsOf<Seq<char>>,
    tools: Table,
    at: Moment,
)
    requires
        s.message_id == Some(message_id),
    ensures
        event_taken(
            s,
            EventOf::ContentBlockStart {
                index,
                block: BlockOf::ToolUse {
                    id,
                    name,
                    input: JsonView::object(),
                    caller,
                    marked: false,
                },
            },
            settings,
            tools,
            at,
        ) matches EndOf::Complete(next, told) ==> {
            &&& next.output == s.output
            &&& next.active_block matches Some(StreamBlockOf::Tool(b)) && b.index == index
                && b.json.len() == 0 && b.call_id == id && b.upstream_name == name
                && b.output_index == s.output.len() && ({
                let item = told[0].body.get("item"@)->0;
                let announced = told.len() == 1 && is_event(
                    told[0],
                    "response.output_item.added"@,
                    s.sequence_number as int,
                ) && told[0].body.get("output_index"@) == Some(
                    JsonView::Unsigned(b.output_index as u64),
                ) && told[0].body.get("item"@) is Some && item.get("id"@) == Some(
                    JsonView::Text(b.item_id),
                ) && item.get("call_id"@) == Some(JsonView::Text(id));
                match tool_named(tools, name) {
                    None => false,
                    Some(DeclaredOf::Function) => announced
                        && JsonView::Text(b.item_id) == named_id(
                        "fc"@,
                        message_id,
                        index as nat,
                    ) && item.get("type"@) == Some(JsonView::Text("function_call"@)) && item.get(
                        "name"@,
                    ) == Some(JsonView::Text(name)) && item.get("arguments"@) == Some(
                        JsonView::Text(Seq::empty()),
                    ) && item.get("status"@) == Some(JsonView::Text("in_progress"@)),
                    Some(DeclaredOf::Wrapped(w)) => match w.kind {
                        WrappedKind::NamespaceFunction => announced && JsonView::Text(b.item_id)
                            == named_id("fc"@, message_id, index as nat) && item.get("type"@)
                            == Some(JsonView::Text("function_call"@)) && item.get("name"@) == Some(
                            JsonView::Text(w.name),
                        ) && item.get("namespace"@) == (match w.namespace {
                            Some(namespace) => Some(JsonView::Text(namespace)),
                            None => None,
                        }) && item.get("arguments"@) == Some(JsonView::Text(Seq::empty())),
                        WrappedKind::NamespaceCustom | WrappedKind::Custom => announced
                            && JsonView::Text(b.item_id) == named_id(
                            "ctc"@,
                            message_id,
                            index as nat,
                        ) && item.get("type"@) == Some(JsonView::Text("custom_tool_call"@))
                            && item.get("name"@) == Some(JsonView::Text(w.name)) && item.get(
                            "namespace"@,
                        ) == (match w.namespace {
                            Some(namespace) => Some(JsonView::Text(namespace)),
                            None => None,
                        }) && item.get("input"@) == Some(JsonView::Text(Seq::empty())),
                        WrappedKind::LocalShell => told.len() == 0 && JsonView::Text(b.item_id)
                            == named_id("lsc"@, message_id, index as nat),
                        WrappedKind::Shell => told.len() == 0 && JsonView::Text(b.item_id)
                            == named_id("shc"@, message_id, index as nat),
                        WrappedKind::ApplyPatch => told.len() == 0 && JsonView::Text(b.item_id)
                            == named_id("apc"@, message_id, index as nat),
                    },
                }
            })
        },
{
    broadcast use lemma_put_lookup;

    reveal(event_taken);
    lemma_event_names();
    lemma_item_names();
    reveal_strlit("_");
    assert("_"@ == seq!['_']);
}

/// A stream that begins is told twice, as created and as in progress, with the same response: that
/// of the answer's id, of the model that was asked for, without output.
pub proof fn lemma_stream_begins(
    s: StreamView,
    m: StartOf<Seq<char>>,
    settings: StreamSettingsOf<Seq<char>>,
    tools: Table,
    at: Moment,
)
    ensures
        event_taken(s, EventOf::MessageStart(m), settings, tools, at) matches EndOf::Complete(
            next,
            told,
        ) ==> {
            &&& told.len() == 2
            &&& is_event(told[0], "response.created"@, s.sequence_number as int)
            &&& is_event(told[1], "response.in_progress"@, s.sequence_number + 1)
            &&& told[0].body.get("response"@) == told[1].body.get("response"@)
            &&& told[0].body.get("response"@) matches Some(r) && r.get("id"@) == Some(
                JsonView::Text("resp_"@ + m.id),
            ) && r.get("model"@) == Some(JsonView::Text(settings.model))
                && r.get("status"@) == Some(
                JsonView::Text("in_progress"@),
            ) && r.get("created_at"@) == Some(JsonView::Unsigned(at.seconds)) && r.get("output"@)
                == Some(JsonView::Array(Seq::empty()))
            &&& next.message_id == Some(m.id)
            &&& next.upstream_model == Some(m.model)
            &&& next.created_at == Some(at.seconds)
            &&& next.initial_usage == Some(m.usage)
            &&& next.output == s.output
            &&& s.message_id is None
        },
{
    broadcast use lemma_put_lookup;

    reveal(event_taken);
    lemma_event_names();
    lemma_response_names();
    assert(Seq::<ItemView>::empty().map_values(|i: ItemView| item_json(i)) == Seq::<
        JsonView,
    >::empty());
}

/// The events with which a stream ends: every item that the response has is told as done, in
/// order and under its place, and then the whole response with just these items.
pub proof fn lemma_stream_ends(
    s: StreamView,
    settings: StreamSettingsOf<Seq<char>>,
    tools: Table,
    at: Moment,
)
    requires
        s.stop_reason != Some(StopReason::Refusal),
    ensures
        event_taken(s, EventOf::MessageStop, settings, tools, at) matches EndOf::Complete(
            next,
            told,
        ) ==> {
            let last = told.last();
            let count = s.output.len();
            let cut = s.stop_reason == Some(StopReason::MaxTokens) || s.stop_reason == Some(
                StopReason::ModelContextWindowExceeded,
            );
            &&& told.len() == count + 1
            &&& is_event(
                last,
                if cut {
                    "response.incomplete"@
                } else {
                    "response.completed"@
                },
                s.sequence_number + count,
            )
            &&& last.body.get("response"@) matches Some(r) && r.get("id"@) == Some(
                JsonView::Text("resp_"@ + s.message_id->0),
            ) && r.get("model"@) == Some(JsonView::Text(settings.model))
                && r.get("status"@) == Some(
                JsonView::Text(
                    if cut {
                        "incomplete"@
                    } else {
                        "completed"@
                    },
                ),
            ) && r.get("created_at"@) == Some(JsonView::Unsigned(s.created_at->0)) && (r.get(
                "output"@,
            ) matches Some(JsonView::Array(list)) && list.len() == count && forall|i: int|
                0 <= i < count ==> is_event(
                    #[trigger] told[i],
                    "response.output_item.done"@,
                    s.sequence_number + i,
                ) && told[i].body.get("output_index"@) == Some(JsonView::Unsigned(i as u64))
                    && told[i].body.get("item"@) == Some(list[i]))
        },
{
    broadcast use lemma_put_lookup;

    reveal(event_taken);
    lemma_event_names();
    lemma_response_names();
    match (s.stop_reason, s.message_id) {
        (Some(reason), Some(_)) => match crate::usage::ending(reason) {
            Some(end) => {
                lemma_closed_len(
                    s.output,
                    crate::stream::final_item_status(end),
                    crate::usage::phase_of(reason),
                    0,
                );
            },
            None => {},
        },
        _ => {},
    }
}

proof fn lemma_closed_len(
    items: Seq<ItemView>,
    status: OutputStatus,
    phase: crate::usage::MessagePhase,
    i: int,
)
    requires
        0 <= i <= items.len(),
    ensures
        crate::stream::items_closed(items, status, phase, i) matches Some(closed) ==> closed.len()
            == items.len() - i,
    decreases items.len() - i,
{
    if i < items.len() {
        lemma_closed_len(items, status, phase, i + 1);
    }
}

proof fn lemma_response_names()
    ensures
        "id"@ != "object"@,
        "id"@ != "created_at"@,
        "id"@ != "status"@,
        "id"@ != "output"@,
        "id"@ != "model"@,
        "id"@ != "usage"@,
        "id"@ != "incomplete_details"@,
        "id"@ != "service_tier"@,
        "object"@ != "created_at"@,
        "object"@ != "status"@,
        "object"@ != "output"@,
        "object"@ != "model"@,
        "object"@ != "usage"@,
        "object"@ != "incomplete_details"@,
        "object"@ != "service_tier"@,
        "created_at"@ != "status"@,
        "created_at"@ != "output"@,
        "created_at"@ != "model"@,
        "created_at"@ != "usage"@,
        "created_at"@ != "incomplete_details"@,
        "created_at"@ != "service_tier"@,
        "status"@ != "output"@,
        "status"@ != "model"@,
        "status"@ != "usage"@,
        "status"@ != "incomplete_details"@,
        "status"@ != "service_tier"@,
        "output"@ != "model"@,
        "output"@ != "usage"@,
        "output"@ != "incomplete_details"@,
        "output"@ != "service_tier"@,
        "model"@ != "usage"@,
        "model"@ != "incomplete_details"@,
        "model"@ != "service_tier"@,
        "usage"@ != "incomplete_details"@,
        "usage"@ != "service_tier"@,
        "incomplete_details"@ != "service_tier"@,
{
    reveal_strlit("id");
    reveal_strlit("object");
    reveal_strlit("created_at");
    reveal_strlit("status");
    reveal_strlit("output");
    reveal_strlit("model");
    reveal_strlit("usage");
    reveal_strlit("incomplete_details");
    reveal_strlit("service_tier");
    assert("id"@.len() == 2);
    assert("object"@.len() == 6);
    assert("created_at"@.len() == 10);
    assert("status"@.len() == 6);
    assert("output"@.len() == 6);
    assert("model"@.len() == 5);
    assert("usage"@.len() == 5);
    assert("incomplete_details"@.len() == 18);
    assert("service_tier"@.len() == 12);
    assert("object"@[0] == 'o');
    assert("status"@[0] == 's');
    assert("object"@[1] == 'b');
    assert("output"@[1] == 'u');
    assert("output"@[0] == 'o');
    assert("model"@[0] == 'm');
    assert("usage"@[0] == 'u');
}

} // verus!
