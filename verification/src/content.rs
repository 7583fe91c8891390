//! What the messages of a conversation hold.
use vstd::prelude::*;

use crate::error::{refuse, unsupported, AIError, Unsupported};
use crate::json::{field, only, text_field, views, Fields, Json, JsonView, Object};
use crate::media::{file_of, image_of, input_file_content, input_image_content};
use crate::messages::Role;
use crate::request_types::{
    content_views, turn_views, ContentBlock, ContentOf, ContentView, Message, TurnOf, TurnView,
};
use crate::response::nonempty;
use crate::text::{blank, owned, same, texts};

verus! {

broadcast use crate::json::lemma_array_view;

/// Whether content is an empty string or an empty list.
pub open spec fn nothing_in(v: JsonView) -> bool {
    match v {
        JsonView::Text(text) => text.len() == 0,
        JsonView::Array(items) => items.len() == 0,
        _ => false,
    }
}

fn is_nothing(v: &Json) -> (r: bool)
    ensures
        r == nothing_in(v@),
{
    match v {
        Json::Text(text) => blank(text.as_str()),
        Json::Array(items) => items.len() == 0,
        _ => false,
    }
}

/// The text of a part that must be text of one type, or why it has none.
pub open spec fn text_part(v: JsonView, expected_type: Seq<char>) -> Result<Seq<char>, AIError> {
    match v {
        JsonView::Object(o) => if text_field(o, "type"@) != Some(expected_type) {
            Err(unsupported(Unsupported::Content))
        } else if !only(o, seq!["type", "text"]) {
            Err(unsupported(Unsupported::ContentField))
        } else if nonempty(o, "text"@) {
            Ok(text_field(o, "text"@)->0)
        } else {
            Err(unsupported(Unsupported::TextRequired))
        },
        _ => Err(unsupported(Unsupported::Content)),
    }
}

fn read_text_part(part: &Json, expected_type: &str) -> (r: Result<String, AIError>)
    ensures
        match text_part(part@, expected_type@) {
            Ok(text) => r is Ok && r->Ok_0@ == text,
            Err(e) => r is Err && r->Err_0 == e,
        },
{
    let object = match part {
        Json::Object(object) => object,
        _ => return Err(refuse(Unsupported::Content)),
    };
    let fits = match object.text("type") {
        Some(kind) => same(kind, expected_type),
        None => false,
    };
    if !fits {
        return Err(refuse(Unsupported::Content));
    }
    if object.has_unknown_field(&["type", "text"]) {
        return Err(refuse(Unsupported::ContentField));
    }
    match object.text("text") {
        Some(text) => if blank(text) {
            Err(refuse(Unsupported::TextRequired))
        } else {
            Ok(owned(text))
        },
        None => Err(refuse(Unsupported::TextRequired)),
    }
}

/// The texts of parts from the `n`th on, or why the first that has none has none.
pub open spec fn text_parts_from(
    items: Seq<JsonView>,
    n: int,
    expected_type: Seq<char>,
) -> Result<Seq<Seq<char>>, AIError>
    decreases items.len() - n,
{
    if n < 0 || n >= items.len() {
        Ok(Seq::empty())
    } else {
        match text_part(items[n], expected_type) {
            Err(e) => Err(e),
            Ok(text) => match text_parts_from(items, n + 1, expected_type) {
                Ok(rest) => Ok(seq![text] + rest),
                Err(e) => Err(e),
            },
        }
    }
}

/// The texts of content that must be text, or why it is not.
pub open spec fn texts_in(content: JsonView, expected_type: Seq<char>) -> Result<
    Seq<Seq<char>>,
    AIError,
> {
    if nothing_in(content) {
        Err(unsupported(Unsupported::ContentEmpty))
    } else {
        match content {
            JsonView::Text(text) => Ok(seq![text]),
            JsonView::Array(items) => text_parts_from(items, 0, expected_type),
            _ => Err(unsupported(Unsupported::Content)),
        }
    }
}

/// The texts of content that must be text of one type.
pub fn text_content(content: &Json, expected_type: &str) -> (r: Result<Vec<String>, AIError>)
    ensures
        match texts_in(content@, expected_type@) {
            Ok(list) => r is Ok && texts(r->Ok_0@) == list,
            Err(e) => r is Err && r->Err_0 == e,
        },
{
    if is_nothing(content) {
        return Err(refuse(Unsupported::ContentEmpty));
    }
    match content {
        Json::Text(text) => {
            let list = vec![owned(text.as_str())];
            assert(texts(list@) == seq![text@]);
            Ok(list)
        },
        Json::Array(items) => {
            let ghost all = views(items@);
            let mut list: Vec<String> = Vec::new();
            let mut i: usize = 0;
            assert(texts(list@) == Seq::<Seq<char>>::empty());
            assert(content@ == JsonView::Array(all));
            while i < items.len()
                invariant
                    i <= items.len(),
                    all == views(items@),
                    content@ == JsonView::Array(all),
                    !nothing_in(content@),
                    match text_parts_from(all, i as int, expected_type@) {
                        Ok(rest) => texts_in(content@, expected_type@) == Ok::<
                            Seq<Seq<char>>,
                            AIError,
                        >(texts(list@) + rest),
                        Err(e) => texts_in(content@, expected_type@) == Err::<
                            Seq<Seq<char>>,
                            AIError,
                        >(e),
                    },
                decreases items.len() - i,
            {
                assert(all[i as int] == items@[i as int]@);
                match read_text_part(&items[i], expected_type) {
                    Ok(text) => {
                        let ghost before = texts(list@);
                        list.push(text);
                        assert(texts(list@) == before.push(text@));
                        proof {
                            match text_parts_from(all, i as int + 1, expected_type@) {
                                Ok(rest) => {
                                    assert(before + (seq![text@] + rest) == texts(list@) + rest);
                                },
                                Err(_) => {},
                            }
                        }
                    },
                    Err(e) => return Err(e),
                }
                i = i + 1;
            }
            assert(texts(list@) + Seq::<Seq<char>>::empty() == texts(list@));
            Ok(list)
        },
        _ => Err(refuse(Unsupported::Content)),
    }
}

/// A block of a part of what the user said, or why there is none.
pub open spec fn user_part(v: JsonView) -> Result<ContentView, AIError> {
    match v {
        JsonView::Object(o) => {
            let kind = text_field(o, "type"@);
            if kind == Some("input_text"@) {
                match text_part(v, "input_text"@) {
                    Ok(text) => Ok(ContentOf::Text(text)),
                    Err(e) => Err(e),
                }
            } else if kind == Some("input_image"@) {
                match image_of(o) {
                    Ok(source) => Ok(ContentOf::Image { source }),
                    Err(e) => Err(e),
                }
            } else if kind == Some("input_file"@) {
                match file_of(o) {
                    Ok((source, title)) => Ok(ContentOf::Document { source, title }),
                    Err(e) => Err(e),
                }
            } else {
                Err(unsupported(Unsupported::Content))
            }
        },
        _ => Err(unsupported(Unsupported::Content)),
    }
}

fn read_user_part(part: &Json) -> (r: Result<ContentBlock, AIError>)
    ensures
        match user_part(part@) {
            Ok(block) => r is Ok && r->Ok_0@ == block,
            Err(e) => r is Err && r->Err_0 == e,
        },
{
    let object = match part {
        Json::Object(object) => object,
        _ => return Err(refuse(Unsupported::Content)),
    };
    let kind = match object.text("type") {
        Some(kind) => kind,
        None => return Err(refuse(Unsupported::Content)),
    };
    if same(kind, "input_text") {
        match read_text_part(part, "input_text") {
            Ok(text) => Ok(text_block(text)),
            Err(e) => Err(e),
        }
    } else if same(kind, "input_image") {
        input_image_content(object)
    } else if same(kind, "input_file") {
        input_file_content(object)
    } else {
        Err(refuse(Unsupported::Content))
    }
}

/// The blocks of what the user said, from the `n`th part on, or why there are none.
pub open spec fn user_parts_from(items: Seq<JsonView>, n: int) -> Result<Seq<ContentView>, AIError>
    decreases items.len() - n,
{
    if n < 0 || n >= items.len() {
        Ok(Seq::empty())
    } else {
        match user_part(items[n]) {
            Err(e) => Err(e),
            Ok(block) => match user_parts_from(items, n + 1) {
                Ok(rest) => Ok(seq![block] + rest),
                Err(e) => Err(e),
            },
        }
    }
}

/// The blocks of what the user said, or why there are none.
pub open spec fn user_blocks(content: JsonView) -> Result<Seq<ContentView>, AIError> {
    if nothing_in(content) {
        Err(unsupported(Unsupported::ContentEmpty))
    } else {
        match content {
            JsonView::Text(text) => Ok(seq![ContentOf::Text(text)]),
            JsonView::Array(items) => user_parts_from(items, 0),
            _ => Err(unsupported(Unsupported::Content)),
        }
    }
}

/// The blocks of what the user said.
pub fn user_content(content: &Json) -> (r: Result<Vec<ContentBlock>, AIError>)
    ensures
        match user_blocks(content@) {
            Ok(list) => r is Ok && content_views(r->Ok_0@) == list,
            Err(e) => r is Err && r->Err_0 == e,
        },
{
    if is_nothing(content) {
        return Err(refuse(Unsupported::ContentEmpty));
    }
    match content {
        Json::Text(text) => {
            let list = vec![text_block(owned(text.as_str()))];
            assert(content_views(list@) == seq![ContentView::Text(text@)]);
            Ok(list)
        },
        Json::Array(items) => {
            let ghost all = views(items@);
            let mut list: Vec<ContentBlock> = Vec::new();
            let mut i: usize = 0;
            assert(content_views(list@) == Seq::<ContentView>::empty());
            assert(content@ == JsonView::Array(all));
            while i < items.len()
                invariant
                    i <= items.len(),
                    all == views(items@),
                    content@ == JsonView::Array(all),
                    !nothing_in(content@),
                    match user_parts_from(all, i as int) {
                        Ok(rest) => user_blocks(content@) == Ok::<Seq<ContentView>, AIError>(
                            content_views(list@) + rest,
                        ),
                        Err(e) => user_blocks(content@) == Err::<Seq<ContentView>, AIError>(e),
                    },
                decreases items.len() - i,
            {
                assert(all[i as int] == items@[i as int]@);
                match read_user_part(&items[i]) {
                    Ok(block) => {
                        let ghost before = content_views(list@);
                        let ghost one = block@;
                        list.push(block);
                        assert(content_views(list@) == before.push(one));
                        proof {
                            match user_parts_from(all, i as int + 1) {
                                Ok(rest) => {
                                    assert(before + (seq![one] + rest) == content_views(list@)
                                        + rest);
                                },
                                Err(_) => {},
                            }
                        }
                    },
                    Err(e) => return Err(e),
                }
                i = i + 1;
            }
            assert(content_views(list@) + Seq::<ContentView>::empty() == content_views(list@));
            Ok(list)
        },
        _ => Err(refuse(Unsupported::Content)),
    }
}

/// Why what is told of a message of the assistant does not hold up, if it does not.
pub open spec fn assistant_fault(o: Fields) -> Option<AIError> {
    if !(field(o, "phase"@) is None || text_field(o, "phase"@) == Some("commentary"@)
        || text_field(o, "phase"@) == Some("final_answer"@)) {
        Some(unsupported(Unsupported::AssistantPhase))
    } else if !(field(o, "status"@) is None || text_field(o, "status"@) == Some("completed"@)
        || text_field(o, "status"@) == Some("incomplete"@)) {
        Some(unsupported(Unsupported::AssistantStatus))
    } else {
        None
    }
}

/// Whether what is told of a message of the assistant holds up.
pub fn validate_assistant(object: &Object) -> (r: Result<(), AIError>)
    ensures
        match assistant_fault(object@) {
            Some(e) => r is Err && r->Err_0 == e,
            None => r is Ok,
        },
{
    let phase_ok = match object.get("phase") {
        None => true,
        Some(Json::Text(phase)) => same(phase.as_str(), "commentary") || same(
            phase.as_str(),
            "final_answer",
        ),
        Some(_) => false,
    };
    if !phase_ok {
        return Err(refuse(Unsupported::AssistantPhase));
    }
    let status_ok = match object.get("status") {
        None => true,
        Some(Json::Text(status)) => same(status.as_str(), "completed") || same(
            status.as_str(),
            "incomplete",
        ),
        Some(_) => false,
    };
    if !status_ok {
        return Err(refuse(Unsupported::AssistantStatus));
    }
    Ok(())
}

/// Whether a list that may not hold anything does not: by being absent or empty.
pub open spec fn empty_if_any(v: Option<JsonView>) -> bool {
    match v {
        None => true,
        Some(JsonView::Array(items)) => items.len() == 0,
        Some(_) => false,
    }
}

fn is_empty_if_any(v: Option<&Json>) -> (r: bool)
    ensures
        r == empty_if_any(crate::json::view_in(v)),
{
    match v {
        None => true,
        Some(Json::Array(items)) => items.len() == 0,
        Some(_) => false,
    }
}

/// The text of a part of what the assistant said: what it put out, or why it refused. Or why
/// there is no such text.
pub open spec fn assistant_part(v: JsonView) -> Result<Seq<char>, AIError> {
    match v {
        JsonView::Object(o) => {
            let kind = text_field(o, "type"@);
            if kind == Some("output_text"@) {
                if !only(o, seq!["type", "text", "annotations", "logprobs"]) {
                    Err(unsupported(Unsupported::AssistantContentField))
                } else if !empty_if_any(field(o, "annotations"@)) {
                    Err(unsupported(Unsupported::AssistantAnnotations))
                } else if !(field(o, "logprobs"@) == Some(JsonView::Null) || empty_if_any(
                    field(o, "logprobs"@),
                )) {
                    Err(unsupported(Unsupported::AssistantLogprobs))
                } else if nonempty(o, "text"@) {
                    Ok(text_field(o, "text"@)->0)
                } else {
                    Err(unsupported(Unsupported::AssistantText))
                }
            } else if kind == Some("refusal"@) {
                if !only(o, seq!["type", "refusal"]) {
                    Err(unsupported(Unsupported::AssistantContentField))
                } else {
                    match text_field(o, "refusal"@) {
                        None => Err(unsupported(Unsupported::AssistantRefusal)),
                        Some(text) => if text.len() == 0 {
                            Err(unsupported(Unsupported::EmptyRefusal))
                        } else {
                            Ok(text)
                        },
                    }
                }
            } else {
                Err(unsupported(Unsupported::AssistantContent))
            }
        },
        _ => Err(unsupported(Unsupported::AssistantContent)),
    }
}

fn read_assistant_part(part: &Json) -> (r: Result<String, AIError>)
    ensures
        match assistant_part(part@) {
            Ok(text) => r is Ok && r->Ok_0@ == text,
            Err(e) => r is Err && r->Err_0 == e,
        },
{
    let object = match part {
        Json::Object(object) => object,
        _ => return Err(refuse(Unsupported::AssistantContent)),
    };
    let kind = match object.text("type") {
        Some(kind) => kind,
        None => return Err(refuse(Unsupported::AssistantContent)),
    };
    if same(kind, "output_text") {
        if object.has_unknown_field(&["type", "text", "annotations", "logprobs"]) {
            return Err(refuse(Unsupported::AssistantContentField));
        }
        if !is_empty_if_any(object.get("annotations")) {
            return Err(refuse(Unsupported::AssistantAnnotations));
        }
        let logprobs_ok = match object.get("logprobs") {
            Some(Json::Null) => true,
            logprobs => is_empty_if_any(logprobs),
        };
        if !logprobs_ok {
            return Err(refuse(Unsupported::AssistantLogprobs));
        }
        match object.text("text") {
            Some(text) => if blank(text) {
                Err(refuse(Unsupported::AssistantText))
            } else {
                Ok(owned(text))
            },
            None => Err(refuse(Unsupported::AssistantText)),
        }
    } else if same(kind, "refusal") {
        if object.has_unknown_field(&["type", "refusal"]) {
            return Err(refuse(Unsupported::AssistantContentField));
        }
        match object.text("refusal") {
            Some(text) => if blank(text) {
                Err(refuse(Unsupported::EmptyRefusal))
            } else {
                Ok(owned(text))
            },
            None => Err(refuse(Unsupported::AssistantRefusal)),
        }
    } else {
        Err(refuse(Unsupported::AssistantContent))
    }
}

/// The texts of what the assistant said, from the `n`th part on, or why there are none.
pub open spec fn assistant_parts_from(items: Seq<JsonView>, n: int) -> Result<
    Seq<Seq<char>>,
    AIError,
>
    decreases items.len() - n,
{
    if n < 0 || n >= items.len() {
        Ok(Seq::empty())
    } else {
        match assistant_part(items[n]) {
            Err(e) => Err(e),
            Ok(text) => match assistant_parts_from(items, n + 1) {
                Ok(rest) => Ok(seq![text] + rest),
                Err(e) => Err(e),
            },
        }
    }
}

/// The texts of what the assistant said, or why there are none.
pub open spec fn assistant_texts(content: JsonView) -> Result<Seq<Seq<char>>, AIError> {
    if nothing_in(content) {
        Err(unsupported(Unsupported::AssistantContentEmpty))
    } else {
        match content {
            JsonView::Text(text) => Ok(seq![text]),
            JsonView::Array(items) => assistant_parts_from(items, 0),
            _ => Err(unsupported(Unsupported::AssistantContent)),
        }
    }
}

/// The texts of what the assistant said.
pub fn assistant_text_content(content: &Json) -> (r: Result<Vec<String>, AIError>)
    ensures
        match assistant_texts(content@) {
            Ok(list) => r is Ok && texts(r->Ok_0@) == list,
            Err(e) => r is Err && r->Err_0 == e,
        },
{
    if is_nothing(content) {
        return Err(refuse(Unsupported::AssistantContentEmpty));
    }
    match content {
        Json::Text(text) => {
            let list = vec![owned(text.as_str())];
            assert(texts(list@) == seq![text@]);
            Ok(list)
        },
        Json::Array(items) => {
            let ghost all = views(items@);
            let mut list: Vec<String> = Vec::new();
            let mut i: usize = 0;
            assert(texts(list@) == Seq::<Seq<char>>::empty());
            assert(content@ == JsonView::Array(all));
            while i < items.len()
                invariant
                    i <= items.len(),
                    all == views(items@),
                    content@ == JsonView::Array(all),
                    !nothing_in(content@),
                    match assistant_parts_from(all, i as int) {
                        Ok(rest) => assistant_texts(content@) == Ok::<Seq<Seq<char>>, AIError>(
                            texts(list@) + rest,
                        ),
                        Err(e) => assistant_texts(content@) == Err::<Seq<Seq<char>>, AIError>(e),
                    },
                decreases items.len() - i,
            {
                assert(all[i as int] == items@[i as int]@);
                match read_assistant_part(&items[i]) {
                    Ok(text) => {
                        let ghost before = texts(list@);
                        list.push(text);
                        assert(texts(list@) == before.push(text@));
                        proof {
                            match assistant_parts_from(all, i as int + 1) {
                                Ok(rest) => {
                                    assert(before + (seq![text@] + rest) == texts(list@) + rest);
                                },
                                Err(_) => {},
                            }
                        }
                    },
                    Err(e) => return Err(e),
                }
                i = i + 1;
            }
            assert(texts(list@) + Seq::<Seq<char>>::empty() == texts(list@));
            Ok(list)
        },
        _ => Err(refuse(Unsupported::AssistantContent)),
    }
}

/// A block of text.
pub fn text_block(text: String) -> (r: ContentBlock)
    ensures
        r@ == ContentView::Text(text@),
{
    ContentOf::Text(text)
}

/// A block of text for each text.
pub open spec fn text_blocks(list: Seq<Seq<char>>) -> Seq<ContentView> {
    list.map_values(|text: Seq<char>| ContentView::Text(text))
}

/// A conversation with blocks added: to its last message where that has the role, as a message of
/// their own elsewhere.
pub open spec fn pushed(output: Seq<TurnView>, role: Role, content: Seq<ContentView>) -> Seq<
    TurnView,
> {
    if output.len() > 0 && output.last().role == role {
        output.drop_last().push(TurnOf { role, content: output.last().content + content })
    } else {
        output.push(TurnOf { role, content })
    }
}

/// Adds blocks to a conversation.
pub fn push_blocks(output: &mut Vec<Message>, role: Role, content: Vec<ContentBlock>)
    ensures
        turn_views(final(output)@) == pushed(turn_views(old(output)@), role, content_views(content@)),
{
    let ghost before = output@;
    let ghost added = content@;
    match output.pop() {
        Some(mut last) => {
            let ghost was = last@;
            assert(turn_views(before).last() == was);
            if last.role == role {
                let mut content = content;
                let ghost held = last.content@;
                last.content.append(&mut content);
                assert(content_views(last.content@) == content_views(held) + content_views(added));
                output.push(last);
                assert(turn_views(output@) == pushed(
                    turn_views(before),
                    role,
                    content_views(added),
                ));
            } else {
                output.push(last);
                output.push(TurnOf { role, content });
                assert(turn_views(output@) == pushed(
                    turn_views(before),
                    role,
                    content_views(added),
                ));
            }
        },
        None => {
            output.push(TurnOf { role, content });
            assert(turn_views(output@) == pushed(turn_views(before), role, content_views(added)));
        },
    }
}

/// Adds texts to a conversation.
pub fn push_message(output: &mut Vec<Message>, role: Role, texts: Vec<String>)
    ensures
        turn_views(final(output)@) == pushed(
            turn_views(old(output)@),
            role,
            text_blocks(crate::text::texts(texts@)),
        ),
{
    let mut content: Vec<ContentBlock> = Vec::new();
    let mut i: usize = 0;
    while i < texts.len()
        invariant
            i <= texts.len(),
            content.len() == i,
            forall|j: int|
                0 <= j < i ==> (#[trigger] content@[j])@ == ContentView::Text(texts@[j]@),
        decreases texts.len() - i,
    {
        content.push(text_block(owned(texts[i].as_str())));
        i = i + 1;
    }
    assert(content_views(content@) == text_blocks(crate::text::texts(texts@)));
    push_blocks(output, role, content);
}

/// Whether no two messages in a row have one role.
pub open spec fn alternating(turns: Seq<TurnView>) -> bool {
    forall|i: int, j: int|
        #![trigger turns[i], turns[j]]
        0 <= i < turns.len() && j == i + 1 && j < turns.len() ==> turns[i].role != turns[j].role
}

/// A conversation in which the roles alternate still does so with blocks added.
pub proof fn lemma_pushed_alternates(output: Seq<TurnView>, role: Role, content: Seq<ContentView>)
    requires
        alternating(output),
    ensures
        alternating(pushed(output, role, content)),
        pushed(output, role, content).len() > 0,
        pushed(output, role, content).last().role == role,
{
}

} // verus!
