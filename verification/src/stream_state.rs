//! What a streamed conversion remembers between events.
use vstd::prelude::*;
use vstd::utf8::encode_utf8;

use crate::codec::{appended, array_at, comma_after, json_text, put_in};
use crate::items::{set_output_item_status, stream_message_item};
use crate::json::{lemma_position, position_from, put, Json, JsonView};
use crate::messages::{MessageDeltaUsage, StopReason, UsageOf};
use crate::responses::{
    item_json, item_views, items_json, part_json, part_views, phase_json, ItemOf, ItemView,
    MessageOf, MessageView, OutputItem, OutputStatus, PartOf, PartView,
};
use crate::text::{holds, owned, same, text_in, texts};

verus! {

/// The length of a string in bytes.
pub open spec fn bytes_of(s: Seq<char>) -> nat {
    encode_utf8(s).len()
}

/// The length of an optional string in bytes, 0 where there is none.
pub open spec fn bytes_in(s: Option<Seq<char>>) -> nat {
    match s {
        Some(s) => bytes_of(s),
        None => 0,
    }
}

/// The length of a JSON text in bytes.
pub open spec fn json_size(v: JsonView) -> nat {
    bytes_of(json_text(v))
}

/// The length of a string in bytes.
pub fn byte_len(s: &str) -> (r: usize)
    ensures
        r == bytes_of(s@),
{
    s.as_bytes().len()
}

proof fn lemma_bytes_add(a: Seq<char>, b: Seq<char>)
    ensures
        bytes_of(a + b) == bytes_of(a) + bytes_of(b),
    decreases a.len(),
{
    if a.len() == 0 {
        assert(a + b == b);
    } else {
        assert((a + b).drop_first() == a.drop_first() + b);
        lemma_bytes_add(a.drop_first(), b);
    }
}

proof fn lemma_put_in_size(text: Seq<char>, before: Seq<char>, added: Seq<char>)
    requires
        put_in(text, before, added),
    ensures
        bytes_of(text) == bytes_of(before) + bytes_of(added),
{
    let at = choose|at: int|
        0 <= at <= before.len() && text == #[trigger] before.take(at) + added + before.skip(at);
    lemma_bytes_add(before.take(at), added);
    lemma_bytes_add(before.take(at) + added, before.skip(at));
    lemma_bytes_add(before.take(at), before.skip(at));
    assert(before.take(at) + before.skip(at) == before);
}

proof fn lemma_ascii_size(c: char)
    requires
        c == '[' || c == ']' || c == ',',
    ensures
        bytes_of(seq![c]) == 1,
{
    reveal_with_fuel(encode_utf8, 2);
    assert(seq![c].drop_first() == Seq::<char>::empty());
}

/// How much longer an array gets by a comma before one more item.
pub open spec fn comma_size(items: Seq<JsonView>) -> nat {
    if items.len() == 0 {
        0
    } else {
        1
    }
}

/// The length of a JSON text in bytes: by so much, and a comma where it is not the first, a value
/// is longer that has one more item in an array somewhere within.
pub fn json_len(v: &Json) -> (r: usize)
    ensures
        r == json_size(v@),
        json_size(JsonView::Array(Seq::empty())) == 2,
        forall|whole: JsonView, path: Seq<int>|
            array_at(whole, path) matches Some(items) ==> json_size(
                #[trigger] appended(whole, path, v@),
            ) == json_size(whole) + r + comma_size(items),
{
    let text = v.render();
    proof {
        lemma_ascii_size('[');
        lemma_ascii_size(']');
        lemma_ascii_size(',');
        assert forall|whole: JsonView, path: Seq<int>|
            array_at(whole, path) is Some implies json_size(#[trigger] appended(whole, path, v@))
            == json_size(whole) + bytes_of(text@) + comma_size(array_at(whole, path)->0) by {
            let added = comma_after(array_at(whole, path)->0) + text@;
            lemma_put_in_size(json_text(appended(whole, path, v@)), json_text(whole), added);
            lemma_bytes_add(comma_after(array_at(whole, path)->0), text@);
        }
        let empty = JsonView::Array(Seq::empty());
        let path = Seq::<int>::empty();
        assert(array_at(empty, path) == Some(Seq::<JsonView>::empty()));
        assert(appended(empty, path, v@) == JsonView::Array(seq![v@])) by {
            assert(Seq::<JsonView>::empty().push(v@) == seq![v@]);
        }
        lemma_bytes_add(seq!['['], text@);
        lemma_bytes_add(seq!['['] + text@, seq![']']);
    }
    byte_len(text.as_str())
}

/// A block of text that is being streamed.
#[derive(Debug)]
pub struct StreamTextBlockOf<S> {
    pub index: usize,
    pub output_index: u32,
    pub content_index: u32,
    pub item_id: S,
    pub text: S,
}

/// A tool use that is being streamed.
#[derive(Debug)]
pub struct StreamToolBlockOf<S> {
    pub index: usize,
    pub output_index: u32,
    pub item_id: S,
    pub call_id: S,
    pub upstream_name: S,
    pub json: S,
}

/// The block that is open.
#[derive(Debug)]
pub enum StreamBlockOf<S> {
    Text(StreamTextBlockOf<S>),
    Tool(StreamToolBlockOf<S>),
    /// Thinking that is dropped. Only its course is followed, so that a malformed stream is still
    /// rejected.
    DroppedThinking { index: usize, signature_seen: bool },
    /// Redacted thinking that is dropped. Nothing may be added to it.
    DroppedRedactedThinking { index: usize },
}

pub type StreamTextBlock = StreamTextBlockOf<String>;

pub type StreamToolBlock = StreamToolBlockOf<String>;

pub type StreamBlock = StreamBlockOf<String>;

impl View for StreamTextBlockOf<String> {
    type V = StreamTextBlockOf<Seq<char>>;

    open spec fn view(&self) -> StreamTextBlockOf<Seq<char>> {
        StreamTextBlockOf {
            index: self.index,
            output_index: self.output_index,
            content_index: self.content_index,
            item_id: self.item_id@,
            text: self.text@,
        }
    }
}

impl View for StreamToolBlockOf<String> {
    type V = StreamToolBlockOf<Seq<char>>;

    open spec fn view(&self) -> StreamToolBlockOf<Seq<char>> {
        StreamToolBlockOf {
            index: self.index,
            output_index: self.output_index,
            item_id: self.item_id@,
            call_id: self.call_id@,
            upstream_name: self.upstream_name@,
            json: self.json@,
        }
    }
}

impl View for StreamBlockOf<String> {
    type V = StreamBlockOf<Seq<char>>;

    open spec fn view(&self) -> StreamBlockOf<Seq<char>> {
        match self {
            StreamBlockOf::Text(b) => StreamBlockOf::Text(b@),
            StreamBlockOf::Tool(b) => StreamBlockOf::Tool(b@),
            StreamBlockOf::DroppedThinking { index, signature_seen } =>
                StreamBlockOf::DroppedThinking { index: *index, signature_seen: *signature_seen },
            StreamBlockOf::DroppedRedactedThinking { index } =>
                StreamBlockOf::DroppedRedactedThinking { index: *index },
        }
    }
}

/// The tool calls of a finished response, for the log.
#[derive(Debug)]
pub struct ToolCallLogOf<L> {
    pub calls: L,
    pub completed: bool,
}

/// What a streamed conversion remembers between events.
#[derive(Debug)]
pub struct StreamOf<S, L, T> {
    /// The number of the next event.
    pub sequence_number: u64,
    pub message_id: Option<S>,
    pub upstream_model: Option<S>,
    /// When the answer began, in seconds of the Unix epoch.
    pub created_at: Option<u64>,
    pub initial_usage: Option<UsageOf<S>>,
    pub terminal_usage: Option<MessageDeltaUsage>,
    pub stop_reason: Option<StopReason>,
    pub stop_sequence: Option<S>,
    pub active_block: Option<StreamBlockOf<S>>,
    pub output: L,
    /// The size of the output as a JSON array, without its brackets.
    pub retained_output_bytes: usize,
    pub next_block_index: usize,
    pub tool_ids: T,
    pub tool_id_bytes: usize,
    pub saw_tool: bool,
    pub saw_message_delta: bool,
    pub terminated: bool,
    pub terminal_ready: bool,
    /// When the client first saw output, on the caller's clock.
    pub first_visible_at: Option<u64>,
    /// The text put out so far, where it is logged.
    pub completion: Option<S>,
    pub output_messages: Option<ToolCallLogOf<L>>,
    pub late_refusal: bool,
}

pub type ResponsesStreamState = StreamOf<String, Vec<OutputItem>, Vec<String>>;

pub type StreamView = StreamOf<Seq<char>, Seq<ItemView>, Seq<Seq<char>>>;

impl View for ToolCallLogOf<Vec<OutputItem>> {
    type V = ToolCallLogOf<Seq<ItemView>>;

    open spec fn view(&self) -> ToolCallLogOf<Seq<ItemView>> {
        ToolCallLogOf { calls: item_views(self.calls@), completed: self.completed }
    }
}

impl View for StreamOf<String, Vec<OutputItem>, Vec<String>> {
    type V = StreamOf<Seq<char>, Seq<ItemView>, Seq<Seq<char>>>;

    open spec fn view(&self) -> StreamView {
        StreamOf {
            sequence_number: self.sequence_number,
            message_id: text_in(self.message_id),
            upstream_model: text_in(self.upstream_model),
            created_at: self.created_at,
            initial_usage: match self.initial_usage {
                Some(u) => Some(u@),
                None => None,
            },
            terminal_usage: self.terminal_usage,
            stop_reason: self.stop_reason,
            stop_sequence: text_in(self.stop_sequence),
            active_block: match self.active_block {
                Some(b) => Some(b@),
                None => None,
            },
            output: item_views(self.output@),
            retained_output_bytes: self.retained_output_bytes,
            next_block_index: self.next_block_index,
            tool_ids: texts(self.tool_ids@),
            tool_id_bytes: self.tool_id_bytes,
            saw_tool: self.saw_tool,
            saw_message_delta: self.saw_message_delta,
            terminated: self.terminated,
            terminal_ready: self.terminal_ready,
            first_visible_at: self.first_visible_at,
            completion: text_in(self.completion),
            output_messages: match self.output_messages {
                Some(log) => Some(log@),
                None => None,
            },
            late_refusal: self.late_refusal,
        }
    }
}

/// Before the first event. The text put out is kept where it is logged.
pub open spec fn fresh(logged: bool) -> StreamView {
    StreamOf {
        sequence_number: 0,
        message_id: None,
        upstream_model: None,
        created_at: None,
        initial_usage: None,
        terminal_usage: None,
        stop_reason: None,
        stop_sequence: None,
        active_block: None,
        output: Seq::empty(),
        retained_output_bytes: 0,
        next_block_index: 0,
        tool_ids: Seq::empty(),
        tool_id_bytes: 0,
        saw_tool: false,
        saw_message_delta: false,
        terminated: false,
        terminal_ready: false,
        first_visible_at: None,
        completion: if logged {
            Some(Seq::empty())
        } else {
            None
        },
        output_messages: None,
        late_refusal: false,
    }
}

impl Default for StreamOf<String, Vec<OutputItem>, Vec<String>> {
    fn default() -> (r: ResponsesStreamState)
        ensures
            r@ == fresh(false),
    {
        ResponsesStreamState::new(false)
    }
}

/// An event for the client.
#[derive(Debug)]
pub struct StreamedOf<N, J> {
    pub name: N,
    pub body: J,
}

pub type Streamed = StreamedOf<&'static str, Json>;

pub type StreamedView = StreamedOf<Seq<char>, JsonView>;

impl View for StreamedOf<&'static str, Json> {
    type V = StreamedOf<Seq<char>, JsonView>;

    open spec fn view(&self) -> StreamedView {
        StreamedOf { name: self.name@, body: self.body@ }
    }
}

/// What the events of a list hold.
pub open spec fn streamed_views(events: Seq<Streamed>) -> Seq<StreamedView> {
    events.map_values(|e: Streamed| e@)
}

/// The beginning of every event: what it is and its number.
pub open spec fn event_head(kind: Seq<char>, n: u64) -> JsonView {
    JsonView::object().with("type"@, JsonView::Text(kind)).with(
        "sequence_number"@,
        JsonView::Unsigned(n),
    )
}

/// The beginning of every event: what it is and its number.
pub fn make_head(kind: &str, n: u64) -> (r: Json)
    ensures
        r@ == event_head(kind@, n),
{
    Json::object().with("type", Json::text(kind)).with("sequence_number", Json::Unsigned(n))
}

/// The one event that ends a stream that went wrong.
pub open spec fn error_told(n: u64, late_refusal: bool) -> StreamedView {
    StreamedOf {
        name: "error"@,
        body: event_head("error"@, n).with(
            "code"@,
            JsonView::Text(
                if late_refusal {
                    "refusal_after_streaming"@
                } else {
                    "server_error"@
                },
            ),
        ).with(
            "message"@,
            JsonView::Text(
                if late_refusal {
                    "Anthropic reported a refusal after content had already been streamed as ordinary text; the emitted content cannot be retyped as a refusal"@
                } else {
                    "Upstream Anthropic stream was invalid"@
                },
            ),
        ).with("param"@, JsonView::Null),
    }
}

/// The stream after its error: terminated, the number used up unless it was the last.
pub open spec fn after_error(s: StreamView) -> StreamView {
    StreamOf {
        terminated: true,
        sequence_number: if s.sequence_number < u64::MAX {
            (s.sequence_number + 1) as u64
        } else {
            s.sequence_number
        },
        ..s
    }
}

/// The stream with an item retained, where its size can still be counted.
pub open spec fn retained(s: StreamView, item: ItemView) -> Option<StreamView> {
    let total = s.retained_output_bytes + json_size(item_json(item)) + (if s.output.len() == 0 {
        0int
    } else {
        1int
    });
    if total <= usize::MAX {
        Some(
            StreamOf {
                output: s.output.push(item),
                retained_output_bytes: total as usize,
                ..s
            },
        )
    } else {
        None
    }
}

/// The stream with a finished text retained: as a message of its own, or as the next piece of the
/// message that is the last item. None where it is neither, or its size cannot be counted.
pub open spec fn text_retained(
    s: StreamView,
    block: StreamTextBlockOf<Seq<char>>,
) -> Option<StreamView> {
    let n = s.output.len();
    if block.output_index == n {
        if block.content_index == 0 {
            retained(
                s,
                ItemOf::Message(
                    MessageOf {
                        content: seq![PartOf::OutputText(block.text)],
                        id: block.item_id,
                        phase: None,
                        status: OutputStatus::InProgress,
                    },
                ),
            )
        } else {
            None
        }
    } else if block.output_index + 1 == n {
        match s.output[n - 1] {
            ItemOf::Message(m) => {
                let part = PartOf::OutputText(block.text);
                let total = s.retained_output_bytes + json_size(part_json(part)) + (
                if m.content.len() == 0 {
                    0int
                } else {
                    1int
                });
                if m.id == block.item_id && m.status == OutputStatus::InProgress && m.content.len()
                    == block.content_index && total <= usize::MAX {
                    Some(
                        StreamOf {
                            output: s.output.update(
                                n - 1,
                                ItemOf::Message(
                                    MessageOf {
                                        content: m.content.push(part),
                                        id: m.id,
                                        phase: m.phase,
                                        status: m.status,
                                    },
                                ),
                            ),
                            retained_output_bytes: total as usize,
                            ..s
                        },
                    )
                } else {
                    None
                }
            },
            _ => None,
        }
    } else {
        None
    }
}

/// The stream with the id of a tool use retained. None where the id was used before, or its size
/// cannot be counted.
pub open spec fn id_retained(s: StreamView, id: Seq<char>) -> Option<StreamView> {
    let total = s.tool_id_bytes + bytes_of(id);
    if total <= usize::MAX && !s.tool_ids.contains(id) {
        Some(StreamOf { tool_ids: s.tool_ids.push(id), tool_id_bytes: total as usize, ..s })
    } else {
        None
    }
}

/// The size of what the open block keeps.
pub open spec fn block_size(block: Option<StreamBlockOf<Seq<char>>>) -> nat {
    match block {
        Some(StreamBlockOf::Text(b)) => bytes_of(b.item_id) + bytes_of(b.text),
        Some(StreamBlockOf::Tool(b)) => bytes_of(b.item_id) + bytes_of(b.call_id) + bytes_of(
            b.upstream_name,
        ) + bytes_of(b.json),
        _ => 0,
    }
}

/// The size of all that a stream keeps: the strings, the open block, the output in its brackets,
/// and the id and model of the response to come.
pub open spec fn retained_size(s: StreamView, model: Seq<char>) -> int {
    bytes_of(model) + bytes_in(s.message_id) + bytes_in(s.upstream_model) + bytes_in(
        s.stop_sequence,
    ) + bytes_in(s.completion) + (match s.initial_usage {
        Some(u) => bytes_in(u.service_tier),
        None => 0,
    }) + (match s.message_id {
        Some(id) => bytes_of("resp_"@) + bytes_of(id) + bytes_of(model),
        None => 0,
    }) + s.tool_id_bytes + block_size(s.active_block) + s.retained_output_bytes + 2
}

/// A sum that may have left the range of sizes.
fn plus(total: Option<usize>, n: usize) -> (r: Option<usize>)
    ensures
        match total {
            Some(t) => if t + n <= usize::MAX {
                r == Some((t + n) as usize)
            } else {
                r is None
            },
            None => r is None,
        },
{
    match total {
        Some(t) => t.checked_add(n),
        None => None,
    }
}

fn opt_len(s: &Option<String>) -> (r: usize)
    ensures
        r == bytes_in(text_in(*s)),
{
    match s {
        Some(s) => byte_len(s.as_str()),
        None => 0,
    }
}

/// Whether the size that a stream has counted is that of the JSON text of the items that it keeps,
/// but for the brackets.
pub open spec fn counted(s: StreamView) -> bool {
    s.retained_output_bytes + 2 == json_size(items_json(s.output))
}

/// Whether a stream has kept and counted nothing yet.
pub open spec fn nothing_kept(s: StreamView) -> bool {
    s.output.len() == 0 && s.retained_output_bytes == 0
}

proof fn lemma_item_appended(items: Seq<ItemView>, item: ItemView)
    ensures
        array_at(items_json(items), seq![]) == Some(
            items.map_values(|i: ItemView| item_json(i)),
        ),
        appended(items_json(items), seq![], item_json(item)) == items_json(items.push(item)),
{
    assert(items.push(item).map_values(|i: ItemView| item_json(i)) == items.map_values(
        |i: ItemView| item_json(i),
    ).push(item_json(item)));
}

/// The JSON form of a message up to its pieces.
spec fn message_head(m: MessageView) -> JsonView {
    JsonView::object().with("type"@, JsonView::Text("message"@)).with(
        "id"@,
        JsonView::Text(m.id),
    ).with("role"@, JsonView::Text("assistant"@)).with_some("phase"@, phase_json(m.phase)).with(
        "status"@,
        JsonView::Text(m.status.name_spec()),
    )
}

/// The place of the pieces among the fields of a message.
spec fn content_place(m: MessageView) -> int {
    match position_from(message_head(m)->Object_0, "content"@, 0) {
        Some(i) => i,
        None => message_head(m)->Object_0.len() as int,
    }
}

proof fn lemma_part_appended(items: Seq<ItemView>, m: MessageView, part: PartView)
    requires
        items.len() > 0,
        items.last() matches ItemOf::Message(last) && last == m,
    ensures
        array_at(items_json(items), seq![items.len() - 1, content_place(m)]) == Some(
            m.content.map_values(|p: PartView| part_json(p)),
        ),
        appended(
            items_json(items),
            seq![items.len() - 1, content_place(m)],
            part_json(part),
        ) == items_json(
            items.update(
                items.len() - 1,
                ItemOf::Message(
                    MessageOf {
                        content: m.content.push(part),
                        id: m.id,
                        phase: m.phase,
                        status: m.status,
                    },
                ),
            ),
        ),
{
    let n = items.len() - 1;
    let k = content_place(m);
    let grown = MessageOf {
        content: m.content.push(part),
        id: m.id,
        phase: m.phase,
        status: m.status,
    };
    let longer: ItemView = ItemOf::Message(grown);
    let head = message_head(m)->Object_0;
    let parts = m.content.map_values(|p: PartView| part_json(p));
    let path = seq![n, k];
    lemma_position(head, "content"@, 0);
    assert(message_head(m) is Object);
    assert(message_head(grown) == message_head(m));
    let fields = put(head, "content"@, JsonView::Array(parts));
    assert(item_json(items[n]) == JsonView::Object(fields));
    assert(0 <= k < fields.len() && fields[k] == ("content"@, JsonView::Array(parts)));
    assert(m.content.push(part).map_values(|p: PartView| part_json(p)) == parts.push(
        part_json(part),
    ));
    let more = JsonView::Array(parts.push(part_json(part)));
    assert(item_json(longer) == JsonView::Object(put(head, "content"@, more)));
    assert(put(head, "content"@, more) == fields.update(k, ("content"@, more)));
    assert(path.skip(1) == seq![k]);
    assert(seq![k].skip(1) == Seq::<int>::empty());
    let forms = items.map_values(|i: ItemView| item_json(i));
    assert(forms[n] == JsonView::Object(fields));
    reveal_with_fuel(array_at, 3);
    reveal_with_fuel(appended, 3);
    assert(appended(JsonView::Array(parts), Seq::empty(), part_json(part)) == more);
    assert(appended(JsonView::Object(fields), seq![k], part_json(part)) == item_json(longer));
    assert(items.update(n, longer).map_values(|i: ItemView| item_json(i)) == forms.update(
        n,
        item_json(longer),
    ));
}

impl StreamOf<String, Vec<OutputItem>, Vec<String>> {
    /// Before the first event.
    pub fn new(logged: bool) -> (r: ResponsesStreamState)
        ensures
            r@ == fresh(logged),
    {
        let r = StreamOf {
            sequence_number: 0,
            message_id: None,
            upstream_model: None,
            created_at: None,
            initial_usage: None,
            terminal_usage: None,
            stop_reason: None,
            stop_sequence: None,
            active_block: None,
            output: Vec::new(),
            retained_output_bytes: 0,
            next_block_index: 0,
            tool_ids: Vec::new(),
            tool_id_bytes: 0,
            saw_tool: false,
            saw_message_delta: false,
            terminated: false,
            terminal_ready: false,
            first_visible_at: None,
            completion: if logged {
                Some(String::new())
            } else {
                None
            },
            output_messages: None,
            late_refusal: false,
        };
        assert(r@.output == Seq::<ItemView>::empty());
        assert(r@.tool_ids == Seq::<Seq<char>>::empty());
        r
    }

    /// Takes the number of the next event. The last number is not given out.
    pub fn sequence(&mut self) -> (r: Result<u64, ()>)
        ensures
            if old(self).sequence_number < u64::MAX {
                &&& r == Ok::<u64, ()>(old(self).sequence_number)
                &&& final(self)@ == (StreamOf {
                    sequence_number: (old(self).sequence_number + 1) as u64,
                    ..old(self)@
                })
            } else {
                r is Err && *final(self) == *old(self)
            },
    {
        let current: u64 = self.sequence_number;
        match current.checked_add(1) {
            Some(next) => {
                self.sequence_number = next;
                Ok(current)
            },
            None => Err(()),
        }
    }

    /// Ends the stream with one error event; a stream that has ended says nothing more.
    pub fn error_event(&mut self) -> (r: Vec<Streamed>)
        ensures
            if old(self).terminated {
                r@.len() == 0 && *final(self) == *old(self)
            } else {
                &&& streamed_views(r@) == seq![
                    error_told(old(self).sequence_number, old(self).late_refusal),
                ]
                &&& final(self)@ == after_error(old(self)@)
            },
    {
        let mut events: Vec<Streamed> = Vec::new();
        if self.terminated {
            return events;
        }
        self.terminated = true;
        let n: u64 = match self.sequence() {
            Ok(n) => n,
            Err(_) => u64::MAX,
        };
        let code = if self.late_refusal {
            "refusal_after_streaming"
        } else {
            "server_error"
        };
        let message = if self.late_refusal {
            "Anthropic reported a refusal after content had already been streamed as ordinary text; the emitted content cannot be retyped as a refusal"
        } else {
            "Upstream Anthropic stream was invalid"
        };
        let body = make_head("error", n).with("code", Json::text(code)).with(
            "message",
            Json::text(message),
        ).with("param", Json::Null);
        events.push(StreamedOf { name: "error", body });
        assert(streamed_views(events@) == seq![
            error_told(old(self).sequence_number, old(self).late_refusal),
        ]);
        events
    }

    /// Keeps an item. What is kept is counted as long as its JSON text is, from the first item on.
    pub fn retain_output(&mut self, item: OutputItem) -> (r: Result<(), ()>)
        ensures
            match retained(old(self)@, item@) {
                Some(s) => r is Ok && final(self)@ == s,
                None => r is Err && *final(self) == *old(self),
            },
            r is Ok && (counted(old(self)@) || nothing_kept(old(self)@)) ==> counted(final(self)@),
    {
        let size = json_len(&item.to_json());
        proof {
            lemma_item_appended(self@.output, item@);
            if self@.output.len() == 0 {
                assert(items_json(self@.output) == JsonView::Array(Seq::empty())) by {
                    assert(self@.output.map_values(|i: ItemView| item_json(i)) == Seq::<
                        JsonView,
                    >::empty());
                }
            }
        }
        let comma: usize = if self.output.len() == 0 {
            0
        } else {
            1
        };
        match plus(plus(Some(self.retained_output_bytes), size), comma) {
            Some(total) => {
                self.retained_output_bytes = total;
                let ghost before = self.output@;
                self.output.push(item);
                assert(item_views(self.output@) == item_views(before).push(item@));
                Ok(())
            },
            None => Err(()),
        }
    }

    /// Keeps a finished text. What is kept is counted as long as its JSON text is, from the first
    /// text on.
    pub fn retain_text_part(&mut self, block: &StreamTextBlock) -> (r: Result<(), ()>)
        ensures
            match text_retained(old(self)@, block@) {
                Some(s) => r is Ok && final(self)@ == s,
                None => r is Err && *final(self) == *old(self),
            },
            r is Ok && (counted(old(self)@) || nothing_kept(old(self)@)) ==> counted(final(self)@),
    {
        let n: usize = self.output.len();
        if block.output_index as u64 == n as u64 {
            if block.content_index != 0 {
                return Err(());
            }
            let mut item = stream_message_item(
                owned(block.item_id.as_str()),
                owned(block.text.as_str()),
                OutputStatus::Completed,
            );
            let set = set_output_item_status(&mut item, OutputStatus::InProgress);
            return self.retain_output(item);
        }
        if n == 0 || block.output_index as u64 != (n - 1) as u64 {
            return Err(());
        }
        let ghost before = *self;
        let part = PartOf::OutputText(owned(block.text.as_str()));
        let size = json_len(&part.to_json());
        let (fits, comma): (bool, usize) = match &self.output[n - 1] {
            ItemOf::Message(m) => (
                same(m.id.as_str(), block.item_id.as_str()) && m.status == OutputStatus::InProgress
                    && m.content.len() as u64 == block.content_index as u64,
                if m.content.len() == 0 {
                    0
                } else {
                    1
                },
            ),
            _ => (false, 0),
        };
        assert(before@.output[n - 1] == before.output@[n - 1]@);
        if !fits {
            return Err(());
        }
        proof {
            lemma_part_appended(before@.output, before@.output[n - 1]->Message_0, part@);
        }
        match plus(plus(Some(self.retained_output_bytes), size), comma) {
            Some(total) => {
                self.retained_output_bytes = total;
                match self.output.pop() {
                    Some(ItemOf::Message(m)) => {
                        let mut content = m.content;
                        let ghost old_parts = content@;
                        content.push(part);
                        assert(part_views(content@) == part_views(old_parts).push(part@));
                        let item = ItemOf::Message(
                            MessageOf { content, id: m.id, phase: m.phase, status: m.status },
                        );
                        self.output.push(item);
                        assert(item_views(self.output@) == before@.output.update(n - 1, item@));
                    },
                    other => {},
                }
                Ok(())
            },
            None => Err(()),
        }
    }

    /// Keeps the id of a tool use, which may not occur twice.
    pub fn retain_tool_id(&mut self, id: String) -> (r: Result<(), ()>)
        ensures
            match id_retained(old(self)@, id@) {
                Some(s) => r is Ok && final(self)@ == s,
                None => r is Err && *final(self) == *old(self),
            },
    {
        let total: usize = match self.tool_id_bytes.checked_add(byte_len(id.as_str())) {
            Some(total) => total,
            None => return Err(()),
        };
        if holds(&self.tool_ids, id.as_str()) {
            return Err(());
        }
        let ghost before = self.tool_ids@;
        self.tool_ids.push(id);
        assert(texts(self.tool_ids@) == texts(before).push(id@));
        self.tool_id_bytes = total;
        Ok(())
    }

    fn block_len(&self) -> (r: Option<usize>)
        ensures
            match r {
                Some(n) => n == block_size(self@.active_block),
                None => block_size(self@.active_block) > usize::MAX,
            },
    {
        match &self.active_block {
            Some(StreamBlockOf::Text(b)) => plus(
                Some(byte_len(b.item_id.as_str())),
                byte_len(b.text.as_str()),
            ),
            Some(StreamBlockOf::Tool(b)) => plus(
                plus(
                    plus(Some(byte_len(b.item_id.as_str())), byte_len(b.call_id.as_str())),
                    byte_len(b.upstream_name.as_str()),
                ),
                byte_len(b.json.as_str()),
            ),
            _ => Some(0),
        }
    }

    /// Whether all that the stream keeps is within a limit.
    pub fn ensure_retained_limit(&self, limit: usize, downstream_model: &str) -> (r: Result<(), ()>)
        ensures
            r is Ok <==> retained_size(self@, downstream_model@) <= limit,
    {
        let model = byte_len(downstream_model);
        let tier: usize = match &self.initial_usage {
            Some(u) => opt_len(&u.service_tier),
            None => 0,
        };
        let mut total: Option<usize> = Some(model);
        total = plus(total, opt_len(&self.message_id));
        total = plus(total, opt_len(&self.upstream_model));
        total = plus(total, opt_len(&self.stop_sequence));
        total = plus(total, opt_len(&self.completion));
        total = plus(total, tier);
        if let Some(id) = &self.message_id {
            total = plus(total, byte_len("resp_"));
            total = plus(total, byte_len(id.as_str()));
            total = plus(total, model);
        }
        total = plus(total, self.tool_id_bytes);
        total = match self.block_len() {
            Some(n) => plus(total, n),
            None => None,
        };
        total = plus(total, self.retained_output_bytes);
        total = plus(total, 2);
        match total {
            Some(total) => if total <= limit {
                Ok(())
            } else {
                Err(())
            },
            None => Err(()),
        }
    }

    /// Notes when the client first saw output.
    pub fn mark_visible(&mut self, now: u64)
        ensures
            final(self)@ == seen(old(self)@, now),
    {
        if self.first_visible_at.is_none() {
            self.first_visible_at = Some(now);
        }
    }
}

/// The stream with the time noted at which the client first saw output.
pub open spec fn seen(s: StreamView, now: u64) -> StreamView {
    StreamOf {
        first_visible_at: match s.first_visible_at {
            Some(at) => Some(at),
            None => Some(now),
        },
        ..s
    }
}

} // verus!
