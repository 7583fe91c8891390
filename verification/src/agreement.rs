//! An answer that is streamed ends with the response that the same answer, whole, is converted to.
use vstd::prelude::*;
use vstd::utf8::encode_utf8;

use crate::calls::{item_id_of, tool_item};
use crate::codec::parsed;
use crate::decode::{BlockOf, BlockView, DeltaOf};
use crate::error::AIError;
use crate::items::{item_of, part_of, parts_from};
use crate::json::{field, lemma_put_field, put, Fields, JsonView};
use crate::messages::{MessageDeltaUsage, StopReason, UsageOf};
use crate::response::{
    answer_of, converted, items_built, items_from, AnswerView, FrameOf, TranslatedView,
};
use crate::responses::{part_json, ItemOf, ItemView, MessageOf, OutputStatus, PartOf, PartView};
use crate::stream::{end_told, final_event, item_closed, items_closed, stopped, EndOf};
use crate::stream_blocks::{block_started, block_stopped, delta_taken, text_place};
use crate::stream_events::response_told;
use crate::stream_laws::{fed, joined, lemma_pieces_add_up};
use crate::stream_state::{
    text_retained, StreamBlockOf, StreamOf, StreamTextBlockOf, StreamToolBlockOf, StreamView,
};
use crate::tools::{tool_named, DeclaredOf, Table, WrappedKind};
use crate::usage::{ending, phase_of, stream_told, tier_in, told, Ending};

verus! {

broadcast proof fn lemma_looked_up(
    fields: Fields,
    name: Seq<char>,
    value: JsonView,
    other: Seq<char>,
)
    ensures
        #[trigger] field(put(fields, name, value), other) == (if other == name {
            Some(value)
        } else {
            field(fields, other)
        }),
{
    lemma_put_field(fields, name, value, other);
}

proof fn lemma_names()
    ensures
        "type"@.len() == 4 && "type"@[0] == 't' && "type"@[1] == 'y',
        "text"@.len() == 4 && "text"@[1] == 'e',
        "id"@.len() == 2,
        "role"@.len() == 4 && "role"@[0] == 'r',
        "name"@.len() == 4 && "name"@[0] == 'n',
        "phase"@.len() == 5 && "phase"@[0] == 'p',
        "input"@.len() == 5 && "input"@[0] == 'i',
        "status"@.len() == 6 && "status"@[0] == 's',
        "action"@.len() == 6 && "action"@[0] == 'a',
        "content"@.len() == 7 && "content"@[1] == 'o',
        "call_id"@.len() == 7 && "call_id"@[1] == 'a',
        "refusal"@.len() == 7 && "refusal"@[1] == 'e',
        "logprobs"@.len() == 8,
        "namespace"@.len() == 9 && "namespace"@[0] == 'n',
        "arguments"@.len() == 9 && "arguments"@[0] == 'a',
        "operation"@.len() == 9 && "operation"@[0] == 'o',
        "environment"@.len() == 11 && "environment"@[0] == 'e',
        "annotations"@.len() == 11 && "annotations"@[0] == 'a',
{
    reveal_strlit("type");
    reveal_strlit("text");
    reveal_strlit("id");
    reveal_strlit("role");
    reveal_strlit("name");
    reveal_strlit("phase");
    reveal_strlit("input");
    reveal_strlit("status");
    reveal_strlit("action");
    reveal_strlit("content");
    reveal_strlit("call_id");
    reveal_strlit("refusal");
    reveal_strlit("logprobs");
    reveal_strlit("namespace");
    reveal_strlit("arguments");
    reveal_strlit("operation");
    reveal_strlit("environment");
    reveal_strlit("annotations");
}

proof fn lemma_values()
    ensures
        "message"@.len() == 7,
        "output_text"@.len() == 11 && "output_text"@[0] == 'o',
        "function_call"@.len() == 13,
        "custom_tool_call"@.len() == 16 && "custom_tool_call"@[0] == 'c',
        "local_shell_call"@.len() == 16 && "local_shell_call"@[0] == 'l',
        "shell_call"@.len() == 10 && "shell_call"@[0] == 's',
        "apply_patch_call"@.len() == 16 && "apply_patch_call"@[0] == 'a',
        "in_progress"@.len() == 11 && "in_progress"@[0] == 'i',
        "completed"@.len() == 9,
        "incomplete"@.len() == 10 && "incomplete"@[0] == 'i',
        "commentary"@.len() == 10 && "commentary"@[0] == 'c',
        "final_answer"@.len() == 12,
{
    reveal_strlit("message");
    reveal_strlit("output_text");
    reveal_strlit("function_call");
    reveal_strlit("custom_tool_call");
    reveal_strlit("local_shell_call");
    reveal_strlit("shell_call");
    reveal_strlit("apply_patch_call");
    reveal_strlit("in_progress");
    reveal_strlit("completed");
    reveal_strlit("incomplete");
    reveal_strlit("commentary");
    reveal_strlit("final_answer");
}

/// The status that the items of an answer have when it is over.
pub open spec fn last_status(completed: bool) -> OutputStatus {
    if completed {
        OutputStatus::Completed
    } else {
        OutputStatus::Incomplete
    }
}

/// A call that is kept while its answer is streamed becomes, when the answer is over, the call
/// that the whole answer has.
proof fn lemma_call_closed(
    frame: FrameOf<Seq<char>>,
    index: nat,
    call_id: Seq<char>,
    name: Seq<char>,
    input: JsonView,
    tools: Table,
)
    requires
        tool_named(tools, name) is Some,
        item_of(
            tool_item(frame.message_id, index, "in_progress"@, call_id, name, input, tools)->0,
        ) is Some,
    ensures
        ({
            let kept = item_of(
                tool_item(frame.message_id, index, "in_progress"@, call_id, name, input, tools)->0,
            )->0;
            let whole = tool_item(
                frame.message_id,
                index,
                frame.status(),
                call_id,
                name,
                input,
                tools,
            );
            &&& whole is Some
            &&& item_of(whole->0) is Some
            &&& item_closed(kept, last_status(frame.completed), frame.phase) == item_of(whole->0)
            &&& !(kept is Message)
        }),
{
    broadcast use lemma_looked_up;

    lemma_names();
    lemma_values();
    match tool_named(tools, name) {
        Some(DeclaredOf::Function) => {},
        Some(DeclaredOf::Wrapped(w)) => match w.kind {
            WrappedKind::NamespaceFunction => {},
            WrappedKind::NamespaceCustom => {},
            WrappedKind::Custom => {},
            WrappedKind::LocalShell => {},
            WrappedKind::Shell => {},
            WrappedKind::ApplyPatch => {},
        },
        None => {},
    }
}

proof fn lemma_part_read(part: PartView)
    ensures
        part_of(part_json(part)) == Some(part),
{
    broadcast use lemma_looked_up;

    lemma_names();
    lemma_values();
}

/// The JSON forms of pieces.
pub open spec fn written(content: Seq<PartView>) -> Seq<JsonView> {
    content.map_values(|p: PartView| part_json(p))
}

proof fn lemma_parts_read(content: Seq<PartView>, n: int)
    requires
        0 <= n <= content.len(),
    ensures
        parts_from(written(content), n) == Some(content.skip(n)),
    decreases content.len() - n,
{
    if n < content.len() {
        lemma_parts_read(content, n + 1);
        lemma_part_read(content[n]);
        assert(written(content)[n] == part_json(content[n]));
        assert(content.skip(n) == seq![content[n]] + content.skip(n + 1));
    } else {
        assert(content.skip(n) == Seq::<PartView>::empty());
    }
}

/// The message of an answer that is over.
pub open spec fn last_message(
    frame: FrameOf<Seq<char>>,
    index: nat,
    content: Seq<PartView>,
) -> ItemView {
    ItemOf::Message(
        MessageOf {
            content,
            id: item_id_of("msg"@, frame.message_id, index),
            phase: Some(frame.phase),
            status: last_status(frame.completed),
        },
    )
}

pub(crate) proof fn lemma_message_read(frame: FrameOf<Seq<char>>, index: nat, content: Seq<PartView>)
    ensures
        item_of(frame.message(index, written(content))) == Some(
            last_message(frame, index, content),
        ),
{
    broadcast use lemma_looked_up;

    lemma_names();
    lemma_values();
    lemma_parts_read(content, 0);
    assert(content.skip(0) == content);
}

/// What the blocks of an answer have come to so far: the items that are done, the message that is
/// open, and whether every tool was declared.
pub struct SoFar {
    pub done: Seq<JsonView>,
    pub open: Option<(nat, Seq<JsonView>)>,
    pub declared: bool,
}

/// What the blocks of an answer have come to, one after the other.
pub open spec fn so_far(
    frame: FrameOf<Seq<char>>,
    blocks: Seq<BlockView>,
    tools: Table,
) -> SoFar
    decreases blocks.len(),
{
    if blocks.len() == 0 {
        SoFar { done: Seq::empty(), open: None, declared: true }
    } else {
        let index = (blocks.len() - 1) as nat;
        let before = so_far(frame, blocks.drop_last(), tools);
        match blocks.last() {
            BlockOf::Text { text, .. } => {
                let (first, parts) = match before.open {
                    Some((first, parts)) => (first, parts),
                    None => (index, Seq::empty()),
                };
                SoFar { open: Some((first, parts.push(frame.part(text)))), ..before }
            },
            BlockOf::Thinking | BlockOf::RedactedThinking => before,
            BlockOf::ToolUse { id, name, input, .. } => match tool_item(
                frame.message_id,
                index,
                frame.status(),
                id,
                name,
                input,
                tools,
            ) {
                Some(item) => SoFar {
                    done: before.done + frame.flushed(before.open) + seq![item],
                    open: None,
                    declared: before.declared,
                },
                None => SoFar { declared: false, ..before },
            },
        }
    }
}

proof fn lemma_declared_before(
    frame: FrameOf<Seq<char>>,
    blocks: Seq<BlockView>,
    tools: Table,
)
    requires
        blocks.len() > 0,
        so_far(frame, blocks, tools).declared,
    ensures
        so_far(frame, blocks.drop_last(), tools).declared,
{
}

/// The items of an answer are those that its first blocks have come to, and then the rest.
proof fn lemma_built_so_far(
    frame: FrameOf<Seq<char>>,
    blocks: Seq<BlockView>,
    tools: Table,
    i: int,
)
    requires
        0 <= i <= blocks.len(),
        so_far(frame, blocks.take(i), tools).declared,
    ensures
        ({
            let sofar = so_far(frame, blocks.take(i), tools);
            let (rest, all) = items_built(frame, blocks, tools, i, sofar.open);
            items_built(frame, blocks, tools, 0, None) == (sofar.done + rest, all)
        }),
    decreases i,
{
    let now = so_far(frame, blocks.take(i), tools);
    if i == 0 {
        assert(blocks.take(0) == Seq::<BlockView>::empty());
        let (rest, all) = items_built(frame, blocks, tools, 0, None);
        assert(Seq::<JsonView>::empty() + rest == rest);
    } else {
        assert(blocks.take(i).drop_last() == blocks.take(i - 1));
        assert(blocks.take(i).last() == blocks[i - 1]);
        lemma_declared_before(frame, blocks.take(i), tools);
        lemma_built_so_far(frame, blocks, tools, i - 1);
        let before = so_far(frame, blocks.take(i - 1), tools);
        match blocks[i - 1] {
            BlockOf::ToolUse { id, name, input, .. } => {
                let item = tool_item(
                    frame.message_id,
                    (i - 1) as nat,
                    frame.status(),
                    id,
                    name,
                    input,
                    tools,
                )->0;
                let (rest, all) = items_built(frame, blocks, tools, i, None);
                assert(before.done + (frame.flushed(before.open) + seq![item] + rest) == now.done
                    + rest);
            },
            _ => {},
        }
    }
}

/// Whether an item that is kept becomes, when the answer is over, the item that a value stands for.
pub open spec fn becomes(frame: FrameOf<Seq<char>>, item: ItemView, value: JsonView) -> bool {
    item_of(value) is Some && item_closed(item, last_status(frame.completed), frame.phase)
        == item_of(value)
}

/// Whether what is kept of a streamed answer is what its blocks have come to.
pub open spec fn kept_so_far(
    frame: FrameOf<Seq<char>>,
    output: Seq<ItemView>,
    blocks: Seq<BlockView>,
    tools: Table,
) -> bool {
    let sofar = so_far(frame, blocks, tools);
    &&& sofar.declared
    &&& forall|k: int|
        0 <= k < sofar.done.len() ==> #[trigger] becomes(frame, output[k], sofar.done[k])
    &&& match sofar.open {
        Some((first, parts)) => {
            &&& output.len() == sofar.done.len() + 1
            &&& output.last() matches ItemOf::Message(m)
            &&& m.id == item_id_of("msg"@, frame.message_id, first)
            &&& parts == written(m.content)
        },
        None => output.len() == sofar.done.len() && (output.len() > 0 ==> !(output.last()
            is Message)),
    }
}

/// A text that was streamed is kept as the whole answer has it.
proof fn lemma_text_kept(
    frame: FrameOf<Seq<char>>,
    s: StreamView,
    blocks: Seq<BlockView>,
    tools: Table,
    b: StreamTextBlockOf<Seq<char>>,
)
    requires
        !frame.refusal,
        kept_so_far(frame, s.output, blocks, tools),
        s.output.len() <= u32::MAX,
        ({
            let (output_index, content_index, id, _) = text_place(
                s,
                frame.message_id,
                blocks.len() as usize,
            );
            content_index <= u32::MAX && b.output_index == output_index && b.content_index
                == content_index && b.item_id == id
        }),
        blocks.len() <= usize::MAX,
        text_retained(s, b) is Some,
    ensures
        kept_so_far(
            frame,
            text_retained(s, b)->0.output,
            blocks.push(BlockOf::Text { text: b.text, marked: false }),
            tools,
        ),
{
    let block: BlockView = BlockOf::Text { text: b.text, marked: false };
    let more = blocks.push(block);
    assert(more.drop_last() == blocks);
    let before = so_far(frame, blocks, tools);
    let after = so_far(frame, more, tools);
    let output = text_retained(s, b)->0.output;
    let part: PartView = PartOf::OutputText(b.text);
    assert(after.done == before.done);
    assert forall|k: int| 0 <= k < after.done.len() implies #[trigger] becomes(
        frame,
        output[k],
        after.done[k],
    ) by {
        assert(becomes(frame, s.output[k], before.done[k]));
    }
    match before.open {
        Some((first, parts)) => {
            let m = s.output.last()->Message_0;
            let grown = output.last()->Message_0;
            assert(grown.content == m.content.push(part));
            assert(written(grown.content) == parts.push(frame.part(b.text)));
        },
        None => {
            let fresh = output.last()->Message_0;
            assert(fresh.content == seq![part]);
            assert(written(fresh.content) == Seq::<JsonView>::empty().push(frame.part(b.text)));
        },
    }
}

/// A call that was streamed is kept as the whole answer has it.
proof fn lemma_call_kept(
    frame: FrameOf<Seq<char>>,
    s: StreamView,
    blocks: Seq<BlockView>,
    tools: Table,
    id: Seq<char>,
    name: Seq<char>,
    input: JsonView,
)
    requires
        !frame.refusal,
        kept_so_far(frame, s.output, blocks, tools),
        tool_named(tools, name) is Some,
        item_of(
            tool_item(
                frame.message_id,
                blocks.len(),
                "in_progress"@,
                id,
                name,
                input,
                tools,
            )->0,
        ) is Some,
    ensures
        kept_so_far(
            frame,
            s.output.push(
                item_of(
                    tool_item(
                        frame.message_id,
                        blocks.len(),
                        "in_progress"@,
                        id,
                        name,
                        input,
                        tools,
                    )->0,
                )->0,
            ),
            blocks.push(BlockOf::ToolUse { id, name, input, caller: None, marked: false }),
            tools,
        ),
{
    let block: BlockView = BlockOf::ToolUse { id, name, input, caller: None, marked: false };
    let more = blocks.push(block);
    assert(more.drop_last() == blocks);
    let before = so_far(frame, blocks, tools);
    let after = so_far(frame, more, tools);
    lemma_call_closed(frame, blocks.len(), id, name, input, tools);
    let item = item_of(
        tool_item(frame.message_id, blocks.len(), "in_progress"@, id, name, input, tools)->0,
    )->0;
    let output = s.output.push(item);
    assert forall|k: int| 0 <= k < after.done.len() implies #[trigger] becomes(
        frame,
        output[k],
        after.done[k],
    ) by {
        if k < before.done.len() {
            assert(becomes(frame, s.output[k], before.done[k]));
        } else if k == before.done.len() && before.open is Some {
            let (first, parts) = before.open->0;
            let m = s.output.last()->Message_0;
            lemma_message_read(frame, first, m.content);
            assert(after.done[k] == frame.message(first, parts));
        }
    }
}

proof fn lemma_closed_like_read(
    frame: FrameOf<Seq<char>>,
    output: Seq<ItemView>,
    values: Seq<JsonView>,
    n: int,
)
    requires
        output.len() == values.len(),
        0 <= n <= values.len(),
        forall|k: int| 0 <= k < values.len() ==> #[trigger] becomes(frame, output[k], values[k]),
    ensures
        items_closed(output, last_status(frame.completed), frame.phase, n) == items_from(values, n),
        items_from(values, n) is Some,
    decreases values.len() - n,
{
    if n < values.len() {
        lemma_closed_like_read(frame, output, values, n + 1);
        assert(becomes(frame, output[n], values[n]));
    }
}

/// What is kept of a streamed answer becomes, when it is over, the items of the whole answer.
proof fn lemma_kept_is_whole(
    frame: FrameOf<Seq<char>>,
    output: Seq<ItemView>,
    blocks: Seq<BlockView>,
    tools: Table,
)
    requires
        !frame.refusal,
        kept_so_far(frame, output, blocks, tools),
    ensures
        ({
            let (built, all) = items_built(frame, blocks, tools, 0, None);
            &&& all
            &&& items_from(built, 0) is Some
            &&& items_closed(output, last_status(frame.completed), frame.phase, 0) == items_from(
                built,
                0,
            )
        }),
{
    assert(blocks.take(blocks.len() as int) == blocks);
    lemma_built_so_far(frame, blocks, tools, blocks.len() as int);
    let sofar = so_far(frame, blocks, tools);
    let values = sofar.done + frame.flushed(sofar.open);
    assert(items_built(frame, blocks, tools, 0, None).0 == values);
    assert forall|k: int| 0 <= k < values.len() implies #[trigger] becomes(
        frame,
        output[k],
        values[k],
    ) by {
        if k < sofar.done.len() {
            assert(becomes(frame, output[k], sofar.done[k]));
        } else {
            let (first, parts) = sofar.open->0;
            let m = output.last()->Message_0;
            lemma_message_read(frame, first, m.content);
            assert(values[k] == frame.message(first, parts));
        }
    }
    lemma_closed_like_read(frame, output, values, 0);
}

/// How a block is told to a stream: it begins, its pieces come, and it is done. A block of thinking
/// must be signed; what it says meanwhile changes nothing.
pub enum Telling {
    Text(Seq<Seq<char>>),
    ToolUse { id: Seq<char>, name: Seq<char>, pieces: Seq<Seq<char>> },
    Thinking { signature: Seq<char> },
    RedactedThinking,
}

/// The text of an input that came in pieces; one that never came stands for no arguments.
pub open spec fn whole_input(pieces: Seq<Seq<char>>) -> Seq<char> {
    if joined(pieces).len() == 0 {
        "{}"@
    } else {
        joined(pieces)
    }
}

/// The block that was told.
pub open spec fn block_of(t: Telling) -> BlockView {
    match t {
        Telling::Text(pieces) => BlockOf::Text { text: joined(pieces), marked: false },
        Telling::ToolUse { id, name, pieces } => BlockOf::ToolUse {
            id,
            name,
            input: parsed(encode_utf8(whole_input(pieces)))->0,
            caller: None,
            marked: false,
        },
        Telling::Thinking { .. } => BlockOf::Thinking,
        Telling::RedactedThinking => BlockOf::RedactedThinking,
    }
}

/// The block as it begins.
pub open spec fn block_begun(t: Telling) -> BlockView {
    match t {
        Telling::Text(_) => BlockOf::Text { text: Seq::empty(), marked: false },
        Telling::ToolUse { id, name, .. } => BlockOf::ToolUse {
            id,
            name,
            input: JsonView::object(),
            caller: None,
            marked: false,
        },
        Telling::Thinking { .. } => BlockOf::Thinking,
        Telling::RedactedThinking => BlockOf::RedactedThinking,
    }
}

/// A stream after pieces of input came for a tool use, where it takes them all.
pub open spec fn fed_input(
    s: StreamView,
    index: usize,
    pieces: Seq<Seq<char>>,
    tools: Table,
    now: u64,
) -> Option<StreamView>
    decreases pieces.len(),
{
    if pieces.len() == 0 {
        Some(s)
    } else {
        match fed_input(s, index, pieces.drop_last(), tools, now) {
            None => None,
            Some(before) => match delta_taken(
                before,
                index,
                DeltaOf::InputJson(pieces.last()),
                tools,
                now,
            ) {
                Some((after, _)) => Some(after),
                None => None,
            },
        }
    }
}

/// A stream after a block was told to it, where it takes the block.
pub open spec fn block_told(s: StreamView, t: Telling, tools: Table, now: u64) -> Option<
    StreamView,
> {
    let index = s.next_block_index;
    match block_started(s, index, block_begun(t), tools) {
        None => None,
        Some((begun, _)) => {
            let fed = match t {
                Telling::Text(pieces) => fed(begun, index, pieces, tools, now),
                Telling::ToolUse { pieces, .. } => fed_input(begun, index, pieces, tools, now),
                Telling::Thinking { signature } => match delta_taken(
                    begun,
                    index,
                    DeltaOf::Signature(signature),
                    tools,
                    now,
                ) {
                    Some((signed, _)) => Some(signed),
                    None => None,
                },
                Telling::RedactedThinking => Some(begun),
            };
            match fed {
                None => None,
                Some(full) => match block_stopped(full, index, tools, now) {
                    Some((after, _)) => Some(after),
                    None => None,
                },
            }
        },
    }
}

/// A stream after the blocks of an answer were told to it, where it takes them all.
pub open spec fn content_told(s: StreamView, ts: Seq<Telling>, tools: Table, now: u64) -> Option<
    StreamView,
>
    decreases ts.len(),
{
    if ts.len() == 0 {
        Some(s)
    } else {
        match content_told(s, ts.drop_last(), tools, now) {
            None => None,
            Some(before) => block_told(before, ts.last(), tools, now),
        }
    }
}

/// The blocks that were told.
pub open spec fn content_of(ts: Seq<Telling>) -> Seq<BlockView> {
    ts.map_values(|t: Telling| block_of(t))
}

/// Whether two states of a stream differ in nothing that an answer is put together from, but for
/// the output and the place of the next block.
pub open spec fn same_answer(a: StreamView, b: StreamView) -> bool {
    a.message_id == b.message_id && a.created_at == b.created_at && a.initial_usage
        == b.initial_usage && a.saw_message_delta == b.saw_message_delta
}

proof fn lemma_text_fed(
    s: StreamView,
    b: StreamTextBlockOf<Seq<char>>,
    pieces: Seq<Seq<char>>,
    tools: Table,
    now: u64,
)
    requires
        s.active_block == Some(StreamBlockOf::Text(b)),
    ensures
        fed(s, b.index, pieces, tools, now) matches Some(after) ==> {
            &&& after.output == s.output
            &&& after.next_block_index == s.next_block_index
            &&& same_answer(after, s)
            &&& after.active_block matches Some(StreamBlockOf::Text(c)) && c.index == b.index
        },
    decreases pieces.len(),
{
    if pieces.len() > 0 {
        lemma_text_fed(s, b, pieces.drop_last(), tools, now);
    }
}

proof fn lemma_input_fed(
    s: StreamView,
    b: StreamToolBlockOf<Seq<char>>,
    pieces: Seq<Seq<char>>,
    tools: Table,
    now: u64,
)
    requires
        s.active_block == Some(StreamBlockOf::Tool(b)),
        b.json.len() == 0,
    ensures
        fed_input(s, b.index, pieces, tools, now) matches Some(after) ==> {
            &&& after.output == s.output
            &&& after.next_block_index == s.next_block_index
            &&& same_answer(after, s)
            &&& after.active_block == Some(
                StreamBlockOf::Tool(StreamToolBlockOf { json: joined(pieces), ..b }),
            )
        },
    decreases pieces.len(),
{
    if pieces.len() == 0 {
        assert(b.json == joined(pieces));
    } else {
        lemma_input_fed(s, b, pieces.drop_last(), tools, now);
    }
}

/// One block more, whole or in pieces.
proof fn lemma_block_told(
    frame: FrameOf<Seq<char>>,
    s: StreamView,
    blocks: Seq<BlockView>,
    t: Telling,
    tools: Table,
    now: u64,
)
    requires
        !frame.refusal,
        s.message_id == Some(frame.message_id),
        s.next_block_index == blocks.len(),
        kept_so_far(frame, s.output, blocks, tools),
        block_told(s, t, tools, now) is Some,
    ensures
        ({
            let after = block_told(s, t, tools, now)->0;
            &&& kept_so_far(frame, after.output, blocks.push(block_of(t)), tools)
            &&& after.next_block_index == blocks.len() + 1
            &&& same_answer(after, s)
        }),
{
    let index = s.next_block_index;
    let after = block_told(s, t, tools, now)->0;
    let begun = (block_started(s, index, block_begun(t), tools)->0).0;
    let next = StreamOf { next_block_index: (index + 1) as usize, ..s };
    let more = blocks.push(block_of(t));
    assert(more.drop_last() == blocks);
    match t {
        Telling::Text(pieces) => {
            let b = begun.active_block->0->Text_0;
            lemma_text_fed(begun, b, pieces, tools, now);
            lemma_pieces_add_up(begun, b, pieces, tools, now);
            let full = fed(begun, index, pieces, tools, now)->0;
            let whole = StreamTextBlockOf { text: joined(pieces), ..b };
            let taken = StreamOf { active_block: None, ..full };
            lemma_text_kept(frame, taken, blocks, tools, whole);
        },
        Telling::ToolUse { id, name, pieces } => {
            let b = begun.active_block->0->Tool_0;
            lemma_input_fed(begun, b, pieces, tools, now);
            let full = fed_input(begun, index, pieces, tools, now)->0;
            let taken = StreamOf { active_block: None, ..full };
            let input = parsed(encode_utf8(whole_input(pieces)))->0;
            lemma_call_kept(frame, taken, blocks, tools, id, name, input);
        },
        Telling::Thinking { .. } => {},
        Telling::RedactedThinking => {},
    }
}

/// What a stream keeps of an answer that was told to it becomes, when the answer is over, the items
/// that the whole answer comes to: whichever pieces it came in.
pub proof fn lemma_streamed_items_are_whole(
    frame: FrameOf<Seq<char>>,
    s: StreamView,
    ts: Seq<Telling>,
    tools: Table,
    now: u64,
)
    requires
        !frame.refusal,
        s.message_id == Some(frame.message_id),
        s.next_block_index == 0,
        s.output.len() == 0,
        content_told(s, ts, tools, now) is Some,
    ensures
        ({
            let after = content_told(s, ts, tools, now)->0;
            let (built, all) = items_built(frame, content_of(ts), tools, 0, None);
            &&& all
            &&& items_from(built, 0) is Some
            &&& items_closed(after.output, last_status(frame.completed), frame.phase, 0)
                == items_from(built, 0)
            &&& same_answer(after, s)
        }),
{
    lemma_content_told(frame, s, ts, tools, now);
    lemma_kept_is_whole(
        frame,
        content_told(s, ts, tools, now)->0.output,
        content_of(ts),
        tools,
    );
}

proof fn lemma_content_told(
    frame: FrameOf<Seq<char>>,
    s: StreamView,
    ts: Seq<Telling>,
    tools: Table,
    now: u64,
)
    requires
        !frame.refusal,
        s.message_id == Some(frame.message_id),
        s.next_block_index == 0,
        s.output.len() == 0,
        content_told(s, ts, tools, now) is Some,
    ensures
        ({
            let after = content_told(s, ts, tools, now)->0;
            &&& kept_so_far(frame, after.output, content_of(ts), tools)
            &&& after.next_block_index == ts.len()
            &&& same_answer(after, s)
        }),
    decreases ts.len(),
{
    if ts.len() == 0 {
        assert(content_of(ts) == Seq::<BlockView>::empty());
    } else {
        let before = content_told(s, ts.drop_last(), tools, now)->0;
        lemma_content_told(frame, s, ts.drop_last(), tools, now);
        lemma_block_told(frame, before, content_of(ts.drop_last()), ts.last(), tools, now);
        assert(content_of(ts) == content_of(ts.drop_last()).push(block_of(ts.last())));
    }
}

/// An answer that is told to a stream block by block, in whatever pieces, ends with the response
/// that the same answer is converted to when it comes whole: the same items under the same ids, the
/// same status and the same counts. Only a refusal differs: a stream has to refuse before it says
/// anything.
pub proof fn lemma_streamed_like_whole(
    v: JsonView,
    a: AnswerView,
    t: TranslatedView,
    whole_limit: usize,
    s: StreamView,
    ts: Seq<Telling>,
    now: u64,
    stop_sequence: Option<Seq<char>>,
    initial: UsageOf<Seq<char>>,
    terminal: MessageDeltaUsage,
    created_at: u64,
    model: Seq<char>,
    tools: Table,
    limit: usize,
    log_calls: bool,
)
    requires
        answer_of(v) == Some(a),
        a.stop_reason != StopReason::Refusal,
        a.content == content_of(ts),
        converted(v, model, tools, whole_limit, created_at) == Ok::<TranslatedView, AIError>(t),
        s.output.len() == 0,
        s.next_block_index == 0,
        s.message_id == Some(a.id),
        s.created_at == Some(created_at),
        s.initial_usage == Some(initial),
        stream_told(initial, terminal) == told(a.usage),
        tier_in(initial.service_tier) == tier_in(a.usage.service_tier),
    ensures
        content_told(s, ts, tools, now) matches Some(full) ==> (end_told(
            full,
            Some(a.stop_reason),
            stop_sequence,
            terminal,
        ) matches Some((ended, _)) ==> (stopped(ended, limit, model, log_calls) matches
            EndOf::Complete(next, events) ==> events.last() == response_told(
            final_event(ending(a.stop_reason)->0),
            (next.sequence_number - 1) as u64,
            t.response,
        ))),
{
    match content_told(s, ts, tools, now) {
        Some(full) => {
            let end = ending(a.stop_reason)->0;
            let frame = FrameOf {
                message_id: a.id,
                completed: end == Ending::Completed,
                phase: phase_of(a.stop_reason),
                refusal: false,
            };
            lemma_streamed_items_are_whole(frame, s, ts, tools, now);
        },
        None => {},
    }
}

} // verus!
