//! The Responses API: the items that a response puts out.
use vstd::prelude::*;

use crate::json::{views, Json, JsonView};
use crate::text::{copy_opt, owned, text_in};
use crate::usage::{MessagePhase, ResponseUsage, ServiceTier};

verus! {

broadcast use crate::json::lemma_array_view;

/// How far an item has come.
#[derive(Debug, Clone, Copy, PartialEq, Eq, Structural)]
pub enum OutputStatus {
    InProgress,
    Completed,
    Incomplete,
}

impl OutputStatus {
    pub open spec fn name_spec(self) -> Seq<char> {
        match self {
            OutputStatus::InProgress => "in_progress"@,
            OutputStatus::Completed => "completed"@,
            OutputStatus::Incomplete => "incomplete"@,
        }
    }

    /// The name of the status.
    pub fn name(&self) -> (r: &'static str)
        ensures
            r@ == self.name_spec(),
    {
        match self {
            OutputStatus::InProgress => "in_progress",
            OutputStatus::Completed => "completed",
            OutputStatus::Incomplete => "incomplete",
        }
    }
}

/// A piece of a message.
#[derive(Debug)]
pub enum PartOf<S> {
    OutputText(S),
    Refusal(S),
}

/// A message.
#[derive(Debug)]
pub struct MessageOf<S, L> {
    pub content: L,
    pub id: S,
    pub phase: Option<MessagePhase>,
    pub status: OutputStatus,
}

/// A call of a function.
#[derive(Debug)]
pub struct FunctionCallOf<S> {
    pub id: Option<S>,
    pub call_id: S,
    pub namespace: Option<S>,
    pub name: S,
    pub arguments: S,
    pub status: Option<OutputStatus>,
}

/// A call of a tool that takes free text.
#[derive(Debug)]
pub struct CustomToolCallOf<S> {
    pub id: S,
    pub call_id: S,
    pub namespace: Option<S>,
    pub name: S,
    pub input: S,
}

/// A call that asks the client to act: to run commands or to patch a file.
#[derive(Debug)]
pub struct ActionCallOf<S, J> {
    pub id: S,
    pub call_id: S,
    pub action: J,
    pub status: OutputStatus,
}

/// A summary of reasoning.
#[derive(Debug)]
pub struct ReasoningOf<S> {
    pub id: S,
    pub status: Option<OutputStatus>,
}

/// An item that a response puts out.
#[derive(Debug)]
pub enum ItemOf<S, J, L> {
    Message(MessageOf<S, L>),
    FunctionCall(FunctionCallOf<S>),
    CustomToolCall(CustomToolCallOf<S>),
    LocalShellCall(ActionCallOf<S, J>),
    ShellCall(ActionCallOf<S, J>),
    ApplyPatchCall(ActionCallOf<S, J>),
    Reasoning(ReasoningOf<S>),
    /// An item of a kind that only its maker knows.
    Other(J),
}

pub type OutputPart = PartOf<String>;

pub type OutputMessage = MessageOf<String, Vec<PartOf<String>>>;

pub type OutputItem = ItemOf<String, Json, Vec<PartOf<String>>>;

pub type PartView = PartOf<Seq<char>>;

pub type MessageView = MessageOf<Seq<char>, Seq<PartOf<Seq<char>>>>;

pub type ItemView = ItemOf<Seq<char>, JsonView, Seq<PartOf<Seq<char>>>>;

impl View for PartOf<String> {
    type V = PartOf<Seq<char>>;

    open spec fn view(&self) -> PartOf<Seq<char>> {
        match self {
            PartOf::OutputText(s) => PartOf::OutputText(s@),
            PartOf::Refusal(s) => PartOf::Refusal(s@),
        }
    }
}

/// What the pieces of a list hold.
pub open spec fn part_views(parts: Seq<PartOf<String>>) -> Seq<PartView> {
    parts.map_values(|p: PartOf<String>| p@)
}

impl View for MessageOf<String, Vec<PartOf<String>>> {
    type V = MessageOf<Seq<char>, Seq<PartOf<Seq<char>>>>;

    open spec fn view(&self) -> MessageView {
        MessageOf {
            content: part_views(self.content@),
            id: self.id@,
            phase: self.phase,
            status: self.status,
        }
    }
}

impl View for FunctionCallOf<String> {
    type V = FunctionCallOf<Seq<char>>;

    open spec fn view(&self) -> FunctionCallOf<Seq<char>> {
        FunctionCallOf {
            id: text_in(self.id),
            call_id: self.call_id@,
            namespace: text_in(self.namespace),
            name: self.name@,
            arguments: self.arguments@,
            status: self.status,
        }
    }
}

impl View for CustomToolCallOf<String> {
    type V = CustomToolCallOf<Seq<char>>;

    open spec fn view(&self) -> CustomToolCallOf<Seq<char>> {
        CustomToolCallOf {
            id: self.id@,
            call_id: self.call_id@,
            namespace: text_in(self.namespace),
            name: self.name@,
            input: self.input@,
        }
    }
}

impl View for ActionCallOf<String, Json> {
    type V = ActionCallOf<Seq<char>, JsonView>;

    open spec fn view(&self) -> ActionCallOf<Seq<char>, JsonView> {
        ActionCallOf {
            id: self.id@,
            call_id: self.call_id@,
            action: self.action@,
            status: self.status,
        }
    }
}

impl View for ReasoningOf<String> {
    type V = ReasoningOf<Seq<char>>;

    open spec fn view(&self) -> ReasoningOf<Seq<char>> {
        ReasoningOf { id: self.id@, status: self.status }
    }
}

impl View for ItemOf<String, Json, Vec<PartOf<String>>> {
    type V = ItemOf<Seq<char>, JsonView, Seq<PartOf<Seq<char>>>>;

    open spec fn view(&self) -> ItemView {
        match self {
            ItemOf::Message(m) => ItemOf::Message(m@),
            ItemOf::FunctionCall(c) => ItemOf::FunctionCall(c@),
            ItemOf::CustomToolCall(c) => ItemOf::CustomToolCall(c@),
            ItemOf::LocalShellCall(c) => ItemOf::LocalShellCall(c@),
            ItemOf::ShellCall(c) => ItemOf::ShellCall(c@),
            ItemOf::ApplyPatchCall(c) => ItemOf::ApplyPatchCall(c@),
            ItemOf::Reasoning(i) => ItemOf::Reasoning(i@),
            ItemOf::Other(j) => ItemOf::Other(j@),
        }
    }
}

/// What the items of a list hold.
pub open spec fn item_views(items: Seq<OutputItem>) -> Seq<ItemView> {
    items.map_values(|i: OutputItem| i@)
}

/// The JSON form of a piece of a message.
pub open spec fn part_json(part: PartView) -> JsonView {
    match part {
        PartOf::OutputText(text) => JsonView::object().with(
            "type"@,
            JsonView::Text("output_text"@),
        ).with("annotations"@, JsonView::Array(Seq::empty())).with(
            "logprobs"@,
            JsonView::Null,
        ).with("text"@, JsonView::Text(text)),
        PartOf::Refusal(text) => JsonView::object().with(
            "type"@,
            JsonView::Text("refusal"@),
        ).with("refusal"@, JsonView::Text(text)),
    }
}

/// The JSON form of a list of pieces.
pub open spec fn parts_json(parts: Seq<PartView>) -> JsonView {
    JsonView::Array(parts.map_values(|p: PartView| part_json(p)))
}

pub open spec fn phase_json(phase: Option<MessagePhase>) -> Option<JsonView> {
    match phase {
        Some(phase) => Some(JsonView::Text(phase.name_spec())),
        None => None,
    }
}

pub open spec fn status_json(status: Option<OutputStatus>) -> Option<JsonView> {
    match status {
        Some(status) => Some(JsonView::Text(status.name_spec())),
        None => None,
    }
}

pub open spec fn text_json(s: Option<Seq<char>>) -> Option<JsonView> {
    match s {
        Some(s) => Some(JsonView::Text(s)),
        None => None,
    }
}

/// The JSON form of an item.
pub open spec fn item_json(item: ItemView) -> JsonView {
    match item {
        ItemOf::Message(m) => JsonView::object().with("type"@, JsonView::Text("message"@)).with(
            "id"@,
            JsonView::Text(m.id),
        ).with("role"@, JsonView::Text("assistant"@)).with_some(
            "phase"@,
            phase_json(m.phase),
        ).with("status"@, JsonView::Text(m.status.name_spec())).with(
            "content"@,
            parts_json(m.content),
        ),
        ItemOf::FunctionCall(c) => JsonView::object().with(
            "type"@,
            JsonView::Text("function_call"@),
        ).with_some("id"@, text_json(c.id)).with("call_id"@, JsonView::Text(c.call_id)).with_some(
            "namespace"@,
            text_json(c.namespace),
        ).with("name"@, JsonView::Text(c.name)).with(
            "arguments"@,
            JsonView::Text(c.arguments),
        ).with_some("status"@, status_json(c.status)),
        ItemOf::CustomToolCall(c) => JsonView::object().with(
            "type"@,
            JsonView::Text("custom_tool_call"@),
        ).with("id"@, JsonView::Text(c.id)).with("call_id"@, JsonView::Text(c.call_id)).with_some(
            "namespace"@,
            text_json(c.namespace),
        ).with("name"@, JsonView::Text(c.name)).with("input"@, JsonView::Text(c.input)),
        ItemOf::LocalShellCall(c) => action_json("local_shell_call"@, "action"@, c),
        ItemOf::ShellCall(c) => action_json("shell_call"@, "action"@, c).with(
            "environment"@,
            local_json(),
        ),
        ItemOf::ApplyPatchCall(c) => action_json("apply_patch_call"@, "operation"@, c),
        ItemOf::Reasoning(i) => JsonView::object().with(
            "type"@,
            JsonView::Text("reasoning"@),
        ).with("id"@, JsonView::Text(i.id)).with(
            "summary"@,
            JsonView::Array(Seq::empty()),
        ).with_some("status"@, status_json(i.status)),
        ItemOf::Other(j) => j,
    }
}

/// The JSON form of a call that asks the client to act.
pub open spec fn action_json(
    kind: Seq<char>,
    name: Seq<char>,
    c: ActionCallOf<Seq<char>, JsonView>,
) -> JsonView {
    JsonView::object().with("type"@, JsonView::Text(kind)).with("id"@, JsonView::Text(c.id)).with(
        "call_id"@,
        JsonView::Text(c.call_id),
    ).with(name, c.action).with("status"@, JsonView::Text(c.status.name_spec()))
}

/// The environment of a shell on the client's own computer.
pub open spec fn local_json() -> JsonView {
    JsonView::object().with("type"@, JsonView::Text("local"@))
}

/// The JSON forms of a list of items.
pub open spec fn items_json(items: Seq<ItemView>) -> JsonView {
    JsonView::Array(items.map_values(|i: ItemView| item_json(i)))
}

fn text_opt(s: &Option<String>) -> (r: Option<Json>)
    ensures
        (match r {
            Some(j) => Some(j@),
            None => None,
        }) == text_json(text_in(*s)),
{
    match s {
        Some(s) => Some(Json::text(s.as_str())),
        None => None,
    }
}

fn status_opt(s: Option<OutputStatus>) -> (r: Option<Json>)
    ensures
        (match r {
            Some(j) => Some(j@),
            None => None,
        }) == status_json(s),
{
    match s {
        Some(s) => Some(Json::text(s.name())),
        None => None,
    }
}

impl PartOf<String> {
    /// The JSON form.
    pub fn to_json(&self) -> (r: Json)
        ensures
            r@ == part_json(self@),
    {
        match self {
            PartOf::OutputText(text) => {
                let none = Json::Array(Vec::new());
                assert(none@ == JsonView::Array(Seq::empty())) by {
                    assert(none@->Array_0 == Seq::<JsonView>::empty());
                }
                Json::object().with("type", Json::text("output_text")).with(
                    "annotations",
                    none,
                ).with("logprobs", Json::Null).with("text", Json::text(text.as_str()))
            },
            PartOf::Refusal(text) => Json::object().with("type", Json::text("refusal")).with(
                "refusal",
                Json::text(text.as_str()),
            ),
        }
    }

    /// A copy.
    pub fn copy(&self) -> (r: OutputPart)
        ensures
            r@ == self@,
    {
        match self {
            PartOf::OutputText(s) => PartOf::OutputText(owned(s.as_str())),
            PartOf::Refusal(s) => PartOf::Refusal(owned(s.as_str())),
        }
    }
}

fn copy_parts(parts: &Vec<OutputPart>) -> (r: Vec<OutputPart>)
    ensures
        part_views(r@) == part_views(parts@),
{
    let mut r: Vec<OutputPart> = Vec::new();
    let mut i: usize = 0;
    while i < parts.len()
        invariant
            i <= parts.len(),
            r.len() == i,
            forall|j: int| 0 <= j < i ==> (#[trigger] r@[j])@ == parts@[j]@,
        decreases parts.len() - i,
    {
        r.push(parts[i].copy());
        i = i + 1;
    }
    assert(part_views(r@) == part_views(parts@));
    r
}

/// The JSON form of a list of pieces.
pub fn render_parts(parts: &Vec<OutputPart>) -> (r: Json)
    ensures
        r@ == parts_json(part_views(parts@)),
{
    let mut items: Vec<Json> = Vec::new();
    let mut i: usize = 0;
    while i < parts.len()
        invariant
            i <= parts.len(),
            items.len() == i,
            forall|j: int| 0 <= j < i ==> (#[trigger] items@[j])@ == part_json(parts@[j]@),
        decreases parts.len() - i,
    {
        items.push(parts[i].to_json());
        i = i + 1;
    }
    assert(views(items@) == part_views(parts@).map_values(|p: PartView| part_json(p)));
    Json::Array(items)
}

/// The JSON forms of a list of items.
pub fn render_items(list: &Vec<OutputItem>) -> (r: Json)
    ensures
        r@ == items_json(item_views(list@)),
{
    let mut items: Vec<Json> = Vec::new();
    let mut i: usize = 0;
    while i < list.len()
        invariant
            i <= list.len(),
            items.len() == i,
            forall|j: int| 0 <= j < i ==> (#[trigger] items@[j])@ == item_json(list@[j]@),
        decreases list.len() - i,
    {
        items.push(list[i].to_json());
        i = i + 1;
    }
    assert(views(items@) == item_views(list@).map_values(|x: ItemView| item_json(x)));
    Json::Array(items)
}

impl ActionCallOf<String, Json> {
    fn to_json(&self, kind: &str, name: &str) -> (r: Json)
        ensures
            r@ == action_json(kind@, name@, self@),
    {
        Json::object().with("type", Json::text(kind)).with("id", Json::text(self.id.as_str())).with(
            "call_id",
            Json::text(self.call_id.as_str()),
        ).with(name, self.action.copy()).with("status", Json::text(self.status.name()))
    }

    fn copy(&self) -> (r: ActionCallOf<String, Json>)
        ensures
            r@ == self@,
    {
        ActionCallOf {
            id: owned(self.id.as_str()),
            call_id: owned(self.call_id.as_str()),
            action: self.action.copy(),
            status: self.status,
        }
    }
}

impl ItemOf<String, Json, Vec<PartOf<String>>> {
    /// The JSON form.
    pub fn to_json(&self) -> (r: Json)
        ensures
            r@ == item_json(self@),
    {
        match self {
            ItemOf::Message(m) => {
                let phase = match m.phase {
                    Some(phase) => Some(Json::text(phase.name())),
                    None => None,
                };
                Json::object().with("type", Json::text("message")).with(
                    "id",
                    Json::text(m.id.as_str()),
                ).with("role", Json::text("assistant")).with_some("phase", phase).with(
                    "status",
                    Json::text(m.status.name()),
                ).with("content", render_parts(&m.content))
            },
            ItemOf::FunctionCall(c) => Json::object().with(
                "type",
                Json::text("function_call"),
            ).with_some("id", text_opt(&c.id)).with(
                "call_id",
                Json::text(c.call_id.as_str()),
            ).with_some("namespace", text_opt(&c.namespace)).with(
                "name",
                Json::text(c.name.as_str()),
            ).with("arguments", Json::text(c.arguments.as_str())).with_some(
                "status",
                status_opt(c.status),
            ),
            ItemOf::CustomToolCall(c) => Json::object().with(
                "type",
                Json::text("custom_tool_call"),
            ).with("id", Json::text(c.id.as_str())).with(
                "call_id",
                Json::text(c.call_id.as_str()),
            ).with_some("namespace", text_opt(&c.namespace)).with(
                "name",
                Json::text(c.name.as_str()),
            ).with("input", Json::text(c.input.as_str())),
            ItemOf::LocalShellCall(c) => c.to_json("local_shell_call", "action"),
            ItemOf::ShellCall(c) => c.to_json("shell_call", "action").with(
                "environment",
                Json::object().with("type", Json::text("local")),
            ),
            ItemOf::ApplyPatchCall(c) => c.to_json("apply_patch_call", "operation"),
            ItemOf::Reasoning(i) => {
                let none = Json::Array(Vec::new());
                assert(none@ == JsonView::Array(Seq::empty())) by {
                    assert(none@->Array_0 == Seq::<JsonView>::empty());
                }
                Json::object().with("type", Json::text("reasoning")).with(
                    "id",
                    Json::text(i.id.as_str()),
                ).with("summary", none).with_some("status", status_opt(i.status))
            },
            ItemOf::Other(j) => j.copy(),
        }
    }

    /// A copy.
    pub fn copy(&self) -> (r: OutputItem)
        ensures
            r@ == self@,
    {
        match self {
            ItemOf::Message(m) => ItemOf::Message(
                MessageOf {
                    content: copy_parts(&m.content),
                    id: owned(m.id.as_str()),
                    phase: m.phase,
                    status: m.status,
                },
            ),
            ItemOf::FunctionCall(c) => ItemOf::FunctionCall(
                FunctionCallOf {
                    id: copy_opt(&c.id),
                    call_id: owned(c.call_id.as_str()),
                    namespace: copy_opt(&c.namespace),
                    name: owned(c.name.as_str()),
                    arguments: owned(c.arguments.as_str()),
                    status: c.status,
                },
            ),
            ItemOf::CustomToolCall(c) => ItemOf::CustomToolCall(
                CustomToolCallOf {
                    id: owned(c.id.as_str()),
                    call_id: owned(c.call_id.as_str()),
                    namespace: copy_opt(&c.namespace),
                    name: owned(c.name.as_str()),
                    input: owned(c.input.as_str()),
                },
            ),
            ItemOf::LocalShellCall(c) => ItemOf::LocalShellCall(c.copy()),
            ItemOf::ShellCall(c) => ItemOf::ShellCall(c.copy()),
            ItemOf::ApplyPatchCall(c) => ItemOf::ApplyPatchCall(c.copy()),
            ItemOf::Reasoning(i) => ItemOf::Reasoning(
                ReasoningOf { id: owned(i.id.as_str()), status: i.status },
            ),
            ItemOf::Other(j) => ItemOf::Other(j.copy()),
        }
    }
}

/// How far a response has come.
#[derive(Debug, Clone, Copy, PartialEq, Eq, Structural)]
pub enum Status {
    InProgress,
    Completed,
    /// Cut off by a limit on the output tokens.
    Incomplete,
}

impl Status {
    pub open spec fn name_spec(self) -> Seq<char> {
        match self {
            Status::InProgress => "in_progress"@,
            Status::Completed => "completed"@,
            Status::Incomplete => "incomplete"@,
        }
    }

    /// The name of the status.
    pub fn name(&self) -> (r: &'static str)
        ensures
            r@ == self.name_spec(),
    {
        match self {
            Status::InProgress => "in_progress",
            Status::Completed => "completed",
            Status::Incomplete => "incomplete",
        }
    }
}

/// A response.
#[derive(Debug)]
pub struct ResponseOf<S, L> {
    pub id: S,
    pub created_at: u64,
    pub status: Status,
    pub output: L,
    pub model: S,
    pub usage: Option<ResponseUsage>,
    pub service_tier: Option<ServiceTier>,
}

pub type Response = ResponseOf<String, Vec<OutputItem>>;

pub type ResponseView = ResponseOf<Seq<char>, Seq<ItemView>>;

impl View for ResponseOf<String, Vec<OutputItem>> {
    type V = ResponseOf<Seq<char>, Seq<ItemView>>;

    open spec fn view(&self) -> ResponseView {
        ResponseOf {
            id: self.id@,
            created_at: self.created_at,
            status: self.status,
            output: item_views(self.output@),
            model: self.model@,
            usage: self.usage,
            service_tier: self.service_tier,
        }
    }
}

/// The JSON form of the tokens that a response took.
pub open spec fn usage_json(u: ResponseUsage) -> JsonView {
    JsonView::object().with("input_tokens"@, JsonView::Unsigned(u.input_tokens as u64)).with(
        "input_tokens_details"@,
        JsonView::object().with(
            "cached_tokens"@,
            JsonView::Unsigned(u.input_tokens_details.cached_tokens as u64),
        ).with_some("cache_write_tokens"@, match u.input_tokens_details.cache_write_tokens {
            Some(n) => Some(JsonView::Unsigned(n as u64)),
            None => None,
        }),
    ).with("output_tokens"@, JsonView::Unsigned(u.output_tokens as u64)).with(
        "output_tokens_details"@,
        JsonView::object().with(
            "reasoning_tokens"@,
            JsonView::Unsigned(u.output_tokens_details.reasoning_tokens as u64),
        ),
    ).with("total_tokens"@, JsonView::Unsigned(u.total_tokens as u64))
}

/// The JSON form of the tokens that a response took.
pub fn render_usage(u: ResponseUsage) -> (r: Json)
    ensures
        r@ == usage_json(u),
{
    let written = match u.input_tokens_details.cache_write_tokens {
        Some(n) => Some(Json::Unsigned(n as u64)),
        None => None,
    };
    Json::object().with("input_tokens", Json::Unsigned(u.input_tokens as u64)).with(
        "input_tokens_details",
        Json::object().with(
            "cached_tokens",
            Json::Unsigned(u.input_tokens_details.cached_tokens as u64),
        ).with_some("cache_write_tokens", written),
    ).with("output_tokens", Json::Unsigned(u.output_tokens as u64)).with(
        "output_tokens_details",
        Json::object().with(
            "reasoning_tokens",
            Json::Unsigned(u.output_tokens_details.reasoning_tokens as u64),
        ),
    ).with("total_tokens", Json::Unsigned(u.total_tokens as u64))
}

/// Why a response is incomplete, in its JSON form.
pub open spec fn incomplete_json(status: Status) -> Option<JsonView> {
    if status == Status::Incomplete {
        Some(JsonView::object().with("reason"@, JsonView::Text("max_output_tokens"@)))
    } else {
        None
    }
}

/// The JSON form of a response.
pub open spec fn response_json(r: ResponseView) -> JsonView {
    JsonView::object().with("id"@, JsonView::Text(r.id)).with(
        "object"@,
        JsonView::Text("response"@),
    ).with("created_at"@, JsonView::Unsigned(r.created_at)).with(
        "status"@,
        JsonView::Text(r.status.name_spec()),
    ).with("output"@, items_json(r.output)).with("model"@, JsonView::Text(r.model)).with_some(
        "usage"@,
        match r.usage {
            Some(u) => Some(usage_json(u)),
            None => None,
        },
    ).with_some("incomplete_details"@, incomplete_json(r.status)).with_some(
        "service_tier"@,
        match r.service_tier {
            Some(t) => Some(JsonView::Text(t.name_spec())),
            None => None,
        },
    )
}

impl ResponseOf<String, Vec<OutputItem>> {
    /// The JSON form.
    pub fn to_json(&self) -> (r: Json)
        ensures
            r@ == response_json(self@),
    {
        let usage = match self.usage {
            Some(u) => Some(render_usage(u)),
            None => None,
        };
        let incomplete = match self.status {
            Status::Incomplete => Some(
                Json::object().with("reason", Json::text("max_output_tokens")),
            ),
            _ => None,
        };
        let tier = match self.service_tier {
            Some(t) => Some(Json::text(t.name())),
            None => None,
        };
        Json::object().with("id", Json::text(self.id.as_str())).with(
            "object",
            Json::text("response"),
        ).with("created_at", Json::Unsigned(self.created_at)).with(
            "status",
            Json::text(self.status.name()),
        ).with("output", render_items(&self.output)).with(
            "model",
            Json::text(self.model.as_str()),
        ).with_some("usage", usage).with_some("incomplete_details", incomplete).with_some(
            "service_tier",
            tier,
        )
    }
}

} // verus!
