//! Finding declared tools, and which of them the model is asked to use.
use vstd::prelude::*;

use crate::error::{refuse, unsupported, AIError, Unsupported};
use crate::json::{only, text_field, Fields, Json, JsonView, Object};
use crate::request_types::{ToolChoice, ToolChoiceOf, ToolChoiceView};
use crate::response::nonempty;
use crate::text::{blank, owned, same, text_in, text_of};
use crate::tools::{DeclaredOf, DeclaredTool, State, Table, WrappedKind};

verus! {

/// Which tool is looked for.
pub enum WantedOf<S> {
    /// A function of this name, in a namespace or outside.
    Function(S),
    /// A tool of this name that takes free text, in a namespace or outside.
    Custom(S),
    /// A tool of this kind.
    Kind(WrappedKind),
    /// A tool of this kind with this name in this namespace; or, where functions are allowed and
    /// there is no namespace, a function of this name.
    Exactly { kind: WrappedKind, name: S, namespace: Option<S>, or_function: bool },
}

pub open spec fn wanted_view(w: WantedOf<&str>) -> WantedOf<Seq<char>> {
    match w {
        WantedOf::Function(name) => WantedOf::Function(name@),
        WantedOf::Custom(name) => WantedOf::Custom(name@),
        WantedOf::Kind(kind) => WantedOf::Kind(kind),
        WantedOf::Exactly { kind, name, namespace, or_function } => WantedOf::Exactly {
            kind,
            name: name@,
            namespace: text_of(namespace),
            or_function,
        },
    }
}

/// Whether a declared tool is what is looked for.
pub open spec fn is_wanted(
    w: WantedOf<Seq<char>>,
    entry: (Seq<char>, DeclaredOf<Seq<char>>),
) -> bool {
    match (w, entry.1) {
        (WantedOf::Function(name), DeclaredOf::Function) => entry.0 == name,
        (WantedOf::Function(name), DeclaredOf::Wrapped(t)) => t.kind
            == WrappedKind::NamespaceFunction && t.name == name,
        (WantedOf::Custom(name), DeclaredOf::Wrapped(t)) => (t.kind == WrappedKind::Custom
            || t.kind == WrappedKind::NamespaceCustom) && t.name == name,
        (WantedOf::Custom(_), DeclaredOf::Function) => false,
        (WantedOf::Kind(kind), DeclaredOf::Wrapped(t)) => t.kind == kind,
        (WantedOf::Kind(_), DeclaredOf::Function) => false,
        (
            WantedOf::Exactly { name, namespace, or_function, .. },
            DeclaredOf::Function,
        ) => or_function && namespace is None && entry.0 == name,
        (WantedOf::Exactly { kind, name, namespace, .. }, DeclaredOf::Wrapped(t)) => t.kind == kind
            && t.name == name && t.namespace == namespace,
    }
}

/// The tool that is looked for, where there is exactly one.
pub open spec fn sole(table: Table, w: WantedOf<Seq<char>>) -> Option<
    (Seq<char>, DeclaredOf<Seq<char>>),
> {
    let found = table.filter(|e: (Seq<char>, DeclaredOf<Seq<char>>)| is_wanted(w, e));
    if found.len() == 1 {
        Some(found[0])
    } else {
        None
    }
}

fn same_namespace(a: &Option<String>, b: Option<&str>) -> (r: bool)
    ensures
        r == (text_in(*a) == text_of(b)),
{
    match (a, b) {
        (Some(a), Some(b)) => same(a.as_str(), b),
        (None, None) => true,
        _ => false,
    }
}

fn matches_wanted(w: &WantedOf<&str>, upstream: &str, tool: &DeclaredTool) -> (r: bool)
    ensures
        r == is_wanted(wanted_view(*w), (upstream@, tool@)),
{
    match (w, tool) {
        (WantedOf::Function(name), DeclaredOf::Function) => same(upstream, name),
        (WantedOf::Function(name), DeclaredOf::Wrapped(t)) => t.kind
            == WrappedKind::NamespaceFunction && same(t.name.as_str(), name),
        (WantedOf::Custom(name), DeclaredOf::Wrapped(t)) => (t.kind == WrappedKind::Custom
            || t.kind == WrappedKind::NamespaceCustom) && same(t.name.as_str(), name),
        (WantedOf::Custom(_), DeclaredOf::Function) => false,
        (WantedOf::Kind(kind), DeclaredOf::Wrapped(t)) => t.kind == *kind,
        (WantedOf::Kind(_), DeclaredOf::Function) => false,
        (
            WantedOf::Exactly { name, namespace, or_function, .. },
            DeclaredOf::Function,
        ) => *or_function && namespace.is_none() && same(upstream, name),
        (WantedOf::Exactly { kind, name, namespace, .. }, DeclaredOf::Wrapped(t)) => t.kind
            == *kind && same(t.name.as_str(), name) && same_namespace(&t.namespace, *namespace),
    }
}

/// The place of the tool that is looked for, where there is exactly one.
pub fn find_sole(state: &State, w: &WantedOf<&str>) -> (r: Option<usize>)
    ensures
        match r {
            Some(i) => i < state@.len() && sole(state@, wanted_view(*w)) == Some(
                state@[i as int],
            ),
            None => sole(state@, wanted_view(*w)) is None,
        },
{
    let ghost table = state@;
    let ghost want = wanted_view(*w);
    let ghost picks = |e: (Seq<char>, DeclaredOf<Seq<char>>)| is_wanted(want, e);
    let n: usize = state.len();
    let mut found: Option<usize> = None;
    let mut many = false;
    let mut i: usize = 0;
    assert(table.take(0).filter(picks).len() == 0) by {
        assert(table.take(0) == Seq::<(Seq<char>, DeclaredOf<Seq<char>>)>::empty());
        reveal(Seq::filter);
    }
    while i < n
        invariant
            i <= n == table.len(),
            table == state@,
            want == wanted_view(*w),
            picks == (|e: (Seq<char>, DeclaredOf<Seq<char>>)| is_wanted(want, e)),
            ({
                let so_far = table.take(i as int).filter(picks);
                match found {
                    None => so_far.len() == 0 && !many,
                    Some(p) => p < n && so_far.len() > 0 && so_far[0] == table[p as int] && many
                        == (so_far.len() > 1),
                }
            }),
        decreases n - i,
    {
        proof {
            assert(table.take(i as int + 1).drop_last() == table.take(i as int));
            assert(table.take(i as int + 1).last() == table[i as int]);
            reveal(Seq::filter);
        }
        if matches_wanted(w, state.name(i), state.tool(i)) {
            assert(picks(table[i as int]));
            if found.is_some() {
                many = true;
            } else {
                found = Some(i);
            }
        }
        i = i + 1;
    }
    assert(table.take(table.len() as int) == table);
    if many {
        None
    } else {
        found
    }
}

/// The error for a choice of tools that cannot be made.
pub open spec fn bad_choice() -> AIError {
    unsupported(Unsupported::ToolChoice)
}

/// The error for a choice of tools that cannot be made.
pub fn invalid_tool_choice() -> (r: AIError)
    ensures
        r == bad_choice(),
{
    refuse(Unsupported::ToolChoice)
}

/// Which tool an object chooses.
pub open spec fn wanted_by(o: Fields) -> Option<WantedOf<Seq<char>>> {
    let kind = text_field(o, "type"@);
    if kind == Some("function"@) {
        if only(o, seq!["type", "name"]) && nonempty(o, "name"@) {
            Some(WantedOf::Function(text_field(o, "name"@)->0))
        } else {
            None
        }
    } else if kind == Some("custom"@) {
        if only(o, seq!["type", "name"]) && nonempty(o, "name"@) {
            Some(WantedOf::Custom(text_field(o, "name"@)->0))
        } else {
            None
        }
    } else if kind == Some("local_shell"@) && o.len() == 1 {
        Some(WantedOf::Kind(WrappedKind::LocalShell))
    } else if kind == Some("shell"@) && o.len() == 1 {
        Some(WantedOf::Kind(WrappedKind::Shell))
    } else if kind == Some("apply_patch"@) && o.len() == 1 {
        Some(WantedOf::Kind(WrappedKind::ApplyPatch))
    } else {
        None
    }
}

fn choose_by<'a>(o: &'a Object) -> (r: Option<WantedOf<&'a str>>)
    ensures
        match r {
            Some(w) => wanted_by(o@) == Some(wanted_view(w)),
            None => wanted_by(o@) is None,
        },
{
    let kind = match o.text("type") {
        Some(kind) => kind,
        None => return None,
    };
    proof {
        crate::choice::lemma_kinds_differ();
    }
    if same(kind, "function") || same(kind, "custom") {
        let known = ["type", "name"];
        assert(known@ == seq!["type", "name"]);
        if o.has_unknown_field(&known) {
            return None;
        }
        let name = match o.text("name") {
            Some(name) => name,
            None => return None,
        };
        if blank(name) {
            return None;
        }
        if same(kind, "function") {
            Some(WantedOf::Function(name))
        } else {
            Some(WantedOf::Custom(name))
        }
    } else if o.len() != 1 {
        None
    } else if same(kind, "local_shell") {
        Some(WantedOf::Kind(WrappedKind::LocalShell))
    } else if same(kind, "shell") {
        Some(WantedOf::Kind(WrappedKind::Shell))
    } else if same(kind, "apply_patch") {
        Some(WantedOf::Kind(WrappedKind::ApplyPatch))
    } else {
        None
    }
}

proof fn lemma_kinds_differ()
    ensures
        "custom"@ != "function"@,
{
    reveal_strlit("function");
    reveal_strlit("custom");
    assert("function"@.len() == 8);
    assert("custom"@.len() == 6);
}

/// Which tools a request asks the model to use, where it says so, or why that cannot be asked.
/// A choice must be of exactly one declared tool.
pub open spec fn choice_of(raw: JsonView, tools: Table) -> Result<Option<ToolChoiceView>, AIError> {
    let one_at_a_time = raw.get("parallel_tool_calls"@) == Some(JsonView::Bool(false));
    match raw.get("tool_choice"@) {
        None | Some(JsonView::Null) => if one_at_a_time && tools.len() > 0 {
            Ok(Some(ToolChoiceOf::Auto { one_at_a_time: true }))
        } else {
            Ok(None)
        },
        Some(JsonView::Text(mode)) => if mode == "auto"@ {
            Ok(Some(ToolChoiceOf::Auto { one_at_a_time }))
        } else if mode == "required"@ {
            if tools.len() == 0 {
                Err(bad_choice())
            } else {
                Ok(Some(ToolChoiceOf::Any { one_at_a_time }))
            }
        } else if mode == "none"@ {
            Ok(Some(ToolChoiceOf::Never))
        } else {
            Err(bad_choice())
        },
        Some(JsonView::Object(o)) => match wanted_by(o) {
            Some(w) => match sole(tools, w) {
                Some((name, _)) => Ok(Some(ToolChoiceOf::Tool { name, one_at_a_time })),
                None => Err(bad_choice()),
            },
            None => Err(bad_choice()),
        },
        Some(_) => Err(bad_choice()),
    }
}

/// Which tools a request asks the model to use.
pub fn translate_tool_choice(raw: &Json, state: &State) -> (r: Result<Option<ToolChoice>, AIError>)
    ensures
        match choice_of(raw@, state@) {
            Ok(c) => r is Ok && (match r->Ok_0 {
                Some(c) => Some(c@),
                None => None,
            }) == c,
            Err(e) => r is Err && r->Err_0 == e,
        },
{
    let one_at_a_time = match raw.get("parallel_tool_calls") {
        Some(Json::Bool(parallel)) => !*parallel,
        _ => false,
    };
    match raw.get("tool_choice") {
        None | Some(Json::Null) => if one_at_a_time && state.len() > 0 {
            Ok(Some(ToolChoiceOf::Auto { one_at_a_time: true }))
        } else {
            Ok(None)
        },
        Some(Json::Text(mode)) => if same(mode.as_str(), "auto") {
            Ok(Some(ToolChoiceOf::Auto { one_at_a_time }))
        } else if same(mode.as_str(), "required") {
            if state.len() == 0 {
                Err(invalid_tool_choice())
            } else {
                Ok(Some(ToolChoiceOf::Any { one_at_a_time }))
            }
        } else if same(mode.as_str(), "none") {
            Ok(Some(ToolChoiceOf::Never))
        } else {
            Err(invalid_tool_choice())
        },
        Some(Json::Object(o)) => {
            let wanted = match choose_by(o) {
                Some(w) => w,
                None => return Err(invalid_tool_choice()),
            };
            match find_sole(state, &wanted) {
                Some(i) => Ok(
                    Some(ToolChoiceOf::Tool { name: owned(state.name(i)), one_at_a_time }),
                ),
                None => Err(invalid_tool_choice()),
            }
        },
        Some(_) => Err(invalid_tool_choice()),
    }
}

proof fn lemma_filter_within<A>(s: Seq<A>, picks: spec_fn(A) -> bool)
    ensures
        forall|i: int| 0 <= i < s.filter(picks).len() ==> s.contains(#[trigger] s.filter(picks)[i]),
    decreases s.len(),
{
    reveal(Seq::filter);
    if s.len() > 0 {
        let front = s.drop_last();
        lemma_filter_within(front, picks);
        assert forall|i: int| 0 <= i < s.filter(picks).len() implies s.contains(
            #[trigger] s.filter(picks)[i],
        ) by {
            if i < front.filter(picks).len() {
                assert(s.filter(picks)[i] == front.filter(picks)[i]);
                assert(front.contains(front.filter(picks)[i]));
                let k = choose|k: int| 0 <= k < front.len() && front[k] == front.filter(picks)[i];
                assert(s[k] == s.filter(picks)[i]);
            } else {
                assert(s[s.len() - 1] == s.filter(picks)[i]);
            }
        }
    }
}

/// A tool that is found was declared, and is what was looked for.
pub proof fn lemma_sole_declared(table: Table, w: WantedOf<Seq<char>>)
    requires
        sole(table, w) is Some,
    ensures
        table.contains(sole(table, w)->0),
        is_wanted(w, sole(table, w)->0),
        forall|i: int|
            0 <= i < table.len() && is_wanted(w, #[trigger] table[i]) ==> table[i] == sole(
                table,
                w,
            )->0,
{
    let picks = |e: (Seq<char>, DeclaredOf<Seq<char>>)| is_wanted(w, e);
    let found = table.filter(picks);
    broadcast use vstd::seq_lib::group_filter_ensures;
    assert(found.contains(found[0]));
    lemma_filter_within(table, picks);
    assert(table.contains(found[0]));
    assert forall|i: int| 0 <= i < table.len() && is_wanted(w, #[trigger] table[i]) implies table[i]
        == found[0] by {
        assert(picks(table[i]));
        assert(found.contains(table[i]));
    }
}

} // verus!
