//! The tools that a request declares, and how they are named upstream.
use vstd::prelude::*;

use crate::text::{copy_opt, owned, same, text_in};

verus! {

/// How a tool that has no direct counterpart is wrapped into a function.
#[derive(Debug, Clone, Copy, PartialEq, Eq, Structural)]
pub enum WrappedKind {
    NamespaceFunction,
    NamespaceCustom,
    Custom,
    LocalShell,
    Shell,
    ApplyPatch,
}

impl WrappedKind {
    pub open spec fn field(self) -> Seq<char> {
        match self {
            WrappedKind::NamespaceFunction => "arguments"@,
            WrappedKind::NamespaceCustom | WrappedKind::Custom => "input"@,
            WrappedKind::LocalShell | WrappedKind::Shell => "action"@,
            WrappedKind::ApplyPatch => "operation"@,
        }
    }

    /// The field of the wrapper object that holds the tool's own payload.
    pub fn field_name(&self) -> (r: &'static str)
        ensures
            r@ == self.field(),
    {
        match self {
            WrappedKind::NamespaceFunction => "arguments",
            WrappedKind::NamespaceCustom | WrappedKind::Custom => "input",
            WrappedKind::LocalShell | WrappedKind::Shell => "action",
            WrappedKind::ApplyPatch => "operation",
        }
    }

    pub open spec fn prefix(self) -> Seq<char> {
        match self {
            WrappedKind::NamespaceFunction => "fc"@,
            WrappedKind::NamespaceCustom | WrappedKind::Custom => "ctc"@,
            WrappedKind::LocalShell => "lsc"@,
            WrappedKind::Shell => "shc"@,
            WrappedKind::ApplyPatch => "apc"@,
        }
    }

    /// The prefix of the ids of this kind's calls, finished or still streaming.
    pub fn id_prefix(&self) -> (r: &'static str)
        ensures
            r@ == self.prefix(),
    {
        match self {
            WrappedKind::NamespaceFunction => "fc",
            WrappedKind::NamespaceCustom | WrappedKind::Custom => "ctc",
            WrappedKind::LocalShell => "lsc",
            WrappedKind::Shell => "shc",
            WrappedKind::ApplyPatch => "apc",
        }
    }
}

/// A wrapped tool: its kind, its own name and the namespace it stands in.
#[derive(Debug)]
pub struct WrappedOf<S> {
    pub kind: WrappedKind,
    pub name: S,
    pub namespace: Option<S>,
}

/// A tool that a request declares.
#[derive(Debug)]
pub enum DeclaredOf<S> {
    /// A function that goes by its own name.
    Function,
    Wrapped(WrappedOf<S>),
}

pub type WrappedTool = WrappedOf<String>;

pub type DeclaredTool = DeclaredOf<String>;

impl View for WrappedOf<String> {
    type V = WrappedOf<Seq<char>>;

    open spec fn view(&self) -> WrappedOf<Seq<char>> {
        WrappedOf { kind: self.kind, name: self.name@, namespace: text_in(self.namespace) }
    }
}

impl View for DeclaredOf<String> {
    type V = DeclaredOf<Seq<char>>;

    open spec fn view(&self) -> DeclaredOf<Seq<char>> {
        match self {
            DeclaredOf::Function => DeclaredOf::Function,
            DeclaredOf::Wrapped(w) => DeclaredOf::Wrapped(w@),
        }
    }
}

impl WrappedOf<String> {
    /// A copy.
    pub fn copy(&self) -> (r: WrappedTool)
        ensures
            r@ == self@,
    {
        WrappedOf {
            kind: self.kind,
            name: owned(self.name.as_str()),
            namespace: copy_opt(&self.namespace),
        }
    }
}

impl DeclaredOf<String> {
    /// A copy.
    pub fn copy(&self) -> (r: DeclaredTool)
        ensures
            r@ == self@,
    {
        match self {
            DeclaredOf::Function => DeclaredOf::Function,
            DeclaredOf::Wrapped(w) => DeclaredOf::Wrapped(w.copy()),
        }
    }
}

/// Tools by the name that they have upstream.
pub type Table = Seq<(Seq<char>, DeclaredOf<Seq<char>>)>;

/// Names and tools of a list of entries.
pub open spec fn table_of(entries: Seq<(String, DeclaredTool)>) -> Table {
    entries.map_values(|e: (String, DeclaredTool)| (e.0@, e.1@))
}

/// Whether no name occurs twice.
pub open spec fn names_distinct(table: Table) -> bool {
    forall|i: int, j: int|
        0 <= i < j < table.len() ==> #[trigger] table[i].0 != #[trigger] table[j].0
}

/// The first position, at or after `i`, of a name.
pub open spec fn place_from(table: Table, name: Seq<char>, i: int) -> Option<int>
    decreases table.len() - i,
{
    if i < 0 || i >= table.len() {
        None
    } else if table[i].0 == name {
        Some(i)
    } else {
        place_from(table, name, i + 1)
    }
}

/// The tool of a name.
pub open spec fn tool_named(table: Table, name: Seq<char>) -> Option<DeclaredOf<Seq<char>>> {
    match place_from(table, name, 0) {
        Some(i) => Some(table[i].1),
        None => None,
    }
}

/// The table with a tool under a name: in place of the one that has it, else at the end.
pub open spec fn tool_put(
    table: Table,
    name: Seq<char>,
    tool: DeclaredOf<Seq<char>>,
) -> Table {
    match place_from(table, name, 0) {
        Some(i) => table.update(i, (name, tool)),
        None => table.push((name, tool)),
    }
}

/// Where a name is found it is the first of its kind; where it is not found it is nowhere.
pub proof fn lemma_place(table: Table, name: Seq<char>, i: int)
    requires
        0 <= i <= table.len(),
    ensures
        match place_from(table, name, i) {
            Some(p) => i <= p < table.len() && table[p].0 == name && forall|j: int|
                i <= j < p ==> (#[trigger] table[j]).0 != name,
            None => forall|j: int| i <= j < table.len() ==> (#[trigger] table[j]).0 != name,
        },
    decreases table.len() - i,
{
    if i < table.len() && table[i].0 != name {
        lemma_place(table, name, i + 1);
    }
}

/// Declaring a tool keeps the names distinct.
pub proof fn lemma_tool_put_distinct(
    table: Table,
    name: Seq<char>,
    tool: DeclaredOf<Seq<char>>,
)
    requires
        names_distinct(table),
    ensures
        names_distinct(tool_put(table, name, tool)),
{
    lemma_place(table, name, 0);
}

/// A declared tool is found under its name.
pub proof fn lemma_tool_put_found(table: Table, name: Seq<char>, tool: DeclaredOf<Seq<char>>)
    ensures
        tool_named(tool_put(table, name, tool), name) == Some(tool),
{
    let set = tool_put(table, name, tool);
    lemma_place(table, name, 0);
    lemma_place(set, name, 0);
    match place_from(table, name, 0) {
        Some(i) => {
            assert(set[i].0 == name);
        },
        None => {
            assert(set[table.len() as int].0 == name);
        },
    }
}

/// What converting a request leaves behind for converting the response: the declared tools.
#[derive(Debug)]
pub struct State {
    tools: Vec<(String, DeclaredTool)>,
}

impl View for State {
    type V = Table;

    closed spec fn view(&self) -> Table {
        table_of(self.tools@)
    }
}

impl Default for State {
    fn default() -> (r: State)
        ensures
            r@ == Seq::<(Seq<char>, DeclaredOf<Seq<char>>)>::empty(),
    {
        let r = State { tools: Vec::new() };
        assert(r@ == Seq::<(Seq<char>, DeclaredOf<Seq<char>>)>::empty());
        r
    }
}

impl State {
    #[verifier::type_invariant]
    spec fn inv(self) -> bool {
        names_distinct(table_of(self.tools@))
    }

    /// The number of tools.
    pub fn len(&self) -> (r: usize)
        ensures
            r == self@.len(),
            names_distinct(self@),
    {
        proof {
            use_type_invariant(self);
        }
        self.tools.len()
    }

    /// The upstream name of a tool.
    pub fn name(&self, i: usize) -> (r: &str)
        requires
            i < self@.len(),
        ensures
            r@ == self@[i as int].0,
    {
        self.tools[i].0.as_str()
    }

    /// A tool.
    pub fn tool(&self, i: usize) -> (r: &DeclaredTool)
        requires
            i < self@.len(),
        ensures
            r@ == self@[i as int].1,
    {
        &self.tools[i].1
    }

    fn place(&self, name: &str) -> (r: Option<usize>)
        ensures
            match r {
                Some(i) => place_from(self@, name@, 0) == Some(i as int) && i < self@.len(),
                None => place_from(self@, name@, 0) is None,
            },
    {
        let mut i: usize = 0;
        while i < self.tools.len()
            invariant
                i <= self@.len(),
                self@.len() == self.tools@.len(),
                place_from(self@, name@, 0) == place_from(self@, name@, i as int),
            decreases self.tools.len() - i,
        {
            if same(self.name(i), name) {
                return Some(i);
            }
            i = i + 1;
        }
        None
    }

    /// The tool of an upstream name.
    pub fn get(&self, name: &str) -> (r: Option<&DeclaredTool>)
        ensures
            match r {
                Some(tool) => tool_named(self@, name@) == Some(tool@),
                None => tool_named(self@, name@) is None,
            },
    {
        match self.place(name) {
            Some(i) => Some(self.tool(i)),
            None => None,
        }
    }

    /// Declares a tool under an upstream name.
    pub fn insert(&mut self, name: String, tool: DeclaredTool)
        ensures
            final(self)@ == tool_put(old(self)@, name@, tool@),
    {
        proof {
            use_type_invariant(&*self);
            lemma_tool_put_distinct(self@, name@, tool@);
        }
        let at = self.place(name.as_str());
        let ghost before = self@;
        let mut tools: Vec<(String, DeclaredTool)> = Vec::new();
        std::mem::swap(&mut tools, &mut self.tools);
        match at {
            Some(i) => {
                tools.set(i, (name, tool));
            },
            None => {
                tools.push((name, tool));
            },
        }
        assert(table_of(tools@) == tool_put(before, name@, tool@));
        self.tools = tools;
    }
}

} // verus!
