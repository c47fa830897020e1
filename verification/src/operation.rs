//! Operation kinds and the nodes of an execution graph.

use vstd::prelude::*;

verus! {

/// The kind of an operation node.
#[derive(Clone, Copy, Debug, PartialEq, Eq, Structural)]
pub enum OperationType {
    /// Names the source to read; buffered only.
    Read,
    /// Keeps the listed columns; buffered only.
    Select,
    /// Keeps the rows that meet a condition; buffered only.
    Where,
    /// Sums one column; an action.
    Sum,
    /// Counts the rows; an action.
    Count,
    /// Fetches the materialized content; an action.
    Fetch,
    /// The placeholder that a new graph starts with.
    Empty,
}

impl OperationType {
    /// The spelling of the kind on the wire.
    pub open spec fn spec_name(self) -> Seq<char> {
        match self {
            OperationType::Read => "Read"@,
            OperationType::Select => "Select"@,
            OperationType::Where => "Where"@,
            OperationType::Sum => "Sum"@,
            OperationType::Count => "Count"@,
            OperationType::Fetch => "Fetch"@,
            OperationType::Empty => "Empty"@,
        }
    }

    /// The kind that is spelled `name` on the wire, if there is one.
    pub open spec fn spec_from_name(name: Seq<char>) -> Option<OperationType> {
        if name == "Read"@ {
            Some(OperationType::Read)
        } else if name == "Select"@ {
            Some(OperationType::Select)
        } else if name == "Where"@ {
            Some(OperationType::Where)
        } else if name == "Sum"@ {
            Some(OperationType::Sum)
        } else if name == "Count"@ {
            Some(OperationType::Count)
        } else if name == "Fetch"@ {
            Some(OperationType::Fetch)
        } else if name == "Empty"@ {
            Some(OperationType::Empty)
        } else {
            None
        }
    }

    /// An action: the call that appends such a node also flushes the graph.
    pub open spec fn spec_is_eager(&self) -> bool {
        *self == OperationType::Sum || *self == OperationType::Count || *self
            == OperationType::Fetch
    }

    /// A transformation: the call that appends such a node only buffers it.
    pub open spec fn spec_is_lazy(&self) -> bool {
        *self == OperationType::Read || *self == OperationType::Select || *self
            == OperationType::Where
    }

    /// The spelling of the kind on the wire.
    pub fn name(&self) -> (s: &'static str)
        ensures
            s@ == self.spec_name(),
    {
        match self {
            OperationType::Read => "Read",
            OperationType::Select => "Select",
            OperationType::Where => "Where",
            OperationType::Sum => "Sum",
            OperationType::Count => "Count",
            OperationType::Fetch => "Fetch",
            OperationType::Empty => "Empty",
        }
    }

    /// Reads a kind from its spelling on the wire. Any other text is no kind.
    pub fn from_name(name: &str) -> (kind: Option<OperationType>)
        ensures
            kind == Self::spec_from_name(name@),
    {
        let name = String::from_str(name);
        if name == String::from_str("Read") {
            Some(OperationType::Read)
        } else if name == String::from_str("Select") {
            Some(OperationType::Select)
        } else if name == String::from_str("Where") {
            Some(OperationType::Where)
        } else if name == String::from_str("Sum") {
            Some(OperationType::Sum)
        } else if name == String::from_str("Count") {
            Some(OperationType::Count)
        } else if name == String::from_str("Fetch") {
            Some(OperationType::Fetch)
        } else if name == String::from_str("Empty") {
            Some(OperationType::Empty)
        } else {
            None
        }
    }

    /// Whether the kind is an action.
    #[verifier::when_used_as_spec(spec_is_eager)]
    pub fn is_eager(&self) -> (b: bool)
        ensures
            b == self.spec_is_eager(),
    {
        match self {
            OperationType::Sum | OperationType::Count | OperationType::Fetch => true,
            _ => false,
        }
    }

    /// Whether the kind is a buffered transformation.
    #[verifier::when_used_as_spec(spec_is_lazy)]
    pub fn is_lazy(&self) -> (b: bool)
        ensures
            b == self.spec_is_lazy(),
    {
        match self {
            OperationType::Read | OperationType::Select | OperationType::Where => true,
            _ => false,
        }
    }
}

/// Writing a kind and reading it back gives the same kind, and a text is
/// read as a kind only if it is that kind's spelling.
pub proof fn lemma_name_round_trip(kind: OperationType, name: Seq<char>)
    ensures
        OperationType::spec_from_name(kind.spec_name()) == Some(kind),
        OperationType::spec_from_name(name) == Some(kind) ==> name == kind.spec_name(),
{
    match OperationType::spec_from_name(kind.spec_name()) {
        Some(read) => lemma_names_distinct(kind, read),
        None => {},
    }
}

/// No two kinds share a spelling: the kind of a node can be read off its name.
pub proof fn lemma_names_distinct(a: OperationType, b: OperationType)
    requires
        a.spec_name() == b.spec_name(),
    ensures
        a == b,
{
    reveal_strlit("Read");
    reveal_strlit("Select");
    reveal_strlit("Where");
    reveal_strlit("Sum");
    reveal_strlit("Count");
    reveal_strlit("Fetch");
    reveal_strlit("Empty");
    assert("Read"@.len() == 4 && "Select"@.len() == 6 && "Sum"@.len() == 3);
    assert("Where"@[0] == 'W' && "Count"@[0] == 'C' && "Fetch"@[0] == 'F' && "Empty"@[0] == 'E');
}

/// One node of an execution graph.
#[derive(Debug, PartialEq, Eq)]
pub struct OpNode {
    /// The node's identifier, unique within its session.
    pub id: usize,
    /// The node's kind.
    pub function_name: OperationType,
    /// The node's arguments, in order.
    pub args: Vec<String>,
}

/// The mathematical value of a node.
pub struct NodeView {
    /// The node's identifier.
    pub id: nat,
    /// The node's kind.
    pub kind: OperationType,
    /// The node's arguments, in order.
    pub args: Seq<Seq<char>>,
}

/// The character sequences of a list of strings.
pub open spec fn texts(strings: Seq<String>) -> Seq<Seq<char>> {
    strings.map_values(|s: String| s@)
}

/// The values of a list of nodes.
pub open spec fn node_views(nodes: Seq<OpNode>) -> Seq<NodeView> {
    nodes.map_values(|n: OpNode| n@)
}

impl View for OpNode {
    type V = NodeView;

    open spec fn view(&self) -> NodeView {
        NodeView { id: self.id as nat, kind: self.function_name, args: texts(self.args@) }
    }
}

impl NodeView {
    /// The placeholder node of a new graph.
    pub open spec fn placeholder() -> NodeView {
        NodeView { id: 0, kind: OperationType::Empty, args: Seq::empty() }
    }

    /// The arguments fit the kind: a source for a read, at least one token for
    /// a selection or a condition, one column for a sum, none otherwise.
    pub open spec fn well_formed(self) -> bool {
        match self.kind {
            OperationType::Read => self.args.len() == 1 && self.args[0].len() > 0,
            OperationType::Select | OperationType::Where => self.args.len() >= 1 && forall|
                i: int,
            |
                0 <= i < self.args.len() ==> !(#[trigger] self.args[i]).contains(' '),
            OperationType::Sum => self.args.len() == 1,
            OperationType::Count | OperationType::Fetch | OperationType::Empty => self.args.len()
                == 0,
        }
    }
}

} // verus!
