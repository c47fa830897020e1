//! The execution graph of a session, and the calls that build and flush it.

use crate::error::{ErrorKind, FlushError};
use crate::ids::IdAllocator;
use crate::operation::{node_views, texts, NodeView, OpNode, OperationType};
use crate::response::{decode_response, response_text, Framing};
use crate::tokens::{lemma_split_spaces_tokens, split_on_spaces, split_spaces};
use crate::wire::{all_encodable, encode_message, message_text};
use vstd::prelude::*;

verus! {

/// A call on the builder, as a mathematical value.
pub enum Call {
    Read(Seq<char>),
    Select(Seq<char>),
    Where(Seq<char>),
    Sum(Seq<char>),
    Count,
    Fetch,
}

impl Call {
    /// The kind of the node that the call appends.
    pub open spec fn kind(self) -> OperationType {
        match self {
            Call::Read(_) => OperationType::Read,
            Call::Select(_) => OperationType::Select,
            Call::Where(_) => OperationType::Where,
            Call::Sum(_) => OperationType::Sum,
            Call::Count => OperationType::Count,
            Call::Fetch => OperationType::Fetch,
        }
    }

    /// The arguments of the node that the call appends.
    pub open spec fn args(self) -> Seq<Seq<char>> {
        match self {
            Call::Read(source) => seq![source],
            Call::Select(columns) => split_spaces(columns),
            Call::Where(condition) => split_spaces(condition),
            Call::Sum(column) => seq![column],
            Call::Count => Seq::empty(),
            Call::Fetch => Seq::empty(),
        }
    }

    /// A read names its source: the source is not empty.
    pub open spec fn admissible(self) -> bool {
        self matches Call::Read(source) ==> source.len() > 0
    }
}

/// The mathematical value of a session's graph.
pub struct GraphView {
    /// The buffered nodes, oldest first.
    pub operations: Seq<NodeView>,
    /// The identifier of the node that triggered the last completed flush, or 0.
    pub checkpoint: nat,
    /// The identifier issued most recently, or 0.
    pub last_id: nat,
}

impl GraphView {
    /// The graph of a new session: the placeholder alone.
    pub open spec fn initial() -> GraphView {
        GraphView { operations: seq![NodeView::placeholder()], checkpoint: 0, last_id: 0 }
    }

    /// Every buffered node is the placeholder or was issued after the
    /// checkpoint; identifiers rise strictly along the buffer; and each node's
    /// arguments fit its kind.
    pub open spec fn well_formed(self) -> bool {
        &&& self.checkpoint <= self.last_id
        &&& forall|i: int|
            0 <= i < self.operations.len() ==> {
                let node = #[trigger] self.operations[i];
                &&& node.well_formed()
                &&& node == NodeView::placeholder() || self.checkpoint < node.id <= self.last_id
            }
        &&& forall|i: int, j: int|
            0 <= i < j < self.operations.len() ==> (#[trigger] self.operations[i]).id < (
            #[trigger] self.operations[j]).id
    }

    /// Whether another identifier can be issued.
    pub open spec fn can_grow(self) -> bool {
        self.last_id < usize::MAX
    }

    /// The graph with one more node, under the next identifier.
    pub open spec fn appended(self, kind: OperationType, args: Seq<Seq<char>>) -> GraphView {
        GraphView {
            operations: self.operations.push(
                NodeView { id: self.last_id + 1, kind: kind, args: args },
            ),
            checkpoint: self.checkpoint,
            last_id: self.last_id + 1,
        }
    }

    /// The graph after `call`, before any flush that the call asks for.
    pub open spec fn after(self, call: Call) -> GraphView {
        self.appended(call.kind(), call.args())
    }

    /// Every argument in the graph has a JSON string, so that the graph has a
    /// message.
    pub open spec fn encodable(self) -> bool {
        all_encodable(self.operations)
    }

    /// The message that carries the graph as it stands.
    pub open spec fn message(self) -> Seq<char>
        recommends
            self.encodable(),
    {
        message_text(self.operations, self.checkpoint)
    }

    /// An action's node is the newest in the buffer: its flush is not completed.
    pub open spec fn flush_pending(self) -> bool {
        self.operations.len() > 0 && self.operations.last().kind.spec_is_eager()
    }

    /// The graph after its flush has completed: nothing is buffered, and the
    /// checkpoint is the identifier of the newest node.
    pub open spec fn flushed(self) -> GraphView
        recommends
            self.operations.len() > 0,
    {
        GraphView {
            operations: Seq::empty(),
            checkpoint: self.operations.last().id,
            last_id: self.last_id,
        }
    }
}

/// What came of carrying a message to the executor.
#[derive(Debug, PartialEq, Eq)]
pub enum Exchange {
    /// The bytes that the executor answered with.
    Response(Vec<u8>),
    /// The executor could not be reached, or the message could not be written.
    ConnectionFailed,
    /// No response arrived within the bounded wait.
    TimedOut,
}

/// A session with the executor: the graph that its calls build, and the
/// allocator of its node identifiers.
pub struct Dataframe {
    operations: Vec<OpNode>,
    checkpoint: usize,
    ids: IdAllocator,
}

impl View for Dataframe {
    type V = GraphView;

    closed spec fn view(&self) -> GraphView {
        GraphView {
            operations: node_views(self.operations@),
            checkpoint: self.checkpoint as nat,
            last_id: self.ids.last(),
        }
    }
}

impl Dataframe {
    /// The session's invariant.
    pub closed spec fn wf(&self) -> bool {
        &&& self.ids.wf()
        &&& self@.well_formed()
    }

    /// Every identifier that the session has issued, oldest first.
    pub closed spec fn issued(&self) -> Seq<nat> {
        self.ids.issued()
    }

    /// The identifiers that the session has issued rise strictly from 1 up to
    /// the latest: none is issued twice, and each is greater than all before.
    pub proof fn lemma_identifiers_rise(&self, i: int, j: int)
        requires
            self.wf(),
            0 <= i < j < self.issued().len(),
        ensures
            1 <= self.issued()[i] < self.issued()[j] <= self@.last_id,
    {
        self.ids.lemma_issued_strictly_increasing(i, j);
    }

    /// The graph of a session in good order is well-formed, and the session
    /// has issued as many identifiers as its latest one says.
    pub proof fn lemma_view_well_formed(&self)
        requires
            self.wf(),
        ensures
            self@.well_formed(),
            self.issued().len() == self@.last_id,
    {
        self.ids.lemma_issued_count();
    }

    /// A new session. Its graph holds the placeholder alone.
    pub fn new() -> (df: Dataframe)
        ensures
            df.wf(),
            df@ == GraphView::initial(),
            df.issued() == Seq::<nat>::empty(),
    {
        let args: Vec<String> = Vec::new();
        assert(texts(args@) == Seq::<Seq<char>>::empty());
        let placeholder = OpNode { id: 0, function_name: OperationType::Empty, args: args };
        let mut operations: Vec<OpNode> = Vec::new();
        operations.push(placeholder);
        assert(node_views(operations@) == seq![NodeView::placeholder()]);
        Dataframe { operations: operations, checkpoint: 0, ids: IdAllocator::new() }
    }

    /// The buffered nodes, oldest first.
    pub fn operations(&self) -> (nodes: &Vec<OpNode>)
        ensures
            node_views(nodes@) == self@.operations,
    {
        &self.operations
    }

    /// The identifier of the node that triggered the last completed flush, or 0.
    pub fn checkpoint(&self) -> (id: usize)
        ensures
            id == self@.checkpoint,
    {
        self.checkpoint
    }

    /// The identifier issued most recently, or 0.
    pub fn last_id(&self) -> (id: usize)
        ensures
            id == self@.last_id,
    {
        self.ids.latest()
    }

    /// Whether the newest buffered node is an action's, whose flush is then
    /// not completed.
    pub fn flush_pending(&self) -> (pending: bool)
        ensures
            pending == self@.flush_pending(),
    {
        let n = self.operations.len();
        n > 0 && self.operations[n - 1].function_name.is_eager()
    }

    fn push_node(&mut self, kind: OperationType, args: Vec<String>)
        requires
            old(self).wf(),
            old(self)@.can_grow(),
            (NodeView { id: old(self)@.last_id + 1, kind: kind, args: texts(args@) }).well_formed(),
        ensures
            final(self).wf(),
            final(self)@ == old(self)@.appended(kind, texts(args@)),
            final(self).issued() == old(self).issued().push(final(self)@.last_id),
    {
        let id = self.ids.next_id();
        let node = OpNode { id: id, function_name: kind, args: args };
        assert(node_views(self.operations@.push(node)) == node_views(self.operations@).push(
            node@,
        ));
        self.operations.push(node);
    }

    /// Buffers a read of `filename`. Nothing is handed out for transmission.
    pub fn read(&mut self, filename: String) -> (r: &mut Self)
        requires
            old(self).wf(),
            old(self)@.can_grow(),
            filename@.len() > 0,
        ensures
            r.wf(),
            r@ == old(self)@.after(Call::Read(filename@)),
            r.issued() == old(self).issued().push(r@.last_id),
            *final(self) == *final(r),
    {
        let mut args: Vec<String> = Vec::new();
        args.push(filename);
        assert(texts(args@) == seq![filename@]);
        self.push_node(OperationType::Read, args);
        self
    }

    /// Buffers a selection of the columns that `arg` lists, separated by
    /// spaces. Nothing is handed out for transmission.
    pub fn select(&mut self, arg: String) -> (r: &mut Self)
        requires
            old(self).wf(),
            old(self)@.can_grow(),
        ensures
            r.wf(),
            r@ == old(self)@.after(Call::Select(arg@)),
            r.issued() == old(self).issued().push(r@.last_id),
            *final(self) == *final(r),
    {
        let args = split_on_spaces(arg.as_str());
        proof {
            lemma_split_spaces_tokens(arg@);
        }
        self.push_node(OperationType::Select, args);
        self
    }

    /// Buffers a filter on `condition`, which is split at its spaces and not
    /// parsed any further. Nothing is handed out for transmission.
    pub fn where_(&mut self, condition: String) -> (r: &mut Self)
        requires
            old(self).wf(),
            old(self)@.can_grow(),
        ensures
            r.wf(),
            r@ == old(self)@.after(Call::Where(condition@)),
            r.issued() == old(self).issued().push(r@.last_id),
            *final(self) == *final(r),
    {
        let args = split_on_spaces(condition.as_str());
        proof {
            lemma_split_spaces_tokens(condition@);
        }
        self.push_node(OperationType::Where, args);
        self
    }

    /// Encodes the graph as it stands: the message to transmit in order to
    /// flush it. Encoding fails exactly where an argument has no JSON string;
    /// the error then names the newest node's operation.
    pub fn wire_message(&self) -> (r: Result<String, FlushError>)
        ensures
            r is Ok <==> self@.encodable(),
            r matches Ok(message) ==> message@ == self@.message(),
            r matches Err(e) ==> self@.operations.len() > 0 && e == (FlushError {
                kind: ErrorKind::Serialization,
                operation: self@.operations.last().kind,
            }),
    {
        match encode_message(&self.operations, self.checkpoint) {
            Ok(message) => Ok(message),
            Err(kind) => {
                let n = self.operations.len();
                Err(FlushError { kind: kind, operation: self.operations[n - 1].function_name })
            },
        }
    }

    /// Appends an action's node and encodes the graph for transmission.
    fn begin_flush(&mut self, kind: OperationType, args: Vec<String>) -> (r: Result<
        String,
        FlushError,
    >)
        requires
            old(self).wf(),
            old(self)@.can_grow(),
            kind.spec_is_eager(),
            (NodeView { id: old(self)@.last_id + 1, kind: kind, args: texts(args@) }).well_formed(),
        ensures
            final(self).wf(),
            final(self)@ == old(self)@.appended(kind, texts(args@)),
            final(self).issued() == old(self).issued().push(final(self)@.last_id),
            r is Ok <==> final(self)@.encodable(),
            r matches Ok(message) ==> message@ == final(self)@.message(),
            r matches Err(e) ==> e == (FlushError {
                kind: ErrorKind::Serialization,
                operation: kind,
            }),
    {
        self.push_node(kind, args);
        self.wire_message()
    }

    /// Appends a sum over `column` and hands out the whole graph for
    /// transmission. The flush is completed by `finish_flush`.
    pub fn sum(&mut self, column: String) -> (r: Result<String, FlushError>)
        requires
            old(self).wf(),
            old(self)@.can_grow(),
        ensures
            final(self).wf(),
            final(self)@ == old(self)@.after(Call::Sum(column@)),
            final(self).issued() == old(self).issued().push(final(self)@.last_id),
            r is Ok <==> final(self)@.encodable(),
            r matches Ok(message) ==> message@ == final(self)@.message(),
            r matches Err(e) ==> e == (FlushError {
                kind: ErrorKind::Serialization,
                operation: OperationType::Sum,
            }),
    {
        let mut args: Vec<String> = Vec::new();
        args.push(column);
        assert(texts(args@) == seq![column@]);
        self.begin_flush(OperationType::Sum, args)
    }

    /// Appends a row count and hands out the whole graph for transmission.
    /// The flush is completed by `finish_flush`.
    pub fn count(&mut self) -> (r: Result<String, FlushError>)
        requires
            old(self).wf(),
            old(self)@.can_grow(),
        ensures
            final(self).wf(),
            final(self)@ == old(self)@.after(Call::Count),
            final(self).issued() == old(self).issued().push(final(self)@.last_id),
            r is Ok <==> final(self)@.encodable(),
            r matches Ok(message) ==> message@ == final(self)@.message(),
            r matches Err(e) ==> e == (FlushError {
                kind: ErrorKind::Serialization,
                operation: OperationType::Count,
            }),
    {
        let args: Vec<String> = Vec::new();
        assert(texts(args@) == Seq::<Seq<char>>::empty());
        self.begin_flush(OperationType::Count, args)
    }

    /// Appends a fetch and hands out the whole graph for transmission. The
    /// flush is completed by `finish_flush`.
    pub fn fetch(&mut self) -> (r: Result<String, FlushError>)
        requires
            old(self).wf(),
            old(self)@.can_grow(),
        ensures
            final(self).wf(),
            final(self)@ == old(self)@.after(Call::Fetch),
            final(self).issued() == old(self).issued().push(final(self)@.last_id),
            r is Ok <==> final(self)@.encodable(),
            r matches Ok(message) ==> message@ == final(self)@.message(),
            r matches Err(e) ==> e == (FlushError {
                kind: ErrorKind::Serialization,
                operation: OperationType::Fetch,
            }),
    {
        let args: Vec<String> = Vec::new();
        assert(texts(args@) == Seq::<Seq<char>>::empty());
        self.begin_flush(OperationType::Fetch, args)
    }

    /// Completes the pending flush with what came of the exchange. An
    /// acceptable response clears the whole buffer, moves the checkpoint to
    /// the node that triggered the flush, and is returned as text. The
    /// transformations buffered before the action go with it: a later action
    /// sends only what has been buffered since. Any failure leaves the graph
    /// and the checkpoint as they were, so that the message can be sent again.
    pub fn finish_flush(&mut self, exchange: Exchange, framing: Framing) -> (r: Result<
        String,
        FlushError,
    >)
        requires
            old(self).wf(),
            old(self)@.flush_pending(),
        ensures
            final(self).wf(),
            final(self).issued() == old(self).issued(),
            r matches Ok(text) ==> {
                &&& exchange matches Exchange::Response(payload)
                &&& response_text(payload@, framing) == Some(text@)
                &&& final(self)@ == old(self)@.flushed()
                &&& final(self)@.operations.len() == 0
                &&& final(self)@.checkpoint == old(self)@.operations.last().id
            },
            r matches Err(e) ==> {
                &&& final(self)@ == old(self)@
                &&& e.operation == old(self)@.operations.last().kind
                &&& e.kind == match exchange {
                    Exchange::Response(_) => ErrorKind::Protocol,
                    Exchange::ConnectionFailed => ErrorKind::Connection,
                    Exchange::TimedOut => ErrorKind::ResponseTimeout,
                }
            },
            r is Ok <==> (exchange matches Exchange::Response(payload) && response_text(
                payload@,
                framing,
            ) is Some),
    {
        let n = self.operations.len();
        let id = self.operations[n - 1].id;
        let operation = self.operations[n - 1].function_name;
        match exchange {
            Exchange::Response(payload) => match decode_response(payload.as_slice(), framing) {
                Ok(text) => {
                    self.operations.clear();
                    self.checkpoint = id;
                    assert(node_views(self.operations@) == Seq::<NodeView>::empty());
                    Ok(text)
                },
                Err(kind) => Err(FlushError { kind: kind, operation: operation }),
            },
            Exchange::ConnectionFailed => Err(
                FlushError { kind: ErrorKind::Connection, operation: operation },
            ),
            Exchange::TimedOut => Err(
                FlushError { kind: ErrorKind::ResponseTimeout, operation: operation },
            ),
        }
    }
}

} // verus!
