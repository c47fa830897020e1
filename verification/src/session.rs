//! Whole sessions: what a sequence of calls leaves in the graph and hands out
//! for transmission, where the executor answers every message before the next
//! call is made.

use crate::graph::{Call, GraphView};
use crate::operation::NodeView;
use crate::tokens::lemma_split_spaces_tokens;
use crate::wire::{encodable, message_text};
use vstd::prelude::*;

verus! {

/// Every call only buffers.
pub open spec fn all_lazy(calls: Seq<Call>) -> bool {
    forall|i: int| 0 <= i < calls.len() ==> (#[trigger] calls[i]).kind().spec_is_lazy()
}

/// Every read among the calls names its source.
pub open spec fn all_admissible(calls: Seq<Call>) -> bool {
    forall|i: int| 0 <= i < calls.len() ==> (#[trigger] calls[i]).admissible()
}

impl GraphView {
    /// The node that `call` appends when it is the `k`-th call after this state,
    /// counting from 0.
    pub open spec fn node_of(self, call: Call, k: int) -> NodeView {
        NodeView { id: (self.last_id + 1 + k) as nat, kind: call.kind(), args: call.args() }
    }

    /// Whether `call` hands out a message: it is an action, and the graph
    /// with its node can be encoded.
    pub open spec fn transmits(self, call: Call) -> bool {
        call.kind().spec_is_eager() && self.after(call).encodable()
    }

    /// The graph after `call` and, if the call hands out a message, after the
    /// flush that the message starts.
    pub open spec fn step(self, call: Call) -> GraphView {
        if self.transmits(call) {
            self.after(call).flushed()
        } else {
            self.after(call)
        }
    }

    /// The messages that `call` hands out for transmission: the whole graph
    /// for an action, nothing for a buffered call.
    pub open spec fn handed_out(self, call: Call) -> Seq<Seq<char>> {
        if self.transmits(call) {
            seq![self.after(call).message()]
        } else {
            Seq::empty()
        }
    }

    /// The graph after all of `calls`.
    pub open spec fn run(self, calls: Seq<Call>) -> GraphView
        decreases calls.len(),
    {
        if calls.len() == 0 {
            self
        } else {
            self.run(calls.drop_last()).step(calls.last())
        }
    }

    /// The messages handed out in the course of `calls`, oldest first.
    pub open spec fn transmissions(self, calls: Seq<Call>) -> Seq<Seq<char>>
        decreases calls.len(),
    {
        if calls.len() == 0 {
            Seq::empty()
        } else {
            self.transmissions(calls.drop_last()) + self.run(calls.drop_last()).handed_out(
                calls.last(),
            )
        }
    }
}

/// Buffered calls transmit nothing, however many there are. Each of them
/// appends its node behind what was buffered, under the next identifier, and
/// the checkpoint stays.
pub proof fn lemma_lazy_calls_transmit_nothing(g: GraphView, calls: Seq<Call>)
    requires
        all_lazy(calls),
    ensures
        g.transmissions(calls) == Seq::<Seq<char>>::empty(),
        g.run(calls).checkpoint == g.checkpoint,
        g.run(calls).last_id == g.last_id + calls.len(),
        g.run(calls).operations == g.operations + Seq::new(
            calls.len(),
            |k: int| g.node_of(calls[k], k),
        ),
    decreases calls.len(),
{
    if calls.len() > 0 {
        let earlier = calls.drop_last();
        lemma_lazy_calls_transmit_nothing(g, earlier);
    }
}

/// The first action after any number of buffered calls transmits exactly one
/// message, the one that carries everything buffered up to and including the
/// action's own node, provided that all of it can be encoded. Afterwards
/// nothing is buffered and the checkpoint is the identifier of the action's
/// node.
pub proof fn lemma_first_action_transmits_once(g: GraphView, lazy: Seq<Call>, action: Call)
    requires
        all_lazy(lazy),
        action.kind().spec_is_eager(),
        g.run(lazy).after(action).encodable(),
    ensures
        g.transmissions(lazy.push(action)) == seq![
            message_text(
                g.operations + Seq::new(lazy.len(), |k: int| g.node_of(lazy[k], k)) + seq![
                    g.node_of(action, lazy.len() as int),
                ],
                g.checkpoint,
            ),
        ],
        g.run(lazy.push(action)).operations == Seq::<NodeView>::empty(),
        g.run(lazy.push(action)).checkpoint == g.last_id + lazy.len() + 1,
{
    lemma_lazy_calls_transmit_nothing(g, lazy);
    let calls = lazy.push(action);
    assert(calls.drop_last() == lazy);
    let buffered = g.operations + Seq::new(lazy.len(), |k: int| g.node_of(lazy[k], k));
    assert(g.run(lazy).after(action).operations == buffered + seq![
        g.node_of(action, lazy.len() as int),
    ]);
}

/// An action on an empty buffer transmits a message with exactly one node,
/// its own. A count and a fetch always do; a sum does if its column can be
/// encoded.
pub proof fn lemma_action_on_empty_buffer(g: GraphView, action: Call)
    requires
        g.operations.len() == 0,
        action.kind().spec_is_eager(),
        encodable(action.args()),
    ensures
        g.after(action).operations == seq![g.node_of(action, 0)],
        g.handed_out(action) == seq![message_text(seq![g.node_of(action, 0)], g.checkpoint)],
        g.step(action).operations.len() == 0,
        g.step(action).checkpoint == g.last_id + 1,
{
}

/// A well-formed graph stays well-formed through every call and flush; each
/// call takes one identifier, and the checkpoint never moves back.
pub proof fn lemma_run_well_formed(g: GraphView, calls: Seq<Call>)
    requires
        g.well_formed(),
        all_admissible(calls),
    ensures
        g.run(calls).well_formed(),
        g.run(calls).last_id == g.last_id + calls.len(),
        g.checkpoint <= g.run(calls).checkpoint,
    decreases calls.len(),
{
    if calls.len() > 0 {
        let earlier = calls.drop_last();
        let call = calls.last();
        lemma_run_well_formed(g, earlier);
        match call {
            Call::Select(text) => lemma_split_spaces_tokens(text),
            Call::Where(text) => lemma_split_spaces_tokens(text),
            _ => {},
        }
    }
}

} // verus!
