//! Allocation of node identifiers.

use vstd::prelude::*;

verus! {

/// Hands out node identifiers for one session: 1, 2, 3, and so on.
pub struct IdAllocator {
    last: usize,
    issued: Ghost<Seq<nat>>,
}

impl IdAllocator {
    /// The identifier issued most recently, or 0 if none has been issued.
    pub closed spec fn last(&self) -> nat {
        self.last as nat
    }

    /// Every identifier issued so far, oldest first.
    pub closed spec fn issued(&self) -> Seq<nat> {
        self.issued@
    }

    /// The identifiers issued so far are exactly 1 up to `last()`, in order.
    pub closed spec fn wf(&self) -> bool {
        &&& self.issued@.len() == self.last
        &&& forall|i: int| 0 <= i < self.issued@.len() ==> #[trigger] self.issued@[i] == i + 1
    }

    /// Whether another identifier can be issued.
    pub open spec fn has_next(&self) -> bool {
        self.last() < usize::MAX
    }

    /// An allocator that has issued nothing.
    pub fn new() -> (ids: IdAllocator)
        ensures
            ids.wf(),
            ids.last() == 0,
            ids.issued() == Seq::<nat>::empty(),
    {
        IdAllocator { last: 0, issued: Ghost(Seq::empty()) }
    }

    /// The identifier issued most recently, or 0 if none has been issued.
    pub fn latest(&self) -> (id: usize)
        ensures
            id == self.last(),
    {
        self.last
    }

    /// Issues the next identifier. It is one more than the last, and so greater
    /// than every identifier issued before it.
    pub fn next_id(&mut self) -> (id: usize)
        requires
            old(self).wf(),
            old(self).has_next(),
        ensures
            final(self).wf(),
            id == old(self).last() + 1,
            final(self).last() == id,
            final(self).issued() == old(self).issued().push(id as nat),
            forall|i: int| 0 <= i < old(self).issued().len() ==> old(self).issued()[i] < id,
    {
        self.last = self.last + 1;
        proof {
            self.issued@ = self.issued@.push(self.last as nat);
        }
        self.last
    }

    /// As many identifiers have been issued as the latest one says.
    pub proof fn lemma_issued_count(&self)
        requires
            self.wf(),
        ensures
            self.issued().len() == self.last(),
    {
    }

    /// No identifier is issued twice, and later ones are greater: the sequence
    /// of issued identifiers is strictly increasing and starts at 1.
    pub proof fn lemma_issued_strictly_increasing(&self, i: int, j: int)
        requires
            self.wf(),
            0 <= i < j < self.issued().len(),
        ensures
            1 <= self.issued()[i] < self.issued()[j] <= self.last(),
    {
    }
}

} // verus!
