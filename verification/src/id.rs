//! The shared monotonic request-identifier counter.
//!
//! Every handle cloned from one transport draws identifiers from one counter,
//! so no two calls ever observe the same value until the counter wraps at the
//! integer's maximum (wrapping is deliberate and not separately guarded).

use vstd::prelude::*;

verus! {

/// A monotonic counter that hands out request identifiers starting at 1.
///
/// `issued` is the ghost history of every identifier handed out so far, in
/// the order they were handed out.
pub struct IdCounter {
    next: u64,
    issued: Ghost<Seq<u64>>,
}

impl IdCounter {
    /// The history of identifiers handed out so far.
    pub closed spec fn issued(self) -> Seq<u64> {
        self.issued@
    }

    /// The value the next call of `next_id` will return.
    pub closed spec fn next(self) -> u64 {
        self.next
    }

    /// A counter that has not wrapped: it has handed out exactly
    /// 1, 2, ..., n in that order and will hand out n + 1 next.
    pub open spec fn wf(self) -> bool {
        &&& 1 <= self.next()
        &&& self.issued().len() == self.next() - 1
        &&& forall|i: int|
            0 <= i < self.issued().len() ==> self.issued()[i] == i + 1
    }

    /// A fresh counter: nothing handed out, first identifier will be 1.
    pub fn new() -> (c: IdCounter)
        ensures
            c.wf(),
            c.next() == 1,
            c.issued() == Seq::<u64>::empty(),
    {
        IdCounter { next: 1, issued: Ghost(Seq::empty()) }
    }

    /// Hands out the next identifier.
    ///
    /// Returns the current value and steps the counter, wrapping only at the
    /// integer's maximum. While the counter has not wrapped, the handed-out
    /// history stays exactly 1, 2, ..., n.
    pub fn next_id(&mut self) -> (id: u64)
        ensures
            id == old(self).next(),
            final(self).issued() == old(self).issued().push(id),
            old(self).next() < u64::MAX ==> final(self).next() == old(self).next() + 1,
            old(self).next() == u64::MAX ==> final(self).next() == 0,
            old(self).wf() && old(self).next() < u64::MAX ==> final(self).wf(),
    {
        let id = self.next;
        self.next = self.next.wrapping_add(1);
        proof {
            self.issued@ = self.issued@.push(id);
        }
        id
    }
}

/// Monotonic unique identifiers: however many times the counter was stepped,
/// as long as it has not wrapped, the handed-out identifiers are exactly the
/// values 1 through n, each occurring once — no two calls ever returned the
/// same value, and a value is in the history exactly when it lies in 1..=n.
pub proof fn lemma_issued_ids_unique(c: IdCounter)
    requires
        c.wf(),
    ensures
        forall|i: int, j: int|
            0 <= i < j < c.issued().len() ==> c.issued()[i] != c.issued()[j],
        forall|v: u64|
            c.issued().contains(v) <==> 1 <= v <= c.issued().len(),
{
    assert forall|v: u64| c.issued().contains(v) implies 1 <= v <= c.issued().len() by {
        let i = choose|i: int| 0 <= i < c.issued().len() && c.issued()[i] == v;
        assert(c.issued()[i] == i + 1);
    }
    assert forall|v: u64| 1 <= v <= c.issued().len() implies c.issued().contains(v) by {
        assert(c.issued()[v - 1] == v);
    }
}

} // verus!
