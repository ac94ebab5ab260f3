//! The dedup ledger: the set of message identifiers already promoted.
//!
//! Membership is monotonic. Once a message identifier is recorded it is
//! never removed, so a promoted message can never qualify again.

use vstd::prelude::*;

verus! {

/// The ledger of already-promoted message identifiers.
pub struct StarredMessages {
    ids: Vec<u64>,
}

impl View for StarredMessages {
    type V = Seq<u64>;

    closed spec fn view(&self) -> Seq<u64> {
        self.ids@
    }
}

impl StarredMessages {
    /// No identifier is recorded twice.
    pub open spec fn wf(self) -> bool {
        forall|i: int, j: int| 0 <= i < j < self@.len() ==> self@[i] != self@[j]
    }

    /// Creates an empty ledger.
    pub fn new() -> (r: Self)
        ensures
            r@ =~= Seq::<u64>::empty(),
            r.wf(),
    {
        StarredMessages { ids: Vec::new() }
    }

    /// Whether `msg_id` was already promoted.
    pub fn message_exists(&self, msg_id: u64) -> (r: bool)
        ensures
            r == self@.contains(msg_id),
    {
        let n = self.ids.len();
        for i in 0..n
            invariant
                n == self@.len(),
                forall|j: int| 0 <= j < i ==> self@[j] != msg_id,
        {
            if self.ids[i] == msg_id {
                return true;
            }
        }
        false
    }

    /// Records `msg_id` as promoted unless it already is, and reports
    /// whether the ledger grew. Existing entries are never removed, so
    /// membership only grows.
    pub fn insert_message(&mut self, msg_id: u64) -> (r: bool)
        requires
            old(self).wf(),
        ensures
            final(self).wf(),
            r == !old(self)@.contains(msg_id),
            final(self)@.contains(msg_id),
            r ==> final(self)@ == old(self)@.push(msg_id),
            !r ==> final(self)@ == old(self)@,
            forall|m: u64| old(self)@.contains(m) ==> final(self)@.contains(m),
    {
        if self.message_exists(msg_id) {
            false
        } else {
            self.ids.push(msg_id);
            proof {
                assert(self@.last() == msg_id);
                assert forall|m: u64| old(self)@.contains(m) implies self@.contains(m) by {
                    let i = choose|i: int| 0 <= i < old(self)@.len() && old(self)@[i] == m;
                    assert(self@[i] == m);
                }
            }
            true
        }
    }
}

} // verus!
