//! The live count of communities the bot serves.
//!
//! Rebuilt from the connection's reported count on every ready event,
//! moved by join and leave events, and read only for status display. The
//! count never goes below zero: a leave at zero is ignored rather than
//! wrapped.

use vstd::prelude::*;

verus! {

/// The count after one confirmed community join.
pub open spec fn join_step(n: nat) -> nat {
    n + 1
}

/// The count after one community departure: a departure at zero is ignored.
pub open spec fn leave_step(n: nat) -> nat {
    if n > 0 {
        (n - 1) as nat
    } else {
        0
    }
}

/// The in-memory community counter.
pub struct CommunityTracker {
    count: usize,
}

impl View for CommunityTracker {
    type V = nat;

    closed spec fn view(&self) -> nat {
        self.count as nat
    }
}

impl CommunityTracker {
    /// Creates a tracker that has seen no connection yet.
    pub fn new() -> (r: Self)
        ensures
            r@ == 0,
    {
        CommunityTracker { count: 0 }
    }

    /// Rebuilds the count from what the connection reports on ready.
    pub fn connection_ready(&mut self, reported: usize)
        ensures
            final(self)@ == reported,
    {
        self.count = reported;
    }

    /// Counts one confirmed new community.
    pub fn community_joined(&mut self)
        requires
            old(self)@ < usize::MAX,
        ensures
            final(self)@ == join_step(old(self)@),
    {
        self.count = self.count + 1;
    }

    /// Counts one community departure; at zero the count stays zero.
    pub fn community_left(&mut self)
        ensures
            final(self)@ == leave_step(old(self)@),
    {
        if self.count > 0 {
            self.count = self.count - 1;
        }
    }

    /// The current count, for status display.
    pub fn count(&self) -> (r: usize)
        ensures
            r == self@,
    {
        self.count
    }
}

/// Two joins followed by one leave land the counter exactly one above
/// where it started, and no sequence of these steps can take it below
/// zero, since a leave at zero leaves it at zero.
pub proof fn lemma_join_join_leave(initial: nat)
    ensures
        leave_step(join_step(join_step(initial))) == initial + 1,
        leave_step(0) == 0,
{
}

} // verus!
