use vstd::prelude::*;

verus! {

/// Bookkeeping of how many body snapshots an integration run has sent,
/// against the optional limit (`chunk`) the run was started with.
pub struct SnapshotBudget {
    sent: usize,
    limit: usize,
}

impl SnapshotBudget {
    /// Never more snapshots sent than allowed.
    #[verifier::type_invariant]
    spec fn within_limit(&self) -> bool {
        self.sent <= self.limit
    }

    /// Snapshots sent so far.
    pub closed spec fn sent_spec(&self) -> nat {
        self.sent as nat
    }

    /// Most snapshots the run may send.
    pub closed spec fn limit_spec(&self) -> nat {
        self.limit as nat
    }

    /// A fresh budget: nothing sent; without a chunk size there is no limit
    /// beyond the largest `usize`.
    pub fn new(chunk: Option<usize>) -> (b: Self)
        ensures
            b.sent_spec() == 0,
            b.limit_spec() == (match chunk {
                Some(c) => c as nat,
                None => usize::MAX as nat,
            }),
    {
        let limit = match chunk {
            Some(c) => c,
            None => usize::MAX,
        };
        SnapshotBudget { sent: 0, limit }
    }

    /// Whether the run may go on: fewer snapshots sent than the limit.
    pub fn has_room(&self) -> (r: bool)
        ensures
            r == (self.sent_spec() < self.limit_spec()),
            self.sent_spec() <= self.limit_spec(),
    {
        proof {
            use_type_invariant(self);
        }
        self.sent < self.limit
    }

    /// Accounts for one iteration, which sent a snapshot when `send` holds.
    pub fn note(&mut self, send: bool)
        requires
            old(self).sent_spec() < old(self).limit_spec(),
        ensures
            final(self).limit_spec() == old(self).limit_spec(),
            final(self).sent_spec() == old(self).sent_spec() + (if send { 1nat } else { 0nat }),
            final(self).sent_spec() <= final(self).limit_spec(),
    {
        if send {
            self.sent = self.sent + 1;
        }
    }

    /// Snapshots sent so far.
    pub fn sent(&self) -> (n: usize)
        ensures
            n == self.sent_spec(),
    {
        self.sent
    }
}

} // verus!
