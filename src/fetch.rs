//! Bookkeeping of background fetches. Every submission gets a fresh ticket and
//! supersedes the one before it, of either kind: only the outcome whose ticket
//! is the latest one is accepted, whatever order the outcomes arrive in.

use vstd::prelude::*;

verus! {

/// The background operation whose outcome is awaited, with its ticket.
#[derive(Clone, Copy, Debug, PartialEq, Eq, Structural)]
pub enum PendingFetch {
    NoFetch,
    Search(u64),
    Info(u64),
}

#[derive(Clone, Copy, Debug, PartialEq, Eq, Structural)]
pub struct FetchCoordinator {
    pub pending: PendingFetch,
    pub next_ticket: u64,
}

/// The ticket that follows `t`, wrapping around at the largest value.
pub open spec fn following(t: u64) -> u64 {
    if t < u64::MAX {
        (t + 1) as u64
    } else {
        0
    }
}

impl FetchCoordinator {
    pub fn new() -> (r: FetchCoordinator)
        ensures
            r.pending == PendingFetch::NoFetch,
            r.next_ticket == 0,
    {
        FetchCoordinator { pending: PendingFetch::NoFetch, next_ticket: 0 }
    }

    /// The state after a submission, and the ticket that the submission got.
    pub open spec fn submitted(self, search: bool) -> (FetchCoordinator, u64) {
        let t = self.next_ticket;
        (
            FetchCoordinator {
                pending: if search {
                    PendingFetch::Search(t)
                } else {
                    PendingFetch::Info(t)
                },
                next_ticket: following(t),
            },
            t,
        )
    }

    fn take_ticket(&mut self) -> (t: u64)
        ensures
            t == old(self).next_ticket,
            final(self).next_ticket == following(t),
            final(self).pending == old(self).pending,
    {
        let t = self.next_ticket;
        self.next_ticket = if t < u64::MAX {
            t + 1
        } else {
            0
        };
        t
    }

    /// Starts awaiting a search; the ticket travels with the request.
    pub fn submit_search(&mut self) -> (t: u64)
        ensures
            (*final(self), t) == old(self).submitted(true),
    {
        let t = self.take_ticket();
        self.pending = PendingFetch::Search(t);
        t
    }

    /// Starts awaiting a video-info fetch; the ticket travels with the request.
    pub fn submit_info(&mut self) -> (t: u64)
        ensures
            (*final(self), t) == old(self).submitted(false),
    {
        let t = self.take_ticket();
        self.pending = PendingFetch::Info(t);
        t
    }

    /// Whether the outcome of the search with this ticket is the awaited one;
    /// if so, nothing is awaited any more.
    pub fn accept_search(&mut self, ticket: u64) -> (r: bool)
        ensures
            r == (old(self).pending == PendingFetch::Search(ticket)),
            r ==> final(self).pending == PendingFetch::NoFetch && final(self).next_ticket
                == old(self).next_ticket,
            !r ==> *final(self) == *old(self),
    {
        let r = match self.pending {
            PendingFetch::Search(t) => t == ticket,
            _ => false,
        };
        if r {
            self.pending = PendingFetch::NoFetch;
        }
        r
    }

    /// Whether the outcome of the info fetch with this ticket is the awaited one;
    /// if so, nothing is awaited any more.
    pub fn accept_info(&mut self, ticket: u64) -> (r: bool)
        ensures
            r == (old(self).pending == PendingFetch::Info(ticket)),
            r ==> final(self).pending == PendingFetch::NoFetch && final(self).next_ticket
                == old(self).next_ticket,
            !r ==> *final(self) == *old(self),
    {
        let r = match self.pending {
            PendingFetch::Info(t) => t == ticket,
            _ => false,
        };
        if r {
            self.pending = PendingFetch::NoFetch;
        }
        r
    }
}

/// Of two submissions in a row, only the later one's outcome is accepted: the
/// earlier ticket is superseded whichever kind either submission was.
pub proof fn lemma_last_submission_wins(f: FetchCoordinator, first: bool, second: bool)
    requires
        f.next_ticket < u64::MAX,
    ensures
        ({
            let (g, t1) = f.submitted(first);
            let (h, t2) = g.submitted(second);
            &&& t1 != t2
            &&& h.pending != PendingFetch::Search(t1)
            &&& h.pending != PendingFetch::Info(t1)
            &&& h.pending == (if second {
                PendingFetch::Search(t2)
            } else {
                PendingFetch::Info(t2)
            })
        }),
{
}

} // verus!
