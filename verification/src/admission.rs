//! Admission control: the bounded budget of concurrent conversion tasks.
//!
//! One [`AdmissionTokens`] pool is shared by a run.  A task is started only
//! after `try_acquire` hands out a token, and its token is released on every
//! exit path, success or failure.  The pool's invariant — never more tokens
//! out than the configured limit — is the batch's concurrency ceiling.

use vstd::prelude::*;

verus! {

/// A fixed-size pool of admission tokens.
pub struct AdmissionTokens {
    limit: usize,
    active: usize,
}

impl AdmissionTokens {
    /// The configured ceiling on concurrently admitted tasks.
    pub closed spec fn capacity(&self) -> nat {
        self.limit as nat
    }

    /// How many tokens are currently held by running tasks.
    pub closed spec fn active(&self) -> nat {
        self.active as nat
    }

    /// The budget invariant: never more tokens out than the ceiling.
    pub open spec fn wf(&self) -> bool {
        self.active() <= self.capacity()
    }

    /// A fresh pool of `limit` tokens, none handed out.
    pub fn new(limit: usize) -> (t: AdmissionTokens)
        ensures
            t.capacity() == limit,
            t.active() == 0,
            t.wf(),
    {
        AdmissionTokens { limit, active: 0 }
    }

    /// Hand out one token if the budget allows it.  Succeeds exactly when a
    /// slot is free; on success one more token is out, otherwise nothing
    /// changes.  The invariant is preserved either way.
    pub fn try_acquire(&mut self) -> (ok: bool)
        ensures
            old(self).wf() ==> final(self).wf(),
            final(self).capacity() == old(self).capacity(),
            ok == (old(self).active() < old(self).capacity()),
            ok ==> final(self).active() == old(self).active() + 1,
            !ok ==> final(self).active() == old(self).active(),
    {
        if self.active < self.limit {
            self.active = self.active + 1;
            true
        } else {
            false
        }
    }

    /// Give one token back when a task finishes, however it finished.
    pub fn release(&mut self)
        requires
            old(self).active() > 0,
        ensures
            old(self).wf() ==> final(self).wf(),
            final(self).capacity() == old(self).capacity(),
            final(self).active() == old(self).active() - 1,
    {
        self.active = self.active - 1;
    }

    /// How many tokens are currently out.
    pub fn active_count(&self) -> (n: usize)
        ensures
            n == self.active(),
    {
        self.active
    }
}

/// Bounded concurrency: in every well-formed pool state — and `new`,
/// `try_acquire` and `release` only ever produce well-formed states — the
/// number of tokens out, and with it the number of running conversion tasks,
/// is at most the configured limit.
pub proof fn lemma_bounded_concurrency(t: AdmissionTokens)
    requires
        t.wf(),
    ensures
        t.active() <= t.capacity(),
{
}

} // verus!
