//! Counted join primitive: one token per listener worker, issued at spawn
//! time and released when the worker exits. The orchestrating thread's wait
//! may return exactly when no token is outstanding.

use vstd::prelude::*;

verus! {

/// Tracks how many listener workers are still running.
pub struct CompletionCoordinator {
    count: usize,
}

impl CompletionCoordinator {
    /// Number of tokens issued and not yet released. It can never go
    /// negative: a release demands an outstanding token.
    pub closed spec fn outstanding(&self) -> int {
        self.count as int
    }

    pub fn new() -> (c: CompletionCoordinator)
        ensures
            c.outstanding() == 0,
    {
        CompletionCoordinator { count: 0 }
    }

    /// Issue one completion token for a worker about to be spawned.
    pub fn issue_token(&mut self)
        requires
            old(self).outstanding() < usize::MAX,
        ensures
            final(self).outstanding() == old(self).outstanding() + 1,
    {
        self.count = self.count + 1;
    }

    /// Release the token of a worker that has exited.
    pub fn release_token(&mut self)
        requires
            old(self).outstanding() > 0,
        ensures
            final(self).outstanding() == old(self).outstanding() - 1,
    {
        self.count = self.count - 1;
    }

    /// Whether the orchestrating thread's wait may return: true exactly when
    /// every issued token has been released.
    pub fn wait_ready(&self) -> (r: bool)
        ensures
            r <==> self.outstanding() == 0,
    {
        self.count == 0
    }

    /// Number of tokens still outstanding.
    pub fn outstanding_tokens(&self) -> (n: usize)
        ensures
            n == self.outstanding(),
    {
        self.count
    }
}

} // verus!
