//! Bookkeeping for the build supervisor.
//!
//! The supervisor runs the external build command to completion. The
//! subprocess itself is spawned and awaited by the surrounding binary;
//! this model keeps the one piece of state that matters to correctness:
//! which build run, if any, is current. Every start hands out a fresh
//! identifier, a completion is accepted only if it carries the current
//! identifier, and accepting it retires that identifier — so one start
//! yields at most one accepted completion, and a cancelled or superseded
//! run's completion is recognized as stale and dropped.

use vstd::prelude::*;

verus! {

/// The supervisor's ledger of build runs.
pub struct BuildSupervisor {
    /// The identifier the next start will hand out; identifiers are never
    /// reused.
    pub next_id: u64,
    /// The identifier of the currently running build, if one is running.
    pub running: Option<u64>,
}

impl BuildSupervisor {
    /// Identifiers already handed out are below `next_id`; in particular
    /// the running one is.
    pub open spec fn wf(&self) -> bool {
        self.running is Some ==> self.running->0 < self.next_id
    }

    /// A fresh supervisor with no build running.
    pub fn new() -> (r: Self)
        ensures
            r.next_id == 0,
            r.running is None,
            r.wf(),
    {
        BuildSupervisor { next_id: 0, running: None }
    }

    /// Record the spawn of a build and hand out its identifier. The
    /// caller must not have a build running — the orchestrator's mutual
    /// exclusion invariant guarantees it never asks for one when it does.
    pub fn start(&mut self) -> (id: u64)
        requires
            old(self).running is None,
            old(self).next_id < u64::MAX,
            old(self).wf(),
        ensures
            id == old(self).next_id,
            final(self).running == Some(id),
            final(self).next_id == id + 1,
            final(self).wf(),
    {
        let id = self.next_id;
        self.next_id = id + 1;
        self.running = Some(id);
        id
    }

    /// Record that the running build, if any, was cancelled: its eventual
    /// completion, should one still arrive, will be stale.
    pub fn cancel(&mut self)
        ensures
            final(self).running is None,
            final(self).next_id == old(self).next_id,
            old(self).wf() ==> final(self).wf(),
    {
        self.running = None;
    }

    /// Offer a completion for build `id`: accepted exactly when `id` is
    /// the current run, and accepting retires it, so offering the same
    /// identifier again is rejected — one start, at most one accepted
    /// completion.
    pub fn accept_completion(&mut self, id: u64) -> (r: bool)
        ensures
            r == (old(self).running == Some(id)),
            r ==> final(self).running is None,
            !r ==> final(self).running == old(self).running,
            final(self).next_id == old(self).next_id,
            old(self).wf() ==> final(self).wf(),
    {
        let accepted = match self.running {
            Some(current) => current == id,
            None => false,
        };
        if accepted {
            self.running = None;
        }
        accepted
    }
}

} // verus!
