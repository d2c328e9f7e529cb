//! The single-consumer event loop's core.
//!
//! The surrounding binary owns one [`WatchCore`] and feeds it every event
//! in arrival order; the core owns the orchestrator state and the reload
//! channel end, so no state is shared — viewers only read the channel
//! through their subscriptions. The core performs the one effect that is
//! pure bookkeeping (firing the reload notification) itself; every other
//! action — arming the debounce timer, spawning or cancelling the build
//! subprocess, reporting a failure — is returned to the caller, the only
//! place that touches the outside world.

use vstd::prelude::*;

use crate::events::{ChangeKind, WatchEvent};
use crate::filter::FilterPredicate;
use crate::orchestrator::{action_spawns, build_live, spec_step, step, Action, OrchestratorState};
use crate::reload::{ReloadChannel, Subscription};

verus! {

/// The orchestrator state and the notifying end of the reload channel.
pub struct WatchCore {
    /// The state machine's current state.
    pub state: OrchestratorState,
    /// The channel viewers subscribe to.
    pub channel: ReloadChannel,
}

impl WatchCore {
    /// A fresh core: idle, with no notification fired yet.
    pub fn new() -> (r: Self)
        ensures
            r.state == OrchestratorState::Idle,
            r.channel.epoch == 0,
    {
        WatchCore { state: OrchestratorState::Idle, channel: ReloadChannel::new() }
    }

    /// Subscribe a newly connected viewer.
    pub fn subscribe(&self) -> (r: Subscription)
        ensures
            r.seen == self.channel.epoch,
    {
        self.channel.subscribe()
    }

    /// Consume one event: take the orchestrator's step, fire the reload
    /// notification exactly when the step says to, and return the action
    /// for the caller to perform.
    pub fn handle(&mut self, e: &WatchEvent) -> (a: Action)
        requires
            old(self).channel.epoch < u64::MAX,
        ensures
            a == spec_step(old(self).state, *e).1,
            final(self).state == spec_step(old(self).state, *e).0,
            final(self).channel.epoch == old(self).channel.epoch + (if a == Action::NotifyReload {
                1int
            } else {
                0int
            }),
            action_spawns(a) ==> build_live(final(self).state),
            e is ProcessSignal && old(self).state != OrchestratorState::Terminated ==> a
                == Action::Shutdown(build_live(old(self).state)) && final(self).state
                == OrchestratorState::Terminated,
    {
        let (next, action) = step(self.state, e);
        self.state = next;
        if action == Action::NotifyReload {
            self.channel.notify();
        }
        action
    }

    /// Consume one raw path change: it reaches the state machine only
    /// when it passes the filter; an excluded path changes nothing, fires
    /// nothing and asks for no action.
    pub fn handle_path_change(
        &mut self,
        filter: &FilterPredicate,
        path: String,
        kind: ChangeKind,
    ) -> (a: Action)
        requires
            old(self).channel.epoch < u64::MAX,
        ensures
            filter.spec_matches(path@) ==> a == spec_step(
                old(self).state,
                WatchEvent::PathChanged(path, kind),
            ).1 && final(self).state == spec_step(
                old(self).state,
                WatchEvent::PathChanged(path, kind),
            ).0,
            !filter.spec_matches(path@) ==> a == Action::Nothing && *final(self) == *old(self),
            final(self).channel.epoch == old(self).channel.epoch,
    {
        if filter.matches(&path, kind) {
            let a = self.handle(&WatchEvent::PathChanged(path, kind));
            proof {
                assert(a != Action::NotifyReload);
            }
            a
        } else {
            Action::Nothing
        }
    }
}

} // verus!
