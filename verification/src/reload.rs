//! The reload channel: a broadcast of "reload now" notifications.
//!
//! The channel counts the notifications fired so far; a subscription is a
//! cursor into that count. A subscriber has a notification pending exactly
//! when the channel moved past its cursor, and taking a pending
//! notification advances the cursor to the present — so a notification
//! fired while nobody subscribed is not buffered, and a viewer that
//! subscribes between two notifications learns only about the next one
//! (at-most-one-pending semantics). The surrounding binary adds the
//! waking: a connection parks until the count it watches moves.

use vstd::prelude::*;

verus! {

/// The process-wide notification counter, owned by whoever runs the
/// orchestrator's event loop and shared read-only with subscribers.
pub struct ReloadChannel {
    /// How many notifications have been fired since startup.
    pub epoch: u64,
}

/// One viewer's cursor into the notification stream.
pub struct Subscription {
    /// The channel epoch this subscriber has caught up to.
    pub seen: u64,
}

impl ReloadChannel {
    /// A fresh channel with no notification fired yet.
    pub fn new() -> (r: Self)
        ensures
            r.epoch == 0,
    {
        ReloadChannel { epoch: 0 }
    }

    /// Fire one notification: every current subscriber becomes pending,
    /// and future subscribers are unaffected.
    pub fn notify(&mut self)
        requires
            old(self).epoch < u64::MAX,
        ensures
            final(self).epoch == old(self).epoch + 1,
    {
        self.epoch = self.epoch + 1;
    }

    /// Subscribe now: the new subscriber has nothing pending, whatever
    /// was fired before it joined.
    pub fn subscribe(&self) -> (r: Subscription)
        ensures
            r.seen == self.epoch,
            !r.spec_pending(*self),
    {
        Subscription { seen: self.epoch }
    }
}

impl Subscription {
    /// Whether a notification fired after this subscriber last caught up
    /// is waiting for it.
    pub open spec fn spec_pending(&self, ch: ReloadChannel) -> bool {
        self.seen < ch.epoch
    }

    /// Take the pending notification, if any: returns whether one was
    /// pending and catches the cursor up to the present either way, so
    /// any number of notifications fired since the last take collapse
    /// into one and a second take without a new `notify` returns nothing.
    pub fn take_pending(&mut self, ch: &ReloadChannel) -> (r: bool)
        requires
            old(self).seen <= ch.epoch,
        ensures
            r == old(self).spec_pending(*ch),
            final(self).seen == ch.epoch,
            !final(self).spec_pending(*ch),
    {
        let pending = self.seen < ch.epoch;
        self.seen = ch.epoch;
        pending
    }
}

/// At-most-one-pending, stated once for a whole span of activity: a
/// subscriber that joins (or catches up) at epoch `a` and looks again at
/// epoch `b >= a` sees something pending exactly when a notification was
/// fired in between — never one from before it joined, and however many
/// fired in between, taking them yields a single pending notification.
pub proof fn lemma_no_missed_and_no_duplicated_notification(a: u64, b: u64)
    requires
        a <= b,
    ensures
        (Subscription { seen: a }).spec_pending(ReloadChannel { epoch: b }) <==> a < b,
        !(Subscription { seen: b }).spec_pending(ReloadChannel { epoch: b }),
{
}

} // verus!
