//! The change notifier: a single-slot, level-triggered wake signal.
//!
//! Repeated signals before a consumer wakes collapse into one pending wake.
//! The signal carries no payload; it only means "the frame may have changed
//! since the last render". This is a deliberate coalescing policy: the
//! render loop re-renders the latest state instead of every intermediate
//! state, which bounds memory and avoids backpressure on the single
//! transmitter.

use vstd::prelude::*;

verus! {

/// The wake signal. `pending` is the whole state: either a notification is
/// pending or it is not; there is no queue.
#[derive(Clone, Copy, PartialEq, Eq, Structural, Debug)]
pub struct ChangeNotifier {
    pub pending: bool,
}

/// The one state a raised notifier can be in.
pub open spec fn spec_notified() -> ChangeNotifier {
    ChangeNotifier { pending: true }
}

/// `k` successive `notify` calls applied to `n`.
pub open spec fn spec_notify_n(n: ChangeNotifier, k: nat) -> ChangeNotifier
    decreases k,
{
    if k == 0 {
        n
    } else {
        spec_notify_n(spec_notified(), (k - 1) as nat)
    }
}

impl ChangeNotifier {
    /// A notifier with no pending wake.
    pub fn new() -> (r: ChangeNotifier)
        ensures
            !r.pending,
    {
        ChangeNotifier { pending: false }
    }

    /// Raises the signal. The resulting state is [`spec_notified`] no matter
    /// how often the signal had already been raised.
    pub fn notify(&mut self)
        ensures
            *final(self) == spec_notified(),
    {
        self.pending = true;
    }

    /// Consumes a pending notification: reports whether one was pending and
    /// leaves the notifier clear either way. A waiting render task runs
    /// exactly when this returns true.
    pub fn consume(&mut self) -> (r: bool)
        ensures
            r == old(self).pending,
            !final(self).pending,
    {
        let r = self.pending;
        self.pending = false;
        r
    }
}

/// Coalescing law: raising the signal any number N >= 1 of times between two
/// consecutive consumes leaves the notifier in exactly the state one raise
/// leaves it in, so the two histories cannot be told apart by any consumer.
pub proof fn lemma_notify_idempotent(n: ChangeNotifier, k: nat)
    requires
        k >= 1,
    ensures
        spec_notify_n(n, k) == spec_notified(),
    decreases k,
{
    if k > 1 {
        lemma_notify_idempotent(spec_notified(), (k - 1) as nat);
    } else {
        assert(spec_notify_n(n, 1) == spec_notify_n(spec_notified(), 0));
        assert(spec_notify_n(spec_notified(), 0) == spec_notified());
    }
}

} // verus!
