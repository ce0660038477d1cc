//! The flag half of a wake-up handle: a notification that arrives before the
//! waiter parks is remembered, so the waiter does not sleep through it.

use vstd::prelude::*;

verus! {

/// The flag guarded by the handle's mutex. The condition variable that
/// parks the waiter lives beside it; this type decides whether to park.
pub struct Wakeup {
    pending: bool,
}

impl View for Wakeup {
    type V = bool;

    /// True when a notification is waiting to be consumed.
    closed spec fn view(&self) -> bool {
        self.pending
    }
}

/// What happens to a wake-up handle: a notification, or a waiter's check.
pub enum WakeEvent {
    Notify,
    Block,
}

/// The flag after one event.
pub open spec fn wake_step(pending: bool, ev: WakeEvent) -> bool {
    match ev {
        WakeEvent::Notify => true,
        WakeEvent::Block => false,
    }
}

/// The flag after a run of events, in order.
pub open spec fn wake_run(pending: bool, evs: Seq<WakeEvent>) -> bool
    decreases evs.len(),
{
    if evs.len() == 0 {
        pending
    } else {
        wake_step(wake_run(pending, evs.drop_last()), evs.last())
    }
}

impl Wakeup {
    /// A handle with no notification pending.
    pub fn new() -> (w: Wakeup)
        ensures
            !w@,
    {
        Wakeup { pending: false }
    }

    /// Records a notification.
    pub fn notify(&mut self)
        ensures
            final(self)@ == wake_step(old(self)@, WakeEvent::Notify),
            final(self)@,
    {
        self.pending = true;
    }

    /// The waiter's check: consumes a pending notification and reports
    /// whether there was one. `false` means the waiter must park and check
    /// again when woken.
    pub fn take(&mut self) -> (r: bool)
        ensures
            r == old(self)@,
            final(self)@ == wake_step(old(self)@, WakeEvent::Block),
            !final(self)@,
    {
        let r = self.pending;
        self.pending = false;
        r
    }

    pub fn is_pending(&self) -> (r: bool)
        ensures
            r == self@,
    {
        self.pending
    }
}

/// A notification that happens before a waiter's check is never lost: if
/// event `i` is a notification, event `j > i` is a check, and no check comes
/// between them, then that check finds the flag set and returns at once.
pub proof fn lemma_notify_before_block(pending: bool, evs: Seq<WakeEvent>, i: int, j: int)
    requires
        0 <= i < j < evs.len(),
        evs[i] is Notify,
        evs[j] is Block,
        forall|k: int| i < k < j ==> !(#[trigger] evs[k] is Block),
    ensures
        wake_run(pending, evs.take(j)),
    decreases j - i,
{
    let prefix = evs.take(j);
    assert(prefix.drop_last() =~= evs.take(j - 1));
    if j - 1 == i {
        assert(prefix.last() == evs[i]);
    } else {
        assert(prefix.last() == evs[j - 1]);
        assert(!(evs[j - 1] is Block));
        let evs2 = evs.take(j - 1).push(WakeEvent::Block);
        lemma_notify_before_block(pending, evs2, i, j - 1);
        assert(evs2.take(j - 1) =~= evs.take(j - 1));
    }
}

} // verus!
