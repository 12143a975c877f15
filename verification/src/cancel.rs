//! The session's one-shot cancellation signal.
//!
//! The signal starts out "not cancelled" and transitions once to
//! "cancelled"; it never reverts. Triggering it again is a no-op, so the
//! signal is idempotent and monotonic. Every suspension point of the session
//! observes it cooperatively; the wait/notify machinery that wakes a
//! suspended activity lives outside the library.

use vstd::prelude::*;

verus! {

/// A one-shot, broadcast, level-triggered cancellation flag.
pub struct CancelFlag {
    cancelled: bool,
}

impl CancelFlag {
    /// Whether the signal has been triggered.
    pub closed spec fn is_cancelled_spec(&self) -> bool {
        self.cancelled
    }

    /// A fresh, untriggered signal.
    pub fn new() -> (c: Self)
        ensures
            !c.is_cancelled_spec(),
    {
        CancelFlag { cancelled: false }
    }

    /// Trigger the signal. The outcome is the same whether or not it was
    /// already triggered, and a triggered signal never reverts.
    pub fn trigger(&mut self)
        ensures
            final(self).is_cancelled_spec(),
    {
        self.cancelled = true;
    }

    /// Observe the signal.
    pub fn is_cancelled(&self) -> (r: bool)
        ensures
            r == self.is_cancelled_spec(),
    {
        self.cancelled
    }
}

} // verus!
