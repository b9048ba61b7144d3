//! The global single-slot timer. The guest multiplexes its own timer heap
//! and only asks the host to track the earliest deadline, so at most one
//! deadline is ever in flight: Idle, or Armed with one deadline.
//!
//! Arming while armed is cancel-then-arm; the cancelled wait completes
//! successfully (cancellation is not an error). Deadlines are instants in
//! milliseconds; the embedder owns the actual clock and wakes the state
//! machine when the deadline fires.

use vstd::prelude::*;

verus! {

/// The single-slot timer state machine.
pub struct GlobalTimer {
    deadline: Option<u64>,
}

impl GlobalTimer {
    /// The armed deadline, when one is in flight.
    pub closed spec fn deadline_spec(&self) -> Option<u64> {
        self.deadline
    }

    /// A timer with no deadline in flight.
    pub fn new() -> (t: GlobalTimer)
        ensures
            t.deadline_spec() is None,
    {
        GlobalTimer { deadline: None }
    }

    /// The armed deadline, if any.
    pub fn deadline(&self) -> (r: Option<u64>)
        ensures
            r == self.deadline_spec(),
    {
        self.deadline
    }

    /// Cancels the pending deadline. Idempotent: with nothing in flight
    /// this is a no-op. A cancelled wait completes successfully.
    pub fn cancel(&mut self)
        ensures
            final(self).deadline_spec() is None,
    {
        self.deadline = None;
    }

    /// Arms the timer. A deadline already in flight is cancelled first, so
    /// exactly one deadline is ever pending; returns whether an earlier
    /// wait was cancelled by this call.
    pub fn new_timeout(&mut self, deadline: u64) -> (cancelled_previous: bool)
        ensures
            final(self).deadline_spec() == Some(deadline),
            cancelled_previous == (old(self).deadline_spec() is Some),
    {
        let had = self.deadline.is_some();
        if had {
            self.cancel();
        }
        self.deadline = Some(deadline);
        had
    }

    /// Marks the armed deadline as fired; the slot is idle again.
    pub fn fire(&mut self)
        requires
            old(self).deadline_spec() is Some,
        ensures
            final(self).deadline_spec() is None,
    {
        self.deadline = None;
    }
}

} // verus!
