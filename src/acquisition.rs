use vstd::prelude::*;
use crate::response::PurchaseOutcome;

verus! {

/// The fixed pause, in milliseconds, after a failed purchase and after every
/// draw call.
pub const PACE_MILLIS: u64 = 500;

/// What the purchase phase asks its driver to do next.
#[derive(Debug, Clone, Copy, PartialEq, Eq, Structural)]
pub enum PurchaseStep {
    /// Submit the purchase (again, after the fixed pause if one failed).
    Submit,
    /// The credits are bought: go on to the draw phase.
    Proceed,
    /// Cancelled from outside before a purchase succeeded.
    Stop,
}

/// The purchase phase: retried without limit until it succeeds, unless it is
/// cancelled between attempts.
#[derive(Debug, Clone, Copy, PartialEq, Eq)]
pub struct AcquisitionLoop {
    pub attempts: u64,
    pub acquired: bool,
    pub cancelled: bool,
}

impl AcquisitionLoop {
    /// The step the driver takes next.
    pub open spec fn step_of(self) -> PurchaseStep {
        if self.acquired {
            PurchaseStep::Proceed
        } else if self.cancelled {
            PurchaseStep::Stop
        } else {
            PurchaseStep::Submit
        }
    }

    pub fn new() -> (r: AcquisitionLoop)
        ensures
            r.attempts == 0,
            !r.acquired,
            !r.cancelled,
    {
        AcquisitionLoop { attempts: 0, acquired: false, cancelled: false }
    }

    /// Decides what to do next: proceed once a purchase succeeded, stop if
    /// cancelled, else submit.
    pub fn next_step(&self) -> (r: PurchaseStep)
        ensures
            r == self.step_of(),
    {
        if self.acquired {
            PurchaseStep::Proceed
        } else if self.cancelled {
            PurchaseStep::Stop
        } else {
            PurchaseStep::Submit
        }
    }

    /// The state after one more submitted purchase with this outcome.
    pub open spec fn after(self, outcome: PurchaseOutcome) -> AcquisitionLoop {
        AcquisitionLoop {
            attempts: if self.attempts == u64::MAX { self.attempts } else { (self.attempts + 1) as u64 },
            acquired: self.acquired || outcome == PurchaseOutcome::Success,
            cancelled: self.cancelled,
        }
    }

    /// Accounts for one submitted purchase and its outcome.
    pub fn record(&mut self, outcome: PurchaseOutcome)
        ensures
            *final(self) == old(self).after(outcome),
    {
        if self.attempts < u64::MAX {
            self.attempts = self.attempts + 1;
        }
        if let PurchaseOutcome::Success = outcome {
            self.acquired = true;
        }
    }

    /// Asks the loop to stop before its next attempt.
    pub fn cancel(&mut self)
        ensures
            final(self).cancelled,
            final(self).attempts == old(self).attempts,
            final(self).acquired == old(self).acquired,
    {
        self.cancelled = true;
    }
}

/// A failed purchase never ends the phase: unless cancelled, the next step
/// is another submission. A successful one is followed by proceeding, and
/// each submission is counted.
pub proof fn lemma_retry_until_success(s: AcquisitionLoop, outcome: PurchaseOutcome)
    requires
        !s.acquired,
        !s.cancelled,
        s.attempts < u64::MAX,
    ensures
        s.step_of() == PurchaseStep::Submit,
        s.after(outcome).attempts == s.attempts + 1,
        outcome is Failure ==> s.after(outcome).step_of() == PurchaseStep::Submit,
        outcome is Success ==> s.after(outcome).step_of() == PurchaseStep::Proceed,
{
}

} // verus!
