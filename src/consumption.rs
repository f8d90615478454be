use vstd::prelude::*;
use crate::quota::{decompose, plan_of, plan_total, FIVE, ONE, TEN};

verus! {

/// The draw phase: the credits still to spend, and the batches left in the
/// current pass. A pass is planned from `remaining` when it starts; every
/// call then lowers `remaining` by what it actually granted.
#[derive(Debug, Clone, Copy, PartialEq, Eq)]
pub struct ConsumptionLoop {
    pub remaining: u64,
    pub tens: u64,
    pub fives: u64,
    pub singles: u64,
    pub passes: u64,
}

/// `n + 1`, held at the largest value.
pub open spec fn bumped(n: u64) -> u64 {
    if n == u64::MAX { n } else { (n + 1) as u64 }
}

/// `a - b`, held at zero.
pub open spec fn less_by(a: u64, b: u64) -> u64 {
    if b >= a { 0 } else { (a - b) as u64 }
}

impl ConsumptionLoop {
    /// The batch calls left in the current pass.
    pub open spec fn pending(self) -> nat {
        (self.tens + self.fives + self.singles) as nat
    }

    /// What the batch calls left in the current pass ask for in all.
    pub open spec fn planned(self) -> int {
        plan_total(self.tens as int, self.fives as int, self.singles as int)
    }

    /// The loop has ended: the pass is over and nothing remains.
    pub open spec fn finished(self) -> bool {
        self.pending() == 0 && self.remaining == 0
    }

    /// The state at the start of a new pass over `self.remaining`.
    pub open spec fn replanned(self) -> ConsumptionLoop {
        ConsumptionLoop {
            remaining: self.remaining,
            tens: plan_of(self.remaining as int).0 as u64,
            fives: plan_of(self.remaining as int).1 as u64,
            singles: plan_of(self.remaining as int).2 as u64,
            passes: bumped(self.passes),
        }
    }

    /// Takes the largest batch left in a pass that has one.
    pub open spec fn take(self) -> (u32, ConsumptionLoop) {
        if self.tens > 0 {
            (TEN, ConsumptionLoop { tens: (self.tens - 1) as u64, ..self })
        } else if self.fives > 0 {
            (FIVE, ConsumptionLoop { fives: (self.fives - 1) as u64, ..self })
        } else {
            (ONE, ConsumptionLoop { singles: (self.singles - 1) as u64, ..self })
        }
    }

    /// The next call to make and the state after it: none once finished;
    /// else the largest batch left, after planning a new pass if the current
    /// one is over.
    pub open spec fn step(self) -> (Option<u32>, ConsumptionLoop) {
        if self.finished() {
            (None, self)
        } else if self.pending() == 0 {
            (Some(self.replanned().take().0), self.replanned().take().1)
        } else {
            (Some(self.take().0), self.take().1)
        }
    }

    /// The state after a call that granted `granted` items.
    pub open spec fn after_grant(self, granted: u64) -> ConsumptionLoop {
        ConsumptionLoop { remaining: less_by(self.remaining, granted), ..self }
    }

    /// A loop that will spend `num_draw` credits; no pass has started.
    pub fn new(num_draw: u64) -> (r: ConsumptionLoop)
        ensures
            r.remaining == num_draw,
            r.pending() == 0,
            r.passes == 0,
    {
        ConsumptionLoop { remaining: num_draw, tens: 0, fives: 0, singles: 0, passes: 0 }
    }

    pub fn is_finished(&self) -> (r: bool)
        ensures
            r == self.finished(),
    {
        self.tens == 0 && self.fives == 0 && self.singles == 0 && self.remaining == 0
    }

    fn take_batch(&mut self) -> (r: u32)
        requires
            old(self).pending() > 0,
        ensures
            (r, *final(self)) == old(self).take(),
    {
        if self.tens > 0 {
            self.tens = self.tens - 1;
            TEN
        } else if self.fives > 0 {
            self.fives = self.fives - 1;
            FIVE
        } else {
            self.singles = self.singles - 1;
            ONE
        }
    }

    /// Decides the size of the next draw call, or `None` once every credit
    /// has been spent and the pass is over.
    pub fn next_batch(&mut self) -> (r: Option<u32>)
        ensures
            (r, *final(self)) == old(self).step(),
    {
        if self.is_finished() {
            return None;
        }
        if self.tens == 0 && self.fives == 0 && self.singles == 0 {
            let (t, f, s) = decompose(self.remaining);
            self.tens = t;
            self.fives = f;
            self.singles = s;
            self.passes = if self.passes == u64::MAX { self.passes } else { self.passes + 1 };
            assert(plan_total(t as int, f as int, s as int) == self.remaining);
        }
        Some(self.take_batch())
    }

    /// Accounts for a draw call that granted `granted` items: `remaining`
    /// goes down by what was granted, never below zero.
    pub fn record(&mut self, granted: u64)
        ensures
            *final(self) == old(self).after_grant(granted),
            final(self).remaining <= old(self).remaining,
            granted <= old(self).remaining ==> final(self).remaining == old(self).remaining - granted,
    {
        self.remaining = if granted >= self.remaining { 0 } else { self.remaining - granted };
    }
}

/// Starting a pass plans exactly what remains: the first batch taken and the
/// batches left behind it add up to `remaining`, and the pass count goes up.
pub proof fn lemma_new_pass_covers_remaining(s: ConsumptionLoop)
    requires
        s.pending() == 0,
        s.remaining > 0,
    ensures
        s.step().0 is Some,
        s.step().0->0 + s.step().1.planned() == s.remaining,
        s.step().1.remaining == s.remaining,
        s.step().1.passes == bumped(s.passes),
        s.replanned().tens == plan_of(s.remaining as int).0,
        s.replanned().fives == plan_of(s.remaining as int).1,
        s.replanned().singles == plan_of(s.remaining as int).2,
        s.replanned().planned() == s.remaining,
        s.replanned().fives < 2,
        s.replanned().singles < 5,
{
    let p = s.replanned();
    assert(p.planned() == s.remaining);
}

/// While every call is granted in full, a pass stays exact: after the next
/// batch is granted, what the pass still asks for equals what remains, and
/// no new pass begins. A pass whose batches are all granted in full thus ends
/// with nothing left.
pub proof fn lemma_full_grants_keep_pass_exact(s: ConsumptionLoop)
    requires
        s.pending() > 0,
        s.planned() == s.remaining,
    ensures
        s.step().0 is Some,
        s.step().1.after_grant(s.step().0->0 as u64).planned()
            == s.step().1.after_grant(s.step().0->0 as u64).remaining,
        s.step().1.passes == s.passes,
{
}

/// A pass that is over, with what it asked for all granted, leaves the loop
/// finished.
pub proof fn lemma_exact_pass_end_is_final(s: ConsumptionLoop)
    requires
        s.pending() == 0,
        s.planned() == s.remaining,
    ensures
        s.finished(),
        s.step().0 is None,
{
}

/// A pass never overdraws: while the batches left in a pass ask for no more
/// than what remains (as at the start of every pass), the next batch asks for
/// no more than what remains, a grant of at most that batch lowers
/// `remaining` by exactly what was granted, and what the pass still asks for
/// stays within what remains.
pub proof fn lemma_pass_never_overdraws(s: ConsumptionLoop, granted: u64)
    requires
        s.planned() <= s.remaining,
        !s.finished(),
        granted <= s.step().0->0,
    ensures
        s.step().0 is Some,
        s.step().0->0 <= s.remaining,
        s.step().1.after_grant(granted).remaining == s.remaining - granted,
        s.step().1.after_grant(granted).planned() <= s.step().1.after_grant(granted).remaining,
{
    if s.pending() == 0 {
        lemma_new_pass_covers_remaining(s);
    }
}

} // verus!
