use vstd::prelude::*;

verus! {

/// Progress of a full gauge, in percent.
pub const FULL: u32 = 100;

/// How many percent one tick adds.
pub const STEP: u32 = 1;

/// The ticker's update rule: one step more, never beyond a full gauge.
pub open spec fn tick_spec(p: nat) -> nat {
    if p + STEP >= FULL {
        FULL as nat
    } else {
        (p + STEP) as nat
    }
}

/// The value reached by applying the update rule `n` times from `p`.
pub open spec fn ticks_from(p: nat, n: nat) -> nat
    decreases n,
{
    if n == 0 {
        p
    } else {
        tick_spec(ticks_from(p, (n - 1) as nat))
    }
}

/// Synthetic progress source: each tick advances its value by one percent, pinned
/// at a full gauge once it gets there.
pub struct Ticker {
    percent: u32,
}

impl Ticker {
    /// The current value, in percent.
    pub closed spec fn value(&self) -> nat {
        self.percent as nat
    }

    pub open spec fn wf(&self) -> bool {
        self.value() <= FULL
    }

    /// A ticker that has not advanced yet.
    pub fn new() -> (r: Ticker)
        ensures
            r.wf(),
            r.value() == 0,
    {
        Ticker { percent: 0 }
    }

    /// The current value, in percent.
    pub fn percent(&self) -> (r: u32)
        ensures
            r as nat == self.value(),
    {
        self.percent
    }

    /// Advances by one step, clamped to a full gauge, and returns the new value.
    pub fn tick(&mut self) -> (r: u32)
        requires
            old(self).wf(),
        ensures
            final(self).wf(),
            final(self).value() == tick_spec(old(self).value()),
            r as nat == final(self).value(),
    {
        if self.percent >= FULL - STEP {
            self.percent = FULL;
        } else {
            self.percent = self.percent + STEP;
        }
        self.percent
    }
}

impl Default for Ticker {
    fn default() -> (r: Ticker)
        ensures
            r.wf(),
            r.value() == 0,
    {
        Ticker::new()
    }
}

/// After `n` ticks from an empty gauge the value is `min(n, FULL)` percent: it never
/// exceeds a full gauge, and no tick makes it smaller.
pub proof fn lemma_ticks_from_zero(n: nat)
    ensures
        ticks_from(0, n) == if n * STEP >= FULL { FULL as nat } else { (n * STEP) as nat },
        ticks_from(0, n) <= FULL,
        ticks_from(0, n) <= ticks_from(0, n + 1),
    decreases n,
{
    if n > 0 {
        lemma_ticks_from_zero((n - 1) as nat);
    }
}

} // verus!
