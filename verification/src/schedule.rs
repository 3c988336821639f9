//! The schedule by which shorter names become available: a starting minimum
//! and the steps, by height, at which the minimum drops.

use vstd::prelude::*;

verus! {

/// From `height` on, names down to `minimum` may be etched.
#[derive(Clone, Copy, Debug, PartialEq, Eq)]
pub struct Step {
    pub height: u32,
    pub minimum: u128,
}

/// The minimum name by height.
#[derive(Clone, Debug, PartialEq, Eq)]
pub struct NameSchedule {
    pub initial: u128,
    pub steps: Vec<Step>,
}

/// The number of leading steps, counted from step `i`, that have begun at `height`.
pub open spec fn reached(steps: Seq<Step>, height: u32, i: nat) -> nat
    decreases steps.len() - i,
{
    if i < steps.len() && steps[i as int].height <= height {
        reached(steps, height, i + 1)
    } else {
        i
    }
}

impl NameSchedule {
    /// The minimum after `k` steps.
    pub open spec fn level(&self, k: nat) -> u128 {
        if k == 0 {
            self.initial
        } else {
            self.steps@[k - 1].minimum
        }
    }

    /// Steps come in ascending order of height, and no step raises the minimum.
    pub open spec fn wf(&self) -> bool {
        &&& forall|i: int, j: int|
            0 <= i < j < self.steps@.len() ==> self.steps@[i].height < self.steps@[j].height
        &&& forall|k: nat| k < self.steps@.len() ==> #[trigger] self.level(k + 1) <= self.level(k)
    }

    /// The least name that may be etched at `height`.
    pub open spec fn minimum_spec(&self, height: u32) -> u128 {
        self.level(reached(self.steps@, height, 0))
    }

    /// The least name that may be etched at `height`.
    pub fn minimum_name_at_height(&self, height: u32) -> (r: u128)
        ensures
            r == self.minimum_spec(height),
    {
        let mut i: usize = 0;
        while i < self.steps.len() && self.steps[i].height <= height
            invariant
                i <= self.steps@.len(),
                reached(self.steps@, height, i as nat) == reached(self.steps@, height, 0),
            decreases self.steps@.len() - i,
        {
            i += 1;
        }
        if i == 0 {
            self.initial
        } else {
            self.steps[i - 1].minimum
        }
    }
}

/// Counting the steps that have begun never goes back nor beyond the last step.
pub proof fn lemma_reached_bounds(steps: Seq<Step>, height: u32, i: nat)
    requires
        i <= steps.len(),
    ensures
        i <= reached(steps, height, i) <= steps.len(),
    decreases steps.len() - i,
{
    if i < steps.len() && steps[i as int].height <= height {
        lemma_reached_bounds(steps, height, i + 1);
    }
}

/// At a greater height no fewer steps have begun.
pub proof fn lemma_reached_monotone(steps: Seq<Step>, low: u32, high: u32, i: nat)
    requires
        low <= high,
        i <= steps.len(),
    ensures
        reached(steps, low, i) <= reached(steps, high, i),
    decreases steps.len() - i,
{
    if i < steps.len() && steps[i as int].height <= low {
        lemma_reached_monotone(steps, low, high, i + 1);
    } else {
        lemma_reached_bounds(steps, high, i);
    }
}

/// After more steps the minimum is no greater.
pub proof fn lemma_level_monotone(s: &NameSchedule, j: nat, k: nat)
    requires
        s.wf(),
        j <= k <= s.steps@.len(),
    ensures
        s.level(k) <= s.level(j),
    decreases k,
{
    if j < k {
        lemma_level_monotone(s, j, (k - 1) as nat);
        assert(s.level(((k - 1) as nat) + 1) <= s.level((k - 1) as nat));
    }
}

/// The minimum name never rises as the height grows.
pub proof fn lemma_minimum_non_increasing(s: &NameSchedule, low: u32, high: u32)
    requires
        s.wf(),
        low <= high,
    ensures
        s.minimum_spec(high) <= s.minimum_spec(low),
{
    lemma_reached_monotone(s.steps@, low, high, 0);
    lemma_reached_bounds(s.steps@, high, 0);
    lemma_level_monotone(s, reached(s.steps@, low, 0), reached(s.steps@, high, 0));
}

} // verus!
