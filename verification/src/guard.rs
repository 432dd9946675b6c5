//! Single-fire guard: a boolean flag that a script sets *before* performing
//! an irreversible action, so that re-delivered or re-entrant events within
//! one loaded lifetime cannot make the action fire twice.

use vstd::prelude::*;

verus! {

/// Records whether a script instance's one-shot action has already executed.
///
/// The flag transitions `false -> true` at most once per loaded lifetime;
/// it never goes back to `false`.
pub struct SingleFireGuard {
    fired: bool,
}

impl SingleFireGuard {
    /// Whether the one-shot action has already executed.
    pub closed spec fn spec_fired(&self) -> bool {
        self.fired
    }

    /// A fresh guard: the action has not executed yet.
    pub fn new() -> (g: SingleFireGuard)
        ensures
            !g.spec_fired(),
    {
        SingleFireGuard { fired: false }
    }

    /// Atomically test-and-set: returns `true` exactly when the caller is the
    /// first to claim the guard, and leaves the guard set either way.
    /// A caller must invoke this *before* its irreversible action and only
    /// act when the result is `true`.
    pub fn test_and_set(&mut self) -> (first: bool)
        ensures
            final(self).spec_fired(),
            first == !old(self).spec_fired(),
    {
        let first = !self.fired;
        self.fired = true;
        first
    }

    /// Read the flag without claiming it.
    pub fn has_fired(&self) -> (b: bool)
        ensures
            b == self.spec_fired(),
    {
        self.fired
    }
}

/// A run of `n` consecutive `test_and_set` calls on one guard, each step
/// exactly as the method's contract says: the guard flag after the run,
/// paired with how many of the calls were granted ("first").
pub open spec fn guard_run(fired: bool, n: nat) -> (bool, nat)
    decreases n,
{
    if n == 0 {
        (fired, 0)
    } else {
        let rest = guard_run(true, (n - 1) as nat);
        (rest.0, rest.1 + if fired {
            0nat
        } else {
            1nat
        })
    }
}

/// The single-fire law, spelled out over a run of `n` calls: at most one
/// call is ever granted; starting from a fresh guard and `n >= 1`,
/// exactly the first one is, and the guard ends (and stays) set.
pub proof fn lemma_guard_single_fire(fired: bool, n: nat)
    ensures
        guard_run(fired, n).1 <= 1,
        fired ==> guard_run(fired, n).1 == 0,
        !fired && n >= 1 ==> guard_run(fired, n).1 == 1,
        n >= 1 ==> guard_run(fired, n).0,
    decreases n,
{
    if n >= 1 {
        lemma_guard_single_fire(true, (n - 1) as nat);
    }
}

} // verus!
