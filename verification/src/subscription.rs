//! Subscription sets: the event kinds a script declares interest in, once,
//! at registration. The dispatch engine caches the set for the instance's
//! lifetime; order and duplicates are irrelevant to matching.

use vstd::prelude::*;

use crate::events::EVENT_ALL;

verus! {

/// Whether a subscription holding the kinds `kinds` receives an event of
/// kind `kind`: either the kind itself or the wildcard is present.
pub open spec fn sub_matches(kinds: Seq<u32>, kind: u32) -> bool {
    kinds.contains(kind) || kinds.contains(EVENT_ALL)
}

/// The set of event kinds one script instance subscribed to.
pub struct SubscriptionSet {
    kinds: Vec<u32>,
}

impl View for SubscriptionSet {
    type V = Seq<u32>;

    closed spec fn view(&self) -> Seq<u32> {
        self.kinds@
    }
}

impl SubscriptionSet {
    /// Declare interest in exactly the given kinds.
    pub fn from_kinds(kinds: Vec<u32>) -> (s: SubscriptionSet)
        ensures
            s@ == kinds@,
    {
        SubscriptionSet { kinds }
    }

    /// Whether an event of kind `kind` is delivered to this subscriber.
    pub fn matches(&self, kind: u32) -> (b: bool)
        ensures
            b == sub_matches(self@, kind),
    {
        let n = self.kinds.len();
        let mut i: usize = 0;
        while i < n
            invariant
                n == self.kinds.len(),
                i <= n,
                forall|j: int|
                    0 <= j < i ==> self.kinds@[j] != kind && self.kinds@[j] != EVENT_ALL,
            decreases n - i,
        {
            let k = self.kinds[i];
            if k == kind || k == EVENT_ALL {
                return true;
            }
            i += 1;
        }
        false
    }
}

} // verus!
