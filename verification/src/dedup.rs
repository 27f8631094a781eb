//! The per-refresh-cycle record of already-emitted addresses. Duplicate
//! reports of one address within a cycle are suppressed; a fresh index is
//! made for every cycle, so an address may legitimately reappear across
//! cycles.

use vstd::prelude::*;
use crate::server::{AddrKey, ServerAddr};

verus! {

/// The set of addresses already admitted during the current refresh cycle.
pub struct DedupIndex {
    seen: Vec<ServerAddr>,
}

impl View for DedupIndex {
    type V = Set<AddrKey>;

    closed spec fn view(&self) -> Set<AddrKey> {
        Set::new(
            |k: AddrKey|
                exists|i: int|
                    0 <= i < self.seen@.len() && #[trigger] self.seen@[i].key() == k,
        )
    }
}

impl DedupIndex {
    /// An index that has seen nothing: the state at the start of a cycle.
    pub fn new() -> (d: DedupIndex)
        ensures
            d@ == Set::<AddrKey>::empty(),
    {
        let d = DedupIndex { seen: Vec::new() };
        proof {
            assert(d@ =~= Set::<AddrKey>::empty());
        }
        d
    }

    /// Has `addr` been admitted during this cycle?
    pub fn contains(&self, addr: &ServerAddr) -> (r: bool)
        ensures
            r == self@.contains(addr.key()),
    {
        let n = self.seen.len();
        let mut i: usize = 0;
        while i < n
            invariant
                0 <= i <= n,
                n == self.seen@.len(),
                forall|j: int| 0 <= j < i ==> #[trigger] self.seen@[j].key() != addr.key(),
            decreases n - i,
        {
            if self.seen[i].same_as(addr) {
                return true;
            }
            i += 1;
        }
        false
    }

    /// Record `addr`: true exactly the first time the address is seen during
    /// this cycle, false thereafter. Either way the address counts as seen
    /// from now on.
    pub fn record(&mut self, addr: &ServerAddr) -> (fresh: bool)
        ensures
            fresh == !old(self)@.contains(addr.key()),
            final(self)@ == old(self)@.insert(addr.key()),
    {
        if self.contains(addr) {
            proof {
                assert(self@ =~= old(self)@.insert(addr.key()));
            }
            false
        } else {
            self.seen.push(addr.clone());
            proof {
                let ghost k = addr.key();
                assert forall|x: AddrKey|
                    self@.contains(x) <==> old(self)@.insert(k).contains(x) by {
                    if self@.contains(x) {
                        let i = choose|i: int|
                            0 <= i < self.seen@.len() && #[trigger] self.seen@[i].key() == x;
                        if i < old(self).seen@.len() {
                            assert(old(self).seen@[i].key() == x);
                        } else {
                            assert(x == k);
                        }
                    }
                    if old(self)@.contains(x) {
                        let i = choose|i: int|
                            0 <= i < old(self).seen@.len() && #[trigger] old(
                                self,
                            ).seen@[i].key() == x;
                        assert(self.seen@[i].key() == x);
                    }
                    if x == k {
                        assert(self.seen@[self.seen@.len() - 1].key() == x);
                    }
                }
                assert(self@ =~= old(self)@.insert(k));
            }
            true
        }
    }
}

} // verus!
