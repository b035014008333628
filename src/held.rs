//! The set of identities that are currently down.

use vstd::prelude::*;
use crate::identity::Identity;

verus! {

/// Level state: an identity is held from its press until its release; one that
/// was never seen is not held.
#[derive(Clone)]
pub struct HeldSet<K> {
    items: Vec<K>,
}

impl<K: Identity> HeldSet<K> {
    pub closed spec fn has(&self, v: K::V) -> bool {
        exists|i: int| 0 <= i < self.items@.len() && #[trigger] self.items@[i]@ == v
    }

    pub closed spec fn view(&self) -> Set<K::V> {
        Set::new(|v: K::V| self.has(v))
    }

    pub fn new() -> (r: Self)
        ensures
            r@ == Set::<K::V>::empty(),
    {
        let r = HeldSet { items: Vec::new() };
        assert(r@ =~= Set::<K::V>::empty());
        r
    }

    pub fn contains(&self, k: &K) -> (r: bool)
        ensures
            r == self@.contains(k@),
    {
        let mut i: usize = 0;
        while i < self.items.len()
            invariant
                0 <= i <= self.items@.len(),
                forall|j: int| 0 <= j < i ==> self.items@[j]@ != k@,
            decreases self.items@.len() - i,
        {
            if self.items[i].same(k) {
                return true;
            }
            i += 1;
        }
        false
    }

    pub fn insert(&mut self, k: &K)
        ensures
            final(self)@ == old(self)@.insert(k@),
    {
        if !self.contains(k) {
            let d = k.duplicate();
            self.items.push(d);
            assert(self.items@[self.items@.len() - 1]@ == k@);
            assert forall|v: K::V| self.has(v) == (old(self).has(v) || v == k@) by {
                if old(self).has(v) {
                    let i = choose|i: int| 0 <= i < old(self).items@.len() && #[trigger] old(self).items@[i]@ == v;
                    assert(self.items@[i] == old(self).items@[i]);
                }
                if self.has(v) && v != k@ {
                    let i = choose|i: int| 0 <= i < self.items@.len() && #[trigger] self.items@[i]@ == v;
                    assert(i < old(self).items@.len());
                    assert(old(self).items@[i] == self.items@[i]);
                }
            }
        }
        assert(self@ =~= old(self)@.insert(k@));
    }

    pub fn remove(&mut self, k: &K)
        ensures
            final(self)@ == old(self)@.remove(k@),
    {
        let mut kept: Vec<K> = Vec::new();
        let mut i: usize = 0;
        while i < self.items.len()
            invariant
                0 <= i <= self.items@.len(),
                self.items == old(self).items,
                forall|v: K::V|
                    #[trigger] prefix_has(kept@, kept@.len() as int, v) <==> (v != k@
                        && prefix_has(self.items@, i as int, v)),
            decreases self.items@.len() - i,
        {
            let ghost prev = kept@;
            if !self.items[i].same(k) {
                let d = self.items[i].duplicate();
                kept.push(d);
            }
            assert forall|v: K::V|
                #[trigger] prefix_has(kept@, kept@.len() as int, v) <==> (v != k@
                    && prefix_has(self.items@, i + 1, v)) by {
                if prefix_has(kept@, kept@.len() as int, v) {
                    let j = choose|j: int| 0 <= j < kept@.len() && #[trigger] kept@[j]@ == v;
                    if j < prev.len() {
                        assert(prev[j] == kept@[j]);
                        assert(prefix_has(prev, prev.len() as int, v));
                    }
                }
                if v != k@ && prefix_has(self.items@, i + 1, v) {
                    let j = choose|j: int| 0 <= j < i + 1 && #[trigger] self.items@[j]@ == v;
                    if j < i {
                        assert(prefix_has(self.items@, i as int, v));
                        assert(prefix_has(prev, prev.len() as int, v));
                        let m = choose|m: int| 0 <= m < prev.len() && #[trigger] prev[m]@ == v;
                        assert(kept@[m] == prev[m]);
                    } else {
                        assert(kept@[prev.len() as int]@ == v);
                    }
                }
            }
            i += 1;
        }
        self.items = kept;
        assert forall|v: K::V| self.has(v) == (old(self).has(v) && v != k@) by {
            assert(self.has(v) == prefix_has(self.items@, self.items@.len() as int, v));
            assert(old(self).has(v) == prefix_has(old(self).items@, old(self).items@.len() as int, v));
        }
        assert(self@ =~= old(self)@.remove(k@));
    }
}

/// Some element among the first `n` of `s` has view `v`.
pub open spec fn prefix_has<K: View>(s: Seq<K>, n: int, v: K::V) -> bool {
    exists|j: int| 0 <= j < n && #[trigger] s[j]@ == v
}

} // verus!
