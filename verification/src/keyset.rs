//! A small set of keys, stored as a duplicate-free vector so that its
//! contents can also be handed out as a list in a definite order (for
//! example to the synthetic injector, which must press or release each
//! latched key exactly once per pass).

use vstd::prelude::*;

use crate::keys::KeyId;

verus! {

/// A set of `KeyId` values. The abstract value of a `KeySet` is the
/// mathematical set of keys it holds.
pub struct KeySet {
    keys: Vec<KeyId>,
}

impl View for KeySet {
    type V = Set<KeyId>;

    closed spec fn view(&self) -> Set<KeyId> {
        self.keys@.to_set()
    }
}

impl KeySet {
    #[verifier::type_invariant]
    spec fn wf(self) -> bool {
        self.keys@.no_duplicates()
    }

    /// The empty set.
    pub fn new() -> (r: KeySet)
        ensures
            r@ == Set::<KeyId>::empty(),
    {
        let r = KeySet { keys: Vec::new() };
        proof {
            assert(r@ =~= Set::<KeyId>::empty());
        }
        r
    }

    /// Whether `key` is in the set.
    pub fn contains(&self, key: KeyId) -> (r: bool)
        ensures
            r == self@.contains(key),
    {
        let n = self.keys.len();
        let mut i: usize = 0;
        while i < n
            invariant
                i <= n,
                n == self.keys.len(),
                forall|j: int| 0 <= j < i ==> self.keys@[j] != key,
            decreases n - i,
        {
            if self.keys[i] == key {
                assert(self.keys@.contains(key));
                return true;
            }
            i += 1;
        }
        assert(!self.keys@.contains(key));
        false
    }

    /// Adds `key`; reports whether it was new.
    pub fn insert(&mut self, key: KeyId) -> (was_new: bool)
        ensures
            final(self)@ == old(self)@.insert(key),
            was_new == !old(self)@.contains(key),
    {
        proof {
            use_type_invariant(&*self);
        }
        if self.contains(key) {
            proof {
                assert(old(self)@.insert(key) =~= old(self)@);
            }
            false
        } else {
            let mut ks: Vec<KeyId> = Vec::new();
            core::mem::swap(&mut ks, &mut self.keys);
            ks.push(key);
            proof {
                let s0 = old(self).keys@;
                assert(ks@.drop_last() =~= s0);
                assert forall|a: KeyId| ks@.to_set().contains(a) implies s0.to_set().insert(
                    key,
                ).contains(a) by {
                    let j = choose|j: int| 0 <= j < ks@.len() && ks@[j] == a;
                    if j < s0.len() {
                        assert(s0[j] == a);
                        assert(s0.contains(a));
                    }
                }
                assert forall|a: KeyId| s0.to_set().insert(key).contains(a) implies ks
                    @.to_set().contains(a) by {
                    if a == key {
                        assert(ks@[s0.len() as int] == a);
                        assert(ks@.contains(a));
                    } else {
                        let j = choose|j: int| 0 <= j < s0.len() && s0[j] == a;
                        assert(ks@[j] == a);
                        assert(ks@.contains(a));
                    }
                }
                assert(ks@.to_set() =~= old(self)@.insert(key));
            }
            self.keys = ks;
            true
        }
    }

    /// Removes `key`; reports whether it was present.
    pub fn remove(&mut self, key: KeyId) -> (was_present: bool)
        ensures
            final(self)@ == old(self)@.remove(key),
            was_present == old(self)@.contains(key),
    {
        proof {
            use_type_invariant(&*self);
        }
        let mut ks: Vec<KeyId> = Vec::new();
        core::mem::swap(&mut ks, &mut self.keys);
        let ghost s = ks@;
        let n = ks.len();
        let mut i: usize = 0;
        while i < n
            invariant
                i <= n,
                n == ks.len(),
                ks@ == s,
                s == old(self).keys@,
                s.no_duplicates(),
                forall|j: int| 0 <= j < i ==> s[j] != key,
            decreases n - i,
        {
            if ks[i] == key {
                ks.remove(i);
                proof {
                    lemma_remove_unique_occurrence(s, i as int, key);
                    assert(ks@.to_set() =~= s.to_set().remove(key));
                }
                self.keys = ks;
                return true;
            }
            i += 1;
        }
        proof {
            assert(!s.contains(key));
            assert(s.to_set() =~= s.to_set().remove(key));
        }
        self.keys = ks;
        false
    }

    /// Empties the set.
    pub fn clear(&mut self)
        ensures
            final(self)@ == Set::<KeyId>::empty(),
    {
        self.keys = Vec::new();
        proof {
            assert(self@ =~= Set::<KeyId>::empty());
        }
    }

    /// Empties the set and returns its previous contents, in one move.
    pub fn take(&mut self) -> (r: KeySet)
        ensures
            r@ == old(self)@,
            final(self)@ == Set::<KeyId>::empty(),
    {
        proof {
            use_type_invariant(&*self);
        }
        let mut ks: Vec<KeyId> = Vec::new();
        core::mem::swap(&mut ks, &mut self.keys);
        proof {
            assert(self@ =~= Set::<KeyId>::empty());
        }
        KeySet { keys: ks }
    }

    /// The keys of the set as a duplicate-free list.
    pub fn to_vec(&self) -> (r: Vec<KeyId>)
        ensures
            r@.to_set() == self@,
            r@.no_duplicates(),
    {
        proof {
            use_type_invariant(&*self);
        }
        let n = self.keys.len();
        let mut out: Vec<KeyId> = Vec::new();
        let mut i: usize = 0;
        while i < n
            invariant
                i <= n,
                n == self.keys.len(),
                out@ == self.keys@.subrange(0, i as int),
            decreases n - i,
        {
            out.push(self.keys[i]);
            i += 1;
        }
        proof {
            assert(out@ =~= self.keys@);
        }
        out
    }

    /// How many keys the set holds.
    pub fn len(&self) -> (r: usize)
        ensures
            r == self@.len(),
    {
        proof {
            use_type_invariant(&*self);
            self.keys@.unique_seq_to_set();
        }
        self.keys.len()
    }

    /// Whether the set is empty.
    pub fn is_empty(&self) -> (r: bool)
        ensures
            r <==> self@ =~= Set::<KeyId>::empty(),
    {
        proof {
            use_type_invariant(&*self);
        }
        if self.keys.len() == 0 {
            proof {
                assert(self@ =~= Set::<KeyId>::empty());
            }
            true
        } else {
            proof {
                assert(self.keys@.contains(self.keys@[0]));
                assert(self@.contains(self.keys@[0]));
            }
            false
        }
    }
}

/// Removing the only occurrence of `key` (at index `i`) from a
/// duplicate-free sequence keeps it duplicate-free, and its set of
/// elements loses exactly `key`.
proof fn lemma_remove_unique_occurrence(s: Seq<KeyId>, i: int, key: KeyId)
    requires
        s.no_duplicates(),
        0 <= i < s.len(),
        s[i] == key,
    ensures
        s.remove(i).no_duplicates(),
        s.remove(i).to_set() =~= s.to_set().remove(key),
{
    let r = s.remove(i);
    assert forall|a: KeyId| r.to_set().contains(a) implies s.to_set().contains(a) && a
        != key by {
        let j = choose|j: int| 0 <= j < r.len() && r[j] == a;
        if j < i {
            assert(s[j] == a);
        } else {
            assert(s[j + 1] == a);
        }
    }
    assert forall|a: KeyId| s.to_set().contains(a) && a != key implies r.to_set().contains(
        a,
    ) by {
        let j = choose|j: int| 0 <= j < s.len() && s[j] == a;
        if j < i {
            assert(r[j] == a);
            assert(r.contains(a));
        } else {
            assert(j > i);
            assert(r[j - 1] == a);
            assert(r.contains(a));
        }
    }
}

} // verus!
