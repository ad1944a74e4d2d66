//! The storage diff: the set of key-value changes a call sequence would apply
//! to the canonical key-value state store.

use vstd::prelude::*;
use vstd::std_specs::cmp::PartialEqSpec;

verus! {

/// The value side of a diff entry, as a mathematical value: `None` means the
/// key is deleted, `Some(v)` means it is set to `v`.
pub open spec fn opt_view(v: Option<Vec<u8>>) -> Option<Seq<u8>> {
    match v {
        Some(b) => Some(b@),
        None => None,
    }
}

/// The mapping described by a sequence of (key, optional value) writes, where
/// a later write to a key overrides an earlier one.
pub open spec fn pairs_to_map(s: Seq<(Vec<u8>, Option<Vec<u8>>)>) -> Map<
    Seq<u8>,
    Option<Seq<u8>>,
>
    decreases s.len(),
{
    if s.len() == 0 {
        Map::empty()
    } else {
        pairs_to_map(s.drop_last()).insert(s.last().0@, opt_view(s.last().1))
    }
}

/// A mapping from byte-string key to optional byte-string value. Absence of a
/// key means "unchanged from the base state"; a present key mapped to `None`
/// means "deleted"; a present key mapped to a value means "set". Keys are
/// unique.
pub struct StorageDiff {
    entries: Vec<(Vec<u8>, Option<Vec<u8>>)>,
}

impl StorageDiff {
    spec fn key_at(&self, i: int) -> Seq<u8> {
        self.entries[i].0@
    }

    spec fn val_at(&self, i: int) -> Option<Seq<u8>> {
        opt_view(self.entries[i].1)
    }

    /// Well-formed: no key occurs twice.
    pub closed spec fn wf(&self) -> bool {
        forall|i: int, j: int|
            0 <= i < j < self.entries.len() ==> self.key_at(i) != self.key_at(j)
    }

    /// Every index holds the (unique) binding for its key.
    proof fn lemma_view_at(&self, i: int)
        requires
            self.wf(),
            0 <= i < self.entries@.len(),
        ensures
            self@.dom().contains(self.key_at(i)),
            self@[self.key_at(i)] == self.val_at(i),
    {
        let k = self.key_at(i);
        assert(exists|j: int| 0 <= j < self.entries.len() && self.key_at(j) == k);
        let j = choose|j: int| 0 <= j < self.entries.len() && self.key_at(j) == k;
        assert(j == i);
    }

    /// The number of changed keys.
    pub closed spec fn spec_len(&self) -> nat {
        self.entries@.len()
    }

    /// The number of changed keys.
    pub fn num_entries(&self) -> (n: usize)
        ensures
            n == self.spec_len(),
            (n == 0) ==> self@ == Map::<Seq<u8>, Option<Seq<u8>>>::empty(),
    {
        proof {
            if self.entries@.len() == 0 {
                assert(self@ =~= Map::<Seq<u8>, Option<Seq<u8>>>::empty());
            }
        }
        self.entries.len()
    }

    /// An empty diff: no changes recorded.
    pub fn empty() -> (d: StorageDiff)
        ensures
            d.wf(),
            d@ == Map::<Seq<u8>, Option<Seq<u8>>>::empty(),
    {
        let d = StorageDiff { entries: Vec::new() };
        proof {
            assert(d@ =~= Map::<Seq<u8>, Option<Seq<u8>>>::empty());
        }
        d
    }

    /// The index of the entry holding `key`, if the diff records one.
    fn find_key(&self, key: &Vec<u8>) -> (r: Option<usize>)
        ensures
            match r {
                Some(i) => i < self.entries@.len() && self.key_at(i as int) == key@,
                None => forall|i: int|
                    0 <= i < self.entries@.len() ==> self.key_at(i) != key@,
            },
    {
        let mut j: usize = 0;
        while j < self.entries.len()
            invariant
                j <= self.entries@.len(),
                forall|i: int| 0 <= i < j ==> self.key_at(i) != key@,
            decreases self.entries@.len() - j,
        {
            if self.entries[j].0 == *key {
                proof {
                    assert(self.key_at(j as int) =~= key@);
                }
                return Some(j);
            }
            proof {
                if self.key_at(j as int) == key@ {
                    assert(self.entries[j as int].0.eq_spec(key));
                }
            }
            j = j + 1;
        }
        None
    }

    /// Records that `key` is changed to `value` (`None`: deleted), overriding
    /// any earlier write to the same key.
    pub fn set(&mut self, key: Vec<u8>, value: Option<Vec<u8>>)
        requires
            old(self).wf(),
        ensures
            final(self).wf(),
            final(self)@ == old(self)@.insert(key@, opt_view(value)),
    {
        let ghost pre = *old(self);
        let ghost tgt = pre@.insert(key@, opt_view(value));
        match self.find_key(&key) {
            Some(i) => {
                self.entries[i] = (key, value);
                proof {
                    assert forall|a: int| 0 <= a < self.entries@.len() implies self.key_at(a)
                        == pre.key_at(a) by {
                        if a != i as int {
                            assert(self.entries@[a] == pre.entries@[a]);
                        }
                    }
                    assert forall|a: int, b: int|
                        0 <= a < b < self.entries@.len() implies self.key_at(a)
                        != self.key_at(b) by {
                        assert(self.key_at(a) == pre.key_at(a));
                        assert(self.key_at(b) == pre.key_at(b));
                    }
                    assert(self.wf());
                    assert forall|k: Seq<u8>| self@.dom().contains(k) <==> tgt.dom().contains(
                        k,
                    ) by {
                        if self@.dom().contains(k) {
                            let a = choose|a: int|
                                0 <= a < self.entries.len() && self.key_at(a) == k;
                            assert(pre.key_at(a) == k);
                            pre.lemma_view_at(a);
                        }
                        if tgt.dom().contains(k) {
                            if k == key@ {
                                assert(self.key_at(i as int) == k);
                            } else {
                                let a = choose|a: int|
                                    0 <= a < pre.entries.len() && pre.key_at(a) == k;
                                assert(self.key_at(a) == k);
                            }
                        }
                    }
                    assert forall|k: Seq<u8>| self@.dom().contains(k) implies self@[k] == tgt[k] by {
                        if k == key@ {
                            self.lemma_view_at(i as int);
                            assert(self.val_at(i as int) == opt_view(value));
                        } else {
                            let a = choose|a: int|
                                0 <= a < self.entries.len() && self.key_at(a) == k;
                            self.lemma_view_at(a);
                            assert(a != i as int);
                            assert(pre.key_at(a) == k && pre.val_at(a) == self.val_at(a));
                            pre.lemma_view_at(a);
                        }
                    }
                    assert(self@ =~= tgt);
                }
            },
            None => {
                self.entries.push((key, value));
                proof {
                    let n = pre.entries@.len() as int;
                    assert forall|a: int| 0 <= a < n implies self.key_at(a) == pre.key_at(a)
                        && self.val_at(a) == pre.val_at(a) by {
                        assert(self.entries@[a] == pre.entries@[a]);
                    }
                    assert(self.key_at(n) == key@ && self.val_at(n) == opt_view(value));
                    assert forall|a: int, b: int|
                        0 <= a < b < self.entries@.len() implies self.key_at(a)
                        != self.key_at(b) by {
                        if b < n {
                            assert(self.key_at(a) == pre.key_at(a));
                            assert(self.key_at(b) == pre.key_at(b));
                        } else {
                            assert(self.key_at(a) == pre.key_at(a));
                            assert(pre.key_at(a) != key@);
                        }
                    }
                    assert(self.wf());
                    assert forall|k: Seq<u8>| self@.dom().contains(k) <==> tgt.dom().contains(
                        k,
                    ) by {
                        if self@.dom().contains(k) {
                            let a = choose|a: int|
                                0 <= a < self.entries.len() && self.key_at(a) == k;
                            if a < n {
                                assert(pre.key_at(a) == k);
                                pre.lemma_view_at(a);
                            }
                        }
                        if tgt.dom().contains(k) {
                            if k == key@ {
                                assert(self.key_at(n) == k);
                            } else {
                                let a = choose|a: int|
                                    0 <= a < pre.entries.len() && pre.key_at(a) == k;
                                assert(self.key_at(a) == k);
                            }
                        }
                    }
                    assert forall|k: Seq<u8>| self@.dom().contains(k) implies self@[k] == tgt[k] by {
                        if k == key@ {
                            self.lemma_view_at(n);
                        } else {
                            let a = choose|a: int|
                                0 <= a < self.entries.len() && self.key_at(a) == k;
                            self.lemma_view_at(a);
                            assert(a != n);
                            pre.lemma_view_at(a);
                        }
                    }
                    assert(self@ =~= tgt);
                }
            },
        }
    }

    /// Builds a diff from a sequence of (key, optional value) writes, a later
    /// write to a key overriding an earlier one.
    pub fn from_pairs(pairs: Vec<(Vec<u8>, Option<Vec<u8>>)>) -> (d: StorageDiff)
        ensures
            d.wf(),
            d@ == pairs_to_map(pairs@),
    {
        let ghost all = pairs@;
        let mut d = StorageDiff::empty();
        let mut rest = pairs;
        let ghost mut i: int = 0;
        while rest.len() > 0
            invariant
                d.wf(),
                0 <= i,
                i + rest@.len() == all.len(),
                rest@ == all.skip(i),
                d@ == pairs_to_map(all.take(i)),
            decreases rest@.len(),
        {
            let ghost prev_rest = rest@;
            let (key, value) = rest.remove(0);
            proof {
                assert(all.take(i + 1).drop_last() =~= all.take(i));
                assert(all.take(i + 1).last() == all[i]);
                assert(prev_rest[0] == all[i]);
                assert(prev_rest.subrange(1, prev_rest.len() as int) =~= all.skip(i + 1));
            }
            d.set(key, value);
            proof {
                i = i + 1;
            }
        }
        proof {
            assert(all.take(i) =~= all);
        }
        d
    }

    /// Hands the recorded changes out as (key, optional value) pairs: each
    /// pair is a binding of the mapping, every binding appears, and no key
    /// repeats. The order carries no meaning.
    pub fn to_pairs(self) -> (pairs: Vec<(Vec<u8>, Option<Vec<u8>>)>)
        requires
            self.wf(),
        ensures
            forall|i: int|
                0 <= i < pairs@.len() ==> #[trigger] self@.contains_pair(
                    pairs@[i].0@,
                    opt_view(pairs@[i].1),
                ),
            forall|k: Seq<u8>|
                self@.dom().contains(k) ==> exists|i: int|
                    0 <= i < pairs@.len() && #[trigger] pairs@[i].0@ == k,
            forall|i: int, j: int|
                0 <= i < j < pairs@.len() ==> pairs@[i].0@ != pairs@[j].0@,
    {
        proof {
            assert forall|i: int| 0 <= i < self.entries@.len() implies self@.contains_pair(
                self.entries@[i].0@,
                opt_view(self.entries@[i].1),
            ) by {
                self.lemma_view_at(i);
            }
            assert forall|k: Seq<u8>| self@.dom().contains(k) implies exists|i: int|
                0 <= i < self.entries@.len() && #[trigger] self.entries@[i].0@ == k by {
                let a = choose|a: int| 0 <= a < self.entries.len() && self.key_at(a) == k;
                assert(self.entries@[a].0@ == k);
            }
            assert forall|i: int, j: int|
                0 <= i < j < self.entries@.len() implies self.entries@[i].0@
                != self.entries@[j].0@ by {
                assert(self.key_at(i) == self.entries@[i].0@);
                assert(self.key_at(j) == self.entries@[j].0@);
            }
        }
        self.entries
    }
}

/// A later write to a key overrides an earlier one: writing `k` to `v1` and
/// then to `v2` leaves the mapping exactly as if only `v2` had been written.
pub proof fn lemma_later_write_wins(
    m: Map<Seq<u8>, Option<Seq<u8>>>,
    k: Seq<u8>,
    v1: Option<Seq<u8>>,
    v2: Option<Seq<u8>>,
)
    ensures
        m.insert(k, v1).insert(k, v2) == m.insert(k, v2),
{
    assert(m.insert(k, v1).insert(k, v2) =~= m.insert(k, v2));
}

impl View for StorageDiff {
    type V = Map<Seq<u8>, Option<Seq<u8>>>;

    closed spec fn view(&self) -> Map<Seq<u8>, Option<Seq<u8>>> {
        Map::new(
            |k: Seq<u8>|
                exists|i: int| 0 <= i < self.entries.len() && self.key_at(i) == k,
            |k: Seq<u8>|
                self.val_at(
                    choose|i: int| 0 <= i < self.entries.len() && self.key_at(i) == k,
                ),
        )
    }
}

} // verus!
