//! Associations from text to values, kept in the order in which keys first came.
use vstd::prelude::*;

use crate::text::{same_text, texts};

verus! {

/// The association that a list of entries spells; a later entry overrides an earlier one.
pub open spec fn association<V>(s: Seq<(Seq<char>, V)>) -> Map<Seq<char>, V>
    decreases s.len(),
{
    if s.len() == 0 {
        Map::empty()
    } else {
        association(s.drop_last()).insert(s.last().0, s.last().1)
    }
}

/// No key occurs twice.
pub open spec fn distinct_keys<V>(s: Seq<(Seq<char>, V)>) -> bool {
    forall|i: int, j: int| 0 <= i < j < s.len() ==> (#[trigger] s[i]).0 != (#[trigger] s[j]).0
}

/// A key is bound exactly where an entry holds it, and to that entry's value.
pub proof fn association_looks_up<V>(s: Seq<(Seq<char>, V)>)
    requires
        distinct_keys(s),
    ensures
        forall|i: int| 0 <= i < s.len() ==> association(s).contains_key((#[trigger] s[i]).0)
            && association(s)[s[i].0] == s[i].1,
        forall|k: Seq<char>| #[trigger] association(s).contains_key(k) ==> exists|i: int|
            0 <= i < s.len() && (#[trigger] s[i]).0 == k,
        association(s).dom().finite(),
        association(s).len() == s.len(),
    decreases s.len(),
{
    if s.len() > 0 {
        let t = s.drop_last();
        association_looks_up(t);
        let n = s.len() - 1;
        assert(!association(t).contains_key(s[n].0)) by {
            if association(t).contains_key(s[n].0) {
                let i = choose|i: int| 0 <= i < t.len() && (#[trigger] t[i]).0 == s[n].0;
                assert(s[i].0 == s[n].0);
            }
        }
        assert forall|i: int| 0 <= i < s.len() implies association(s).contains_key((#[trigger] s[i]).0)
            && association(s)[s[i].0] == s[i].1 by {
            if i < n {
                assert(t[i] == s[i]);
            }
        }
        assert forall|k: Seq<char>| #[trigger] association(s).contains_key(k) implies exists|i: int|
            0 <= i < s.len() && (#[trigger] s[i]).0 == k by {
            if k == s[n].0 {
                assert(s[n].0 == k);
            } else {
                assert(association(t).contains_key(k));
                let i = choose|i: int| 0 <= i < t.len() && (#[trigger] t[i]).0 == k;
                assert(s[i].0 == k);
            }
        }
    }
}

/// Values by textual key.
pub struct Table<V> {
    slots: Vec<(String, V)>,
}

impl<V> View for Table<V> {
    type V = Map<Seq<char>, V>;

    closed spec fn view(&self) -> Map<Seq<char>, V> {
        association(self.entries())
    }
}

impl<V> Table<V> {
    /// The entries in the order in which their keys first came.
    pub closed spec fn entries(&self) -> Seq<(Seq<char>, V)> {
        Seq::new(self.slots@.len(), |i: int| (self.slots@[i].0@, self.slots@[i].1))
    }

    /// No key has two entries.
    pub closed spec fn wf(&self) -> bool {
        distinct_keys(self.entries())
    }

    /// The entries and the association say the same.
    pub open spec fn spelled(&self) -> bool {
        &&& distinct_keys(self.entries())
        &&& self@ == association(self.entries())
        &&& self@.dom().finite()
        &&& self@.len() == self.entries().len()
        &&& forall|i: int| 0 <= i < self.entries().len() ==> self@.contains_key((#[trigger] self.entries()[i]).0)
                && self@[self.entries()[i].0] == self.entries()[i].1
        &&& forall|k: Seq<char>| #[trigger] self@.contains_key(k) ==> exists|i: int|
                0 <= i < self.entries().len() && (#[trigger] self.entries()[i]).0 == k
    }

    pub fn new() -> (r: Self)
        ensures
            r.wf(),
            r.entries() == Seq::<(Seq<char>, V)>::empty(),
            r@ == Map::<Seq<char>, V>::empty(),
    {
        let r = Table { slots: Vec::new() };
        assert(r.entries() =~= Seq::<(Seq<char>, V)>::empty());
        r
    }

    /// The number of keys.
    pub fn len(&self) -> (r: usize)
        requires
            self.wf(),
        ensures
            r == self.entries().len(),
            r == self@.len(),
            self.spelled(),
    {
        proof {
            association_looks_up(self.entries());
        }
        self.slots.len()
    }

    /// What well-formedness means for the association.
    pub proof fn wf_spells(&self)
        requires
            self.wf(),
        ensures
            self.spelled(),
    {
        association_looks_up(self.entries());
    }

    /// The key of the entry at `i`.
    pub fn key_at(&self, i: usize) -> (r: &String)
        requires
            i < self.entries().len(),
        ensures
            r@ == self.entries()[i as int].0,
    {
        &self.slots[i].0
    }

    /// The value of the entry at `i`.
    pub fn value_at(&self, i: usize) -> (r: &V)
        requires
            i < self.entries().len(),
        ensures
            *r == self.entries()[i as int].1,
    {
        &self.slots[i].1
    }

    /// The keys, each once.
    pub fn keys(&self) -> (r: Vec<String>)
        requires
            self.wf(),
        ensures
            texts(r@).no_duplicates(),
            texts(r@).to_set() == self@.dom(),
    {
        let n: usize = self.len();
        let ghost e = self.entries();
        let mut out: Vec<String> = Vec::new();
        let mut i: usize = 0;
        while i < n
            invariant
                i <= n,
                n == e.len(),
                e == self.entries(),
                out@.len() == i,
                forall|j: int| 0 <= j < i ==> (#[trigger] out@[j])@ == e[j].0,
            decreases n - i,
        {
            out.push(self.key_at(i).clone());
            i = i + 1;
        }
        proof {
            let s = texts(out@);
            assert forall|a: int, b: int| 0 <= a < n && 0 <= b < n && a != b implies s[a] != s[b] by {
                assert(out@[a]@ == e[a].0 && out@[b]@ == e[b].0);
                if a < b {
                    assert(e[a].0 != e[b].0);
                } else {
                    assert(e[b].0 != e[a].0);
                }
            }
            assert forall|x: Seq<char>| s.to_set().contains(x) <==> self@.dom().contains(x) by {
                if s.contains(x) {
                    let j = choose|j: int| 0 <= j < s.len() && s[j] == x;
                    assert(out@[j]@ == e[j].0);
                    assert(self@.contains_key(e[j].0));
                }
                if self@.contains_key(x) {
                    let k = choose|k: int| 0 <= k < e.len() && (#[trigger] e[k]).0 == x;
                    assert(out@[k]@ == x);
                    assert(s[k] == x);
                }
            }
            assert(s.to_set() =~= self@.dom());
        }
        out
    }

    fn find(&self, k: &str) -> (r: Option<usize>)
        requires
            self.wf(),
        ensures
            match r {
                Some(i) => i < self.entries().len() && self.entries()[i as int].0 == k@,
                None => !self@.contains_key(k@),
            },
    {
        let mut i: usize = 0;
        while i < self.slots.len()
            invariant
                self.wf(),
                i <= self.slots@.len(),
                forall|j: int| 0 <= j < i ==> (#[trigger] self.entries()[j]).0 != k@,
            decreases self.slots@.len() - i,
        {
            if same_text(self.slots[i].0.as_str(), k) {
                return Some(i);
            }
            i = i + 1;
        }
        proof {
            association_looks_up(self.entries());
        }
        None
    }

    pub fn contains_key(&self, k: &str) -> (r: bool)
        requires
            self.wf(),
        ensures
            r == self@.contains_key(k@),
    {
        proof {
            association_looks_up(self.entries());
        }
        self.find(k).is_some()
    }

    pub fn get(&self, k: &str) -> (r: Option<&V>)
        requires
            self.wf(),
        ensures
            match r {
                Some(v) => self@.contains_key(k@) && *v == self@[k@],
                None => !self@.contains_key(k@),
            },
    {
        proof {
            association_looks_up(self.entries());
        }
        match self.find(k) {
            Some(i) => Some(&self.slots[i].1),
            None => None,
        }
    }

    /// Binds `k` to `v`, in place of what it was bound to.
    pub fn insert(&mut self, k: String, v: V)
        requires
            old(self).wf(),
        ensures
            final(self).wf(),
            final(self)@ == old(self)@.insert(k@, v),
            !old(self)@.contains_key(k@) ==> final(self).entries() == old(self).entries().push((k@, v)),
    {
        let ghost before = self.entries();
        proof {
            association_looks_up(self.entries());
        }
        match self.find(k.as_str()) {
            Some(i) => {
                self.slots.set(i, (k, v));
                let ghost after = self.entries();
                proof {
                    assert(after =~= before.update(i as int, (k@, v)));
                    assert(distinct_keys(after));
                    association_looks_up(after);
                    association_looks_up(before);
                    same_association(before, after, i as int);
                }
            },
            None => {
                self.slots.push((k, v));
                proof {
                    let after = self.entries();
                    assert(after =~= before.push((k@, v)));
                    assert(after.drop_last() =~= before);
                    assert(distinct_keys(after)) by {
                        assert forall|i: int, j: int| 0 <= i < j < after.len() implies
                            (#[trigger] after[i]).0 != (#[trigger] after[j]).0 by {
                            if j == before.len() {
                                assert(association(before).contains_key(before[i].0));
                            }
                        }
                    }
                }
            },
        }
    }

    /// Unbinds `k` and hands out what it was bound to.
    pub fn remove(&mut self, k: &str) -> (r: Option<V>)
        requires
            old(self).wf(),
        ensures
            final(self).wf(),
            final(self)@ == old(self)@.remove(k@),
            match r {
                Some(v) => old(self)@.contains_key(k@) && v == old(self)@[k@],
                None => !old(self)@.contains_key(k@) && final(self).entries() == old(self).entries(),
            },
    {
        let ghost before = self.entries();
        proof {
            association_looks_up(self.entries());
        }
        match self.find(k) {
            Some(i) => {
                let slot: (String, V) = self.slots.remove(i);
                proof {
                    let after = self.entries();
                    assert(after =~= before.remove(i as int));
                    assert(distinct_keys(after));
                    association_looks_up(after);
                    association_looks_up(before);
                    removed_association(before, i as int);
                }
                Some(slot.1)
            },
            None => {
                assert(self@ =~= self@.remove(k@));
                None
            },
        }
    }
}

proof fn same_association<V>(before: Seq<(Seq<char>, V)>, after: Seq<(Seq<char>, V)>, i: int)
    requires
        0 <= i < before.len(),
        distinct_keys(before),
        distinct_keys(after),
        after == before.update(i, after[i]),
        after[i].0 == before[i].0,
    ensures
        association(after) == association(before).insert(after[i].0, after[i].1),
{
    association_looks_up(before);
    association_looks_up(after);
    let want = association(before).insert(after[i].0, after[i].1);
    assert forall|k: Seq<char>| association(after).contains_key(k) == want.contains_key(k) by {
        if association(after).contains_key(k) {
            let j = choose|j: int| 0 <= j < after.len() && (#[trigger] after[j]).0 == k;
            assert(before[j].0 == k);
        }
        if want.contains_key(k) && k != after[i].0 {
            let j = choose|j: int| 0 <= j < before.len() && (#[trigger] before[j]).0 == k;
            assert(after[j].0 == k);
        }
        assert(association(after).contains_key(after[i].0));
    }
    assert forall|k: Seq<char>| association(after).contains_key(k) implies association(after)[k] == want[k] by {
        let j = choose|j: int| 0 <= j < after.len() && (#[trigger] after[j]).0 == k;
        if j != i {
            assert(before[j] == after[j]);
        }
    }
    assert(association(after) =~= want);
}

proof fn removed_association<V>(before: Seq<(Seq<char>, V)>, i: int)
    requires
        0 <= i < before.len(),
        distinct_keys(before),
        distinct_keys(before.remove(i)),
    ensures
        association(before.remove(i)) == association(before).remove(before[i].0),
{
    let after = before.remove(i);
    association_looks_up(before);
    association_looks_up(after);
    let want = association(before).remove(before[i].0);
    assert forall|k: Seq<char>| association(after).contains_key(k) == want.contains_key(k) by {
        if association(after).contains_key(k) {
            let j = choose|j: int| 0 <= j < after.len() && (#[trigger] after[j]).0 == k;
            let j0 = if j < i { j } else { j + 1 };
            assert(before[j0] == after[j]);
        }
        if want.contains_key(k) {
            let j = choose|j: int| 0 <= j < before.len() && (#[trigger] before[j]).0 == k;
            let j1 = if j < i { j } else { j - 1 };
            assert(after[j1] == before[j]);
        }
    }
    assert forall|k: Seq<char>| association(after).contains_key(k) implies association(after)[k] == want[k] by {
        let j = choose|j: int| 0 <= j < after.len() && (#[trigger] after[j]).0 == k;
        let j0 = if j < i { j } else { j + 1 };
        assert(before[j0] == after[j]);
    }
    assert(association(after) =~= want);
}

} // verus!
