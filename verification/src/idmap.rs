//! An association table keyed by resource id, viewed as a
//! mathematical map from id characters to values.  Stands in for a
//! hash map wherever a runner keeps per-dependency bookkeeping; the
//! dependency sets are small and declared once, so a scan is enough.

use vstd::prelude::*;

use crate::ids::TaskId;
use crate::task::all_values_true;

verus! {

pub struct IdMap<T> {
    entries: Vec<(TaskId, T)>,
}

impl<T> IdMap<T> {
    /// No two entries share an id.
    pub closed spec fn wf(&self) -> bool {
        forall|i: int, j: int|
            0 <= i < j < self.entries@.len() ==> self.entries@[i].0@ != self.entries@[j].0@
    }

    spec fn has_key(&self, k: Seq<char>) -> bool {
        exists|i: int| 0 <= i < self.entries@.len() && self.entries@[i].0@ == k
    }

    spec fn key_at(&self, k: Seq<char>) -> int {
        choose|i: int| 0 <= i < self.entries@.len() && self.entries@[i].0@ == k
    }

    proof fn lemma_key_at(&self, k: Seq<char>, i: int)
        requires
            self.wf(),
            0 <= i < self.entries@.len(),
            self.entries@[i].0@ == k,
        ensures
            self.has_key(k),
            self.key_at(k) == i,
    {
        assert(self.has_key(k));
        let j = self.key_at(k);
        assert(0 <= j < self.entries@.len() && self.entries@[j].0@ == k);
        if i < j {
            assert(self.entries@[i].0@ != self.entries@[j].0@);
        } else if j < i {
            assert(self.entries@[j].0@ != self.entries@[i].0@);
        }
    }

    pub fn new() -> (r: Self)
        ensures
            r.wf(),
            r@ == Map::<Seq<char>, T>::empty(),
    {
        let r = IdMap { entries: Vec::new() };
        proof {
            assert(r@ =~= Map::<Seq<char>, T>::empty());
        }
        r
    }

    /// Looks the id up; `None` exactly when the id is not a key.
    pub fn get(&self, id: &TaskId) -> (r: Option<&T>)
        requires
            self.wf(),
        ensures
            match r {
                Some(v) => self@.dom().contains(id@) && *v == self@[id@],
                None => !self@.dom().contains(id@),
            },
    {
        let n = self.entries.len();
        let mut i: usize = 0;
        while i < n
            invariant
                self.wf(),
                n == self.entries@.len(),
                i <= n,
                forall|j: int| 0 <= j < i ==> self.entries@[j].0@ != id@,
            decreases n - i,
        {
            if self.entries[i].0.same_as(id) {
                proof {
                    self.lemma_key_at(id@, i as int);
                }
                return Some(&self.entries[i].1);
            }
            i += 1;
        }
        assert(!self.has_key(id@));
        None
    }

    /// Whether the id is a key.
    pub fn contains(&self, id: &TaskId) -> (r: bool)
        requires
            self.wf(),
        ensures
            r == self@.dom().contains(id@),
    {
        self.get(id).is_some()
    }

    /// Inserts the value under the id, replacing any prior value.
    pub fn set(&mut self, id: TaskId, value: T)
        requires
            old(self).wf(),
        ensures
            final(self).wf(),
            final(self)@ == old(self)@.insert(id@, value),
    {
        let ghost pre = *self;
        let n = self.entries.len();
        let mut i: usize = 0;
        while i < n
            invariant
                *self == pre,
                pre == *old(self),
                pre.wf(),
                n == self.entries@.len(),
                i <= n,
                forall|j: int| 0 <= j < i ==> self.entries@[j].0@ != id@,
            decreases n - i,
        {
            if self.entries[i].0.same_as(&id) {
                proof {
                    pre.lemma_key_at(id@, i as int);
                }
                let ghost k = id@;
                self.entries[i] = (id, value);
                proof {
                    assert forall|a: int, b: int|
                        0 <= a < b < self.entries@.len() implies self.entries@[a].0@
                        != self.entries@[b].0@ by {
                        assert(pre.entries@[a].0@ != pre.entries@[b].0@);
                    }
                    assert forall|q: Seq<char>| self.has_key(q) implies pre.has_key(q)
                        && self@[q] == pre@.insert(k, value)[q] by {
                        let w = self.key_at(q);
                        assert(0 <= w < self.entries@.len() && self.entries@[w].0@ == q);
                        if w == i {
                            assert(pre.entries@[w].0@ == k);
                        }
                        assert(pre.entries@[w].0@ == q);
                        pre.lemma_key_at(q, w);
                        self.lemma_key_at(q, w);
                    }
                    assert forall|q: Seq<char>| pre.has_key(q) implies self.has_key(q) by {
                        let w = pre.key_at(q);
                        assert(self.entries@[w].0@ == q || q == k);
                        if q == k {
                            assert(self.entries@[i as int].0@ == q);
                        }
                    }
                    assert(self@ =~= pre@.insert(k, value));
                }
                return ;
            }
            i += 1;
        }
        let ghost k = id@;
        self.entries.push((id, value));
        proof {
            assert forall|a: int, b: int|
                0 <= a < b < self.entries@.len() implies self.entries@[a].0@
                != self.entries@[b].0@ by {
                if b < self.entries@.len() - 1 {
                    assert(pre.entries@[a].0@ != pre.entries@[b].0@);
                } else {
                    assert(self.entries@[b].0@ == k);
                    assert(pre.entries@[a].0@ != k);
                }
            }
            assert forall|q: Seq<char>| self.has_key(q) implies pre.has_key(q) || q == k by {
                let w = self.key_at(q);
                if w < self.entries@.len() - 1 {
                    assert(pre.entries@[w].0@ == q);
                }
            }
            assert forall|q: Seq<char>| self.has_key(q) && q != k implies self@[q] == pre@[q] by {
                let w = self.key_at(q);
                assert(0 <= w < self.entries@.len() && self.entries@[w].0@ == q);
                assert(w < self.entries@.len() - 1);
                pre.lemma_key_at(q, w);
                self.lemma_key_at(q, w);
            }
            assert forall|q: Seq<char>| pre.has_key(q) implies self.has_key(q) by {
                let w = pre.key_at(q);
                assert(0 <= w < pre.entries@.len() && pre.entries@[w].0@ == q);
                assert(self.entries@[w].0@ == q);
            }
            assert(self.has_key(k)) by {
                assert(self.entries@[self.entries@.len() - 1].0@ == k);
            }
            assert(self@[k] == value) by {
                self.lemma_key_at(k, self.entries@.len() - 1);
            }
            assert(self@ =~= pre@.insert(k, value));
        }
    }

    /// Replaces the value under the id only if the id is already a
    /// key; reports whether it was.
    pub fn set_existing(&mut self, id: &TaskId, value: T) -> (found: bool)
        requires
            old(self).wf(),
        ensures
            final(self).wf(),
            found == old(self)@.dom().contains(id@),
            found ==> final(self)@ == old(self)@.insert(id@, value),
            !found ==> *final(self) == *old(self),
    {
        if self.contains(id) {
            let key = id.clone();
            self.set(key, value);
            true
        } else {
            false
        }
    }

    /// Removes the id's entry, if any.
    pub fn remove(&mut self, id: &TaskId)
        requires
            old(self).wf(),
        ensures
            final(self).wf(),
            final(self)@ == old(self)@.remove(id@),
    {
        let ghost pre = *self;
        let n = self.entries.len();
        let mut i: usize = 0;
        while i < n
            invariant
                *self == pre,
                pre == *old(self),
                pre.wf(),
                n == self.entries@.len(),
                i <= n,
                forall|j: int| 0 <= j < i ==> self.entries@[j].0@ != id@,
            decreases n - i,
        {
            if self.entries[i].0.same_as(id) {
                proof {
                    pre.lemma_key_at(id@, i as int);
                }
                let ghost k = id@;
                self.entries.remove(i);
                proof {
                    assert forall|a: int, b: int|
                        0 <= a < b < self.entries@.len() implies self.entries@[a].0@
                        != self.entries@[b].0@ by {
                        let pa: int = if a < i { a } else { a + 1 };
                        let pb: int = if b < i { b } else { b + 1 };
                        assert(pre.entries@[pa].0@ != pre.entries@[pb].0@);
                    }
                    assert forall|q: Seq<char>| self.has_key(q) implies pre.has_key(q) && q != k
                        && self@[q] == pre@[q] by {
                        let w = self.key_at(q);
                        assert(0 <= w < self.entries@.len() && self.entries@[w].0@ == q);
                        let pw: int = if w < i { w } else { w + 1 };
                        assert(pre.entries@[pw].0@ == q);
                        pre.lemma_key_at(q, pw);
                        self.lemma_key_at(q, w);
                    }
                    assert forall|q: Seq<char>| pre.has_key(q) && q != k implies self.has_key(
                        q,
                    ) by {
                        let w = pre.key_at(q);
                        if w < i {
                            assert(self.entries@[w].0@ == q);
                        } else if w > i {
                            assert(self.entries@[w - 1].0@ == q);
                        }
                    }
                    assert(self@ =~= pre@.remove(k));
                }
                return ;
            }
            i += 1;
        }
        proof {
            assert(!pre.has_key(id@));
            assert(self@ =~= pre@.remove(id@));
        }
    }
}

impl<T> View for IdMap<T> {
    type V = Map<Seq<char>, T>;

    closed spec fn view(&self) -> Map<Seq<char>, T> {
        Map::new(|k: Seq<char>| self.has_key(k), |k: Seq<char>| self.entries@[self.key_at(k)].1)
    }
}

impl IdMap<bool> {
    /// Whether every value is `true`; vacuously so when empty.
    pub fn all_true(&self) -> (r: bool)
        requires
            self.wf(),
        ensures
            r == all_values_true(self@),
    {
        let n = self.entries.len();
        let mut i: usize = 0;
        while i < n
            invariant
                self.wf(),
                n == self.entries@.len(),
                i <= n,
                forall|j: int| 0 <= j < i ==> self.entries@[j].1,
            decreases n - i,
        {
            if !self.entries[i].1 {
                proof {
                    let k0 = self.entries@[i as int].0@;
                    self.lemma_key_at(k0, i as int);
                    assert(self@.dom().contains(k0) && !self@[k0]);
                }
                return false;
            }
            i += 1;
        }
        proof {
            assert forall|k: Seq<char>| self@.dom().contains(k) implies self@[k] by {
                assert(self.has_key(k));
                let w = self.key_at(k);
                assert(0 <= w < self.entries@.len() && self.entries@[w].0@ == k);
                assert(self@[k] == self.entries@[w].1);
            }
        }
        true
    }
}

} // verus!
