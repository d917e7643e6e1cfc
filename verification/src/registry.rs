//! A keyed collection enforcing unique string names, used identically for
//! wallets and for signers: insertion fails on a taken name, removal and
//! lookup fail on an absent one.
use vstd::prelude::*;

use crate::errors::Error;

verus! {

/// One named entry of a registry.
pub struct Entry<T> {
    pub name: String,
    pub value: T,
}

/// A mapping from unique names to entities, kept in insertion order.
pub struct Registry<T> {
    entries: Vec<Entry<T>>,
}

impl<T> Registry<T> {
    /// The entries as (name, value) pairs, in insertion order.
    pub closed spec fn spec_entries(&self) -> Seq<(Seq<char>, T)> {
        self.entries@.map(|i: int, e: Entry<T>| (e.name@, e.value))
    }

    pub closed spec fn holds_at(&self, k: Seq<char>, i: int) -> bool {
        0 <= i < self.entries@.len() && self.entries@[i].name@ == k
    }

    pub closed spec fn contains_spec(&self, k: Seq<char>) -> bool {
        exists|i: int| self.holds_at(k, i)
    }

    pub closed spec fn idx_of(&self, k: Seq<char>) -> int {
        choose|i: int| self.holds_at(k, i)
    }

    /// No two entries share a name.
    pub closed spec fn wf(&self) -> bool {
        forall|i: int, j: int|
            0 <= i < j < self.entries@.len() ==> self.entries@[i].name@ != self.entries@[j].name@
    }

    /// The registry seen as a mathematical map from names to values.
    pub closed spec fn as_map(&self) -> Map<Seq<char>, T> {
        Map::new(
            |k: Seq<char>| self.contains_spec(k),
            |k: Seq<char>| self.entries@[self.idx_of(k)].value,
        )
    }

    pub proof fn lemma_idx_unique(&self, k: Seq<char>, i: int)
        requires
            self.wf(),
            self.holds_at(k, i),
        ensures
            self.idx_of(k) == i,
    {
        let j = self.idx_of(k);
        assert(self.holds_at(k, j));
        if i < j {
            assert(self.entries@[i].name@ != self.entries@[j].name@);
        } else if j < i {
            assert(self.entries@[j].name@ != self.entries@[i].name@);
        }
    }

    pub fn new() -> (r: Registry<T>)
        ensures
            r.wf(),
            r.as_map() =~= Map::<Seq<char>, T>::empty(),
            r.spec_entries() =~= Seq::<(Seq<char>, T)>::empty(),
    {
        Registry { entries: Vec::new() }
    }

    pub fn len(&self) -> (n: usize)
        ensures
            n == self.spec_entries().len(),
    {
        self.entries.len()
    }

    /// Whether `name` is registered.
    pub fn contains_name(&self, name: &String) -> (b: bool)
        ensures
            b == self.as_map().dom().contains(name@),
    {
        let n = self.entries.len();
        let mut i: usize = 0;
        while i < n
            invariant
                n == self.entries@.len(),
                0 <= i <= n,
                forall|j: int| 0 <= j < i ==> self.entries@[j].name@ != name@,
            decreases n - i,
        {
            if self.entries[i].name == *name {
                proof {
                    assert(self.holds_at(name@, i as int));
                }
                return true;
            }
            i += 1;
        }
        proof {
            lemma_no_witness(self, name@);
        }
        false
    }

    /// Inserts `value` under `name`; fails with `Conflict` if the name is
    /// already registered, leaving the registry unchanged.
    pub fn insert(&mut self, name: String, value: T) -> (r: Result<(), Error>)
        requires
            old(self).wf(),
        ensures
            final(self).wf(),
            match r {
                Ok(()) => {
                    &&& !old(self).as_map().dom().contains(name@)
                    &&& final(self).as_map() == old(self).as_map().insert(name@, value)
                    &&& final(self).spec_entries() == old(self).spec_entries().push((name@, value))
                },
                Err(e) => {
                    &&& old(self).as_map().dom().contains(name@)
                    &&& *final(self) == *old(self)
                    &&& e == Error::Conflict(name)
                },
            },
    {
        if self.contains_name(&name) {
            return Err(Error::Conflict(name));
        }
        let ghost old_self = *self;
        self.entries.push(Entry { name, value });
        proof {
            let k0 = old_self.entries@.len() as int;
            assert forall|i: int, j: int| 0 <= i < j < self.entries@.len() implies self.entries@[i].name@
                != self.entries@[j].name@ by {
                if j < k0 {
                    assert(old_self.entries@[i].name@ != old_self.entries@[j].name@);
                } else {
                    assert(!old_self.holds_at(name@, i));
                }
            }
            assert(self.wf());
            assert forall|k: Seq<char>| #[trigger] self.contains_spec(k) implies (
                old_self.contains_spec(k) || k == name@
            ) by {
                let i = choose|i: int| self.holds_at(k, i);
                if i < k0 {
                    assert(old_self.holds_at(k, i));
                }
            }
            assert forall|k: Seq<char>| old_self.contains_spec(k) || k == name@
                implies #[trigger] self.contains_spec(k) by {
                if old_self.contains_spec(k) {
                    let i = choose|i: int| old_self.holds_at(k, i);
                    assert(self.holds_at(k, i));
                } else {
                    assert(self.holds_at(k, k0));
                }
            }
            assert forall|k: Seq<char>| #[trigger] self.contains_spec(k) implies self.as_map()[k]
                == old_self.as_map().insert(name@, value)[k] by {
                if k == name@ {
                    self.lemma_idx_unique(k, k0);
                } else {
                    let i = choose|i: int| old_self.holds_at(k, i);
                    old_self.lemma_idx_unique(k, i);
                    assert(self.holds_at(k, i));
                    self.lemma_idx_unique(k, i);
                }
            }
            assert(self.as_map() =~= old_self.as_map().insert(name@, value));
            assert(self.spec_entries() =~= old_self.spec_entries().push((name@, value)));
        }
        Ok(())
    }

    /// Removes the entry under `name`, returning its value; fails with
    /// `NotFound` if the name is absent, leaving the registry unchanged.
    pub fn remove(&mut self, name: &String) -> (r: Result<T, Error>)
        requires
            old(self).wf(),
        ensures
            final(self).wf(),
            match r {
                Ok(v) => {
                    &&& old(self).as_map().dom().contains(name@)
                    &&& 0 <= old(self).idx_of(name@) < old(self).spec_entries().len()
                    &&& v == old(self).as_map()[name@]
                    &&& final(self).as_map() == old(self).as_map().remove(name@)
                    &&& final(self).spec_entries() == old(self).spec_entries().remove(
                        old(self).idx_of(name@),
                    )
                },
                Err(e) => {
                    &&& !old(self).as_map().dom().contains(name@)
                    &&& *final(self) == *old(self)
                    &&& e matches Error::NotFound(m) && m@ == name@
                },
            },
    {
        let n = self.entries.len();
        let mut i: usize = 0;
        while i < n
            invariant
                *self == *old(self),
                self.wf(),
                n == self.entries@.len(),
                0 <= i <= n,
                forall|j: int| 0 <= j < i ==> self.entries@[j].name@ != name@,
            decreases n - i,
        {
            if self.entries[i].name == *name {
                let ghost pre = *self;
                proof {
                    assert(pre.holds_at(name@, i as int));
                    pre.lemma_idx_unique(name@, i as int);
                }
                let e = self.entries.remove(i);
                proof {
                    lemma_after_remove(&pre, self, name@, i as int);
                }
                return Ok(e.value);
            }
            i += 1;
        }
        proof {
            lemma_no_witness(self, name@);
        }
        Err(Error::NotFound(name.clone()))
    }

    /// A borrow of the value under `name`; fails with `NotFound` if absent.
    pub fn get(&self, name: &String) -> (r: Result<&T, Error>)
        requires
            self.wf(),
        ensures
            match r {
                Ok(v) => self.as_map().dom().contains(name@) && *v == self.as_map()[name@],
                Err(e) => {
                    &&& !self.as_map().dom().contains(name@)
                    &&& e matches Error::NotFound(m) && m@ == name@
                },
            },
    {
        let n = self.entries.len();
        let mut i: usize = 0;
        while i < n
            invariant
                self.wf(),
                n == self.entries@.len(),
                0 <= i <= n,
                forall|j: int| 0 <= j < i ==> self.entries@[j].name@ != name@,
            decreases n - i,
        {
            if self.entries[i].name == *name {
                proof {
                    assert(self.holds_at(name@, i as int));
                    self.lemma_idx_unique(name@, i as int);
                }
                return Ok(&self.entries[i].value);
            }
            i += 1;
        }
        proof {
            lemma_no_witness(self, name@);
        }
        Err(Error::NotFound(name.clone()))
    }

    /// The name of the entry at position `i`, in insertion order.
    pub fn name_at(&self, i: usize) -> (r: &String)
        requires
            i < self.spec_entries().len(),
        ensures
            r@ == self.spec_entries()[i as int].0,
    {
        &self.entries[i].name
    }

    /// The value of the entry at position `i`, in insertion order.
    pub fn value_at(&self, i: usize) -> (r: &T)
        requires
            i < self.spec_entries().len(),
        ensures
            *r == self.spec_entries()[i as int].1,
    {
        &self.entries[i].value
    }
}

/// If no entry carries name `k`, then `k` has no witness index at all.
proof fn lemma_no_witness<T>(r: &Registry<T>, k: Seq<char>)
    requires
        forall|j: int| 0 <= j < r.entries@.len() ==> r.entries@[j].name@ != k,
    ensures
        !r.contains_spec(k),
        !r.as_map().dom().contains(k),
{
    if r.contains_spec(k) {
        let w = choose|i: int| r.holds_at(k, i);
        assert(r.entries@[w].name@ != k);
    }
}

/// Removing the entry at the unique index of `k0` removes exactly `k0` from
/// the map view and the pair at that index from the sequence view.
proof fn lemma_after_remove<T>(pre: &Registry<T>, post: &Registry<T>, k0: Seq<char>, i0: int)
    requires
        pre.wf(),
        pre.holds_at(k0, i0),
        post.entries@ == pre.entries@.remove(i0),
    ensures
        post.wf(),
        post.as_map() == pre.as_map().remove(k0),
        post.spec_entries() == pre.spec_entries().remove(i0),
{
    let pe = pre.entries@;
    let qe = post.entries@;
    assert forall|j: int| 0 <= j < qe.len() implies #[trigger] qe[j] == (
        if j < i0 {
            pe[j]
        } else {
            pe[j + 1]
        }
    ) by {}
    assert forall|a: int, b: int| 0 <= a < b < qe.len() implies qe[a].name@ != qe[b].name@ by {
        let a0: int = if a < i0 { a } else { a + 1 };
        let b0: int = if b < i0 { b } else { b + 1 };
        assert(pe[a0].name@ != pe[b0].name@);
    }
    assert(post.wf());
    assert forall|j: int| 0 <= j < qe.len() implies qe[j].name@ != k0 by {
        let j0: int = if j < i0 { j } else { j + 1 };
        if pe[j0].name@ == k0 {
            assert(pre.holds_at(k0, j0));
            pre.lemma_idx_unique(k0, j0);
            pre.lemma_idx_unique(k0, i0);
        }
    }
    assert forall|k: Seq<char>| #[trigger] post.contains_spec(k) implies pre.contains_spec(k) && k
        != k0 by {
        let j = choose|j: int| post.holds_at(k, j);
        let j0: int = if j < i0 { j } else { j + 1 };
        assert(pre.holds_at(k, j0));
        assert(qe[j].name@ != k0);
    }
    assert forall|k: Seq<char>| pre.contains_spec(k) && k != k0 implies #[trigger] post.contains_spec(
        k,
    ) by {
        let j = choose|j: int| pre.holds_at(k, j);
        if j == i0 {
            assert(k == k0);
        } else {
            let j1: int = if j < i0 { j } else { j - 1 };
            assert(post.holds_at(k, j1));
        }
    }
    assert forall|k: Seq<char>| #[trigger] post.contains_spec(k) implies post.as_map()[k]
        == pre.as_map()[k] by {
        let j = choose|j: int| post.holds_at(k, j);
        post.lemma_idx_unique(k, j);
        let j0: int = if j < i0 { j } else { j + 1 };
        assert(pre.holds_at(k, j0));
        pre.lemma_idx_unique(k, j0);
    }
    assert(post.as_map() =~= pre.as_map().remove(k0));
    assert(post.spec_entries() =~= pre.spec_entries().remove(i0));
}

} // verus!
