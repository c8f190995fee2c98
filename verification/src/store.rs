//! A string-keyed store with unique keys, viewed as a `Map<Seq<char>, T>`.
//!
//! The core tracks several per-host and per-site families of state
//! (endpoint details, loading flags, dispatch ordinals) in stores of this
//! shape. Keys are unique by invariant; lookup, insert and remove behave
//! exactly as on the abstract map.

use vstd::prelude::*;
use vstd::map::*;

verus! {

#[derive(Debug)]
pub struct Entry<T> {
    pub key: String,
    pub value: T,
}

#[derive(Debug)]
pub struct KeyedStore<T> {
    pub entries: Vec<Entry<T>>,
}

impl<T> KeyedStore<T> {
    /// Some entry carries this key.
    pub open spec fn has_key(self, k: Seq<char>) -> bool {
        exists|i: int| 0 <= i < self.entries@.len() && self.entries@[i].key@ == k
    }

    /// The index of the entry carrying this key.
    pub open spec fn index_for(self, k: Seq<char>) -> int {
        choose|i: int| 0 <= i < self.entries@.len() && self.entries@[i].key@ == k
    }

    /// No two entries carry the same key.
    pub open spec fn wf(self) -> bool {
        forall|i: int, j: int|
            0 <= i < j < self.entries@.len() ==> self.entries@[i].key@ != self.entries@[j].key@
    }

    /// An empty store.
    pub fn new() -> (r: Self)
        ensures
            r@ == Map::<Seq<char>, T>::empty(),
            r.wf(),
            r.entries@.len() == 0,
    {
        let r = KeyedStore { entries: Vec::new() };
        proof {
            assert(r@ =~= Map::<Seq<char>, T>::empty());
        }
        r
    }

    proof fn lemma_entry_value(self, i: int)
        requires
            self.wf(),
            0 <= i < self.entries@.len(),
        ensures
            self@.contains_key(self.entries@[i].key@),
            self@[self.entries@[i].key@] == self.entries@[i].value,
    {
        let k = self.entries@[i].key@;
        assert(self.has_key(k));
        let j = self.index_for(k);
        assert(0 <= j < self.entries@.len() && self.entries@[j].key@ == k);
        if i != j {
            assert(false);
        }
    }

    /// Looks a key up.
    pub fn get<'a>(&'a self, key: &String) -> (r: Option<&'a T>)
        requires
            self.wf(),
        ensures
            match r {
                Some(v) => self@.contains_key(key@) && *v == self@[key@],
                None => !self@.contains_key(key@),
            },
    {
        let n = self.entries.len();
        let mut i: usize = 0;
        while i < n
            invariant
                self.wf(),
                n == self.entries@.len(),
                i <= n,
                forall|j: int| 0 <= j < i ==> self.entries@[j].key@ != key@,
            decreases n - i,
        {
            if self.entries[i].key.eq(key) {
                proof {
                    self.lemma_entry_value(i as int);
                }
                return Some(&self.entries[i].value);
            }
            i = i + 1;
        }
        proof {
            assert(!self.has_key(key@));
        }
        None
    }

    /// Whether a key is present.
    pub fn contains_key(&self, key: &String) -> (r: bool)
        requires
            self.wf(),
        ensures
            r == self@.contains_key(key@),
    {
        self.get(key).is_some()
    }

    /// Inserts a value, replacing any previous value under the same key.
    pub fn insert(&mut self, key: String, value: T)
        requires
            old(self).wf(),
        ensures
            final(self)@ == old(self)@.insert(key@, value),
            final(self).wf(),
    {
        let ghost pre = *self;
        let ghost k0 = key@;
        let n = self.entries.len();
        let mut i: usize = 0;
        while i < n
            invariant
                *self == pre,
                pre == *old(self),
                pre.wf(),
                k0 == key@,
                n == self.entries@.len(),
                i <= n,
                forall|j: int| 0 <= j < i ==> self.entries@[j].key@ != key@,
            decreases n - i,
        {
            if self.entries[i].key.eq(&key) {
                let ghost ii = i as int;
                self.entries.set(i, Entry { key, value });
                proof {
                    let post = *self;
                    assert(post.entries@ == pre.entries@.update(ii, post.entries@[ii]));
                    assert(post.entries@[ii].key@ == k0);
                    assert(pre.entries@[ii].key@ == k0);
                    assert forall|a: int, b: int|
                        0 <= a < b < post.entries@.len() implies post.entries@[a].key@
                        != post.entries@[b].key@ by {
                        if a == ii {
                            assert(pre.entries@[ii].key@ != pre.entries@[b].key@);
                        } else if b == ii {
                            assert(pre.entries@[a].key@ != pre.entries@[ii].key@);
                        } else {
                            assert(pre.entries@[a].key@ != pre.entries@[b].key@);
                        }
                    }
                    assert(post.wf());
                    assert forall|k: Seq<char>| #[trigger] post.has_key(k) implies pre.has_key(
                        k,
                    ) by {
                        let a = choose|a: int|
                            0 <= a < post.entries@.len() && post.entries@[a].key@ == k;
                        if a == ii {
                            assert(pre.entries@[ii].key@ == k);
                        } else {
                            assert(pre.entries@[a].key@ == k);
                        }
                    }
                    assert forall|k: Seq<char>| #[trigger] pre.has_key(k) implies post.has_key(
                        k,
                    ) by {
                        let a = choose|a: int|
                            0 <= a < pre.entries@.len() && pre.entries@[a].key@ == k;
                        if a == ii {
                            assert(post.entries@[ii].key@ == k);
                        } else {
                            assert(post.entries@[a].key@ == k);
                        }
                    }
                    assert forall|k: Seq<char>| #[trigger] post@.contains_key(k) implies post@[k]
                        == pre@.insert(k0, value)[k] by {
                        let a = post.index_for(k);
                        assert(0 <= a < post.entries@.len() && post.entries@[a].key@ == k);
                        post.lemma_entry_value(a);
                        if k == k0 {
                            if a != ii {
                                assert(post.entries@[a].key@ == pre.entries@[a].key@);
                                assert(post.entries@[a].key@ != post.entries@[ii].key@);
                                assert(false);
                            }
                        } else {
                            assert(a != ii);
                            assert(pre.entries@[a].key@ == k);
                            pre.lemma_entry_value(a);
                        }
                    }
                    assert(pre.has_key(k0)) by {
                        assert(pre.entries@[ii].key@ == k0);
                    }
                    assert(post@ =~= pre@.insert(k0, value));
                }
                return ;
            }
            i = i + 1;
        }
        self.entries.push(Entry { key, value });
        proof {
            let post = *self;
            let m = pre.entries@.len() as int;
            assert(post.entries@ == pre.entries@.push(post.entries@[m]));
            assert(post.entries@[m].key@ == k0);
            assert(forall|j: int| 0 <= j < m ==> post.entries@[j] == pre.entries@[j]);
            assert(forall|j: int| 0 <= j < m ==> post.entries@[j].key@ != k0);
            assert forall|a: int, b: int|
                0 <= a < b < post.entries@.len() implies post.entries@[a].key@
                != post.entries@[b].key@ by {
                if b == m {
                    assert(post.entries@[a].key@ != k0);
                } else {
                    assert(pre.entries@[a].key@ != pre.entries@[b].key@);
                }
            }
            assert(post.wf());
            assert forall|k: Seq<char>| #[trigger] post.has_key(k) implies pre.has_key(k) || k
                == k0 by {
                let a = choose|a: int| 0 <= a < post.entries@.len() && post.entries@[a].key@ == k;
                if a != m {
                    assert(pre.entries@[a].key@ == k);
                }
            }
            assert forall|k: Seq<char>| #[trigger] pre.has_key(k) implies post.has_key(k) by {
                let a = choose|a: int| 0 <= a < pre.entries@.len() && pre.entries@[a].key@ == k;
                assert(post.entries@[a].key@ == k);
            }
            assert(post.has_key(k0)) by {
                assert(post.entries@[m].key@ == k0);
            }
            assert forall|k: Seq<char>| #[trigger] post@.contains_key(k) implies post@[k]
                == pre@.insert(k0, value)[k] by {
                let a = post.index_for(k);
                assert(0 <= a < post.entries@.len() && post.entries@[a].key@ == k);
                post.lemma_entry_value(a);
                if k == k0 {
                    if a != m {
                        assert(post.entries@[a].key@ == pre.entries@[a].key@);
                        assert(pre.entries@[a].key@ != k0);
                        assert(false);
                    }
                } else {
                    assert(a != m);
                    assert(pre.entries@[a].key@ == k);
                    pre.lemma_entry_value(a);
                }
            }
            assert(post@ =~= pre@.insert(k0, value));
        }
    }

    /// Removes a key; absent keys are left alone.
    pub fn remove(&mut self, key: &String)
        requires
            old(self).wf(),
        ensures
            final(self)@ == old(self)@.remove(key@),
            final(self).wf(),
    {
        let ghost pre = *self;
        let ghost k0 = key@;
        let n = self.entries.len();
        let mut i: usize = 0;
        while i < n
            invariant
                *self == pre,
                pre == *old(self),
                pre.wf(),
                k0 == key@,
                n == self.entries@.len(),
                i <= n,
                forall|j: int| 0 <= j < i ==> self.entries@[j].key@ != key@,
            decreases n - i,
        {
            if self.entries[i].key.eq(key) {
                let ghost ii = i as int;
                self.entries.remove(i);
                proof {
                    let post = *self;
                    assert(post.entries@ == pre.entries@.remove(ii));
                    assert(pre.entries@[ii].key@ == k0);
                    assert forall|a: int| 0 <= a < post.entries@.len() implies post.entries@[a]
                        == pre.entries@[if a < ii {
                        a
                    } else {
                        a + 1
                    }] by {
                        if a < ii {
                            assert(post.entries@[a] == pre.entries@.subrange(0, ii)[a]);
                        } else {
                            assert(post.entries@[a] == pre.entries@.subrange(
                                ii + 1,
                                pre.entries@.len() as int,
                            )[a - ii]);
                        }
                    }
                    assert forall|a: int, b: int|
                        0 <= a < b < post.entries@.len() implies post.entries@[a].key@
                        != post.entries@[b].key@ by {
                        let pa = if a < ii { a } else { a + 1 };
                        let pb = if b < ii { b } else { b + 1 };
                        assert(pre.entries@[pa].key@ != pre.entries@[pb].key@);
                    }
                    assert(post.wf());
                    assert forall|a: int|
                        0 <= a < post.entries@.len() implies post.entries@[a].key@ != k0 by {
                        let pa = if a < ii { a } else { a + 1 };
                        if pa != ii {
                            assert(pre.entries@[pa].key@ != pre.entries@[ii].key@);
                        }
                    }
                    assert forall|k: Seq<char>| #[trigger] post@.contains_key(k) implies
                        pre@.remove(k0).contains_key(k) && post@[k] == pre@.remove(k0)[k] by {
                        let a = post.index_for(k);
                        assert(0 <= a < post.entries@.len() && post.entries@[a].key@ == k);
                        post.lemma_entry_value(a);
                        assert(k != k0);
                        let pa = if a < ii { a } else { a + 1 };
                        assert(pre.entries@[pa].key@ == k);
                        pre.lemma_entry_value(pa);
                    }
                    assert forall|k: Seq<char>| pre@.remove(k0).contains_key(
                        k,
                    ) implies post@.contains_key(k) by {
                        assert(pre.has_key(k) && k != k0);
                        let pa = choose|pa: int|
                            0 <= pa < pre.entries@.len() && pre.entries@[pa].key@ == k;
                        assert(pa != ii);
                        let a = if pa < ii { pa } else { pa - 1 };
                        assert(post.entries@[a] == pre.entries@[pa]);
                        assert(post.entries@[a].key@ == k);
                    }
                    assert(post@ =~= pre@.remove(k0));
                }
                return ;
            }
            i = i + 1;
        }
        proof {
            assert(!pre.has_key(k0));
            assert(self@ =~= pre@.remove(k0));
        }
    }
}

impl<T> View for KeyedStore<T> {
    type V = Map<Seq<char>, T>;

    open spec fn view(&self) -> Map<Seq<char>, T> {
        Map::new(
            |k: Seq<char>| self.has_key(k),
            |k: Seq<char>| self.entries@[self.index_for(k)].value,
        )
    }
}

/// How a dispatch ordinal advances: one step per issued request, stopping
/// at the top of the range rather than wrapping back, so that ordinals
/// never decrease.
pub open spec fn spec_bump(o: u64) -> u64 {
    if o == u64::MAX {
        o
    } else {
        (o + 1) as u64
    }
}

impl KeyedStore<u64> {
    /// The ordinal stored under a key, or zero where none is.
    pub open spec fn spec_ordinal(self, k: Seq<char>) -> u64 {
        if self@.contains_key(k) {
            self@[k]
        } else {
            0
        }
    }

    /// Reads the ordinal stored under a key, zero where none is.
    pub fn ordinal(&self, key: &String) -> (r: u64)
        requires
            self.wf(),
        ensures
            r == self.spec_ordinal(key@),
    {
        match self.get(key) {
            Some(v) => *v,
            None => 0,
        }
    }

    /// Advances the ordinal stored under a key and returns the new value.
    pub fn bump(&mut self, key: &String) -> (r: u64)
        requires
            old(self).wf(),
        ensures
            r == spec_bump(old(self).spec_ordinal(key@)),
            final(self)@ == old(self)@.insert(key@, r),
            final(self).wf(),
    {
        let cur = self.ordinal(key);
        let next = if cur == u64::MAX {
            cur
        } else {
            cur + 1
        };
        self.insert(key.clone(), next);
        next
    }
}

} // verus!
