//! An association list from string keys to values, with pairwise distinct
//! keys, abstracted as a `Map<Seq<char>, V::V>`. The registry of clipboard
//! entries and the set of live sessions are both instances of it.

use vstd::prelude::*;

verus! {

/// The views of a sequence of string keys.
pub open spec fn key_views(ks: Seq<String>) -> Seq<Seq<char>> {
    Seq::new(ks.len(), |i: int| ks[i]@)
}

/// The views of a sequence of values.
pub open spec fn val_views<V: View>(vs: Seq<V>) -> Seq<V::V> {
    Seq::new(vs.len(), |i: int| vs[i]@)
}

/// No key occurs twice.
pub open spec fn distinct_keys(ks: Seq<Seq<char>>) -> bool {
    forall|i: int, j: int| 0 <= i < j < ks.len() ==> ks[i] != ks[j]
}

/// The map that a list of keys and a list of values of equal length spell
/// out, later positions winning on a repeated key.
pub open spec fn kv_map<T>(ks: Seq<Seq<char>>, vs: Seq<T>) -> Map<Seq<char>, T>
    decreases ks.len(),
{
    if ks.len() == 0 || vs.len() == 0 {
        Map::empty()
    } else {
        kv_map(ks.drop_last(), vs.drop_last()).insert(ks.last(), vs.last())
    }
}

/// A key is in the map exactly when it is in the key list.
pub proof fn lemma_kv_contains<T>(ks: Seq<Seq<char>>, vs: Seq<T>, k: Seq<char>)
    requires
        ks.len() == vs.len(),
    ensures
        kv_map(ks, vs).dom().contains(k) <==> ks.contains(k),
    decreases ks.len(),
{
    if ks.len() > 0 {
        lemma_kv_contains(ks.drop_last(), vs.drop_last(), k);
        if ks.last() == k {
            assert(ks[ks.len() - 1] == k);
        } else if ks.drop_last().contains(k) {
            let i = choose|i: int| 0 <= i < ks.drop_last().len() && ks.drop_last()[i] == k;
            assert(ks[i] == k);
        } else if ks.contains(k) {
            let i = choose|i: int| 0 <= i < ks.len() && ks[i] == k;
            assert(ks.drop_last()[i] == k);
        }
    }
}

/// Under distinct keys, the map sends the key at position `i` to the value
/// at position `i`.
pub proof fn lemma_kv_index<T>(ks: Seq<Seq<char>>, vs: Seq<T>, i: int)
    requires
        ks.len() == vs.len(),
        distinct_keys(ks),
        0 <= i < ks.len(),
    ensures
        kv_map(ks, vs).dom().contains(ks[i]),
        kv_map(ks, vs)[ks[i]] == vs[i],
    decreases ks.len(),
{
    lemma_kv_contains(ks, vs, ks[i]);
    if i < ks.len() - 1 {
        assert(ks[i] != ks.last());
        assert(ks.drop_last()[i] == ks[i]);
        lemma_kv_index(ks.drop_last(), vs.drop_last(), i);
    }
}

/// Replacing the value at position `i` replaces the key's image and nothing
/// else.
pub proof fn lemma_kv_update<T>(ks: Seq<Seq<char>>, vs: Seq<T>, i: int, v: T)
    requires
        ks.len() == vs.len(),
        distinct_keys(ks),
        0 <= i < ks.len(),
    ensures
        kv_map(ks, vs.update(i, v)) == kv_map(ks, vs).insert(ks[i], v),
    decreases ks.len(),
{
    let n = ks.len() as int;
    if i == n - 1 {
        assert(vs.update(i, v).drop_last() =~= vs.drop_last());
        assert(vs.update(i, v).last() == v);
        assert(kv_map(ks, vs.update(i, v))
            =~= kv_map(ks, vs).insert(ks[i], v));
    } else {
        assert(vs.update(i, v).drop_last() =~= vs.drop_last().update(i, v));
        assert(ks.drop_last()[i] == ks[i]);
        lemma_kv_update(ks.drop_last(), vs.drop_last(), i, v);
        assert(ks[i] != ks.last());
        assert(kv_map(ks.drop_last(), vs.drop_last()).insert(ks[i], v).insert(ks.last(), vs.last())
            =~= kv_map(ks.drop_last(), vs.drop_last()).insert(ks.last(), vs.last()).insert(ks[i], v));
    }
}

/// Removing position `i` removes the key at position `i` and nothing else.
pub proof fn lemma_kv_remove<T>(ks: Seq<Seq<char>>, vs: Seq<T>, i: int)
    requires
        ks.len() == vs.len(),
        distinct_keys(ks),
        0 <= i < ks.len(),
    ensures
        kv_map(ks.remove(i), vs.remove(i)) == kv_map(ks, vs).remove(ks[i]),
    decreases ks.len(),
{
    let n = ks.len() as int;
    if i == n - 1 {
        assert(ks.remove(i) =~= ks.drop_last());
        assert(vs.remove(i) =~= vs.drop_last());
        lemma_kv_contains(ks.drop_last(), vs.drop_last(), ks[i]);
        assert(!ks.drop_last().contains(ks[i])) by {
            if ks.drop_last().contains(ks[i]) {
                let j = choose|j: int|
                    0 <= j < ks.drop_last().len() && ks.drop_last()[j] == ks[i];
                assert(ks[j] == ks[i]);
            }
        }
        assert(kv_map(ks.drop_last(), vs.drop_last())
            =~= kv_map(ks, vs).remove(ks[i]));
    } else {
        assert(ks.remove(i).drop_last() =~= ks.drop_last().remove(i));
        assert(vs.remove(i).drop_last() =~= vs.drop_last().remove(i));
        assert(ks.remove(i).last() == ks.last());
        assert(vs.remove(i).last() == vs.last());
        assert(ks.drop_last()[i] == ks[i]);
        lemma_kv_remove(ks.drop_last(), vs.drop_last(), i);
        assert(ks[i] != ks.last());
        assert(kv_map(ks.drop_last(), vs.drop_last()).remove(ks[i]).insert(ks.last(), vs.last())
            =~= kv_map(ks.drop_last(), vs.drop_last()).insert(ks.last(), vs.last()).remove(ks[i]));
    }
}

/// String-keyed storage with pairwise distinct keys.
pub struct StrMap<V> {
    keys: Vec<String>,
    vals: Vec<V>,
}

impl<V: View> View for StrMap<V> {
    type V = Map<Seq<char>, V::V>;

    closed spec fn view(&self) -> Map<Seq<char>, V::V> {
        kv_map(key_views(self.keys@), val_views(self.vals@))
    }
}

impl<V: View> StrMap<V> {
    /// The lists have equal length and no key occurs twice.
    pub closed spec fn wf(&self) -> bool {
        &&& self.keys@.len() == self.vals@.len()
        &&& distinct_keys(key_views(self.keys@))
    }

    /// The number of stored entries.
    pub closed spec fn spec_len(&self) -> nat {
        self.keys@.len()
    }

    pub fn new() -> (r: Self)
        ensures
            r.wf(),
            r@ == Map::<Seq<char>, V::V>::empty(),
            r.spec_len() == 0,
    {
        StrMap { keys: Vec::new(), vals: Vec::new() }
    }

    /// The position of `key`, if it is stored.
    fn find(&self, key: &String) -> (r: Option<usize>)
        requires
            self.wf(),
        ensures
            match r {
                Some(i) => {
                    &&& i < self.keys@.len()
                    &&& self.keys@[i as int]@ == key@
                    &&& self@.dom().contains(key@)
                    &&& self@[key@] == self.vals@[i as int]@
                },
                None => !self@.dom().contains(key@),
            },
    {
        let ghost ks = key_views(self.keys@);
        let ghost vs = val_views(self.vals@);
        let n = self.keys.len();
        let mut i: usize = 0;
        while i < n
            invariant
                n == self.keys@.len(),
                i <= n,
                self.wf(),
                forall|j: int| 0 <= j < i ==> self.keys@[j]@ != key@,
                ks == key_views(self.keys@),
                vs == val_views(self.vals@),
            decreases n - i,
        {
            if self.keys[i].eq(key) {
                proof {
                    lemma_kv_index(ks, vs, i as int);
                }
                return Some(i);
            }
            i = i + 1;
        }
        proof {
            lemma_kv_contains(ks, vs, key@);
            assert(!ks.contains(key@)) by {
                if ks.contains(key@) {
                    let j = choose|j: int| 0 <= j < ks.len() && ks[j] == key@;
                    assert(self.keys@[j]@ == key@);
                }
            }
        }
        None
    }

    /// A borrow of the value stored under `key`, if any.
    pub fn get<'a>(&'a self, key: &String) -> (r: Option<&'a V>)
        requires
            self.wf(),
        ensures
            match r {
                Some(v) => self@.dom().contains(key@) && v@ == self@[key@],
                None => !self@.dom().contains(key@),
            },
    {
        match self.find(key) {
            Some(i) => Some(&self.vals[i]),
            None => None,
        }
    }

    /// Whether `key` is stored.
    pub fn contains(&self, key: &String) -> (r: bool)
        requires
            self.wf(),
        ensures
            r == self@.dom().contains(key@),
    {
        self.find(key).is_some()
    }

    /// Inserts or replaces the value under `key`.
    pub fn insert(&mut self, key: String, val: V)
        requires
            old(self).wf(),
        ensures
            final(self).wf(),
            final(self)@ == old(self)@.insert(key@, val@),
    {
        let ghost ks = key_views(self.keys@);
        let ghost vs = val_views(self.vals@);
        match self.find(&key) {
            Some(i) => {
                self.vals.set(i, val);
                proof {
                    assert(val_views(self.vals@) =~= vs.update(i as int, val@));
                    lemma_kv_update(ks, vs, i as int, val@);
                }
            },
            None => {
                proof {
                    lemma_kv_contains(ks, vs, key@);
                }
                self.keys.push(key);
                self.vals.push(val);
                proof {
                    assert(key_views(self.keys@) =~= ks.push(key@));
                    assert(val_views(self.vals@) =~= vs.push(val@));
                    assert(key_views(self.keys@).drop_last() =~= ks);
                    assert(val_views(self.vals@).drop_last() =~= vs);
                    assert(!ks.contains(key@)) by {
                        if ks.contains(key@) {
                            let j = choose|j: int| 0 <= j < ks.len() && ks[j] == key@;
                            lemma_kv_index(ks, vs, j);
                        }
                    }
                }
            },
        }
    }

    /// Removes the entry under `key`; reports whether one was there.
    pub fn remove(&mut self, key: &String) -> (r: bool)
        requires
            old(self).wf(),
        ensures
            final(self).wf(),
            final(self)@ == old(self)@.remove(key@),
            r == old(self)@.dom().contains(key@),
    {
        let ghost ks = key_views(self.keys@);
        let ghost vs = val_views(self.vals@);
        match self.find(key) {
            Some(i) => {
                self.keys.remove(i);
                self.vals.remove(i);
                proof {
                    assert(key_views(self.keys@) =~= ks.remove(i as int));
                    assert(val_views(self.vals@) =~= vs.remove(i as int));
                    lemma_kv_remove(ks, vs, i as int);
                }
                true
            },
            None => {
                proof {
                    assert(kv_map(ks, vs).remove(key@) =~= kv_map(ks, vs));
                }
                false
            },
        }
    }

    /// The stored keys, each exactly once.
    pub fn key_list(&self) -> (r: Vec<String>)
        requires
            self.wf(),
        ensures
            distinct_keys(key_views(r@)),
            forall|k: Seq<char>| self@.dom().contains(k) <==> key_views(r@).contains(k),
            r@.len() == self.spec_len(),
    {
        let ghost ks = key_views(self.keys@);
        let ghost vs = val_views(self.vals@);
        let n = self.keys.len();
        let mut r: Vec<String> = Vec::new();
        let mut i: usize = 0;
        while i < n
            invariant
                n == self.keys@.len(),
                i <= n,
                self.wf(),
                r@.len() == i,
                forall|j: int| 0 <= j < i ==> r@[j]@ == self.keys@[j]@,
            decreases n - i,
        {
            let k = self.keys[i].clone();
            r.push(k);
            i = i + 1;
        }
        proof {
            assert(key_views(r@) =~= ks);
            assert forall|k: Seq<char>| self@.dom().contains(k) <==> key_views(r@).contains(
                k,
            ) by {
                lemma_kv_contains(ks, vs, k);
            }
        }
        r
    }
}

} // verus!
