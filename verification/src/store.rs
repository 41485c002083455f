//! An ordered table: a finite map whose keys are kept in ascending order, so
//! that it can be read by key and walked from a cursor.

use vstd::prelude::*;
use crate::keys::Key;

verus! {

/// Whether the keys of `s` ascend strictly.
pub open spec fn ascending<K: Key>(s: Seq<K::V>) -> bool {
    forall|i: int, j: int| 0 <= i < j < s.len() ==> K::precedes(#[trigger] s[i], #[trigger] s[j])
}

/// The map that pairs each key of `keys` with the value at the same place.
pub open spec fn map_of<KV, VV>(keys: Seq<KV>, values: Seq<VV>) -> Map<KV, VV> {
    Map::new(
        |k: KV| keys.contains(k),
        |k: KV| values[keys.index_of(k)],
    )
}

/// No key occurs twice in an ascending sequence.
pub proof fn lemma_ascending_distinct<K: Key>(s: Seq<K::V>, i: int, j: int)
    requires
        ascending::<K>(s),
        0 <= i < s.len(),
        0 <= j < s.len(),
        s[i] == s[j],
    ensures
        i == j,
{
    K::lemma_irreflexive(s[i]);
}

proof fn lemma_index_of<K: Key>(s: Seq<K::V>, i: int)
    requires
        ascending::<K>(s),
        0 <= i < s.len(),
    ensures
        s.contains(s[i]),
        s.index_of(s[i]) == i,
{
    let j = s.index_of(s[i]);
    lemma_ascending_distinct::<K>(s, i, j);
}

proof fn lemma_map_of_insert<K: Key, VV>(keys: Seq<K::V>, values: Seq<VV>, pos: int, k: K::V, v: VV)
    requires
        keys.len() == values.len(),
        0 <= pos <= keys.len(),
        ascending::<K>(keys),
        ascending::<K>(keys.insert(pos, k)),
    ensures
        !keys.contains(k),
        map_of(keys.insert(pos, k), values.insert(pos, v)) =~= map_of(keys, values).insert(k, v),
{
    let keys2 = keys.insert(pos, k);
    let values2 = values.insert(pos, v);
    if keys.contains(k) {
        let i = keys.index_of(k);
        let i2 = if i < pos { i } else { i + 1 };
        assert(keys2[i2] == k && keys2[pos] == k);
        lemma_ascending_distinct::<K>(keys2, i2, pos);
    }
    assert forall|x: K::V| keys2.contains(x) <==> (x == k || keys.contains(x)) by {
        if keys2.contains(x) {
            let i = keys2.index_of(x);
            if i < pos {
                assert(keys[i] == x);
            } else if i > pos {
                assert(keys[i - 1] == x);
            }
        }
        if keys.contains(x) {
            let i = keys.index_of(x);
            let i2 = if i < pos { i } else { i + 1 };
            assert(keys2[i2] == x);
        }
        if x == k {
            assert(keys2[pos] == x);
        }
    }
    assert forall|x: K::V| keys2.contains(x) implies #[trigger] map_of(keys2, values2)[x] == map_of(
        keys,
        values,
    ).insert(k, v)[x] by {
        if x == k {
            lemma_index_of::<K>(keys2, pos);
        } else {
            let i = keys.index_of(x);
            let i2 = if i < pos { i } else { i + 1 };
            assert(keys2[i2] == x);
            lemma_index_of::<K>(keys2, i2);
        }
    }
}

proof fn lemma_map_of_update<K: Key, VV>(keys: Seq<K::V>, values: Seq<VV>, pos: int, v: VV)
    requires
        keys.len() == values.len(),
        0 <= pos < keys.len(),
        ascending::<K>(keys),
    ensures
        map_of(keys, values.update(pos, v)) =~= map_of(keys, values).insert(keys[pos], v),
{
    assert(keys.contains(keys[pos]));
    assert forall|x: K::V| keys.contains(x) implies #[trigger] map_of(keys, values.update(pos, v))[x]
        == map_of(keys, values).insert(keys[pos], v)[x] by {
        let i = keys.index_of(x);
        if x == keys[pos] {
            lemma_index_of::<K>(keys, pos);
        }
    }
}

proof fn lemma_map_of_remove<K: Key, VV>(keys: Seq<K::V>, values: Seq<VV>, pos: int)
    requires
        keys.len() == values.len(),
        0 <= pos < keys.len(),
        ascending::<K>(keys),
    ensures
        ascending::<K>(keys.remove(pos)),
        keys.contains(keys[pos]),
        map_of(keys.remove(pos), values.remove(pos)) =~= map_of(keys, values).remove(keys[pos]),
{
    let keys2 = keys.remove(pos);
    let values2 = values.remove(pos);
    assert(keys.contains(keys[pos]));
    assert forall|i: int, j: int| 0 <= i < j < keys2.len() implies K::precedes(
        #[trigger] keys2[i],
        #[trigger] keys2[j],
    ) by {
        let i1 = if i < pos { i } else { i + 1 };
        let j1 = if j < pos { j } else { j + 1 };
        assert(keys2[i] == keys[i1] && keys2[j] == keys[j1]);
    }
    assert forall|x: K::V| keys2.contains(x) <==> (x != keys[pos] && keys.contains(x)) by {
        if keys2.contains(x) {
            let i = keys2.index_of(x);
            let i1 = if i < pos { i } else { i + 1 };
            assert(keys[i1] == x);
            if x == keys[pos] {
                lemma_ascending_distinct::<K>(keys, i1, pos);
            }
        }
        if x != keys[pos] && keys.contains(x) {
            let i = keys.index_of(x);
            let i2 = if i < pos { i } else { i - 1 };
            assert(keys2[i2] == x);
        }
    }
    assert forall|x: K::V| keys2.contains(x) implies #[trigger] map_of(keys2, values2)[x] == map_of(
        keys,
        values,
    ).remove(keys[pos])[x] by {
        let i = keys.index_of(x);
        let i2 = if i < pos { i } else { i - 1 };
        assert(keys2[i2] == x);
        lemma_index_of::<K>(keys2, i2);
    }
}

/// A table from keys to values. Its view is the map it holds; `keys` and
/// `values` list the same entries in the ascending order of the keys.
pub struct Table<K: Key, V: View> {
    entries: Vec<(K, V)>,
}

impl<K: Key, V: View> View for Table<K, V> {
    type V = Map<K::V, V::V>;

    closed spec fn view(&self) -> Map<K::V, V::V> {
        map_of(self.keys(), self.values())
    }
}

impl<K: Key, V: View> Table<K, V> {
    /// The keys, in ascending order.
    pub closed spec fn keys(&self) -> Seq<K::V> {
        Seq::new(self.entries@.len(), |i: int| self.entries@[i].0@)
    }

    /// The values, in the order of their keys.
    pub closed spec fn values(&self) -> Seq<V::V> {
        Seq::new(self.entries@.len(), |i: int| self.entries@[i].1@)
    }

    /// The table's invariant: the keys ascend strictly.
    pub closed spec fn wf(&self) -> bool {
        &&& ascending::<K>(self.keys())
        &&& self@.dom().finite()
        &&& self@.dom().len() == self.entries@.len()
    }

    /// How the map and the two listings belong together.
    pub proof fn lemma_listing(&self)
        requires
            self.wf(),
        ensures
            self.keys().len() == self.values().len(),
            ascending::<K>(self.keys()),
            self@.dom().finite(),
            self@.len() == self.keys().len(),
            forall|i: int|
                0 <= i < self.keys().len() ==> self@.contains_key(#[trigger] self.keys()[i])
                    && self@[self.keys()[i]] == self.values()[i],
            forall|k: K::V| self@.contains_key(k) ==> self.keys().contains(k),
    {
        assert forall|i: int| 0 <= i < self.keys().len() implies self@.contains_key(
            #[trigger] self.keys()[i],
        ) && self@[self.keys()[i]] == self.values()[i] by {
            lemma_index_of::<K>(self.keys(), i);
        }
    }

    /// The empty table.
    pub fn new() -> (t: Self)
        ensures
            t.wf(),
            t@ == Map::<K::V, V::V>::empty(),
    {
        let t = Table { entries: Vec::new() };
        assert(t@ =~= Map::<K::V, V::V>::empty());
        t
    }

    /// How many keys the table holds.
    pub fn len(&self) -> (n: usize)
        requires
            self.wf(),
        ensures
            n == self@.len(),
            n == self.keys().len(),
    {
        self.entries.len()
    }

    /// The key at place `i` of the ascending listing.
    pub fn key_at(&self, i: usize) -> (k: &K)
        requires
            i < self.keys().len(),
        ensures
            k@ == self.keys()[i as int],
    {
        &self.entries[i].0
    }

    /// The value at place `i` of the ascending listing.
    pub fn value_at(&self, i: usize) -> (v: &V)
        requires
            i < self.keys().len(),
        ensures
            v@ == self.values()[i as int],
    {
        &self.entries[i].1
    }

    /// The place of the first key that does not precede `key`.
    pub fn lower_bound(&self, key: &K) -> (pos: usize)
        requires
            self.wf(),
        ensures
            pos <= self.keys().len(),
            forall|i: int| 0 <= i < pos ==> K::precedes(#[trigger] self.keys()[i], key@),
            forall|i: int|
                pos <= i < self.keys().len() ==> !K::precedes(#[trigger] self.keys()[i], key@),
    {
        let mut lo: usize = 0;
        let mut hi: usize = self.entries.len();
        while lo < hi
            invariant
                self.wf(),
                lo <= hi <= self.keys().len(),
                self.keys().len() == self.entries@.len(),
                forall|i: int| 0 <= i < lo ==> K::precedes(#[trigger] self.keys()[i], key@),
                forall|i: int|
                    hi <= i < self.keys().len() ==> !K::precedes(#[trigger] self.keys()[i], key@),
            decreases hi - lo,
        {
            let mid: usize = lo + (hi - lo) / 2;
            if self.entries[mid].0.comes_before(key) {
                assert forall|i: int| 0 <= i < mid + 1 implies K::precedes(
                    #[trigger] self.keys()[i],
                    key@,
                ) by {
                    if i < mid {
                        K::lemma_transitive(self.keys()[i], self.keys()[mid as int], key@);
                    }
                }
                lo = mid + 1;
            } else {
                assert forall|i: int| mid <= i < self.keys().len() implies !K::precedes(
                    #[trigger] self.keys()[i],
                    key@,
                ) by {
                    if i > mid && K::precedes(self.keys()[i], key@) {
                        K::lemma_transitive(self.keys()[mid as int], self.keys()[i], key@);
                    }
                }
                hi = mid;
            }
        }
        lo
    }

    /// The place of the first key that `key` precedes: where a walk that
    /// starts after `key` begins.
    pub fn first_after(&self, key: &K) -> (pos: usize)
        requires
            self.wf(),
        ensures
            pos <= self.keys().len(),
            forall|i: int| 0 <= i < pos ==> !K::precedes(key@, #[trigger] self.keys()[i]),
            forall|i: int|
                pos <= i < self.keys().len() ==> K::precedes(key@, #[trigger] self.keys()[i]),
    {
        let lb = self.lower_bound(key);
        let found = lb < self.entries.len() && self.entries[lb].0.same_as(key);
        let pos: usize = if found { lb + 1 } else { lb };
        proof {
            assert forall|i: int| 0 <= i < pos implies !K::precedes(
                key@,
                #[trigger] self.keys()[i],
            ) by {
                if K::precedes(key@, self.keys()[i]) {
                    if i < lb {
                        K::lemma_transitive(key@, self.keys()[i], key@);
                    }
                    K::lemma_irreflexive(key@);
                }
            }
            assert forall|i: int| pos <= i < self.keys().len() implies K::precedes(
                key@,
                #[trigger] self.keys()[i],
            ) by {
                K::lemma_connected(self.keys()[i], key@);
                if self.keys()[i] == key@ {
                    if found {
                        lemma_ascending_distinct::<K>(self.keys(), i, lb as int);
                    } else {
                        K::lemma_connected(self.keys()[lb as int], key@);
                        K::lemma_transitive(key@, self.keys()[lb as int], self.keys()[i]);
                        K::lemma_irreflexive(key@);
                    }
                }
            }
        }
        pos
    }

    /// The place of `key` in the ascending listing, if the table holds it.
    pub fn position(&self, key: &K) -> (r: Option<usize>)
        requires
            self.wf(),
        ensures
            r is Some <==> self@.contains_key(key@),
            r matches Some(i) ==> i < self.keys().len() && self.keys()[i as int] == key@,
    {
        let lb = self.lower_bound(key);
        if lb < self.entries.len() && self.entries[lb].0.same_as(key) {
            proof {
                lemma_index_of::<K>(self.keys(), lb as int);
            }
            Some(lb)
        } else {
            proof {
                if self.keys().contains(key@) {
                    let i = self.keys().index_of(key@);
                    K::lemma_irreflexive(key@);
                    if i > lb {
                        K::lemma_connected(self.keys()[lb as int], key@);
                        K::lemma_transitive(key@, self.keys()[lb as int], self.keys()[i]);
                    }
                }
            }
            None
        }
    }

    /// Whether the table holds `key`.
    pub fn contains_key(&self, key: &K) -> (b: bool)
        requires
            self.wf(),
        ensures
            b == self@.contains_key(key@),
    {
        self.position(key).is_some()
    }

    /// The value of `key`, if the table holds it.
    pub fn get(&self, key: &K) -> (r: Option<&V>)
        requires
            self.wf(),
        ensures
            r is Some <==> self@.contains_key(key@),
            r matches Some(v) ==> v@ == self@[key@],
    {
        match self.position(key) {
            Some(i) => {
                proof {
                    self.lemma_listing();
                }
                Some(&self.entries[i].1)
            },
            None => None,
        }
    }

    /// Sets the value of `key`, whether the table held the key or not.
    pub fn insert(&mut self, key: K, value: V)
        requires
            old(self).wf(),
        ensures
            final(self).wf(),
            final(self)@ == old(self)@.insert(key@, value@),
    {
        let lb = self.lower_bound(&key);
        let ghost keys = self.keys();
        let ghost values = self.values();
        let found = lb < self.entries.len() && self.entries[lb].0.same_as(&key);
        if found {
            self.entries.set(lb, (key, value));
            proof {
                assert(self.keys() =~= keys);
                assert(self.values() =~= values.update(lb as int, value@));
                lemma_index_of::<K>(keys, lb as int);
                lemma_map_of_update::<K, V::V>(keys, values, lb as int, value@);
                assert(old(self)@.insert(key@, value@).dom() =~= old(self)@.dom());
            }
        } else {
            self.entries.insert(lb, (key, value));
            proof {
                let keys2 = keys.insert(lb as int, key@);
                assert(self.keys() =~= keys2);
                assert(self.values() =~= values.insert(lb as int, value@));
                assert forall|i: int| lb <= i < keys.len() implies K::precedes(
                    key@,
                    #[trigger] keys[i],
                ) by {
                    K::lemma_connected(keys[i], key@);
                    if keys[i] == key@ && i > lb {
                        K::lemma_connected(keys[lb as int], key@);
                        K::lemma_transitive(key@, keys[lb as int], keys[i]);
                        K::lemma_irreflexive(key@);
                    }
                }
                assert forall|i: int, j: int| 0 <= i < j < keys2.len() implies K::precedes(
                    #[trigger] keys2[i],
                    #[trigger] keys2[j],
                ) by {
                    if i < lb && j > lb {
                        K::lemma_transitive(keys[i], key@, keys[j - 1]);
                    }
                }
                lemma_map_of_insert::<K, V::V>(keys, values, lb as int, key@, value@);
            }
        }
    }

    /// Takes `key` and its value out of the table and returns the value.
    pub fn remove(&mut self, key: &K) -> (r: Option<V>)
        requires
            old(self).wf(),
        ensures
            final(self).wf(),
            final(self)@ == old(self)@.remove(key@),
            r is Some <==> old(self)@.contains_key(key@),
            r matches Some(v) ==> v@ == old(self)@[key@],
    {
        match self.position(key) {
            Some(i) => {
                let ghost keys = self.keys();
                let ghost values = self.values();
                proof {
                    self.lemma_listing();
                }
                let entry = self.entries.remove(i);
                proof {
                    assert(self.keys() =~= keys.remove(i as int));
                    assert(self.values() =~= values.remove(i as int));
                    lemma_map_of_remove::<K, V::V>(keys, values, i as int);
                }
                Some(entry.1)
            },
            None => {
                assert(self@ =~= self@.remove(key@));
                None
            },
        }
    }
}

} // verus!
