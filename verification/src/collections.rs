//! Small maps and sets kept in vectors.
//!
//! A `VecMap` stands for a finite map from the views of its keys to the views
//! of its values, a `VecSet` for a finite set of the views of its items. The
//! keys ascend: each comes before all that follow it, so that none occurs
//! twice.

use crate::order::{ascending, rank, rank_from, KeyOrd};
use vstd::prelude::*;

verus! {

/// Values that can be compared by what they stand for.
pub trait KeyEq: View + Sized {
    /// Whether the two values have the same view.
    fn key_eq(&self, other: &Self) -> (r: bool)
        ensures
            r == (self@ == other@),
    ;
}

/// Values that can be copied, the copy standing for the same thing.
pub trait Duplicate: View + Sized {
    /// A copy with the same view.
    fn duplicate(&self) -> (r: Self)
        ensures
            r@ == self@,
    ;
}

impl KeyEq for Vec<u8> {
    fn key_eq(&self, other: &Self) -> (r: bool) {
        if self.len() != other.len() {
            return false;
        }
        let mut i: usize = 0;
        while i < self.len()
            invariant
                i <= self.len(),
                self.len() == other.len(),
                forall|j: int| 0 <= j < i ==> self[j] == other[j],
            decreases self.len() - i,
        {
            if self[i] != other[i] {
                return false;
            }
            i += 1;
        }
        assert(self@ =~= other@);
        true
    }
}

impl Duplicate for Vec<u8> {
    fn duplicate(&self) -> (r: Self) {
        let mut copy: Vec<u8> = Vec::new();
        let mut i: usize = 0;
        while i < self.len()
            invariant
                i <= self.len(),
                copy@ == self@.take(i as int),
            decreases self.len() - i,
        {
            copy.push(self[i]);
            i += 1;
        }
        assert(self@.take(self.len() as int) =~= self@);
        copy
    }
}

impl KeyEq for u64 {
    fn key_eq(&self, other: &Self) -> (r: bool) {
        *self == *other
    }
}

impl Duplicate for u64 {
    fn duplicate(&self) -> (r: Self) {
        *self
    }
}

impl Duplicate for () {
    fn duplicate(&self) -> (r: Self) {
        ()
    }
}

/// A finite map, kept as a vector of entries whose keys ascend.
#[derive(Debug)]
pub struct VecMap<K: KeyOrd, V: View> {
    entries: Vec<(K, V)>,
}

impl<K: KeyOrd, V: View> View for VecMap<K, V> {
    type V = Map<K::V, V::V>;

    closed spec fn view(&self) -> Map<K::V, V::V> {
        Map::new(
            |k: K::V| self.key_seq().contains(k),
            |k: K::V| self.value_seq()[self.key_seq().index_of(k)],
        )
    }
}

impl<K: KeyOrd, V: View> VecMap<K, V> {
    /// The keys, in the order of the entries: ascending.
    pub closed spec fn key_seq(&self) -> Seq<K::V> {
        Seq::new(self.entries@.len(), |i: int| self.entries@[i].0@)
    }

    /// The values, in the order of the entries: that of their keys.
    pub closed spec fn value_seq(&self) -> Seq<V::V> {
        Seq::new(self.entries@.len(), |i: int| self.entries@[i].1@)
    }

    /// The keys ascend.
    #[verifier::type_invariant]
    pub closed spec fn wf(&self) -> bool {
        ascending::<K>(self.key_seq())
    }

    /// How the map relates to the order of its entries.
    pub proof fn lemma_entries(&self)
        requires
            self.wf(),
        ensures
            ascending::<K>(self.key_seq()),
            self.key_seq().no_duplicates(),
            self.key_seq().len() == self.value_seq().len(),
            self@.dom() == self.key_seq().to_set(),
            self@.dom().finite(),
            self@.dom().len() == self.key_seq().len(),
            forall|i: int|
                0 <= i < self.key_seq().len() ==> self@.contains_key(#[trigger] self.key_seq()[i])
                    && self@[self.key_seq()[i]] == self.value_seq()[i],
    {
        let keys = self.key_seq();
        assert forall|i: int, j: int| 0 <= i < keys.len() && 0 <= j < keys.len() && i
            != j implies keys[i] != keys[j] by {
            // Of two keys one comes before the other, and none before itself.
            K::lemma_in_a_row(keys[i], keys[j], keys[i]);
            if i < j {
                assert(K::precedes(keys[i], keys[j]));
            } else {
                assert(K::precedes(keys[j], keys[i]));
            }
        }
        assert(self@.dom() =~= keys.to_set());
        keys.unique_seq_to_set();
        vstd::seq_lib::seq_to_set_is_finite(keys);
        assert forall|i: int| 0 <= i < keys.len() implies self@.contains_key(#[trigger] keys[i])
            && self@[keys[i]] == self.value_seq()[i] by {
            // No key occurs twice, so the place found for a key is its place.
            let j = keys.index_of(keys[i]);
            assert(keys[j] == keys[i]);
        }
    }
}

impl<K: KeyOrd, V: View> VecMap<K, V> {
    /// The empty map.
    pub fn new() -> (m: Self)
        ensures
            m@ == Map::<K::V, V::V>::empty(),
            m.key_seq() == Seq::<K::V>::empty(),
    {
        let m = VecMap { entries: Vec::new() };
        m
    }

    /// The number of entries.
    pub fn len(&self) -> (n: usize)
        ensures
            n == self@.dom().len(),
            n == self.key_seq().len(),
            n == self.value_seq().len(),
            self@.dom().finite(),
            ascending::<K>(self.key_seq()),
            self.key_seq().no_duplicates(),
            self@.dom() == self.key_seq().to_set(),
            forall|i: int|
                0 <= i < n ==> self@.contains_key(#[trigger] self.key_seq()[i])
                    && self@[self.key_seq()[i]] == self.value_seq()[i],
    {
        proof {
            use_type_invariant(self);
            self.lemma_entries();
        }
        self.entries.len()
    }

    /// Whether the map has no entry.
    pub fn is_empty(&self) -> (r: bool)
        ensures
            r == (self@ == Map::<K::V, V::V>::empty()),
            r == (self.key_seq().len() == 0),
    {
        proof {
            use_type_invariant(self);
            self.lemma_entries();
            if self.entries@.len() == 0 {
                assert(self@ =~= Map::<K::V, V::V>::empty());
            } else {
            }
        }
        self.entries.len() == 0
    }

    /// Moves the entries out, leaving the map empty.
    fn take_entries(&mut self) -> (entries: Vec<(K, V)>)
        ensures
            entries == old(self).entries,
    {
        let mut taken = VecMap::new();
        core::mem::swap(self, &mut taken);
        let VecMap { entries } = taken;
        entries
    }

    /// The index of the entry for `key`, if there is one.
    fn position(&self, key: &K) -> (r: Option<usize>)
        ensures
            match r {
                Some(i) => i < self.key_seq().len() && self.key_seq()[i as int] == key@,
                None => !self.key_seq().contains(key@),
            },
    {
        let mut i: usize = 0;
        while i < self.entries.len()
            invariant
                i <= self.entries@.len(),
                forall|j: int| 0 <= j < i ==> self.key_seq()[j] != key@,
            decreases self.entries@.len() - i,
        {
            if self.entries[i].0.key_eq(key) {
                return Some(i);
            }
            i += 1;
        }
        None
    }

    /// Whether the map has an entry for `key`.
    pub fn contains_key(&self, key: &K) -> (r: bool)
        ensures
            r == self@.contains_key(key@),
    {
        self.position(key).is_some()
    }

    /// The value that the map holds for `key`.
    pub fn get(&self, key: &K) -> (r: Option<&V>)
        ensures
            match r {
                Some(v) => self@.contains_key(key@) && v@ == self@[key@],
                None => !self@.contains_key(key@),
            },
    {
        match self.position(key) {
            Some(i) => {
                proof {
                    use_type_invariant(self);
                    self.lemma_entries();
                }
                Some(&self.entries[i].1)
            },
            None => None,
        }
    }

    /// The place at which `key` is, or at which it would have to be put.
    fn place(&self, key: &K) -> (place: usize)
        ensures
            place == rank::<K>(self.key_seq(), key@),
            place <= self.key_seq().len(),
            forall|j: int| 0 <= j < place ==> K::precedes(#[trigger] self.key_seq()[j], key@),
            forall|j: int|
                place <= j < self.key_seq().len() ==> !K::precedes(
                    #[trigger] self.key_seq()[j],
                    key@,
                ),
            self@.contains_key(key@) <==> place < self.key_seq().len() && self.key_seq()[place as int]
                == key@,
    {
        proof {
            use_type_invariant(self);
            self.lemma_entries();
        }
        let ghost keys = self.key_seq();
        let n = self.entries.len();
        let mut place: usize = 0;
        let mut found = false;
        while !found && place < n
            invariant
                place <= n,
                n == self.entries@.len(),
                keys == self.key_seq(),
                n == keys.len(),
                forall|j: int| 0 <= j < place ==> K::precedes(#[trigger] keys[j], key@),
                rank::<K>(keys, key@) == rank_from::<K>(keys, key@, place as int),
                found ==> place < n && !K::precedes(keys[place as int], key@),
            decreases n - place + (if found { 0int } else { 1int }),
        {
            if self.entries[place].0.key_before(key) {
                place += 1;
            } else {
                found = true;
            }
        }
        proof {
            assert forall|j: int| place <= j < keys.len() implies !K::precedes(
                #[trigger] keys[j],
                key@,
            ) by {
                // What follows a key that does not come before `key` does
                // not come before it either.
                K::lemma_in_a_row(keys[place as int], keys[j], key@);
            }
            if self@.contains_key(key@) {
                let at = keys.index_of(key@);
                K::lemma_in_a_row(key@, key@, key@);
                K::lemma_in_a_row(keys[place as int], key@, key@);
                assert(at == place);
            }
        }
        place
    }

    /// Sets the value for `key`, and says whether the key had one before. A
    /// new key is put at its place among the keys, which go on ascending.
    pub fn insert(&mut self, key: K, value: V) -> (replaced: bool)
        ensures
            final(self)@ == old(self)@.insert(key@, value@),
            replaced == old(self)@.contains_key(key@),
            replaced ==> final(self).key_seq() == old(self).key_seq(),
            !replaced ==> final(self).key_seq() == old(self).key_seq().insert(
                rank::<K>(old(self).key_seq(), key@),
                key@,
            ),
    {
        proof {
            use_type_invariant(&*self);
            self.lemma_entries();
        }
        let ghost before = *self;
        let ghost k = key@;
        let ghost v = value@;
        let place = self.place(&key);
        let replaced = place < self.entries.len() && self.entries[place].0.key_eq(&key);
        let mut entries = self.take_entries();
        if replaced {
            entries.set(place, (key, value));
        } else {
            entries.insert(place, (key, value));
        }
        let ghost after_keys = Seq::new(entries@.len(), |i: int| entries@[i].0@);
        let ghost after_values = Seq::new(entries@.len(), |i: int| entries@[i].1@);
        proof {
            let keys = before.key_seq();
            if replaced {
                assert(after_keys =~= keys);
                assert(after_values =~= before.value_seq().update(place as int, v));
            } else {
                assert(after_keys =~= keys.insert(place as int, k));
                assert(after_values =~= before.value_seq().insert(place as int, v));
                assert forall|i: int, j: int| 0 <= i < j < after_keys.len() implies K::precedes(
                    after_keys[i],
                    after_keys[j],
                ) by {
                    let i0 = if i < place { i } else { i - 1 };
                    let j0 = if j < place { j } else { j - 1 };
                    if i == place {
                        // The new key comes before all that do not come
                        // before it and are not it.
                        K::lemma_in_a_row(k, keys[j0], k);
                    } else if j == place {
                        assert(K::precedes(keys[i0], k));
                    } else {
                        assert(K::precedes(keys[i0], keys[j0]));
                    }
                }
            }
        }
        *self = VecMap { entries };
        proof {
            self.lemma_entries();
            let after = *self;
            let keys = before.key_seq();
            assert(after.key_seq() =~= after_keys);
            assert(after.value_seq() =~= after_values);
            assert forall|q: K::V| after@.contains_key(q) <==> before@.insert(k, v).contains_key(
                q,
            ) by {
                if keys.contains(q) {
                    let j = keys.index_of(q);
                    let j1 = if replaced || j < place { j } else { j + 1 };
                    assert(after.key_seq()[j1] == q);
                }
                if q == k {
                    assert(after.key_seq()[place as int] == k);
                }
                if after.key_seq().contains(q) && q != k {
                    let j = after.key_seq().index_of(q);
                    let j0 = if replaced || j < place { j } else { j - 1 };
                    assert(keys[j0] == q);
                }
            }
            assert forall|q: K::V| after@.contains_key(q) implies after@[q] == before@.insert(
                k,
                v,
            )[q] by {
                let j = after.key_seq().index_of(q);
                assert(after.key_seq()[j] == q);
                if q != k {
                    let j0 = if replaced || j < place { j } else { j - 1 };
                    assert(keys[j0] == q);
                }
            }
        }
        replaced
    }

    /// Takes the entry for `key` out, and says whether there was one.
    pub fn remove(&mut self, key: &K) -> (removed: bool)
        ensures
            final(self)@ == old(self)@.remove(key@),
            removed == old(self)@.contains_key(key@),
            !removed ==> final(self).key_seq() == old(self).key_seq(),
            removed ==> final(self).key_seq() == old(self).key_seq().remove(
                old(self).key_seq().index_of(key@),
            ),
    {
        proof {
            use_type_invariant(&*self);
            self.lemma_entries();
        }
        let ghost before = *self;
        let ghost k = key@;
        match self.position(key) {
            Some(i) => {
                let mut entries = self.take_entries();
                let _ = entries.remove(i);
                proof {
                    let after = VecMap { entries };
                    assert forall|a: int, b: int|
                        0 <= a < b < after.key_seq().len() implies K::precedes(
                        after.key_seq()[a],
                        after.key_seq()[b],
                    ) by {
                        let a0 = if a < i { a } else { a + 1 };
                        let b0 = if b < i { b } else { b + 1 };
                        assert(K::precedes(before.key_seq()[a0], before.key_seq()[b0]));
                    }
                    after.lemma_entries();
                    assert forall|q: K::V| after@.contains_key(q) <==> before@.remove(
                        k,
                    ).contains_key(q) by {
                        if after.key_seq().contains(q) {
                            let j = after.key_seq().index_of(q);
                            let j0 = if j < i { j } else { j + 1 };
                            assert(before.key_seq()[j0] == q);
                        }
                        if before.key_seq().contains(q) && q != k {
                            let j = before.key_seq().index_of(q);
                            let j1 = if j < i { j } else { j - 1 };
                            assert(after.key_seq()[j1] == q);
                        }
                    }
                    assert forall|q: K::V| after@.contains_key(q) implies after@[q] == before@[q] by {
                        let j = after.key_seq().index_of(q);
                        let j0 = if j < i { j } else { j + 1 };
                        assert(before.key_seq()[j0] == q);
                    }
                }
                *self = VecMap { entries };
                true
            },
            None => {
                proof {
                    assert(self@ =~= before@.remove(k));
                }
                false
            },
        }
    }

    /// The key of the entry at `index`.
    pub fn key_at(&self, index: usize) -> (key: &K)
        requires
            index < self.key_seq().len(),
        ensures
            key@ == self.key_seq()[index as int],
            self@.contains_key(key@),
    {
        proof {
            use_type_invariant(self);
            self.lemma_entries();
        }
        &self.entries[index].0
    }

    /// The value of the entry at `index`.
    pub fn value_at(&self, index: usize) -> (value: &V)
        requires
            index < self.key_seq().len(),
        ensures
            value@ == self.value_seq()[index as int],
            self@.contains_key(self.key_seq()[index as int]),
            value@ == self@[self.key_seq()[index as int]],
    {
        proof {
            use_type_invariant(self);
            self.lemma_entries();
        }
        &self.entries[index].1
    }
}

impl<K: KeyOrd + Duplicate, V: Duplicate> Duplicate for VecMap<K, V> {
    fn duplicate(&self) -> (r: Self)
        ensures
            r.key_seq() == self.key_seq(),
            r.value_seq() == self.value_seq(),
    {
        proof {
            use_type_invariant(self);
        }
        let mut entries: Vec<(K, V)> = Vec::new();
        let mut i: usize = 0;
        while i < self.entries.len()
            invariant
                i <= self.entries@.len(),
                entries@.len() == i,
                forall|j: int|
                    0 <= j < i ==> (#[trigger] entries@[j]).0@ == self.entries@[j].0@
                        && entries@[j].1@ == self.entries@[j].1@,
            decreases self.entries@.len() - i,
        {
            let key = self.entries[i].0.duplicate();
            let value = self.entries[i].1.duplicate();
            entries.push((key, value));
            i += 1;
        }
        proof {
            let copy = VecMap { entries };
            assert(copy.key_seq() =~= self.key_seq());
            assert(copy@ =~= self@);
        }
        VecMap { entries }
    }
}

impl<K: KeyOrd + Duplicate, V: Duplicate> Clone for VecMap<K, V> {
    fn clone(&self) -> (r: Self)
        ensures
            r@ == self@,
            r.key_seq() == self.key_seq(),
            r.value_seq() == self.value_seq(),
    {
        self.duplicate()
    }
}

impl<K: KeyOrd + Duplicate, V: Duplicate> VecMap<K, V> {
    /// The values, in the ascending order of their keys.
    pub fn values(&self) -> (r: Vec<V>)
        ensures
            r@.len() == self.value_seq().len(),
            forall|i: int| 0 <= i < r@.len() ==> (#[trigger] r@[i])@ == self.value_seq()[i],
    {
        let mut values: Vec<V> = Vec::new();
        let mut i: usize = 0;
        while i < self.entries.len()
            invariant
                i <= self.entries@.len(),
                values@.len() == i,
                forall|j: int| 0 <= j < i ==> (#[trigger] values@[j])@ == self.value_seq()[j],
            decreases self.entries@.len() - i,
        {
            values.push(self.entries[i].1.duplicate());
            i += 1;
        }
        values
    }

    /// The keys, in ascending order.
    pub fn keys(&self) -> (r: VecSet<K>)
        ensures
            r@ == self@.dom(),
            r.seq() == self.key_seq(),
    {
        proof {
            use_type_invariant(self);
            self.lemma_entries();
        }
        let mut entries: Vec<(K, ())> = Vec::new();
        let mut i: usize = 0;
        while i < self.entries.len()
            invariant
                i <= self.entries@.len(),
                entries@.len() == i,
                forall|j: int| 0 <= j < i ==> (#[trigger] entries@[j]).0@ == self.entries@[j].0@,
            decreases self.entries@.len() - i,
        {
            entries.push((self.entries[i].0.duplicate(), ()));
            i += 1;
        }
        proof {
            let copy = VecMap { entries };
            assert(copy.key_seq() =~= self.key_seq());
            copy.lemma_entries();
        }
        VecSet { map: VecMap { entries } }
    }
}

/// A finite set, kept as a vector of items that ascend.
#[derive(Debug)]
pub struct VecSet<K: KeyOrd> {
    map: VecMap<K, ()>,
}

impl<K: KeyOrd> View for VecSet<K> {
    type V = Set<K::V>;

    closed spec fn view(&self) -> Set<K::V> {
        self.map@.dom()
    }
}

impl<K: KeyOrd> VecSet<K> {
    /// The items, in the order in which they are kept: ascending.
    pub closed spec fn seq(&self) -> Seq<K::V> {
        self.map.key_seq()
    }

    /// The items ascend.
    pub closed spec fn wf(&self) -> bool {
        self.map.wf()
    }

    /// How the set relates to the order of its items.
    pub proof fn lemma_items(&self)
        requires
            self.wf(),
        ensures
            ascending::<K>(self.seq()),
            self.seq().no_duplicates(),
            self@ == self.seq().to_set(),
            self@.finite(),
            self@.len() == self.seq().len(),
    {
        self.map.lemma_entries();
    }
}

impl<K: KeyOrd> VecSet<K> {
    /// The empty set.
    pub fn new() -> (s: Self)
        ensures
            s@ == Set::<K::V>::empty(),
            s.seq() == Seq::<K::V>::empty(),
    {
        VecSet { map: VecMap::new() }
    }

    /// The number of items.
    pub fn len(&self) -> (n: usize)
        ensures
            n == self@.len(),
            n == self.seq().len(),
            self@.finite(),
            ascending::<K>(self.seq()),
            self.seq().no_duplicates(),
            self@ == self.seq().to_set(),
    {
        self.map.len()
    }

    /// Whether `item` is in the set.
    pub fn contains(&self, item: &K) -> (r: bool)
        ensures
            r == self@.contains(item@),
    {
        self.map.contains_key(item)
    }

    /// Puts `item` in, and says whether it was new. A new item is put at its
    /// place among the items, which go on ascending.
    pub fn insert(&mut self, item: K) -> (added: bool)
        ensures
            final(self)@ == old(self)@.insert(item@),
            added == !old(self)@.contains(item@),
            added ==> final(self).seq() == old(self).seq().insert(
                rank::<K>(old(self).seq(), item@),
                item@,
            ),
            !added ==> final(self).seq() == old(self).seq(),
    {
        let replaced = self.map.insert(item, ());
        !replaced
    }

    /// Takes `item` out, and says whether it was there.
    pub fn remove(&mut self, item: &K) -> (removed: bool)
        ensures
            final(self)@ == old(self)@.remove(item@),
            removed == old(self)@.contains(item@),
            !removed ==> final(self).seq() == old(self).seq(),
            removed ==> final(self).seq() == old(self).seq().remove(old(self).seq().index_of(item@)),
    {
        self.map.remove(item)
    }

    /// The item at `index`.
    pub fn item_at(&self, index: usize) -> (item: &K)
        requires
            index < self.seq().len(),
        ensures
            item@ == self.seq()[index as int],
            self@.contains(item@),
    {
        self.map.key_at(index)
    }
}

impl<K: KeyOrd + Duplicate> Clone for VecSet<K> {
    fn clone(&self) -> (r: Self)
        ensures
            r@ == self@,
            r.seq() == self.seq(),
    {
        self.duplicate()
    }
}

impl<K: KeyOrd + Duplicate> Duplicate for VecSet<K> {
    fn duplicate(&self) -> (r: Self)
        ensures
            r.seq() == self.seq(),
    {
        VecSet { map: self.map.duplicate() }
    }
}

} // verus!
