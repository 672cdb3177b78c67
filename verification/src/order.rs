//! The order in which keys are kept: byte strings are ordered as words are in
//! a dictionary, and so are names and signing keys, by their bytes.

use crate::collections::KeyEq;
use vstd::prelude::*;

verus! {

/// Whether `a` comes before `b`: at the first place where the two differ `a`
/// has the smaller byte, or `a` ends there and `b` goes on.
pub open spec fn bytes_precede(a: Seq<u8>, b: Seq<u8>) -> bool
    decreases a.len(),
{
    if b.len() == 0 {
        false
    } else if a.len() == 0 {
        true
    } else if a[0] != b[0] {
        a[0] < b[0]
    } else {
        bytes_precede(a.drop_first(), b.drop_first())
    }
}

/// No byte string comes before itself.
pub proof fn lemma_bytes_irreflexive(a: Seq<u8>)
    ensures
        !bytes_precede(a, a),
    decreases a.len(),
{
    if a.len() > 0 {
        lemma_bytes_irreflexive(a.drop_first());
    }
}

/// What comes before something that comes before a third comes before the
/// third.
pub proof fn lemma_bytes_transitive(a: Seq<u8>, b: Seq<u8>, c: Seq<u8>)
    requires
        bytes_precede(a, b),
        bytes_precede(b, c),
    ensures
        bytes_precede(a, c),
    decreases a.len(),
{
    if a.len() > 0 && a[0] == b[0] && b[0] == c[0] {
        lemma_bytes_transitive(a.drop_first(), b.drop_first(), c.drop_first());
    }
}

/// Of two byte strings that differ one comes before the other.
pub proof fn lemma_bytes_total(a: Seq<u8>, b: Seq<u8>)
    ensures
        a == b || bytes_precede(a, b) || bytes_precede(b, a),
    decreases a.len(),
{
    if a.len() > 0 && b.len() > 0 && a[0] == b[0] {
        lemma_bytes_total(a.drop_first(), b.drop_first());
        if a.drop_first() == b.drop_first() {
            assert(a =~= seq![a[0]] + a.drop_first());
            assert(b =~= seq![b[0]] + b.drop_first());
        }
    } else if a.len() == 0 && b.len() == 0 {
        assert(a =~= b);
    }
}

/// Whether `a` comes before `b`.
pub fn bytes_before(a: &[u8], b: &[u8]) -> (r: bool)
    ensures
        r == bytes_precede(a@, b@),
{
    let mut i: usize = 0;
    proof {
        assert(a@.skip(0) =~= a@);
        assert(b@.skip(0) =~= b@);
    }
    while i < a.len() && i < b.len()
        invariant
            i <= a.len(),
            i <= b.len(),
            bytes_precede(a@, b@) == bytes_precede(a@.skip(i as int), b@.skip(i as int)),
        decreases a.len() - i,
    {
        proof {
            assert(a@.skip(i as int).drop_first() =~= a@.skip(i + 1));
            assert(b@.skip(i as int).drop_first() =~= b@.skip(i + 1));
        }
        if a[i] != b[i] {
            return a[i] < b[i];
        }
        i += 1;
    }
    i < b.len()
}

/// Keys that are kept in order.
pub trait KeyOrd: KeyEq {
    /// Whether a key with the view `a` comes before one with the view `b`.
    spec fn precedes(a: Self::V, b: Self::V) -> bool;

    /// The keys are in a row: none comes before itself, what comes before
    /// something that comes before a third comes before the third, and of
    /// two keys that differ one comes before the other.
    proof fn lemma_in_a_row(a: Self::V, b: Self::V, c: Self::V)
        ensures
            !Self::precedes(a, a),
            Self::precedes(a, b) && Self::precedes(b, c) ==> Self::precedes(a, c),
            a == b || Self::precedes(a, b) || Self::precedes(b, a),
    ;

    /// Whether the key comes before `other`.
    fn key_before(&self, other: &Self) -> (r: bool)
        ensures
            r == Self::precedes(self@, other@),
    ;
}

impl KeyOrd for Vec<u8> {
    open spec fn precedes(a: Seq<u8>, b: Seq<u8>) -> bool {
        bytes_precede(a, b)
    }

    proof fn lemma_in_a_row(a: Seq<u8>, b: Seq<u8>, c: Seq<u8>) {
        lemma_bytes_irreflexive(a);
        lemma_bytes_total(a, b);
        if bytes_precede(a, b) && bytes_precede(b, c) {
            lemma_bytes_transitive(a, b, c);
        }
    }

    fn key_before(&self, other: &Self) -> (r: bool) {
        bytes_before(self.as_slice(), other.as_slice())
    }
}

impl KeyOrd for u64 {
    open spec fn precedes(a: u64, b: u64) -> bool {
        a < b
    }

    proof fn lemma_in_a_row(a: u64, b: u64, c: u64) {
    }

    fn key_before(&self, other: &Self) -> (r: bool) {
        *self < *other
    }
}

/// Whether every key of `keys` comes before all that follow it.
pub open spec fn ascending<K: KeyOrd>(keys: Seq<K::V>) -> bool {
    forall|i: int, j: int|
        #![trigger keys[i], keys[j]]
        0 <= i < j < keys.len() ==> K::precedes(keys[i], keys[j])
}

/// The first place from `from` on whose key does not come before `key`, or
/// the length of `keys` if there is none.
pub open spec fn rank_from<K: KeyOrd>(keys: Seq<K::V>, key: K::V, from: int) -> int
    decreases keys.len() - from,
{
    if from < 0 || from >= keys.len() || !K::precedes(keys[from], key) {
        from
    } else {
        rank_from::<K>(keys, key, from + 1)
    }
}

/// The place of `key` among `keys` that ascend: that of the first key that
/// does not come before it.
pub open spec fn rank<K: KeyOrd>(keys: Seq<K::V>, key: K::V) -> int {
    rank_from::<K>(keys, key, 0)
}

/// The place of a key is behind the keys that come before it and at the
/// first that does not.
pub proof fn lemma_rank<K: KeyOrd>(keys: Seq<K::V>, key: K::V, from: int)
    requires
        0 <= from <= keys.len(),
    ensures
        from <= rank_from::<K>(keys, key, from) <= keys.len(),
        forall|j: int|
            from <= j < rank_from::<K>(keys, key, from) ==> K::precedes(#[trigger] keys[j], key),
        rank_from::<K>(keys, key, from) < keys.len() ==> !K::precedes(
            keys[rank_from::<K>(keys, key, from)],
            key,
        ),
    decreases keys.len() - from,
{
    if from < keys.len() && K::precedes(keys[from], key) {
        lemma_rank::<K>(keys, key, from + 1);
    }
}

/// Keys that ascend go on ascending when a new key is put at its place, and
/// they are then the keys there were and the new one.
pub proof fn lemma_put_in_place<K: KeyOrd>(keys: Seq<K::V>, key: K::V)
    requires
        ascending::<K>(keys),
        !keys.contains(key),
    ensures
        0 <= rank::<K>(keys, key) <= keys.len(),
        ascending::<K>(keys.insert(rank::<K>(keys, key), key)),
        keys.insert(rank::<K>(keys, key), key).to_set() == keys.to_set().insert(key),
{
    lemma_rank::<K>(keys, key, 0);
    let place = rank::<K>(keys, key);
    let after = keys.insert(place, key);
    assert forall|i: int, j: int| 0 <= i < j < after.len() implies K::precedes(
        after[i],
        after[j],
    ) by {
        let i0 = if i < place { i } else { i - 1 };
        let j0 = if j < place { j } else { j - 1 };
        if i == place {
            // The key at the place does not come before the new key and is
            // not it, so the new key comes before it and all that follow.
            assert(keys.contains(keys[j0]));
            K::lemma_in_a_row(keys[place], key, keys[j0]);
            K::lemma_in_a_row(key, keys[place], keys[j0]);
        } else if j == place {
            assert(K::precedes(keys[i0], key));
        } else {
            assert(K::precedes(keys[i0], keys[j0]));
        }
    }
    assert forall|q: K::V| after.to_set().contains(q) <==> keys.to_set().insert(key).contains(
        q,
    ) by {
        if keys.contains(q) {
            let j = keys.index_of(q);
            let j1 = if j < place { j } else { j + 1 };
            assert(after[j1] == q);
        }
        if q == key {
            assert(after[place] == q);
        }
        if after.contains(q) && q != key {
            let j = after.index_of(q);
            let j0 = if j < place { j } else { j - 1 };
            assert(keys[j0] == q);
        }
    }
    assert(after.to_set() =~= keys.to_set().insert(key));
}

} // verus!
