//! Names in the 256-bit address space, public signing keys, and the hash that
//! derives the one from the other.

use crate::collections::{Duplicate, KeyEq};
use crate::order::{
    bytes_before, bytes_precede, lemma_bytes_irreflexive, lemma_bytes_total,
    lemma_bytes_transitive, KeyOrd,
};
use vstd::prelude::*;

verus! {

/// The digest that SHA3-256 assigns to a byte string.
pub uninterp spec fn sha3_256_digest(data: Seq<u8>) -> Seq<u8>;

/// Calls `tiny_keccak::sha3_256`. The contract only gives the returned digest
/// its name: the same bytes always hash to the same 32 bytes. Nothing is
/// claimed about which bytes those are.
#[verifier::external_body]
fn sha3_256(data: &[u8]) -> (digest: [u8; 32])
    ensures
        digest@ == sha3_256_digest(data@),
{
    tiny_keccak::sha3_256(data)
}

/// Whether two arrays of 32 bytes hold the same bytes.
fn same_bytes(a: &[u8; 32], b: &[u8; 32]) -> (r: bool)
    ensures
        r == (*a == *b),
{
    let mut i: usize = 0;
    while i < 32
        invariant
            i <= 32,
            forall|j: int| 0 <= j < i ==> a[j] == b[j],
        decreases 32 - i,
    {
        if a[i] != b[i] {
            return false;
        }
        i += 1;
    }
    assert(*a =~= *b);
    true
}

/// A 256-bit name: the address of an account or of a piece of data.
#[derive(Clone, Copy, Debug, PartialEq, Eq, PartialOrd, Ord, Hash)]
pub struct XorName(pub [u8; 32]);

/// A public signing key.
#[derive(Clone, Copy, Debug, PartialEq, Eq, PartialOrd, Ord, Hash)]
pub struct PublicKey(pub [u8; 32]);

impl View for XorName {
    type V = XorName;

    open spec fn view(&self) -> XorName {
        *self
    }
}

impl View for PublicKey {
    type V = PublicKey;

    open spec fn view(&self) -> PublicKey {
        *self
    }
}

/// Whether `name` is the name that hashing `data` gives.
pub open spec fn is_digest_name(name: XorName, data: Seq<u8>) -> bool {
    name.0@ == sha3_256_digest(data)
}

/// The name that a byte string hashes to.
pub open spec fn digest_name(data: Seq<u8>) -> XorName {
    choose|name: XorName| is_digest_name(name, data)
}

/// The name of the account that belongs to a signing key: the hash of the key.
pub open spec fn key_name(key: PublicKey) -> XorName {
    digest_name(key.0@)
}

impl XorName {
    /// Whether the two names are the same.
    pub fn same(&self, other: &XorName) -> (r: bool)
        ensures
            r == (*self == *other),
    {
        same_bytes(&self.0, &other.0)
    }

    /// The name that `data` hashes to.
    pub fn of_bytes(data: &[u8]) -> (name: XorName)
        ensures
            name == digest_name(data@),
    {
        let name = XorName(sha3_256(data));
        proof {
            assert(is_digest_name(name, data@));
            let chosen = digest_name(data@);
            assert(chosen.0 =~= name.0);
        }
        name
    }

    /// The name of the account that belongs to `key`.
    pub fn of_key(key: &PublicKey) -> (name: XorName)
        ensures
            name == key_name(*key),
    {
        XorName::of_bytes(key.0.as_slice())
    }
}

impl PublicKey {
    /// Whether the two keys are the same.
    pub fn same(&self, other: &PublicKey) -> (r: bool)
        ensures
            r == (*self == *other),
    {
        same_bytes(&self.0, &other.0)
    }
}

impl KeyEq for XorName {
    fn key_eq(&self, other: &Self) -> (r: bool) {
        self.same(other)
    }
}

impl Duplicate for XorName {
    fn duplicate(&self) -> (r: Self) {
        *self
    }
}

impl KeyEq for PublicKey {
    fn key_eq(&self, other: &Self) -> (r: bool) {
        self.same(other)
    }
}

impl Duplicate for PublicKey {
    fn duplicate(&self) -> (r: Self) {
        *self
    }
}

impl KeyOrd for XorName {
    open spec fn precedes(a: XorName, b: XorName) -> bool {
        bytes_precede(a.0@, b.0@)
    }

    proof fn lemma_in_a_row(a: XorName, b: XorName, c: XorName) {
        lemma_bytes_irreflexive(a.0@);
        lemma_bytes_total(a.0@, b.0@);
        if a.0@ == b.0@ {
            assert(a.0 =~= b.0);
        }
        if bytes_precede(a.0@, b.0@) && bytes_precede(b.0@, c.0@) {
            lemma_bytes_transitive(a.0@, b.0@, c.0@);
        }
    }

    fn key_before(&self, other: &Self) -> (r: bool) {
        bytes_before(self.0.as_slice(), other.0.as_slice())
    }
}

impl KeyOrd for PublicKey {
    open spec fn precedes(a: PublicKey, b: PublicKey) -> bool {
        bytes_precede(a.0@, b.0@)
    }

    proof fn lemma_in_a_row(a: PublicKey, b: PublicKey, c: PublicKey) {
        lemma_bytes_irreflexive(a.0@);
        lemma_bytes_total(a.0@, b.0@);
        if a.0@ == b.0@ {
            assert(a.0 =~= b.0);
        }
        if bytes_precede(a.0@, b.0@) && bytes_precede(b.0@, c.0@) {
            lemma_bytes_transitive(a.0@, b.0@, c.0@);
        }
    }

    fn key_before(&self, other: &Self) -> (r: bool) {
        bytes_before(self.0.as_slice(), other.0.as_slice())
    }
}

} // verus!
