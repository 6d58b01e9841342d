//! Keys of the resource stores.
//!
//! A resource is found either by one identifier or by a pair of them (the
//! owning guild first). Both shapes are stored as one 128-bit word, so that
//! every store shares one index type: a single identifier is its own word,
//! and a pair has its first identifier in the upper half of the word and its
//! second in the lower half.

use vstd::prelude::*;

verus! {

/// A key that a store can index by.
///
/// `packed` must be injective, which `lemma_unpack_pack` establishes: a key
/// is recovered from its word.
pub trait StoreKey: Sized {
    /// The word that stands for this key in an index.
    spec fn packed(self) -> u128;

    /// The key that a word stands for.
    spec fn unpacked(word: u128) -> Self;

    /// The word that stands for this key in an index.
    fn pack(&self) -> (word: u128)
        ensures
            word == self.packed(),
    ;

    /// The key that a word stands for.
    fn unpack(word: u128) -> (key: Self)
        ensures
            key == Self::unpacked(word),
    ;

    /// A key is recovered from its word.
    proof fn lemma_unpack_pack(key: Self)
        ensures
            Self::unpacked(key.packed()) == key,
    ;
}

/// Two keys with the same word are the same key.
pub proof fn lemma_packed_injective<K: StoreKey>(a: K, b: K)
    requires
        a.packed() == b.packed(),
    ensures
        a == b,
{
    K::lemma_unpack_pack(a);
    K::lemma_unpack_pack(b);
}

/// Keys and their words are equally many: where `keys` holds exactly the keys
/// whose word is in `words`, and every word there is the word of a key.
pub proof fn lemma_keys_like_words<K: StoreKey>(keys: Set<K>, words: Set<u128>)
    requires
        words.finite(),
        forall|word: u128| words.contains(word) ==> (#[trigger] K::unpacked(word)).packed() == word,
        forall|key: K| keys.contains(key) == words.contains(#[trigger] key.packed()),
    ensures
        keys.finite(),
        keys.len() == words.len(),
{
    let unpack = |word: u128| K::unpacked(word);
    assert forall|key: K| keys.contains(key) == words.map(unpack).contains(key) by {
        K::lemma_unpack_pack(key);
        if keys.contains(key) {
            assert(words.contains(key.packed()) && key == unpack(key.packed()));
        }
    }
    assert(words.map(unpack) =~= keys);
    assert(vstd::relations::injective_on(unpack, words)) by {
        assert forall|a: u128, b: u128|
            words.contains(a) && words.contains(b) && #[trigger] unpack(a) == #[trigger] unpack(
                b,
            ) implies a == b by {
            assert(K::unpacked(a).packed() == a);
            assert(K::unpacked(b).packed() == b);
        }
    }
    vstd::set_lib::lemma_map_size(words, keys, unpack);
}

impl StoreKey for u64 {
    open spec fn packed(self) -> u128 {
        self as u128
    }

    open spec fn unpacked(word: u128) -> u64 {
        (word & 0xffff_ffff_ffff_ffff) as u64
    }

    fn pack(&self) -> (word: u128) {
        *self as u128
    }

    fn unpack(word: u128) -> (key: u64) {
        (word & 0xffff_ffff_ffff_ffff) as u64
    }

    proof fn lemma_unpack_pack(key: u64) {
        assert(((key as u128) & 0xffff_ffff_ffff_ffff) as u64 == key) by (bit_vector);
    }
}

impl StoreKey for (u64, u64) {
    open spec fn packed(self) -> u128 {
        ((self.0 as u128) << 64) | (self.1 as u128)
    }

    open spec fn unpacked(word: u128) -> (u64, u64) {
        ((word >> 64) as u64, (word & 0xffff_ffff_ffff_ffff) as u64)
    }

    fn pack(&self) -> (word: u128) {
        ((self.0 as u128) << 64) | (self.1 as u128)
    }

    fn unpack(word: u128) -> (key: (u64, u64)) {
        ((word >> 64) as u64, (word & 0xffff_ffff_ffff_ffff) as u64)
    }

    proof fn lemma_unpack_pack(key: (u64, u64)) {
        let a = key.0;
        let b = key.1;
        assert(((((a as u128) << 64) | (b as u128)) >> 64) as u64 == a) by (bit_vector);
        assert(((((a as u128) << 64) | (b as u128)) & 0xffff_ffff_ffff_ffff) as u64 == b)
            by (bit_vector);
    }
}

} // verus!
