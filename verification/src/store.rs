//! One store of resources: a map from keys to values.
//!
//! The values live in numbered slots. A concurrent hash index binds the word
//! of each key to the slot of its value. Slots that a removal has emptied are
//! remembered and filled again before a new slot is opened.
//!
//! A store is changed through an exclusive reference. Lookups and walks share
//! the store, and any number of them may go on at once.

use crate::index::{
    cursor_pending, index_entries, index_get, index_insert, index_iter, index_new, index_remove,
};
use crate::key::{lemma_packed_injective, StoreKey};
use core::marker::PhantomData;
use dashmap::iter::Iter;
use dashmap::DashMap;
use std::collections::hash_map::RandomState;
use vstd::prelude::*;

verus! {

/// A map from keys of type `K` to values of type `V`.
#[derive(Debug)]
pub struct Store<K, V> {
    index: DashMap<u128, usize, RandomState>,
    slots: Vec<Option<V>>,
    free: Vec<usize>,
    key: PhantomData<K>,
}

impl<K: StoreKey, V> View for Store<K, V> {
    type V = Map<K, V>;

    /// The entries of the store: a key is present when its word is bound,
    /// and its value is what the bound slot holds.
    closed spec fn view(&self) -> Map<K, V> {
        Map::new(
            |key: K| index_entries(self.index).contains_key(key.packed()),
            |key: K| self.slots[index_entries(self.index)[key.packed()] as int]->Some_0,
        )
    }
}

impl<K: StoreKey, V> Store<K, V> {
    /// The binding of words to slots.
    pub(crate) closed spec fn bindings(&self) -> Map<u128, usize> {
        index_entries(self.index)
    }

    /// The representation is sound: every bound word is the word of a key
    /// and is bound to a filled slot of its own, and the remembered slots are
    /// empty and distinct.
    pub closed spec fn wf(&self) -> bool {
        let index = index_entries(self.index);
        &&& index.dom().finite()
        &&& forall|word: u128| #[trigger]
            index.contains_key(word) ==> {
                &&& index[word] < self.slots.len()
                &&& self.slots[index[word] as int] is Some
                &&& K::unpacked(word).packed() == word
            }
        &&& forall|a: u128, b: u128|
            #![trigger index.contains_key(a), index.contains_key(b)]
            index.contains_key(a) && index.contains_key(b) && a != b ==> index[a] != index[b]
        &&& forall|i: int|
            0 <= i < self.free.len() ==> {
                &&& (#[trigger] self.free[i]) < self.slots.len()
                &&& self.slots[self.free[i] as int] is None
            }
        &&& forall|i: int, j: int|
            0 <= i < j < self.free.len() ==> self.free[i] != self.free[j]
    }

    /// A key is present exactly when its word is bound.
    pub(crate) proof fn lemma_present(&self, key: K)
        ensures
            self@.contains_key(key) == self.bindings().contains_key(key.packed()),
    {
    }

    /// An empty store.
    pub fn new() -> (store: Self)
        ensures
            store.wf(),
            store@ =~= Map::empty(),
    {
        let store = Store {
            index: index_new(),
            slots: Vec::new(),
            free: Vec::new(),
            key: PhantomData,
        };
        assert(store@ =~= Map::empty());
        store
    }

    /// Binds `key` to `value`. An earlier value of `key` is replaced and
    /// returned.
    pub fn insert(&mut self, key: K, value: V) -> (prev: Option<V>)
        requires
            old(self).wf(),
        ensures
            final(self).wf(),
            final(self)@ == old(self)@.insert(key, value),
            prev == (if old(self)@.contains_key(key) {
                Some(old(self)@[key])
            } else {
                None
            }),
    {
        let word = key.pack();
        proof {
            K::lemma_unpack_pack(key);
        }
        let prev = match index_get(&self.index, word) {
            Some(slot) => {
                let prev = self.slots[slot].take();
                self.slots[slot] = Some(value);
                prev
            },
            None => {
                match self.free.pop() {
                    Some(slot) => {
                        self.slots[slot] = Some(value);
                        index_insert(&mut self.index, word, slot);
                    },
                    None => {
                        let slot = self.slots.len();
                        self.slots.push(Some(value));
                        index_insert(&mut self.index, word, slot);
                    },
                }
                None
            },
        };
        proof {
            assert forall|other: K| other.packed() == word implies other == key by {
                lemma_packed_injective(other, key);
            }
            assert(self@ =~= old(self)@.insert(key, value));
        }
        prev
    }

    /// Unbinds `key` and returns the value that it had, if it had one.
    pub fn remove(&mut self, key: &K) -> (prev: Option<V>)
        requires
            old(self).wf(),
        ensures
            final(self).wf(),
            final(self)@ == old(self)@.remove(*key),
            prev == (if old(self)@.contains_key(*key) {
                Some(old(self)@[*key])
            } else {
                None
            }),
    {
        let word = key.pack();
        let prev = match index_remove(&mut self.index, word) {
            Some(slot) => {
                let prev = self.slots[slot].take();
                self.free.push(slot);
                prev
            },
            None => None,
        };
        proof {
            assert forall|other: K| other.packed() == word implies other == *key by {
                lemma_packed_injective(other, *key);
            }
            assert(self@ =~= old(self)@.remove(*key));
        }
        prev
    }

    /// The value of `key`, if it has one.
    pub fn get(&self, key: &K) -> (value: Option<&V>)
        requires
            self.wf(),
        ensures
            value == (if self@.contains_key(*key) {
                Some(&self@[*key])
            } else {
                None
            }),
    {
        let word = key.pack();
        match index_get(&self.index, word) {
            Some(slot) => self.slots[slot].as_ref(),
            None => None,
        }
    }

    /// A cursor over the bindings of the store.
    pub(crate) fn cursor(&self) -> (cursor: Iter<
        '_,
        u128,
        usize,
        RandomState,
        DashMap<u128, usize, RandomState>,
    >)
        ensures
            cursor_pending(cursor) == self.bindings(),
    {
        index_iter(&self.index)
    }

    /// The value in the slot that `word` is bound to.
    pub(crate) fn bound_value(&self, word: u128, slot: usize) -> (value: &V)
        requires
            self.wf(),
            self.bindings().contains_pair(word, slot),
        ensures
            K::unpacked(word).packed() == word,
            self@.contains_pair(K::unpacked(word), *value),
    {
        match self.slots[slot].as_ref() {
            Some(value) => value,
            None => vstd::pervasive::unreached(),
        }
    }

    /// The bindings of a sound store are finitely many, and each bound word
    /// is the word of a key.
    pub(crate) proof fn lemma_bindings(&self)
        requires
            self.wf(),
        ensures
            self.bindings().dom().finite(),
            forall|word: u128|
                self.bindings().contains_key(word) ==> (#[trigger] K::unpacked(word)).packed()
                    == word,
    {
    }
}

/// What a map holds after `values` were stored under `key`, one after the
/// other.
pub open spec fn stored_in_turn<K, V>(entries: Map<K, V>, key: K, values: Seq<V>) -> Map<K, V>
    decreases values.len(),
{
    if values.len() == 0 {
        entries
    } else {
        stored_in_turn(entries, key, values.drop_last()).insert(key, values.last())
    }
}

/// However many values are stored under one key, only the last of them is
/// held: the outcome is that of storing the last one alone.
pub proof fn lemma_last_stored_wins<K, V>(entries: Map<K, V>, key: K, values: Seq<V>)
    requires
        values.len() > 0,
    ensures
        stored_in_turn(entries, key, values) == entries.insert(key, values.last()),
        stored_in_turn(entries, key, values)[key] == values.last(),
    decreases values.len(),
{
    let earlier = values.drop_last();
    if earlier.len() > 0 {
        lemma_last_stored_wins(entries, key, earlier);
    } else {
        assert(stored_in_turn(entries, key, earlier) == entries);
    }
    assert(stored_in_turn(entries, key, values) =~= entries.insert(key, values.last()));
}

/// Entries under the same second identifier and different first identifiers
/// do not touch each other: both are held, and taking one out leaves the
/// other as it was.
pub proof fn lemma_pair_keys_independent<V>(
    entries: Map<(u64, u64), V>,
    guild_a: u64,
    guild_b: u64,
    user: u64,
    value_a: V,
    value_b: V,
)
    requires
        guild_a != guild_b,
    ensures
        ({
            let both = entries.insert((guild_a, user), value_a).insert((guild_b, user), value_b);
            &&& both.contains_pair((guild_a, user), value_a)
            &&& both.contains_pair((guild_b, user), value_b)
            &&& !both.remove((guild_a, user)).contains_key((guild_a, user))
            &&& both.remove((guild_a, user)).contains_pair((guild_b, user), value_b)
            &&& both.remove((guild_b, user)).contains_pair((guild_a, user), value_a)
        }),
        (guild_a, user).packed() != (guild_b, user).packed(),
{
    if (guild_a, user).packed() == (guild_b, user).packed() {
        lemma_packed_injective((guild_a, user), (guild_b, user));
    }
}

} // verus!
