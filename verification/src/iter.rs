//! Walks over the resources of a cache.
//!
//! [`RedisCacheIter`] makes one walk for each category of resource. A walk is
//! a [`ResourceIter`]: each step of it hands out one entry as an
//! [`IterReference`], which shows the key and the value of the entry and
//! reads as the value. Nothing is looked at before a step asks for it, and
//! nothing can be changed through a walk.

use crate::cache::RedisCache;
use crate::index::{cursor_pending, index_next};
use crate::key::{lemma_keys_like_words, lemma_packed_injective, StoreKey};
use crate::model::{
    CachedEmoji, CachedGuild, CachedMember, CachedMessage, CachedPresence, CachedSticker,
    CachedVoiceState,
};
use crate::resource::GuildResource;
use crate::store::Store;
use core::ops::Deref;
use dashmap::iter::Iter;
use dashmap::DashMap;
use std::collections::hash_map::RandomState;
use twilight_model::channel::{Channel, StageInstance};
use twilight_model::guild::{GuildIntegration, Role};
use twilight_model::user::User;
use vstd::prelude::*;

verus! {

/// One entry of a store, as a walk hands it out.
pub struct IterReference<'a, K, V> {
    key: K,
    value: &'a V,
}

impl<'a, K, V> View for IterReference<'a, K, V> {
    type V = (K, V);

    /// The key and the value of the entry.
    closed spec fn view(&self) -> (K, V) {
        (self.key, *self.value)
    }
}

impl<'a, K, V> IterReference<'a, K, V> {
    /// The entry of `key` and `value`.
    pub(crate) fn new(key: K, value: &'a V) -> (entry: Self)
        ensures
            entry@ == (key, *value),
    {
        IterReference { key, value }
    }

    /// The key of the entry.
    pub fn key(&self) -> (key: &K)
        ensures
            *key == self@.0,
    {
        &self.key
    }

    /// The value of the entry.
    pub fn value(&self) -> (value: &V)
        ensures
            *value == self@.1,
    {
        self.value
    }
}

impl<'a, K, V> Deref for IterReference<'a, K, V> {
    type Target = V;

    fn deref(&self) -> (value: &V)
        ensures
            *value == self@.1,
    {
        self.value
    }
}

/// A walk over the entries of one store, in no particular order.
pub struct ResourceIter<'a, K, V> {
    store: &'a Store<K, V>,
    cursor: Iter<'a, u128, usize, RandomState, DashMap<u128, usize, RandomState>>,
}

impl<'a, K: StoreKey, V> ResourceIter<'a, K, V> {
    /// The walk is over a sound store, and what it has yet to hand out is
    /// bound in that store.
    pub closed spec fn wf(&self) -> bool {
        let pending = cursor_pending(self.cursor);
        &&& self.store.wf()
        &&& pending.dom().finite()
        &&& forall|word: u128| #[trigger]
            pending.contains_key(word) ==> self.store.bindings().contains_pair(
                word,
                pending[word],
            )
    }

    /// The entries that the walk has yet to hand out.
    pub closed spec fn remaining(&self) -> Map<K, V> {
        Map::new(
            |key: K| cursor_pending(self.cursor).contains_key(key.packed()),
            |key: K| self.store@[key],
        )
    }

    /// A walk has finitely many entries left.
    pub proof fn lemma_finite(&self)
        requires
            self.wf(),
        ensures
            self.remaining().dom().finite(),
    {
        self.store.lemma_bindings();
        lemma_keys_like_words(self.remaining().dom(), cursor_pending(self.cursor).dom());
    }

    /// A walk over all the entries of `store`.
    pub fn new(store: &'a Store<K, V>) -> (walk: Self)
        requires
            store.wf(),
        ensures
            walk.wf(),
            walk.remaining() == store@,
    {
        let walk = ResourceIter { store, cursor: store.cursor() };
        proof {
            store.lemma_bindings();
            assert forall|key: K| walk.remaining().contains_key(key) == store@.contains_key(
                key,
            ) by {
                store.lemma_present(key);
            }
            assert(walk.remaining() =~= store@);
        }
        walk
    }

    /// Hands out one entry that the walk has not handed out before, or
    /// nothing when no entry is left.
    pub fn next(&mut self) -> (item: Option<IterReference<'a, K, V>>)
        requires
            old(self).wf(),
        ensures
            final(self).wf(),
            match item {
                Some(entry) => {
                    &&& old(self).remaining().contains_pair(entry@.0, entry@.1)
                    &&& final(self).remaining() == old(self).remaining().remove(entry@.0)
                },
                None => {
                    &&& old(self).remaining() =~= Map::empty()
                    &&& final(self).remaining() == old(self).remaining()
                },
            },
    {
        let store: &'a Store<K, V> = self.store;
        match index_next(&mut self.cursor) {
            Some((word, slot)) => {
                let value = store.bound_value(word, slot);
                let key = K::unpack(word);
                proof {
                    assert forall|other: K| other.packed() == word implies other == key by {
                        lemma_packed_injective(other, key);
                    }
                    assert(self.remaining() =~= old(self).remaining().remove(key));
                }
                Some(IterReference::new(key, value))
            },
            None => {
                proof {
                    assert(self.remaining() =~= Map::empty());
                }
                None
            },
        }
    }

    /// Makes every step that is left and returns what the steps handed out:
    /// each remaining entry once.
    pub fn collect(self) -> (items: Vec<IterReference<'a, K, V>>)
        requires
            self.wf(),
        ensures
            items.len() == self.remaining().dom().len(),
            forall|i: int, j: int| 0 <= i < j < items.len() ==> items[i]@.0 != items[j]@.0,
            forall|i: int|
                0 <= i < items.len() ==> self.remaining().contains_pair(
                    (#[trigger] items[i])@.0,
                    items[i]@.1,
                ),
            forall|key: K|
                self.remaining().contains_key(key) ==> exists|i: int|
                    0 <= i < items.len() && (#[trigger] items[i])@.0 == key,
    {
        let mut walk = self;
        let mut items: Vec<IterReference<'a, K, V>> = Vec::new();
        proof {
            walk.lemma_finite();
        }
        loop
            invariant
                walk.wf(),
                walk.remaining().dom().finite(),
                items.len() + walk.remaining().dom().len() == self.remaining().dom().len(),
                forall|i: int, j: int| 0 <= i < j < items.len() ==> items[i]@.0 != items[j]@.0,
                forall|i: int|
                    0 <= i < items.len() ==> {
                        &&& self.remaining().contains_pair((#[trigger] items[i])@.0, items[i]@.1)
                        &&& !walk.remaining().contains_key(items[i]@.0)
                    },
                forall|key: K|
                    self.remaining().contains_key(key) ==> walk.remaining().contains_key(key)
                        || exists|i: int| 0 <= i < items.len() && (#[trigger] items[i])@.0 == key,
                forall|key: K|
                    walk.remaining().contains_key(key) ==> self.remaining().contains_pair(
                        key,
                        walk.remaining()[key],
                    ),
            ensures
                items.len() == self.remaining().dom().len(),
                forall|i: int, j: int| 0 <= i < j < items.len() ==> items[i]@.0 != items[j]@.0,
                forall|i: int|
                    0 <= i < items.len() ==> self.remaining().contains_pair(
                        (#[trigger] items[i])@.0,
                        items[i]@.1,
                    ),
                forall|key: K|
                    self.remaining().contains_key(key) ==> exists|i: int|
                        0 <= i < items.len() && (#[trigger] items[i])@.0 == key,
            decreases walk.remaining().dom().len(),
        {
            let ghost before = walk;
            let ghost gathered = items@;
            match walk.next() {
                Some(entry) => {
                    items.push(entry);
                    proof {
                        walk.lemma_finite();
                        let last = gathered.len() as int;
                        assert(items[last] == entry);
                        assert forall|i: int| 0 <= i < items.len() implies {
                            &&& self.remaining().contains_pair(
                                (#[trigger] items[i])@.0,
                                items[i]@.1,
                            )
                            &&& !walk.remaining().contains_key(items[i]@.0)
                        } by {
                            if i < last {
                                assert(items[i] == gathered[i]);
                            }
                        }
                        assert forall|key: K| self.remaining().contains_key(key) implies {
                            ||| walk.remaining().contains_key(key)
                            ||| exists|i: int|
                                0 <= i < items.len() && (#[trigger] items[i])@.0 == key
                        } by {
                            if before.remaining().contains_key(key) {
                                if key == entry@.0 {
                                    assert(items[last]@.0 == key);
                                }
                            } else {
                                let i = choose|i: int|
                                    0 <= i < gathered.len() && (#[trigger] gathered[i])@.0 == key;
                                assert(items[i] == gathered[i]);
                            }
                        }
                        assert forall|i: int, j: int| 0 <= i < j < items.len() implies items[i]@.0
                            != items[j]@.0 by {
                            assert(items[i] == gathered[i]);
                            if j < last {
                                assert(items[j] == gathered[j]);
                            }
                        }
                    }
                },
                None => {
                    break ;
                },
            }
        }
        items
    }
}

/// Makes the walks over the resources of a cache.
///
/// A walk goes over every resource of its category, in all channels and
/// guilds, in no particular order.
#[derive(Debug)]
pub struct RedisCacheIter<'a>(&'a RedisCache);

impl<'a> RedisCacheIter<'a> {
    /// The cache that the walks are over.
    pub closed spec fn cache(&self) -> RedisCache {
        *self.0
    }

    /// The walks over the resources of `cache`.
    pub fn new(cache: &'a RedisCache) -> (walks: Self)
        ensures
            walks.cache() == *cache,
    {
        RedisCacheIter(cache)
    }

    /// The cache that the walks are over.
    pub fn cache_ref(&'a self) -> (cache: &'a RedisCache)
        ensures
            *cache == self.cache(),
    {
        self.0
    }

    /// A walk over the channels in the cache.
    pub fn channels(&self) -> (walk: ResourceIter<'a, u64, Channel>)
        requires
            self.cache().wf(),
        ensures
            walk.wf(),
            walk.remaining() == self.cache()@.channels,
    {
        ResourceIter::new(&self.0.channels)
    }

    /// A walk over the emojis in the cache.
    pub fn emojis(&self) -> (walk: ResourceIter<'a, u64, GuildResource<CachedEmoji>>)
        requires
            self.cache().wf(),
        ensures
            walk.wf(),
            walk.remaining() == self.cache()@.emojis,
    {
        ResourceIter::new(&self.0.emojis)
    }

    /// A walk over the guilds in the cache.
    pub fn guilds(&self) -> (walk: ResourceIter<'a, u64, CachedGuild>)
        requires
            self.cache().wf(),
        ensures
            walk.wf(),
            walk.remaining() == self.cache()@.guilds,
    {
        ResourceIter::new(&self.0.guilds)
    }

    /// A walk over the integrations in the cache.
    pub fn integrations(&self) -> (walk: ResourceIter<
        'a,
        (u64, u64),
        GuildResource<GuildIntegration>,
    >)
        requires
            self.cache().wf(),
        ensures
            walk.wf(),
            walk.remaining() == self.cache()@.integrations,
    {
        ResourceIter::new(&self.0.integrations)
    }

    /// A walk over the members across all guilds in the cache.
    pub fn members(&self) -> (walk: ResourceIter<'a, (u64, u64), CachedMember>)
        requires
            self.cache().wf(),
        ensures
            walk.wf(),
            walk.remaining() == self.cache()@.members,
    {
        ResourceIter::new(&self.0.members)
    }

    /// A walk over the messages in the cache.
    pub fn messages(&self) -> (walk: ResourceIter<'a, u64, CachedMessage>)
        requires
            self.cache().wf(),
        ensures
            walk.wf(),
            walk.remaining() == self.cache()@.messages,
    {
        ResourceIter::new(&self.0.messages)
    }

    /// A walk over the presences in the cache.
    pub fn presences(&self) -> (walk: ResourceIter<'a, (u64, u64), CachedPresence>)
        requires
            self.cache().wf(),
        ensures
            walk.wf(),
            walk.remaining() == self.cache()@.presences,
    {
        ResourceIter::new(&self.0.presences)
    }

    /// A walk over the roles in the cache.
    pub fn roles(&self) -> (walk: ResourceIter<'a, u64, GuildResource<Role>>)
        requires
            self.cache().wf(),
        ensures
            walk.wf(),
            walk.remaining() == self.cache()@.roles,
    {
        ResourceIter::new(&self.0.roles)
    }

    /// A walk over the stage instances in the cache.
    pub fn stage_instances(&self) -> (walk: ResourceIter<'a, u64, GuildResource<StageInstance>>)
        requires
            self.cache().wf(),
        ensures
            walk.wf(),
            walk.remaining() == self.cache()@.stage_instances,
    {
        ResourceIter::new(&self.0.stage_instances)
    }

    /// A walk over the stickers in the cache.
    pub fn stickers(&self) -> (walk: ResourceIter<'a, u64, GuildResource<CachedSticker>>)
        requires
            self.cache().wf(),
        ensures
            walk.wf(),
            walk.remaining() == self.cache()@.stickers,
    {
        ResourceIter::new(&self.0.stickers)
    }

    /// A walk over the users in the cache.
    pub fn users(&self) -> (walk: ResourceIter<'a, u64, User>)
        requires
            self.cache().wf(),
        ensures
            walk.wf(),
            walk.remaining() == self.cache()@.users,
    {
        ResourceIter::new(&self.0.users)
    }

    /// A walk over the voice states in the cache.
    pub fn voice_states(&self) -> (walk: ResourceIter<'a, (u64, u64), CachedVoiceState>)
        requires
            self.cache().wf(),
        ensures
            walk.wf(),
            walk.remaining() == self.cache()@.voice_states,
    {
        ResourceIter::new(&self.0.voice_states)
    }
}

} // verus!
