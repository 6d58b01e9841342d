//! The concurrent hash index that every store is built on.
//!
//! Everything in this file is trusted: the contracts below describe
//! `dashmap` and are not proved. A map is changed only through an exclusive
//! reference, so a contract may speak of what the map holds before and after
//! a call.

use dashmap::iter::Iter;
use dashmap::DashMap;
use std::collections::hash_map::RandomState;
use vstd::prelude::*;

verus! {

/// `dashmap::DashMap`. Nothing inside a map is visible: what it holds is
/// spoken of through `index_entries`.
#[verifier::external_type_specification]
#[verifier::external_body]
#[verifier::reject_recursive_types(K)]
#[verifier::reject_recursive_types(V)]
#[verifier::reject_recursive_types(S)]
pub struct ExDashMap<K, V, S>(DashMap<K, V, S>);

/// `dashmap::iter::Iter`. Nothing inside a cursor is visible: what it has yet
/// to hand out is spoken of through `cursor_pending`.
#[verifier::external_type_specification]
#[verifier::external_body]
#[verifier::reject_recursive_types(K)]
#[verifier::reject_recursive_types(V)]
#[verifier::reject_recursive_types(S)]
#[verifier::reject_recursive_types(M)]
pub struct ExIter<'a, K, V, S, M>(Iter<'a, K, V, S, M>);

/// The pairs of word and slot that a map holds.
pub uninterp spec fn index_entries(index: DashMap<u128, usize, RandomState>) -> Map<u128, usize>;

/// The pairs of word and slot that a cursor has yet to hand out.
pub uninterp spec fn cursor_pending(
    cursor: Iter<'_, u128, usize, RandomState, DashMap<u128, usize, RandomState>>,
) -> Map<u128, usize>;

/// `DashMap::new`: a fresh map holds nothing.
#[verifier::external_body]
pub(crate) fn index_new() -> (fresh: DashMap<u128, usize, RandomState>)
    ensures
        index_entries(fresh) =~= Map::empty(),
{
    DashMap::new()
}

/// `DashMap::insert`: binds `key` to `slot`, in place of any earlier binding
/// of `key`. What the call returns is dropped.
#[verifier::external_body]
pub(crate) fn index_insert(index: &mut DashMap<u128, usize, RandomState>, key: u128, slot: usize)
    ensures
        index_entries(*final(index)) == index_entries(*old(index)).insert(key, slot),
{
    index.insert(key, slot);
}

/// `DashMap::remove`: unbinds `key` and returns the slot that it was bound to,
/// if it was bound.
#[verifier::external_body]
pub(crate) fn index_remove(
    index: &mut DashMap<u128, usize, RandomState>,
    key: u128,
) -> (prev: Option<usize>)
    ensures
        index_entries(*final(index)) == index_entries(*old(index)).remove(key),
        prev == (if index_entries(*old(index)).contains_key(key) {
            Some(index_entries(*old(index))[key])
        } else {
            None
        }),
{
    index.remove(&key).map(|(_, slot)| slot)
}

/// `DashMap::get`, read through `Ref::value`: the slot that `key` is bound
/// to, if it is bound.
#[verifier::external_body]
pub(crate) fn index_get(
    index: &DashMap<u128, usize, RandomState>,
    key: u128,
) -> (slot: Option<usize>)
    ensures
        slot == (if index_entries(*index).contains_key(key) {
            Some(index_entries(*index)[key])
        } else {
            None
        }),
{
    index.get(&key).map(|found| *found.value())
}

/// `DashMap::iter`: a cursor that has yet to hand out everything that the map
/// holds.
#[verifier::external_body]
pub(crate) fn index_iter<'a>(index: &'a DashMap<u128, usize, RandomState>) -> (cursor: Iter<
    'a,
    u128,
    usize,
    RandomState,
    DashMap<u128, usize, RandomState>,
>)
    ensures
        cursor_pending(cursor) == index_entries(*index),
{
    index.iter()
}

/// `Iter::next`, read through `RefMulti::key` and `RefMulti::value`: one pair
/// that the cursor has not handed out before, or nothing once every pair was
/// handed out. The cursor borrows the map, and every change of a map needs
/// the map exclusively, so the map stays as it was while a cursor lives.
#[verifier::external_body]
pub(crate) fn index_next(
    cursor: &mut Iter<'_, u128, usize, RandomState, DashMap<u128, usize, RandomState>>,
) -> (item: Option<(u128, usize)>)
    ensures
        match item {
            Some((key, slot)) => {
                &&& cursor_pending(*old(cursor)).contains_pair(key, slot)
                &&& cursor_pending(*final(cursor)) == cursor_pending(*old(cursor)).remove(key)
            },
            None => {
                &&& cursor_pending(*old(cursor)).dom() =~= Set::<u128>::empty()
                &&& cursor_pending(*final(cursor)) == cursor_pending(*old(cursor))
            },
        },
{
    cursor.next().map(|r| (*r.key(), *r.value()))
}

} // verus!
