//! Resources that belong to a guild.

use core::ops::Deref;
use vstd::prelude::*;

verus! {

/// A resource together with the guild that owns it.
///
/// The guild is the one under which the resource was stored; it is never
/// worked out from the resource. A wrapper is not changed after it is made: a
/// resource is updated by storing a new wrapper.
#[derive(Debug)]
pub struct GuildResource<T> {
    guild_id: u64,
    value: T,
}

impl<T> GuildResource<T> {
    /// The wrapper of `value` under `guild_id`.
    pub closed spec fn of(guild_id: u64, value: T) -> GuildResource<T> {
        GuildResource { guild_id, value }
    }

    /// The guild that owns the resource.
    pub closed spec fn owner(&self) -> u64 {
        self.guild_id
    }

    /// The resource.
    pub closed spec fn inner(&self) -> T {
        self.value
    }

    /// A wrapper shows the guild it was made with and, read through, the
    /// resource it was made from.
    pub proof fn lemma_read_through(guild_id: u64, value: T)
        ensures
            Self::of(guild_id, value).owner() == guild_id,
            Self::of(guild_id, value).inner() == value,
    {
    }

    /// Pairs `value` with the guild that owns it.
    pub fn new(guild_id: u64, value: T) -> (wrapped: GuildResource<T>)
        ensures
            wrapped == Self::of(guild_id, value),
    {
        GuildResource { guild_id, value }
    }

    /// The guild that owns the resource.
    pub fn guild_id(&self) -> (guild_id: u64)
        ensures
            guild_id == self.owner(),
    {
        self.guild_id
    }

    /// The resource.
    pub fn resource(&self) -> (value: &T)
        ensures
            *value == self.inner(),
    {
        &self.value
    }
}

impl<T> Deref for GuildResource<T> {
    type Target = T;

    fn deref(&self) -> (value: &T)
        ensures
            *value == self.inner(),
    {
        &self.value
    }
}

} // verus!
