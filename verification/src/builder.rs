//! Step-by-step construction of a cache.

use crate::cache::{CacheView, RedisCache};
use crate::config::{Config, ResourceKind, ResourceType};
use vstd::prelude::*;

verus! {

/// Gathers a configuration and builds a cache from it.
///
/// A builder starts from the default configuration. Each setter replaces one
/// part of it and hands the builder back, so that setters can follow one
/// another in any order. Nothing is made until `build` is called.
#[derive(Debug)]
#[must_use]
pub struct RedisCacheBuilder(Config);

impl RedisCacheBuilder {
    /// The configuration gathered so far.
    pub closed spec fn config(&self) -> Config {
        self.0
    }

    /// A builder with the default configuration.
    pub fn new() -> (builder: RedisCacheBuilder)
        ensures
            builder.config().is_default(),
    {
        RedisCacheBuilder(Config::new())
    }

    /// An empty cache with the configuration gathered so far.
    pub fn build(self) -> (cache: RedisCache)
        ensures
            cache.wf(),
            cache@ == CacheView::empty(self.config()),
    {
        RedisCache::new_with_config(self.0)
    }

    /// Chooses the categories that the cache stores.
    pub fn resource_types(self, resource_types: ResourceType) -> (builder: RedisCacheBuilder)
        ensures
            builder.config() == (Config { resource_types, ..self.config() }),
    {
        let mut builder = self;
        builder.0.resource_types = resource_types;
        builder
    }

    /// Chooses how many messages are retained for each channel.
    pub fn message_cache_size(self, message_cache_size: usize) -> (builder: RedisCacheBuilder)
        ensures
            builder.config() == (Config { message_cache_size, ..self.config() }),
    {
        let mut builder = self;
        builder.0.message_cache_size = message_cache_size;
        builder
    }
}

impl Default for RedisCacheBuilder {
    fn default() -> (builder: RedisCacheBuilder)
        ensures
            builder.config().is_default(),
    {
        RedisCacheBuilder::new()
    }
}

/// A cache built from an untouched builder cannot be told from a cache made
/// directly: both configurations are the default one, so the two caches
/// select the same categories, retain as many messages, and hold nothing.
pub proof fn lemma_untouched_builder_is_default(built: Config, direct: Config)
    requires
        built.is_default(),
        direct.is_default(),
    ensures
        built.resource_types@ == direct.resource_types@,
        built.message_cache_size == direct.message_cache_size,
        forall|kind: ResourceKind|
            CacheView::empty(built).wants(kind) == CacheView::empty(direct).wants(kind),
        (CacheView { config: direct, ..CacheView::empty(built) }) == CacheView::empty(direct),
{
}

} // verus!
