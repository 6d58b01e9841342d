//! An in-process cache of guild resources, keyed by their identifiers.

pub mod builder;
pub mod cache;
pub mod config;
pub mod index;
pub mod iter;
pub mod key;
pub mod model;
pub mod resource;
pub mod store;

pub use builder::RedisCacheBuilder;
pub use cache::{CacheView, RedisCache};
pub use config::{Config, ResourceKind, ResourceType};
pub use iter::{IterReference, RedisCacheIter, ResourceIter};
pub use key::StoreKey;
pub use resource::GuildResource;
pub use store::Store;
