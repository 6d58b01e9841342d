//! The cache: one store for each category of resource.
//!
//! Whoever feeds the cache decides which key a resource is stored under.
//! The cache keeps a resource only where its configuration selects the
//! category; an unselected category stays empty.
//!
//! The cache is changed through an exclusive reference. Lookups and walks
//! share the cache, and any number of them may go on at once.

use crate::builder::RedisCacheBuilder;
use crate::config::{Config, ResourceKind};
use crate::iter::RedisCacheIter;
use crate::model::{
    CachedEmoji, CachedGuild, CachedMember, CachedMessage, CachedPresence, CachedSticker,
    CachedVoiceState,
};
use crate::resource::GuildResource;
use crate::store::Store;
use twilight_model::channel::{Channel, StageInstance};
use twilight_model::guild::{GuildIntegration, Role};
use twilight_model::user::User;
use vstd::prelude::*;

verus! {

/// What a cache holds, as mathematical maps.
#[verifier::ext_equal]
pub struct CacheView {
    pub config: Config,
    pub channels: Map<u64, Channel>,
    pub emojis: Map<u64, GuildResource<CachedEmoji>>,
    pub guilds: Map<u64, CachedGuild>,
    pub integrations: Map<(u64, u64), GuildResource<GuildIntegration>>,
    pub members: Map<(u64, u64), CachedMember>,
    pub messages: Map<u64, CachedMessage>,
    pub presences: Map<(u64, u64), CachedPresence>,
    pub roles: Map<u64, GuildResource<Role>>,
    pub stage_instances: Map<u64, GuildResource<StageInstance>>,
    pub stickers: Map<u64, GuildResource<CachedSticker>>,
    pub users: Map<u64, User>,
    /// For each user, the guilds that the user was stored under.
    pub user_guilds: Map<u64, Seq<u64>>,
    pub voice_states: Map<(u64, u64), CachedVoiceState>,
}

impl CacheView {
    /// The view of a cache that holds nothing.
    pub open spec fn empty(config: Config) -> CacheView {
        CacheView {
            config,
            channels: Map::empty(),
            emojis: Map::empty(),
            guilds: Map::empty(),
            integrations: Map::empty(),
            members: Map::empty(),
            messages: Map::empty(),
            presences: Map::empty(),
            roles: Map::empty(),
            stage_instances: Map::empty(),
            stickers: Map::empty(),
            users: Map::empty(),
            user_guilds: Map::empty(),
            voice_states: Map::empty(),
        }
    }

    /// Whether the configuration selects `kind`.
    pub open spec fn wants(self, kind: ResourceKind) -> bool {
        self.config.resource_types@.contains(kind)
    }

    /// Whether nothing of `kind` is held.
    pub open spec fn holds_none_of(self, kind: ResourceKind) -> bool {
        match kind {
            ResourceKind::Channel => self.channels.dom() =~= Set::empty(),
            ResourceKind::Emoji => self.emojis.dom() =~= Set::empty(),
            ResourceKind::Guild => self.guilds.dom() =~= Set::empty(),
            ResourceKind::Integration => self.integrations.dom() =~= Set::empty(),
            ResourceKind::Member => self.members.dom() =~= Set::empty(),
            ResourceKind::Message => self.messages.dom() =~= Set::empty(),
            ResourceKind::Presence => self.presences.dom() =~= Set::empty(),
            ResourceKind::Role => self.roles.dom() =~= Set::empty(),
            ResourceKind::StageInstance => self.stage_instances.dom() =~= Set::empty(),
            ResourceKind::Sticker => self.stickers.dom() =~= Set::empty(),
            ResourceKind::User => {
                &&& self.users.dom() =~= Set::empty()
                &&& self.user_guilds.dom() =~= Set::empty()
            },
            ResourceKind::VoiceState => self.voice_states.dom() =~= Set::empty(),
        }
    }

    /// Whether nothing is held of any category that the configuration does
    /// not select.
    pub open spec fn gated(self) -> bool {
        &&& self.wants(ResourceKind::Channel) || self.holds_none_of(ResourceKind::Channel)
        &&& self.wants(ResourceKind::Emoji) || self.holds_none_of(ResourceKind::Emoji)
        &&& self.wants(ResourceKind::Guild) || self.holds_none_of(ResourceKind::Guild)
        &&& self.wants(ResourceKind::Integration) || self.holds_none_of(ResourceKind::Integration)
        &&& self.wants(ResourceKind::Member) || self.holds_none_of(ResourceKind::Member)
        &&& self.wants(ResourceKind::Message) || self.holds_none_of(ResourceKind::Message)
        &&& self.wants(ResourceKind::Presence) || self.holds_none_of(ResourceKind::Presence)
        &&& self.wants(ResourceKind::Role) || self.holds_none_of(ResourceKind::Role)
        &&& self.wants(ResourceKind::StageInstance) || self.holds_none_of(
            ResourceKind::StageInstance,
        )
        &&& self.wants(ResourceKind::Sticker) || self.holds_none_of(ResourceKind::Sticker)
        &&& self.wants(ResourceKind::User) || self.holds_none_of(ResourceKind::User)
        &&& self.wants(ResourceKind::VoiceState) || self.holds_none_of(ResourceKind::VoiceState)
    }
}

/// The guilds of a user after the user was stored under `guild_id`: the
/// guild is added at the end unless it is there already.
pub open spec fn with_guild(guilds: Seq<u64>, guild_id: u64) -> Seq<u64> {
    if guilds.contains(guild_id) {
        guilds
    } else {
        guilds.push(guild_id)
    }
}

/// The guilds that `user_id` is known in; none where nothing was noted of
/// the user.
pub open spec fn guilds_of(user_guilds: Map<u64, Seq<u64>>, user_id: u64) -> Seq<u64> {
    if user_guilds.contains_key(user_id) {
        user_guilds[user_id]
    } else {
        Seq::empty()
    }
}

/// Adds `guild_id` to `guilds` unless it is there already.
fn add_guild(guilds: &mut Vec<u64>, guild_id: u64)
    ensures
        final(guilds)@ == with_guild(old(guilds)@, guild_id),
{
    let mut at: usize = 0;
    while at < guilds.len()
        invariant
            at <= guilds.len(),
            *guilds == *old(guilds),
            forall|i: int| 0 <= i < at ==> guilds[i] != guild_id,
        decreases guilds.len() - at,
    {
        if guilds[at] == guild_id {
            return ;
        }
        at += 1;
    }
    guilds.push(guild_id);
}

/// A cache of resources.
#[derive(Debug)]
pub struct RedisCache {
    pub(crate) config: Config,
    pub(crate) channels: Store<u64, Channel>,
    pub(crate) emojis: Store<u64, GuildResource<CachedEmoji>>,
    pub(crate) guilds: Store<u64, CachedGuild>,
    pub(crate) integrations: Store<(u64, u64), GuildResource<GuildIntegration>>,
    pub(crate) members: Store<(u64, u64), CachedMember>,
    pub(crate) messages: Store<u64, CachedMessage>,
    pub(crate) presences: Store<(u64, u64), CachedPresence>,
    pub(crate) roles: Store<u64, GuildResource<Role>>,
    pub(crate) stage_instances: Store<u64, GuildResource<StageInstance>>,
    pub(crate) stickers: Store<u64, GuildResource<CachedSticker>>,
    pub(crate) users: Store<u64, User>,
    pub(crate) user_guilds: Store<u64, Vec<u64>>,
    pub(crate) voice_states: Store<(u64, u64), CachedVoiceState>,
}

impl View for RedisCache {
    type V = CacheView;

    open(crate) spec fn view(&self) -> CacheView {
        CacheView {
            config: self.config,
            channels: self.channels@,
            emojis: self.emojis@,
            guilds: self.guilds@,
            integrations: self.integrations@,
            members: self.members@,
            messages: self.messages@,
            presences: self.presences@,
            roles: self.roles@,
            stage_instances: self.stage_instances@,
            stickers: self.stickers@,
            users: self.users@,
            user_guilds: self.user_guilds@.map_values(|guilds: Vec<u64>| guilds@),
            voice_states: self.voice_states@,
        }
    }
}

impl RedisCache {
    /// Every store is sound, and nothing is held of a category that the
    /// configuration does not select.
    pub open(crate) spec fn wf(&self) -> bool {
        &&& self.channels.wf()
        &&& self.emojis.wf()
        &&& self.guilds.wf()
        &&& self.integrations.wf()
        &&& self.members.wf()
        &&& self.messages.wf()
        &&& self.presences.wf()
        &&& self.roles.wf()
        &&& self.stage_instances.wf()
        &&& self.stickers.wf()
        &&& self.users.wf()
        &&& self.user_guilds.wf()
        &&& self.voice_states.wf()
        &&& self@.gated()
    }

    /// A cache that does not store a category holds nothing of it.
    pub proof fn lemma_unselected_is_empty(&self, kind: ResourceKind)
        requires
            self.wf(),
            !self@.wants(kind),
        ensures
            self@.holds_none_of(kind),
    {
    }

    /// An empty cache that stores every category and retains a hundred
    /// messages for each channel.
    pub fn new() -> (cache: RedisCache)
        ensures
            cache.wf(),
            cache@.config.is_default(),
            cache@ == CacheView::empty(cache@.config),
    {
        RedisCache::new_with_config(Config::new())
    }

    /// An empty cache with the given configuration.
    pub fn new_with_config(config: Config) -> (cache: RedisCache)
        ensures
            cache.wf(),
            cache@ == CacheView::empty(config),
    {
        let cache = RedisCache {
            config,
            channels: Store::new(),
            emojis: Store::new(),
            guilds: Store::new(),
            integrations: Store::new(),
            members: Store::new(),
            messages: Store::new(),
            presences: Store::new(),
            roles: Store::new(),
            stage_instances: Store::new(),
            stickers: Store::new(),
            users: Store::new(),
            user_guilds: Store::new(),
            voice_states: Store::new(),
        };
        assert(cache@.user_guilds =~= Map::empty());
        cache
    }

    /// A builder that starts from the default configuration.
    pub fn builder() -> (builder: RedisCacheBuilder)
        ensures
            builder.config().is_default(),
    {
        RedisCacheBuilder::new()
    }

    /// The configuration that the cache was made with.
    pub fn config(&self) -> (config: &Config)
        ensures
            *config == self@.config,
    {
        &self.config
    }

    /// Whether the cache stores resources of `kind`.
    pub fn wants(&self, kind: ResourceKind) -> (wanted: bool)
        ensures
            wanted == self@.wants(kind),
    {
        self.config.resource_types.contains(kind)
    }

    /// The walks over the resources of the cache.
    pub fn iter(&self) -> (walks: RedisCacheIter<'_>)
        ensures
            walks.cache() == *self,
    {
        RedisCacheIter::new(self)
    }

    /// Stores a channel under `channel_id`, in place of anything stored there
    /// before. Does nothing where the cache does not store channels.
    pub fn cache_channel(&mut self, channel_id: u64, channel: Channel)
        requires
            old(self).wf(),
        ensures
            final(self).wf(),
            final(self)@ == (if old(self)@.wants(ResourceKind::Channel) {
                (CacheView {
                    channels: old(self)@.channels.insert(channel_id, channel),
                    ..old(self)@
                })
            } else {
                old(self)@
            }),
    {
        if self.wants(ResourceKind::Channel) {
            let _ = self.channels.insert(channel_id, channel);
        }
    }

    /// The channel stored under `channel_id`, if there is one.
    pub fn channel(&self, channel_id: u64) -> (found: Option<&Channel>)
        requires
            self.wf(),
        ensures
            found == (if self@.channels.contains_key(channel_id) {
                Some(&self@.channels[channel_id])
            } else {
                None
            }),
    {
        self.channels.get(&channel_id)
    }

    /// Takes out the channel stored under `channel_id` and returns it, if
    /// there was one.
    pub fn remove_channel(&mut self, channel_id: u64) -> (removed: Option<Channel>)
        requires
            old(self).wf(),
        ensures
            final(self).wf(),
            final(self)@ == (CacheView {
                channels: old(self)@.channels.remove(channel_id),
                ..old(self)@
            }),
            removed == (if old(self)@.channels.contains_key(channel_id) {
                Some(old(self)@.channels[channel_id])
            } else {
                None
            }),
    {
        self.channels.remove(&channel_id)
    }

    /// Stores an emoji of the guild `guild_id` under `emoji_id`, in place of
    /// anything stored there before. Does nothing where the cache does not
    /// store emojis.
    pub fn cache_emoji(&mut self, guild_id: u64, emoji_id: u64, emoji: CachedEmoji)
        requires
            old(self).wf(),
        ensures
            final(self).wf(),
            final(self)@ == (if old(self)@.wants(ResourceKind::Emoji) {
                (CacheView {
                    emojis: old(self)@.emojis.insert(emoji_id, GuildResource::of(guild_id, emoji)),
                    ..old(self)@
                })
            } else {
                old(self)@
            }),
    {
        if self.wants(ResourceKind::Emoji) {
            let _ = self.emojis.insert(emoji_id, GuildResource::new(guild_id, emoji));
        }
    }

    /// The emoji stored under `emoji_id`, if there is one.
    pub fn emoji(&self, emoji_id: u64) -> (found: Option<&GuildResource<CachedEmoji>>)
        requires
            self.wf(),
        ensures
            found == (if self@.emojis.contains_key(emoji_id) {
                Some(&self@.emojis[emoji_id])
            } else {
                None
            }),
    {
        self.emojis.get(&emoji_id)
    }

    /// Takes out the emoji stored under `emoji_id` and returns it, if there
    /// was one.
    pub fn remove_emoji(&mut self, emoji_id: u64) -> (removed: Option<GuildResource<CachedEmoji>>)
        requires
            old(self).wf(),
        ensures
            final(self).wf(),
            final(self)@ == (CacheView {
                emojis: old(self)@.emojis.remove(emoji_id),
                ..old(self)@
            }),
            removed == (if old(self)@.emojis.contains_key(emoji_id) {
                Some(old(self)@.emojis[emoji_id])
            } else {
                None
            }),
    {
        self.emojis.remove(&emoji_id)
    }

    /// Stores a guild under `guild_id`, in place of anything stored there
    /// before. Does nothing where the cache does not store guilds.
    pub fn cache_guild(&mut self, guild_id: u64, guild: CachedGuild)
        requires
            old(self).wf(),
        ensures
            final(self).wf(),
            final(self)@ == (if old(self)@.wants(ResourceKind::Guild) {
                (CacheView {
                    guilds: old(self)@.guilds.insert(guild_id, guild),
                    ..old(self)@
                })
            } else {
                old(self)@
            }),
    {
        if self.wants(ResourceKind::Guild) {
            let _ = self.guilds.insert(guild_id, guild);
        }
    }

    /// The guild stored under `guild_id`, if there is one.
    pub fn guild(&self, guild_id: u64) -> (found: Option<&CachedGuild>)
        requires
            self.wf(),
        ensures
            found == (if self@.guilds.contains_key(guild_id) {
                Some(&self@.guilds[guild_id])
            } else {
                None
            }),
    {
        self.guilds.get(&guild_id)
    }

    /// Takes out the guild stored under `guild_id` and returns it, if there
    /// was one.
    pub fn remove_guild(&mut self, guild_id: u64) -> (removed: Option<CachedGuild>)
        requires
            old(self).wf(),
        ensures
            final(self).wf(),
            final(self)@ == (CacheView {
                guilds: old(self)@.guilds.remove(guild_id),
                ..old(self)@
            }),
            removed == (if old(self)@.guilds.contains_key(guild_id) {
                Some(old(self)@.guilds[guild_id])
            } else {
                None
            }),
    {
        self.guilds.remove(&guild_id)
    }

    /// Stores an integration of the guild `guild_id` under the pair of
    /// `guild_id` and `integration_id`, in place of anything stored there
    /// before. Does nothing where the cache does not store integrations.
    pub fn cache_integration(
        &mut self,
        guild_id: u64,
        integration_id: u64,
        integration: GuildIntegration,
    )
        requires
            old(self).wf(),
        ensures
            final(self).wf(),
            final(self)@ == (if old(self)@.wants(ResourceKind::Integration) {
                (CacheView {
                    integrations: old(self)@.integrations.insert(
                        (guild_id, integration_id),
                        GuildResource::of(guild_id, integration),
                    ),
                    ..old(self)@
                })
            } else {
                old(self)@
            }),
    {
        if self.wants(ResourceKind::Integration) {
            let _ = self.integrations.insert(
                (guild_id, integration_id),
                GuildResource::new(guild_id, integration),
            );
        }
    }

    /// The integration stored under the pair of `guild_id` and
    /// `integration_id`, if there is one.
    pub fn integration(
        &self,
        guild_id: u64,
        integration_id: u64,
    ) -> (found: Option<&GuildResource<GuildIntegration>>)
        requires
            self.wf(),
        ensures
            found == (if self@.integrations.contains_key((guild_id, integration_id)) {
                Some(&self@.integrations[(guild_id, integration_id)])
            } else {
                None
            }),
    {
        self.integrations.get(&(guild_id, integration_id))
    }

    /// Takes out the integration stored under the pair of `guild_id` and
    /// `integration_id` and returns it, if there was one.
    pub fn remove_integration(
        &mut self,
        guild_id: u64,
        integration_id: u64,
    ) -> (removed: Option<GuildResource<GuildIntegration>>)
        requires
            old(self).wf(),
        ensures
            final(self).wf(),
            final(self)@ == (CacheView {
                integrations: old(self)@.integrations.remove((guild_id, integration_id)),
                ..old(self)@
            }),
            removed == (if old(self)@.integrations.contains_key((guild_id, integration_id)) {
                Some(old(self)@.integrations[(guild_id, integration_id)])
            } else {
                None
            }),
    {
        self.integrations.remove(&(guild_id, integration_id))
    }

    /// Stores a member under the pair of `guild_id` and `user_id`, in place of
    /// anything stored there before. Does nothing where the cache does not
    /// store members.
    pub fn cache_member(&mut self, guild_id: u64, user_id: u64, member: CachedMember)
        requires
            old(self).wf(),
        ensures
            final(self).wf(),
            final(self)@ == (if old(self)@.wants(ResourceKind::Member) {
                (CacheView {
                    members: old(self)@.members.insert((guild_id, user_id), member),
                    ..old(self)@
                })
            } else {
                old(self)@
            }),
    {
        if self.wants(ResourceKind::Member) {
            let _ = self.members.insert((guild_id, user_id), member);
        }
    }

    /// The member stored under the pair of `guild_id` and `user_id`, if there
    /// is one.
    pub fn member(&self, guild_id: u64, user_id: u64) -> (found: Option<&CachedMember>)
        requires
            self.wf(),
        ensures
            found == (if self@.members.contains_key((guild_id, user_id)) {
                Some(&self@.members[(guild_id, user_id)])
            } else {
                None
            }),
    {
        self.members.get(&(guild_id, user_id))
    }

    /// Takes out the member stored under the pair of `guild_id` and `user_id`
    /// and returns it, if there was one.
    pub fn remove_member(&mut self, guild_id: u64, user_id: u64) -> (removed: Option<CachedMember>)
        requires
            old(self).wf(),
        ensures
            final(self).wf(),
            final(self)@ == (CacheView {
                members: old(self)@.members.remove((guild_id, user_id)),
                ..old(self)@
            }),
            removed == (if old(self)@.members.contains_key((guild_id, user_id)) {
                Some(old(self)@.members[(guild_id, user_id)])
            } else {
                None
            }),
    {
        self.members.remove(&(guild_id, user_id))
    }

    /// Stores a message under `message_id`, in place of anything stored there
    /// before. Does nothing where the cache does not store messages.
    pub fn cache_message(&mut self, message_id: u64, message: CachedMessage)
        requires
            old(self).wf(),
        ensures
            final(self).wf(),
            final(self)@ == (if old(self)@.wants(ResourceKind::Message) {
                (CacheView {
                    messages: old(self)@.messages.insert(message_id, message),
                    ..old(self)@
                })
            } else {
                old(self)@
            }),
    {
        if self.wants(ResourceKind::Message) {
            let _ = self.messages.insert(message_id, message);
        }
    }

    /// The message stored under `message_id`, if there is one.
    pub fn message(&self, message_id: u64) -> (found: Option<&CachedMessage>)
        requires
            self.wf(),
        ensures
            found == (if self@.messages.contains_key(message_id) {
                Some(&self@.messages[message_id])
            } else {
                None
            }),
    {
        self.messages.get(&message_id)
    }

    /// Takes out the message stored under `message_id` and returns it, if
    /// there was one.
    pub fn remove_message(&mut self, message_id: u64) -> (removed: Option<CachedMessage>)
        requires
            old(self).wf(),
        ensures
            final(self).wf(),
            final(self)@ == (CacheView {
                messages: old(self)@.messages.remove(message_id),
                ..old(self)@
            }),
            removed == (if old(self)@.messages.contains_key(message_id) {
                Some(old(self)@.messages[message_id])
            } else {
                None
            }),
    {
        self.messages.remove(&message_id)
    }

    /// Stores a presence under the pair of `guild_id` and `user_id`, in place
    /// of anything stored there before. Does nothing where the cache does not
    /// store presences.
    pub fn cache_presence(&mut self, guild_id: u64, user_id: u64, presence: CachedPresence)
        requires
            old(self).wf(),
        ensures
            final(self).wf(),
            final(self)@ == (if old(self)@.wants(ResourceKind::Presence) {
                (CacheView {
                    presences: old(self)@.presences.insert((guild_id, user_id), presence),
                    ..old(self)@
                })
            } else {
                old(self)@
            }),
    {
        if self.wants(ResourceKind::Presence) {
            let _ = self.presences.insert((guild_id, user_id), presence);
        }
    }

    /// The presence stored under the pair of `guild_id` and `user_id`, if
    /// there is one.
    pub fn presence(&self, guild_id: u64, user_id: u64) -> (found: Option<&CachedPresence>)
        requires
            self.wf(),
        ensures
            found == (if self@.presences.contains_key((guild_id, user_id)) {
                Some(&self@.presences[(guild_id, user_id)])
            } else {
                None
            }),
    {
        self.presences.get(&(guild_id, user_id))
    }

    /// Takes out the presence stored under the pair of `guild_id` and
    /// `user_id` and returns it, if there was one.
    pub fn remove_presence(
        &mut self,
        guild_id: u64,
        user_id: u64,
    ) -> (removed: Option<CachedPresence>)
        requires
            old(self).wf(),
        ensures
            final(self).wf(),
            final(self)@ == (CacheView {
                presences: old(self)@.presences.remove((guild_id, user_id)),
                ..old(self)@
            }),
            removed == (if old(self)@.presences.contains_key((guild_id, user_id)) {
                Some(old(self)@.presences[(guild_id, user_id)])
            } else {
                None
            }),
    {
        self.presences.remove(&(guild_id, user_id))
    }

    /// Stores a role of the guild `guild_id` under `role_id`, in place of
    /// anything stored there before. Does nothing where the cache does not
    /// store roles.
    pub fn cache_role(&mut self, guild_id: u64, role_id: u64, role: Role)
        requires
            old(self).wf(),
        ensures
            final(self).wf(),
            final(self)@ == (if old(self)@.wants(ResourceKind::Role) {
                (CacheView {
                    roles: old(self)@.roles.insert(role_id, GuildResource::of(guild_id, role)),
                    ..old(self)@
                })
            } else {
                old(self)@
            }),
    {
        if self.wants(ResourceKind::Role) {
            let _ = self.roles.insert(role_id, GuildResource::new(guild_id, role));
        }
    }

    /// The role stored under `role_id`, if there is one.
    pub fn role(&self, role_id: u64) -> (found: Option<&GuildResource<Role>>)
        requires
            self.wf(),
        ensures
            found == (if self@.roles.contains_key(role_id) {
                Some(&self@.roles[role_id])
            } else {
                None
            }),
    {
        self.roles.get(&role_id)
    }

    /// Takes out the role stored under `role_id` and returns it, if there was
    /// one.
    pub fn remove_role(&mut self, role_id: u64) -> (removed: Option<GuildResource<Role>>)
        requires
            old(self).wf(),
        ensures
            final(self).wf(),
            final(self)@ == (CacheView {
                roles: old(self)@.roles.remove(role_id),
                ..old(self)@
            }),
            removed == (if old(self)@.roles.contains_key(role_id) {
                Some(old(self)@.roles[role_id])
            } else {
                None
            }),
    {
        self.roles.remove(&role_id)
    }

    /// Stores a stage instance of the guild `guild_id` under
    /// `stage_instance_id`, in place of anything stored there before. Does
    /// nothing where the cache does not store stage instances.
    pub fn cache_stage_instance(
        &mut self,
        guild_id: u64,
        stage_instance_id: u64,
        stage_instance: StageInstance,
    )
        requires
            old(self).wf(),
        ensures
            final(self).wf(),
            final(self)@ == (if old(self)@.wants(ResourceKind::StageInstance) {
                (CacheView {
                    stage_instances: old(self)@.stage_instances.insert(
                        stage_instance_id,
                        GuildResource::of(guild_id, stage_instance),
                    ),
                    ..old(self)@
                })
            } else {
                old(self)@
            }),
    {
        if self.wants(ResourceKind::StageInstance) {
            let _ = self.stage_instances.insert(
                stage_instance_id,
                GuildResource::new(guild_id, stage_instance),
            );
        }
    }

    /// The stage instance stored under `stage_instance_id`, if there is one.
    pub fn stage_instance(
        &self,
        stage_instance_id: u64,
    ) -> (found: Option<&GuildResource<StageInstance>>)
        requires
            self.wf(),
        ensures
            found == (if self@.stage_instances.contains_key(stage_instance_id) {
                Some(&self@.stage_instances[stage_instance_id])
            } else {
                None
            }),
    {
        self.stage_instances.get(&stage_instance_id)
    }

    /// Takes out the stage instance stored under `stage_instance_id` and
    /// returns it, if there was one.
    pub fn remove_stage_instance(
        &mut self,
        stage_instance_id: u64,
    ) -> (removed: Option<GuildResource<StageInstance>>)
        requires
            old(self).wf(),
        ensures
            final(self).wf(),
            final(self)@ == (CacheView {
                stage_instances: old(self)@.stage_instances.remove(stage_instance_id),
                ..old(self)@
            }),
            removed == (if old(self)@.stage_instances.contains_key(stage_instance_id) {
                Some(old(self)@.stage_instances[stage_instance_id])
            } else {
                None
            }),
    {
        self.stage_instances.remove(&stage_instance_id)
    }

    /// Stores a sticker of the guild `guild_id` under `sticker_id`, in place
    /// of anything stored there before. Does nothing where the cache does not
    /// store stickers.
    pub fn cache_sticker(&mut self, guild_id: u64, sticker_id: u64, sticker: CachedSticker)
        requires
            old(self).wf(),
        ensures
            final(self).wf(),
            final(self)@ == (if old(self)@.wants(ResourceKind::Sticker) {
                (CacheView {
                    stickers: old(self)@.stickers.insert(
                        sticker_id,
                        GuildResource::of(guild_id, sticker),
                    ),
                    ..old(self)@
                })
            } else {
                old(self)@
            }),
    {
        if self.wants(ResourceKind::Sticker) {
            let _ = self.stickers.insert(sticker_id, GuildResource::new(guild_id, sticker));
        }
    }

    /// The sticker stored under `sticker_id`, if there is one.
    pub fn sticker(&self, sticker_id: u64) -> (found: Option<&GuildResource<CachedSticker>>)
        requires
            self.wf(),
        ensures
            found == (if self@.stickers.contains_key(sticker_id) {
                Some(&self@.stickers[sticker_id])
            } else {
                None
            }),
    {
        self.stickers.get(&sticker_id)
    }

    /// Takes out the sticker stored under `sticker_id` and returns it, if
    /// there was one.
    pub fn remove_sticker(
        &mut self,
        sticker_id: u64,
    ) -> (removed: Option<GuildResource<CachedSticker>>)
        requires
            old(self).wf(),
        ensures
            final(self).wf(),
            final(self)@ == (CacheView {
                stickers: old(self)@.stickers.remove(sticker_id),
                ..old(self)@
            }),
            removed == (if old(self)@.stickers.contains_key(sticker_id) {
                Some(old(self)@.stickers[sticker_id])
            } else {
                None
            }),
    {
        self.stickers.remove(&sticker_id)
    }

    /// Stores a user under `user_id`, in place of any user stored there
    /// before, and notes the guild that the user was seen in, if one is
    /// given. Does nothing where the cache does not store users.
    pub fn cache_user(&mut self, user_id: u64, user: User, guild_id: Option<u64>)
        requires
            old(self).wf(),
        ensures
            final(self).wf(),
            final(self)@ == (if old(self)@.wants(ResourceKind::User) {
                (CacheView {
                    users: old(self)@.users.insert(user_id, user),
                    user_guilds: match guild_id {
                        Some(guild_id) => old(self)@.user_guilds.insert(
                            user_id,
                            with_guild(guilds_of(old(self)@.user_guilds, user_id), guild_id),
                        ),
                        None => old(self)@.user_guilds,
                    },
                    ..old(self)@
                })
            } else {
                old(self)@
            }),
    {
        if self.wants(ResourceKind::User) {
            let _ = self.users.insert(user_id, user);
            if let Some(guild_id) = guild_id {
                let mut guilds = match self.user_guilds.remove(&user_id) {
                    Some(guilds) => guilds,
                    None => Vec::new(),
                };
                add_guild(&mut guilds, guild_id);
                let _ = self.user_guilds.insert(user_id, guilds);
                assert(self@.user_guilds =~= old(self)@.user_guilds.insert(
                    user_id,
                    with_guild(guilds_of(old(self)@.user_guilds, user_id), guild_id),
                ));
            }
        }
    }

    /// The user stored under `user_id`, if there is one.
    pub fn user(&self, user_id: u64) -> (found: Option<&User>)
        requires
            self.wf(),
        ensures
            found == (if self@.users.contains_key(user_id) {
                Some(&self@.users[user_id])
            } else {
                None
            }),
    {
        self.users.get(&user_id)
    }

    /// The guilds that the user stored under `user_id` was seen in, if any
    /// was noted.
    pub fn user_guilds(&self, user_id: u64) -> (found: Option<&Vec<u64>>)
        requires
            self.wf(),
        ensures
            match found {
                Some(guilds) => {
                    &&& self@.user_guilds.contains_key(user_id)
                    &&& guilds@ == self@.user_guilds[user_id]
                },
                None => !self@.user_guilds.contains_key(user_id),
            },
    {
        self.user_guilds.get(&user_id)
    }

    /// Takes out the user stored under `user_id` and what was noted of the
    /// user's guilds, and returns the user, if there was one.
    pub fn remove_user(&mut self, user_id: u64) -> (removed: Option<User>)
        requires
            old(self).wf(),
        ensures
            final(self).wf(),
            final(self)@ == (CacheView {
                users: old(self)@.users.remove(user_id),
                user_guilds: old(self)@.user_guilds.remove(user_id),
                ..old(self)@
            }),
            removed == (if old(self)@.users.contains_key(user_id) {
                Some(old(self)@.users[user_id])
            } else {
                None
            }),
    {
        let removed = self.users.remove(&user_id);
        let _ = self.user_guilds.remove(&user_id);
        assert(self@.user_guilds =~= old(self)@.user_guilds.remove(user_id));
        removed
    }

    /// Stores a voice state under the pair of `guild_id` and `user_id`, in
    /// place of anything stored there before. Does nothing where the cache
    /// does not store voice states.
    pub fn cache_voice_state(&mut self, guild_id: u64, user_id: u64, voice_state: CachedVoiceState)
        requires
            old(self).wf(),
        ensures
            final(self).wf(),
            final(self)@ == (if old(self)@.wants(ResourceKind::VoiceState) {
                (CacheView {
                    voice_states: old(self)@.voice_states.insert((guild_id, user_id), voice_state),
                    ..old(self)@
                })
            } else {
                old(self)@
            }),
    {
        if self.wants(ResourceKind::VoiceState) {
            let _ = self.voice_states.insert((guild_id, user_id), voice_state);
        }
    }

    /// The voice state stored under the pair of `guild_id` and `user_id`, if
    /// there is one.
    pub fn voice_state(&self, guild_id: u64, user_id: u64) -> (found: Option<&CachedVoiceState>)
        requires
            self.wf(),
        ensures
            found == (if self@.voice_states.contains_key((guild_id, user_id)) {
                Some(&self@.voice_states[(guild_id, user_id)])
            } else {
                None
            }),
    {
        self.voice_states.get(&(guild_id, user_id))
    }

    /// Takes out the voice state stored under the pair of `guild_id` and
    /// `user_id` and returns it, if there was one.
    pub fn remove_voice_state(
        &mut self,
        guild_id: u64,
        user_id: u64,
    ) -> (removed: Option<CachedVoiceState>)
        requires
            old(self).wf(),
        ensures
            final(self).wf(),
            final(self)@ == (CacheView {
                voice_states: old(self)@.voice_states.remove((guild_id, user_id)),
                ..old(self)@
            }),
            removed == (if old(self)@.voice_states.contains_key((guild_id, user_id)) {
                Some(old(self)@.voice_states[(guild_id, user_id)])
            } else {
                None
            }),
    {
        self.voice_states.remove(&(guild_id, user_id))
    }
}

} // verus!
