use std::fmt::Debug;
use twilight_cache_redis::{
    Config, GuildResource, IterReference, RedisCache, RedisCacheBuilder, RedisCacheIter,
    ResourceIter, ResourceKind, ResourceType,
};
use twilight_model::guild::{Member, MemberFlags, Permissions, Role, RoleFlags};
use twilight_model::id::{
    marker::{GuildMarker, RoleMarker, UserMarker},
    Id,
};
use twilight_model::user::User;
use twilight_model::util::Timestamp;

fn named_user(id: Id<UserMarker>, name: &str) -> User {
    User {
        accent_color: None,
        avatar: None,
        avatar_decoration: None,
        banner: None,
        bot: false,
        discriminator: 1,
        email: None,
        flags: None,
        global_name: Some("test".to_owned()),
        id,
        locale: None,
        mfa_enabled: None,
        name: name.to_owned(),
        premium_type: None,
        public_flags: None,
        system: None,
        verified: None,
    }
}

fn user(id: Id<UserMarker>) -> User {
    named_user(id, "user")
}

fn role(id: Id<RoleMarker>, name: &str) -> Role {
    Role {
        color: 0,
        hoist: false,
        icon: None,
        id,
        managed: false,
        mentionable: false,
        name: name.to_owned(),
        permissions: Permissions::empty(),
        position: 0,
        flags: RoleFlags::empty(),
        tags: None,
        unicode_emoji: None,
    }
}

fn member(id: Id<UserMarker>, nick: &str) -> Member {
    Member {
        avatar: None,
        communication_disabled_until: None,
        deaf: false,
        flags: MemberFlags::empty(),
        joined_at: Timestamp::from_secs(1_632_072_645).expect("non zero"),
        mute: false,
        nick: Some(nick.to_owned()),
        pending: false,
        premium_since: None,
        roles: Vec::new(),
        user: user(id),
    }
}

fn sorted_user_ids(cache: &RedisCache) -> Vec<Id<UserMarker>> {
    let mut ids = cache
        .iter()
        .users()
        .collect()
        .iter()
        .map(|user| user.id)
        .collect::<Vec<_>>();
    ids.sort_unstable();
    ids
}

#[test]
fn iter() {
    let guild_id: Id<GuildMarker> = Id::new(1);
    let users = &[
        (Id::new(2), Some(guild_id)),
        (Id::new(3), Some(guild_id)),
        (Id::new(4), None),
    ];
    let mut cache = RedisCache::new();

    for (user_id, maybe_guild_id) in users {
        cache.cache_user(
            user_id.get(),
            user(*user_id),
            maybe_guild_id.map(|guild_id| guild_id.get()),
        );
    }

    let mut actual = cache
        .iter()
        .users()
        .collect()
        .iter()
        .map(|user| user.id)
        .collect::<Vec<_>>();
    actual.sort_unstable();

    let expected = users.iter().map(|(id, _)| *id).collect::<Vec<_>>();

    assert_eq!(actual, expected);
}

#[test]
fn iter_after_a_user_is_removed() {
    let mut cache = RedisCache::new();
    cache.cache_user(2, user(Id::new(2)), Some(1));
    cache.cache_user(3, user(Id::new(3)), Some(1));
    cache.cache_user(4, user(Id::new(4)), None);
    assert_eq!(
        sorted_user_ids(&cache),
        vec![Id::new(2), Id::new(3), Id::new(4)]
    );

    let removed = cache.remove_user(3);
    assert_eq!(removed, Some(user(Id::new(3))));
    assert_eq!(sorted_user_ids(&cache), vec![Id::new(2), Id::new(4)]);
    assert!(cache.user(3).is_none());
    assert!(cache.user_guilds(3).is_none());
    assert_eq!(cache.remove_user(3), None);
}

#[test]
fn only_the_latest_user_of_a_key_is_seen() {
    let mut cache = RedisCache::new();
    cache.cache_user(7, named_user(Id::new(7), "first"), None);
    cache.cache_user(7, named_user(Id::new(7), "second"), None);
    cache.cache_user(7, named_user(Id::new(7), "third"), None);

    assert_eq!(cache.user(7).map(|user| user.name.as_str()), Some("third"));

    let seen = cache.iter().users().collect();
    assert_eq!(seen.len(), 1);
    assert_eq!(*seen[0].key(), 7);
    assert_eq!(seen[0].value().name, "third");
    assert_eq!(seen[0].name, "third");
}

#[test]
fn an_unselected_category_is_not_stored() {
    let types = ResourceType::all().without(ResourceKind::User);
    let mut cache = RedisCacheBuilder::new().resource_types(types).build();
    assert!(!cache.wants(ResourceKind::User));
    assert!(cache.wants(ResourceKind::Role));

    cache.cache_user(2, user(Id::new(2)), Some(1));
    assert!(cache.user(2).is_none());
    assert!(cache.user_guilds(2).is_none());
    assert_eq!(cache.iter().users().collect().len(), 0);
    assert!(cache.iter().users().next().is_none());
    assert_eq!(cache.remove_user(2), None);

    cache.cache_role(1, 5, role(Id::new(5), "admin"));
    cache.cache_member(1, 2, member(Id::new(2), "nick"));
    assert_eq!(cache.role(5).map(|role| role.name.as_str()), Some("admin"));
    assert!(cache.member(1, 2).is_some());
    assert_eq!(cache.iter().roles().collect().len(), 1);
    assert_eq!(cache.iter().members().collect().len(), 1);
}

#[test]
fn a_cache_that_selects_nothing_stores_nothing() {
    let mut cache = RedisCacheBuilder::new()
        .resource_types(ResourceType::empty())
        .message_cache_size(0)
        .build();
    assert_eq!(cache.config().message_cache_size(), 0);

    cache.cache_user(2, user(Id::new(2)), None);
    cache.cache_role(1, 5, role(Id::new(5), "admin"));
    cache.cache_member(1, 2, member(Id::new(2), "nick"));

    assert!(cache.iter().users().next().is_none());
    assert!(cache.iter().roles().next().is_none());
    assert!(cache.iter().members().next().is_none());
    assert!(cache.iter().channels().next().is_none());
}

#[test]
fn a_walk_hands_out_each_entry_once() {
    let mut cache = RedisCache::new();
    for id in 1..=200u64 {
        cache.cache_user(id, user(Id::new(id)), None);
    }
    for id in (2..=200u64).step_by(2) {
        assert!(cache.remove_user(id).is_some());
    }
    for id in 201..=250u64 {
        cache.cache_user(id, user(Id::new(id)), None);
    }

    let mut expected = (1..=200u64).step_by(2).collect::<Vec<_>>();
    expected.extend(201..=250u64);

    let mut stepped = Vec::new();
    let mut walk = cache.iter().users();
    while let Some(entry) = walk.next() {
        assert_eq!(entry.id.get(), *entry.key());
        stepped.push(*entry.key());
    }
    assert!(walk.next().is_none());
    stepped.sort_unstable();
    assert_eq!(stepped, expected);

    let mut gathered = cache
        .iter()
        .users()
        .collect()
        .iter()
        .map(|entry| *entry.key())
        .collect::<Vec<_>>();
    gathered.sort_unstable();
    assert_eq!(gathered, expected);
}

#[test]
fn walks_are_independent_of_each_other() {
    let mut cache = RedisCache::new();
    cache.cache_user(2, user(Id::new(2)), None);
    cache.cache_user(3, user(Id::new(3)), None);

    let walks = cache.iter();
    let mut first = walks.users();
    let mut second = walks.users();
    assert!(first.next().is_some());
    assert!(first.next().is_some());
    assert!(first.next().is_none());
    assert!(second.next().is_some());
    assert_eq!(second.collect().len(), 1);
    assert_eq!(walks.users().collect().len(), 2);
    assert_eq!(walks.cache_ref().config().message_cache_size(), 100);
}

#[test]
fn an_untouched_builder_builds_the_default_cache() {
    let built = RedisCacheBuilder::new().build();
    let direct = RedisCache::new();
    let by_default = RedisCacheBuilder::default().build();
    let from_cache = RedisCache::builder().build();

    assert_eq!(built.config(), direct.config());
    assert_eq!(by_default.config(), direct.config());
    assert_eq!(from_cache.config(), direct.config());
    assert_eq!(*direct.config(), Config::new());
    assert_eq!(*direct.config(), Config::default());
    assert_eq!(direct.config().message_cache_size(), 100);
    assert_eq!(direct.config().resource_types(), ResourceType::all());
    assert!(built.wants(ResourceKind::Message));
    assert!(built.iter().users().next().is_none());
    assert!(direct.iter().users().next().is_none());
}

#[test]
fn builder_setters_follow_one_another_in_any_order() {
    let types = ResourceType::empty()
        .with(ResourceKind::Guild)
        .with(ResourceKind::Message);
    let one = RedisCacheBuilder::new()
        .resource_types(types)
        .message_cache_size(5)
        .build();
    let other = RedisCacheBuilder::new()
        .message_cache_size(5)
        .resource_types(types)
        .build();

    assert_eq!(one.config(), other.config());
    assert_eq!(one.config().message_cache_size(), 5);
    assert_eq!(one.config().resource_types(), types);
    assert!(one.wants(ResourceKind::Guild));
    assert!(one.wants(ResourceKind::Message));
    assert!(!one.wants(ResourceKind::User));

    let partly = RedisCacheBuilder::new().message_cache_size(7).build();
    assert_eq!(partly.config().message_cache_size(), 7);
    assert_eq!(partly.config().resource_types(), ResourceType::all());
}

#[test]
fn members_of_two_guilds_do_not_touch_each_other() {
    let mut cache = RedisCache::new();
    cache.cache_member(10, 7, member(Id::new(7), "in ten"));
    cache.cache_member(20, 7, member(Id::new(7), "in twenty"));

    assert_eq!(
        cache.member(10, 7).and_then(|member| member.nick.clone()),
        Some("in ten".to_owned())
    );
    assert_eq!(
        cache.member(20, 7).and_then(|member| member.nick.clone()),
        Some("in twenty".to_owned())
    );
    assert!(cache.member(7, 10).is_none());

    let mut keys = cache
        .iter()
        .members()
        .collect()
        .iter()
        .map(|entry| *entry.key())
        .collect::<Vec<_>>();
    keys.sort_unstable();
    assert_eq!(keys, vec![(10, 7), (20, 7)]);

    let removed = cache.remove_member(10, 7);
    assert_eq!(
        removed.and_then(|member| member.nick),
        Some("in ten".to_owned())
    );
    assert!(cache.member(10, 7).is_none());
    assert_eq!(
        cache.member(20, 7).and_then(|member| member.nick.clone()),
        Some("in twenty".to_owned())
    );
    let left = cache.iter().members().collect();
    assert_eq!(left.len(), 1);
    assert_eq!(*left[0].key(), (20, 7));
}

#[test]
fn a_role_is_stored_with_its_guild() {
    let mut cache = RedisCache::new();
    cache.cache_role(1, 5, role(Id::new(5), "admin"));
    cache.cache_role(2, 6, role(Id::new(6), "guest"));

    let found = cache.role(5).expect("stored");
    assert_eq!(found.guild_id(), 1);
    assert_eq!(found.resource().name, "admin");
    assert_eq!(found.name, "admin");

    let mut seen = cache
        .iter()
        .roles()
        .collect()
        .iter()
        .map(|entry| (*entry.key(), entry.guild_id(), entry.name.clone()))
        .collect::<Vec<_>>();
    seen.sort();
    assert_eq!(
        seen,
        vec![(5, 1, "admin".to_owned()), (6, 2, "guest".to_owned())]
    );

    cache.cache_role(3, 5, role(Id::new(5), "owner"));
    let found = cache.role(5).expect("stored");
    assert_eq!(found.guild_id(), 3);
    assert_eq!(found.name, "owner");

    let removed = cache.remove_role(5).expect("stored");
    assert_eq!(removed.guild_id(), 3);
    assert_eq!(removed.resource().id, Id::new(5));
    assert!(cache.role(5).is_none());
    assert!(cache.role(6).is_some());
}

#[test]
fn the_guilds_of_a_user_are_noted_once_each() {
    let mut cache = RedisCache::new();
    cache.cache_user(2, user(Id::new(2)), Some(1));
    assert_eq!(cache.user_guilds(2), Some(&vec![1]));
    cache.cache_user(2, user(Id::new(2)), Some(1));
    assert_eq!(cache.user_guilds(2), Some(&vec![1]));
    cache.cache_user(2, user(Id::new(2)), Some(9));
    assert_eq!(cache.user_guilds(2), Some(&vec![1, 9]));
    cache.cache_user(2, user(Id::new(2)), None);
    assert_eq!(cache.user_guilds(2), Some(&vec![1, 9]));
    cache.cache_user(2, user(Id::new(2)), Some(1));
    assert_eq!(cache.user_guilds(2), Some(&vec![1, 9]));

    cache.cache_user(4, user(Id::new(4)), None);
    assert!(cache.user(4).is_some());
    assert_eq!(cache.user_guilds(4), None);
}

#[test]
fn a_wrapper_reads_as_its_resource() {
    let admin = role(Id::new(5), "admin");
    let wrapped = GuildResource::new(1, admin.clone());

    assert_eq!(wrapped.guild_id(), 1);
    assert_eq!(*wrapped.resource(), admin);
    assert_eq!(*wrapped, admin);
    assert_eq!(wrapped.name, admin.name);
    assert_eq!(wrapped.id, admin.id);
    assert_eq!(wrapped.position, admin.position);
    assert_eq!(wrapped.permissions, admin.permissions);
}

fn shared_between_threads<T: Send + Sync>() {}

fn shown<T: Debug>() {}

fn made_by_default<T: Default>() {}

#[test]
fn the_types_can_be_shared_between_threads() {
    shared_between_threads::<RedisCache>();
    shared_between_threads::<RedisCacheBuilder>();
    shared_between_threads::<RedisCacheIter<'static>>();
    shared_between_threads::<IterReference<'static, u64, User>>();
    shared_between_threads::<ResourceIter<'static, u64, User>>();
    shown::<RedisCache>();
    shown::<RedisCacheBuilder>();
    shown::<RedisCacheIter<'static>>();
    made_by_default::<RedisCacheBuilder>();
}
