use twilight_cache_redis::{
    Config, GuildResource, ResourceIter, ResourceKind, ResourceType, Store, StoreKey,
};

const EVERY_KIND: [ResourceKind; 12] = [
    ResourceKind::Channel,
    ResourceKind::Emoji,
    ResourceKind::Guild,
    ResourceKind::Integration,
    ResourceKind::Member,
    ResourceKind::Message,
    ResourceKind::Presence,
    ResourceKind::Role,
    ResourceKind::StageInstance,
    ResourceKind::Sticker,
    ResourceKind::User,
    ResourceKind::VoiceState,
];

#[test]
fn a_single_key_is_its_own_word() {
    assert_eq!(0u64.pack(), 0);
    assert_eq!(7u64.pack(), 7);
    assert_eq!(u64::MAX.pack(), 0xffff_ffff_ffff_ffff);
    assert_eq!(<u64 as StoreKey>::unpack(7), 7);
    assert_eq!(<u64 as StoreKey>::unpack(u64::MAX.pack()), u64::MAX);
}

#[test]
fn a_pair_key_has_the_guild_in_the_upper_half() {
    assert_eq!((1u64, 2u64).pack(), (1u128 << 64) + 2);
    assert_eq!((0u64, 0u64).pack(), 0);
    assert_eq!((0u64, 5u64).pack(), 5);
    assert_eq!((5u64, 0u64).pack(), 5u128 << 64);
    assert_eq!((u64::MAX, u64::MAX).pack(), u128::MAX);
    assert_eq!(<(u64, u64) as StoreKey>::unpack((1u128 << 64) + 2), (1, 2));
    assert_eq!(<(u64, u64) as StoreKey>::unpack(u128::MAX), (u64::MAX, u64::MAX));
    assert_ne!((1u64, 2u64).pack(), (2u64, 1u64).pack());
    assert_ne!((1u64, 7u64).pack(), (2u64, 7u64).pack());
}

#[test]
fn a_new_store_holds_nothing() {
    let store: Store<u64, String> = Store::new();
    assert_eq!(store.get(&1), None);
    assert!(ResourceIter::new(&store).next().is_none());
    assert_eq!(ResourceIter::new(&store).collect().len(), 0);
}

#[test]
fn storing_returns_what_was_there_before() {
    let mut store: Store<u64, String> = Store::new();
    assert_eq!(store.insert(1, "one".to_owned()), None);
    assert_eq!(store.insert(2, "two".to_owned()), None);
    assert_eq!(store.insert(1, "uno".to_owned()), Some("one".to_owned()));
    assert_eq!(store.insert(1, "eins".to_owned()), Some("uno".to_owned()));

    assert_eq!(store.get(&1), Some(&"eins".to_owned()));
    assert_eq!(store.get(&2), Some(&"two".to_owned()));
    assert_eq!(store.get(&3), None);
    assert_eq!(ResourceIter::new(&store).collect().len(), 2);
}

#[test]
fn taking_out_returns_the_value_and_leaves_the_rest() {
    let mut store: Store<u64, String> = Store::new();
    store.insert(1, "one".to_owned());
    store.insert(2, "two".to_owned());
    store.insert(3, "three".to_owned());

    assert_eq!(store.remove(&2), Some("two".to_owned()));
    assert_eq!(store.remove(&2), None);
    assert_eq!(store.remove(&9), None);
    assert_eq!(store.get(&2), None);
    assert_eq!(store.get(&1), Some(&"one".to_owned()));
    assert_eq!(store.get(&3), Some(&"three".to_owned()));
}

#[test]
fn emptied_slots_are_filled_again() {
    let mut store: Store<u64, u64> = Store::new();
    for key in 0..100u64 {
        assert_eq!(store.insert(key, key * 10), None);
    }
    for key in (0..100u64).filter(|key| key % 3 == 0) {
        assert_eq!(store.remove(&key), Some(key * 10));
    }
    for key in 100..150u64 {
        assert_eq!(store.insert(key, key * 10), None);
    }
    for key in 0..150u64 {
        let expected = if key < 100 && key % 3 == 0 {
            None
        } else {
            Some(key * 10)
        };
        assert_eq!(store.get(&key).copied(), expected);
    }

    let mut seen = ResourceIter::new(&store)
        .collect()
        .iter()
        .map(|entry| (*entry.key(), *entry.value()))
        .collect::<Vec<_>>();
    seen.sort_unstable();
    let expected = (0..150u64)
        .filter(|key| !(*key < 100 && key % 3 == 0))
        .map(|key| (key, key * 10))
        .collect::<Vec<_>>();
    assert_eq!(seen, expected);
}

#[test]
fn pair_keys_tell_guilds_apart() {
    let mut store: Store<(u64, u64), &'static str> = Store::new();
    assert_eq!(store.insert((1, 7), "a"), None);
    assert_eq!(store.insert((2, 7), "b"), None);
    assert_eq!(store.insert((7, 1), "c"), None);

    assert_eq!(store.get(&(1, 7)), Some(&"a"));
    assert_eq!(store.get(&(2, 7)), Some(&"b"));
    assert_eq!(store.get(&(7, 1)), Some(&"c"));
    assert_eq!(store.get(&(7, 2)), None);

    assert_eq!(store.remove(&(1, 7)), Some("a"));
    assert_eq!(store.get(&(1, 7)), None);
    assert_eq!(store.get(&(2, 7)), Some(&"b"));

    let mut keys = ResourceIter::new(&store)
        .collect()
        .iter()
        .map(|entry| *entry.key())
        .collect::<Vec<_>>();
    keys.sort_unstable();
    assert_eq!(keys, vec![(2, 7), (7, 1)]);
}

#[test]
fn a_walk_shows_key_and_value_and_reads_as_the_value() {
    let mut store: Store<u64, String> = Store::new();
    store.insert(42, "answer".to_owned());

    let mut walk = ResourceIter::new(&store);
    let entry = walk.next().expect("one entry");
    assert_eq!(*entry.key(), 42);
    assert_eq!(entry.value(), "answer");
    assert_eq!(entry.len(), 6);
    assert!(entry.starts_with("ans"));
    assert!(walk.next().is_none());
    assert!(walk.next().is_none());
}

#[test]
fn the_default_configuration_keeps_everything() {
    let config = Config::new();
    assert_eq!(config.message_cache_size(), 100);
    assert_eq!(config.message_cache_size, 100);
    assert_eq!(config.resource_types(), ResourceType::all());
    assert_eq!(config, Config::default());
    for kind in EVERY_KIND {
        assert!(config.resource_types().contains(kind));
    }
}

#[test]
fn every_kind_has_a_bit_of_its_own() {
    assert_eq!(ResourceKind::Channel.mask(), 1);
    assert_eq!(ResourceKind::Emoji.mask(), 2);
    assert_eq!(ResourceKind::User.mask(), 1 << 10);
    assert_eq!(ResourceKind::VoiceState.mask(), 1 << 11);
    let mut all = 0u64;
    for kind in EVERY_KIND {
        assert_eq!(kind.mask().count_ones(), 1);
        assert_eq!(all & kind.mask(), 0);
        all |= kind.mask();
    }
    assert_eq!(all, 0xfff);
}

#[test]
fn selections_are_sets_of_kinds() {
    for kind in EVERY_KIND {
        assert!(ResourceType::all().contains(kind));
        assert!(!ResourceType::empty().contains(kind));
        assert!(ResourceType::empty().with(kind).contains(kind));
        assert!(!ResourceType::all().without(kind).contains(kind));
        for other in EVERY_KIND {
            if other != kind {
                assert!(ResourceType::all().without(kind).contains(other));
                assert!(!ResourceType::empty().with(kind).contains(other));
            }
        }
    }

    let users = ResourceType::empty().with(ResourceKind::User);
    let roles = ResourceType::empty().with(ResourceKind::Role);
    let both = users.union(roles);
    assert!(both.contains(ResourceKind::User));
    assert!(both.contains(ResourceKind::Role));
    assert!(!both.contains(ResourceKind::Guild));
    assert_eq!(both, roles.with(ResourceKind::User));
    assert_eq!(both.without(ResourceKind::Role), users);
    assert_eq!(users.with(ResourceKind::User), users);
    assert_eq!(users.without(ResourceKind::Guild), users);
    assert_eq!(ResourceType::all().union(users), ResourceType::all());
}

#[test]
fn a_wrapper_shows_its_guild_and_its_resource() {
    let wrapped = GuildResource::new(9, "emoji".to_owned());
    assert_eq!(wrapped.guild_id(), 9);
    assert_eq!(wrapped.resource(), "emoji");
    assert_eq!(wrapped.len(), "emoji".len());
    assert_eq!(wrapped.as_str(), "emoji");
    assert_eq!(&*wrapped, "emoji");
}
