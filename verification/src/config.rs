//! What a cache is asked to keep.

use vstd::prelude::*;

verus! {

/// A category of resource. Each category has a store of its own.
#[derive(Clone, Copy, Debug, PartialEq, Eq, Hash, Structural)]
pub enum ResourceKind {
    Channel,
    Emoji,
    Guild,
    Integration,
    Member,
    Message,
    Presence,
    Role,
    StageInstance,
    Sticker,
    User,
    VoiceState,
}

impl ResourceKind {
    /// The place of the category's bit in a selection.
    pub open spec fn position(self) -> u64 {
        match self {
            ResourceKind::Channel => 0,
            ResourceKind::Emoji => 1,
            ResourceKind::Guild => 2,
            ResourceKind::Integration => 3,
            ResourceKind::Member => 4,
            ResourceKind::Message => 5,
            ResourceKind::Presence => 6,
            ResourceKind::Role => 7,
            ResourceKind::StageInstance => 8,
            ResourceKind::Sticker => 9,
            ResourceKind::User => 10,
            ResourceKind::VoiceState => 11,
        }
    }

    /// The category's bit.
    pub open spec fn spec_mask(self) -> u64 {
        1u64 << self.position()
    }

    /// The category's bit.
    #[verifier::when_used_as_spec(spec_mask)]
    pub fn mask(self) -> (mask: u64)
        ensures
            mask == self.spec_mask(),
    {
        let position: u64 = match self {
            ResourceKind::Channel => 0,
            ResourceKind::Emoji => 1,
            ResourceKind::Guild => 2,
            ResourceKind::Integration => 3,
            ResourceKind::Member => 4,
            ResourceKind::Message => 5,
            ResourceKind::Presence => 6,
            ResourceKind::Role => 7,
            ResourceKind::StageInstance => 8,
            ResourceKind::Sticker => 9,
            ResourceKind::User => 10,
            ResourceKind::VoiceState => 11,
        };
        1u64 << position
    }
}

/// The bits of every category.
pub const EVERY_KIND: u64 = 0xfff;

proof fn lemma_bit_of_none(position: u64)
    by (bit_vector)
    ensures
        0u64 & (1u64 << position) == 0,
{
}

proof fn lemma_bit_of_every(position: u64)
    by (bit_vector)
    requires
        position < 12,
    ensures
        0xfffu64 & (1u64 << position) != 0,
{
}

proof fn lemma_bit_set(bits: u64, set: u64, probe: u64)
    by (bit_vector)
    requires
        set < 64,
        probe < 64,
    ensures
        ((bits | (1u64 << set)) & (1u64 << probe) != 0) == ((bits & (1u64 << probe) != 0) || set
            == probe),
{
}

proof fn lemma_bit_cleared(bits: u64, cleared: u64, probe: u64)
    by (bit_vector)
    requires
        cleared < 64,
        probe < 64,
    ensures
        ((bits & !(1u64 << cleared)) & (1u64 << probe) != 0) == ((bits & (1u64 << probe) != 0)
            && cleared != probe),
{
}

proof fn lemma_bit_of_union(left: u64, right: u64, bit: u64)
    by (bit_vector)
    ensures
        ((left | right) & bit != 0) == ((left & bit != 0) || (right & bit != 0)),
{
}

/// A selection of resource categories.
#[derive(Clone, Copy, Debug, PartialEq, Eq, Hash, Structural)]
pub struct ResourceType {
    bits: u64,
}

impl View for ResourceType {
    type V = Set<ResourceKind>;

    /// The categories that are selected.
    closed spec fn view(&self) -> Set<ResourceKind> {
        Set::new(|kind: ResourceKind| self.bits & kind.spec_mask() != 0)
    }
}

impl ResourceType {
    /// The selection of no category.
    pub fn empty() -> (types: ResourceType)
        ensures
            types@ == Set::<ResourceKind>::empty(),
    {
        let types = ResourceType { bits: 0 };
        proof {
            assert forall|kind: ResourceKind| !types@.contains(kind) by {
                lemma_bit_of_none(kind.position());
            }
            assert(types@ =~= Set::<ResourceKind>::empty());
        }
        types
    }

    /// The selection of every category.
    pub fn all() -> (types: ResourceType)
        ensures
            types@ == Set::<ResourceKind>::full(),
    {
        let types = ResourceType { bits: EVERY_KIND };
        proof {
            assert forall|kind: ResourceKind| types@.contains(kind) by {
                lemma_bit_of_every(kind.position());
            }
            assert(types@ =~= Set::<ResourceKind>::full());
        }
        types
    }

    /// Whether `kind` is selected.
    pub fn contains(&self, kind: ResourceKind) -> (found: bool)
        ensures
            found == self@.contains(kind),
    {
        self.bits & kind.mask() != 0
    }

    /// This selection and `kind`.
    pub fn with(self, kind: ResourceKind) -> (types: ResourceType)
        ensures
            types@ == self@.insert(kind),
    {
        let types = ResourceType { bits: self.bits | kind.mask() };
        proof {
            assert forall|other: ResourceKind| types@.contains(other) == self@.insert(
                kind,
            ).contains(other) by {
                lemma_bit_set(self.bits, kind.position(), other.position());
            }
            assert(types@ =~= self@.insert(kind));
        }
        types
    }

    /// This selection but for `kind`.
    pub fn without(self, kind: ResourceKind) -> (types: ResourceType)
        ensures
            types@ == self@.remove(kind),
    {
        let types = ResourceType { bits: self.bits & !kind.mask() };
        proof {
            assert forall|other: ResourceKind| types@.contains(other) == self@.remove(
                kind,
            ).contains(other) by {
                lemma_bit_cleared(self.bits, kind.position(), other.position());
            }
            assert(types@ =~= self@.remove(kind));
        }
        types
    }

    /// The categories of either selection.
    pub fn union(self, other: ResourceType) -> (types: ResourceType)
        ensures
            types@ == self@.union(other@),
    {
        let types = ResourceType { bits: self.bits | other.bits };
        proof {
            assert forall|kind: ResourceKind| types@.contains(kind) == self@.union(
                other@,
            ).contains(kind) by {
                lemma_bit_of_union(self.bits, other.bits, kind.spec_mask());
            }
            assert(types@ =~= self@.union(other@));
        }
        types
    }
}

/// A selection of every category but one leaves out that one and no other.
pub proof fn lemma_all_but_one(left_out: ResourceKind, other: ResourceKind)
    ensures
        !Set::<ResourceKind>::full().remove(left_out).contains(left_out),
        other != left_out ==> Set::<ResourceKind>::full().remove(left_out).contains(other),
{
}

/// What a cache keeps: the categories that it stores and, for each channel,
/// how many messages are to be retained.
#[derive(Clone, Copy, Debug, PartialEq, Eq, Structural)]
pub struct Config {
    pub resource_types: ResourceType,
    pub message_cache_size: usize,
}

/// How many messages are retained for a channel unless a configuration says
/// otherwise.
pub const DEFAULT_MESSAGE_CACHE_SIZE: usize = 100;

impl Config {
    /// Whether this is the configuration that a cache has when nothing was
    /// chosen: every category, and a hundred messages for each channel.
    pub open spec fn is_default(&self) -> bool {
        &&& self.resource_types@ == Set::<ResourceKind>::full()
        &&& self.message_cache_size == DEFAULT_MESSAGE_CACHE_SIZE
    }

    /// The configuration that a cache has when nothing was chosen.
    pub fn new() -> (config: Config)
        ensures
            config.is_default(),
    {
        Config {
            resource_types: ResourceType::all(),
            message_cache_size: DEFAULT_MESSAGE_CACHE_SIZE,
        }
    }

    /// The categories that the cache stores.
    pub fn resource_types(&self) -> (types: ResourceType)
        ensures
            types == self.resource_types,
    {
        self.resource_types
    }

    /// How many messages are to be retained for each channel.
    pub fn message_cache_size(&self) -> (size: usize)
        ensures
            size == self.message_cache_size,
    {
        self.message_cache_size
    }
}

impl Default for Config {
    fn default() -> (config: Config)
        ensures
            config.is_default(),
    {
        Config::new()
    }
}

} // verus!
