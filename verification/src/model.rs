//! The resources that the cache stores.
//!
//! They are the models of `twilight_model`. The cache carries these values
//! and never looks inside them.

use vstd::prelude::*;

verus! {

/// `twilight_model::channel::Channel`, carried as it is.
#[verifier::external_type_specification]
#[verifier::external_body]
pub struct ExChannel(twilight_model::channel::Channel);

/// `twilight_model::guild::Emoji`, carried as it is.
#[verifier::external_type_specification]
#[verifier::external_body]
pub struct ExEmoji(twilight_model::guild::Emoji);

/// `twilight_model::guild::Guild`, carried as it is.
#[verifier::external_type_specification]
#[verifier::external_body]
pub struct ExGuild(twilight_model::guild::Guild);

/// `twilight_model::guild::GuildIntegration`, carried as it is.
#[verifier::external_type_specification]
#[verifier::external_body]
pub struct ExGuildIntegration(twilight_model::guild::GuildIntegration);

/// `twilight_model::guild::Member`, carried as it is.
#[verifier::external_type_specification]
#[verifier::external_body]
pub struct ExMember(twilight_model::guild::Member);

/// `twilight_model::channel::Message`, carried as it is.
#[verifier::external_type_specification]
#[verifier::external_body]
pub struct ExMessage(twilight_model::channel::Message);

/// `twilight_model::gateway::presence::Presence`, carried as it is.
#[verifier::external_type_specification]
#[verifier::external_body]
pub struct ExPresence(twilight_model::gateway::presence::Presence);

/// `twilight_model::guild::Role`, carried as it is.
#[verifier::external_type_specification]
#[verifier::external_body]
pub struct ExRole(twilight_model::guild::Role);

/// `twilight_model::channel::StageInstance`, carried as it is.
#[verifier::external_type_specification]
#[verifier::external_body]
pub struct ExStageInstance(twilight_model::channel::StageInstance);

/// `twilight_model::channel::message::sticker::Sticker`, carried as it is.
#[verifier::external_type_specification]
#[verifier::external_body]
pub struct ExSticker(twilight_model::channel::message::sticker::Sticker);

/// `twilight_model::user::User`, carried as it is.
#[verifier::external_type_specification]
#[verifier::external_body]
pub struct ExUser(twilight_model::user::User);

/// `twilight_model::voice::VoiceState`, carried as it is.
#[verifier::external_type_specification]
#[verifier::external_body]
pub struct ExVoiceState(twilight_model::voice::VoiceState);

/// What the cache keeps of an emoji: the model itself.
pub type CachedEmoji = twilight_model::guild::Emoji;

/// What the cache keeps of a guild: the model itself.
pub type CachedGuild = twilight_model::guild::Guild;

/// What the cache keeps of a member: the model itself.
pub type CachedMember = twilight_model::guild::Member;

/// What the cache keeps of a message: the model itself.
pub type CachedMessage = twilight_model::channel::Message;

/// What the cache keeps of a presence: the model itself.
pub type CachedPresence = twilight_model::gateway::presence::Presence;

/// What the cache keeps of a sticker: the model itself.
pub type CachedSticker = twilight_model::channel::message::sticker::Sticker;

/// What the cache keeps of a voice state: the model itself.
pub type CachedVoiceState = twilight_model::voice::VoiceState;

} // verus!
