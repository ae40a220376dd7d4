//! Decision rules for gateway events.
//!
//! A voice-state transition calls for at most two actions: create a personal
//! channel (and move the member into it) when the member joined the trigger
//! channel of the target guild, and delete the channel the member left when
//! that channel was created by the bot and now stands empty. A text message
//! calls for at most one action: the fixed reply to the fixed trigger
//! content. The functions here decide; the embedding program performs the
//! gateway calls and feeds the outcomes back into the registry.

use vstd::prelude::*;
use vstd::string::StringExecFns;

use crate::config::BotConfig;
use crate::registry::ChannelRegistry;
use crate::snapshot::GuildSnapshot;
use crate::snapshot::occupant_count;

verus! {

/// A member's movement between voice channels, as one event reports it.
pub struct VoiceTransition {
    /// The member's display name, or the sentinel when it is unknown.
    pub user_display_name: String,
    /// The channel the member left, absent when they just connected.
    pub from_channel_id: Option<u64>,
    /// The channel the member entered, absent when they disconnected.
    pub to_channel_id: Option<u64>,
    /// The guild the transition happened in.
    pub guild_id: u64,
}

impl VoiceTransition {
    /// Assemble a transition from the raw parts of an event. A missing
    /// member falls back to the sentinel display name.
    pub fn from_event(
        previous_channel: Option<u64>,
        new_channel: Option<u64>,
        member_name: Option<String>,
        guild_id: u64,
    ) -> (t: VoiceTransition)
        ensures
            t.from_channel_id == previous_channel,
            t.to_channel_id == new_channel,
            t.guild_id == guild_id,
            member_name is Some ==> t.user_display_name == member_name->0,
            member_name is None ==> t.user_display_name@ == "Unknown"@,
    {
        let user_display_name = match member_name {
            Some(name) => name,
            None => "Unknown".to_owned(),
        };
        VoiceTransition { user_display_name, from_channel_id: previous_channel, to_channel_id: new_channel, guild_id }
    }
}

/// The transition that asks for a personal channel: the member entered the
/// trigger channel, in the target guild.
pub open spec fn is_trigger_arrival(config: &BotConfig, t: &VoiceTransition) -> bool {
    t.guild_id == config.target_guild_id && t.to_channel_id == Some(config.trigger_channel_id)
}

/// The departure that asks for a deletion: the member left a channel that
/// the bot created, and nobody occupies it any more. An unregistered
/// channel is never deleted, nor a registered one that is still occupied.
pub open spec fn should_delete(
    registered: Set<u64>,
    states: Seq<Option<u64>>,
    from_channel_id: Option<u64>,
) -> bool {
    &&& from_channel_id is Some
    &&& registered.contains(from_channel_id->0)
    &&& occupant_count(states, from_channel_id->0) == 0
}

/// Once a confirmed deletion has removed a channel from the registered set,
/// no later departure from that channel asks for its deletion again,
/// whatever the guild's voice states then look like.
pub proof fn lemma_deletion_not_repeated(
    registered: Set<u64>,
    states: Seq<Option<u64>>,
    channel_id: u64,
)
    ensures
        !should_delete(registered.remove(channel_id), states, Some(channel_id)),
{
}

/// What one voice-state transition asks the gateway for.
pub struct VoicePlan {
    /// The name of the personal channel to create, into which the member is
    /// then to be moved; absent when the transition is no trigger arrival.
    pub create_channel_name: Option<String>,
    /// The emptied ephemeral channel to delete; absent when the member left
    /// no channel, an unregistered one, or one that is still occupied.
    pub delete_channel_id: Option<u64>,
}

/// The name of the personal channel for a member: the decorative prefix
/// followed by the member's display name.
pub fn personal_channel_name(config: &BotConfig, user_display_name: &str) -> (name: String)
    ensures
        name@ == config.name_prefix@ + user_display_name@,
{
    let mut name = config.name_prefix.clone();
    name.append(user_display_name);
    name
}

/// Decide what a voice-state transition asks for.
///
/// A channel is to be created, under the member's name, exactly when the
/// transition is a trigger arrival; the channel the member left is to be
/// deleted exactly when it is registered and its occupant count over the
/// guild snapshot is zero.
pub fn plan_voice_actions(
    config: &BotConfig,
    registry: &ChannelRegistry,
    snapshot: &GuildSnapshot,
    t: &VoiceTransition,
) -> (plan: VoicePlan)
    requires
        snapshot.guild_id == t.guild_id,
    ensures
        plan.create_channel_name is Some <==> is_trigger_arrival(config, t),
        plan.create_channel_name is Some ==> plan.create_channel_name->0@ == config.name_prefix@
            + t.user_display_name@,
        plan.delete_channel_id is Some <==> should_delete(
            registry@,
            snapshot.voice_channels@,
            t.from_channel_id,
        ),
        plan.delete_channel_id is Some ==> plan.delete_channel_id == t.from_channel_id,
{
    let arrived = match t.to_channel_id {
        Some(id) => t.guild_id == config.target_guild_id && id == config.trigger_channel_id,
        None => false,
    };
    let create_channel_name = if arrived {
        Some(personal_channel_name(config, t.user_display_name.as_str()))
    } else {
        None
    };

    let delete_channel_id = match t.from_channel_id {
        Some(from) => {
            let count = snapshot.connections_count(from);
            if registry.contains(from) && count == 0 {
                Some(from)
            } else {
                None
            }
        },
        None => None,
    };

    VoicePlan { create_channel_name, delete_channel_id }
}

/// Decide what a text message asks for: the fixed reply when the content is
/// exactly the trigger, nothing on any other content.
pub fn plan_reply(config: &BotConfig, content: &str) -> (reply: Option<String>)
    ensures
        reply is Some <==> content@ == config.command_trigger@,
        reply is Some ==> reply->0@ == config.command_reply@,
{
    let owned = content.to_owned();
    if owned.eq(&config.command_trigger) {
        Some(config.command_reply.clone())
    } else {
        None
    }
}

} // verus!
