//! The bot's policy constants.
//!
//! The guild the bot serves, the trigger channel whose joins call for a
//! personal channel, the decorative prefix of a personal channel's name,
//! and the text command with its reply, gathered in one structure so the
//! decision rules can be exercised against any values.

use vstd::prelude::*;

verus! {

/// Everything the decision rules depend on besides the event itself.
pub struct BotConfig {
    /// The only guild whose events lead to channel creation.
    pub target_guild_id: u64,
    /// Joining this voice channel asks for a personal channel.
    pub trigger_channel_id: u64,
    /// A personal channel is named by this prefix followed by the member's
    /// display name.
    pub name_prefix: String,
    /// A message with exactly this content gets a reply.
    pub command_trigger: String,
    /// The content of that reply.
    pub command_reply: String,
}

impl BotConfig {
    /// The values the bot ships with.
    pub fn defaults() -> (c: BotConfig)
        ensures
            c.target_guild_id == 191237328927195147u64,
            c.trigger_channel_id == 1026145931298619543u64,
            c.name_prefix@ == "🔰 Salon de "@,
            c.command_trigger@ == "!ping"@,
            c.command_reply@ == "Pong!"@,
    {
        BotConfig {
            target_guild_id: 191237328927195147u64,
            trigger_channel_id: 1026145931298619543u64,
            name_prefix: "🔰 Salon de ".to_owned(),
            command_trigger: "!ping".to_owned(),
            command_reply: "Pong!".to_owned(),
        }
    }
}

} // verus!
