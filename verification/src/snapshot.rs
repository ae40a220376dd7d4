//! A read-only view of a guild's voice presence.
//!
//! The gateway keeps, per guild, one voice-state entry per connected member;
//! each entry names the voice channel the member currently sits in, or none
//! if the member is connected without a channel. The bot only ever reads
//! this view, to count the occupants of a channel before deciding whether
//! an emptied ephemeral channel may be deleted.

use vstd::prelude::*;

verus! {

/// How many entries of `states` place their member in channel `channel_id`.
pub open spec fn occupant_count(states: Seq<Option<u64>>, channel_id: u64) -> nat
    decreases states.len(),
{
    if states.len() == 0 {
        0
    } else {
        occupant_count(states.drop_last(), channel_id) + if states.last() == Some(
            channel_id,
        ) {
            1nat
        } else {
            0nat
        }
    }
}

/// The occupant count of a channel is the number of voice-state entries
/// that place their member in that channel: the length of the entries
/// filtered down to those naming it.
pub proof fn lemma_occupant_count_is_filter_len(states: Seq<Option<u64>>, channel_id: u64)
    ensures
        occupant_count(states, channel_id) == states.filter(
            |entry: Option<u64>| entry == Some(channel_id),
        ).len(),
    decreases states.len(),
{
    reveal(Seq::filter);
    if states.len() > 0 {
        lemma_occupant_count_is_filter_len(states.drop_last(), channel_id);
    }
}

/// A guild's identifier together with the channel of each voice-state entry.
pub struct GuildSnapshot {
    /// The guild the entries belong to.
    pub guild_id: u64,
    /// One entry per voice-state: the channel its member occupies, if any.
    pub voice_channels: Vec<Option<u64>>,
}

impl GuildSnapshot {
    /// Count the members currently occupying `channel_id`.
    pub fn connections_count(&self, channel_id: u64) -> (count: usize)
        ensures
            count == occupant_count(self.voice_channels@, channel_id),
    {
        let states = &self.voice_channels;
        let mut count: usize = 0;
        let mut k: usize = 0;
        while k < states.len()
            invariant
                0 <= k <= states@.len(),
                count <= k,
                count == occupant_count(states@.take(k as int), channel_id),
            decreases states@.len() - k,
        {
            let occupied = match states[k] {
                Some(id) => id == channel_id,
                None => false,
            };
            proof {
                assert(states@.take(k + 1).drop_last() =~= states@.take(k as int));
                assert(states@.take(k + 1).last() == states@[k as int]);
            }
            if occupied {
                count += 1;
            }
            k += 1;
        }
        proof {
            assert(states@.take(states@.len() as int) =~= states@);
        }
        count
    }
}

} // verus!
