//! The registry of dynamically created voice channels.
//!
//! The bot must tell the voice channels it created itself (ephemeral ones,
//! to be deleted once empty) apart from every other channel of the guild.
//! The registry is the sole source of truth for that distinction: it is a
//! set of channel identifiers, empty at start, growing by one entry per
//! created channel, shrinking when a deletion is confirmed.

use vstd::prelude::*;

verus! {

/// A set of channel identifiers, abstracted as `Set<u64>`.
///
/// The identifiers are kept in a vector without duplicates, so that a
/// removal of one entry removes the identifier from the abstract set.
pub struct ChannelRegistry {
    ids: Vec<u64>,
}

impl ChannelRegistry {
    /// The abstract contents: the set of registered channel identifiers.
    pub closed spec fn view(&self) -> Set<u64> {
        self.ids@.to_set()
    }

    /// The concrete vector holds each identifier at most once.
    pub closed spec fn wf(&self) -> bool {
        forall|i: int, j: int|
            0 <= i < j < self.ids@.len() ==> self.ids@[i] != self.ids@[j]
    }

    /// A fresh registry: no channel is registered.
    pub fn new() -> (r: ChannelRegistry)
        ensures
            r.wf(),
            r@ == Set::<u64>::empty(),
    {
        let r = ChannelRegistry { ids: Vec::new() };
        proof {
            assert(r@ =~= Set::<u64>::empty());
        }
        r
    }

    /// Membership test: is `channel_id` one of the channels the bot created?
    pub fn contains(&self, channel_id: u64) -> (r: bool)
        ensures
            r == self@.contains(channel_id),
    {
        let mut k: usize = 0;
        while k < self.ids.len()
            invariant
                0 <= k <= self.ids@.len(),
                forall|i: int| 0 <= i < k ==> self.ids@[i] != channel_id,
            decreases self.ids@.len() - k,
        {
            if self.ids[k] == channel_id {
                proof {
                    assert(self.ids@.contains(channel_id));
                }
                return true;
            }
            k += 1;
        }
        proof {
            assert(!self.ids@.contains(channel_id));
        }
        false
    }

    /// Record a newly created channel. Idempotent: registering an identifier
    /// that is already present leaves the registry unchanged.
    pub fn register(&mut self, channel_id: u64)
        requires
            old(self).wf(),
        ensures
            final(self).wf(),
            final(self)@ == old(self)@.insert(channel_id),
    {
        if !self.contains(channel_id) {
            let ghost before = self.ids@;
            self.ids.push(channel_id);
            proof {
                assert forall|x: u64| self@.contains(x) <==> before.to_set().insert(
                    channel_id,
                ).contains(x) by {
                    if self@.contains(x) {
                        let i = choose|i: int| 0 <= i < self.ids@.len() && self.ids@[i] == x;
                        if i < before.len() {
                            assert(before[i] == x);
                            assert(before.contains(x));
                        }
                    }
                    if before.to_set().insert(channel_id).contains(x) {
                        if before.contains(x) {
                            let i = choose|i: int| 0 <= i < before.len() && before[i] == x;
                            assert(self.ids@[i] == x);
                            assert(self.ids@.contains(x));
                        } else {
                            assert(self.ids@[before.len() as int] == channel_id);
                            assert(self.ids@.contains(channel_id));
                        }
                    }
                }
                assert(self@ =~= old(self)@.insert(channel_id));
            }
        } else {
            proof {
                assert(self@ =~= old(self)@.insert(channel_id));
            }
        }
    }

    /// Forget a channel once its deletion has been confirmed, so the
    /// registry does not grow without bound and holds no stale entries.
    pub fn remove(&mut self, channel_id: u64)
        requires
            old(self).wf(),
        ensures
            final(self).wf(),
            final(self)@ == old(self)@.remove(channel_id),
    {
        let ghost before = self.ids@;
        let mut k: usize = 0;
        while k < self.ids.len()
            invariant
                self.ids@ == before,
                old(self)@ == before.to_set(),
                forall|i: int, j: int| 0 <= i < j < before.len() ==> before[i] != before[j],
                0 <= k <= before.len(),
                forall|i: int| 0 <= i < k ==> before[i] != channel_id,
            decreases before.len() - k,
        {
            if self.ids[k] == channel_id {
                self.ids.remove(k);
                proof {
                    let after = self.ids@;
                    assert forall|i: int, j: int|
                        0 <= i < j < after.len() implies after[i] != after[j] by {
                        if j < k {
                            assert(before[i] != before[j]);
                        } else if i < k {
                            assert(before[i] != before[j + 1]);
                        } else {
                            assert(before[i + 1] != before[j + 1]);
                        }
                    }
                    assert forall|x: u64| after.to_set().contains(x) <==> before.to_set().remove(
                        channel_id,
                    ).contains(x) by {
                        if after.to_set().contains(x) {
                            let i = choose|i: int| 0 <= i < after.len() && after[i] == x;
                            if i < k {
                                assert(before[i] == x);
                                assert(before.contains(x));
                            } else {
                                assert(before[i + 1] == x);
                                assert(before.contains(x));
                            }
                            assert(x != channel_id) by {
                                if i < k {
                                    assert(before[i] != channel_id);
                                } else {
                                    assert(before[i + 1] != before[k as int]);
                                }
                            }
                        }
                        if before.to_set().remove(channel_id).contains(x) {
                            let i = choose|i: int| 0 <= i < before.len() && before[i] == x;
                            if i < k {
                                assert(after[i] == x);
                                assert(after.contains(x));
                            } else if i == k {
                                assert(false);
                            } else {
                                assert(after[i - 1] == x);
                                assert(after.contains(x));
                            }
                        }
                    }
                    assert(self@ =~= old(self)@.remove(channel_id));
                }
                return;
            }
            k += 1;
        }
        proof {
            assert(!before.contains(channel_id));
            assert forall|x: u64| before.to_set().contains(x) <==> before.to_set().remove(
                channel_id,
            ).contains(x) by {
                if before.to_set().contains(x) {
                    let i = choose|i: int| 0 <= i < before.len() && before[i] == x;
                    assert(before[i] != channel_id);
                }
            }
            assert(self@ =~= old(self)@.remove(channel_id));
        }
    }

    /// How many channels are currently registered.
    pub fn len(&self) -> (n: usize)
        requires
            self.wf(),
        ensures
            n == self@.len(),
    {
        proof {
            self.ids@.unique_seq_to_set();
        }
        self.ids.len()
    }
}

} // verus!
