//! The two event watchers: the track-completion watcher attached to each
//! session, and the process-wide presence watcher. Both only decide;
//! every session removal goes through the one shared teardown procedure
//! in [`crate::orchestrator`], and the caller carries out the physical
//! actions that the decision asks for.

use crate::orchestrator::teardown;
use crate::registry::SessionModel;
use crate::registry::SessionRegistry;
use vstd::prelude::*;

verus! {

/// One occupant of the guild's voice channels, as the gateway reports it:
/// a user and the voice channel the user currently sits in, if any.
#[derive(Clone, Copy, Debug, PartialEq, Eq)]
pub struct VoiceMember {
    pub user_id: u64,
    pub channel_id: Option<u64>,
}

/// At least one member other than the bot itself occupies the channel.
pub open spec fn channel_occupied_spec(
    states: Seq<VoiceMember>,
    bot_user_id: u64,
    channel_id: u64,
) -> bool {
    exists|i: int|
        0 <= i < states.len() && states[i].user_id != bot_user_id && states[i].channel_id
            == Some(channel_id)
}

/// True when nobody but possibly the bot itself occupies the voice
/// channel, judged from the guild's current voice states.
pub fn check_if_channel_empty(
    voice_states: &Vec<VoiceMember>,
    bot_user_id: u64,
    channel_id: u64,
) -> (r: bool)
    ensures
        r == !channel_occupied_spec(voice_states@, bot_user_id, channel_id),
{
    let mut i: usize = 0;
    while i < voice_states.len()
        invariant
            i <= voice_states@.len(),
            forall|j: int|
                0 <= j < i ==> !(voice_states@[j].user_id != bot_user_id
                    && voice_states@[j].channel_id == Some(channel_id)),
        decreases voice_states@.len() - i,
    {
        let member = voice_states[i];
        if member.user_id != bot_user_id {
            match member.channel_id {
                Some(c) => if c == channel_id {
                    return false;
                },
                None => {},
            }
        }
        i += 1;
    }
    true
}

/// What the track-completion watcher decided.
#[derive(Clone, Copy, Debug, PartialEq, Eq)]
pub enum TrackEndAction {
    /// The queue ran dry while the connection was live: the session was
    /// removed and the caller must stop playback, drop the subscription
    /// and disconnect.
    Teardown,
    /// Sources are still queued (or the connection is already gone): the
    /// transport auto-advances, nothing further to do.
    Continue,
    /// No session is live for the guild; nothing to do.
    NotActive,
}

/// Transition of a track-completion event on the registry model: the
/// finished sources leave the front of the queue; teardown follows
/// exactly when nothing is left to play while the connection is live.
pub open spec fn track_end_spec(
    m: Map<u64, SessionModel>,
    guild_id: u64,
    ended_tracks: int,
    connection_live: bool,
) -> (Map<u64, SessionModel>, TrackEndAction) {
    if !m.contains_key(guild_id) {
        (m, TrackEndAction::NotActive)
    } else {
        let s = m[guild_id];
        let q2 = if ended_tracks <= s.queue.len() {
            s.queue.skip(ended_tracks)
        } else {
            Seq::empty()
        };
        if q2.len() == 0 && connection_live {
            (m.remove(guild_id), TrackEndAction::Teardown)
        } else {
            let s2 = SessionModel {
                channel_id: s.channel_id,
                notify_channel_id: s.notify_channel_id,
                queue: q2,
            };
            (m.insert(guild_id, s2), TrackEndAction::Continue)
        }
    }
}

/// What the presence watcher decided.
#[derive(Clone, Copy, Debug, PartialEq, Eq)]
pub enum PresenceAction {
    /// No session is live for the guild; nothing to do.
    NoSession,
    /// The registry said "active" but the transport holds no live
    /// connection: the stale session was removed to heal the desync, and
    /// the caller performs the best-effort cleanup.
    Reconciled,
    /// The joined channel has no non-bot occupant left: the session was
    /// removed and the caller must stop playback, drop the subscription
    /// and disconnect.
    Teardown,
    /// Somebody is still listening; the session stays.
    Stay,
}

/// Transition of a channel-membership change on the registry model.
pub open spec fn presence_spec(
    m: Map<u64, SessionModel>,
    guild_id: u64,
    connection_live: bool,
    states: Seq<VoiceMember>,
    bot_user_id: u64,
) -> (Map<u64, SessionModel>, PresenceAction) {
    if !m.contains_key(guild_id) {
        (m, PresenceAction::NoSession)
    } else if !connection_live {
        (m.remove(guild_id), PresenceAction::Reconciled)
    } else if !channel_occupied_spec(states, bot_user_id, m[guild_id].channel_id) {
        (m.remove(guild_id), PresenceAction::Teardown)
    } else {
        (m, PresenceAction::Stay)
    }
}

/// The track-completion watcher attached to one session: it reacts to
/// "tracks finished" reports for its guild and posts status messages to
/// its text channel (the posting itself is the caller's best-effort I/O).
pub struct TrackEndHandler {
    pub channel_id: u64,
    pub guild_id: u64,
}

impl TrackEndHandler {
    /// Reacts to the transport's report that `ended_tracks` queued tracks
    /// finished: they leave the front of the queue, and when the queue is
    /// empty while the connection is still live — the terminal "nothing
    /// left to play" condition — the session is torn down. A non-empty
    /// queue means the transport auto-advances and nothing happens here.
    pub fn act(
        &self,
        registry: &mut SessionRegistry,
        ended_tracks: usize,
        connection_live: bool,
    ) -> (r: TrackEndAction)
        requires
            old(registry).wf(),
        ensures
            final(registry).wf(),
            final(registry)@ == track_end_spec(
                old(registry)@,
                self.guild_id,
                ended_tracks as int,
                connection_live,
            ).0,
            r == track_end_spec(
                old(registry)@,
                self.guild_id,
                ended_tracks as int,
                connection_live,
            ).1,
    {
        let mut session = match registry.take(self.guild_id) {
            None => {
                return TrackEndAction::NotActive;
            },
            Some(s) => s,
        };
        let ghost q0 = session@.queue;
        let mut k: usize = 0;
        while k < ended_tracks && session.queue.len() > 0
            invariant
                k <= ended_tracks,
                k as int <= q0.len(),
                session@.queue =~= q0.skip(k as int),
                session@.channel_id == old(registry)@[self.guild_id].channel_id,
                session@.notify_channel_id == old(registry)@[self.guild_id].notify_channel_id,
            decreases ended_tracks - k,
        {
            let ghost qk = session@.queue;
            let _finished = session.queue.remove(0);
            proof {
                assert(session@.queue =~= qk.drop_first());
                assert(qk.drop_first() =~= q0.skip(k as int + 1));
            }
            k += 1;
        }
        proof {
            let ghost q2 = if ended_tracks as int <= q0.len() {
                q0.skip(ended_tracks as int)
            } else {
                Seq::<Seq<char>>::empty()
            };
            assert(session@.queue =~= q2);
        }
        if session.queue.len() == 0 && connection_live {
            // Nothing left to play: the terminal condition. The session
            // ends through the one shared teardown procedure.
            registry.put(self.guild_id, session);
            let _outcome = teardown(registry, self.guild_id);
            proof {
                assert(registry@ =~= old(registry)@.remove(self.guild_id));
            }
            TrackEndAction::Teardown
        } else {
            registry.put(self.guild_id, session);
            proof {
                assert(registry@ =~= track_end_spec(
                    old(registry)@,
                    self.guild_id,
                    ended_tracks as int,
                    connection_live,
                ).0);
            }
            TrackEndAction::Continue
        }
    }
}

/// The process-wide gateway event listener: it reacts to every
/// channel-membership change the gateway delivers, for every guild.
pub struct DefaultHandler;

impl DefaultHandler {
    /// Reacts to a channel-occupancy change in the guild. A guild without
    /// a session is left alone; a session whose connection the transport
    /// no longer holds is removed to reconcile the registry (defensive
    /// self-healing); otherwise the session is torn down exactly when no
    /// non-bot member occupies the joined channel any more — whatever the
    /// queue still holds.
    pub fn voice_state_update(
        &self,
        registry: &mut SessionRegistry,
        guild_id: u64,
        connection_live: bool,
        voice_states: &Vec<VoiceMember>,
        bot_user_id: u64,
    ) -> (r: PresenceAction)
        requires
            old(registry).wf(),
        ensures
            final(registry).wf(),
            final(registry)@ == presence_spec(
                old(registry)@,
                guild_id,
                connection_live,
                voice_states@,
                bot_user_id,
            ).0,
            r == presence_spec(
                old(registry)@,
                guild_id,
                connection_live,
                voice_states@,
                bot_user_id,
            ).1,
    {
        let channel_id = match registry.channel_of(guild_id) {
            None => {
                return PresenceAction::NoSession;
            },
            Some(c) => c,
        };
        if !connection_live {
            let _outcome = teardown(registry, guild_id);
            return PresenceAction::Reconciled;
        }
        if check_if_channel_empty(voice_states, bot_user_id, channel_id) {
            let _outcome = teardown(registry, guild_id);
            PresenceAction::Teardown
        } else {
            PresenceAction::Stay
        }
    }
}

} // verus!
