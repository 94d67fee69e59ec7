//! The laws of the session lifecycle, stated and proved over the
//! transition functions that specify the executable operations. They are
//! part of what the library states: each one holds for every registry
//! state that the operations can produce.

use crate::orchestrator::clear_spec;
use crate::orchestrator::join_spec;
use crate::orchestrator::play_spec;
use crate::orchestrator::skip_spec;
use crate::orchestrator::teardown_spec;
use crate::orchestrator::ClearOutcome;
use crate::orchestrator::PlayStep;
use crate::orchestrator::SkipOutcome;
use crate::orchestrator::TeardownOutcome;
use crate::registry::SessionModel;
use crate::watchers::channel_occupied_spec;
use crate::watchers::presence_spec;
use crate::watchers::track_end_spec;
use crate::watchers::PresenceAction;
use crate::watchers::TrackEndAction;
use crate::watchers::VoiceMember;
use vstd::prelude::*;

verus! {

/// Teardown is idempotent: one teardown leaves no session for the guild,
/// and a second one finds the same end state, changes nothing, and asks
/// for no externally observable action.
pub proof fn lemma_teardown_idempotent(m: Map<u64, SessionModel>, guild_id: u64)
    ensures
        ({
            let m1 = teardown_spec(m, guild_id).0;
            &&& !m1.contains_key(guild_id)
            &&& teardown_spec(m1, guild_id).0 == m1
            &&& teardown_spec(m1, guild_id).1 == TeardownOutcome::NotActive
        }),
{
}

/// A play request from inside the session's own channel enqueues: the
/// source goes to the back of the queue, whose length grows by exactly
/// one, and every other guild's session is untouched.
pub proof fn lemma_play_same_channel_enqueues(
    m: Map<u64, SessionModel>,
    guild_id: u64,
    source: Seq<char>,
)
    requires
        m.contains_key(guild_id),
    ensures
        ({
            let c = m[guild_id].channel_id;
            let (m2, step) = play_spec(m, guild_id, Some(c), source);
            &&& m2.contains_key(guild_id)
            &&& m2[guild_id].queue == m[guild_id].queue.push(source)
            &&& m2[guild_id].queue.len() == m[guild_id].queue.len() + 1
            &&& m2[guild_id].channel_id == c
            &&& step == PlayStep::Enqueued { queue_len: m[guild_id].queue.len() as usize }
            &&& forall|g: u64| #![auto]
                g != guild_id ==> (m2.contains_key(g) <==> m.contains_key(g)) && (m.contains_key(
                    g,
                ) ==> m2[g] == m[g])
        }),
{
}

/// A play request from a requester in a different channel leaves the old
/// session untouched and asks for a direct rejoin; completing that join
/// replaces the session in place. Teardown-then-join semantics are not
/// involved, and other guilds' sessions are untouched throughout.
pub proof fn lemma_play_other_channel_rejoins(
    m: Map<u64, SessionModel>,
    guild_id: u64,
    requester_channel_id: u64,
    notify_channel_id: u64,
    source: Seq<char>,
)
    requires
        m.contains_key(guild_id),
        m[guild_id].channel_id != requester_channel_id,
    ensures
        ({
            let (m1, step) = play_spec(m, guild_id, Some(requester_channel_id), source);
            &&& m1 == m
            &&& step == PlayStep::NeedsJoin { channel_id: requester_channel_id }
        }),
        ({
            let m2 = join_spec(m, guild_id, requester_channel_id, notify_channel_id, source);
            &&& m2.contains_key(guild_id)
            &&& m2[guild_id] == SessionModel {
                channel_id: requester_channel_id,
                notify_channel_id,
                queue: seq![source],
            }
            &&& forall|g: u64| #![auto]
                g != guild_id ==> (m2.contains_key(g) <==> m.contains_key(g)) && (m.contains_key(
                    g,
                ) ==> m2[g] == m[g])
        }),
{
}

/// The registry after a whole run of play requests from inside the
/// session's channel, one per source, in order.
pub open spec fn play_all_spec(
    m: Map<u64, SessionModel>,
    guild_id: u64,
    channel_id: u64,
    sources: Seq<Seq<char>>,
) -> Map<u64, SessionModel>
    decreases sources.len(),
{
    if sources.len() == 0 {
        m
    } else {
        play_all_spec(
            play_spec(m, guild_id, Some(channel_id), sources[0]).0,
            guild_id,
            channel_id,
            sources.drop_first(),
        )
    }
}

/// The queue is FIFO on the way in: enqueueing any run of sources from
/// inside the session's channel appends them at the back, in order.
pub proof fn lemma_enqueue_fifo(m: Map<u64, SessionModel>, guild_id: u64, sources: Seq<Seq<char>>)
    requires
        m.contains_key(guild_id),
    ensures
        ({
            let c = m[guild_id].channel_id;
            let m2 = play_all_spec(m, guild_id, c, sources);
            &&& m2.contains_key(guild_id)
            &&& m2[guild_id].channel_id == c
            &&& m2[guild_id].notify_channel_id == m[guild_id].notify_channel_id
            &&& m2[guild_id].queue == m[guild_id].queue + sources
        }),
    decreases sources.len(),
{
    let c = m[guild_id].channel_id;
    if sources.len() == 0 {
        assert(m[guild_id].queue + sources =~= m[guild_id].queue);
    } else {
        let m1 = play_spec(m, guild_id, Some(c), sources[0]).0;
        lemma_enqueue_fifo(m1, guild_id, sources.drop_first());
        assert(m1[guild_id].queue + sources.drop_first() =~= m[guild_id].queue + sources);
    }
}

/// The queue is FIFO on the way out: `skip` removes exactly the front and
/// reports what remains; on an empty queue it is a no-op reporting zero
/// remaining, not an error, and the session stays live either way.
pub proof fn lemma_skip_removes_front(m: Map<u64, SessionModel>, guild_id: u64)
    requires
        m.contains_key(guild_id),
    ensures
        ({
            let q = m[guild_id].queue;
            let (m2, out) = skip_spec(m, guild_id);
            &&& m2.contains_key(guild_id)
            &&& m2[guild_id].channel_id == m[guild_id].channel_id
            &&& q.len() > 0 ==> m2[guild_id].queue == q.drop_first() && out
                == SkipOutcome::Skipped { remaining: (q.len() - 1) as usize }
            &&& q.len() == 0 ==> m2 == m && out == SkipOutcome::Skipped { remaining: 0usize }
        }),
{
    let q = m[guild_id].queue;
    if q.len() == 0 {
        let s2 = SessionModel {
            channel_id: m[guild_id].channel_id,
            notify_channel_id: m[guild_id].notify_channel_id,
            queue: q,
        };
        assert(s2 =~= m[guild_id]);
        assert(skip_spec(m, guild_id).0 =~= m);
    }
}

/// After the last queued source finishes while the connection is live,
/// the track-completion watcher tears the session down — exactly once:
/// the registry no longer contains the guild, and a further report for
/// the same guild finds no session, changes nothing, and asks for no
/// action.
pub proof fn lemma_empty_queue_auto_leave(
    m: Map<u64, SessionModel>,
    guild_id: u64,
    ended_tracks: int,
    later_ended_tracks: int,
    later_connection_live: bool,
)
    requires
        m.contains_key(guild_id),
        ended_tracks >= m[guild_id].queue.len(),
    ensures
        ({
            let (m1, a1) = track_end_spec(m, guild_id, ended_tracks, true);
            &&& a1 == TrackEndAction::Teardown
            &&& m1 == m.remove(guild_id)
            &&& !m1.contains_key(guild_id)
            &&& track_end_spec(m1, guild_id, later_ended_tracks, later_connection_live).0 == m1
            &&& track_end_spec(m1, guild_id, later_ended_tracks, later_connection_live).1
                == TrackEndAction::NotActive
        }),
{
    if ended_tracks <= m[guild_id].queue.len() {
        assert(m[guild_id].queue.skip(ended_tracks).len() == 0);
    }
}

/// If every non-bot occupant has left the joined channel, the presence
/// watcher tears the session down — whatever the queue still holds.
pub proof fn lemma_channel_vacated_auto_leave(
    m: Map<u64, SessionModel>,
    guild_id: u64,
    states: Seq<VoiceMember>,
    bot_user_id: u64,
)
    requires
        m.contains_key(guild_id),
        !channel_occupied_spec(states, bot_user_id, m[guild_id].channel_id),
    ensures
        ({
            let (m1, a) = presence_spec(m, guild_id, true, states, bot_user_id);
            &&& a == PresenceAction::Teardown
            &&& m1 == m.remove(guild_id)
            &&& !m1.contains_key(guild_id)
        }),
{
}

/// No premature leave: clearing the queue keeps the session live, and as
/// long as some non-bot occupant remains in the joined channel the
/// presence watcher leaves it alone — only an emptied channel or a later
/// track-completion report can end it.
pub proof fn lemma_no_premature_leave(
    m: Map<u64, SessionModel>,
    guild_id: u64,
    states: Seq<VoiceMember>,
    bot_user_id: u64,
)
    requires
        m.contains_key(guild_id),
        channel_occupied_spec(states, bot_user_id, m[guild_id].channel_id),
    ensures
        ({
            let (m1, c) = clear_spec(m, guild_id);
            &&& c == ClearOutcome::Cleared
            &&& m1.contains_key(guild_id)
            &&& m1[guild_id].queue.len() == 0
            &&& m1[guild_id].channel_id == m[guild_id].channel_id
            &&& presence_spec(m1, guild_id, true, states, bot_user_id) == (
                m1,
                PresenceAction::Stay,
            )
        }),
{
}

} // verus!
