//! The session orchestrator: the decision logic shared by the command
//! surface and the two watchers. Every mutation of the session registry
//! goes through the functions in this module; each one is specified by a
//! pure transition function on the registry's model, so that the laws in
//! [`crate::laws`] can be stated and proved over those transitions.

use crate::registry::SessionModel;
use crate::registry::SessionRegistry;
use crate::registry::VoiceSession;
use vstd::prelude::*;

verus! {

/// What a `play` request decided.
#[derive(Clone, Copy, Debug, PartialEq, Eq)]
pub enum PlayStep {
    /// The requester is not in a voice channel; nothing changed.
    NoVoiceChannel,
    /// A session for the requester's channel was already live; the source
    /// was appended. `queue_len` counts the sources waiting behind the
    /// one at the front of the queue.
    Enqueued { queue_len: usize },
    /// No session is live in the requester's channel: the caller must
    /// attempt the physical join and, on success, call `complete_join`.
    /// Nothing changed.
    NeedsJoin { channel_id: u64 },
}

/// What `skip` decided.
#[derive(Clone, Copy, Debug, PartialEq, Eq)]
pub enum SkipOutcome {
    /// The front of the queue was popped (a no-op on an empty queue);
    /// `remaining` is the queue length afterwards.
    Skipped { remaining: usize },
    /// No session is live for the guild.
    NotActive,
}

/// What `clear` decided.
#[derive(Clone, Copy, Debug, PartialEq, Eq)]
pub enum ClearOutcome {
    /// The queue was truncated to empty; the session stays live.
    Cleared,
    /// No session is live for the guild.
    NotActive,
}

/// What `teardown` decided.
#[derive(Clone, Copy, Debug, PartialEq, Eq)]
pub enum TeardownOutcome {
    /// A session was removed: the caller must stop playback, drop the
    /// track-completion subscription and disconnect.
    TornDown,
    /// No session was live; nothing to do and no action to perform.
    NotActive,
}

/// Transition of a `play` request on the registry model.
pub open spec fn play_spec(
    m: Map<u64, SessionModel>,
    guild_id: u64,
    requester_channel_id: Option<u64>,
    source: Seq<char>,
) -> (Map<u64, SessionModel>, PlayStep) {
    match requester_channel_id {
        None => (m, PlayStep::NoVoiceChannel),
        Some(c) => if m.contains_key(guild_id) && m[guild_id].channel_id == c {
            let s = m[guild_id];
            let s2 = SessionModel {
                channel_id: s.channel_id,
                notify_channel_id: s.notify_channel_id,
                queue: s.queue.push(source),
            };
            (m.insert(guild_id, s2), PlayStep::Enqueued { queue_len: s.queue.len() as usize })
        } else {
            (m, PlayStep::NeedsJoin { channel_id: c })
        },
    }
}

/// Transition of a completed physical join: the guild's session is
/// created anew (replacing any stale one together with its subscription)
/// with the source as the only queue entry.
pub open spec fn join_spec(
    m: Map<u64, SessionModel>,
    guild_id: u64,
    channel_id: u64,
    notify_channel_id: u64,
    source: Seq<char>,
) -> Map<u64, SessionModel> {
    m.insert(
        guild_id,
        SessionModel { channel_id, notify_channel_id, queue: seq![source] },
    )
}

/// Transition of `skip` on the registry model.
pub open spec fn skip_spec(m: Map<u64, SessionModel>, guild_id: u64) -> (
    Map<u64, SessionModel>,
    SkipOutcome,
) {
    if !m.contains_key(guild_id) {
        (m, SkipOutcome::NotActive)
    } else {
        let s = m[guild_id];
        let q2 = if s.queue.len() > 0 {
            s.queue.drop_first()
        } else {
            s.queue
        };
        let s2 = SessionModel {
            channel_id: s.channel_id,
            notify_channel_id: s.notify_channel_id,
            queue: q2,
        };
        (m.insert(guild_id, s2), SkipOutcome::Skipped { remaining: q2.len() as usize })
    }
}

/// Transition of `clear` on the registry model.
pub open spec fn clear_spec(m: Map<u64, SessionModel>, guild_id: u64) -> (
    Map<u64, SessionModel>,
    ClearOutcome,
) {
    if !m.contains_key(guild_id) {
        (m, ClearOutcome::NotActive)
    } else {
        let s = m[guild_id];
        let s2 = SessionModel {
            channel_id: s.channel_id,
            notify_channel_id: s.notify_channel_id,
            queue: Seq::empty(),
        };
        (m.insert(guild_id, s2), ClearOutcome::Cleared)
    }
}

/// Transition of `teardown` on the registry model.
pub open spec fn teardown_spec(m: Map<u64, SessionModel>, guild_id: u64) -> (
    Map<u64, SessionModel>,
    TeardownOutcome,
) {
    if m.contains_key(guild_id) {
        (m.remove(guild_id), TeardownOutcome::TornDown)
    } else {
        (m, TeardownOutcome::NotActive)
    }
}

/// Handles a `play` request. A requester outside any voice channel is
/// rejected with `NoVoiceChannel` — a user error, never a fault. If a
/// session is already live in the requester's own voice channel the
/// source is appended to its queue; otherwise the caller is told to
/// attempt the physical join. No join, leave or message I/O happens here.
pub fn play(
    registry: &mut SessionRegistry,
    guild_id: u64,
    requester_channel_id: Option<u64>,
    source: String,
) -> (r: PlayStep)
    requires
        old(registry).wf(),
    ensures
        final(registry).wf(),
        final(registry)@ == play_spec(old(registry)@, guild_id, requester_channel_id, source@).0,
        r == play_spec(old(registry)@, guild_id, requester_channel_id, source@).1,
{
    let connect_to = match requester_channel_id {
        None => {
            return PlayStep::NoVoiceChannel;
        },
        Some(c) => c,
    };
    let session = match registry.take(guild_id) {
        None => {
            return PlayStep::NeedsJoin { channel_id: connect_to };
        },
        Some(s) => s,
    };
    if session.channel_id != connect_to {
        // The requester sits in another channel: a direct rejoin replaces
        // the session, so the existing entry is kept untouched for now.
        let ghost m0 = old(registry)@;
        registry.put(guild_id, session);
        proof {
            assert(registry@ =~= m0);
        }
        return PlayStep::NeedsJoin { channel_id: connect_to };
    }
    let mut session = session;
    let ghost q0 = session@.queue;
    session.queue.push(source);
    let queue_len = session.queue.len() - 1;
    proof {
        assert(session@.queue =~= q0.push(source@));
    }
    registry.put(guild_id, session);
    proof {
        assert(registry@ =~= play_spec(old(registry)@, guild_id, requester_channel_id, source@).0);
    }
    PlayStep::Enqueued { queue_len }
}

/// Records a physical join that the voice-transport collaborator reported
/// successful: any stale session (and with it the old track-completion
/// subscription) is dropped and a fresh one is registered whose queue
/// holds just the given source. On a failed join nothing is to record:
/// the registry was left untouched by `play`.
pub fn complete_join(
    registry: &mut SessionRegistry,
    guild_id: u64,
    channel_id: u64,
    notify_channel_id: u64,
    source: String,
)
    requires
        old(registry).wf(),
    ensures
        final(registry).wf(),
        final(registry)@ == join_spec(
            old(registry)@,
            guild_id,
            channel_id,
            notify_channel_id,
            source@,
        ),
{
    let _stale = registry.take(guild_id);
    let mut queue: Vec<String> = Vec::new();
    queue.push(source);
    let session = VoiceSession { channel_id, notify_channel_id, queue };
    proof {
        assert(session@.queue =~= seq![source@]);
    }
    registry.put(guild_id, session);
    proof {
        assert(registry@ =~= join_spec(
            old(registry)@,
            guild_id,
            channel_id,
            notify_channel_id,
            source@,
        ));
    }
}

/// Handles a `skip` request: pops the front of the queue (the transport
/// collaborator is signalled to advance playback by the caller). Popping
/// an empty queue is a no-op, not an error; the session never ends here.
pub fn skip(registry: &mut SessionRegistry, guild_id: u64) -> (r: SkipOutcome)
    requires
        old(registry).wf(),
    ensures
        final(registry).wf(),
        final(registry)@ == skip_spec(old(registry)@, guild_id).0,
        r == skip_spec(old(registry)@, guild_id).1,
{
    let mut session = match registry.take(guild_id) {
        None => {
            return SkipOutcome::NotActive;
        },
        Some(s) => s,
    };
    let ghost q0 = session@.queue;
    if session.queue.len() > 0 {
        let _front = session.queue.remove(0);
        proof {
            assert(session@.queue =~= q0.drop_first());
        }
    }
    let remaining = session.queue.len();
    registry.put(guild_id, session);
    proof {
        assert(registry@ =~= skip_spec(old(registry)@, guild_id).0);
    }
    SkipOutcome::Skipped { remaining }
}

/// Handles a `clear` request: truncates the queue to empty. The session
/// and its connection stay live — leaving the channel is a separate
/// decision that only `teardown` makes.
pub fn clear(registry: &mut SessionRegistry, guild_id: u64) -> (r: ClearOutcome)
    requires
        old(registry).wf(),
    ensures
        final(registry).wf(),
        final(registry)@ == clear_spec(old(registry)@, guild_id).0,
        r == clear_spec(old(registry)@, guild_id).1,
{
    let mut session = match registry.take(guild_id) {
        None => {
            return ClearOutcome::NotActive;
        },
        Some(s) => s,
    };
    session.queue.clear();
    proof {
        assert(session@.queue =~= Seq::<Seq<char>>::empty());
    }
    registry.put(guild_id, session);
    proof {
        assert(registry@ =~= clear_spec(old(registry)@, guild_id).0);
    }
    ClearOutcome::Cleared
}

/// The shared terminal procedure: removes the guild's session, telling
/// the caller whether one was live — only then must it stop playback,
/// drop the track-completion subscription and request the physical
/// disconnect (all tolerated to fail, best-effort). Idempotent: a second
/// call finds no session and asks for no action.
pub fn teardown(registry: &mut SessionRegistry, guild_id: u64) -> (r: TeardownOutcome)
    requires
        old(registry).wf(),
    ensures
        final(registry).wf(),
        final(registry)@ == teardown_spec(old(registry)@, guild_id).0,
        r == teardown_spec(old(registry)@, guild_id).1,
{
    match registry.take(guild_id) {
        Some(_session) => TeardownOutcome::TornDown,
        None => TeardownOutcome::NotActive,
    }
}

} // verus!
