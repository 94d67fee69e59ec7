//! The session registry: one voice session per guild that currently holds
//! a live voice connection.

use vstd::map::*;
use vstd::prelude::*;

verus! {

/// One guild's live voice session: the voice channel joined at creation
/// time, the text channel where status messages are posted, and the FIFO
/// queue of pending audio sources (front plays first).
pub struct VoiceSession {
    pub channel_id: u64,
    pub notify_channel_id: u64,
    pub queue: Vec<String>,
}

/// Mathematical model of one voice session.
#[verifier::ext_equal]
pub ghost struct SessionModel {
    pub channel_id: u64,
    pub notify_channel_id: u64,
    pub queue: Seq<Seq<char>>,
}

impl View for VoiceSession {
    type V = SessionModel;

    open spec fn view(&self) -> SessionModel {
        SessionModel {
            channel_id: self.channel_id,
            notify_channel_id: self.notify_channel_id,
            queue: self.queue@.map_values(|s: String| s@),
        }
    }
}

struct Entry {
    guild_id: u64,
    session: VoiceSession,
}

/// Process-wide map from guild id to that guild's active voice session.
/// An entry exists exactly while the bot holds a live voice connection
/// for the guild; the orchestrator is the only writer.
pub struct SessionRegistry {
    entries: Vec<Entry>,
}

impl SessionRegistry {
    /// A guild id occurs at most once among the entries.
    pub closed spec fn wf(&self) -> bool {
        forall|i: int, j: int|
            0 <= i < j < self.entries@.len() ==> self.entries@[i].guild_id
                != self.entries@[j].guild_id
    }

    spec fn has_key(&self, guild_id: u64) -> bool {
        exists|i: int| 0 <= i < self.entries@.len() && self.entries@[i].guild_id == guild_id
    }

    spec fn key_index(&self, guild_id: u64) -> int {
        choose|i: int| 0 <= i < self.entries@.len() && self.entries@[i].guild_id == guild_id
    }
}

impl View for SessionRegistry {
    type V = Map<u64, SessionModel>;

    closed spec fn view(&self) -> Map<u64, SessionModel> {
        Map::new(
            |g: u64| self.has_key(g),
            |g: u64| self.entries@[self.key_index(g)].session@,
        )
    }
}

impl SessionRegistry {
    proof fn lemma_view_has(&self, guild_id: u64)
        ensures
            self@.contains_key(guild_id) <==> self.has_key(guild_id),
    {
    }

    proof fn lemma_view_at(&self, guild_id: u64, i: int)
        requires
            self.wf(),
            0 <= i < self.entries@.len(),
            self.entries@[i].guild_id == guild_id,
        ensures
            self@.contains_key(guild_id),
            self@[guild_id] == self.entries@[i].session@,
    {
        assert(self.has_key(guild_id));
        let j = self.key_index(guild_id);
        assert(0 <= j < self.entries@.len() && self.entries@[j].guild_id == guild_id);
        assert(j == i);
    }

    /// An empty registry: no guild has a session.
    pub fn new() -> (r: SessionRegistry)
        ensures
            r.wf(),
            r@ == Map::<u64, SessionModel>::empty(),
    {
        let r = SessionRegistry { entries: Vec::new() };
        proof {
            assert_maps_equal!(r@, Map::<u64, SessionModel>::empty());
        }
        r
    }

    fn index_of(&self, guild_id: u64) -> (r: Option<usize>)
        ensures
            match r {
                Some(i) => i < self.entries@.len() && self.entries@[i as int].guild_id
                    == guild_id,
                None => !self.has_key(guild_id),
            },
    {
        let mut i: usize = 0;
        while i < self.entries.len()
            invariant
                i <= self.entries@.len(),
                forall|j: int| 0 <= j < i ==> self.entries@[j].guild_id != guild_id,
            decreases self.entries@.len() - i,
        {
            if self.entries[i].guild_id == guild_id {
                return Some(i);
            }
            i += 1;
        }
        None
    }

    /// The voice channel of the guild's session, if one is live.
    pub fn channel_of(&self, guild_id: u64) -> (r: Option<u64>)
        requires
            self.wf(),
        ensures
            r == if self@.contains_key(guild_id) {
                Some(self@[guild_id].channel_id)
            } else {
                None::<u64>
            },
    {
        match self.index_of(guild_id) {
            Some(i) => {
                proof {
                    self.lemma_view_at(guild_id, i as int);
                }
                Some(self.entries[i].session.channel_id)
            },
            None => {
                proof {
                    self.lemma_view_has(guild_id);
                }
                None
            },
        }
    }

    /// Whether a session is live for the guild.
    pub fn contains(&self, guild_id: u64) -> (r: bool)
        requires
            self.wf(),
        ensures
            r == self@.contains_key(guild_id),
    {
        match self.index_of(guild_id) {
            Some(i) => {
                proof {
                    self.lemma_view_at(guild_id, i as int);
                }
                true
            },
            None => {
                proof {
                    self.lemma_view_has(guild_id);
                }
                false
            },
        }
    }

    /// The text channel where the guild's session posts status messages,
    /// if one is live.
    pub fn notify_channel_of(&self, guild_id: u64) -> (r: Option<u64>)
        requires
            self.wf(),
        ensures
            r == if self@.contains_key(guild_id) {
                Some(self@[guild_id].notify_channel_id)
            } else {
                None::<u64>
            },
    {
        match self.index_of(guild_id) {
            Some(i) => {
                proof {
                    self.lemma_view_at(guild_id, i as int);
                }
                Some(self.entries[i].session.notify_channel_id)
            },
            None => {
                proof {
                    self.lemma_view_has(guild_id);
                }
                None
            },
        }
    }

    /// The length of the guild's queue, if a session is live.
    pub fn queue_len_of(&self, guild_id: u64) -> (r: Option<usize>)
        requires
            self.wf(),
        ensures
            r == if self@.contains_key(guild_id) {
                Some(self@[guild_id].queue.len() as usize)
            } else {
                None::<usize>
            },
    {
        match self.index_of(guild_id) {
            Some(i) => {
                proof {
                    self.lemma_view_at(guild_id, i as int);
                }
                Some(self.entries[i].session.queue.len())
            },
            None => {
                proof {
                    self.lemma_view_has(guild_id);
                }
                None
            },
        }
    }

    /// The source at the given queue position of the guild's session:
    /// position zero is the front, the next source to play.
    pub fn source_at(&self, guild_id: u64, position: usize) -> (r: Option<&String>)
        requires
            self.wf(),
        ensures
            match r {
                Some(s) => self@.contains_key(guild_id) && position
                    < self@[guild_id].queue.len() && s@ == self@[guild_id].queue[position as int],
                None => !self@.contains_key(guild_id) || position >= self@[guild_id].queue.len(),
            },
    {
        match self.index_of(guild_id) {
            Some(i) => {
                proof {
                    self.lemma_view_at(guild_id, i as int);
                }
                let queue = &self.entries[i].session.queue;
                if position < queue.len() {
                    Some(&queue[position])
                } else {
                    None
                }
            },
            None => {
                proof {
                    self.lemma_view_has(guild_id);
                }
                None
            },
        }
    }

    /// Removes and hands back the session registered for the guild, if any.
    pub(crate) fn take(&mut self, guild_id: u64) -> (r: Option<VoiceSession>)
        requires
            old(self).wf(),
        ensures
            final(self).wf(),
            match r {
                Some(s) => old(self)@.contains_key(guild_id) && s@ == old(self)@[guild_id]
                    && final(self)@ == old(self)@.remove(guild_id),
                None => !old(self)@.contains_key(guild_id) && *final(self) == *old(self),
            },
    {
        match self.index_of(guild_id) {
            Some(i) => {
                proof {
                    self.lemma_view_at(guild_id, i as int);
                }
                let e = self.entries.remove(i);
                proof {
                    lemma_entry_removed(*old(self), *self, guild_id, i as int);
                }
                Some(e.session)
            },
            None => {
                proof {
                    self.lemma_view_has(guild_id);
                }
                None
            },
        }
    }

    /// Registers a session for a guild that has none.
    pub(crate) fn put(&mut self, guild_id: u64, session: VoiceSession)
        requires
            old(self).wf(),
            !old(self)@.contains_key(guild_id),
        ensures
            final(self).wf(),
            final(self)@ == old(self)@.insert(guild_id, session@),
    {
        proof {
            self.lemma_view_has(guild_id);
        }
        let ghost sm = session@;
        self.entries.push(Entry { guild_id, session });
        proof {
            lemma_entry_pushed(*old(self), *self, guild_id, sm);
        }
    }
}

proof fn lemma_entry_removed(pre: SessionRegistry, post: SessionRegistry, guild_id: u64, i: int)
    requires
        pre.wf(),
        0 <= i < pre.entries@.len(),
        pre.entries@[i].guild_id == guild_id,
        post.entries@ == pre.entries@.remove(i),
    ensures
        post.wf(),
        post@ == pre@.remove(guild_id),
{
    let n = pre.entries@.len() as int;
    assert(post.entries@.len() == n - 1);
    assert(forall|p: int| 0 <= p < i ==> post.entries@[p] == pre.entries@[p]);
    assert(forall|p: int| i <= p < n - 1 ==> post.entries@[p] == pre.entries@[p + 1]);
    assert(post.wf());
    assert_maps_equal!(post@, pre@.remove(guild_id), k => {
        if post.has_key(k) {
            let p = choose|p: int|
                0 <= p < post.entries@.len() && post.entries@[p].guild_id == k;
            if p < i {
                pre.lemma_view_at(k, p);
            } else {
                pre.lemma_view_at(k, p + 1);
            }
            assert(k != guild_id);
            post.lemma_view_at(k, p);
        }
        if k != guild_id && pre.has_key(k) {
            let q = choose|q: int|
                0 <= q < pre.entries@.len() && pre.entries@[q].guild_id == k;
            assert(q != i);
            if q < i {
                post.lemma_view_at(k, q);
            } else {
                post.lemma_view_at(k, q - 1);
            }
            pre.lemma_view_at(k, q);
        }
    });
}

proof fn lemma_entry_pushed(
    pre: SessionRegistry,
    post: SessionRegistry,
    guild_id: u64,
    sm: SessionModel,
)
    requires
        pre.wf(),
        !pre.has_key(guild_id),
        post.entries@.len() == pre.entries@.len() + 1,
        forall|p: int| 0 <= p < pre.entries@.len() ==> post.entries@[p] == pre.entries@[p],
        post.entries@.last().guild_id == guild_id,
        post.entries@.last().session@ == sm,
    ensures
        post.wf(),
        post@ == pre@.insert(guild_id, sm),
{
    let n = pre.entries@.len() as int;
    assert(forall|p: int| 0 <= p < n ==> post.entries@[p].guild_id != guild_id);
    assert(post.wf());
    assert_maps_equal!(post@, pre@.insert(guild_id, sm), k => {
        if k == guild_id {
            post.lemma_view_at(k, n);
        } else {
            if post.has_key(k) {
                let p = choose|p: int|
                    0 <= p < post.entries@.len() && post.entries@[p].guild_id == k;
                assert(p < n);
                pre.lemma_view_at(k, p);
                post.lemma_view_at(k, p);
            }
            if pre.has_key(k) {
                let q = choose|q: int|
                    0 <= q < pre.entries@.len() && pre.entries@[q].guild_id == k;
                pre.lemma_view_at(k, q);
                post.lemma_view_at(k, q);
            }
        }
    });
}

} // verus!
