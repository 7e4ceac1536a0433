use vstd::prelude::*;
use std::collections::VecDeque;

verus! {

/// What the member chunker hears about: a guild whose members are wanted,
/// or one chunk of members that arrived for a guild.
#[derive(Clone, Copy, Debug, PartialEq, Eq, Structural)]
pub enum ChunkerMessage {
    Guild(u64),
    GuildChunk { guild_id: u64, chunk_count: u32, chunk_index: u32 },
}

/// The decisions of the member chunker: one guild is chunked at a time;
/// guilds asked for meanwhile wait in a queue, once each, and the next one
/// starts when the current guild's last chunk has arrived.
#[derive(Debug)]
pub struct ChunkQueue {
    count: u32,
    current: Option<u64>,
    queue: VecDeque<u64>,
}

pub ghost struct ChunkQueueModel {
    /// Chunks received for the current guild.
    pub count: u32,
    /// The guild being chunked.
    pub current: Option<u64>,
    /// The guilds waiting, oldest first.
    pub queue: Seq<u64>,
}

impl View for ChunkQueue {
    type V = ChunkQueueModel;

    closed spec fn view(&self) -> ChunkQueueModel {
        ChunkQueueModel { count: self.count, current: self.current, queue: self.queue@ }
    }
}

/// The guild being chunked after `m` is received in state `s`.
pub open spec fn chunk_target(s: ChunkQueueModel, m: ChunkerMessage) -> Option<u64> {
    match m {
        ChunkerMessage::Guild(g) => if s.current is Some {
            s.current
        } else {
            Some(g)
        },
        ChunkerMessage::GuildChunk { chunk_count, .. } => if chunk_count as int == (s.count as int
            + 1) % 0x1_0000_0000 {
            if s.queue.len() > 0 {
                Some(s.queue[0])
            } else {
                None
            }
        } else {
            s.current
        },
    }
}

/// The state after `m` is received in state `s`.
pub open spec fn chunk_step(s: ChunkQueueModel, m: ChunkerMessage) -> ChunkQueueModel {
    match m {
        ChunkerMessage::Guild(g) => ChunkQueueModel {
            current: chunk_target(s, m),
            queue: if s.current is Some && !s.queue.contains(g) {
                s.queue.push(g)
            } else {
                s.queue
            },
            ..s
        },
        ChunkerMessage::GuildChunk { chunk_count, .. } => {
            let next = ((s.count as int + 1) % 0x1_0000_0000) as u32;
            if chunk_count == next {
                ChunkQueueModel {
                    count: 0,
                    current: chunk_target(s, m),
                    queue: if s.queue.len() > 0 {
                        s.queue.drop_first()
                    } else {
                        s.queue
                    },
                }
            } else {
                ChunkQueueModel { count: next, current: chunk_target(s, m), queue: s.queue }
            }
        },
    }
}

impl ChunkQueue {
    /// Well formed: no guild waits twice.
    pub open spec fn wf(&self) -> bool {
        self@.queue.no_duplicates()
    }

    /// An idle chunker with nothing queued.
    pub fn new() -> (r: ChunkQueue)
        ensures
            r@ == (ChunkQueueModel { count: 0, current: None, queue: Seq::empty() }),
            r.wf(),
    {
        ChunkQueue { count: 0, current: None, queue: VecDeque::new() }
    }

    fn queued(&self, guild_id: u64) -> (r: bool)
        ensures
            r == self@.queue.contains(guild_id),
    {
        let mut i: usize = 0;
        while i < self.queue.len()
            invariant
                i <= self.queue@.len(),
                forall|j: int| 0 <= j < i ==> self.queue@[j] != guild_id,
            decreases self.queue@.len() - i,
        {
            if self.queue[i] == guild_id {
                return true;
            }
            i += 1;
        }
        false
    }

    /// Takes in `message` and returns the guild whose members are to be
    /// requested now, if the guild being chunked changed to one.
    pub fn on_message(&mut self, message: ChunkerMessage) -> (r: Option<u64>)
        requires
            old(self).wf(),
        ensures
            final(self)@ == chunk_step(old(self)@, message),
            final(self).wf(),
            r == (if chunk_target(old(self)@, message) != old(self)@.current {
                chunk_target(old(self)@, message)
            } else {
                None
            }),
    {
        let before = self.current;
        let chunk = match message {
            ChunkerMessage::Guild(guild_id) => {
                if self.current.is_some() {
                    if !self.queued(guild_id) {
                        self.queue.push_back(guild_id);
                        proof {
                            assert forall|i: int, j: int|
                                0 <= i < j < self.queue@.len() implies self.queue@[i]
                                != self.queue@[j] by {
                                if j == self.queue@.len() - 1 {
                                    assert(old(self).queue@[i] == self.queue@[i]);
                                }
                            }
                        }
                    }
                    self.current
                } else {
                    Some(guild_id)
                }
            },
            ChunkerMessage::GuildChunk { chunk_count, .. } => {
                self.count = self.count.wrapping_add(1);
                if chunk_count == self.count {
                    self.count = 0;
                    let front = self.queue.pop_front();
                    proof {
                        assert forall|i: int, j: int|
                            0 <= i < j < self.queue@.len() implies self.queue@[i]
                            != self.queue@[j] by {
                            assert(self.queue@[i] == old(self).queue@[i + 1]);
                            assert(self.queue@[j] == old(self).queue@[j + 1]);
                        }
                    }
                    front
                } else {
                    self.current
                }
            },
        };
        self.current = chunk;
        proof {
            assert(self@.queue =~= chunk_step(old(self)@, message).queue);
        }
        if chunk != before {
            chunk
        } else {
            None
        }
    }
}

} // verus!
