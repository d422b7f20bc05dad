//! Bounded multi-consumer notification topics with a drop-oldest overflow
//! policy.
//!
//! A topic keeps a backlog of at most `capacity` messages. Publishing never
//! waits for any subscriber: when the backlog is full, the oldest message is
//! dropped. Each subscriber owns an independent read cursor; one that fell
//! behind the backlog is told how many messages it missed (a gap indicator)
//! instead of silently skipping them. Within one topic, publish order equals
//! delivery order for a subscriber that keeps up; between topics no ordering
//! relationship exists.

use vstd::prelude::*;

use crate::block_processor::BlockProcessorResult;
use crate::block_store::Slot;

verus! {

/// The backlog depth used when no other is configured.
pub const DEFAULT_FANOUT_CAPACITY: usize = 10;

/// Outcome of one poll of a subscription.
#[derive(Clone, Copy, Debug, PartialEq, Eq, Structural)]
pub enum RecvOutcome {
    /// The next message is ready, at this position of the topic's current
    /// backlog.
    Message { index: usize },
    /// The subscriber fell behind and this many messages were dropped
    /// before it could read them; its cursor now points at the oldest
    /// message still held.
    Lagged { missed: u64 },
    /// Nothing new has been published.
    Empty,
}

/// One bounded multi-consumer topic.
pub struct Topic<T> {
    buffer: Vec<T>,
    next_seq: u64,
    capacity: usize,
}

/// An independent read cursor into one topic.
pub struct Subscriber {
    cursor: u64,
}

impl<T> Topic<T> {
    /// The messages currently held, oldest first.
    pub closed spec fn backlog(self) -> Seq<T> {
        self.buffer@
    }

    /// How many messages were ever published to this topic.
    pub closed spec fn published(self) -> u64 {
        self.next_seq
    }

    /// The configured backlog bound.
    pub closed spec fn capacity_spec(self) -> usize {
        self.capacity
    }

    /// The sequence number of the oldest message still held.
    pub open spec fn first_seq(self) -> int {
        self.published() - self.backlog().len()
    }

    pub open spec fn wf(self) -> bool {
        &&& self.capacity_spec() >= 1
    &&& self.backlog().len() <= self.capacity_spec()
    &&& self.backlog().len() <= self.published()
    }

    pub fn new(capacity: usize) -> (t: Self)
        requires
            capacity >= 1,
        ensures
            t.wf(),
            t.capacity_spec() == capacity,
            t.published() == 0,
            t.backlog().len() == 0,
    {
        Topic { buffer: Vec::new(), next_seq: 0, capacity }
    }

    /// Publishes one message. This never waits for a subscriber: a full
    /// backlog drops its oldest message instead.
    pub fn publish(&mut self, message: T)
        requires
            old(self).wf(),
            old(self).published() < u64::MAX,
        ensures
            final(self).wf(),
            final(self).capacity_spec() == old(self).capacity_spec(),
            final(self).published() == old(self).published() + 1,
            final(self).backlog() == if old(self).backlog().len() < old(self).capacity_spec() {
                old(self).backlog().push(message)
            } else {
                old(self).backlog().drop_first().push(message)
            },
    {
        if self.buffer.len() == self.capacity {
            let ghost pre = self.buffer@;
            self.buffer.remove(0);
            proof {
                assert(self.buffer@ =~= pre.drop_first());
            }
        }
        self.buffer.push(message);
        self.next_seq = self.next_seq + 1;
    }

    /// Reads one message of the current backlog.
    pub fn get(&self, index: usize) -> (m: &T)
        requires
            index < self.backlog().len(),
        ensures
            *m == self.backlog()[index as int],
    {
        &self.buffer[index]
    }

    /// How many messages the current backlog holds.
    pub fn backlog_len(&self) -> (n: usize)
        ensures
            n == self.backlog().len(),
    {
        self.buffer.len()
    }

    /// How many messages were ever published, for callers that must stay
    /// below the sequence bound.
    pub fn published_count(&self) -> (n: u64)
        ensures
            n == self.published(),
    {
        self.next_seq
    }

    /// A new subscription. It sees only messages published after this call.
    pub fn subscribe(&self) -> (s: Subscriber)
        ensures
            s.cursor_spec() == self.published(),
    {
        Subscriber { cursor: self.next_seq }
    }
}

/// Everything one poll of a subscription does to the cursor, and what it
/// answers: nothing new, the next message's backlog position, or — after
/// the topic dropped messages the subscriber had not read — a gap of
/// exactly the missed count, with the cursor moved to the oldest message
/// still held.
pub open spec fn recv_transition<T>(
    topic: Topic<T>,
    pre: Subscriber,
    post: Subscriber,
    r: RecvOutcome,
) -> bool {
    match r {
        RecvOutcome::Empty => {
            &&& pre.cursor_spec() == topic.published()
            &&& post == pre
        },
        RecvOutcome::Lagged { missed } => {
            &&& pre.cursor_spec() < topic.first_seq()
            &&& missed == topic.first_seq() - pre.cursor_spec()
            &&& post.cursor_spec() == topic.first_seq()
        },
        RecvOutcome::Message { index } => {
            &&& topic.first_seq() <= pre.cursor_spec() < topic.published()
            &&& index == pre.cursor_spec() - topic.first_seq()
            &&& index < topic.backlog().len()
            &&& post.cursor_spec() == pre.cursor_spec() + 1
        },
    }
}

impl Subscriber {
    /// The sequence number of the next message this subscriber reads.
    pub closed spec fn cursor_spec(self) -> u64 {
        self.cursor
    }

    /// The sequence number of the next message this subscriber reads.
    pub fn cursor(&self) -> (c: u64)
        ensures
            c == self.cursor_spec(),
    {
        self.cursor
    }

    /// Polls the topic once.
    pub fn recv<T>(&mut self, topic: &Topic<T>) -> (r: RecvOutcome)
        requires
            topic.wf(),
            old(self).cursor_spec() <= topic.published(),
        ensures
            final(self).cursor_spec() <= topic.published(),
            recv_transition(*topic, *old(self), *final(self), r),
    {
        let held = topic.buffer.len() as u64;
        let first = topic.next_seq - held;
        if self.cursor < first {
            let missed = first - self.cursor;
            self.cursor = first;
            RecvOutcome::Lagged { missed }
        } else if self.cursor == topic.next_seq {
            RecvOutcome::Empty
        } else {
            let index = (self.cursor - first) as usize;
            self.cursor = self.cursor + 1;
            RecvOutcome::Message { index }
        }
    }
}

/// Law: a subscriber that fell behind the backlog observes the gap — the
/// exact number of messages it missed — rather than reading stale data or
/// blocking anything; its next reads resume at the oldest message still
/// held.
pub proof fn lemma_gap_is_observed<T>(
    topic: Topic<T>,
    pre: Subscriber,
    post: Subscriber,
    r: RecvOutcome,
)
    requires
        topic.wf(),
        recv_transition(topic, pre, post, r),
        pre.cursor_spec() < topic.first_seq(),
    ensures
        match r {
            RecvOutcome::Lagged { missed } => missed == topic.first_seq() - pre.cursor_spec(),
            _ => false,
        },
        post.cursor_spec() == topic.first_seq(),
{
}

/// Law: within one topic, publish order equals delivery order — two
/// consecutive successful reads against an unchanged topic deliver
/// adjacent backlog positions.
pub proof fn lemma_in_order_delivery<T>(
    topic: Topic<T>,
    s0: Subscriber,
    s1: Subscriber,
    s2: Subscriber,
    i1: usize,
    i2: usize,
)
    requires
        topic.wf(),
        recv_transition(topic, s0, s1, RecvOutcome::Message { index: i1 }),
        recv_transition(topic, s1, s2, RecvOutcome::Message { index: i2 }),
    ensures
        i2 == i1 + 1,
{
}

/// The subscription surface of the pipeline: four independent bounded
/// topics. No ordering relationship exists between them, nor between a
/// topic's messages and the block store's current state.
pub struct NotificationFanout {
    pub slot: Topic<Slot>,
    pub block: Topic<BlockProcessorResult>,
    pub cluster_topology: Topic<String>,
    pub validator_set: Topic<String>,
}

impl NotificationFanout {
    pub open spec fn wf(self) -> bool {
        &&& self.slot.wf()
    &&& self.block.wf()
    &&& self.cluster_topology.wf()
    &&& self.validator_set.wf()
    }

    /// Four fresh topics sharing one backlog bound.
    pub fn new(capacity: usize) -> (f: Self)
        requires
            capacity >= 1,
        ensures
            f.wf(),
            f.slot.capacity_spec() == capacity,
            f.block.capacity_spec() == capacity,
            f.cluster_topology.capacity_spec() == capacity,
            f.validator_set.capacity_spec() == capacity,
            f.slot.published() == 0,
            f.block.published() == 0,
            f.cluster_topology.published() == 0,
            f.validator_set.published() == 0,
    {
        NotificationFanout {
            slot: Topic::new(capacity),
            block: Topic::new(capacity),
            cluster_topology: Topic::new(capacity),
            validator_set: Topic::new(capacity),
        }
    }
}

} // verus!
