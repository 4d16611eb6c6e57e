//! Broadcast hub: a generic multi-subscriber publish/subscribe topic with a
//! bounded, lossy window per subscriber.
//!
//! Publishing always succeeds and never blocks, whatever the consumers do;
//! a subscriber that falls more than `capacity` messages behind loses the
//! oldest unread ones and resumes from the newest available.  A fresh
//! subscription observes only messages published after it: there is no
//! replay and no history.

use vstd::prelude::*;
use vstd::pervasive::VecAdditionalExecFns;

verus! {

/// Mathematical state of one topic: every message ever published, and for
/// each subscriber the log position of the next message it would read if
/// nothing had overflowed its window.
#[verifier::ext_equal]
pub ghost struct HubModel<T> {
    pub log: Seq<T>,
    pub cursors: Seq<nat>,
    pub capacity: nat,
}

impl<T> HubModel<T> {
    /// Validity: the window is at least one message wide and no cursor
    /// points past the end of the log.
    pub open spec fn wf(self) -> bool {
        &&& self.capacity >= 1
        &&& forall|i: int|
            0 <= i < self.cursors.len() ==> self.cursors[i] <= self.log.len()
    }

    /// Log position of the next message subscriber `id` will receive: its
    /// cursor, pushed forward past messages that overflowed its window.
    pub open spec fn next_index(self, id: int) -> int {
        if self.cursors[id] >= self.log.len() - self.capacity {
            self.cursors[id] as int
        } else {
            self.log.len() - self.capacity
        }
    }

    /// Whether subscriber `id` has a message waiting.
    pub open spec fn has_pending(self, id: int) -> bool {
        self.next_index(id) < self.log.len()
    }

    /// Publishing appends to the log and touches no subscriber.
    pub open spec fn publish_m(self, v: T) -> HubModel<T> {
        HubModel { log: self.log.push(v), cursors: self.cursors, capacity: self.capacity }
    }

    /// Subscribing adds a cursor at the current end of the log, so the new
    /// subscriber sees nothing already published.
    pub open spec fn subscribe_m(self) -> HubModel<T> {
        HubModel {
            log: self.log,
            cursors: self.cursors.push(self.log.len()),
            capacity: self.capacity,
        }
    }

    /// Receiving moves subscriber `id` past the message it was delivered,
    /// or changes nothing when it has caught up.
    pub open spec fn recv_m(self, id: int) -> HubModel<T> {
        if self.has_pending(id) {
            HubModel {
                log: self.log,
                cursors: self.cursors.update(id, (self.next_index(id) + 1) as nat),
                capacity: self.capacity,
            }
        } else {
            self
        }
    }
}

/// One broadcast topic.  Producers push values in; each subscriber holds an
/// independent cursor and reads at its own pace inside a bounded window.
pub struct Hub<T> {
    log: Vec<T>,
    cursors: Vec<usize>,
    capacity: usize,
}

impl<T> View for Hub<T> {
    type V = HubModel<T>;

    closed spec fn view(&self) -> HubModel<T> {
        HubModel {
            log: self.log@,
            cursors: self.cursors@.map_values(|c: usize| c as nat),
            capacity: self.capacity as nat,
        }
    }
}

impl<T> Hub<T> {
    /// A fresh topic with the given per-subscriber window, no messages and
    /// no subscribers.
    pub fn new(capacity: usize) -> (h: Self)
        requires
            capacity >= 1,
        ensures
            h@ == (HubModel::<T> {
                log: Seq::empty(),
                cursors: Seq::empty(),
                capacity: capacity as nat,
            }),
            h@.wf(),
    {
        let h = Hub { log: Vec::new(), cursors: Vec::new(), capacity };
        proof {
            assert(h@ =~= (HubModel::<T> {
                log: Seq::empty(),
                cursors: Seq::empty(),
                capacity: capacity as nat,
            }));
        }
        h
    }

    /// How many messages have been published on this topic so far.
    pub fn message_count(&self) -> (n: usize)
        ensures
            n == self@.log.len(),
    {
        self.log.len()
    }

    /// How many subscribers this topic has.
    pub fn subscriber_count(&self) -> (n: usize)
        ensures
            n == self@.cursors.len(),
    {
        self.cursors.len()
    }

    /// Publish a message.  This always succeeds and returns immediately,
    /// even with zero subscribers; no consumer can block the producer.
    pub fn publish(&mut self, v: T)
        ensures
            final(self)@ == old(self)@.publish_m(v),
            old(self)@.wf() ==> final(self)@.wf(),
    {
        self.log.push(v);
        proof {
            assert(self@ =~= old(self)@.publish_m(v));
        }
    }

    /// Open a fresh, independent cursor.  It observes only messages
    /// published after this call: no replay, no history.
    pub fn subscribe(&mut self) -> (id: usize)
        ensures
            final(self)@ == old(self)@.subscribe_m(),
            id == old(self)@.cursors.len(),
            final(self)@.cursors[id as int] == old(self)@.log.len(),
            old(self)@.wf() ==> final(self)@.wf(),
    {
        let id = self.cursors.len();
        let end = self.log.len();
        self.cursors.push(end);
        proof {
            assert(self@.cursors =~= old(self)@.cursors.push(end as nat));
            assert(self@ =~= old(self)@.subscribe_m());
        }
        id
    }

    /// How many unread messages subscriber `id` has irrecoverably lost to
    /// overflow of its window.  Informational only: the subscriber still
    /// resumes from the newest available message.
    pub fn lost(&self, id: usize) -> (n: usize)
        requires
            id < self@.cursors.len(),
        ensures
            n == self@.next_index(id as int) - self@.cursors[id as int],
    {
        let cur = self.cursors[id];
        let lowest = if self.log.len() > self.capacity {
            self.log.len() - self.capacity
        } else {
            0
        };
        if cur >= lowest {
            0
        } else {
            lowest - cur
        }
    }
}

impl<T: Clone> Hub<T> {
    /// Deliver the next message for subscriber `id`, or `None` when it has
    /// seen everything.  A subscriber that lagged past its window resumes
    /// from the oldest message still inside it.
    pub fn try_recv(&mut self, id: usize) -> (r: Option<T>)
        requires
            id < old(self)@.cursors.len(),
        ensures
            final(self)@ == old(self)@.recv_m(id as int),
            r.is_some() == old(self)@.has_pending(id as int),
            r.is_some() ==> cloned::<T>(
                old(self)@.log[old(self)@.next_index(id as int)],
                r.unwrap(),
            ),
            old(self)@.wf() ==> final(self)@.wf(),
    {
        let cur = self.cursors[id];
        let lowest = if self.log.len() > self.capacity {
            self.log.len() - self.capacity
        } else {
            0
        };
        let start = if cur >= lowest {
            cur
        } else {
            lowest
        };
        if start < self.log.len() {
            let m = self.log[start].clone();
            self.cursors.set(id, start + 1);
            proof {
                assert(self@.cursors =~= old(self)@.cursors.update(
                    id as int,
                    (start + 1) as nat,
                ));
                assert(self@ =~= old(self)@.recv_m(id as int));
            }
            Some(m)
        } else {
            proof {
                assert(self@ =~= old(self)@.recv_m(id as int));
            }
            None
        }
    }
}

/// One abstract operation on a topic, for stating laws over whole
/// operation sequences.
pub ghost enum HubOp<T> {
    Publish(T),
    Subscribe,
    Recv(int),
}

/// Effect of one operation on the model.  A receive naming an unknown
/// subscriber changes nothing.
pub open spec fn hub_step<T>(m: HubModel<T>, op: HubOp<T>) -> HubModel<T> {
    match op {
        HubOp::Publish(v) => m.publish_m(v),
        HubOp::Subscribe => m.subscribe_m(),
        HubOp::Recv(id) => if 0 <= id < m.cursors.len() {
            m.recv_m(id)
        } else {
            m
        },
    }
}

/// Effect of a sequence of operations, applied left to right.
pub open spec fn hub_run<T>(m: HubModel<T>, ops: Seq<HubOp<T>>) -> HubModel<T>
    decreases ops.len(),
{
    if ops.len() == 0 {
        m
    } else {
        hub_run(hub_step(m, ops[0]), ops.drop_first())
    }
}

/// No single operation shrinks the log, rewrites what was already
/// published, removes a subscriber, or moves a cursor backward; and every
/// operation preserves validity.
pub proof fn lemma_hub_step_monotone<T>(m: HubModel<T>, op: HubOp<T>)
    requires
        m.wf(),
    ensures
        ({
            let m2 = hub_step(m, op);
            &&& m2.wf()
            &&& m.log.len() <= m2.log.len()
            &&& forall|j: int| 0 <= j < m.log.len() ==> m2.log[j] == m.log[j]
            &&& m.cursors.len() <= m2.cursors.len()
            &&& forall|i: int| 0 <= i < m.cursors.len() ==> m.cursors[i] <= m2.cursors[i]
        }),
{
}

/// [`lemma_hub_step_monotone`], extended to any operation sequence.
pub proof fn lemma_hub_run_monotone<T>(m: HubModel<T>, ops: Seq<HubOp<T>>)
    requires
        m.wf(),
    ensures
        ({
            let m2 = hub_run(m, ops);
            &&& m2.wf()
            &&& m.log.len() <= m2.log.len()
            &&& forall|j: int| 0 <= j < m.log.len() ==> m2.log[j] == m.log[j]
            &&& m.cursors.len() <= m2.cursors.len()
            &&& forall|i: int| 0 <= i < m.cursors.len() ==> m.cursors[i] <= m2.cursors[i]
        }),
    decreases ops.len(),
{
    if ops.len() > 0 {
        lemma_hub_step_monotone(m, ops[0]);
        lemma_hub_run_monotone(hub_step(m, ops[0]), ops.drop_first());
    }
}

/// No replay: a subscriber that subscribes when the log already holds its
/// first messages is never delivered any of them.  Whatever operations
/// follow the subscription, the next message it can be delivered sits at
/// or past the log position reached before it subscribed, and the entries
/// below that position still are the messages published before it.
pub proof fn lemma_no_replay<T>(m: HubModel<T>, ops: Seq<HubOp<T>>)
    requires
        m.wf(),
    ensures
        ({
            let id = m.cursors.len() as int;
            let m2 = hub_run(m.subscribe_m(), ops);
            &&& m2.wf()
            &&& m2.next_index(id) >= m.log.len()
            &&& forall|j: int| 0 <= j < m.log.len() ==> m2.log[j] == m.log[j]
        }),
{
    let m1 = m.subscribe_m();
    lemma_hub_run_monotone(m1, ops);
}

} // verus!
