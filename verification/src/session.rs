//! Stream session: the per-client adapter over one broadcast topic.
//!
//! A session wraps one subscription and turns the topic into a lazy event
//! sequence: each poll yields the next message, or an idle marker the
//! transport may answer with a keepalive.  Dropping a session cancels it
//! locally; the hub and every other session are unaffected, and a client
//! that reconnects starts a new cursor with no backlog.

use vstd::prelude::*;
use crate::hub::Hub;

verus! {

/// One step of a session's event sequence.
pub enum SessionEvent<T> {
    /// The next message of the topic.
    Message(T),
    /// Nothing pending; the transport may send a keepalive and poll again.
    Idle,
}

/// A live subscription of one client to one topic.  Use it only with the
/// hub it was opened on.
pub struct StreamSession {
    pub id: usize,
}

impl StreamSession {
    /// Subscribe to a topic.  The session observes only messages published
    /// after this call.
    pub fn open<T>(hub: &mut Hub<T>) -> (s: StreamSession)
        ensures
            final(hub)@ == old(hub)@.subscribe_m(),
            s.id == old(hub)@.cursors.len(),
            final(hub)@.cursors[s.id as int] == old(hub)@.log.len(),
            old(hub)@.wf() ==> final(hub)@.wf(),
    {
        StreamSession { id: hub.subscribe() }
    }

    /// The next event of the session: the topic's next message for this
    /// subscriber, or idle when it has seen everything so far.
    pub fn poll<T: Clone>(&self, hub: &mut Hub<T>) -> (e: SessionEvent<T>)
        requires
            self.id < old(hub)@.cursors.len(),
        ensures
            final(hub)@ == old(hub)@.recv_m(self.id as int),
            old(hub)@.wf() ==> final(hub)@.wf(),
            match e {
                SessionEvent::Message(m) => old(hub)@.has_pending(self.id as int)
                    && cloned::<T>(
                    old(hub)@.log[old(hub)@.next_index(self.id as int)],
                    m,
                ),
                SessionEvent::Idle => !old(hub)@.has_pending(self.id as int),
            },
    {
        match hub.try_recv(self.id) {
            Some(m) => SessionEvent::Message(m),
            None => SessionEvent::Idle,
        }
    }
}

} // verus!
