//! The event channel's routing rule: classified events are demultiplexed
//! by session id. An event stamped with an attached session's id goes to
//! that session's queue and nowhere else; a session-less event goes to the
//! connection-level queue only; an event for an unknown session is
//! dropped.
//!
//! The queues are lossless and unbounded: routing never blocks and never
//! drops a routable event, but a queue grows without bound under a
//! consumer that never takes. Callers that poll slowly should drain
//! regularly.

use vstd::prelude::*;

use crate::text::str_eq;

verus! {

/// One classified event, as the router carries it.
pub struct CdpEvent {
    /// The protocol method name.
    pub method: String,
    /// The event payload.
    pub params: serde_json::Value,
    /// The session the event belongs to, when it belongs to one.
    pub session_id: Option<String>,
}

/// Per-session event queues plus the connection-level queue.
pub struct EventRouter {
    session_ids: Vec<String>,
    queues: Vec<Vec<CdpEvent>>,
    connection_queue: Vec<CdpEvent>,
}

impl EventRouter {
    /// The attached session ids, in attach order.
    pub closed spec fn spec_sessions(&self) -> Seq<Seq<char>> {
        Seq::new(self.session_ids@.len(), |i: int| self.session_ids@[i]@)
    }

    /// The queued events of the session at `i`.
    pub closed spec fn spec_queue(&self, i: int) -> Seq<CdpEvent> {
        self.queues@[i]@
    }

    /// The connection-level queue of session-less events.
    pub closed spec fn spec_connection_queue(&self) -> Seq<CdpEvent> {
        self.connection_queue@
    }

    /// One queue per session, and no session id attached twice.
    pub closed spec fn wf(&self) -> bool {
        &&& self.session_ids@.len() == self.queues@.len()
        &&& forall|i: int, j: int|
            0 <= i < j < self.session_ids@.len() ==> self.session_ids@[i]@ != self.session_ids@[j]@
    }

    /// A router with no sessions and nothing queued.
    pub fn new() -> (r: EventRouter)
        ensures
            r.wf(),
            r.spec_sessions().len() == 0,
            r.spec_connection_queue().len() == 0,
    {
        EventRouter { session_ids: Vec::new(), queues: Vec::new(), connection_queue: Vec::new() }
    }

    /// The index of an attached session id.
    pub fn find_session(&self, session_id: &str) -> (r: Option<usize>)
        requires
            self.wf(),
        ensures
            match r {
                Some(i) => i < self.spec_sessions().len() && self.spec_sessions()[i as int]
                    == session_id@,
                None => forall|i: int|
                    0 <= i < self.spec_sessions().len() ==> self.spec_sessions()[i] != session_id@,
            },
    {
        let n = self.session_ids.len();
        let mut i: usize = 0;
        while i < n
            invariant
                n == self.session_ids@.len(),
                i <= n,
                forall|k: int| 0 <= k < i ==> self.session_ids@[k]@ != session_id@,
            decreases n - i,
        {
            if str_eq(self.session_ids[i].as_str(), session_id) {
                return Some(i);
            }
            i += 1;
        }
        None
    }

    /// Attach a session: it gets an empty queue of its own. Attaching an
    /// id twice is refused by the precondition; the browser never issues
    /// the same session id twice.
    pub fn attach(&mut self, session_id: &str)
        requires
            old(self).wf(),
            forall|i: int|
                0 <= i < old(self).spec_sessions().len() ==> old(self).spec_sessions()[i]
                    != session_id@,
        ensures
            final(self).wf(),
            final(self).spec_sessions() == old(self).spec_sessions().push(session_id@),
            forall|i: int|
                0 <= i < old(self).spec_sessions().len() ==> final(self).spec_queue(i) == old(
                    self,
                ).spec_queue(i),
            final(self).spec_queue(old(self).spec_sessions().len() as int) == Seq::<
                CdpEvent,
            >::empty(),
            final(self).spec_connection_queue() == old(self).spec_connection_queue(),
    {
        self.session_ids.push(session_id.to_owned());
        self.queues.push(Vec::new());
        proof {
            assert(self.spec_sessions() =~= old(self).spec_sessions().push(session_id@));
            let n = old(self).session_ids@.len() as int;
            assert forall|i: int, j: int|
                0 <= i < j < self.session_ids@.len() implies self.session_ids@[i]@
                != self.session_ids@[j]@ by {
                if j == n {
                    assert(old(self).spec_sessions()[i] == self.session_ids@[i]@);
                    assert(self.session_ids@[j]@ == session_id@);
                } else {
                    assert(old(self).session_ids@[i]@ != old(self).session_ids@[j]@);
                }
            }
        }
    }

    /// Route one event. A session-less event goes only to the connection
    /// queue. An event stamped with an attached session's id goes only to
    /// that session's queue. An event for an unknown session goes
    /// nowhere.
    pub fn route(&mut self, event: CdpEvent)
        requires
            old(self).wf(),
        ensures
            final(self).wf(),
            final(self).spec_sessions() == old(self).spec_sessions(),
            event.session_id is None ==> {
                &&& final(self).spec_connection_queue() == old(self).spec_connection_queue().push(
                    event,
                )
                &&& forall|i: int|
                    0 <= i < old(self).spec_sessions().len() ==> final(self).spec_queue(i) == old(
                        self,
                    ).spec_queue(i)
            },
            event.session_id matches Some(sid) ==> ({
                &&& final(self).spec_connection_queue() == old(self).spec_connection_queue()
                &&& forall|i: int|
                    0 <= i < old(self).spec_sessions().len() ==> #[trigger] final(self).spec_queue(
                        i,
                    ) == (if old(self).spec_sessions()[i] == sid@ {
                        old(self).spec_queue(i).push(event)
                    } else {
                        old(self).spec_queue(i)
                    })
            }),
    {
        let index: Option<usize> = match &event.session_id {
            Option::None => None,
            Option::Some(sid) => self.find_session(sid.as_str()),
        };
        match &event.session_id {
            Option::None => {
                self.connection_queue.push(event);
            },
            Option::Some(_) => {
                match index {
                    Some(i) => {
                        let mut queue = self.queues.remove(i);
                        queue.push(event);
                        self.queues.insert(i, queue);
                        assert(self.queues@ =~= old(self).queues@.update(
                            i as int,
                            self.queues@[i as int],
                        ));
                    },
                    None => {
                        // Unknown session: the event is dropped.
                    },
                }
            },
        }
    }

    /// Take every queued event of one session, oldest first, leaving its
    /// queue empty. `None` when the session id is not attached.
    pub fn take_session_events(&mut self, session_id: &str) -> (r: Option<Vec<CdpEvent>>)
        requires
            old(self).wf(),
        ensures
            final(self).wf(),
            final(self).spec_sessions() == old(self).spec_sessions(),
            final(self).spec_connection_queue() == old(self).spec_connection_queue(),
            match r {
                Some(events) => exists|i: int|
                    {
                        &&& 0 <= i < old(self).spec_sessions().len()
                        &&& #[trigger] old(self).spec_sessions()[i] == session_id@
                        &&& events@ == old(self).spec_queue(i)
                        &&& final(self).spec_queue(i) == Seq::<CdpEvent>::empty()
                        &&& forall|j: int|
                            0 <= j < old(self).spec_sessions().len() && j != i
                                ==> final(self).spec_queue(j) == old(self).spec_queue(j)
                    },
                None => forall|i: int|
                    0 <= i < old(self).spec_sessions().len() ==> old(self).spec_sessions()[i]
                        != session_id@,
            },
    {
        match self.find_session(session_id) {
            Some(i) => {
                let taken = self.queues.remove(i);
                self.queues.insert(i, Vec::new());
                assert(self.queues@ =~= old(self).queues@.update(i as int, self.queues@[i as int]));
                Some(taken)
            },
            None => None,
        }
    }

    /// Take every queued session-less event, oldest first.
    pub fn take_connection_events(&mut self) -> (r: Vec<CdpEvent>)
        requires
            old(self).wf(),
        ensures
            final(self).wf(),
            final(self).spec_sessions() == old(self).spec_sessions(),
            r@ == old(self).spec_connection_queue(),
            final(self).spec_connection_queue() == Seq::<CdpEvent>::empty(),
            forall|i: int|
                0 <= i < old(self).spec_sessions().len() ==> final(self).spec_queue(i) == old(
                    self,
                ).spec_queue(i),
    {
        let mut taken: Vec<CdpEvent> = Vec::new();
        std::mem::swap(&mut taken, &mut self.connection_queue);
        taken
    }
}

} // verus!
