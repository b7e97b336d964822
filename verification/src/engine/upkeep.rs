//! Driving the engine: one step per call.
use vstd::prelude::*;
use vstd::slice::slice_subrange;
use crate::application::Application;
use crate::comms::{spec_min, Comms, Datagram};
use crate::engine::{Engine, EngineEvent, Pending, MAX_RETRIES, RETRY_INTERVAL};
use crate::error::EngineError;
use crate::store::{peer_or_default, Peer, Store, SubscribeState};
use crate::wire::message::{KIND_SUBSCRIBE, KIND_UNSUBSCRIBE};

verus! {

/// The request `e` one call of `update` later.
pub open spec fn spec_older(e: Pending) -> Pending {
    Pending {
        age: if e.age == u16::MAX {
            e.age
        } else {
            (e.age + 1) as u16
        },
        ..e
    }
}

/// The requests of `list`, each one call of `update` later.
pub open spec fn spec_aged(list: Seq<Pending>) -> Seq<Pending> {
    list.map_values(|e: Pending| spec_older(e))
}

/// Whether the request `e` has waited long enough to be looked at.
pub open spec fn is_due(e: Pending) -> bool {
    e.age >= RETRY_INTERVAL
}

/// The first index from `from` on at which a request of `list` is due, or
/// the length of the list where none is.
pub open spec fn first_due(list: Seq<Pending>, from: int) -> int
    decreases list.len() - from,
{
    if from < 0 || from >= list.len() {
        list.len() as int
    } else if is_due(list[from]) {
        from
    } else {
        first_due(list, from + 1)
    }
}

/// The first due index is an index of the list or its length.
pub proof fn lemma_first_due_bounds(list: Seq<Pending>, from: int)
    requires
        0 <= from <= list.len(),
    ensures
        from <= first_due(list, from) <= list.len(),
        first_due(list, from) < list.len() ==> is_due(list[first_due(list, from)]),
    decreases list.len() - from,
{
    if from < list.len() && !is_due(list[from]) {
        lemma_first_due_bounds(list, from + 1);
    }
}

/// The requests of `list`, each one call of `update` later.
fn aged(list: &Vec<Pending>) -> (out: Vec<Pending>)
    ensures
        out@ == spec_aged(list@),
{
    let mut out: Vec<Pending> = Vec::new();
    let mut i: usize = 0;
    while i < list.len()
        invariant
            i <= list@.len(),
            out@.len() == i,
            forall|j: int| 0 <= j < i ==> out@[j] == spec_older(list@[j]),
        decreases list@.len() - i,
    {
        let e = list[i];
        let age = if e.age == u16::MAX {
            e.age
        } else {
            e.age + 1
        };
        out.push(Pending { peer: e.peer, req_id: e.req_id, age, attempts: e.attempts });
        i += 1;
    }
    assert(out@ =~= spec_aged(list@));
    out
}

/// The first index at which a request of `list` is due, or its length.
fn find_due(list: &Vec<Pending>) -> (i: usize)
    ensures
        i == first_due(list@, 0),
        i <= list@.len(),
{
    let mut i: usize = 0;
    while i < list.len()
        invariant
            i <= list@.len(),
            first_due(list@, 0) == first_due(list@, i as int),
        decreases list@.len() - i,
    {
        if list[i].age >= RETRY_INTERVAL {
            return i;
        }
        i += 1;
    }
    i
}

impl<A: Application, C: Comms, S: Store<Address = C::Address>> Engine<A, C, S> {
    /// Whether `after` differs from `self` in the waiting requests, the
    /// peers and what the transport has accepted at most.
    pub open spec fn same_but_requests(&self, after: &Self) -> bool {
        &&& after.same_config(self)
        &&& self.same_ends(after)
        &&& after.req_id == self.req_id
        &&& after.discovery == self.discovery
        &&& after.store.ident() == self.store.ident()
        &&& after.store.last() == self.store.last()
        &&& after.store.pages() == self.store.pages()
    }

    /// What one call of `update` does.
    ///
    /// Every waiting request grows older by one call. The first that is due
    /// is looked at, and only that one. Where its peer no longer waits for
    /// it, it is forgotten. Where it has been sent [`MAX_RETRIES`] times
    /// again, or its peer has no address, it is given up: the peer falls
    /// back to idle, the request is forgotten and the timeout reported.
    /// Else it is sent again and its age starts anew. A failure of the store
    /// leaves everything as it was, the ages too.
    pub open spec fn updated(
        &self,
        after: &Self,
        r: Result<EngineEvent, EngineError<C::Error, S::Error>>,
    ) -> bool {
        let list = spec_aged(self.pending@);
        let i = first_due(list, 0);
        if i >= list.len() {
            &&& r matches Ok(EngineEvent::Nothing)
            &&& self.same_but_requests(after)
            &&& after.pending@ == list
            &&& after.store.peer_map() == self.store.peer_map()
            &&& after.comms.sent() == self.comms.sent()
        } else if r matches Err(EngineError::Store(_)) {
            !self.store.reliable() && after.same_state(self)
        } else {
            let e = list[i];
            let p = peer_or_default(self.store.peer_map(), e.peer);
            &&& self.same_but_requests(after)
            &&& if p.subscribed.spec_pending() != Some(e.req_id) {
                &&& r matches Ok(EngineEvent::Nothing)
                &&& after.pending@ == list.remove(i)
                &&& after.store.peer_map() == self.store.peer_map()
                &&& after.comms.sent() == self.comms.sent()
            } else if e.attempts >= MAX_RETRIES || p.addr is None {
                &&& r matches Ok(EngineEvent::Timeout(id)) && id == e.peer
                &&& after.pending@ == list.remove(i)
                &&& after.store.peer_map() == self.store.peer_map().insert(
                    e.peer,
                    Peer { subscribed: p.subscribed.spec_abandoned(e.req_id), ..p },
                )
                &&& after.comms.sent() == self.comms.sent()
            } else {
                &&& after.pending@ == list.update(
                    i,
                    Pending { age: 0, attempts: (e.attempts + 1) as u8, ..e },
                )
                &&& after.store.peer_map() == self.store.peer_map()
                &&& match r {
                    Ok(EngineEvent::Nothing) => after.comms.sent() == self.comms.sent().push(
                        Datagram {
                            to: p.addr,
                            data: self.message(
                                if p.subscribed is Subscribing {
                                    KIND_SUBSCRIBE
                                } else {
                                    KIND_UNSUBSCRIBE
                                },
                                e.req_id,
                                e.peer@,
                            ),
                        },
                    ),
                    Err(EngineError::Comms(_)) => !self.comms.reliable() && after.comms.sent()
                        == self.comms.sent(),
                    _ => false,
                }
            }
        }
    }

    /// Periodic maintenance; see [`Engine::updated`].
    pub fn update(&mut self) -> (r: Result<EngineEvent, EngineError<C::Error, S::Error>>)
        requires
            old(self).inv(),
        ensures
            final(self).inv(),
            old(self).updated(final(self), r),
    {
        let mut list = aged(&self.pending);
        let i = find_due(&list);
        if i >= list.len() {
            self.pending = list;
            return Ok(EngineEvent::Nothing);
        }
        proof {
            lemma_first_due_bounds(list@, 0);
        }
        let e = list[i];
        let peer = match self.store.get_peer(&e.peer) {
            Ok(p) => p,
            Err(err) => {
                return Err(EngineError::Store(err));
            },
        };
        let (state, addr) = match peer {
            Some(p) => (p.subscribed, p.addr),
            None => (SubscribeState::Idle, None),
        };
        let waiting = match state.pending() {
            Some(rid) => rid == e.req_id,
            None => false,
        };
        if !waiting {
            list.remove(i);
            self.pending = list;
            return Ok(EngineEvent::Nothing);
        }
        let to = match addr {
            Some(a) => {
                if e.attempts >= MAX_RETRIES {
                    None
                } else {
                    Some(a)
                }
            },
            None => None,
        };
        match to {
            None => {
                let next = state.abandoned(e.req_id);
                let record = |p: Peer<C::Address>| -> (o: (Peer<C::Address>, ()))
                    ensures
                        o.0 == (Peer { subscribed: next, ..p }),
                    {
                        (
                            Peer {
                                keys: p.keys,
                                addr: p.addr,
                                subscriber: p.subscriber,
                                subscribed: next,
                            },
                            (),
                        )
                    };
                match self.store.update_peer(&e.peer, record) {
                    Ok(()) => {},
                    Err(err) => {
                        return Err(EngineError::Store(err));
                    },
                }
                list.remove(i);
                self.pending = list;
                Ok(EngineEvent::Timeout(e.peer))
            },
            Some(a) => {
                let kind = match state {
                    SubscribeState::Subscribing(_) => KIND_SUBSCRIBE,
                    _ => KIND_UNSUBSCRIBE,
                };
                let body = e.peer.to_vec();
                let bytes = match self.build_message(kind, e.req_id, body.as_slice()) {
                    Some(b) => b,
                    None => Vec::new(),
                };
                list.set(
                    i,
                    Pending { peer: e.peer, req_id: e.req_id, age: 0, attempts: e.attempts + 1 },
                );
                self.pending = list;
                match self.comms.send(&a, bytes.as_slice()) {
                    Ok(()) => Ok(EngineEvent::Nothing),
                    Err(err) => Err(EngineError::Comms(err)),
                }
            },
        }
    }

    /// What `step` does with what a poll of the transport gave: `polled` is
    /// the poll's result and `buff` the buffer it was given.
    ///
    /// A poll that failed is reported with its error and changes nothing.
    /// With nothing pending the step is one `update`. With a datagram
    /// pending it is one `handle` on the bytes of `buff` up to the length
    /// reported, as coming from the sender reported; a length beyond the
    /// buffer is refused as unhandled and changes nothing.
    pub open spec fn step_outcome(
        &self,
        after: &Self,
        polled: Result<Option<(usize, C::Address)>, C::Error>,
        buff: Seq<u8>,
        r: Result<EngineEvent, EngineError<C::Error, S::Error>>,
    ) -> bool {
        match polled {
            Err(e) => (r matches Err(EngineError::Comms(x)) && x == e) && after.same_state(self),
            Ok(None) => self.updated(after, r),
            Ok(Some((n, from))) => if n > buff.len() {
                (r matches Err(EngineError::Unhandled)) && after.same_state(self)
            } else {
                self.handled(after, from, buff.subrange(0, n as int), r)
            },
        }
    }

    /// Acts on the result of one poll of the transport; see
    /// [`Engine::step_outcome`]. Where the poll failed, or reported more than
    /// the buffer holds, the engine is left exactly as it was.
    pub fn step(
        &mut self,
        polled: Result<Option<(usize, C::Address)>, C::Error>,
        buff: &[u8],
    ) -> (r: Result<EngineEvent, EngineError<C::Error, S::Error>>)
        requires
            old(self).inv(),
        ensures
            final(self).inv(),
            old(self).step_outcome(final(self), polled, buff@, r),
            polled is Err ==> *final(self) == *old(self),
            polled matches Ok(Some(got)) ==> got.0 > buff@.len() ==> *final(self) == *old(self),
    {
        match polled {
            Err(e) => Err(EngineError::Comms(e)),
            Ok(None) => self.update(),
            Ok(Some((n, from))) => {
                if n > buff.len() {
                    return Err(EngineError::Unhandled);
                }
                self.handle(from, slice_subrange(buff, 0, n))
            },
        }
    }

    /// What one poll of the transport does to the engine: `mid` is `self`
    /// after a poll with a buffer of `capacity` bytes gave `polled` and left
    /// the buffer as `buff`. The poll either fails, which a reliable
    /// transport does not, or finds nothing pending, or takes the oldest
    /// pending datagram, cut to the buffer; nothing else changes.
    pub open spec fn poll_gave(
        &self,
        mid: &Self,
        polled: Result<Option<(usize, C::Address)>, C::Error>,
        buff: Seq<u8>,
    ) -> bool {
        &&& mid.same_config(self)
        &&& mid.req_id == self.req_id
        &&& mid.discovery == self.discovery
        &&& mid.pending@ == self.pending@
        &&& mid.store == self.store
        &&& mid.comms.sent() == self.comms.sent()
        &&& mid.comms.reliable() == self.comms.reliable()
        &&& buff.len() == self.capacity
        &&& self.comms.reliable() ==> polled is Ok
        &&& match polled {
            Err(_) => mid.comms.pending() == self.comms.pending(),
            Ok(None) => self.comms.pending().len() == 0 && mid.comms.pending()
                == self.comms.pending(),
            Ok(Some((n, from))) => {
                &&& self.comms.pending().len() > 0
                &&& mid.comms.pending() == self.comms.pending().drop_first()
                &&& from == self.comms.pending()[0].from
                &&& n == spec_min(
                    self.comms.pending()[0].data.len() as int,
                    self.capacity as int,
                )
                &&& buff.subrange(0, n as int) == self.comms.pending()[0].data.subrange(
                    0,
                    n as int,
                )
            },
        }
    }

    /// One step of the engine: polls the transport once, with a buffer of
    /// `capacity` bytes, and acts on what the poll gave as `step` does: it
    /// handles the oldest pending datagram, cut to the buffer, or, where
    /// none is pending, does the periodic maintenance. Never waits.
    pub fn tick(&mut self) -> (r: Result<EngineEvent, EngineError<C::Error, S::Error>>)
        requires
            old(self).inv(),
        ensures
            final(self).inv(),
            exists|mid: Self, polled: Result<Option<(usize, C::Address)>, C::Error>, buff: Seq<u8>|
                #[trigger] old(self).poll_gave(&mid, polled, buff) && mid.step_outcome(
                    final(self),
                    polled,
                    buff,
                    r,
                ),
    {
        let mut buff: Vec<u8> = Vec::new();
        let mut i: usize = 0;
        while i < self.capacity
            invariant
                i <= self.capacity,
                buff@.len() == i,
                *self == *old(self),
            decreases self.capacity - i,
        {
            buff.push(0u8);
            i += 1;
        }
        let polled = self.comms.recv(buff.as_mut_slice());
        let ghost mid = *self;
        let ghost given = polled;
        let r = self.step(polled, buff.as_slice());
        proof {
            assert(old(self).poll_gave(&mid, given, buff@));
            assert(mid.step_outcome(self, given, buff@, r));
        }
        r
    }
}

} // verus!
