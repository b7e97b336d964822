//! What the engine does with a datagram that came in.
use vstd::prelude::*;
use crate::application::Application;
use crate::comms::{Comms, Datagram};
use crate::engine::{Engine, EngineEvent, Pending};
use crate::error::EngineError;
use crate::store::{peer_or_default, same_content, Peer, Store, SubscribeState};
use crate::types::{lemma_array32_ext, Id, Keys, PublicKey, RequestId};
use crate::wire::frame::{copy_range, inspect, key_view, parseable, spec_body, spec_frame, Frame, BODY_AT};
use crate::wire::message::{
    classify, spec_classify, spec_status_ok, spec_target, status_body,
    status_ok, target, Class, KIND_FOUND, KIND_STATUS,
};
use crate::wire::sign::{authentic, digest, hash, verify};

verus! {

/// The key to keep on record for the peer `id`: the one on record where
/// there is one, else the attached one where it hashes to `id`.
pub open spec fn spec_learn(known: Option<PublicKey>, attached: Option<PublicKey>, id: Id) -> Option<
    PublicKey,
> {
    match known {
        Some(_) => known,
        None => match attached {
            Some(k) => if digest(k@) == id@ {
                Some(k)
            } else {
                None
            },
            None => None,
        },
    }
}

/// The key to keep on record for the peer `id`.
pub fn learn(known: Option<PublicKey>, attached: Option<PublicKey>, id: &Id) -> (k: Option<PublicKey>)
    ensures
        k == spec_learn(known, attached, *id),
{
    match known {
        Some(_) => known,
        None => match attached {
            Some(k) => {
                let h = hash(&k.bytes);
                proof {
                    lemma_array32_ext(h, *id);
                }
                if h.same(id) {
                    Some(k)
                } else {
                    None
                }
            },
            None => None,
        },
    }
}

/// `list` without the requests to `peer` that carry the identifier `req_id`.
pub open spec fn spec_without(list: Seq<Pending>, peer: Id, req_id: RequestId) -> Seq<Pending>
    decreases list.len(),
{
    if list.len() == 0 {
        Seq::empty()
    } else {
        let rest = spec_without(list.drop_last(), peer, req_id);
        if list.last().peer == peer && list.last().req_id == req_id {
            rest
        } else {
            rest.push(list.last())
        }
    }
}

/// Taking requests out leaves no more than there were.
pub proof fn lemma_without_len(list: Seq<Pending>, peer: Id, req_id: RequestId)
    ensures
        spec_without(list, peer, req_id).len() <= list.len(),
    decreases list.len(),
{
    if list.len() > 0 {
        lemma_without_len(list.drop_last(), peer, req_id);
    }
}

/// `list` without the requests to `peer` that carry the identifier `req_id`.
pub fn without(list: &Vec<Pending>, peer: &Id, req_id: RequestId) -> (out: Vec<Pending>)
    ensures
        out@ == spec_without(list@, *peer, req_id),
        out@.len() <= list@.len(),
{
    let mut out: Vec<Pending> = Vec::new();
    let mut i: usize = 0;
    while i < list.len()
        invariant
            i <= list@.len(),
            out@ == spec_without(list@.subrange(0, i as int), *peer, req_id),
        decreases list@.len() - i,
    {
        assert(list@.subrange(0, i + 1).drop_last() =~= list@.subrange(0, i as int));
        let e = list[i];
        if !(e.peer.same(peer) && e.req_id == req_id) {
            out.push(e);
        }
        i += 1;
    }
    assert(list@.subrange(0, i as int) =~= list@);
    proof {
        lemma_without_len(list@, *peer, req_id);
    }
    out
}

impl<A: Application, C: Comms, S: Store<Address = C::Address>> Engine<A, C, S> {
    /// The public key on record for the peer `id`.
    pub open spec fn known_key(&self, id: Id) -> Option<PublicKey> {
        if self.store.peer_map().contains_key(id) {
            self.store.peer_map()[id].keys.pub_key
        } else {
            None
        }
    }

    /// Whether the engine takes the datagram `data` for a signed object of
    /// the origin it names: it is parseable and the signature holds.
    pub open spec fn accepts(&self, data: Seq<u8>) -> bool {
        parseable(data) && authentic(data, key_view(self.known_key(spec_frame(data).id)))
    }

    /// Whether `after` differs from `self` in what the transport has
    /// accepted at most.
    pub open spec fn same_but_sent(&self, after: &Self) -> bool {
        &&& after.same_config(self)
        &&& self.same_ends(after)
        &&& after.req_id == self.req_id
        &&& after.discovery == self.discovery
        &&& after.pending@ == self.pending@
        &&& same_content(&after.store, &self.store)
    }

    /// Whether `after` differs from `self` in the peers and in what the
    /// transport has accepted at most.
    pub open spec fn same_but_peers(&self, after: &Self) -> bool {
        &&& after.same_config(self)
        &&& self.same_ends(after)
        &&& after.req_id == self.req_id
        &&& after.discovery == self.discovery
        &&& after.pending@ == self.pending@
        &&& after.store.ident() == self.store.ident()
        &&& after.store.last() == self.store.last()
        &&& after.store.pages() == self.store.pages()
    }

    /// The peer `id` as it is on record, with what the object `f` from the
    /// address `from` tells of its key.
    pub open spec fn met(&self, f: Frame) -> Peer<C::Address> {
        let p = peer_or_default(self.store.peer_map(), f.id);
        Peer {
            keys: Keys { pub_key: spec_learn(p.keys.pub_key, f.public_key, f.id), ..p.keys },
            ..p
        }
    }

    /// Outcome of a failure of the store, which a reliable store does not
    /// have: it is reported and nothing has changed.
    pub open spec fn store_failed(
        &self,
        after: &Self,
        r: Result<EngineEvent, EngineError<C::Error, S::Error>>,
    ) -> bool {
        &&& r matches Err(EngineError::Store(_))
        &&& !self.store.reliable()
        &&& after.same_state(self)
    }

    /// Outcome of an object that is dropped: nothing changes and nothing is
    /// reported.
    pub open spec fn dropped(
        &self,
        after: &Self,
        r: Result<EngineEvent, EngineError<C::Error, S::Error>>,
    ) -> bool {
        after.same_state(self) && r matches Ok(EngineEvent::Nothing)
    }

    /// Outcome of a discovery request: where the application lets the local
    /// description answer the query, a response with that description goes
    /// to the sender; else the request is dropped. The store is not asked
    /// and the peers stay as they are.
    pub open spec fn discover_outcome(
        &self,
        after: &Self,
        from: C::Address,
        data: Seq<u8>,
        r: Result<EngineEvent, EngineError<C::Error, S::Error>>,
    ) -> bool {
        if A::spec_matches(self.info@, spec_body(data)) {
            &&& self.same_but_sent(after)
            &&& match r {
                Ok(EngineEvent::Nothing) => after.comms.sent() == self.comms.sent().push(
                    Datagram {
                        to: Some(from),
                        data: self.message(KIND_FOUND, spec_frame(data).index, self.info@),
                    },
                ),
                Err(EngineError::Comms(_)) => !self.comms.reliable() && after.comms.sent()
                    == self.comms.sent(),
                _ => false,
            }
        } else {
            self.dropped(after, r)
        }
    }

    /// Outcome of a discovery response: one that does not answer the
    /// discovery request that is open is dropped. Else the store is asked
    /// for the sender, the sender is reported, and is recorded with its key
    /// and address unless it is known already.
    pub open spec fn found_outcome(
        &self,
        after: &Self,
        from: C::Address,
        data: Seq<u8>,
        r: Result<EngineEvent, EngineError<C::Error, S::Error>>,
    ) -> bool {
        let f = spec_frame(data);
        if self.discovery == Some(f.index) {
            ||| self.store_failed(after, r)
            ||| {
                &&& r matches Ok(EngineEvent::Discover(id)) && id == f.id
                &&& self.same_but_peers(after)
                &&& after.comms.sent() == self.comms.sent()
                &&& after.store.peer_map() == if self.store.peer_map().contains_key(f.id) {
                    self.store.peer_map()
                } else {
                    self.store.peer_map().insert(f.id, Peer { addr: Some(from), ..self.met(f) })
                }
            }
        } else {
            self.dropped(after, r)
        }
    }

    /// Outcome of a subscribe request: one for another service is dropped.
    /// Else the sender is recorded as a subscriber at the address it wrote
    /// from, the request is acknowledged and the subscription reported.
    /// Where the transport fails the sender stays recorded.
    pub open spec fn subscribe_outcome(
        &self,
        after: &Self,
        from: C::Address,
        data: Seq<u8>,
        r: Result<EngineEvent, EngineError<C::Error, S::Error>>,
    ) -> bool {
        let f = spec_frame(data);
        if spec_target(data) == self.id@ {
            let peers = self.store.peer_map().insert(
                f.id,
                Peer { addr: Some(from), subscriber: true, ..self.met(f) },
            );
            ||| self.store_failed(after, r)
            ||| {
                &&& self.same_but_peers(after)
                &&& after.store.peer_map() == peers
                &&& match r {
                    Ok(EngineEvent::SubscribeFrom(id)) => id == f.id && after.comms.sent()
                        == self.comms.sent().push(
                        Datagram {
                            to: Some(from),
                            data: self.message(KIND_STATUS, f.index, seq![0u8, 0u8, 0u8, 0u8]),
                        },
                    ),
                    Err(EngineError::Comms(_)) => !self.comms.reliable() && after.comms.sent()
                        == self.comms.sent(),
                    _ => false,
                }
            }
        } else {
            self.dropped(after, r)
        }
    }

    /// Outcome of an unsubscribe request: one for another service is
    /// dropped, and so is one from a peer that is not known. Else the peer
    /// is a subscriber no longer, the request is acknowledged and the end of
    /// the subscription reported.
    pub open spec fn unsubscribe_outcome(
        &self,
        after: &Self,
        from: C::Address,
        data: Seq<u8>,
        r: Result<EngineEvent, EngineError<C::Error, S::Error>>,
    ) -> bool {
        let f = spec_frame(data);
        if spec_target(data) == self.id@ {
            ||| self.store_failed(after, r)
            ||| if self.store.peer_map().contains_key(f.id) {
                &&& self.same_but_peers(after)
                &&& after.store.peer_map() == self.store.peer_map().insert(
                    f.id,
                    Peer { subscriber: false, ..self.store.peer_map()[f.id] },
                )
                &&& match r {
                    Ok(EngineEvent::UnsubscribeFrom(id)) => id == f.id && after.comms.sent()
                        == self.comms.sent().push(
                        Datagram {
                            to: Some(from),
                            data: self.message(KIND_STATUS, f.index, seq![0u8, 0u8, 0u8, 0u8]),
                        },
                    ),
                    Err(EngineError::Comms(_)) => !self.comms.reliable() && after.comms.sent()
                        == self.comms.sent(),
                    _ => false,
                }
            } else {
                self.dropped(after, r)
            }
        } else {
            self.dropped(after, r)
        }
    }

    /// Outcome of a status response: one that reports a failure is dropped,
    /// and so is one that does not answer the request in flight to its
    /// sender. Else the sender's state takes the step, its key is learned,
    /// the request waits no longer and the step is reported.
    pub open spec fn status_outcome(
        &self,
        after: &Self,
        data: Seq<u8>,
        r: Result<EngineEvent, EngineError<C::Error, S::Error>>,
    ) -> bool {
        let f = spec_frame(data);
        let state = self.peer_state(f.id);
        if spec_status_ok(data) {
            ||| self.store_failed(after, r)
            ||| if state.spec_pending() == Some(f.index) {
                &&& r matches Ok(event) && event == if state is Subscribing {
                    EngineEvent::SubscribedTo(f.id)
                } else {
                    EngineEvent::UnsubscribedTo(f.id)
                }
                &&& after.same_config(self)
                &&& self.same_ends(after)
                &&& after.req_id == self.req_id
                &&& after.discovery == self.discovery
                &&& after.pending@ == spec_without(self.pending@, f.id, f.index)
                &&& after.store.ident() == self.store.ident()
                &&& after.store.last() == self.store.last()
                &&& after.store.pages() == self.store.pages()
                &&& after.store.peer_map() == self.store.peer_map().insert(
                    f.id,
                    Peer { subscribed: state.spec_acknowledged(f.index), ..self.met(f) },
                )
                &&& after.comms.sent() == self.comms.sent()
            } else {
                self.dropped(after, r)
            }
        } else {
            self.dropped(after, r)
        }
    }

    /// Outcome of a data object: one of another application is dropped, and
    /// so is one whose origin is not a known peer with a key on record that
    /// we are subscribed to. Else the object is stored under its signature
    /// and reported.
    pub open spec fn data_outcome(
        &self,
        after: &Self,
        data: Seq<u8>,
        r: Result<EngineEvent, EngineError<C::Error, S::Error>>,
    ) -> bool {
        let f = spec_frame(data);
        let p = peer_or_default(self.store.peer_map(), f.id);
        if f.application_id == A::APPLICATION_ID {
            ||| self.store_failed(after, r)
            ||| if p.spec_subscribed() && p.keys.pub_key is Some {
                &&& r matches Ok(EngineEvent::ReceivedData(id, sig)) && id == f.id && sig
                    == f.signature
                &&& self.same_but_history(after)
                &&& after.store.last() == self.store.last()
                &&& after.store.pages() == self.store.pages().insert(
                    f.signature,
                    data.subrange(0, f.len as int),
                )
                &&& after.comms.sent() == self.comms.sent()
            } else {
                self.dropped(after, r)
            }
        } else {
            self.dropped(after, r)
        }
    }

    /// What `handle` does with the datagram `data` from `from`: an accepted
    /// object is acted on by its class; anything else is dropped, so that
    /// nothing changes, nothing is reported and no error is handed on.
    pub open spec fn handled(
        &self,
        after: &Self,
        from: C::Address,
        data: Seq<u8>,
        r: Result<EngineEvent, EngineError<C::Error, S::Error>>,
    ) -> bool {
        if self.accepts(data) {
            self.outcome(after, from, data, r)
        } else {
            self.dropped(after, r)
        }
    }

    /// Outcome of an object that the engine has accepted, by its class. A
    /// request or response of a kind that is not implemented is refused as
    /// unsupported; what is ignored is dropped; neither asks the store or
    /// the transport.
    pub open spec fn outcome(
        &self,
        after: &Self,
        from: C::Address,
        data: Seq<u8>,
        r: Result<EngineEvent, EngineError<C::Error, S::Error>>,
    ) -> bool {
        let f = spec_frame(data);
        match spec_classify(f.application_id, f.kind, f.flags, f.body_len as int) {
            Class::Discover => self.discover_outcome(after, from, data, r),
            Class::Found => self.found_outcome(after, from, data, r),
            Class::Subscribe => self.subscribe_outcome(after, from, data, r),
            Class::Unsubscribe => self.unsubscribe_outcome(after, from, data, r),
            Class::Status => self.status_outcome(after, data, r),
            Class::Data => self.data_outcome(after, data, r),
            Class::Unsupported => after.same_state(self) && r matches Err(EngineError::Unsupported),
            Class::Ignored => self.dropped(after, r),
        }
    }
}

impl<A: Application, C: Comms, S: Store<Address = C::Address>> Engine<A, C, S> {
    /// Signs a protocol message and sends it to `to`.
    fn reply(&mut self, to: &C::Address, kind: u16, index: u16, body: &[u8]) -> (r: Result<
        (),
        C::Error,
    >)
        requires
            old(self).inv(),
            body@.len() + crate::engine::MESSAGE_OVERHEAD <= old(self).capacity,
        ensures
            final(self).inv(),
            old(self).same_but_comms(final(self)),
            old(self).comms.reliable() ==> r is Ok,
            r is Ok ==> final(self).comms.sent() == old(self).comms.sent().push(
                Datagram { to: Some(*to), data: old(self).message(kind, index, body@) },
            ),
            r is Err ==> final(self).comms.sent() == old(self).comms.sent(),
    {
        let bytes = match self.build_message(kind, index, body) {
            Some(b) => b,
            None => Vec::new(),
        };
        self.comms.send(to, bytes.as_slice())
    }

    /// Handles a discovery request.
    fn on_discover(&mut self, from: C::Address, data: &[u8], frame: &Frame) -> (r: Result<
        EngineEvent,
        EngineError<C::Error, S::Error>,
    >)
        requires
            old(self).inv(),
            parseable(data@),
            *frame == spec_frame(data@),
            frame.len <= data@.len(),
        ensures
            final(self).inv(),
            old(self).discover_outcome(final(self), from, data@, r),
    {
        let query = copy_range(data, BODY_AT, BODY_AT + frame.body_len);
        if !A::matches(self.info.as_slice(), query.as_slice()) {
            return Ok(EngineEvent::Nothing);
        }
        let info = copy_range(self.info.as_slice(), 0, self.info.len());
        assert(info@ =~= self.info@);
        match self.reply(&from, KIND_FOUND, frame.index, info.as_slice()) {
            Ok(()) => Ok(EngineEvent::Nothing),
            Err(e) => Err(EngineError::Comms(e)),
        }
    }

    /// Handles a discovery response.
    fn on_found(&mut self, from: C::Address, data: &[u8], frame: &Frame) -> (r: Result<
        EngineEvent,
        EngineError<C::Error, S::Error>,
    >)
        requires
            old(self).inv(),
            *frame == spec_frame(data@),
        ensures
            final(self).inv(),
            old(self).found_outcome(
                final(self),
                from,
                data@,
                r,
            ),
    {
        match self.discovery {
            Some(rid) => {
                if rid != frame.index {
                    return Ok(EngineEvent::Nothing);
                }
            },
            None => {
                return Ok(EngineEvent::Nothing);
            },
        }
        let peer = match self.store.get_peer(&frame.id) {
            Ok(p) => p,
            Err(e) => {
                return Err(EngineError::Store(e));
            },
        };
        if peer.is_some() {
            return Ok(EngineEvent::Discover(frame.id));
        }
        let key = learn(None, frame.public_key, &frame.id);
        let record = |p: Peer<C::Address>| -> (o: (Peer<C::Address>, ()))
            ensures
                o.0 == (Peer { keys: Keys { pub_key: key, ..p.keys }, addr: Some(from), ..p }),
            {
                (
                    Peer {
                        keys: Keys {
                            pub_key: key,
                            pri_key: p.keys.pri_key,
                            sec_key: p.keys.sec_key,
                            sym_keys: p.keys.sym_keys,
                        },
                        addr: Some(from),
                        subscriber: p.subscriber,
                        subscribed: p.subscribed,
                    },
                    (),
                )
            };
        match self.store.update_peer(&frame.id, record) {
            Ok(()) => Ok(EngineEvent::Discover(frame.id)),
            Err(e) => Err(EngineError::Store(e)),
        }
    }

    /// Handles a subscribe request.
    fn on_subscribe(&mut self, from: C::Address, data: &[u8], frame: &Frame) -> (r: Result<
        EngineEvent,
        EngineError<C::Error, S::Error>,
    >)
        requires
            old(self).inv(),
            *frame == spec_frame(data@),
            frame.describes(data@),
            frame.len <= data@.len(),
            frame.body_len >= 32,
        ensures
            final(self).inv(),
            old(self).subscribe_outcome(
                final(self),
                from,
                data@,
                r,
            ),
    {
        let wanted = target(data, frame);
        proof {
            lemma_array32_ext(wanted, self.id);
        }
        if !wanted.same(&self.id) {
            return Ok(EngineEvent::Nothing);
        }
        let peer = match self.store.get_peer(&frame.id) {
            Ok(p) => p,
            Err(e) => {
                return Err(EngineError::Store(e));
            },
        };
        let known = match peer {
            Some(p) => p.keys.pub_key,
            None => None,
        };
        let key = learn(known, frame.public_key, &frame.id);
        let record = |p: Peer<C::Address>| -> (o: (Peer<C::Address>, ()))
            ensures
                o.0 == (Peer {
                    keys: Keys { pub_key: key, ..p.keys },
                    addr: Some(from),
                    subscriber: true,
                    ..p
                }),
            {
                (
                    Peer {
                        keys: Keys {
                            pub_key: key,
                            pri_key: p.keys.pri_key,
                            sec_key: p.keys.sec_key,
                            sym_keys: p.keys.sym_keys,
                        },
                        addr: Some(from),
                        subscriber: true,
                        subscribed: p.subscribed,
                    },
                    (),
                )
            };
        match self.store.update_peer(&frame.id, record) {
            Ok(()) => {},
            Err(e) => {
                return Err(EngineError::Store(e));
            },
        }
        let body = status_body();
        match self.reply(&from, KIND_STATUS, frame.index, body.as_slice()) {
            Ok(()) => Ok(EngineEvent::SubscribeFrom(frame.id)),
            Err(e) => Err(EngineError::Comms(e)),
        }
    }

    /// Handles an unsubscribe request.
    fn on_unsubscribe(&mut self, from: C::Address, data: &[u8], frame: &Frame) -> (r: Result<
        EngineEvent,
        EngineError<C::Error, S::Error>,
    >)
        requires
            old(self).inv(),
            *frame == spec_frame(data@),
            frame.describes(data@),
            frame.len <= data@.len(),
            frame.body_len >= 32,
        ensures
            final(self).inv(),
            old(self).unsubscribe_outcome(
                final(self),
                from,
                data@,
                r,
            ),
    {
        let wanted = target(data, frame);
        proof {
            lemma_array32_ext(wanted, self.id);
        }
        if !wanted.same(&self.id) {
            return Ok(EngineEvent::Nothing);
        }
        let peer = match self.store.get_peer(&frame.id) {
            Ok(p) => p,
            Err(e) => {
                return Err(EngineError::Store(e));
            },
        };
        if peer.is_none() {
            return Ok(EngineEvent::Nothing);
        }
        let record = |p: Peer<C::Address>| -> (o: (Peer<C::Address>, ()))
            ensures
                o.0 == (Peer { subscriber: false, ..p }),
            {
                (
                    Peer { keys: p.keys, addr: p.addr, subscriber: false, subscribed: p.subscribed },
                    (),
                )
            };
        match self.store.update_peer(&frame.id, record) {
            Ok(()) => {},
            Err(e) => {
                return Err(EngineError::Store(e));
            },
        }
        let body = status_body();
        match self.reply(&from, KIND_STATUS, frame.index, body.as_slice()) {
            Ok(()) => Ok(EngineEvent::UnsubscribeFrom(frame.id)),
            Err(e) => Err(EngineError::Comms(e)),
        }
    }

    /// Handles a status response.
    fn on_status(&mut self, data: &[u8], frame: &Frame) -> (r: Result<
        EngineEvent,
        EngineError<C::Error, S::Error>,
    >)
        requires
            old(self).inv(),
            *frame == spec_frame(data@),
            frame.describes(data@),
            frame.len <= data@.len(),
            frame.body_len >= 4,
        ensures
            final(self).inv(),
            old(self).status_outcome(
                final(self),
                data@,
                r,
            ),
    {
        if !status_ok(data, frame) {
            return Ok(EngineEvent::Nothing);
        }
        let peer = match self.store.get_peer(&frame.id) {
            Ok(p) => p,
            Err(e) => {
                return Err(EngineError::Store(e));
            },
        };
        let (state, known) = match peer {
            Some(p) => (p.subscribed, p.keys.pub_key),
            None => (SubscribeState::Idle, None),
        };
        match state.pending() {
            Some(rid) => {
                if rid != frame.index {
                    return Ok(EngineEvent::Nothing);
                }
            },
            None => {
                return Ok(EngineEvent::Nothing);
            },
        }
        let next = state.acknowledged(frame.index);
        let key = learn(known, frame.public_key, &frame.id);
        let record = |p: Peer<C::Address>| -> (o: (Peer<C::Address>, ()))
            ensures
                o.0 == (Peer { keys: Keys { pub_key: key, ..p.keys }, subscribed: next, ..p }),
            {
                (
                    Peer {
                        keys: Keys {
                            pub_key: key,
                            pri_key: p.keys.pri_key,
                            sec_key: p.keys.sec_key,
                            sym_keys: p.keys.sym_keys,
                        },
                        addr: p.addr,
                        subscriber: p.subscriber,
                        subscribed: next,
                    },
                    (),
                )
            };
        match self.store.update_peer(&frame.id, record) {
            Ok(()) => {},
            Err(e) => {
                return Err(EngineError::Store(e));
            },
        }
        self.pending = without(&self.pending, &frame.id, frame.index);
        match state {
            SubscribeState::Subscribing(_) => Ok(EngineEvent::SubscribedTo(frame.id)),
            _ => Ok(EngineEvent::UnsubscribedTo(frame.id)),
        }
    }

    /// Handles a data object.
    fn on_data(&mut self, data: &[u8], frame: &Frame) -> (r: Result<
        EngineEvent,
        EngineError<C::Error, S::Error>,
    >)
        requires
            old(self).inv(),
            *frame == spec_frame(data@),
            frame.len <= data@.len(),
        ensures
            final(self).inv(),
            old(self).data_outcome(final(self), data@, r),
    {
        if frame.application_id != A::APPLICATION_ID {
            return Ok(EngineEvent::Nothing);
        }
        let peer = match self.store.get_peer(&frame.id) {
            Ok(p) => p,
            Err(e) => {
                return Err(EngineError::Store(e));
            },
        };
        let wanted = match peer {
            Some(p) => p.subscribed() && p.keys.pub_key.is_some(),
            None => false,
        };
        if !wanted {
            return Ok(EngineEvent::Nothing);
        }
        let page = copy_range(data, 0, frame.len);
        match self.store.store_page(&frame.signature, page.as_slice()) {
            Ok(()) => Ok(EngineEvent::ReceivedData(frame.id, frame.signature)),
            Err(e) => Err(EngineError::Store(e)),
        }
    }

    /// Acts on an object that has been taken apart.
    fn apply(&mut self, from: C::Address, data: &[u8], frame: &Frame) -> (r: Result<
        EngineEvent,
        EngineError<C::Error, S::Error>,
    >)
        requires
            old(self).inv(),
            parseable(data@),
            *frame == spec_frame(data@),
            frame.describes(data@),
            frame.len <= data@.len(),
        ensures
            final(self).inv(),
            old(self).outcome(final(self), from, data@, r),
    {
        match classify(frame) {
            Class::Discover => self.on_discover(from, data, frame),
            Class::Found => self.on_found(from, data, frame),
            Class::Subscribe => self.on_subscribe(from, data, frame),
            Class::Unsubscribe => self.on_unsubscribe(from, data, frame),
            Class::Status => self.on_status(data, frame),
            Class::Data => self.on_data(data, frame),
            Class::Unsupported => Err(EngineError::Unsupported),
            Class::Ignored => Ok(EngineEvent::Nothing),
        }
    }

    /// Acts on a datagram whose origin the caller vouches for: the
    /// signature is not looked at. A datagram that is not parseable is
    /// dropped.
    pub fn dispatch(&mut self, from: C::Address, data: &[u8]) -> (r: Result<
        EngineEvent,
        EngineError<C::Error, S::Error>,
    >)
        requires
            old(self).inv(),
        ensures
            final(self).inv(),
            !parseable(data@) ==> (r matches Ok(EngineEvent::Nothing)) && final(self).same_state(
                old(self),
            ),
            parseable(data@) ==> old(self).outcome(final(self), from, data@, r),
    {
        match inspect(data) {
            Some(frame) => self.apply(from, data, &frame),
            None => Ok(EngineEvent::Nothing),
        }
    }

    /// Takes a datagram that came in from `from`.
    ///
    /// A datagram that is not parseable, or whose signature does not hold
    /// against the key on record for its origin or, without one, against the
    /// key attached to it, is dropped: nothing changes and nothing is
    /// reported, no error either. An accepted object is acted on by its
    /// class; see [`Engine::outcome`].
    pub fn handle(&mut self, from: C::Address, data: &[u8]) -> (r: Result<
        EngineEvent,
        EngineError<C::Error, S::Error>,
    >)
        requires
            old(self).inv(),
        ensures
            final(self).inv(),
            old(self).handled(final(self), from, data@, r),
            !old(self).accepts(data@) ==> final(self).store == old(self).store,
    {
        let frame = match inspect(data) {
            Some(f) => f,
            None => {
                return Ok(EngineEvent::Nothing);
            },
        };
        let known = match self.store.keys(&frame.id) {
            Some(k) => k.pub_key,
            None => None,
        };
        if !verify(data, known) {
            return Ok(EngineEvent::Nothing);
        }
        self.apply(from, data, &frame)
    }
}

} // verus!
