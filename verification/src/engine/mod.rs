//! The protocol state machine.
use core::marker::PhantomData;
use vstd::prelude::*;
use crate::application::Application;
use crate::comms::{Comms, Datagram};
use crate::error::{CoreError, EngineError};
use crate::store::record::spec_public_of;
use crate::store::{lists_peers, peer_or_default, same_content, ObjectInfo, Peer, Store, SubscribeState};
use crate::types::{Id, Keys, PrivateKey, PublicKey, RequestId, Signature};
use crate::types::lemma_array32_ext;
use crate::wire::frame::{
    check_options, inspect, parseable, sendable, spec_frame, spec_signature, MIN_LEN,
};
use crate::wire::message::{KIND_DATA, KIND_DISCOVER, KIND_SUBSCRIBE, KIND_UNSUBSCRIBE};
use crate::wire::sign::{digest, hash, new_key_pair, seal, sealed, sig_view, spec_sealed_len};

pub mod inbound;
pub mod laws;
pub mod upkeep;

verus! {

/// Most requests that can wait for their response at one time.
pub const MAX_PENDING: usize = 16;

/// Calls of `update` after which a request without response is sent again.
pub const RETRY_INTERVAL: u16 = 8;

/// Times a request is sent again before it is given up.
pub const MAX_RETRIES: u8 = 3;

/// Length that the envelope of a protocol message adds to its body: header,
/// origin and signature, and the public key that is attached.
pub const MESSAGE_OVERHEAD: usize = 148;

/// Smallest buffer capacity an engine works with: the length of the longest
/// message of fixed length that it sends, a request that names a service.
pub const MIN_CAPACITY: usize = MESSAGE_OVERHEAD + 32;

/// Largest buffer capacity an engine works with: the longest body whose
/// length an object can declare.
pub const MAX_CAPACITY: usize = 0xffff;

/// Index of the first block a service publishes.
pub const FIRST_BLOCK: u16 = 0;

/// What one call of the engine has to report.
#[derive(Clone, Copy, Debug, PartialEq, Eq)]
pub enum EngineEvent {
    /// Nothing happened.
    Nothing,
    /// A service answered our discovery request.
    Discover(Id),
    /// A peer subscribed to us.
    SubscribeFrom(Id),
    /// A peer ended its subscription to us.
    UnsubscribeFrom(Id),
    /// A peer acknowledged our subscription.
    SubscribedTo(Id),
    /// A peer acknowledged the end of our subscription.
    UnsubscribedTo(Id),
    /// A peer we are subscribed to published an object.
    ReceivedData(Id, Signature),
    /// A request to the peer was given up for want of a response.
    Timeout(Id),
}

/// A request that waits for its response.
#[derive(Clone, Copy, Debug, PartialEq, Eq)]
pub struct Pending {
    /// The peer that was asked.
    pub peer: Id,
    /// The request.
    pub req_id: RequestId,
    /// Calls of `update` since the request was last sent.
    pub age: u16,
    /// Times the request was sent again.
    pub attempts: u8,
}

/// The request identifier that follows `r`.
pub open spec fn spec_next_id(r: RequestId) -> RequestId {
    if r == u16::MAX {
        0
    } else {
        (r + 1) as u16
    }
}

/// The request identifier that follows `r`.
pub fn next_id(r: RequestId) -> (n: RequestId)
    ensures
        n == spec_next_id(r),
{
    if r == u16::MAX {
        0
    } else {
        r + 1
    }
}

/// Where the block after the tip `last` stands in the history: the index
/// of the primary page, the index of the block and the signature it follows.
/// The first block follows nothing; after the last index there is no block.
pub open spec fn spec_next_block(last: Option<ObjectInfo>) -> Option<(u16, u16, Option<Signature>)> {
    match last {
        None => Some((0u16, FIRST_BLOCK, None)),
        Some(i) => if i.block_index == u16::MAX {
            None
        } else {
            Some((i.page_index, (i.block_index + 1) as u16, Some(i.sig)))
        },
    }
}

/// Where the block after the tip `last` stands in the history.
pub fn next_block(last: Option<ObjectInfo>) -> (n: Option<(u16, u16, Option<Signature>)>)
    ensures
        n == spec_next_block(last),
{
    match last {
        None => Some((0u16, FIRST_BLOCK, None)),
        Some(i) => if i.block_index == u16::MAX {
            None
        } else {
            Some((i.page_index, i.block_index + 1, Some(i.sig)))
        },
    }
}

/// The key that an identity signs with.
pub open spec fn signing_key(ident: Option<Keys>) -> Option<PrivateKey> {
    match ident {
        Some(k) => k.pri_key,
        None => None,
    }
}

/// The datagrams that carry `data` to the subscribers among `list`, in the
/// order of the list: to each peer that is a subscriber and has an address.
pub open spec fn fanout<A: Copy>(list: Seq<(Id, Peer<A>)>, data: Seq<u8>) -> Seq<Datagram<A>>
    decreases list.len(),
{
    if list.len() == 0 {
        Seq::empty()
    } else {
        let rest = fanout(list.drop_last(), data);
        let p = list.last().1;
        if p.subscriber && p.addr is Some {
            rest.push(Datagram { to: p.addr, data })
        } else {
            rest
        }
    }
}

/// The engine: one identity, one transport, one store.
pub struct Engine<A: Application, C: Comms, S: Store<Address = C::Address>> {
    /// Identifier of the local service: the hash of its public key.
    pub id: Id,
    /// Public key of the local service.
    pub pub_key: PublicKey,
    /// Private key of the local service.
    pub pri_key: PrivateKey,
    /// The application that the engine runs for.
    pub application: PhantomData<A>,
    /// How the local service describes itself to those who discover it.
    pub info: Vec<u8>,
    /// Capacity of the buffers for one datagram.
    pub capacity: usize,
    /// Identifier of the last request made.
    pub req_id: RequestId,
    /// The discovery request whose responses are taken.
    pub discovery: Option<RequestId>,
    /// The requests that wait for their response.
    pub pending: Vec<Pending>,
    /// The transport.
    pub comms: C,
    /// The store.
    pub store: S,
}

impl<A: Application, C: Comms, S: Store<Address = C::Address>> Engine<A, C, S> {
    /// What every engine satisfies; each operation preserves it.
    pub open spec fn inv(&self) -> bool {
        &&& self.comms.inv()
        &&& self.store.inv()
        &&& self.pending@.len() <= MAX_PENDING
        &&& MIN_CAPACITY <= self.capacity <= MAX_CAPACITY
        &&& self.info@.len() + MESSAGE_OVERHEAD <= self.capacity
    }

    /// Whether `self` and `other` are configured alike: identity,
    /// description and capacity.
    pub open spec fn same_config(&self, other: &Self) -> bool {
        &&& self.id == other.id
        &&& self.pub_key == other.pub_key
        &&& self.pri_key == other.pri_key
        &&& self.info@ == other.info@
        &&& self.capacity == other.capacity
    }

    /// Whether `after` has the same datagrams pending as `self`, and
    /// transport and store that are as reliable.
    pub open spec fn same_ends(&self, after: &Self) -> bool {
        &&& after.comms.pending() == self.comms.pending()
        &&& after.comms.reliable() == self.comms.reliable()
        &&& after.store.reliable() == self.store.reliable()
    }

    /// Whether `self` and `other` differ in what their transport has
    /// accepted at most.
    pub open spec fn same_but_comms(&self, other: &Self) -> bool {
        &&& self.same_config(other)
        &&& self.same_ends(other)
        &&& self.req_id == other.req_id
        &&& self.discovery == other.discovery
        &&& self.pending@ == other.pending@
        &&& self.store == other.store
    }

    /// Whether `self` and `other` are in the same state, as far as it can be
    /// observed: configuration, requests, what the store holds, what the
    /// transport has accepted and what is pending on it.
    pub open spec fn same_state(&self, other: &Self) -> bool {
        &&& self.same_config(other)
        &&& self.same_ends(other)
        &&& self.req_id == other.req_id
        &&& self.discovery == other.discovery
        &&& self.pending@ == other.pending@
        &&& same_content(&self.store, &other.store)
        &&& self.comms.sent() == other.comms.sent()
    }

    /// Our subscription to the peer `id`.
    pub open spec fn peer_state(&self, id: Id) -> SubscribeState {
        peer_or_default(self.store.peer_map(), id).subscribed
    }

    /// Whether `after` is `self` with the request `rid` to the peer `id`
    /// recorded: the peer as `peer`, the request as waiting and as the last
    /// one made. What the transport has accepted is left open.
    pub open spec fn requested(&self, after: &Self, id: Id, rid: RequestId, peer: Peer<C::Address>) -> bool {
        &&& after.same_config(self)
        &&& self.same_ends(after)
        &&& after.discovery == self.discovery
        &&& after.req_id == rid
        &&& after.pending@ == self.pending@.push(Pending { peer: id, req_id: rid, age: 0, attempts: 0 })
        &&& after.store.ident() == self.store.ident()
        &&& after.store.last() == self.store.last()
        &&& after.store.pages() == self.store.pages()
        &&& after.store.peer_map() == self.store.peer_map().insert(id, peer)
    }

    /// The data object with the given index, parent, body and options, as
    /// the local service signs it with `key`.
    pub open spec fn data_object(
        &self,
        key: PrivateKey,
        index: u16,
        parent: Option<Signature>,
        body: Seq<u8>,
        options: Seq<u8>,
    ) -> Seq<u8> {
        sealed(
            A::APPLICATION_ID,
            KIND_DATA,
            0,
            index,
            self.id@,
            body,
            options,
            None,
            sig_view(parent),
            key@,
        )
    }

    /// Whether `bytes` is an object that can be taken apart again and names
    /// the local service as its origin and `index` as its index.
    pub open spec fn well_sealed(&self, bytes: Seq<u8>, index: u16) -> bool {
        &&& parseable(bytes)
        &&& spec_frame(bytes).index == index
        &&& spec_frame(bytes).id == self.id
    }

    /// Whether `after` is `self` but for the store's pages and tip and for
    /// what the transport has accepted.
    pub open spec fn same_but_history(&self, after: &Self) -> bool {
        &&& after.same_config(self)
        &&& self.same_ends(after)
        &&& after.req_id == self.req_id
        &&& after.discovery == self.discovery
        &&& after.pending@ == self.pending@
        &&& after.store.ident() == self.store.ident()
        &&& after.store.peer_map() == self.store.peer_map()
    }

    /// The protocol message of the given kind, index and body, as the local
    /// service signs it: with its public key attached.
    pub open spec fn message(&self, kind: u16, index: u16, body: Seq<u8>) -> Seq<u8> {
        self.message_with(kind, index, body, Seq::empty())
    }

    /// The protocol message of the given kind, index, body and options, as
    /// the local service signs it: with its public key attached.
    pub open spec fn message_with(
        &self,
        kind: u16,
        index: u16,
        body: Seq<u8>,
        options: Seq<u8>,
    ) -> Seq<u8> {
        sealed(
            0,
            kind,
            0,
            index,
            self.id@,
            body,
            options,
            Some(self.pub_key@),
            None,
            self.pri_key@,
        )
    }

    /// The identifier of the local service.
    pub fn id(&self) -> (id: Id)
        ensures
            id == self.id,
    {
        self.id
    }

    /// Sets an engine up over `comms` and `store`, the service describing
    /// itself by `info`, with buffers of `capacity` bytes.
    ///
    /// The identity is the one in the store where that holds a key pair;
    /// else a fresh key pair, which is then stored; its public key is the
    /// second half of its private key. A capacity out of
    /// bounds, or a description that leaves no room for its envelope, is
    /// refused as unsupported.
    pub fn new(info: Vec<u8>, comms: C, store: S, capacity: usize) -> (r: Result<
        Self,
        EngineError<C::Error, S::Error>,
    >)
        requires
            comms.inv(),
            store.inv(),
        ensures
            match r {
                Ok(e) => {
                    &&& e.inv()
                    &&& MIN_CAPACITY <= capacity <= MAX_CAPACITY
                    &&& info@.len() + MESSAGE_OVERHEAD <= capacity
                    &&& e.id@ == digest(e.pub_key@)
                    &&& e.info@ == info@
                    &&& e.capacity == capacity
                    &&& e.req_id == 0
                    &&& e.pending@.len() == 0
                    &&& e.discovery is None
                    &&& e.comms == comms
                    &&& e.store.reliable() == store.reliable()
                    &&& e.store.last() == store.last()
                    &&& e.store.peer_map() == store.peer_map()
                    &&& e.store.pages() == store.pages()
                    &&& e.store.ident() matches Some(k) && k.pub_key == Some(e.pub_key)
                        && k.pri_key == Some(e.pri_key)
                    &&& (store.ident() matches Some(k) && k.can_sign()) ==> e.store.ident()
                        == store.ident()
                    &&& !(store.ident() matches Some(k) && k.can_sign()) ==> e.pub_key@
                        == spec_public_of(e.pri_key@)
                },
                Err(EngineError::Unsupported) => !(MIN_CAPACITY <= capacity <= MAX_CAPACITY
                    && info@.len() + MESSAGE_OVERHEAD <= capacity),
                Err(EngineError::Store(_)) => !store.reliable() && MIN_CAPACITY <= capacity
                    <= MAX_CAPACITY && info@.len() + MESSAGE_OVERHEAD <= capacity,
                Err(_) => false,
            },
    {
        if capacity < MIN_CAPACITY || capacity > MAX_CAPACITY || info.len() > capacity
            - MESSAGE_OVERHEAD {
            return Err(EngineError::Unsupported);
        }
        let mut store = store;
        let stored = match store.get_ident() {
            Ok(k) => k,
            Err(e) => {
                return Err(EngineError::Store(e));
            },
        };
        let usable = match stored {
            Some(k) => match (k.pub_key, k.pri_key) {
                (Some(pub_key), Some(pri_key)) => Some((pub_key, pri_key)),
                _ => None,
            },
            None => None,
        };
        let (pub_key, pri_key) = match usable {
            Some(pair) => pair,
            None => {
                let (pub_key, pri_key) = new_key_pair();
                let keys = Keys {
                    pub_key: Some(pub_key),
                    pri_key: Some(pri_key),
                    sec_key: None,
                    sym_keys: None,
                };
                match store.set_ident(&keys) {
                    Ok(()) => {},
                    Err(e) => {
                        return Err(EngineError::Store(e));
                    },
                }
                (pub_key, pri_key)
            },
        };
        let id = hash(&pub_key.bytes);
        Ok(
            Engine {
                id,
                pub_key,
                pri_key,
                application: PhantomData,
                info,
                capacity,
                req_id: 0,
                discovery: None,
                pending: Vec::new(),
                comms,
                store,
            },
        )
    }

    /// Encodes and signs a protocol message without options, if it fits the
    /// buffers.
    pub(crate) fn build_message(&self, kind: u16, index: u16, body: &[u8]) -> (r: Option<Vec<u8>>)
        requires
            self.inv(),
        ensures
            r is Some <==> body@.len() + MESSAGE_OVERHEAD <= self.capacity,
            r matches Some(bytes) ==> bytes@ == self.message(kind, index, body@),
    {
        let none: Vec<u8> = Vec::new();
        assert(none@ =~= Seq::<u8>::empty());
        self.build_with(kind, index, body, none.as_slice())
    }

    /// Encodes and signs a protocol message, if it fits the buffers.
    fn build_with(&self, kind: u16, index: u16, body: &[u8], options: &[u8]) -> (r: Option<Vec<u8>>)
        requires
            self.inv(),
            sendable(options@, 0),
        ensures
            r is Some <==> body@.len() + options@.len() + MESSAGE_OVERHEAD <= self.capacity,
            r matches Some(bytes) ==> bytes@ == self.message_with(kind, index, body@, options@),
    {
        if body.len() > self.capacity - MESSAGE_OVERHEAD {
            return None;
        }
        if options.len() > self.capacity - MESSAGE_OVERHEAD - body.len() {
            return None;
        }
        assert(0u16 & !0x000du16 == 0) by (bit_vector);
        Some(
            seal(
                0,
                kind,
                0,
                index,
                &self.id,
                body,
                options,
                Some(self.pub_key),
                None,
                &self.pri_key,
                body.len() + options.len() + MESSAGE_OVERHEAD,
            ),
        )
    }

    /// Asks everyone on the local segment who is there. `query` selects who
    /// answers, as the application of those who hear it decides; `options`
    /// are public options, in their encoding, that the request carries.
    /// Responses are taken by `handle` on later calls; the peers are not
    /// touched here.
    ///
    /// Returns the identifier of the request. Fails with
    /// `Core(InvalidOption)` where the options cannot be sent, with
    /// `Core(InvalidPageLength)` where the request does not fit the buffers,
    /// and with the transport's error where the broadcast fails; then
    /// nothing has changed.
    pub fn discover(&mut self, query: &[u8], options: &[u8]) -> (r: Result<
        RequestId,
        EngineError<C::Error, S::Error>,
    >)
        requires
            old(self).inv(),
        ensures
            final(self).inv(),
            final(self).same_config(old(self)),
            old(self).same_ends(final(self)),
            final(self).store == old(self).store,
            final(self).pending@ == old(self).pending@,
            match r {
                Ok(rid) => {
                    &&& sendable(options@, 0)
                    &&& query@.len() + options@.len() + MESSAGE_OVERHEAD <= old(self).capacity
                    &&& rid == spec_next_id(old(self).req_id)
                    &&& final(self).req_id == rid
                    &&& final(self).discovery == Some(rid)
                    &&& final(self).comms.sent() == old(self).comms.sent().push(
                        Datagram {
                            to: None,
                            data: old(self).message_with(KIND_DISCOVER, rid, query@, options@),
                        },
                    )
                },
                Err(e) => {
                    &&& final(self).req_id == old(self).req_id
                    &&& final(self).discovery == old(self).discovery
                    &&& final(self).comms.sent() == old(self).comms.sent()
                    &&& match e {
                        EngineError::Core(CoreError::InvalidOption) => !sendable(options@, 0)
                            && final(self).comms == old(self).comms,
                        EngineError::Core(CoreError::InvalidPageLength) => sendable(options@, 0)
                            && query@.len() + options@.len() + MESSAGE_OVERHEAD > old(
                            self,
                        ).capacity && final(self).comms == old(self).comms,
                        EngineError::Comms(_) => !old(self).comms.reliable() && sendable(
                            options@,
                            0,
                        ) && query@.len() + options@.len() + MESSAGE_OVERHEAD <= old(
                            self,
                        ).capacity,
                        _ => false,
                    }
                },
            },
    {
        if !check_options(options) {
            return Err(EngineError::Core(CoreError::InvalidOption));
        }
        let rid = next_id(self.req_id);
        let bytes = match self.build_with(KIND_DISCOVER, rid, query, options) {
            Some(b) => b,
            None => {
                return Err(EngineError::Core(CoreError::InvalidPageLength));
            },
        };
        match self.comms.broadcast(bytes.as_slice()) {
            Ok(()) => {},
            Err(e) => {
                return Err(EngineError::Comms(e));
            },
        }
        self.req_id = rid;
        self.discovery = Some(rid);
        Ok(rid)
    }

    /// Asks the peer `id` at `addr` to send us what it publishes.
    ///
    /// Works from the idle state only: the peer goes to subscribing with a
    /// fresh request identifier, `addr` is recorded as its address, the
    /// request is sent and waits for its response. While a request to the
    /// peer is in flight, or the subscription stands, the call fails as
    /// unhandled and changes nothing; so does it where no more requests can
    /// wait. Where the store fails nothing has changed; where the transport
    /// fails the request stays recorded and is sent again by `update`.
    pub fn subscribe(&mut self, id: Id, addr: C::Address) -> (r: Result<
        (),
        EngineError<C::Error, S::Error>,
    >)
        requires
            old(self).inv(),
        ensures
            final(self).inv(),
            old(self).peer_state(id) !is Idle ==> r is Err && final(self).same_state(old(self)),
            old(self).pending@.len() >= MAX_PENDING ==> r matches Err(EngineError::Unhandled),
            match r {
                Ok(()) => {
                    &&& old(self).peer_state(id) is Idle
                    &&& old(self).pending@.len() < MAX_PENDING
                    &&& old(self).requested(
                        final(self),
                        id,
                        spec_next_id(old(self).req_id),
                        Peer {
                            subscribed: SubscribeState::Subscribing(spec_next_id(old(self).req_id)),
                            addr: Some(addr),
                            ..peer_or_default(old(self).store.peer_map(), id)
                        },
                    )
                    &&& final(self).comms.sent() == old(self).comms.sent().push(
                        Datagram {
                            to: Some(addr),
                            data: old(self).message(
                                KIND_SUBSCRIBE,
                                spec_next_id(old(self).req_id),
                                id@,
                            ),
                        },
                    )
                },
                Err(EngineError::Comms(_)) => {
                    &&& !old(self).comms.reliable()
                    &&& old(self).peer_state(id) is Idle
                    &&& old(self).pending@.len() < MAX_PENDING
                    &&& old(self).requested(
                        final(self),
                        id,
                        spec_next_id(old(self).req_id),
                        Peer {
                            subscribed: SubscribeState::Subscribing(spec_next_id(old(self).req_id)),
                            addr: Some(addr),
                            ..peer_or_default(old(self).store.peer_map(), id)
                        },
                    )
                    &&& final(self).comms.sent() == old(self).comms.sent()
                },
                Err(EngineError::Unhandled) => {
                    &&& old(self).pending@.len() >= MAX_PENDING || old(self).peer_state(id) !is Idle
                    &&& final(self).same_state(old(self))
                },
                Err(EngineError::Store(_)) => {
                    &&& !old(self).store.reliable()
                    &&& old(self).pending@.len() < MAX_PENDING
                    &&& final(self).same_state(old(self))
                },
                Err(_) => false,
            },
    {
        if self.pending.len() >= MAX_PENDING {
            return Err(EngineError::Unhandled);
        }
        let peer = match self.store.get_peer(&id) {
            Ok(p) => p,
            Err(e) => {
                return Err(EngineError::Store(e));
            },
        };
        let state = match peer {
            Some(p) => p.subscribed,
            None => SubscribeState::Idle,
        };
        let rid = next_id(self.req_id);
        let next = match state.request_subscribe(rid) {
            Some(n) => n,
            None => {
                return Err(EngineError::Unhandled);
            },
        };
        let body = id.to_vec();
        let bytes = match self.build_message(KIND_SUBSCRIBE, rid, body.as_slice()) {
            Some(b) => b,
            None => {
                return Err(EngineError::Unhandled);
            },
        };
        let record = |p: Peer<C::Address>| -> (o: (Peer<C::Address>, ()))
            ensures
                o.0 == (Peer { subscribed: next, addr: Some(addr), ..p }),
            {
                (
                    Peer { keys: p.keys, addr: Some(addr), subscriber: p.subscriber, subscribed: next },
                    (),
                )
            };
        match self.store.update_peer(&id, record) {
            Ok(()) => {},
            Err(e) => {
                return Err(EngineError::Store(e));
            },
        }
        self.req_id = rid;
        self.pending.push(Pending { peer: id, req_id: rid, age: 0, attempts: 0 });
        match self.comms.send(&addr, bytes.as_slice()) {
            Ok(()) => Ok(()),
            Err(e) => Err(EngineError::Comms(e)),
        }
    }

    /// Asks the peer `id` to send us no more of what it publishes.
    ///
    /// Works from the subscribed state only, and for a peer whose address is
    /// on record: the peer goes to unsubscribing with a fresh request
    /// identifier, the request is sent and waits for its response. In any
    /// other state the call fails as unhandled and changes nothing; so does
    /// it where no more requests can wait.
    pub fn unsubscribe(&mut self, id: Id) -> (r: Result<(), EngineError<C::Error, S::Error>>)
        requires
            old(self).inv(),
        ensures
            final(self).inv(),
            old(self).peer_state(id) !is Subscribed ==> r is Err && final(self).same_state(
                old(self),
            ),
            old(self).pending@.len() >= MAX_PENDING ==> r matches Err(EngineError::Unhandled),
            match r {
                Ok(()) => {
                    &&& old(self).peer_state(id) is Subscribed
                    &&& old(self).pending@.len() < MAX_PENDING
                    &&& old(self).store.peer_map()[id].addr is Some
                    &&& old(self).requested(
                        final(self),
                        id,
                        spec_next_id(old(self).req_id),
                        Peer {
                            subscribed: SubscribeState::Unsubscribing(
                                spec_next_id(old(self).req_id),
                            ),
                            ..old(self).store.peer_map()[id]
                        },
                    )
                    &&& final(self).comms.sent() == old(self).comms.sent().push(
                        Datagram {
                            to: old(self).store.peer_map()[id].addr,
                            data: old(self).message(
                                KIND_UNSUBSCRIBE,
                                spec_next_id(old(self).req_id),
                                id@,
                            ),
                        },
                    )
                },
                Err(EngineError::Comms(_)) => {
                    &&& !old(self).comms.reliable()
                    &&& old(self).peer_state(id) is Subscribed
                    &&& old(self).pending@.len() < MAX_PENDING
                    &&& old(self).store.peer_map()[id].addr is Some
                    &&& old(self).requested(
                        final(self),
                        id,
                        spec_next_id(old(self).req_id),
                        Peer {
                            subscribed: SubscribeState::Unsubscribing(
                                spec_next_id(old(self).req_id),
                            ),
                            ..old(self).store.peer_map()[id]
                        },
                    )
                    &&& final(self).comms.sent() == old(self).comms.sent()
                },
                Err(EngineError::Unhandled) => {
                    &&& old(self).pending@.len() >= MAX_PENDING || old(self).peer_state(id)
                        !is Subscribed || old(self).store.peer_map()[id].addr is None
                    &&& final(self).same_state(old(self))
                },
                Err(EngineError::Store(_)) => {
                    &&& !old(self).store.reliable()
                    &&& old(self).pending@.len() < MAX_PENDING
                    &&& final(self).same_state(old(self))
                },
                Err(_) => false,
            },
    {
        if self.pending.len() >= MAX_PENDING {
            return Err(EngineError::Unhandled);
        }
        let peer = match self.store.get_peer(&id) {
            Ok(p) => p,
            Err(e) => {
                return Err(EngineError::Store(e));
            },
        };
        let (state, known) = match peer {
            Some(p) => (p.subscribed, p.addr),
            None => (SubscribeState::Idle, None),
        };
        let rid = next_id(self.req_id);
        let next = match state.request_unsubscribe(rid) {
            Some(n) => n,
            None => {
                return Err(EngineError::Unhandled);
            },
        };
        let addr = match known {
            Some(a) => a,
            None => {
                return Err(EngineError::Unhandled);
            },
        };
        let body = id.to_vec();
        let bytes = match self.build_message(KIND_UNSUBSCRIBE, rid, body.as_slice()) {
            Some(b) => b,
            None => {
                return Err(EngineError::Unhandled);
            },
        };
        let record = |p: Peer<C::Address>| -> (o: (Peer<C::Address>, ()))
            ensures
                o.0 == (Peer { subscribed: next, ..p }),
            {
                (
                    Peer { keys: p.keys, addr: p.addr, subscriber: p.subscriber, subscribed: next },
                    (),
                )
            };
        match self.store.update_peer(&id, record) {
            Ok(()) => {},
            Err(e) => {
                return Err(EngineError::Store(e));
            },
        }
        self.req_id = rid;
        self.pending.push(Pending { peer: id, req_id: rid, age: 0, attempts: 0 });
        match self.comms.send(&addr, bytes.as_slice()) {
            Ok(()) => Ok(()),
            Err(e) => Err(EngineError::Comms(e)),
        }
    }

    /// What `release` does with the signed object `bytes`, to become the
    /// block `index` of the page `page_index`.
    ///
    /// An object that cannot be taken apart again, or names another origin
    /// or index, is refused with `Core(InvalidPageLength)` and nothing
    /// changes. Else the object is stored under its signature, the tip is
    /// replaced, and the object is sent to the subscribers in the order in
    /// which the store lists the peers. Where the store fails the tip is as
    /// it was, though the object may be stored; where the transport fails
    /// the object is published and has reached the subscribers before the
    /// one that failed.
    pub open spec fn released(
        &self,
        after: &Self,
        bytes: Seq<u8>,
        page_index: u16,
        index: u16,
        r: Result<Signature, EngineError<C::Error, S::Error>>,
    ) -> bool {
        let sig = Signature::from_seq(spec_signature(bytes));
        let tip = ObjectInfo { page_index, block_index: index, sig };
        &&& self.same_but_history(after)
        &&& match r {
            Ok(s) => {
                &&& self.well_sealed(bytes, index)
                &&& s == sig
                &&& after.store.pages() == self.store.pages().insert(sig, bytes)
                &&& after.store.last() == Some(tip)
                &&& exists|list: Seq<(Id, Peer<C::Address>)>|
                    lists_peers(list, self.store.peer_map()) && after.comms.sent()
                        == self.comms.sent() + #[trigger] fanout(list, bytes)
            },
            Err(EngineError::Core(CoreError::InvalidPageLength)) => {
                &&& !self.well_sealed(bytes, index)
                &&& after.same_state(self)
            },
            Err(EngineError::Store(_)) => {
                &&& !self.store.reliable()
                &&& self.well_sealed(bytes, index)
                &&& after.comms.sent() == self.comms.sent()
                &&& after.store.last() == self.store.last()
                &&& after.store.pages() == self.store.pages() || after.store.pages()
                    == self.store.pages().insert(sig, bytes)
            },
            Err(EngineError::Comms(_)) => {
                &&& !self.comms.reliable()
                &&& self.well_sealed(bytes, index)
                &&& after.store.pages() == self.store.pages().insert(sig, bytes)
                &&& after.store.last() == Some(tip)
                &&& exists|list: Seq<(Id, Peer<C::Address>)>, k: int|
                    lists_peers(list, self.store.peer_map()) && 0 <= k < list.len()
                        && after.comms.sent() == self.comms.sent() + #[trigger] fanout(
                        list.subrange(0, k),
                        bytes,
                    )
            },
            Err(_) => false,
        }
    }

    /// Takes the signed object `bytes` of the local service into the
    /// history as the block `index` of the page `page_index`, and sends it
    /// to the subscribers; see [`Engine::released`]. Returns the object's
    /// signature.
    #[verifier::loop_isolation(false)]
    pub fn release(&mut self, bytes: &[u8], page_index: u16, index: u16) -> (r: Result<
        Signature,
        EngineError<C::Error, S::Error>,
    >)
        requires
            old(self).inv(),
        ensures
            final(self).inv(),
            old(self).released(final(self), bytes@, page_index, index, r),
    {
        let sig = match inspect(bytes) {
            Some(f) => {
                proof {
                    lemma_array32_ext(f.id, self.id);
                }
                if f.index != index || !f.id.same(&self.id) {
                    return Err(EngineError::Core(CoreError::InvalidPageLength));
                }
                f.signature
            },
            None => {
                return Err(EngineError::Core(CoreError::InvalidPageLength));
            },
        };
        match self.store.store_page(&sig, bytes) {
            Ok(()) => {},
            Err(e) => {
                return Err(EngineError::Store(e));
            },
        }
        match self.store.set_last(&ObjectInfo { page_index, block_index: index, sig }) {
            Ok(()) => {},
            Err(e) => {
                return Err(EngineError::Store(e));
            },
        }
        let peers = self.store.peers();
        let ghost mid = *self;
        let mut i: usize = 0;
        assert(fanout(peers@.subrange(0, 0), bytes@) =~= Seq::<Datagram<C::Address>>::empty());
        assert(mid.comms.sent() + Seq::<Datagram<C::Address>>::empty() =~= mid.comms.sent());
        while i < peers.len()
            invariant
                i <= peers@.len(),
                self.inv(),
                self.same_but_comms(&mid),
                self.comms.sent() == mid.comms.sent() + fanout(peers@.subrange(0, i as int), bytes@),
            decreases peers@.len() - i,
        {
            let p = peers[i].1;
            let ghost before = fanout(peers@.subrange(0, i as int), bytes@);
            assert(peers@.subrange(0, i + 1).drop_last() =~= peers@.subrange(0, i as int));
            if p.subscriber {
                match p.addr {
                    Some(addr) => {
                        match self.comms.send(&addr, bytes) {
                            Ok(()) => {},
                            Err(e) => {
                                return Err(EngineError::Comms(e));
                            },
                        }
                        assert(self.comms.sent() =~= mid.comms.sent() + before.push(
                            Datagram { to: Some(addr), data: bytes@ },
                        ));
                    },
                    None => {},
                }
            }
            i += 1;
        }
        assert(peers@.subrange(0, i as int) =~= peers@);
        Ok(sig)
    }

    /// Publishes `data` as the next block of the local service's history;
    /// `options` are public options, in their encoding, that the block
    /// carries.
    ///
    /// Signs with the identity in the store. The block's index is the tip's
    /// plus one, and the block names the tip as its parent; without a tip it
    /// is the first block and has no parent. The signed object is then
    /// released: stored under its signature, made the tip and sent to every
    /// peer that is a subscriber and has an address. Returns the object's
    /// signature.
    ///
    /// Fails with `Core(InvalidOption)` where the options cannot be sent,
    /// with `Core(NoPrivateKey)` where the store holds no private key, as
    /// unhandled where the history is full, and with
    /// `Core(InvalidPageLength)` where the object does not fit the buffers
    /// or comes out of the encoder other than asked for; then nothing has
    /// changed. Failures of the store and of the transport are as
    /// [`Engine::released`] says.
    pub fn publish(&mut self, data: &[u8], options: &[u8]) -> (r: Result<
        Signature,
        EngineError<C::Error, S::Error>,
    >)
        requires
            old(self).inv(),
        ensures
            final(self).inv(),
            old(self).same_but_history(final(self)),
            !sendable(options@, 0) ==> final(self).same_state(old(self)) && (r matches Err(
                EngineError::Core(CoreError::InvalidOption),
            )),
            sendable(options@, 0) ==> match signing_key(old(self).store.ident()) {
                None => {
                    &&& final(self).same_state(old(self))
                    &&& (r matches Err(EngineError::Core(CoreError::NoPrivateKey))) || (!old(
                        self,
                    ).store.reliable() && r matches Err(EngineError::Store(_)))
                },
                Some(key) => match spec_next_block(old(self).store.last()) {
                    None => {
                        &&& final(self).same_state(old(self))
                        &&& (r matches Err(EngineError::Unhandled)) || (!old(
                            self,
                        ).store.reliable() && r matches Err(EngineError::Store(_)))
                    },
                    Some(next) => {
                        ||| (r matches Err(EngineError::Store(_))) && !old(
                            self,
                        ).store.reliable() && final(self).same_state(old(self))
                        ||| if spec_sealed_len(
                            data@.len() as int,
                            options@.len() as int,
                            false,
                            next.2 is Some,
                        ) > old(self).capacity {
                            &&& final(self).same_state(old(self))
                            &&& r matches Err(EngineError::Core(CoreError::InvalidPageLength))
                        } else {
                            &&& old(self).released(
                                final(self),
                                old(self).data_object(key, next.1, next.2, data@, options@),
                                next.0,
                                next.1,
                                r,
                            )
                            &&& r is Ok ==> final(self).store.last() is Some
                                && crate::engine::laws::follows(
                                old(self).store.last(),
                                final(self).store.last()->0,
                            ) && spec_frame(
                                old(self).data_object(key, next.1, next.2, data@, options@),
                            ).index == final(self).store.last()->0.block_index
                        }
                    },
                },
            },
    {
        if !check_options(options) {
            return Err(EngineError::Core(CoreError::InvalidOption));
        }
        let ident = match self.store.get_ident() {
            Ok(k) => k,
            Err(e) => {
                return Err(EngineError::Store(e));
            },
        };
        let key = match ident {
            Some(k) => match k.pri_key {
                Some(key) => key,
                None => {
                    return Err(EngineError::Core(CoreError::NoPrivateKey));
                },
            },
            None => {
                return Err(EngineError::Core(CoreError::NoPrivateKey));
            },
        };
        let last = match self.store.get_last() {
            Ok(l) => l,
            Err(e) => {
                return Err(EngineError::Store(e));
            },
        };
        let (page_index, index, parent) = match next_block(last) {
            Some(n) => n,
            None => {
                return Err(EngineError::Unhandled);
            },
        };
        let overhead: usize = if parent.is_some() {
            MIN_LEN + 68
        } else {
            MIN_LEN
        };
        if data.len() > self.capacity - overhead {
            return Err(EngineError::Core(CoreError::InvalidPageLength));
        }
        if options.len() > self.capacity - overhead - data.len() {
            return Err(EngineError::Core(CoreError::InvalidPageLength));
        }
        assert(0u16 & !0x000du16 == 0) by (bit_vector);
        let bytes = seal(
            A::APPLICATION_ID,
            KIND_DATA,
            0,
            index,
            &self.id,
            data,
            options,
            None,
            parent,
            &key,
            data.len() + options.len() + overhead,
        );
        self.release(bytes.as_slice(), page_index, index)
    }
}

} // verus!
