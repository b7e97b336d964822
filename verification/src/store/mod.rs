//! What the engine remembers: identity, history tip, peers and pages.
use vstd::prelude::*;
use crate::types::{Id, Keys, RequestId, Signature};

pub mod assoc;
pub mod flags;
pub mod mem;
pub mod record;

pub use flags::StoreFlags;
pub use mem::MemoryStore;

verus! {

/// Tip of the local, append-only object history.
#[derive(Clone, Copy, Debug, PartialEq, Eq)]
pub struct ObjectInfo {
    /// Version of the service's primary page.
    pub page_index: u16,
    /// Index of the last published block.
    pub block_index: u16,
    /// Signature of the last published object.
    pub sig: Signature,
}

/// Our subscription to a peer, as a four-state machine.
#[derive(Clone, Copy, Debug, PartialEq, Eq, Structural)]
pub enum SubscribeState {
    /// Not subscribed.
    Idle,
    /// A subscribe request is in flight.
    Subscribing(RequestId),
    /// The peer acknowledged our subscription.
    Subscribed,
    /// An unsubscribe request is in flight.
    Unsubscribing(RequestId),
}

impl SubscribeState {
    /// The two chains of the state machine, step by step:
    /// idle, subscribing, subscribed; subscribed, unsubscribing, idle.
    pub open spec fn valid_step(self, next: SubscribeState) -> bool {
        ||| self is Idle && next is Subscribing
        ||| self is Subscribing && next is Subscribed
        ||| self is Subscribed && next is Unsubscribing
        ||| self is Unsubscribing && next is Idle
    }

    /// Whether a subscription is in effect or being established.
    pub open spec fn spec_active(self) -> bool {
        self is Subscribing || self is Subscribed
    }

    /// The request that is in flight, if any.
    pub open spec fn spec_pending(self) -> Option<RequestId> {
        match self {
            SubscribeState::Subscribing(r) => Some(r),
            SubscribeState::Unsubscribing(r) => Some(r),
            _ => None,
        }
    }

    /// State after the local node asked to subscribe with request `req_id`.
    pub open spec fn spec_request_subscribe(self, req_id: RequestId) -> Option<SubscribeState> {
        if self is Idle {
            Some(SubscribeState::Subscribing(req_id))
        } else {
            None
        }
    }

    /// State after the local node asked to unsubscribe with request `req_id`.
    pub open spec fn spec_request_unsubscribe(self, req_id: RequestId) -> Option<SubscribeState> {
        if self is Subscribed {
            Some(SubscribeState::Unsubscribing(req_id))
        } else {
            None
        }
    }

    /// State after the peer acknowledged request `req_id`.
    pub open spec fn spec_acknowledged(self, req_id: RequestId) -> SubscribeState {
        match self {
            SubscribeState::Subscribing(r) if r == req_id => SubscribeState::Subscribed,
            SubscribeState::Unsubscribing(r) if r == req_id => SubscribeState::Idle,
            _ => self,
        }
    }

    /// State after request `req_id` was given up.
    pub open spec fn spec_abandoned(self, req_id: RequestId) -> SubscribeState {
        if self.spec_pending() == Some(req_id) {
            SubscribeState::Idle
        } else {
            self
        }
    }

    /// Whether a subscription is in effect or being established.
    #[verifier::when_used_as_spec(spec_active)]
    pub fn active(self) -> (r: bool)
        ensures
            r == self.spec_active(),
    {
        match self {
            SubscribeState::Subscribing(_) => true,
            SubscribeState::Subscribed => true,
            _ => false,
        }
    }

    /// The request that is in flight, if any.
    #[verifier::when_used_as_spec(spec_pending)]
    pub fn pending(self) -> (r: Option<RequestId>)
        ensures
            r == self.spec_pending(),
    {
        match self {
            SubscribeState::Subscribing(r) => Some(r),
            SubscribeState::Unsubscribing(r) => Some(r),
            _ => None,
        }
    }

    /// Starts a subscription: from idle to subscribing. Any other state
    /// refuses, so no second request is ever in flight.
    pub fn request_subscribe(self, req_id: RequestId) -> (next: Option<SubscribeState>)
        ensures
            next == self.spec_request_subscribe(req_id),
            next matches Some(n) ==> self.valid_step(n),
    {
        match self {
            SubscribeState::Idle => Some(SubscribeState::Subscribing(req_id)),
            _ => None,
        }
    }

    /// Starts the end of a subscription: from subscribed to unsubscribing.
    pub fn request_unsubscribe(self, req_id: RequestId) -> (next: Option<SubscribeState>)
        ensures
            next == self.spec_request_unsubscribe(req_id),
            next matches Some(n) ==> self.valid_step(n),
    {
        match self {
            SubscribeState::Subscribed => Some(SubscribeState::Unsubscribing(req_id)),
            _ => None,
        }
    }

    /// Applies the peer's acknowledgement of request `req_id`. A response
    /// that does not answer the request in flight changes nothing.
    pub fn acknowledged(self, req_id: RequestId) -> (next: SubscribeState)
        ensures
            next == self.spec_acknowledged(req_id),
            next == self || self.valid_step(next),
            self.spec_pending() != Some(req_id) ==> next == self,
    {
        match self {
            SubscribeState::Subscribing(r) => {
                if r == req_id {
                    SubscribeState::Subscribed
                } else {
                    self
                }
            },
            SubscribeState::Unsubscribing(r) => {
                if r == req_id {
                    SubscribeState::Idle
                } else {
                    self
                }
            },
            _ => self,
        }
    }

    /// Gives request `req_id` up: the state falls back to idle.
    pub fn abandoned(self, req_id: RequestId) -> (next: SubscribeState)
        ensures
            next == self.spec_abandoned(req_id),
            self.spec_pending() != Some(req_id) ==> next == self,
    {
        match self {
            SubscribeState::Subscribing(r) => {
                if r == req_id {
                    SubscribeState::Idle
                } else {
                    self
                }
            },
            SubscribeState::Unsubscribing(r) => {
                if r == req_id {
                    SubscribeState::Idle
                } else {
                    self
                }
            },
            _ => self,
        }
    }
}

/// What is known of one remote service.
#[derive(Copy, Debug, PartialEq)]
pub struct Peer<Addr: Copy> {
    /// Keys that verify the peer's objects.
    pub keys: Keys,
    /// Last address the peer was reached at.
    pub addr: Option<Addr>,
    /// Whether the peer receives what we publish.
    pub subscriber: bool,
    /// Our subscription to the peer.
    pub subscribed: SubscribeState,
}

impl<Addr: Copy> Peer<Addr> {
    /// A peer of which nothing is known.
    pub open spec fn spec_default() -> Peer<Addr> {
        Peer {
            keys: Keys::spec_empty(),
            addr: None,
            subscriber: false,
            subscribed: SubscribeState::Idle,
        }
    }

    /// Whether our subscription to the peer is in effect or being established.
    pub open spec fn spec_subscribed(&self) -> bool {
        self.subscribed is Subscribing || self.subscribed is Subscribed
    }

    /// Whether our subscription to the peer is in effect or being established.
    #[verifier::when_used_as_spec(spec_subscribed)]
    pub fn subscribed(&self) -> (r: bool)
        ensures
            r == self.spec_subscribed(),
            r <==> (self.subscribed is Subscribing || self.subscribed is Subscribed),
    {
        if let SubscribeState::Subscribing(_) = self.subscribed {
            true
        } else if self.subscribed == SubscribeState::Subscribed {
            true
        } else {
            false
        }
    }
}

impl<Addr: Copy> Clone for Peer<Addr> {
    fn clone(&self) -> (p: Peer<Addr>)
        ensures
            p == *self,
    {
        *self
    }
}

impl<Addr: Copy> Default for Peer<Addr> {
    fn default() -> (p: Peer<Addr>)
        ensures
            p == Peer::<Addr>::spec_default(),
    {
        Peer { keys: Keys::empty(), addr: None, subscriber: false, subscribed: SubscribeState::Idle }
    }
}

} // verus!

verus! {

/// The peer recorded under `id`, or a default peer where none is.
pub open spec fn peer_or_default<A: Copy>(peers: Map<Id, Peer<A>>, id: Id) -> Peer<A> {
    if peers.contains_key(id) {
        peers[id]
    } else {
        Peer::<A>::spec_default()
    }
}

/// Whether `list` holds every peer of `peers` exactly once, and nothing else.
pub open spec fn lists_peers<A: Copy>(list: Seq<(Id, Peer<A>)>, peers: Map<Id, Peer<A>>) -> bool {
    &&& forall|i: int|
        0 <= i < list.len() ==> peers.contains_key((#[trigger] list[i]).0) && peers[list[i].0]
            == list[i].1
    &&& forall|id: Id|
        peers.contains_key(id) ==> exists|i: int| 0 <= i < list.len() && (#[trigger] list[i]).0 == id
    &&& forall|i: int, j: int|
        0 <= i < j < list.len() ==> (#[trigger] list[i]).0 != (#[trigger] list[j]).0
}

/// Whether the stores `a` and `b` hold the same identity, tip, peers and pages.
pub open spec fn same_content<S: Store>(a: &S, b: &S) -> bool {
    &&& a.ident() == b.ident()
    &&& a.last() == b.last()
    &&& a.peer_map() == b.peer_map()
    &&& a.pages() == b.pages()
}

/// Whether storing `page` under `sig` turns the store `before` into `after`:
/// the page stands under its signature and nothing else has changed.
pub open spec fn page_stored<S: Store>(before: &S, after: &S, sig: Signature, page: Seq<u8>) -> bool {
    &&& after.ident() == before.ident()
    &&& after.last() == before.last()
    &&& after.peer_map() == before.peer_map()
    &&& after.pages() == before.pages().insert(sig, page)
}

/// Storing a page a second time changes nothing: the store after the
/// second time holds what it held after the first.
pub proof fn lemma_store_page_idempotent<S: Store>(
    before: &S,
    once: &S,
    twice: &S,
    sig: Signature,
    page: Seq<u8>,
)
    requires
        page_stored(before, once, sig, page),
        page_stored(once, twice, sig, page),
    ensures
        same_content(twice, once),
{
    assert(once.pages().insert(sig, page) =~= once.pages());
}

/// A page that was stored is the page that is found under its signature,
/// byte for byte: header, origin, body, options and signature.
pub proof fn lemma_stored_page_found<S: Store>(before: &S, after: &S, sig: Signature, page: Seq<u8>)
    requires
        page_stored(before, after, sig, page),
    ensures
        after.pages().contains_key(sig),
        after.pages()[sig] == page,
        crate::wire::frame::spec_frame(after.pages()[sig]) == crate::wire::frame::spec_frame(page),
        crate::wire::frame::spec_body(after.pages()[sig]) == crate::wire::frame::spec_body(page),
        crate::wire::frame::spec_public_options(after.pages()[sig])
            == crate::wire::frame::spec_public_options(page),
        crate::wire::frame::spec_private_options(after.pages()[sig])
            == crate::wire::frame::spec_private_options(page),
        crate::wire::frame::spec_signature(after.pages()[sig]) == crate::wire::frame::spec_signature(
            page,
        ),
{
}

/// Durable home of everything the engine must remember.
///
/// A store is described by four values: the local identity, the history
/// tip, the peers by identifier and the pages by signature. Every operation
/// either succeeds and changes these as stated, or fails and leaves all four
/// as they were.
///
/// A store may say of itself that it is reliable: then its operations do
/// not fail.
///
/// An implementation that is verified says what the four values, `inv` and
/// `reliable` are. One that is not need not define them: the values are
/// then left unspecified and the store does not count as reliable, and what
/// is proved of an engine over it holds as far as the implementation keeps
/// the contracts of the operations.
pub trait Store: Sized {
    /// How a peer's network address is represented.
    type Address: Copy;

    /// What a failed operation reports.
    type Error;

    /// What every usable store satisfies; each operation preserves it.
    open spec fn inv(&self) -> bool {
        true
    }

    /// The local identity.
    open spec fn ident(&self) -> Option<Keys> {
        arbitrary()
    }

    /// The history tip.
    open spec fn last(&self) -> Option<ObjectInfo> {
        arbitrary()
    }

    /// The known peers.
    open spec fn peer_map(&self) -> Map<Id, Peer<Self::Address>> {
        arbitrary()
    }

    /// The stored pages, each under its signature.
    open spec fn pages(&self) -> Map<Signature, Seq<u8>> {
        arbitrary()
    }

    /// Whether no operation of this store fails, but for `fetch_page` into a
    /// buffer that is shorter than the page.
    open spec fn reliable(&self) -> bool {
        false
    }

    /// The capabilities of this backend.
    fn features(&self) -> StoreFlags;

    /// Reads the local identity.
    fn get_ident(&self) -> (r: Result<Option<Keys>, Self::Error>)
        requires
            self.inv(),
        ensures
            self.reliable() ==> r is Ok,
            r matches Ok(k) ==> k == self.ident(),
    ;

    /// Replaces the local identity.
    fn set_ident(&mut self, keys: &Keys) -> (r: Result<(), Self::Error>)
        requires
            old(self).inv(),
        ensures
            final(self).inv(),
            final(self).reliable() == old(self).reliable(),
            old(self).reliable() ==> r is Ok,
            final(self).last() == old(self).last(),
            final(self).peer_map() == old(self).peer_map(),
            final(self).pages() == old(self).pages(),
            r is Ok ==> final(self).ident() == Some(*keys),
            r is Err ==> final(self).ident() == old(self).ident(),
    ;

    /// Reads the history tip.
    fn get_last(&self) -> (r: Result<Option<ObjectInfo>, Self::Error>)
        requires
            self.inv(),
        ensures
            self.reliable() ==> r is Ok,
            r matches Ok(i) ==> i == self.last(),
    ;

    /// Replaces the history tip.
    fn set_last(&mut self, info: &ObjectInfo) -> (r: Result<(), Self::Error>)
        requires
            old(self).inv(),
        ensures
            final(self).inv(),
            final(self).reliable() == old(self).reliable(),
            old(self).reliable() ==> r is Ok,
            final(self).ident() == old(self).ident(),
            final(self).peer_map() == old(self).peer_map(),
            final(self).pages() == old(self).pages(),
            r is Ok ==> final(self).last() == Some(*info),
            r is Err ==> final(self).last() == old(self).last(),
    ;

    /// Looks a peer up; an unknown peer is `None`, not an error.
    fn get_peer(&self, id: &Id) -> (r: Result<Option<Peer<Self::Address>>, Self::Error>)
        requires
            self.inv(),
        ensures
            self.reliable() ==> r is Ok,
            r matches Ok(p) ==> p == (if self.peer_map().contains_key(*id) {
                Some(self.peer_map()[*id])
            } else {
                None::<Peer<Self::Address>>
            }),
    ;

    /// The keys on record for the peer `id`, `None` for an unknown peer. This
    /// lookup does not fail.
    fn keys(&self, id: &Id) -> (k: Option<Keys>)
        requires
            self.inv(),
        ensures
            k == (if self.peer_map().contains_key(*id) {
                Some(self.peer_map()[*id].keys)
            } else {
                None::<Keys>
            }),
    ;

    /// Applies `f` to the peer recorded under `id`, or to a default peer
    /// where none is, records the peer that `f` returns and hands back
    /// what else `f` returns. No other peer changes.
    fn update_peer<R, F: Fn(Peer<Self::Address>) -> (Peer<Self::Address>, R)>(
        &mut self,
        id: &Id,
        f: F,
    ) -> (r: Result<R, Self::Error>)
        requires
            old(self).inv(),
            call_requires(f, (peer_or_default(old(self).peer_map(), *id),)),
        ensures
            final(self).inv(),
            final(self).reliable() == old(self).reliable(),
            old(self).reliable() ==> r is Ok,
            final(self).ident() == old(self).ident(),
            final(self).last() == old(self).last(),
            final(self).pages() == old(self).pages(),
            r is Err ==> final(self).peer_map() == old(self).peer_map(),
            r matches Ok(v) ==> {
                &&& final(self).peer_map().contains_key(*id)
                &&& final(self).peer_map() == old(self).peer_map().insert(
                    *id,
                    final(self).peer_map()[*id],
                )
                &&& call_ensures(
                    f,
                    (peer_or_default(old(self).peer_map(), *id),),
                    (final(self).peer_map()[*id], v),
                )
            },
    ;

    /// Every known peer with its identifier, each once, in no stated order.
    fn peers(&self) -> (list: Vec<(Id, Peer<Self::Address>)>)
        requires
            self.inv(),
        ensures
            lists_peers(list@, self.peer_map()),
    ;

    /// Stores the bytes of a page under its signature.
    fn store_page(&mut self, sig: &Signature, page: &[u8]) -> (r: Result<(), Self::Error>)
        requires
            old(self).inv(),
        ensures
            final(self).inv(),
            final(self).reliable() == old(self).reliable(),
            old(self).reliable() ==> r is Ok,
            final(self).ident() == old(self).ident(),
            final(self).last() == old(self).last(),
            final(self).peer_map() == old(self).peer_map(),
            r is Ok ==> final(self).pages() == old(self).pages().insert(*sig, page@),
            r is Err ==> final(self).pages() == old(self).pages(),
    ;

    /// Copies the page stored under `sig` to the front of `buff` and returns
    /// its length; `None` where no page is stored under `sig`. Fails where
    /// `buff` is shorter than the page. The store itself does not change.
    fn fetch_page(&mut self, sig: &Signature, buff: &mut [u8]) -> (r: Result<
        Option<usize>,
        Self::Error,
    >)
        requires
            old(self).inv(),
        ensures
            final(self).inv(),
            final(self).reliable() == old(self).reliable(),
            old(self).reliable() ==> (r is Err <==> old(self).pages().contains_key(*sig) && old(
                buff,
            )@.len() < old(self).pages()[*sig].len()),
            final(self).ident() == old(self).ident(),
            final(self).last() == old(self).last(),
            final(self).peer_map() == old(self).peer_map(),
            final(self).pages() == old(self).pages(),
            final(buff)@.len() == old(buff)@.len(),
            r matches Ok(Some(n)) ==> {
                &&& old(self).pages().contains_key(*sig)
                &&& n == old(self).pages()[*sig].len()
                &&& n <= old(buff)@.len()
                &&& final(buff)@.subrange(0, n as int) == old(self).pages()[*sig]
                &&& final(buff)@.subrange(n as int, old(buff)@.len() as int) == old(buff)@.subrange(
                    n as int,
                    old(buff)@.len() as int,
                )
            },
            r matches Ok(None) ==> !old(self).pages().contains_key(*sig) && final(buff)@ == old(
                buff,
            )@,
            old(self).pages().contains_key(*sig) && old(buff)@.len() < old(self).pages()[*sig].len()
                ==> r is Err,
    ;
}

} // verus!
