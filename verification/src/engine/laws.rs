//! What holds of every run of the engine.
use vstd::prelude::*;
use crate::application::Application;
use crate::comms::Comms;
use crate::engine::{spec_next_block, Engine, EngineEvent, FIRST_BLOCK};
use crate::error::EngineError;
use crate::store::{ObjectInfo, Peer, Store, SubscribeState};
use crate::types::{Id, RequestId};
use crate::wire::frame::spec_frame;
use crate::wire::message::{spec_classify, spec_status_ok, Class};

verus! {

/// Whether a publish that succeeds turns the tip `before` into `after`:
/// the block after `before` is the block that `after` names.
pub open spec fn follows(before: Option<ObjectInfo>, after: ObjectInfo) -> bool {
    spec_next_block(before) matches Some(n) && after.page_index == n.0 && after.block_index == n.1
}

/// Whether the tip `a` stands no later in the history than the tip `b`:
/// pages first, then blocks.
pub open spec fn tip_le(a: ObjectInfo, b: ObjectInfo) -> bool {
    a.page_index < b.page_index || (a.page_index == b.page_index && a.block_index
        <= b.block_index)
}

/// One publish: the first block has the first index; every other block has
/// the index of its predecessor plus one, on the same page, and stands
/// strictly later.
pub proof fn lemma_publish_extends(before: Option<ObjectInfo>, after: ObjectInfo)
    requires
        follows(before, after),
    ensures
        before is None ==> after.block_index == FIRST_BLOCK,
        before matches Some(b) ==> after.block_index == b.block_index + 1 && after.page_index
            == b.page_index && tip_le(b, after) && !tip_le(after, b),
{
}

/// Any number of publishes: in a history where each tip follows the one
/// before it, a later tip never stands before an earlier one, and its block
/// index is the earlier one's plus the number of publishes between them.
pub proof fn lemma_history_monotone(tips: Seq<ObjectInfo>, i: int, j: int)
    requires
        forall|k: int| 0 < k < tips.len() ==> follows(Some(tips[k - 1]), #[trigger] tips[k]),
        0 <= i <= j < tips.len(),
    ensures
        tip_le(tips[i], tips[j]),
        tips[j].page_index == tips[i].page_index,
        tips[j].block_index == tips[i].block_index + (j - i),
    decreases j - i,
{
    if i < j {
        lemma_history_monotone(tips, i, j - 1);
        assert(follows(Some(tips[j - 1]), tips[j]));
    }
}

/// Two publishes in a row: where each object declares the block index of
/// the tip it became, the second declares the index of the first plus one.
pub proof fn lemma_indices_one_apart(
    first: Seq<u8>,
    second: Seq<u8>,
    tip: ObjectInfo,
    next: ObjectInfo,
)
    requires
        spec_frame(first).index == tip.block_index,
        spec_frame(second).index == next.block_index,
        follows(Some(tip), next),
    ensures
        spec_frame(second).index == spec_frame(first).index + 1,
        next.page_index == tip.page_index,
{
}

/// The steps of the subscription state machine. Starting a subscription,
/// ending one and taking an acknowledgement each leave the state as it is or
/// take one step along idle, subscribing, subscribed, unsubscribing, idle.
/// An acknowledgement that does not answer the request in flight, or comes
/// while none is in flight, leaves the state as it is.
pub proof fn lemma_steps_valid(s: SubscribeState, rid: RequestId)
    ensures
        s.spec_active() <==> (s is Subscribing || s is Subscribed),
        s.spec_request_subscribe(rid) matches Some(n) ==> s.valid_step(n),
        s.spec_request_subscribe(rid) is Some <==> s is Idle,
        s.spec_request_unsubscribe(rid) matches Some(n) ==> s.valid_step(n),
        s.spec_request_unsubscribe(rid) is Some <==> s is Subscribed,
        s.spec_acknowledged(rid) == s || s.valid_step(s.spec_acknowledged(rid)),
        s.spec_pending() != Some(rid) ==> s.spec_acknowledged(rid) == s,
        s is Idle ==> s.spec_acknowledged(rid) == s,
        s.spec_abandoned(rid) == s || (s.spec_pending() == Some(rid) && s.spec_abandoned(rid)
            is Idle),
{
}

impl<A: Application, C: Comms, S: Store<Address = C::Address>> Engine<A, C, S> {
    /// Whether our subscription to the peer `id` is the same in `after` as
    /// in `self`, or one step further.
    pub open spec fn stepped(&self, after: &Self, id: Id) -> bool {
        after.peer_state(id) == self.peer_state(id) || self.peer_state(id).valid_step(
            after.peer_state(id),
        )
    }

    /// Handling a datagram moves no subscription other than by one step of
    /// the state machine, whatever the datagram holds.
    pub proof fn lemma_handle_steps(
        &self,
        after: &Self,
        from: C::Address,
        data: Seq<u8>,
        r: Result<EngineEvent, EngineError<C::Error, S::Error>>,
        id: Id,
    )
        requires
            self.handled(after, from, data, r),
        ensures
            self.stepped(after, id),
    {
        let f = spec_frame(data);
        lemma_steps_valid(self.peer_state(f.id), f.index);
    }

    /// Handling a datagram that is not accepted changes nothing that can be
    /// observed and reports nothing, no error either: it is dropped.
    pub proof fn lemma_dropped(
        &self,
        after: &Self,
        from: C::Address,
        data: Seq<u8>,
        r: Result<EngineEvent, EngineError<C::Error, S::Error>>,
    )
        requires
            self.handled(after, from, data, r),
            !self.accepts(data),
        ensures
            after.same_state(self),
            crate::store::same_content(&after.store, &self.store),
            r matches Ok(EngineEvent::Nothing),
    {
    }

    /// Maintenance moves a subscription only by giving its request up: the
    /// state is as it was, or was waiting and is idle.
    pub proof fn lemma_update_steps(
        &self,
        after: &Self,
        r: Result<EngineEvent, EngineError<C::Error, S::Error>>,
        id: Id,
    )
        requires
            self.updated(after, r),
        ensures
            after.peer_state(id) == self.peer_state(id) || (self.peer_state(id).spec_pending()
                is Some && after.peer_state(id) is Idle),
    {
    }

    /// One request in flight, whatever is asked again: where a subscribe
    /// request `rid` to the peer `id` is in flight and a call in between has
    /// changed nothing, as a second `subscribe` does, the peer's accepted
    /// acknowledgement of `rid` is reported as the subscription and leaves
    /// the peer subscribed, with no request to it in flight; over a store
    /// that may fail, unless the store failed.
    pub proof fn lemma_one_request_acknowledged(
        &self,
        between: &Self,
        after: &Self,
        from: C::Address,
        data: Seq<u8>,
        r: Result<EngineEvent, EngineError<C::Error, S::Error>>,
        id: Id,
        rid: RequestId,
    )
        requires
            self.peer_state(id) == SubscribeState::Subscribing(rid),
            between.same_state(self),
            between.handled(after, from, data, r),
            between.accepts(data),
            spec_frame(data).id == id,
            spec_frame(data).index == rid,
            spec_classify(
                spec_frame(data).application_id,
                spec_frame(data).kind,
                spec_frame(data).flags,
                spec_frame(data).body_len as int,
            ) == Class::Status,
            spec_status_ok(data),
            between.store.reliable() || r is Ok,
        ensures
            r matches Ok(EngineEvent::SubscribedTo(i)) && i == id,
            after.peer_state(id) is Subscribed,
            after.peer_state(id).spec_pending() is None,
    {
    }

    /// A step on a datagram that is not accepted drops it: where the poll
    /// gave a datagram that fits the buffer and is not parseable, or whose
    /// signature does not hold, nothing is reported, no error either, and
    /// nothing that can be observed has changed.
    pub proof fn lemma_step_drops(
        &self,
        after: &Self,
        n: usize,
        from: C::Address,
        buff: Seq<u8>,
        r: Result<EngineEvent, EngineError<C::Error, S::Error>>,
    )
        requires
            n <= buff.len(),
            self.step_outcome(after, Ok(Some((n, from))), buff, r),
            !self.accepts(buff.subrange(0, n as int)),
        ensures
            r matches Ok(EngineEvent::Nothing),
            after.same_state(self),
    {
    }

    /// Over a store and a transport that do not fail, handling never hands
    /// on an error of theirs, and the three steps of a subscription are
    /// reported as what they are: an accepted subscribe request for the
    /// local service as the subscription of its sender, an accepted
    /// acknowledgement of the request in flight as our subscription, and an
    /// accepted data object of a peer we are subscribed to as its data.
    pub proof fn lemma_reliable_steps(
        &self,
        after: &Self,
        from: C::Address,
        data: Seq<u8>,
        r: Result<EngineEvent, EngineError<C::Error, S::Error>>,
    )
        requires
            self.store.reliable(),
            self.comms.reliable(),
            self.handled(after, from, data, r),
        ensures
            !(r matches Err(EngineError::Store(_))),
            !(r matches Err(EngineError::Comms(_))),
            !(r matches Err(EngineError::Core(_))),
            !(r matches Err(EngineError::Unhandled)),
            ({
                let f = spec_frame(data);
                let class = spec_classify(f.application_id, f.kind, f.flags, f.body_len as int);
                let peer = crate::store::peer_or_default(self.store.peer_map(), f.id);
                &&& (r matches Err(EngineError::Unsupported)) <==> self.accepts(data) && class
                    == Class::Unsupported
                &&& self.accepts(data) && class == Class::Subscribe
                    && crate::wire::message::spec_target(data) == self.id@ ==> (
                r matches Ok(EngineEvent::SubscribeFrom(id)) && id == f.id)
                &&& self.accepts(data) && class == Class::Status && spec_status_ok(data)
                    && self.peer_state(f.id) == SubscribeState::Subscribing(f.index) ==> (
                r matches Ok(EngineEvent::SubscribedTo(id)) && id == f.id) && after.peer_state(
                    f.id,
                ) is Subscribed
                &&& self.accepts(data) && class == Class::Data && f.application_id
                    == A::APPLICATION_ID && peer.spec_subscribed() && peer.keys.pub_key is Some
                    ==> (r matches Ok(EngineEvent::ReceivedData(id, sig)) && id == f.id && sig
                    == f.signature) && after.store.pages().contains_key(f.signature)
            }),
    {
    }

    /// A tick takes what is pending: where the poll did not fail, the
    /// transport has its oldest datagram no longer pending, or had none. With
    /// none pending the tick is one update; else it is one handling of that
    /// datagram, cut to the buffer. Over a transport and a store that do not
    /// fail it hands on no error.
    pub proof fn lemma_tick_takes_pending(
        &self,
        mid: &Self,
        after: &Self,
        polled: Result<Option<(usize, C::Address)>, C::Error>,
        buff: Seq<u8>,
        r: Result<EngineEvent, EngineError<C::Error, S::Error>>,
    )
        requires
            self.poll_gave(mid, polled, buff),
            mid.step_outcome(after, polled, buff, r),
        ensures
            polled is Ok ==> after.comms.pending() == if self.comms.pending().len() > 0 {
                self.comms.pending().drop_first()
            } else {
                self.comms.pending()
            },
            polled matches Ok(None) ==> self.comms.pending().len() == 0 && mid.updated(after, r),
            polled matches Ok(Some(got)) ==> got.0 <= buff.len() && got.1
                == self.comms.pending()[0].from && mid.handled(
                after,
                got.1,
                buff.subrange(0, got.0 as int),
                r,
            ),
            self.comms.reliable() ==> polled is Ok && !(r matches Err(EngineError::Comms(_))),
            self.store.reliable() ==> !(r matches Err(EngineError::Store(_))),
            !(r matches Err(EngineError::Core(_))),
            !(r matches Err(EngineError::Unhandled)),
    {
    }

    /// The engine's own error in handling comes for one reason: a datagram
    /// is refused as unsupported exactly where it is accepted and is a
    /// request or response of a kind that is not implemented. Handling never
    /// fails as unhandled or with an error of the core library's. An object
    /// that is ignored, an unsupported one and a discovery request never
    /// hand on a failure of the store.
    pub proof fn lemma_own_errors(
        &self,
        after: &Self,
        from: C::Address,
        data: Seq<u8>,
        r: Result<EngineEvent, EngineError<C::Error, S::Error>>,
    )
        requires
            self.handled(after, from, data, r),
        ensures
            ({
                let f = spec_frame(data);
                let class = spec_classify(f.application_id, f.kind, f.flags, f.body_len as int);
                &&& (r matches Err(EngineError::Unsupported)) <==> self.accepts(data) && class
                    == Class::Unsupported
                &&& !(r matches Err(EngineError::Core(_)))
                &&& !(r matches Err(EngineError::Unhandled))
                &&& (r matches Err(EngineError::Store(_))) ==> self.accepts(data) && (class
                    == Class::Found || class == Class::Subscribe || class == Class::Unsubscribe
                    || class == Class::Status || class == Class::Data)
                &&& (r matches Err(EngineError::Comms(_))) ==> self.accepts(data) && (class
                    == Class::Discover || class == Class::Subscribe || class
                    == Class::Unsubscribe)
                &&& self.accepts(data) && class == Class::Ignored ==> self.dropped(after, r)
            }),
    {
    }
}

} // verus!
