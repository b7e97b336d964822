//! Datagram transport as the engine sees it.
use vstd::prelude::*;

pub mod mock;
pub mod udp;

verus! {

/// A datagram that was handed to the transport: where to, and what.
/// A broadcast has no destination.
pub ghost struct Datagram<A> {
    pub to: Option<A>,
    pub data: Seq<u8>,
}

/// A datagram that has come in and waits to be taken: where from, and what.
pub ghost struct Arrival<A> {
    pub from: A,
    pub data: Seq<u8>,
}

/// The smaller of two lengths.
pub open spec fn spec_min(a: int, b: int) -> int {
    if a < b {
        a
    } else {
        b
    }
}

/// Non-blocking, unreliable datagram transport.
///
/// A transport is described by the datagrams it has accepted for sending and
/// by those that have come in and are pending, each oldest first. Nothing is
/// promised of the delivery of what is sent. A transport may say of itself
/// that it is reliable: then none of its operations fails.
///
/// An implementation that is verified says what `inv`, `sent`, `pending` and
/// `reliable` are. One that is not need not define them: the first three
/// are then left unspecified and the transport does not count as reliable,
/// and what is proved of an engine over it holds as far as the
/// implementation keeps the contracts of the three operations.
pub trait Comms: Sized {
    /// How a peer is addressed.
    type Address: Copy;

    /// What a failed operation reports.
    type Error;

    /// What every usable transport satisfies; each operation preserves it.
    open spec fn inv(&self) -> bool {
        true
    }

    /// The datagrams accepted for sending so far.
    open spec fn sent(&self) -> Seq<Datagram<Self::Address>> {
        arbitrary()
    }

    /// The datagrams that have come in and not been taken yet.
    open spec fn pending(&self) -> Seq<Arrival<Self::Address>> {
        arbitrary()
    }

    /// Whether no operation of this transport fails.
    open spec fn reliable(&self) -> bool {
        false
    }

    /// Takes the oldest pending datagram, if there is one: writes it to the
    /// front of `buff`, cut to the length of `buff`, and returns the length
    /// written and the sender. Returns `None` at once where nothing is
    /// pending.
    fn recv(&mut self, buff: &mut [u8]) -> (r: Result<Option<(usize, Self::Address)>, Self::Error>)
        requires
            old(self).inv(),
        ensures
            final(self).inv(),
            final(self).sent() == old(self).sent(),
            final(self).reliable() == old(self).reliable(),
            final(buff)@.len() == old(buff)@.len(),
            old(self).reliable() ==> r is Ok,
            r is Err ==> final(self).pending() == old(self).pending(),
            r matches Ok(None) ==> old(self).pending().len() == 0 && final(self).pending() == old(
                self,
            ).pending(),
            r matches Ok(Some(got)) ==> {
                &&& old(self).pending().len() > 0
                &&& final(self).pending() == old(self).pending().drop_first()
                &&& got.1 == old(self).pending()[0].from
                &&& got.0 == spec_min(
                    old(self).pending()[0].data.len() as int,
                    old(buff)@.len() as int,
                )
                &&& final(buff)@.subrange(0, got.0 as int) == old(self).pending()[0].data.subrange(
                    0,
                    got.0 as int,
                )
            },
    ;

    /// Hands `data` to the transport for the peer at `to`.
    fn send(&mut self, to: &Self::Address, data: &[u8]) -> (r: Result<(), Self::Error>)
        requires
            old(self).inv(),
        ensures
            final(self).inv(),
            final(self).pending() == old(self).pending(),
            final(self).reliable() == old(self).reliable(),
            old(self).reliable() ==> r is Ok,
            r is Ok ==> final(self).sent() == old(self).sent().push(
                Datagram { to: Some(*to), data: data@ },
            ),
            r is Err ==> final(self).sent() == old(self).sent(),
    ;

    /// Hands `data` to the transport for everyone on the local segment.
    fn broadcast(&mut self, data: &[u8]) -> (r: Result<(), Self::Error>)
        requires
            old(self).inv(),
        ensures
            final(self).inv(),
            final(self).pending() == old(self).pending(),
            final(self).reliable() == old(self).reliable(),
            old(self).reliable() ==> r is Ok,
            r is Ok ==> final(self).sent() == old(self).sent().push(
                Datagram { to: None, data: data@ },
            ),
            r is Err ==> final(self).sent() == old(self).sent(),
    ;
}

} // verus!
