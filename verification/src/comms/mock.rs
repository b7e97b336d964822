//! Transport that keeps everything in memory, for trying an engine out.
use vstd::prelude::*;
use crate::comms::{Arrival, Comms, Datagram};

verus! {

/// Why an operation of a [`MockComms`] failed. None ever does.
#[derive(Clone, Copy, Debug, PartialEq, Eq)]
pub struct MockError;

/// A datagram kept by a [`MockComms`].
#[derive(Debug, PartialEq, Eq)]
pub struct Packet {
    /// The destination of a sent datagram, `None` for a broadcast; the
    /// sender of a received one.
    pub peer: Option<u8>,
    /// The bytes.
    pub data: Vec<u8>,
}

/// In-memory transport with one-byte addresses: what is sent is appended to
/// `tx`, what is received is taken from the front of `rx`.
pub struct MockComms {
    pub tx: Vec<Packet>,
    pub rx: Vec<Packet>,
}

/// The datagrams that the packets `tx` stand for.
pub open spec fn datagrams(tx: Seq<Packet>) -> Seq<Datagram<u8>> {
    tx.map_values(|p: Packet| Datagram { to: p.peer, data: p.data@ })
}

/// The sender of a packet that waits to be received; a packet without one
/// counts as sent from address 0.
pub open spec fn sender(p: Packet) -> u8 {
    match p.peer {
        Some(a) => a,
        None => 0u8,
    }
}

/// The arrivals that the packets `rx` stand for.
pub open spec fn arrivals(rx: Seq<Packet>) -> Seq<Arrival<u8>> {
    rx.map_values(|p: Packet| Arrival { from: sender(p), data: p.data@ })
}

/// A copy of `data`.
fn copy_all(data: &[u8]) -> (v: Vec<u8>)
    ensures
        v@ == data@,
{
    let n = data.len();
    let mut v: Vec<u8> = Vec::new();
    let mut i: usize = 0;
    while i < n
        invariant
            i <= n == data@.len(),
            v@ == data@.subrange(0, i as int),
        decreases n - i,
    {
        v.push(data[i]);
        assert(data@.subrange(0, i + 1) =~= data@.subrange(0, i as int).push(data@[i as int]));
        i += 1;
    }
    assert(data@.subrange(0, n as int) =~= data@);
    v
}

impl Default for MockComms {
    fn default() -> (c: MockComms)
        ensures
            c.tx@.len() == 0,
            c.rx@.len() == 0,
    {
        MockComms { tx: Vec::new(), rx: Vec::new() }
    }
}

impl MockComms {
    /// Queues a datagram from `from` for a later `recv`.
    pub fn deliver(&mut self, from: u8, data: &[u8])
        ensures
            final(self).tx == old(self).tx,
            final(self).pending() == old(self).pending().push(Arrival { from, data: data@ }),
            final(self).rx@.len() == old(self).rx@.len() + 1,
            final(self).rx@.subrange(0, old(self).rx@.len() as int) == old(self).rx@,
            final(self).rx@.last().peer == Some(from),
            final(self).rx@.last().data@ == data@,
    {
        let ghost before = self.rx@;
        self.rx.push(Packet { peer: Some(from), data: copy_all(data) });
        assert(self.rx@.subrange(0, before.len() as int) =~= before);
        assert(arrivals(self.rx@) =~= arrivals(before).push(Arrival { from, data: data@ }));
    }

    /// Hands out the oldest sent datagram that has not been taken yet.
    pub fn take_sent(&mut self) -> (p: Option<Packet>)
        ensures
            final(self).rx == old(self).rx,
            old(self).tx@.len() == 0 ==> p is None && final(self).tx@ == old(self).tx@,
            old(self).tx@.len() > 0 ==> p == Some(old(self).tx@[0]) && final(self).tx@ == old(
                self,
            ).tx@.subrange(1, old(self).tx@.len() as int),
    {
        if self.tx.len() == 0 {
            None
        } else {
            let p = self.tx.remove(0);
            assert(self.tx@ =~= old(self).tx@.subrange(1, old(self).tx@.len() as int));
            Some(p)
        }
    }
}

impl Comms for MockComms {
    type Address = u8;

    type Error = MockError;

    open spec fn inv(&self) -> bool {
        true
    }

    open spec fn sent(&self) -> Seq<Datagram<u8>> {
        datagrams(self.tx@)
    }

    open spec fn pending(&self) -> Seq<Arrival<u8>> {
        arrivals(self.rx@)
    }

    open spec fn reliable(&self) -> bool {
        true
    }

    fn recv(&mut self, buff: &mut [u8]) -> (r: Result<Option<(usize, u8)>, MockError>)
        ensures
            final(self).tx == old(self).tx,
            old(self).rx@.len() == 0 ==> final(self).rx@ == old(self).rx@ && final(buff)@ == old(
                buff,
            )@,
            old(self).rx@.len() > 0 ==> final(self).rx@ == old(self).rx@.subrange(
                1,
                old(self).rx@.len() as int,
            ),
            r matches Ok(Some(got)) ==> final(buff)@.subrange(
                got.0 as int,
                old(buff)@.len() as int,
            ) == old(buff)@.subrange(got.0 as int, old(buff)@.len() as int),
    {
        if self.rx.len() == 0 {
            return Ok(None);
        }
        let p = self.rx.remove(0);
        assert(self.rx@ =~= old(self).rx@.subrange(1, old(self).rx@.len() as int));
        assert(arrivals(self.rx@) =~= arrivals(old(self).rx@).drop_first());
        assert(arrivals(old(self).rx@)[0] == Arrival { from: sender(p), data: p.data@ });
        let from = match p.peer {
            Some(a) => a,
            None => 0,
        };
        let n = if p.data.len() < buff.len() {
            p.data.len()
        } else {
            buff.len()
        };
        let ghost before = buff@;
        let mut i: usize = 0;
        while i < n
            invariant
                i <= n <= p.data@.len(),
                n <= buff@.len(),
                buff@.len() == before.len(),
                forall|k: int| 0 <= k < i ==> buff@[k] == p.data@[k],
                forall|k: int| i <= k < buff@.len() ==> buff@[k] == before[k],
            decreases n - i,
        {
            buff[i] = p.data[i];
            i += 1;
        }
        assert(buff@.subrange(0, n as int) =~= p.data@.subrange(0, n as int));
        assert(buff@.subrange(n as int, before.len() as int) =~= before.subrange(
            n as int,
            before.len() as int,
        ));
        Ok(Some((n, from)))
    }

    fn send(&mut self, to: &u8, data: &[u8]) -> (r: Result<(), MockError>)
        ensures
            r is Ok,
            final(self).rx == old(self).rx,
    {
        self.tx.push(Packet { peer: Some(*to), data: copy_all(data) });
        assert(datagrams(self.tx@) =~= datagrams(old(self).tx@).push(
            Datagram { to: Some(*to), data: data@ },
        ));
        Ok(())
    }

    fn broadcast(&mut self, data: &[u8]) -> (r: Result<(), MockError>)
        ensures
            r is Ok,
            final(self).rx == old(self).rx,
    {
        self.tx.push(Packet { peer: None, data: copy_all(data) });
        assert(datagrams(self.tx@) =~= datagrams(old(self).tx@).push(
            Datagram { to: None, data: data@ },
        ));
        Ok(())
    }
}

} // verus!
