//! Store that lives in memory and forgets everything with the process.
use vstd::prelude::*;
use crate::store::assoc::{distinct_keys, has_key, lemma_absent, lemma_lookup, lemma_push, lemma_update, to_map};
use crate::store::record::load_page;
use crate::store::{ObjectInfo, Peer, Store, StoreFlags};
use crate::types::{Id, Keys, Signature};

verus! {

/// Why an operation of a [`MemoryStore`] failed.
#[derive(Clone, Copy, Debug, PartialEq, Eq)]
pub enum MemoryError {
    /// The buffer handed to `fetch_page` is shorter than the page.
    BufferTooSmall,
}

/// In-memory store: two options and two association lists.
pub struct MemoryStore<Addr: Copy> {
    pub our_keys: Option<Keys>,
    pub last_sig: Option<ObjectInfo>,
    pub peers: Vec<(Id, Peer<Addr>)>,
    pub pages: Vec<(Signature, Vec<u8>)>,
}

impl<Addr: Copy> MemoryStore<Addr> {
    /// The stored pages as pairs of signature and bytes.
    pub open spec fn page_seq(&self) -> Seq<(Signature, Seq<u8>)> {
        self.pages@.map_values(|e: (Signature, Vec<u8>)| (e.0, e.1@))
    }

    /// An empty store.
    pub fn new() -> (s: MemoryStore<Addr>)
        ensures
            s.inv(),
            s.ident() is None,
            s.last() is None,
            s.peer_map() == Map::<Id, Peer<Addr>>::empty(),
            s.pages() == Map::<Signature, Seq<u8>>::empty(),
    {
        let s = MemoryStore { our_keys: None, last_sig: None, peers: Vec::new(), pages: Vec::new() };
        assert(s.peer_map() =~= Map::<Id, Peer<Addr>>::empty());
        assert(s.page_seq() =~= Seq::<(Signature, Seq<u8>)>::empty());
        assert(s.pages() =~= Map::<Signature, Seq<u8>>::empty());
        s
    }

    /// Where the peer `id` stands in the list.
    fn find_peer(&self, id: &Id) -> (r: Option<usize>)
        requires
            distinct_keys(self.peers@),
        ensures
            r matches Some(i) ==> i < self.peers@.len() && self.peers@[i as int].0 == *id
                && to_map(self.peers@).contains_key(*id) && to_map(self.peers@)[*id]
                == self.peers@[i as int].1,
            r is None ==> !has_key(self.peers@, *id) && !to_map(self.peers@).contains_key(*id),
    {
        let mut i: usize = 0;
        while i < self.peers.len()
            invariant
                i <= self.peers@.len(),
                distinct_keys(self.peers@),
                forall|j: int| 0 <= j < i ==> (#[trigger] self.peers@[j]).0 != *id,
            decreases self.peers@.len() - i,
        {
            if self.peers[i].0.same(id) {
                proof {
                    lemma_lookup(self.peers@, i as int);
                }
                return Some(i);
            }
            i += 1;
        }
        proof {
            lemma_absent(self.peers@, *id);
        }
        None
    }

    /// Where the page `sig` stands in the list.
    fn find_page(&self, sig: &Signature) -> (r: Option<usize>)
        requires
            distinct_keys(self.page_seq()),
        ensures
            r matches Some(i) ==> i < self.pages@.len() && self.pages@[i as int].0 == *sig
                && to_map(self.page_seq()).contains_key(*sig) && to_map(self.page_seq())[*sig]
                == self.pages@[i as int].1@,
            r is None ==> !has_key(self.page_seq(), *sig) && !to_map(self.page_seq()).contains_key(
                *sig,
            ),
    {
        let mut i: usize = 0;
        while i < self.pages.len()
            invariant
                i <= self.pages@.len(),
                self.page_seq().len() == self.pages@.len(),
                distinct_keys(self.page_seq()),
                forall|j: int| 0 <= j < i ==> (#[trigger] self.page_seq()[j]).0 != *sig,
            decreases self.pages@.len() - i,
        {
            assert(self.page_seq()[i as int].0 == self.pages@[i as int].0);
            if self.pages[i].0.same(sig) {
                proof {
                    lemma_lookup(self.page_seq(), i as int);
                }
                return Some(i);
            }
            i += 1;
        }
        proof {
            lemma_absent(self.page_seq(), *sig);
        }
        None
    }
}

/// A copy of `data`.
fn copy_bytes(data: &[u8]) -> (v: Vec<u8>)
    ensures
        v@ == data@,
{
    let mut v: Vec<u8> = Vec::new();
    let mut i: usize = 0;
    while i < data.len()
        invariant
            i <= data@.len(),
            v@ == data@.subrange(0, i as int),
        decreases data@.len() - i,
    {
        v.push(data[i]);
        assert(data@.subrange(0, i + 1) =~= data@.subrange(0, i as int).push(data@[i as int]));
        i += 1;
    }
    assert(data@.subrange(0, i as int) =~= data@);
    v
}

impl<Addr: Copy> Store for MemoryStore<Addr> {
    type Address = Addr;

    type Error = MemoryError;

    open spec fn inv(&self) -> bool {
        distinct_keys(self.peers@) && distinct_keys(self.page_seq())
    }

    open spec fn ident(&self) -> Option<Keys> {
        self.our_keys
    }

    open spec fn last(&self) -> Option<ObjectInfo> {
        self.last_sig
    }

    open spec fn peer_map(&self) -> Map<Id, Peer<Addr>> {
        to_map(self.peers@)
    }

    open spec fn pages(&self) -> Map<Signature, Seq<u8>> {
        to_map(self.page_seq())
    }

    open spec fn reliable(&self) -> bool {
        true
    }

    fn features(&self) -> (f: StoreFlags)
        ensures
            f.spec_bits() == crate::store::flags::ALL,
    {
        StoreFlags::all()
    }

    fn get_ident(&self) -> (r: Result<Option<Keys>, MemoryError>)
        ensures
            r == Ok::<Option<Keys>, MemoryError>(self.ident()),
    {
        Ok(self.our_keys)
    }

    fn set_ident(&mut self, keys: &Keys) -> (r: Result<(), MemoryError>)
        ensures
            r is Ok,
    {
        self.our_keys = Some(*keys);
        Ok(())
    }

    fn get_last(&self) -> (r: Result<Option<ObjectInfo>, MemoryError>)
        ensures
            r == Ok::<Option<ObjectInfo>, MemoryError>(self.last()),
    {
        Ok(self.last_sig)
    }

    fn set_last(&mut self, info: &ObjectInfo) -> (r: Result<(), MemoryError>)
        ensures
            r is Ok,
    {
        self.last_sig = Some(*info);
        Ok(())
    }

    fn get_peer(&self, id: &Id) -> (r: Result<Option<Peer<Addr>>, MemoryError>)
        ensures
            r is Ok,
    {
        match self.find_peer(id) {
            Some(i) => Ok(Some(self.peers[i].1)),
            None => Ok(None),
        }
    }

    fn keys(&self, id: &Id) -> (k: Option<Keys>) {
        match self.find_peer(id) {
            Some(i) => Some(self.peers[i].1.keys),
            None => None,
        }
    }

    fn update_peer<R, F: Fn(Peer<Addr>) -> (Peer<Addr>, R)>(&mut self, id: &Id, f: F) -> (r: Result<
        R,
        MemoryError,
    >)
        ensures
            r is Ok,
    {
        match self.find_peer(id) {
            Some(i) => {
                let (p, v) = f(self.peers[i].1);
                proof {
                    lemma_update(self.peers@, i as int, p);
                }
                self.peers.set(i, (*id, p));
                Ok(v)
            },
            None => {
                let (p, v) = f(Peer::default());
                proof {
                    lemma_push(self.peers@, *id, p);
                }
                self.peers.push((*id, p));
                Ok(v)
            },
        }
    }

    fn peers(&self) -> (list: Vec<(Id, Peer<Addr>)>)
        ensures
            list@ == self.peers@,
    {
        let mut list: Vec<(Id, Peer<Addr>)> = Vec::new();
        let mut i: usize = 0;
        while i < self.peers.len()
            invariant
                i <= self.peers@.len(),
                list@ == self.peers@.subrange(0, i as int),
            decreases self.peers@.len() - i,
        {
            list.push(self.peers[i]);
            assert(self.peers@.subrange(0, i + 1) =~= self.peers@.subrange(0, i as int).push(
                self.peers@[i as int],
            ));
            i += 1;
        }
        assert(self.peers@.subrange(0, i as int) =~= self.peers@);
        proof {
            assert forall|j: int| 0 <= j < list@.len() implies self.peer_map().contains_key(
                (#[trigger] list@[j]).0,
            ) && self.peer_map()[list@[j].0] == list@[j].1 by {
                lemma_lookup(self.peers@, j);
            }
        }
        list
    }

    fn store_page(&mut self, sig: &Signature, page: &[u8]) -> (r: Result<(), MemoryError>)
        ensures
            r is Ok,
    {
        let copy = copy_bytes(page);
        let ghost before = self.page_seq();
        match self.find_page(sig) {
            Some(i) => {
                proof {
                    lemma_update(before, i as int, page@);
                }
                self.pages.set(i, (*sig, copy));
                assert(self.page_seq() =~= before.update(i as int, (*sig, page@)));
            },
            None => {
                proof {
                    lemma_push(before, *sig, page@);
                }
                self.pages.push((*sig, copy));
                assert(self.page_seq() =~= before.push((*sig, page@)));
            },
        }
        Ok(())
    }

    fn fetch_page(&mut self, sig: &Signature, buff: &mut [u8]) -> (r: Result<
        Option<usize>,
        MemoryError,
    >)
        ensures
            r is Err ==> old(self).pages().contains_key(*sig) && old(buff)@.len() < old(
                self,
            ).pages()[*sig].len(),
    {
        match self.find_page(sig) {
            Some(i) => match load_page(self.pages[i].1.as_slice(), buff) {
                Some(n) => Ok(Some(n)),
                None => Err(MemoryError::BufferTooSmall),
            },
            None => Ok(None),
        }
    }
}

} // verus!
