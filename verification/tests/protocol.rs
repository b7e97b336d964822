use dsf_engine::application::Application;
use dsf_engine::comms::mock::{MockComms, MockError};
use dsf_engine::comms::Comms;
use dsf_engine::engine::inbound::{learn, without};
use dsf_engine::engine::{
    next_block, next_id, Engine, EngineEvent, Pending, MAX_PENDING, MAX_RETRIES, RETRY_INTERVAL,
};
use dsf_engine::error::{CoreError, EngineError};
use dsf_engine::store::mem::MemoryError;
use dsf_engine::store::{MemoryStore, ObjectInfo, Peer, Store, StoreFlags, SubscribeState};
use dsf_engine::types::{Array32, Array64, Id, Keys, Signature};
use dsf_engine::wire::frame::inspect;
use dsf_engine::wire::message::{KIND_DISCOVER, KIND_STATUS, KIND_SUBSCRIBE, KIND_UNSUBSCRIBE};

/// Generic application for engine testing
pub struct Generic {}

impl Application for Generic {
    const APPLICATION_ID: u16 = 0x0102;

    fn matches(info: &[u8], req: &[u8]) -> bool {
        req.len() == 0 || info == req
    }
}

/// Another application.
pub struct Other {}

impl Application for Other {
    const APPLICATION_ID: u16 = 0x0103;

    fn matches(_info: &[u8], _req: &[u8]) -> bool {
        false
    }
}

type E = Engine<Generic, MockComms, MemoryStore<u8>>;

const A1: u8 = 1;
const A2: u8 = 2;

fn engine(info: &[u8]) -> E {
    Engine::new(info.to_vec(), MockComms::default(), MemoryStore::new(), 512).unwrap()
}

fn carry(from: &mut E, addr: u8, to: &mut E) -> usize {
    let mut n = 0;
    while let Some(p) = from.comms.take_sent() {
        to.comms.deliver(addr, &p.data);
        n += 1;
    }
    n
}

/// Two engines, the first subscribed to the second.
fn subscribed_pair() -> (E, E) {
    let mut e1 = engine(&[1]);
    let mut e2 = engine(&[2]);
    e1.subscribe(e2.id(), A2).unwrap();
    carry(&mut e1, A1, &mut e2);
    assert_eq!(e2.tick().unwrap(), EngineEvent::SubscribeFrom(e1.id()));
    carry(&mut e2, A2, &mut e1);
    assert_eq!(e1.tick().unwrap(), EngineEvent::SubscribedTo(e2.id()));
    (e1, e2)
}

fn state(e: &E, id: &Id) -> SubscribeState {
    e.store.get_peer(id).unwrap().map(|p| p.subscribed).unwrap_or(SubscribeState::Idle)
}

/// An object with a signature of zeros, for `dispatch`.
fn unsigned(kind: u16, index: u16, id: &Id, body: &[u8]) -> Vec<u8> {
    let mut v = vec![0u8; 4];
    v.extend_from_slice(&kind.to_be_bytes());
    v.extend_from_slice(&[0, 0]);
    v.extend_from_slice(&index.to_be_bytes());
    v.extend_from_slice(&(body.len() as u16).to_be_bytes());
    v.extend_from_slice(&[0, 0, 0, 0]);
    v.extend_from_slice(&id.bytes);
    v.extend_from_slice(body);
    v.extend_from_slice(&[0u8; 64]);
    v
}

#[test]
fn new_engine_stores_its_identity() {
    let e = engine(&[1, 2, 3]);
    let keys = e.store.get_ident().unwrap().unwrap();
    assert_eq!(keys.pub_key, Some(e.pub_key));
    assert_eq!(keys.pri_key, Some(e.pri_key));
    assert_eq!(e.id(), e.id);
    assert_eq!(e.capacity, 512);
    assert_eq!(e.info, vec![1, 2, 3]);
    assert!(e.pending.is_empty());
    assert_eq!(e.discovery, None);
    // the identifier is the hash of the public key, not the key
    assert_ne!(e.id.bytes, e.pub_key.bytes);
    // two engines, two identities
    let other = engine(&[1, 2, 3]);
    assert_ne!(e.id(), other.id());
}

#[test]
fn new_engine_keeps_the_identity_of_its_store() {
    let first = engine(&[]);
    let keys = first.store.get_ident().unwrap().unwrap();
    let mut store = MemoryStore::<u8>::new();
    store.set_ident(&keys).unwrap();
    let second: E = Engine::new(vec![], MockComms::default(), store, 256).unwrap();
    assert_eq!(second.id(), first.id());
    assert_eq!(second.pub_key, first.pub_key);
    assert_eq!(second.pri_key, first.pri_key);
    assert_eq!(second.store.get_ident(), Ok(Some(keys)));

    // an identity that cannot sign is replaced
    let mut store = MemoryStore::<u8>::new();
    store.set_ident(&Keys { pri_key: None, ..keys }).unwrap();
    let third: E = Engine::new(vec![], MockComms::default(), store, 256).unwrap();
    assert_ne!(third.id(), first.id());
    let stored = third.store.get_ident().unwrap().unwrap();
    assert_eq!(stored.pub_key, Some(third.pub_key));
    assert_eq!(stored.pri_key, Some(third.pri_key));
}

#[test]
fn new_engine_refuses_a_capacity_out_of_bounds() {
    let make = |info: Vec<u8>, capacity: usize| -> Result<E, EngineError<MockError, MemoryError>> {
        Engine::new(info, MockComms::default(), MemoryStore::new(), capacity)
    };
    assert_eq!(make(vec![], 179).err(), Some(EngineError::Unsupported));
    assert!(make(vec![], 180).is_ok());
    assert!(make(vec![], 0xffff).is_ok());
    assert_eq!(make(vec![], 0x10000).err(), Some(EngineError::Unsupported));
    assert!(make(vec![0; 108], 256).is_ok());
    assert_eq!(make(vec![0; 109], 256).err(), Some(EngineError::Unsupported));
}

#[test]
fn request_identifiers_wrap() {
    assert_eq!(next_id(0), 1);
    assert_eq!(next_id(41), 42);
    assert_eq!(next_id(0xffff), 0);
}

#[test]
fn discover_broadcasts_a_request() {
    let mut e = engine(&[]);
    assert_eq!(e.discover(&[0xaa], &[]), Ok(1));
    assert_eq!(e.discovery, Some(1));
    assert_eq!(e.discover(&[], &[]), Ok(2));
    assert_eq!(e.discovery, Some(2));
    assert!(e.store.peers().is_empty());
    let first = e.comms.take_sent().unwrap();
    assert_eq!(first.peer, None);
    let f = inspect(&first.data).unwrap();
    assert_eq!(f.kind, KIND_DISCOVER);
    assert_eq!(f.index, 1);
    assert_eq!(f.id, e.id());
    assert_eq!(f.application_id, 0);
    assert_eq!(f.public_key, Some(e.pub_key));
    assert_eq!(&first.data[48..49], &[0xaa]);
    assert_eq!(first.data.len(), 149);
    let second = e.comms.take_sent().unwrap();
    assert_eq!(inspect(&second.data).unwrap().index, 2);
    assert_eq!(second.data.len(), 148);
}

#[test]
fn discover_refuses_a_query_that_does_not_fit() {
    let mut e = engine(&[]);
    assert_eq!(e.discover(&[0u8; 365], &[]), Err(EngineError::Core(CoreError::InvalidPageLength)));
    assert_eq!(e.req_id, 0);
    assert_eq!(e.discovery, None);
    assert!(e.comms.tx.is_empty());
    assert_eq!(e.discover(&[0u8; 364], &[]), Ok(1));
    assert_eq!(e.comms.tx[0].data.len(), 512);
}

#[test]
fn discovery_is_answered_by_those_it_asks_for() {
    let mut e1 = engine(&[0xaa]);
    let mut e2 = engine(&[0x11, 0x22]);
    let mut e3 = engine(&[0x33]);
    let rid = e1.discover(&[0x11, 0x22], &[]).unwrap();
    let request = e1.comms.take_sent().unwrap().data;
    assert_eq!(e2.handle(A1, &request), Ok(EngineEvent::Nothing));
    assert_eq!(e3.handle(A1, &request), Ok(EngineEvent::Nothing));
    assert!(e3.comms.tx.is_empty());
    assert!(e2.store.peers().is_empty());
    let response = e2.comms.take_sent().unwrap();
    assert_eq!(response.peer, Some(A1));
    let f = inspect(&response.data).unwrap();
    assert_eq!(f.index, rid);
    assert_eq!(&response.data[48..48 + f.body_len], &[0x11, 0x22]);

    assert_eq!(e1.handle(A2, &response.data), Ok(EngineEvent::Discover(e2.id())));
    let peer = e1.store.get_peer(&e2.id()).unwrap().unwrap();
    assert_eq!(peer.keys.pub_key, Some(e2.pub_key));
    assert_eq!(peer.addr, Some(A2));
    assert!(!peer.subscriber);
    assert_eq!(peer.subscribed, SubscribeState::Idle);

    // a peer that is known already stays as it is
    assert_eq!(e1.handle(9, &response.data), Ok(EngineEvent::Discover(e2.id())));
    assert_eq!(e1.store.get_peer(&e2.id()).unwrap().unwrap().addr, Some(A2));

    // a response to another discovery request is not taken
    e1.discover(&[], &[]).unwrap();
    assert_eq!(e1.handle(A2, &response.data), Ok(EngineEvent::Nothing));
}

#[test]
fn subscribe_twice_keeps_one_request() {
    let mut e1 = engine(&[]);
    let e2 = engine(&[]);
    assert_eq!(e1.subscribe(e2.id(), A2), Ok(()));
    assert_eq!(state(&e1, &e2.id()), SubscribeState::Subscribing(1));
    assert_eq!(e1.pending, vec![Pending { peer: e2.id(), req_id: 1, age: 0, attempts: 0 }]);
    assert_eq!(e1.comms.tx.len(), 1);

    assert_eq!(e1.subscribe(e2.id(), A2), Err(EngineError::Unhandled));
    assert_eq!(e1.subscribe(e2.id(), 7), Err(EngineError::Unhandled));
    assert_eq!(state(&e1, &e2.id()), SubscribeState::Subscribing(1));
    assert_eq!(e1.store.get_peer(&e2.id()).unwrap().unwrap().addr, Some(A2));
    assert_eq!(e1.pending.len(), 1);
    assert_eq!(e1.req_id, 1);
    assert_eq!(e1.comms.tx.len(), 1);

    let request = &e1.comms.tx[0];
    assert_eq!(request.peer, Some(A2));
    let f = inspect(&request.data).unwrap();
    assert_eq!(f.kind, KIND_SUBSCRIBE);
    assert_eq!(f.index, 1);
    assert_eq!(&request.data[48..80], &e2.id().bytes);
    assert_eq!(request.data.len(), 180);
}

#[test]
fn subscribe_again_once_subscribed_is_refused() {
    let (mut e1, e2) = subscribed_pair();
    assert_eq!(e1.subscribe(e2.id(), A2), Err(EngineError::Unhandled));
    assert_eq!(state(&e1, &e2.id()), SubscribeState::Subscribed);
    assert!(e1.pending.is_empty());
    assert!(e1.comms.tx.is_empty());
}

#[test]
fn no_more_requests_than_can_wait() {
    let mut e = engine(&[]);
    for i in 0..MAX_PENDING {
        assert_eq!(e.subscribe(Array32::new([i as u8; 32]), A2), Ok(()));
    }
    assert_eq!(e.subscribe(Array32::new([0xff; 32]), A2), Err(EngineError::Unhandled));
    assert_eq!(e.pending.len(), MAX_PENDING);
    assert_eq!(e.store.get_peer(&Array32::new([0xff; 32])), Ok(None));
}

#[test]
fn a_response_out_of_sequence_changes_nothing() {
    let mut e1 = engine(&[]);
    let mut e2 = engine(&[]);
    e1.subscribe(e2.id(), A2).unwrap();
    carry(&mut e1, A1, &mut e2);
    e2.tick().unwrap();
    let ack = e2.comms.take_sent().unwrap().data;

    // a status with another request identifier, from the same peer
    let stale = unsigned(KIND_STATUS, 2, &e2.id(), &[0, 0, 0, 0]);
    assert_eq!(e1.dispatch(A2, &stale), Ok(EngineEvent::Nothing));
    assert_eq!(state(&e1, &e2.id()), SubscribeState::Subscribing(1));
    // a status that reports a failure
    let failed = unsigned(KIND_STATUS, 1, &e2.id(), &[0, 0, 0, 1]);
    assert_eq!(e1.dispatch(A2, &failed), Ok(EngineEvent::Nothing));
    assert_eq!(state(&e1, &e2.id()), SubscribeState::Subscribing(1));
    // a status from a peer we asked nothing
    let stranger = Array32::new([5u8; 32]);
    let lost = unsigned(KIND_STATUS, 1, &stranger, &[0, 0, 0, 0]);
    assert_eq!(e1.dispatch(A2, &lost), Ok(EngineEvent::Nothing));
    assert_eq!(e1.store.get_peer(&stranger), Ok(None));
    assert_eq!(e1.pending.len(), 1);

    assert_eq!(e1.handle(A2, &ack), Ok(EngineEvent::SubscribedTo(e2.id())));
    assert_eq!(state(&e1, &e2.id()), SubscribeState::Subscribed);
    assert!(e1.pending.is_empty());
    // the same response again
    assert_eq!(e1.handle(A2, &ack), Ok(EngineEvent::Nothing));
    assert_eq!(state(&e1, &e2.id()), SubscribeState::Subscribed);
}

#[test]
fn a_subscribe_request_for_someone_else_is_dropped() {
    let mut e = engine(&[]);
    let from = Array32::new([5u8; 32]);
    let other = Array32::new([6u8; 32]);
    let request = unsigned(KIND_SUBSCRIBE, 3, &from, &other.bytes);
    assert_eq!(e.dispatch(A2, &request), Ok(EngineEvent::Nothing));
    assert!(e.store.peers().is_empty());
    assert!(e.comms.tx.is_empty());

    let request = unsigned(KIND_SUBSCRIBE, 3, &from, &e.id().bytes);
    assert_eq!(e.dispatch(A2, &request), Ok(EngineEvent::SubscribeFrom(from)));
    let peer = e.store.get_peer(&from).unwrap().unwrap();
    assert!(peer.subscriber);
    assert_eq!(peer.addr, Some(A2));
    // no key came with the request
    assert_eq!(peer.keys.pub_key, None);
    let ack = e.comms.take_sent().unwrap();
    assert_eq!(ack.peer, Some(A2));
    let f = inspect(&ack.data).unwrap();
    assert_eq!(f.kind, KIND_STATUS);
    assert_eq!(f.index, 3);
    assert_eq!(&ack.data[48..52], &[0, 0, 0, 0]);
}

#[test]
fn unsubscribe_runs_the_second_chain() {
    let (mut e1, mut e2) = subscribed_pair();
    assert_eq!(e1.unsubscribe(e2.id()), Ok(()));
    assert_eq!(state(&e1, &e2.id()), SubscribeState::Unsubscribing(2));
    assert_eq!(e1.unsubscribe(e2.id()), Err(EngineError::Unhandled));
    assert_eq!(e1.subscribe(e2.id(), A2), Err(EngineError::Unhandled));
    assert_eq!(e1.pending.len(), 1);
    let f = inspect(&e1.comms.tx[0].data).unwrap();
    assert_eq!(f.kind, KIND_UNSUBSCRIBE);
    assert_eq!(e1.comms.tx[0].peer, Some(A2));

    carry(&mut e1, A1, &mut e2);
    assert_eq!(e2.tick(), Ok(EngineEvent::UnsubscribeFrom(e1.id())));
    assert!(!e2.store.get_peer(&e1.id()).unwrap().unwrap().subscriber);
    carry(&mut e2, A2, &mut e1);
    assert_eq!(e1.tick(), Ok(EngineEvent::UnsubscribedTo(e2.id())));
    assert_eq!(state(&e1, &e2.id()), SubscribeState::Idle);
    assert!(e1.pending.is_empty());

    // what is published now reaches nobody
    e2.publish(&[1], &[]).unwrap();
    assert!(e2.comms.tx.is_empty());
    // and the chain can start again
    assert_eq!(e1.subscribe(e2.id(), A2), Ok(()));
}

#[test]
fn unsubscribe_needs_a_subscription() {
    let mut e1 = engine(&[]);
    let e2 = engine(&[]);
    assert_eq!(e1.unsubscribe(e2.id()), Err(EngineError::Unhandled));
    assert_eq!(e1.store.get_peer(&e2.id()), Ok(None));
    e1.subscribe(e2.id(), A2).unwrap();
    assert_eq!(e1.unsubscribe(e2.id()), Err(EngineError::Unhandled));
    assert_eq!(state(&e1, &e2.id()), SubscribeState::Subscribing(1));

    // an unsubscribe request from a stranger is dropped
    let stranger = Array32::new([5u8; 32]);
    let request = unsigned(KIND_UNSUBSCRIBE, 3, &stranger, &e1.id().bytes);
    assert_eq!(e1.dispatch(A2, &request), Ok(EngineEvent::Nothing));
    assert_eq!(e1.store.get_peer(&stranger), Ok(None));
}

#[test]
fn history_grows_by_one() {
    let mut e = engine(&[]);
    assert_eq!(e.store.get_last(), Ok(None));
    let s0 = e.publish(&[1], &[]).unwrap();
    assert_eq!(e.store.get_last(), Ok(Some(ObjectInfo { page_index: 0, block_index: 0, sig: s0 })));
    let s1 = e.publish(&[2], &[]).unwrap();
    assert_eq!(e.store.get_last(), Ok(Some(ObjectInfo { page_index: 0, block_index: 1, sig: s1 })));
    let s2 = e.publish(&[3], &[]).unwrap();
    assert_eq!(e.store.get_last(), Ok(Some(ObjectInfo { page_index: 0, block_index: 2, sig: s2 })));
    assert_ne!(s0, s1);
    assert_ne!(s1, s2);

    let mut buff = vec![0u8; 512];
    for (i, (sig, parent)) in [(s0, None), (s1, Some(s0)), (s2, Some(s1))].iter().enumerate() {
        let n = e.store.fetch_page(sig, &mut buff).unwrap().unwrap();
        let f = inspect(&buff[..n]).unwrap();
        assert_eq!(f.index, i as u16);
        assert_eq!(f.signature, *sig);
        assert_eq!(f.id, e.id());
        assert_eq!(f.application_id, 0x0102);
        assert_eq!(f.kind, 0x6000);
        assert_eq!(f.public_key, None);
        assert_eq!(&buff[48..49], &[i as u8 + 1]);
        // the block names its predecessor
        match parent {
            None => assert_eq!(n, 113),
            Some(p) => {
                assert_eq!(n, 181);
                assert_eq!(&buff[49..53], &[0, 2, 0, 64]);
                assert_eq!(&buff[53..117], &p.bytes);
            }
        }
    }
}

#[test]
fn next_block_follows_the_tip() {
    let sig = Array64::new([1u8; 64]);
    assert_eq!(next_block(None), Some((0, 0, None)));
    assert_eq!(
        next_block(Some(ObjectInfo { page_index: 3, block_index: 7, sig })),
        Some((3, 8, Some(sig)))
    );
    assert_eq!(next_block(Some(ObjectInfo { page_index: 3, block_index: 0xffff, sig })), None);
}

#[test]
fn publish_fails_where_the_history_is_full() {
    let mut e = engine(&[]);
    let tip = ObjectInfo { page_index: 0, block_index: 0xffff, sig: Array64::new([1u8; 64]) };
    e.store.set_last(&tip).unwrap();
    assert_eq!(e.publish(&[1], &[]), Err(EngineError::Unhandled));
    assert_eq!(e.store.get_last(), Ok(Some(tip)));
    assert!(e.store.pages.is_empty());
}

#[test]
fn publish_fails_without_identity() {
    let mut e = engine(&[]);
    e.store.set_ident(&Keys { pri_key: None, ..e.store.get_ident().unwrap().unwrap() }).unwrap();
    assert_eq!(e.publish(&[1], &[]), Err(EngineError::Core(CoreError::NoPrivateKey)));
    e.store.our_keys = None;
    assert_eq!(e.publish(&[1], &[]), Err(EngineError::Core(CoreError::NoPrivateKey)));
    assert_eq!(e.store.get_last(), Ok(None));
    assert!(e.store.pages.is_empty());
}

#[test]
fn publish_fails_where_the_object_does_not_fit() {
    let mut e = engine(&[]);
    assert_eq!(e.publish(&[0u8; 401], &[]), Err(EngineError::Core(CoreError::InvalidPageLength)));
    assert_eq!(e.store.get_last(), Ok(None));
    let sig = e.publish(&[0u8; 400], &[]).unwrap();
    let mut buff = vec![0u8; 512];
    assert_eq!(e.store.fetch_page(&sig, &mut buff), Ok(Some(512)));
    // the next block names its parent and has less room
    assert_eq!(e.publish(&[0u8; 333], &[]), Err(EngineError::Core(CoreError::InvalidPageLength)));
    assert!(e.publish(&[0u8; 332], &[]).is_ok());
}

#[test]
fn publish_reaches_the_subscribers_with_an_address() {
    let mut e = engine(&[]);
    let a = Array32::new([1u8; 32]);
    let b = Array32::new([2u8; 32]);
    let c = Array32::new([3u8; 32]);
    e.store.update_peer(&a, |p| (Peer { subscriber: true, addr: Some(10), ..p }, ())).unwrap();
    e.store.update_peer(&b, |p| (Peer { subscriber: false, addr: Some(11), ..p }, ())).unwrap();
    e.store.update_peer(&c, |p| (Peer { subscriber: true, addr: None, ..p }, ())).unwrap();
    let sig = e.publish(&[7, 8], &[]).unwrap();
    assert_eq!(e.comms.tx.len(), 1);
    assert_eq!(e.comms.tx[0].peer, Some(10));
    assert_eq!(inspect(&e.comms.tx[0].data).unwrap().signature, sig);
    let mut buff = vec![0u8; 512];
    let n = e.store.fetch_page(&sig, &mut buff).unwrap().unwrap();
    assert_eq!(&buff[..n], &e.comms.tx[0].data[..]);
}

#[test]
fn what_is_malformed_is_dropped() {
    let (mut e1, mut e2) = subscribed_pair();
    let sig = e2.publish(&[0xab, 0xcd, 0xef], &[]).unwrap();
    let page = e2.comms.take_sent().unwrap().data;
    let peers = e1.store.peers();

    // noise
    for noise in [&[][..], &[0u8; 16][..], &[0xffu8; 300][..], &page[..page.len() - 1]] {
        assert_eq!(e1.handle(A2, noise), Ok(EngineEvent::Nothing));
    }
    // a body that was changed after signing
    let mut forged = page.clone();
    forged[48] ^= 1;
    assert_eq!(e1.handle(A2, &forged), Ok(EngineEvent::Nothing));
    // a signature that was changed
    let mut forged = page.clone();
    let last = forged.len() - 1;
    forged[last] ^= 1;
    assert_eq!(e1.handle(A2, &forged), Ok(EngineEvent::Nothing));
    // an index that was changed
    let mut forged = page.clone();
    forged[9] ^= 1;
    assert_eq!(e1.handle(A2, &forged), Ok(EngineEvent::Nothing));
    // a subscribe request signed with a key that is not its sender's
    let mut e3 = engine(&[]);
    e3.subscribe(e1.id(), A1).unwrap();
    let mut request = e3.comms.take_sent().unwrap().data;
    request[16] ^= 1;
    assert_eq!(e1.handle(3, &request), Ok(EngineEvent::Nothing));

    assert!(e1.store.pages.is_empty());
    assert_eq!(e1.store.peers(), peers);
    assert!(e1.comms.tx.is_empty());

    // the page as it was signed is taken
    assert_eq!(e1.handle(A2, &page), Ok(EngineEvent::ReceivedData(e2.id(), sig)));
    let mut buff = vec![0u8; 512];
    let n = e1.store.fetch_page(&sig, &mut buff).unwrap().unwrap();
    assert_eq!(&buff[..n], &page[..]);
}

#[test]
fn data_is_taken_from_those_we_subscribed_to() {
    let mut e1 = engine(&[]);
    let mut e2 = engine(&[]);
    let sig = e2.publish(&[1], &[]).unwrap();
    let mut buff = vec![0u8; 512];
    let n = e2.store.fetch_page(&sig, &mut buff).unwrap().unwrap();
    let page = buff[..n].to_vec();

    // from a stranger: no key to check it against
    assert_eq!(e1.handle(A2, &page), Ok(EngineEvent::Nothing));
    // from a peer we know and are not subscribed to
    let key = e2.pub_key;
    let keys = Keys { pub_key: Some(key), ..Keys::empty() };
    e1.store.update_peer(&e2.id(), |p| (Peer { keys, ..p }, ())).unwrap();
    assert_eq!(e1.handle(A2, &page), Ok(EngineEvent::Nothing));
    assert!(e1.store.pages.is_empty());
    // while the subscription is being set up
    e1.subscribe(e2.id(), A2).unwrap();
    assert_eq!(e1.handle(A2, &page), Ok(EngineEvent::ReceivedData(e2.id(), sig)));
    assert_eq!(e1.store.pages.len(), 1);

    // data of another application
    let mut other: Engine<Other, MockComms, MemoryStore<u8>> =
        Engine::new(vec![], MockComms::default(), MemoryStore::new(), 512).unwrap();
    other.store.update_peer(&e2.id(), |p| {
        (Peer { keys, subscribed: SubscribeState::Subscribed, ..p }, ())
    }).unwrap();
    assert_eq!(other.handle(A2, &page), Ok(EngineEvent::Nothing));
    assert!(other.store.pages.is_empty());
}

#[test]
fn messages_that_are_not_implemented_are_unsupported() {
    let mut e = engine(&[]);
    let from = Array32::new([5u8; 32]);
    for kind in [0x2001u16, 0x2002, 0x2004, 0x2006, 0x2007, 0x4001, 0x4002, 0x4004] {
        assert_eq!(e.dispatch(A2, &unsigned(kind, 1, &from, &[0; 40])), Err(EngineError::Unsupported));
    }
    // pages are dropped
    assert_eq!(e.dispatch(A2, &unsigned(0x0000, 1, &from, &[])), Ok(EngineEvent::Nothing));
    // and so is what cannot be taken apart
    assert_eq!(e.dispatch(A2, &[1, 2, 3]), Ok(EngineEvent::Nothing));
    assert!(e.store.peers().is_empty());
    assert!(e.comms.tx.is_empty());
}

#[test]
fn a_key_is_learned_where_it_fits_the_identifier() {
    let e = engine(&[]);
    let other = engine(&[]);
    assert_eq!(learn(None, Some(e.pub_key), &e.id()), Some(e.pub_key));
    assert_eq!(learn(None, Some(e.pub_key), &other.id()), None);
    // the hash of a key is not the key
    assert_eq!(learn(None, Some(e.pub_key), &Array32::new(e.pub_key.bytes)), None);
    assert_eq!(learn(None, None, &e.id()), None);
    // a key on record stays
    assert_eq!(learn(Some(other.pub_key), Some(e.pub_key), &e.id()), Some(other.pub_key));
}

#[test]
fn requests_are_sent_again_and_given_up() {
    let mut e1 = engine(&[]);
    let e2 = engine(&[]);
    e1.subscribe(e2.id(), A2).unwrap();
    let first = e1.comms.take_sent().unwrap();

    for attempt in 1..=MAX_RETRIES {
        for _ in 1..RETRY_INTERVAL {
            assert_eq!(e1.update(), Ok(EngineEvent::Nothing));
            assert!(e1.comms.tx.is_empty());
        }
        assert_eq!(e1.update(), Ok(EngineEvent::Nothing));
        let again = e1.comms.take_sent().unwrap();
        assert_eq!(again, first);
        assert_eq!(e1.pending, vec![Pending { peer: e2.id(), req_id: 1, age: 0, attempts: attempt }]);
        assert_eq!(state(&e1, &e2.id()), SubscribeState::Subscribing(1));
    }
    for _ in 1..RETRY_INTERVAL {
        assert_eq!(e1.update(), Ok(EngineEvent::Nothing));
    }
    assert_eq!(e1.update(), Ok(EngineEvent::Timeout(e2.id())));
    assert!(e1.comms.tx.is_empty());
    assert!(e1.pending.is_empty());
    assert_eq!(state(&e1, &e2.id()), SubscribeState::Idle);
    assert_eq!(e1.store.get_peer(&e2.id()).unwrap().unwrap().addr, Some(A2));
    assert_eq!(e1.update(), Ok(EngineEvent::Nothing));
    // the subscription can be tried again
    assert_eq!(e1.subscribe(e2.id(), A2), Ok(()));
    assert_eq!(state(&e1, &e2.id()), SubscribeState::Subscribing(2));
}

#[test]
fn a_request_that_was_answered_is_not_sent_again() {
    let (mut e1, e2) = subscribed_pair();
    assert!(e1.pending.is_empty());
    // a request left over for a peer that waits for nothing is forgotten
    e1.pending.push(Pending { peer: e2.id(), req_id: 1, age: RETRY_INTERVAL - 1, attempts: 0 });
    assert_eq!(e1.update(), Ok(EngineEvent::Nothing));
    assert!(e1.pending.is_empty());
    assert!(e1.comms.tx.is_empty());
    assert_eq!(state(&e1, &e2.id()), SubscribeState::Subscribed);
}

#[test]
fn update_looks_at_one_request_a_call() {
    let mut e = engine(&[]);
    let a = Array32::new([1u8; 32]);
    let b = Array32::new([2u8; 32]);
    e.subscribe(a, 10).unwrap();
    e.subscribe(b, 11).unwrap();
    while e.comms.take_sent().is_some() {}
    for _ in 1..RETRY_INTERVAL {
        e.update().unwrap();
    }
    assert_eq!(e.update(), Ok(EngineEvent::Nothing));
    assert_eq!(e.comms.tx.len(), 1);
    assert_eq!(e.comms.tx[0].peer, Some(10));
    assert_eq!(e.pending[0].age, 0);
    assert_eq!(e.pending[1].age, RETRY_INTERVAL);
    assert_eq!(e.update(), Ok(EngineEvent::Nothing));
    assert_eq!(e.comms.tx.len(), 2);
    assert_eq!(e.comms.tx[1].peer, Some(11));
    assert_eq!(e.pending[0].age, 1);
    assert_eq!(e.pending[1].age, 0);
}

#[test]
fn requests_are_taken_out_by_peer_and_identifier() {
    let a = Array32::new([1u8; 32]);
    let b = Array32::new([2u8; 32]);
    let p = |peer: Id, req_id: u16| Pending { peer, req_id, age: 0, attempts: 0 };
    let list = vec![p(a, 1), p(b, 1), p(a, 2), p(a, 1)];
    assert_eq!(without(&list, &a, 1), vec![p(b, 1), p(a, 2)]);
    assert_eq!(without(&list, &b, 2), list);
    assert_eq!(without(&vec![], &a, 1), vec![]);
}

#[test]
fn tick_handles_what_is_pending_or_updates() {
    let mut e1 = engine(&[]);
    let e2 = engine(&[]);
    e1.subscribe(e2.id(), A2).unwrap();
    // nothing pending: the request grows older
    assert_eq!(e1.tick(), Ok(EngineEvent::Nothing));
    assert_eq!(e1.pending[0].age, 1);
    // noise pending: it is dropped, and nothing grows older
    e1.comms.deliver(9, &[1, 2, 3]);
    assert_eq!(e1.tick(), Ok(EngineEvent::Nothing));
    assert_eq!(e1.pending[0].age, 1);
    assert!(e1.comms.rx.is_empty());
    // a datagram longer than the buffers is cut and dropped
    e1.comms.deliver(9, &[0u8; 600]);
    assert_eq!(e1.tick(), Ok(EngineEvent::Nothing));
}

/// A transport that refuses everything.
struct Broken;

impl Comms for Broken {
    type Address = u8;
    type Error = u32;

    fn recv(&mut self, _buff: &mut [u8]) -> Result<Option<(usize, u8)>, u32> {
        Err(1)
    }

    fn send(&mut self, _to: &u8, _data: &[u8]) -> Result<(), u32> {
        Err(2)
    }

    fn broadcast(&mut self, _data: &[u8]) -> Result<(), u32> {
        Err(3)
    }
}

#[test]
fn failures_of_the_transport_are_handed_on() {
    let mut e: Engine<Generic, Broken, MemoryStore<u8>> =
        Engine::new(vec![], Broken, MemoryStore::new(), 512).unwrap();
    assert_eq!(e.tick(), Err(EngineError::Comms(1)));
    assert_eq!(e.discover(&[], &[]), Err(EngineError::Comms(3)));
    assert_eq!(e.req_id, 0);
    assert_eq!(e.discovery, None);

    // a request that could not be sent stays recorded, and is tried again
    let peer = Array32::new([1u8; 32]);
    assert_eq!(e.subscribe(peer, 5), Err(EngineError::Comms(2)));
    assert_eq!(e.store.get_peer(&peer).unwrap().unwrap().subscribed, SubscribeState::Subscribing(1));
    assert_eq!(e.pending.len(), 1);
    for _ in 1..RETRY_INTERVAL {
        assert_eq!(e.update(), Ok(EngineEvent::Nothing));
    }
    assert_eq!(e.update(), Err(EngineError::Comms(2)));
    assert_eq!(e.pending[0].attempts, 1);

    // what is published is published, though it reaches nobody
    e.store.update_peer(&peer, |p| (Peer { subscriber: true, ..p }, ())).unwrap();
    assert_eq!(e.publish(&[1], &[]), Err(EngineError::Comms(2)));
    assert_eq!(e.store.get_last().unwrap().unwrap().block_index, 0);
    assert_eq!(e.store.pages.len(), 1);
}

/// A store that holds an identity and refuses everything else.
struct Failing {
    keys: Keys,
}

impl Store for Failing {
    type Address = u8;
    type Error = u32;

    fn features(&self) -> StoreFlags {
        StoreFlags::keys()
    }

    fn get_ident(&self) -> Result<Option<Keys>, u32> {
        Ok(Some(self.keys))
    }

    fn set_ident(&mut self, _keys: &Keys) -> Result<(), u32> {
        Err(1)
    }

    fn get_last(&self) -> Result<Option<ObjectInfo>, u32> {
        Err(2)
    }

    fn set_last(&mut self, _info: &ObjectInfo) -> Result<(), u32> {
        Err(3)
    }

    fn get_peer(&self, _id: &Id) -> Result<Option<Peer<u8>>, u32> {
        Err(4)
    }

    fn keys(&self, _id: &Id) -> Option<Keys> {
        None
    }

    fn update_peer<R, F: Fn(Peer<u8>) -> (Peer<u8>, R)>(&mut self, _id: &Id, _f: F) -> Result<R, u32> {
        Err(5)
    }

    fn peers(&self) -> Vec<(Id, Peer<u8>)> {
        Vec::new()
    }

    fn store_page(&mut self, _sig: &Signature, _page: &[u8]) -> Result<(), u32> {
        Err(6)
    }

    fn fetch_page(&mut self, _sig: &Signature, _buff: &mut [u8]) -> Result<Option<usize>, u32> {
        Err(7)
    }
}

#[test]
fn failures_of_the_store_are_handed_on() {
    let keys = engine(&[]).store.get_ident().unwrap().unwrap();
    let mut e: Engine<Generic, MockComms, Failing> =
        Engine::new(vec![], MockComms::default(), Failing { keys }, 512).unwrap();
    assert_eq!(e.publish(&[1], &[]), Err(EngineError::Store(2)));
    assert_eq!(e.subscribe(Array32::new([1u8; 32]), 5), Err(EngineError::Store(4)));
    assert_eq!(e.unsubscribe(Array32::new([1u8; 32])), Err(EngineError::Store(4)));
    assert!(e.pending.is_empty());
    assert!(e.comms.tx.is_empty());
    // what cannot be taken apart is dropped before the store is asked
    assert_eq!(e.handle(A2, &[1, 2, 3]), Ok(EngineEvent::Nothing));
    let request = unsigned(KIND_SUBSCRIBE, 3, &Array32::new([5u8; 32]), &e.id().bytes);
    // a request whose signature does not hold is dropped, whatever the store does
    assert_eq!(e.handle(A2, &request), Ok(EngineEvent::Nothing));
    assert_eq!(e.dispatch(A2, &request), Err(EngineError::Store(4)));
    // one whose signature holds reaches the store
    let mut other = engine(&[]);
    other.subscribe(e.id(), 1).unwrap();
    let signed = other.comms.take_sent().unwrap().data;
    assert_eq!(e.handle(A2, &signed), Err(EngineError::Store(4)));
    assert!(e.comms.tx.is_empty());
}

#[test]
fn an_identity_that_cannot_be_stored_fails_the_set_up() {
    let keys = Keys::empty();
    let r: Result<Engine<Generic, MockComms, Failing>, _> =
        Engine::new(vec![], MockComms::default(), Failing { keys }, 512);
    assert_eq!(r.err(), Some(EngineError::Store(1)));
}

#[test]
fn release_takes_what_is_the_block_it_is_said_to_be() {
    let mut e = engine(&[]);
    e.store
        .update_peer(&Array32::new([1u8; 32]), |p| (Peer { subscriber: true, addr: Some(10), ..p }, ()))
        .unwrap();
    let bytes = unsigned(0x6000, 4, &e.id(), &[1, 2, 3]);
    let refused = Err(EngineError::Core(CoreError::InvalidPageLength));
    // another index
    assert_eq!(e.release(&bytes, 0, 5), refused);
    // another origin
    let foreign = unsigned(0x6000, 4, &Array32::new([9u8; 32]), &[1, 2, 3]);
    assert_eq!(e.release(&foreign, 0, 4), refused);
    // cut short
    assert_eq!(e.release(&bytes[..bytes.len() - 1], 0, 4), refused);
    assert_eq!(e.store.get_last(), Ok(None));
    assert!(e.store.pages.is_empty());
    assert!(e.comms.tx.is_empty());

    let sig = Array64::new([0u8; 64]);
    assert_eq!(e.release(&bytes, 2, 4), Ok(sig));
    assert_eq!(e.store.get_last(), Ok(Some(ObjectInfo { page_index: 2, block_index: 4, sig })));
    let mut buff = vec![0u8; 512];
    let n = e.store.fetch_page(&sig, &mut buff).unwrap().unwrap();
    assert_eq!(&buff[..n], &bytes[..]);
    assert_eq!(e.comms.tx.len(), 1);
    assert_eq!(e.comms.tx[0].peer, Some(10));
    assert_eq!(e.comms.tx[0].data, bytes);
}

#[test]
fn mock_transport_hands_out_what_was_delivered() {
    let mut c = MockComms::default();
    let mut buff = [9u8; 4];
    assert_eq!(c.recv(&mut buff), Ok(None));
    c.deliver(7, &[1, 2]);
    c.deliver(8, &[1, 2, 3, 4, 5, 6]);
    assert_eq!(c.recv(&mut buff), Ok(Some((2, 7))));
    assert_eq!(buff, [1, 2, 9, 9]);
    assert_eq!(c.recv(&mut buff), Ok(Some((4, 8))));
    assert_eq!(buff, [1, 2, 3, 4]);
    assert_eq!(c.recv(&mut buff), Ok(None));

    assert_eq!(c.send(&3, &[1]), Ok(()));
    assert_eq!(c.broadcast(&[2]), Ok(()));
    let first = c.take_sent().unwrap();
    assert_eq!((first.peer, first.data), (Some(3), vec![1]));
    let second = c.take_sent().unwrap();
    assert_eq!((second.peer, second.data), (None, vec![2]));
    assert_eq!(c.take_sent(), None);
}

fn option(kind: u16, value: &[u8]) -> Vec<u8> {
    let mut v = Vec::new();
    v.extend_from_slice(&kind.to_be_bytes());
    v.extend_from_slice(&(value.len() as u16).to_be_bytes());
    v.extend_from_slice(value);
    v
}

#[test]
fn options_travel_with_what_is_published() {
    let (mut e1, mut e2) = subscribed_pair();
    let mut options = option(0x0004, b"sensor");
    options.extend(option(0x000a, b"unit|kelvin"));
    let sig = e2.publish(&[1, 2, 3], &options).unwrap();
    let page = e2.comms.take_sent().unwrap().data;
    let f = inspect(&page).unwrap();
    assert_eq!(f.signature, sig);
    assert_eq!(page.len(), 112 + 3 + options.len());
    assert_eq!(&page[48..51], &[1, 2, 3]);
    assert_eq!(&page[51..51 + options.len()], &options[..]);
    assert_eq!(e1.handle(A2, &page), Ok(EngineEvent::ReceivedData(e2.id(), sig)));

    // and with a discovery request
    assert_eq!(e1.discover(&[2], &options), Ok(2));
    let request = e1.comms.take_sent().unwrap().data;
    assert_eq!(request.len(), 148 + 1 + options.len());
    assert_eq!(&request[request.len() - 64 - options.len()..request.len() - 64], &options[..]);
    assert_eq!(e2.handle(A1, &request), Ok(EngineEvent::Nothing));
    assert_eq!(e2.comms.tx.len(), 1);
}

#[test]
fn options_that_cannot_be_sent_are_refused() {
    let mut e = engine(&[]);
    let refused = Err(EngineError::Core(CoreError::InvalidOption));
    for options in [option(0x0000, &[0; 32]), option(0x0004, &[0xff]), option(0x8000, &[]), vec![0]] {
        assert_eq!(e.publish(&[1], &options), refused);
        assert_eq!(e.discover(&[], &options).map(|_| Array64::new([0; 64])), refused);
    }
    assert_eq!(e.store.get_last(), Ok(None));
    assert_eq!(e.req_id, 0);
    assert!(e.comms.tx.is_empty());
    // options count against the buffers
    let long = option(0x0004, &[b'a'; 300]);
    assert!(e.publish(&[0; 96], &long).is_ok());
    assert_eq!(e.publish(&[0; 29], &long), Err(EngineError::Core(CoreError::InvalidPageLength)));
    assert!(e.publish(&[0; 28], &long).is_ok());
    assert_eq!(e.discover(&[0; 61], &long), Err(EngineError::Core(CoreError::InvalidPageLength)));
    assert_eq!(e.discover(&[0; 60], &long), Ok(1));
}

#[test]
fn the_application_decides_who_answers() {
    let mut asker = engine(&[]);
    asker.discover(&[], &[]).unwrap();
    let request = asker.comms.take_sent().unwrap().data;
    // the application that answers nobody
    let mut silent: Engine<Other, MockComms, MemoryStore<u8>> =
        Engine::new(vec![], MockComms::default(), MemoryStore::new(), 512).unwrap();
    assert_eq!(silent.handle(A1, &request), Ok(EngineEvent::Nothing));
    assert!(silent.comms.tx.is_empty());
    let mut open = engine(&[7]);
    assert_eq!(open.handle(A1, &request), Ok(EngineEvent::Nothing));
    assert_eq!(open.comms.tx.len(), 1);
}

#[test]
fn step_acts_on_what_the_poll_gave() {
    let (mut e1, mut e2) = subscribed_pair();
    let sig = e2.publish(&[5], &[]).unwrap();
    let page = e2.comms.take_sent().unwrap().data;

    // a poll that failed
    let mut e: Engine<Generic, Broken, MemoryStore<u8>> =
        Engine::new(vec![], Broken, MemoryStore::new(), 512).unwrap();
    assert_eq!(e.step(Err(9), &[0; 4]), Err(EngineError::Comms(9)));

    // a length beyond the buffer
    assert_eq!(e1.step(Ok(Some((5, A2))), &[0; 4]), Err(EngineError::Unhandled));
    assert!(e1.store.pages.is_empty());

    // a datagram, cut to the length reported: what stands behind is not handled
    let mut buff = page.clone();
    buff.extend_from_slice(&[0; 40]);
    assert_eq!(e1.step(Ok(Some((page.len() - 1, A2))), &buff), Ok(EngineEvent::Nothing));
    assert!(e1.store.pages.is_empty());
    assert_eq!(
        e1.step(Ok(Some((page.len(), A2))), &buff),
        Ok(EngineEvent::ReceivedData(e2.id(), sig))
    );

    // nothing pending: one update
    e1.pending.push(Pending { peer: e2.id(), req_id: 9, age: 0, attempts: 0 });
    assert_eq!(e1.step(Ok(None), &buff), Ok(EngineEvent::Nothing));
    assert_eq!(e1.pending[0].age, 1);
    assert_eq!(e1.store.pages.len(), 1);
}

#[test]
fn options_of_any_shape_are_dropped_without_harm() {
    let mut e = engine(&[]);
    let from = Array32::new([5u8; 32]);
    let mut options = option(0x0000, &[0x11; 32]);
    options.extend(option(0x0004, b"name"));
    options.extend(option(0x000a, b"no bar"));
    options.extend(option(0x0000, &[0x22; 3]));
    let mut data = unsigned(KIND_SUBSCRIBE, 3, &from, &e.id().bytes);
    // put the options between body and signature
    let at = data.len() - 64;
    data[14..16].copy_from_slice(&(options.len() as u16).to_be_bytes());
    for (i, b) in options.iter().enumerate() {
        data.insert(at + i, *b);
    }
    assert!(inspect(&data).is_some());
    // the signature does not hold: dropped
    assert_eq!(e.handle(A2, &data), Ok(EngineEvent::Nothing));
    assert!(e.store.peers().is_empty());
    // vouched for: taken, with no key learned, as the key does not fit the sender
    assert_eq!(e.dispatch(A2, &data), Ok(EngineEvent::SubscribeFrom(from)));
    assert_eq!(e.store.get_peer(&from).unwrap().unwrap().keys.pub_key, None);
}

#[test]
fn a_fresh_public_key_is_the_second_half_of_the_private_key() {
    let e = engine(&[]);
    assert_eq!(&e.pub_key.bytes[..], &e.pri_key.bytes[32..]);
}

#[test]
fn tick_takes_the_oldest_pending_datagram() {
    let (mut e1, mut e2) = subscribed_pair();
    let first = e2.publish(&[1], &[]).unwrap();
    let second = e2.publish(&[2], &[]).unwrap();
    assert_eq!(carry(&mut e2, A2, &mut e1), 2);
    e1.comms.deliver(9, &[1, 2, 3]);
    assert_eq!(e1.comms.rx.len(), 3);
    assert_eq!(e1.tick(), Ok(EngineEvent::ReceivedData(e2.id(), first)));
    assert_eq!(e1.comms.rx.len(), 2);
    assert_eq!(e1.tick(), Ok(EngineEvent::ReceivedData(e2.id(), second)));
    assert_eq!(e1.tick(), Ok(EngineEvent::Nothing));
    assert!(e1.comms.rx.is_empty());
    assert_eq!(e1.store.pages.len(), 2);
}
