//! Keys, hashes and signatures, as the core library makes them.
use dsf_core::base::{Base, BaseOptions, Body, Header};
use dsf_core::options::Options;
use dsf_core::types::{Flags, Kind};
use vstd::prelude::*;
use crate::store::record::spec_public_of;
use crate::types::{Array32, Array64, Id, PrivateKey, PublicKey, Signature};
use crate::wire::frame::{parseable, sendable};

verus! {

/// The hash of a byte string.
pub uninterp spec fn digest(data: Seq<u8>) -> Seq<u8>;

/// The encoded and signed object with the given header fields, origin, body
/// and options, signed with `key`.
pub uninterp spec fn sealed(
    application_id: u16,
    kind: u16,
    flags: u16,
    index: u16,
    id: Seq<u8>,
    body: Seq<u8>,
    options: Seq<u8>,
    public_key: Option<Seq<u8>>,
    parent: Option<Seq<u8>>,
    key: Seq<u8>,
) -> Seq<u8>;

/// Whether the object at the front of `data` is accepted as signed by its
/// origin, `known` being the origin's public key where it is on record.
pub uninterp spec fn authentic(data: Seq<u8>, known: Option<Seq<u8>>) -> bool;

/// The flags that an object can be sent with: secondary, and the requests
/// for an address and for a public key. Encryption needs a secret key, which
/// the engine does not hold.
pub const FLAGS_SENDABLE: u16 = 0x000d;

/// The view of an optional signature.
pub open spec fn sig_view(s: Option<Signature>) -> Option<Seq<u8>> {
    match s {
        Some(p) => Some(p@),
        None => None,
    }
}

/// Length of the object that [`seal`] makes.
pub open spec fn spec_sealed_len(
    body_len: int,
    options_len: int,
    with_key: bool,
    with_parent: bool,
) -> int {
    112 + body_len + options_len + (if with_key {
        36int
    } else {
        0int
    }) + (if with_parent {
        68int
    } else {
        0int
    })
}

/// `dsf_core::crypto::new_pk`: a fresh pair of public and private key. Each
/// call gives another pair; in each the private key holds the seed and then
/// the public key.
#[verifier::external_body]
pub(crate) fn new_key_pair() -> (pair: (PublicKey, PrivateKey))
    ensures
        pair.0@ == spec_public_of(pair.1@),
{
    let (public_key, private_key) = dsf_core::crypto::new_pk().unwrap();
    (Array32 { bytes: public_key.into() }, Array64 { bytes: private_key.into() })
}

/// `dsf_core::crypto::hash`: the SHA-256 hash of `data`, which depends on
/// `data` alone.
#[verifier::external_body]
pub(crate) fn hash(data: &[u8]) -> (h: Id)
    ensures
        h@ == digest(data@),
{
    Array32 { bytes: dsf_core::crypto::hash(data).unwrap().into() }
}

/// `dsf_core::options::Options::parse_vec`, `dsf_core::base::Base::new` and
/// `Base::encode`: builds an object with the given flags and without private
/// options, whose public options are the public key and the parent
/// signature, each where given, and then those that `options` holds in
/// their encoding; encodes it into a buffer of `cap` bytes and signs it with
/// `key`. The bytes depend on the arguments other than `cap` alone. The
/// encoder panics where the buffer is too short, and on options that it
/// cannot read or write, and on the flag that asks for encryption, and cuts
/// lengths that do not fit two bytes; all these are left out, and so are
/// flags that the core library does not know.
#[verifier::external_body]
pub(crate) fn seal(
    application_id: u16,
    kind: u16,
    flags: u16,
    index: u16,
    id: &Id,
    body: &[u8],
    options: &[u8],
    public_key: Option<PublicKey>,
    parent: Option<Signature>,
    key: &PrivateKey,
    cap: usize,
) -> (out: Vec<u8>)
    requires
        flags & !FLAGS_SENDABLE == 0,
        body@.len() <= 0xffff,
        options@.len() + 104 <= 0xffff,
        sendable(options@, 0),
        cap >= spec_sealed_len(
            body@.len() as int,
            options@.len() as int,
            public_key is Some,
            parent is Some,
        ),
    ensures
        out@ == sealed(
            application_id,
            kind,
            flags,
            index,
            id@,
            body@,
            options@,
            crate::wire::frame::key_view(public_key),
            sig_view(parent),
            key@,
        ),
{
    let header = Header::new(application_id, Kind(kind), index, Flags::from_bits_truncate(flags));
    let mut given = BaseOptions::default();
    given.public_options = Options::parse_vec(options).unwrap().0;
    given.public_key = public_key.map(|k| k.bytes.into());
    given.parent = parent.map(|s| s.bytes.into());
    let mut base = Base::new(id.bytes.into(), header, Body::from(body.to_vec()), given);
    let mut buff = vec![0u8; cap];
    let n = base.encode(Some(&key.bytes.into()), None, &mut buff).unwrap();
    buff.truncate(n);
    buff
}

/// `dsf_core::base::Base::parse` with `known` as the public key on record
/// for every identifier and without secret keys: whether it accepts the
/// object at the front of `data`. It checks that the key, the one on record
/// or else the one attached, hashes to the identifier of the signer and
/// that the signature is that key's over the signed part. The answer depends
/// on `data` and `known` alone. The parser panics on bytes that are not
/// parseable; they are left out.
#[verifier::external_body]
pub(crate) fn verify(data: &[u8], known: Option<PublicKey>) -> (ok: bool)
    requires
        parseable(data@),
    ensures
        ok == authentic(data@, crate::wire::frame::key_view(known)),
{
    let key = known.map(|k| dsf_core::types::PublicKey::from(k.bytes));
    Base::parse(data, |_id| key.clone(), |_id| None).is_ok()
}

} // verus!
