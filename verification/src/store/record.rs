//! Byte layout of what a durable store keeps under fixed keys.
//!
//! The history tip is one record of 68 bytes: the page index and the block
//! index, two bytes each with the low byte first, then the signature. The
//! identity is two records: the private key and, where there is one, the
//! secret key.
use vstd::prelude::*;
use crate::endian::{high_byte, le16, low_byte, read_u16_le, write_u16_le};
use crate::store::ObjectInfo;
use crate::types::{Array32, Array64, Keys, PrivateKey, PublicKey, SecretKey, Signature};

verus! {

/// Length of the history tip's record.
pub const LAST_RECORD_LEN: usize = 68;

/// The public key that belongs to a private key: its second half.
pub open spec fn spec_public_of(private_key: Seq<u8>) -> Seq<u8> {
    private_key.subrange(32, 64)
}

/// `sodiumoxide::crypto::sign::ed25519::SecretKey::public_key`: the public
/// key of the pair that `private_key` is the private half of. The private
/// key holds the seed and then the public key; the call copies the last 32
/// of its 64 bytes.
#[verifier::external_body]
pub(crate) fn derive_public(private_key: &PrivateKey) -> (public_key: PublicKey)
    ensures
        public_key@ == spec_public_of(private_key@),
{
    let sk = sodiumoxide::crypto::sign::ed25519::SecretKey(private_key.bytes);
    Array32 { bytes: sk.public_key().0 }
}

/// The record of the history tip `info`.
pub open spec fn spec_encode_last(info: ObjectInfo) -> Seq<u8> {
    seq![
        low_byte(info.page_index),
        high_byte(info.page_index),
        low_byte(info.block_index),
        high_byte(info.block_index),
    ] + info.sig@
}

/// The history tip that `record` holds; `None` where it is too short.
pub open spec fn spec_decode_last(record: Seq<u8>) -> Option<ObjectInfo> {
    if record.len() < LAST_RECORD_LEN {
        None
    } else {
        Some(
            ObjectInfo {
                page_index: le16(record, 0),
                block_index: le16(record, 2),
                sig: Array64::from_seq(record.subrange(4, 68)),
            },
        )
    }
}

/// Writes the history tip as a record.
pub fn encode_last(info: &ObjectInfo) -> (record: Vec<u8>)
    ensures
        record@ == spec_encode_last(*info),
        record@.len() == LAST_RECORD_LEN,
        spec_decode_last(record@) == Some(*info),
{
    let mut d: Vec<u8> = Vec::new();
    let mut i: usize = 0;
    while i < 4
        invariant
            i <= 4,
            d@.len() == i,
        decreases 4 - i,
    {
        d.push(0u8);
        i += 1;
    }
    write_u16_le(&mut d, 0, info.page_index);
    write_u16_le(&mut d, 2, info.block_index);
    let mut j: usize = 0;
    while j < 64
        invariant
            j <= 64,
            d@.len() == 4 + j,
            d@[0] == low_byte(info.page_index),
            d@[1] == high_byte(info.page_index),
            d@[2] == low_byte(info.block_index),
            d@[3] == high_byte(info.block_index),
            forall|k: int| 0 <= k < j ==> d@[4 + k] == info.sig.bytes@[k],
        decreases 64 - j,
    {
        d.push(info.sig.bytes[j]);
        j += 1;
    }
    assert(spec_encode_last(*info).len() == 68);
    assert forall|k: int| 0 <= k < 68 implies d@[k] == spec_encode_last(*info)[k] by {
        if k >= 4 {
            assert(d@[4 + (k - 4)] == info.sig.bytes@[k - 4]);
        }
    }
    assert(d@ =~= spec_encode_last(*info));
    proof {
        lemma_last_round_trip(*info);
    }
    d
}

/// A history tip that was written as a record is read back unchanged.
pub proof fn lemma_last_round_trip(info: ObjectInfo)
    ensures
        spec_decode_last(spec_encode_last(info)) == Some(info),
{
    let r = spec_encode_last(info);
    assert(r.len() == 68);
    assert(r.subrange(4, 68) =~= info.sig@);
    info.sig.lemma_from_seq();
    assert(le16(r, 0) == info.page_index);
    assert(le16(r, 2) == info.block_index);
}

/// Reads the history tip from its record; `None` where the record is too
/// short to hold one.
pub fn decode_last(record: &[u8]) -> (info: Option<ObjectInfo>)
    ensures
        info == spec_decode_last(record@),
{
    if record.len() < LAST_RECORD_LEN {
        return None;
    }
    let page_index = read_u16_le(record, 0);
    let block_index = read_u16_le(record, 2);
    let sig = Array64::from_slice(record, 4);
    proof {
        sig.lemma_from_seq();
    }
    Some(ObjectInfo { page_index, block_index, sig })
}

/// The identity that the two records hold. Without a private key of the
/// right length there is none; a secret key of another length is left out.
pub open spec fn spec_ident_from_records(pri: Option<Seq<u8>>, sec: Option<Seq<u8>>) -> Option<
    IdentModel,
> {
    match pri {
        Some(p) if p.len() == 64 => Some(
            IdentModel {
                pub_key: spec_public_of(p),
                pri_key: p,
                sec_key: match sec {
                    Some(s) if s.len() == 32 => Some(s),
                    _ => None,
                },
            },
        ),
        _ => None,
    }
}

/// An identity as bytes.
pub ghost struct IdentModel {
    pub pub_key: Seq<u8>,
    pub pri_key: Seq<u8>,
    pub sec_key: Option<Seq<u8>>,
}

/// Whether `keys` holds exactly the identity `m`.
pub open spec fn holds_ident(keys: Keys, m: IdentModel) -> bool {
    &&& keys.pub_key matches Some(k) && k@ == m.pub_key
    &&& keys.pri_key matches Some(k) && k@ == m.pri_key
    &&& match m.sec_key {
        Some(s) => keys.sec_key matches Some(k) && k@ == s,
        None => keys.sec_key is None,
    }
    &&& keys.sym_keys is None
}

/// The view of an optional byte string.
pub open spec fn opt_view(o: Option<&[u8]>) -> Option<Seq<u8>> {
    match o {
        Some(s) => Some(s@),
        None => None,
    }
}

/// Builds the identity from the records of the private and the secret key.
pub fn ident_from_records(pri: Option<&[u8]>, sec: Option<&[u8]>) -> (keys: Option<Keys>)
    ensures
        match spec_ident_from_records(opt_view(pri), opt_view(sec)) {
            Some(m) => keys matches Some(k) && holds_ident(k, m),
            None => keys is None,
        },
{
    let pri_key = match pri {
        Some(p) => {
            if p.len() != 64 {
                return None;
            }
            Array64::from_slice(p, 0)
        },
        None => {
            return None;
        },
    };
    assert(pri_key@ =~= pri.unwrap()@);
    let pub_key = derive_public(&pri_key);
    let sec_key = match sec {
        Some(s) => {
            if s.len() == 32 {
                let k = Array32::from_slice(s, 0);
                assert(k@ =~= s@);
                Some(k)
            } else {
                None
            }
        },
        None => None,
    };
    Some(Keys { pub_key: Some(pub_key), pri_key: Some(pri_key), sec_key, sym_keys: None })
}

/// The records that keep `keys`: the private key and the secret key, each
/// where it is present.
pub fn ident_records(keys: &Keys) -> (r: (Option<Vec<u8>>, Option<Vec<u8>>))
    ensures
        match keys.pri_key {
            Some(k) => r.0 matches Some(v) && v@ == k@,
            None => r.0 is None,
        },
        match keys.sec_key {
            Some(k) => r.1 matches Some(v) && v@ == k@,
            None => r.1 is None,
        },
{
    let pri = match keys.pri_key {
        Some(k) => {
            let mut v: Vec<u8> = Vec::new();
            let mut i: usize = 0;
            while i < 64
                invariant
                    i <= 64,
                    v@.len() == i,
                    forall|j: int| 0 <= j < i ==> v@[j] == k.bytes@[j],
                decreases 64 - i,
            {
                v.push(k.bytes[i]);
                i += 1;
            }
            assert(v@ =~= k@);
            Some(v)
        },
        None => None,
    };
    let sec = match keys.sec_key {
        Some(k) => Some(k.to_vec()),
        None => None,
    };
    (pri, sec)
}

/// Copies `page` to the front of `buff` and returns its length. Where
/// `buff` is shorter than the page nothing is copied and `None` returned.
pub fn load_page(page: &[u8], buff: &mut [u8]) -> (n: Option<usize>)
    ensures
        final(buff)@.len() == old(buff)@.len(),
        match n {
            Some(k) => {
                &&& k == page@.len()
                &&& k <= old(buff)@.len()
                &&& final(buff)@.subrange(0, k as int) == page@
                &&& final(buff)@.subrange(k as int, old(buff)@.len() as int) == old(buff)@.subrange(
                    k as int,
                    old(buff)@.len() as int,
                )
            },
            None => page@.len() > old(buff)@.len() && final(buff)@ == old(buff)@,
        },
{
    let n = page.len();
    if buff.len() < n {
        return None;
    }
    let ghost before = buff@;
    let mut j: usize = 0;
    while j < n
        invariant
            j <= n == page@.len(),
            n <= buff@.len(),
            buff@.len() == before.len(),
            forall|k: int| 0 <= k < j ==> buff@[k] == page@[k],
            forall|k: int| j <= k < buff@.len() ==> buff@[k] == before[k],
        decreases n - j,
    {
        buff[j] = page[j];
        j += 1;
    }
    assert(buff@.subrange(0, n as int) =~= page@);
    assert(buff@.subrange(n as int, before.len() as int) =~= before.subrange(
        n as int,
        before.len() as int,
    ));
    Some(n)
}

} // verus!
