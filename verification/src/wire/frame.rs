//! Layout of a signed object.
//!
//! An object is a header of 16 bytes, the identifier of its origin, a body,
//! private options, public options and a signature over all that precedes
//! it. The header gives, as integers of two bytes with the high byte first:
//! protocol version, application, kind, flags, index and the lengths of
//! body, private options and public options. A public option is a kind and
//! a length of two bytes each, then its value.
//!
//! An object is parseable where it holds all the bytes that its header
//! declares and its public options can be walked. Only such an object is
//! handed to the core library, whose parser does not check these things.
use vstd::prelude::*;
use vstd::slice::slice_subrange;
use vstd::utf8::valid_utf8;
use crate::endian::{be16, read_u16_be};
use crate::types::{Array32, Array64, Id, PublicKey, Signature};

verus! {

/// Length of the header.
pub const HEADER_LEN: usize = 16;

/// Where the application identifier stands.
pub const APPLICATION_ID_AT: usize = 2;

/// Where the object kind stands.
pub const KIND_AT: usize = 4;

/// Where the flags stand.
pub const FLAGS_AT: usize = 6;

/// Where the index stands.
pub const INDEX_AT: usize = 8;

/// Where the length of the body stands.
pub const DATA_LEN_AT: usize = 10;

/// Where the length of the private options stands.
pub const PRIVATE_OPTIONS_LEN_AT: usize = 12;

/// Where the length of the public options stands.
pub const PUBLIC_OPTIONS_LEN_AT: usize = 14;

/// Where the identifier of the origin stands.
pub const ID_AT: usize = 16;

/// Where the body starts.
pub const BODY_AT: usize = 48;

/// Length of an object with empty body and no options.
pub const MIN_LEN: usize = 112;

/// Option that carries a public key.
pub const OPTION_PUBKEY: u16 = 0x0000;

/// Option that names the peer behind a secondary object.
pub const OPTION_PEER_ID: u16 = 0x0001;

/// Option that carries the signature of the previous object.
pub const OPTION_PREV_SIG: u16 = 0x0002;

/// Option that carries a service kind as text.
pub const OPTION_KIND: u16 = 0x0003;

/// Option that carries a service name as text.
pub const OPTION_NAME: u16 = 0x0004;

/// Option that carries an IPv4 address and port.
pub const OPTION_ADDR_IPV4: u16 = 0x0005;

/// Option that carries an IPv6 address and port.
pub const OPTION_ADDR_IPV6: u16 = 0x0006;

/// Option that carries the time of issue.
pub const OPTION_ISSUED: u16 = 0x0007;

/// Option that carries the time of expiry.
pub const OPTION_EXPIRY: u16 = 0x0008;

/// Option that carries a limit.
pub const OPTION_LIMIT: u16 = 0x0009;

/// Option that carries a key and a value as text.
pub const OPTION_META: u16 = 0x000a;

/// The application identifier in the header.
pub open spec fn spec_application_id(s: Seq<u8>) -> u16 {
    be16(s, 2)
}

/// The object kind in the header.
pub open spec fn spec_kind(s: Seq<u8>) -> u16 {
    be16(s, 4)
}

/// The flags in the header.
pub open spec fn spec_flags(s: Seq<u8>) -> u16 {
    be16(s, 6)
}

/// The index in the header.
pub open spec fn spec_index(s: Seq<u8>) -> u16 {
    be16(s, 8)
}

/// The length of the body that the header declares.
pub open spec fn spec_data_len(s: Seq<u8>) -> int {
    be16(s, 10) as int
}

/// The length of the private options that the header declares.
pub open spec fn spec_private_options_len(s: Seq<u8>) -> int {
    be16(s, 12) as int
}

/// The length of the public options that the header declares.
pub open spec fn spec_public_options_len(s: Seq<u8>) -> int {
    be16(s, 14) as int
}

/// The length of the whole object that the header declares.
pub open spec fn spec_len(s: Seq<u8>) -> int {
    112 + spec_data_len(s) + spec_private_options_len(s) + spec_public_options_len(s)
}

/// Whether `s` starts with a header and holds all the bytes it declares.
pub open spec fn framed(s: Seq<u8>) -> bool {
    s.len() >= 16 && s.len() >= spec_len(s)
}

/// The identifier of the origin.
pub open spec fn spec_id(s: Seq<u8>) -> Seq<u8> {
    s.subrange(16, 48)
}

/// The body.
pub open spec fn spec_body(s: Seq<u8>) -> Seq<u8> {
    s.subrange(48, 48 + spec_data_len(s))
}

/// The private options, as they stand.
pub open spec fn spec_private_options(s: Seq<u8>) -> Seq<u8> {
    s.subrange(48 + spec_data_len(s), 48 + spec_data_len(s) + spec_private_options_len(s))
}

/// The public options, as they stand.
pub open spec fn spec_public_options(s: Seq<u8>) -> Seq<u8> {
    s.subrange(
        48 + spec_data_len(s) + spec_private_options_len(s),
        48 + spec_data_len(s) + spec_private_options_len(s) + spec_public_options_len(s),
    )
}

/// The signature.
pub open spec fn spec_signature(s: Seq<u8>) -> Seq<u8> {
    s.subrange(spec_len(s) - 64, spec_len(s))
}

/// What a walk over options does at one of them.
#[derive(Clone, Copy, Debug, PartialEq, Eq)]
pub enum Span {
    /// The option is taken, and the next one starts this many bytes on.
    Next(usize),
    /// The walk ends here, and the options behind are not looked at.
    End,
    /// The option cannot be taken.
    Refused,
}

/// The number of bytes of `s` that are a vertical bar.
pub open spec fn count_bars(s: Seq<u8>) -> nat
    decreases s.len(),
{
    if s.len() == 0 {
        0
    } else {
        count_bars(s.drop_last()) + if s.last() == 0x7c {
            1nat
        } else {
            0nat
        }
    }
}

/// What the walk does at an option of kind `kind` with the value `value`.
///
/// An option of fixed length reaches as far as its kind says, whatever
/// length it declares, and is refused where its value is shorter. An option
/// that carries text is refused where the text is not UTF-8. Metadata is a
/// key and a value with one vertical bar between them; the walk ends at
/// metadata of another shape. An option of unknown kind is skipped.
pub open spec fn spec_option_span(kind: u16, value: Seq<u8>) -> Span {
    let len = value.len();
    if kind == OPTION_PUBKEY || kind == OPTION_PEER_ID {
        if len >= 32 {
            Span::Next(36)
        } else {
            Span::Refused
        }
    } else if kind == OPTION_PREV_SIG {
        if len >= 64 {
            Span::Next(68)
        } else {
            Span::Refused
        }
    } else if kind == OPTION_KIND || kind == OPTION_NAME {
        if valid_utf8(value) {
            Span::Next((4 + len) as usize)
        } else {
            Span::Refused
        }
    } else if kind == OPTION_META {
        if !valid_utf8(value) {
            Span::Refused
        } else if count_bars(value) == 1 {
            Span::Next((4 + len) as usize)
        } else {
            Span::End
        }
    } else if kind == OPTION_ADDR_IPV4 {
        if len >= 6 {
            Span::Next(10)
        } else {
            Span::Refused
        }
    } else if kind == OPTION_ADDR_IPV6 {
        if len >= 18 {
            Span::Next(22)
        } else {
            Span::Refused
        }
    } else if kind == OPTION_ISSUED || kind == OPTION_EXPIRY {
        if len >= 8 {
            Span::Next(12)
        } else {
            Span::Refused
        }
    } else if kind == OPTION_LIMIT {
        if len >= 4 {
            Span::Next(8)
        } else {
            Span::Refused
        }
    } else {
        Span::Next((4 + len) as usize)
    }
}

/// Whether the options of `o` from `at` on can be walked: each declares no
/// more than is left, and none is refused before the walk ends.
pub open spec fn options_ok(o: Seq<u8>, at: int) -> bool
    decreases o.len() - at,
{
    if at < 0 || o.len() - at < 4 {
        true
    } else {
        let kind = be16(o, at);
        let len = be16(o, at + 2) as int;
        if at + 4 + len > o.len() {
            false
        } else {
            match spec_option_span(kind, o.subrange(at + 4, at + 4 + len)) {
                Span::Next(n) => n >= 4 && options_ok(o, at + n),
                Span::End => true,
                Span::Refused => false,
            }
        }
    }
}

/// The public key that the last public-key option of `o` from `at` on
/// carries, as far as the walk goes, or `found` where there is none.
pub open spec fn last_key(o: Seq<u8>, at: int, found: Option<Seq<u8>>) -> Option<Seq<u8>>
    decreases o.len() - at,
{
    if at < 0 || o.len() - at < 4 {
        found
    } else {
        let kind = be16(o, at);
        let len = be16(o, at + 2) as int;
        if at + 4 + len > o.len() {
            found
        } else {
            match spec_option_span(kind, o.subrange(at + 4, at + 4 + len)) {
                Span::Next(n) => if n >= 4 {
                    last_key(
                        o,
                        at + n,
                        if kind == OPTION_PUBKEY {
                            Some(o.subrange(at + 4, at + 36))
                        } else {
                            found
                        },
                    )
                } else {
                    found
                },
                _ => found,
            }
        }
    }
}

/// Whether the options of `o` from `at` on can be given to an object that
/// is sent: each is of a kind that carries text, an address, a time or a
/// limit, declares exactly the length of its value, and the last one ends
/// where `o` ends. The public key, the parent and the peer are attached by
/// those who sign, and options of unknown kinds cannot be written.
pub open spec fn sendable(o: Seq<u8>, at: int) -> bool
    decreases o.len() - at,
{
    if at < 0 || at > o.len() {
        false
    } else if at == o.len() {
        true
    } else if o.len() - at < 4 {
        false
    } else {
        let kind = be16(o, at);
        let len = be16(o, at + 2) as int;
        if at + 4 + len > o.len() || kind < OPTION_KIND || kind > OPTION_META {
            false
        } else {
            spec_option_span(kind, o.subrange(at + 4, at + 4 + len)) == Span::Next(
                (4 + len) as usize,
            ) && sendable(o, at + 4 + len)
        }
    }
}

/// The public key attached to the object, if any.
pub open spec fn spec_attached_key(s: Seq<u8>) -> Option<Seq<u8>> {
    last_key(spec_public_options(s), 0, None)
}

/// Whether `s` can be taken apart: it is framed and its public options can
/// be walked to the end.
pub open spec fn parseable(s: Seq<u8>) -> bool {
    framed(s) && options_ok(spec_public_options(s), 0)
}

/// The fixed fields of an object.
#[derive(Clone, Copy, Debug, PartialEq, Eq)]
pub struct Frame {
    /// Application that the object belongs to; zero for protocol messages.
    pub application_id: u16,
    /// Kind of the object.
    pub kind: u16,
    /// Flags of the object.
    pub flags: u16,
    /// Request identifier of a message, block index of a data object.
    pub index: u16,
    /// Identifier of the origin.
    pub id: Id,
    /// Length of the body; the body starts at [`BODY_AT`].
    pub body_len: usize,
    /// Public key attached to the object, if any.
    pub public_key: Option<PublicKey>,
    /// Signature of the object.
    pub signature: Signature,
    /// Length of the whole object.
    pub len: usize,
}

impl Frame {
    /// Whether `self` holds the fields of the object `s`.
    pub open spec fn describes(&self, s: Seq<u8>) -> bool {
        &&& self.application_id == spec_application_id(s)
        &&& self.kind == spec_kind(s)
        &&& self.flags == spec_flags(s)
        &&& self.index == spec_index(s)
        &&& self.id@ == spec_id(s)
        &&& self.body_len == spec_data_len(s)
        &&& match spec_attached_key(s) {
            Some(k) => self.public_key matches Some(p) && p@ == k,
            None => self.public_key is None,
        }
        &&& self.signature@ == spec_signature(s)
        &&& self.len == spec_len(s)
    }
}

/// The fixed fields of the object `s`.
pub open spec fn spec_frame(s: Seq<u8>) -> Frame {
    Frame {
        application_id: spec_application_id(s),
        kind: spec_kind(s),
        flags: spec_flags(s),
        index: spec_index(s),
        id: Array32::from_seq(spec_id(s)),
        body_len: spec_data_len(s) as usize,
        public_key: match spec_attached_key(s) {
            Some(k) => Some(Array32::from_seq(k)),
            None => None,
        },
        signature: Array64::from_seq(spec_signature(s)),
        len: spec_len(s) as usize,
    }
}

/// The fields that describe an object are the fields of that object.
pub proof fn lemma_describes(f: Frame, s: Seq<u8>)
    requires
        f.describes(s),
    ensures
        f == spec_frame(s),
{
    f.id.lemma_from_seq();
    f.signature.lemma_from_seq();
    if let Some(k) = f.public_key {
        k.lemma_from_seq();
    }
}

/// `core::str::from_utf8`: whether it takes `data`, which it does exactly
/// where `data` is valid UTF-8.
#[verifier::external_body]
pub(crate) fn is_utf8(data: &[u8]) -> (ok: bool)
    ensures
        ok == valid_utf8(data@),
{
    core::str::from_utf8(data).is_ok()
}

/// Whether exactly one byte of `data` is a vertical bar.
fn one_bar(data: &[u8]) -> (r: bool)
    ensures
        r == (count_bars(data@) == 1),
{
    let n = data.len();
    let mut bars: usize = 0;
    let mut i: usize = 0;
    while i < n
        invariant
            i <= n == data@.len(),
            bars <= i,
            bars == count_bars(data@.subrange(0, i as int)),
        decreases n - i,
    {
        assert(data@.subrange(0, i + 1).drop_last() =~= data@.subrange(0, i as int));
        if data[i] == 0x7c {
            bars += 1;
        }
        i += 1;
    }
    assert(data@.subrange(0, n as int) =~= data@);
    bars == 1
}

/// What the walk does at an option; see [`spec_option_span`].
pub fn option_span(kind: u16, value: &[u8]) -> (n: Span)
    requires
        value@.len() <= 0xffff,
    ensures
        n == spec_option_span(kind, value@),
        n matches Span::Next(m) ==> 4 <= m <= 4 + value@.len(),
{
    let len = value.len();
    if kind == OPTION_PUBKEY || kind == OPTION_PEER_ID {
        if len >= 32 {
            Span::Next(36)
        } else {
            Span::Refused
        }
    } else if kind == OPTION_PREV_SIG {
        if len >= 64 {
            Span::Next(68)
        } else {
            Span::Refused
        }
    } else if kind == OPTION_KIND || kind == OPTION_NAME {
        if is_utf8(value) {
            Span::Next(4 + len)
        } else {
            Span::Refused
        }
    } else if kind == OPTION_META {
        if !is_utf8(value) {
            Span::Refused
        } else if one_bar(value) {
            Span::Next(4 + len)
        } else {
            Span::End
        }
    } else if kind == OPTION_ADDR_IPV4 {
        if len >= 6 {
            Span::Next(10)
        } else {
            Span::Refused
        }
    } else if kind == OPTION_ADDR_IPV6 {
        if len >= 18 {
            Span::Next(22)
        } else {
            Span::Refused
        }
    } else if kind == OPTION_ISSUED || kind == OPTION_EXPIRY {
        if len >= 8 {
            Span::Next(12)
        } else {
            Span::Refused
        }
    } else if kind == OPTION_LIMIT {
        if len >= 4 {
            Span::Next(8)
        } else {
            Span::Refused
        }
    } else {
        Span::Next(4 + len)
    }
}

/// The view of an optional key.
pub open spec fn key_view(k: Option<PublicKey>) -> Option<Seq<u8>> {
    match k {
        Some(p) => Some(p@),
        None => None,
    }
}

/// Walks the public options that stand in `data` from `base` to `base + len`.
/// Returns `None` where an option is refused or declares more than is left,
/// else the public key of the last public-key option that the walk met.
fn walk_options(data: &[u8], base: usize, len: usize) -> (r: Option<Option<PublicKey>>)
    requires
        base + len <= data@.len(),
    ensures
        r is Some <==> options_ok(data@.subrange(base as int, base + len), 0),
        r matches Some(k) ==> key_view(k) == last_key(
            data@.subrange(base as int, base + len),
            0,
            None,
        ),
{
    let total = data.len();
    let ghost o = data@.subrange(base as int, base + len);
    let mut at: usize = 0;
    let mut key: Option<PublicKey> = None;
    while len - at >= 4
        invariant
            at <= len,
            base + len <= total == data@.len(),
            o == data@.subrange(base as int, base + len),
            options_ok(o, 0) == options_ok(o, at as int),
            last_key(o, 0, None) == last_key(o, at as int, key_view(key)),
        decreases len - at,
    {
        let kind = read_u16_be(data, base + at);
        let olen = read_u16_be(data, base + at + 2) as usize;
        assert(kind == be16(o, at as int));
        assert(olen == be16(o, at + 2));
        if olen > len - at - 4 {
            return None;
        }
        let value = slice_subrange(data, base + at + 4, base + at + 4 + olen);
        assert(value@ =~= o.subrange(at + 4, at + 4 + olen));
        match option_span(kind, value) {
            Span::Next(n) => {
                if kind == OPTION_PUBKEY {
                    let k = Array32::from_slice(data, base + at + 4);
                    assert(k@ =~= o.subrange(at + 4, at + 36));
                    key = Some(k);
                }
                at = at + n;
            },
            Span::End => {
                return Some(key);
            },
            Span::Refused => {
                return None;
            },
        }
    }
    Some(key)
}

/// Whether `options` can be given to an object that is sent; see
/// [`sendable`].
pub fn check_options(options: &[u8]) -> (ok: bool)
    ensures
        ok == sendable(options@, 0),
{
    let len = options.len();
    let mut at: usize = 0;
    while at < len
        invariant
            at <= len == options@.len(),
            sendable(options@, 0) == sendable(options@, at as int),
        decreases len - at,
    {
        if len - at < 4 {
            return false;
        }
        let kind = read_u16_be(options, at);
        let olen = read_u16_be(options, at + 2) as usize;
        if olen > len - at - 4 || kind < OPTION_KIND || kind > OPTION_META {
            return false;
        }
        let value = slice_subrange(options, at + 4, at + 4 + olen);
        match option_span(kind, value) {
            Span::Next(n) => {
                if n != 4 + olen {
                    return false;
                }
                at = at + n;
            },
            _ => {
                return false;
            },
        }
    }
    true
}

/// Takes the object at the front of `data` apart. Returns its fixed fields
/// where `data` is parseable, else `None`. Bytes behind the object are
/// ignored.
pub fn inspect(data: &[u8]) -> (r: Option<Frame>)
    ensures
        r is Some <==> parseable(data@),
        r matches Some(f) ==> f.describes(data@) && f == spec_frame(data@) && f.len <= data@.len(),
{
    let total = data.len();
    if total < HEADER_LEN {
        return None;
    }
    let body_len = read_u16_be(data, DATA_LEN_AT) as usize;
    let private_len = read_u16_be(data, PRIVATE_OPTIONS_LEN_AT) as usize;
    let public_len = read_u16_be(data, PUBLIC_OPTIONS_LEN_AT) as usize;
    let len = MIN_LEN + body_len + private_len + public_len;
    if total < len {
        return None;
    }
    let public_key = match walk_options(data, BODY_AT + body_len + private_len, public_len) {
        Some(k) => k,
        None => {
            return None;
        },
    };
    let frame = Frame {
            application_id: read_u16_be(data, APPLICATION_ID_AT),
            kind: read_u16_be(data, KIND_AT),
            flags: read_u16_be(data, FLAGS_AT),
            index: read_u16_be(data, INDEX_AT),
            id: Array32::from_slice(data, ID_AT),
            body_len,
            public_key,
            signature: Array64::from_slice(data, len - 64),
            len,
        };
    proof {
        lemma_describes(frame, data@);
    }
    Some(frame)
}

/// A copy of the bytes of `data` from `from` to `to`.
pub fn copy_range(data: &[u8], from: usize, to: usize) -> (v: Vec<u8>)
    requires
        from <= to <= data@.len(),
    ensures
        v@ == data@.subrange(from as int, to as int),
{
    let total = data.len();
    let mut v: Vec<u8> = Vec::new();
    let mut i: usize = from;
    while i < to
        invariant
            from <= i <= to <= total == data@.len(),
            v@ == data@.subrange(from as int, i as int),
        decreases to - i,
    {
        v.push(data[i]);
        assert(data@.subrange(from as int, i + 1) =~= data@.subrange(from as int, i as int).push(
            data@[i as int],
        ));
        i += 1;
    }
    v
}

} // verus!
