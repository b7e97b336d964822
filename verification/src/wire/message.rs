//! What a signed object means to the engine.
use vstd::prelude::*;
use crate::endian::{be16, read_u16_be};
use crate::types::{Array32, Id};
use crate::wire::frame::{spec_body, Frame, BODY_AT};

verus! {

/// Bits of a kind that tell pages, requests, responses and data apart.
pub const KIND_MASK: u16 = 0x6000;

/// Bit of a kind that an application defines.
pub const KIND_APPLICATION: u16 = 0x8000;

/// Class bits of a request.
pub const KIND_REQUEST: u16 = 0x2000;

/// Class bits of a response.
pub const KIND_RESPONSE: u16 = 0x4000;

/// Class bits of a data object; also the kind of generic data.
pub const KIND_DATA: u16 = 0x6000;

/// Request that asks who is there; its body is a query.
pub const KIND_DISCOVER: u16 = 0x2000;

/// Request to receive what a service publishes; its body names the service.
pub const KIND_SUBSCRIBE: u16 = 0x2005;

/// Request to receive it no longer; its body names the service.
pub const KIND_UNSUBSCRIBE: u16 = 0x2008;

/// Response that carries a status code of four bytes.
pub const KIND_STATUS: u16 = 0x4000;

/// Response to a discovery request; its body describes the responder.
pub const KIND_FOUND: u16 = 0x4003;

/// Flags of objects that the engine does not take: secondary and encrypted.
pub const FLAGS_REFUSED: u16 = 0x0003;

/// What the engine takes an object for.
#[derive(Clone, Copy, Debug, PartialEq, Eq, Structural)]
pub enum Class {
    /// A discovery request.
    Discover,
    /// A subscribe request.
    Subscribe,
    /// An unsubscribe request.
    Unsubscribe,
    /// A status response.
    Status,
    /// A discovery response.
    Found,
    /// A published data object.
    Data,
    /// A request or response of a kind that the engine does not implement.
    Unsupported,
    /// Anything else; it is dropped.
    Ignored,
}

/// The class of an object with the given header fields and body length.
pub open spec fn spec_classify(application_id: u16, kind: u16, flags: u16, body_len: int) -> Class {
    if flags & FLAGS_REFUSED != 0 {
        Class::Ignored
    } else if kind & KIND_MASK == KIND_DATA {
        Class::Data
    } else if kind & KIND_APPLICATION != 0 || application_id != 0 {
        Class::Ignored
    } else if kind == KIND_DISCOVER {
        Class::Discover
    } else if kind == KIND_SUBSCRIBE {
        if body_len >= 32 {
            Class::Subscribe
        } else {
            Class::Ignored
        }
    } else if kind == KIND_UNSUBSCRIBE {
        if body_len >= 32 {
            Class::Unsubscribe
        } else {
            Class::Ignored
        }
    } else if kind == KIND_STATUS {
        if body_len >= 4 {
            Class::Status
        } else {
            Class::Ignored
        }
    } else if kind == KIND_FOUND {
        Class::Found
    } else if kind & KIND_MASK == KIND_REQUEST || kind & KIND_MASK == KIND_RESPONSE {
        Class::Unsupported
    } else {
        Class::Ignored
    }
}

/// What the engine takes the object with the fields `frame` for.
pub fn classify(frame: &Frame) -> (c: Class)
    ensures
        c == spec_classify(frame.application_id, frame.kind, frame.flags, frame.body_len as int),
{
    let kind = frame.kind;
    if frame.flags & FLAGS_REFUSED != 0 {
        Class::Ignored
    } else if kind & KIND_MASK == KIND_DATA {
        Class::Data
    } else if kind & KIND_APPLICATION != 0 || frame.application_id != 0 {
        Class::Ignored
    } else if kind == KIND_DISCOVER {
        Class::Discover
    } else if kind == KIND_SUBSCRIBE {
        if frame.body_len >= 32 {
            Class::Subscribe
        } else {
            Class::Ignored
        }
    } else if kind == KIND_UNSUBSCRIBE {
        if frame.body_len >= 32 {
            Class::Unsubscribe
        } else {
            Class::Ignored
        }
    } else if kind == KIND_STATUS {
        if frame.body_len >= 4 {
            Class::Status
        } else {
            Class::Ignored
        }
    } else if kind == KIND_FOUND {
        Class::Found
    } else if kind & KIND_MASK == KIND_REQUEST || kind & KIND_MASK == KIND_RESPONSE {
        Class::Unsupported
    } else {
        Class::Ignored
    }
}

/// The service that the body of a subscribe or unsubscribe request names.
pub open spec fn spec_target(s: Seq<u8>) -> Seq<u8> {
    spec_body(s).subrange(0, 32)
}

/// Whether the body of a status response reports success: a code of zero.
pub open spec fn spec_status_ok(s: Seq<u8>) -> bool {
    be16(spec_body(s), 0) == 0 && be16(spec_body(s), 2) == 0
}

/// The service that the body of a subscribe or unsubscribe request names.
pub fn target(data: &[u8], frame: &Frame) -> (id: Id)
    requires
        frame.describes(data@),
        frame.len <= data@.len(),
        frame.body_len >= 32,
    ensures
        id@ == spec_target(data@),
{
    let id = Array32::from_slice(data, BODY_AT);
    assert(id@ =~= spec_target(data@));
    id
}

/// Whether the body of a status response reports success.
pub fn status_ok(data: &[u8], frame: &Frame) -> (ok: bool)
    requires
        frame.describes(data@),
        frame.len <= data@.len(),
        frame.body_len >= 4,
    ensures
        ok == spec_status_ok(data@),
{
    let hi = read_u16_be(data, BODY_AT);
    let lo = read_u16_be(data, BODY_AT + 2);
    hi == 0 && lo == 0
}

/// The body of a status response that reports success.
pub fn status_body() -> (body: Vec<u8>)
    ensures
        body@ == seq![0u8, 0u8, 0u8, 0u8],
{
    let mut body: Vec<u8> = Vec::new();
    body.push(0);
    body.push(0);
    body.push(0);
    body.push(0);
    assert(body@ =~= seq![0u8, 0u8, 0u8, 0u8]);
    body
}

/// Whether a service that describes itself by `info` answers the discovery
/// query `query`: the empty query asks for everyone, any other for the
/// services with exactly that description.
pub open spec fn spec_answers(info: Seq<u8>, query: Seq<u8>) -> bool {
    query.len() == 0 || info == query
}

/// Whether a service that describes itself by `info` answers `query`.
pub fn answers(info: &[u8], query: &[u8]) -> (r: bool)
    ensures
        r == spec_answers(info@, query@),
{
    if query.len() == 0 {
        return true;
    }
    if info.len() != query.len() {
        return false;
    }
    let n = info.len();
    let mut i: usize = 0;
    while i < n
        invariant
            i <= n,
            n == info@.len() == query@.len(),
            forall|j: int| 0 <= j < i ==> info@[j] == query@[j],
        decreases n - i,
    {
        if info[i] != query[i] {
            return false;
        }
        i += 1;
    }
    assert(info@ =~= query@);
    true
}

} // verus!
