//! Fixed-width identifiers and key material.
use vstd::prelude::*;
use vstd::std_specs::cmp::PartialEqSpecImpl;

verus! {

/// Length of a service identifier in bytes.
pub const ID_LEN: usize = 32;

/// Length of a public key in bytes.
pub const PUBLIC_KEY_LEN: usize = 32;

/// Length of a private (signing) key in bytes.
pub const PRIVATE_KEY_LEN: usize = 64;

/// Length of a secret (symmetric) key in bytes.
pub const SECRET_KEY_LEN: usize = 32;

/// Length of an object signature in bytes.
pub const SIGNATURE_LEN: usize = 64;

/// Token that matches a response to the request that caused it.
pub type RequestId = u16;

/// Thirty-two bytes, compared byte by byte.
#[derive(Clone, Copy, Debug, Eq, Hash)]
pub struct Array32 {
    pub bytes: [u8; 32],
}

/// Sixty-four bytes, compared byte by byte.
#[derive(Clone, Copy, Debug, Eq, Hash)]
pub struct Array64 {
    pub bytes: [u8; 64],
}

/// Identifier of a service or peer: the hash of its public key.
pub type Id = Array32;

/// Public half of a signing key pair.
pub type PublicKey = Array32;

/// Symmetric key.
pub type SecretKey = Array32;

/// Private half of a signing key pair.
pub type PrivateKey = Array64;

/// Signature over an encoded object; also the object's address in a store.
pub type Signature = Array64;

impl View for Array32 {
    type V = Seq<u8>;

    open spec fn view(&self) -> Seq<u8> {
        self.bytes@
    }
}

impl View for Array64 {
    type V = Seq<u8>;

    open spec fn view(&self) -> Seq<u8> {
        self.bytes@
    }
}

impl PartialEq for Array32 {
    fn eq(&self, other: &Array32) -> (r: bool) {
        let mut i: usize = 0;
        while i < 32
            invariant
                i <= 32,
                forall|j: int| 0 <= j < i ==> self.bytes@[j] == other.bytes@[j],
            decreases 32 - i,
        {
            if self.bytes[i] != other.bytes[i] {
                return false;
            }
            i += 1;
        }
        assert(self.bytes@ =~= other.bytes@);
        true
    }
}

impl PartialEqSpecImpl for Array32 {
    open spec fn obeys_eq_spec() -> bool {
        true
    }

    open spec fn eq_spec(&self, other: &Array32) -> bool {
        self.bytes@ == other.bytes@
    }
}

impl PartialEq for Array64 {
    fn eq(&self, other: &Array64) -> (r: bool) {
        let mut i: usize = 0;
        while i < 64
            invariant
                i <= 64,
                forall|j: int| 0 <= j < i ==> self.bytes@[j] == other.bytes@[j],
            decreases 64 - i,
        {
            if self.bytes[i] != other.bytes[i] {
                return false;
            }
            i += 1;
        }
        assert(self.bytes@ =~= other.bytes@);
        true
    }
}

impl PartialEqSpecImpl for Array64 {
    open spec fn obeys_eq_spec() -> bool {
        true
    }

    open spec fn eq_spec(&self, other: &Array64) -> bool {
        self.bytes@ == other.bytes@
    }
}

/// Two values with the same bytes are the same value.
pub proof fn lemma_array32_ext(a: Array32, b: Array32)
    ensures
        (a@ == b@) <==> (a == b),
{
    if a@ == b@ {
        assert(a.bytes@ =~= b.bytes@);
        assert(a.bytes == b.bytes);
    }
}

/// Two values with the same bytes are the same value.
pub proof fn lemma_array64_ext(a: Array64, b: Array64)
    ensures
        (a@ == b@) <==> (a == b),
{
    if a@ == b@ {
        assert(a.bytes@ =~= b.bytes@);
        assert(a.bytes == b.bytes);
    }
}

impl Array32 {
    /// The value that holds the 32 bytes of `s`.
    pub closed spec fn from_seq(s: Seq<u8>) -> Array32 {
        Array32 { bytes: choose|a: [u8; 32]| a@ == s }
    }

    /// `from_seq` of a value's bytes is the value.
    pub proof fn lemma_from_seq(self)
        ensures
            Array32::from_seq(self@) == self,
    {
        let a = Array32::from_seq(self@);
        assert(self.bytes@ == self@);
        assert(a.bytes@ == self@);
        lemma_array32_ext(a, self);
    }

    /// Wraps the given bytes.
    pub fn new(bytes: [u8; 32]) -> (r: Array32)
        ensures
            r.bytes == bytes,
    {
        Array32 { bytes }
    }

    /// Whether `self` and `other` hold the same bytes.
    pub fn same(&self, other: &Array32) -> (r: bool)
        ensures
            r == (*self == *other),
    {
        proof {
            lemma_array32_ext(*self, *other);
        }
        *self == *other
    }

    /// Copies the 32 bytes of `data` that start at `at`.
    pub fn from_slice(data: &[u8], at: usize) -> (r: Array32)
        requires
            at + 32 <= data@.len(),
        ensures
            r@ == data@.subrange(at as int, at + 32),
    {
        let len = data.len();
        let mut bytes = [0u8; 32];
        let mut i: usize = 0;
        while i < 32
            invariant
                i <= 32,
                at + 32 <= len == data@.len(),
                forall|j: int| 0 <= j < i ==> bytes@[j] == data@[at + j],
            decreases 32 - i,
        {
            bytes[i] = data[at + i];
            i += 1;
        }
        assert(bytes@ =~= data@.subrange(at as int, at + 32));
        Array32 { bytes }
    }

    /// The bytes as a vector.
    pub fn to_vec(&self) -> (v: Vec<u8>)
        ensures
            v@ == self@,
    {
        let mut v: Vec<u8> = Vec::new();
        let mut i: usize = 0;
        while i < 32
            invariant
                i <= 32,
                v@.len() == i,
                forall|j: int| 0 <= j < i ==> v@[j] == self.bytes@[j],
            decreases 32 - i,
        {
            v.push(self.bytes[i]);
            i += 1;
        }
        assert(v@ =~= self.bytes@);
        v
    }
}

impl Array64 {
    /// The value that holds the 64 bytes of `s`.
    pub closed spec fn from_seq(s: Seq<u8>) -> Array64 {
        Array64 { bytes: choose|a: [u8; 64]| a@ == s }
    }

    /// `from_seq` of a value's bytes is the value.
    pub proof fn lemma_from_seq(self)
        ensures
            Array64::from_seq(self@) == self,
    {
        let a = Array64::from_seq(self@);
        assert(self.bytes@ == self@);
        assert(a.bytes@ == self@);
        lemma_array64_ext(a, self);
    }

    /// Wraps the given bytes.
    pub fn new(bytes: [u8; 64]) -> (r: Array64)
        ensures
            r.bytes == bytes,
    {
        Array64 { bytes }
    }

    /// Whether `self` and `other` hold the same bytes.
    pub fn same(&self, other: &Array64) -> (r: bool)
        ensures
            r == (*self == *other),
    {
        proof {
            lemma_array64_ext(*self, *other);
        }
        *self == *other
    }

    /// Copies the 64 bytes of `data` that start at `at`.
    pub fn from_slice(data: &[u8], at: usize) -> (r: Array64)
        requires
            at + 64 <= data@.len(),
        ensures
            r@ == data@.subrange(at as int, at + 64),
    {
        let len = data.len();
        let mut bytes = [0u8; 64];
        let mut i: usize = 0;
        while i < 64
            invariant
                i <= 64,
                at + 64 <= len == data@.len(),
                forall|j: int| 0 <= j < i ==> bytes@[j] == data@[at + j],
            decreases 64 - i,
        {
            bytes[i] = data[at + i];
            i += 1;
        }
        assert(bytes@ =~= data@.subrange(at as int, at + 64));
        Array64 { bytes }
    }
}

/// Key material of one service.
#[derive(Clone, Copy, Debug, PartialEq, Eq)]
pub struct Keys {
    /// Key that verifies the service's signatures.
    pub pub_key: Option<PublicKey>,
    /// Key that signs for the service; held by its owner only.
    pub pri_key: Option<PrivateKey>,
    /// Key that encrypts the service's private data.
    pub sec_key: Option<SecretKey>,
    /// Pair of keys for symmetric signing between two peers.
    pub sym_keys: Option<(SecretKey, SecretKey)>,
}

impl Keys {
    /// Key material with every key absent.
    pub fn empty() -> (k: Keys)
        ensures
            k == Keys::spec_empty(),
    {
        Keys { pub_key: None, pri_key: None, sec_key: None, sym_keys: None }
    }

    /// Key material with every key absent.
    pub open spec fn spec_empty() -> Keys {
        Keys { pub_key: None, pri_key: None, sec_key: None, sym_keys: None }
    }

    /// Whether these keys can sign: both halves of the key pair are present.
    pub open spec fn can_sign(&self) -> bool {
        self.pub_key is Some && self.pri_key is Some
    }
}

} // verus!
