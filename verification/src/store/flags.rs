//! Capabilities that a store backend advertises.
use vstd::prelude::*;

verus! {

/// Bit of the capability to keep the local identity and the peers' keys.
pub const KEYS: u16 = 0b0000_0001;

/// Bit of the capability to keep the history tip.
pub const SIGS: u16 = 0b0000_0010;

/// Bit of the capability to keep pages.
pub const PAGES: u16 = 0b0000_0100;

/// Bits of every capability.
pub const ALL: u16 = 0b0000_0111;

/// Set of storage responsibilities that a backend implements.
#[derive(Clone, Copy, Debug, PartialEq, Eq, Structural)]
pub struct StoreFlags {
    bits: u16,
}

impl StoreFlags {
    /// The flags as a bit pattern.
    pub closed spec fn spec_bits(&self) -> u16 {
        self.bits
    }

    /// Whether every flag of `other` is set in `self`.
    pub open spec fn spec_contains(&self, other: StoreFlags) -> bool {
        self.spec_bits() & other.spec_bits() == other.spec_bits()
    }

    /// No capability.
    pub fn empty() -> (f: StoreFlags)
        ensures
            f.spec_bits() == 0,
    {
        StoreFlags { bits: 0 }
    }

    /// The capability to keep the local identity and the peers' keys.
    pub fn keys() -> (f: StoreFlags)
        ensures
            f.spec_bits() == KEYS,
    {
        StoreFlags { bits: KEYS }
    }

    /// The capability to keep the history tip.
    pub fn sigs() -> (f: StoreFlags)
        ensures
            f.spec_bits() == SIGS,
    {
        StoreFlags { bits: SIGS }
    }

    /// The capability to keep pages.
    pub fn pages() -> (f: StoreFlags)
        ensures
            f.spec_bits() == PAGES,
    {
        StoreFlags { bits: PAGES }
    }

    /// Every capability.
    pub fn all() -> (f: StoreFlags)
        ensures
            f.spec_bits() == ALL,
    {
        StoreFlags { bits: ALL }
    }

    /// The flags as a bit pattern.
    #[verifier::when_used_as_spec(spec_bits)]
    pub fn bits(&self) -> (b: u16)
        ensures
            b == self.spec_bits(),
    {
        self.bits
    }

    /// The flags that `bits` names, if it names no unknown flag.
    pub fn from_bits(bits: u16) -> (f: Option<StoreFlags>)
        ensures
            f is Some <==> bits & !0b111u16 == 0,
            f matches Some(v) ==> v.spec_bits() == bits,
    {
        if bits & !0b0000_0111u16 == 0 {
            Some(StoreFlags { bits })
        } else {
            None
        }
    }

    /// The flags that `bits` names, unknown bits dropped.
    pub fn from_bits_truncate(bits: u16) -> (f: StoreFlags)
        ensures
            f.spec_bits() == bits & 0b111,
    {
        StoreFlags { bits: bits & 0b0000_0111 }
    }

    /// Whether no flag is set.
    pub fn is_empty(&self) -> (r: bool)
        ensures
            r == (self.spec_bits() == 0),
    {
        self.bits == 0
    }

    /// Whether every flag of `other` is set in `self`.
    #[verifier::when_used_as_spec(spec_contains)]
    pub fn contains(&self, other: StoreFlags) -> (r: bool)
        ensures
            r == self.spec_contains(other),
    {
        self.bits & other.bits == other.bits
    }

    /// Whether `self` and `other` share a flag.
    pub fn intersects(&self, other: StoreFlags) -> (r: bool)
        ensures
            r == (self.spec_bits() & other.spec_bits() != 0),
    {
        self.bits & other.bits != 0
    }

    /// The flags set in `self` or in `other`.
    pub fn union(self, other: StoreFlags) -> (f: StoreFlags)
        ensures
            f.spec_bits() == self.spec_bits() | other.spec_bits(),
            f.spec_contains(self),
            f.spec_contains(other),
    {
        let a = self.bits;
        let b = other.bits;
        assert((a | b) & a == a && (a | b) & b == b) by (bit_vector);
        StoreFlags { bits: a | b }
    }

    /// The flags set in both `self` and `other`.
    pub fn intersection(self, other: StoreFlags) -> (f: StoreFlags)
        ensures
            f.spec_bits() == self.spec_bits() & other.spec_bits(),
            self.spec_contains(f),
            other.spec_contains(f),
    {
        let a = self.bits;
        let b = other.bits;
        assert(a & (a & b) == a & b && b & (a & b) == a & b) by (bit_vector);
        StoreFlags { bits: a & b }
    }
}

/// `ALL` is the union of the three capabilities, and a set that holds it
/// contains each of them.
pub proof fn lemma_all_contains_each(all: StoreFlags, one: StoreFlags)
    requires
        all.spec_bits() == ALL,
        one.spec_bits() == KEYS || one.spec_bits() == SIGS || one.spec_bits() == PAGES,
    ensures
        ALL == KEYS | SIGS | PAGES,
        all.spec_contains(one),
{
    assert(0b111u16 == 0b001u16 | 0b010u16 | 0b100u16) by (bit_vector);
    assert(0b111u16 & 0b001u16 == 0b001u16) by (bit_vector);
    assert(0b111u16 & 0b010u16 == 0b010u16) by (bit_vector);
    assert(0b111u16 & 0b100u16 == 0b100u16) by (bit_vector);
}

} // verus!
