//! Rights: a bitmask of elementary file operations in the WASI layout.

use vstd::prelude::*;

verus! {

/// Every operation bit that the WASI rights set defines (bits 0 to 27, from
/// `FD_DATASYNC` to `POLL_FD_READWRITE`).
pub const RIGHTS_ALL_BITS: u64 = 0x0fff_ffff;

/// What remains of a raw bitmask once the bits of no defined right are dropped.
pub open spec fn truncated(bits: u64) -> u64 {
    bits & RIGHTS_ALL_BITS
}

/// A set of rights over one resource. Unknown bits never appear in it.
#[derive(Clone, Copy, Debug, PartialEq, Eq, Structural, Hash)]
pub struct Rights {
    bits: u64,
}

impl View for Rights {
    type V = u64;

    closed spec fn view(&self) -> u64 {
        self.bits
    }
}

impl Rights {
    /// The set of no rights.
    pub fn empty() -> (r: Rights)
        ensures
            r@ == 0,
    {
        Rights { bits: 0 }
    }

    /// The set of every defined right.
    pub fn all() -> (r: Rights)
        ensures
            r@ == RIGHTS_ALL_BITS,
    {
        Rights { bits: RIGHTS_ALL_BITS }
    }

    /// Builds a set from a raw bitmask, silently dropping unknown bits.
    pub fn from_bits_truncate(bits: u64) -> (r: Rights)
        ensures
            r@ == truncated(bits),
    {
        Rights { bits: bits & RIGHTS_ALL_BITS }
    }

    /// The raw bitmask.
    pub fn bits(&self) -> (r: u64)
        ensures
            r == self@,
    {
        self.bits
    }

    /// Whether no right is held.
    pub fn is_empty(&self) -> (r: bool)
        ensures
            r == (self@ == 0),
    {
        self.bits == 0
    }

    /// Whether every right of `other` is also in `self` (the subset test).
    pub fn contains(&self, other: &Rights) -> (r: bool)
        ensures
            r == (self@ & other@ == other@),
    {
        self.bits & other.bits == other.bits
    }

    /// The rights held by either set.
    pub fn union(&self, other: &Rights) -> (r: Rights)
        ensures
            r@ == self@ | other@,
    {
        Rights { bits: self.bits | other.bits }
    }
}

} // verus!
