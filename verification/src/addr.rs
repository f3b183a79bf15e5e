//! Absolute addresses in the tracee's virtual address space.
//!
//! An [`Addr`] is an absolute virtual address, an unsigned machine word.
//! Offsets relative to the module base are plain `u64` values; converting
//! between the two never wraps silently: `to_relative` reports underflow by
//! returning `None`, and `from_relative` demands that the sum fits.

use vstd::prelude::*;

verus! {

/// One machine word of the tracee: the unit of peek and poke.
pub type Word = u64;

/// An absolute virtual address in the tracee's address space.
#[derive(Clone, Copy, Debug, PartialEq, Eq, Structural, Hash)]
pub struct Addr {
    /// The raw absolute address.
    pub raw: u64,
}

impl View for Addr {
    type V = u64;

    closed spec fn view(&self) -> u64 {
        self.raw
    }
}

/// What `to_relative` returns: the distance from `base` up to `addr`, or
/// `None` when `addr` lies below `base`.
pub open spec fn spec_to_relative(addr: Addr, base: Addr) -> Option<u64> {
    if base@ <= addr@ {
        Some((addr@ - base@) as u64)
    } else {
        None
    }
}

/// What `from_relative` returns: the absolute address `base + offset`.
pub open spec fn spec_from_relative(base: Addr, offset: u64) -> Addr
    recommends
        base@ + offset <= u64::MAX,
{
    Addr { raw: (base@ + offset) as u64 }
}

impl Addr {
    /// Wraps a raw absolute address.
    pub fn new(value: u64) -> (a: Addr)
        ensures
            a@ == value,
    {
        Addr { raw: value }
    }

    /// The raw absolute address.
    pub fn value(&self) -> (v: u64)
        ensures
            v == self@,
    {
        self.raw
    }

    /// The offset of `self` relative to `base`, or `None` if `self` lies
    /// below `base` (the conversion never wraps around).
    pub fn to_relative(&self, base: Addr) -> (r: Option<u64>)
        ensures
            r == spec_to_relative(*self, base),
    {
        if self.raw >= base.raw {
            Some(self.raw - base.raw)
        } else {
            None
        }
    }

    /// The absolute address at `offset` above `base`.
    pub fn from_relative(base: Addr, offset: u64) -> (a: Addr)
        requires
            base@ + offset <= u64::MAX,
        ensures
            a == spec_from_relative(base, offset),
    {
        Addr { raw: base.raw + offset }
    }
}

/// Converting an address at or above `base` to a base-relative offset and
/// back yields the original address.
pub proof fn lemma_relative_roundtrip(addr: Addr, base: Addr)
    requires
        base@ <= addr@,
    ensures
        spec_to_relative(addr, base) matches Some(offset)
            && spec_from_relative(base, offset) == addr,
{
}

} // verus!
