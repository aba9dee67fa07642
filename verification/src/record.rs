//! The opaque record reference a decoded value can carry.

use vstd::prelude::*;

verus! {

/// An owned handle to another foreign record. The record entity itself — its
/// name and fields — lives outside this decoding core; decoding only carries
/// the reference through as an opaque handle.
#[derive(Debug, PartialEq, Eq)]
pub struct Record {
    raw: usize,
}

impl Record {
    /// The foreign record handle this reference holds.
    pub closed spec fn spec_raw(&self) -> usize {
        self.raw
    }

    /// Wraps a foreign record handle.
    pub fn from_raw(ptr: usize) -> (r: Record)
        ensures
            r.spec_raw() == ptr,
    {
        Record { raw: ptr }
    }
}

} // verus!
