//! Latched input flags ("levers"), a small bitfield over `u32`.

use vstd::prelude::*;

verus! {

/// Bit mask of the one defined lever: latched while `Space` is held.
pub const LEVER1: u32 = 0b00000001;

/// A set of latched flags with bitwise set/clear/test semantics.
#[derive(Clone, Copy, Debug, PartialEq, Eq, Structural)]
pub struct Levers {
    pub bits: u32,
}

impl Levers {
    /// Whether every bit of `mask` is set.
    pub open spec fn spec_contains(self, mask: u32) -> bool {
        self.bits & mask == mask
    }

    /// The empty set: no lever latched.
    pub fn empty() -> (r: Levers)
        ensures
            r.bits == 0,
            forall|mask: u32| mask != 0 ==> !r.spec_contains(mask),
    {
        proof {
            assert forall|mask: u32| mask != 0 implies 0u32 & mask != mask by {
                assert(0u32 & mask == 0) by (bit_vector);
            }
        }
        Levers { bits: 0 }
    }

    /// Latch every bit of `mask`.
    pub fn insert(&mut self, mask: u32)
        ensures
            final(self).bits == old(self).bits | mask,
            final(self).spec_contains(mask),
            forall|m: u32|
                old(self).spec_contains(m) ==> final(self).spec_contains(m),
    {
        let bits = self.bits;
        proof {
            assert((bits | mask) & mask == mask) by (bit_vector);
            assert forall|m: u32| bits & m == m implies (bits | mask) & m == m by {
                assert(bits & m == m ==> (bits | mask) & m == m) by (bit_vector);
            }
        }
        self.bits = bits | mask;
    }

    /// Release every bit of `mask`.
    pub fn remove(&mut self, mask: u32)
        ensures
            final(self).bits == old(self).bits & !mask,
            mask != 0 ==> !final(self).spec_contains(mask),
    {
        let bits = self.bits;
        proof {
            assert(mask != 0 ==> (bits & !mask) & mask != mask) by (bit_vector);
        }
        self.bits = bits & !mask;
    }

    /// Whether every bit of `mask` is latched.
    pub fn contains(&self, mask: u32) -> (r: bool)
        ensures
            r == self.spec_contains(mask),
    {
        self.bits & mask == mask
    }
}

} // verus!
