//! Capability bit masks.
//!
//! A capability mask is a fixed-width set of permission bits for one actor
//! kind. The two highest bits are reserved for the transaction protocol:
//! the read-lock bit authorizes beginning a transaction, the write-lock bit
//! records that this handle has not yet begun one.

use vstd::prelude::*;

verus! {

/// Bit index reserved for the read-lock capability.
pub const READ_LOCK_BIT: u64 = 62;

/// Bit index reserved for the write-lock capability.
pub const WRITE_LOCK_BIT: u64 = 63;

/// A set of capability bits, stored as a 64-bit mask.
///
/// Viewed as the set of bit indices (all below 64) that are set.
#[derive(Clone, Copy)]
pub struct CapMask {
    bits: u64,
}

impl View for CapMask {
    type V = Set<u64>;

    closed spec fn view(&self) -> Set<u64> {
        Set::new(|b: u64| b < 64 && (self.bits >> b) & 1 == 1)
    }
}

impl CapMask {
    /// The mask with no bits set.
    pub fn empty() -> (m: CapMask)
        ensures
            m@ == Set::<u64>::empty(),
    {
        let m = CapMask { bits: 0 };
        proof {
            assert forall|b: u64| !m@.contains(b) by {
                assert((0u64 >> b) & 1 == 0) by (bit_vector);
            }
            assert(m@ =~= Set::<u64>::empty());
        }
        m
    }

    /// The mask with one additional bit set.
    pub fn insert(self, bit: u64) -> (m: CapMask)
        requires
            bit < 64,
        ensures
            m@ == self@.insert(bit),
    {
        let m = CapMask { bits: self.bits | (1u64 << bit) };
        proof {
            let x = self.bits;
            assert forall|i: u64| m@.contains(i) == self@.insert(bit).contains(i) by {
                if i < 64 {
                    assert((((x | (1u64 << bit)) >> i) & 1 == 1) == (((x >> i) & 1 == 1) || i
                        == bit)) by (bit_vector)
                        requires
                            i < 64,
                            bit < 64,
                    ;
                }
            }
            assert(m@ =~= self@.insert(bit));
        }
        m
    }

    /// Whether the given bit is in the mask.
    pub fn contains(&self, bit: u64) -> (r: bool)
        requires
            bit < 64,
        ensures
            r == self@.contains(bit),
    {
        (self.bits >> bit) & 1 == 1
    }

    /// The intersection of two masks.
    pub fn intersect(self, other: &CapMask) -> (m: CapMask)
        ensures
            m@ == self@.intersect(other@),
    {
        let m = CapMask { bits: self.bits & other.bits };
        proof {
            let x = self.bits;
            let y = other.bits;
            assert forall|i: u64| m@.contains(i) == self@.intersect(other@).contains(i) by {
                if i < 64 {
                    assert((((x & y) >> i) & 1 == 1) == ((((x >> i) & 1 == 1)) && (((y >> i) & 1
                        == 1)))) by (bit_vector);
                }
            }
            assert(m@ =~= self@.intersect(other@));
        }
        m
    }
}

} // verus!
