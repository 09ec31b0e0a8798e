//! Priority mask register

use vstd::prelude::*;
use crate::bits::bit_is_set;

verus! {

/// Priority mask register
pub struct Primask(pub u32);

impl Primask {
    /// All exceptions with configurable priority are active: PM (bit 0) is clear
    pub fn is_active(self) -> (r: bool)
        ensures
            r == !bit_is_set(self.0, 0),
    {
        !self.is_inactive()
    }

    /// All exceptions with configurable priority are inactive: PM (bit 0) is set
    pub fn is_inactive(self) -> (r: bool)
        ensures
            r == bit_is_set(self.0, 0),
    {
        proof {
            crate::bits::lemma_single_bit(self.0, 0);
        }
        self.0 & (1u32 << 0u32) == (1u32 << 0u32)
    }
}

} // verus!
