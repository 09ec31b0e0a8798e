//! Interrupts

use vstd::prelude::*;

verus! {

/// Trait for enums of external interrupt numbers.
///
/// This trait should be implemented by a peripheral access crate (PAC)
/// on its enum of available external interrupts for a specific device.
/// Each variant must convert to a u16 of its interrupt number,
/// which is its exception number - 16.
///
/// Each enum variant must represent a distinct value (no duplicates are permitted),
/// and must always return the same value (do not change at runtime): `spec_number` is that value.
pub trait InterruptNumber: Copy {
    /// The interrupt number associated with this variant.
    spec fn spec_number(self) -> u16;

    /// Return the interrupt number associated with this variant.
    fn number(self) -> (r: u16)
        ensures
            r == self.spec_number(),
    ;
}

/// A bare interrupt number is its own interrupt number.
impl InterruptNumber for u16 {
    open spec fn spec_number(self) -> u16 {
        self
    }

    fn number(self) -> (r: u16) {
        self
    }
}

} // verus!
