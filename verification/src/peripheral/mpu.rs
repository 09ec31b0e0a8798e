//! Memory Protection Unit

use vstd::prelude::*;
use crate::peripheral::layout::{Slot, spec_offset, register_address};
use crate::peripheral::MPU;

verus! {

/// The registers of the MPU block.
#[derive(Clone, Copy, Debug, PartialEq, Eq, Structural)]
pub enum Register {
    /// Type
    Type,
    /// Control
    Ctrl,
    /// Region Number
    Rnr,
    /// Region Base Address
    Rbar,
    /// Region Attribute and Size
    Rasr,
    /// Alias 1 of RBAR
    RbarA1,
    /// Alias 1 of RSAR
    RsarA1,
    /// Alias 2 of RBAR
    RbarA2,
    /// Alias 2 of RSAR
    RsarA2,
    /// Alias 3 of RBAR
    RbarA3,
    /// Alias 3 of RSAR
    RsarA3,
}

/// The MPU register block, slot by slot, reserved runs included.
pub open spec fn spec_layout() -> Seq<Slot> {
    seq![
        Slot { size: 4, count: 1 },
        Slot { size: 4, count: 1 },
        Slot { size: 4, count: 1 },
        Slot { size: 4, count: 1 },
        Slot { size: 4, count: 1 },
        Slot { size: 4, count: 1 },
        Slot { size: 4, count: 1 },
        Slot { size: 4, count: 1 },
        Slot { size: 4, count: 1 },
        Slot { size: 4, count: 1 },
        Slot { size: 4, count: 1 },
    ]
}

/// The slot of a register.
pub open spec fn spec_slot(register: Register) -> int {
    match register {
        Register::Type => 0,
        Register::Ctrl => 1,
        Register::Rnr => 2,
        Register::Rbar => 3,
        Register::Rasr => 4,
        Register::RbarA1 => 5,
        Register::RsarA1 => 6,
        Register::RbarA2 => 7,
        Register::RsarA2 => 8,
        Register::RbarA3 => 9,
        Register::RsarA3 => 10,
    }
}

/// The address of register `index` of `register` (`index` is 0 for a single register).
pub fn address(register: Register, index: u32) -> (r: u32)
    requires
        index < spec_layout()[spec_slot(register)].count,
    ensures
        r == MPU::PTR + spec_offset(spec_layout(), spec_slot(register))
            + index * spec_layout()[spec_slot(register)].size,
{
    let slots = vec![
        Slot { size: 4, count: 1 },
        Slot { size: 4, count: 1 },
        Slot { size: 4, count: 1 },
        Slot { size: 4, count: 1 },
        Slot { size: 4, count: 1 },
        Slot { size: 4, count: 1 },
        Slot { size: 4, count: 1 },
        Slot { size: 4, count: 1 },
        Slot { size: 4, count: 1 },
        Slot { size: 4, count: 1 },
        Slot { size: 4, count: 1 },
    ];
    assert(slots@ =~= spec_layout());
    let k: usize = match register {
        Register::Type => 0,
        Register::Ctrl => 1,
        Register::Rnr => 2,
        Register::Rbar => 3,
        Register::Rasr => 4,
        Register::RbarA1 => 5,
        Register::RsarA1 => 6,
        Register::RbarA2 => 7,
        Register::RsarA2 => 8,
        Register::RbarA3 => 9,
        Register::RsarA3 => 10,
    };
    register_address(MPU::PTR, slots.as_slice(), k, index, 0)
}

} // verus!
