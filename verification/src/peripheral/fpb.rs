//! Flash Patch and Breakpoint unit

use vstd::prelude::*;
use crate::peripheral::layout::{Slot, spec_offset, register_address};
use crate::peripheral::FPB;

verus! {

/// The registers of the FPB block.
#[derive(Clone, Copy, Debug, PartialEq, Eq, Structural)]
pub enum Register {
    /// Control
    Ctrl,
    /// Remap
    Remap,
    /// Comparators (127 registers)
    Comp,
    /// Lock Access
    Lar,
    /// Lock Status
    Lsr,
}

/// The FPB register block, slot by slot, reserved runs included.
pub open spec fn spec_layout() -> Seq<Slot> {
    seq![
        Slot { size: 4, count: 1 },
        Slot { size: 4, count: 1 },
        Slot { size: 4, count: 127 },
        Slot { size: 4, count: 875 },
        Slot { size: 4, count: 1 },
        Slot { size: 4, count: 1 },
    ]
}

/// The slot of a register.
pub open spec fn spec_slot(register: Register) -> int {
    match register {
        Register::Ctrl => 0,
        Register::Remap => 1,
        Register::Comp => 2,
        Register::Lar => 4,
        Register::Lsr => 5,
    }
}

/// The address of register `index` of `register` (`index` is 0 for a single register).
pub fn address(register: Register, index: u32) -> (r: u32)
    requires
        index < spec_layout()[spec_slot(register)].count,
    ensures
        r == FPB::PTR + spec_offset(spec_layout(), spec_slot(register))
            + index * spec_layout()[spec_slot(register)].size,
{
    let slots = vec![
        Slot { size: 4, count: 1 },
        Slot { size: 4, count: 1 },
        Slot { size: 4, count: 127 },
        Slot { size: 4, count: 875 },
        Slot { size: 4, count: 1 },
        Slot { size: 4, count: 1 },
    ];
    assert(slots@ =~= spec_layout());
    let k: usize = match register {
        Register::Ctrl => 0,
        Register::Remap => 1,
        Register::Comp => 2,
        Register::Lar => 4,
        Register::Lsr => 5,
    };
    register_address(FPB::PTR, slots.as_slice(), k, index, 0)
}

} // verus!
