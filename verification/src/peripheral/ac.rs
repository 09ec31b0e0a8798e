//! Cortex-M7 TCM and cache access control

use vstd::prelude::*;
use crate::peripheral::layout::{Slot, spec_offset, register_address};
use crate::peripheral::AC;

verus! {

/// The registers of the AC block.
#[derive(Clone, Copy, Debug, PartialEq, Eq, Structural)]
pub enum Register {
    /// Instruction Tightly-Coupled Memory Control
    Itcmcr,
    /// Data Tightly-Coupled Memory Control
    Dtcmcr,
    /// AHBP Control
    Ahbpcr,
    /// L1 Cache Control
    Cacr,
    /// AHB Slave Control
    Ahbscr,
    /// Auxilary Bus Fault Status
    Abfsr,
}

/// The AC register block, slot by slot, reserved runs included.
pub open spec fn spec_layout() -> Seq<Slot> {
    seq![
        Slot { size: 4, count: 1 },
        Slot { size: 4, count: 1 },
        Slot { size: 4, count: 1 },
        Slot { size: 4, count: 1 },
        Slot { size: 4, count: 1 },
        Slot { size: 4, count: 1 },
        Slot { size: 4, count: 1 },
    ]
}

/// The slot of a register.
pub open spec fn spec_slot(register: Register) -> int {
    match register {
        Register::Itcmcr => 0,
        Register::Dtcmcr => 1,
        Register::Ahbpcr => 2,
        Register::Cacr => 3,
        Register::Ahbscr => 4,
        Register::Abfsr => 6,
    }
}

/// The address of register `index` of `register` (`index` is 0 for a single register).
pub fn address(register: Register, index: u32) -> (r: u32)
    requires
        index < spec_layout()[spec_slot(register)].count,
    ensures
        r == AC::PTR + spec_offset(spec_layout(), spec_slot(register))
            + index * spec_layout()[spec_slot(register)].size,
{
    let slots = vec![
        Slot { size: 4, count: 1 },
        Slot { size: 4, count: 1 },
        Slot { size: 4, count: 1 },
        Slot { size: 4, count: 1 },
        Slot { size: 4, count: 1 },
        Slot { size: 4, count: 1 },
        Slot { size: 4, count: 1 },
    ];
    assert(slots@ =~= spec_layout());
    let k: usize = match register {
        Register::Itcmcr => 0,
        Register::Dtcmcr => 1,
        Register::Ahbpcr => 2,
        Register::Cacr => 3,
        Register::Ahbscr => 4,
        Register::Abfsr => 6,
    };
    register_address(AC::PTR, slots.as_slice(), k, index, 0)
}

} // verus!
