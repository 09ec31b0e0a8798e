//! Floating Point Unit

use vstd::prelude::*;
use crate::peripheral::layout::{Slot, spec_offset, register_address};
use crate::peripheral::FPU;

verus! {

/// The registers of the FPU block.
#[derive(Clone, Copy, Debug, PartialEq, Eq, Structural)]
pub enum Register {
    /// Floating Point Context Control
    Fpccr,
    /// Floating Point Context Address
    Fpcar,
    /// Floating Point Default Status Control
    Fpdscr,
    /// Media and FP Feature (three registers)
    Mvfr,
}

/// The FPU register block, slot by slot, reserved runs included.
pub open spec fn spec_layout() -> Seq<Slot> {
    seq![
        Slot { size: 4, count: 1 },
        Slot { size: 4, count: 1 },
        Slot { size: 4, count: 1 },
        Slot { size: 4, count: 1 },
        Slot { size: 4, count: 3 },
    ]
}

/// The slot of a register.
pub open spec fn spec_slot(register: Register) -> int {
    match register {
        Register::Fpccr => 1,
        Register::Fpcar => 2,
        Register::Fpdscr => 3,
        Register::Mvfr => 4,
    }
}

/// The address of register `index` of `register` (`index` is 0 for a single register).
pub fn address(register: Register, index: u32) -> (r: u32)
    requires
        index < spec_layout()[spec_slot(register)].count,
    ensures
        r == FPU::PTR + spec_offset(spec_layout(), spec_slot(register))
            + index * spec_layout()[spec_slot(register)].size,
{
    let slots = vec![
        Slot { size: 4, count: 1 },
        Slot { size: 4, count: 1 },
        Slot { size: 4, count: 1 },
        Slot { size: 4, count: 1 },
        Slot { size: 4, count: 3 },
    ];
    assert(slots@ =~= spec_layout());
    let k: usize = match register {
        Register::Fpccr => 1,
        Register::Fpcar => 2,
        Register::Fpdscr => 3,
        Register::Mvfr => 4,
    };
    register_address(FPU::PTR, slots.as_slice(), k, index, 0)
}

} // verus!
