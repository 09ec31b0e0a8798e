//! Implementation Control Block

use vstd::prelude::*;
use crate::peripheral::layout::{Slot, spec_offset, register_address};
use crate::peripheral::ICB;

verus! {

/// The registers of the ICB block.
#[derive(Clone, Copy, Debug, PartialEq, Eq, Structural)]
pub enum Register {
    /// Interrupt Controller Type
    Ictr,
    /// Auxiliary Control
    Actlr,
    /// Coprocessor Power Control
    Cppwr,
}

/// The ICB register block, slot by slot, reserved runs included.
pub open spec fn spec_layout() -> Seq<Slot> {
    seq![
        Slot { size: 4, count: 1 },
        Slot { size: 4, count: 1 },
        Slot { size: 4, count: 1 },
    ]
}

/// The slot of a register.
pub open spec fn spec_slot(register: Register) -> int {
    match register {
        Register::Ictr => 0,
        Register::Actlr => 1,
        Register::Cppwr => 2,
    }
}

/// The address of register `index` of `register` (`index` is 0 for a single register).
pub fn address(register: Register, index: u32) -> (r: u32)
    requires
        index < spec_layout()[spec_slot(register)].count,
    ensures
        r == ICB::PTR + spec_offset(spec_layout(), spec_slot(register))
            + index * spec_layout()[spec_slot(register)].size,
{
    let slots = vec![
        Slot { size: 4, count: 1 },
        Slot { size: 4, count: 1 },
        Slot { size: 4, count: 1 },
    ];
    assert(slots@ =~= spec_layout());
    let k: usize = match register {
        Register::Ictr => 0,
        Register::Actlr => 1,
        Register::Cppwr => 2,
    };
    register_address(ICB::PTR, slots.as_slice(), k, index, 0)
}

} // verus!
