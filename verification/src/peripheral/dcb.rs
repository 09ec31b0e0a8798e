//! Debug Control Block

use vstd::prelude::*;
use crate::peripheral::layout::{Slot, spec_offset, register_address};
use crate::bits::bit_is_set;
use crate::peripheral::DCB;

verus! {

/// DEMCR bit that enables trace (TRCENA).
pub const DCB_DEMCR_TRCENA: u32 = 1u32 << 24u32;

/// DEMCR bit that enables the DebugMonitor exception (MON_EN).
pub const DCB_DEMCR_MON_EN: u32 = 1u32 << 16u32;

/// The DEMCR setters set or clear their own bit and no other.
pub proof fn lemma_demcr_bits(demcr: u32, j: u32)
    requires
        j < 32,
    ensures
        bit_is_set(demcr | DCB_DEMCR_TRCENA, j) == (j == 24 || bit_is_set(demcr, j)),
        bit_is_set(demcr & !DCB_DEMCR_TRCENA, j) == (j != 24 && bit_is_set(demcr, j)),
        bit_is_set(demcr | DCB_DEMCR_MON_EN, j) == (j == 16 || bit_is_set(demcr, j)),
        bit_is_set(demcr & !DCB_DEMCR_MON_EN, j) == (j != 16 && bit_is_set(demcr, j)),
{
    crate::bits::lemma_bit_update(demcr, 24, j);
    crate::bits::lemma_bit_update(demcr, 16, j);
}

impl DCB {
    /// The DEMCR value that enables TRACE. This is for example required by the
    /// `peripheral::DWT` cycle counter to work properly.
    /// As by STM documentation, this flag is not reset on
    /// soft-reset, only on power reset.
    ///
    /// Note: vendor-specific registers may have to be set to completely
    /// enable tracing. For example, on the STM32F401RE, `TRACE_MODE`
    /// and `TRACE_IOEN` must be configured in `DBGMCU_CR` register.
    pub fn enable_trace(demcr: u32) -> (r: u32)
        ensures
            r == demcr | DCB_DEMCR_TRCENA,
    {
        demcr | DCB_DEMCR_TRCENA
    }

    /// The DEMCR value that disables TRACE. See `DCB::enable_trace()` for more details
    pub fn disable_trace(demcr: u32) -> (r: u32)
        ensures
            r == demcr & !DCB_DEMCR_TRCENA,
    {
        demcr & !DCB_DEMCR_TRCENA
    }

    /// The DEMCR value that enables the `DebugMonitor` exception
    pub fn enable_debug_monitor(demcr: u32) -> (r: u32)
        ensures
            r == demcr | DCB_DEMCR_MON_EN,
    {
        demcr | DCB_DEMCR_MON_EN
    }

    /// The DEMCR value that disables the `DebugMonitor` exception
    pub fn disable_debug_monitor(demcr: u32) -> (r: u32)
        ensures
            r == demcr & !DCB_DEMCR_MON_EN,
    {
        demcr & !DCB_DEMCR_MON_EN
    }

    /// Is there a debugger attached? From `dhcsr_low`, the low byte of DHCSR (see note)
    ///
    /// Note: This function is reported not to work on Cortex-M0 devices. Per the ARM v6-M
    /// Architecture Reference Manual, "Access to the DHCSR from software running on the
    /// processor is IMPLEMENTATION DEFINED".
    pub fn is_debugger_attached(dhcsr_low: u8) -> (r: bool)
        ensures
            r == (dhcsr_low % 2 == 1),
    {
        proof {
            vstd::bits::lemma_u8_low_bits_mask_is_mod(dhcsr_low, 1);
            vstd::bits::lemma_low_bits_mask_values();
            vstd::arithmetic::power2::lemma2_to64();
        }
        dhcsr_low & 0x1 == 1
    }
}

/// The registers of the DCB block.
#[derive(Clone, Copy, Debug, PartialEq, Eq, Structural)]
pub enum Register {
    /// Debug Halting Control and Status
    Dhcsr,
    /// Debug Core Register Selector
    Dcrsr,
    /// Debug Core Register Data
    Dcrdr,
    /// Debug Exception and Monitor Control
    Demcr,
}

/// The DCB register block, slot by slot, reserved runs included.
pub open spec fn spec_layout() -> Seq<Slot> {
    seq![
        Slot { size: 4, count: 1 },
        Slot { size: 4, count: 1 },
        Slot { size: 4, count: 1 },
        Slot { size: 4, count: 1 },
    ]
}

/// The slot of a register.
pub open spec fn spec_slot(register: Register) -> int {
    match register {
        Register::Dhcsr => 0,
        Register::Dcrsr => 1,
        Register::Dcrdr => 2,
        Register::Demcr => 3,
    }
}

/// The address of register `index` of `register` (`index` is 0 for a single register).
pub fn address(register: Register, index: u32) -> (r: u32)
    requires
        index < spec_layout()[spec_slot(register)].count,
    ensures
        r == DCB::PTR + spec_offset(spec_layout(), spec_slot(register))
            + index * spec_layout()[spec_slot(register)].size,
{
    let slots = vec![
        Slot { size: 4, count: 1 },
        Slot { size: 4, count: 1 },
        Slot { size: 4, count: 1 },
        Slot { size: 4, count: 1 },
    ];
    assert(slots@ =~= spec_layout());
    let k: usize = match register {
        Register::Dhcsr => 0,
        Register::Dcrsr => 1,
        Register::Dcrdr => 2,
        Register::Demcr => 3,
    };
    register_address(DCB::PTR, slots.as_slice(), k, index, 0)
}

} // verus!
