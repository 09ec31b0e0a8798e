//! SysTick: System Timer

use vstd::prelude::*;
use crate::peripheral::layout::{Slot, spec_offset, register_address};
use crate::bits::bit_is_set;
use crate::peripheral::SYST;

verus! {

/// SysTick clock source
#[derive(Clone, Copy, Debug, PartialEq, Eq, Structural)]
pub enum SystClkSource {
    /// Core-provided clock
    Core,
    /// External reference clock
    External,
}

/// The 24 bits of the counter, the reload value and the calibration value.
pub const SYST_COUNTER_MASK: u32 = 0x00ff_ffff;

/// CSR bit that enables the counter.
pub const SYST_CSR_ENABLE: u32 = 1u32 << 0u32;

/// CSR bit that enables the SysTick exception.
pub const SYST_CSR_TICKINT: u32 = 1u32 << 1u32;

/// CSR bit that selects the core clock.
pub const SYST_CSR_CLKSOURCE: u32 = 1u32 << 2u32;

/// CSR bit that reports that the counter wrapped since the last read.
pub const SYST_CSR_COUNTFLAG: u32 = 1u32 << 16u32;

/// CALIB bit that reports an imprecise calibration value.
pub const SYST_CALIB_SKEW: u32 = 1u32 << 30u32;

/// CALIB bit that reports that no reference clock is available.
pub const SYST_CALIB_NOREF: u32 = 1u32 << 31u32;

/// The clock source that CSR selects.
pub open spec fn spec_get_clock_source(csr: u32) -> SystClkSource {
    if bit_is_set(csr, 2) {
        SystClkSource::Core
    } else {
        SystClkSource::External
    }
}

/// CSR with the clock source set to `clk_source`.
pub open spec fn spec_set_clock_source(csr: u32, clk_source: SystClkSource) -> u32 {
    match clk_source {
        SystClkSource::External => csr & !SYST_CSR_CLKSOURCE,
        SystClkSource::Core => csr | SYST_CSR_CLKSOURCE,
    }
}

/// Each CSR setter sets or clears its own bit and no other: enabling the counter leaves the
/// interrupt and the clock source alone, and so on.
pub proof fn lemma_syst_csr_bits(csr: u32, j: u32)
    requires
        j < 32,
    ensures
        bit_is_set(csr | SYST_CSR_ENABLE, j) == (j == 0 || bit_is_set(csr, j)),
        bit_is_set(csr & !SYST_CSR_ENABLE, j) == (j != 0 && bit_is_set(csr, j)),
        bit_is_set(csr | SYST_CSR_TICKINT, j) == (j == 1 || bit_is_set(csr, j)),
        bit_is_set(csr & !SYST_CSR_TICKINT, j) == (j != 1 && bit_is_set(csr, j)),
        bit_is_set(csr | SYST_CSR_CLKSOURCE, j) == (j == 2 || bit_is_set(csr, j)),
        bit_is_set(csr & !SYST_CSR_CLKSOURCE, j) == (j != 2 && bit_is_set(csr, j)),
{
    crate::bits::lemma_bit_update(csr, 0, j);
    crate::bits::lemma_bit_update(csr, 1, j);
    crate::bits::lemma_bit_update(csr, 2, j);
}

/// CLKSOURCE (CSR bit 2) set selects the core clock, clear the external reference clock;
/// selecting a source changes no other CSR bit.
pub proof fn lemma_clock_source_bit(csr: u32, clk_source: SystClkSource)
    ensures
        spec_set_clock_source(csr, SystClkSource::Core) == csr | 0x4,
        spec_set_clock_source(csr, SystClkSource::External) == csr & !0x4u32,
        (spec_get_clock_source(csr) == SystClkSource::Core) == (csr & 0x4 != 0),
{
    assert(1u32 << 2u32 == 0x4) by (bit_vector);
}

/// Getting the clock source after setting it gives the source that was set.
pub proof fn lemma_clock_source_read_back(csr: u32, clk_source: SystClkSource)
    ensures
        spec_get_clock_source(spec_set_clock_source(csr, clk_source)) == clk_source,
{
    lemma_syst_csr_bits(csr, 2);
}

impl SYST {
    /// The CSR value that disables the counter
    pub fn disable_counter(csr: u32) -> (r: u32)
        ensures
            r == csr & !SYST_CSR_ENABLE,
    {
        csr & !SYST_CSR_ENABLE
    }

    /// The CSR value that disables the SysTick interrupt
    pub fn disable_interrupt(csr: u32) -> (r: u32)
        ensures
            r == csr & !SYST_CSR_TICKINT,
    {
        csr & !SYST_CSR_TICKINT
    }

    /// The CSR value that enables the counter
    ///
    /// *NOTE* The reference manual indicates that:
    ///
    /// "The SysTick counter reload and current value are undefined at reset, the correct
    /// initialization sequence for the SysTick counter is:
    ///
    /// - Program reload value
    /// - Clear current value
    /// - Program Control and Status register"
    pub fn enable_counter(csr: u32) -> (r: u32)
        ensures
            r == csr | SYST_CSR_ENABLE,
    {
        csr | SYST_CSR_ENABLE
    }

    /// The CSR value that enables the SysTick interrupt
    pub fn enable_interrupt(csr: u32) -> (r: u32)
        ensures
            r == csr | SYST_CSR_TICKINT,
    {
        csr | SYST_CSR_TICKINT
    }

    /// The clock source that `csr` (CSR) selects
    ///
    /// *NOTE* Reading CSR is side effectful: it can clear the bit that indicates that the timer
    /// has wrapped (cf. `SYST::has_wrapped`)
    pub fn get_clock_source(csr: u32) -> (r: SystClkSource)
        ensures
            r == spec_get_clock_source(csr),
    {
        if csr & SYST_CSR_CLKSOURCE != 0 {
            SystClkSource::Core
        } else {
            SystClkSource::External
        }
    }

    /// Returns the reload value with which the counter would wrap once per 10
    /// ms, from `calib` (CALIB)
    ///
    /// Returns `0` if the value is not known (e.g. because the clock can
    /// change dynamically).
    pub fn get_ticks_per_10ms(calib: u32) -> (r: u32)
        ensures
            r == calib % 0x0100_0000,
    {
        proof {
            vstd::arithmetic::power2::lemma2_to64();
            crate::bits::lemma_and_low_mask(calib, 24, 0x00ff_ffff);
        }
        calib & SYST_COUNTER_MASK
    }

    /// Checks if `calib` (CALIB) reports an external reference clock
    pub fn has_reference_clock(calib: u32) -> (r: bool)
        ensures
            r == !bit_is_set(calib, 31),
    {
        calib & SYST_CALIB_NOREF == 0
    }

    /// Checks if `csr` (CSR) reports that the counter wrapped (underflowed) since the last check
    ///
    /// *NOTE* Reading CSR is side effectful and clears this bit.
    pub fn has_wrapped(csr: u32) -> (r: bool)
        ensures
            r == bit_is_set(csr, 16),
    {
        csr & SYST_CSR_COUNTFLAG != 0
    }

    /// Checks if `csr` (CSR) has the counter enabled
    pub fn is_counter_enabled(csr: u32) -> (r: bool)
        ensures
            r == bit_is_set(csr, 0),
    {
        csr & SYST_CSR_ENABLE != 0
    }

    /// Checks if `csr` (CSR) has the SysTick interrupt enabled
    pub fn is_interrupt_enabled(csr: u32) -> (r: bool)
        ensures
            r == bit_is_set(csr, 1),
    {
        csr & SYST_CSR_TICKINT != 0
    }

    /// Checks if `calib` (CALIB) reports a precise calibration value
    ///
    /// Returns `false` if using the reload value returned by
    /// `get_ticks_per_10ms()` may result in a period significantly deviating
    /// from 10 ms.
    pub fn is_precise(calib: u32) -> (r: bool)
        ensures
            r == !bit_is_set(calib, 30),
    {
        calib & SYST_CALIB_SKEW == 0
    }

    /// The CSR value that selects the clock source `clk_source`
    pub fn set_clock_source(csr: u32, clk_source: SystClkSource) -> (r: u32)
        ensures
            r == spec_set_clock_source(csr, clk_source),
    {
        match clk_source {
            SystClkSource::External => csr & !SYST_CSR_CLKSOURCE,
            SystClkSource::Core => csr | SYST_CSR_CLKSOURCE,
        }
    }
}

/// The registers of the SYST block.
#[derive(Clone, Copy, Debug, PartialEq, Eq, Structural)]
pub enum Register {
    /// Control and Status
    Csr,
    /// Reload Value
    Rvr,
    /// Current Value
    Cvr,
    /// Calibration Value
    Calib,
}

/// The SYST register block, slot by slot, reserved runs included.
pub open spec fn spec_layout() -> Seq<Slot> {
    seq![
        Slot { size: 4, count: 1 },
        Slot { size: 4, count: 1 },
        Slot { size: 4, count: 1 },
        Slot { size: 4, count: 1 },
    ]
}

/// The slot of a register.
pub open spec fn spec_slot(register: Register) -> int {
    match register {
        Register::Csr => 0,
        Register::Rvr => 1,
        Register::Cvr => 2,
        Register::Calib => 3,
    }
}

/// The address of register `index` of `register` (`index` is 0 for a single register).
pub fn address(register: Register, index: u32) -> (r: u32)
    requires
        index < spec_layout()[spec_slot(register)].count,
    ensures
        r == SYST::PTR + spec_offset(spec_layout(), spec_slot(register))
            + index * spec_layout()[spec_slot(register)].size,
{
    let slots = vec![
        Slot { size: 4, count: 1 },
        Slot { size: 4, count: 1 },
        Slot { size: 4, count: 1 },
        Slot { size: 4, count: 1 },
    ];
    assert(slots@ =~= spec_layout());
    let k: usize = match register {
        Register::Csr => 0,
        Register::Rvr => 1,
        Register::Cvr => 2,
        Register::Calib => 3,
    };
    register_address(SYST::PTR, slots.as_slice(), k, index, 0)
}

} // verus!
