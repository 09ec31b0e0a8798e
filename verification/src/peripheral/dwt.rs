//! Data Watchpoint and Trace unit

use vstd::prelude::*;
use crate::peripheral::layout::{Slot, spec_offset, register_address};
use crate::bits::{bit_is_set, same_outside};
use crate::peripheral::DWT;

verus! {

/// CTRL bit that enables the cycle counter.
pub const DWT_CTRL_CYCCNTENA: u32 = 1u32 << 0u32;

/// CTRL bit that enables PC sampling.
pub const DWT_CTRL_PCSAMPLENA: u32 = 1u32 << 12u32;

/// CTRL bit that enables exception tracing.
pub const DWT_CTRL_EXCTRCENA: u32 = 1u32 << 16u32;

/// The CTRL setters set or clear their own bit and no other.
pub proof fn lemma_ctrl_bits(ctrl: u32, j: u32)
    requires
        j < 32,
    ensures
        bit_is_set(ctrl | DWT_CTRL_CYCCNTENA, j) == (j == 0 || bit_is_set(ctrl, j)),
        bit_is_set(ctrl & !DWT_CTRL_CYCCNTENA, j) == (j != 0 && bit_is_set(ctrl, j)),
        bit_is_set(ctrl | DWT_CTRL_PCSAMPLENA, j) == (j == 12 || bit_is_set(ctrl, j)),
        bit_is_set(ctrl & !DWT_CTRL_PCSAMPLENA, j) == (j != 12 && bit_is_set(ctrl, j)),
        bit_is_set(ctrl | DWT_CTRL_EXCTRCENA, j) == (j == 16 || bit_is_set(ctrl, j)),
        bit_is_set(ctrl & !DWT_CTRL_EXCTRCENA, j) == (j != 16 && bit_is_set(ctrl, j)),
{
    crate::bits::lemma_bit_update(ctrl, 0, j);
    crate::bits::lemma_bit_update(ctrl, 12, j);
    crate::bits::lemma_bit_update(ctrl, 16, j);
}

impl DWT {
    /// Number of comparators implemented, from `ctrl` (CTRL)
    ///
    /// A value of zero indicates no comparator support.
    pub fn num_comp(ctrl: u32) -> (r: u8)
        ensures
            r == ctrl >> 28u32,
    {
        let n = ctrl >> 28u32;
        proof {
            assert(ctrl >> 28u32 < 16) by (bit_vector);
        }
        n as u8
    }

    /// Returns `true` if `ctrl` (CTRL) reports support for sampling and exception tracing
    pub fn has_exception_trace(ctrl: u32) -> (r: bool)
        ensures
            r == !bit_is_set(ctrl, 27),
    {
        ctrl & (1u32 << 27u32) == 0
    }

    /// Returns `true` if `ctrl` (CTRL) reports external match signals
    pub fn has_external_match(ctrl: u32) -> (r: bool)
        ensures
            r == !bit_is_set(ctrl, 26),
    {
        ctrl & (1u32 << 26u32) == 0
    }

    /// Returns `true` if `ctrl` (CTRL) reports a cycle counter
    pub fn has_cycle_counter(ctrl: u32) -> (r: bool)
        ensures
            r == !bit_is_set(ctrl, 25),
    {
        ctrl & (1u32 << 25u32) == 0
    }

    /// Returns `true` if `ctrl` (CTRL) reports the profiling counters
    pub fn has_profiling_counter(ctrl: u32) -> (r: bool)
        ensures
            r == !bit_is_set(ctrl, 24),
    {
        ctrl & (1u32 << 24u32) == 0
    }

    /// The CTRL value that enables the cycle counter
    ///
    /// The global trace enable (`DCB::enable_trace`) should be set before
    /// enabling the cycle counter, the processor may ignore writes to the
    /// cycle counter enable if the global trace is disabled
    /// (implementation defined behaviour).
    pub fn enable_cycle_counter(ctrl: u32) -> (r: u32)
        ensures
            r == ctrl | DWT_CTRL_CYCCNTENA,
    {
        ctrl | DWT_CTRL_CYCCNTENA
    }

    /// The CTRL value that disables the cycle counter
    pub fn disable_cycle_counter(ctrl: u32) -> (r: u32)
        ensures
            r == ctrl & !DWT_CTRL_CYCCNTENA,
    {
        ctrl & !DWT_CTRL_CYCCNTENA
    }

    /// Returns `true` if `ctrl` (CTRL) has the cycle counter enabled
    pub fn cycle_counter_enabled(ctrl: u32) -> (r: bool)
        ensures
            r == bit_is_set(ctrl, 0),
    {
        ctrl & DWT_CTRL_CYCCNTENA != 0
    }

    /// The CTRL value that enables exception tracing
    pub fn enable_exception_tracing(ctrl: u32) -> (r: u32)
        ensures
            r == ctrl | DWT_CTRL_EXCTRCENA,
    {
        ctrl | DWT_CTRL_EXCTRCENA
    }

    /// The CTRL value that disables exception tracing
    pub fn disable_exception_tracing(ctrl: u32) -> (r: u32)
        ensures
            r == ctrl & !DWT_CTRL_EXCTRCENA,
    {
        ctrl & !DWT_CTRL_EXCTRCENA
    }

    /// The CTRL value that sets whether to periodically generate PC samples
    pub fn enable_pc_samples(ctrl: u32, bit: bool) -> (r: u32)
        ensures
            r == (if bit { ctrl | DWT_CTRL_PCSAMPLENA } else { ctrl & !DWT_CTRL_PCSAMPLENA }),
    {
        if bit {
            ctrl | DWT_CTRL_PCSAMPLENA
        } else {
            ctrl & !DWT_CTRL_PCSAMPLENA
        }
    }

    /// The CPI count: the low byte of `cpicnt` (CPICNT)
    ///
    /// Counts additional cycles required to execute multi-cycle instructions,
    /// except those recorded by `lsu_count`, and counts any instruction fetch
    /// stalls.
    pub fn cpi_count(cpicnt: u32) -> (r: u8)
        ensures
            r == cpicnt % 256,
    {
        (cpicnt % 256) as u8
    }

    /// The total cycles spent in exception processing: the low byte of `exccnt` (EXCCNT)
    pub fn exception_count(exccnt: u32) -> (r: u8)
        ensures
            r == exccnt % 256,
    {
        (exccnt % 256) as u8
    }

    /// The total number of cycles that the processor is sleeping: the low byte of `sleepcnt`
    /// (SLEEPCNT)
    ///
    /// ARM recommends that this counter counts all cycles when the processor is sleeping,
    /// regardless of whether a WFI or WFE instruction, or the sleep-on-exit functionality,
    /// caused the entry to sleep mode.
    /// However, all sleep features are implementation defined and therefore when
    /// this counter counts is implementation defined.
    pub fn sleep_count(sleepcnt: u32) -> (r: u8)
        ensures
            r == sleepcnt % 256,
    {
        (sleepcnt % 256) as u8
    }

    /// The additional cycles required to execute all load or store instructions: the low byte
    /// of `lsucnt` (LSUCNT)
    pub fn lsu_count(lsucnt: u32) -> (r: u8)
        ensures
            r == lsucnt % 256,
    {
        (lsucnt % 256) as u8
    }

    /// The folded instruction count: the low byte of `foldcnt` (FOLDCNT)
    ///
    /// Increments on each instruction that takes 0 cycles.
    pub fn fold_count(foldcnt: u32) -> (r: u8)
        ensures
            r == foldcnt % 256,
    {
        (foldcnt % 256) as u8
    }
}

/// Whether the comparator should match on read, write or read/write operations.
#[derive(Debug, Eq, PartialEq, Copy, Clone, Structural)]
pub enum AccessType {
    /// Generate packet only when matched address is read from.
    ReadOnly,
    /// Generate packet only when matched address is written to.
    WriteOnly,
    /// Generate packet when matched address is both read from and written to.
    ReadWrite,
}

/// The sequence of packet(s) or events that should be emitted/generated on comparator match.
#[derive(Debug, Eq, PartialEq, Copy, Clone, Structural)]
pub enum EmitOption {
    /// Emit only trace data value packet.
    Data,
    /// Emit only trace address packet.
    Address,
    /// Emit only trace PC value packet
    ///
    /// *NOTE* only compatible with [AccessType::ReadWrite].
    PC,
    /// Emit trace address and data value packets.
    AddressData,
    /// Emit trace PC value and data value packets.
    PCData,
    /// Generate a watchpoint debug event. Either halts execution or fires a `DebugMonitor` exception.
    ///
    /// See more in section "Watchpoint debug event generation" page C1-729.
    WatchpointDebugEvent,
    /// Generate a `CMPMATCH[N]` event.
    ///
    /// See more in section "CMPMATCH[N] event generation" page C1-730.
    CompareMatchEvent,
}

/// Settings for address matching
#[derive(Debug, Eq, PartialEq, Copy, Clone, Structural)]
pub struct ComparatorAddressSettings {
    /// The address to match against.
    pub address: u32,
    /// The address mask to match against.
    pub mask: u32,
    /// What sequence of packet(s) to emit on comparator match.
    pub emit: EmitOption,
    /// Whether to match on read, write or read/write operations.
    pub access_type: AccessType,
}

/// Settings for cycle count matching
#[derive(Debug, Eq, PartialEq, Copy, Clone, Structural)]
pub struct CycleCountSettings {
    /// The function selection used.
    /// See Table C1-15 for DWT cycle count comparison functions.
    pub emit: EmitOption,
    /// The cycle count value to compare against.
    pub compare: u32,
}

/// The available functions of a DWT comparator.
#[derive(Debug, Eq, PartialEq, Copy, Clone, Structural)]
#[non_exhaustive]
pub enum ComparatorFunction {
    /// Compare accessed memory addresses.
    Address(ComparatorAddressSettings),
    /// Compare cycle count & target value.
    ///
    /// **NOTE**: only supported by comparator 0 and if the HW supports the cycle counter.
    /// Check `DWT::has_cycle_counter` for support. See C1.8.1 for more details.
    CycleCount(CycleCountSettings),
}

/// Possible error values returned on [Comparator::configure].
#[derive(Debug, Eq, PartialEq, Copy, Clone, Structural)]
#[non_exhaustive]
pub enum DwtError {
    /// Invalid combination of [AccessType] and [EmitOption].
    InvalidFunction,
}

/// A comparator of the DWT: COMP, MASK and FUNCTION.
pub struct Comparator {
    _marker: (),
}

/// The FUNCTION fields that `Comparator::configure` writes: FUNCTION, EMITRANGE, CYCMATCH,
/// DATAVMATCH, DATAVSIZE, DATAVADDR0 and DATAVADDR1.
pub const DWT_FUNCTION_CONFIGURED: u32 = 0x000F_FDAF;

/// FUNCTION and EMITRANGE for address matching (Table C1-14), `None` for a combination that
/// the table does not have.
pub open spec fn spec_address_function(access_type: AccessType, emit: EmitOption) -> Option<(u32, bool)> {
    match (access_type, emit) {
        (AccessType::ReadOnly, EmitOption::Data) => Some((0b1100, false)),
        (AccessType::ReadOnly, EmitOption::Address) => Some((0b1100, true)),
        (AccessType::ReadOnly, EmitOption::AddressData) => Some((0b1110, true)),
        (AccessType::ReadOnly, EmitOption::PCData) => Some((0b1110, false)),
        (AccessType::ReadOnly, EmitOption::WatchpointDebugEvent) => Some((0b0101, false)),
        (AccessType::ReadOnly, EmitOption::CompareMatchEvent) => Some((0b1001, false)),
        (AccessType::WriteOnly, EmitOption::Data) => Some((0b1101, false)),
        (AccessType::WriteOnly, EmitOption::Address) => Some((0b1101, true)),
        (AccessType::WriteOnly, EmitOption::AddressData) => Some((0b1111, true)),
        (AccessType::WriteOnly, EmitOption::PCData) => Some((0b1111, false)),
        (AccessType::WriteOnly, EmitOption::WatchpointDebugEvent) => Some((0b0110, false)),
        (AccessType::WriteOnly, EmitOption::CompareMatchEvent) => Some((0b1010, false)),
        (AccessType::ReadWrite, EmitOption::Data) => Some((0b0010, false)),
        (AccessType::ReadWrite, EmitOption::Address) => Some((0b0001, true)),
        (AccessType::ReadWrite, EmitOption::AddressData) => Some((0b0010, true)),
        (AccessType::ReadWrite, EmitOption::PCData) => Some((0b0011, false)),
        (AccessType::ReadWrite, EmitOption::WatchpointDebugEvent) => Some((0b0111, false)),
        (AccessType::ReadWrite, EmitOption::CompareMatchEvent) => Some((0b1011, false)),
        (AccessType::ReadWrite, EmitOption::PC) => Some((0b0001, false)),
        (_, EmitOption::PC) => None,
    }
}

/// FUNCTION for cycle count matching (Table C1-15), `None` for an emit option that the table
/// does not have.
pub open spec fn spec_cycle_function(emit: EmitOption) -> Option<u32> {
    match emit {
        EmitOption::PCData => Some(0b0001),
        EmitOption::WatchpointDebugEvent => Some(0b0100),
        EmitOption::CompareMatchEvent => Some(0b1000),
        _ => None,
    }
}

/// FUNCTION with the configured fields replaced: FUNCTION[3:0] is `function`, EMITRANGE
/// (bit 5) is `emit_range`, CYCMATCH (bit 7) is `cycmatch`, and DATAVMATCH, DATAVSIZE,
/// DATAVADDR0 and DATAVADDR1 are zero. Every other bit is kept.
pub open spec fn spec_configured_function(old: u32, function: u32, emit_range: bool, cycmatch: bool) -> u32 {
    (old & !DWT_FUNCTION_CONFIGURED) | function | (if emit_range { 0x20u32 } else { 0u32 })
        | (if cycmatch { 0x80u32 } else { 0u32 })
}

/// What `Comparator::configure` writes for `settings` when FUNCTION holds `old`: FUNCTION, COMP
/// and MASK, or the error for an invalid combination.
pub open spec fn spec_configure(old: u32, settings: ComparatorFunction) -> Result<(u32, u32, u32), DwtError> {
    match settings {
        ComparatorFunction::Address(s) => match spec_address_function(s.access_type, s.emit) {
            Some((function, emit_range)) => Ok(
                (spec_configured_function(old, function, emit_range, false), s.address, s.mask),
            ),
            None => Err(DwtError::InvalidFunction),
        },
        ComparatorFunction::CycleCount(s) => match spec_cycle_function(s.emit) {
            Some(function) => Ok((spec_configured_function(old, function, false, true), s.compare, 0)),
            None => Err(DwtError::InvalidFunction),
        },
    }
}

/// Writes the fields of FUNCTION one by one, as the register's setters do.
fn configured_function(old: u32, function: u32, emit_range: bool, cycmatch: bool) -> (r: u32)
    requires
        function < 16,
    ensures
        r == spec_configured_function(old, function, emit_range, cycmatch),
{
    let er: u32 = if emit_range { 1 } else { 0 };
    let cm: u32 = if cycmatch { 1 } else { 0 };
    // FUNCTION[3:0]
    let r1 = (old & !0xFu32) | (function & 0xF);
    // EMITRANGE
    let r2 = (r1 & !(1u32 << 5u32)) | (er << 5u32);
    // DATAVMATCH: don't compare data value
    let r3 = r2 & !(1u32 << 8u32);
    // CYCMATCH
    let r4 = (r3 & !(1u32 << 7u32)) | (cm << 7u32);
    // DATAVSIZE, DATAVADDR0, DATAVADDR1: SBZ as needed, see Page 784/C1-724
    let r5 = r4 & !(0x3u32 << 10u32);
    let r6 = r5 & !(0xFu32 << 12u32);
    let r7 = r6 & !(0xFu32 << 16u32);
    proof {
        assert(r7 == (old & !0x000F_FDAFu32) | function | (er << 5u32) | (cm << 7u32)
            && (er << 5u32) == (if er == 1 { 0x20u32 } else { 0u32 })
            && (cm << 7u32) == (if cm == 1 { 0x80u32 } else { 0u32 })) by (bit_vector)
            requires
                function < 16,
                er < 2,
                cm < 2,
                r1 == (old & !0xFu32) | (function & 0xF),
                r2 == (r1 & !(1u32 << 5u32)) | (er << 5u32),
                r3 == r2 & !(1u32 << 8u32),
                r4 == (r3 & !(1u32 << 7u32)) | (cm << 7u32),
                r5 == r4 & !(0x3u32 << 10u32),
                r6 == r5 & !(0xFu32 << 12u32),
                r7 == r6 & !(0xFu32 << 16u32),
        ;
    }
    r7
}

/// The configured fields read back as written, and no bit outside them changes.
pub proof fn lemma_configured_function(old: u32, function: u32, emit_range: bool, cycmatch: bool)
    requires
        function < 16,
    ensures
        spec_configured_function(old, function, emit_range, cycmatch) & 0xF == function,
        bit_is_set(spec_configured_function(old, function, emit_range, cycmatch), 5) == emit_range,
        bit_is_set(spec_configured_function(old, function, emit_range, cycmatch), 7) == cycmatch,
        !bit_is_set(spec_configured_function(old, function, emit_range, cycmatch), 8),
        (spec_configured_function(old, function, emit_range, cycmatch) >> 10u32) & 0x3FF == 0,
        same_outside(spec_configured_function(old, function, emit_range, cycmatch), old, DWT_FUNCTION_CONFIGURED),
{
    let e: u32 = if emit_range { 0x20 } else { 0 };
    let c: u32 = if cycmatch { 0x80 } else { 0 };
    assert({
        let r = (old & !0x000F_FDAFu32) | function | e | c;
        &&& r & 0xF == function
        &&& (r & (1u32 << 5u32) != 0) == (e == 0x20)
        &&& (r & (1u32 << 7u32) != 0) == (c == 0x80)
        &&& r & (1u32 << 8u32) == 0
        &&& (r >> 10u32) & 0x3FF == 0
        &&& r & !0x000F_FDAFu32 == old & !0x000F_FDAFu32
    }) by (bit_vector)
        requires
            function < 16,
            e == 0x20 || e == 0,
            c == 0x80 || c == 0,
    ;
}

/// The FUNCTION and EMITRANGE encodings of an address comparator (ARMv7-M table C1-14) and the
/// FUNCTION encodings of a cycle count comparator, with CYCMATCH set for the latter; the other
/// combinations are refused. A configured comparator also gets the address (or the cycle count)
/// to compare and the mask (0 for a cycle count).
pub proof fn lemma_comparator_encodings(old: u32, settings: ComparatorFunction)
    ensures
        match settings {
            ComparatorFunction::Address(s) => {
                let expected: Option<(u32, bool)> = match (s.access_type, s.emit) {
                    (AccessType::ReadOnly, EmitOption::Data) => Some((12u32, false)),
                    (AccessType::ReadOnly, EmitOption::Address) => Some((12u32, true)),
                    (AccessType::ReadOnly, EmitOption::AddressData) => Some((14u32, true)),
                    (AccessType::ReadOnly, EmitOption::PCData) => Some((14u32, false)),
                    (AccessType::ReadOnly, EmitOption::WatchpointDebugEvent) => Some((5u32, false)),
                    (AccessType::ReadOnly, EmitOption::CompareMatchEvent) => Some((9u32, false)),
                    (AccessType::WriteOnly, EmitOption::Data) => Some((13u32, false)),
                    (AccessType::WriteOnly, EmitOption::Address) => Some((13u32, true)),
                    (AccessType::WriteOnly, EmitOption::AddressData) => Some((15u32, true)),
                    (AccessType::WriteOnly, EmitOption::PCData) => Some((15u32, false)),
                    (AccessType::WriteOnly, EmitOption::WatchpointDebugEvent) => Some((6u32, false)),
                    (AccessType::WriteOnly, EmitOption::CompareMatchEvent) => Some((10u32, false)),
                    (AccessType::ReadWrite, EmitOption::Data) => Some((2u32, false)),
                    (AccessType::ReadWrite, EmitOption::Address) => Some((1u32, true)),
                    (AccessType::ReadWrite, EmitOption::AddressData) => Some((2u32, true)),
                    (AccessType::ReadWrite, EmitOption::PCData) => Some((3u32, false)),
                    (AccessType::ReadWrite, EmitOption::WatchpointDebugEvent) => Some((7u32, false)),
                    (AccessType::ReadWrite, EmitOption::CompareMatchEvent) => Some((11u32, false)),
                    (AccessType::ReadWrite, EmitOption::PC) => Some((1u32, false)),
                    (_, EmitOption::PC) => None,
                };
                match expected {
                    Some((f, er)) => spec_configure(old, settings) matches Ok((function, comp, mask))
                        && function & 0xF == f && bit_is_set(function, 5) == er && !bit_is_set(function, 7)
                        && comp == s.address && mask == s.mask,
                    None => spec_configure(old, settings) == Err::<(u32, u32, u32), DwtError>(DwtError::InvalidFunction),
                }
            },
            ComparatorFunction::CycleCount(s) => {
                let expected: Option<u32> = match s.emit {
                    EmitOption::PCData => Some(1u32),
                    EmitOption::WatchpointDebugEvent => Some(4u32),
                    EmitOption::CompareMatchEvent => Some(8u32),
                    _ => None,
                };
                match expected {
                    Some(f) => spec_configure(old, settings) matches Ok((function, comp, mask))
                        && function & 0xF == f && bit_is_set(function, 7) && !bit_is_set(function, 5)
                        && comp == s.compare && mask == 0,
                    None => spec_configure(old, settings) == Err::<(u32, u32, u32), DwtError>(DwtError::InvalidFunction),
                }
            },
        },
{
    match settings {
        ComparatorFunction::Address(s) => {
            if let Some((f, er)) = spec_address_function(s.access_type, s.emit) {
                lemma_configured_function(old, f, er, false);
            }
        },
        ComparatorFunction::CycleCount(s) => {
            if let Some(f) = spec_cycle_function(s.emit) {
                lemma_configured_function(old, f, false, true);
            }
        },
    }
}

impl Comparator {
    /// Configure the function of the comparator: the FUNCTION, COMP and MASK values to write,
    /// from `function`, the value FUNCTION holds now
    pub fn configure(function: u32, settings: ComparatorFunction) -> (r: Result<(u32, u32, u32), DwtError>)
        ensures
            r == spec_configure(function, settings),
    {
        match settings {
            ComparatorFunction::Address(settings) => {
                // FUNCTION, EMITRANGE
                // See Table C1-14
                let (f, emit_range) = match (&settings.access_type, &settings.emit) {
                    (AccessType::ReadOnly, EmitOption::Data) => (0b1100, false),
                    (AccessType::ReadOnly, EmitOption::Address) => (0b1100, true),
                    (AccessType::ReadOnly, EmitOption::AddressData) => (0b1110, true),
                    (AccessType::ReadOnly, EmitOption::PCData) => (0b1110, false),
                    (AccessType::ReadOnly, EmitOption::WatchpointDebugEvent) => (0b0101, false),
                    (AccessType::ReadOnly, EmitOption::CompareMatchEvent) => (0b1001, false),

                    (AccessType::WriteOnly, EmitOption::Data) => (0b1101, false),
                    (AccessType::WriteOnly, EmitOption::Address) => (0b1101, true),
                    (AccessType::WriteOnly, EmitOption::AddressData) => (0b1111, true),
                    (AccessType::WriteOnly, EmitOption::PCData) => (0b1111, false),
                    (AccessType::WriteOnly, EmitOption::WatchpointDebugEvent) => (0b0110, false),
                    (AccessType::WriteOnly, EmitOption::CompareMatchEvent) => (0b1010, false),

                    (AccessType::ReadWrite, EmitOption::Data) => (0b0010, false),
                    (AccessType::ReadWrite, EmitOption::Address) => (0b0001, true),
                    (AccessType::ReadWrite, EmitOption::AddressData) => (0b0010, true),
                    (AccessType::ReadWrite, EmitOption::PCData) => (0b0011, false),
                    (AccessType::ReadWrite, EmitOption::WatchpointDebugEvent) => (0b0111, false),
                    (AccessType::ReadWrite, EmitOption::CompareMatchEvent) => (0b1011, false),

                    (AccessType::ReadWrite, EmitOption::PC) => (0b0001, false),
                    (_, EmitOption::PC) => return Err(DwtError::InvalidFunction),
                };

                // don't compare data value, don't compare cycle counter value
                let new_function = configured_function(function, f, emit_range, false);
                Ok((new_function, settings.address, settings.mask))
            },
            ComparatorFunction::CycleCount(settings) => {
                let f = match &settings.emit {
                    EmitOption::PCData => 0b0001,
                    EmitOption::WatchpointDebugEvent => 0b0100,
                    EmitOption::CompareMatchEvent => 0b1000,
                    _ => return Err(DwtError::InvalidFunction),
                };

                // emit_range is N/A for cycle count compare; compare cyccnt; MASK is SBZ
                let new_function = configured_function(function, f, false, true);
                Ok((new_function, settings.compare, 0))
            },
        }
    }
}

/// The registers of the DWT block.
#[derive(Clone, Copy, Debug, PartialEq, Eq, Structural)]
pub enum Register {
    /// Control
    Ctrl,
    /// Cycle Count
    Cyccnt,
    /// CPI Count
    Cpicnt,
    /// Exception Overhead Count
    Exccnt,
    /// Sleep Count
    Sleepcnt,
    /// LSU Count
    Lsucnt,
    /// Folded-instruction Count
    Foldcnt,
    /// Program Counter Sample
    Pcsr,
    /// Comparator `index`: value to compare
    Comp,
    /// Comparator `index`: mask
    Mask,
    /// Comparator `index`: function
    Function,
    /// Lock Access
    Lar,
    /// Lock Status
    Lsr,
}

/// The DWT register block, slot by slot, reserved runs included.
pub open spec fn spec_layout() -> Seq<Slot> {
    seq![
        Slot { size: 4, count: 1 },
        Slot { size: 4, count: 1 },
        Slot { size: 4, count: 1 },
        Slot { size: 4, count: 1 },
        Slot { size: 4, count: 1 },
        Slot { size: 4, count: 1 },
        Slot { size: 4, count: 1 },
        Slot { size: 4, count: 1 },
        Slot { size: 16, count: 16 },
        Slot { size: 4, count: 932 },
        Slot { size: 4, count: 1 },
        Slot { size: 4, count: 1 },
    ]
}

/// The slot of a register.
pub open spec fn spec_slot(register: Register) -> int {
    match register {
        Register::Ctrl => 0,
        Register::Cyccnt => 1,
        Register::Cpicnt => 2,
        Register::Exccnt => 3,
        Register::Sleepcnt => 4,
        Register::Lsucnt => 5,
        Register::Foldcnt => 6,
        Register::Pcsr => 7,
        Register::Comp => 8,
        Register::Mask => 8,
        Register::Function => 8,
        Register::Lar => 10,
        Register::Lsr => 11,
    }
}

/// How many bytes into an element of its slot a register lies.
pub open spec fn spec_inner(register: Register) -> int {
    match register {
        Register::Ctrl => 0,
        Register::Cyccnt => 0,
        Register::Cpicnt => 0,
        Register::Exccnt => 0,
        Register::Sleepcnt => 0,
        Register::Lsucnt => 0,
        Register::Foldcnt => 0,
        Register::Pcsr => 0,
        Register::Comp => 0,
        Register::Mask => 4,
        Register::Function => 8,
        Register::Lar => 0,
        Register::Lsr => 0,
    }
}

/// The address of register `index` of `register` (`index` is 0 for a single register).
pub fn address(register: Register, index: u32) -> (r: u32)
    requires
        index < spec_layout()[spec_slot(register)].count,
    ensures
        r == DWT::PTR + spec_offset(spec_layout(), spec_slot(register))
            + index * spec_layout()[spec_slot(register)].size + spec_inner(register),
{
    let slots = vec![
        Slot { size: 4, count: 1 },
        Slot { size: 4, count: 1 },
        Slot { size: 4, count: 1 },
        Slot { size: 4, count: 1 },
        Slot { size: 4, count: 1 },
        Slot { size: 4, count: 1 },
        Slot { size: 4, count: 1 },
        Slot { size: 4, count: 1 },
        Slot { size: 16, count: 16 },
        Slot { size: 4, count: 932 },
        Slot { size: 4, count: 1 },
        Slot { size: 4, count: 1 },
    ];
    assert(slots@ =~= spec_layout());
    let k: usize = match register {
        Register::Ctrl => 0,
        Register::Cyccnt => 1,
        Register::Cpicnt => 2,
        Register::Exccnt => 3,
        Register::Sleepcnt => 4,
        Register::Lsucnt => 5,
        Register::Foldcnt => 6,
        Register::Pcsr => 7,
        Register::Comp => 8,
        Register::Mask => 8,
        Register::Function => 8,
        Register::Lar => 10,
        Register::Lsr => 11,
    };
    let inner: u32 = match register {
        Register::Ctrl => 0,
        Register::Cyccnt => 0,
        Register::Cpicnt => 0,
        Register::Exccnt => 0,
        Register::Sleepcnt => 0,
        Register::Lsucnt => 0,
        Register::Foldcnt => 0,
        Register::Pcsr => 0,
        Register::Comp => 0,
        Register::Mask => 4,
        Register::Function => 8,
        Register::Lar => 0,
        Register::Lsr => 0,
    };
    register_address(DWT::PTR, slots.as_slice(), k, index, inner)
}

} // verus!
