//! System Control Block

use vstd::prelude::*;
use crate::peripheral::layout::{Slot, spec_offset, register_address};
use crate::peripheral::SCB;
use vstd::arithmetic::power2::{pow2, lemma2_to64, lemma_pow2_adds, lemma_pow2_pos, lemma_pow2_strictly_increases};
use vstd::arithmetic::mul::{lemma_mul_inequality, lemma_mul_is_distributive_add_other_way};
use vstd::arithmetic::div_mod::{lemma_small_mod, lemma_fundamental_div_mod_converse, lemma_fundamental_div_mod};
use vstd::bits::{lemma_u32_shl_is_mul, lemma_u8_shl_is_mul, lemma_u8_shr_is_div, lemma_u8_low_bits_mask_is_mod, lemma_u8_pow2_no_overflow, low_bits_mask};

verus! {

/// Priority Grouping
///
/// Determines the split of preemption priority from sub-priority.
#[derive(Debug, Clone, Copy)]
pub enum PriorityGrouping<const NVIC_PRIO_BITS: u8> {
    /// Priority grouping 0
    Prigroup0,
    /// Priority grouping 1
    Prigroup1,
    /// Priority grouping 2
    Prigroup2,
    /// Priority grouping 3
    Prigroup3,
    /// Priority grouping 4
    Prigroup4,
    /// Priority grouping 5
    Prigroup5,
    /// Priority grouping 6
    Prigroup6,
    /// Priority grouping 7
    Prigroup7,
}


/// `bits` low bits set.
fn low_mask(bits: u8) -> (r: u8)
    requires
        bits < 8,
    ensures
        r == low_bits_mask(bits as nat),
        r + 1 == pow2(bits as nat),
{
    proof {
        lemma2_to64();
        lemma_u8_shl_is_mul(1, bits);
    }
    (1u8 << bits) - 1
}

/// Adding a value below `2^s` to a multiple of `2^s` sets disjoint bits.
proof fn lemma_disjoint_or_is_add(x: u8, b: u8, s: u8)
    requires
        s < 8,
        b < pow2(s as nat),
    ensures
        (x << s) | b == (x << s) + b,
{
    lemma2_to64();
    lemma_u8_shl_is_mul(1, s);
    assert((x << s) | b == (x << s) + b) by (bit_vector)
        requires
            s < 8,
            b < (1u8 << s),
    ;
}

impl<const NVIC_PRIO_BITS: u8> PriorityGrouping<NVIC_PRIO_BITS> {
    /// The PRIGROUP field value of this grouping.
    pub open spec fn group(&self) -> nat {
        match self {
            PriorityGrouping::Prigroup0 => 0,
            PriorityGrouping::Prigroup1 => 1,
            PriorityGrouping::Prigroup2 => 2,
            PriorityGrouping::Prigroup3 => 3,
            PriorityGrouping::Prigroup4 => 4,
            PriorityGrouping::Prigroup5 => 5,
            PriorityGrouping::Prigroup6 => 6,
            PriorityGrouping::Prigroup7 => 7,
        }
    }

    /// Number of bits of the preemption priority: `7 - PRIGROUP`, at most `NVIC_PRIO_BITS`.
    pub open spec fn spec_preemption_priority_bits(&self) -> nat {
        if 7 - self.group() > NVIC_PRIO_BITS { NVIC_PRIO_BITS as nat } else { (7 - self.group()) as nat }
    }

    /// Number of bits of the sub-priority: what `NVIC_PRIO_BITS` leaves above `7 - PRIGROUP`.
    pub open spec fn spec_sub_priority_bits(&self) -> nat {
        if self.group() + NVIC_PRIO_BITS <= 7 { 0 } else { (self.group() + NVIC_PRIO_BITS - 7) as nat }
    }

    /// The priority byte that holds `preemption_priority` above `sub_priority`, both in the
    /// highest `NVIC_PRIO_BITS` bits.
    pub open spec fn spec_encode(&self, preemption_priority: int, sub_priority: int) -> int {
        (preemption_priority * pow2(self.spec_sub_priority_bits()) + sub_priority)
            * pow2((8 - NVIC_PRIO_BITS) as nat)
    }

    /// The preemption priority and the sub-priority that a priority byte holds.
    pub open spec fn spec_decode(&self, priority: int) -> (int, int) {
        let implemented = priority / pow2((8 - NVIC_PRIO_BITS) as nat) as int;
        (
            implemented / pow2(self.spec_sub_priority_bits()) as int,
            implemented % pow2(self.spec_sub_priority_bits()) as int,
        )
    }

    /// The groupings that `encode_priority` and `decode_priority` handle: at least one and at
    /// most eight implemented priority bits, and fewer than eight sub-priority bits.
    pub open spec fn supported(&self) -> bool {
        &&& 1 <= NVIC_PRIO_BITS <= 8
        &&& self.spec_sub_priority_bits() < 8
    }

    /// The PRIGROUP field value of this grouping.
    pub fn value(&self) -> (r: u8)
        ensures
            r == self.group(),
    {
        match self {
            PriorityGrouping::Prigroup0 => 0,
            PriorityGrouping::Prigroup1 => 1,
            PriorityGrouping::Prigroup2 => 2,
            PriorityGrouping::Prigroup3 => 3,
            PriorityGrouping::Prigroup4 => 4,
            PriorityGrouping::Prigroup5 => 5,
            PriorityGrouping::Prigroup6 => 6,
            PriorityGrouping::Prigroup7 => 7,
        }
    }

    fn preemption_priority_bits(&self) -> (r: u8)
        ensures
            r == self.spec_preemption_priority_bits(),
    {
        let bits = 7 - self.value();
        if bits > NVIC_PRIO_BITS {
            NVIC_PRIO_BITS
        } else {
            bits
        }
    }

    fn sub_priority_bits(&self) -> (r: u8)
        ensures
            r == self.spec_sub_priority_bits(),
    {
        let bits = self.value() as u16 + NVIC_PRIO_BITS as u16;
        if bits <= 7 {
            0
        } else {
            (bits - 7) as u8
        }
    }

    /// Encode `preemption_priority` and `sub_priority` to fit in `NVIC_PRIO_BITS`.
    ///
    /// The preemption priority sits above the sub-priority, and both sit in the highest
    /// `NVIC_PRIO_BITS` bits of the byte.
    pub fn encode_priority(&self, preemption_priority: u8, sub_priority: u8) -> (r: u8)
        requires
            self.supported(),
            preemption_priority < pow2(self.spec_preemption_priority_bits()),
            sub_priority < pow2(self.spec_sub_priority_bits()),
        ensures
            r == self.spec_encode(preemption_priority as int, sub_priority as int),
    {
        let preemption_priority_bits = self.preemption_priority_bits();
        let sub_priority_bits = self.sub_priority_bits();

        let premption_priority_mask = low_mask(preemption_priority_bits);
        let sub_priority_mask = low_mask(sub_priority_bits);

        let pre = preemption_priority & premption_priority_mask;
        let sub = sub_priority & sub_priority_mask;
        let ghost pb = preemption_priority_bits as nat;
        let ghost sb = sub_priority_bits as nat;
        let ghost shift = (8 - NVIC_PRIO_BITS) as nat;
        proof {
            lemma2_to64();
            lemma_u8_pow2_no_overflow(pb);
            lemma_u8_pow2_no_overflow(sb);
            lemma_u8_low_bits_mask_is_mod(preemption_priority, pb);
            lemma_u8_low_bits_mask_is_mod(sub_priority, sb);
            lemma_small_mod(preemption_priority as nat, pow2(pb));
            lemma_small_mod(sub_priority as nat, pow2(sb));
            assert(pre == preemption_priority);
            assert(sub == sub_priority);
            assert(pb + sb == NVIC_PRIO_BITS);
            if NVIC_PRIO_BITS < 8 {
                lemma_pow2_strictly_increases(NVIC_PRIO_BITS as nat, 8);
            }
            lemma_pow2_adds(pb, sb);
            lemma_pow2_adds(pb + sb, shift);
            // pre * 2^sb + sub < (pre + 1) * 2^sb <= 2^pb * 2^sb = 2^(pb + sb) <= 2^8
            lemma_mul_inequality(pre as int + 1, pow2(pb) as int, pow2(sb) as int);
            lemma_mul_is_distributive_add_other_way(pow2(sb) as int, pre as int, 1);
            lemma_u8_shl_is_mul(pre, sub_priority_bits);
            lemma_disjoint_or_is_add(pre, sub, sub_priority_bits);
            // (pre * 2^sb + sub) * 2^shift < 2^(pb + sb) * 2^shift = 2^8
            lemma_mul_inequality(pre * pow2(sb) + sub + 1, pow2(pb + sb) as int, pow2(shift) as int);
            lemma_mul_is_distributive_add_other_way(pow2(shift) as int, pre * pow2(sb) + sub, 1);
            lemma_u8_shl_is_mul((pre << sub_priority_bits) | sub, (8 - NVIC_PRIO_BITS) as u8);
        }
        let priority = (pre << sub_priority_bits) | sub;

        // Priority is stored in the highest bits.
        priority << (8 - NVIC_PRIO_BITS)
    }

    /// Decode the priority stored in `NVIC_PRIO_BITS` into a tuple consisting of
    /// the preemption priority and sub-priority.
    pub fn decode_priority(&self, priority: u8) -> (r: (u8, u8))
        requires
            self.supported(),
        ensures
            (r.0 as int, r.1 as int) == self.spec_decode(priority as int),
    {
        // Priority is stored in the highest bits.
        let shifted = priority >> (8 - NVIC_PRIO_BITS);

        let sub_priority_bits = self.sub_priority_bits();

        let preemption_priority = shifted >> sub_priority_bits;
        let sub_priority = shifted & low_mask(sub_priority_bits);
        proof {
            lemma_u8_shr_is_div(priority, (8 - NVIC_PRIO_BITS) as u8);
            lemma_u8_shr_is_div(shifted, sub_priority_bits);
            lemma_u8_low_bits_mask_is_mod(shifted, sub_priority_bits as nat);
            lemma_u8_pow2_no_overflow(sub_priority_bits as nat);
        }

        (preemption_priority, sub_priority)
    }
}

} // verus!

verus! {

/// The layout of a priority byte under a priority grouping: PRIGROUP `g` puts the binary point
/// after bit `g`, so the preemption priority takes the byte's bits above `g` and the
/// sub-priority the bits from `g` down, of which only the top `NVIC_PRIO_BITS` bits of the byte
/// are implemented. So the preemption priority is scaled by `2^(8 - p)`, `p` its number of bits
/// (`7 - g`, at most `NVIC_PRIO_BITS`), and the sub-priority by `2^(8 - NVIC_PRIO_BITS)`.
pub proof fn lemma_priority_byte_layout<const NVIC_PRIO_BITS: u8>(
    grouping: PriorityGrouping<NVIC_PRIO_BITS>,
    preemption_priority: int,
    sub_priority: int,
)
    requires
        grouping.supported(),
    ensures
        PriorityGrouping::<NVIC_PRIO_BITS>::Prigroup0.group() == 0,
        PriorityGrouping::<NVIC_PRIO_BITS>::Prigroup1.group() == 1,
        PriorityGrouping::<NVIC_PRIO_BITS>::Prigroup2.group() == 2,
        PriorityGrouping::<NVIC_PRIO_BITS>::Prigroup3.group() == 3,
        PriorityGrouping::<NVIC_PRIO_BITS>::Prigroup4.group() == 4,
        PriorityGrouping::<NVIC_PRIO_BITS>::Prigroup5.group() == 5,
        PriorityGrouping::<NVIC_PRIO_BITS>::Prigroup6.group() == 6,
        PriorityGrouping::<NVIC_PRIO_BITS>::Prigroup7.group() == 7,
        grouping.spec_preemption_priority_bits() == (if 7 - grouping.group() < NVIC_PRIO_BITS {
            7 - grouping.group()
        } else {
            NVIC_PRIO_BITS as int
        }),
        grouping.spec_preemption_priority_bits() + grouping.spec_sub_priority_bits() == NVIC_PRIO_BITS,
        grouping.spec_encode(preemption_priority, sub_priority)
            == preemption_priority * pow2((8 - grouping.spec_preemption_priority_bits()) as nat)
                + sub_priority * pow2((8 - NVIC_PRIO_BITS) as nat),
{
    let pb = grouping.spec_preemption_priority_bits();
    let sb = grouping.spec_sub_priority_bits();
    let shift = (8 - NVIC_PRIO_BITS) as nat;
    lemma_pow2_adds(sb, shift);
    assert(sb + shift == (8 - pb) as nat);
    vstd::arithmetic::mul::lemma_mul_is_distributive_add_other_way(
        pow2(shift) as int,
        preemption_priority * pow2(sb),
        sub_priority,
    );
    vstd::arithmetic::mul::lemma_mul_is_associative(preemption_priority, pow2(sb) as int, pow2(shift) as int);
}

/// Decoding what `encode_priority` encoded gives back the preemption priority and the
/// sub-priority, for every pair of values that fits the grouping.
pub proof fn lemma_decode_encode_priority<const NVIC_PRIO_BITS: u8>(
    grouping: PriorityGrouping<NVIC_PRIO_BITS>,
    preemption_priority: u8,
    sub_priority: u8,
)
    requires
        grouping.supported(),
        preemption_priority < pow2(grouping.spec_preemption_priority_bits()),
        sub_priority < pow2(grouping.spec_sub_priority_bits()),
    ensures
        grouping.spec_decode(grouping.spec_encode(preemption_priority as int, sub_priority as int))
            == (preemption_priority as int, sub_priority as int),
{
    let sb = grouping.spec_sub_priority_bits();
    let shift = (8 - NVIC_PRIO_BITS) as nat;
    let inner = preemption_priority * pow2(sb) + sub_priority;
    lemma_pow2_pos(shift);
    lemma_pow2_pos(sb);
    lemma_fundamental_div_mod_converse(inner * pow2(shift), pow2(shift) as int, inner, 0);
    lemma_fundamental_div_mod_converse(inner, pow2(sb) as int, preemption_priority as int, sub_priority as int);
}

} // verus!

verus! {

/// CPACR bits of the CP10 and CP11 (FPU) access fields.
pub const SCB_CPACR_FPU_MASK: u32 = 0x00F0_0000;

/// CPACR bits that grant privileged access to the FPU.
pub const SCB_CPACR_FPU_ENABLE: u32 = 0x0050_0000;

/// CPACR bits that, with `SCB_CPACR_FPU_ENABLE`, grant user access to the FPU.
pub const SCB_CPACR_FPU_USER: u32 = 0x00A0_0000;

/// FPU access mode
#[derive(Clone, Copy, Debug, PartialEq, Eq, Structural)]
pub enum FpuAccessMode {
    /// FPU is not accessible
    Disabled,
    /// FPU is accessible in Privileged and User mode
    Enabled,
    /// FPU is accessible in Privileged mode only
    Privileged,
}

/// The CP10 and CP11 access fields (within `SCB_CPACR_FPU_MASK`) that grant `mode`.
pub open spec fn fpu_mode_bits(mode: FpuAccessMode) -> u32 {
    match mode {
        FpuAccessMode::Disabled => 0,
        FpuAccessMode::Privileged => SCB_CPACR_FPU_ENABLE,
        FpuAccessMode::Enabled => SCB_CPACR_FPU_ENABLE | SCB_CPACR_FPU_USER,
    }
}

/// The FPU access mode that CPACR grants: full access to both coprocessors is `Enabled`,
/// privileged access to both is `Privileged`, anything else is `Disabled`.
pub open spec fn spec_fpu_access_mode(cpacr: u32) -> FpuAccessMode {
    if cpacr & SCB_CPACR_FPU_MASK == SCB_CPACR_FPU_ENABLE | SCB_CPACR_FPU_USER {
        FpuAccessMode::Enabled
    } else if cpacr & SCB_CPACR_FPU_MASK == SCB_CPACR_FPU_ENABLE {
        FpuAccessMode::Privileged
    } else {
        FpuAccessMode::Disabled
    }
}

/// CPACR with the FPU access fields set to grant `mode`.
pub open spec fn spec_set_fpu_access_mode(cpacr: u32, mode: FpuAccessMode) -> u32 {
    (cpacr & !SCB_CPACR_FPU_MASK) | fpu_mode_bits(mode)
}

proof fn lemma_fpu_mode_bits(cpacr: u32, mode: FpuAccessMode)
    ensures
        spec_set_fpu_access_mode(cpacr, mode) & SCB_CPACR_FPU_MASK == fpu_mode_bits(mode),
        crate::bits::same_outside(spec_set_fpu_access_mode(cpacr, mode), cpacr, SCB_CPACR_FPU_MASK),
        SCB_CPACR_FPU_ENABLE | SCB_CPACR_FPU_USER == 0x00F0_0000,
{
    assert(0x0050_0000u32 | 0x00A0_0000u32 == 0x00F0_0000u32
        && 0u32 & !0x00F0_0000u32 == 0 && 0x0050_0000u32 & !0x00F0_0000u32 == 0
        && 0x00F0_0000u32 & !0x00F0_0000u32 == 0) by (bit_vector);
    crate::bits::lemma_replace_mask(cpacr, SCB_CPACR_FPU_MASK, fpu_mode_bits(mode));
}

/// The CPACR encodings of the FPU access modes, in the CP10 and CP11 fields (bits 23:20):
/// `0b1111` (full access) for `Enabled`, `0b0101` (privileged access) for `Privileged`, 0 for
/// `Disabled`; setting a mode leaves the other CPACR bits as they were.
pub proof fn lemma_fpu_access_mode_encodings(cpacr: u32, mode: FpuAccessMode)
    ensures
        (spec_set_fpu_access_mode(cpacr, FpuAccessMode::Enabled) >> 20u32) & 0xF == 0xF,
        (spec_set_fpu_access_mode(cpacr, FpuAccessMode::Privileged) >> 20u32) & 0xF == 0x5,
        (spec_set_fpu_access_mode(cpacr, FpuAccessMode::Disabled) >> 20u32) & 0xF == 0,
        spec_set_fpu_access_mode(cpacr, mode) & !0x00F0_0000u32 == cpacr & !0x00F0_0000u32,
        spec_fpu_access_mode(cpacr) == (if (cpacr >> 20u32) & 0xF == 0xF {
            FpuAccessMode::Enabled
        } else if (cpacr >> 20u32) & 0xF == 0x5 {
            FpuAccessMode::Privileged
        } else {
            FpuAccessMode::Disabled
        }),
{
    assert((((cpacr & !0x00F0_0000u32) | (0x0050_0000u32 | 0x00A0_0000u32)) >> 20u32) & 0xF == 0xF
        && (((cpacr & !0x00F0_0000u32) | 0x0050_0000u32) >> 20u32) & 0xF == 0x5
        && (((cpacr & !0x00F0_0000u32) | 0u32) >> 20u32) & 0xF == 0
        && ((cpacr & 0x00F0_0000u32 == 0x0050_0000u32 | 0x00A0_0000u32) == ((cpacr >> 20u32) & 0xF == 0xF))
        && ((cpacr & 0x00F0_0000u32 == 0x0050_0000u32) == ((cpacr >> 20u32) & 0xF == 0x5))) by (bit_vector);
    lemma_fpu_mode_bits(cpacr, mode);
}

/// Reading the FPU access mode after setting it gives the mode that was set, whatever
/// CPACR held before.
pub proof fn lemma_fpu_access_mode_read_back(cpacr: u32, mode: FpuAccessMode)
    ensures
        spec_fpu_access_mode(spec_set_fpu_access_mode(cpacr, mode)) == mode,
{
    lemma_fpu_mode_bits(cpacr, mode);
}

impl crate::peripheral::SCB {
    /// Gets the FPU access mode that `cpacr` (CPACR) grants.
    pub fn fpu_access_mode(cpacr: u32) -> (r: FpuAccessMode)
        ensures
            r == spec_fpu_access_mode(cpacr),
    {
        proof {
            lemma_fpu_mode_bits(cpacr, FpuAccessMode::Enabled);
        }
        if cpacr & SCB_CPACR_FPU_MASK == 0x00F0_0000 {
            FpuAccessMode::Enabled
        } else if cpacr & SCB_CPACR_FPU_MASK == SCB_CPACR_FPU_ENABLE {
            FpuAccessMode::Privileged
        } else {
            FpuAccessMode::Disabled
        }
    }

    /// The CPACR value that sets the FPU access mode to `mode`, from the current `cpacr`.
    ///
    /// Only the CP10 and CP11 fields change.
    ///
    /// *IMPORTANT* Any function that runs fully or partly with the FPU disabled must *not* take any
    /// floating-point arguments or have any floating-point local variables. Because the compiler
    /// might inline such a function into a caller that does have floating-point arguments or
    /// variables, any such function must be also marked #[inline(never)].
    pub fn set_fpu_access_mode(cpacr: u32, mode: FpuAccessMode) -> (r: u32)
        ensures
            r == spec_set_fpu_access_mode(cpacr, mode),
            r & SCB_CPACR_FPU_MASK == fpu_mode_bits(mode),
            crate::bits::same_outside(r, cpacr, SCB_CPACR_FPU_MASK),
    {
        proof {
            lemma_fpu_mode_bits(cpacr, mode);
        }
        let cpacr = cpacr & !SCB_CPACR_FPU_MASK;
        match mode {
            FpuAccessMode::Disabled => cpacr | 0,
            FpuAccessMode::Privileged => cpacr | SCB_CPACR_FPU_ENABLE,
            FpuAccessMode::Enabled => cpacr | (SCB_CPACR_FPU_ENABLE | SCB_CPACR_FPU_USER),
        }
    }

    /// Shorthand for `set_fpu_access_mode(cpacr, FpuAccessMode::Disabled)`
    pub fn disable_fpu(cpacr: u32) -> (r: u32)
        ensures
            r == spec_set_fpu_access_mode(cpacr, FpuAccessMode::Disabled),
    {
        Self::set_fpu_access_mode(cpacr, FpuAccessMode::Disabled)
    }

    /// Shorthand for `set_fpu_access_mode(cpacr, FpuAccessMode::Enabled)`
    pub fn enable_fpu(cpacr: u32) -> (r: u32)
        ensures
            r == spec_set_fpu_access_mode(cpacr, FpuAccessMode::Enabled),
    {
        Self::set_fpu_access_mode(cpacr, FpuAccessMode::Enabled)
    }
}

/// Processor core exceptions (internal interrupts)
#[derive(Clone, Copy, Debug, Eq, PartialEq, Structural)]
pub enum Exception {
    /// Non maskable interrupt
    NonMaskableInt,
    /// Hard fault interrupt
    HardFault,
    /// Memory management interrupt (not present on Cortex-M0 variants)
    MemoryManagement,
    /// Bus fault interrupt (not present on Cortex-M0 variants)
    BusFault,
    /// Usage fault interrupt (not present on Cortex-M0 variants)
    UsageFault,
    /// Secure fault interrupt (only on ARMv8-M)
    SecureFault,
    /// SV call interrupt
    SVCall,
    /// Debug monitor interrupt (not present on Cortex-M0 variants)
    DebugMonitor,
    /// Pend SV interrupt
    PendSV,
    /// System Tick interrupt
    SysTick,
}

impl Exception {
    /// The exception number (vector number) of this exception.
    pub open spec fn spec_number(self) -> int {
        match self {
            Exception::NonMaskableInt => 2,
            Exception::HardFault => 3,
            Exception::MemoryManagement => 4,
            Exception::BusFault => 5,
            Exception::UsageFault => 6,
            Exception::SecureFault => 7,
            Exception::SVCall => 11,
            Exception::DebugMonitor => 12,
            Exception::PendSV => 14,
            Exception::SysTick => 15,
        }
    }

    /// Returns the IRQ number of this `Exception`: its exception number minus 16.
    ///
    /// The return value is always within the closed range `[-1, -14]`
    pub fn irqn(self) -> (r: i8)
        ensures
            r == self.spec_number() - 16,
            -14 <= r <= -1,
    {
        match self {
            Exception::NonMaskableInt => -14,
            Exception::HardFault => -13,
            Exception::MemoryManagement => -12,
            Exception::BusFault => -11,
            Exception::UsageFault => -10,
            Exception::SecureFault => -9,
            Exception::SVCall => -5,
            Exception::DebugMonitor => -4,
            Exception::PendSV => -2,
            Exception::SysTick => -1,
        }
    }
}

/// Active exception number
#[derive(Clone, Copy, Debug, Eq, PartialEq, Structural)]
pub enum VectActive {
    /// Thread mode
    ThreadMode,
    /// Processor core exception (internal interrupts)
    Exception(Exception),
    /// Device specific exception (external interrupts)
    Interrupt {
        /// Interrupt number. This number is always within half open range `[0, 512)` (9 bit)
        irqn: u16,
    },
}

/// A vector number that names a processor core exception.
pub open spec fn is_exception_number(v: int) -> bool {
    2 <= v <= 7 || v == 11 || v == 12 || v == 14 || v == 15
}

/// A vector number that `VectActive` can represent: thread mode, a core exception or one of
/// the 496 external interrupts.
pub open spec fn is_vector_number(v: int) -> bool {
    v == 0 || is_exception_number(v) || 16 <= v < 512
}

impl VectActive {
    /// The vector number (exception number) of this `VectActive`.
    pub open spec fn spec_number(self) -> int {
        match self {
            VectActive::ThreadMode => 0,
            VectActive::Exception(e) => e.spec_number(),
            VectActive::Interrupt { irqn } => irqn + 16,
        }
    }

    /// The interrupt number of an external interrupt is below 496.
    pub open spec fn wf(self) -> bool {
        match self {
            VectActive::Interrupt { irqn } => irqn < 496,
            _ => true,
        }
    }

    /// Converts a vector number into `VectActive`
    ///
    /// Returns `None` for the reserved vector numbers and for numbers of 512 and above.
    pub fn from(vect_active: u16) -> (r: Option<Self>)
        ensures
            r.is_some() == is_vector_number(vect_active as int),
            r matches Some(va) ==> va.spec_number() == vect_active && va.wf(),
    {
        match vect_active {
            0 => Some(VectActive::ThreadMode),
            2 => Some(VectActive::Exception(Exception::NonMaskableInt)),
            3 => Some(VectActive::Exception(Exception::HardFault)),
            4 => Some(VectActive::Exception(Exception::MemoryManagement)),
            5 => Some(VectActive::Exception(Exception::BusFault)),
            6 => Some(VectActive::Exception(Exception::UsageFault)),
            7 => Some(VectActive::Exception(Exception::SecureFault)),
            11 => Some(VectActive::Exception(Exception::SVCall)),
            12 => Some(VectActive::Exception(Exception::DebugMonitor)),
            14 => Some(VectActive::Exception(Exception::PendSV)),
            15 => Some(VectActive::Exception(Exception::SysTick)),
            irqn => {
                if 16 <= irqn && irqn < 512 {
                    Some(VectActive::Interrupt { irqn: irqn - 16 })
                } else {
                    None
                }
            },
        }
    }
}

/// A vector number names at most one `VectActive`: `SCB::vect_active` and `VectActive::from`,
/// whose contracts give the number of their result, agree on every vector number.
pub proof fn lemma_vect_number_determines(a: VectActive, b: VectActive)
    requires
        a.wf(),
        b.wf(),
        a.spec_number() == b.spec_number(),
    ensures
        a == b,
{
}

impl crate::peripheral::SCB {
    /// Returns the active exception that `icsr` (ICSR) reports in its VECTACTIVE field.
    ///
    /// The field must not hold a reserved vector number.
    pub fn vect_active(icsr: u32) -> (r: VectActive)
        requires
            is_vector_number((icsr % 512) as int),
        ensures
            r.spec_number() == icsr % 512,
            r.wf(),
    {
        let vect = icsr & 0x1FF;
        proof {
            vstd::arithmetic::power2::lemma2_to64();
            crate::bits::lemma_and_low_mask(icsr, 9, 0x1FF);
        }
        match vect as u16 {
            0 => VectActive::ThreadMode,
            2 => VectActive::Exception(Exception::NonMaskableInt),
            3 => VectActive::Exception(Exception::HardFault),
            4 => VectActive::Exception(Exception::MemoryManagement),
            5 => VectActive::Exception(Exception::BusFault),
            6 => VectActive::Exception(Exception::UsageFault),
            7 => VectActive::Exception(Exception::SecureFault),
            11 => VectActive::Exception(Exception::SVCall),
            12 => VectActive::Exception(Exception::DebugMonitor),
            14 => VectActive::Exception(Exception::PendSV),
            15 => VectActive::Exception(Exception::SysTick),
            irqn => VectActive::Interrupt { irqn: irqn - 16 },
        }
    }
}

} // verus!

verus! {

/// SCR bit that selects deep sleep.
pub const SCB_SCR_SLEEPDEEP: u32 = 1u32 << 2u32;

/// SCR bit that puts the processor to sleep on return from an exception handler.
pub const SCB_SCR_SLEEPONEXIT: u32 = 1u32 << 1u32;

/// CCR bit that enables the I-cache.
pub const SCB_CCR_IC_MASK: u32 = 1u32 << 17u32;

/// CCR bit that enables the D-cache.
pub const SCB_CCR_DC_MASK: u32 = 1u32 << 16u32;

/// AIRCR key that unlocks writes.
pub const SCB_AIRCR_VECTKEY: u32 = 0x05FA_0000;

/// Position of the PRIGROUP field in AIRCR.
pub const SCB_AIRCR_PRIGROUP_POS: u32 = 8;

/// The PRIGROUP field of AIRCR.
pub const SCB_AIRCR_PRIGROUP_MASK: u32 = 0x0000_0700;

/// AIRCR bit that requests a system reset.
pub const SCB_AIRCR_SYSRESETREQ: u32 = 1u32 << 2u32;

/// ICSR bit that pends PendSV.
pub const SCB_ICSR_PENDSVSET: u32 = 1u32 << 28u32;

/// ICSR bit that clears a pending PendSV.
pub const SCB_ICSR_PENDSVCLR: u32 = 1u32 << 27u32;

/// ICSR bit that pends SysTick.
pub const SCB_ICSR_PENDSTSET: u32 = 1u32 << 26u32;

/// ICSR bit that clears a pending SysTick.
pub const SCB_ICSR_PENDSTCLR: u32 = 1u32 << 25u32;

/// The AIRCR value that `set_priority_grouping` writes: the key and the PRIGROUP field.
pub open spec fn spec_set_priority_grouping(group: nat) -> u32 {
    SCB_AIRCR_VECTKEY | ((group as u32) << 8u32)
}

/// The AIRCR value that requests a reset and keeps the priority grouping.
pub open spec fn spec_sys_reset_request(aircr: u32) -> u32 {
    SCB_AIRCR_VECTKEY | (aircr & SCB_AIRCR_PRIGROUP_MASK) | SCB_AIRCR_SYSRESETREQ
}

/// Getting the priority grouping after setting it gives the grouping that was set.
pub proof fn lemma_priority_grouping_read_back(group: nat)
    requires
        group < 8,
    ensures
        crate::bits::field(spec_set_priority_grouping(group), SCB_AIRCR_PRIGROUP_POS, 7) == group,
{
    let g = group as u32;
    assert(((0x05FA_0000u32 | (g << 8u32)) >> 8u32) & 7 == g) by (bit_vector)
        requires
            g < 8,
    ;
}

/// A reset request keeps the priority grouping, sets the reset request bit and carries the key.
pub proof fn lemma_sys_reset_request(aircr: u32)
    ensures
        crate::bits::field(spec_sys_reset_request(aircr), SCB_AIRCR_PRIGROUP_POS, 7)
            == crate::bits::field(aircr, SCB_AIRCR_PRIGROUP_POS, 7),
        crate::bits::bit_is_set(spec_sys_reset_request(aircr), 2),
        spec_sys_reset_request(aircr) >> 16u32 == 0x05FA,
{
    assert((((0x05FA_0000u32 | (aircr & 0x0000_0700u32) | (1u32 << 2u32)) >> 8u32) & 7
        == (aircr >> 8u32) & 7)
        && ((0x05FA_0000u32 | (aircr & 0x0000_0700u32) | (1u32 << 2u32)) & (1u32 << 2u32) != 0)
        && ((0x05FA_0000u32 | (aircr & 0x0000_0700u32) | (1u32 << 2u32)) >> 16u32 == 0x05FA))
        by (bit_vector);
}

/// The flag setters of the SCB change their flag and no other bit.
pub proof fn lemma_scb_flags(v: u32, j: u32)
    requires
        j < 32,
    ensures
        crate::bits::bit_is_set(v | SCB_SCR_SLEEPDEEP, j) == (j == 2 || crate::bits::bit_is_set(v, j)),
        crate::bits::bit_is_set(v & !SCB_SCR_SLEEPDEEP, j) == (j != 2 && crate::bits::bit_is_set(v, j)),
        crate::bits::bit_is_set(v | SCB_SCR_SLEEPONEXIT, j) == (j == 1 || crate::bits::bit_is_set(v, j)),
        crate::bits::bit_is_set(v & !SCB_SCR_SLEEPONEXIT, j) == (j != 1 && crate::bits::bit_is_set(v, j)),
        crate::bits::bit_is_set(v & !SCB_CCR_IC_MASK, j) == (j != 17 && crate::bits::bit_is_set(v, j)),
        crate::bits::bit_is_set(v & !SCB_CCR_DC_MASK, j) == (j != 16 && crate::bits::bit_is_set(v, j)),
{
    crate::bits::lemma_bit_update(v, 2, j);
    crate::bits::lemma_bit_update(v, 1, j);
    crate::bits::lemma_bit_update(v, 17, j);
    crate::bits::lemma_bit_update(v, 16, j);
}

impl crate::peripheral::SCB {
    /// The SCR value with the SLEEPDEEP bit set
    pub fn set_sleepdeep(scr: u32) -> (r: u32)
        ensures
            r == scr | SCB_SCR_SLEEPDEEP,
    {
        scr | SCB_SCR_SLEEPDEEP
    }

    /// The SCR value with the SLEEPDEEP bit cleared
    pub fn clear_sleepdeep(scr: u32) -> (r: u32)
        ensures
            r == scr & !SCB_SCR_SLEEPDEEP,
    {
        scr & !SCB_SCR_SLEEPDEEP
    }

    /// The SCR value with the SLEEPONEXIT bit set
    pub fn set_sleeponexit(scr: u32) -> (r: u32)
        ensures
            r == scr | SCB_SCR_SLEEPONEXIT,
    {
        scr | SCB_SCR_SLEEPONEXIT
    }

    /// The SCR value with the SLEEPONEXIT bit cleared
    pub fn clear_sleeponexit(scr: u32) -> (r: u32)
        ensures
            r == scr & !SCB_SCR_SLEEPONEXIT,
    {
        scr & !SCB_SCR_SLEEPONEXIT
    }

    /// The AIRCR value that requests a system reset: the key, the current priority grouping
    /// of `aircr` and the reset request bit.
    pub fn sys_reset_request(aircr: u32) -> (r: u32)
        ensures
            r == spec_sys_reset_request(aircr),
    {
        SCB_AIRCR_VECTKEY | (aircr & SCB_AIRCR_PRIGROUP_MASK) | SCB_AIRCR_SYSRESETREQ
    }

    /// The AIRCR value that sets the priority grouping.
    pub fn set_priority_grouping<const NVIC_PRIO_BITS: u8>(
        grouping: PriorityGrouping<NVIC_PRIO_BITS>,
    ) -> (r: u32)
        ensures
            r == spec_set_priority_grouping(grouping.group()),
    {
        SCB_AIRCR_VECTKEY | ((grouping.value() as u32) << 8u32)
    }

    /// The priority grouping that `aircr` (AIRCR) holds in its PRIGROUP field.
    pub fn get_priority_grouping<const NVIC_PRIO_BITS: u8>(aircr: u32) -> (r: PriorityGrouping<NVIC_PRIO_BITS>)
        ensures
            r.group() == crate::bits::field(aircr, SCB_AIRCR_PRIGROUP_POS, 7),
    {
        let group = (aircr & SCB_AIRCR_PRIGROUP_MASK) >> SCB_AIRCR_PRIGROUP_POS;
        proof {
            crate::bits::lemma_fits_at_facts();
            crate::bits::lemma_mask_shift(aircr, 8, 7);
            crate::bits::lemma_field_bound(aircr, 8, 7);
            assert(7u32 << 8u32 == 0x0000_0700) by (bit_vector);
        }
        match group {
            0 => PriorityGrouping::Prigroup0,
            1 => PriorityGrouping::Prigroup1,
            2 => PriorityGrouping::Prigroup2,
            3 => PriorityGrouping::Prigroup3,
            4 => PriorityGrouping::Prigroup4,
            5 => PriorityGrouping::Prigroup5,
            6 => PriorityGrouping::Prigroup6,
            _ => PriorityGrouping::Prigroup7,
        }
    }

    /// Whether `icsr` (ICSR) reports PendSV as pending
    pub fn is_pendsv_pending(icsr: u32) -> (r: bool)
        ensures
            r == crate::bits::bit_is_set(icsr, 28),
    {
        proof {
            crate::bits::lemma_single_bit(icsr, 28);
        }
        icsr & SCB_ICSR_PENDSVSET == SCB_ICSR_PENDSVSET
    }

    /// Whether `icsr` (ICSR) reports SysTick as pending
    pub fn is_pendst_pending(icsr: u32) -> (r: bool)
        ensures
            r == crate::bits::bit_is_set(icsr, 26),
    {
        proof {
            crate::bits::lemma_single_bit(icsr, 26);
        }
        icsr & SCB_ICSR_PENDSTSET == SCB_ICSR_PENDSTSET
    }

    /// Whether `ccr` (CCR) has the I-cache enabled.
    pub fn icache_enabled(ccr: u32) -> (r: bool)
        ensures
            r == crate::bits::bit_is_set(ccr, 17),
    {
        proof {
            crate::bits::lemma_single_bit(ccr, 17);
        }
        ccr & SCB_CCR_IC_MASK == SCB_CCR_IC_MASK
    }

    /// Whether `ccr` (CCR) has the D-cache enabled.
    pub fn dcache_enabled(ccr: u32) -> (r: bool)
        ensures
            r == crate::bits::bit_is_set(ccr, 16),
    {
        proof {
            crate::bits::lemma_single_bit(ccr, 16);
        }
        ccr & SCB_CCR_DC_MASK == SCB_CCR_DC_MASK
    }

    /// The CCR value that enables the I-cache, or `None` when `ccr` has it enabled already.
    ///
    /// The I-cache is to be invalidated before the value is written.
    pub fn enable_icache(ccr: u32) -> (r: Option<u32>)
        ensures
            r == (if crate::bits::bit_is_set(ccr, 17) { None } else { Some(ccr | SCB_CCR_IC_MASK) }),
    {
        if Self::icache_enabled(ccr) {
            return None;
        }
        Some(ccr | SCB_CCR_IC_MASK)
    }

    /// The CCR value that enables the D-cache, or `None` when `ccr` has it enabled already.
    ///
    /// The D-cache is to be invalidated before the value is written.
    pub fn enable_dcache(ccr: u32) -> (r: Option<u32>)
        ensures
            r == (if crate::bits::bit_is_set(ccr, 16) { None } else { Some(ccr | SCB_CCR_DC_MASK) }),
    {
        if Self::dcache_enabled(ccr) {
            return None;
        }
        Some(ccr | SCB_CCR_DC_MASK)
    }

    /// The CCR value that disables the I-cache, or `None` when `ccr` has it disabled already
    /// (then nothing is to be done; otherwise the I-cache is to be invalidated after the write).
    pub fn disable_icache(ccr: u32) -> (r: Option<u32>)
        ensures
            r == (if crate::bits::bit_is_set(ccr, 17) { Some(ccr & !SCB_CCR_IC_MASK) } else { None }),
    {
        if !Self::icache_enabled(ccr) {
            return None;
        }
        Some(ccr & !SCB_CCR_IC_MASK)
    }

    /// The CCR value that disables the D-cache, or `None` when `ccr` has it disabled already
    /// (then nothing is to be done; otherwise the D-cache is to be cleaned and invalidated after
    /// the write).
    pub fn disable_dcache(ccr: u32) -> (r: Option<u32>)
        ensures
            r == (if crate::bits::bit_is_set(ccr, 16) { Some(ccr & !SCB_CCR_DC_MASK) } else { None }),
    {
        if !Self::dcache_enabled(ccr) {
            return None;
        }
        Some(ccr & !SCB_CCR_DC_MASK)
    }
}

/// System handlers, exceptions with configurable priority
#[derive(Clone, Copy, Debug, Eq, PartialEq, Structural)]
pub enum SystemHandler {
    /// Memory management interrupt (not present on Cortex-M0 variants)
    MemoryManagement,
    /// Bus fault interrupt (not present on Cortex-M0 variants)
    BusFault,
    /// Usage fault interrupt (not present on Cortex-M0 variants)
    UsageFault,
    /// Secure fault interrupt (only on ARMv8-M)
    SecureFault,
    /// SV call interrupt
    SVCall,
    /// Debug monitor interrupt (not present on Cortex-M0 variants)
    DebugMonitor,
    /// Pend SV interrupt
    PendSV,
    /// System Tick interrupt
    SysTick,
}

impl SystemHandler {
    /// The exception number of this handler.
    pub open spec fn spec_number(self) -> int {
        match self {
            SystemHandler::MemoryManagement => 4,
            SystemHandler::BusFault => 5,
            SystemHandler::UsageFault => 6,
            SystemHandler::SecureFault => 7,
            SystemHandler::SVCall => 11,
            SystemHandler::DebugMonitor => 12,
            SystemHandler::PendSV => 14,
            SystemHandler::SysTick => 15,
        }
    }

    /// The index of this handler's byte among the twelve SHPR bytes (SHPR1 to SHPR3).
    pub open spec fn shpr_index(self) -> int {
        self.spec_number() - 4
    }

    fn number(self) -> (r: u8)
        ensures
            r == self.spec_number(),
    {
        match self {
            SystemHandler::MemoryManagement => 4,
            SystemHandler::BusFault => 5,
            SystemHandler::UsageFault => 6,
            SystemHandler::SecureFault => 7,
            SystemHandler::SVCall => 11,
            SystemHandler::DebugMonitor => 12,
            SystemHandler::PendSV => 14,
            SystemHandler::SysTick => 15,
        }
    }
}

/// Setting a handler's priority changes what `get_priority` reads for that handler and for
/// no other handler.
pub proof fn lemma_system_priority_read_back(
    shpr: Seq<u8>,
    system_handler: SystemHandler,
    other: SystemHandler,
    prio: u8,
)
    requires
        shpr.len() == 12,
    ensures
        shpr.update(system_handler.shpr_index(), prio)[system_handler.shpr_index()] == prio,
        other != system_handler ==> shpr.update(system_handler.shpr_index(), prio)[other.shpr_index()]
            == shpr[other.shpr_index()],
{
}

/// Each system handler's SHPR byte is its architectural exception number minus 4: MemManage
/// (4) byte 0, BusFault (5) byte 1, UsageFault (6) byte 2, SecureFault (7) byte 3, SVCall (11)
/// byte 7, DebugMonitor (12) byte 8, PendSV (14) byte 10, SysTick (15) byte 11; and each handler
/// has the exception number of the exception of the same name.
pub proof fn lemma_system_handler_bytes()
    ensures
        SystemHandler::MemoryManagement.shpr_index() == 0,
        SystemHandler::BusFault.shpr_index() == 1,
        SystemHandler::UsageFault.shpr_index() == 2,
        SystemHandler::SecureFault.shpr_index() == 3,
        SystemHandler::SVCall.shpr_index() == 7,
        SystemHandler::DebugMonitor.shpr_index() == 8,
        SystemHandler::PendSV.shpr_index() == 10,
        SystemHandler::SysTick.shpr_index() == 11,
        SystemHandler::MemoryManagement.spec_number() == Exception::MemoryManagement.spec_number(),
        SystemHandler::BusFault.spec_number() == Exception::BusFault.spec_number(),
        SystemHandler::UsageFault.spec_number() == Exception::UsageFault.spec_number(),
        SystemHandler::SecureFault.spec_number() == Exception::SecureFault.spec_number(),
        SystemHandler::SVCall.spec_number() == Exception::SVCall.spec_number(),
        SystemHandler::DebugMonitor.spec_number() == Exception::DebugMonitor.spec_number(),
        SystemHandler::PendSV.spec_number() == Exception::PendSV.spec_number(),
        SystemHandler::SysTick.spec_number() == Exception::SysTick.spec_number(),
{
}

/// The core exceptions have their architectural exception numbers: NMI 2, HardFault 3,
/// MemManage 4, BusFault 5, UsageFault 6, SecureFault 7, SVCall 11, DebugMonitor 12, PendSV 14,
/// SysTick 15; so `VectActive::from` and `SCB::vect_active` name the exception whose number
/// VECTACTIVE holds, and `irqn` is that number minus 16.
pub proof fn lemma_exception_numbers(e: Exception)
    ensures
        (e.spec_number() == 2) == (e == Exception::NonMaskableInt),
        (e.spec_number() == 3) == (e == Exception::HardFault),
        (e.spec_number() == 4) == (e == Exception::MemoryManagement),
        (e.spec_number() == 5) == (e == Exception::BusFault),
        (e.spec_number() == 6) == (e == Exception::UsageFault),
        (e.spec_number() == 7) == (e == Exception::SecureFault),
        (e.spec_number() == 11) == (e == Exception::SVCall),
        (e.spec_number() == 12) == (e == Exception::DebugMonitor),
        (e.spec_number() == 14) == (e == Exception::PendSV),
        (e.spec_number() == 15) == (e == Exception::SysTick),
{
}

impl crate::peripheral::SCB {
    /// Returns the hardware priority of `system_handler` from the SHPR bytes `shpr`
    ///
    /// *NOTE*: Hardware priority does not exactly match logical priority levels. See
    /// [`NVIC.get_priority`](struct.NVIC.html#method.get_priority) for more details.
    pub fn get_priority(shpr: &[u8], system_handler: SystemHandler) -> (r: u8)
        requires
            shpr.len() == 12,
        ensures
            r == shpr@[system_handler.shpr_index()],
    {
        let index = system_handler.number();
        shpr[(index - 4) as usize]
    }

    /// Sets the hardware priority of `system_handler` to `prio` among the SHPR bytes `shpr`
    ///
    /// *NOTE*: Hardware priority does not exactly match logical priority levels. See
    /// [`NVIC.get_priority`](struct.NVIC.html#method.get_priority) for more details.
    pub fn set_priority(shpr: &mut [u8], system_handler: SystemHandler, prio: u8)
        requires
            old(shpr)@.len() == 12,
        ensures
            final(shpr)@ == old(shpr)@.update(system_handler.shpr_index(), prio),
    {
        let index = system_handler.number();
        shpr[(index - 4) as usize] = prio;
    }
}

/// The SHCSR bit that enables `exception`, for the exceptions that have one.
pub open spec fn spec_shcsr_enable_shift(exception: Exception) -> Option<u32> {
    match exception {
        Exception::MemoryManagement => Some(16),
        Exception::BusFault => Some(17),
        Exception::UsageFault => Some(18),
        Exception::SecureFault => Some(19),
        _ => None,
    }
}

/// SHCSR after enabling `exception` (unchanged for an exception without an enable bit).
pub open spec fn spec_enable(shcsr: u32, exception: Exception) -> u32 {
    match spec_shcsr_enable_shift(exception) {
        Some(shift) => shcsr | (1u32 << shift),
        None => shcsr,
    }
}

/// SHCSR after disabling `exception` (unchanged for an exception without an enable bit).
pub open spec fn spec_disable(shcsr: u32, exception: Exception) -> u32 {
    match spec_shcsr_enable_shift(exception) {
        Some(shift) => shcsr & !(1u32 << shift),
        None => shcsr,
    }
}

/// Whether `shcsr` has `exception` enabled (`false` for an exception without an enable bit).
pub open spec fn spec_is_enabled(shcsr: u32, exception: Exception) -> bool {
    match spec_shcsr_enable_shift(exception) {
        Some(shift) => crate::bits::bit_is_set(shcsr, shift),
        None => false,
    }
}

/// The SHCSR enable bits of the configurable faults: MemManage bit 16, BusFault bit 17,
/// UsageFault bit 18, SecureFault bit 19; the other exceptions have none, and enabling or
/// disabling them changes nothing.
pub proof fn lemma_exception_enable_bits(shcsr: u32, exception: Exception)
    ensures
        spec_enable(shcsr, Exception::MemoryManagement) == shcsr | 0x0001_0000,
        spec_enable(shcsr, Exception::BusFault) == shcsr | 0x0002_0000,
        spec_enable(shcsr, Exception::UsageFault) == shcsr | 0x0004_0000,
        spec_enable(shcsr, Exception::SecureFault) == shcsr | 0x0008_0000,
        spec_disable(shcsr, Exception::MemoryManagement) == shcsr & !0x0001_0000u32,
        spec_disable(shcsr, Exception::BusFault) == shcsr & !0x0002_0000u32,
        spec_disable(shcsr, Exception::UsageFault) == shcsr & !0x0004_0000u32,
        spec_disable(shcsr, Exception::SecureFault) == shcsr & !0x0008_0000u32,
        spec_is_enabled(shcsr, Exception::MemoryManagement) == (shcsr & 0x0001_0000 != 0),
        spec_is_enabled(shcsr, Exception::BusFault) == (shcsr & 0x0002_0000 != 0),
        spec_is_enabled(shcsr, Exception::UsageFault) == (shcsr & 0x0004_0000 != 0),
        spec_is_enabled(shcsr, Exception::SecureFault) == (shcsr & 0x0008_0000 != 0),
        spec_shcsr_enable_shift(exception) is None ==> spec_enable(shcsr, exception) == shcsr
            && spec_disable(shcsr, exception) == shcsr && !spec_is_enabled(shcsr, exception),
        spec_shcsr_enable_shift(exception) is None <==> (exception != Exception::MemoryManagement
            && exception != Exception::BusFault && exception != Exception::UsageFault
            && exception != Exception::SecureFault),
{
    assert(1u32 << 16u32 == 0x0001_0000 && 1u32 << 17u32 == 0x0002_0000 && 1u32 << 18u32 == 0x0004_0000
        && 1u32 << 19u32 == 0x0008_0000) by (bit_vector);
}

/// Enabling an exception makes it read as enabled, disabling it makes it read as disabled,
/// and neither changes whether another exception reads as enabled.
pub proof fn lemma_exception_enable(shcsr: u32, exception: Exception, other: Exception)
    ensures
        spec_is_enabled(spec_enable(shcsr, exception), exception)
            == spec_shcsr_enable_shift(exception).is_some(),
        !spec_is_enabled(spec_disable(shcsr, exception), exception),
        other != exception ==> spec_is_enabled(spec_enable(shcsr, exception), other)
            == spec_is_enabled(shcsr, other),
        other != exception ==> spec_is_enabled(spec_disable(shcsr, exception), other)
            == spec_is_enabled(shcsr, other),
{
    if let Some(s) = spec_shcsr_enable_shift(exception) {
        crate::bits::lemma_bit_update(shcsr, s, s);
        if let Some(t) = spec_shcsr_enable_shift(other) {
            crate::bits::lemma_bit_update(shcsr, s, t);
        }
    }
}

impl crate::peripheral::SCB {
    /// Return the bit position of the exception enable bit in the SHCSR register
    fn shcsr_enable_shift(exception: Exception) -> (r: Option<u32>)
        ensures
            r == spec_shcsr_enable_shift(exception),
    {
        match exception {
            Exception::MemoryManagement => Some(16),
            Exception::BusFault => Some(17),
            Exception::UsageFault => Some(18),
            Exception::SecureFault => Some(19),
            _ => None,
        }
    }

    /// The SHCSR value that enables `exception`
    ///
    /// If the exception is enabled, when the exception is triggered, the exception handler will be executed instead of the
    /// HardFault handler.
    /// This function is only allowed on the following exceptions:
    /// * `MemoryManagement`
    /// * `BusFault`
    /// * `UsageFault`
    /// * `SecureFault` (can only be enabled from Secure state)
    ///
    /// Calling this function with any other exception will do nothing.
    pub fn enable(shcsr: u32, exception: Exception) -> (r: u32)
        ensures
            r == spec_enable(shcsr, exception),
    {
        if let Some(shift) = Self::shcsr_enable_shift(exception) {
            shcsr | (1u32 << shift)
        } else {
            shcsr
        }
    }

    /// The SHCSR value that disables `exception`
    ///
    /// If the exception is disabled, when the exception is triggered, the HardFault handler will be executed instead of the
    /// exception handler.
    /// This function is only allowed on the following exceptions:
    /// * `MemoryManagement`
    /// * `BusFault`
    /// * `UsageFault`
    /// * `SecureFault` (can not be changed from Non-secure state)
    ///
    /// Calling this function with any other exception will do nothing.
    pub fn disable(shcsr: u32, exception: Exception) -> (r: u32)
        ensures
            r == spec_disable(shcsr, exception),
    {
        if let Some(shift) = Self::shcsr_enable_shift(exception) {
            shcsr & !(1u32 << shift)
        } else {
            shcsr
        }
    }

    /// Check if `shcsr` (SHCSR) has an exception enabled
    ///
    /// This function is only allowed on the following exception:
    /// * `MemoryManagement`
    /// * `BusFault`
    /// * `UsageFault`
    /// * `SecureFault` (can not be read from Non-secure state)
    ///
    /// Calling this function with any other exception will read `false`.
    pub fn is_enabled(shcsr: u32, exception: Exception) -> (r: bool)
        ensures
            r == spec_is_enabled(shcsr, exception),
    {
        if let Some(shift) = Self::shcsr_enable_shift(exception) {
            (shcsr & (1u32 << shift)) > 0
        } else {
            false
        }
    }
}

} // verus!

verus! {

/// Size in bytes of a cache line of `2^dminline` words.
pub open spec fn spec_line_size(dminline: u32) -> int {
    (4 * pow2(dminline as nat)) as int
}

/// CTR's DminLine is log2 of the number of 4-byte words in the smallest cache line, so a line
/// holds `(1 << dminline) * 4` bytes: 32 bytes for the Cortex-M7's DminLine of 3.
pub proof fn lemma_line_size(dminline: u32)
    requires
        dminline < 16,
    ensures
        spec_line_size(dminline) == ((1u32 << dminline) * 4) as int,
{
    lemma2_to64();
    lemma_u32_shl_is_mul(1, dminline);
    lemma_pow2_strictly_increases(dminline as nat, 16);
}

/// The address of the cache line that holds `addr`.
pub open spec fn spec_first_line(addr: usize, line_size: int) -> int {
    addr - addr as int % line_size
}

/// The number of cache lines that the `size` bytes from `addr` overlap.
pub open spec fn spec_num_lines(addr: usize, size: usize, line_size: int) -> int {
    if size == 0 {
        0
    } else {
        (addr as int % line_size + size - 1) / line_size + 1
    }
}

/// The addresses of the cache lines that the `size` bytes from `addr` overlap: consecutive
/// lines, from the line that holds `addr` to the line that holds `addr + size - 1`.
pub open spec fn spec_line_addresses(addr: usize, size: usize, line_size: int) -> Seq<u32> {
    Seq::new(
        spec_num_lines(addr, size, line_size) as nat,
        |i: int| (spec_first_line(addr, line_size) + i * line_size) as u32,
    )
}

/// The lines to maintain for the `size` bytes from `addr` are exactly those that the bytes
/// overlap: the first is the line-aligned line that holds `addr`, the last one starts before
/// `addr + size`, and together they reach `addr + size`.
pub proof fn lemma_lines_cover(addr: usize, size: usize, line_size: int)
    requires
        line_size > 0,
        size > 0,
    ensures
        spec_first_line(addr, line_size) % line_size == 0,
        spec_first_line(addr, line_size) <= addr < spec_first_line(addr, line_size) + line_size,
        spec_first_line(addr, line_size) + (spec_num_lines(addr, size, line_size) - 1) * line_size
            < addr + size,
        spec_first_line(addr, line_size) + spec_num_lines(addr, size, line_size) * line_size
            >= addr + size,
{
    let r = addr as int % line_size;
    vstd::arithmetic::div_mod::lemma_mod_pos_bound(addr as int, line_size);
    lemma_fundamental_div_mod(addr as int, line_size);
    vstd::arithmetic::mul::lemma_mul_is_commutative(line_size, addr as int / line_size);
    assert(spec_first_line(addr, line_size) == (addr as int / line_size) * line_size);
    vstd::arithmetic::div_mod::lemma_mod_multiples_basic(addr as int / line_size, line_size);
    let q = (r + size - 1) / line_size;
    lemma_fundamental_div_mod(r + size - 1, line_size);
    vstd::arithmetic::div_mod::lemma_mod_pos_bound(r + size - 1, line_size);
    vstd::arithmetic::mul::lemma_mul_is_distributive_add_other_way(line_size, q, 1);
    vstd::arithmetic::mul::lemma_mul_is_commutative(q, line_size);
}

/// Maintaining an object or a slice is maintaining the range of its bytes: its lines are those of
/// the range from its address over its size, and an empty range (a zero-sized object or an empty
/// slice) has no line.
pub proof fn lemma_object_lines(addr: usize, size: usize, line_size: int)
    requires
        line_size > 0,
    ensures
        spec_line_addresses(addr, size, line_size).len() == spec_num_lines(addr, size, line_size),
        size == 0 <==> spec_line_addresses(addr, size, line_size).len() == 0,
{
    if size > 0 {
        vstd::arithmetic::div_mod::lemma_div_pos_is_pos(addr as int % line_size + size - 1, line_size);
        vstd::arithmetic::div_mod::lemma_mod_pos_bound(addr as int, line_size);
    }
}

/// The addresses of the cache lines that the `size` bytes from `addr` overlap, for lines of
/// `2^dminline` words.
fn line_addresses(addr: usize, size: usize, dminline: u32) -> (r: Vec<u32>)
    requires
        dminline < 16,
        addr + size <= 0x1_0000_0000,
    ensures
        r@ == spec_line_addresses(addr, size, spec_line_size(dminline)),
{
    let ghost ls = spec_line_size(dminline);
    if size == 0 {
        let r = Vec::new();
        assert(r@ =~= spec_line_addresses(addr, size, ls));
        return r;
    }
    proof {
        lemma2_to64();
        lemma_pow2_strictly_increases(dminline as nat, 16);
        lemma_u32_shl_is_mul(1, dminline);
        lemma_lines_cover(addr, size, ls);
    }
    let line_size: u64 = ((1u32 << dminline) * 4) as u64;
    let a: u64 = addr as u64;
    let s: u64 = size as u64;
    assert(line_size == ls && a == addr);
    proof {
        lemma_fundamental_div_mod(addr as int, ls);
        vstd::arithmetic::div_mod::lemma_div_pos_is_pos(addr as int, ls);
        vstd::arithmetic::mul::lemma_mul_nonnegative(ls, addr as int / ls);
    }
    let first: u64 = a - a % line_size;
    let num_lines: u64 = (a % line_size + s - 1) / line_size + 1;

    let mut lines: Vec<u32> = Vec::new();
    let mut i: u64 = 0;
    while i < num_lines
        invariant
            i <= num_lines,
            num_lines == spec_num_lines(addr, size, ls),
            line_size == ls,
            first == spec_first_line(addr, ls),
            first + (num_lines - 1) * ls < addr + size,
            addr + size <= 0x1_0000_0000,
            lines@ == spec_line_addresses(addr, size, ls).take(i as int),
        decreases num_lines - i,
    {
        proof {
            vstd::arithmetic::mul::lemma_mul_inequality(i as int, num_lines - 1, ls);
        }
        lines.push((first + i * line_size) as u32);
        i = i + 1;
        assert(lines@ =~= spec_line_addresses(addr, size, ls).take(i as int));
    }
    assert(lines@ =~= spec_line_addresses(addr, size, ls));
    lines
}

impl crate::peripheral::SCB {
    /// The addresses written to DCIMVAC to invalidate the D-cache by address.
    ///
    /// * `addr`: The address to invalidate, which must be cache-line aligned.
    /// * `size`: Number of bytes to invalidate, which must be a multiple of the cache line size.
    /// * `dminline`: log2 of the number of words in a cache line (see `CPUID::cache_dminline`).
    ///
    /// Invalidates D-cache cache lines, starting from the first line containing `addr`,
    /// finishing once all `size` bytes have been invalidated. The range lies below 4 GiB.
    ///
    /// Invalidation causes the next read access to memory to be fetched from main memory instead
    /// of the cache.
    pub fn invalidate_dcache_by_address(addr: usize, size: usize, dminline: u32) -> (r: Vec<u32>)
        requires
            dminline < 16,
            addr as int % spec_line_size(dminline) == 0,
            size as int % spec_line_size(dminline) == 0,
            addr + size <= 0x1_0000_0000,
        ensures
            r@ == spec_line_addresses(addr, size, spec_line_size(dminline)),
    {
        line_addresses(addr, size, dminline)
    }

    /// The addresses written to DCIMVAC to invalidate the object `obj`, which is at `addr`.
    ///
    /// The object must start and end on cache line boundaries. The object itself is left as it is.
    pub fn invalidate_dcache_by_ref<T>(obj: &mut T, addr: usize, dminline: u32) -> (r: Vec<u32>)
        requires
            dminline < 16,
            addr as int % spec_line_size(dminline) == 0,
            vstd::layout::size_of::<T>() as int % spec_line_size(dminline) == 0,
            addr + vstd::layout::size_of::<T>() <= 0x1_0000_0000,
        ensures
            r@ == spec_line_addresses(addr, vstd::layout::size_of::<T>() as usize, spec_line_size(dminline)),
            vstd::layout::size_of::<T>() == 0 ==> r@.len() == 0,
            *final(obj) == *old(obj),
    {
        Self::invalidate_dcache_by_address(addr, core::mem::size_of::<T>(), dminline)
    }

    /// The addresses written to DCIMVAC to invalidate the slice `slice`, which is at `addr`.
    ///
    /// The slice must start and end on cache line boundaries. Its elements are left as they are.
    pub fn invalidate_dcache_by_slice<T>(slice: &mut [T], addr: usize, dminline: u32) -> (r: Vec<u32>)
        requires
            dminline < 16,
            addr as int % spec_line_size(dminline) == 0,
            (old(slice)@.len() * vstd::layout::size_of::<T>()) as int % spec_line_size(dminline) == 0,
            old(slice)@.len() * vstd::layout::size_of::<T>() <= usize::MAX,
            addr + old(slice)@.len() * vstd::layout::size_of::<T>() <= 0x1_0000_0000,
        ensures
            r@ == spec_line_addresses(
                addr,
                (old(slice)@.len() * vstd::layout::size_of::<T>()) as usize,
                spec_line_size(dminline),
            ),
            old(slice)@.len() * vstd::layout::size_of::<T>() == 0 ==> r@.len() == 0,
            final(slice)@ == old(slice)@,
    {
        proof {
            vstd::arithmetic::mul::lemma_mul_nonnegative(slice@.len() as int, vstd::layout::size_of::<T>() as int);
        }
        Self::invalidate_dcache_by_address(addr, slice.len() * core::mem::size_of::<T>(), dminline)
    }

    /// The addresses written to DCCMVAC to clean the D-cache by address.
    ///
    /// * `addr`: The address to start cleaning at.
    /// * `size`: The number of bytes to clean.
    /// * `dminline`: log2 of the number of words in a cache line (see `CPUID::cache_dminline`).
    ///
    /// Cleans every D-cache line that the `size` bytes from `addr` overlap, starting from the
    /// first line containing `addr` (see `lemma_lines_cover`). The range lies below 4 GiB.
    /// If `addr` is not cache-line aligned, or `size` is not a multiple of the cache line size,
    /// other data before or after the desired memory will also be cleaned.
    pub fn clean_dcache_by_address(addr: usize, size: usize, dminline: u32) -> (r: Vec<u32>)
        requires
            dminline < 16,
            addr + size <= 0x1_0000_0000,
        ensures
            r@ == spec_line_addresses(addr, size, spec_line_size(dminline)),
    {
        line_addresses(addr, size, dminline)
    }

    /// The addresses written to DCCMVAC to clean the object `obj`, which is at `addr`: every line
    /// that the object overlaps.
    pub fn clean_dcache_by_ref<T>(obj: &T, addr: usize, dminline: u32) -> (r: Vec<u32>)
        requires
            dminline < 16,
            addr + vstd::layout::size_of::<T>() <= 0x1_0000_0000,
        ensures
            r@ == spec_line_addresses(addr, vstd::layout::size_of::<T>() as usize, spec_line_size(dminline)),
            vstd::layout::size_of::<T>() == 0 ==> r@.len() == 0,
    {
        Self::clean_dcache_by_address(addr, core::mem::size_of::<T>(), dminline)
    }

    /// The addresses written to DCCMVAC to clean the slice `slice`, which is at `addr`: every line
    /// that the slice overlaps.
    pub fn clean_dcache_by_slice<T>(slice: &[T], addr: usize, dminline: u32) -> (r: Vec<u32>)
        requires
            dminline < 16,
            slice@.len() * vstd::layout::size_of::<T>() <= usize::MAX,
            addr + slice@.len() * vstd::layout::size_of::<T>() <= 0x1_0000_0000,
        ensures
            r@ == spec_line_addresses(
                addr,
                (slice@.len() * vstd::layout::size_of::<T>()) as usize,
                spec_line_size(dminline),
            ),
            slice@.len() * vstd::layout::size_of::<T>() == 0 ==> r@.len() == 0,
    {
        proof {
            vstd::arithmetic::mul::lemma_mul_nonnegative(slice@.len() as int, vstd::layout::size_of::<T>() as int);
        }
        Self::clean_dcache_by_address(addr, slice.len() * core::mem::size_of::<T>(), dminline)
    }

    /// The addresses written to DCCIMVAC to clean and invalidate the D-cache by address: every
    /// line that the `size` bytes from `addr` overlap.
    ///
    /// Cache lines are fixed to 32 bytes on Cortex-M7 and not present in earlier Cortex-M.
    pub fn clean_invalidate_dcache_by_address(addr: usize, size: usize) -> (r: Vec<u32>)
        requires
            addr + size <= 0x1_0000_0000,
        ensures
            r@ == spec_line_addresses(addr, size, 32),
    {
        proof {
            lemma2_to64();
        }
        line_addresses(addr, size, 3)
    }
}

} // verus!

verus! {

/// Position of the word for `set` and `way` in a set-major walk over `ways` ways.
pub open spec fn set_way_position(set: int, way: int, ways: int) -> int {
    set * ways + way
}

/// The set/way words of a walk over every set, and within each set over every way.
fn set_way_words(sets: u16, ways: u16) -> (r: Vec<u32>)
    ensures
        r@.len() == sets * ways,
        forall|set: int, way: int|
            0 <= set < sets && 0 <= way < ways ==> #[trigger] r@[set_way_position(set, way, ways as int)]
                == crate::peripheral::cbp::spec_set_way(set as u16, way as u16),
{
    let mut words: Vec<u32> = Vec::new();
    let mut set: u16 = 0;
    while set < sets
        invariant
            set <= sets,
            words@.len() == set * ways,
            forall|s: int, w: int|
                0 <= s < set && 0 <= w < ways ==> #[trigger] words@[set_way_position(s, w, ways as int)]
                    == crate::peripheral::cbp::spec_set_way(s as u16, w as u16),
        decreases sets - set,
    {
        let mut way: u16 = 0;
        while way < ways
            invariant
                set < sets,
                way <= ways,
                words@.len() == set * ways + way,
                forall|s: int, w: int|
                    0 <= s < set && 0 <= w < ways ==> #[trigger] words@[set_way_position(s, w, ways as int)]
                        == crate::peripheral::cbp::spec_set_way(s as u16, w as u16),
                forall|w: int|
                    0 <= w < way ==> #[trigger] words@[set_way_position(set as int, w, ways as int)]
                        == crate::peripheral::cbp::spec_set_way(set, w as u16),
            decreases ways - way,
        {
            proof {
                assert forall|s: int, w: int| 0 <= s < set && 0 <= w < ways implies
                    set_way_position(s, w, ways as int) < set * ways by {
                    vstd::arithmetic::mul::lemma_mul_inequality(s + 1, set as int, ways as int);
                    vstd::arithmetic::mul::lemma_mul_is_distributive_add_other_way(ways as int, s, 1);
                }
            }
            words.push(crate::peripheral::CBP::dcisw(set, way));
            way = way + 1;
        }
        proof {
            vstd::arithmetic::mul::lemma_mul_is_distributive_add_other_way(ways as int, set as int, 1);
        }
        set = set + 1;
    }
    words
}

impl crate::peripheral::SCB {
    /// The set/way words written to DCISW to invalidate the entire D-cache, which `ccsidr`
    /// (CCSIDR of the level 1 data cache) describes: every way of every set, set by set.
    ///
    /// Note that invalidating while the dcache is enabled will probably wipe out the
    /// stack, depending on optimisations, therefore breaking returning to the call point.
    /// It's used immediately before enabling the dcache.
    pub fn invalidate_dcache(ccsidr: u32) -> (r: Vec<u32>)
        ensures
            ({
                let (sets, ways) = (1 + crate::bits::field(ccsidr, 13, 0x7FFF), 1 + crate::bits::field(ccsidr, 3, 0x3FF));
                &&& r@.len() == sets * ways
                &&& forall|set: int, way: int|
                    0 <= set < sets && 0 <= way < ways ==> #[trigger] r@[set_way_position(set, way, ways as int)]
                        == crate::peripheral::cbp::spec_set_way(set as u16, way as u16)
            }),
    {
        let (sets, ways) = crate::peripheral::CPUID::cache_num_sets_ways(ccsidr);
        set_way_words(sets, ways)
    }

    /// The set/way words written to DCCSW to clean the entire D-cache, which `ccsidr`
    /// (CCSIDR of the level 1 data cache) describes: every way of every set, set by set.
    ///
    /// Cleaning causes everything in the D-cache to be written back to main memory,
    /// overwriting whatever is already there.
    pub fn clean_dcache(ccsidr: u32) -> (r: Vec<u32>)
        ensures
            ({
                let (sets, ways) = (1 + crate::bits::field(ccsidr, 13, 0x7FFF), 1 + crate::bits::field(ccsidr, 3, 0x3FF));
                &&& r@.len() == sets * ways
                &&& forall|set: int, way: int|
                    0 <= set < sets && 0 <= way < ways ==> #[trigger] r@[set_way_position(set, way, ways as int)]
                        == crate::peripheral::cbp::spec_set_way(set as u16, way as u16)
            }),
    {
        let (sets, ways) = crate::peripheral::CPUID::cache_num_sets_ways(ccsidr);
        set_way_words(sets, ways)
    }

    /// The set/way words written to DCCISW to clean and invalidate the entire D-cache, which
    /// `ccsidr` (CCSIDR of the level 1 data cache) describes: every way of every set, set by set.
    ///
    /// Everything in the D-cache is written back to main memory, and the entire D-cache is then
    /// marked invalid, causing future reads to first fetch from main memory.
    pub fn clean_invalidate_dcache(ccsidr: u32) -> (r: Vec<u32>)
        ensures
            ({
                let (sets, ways) = (1 + crate::bits::field(ccsidr, 13, 0x7FFF), 1 + crate::bits::field(ccsidr, 3, 0x3FF));
                &&& r@.len() == sets * ways
                &&& forall|set: int, way: int|
                    0 <= set < sets && 0 <= way < ways ==> #[trigger] r@[set_way_position(set, way, ways as int)]
                        == crate::peripheral::cbp::spec_set_way(set as u16, way as u16)
            }),
    {
        let (sets, ways) = crate::peripheral::CPUID::cache_num_sets_ways(ccsidr);
        set_way_words(sets, ways)
    }
}

/// The registers of the SCB block.
#[derive(Clone, Copy, Debug, PartialEq, Eq, Structural)]
pub enum Register {
    /// Interrupt Control and State
    Icsr,
    /// Vector Table Offset
    Vtor,
    /// Application Interrupt and Reset Control
    Aircr,
    /// System Control
    Scr,
    /// Configuration and Control
    Ccr,
    /// System Handler Priority (12 one-byte registers)
    Shpr,
    /// System Handler Control and State
    Shcsr,
    /// Configurable Fault Status
    Cfsr,
    /// HardFault Status
    Hfsr,
    /// Debug Fault Status
    Dfsr,
    /// MemManage Fault Address
    Mmfar,
    /// BusFault Address
    Bfar,
    /// Auxiliary Fault Status
    Afsr,
    /// Coprocessor Access Control
    Cpacr,
}

/// The SCB register block, slot by slot, reserved runs included.
pub open spec fn spec_layout() -> Seq<Slot> {
    seq![
        Slot { size: 4, count: 1 },
        Slot { size: 4, count: 1 },
        Slot { size: 4, count: 1 },
        Slot { size: 4, count: 1 },
        Slot { size: 4, count: 1 },
        Slot { size: 1, count: 12 },
        Slot { size: 4, count: 1 },
        Slot { size: 4, count: 1 },
        Slot { size: 4, count: 1 },
        Slot { size: 4, count: 1 },
        Slot { size: 4, count: 1 },
        Slot { size: 4, count: 1 },
        Slot { size: 4, count: 1 },
        Slot { size: 4, count: 18 },
        Slot { size: 4, count: 1 },
    ]
}

/// The slot of a register.
pub open spec fn spec_slot(register: Register) -> int {
    match register {
        Register::Icsr => 0,
        Register::Vtor => 1,
        Register::Aircr => 2,
        Register::Scr => 3,
        Register::Ccr => 4,
        Register::Shpr => 5,
        Register::Shcsr => 6,
        Register::Cfsr => 7,
        Register::Hfsr => 8,
        Register::Dfsr => 9,
        Register::Mmfar => 10,
        Register::Bfar => 11,
        Register::Afsr => 12,
        Register::Cpacr => 14,
    }
}

/// The address of register `index` of `register` (`index` is 0 for a single register).
pub fn address(register: Register, index: u32) -> (r: u32)
    requires
        index < spec_layout()[spec_slot(register)].count,
    ensures
        r == SCB::PTR + spec_offset(spec_layout(), spec_slot(register))
            + index * spec_layout()[spec_slot(register)].size,
{
    let slots = vec![
        Slot { size: 4, count: 1 },
        Slot { size: 4, count: 1 },
        Slot { size: 4, count: 1 },
        Slot { size: 4, count: 1 },
        Slot { size: 4, count: 1 },
        Slot { size: 1, count: 12 },
        Slot { size: 4, count: 1 },
        Slot { size: 4, count: 1 },
        Slot { size: 4, count: 1 },
        Slot { size: 4, count: 1 },
        Slot { size: 4, count: 1 },
        Slot { size: 4, count: 1 },
        Slot { size: 4, count: 1 },
        Slot { size: 4, count: 18 },
        Slot { size: 4, count: 1 },
    ];
    assert(slots@ =~= spec_layout());
    let k: usize = match register {
        Register::Icsr => 0,
        Register::Vtor => 1,
        Register::Aircr => 2,
        Register::Scr => 3,
        Register::Ccr => 4,
        Register::Shpr => 5,
        Register::Shcsr => 6,
        Register::Cfsr => 7,
        Register::Hfsr => 8,
        Register::Dfsr => 9,
        Register::Mmfar => 10,
        Register::Bfar => 11,
        Register::Afsr => 12,
        Register::Cpacr => 14,
    };
    register_address(SCB::PTR, slots.as_slice(), k, index, 0)
}

} // verus!
