//! Nested Vector Interrupt Controller

use vstd::prelude::*;
use crate::peripheral::layout::{Slot, spec_offset, register_address};
use crate::bits::{field, with_field, bit_is_set};
use crate::interrupt::InterruptNumber;
use crate::peripheral::NVIC;

verus! {

/// The word of ISER, ICER, ISPR, ICPR or IABR that holds the bit of interrupt `nr`.
pub open spec fn spec_register_index(nr: u16) -> int {
    nr as int / 32
}

/// The bit of interrupt `nr` within its word of ISER, ICER, ISPR, ICPR or IABR.
pub open spec fn spec_register_bit(nr: u16) -> u32 {
    (nr % 32) as u32
}

/// The word of IPR that holds the priority byte of interrupt `nr`.
pub open spec fn spec_ipr_index(nr: u16) -> int {
    nr as int / 4
}

/// The position of the priority byte of interrupt `nr` within its IPR word.
pub open spec fn spec_ipr_shift(nr: u16) -> u32 {
    ((nr % 4) * 8) as u32
}

/// The priority of interrupt `nr` held in the IPR words `ipr`.
pub open spec fn spec_get_priority(ipr: Seq<u32>, nr: u16) -> u32 {
    field(ipr[spec_ipr_index(nr)], spec_ipr_shift(nr), 0xFF)
}

/// The IPR words `ipr` with the priority of interrupt `nr` set to `prio`.
pub open spec fn spec_set_priority(ipr: Seq<u32>, nr: u16, prio: u8) -> Seq<u32> {
    ipr.update(
        spec_ipr_index(nr),
        with_field(ipr[spec_ipr_index(nr)], spec_ipr_shift(nr), 0xFF, prio as u32),
    )
}

/// The write of `1 << bit` to the word of interrupt `nr`: the word index and the value.
pub open spec fn spec_bit_write(nr: u16) -> (usize, u32) {
    (spec_register_index(nr) as usize, 1u32 << spec_register_bit(nr))
}

/// Setting the priority of an interrupt makes it read back, and leaves the priority of every
/// other interrupt as it was.
pub proof fn lemma_priority_read_back(ipr: Seq<u32>, nr: u16, other: u16, prio: u8)
    requires
        ipr.len() == 124,
        nr < 496,
        other < 496,
    ensures
        spec_get_priority(spec_set_priority(ipr, nr, prio), nr) == prio,
        other != nr ==> spec_get_priority(spec_set_priority(ipr, nr, prio), other)
            == spec_get_priority(ipr, other),
{
    let v = ipr[spec_ipr_index(nr)];
    let s = spec_ipr_shift(nr);
    let p = prio as u32;
    assert(((((v & !(0xFFu32 << s)) | ((p & 0xFF) << s)) >> s) & 0xFF) == p) by (bit_vector)
        requires
            s < 32,
            s % 8 == 0,
            p < 256,
    ;
    if other != nr && spec_ipr_index(other) == spec_ipr_index(nr) {
        let t = spec_ipr_shift(other);
        assert(((((v & !(0xFFu32 << s)) | ((p & 0xFF) << s)) >> t) & 0xFF) == (v >> t) & 0xFF)
            by (bit_vector)
            requires
                s < 32,
                t < 32,
                s % 8 == 0,
                t % 8 == 0,
                s != t,
        ;
    }
}

/// The word and the bit that `mask`, `unmask`, `pend` and `unpend` write for an interrupt are
/// those that `is_enabled`, `is_pending` and `is_active` read for it, and for no other
/// interrupt: setting them in a word sets the interrupt's bit, clearing them clears it, and the
/// bits of the other interrupts stay as they were.
pub proof fn lemma_bit_write_read_back(words: Seq<u32>, nr: u16, other: u16)
    requires
        words.len() == 16,
        nr < 512,
        other < 512,
    ensures
        ({
            let (index, bit) = spec_bit_write(nr);
            let set = words.update(index as int, words[index as int] | bit);
            let clear = words.update(index as int, words[index as int] & !bit);
            &&& index as int == spec_register_index(nr)
            &&& bit_is_set(set[spec_register_index(nr)], spec_register_bit(nr))
            &&& !bit_is_set(clear[spec_register_index(nr)], spec_register_bit(nr))
            &&& other != nr ==> bit_is_set(set[spec_register_index(other)], spec_register_bit(other))
                == bit_is_set(words[spec_register_index(other)], spec_register_bit(other))
            &&& other != nr ==> bit_is_set(clear[spec_register_index(other)], spec_register_bit(other))
                == bit_is_set(words[spec_register_index(other)], spec_register_bit(other))
        }),
{
    let index = spec_register_index(nr);
    let v = words[index];
    crate::bits::lemma_bit_update(v, spec_register_bit(nr), spec_register_bit(nr));
    if other != nr && spec_register_index(other) == index {
        crate::bits::lemma_bit_update(v, spec_register_bit(nr), spec_register_bit(other));
    }
}

/// The priority of interrupt `n` is byte `n % 4` (bits `8 * (n % 4)` and up) of IPR word `n / 4`:
/// that is the byte `get_priority` reads and `set_priority` writes, leaving the other three bytes
/// of the word and every other word as they were. And the enable, pending and active bit of
/// interrupt `n` is bit `n % 32` of word `n / 32`.
pub proof fn lemma_interrupt_positions(ipr: Seq<u32>, n: u16, prio: u8, j: int)
    requires
        ipr.len() == 124,
        n < 496,
        0 <= j < 124,
    ensures
        spec_get_priority(ipr, n) == (ipr[n as int / 4] >> (((n % 4) * 8) as u32)) & 0xFF,
        (spec_set_priority(ipr, n, prio)[n as int / 4] >> (((n % 4) * 8) as u32)) & 0xFF == prio,
        spec_set_priority(ipr, n, prio).len() == 124,
        j != n as int / 4 ==> spec_set_priority(ipr, n, prio)[j] == ipr[j],
        forall|b: u32| #![trigger (spec_set_priority(ipr, n, prio)[n as int / 4] >> b)]
            b < 32 && b % 8 == 0 && b != ((n % 4) * 8) as u32
            ==> (spec_set_priority(ipr, n, prio)[n as int / 4] >> b) & 0xFF == (ipr[n as int / 4] >> b) & 0xFF,
        spec_bit_write(n) == ((n / 32) as usize, 1u32 << ((n % 32) as u32)),
{
    let v = ipr[n as int / 4];
    let s = ((n % 4) * 8) as u32;
    let p = prio as u32;
    assert(((((v & !(0xFFu32 << s)) | ((p & 0xFF) << s)) >> s) & 0xFF) == p) by (bit_vector)
        requires
            s < 32,
            s % 8 == 0,
            p < 256,
    ;
    assert forall|b: u32| b < 32 && b % 8 == 0 && b != s
        implies ((((v & !(0xFFu32 << s)) | ((p & 0xFF) << s)) >> b) & 0xFF) == (v >> b) & 0xFF by {
        assert(((((v & !(0xFFu32 << s)) | ((p & 0xFF) << s)) >> b) & 0xFF) == (v >> b) & 0xFF)
            by (bit_vector)
            requires
                s < 32,
                b < 32,
                s % 8 == 0,
                b % 8 == 0,
                s != b,
        ;
    }
}

impl NVIC {
    /// The value written to STIR to request an IRQ in software
    ///
    /// Writing a value to the INTID field is the same as manually pending an interrupt by setting
    /// the corresponding interrupt bit in an Interrupt Set Pending Register. This is similar to
    /// `pend`.
    pub fn request<I>(interrupt: I) -> (r: u32)
        where
            I: InterruptNumber,
        ensures
            r == interrupt.spec_number(),
    {
        let nr = interrupt.number();
        nr as u32
    }

    /// The ICER write that disables `interrupt`: the word index and the value
    pub fn mask<I>(interrupt: I) -> (r: (usize, u32))
        where
            I: InterruptNumber,
        requires
            interrupt.spec_number() < 512,
        ensures
            r == spec_bit_write(interrupt.spec_number()),
    {
        let nr = interrupt.number();
        ((nr / 32) as usize, 1u32 << ((nr % 32) as u32))
    }

    /// The ISER write that enables `interrupt`: the word index and the value
    ///
    /// Enabling an interrupt can break mask-based critical sections
    pub fn unmask<I>(interrupt: I) -> (r: (usize, u32))
        where
            I: InterruptNumber,
        requires
            interrupt.spec_number() < 512,
        ensures
            r == spec_bit_write(interrupt.spec_number()),
    {
        let nr = interrupt.number();
        ((nr / 32) as usize, 1u32 << ((nr % 32) as u32))
    }

    /// The ISPR write that forces `interrupt` into pending state: the word index and the value
    pub fn pend<I>(interrupt: I) -> (r: (usize, u32))
        where
            I: InterruptNumber,
        requires
            interrupt.spec_number() < 512,
        ensures
            r == spec_bit_write(interrupt.spec_number()),
    {
        let nr = interrupt.number();
        ((nr / 32) as usize, 1u32 << ((nr % 32) as u32))
    }

    /// The ICPR write that clears `interrupt`'s pending state: the word index and the value
    pub fn unpend<I>(interrupt: I) -> (r: (usize, u32))
        where
            I: InterruptNumber,
        requires
            interrupt.spec_number() < 512,
        ensures
            r == spec_bit_write(interrupt.spec_number()),
    {
        let nr = interrupt.number();
        ((nr / 32) as usize, 1u32 << ((nr % 32) as u32))
    }

    fn bit_of<I>(words: &[u32], interrupt: I) -> (r: bool)
        where
            I: InterruptNumber,
        requires
            words@.len() == 16,
            interrupt.spec_number() < 512,
        ensures
            r == bit_is_set(
                words@[spec_register_index(interrupt.spec_number())],
                spec_register_bit(interrupt.spec_number()),
            ),
    {
        let nr = interrupt.number();
        let mask = 1u32 << ((nr % 32) as u32);
        proof {
            crate::bits::lemma_single_bit(words@[spec_register_index(nr)], (nr % 32) as u32);
        }
        (words[(nr / 32) as usize] & mask) == mask
    }

    /// Is `interrupt` active or pre-empted and stacked, according to the IABR words `iabr`
    pub fn is_active<I>(iabr: &[u32], interrupt: I) -> (r: bool)
        where
            I: InterruptNumber,
        requires
            iabr@.len() == 16,
            interrupt.spec_number() < 512,
        ensures
            r == bit_is_set(
                iabr@[spec_register_index(interrupt.spec_number())],
                spec_register_bit(interrupt.spec_number()),
            ),
    {
        Self::bit_of(iabr, interrupt)
    }

    /// Checks if `interrupt` is enabled, according to the ISER words `iser`
    pub fn is_enabled<I>(iser: &[u32], interrupt: I) -> (r: bool)
        where
            I: InterruptNumber,
        requires
            iser@.len() == 16,
            interrupt.spec_number() < 512,
        ensures
            r == bit_is_set(
                iser@[spec_register_index(interrupt.spec_number())],
                spec_register_bit(interrupt.spec_number()),
            ),
    {
        Self::bit_of(iser, interrupt)
    }

    /// Checks if `interrupt` is pending, according to the ISPR words `ispr`
    pub fn is_pending<I>(ispr: &[u32], interrupt: I) -> (r: bool)
        where
            I: InterruptNumber,
        requires
            ispr@.len() == 16,
            interrupt.spec_number() < 512,
        ensures
            r == bit_is_set(
                ispr@[spec_register_index(interrupt.spec_number())],
                spec_register_bit(interrupt.spec_number()),
            ),
    {
        Self::bit_of(ispr, interrupt)
    }

    /// Returns the NVIC priority of `interrupt` from the IPR words `ipr`
    ///
    /// *NOTE* NVIC encodes priority in the highest bits of a byte so values like `1` and `2` map
    /// to the same priority. Also for NVIC priorities, a lower value (e.g. `16`) has higher
    /// priority (urgency) than a larger value (e.g. `32`).
    pub fn get_priority<I>(ipr: &[u32], interrupt: I) -> (r: u8)
        where
            I: InterruptNumber,
        requires
            ipr@.len() == 124,
            interrupt.spec_number() < 496,
        ensures
            r == spec_get_priority(ipr@, interrupt.spec_number()),
    {
        let ipr_n = ipr[Self::ipr_index(interrupt)];
        let shift = Self::ipr_shift(interrupt);
        let prio = (ipr_n >> shift) & 0x0000_00ff;
        proof {
            crate::bits::lemma_field_bound(ipr_n, shift, 0xFF);
        }
        prio as u8
    }

    /// Sets the "priority" of `interrupt` to `prio` among the IPR words `ipr`
    ///
    /// *NOTE* See [`get_priority`](struct.NVIC.html#method.get_priority) method for an explanation
    /// of how NVIC priorities work.
    ///
    /// Changing priority levels can break priority-based critical sections (see
    /// [`register::basepri`](../register/basepri/index.html)) and compromise memory safety.
    pub fn set_priority<I>(ipr: &mut [u32], interrupt: I, prio: u8)
        where
            I: InterruptNumber,
        requires
            old(ipr)@.len() == 124,
            interrupt.spec_number() < 496,
        ensures
            final(ipr)@ == spec_set_priority(old(ipr)@, interrupt.spec_number(), prio),
    {
        let index = Self::ipr_index(interrupt);
        let shift = Self::ipr_shift(interrupt);
        let value = ipr[index];
        let mask = 0x0000_00ffu32 << shift;
        let prio32 = (prio as u32) << shift;
        proof {
            vstd::arithmetic::power2::lemma2_to64();
            crate::bits::lemma_and_low_mask(prio as u32, 8, 0xFF);
        }
        proof {
            assert((prio as u32) & 0xFF == prio as u32);
            assert((value & !mask) | prio32 == with_field(value, shift, 0xFF, prio as u32));
        }
        ipr[index] = (value & !mask) | prio32;
    }

    /// The IPR word that holds the priority of `interrupt`
    pub fn ipr_index<I>(interrupt: I) -> (r: usize)
        where
            I: InterruptNumber,
        ensures
            r == spec_ipr_index(interrupt.spec_number()),
            r == interrupt.spec_number() / 4,
    {
        (interrupt.number() / 4) as usize
    }

    /// The position of the priority of `interrupt` within its IPR word
    pub fn ipr_shift<I>(interrupt: I) -> (r: u32)
        where
            I: InterruptNumber,
        ensures
            r == spec_ipr_shift(interrupt.spec_number()),
            r == (interrupt.spec_number() % 4) * 8,
            r < 32,
    {
        ((interrupt.number() % 4) * 8) as u32
    }
}

/// The registers of the NVIC block.
#[derive(Clone, Copy, Debug, PartialEq, Eq, Structural)]
pub enum Register {
    /// Interrupt Set-Enable (16 registers)
    Iser,
    /// Interrupt Clear-Enable (16 registers)
    Icer,
    /// Interrupt Set-Pending (16 registers)
    Ispr,
    /// Interrupt Clear-Pending (16 registers)
    Icpr,
    /// Interrupt Active Bit (16 registers)
    Iabr,
    /// Interrupt Priority (124 registers of four priorities each)
    Ipr,
    /// Software Trigger Interrupt
    Stir,
}

/// The NVIC register block, slot by slot, reserved runs included.
pub open spec fn spec_layout() -> Seq<Slot> {
    seq![
        Slot { size: 4, count: 16 },
        Slot { size: 4, count: 16 },
        Slot { size: 4, count: 16 },
        Slot { size: 4, count: 16 },
        Slot { size: 4, count: 16 },
        Slot { size: 4, count: 16 },
        Slot { size: 4, count: 16 },
        Slot { size: 4, count: 16 },
        Slot { size: 4, count: 16 },
        Slot { size: 4, count: 48 },
        Slot { size: 4, count: 124 },
        Slot { size: 4, count: 580 },
        Slot { size: 4, count: 1 },
    ]
}

/// The slot of a register.
pub open spec fn spec_slot(register: Register) -> int {
    match register {
        Register::Iser => 0,
        Register::Icer => 2,
        Register::Ispr => 4,
        Register::Icpr => 6,
        Register::Iabr => 8,
        Register::Ipr => 10,
        Register::Stir => 12,
    }
}

/// The address of register `index` of `register` (`index` is 0 for a single register).
pub fn address(register: Register, index: u32) -> (r: u32)
    requires
        index < spec_layout()[spec_slot(register)].count,
    ensures
        r == NVIC::PTR + spec_offset(spec_layout(), spec_slot(register))
            + index * spec_layout()[spec_slot(register)].size,
{
    let slots = vec![
        Slot { size: 4, count: 16 },
        Slot { size: 4, count: 16 },
        Slot { size: 4, count: 16 },
        Slot { size: 4, count: 16 },
        Slot { size: 4, count: 16 },
        Slot { size: 4, count: 16 },
        Slot { size: 4, count: 16 },
        Slot { size: 4, count: 16 },
        Slot { size: 4, count: 16 },
        Slot { size: 4, count: 48 },
        Slot { size: 4, count: 124 },
        Slot { size: 4, count: 580 },
        Slot { size: 4, count: 1 },
    ];
    assert(slots@ =~= spec_layout());
    let k: usize = match register {
        Register::Iser => 0,
        Register::Icer => 2,
        Register::Ispr => 4,
        Register::Icpr => 6,
        Register::Iabr => 8,
        Register::Ipr => 10,
        Register::Stir => 12,
    };
    register_address(NVIC::PTR, slots.as_slice(), k, index, 0)
}

} // verus!
