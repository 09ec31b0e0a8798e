//! Cache and branch predictor maintenance operations

use vstd::prelude::*;
use crate::peripheral::layout::{Slot, spec_offset, register_address};
use crate::peripheral::CBP;

verus! {

/// The set/way word of the cache maintenance registers: `set` masked to be between 0 and 3, and
/// `way` between 0 and 511, with the set field at bit 5 and the way field at bit 30 (where a
/// 32-bit word keeps the two low bits of the way).
pub open spec fn spec_set_way(set: u16, way: u16) -> int {
    ((((way as u32) & 0x1FF) << 30u32) | (((set as u32) & 0x3) << 5u32)) as int
}

/// The fields of a set/way word: the set field (bits 5 and up, below the way field) holds the set
/// masked to 0..=3, and the way field (bits 30 and 31) the low bits of the way masked to
/// 0..=511.
pub proof fn lemma_set_way_fields(set: u16, way: u16)
    ensures
        ((spec_set_way(set, way) as u32) >> 5u32) & 0x1FF == set % 4,
        (spec_set_way(set, way) as u32) >> 30u32 == (way % 512) % 4,
        (spec_set_way(set, way) as u32) & 0x1F == 0,
{
    let s = set as u32;
    let w = way as u32;
    assert({
        let r = ((w & 0x1FF) << 30u32) | ((s & 0x3) << 5u32);
        &&& (r >> 5u32) & 0x1FF == s % 4
        &&& r >> 30u32 == (w % 512) % 4
        &&& r & 0x1F == 0
    }) by (bit_vector)
        requires
            s < 0x10000,
            w < 0x10000,
    ;
}

fn set_way(set: u16, way: u16) -> (r: u32)
    ensures
        r == spec_set_way(set, way),
{
    let set32 = set as u32;
    let way32 = way as u32;
    ((way32 & 0x1FF) << 30u32) | ((set32 & 0x3) << 5u32)
}

impl CBP {
    /// The word written to DCISW to invalidate the D-cache line at `set` and `way`.
    ///
    /// `set` is masked to be between 0 and 3, and `way` between 0 and 511 (see
    /// `lemma_set_way_fields`).
    pub fn dcisw(set: u16, way: u16) -> (r: u32)
        ensures
            r == spec_set_way(set, way),
    {
        set_way(set, way)
    }

    /// The word written to DCCSW to clean the D-cache line at `set` and `way`.
    ///
    /// `set` is masked to be between 0 and 3, and `way` between 0 and 511 (see
    /// `lemma_set_way_fields`).
    pub fn dccsw(set: u16, way: u16) -> (r: u32)
        ensures
            r == spec_set_way(set, way),
    {
        set_way(set, way)
    }

    /// The word written to DCCISW to clean and invalidate the D-cache line at `set` and `way`.
    ///
    /// `set` is masked to be between 0 and 3, and `way` between 0 and 511 (see
    /// `lemma_set_way_fields`).
    pub fn dccisw(set: u16, way: u16) -> (r: u32)
        ensures
            r == spec_set_way(set, way),
    {
        set_way(set, way)
    }
}

/// The registers of the CBP block.
#[derive(Clone, Copy, Debug, PartialEq, Eq, Structural)]
pub enum Register {
    /// I-cache invalidate all to PoU
    Iciallu,
    /// I-cache invalidate by MVA to PoU
    Icimvau,
    /// D-cache invalidate by MVA to PoC
    Dcimvac,
    /// D-cache invalidate by set-way
    Dcisw,
    /// D-cache clean by MVA to PoU
    Dccmvau,
    /// D-cache clean by MVA to PoC
    Dccmvac,
    /// D-cache clean by set-way
    Dccsw,
    /// D-cache clean and invalidate by MVA to PoC
    Dccimvac,
    /// D-cache clean and invalidate by set-way
    Dccisw,
    /// Branch predictor invalidate all
    Bpiall,
}

/// The CBP register block, slot by slot, reserved runs included.
pub open spec fn spec_layout() -> Seq<Slot> {
    seq![
        Slot { size: 4, count: 1 },
        Slot { size: 4, count: 1 },
        Slot { size: 4, count: 1 },
        Slot { size: 4, count: 1 },
        Slot { size: 4, count: 1 },
        Slot { size: 4, count: 1 },
        Slot { size: 4, count: 1 },
        Slot { size: 4, count: 1 },
        Slot { size: 4, count: 1 },
        Slot { size: 4, count: 1 },
        Slot { size: 4, count: 1 },
    ]
}

/// The slot of a register.
pub open spec fn spec_slot(register: Register) -> int {
    match register {
        Register::Iciallu => 0,
        Register::Icimvau => 2,
        Register::Dcimvac => 3,
        Register::Dcisw => 4,
        Register::Dccmvau => 5,
        Register::Dccmvac => 6,
        Register::Dccsw => 7,
        Register::Dccimvac => 8,
        Register::Dccisw => 9,
        Register::Bpiall => 10,
    }
}

/// The address of register `index` of `register` (`index` is 0 for a single register).
pub fn address(register: Register, index: u32) -> (r: u32)
    requires
        index < spec_layout()[spec_slot(register)].count,
    ensures
        r == CBP::PTR + spec_offset(spec_layout(), spec_slot(register))
            + index * spec_layout()[spec_slot(register)].size,
{
    let slots = vec![
        Slot { size: 4, count: 1 },
        Slot { size: 4, count: 1 },
        Slot { size: 4, count: 1 },
        Slot { size: 4, count: 1 },
        Slot { size: 4, count: 1 },
        Slot { size: 4, count: 1 },
        Slot { size: 4, count: 1 },
        Slot { size: 4, count: 1 },
        Slot { size: 4, count: 1 },
        Slot { size: 4, count: 1 },
        Slot { size: 4, count: 1 },
    ];
    assert(slots@ =~= spec_layout());
    let k: usize = match register {
        Register::Iciallu => 0,
        Register::Icimvau => 2,
        Register::Dcimvac => 3,
        Register::Dcisw => 4,
        Register::Dccmvau => 5,
        Register::Dccmvac => 6,
        Register::Dccsw => 7,
        Register::Dccimvac => 8,
        Register::Dccisw => 9,
        Register::Bpiall => 10,
    };
    register_address(CBP::PTR, slots.as_slice(), k, index, 0)
}

} // verus!
