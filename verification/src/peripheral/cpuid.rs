//! CPUID

use vstd::prelude::*;
use crate::bits::field;
use crate::peripheral::CPUID;
use crate::peripheral::layout::{Slot, spec_offset, layout_wf, register_address};

verus! {

/// Type of cache to select on CSSELR writes.
#[derive(Copy, Clone, Debug, PartialEq, Eq, Structural)]
pub enum CsselrCacheType {
    /// Select DCache or unified cache
    DataOrUnified,
    /// Select ICache
    Instruction,
}

impl CsselrCacheType {
    /// The InD bit of CSSELR that selects this cache type.
    pub open spec fn ind(self) -> u32 {
        match self {
            CsselrCacheType::DataOrUnified => 0,
            CsselrCacheType::Instruction => 1,
        }
    }
}

impl CPUID {
    /// The CSSELR value that selects the cache of type `ind` at `level` (the cache level
    /// minus 1, e.g. 0 for L1, 1 for L2).
    ///
    /// `level` is masked to be between 0 and 7.
    pub fn select_cache(level: u8, ind: CsselrCacheType) -> (r: u32)
        ensures
            r == (level % 8) * 2 + ind.ind(),
    {
        let ind_bit: u32 = match ind {
            CsselrCacheType::DataOrUnified => 0,
            CsselrCacheType::Instruction => 1,
        };
        let level32 = level as u32;
        proof {
            assert(((level32 << 1u32) & 0xE) | (ind_bit & 1) == (level32 % 8) * 2 + ind_bit)
                by (bit_vector)
                requires
                    level32 < 256,
                    ind_bit < 2,
            ;
        }
        ((level32 << 1u32) & 0xE) | (ind_bit & 1)
    }

    /// Returns the number of sets and ways of the cache that `ccsidr` (CCSIDR, read after the
    /// cache was selected) describes.
    pub fn cache_num_sets_ways(ccsidr: u32) -> (r: (u16, u16))
        ensures
            r.0 == 1 + field(ccsidr, 13, 0x7FFF),
            r.1 == 1 + field(ccsidr, 3, 0x3FF),
    {
        let sets = (ccsidr & (0x7FFFu32 << 13u32)) >> 13u32;
        let ways = (ccsidr & (0x3FFu32 << 3u32)) >> 3u32;
        proof {
            crate::bits::lemma_fits_at_facts();
            crate::bits::lemma_mask_shift(ccsidr, 13, 0x7FFF);
            crate::bits::lemma_mask_shift(ccsidr, 3, 0x3FF);
            crate::bits::lemma_field_bound(ccsidr, 13, 0x7FFF);
            crate::bits::lemma_field_bound(ccsidr, 3, 0x3FF);
        }
        ((1 + sets) as u16, (1 + ways) as u16)
    }

    /// Log2 of the number of words in the smallest cache line of the data and unified caches,
    /// from CTR.
    pub fn cache_dminline(ctr: u32) -> (r: u32)
        ensures
            r == field(ctr, 16, 0xF),
            r < 16,
    {
        let r = (ctr >> 16u32) & 0xF;
        proof {
            crate::bits::lemma_field_bound(ctr, 16, 0xF);
        }
        r
    }
}

/// The registers of the CPUID block.
#[derive(Clone, Copy, Debug, PartialEq, Eq, Structural)]
pub enum Register {
    /// CPUID base
    Base,
    /// Processor Feature (two registers)
    Pfr,
    /// Debug Feature
    Dfr,
    /// Auxiliary Feature
    Afr,
    /// Memory Model Feature (four registers)
    Mmfr,
    /// Instruction Set Attribute (five registers)
    Isar,
    /// Cache Level ID
    Clidr,
    /// Cache Type
    Ctr,
    /// Cache Size ID
    Ccsidr,
    /// Cache Size Selection
    Csselr,
}

/// The CPUID register block, slot by slot.
pub open spec fn spec_layout() -> Seq<Slot> {
    seq![
        Slot { size: 4, count: 1 },   // base
        Slot { size: 4, count: 15 },  // reserved
        Slot { size: 4, count: 2 },   // pfr
        Slot { size: 4, count: 1 },   // dfr
        Slot { size: 4, count: 1 },   // afr
        Slot { size: 4, count: 4 },   // mmfr
        Slot { size: 4, count: 5 },   // isar
        Slot { size: 4, count: 1 },   // reserved
        Slot { size: 4, count: 1 },   // clidr
        Slot { size: 4, count: 1 },   // ctr
        Slot { size: 4, count: 1 },   // ccsidr
        Slot { size: 4, count: 1 },   // csselr
    ]
}

/// The slot of a register.
pub open spec fn spec_slot(register: Register) -> int {
    match register {
        Register::Base => 0,
        Register::Pfr => 2,
        Register::Dfr => 3,
        Register::Afr => 4,
        Register::Mmfr => 5,
        Register::Isar => 6,
        Register::Clidr => 8,
        Register::Ctr => 9,
        Register::Ccsidr => 10,
        Register::Csselr => 11,
    }
}

/// The address of register `index` of `register` (0 for a single register).
pub fn address(register: Register, index: u32) -> (r: u32)
    requires
        index < spec_layout()[spec_slot(register)].count,
    ensures
        r == CPUID::PTR + spec_offset(spec_layout(), spec_slot(register))
            + index * spec_layout()[spec_slot(register)].size,
{
    let slots = vec![
        Slot { size: 4, count: 1 },
        Slot { size: 4, count: 15 },
        Slot { size: 4, count: 2 },
        Slot { size: 4, count: 1 },
        Slot { size: 4, count: 1 },
        Slot { size: 4, count: 4 },
        Slot { size: 4, count: 5 },
        Slot { size: 4, count: 1 },
        Slot { size: 4, count: 1 },
        Slot { size: 4, count: 1 },
        Slot { size: 4, count: 1 },
        Slot { size: 4, count: 1 },
    ];
    assert(slots@ =~= spec_layout());
    let k: usize = match register {
        Register::Base => 0,
        Register::Pfr => 2,
        Register::Dfr => 3,
        Register::Afr => 4,
        Register::Mmfr => 5,
        Register::Isar => 6,
        Register::Clidr => 8,
        Register::Ctr => 9,
        Register::Ccsidr => 10,
        Register::Csselr => 11,
    };
    register_address(CPUID::PTR, slots.as_slice(), k, index, 0)
}

} // verus!
