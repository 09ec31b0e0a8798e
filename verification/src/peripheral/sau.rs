//! Security Attribution Unit
//!
//! *NOTE* Available only on Armv8-M and Armv8.1-M.
//!
//! For reference please check the section B8.3 of the Armv8-M Architecture Reference Manual.

use vstd::prelude::*;
use crate::peripheral::layout::{Slot, spec_offset, register_address};
use crate::bits::{bit_is_set, field};
use crate::peripheral::SAU;

verus! {

/// Possible attribute of a SAU region.
#[derive(Debug, Clone, Copy, PartialEq, Eq, Structural)]
pub enum SauRegionAttribute {
    /// SAU region is Secure
    Secure,
    /// SAU region is Non-Secure Callable
    NonSecureCallable,
    /// SAU region is Non-Secure
    NonSecure,
}

/// Description of a SAU region.
#[derive(Debug, Clone, Copy, PartialEq, Eq, Structural)]
pub struct SauRegion {
    /// First address of the region, its 5 least significant bits must be set to zero.
    pub base_address: u32,
    /// Last address of the region, its 5 least significant bits must be set to one.
    pub limit_address: u32,
    /// Attribute of the region.
    pub attribute: SauRegionAttribute,
}

/// Possible error values returned by the SAU methods.
#[derive(Debug, Clone, Copy, PartialEq, Eq, Structural)]
pub enum SauError {
    /// The region number parameter to set or get a region must be between 0 and
    /// region_numbers() - 1.
    RegionNumberTooBig,
    /// Bits 0 to 4 of the base address of a SAU region must be set to zero.
    WrongBaseAddress,
    /// Bits 0 to 4 of the limit address of a SAU region must be set to one.
    WrongLimitAddress,
}

/// The ENABLE and NSC bits of RLAR for an attribute.
pub open spec fn attribute_bits(attribute: SauRegionAttribute) -> (bool, bool) {
    match attribute {
        SauRegionAttribute::Secure => (false, false),
        SauRegionAttribute::NonSecureCallable => (true, true),
        SauRegionAttribute::NonSecure => (true, false),
    }
}

/// The attribute that the ENABLE and NSC bits of RLAR give.
pub open spec fn spec_attribute(enable: bool, nsc: bool) -> SauRegionAttribute {
    if !enable {
        SauRegionAttribute::Secure
    } else if !nsc {
        SauRegionAttribute::NonSecure
    } else {
        SauRegionAttribute::NonSecureCallable
    }
}

/// What `set_region` writes for a region: RNR, RBAR and RLAR, or the error, checked in order:
/// the region number, the base address, the limit address.
pub open spec fn spec_set_region(region_numbers: u8, region_number: u8, region: SauRegion) -> Result<(u32, u32, u32), SauError> {
    if region_number >= region_numbers {
        Err(SauError::RegionNumberTooBig)
    } else if region.base_address % 32 != 0 {
        Err(SauError::WrongBaseAddress)
    } else if region.limit_address % 32 != 31 {
        Err(SauError::WrongLimitAddress)
    } else {
        let (enable, nsc) = attribute_bits(region.attribute);
        Ok((
            region_number as u32,
            region.base_address,
            (region.limit_address - 31 + (if nsc { 2int } else { 0 }) + (if enable { 1int } else { 0 })) as u32,
        ))
    }
}

/// The region that `get_region` reads from RBAR and RLAR, or the error for a region number
/// that is too big.
pub open spec fn spec_get_region(region_numbers: u8, region_number: u8, rbar: u32, rlar: u32) -> Result<SauRegion, SauError> {
    if region_number >= region_numbers {
        Err(SauError::RegionNumberTooBig)
    } else {
        Ok(SauRegion {
            base_address: (rbar - rbar % 32) as u32,
            limit_address: (rlar - rlar % 32 + 31) as u32,
            attribute: spec_attribute(bit_is_set(rlar, 0), bit_is_set(rlar, 1)),
        })
    }
}

/// The RLAR encodings of the attributes: ENABLE (bit 0) and NSC (bit 1) both clear for a
/// disabled region, which leaves its addresses Secure; ENABLE set for a Non-secure region, and
/// ENABLE and NSC set for a Non-secure callable one. `set_region` writes the limit address's top
/// 27 bits above them and the base address as it is to RBAR; `get_region` reads them so.
pub proof fn lemma_region_encodings(region_numbers: u8, region_number: u8, region: SauRegion, rbar: u32, rlar: u32)
    ensures
        spec_set_region(region_numbers, region_number, region) matches Ok((rnr, b, l)) ==> {
            &&& rnr == region_number as u32
            &&& b == region.base_address
            &&& l / 32 == region.limit_address / 32
            &&& l % 32 == (match region.attribute {
                SauRegionAttribute::Secure => 0u32,
                SauRegionAttribute::NonSecure => 1u32,
                SauRegionAttribute::NonSecureCallable => 3u32,
            })
        },
        spec_get_region(region_numbers, region_number, rbar, rlar) matches Ok(r) ==> {
            &&& r.attribute == (if rlar & 1 == 0 {
                SauRegionAttribute::Secure
            } else if rlar & 2 == 0 {
                SauRegionAttribute::NonSecure
            } else {
                SauRegionAttribute::NonSecureCallable
            })
            &&& r.base_address == rbar / 32 * 32
            &&& r.limit_address == rlar / 32 * 32 + 31
        },
{
    assert((rlar & (1u32 << 0u32) != 0) == (rlar & 1 != 0) && (rlar & (1u32 << 1u32) != 0) == (rlar & 2 != 0))
        by (bit_vector);
    if let Ok((_, _, l)) = spec_set_region(region_numbers, region_number, region) {
        let limit = region.limit_address as int;
        assert(limit % 32 == 31);
        vstd::arithmetic::div_mod::lemma_fundamental_div_mod(limit, 32);
    }
}

/// Reading a region back after setting it gives the region that was set.
pub proof fn lemma_region_read_back(region_numbers: u8, region_number: u8, region: SauRegion)
    requires
        spec_set_region(region_numbers, region_number, region) is Ok,
    ensures
        ({
            let (_, rbar, rlar) = spec_set_region(region_numbers, region_number, region)->Ok_0;
            spec_get_region(region_numbers, region_number, rbar, rlar) == Ok::<SauRegion, SauError>(region)
        }),
{
    let (enable, nsc) = attribute_bits(region.attribute);
    let limit = region.limit_address;
    let e: u32 = if enable { 1 } else { 0 };
    let n: u32 = if nsc { 2 } else { 0 };
    let rlar = (limit - 31 + n + e) as u32;
    assert(rlar % 32 == 31 - 31 + n + e);
    crate::bits::lemma_fits_at_facts();
    assert((rlar & (1u32 << 0u32) != 0) == (e == 1) && (rlar & (1u32 << 1u32) != 0) == (n == 2))
        by (bit_vector)
        requires
            rlar == limit - 31 + n + e,
            limit % 32 == 31,
            e == 0 || e == 1,
            n == 0 || n == 2,
    ;
}

impl SAU {
    /// Get the number of implemented SAU regions, from `type_` (TYPE).
    pub fn region_numbers(type_: u32) -> (r: u8)
        ensures
            r == field(type_, 0, 0xFF),
    {
        proof {
            crate::bits::lemma_field_bound(type_, 0, 0xFF);
        }
        ((type_ >> 0u32) & 0xFF) as u8
    }

    /// The CTRL value that enables the SAU.
    pub fn enable(ctrl: u32) -> (r: u32)
        ensures
            r == ctrl | (1u32 << 0u32),
    {
        ctrl | (1u32 << 0u32)
    }

    /// The RNR, RBAR and RLAR values that set a SAU region to a region number, when
    /// `region_numbers` regions are implemented.
    ///
    /// SAU regions must be 32 bytes aligned and their sizes must be a multiple of 32 bytes. It
    /// means that the 5 least significant bits of the base address of a SAU region must be set to
    /// zero and the 5 least significant bits of the limit address must be set to one.
    /// The region number must be valid.
    /// The three registers are to be written under a critical section to prevent having
    /// inconsistent results.
    pub fn set_region(region_numbers: u8, region_number: u8, region: SauRegion) -> (r: Result<(u32, u32, u32), SauError>)
        ensures
            r == spec_set_region(region_numbers, region_number, region),
    {
        let base_address = region.base_address;
        let limit_address = region.limit_address;
        let attribute = region.attribute;

        if region_number >= region_numbers {
            Err(SauError::RegionNumberTooBig)
        } else if base_address & 0x1F != 0 {
            proof {
                vstd::arithmetic::power2::lemma2_to64();
                crate::bits::lemma_and_low_mask(base_address, 5, 0x1F);
            }
            Err(SauError::WrongBaseAddress)
        } else if limit_address & 0x1F != 0x1F {
            proof {
                vstd::arithmetic::power2::lemma2_to64();
                crate::bits::lemma_and_low_mask(base_address, 5, 0x1F);
                crate::bits::lemma_and_low_mask(limit_address, 5, 0x1F);
            }
            Err(SauError::WrongLimitAddress)
        } else {
            proof {
                vstd::arithmetic::power2::lemma2_to64();
                crate::bits::lemma_and_low_mask(base_address, 5, 0x1F);
                crate::bits::lemma_and_low_mask(limit_address, 5, 0x1F);
            }
            // All fields of these registers are going to be modified so we don't need to read them
            // before.
            let rnr: u32 = region_number as u32;
            let rbar: u32 = (base_address >> 5u32) << 5u32;
            let (enable, nsc): (u32, u32) = match attribute {
                SauRegionAttribute::Secure => (0, 0),
                SauRegionAttribute::NonSecureCallable => (1, 1),
                SauRegionAttribute::NonSecure => (1, 0),
            };
            let rlar: u32 = ((limit_address >> 5u32) << 5u32) | (nsc << 1u32) | enable;
            proof {
                assert(rbar == base_address && rlar == limit_address - 31 + nsc * 2 + enable) by (bit_vector)
                    requires
                        rbar == (base_address >> 5u32) << 5u32,
                        rlar == ((limit_address >> 5u32) << 5u32) | (nsc << 1u32) | enable,
                        base_address & 0x1F == 0,
                        limit_address & 0x1F == 0x1F,
                        enable < 2,
                        nsc < 2,
                ;
            }
            Ok((rnr, rbar, rlar))
        }
    }

    /// Get a region from the SAU: `rbar` (RBAR) and `rlar` (RLAR) are read after RNR selected
    /// `region_number`, when `region_numbers` regions are implemented.
    /// The region number must be valid.
    pub fn get_region(region_numbers: u8, region_number: u8, rbar: u32, rlar: u32) -> (r: Result<SauRegion, SauError>)
        ensures
            r == spec_get_region(region_numbers, region_number, rbar, rlar),
    {
        if region_number >= region_numbers {
            Err(SauError::RegionNumberTooBig)
        } else {
            let enable = rlar & (1u32 << 0u32) != 0;
            let nsc = rlar & (1u32 << 1u32) != 0;
            let attribute = match (enable, nsc) {
                (false, _) => SauRegionAttribute::Secure,
                (true, false) => SauRegionAttribute::NonSecure,
                (true, true) => SauRegionAttribute::NonSecureCallable,
            };
            let base_address = (rbar >> 5u32) << 5u32;
            let limit_address = ((rlar >> 5u32) << 5u32) | 0x1F;
            proof {
                assert(base_address == rbar - rbar % 32 && limit_address == rlar - rlar % 32 + 31)
                    by (bit_vector)
                    requires
                        base_address == (rbar >> 5u32) << 5u32,
                        limit_address == ((rlar >> 5u32) << 5u32) | 0x1F,
                ;
            }
            Ok(SauRegion { base_address, limit_address, attribute })
        }
    }
}

/// The registers of the SAU block.
#[derive(Clone, Copy, Debug, PartialEq, Eq, Structural)]
pub enum Register {
    /// Control
    Ctrl,
    /// Type
    Type,
    /// Region Number
    Rnr,
    /// Region Base Address
    Rbar,
    /// Region Limit Address
    Rlar,
    /// Secure Fault Status
    Sfsr,
    /// Secure Fault Address
    Sfar,
}

/// The SAU register block, slot by slot, reserved runs included.
pub open spec fn spec_layout() -> Seq<Slot> {
    seq![
        Slot { size: 4, count: 1 },
        Slot { size: 4, count: 1 },
        Slot { size: 4, count: 1 },
        Slot { size: 4, count: 1 },
        Slot { size: 4, count: 1 },
        Slot { size: 4, count: 1 },
        Slot { size: 4, count: 1 },
    ]
}

/// The slot of a register.
pub open spec fn spec_slot(register: Register) -> int {
    match register {
        Register::Ctrl => 0,
        Register::Type => 1,
        Register::Rnr => 2,
        Register::Rbar => 3,
        Register::Rlar => 4,
        Register::Sfsr => 5,
        Register::Sfar => 6,
    }
}

/// The address of register `index` of `register` (`index` is 0 for a single register).
pub fn address(register: Register, index: u32) -> (r: u32)
    requires
        index < spec_layout()[spec_slot(register)].count,
    ensures
        r == SAU::PTR + spec_offset(spec_layout(), spec_slot(register))
            + index * spec_layout()[spec_slot(register)].size,
{
    let slots = vec![
        Slot { size: 4, count: 1 },
        Slot { size: 4, count: 1 },
        Slot { size: 4, count: 1 },
        Slot { size: 4, count: 1 },
        Slot { size: 4, count: 1 },
        Slot { size: 4, count: 1 },
        Slot { size: 4, count: 1 },
    ];
    assert(slots@ =~= spec_layout());
    let k: usize = match register {
        Register::Ctrl => 0,
        Register::Type => 1,
        Register::Rnr => 2,
        Register::Rbar => 3,
        Register::Rlar => 4,
        Register::Sfsr => 5,
        Register::Sfar => 6,
    };
    register_address(SAU::PTR, slots.as_slice(), k, index, 0)
}

} // verus!
