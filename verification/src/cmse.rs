//! Cortex-M Security Extensions
//!
//! This module provides several helper functions to support Armv8-M and Armv8.1-M Security
//! Extensions.
//! Most of this implementation is directly inspired by the "Armv8-M Security Extensions:
//! Requirements on Development Tools" document available here:
//! https://developer.arm.com/docs/ecm0359818/latest
//!
//! The TT instructions return the configuration of the Memory Protection Unit at an address;
//! `TestTarget` reads the response payload of one of them.
//!
//! # Notes
//!
//! * Non-Secure Unprivileged code will always read zeroes from TestTarget and should not use it.
//! * Non-Secure Privileged code can check current (AccessType::Current) and Non-Secure Unprivileged
//!   accesses (AccessType::Unprivileged).
//! * Secure Unprivileged code can check Non-Secure Unprivileged accesses (AccessType::NonSecure).
//! * Secure Privileged code can check all access types.

use vstd::prelude::*;
use crate::bits::{bit_is_set, field};

verus! {

/// Memory access behaviour: determine which privilege execution mode is used and which Memory
/// Protection Unit (MPU) is used.
#[derive(PartialEq, Eq, Copy, Clone, Debug, Structural)]
pub enum AccessType {
    /// Access using current privilege level and reading from current security state MPU.
    /// Uses the TT instruction.
    Current,
    /// Unprivileged access reading from current security state MPU. Uses the TTT instruction.
    Unprivileged,
    /// Access using current privilege level reading from Non-Secure MPU. Uses the TTA instruction.
    /// Undefined if used from Non-Secure state.
    NonSecure,
    /// Unprivilege access reading from Non-Secure MPU. Uses the TTAT instruction.
    /// Undefined if used from Non-Secure state.
    NonSecureUnprivileged,
}

/// Test Target Response Payload
///
/// The response payload of a TT, TTA, TTT or TTAT instruction: MREGION (bits 0 to 7),
/// SREGION (8 to 15), MRVALID (16), SRVALID (17), R (18), RW (19), NSR (20), NSRW (21), S (22),
/// IRVALID (23) and IREGION (24 to 31).
#[derive(Debug, Copy, Clone, PartialEq, Eq, Structural)]
pub struct TtResp(pub u32);

/// Abstraction of TT instructions and helper functions to determine the security and privilege
/// attribute of a target address, accessed in different ways.
#[derive(PartialEq, Eq, Copy, Clone, Debug, Structural)]
pub struct TestTarget {
    tt_resp: TtResp,
    access_type: AccessType,
}

impl TestTarget {
    /// The response payload of the TT instruction that was used.
    pub closed spec fn spec_tt_resp(self) -> u32 {
        self.tt_resp.0
    }

    /// The access type that was used.
    pub closed spec fn spec_access_type(self) -> AccessType {
        self.access_type
    }

    /// Two test targets are equal when they hold the same response for the same access type.
    pub proof fn lemma_eq(self, other: Self)
        ensures
            (self == other) == (self.spec_tt_resp() == other.spec_tt_resp()
                && self.spec_access_type() == other.spec_access_type()),
    {
    }

    /// Creates a Test Target from `tt_resp`, the response payload of the TT instruction that
    /// `access_type` selects (TT, TTT, TTA or TTAT) for the address to test.
    pub fn check(tt_resp: u32, access_type: AccessType) -> (r: Self)
        ensures
            r.spec_tt_resp() == tt_resp,
            r.spec_access_type() == access_type,
    {
        TestTarget { tt_resp: TtResp(tt_resp), access_type }
    }

    /// The last address of the zone from `addr` of `size` bytes (`addr + size - 1`), or `None`
    /// when `size` is 0 or the sum overflows.
    pub fn range_end(addr: usize, size: usize) -> (r: Option<usize>)
        ensures
            r == (if size == 0 || addr + size - 1 > usize::MAX {
                None
            } else {
                Some((addr + size - 1) as usize)
            }),
    {
        if size == 0 {
            return None;
        }
        addr.checked_add(size - 1)
    }

    /// Whether the `size` bytes from `addr` reach past the 32-byte address line of `addr`, so
    /// that `check_range` needs the response of a second TT instruction, at the end of the range.
    pub fn needs_end_check(addr: usize, size: usize) -> (r: bool)
        ensures
            r == (addr % 32 + size > 32),
    {
        size > 32 - addr % 32
    }

    /// Creates a Test Target for the zone from `addr` to `addr + size - 1`, tested using
    /// `access_type`: `start_resp` is the response for `addr`, `end_resp` the response for the
    /// last address of the zone (see `range_end`).
    ///
    /// Returns None if:
    ///   * the address zone overlaps SAU, IDAU or MPU region boundaries
    ///   * size is 0
    ///   * addr + size - 1 overflows
    ///
    /// Regions are aligned at 32-byte boundaries: a zone within one 32-byte line needs no test
    /// at its end.
    pub fn check_range(addr: usize, size: usize, access_type: AccessType, start_resp: u32, end_resp: u32) -> (r: Option<Self>)
        ensures
            r.is_some() == (size != 0 && addr + size - 1 <= usize::MAX && addr % 32 + size <= usize::MAX
                && (addr % 32 + size <= 32 || start_resp == end_resp)),
            r matches Some(t) ==> t.spec_tt_resp() == start_resp && t.spec_access_type() == access_type,
    {
        let begin: usize = addr;
        // Last address of the range (addr + size - 1). This also checks if size is 0.
        let _end: usize = match Self::range_end(begin, size) {
            Some(end) => end,
            None => return None,
        };

        // If the address range fits in one 32-byte address line, a single TT instruction
        // suffices.
        let single_check: bool = match (begin % 32).checked_add(size) {
            Some(reach) => reach <= 32usize,
            None => return None,
        };

        let test_start = TestTarget::check(start_resp, access_type);

        if single_check {
            Some(test_start)
        } else {
            let test_end = TestTarget::check(end_resp, access_type);
            // Check that the range does not cross SAU, IDAU or MPU region boundaries.
            if test_start.tt_resp.0 != test_end.tt_resp.0 {
                None
            } else {
                Some(test_start)
            }
        }
    }

    /// Access type that was used for this test target.
    pub fn access_type(self) -> (r: AccessType)
        ensures
            r == self.spec_access_type(),
    {
        self.access_type
    }

    /// Get the raw u32 value returned by the TT instruction used.
    pub fn as_u32(self) -> (r: u32)
        ensures
            r == self.spec_tt_resp(),
    {
        self.tt_resp.0
    }

    /// Read accessibility of the target address (R). Only returns the MPU settings without
    /// checking the Security state of the target.
    /// For Unprivileged and NonSecureUnprivileged access types, returns the permissions for
    /// unprivileged access, regardless of whether the current mode is privileged or unprivileged.
    /// Returns false if the TT instruction was executed from an unprivileged mode
    /// and the NonSecure access type was not specified.
    /// Returns false if the address matches multiple MPU regions.
    pub fn readable(self) -> (r: bool)
        ensures
            r == bit_is_set(self.spec_tt_resp(), 18),
    {
        self.tt_resp.0 & (1u32 << 18u32) != 0
    }

    /// Read and write accessibility of the target address (RW). Only returns the MPU settings
    /// without checking the Security state of the target.
    /// For Unprivileged and NonSecureUnprivileged access types, returns the permissions for
    /// unprivileged access, regardless of whether the current mode is privileged or unprivileged.
    /// Returns false if the TT instruction was executed from an unprivileged mode
    /// and the NonSecure access type was not specified.
    /// Returns false if the address matches multiple MPU regions.
    pub fn read_and_writable(self) -> (r: bool)
        ensures
            r == bit_is_set(self.spec_tt_resp(), 19),
    {
        self.tt_resp.0 & (1u32 << 19u32) != 0
    }

    /// Indicate the MPU region number (MREGION) containing the target address.
    /// Returns None if the value is not valid (MRVALID clear):
    ///   * the MPU is not implemented or MPU_CTRL.ENABLE is set to zero
    ///   * the register argument specified by the MREGION field does not match any enabled MPU regions
    ///   * the address matched multiple MPU regions
    ///   * the address specified by the SREGION field is exempt from the secure memory attribution
    ///   * the TT instruction was executed from an unprivileged mode and the A flag was not specified.
    pub fn mpu_region(self) -> (r: Option<u8>)
        ensures
            r == (if bit_is_set(self.spec_tt_resp(), 16) {
                Some(field(self.spec_tt_resp(), 0, 0xFF) as u8)
            } else {
                None
            }),
    {
        if self.tt_resp.0 & (1u32 << 16u32) != 0 {
            proof {
                crate::bits::lemma_field_bound(self.tt_resp.0, 0, 0xFF);
            }
            // Cast is safe as MREGION field is defined on 8 bits.
            Some(((self.tt_resp.0 >> 0u32) & 0xFF) as u8)
        } else {
            None
        }
    }

    /// Indicates the Security attribute of the target address (S). Independent of AccessType.
    /// Always zero when the test target is done in the Non-Secure state.
    pub fn secure(self) -> (r: bool)
        ensures
            r == bit_is_set(self.spec_tt_resp(), 22),
    {
        self.tt_resp.0 & (1u32 << 22u32) != 0
    }

    /// Non-Secure Read accessibility of the target address (NSR).
    /// Same as readable() && !secure()
    pub fn ns_readable(self) -> (r: bool)
        ensures
            r == bit_is_set(self.spec_tt_resp(), 20),
    {
        self.tt_resp.0 & (1u32 << 20u32) != 0
    }

    /// Non-Secure Read and Write accessibility of the target address (NSRW).
    /// Same as read_and_writable() && !secure()
    pub fn ns_read_and_writable(self) -> (r: bool)
        ensures
            r == bit_is_set(self.spec_tt_resp(), 21),
    {
        self.tt_resp.0 & (1u32 << 21u32) != 0
    }

    /// Indicate the IDAU region number (IREGION) containing the target address. Independent of
    /// AccessType.
    /// Returns None if the value is not valid (IRVALID clear):
    ///   * the IDAU cannot provide a region number
    ///   * the address is exempt from security attribution
    ///   * the test target is done from Non-Secure state
    pub fn idau_region(self) -> (r: Option<u8>)
        ensures
            r == (if bit_is_set(self.spec_tt_resp(), 23) {
                Some(field(self.spec_tt_resp(), 24, 0xFF) as u8)
            } else {
                None
            }),
    {
        if self.tt_resp.0 & (1u32 << 23u32) != 0 {
            proof {
                crate::bits::lemma_field_bound(self.tt_resp.0, 24, 0xFF);
            }
            // Cast is safe as IREGION field is defined on 8 bits.
            Some(((self.tt_resp.0 >> 24u32) & 0xFF) as u8)
        } else {
            None
        }
    }

    /// Indicate the SAU region number (SREGION) containing the target address. Independent of
    /// AccessType.
    /// Returns None if the value is not valid (SRVALID clear):
    ///   * SAU_CTRL.ENABLE is set to zero
    ///   * the register argument specified in the SREGION field does not match any enabled SAU regions
    ///   * the address specified matches multiple enabled SAU regions
    ///   * the address specified by the SREGION field is exempt from the secure memory attribution
    ///   * the TT instruction was executed from the Non-secure state or the Security Extension is not
    ///     implemented
    pub fn sau_region(self) -> (r: Option<u8>)
        ensures
            r == (if bit_is_set(self.spec_tt_resp(), 17) {
                Some(field(self.spec_tt_resp(), 8, 0xFF) as u8)
            } else {
                None
            }),
    {
        if self.tt_resp.0 & (1u32 << 17u32) != 0 {
            proof {
                crate::bits::lemma_field_bound(self.tt_resp.0, 8, 0xFF);
            }
            // Cast is safe as SREGION field is defined on 8 bits.
            Some(((self.tt_resp.0 >> 8u32) & 0xFF) as u8)
        } else {
            None
        }
    }
}

} // verus!
