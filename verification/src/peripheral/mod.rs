//! Core peripherals.
//!
//! Each core peripheral is a singleton. `Peripherals::take` hands all of them out once; the
//! flag that records whether they were handed out is passed in by the caller, which owns it.
//!
//! The register logic of each peripheral lives in its module: functions from the values read
//! out of its registers to the values to write back.
use vstd::prelude::*;

pub mod ac;
pub mod cbp;
pub mod cpuid;
pub mod dcb;
pub mod dwt;
pub mod fpb;
pub mod fpu;
pub mod icb;
pub mod itm;
pub mod layout;
pub mod mpu;
pub mod nvic;
pub mod sau;
pub mod scb;
pub mod syst;
pub mod tpiu;

verus! {

/// Core peripherals
#[allow(non_snake_case)]
pub struct Peripherals {
    /// Cortex-M7 TCM and cache access control.
    pub AC: AC,
    /// Cache and branch predictor maintenance operations.
    pub CBP: CBP,
    /// CPUID
    pub CPUID: CPUID,
    /// Debug Control Block
    pub DCB: DCB,
    /// Data Watchpoint and Trace unit
    pub DWT: DWT,
    /// Flash Patch and Breakpoint unit.
    pub FPB: FPB,
    /// Floating Point Unit.
    pub FPU: FPU,
    /// Implementation Control Block.
    pub ICB: ICB,
    /// Instrumentation Trace Macrocell.
    pub ITM: ITM,
    /// Memory Protection Unit
    pub MPU: MPU,
    /// Nested Vector Interrupt Controller
    pub NVIC: NVIC,
    /// Security Attribution Unit
    pub SAU: SAU,
    /// System Control Block
    pub SCB: SCB,
    /// SysTick: System Timer
    pub SYST: SYST,
    /// Trace Port Interface Unit.
    pub TPIU: TPIU,
}

impl Peripherals {
    /// Returns all the core peripherals *once*: `None` when `taken` is already set.
    ///
    /// `taken` is the flag that makes `Peripherals` a singleton; it is set afterwards.
    pub fn take(taken: &mut bool) -> (r: Option<Self>)
        ensures
            r.is_some() == !*old(taken),
            *final(taken),
    {
        if *taken {
            None
        } else {
            Some(Peripherals::steal(taken))
        }
    }

    /// Unchecked version of `Peripherals::take`: sets `taken` and hands the peripherals out.
    pub fn steal(taken: &mut bool) -> (r: Self)
        ensures
            *final(taken),
    {
        *taken = true;

        Peripherals {
            AC: AC { _marker: () },
            CBP: CBP { _marker: () },
            CPUID: CPUID { _marker: () },
            DCB: DCB { _marker: () },
            DWT: DWT { _marker: () },
            FPB: FPB { _marker: () },
            FPU: FPU { _marker: () },
            ICB: ICB { _marker: () },
            ITM: ITM { _marker: () },
            MPU: MPU { _marker: () },
            NVIC: NVIC { _marker: () },
            SAU: SAU { _marker: () },
            SCB: SCB { _marker: () },
            SYST: SYST { _marker: () },
            TPIU: TPIU { _marker: () },
        }
    }
}

/// Access control
pub struct AC {
    _marker: (),
}

impl AC {
    /// Address of the register block
    pub const PTR: u32 = 0xE000_EF90;
}

/// Cache and branch predictor maintenance operations
#[allow(clippy::upper_case_acronyms)]
pub struct CBP {
    _marker: (),
}

impl CBP {
    /// Address of the register block
    pub const PTR: u32 = 0xE000_EF50;
}

/// CPUID
#[allow(clippy::upper_case_acronyms)]
pub struct CPUID {
    _marker: (),
}

impl CPUID {
    /// Address of the register block
    pub const PTR: u32 = 0xE000_ED00;
}

/// Debug Control Block
#[allow(clippy::upper_case_acronyms)]
pub struct DCB {
    _marker: (),
}

impl DCB {
    /// Address of the register block
    pub const PTR: u32 = 0xE000_EDF0;
}

/// Data Watchpoint and Trace unit
#[allow(clippy::upper_case_acronyms)]
pub struct DWT {
    _marker: (),
}

impl DWT {
    /// Address of the register block
    pub const PTR: u32 = 0xE000_1000;
}

/// Flash Patch and Breakpoint unit
#[allow(clippy::upper_case_acronyms)]
pub struct FPB {
    _marker: (),
}

impl FPB {
    /// Address of the register block
    pub const PTR: u32 = 0xE000_2000;
}

/// Floating Point Unit
#[allow(clippy::upper_case_acronyms)]
pub struct FPU {
    _marker: (),
}

impl FPU {
    /// Address of the register block
    pub const PTR: u32 = 0xE000_EF30;
}

/// Implementation Control Block.
///
/// This block contains implementation-defined registers like `ictr` and
/// `actlr`. It's called the "implementation control block" in the ARMv8-M
/// standard, but earlier standards contained the registers, just without a
/// name.
#[allow(clippy::upper_case_acronyms)]
pub struct ICB {
    _marker: (),
}

impl ICB {
    /// Address of the register block
    pub const PTR: u32 = 0xE000_E004;
}

/// Instrumentation Trace Macrocell
#[allow(clippy::upper_case_acronyms)]
pub struct ITM {
    _marker: (),
}

impl ITM {
    /// Address of the register block
    pub const PTR: u32 = 0xE000_0000;
}

/// Memory Protection Unit
#[allow(clippy::upper_case_acronyms)]
pub struct MPU {
    _marker: (),
}

impl MPU {
    /// Address of the register block
    pub const PTR: u32 = 0xE000_ED90;
}

/// Nested Vector Interrupt Controller
#[allow(clippy::upper_case_acronyms)]
pub struct NVIC {
    _marker: (),
}

impl NVIC {
    /// Address of the register block
    pub const PTR: u32 = 0xE000_E100;
}

/// Security Attribution Unit
#[allow(clippy::upper_case_acronyms)]
pub struct SAU {
    _marker: (),
}

impl SAU {
    /// Address of the register block
    pub const PTR: u32 = 0xE000_EDD0;
}

/// System Control Block
#[allow(clippy::upper_case_acronyms)]
pub struct SCB {
    _marker: (),
}

impl SCB {
    /// Address of the register block
    pub const PTR: u32 = 0xE000_ED04;
}

/// SysTick: System Timer
#[allow(clippy::upper_case_acronyms)]
pub struct SYST {
    _marker: (),
}

impl SYST {
    /// Address of the register block
    pub const PTR: u32 = 0xE000_E010;
}

/// Trace Port Interface Unit
#[allow(clippy::upper_case_acronyms)]
pub struct TPIU {
    _marker: (),
}

impl TPIU {
    /// Address of the register block
    pub const PTR: u32 = 0xE004_0000;
}

} // verus!
