//! Exceptions

use vstd::prelude::*;

verus! {

/// Enumeration of all the exception types
#[derive(Clone, Copy, Debug, Eq, PartialEq, Structural)]
pub enum Exception {
    /// Non-maskable interrupt
    NMI,
    /// Other type of faults and unhandled faults
    HardFault,
    /// Memory protection related fault
    MemManage,
    /// Pre-fetch or memory access fault
    BusFault,
    /// Fault due to undefined instruction or illegal state
    UsageFault,
    /// Supervisor call
    SVCall,
    /// Pendable request for system-level service
    PendSV,
    /// System timer exception
    SysTick,
    /// An interrupt
    Interrupt(u8),
    /// A reserved exception number, or an interrupt above 255
    Reserved,
}

/// The exception that a vector number (the VECTACTIVE field, bits 8:0 of ICSR) names, `None`
/// for thread mode. The numbers of the reserved vectors, and those of interrupts above 255, which
/// `Interrupt(u8)` cannot hold, name `Reserved`.
pub open spec fn spec_exception(n: u16) -> Option<Exception> {
    if n == 0 {
        None
    } else if n == 2 {
        Some(Exception::NMI)
    } else if n == 3 {
        Some(Exception::HardFault)
    } else if n == 4 {
        Some(Exception::MemManage)
    } else if n == 5 {
        Some(Exception::BusFault)
    } else if n == 6 {
        Some(Exception::UsageFault)
    } else if n == 11 {
        Some(Exception::SVCall)
    } else if n == 14 {
        Some(Exception::PendSV)
    } else if n == 15 {
        Some(Exception::SysTick)
    } else if 16 <= n < 272 {
        Some(Exception::Interrupt((n - 16) as u8))
    } else {
        Some(Exception::Reserved)
    }
}

/// `active` names the exception whose architectural number VECTACTIVE holds, and no other: no
/// exception for 0, NMI 2, HardFault 3, MemManage 4, BusFault 5, UsageFault 6, SVCall 11, PendSV
/// 14, SysTick 15 (the numbers that `scb::Exception` gives the same exceptions), and interrupt
/// `k` for `k + 16`.
pub proof fn lemma_active_numbers(n: u16, k: u8)
    requires
        n < 512,
    ensures
        (spec_exception(n) == None::<Exception>) == (n == 0),
        (spec_exception(n) == Some(Exception::NMI)) == (n == 2),
        (spec_exception(n) == Some(Exception::HardFault)) == (n == 3),
        (spec_exception(n) == Some(Exception::MemManage)) == (n == 4),
        (spec_exception(n) == Some(Exception::BusFault)) == (n == 5),
        (spec_exception(n) == Some(Exception::UsageFault)) == (n == 6),
        (spec_exception(n) == Some(Exception::SVCall)) == (n == 11),
        (spec_exception(n) == Some(Exception::PendSV)) == (n == 14),
        (spec_exception(n) == Some(Exception::SysTick)) == (n == 15),
        (spec_exception(n) == Some(Exception::Interrupt(k))) == (n == k + 16),
        (spec_exception(n) == Some(Exception::BusFault))
            == (n == crate::peripheral::scb::Exception::BusFault.spec_number()),
        (spec_exception(n) == Some(Exception::UsageFault))
            == (n == crate::peripheral::scb::Exception::UsageFault.spec_number()),
        (spec_exception(n) == Some(Exception::MemManage))
            == (n == crate::peripheral::scb::Exception::MemoryManagement.spec_number()),
        (spec_exception(n) == Some(Exception::HardFault))
            == (n == crate::peripheral::scb::Exception::HardFault.spec_number()),
{
}

impl Exception {
    /// Returns the type of the exception that `icsr` (ICSR) reports as active in VECTACTIVE
    ///
    /// Returns `None` if no exception is active
    pub fn active(icsr: u32) -> (r: Option<Exception>)
        ensures
            r == spec_exception((icsr % 512) as u16),
            r is None <==> icsr % 512 == 0,
    {
        let n = (icsr % 512) as u16;
        match n {
            0 => None,
            2 => Some(Exception::NMI),
            3 => Some(Exception::HardFault),
            4 => Some(Exception::MemManage),
            5 => Some(Exception::BusFault),
            6 => Some(Exception::UsageFault),
            11 => Some(Exception::SVCall),
            14 => Some(Exception::PendSV),
            15 => Some(Exception::SysTick),
            n => if 16 <= n && n < 272 {
                Some(Exception::Interrupt((n - 16) as u8))
            } else {
                Some(Exception::Reserved)
            },
        }
    }
}

/// Registers stacked (pushed into the stack) during an exception
#[derive(Clone, Copy, Debug)]
pub struct ExceptionFrame {
    /// (General purpose) Register 0
    pub r0: u32,
    /// (General purpose) Register 1
    pub r1: u32,
    /// (General purpose) Register 2
    pub r2: u32,
    /// (General purpose) Register 3
    pub r3: u32,
    /// (General purpose) Register 12
    pub r12: u32,
    /// Linker Register
    pub lr: u32,
    /// Program Counter
    pub pc: u32,
    /// Program Status Register
    pub xpsr: u32,
}

} // verus!
