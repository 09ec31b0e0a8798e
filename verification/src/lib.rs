//! Low level access to Cortex-M processors, with its register logic verified.
//!
//! This crate provides:
//!
//! - The register logic of the core peripherals like NVIC, SCB and SysTick: what each
//!   operation reads out of a register and what it writes back.
//! - The layout of the core peripherals' register blocks.
//! - The plans of the ITM writes and of the SysTick delays.
//!
//! Reading and writing the registers themselves is left to the caller.
pub mod bits;
pub mod cmse;
pub mod ctxt;
pub mod delay;
pub mod exception;
pub mod interrupt;
pub mod itm;
pub mod mutex;
pub mod peripheral;
pub mod psp;
pub mod register;

pub use crate::peripheral::Peripherals;
