//! Processor core registers
//!
//! The values of the core registers, read and written by the caller.

use vstd::prelude::*;

pub mod primask;

verus! {

} // verus!
