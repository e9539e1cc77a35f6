//! Register definitions for the AArch64 backend of a code generator, the
//! machine environment that it hands to the register allocator, the textual
//! names of its registers, and the memory-protection-key (MPK) entry points of
//! the ColorGuard sandboxing scheme.
use vstd::prelude::*;

pub mod colorguard;
pub mod machinst;
pub mod mpk;
pub mod preg;
pub mod regs;
pub mod sizes;
pub mod text;

verus! {

} // verus!
