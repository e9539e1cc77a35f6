//! Operand, scalar and vector sizes of AArch64 instructions.
use vstd::prelude::*;

verus! {

/// The width of an integer operand.
#[derive(Clone, Copy, Debug, PartialEq, Eq, Structural)]
pub enum OperandSize {
    Size32,
    Size64,
}

impl OperandSize {
    /// Whether this is the 32-bit width.
    pub fn is32(self) -> (b: bool)
        ensures
            b == (self == OperandSize::Size32),
    {
        self == OperandSize::Size32
    }

    /// Whether this is the 64-bit width.
    pub fn is64(self) -> (b: bool)
        ensures
            b == (self == OperandSize::Size64),
    {
        self == OperandSize::Size64
    }
}

/// The width of a scalar held in a vector register.
#[derive(Clone, Copy, Debug, PartialEq, Eq, Structural)]
pub enum ScalarSize {
    Size8,
    Size16,
    Size32,
    Size64,
    Size128,
}

/// The lane arrangement of a vector operand.
#[derive(Clone, Copy, Debug, PartialEq, Eq, Structural)]
pub enum VectorSize {
    Size8x8,
    Size8x16,
    Size16x4,
    Size16x8,
    Size32x2,
    Size32x4,
    Size64x2,
}

} // verus!
