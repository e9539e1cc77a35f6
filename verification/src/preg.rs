//! The register allocator's physical-register encoding.
//!
//! regalloc2 packs a physical register into one byte: the hardware encoding
//! in the low six bits and the register class in bit six. The wrappers below
//! make the calls into regalloc2 and hand back plain integers.
use vstd::prelude::*;

use crate::machinst::RegClass;

verus! {

/// The class bit that regalloc2 stores for a register class.
pub open spec fn class_bit(class: RegClass) -> nat {
    match class {
        RegClass::Int => 0,
        RegClass::Float => 1,
    }
}

/// The class that regalloc2 reads back from a physical-register index:
/// bit six of the index, after the index is cut to its low seven bits.
pub open spec fn class_of_index(index: nat) -> RegClass {
    if index % 128 < 64 {
        RegClass::Int
    } else {
        RegClass::Float
    }
}

/// Calls `regalloc2::PReg::new(hw_enc, class)` and returns the register's
/// `index()`. In regalloc2 0.4 `new` stores `(class << 6) | hw_enc` and `index`
/// returns those bits, so the index is `hw_enc + 64 * class`; `new`
/// debug-asserts `hw_enc <= 63`, which `requires` leaves to the caller.
#[verifier::external_body]
pub(crate) fn preg_new_index(hw_enc: usize, class: RegClass) -> (index: usize)
    requires
        hw_enc < 64,
    ensures
        index == hw_enc + 64 * class_bit(class),
{
    let class = match class {
        RegClass::Int => regalloc2::RegClass::Int,
        RegClass::Float => regalloc2::RegClass::Float,
    };
    regalloc2::PReg::new(hw_enc, class).index()
}

/// Calls `regalloc2::PReg::from_index(index)` and reads back the register's
/// `index()`, `hw_enc()` and `class()`. In regalloc2 0.4 `from_index` keeps the
/// low seven bits of `index`; `hw_enc` is the low six of them and `class` is
/// `Float` exactly when bit six is set.
#[verifier::external_body]
pub(crate) fn preg_from_index(index: usize) -> (parts: (usize, usize, RegClass))
    ensures
        parts.0 == index % 128,
        parts.1 == index % 64,
        parts.2 == class_of_index(index as nat),
{
    let preg = regalloc2::PReg::from_index(index);
    let class = match preg.class() {
        regalloc2::RegClass::Int => RegClass::Int,
        regalloc2::RegClass::Float => RegClass::Float,
    };
    (preg.index(), preg.hw_enc(), class)
}

} // verus!
