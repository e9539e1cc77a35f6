//! The ColorGuard entry points: colour each sandbox slot of a pooled linear
//! memory with a protection key, and switch the running thread to the key of
//! one sandbox. This build keeps them inert: no key is allocated, no memory
//! is tagged and the protection-key register is left as it is.
use vstd::prelude::*;

verus! {

/// Allows access to region 0 and region `pkey` only; this build leaves the
/// protection-key register as it is.
#[allow(dead_code)]
fn mpk_exclusive_allow(pkey: u32) {
}

/// Enters the sandbox coloured with `pkey`; this build leaves the
/// protection-key register as it is.
pub fn colorguard_enter_sbox(pkey: u32) {
}

/// Colours `max_instances` slots of `slot_size` bytes from the address
/// `membase`; this build tags no memory.
pub fn colorguard_color_memory(membase: usize, slot_size: usize, max_instances: usize) {
}

/// Allocates the protection keys; this build allocates none and hands back
/// a table of zero keys.
pub fn colorguard_allocate_pkeys() -> (pkeys: [u32; 16])
    ensures
        forall|i: int| 0 <= i < 16 ==> pkeys@[i] == 0,
{
    let pkeys: [u32; 16] = [0; 16];
    pkeys
}

/// Frees the protection keys in `pkeys`; this build frees none.
pub fn colorguard_deallocate_pkeys(pkeys: [u32; 16]) {
}

/// Colours `slot_size` bytes from the address `linmem_base` with `pkey`;
/// this build tags no memory.
pub fn colorguard_color_slot(linmem_base: usize, slot_size: usize, pkey: u32) {
}

} // verus!
