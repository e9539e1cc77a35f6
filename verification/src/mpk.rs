//! Memory-protection-key primitives. This build of ColorGuard keeps them
//! inert: allocation always hands out key 1, freeing and protecting report
//! success, the protection-key register reads as 0, and writes to it are
//! dropped.
use vstd::prelude::*;

verus! {

/// The access-rights bit that disables all access through a key.
pub const PKEY_DISABLE_ACCESS: u64 = 1;

/// Allocates a protection key with the given flags and initial access
/// rights; this build always hands out key 1.
pub fn pkey_alloc(flags: u64, ini_access_rights: u64) -> (pkey: u32)
    ensures
        pkey == 1,
{
    1
}

/// Frees a protection key; this build always reports success (0).
pub fn pkey_free(pkey: u32) -> (result: i32)
    ensures
        result == 0,
{
    0
}

/// Tags `len` bytes from `start` with `pkey` and the given protection; this
/// build always reports success (0).
pub fn pkey_mprotect(start: u64, len: usize, protection: i32, pkey: u32) -> (result: i32)
    ensures
        result == 0,
{
    0
}

/// Sets the access rights of `pkey` for this thread; this build leaves the
/// protection-key register as it is.
pub fn pkey_set(pkey: u32, rights: u64) {
}

/// Reads the protection-key rights register; this build reads 0.
pub fn rdpkru() -> (pkru: u32)
    ensures
        pkru == 0,
{
    0
}

/// Writes the protection-key rights register; this build drops the write.
pub fn wrpkru(pkru: u32) {
}

} // verus!
