use colorguard::colorguard::{
    colorguard_allocate_pkeys, colorguard_color_memory, colorguard_color_slot,
    colorguard_deallocate_pkeys, colorguard_enter_sbox,
};
use colorguard::mpk::{
    pkey_alloc, pkey_free, pkey_mprotect, pkey_set, rdpkru, wrpkru, PKEY_DISABLE_ACCESS,
};

#[test]
fn pkey_primitives_are_inert() {
    assert_eq!(pkey_alloc(0, 0), 1);
    assert_eq!(pkey_alloc(7, PKEY_DISABLE_ACCESS), 1);
    assert_eq!(pkey_free(3), 0);
    assert_eq!(pkey_mprotect(0x1000, 4096, 3, 1), 0);
    pkey_set(1, PKEY_DISABLE_ACCESS);
    wrpkru(0xffff_fffc);
    assert_eq!(rdpkru(), 0);
    assert_eq!(PKEY_DISABLE_ACCESS, 1);
}

#[test]
fn colorguard_entry_points() {
    let pkeys = colorguard_allocate_pkeys();
    assert_eq!(pkeys, [0u32; 16]);
    colorguard_color_memory(0x10000, 1 << 20, 4);
    colorguard_color_slot(0x10000, 1 << 20, 1);
    colorguard_enter_sbox(1);
    colorguard_deallocate_pkeys(pkeys);
    assert_eq!(rdpkru(), 0);
}
