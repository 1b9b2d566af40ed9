//! The bounds-check and alignment-check arithmetic.

use singlepass_arm64::bounds::{alignment_check_would_trap, memory_access_would_trap};

#[test]
fn access_one_past_the_region_traps() {
    // Region of 65536 bytes, 4-byte access at static offset 65533:
    // 65533 + 4 = 65537 > 65536, so the access must trap.
    assert!(memory_access_would_trap(0, 65533, 4, 65536));
}

#[test]
fn access_ending_at_the_region_bound_is_legal() {
    // 65532 + 4 = 65536, ending exactly at the bound: no trap.
    assert!(!memory_access_would_trap(0, 65532, 4, 65536));
}

#[test]
fn address_and_offset_combine() {
    assert!(memory_access_would_trap(65000, 533, 4, 65536));
    assert!(!memory_access_would_trap(65000, 532, 4, 65536));
}

#[test]
fn offset_addition_overflow_traps() {
    assert!(memory_access_would_trap(u32::MAX, 1, 1, u64::MAX));
    assert!(memory_access_would_trap(0x8000_0000, 0x8000_0000, 1, u64::MAX));
}

#[test]
fn four_byte_alignment_rejects_low_bits() {
    // An address with its low two bits set violates 4-byte alignment.
    assert!(alignment_check_would_trap(7, 4));
    assert!(alignment_check_would_trap(2, 4));
    assert!(!alignment_check_would_trap(8, 4));
    assert!(!alignment_check_would_trap(0, 4));
}

#[test]
fn byte_alignment_never_traps() {
    assert!(!alignment_check_would_trap(12345, 1));
}

#[test]
fn wide_alignments() {
    assert!(alignment_check_would_trap(9, 8));
    assert!(!alignment_check_would_trap(16, 8));
    assert!(alignment_check_would_trap(24, 16));
    assert!(!alignment_check_would_trap(32, 16));
}
