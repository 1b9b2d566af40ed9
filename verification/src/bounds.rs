//! The arithmetic behind the emitted bounds and alignment checks.
//!
//! The generated sequence traps exactly when the access would leave the
//! guest memory region: the comparison it performs against the
//! effective bound is proved here to coincide with the abstract
//! out-of-bounds condition, and the low-bits test with the abstract
//! misalignment condition.

use vstd::prelude::*;

verus! {

/// The abstract out-of-bounds condition: an access of `value_size`
/// bytes at virtual address `addr` plus static offset `static_offset`
/// leaves a region of `bound_len` bytes, or the 32-bit offset addition
/// overflows.
pub open spec fn mem_access_out_of_bounds(
    addr: u32,
    static_offset: u32,
    value_size: u32,
    bound_len: u64,
) -> bool {
    addr + static_offset > u32::MAX || addr + static_offset + value_size > bound_len
}

/// The condition the emitted sequence evaluates: the offset addition
/// carried out of 32 bits, or the real address lies strictly above the
/// effective bound `base + bound_len - value_size`, which is the last
/// legal byte index for the access.
pub open spec fn emitted_check_traps(
    base: u64,
    bound_len: u64,
    value_size: u32,
    static_offset: u32,
    addr: u32,
) -> bool {
    addr + static_offset > u32::MAX || base + addr + static_offset > base + bound_len
        - value_size
}

/// The emitted comparison traps exactly on the abstract out-of-bounds
/// condition: the base cancels, and the inclusive effective bound
/// accounts for the access size.
pub proof fn lemma_bounds_check_exact(
    base: u64,
    bound_len: u64,
    value_size: u32,
    static_offset: u32,
    addr: u32,
)
    requires
        value_size <= bound_len,
    ensures
        emitted_check_traps(base, bound_len, value_size, static_offset, addr)
            == mem_access_out_of_bounds(addr, static_offset, value_size, bound_len),
{
}

/// Whether a bounds-checked access would trap, evaluated on plain
/// values: the executable form of `mem_access_out_of_bounds`.
pub fn memory_access_would_trap(addr: u32, static_offset: u32, value_size: u32, bound_len: u64)
    -> (t: bool)
    ensures
        t == mem_access_out_of_bounds(addr, static_offset, value_size, bound_len),
{
    let sum: u64 = addr as u64 + static_offset as u64;
    if sum > u32::MAX as u64 {
        true
    } else {
        sum + value_size as u64 > bound_len
    }
}

/// The abstract misalignment condition: the address is not a multiple
/// of the required alignment.
pub open spec fn misaligned(addr: u64, align: u64) -> bool {
    addr % align != 0
}

/// For the power-of-two alignments the generator accepts, the emitted
/// low-bits test agrees with the abstract misalignment condition.
pub proof fn lemma_alignment_check_exact(addr: u64, align: u64)
    requires
        align == 1 || align == 2 || align == 4 || align == 8 || align == 16,
    ensures
        (addr & ((align - 1) as u64) != 0) == misaligned(addr, align),
{
    if align == 1 {
        assert((addr & 0) == 0) by (bit_vector);
        assert(addr % 1 == 0);
    } else if align == 2 {
        assert((addr & 1 != 0) == (addr % 2 != 0)) by (bit_vector);
    } else if align == 4 {
        assert((addr & 3 != 0) == (addr % 4 != 0)) by (bit_vector);
    } else if align == 8 {
        assert((addr & 7 != 0) == (addr % 8 != 0)) by (bit_vector);
    } else {
        assert((addr & 15 != 0) == (addr % 16 != 0)) by (bit_vector);
    }
}

/// Whether an access at `addr` violates the required power-of-two
/// alignment, evaluated with the same low-bits test the generated code
/// performs.
pub fn alignment_check_would_trap(addr: u64, align: u64) -> (t: bool)
    requires
        align == 1 || align == 2 || align == 4 || align == 8 || align == 16,
    ensures
        t == misaligned(addr, align),
{
    proof {
        lemma_alignment_check_exact(addr, align);
    }
    addr & (align - 1) != 0
}

} // verus!
