//! Instruction encodings and label resolution of the assembler.

use singlepass_arm64::emitter::{Assembler, Label};
use singlepass_arm64::location::{Condition, GPR, Location, Size};
use singlepass_arm64::CodegenError;

fn words(bytes: &[u8]) -> Vec<u32> {
    bytes
        .chunks(4)
        .map(|c| u32::from_le_bytes([c[0], c[1], c[2], c[3]]))
        .collect()
}

#[test]
fn mov_register_encoding() {
    let mut a = Assembler::new();
    a.emit_mov(Size::S64, Location::GPR(GPR::X1), Location::GPR(GPR::X0));
    let code = a.finalize().unwrap();
    assert_eq!(words(&code), vec![0xAA0103E0]);
}

#[test]
fn mov_stack_pointer_uses_add_form() {
    let mut a = Assembler::new();
    a.emit_mov(Size::S64, Location::GPR(GPR::XzrSp), Location::GPR(GPR::X27));
    let code = a.finalize().unwrap();
    assert_eq!(words(&code), vec![0x910003FB]);
}

#[test]
fn store_pair_pre_decrement_encoding() {
    let mut a = Assembler::new();
    a.emit_stpbd(
        Size::S64,
        Location::GPR(GPR::X0),
        Location::GPR(GPR::X1),
        GPR::XzrSp,
        16,
    );
    let code = a.finalize().unwrap();
    assert_eq!(words(&code), vec![0xA9BF07E0]);
}

#[test]
fn load_pair_post_increment_encoding() {
    let mut a = Assembler::new();
    a.emit_ldpai(
        Size::S64,
        Location::GPR(GPR::X0),
        Location::GPR(GPR::X1),
        GPR::XzrSp,
        16,
    );
    let code = a.finalize().unwrap();
    assert_eq!(words(&code), vec![0xA8C107E0]);
}

#[test]
fn ret_encoding() {
    let mut a = Assembler::new();
    a.emit_ret();
    let code = a.finalize().unwrap();
    assert_eq!(words(&code), vec![0xD65F03C0]);
}

#[test]
fn mov_imm64_is_four_half_word_moves() {
    let mut a = Assembler::new();
    a.emit_mov_imm(Location::GPR(GPR::X3), 0x1122_3344_5566_7788);
    let code = a.finalize().unwrap();
    let w = words(&code);
    assert_eq!(w.len(), 4);
    // MOVZ x3, #0x7788 then MOVK with half-word slots 1..3.
    assert_eq!(w[0], 0xD280_0000 | (0x7788 << 5) | 3);
    assert_eq!(w[1], 0xF280_0000 | (1 << 21) | (0x5566 << 5) | 3);
    assert_eq!(w[2], 0xF280_0000 | (2 << 21) | (0x3344 << 5) | 3);
    assert_eq!(w[3], 0xF280_0000 | (3 << 21) | (0x1122 << 5) | 3);
}

#[test]
fn forward_branch_is_patched() {
    let mut a = Assembler::new();
    let l = a.new_dynamic_label();
    a.emit_bcond_label(Condition::Eq, l);
    a.emit_udf();
    a.emit_label(l);
    a.emit_ret();
    let code = a.finalize().unwrap();
    let w = words(&code);
    // Branch at offset 0, target at offset 8: displacement of two words.
    assert_eq!(w[0], 0x54000000 | (2 << 5));
    assert_eq!(w[1], 0);
    assert_eq!(w[2], 0xD65F03C0);
}

#[test]
fn backward_branch_gets_negative_displacement() {
    let mut a = Assembler::new();
    let l = a.new_dynamic_label();
    a.emit_label(l);
    a.emit_udf();
    a.emit_b_label(l);
    let code = a.finalize().unwrap();
    let w = words(&code);
    // Branch at offset 4 back to offset 0: displacement minus one word,
    // two's complement in the 26-bit field.
    assert_eq!(w[1], 0x14000000 | 0x3FFFFFF);
}

#[test]
fn unbound_label_is_reported() {
    let mut a = Assembler::new();
    let l = a.new_dynamic_label();
    a.emit_b_label(l);
    match a.finalize() {
        Err(CodegenError::UnboundLabel { label }) => assert_eq!(label, 0),
        other => panic!("expected an unbound-label failure, got {:?}", other),
    }
}

#[test]
fn conditional_branch_out_of_range_is_reported() {
    let mut a = Assembler::new();
    let l = a.new_dynamic_label();
    a.emit_bcond_label(Condition::Ne, l);
    // Push the label beyond the 19-bit word displacement.
    for _ in 0..0x40000 {
        a.emit_udf();
    }
    a.emit_label(l);
    match a.finalize() {
        Err(CodegenError::BranchOutOfRange { at, label }) => {
            assert_eq!(at, 0);
            assert_eq!(label, 0);
        }
        other => panic!("expected an out-of-range failure, got {:?}", other),
    }
}

#[test]
fn label_ids_are_sequential() {
    let mut a = Assembler::new();
    let l0 = a.new_dynamic_label();
    let l1 = a.new_dynamic_label();
    assert_eq!(l0, Label(0));
    assert_eq!(l1, Label(1));
}
