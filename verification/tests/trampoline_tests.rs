//! Trampoline generation: shapes, encodings and rejected signatures.

use singlepass_arm64::common::{CallingConvention, FunctionType, Type, VMOffsets};
use singlepass_arm64::machine::MachineARM64;
use singlepass_arm64::CodegenError;

fn words(bytes: &[u8]) -> Vec<u32> {
    bytes
        .chunks(4)
        .map(|c| u32::from_le_bytes([c[0], c[1], c[2], c[3]]))
        .collect()
}

#[test]
fn std_trampoline_shape_for_two_params_one_result() {
    let m = MachineARM64::new();
    let sig = FunctionType::new(vec![Type::I32, Type::I32], vec![Type::I32]);
    let body = m
        .gen_std_trampoline(&sig, CallingConvention::SystemV)
        .unwrap();
    let w = words(&body.body);
    // stp, two moves, two argument loads, the call, the result store,
    // ldp, ret.
    assert_eq!(w.len(), 9);
    assert_eq!(w[0], 0xA9BF7BF3); // stp x19, x30, [sp, #-16]!
    assert_eq!(w[5], 0xD63F0340); // blr x26
    assert_eq!(w[8], 0xD65F03C0); // ret
}

#[test]
fn std_trampoline_without_results_skips_the_store() {
    let m = MachineARM64::new();
    let sig = FunctionType::new(vec![], vec![]);
    let body = m
        .gen_std_trampoline(&sig, CallingConvention::SystemV)
        .unwrap();
    assert_eq!(words(&body.body).len(), 6);
}

#[test]
fn std_trampoline_rejects_wide_signatures() {
    let m = MachineARM64::new();
    let sig = FunctionType::new(vec![Type::I64; 8], vec![]);
    assert_eq!(
        m.gen_std_trampoline(&sig, CallingConvention::SystemV),
        Err(CodegenError::UnsupportedSignature)
    );
    let sig = FunctionType::new(vec![], vec![Type::I64, Type::I64]);
    assert_eq!(
        m.gen_std_trampoline(&sig, CallingConvention::SystemV),
        Err(CodegenError::UnsupportedSignature)
    );
}

#[test]
fn dynamic_import_trampoline_is_deterministic() {
    let m = MachineARM64::new();
    let offsets = VMOffsets::new(8, 16);
    let sig = FunctionType::new(vec![Type::I64], vec![Type::I64]);
    let a = m
        .gen_std_dynamic_import_trampoline(&offsets, &sig, CallingConvention::SystemV)
        .unwrap();
    let b = m
        .gen_std_dynamic_import_trampoline(&offsets, &sig, CallingConvention::SystemV)
        .unwrap();
    assert_eq!(a, b);
    let w = words(&a.body);
    assert_eq!(*w.last().unwrap(), 0xD65F03C0); // ret
}

#[test]
fn import_call_trampoline_loads_and_tail_calls() {
    let m = MachineARM64::new();
    let offsets = VMOffsets::new(8, 16);
    let sig = FunctionType::new(vec![], vec![]);
    let section = m.gen_import_call_trampoline(&offsets, 0, &sig, CallingConvention::SystemV);
    let w = words(&section.bytes.bytes);
    assert_eq!(w.len(), 3);
    assert_eq!(w[0], 0xF9400810); // ldr x16, [x0, #16]
    assert_eq!(w[1], 0xF9400C00); // ldr x0, [x0, #24]
    assert_eq!(w[2], 0xD61F0200); // br x16
    assert!(section.relocations.is_empty());
}

#[test]
fn import_call_trampoline_offset_scales_with_the_index() {
    let m = MachineARM64::new();
    let offsets = VMOffsets::new(8, 0);
    let sig = FunctionType::new(vec![], vec![]);
    let section = m.gen_import_call_trampoline(&offsets, 2, &sig, CallingConvention::SystemV);
    let w = words(&section.bytes.bytes);
    // Entry 2 begins at byte 32: code pointer at 32, context at 40.
    assert_eq!(w[0], 0xF9400000 | (4 << 10) | 16);
    assert_eq!(w[1], 0xF9400000 | (5 << 10) | 0);
}
