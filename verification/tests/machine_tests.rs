//! The code generation engine: stack discipline, relaxed operations,
//! trap metadata and determinism.

use singlepass_arm64::common::{MemoryImmediate, RelocationKind, RelocationTarget};
use singlepass_arm64::location::{GPR, Location, NEON, Size};
use singlepass_arm64::machine::{AluOp, MachineARM64};
use singlepass_arm64::trap::TrapCode;
use singlepass_arm64::CodegenError;

fn words(bytes: &[u8]) -> Vec<u32> {
    bytes
        .chunks(4)
        .map(|c| u32::from_le_bytes([c[0], c[1], c[2], c[3]]))
        .collect()
}

const SUB_SP_16: u32 = 0xD10043FF;
const ADD_SP_16: u32 = 0x910043FF;

#[test]
fn three_pushes_allocate_two_slots() {
    let mut m = MachineARM64::new();
    m.emit_push(Size::S64, Location::GPR(GPR::X0)).unwrap();
    m.emit_push(Size::S64, Location::GPR(GPR::X1)).unwrap();
    m.emit_push(Size::S64, Location::GPR(GPR::X2)).unwrap();
    let code = m.assembler_finalize().unwrap();
    let w = words(&code);
    let allocs = w.iter().filter(|&&x| x == SUB_SP_16).count();
    assert_eq!(allocs, 2);
}

#[test]
fn pushes_and_pops_balance_the_stack_pointer() {
    let mut m = MachineARM64::new();
    m.emit_push(Size::S64, Location::GPR(GPR::X0)).unwrap();
    m.emit_push(Size::S64, Location::GPR(GPR::X1)).unwrap();
    m.emit_push(Size::S64, Location::GPR(GPR::X2)).unwrap();
    m.emit_pop(Size::S64, Location::GPR(GPR::X2)).unwrap();
    m.emit_pop(Size::S64, Location::GPR(GPR::X1)).unwrap();
    m.emit_pop(Size::S64, Location::GPR(GPR::X0)).unwrap();
    let code = m.assembler_finalize().unwrap();
    let w = words(&code);
    let allocs = w.iter().filter(|&&x| x == SUB_SP_16).count();
    let frees = w.iter().filter(|&&x| x == ADD_SP_16).count();
    assert_eq!(allocs, 2);
    assert_eq!(frees, 2);
}

#[test]
fn double_push_on_aligned_stack_is_one_paired_store() {
    let mut m = MachineARM64::new();
    m.emit_double_push(Size::S64, Location::GPR(GPR::X27), Location::GPR(GPR::X30))
        .unwrap();
    let code = m.assembler_finalize().unwrap();
    let w = words(&code);
    assert_eq!(w.len(), 1);
    // STP x27, x30, [sp, #-16]!
    assert_eq!(w[0], 0xA9BF7BFB);
}

#[test]
fn prologue_and_epilogue_mirror_each_other() {
    let mut m = MachineARM64::new();
    m.emit_function_prolog();
    m.emit_function_epilog();
    m.emit_ret();
    let code = m.assembler_finalize().unwrap();
    let w = words(&code);
    // stp, mov x27<-sp, mov sp<-x27, ldp, ret
    assert_eq!(w.len(), 5);
    assert_eq!(w[4], 0xD65F03C0);
}

#[test]
fn relaxed_binop_restores_the_allocator() {
    let mut m = MachineARM64::new();
    m.reserve_gpr(GPR::X9);
    let before = m.get_used_gprs();
    m.emit_relaxed_binop(
        AluOp::Add,
        Size::S32,
        Location::Memory(GPR::X27, 16),
        Location::Memory(GPR::X27, 24),
    )
    .unwrap();
    let after = m.get_used_gprs();
    assert_eq!(before, after);
    assert_eq!(after, vec![GPR::X9]);
}

#[test]
fn relaxed_binop_rejects_vector_destination_add() {
    let mut m = MachineARM64::new();
    let r = m.emit_relaxed_binop(
        AluOp::Add,
        Size::S32,
        Location::GPR(GPR::X0),
        Location::SIMD(NEON::V0),
    );
    assert_eq!(
        r,
        Err(CodegenError::UnsupportedBinop {
            size: Size::S32,
            src: Location::GPR(GPR::X0),
            dst: Location::SIMD(NEON::V0),
        })
    );
}

#[test]
fn push_rejects_narrow_operands() {
    let mut m = MachineARM64::new();
    let r = m.emit_push(Size::S32, Location::GPR(GPR::X0));
    assert_eq!(
        r,
        Err(CodegenError::UnsupportedPush { size: Size::S32, loc: Location::GPR(GPR::X0) })
    );
    let r = m.emit_pop(Size::S32, Location::GPR(GPR::X0));
    assert_eq!(
        r,
        Err(CodegenError::UnsupportedPop { size: Size::S32, loc: Location::GPR(GPR::X0) })
    );
}

#[test]
fn move_location_rejects_immediate_to_memory() {
    let mut m = MachineARM64::new();
    let r = m.move_location(
        Size::S64,
        Location::Imm32(5),
        Location::Memory(GPR::X27, 8),
    );
    assert_eq!(
        r,
        Err(CodegenError::UnsupportedMove {
            size: Size::S64,
            src: Location::Imm32(5),
            dst: Location::Memory(GPR::X27, 8),
        })
    );
}

#[test]
fn return_value_rejects_canonicalization() {
    let mut m = MachineARM64::new();
    let r = m.emit_function_return_value(
        singlepass_arm64::common::Type::F64,
        true,
        Location::GPR(GPR::X5),
    );
    assert_eq!(
        r,
        Err(CodegenError::UnsupportedReturn { size: Size::S64, loc: Location::GPR(GPR::X5) })
    );
}

#[test]
fn bounds_checked_load_is_covered_by_the_trap_table() {
    let mut m = MachineARM64::new();
    m.set_srcloc(42);
    let oob = m.get_label();
    let memarg = MemoryImmediate { offset: 0, align: 1 };
    m.i32_load(
        Location::GPR(GPR::X5),
        &memarg,
        Location::GPR(GPR::X6),
        true,
        false,
        0,
        oob,
    );
    let map = m.instructions_address_map();
    assert_eq!(map.len(), 1);
    let entry = map[0];
    assert_eq!(entry.srcloc.0, 42);
    assert!(entry.code_len > 0);
    let traps = m.collect_trap_information();
    let covered = traps.iter().any(|t| {
        t.trap_code == TrapCode::HeapAccessOutOfBounds
            && (t.code_offset as usize) >= entry.code_offset
            && (t.code_offset as usize) < entry.code_offset + entry.code_len
    });
    assert!(covered);
}

#[test]
fn stack_overflow_is_recorded_at_offset_zero() {
    let mut m = MachineARM64::new();
    m.emit_function_prolog();
    m.insert_stackoverflow();
    let traps = m.collect_trap_information();
    assert_eq!(traps.len(), 1);
    assert_eq!(traps[0].code_offset, 0);
    assert_eq!(traps[0].trap_code, TrapCode::StackOverflow);
}

#[test]
fn identical_runs_produce_identical_artifacts() {
    let build = || {
        let mut m = MachineARM64::new();
        m.set_srcloc(7);
        m.emit_function_prolog();
        let oob = m.get_label();
        let memarg = MemoryImmediate { offset: 65533, align: 4 };
        m.memory_op(
            Location::GPR(GPR::X5),
            &memarg,
            true,
            4,
            true,
            false,
            0,
            oob,
            singlepass_arm64::machine::MemoryAccess::Load32 { ret: Location::GPR(GPR::X6) },
        );
        m.emit_label(oob);
        m.emit_illegal_op();
        m.emit_function_epilog();
        m.emit_ret();
        let traps = m.collect_trap_information();
        let map = m.instructions_address_map();
        let code = m.assembler_finalize().unwrap();
        (code, traps, map)
    };
    let (c1, t1, m1) = build();
    let (c2, t2, m2) = build();
    assert_eq!(c1, c2);
    assert_eq!(t1, t2);
    assert_eq!(m1, m2);
}

#[test]
fn allocator_prefers_low_registers() {
    let mut m = MachineARM64::new();
    assert_eq!(m.pick_gpr(), Some(GPR::X0));
    assert_eq!(m.pick_temp_gpr(), Some(GPR::X0));
    let t = m.acquire_temp_gpr().unwrap();
    assert_eq!(t, GPR::X0);
    assert_eq!(m.pick_temp_gpr(), Some(GPR::X1));
    m.release_gpr(t);
    assert_eq!(m.pick_temp_gpr(), Some(GPR::X0));
    assert_eq!(m.pick_simd(), Some(NEON::V8));
    assert_eq!(m.pick_temp_simd(), Some(NEON::V0));
}

#[test]
fn allocator_exhaustion_returns_none() {
    let mut m = MachineARM64::new();
    for _ in 0..8 {
        assert!(m.acquire_temp_gpr().is_some());
    }
    assert_eq!(m.acquire_temp_gpr(), None);
}

#[test]
fn local_locations_use_callee_saved_registers_first() {
    let m = MachineARM64::new();
    assert_eq!(m.get_local_location(0, 64), Location::GPR(GPR::X18));
    assert_eq!(m.get_local_location(7, 64), Location::GPR(GPR::X25));
    assert_eq!(
        m.get_local_location(8, 64),
        Location::Memory(GPR::X27, -((8 - 3) * 8 + 64))
    );
    assert!(!m.is_local_on_stack(7));
    assert!(m.is_local_on_stack(8));
}

#[test]
fn param_locations_follow_the_calling_convention() {
    let m = MachineARM64::new();
    let conv = singlepass_arm64::common::CallingConvention::SystemV;
    assert_eq!(m.get_param_location(0, conv), Location::GPR(GPR::X0));
    assert_eq!(m.get_param_location(7, conv), Location::GPR(GPR::X7));
    assert_eq!(m.get_param_location(9, conv), Location::Memory(GPR::X27, 24));
}

#[test]
fn offset_encodability_matches_the_addressing_form() {
    let m = MachineARM64::new();
    assert!(m.offset_is_ok(Size::S64, 0));
    assert!(m.offset_is_ok(Size::S64, 32760));
    assert!(!m.offset_is_ok(Size::S64, 4));
    assert!(!m.offset_is_ok(Size::S64, -8));
    assert!(!m.offset_is_ok(Size::S64, 32768));
    assert!(m.offset_is_ok(Size::S32, 4));
    assert!(!m.offset_is_ok(Size::S32, 2));
}

#[test]
fn move_with_reloc_records_four_half_word_patches() {
    let mut m = MachineARM64::new();
    let mut relocs = Vec::new();
    m.move_with_reloc(RelocationTarget::LocalFunc(3), &mut relocs);
    assert_eq!(relocs.len(), 4);
    assert_eq!(relocs[0].kind, RelocationKind::Arm64Movw0);
    assert_eq!(relocs[3].kind, RelocationKind::Arm64Movw3);
    assert_eq!(relocs[0].offset, 0);
    assert_eq!(relocs[1].offset, 4);
    assert_eq!(relocs[2].offset, 8);
    assert_eq!(relocs[3].offset, 12);
    let code = m.assembler_finalize().unwrap();
    assert_eq!(code.len(), 16);
}

#[test]
fn fixed_registers_of_the_convention() {
    let mut m = MachineARM64::new();
    assert_eq!(m.get_vmctx_reg(), GPR::X28);
    assert_eq!(m.local_pointer(), GPR::X27);
    assert_eq!(m.get_grp_for_call(), GPR::X26);
    assert_eq!(m.get_gpr_for_ret(), GPR::X26);
    assert_eq!(m.get_simd_for_ret(), NEON::V0);
    assert!(!m.arch_supports_canonicalize_nan());
    assert_eq!(
        m.local_on_stack(16),
        Location::Memory(GPR::X27, -16)
    );
}
