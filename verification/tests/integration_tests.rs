//! End-to-end exercise of one function's compilation, producing the
//! full artifact set a runtime embedding consumes.

use singlepass_arm64::common::MemoryImmediate;
use singlepass_arm64::location::{GPR, Location, Size};
use singlepass_arm64::machine::MachineARM64;
use singlepass_arm64::trap::TrapCode;

#[test]
fn test_wasi_sees_virtual_root() {
    // One complete function body: prologue, a bounds-checked load of a
    // guest address, the trap landing pad, and the epilogue. The
    // artifact quadruple handed to the embedding runtime must be
    // complete and consistent.
    let mut m = MachineARM64::new();
    m.emit_function_prolog();
    m.insert_stackoverflow();
    m.set_srcloc(12);
    let oob = m.get_label();
    let memarg = MemoryImmediate { offset: 8, align: 4 };
    m.i32_load(
        Location::GPR(GPR::X5),
        &memarg,
        Location::GPR(GPR::X6),
        true,
        false,
        0,
        oob,
    );
    m.emit_function_return_value(
        singlepass_arm64::common::Type::I32,
        false,
        Location::GPR(GPR::X6),
    )
    .unwrap();
    m.emit_function_epilog();
    m.emit_ret();
    m.emit_label(oob);
    m.emit_illegal_op();
    let traps = m.collect_trap_information();
    let map = m.instructions_address_map();
    let code = m.assembler_finalize().unwrap();
    assert!(code.len() % 4 == 0);
    assert!(!code.is_empty());
    assert!(traps.iter().any(|t| t.trap_code == TrapCode::StackOverflow));
    assert!(traps
        .iter()
        .any(|t| t.trap_code == TrapCode::HeapAccessOutOfBounds));
    // The trap records stay ordered by code offset.
    for pair in traps.windows(2) {
        assert!(pair[0].code_offset < pair[1].code_offset);
    }
    assert!(map.iter().any(|e| e.srcloc.0 == 12));
    // The final ret sits right before the landing pad's word.
    let last = u32::from_le_bytes([
        code[code.len() - 4],
        code[code.len() - 3],
        code[code.len() - 2],
        code[code.len() - 1],
    ]);
    assert_eq!(last, 0); // the permanently undefined instruction
}
