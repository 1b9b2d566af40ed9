//! Trampoline generators: small fixed code sequences adapting between
//! the native calling convention and the uniform host-call convention.
//!
//! Each generator is stateless and produces a self-contained blob from
//! a function signature; none shares register-allocator state with a
//! function body under compilation. Arguments of the host-call
//! convention travel through an array of 16-byte value slots.

use vstd::prelude::*;

verus! {

use crate::CodegenError;
use crate::common::{
    CallingConvention, CustomSection, CustomSectionProtection, FunctionBody, FunctionType,
    SectionBody, VMOffsets,
};
use crate::emitter::{
    enc_blr, enc_br, enc_ldp_post, enc_ret, enc_stp_pre, ldr_word, mov_words, rnum, str_word,
    word_bytes, Assembler,
};
use crate::location::{GPR, Location, Size};

/// A signature the trampolines can adapt: at most seven register
/// parameters beside the context pointer, and at most one result.
pub open spec fn sig_supported(n_params: int, n_results: int) -> bool {
    n_params <= 7 && n_results <= 1
}

/// The loads that fill the native argument registers from the value
/// slots, for parameters `i` through `n - 1`.
pub open spec fn arg_load_words(i: int, n: int) -> Seq<u8>
    decreases n - i,
{
    if i < 0 || i >= n {
        Seq::empty()
    } else {
        word_bytes(
            ldr_word(
                Size::S64,
                Location::GPR(GPR::from_index_spec(i + 1)),
                Location::Memory(GPR::X19, (16 * i) as i32),
            ),
        ) + arg_load_words(i + 1, n)
    }
}

/// The stores that spill the native argument registers into the value
/// slots, for parameters `i` through `n - 1`.
pub open spec fn arg_spill_words(i: int, n: int) -> Seq<u8>
    decreases n - i,
{
    if i < 0 || i >= n {
        Seq::empty()
    } else {
        word_bytes(
            str_word(
                Size::S64,
                Location::GPR(GPR::from_index_spec(i + 1)),
                Location::Memory(GPR::XzrSp, (16 * i) as i32),
            ),
        ) + arg_spill_words(i + 1, n)
    }
}

/// The standard trampoline: adapt a call arriving in the host-call
/// convention (context in the first register, callee address in the
/// second, value-slot array in the third) into the callee's native
/// convention, and store the native result back into the first slot.
pub open spec fn std_trampoline_words(n_params: int, n_results: int) -> Seq<u8> {
    word_bytes(enc_stp_pre((128 - 16u32 / 8) as u32, rnum(GPR::X30), rnum(GPR::XzrSp), rnum(GPR::X19)))
        + mov_words(Size::S64, Location::GPR(GPR::X2), Location::GPR(GPR::X19)) + mov_words(
        Size::S64,
        Location::GPR(GPR::X1),
        Location::GPR(GPR::X26),
    ) + arg_load_words(0, n_params) + word_bytes(enc_blr(rnum(GPR::X26))) + (if n_results >= 1 {
        word_bytes(str_word(Size::S64, Location::GPR(GPR::X0), Location::Memory(GPR::X19, 0)))
    } else {
        Seq::empty()
    }) + word_bytes(enc_ldp_post((16u32 / 8) as u32, rnum(GPR::X30), rnum(GPR::XzrSp), rnum(GPR::X19)))
        + word_bytes(enc_ret())
}

/// The slot bytes a dynamic-import call allocates on the stack: one
/// 16-byte slot per parameter, and at least one for the result.
pub open spec fn dyn_alloc_bytes(n_params: int) -> int {
    16 * (if n_params > 0 { n_params } else { 1 })
}

/// The dynamic import trampoline: the mirror adaptation, spilling the
/// native register arguments into a stack-allocated value-slot array,
/// calling the host function through the pointer at the head of its
/// context, and loading the result back into the return register.
pub open spec fn dyn_trampoline_words(n_params: int, n_results: int) -> Seq<u8> {
    word_bytes(enc_stp_pre((128 - 16u32 / 8) as u32, rnum(GPR::X30), rnum(GPR::XzrSp), rnum(GPR::X27)))
        + word_bytes(
        crate::emitter::enc_addsub_imm(
            true,
            true,
            (dyn_alloc_bytes(n_params)) as u32,
            rnum(GPR::XzrSp),
            rnum(GPR::XzrSp),
        ),
    ) + arg_spill_words(0, n_params) + mov_words(
        Size::S64,
        Location::GPR(GPR::XzrSp),
        Location::GPR(GPR::X1),
    ) + word_bytes(
        ldr_word(Size::S64, Location::GPR(GPR::X26), Location::Memory(GPR::X0, 0)),
    ) + word_bytes(
        enc_blr(rnum(GPR::X26)),
    ) + (if n_results >= 1 {
        word_bytes(ldr_word(Size::S64, Location::GPR(GPR::X0), Location::Memory(GPR::XzrSp, 0)))
    } else {
        Seq::empty()
    }) + word_bytes(
        crate::emitter::enc_addsub_imm(
            false,
            true,
            (dyn_alloc_bytes(n_params)) as u32,
            rnum(GPR::XzrSp),
            rnum(GPR::XzrSp),
        ),
    ) + word_bytes(enc_ldp_post((16u32 / 8) as u32, rnum(GPR::X30), rnum(GPR::XzrSp), rnum(GPR::X27)))
        + word_bytes(enc_ret())
}

/// The per-import thunk: load the import's code pointer and context
/// from the fixed table reachable from the context register, then
/// tail-call into it.
pub open spec fn import_trampoline_words(off_body: u32, off_vmctx: u32) -> Seq<u8> {
    word_bytes(
        ldr_word(Size::S64, Location::GPR(GPR::X16), Location::Memory(GPR::X0, off_body as i32)),
    ) + word_bytes(
        ldr_word(Size::S64, Location::GPR(GPR::X0), Location::Memory(GPR::X0, off_vmctx as i32)),
    ) + word_bytes(enc_br(rnum(GPR::X16)))
}

/// Generate the standard host-to-native trampoline for a signature.
#[verifier::loop_isolation(false)]
pub fn gen_std_trampoline_arm64(sig: &FunctionType, calling_convention: CallingConvention) -> (r:
    Result<FunctionBody, CodegenError>)
    ensures
        sig_supported(sig.params@.len() as int, sig.results@.len() as int) ==> (r matches Ok(
            body,
        ) && body.body@ == std_trampoline_words(
            sig.params@.len() as int,
            sig.results@.len() as int,
        )),
        !sig_supported(sig.params@.len() as int, sig.results@.len() as int) ==> r == Err::<
            FunctionBody,
            CodegenError,
        >(CodegenError::UnsupportedSignature),
{
    let n_params = sig.params.len();
    let n_results = sig.results.len();
    if n_params > 7 || n_results > 1 {
        return Err(CodegenError::UnsupportedSignature);
    }
    let mut a = Assembler::new();
    a.emit_stpbd(Size::S64, Location::GPR(GPR::X19), Location::GPR(GPR::X30), GPR::XzrSp, 16);
    a.emit_mov(Size::S64, Location::GPR(GPR::X2), Location::GPR(GPR::X19));
    a.emit_mov(Size::S64, Location::GPR(GPR::X1), Location::GPR(GPR::X26));
    let ghost base = a@.code;
    let mut i: usize = 0;
    while i < n_params
        invariant
            i <= n_params,
            a@.wf(),
            a@.labels == Seq::<Option<usize>>::empty(),
            a@.fixups == Seq::<crate::emitter::Fixup>::empty(),
            base + arg_load_words(0, n_params as int) == a@.code + arg_load_words(
                i as int,
                n_params as int,
            ),
        decreases n_params - i,
    {
        let dst = GPR::from_index((i + 1) as u8);
        let ghost prev = a@.code;
        a.emit_ldr(
            Size::S64,
            Location::GPR(dst),
            Location::Memory(GPR::X19, (16 * i) as i32),
        );
        proof {
            assert(a@.code =~= prev + word_bytes(
                ldr_word(
                    Size::S64,
                    Location::GPR(GPR::from_index_spec(i as int + 1)),
                    Location::Memory(GPR::X19, (16 * i as int) as i32),
                ),
            ));
            assert(prev + (word_bytes(
                ldr_word(
                    Size::S64,
                    Location::GPR(GPR::from_index_spec(i as int + 1)),
                    Location::Memory(GPR::X19, (16 * i as int) as i32),
                ),
            ) + arg_load_words(i as int + 1, n_params as int)) =~= a@.code + arg_load_words(
                i as int + 1,
                n_params as int,
            ));
        }
        i = i + 1;
    }
    proof {
        assert(arg_load_words(n_params as int, n_params as int) =~= Seq::<u8>::empty());
        assert(a@.code + Seq::<u8>::empty() =~= a@.code);
    }
    a.emit_call_register(GPR::X26);
    if n_results >= 1 {
        a.emit_str(Size::S64, Location::GPR(GPR::X0), Location::Memory(GPR::X19, 0));
    }
    a.emit_ldpai(Size::S64, Location::GPR(GPR::X19), Location::GPR(GPR::X30), GPR::XzrSp, 16);
    a.emit_ret();
    match a.finalize() {
        Ok(body) => {
            proof {
                assert(body@ =~= std_trampoline_words(n_params as int, n_results as int));
            }
            Ok(FunctionBody { body })
        }
        Err(_) => {
            proof {
                assert(false);
            }
            Err(CodegenError::UnsupportedSignature)
        }
    }
}

/// Generate the native-to-host trampoline for a dynamic import.
#[verifier::loop_isolation(false)]
pub fn gen_std_dynamic_import_trampoline_arm64(
    vmoffsets: &VMOffsets,
    sig: &FunctionType,
    calling_convention: CallingConvention,
) -> (r: Result<FunctionBody, CodegenError>)
    ensures
        sig_supported(sig.params@.len() as int, sig.results@.len() as int) ==> (r matches Ok(
            body,
        ) && body.body@ == dyn_trampoline_words(
            sig.params@.len() as int,
            sig.results@.len() as int,
        )),
        !sig_supported(sig.params@.len() as int, sig.results@.len() as int) ==> r == Err::<
            FunctionBody,
            CodegenError,
        >(CodegenError::UnsupportedSignature),
{
    let n_params = sig.params.len();
    let n_results = sig.results.len();
    if n_params > 7 || n_results > 1 {
        return Err(CodegenError::UnsupportedSignature);
    }
    let alloc: u32 = 16 * (if n_params > 0 { n_params as u32 } else { 1 });
    let mut a = Assembler::new();
    a.emit_stpbd(Size::S64, Location::GPR(GPR::X27), Location::GPR(GPR::X30), GPR::XzrSp, 16);
    a.emit_sub(
        Size::S64,
        Location::GPR(GPR::XzrSp),
        Location::Imm32(alloc),
        Location::GPR(GPR::XzrSp),
    );
    let ghost base = a@.code;
    let mut i: usize = 0;
    while i < n_params
        invariant
            i <= n_params,
            a@.wf(),
            a@.labels == Seq::<Option<usize>>::empty(),
            a@.fixups == Seq::<crate::emitter::Fixup>::empty(),
            base + arg_spill_words(0, n_params as int) == a@.code + arg_spill_words(
                i as int,
                n_params as int,
            ),
        decreases n_params - i,
    {
        let src = GPR::from_index((i + 1) as u8);
        let ghost prev = a@.code;
        a.emit_str(
            Size::S64,
            Location::GPR(src),
            Location::Memory(GPR::XzrSp, (16 * i) as i32),
        );
        proof {
            assert(a@.code =~= prev + word_bytes(
                str_word(
                    Size::S64,
                    Location::GPR(GPR::from_index_spec(i as int + 1)),
                    Location::Memory(GPR::XzrSp, (16 * i as int) as i32),
                ),
            ));
            assert(prev + (word_bytes(
                str_word(
                    Size::S64,
                    Location::GPR(GPR::from_index_spec(i as int + 1)),
                    Location::Memory(GPR::XzrSp, (16 * i as int) as i32),
                ),
            ) + arg_spill_words(i as int + 1, n_params as int)) =~= a@.code + arg_spill_words(
                i as int + 1,
                n_params as int,
            ));
        }
        i = i + 1;
    }
    proof {
        assert(arg_spill_words(n_params as int, n_params as int) =~= Seq::<u8>::empty());
        assert(a@.code + Seq::<u8>::empty() =~= a@.code);
    }
    a.emit_mov(Size::S64, Location::GPR(GPR::XzrSp), Location::GPR(GPR::X1));
    let addr_off = vmoffsets.vmdynamicfunction_import_context_address();
    a.emit_ldr(Size::S64, Location::GPR(GPR::X26), Location::Memory(GPR::X0, addr_off as i32));
    a.emit_call_register(GPR::X26);
    if n_results >= 1 {
        a.emit_ldr(Size::S64, Location::GPR(GPR::X0), Location::Memory(GPR::XzrSp, 0));
    }
    a.emit_add(
        Size::S64,
        Location::GPR(GPR::XzrSp),
        Location::Imm32(alloc),
        Location::GPR(GPR::XzrSp),
    );
    a.emit_ldpai(Size::S64, Location::GPR(GPR::X27), Location::GPR(GPR::X30), GPR::XzrSp, 16);
    a.emit_ret();
    match a.finalize() {
        Ok(body) => {
            proof {
                assert(body@ =~= dyn_trampoline_words(n_params as int, n_results as int));
            }
            Ok(FunctionBody { body })
        }
        Err(_) => {
            proof {
                assert(false);
            }
            Err(CodegenError::UnsupportedSignature)
        }
    }
}

/// Generate the per-import thunk through which call sites reach an
/// imported function whose address is known only at load time.
pub fn gen_import_call_trampoline_arm64(
    vmoffsets: &VMOffsets,
    index: u32,
    sig: &FunctionType,
    calling_convention: CallingConvention,
) -> (r: CustomSection)
    requires
        vmoffsets.function_imports_begin + index * vmoffsets.import_entry_size()
            + vmoffsets.import_entry_size() <= u32::MAX,
        vmoffsets.pointer_size == 8,
        crate::emitter::uimm_ok(
            Size::S64,
            (vmoffsets.function_imports_begin + index * vmoffsets.import_entry_size()) as i32,
        ),
        crate::emitter::uimm_ok(
            Size::S64,
            (vmoffsets.function_imports_begin + index * vmoffsets.import_entry_size() + 8) as i32,
        ),
    ensures
        r.protection == CustomSectionProtection::ReadExecute,
        r.bytes.bytes@ == import_trampoline_words(
            (vmoffsets.function_imports_begin + index * vmoffsets.import_entry_size()) as u32,
            (vmoffsets.function_imports_begin + index * vmoffsets.import_entry_size() + 8) as u32,
        ),
        r.relocations@ == Seq::<crate::common::Relocation>::empty(),
{
    let off_body = vmoffsets.vmctx_vmfunction_import_body(index);
    let off_vmctx = vmoffsets.vmctx_vmfunction_import_vmctx(index);
    let mut a = Assembler::new();
    a.emit_ldr(Size::S64, Location::GPR(GPR::X16), Location::Memory(GPR::X0, off_body as i32));
    a.emit_ldr(Size::S64, Location::GPR(GPR::X0), Location::Memory(GPR::X0, off_vmctx as i32));
    a.emit_b_register(GPR::X16);
    match a.finalize() {
        Ok(bytes) => {
            proof {
                assert(bytes@ =~= import_trampoline_words(off_body, off_vmctx));
            }
            CustomSection {
                protection: CustomSectionProtection::ReadExecute,
                bytes: SectionBody { bytes },
                relocations: Vec::new(),
            }
        }
        Err(_) => {
            proof {
                assert(false);
            }
            CustomSection {
                protection: CustomSectionProtection::ReadExecute,
                bytes: SectionBody { bytes: Vec::new() },
                relocations: Vec::new(),
            }
        }
    }
}

} // verus!
