//! The code generation engine for the ARM64 target.
//!
//! A `MachineARM64` consumes one virtual-stack operation at a time from
//! the driver: it decides operand locations, emits relaxed
//! (location-polymorphic) move and binary-operation sequences, manages
//! the stack frame with a 16-byte push/pop parity discipline, emits
//! bounds-checking sequences for guest memory accesses, and records
//! trap and source-map metadata, all against a free-list register
//! allocator scoped to one function's compilation.

use vstd::prelude::*;

verus! {

use crate::CodegenError;
use crate::common::RegisterIndex;
use crate::emitter::{AsmModel, Assembler, Fixup, Label};
use crate::location::{Condition, GPR, Location, NEON, Size};
use crate::trap::{
    tt_sorted, InstructionAddressMap, SourceLoc, TrapCode, TrapInformation, TrapTable,
};

/// Mathematical model of one machine instance: the assembler state, the
/// two in-use register sets (indexed by register number), the trap
/// table, the instruction-address map, the current source location and
/// the stack-pointer parity flag.
pub ghost struct MachineModel {
    pub emitter: AsmModel,
    pub used_gprs: Seq<bool>,
    pub used_simd: Seq<bool>,
    pub traps: Seq<TrapInformation>,
    pub addr_map: Seq<InstructionAddressMap>,
    pub src_loc: u32,
    pub pushed: bool,
}

impl MachineModel {
    /// Well-formedness of a machine instance.
    pub open spec fn wf(self) -> bool {
        &&& self.emitter.wf()
        &&& self.used_gprs.len() == 32
        &&& self.used_simd.len() == 32
        &&& tt_sorted(self.traps)
    }

    /// The code emitted so far.
    pub open spec fn code(self) -> Seq<u8> {
        self.emitter.code
    }

    /// The model of a freshly created machine.
    pub open spec fn init() -> MachineModel {
        MachineModel {
            emitter: AsmModel {
                code: Seq::empty(),
                labels: Seq::empty(),
                fixups: Seq::empty(),
            },
            used_gprs: Seq::new(32, |i: int| false),
            used_simd: Seq::new(32, |i: int| false),
            traps: Seq::empty(),
            addr_map: Seq::empty(),
            src_loc: 0,
            pushed: false,
        }
    }
}

/// The lowest free register number in `[lo, hi)`, if any.
pub open spec fn first_free_in(used: Seq<bool>, lo: int, hi: int) -> Option<int>
    decreases hi - lo,
{
    if lo >= hi {
        None
    } else if !used[lo] {
        Some(lo)
    } else {
        first_free_in(used, lo + 1, hi)
    }
}

/// How many registers of `[lo, hi)` are free.
pub open spec fn free_count(used: Seq<bool>, lo: int, hi: int) -> int
    decreases hi - lo,
{
    if lo >= hi {
        0
    } else {
        (if !used[lo] { 1int } else { 0int }) + free_count(used, lo + 1, hi)
    }
}

/// A positive free count yields a pick, and the pick is a free register
/// of the range.
pub proof fn lemma_first_free_exists(used: Seq<bool>, lo: int, hi: int)
    requires
        free_count(used, lo, hi) > 0,
    ensures
        first_free_in(used, lo, hi) matches Some(i) && lo <= i < hi && !used[i],
    decreases hi - lo,
{
    if lo < hi && used[lo] {
        lemma_first_free_exists(used, lo + 1, hi);
    }
}

/// A successful pick names a free register of the range.
pub proof fn lemma_first_free_props(used: Seq<bool>, lo: int, hi: int)
    requires
        first_free_in(used, lo, hi) is Some,
    ensures
        first_free_in(used, lo, hi) matches Some(i) && lo <= i < hi && !used[i],
    decreases hi - lo,
{
    if lo < hi && used[lo] {
        lemma_first_free_props(used, lo + 1, hi);
    }
}

/// Marking a register outside `[lo, hi)` changes neither the count nor
/// the pick.
pub proof fn lemma_free_range_untouched(used: Seq<bool>, lo: int, hi: int, j: int, v: bool)
    requires
        0 <= j < used.len(),
        j < lo || j >= hi,
        0 <= lo,
        hi <= used.len(),
    ensures
        free_count(used.update(j, v), lo, hi) == free_count(used, lo, hi),
        first_free_in(used.update(j, v), lo, hi) == first_free_in(used, lo, hi),
    decreases hi - lo,
{
    if lo < hi {
        lemma_free_range_untouched(used, lo + 1, hi, j, v);
    }
}

/// Marking a free register of the range in use lowers the count by one.
pub proof fn lemma_free_count_acquire(used: Seq<bool>, lo: int, hi: int, j: int)
    requires
        lo <= j < hi,
        hi <= used.len(),
        0 <= lo,
        !used[j],
    ensures
        free_count(used.update(j, true), lo, hi) == free_count(used, lo, hi) - 1,
    decreases hi - lo,
{
    if lo < j {
        lemma_free_count_acquire(used, lo + 1, hi, j);
    } else {
        lemma_free_range_untouched(used, lo + 1, hi, j, true);
    }
}

/// The code generation engine: the orchestrator of one function's
/// compilation.
pub struct MachineARM64 {
    assembler: Assembler,
    used_gprs: Vec<bool>,
    used_simd: Vec<bool>,
    trap_table: TrapTable,
    instructions_address_map: Vec<InstructionAddressMap>,
    src_loc: u32,
    pushed: bool,
}

impl View for MachineARM64 {
    type V = MachineModel;

    closed spec fn view(&self) -> MachineModel {
        MachineModel {
            emitter: self.assembler@,
            used_gprs: self.used_gprs@,
            used_simd: self.used_simd@,
            traps: self.trap_table@,
            addr_map: self.instructions_address_map@,
            src_loc: self.src_loc,
            pushed: self.pushed,
        }
    }
}

/// A vector of 32 register-in-use flags, all clear.
fn fresh_reg_flags() -> (r: Vec<bool>)
    ensures
        r@ =~= Seq::new(32, |i: int| false),
{
    let mut r: Vec<bool> = Vec::new();
    let mut i: usize = 0;
    while i < 32
        invariant
            i <= 32,
            r@.len() == i,
            forall|j: int| 0 <= j < i ==> !(#[trigger] r@[j]),
        decreases 32 - i,
    {
        r.push(false);
        i = i + 1;
    }
    r
}

impl MachineARM64 {
    /// A fresh machine: empty code buffer, no labels, all registers
    /// free, no trap records, stack parity aligned.
    pub fn new() -> (r: MachineARM64)
        ensures
            r@.wf(),
            r@ == MachineModel::init(),
    {
        let r = MachineARM64 {
            assembler: Assembler::new(),
            used_gprs: fresh_reg_flags(),
            used_simd: fresh_reg_flags(),
            trap_table: TrapTable::new(),
            instructions_address_map: Vec::new(),
            src_loc: 0,
            pushed: false,
        };
        proof {
            assert(r@.emitter == MachineModel::init().emitter);
            assert(r@ == MachineModel::init());
        }
        r
    }

    /// Current byte offset in the code buffer.
    pub fn assembler_get_offset(&self) -> (o: usize)
        ensures
            o == self@.code().len(),
    {
        self.assembler.get_offset()
    }

    /// Current byte offset in the code buffer.
    pub fn get_offset(&self) -> (o: usize)
        ensures
            o == self@.code().len(),
    {
        self.assembler.get_offset()
    }

    /// Flat index of a general-purpose register.
    pub fn index_from_gpr(&self, x: GPR) -> (r: RegisterIndex)
        ensures
            r == (RegisterIndex(x.index() as usize)),
    {
        RegisterIndex(x.to_index() as usize)
    }

    /// Flat index of a vector register, after the general ones.
    pub fn index_from_simd(&self, x: NEON) -> (r: RegisterIndex)
        ensures
            r == (RegisterIndex((x.index() + 32) as usize)),
    {
        RegisterIndex(x.to_index() as usize + 32)
    }

    /// The register holding the runtime context pointer.
    pub fn get_vmctx_reg(&self) -> (r: GPR)
        ensures
            r == GPR::X28,
    {
        GPR::X28
    }

    /// Pick the lowest free general-purpose register of the allocatable
    /// candidates, without marking it.
    pub fn pick_gpr(&self) -> (r: Option<GPR>)
        requires
            self@.wf(),
        ensures
            match first_free_in(self@.used_gprs, 0, 16) {
                Some(i) => r matches Some(g) && g.index() == i && g == GPR::from_index_spec(i),
                None => r is None,
            },
    {
        self.pick_gpr_range(0, 16)
    }

    /// Pick the lowest free temporary register, without marking it.
    /// Temporaries are drawn from a smaller candidate set that excludes
    /// the registers reserved for locals, the frame pointer and the
    /// context pointer, so a temporary never aliases a live local.
    pub fn pick_temp_gpr(&self) -> (r: Option<GPR>)
        requires
            self@.wf(),
        ensures
            match first_free_in(self@.used_gprs, 0, 8) {
                Some(i) => r matches Some(g) && g.index() == i && g == GPR::from_index_spec(i),
                None => r is None,
            },
    {
        self.pick_gpr_range(0, 8)
    }

    /// Scan `[lo, hi)` for the lowest free general-purpose register.
    fn pick_gpr_range(&self, lo: u8, hi: u8) -> (r: Option<GPR>)
        requires
            self@.wf(),
            lo <= hi,
            hi <= 32,
        ensures
            match first_free_in(self@.used_gprs, lo as int, hi as int) {
                Some(i) => r matches Some(g) && g.index() == i && g == GPR::from_index_spec(i),
                None => r is None,
            },
    {
        let mut i: u8 = lo;
        while i < hi
            invariant
                self@.wf(),
                lo <= i <= hi,
                hi <= 32,
                first_free_in(self@.used_gprs, lo as int, hi as int) == first_free_in(
                    self@.used_gprs,
                    i as int,
                    hi as int,
                ),
            decreases hi - i,
        {
            if !self.used_gprs[i as usize] {
                return Some(GPR::from_index(i));
            }
            i = i + 1;
        }
        None
    }

    /// Scan `[lo, hi)` for the lowest free vector register.
    fn pick_simd_range(&self, lo: u8, hi: u8) -> (r: Option<NEON>)
        requires
            self@.wf(),
            lo <= hi,
            hi <= 32,
        ensures
            match first_free_in(self@.used_simd, lo as int, hi as int) {
                Some(i) => r matches Some(g) && g.index() == i && g == NEON::from_index_spec(i),
                None => r is None,
            },
    {
        let mut i: u8 = lo;
        while i < hi
            invariant
                self@.wf(),
                lo <= i <= hi,
                hi <= 32,
                first_free_in(self@.used_simd, lo as int, hi as int) == first_free_in(
                    self@.used_simd,
                    i as int,
                    hi as int,
                ),
            decreases hi - i,
        {
            if !self.used_simd[i as usize] {
                return Some(NEON::from_index(i));
            }
            i = i + 1;
        }
        None
    }

    /// Pick the lowest free allocatable vector register, without
    /// marking it.
    pub fn pick_simd(&self) -> (r: Option<NEON>)
        requires
            self@.wf(),
        ensures
            match first_free_in(self@.used_simd, 8, 13) {
                Some(i) => r matches Some(g) && g.index() == i && g == NEON::from_index_spec(i),
                None => r is None,
            },
    {
        self.pick_simd_range(8, 13)
    }

    /// Pick the lowest free temporary vector register, without marking
    /// it.
    pub fn pick_temp_simd(&self) -> (r: Option<NEON>)
        requires
            self@.wf(),
        ensures
            match first_free_in(self@.used_simd, 0, 8) {
                Some(i) => r matches Some(g) && g.index() == i && g == NEON::from_index_spec(i),
                None => r is None,
            },
    {
        self.pick_simd_range(0, 8)
    }

    /// Pick a temporary register and mark it in use; `None` when the
    /// temporaries are exhausted, which the caller must treat as fatal.
    pub fn acquire_temp_gpr(&mut self) -> (r: Option<GPR>)
        requires
            old(self)@.wf(),
        ensures
            final(self)@.wf(),
            match first_free_in(old(self)@.used_gprs, 0, 8) {
                Some(i) => r matches Some(g) && g.index() == i && g == GPR::from_index_spec(i)
                    && final(self)@ == (MachineModel {
                    used_gprs: old(self)@.used_gprs.update(i, true),
                    ..old(self)@
                }),
                None => r is None && final(self)@ == old(self)@,
            },
    {
        let picked = self.pick_temp_gpr();
        match picked {
            Some(g) => {
                let idx = g.to_index() as usize;
                self.used_gprs.set(idx, true);
                Some(g)
            }
            None => None,
        }
    }

    /// Remove a register from the in-use set. Releasing a register that
    /// is not held is a compiler-internal bug, ruled out by contract.
    pub fn release_gpr(&mut self, gpr: GPR)
        requires
            old(self)@.wf(),
            old(self)@.used_gprs[gpr.index()],
        ensures
            final(self)@.wf(),
            final(self)@ == (MachineModel {
                used_gprs: old(self)@.used_gprs.update(gpr.index(), false),
                ..old(self)@
            }),
    {
        let idx = gpr.to_index() as usize;
        self.used_gprs.set(idx, false);
    }

    /// Forcibly mark a specific register in use; it must be free, as
    /// when a calling convention pins a value to a fixed register.
    pub fn reserve_unused_temp_gpr(&mut self, gpr: GPR) -> (r: GPR)
        requires
            old(self)@.wf(),
            !old(self)@.used_gprs[gpr.index()],
        ensures
            final(self)@.wf(),
            r == gpr,
            final(self)@ == (MachineModel {
                used_gprs: old(self)@.used_gprs.update(gpr.index(), true),
                ..old(self)@
            }),
    {
        let idx = gpr.to_index() as usize;
        self.used_gprs.set(idx, true);
        gpr
    }

    /// Mark a specific register in use, whether or not it already was.
    pub fn reserve_gpr(&mut self, gpr: GPR)
        requires
            old(self)@.wf(),
        ensures
            final(self)@.wf(),
            final(self)@ == (MachineModel {
                used_gprs: old(self)@.used_gprs.update(gpr.index(), true),
                ..old(self)@
            }),
    {
        let idx = gpr.to_index() as usize;
        self.used_gprs.set(idx, true);
    }

    /// Pick a temporary vector register and mark it in use.
    pub fn acquire_temp_simd(&mut self) -> (r: Option<NEON>)
        requires
            old(self)@.wf(),
        ensures
            final(self)@.wf(),
            match first_free_in(old(self)@.used_simd, 0, 8) {
                Some(i) => r matches Some(g) && g.index() == i && g == NEON::from_index_spec(i)
                    && final(self)@ == (MachineModel {
                    used_simd: old(self)@.used_simd.update(i, true),
                    ..old(self)@
                }),
                None => r is None && final(self)@ == old(self)@,
            },
    {
        let picked = self.pick_temp_simd();
        match picked {
            Some(g) => {
                let idx = g.to_index() as usize;
                self.used_simd.set(idx, true);
                Some(g)
            }
            None => None,
        }
    }

    /// Mark a specific vector register in use.
    pub fn reserve_simd(&mut self, simd: NEON)
        requires
            old(self)@.wf(),
        ensures
            final(self)@.wf(),
            final(self)@ == (MachineModel {
                used_simd: old(self)@.used_simd.update(simd.index(), true),
                ..old(self)@
            }),
    {
        let idx = simd.to_index() as usize;
        self.used_simd.set(idx, true);
    }

    /// Remove a vector register from the in-use set; it must be held.
    pub fn release_simd(&mut self, simd: NEON)
        requires
            old(self)@.wf(),
            old(self)@.used_simd[simd.index()],
        ensures
            final(self)@.wf(),
            final(self)@ == (MachineModel {
                used_simd: old(self)@.used_simd.update(simd.index(), false),
                ..old(self)@
            }),
    {
        let idx = simd.to_index() as usize;
        self.used_simd.set(idx, false);
    }
}

/// The machine model with `bytes` appended to the code buffer.
pub open spec fn with_code(m: MachineModel, bytes: Seq<u8>) -> MachineModel {
    MachineModel {
        emitter: AsmModel { code: m.emitter.code + bytes, ..m.emitter },
        ..m
    }
}

/// The value of an optional register number, defaulting to zero.
pub open spec fn opt_reg(o: Option<int>) -> int {
    match o {
        Some(i) => i,
        None => 0,
    }
}

/// The free temporary register a read-only pick returns.
pub open spec fn picked_temp(m: MachineModel) -> GPR {
    GPR::from_index_spec(opt_reg(first_free_in(m.used_gprs, 0, 8)))
}

/// Operand shapes a single push or pop can handle: a 64-bit general or
/// vector register.
pub open spec fn push_supported(sz: Size, loc: Location) -> bool {
    sz is S64 && (loc is GPR || loc is SIMD)
}

/// The bytes of one single push: a fresh 16-byte slot is allocated and
/// its low half used when the stack is currently aligned; otherwise the
/// high half of the previously allocated slot is filled.
pub open spec fn push_words(pushed: bool, src: Location) -> Seq<u8> {
    if pushed {
        crate::emitter::word_bytes(
            crate::emitter::str_word(Size::S64, src, Location::Memory(GPR::XzrSp, 8)),
        )
    } else {
        crate::emitter::word_bytes(
            crate::emitter::addsub_word(
                true,
                Size::S64,
                Location::GPR(GPR::XzrSp),
                Location::Imm8(16),
                Location::GPR(GPR::XzrSp),
            ),
        ) + crate::emitter::word_bytes(
            crate::emitter::str_word(Size::S64, src, Location::Memory(GPR::XzrSp, 0)),
        )
    }
}

/// The bytes of one single pop, mirroring `push_words`.
pub open spec fn pop_words(pushed: bool, dst: Location) -> Seq<u8> {
    if pushed {
        crate::emitter::word_bytes(
            crate::emitter::ldr_word(Size::S64, dst, Location::Memory(GPR::XzrSp, 0)),
        ) + crate::emitter::word_bytes(
            crate::emitter::addsub_word(
                false,
                Size::S64,
                Location::GPR(GPR::XzrSp),
                Location::Imm8(16),
                Location::GPR(GPR::XzrSp),
            ),
        )
    } else {
        crate::emitter::word_bytes(
            crate::emitter::ldr_word(Size::S64, dst, Location::Memory(GPR::XzrSp, 8)),
        )
    }
}

/// One single push: the emitted bytes and the flipped parity flag.
pub open spec fn model_emit_push(m: MachineModel, src: Location) -> MachineModel {
    MachineModel { pushed: !m.pushed, ..with_code(m, push_words(m.pushed, src)) }
}

/// One single pop: the emitted bytes and the flipped parity flag.
pub open spec fn model_emit_pop(m: MachineModel, dst: Location) -> MachineModel {
    MachineModel { pushed: !m.pushed, ..with_code(m, pop_words(m.pushed, dst)) }
}

/// A paired push of two registers: a single paired store when the
/// stack is aligned and both operands are eligible, two sequential
/// pushes otherwise.
pub open spec fn model_double_push(m: MachineModel, src1: Location, src2: Location)
    -> MachineModel {
    if !m.pushed && src1 is GPR && src2 is GPR {
        with_code(
            m,
            crate::emitter::word_bytes(
                crate::emitter::enc_stp_pre(
                    (128 - 16u32 / 8) as u32,
                    crate::emitter::rnum(src2->GPR_0),
                    crate::emitter::rnum(GPR::XzrSp),
                    crate::emitter::rnum(src1->GPR_0),
                ),
            ),
        )
    } else {
        model_emit_push(model_emit_push(m, src1), src2)
    }
}

/// A paired pop of two registers, mirroring `model_double_push`.
pub open spec fn model_double_pop(m: MachineModel, dst1: Location, dst2: Location)
    -> MachineModel {
    if !m.pushed && dst1 is GPR && dst2 is GPR {
        with_code(
            m,
            crate::emitter::word_bytes(
                crate::emitter::enc_ldp_post(
                    (16u32 / 8) as u32,
                    crate::emitter::rnum(dst2->GPR_0),
                    crate::emitter::rnum(GPR::XzrSp),
                    crate::emitter::rnum(dst1->GPR_0),
                ),
            ),
        )
    } else {
        model_emit_pop(model_emit_pop(m, dst2), dst1)
    }
}

/// The bytes that move the stack pointer by `delta`: one immediate-form
/// instruction when `delta` fits, otherwise a temporary register is
/// materialized and a register-form instruction used.
pub open spec fn sp_adjust_words(m: MachineModel, delta: u32, is_sub: bool) -> Seq<u8> {
    if delta < 256 {
        crate::emitter::word_bytes(
            crate::emitter::addsub_word(
                is_sub,
                Size::S64,
                Location::GPR(GPR::XzrSp),
                Location::Imm8(delta as u8),
                Location::GPR(GPR::XzrSp),
            ),
        )
    } else {
        crate::emitter::mov_imm64_words(delta as u64, crate::emitter::rnum(picked_temp(m)))
            + crate::emitter::word_bytes(
            crate::emitter::addsub_word(
                is_sub,
                Size::S64,
                Location::GPR(GPR::XzrSp),
                Location::GPR(picked_temp(m)),
                Location::GPR(GPR::XzrSp),
            ),
        )
    }
}

/// The in-use general-purpose registers with numbers in `[lo, 32)`, in
/// ascending register order.
pub open spec fn used_gpr_list(used: Seq<bool>, lo: int) -> Seq<GPR>
    decreases 32 - lo,
{
    if lo < 0 || lo >= 32 {
        Seq::empty()
    } else if used[lo] {
        seq![GPR::from_index_spec(lo)] + used_gpr_list(used, lo + 1)
    } else {
        used_gpr_list(used, lo + 1)
    }
}

/// The in-use vector registers with numbers in `[lo, 32)`, in ascending
/// register order.
pub open spec fn used_simd_list(used: Seq<bool>, lo: int) -> Seq<NEON>
    decreases 32 - lo,
{
    if lo < 0 || lo >= 32 {
        Seq::empty()
    } else if used[lo] {
        seq![NEON::from_index_spec(lo)] + used_simd_list(used, lo + 1)
    } else {
        used_simd_list(used, lo + 1)
    }
}

impl MachineARM64 {
    /// The currently in-use general-purpose registers, in ascending
    /// register order.
    pub fn get_used_gprs(&self) -> (r: Vec<GPR>)
        requires
            self@.wf(),
        ensures
            r@ == used_gpr_list(self@.used_gprs, 0),
    {
        let mut r: Vec<GPR> = Vec::new();
        let mut i: u8 = 0;
        while i < 32
            invariant
                self@.wf(),
                i <= 32,
                r@ + used_gpr_list(self@.used_gprs, i as int) == used_gpr_list(self@.used_gprs, 0),
            decreases 32 - i,
        {
            let ghost prev = r@;
            if self.used_gprs[i as usize] {
                r.push(GPR::from_index(i));
                proof {
                    assert(r@ =~= prev + seq![GPR::from_index_spec(i as int)]);
                    assert((prev + seq![GPR::from_index_spec(i as int)]) + used_gpr_list(
                        self@.used_gprs,
                        i as int + 1,
                    ) =~= prev + (seq![GPR::from_index_spec(i as int)] + used_gpr_list(
                        self@.used_gprs,
                        i as int + 1,
                    )));
                }
            }
            i = i + 1;
        }
        proof {
            assert(used_gpr_list(self@.used_gprs, 32) =~= Seq::<GPR>::empty());
            assert(r@ + Seq::<GPR>::empty() =~= r@);
        }
        r
    }

    /// The currently in-use vector registers, in ascending register
    /// order.
    pub fn get_used_simd(&self) -> (r: Vec<NEON>)
        requires
            self@.wf(),
        ensures
            r@ == used_simd_list(self@.used_simd, 0),
    {
        let mut r: Vec<NEON> = Vec::new();
        let mut i: u8 = 0;
        while i < 32
            invariant
                self@.wf(),
                i <= 32,
                r@ + used_simd_list(self@.used_simd, i as int) == used_simd_list(
                    self@.used_simd,
                    0,
                ),
            decreases 32 - i,
        {
            let ghost prev = r@;
            if self.used_simd[i as usize] {
                r.push(NEON::from_index(i));
                proof {
                    assert(r@ =~= prev + seq![NEON::from_index_spec(i as int)]);
                    assert((prev + seq![NEON::from_index_spec(i as int)]) + used_simd_list(
                        self@.used_simd,
                        i as int + 1,
                    ) =~= prev + (seq![NEON::from_index_spec(i as int)] + used_simd_list(
                        self@.used_simd,
                        i as int + 1,
                    )));
                }
            }
            i = i + 1;
        }
        proof {
            assert(used_simd_list(self@.used_simd, 32) =~= Seq::<NEON>::empty());
            assert(r@ + Seq::<NEON>::empty() =~= r@);
        }
        r
    }
}

/// Executable form of `push_supported`.
fn push_ok(sz: Size, loc: Location) -> (b: bool)
    ensures
        b == push_supported(sz, loc),
{
    match (sz, loc) {
        (Size::S64, Location::GPR(_)) | (Size::S64, Location::SIMD(_)) => true,
        _ => false,
    }
}

impl MachineARM64 {
    /// One single 64-bit push of a register operand.
    fn push64(&mut self, src: Location)
        requires
            old(self)@.wf(),
            push_supported(Size::S64, src),
        ensures
            final(self)@.wf(),
            final(self)@ == model_emit_push(old(self)@, src),
    {
        if self.pushed {
            self.assembler.emit_str(Size::S64, src, Location::Memory(GPR::XzrSp, 8));
        } else {
            self.assembler.emit_sub(
                Size::S64,
                Location::GPR(GPR::XzrSp),
                Location::Imm8(16),
                Location::GPR(GPR::XzrSp),
            );
            self.assembler.emit_str(Size::S64, src, Location::Memory(GPR::XzrSp, 0));
            proof {
                assert(self@.emitter.code =~= old(self)@.emitter.code + push_words(
                    old(self)@.pushed,
                    src,
                ));
            }
        }
        self.pushed = !self.pushed;
    }

    /// One single 64-bit pop into a register operand.
    fn pop64(&mut self, dst: Location)
        requires
            old(self)@.wf(),
            push_supported(Size::S64, dst),
        ensures
            final(self)@.wf(),
            final(self)@ == model_emit_pop(old(self)@, dst),
    {
        if self.pushed {
            self.assembler.emit_ldr(Size::S64, dst, Location::Memory(GPR::XzrSp, 0));
            self.assembler.emit_add(
                Size::S64,
                Location::GPR(GPR::XzrSp),
                Location::Imm8(16),
                Location::GPR(GPR::XzrSp),
            );
            proof {
                assert(self@.emitter.code =~= old(self)@.emitter.code + pop_words(
                    old(self)@.pushed,
                    dst,
                ));
            }
        } else {
            self.assembler.emit_ldr(Size::S64, dst, Location::Memory(GPR::XzrSp, 8));
        }
        self.pushed = !self.pushed;
    }

    /// Push one value on the native stack, keeping the 16-byte parity
    /// discipline; only a 64-bit register operand can be pushed.
    pub fn emit_push(&mut self, sz: Size, src: Location) -> (r: Result<(), CodegenError>)
        requires
            old(self)@.wf(),
        ensures
            final(self)@.wf(),
            push_supported(sz, src) ==> r is Ok && final(self)@ == model_emit_push(
                old(self)@,
                src,
            ),
            !push_supported(sz, src) ==> r == Err::<(), CodegenError>(
                (CodegenError::UnsupportedPush { size: sz, loc: src }),
            ) && final(self)@ == old(self)@,
    {
        match (sz, src) {
            (Size::S64, Location::GPR(_)) | (Size::S64, Location::SIMD(_)) => {
                self.push64(src);
                Ok(())
            }
            _ => Err(CodegenError::UnsupportedPush { size: sz, loc: src }),
        }
    }

    /// Pop one value from the native stack; only a 64-bit register
    /// operand can be popped.
    pub fn emit_pop(&mut self, sz: Size, dst: Location) -> (r: Result<(), CodegenError>)
        requires
            old(self)@.wf(),
        ensures
            final(self)@.wf(),
            push_supported(sz, dst) ==> r is Ok && final(self)@ == model_emit_pop(old(self)@, dst),
            !push_supported(sz, dst) ==> r == Err::<(), CodegenError>(
                (CodegenError::UnsupportedPop { size: sz, loc: dst }),
            ) && final(self)@ == old(self)@,
    {
        match (sz, dst) {
            (Size::S64, Location::GPR(_)) | (Size::S64, Location::SIMD(_)) => {
                self.pop64(dst);
                Ok(())
            }
            _ => Err(CodegenError::UnsupportedPop { size: sz, loc: dst }),
        }
    }

    /// Push two values, preferring a single paired store when the stack
    /// is aligned and both operands are 64-bit general registers; the
    /// two paths leave identical observable stack contents.
    pub fn emit_double_push(&mut self, sz: Size, src1: Location, src2: Location) -> (r: Result<
        (),
        CodegenError,
    >)
        requires
            old(self)@.wf(),
        ensures
            final(self)@.wf(),
            push_supported(sz, src1) && push_supported(sz, src2) ==> r is Ok && final(self)@
                == model_double_push(old(self)@, src1, src2),
            !push_supported(sz, src1) ==> final(self)@ == old(self)@ && r == Err::<
                (),
                CodegenError,
            >((CodegenError::UnsupportedPush { size: sz, loc: src1 })),
            push_supported(sz, src1) && !push_supported(sz, src2) ==> final(self)@ == old(self)@
                && r == Err::<(), CodegenError>(
                (CodegenError::UnsupportedPush { size: sz, loc: src2 }),
            ),
    {
        if !push_ok(sz, src1) {
            return Err(CodegenError::UnsupportedPush { size: sz, loc: src1 });
        }
        if !push_ok(sz, src2) {
            return Err(CodegenError::UnsupportedPush { size: sz, loc: src2 });
        }
        if !self.pushed {
            match (sz, src1, src2) {
                (Size::S64, Location::GPR(_), Location::GPR(_)) => {
                    self.assembler.emit_stpbd(Size::S64, src1, src2, GPR::XzrSp, 16);
                    return Ok(());
                }
                _ => {}
            }
        }
        self.push64(src1);
        self.push64(src2);
        Ok(())
    }

    /// Pop two values, mirroring `emit_double_push`.
    pub fn emit_double_pop(&mut self, sz: Size, dst1: Location, dst2: Location) -> (r: Result<
        (),
        CodegenError,
    >)
        requires
            old(self)@.wf(),
        ensures
            final(self)@.wf(),
            push_supported(sz, dst1) && push_supported(sz, dst2) ==> r is Ok && final(self)@
                == model_double_pop(old(self)@, dst1, dst2),
            !push_supported(sz, dst1) ==> final(self)@ == old(self)@ && r == Err::<
                (),
                CodegenError,
            >((CodegenError::UnsupportedPop { size: sz, loc: dst1 })),
            push_supported(sz, dst1) && !push_supported(sz, dst2) ==> final(self)@ == old(self)@
                && r == Err::<(), CodegenError>(
                (CodegenError::UnsupportedPop { size: sz, loc: dst2 }),
            ),
    {
        if !push_ok(sz, dst1) {
            return Err(CodegenError::UnsupportedPop { size: sz, loc: dst1 });
        }
        if !push_ok(sz, dst2) {
            return Err(CodegenError::UnsupportedPop { size: sz, loc: dst2 });
        }
        if !self.pushed {
            match (sz, dst1, dst2) {
                (Size::S64, Location::GPR(_), Location::GPR(_)) => {
                    self.assembler.emit_ldpai(Size::S64, dst1, dst2, GPR::XzrSp, 16);
                    return Ok(());
                }
                _ => {}
            }
        }
        self.pop64(dst2);
        self.pop64(dst1);
        Ok(())
    }

    /// Grow the stack frame by `delta` bytes for locals.
    pub fn adjust_stack(&mut self, delta_stack_offset: u32)
        requires
            old(self)@.wf(),
            delta_stack_offset >= 256 ==> first_free_in(old(self)@.used_gprs, 0, 8) is Some,
        ensures
            final(self)@.wf(),
            final(self)@ == with_code(
                old(self)@,
                sp_adjust_words(old(self)@, delta_stack_offset, true),
            ),
    {
        self.sp_adjust(delta_stack_offset, true);
    }

    /// Shrink the stack frame by `delta` bytes.
    pub fn restore_stack(&mut self, delta_stack_offset: u32)
        requires
            old(self)@.wf(),
            delta_stack_offset >= 256 ==> first_free_in(old(self)@.used_gprs, 0, 8) is Some,
        ensures
            final(self)@.wf(),
            final(self)@ == with_code(
                old(self)@,
                sp_adjust_words(old(self)@, delta_stack_offset, false),
            ),
    {
        self.sp_adjust(delta_stack_offset, false);
    }

    /// Release the stack space of the locals at the end of the body.
    pub fn pop_stack_locals(&mut self, delta_stack_offset: u32)
        requires
            old(self)@.wf(),
            delta_stack_offset >= 256 ==> first_free_in(old(self)@.used_gprs, 0, 8) is Some,
        ensures
            final(self)@.wf(),
            final(self)@ == with_code(
                old(self)@,
                sp_adjust_words(old(self)@, delta_stack_offset, false),
            ),
    {
        self.sp_adjust(delta_stack_offset, false);
    }

    /// Move the stack pointer by `delta` bytes, down or up.
    fn sp_adjust(&mut self, delta: u32, is_sub: bool)
        requires
            old(self)@.wf(),
            delta >= 256 ==> first_free_in(old(self)@.used_gprs, 0, 8) is Some,
        ensures
            final(self)@.wf(),
            final(self)@ == with_code(old(self)@, sp_adjust_words(old(self)@, delta, is_sub)),
    {
        if delta < 256 {
            if is_sub {
                self.assembler.emit_sub(
                    Size::S64,
                    Location::GPR(GPR::XzrSp),
                    Location::Imm8(delta as u8),
                    Location::GPR(GPR::XzrSp),
                );
            } else {
                self.assembler.emit_add(
                    Size::S64,
                    Location::GPR(GPR::XzrSp),
                    Location::Imm8(delta as u8),
                    Location::GPR(GPR::XzrSp),
                );
            }
        } else {
            match self.pick_temp_gpr() {
                Some(tmp) => {
                    self.assembler.emit_mov_imm(Location::GPR(tmp), delta as u64);
                    if is_sub {
                        self.assembler.emit_sub(
                            Size::S64,
                            Location::GPR(GPR::XzrSp),
                            Location::GPR(tmp),
                            Location::GPR(GPR::XzrSp),
                        );
                    } else {
                        self.assembler.emit_add(
                            Size::S64,
                            Location::GPR(GPR::XzrSp),
                            Location::GPR(tmp),
                            Location::GPR(GPR::XzrSp),
                        );
                    }
                    proof {
                        assert(tmp == picked_temp(old(self)@));
                        assert(self@.emitter.code =~= old(self)@.emitter.code + sp_adjust_words(
                            old(self)@,
                            delta,
                            is_sub,
                        ));
                    }
                }
                None => {
                    proof {
                        assert(false);
                    }
                }
            }
        }
    }

    /// Set the source location of the current operator; subsequent
    /// address-map entries carry it.
    pub fn set_srcloc(&mut self, offset: u32)
        requires
            old(self)@.wf(),
        ensures
            final(self)@.wf(),
            final(self)@ == (MachineModel { src_loc: offset, ..old(self)@ }),
    {
        self.src_loc = offset;
    }
}

/// Where local `idx` lives: the first eight locals are bound to fixed
/// callee-saved registers, the rest to negative frame-base offsets past
/// the callee-saved region.
pub open spec fn local_location_spec(idx: int, callee_saved_regs_size: int) -> Location {
    if idx == 0 {
        Location::GPR(GPR::X18)
    } else if idx == 1 {
        Location::GPR(GPR::X19)
    } else if idx == 2 {
        Location::GPR(GPR::X20)
    } else if idx == 3 {
        Location::GPR(GPR::X21)
    } else if idx == 4 {
        Location::GPR(GPR::X22)
    } else if idx == 5 {
        Location::GPR(GPR::X23)
    } else if idx == 6 {
        Location::GPR(GPR::X24)
    } else if idx == 7 {
        Location::GPR(GPR::X25)
    } else {
        Location::Memory(GPR::X27, (0 - ((idx - 3) * 8 + callee_saved_regs_size)) as i32)
    }
}

/// Where parameter `idx` arrives: the first eight in fixed argument
/// registers, the rest on the native stack at positive offsets from the
/// frame base.
pub open spec fn param_location_spec(idx: int) -> Location {
    if idx == 0 {
        Location::GPR(GPR::X0)
    } else if idx == 1 {
        Location::GPR(GPR::X1)
    } else if idx == 2 {
        Location::GPR(GPR::X2)
    } else if idx == 3 {
        Location::GPR(GPR::X3)
    } else if idx == 4 {
        Location::GPR(GPR::X4)
    } else if idx == 5 {
        Location::GPR(GPR::X5)
    } else if idx == 6 {
        Location::GPR(GPR::X6)
    } else if idx == 7 {
        Location::GPR(GPR::X7)
    } else {
        Location::Memory(GPR::X27, (16 + (idx - 8) * 8) as i32)
    }
}

/// The bytes that store a 64-bit register to a local's stack slot at
/// `-stack_offset` from the frame base.
pub open spec fn move_local_words(m: MachineModel, stack_offset: i32, location: Location)
    -> Seq<u8> {
    if stack_offset < 256 {
        crate::emitter::word_bytes(
            crate::emitter::stur_word(
                Size::S64,
                location,
                crate::emitter::rnum(GPR::X27),
                (0 - stack_offset) as i32,
            ),
        )
    } else {
        crate::emitter::mov_imm64_words(
            stack_offset as u64,
            crate::emitter::rnum(picked_temp(m)),
        ) + crate::emitter::word_bytes(
            crate::emitter::addsub_word(
                true,
                Size::S64,
                Location::GPR(GPR::X27),
                Location::GPR(picked_temp(m)),
                Location::GPR(picked_temp(m)),
            ),
        ) + crate::emitter::word_bytes(
            crate::emitter::str_word(Size::S64, location, Location::GPR(picked_temp(m))),
        )
    }
}

/// The bytes that restore the stack pointer to the bottom of the saved
/// area, `saved_area_offset` bytes below the frame base.
pub open spec fn restore_saved_area_words(m: MachineModel, saved_area_offset: i32) -> Seq<u8> {
    if saved_area_offset < 256 {
        crate::emitter::word_bytes(
            crate::emitter::addsub_word(
                true,
                Size::S64,
                Location::GPR(GPR::X27),
                Location::Imm8(saved_area_offset as u8),
                Location::GPR(GPR::XzrSp),
            ),
        )
    } else {
        crate::emitter::mov_imm64_words(
            saved_area_offset as u64,
            crate::emitter::rnum(picked_temp(m)),
        ) + crate::emitter::word_bytes(
            crate::emitter::addsub_word(
                true,
                Size::S64,
                Location::GPR(GPR::X27),
                Location::GPR(picked_temp(m)),
                Location::GPR(GPR::XzrSp),
            ),
        )
    }
}

/// One push of a value for a native call: an immediate is materialized
/// into the fixed scratch register first.
pub open spec fn model_push_loc_native(m: MachineModel, loc: Location) -> MachineModel {
    match loc {
        Location::Imm64(v) => MachineModel {
            pushed: !m.pushed,
            ..with_code(
                m,
                crate::emitter::mov_imm64_words(v, crate::emitter::rnum(GPR::X4)) + push_words(
                    m.pushed,
                    Location::GPR(GPR::X4),
                ),
            )
        },
        _ => model_emit_push(m, loc),
    }
}

impl MachineARM64 {
    /// Whether a byte offset can be encoded in the scaled unsigned
    /// addressing form at the given operand width.
    pub fn offset_is_ok(&self, size: Size, offset: i32) -> (r: bool)
        ensures
            r == crate::emitter::uimm_ok(size, offset),
    {
        uimm_fits(size, offset)
    }

    /// The memory location of a stack-resident local.
    pub fn local_on_stack(&mut self, stack_offset: i32) -> (r: Location)
        requires
            old(self)@.wf(),
            stack_offset != i32::MIN,
        ensures
            final(self)@.wf(),
            final(self)@ == old(self)@,
            r matches Location::Memory(b, o) && b == GPR::X27 && o == -stack_offset,
    {
        Location::Memory(GPR::X27, -stack_offset)
    }

    /// The register holding the frame base for stack locals.
    pub fn local_pointer(&self) -> (r: GPR)
        ensures
            r == GPR::X27,
    {
        GPR::X27
    }

    /// Whether local `idx` is allocated on the stack rather than in a
    /// callee-saved register.
    pub fn is_local_on_stack(&self, idx: usize) -> (r: bool)
        ensures
            r == (idx > 7),
    {
        idx > 7
    }

    /// The location of local `idx`.
    pub fn get_local_location(&self, idx: usize, callee_saved_regs_size: usize) -> (r: Location)
        requires
            idx > 7 ==> (idx - 3) * 8 + callee_saved_regs_size <= i32::MAX,
        ensures
            r == local_location_spec(idx as int, callee_saved_regs_size as int),
    {
        match idx {
            0 => Location::GPR(GPR::X18),
            1 => Location::GPR(GPR::X19),
            2 => Location::GPR(GPR::X20),
            3 => Location::GPR(GPR::X21),
            4 => Location::GPR(GPR::X22),
            5 => Location::GPR(GPR::X23),
            6 => Location::GPR(GPR::X24),
            7 => Location::GPR(GPR::X25),
            _ => Location::Memory(GPR::X27, -(((idx - 3) * 8 + callee_saved_regs_size) as i32)),
        }
    }

    /// The location where parameter `idx` arrives under the calling
    /// convention in effect.
    pub fn get_param_location(&self, idx: usize, calling_convention: crate::common::CallingConvention)
        -> (r: Location)
        requires
            idx > 7 ==> 16 + (idx - 8) * 8 <= i32::MAX,
        ensures
            r == param_location_spec(idx as int),
    {
        match idx {
            0 => Location::GPR(GPR::X0),
            1 => Location::GPR(GPR::X1),
            2 => Location::GPR(GPR::X2),
            3 => Location::GPR(GPR::X3),
            4 => Location::GPR(GPR::X4),
            5 => Location::GPR(GPR::X5),
            6 => Location::GPR(GPR::X6),
            7 => Location::GPR(GPR::X7),
            _ => Location::Memory(GPR::X27, (16 + (idx - 8) * 8) as i32),
        }
    }

    /// Registers to save around a call for the given convention: none
    /// on this target.
    pub fn list_to_save(&self, calling_convention: crate::common::CallingConvention) -> (r: Vec<
        Location,
    >)
        ensures
            r@ == Seq::<Location>::empty(),
    {
        Vec::new()
    }

    /// Store a 64-bit register value into a local's stack slot.
    pub fn move_local(&mut self, stack_offset: i32, location: Location)
        requires
            old(self)@.wf(),
            0 <= stack_offset,
            push_supported(Size::S64, location),
            stack_offset >= 256 ==> first_free_in(old(self)@.used_gprs, 0, 8) is Some,
        ensures
            final(self)@.wf(),
            final(self)@ == with_code(
                old(self)@,
                move_local_words(old(self)@, stack_offset, location),
            ),
    {
        if stack_offset < 256 {
            self.assembler.emit_stur(Size::S64, location, GPR::X27, -stack_offset);
        } else {
            match self.pick_temp_gpr() {
                Some(tmp) => {
                    self.assembler.emit_mov_imm(Location::GPR(tmp), stack_offset as u64);
                    self.assembler.emit_sub(
                        Size::S64,
                        Location::GPR(GPR::X27),
                        Location::GPR(tmp),
                        Location::GPR(tmp),
                    );
                    self.assembler.emit_str(Size::S64, location, Location::GPR(tmp));
                    proof {
                        assert(self@.emitter.code =~= old(self)@.emitter.code + move_local_words(
                            old(self)@,
                            stack_offset,
                            location,
                        ));
                    }
                }
                None => {
                    proof {
                        assert(false);
                    }
                }
            }
        }
    }

    /// Restore the stack pointer to the bottom of the saved area.
    pub fn restore_saved_area(&mut self, saved_area_offset: i32)
        requires
            old(self)@.wf(),
            0 <= saved_area_offset,
            saved_area_offset >= 256 ==> first_free_in(old(self)@.used_gprs, 0, 8) is Some,
        ensures
            final(self)@.wf(),
            final(self)@ == with_code(
                old(self)@,
                restore_saved_area_words(old(self)@, saved_area_offset),
            ),
    {
        if saved_area_offset < 256 {
            self.assembler.emit_sub(
                Size::S64,
                Location::GPR(GPR::X27),
                Location::Imm8(saved_area_offset as u8),
                Location::GPR(GPR::XzrSp),
            );
        } else {
            match self.acquire_temp_gpr() {
                Some(tmp) => {
                    self.assembler.emit_mov_imm(
                        Location::GPR(tmp),
                        saved_area_offset as u64,
                    );
                    self.assembler.emit_sub(
                        Size::S64,
                        Location::GPR(GPR::X27),
                        Location::GPR(tmp),
                        Location::GPR(GPR::XzrSp),
                    );
                    self.release_gpr(tmp);
                    proof {
                        lemma_first_free_props(old(self)@.used_gprs, 0, 8);
                        assert(self@.used_gprs =~= old(self)@.used_gprs);
                        assert(self@.emitter.code =~= old(self)@.emitter.code
                            + restore_saved_area_words(old(self)@, saved_area_offset));
                        assert(self@ == with_code(
                            old(self)@,
                            restore_saved_area_words(old(self)@, saved_area_offset),
                        ));
                    }
                }
                None => {
                    proof {
                        assert(false);
                    }
                }
            }
        }
    }

    /// Push one value for a native call; an immediate operand is
    /// materialized into the fixed scratch register first.
    pub fn push_location_for_native(&mut self, loc: Location) -> (r: Result<(), CodegenError>)
        requires
            old(self)@.wf(),
            loc is Imm64 ==> !old(self)@.used_gprs[4],
        ensures
            final(self)@.wf(),
            loc is Imm64 || push_supported(Size::S64, loc) ==> r is Ok && final(self)@
                == model_push_loc_native(old(self)@, loc),
            !(loc is Imm64 || push_supported(Size::S64, loc)) ==> final(self)@ == old(self)@ && r
                == Err::<(), CodegenError>(
                (CodegenError::UnsupportedPush { size: Size::S64, loc }),
            ),
    {
        match loc {
            Location::Imm64(_) => {
                self.reserve_unused_temp_gpr(GPR::X4);
                self.assembler.emit_mov(Size::S64, loc, Location::GPR(GPR::X4));
                self.push64(Location::GPR(GPR::X4));
                self.release_gpr(GPR::X4);
                proof {
                    assert(self@.used_gprs =~= old(self)@.used_gprs);
                    assert(self@.emitter.code =~= model_push_loc_native(old(self)@, loc)
                        .emitter.code);
                    assert(self@ == model_push_loc_native(old(self)@, loc));
                }
                Ok(())
            }
            _ => self.emit_push(Size::S64, loc),
        }
    }

    /// Zero a register location.
    pub fn zero_location(&mut self, size: Size, location: Location)
        requires
            old(self)@.wf(),
            location is GPR,
        ensures
            final(self)@.wf(),
            final(self)@ == with_code(
                old(self)@,
                crate::emitter::mov_imm64_words(0, crate::emitter::rnum(location->GPR_0)),
            ),
    {
        self.assembler.emit_mov_imm(location, 0);
    }

    /// Pop one 64-bit value into a register location.
    pub fn pop_location(&mut self, location: Location) -> (r: Result<(), CodegenError>)
        requires
            old(self)@.wf(),
        ensures
            final(self)@.wf(),
            push_supported(Size::S64, location) ==> r is Ok && final(self)@ == model_emit_pop(
                old(self)@,
                location,
            ),
            !push_supported(Size::S64, location) ==> r == Err::<(), CodegenError>(
                (CodegenError::UnsupportedPop { size: Size::S64, loc: location }),
            ) && final(self)@ == old(self)@,
    {
        self.emit_pop(Size::S64, location)
    }

    /// The register that carries an indirect call target.
    pub fn get_grp_for_call(&self) -> (r: GPR)
        ensures
            r == GPR::X26,
    {
        GPR::X26
    }

    /// The register holding an integer return value.
    pub fn get_gpr_for_ret(&self) -> (r: GPR)
        ensures
            r == GPR::X26,
    {
        GPR::X26
    }

    /// The register holding a floating-point return value.
    pub fn get_simd_for_ret(&self) -> (r: NEON)
        ensures
            r == NEON::V0,
    {
        NEON::V0
    }
}

/// Operand combinations the relaxed move accepts.
pub open spec fn move_location_supported(sz: Size, src: Location, dst: Location) -> bool {
    match (src, dst) {
        (Location::GPR(_), Location::GPR(_))
        | (Location::GPR(_), Location::SIMD(_))
        | (Location::SIMD(_), Location::GPR(_))
        | (Location::SIMD(_), Location::SIMD(_)) => crate::emitter::mov_supported(sz, src, dst),
        (Location::GPR(_), Location::Memory(_, _))
        | (Location::SIMD(_), Location::Memory(_, _)) => crate::emitter::ldst_reg_ok(sz, src),
        (Location::Imm8(_), Location::GPR(_))
        | (Location::Imm32(_), Location::GPR(_))
        | (Location::Imm64(_), Location::GPR(_)) => crate::emitter::mov_supported(sz, src, dst),
        (Location::Memory(_, _), Location::GPR(_)) => crate::emitter::ldst_reg_ok(sz, dst),
        _ => false,
    }
}

/// A memory offset that neither the scaled-unsigned nor the
/// signed-unscaled addressing form can encode, so that the address must
/// be computed in a temporary register first.
pub open spec fn hard_offs(sz: Size, offs: i32) -> bool {
    !(crate::emitter::uimm_ok(sz, offs) || (-256 < offs < 256))
}

/// The relaxed move needs a scratch register for its address
/// computation.
pub open spec fn move_needs_temp(sz: Size, src: Location, dst: Location) -> bool {
    match (src, dst) {
        (Location::GPR(_), Location::Memory(_, o))
        | (Location::SIMD(_), Location::Memory(_, o)) => hard_offs(sz, o),
        (Location::Memory(_, o), Location::GPR(_)) => hard_offs(sz, o),
        _ => false,
    }
}

/// The bytes that compute `addr + offs` into the picked scratch
/// register, for an offset no addressing mode encodes.
pub open spec fn big_offset_words(m: MachineModel, addr: GPR, offs: i32) -> Seq<u8> {
    if offs < 0 {
        crate::emitter::mov_imm64_words(
            (-offs) as u64,
            crate::emitter::rnum(picked_temp(m)),
        ) + crate::emitter::word_bytes(
            crate::emitter::addsub_word(
                true,
                Size::S64,
                Location::GPR(addr),
                Location::GPR(picked_temp(m)),
                Location::GPR(picked_temp(m)),
            ),
        )
    } else {
        crate::emitter::mov_imm64_words(
            offs as u64,
            crate::emitter::rnum(picked_temp(m)),
        ) + crate::emitter::word_bytes(
            crate::emitter::addsub_word(
                false,
                Size::S64,
                Location::GPR(addr),
                Location::GPR(picked_temp(m)),
                Location::GPR(picked_temp(m)),
            ),
        )
    }
}

/// The bytes of one relaxed move between supported locations.
pub open spec fn move_location_words(m: MachineModel, sz: Size, src: Location, dst: Location)
    -> Seq<u8> {
    match (src, dst) {
        (Location::GPR(_), Location::GPR(_))
        | (Location::GPR(_), Location::SIMD(_))
        | (Location::SIMD(_), Location::GPR(_))
        | (Location::SIMD(_), Location::SIMD(_)) => crate::emitter::mov_words(sz, src, dst),
        (Location::GPR(_), Location::Memory(addr, offs))
        | (Location::SIMD(_), Location::Memory(addr, offs)) => if crate::emitter::uimm_ok(
            sz,
            offs,
        ) {
            crate::emitter::word_bytes(crate::emitter::str_word(sz, src, dst))
        } else if -256 < offs < 256 {
            crate::emitter::word_bytes(
                crate::emitter::stur_word(sz, src, crate::emitter::rnum(addr), offs),
            )
        } else {
            big_offset_words(m, addr, offs) + crate::emitter::word_bytes(
                crate::emitter::str_word(sz, src, Location::GPR(picked_temp(m))),
            )
        },
        (Location::Imm8(_), Location::GPR(_))
        | (Location::Imm32(_), Location::GPR(_))
        | (Location::Imm64(_), Location::GPR(_)) => crate::emitter::mov_words(sz, src, dst),
        (Location::Memory(addr, offs), Location::GPR(_)) => if crate::emitter::uimm_ok(
            sz,
            offs,
        ) {
            crate::emitter::word_bytes(crate::emitter::ldr_word(sz, dst, src))
        } else if -256 < offs < 256 {
            crate::emitter::word_bytes(
                crate::emitter::ldur_word(sz, dst, crate::emitter::rnum(addr), offs),
            )
        } else {
            big_offset_words(m, addr, offs) + crate::emitter::word_bytes(
                crate::emitter::ldr_word(sz, dst, Location::GPR(picked_temp(m))),
            )
        },
        _ => Seq::empty(),
    }
}

/// One relaxed move applied to the machine model.
pub open spec fn model_move_location(m: MachineModel, sz: Size, src: Location, dst: Location)
    -> MachineModel {
    with_code(m, move_location_words(m, sz, src, dst))
}

/// Executable form of `crate::emitter::mov_supported`.
fn mov_ok(sz: Size, src: Location, dst: Location) -> (b: bool)
    ensures
        b == crate::emitter::mov_supported(sz, src, dst),
{
    match (src, dst) {
        (Location::GPR(_), Location::GPR(_))
        | (Location::GPR(_), Location::SIMD(_))
        | (Location::SIMD(_), Location::GPR(_))
        | (Location::SIMD(_), Location::SIMD(_))
        | (Location::Imm8(_), Location::GPR(_))
        | (Location::Imm32(_), Location::GPR(_)) => match sz {
            Size::S32 | Size::S64 => true,
            _ => false,
        },
        (Location::Imm64(_), Location::GPR(_)) => match sz {
            Size::S64 => true,
            _ => false,
        },
        _ => false,
    }
}

/// Executable form of `crate::emitter::ldst_reg_ok`.
fn ldst_ok(sz: Size, reg: Location) -> (b: bool)
    ensures
        b == crate::emitter::ldst_reg_ok(sz, reg),
{
    match reg {
        Location::GPR(_) => match sz {
            Size::S32 | Size::S64 => true,
            _ => false,
        },
        Location::SIMD(_) => match sz {
            Size::S64 => true,
            _ => false,
        },
        _ => false,
    }
}

/// Executable form of `crate::emitter::uimm_ok`.
fn uimm_fits(sz: Size, offs: i32) -> (b: bool)
    ensures
        b == crate::emitter::uimm_ok(sz, offs),
{
    match sz {
        Size::S8 => 0 <= offs && offs < 0x1000,
        Size::S16 => 0 <= offs && offs % 2 == 0 && offs < 0x2000,
        Size::S32 => 0 <= offs && offs % 4 == 0 && offs < 0x4000,
        Size::S64 => 0 <= offs && offs % 8 == 0 && offs < 0x8000,
    }
}

impl MachineARM64 {
    /// Compute `addr + offs` into a picked scratch register for an
    /// offset no addressing form encodes.
    fn emit_big_offset(&mut self, addr: GPR, offs: i32) -> (t: GPR)
        requires
            old(self)@.wf(),
            first_free_in(old(self)@.used_gprs, 0, 8) is Some,
            offs != i32::MIN,
        ensures
            final(self)@.wf(),
            final(self)@ == with_code(old(self)@, big_offset_words(old(self)@, addr, offs)),
            t == picked_temp(old(self)@),
    {
        match self.pick_temp_gpr() {
            Some(tmp) => {
                if offs < 0 {
                    self.assembler.emit_mov_imm(Location::GPR(tmp), (-offs) as u64);
                    self.assembler.emit_sub(
                        Size::S64,
                        Location::GPR(addr),
                        Location::GPR(tmp),
                        Location::GPR(tmp),
                    );
                } else {
                    self.assembler.emit_mov_imm(Location::GPR(tmp), offs as u64);
                    self.assembler.emit_add(
                        Size::S64,
                        Location::GPR(addr),
                        Location::GPR(tmp),
                        Location::GPR(tmp),
                    );
                }
                proof {
                    assert(self@.emitter.code =~= old(self)@.emitter.code + big_offset_words(
                        old(self)@,
                        addr,
                        offs,
                    ));
                }
                tmp
            }
            None => {
                proof {
                    assert(false);
                }
                GPR::X0
            }
        }
    }

    /// Move a value between any two supported locations, inserting the
    /// minimum number of temporary-register round trips.
    pub fn move_location(&mut self, size: Size, source: Location, dest: Location) -> (r: Result<
        (),
        CodegenError,
    >)
        requires
            old(self)@.wf(),
            move_needs_temp(size, source, dest) ==> first_free_in(old(self)@.used_gprs, 0, 8)
                is Some,
            source matches Location::Memory(_, o) ==> o != i32::MIN,
            dest matches Location::Memory(_, o) ==> o != i32::MIN,
        ensures
            final(self)@.wf(),
            move_location_supported(size, source, dest) ==> r is Ok && final(self)@
                == model_move_location(old(self)@, size, source, dest),
            !move_location_supported(size, source, dest) ==> final(self)@ == old(self)@ && r
                == Err::<(), CodegenError>(
                (CodegenError::UnsupportedMove { size, src: source, dst: dest }),
            ),
    {
        match (source, dest) {
            (Location::GPR(_), Location::GPR(_))
            | (Location::GPR(_), Location::SIMD(_))
            | (Location::SIMD(_), Location::GPR(_))
            | (Location::SIMD(_), Location::SIMD(_)) => {
                if mov_ok(size, source, dest) {
                    self.assembler.emit_mov(size, source, dest);
                    Ok(())
                } else {
                    Err(CodegenError::UnsupportedMove { size, src: source, dst: dest })
                }
            }
            (Location::GPR(_), Location::Memory(addr, offs))
            | (Location::SIMD(_), Location::Memory(addr, offs)) => {
                if ldst_ok(size, source) {
                    if uimm_fits(size, offs) {
                        self.assembler.emit_str(size, source, dest);
                    } else if offs > -256 && offs < 256 {
                        self.assembler.emit_stur(size, source, addr, offs);
                    } else {
                        let tmp = self.emit_big_offset(addr, offs);
                        self.assembler.emit_str(size, source, Location::GPR(tmp));
                        proof {
                            assert(self@.emitter.code =~= old(self)@.emitter.code
                                + move_location_words(old(self)@, size, source, dest));
                        }
                    }
                    Ok(())
                } else {
                    Err(CodegenError::UnsupportedMove { size, src: source, dst: dest })
                }
            }
            (Location::Imm8(_), Location::GPR(_))
            | (Location::Imm32(_), Location::GPR(_))
            | (Location::Imm64(_), Location::GPR(_)) => {
                if mov_ok(size, source, dest) {
                    self.assembler.emit_mov(size, source, dest);
                    Ok(())
                } else {
                    Err(CodegenError::UnsupportedMove { size, src: source, dst: dest })
                }
            }
            (Location::Memory(addr, offs), Location::GPR(_)) => {
                if ldst_ok(size, dest) {
                    if uimm_fits(size, offs) {
                        self.assembler.emit_ldr(size, dest, source);
                    } else if offs > -256 && offs < 256 {
                        self.assembler.emit_ldur(size, dest, addr, offs);
                    } else {
                        let tmp = self.emit_big_offset(addr, offs);
                        self.assembler.emit_ldr(size, dest, Location::GPR(tmp));
                        proof {
                            assert(self@.emitter.code =~= old(self)@.emitter.code
                                + move_location_words(old(self)@, size, source, dest));
                        }
                    }
                    Ok(())
                } else {
                    Err(CodegenError::UnsupportedMove { size, src: source, dst: dest })
                }
            }
            _ => Err(CodegenError::UnsupportedMove { size, src: source, dst: dest }),
        }
    }
}

/// The raw two-operand operations a relaxed binary operation can wrap.
#[derive(Clone, Copy, Debug, PartialEq, Eq, Structural)]
pub enum AluOp {
    /// Move the source into the destination.
    Mov,
    /// Set flags from destination minus source.
    Cmp,
    /// Add the source into the destination.
    Add,
}

/// Whether the raw operation writes its destination register; a
/// compare only sets flags.
pub open spec fn op_writes(op: AluOp) -> bool {
    !(op is Cmp)
}

/// The bytes of one raw register-to-register operation.
pub open spec fn alu_words(op: AluOp, sz: Size, src: Location, dst: Location) -> Seq<u8> {
    match op {
        AluOp::Mov => crate::emitter::mov_words(sz, src, dst),
        AluOp::Cmp => crate::emitter::word_bytes(
            crate::emitter::enc_cmp_reg(
                crate::emitter::sf_of(sz),
                crate::emitter::rnum(src->GPR_0),
                crate::emitter::rnum(dst->GPR_0),
            ),
        ),
        AluOp::Add => crate::emitter::word_bytes(
            crate::emitter::addsub_word(false, sz, dst, src, dst),
        ),
    }
}

/// Operand combinations a relaxed binary operation accepts.
pub open spec fn relaxed_supported(op: AluOp, sz: Size, src: Location, dst: Location) -> bool {
    &&& (sz is S32 || sz is S64)
    &&& match (src, dst) {
        (Location::GPR(_), Location::GPR(_)) => true,
        (Location::GPR(_), Location::SIMD(_))
        | (Location::SIMD(_), Location::GPR(_))
        | (Location::SIMD(_), Location::SIMD(_)) => op is Mov,
        (Location::Memory(_, _), Location::Memory(_, _)) => true,
        (Location::Imm8(_), Location::GPR(_)) | (Location::Imm32(_), Location::GPR(_)) => true,
        (Location::Imm64(_), Location::GPR(_)) => sz is S64,
        (Location::Memory(_, _), Location::GPR(_)) => true,
        (Location::GPR(_), Location::Memory(_, _))
        | (Location::SIMD(_), Location::Memory(_, _)) => op is Mov && crate::emitter::ldst_reg_ok(
            sz,
            src,
        ),
        (Location::Imm8(_), Location::Memory(_, _))
        | (Location::Imm32(_), Location::Memory(_, _)) => op is Mov,
        (Location::Imm64(_), Location::Memory(_, _)) => op is Mov && sz is S64,
        (Location::Imm8(_), Location::SIMD(_)) | (Location::Imm32(_), Location::SIMD(_)) => op
            is Mov,
        (Location::Imm64(_), Location::SIMD(_)) => op is Mov && sz is S64,
        (Location::Memory(_, _), Location::SIMD(_)) => op is Mov,
        _ => false,
    }
}

/// How many scratch registers a relaxed binary operation acquires or
/// picks, counting the extra one an unencodable memory offset needs.
pub open spec fn relaxed_temps_needed(sz: Size, src: Location, dst: Location) -> int {
    match (src, dst) {
        (Location::Memory(_, so), Location::Memory(_, d_o)) => 2 + if hard_offs(sz, so)
            || hard_offs(sz, d_o) { 1int } else { 0int },
        (Location::Imm8(_), Location::GPR(_))
        | (Location::Imm32(_), Location::GPR(_))
        | (Location::Imm64(_), Location::GPR(_)) => 1,
        (Location::Memory(_, so), Location::GPR(_)) => 1 + if hard_offs(sz, so) {
            1int
        } else {
            0int
        },
        (Location::GPR(_), Location::Memory(_, d_o))
        | (Location::SIMD(_), Location::Memory(_, d_o)) => if hard_offs(sz, d_o) {
            1int
        } else {
            0int
        },
        (Location::Imm8(_), Location::Memory(_, d_o))
        | (Location::Imm32(_), Location::Memory(_, d_o))
        | (Location::Imm64(_), Location::Memory(_, d_o)) => 1 + if hard_offs(sz, d_o) {
            1int
        } else {
            0int
        },
        (Location::Imm8(_), Location::SIMD(_))
        | (Location::Imm32(_), Location::SIMD(_))
        | (Location::Imm64(_), Location::SIMD(_)) => 1,
        (Location::Memory(_, so), Location::SIMD(_)) => 1 + if hard_offs(sz, so) {
            1int
        } else {
            0int
        },
        _ => 0,
    }
}

/// All memory offsets of the two operands are above `i32::MIN`.
pub open spec fn offs_in_range(src: Location, dst: Location) -> bool {
    &&& (src matches Location::Memory(_, o) ==> o != i32::MIN)
    &&& (dst matches Location::Memory(_, o) ==> o != i32::MIN)
}

/// One relaxed binary operation applied to the machine model, for a
/// supported combination: the minimum number of temporary round trips
/// is inserted, and every acquired temporary is released again.
pub open spec fn model_relaxed_binop(
    m: MachineModel,
    op: AluOp,
    sz: Size,
    src: Location,
    dst: Location,
) -> MachineModel {
    match (src, dst) {
        (Location::GPR(_), Location::GPR(_))
        | (Location::GPR(_), Location::SIMD(_))
        | (Location::SIMD(_), Location::GPR(_))
        | (Location::SIMD(_), Location::SIMD(_)) => with_code(m, alu_words(op, sz, src, dst)),
        (Location::Memory(_, _), Location::Memory(_, _)) => {
            let t1 = GPR::from_index_spec(opt_reg(first_free_in(m.used_gprs, 0, 8)));
            let ma = MachineModel {
                used_gprs: m.used_gprs.update(t1.index(), true),
                ..m
            };
            let t2 = GPR::from_index_spec(opt_reg(first_free_in(ma.used_gprs, 0, 8)));
            let mb = MachineModel {
                used_gprs: ma.used_gprs.update(t2.index(), true),
                ..ma
            };
            let m1 = model_move_location(mb, sz, src, Location::GPR(t1));
            let m2 = model_move_location(m1, sz, dst, Location::GPR(t2));
            let m3 = with_code(m2, alu_words(op, sz, Location::GPR(t1), Location::GPR(t2)));
            let m4 = if op_writes(op) {
                model_move_location(m3, sz, Location::GPR(t2), dst)
            } else {
                m3
            };
            MachineModel { used_gprs: m.used_gprs, ..m4 }
        },
        (Location::Imm8(_), Location::GPR(_))
        | (Location::Imm32(_), Location::GPR(_))
        | (Location::Imm64(_), Location::GPR(_))
        | (Location::Memory(_, _), Location::GPR(_)) => {
            let t = GPR::from_index_spec(opt_reg(first_free_in(m.used_gprs, 0, 8)));
            let ma = MachineModel {
                used_gprs: m.used_gprs.update(t.index(), true),
                ..m
            };
            let m1 = model_move_location(ma, sz, src, Location::GPR(t));
            let m2 = with_code(m1, alu_words(op, sz, Location::GPR(t), dst));
            MachineModel { used_gprs: m.used_gprs, ..m2 }
        },
        (Location::GPR(_), Location::Memory(_, _))
        | (Location::SIMD(_), Location::Memory(_, _)) => model_move_location(m, sz, src, dst),
        (Location::Imm8(_), Location::Memory(_, _))
        | (Location::Imm32(_), Location::Memory(_, _))
        | (Location::Imm64(_), Location::Memory(_, _)) => {
            let t = GPR::from_index_spec(opt_reg(first_free_in(m.used_gprs, 0, 8)));
            let ma = MachineModel {
                used_gprs: m.used_gprs.update(t.index(), true),
                ..m
            };
            let m1 = model_move_location(ma, sz, src, Location::GPR(t));
            let m2 = model_move_location(m1, sz, Location::GPR(t), dst);
            MachineModel { used_gprs: m.used_gprs, ..m2 }
        },
        (Location::Imm8(_), Location::SIMD(_))
        | (Location::Imm32(_), Location::SIMD(_))
        | (Location::Imm64(_), Location::SIMD(_))
        | (Location::Memory(_, _), Location::SIMD(_)) => {
            let t = GPR::from_index_spec(opt_reg(first_free_in(m.used_gprs, 0, 8)));
            let ma = MachineModel {
                used_gprs: m.used_gprs.update(t.index(), true),
                ..m
            };
            let m1 = model_move_location(ma, sz, src, Location::GPR(t));
            let m2 = with_code(
                m1,
                crate::emitter::mov_words(sz, Location::GPR(t), dst),
            );
            MachineModel { used_gprs: m.used_gprs, ..m2 }
        },
        _ => m,
    }
}

impl MachineARM64 {
    /// A relaxed move that is known to be supported.
    fn do_move(&mut self, sz: Size, src: Location, dst: Location)
        requires
            old(self)@.wf(),
            move_location_supported(sz, src, dst),
            move_needs_temp(sz, src, dst) ==> first_free_in(old(self)@.used_gprs, 0, 8) is Some,
            offs_in_range(src, dst),
        ensures
            final(self)@.wf(),
            final(self)@ == model_move_location(old(self)@, sz, src, dst),
    {
        match self.move_location(sz, src, dst) {
            Ok(_) => {}
            Err(_) => {
                proof {
                    assert(false);
                }
            }
        }
    }

    /// One raw register-to-register operation.
    fn emit_alu2(&mut self, op: AluOp, sz: Size, src: Location, dst: Location)
        requires
            old(self)@.wf(),
            sz is S32 || sz is S64,
            match op {
                AluOp::Mov => crate::emitter::mov_supported(sz, src, dst),
                _ => src is GPR && dst is GPR,
            },
        ensures
            final(self)@.wf(),
            final(self)@ == with_code(old(self)@, alu_words(op, sz, src, dst)),
    {
        match op {
            AluOp::Mov => {
                self.assembler.emit_mov(sz, src, dst);
            }
            AluOp::Cmp => {
                self.assembler.emit_cmp(sz, src, dst);
            }
            AluOp::Add => {
                self.assembler.emit_add(sz, dst, src, dst);
            }
        }
    }

    /// The memory-to-memory case of a relaxed binary operation.
    fn relaxed_mem_mem(&mut self, op: AluOp, sz: Size, src: Location, dst: Location)
        requires
            old(self)@.wf(),
            sz is S32 || sz is S64,
            src is Memory,
            dst is Memory,
            free_count(old(self)@.used_gprs, 0, 8) >= relaxed_temps_needed(sz, src, dst),
            offs_in_range(src, dst),
        ensures
            final(self)@.wf(),
            final(self)@ == model_relaxed_binop(old(self)@, op, sz, src, dst),
    {
        proof {
            lemma_first_free_exists(old(self)@.used_gprs, 0, 8);
        }
        match self.acquire_temp_gpr() {
            Some(t1) => {
                proof {
                    lemma_free_count_acquire(old(self)@.used_gprs, 0, 8, t1.index());
                    lemma_first_free_exists(self@.used_gprs, 0, 8);
                }
                match self.acquire_temp_gpr() {
                    Some(t2) => {
                        proof {
                            lemma_free_count_acquire(
                                old(self)@.used_gprs.update(t1.index(), true),
                                0,
                                8,
                                t2.index(),
                            );
                            if free_count(self@.used_gprs, 0, 8) > 0 {
                                lemma_first_free_exists(self@.used_gprs, 0, 8);
                            }
                        }
                        self.do_move(sz, src, Location::GPR(t1));
                        proof {
                            if free_count(self@.used_gprs, 0, 8) > 0 {
                                lemma_first_free_exists(self@.used_gprs, 0, 8);
                            }
                        }
                        self.do_move(sz, dst, Location::GPR(t2));
                        self.emit_alu2(op, sz, Location::GPR(t1), Location::GPR(t2));
                        let writes = match op {
                            AluOp::Cmp => false,
                            _ => true,
                        };
                        if writes {
                            proof {
                                if free_count(self@.used_gprs, 0, 8) > 0 {
                                    lemma_first_free_exists(self@.used_gprs, 0, 8);
                                }
                            }
                            self.do_move(sz, Location::GPR(t2), dst);
                        }
                        self.release_gpr(t2);
                        self.release_gpr(t1);
                        proof {
                            assert(self@.used_gprs =~= old(self)@.used_gprs);
                            assert(self@ == model_relaxed_binop(old(self)@, op, sz, src, dst));
                        }
                    }
                    None => {
                        proof {
                            assert(false);
                        }
                    }
                }
            }
            None => {
                proof {
                    assert(false);
                }
            }
        }
    }

    /// The immediate-or-memory-to-register case of a relaxed binary
    /// operation: one temporary materialization.
    fn relaxed_via_temp_to_gpr(&mut self, op: AluOp, sz: Size, src: Location, dst: Location)
        requires
            old(self)@.wf(),
            sz is S32 || sz is S64,
            src is Imm8 || src is Imm32 || src is Imm64 || src is Memory,
            src is Imm64 ==> sz is S64,
            dst is GPR,
            free_count(old(self)@.used_gprs, 0, 8) >= relaxed_temps_needed(sz, src, dst),
            offs_in_range(src, dst),
        ensures
            final(self)@.wf(),
            final(self)@ == model_relaxed_binop(old(self)@, op, sz, src, dst),
    {
        proof {
            lemma_first_free_exists(old(self)@.used_gprs, 0, 8);
        }
        match self.acquire_temp_gpr() {
            Some(t) => {
                proof {
                    lemma_free_count_acquire(old(self)@.used_gprs, 0, 8, t.index());
                    if free_count(self@.used_gprs, 0, 8) > 0 {
                        lemma_first_free_exists(self@.used_gprs, 0, 8);
                    }
                }
                self.do_move(sz, src, Location::GPR(t));
                self.emit_alu2(op, sz, Location::GPR(t), dst);
                self.release_gpr(t);
                proof {
                    assert(self@.used_gprs =~= old(self)@.used_gprs);
                    assert(self@ == model_relaxed_binop(old(self)@, op, sz, src, dst));
                }
            }
            None => {
                proof {
                    assert(false);
                }
            }
        }
    }

    /// The immediate-to-memory move case of a relaxed operation.
    fn relaxed_imm_to_mem(&mut self, sz: Size, src: Location, dst: Location)
        requires
            old(self)@.wf(),
            sz is S32 || sz is S64,
            src is Imm8 || src is Imm32 || src is Imm64,
            src is Imm64 ==> sz is S64,
            dst is Memory,
            free_count(old(self)@.used_gprs, 0, 8) >= relaxed_temps_needed(sz, src, dst),
            offs_in_range(src, dst),
        ensures
            final(self)@.wf(),
            final(self)@ == model_relaxed_binop(old(self)@, AluOp::Mov, sz, src, dst),
    {
        proof {
            lemma_first_free_exists(old(self)@.used_gprs, 0, 8);
        }
        match self.acquire_temp_gpr() {
            Some(t) => {
                proof {
                    lemma_free_count_acquire(old(self)@.used_gprs, 0, 8, t.index());
                    if free_count(self@.used_gprs, 0, 8) > 0 {
                        lemma_first_free_exists(self@.used_gprs, 0, 8);
                    }
                }
                self.do_move(sz, src, Location::GPR(t));
                proof {
                    if free_count(self@.used_gprs, 0, 8) > 0 {
                        lemma_first_free_exists(self@.used_gprs, 0, 8);
                    }
                }
                self.do_move(sz, Location::GPR(t), dst);
                self.release_gpr(t);
                proof {
                    assert(self@.used_gprs =~= old(self)@.used_gprs);
                    assert(self@ == model_relaxed_binop(old(self)@, AluOp::Mov, sz, src, dst));
                }
            }
            None => {
                proof {
                    assert(false);
                }
            }
        }
    }

    /// The anything-to-vector-register move case of a relaxed
    /// operation: the source is materialized into one temporary.
    fn relaxed_to_simd(&mut self, sz: Size, src: Location, dst: Location)
        requires
            old(self)@.wf(),
            sz is S32 || sz is S64,
            src is Imm8 || src is Imm32 || src is Imm64 || src is Memory,
            src is Imm64 ==> sz is S64,
            dst is SIMD,
            free_count(old(self)@.used_gprs, 0, 8) >= relaxed_temps_needed(sz, src, dst),
            offs_in_range(src, dst),
        ensures
            final(self)@.wf(),
            final(self)@ == model_relaxed_binop(old(self)@, AluOp::Mov, sz, src, dst),
    {
        proof {
            lemma_first_free_exists(old(self)@.used_gprs, 0, 8);
        }
        match self.acquire_temp_gpr() {
            Some(t) => {
                proof {
                    lemma_free_count_acquire(old(self)@.used_gprs, 0, 8, t.index());
                    if free_count(self@.used_gprs, 0, 8) > 0 {
                        lemma_first_free_exists(self@.used_gprs, 0, 8);
                    }
                }
                self.do_move(sz, src, Location::GPR(t));
                self.assembler.emit_mov(sz, Location::GPR(t), dst);
                self.release_gpr(t);
                proof {
                    assert(self@.used_gprs =~= old(self)@.used_gprs);
                    assert(self@ == model_relaxed_binop(old(self)@, AluOp::Mov, sz, src, dst));
                }
            }
            None => {
                proof {
                    assert(false);
                }
            }
        }
    }

    /// A relaxed binary operation: accept any supported combination of
    /// operand locations and insert the minimum number of
    /// temporary-register round trips the raw operation needs. Every
    /// temporary acquired inside the operation is released before it
    /// returns.
    pub fn emit_relaxed_binop(&mut self, op: AluOp, sz: Size, src: Location, dst: Location) -> (r:
        Result<(), CodegenError>)
        requires
            old(self)@.wf(),
            free_count(old(self)@.used_gprs, 0, 8) >= relaxed_temps_needed(sz, src, dst),
            offs_in_range(src, dst),
        ensures
            final(self)@.wf(),
            final(self)@.used_gprs == old(self)@.used_gprs,
            final(self)@.used_simd == old(self)@.used_simd,
            relaxed_supported(op, sz, src, dst) ==> r is Ok && final(self)@ == model_relaxed_binop(
                old(self)@,
                op,
                sz,
                src,
                dst,
            ),
            !relaxed_supported(op, sz, src, dst) ==> final(self)@ == old(self)@ && r == Err::<
                (),
                CodegenError,
            >((CodegenError::UnsupportedBinop { size: sz, src, dst })),
    {
        let sz_ok = match sz {
            Size::S32 | Size::S64 => true,
            _ => false,
        };
        if !sz_ok {
            return Err(CodegenError::UnsupportedBinop { size: sz, src, dst });
        }
        match (src, dst) {
            (Location::GPR(_), Location::GPR(_)) => {
                self.emit_alu2(op, sz, src, dst);
                Ok(())
            }
            (Location::GPR(_), Location::SIMD(_))
            | (Location::SIMD(_), Location::GPR(_))
            | (Location::SIMD(_), Location::SIMD(_)) => {
                match op {
                    AluOp::Mov => {
                        self.emit_alu2(op, sz, src, dst);
                        Ok(())
                    }
                    _ => Err(CodegenError::UnsupportedBinop { size: sz, src, dst }),
                }
            }
            (Location::Memory(_, _), Location::Memory(_, _)) => {
                self.relaxed_mem_mem(op, sz, src, dst);
                Ok(())
            }
            (Location::Imm8(_), Location::GPR(_))
            | (Location::Imm32(_), Location::GPR(_))
            | (Location::Imm64(_), Location::GPR(_))
            | (Location::Memory(_, _), Location::GPR(_)) => {
                let imm64_bad = match (src, sz) {
                    (Location::Imm64(_), Size::S32) => true,
                    _ => false,
                };
                if imm64_bad {
                    return Err(CodegenError::UnsupportedBinop { size: sz, src, dst });
                }
                self.relaxed_via_temp_to_gpr(op, sz, src, dst);
                Ok(())
            }
            (Location::GPR(_), Location::Memory(_, _))
            | (Location::SIMD(_), Location::Memory(_, _)) => {
                let mov_and_ok = match op {
                    AluOp::Mov => ldst_ok(sz, src),
                    _ => false,
                };
                if mov_and_ok {
                    proof {
                        if free_count(self@.used_gprs, 0, 8) > 0 {
                            lemma_first_free_exists(self@.used_gprs, 0, 8);
                        }
                    }
                    self.do_move(sz, src, dst);
                    Ok(())
                } else {
                    Err(CodegenError::UnsupportedBinop { size: sz, src, dst })
                }
            }
            (Location::Imm8(_), Location::Memory(_, _))
            | (Location::Imm32(_), Location::Memory(_, _))
            | (Location::Imm64(_), Location::Memory(_, _)) => {
                let bad = match (op, src, sz) {
                    (AluOp::Mov, Location::Imm64(_), Size::S32) => true,
                    (AluOp::Mov, _, _) => false,
                    _ => true,
                };
                if bad {
                    return Err(CodegenError::UnsupportedBinop { size: sz, src, dst });
                }
                self.relaxed_imm_to_mem(sz, src, dst);
                Ok(())
            }
            (Location::Imm8(_), Location::SIMD(_))
            | (Location::Imm32(_), Location::SIMD(_))
            | (Location::Imm64(_), Location::SIMD(_))
            | (Location::Memory(_, _), Location::SIMD(_)) => {
                let bad = match (op, src, sz) {
                    (AluOp::Mov, Location::Imm64(_), Size::S32) => true,
                    (AluOp::Mov, _, _) => false,
                    _ => true,
                };
                if bad {
                    return Err(CodegenError::UnsupportedBinop { size: sz, src, dst });
                }
                self.relaxed_to_simd(sz, src, dst);
                Ok(())
            }
            _ => Err(CodegenError::UnsupportedBinop { size: sz, src, dst }),
        }
    }

    /// A relaxed move between any two supported locations.
    pub fn emit_relaxed_mov(&mut self, sz: Size, src: Location, dst: Location) -> (r: Result<
        (),
        CodegenError,
    >)
        requires
            old(self)@.wf(),
            free_count(old(self)@.used_gprs, 0, 8) >= relaxed_temps_needed(sz, src, dst),
            offs_in_range(src, dst),
        ensures
            final(self)@.wf(),
            final(self)@.used_gprs == old(self)@.used_gprs,
            final(self)@.used_simd == old(self)@.used_simd,
            relaxed_supported(AluOp::Mov, sz, src, dst) ==> r is Ok && final(self)@
                == model_relaxed_binop(old(self)@, AluOp::Mov, sz, src, dst),
            !relaxed_supported(AluOp::Mov, sz, src, dst) ==> final(self)@ == old(self)@ && r
                == Err::<(), CodegenError>((CodegenError::UnsupportedBinop { size: sz, src, dst })),
    {
        self.emit_relaxed_binop(AluOp::Mov, sz, src, dst)
    }

    /// A relaxed compare between any two supported locations.
    pub fn emit_relaxed_cmp(&mut self, sz: Size, src: Location, dst: Location) -> (r: Result<
        (),
        CodegenError,
    >)
        requires
            old(self)@.wf(),
            free_count(old(self)@.used_gprs, 0, 8) >= relaxed_temps_needed(sz, src, dst),
            offs_in_range(src, dst),
        ensures
            final(self)@.wf(),
            final(self)@.used_gprs == old(self)@.used_gprs,
            final(self)@.used_simd == old(self)@.used_simd,
            relaxed_supported(AluOp::Cmp, sz, src, dst) ==> r is Ok && final(self)@
                == model_relaxed_binop(old(self)@, AluOp::Cmp, sz, src, dst),
            !relaxed_supported(AluOp::Cmp, sz, src, dst) ==> final(self)@ == old(self)@ && r
                == Err::<(), CodegenError>((CodegenError::UnsupportedBinop { size: sz, src, dst })),
    {
        self.emit_relaxed_binop(AluOp::Cmp, sz, src, dst)
    }
}

/// A source operand can be brought into a general register under `op`.
pub open spec fn operand_to_gpr_ok(op: AluOp, sz: Size, src: Location) -> bool {
    match src {
        Location::GPR(_) => true,
        Location::SIMD(_) => op is Mov,
        Location::Imm8(_) | Location::Imm32(_) => true,
        Location::Imm64(_) => sz is S64,
        Location::Memory(_, _) => true,
    }
}

/// A general register can be moved out to the result location.
pub open spec fn gpr_to_ret_ok(ret: Location) -> bool {
    match ret {
        Location::GPR(_) | Location::SIMD(_) | Location::Memory(_, _) => true,
        _ => false,
    }
}

/// The operand combinations a three-address binary operation accepts.
pub open spec fn binop_supported(
    op: AluOp,
    sz: Size,
    loc_a: Location,
    loc_b: Location,
    ret: Location,
) -> bool {
    if loc_a == ret {
        relaxed_supported(op, sz, loc_b, ret)
    } else {
        &&& operand_to_gpr_ok(AluOp::Mov, sz, loc_a)
        &&& operand_to_gpr_ok(op, sz, loc_b)
        &&& gpr_to_ret_ok(ret)
    }
}

/// Scratch registers a three-address binary operation needs.
pub open spec fn binop_temps_needed(sz: Size, loc_a: Location, loc_b: Location, ret: Location)
    -> int {
    if loc_a == ret {
        relaxed_temps_needed(sz, loc_b, ret)
    } else {
        let na = relaxed_temps_needed(sz, loc_a, Location::GPR(GPR::X0));
        let nb = relaxed_temps_needed(sz, loc_b, Location::GPR(GPR::X0));
        let nr = relaxed_temps_needed(sz, Location::GPR(GPR::X0), ret);
        1 + if na >= nb && na >= nr {
            na
        } else if nb >= nr {
            nb
        } else {
            nr
        }
    }
}

/// The memory offset of a location, if any, is above `i32::MIN`.
pub open spec fn loc_offs_ok(l: Location) -> bool {
    l matches Location::Memory(_, o) ==> o != i32::MIN
}

/// One three-address binary operation applied to the machine model:
/// when the first operand is not already the result location, it is
/// moved into an acquired temporary, the operation applied there, and
/// the temporary moved out and released.
pub open spec fn model_binop(
    m: MachineModel,
    op: AluOp,
    sz: Size,
    loc_a: Location,
    loc_b: Location,
    ret: Location,
) -> MachineModel {
    if loc_a == ret {
        model_relaxed_binop(m, op, sz, loc_b, ret)
    } else {
        let t = GPR::from_index_spec(opt_reg(first_free_in(m.used_gprs, 0, 8)));
        let ma = MachineModel {
            used_gprs: m.used_gprs.update(t.index(), true),
            ..m
        };
        let m1 = model_relaxed_binop(ma, AluOp::Mov, sz, loc_a, Location::GPR(t));
        let m2 = model_relaxed_binop(m1, op, sz, loc_b, Location::GPR(t));
        let m3 = model_relaxed_binop(m2, AluOp::Mov, sz, Location::GPR(t), ret);
        MachineModel { used_gprs: m.used_gprs, ..m3 }
    }
}

/// Executable form of `operand_to_gpr_ok`.
fn operand_to_gpr_ok_exec(op: AluOp, sz: Size, src: Location) -> (b: bool)
    ensures
        b == operand_to_gpr_ok(op, sz, src),
{
    match src {
        Location::GPR(_) => true,
        Location::SIMD(_) => match op {
            AluOp::Mov => true,
            _ => false,
        },
        Location::Imm8(_) | Location::Imm32(_) => true,
        Location::Imm64(_) => match sz {
            Size::S64 => true,
            _ => false,
        },
        Location::Memory(_, _) => true,
    }
}

impl MachineARM64 {
    /// A three-address binary operation at the given width, with both
    /// operands already resolved to locations.
    fn emit_binop(
        &mut self,
        op: AluOp,
        sz: Size,
        loc_a: Location,
        loc_b: Location,
        ret: Location,
    ) -> (r: Result<(), CodegenError>)
        requires
            old(self)@.wf(),
            sz is S32 || sz is S64,
            free_count(old(self)@.used_gprs, 0, 8) >= binop_temps_needed(sz, loc_a, loc_b, ret),
            loc_offs_ok(loc_a),
            loc_offs_ok(loc_b),
            loc_offs_ok(ret),
        ensures
            final(self)@.wf(),
            final(self)@.used_gprs == old(self)@.used_gprs,
            final(self)@.used_simd == old(self)@.used_simd,
            binop_supported(op, sz, loc_a, loc_b, ret) ==> r is Ok && final(self)@ == model_binop(
                old(self)@,
                op,
                sz,
                loc_a,
                loc_b,
                ret,
            ),
            !binop_supported(op, sz, loc_a, loc_b, ret) ==> final(self)@ == old(self)@ && r is Err,
    {
        if loc_eq(loc_a, ret) {
            return self.emit_relaxed_binop(op, sz, loc_b, ret);
        }
        let ok = operand_to_gpr_ok_exec(AluOp::Mov, sz, loc_a) && operand_to_gpr_ok_exec(
            op,
            sz,
            loc_b,
        ) && match ret {
            Location::GPR(_) | Location::SIMD(_) | Location::Memory(_, _) => true,
            _ => false,
        };
        if !ok {
            return Err(CodegenError::UnsupportedBinop { size: sz, src: loc_a, dst: ret });
        }
        proof {
            lemma_first_free_exists(old(self)@.used_gprs, 0, 8);
        }
        match self.acquire_temp_gpr() {
            Some(t) => {
                proof {
                    lemma_free_count_acquire(old(self)@.used_gprs, 0, 8, t.index());
                }
                match self.emit_relaxed_binop(AluOp::Mov, sz, loc_a, Location::GPR(t)) {
                    Ok(_) => {}
                    Err(_) => {
                        proof {
                            assert(false);
                        }
                    }
                }
                match self.emit_relaxed_binop(op, sz, loc_b, Location::GPR(t)) {
                    Ok(_) => {}
                    Err(_) => {
                        proof {
                            assert(false);
                        }
                    }
                }
                match self.emit_relaxed_binop(AluOp::Mov, sz, Location::GPR(t), ret) {
                    Ok(_) => {}
                    Err(_) => {
                        proof {
                            assert(false);
                        }
                    }
                }
                self.release_gpr(t);
                proof {
                    assert(self@.used_gprs =~= old(self)@.used_gprs);
                    assert(self@ == model_binop(old(self)@, op, sz, loc_a, loc_b, ret));
                }
                Ok(())
            }
            None => {
                proof {
                    assert(false);
                }
                Err(CodegenError::UnsupportedBinop { size: sz, src: loc_a, dst: ret })
            }
        }
    }

    /// A 32-bit integer binary operation with both operands popped from
    /// the virtual stack.
    pub fn emit_binop_i32(
        &mut self,
        op: AluOp,
        loc_a: Location,
        loc_b: Location,
        ret: Location,
    ) -> (r: Result<(), CodegenError>)
        requires
            old(self)@.wf(),
            free_count(old(self)@.used_gprs, 0, 8) >= binop_temps_needed(
                Size::S32,
                loc_a,
                loc_b,
                ret,
            ),
            loc_offs_ok(loc_a),
            loc_offs_ok(loc_b),
            loc_offs_ok(ret),
        ensures
            final(self)@.wf(),
            final(self)@.used_gprs == old(self)@.used_gprs,
            final(self)@.used_simd == old(self)@.used_simd,
            binop_supported(op, Size::S32, loc_a, loc_b, ret) ==> r is Ok && final(self)@
                == model_binop(old(self)@, op, Size::S32, loc_a, loc_b, ret),
            !binop_supported(op, Size::S32, loc_a, loc_b, ret) ==> final(self)@ == old(self)@ && r
                is Err,
    {
        self.emit_binop(op, Size::S32, loc_a, loc_b, ret)
    }

    /// A 64-bit integer binary operation with both operands popped from
    /// the virtual stack.
    pub fn emit_binop_i64(
        &mut self,
        op: AluOp,
        loc_a: Location,
        loc_b: Location,
        ret: Location,
    ) -> (r: Result<(), CodegenError>)
        requires
            old(self)@.wf(),
            free_count(old(self)@.used_gprs, 0, 8) >= binop_temps_needed(
                Size::S64,
                loc_a,
                loc_b,
                ret,
            ),
            loc_offs_ok(loc_a),
            loc_offs_ok(loc_b),
            loc_offs_ok(ret),
        ensures
            final(self)@.wf(),
            final(self)@.used_gprs == old(self)@.used_gprs,
            final(self)@.used_simd == old(self)@.used_simd,
            binop_supported(op, Size::S64, loc_a, loc_b, ret) ==> r is Ok && final(self)@
                == model_binop(old(self)@, op, Size::S64, loc_a, loc_b, ret),
            !binop_supported(op, Size::S64, loc_a, loc_b, ret) ==> final(self)@ == old(self)@ && r
                is Err,
    {
        self.emit_binop(op, Size::S64, loc_a, loc_b, ret)
    }

    /// 32-bit integer addition of two resolved operands.
    pub fn emit_binop_add32(&mut self, loc_a: Location, loc_b: Location, ret: Location) -> (r:
        Result<(), CodegenError>)
        requires
            old(self)@.wf(),
            free_count(old(self)@.used_gprs, 0, 8) >= binop_temps_needed(
                Size::S32,
                loc_a,
                loc_b,
                ret,
            ),
            loc_offs_ok(loc_a),
            loc_offs_ok(loc_b),
            loc_offs_ok(ret),
        ensures
            final(self)@.wf(),
            final(self)@.used_gprs == old(self)@.used_gprs,
            final(self)@.used_simd == old(self)@.used_simd,
            binop_supported(AluOp::Add, Size::S32, loc_a, loc_b, ret) ==> r is Ok && final(self)@
                == model_binop(old(self)@, AluOp::Add, Size::S32, loc_a, loc_b, ret),
            !binop_supported(AluOp::Add, Size::S32, loc_a, loc_b, ret) ==> final(self)@ == old(
                self,
            )@ && r is Err,
    {
        self.emit_binop(AluOp::Add, Size::S32, loc_a, loc_b, ret)
    }
}

/// The trap table with every offset of `[begin, end)` recorded under
/// the given source location and trap code.
pub open spec fn mark_range_traps(
    traps: Seq<TrapInformation>,
    begin: int,
    end: int,
    loc: SourceLoc,
    code: TrapCode,
) -> Seq<TrapInformation>
    decreases end - begin,
{
    if begin >= end {
        traps
    } else {
        mark_range_traps(
            crate::trap::tt_insert(
                traps,
                TrapInformation { code_offset: begin as u32, source_loc: loc, trap_code: code },
            ),
            begin + 1,
            end,
            loc,
            code,
        )
    }
}

/// Range marking preserves the strict offset order.
pub proof fn lemma_mark_range_sorted(
    traps: Seq<TrapInformation>,
    begin: int,
    end: int,
    loc: SourceLoc,
    code: TrapCode,
)
    requires
        tt_sorted(traps),
    ensures
        tt_sorted(mark_range_traps(traps, begin, end, loc, code)),
    decreases end - begin,
{
    if begin < end {
        crate::trap::lemma_tt_insert_sorted(
            traps,
            TrapInformation { code_offset: begin as u32, source_loc: loc, trap_code: code },
        );
        lemma_mark_range_sorted(
            crate::trap::tt_insert(
                traps,
                TrapInformation { code_offset: begin as u32, source_loc: loc, trap_code: code },
            ),
            begin + 1,
            end,
            loc,
            code,
        );
    }
}

impl MachineARM64 {
    /// Record an instruction-address-map entry for the native range
    /// from `begin` to the current offset, under the current source
    /// location.
    pub fn mark_instruction_address_end(&mut self, begin: usize)
        requires
            old(self)@.wf(),
            begin <= old(self)@.code().len(),
        ensures
            final(self)@.wf(),
            final(self)@ == (MachineModel {
                addr_map: old(self)@.addr_map.push(
                    InstructionAddressMap {
                        srcloc: SourceLoc(old(self)@.src_loc),
                        code_offset: begin,
                        code_len: (old(self)@.code().len() - begin) as usize,
                    },
                ),
                ..old(self)@
            }),
    {
        let offset = self.assembler.get_offset();
        self.instructions_address_map.push(
            InstructionAddressMap {
                srcloc: SourceLoc::new(self.src_loc),
                code_offset: begin,
                code_len: offset - begin,
            },
        );
    }

    /// Mark each native offset of `[begin, end)` with `code` in the
    /// trap table, and record the range in the address map.
    #[verifier::loop_isolation(false)]
    pub fn mark_address_range_with_trap_code(&mut self, code: TrapCode, begin: usize, end: usize)
        requires
            old(self)@.wf(),
            begin <= end,
            end <= u32::MAX,
            begin <= old(self)@.code().len(),
        ensures
            final(self)@.wf(),
            final(self)@ == (MachineModel {
                traps: mark_range_traps(
                    old(self)@.traps,
                    begin as int,
                    end as int,
                    SourceLoc(old(self)@.src_loc),
                    code,
                ),
                addr_map: old(self)@.addr_map.push(
                    InstructionAddressMap {
                        srcloc: SourceLoc(old(self)@.src_loc),
                        code_offset: begin,
                        code_len: (old(self)@.code().len() - begin) as usize,
                    },
                ),
                ..old(self)@
            }),
    {
        let ghost loc = SourceLoc(old(self)@.src_loc);
        let mut i: usize = begin;
        while i < end
            invariant
                begin <= i <= end,
                self@.wf(),
                self@ == (MachineModel { traps: self@.traps, ..old(self)@ }),
                mark_range_traps(old(self)@.traps, begin as int, end as int, loc, code)
                    == mark_range_traps(self@.traps, i as int, end as int, loc, code),
            decreases end - i,
        {
            let sl = SourceLoc::new(self.src_loc);
            self.trap_table.insert(i as u32, sl, code);
            proof {
                crate::trap::lemma_tt_insert_sorted(
                    old(self)@.traps,
                    TrapInformation { code_offset: i as u32, source_loc: sl, trap_code: code },
                );
            }
            i = i + 1;
        }
        self.mark_instruction_address_end(begin);
    }

    /// Mark the current offset as trappable with `code`, and record a
    /// zero-length address-map entry for it.
    pub fn mark_address_with_trap_code(&mut self, code: TrapCode)
        requires
            old(self)@.wf(),
            old(self)@.code().len() <= u32::MAX,
        ensures
            final(self)@.wf(),
            final(self)@ == (MachineModel {
                traps: crate::trap::tt_insert(
                    old(self)@.traps,
                    TrapInformation {
                        code_offset: old(self)@.code().len() as u32,
                        source_loc: SourceLoc(old(self)@.src_loc),
                        trap_code: code,
                    },
                ),
                addr_map: old(self)@.addr_map.push(
                    InstructionAddressMap {
                        srcloc: SourceLoc(old(self)@.src_loc),
                        code_offset: old(self)@.code().len() as usize,
                        code_len: 0,
                    },
                ),
                ..old(self)@
            }),
    {
        let offset = self.assembler.get_offset();
        let sl = SourceLoc::new(self.src_loc);
        self.trap_table.insert(offset as u32, sl, code);
        proof {
            crate::trap::lemma_tt_insert_sorted(
                old(self)@.traps,
                TrapInformation { code_offset: offset as u32, source_loc: sl, trap_code: code },
            );
        }
        self.mark_instruction_address_end(offset);
    }

    /// Mark the instruction at the current offset as trappable with
    /// `code`, returning that offset.
    pub fn mark_instruction_with_trap_code(&mut self, code: TrapCode) -> (r: usize)
        requires
            old(self)@.wf(),
            old(self)@.code().len() <= u32::MAX,
        ensures
            final(self)@.wf(),
            r == old(self)@.code().len(),
            final(self)@ == (MachineModel {
                traps: crate::trap::tt_insert(
                    old(self)@.traps,
                    TrapInformation {
                        code_offset: old(self)@.code().len() as u32,
                        source_loc: SourceLoc(old(self)@.src_loc),
                        trap_code: code,
                    },
                ),
                ..old(self)@
            }),
    {
        let offset = self.assembler.get_offset();
        let sl = SourceLoc::new(self.src_loc);
        self.trap_table.insert(offset as u32, sl, code);
        proof {
            crate::trap::lemma_tt_insert_sorted(
                old(self)@.traps,
                TrapInformation { code_offset: offset as u32, source_loc: sl, trap_code: code },
            );
        }
        offset
    }

    /// Record the stack-overflow trap at offset zero, where the
    /// prologue's frame setup faults on exhaustion.
    pub fn insert_stackoverflow(&mut self)
        requires
            old(self)@.wf(),
        ensures
            final(self)@.wf(),
            final(self)@ == (MachineModel {
                traps: crate::trap::tt_insert(
                    old(self)@.traps,
                    TrapInformation {
                        code_offset: 0,
                        source_loc: SourceLoc(old(self)@.src_loc),
                        trap_code: TrapCode::StackOverflow,
                    },
                ),
                addr_map: old(self)@.addr_map.push(
                    InstructionAddressMap {
                        srcloc: SourceLoc(old(self)@.src_loc),
                        code_offset: 0,
                        code_len: old(self)@.code().len() as usize,
                    },
                ),
                ..old(self)@
            }),
    {
        let sl = SourceLoc::new(self.src_loc);
        self.trap_table.insert(0, sl, TrapCode::StackOverflow);
        proof {
            crate::trap::lemma_tt_insert_sorted(
                old(self)@.traps,
                TrapInformation {
                    code_offset: 0,
                    source_loc: sl,
                    trap_code: TrapCode::StackOverflow,
                },
            );
        }
        self.mark_instruction_address_end(0);
    }

    /// All trap records collected so far, in offset order.
    pub fn collect_trap_information(&self) -> (r: Vec<TrapInformation>)
        requires
            self@.wf(),
        ensures
            r@ == self@.traps,
    {
        self.trap_table.entries()
    }

    /// The instruction-address map collected so far, ordered by
    /// increasing source offset as operations were processed.
    pub fn instructions_address_map(&self) -> (r: Vec<InstructionAddressMap>)
        ensures
            r@ == self@.addr_map,
    {
        let n = self.instructions_address_map.len();
        let mut r: Vec<InstructionAddressMap> = Vec::new();
        let mut i: usize = 0;
        while i < n
            invariant
                i <= n,
                n == self.instructions_address_map.len(),
                r@ == self.instructions_address_map@.take(i as int),
            decreases n - i,
        {
            r.push(self.instructions_address_map[i]);
            proof {
                assert(r@ =~= self.instructions_address_map@.take(i as int + 1));
            }
            i = i + 1;
        }
        proof {
            assert(self.instructions_address_map@.take(n as int) =~= self
                .instructions_address_map@);
        }
        r
    }
}

/// The operand width of a value type.
pub open spec fn ty_size(ty: crate::common::Type) -> Size {
    match ty {
        crate::common::Type::I32 | crate::common::Type::F32 => Size::S32,
        _ => Size::S64,
    }
}

/// The machine after the function prologue: the old frame base and the
/// return address are pushed as one pair, then the frame base is set to
/// the current stack pointer.
pub open spec fn model_prolog(m: MachineModel) -> MachineModel {
    model_move_location(
        model_double_push(m, Location::GPR(GPR::X27), Location::GPR(GPR::X30)),
        Size::S64,
        Location::GPR(GPR::XzrSp),
        Location::GPR(GPR::X27),
    )
}

/// The machine after the function epilogue: the stack pointer is
/// restored from the frame base, then the pair is popped back.
pub open spec fn model_epilog(m: MachineModel) -> MachineModel {
    model_double_pop(
        model_move_location(
            m,
            Size::S64,
            Location::GPR(GPR::X27),
            Location::GPR(GPR::XzrSp),
        ),
        Location::GPR(GPR::X27),
        Location::GPR(GPR::X30),
    )
}

/// One emitted branch placeholder with its fixup record.
pub open spec fn model_branch(
    m: MachineModel,
    word: u32,
    label: Label,
    kind: crate::emitter::FixupKind,
) -> MachineModel {
    MachineModel {
        emitter: AsmModel {
            code: m.emitter.code + crate::emitter::word_bytes(word),
            fixups: m.emitter.fixups.push(
                Fixup { at: m.emitter.code.len() as usize, label: label.0, kind },
            ),
            ..m.emitter
        },
        ..m
    }
}

impl MachineARM64 {
    /// Emit the function prologue.
    pub fn emit_function_prolog(&mut self)
        requires
            old(self)@.wf(),
        ensures
            final(self)@.wf(),
            final(self)@ == model_prolog(old(self)@),
    {
        match self.emit_double_push(
            Size::S64,
            Location::GPR(GPR::X27),
            Location::GPR(GPR::X30),
        ) {
            Ok(_) => {}
            Err(_) => {
                proof {
                    assert(false);
                }
            }
        }
        match self.move_location(
            Size::S64,
            Location::GPR(GPR::XzrSp),
            Location::GPR(GPR::X27),
        ) {
            Ok(_) => {}
            Err(_) => {
                proof {
                    assert(false);
                }
            }
        }
    }

    /// Emit the function epilogue.
    pub fn emit_function_epilog(&mut self)
        requires
            old(self)@.wf(),
        ensures
            final(self)@.wf(),
            final(self)@ == model_epilog(old(self)@),
    {
        match self.move_location(
            Size::S64,
            Location::GPR(GPR::X27),
            Location::GPR(GPR::XzrSp),
        ) {
            Ok(_) => {}
            Err(_) => {
                proof {
                    assert(false);
                }
            }
        }
        match self.emit_double_pop(
            Size::S64,
            Location::GPR(GPR::X27),
            Location::GPR(GPR::X30),
        ) {
            Ok(_) => {}
            Err(_) => {
                proof {
                    assert(false);
                }
            }
        }
    }

    /// Move the return value into the integer return register. NaN
    /// canonicalization is not supported on this backend.
    pub fn emit_function_return_value(
        &mut self,
        ty: crate::common::Type,
        canonicalize: bool,
        loc: Location,
    ) -> (r: Result<(), CodegenError>)
        requires
            old(self)@.wf(),
            free_count(old(self)@.used_gprs, 0, 8) >= relaxed_temps_needed(
                Size::S64,
                loc,
                Location::GPR(GPR::X0),
            ),
            loc_offs_ok(loc),
        ensures
            final(self)@.wf(),
            canonicalize ==> final(self)@ == old(self)@ && r == Err::<(), CodegenError>(
                (CodegenError::UnsupportedReturn { size: ty_size(ty), loc }),
            ),
            !canonicalize && relaxed_supported(
                AluOp::Mov,
                Size::S64,
                loc,
                Location::GPR(GPR::X0),
            ) ==> r is Ok && final(self)@ == model_relaxed_binop(
                old(self)@,
                AluOp::Mov,
                Size::S64,
                loc,
                Location::GPR(GPR::X0),
            ),
            !canonicalize && !relaxed_supported(
                AluOp::Mov,
                Size::S64,
                loc,
                Location::GPR(GPR::X0),
            ) ==> final(self)@ == old(self)@ && r is Err,
    {
        if canonicalize {
            let size = match ty {
                crate::common::Type::I32 | crate::common::Type::F32 => Size::S32,
                _ => Size::S64,
            };
            return Err(CodegenError::UnsupportedReturn { size, loc });
        }
        self.emit_relaxed_mov(Size::S64, loc, Location::GPR(GPR::X0))
    }

    /// Copy the integer return register into the float return register.
    pub fn emit_function_return_float(&mut self)
        requires
            old(self)@.wf(),
        ensures
            final(self)@.wf(),
            final(self)@ == model_move_location(
                old(self)@,
                Size::S64,
                Location::GPR(GPR::X0),
                Location::SIMD(NEON::V0),
            ),
    {
        match self.move_location(Size::S64, Location::GPR(GPR::X0), Location::SIMD(NEON::V0)) {
            Ok(_) => {}
            Err(_) => {
                proof {
                    assert(false);
                }
            }
        }
    }

    /// NaN canonicalization support of this backend.
    pub fn arch_supports_canonicalize_nan(&self) -> (r: bool)
        ensures
            r == false,
    {
        false
    }

    /// Emit one permanently undefined instruction as an illegal-opcode
    /// trap site.
    pub fn emit_illegal_op(&mut self)
        requires
            old(self)@.wf(),
        ensures
            final(self)@.wf(),
            final(self)@ == with_code(
                old(self)@,
                crate::emitter::word_bytes(crate::emitter::enc_udf()),
            ),
    {
        self.assembler.emit_udf();
    }

    /// Hand out a fresh, still unbound label.
    pub fn get_label(&mut self) -> (r: Label)
        requires
            old(self)@.wf(),
        ensures
            final(self)@.wf(),
            final(self)@ == (MachineModel {
                emitter: AsmModel {
                    labels: old(self)@.emitter.labels.push(None),
                    ..old(self)@.emitter
                },
                ..old(self)@
            }),
            r == (Label(old(self)@.emitter.labels.len() as usize)),
    {
        self.assembler.new_dynamic_label()
    }

    /// Bind `label` to the current offset.
    pub fn emit_label(&mut self, label: Label)
        requires
            old(self)@.wf(),
            label.0 < old(self)@.emitter.labels.len(),
            old(self)@.emitter.labels[label.0 as int] is None,
        ensures
            final(self)@.wf(),
            final(self)@ == (MachineModel {
                emitter: AsmModel {
                    labels: old(self)@.emitter.labels.update(
                        label.0 as int,
                        Some(old(self)@.code().len() as usize),
                    ),
                    ..old(self)@.emitter
                },
                ..old(self)@
            }),
    {
        self.assembler.emit_label(label);
    }

    /// Unconditional jump to a label.
    pub fn jmp_unconditionnal(&mut self, label: Label)
        requires
            old(self)@.wf(),
            label.0 < old(self)@.emitter.labels.len(),
        ensures
            final(self)@.wf(),
            final(self)@ == model_branch(
                old(self)@,
                crate::emitter::enc_b(0),
                label,
                crate::emitter::FixupKind::B,
            ),
    {
        self.assembler.emit_b_label(label);
    }

    /// Jump to a label when the last compare found the operands equal.
    pub fn jmp_on_equal(&mut self, label: Label)
        requires
            old(self)@.wf(),
            label.0 < old(self)@.emitter.labels.len(),
        ensures
            final(self)@.wf(),
            final(self)@ == model_branch(
                old(self)@,
                crate::emitter::enc_bcond(Condition::Eq.code() as u32, 0),
                label,
                crate::emitter::FixupKind::Bcond,
            ),
    {
        self.assembler.emit_bcond_label(Condition::Eq, label);
    }

    /// Jump to a label when the last compare found the operands
    /// different.
    pub fn jmp_on_different(&mut self, label: Label)
        requires
            old(self)@.wf(),
            label.0 < old(self)@.emitter.labels.len(),
        ensures
            final(self)@.wf(),
            final(self)@ == model_branch(
                old(self)@,
                crate::emitter::enc_bcond(Condition::Ne.code() as u32, 0),
                label,
                crate::emitter::FixupKind::Bcond,
            ),
    {
        self.assembler.emit_bcond_label(Condition::Ne, label);
    }

    /// Jump to a label on unsigned strictly-above.
    pub fn jmp_on_above(&mut self, label: Label)
        requires
            old(self)@.wf(),
            label.0 < old(self)@.emitter.labels.len(),
        ensures
            final(self)@.wf(),
            final(self)@ == model_branch(
                old(self)@,
                crate::emitter::enc_bcond(Condition::Hi.code() as u32, 0),
                label,
                crate::emitter::FixupKind::Bcond,
            ),
    {
        self.assembler.emit_bcond_label(Condition::Hi, label);
    }

    /// Jump to a label on unsigned above-or-equal (carry set).
    pub fn jmp_on_aboveequal(&mut self, label: Label)
        requires
            old(self)@.wf(),
            label.0 < old(self)@.emitter.labels.len(),
        ensures
            final(self)@.wf(),
            final(self)@ == model_branch(
                old(self)@,
                crate::emitter::enc_bcond(Condition::Cs.code() as u32, 0),
                label,
                crate::emitter::FixupKind::Bcond,
            ),
    {
        self.assembler.emit_bcond_label(Condition::Cs, label);
    }

    /// Jump to a label on unsigned below-or-equal.
    pub fn jmp_on_belowequal(&mut self, label: Label)
        requires
            old(self)@.wf(),
            label.0 < old(self)@.emitter.labels.len(),
        ensures
            final(self)@.wf(),
            final(self)@ == model_branch(
                old(self)@,
                crate::emitter::enc_bcond(Condition::Ls.code() as u32, 0),
                label,
                crate::emitter::FixupKind::Bcond,
            ),
    {
        self.assembler.emit_bcond_label(Condition::Ls, label);
    }

    /// Jump to a label when the last addition carried out: the
    /// unsigned-overflow branch of the bounds check.
    pub fn jmp_on_overflow(&mut self, label: Label)
        requires
            old(self)@.wf(),
            label.0 < old(self)@.emitter.labels.len(),
        ensures
            final(self)@.wf(),
            final(self)@ == model_branch(
                old(self)@,
                crate::emitter::enc_bcond(Condition::Cs.code() as u32, 0),
                label,
                crate::emitter::FixupKind::Bcond,
            ),
    {
        self.assembler.emit_bcond_label(Condition::Cs, label);
    }

    /// Call through a register.
    pub fn emit_call_register(&mut self, reg: GPR)
        requires
            old(self)@.wf(),
        ensures
            final(self)@.wf(),
            final(self)@ == with_code(
                old(self)@,
                crate::emitter::word_bytes(crate::emitter::enc_blr(crate::emitter::rnum(reg))),
            ),
    {
        self.assembler.emit_call_register(reg);
    }

    /// Call a label, recording the displacement fixup.
    pub fn emit_call_label(&mut self, label: Label)
        requires
            old(self)@.wf(),
            label.0 < old(self)@.emitter.labels.len(),
        ensures
            final(self)@.wf(),
            final(self)@ == model_branch(
                old(self)@,
                crate::emitter::enc_bl(0),
                label,
                crate::emitter::FixupKind::B,
            ),
    {
        self.assembler.emit_call_label(label);
    }

    /// Return from the function.
    pub fn emit_ret(&mut self)
        requires
            old(self)@.wf(),
        ensures
            final(self)@.wf(),
            final(self)@ == with_code(
                old(self)@,
                crate::emitter::word_bytes(crate::emitter::enc_ret()),
            ),
    {
        self.assembler.emit_ret();
    }

    /// Materialize a to-be-relocated 64-bit address into the call
    /// scratch register: four half-word moves, each with a relocation
    /// record for the linker to patch.
    pub fn move_with_reloc(
        &mut self,
        reloc_target: crate::common::RelocationTarget,
        relocations: &mut Vec<crate::common::Relocation>,
    )
        requires
            old(self)@.wf(),
            old(self)@.code().len() + 16 <= u32::MAX,
        ensures
            final(self)@.wf(),
            final(self)@ == with_code(
                old(self)@,
                crate::emitter::word_bytes(
                    crate::emitter::enc_movk(true, 0, 0, crate::emitter::rnum(GPR::X26)),
                ) + crate::emitter::word_bytes(
                    crate::emitter::enc_movk(true, 1, 0, crate::emitter::rnum(GPR::X26)),
                ) + crate::emitter::word_bytes(
                    crate::emitter::enc_movk(true, 2, 0, crate::emitter::rnum(GPR::X26)),
                ) + crate::emitter::word_bytes(
                    crate::emitter::enc_movk(true, 3, 0, crate::emitter::rnum(GPR::X26)),
                ),
            ),
            final(relocations)@ == old(relocations)@ + seq![
                (crate::common::Relocation {
                    kind: crate::common::RelocationKind::Arm64Movw0,
                    reloc_target,
                    offset: old(self)@.code().len() as u32,
                    addend: 0,
                }),
                (crate::common::Relocation {
                    kind: crate::common::RelocationKind::Arm64Movw1,
                    reloc_target,
                    offset: (old(self)@.code().len() + 4) as u32,
                    addend: 0,
                }),
                (crate::common::Relocation {
                    kind: crate::common::RelocationKind::Arm64Movw2,
                    reloc_target,
                    offset: (old(self)@.code().len() + 8) as u32,
                    addend: 0,
                }),
                (crate::common::Relocation {
                    kind: crate::common::RelocationKind::Arm64Movw3,
                    reloc_target,
                    offset: (old(self)@.code().len() + 12) as u32,
                    addend: 0,
                }),
            ],
    {
        let reloc_at = self.assembler.get_offset();
        relocations.push(
            crate::common::Relocation {
                kind: crate::common::RelocationKind::Arm64Movw0,
                reloc_target,
                offset: reloc_at as u32,
                addend: 0,
            },
        );
        self.assembler.emit_movk(Location::GPR(GPR::X26), 0, 0);
        let reloc_at = self.assembler.get_offset();
        relocations.push(
            crate::common::Relocation {
                kind: crate::common::RelocationKind::Arm64Movw1,
                reloc_target,
                offset: reloc_at as u32,
                addend: 0,
            },
        );
        self.assembler.emit_movk(Location::GPR(GPR::X26), 0, 16);
        let reloc_at = self.assembler.get_offset();
        relocations.push(
            crate::common::Relocation {
                kind: crate::common::RelocationKind::Arm64Movw2,
                reloc_target,
                offset: reloc_at as u32,
                addend: 0,
            },
        );
        self.assembler.emit_movk(Location::GPR(GPR::X26), 0, 32);
        let reloc_at = self.assembler.get_offset();
        relocations.push(
            crate::common::Relocation {
                kind: crate::common::RelocationKind::Arm64Movw3,
                reloc_target,
                offset: reloc_at as u32,
                addend: 0,
            },
        );
        self.assembler.emit_movk(Location::GPR(GPR::X26), 0, 48);
        proof {
            assert(self@.emitter.code =~= old(self)@.emitter.code + (crate::emitter::word_bytes(
                crate::emitter::enc_movk(true, 0, 0, crate::emitter::rnum(GPR::X26)),
            ) + crate::emitter::word_bytes(
                crate::emitter::enc_movk(true, 1, 0, crate::emitter::rnum(GPR::X26)),
            ) + crate::emitter::word_bytes(
                crate::emitter::enc_movk(true, 2, 0, crate::emitter::rnum(GPR::X26)),
            ) + crate::emitter::word_bytes(
                crate::emitter::enc_movk(true, 3, 0, crate::emitter::rnum(GPR::X26)),
            )));
            assert(relocations@ =~= old(relocations)@ + seq![
                (crate::common::Relocation {
                    kind: crate::common::RelocationKind::Arm64Movw0,
                    reloc_target,
                    offset: old(self)@.code().len() as u32,
                    addend: 0,
                }),
                (crate::common::Relocation {
                    kind: crate::common::RelocationKind::Arm64Movw1,
                    reloc_target,
                    offset: (old(self)@.code().len() + 4) as u32,
                    addend: 0,
                }),
                (crate::common::Relocation {
                    kind: crate::common::RelocationKind::Arm64Movw2,
                    reloc_target,
                    offset: (old(self)@.code().len() + 8) as u32,
                    addend: 0,
                }),
                (crate::common::Relocation {
                    kind: crate::common::RelocationKind::Arm64Movw3,
                    reloc_target,
                    offset: (old(self)@.code().len() + 12) as u32,
                    addend: 0,
                }),
            ]);
        }
    }

    /// Resolve all branch fixups and hand over the finished code
    /// buffer: the sole code artifact of one function's compilation.
    pub fn assembler_finalize(self) -> (r: Result<Vec<u8>, CodegenError>)
        requires
            self@.wf(),
        ensures
            r is Ok <==> crate::emitter::finalize_spec(
                self@.emitter.code,
                self@.emitter.fixups,
                self@.emitter.labels,
            ) is Ok,
            r matches Ok(bytes) ==> bytes@ == crate::emitter::finalize_spec(
                self@.emitter.code,
                self@.emitter.fixups,
                self@.emitter.labels,
            )->Ok_0,
            r matches Err(e) ==> e == crate::emitter::finalize_spec(
                self@.emitter.code,
                self@.emitter.fixups,
                self@.emitter.labels,
            )->Err_0,
    {
        self.assembler.finalize()
    }
}

/// Pushing each register of a list in order.
pub open spec fn model_push_gpr_list(m: MachineModel, regs: Seq<GPR>) -> MachineModel
    decreases regs.len(),
{
    if regs.len() == 0 {
        m
    } else {
        model_push_gpr_list(model_emit_push(m, Location::GPR(regs[0])), regs.skip(1))
    }
}

/// Popping each register of a list in reverse order.
pub open spec fn model_pop_gpr_list(m: MachineModel, regs: Seq<GPR>) -> MachineModel
    decreases regs.len(),
{
    if regs.len() == 0 {
        m
    } else {
        model_pop_gpr_list(model_emit_pop(m, Location::GPR(regs.last())), regs.drop_last())
    }
}

/// Storing each vector register of a list to its slot above the stack
/// pointer, from index `i` on.
pub open spec fn model_store_simd_from(m: MachineModel, regs: Seq<NEON>, i: int) -> MachineModel
    decreases regs.len() - i,
{
    if i < 0 || i >= regs.len() {
        m
    } else {
        model_store_simd_from(
            with_code(
                m,
                crate::emitter::word_bytes(
                    crate::emitter::str_word(
                        Size::S64,
                        Location::SIMD(regs[i]),
                        Location::Memory(GPR::XzrSp, (8 * i) as i32),
                    ),
                ),
            ),
            regs,
            i + 1,
        )
    }
}

/// Loading each vector register of a list from its slot above the
/// stack pointer, from index `i` on.
pub open spec fn model_load_simd_from(m: MachineModel, regs: Seq<NEON>, i: int) -> MachineModel
    decreases regs.len() - i,
{
    if i < 0 || i >= regs.len() {
        m
    } else {
        model_load_simd_from(
            with_code(
                m,
                crate::emitter::word_bytes(
                    crate::emitter::ldr_word(
                        Size::S64,
                        Location::SIMD(regs[i]),
                        Location::Memory(GPR::XzrSp, (8 * i) as i32),
                    ),
                ),
            ),
            regs,
            i + 1,
        )
    }
}

/// The in-use vector list never holds more than the 32 registers.
pub proof fn lemma_used_simd_list_len(used: Seq<bool>, lo: int)
    ensures
        used_simd_list(used, lo).len() <= 32 - lo || used_simd_list(used, lo).len() == 0,
    decreases 32 - lo,
{
    if 0 <= lo < 32 {
        lemma_used_simd_list_len(used, lo + 1);
    }
}

impl MachineARM64 {
    /// Push every in-use general-purpose register, in ascending
    /// register order, around a call.
    #[verifier::loop_isolation(false)]
    pub fn push_used_gpr(&mut self)
        requires
            old(self)@.wf(),
        ensures
            final(self)@.wf(),
            final(self)@ == model_push_gpr_list(
                old(self)@,
                used_gpr_list(old(self)@.used_gprs, 0),
            ),
    {
        let used = self.get_used_gprs();
        let ghost list = used_gpr_list(old(self)@.used_gprs, 0);
        let n = used.len();
        let mut i: usize = 0;
        proof {
            assert(list.skip(0) =~= list);
        }
        while i < n
            invariant
                i <= n,
                self@.wf(),
                model_push_gpr_list(old(self)@, list) == model_push_gpr_list(
                    self@,
                    list.skip(i as int),
                ),
            decreases n - i,
        {
            self.push64(Location::GPR(used[i]));
            proof {
                assert(list.skip(i as int).skip(1) =~= list.skip(i as int + 1));
            }
            i = i + 1;
        }
        proof {
            assert(list.skip(n as int) =~= Seq::<GPR>::empty());
        }
    }

    /// Pop every in-use general-purpose register, in descending
    /// register order, after a call.
    #[verifier::loop_isolation(false)]
    pub fn pop_used_gpr(&mut self)
        requires
            old(self)@.wf(),
        ensures
            final(self)@.wf(),
            final(self)@ == model_pop_gpr_list(
                old(self)@,
                used_gpr_list(old(self)@.used_gprs, 0),
            ),
    {
        let used = self.get_used_gprs();
        let ghost list = used_gpr_list(old(self)@.used_gprs, 0);
        let mut i: usize = used.len();
        proof {
            assert(list.take(used@.len() as int) =~= list);
        }
        while i > 0
            invariant
                i <= used@.len(),
                self@.wf(),
                model_pop_gpr_list(old(self)@, list) == model_pop_gpr_list(
                    self@,
                    list.take(i as int),
                ),
            decreases i,
        {
            let j = i - 1;
            self.pop64(Location::GPR(used[j]));
            proof {
                assert(list.take(j as int + 1).last() == list[j as int]);
                assert(list.take(j as int + 1).drop_last() =~= list.take(j as int));
            }
            i = j;
        }
        proof {
            assert(list.take(0) =~= Seq::<GPR>::empty());
        }
    }

    /// Spill every in-use vector register to fresh stack slots, in
    /// ascending register order, around a call.
    #[verifier::loop_isolation(false)]
    pub fn push_used_simd(&mut self)
        requires
            old(self)@.wf(),
            used_simd_list(old(self)@.used_simd, 0).len() * 8 >= 256 ==> first_free_in(
                old(self)@.used_gprs,
                0,
                8,
            ) is Some,
        ensures
            final(self)@.wf(),
            final(self)@ == model_store_simd_from(
                with_code(
                    old(self)@,
                    sp_adjust_words(
                        old(self)@,
                        (used_simd_list(old(self)@.used_simd, 0).len() * 8) as u32,
                        true,
                    ),
                ),
                used_simd_list(old(self)@.used_simd, 0),
                0,
            ),
    {
        let used = self.get_used_simd();
        let ghost list = used_simd_list(old(self)@.used_simd, 0);
        proof {
            lemma_used_simd_list_len(old(self)@.used_simd, 0);
        }
        let n = used.len();
        self.adjust_stack((n * 8) as u32);
        let ghost mid = with_code(old(self)@, sp_adjust_words(old(self)@, (n * 8) as u32, true));
        let mut i: usize = 0;
        while i < n
            invariant
                i <= n,
                self@.wf(),
                model_store_simd_from(mid, list, 0) == model_store_simd_from(
                    self@,
                    list,
                    i as int,
                ),
            decreases n - i,
        {
            self.assembler.emit_str(
                Size::S64,
                Location::SIMD(used[i]),
                Location::Memory(GPR::XzrSp, (i * 8) as i32),
            );
            i = i + 1;
        }
    }

    /// Reload every in-use vector register from its stack slot and
    /// release the slots, after a call.
    #[verifier::loop_isolation(false)]
    pub fn pop_used_simd(&mut self)
        requires
            old(self)@.wf(),
            used_simd_list(old(self)@.used_simd, 0).len() * 8 >= 256 ==> first_free_in(
                old(self)@.used_gprs,
                0,
                8,
            ) is Some,
        ensures
            final(self)@.wf(),
            final(self)@ == ({
                let mid = model_load_simd_from(
                    old(self)@,
                    used_simd_list(old(self)@.used_simd, 0),
                    0,
                );
                with_code(
                    mid,
                    sp_adjust_words(
                        mid,
                        (used_simd_list(old(self)@.used_simd, 0).len() * 8) as u32,
                        false,
                    ),
                )
            }),
    {
        let used = self.get_used_simd();
        let ghost list = used_simd_list(old(self)@.used_simd, 0);
        proof {
            lemma_used_simd_list_len(old(self)@.used_simd, 0);
        }
        let n = used.len();
        let mut i: usize = 0;
        while i < n
            invariant
                i <= n,
                self@.wf(),
                self@.used_gprs == old(self)@.used_gprs,
                model_load_simd_from(old(self)@, list, 0) == model_load_simd_from(
                    self@,
                    list,
                    i as int,
                ),
            decreases n - i,
        {
            self.assembler.emit_ldr(
                Size::S64,
                Location::SIMD(used[i]),
                Location::Memory(GPR::XzrSp, (i * 8) as i32),
            );
            i = i + 1;
        }
        self.sp_adjust((n * 8) as u32, false);
    }
}

/// The memory access a bounds-checked sequence performs once the real
/// address is in a register.
#[derive(Clone, Copy, Debug, PartialEq, Eq, Structural)]
pub enum MemoryAccess {
    /// 32-bit load into the result location.
    Load32 { ret: Location },
    /// Byte load, zero-extended.
    Load8Unsigned { ret: Location },
    /// Byte load, sign-extended.
    Load8Signed { ret: Location },
    /// Half-word load, zero-extended.
    Load16Unsigned { ret: Location },
    /// Half-word load, sign-extended.
    Load16Signed { ret: Location },
}

impl MemoryAccess {
    /// The access result location is a general register.
    pub open spec fn wf(self) -> bool {
        match self {
            MemoryAccess::Load32 { ret } => ret is GPR,
            MemoryAccess::Load8Unsigned { ret } => ret is GPR,
            MemoryAccess::Load8Signed { ret } => ret is GPR,
            MemoryAccess::Load16Unsigned { ret } => ret is GPR,
            MemoryAccess::Load16Signed { ret } => ret is GPR,
        }
    }
}

/// The one instruction of the access itself, at offset zero from the
/// computed address register.
pub open spec fn access_words(access: MemoryAccess, addr_reg: GPR) -> Seq<u8> {
    match access {
        MemoryAccess::Load32 { ret } => crate::emitter::word_bytes(
            crate::emitter::ldur_word(Size::S32, ret, crate::emitter::rnum(addr_reg), 0),
        ),
        MemoryAccess::Load8Unsigned { ret } => crate::emitter::word_bytes(
            crate::emitter::enc_ldrb(
                0,
                crate::emitter::rnum(addr_reg),
                crate::emitter::rnum(ret->GPR_0),
            ),
        ),
        MemoryAccess::Load8Signed { ret } => crate::emitter::word_bytes(
            crate::emitter::enc_ldrsb(
                0,
                crate::emitter::rnum(addr_reg),
                crate::emitter::rnum(ret->GPR_0),
            ),
        ),
        MemoryAccess::Load16Unsigned { ret } => crate::emitter::word_bytes(
            crate::emitter::enc_ldrh(
                0,
                crate::emitter::rnum(addr_reg),
                crate::emitter::rnum(ret->GPR_0),
            ),
        ),
        MemoryAccess::Load16Signed { ret } => crate::emitter::word_bytes(
            crate::emitter::enc_ldrsh(
                0,
                crate::emitter::rnum(addr_reg),
                crate::emitter::rnum(ret->GPR_0),
            ),
        ),
    }
}

/// A register marked in use.
pub open spec fn acquire_spec(m: MachineModel, t: GPR) -> MachineModel {
    MachineModel { used_gprs: m.used_gprs.update(t.index(), true), ..m }
}

/// Where the memory region's base pointer is read from: directly at a
/// fixed context offset, or, for imported memories, behind one level of
/// indirection already loaded into the address temporary.
pub open spec fn mo_base_loc(imported: bool, t_addr: GPR, offset: i32) -> Location {
    if imported {
        Location::Memory(t_addr, 0)
    } else {
        Location::Memory(GPR::X28, offset)
    }
}

/// Where the region's bound is read from, one pointer past the base.
pub open spec fn mo_bound_loc(imported: bool, t_addr: GPR, offset: i32) -> Location {
    if imported {
        Location::Memory(t_addr, 8)
    } else {
        Location::Memory(GPR::X28, (offset + 8) as i32)
    }
}

/// The effective-bound computation: load the bound, add the base, and
/// subtract the access size, materializing the size into a scratch
/// register when it does not fit the immediate field.
pub open spec fn mo_bound_calc(
    m: MachineModel,
    t_base: GPR,
    t_bound: GPR,
    bound_loc: Location,
    value_size: u32,
) -> MachineModel {
    let a = with_code(
        m,
        crate::emitter::word_bytes(
            crate::emitter::ldr_word(Size::S64, Location::GPR(t_bound), bound_loc),
        ),
    );
    let b = with_code(
        a,
        crate::emitter::word_bytes(
            crate::emitter::addsub_word(
                false,
                Size::S64,
                Location::GPR(t_bound),
                Location::GPR(t_base),
                Location::GPR(t_bound),
            ),
        ),
    );
    if value_size < 256 {
        with_code(
            b,
            crate::emitter::word_bytes(
                crate::emitter::addsub_word(
                    true,
                    Size::S64,
                    Location::GPR(t_bound),
                    Location::Imm8(value_size as u8),
                    Location::GPR(t_bound),
                ),
            ),
        )
    } else {
        let ts = picked_temp(b);
        with_code(
            b,
            crate::emitter::mov_imm64_words(
                value_size as u64,
                crate::emitter::rnum(ts),
            ) + crate::emitter::word_bytes(
                crate::emitter::addsub_word(
                    true,
                    Size::S64,
                    Location::GPR(t_bound),
                    Location::GPR(ts),
                    Location::GPR(t_bound),
                ),
            ),
        )
    }
}

/// The static-offset addition to the virtual address, followed by the
/// carry-out branch to the trap label.
pub open spec fn mo_offset_add(m: MachineModel, off: u32, t_addr: GPR, oob: Label)
    -> MachineModel {
    let a = if off <= 0xfff {
        with_code(
            m,
            crate::emitter::word_bytes(
                crate::emitter::addsub_word(
                    false,
                    Size::S32,
                    Location::Imm32(off),
                    Location::GPR(t_addr),
                    Location::GPR(t_addr),
                ),
            ),
        )
    } else {
        let ts = picked_temp(m);
        with_code(
            m,
            crate::emitter::mov_imm64_words(off as u64, crate::emitter::rnum(ts))
                + crate::emitter::word_bytes(
                crate::emitter::addsub_word(
                    false,
                    Size::S32,
                    Location::GPR(ts),
                    Location::GPR(t_addr),
                    Location::GPR(t_addr),
                ),
            ),
        )
    };
    model_branch(
        a,
        crate::emitter::enc_bcond(Condition::Cs.code() as u32, 0),
        oob,
        crate::emitter::FixupKind::Bcond,
    )
}

/// The machine after the address temporary is acquired and, for an
/// imported memory, the region pointer dereferenced into it.
pub open spec fn mo_w2(m: MachineModel, imported_memories: bool, offset: i32) -> MachineModel {
    let t_addr = picked_temp(m);
    let m1 = acquire_spec(m, t_addr);
    if imported_memories {
        model_relaxed_binop(
            m1,
            AluOp::Mov,
            Size::S64,
            Location::Memory(GPR::X28, offset),
            Location::GPR(t_addr),
        )
    } else {
        m1
    }
}

/// The machine after the base and bound temporaries are acquired, the
/// base loaded, and, when checking, the effective bound computed.
pub open spec fn mo_setup(
    m: MachineModel,
    imported_memories: bool,
    offset: i32,
    need_check: bool,
    value_size: u32,
) -> MachineModel {
    let t_addr = picked_temp(m);
    let w2 = mo_w2(m, imported_memories, offset);
    let t_base = picked_temp(w2);
    let w3 = acquire_spec(w2, t_base);
    let t_bound = picked_temp(w3);
    let w4 = acquire_spec(w3, t_bound);
    let w5 = with_code(
        w4,
        crate::emitter::word_bytes(
            crate::emitter::ldr_word(
                Size::S64,
                Location::GPR(t_base),
                mo_base_loc(imported_memories, t_addr, offset),
            ),
        ),
    );
    if need_check {
        mo_bound_calc(
            w5,
            t_base,
            t_bound,
            mo_bound_loc(imported_memories, t_addr, offset),
            value_size,
        )
    } else {
        w5
    }
}

/// The whole bounds-checked memory access sequence applied to the
/// machine model; `begin` and `end` of the access instruction's byte
/// range are tagged with the out-of-bounds trap code and recorded in
/// the address map.
#[verifier::opaque]
pub open spec fn model_memory_op(
    m: MachineModel,
    addr: Location,
    memarg: crate::common::MemoryImmediate,
    check_alignment: bool,
    value_size: u32,
    need_check: bool,
    imported_memories: bool,
    offset: i32,
    heap_access_oob: Label,
    access: MemoryAccess,
) -> MachineModel {
    let t_addr = picked_temp(m);
    let w2 = mo_w2(m, imported_memories, offset);
    let t_base = picked_temp(w2);
    let t_bound = picked_temp(acquire_spec(w2, t_base));
    let m6 = mo_setup(m, imported_memories, offset, need_check, value_size);
    let m7 = model_move_location(m6, Size::S32, addr, Location::GPR(t_addr));
    let m8 = if memarg.offset != 0 {
        mo_offset_add(m7, memarg.offset, t_addr, heap_access_oob)
    } else {
        m7
    };
    let m9 = with_code(
        m8,
        crate::emitter::word_bytes(
            crate::emitter::addsub_word(
                false,
                Size::S64,
                Location::GPR(t_base),
                Location::GPR(t_addr),
                Location::GPR(t_addr),
            ),
        ),
    );
    let m10 = if need_check {
        model_branch(
            with_code(
                m9,
                crate::emitter::word_bytes(
                    crate::emitter::enc_cmp_reg(
                        true,
                        crate::emitter::rnum(t_bound),
                        crate::emitter::rnum(t_addr),
                    ),
                ),
            ),
            crate::emitter::enc_bcond(Condition::Hi.code() as u32, 0),
            heap_access_oob,
            crate::emitter::FixupKind::Bcond,
        )
    } else {
        m9
    };
    let m11 = MachineModel {
        used_gprs: m10.used_gprs.update(t_bound.index(), false).update(t_base.index(), false),
        ..m10
    };
    let m12 = if check_alignment && memarg.align != 1 {
        model_branch(
            with_code(
                m11,
                crate::emitter::word_bytes(
                    crate::emitter::enc_tst_mask(
                        true,
                        crate::emitter::Assembler::mask_ones((memarg.align - 1) as u32),
                        crate::emitter::rnum(t_addr),
                    ),
                ),
            ),
            crate::emitter::enc_bcond(Condition::Ne.code() as u32, 0),
            heap_access_oob,
            crate::emitter::FixupKind::Bcond,
        )
    } else {
        m11
    };
    let begin = m12.emitter.code.len() as int;
    let m13 = with_code(m12, access_words(access, t_addr));
    let end = m13.emitter.code.len() as int;
    let m14 = MachineModel {
        traps: mark_range_traps(
            m13.traps,
            begin,
            end,
            SourceLoc(m13.src_loc),
            TrapCode::HeapAccessOutOfBounds,
        ),
        addr_map: m13.addr_map.push(
            InstructionAddressMap {
                srcloc: SourceLoc(m13.src_loc),
                code_offset: begin as usize,
                code_len: (end - begin) as usize,
            },
        ),
        ..m13
    };
    MachineModel { used_gprs: m14.used_gprs.update(t_addr.index(), false), ..m14 }
}

/// The extra scratch register the bounds-check sequence needs when the
/// access size or the static offset does not fit its immediate field,
/// or the address operand needs an address computation of its own.
pub open spec fn memory_op_extra_temp(
    addr: Location,
    memarg: crate::common::MemoryImmediate,
    value_size: u32,
) -> int {
    if value_size >= 256 || memarg.offset > 0xfff || move_needs_temp(
        Size::S32,
        addr,
        Location::GPR(GPR::X0),
    ) {
        1
    } else {
        0
    }
}

/// A relaxed move never emits more than its address computation and
/// one transfer instruction.
pub proof fn lemma_move_words_len(m: MachineModel, sz: Size, src: Location, dst: Location)
    ensures
        move_location_words(m, sz, src, dst).len() <= 24,
{
}

/// The access instruction is one word.
pub proof fn lemma_access_words_len(access: MemoryAccess, addr_reg: GPR)
    ensures
        access_words(access, addr_reg).len() == 4,
{
}

impl MachineARM64 {
    /// The opening of the bounds-checked sequence: acquire the three
    /// temporaries, resolve the region's base, and, when checking,
    /// compute the effective bound.
    #[verifier::rlimit(100)]
    fn memory_op_checks(
        &mut self,
        value_size: u32,
        need_check: bool,
        imported_memories: bool,
        offset: i32,
    ) -> (ts: (GPR, GPR, GPR))
        requires
            old(self)@.wf(),
            crate::emitter::uimm_ok(Size::S64, offset),
            crate::emitter::uimm_ok(Size::S64, (offset + 8) as i32),
            free_count(old(self)@.used_gprs, 0, 8) >= 3 + (if value_size >= 256 {
                1int
            } else {
                0int
            }),
        ensures
            final(self)@.wf(),
            final(self)@ == mo_setup(
                old(self)@,
                imported_memories,
                offset,
                need_check,
                value_size,
            ),
            ts.0 == picked_temp(old(self)@),
            ts.1 == picked_temp(mo_w2(old(self)@, imported_memories, offset)),
            ts.2 == picked_temp(
                acquire_spec(mo_w2(old(self)@, imported_memories, offset), ts.1),
            ),
            final(self)@.used_gprs == old(self)@.used_gprs.update(ts.0.index(), true).update(
                ts.1.index(),
                true,
            ).update(ts.2.index(), true),
            free_count(final(self)@.used_gprs, 0, 8) == free_count(old(self)@.used_gprs, 0, 8)
                - 3,
            final(self)@.used_simd == old(self)@.used_simd,
            final(self)@.emitter.labels == old(self)@.emitter.labels,
            final(self)@.src_loc == old(self)@.src_loc,
            final(self)@.code().len() <= old(self)@.code().len() + 48,
            0 <= ts.0.index() < 8 && 0 <= ts.1.index() < 8 && 0 <= ts.2.index() < 8,
            ts.0.index() != ts.1.index() && ts.0.index() != ts.2.index() && ts.1.index()
                != ts.2.index(),
    {
        let ghost w0 = old(self)@;
        proof {
            lemma_first_free_exists(w0.used_gprs, 0, 8);
        }
        let t_addr = match self.acquire_temp_gpr() {
            Some(t) => t,
            None => {
                proof {
                    assert(false);
                }
                GPR::X0
            }
        };
        let ghost w1 = acquire_spec(w0, t_addr);
        proof {
            lemma_free_count_acquire(w0.used_gprs, 0, 8, t_addr.index());
            assert(t_addr == picked_temp(w0));
            assert(self@ == w1);
        }
        if imported_memories {
            match self.emit_relaxed_binop(
                AluOp::Mov,
                Size::S64,
                Location::Memory(GPR::X28, offset),
                Location::GPR(t_addr),
            ) {
                Ok(_) => {}
                Err(_) => {
                    proof {
                        assert(false);
                    }
                }
            }
        }
        let ghost w2 = mo_w2(w0, imported_memories, offset);
        proof {
            assert(self@ == w2);
        }
        let (base_loc, bound_loc): (Location, Location) = if imported_memories {
            (Location::Memory(t_addr, 0), Location::Memory(t_addr, 8))
        } else {
            (Location::Memory(GPR::X28, offset), Location::Memory(GPR::X28, offset + 8))
        };
        proof {
            assert(base_loc == mo_base_loc(imported_memories, t_addr, offset));
            assert(bound_loc == mo_bound_loc(imported_memories, t_addr, offset));
            lemma_first_free_exists(self@.used_gprs, 0, 8);
        }
        let t_base = match self.acquire_temp_gpr() {
            Some(t) => t,
            None => {
                proof {
                    assert(false);
                }
                GPR::X0
            }
        };
        let ghost w3 = acquire_spec(w2, t_base);
        proof {
            lemma_free_count_acquire(w2.used_gprs, 0, 8, t_base.index());
            assert(t_base == picked_temp(w2));
            assert(self@ == w3);
            lemma_first_free_exists(self@.used_gprs, 0, 8);
        }
        let t_bound = match self.acquire_temp_gpr() {
            Some(t) => t,
            None => {
                proof {
                    assert(false);
                }
                GPR::X0
            }
        };
        let ghost w4 = acquire_spec(w3, t_bound);
        proof {
            lemma_free_count_acquire(w3.used_gprs, 0, 8, t_bound.index());
            assert(t_bound == picked_temp(w3));
            assert(self@ == w4);
        }
        self.assembler.emit_ldr(Size::S64, Location::GPR(t_base), base_loc);
        let ghost w5 = with_code(
            w4,
            crate::emitter::word_bytes(
                crate::emitter::ldr_word(Size::S64, Location::GPR(t_base), base_loc),
            ),
        );
        proof {
            assert(self@ == w5);
        }
        if need_check {
            self.assembler.emit_ldr(Size::S64, Location::GPR(t_bound), bound_loc);
            self.assembler.emit_add(
                Size::S64,
                Location::GPR(t_bound),
                Location::GPR(t_base),
                Location::GPR(t_bound),
            );
            let ghost mb = self@;
            if value_size < 256 {
                self.assembler.emit_sub(
                    Size::S64,
                    Location::GPR(t_bound),
                    Location::Imm8(value_size as u8),
                    Location::GPR(t_bound),
                );
            } else {
                proof {
                    lemma_first_free_exists(self@.used_gprs, 0, 8);
                }
                match self.acquire_temp_gpr() {
                    Some(ts) => {
                        proof {
                            lemma_free_count_acquire(mb.used_gprs, 0, 8, ts.index());
                        }
                        self.assembler.emit_mov_imm(Location::GPR(ts), value_size as u64);
                        self.assembler.emit_sub(
                            Size::S64,
                            Location::GPR(t_bound),
                            Location::GPR(ts),
                            Location::GPR(t_bound),
                        );
                        self.release_gpr(ts);
                        proof {
                            assert(ts == picked_temp(mb));
                            assert(self@.used_gprs =~= mb.used_gprs);
                            assert(self@.emitter.code =~= mb.emitter.code + (
                            crate::emitter::mov_imm64_words(
                                value_size as u64,
                                crate::emitter::rnum(ts),
                            ) + crate::emitter::word_bytes(
                                crate::emitter::addsub_word(
                                    true,
                                    Size::S64,
                                    Location::GPR(t_bound),
                                    Location::GPR(ts),
                                    Location::GPR(t_bound),
                                ),
                            )));
                            assert(self@ == with_code(
                                mb,
                                crate::emitter::mov_imm64_words(
                                    value_size as u64,
                                    crate::emitter::rnum(ts),
                                ) + crate::emitter::word_bytes(
                                    crate::emitter::addsub_word(
                                        true,
                                        Size::S64,
                                        Location::GPR(t_bound),
                                        Location::GPR(ts),
                                        Location::GPR(t_bound),
                                    ),
                                ),
                            ));
                        }
                    }
                    None => {
                        proof {
                            assert(false);
                        }
                    }
                }
            }
            proof {
                assert(self@ == mo_bound_calc(w5, t_base, t_bound, bound_loc, value_size));
            }
        }
        proof {
            assert(self@ == mo_setup(w0, imported_memories, offset, need_check, value_size));
            assert(self@.used_gprs =~= w0.used_gprs.update(t_addr.index(), true).update(
                t_base.index(),
                true,
            ).update(t_bound.index(), true));
        }
        (t_addr, t_base, t_bound)
    }

    /// The static-offset addition with its carry-out trap branch.
    #[verifier::rlimit(100)]
    fn memory_op_offset_add(&mut self, off: u32, t_addr: GPR, oob: Label)
        requires
            old(self)@.wf(),
            oob.0 < old(self)@.emitter.labels.len(),
            off > 0xfff ==> first_free_in(old(self)@.used_gprs, 0, 8) is Some,
        ensures
            final(self)@.wf(),
            final(self)@ == mo_offset_add(old(self)@, off, t_addr, oob),
    {
        let ghost w7 = old(self)@;
        if off <= 0xfff {
            self.assembler.emit_add(
                Size::S32,
                Location::Imm32(off),
                Location::GPR(t_addr),
                Location::GPR(t_addr),
            );
        } else {
            match self.acquire_temp_gpr() {
                Some(ts) => {
                    proof {
                        lemma_first_free_props(w7.used_gprs, 0, 8);
                        lemma_free_count_acquire(w7.used_gprs, 0, 8, ts.index());
                    }
                    self.assembler.emit_mov_imm(Location::GPR(ts), off as u64);
                    self.assembler.emit_add(
                        Size::S32,
                        Location::GPR(ts),
                        Location::GPR(t_addr),
                        Location::GPR(t_addr),
                    );
                    self.release_gpr(ts);
                    proof {
                        assert(ts == picked_temp(w7));
                        assert(self@.used_gprs =~= w7.used_gprs);
                        assert(self@.emitter.code =~= w7.emitter.code + (
                        crate::emitter::mov_imm64_words(
                            off as u64,
                            crate::emitter::rnum(ts),
                        ) + crate::emitter::word_bytes(
                            crate::emitter::addsub_word(
                                false,
                                Size::S32,
                                Location::GPR(ts),
                                Location::GPR(t_addr),
                                Location::GPR(t_addr),
                            ),
                        )));
                        assert(self@ == with_code(
                            w7,
                            crate::emitter::mov_imm64_words(
                                off as u64,
                                crate::emitter::rnum(ts),
                            ) + crate::emitter::word_bytes(
                                crate::emitter::addsub_word(
                                    false,
                                    Size::S32,
                                    Location::GPR(ts),
                                    Location::GPR(t_addr),
                                    Location::GPR(t_addr),
                                ),
                            ),
                        ));
                    }
                }
                None => {
                    proof {
                        assert(false);
                    }
                }
            }
        }
        self.assembler.emit_bcond_label(Condition::Cs, oob);
    }

    /// The access instruction itself, at offset zero from the computed
    /// address register.
    fn memory_op_access(&mut self, access: MemoryAccess, t_addr: GPR)
        requires
            old(self)@.wf(),
            access.wf(),
        ensures
            final(self)@.wf(),
            final(self)@ == with_code(old(self)@, access_words(access, t_addr)),
    {
        match access {
            MemoryAccess::Load32 { ret } => {
                self.assembler.emit_ldur(Size::S32, ret, t_addr, 0);
            }
            MemoryAccess::Load8Unsigned { ret } => {
                self.assembler.emit_ldrb(Size::S32, ret, t_addr, 0);
            }
            MemoryAccess::Load8Signed { ret } => {
                self.assembler.emit_ldrsb(Size::S32, ret, t_addr, 0);
            }
            MemoryAccess::Load16Unsigned { ret } => {
                self.assembler.emit_ldrh(Size::S32, ret, t_addr, 0);
            }
            MemoryAccess::Load16Signed { ret } => {
                self.assembler.emit_ldrsh(Size::S32, ret, t_addr, 0);
            }
        }
    }

    /// Emit the full bounds-checked memory access sequence: resolve
    /// the region's base and bound from the context, compute the
    /// effective bound and effective address, branch to the trap label
    /// on offset overflow, bound violation or misalignment, perform the
    /// access, and tag its byte range with the out-of-bounds trap code.
    #[verifier::rlimit(100)]
    pub fn memory_op(
        &mut self,
        addr: Location,
        memarg: &crate::common::MemoryImmediate,
        check_alignment: bool,
        value_size: u32,
        need_check: bool,
        imported_memories: bool,
        offset: i32,
        heap_access_oob: Label,
        access: MemoryAccess,
    )
        requires
            old(self)@.wf(),
            heap_access_oob.0 < old(self)@.emitter.labels.len(),
            operand_to_gpr_ok(AluOp::Mov, Size::S32, addr),
            loc_offs_ok(addr),
            crate::emitter::uimm_ok(Size::S64, offset),
            crate::emitter::uimm_ok(Size::S64, (offset + 8) as i32),
            memarg.align == 1 || memarg.align == 2 || memarg.align == 4 || memarg.align == 8
                || memarg.align == 16,
            free_count(old(self)@.used_gprs, 0, 8) >= 3 + memory_op_extra_temp(
                addr,
                *memarg,
                value_size,
            ),
            access.wf(),
            old(self)@.code().len() + 256 <= u32::MAX,
        ensures
            final(self)@.wf(),
            final(self)@ == model_memory_op(
                old(self)@,
                addr,
                *memarg,
                check_alignment,
                value_size,
                need_check,
                imported_memories,
                offset,
                heap_access_oob,
                access,
            ),
    {
        let ghost w0 = old(self)@;
        let tregs = self.memory_op_checks(value_size, need_check, imported_memories, offset);
        let t_addr = tregs.0;
        let t_base = tregs.1;
        let t_bound = tregs.2;
        let ghost w6 = mo_setup(w0, imported_memories, offset, need_check, value_size);
        proof {
            assert(self@ == w6);
            if move_needs_temp(Size::S32, addr, Location::GPR(t_addr)) {
                lemma_first_free_exists(self@.used_gprs, 0, 8);
            }
            lemma_move_words_len(self@, Size::S32, addr, Location::GPR(t_addr));
        }
        self.do_move(Size::S32, addr, Location::GPR(t_addr));
        let ghost w7 = model_move_location(w6, Size::S32, addr, Location::GPR(t_addr));
        proof {
            assert(self@ == w7);
        }
        if memarg.offset != 0 {
            proof {
                if memarg.offset > 0xfff {
                    lemma_first_free_exists(self@.used_gprs, 0, 8);
                }
            }
            self.memory_op_offset_add(memarg.offset, t_addr, heap_access_oob);
        }
        let ghost w8 = if memarg.offset != 0 {
            mo_offset_add(w7, memarg.offset, t_addr, heap_access_oob)
        } else {
            w7
        };
        proof {
            assert(self@ == w8);
        }
        self.assembler.emit_add(
            Size::S64,
            Location::GPR(t_base),
            Location::GPR(t_addr),
            Location::GPR(t_addr),
        );
        let ghost w9 = with_code(
            w8,
            crate::emitter::word_bytes(
                crate::emitter::addsub_word(
                    false,
                    Size::S64,
                    Location::GPR(t_base),
                    Location::GPR(t_addr),
                    Location::GPR(t_addr),
                ),
            ),
        );
        proof {
            assert(self@ == w9);
        }
        if need_check {
            self.assembler.emit_cmp(Size::S64, Location::GPR(t_bound), Location::GPR(t_addr));
            self.assembler.emit_bcond_label(Condition::Hi, heap_access_oob);
        }
        let ghost w10 = if need_check {
            model_branch(
                with_code(
                    w9,
                    crate::emitter::word_bytes(
                        crate::emitter::enc_cmp_reg(
                            true,
                            crate::emitter::rnum(t_bound),
                            crate::emitter::rnum(t_addr),
                        ),
                    ),
                ),
                crate::emitter::enc_bcond(Condition::Hi.code() as u32, 0),
                heap_access_oob,
                crate::emitter::FixupKind::Bcond,
            )
        } else {
            w9
        };
        proof {
            assert(self@ == w10);
        }
        self.release_gpr(t_bound);
        self.release_gpr(t_base);
        let ghost w11 = MachineModel {
            used_gprs: w10.used_gprs.update(t_bound.index(), false).update(
                t_base.index(),
                false,
            ),
            ..w10
        };
        proof {
            assert(self@ == w11);
        }
        if check_alignment && memarg.align != 1 {
            self.assembler.emit_tst(
                Size::S64,
                Location::Imm32(memarg.align - 1),
                Location::GPR(t_addr),
            );
            self.assembler.emit_bcond_label(Condition::Ne, heap_access_oob);
        }
        let ghost w12 = if check_alignment && memarg.align != 1 {
            model_branch(
                with_code(
                    w11,
                    crate::emitter::word_bytes(
                        crate::emitter::enc_tst_mask(
                            true,
                            crate::emitter::Assembler::mask_ones((memarg.align - 1) as u32),
                            crate::emitter::rnum(t_addr),
                        ),
                    ),
                ),
                crate::emitter::enc_bcond(Condition::Ne.code() as u32, 0),
                heap_access_oob,
                crate::emitter::FixupKind::Bcond,
            )
        } else {
            w11
        };
        proof {
            assert(self@ == w12);
        }
        let begin = self.assembler.get_offset();
        self.memory_op_access(access, t_addr);
        let ghost w13 = with_code(w12, access_words(access, t_addr));
        let end = self.assembler.get_offset();
        proof {
            assert(self@ == w13);
            lemma_access_words_len(access, t_addr);
            assert(end <= old(self)@.code().len() + 256);
        }
        self.mark_address_range_with_trap_code(TrapCode::HeapAccessOutOfBounds, begin, end);
        let ghost w14 = MachineModel {
            traps: mark_range_traps(
                w13.traps,
                w12.emitter.code.len() as int,
                w13.emitter.code.len() as int,
                SourceLoc(w13.src_loc),
                TrapCode::HeapAccessOutOfBounds,
            ),
            addr_map: w13.addr_map.push(
                InstructionAddressMap {
                    srcloc: SourceLoc(w13.src_loc),
                    code_offset: w12.emitter.code.len() as usize,
                    code_len: (w13.emitter.code.len() - w12.emitter.code.len()) as usize,
                },
            ),
            ..w13
        };
        proof {
            assert(self@ == w14);
        }
        self.release_gpr(t_addr);
        proof {
            assert(self@ == (MachineModel {
                used_gprs: w14.used_gprs.update(t_addr.index(), false),
                ..w14
            }));
            reveal(model_memory_op);
            assert(self@ == model_memory_op(
                old(self)@,
                addr,
                *memarg,
                check_alignment,
                value_size,
                need_check,
                imported_memories,
                offset,
                heap_access_oob,
                access,
            ));
        }
    }

}

impl MachineARM64 {
    /// 32-bit integer load from the guest memory region, with bounds
    /// checking when required.
    pub fn i32_load(
        &mut self,
        addr: Location,
        memarg: &crate::common::MemoryImmediate,
        ret: Location,
        need_check: bool,
        imported_memories: bool,
        offset: i32,
        heap_access_oob: Label,
    )
        requires
            old(self)@.wf(),
            heap_access_oob.0 < old(self)@.emitter.labels.len(),
            operand_to_gpr_ok(AluOp::Mov, Size::S32, addr),
            loc_offs_ok(addr),
            crate::emitter::uimm_ok(Size::S64, offset),
            crate::emitter::uimm_ok(Size::S64, (offset + 8) as i32),
            memarg.align == 1 || memarg.align == 2 || memarg.align == 4 || memarg.align == 8
                || memarg.align == 16,
            free_count(old(self)@.used_gprs, 0, 8) >= 3 + memory_op_extra_temp(addr, *memarg, 4),
            ret is GPR,
            old(self)@.code().len() + 256 <= u32::MAX,
        ensures
            final(self)@.wf(),
            final(self)@ == model_memory_op(
                old(self)@,
                addr,
                *memarg,
                false,
                4,
                need_check,
                imported_memories,
                offset,
                heap_access_oob,
                (MemoryAccess::Load32 { ret }),
            ),
    {
        self.memory_op(
            addr,
            memarg,
            false,
            4,
            need_check,
            imported_memories,
            offset,
            heap_access_oob,
            MemoryAccess::Load32 { ret },
        );
    }

    /// 8-bit zero-extending load from the guest memory region.
    pub fn i32_load_8u(
        &mut self,
        addr: Location,
        memarg: &crate::common::MemoryImmediate,
        ret: Location,
        need_check: bool,
        imported_memories: bool,
        offset: i32,
        heap_access_oob: Label,
    )
        requires
            old(self)@.wf(),
            heap_access_oob.0 < old(self)@.emitter.labels.len(),
            operand_to_gpr_ok(AluOp::Mov, Size::S32, addr),
            loc_offs_ok(addr),
            crate::emitter::uimm_ok(Size::S64, offset),
            crate::emitter::uimm_ok(Size::S64, (offset + 8) as i32),
            memarg.align == 1 || memarg.align == 2 || memarg.align == 4 || memarg.align == 8
                || memarg.align == 16,
            free_count(old(self)@.used_gprs, 0, 8) >= 3 + memory_op_extra_temp(addr, *memarg, 1),
            ret is GPR,
            old(self)@.code().len() + 256 <= u32::MAX,
        ensures
            final(self)@.wf(),
            final(self)@ == model_memory_op(
                old(self)@,
                addr,
                *memarg,
                false,
                1,
                need_check,
                imported_memories,
                offset,
                heap_access_oob,
                (MemoryAccess::Load8Unsigned { ret }),
            ),
    {
        self.memory_op(
            addr,
            memarg,
            false,
            1,
            need_check,
            imported_memories,
            offset,
            heap_access_oob,
            MemoryAccess::Load8Unsigned { ret },
        );
    }

    /// 8-bit sign-extending load from the guest memory region.
    pub fn i32_load_8s(
        &mut self,
        addr: Location,
        memarg: &crate::common::MemoryImmediate,
        ret: Location,
        need_check: bool,
        imported_memories: bool,
        offset: i32,
        heap_access_oob: Label,
    )
        requires
            old(self)@.wf(),
            heap_access_oob.0 < old(self)@.emitter.labels.len(),
            operand_to_gpr_ok(AluOp::Mov, Size::S32, addr),
            loc_offs_ok(addr),
            crate::emitter::uimm_ok(Size::S64, offset),
            crate::emitter::uimm_ok(Size::S64, (offset + 8) as i32),
            memarg.align == 1 || memarg.align == 2 || memarg.align == 4 || memarg.align == 8
                || memarg.align == 16,
            free_count(old(self)@.used_gprs, 0, 8) >= 3 + memory_op_extra_temp(addr, *memarg, 1),
            ret is GPR,
            old(self)@.code().len() + 256 <= u32::MAX,
        ensures
            final(self)@.wf(),
            final(self)@ == model_memory_op(
                old(self)@,
                addr,
                *memarg,
                false,
                1,
                need_check,
                imported_memories,
                offset,
                heap_access_oob,
                (MemoryAccess::Load8Signed { ret }),
            ),
    {
        self.memory_op(
            addr,
            memarg,
            false,
            1,
            need_check,
            imported_memories,
            offset,
            heap_access_oob,
            MemoryAccess::Load8Signed { ret },
        );
    }

    /// 16-bit zero-extending load from the guest memory region.
    pub fn i32_load_16u(
        &mut self,
        addr: Location,
        memarg: &crate::common::MemoryImmediate,
        ret: Location,
        need_check: bool,
        imported_memories: bool,
        offset: i32,
        heap_access_oob: Label,
    )
        requires
            old(self)@.wf(),
            heap_access_oob.0 < old(self)@.emitter.labels.len(),
            operand_to_gpr_ok(AluOp::Mov, Size::S32, addr),
            loc_offs_ok(addr),
            crate::emitter::uimm_ok(Size::S64, offset),
            crate::emitter::uimm_ok(Size::S64, (offset + 8) as i32),
            memarg.align == 1 || memarg.align == 2 || memarg.align == 4 || memarg.align == 8
                || memarg.align == 16,
            free_count(old(self)@.used_gprs, 0, 8) >= 3 + memory_op_extra_temp(addr, *memarg, 2),
            ret is GPR,
            old(self)@.code().len() + 256 <= u32::MAX,
        ensures
            final(self)@.wf(),
            final(self)@ == model_memory_op(
                old(self)@,
                addr,
                *memarg,
                false,
                2,
                need_check,
                imported_memories,
                offset,
                heap_access_oob,
                (MemoryAccess::Load16Unsigned { ret }),
            ),
    {
        self.memory_op(
            addr,
            memarg,
            false,
            2,
            need_check,
            imported_memories,
            offset,
            heap_access_oob,
            MemoryAccess::Load16Unsigned { ret },
        );
    }

    /// 16-bit sign-extending load from the guest memory region.
    pub fn i32_load_16s(
        &mut self,
        addr: Location,
        memarg: &crate::common::MemoryImmediate,
        ret: Location,
        need_check: bool,
        imported_memories: bool,
        offset: i32,
        heap_access_oob: Label,
    )
        requires
            old(self)@.wf(),
            heap_access_oob.0 < old(self)@.emitter.labels.len(),
            operand_to_gpr_ok(AluOp::Mov, Size::S32, addr),
            loc_offs_ok(addr),
            crate::emitter::uimm_ok(Size::S64, offset),
            crate::emitter::uimm_ok(Size::S64, (offset + 8) as i32),
            memarg.align == 1 || memarg.align == 2 || memarg.align == 4 || memarg.align == 8
                || memarg.align == 16,
            free_count(old(self)@.used_gprs, 0, 8) >= 3 + memory_op_extra_temp(addr, *memarg, 2),
            ret is GPR,
            old(self)@.code().len() + 256 <= u32::MAX,
        ensures
            final(self)@.wf(),
            final(self)@ == model_memory_op(
                old(self)@,
                addr,
                *memarg,
                false,
                2,
                need_check,
                imported_memories,
                offset,
                heap_access_oob,
                (MemoryAccess::Load16Signed { ret }),
            ),
    {
        self.memory_op(
            addr,
            memarg,
            false,
            2,
            need_check,
            imported_memories,
            offset,
            heap_access_oob,
            MemoryAccess::Load16Signed { ret },
        );
    }
}

/// Net stack depth of a sequence of single pushes (`true`) and single
/// pops (`false`).
pub open spec fn stack_depth(ops: Seq<bool>) -> int
    decreases ops.len(),
{
    if ops.len() == 0 {
        0
    } else {
        (if ops[0] { 1int } else { -1int }) + stack_depth(ops.skip(1))
    }
}

/// The parity flag after a sequence of single pushes and pops: every
/// operation flips it.
pub open spec fn parity_after(ops: Seq<bool>, pushed: bool) -> bool
    decreases ops.len(),
{
    if ops.len() == 0 {
        pushed
    } else {
        parity_after(ops.skip(1), !pushed)
    }
}

/// The native stack pointer movement of a sequence of single pushes
/// and pops, starting from parity `pushed`: a push allocates a fresh
/// 16-byte slot only when the stack is aligned, and a pop frees one
/// only when its value sits in the low half of a slot, exactly as
/// `push_words` and `pop_words` emit the pointer adjustments.
pub open spec fn sp_after(ops: Seq<bool>, pushed: bool) -> int
    decreases ops.len(),
{
    if ops.len() == 0 {
        0
    } else {
        (if ops[0] {
            if !pushed { -16int } else { 0int }
        } else {
            if pushed { 16int } else { 0int }
        }) + sp_after(ops.skip(1), !pushed)
    }
}

/// Number of 16-byte slots holding `n` single pushed values.
pub open spec fn slots(n: int) -> int {
    (n + 1) / 2
}

/// Depth and length of an operation sequence agree modulo two.
proof fn lemma_depth_parity(ops: Seq<bool>)
    ensures
        (stack_depth(ops) % 2 == 0) == (ops.len() % 2 == 0),
    decreases ops.len(),
{
    if ops.len() > 0 {
        lemma_depth_parity(ops.skip(1));
    }
}

/// Every operation flips the parity flag, so the flag after a sequence
/// is the initial flag exactly when the sequence has even length.
proof fn lemma_parity_flips(ops: Seq<bool>, pushed: bool)
    ensures
        parity_after(ops, pushed) == (pushed == (ops.len() % 2 == 0)),
    decreases ops.len(),
{
    if ops.len() > 0 {
        lemma_parity_flips(ops.skip(1), !pushed);
    }
}

/// Starting at depth `k` with the matching parity, a sequence that
/// never pops below depth zero moves the stack pointer by exactly the
/// change in allocated 16-byte slots.
proof fn lemma_sp_slots(ops: Seq<bool>, k: int)
    requires
        k >= 0,
        forall|i: int| 0 <= i <= ops.len() ==> k + stack_depth(#[trigger] ops.take(i)) >= 0,
    ensures
        sp_after(ops, k % 2 == 1) == -16 * (slots(k + stack_depth(ops)) - slots(k)),
    decreases ops.len(),
{
    if ops.len() == 0 {
        assert(stack_depth(ops) == 0);
    } else {
        let rest = ops.skip(1);
        let k2 = if ops[0] { k + 1 } else { k - 1 };
        assert(ops.take(1).skip(1) =~= Seq::<bool>::empty());
        assert(ops.take(1)[0] == ops[0]);
        assert(ops.take(1).len() == 1);
        assert(stack_depth(Seq::<bool>::empty()) == 0);
        assert(stack_depth(ops.take(1)) == (if ops[0] { 1int } else { -1int }));
        assert(k + stack_depth(ops.take(1)) >= 0);
        assert(k2 >= 0);
        assert forall|i: int| 0 <= i <= rest.len() implies k2 + stack_depth(
            #[trigger] rest.take(i),
        ) >= 0 by {
            assert(ops.take(i + 1).skip(1) =~= rest.take(i));
            assert(k + stack_depth(ops.take(i + 1)) >= 0);
        }
        lemma_sp_slots(rest, k2);
        assert(ops.take(ops.len() as int) =~= ops);
    }
}

/// Push/pop parity invariant: any sequence of single pushes and pops
/// that never pops an empty stack and drains everything it pushed
/// returns the native stack pointer exactly to its initial value and
/// the parity flag to its initial state.
pub proof fn lemma_push_pop_parity(ops: Seq<bool>)
    requires
        forall|i: int| 0 <= i <= ops.len() ==> stack_depth(#[trigger] ops.take(i)) >= 0,
        stack_depth(ops) == 0,
    ensures
        sp_after(ops, false) == 0,
        parity_after(ops, false) == false,
{
    lemma_sp_slots(ops, 0);
    lemma_depth_parity(ops);
    lemma_parity_flips(ops, false);
}

/// Marking the range `[b, e)` leaves every record below `b` unchanged.
proof fn lemma_mark_range_lookup_below(
    traps: Seq<TrapInformation>,
    b: int,
    e: int,
    loc: SourceLoc,
    code: TrapCode,
    o: u32,
)
    requires
        tt_sorted(traps),
        0 <= b,
        e <= u32::MAX + 1,
        o < b,
    ensures
        crate::trap::tt_lookup(mark_range_traps(traps, b, e, loc, code), o)
            == crate::trap::tt_lookup(traps, o),
    decreases e - b,
{
    if b < e {
        let entry = TrapInformation { code_offset: b as u32, source_loc: loc, trap_code: code };
        crate::trap::lemma_tt_insert_lookup(traps, entry, o);
        crate::trap::lemma_tt_insert_sorted(traps, entry);
        lemma_mark_range_lookup_below(
            crate::trap::tt_insert(traps, entry),
            b + 1,
            e,
            loc,
            code,
            o,
        );
    }
}

/// Trap table coverage: after the byte range `[begin, end)` of a
/// bounds-checked access is marked, every offset of the range maps to
/// the given trap code under the source location current at emission.
pub proof fn lemma_mark_range_covers(
    traps: Seq<TrapInformation>,
    begin: int,
    end: int,
    loc: SourceLoc,
    code: TrapCode,
    o: int,
)
    requires
        tt_sorted(traps),
        0 <= begin <= o < end,
        end <= u32::MAX + 1,
    ensures
        crate::trap::tt_lookup(mark_range_traps(traps, begin, end, loc, code), o as u32) == Some(
            TrapInformation { code_offset: o as u32, source_loc: loc, trap_code: code },
        ),
    decreases end - begin,
{
    let entry = TrapInformation {
        code_offset: begin as u32,
        source_loc: loc,
        trap_code: code,
    };
    crate::trap::lemma_tt_insert_sorted(traps, entry);
    if o == begin {
        crate::trap::lemma_tt_insert_lookup(traps, entry, o as u32);
        lemma_mark_range_lookup_below(
            crate::trap::tt_insert(traps, entry),
            begin + 1,
            end,
            loc,
            code,
            o as u32,
        );
    } else {
        lemma_mark_range_covers(
            crate::trap::tt_insert(traps, entry),
            begin + 1,
            end,
            loc,
            code,
            o,
        );
    }
}

/// One virtual-stack operation of a compilation, as handed to the
/// machine by the driver.
#[derive(Clone, Copy, Debug, PartialEq, Eq, Structural)]
pub enum CompileStep {
    Push(Size, Location),
    Pop(Size, Location),
    DoublePush(Size, Location, Location),
    DoublePop(Size, Location, Location),
    RelaxedBinop(AluOp, Size, Location, Location),
    SetSrcLoc(u32),
    IllegalOp,
    Ret,
}

/// The machine model after one driver operation; an operation the
/// backend rejects leaves the model unchanged, as the corresponding
/// method reports the failure without emitting.
pub open spec fn model_step(m: MachineModel, s: CompileStep) -> MachineModel {
    match s {
        CompileStep::Push(sz, l) => if push_supported(sz, l) {
            model_emit_push(m, l)
        } else {
            m
        },
        CompileStep::Pop(sz, l) => if push_supported(sz, l) {
            model_emit_pop(m, l)
        } else {
            m
        },
        CompileStep::DoublePush(sz, a, b) => if push_supported(sz, a) && push_supported(sz, b) {
            model_double_push(m, a, b)
        } else {
            m
        },
        CompileStep::DoublePop(sz, a, b) => if push_supported(sz, a) && push_supported(sz, b) {
            model_double_pop(m, a, b)
        } else {
            m
        },
        CompileStep::RelaxedBinop(op, sz, src, dst) => if relaxed_supported(op, sz, src, dst) {
            model_relaxed_binop(m, op, sz, src, dst)
        } else {
            m
        },
        CompileStep::SetSrcLoc(x) => MachineModel { src_loc: x, ..m },
        CompileStep::IllegalOp => with_code(
            m,
            crate::emitter::word_bytes(crate::emitter::enc_udf()),
        ),
        CompileStep::Ret => with_code(
            m,
            crate::emitter::word_bytes(crate::emitter::enc_ret()),
        ),
    }
}

/// The machine model after a whole sequence of driver operations.
pub open spec fn model_run(m: MachineModel, steps: Seq<CompileStep>) -> MachineModel
    decreases steps.len(),
{
    if steps.len() == 0 {
        m
    } else {
        model_run(model_step(m, steps[0]), steps.skip(1))
    }
}

/// Determinism: compiling the same virtual-instruction sequence on two
/// fresh machine instances yields identical code buffers, trap tables
/// and address maps — the model after a run is a function of the
/// operations alone.
pub proof fn lemma_compilation_deterministic(
    m1: MachineModel,
    m2: MachineModel,
    steps: Seq<CompileStep>,
)
    requires
        m1 == MachineModel::init(),
        m2 == MachineModel::init(),
    ensures
        model_run(m1, steps) == model_run(m2, steps),
{
}

impl MachineARM64 {
    /// Generate the standard host-to-native trampoline for a
    /// signature. The generator is stateless with respect to this
    /// machine's allocator and buffers.
    pub fn gen_std_trampoline(
        &self,
        sig: &crate::common::FunctionType,
        calling_convention: crate::common::CallingConvention,
    ) -> (r: Result<crate::common::FunctionBody, CodegenError>)
        ensures
            crate::trampoline::sig_supported(
                sig.params@.len() as int,
                sig.results@.len() as int,
            ) ==> (r matches Ok(body) && body.body@ == crate::trampoline::std_trampoline_words(
                sig.params@.len() as int,
                sig.results@.len() as int,
            )),
            !crate::trampoline::sig_supported(
                sig.params@.len() as int,
                sig.results@.len() as int,
            ) ==> r == Err::<crate::common::FunctionBody, CodegenError>(
                CodegenError::UnsupportedSignature,
            ),
    {
        crate::trampoline::gen_std_trampoline_arm64(sig, calling_convention)
    }

    /// Generate the native-to-host trampoline for a dynamic import.
    pub fn gen_std_dynamic_import_trampoline(
        &self,
        vmoffsets: &crate::common::VMOffsets,
        sig: &crate::common::FunctionType,
        calling_convention: crate::common::CallingConvention,
    ) -> (r: Result<crate::common::FunctionBody, CodegenError>)
        ensures
            crate::trampoline::sig_supported(
                sig.params@.len() as int,
                sig.results@.len() as int,
            ) ==> (r matches Ok(body) && body.body@ == crate::trampoline::dyn_trampoline_words(
                sig.params@.len() as int,
                sig.results@.len() as int,
            )),
            !crate::trampoline::sig_supported(
                sig.params@.len() as int,
                sig.results@.len() as int,
            ) ==> r == Err::<crate::common::FunctionBody, CodegenError>(
                CodegenError::UnsupportedSignature,
            ),
    {
        crate::trampoline::gen_std_dynamic_import_trampoline_arm64(
            vmoffsets,
            sig,
            calling_convention,
        )
    }

    /// Generate the per-import thunk through which call sites reach an
    /// imported function.
    pub fn gen_import_call_trampoline(
        &self,
        vmoffsets: &crate::common::VMOffsets,
        index: u32,
        sig: &crate::common::FunctionType,
        calling_convention: crate::common::CallingConvention,
    ) -> (r: crate::common::CustomSection)
        requires
            vmoffsets.function_imports_begin + index * vmoffsets.import_entry_size()
                + vmoffsets.import_entry_size() <= u32::MAX,
            vmoffsets.pointer_size == 8,
            crate::emitter::uimm_ok(
                Size::S64,
                (vmoffsets.function_imports_begin + index * vmoffsets.import_entry_size()) as i32,
            ),
            crate::emitter::uimm_ok(
                Size::S64,
                (vmoffsets.function_imports_begin + index * vmoffsets.import_entry_size()
                    + 8) as i32,
            ),
        ensures
            r.protection == crate::common::CustomSectionProtection::ReadExecute,
            r.bytes.bytes@ == crate::trampoline::import_trampoline_words(
                (vmoffsets.function_imports_begin + index
                    * vmoffsets.import_entry_size()) as u32,
                (vmoffsets.function_imports_begin + index * vmoffsets.import_entry_size()
                    + 8) as u32,
            ),
            r.relocations@ == Seq::<crate::common::Relocation>::empty(),
    {
        crate::trampoline::gen_import_call_trampoline_arm64(
            vmoffsets,
            index,
            sig,
            calling_convention,
        )
    }
}

/// Structural equality of two locations.
fn loc_eq(a: Location, b: Location) -> (r: bool)
    ensures
        r == (a == b),
{
    a == b
}

} // verus!
