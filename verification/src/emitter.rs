//! Low-level ARM64 instruction encoder.
//!
//! The `Assembler` owns a growing byte buffer of little-endian 32-bit
//! instruction words, a table of code labels, and the list of branch
//! fixups still waiting for a label offset. One entry point per native
//! instruction shape appends the exact encoding stated by the matching
//! `enc_*` specification function; `finalize` patches every recorded
//! branch with its resolved displacement and hands the buffer over.

use vstd::prelude::*;

verus! {

use crate::CodegenError;
use crate::location::{Condition, GPR, Location, NEON, Size};

/// A code label: an index into the assembler's label table.
#[derive(Clone, Copy, Debug, PartialEq, Eq, Structural)]
pub struct Label(pub usize);

/// The instruction field a pending branch patches.
#[derive(Clone, Copy, Debug, PartialEq, Eq, Structural)]
pub enum FixupKind {
    /// Conditional branch: 19-bit word displacement at bit 5.
    Bcond,
    /// Unconditional branch or branch-with-link: 26-bit word
    /// displacement at bit 0.
    B,
}

/// A branch instruction waiting for its label to be bound.
#[derive(Clone, Copy, Debug, PartialEq, Eq, Structural)]
pub struct Fixup {
    /// Byte offset of the placeholder instruction word.
    pub at: usize,
    /// Index of the referenced label.
    pub label: usize,
    /// Which displacement field to patch.
    pub kind: FixupKind,
}

/// Mathematical model of an assembler: the bytes emitted so far, the
/// label table, and the pending branch fixups.
pub ghost struct AsmModel {
    pub code: Seq<u8>,
    pub labels: Seq<Option<usize>>,
    pub fixups: Seq<Fixup>,
}

impl Fixup {
    /// The fixup patches a whole instruction word inside the buffer and
    /// refers to an existing label.
    pub open spec fn wf_in(self, m: AsmModel) -> bool {
        &&& self.at % 4 == 0
        &&& self.at + 4 <= m.code.len()
        &&& self.label < m.labels.len()
    }
}

/// A bound label lies on an instruction boundary inside the buffer.
pub open spec fn label_wf(l: Option<usize>, len: nat) -> bool {
    match l {
        Some(o) => o % 4 == 0 && o <= len,
        None => true,
    }
}

impl AsmModel {
    /// Well-formedness: whole words only, and every fixup and bound
    /// label points at an instruction boundary inside the buffer.
    pub open spec fn wf(self) -> bool {
        &&& self.code.len() % 4 == 0
        &&& forall|i: int|
            0 <= i < self.fixups.len() ==> (#[trigger] self.fixups[i]).wf_in(self)
        &&& forall|i: int|
            0 <= i < self.labels.len() ==> label_wf(#[trigger] self.labels[i], self.code.len())
    }
}

/// The four little-endian bytes of one instruction word.
pub open spec fn word_bytes(w: u32) -> Seq<u8> {
    seq![
        (w & 0xff) as u8,
        ((w >> 8) & 0xff) as u8,
        ((w >> 16) & 0xff) as u8,
        ((w >> 24) & 0xff) as u8,
    ]
}

/// Architecture-specific low-level encoder appending to a code buffer.
pub struct Assembler {
    buf: Vec<u8>,
    labels: Vec<Option<usize>>,
    fixups: Vec<Fixup>,
}

impl View for Assembler {
    type V = AsmModel;

    closed spec fn view(&self) -> AsmModel {
        AsmModel { code: self.buf@, labels: self.labels@, fixups: self.fixups@ }
    }
}

impl Assembler {
    /// A fresh assembler with an empty buffer and no labels.
    pub fn new() -> (r: Assembler)
        ensures
            r@.wf(),
            r@.code == Seq::<u8>::empty(),
            r@.labels == Seq::<Option<usize>>::empty(),
            r@.fixups == Seq::<Fixup>::empty(),
    {
        Assembler { buf: Vec::new(), labels: Vec::new(), fixups: Vec::new() }
    }

    /// Current byte offset: the length of the code emitted so far.
    pub fn get_offset(&self) -> (o: usize)
        ensures
            o == self@.code.len(),
    {
        self.buf.len()
    }

    /// Append one instruction word, little-endian.
    fn push_word(&mut self, w: u32)
        requires
            old(self)@.wf(),
        ensures
            final(self)@.wf(),
            final(self)@ == (AsmModel { code: old(self)@.code + word_bytes(w), ..old(self)@ }),
    {
        self.buf.push((w & 0xff) as u8);
        self.buf.push(((w >> 8) & 0xff) as u8);
        self.buf.push(((w >> 16) & 0xff) as u8);
        self.buf.push(((w >> 24) & 0xff) as u8);
        proof {
            assert(self.buf@ =~= old(self).buf@ + word_bytes(w));
            assert forall|i: int| 0 <= i < self@.fixups.len() implies (
                #[trigger] self@.fixups[i]).wf_in(self@) by {
                assert(old(self)@.fixups[i].wf_in(old(self)@));
            }
            assert forall|i: int| 0 <= i < self@.labels.len() implies label_wf(
                #[trigger] self@.labels[i],
                self@.code.len(),
            ) by {
                assert(label_wf(old(self)@.labels[i], old(self)@.code.len()));
            }
        }
    }

    /// Hand out a fresh, still unbound label.
    pub fn new_dynamic_label(&mut self) -> (r: Label)
        requires
            old(self)@.wf(),
        ensures
            final(self)@.wf(),
            final(self)@ == (AsmModel {
                labels: old(self)@.labels.push(None),
                ..old(self)@
            }),
            r == (Label(old(self)@.labels.len() as usize)),
    {
        let id = self.labels.len();
        self.labels.push(None);
        proof {
            assert forall|i: int| 0 <= i < self@.fixups.len() implies (
                #[trigger] self@.fixups[i]).wf_in(self@) by {
                assert(old(self)@.fixups[i].wf_in(old(self)@));
            }
        }
        Label(id)
    }

    /// Bind `label` to the current offset.
    pub fn emit_label(&mut self, label: Label)
        requires
            old(self)@.wf(),
            label.0 < old(self)@.labels.len(),
            old(self)@.labels[label.0 as int] is None,
        ensures
            final(self)@.wf(),
            final(self)@ == (AsmModel {
                labels: old(self)@.labels.update(
                    label.0 as int,
                    Some(old(self)@.code.len() as usize),
                ),
                ..old(self)@
            }),
    {
        let o = self.buf.len();
        self.labels.set(label.0, Some(o));
        proof {
            assert forall|i: int| 0 <= i < self@.fixups.len() implies (
                #[trigger] self@.fixups[i]).wf_in(self@) by {
                assert(old(self)@.fixups[i].wf_in(old(self)@));
            }
            assert forall|i: int| 0 <= i < self@.labels.len() implies label_wf(
                #[trigger] self@.labels[i],
                self@.code.len(),
            ) by {
                if i != label.0 {
                    assert(label_wf(old(self)@.labels[i], old(self)@.code.len()));
                }
            }
        }
    }
}

/// Encoding register number of a general-purpose register.
pub open spec fn rnum(r: GPR) -> u32 {
    r.index() as u32
}

/// Encoding register number of a vector register.
pub open spec fn vnum(r: NEON) -> u32 {
    r.index() as u32
}

/// True for 64-bit operand width: the `sf` bit of many encodings.
pub open spec fn sf_of(sz: Size) -> bool {
    sz is S64
}

/// ORR shifted-register form of a register-to-register move.
pub open spec fn enc_mov_reg(sf: bool, rm: u32, rd: u32) -> u32 {
    (if sf { 0xAA0003E0u32 } else { 0x2A0003E0u32 }) | ((rm & 0x1f) << 16) | (rd & 0x1f)
}

/// ADD-immediate-zero form of a move that can read or write the stack
/// pointer.
pub open spec fn enc_mov_sp(sf: bool, rn: u32, rd: u32) -> u32 {
    (if sf { 0x91000000u32 } else { 0x11000000u32 }) | ((rn & 0x1f) << 5) | (rd & 0x1f)
}

/// FMOV from a general register into a vector register.
pub open spec fn enc_fmov_to_simd(sf: bool, rn: u32, rd: u32) -> u32 {
    (if sf { 0x9E670000u32 } else { 0x1E270000u32 }) | ((rn & 0x1f) << 5) | (rd & 0x1f)
}

/// FMOV from a vector register into a general register.
pub open spec fn enc_fmov_from_simd(sf: bool, rn: u32, rd: u32) -> u32 {
    (if sf { 0x9E660000u32 } else { 0x1E260000u32 }) | ((rn & 0x1f) << 5) | (rd & 0x1f)
}

/// FMOV between two vector registers.
pub open spec fn enc_fmov_simd(sf: bool, rn: u32, rd: u32) -> u32 {
    (if sf { 0x1E604000u32 } else { 0x1E204000u32 }) | ((rn & 0x1f) << 5) | (rd & 0x1f)
}

/// MOVZ: load a 16-bit immediate shifted into half-word slot `hw`.
pub open spec fn enc_movz(sf: bool, hw: u32, imm16: u32, rd: u32) -> u32 {
    (if sf { 0xD2800000u32 } else { 0x52800000u32 }) | ((hw & 0x3) << 21) | ((imm16 & 0xffff)
        << 5) | (rd & 0x1f)
}

/// MOVK: patch a 16-bit immediate into half-word slot `hw`.
pub open spec fn enc_movk(sf: bool, hw: u32, imm16: u32, rd: u32) -> u32 {
    (if sf { 0xF2800000u32 } else { 0x72800000u32 }) | ((hw & 0x3) << 21) | ((imm16 & 0xffff)
        << 5) | (rd & 0x1f)
}

/// Register-form add or subtract.
///
/// When the stack pointer is involved the extended-register,
/// non-flag-setting form is the only legal encoding; otherwise the
/// flag-setting shifted-register form is used, so that a following
/// conditional branch can read the carry.
pub open spec fn enc_addsub_reg(is_sub: bool, sf: bool, rm: u32, rn: u32, rd: u32) -> u32 {
    (if rn == 31 || rd == 31 {
        if sf {
            if is_sub { 0xCB206000u32 } else { 0x8B206000u32 }
        } else {
            if is_sub { 0x4B206000u32 } else { 0x0B206000u32 }
        }
    } else {
        if sf {
            if is_sub { 0xEB000000u32 } else { 0xAB000000u32 }
        } else {
            if is_sub { 0x6B000000u32 } else { 0x2B000000u32 }
        }
    }) | ((rm & 0x1f) << 16) | ((rn & 0x1f) << 5) | (rd & 0x1f)
}

/// Immediate-form add or subtract, with the same stack-pointer rule as
/// `enc_addsub_reg`.
pub open spec fn enc_addsub_imm(is_sub: bool, sf: bool, imm12: u32, rn: u32, rd: u32) -> u32 {
    (if rn == 31 || rd == 31 {
        if sf {
            if is_sub { 0xD1000000u32 } else { 0x91000000u32 }
        } else {
            if is_sub { 0x51000000u32 } else { 0x11000000u32 }
        }
    } else {
        if sf {
            if is_sub { 0xF1000000u32 } else { 0xB1000000u32 }
        } else {
            if is_sub { 0x71000000u32 } else { 0x31000000u32 }
        }
    }) | ((imm12 & 0xfff) << 10) | ((rn & 0x1f) << 5) | (rd & 0x1f)
}

/// CMP: flag-setting subtract discarding its result.
pub open spec fn enc_cmp_reg(sf: bool, rm: u32, rn: u32) -> u32 {
    (if sf { 0xEB00001Fu32 } else { 0x6B00001Fu32 }) | ((rm & 0x1f) << 16) | ((rn & 0x1f) << 5)
}

/// TST against the low-bit mask with `k` one bits, as a flag-setting
/// AND with a logical immediate.
pub open spec fn enc_tst_mask(sf: bool, k: u32, rn: u32) -> u32 {
    (if sf { 0xF240001Fu32 } else { 0x7200001Fu32 }) | ((((k - 1) as u32) & 0x3f) << 10) | ((rn
        & 0x1f) << 5)
}

/// Load with an unsigned scaled 12-bit offset, general register target.
pub open spec fn enc_ldr_uimm(sf: bool, imm12: u32, rn: u32, rt: u32) -> u32 {
    (if sf { 0xF9400000u32 } else { 0xB9400000u32 }) | ((imm12 & 0xfff) << 10) | ((rn & 0x1f)
        << 5) | (rt & 0x1f)
}

/// Store with an unsigned scaled 12-bit offset, general register source.
pub open spec fn enc_str_uimm(sf: bool, imm12: u32, rn: u32, rt: u32) -> u32 {
    (if sf { 0xF9000000u32 } else { 0xB9000000u32 }) | ((imm12 & 0xfff) << 10) | ((rn & 0x1f)
        << 5) | (rt & 0x1f)
}

/// 64-bit vector-register load with an unsigned scaled 12-bit offset.
pub open spec fn enc_ldr_simd_uimm(imm12: u32, rn: u32, rt: u32) -> u32 {
    0xFD400000u32 | ((imm12 & 0xfff) << 10) | ((rn & 0x1f) << 5) | (rt & 0x1f)
}

/// 64-bit vector-register store with an unsigned scaled 12-bit offset.
pub open spec fn enc_str_simd_uimm(imm12: u32, rn: u32, rt: u32) -> u32 {
    0xFD000000u32 | ((imm12 & 0xfff) << 10) | ((rn & 0x1f) << 5) | (rt & 0x1f)
}

/// Unscaled load with a signed 9-bit offset, general register target.
pub open spec fn enc_ldur(sf: bool, imm9: u32, rn: u32, rt: u32) -> u32 {
    (if sf { 0xF8400000u32 } else { 0xB8400000u32 }) | ((imm9 & 0x1ff) << 12) | ((rn & 0x1f)
        << 5) | (rt & 0x1f)
}

/// Unscaled store with a signed 9-bit offset, general register source.
pub open spec fn enc_stur(sf: bool, imm9: u32, rn: u32, rt: u32) -> u32 {
    (if sf { 0xF8000000u32 } else { 0xB8000000u32 }) | ((imm9 & 0x1ff) << 12) | ((rn & 0x1f)
        << 5) | (rt & 0x1f)
}

/// Unscaled 64-bit vector-register load with a signed 9-bit offset.
pub open spec fn enc_ldur_simd(imm9: u32, rn: u32, rt: u32) -> u32 {
    0xFC400000u32 | ((imm9 & 0x1ff) << 12) | ((rn & 0x1f) << 5) | (rt & 0x1f)
}

/// Unscaled 64-bit vector-register store with a signed 9-bit offset.
pub open spec fn enc_stur_simd(imm9: u32, rn: u32, rt: u32) -> u32 {
    0xFC000000u32 | ((imm9 & 0x1ff) << 12) | ((rn & 0x1f) << 5) | (rt & 0x1f)
}

/// Byte load, zero-extended into a 32-bit register.
pub open spec fn enc_ldrb(imm12: u32, rn: u32, rt: u32) -> u32 {
    0x39400000u32 | ((imm12 & 0xfff) << 10) | ((rn & 0x1f) << 5) | (rt & 0x1f)
}

/// Half-word load, zero-extended into a 32-bit register.
pub open spec fn enc_ldrh(imm12: u32, rn: u32, rt: u32) -> u32 {
    0x79400000u32 | ((imm12 & 0xfff) << 10) | ((rn & 0x1f) << 5) | (rt & 0x1f)
}

/// Byte load, sign-extended into a 32-bit register.
pub open spec fn enc_ldrsb(imm12: u32, rn: u32, rt: u32) -> u32 {
    0x39C00000u32 | ((imm12 & 0xfff) << 10) | ((rn & 0x1f) << 5) | (rt & 0x1f)
}

/// Half-word load, sign-extended into a 32-bit register.
pub open spec fn enc_ldrsh(imm12: u32, rn: u32, rt: u32) -> u32 {
    0x79C00000u32 | ((imm12 & 0xfff) << 10) | ((rn & 0x1f) << 5) | (rt & 0x1f)
}

/// Store-pair with pre-decrement writeback; `imm7` is the signed scaled
/// word offset field.
pub open spec fn enc_stp_pre(imm7: u32, rt2: u32, rn: u32, rt: u32) -> u32 {
    0xA9800000u32 | ((imm7 & 0x7f) << 15) | ((rt2 & 0x1f) << 10) | ((rn & 0x1f) << 5) | (rt
        & 0x1f)
}

/// Load-pair with post-increment writeback.
pub open spec fn enc_ldp_post(imm7: u32, rt2: u32, rn: u32, rt: u32) -> u32 {
    0xA8C00000u32 | ((imm7 & 0x7f) << 15) | ((rt2 & 0x1f) << 10) | ((rn & 0x1f) << 5) | (rt
        & 0x1f)
}

/// Conditional branch with a 19-bit word displacement.
pub open spec fn enc_bcond(cond: u32, imm19: u32) -> u32 {
    0x54000000u32 | ((imm19 & 0x7ffff) << 5) | (cond & 0xf)
}

/// Unconditional branch with a 26-bit word displacement.
pub open spec fn enc_b(imm26: u32) -> u32 {
    0x14000000u32 | (imm26 & 0x3ffffff)
}

/// Branch with link with a 26-bit word displacement.
pub open spec fn enc_bl(imm26: u32) -> u32 {
    0x94000000u32 | (imm26 & 0x3ffffff)
}

/// Branch with link to a register.
pub open spec fn enc_blr(rn: u32) -> u32 {
    0xD63F0000u32 | ((rn & 0x1f) << 5)
}

/// Branch to a register.
pub open spec fn enc_br(rn: u32) -> u32 {
    0xD61F0000u32 | ((rn & 0x1f) << 5)
}

/// Return through the link register.
pub open spec fn enc_ret() -> u32 {
    0xD65F03C0u32
}

/// Permanently undefined instruction, used as an illegal-opcode trap.
pub open spec fn enc_udf() -> u32 {
    0u32
}

/// Operand combinations `emit_mov` can encode.
pub open spec fn mov_supported(sz: Size, src: Location, dst: Location) -> bool {
    match (src, dst) {
        (Location::GPR(_), Location::GPR(_)) => sz is S32 || sz is S64,
        (Location::GPR(_), Location::SIMD(_)) => sz is S32 || sz is S64,
        (Location::SIMD(_), Location::GPR(_)) => sz is S32 || sz is S64,
        (Location::SIMD(_), Location::SIMD(_)) => sz is S32 || sz is S64,
        (Location::Imm8(_), Location::GPR(_)) => sz is S32 || sz is S64,
        (Location::Imm32(_), Location::GPR(_)) => sz is S32 || sz is S64,
        (Location::Imm64(_), Location::GPR(_)) => sz is S64,
        _ => false,
    }
}

/// The MOVZ/MOVK sequence that materializes a full 64-bit immediate.
pub open spec fn mov_imm64_words(v: u64, rd: u32) -> Seq<u8> {
    word_bytes(enc_movz(true, 0, (v & 0xffff) as u32, rd)) + word_bytes(
        enc_movk(true, 1, ((v >> 16) & 0xffff) as u32, rd),
    ) + word_bytes(enc_movk(true, 2, ((v >> 32) & 0xffff) as u32, rd)) + word_bytes(
        enc_movk(true, 3, ((v >> 48) & 0xffff) as u32, rd),
    )
}

/// The bytes `emit_mov` appends for a supported combination.
pub open spec fn mov_words(sz: Size, src: Location, dst: Location) -> Seq<u8> {
    match (src, dst) {
        (Location::GPR(s), Location::GPR(d)) => if rnum(s) == 31 || rnum(d) == 31 {
            word_bytes(enc_mov_sp(sf_of(sz), rnum(s), rnum(d)))
        } else {
            word_bytes(enc_mov_reg(sf_of(sz), rnum(s), rnum(d)))
        },
        (Location::GPR(s), Location::SIMD(d)) => word_bytes(
            enc_fmov_to_simd(sf_of(sz), rnum(s), vnum(d)),
        ),
        (Location::SIMD(s), Location::GPR(d)) => word_bytes(
            enc_fmov_from_simd(sf_of(sz), vnum(s), rnum(d)),
        ),
        (Location::SIMD(s), Location::SIMD(d)) => word_bytes(
            enc_fmov_simd(sf_of(sz), vnum(s), vnum(d)),
        ),
        (Location::Imm8(v), Location::GPR(d)) => word_bytes(
            enc_movz(sf_of(sz), 0, v as u32, rnum(d)),
        ),
        (Location::Imm32(v), Location::GPR(d)) => word_bytes(
            enc_movz(sf_of(sz), 0, v & 0xffff, rnum(d)),
        ) + word_bytes(enc_movk(sf_of(sz), 1, (v >> 16) & 0xffff, rnum(d))),
        (Location::Imm64(v), Location::GPR(d)) => mov_imm64_words(v, rnum(d)),
        _ => Seq::empty(),
    }
}

/// Operand combinations `emit_add` and `emit_sub` can encode: three
/// registers, or one immediate operand that fits the 12-bit field (for
/// a subtraction only in the second slot).
pub open spec fn addsub_supported(is_sub: bool, sz: Size, a: Location, b: Location, dst: Location)
    -> bool {
    &&& (sz is S32 || sz is S64)
    &&& match (a, b, dst) {
        (Location::GPR(_), Location::GPR(_), Location::GPR(_)) => true,
        (Location::GPR(_), Location::Imm8(_), Location::GPR(_)) => true,
        (Location::GPR(_), Location::Imm32(v), Location::GPR(_)) => v <= 0xfff,
        (Location::Imm8(_), Location::GPR(_), Location::GPR(_)) => !is_sub,
        (Location::Imm32(v), Location::GPR(_), Location::GPR(_)) => !is_sub && v <= 0xfff,
        _ => false,
    }
}

/// The word `emit_add` or `emit_sub` appends: the destination receives
/// `a + b` respectively `a - b`.
pub open spec fn addsub_word(is_sub: bool, sz: Size, a: Location, b: Location, dst: Location)
    -> u32 {
    match (a, b, dst) {
        (Location::GPR(ra), Location::GPR(rb), Location::GPR(rd)) => enc_addsub_reg(
            is_sub,
            sf_of(sz),
            rnum(rb),
            rnum(ra),
            rnum(rd),
        ),
        (Location::GPR(ra), Location::Imm8(v), Location::GPR(rd)) => enc_addsub_imm(
            is_sub,
            sf_of(sz),
            v as u32,
            rnum(ra),
            rnum(rd),
        ),
        (Location::GPR(ra), Location::Imm32(v), Location::GPR(rd)) => enc_addsub_imm(
            is_sub,
            sf_of(sz),
            v,
            rnum(ra),
            rnum(rd),
        ),
        (Location::Imm8(v), Location::GPR(rb), Location::GPR(rd)) => enc_addsub_imm(
            is_sub,
            sf_of(sz),
            v as u32,
            rnum(rb),
            rnum(rd),
        ),
        (Location::Imm32(v), Location::GPR(rb), Location::GPR(rd)) => enc_addsub_imm(
            is_sub,
            sf_of(sz),
            v,
            rnum(rb),
            rnum(rd),
        ),
        _ => 0,
    }
}

/// A load/store register operand: a general register of 32 or 64 bits,
/// or a 64-bit vector register.
pub open spec fn ldst_reg_ok(sz: Size, reg: Location) -> bool {
    match reg {
        Location::GPR(_) => sz is S32 || sz is S64,
        Location::SIMD(_) => sz is S64,
        _ => false,
    }
}

/// An addressing operand: a `Memory` base-plus-offset, or a bare
/// register read as offset zero.
pub open spec fn mem_ok(mem: Location) -> bool {
    mem is Memory || mem is GPR
}

/// Base register number of an addressing operand.
pub open spec fn mem_base_num(mem: Location) -> u32 {
    match mem {
        Location::Memory(b, _) => rnum(b),
        Location::GPR(b) => rnum(b),
        _ => 0,
    }
}

/// Byte offset of an addressing operand.
pub open spec fn mem_offs(mem: Location) -> i32 {
    match mem {
        Location::Memory(_, o) => o,
        _ => 0,
    }
}

/// The offset is non-negative, aligned to the operand width, and fits
/// the scaled unsigned 12-bit field.
pub open spec fn uimm_ok(sz: Size, offs: i32) -> bool {
    match sz {
        Size::S8 => 0 <= offs < 0x1000,
        Size::S16 => 0 <= offs && offs % 2 == 0 && offs < 0x2000,
        Size::S32 => 0 <= offs && offs % 4 == 0 && offs < 0x4000,
        Size::S64 => 0 <= offs && offs % 8 == 0 && offs < 0x8000,
    }
}

/// The word `emit_ldr` appends.
pub open spec fn ldr_word(sz: Size, reg: Location, mem: Location) -> u32 {
    let imm12 = (mem_offs(mem) as u32) >> (sz.shift() as u32);
    match reg {
        Location::GPR(t) => enc_ldr_uimm(sf_of(sz), imm12, mem_base_num(mem), rnum(t)),
        Location::SIMD(t) => enc_ldr_simd_uimm(imm12, mem_base_num(mem), vnum(t)),
        _ => 0,
    }
}

/// The word `emit_str` appends.
pub open spec fn str_word(sz: Size, reg: Location, mem: Location) -> u32 {
    let imm12 = (mem_offs(mem) as u32) >> (sz.shift() as u32);
    match reg {
        Location::GPR(t) => enc_str_uimm(sf_of(sz), imm12, mem_base_num(mem), rnum(t)),
        Location::SIMD(t) => enc_str_simd_uimm(imm12, mem_base_num(mem), vnum(t)),
        _ => 0,
    }
}

/// The word `emit_ldur` appends.
pub open spec fn ldur_word(sz: Size, reg: Location, rn: u32, offset: i32) -> u32 {
    match reg {
        Location::GPR(t) => enc_ldur(sf_of(sz), offset as u32, rn, rnum(t)),
        Location::SIMD(t) => enc_ldur_simd(offset as u32, rn, vnum(t)),
        _ => 0,
    }
}

/// The word `emit_stur` appends.
pub open spec fn stur_word(sz: Size, reg: Location, rn: u32, offset: i32) -> u32 {
    match reg {
        Location::GPR(t) => enc_stur(sf_of(sz), offset as u32, rn, rnum(t)),
        Location::SIMD(t) => enc_stur_simd(offset as u32, rn, vnum(t)),
        _ => 0,
    }
}

/// The instruction word stored little-endian at byte offset `at`.
pub open spec fn read_word(code: Seq<u8>, at: int) -> u32 {
    (code[at] as u32) | ((code[at + 1] as u32) << 8) | ((code[at + 2] as u32) << 16) | ((code[at
        + 3] as u32) << 24)
}

/// `code` with the word at byte offset `at` replaced by `w`,
/// little-endian.
pub open spec fn write_word(code: Seq<u8>, at: int, w: u32) -> Seq<u8> {
    code.update(at, (w & 0xff) as u8).update(at + 1, ((w >> 8) & 0xff) as u8).update(
        at + 2,
        ((w >> 16) & 0xff) as u8,
    ).update(at + 3, ((w >> 24) & 0xff) as u8)
}

/// The branch displacement from `at` to `t`, in words, fits the
/// displacement field of `kind`.
pub open spec fn fixup_in_range(kind: FixupKind, t: int, at: int) -> bool {
    if t >= at {
        (t - at) / 4 < match kind {
            FixupKind::Bcond => 0x40000int,
            FixupKind::B => 0x2000000int,
        }
    } else {
        (at - t) / 4 <= match kind {
            FixupKind::Bcond => 0x40000int,
            FixupKind::B => 0x2000000int,
        }
    }
}

/// The two's-complement displacement field value for a branch from
/// `at` to `t`.
pub open spec fn fixup_bits(kind: FixupKind, t: int, at: int) -> u32 {
    if t >= at {
        ((t - at) / 4) as u32
    } else {
        match kind {
            FixupKind::Bcond => (0x80000 - (at - t) / 4) as u32,
            FixupKind::B => (0x4000000 - (at - t) / 4) as u32,
        }
    }
}

/// The placeholder word with the displacement field filled in.
pub open spec fn patched_word(w: u32, kind: FixupKind, bits: u32) -> u32 {
    match kind {
        FixupKind::Bcond => w | ((bits & 0x7ffff) << 5),
        FixupKind::B => w | (bits & 0x3ffffff),
    }
}

/// `code` with one fixup resolved against target offset `t`.
pub open spec fn apply_fixup(code: Seq<u8>, f: Fixup, t: int) -> Seq<u8> {
    write_word(
        code,
        f.at as int,
        patched_word(read_word(code, f.at as int), f.kind, fixup_bits(f.kind, t, f.at as int)),
    )
}

/// The outcome of resolving every fixup in order: the patched code, or
/// the first failure.
pub open spec fn finalize_spec(code: Seq<u8>, fixups: Seq<Fixup>, labels: Seq<Option<usize>>)
    -> Result<Seq<u8>, CodegenError>
    decreases fixups.len(),
{
    if fixups.len() == 0 {
        Result::Ok(code)
    } else {
        let f = fixups[0];
        if f.label >= labels.len() {
            Result::Err(CodegenError::UnboundLabel { label: f.label })
        } else {
            match labels[f.label as int] {
                Option::None => Result::Err(CodegenError::UnboundLabel { label: f.label }),
                Option::Some(t) => if !fixup_in_range(f.kind, t as int, f.at as int) {
                    Result::Err(CodegenError::BranchOutOfRange { at: f.at, label: f.label })
                } else {
                    finalize_spec(apply_fixup(code, f, t as int), fixups.skip(1), labels)
                },
            }
        }
    }
}

/// Executable form of `enc_mov_reg`.
fn word_mov_reg(sf: bool, rm: u32, rd: u32) -> (w: u32)
    ensures
        w == enc_mov_reg(sf, rm, rd),
{
    (if sf { 0xAA0003E0u32 } else { 0x2A0003E0u32 }) | ((rm & 0x1f) << 16) | (rd & 0x1f)
}

/// Executable form of `enc_mov_sp`.
fn word_mov_sp(sf: bool, rn: u32, rd: u32) -> (w: u32)
    ensures
        w == enc_mov_sp(sf, rn, rd),
{
    (if sf { 0x91000000u32 } else { 0x11000000u32 }) | ((rn & 0x1f) << 5) | (rd & 0x1f)
}

/// Executable form of `enc_fmov_to_simd`.
fn word_fmov_to_simd(sf: bool, rn: u32, rd: u32) -> (w: u32)
    ensures
        w == enc_fmov_to_simd(sf, rn, rd),
{
    (if sf { 0x9E670000u32 } else { 0x1E270000u32 }) | ((rn & 0x1f) << 5) | (rd & 0x1f)
}

/// Executable form of `enc_fmov_from_simd`.
fn word_fmov_from_simd(sf: bool, rn: u32, rd: u32) -> (w: u32)
    ensures
        w == enc_fmov_from_simd(sf, rn, rd),
{
    (if sf { 0x9E660000u32 } else { 0x1E260000u32 }) | ((rn & 0x1f) << 5) | (rd & 0x1f)
}

/// Executable form of `enc_fmov_simd`.
fn word_fmov_simd(sf: bool, rn: u32, rd: u32) -> (w: u32)
    ensures
        w == enc_fmov_simd(sf, rn, rd),
{
    (if sf { 0x1E604000u32 } else { 0x1E204000u32 }) | ((rn & 0x1f) << 5) | (rd & 0x1f)
}

/// Executable form of `enc_movz`.
fn word_movz(sf: bool, hw: u32, imm16: u32, rd: u32) -> (w: u32)
    ensures
        w == enc_movz(sf, hw, imm16, rd),
{
    (if sf { 0xD2800000u32 } else { 0x52800000u32 }) | ((hw & 0x3) << 21) | ((imm16 & 0xffff)
        << 5) | (rd & 0x1f)
}

/// Executable form of `enc_movk`.
fn word_movk(sf: bool, hw: u32, imm16: u32, rd: u32) -> (w: u32)
    ensures
        w == enc_movk(sf, hw, imm16, rd),
{
    (if sf { 0xF2800000u32 } else { 0x72800000u32 }) | ((hw & 0x3) << 21) | ((imm16 & 0xffff)
        << 5) | (rd & 0x1f)
}

/// Executable form of `enc_addsub_reg`.
fn word_addsub_reg(is_sub: bool, sf: bool, rm: u32, rn: u32, rd: u32) -> (w: u32)
    ensures
        w == enc_addsub_reg(is_sub, sf, rm, rn, rd),
{
    (if rn == 31 || rd == 31 {
        if sf {
            if is_sub { 0xCB206000u32 } else { 0x8B206000u32 }
        } else {
            if is_sub { 0x4B206000u32 } else { 0x0B206000u32 }
        }
    } else {
        if sf {
            if is_sub { 0xEB000000u32 } else { 0xAB000000u32 }
        } else {
            if is_sub { 0x6B000000u32 } else { 0x2B000000u32 }
        }
    }) | ((rm & 0x1f) << 16) | ((rn & 0x1f) << 5) | (rd & 0x1f)
}

/// Executable form of `enc_addsub_imm`.
fn word_addsub_imm(is_sub: bool, sf: bool, imm12: u32, rn: u32, rd: u32) -> (w: u32)
    ensures
        w == enc_addsub_imm(is_sub, sf, imm12, rn, rd),
{
    (if rn == 31 || rd == 31 {
        if sf {
            if is_sub { 0xD1000000u32 } else { 0x91000000u32 }
        } else {
            if is_sub { 0x51000000u32 } else { 0x11000000u32 }
        }
    } else {
        if sf {
            if is_sub { 0xF1000000u32 } else { 0xB1000000u32 }
        } else {
            if is_sub { 0x71000000u32 } else { 0x31000000u32 }
        }
    }) | ((imm12 & 0xfff) << 10) | ((rn & 0x1f) << 5) | (rd & 0x1f)
}

/// Executable form of `enc_cmp_reg`.
fn word_cmp_reg(sf: bool, rm: u32, rn: u32) -> (w: u32)
    ensures
        w == enc_cmp_reg(sf, rm, rn),
{
    (if sf { 0xEB00001Fu32 } else { 0x6B00001Fu32 }) | ((rm & 0x1f) << 16) | ((rn & 0x1f) << 5)
}

/// Executable form of `enc_tst_mask`.
fn word_tst_mask(sf: bool, k: u32, rn: u32) -> (w: u32)
    requires
        1 <= k <= 32,
    ensures
        w == enc_tst_mask(sf, k, rn),
{
    (if sf { 0xF240001Fu32 } else { 0x7200001Fu32 }) | (((k - 1) & 0x3f) << 10) | ((rn & 0x1f)
        << 5)
}

/// Executable form of `enc_ldr_uimm`.
fn word_ldr_uimm(sf: bool, imm12: u32, rn: u32, rt: u32) -> (w: u32)
    ensures
        w == enc_ldr_uimm(sf, imm12, rn, rt),
{
    (if sf { 0xF9400000u32 } else { 0xB9400000u32 }) | ((imm12 & 0xfff) << 10) | ((rn & 0x1f)
        << 5) | (rt & 0x1f)
}

/// Executable form of `enc_str_uimm`.
fn word_str_uimm(sf: bool, imm12: u32, rn: u32, rt: u32) -> (w: u32)
    ensures
        w == enc_str_uimm(sf, imm12, rn, rt),
{
    (if sf { 0xF9000000u32 } else { 0xB9000000u32 }) | ((imm12 & 0xfff) << 10) | ((rn & 0x1f)
        << 5) | (rt & 0x1f)
}

/// Executable form of `enc_ldr_simd_uimm`.
fn word_ldr_simd_uimm(imm12: u32, rn: u32, rt: u32) -> (w: u32)
    ensures
        w == enc_ldr_simd_uimm(imm12, rn, rt),
{
    0xFD400000u32 | ((imm12 & 0xfff) << 10) | ((rn & 0x1f) << 5) | (rt & 0x1f)
}

/// Executable form of `enc_str_simd_uimm`.
fn word_str_simd_uimm(imm12: u32, rn: u32, rt: u32) -> (w: u32)
    ensures
        w == enc_str_simd_uimm(imm12, rn, rt),
{
    0xFD000000u32 | ((imm12 & 0xfff) << 10) | ((rn & 0x1f) << 5) | (rt & 0x1f)
}

/// Executable form of `enc_ldur`.
fn word_ldur(sf: bool, imm9: u32, rn: u32, rt: u32) -> (w: u32)
    ensures
        w == enc_ldur(sf, imm9, rn, rt),
{
    (if sf { 0xF8400000u32 } else { 0xB8400000u32 }) | ((imm9 & 0x1ff) << 12) | ((rn & 0x1f)
        << 5) | (rt & 0x1f)
}

/// Executable form of `enc_stur`.
fn word_stur(sf: bool, imm9: u32, rn: u32, rt: u32) -> (w: u32)
    ensures
        w == enc_stur(sf, imm9, rn, rt),
{
    (if sf { 0xF8000000u32 } else { 0xB8000000u32 }) | ((imm9 & 0x1ff) << 12) | ((rn & 0x1f)
        << 5) | (rt & 0x1f)
}

/// Executable form of `enc_ldur_simd`.
fn word_ldur_simd(imm9: u32, rn: u32, rt: u32) -> (w: u32)
    ensures
        w == enc_ldur_simd(imm9, rn, rt),
{
    0xFC400000u32 | ((imm9 & 0x1ff) << 12) | ((rn & 0x1f) << 5) | (rt & 0x1f)
}

/// Executable form of `enc_stur_simd`.
fn word_stur_simd(imm9: u32, rn: u32, rt: u32) -> (w: u32)
    ensures
        w == enc_stur_simd(imm9, rn, rt),
{
    0xFC000000u32 | ((imm9 & 0x1ff) << 12) | ((rn & 0x1f) << 5) | (rt & 0x1f)
}

/// Executable form of `enc_ldrb`.
fn word_ldrb(imm12: u32, rn: u32, rt: u32) -> (w: u32)
    ensures
        w == enc_ldrb(imm12, rn, rt),
{
    0x39400000u32 | ((imm12 & 0xfff) << 10) | ((rn & 0x1f) << 5) | (rt & 0x1f)
}

/// Executable form of `enc_ldrh`.
fn word_ldrh(imm12: u32, rn: u32, rt: u32) -> (w: u32)
    ensures
        w == enc_ldrh(imm12, rn, rt),
{
    0x79400000u32 | ((imm12 & 0xfff) << 10) | ((rn & 0x1f) << 5) | (rt & 0x1f)
}

/// Executable form of `enc_ldrsb`.
fn word_ldrsb(imm12: u32, rn: u32, rt: u32) -> (w: u32)
    ensures
        w == enc_ldrsb(imm12, rn, rt),
{
    0x39C00000u32 | ((imm12 & 0xfff) << 10) | ((rn & 0x1f) << 5) | (rt & 0x1f)
}

/// Executable form of `enc_ldrsh`.
fn word_ldrsh(imm12: u32, rn: u32, rt: u32) -> (w: u32)
    ensures
        w == enc_ldrsh(imm12, rn, rt),
{
    0x79C00000u32 | ((imm12 & 0xfff) << 10) | ((rn & 0x1f) << 5) | (rt & 0x1f)
}

/// Executable form of `enc_stp_pre`.
fn word_stp_pre(imm7: u32, rt2: u32, rn: u32, rt: u32) -> (w: u32)
    ensures
        w == enc_stp_pre(imm7, rt2, rn, rt),
{
    0xA9800000u32 | ((imm7 & 0x7f) << 15) | ((rt2 & 0x1f) << 10) | ((rn & 0x1f) << 5) | (rt
        & 0x1f)
}

/// Executable form of `enc_ldp_post`.
fn word_ldp_post(imm7: u32, rt2: u32, rn: u32, rt: u32) -> (w: u32)
    ensures
        w == enc_ldp_post(imm7, rt2, rn, rt),
{
    0xA8C00000u32 | ((imm7 & 0x7f) << 15) | ((rt2 & 0x1f) << 10) | ((rn & 0x1f) << 5) | (rt
        & 0x1f)
}

/// Executable form of `enc_bcond`.
fn word_bcond(cond: u32, imm19: u32) -> (w: u32)
    ensures
        w == enc_bcond(cond, imm19),
{
    0x54000000u32 | ((imm19 & 0x7ffff) << 5) | (cond & 0xf)
}

/// Executable form of `enc_b`.
fn word_b(imm26: u32) -> (w: u32)
    ensures
        w == enc_b(imm26),
{
    0x14000000u32 | (imm26 & 0x3ffffff)
}

/// Executable form of `enc_bl`.
fn word_bl(imm26: u32) -> (w: u32)
    ensures
        w == enc_bl(imm26),
{
    0x94000000u32 | (imm26 & 0x3ffffff)
}

/// Executable form of `enc_blr`.
fn word_blr(rn: u32) -> (w: u32)
    ensures
        w == enc_blr(rn),
{
    0xD63F0000u32 | ((rn & 0x1f) << 5)
}

/// Executable form of `enc_br`.
fn word_br(rn: u32) -> (w: u32)
    ensures
        w == enc_br(rn),
{
    0xD61F0000u32 | ((rn & 0x1f) << 5)
}

impl Assembler {
    /// Move between registers or load an immediate into a register.
    pub fn emit_mov(&mut self, sz: Size, src: Location, dst: Location)
        requires
            old(self)@.wf(),
            mov_supported(sz, src, dst),
        ensures
            final(self)@.wf(),
            final(self)@ == (AsmModel {
                code: old(self)@.code + mov_words(sz, src, dst),
                ..old(self)@
            }),
    {
        let sf = match sz {
            Size::S64 => true,
            _ => false,
        };
        match (src, dst) {
            (Location::GPR(s), Location::GPR(d)) => {
                let sn = s.to_index() as u32;
                let dn = d.to_index() as u32;
                if sn == 31 || dn == 31 {
                    let w = word_mov_sp(sf, sn, dn);
                    self.push_word(w);
                } else {
                    let w = word_mov_reg(sf, sn, dn);
                    self.push_word(w);
                }
            }
            (Location::GPR(s), Location::SIMD(d)) => {
                let w = word_fmov_to_simd(sf, s.to_index() as u32, d.to_index() as u32);
                self.push_word(w);
            }
            (Location::SIMD(s), Location::GPR(d)) => {
                let w = word_fmov_from_simd(sf, s.to_index() as u32, d.to_index() as u32);
                self.push_word(w);
            }
            (Location::SIMD(s), Location::SIMD(d)) => {
                let w = word_fmov_simd(sf, s.to_index() as u32, d.to_index() as u32);
                self.push_word(w);
            }
            (Location::Imm8(v), Location::GPR(d)) => {
                let w = word_movz(sf, 0, v as u32, d.to_index() as u32);
                self.push_word(w);
            }
            (Location::Imm32(v), Location::GPR(d)) => {
                let dn = d.to_index() as u32;
                let w0 = word_movz(sf, 0, v & 0xffff, dn);
                let w1 = word_movk(sf, 1, (v >> 16) & 0xffff, dn);
                self.push_word(w0);
                self.push_word(w1);
                proof {
                    assert(self@.code =~= old(self)@.code + mov_words(sz, src, dst));
                }
            }
            (Location::Imm64(v), Location::GPR(d)) => {
                let dn = d.to_index() as u32;
                let w0 = word_movz(true, 0, (v & 0xffff) as u32, dn);
                let w1 = word_movk(true, 1, ((v >> 16) & 0xffff) as u32, dn);
                let w2 = word_movk(true, 2, ((v >> 32) & 0xffff) as u32, dn);
                let w3 = word_movk(true, 3, ((v >> 48) & 0xffff) as u32, dn);
                self.push_word(w0);
                self.push_word(w1);
                self.push_word(w2);
                self.push_word(w3);
                proof {
                    assert(self@.code =~= old(self)@.code + mov_words(sz, src, dst));
                }
            }
            _ => {
                proof {
                    assert(false);
                }
            }
        }
    }

    /// Materialize an arbitrary 64-bit immediate into a general
    /// register as a fixed MOVZ/MOVK sequence.
    pub fn emit_mov_imm(&mut self, dst: Location, val: u64)
        requires
            old(self)@.wf(),
            dst is GPR,
        ensures
            final(self)@.wf(),
            final(self)@ == (AsmModel {
                code: old(self)@.code + mov_imm64_words(val, rnum(dst->GPR_0)),
                ..old(self)@
            }),
    {
        match dst {
            Location::GPR(d) => {
                let dn = d.to_index() as u32;
                let w0 = word_movz(true, 0, (val & 0xffff) as u32, dn);
                let w1 = word_movk(true, 1, ((val >> 16) & 0xffff) as u32, dn);
                let w2 = word_movk(true, 2, ((val >> 32) & 0xffff) as u32, dn);
                let w3 = word_movk(true, 3, ((val >> 48) & 0xffff) as u32, dn);
                self.push_word(w0);
                self.push_word(w1);
                self.push_word(w2);
                self.push_word(w3);
                proof {
                    assert(self@.code =~= old(self)@.code + mov_imm64_words(val, rnum(d)));
                }
            }
            _ => {
                proof {
                    assert(false);
                }
            }
        }
    }

    /// Patch one 16-bit half-word of a 64-bit register.
    pub fn emit_movk(&mut self, dst: Location, imm: u16, shift: u32)
        requires
            old(self)@.wf(),
            dst is GPR,
            shift == 0 || shift == 16 || shift == 32 || shift == 48,
        ensures
            final(self)@.wf(),
            final(self)@ == (AsmModel {
                code: old(self)@.code + word_bytes(
                    enc_movk(true, shift / 16, imm as u32, rnum(dst->GPR_0)),
                ),
                ..old(self)@
            }),
    {
        match dst {
            Location::GPR(d) => {
                let w = word_movk(true, shift / 16, imm as u32, d.to_index() as u32);
                self.push_word(w);
            }
            _ => {
                proof {
                    assert(false);
                }
            }
        }
    }

    /// Add: the destination receives `a + b`.
    pub fn emit_add(&mut self, sz: Size, a: Location, b: Location, dst: Location)
        requires
            old(self)@.wf(),
            addsub_supported(false, sz, a, b, dst),
        ensures
            final(self)@.wf(),
            final(self)@ == (AsmModel {
                code: old(self)@.code + word_bytes(addsub_word(false, sz, a, b, dst)),
                ..old(self)@
            }),
    {
        self.emit_addsub(false, sz, a, b, dst);
    }

    /// Subtract: the destination receives `a - b`.
    pub fn emit_sub(&mut self, sz: Size, a: Location, b: Location, dst: Location)
        requires
            old(self)@.wf(),
            addsub_supported(true, sz, a, b, dst),
        ensures
            final(self)@.wf(),
            final(self)@ == (AsmModel {
                code: old(self)@.code + word_bytes(addsub_word(true, sz, a, b, dst)),
                ..old(self)@
            }),
    {
        self.emit_addsub(true, sz, a, b, dst);
    }

    /// Shared encoder behind `emit_add` and `emit_sub`.
    fn emit_addsub(&mut self, is_sub: bool, sz: Size, a: Location, b: Location, dst: Location)
        requires
            old(self)@.wf(),
            addsub_supported(is_sub, sz, a, b, dst),
        ensures
            final(self)@.wf(),
            final(self)@ == (AsmModel {
                code: old(self)@.code + word_bytes(addsub_word(is_sub, sz, a, b, dst)),
                ..old(self)@
            }),
    {
        let sf = match sz {
            Size::S64 => true,
            _ => false,
        };
        match (a, b, dst) {
            (Location::GPR(ra), Location::GPR(rb), Location::GPR(rd)) => {
                let w = word_addsub_reg(
                    is_sub,
                    sf,
                    rb.to_index() as u32,
                    ra.to_index() as u32,
                    rd.to_index() as u32,
                );
                self.push_word(w);
            }
            (Location::GPR(ra), Location::Imm8(v), Location::GPR(rd)) => {
                let w = word_addsub_imm(
                    is_sub,
                    sf,
                    v as u32,
                    ra.to_index() as u32,
                    rd.to_index() as u32,
                );
                self.push_word(w);
            }
            (Location::GPR(ra), Location::Imm32(v), Location::GPR(rd)) => {
                let w = word_addsub_imm(is_sub, sf, v, ra.to_index() as u32, rd.to_index() as u32);
                self.push_word(w);
            }
            (Location::Imm8(v), Location::GPR(rb), Location::GPR(rd)) => {
                let w = word_addsub_imm(
                    is_sub,
                    sf,
                    v as u32,
                    rb.to_index() as u32,
                    rd.to_index() as u32,
                );
                self.push_word(w);
            }
            (Location::Imm32(v), Location::GPR(rb), Location::GPR(rd)) => {
                let w = word_addsub_imm(is_sub, sf, v, rb.to_index() as u32, rd.to_index() as u32);
                self.push_word(w);
            }
            _ => {
                proof {
                    assert(false);
                }
            }
        }
    }

    /// Compare: set flags from `dst - src` and discard the difference.
    pub fn emit_cmp(&mut self, sz: Size, src: Location, dst: Location)
        requires
            old(self)@.wf(),
            sz is S32 || sz is S64,
            src is GPR,
            dst is GPR,
        ensures
            final(self)@.wf(),
            final(self)@ == (AsmModel {
                code: old(self)@.code + word_bytes(
                    enc_cmp_reg(sf_of(sz), rnum(src->GPR_0), rnum(dst->GPR_0)),
                ),
                ..old(self)@
            }),
    {
        let sf = match sz {
            Size::S64 => true,
            _ => false,
        };
        match (src, dst) {
            (Location::GPR(s), Location::GPR(d)) => {
                let w = word_cmp_reg(sf, s.to_index() as u32, d.to_index() as u32);
                self.push_word(w);
            }
            _ => {
                proof {
                    assert(false);
                }
            }
        }
    }

    /// Number of one bits of a supported low-bit alignment mask.
    pub open spec fn mask_ones(v: u32) -> u32 {
        if v == 1 { 1 } else if v == 3 { 2 } else if v == 7 { 3 } else { 4 }
    }

    /// Load a register from `[base, offset]` with an unsigned scaled
    /// offset; `mem` is a `Memory` location, or a bare register read as
    /// offset zero.
    pub fn emit_ldr(&mut self, sz: Size, reg: Location, mem: Location)
        requires
            old(self)@.wf(),
            ldst_reg_ok(sz, reg),
            mem_ok(mem),
            uimm_ok(sz, mem_offs(mem)),
        ensures
            final(self)@.wf(),
            final(self)@ == (AsmModel {
                code: old(self)@.code + word_bytes(ldr_word(sz, reg, mem)),
                ..old(self)@
            }),
    {
        let sf = match sz {
            Size::S64 => true,
            _ => false,
        };
        let (bn, offs): (u32, i32) = match mem {
            Location::Memory(b, o) => (b.to_index() as u32, o),
            Location::GPR(b) => (b.to_index() as u32, 0),
            _ => {
                proof {
                    assert(false);
                }
                (0, 0)
            }
        };
        let imm12 = (offs as u32) >> sz.to_shift();
        match reg {
            Location::GPR(t) => {
                let w = word_ldr_uimm(sf, imm12, bn, t.to_index() as u32);
                self.push_word(w);
            }
            Location::SIMD(t) => {
                let w = word_ldr_simd_uimm(imm12, bn, t.to_index() as u32);
                self.push_word(w);
            }
            _ => {
                proof {
                    assert(false);
                }
            }
        }
    }

    /// Store a register to `[base, offset]` with an unsigned scaled
    /// offset; `mem` is a `Memory` location, or a bare register read as
    /// offset zero.
    pub fn emit_str(&mut self, sz: Size, reg: Location, mem: Location)
        requires
            old(self)@.wf(),
            ldst_reg_ok(sz, reg),
            mem_ok(mem),
            uimm_ok(sz, mem_offs(mem)),
        ensures
            final(self)@.wf(),
            final(self)@ == (AsmModel {
                code: old(self)@.code + word_bytes(str_word(sz, reg, mem)),
                ..old(self)@
            }),
    {
        let sf = match sz {
            Size::S64 => true,
            _ => false,
        };
        let (bn, offs): (u32, i32) = match mem {
            Location::Memory(b, o) => (b.to_index() as u32, o),
            Location::GPR(b) => (b.to_index() as u32, 0),
            _ => {
                proof {
                    assert(false);
                }
                (0, 0)
            }
        };
        let imm12 = (offs as u32) >> sz.to_shift();
        match reg {
            Location::GPR(t) => {
                let w = word_str_uimm(sf, imm12, bn, t.to_index() as u32);
                self.push_word(w);
            }
            Location::SIMD(t) => {
                let w = word_str_simd_uimm(imm12, bn, t.to_index() as u32);
                self.push_word(w);
            }
            _ => {
                proof {
                    assert(false);
                }
            }
        }
    }

    /// Load a register from `[base, offset]` with a signed unscaled
    /// 9-bit offset.
    pub fn emit_ldur(&mut self, sz: Size, reg: Location, base: GPR, offset: i32)
        requires
            old(self)@.wf(),
            ldst_reg_ok(sz, reg),
            -256 <= offset < 256,
        ensures
            final(self)@.wf(),
            final(self)@ == (AsmModel {
                code: old(self)@.code + word_bytes(ldur_word(sz, reg, rnum(base), offset)),
                ..old(self)@
            }),
    {
        let sf = match sz {
            Size::S64 => true,
            _ => false,
        };
        let bn = base.to_index() as u32;
        let imm9 = #[verifier::truncate] (offset as u32);
        match reg {
            Location::GPR(t) => {
                let w = word_ldur(sf, imm9, bn, t.to_index() as u32);
                self.push_word(w);
            }
            Location::SIMD(t) => {
                let w = word_ldur_simd(imm9, bn, t.to_index() as u32);
                self.push_word(w);
            }
            _ => {
                proof {
                    assert(false);
                }
            }
        }
    }

    /// Store a register to `[base, offset]` with a signed unscaled
    /// 9-bit offset.
    pub fn emit_stur(&mut self, sz: Size, reg: Location, base: GPR, offset: i32)
        requires
            old(self)@.wf(),
            ldst_reg_ok(sz, reg),
            -256 <= offset < 256,
        ensures
            final(self)@.wf(),
            final(self)@ == (AsmModel {
                code: old(self)@.code + word_bytes(stur_word(sz, reg, rnum(base), offset)),
                ..old(self)@
            }),
    {
        let sf = match sz {
            Size::S64 => true,
            _ => false,
        };
        let bn = base.to_index() as u32;
        let imm9 = #[verifier::truncate] (offset as u32);
        match reg {
            Location::GPR(t) => {
                let w = word_stur(sf, imm9, bn, t.to_index() as u32);
                self.push_word(w);
            }
            Location::SIMD(t) => {
                let w = word_stur_simd(imm9, bn, t.to_index() as u32);
                self.push_word(w);
            }
            _ => {
                proof {
                    assert(false);
                }
            }
        }
    }

    /// Byte load, zero-extended.
    pub fn emit_ldrb(&mut self, sz: Size, reg: Location, base: GPR, offset: u32)
        requires
            old(self)@.wf(),
            reg is GPR,
            sz is S32,
            offset < 0x1000,
        ensures
            final(self)@.wf(),
            final(self)@ == (AsmModel {
                code: old(self)@.code + word_bytes(
                    enc_ldrb(offset, rnum(base), rnum(reg->GPR_0)),
                ),
                ..old(self)@
            }),
    {
        match reg {
            Location::GPR(t) => {
                let w = word_ldrb(offset, base.to_index() as u32, t.to_index() as u32);
                self.push_word(w);
            }
            _ => {
                proof {
                    assert(false);
                }
            }
        }
    }

    /// Half-word load, zero-extended.
    pub fn emit_ldrh(&mut self, sz: Size, reg: Location, base: GPR, offset: u32)
        requires
            old(self)@.wf(),
            reg is GPR,
            sz is S32,
            offset % 2 == 0,
            offset < 0x2000,
        ensures
            final(self)@.wf(),
            final(self)@ == (AsmModel {
                code: old(self)@.code + word_bytes(
                    enc_ldrh(offset / 2, rnum(base), rnum(reg->GPR_0)),
                ),
                ..old(self)@
            }),
    {
        match reg {
            Location::GPR(t) => {
                let w = word_ldrh(offset / 2, base.to_index() as u32, t.to_index() as u32);
                self.push_word(w);
            }
            _ => {
                proof {
                    assert(false);
                }
            }
        }
    }

    /// Byte load, sign-extended.
    pub fn emit_ldrsb(&mut self, sz: Size, reg: Location, base: GPR, offset: u32)
        requires
            old(self)@.wf(),
            reg is GPR,
            sz is S32,
            offset < 0x1000,
        ensures
            final(self)@.wf(),
            final(self)@ == (AsmModel {
                code: old(self)@.code + word_bytes(
                    enc_ldrsb(offset, rnum(base), rnum(reg->GPR_0)),
                ),
                ..old(self)@
            }),
    {
        match reg {
            Location::GPR(t) => {
                let w = word_ldrsb(offset, base.to_index() as u32, t.to_index() as u32);
                self.push_word(w);
            }
            _ => {
                proof {
                    assert(false);
                }
            }
        }
    }

    /// Half-word load, sign-extended.
    pub fn emit_ldrsh(&mut self, sz: Size, reg: Location, base: GPR, offset: u32)
        requires
            old(self)@.wf(),
            reg is GPR,
            sz is S32,
            offset % 2 == 0,
            offset < 0x2000,
        ensures
            final(self)@.wf(),
            final(self)@ == (AsmModel {
                code: old(self)@.code + word_bytes(
                    enc_ldrsh(offset / 2, rnum(base), rnum(reg->GPR_0)),
                ),
                ..old(self)@
            }),
    {
        match reg {
            Location::GPR(t) => {
                let w = word_ldrsh(offset / 2, base.to_index() as u32, t.to_index() as u32);
                self.push_word(w);
            }
            _ => {
                proof {
                    assert(false);
                }
            }
        }
    }

    /// Store a pair of 64-bit registers, pre-decrementing the base by
    /// `delta` bytes with writeback.
    pub fn emit_stpbd(&mut self, sz: Size, src1: Location, src2: Location, base: GPR, delta: u32)
        requires
            old(self)@.wf(),
            sz is S64,
            src1 is GPR,
            src2 is GPR,
            delta % 8 == 0,
            8 <= delta <= 512,
        ensures
            final(self)@.wf(),
            final(self)@ == (AsmModel {
                code: old(self)@.code + word_bytes(
                    enc_stp_pre(
                        (128 - delta / 8) as u32,
                        rnum(src2->GPR_0),
                        rnum(base),
                        rnum(src1->GPR_0),
                    ),
                ),
                ..old(self)@
            }),
    {
        match (src1, src2) {
            (Location::GPR(t1), Location::GPR(t2)) => {
                let w = word_stp_pre(
                    128 - delta / 8,
                    t2.to_index() as u32,
                    base.to_index() as u32,
                    t1.to_index() as u32,
                );
                self.push_word(w);
            }
            _ => {
                proof {
                    assert(false);
                }
            }
        }
    }

    /// Load a pair of 64-bit registers, post-incrementing the base by
    /// `delta` bytes with writeback.
    pub fn emit_ldpai(&mut self, sz: Size, dst1: Location, dst2: Location, base: GPR, delta: u32)
        requires
            old(self)@.wf(),
            sz is S64,
            dst1 is GPR,
            dst2 is GPR,
            delta % 8 == 0,
            delta <= 504,
        ensures
            final(self)@.wf(),
            final(self)@ == (AsmModel {
                code: old(self)@.code + word_bytes(
                    enc_ldp_post(
                        (delta / 8) as u32,
                        rnum(dst2->GPR_0),
                        rnum(base),
                        rnum(dst1->GPR_0),
                    ),
                ),
                ..old(self)@
            }),
    {
        match (dst1, dst2) {
            (Location::GPR(t1), Location::GPR(t2)) => {
                let w = word_ldp_post(
                    delta / 8,
                    t2.to_index() as u32,
                    base.to_index() as u32,
                    t1.to_index() as u32,
                );
                self.push_word(w);
            }
            _ => {
                proof {
                    assert(false);
                }
            }
        }
    }

    /// Conditional branch to a label, recorded as a fixup.
    pub fn emit_bcond_label(&mut self, cond: Condition, label: Label)
        requires
            old(self)@.wf(),
            label.0 < old(self)@.labels.len(),
        ensures
            final(self)@.wf(),
            final(self)@ == (AsmModel {
                code: old(self)@.code + word_bytes(enc_bcond(cond.code() as u32, 0)),
                fixups: old(self)@.fixups.push(
                    Fixup {
                        at: old(self)@.code.len() as usize,
                        label: label.0,
                        kind: FixupKind::Bcond,
                    },
                ),
                ..old(self)@
            }),
    {
        let at = self.buf.len();
        let w = word_bcond(cond.to_code() as u32, 0);
        self.push_word(w);
        self.fixups.push(Fixup { at, label: label.0, kind: FixupKind::Bcond });
        proof {
            assert forall|i: int| 0 <= i < self@.fixups.len() implies (
                #[trigger] self@.fixups[i]).wf_in(self@) by {
                if i < old(self)@.fixups.len() {
                    assert(old(self)@.fixups[i].wf_in(old(self)@));
                }
            }
            assert forall|i: int| 0 <= i < self@.labels.len() implies label_wf(
                #[trigger] self@.labels[i],
                self@.code.len(),
            ) by {
                assert(label_wf(old(self)@.labels[i], old(self)@.code.len()));
            }
        }
    }

    /// Unconditional branch to a label, recorded as a fixup.
    pub fn emit_b_label(&mut self, label: Label)
        requires
            old(self)@.wf(),
            label.0 < old(self)@.labels.len(),
        ensures
            final(self)@.wf(),
            final(self)@ == (AsmModel {
                code: old(self)@.code + word_bytes(enc_b(0)),
                fixups: old(self)@.fixups.push(
                    Fixup {
                        at: old(self)@.code.len() as usize,
                        label: label.0,
                        kind: FixupKind::B,
                    },
                ),
                ..old(self)@
            }),
    {
        let at = self.buf.len();
        let w = word_b(0);
        self.push_word(w);
        self.fixups.push(Fixup { at, label: label.0, kind: FixupKind::B });
        proof {
            assert forall|i: int| 0 <= i < self@.fixups.len() implies (
                #[trigger] self@.fixups[i]).wf_in(self@) by {
                if i < old(self)@.fixups.len() {
                    assert(old(self)@.fixups[i].wf_in(old(self)@));
                }
            }
            assert forall|i: int| 0 <= i < self@.labels.len() implies label_wf(
                #[trigger] self@.labels[i],
                self@.code.len(),
            ) by {
                assert(label_wf(old(self)@.labels[i], old(self)@.code.len()));
            }
        }
    }

    /// Call a label: branch with link, recorded as a fixup.
    pub fn emit_call_label(&mut self, label: Label)
        requires
            old(self)@.wf(),
            label.0 < old(self)@.labels.len(),
        ensures
            final(self)@.wf(),
            final(self)@ == (AsmModel {
                code: old(self)@.code + word_bytes(enc_bl(0)),
                fixups: old(self)@.fixups.push(
                    Fixup {
                        at: old(self)@.code.len() as usize,
                        label: label.0,
                        kind: FixupKind::B,
                    },
                ),
                ..old(self)@
            }),
    {
        let at = self.buf.len();
        let w = word_bl(0);
        self.push_word(w);
        self.fixups.push(Fixup { at, label: label.0, kind: FixupKind::B });
        proof {
            assert forall|i: int| 0 <= i < self@.fixups.len() implies (
                #[trigger] self@.fixups[i]).wf_in(self@) by {
                if i < old(self)@.fixups.len() {
                    assert(old(self)@.fixups[i].wf_in(old(self)@));
                }
            }
            assert forall|i: int| 0 <= i < self@.labels.len() implies label_wf(
                #[trigger] self@.labels[i],
                self@.code.len(),
            ) by {
                assert(label_wf(old(self)@.labels[i], old(self)@.code.len()));
            }
        }
    }

    /// Call through a register: branch with link to register.
    pub fn emit_call_register(&mut self, reg: GPR)
        requires
            old(self)@.wf(),
        ensures
            final(self)@.wf(),
            final(self)@ == (AsmModel {
                code: old(self)@.code + word_bytes(enc_blr(rnum(reg))),
                ..old(self)@
            }),
    {
        let w = word_blr(reg.to_index() as u32);
        self.push_word(w);
    }

    /// Tail-call through a register: branch to register.
    pub fn emit_b_register(&mut self, reg: GPR)
        requires
            old(self)@.wf(),
        ensures
            final(self)@.wf(),
            final(self)@ == (AsmModel {
                code: old(self)@.code + word_bytes(enc_br(rnum(reg))),
                ..old(self)@
            }),
    {
        let w = word_br(reg.to_index() as u32);
        self.push_word(w);
    }

    /// Return through the link register.
    pub fn emit_ret(&mut self)
        requires
            old(self)@.wf(),
        ensures
            final(self)@.wf(),
            final(self)@ == (AsmModel {
                code: old(self)@.code + word_bytes(enc_ret()),
                ..old(self)@
            }),
    {
        self.push_word(0xD65F03C0u32);
    }

    /// Permanently undefined instruction.
    pub fn emit_udf(&mut self)
        requires
            old(self)@.wf(),
        ensures
            final(self)@.wf(),
            final(self)@ == (AsmModel {
                code: old(self)@.code + word_bytes(enc_udf()),
                ..old(self)@
            }),
    {
        self.push_word(0u32);
    }

    /// Resolve every pending branch fixup and hand over the finished
    /// code buffer, or report the first fixup that cannot be resolved.
    #[verifier::loop_isolation(false)]
    pub fn finalize(self) -> (r: Result<Vec<u8>, CodegenError>)
        requires
            self@.wf(),
        ensures
            r is Ok <==> finalize_spec(self@.code, self@.fixups, self@.labels) is Ok,
            r matches Ok(bytes) ==> bytes@ == finalize_spec(
                self@.code,
                self@.fixups,
                self@.labels,
            )->Ok_0,
            r matches Err(e) ==> e == finalize_spec(self@.code, self@.fixups, self@.labels)->Err_0,
    {
        let ghost orig = self@;
        let Assembler { mut buf, labels, fixups } = self;
        let n = fixups.len();
        let mut i: usize = 0;
        proof {
            assert(orig.fixups.skip(0) =~= orig.fixups);
        }
        while i < n
            invariant
                orig.wf(),
                i <= n,
                n == orig.fixups.len(),
                labels@ == orig.labels,
                fixups@ == orig.fixups,
                buf@.len() == orig.code.len(),
                finalize_spec(orig.code, orig.fixups, orig.labels) == finalize_spec(
                    buf@,
                    orig.fixups.skip(i as int),
                    orig.labels,
                ),
            decreases n - i,
        {
            let f = fixups[i];
            proof {
                assert(orig.fixups[i as int].wf_in(orig));
                assert(orig.fixups.skip(i as int)[0] == orig.fixups[i as int]);
            }
            let lab = labels[f.label];
            match lab {
                None => {
                    proof {
                        let fs = orig.fixups.skip(i as int);
                        assert(fs.len() > 0);
                        assert(fs[0] == f);
                        assert(orig.labels[f.label as int] is None);
                        assert(finalize_spec(buf@, fs, orig.labels) == Result::<
                            Seq<u8>,
                            CodegenError,
                        >::Err(CodegenError::UnboundLabel { label: f.label }));
                    }
                    return Err(CodegenError::UnboundLabel { label: f.label });
                }
                Some(t) => {
                    proof {
                        assert(label_wf(orig.labels[f.label as int], orig.code.len()));
                    }
                    let at = f.at;
                    let limit: usize = match f.kind {
                        FixupKind::Bcond => 0x40000,
                        FixupKind::B => 0x2000000,
                    };
                    let bits: u32;
                    if t >= at {
                        let d = (t - at) / 4;
                        if d >= limit {
                            return Err(CodegenError::BranchOutOfRange { at, label: f.label });
                        }
                        bits = d as u32;
                    } else {
                        let d = (at - t) / 4;
                        if d > limit {
                            return Err(CodegenError::BranchOutOfRange { at, label: f.label });
                        }
                        bits = match f.kind {
                            FixupKind::Bcond => (0x80000 - d) as u32,
                            FixupKind::B => (0x4000000 - d) as u32,
                        };
                    }
                    proof {
                        assert(fixup_in_range(f.kind, t as int, at as int));
                        assert(bits == fixup_bits(f.kind, t as int, at as int));
                    }
                    let b0 = buf[at];
                    let b1 = buf[at + 1];
                    let b2 = buf[at + 2];
                    let b3 = buf[at + 3];
                    let w = (b0 as u32) | ((b1 as u32) << 8) | ((b2 as u32) << 16) | ((b3 as u32)
                        << 24);
                    proof {
                        assert(w == read_word(buf@, at as int));
                    }
                    let pw = match f.kind {
                        FixupKind::Bcond => w | ((bits & 0x7ffff) << 5),
                        FixupKind::B => w | (bits & 0x3ffffff),
                    };
                    let ghost prev = buf@;
                    buf.set(at, (pw & 0xff) as u8);
                    buf.set(at + 1, ((pw >> 8) & 0xff) as u8);
                    buf.set(at + 2, ((pw >> 16) & 0xff) as u8);
                    buf.set(at + 3, ((pw >> 24) & 0xff) as u8);
                    proof {
                        assert(pw == patched_word(
                            read_word(prev, at as int),
                            f.kind,
                            fixup_bits(f.kind, t as int, at as int),
                        ));
                        assert(buf@ =~= apply_fixup(prev, f, t as int));
                        assert(orig.fixups.skip(i as int).skip(1) =~= orig.fixups.skip(
                            i as int + 1,
                        ));
                    }
                    i = i + 1;
                }
            }
        }
        proof {
            assert(orig.fixups.skip(n as int) =~= Seq::<Fixup>::empty());
        }
        Ok(buf)
    }

    /// Test the low bits of a register against a contiguous low-bit
    /// mask, setting flags only.
    pub fn emit_tst(&mut self, sz: Size, src: Location, dst: Location)
        requires
            old(self)@.wf(),
            sz is S32 || sz is S64,
            src matches Location::Imm32(v) && (v == 1 || v == 3 || v == 7 || v == 15),
            dst is GPR,
        ensures
            final(self)@.wf(),
            final(self)@ == (AsmModel {
                code: old(self)@.code + word_bytes(
                    enc_tst_mask(sf_of(sz), Self::mask_ones(src->Imm32_0), rnum(dst->GPR_0)),
                ),
                ..old(self)@
            }),
    {
        let sf = match sz {
            Size::S64 => true,
            _ => false,
        };
        match (src, dst) {
            (Location::Imm32(v), Location::GPR(d)) => {
                let k: u32 = if v == 1 { 1 } else if v == 3 { 2 } else if v == 7 { 3 } else { 4 };
                let w = word_tst_mask(sf, k, d.to_index() as u32);
                self.push_word(w);
            }
            _ => {
                proof {
                    assert(false);
                }
            }
        }
    }
}

} // verus!
