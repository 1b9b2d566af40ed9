//! Operand locations and the register file of the ARM64 target.
//!
//! A `Location` tags where an operand currently lives: a general-purpose
//! register, a vector register, a stack memory slot addressed off a base
//! register, or an immediate of one of three widths.

use vstd::prelude::*;

verus! {

/// General-purpose registers. `XzrSp` is encoded as register number 31,
/// which the instruction set reads as the zero register or as the stack
/// pointer depending on the instruction.
#[derive(Clone, Copy, Debug, PartialEq, Eq, Structural)]
pub enum GPR {
    X0,
    X1,
    X2,
    X3,
    X4,
    X5,
    X6,
    X7,
    X8,
    X9,
    X10,
    X11,
    X12,
    X13,
    X14,
    X15,
    X16,
    X17,
    X18,
    X19,
    X20,
    X21,
    X22,
    X23,
    X24,
    X25,
    X26,
    X27,
    X28,
    X29,
    X30,
    XzrSp,
}

/// Vector (NEON) registers.
#[derive(Clone, Copy, Debug, PartialEq, Eq, Structural)]
pub enum NEON {
    V0,
    V1,
    V2,
    V3,
    V4,
    V5,
    V6,
    V7,
    V8,
    V9,
    V10,
    V11,
    V12,
    V13,
    V14,
    V15,
    V16,
    V17,
    V18,
    V19,
    V20,
    V21,
    V22,
    V23,
    V24,
    V25,
    V26,
    V27,
    V28,
    V29,
    V30,
    V31,
}

/// Operand width in bits: 8, 16, 32 or 64.
#[derive(Clone, Copy, Debug, PartialEq, Eq, Structural)]
pub enum Size {
    S8,
    S16,
    S32,
    S64,
}

/// Branch conditions of the ARM64 condition field.
#[derive(Clone, Copy, Debug, PartialEq, Eq, Structural)]
pub enum Condition {
    Eq,
    Ne,
    Cs,
    Cc,
    Mi,
    Pl,
    Vs,
    Vc,
    Hi,
    Ls,
    Ge,
    Lt,
    Gt,
    Le,
    Al,
}

/// Where an operand currently lives.
///
/// A `Memory` location is a signed byte offset from a base register; once
/// inside a function body the base is the frame-base register. The three
/// immediate variants mirror the encodable immediate widths.
#[derive(Clone, Copy, Debug, PartialEq, Eq, Structural)]
pub enum Location {
    GPR(GPR),
    SIMD(NEON),
    Memory(GPR, i32),
    Imm8(u8),
    Imm32(u32),
    Imm64(u64),
}

impl GPR {
    /// Register number used by the instruction encodings, 0 through 31.
    pub open spec fn index(self) -> int {
        match self {
            GPR::X0 => 0,
            GPR::X1 => 1,
            GPR::X2 => 2,
            GPR::X3 => 3,
            GPR::X4 => 4,
            GPR::X5 => 5,
            GPR::X6 => 6,
            GPR::X7 => 7,
            GPR::X8 => 8,
            GPR::X9 => 9,
            GPR::X10 => 10,
            GPR::X11 => 11,
            GPR::X12 => 12,
            GPR::X13 => 13,
            GPR::X14 => 14,
            GPR::X15 => 15,
            GPR::X16 => 16,
            GPR::X17 => 17,
            GPR::X18 => 18,
            GPR::X19 => 19,
            GPR::X20 => 20,
            GPR::X21 => 21,
            GPR::X22 => 22,
            GPR::X23 => 23,
            GPR::X24 => 24,
            GPR::X25 => 25,
            GPR::X26 => 26,
            GPR::X27 => 27,
            GPR::X28 => 28,
            GPR::X29 => 29,
            GPR::X30 => 30,
            GPR::XzrSp => 31,
        }
    }

    /// Executable form of `index`.
    pub fn to_index(self) -> (i: u8)
        ensures
            i == self.index(),
            i < 32,
    {
        match self {
            GPR::X0 => 0,
            GPR::X1 => 1,
            GPR::X2 => 2,
            GPR::X3 => 3,
            GPR::X4 => 4,
            GPR::X5 => 5,
            GPR::X6 => 6,
            GPR::X7 => 7,
            GPR::X8 => 8,
            GPR::X9 => 9,
            GPR::X10 => 10,
            GPR::X11 => 11,
            GPR::X12 => 12,
            GPR::X13 => 13,
            GPR::X14 => 14,
            GPR::X15 => 15,
            GPR::X16 => 16,
            GPR::X17 => 17,
            GPR::X18 => 18,
            GPR::X19 => 19,
            GPR::X20 => 20,
            GPR::X21 => 21,
            GPR::X22 => 22,
            GPR::X23 => 23,
            GPR::X24 => 24,
            GPR::X25 => 25,
            GPR::X26 => 26,
            GPR::X27 => 27,
            GPR::X28 => 28,
            GPR::X29 => 29,
            GPR::X30 => 30,
            GPR::XzrSp => 31,
        }
    }

    /// The register with number `i`, as a specification value.
    pub open spec fn from_index_spec(i: int) -> GPR {
        if i == 0 { GPR::X0 } else if i == 1 { GPR::X1 } else if i == 2 { GPR::X2 } else if i == 3 {
            GPR::X3
        } else if i == 4 { GPR::X4 } else if i == 5 { GPR::X5 } else if i == 6 {
            GPR::X6
        } else if i == 7 { GPR::X7 } else if i == 8 { GPR::X8 } else if i == 9 {
            GPR::X9
        } else if i == 10 { GPR::X10 } else if i == 11 { GPR::X11 } else if i == 12 {
            GPR::X12
        } else if i == 13 { GPR::X13 } else if i == 14 { GPR::X14 } else if i == 15 {
            GPR::X15
        } else if i == 16 { GPR::X16 } else if i == 17 { GPR::X17 } else if i == 18 {
            GPR::X18
        } else if i == 19 { GPR::X19 } else if i == 20 { GPR::X20 } else if i == 21 {
            GPR::X21
        } else if i == 22 { GPR::X22 } else if i == 23 { GPR::X23 } else if i == 24 {
            GPR::X24
        } else if i == 25 { GPR::X25 } else if i == 26 { GPR::X26 } else if i == 27 {
            GPR::X27
        } else if i == 28 { GPR::X28 } else if i == 29 { GPR::X29 } else if i == 30 {
            GPR::X30
        } else {
            GPR::XzrSp
        }
    }

    /// The register with number `i`, inverse of `index`.
    pub fn from_index(i: u8) -> (r: GPR)
        requires
            i < 32,
        ensures
            r.index() == i,
            r == GPR::from_index_spec(i as int),
    {
        match i {
            0 => GPR::X0,
            1 => GPR::X1,
            2 => GPR::X2,
            3 => GPR::X3,
            4 => GPR::X4,
            5 => GPR::X5,
            6 => GPR::X6,
            7 => GPR::X7,
            8 => GPR::X8,
            9 => GPR::X9,
            10 => GPR::X10,
            11 => GPR::X11,
            12 => GPR::X12,
            13 => GPR::X13,
            14 => GPR::X14,
            15 => GPR::X15,
            16 => GPR::X16,
            17 => GPR::X17,
            18 => GPR::X18,
            19 => GPR::X19,
            20 => GPR::X20,
            21 => GPR::X21,
            22 => GPR::X22,
            23 => GPR::X23,
            24 => GPR::X24,
            25 => GPR::X25,
            26 => GPR::X26,
            27 => GPR::X27,
            28 => GPR::X28,
            29 => GPR::X29,
            30 => GPR::X30,
            _ => GPR::XzrSp,
        }
    }
}

impl NEON {
    /// Register number used by the instruction encodings, 0 through 31.
    pub open spec fn index(self) -> int {
        match self {
            NEON::V0 => 0,
            NEON::V1 => 1,
            NEON::V2 => 2,
            NEON::V3 => 3,
            NEON::V4 => 4,
            NEON::V5 => 5,
            NEON::V6 => 6,
            NEON::V7 => 7,
            NEON::V8 => 8,
            NEON::V9 => 9,
            NEON::V10 => 10,
            NEON::V11 => 11,
            NEON::V12 => 12,
            NEON::V13 => 13,
            NEON::V14 => 14,
            NEON::V15 => 15,
            NEON::V16 => 16,
            NEON::V17 => 17,
            NEON::V18 => 18,
            NEON::V19 => 19,
            NEON::V20 => 20,
            NEON::V21 => 21,
            NEON::V22 => 22,
            NEON::V23 => 23,
            NEON::V24 => 24,
            NEON::V25 => 25,
            NEON::V26 => 26,
            NEON::V27 => 27,
            NEON::V28 => 28,
            NEON::V29 => 29,
            NEON::V30 => 30,
            NEON::V31 => 31,
        }
    }

    /// Executable form of `index`.
    pub fn to_index(self) -> (i: u8)
        ensures
            i == self.index(),
            i < 32,
    {
        match self {
            NEON::V0 => 0,
            NEON::V1 => 1,
            NEON::V2 => 2,
            NEON::V3 => 3,
            NEON::V4 => 4,
            NEON::V5 => 5,
            NEON::V6 => 6,
            NEON::V7 => 7,
            NEON::V8 => 8,
            NEON::V9 => 9,
            NEON::V10 => 10,
            NEON::V11 => 11,
            NEON::V12 => 12,
            NEON::V13 => 13,
            NEON::V14 => 14,
            NEON::V15 => 15,
            NEON::V16 => 16,
            NEON::V17 => 17,
            NEON::V18 => 18,
            NEON::V19 => 19,
            NEON::V20 => 20,
            NEON::V21 => 21,
            NEON::V22 => 22,
            NEON::V23 => 23,
            NEON::V24 => 24,
            NEON::V25 => 25,
            NEON::V26 => 26,
            NEON::V27 => 27,
            NEON::V28 => 28,
            NEON::V29 => 29,
            NEON::V30 => 30,
            NEON::V31 => 31,
        }
    }

    /// The register with number `i`, as a specification value.
    pub open spec fn from_index_spec(i: int) -> NEON {
        if i == 0 { NEON::V0 } else if i == 1 { NEON::V1 } else if i == 2 { NEON::V2 } else if i
            == 3 {
            NEON::V3
        } else if i == 4 { NEON::V4 } else if i == 5 { NEON::V5 } else if i == 6 {
            NEON::V6
        } else if i == 7 { NEON::V7 } else if i == 8 { NEON::V8 } else if i == 9 {
            NEON::V9
        } else if i == 10 { NEON::V10 } else if i == 11 { NEON::V11 } else if i == 12 {
            NEON::V12
        } else if i == 13 { NEON::V13 } else if i == 14 { NEON::V14 } else if i == 15 {
            NEON::V15
        } else if i == 16 { NEON::V16 } else if i == 17 { NEON::V17 } else if i == 18 {
            NEON::V18
        } else if i == 19 { NEON::V19 } else if i == 20 { NEON::V20 } else if i == 21 {
            NEON::V21
        } else if i == 22 { NEON::V22 } else if i == 23 { NEON::V23 } else if i == 24 {
            NEON::V24
        } else if i == 25 { NEON::V25 } else if i == 26 { NEON::V26 } else if i == 27 {
            NEON::V27
        } else if i == 28 { NEON::V28 } else if i == 29 { NEON::V29 } else if i == 30 {
            NEON::V30
        } else {
            NEON::V31
        }
    }

    /// The register with number `i`, inverse of `index`.
    pub fn from_index(i: u8) -> (r: NEON)
        requires
            i < 32,
        ensures
            r.index() == i,
            r == NEON::from_index_spec(i as int),
    {
        match i {
            0 => NEON::V0,
            1 => NEON::V1,
            2 => NEON::V2,
            3 => NEON::V3,
            4 => NEON::V4,
            5 => NEON::V5,
            6 => NEON::V6,
            7 => NEON::V7,
            8 => NEON::V8,
            9 => NEON::V9,
            10 => NEON::V10,
            11 => NEON::V11,
            12 => NEON::V12,
            13 => NEON::V13,
            14 => NEON::V14,
            15 => NEON::V15,
            16 => NEON::V16,
            17 => NEON::V17,
            18 => NEON::V18,
            19 => NEON::V19,
            20 => NEON::V20,
            21 => NEON::V21,
            22 => NEON::V22,
            23 => NEON::V23,
            24 => NEON::V24,
            25 => NEON::V25,
            26 => NEON::V26,
            27 => NEON::V27,
            28 => NEON::V28,
            29 => NEON::V29,
            30 => NEON::V30,
            _ => NEON::V31,
        }
    }
}

impl Size {
    /// Left-shift amount that scales a byte offset of this width: the
    /// binary logarithm of the width in bytes.
    pub open spec fn shift(self) -> int {
        match self {
            Size::S8 => 0,
            Size::S16 => 1,
            Size::S32 => 2,
            Size::S64 => 3,
        }
    }

    /// Executable form of `shift`.
    pub fn to_shift(self) -> (s: u32)
        ensures
            s == self.shift(),
            s <= 3,
    {
        match self {
            Size::S8 => 0,
            Size::S16 => 1,
            Size::S32 => 2,
            Size::S64 => 3,
        }
    }
}

impl Condition {
    /// Four-bit condition code of the encodings.
    pub open spec fn code(self) -> int {
        match self {
            Condition::Eq => 0,
            Condition::Ne => 1,
            Condition::Cs => 2,
            Condition::Cc => 3,
            Condition::Mi => 4,
            Condition::Pl => 5,
            Condition::Vs => 6,
            Condition::Vc => 7,
            Condition::Hi => 8,
            Condition::Ls => 9,
            Condition::Ge => 10,
            Condition::Lt => 11,
            Condition::Gt => 12,
            Condition::Le => 13,
            Condition::Al => 14,
        }
    }

    /// Executable form of `code`.
    pub fn to_code(self) -> (c: u8)
        ensures
            c == self.code(),
            c < 16,
    {
        match self {
            Condition::Eq => 0,
            Condition::Ne => 1,
            Condition::Cs => 2,
            Condition::Cc => 3,
            Condition::Mi => 4,
            Condition::Pl => 5,
            Condition::Vs => 6,
            Condition::Vc => 7,
            Condition::Hi => 8,
            Condition::Ls => 9,
            Condition::Ge => 10,
            Condition::Lt => 11,
            Condition::Gt => 12,
            Condition::Le => 13,
            Condition::Al => 14,
        }
    }
}

} // verus!
