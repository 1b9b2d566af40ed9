//! Single-pass native code generation for the ARM64 target.
//!
//! The crate translates stack-machine virtual instructions into ARM64
//! machine code in one linear pass: a `MachineARM64` consumes one virtual
//! operation at a time, resolves operand locations, asks a free-list
//! register allocator for scratch registers, and appends instruction
//! encodings to a growing code buffer while recording trap metadata and a
//! source-location map.

pub mod bounds;
pub mod common;
pub mod emitter;
pub mod global;
pub mod location;
pub mod machine;
pub mod trampoline;
pub mod trap;

use vstd::prelude::*;

verus! {

use crate::location::{Location, Size};

/// A fatal code-generation failure.
///
/// Every variant aborts the current compilation: an operand-location
/// combination the backend cannot encode is a driver contract violation,
/// and an unresolved label at finalization is a backend bug. Each variant
/// carries the offending shapes for diagnosis.
#[derive(Clone, Copy, Debug, PartialEq, Eq, Structural)]
pub enum CodegenError {
    /// A relaxed binary operation was asked to combine locations the
    /// backend cannot encode.
    UnsupportedBinop { size: Size, src: Location, dst: Location },
    /// A move between two locations the backend cannot encode.
    UnsupportedMove { size: Size, src: Location, dst: Location },
    /// A push of an operand shape other than a 64-bit register.
    UnsupportedPush { size: Size, loc: Location },
    /// A pop into an operand shape other than a 64-bit register.
    UnsupportedPop { size: Size, loc: Location },
    /// A return-value move the backend cannot encode.
    UnsupportedReturn { size: Size, loc: Location },
    /// A function signature the trampoline generators cannot adapt.
    UnsupportedSignature,
    /// A branch refers to a label that was never bound to an offset.
    UnboundLabel { label: usize },
    /// A branch target lies outside the encodable displacement range.
    BranchOutOfRange { at: usize, label: usize },
}

} // verus!
