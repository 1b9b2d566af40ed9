//! Artifacts shared between the code generator and its consumers:
//! relocation records, function-body blobs, custom sections, calling
//! conventions, signature types and context-structure offsets.

use vstd::prelude::*;

verus! {

/// Value types of the source bytecode. Floating-point values never
/// appear as such inside the generator; they are carried as their IEEE
/// bit patterns.
#[derive(Clone, Copy, Debug, PartialEq, Eq, Structural)]
pub enum Type {
    I32,
    I64,
    F32,
    F64,
}

/// A machine register identified by a flat index: general-purpose
/// registers first, vector registers from 32 up.
#[derive(Clone, Copy, Debug, PartialEq, Eq, Structural)]
pub struct RegisterIndex(pub usize);

/// Offset and alignment requirement of one bounds-checked memory
/// access, supplied per access by the driver.
#[derive(Clone, Copy, Debug, PartialEq, Eq, Structural)]
pub struct MemoryImmediate {
    /// Static byte offset added to the accessed address.
    pub offset: u32,
    /// Required alignment of the access, in bytes.
    pub align: u32,
}

/// Relocation kinds the generator produces: the four 16-bit move slots
/// of a materialized absolute 64-bit address.
#[derive(Clone, Copy, Debug, PartialEq, Eq, Structural)]
pub enum RelocationKind {
    Arm64Movw0,
    Arm64Movw1,
    Arm64Movw2,
    Arm64Movw3,
}

/// What a relocation refers to.
#[derive(Clone, Copy, Debug, PartialEq, Eq, Structural)]
pub enum RelocationTarget {
    /// A function of the module being compiled, by index.
    LocalFunc(u32),
    /// A custom section of the module, by index.
    CustomSection(u32),
}

/// One unresolved reference produced at emission time and consumed by
/// the linker or loader after code layout.
#[derive(Clone, Copy, Debug, PartialEq, Eq, Structural)]
pub struct Relocation {
    /// Which instruction field the resolved address patches.
    pub kind: RelocationKind,
    /// The symbol the address refers to.
    pub reloc_target: RelocationTarget,
    /// Byte offset in the code at which the patch applies.
    pub offset: u32,
    /// Constant added to the resolved address.
    pub addend: i64,
}

/// A finished, self-contained machine-code blob for one function.
#[derive(Clone, Debug, PartialEq, Eq)]
pub struct FunctionBody {
    /// The function's machine code.
    pub body: Vec<u8>,
}

/// Memory protection required for a custom section.
#[derive(Clone, Copy, Debug, PartialEq, Eq, Structural)]
pub enum CustomSectionProtection {
    Read,
    ReadExecute,
}

/// The raw contents of a custom section.
#[derive(Clone, Debug, PartialEq, Eq)]
pub struct SectionBody {
    pub bytes: Vec<u8>,
}

/// A self-contained code or data section emitted besides the function
/// bodies, with the relocations that apply inside it.
#[derive(Clone, Debug, PartialEq, Eq)]
pub struct CustomSection {
    pub protection: CustomSectionProtection,
    pub bytes: SectionBody,
    pub relocations: Vec<Relocation>,
}

/// The native calling convention in effect.
#[derive(Clone, Copy, Debug, PartialEq, Eq, Structural)]
pub enum CallingConvention {
    SystemV,
    AppleAarch64,
    WindowsFastcall,
}

/// A function signature: parameter and result types.
#[derive(Clone, Debug, PartialEq, Eq)]
pub struct FunctionType {
    pub params: Vec<Type>,
    pub results: Vec<Type>,
}

impl FunctionType {
    /// A signature with the given parameter and result types.
    pub fn new(params: Vec<Type>, results: Vec<Type>) -> (r: FunctionType)
        ensures
            r.params == params,
            r.results == results,
    {
        FunctionType { params, results }
    }
}

/// Offsets of runtime context structures, used to address the import
/// tables reachable from the context register.
#[derive(Clone, Copy, Debug, PartialEq, Eq, Structural)]
pub struct VMOffsets {
    /// Size of a pointer on the target, in bytes.
    pub pointer_size: u8,
    /// Byte offset of the function-import table inside the context.
    pub function_imports_begin: u32,
}

impl VMOffsets {
    /// Offsets for a target with the given pointer size and import
    /// table position.
    pub fn new(pointer_size: u8, function_imports_begin: u32) -> (r: VMOffsets)
        ensures
            r == (VMOffsets { pointer_size, function_imports_begin }),
    {
        VMOffsets { pointer_size, function_imports_begin }
    }

    /// Byte size of one function-import entry: a code pointer and a
    /// context pointer.
    pub open spec fn import_entry_size(self) -> int {
        2 * self.pointer_size
    }

    /// Offset of the code-pointer field of import `index` inside the
    /// context structure.
    pub fn vmctx_vmfunction_import_body(&self, index: u32) -> (o: u32)
        requires
            self.function_imports_begin + index * self.import_entry_size()
                + self.import_entry_size() <= u32::MAX,
        ensures
            o == self.function_imports_begin + index * self.import_entry_size(),
    {
        self.function_imports_begin + index * (2 * self.pointer_size as u32)
    }

    /// Offset of the context-pointer field of import `index` inside
    /// the context structure.
    pub fn vmctx_vmfunction_import_vmctx(&self, index: u32) -> (o: u32)
        requires
            self.function_imports_begin + index * self.import_entry_size()
                + self.import_entry_size() <= u32::MAX,
        ensures
            o == self.function_imports_begin + index * self.import_entry_size()
                + self.pointer_size,
    {
        self.function_imports_begin + index * (2 * self.pointer_size as u32)
            + self.pointer_size as u32
    }

    /// Offset of the callee address inside a dynamic-import context:
    /// its first field.
    pub fn vmdynamicfunction_import_context_address(&self) -> (o: u32)
        ensures
            o == 0,
    {
        0
    }
}

} // verus!
