//! Guest-visible global variables.
//!
//! A global holds one typed value in a 64-bit cell, together with a
//! description of its type and mutability. Every write is gated by the
//! mutability flag and checked against the declared type. Floating
//! point values are carried as their IEEE bit patterns; converting
//! between a float and its bits is the caller's concern.

use vstd::prelude::*;

verus! {

use crate::common::Type;

/// A typed value as stored in a global: integers directly, floats as
/// their IEEE bit patterns.
#[derive(Clone, Copy, Debug, PartialEq, Eq, Structural)]
pub enum Value {
    I32(i32),
    I64(i64),
    /// A 32-bit float, by its bit pattern.
    F32(u32),
    /// A 64-bit float, by its bit pattern.
    F64(u64),
}

impl Value {
    /// The type of the value.
    pub open spec fn ty_spec(self) -> Type {
        match self {
            Value::I32(_) => Type::I32,
            Value::I64(_) => Type::I64,
            Value::F32(_) => Type::F32,
            Value::F64(_) => Type::F64,
        }
    }

    /// Executable form of `ty_spec`.
    pub fn ty(&self) -> (t: Type)
        ensures
            t == self.ty_spec(),
    {
        match self {
            Value::I32(_) => Type::I32,
            Value::I64(_) => Type::I64,
            Value::F32(_) => Type::F32,
            Value::F64(_) => Type::F64,
        }
    }

    /// The 64-bit cell representation: integers sign-extended, float
    /// bit patterns zero-extended.
    pub open spec fn bits(self) -> u64 {
        match self {
            Value::I32(x) => x as u64,
            Value::I64(x) => x as u64,
            Value::F32(b) => b as u64,
            Value::F64(b) => b,
        }
    }
}

/// The typed value a cell of type `ty` holding `data` represents.
pub open spec fn value_of(ty: Type, data: u64) -> Value {
    match ty {
        Type::I32 => Value::I32(data as i32),
        Type::I64 => Value::I64(data as i64),
        Type::F32 => Value::F32(data as u32),
        Type::F64 => Value::F64(data),
    }
}

/// Reading a cell through the value's own type returns the value: the
/// 64-bit representation loses nothing.
pub proof fn lemma_value_bits_roundtrip(v: Value)
    ensures
        value_of(v.ty_spec(), v.bits()) == v,
{
    match v {
        Value::I32(x) => {
            assert(((x as u64) as i32) == x) by (bit_vector);
        },
        Value::I64(x) => {
            assert(((x as u64) as i64) == x) by (bit_vector);
        },
        Value::F32(b) => {
            assert(((b as u64) as u32) == b) by (bit_vector);
        },
        Value::F64(_) => {},
    }
}

/// Type and mutability of a global.
#[derive(Clone, Copy, Debug, PartialEq, Eq, Structural)]
pub struct GlobalDesc {
    pub mutable: bool,
    pub ty: Type,
}

/// A global variable: one typed 64-bit cell whose mutation is gated by
/// an explicit mutability flag checked at every write.
#[derive(Clone, Copy, Debug, PartialEq, Eq, Structural)]
pub struct Global {
    desc: GlobalDesc,
    data: u64,
}

impl Global {
    /// The description of the global.
    pub closed spec fn desc_spec(self) -> GlobalDesc {
        self.desc
    }

    /// The raw contents of the cell.
    pub closed spec fn data_spec(self) -> u64 {
        self.data
    }

    /// A new immutable global holding `value`.
    pub fn new(value: Value) -> (g: Global)
        ensures
            g.desc_spec() == (GlobalDesc { mutable: false, ty: value.ty_spec() }),
            g.data_spec() == value.bits(),
    {
        Self::_new(value, false)
    }

    /// A new mutable global holding `value`.
    pub fn new_mutable(value: Value) -> (g: Global)
        ensures
            g.desc_spec() == (GlobalDesc { mutable: true, ty: value.ty_spec() }),
            g.data_spec() == value.bits(),
    {
        Self::_new(value, true)
    }

    /// A new global with the given mutability.
    fn _new(value: Value, mutable: bool) -> (g: Global)
        ensures
            g.desc_spec() == (GlobalDesc { mutable, ty: value.ty_spec() }),
            g.data_spec() == value.bits(),
    {
        let desc = GlobalDesc { mutable, ty: value.ty() };
        let data: u64 = match value {
            Value::I32(x) => x as u64,
            Value::I64(x) => x as u64,
            Value::F32(b) => b as u64,
            Value::F64(b) => b,
        };
        Global { desc, data }
    }

    /// The description of the global.
    pub fn description(&self) -> (d: GlobalDesc)
        ensures
            d == self.desc_spec(),
    {
        self.desc
    }

    /// Store `value` into the global. Only a mutable global accepts a
    /// write, and only of a value of its declared type.
    pub fn set(&mut self, value: Value)
        requires
            old(self).desc_spec().mutable,
            value.ty_spec() == old(self).desc_spec().ty,
        ensures
            final(self).desc_spec() == old(self).desc_spec(),
            final(self).data_spec() == value.bits(),
    {
        let data: u64 = match value {
            Value::I32(x) => x as u64,
            Value::I64(x) => x as u64,
            Value::F32(b) => b as u64,
            Value::F64(b) => b,
        };
        self.data = data;
    }

    /// Read the global's value, typed by its declared type.
    pub fn get(&self) -> (v: Value)
        ensures
            v == value_of(self.desc_spec().ty, self.data_spec()),
    {
        match self.desc.ty {
            Type::I32 => Value::I32(self.data as i32),
            Type::I64 => Value::I64(self.data as i64),
            Type::F32 => Value::F32(self.data as u32),
            Type::F64 => Value::F64(self.data),
        }
    }
}

} // verus!
