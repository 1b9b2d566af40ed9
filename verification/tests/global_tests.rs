//! Globals: construction, description, gated writes and reads.

use singlepass_arm64::common::Type;
use singlepass_arm64::global::{Global, Value};

#[test]
fn new_global_is_immutable_and_typed() {
    let g = Global::new(Value::I32(-5));
    let d = g.description();
    assert!(!d.mutable);
    assert_eq!(d.ty, Type::I32);
    assert_eq!(g.get(), Value::I32(-5));
}

#[test]
fn new_mutable_global_accepts_writes() {
    let mut g = Global::new_mutable(Value::I64(10));
    assert!(g.description().mutable);
    g.set(Value::I64(-123456789012345));
    assert_eq!(g.get(), Value::I64(-123456789012345));
    assert_eq!(g.description().ty, Type::I64);
}

#[test]
fn float_globals_round_trip_their_bit_patterns() {
    let bits32 = 1.5f32.to_bits();
    let g = Global::new(Value::F32(bits32));
    assert_eq!(g.description().ty, Type::F32);
    match g.get() {
        Value::F32(b) => assert_eq!(f32::from_bits(b), 1.5),
        other => panic!("wrong value type: {:?}", other),
    }
    let bits64 = (-2.25f64).to_bits();
    let mut g = Global::new_mutable(Value::F64(0));
    g.set(Value::F64(bits64));
    match g.get() {
        Value::F64(b) => assert_eq!(f64::from_bits(b), -2.25),
        other => panic!("wrong value type: {:?}", other),
    }
}

#[test]
fn negative_i32_survives_the_cell() {
    let g = Global::new(Value::I32(i32::MIN));
    assert_eq!(g.get(), Value::I32(i32::MIN));
    let g = Global::new(Value::I32(-1));
    assert_eq!(g.get(), Value::I32(-1));
}

#[test]
fn copies_are_independent() {
    let mut a = Global::new_mutable(Value::I32(1));
    let b = a;
    a.set(Value::I32(2));
    assert_eq!(a.get(), Value::I32(2));
    assert_eq!(b.get(), Value::I32(1));
}
