//! Dynamically typed host values.
//!
//! A value arrives from the host tagged only with its representation class
//! — unsigned integer, signed integer, or floating point — and the declared
//! [`crate::types::TypeTag`] decides which accessor is legal to use on it.
//! This crate holds no floating-point numbers: a floating-point value is
//! carried as the 64 bits of its IEEE-754 `f64` representation, and only
//! the unverified host converts between those bits and a live float.

use vstd::prelude::*;

verus! {

/// A host value: null, a non-negative integer, a signed integer, or a
/// floating-point number given by its `f64` bit pattern.
#[derive(Debug, Clone, Copy, PartialEq, Eq, Structural)]
pub enum DynamicValue {
    Null,
    UInt(u64),
    Int(i64),
    Float(u64),
}

/// The unsigned accessor: the value as a `u64`, when it can be represented
/// as a non-negative integer.
pub open spec fn spec_as_u64(v: DynamicValue) -> Option<u64> {
    match v {
        DynamicValue::UInt(u) => Some(u),
        DynamicValue::Int(i) => if i >= 0 {
            Some(i as u64)
        } else {
            None
        },
        _ => None,
    }
}

/// The signed accessor: the value as an `i64`, when it can be represented
/// as a signed 64-bit integer.
pub open spec fn spec_as_i64(v: DynamicValue) -> Option<i64> {
    match v {
        DynamicValue::Int(i) => Some(i),
        DynamicValue::UInt(u) => if u <= i64::MAX as u64 {
            Some(u as i64)
        } else {
            None
        },
        _ => None,
    }
}

/// The mathematical integer a value denotes, when it denotes one.
pub open spec fn spec_int_value(v: DynamicValue) -> Option<int> {
    match v {
        DynamicValue::UInt(u) => Some(u as int),
        DynamicValue::Int(i) => Some(i as int),
        _ => None,
    }
}

/// Numeric equality: the two values denote the same number (or are both
/// null).  Weaker than structural equality — `UInt(5)` and `Int(5)` are
/// numerically equal — and on floating-point values it compares the bit
/// patterns.
pub open spec fn spec_num_eq(a: DynamicValue, b: DynamicValue) -> bool {
    match (a, b) {
        (DynamicValue::Null, DynamicValue::Null) => true,
        (DynamicValue::Float(x), DynamicValue::Float(y)) => x == y,
        _ => spec_int_value(a) is Some && spec_int_value(a) == spec_int_value(b),
    }
}

impl DynamicValue {
    /// Executable unsigned accessor.
    pub fn as_u64(&self) -> (r: Option<u64>)
        ensures
            r == spec_as_u64(*self),
    {
        match *self {
            DynamicValue::UInt(u) => Some(u),
            DynamicValue::Int(i) => if i >= 0 {
                Some(i as u64)
            } else {
                None
            },
            _ => None,
        }
    }

    /// Executable signed accessor.
    pub fn as_i64(&self) -> (r: Option<i64>)
        ensures
            r == spec_as_i64(*self),
    {
        match *self {
            DynamicValue::Int(i) => Some(i),
            DynamicValue::UInt(u) => if u <= 0x7fff_ffff_ffff_ffff {
                Some(u as i64)
            } else {
                None
            },
            _ => None,
        }
    }
}

} // verus!
