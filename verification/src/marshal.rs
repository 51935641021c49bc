//! The call marshaller: from declared types and dynamic values to native
//! argument cells, and from declared types to the call-interface
//! descriptor.
//!
//! Marshalling is a pure function of its inputs: it performs no I/O and
//! touches no native state.  Numeric narrowing is deliberately silent — a
//! declared `u8` given `300` becomes `300 mod 256 = 44` — a pinned,
//! deterministic truncation policy, not a validated-range policy.

use vstd::prelude::*;
use crate::error::FfiError;
use crate::types::TypeTag;
use crate::value::{DynamicValue, spec_as_i64, spec_as_u64};

verus! {

/// The numeric content a floating-point argument cell carries.  The one
/// conversion this crate cannot perform — turning the content into a live
/// `f32`/`f64` — is left to the unverified host at the call site.
#[derive(Debug, Clone, Copy, PartialEq, Eq, Structural)]
pub enum FloatInput {
    Unsigned(u64),
    Signed(i64),
    Bits(u64),
}

/// One native argument cell: the correctly sized and signed representation
/// of one declared argument, ready for the foreign call.
#[derive(Debug, Clone, Copy, PartialEq, Eq, Structural)]
pub enum NativeCell {
    Unit,
    U8(u8),
    I8(i8),
    U16(u16),
    I16(i16),
    U32(u32),
    I32(i32),
    U64(u64),
    I64(i64),
    USize(usize),
    ISize(isize),
    F32(FloatInput),
    F64(FloatInput),
}

/// One declared argument: its resolved type tag paired with the value the
/// host supplied for it.
#[derive(Debug, Clone, Copy, PartialEq, Eq, Structural)]
pub struct ArgumentSpec {
    pub tag: TypeTag,
    pub value: DynamicValue,
}

/// The numeric content of a value, for a floating-point cell; `None` when
/// the value is not numeric.
pub open spec fn spec_float_input(v: DynamicValue) -> Option<FloatInput> {
    match v {
        DynamicValue::UInt(u) => Some(FloatInput::Unsigned(u)),
        DynamicValue::Int(i) => Some(FloatInput::Signed(i)),
        DynamicValue::Float(b) => Some(FloatInput::Bits(b)),
        DynamicValue::Null => None,
    }
}

/// What extraction yields for a declared tag and a supplied value: the
/// native cell, or `None` when the value's representation class is
/// incompatible with the tag's accessor.  Unsigned tags truncate modulo
/// the target width; signed tags truncate two's-complement, written here
/// with Rust's own `as` truncation.
pub open spec fn spec_extract(tag: TypeTag, v: DynamicValue) -> Option<NativeCell> {
    match tag {
        TypeTag::Void => Some(NativeCell::Unit),
        TypeTag::U8 => match spec_as_u64(v) {
            Some(u) => Some(NativeCell::U8((u % 0x100) as u8)),
            None => None,
        },
        TypeTag::U16 => match spec_as_u64(v) {
            Some(u) => Some(NativeCell::U16((u % 0x1_0000) as u16)),
            None => None,
        },
        TypeTag::U32 => match spec_as_u64(v) {
            Some(u) => Some(NativeCell::U32((u % 0x1_0000_0000) as u32)),
            None => None,
        },
        TypeTag::U64 => match spec_as_u64(v) {
            Some(u) => Some(NativeCell::U64(u)),
            None => None,
        },
        TypeTag::USize => match spec_as_u64(v) {
            Some(u) => Some(NativeCell::USize(u as usize)),
            None => None,
        },
        TypeTag::I8 => match spec_as_i64(v) {
            Some(i) => Some(NativeCell::I8(i as i8)),
            None => None,
        },
        TypeTag::I16 => match spec_as_i64(v) {
            Some(i) => Some(NativeCell::I16(i as i16)),
            None => None,
        },
        TypeTag::I32 => match spec_as_i64(v) {
            Some(i) => Some(NativeCell::I32(i as i32)),
            None => None,
        },
        TypeTag::I64 => match spec_as_i64(v) {
            Some(i) => Some(NativeCell::I64(i)),
            None => None,
        },
        TypeTag::ISize => match spec_as_i64(v) {
            Some(i) => Some(NativeCell::ISize(i as isize)),
            None => None,
        },
        TypeTag::F32 => match spec_float_input(v) {
            Some(f) => Some(NativeCell::F32(f)),
            None => None,
        },
        TypeTag::F64 => match spec_float_input(v) {
            Some(f) => Some(NativeCell::F64(f)),
            None => None,
        },
    }
}

/// Extracts one native cell from a declared tag and a supplied value;
/// fails with `TypeMismatch` (carrying the tag) exactly when the value's
/// representation class is incompatible with the tag.
pub fn extract(tag: TypeTag, v: &DynamicValue) -> (r: Result<NativeCell, FfiError>)
    ensures
        match r {
            Ok(c) => spec_extract(tag, *v) == Some(c),
            Err(e) => spec_extract(tag, *v) is None && e == FfiError::TypeMismatch(tag),
        },
{
    match tag {
        TypeTag::Void => Ok(NativeCell::Unit),
        TypeTag::U8 => match v.as_u64() {
            Some(u) => Ok(NativeCell::U8((u % 0x100) as u8)),
            None => Err(FfiError::TypeMismatch(tag)),
        },
        TypeTag::U16 => match v.as_u64() {
            Some(u) => Ok(NativeCell::U16((u % 0x1_0000) as u16)),
            None => Err(FfiError::TypeMismatch(tag)),
        },
        TypeTag::U32 => match v.as_u64() {
            Some(u) => Ok(NativeCell::U32((u % 0x1_0000_0000) as u32)),
            None => Err(FfiError::TypeMismatch(tag)),
        },
        TypeTag::U64 => match v.as_u64() {
            Some(u) => Ok(NativeCell::U64(u)),
            None => Err(FfiError::TypeMismatch(tag)),
        },
        TypeTag::USize => match v.as_u64() {
            Some(u) => Ok(NativeCell::USize(#[verifier::truncate] (u as usize))),
            None => Err(FfiError::TypeMismatch(tag)),
        },
        TypeTag::I8 => match v.as_i64() {
            Some(i) => Ok(NativeCell::I8(#[verifier::truncate] (i as i8))),
            None => Err(FfiError::TypeMismatch(tag)),
        },
        TypeTag::I16 => match v.as_i64() {
            Some(i) => Ok(NativeCell::I16(#[verifier::truncate] (i as i16))),
            None => Err(FfiError::TypeMismatch(tag)),
        },
        TypeTag::I32 => match v.as_i64() {
            Some(i) => Ok(NativeCell::I32(#[verifier::truncate] (i as i32))),
            None => Err(FfiError::TypeMismatch(tag)),
        },
        TypeTag::I64 => match v.as_i64() {
            Some(i) => Ok(NativeCell::I64(i)),
            None => Err(FfiError::TypeMismatch(tag)),
        },
        TypeTag::ISize => match v.as_i64() {
            Some(i) => Ok(NativeCell::ISize(#[verifier::truncate] (i as isize))),
            None => Err(FfiError::TypeMismatch(tag)),
        },
        TypeTag::F32 => match float_input(v) {
            Some(f) => Ok(NativeCell::F32(f)),
            None => Err(FfiError::TypeMismatch(tag)),
        },
        TypeTag::F64 => match float_input(v) {
            Some(f) => Ok(NativeCell::F64(f)),
            None => Err(FfiError::TypeMismatch(tag)),
        },
    }
}

/// Executable counterpart of [`spec_float_input`].
fn float_input(v: &DynamicValue) -> (r: Option<FloatInput>)
    ensures
        r == spec_float_input(*v),
{
    match *v {
        DynamicValue::UInt(u) => Some(FloatInput::Unsigned(u)),
        DynamicValue::Int(i) => Some(FloatInput::Signed(i)),
        DynamicValue::Float(b) => Some(FloatInput::Bits(b)),
        DynamicValue::Null => None,
    }
}

/// The calling-convention descriptor for one invocation: the declared
/// argument types, in call order, and the declared return type.  Rebuilt
/// from the declared types on every call, never cached.
#[derive(Debug, Clone, PartialEq, Eq)]
pub struct CallInterfaceDescriptor {
    pub arg_types: Vec<TypeTag>,
    pub return_type: TypeTag,
}

/// Builds the call-interface descriptor from the ordered argument tags and
/// the return tag.  Total over the closed vocabulary: every tag has a
/// native-ABI mapping, so no `UnsupportedType` failure can arise.
pub fn build_interface(arg_types: Vec<TypeTag>, return_type: TypeTag) -> (r:
    CallInterfaceDescriptor)
    ensures
        r.arg_types@ == arg_types@,
        r.return_type == return_type,
{
    CallInterfaceDescriptor { arg_types, return_type }
}

/// Builds one native cell per argument spec, in order; the output mirrors
/// the input's length and order exactly.  Fails with the `TypeMismatch` of
/// the first incompatible spec, and succeeds if and only if every spec's
/// value is compatible with its declared tag.
pub fn build_arguments(specs: &Vec<ArgumentSpec>) -> (r: Result<Vec<NativeCell>, FfiError>)
    ensures
        match r {
            Ok(cells) => cells@.len() == specs@.len() && forall|i: int|
                0 <= i < specs@.len() ==> Some(cells@[i]) == #[trigger] spec_extract(
                    specs@[i].tag,
                    specs@[i].value,
                ),
            Err(e) => exists|i: int|
                0 <= i < specs@.len() && #[trigger] spec_extract(specs@[i].tag, specs@[i].value)
                    is None && e == FfiError::TypeMismatch(specs@[i].tag) && forall|j: int|
                    0 <= j < i ==> #[trigger] spec_extract(specs@[j].tag, specs@[j].value)
                        is Some,
        },
{
    let mut cells: Vec<NativeCell> = Vec::new();
    let mut k: usize = 0;
    while k < specs.len()
        invariant
            0 <= k <= specs@.len(),
            cells@.len() == k,
            forall|i: int|
                0 <= i < k ==> Some(cells@[i]) == #[trigger] spec_extract(
                    specs@[i].tag,
                    specs@[i].value,
                ),
        decreases specs@.len() - k,
    {
        match extract(specs[k].tag, &specs[k].value) {
            Ok(c) => {
                cells.push(c);
            },
            Err(e) => {
                return Err(e);
            },
        }
        k = k + 1;
    }
    Ok(cells)
}

} // verus!
