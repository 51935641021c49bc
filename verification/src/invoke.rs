//! The invoker's host-facing half: reading a natively typed result back
//! into a dynamically typed value.
//!
//! The foreign call itself — the one irreducibly unsafe operation of the
//! system — happens outside this crate, in the unverified host, which
//! dispatches on the declared return tag so that the native call mechanism
//! sees the return type at the call site.  The host hands the natively
//! typed result back here, and this module's conversion to a
//! [`DynamicValue`] is verified.  A floating-point result is handed back
//! as the bits of its value widened (exactly) to `f64`.

use vstd::prelude::*;
use crate::marshal::{spec_extract, FloatInput, NativeCell};
use crate::types::TypeTag;
use crate::value::{spec_as_i64, spec_as_u64, spec_num_eq, DynamicValue};

verus! {

/// A natively typed return value, as the host read it from the call's
/// return slot.  `Float` carries an `f32` or `f64` result as `f64` bits;
/// the widening of an `f32` result to `f64` is exact.
#[derive(Debug, Clone, Copy, PartialEq, Eq, Structural)]
pub enum NativeResult {
    Unit,
    U8(u8),
    I8(i8),
    U16(u16),
    I16(i16),
    U32(u32),
    I32(i32),
    U64(u64),
    I64(i64),
    USize(usize),
    ISize(isize),
    Float(u64),
}

/// Whether a native result is of the shape the declared return tag calls
/// for.  The host must establish this before asking for the conversion.
pub open spec fn spec_result_matches(tag: TypeTag, res: NativeResult) -> bool {
    match tag {
        TypeTag::Void => res is Unit,
        TypeTag::U8 => res is U8,
        TypeTag::I8 => res is I8,
        TypeTag::U16 => res is U16,
        TypeTag::I16 => res is I16,
        TypeTag::U32 => res is U32,
        TypeTag::I32 => res is I32,
        TypeTag::U64 => res is U64,
        TypeTag::I64 => res is I64,
        TypeTag::USize => res is USize,
        TypeTag::ISize => res is ISize,
        TypeTag::F32 => res is Float,
        TypeTag::F64 => res is Float,
    }
}

/// Executable counterpart of [`spec_result_matches`], for the host to
/// check before [`wrap_return`].
pub fn result_matches(tag: TypeTag, res: &NativeResult) -> (b: bool)
    ensures
        b == spec_result_matches(tag, *res),
{
    match tag {
        TypeTag::Void => matches!(res, NativeResult::Unit),
        TypeTag::U8 => matches!(res, NativeResult::U8(_)),
        TypeTag::I8 => matches!(res, NativeResult::I8(_)),
        TypeTag::U16 => matches!(res, NativeResult::U16(_)),
        TypeTag::I16 => matches!(res, NativeResult::I16(_)),
        TypeTag::U32 => matches!(res, NativeResult::U32(_)),
        TypeTag::I32 => matches!(res, NativeResult::I32(_)),
        TypeTag::U64 => matches!(res, NativeResult::U64(_)),
        TypeTag::I64 => matches!(res, NativeResult::I64(_)),
        TypeTag::USize => matches!(res, NativeResult::USize(_)),
        TypeTag::ISize => matches!(res, NativeResult::ISize(_)),
        TypeTag::F32 => matches!(res, NativeResult::Float(_)),
        TypeTag::F64 => matches!(res, NativeResult::Float(_)),
    }
}

/// The dynamically typed value a native result wraps to: unsigned widths
/// widen into the non-negative integer class, signed widths into the
/// signed class, floating point keeps its bits, and unit becomes null.
pub open spec fn spec_wrap_return(res: NativeResult) -> DynamicValue {
    match res {
        NativeResult::Unit => DynamicValue::Null,
        NativeResult::U8(u) => DynamicValue::UInt(u as u64),
        NativeResult::I8(i) => DynamicValue::Int(i as i64),
        NativeResult::U16(u) => DynamicValue::UInt(u as u64),
        NativeResult::I16(i) => DynamicValue::Int(i as i64),
        NativeResult::U32(u) => DynamicValue::UInt(u as u64),
        NativeResult::I32(i) => DynamicValue::Int(i as i64),
        NativeResult::U64(u) => DynamicValue::UInt(u),
        NativeResult::I64(i) => DynamicValue::Int(i),
        NativeResult::USize(u) => DynamicValue::UInt(u as u64),
        NativeResult::ISize(i) => DynamicValue::Int(i as i64),
        NativeResult::Float(b) => DynamicValue::Float(b),
    }
}

/// Converts the native result of a call declared to return `tag` into the
/// value handed to the host.  A `void` return always yields null,
/// whatever the native function did.
pub fn wrap_return(tag: TypeTag, res: &NativeResult) -> (r: DynamicValue)
    requires
        spec_result_matches(tag, *res),
    ensures
        r == spec_wrap_return(*res),
        tag is Void ==> r is Null,
{
    match *res {
        NativeResult::Unit => DynamicValue::Null,
        NativeResult::U8(u) => DynamicValue::UInt(u as u64),
        NativeResult::I8(i) => DynamicValue::Int(i as i64),
        NativeResult::U16(u) => DynamicValue::UInt(u as u64),
        NativeResult::I16(i) => DynamicValue::Int(i as i64),
        NativeResult::U32(u) => DynamicValue::UInt(u as u64),
        NativeResult::I32(i) => DynamicValue::Int(i as i64),
        NativeResult::U64(u) => DynamicValue::UInt(u),
        NativeResult::I64(i) => DynamicValue::Int(i),
        NativeResult::USize(u) => DynamicValue::UInt(u as u64),
        NativeResult::ISize(i) => DynamicValue::Int(i as i64),
        NativeResult::Float(b) => DynamicValue::Float(b),
    }
}

/// Whether a value lies within the declared tag's representable range, so
/// that marshalling neither truncates nor reinterprets it.  For `f32` no
/// such range can be stated here — deciding whether a bit pattern survives
/// the narrowing to `f32` takes floating-point arithmetic this crate does
/// not hold — so no value counts as in range for it.
pub open spec fn spec_in_range(tag: TypeTag, v: DynamicValue) -> bool {
    match tag {
        TypeTag::Void => false,
        TypeTag::U8 => match spec_as_u64(v) {
            Some(u) => u < 0x100,
            None => false,
        },
        TypeTag::U16 => match spec_as_u64(v) {
            Some(u) => u < 0x1_0000,
            None => false,
        },
        TypeTag::U32 => match spec_as_u64(v) {
            Some(u) => u < 0x1_0000_0000,
            None => false,
        },
        TypeTag::U64 => spec_as_u64(v) is Some,
        TypeTag::USize => match spec_as_u64(v) {
            Some(u) => u <= usize::MAX,
            None => false,
        },
        TypeTag::I8 => match spec_as_i64(v) {
            Some(i) => -0x80 <= i < 0x80,
            None => false,
        },
        TypeTag::I16 => match spec_as_i64(v) {
            Some(i) => -0x8000 <= i < 0x8000,
            None => false,
        },
        TypeTag::I32 => match spec_as_i64(v) {
            Some(i) => -0x8000_0000 <= i < 0x8000_0000,
            None => false,
        },
        TypeTag::I64 => spec_as_i64(v) is Some,
        TypeTag::ISize => match spec_as_i64(v) {
            Some(i) => isize::MIN <= i <= isize::MAX,
            None => false,
        },
        TypeTag::F32 => false,
        TypeTag::F64 => v is Float,
    }
}

/// The result a native function that returns its argument unchanged hands
/// back, given the argument's cell — the model of an identity call.
/// `None` where that result is not expressible here: a floating-point
/// cell whose value the host would first have to convert from an integer
/// or narrow to `f32`.
pub open spec fn spec_identity_result(c: NativeCell) -> Option<NativeResult> {
    match c {
        NativeCell::Unit => Some(NativeResult::Unit),
        NativeCell::U8(u) => Some(NativeResult::U8(u)),
        NativeCell::I8(i) => Some(NativeResult::I8(i)),
        NativeCell::U16(u) => Some(NativeResult::U16(u)),
        NativeCell::I16(i) => Some(NativeResult::I16(i)),
        NativeCell::U32(u) => Some(NativeResult::U32(u)),
        NativeCell::I32(i) => Some(NativeResult::I32(i)),
        NativeCell::U64(u) => Some(NativeResult::U64(u)),
        NativeCell::I64(i) => Some(NativeResult::I64(i)),
        NativeCell::USize(u) => Some(NativeResult::USize(u)),
        NativeCell::ISize(i) => Some(NativeResult::ISize(i)),
        NativeCell::F32(_) => None,
        NativeCell::F64(f) => match f {
            FloatInput::Bits(b) => Some(NativeResult::Float(b)),
            _ => None,
        },
    }
}

/// Round-trip law: for every tag other than `void` (and other than `f32`,
/// whose narrowing this crate cannot model), a value within the tag's
/// representable range, marshalled into its native cell and handed back by
/// an identity native call, wraps to a value numerically equal to the
/// original.
pub proof fn lemma_extract_roundtrip(tag: TypeTag, v: DynamicValue)
    requires
        !(tag is Void),
        !(tag is F32),
        spec_in_range(tag, v),
    ensures
        spec_extract(tag, v) is Some,
        spec_identity_result(spec_extract(tag, v)->Some_0) is Some,
        spec_result_matches(tag, spec_identity_result(spec_extract(tag, v)->Some_0)->Some_0),
        spec_num_eq(
            v,
            spec_wrap_return(spec_identity_result(spec_extract(tag, v)->Some_0)->Some_0),
        ),
{
    match tag {
        TypeTag::U8 => {
            let u = spec_as_u64(v)->Some_0;
            assert(u % 0x100 == u);
        },
        TypeTag::U16 => {
            let u = spec_as_u64(v)->Some_0;
            assert(u % 0x1_0000 == u);
        },
        TypeTag::U32 => {
            let u = spec_as_u64(v)->Some_0;
            assert(u % 0x1_0000_0000 == u);
        },
        _ => {},
    }
}

} // verus!
