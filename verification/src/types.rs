//! The type descriptor: the closed vocabulary of native scalar types.
//!
//! Every declared argument and return type arrives as a textual name and is
//! resolved to exactly one [`TypeTag`].  The set is closed: extending it
//! means adding a variant here and a matching branch at every dispatch
//! site, not adding a new polymorphic implementation.

use vstd::prelude::*;
use crate::error::FfiError;

verus! {

/// One native scalar type of the closed vocabulary.
#[derive(Debug, Clone, Copy, PartialEq, Eq, Structural)]
pub enum TypeTag {
    Void,
    U8,
    I8,
    U16,
    I16,
    U32,
    I32,
    U64,
    I64,
    USize,
    ISize,
    F32,
    F64,
}

/// The tag a textual type name resolves to, or `None` when the name lies
/// outside the closed vocabulary.  Names are case-sensitive, lowercase.
pub open spec fn spec_tag_of_name(name: Seq<char>) -> Option<TypeTag> {
    if name == "void"@ {
        Some(TypeTag::Void)
    } else if name == "u8"@ {
        Some(TypeTag::U8)
    } else if name == "i8"@ {
        Some(TypeTag::I8)
    } else if name == "u16"@ {
        Some(TypeTag::U16)
    } else if name == "i16"@ {
        Some(TypeTag::I16)
    } else if name == "u32"@ {
        Some(TypeTag::U32)
    } else if name == "i32"@ {
        Some(TypeTag::I32)
    } else if name == "u64"@ {
        Some(TypeTag::U64)
    } else if name == "i64"@ {
        Some(TypeTag::I64)
    } else if name == "usize"@ {
        Some(TypeTag::USize)
    } else if name == "isize"@ {
        Some(TypeTag::ISize)
    } else if name == "f32"@ {
        Some(TypeTag::F32)
    } else if name == "f64"@ {
        Some(TypeTag::F64)
    } else {
        None
    }
}

/// True of a `&String` whose characters are exactly those of `lit`.
fn string_is(name: &String, lit: &str) -> (r: bool)
    ensures
        r == (name@ == lit@),
{
    let owned: String = lit.to_owned();
    *name == owned
}

/// Resolves a textual type name to its tag; fails with `UnknownType`
/// (carrying the name) exactly when the name is outside the vocabulary.
pub fn resolve_type(name: &String) -> (r: Result<TypeTag, FfiError>)
    ensures
        match r {
            Ok(t) => spec_tag_of_name(name@) == Some(t),
            Err(e) => spec_tag_of_name(name@) is None && (e matches FfiError::UnknownType(n)
                && n@ == name@),
        },
{
    if string_is(name, "void") {
        Ok(TypeTag::Void)
    } else if string_is(name, "u8") {
        Ok(TypeTag::U8)
    } else if string_is(name, "i8") {
        Ok(TypeTag::I8)
    } else if string_is(name, "u16") {
        Ok(TypeTag::U16)
    } else if string_is(name, "i16") {
        Ok(TypeTag::I16)
    } else if string_is(name, "u32") {
        Ok(TypeTag::U32)
    } else if string_is(name, "i32") {
        Ok(TypeTag::I32)
    } else if string_is(name, "u64") {
        Ok(TypeTag::U64)
    } else if string_is(name, "i64") {
        Ok(TypeTag::I64)
    } else if string_is(name, "usize") {
        Ok(TypeTag::USize)
    } else if string_is(name, "isize") {
        Ok(TypeTag::ISize)
    } else if string_is(name, "f32") {
        Ok(TypeTag::F32)
    } else if string_is(name, "f64") {
        Ok(TypeTag::F64)
    } else {
        Err(FfiError::UnknownType(name.clone()))
    }
}

} // verus!
