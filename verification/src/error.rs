//! The recoverable failures of the dispatch surface.
//!
//! A fault inside the called native code (a segmentation fault, a native
//! abort) has no variant here: it is an unrecoverable process event, an
//! operational hazard of calling unchecked native code.  A disabled
//! feature flag is not an error either: a host that finds the unstable
//! surface switched off terminates the process instead of returning.

use vstd::prelude::*;
use crate::types::TypeTag;

verus! {

/// Everything a caller of the dispatch surface can be told went wrong.
///
/// `LibraryLoadError` and `SymbolNotFound` carry the native loader's
/// diagnostic through unchanged; `UnknownType` carries the offending type
/// name; `TypeMismatch` carries the declared tag whose value accessor
/// refused the supplied value.
#[derive(Debug, Clone, PartialEq, Eq)]
pub enum FfiError {
    PermissionDenied(String),
    InvalidHandle,
    LibraryLoadError(String),
    SymbolNotFound(String),
    UnknownType(String),
    TypeMismatch(TypeTag),
}

} // verus!
