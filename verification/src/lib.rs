//! Dynamic foreign-call dispatch: a verified core for loading shared
//! libraries and marshalling dynamically typed values into native calls.

use vstd::prelude::*;

pub mod dispatch;
pub mod error;
pub mod invoke;
pub mod marshal;
pub mod types;
pub mod value;

verus! {

/// Process-wide flag: whether the unstable dynamic-library surface is enabled.
pub struct Unstable(pub bool);

impl Unstable {
    /// True exactly when the guarded surface may be used; a host that sees
    /// `false` must refuse the operation before anything else happens.
    pub fn allows(&self) -> (b: bool)
        ensures
            b == self.0,
    {
        self.0
    }
}

} // verus!
