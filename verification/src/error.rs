//! Errors of the library's own logic.
use vstd::prelude::*;

verus! {

/// Error returned by [`StringDescriptor`](crate::config::StringDescriptor) operations.
#[derive(Debug, Clone, Copy, PartialEq, Eq, Structural)]
pub enum StringDescriptorError {
    /// The string exceeds the 31-codeunit maximum.
    TooLong { len: usize, max: usize },
}

} // verus!
