//! The construction error taxonomy. Every failure of handle construction is
//! surfaced as one of these values; runtime matching has no failure mode.

use vstd::prelude::*;

verus! {

/// Why constructing a filter handle failed.
#[derive(Debug)]
pub enum FilterError {
    /// The process-wide compilation guard could not be acquired.
    Lock,
    /// The filter text cannot be handed to the foreign compiler as a
    /// C string because it holds an interior NUL byte.
    StringEncoding,
    /// The foreign compiler rejected the filter; carries the compiler's own
    /// diagnostic, verbatim.
    Compile(String),
    /// The foreign JIT engine produced no callable for a successfully
    /// compiled program.
    Jit,
}

} // verus!
