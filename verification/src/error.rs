use vstd::prelude::*;

verus! {

/// The error taxonomy shared by header parsing and the dispatch pipeline.
#[derive(Debug, Clone, Copy, PartialEq, Eq, Structural)]
pub enum Error {
    /// Not enough bytes for a fixed-size header or for a declared length.
    Truncated,
    /// A field is syntactically valid but outside the subset this
    /// implementation handles.
    Unsupported,
    /// A field violates a structural invariant.
    Malformed,
    /// An integrity check failed.
    Checksum,
}

} // verus!
