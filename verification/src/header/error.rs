use vstd::prelude::*;

verus! {

/// Returned when a byte slice is too short to hold a header.
#[derive(Debug, Clone, Copy, PartialEq, Eq, Structural)]
pub struct HeaderTruncated;

/// Returned when a checksum does not verify.
#[derive(Debug, Clone, Copy, PartialEq, Eq, Structural)]
pub struct ChecksumAssertion;

/// Returned when a value is too large to represent as a bitfield.
#[derive(Debug, Clone, Copy, PartialEq, Eq, Structural)]
pub struct ValueToLarge;

} // verus!
