//! Type-safe views of byte slices as network headers.
//!
//! Network data has structure and meaning: application data is prefixed by
//! a sequence of communication headers that move it through the stack.
//! Each header type here has a `from_bytes` function that interprets a
//! `&[u8]` as a header followed by its payload, decoding field by field
//! into a fixed-size stack struct, and states in its contract exactly
//! which inputs succeed and what every field of the result holds.

pub mod checksum;
pub mod internet;
pub mod link;
pub mod error;
pub mod primitive;
pub mod transport;

pub use error::ChecksumAssertion;
pub use error::HeaderTruncated;
pub use error::ValueToLarge;
