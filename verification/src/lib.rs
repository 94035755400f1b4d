//! A user-space network protocol stack: typed, validated views of raw
//! link-layer frames and internet-layer packets, together with the
//! ones'-complement checksum engine and the cooperative driver loop that
//! feeds decoded frames to a caller-supplied computation.
//!
//! Headers are decoded field by field from byte slices into fixed-size
//! stack structs; every decode states exactly which inputs succeed and
//! what each field of the result holds.

pub mod driver;
pub mod error;
pub mod header;
pub mod netdev;
