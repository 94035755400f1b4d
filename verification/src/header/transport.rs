//! The transport layer of the Internet Protocol suite.
//!
//! This layer carries data between hosts without considering the lower
//! level logistics of how it gets there, and introduces ports through
//! which a host offers and accesses multiple distinct services.

pub mod udp;

pub use udp::Udp;
