//! The internet layer of the Internet Protocol suite.
//!
//! This layer carries protocols used for routing data between hosts
//! communicating on separate networks, so its headers focus primarily on
//! addressing.

pub mod arp;
pub mod ip;
pub mod ipv4;

pub use arp::Arp;
pub use arp::Hardware;
pub use arp::Operation;
pub use ip::Dscp;
pub use ip::Ecn;
pub use ip::IpProtocol;
pub use ip::IpVersion;
pub use ip::StdDscp;
pub use ipv4::Ipv4;
pub use ipv4::Ipv4Addr;
pub use ipv4::Ipv4Flags;
pub use ipv4::Ipv4Option;
pub use ipv4::Ipv4Options;
