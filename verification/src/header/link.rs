//! The link layer of the Internet Protocol suite.
//!
//! This layer carries protocols used to communicate between devices
//! connected locally by a particular hardware medium, either virtual or
//! physical.

pub mod ethernet;
pub mod ieee802154;

pub use ieee802154::Ieee802154;
pub use ieee802154::ParseIeee802154Error;
pub use ieee802154::HeaderUnsupported;
pub use ieee802154::FrameType;
pub use ieee802154::FrameVersion;
pub use ieee802154::AddressingMode;
pub use ethernet::EtherAddr;
pub use ethernet::EtherType;
pub use ethernet::EthernetII;
