//! An interface to physical networking hardware.
//!
//! A [`NetDev`] is any hardware abstraction that can send and receive
//! either raw IP packets, EthernetII frames or IEEE 802.15.4 frames: its
//! hardware type tags which link-layer framing, if any, the device
//! imposes, and so decides where the dispatch pipeline starts. The driver
//! owns one device exclusively and multiplexes data between it and the
//! computation it runs.
//!
//! Implementations live with the host around this library, since binding
//! raw sockets or TUN/TAP interfaces is operating-system work; this module
//! fixes only the contract they serve.

use core::time::Duration;
use vstd::prelude::*;

verus! {

/// The network hardware that a [`NetDev`] operates on.
#[derive(Debug, Eq, PartialEq, Copy, Clone, Structural)]
pub enum HardwareType {
    /// Sends and receives IP packets without an attached link layer
    /// header.
    Opaque,
    /// Sends and receives EthernetII frames.
    EthernetII,
    /// Sends and receives IEEE 802.15.4 frames.
    Ieee802154,
}

/// A [`NetDev`] flag indicating readiness to perform I/O. The two bits are
/// one-hot: the low one marks read readiness, the next write readiness.
#[derive(Debug, Copy, PartialEq, Eq, Clone, PartialOrd, Ord, Structural)]
pub struct Event(pub u8);

impl Event {
    /// Read readiness is flagged.
    pub open spec fn spec_is_readable(self) -> bool {
        self.0 & 0b01 != 0
    }

    /// Write readiness is flagged.
    pub open spec fn spec_is_writable(self) -> bool {
        self.0 & 0b10 != 0
    }

    /// Constructs an [`Event`] without any readiness.
    #[inline]
    pub fn new() -> (r: Self)
        ensures
            r.0 == 0,
            !r.spec_is_readable(),
            !r.spec_is_writable(),
    {
        proof {
            assert(0u8 & 0b01 == 0 && 0u8 & 0b10 == 0) by (bit_vector);
        }
        Self(0)
    }

    /// An [`Event`] with read readiness only.
    #[inline]
    pub fn readable() -> (r: Self)
        ensures
            r.0 == 0b01,
            r.spec_is_readable(),
            !r.spec_is_writable(),
    {
        proof {
            assert(1u8 & 0b01 != 0 && 1u8 & 0b10 == 0) by (bit_vector);
        }
        Self(0b01)
    }

    /// An [`Event`] with write readiness only.
    #[inline]
    pub fn writable() -> (r: Self)
        ensures
            r.0 == 0b10,
            !r.spec_is_readable(),
            r.spec_is_writable(),
    {
        proof {
            assert(2u8 & 0b01 == 0 && 2u8 & 0b10 != 0) by (bit_vector);
        }
        Self(0b10)
    }

    /// Both readiness flags of `self` and `other` together.
    #[inline]
    pub fn union(self, other: Self) -> (r: Self)
        ensures
            r.0 == self.0 | other.0,
            r.spec_is_readable() == (self.spec_is_readable() || other.spec_is_readable()),
            r.spec_is_writable() == (self.spec_is_writable() || other.spec_is_writable()),
    {
        proof {
            let a = self.0;
            let b = other.0;
            assert(((a | b) & 0b01 != 0) == (a & 0b01 != 0 || b & 0b01 != 0) && ((a | b) & 0b10
                != 0) == (a & 0b10 != 0 || b & 0b10 != 0)) by (bit_vector);
        }
        Self(self.0 | other.0)
    }

    /// Returns `true` if the device is ready to be read from.
    #[inline]
    pub fn is_readable(&self) -> (r: bool)
        ensures
            r == self.spec_is_readable(),
    {
        (self.0 & 0b01) != 0
    }

    /// Returns `true` if the device is ready to be written to.
    #[inline]
    pub fn is_writable(&self) -> (r: bool)
        ensures
            r == self.spec_is_writable(),
    {
        (self.0 & 0b10) != 0
    }
}

/// Interface for network hardware capable of sending and receiving frames
/// of a given [`HardwareType`]. The contracts here are the collaborator
/// contract the driver relies on; implementations are host code outside
/// this library.
pub trait NetDev {
    type Error;

    /// Sends a single raw network frame contained in `buf`, returning how
    /// many bytes were transmitted. `buf` may not be larger than the
    /// device's [`mtu`][NetDev::mtu] plus any link header.
    fn send(&self, buf: &[u8]) -> (r: Result<usize, Self::Error>);

    /// Receives a single raw network frame into `buf`, returning how many
    /// bytes were written: never more than the buffer holds. Must not
    /// block beyond what [`poll`][NetDev::poll] already guaranteed.
    fn recv(&self, buf: &mut [u8]) -> (r: Result<usize, Self::Error>)
        ensures
            final(buf)@.len() == old(buf)@.len(),
            r matches Ok(n) ==> n <= old(buf)@.len(),
    ;

    /// Checks I/O readiness by interest, so that
    /// [`send`][NetDev::send] or [`recv`][NetDev::recv] need not block.
    /// Blocks until at least one requested interest is satisfied, bounded
    /// by `timeout` if one is given; `None` waits indefinitely. Returns
    /// which interests are actually ready.
    fn poll(&self, interest: Event, timeout: Option<Duration>) -> (r: Result<
        Event,
        Self::Error,
    >);

    /// Maximum transmission unit: the largest IP-layer payload the device
    /// carries, excluding any link header. Fixed for the device's
    /// lifetime.
    fn mtu(&self) -> (r: usize);

    /// The network [`HardwareType`] the device operates on; decides where
    /// the dispatch pipeline starts for received frames.
    fn hw_type(&self) -> (r: HardwareType);
}

} // verus!
