//! The async I/O driver: a lightweight single-threaded cooperative event
//! loop around a [`NetDev`], and the protocol dispatch pipeline it runs
//! over each received frame.
//!
//! The pipeline walks frame to packet in sequence, stateless per call:
//! the device's hardware type picks the entry state, an EthernetII frame's
//! EtherType picks the internet-layer decoder, and the IP version nibble
//! picks the packet parser. A decoded, checksum-verified IPv4 packet is
//! the delivered terminal state; checksum failures and unrecognized tags
//! drop the frame silently, while structural errors abort the driver's
//! turn.

use vstd::prelude::*;

use crate::error::Error;
use crate::header::error::HeaderTruncated;
use crate::header::internet::ip::IpVersion;
use crate::header::internet::ipv4::{
    spec_ipv4_parse_err, spec_ipv4_required, spec_ipv4_valid, spec_options_len, Ipv4,
};
use crate::header::link::ethernet::{EtherType, EthernetII};
use crate::header::link::ieee802154::{
    spec_802154_err, spec_802154_ok, spec_header_len, Ieee802154, ParseIeee802154Error,
};
use crate::header::primitive::be16;
use crate::netdev::{Event, HardwareType, NetDev};

verus! {

/// The outcome of interpreting one frame: a terminal state of the dispatch
/// pipeline. Produced fresh per incoming frame and consumed immediately;
/// the borrowed slices live no longer than the receive buffer's current
/// generation.
#[derive(Debug, PartialEq, Eq, Clone, Copy)]
pub enum Processed<'a> {
    /// An IPv4 packet, decoded and checksum-verified, with its payload:
    /// what this pipeline hands to upper-layer logic.
    Delivered(Ipv4<'a>, &'a [u8]),
    /// A recognized ARP frame: a terminal state this pipeline does not
    /// handle further yet.
    ArpTerminal,
    /// A recognized IPv6 tag: a terminal state this pipeline does not
    /// handle further yet.
    Ipv6Terminal,
    /// A decoded IEEE 802.15.4 frame with its payload: a terminal state
    /// this pipeline does not handle further yet.
    Ieee802154Terminal(Ieee802154<'a>, &'a [u8]),
    /// The packet's header checksum did not verify: transit corruption,
    /// so the frame is dropped silently rather than treated as an error.
    ChecksumDropped,
    /// An unknown EtherType or IP version tag: the frame is dropped
    /// silently.
    Dropped,
}

/// What [`process_ipv4`] yields for the packet bytes `b`: the decoded
/// header and payload of a valid packet, a silent drop on a checksum
/// mismatch, and the parse error otherwise.
pub open spec fn spec_ipv4_outcome<'a>(b: Seq<u8>, r: Result<Processed<'a>, Error>) -> bool {
    if spec_ipv4_valid(b) {
        &&& r matches Ok(Processed::Delivered(h, p))
        &&& h.required == spec_ipv4_required(b)
        &&& h.options@ == b.subrange(20, 20 + spec_options_len(b))
        &&& p@ == b.skip(20 + spec_options_len(b))
    } else if spec_ipv4_parse_err(b) == Error::Checksum {
        r == Ok::<Processed<'a>, Error>(Processed::ChecksumDropped)
    } else {
        r == Err::<Processed<'a>, Error>(spec_ipv4_parse_err(b))
    }
}

/// What the internet entry state yields for the bytes `b`: the IP version
/// nibble picks the parser; IPv6 is terminal and an unknown version is
/// dropped silently.
pub open spec fn spec_internet_outcome<'a>(b: Seq<u8>, r: Result<Processed<'a>, Error>) -> bool {
    if b.len() == 0 {
        r == Ok::<Processed<'a>, Error>(Processed::Dropped)
    } else if b[0] / 16 == 4 {
        spec_ipv4_outcome(b, r)
    } else if b[0] / 16 == 6 {
        r == Ok::<Processed<'a>, Error>(Processed::Ipv6Terminal)
    } else {
        r == Ok::<Processed<'a>, Error>(Processed::Dropped)
    }
}

/// What [`process_ethernet`] yields for the frame bytes `b`: too short a
/// frame is truncated; otherwise the EtherType in the last two header
/// bytes dispatches — IPv4 into the internet entry state over the payload,
/// ARP and IPv6 to their terminal states, and anything else to a silent
/// drop.
pub open spec fn spec_ethernet_outcome<'a>(b: Seq<u8>, r: Result<Processed<'a>, Error>) -> bool {
    if b.len() < 14 {
        r == Err::<Processed<'a>, Error>(Error::Truncated)
    } else {
        let ethertype = be16(b[12], b[13]);
        if ethertype == 0x0800 {
            spec_internet_outcome(b.skip(14), r)
        } else if ethertype == 0x0806 {
            r == Ok::<Processed<'a>, Error>(Processed::ArpTerminal)
        } else if ethertype == 0x86DD {
            r == Ok::<Processed<'a>, Error>(Processed::Ipv6Terminal)
        } else {
            r == Ok::<Processed<'a>, Error>(Processed::Dropped)
        }
    }
}

/// What [`process_ieee802154`] yields for the frame bytes `b`: the decoded
/// frame's terminal state, or its parse failure folded into the error
/// taxonomy.
pub open spec fn spec_802154_outcome<'a>(b: Seq<u8>, r: Result<Processed<'a>, Error>) -> bool {
    if spec_802154_ok(b) {
        &&& r matches Ok(Processed::Ieee802154Terminal(h, p))
        &&& h.header@ == b.take(spec_header_len(b))
        &&& p@ == b.skip(spec_header_len(b))
    } else {
        r == Err::<Processed<'a>, Error>(
            match spec_802154_err(b) {
                ParseIeee802154Error::Truncated(_) => Error::Truncated,
                ParseIeee802154Error::Unsupported(_) => Error::Unsupported,
            },
        )
    }
}

/// What [`process`] yields: the device's hardware type picks the
/// pipeline's entry state.
pub open spec fn spec_process_outcome<'a>(
    hw_type: HardwareType,
    b: Seq<u8>,
    r: Result<Processed<'a>, Error>,
) -> bool {
    match hw_type {
        HardwareType::EthernetII => spec_ethernet_outcome(b, r),
        HardwareType::Ieee802154 => spec_802154_outcome(b, r),
        HardwareType::Opaque => spec_internet_outcome(b, r),
    }
}

/// Parses and checksum-verifies one IPv4 packet. A checksum mismatch
/// indicates transit corruption rather than a protocol logic defect, so
/// the frame is dropped silently; every other parse failure is surfaced.
pub fn process_ipv4<'a>(bytes: &'a [u8]) -> (r: Result<Processed<'a>, Error>)
    ensures
        spec_ipv4_outcome(bytes@, r),
{
    match Ipv4::parse(bytes) {
        Ok((header, payload)) => Ok(Processed::Delivered(header, payload)),
        Err(Error::Checksum) => Ok(Processed::ChecksumDropped),
        Err(e) => Err(e),
    }
}

/// The internet entry state: inspects the first byte's version nibble and
/// dispatches to the matching packet parser.
pub fn process_internet<'a>(bytes: &'a [u8]) -> (r: Result<Processed<'a>, Error>)
    ensures
        spec_internet_outcome(bytes@, r),
{
    if bytes.len() == 0 {
        return Ok(Processed::Dropped);
    }
    match IpVersion::new(bytes[0] / 16) {
        IpVersion::Ipv4 => process_ipv4(bytes),
        IpVersion::Ipv6 => Ok(Processed::Ipv6Terminal),
        IpVersion::Unknown(_) => Ok(Processed::Dropped),
    }
}

/// The link entry state for EthernetII devices: casts the frame header and
/// dispatches on its EtherType, threading the remaining payload forward.
pub fn process_ethernet<'a>(bytes: &'a [u8]) -> (r: Result<Processed<'a>, Error>)
    ensures
        spec_ethernet_outcome(bytes@, r),
{
    let (header, payload) = match EthernetII::from_bytes(bytes) {
        Ok(v) => v,
        Err(HeaderTruncated) => {
            return Err(Error::Truncated);
        },
    };
    match header.ethertype() {
        EtherType::Ipv4 => process_internet(payload),
        EtherType::Arp => Ok(Processed::ArpTerminal),
        EtherType::Ipv6 => Ok(Processed::Ipv6Terminal),
        EtherType::Unknown(_) => Ok(Processed::Dropped),
    }
}

/// The link entry state for IEEE 802.15.4 devices: casts the frame header,
/// a terminal state of this pipeline.
pub fn process_ieee802154<'a>(bytes: &'a [u8]) -> (r: Result<Processed<'a>, Error>)
    ensures
        spec_802154_outcome(bytes@, r),
{
    match Ieee802154::from_bytes(bytes) {
        Ok((header, payload)) => Ok(Processed::Ieee802154Terminal(header, payload)),
        Err(ParseIeee802154Error::Truncated(_)) => Err(Error::Truncated),
        Err(ParseIeee802154Error::Unsupported(_)) => Err(Error::Unsupported),
    }
}

/// Runs the dispatch pipeline once over the bytes of one received frame,
/// entering at the state the device's hardware type names.
pub fn process<'a>(hw_type: HardwareType, bytes: &'a [u8]) -> (r: Result<Processed<'a>, Error>)
    ensures
        spec_process_outcome(hw_type, bytes@, r),
{
    match hw_type {
        HardwareType::EthernetII => process_ethernet(bytes),
        HardwareType::Ieee802154 => process_ieee802154(bytes),
        HardwareType::Opaque => process_internet(bytes),
    }
}

/// An error the pipeline surfaces is never the checksum case: a checksum
/// mismatch is dropped silently in every entry state.
proof fn lemma_process_err_not_checksum(hw_type: HardwareType, b: Seq<u8>, e: Error)
    requires
        spec_process_outcome(hw_type, b, Err::<Processed<'static>, Error>(e)),
    ensures
        e != Error::Checksum,
{
}

/// One cooperative computation driven by the [`Driver`]: polled once per
/// loop turn, suspending by returning `None` until its result is ready.
/// The driver re-polls the device directly each turn instead of waiting
/// for a wake signal, so suspension is a polling placeholder: a suspended
/// computation must be resumable without any external notification.
pub trait Task {
    type Output;

    /// The model of one poll: the final value this state of the
    /// computation is ready to yield, or `None` while it is still
    /// pending.
    spec fn completion(&self) -> Option<Self::Output>;

    /// Advances the computation one step; `Some` carries its final
    /// result, which is exactly what this state was ready to yield.
    fn poll(&mut self) -> (r: Option<Self::Output>)
        ensures
            r == old(self).completion(),
    ;
}

/// Why a turn of the driver ended without the computation's result.
#[derive(Debug, PartialEq, Eq)]
pub enum TurnError<E> {
    /// The device failed to poll or receive.
    Device(E),
    /// A received frame's structure failed to parse. Checksum mismatches
    /// are dropped silently and do not end the turn.
    Process(Error),
    /// The computation had not completed when the turn budget ran out.
    Exhausted,
}

/// A single-threaded cooperative I/O driver around a [`NetDev`]. It owns
/// the device and a fixed receive buffer of `MTU` bytes, reused in place
/// every iteration: no header view outlives the iteration that produced
/// it.
#[derive(Debug)]
pub struct Driver<T: NetDev, const MTU: usize> {
    netdev: T,
    buffer: Vec<u8>,
}

impl<T: NetDev, const MTU: usize> Driver<T, MTU> {
    /// The receive buffer spans exactly the `MTU` bytes it was created
    /// with.
    pub closed spec fn wf(self) -> bool {
        self.buffer@.len() == MTU
    }

    /// Creates a new asynchronous I/O driver around a [`NetDev`], with a
    /// zeroed receive buffer of `MTU` bytes.
    pub fn new(netdev: T) -> (r: Driver<T, MTU>)
        ensures
            r.wf(),
    {
        let mut buffer: Vec<u8> = Vec::new();
        while buffer.len() < MTU
            invariant
                buffer@.len() <= MTU,
            decreases MTU - buffer@.len(),
        {
            buffer.push(0);
        }
        Driver { netdev, buffer }
    }

    /// Runs `task` on the current thread, returning its result when it
    /// completes. Each of at most `turns` loop iterations polls the task
    /// once and, if it is still pending, blocks on device readiness,
    /// receives at most one frame, and runs the dispatch pipeline over
    /// exactly the bytes that one receive returned — so frames are decoded
    /// strictly in delivery order, one per iteration. A device failure or
    /// a structurally malformed frame ends the turn with the error; a
    /// checksum mismatch only drops the frame. The `turns` budget gives
    /// the loop a termination measure; a task still pending after `turns`
    /// iterations ends the turn too, and stays usable, so a caller that
    /// wants to wait indefinitely simply turns again.
    pub fn turn<F: Task>(self, task: &mut F, turns: usize) -> (r: Result<
        F::Output,
        TurnError<T::Error>,
    >)
        requires
            self.wf(),
        ensures
            turns == 0 ==> r == Err::<F::Output, TurnError<T::Error>>(TurnError::Exhausted),
            turns > 0 ==> (old(task).completion() matches Some(v) ==> r == Ok::<
                F::Output,
                TurnError<T::Error>,
            >(v)),
            r matches Err(TurnError::Process(e)) ==> e != Error::Checksum,
    {
        let mut this = self;
        if turns == 0 {
            return Err(TurnError::Exhausted);
        }
        // The first iteration's poll, ahead of the loop: an
        // already-complete computation comes back before any device work.
        if let Some(v) = task.poll() {
            return Ok(v);
        }
        let mut i: usize = 0;
        while i < turns
            invariant
                this.wf(),
                i <= turns,
                old(task).completion() is None,
            decreases turns - i,
        {
            let event = match this.netdev.poll(Event::readable(), None) {
                Ok(e) => e,
                Err(e) => {
                    return Err(TurnError::Device(e));
                },
            };
            if event.is_writable() {
                this.dispatch();
            }
            if event.is_readable() {
                let read = match this.netdev.recv(this.buffer.as_mut_slice()) {
                    Ok(n) => n,
                    Err(e) => {
                        return Err(TurnError::Device(e));
                    },
                };
                let frame = vstd::slice::slice_subrange(this.buffer.as_slice(), 0, read);
                let hw_type = this.netdev.hw_type();
                match process(hw_type, frame) {
                    Ok(_) => {},
                    Err(e) => {
                        proof {
                            lemma_process_err_not_checksum(hw_type, frame@, e);
                        }
                        return Err(TurnError::Process(e));
                    },
                }
            }
            i = i + 1;
            if i < turns {
                if let Some(v) = task.poll() {
                    return Ok(v);
                }
            }
        }
        Err(TurnError::Exhausted)
    }

    /// The outbound dispatch hook: nothing is queued outbound yet, so a
    /// writable device is left alone.
    fn dispatch(&self) {
    }
}

} // verus!
