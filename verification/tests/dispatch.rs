use tygress::driver::{process, process_ethernet, process_internet, Processed};
use tygress::error::Error;
use tygress::header::internet::{IpProtocol, Ipv4Addr};
use tygress::netdev::HardwareType;

// A 20-byte IPv4 header with a valid checksum.
const IPV4_EXAMPLE: [u8; 20] = [
    0x45, 0x00, 0x00, 0x73, 0x00, 0x00, 0x40, 0x00, 0x40, 0x11, 0xb8, 0x61, 0xc0, 0xa8, 0x00,
    0x01, 0xc0, 0xa8, 0x00, 0xc7,
];

fn ethernet_frame(tail: [u8; 2], payload: &[u8]) -> Vec<u8> {
    let mut frame = vec![0x0A, 0x0B, 0x0C, 0x0D, 0x0E, 0x0F, 0x1A, 0x1B, 0x1C, 0x1D, 0x1E, 0x1F];
    frame.extend_from_slice(&tail);
    frame.extend_from_slice(payload);
    frame
}

#[test]
fn ethernet_dispatches_ipv4() {
    let frame = ethernet_frame([0x08, 0x00], &IPV4_EXAMPLE);
    match process_ethernet(&frame).unwrap() {
        Processed::Delivered(header, payload) => {
            assert_eq!(header.protocol(), IpProtocol::UDP);
            assert_eq!(header.src(), Ipv4Addr::new([192, 168, 0, 1]));
            assert!(payload.is_empty());
        }
        other => panic!("expected a delivered packet, got {:?}", other),
    }
}

#[test]
fn ethernet_dispatches_arp_terminal() {
    let frame = ethernet_frame([0x08, 0x06], &[0; 28]);
    assert_eq!(process_ethernet(&frame).unwrap(), Processed::ArpTerminal);
}

#[test]
fn ethernet_dispatches_ipv6_terminal() {
    let frame = ethernet_frame([0x86, 0xDD], &[0; 40]);
    assert_eq!(process_ethernet(&frame).unwrap(), Processed::Ipv6Terminal);
}

#[test]
fn ethernet_drops_unknown_ethertype() {
    let frame = ethernet_frame([0x12, 0x34], &IPV4_EXAMPLE);
    assert_eq!(process_ethernet(&frame).unwrap(), Processed::Dropped);
}

#[test]
fn ethernet_truncated_frame_is_an_error() {
    let frame = [0u8; 13];
    assert_eq!(process_ethernet(&frame).unwrap_err(), Error::Truncated);
}

#[test]
fn ethernet_drops_checksum_failures_silently() {
    let mut corrupted = IPV4_EXAMPLE;
    corrupted[19] ^= 0x01;
    let frame = ethernet_frame([0x08, 0x00], &corrupted);
    assert_eq!(process_ethernet(&frame).unwrap(), Processed::ChecksumDropped);
}

#[test]
fn opaque_dispatches_on_version_nibble() {
    match process_internet(&IPV4_EXAMPLE).unwrap() {
        Processed::Delivered(header, _) => {
            assert_eq!(header.total_len(), 0x73);
        }
        other => panic!("expected a delivered packet, got {:?}", other),
    }
    // a version nibble of six is the IPv6 terminal state
    let v6 = [0x60, 0x00, 0x00, 0x00];
    assert_eq!(process_internet(&v6).unwrap(), Processed::Ipv6Terminal);
    // any other version nibble is dropped silently
    let v0 = [0x05, 0x00];
    assert_eq!(process_internet(&v0).unwrap(), Processed::Dropped);
    // no bytes at all are dropped silently too
    assert_eq!(process_internet(&[]).unwrap(), Processed::Dropped);
}

#[test]
fn opaque_surfaces_structural_errors() {
    // version nibble four but too few bytes for the fixed header
    assert_eq!(process_internet(&IPV4_EXAMPLE[..10]).unwrap_err(), Error::Truncated);
    // reserved flag bit set
    let mut reserved = IPV4_EXAMPLE;
    reserved[6] = 0xE0;
    assert_eq!(process_internet(&reserved).unwrap_err(), Error::Malformed);
}

#[test]
fn process_enters_at_the_hardware_type() {
    let frame = ethernet_frame([0x08, 0x00], &IPV4_EXAMPLE);
    assert!(matches!(
        process(HardwareType::EthernetII, &frame),
        Ok(Processed::Delivered(..))
    ));
    assert!(matches!(
        process(HardwareType::Opaque, &IPV4_EXAMPLE),
        Ok(Processed::Delivered(..))
    ));
    // an acknowledgement frame on an IEEE 802.15.4 device
    let ack = [0x40, 0x04, 0x55];
    assert!(matches!(
        process(HardwareType::Ieee802154, &ack),
        Ok(Processed::Ieee802154Terminal(..))
    ));
    // and an unsupported 802.15.4 frame type surfaces as an error
    let extended = [0xE0, 0x00, 0x00];
    assert_eq!(process(HardwareType::Ieee802154, &extended).unwrap_err(), Error::Unsupported);
}
