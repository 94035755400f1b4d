use tygress::header::link::{EtherAddr, EtherType, EthernetII};
use tygress::header::HeaderTruncated;

#[test]
fn ethernet_short_header() {
    let bytes = [0; 13];
    assert_eq!(EthernetII::from_bytes(&bytes).unwrap_err(), HeaderTruncated);

    let bytes = [1, 2, 3, 4, 5, 6, 7, 8, 9, 10, 11, 12, 13];
    assert_eq!(EthernetII::from_bytes(&bytes).unwrap_err(), HeaderTruncated);
}

#[test]
fn ethernet_invalid_ethertype() {
    let bytes = [0; 14];
    let (header, _) = EthernetII::from_bytes(&bytes).unwrap();
    assert_eq!(header.ethertype(), EtherType::Unknown(0));

    let bytes = [1, 2, 3, 4, 5, 6, 7, 8, 9, 10, 11, 12, 13, 14];
    let (header, _) = EthernetII::from_bytes(&bytes).unwrap();
    assert_eq!(header.ethertype(), EtherType::Unknown(0x0D0E));
}

#[test]
fn ethernet_valid_ethertypes() {
    // ipv4
    let bytes = [&[0; 12][..], &[0x08, 0x00][..]].concat();
    let (header, _) = EthernetII::from_bytes(&bytes).unwrap();
    assert_eq!(header.ethertype(), EtherType::Ipv4);
    let bytes = [1, 2, 3, 4, 5, 6, 7, 8, 9, 10, 11, 12, 0x08, 0x00];
    let (header, _) = EthernetII::from_bytes(&bytes).unwrap();
    assert_eq!(header.ethertype(), EtherType::Ipv4);
    // arp
    let bytes = [&[0; 12][..], &[0x08, 0x06][..]].concat();
    let (header, _) = EthernetII::from_bytes(&bytes).unwrap();
    assert_eq!(header.ethertype(), EtherType::Arp);
    let bytes = [1, 2, 3, 4, 5, 6, 7, 8, 9, 10, 11, 12, 0x08, 0x06];
    let (header, _) = EthernetII::from_bytes(&bytes).unwrap();
    assert_eq!(header.ethertype(), EtherType::Arp);
    // ipv6
    let bytes = [&[0; 12][..], &[0x86, 0xDD][..]].concat();
    let (header, _) = EthernetII::from_bytes(&bytes).unwrap();
    assert_eq!(header.ethertype(), EtherType::Ipv6);
    let bytes = [1, 2, 3, 4, 5, 6, 7, 8, 9, 10, 11, 12, 0x86, 0xDD];
    let (header, _) = EthernetII::from_bytes(&bytes).unwrap();
    assert_eq!(header.ethertype(), EtherType::Ipv6);
}

#[test]
fn ethernet_ether_addr() {
    let mut addr = EtherAddr([0xFF; 6]);
    assert!(addr.is_broadcast());
    assert_eq!((true, false), (addr.is_local(), addr.is_universal()));
    assert_eq!((true, false), (addr.is_multicast(), addr.is_unicast()));

    addr.0[0] = 0x0EF;
    assert!(!addr.is_broadcast());
    assert_eq!((true, false), (addr.is_local(), addr.is_universal()));
    assert_eq!((true, false), (addr.is_multicast(), addr.is_unicast()));

    addr.0[0] = 0x0FE;
    assert!(!addr.is_broadcast());
    assert_eq!((true, false), (addr.is_local(), addr.is_universal()));
    assert_eq!((false, true), (addr.is_multicast(), addr.is_unicast()));

    addr.0[0] = 0x0FD;
    assert!(!addr.is_broadcast());
    assert_eq!((false, true), (addr.is_local(), addr.is_universal()));
    assert_eq!((true, false), (addr.is_multicast(), addr.is_unicast()));

    addr.0[0] = 0xFC;
    assert!(!addr.is_broadcast());
    assert_eq!((false, true), (addr.is_local(), addr.is_universal()));
    assert_eq!((false, true), (addr.is_multicast(), addr.is_unicast()));
}

#[test]
fn ethernet_fields_and_payload() {
    let bytes = [
        0x01, 0x02, 0x03, 0x04, 0x05, 0x06, 0x11, 0x12, 0x13, 0x14, 0x15, 0x16, 0x08, 0x00, 0xAA,
        0xBB,
    ];
    let (header, payload) = EthernetII::from_bytes(&bytes).unwrap();
    assert_eq!(header.dst(), EtherAddr::new([0x01, 0x02, 0x03, 0x04, 0x05, 0x06]));
    assert_eq!(header.src(), EtherAddr::new([0x11, 0x12, 0x13, 0x14, 0x15, 0x16]));
    assert_eq!(header.ethertype(), EtherType::Ipv4);
    assert_eq!(payload, &[0xAA, 0xBB]);
}

#[test]
fn ethernet_parse_idempotent() {
    let bytes = [
        0x01, 0x02, 0x03, 0x04, 0x05, 0x06, 0x11, 0x12, 0x13, 0x14, 0x15, 0x16, 0x86, 0xDD, 0x00,
    ];
    let (first, first_payload) = EthernetII::from_bytes(&bytes).unwrap();
    let (second, second_payload) = EthernetII::from_bytes(&bytes).unwrap();
    assert_eq!(first.dst(), second.dst());
    assert_eq!(first.src(), second.src());
    assert_eq!(first.ethertype(), second.ethertype());
    assert_eq!(first, second);
    assert_eq!(first_payload, second_payload);
}

#[test]
fn ethertype_round_trip() {
    for code in [0x0000u16, 0x0800, 0x0806, 0x86DD, 0x1234, 0xFFFF] {
        assert_eq!(EtherType::new(code).get(), code);
    }
    assert_eq!(EtherType::new(0x0800), EtherType::Ipv4);
    assert_eq!(EtherType::new(0x0806), EtherType::Arp);
    assert_eq!(EtherType::new(0x86DD), EtherType::Ipv6);
}

#[test]
fn ether_addr_as_bytes() {
    let addr = EtherAddr::new([1, 2, 3, 4, 5, 6]);
    assert_eq!(addr.as_bytes(), &[1, 2, 3, 4, 5, 6]);
    assert!(EtherAddr::broadcast().is_broadcast());
}
