use tygress::header::link::ieee802154::{
    AddressingMode, FrameType, FrameVersion, HeaderUnsupported, Ieee802154, ParseIeee802154Error,
    UnsupportedField,
};
use tygress::header::HeaderTruncated;

#[test]
fn ieee802154_too_short_for_frame_control() {
    let bytes = [0x40];
    assert_eq!(
        Ieee802154::from_bytes(&bytes).unwrap_err(),
        ParseIeee802154Error::Truncated(HeaderTruncated)
    );
}

#[test]
fn ieee802154_ack_header_is_three_bytes() {
    // frame type Ack, version 2006: frame control 0x4004
    let bytes = [0x40, 0x04, 0x55, 0xAA, 0xBB];
    let (header, payload) = Ieee802154::from_bytes(&bytes).unwrap();
    assert_eq!(header.header, &[0x40, 0x04, 0x55]);
    assert_eq!(payload, &[0xAA, 0xBB]);
    // two bytes cannot hold the sequence number
    assert_eq!(
        Ieee802154::from_bytes(&bytes[..2]).unwrap_err(),
        ParseIeee802154Error::Truncated(HeaderTruncated)
    );
}

#[test]
fn ieee802154_data_with_short_addressing() {
    // frame type Data, version 2003, short destination and source
    // addressing, no PAN compression: frame control 0x2022. The header is
    // 3 + (2 + 2) + (2 + 2) = 11 bytes.
    let mut bytes = vec![0x20, 0x22];
    bytes.extend_from_slice(&[0; 9]);
    bytes.extend_from_slice(&[0xAA, 0xBB]);
    let (header, payload) = Ieee802154::from_bytes(&bytes).unwrap();
    assert_eq!(header.header.len(), 11);
    assert_eq!(payload, &[0xAA, 0xBB]);
    // ten bytes cannot hold the addressing fields
    assert_eq!(
        Ieee802154::from_bytes(&bytes[..10]).unwrap_err(),
        ParseIeee802154Error::Truncated(HeaderTruncated)
    );
}

#[test]
fn ieee802154_pan_id_compression_shortens_source() {
    // as above but with PAN identifier compression: frame control 0x2222.
    // The source PAN identifier is omitted: 3 + 4 + 2 = 9 header bytes.
    let mut bytes = vec![0x22, 0x22];
    bytes.extend_from_slice(&[0; 7]);
    bytes.push(0xAA);
    let (header, payload) = Ieee802154::from_bytes(&bytes).unwrap();
    assert_eq!(header.header.len(), 9);
    assert_eq!(payload, &[0xAA]);
}

#[test]
fn ieee802154_extended_addressing() {
    // extended destination (10 bytes), omitted source: frame control
    // 0x2030. The header is 3 + 10 = 13 bytes.
    let mut bytes = vec![0x20, 0x30];
    bytes.extend_from_slice(&[0; 11]);
    let (header, payload) = Ieee802154::from_bytes(&bytes).unwrap();
    assert_eq!(header.header.len(), 13);
    assert!(payload.is_empty());
}

#[test]
fn ieee802154_security_header() {
    // Data frame, security enabled, short addressing both ways, no
    // compression: frame control 0x3022. The security control byte sits
    // after 3 + 8 bytes; key identifier mode one adds one byte to the
    // five-byte auxiliary header: 3 + 8 + 6 = 17 header bytes.
    let mut bytes = vec![0x30, 0x22];
    bytes.extend_from_slice(&[0; 9]);
    bytes.push(0x08); // security control: key identifier mode one
    bytes.extend_from_slice(&[0; 5]);
    bytes.push(0xAA);
    let (header, payload) = Ieee802154::from_bytes(&bytes).unwrap();
    assert_eq!(header.header.len(), 17);
    assert_eq!(payload, &[0xAA]);
    // eleven bytes end right where the security control byte would be
    assert_eq!(
        Ieee802154::from_bytes(&bytes[..11]).unwrap_err(),
        ParseIeee802154Error::Truncated(HeaderTruncated)
    );
}

#[test]
fn ieee802154_unsupported_version() {
    // frame version bits 0b10: the revision with sequence number
    // suppression
    let bytes = [0x20, 0x08, 0x00];
    assert_eq!(
        Ieee802154::from_bytes(&bytes).unwrap_err(),
        ParseIeee802154Error::Unsupported(HeaderUnsupported {
            field: UnsupportedField::Version(FrameVersion::Ieee802154)
        })
    );
}

#[test]
fn ieee802154_unsupported_type() {
    // frame type bits 0b111: Extended
    let bytes = [0xE0, 0x00, 0x00];
    assert_eq!(
        Ieee802154::from_bytes(&bytes).unwrap_err(),
        ParseIeee802154Error::Unsupported(HeaderUnsupported {
            field: UnsupportedField::Type(FrameType::Extended)
        })
    );
}

#[test]
fn ieee802154_reserved_addressing_mode() {
    // destination addressing mode bits 0b01 are reserved
    let bytes = [0x20, 0x12, 0x00];
    assert_eq!(
        Ieee802154::from_bytes(&bytes).unwrap_err(),
        ParseIeee802154Error::Unsupported(HeaderUnsupported {
            field: UnsupportedField::Addressing(AddressingMode::Unknown(0b01))
        })
    );
}

#[test]
fn ieee802154_enums_round_trip() {
    for raw in 0u8..8 {
        assert_eq!(FrameType::new(raw).get(), raw);
    }
    for raw in 0u8..4 {
        assert_eq!(AddressingMode::new(raw).get(), raw);
        assert_eq!(FrameVersion::new(raw).get(), raw);
    }
    assert_eq!(FrameType::new(0b010), FrameType::Ack);
    assert_eq!(AddressingMode::new(0b01), AddressingMode::Unknown(1));
}
