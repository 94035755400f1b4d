//! The IEEE 802.15.4 header: a bit-packed frame control word, a sequence
//! number, and addressing and security fields whose widths the frame
//! control word itself declares.
//!
//! Only the 2003 and 2006 frame versions are supported: the later version
//! admits sequence-number suppression, which changes the header-length
//! formula. Supported frame types are Beacon, Data, Ack and MacCmd. An
//! acknowledgement frame's header is three bytes; any other supported
//! frame adds its addressing fields and, when security is enabled, an
//! auxiliary security header whose width the security control byte
//! declares.

use vstd::prelude::*;

use crate::header::error::HeaderTruncated;
use crate::header::primitive::{be16, U16, U8};

verus! {

/// An IEEE 802.15.4 frame type, the top three bits of the frame control
/// word.
#[derive(Debug, Hash, PartialEq, Eq, PartialOrd, Ord, Copy, Clone, Structural)]
pub enum FrameType {
    Beacon,
    Data,
    Ack,
    MacCmd,
    Multi,
    FragOrFrak,
    Extended,
    Unknown(u8),
}

impl FrameType {
    /// The classification of a raw frame type code.
    pub open spec fn spec_new(value: u8) -> FrameType {
        if value == 0b000 {
            FrameType::Beacon
        } else if value == 0b001 {
            FrameType::Data
        } else if value == 0b010 {
            FrameType::Ack
        } else if value == 0b011 {
            FrameType::MacCmd
        } else if value == 0b101 {
            FrameType::Multi
        } else if value == 0b110 {
            FrameType::FragOrFrak
        } else if value == 0b111 {
            FrameType::Extended
        } else {
            FrameType::Unknown(value)
        }
    }

    /// The raw code of a classification.
    pub open spec fn spec_get(self) -> u8 {
        match self {
            FrameType::Beacon => 0b000,
            FrameType::Data => 0b001,
            FrameType::Ack => 0b010,
            FrameType::MacCmd => 0b011,
            FrameType::Multi => 0b101,
            FrameType::FragOrFrak => 0b110,
            FrameType::Extended => 0b111,
            FrameType::Unknown(value) => value,
        }
    }

    /// Classifies a raw frame type code.
    #[verifier::when_used_as_spec(spec_new)]
    #[inline]
    pub fn new(value: u8) -> (r: Self)
        ensures
            r == FrameType::spec_new(value),
    {
        match value {
            0b000 => FrameType::Beacon,
            0b001 => FrameType::Data,
            0b010 => FrameType::Ack,
            0b011 => FrameType::MacCmd,
            0b101 => FrameType::Multi,
            0b110 => FrameType::FragOrFrak,
            0b111 => FrameType::Extended,
            _ => FrameType::Unknown(value),
        }
    }

    /// The raw code this classification stands for.
    #[inline]
    pub fn get(&self) -> (r: u8)
        ensures
            r == self.spec_get(),
    {
        match *self {
            FrameType::Beacon => 0b000,
            FrameType::Data => 0b001,
            FrameType::Ack => 0b010,
            FrameType::MacCmd => 0b011,
            FrameType::Multi => 0b101,
            FrameType::FragOrFrak => 0b110,
            FrameType::Extended => 0b111,
            FrameType::Unknown(value) => value,
        }
    }
}

/// Classifying a raw frame type and reading it back is lossless.
pub proof fn lemma_frame_type_round_trip(value: u8)
    ensures
        FrameType::spec_new(value).spec_get() == value,
{
}

/// An addressing mode: how wide a PAN's addresses on the frame are, or
/// that they are omitted. The remaining two-bit code is reserved.
#[derive(Debug, Hash, PartialEq, Eq, PartialOrd, Ord, Copy, Clone, Structural)]
pub enum AddressingMode {
    Omitted,
    Short,
    Extended,
    Unknown(u8),
}

impl AddressingMode {
    /// The classification of a raw addressing mode code.
    pub open spec fn spec_new(value: u8) -> AddressingMode {
        if value == 0b00 {
            AddressingMode::Omitted
        } else if value == 0b10 {
            AddressingMode::Short
        } else if value == 0b11 {
            AddressingMode::Extended
        } else {
            AddressingMode::Unknown(value)
        }
    }

    /// The raw code of a classification.
    pub open spec fn spec_get(self) -> u8 {
        match self {
            AddressingMode::Omitted => 0b00,
            AddressingMode::Short => 0b10,
            AddressingMode::Extended => 0b11,
            AddressingMode::Unknown(value) => value,
        }
    }

    /// Classifies a raw addressing mode code.
    #[verifier::when_used_as_spec(spec_new)]
    #[inline]
    pub fn new(value: u8) -> (r: Self)
        ensures
            r == AddressingMode::spec_new(value),
    {
        match value {
            0b00 => AddressingMode::Omitted,
            0b10 => AddressingMode::Short,
            0b11 => AddressingMode::Extended,
            _ => AddressingMode::Unknown(value),
        }
    }

    /// The raw code this classification stands for.
    #[inline]
    pub fn get(&self) -> (r: u8)
        ensures
            r == self.spec_get(),
    {
        match *self {
            AddressingMode::Omitted => 0b00,
            AddressingMode::Short => 0b10,
            AddressingMode::Extended => 0b11,
            AddressingMode::Unknown(value) => value,
        }
    }
}

/// Classifying a raw addressing mode and reading it back is lossless.
pub proof fn lemma_addressing_mode_round_trip(value: u8)
    ensures
        AddressingMode::spec_new(value).spec_get() == value,
{
}

/// An IEEE 802.15.4 frame version.
#[derive(Debug, Hash, PartialEq, Eq, PartialOrd, Ord, Copy, Clone, Structural)]
pub enum FrameVersion {
    Ieee802154_2003,
    Ieee802154_2006,
    Ieee802154,
    Unknown(u8),
}

impl FrameVersion {
    /// The classification of a raw frame version code.
    pub open spec fn spec_new(value: u8) -> FrameVersion {
        if value == 0b00 {
            FrameVersion::Ieee802154_2003
        } else if value == 0b01 {
            FrameVersion::Ieee802154_2006
        } else if value == 0b10 {
            FrameVersion::Ieee802154
        } else {
            FrameVersion::Unknown(value)
        }
    }

    /// The raw code of a classification.
    pub open spec fn spec_get(self) -> u8 {
        match self {
            FrameVersion::Ieee802154_2003 => 0b00,
            FrameVersion::Ieee802154_2006 => 0b01,
            FrameVersion::Ieee802154 => 0b10,
            FrameVersion::Unknown(value) => value,
        }
    }

    /// Classifies a raw frame version code.
    #[verifier::when_used_as_spec(spec_new)]
    #[inline]
    pub fn new(value: u8) -> (r: Self)
        ensures
            r == FrameVersion::spec_new(value),
    {
        match value {
            0b00 => FrameVersion::Ieee802154_2003,
            0b01 => FrameVersion::Ieee802154_2006,
            0b10 => FrameVersion::Ieee802154,
            _ => FrameVersion::Unknown(value),
        }
    }

    /// The raw code this classification stands for.
    #[inline]
    pub fn get(&self) -> (r: u8)
        ensures
            r == self.spec_get(),
    {
        match *self {
            FrameVersion::Ieee802154_2003 => 0b00,
            FrameVersion::Ieee802154_2006 => 0b01,
            FrameVersion::Ieee802154 => 0b10,
            FrameVersion::Unknown(value) => value,
        }
    }
}

/// Classifying a raw frame version and reading it back is lossless.
pub proof fn lemma_frame_version_round_trip(value: u8)
    ensures
        FrameVersion::spec_new(value).spec_get() == value,
{
}

/// The frame control word encoded by the first two bytes of `b`.
pub open spec fn spec_fc(b: Seq<u8>) -> int {
    be16(b[0], b[1])
}

/// The raw frame type bits of a frame control word.
pub open spec fn fc_frame_type(v: int) -> int {
    v / 0x2000
}

/// Whether a frame control word enables security.
pub open spec fn fc_security_enabled(v: int) -> bool {
    (v / 0x1000) % 2 == 1
}

/// Whether a frame control word marks a frame pending.
pub open spec fn fc_frame_pending(v: int) -> bool {
    (v / 0x800) % 2 == 1
}

/// Whether a frame control word requires an acknowledgement.
pub open spec fn fc_ack_required(v: int) -> bool {
    (v / 0x400) % 2 == 1
}

/// Whether a frame control word compresses the PAN identifier: the source
/// PAN identifier is omitted and the destination's is shared.
pub open spec fn fc_pan_id_compressed(v: int) -> bool {
    (v / 0x200) % 2 == 1
}

/// Whether a frame control word suppresses the sequence number.
pub open spec fn fc_seq_num_suppressed(v: int) -> bool {
    (v / 0x80) % 2 == 1
}

/// Whether a frame control word declares information elements present.
pub open spec fn fc_ie_present(v: int) -> bool {
    (v / 0x40) % 2 == 1
}

/// The raw destination addressing mode bits of a frame control word.
pub open spec fn fc_dest_mode(v: int) -> int {
    (v / 0x10) % 4
}

/// The raw frame version bits of a frame control word.
pub open spec fn fc_frame_version(v: int) -> int {
    (v / 4) % 4
}

/// The raw source addressing mode bits of a frame control word.
pub open spec fn fc_src_mode(v: int) -> int {
    v % 4
}

/// The bytes the destination addressing fields occupy: a two-byte PAN
/// identifier and a two- or eight-byte address, or nothing when omitted.
/// Meaningful only for the non-reserved modes.
pub open spec fn spec_dest_addressing_len(v: int) -> int {
    if fc_dest_mode(v) == 0b00 {
        0
    } else if fc_dest_mode(v) == 0b10 {
        4
    } else {
        10
    }
}

/// The bytes the source addressing fields occupy. Under PAN identifier
/// compression the source shares the destination's PAN identifier, so its
/// own is omitted. Meaningful only for the non-reserved modes.
pub open spec fn spec_src_addressing_len(v: int) -> int {
    let pan: int = if fc_pan_id_compressed(v) {
        0
    } else {
        2
    };
    if fc_src_mode(v) == 0b00 {
        0
    } else if fc_src_mode(v) == 0b10 {
        pan + 2
    } else {
        pan + 8
    }
}

/// The bytes all addressing fields occupy.
pub open spec fn spec_addressing_len(v: int) -> int {
    spec_dest_addressing_len(v) + spec_src_addressing_len(v)
}

/// The bytes the auxiliary security header occupies, declared by its
/// security control byte: the control byte, a four-byte frame counter, and
/// a key identifier of zero, one, five or nine bytes depending on the key
/// identifier mode.
pub open spec fn spec_security_len(sc: u8) -> int {
    let kim = (sc / 8) % 4;
    if kim == 0 {
        5
    } else if kim == 1 {
        6
    } else if kim == 2 {
        10
    } else {
        14
    }
}

/// The header length the frame control word (and, with security enabled,
/// the security control byte) of `b` declares: three bytes for an
/// acknowledgement, otherwise three plus the addressing fields plus any
/// auxiliary security header.
pub open spec fn spec_header_len(b: Seq<u8>) -> int {
    let v = spec_fc(b);
    if fc_frame_type(v) == 0b010 {
        3
    } else if fc_security_enabled(v) {
        3 + spec_addressing_len(v) + spec_security_len(b[3 + spec_addressing_len(v)])
    } else {
        3 + spec_addressing_len(v)
    }
}

/// The inputs [`Ieee802154::from_bytes`] accepts: a readable frame control
/// word of a supported version and type, non-reserved addressing modes
/// where addressing matters, and enough bytes for the declared header.
pub open spec fn spec_802154_ok(b: Seq<u8>) -> bool {
    let v = spec_fc(b);
    &&& b.len() >= 2
    &&& (fc_frame_version(v) == 0b00 || fc_frame_version(v) == 0b01)
    &&& (fc_frame_type(v) == 0b000 || fc_frame_type(v) == 0b001 || fc_frame_type(v) == 0b010
        || fc_frame_type(v) == 0b011)
    &&& (fc_frame_type(v) == 0b010 ==> b.len() >= 3)
    &&& (fc_frame_type(v) != 0b010 ==> {
        &&& fc_dest_mode(v) != 0b01
        &&& fc_src_mode(v) != 0b01
        &&& (fc_security_enabled(v) ==> b.len() > 3 + spec_addressing_len(v))
        &&& b.len() >= spec_header_len(b)
    })
}

/// A parse failure: not enough bytes, or a field outside the supported
/// subset.
#[derive(Debug, Clone, Copy, PartialEq, Eq, Structural)]
pub enum ParseIeee802154Error {
    Truncated(HeaderTruncated),
    Unsupported(HeaderUnsupported),
}

/// A field whose value is syntactically valid but outside the supported
/// subset.
#[derive(Debug, Clone, Copy, PartialEq, Eq, Structural)]
pub struct HeaderUnsupported {
    pub field: UnsupportedField,
}

/// Which field held the unsupported value.
#[derive(Debug, Clone, Copy, PartialEq, Eq, Structural)]
pub enum UnsupportedField {
    Version(FrameVersion),
    Type(FrameType),
    Addressing(AddressingMode),
}

impl ParseIeee802154Error {
    #[inline]
    fn truncated() -> (r: Self)
        ensures
            r == ParseIeee802154Error::Truncated(HeaderTruncated),
    {
        ParseIeee802154Error::Truncated(HeaderTruncated)
    }

    #[inline]
    fn unsupported_version(ver: FrameVersion) -> (r: Self)
        ensures
            r == ParseIeee802154Error::Unsupported(
                HeaderUnsupported { field: UnsupportedField::Version(ver) },
            ),
    {
        ParseIeee802154Error::Unsupported(HeaderUnsupported { field: UnsupportedField::Version(ver) })
    }

    #[inline]
    fn unsupported_type(ty: FrameType) -> (r: Self)
        ensures
            r == ParseIeee802154Error::Unsupported(
                HeaderUnsupported { field: UnsupportedField::Type(ty) },
            ),
    {
        ParseIeee802154Error::Unsupported(HeaderUnsupported { field: UnsupportedField::Type(ty) })
    }

    #[inline]
    fn unsupported_addressing(mode: AddressingMode) -> (r: Self)
        ensures
            r == ParseIeee802154Error::Unsupported(
                HeaderUnsupported { field: UnsupportedField::Addressing(mode) },
            ),
    {
        ParseIeee802154Error::Unsupported(
            HeaderUnsupported { field: UnsupportedField::Addressing(mode) },
        )
    }
}

/// The error [`Ieee802154::from_bytes`] returns on `b`: the first check
/// that fails, in the order the checks are layered.
pub open spec fn spec_802154_err(b: Seq<u8>) -> ParseIeee802154Error {
    let v = spec_fc(b);
    if b.len() < 2 {
        ParseIeee802154Error::Truncated(HeaderTruncated)
    } else if fc_frame_version(v) != 0b00 && fc_frame_version(v) != 0b01 {
        ParseIeee802154Error::Unsupported(
            HeaderUnsupported {
                field: UnsupportedField::Version(FrameVersion::spec_new(fc_frame_version(v) as u8)),
            },
        )
    } else if fc_frame_type(v) != 0b000 && fc_frame_type(v) != 0b001 && fc_frame_type(v) != 0b010
        && fc_frame_type(v) != 0b011 {
        ParseIeee802154Error::Unsupported(
            HeaderUnsupported {
                field: UnsupportedField::Type(FrameType::spec_new(fc_frame_type(v) as u8)),
            },
        )
    } else if fc_frame_type(v) != 0b010 && fc_dest_mode(v) == 0b01 {
        ParseIeee802154Error::Unsupported(
            HeaderUnsupported { field: UnsupportedField::Addressing(AddressingMode::Unknown(0b01)) },
        )
    } else if fc_frame_type(v) != 0b010 && fc_src_mode(v) == 0b01 {
        ParseIeee802154Error::Unsupported(
            HeaderUnsupported { field: UnsupportedField::Addressing(AddressingMode::Unknown(0b01)) },
        )
    } else {
        ParseIeee802154Error::Truncated(HeaderTruncated)
    }
}

/// The frame control word as it stands in a frame: the first two bytes.
#[derive(Debug, Hash, PartialEq, Eq, PartialOrd, Ord, Clone, Copy)]
pub struct FrameControl(pub U16);

impl FrameControl {
    /// The word's numeric value.
    pub open spec fn spec_value(self) -> int {
        be16(self.0.0[0], self.0.0[1])
    }

    /// The classified frame type from the top three bits.
    #[inline]
    pub fn frame_type(&self) -> (r: FrameType)
        ensures
            r == FrameType::spec_new(fc_frame_type(self.spec_value()) as u8),
    {
        FrameType::new((self.0.get() / 0x2000) as u8)
    }

    /// Whether security is enabled.
    #[inline]
    pub fn security_enabled(&self) -> (r: bool)
        ensures
            r == fc_security_enabled(self.spec_value()),
    {
        (self.0.get() / 0x1000) % 2 == 1
    }

    /// Whether the sender holds more data for the recipient.
    #[inline]
    pub fn frame_pending(&self) -> (r: bool)
        ensures
            r == fc_frame_pending(self.spec_value()),
    {
        (self.0.get() / 0x800) % 2 == 1
    }

    /// Whether an acknowledgement is required.
    #[inline]
    pub fn ack_required(&self) -> (r: bool)
        ensures
            r == fc_ack_required(self.spec_value()),
    {
        (self.0.get() / 0x400) % 2 == 1
    }

    /// Whether the PAN identifier is compressed.
    #[inline]
    pub fn pan_id_compressed(&self) -> (r: bool)
        ensures
            r == fc_pan_id_compressed(self.spec_value()),
    {
        (self.0.get() / 0x200) % 2 == 1
    }

    /// Whether the sequence number is suppressed.
    #[inline]
    pub fn seq_num_suppressed(&self) -> (r: bool)
        ensures
            r == fc_seq_num_suppressed(self.spec_value()),
    {
        (self.0.get() / 0x80) % 2 == 1
    }

    /// Whether information elements are present.
    #[inline]
    pub fn ie_present(&self) -> (r: bool)
        ensures
            r == fc_ie_present(self.spec_value()),
    {
        (self.0.get() / 0x40) % 2 == 1
    }

    /// The classified destination addressing mode.
    #[inline]
    pub fn dest_addressing_mode(&self) -> (r: AddressingMode)
        ensures
            r == AddressingMode::spec_new(fc_dest_mode(self.spec_value()) as u8),
    {
        AddressingMode::new(((self.0.get() / 0x10) % 4) as u8)
    }

    /// The classified frame version.
    #[inline]
    pub fn frame_version(&self) -> (r: FrameVersion)
        ensures
            r == FrameVersion::spec_new(fc_frame_version(self.spec_value()) as u8),
    {
        FrameVersion::new(((self.0.get() / 4) % 4) as u8)
    }

    /// The classified source addressing mode.
    #[inline]
    pub fn src_addressing_mode(&self) -> (r: AddressingMode)
        ensures
            r == AddressingMode::spec_new(fc_src_mode(self.spec_value()) as u8),
    {
        AddressingMode::new((self.0.get() % 4) as u8)
    }

    /// The bytes all addressing fields occupy, computed from the two
    /// addressing modes and PAN identifier compression. Meaningful only
    /// when neither mode is the reserved one.
    #[inline]
    pub fn addressing_len(&self) -> (r: usize)
        ensures
            r == spec_addressing_len(self.spec_value()),
    {
        let v = self.0.get();
        let dest_mode = (v / 0x10) % 4;
        let src_mode = v % 4;
        let compressed = (v / 0x200) % 2 == 1;
        let dest: usize = if dest_mode == 0b00 {
            0
        } else if dest_mode == 0b10 {
            4
        } else {
            10
        };
        let pan: usize = if compressed {
            0
        } else {
            2
        };
        let src: usize = if src_mode == 0b00 {
            0
        } else if src_mode == 0b10 {
            pan + 2
        } else {
            pan + 8
        };
        dest + src
    }
}

/// The security control byte of an auxiliary security header.
#[derive(Debug, Hash, PartialEq, Eq, PartialOrd, Ord, Clone, Copy)]
pub struct SecurityControl(pub U8);

impl SecurityControl {
    /// The bytes the auxiliary security header occupies: the control byte,
    /// the frame counter, and the key identifier its mode bits declare.
    #[inline]
    pub fn security_len(&self) -> (r: usize)
        ensures
            r == spec_security_len(self.0.0[0]),
    {
        let kim = (self.0.get() / 8) % 4;
        if kim == 0 {
            5
        } else if kim == 1 {
            6
        } else if kim == 2 {
            10
        } else {
            14
        }
    }
}

/// An IEEE 802.15.4 header: the header bytes, of the variable length the
/// frame control word declares.
#[derive(Debug, Hash, PartialEq, Eq, PartialOrd, Ord, Clone, Copy)]
pub struct Ieee802154<'a> {
    pub header: &'a [u8],
}

impl<'a> Ieee802154<'a> {
    /// Returns an immutable view of `bytes` as an IEEE 802.15.4 header
    /// followed by a payload. The header's length is computed from the
    /// frame control word: three bytes for an acknowledgement, otherwise
    /// three plus the addressing fields and, with security enabled, the
    /// auxiliary security header read at its computed offset. Truncation
    /// at any stage yields `Truncated`; an unhandled frame version or
    /// type, or a reserved addressing mode, yields `Unsupported`.
    pub fn from_bytes(bytes: &'a [u8]) -> (r: Result<(Self, &'a [u8]), ParseIeee802154Error>)
        ensures
            r is Ok <==> spec_802154_ok(bytes@),
            r is Ok ==> ({
                let (h, p) = r.unwrap();
                &&& h.header@ == bytes@.take(spec_header_len(bytes@))
                &&& p@ == bytes@.skip(spec_header_len(bytes@))
            }),
            r is Err ==> r.unwrap_err() == spec_802154_err(bytes@),
    {
        if bytes.len() < 2 {
            return Err(ParseIeee802154Error::truncated());
        }
        let fc = FrameControl(U16([bytes[0], bytes[1]]));

        // With sequence number suppression possible in later versions the
        // length formula below would not hold, so they are unsupported.
        match fc.frame_version() {
            FrameVersion::Ieee802154_2003 | FrameVersion::Ieee802154_2006 => {},
            ver => {
                return Err(ParseIeee802154Error::unsupported_version(ver));
            },
        };

        match fc.frame_type() {
            FrameType::Beacon | FrameType::Data | FrameType::Ack | FrameType::MacCmd => {},
            ty => {
                return Err(ParseIeee802154Error::unsupported_type(ty));
            },
        }

        let header_len: usize = if matches!(fc.frame_type(), FrameType::Ack) {
            3
        } else {
            if matches!(fc.dest_addressing_mode(), AddressingMode::Unknown(_)) {
                return Err(ParseIeee802154Error::unsupported_addressing(
                    AddressingMode::Unknown(0b01),
                ));
            }
            if matches!(fc.src_addressing_mode(), AddressingMode::Unknown(_)) {
                return Err(ParseIeee802154Error::unsupported_addressing(
                    AddressingMode::Unknown(0b01),
                ));
            }
            let addressing_len = fc.addressing_len();
            if fc.security_enabled() {
                let sc_index = 3 + addressing_len;
                if bytes.len() <= sc_index {
                    return Err(ParseIeee802154Error::truncated());
                }
                let sc = SecurityControl(U8([bytes[sc_index]]));
                3 + addressing_len + sc.security_len()
            } else {
                3 + addressing_len
            }
        };

        if bytes.len() < header_len {
            return Err(ParseIeee802154Error::truncated());
        }
        let header = vstd::slice::slice_subrange(bytes, 0, header_len);
        let payload = vstd::slice::slice_subrange(bytes, header_len, bytes.len());
        proof {
            assert(header@ =~= bytes@.take(spec_header_len(bytes@)));
            assert(payload@ =~= bytes@.skip(spec_header_len(bytes@)));
        }
        Ok((Self { header }, payload))
    }
}

} // verus!
