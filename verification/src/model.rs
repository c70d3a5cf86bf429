//! The ASHA ReadOnlyProperties record and its bit-exact decoder.
//!
//! The wire format is a fixed 17-byte buffer: a version byte, a capabilities
//! bitfield, an 8-byte HiSyncID, a feature bitfield, and three little-endian
//! 16-bit words (render delay, reserved, supported codec ids). Reserved bits
//! and bytes are kept verbatim in the decoded record, never reinterpreted.

use vstd::prelude::*;
use crate::byteio::{le16_at, le48_at, read_u16_le, read_u48_le};

verus! {

/// Exact length of a ReadOnlyProperties characteristic payload.
pub const RECORD_LEN: usize = 17;

/// Bit 0 of the capabilities byte: which side of the head the device serves.
pub const SIDE_BIT: u8 = 0b0000_0001;

/// Bit 1 of the capabilities byte: standalone or part of a binaural pair.
pub const BINAURAL_BIT: u8 = 0b0000_0010;

/// Bit 2 of the capabilities byte: Coordinated Set Identification support.
pub const CSIS_BIT: u8 = 0b0000_0100;

/// Bits 3-7 of the capabilities byte: reserved, preserved verbatim.
pub const CAPABILITIES_RESERVED_MASK: u8 = 0b1111_1000;

/// Bit 0 of the feature map byte: LE connection-oriented channels support.
pub const LE_COC_BIT: u8 = 0b0000_0001;

/// Bits 1-7 of the feature map byte: reserved, preserved verbatim.
pub const FEATURE_RESERVED_MASK: u8 = 0b1111_1110;

#[derive(Debug, Clone, Copy, PartialEq, Eq, Structural)]
pub enum DeviceSide {
    Left,
    Right,
}

#[derive(Debug, Clone, Copy, PartialEq, Eq, Structural)]
pub enum BinauralType {
    Monaural,
    Binaural,
}

/// Decoded capabilities byte (offset 1 of the record).
#[derive(Debug, Clone, Copy, PartialEq, Eq, Structural)]
pub struct DeviceCapabilities {
    pub device_side: DeviceSide,
    pub binaural_type: BinauralType,
    pub supports_csis: bool,
    pub reserved: u8,
}

/// Decoded HiSyncID (offsets 2-9 of the record): a manufacturer code paired
/// with a 48-bit identifier shared by the units of one hearing-aid set.
#[derive(Debug, Clone, Copy, PartialEq, Eq, Structural)]
pub struct HiSyncID {
    pub manufacturer_id: u16,
    pub hearing_aid_set_id: u64,
}

/// Decoded feature map byte (offset 10 of the record).
#[derive(Debug, Clone, Copy, PartialEq, Eq, Structural)]
pub struct FeatureMap {
    pub le_coc_supported: bool,
    pub reserved: u8,
}

/// The decoded ReadOnlyProperties record: every field of the 17-byte layout,
/// reserved positions included.
#[derive(Debug, Clone, Copy, PartialEq, Eq, Structural)]
pub struct ReadOnlyProperties {
    pub version: u8,
    pub device_capabilities: DeviceCapabilities,
    pub hi_sync_id: HiSyncID,
    pub feature_map: FeatureMap,
    pub render_delay: u16,
    pub reserved: u16,
    pub supported_codec_ids: u16,
}

/// Why a payload failed to decode.
#[derive(Debug, Clone, Copy, PartialEq, Eq, Structural)]
pub enum DecodeError {
    /// The payload was not exactly `expected` (17) bytes long; `actual` is
    /// the length observed.
    InvalidLength { expected: usize, actual: usize },
}

impl DeviceCapabilities {
    /// The decoding of one capabilities byte, bit by bit.
    pub open spec fn spec_from_byte(byte: u8) -> DeviceCapabilities {
        DeviceCapabilities {
            device_side: if byte & SIDE_BIT == SIDE_BIT {
                DeviceSide::Right
            } else {
                DeviceSide::Left
            },
            binaural_type: if byte & BINAURAL_BIT == BINAURAL_BIT {
                BinauralType::Binaural
            } else {
                BinauralType::Monaural
            },
            supports_csis: byte & CSIS_BIT == CSIS_BIT,
            reserved: byte & CAPABILITIES_RESERVED_MASK,
        }
    }

    /// The capabilities byte reassembled from the decoded fields.
    pub open spec fn spec_to_byte(self) -> u8 {
        (if self.device_side is Right { SIDE_BIT } else { 0 })
            | (if self.binaural_type is Binaural { BINAURAL_BIT } else { 0 })
            | (if self.supports_csis { CSIS_BIT } else { 0 })
            | self.reserved
    }

    pub fn new(byte: &u8) -> (r: DeviceCapabilities)
        ensures
            r == DeviceCapabilities::spec_from_byte(*byte),
    {
        let device_side = if (*byte & SIDE_BIT) == SIDE_BIT {
            DeviceSide::Right
        } else {
            DeviceSide::Left
        };

        let binaural_type = if (*byte & BINAURAL_BIT) == BINAURAL_BIT {
            BinauralType::Binaural
        } else {
            BinauralType::Monaural
        };

        let supports_csis = (*byte & CSIS_BIT) == CSIS_BIT;

        let reserved = *byte & CAPABILITIES_RESERVED_MASK;

        DeviceCapabilities { device_side, binaural_type, supports_csis, reserved }
    }

    /// Decoding a capabilities byte loses no bit: the byte can be reassembled
    /// from the decoded fields exactly, reserved bits included.
    pub proof fn lemma_round_trip(byte: u8)
        ensures
            DeviceCapabilities::spec_from_byte(byte).spec_to_byte() == byte,
    {
        assert(((if byte & 0x01u8 == 0x01u8 { 0x01u8 } else { 0x00u8 })
            | (if byte & 0x02u8 == 0x02u8 { 0x02u8 } else { 0x00u8 })
            | (if byte & 0x04u8 == 0x04u8 { 0x04u8 } else { 0x00u8 })
            | (byte & 0xF8u8)) == byte) by (bit_vector);
    }
}

impl FeatureMap {
    /// The decoding of one feature map byte, bit by bit.
    pub open spec fn spec_from_byte(byte: u8) -> FeatureMap {
        FeatureMap {
            le_coc_supported: byte & LE_COC_BIT == LE_COC_BIT,
            reserved: byte & FEATURE_RESERVED_MASK,
        }
    }

    /// The feature map byte reassembled from the decoded fields.
    pub open spec fn spec_to_byte(self) -> u8 {
        (if self.le_coc_supported { LE_COC_BIT } else { 0 }) | self.reserved
    }

    pub fn new(byte: &u8) -> (r: FeatureMap)
        ensures
            r == FeatureMap::spec_from_byte(*byte),
    {
        let le_coc_supported = (*byte & LE_COC_BIT) == LE_COC_BIT;

        let reserved = *byte & FEATURE_RESERVED_MASK;

        FeatureMap { le_coc_supported, reserved }
    }

    /// Decoding a feature map byte loses no bit: the byte can be reassembled
    /// from the decoded fields exactly, reserved bits included.
    pub proof fn lemma_round_trip(byte: u8)
        ensures
            FeatureMap::spec_from_byte(byte).spec_to_byte() == byte,
    {
        assert(((if byte & 0x01u8 == 0x01u8 { 0x01u8 } else { 0x00u8 })
            | (byte & 0xFEu8)) == byte) by (bit_vector);
    }
}

impl HiSyncID {
    /// The decoding of the eight HiSyncID bytes: a 16-bit manufacturer code
    /// followed by a 48-bit set identifier, both little-endian.
    pub open spec fn spec_from_bytes(s: Seq<u8>) -> HiSyncID
        recommends
            s.len() == 8,
    {
        HiSyncID {
            manufacturer_id: le16_at(s, 0) as u16,
            hearing_aid_set_id: le48_at(s, 2) as u64,
        }
    }

    pub fn new(byte_array: &[u8]) -> (r: HiSyncID)
        requires
            byte_array@.len() == 8,
        ensures
            r == HiSyncID::spec_from_bytes(byte_array@),
    {
        let manufacturer_id = read_u16_le(vstd::slice::slice_subrange(byte_array, 0, 2));
        let hearing_aid_set_id = read_u48_le(vstd::slice::slice_subrange(byte_array, 2, 8));

        HiSyncID { manufacturer_id, hearing_aid_set_id }
    }
}

impl ReadOnlyProperties {
    /// The decoding of a full 17-byte record: the offset/width/endianness
    /// table of the wire format, field by field.
    pub open spec fn spec_decode(s: Seq<u8>) -> ReadOnlyProperties
        recommends
            s.len() == RECORD_LEN,
    {
        ReadOnlyProperties {
            version: s[0],
            device_capabilities: DeviceCapabilities::spec_from_byte(s[1]),
            hi_sync_id: HiSyncID::spec_from_bytes(s.subrange(2, 10)),
            feature_map: FeatureMap::spec_from_byte(s[10]),
            render_delay: le16_at(s, 11) as u16,
            reserved: le16_at(s, 13) as u16,
            supported_codec_ids: le16_at(s, 15) as u16,
        }
    }

    /// What decoding a payload of any length yields: the decoded record for
    /// a 17-byte payload, and `InvalidLength` with the observed length for
    /// every other payload.
    pub open spec fn spec_decode_outcome(s: Seq<u8>) -> Result<ReadOnlyProperties, DecodeError>
        recommends
            s.len() <= usize::MAX,
    {
        if s.len() == RECORD_LEN {
            Ok(ReadOnlyProperties::spec_decode(s))
        } else {
            Err(DecodeError::InvalidLength { expected: RECORD_LEN, actual: s.len() as usize })
        }
    }

    /// Decode one characteristic payload. Succeeds exactly on 17-byte
    /// payloads; any other length yields `InvalidLength` carrying the
    /// observed length, never a partial record.
    pub fn decode(bytes: &[u8]) -> (r: Result<ReadOnlyProperties, DecodeError>)
        ensures
            r == ReadOnlyProperties::spec_decode_outcome(bytes@),
    {
        if bytes.len() != RECORD_LEN {
            return Err(DecodeError::InvalidLength { expected: RECORD_LEN, actual: bytes.len() });
        }

        let b1 = *vstd::slice::slice_index_get(bytes, 1);
        let b10 = *vstd::slice::slice_index_get(bytes, 10);

        Ok(ReadOnlyProperties {
            version: *vstd::slice::slice_index_get(bytes, 0),
            device_capabilities: DeviceCapabilities::new(&b1),
            hi_sync_id: HiSyncID::new(vstd::slice::slice_subrange(bytes, 2, 10)),
            feature_map: FeatureMap::new(&b10),
            render_delay: read_u16_le(vstd::slice::slice_subrange(bytes, 11, 13)),
            reserved: read_u16_le(vstd::slice::slice_subrange(bytes, 13, 15)),
            supported_codec_ids: read_u16_le(vstd::slice::slice_subrange(bytes, 15, 17)),
        })
    }

    /// Decode one characteristic payload, reporting failure as `None`.
    pub fn new(byte_array: &[u8]) -> (r: Option<ReadOnlyProperties>)
        ensures
            byte_array@.len() == RECORD_LEN ==> r == Some(ReadOnlyProperties::spec_decode(
                byte_array@,
            )),
            byte_array@.len() != RECORD_LEN ==> r is None,
    {
        match ReadOnlyProperties::decode(byte_array) {
            Ok(properties) => Some(properties),
            Err(_) => None,
        }
    }

    /// Every decoded field equals the value the offset/width/endianness table
    /// assigns to it, spelled out byte by byte.
    pub proof fn lemma_decode_fields(s: Seq<u8>)
        requires
            s.len() == RECORD_LEN,
        ensures
            ReadOnlyProperties::spec_decode(s).version == s[0],
            ReadOnlyProperties::spec_decode(s).device_capabilities
                == DeviceCapabilities::spec_from_byte(s[1]),
            ReadOnlyProperties::spec_decode(s).hi_sync_id.manufacturer_id
                == s[2] + 0x100 * s[3],
            ReadOnlyProperties::spec_decode(s).hi_sync_id.hearing_aid_set_id
                == s[4] + 0x100 * s[5] + 0x1_0000 * s[6] + 0x100_0000 * s[7]
                    + 0x1_0000_0000 * s[8] + 0x100_0000_0000 * s[9],
            ReadOnlyProperties::spec_decode(s).feature_map == FeatureMap::spec_from_byte(s[10]),
            ReadOnlyProperties::spec_decode(s).render_delay == s[11] + 0x100 * s[12],
            ReadOnlyProperties::spec_decode(s).reserved == s[13] + 0x100 * s[14],
            ReadOnlyProperties::spec_decode(s).supported_codec_ids == s[15] + 0x100 * s[16],
    {
        assert(le16_at(s.subrange(2, 10), 0) == le16_at(s, 2));
        assert(le48_at(s.subrange(2, 10), 2) == le48_at(s, 4));
    }

    /// Reserved bits and bytes survive decoding verbatim: the reserved parts
    /// of both bitfields and the reserved word equal the corresponding input
    /// bits exactly, whatever values they hold.
    pub proof fn lemma_reserved_preserved(s: Seq<u8>)
        requires
            s.len() == RECORD_LEN,
        ensures
            ReadOnlyProperties::spec_decode(s).device_capabilities.reserved
                == s[1] & CAPABILITIES_RESERVED_MASK,
            ReadOnlyProperties::spec_decode(s).feature_map.reserved
                == s[10] & FEATURE_RESERVED_MASK,
            ReadOnlyProperties::spec_decode(s).reserved == s[13] + 0x100 * s[14],
            ReadOnlyProperties::spec_decode(s).device_capabilities.spec_to_byte() == s[1],
            ReadOnlyProperties::spec_decode(s).feature_map.spec_to_byte() == s[10],
    {
        DeviceCapabilities::lemma_round_trip(s[1]);
        FeatureMap::lemma_round_trip(s[10]);
    }
}

} // verus!
