use asha::model::{
    BinauralType, DecodeError, DeviceCapabilities, DeviceSide, FeatureMap, HiSyncID,
    ReadOnlyProperties,
};

#[test]
fn decode_rejects_wrong_lengths() {
    for len in [0usize, 1, 8, 16, 18, 32] {
        let bytes = vec![0u8; len];
        let r = ReadOnlyProperties::decode(&bytes);
        assert_eq!(
            r,
            Err(DecodeError::InvalidLength { expected: 17, actual: len })
        );
        assert_eq!(ReadOnlyProperties::new(&bytes), None);
    }
}

#[test]
fn decode_succeeds_on_exact_length() {
    let bytes = vec![0u8; 17];
    assert!(ReadOnlyProperties::decode(&bytes).is_ok());
    assert!(ReadOnlyProperties::new(&bytes).is_some());
}

#[test]
fn decode_field_table() {
    let bytes: Vec<u8> = vec![
        0x2A, // version
        0xFF, // capabilities: all bits set
        0x34, 0x12, // manufacturer id, little-endian
        0x01, 0x02, 0x03, 0x04, 0x05, 0x06, // hearing aid set id, little-endian
        0xA5, // feature map
        0x78, 0x56, // render delay, little-endian
        0xCD, 0xAB, // reserved word, little-endian
        0x02, 0x01, // supported codec ids, little-endian
    ];
    let r = ReadOnlyProperties::decode(&bytes).unwrap();
    assert_eq!(r.version, 42);
    assert_eq!(r.device_capabilities.device_side, DeviceSide::Right);
    assert_eq!(r.device_capabilities.binaural_type, BinauralType::Binaural);
    assert!(r.device_capabilities.supports_csis);
    assert_eq!(r.device_capabilities.reserved, 0xF8);
    assert_eq!(r.hi_sync_id.manufacturer_id, 0x1234);
    assert_eq!(r.hi_sync_id.hearing_aid_set_id, 0x0605_0403_0201);
    assert!(r.feature_map.le_coc_supported);
    assert_eq!(r.feature_map.reserved, 0xA4);
    assert_eq!(r.render_delay, 0x5678);
    assert_eq!(r.reserved, 0xABCD);
    assert_eq!(r.supported_codec_ids, 0x0102);
}

#[test]
fn capabilities_bits_right_binaural() {
    let c = DeviceCapabilities::new(&0b0000_0011);
    assert_eq!(c.device_side, DeviceSide::Right);
    assert_eq!(c.binaural_type, BinauralType::Binaural);
    assert!(!c.supports_csis);
    assert_eq!(c.reserved, 0);
}

#[test]
fn capabilities_bits_left_monaural_csis() {
    let c = DeviceCapabilities::new(&0b0000_0100);
    assert_eq!(c.device_side, DeviceSide::Left);
    assert_eq!(c.binaural_type, BinauralType::Monaural);
    assert!(c.supports_csis);
    assert_eq!(c.reserved, 0);
}

#[test]
fn feature_map_bits() {
    let f = FeatureMap::new(&0b0000_0001);
    assert!(f.le_coc_supported);
    assert_eq!(f.reserved, 0);

    let f = FeatureMap::new(&0b1111_1110);
    assert!(!f.le_coc_supported);
    assert_eq!(f.reserved, 0b1111_1110);
}

#[test]
fn hi_sync_id_little_endian() {
    let id = HiSyncID::new(&[0x01, 0x00, 0x02, 0x00, 0x00, 0x00, 0x00, 0x00]);
    assert_eq!(id.manufacturer_id, 1);
    assert_eq!(id.hearing_aid_set_id, 2);
}

#[test]
fn hi_sync_id_byte_order_matters() {
    let id = HiSyncID::new(&[0x01, 0x02, 0xFF, 0x00, 0x00, 0x00, 0x00, 0x80]);
    assert_eq!(id.manufacturer_id, 0x0201);
    assert_eq!(id.hearing_aid_set_id, 0x8000_0000_00FF);
}

#[test]
fn end_to_end_record() {
    let bytes: Vec<u8> = vec![
        0x01, 0x03, 0x10, 0x00, 0x00, 0x00, 0x00, 0x00, 0x00, 0x00, 0x01, 0x64, 0x00, 0x00,
        0x00, 0x01, 0x00,
    ];
    let r = ReadOnlyProperties::decode(&bytes).unwrap();
    assert_eq!(r.version, 1);
    assert_eq!(r.device_capabilities.device_side, DeviceSide::Right);
    assert_eq!(r.device_capabilities.binaural_type, BinauralType::Binaural);
    assert!(!r.device_capabilities.supports_csis);
    assert_eq!(r.device_capabilities.reserved, 0);
    assert_eq!(r.hi_sync_id.manufacturer_id, 0x0010);
    assert_eq!(r.hi_sync_id.hearing_aid_set_id, 0);
    assert!(r.feature_map.le_coc_supported);
    assert_eq!(r.feature_map.reserved, 0);
    assert_eq!(r.render_delay, 100);
    assert_eq!(r.reserved, 0);
    assert_eq!(r.supported_codec_ids, 1);
}

#[test]
fn reserved_bits_preserved_verbatim() {
    let mut bytes = vec![0u8; 17];
    bytes[1] = 0b1010_1101; // capability reserved bits 3-7 set to 10101
    bytes[10] = 0b0101_0110; // feature reserved bits 1-7 set to 0101011
    bytes[13] = 0xEF;
    bytes[14] = 0xBE;
    let r = ReadOnlyProperties::decode(&bytes).unwrap();
    assert_eq!(r.device_capabilities.reserved, 0b1010_1000);
    assert_eq!(r.feature_map.reserved, 0b0101_0110);
    assert_eq!(r.reserved, 0xBEEF);
    // The interpreted bits still come from the same bytes.
    assert_eq!(r.device_capabilities.device_side, DeviceSide::Right);
    assert_eq!(r.device_capabilities.binaural_type, BinauralType::Monaural);
    assert!(r.device_capabilities.supports_csis);
    assert!(!r.feature_map.le_coc_supported);
}
