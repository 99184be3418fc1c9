use mqutekitty::control_packets::{
    decode_remaining_length, encode_remaining_length, ControlPacketType, FixedHeader,
};

#[test]
fn decode_remaining_length_test() {
    let lengt_bytes: [u8; 2] = [193, 2];
    let length = decode_remaining_length(&lengt_bytes);
    assert_eq!(length.unwrap().0, 321);
}

#[test]
fn decode_remaining_length_error_test() {
    let lengt_bytes: [u8; 5] = [193, 193, 193, 193, 193];
    let length = decode_remaining_length(&lengt_bytes);
    assert!(length.is_err());
}

#[test]
fn encode_remaining_length_test() {
    let length = 321;
    let length_bytes = encode_remaining_length(length).unwrap();
    assert_eq!(length_bytes.len(), 2);
    assert_eq!(length_bytes[0], 193);
    assert_eq!(length_bytes[1], 2);
}

#[test]
fn encode_remaining_length_max_test() {
    let length = 268435455;
    let length_bytes = encode_remaining_length(length).unwrap();
    assert_eq!(length_bytes.len(), 4);
    assert_eq!(length_bytes[0], 255);
    assert_eq!(length_bytes[1], 255);
    assert_eq!(length_bytes[2], 255);
    assert_eq!(length_bytes[3], 127);
}

#[test]
fn encode_remaining_length_error_test() {
    let length = 268435456;
    let length_bytes = encode_remaining_length(length);
    assert!(length_bytes.is_err());
}

#[test]
fn encode_remaining_length_boundary_test() {
    assert_eq!(encode_remaining_length(0).unwrap(), vec![0x00]);
    assert_eq!(encode_remaining_length(127).unwrap(), vec![0x7F]);
    assert_eq!(encode_remaining_length(128).unwrap(), vec![0x80, 0x01]);
    assert_eq!(encode_remaining_length(16383).unwrap(), vec![0xFF, 0x7F]);
    assert_eq!(encode_remaining_length(16384).unwrap(), vec![0x80, 0x80, 0x01]);
    assert_eq!(
        encode_remaining_length(268435455).unwrap(),
        vec![0xFF, 0xFF, 0xFF, 0x7F]
    );
}

#[test]
fn remaining_length_round_trip_test() {
    let samples: [u32; 10] = [0, 1, 64, 127, 128, 321, 16383, 16384, 2097152, 268435455];
    for n in samples {
        let encoded = encode_remaining_length(n).unwrap();
        let (value, consumed) = decode_remaining_length(&encoded).unwrap();
        assert_eq!(value, n);
        assert_eq!(consumed, encoded.len());
    }
}

#[test]
fn decode_remaining_length_truncated_test() {
    // a continuation byte with nothing after it
    let length = decode_remaining_length(&[0xC1]);
    assert!(length.is_err());
}

#[test]
fn decode_remaining_length_overlong_test() {
    // an extra zero continuation byte still decodes, reporting two bytes
    let (value, consumed) = decode_remaining_length(&[0x80, 0x00]).unwrap();
    assert_eq!(value, 0);
    assert_eq!(consumed, 2);
}

#[test]
fn packet_type_round_trip_test() {
    for code in 1u8..=14u8 {
        let packet_type = ControlPacketType::from_code(code);
        assert_ne!(packet_type, ControlPacketType::Unknown);
        assert_eq!(packet_type.code(), code);
    }
    assert_eq!(ControlPacketType::from_code(0), ControlPacketType::Unknown);
    assert_eq!(ControlPacketType::from_code(15), ControlPacketType::Unknown);
    assert_eq!(ControlPacketType::from_code(200), ControlPacketType::Unknown);
}

#[test]
fn fixed_header_encode_decode_test() {
    let header = FixedHeader {
        packet_type: ControlPacketType::Publish,
        packet_flags: 0x03,
        remaining_length: 321,
    };
    let mut bytes = header.encode();
    assert_eq!(bytes, vec![0x33, 193, 2]);
    // trailing packet bytes must not disturb the header
    bytes.push(0xAB);
    let (decoded, consumed) = FixedHeader::decode(&bytes).unwrap();
    assert_eq!(decoded, header);
    assert_eq!(consumed, 3);
}

#[test]
fn fixed_header_decode_empty_test() {
    let empty: [u8; 0] = [];
    assert!(FixedHeader::decode(&empty).is_err());
}
