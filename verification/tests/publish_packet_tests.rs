use mqutekitty::control_packets::ControlPacketType;
use mqutekitty::publish_packet::{Builder, PublishPacket, PublishPacketFlags};

#[test]
fn test() {
    let publish_packet_bytes: Vec<u8> = vec![
        0b0011_0000,
        9,
        0,
        3,
        0x61,
        0x2F,
        0x62,
        0x74,
        0x65,
        0x73,
        0x74,
    ];

    let publish_packet = PublishPacket::decode(publish_packet_bytes.as_slice()).unwrap();

    assert_eq!(
        publish_packet.fixed_header.packet_type,
        ControlPacketType::Publish
    );
}

#[test]
fn publish_decode_qos_0_test() {
    // topic "a/b", payload "test", QoS 0: no packet identifier
    let bytes: Vec<u8> = vec![0x30, 9, 0, 3, b'a', b'/', b'b', b't', b'e', b's', b't'];
    let publish_packet = PublishPacket::decode(&bytes).unwrap();

    assert_eq!(publish_packet.topic_name, "a/b");
    assert_eq!(publish_packet.packet_id, None);
    assert_eq!(publish_packet.payload, b"test".to_vec());
    assert_eq!(publish_packet.fixed_header.remaining_length, 9);
}

#[test]
fn publish_decode_qos_1_test() {
    // QoS 1 flags: the two bytes after the topic are the packet identifier
    let bytes: Vec<u8> = vec![
        0x32, 11, 0, 3, b'a', b'/', b'b', 0x00, 0x0A, b't', b'e', b's', b't',
    ];
    let publish_packet = PublishPacket::decode(&bytes).unwrap();

    assert_eq!(publish_packet.fixed_header.packet_flags, 0x02);
    assert_eq!(publish_packet.topic_name, "a/b");
    assert_eq!(publish_packet.packet_id, Some(10));
    assert_eq!(publish_packet.payload, b"test".to_vec());
}

#[test]
fn publish_decode_non_ascii_topic_test() {
    // a two-byte UTF-8 scalar in the topic decodes to its character
    let bytes: Vec<u8> = vec![0x30, 6, 0, 2, 0xC3, 0xA9, b'x', b'y'];
    let publish_packet = PublishPacket::decode(&bytes).unwrap();
    assert_eq!(publish_packet.topic_name, "\u{e9}");
    assert_eq!(publish_packet.payload, b"xy".to_vec());
}

#[test]
fn publish_decode_invalid_topic_test() {
    // 0xFF can open no UTF-8 scalar, so the topic is refused
    let bytes: Vec<u8> = vec![0x30, 6, 0, 2, 0xFF, 0xFE, b'x', b'y'];
    assert!(PublishPacket::decode(&bytes).is_err());
}

#[test]
fn publish_decode_truncated_test() {
    // the header promises nine bytes, the buffer holds fewer
    let bytes: Vec<u8> = vec![0x30, 9, 0, 3, b'a', b'/', b'b', b't'];
    assert!(PublishPacket::decode(&bytes).is_err());
}

#[test]
fn publish_decode_topic_overruns_test() {
    // the topic length runs past the remaining length
    let bytes: Vec<u8> = vec![0x30, 4, 0, 9, b'a', b'b'];
    assert!(PublishPacket::decode(&bytes).is_err());
}

#[test]
fn publish_new_test() {
    let publish_packet = PublishPacket::new(
        PublishPacketFlags::from_byte(0),
        "myqutekitty/test",
        b"first message",
    );
    assert_eq!(
        publish_packet.fixed_header.packet_type,
        ControlPacketType::Publish
    );
    // 2 + 16 topic bytes + 13 payload bytes
    assert_eq!(publish_packet.fixed_header.remaining_length, 31);
    assert_eq!(publish_packet.packet_id, None);
}

#[test]
fn publish_build_encode_decode_test() {
    let publish_packet = Builder::new()
        .packet_flags(PublishPacketFlags::from_byte(0x02))
        .packet_id(7)
        .topic_name("a/b")
        .payload(b"hi")
        .build()
        .unwrap();

    // 2 + 3 topic bytes + 2 packet id bytes + 2 payload bytes
    assert_eq!(publish_packet.fixed_header.remaining_length, 9);

    let bytes = publish_packet.encode();
    assert_eq!(
        bytes,
        vec![0x32, 9, 0, 3, b'a', b'/', b'b', 0x00, 0x07, b'h', b'i']
    );

    let decoded = PublishPacket::decode(&bytes).unwrap();
    assert_eq!(decoded.topic_name, "a/b");
    assert_eq!(decoded.packet_id, Some(7));
    assert_eq!(decoded.payload, b"hi".to_vec());
}

#[test]
fn publish_build_missing_topic_test() {
    let result = Builder::new().payload(b"hi").build();
    assert!(result.is_err());
}

#[test]
fn publish_build_missing_payload_test() {
    let result = Builder::new().topic_name("a/b").build();
    assert!(result.is_err());
}

#[test]
fn publish_build_flags_out_of_nibble_test() {
    let result = Builder::new()
        .packet_flags(PublishPacketFlags::from_byte(0x30))
        .topic_name("a/b")
        .payload(b"hi")
        .build();
    assert!(result.is_err());
}
