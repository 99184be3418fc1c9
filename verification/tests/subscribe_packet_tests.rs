use mqutekitty::connect_packet::QoS;
use mqutekitty::subscribe_packet::{Builder, TopicFilter};

#[test]
fn subscribe_packet_encode_test() {
    let topic_name = String::from("a/b");
    let topic_filter = TopicFilter {
        topic_name,
        requested_qos: QoS::AtMostOnce,
    };
    let builder = Builder::new();
    let subscribe_packet = builder.topic_filter(topic_filter).build();
    let subscribe_packet_bytes = subscribe_packet.unwrap().encode();

    println!("{:?}", subscribe_packet_bytes);

    assert_eq!(subscribe_packet_bytes[0], 0b1000_0010); // control packet type + reserved
    assert_eq!(subscribe_packet_bytes[1], 8); // remaining length
    assert_eq!(subscribe_packet_bytes[2], 0); // packet id MSB
    assert_eq!(subscribe_packet_bytes[3], 1); // packet id LSB: the default, non-zero per spec
    assert_eq!(subscribe_packet_bytes[4], 0); // topic filter length MSB
    assert_eq!(subscribe_packet_bytes[5], 3); // topic filter length LSB
    assert_eq!(subscribe_packet_bytes[6], 0x61); // 'a'
    assert_eq!(subscribe_packet_bytes[7], 0x2f); // '/'
    assert_eq!(subscribe_packet_bytes[8], 0x62); // 'b'
    assert_eq!(subscribe_packet_bytes[9], 0); // topic filter requested QoS
}

#[test]
fn subscribe_two_filters_test() {
    let subscribe_packet = Builder::new()
        .packet_id(5)
        .topic_filter(TopicFilter {
            topic_name: String::from("x"),
            requested_qos: QoS::AtLeastOnce,
        })
        .topic_filter(TopicFilter {
            topic_name: String::from("y/z"),
            requested_qos: QoS::ExactlyOnce,
        })
        .build()
        .unwrap();

    // 2 packet id bytes + (2+1+1) + (2+3+1)
    assert_eq!(subscribe_packet.fixed_header.remaining_length, 12);
    assert_eq!(subscribe_packet.packet_id, 5);

    let bytes = subscribe_packet.encode();
    assert_eq!(
        bytes,
        vec![0x82, 12, 0, 5, 0, 1, b'x', 1, 0, 3, b'y', b'/', b'z', 2]
    );
}

#[test]
fn subscribe_build_oversized_topic_test() {
    // a topic that cannot fit its two-byte length prefix is refused
    let huge = "a".repeat(70000);
    let result = Builder::new()
        .topic_filter(TopicFilter {
            topic_name: huge,
            requested_qos: QoS::AtMostOnce,
        })
        .build();
    assert!(result.is_err());
}

#[test]
fn subscribe_calc_remaining_length_test() {
    let builder = Builder::new().topic_filter(TopicFilter {
        topic_name: String::from("a/b"),
        requested_qos: QoS::AtMostOnce,
    });
    assert_eq!(builder.calc_remaining_length(), 8);
}
