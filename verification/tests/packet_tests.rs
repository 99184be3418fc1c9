use mqutekitty::conn_ack_packet::ConnAck;
use mqutekitty::connect_packet::QoS;
use mqutekitty::control_packets::{ControlPacketFlags, ControlPacketType};
use mqutekitty::disconnect_packet::DisconnectPacket;
use mqutekitty::ping_packets::{PingReqPacket, PingRespPacket};

#[test]
fn ping_packets_create_test() {
    let ping_req_packet = PingReqPacket::new();

    assert_eq!(
        ping_req_packet.fixed_header.packet_type,
        ControlPacketType::PingReq
    );
    assert_eq!(
        ping_req_packet.fixed_header.packet_flags,
        ControlPacketFlags::PING_REQ_FLAGS
    );
    assert_eq!(ping_req_packet.fixed_header.remaining_length, 0);

    let ping_resp_packet = PingRespPacket::new();

    assert_eq!(
        ping_resp_packet.fixed_header.packet_type,
        ControlPacketType::PingResp
    );
    assert_eq!(
        ping_resp_packet.fixed_header.packet_flags,
        ControlPacketFlags::PING_RESP_FLAGS
    );
    assert_eq!(ping_resp_packet.fixed_header.remaining_length, 0);
}

#[test]
fn ping_packets_encode_test() {
    let ping_req_packet_bytes = PingReqPacket::new().encode();

    println!("{:?}", ping_req_packet_bytes);
    assert_eq!(ping_req_packet_bytes.len(), 2);
    assert_eq!(ping_req_packet_bytes[0], 0b1100_0000);
    assert_eq!(ping_req_packet_bytes[1], 0x00);

    let ping_resp_packet_bytes = PingRespPacket::new().encode();

    println!("{:?}", ping_resp_packet_bytes);
    assert_eq!(ping_resp_packet_bytes.len(), 2);
    assert_eq!(ping_resp_packet_bytes[0], 0b1101_0000);
    assert_eq!(ping_resp_packet_bytes[1], 0x00);
}

#[test]
fn ping_resp_decode_test() {
    let ping_resp_packet = PingRespPacket::decode(&[0xD0, 0x00]).unwrap();
    assert_eq!(
        ping_resp_packet.fixed_header.packet_type,
        ControlPacketType::PingResp
    );
    assert_eq!(ping_resp_packet.fixed_header.remaining_length, 0);
}

#[test]
fn disconnect_packet_create_test() {
    let disconnect_packet = DisconnectPacket::new();

    assert_eq!(
        disconnect_packet.fixed_header.packet_type,
        ControlPacketType::Disconnect
    );
    assert_eq!(
        disconnect_packet.fixed_header.packet_flags,
        ControlPacketFlags::DISCONNECT_FLAGS
    );
    assert_eq!(disconnect_packet.fixed_header.remaining_length, 0);
}

#[test]
fn disconnect_packet_encode_test() {
    let disconnect_packet_bytes = DisconnectPacket::new().encode();

    println!("{:?}", disconnect_packet_bytes);
    assert_eq!(disconnect_packet_bytes.len(), 2);
    assert_eq!(disconnect_packet_bytes[0], 0b1110_0000);
    assert_eq!(disconnect_packet_bytes[1], 0x00);
}

#[test]
fn conn_ack_create_test() {
    let conn_ack = ConnAck::new();
    assert_eq!(conn_ack.fixed_header.packet_type, ControlPacketType::ConnAck);
    assert_eq!(
        conn_ack.fixed_header.packet_flags,
        ControlPacketFlags::CONNACK_FLAGS
    );
    assert_eq!(conn_ack.connect_ack_flags, 0);
    assert_eq!(conn_ack.connect_return_code, 0);
}

#[test]
fn conn_ack_decode_test() {
    // connection accepted, session present bit set
    let conn_ack = ConnAck::decode(&[0x20, 0x02, 0x01, 0x00]).unwrap();
    assert_eq!(conn_ack.fixed_header.packet_type, ControlPacketType::ConnAck);
    assert_eq!(conn_ack.fixed_header.packet_flags, 0);
    assert_eq!(conn_ack.fixed_header.remaining_length, 2);
    assert_eq!(conn_ack.connect_ack_flags, 0x01);
    assert_eq!(conn_ack.connect_return_code, 0x00);
}

#[test]
fn conn_ack_decode_refused_test() {
    // return code 5: not authorized
    let conn_ack = ConnAck::decode(&[0x20, 0x02, 0x00, 0x05]).unwrap();
    assert_eq!(conn_ack.connect_return_code, 0x05);
}

#[test]
fn conn_ack_decode_short_buffer_test() {
    assert!(ConnAck::decode(&[0x20, 0x02, 0x00]).is_err());
    let empty: [u8; 0] = [];
    assert!(ConnAck::decode(&empty).is_err());
}

#[test]
fn qos_in_topic_filter_test() {
    // the requested QoS rides along unchanged
    let filter = mqutekitty::subscribe_packet::TopicFilter {
        topic_name: String::from("a/b"),
        requested_qos: QoS::ExactlyOnce,
    };
    assert_eq!(filter.requested_qos.value(), 2);
}
