use mqutekitty::connect_packet::{Builder, ConnectFlags, ConnectFlagsBuilder, ProtocolLevel, QoS};
use mqutekitty::control_packets::ControlPacketType;

#[test]
fn user_name_build_test() {
    let flags = ConnectFlagsBuilder::new().user_name().build();
    assert_eq!(flags, ConnectFlags::from_byte(0b1000_0000))
}

#[test]
fn password_build_test() {
    let flags = ConnectFlagsBuilder::new().password().build();
    assert_eq!(flags, ConnectFlags::from_byte(0b0100_0000))
}

#[test]
fn will_retain_build_test() {
    let flags = ConnectFlagsBuilder::new().will_retain().build();
    assert_eq!(flags, ConnectFlags::from_byte(0b0010_0000))
}

#[test]
fn will_qos_2_build_test() {
    let flags = ConnectFlagsBuilder::new().will_qos(2).build();
    assert_eq!(flags, ConnectFlags::from_byte(0b0001_0000))
}

#[test]
fn will_qos_1_build_test() {
    let flags = ConnectFlagsBuilder::new().will_qos(1).build();
    assert_eq!(flags, ConnectFlags::from_byte(0b0000_1000))
}

#[test]
fn will_qos_0_build_test() {
    let flags = ConnectFlagsBuilder::new().will_qos(0).build();
    assert_eq!(flags, ConnectFlags::from_byte(0b0000_0000))
}

#[test]
fn will_flag_build_test() {
    let flags = ConnectFlagsBuilder::new().will_flag().build();
    assert_eq!(flags, ConnectFlags::from_byte(0b0000_0100))
}

#[test]
fn clean_session_build_test() {
    let flags = ConnectFlagsBuilder::new().clean_session().build();
    assert_eq!(flags, ConnectFlags::from_byte(0b0000_0010))
}

#[test]
fn build_test() {
    let flags = ConnectFlagsBuilder::new()
        .user_name()
        .password()
        .will_retain()
        .will_qos(2)
        .will_flag()
        .clean_session()
        .build();

    assert_eq!(flags, ConnectFlags::from_byte(0b1111_0110));
}

#[test]
fn connect_packet_create_test() {
    let connect_packet = Builder::new()
        .client_id("mqutekitty_client")
        .clean_session()
        .build()
        .unwrap();

    assert_eq!(
        connect_packet.fixed_header.packet_type,
        ControlPacketType::Connect
    );
    assert_eq!(connect_packet.fixed_header.remaining_length, 29);
    assert_eq!(connect_packet.protocol_name.len(), 4);
    assert_eq!(connect_packet.protocol_name, String::from("MQTT"));
    assert_eq!(connect_packet.connect_flags, ConnectFlags::from_byte(2));
    assert_eq!(connect_packet.keep_alive, 60);
    assert_eq!(connect_packet.client_id, "mqutekitty_client");
}

#[test]
fn connect_packet_encode_test() {
    let connect_packet = Builder::new()
        .clean_session()
        .client_id("mqutekitty_client")
        .build()
        .unwrap();
    let connect_packet_bytes: Vec<u8> = connect_packet.encode();

    println!("{:?}", connect_packet_bytes);
    assert_eq!(connect_packet_bytes.len(), 31);
    assert_eq!(connect_packet_bytes[0], 0x10);
    assert_eq!(connect_packet_bytes[1], 0x1d);
    assert_eq!(connect_packet_bytes[2], 0x00); // protocol name length MSB
    assert_eq!(connect_packet_bytes[3], 0x04); // protocol name length LSB
    assert_eq!(connect_packet_bytes[4], 0x4d); // 'M'
    assert_eq!(connect_packet_bytes[5], 0x51); // 'Q'
    assert_eq!(connect_packet_bytes[6], 0x54); // 'T'
    assert_eq!(connect_packet_bytes[7], 0x54); // 'T'
    assert_eq!(connect_packet_bytes[8], 0x04); // protocol level
    assert_eq!(connect_packet_bytes[9], 0x02); // connect flags
    assert_eq!(connect_packet_bytes[10], 0); // keep alive MSB
    assert_eq!(connect_packet_bytes[11], 60); // keep alive LSB
    assert_eq!(connect_packet_bytes[12], 0); // client_id length MSB
    assert_eq!(connect_packet_bytes[13], 17); // client_id length LSB
    assert_eq!(connect_packet_bytes[14], 109); // 'm'
    assert_eq!(connect_packet_bytes[15], 113); // 'q'
    assert_eq!(connect_packet_bytes[16], 117); // 'u'
    assert_eq!(connect_packet_bytes[17], 116); // 't'
    assert_eq!(connect_packet_bytes[18], 101); // 'e'
    assert_eq!(connect_packet_bytes[19], 107); // 'k'
    assert_eq!(connect_packet_bytes[20], 105); // 'i'
    assert_eq!(connect_packet_bytes[21], 116); // 't'
    assert_eq!(connect_packet_bytes[22], 116); // 't'
    assert_eq!(connect_packet_bytes[23], 121); // 'y'
    assert_eq!(connect_packet_bytes[24], 95); // '_'
    assert_eq!(connect_packet_bytes[25], 99); // 'c'
    assert_eq!(connect_packet_bytes[26], 108); // 'l'
    assert_eq!(connect_packet_bytes[27], 105); // 'i'
    assert_eq!(connect_packet_bytes[28], 101); // 'e'
    assert_eq!(connect_packet_bytes[29], 110); // 'n'
    assert_eq!(connect_packet_bytes[30], 116); // 't'
}

#[test]
fn connect_build_missing_client_id_test() {
    let result = Builder::new().clean_session().build();
    assert!(result.is_err());
}

#[test]
fn connect_build_invalid_will_qos_test() {
    let result = Builder::new().client_id("kitty").will_qos(3).build();
    assert!(result.is_err());
}

#[test]
fn connect_build_full_flags_test() {
    let connect_packet = Builder::new()
        .client_id("kitty")
        .user_name(String::from("user"))
        .password(String::from("secret"))
        .will_topic("will/topic")
        .will_message("gone")
        .will_qos(1)
        .will_retain()
        .clean_session()
        .keep_alive_interval(30)
        .protocol_level(ProtocolLevel::V3_1_1)
        .build()
        .unwrap();

    // user name, password, will retain, will QoS 1, will flag, clean session
    assert_eq!(connect_packet.connect_flags, ConnectFlags::from_byte(0b1110_1110));
    assert_eq!(connect_packet.keep_alive, 30);
    // 10 header bytes + (2+5) + (2+10) + (2+4) + (2+4) + (2+6)
    assert_eq!(connect_packet.fixed_header.remaining_length, 49);

    let bytes = connect_packet.encode();
    assert_eq!(bytes.len(), 2 + 49);
    assert_eq!(bytes[0], 0x10);
    assert_eq!(bytes[1], 49);
}

#[test]
fn connect_build_password_without_user_name_test() {
    // a password without a user name is dropped: no flag bit, no payload bytes
    let connect_packet = Builder::new()
        .client_id("kitty")
        .password(String::from("secret"))
        .build()
        .unwrap();

    assert_eq!(connect_packet.connect_flags, ConnectFlags::from_byte(0));
    // 10 header bytes + (2+5): the password contributes nothing
    assert_eq!(connect_packet.fixed_header.remaining_length, 17);
    let bytes = connect_packet.encode();
    assert_eq!(bytes.len(), 2 + 17);
}

#[test]
fn connect_build_will_topic_without_message_test() {
    // a will topic without a will message is dropped likewise
    let connect_packet = Builder::new()
        .client_id("kitty")
        .will_topic("will/topic")
        .build()
        .unwrap();

    assert_eq!(connect_packet.connect_flags, ConnectFlags::from_byte(0));
    assert_eq!(connect_packet.fixed_header.remaining_length, 17);
}

#[test]
fn qos_conversion_test() {
    assert_eq!(QoS::from_value(0), QoS::AtMostOnce);
    assert_eq!(QoS::from_value(1), QoS::AtLeastOnce);
    assert_eq!(QoS::from_value(2), QoS::ExactlyOnce);
    // anything above 2 falls back to at-most-once
    assert_eq!(QoS::from_value(7), QoS::AtMostOnce);
    assert_eq!(QoS::AtMostOnce.value(), 0);
    assert_eq!(QoS::AtLeastOnce.value(), 1);
    assert_eq!(QoS::ExactlyOnce.value(), 2);
}

#[test]
fn protocol_level_code_test() {
    assert_eq!(ProtocolLevel::V3_1.code(), 3);
    assert_eq!(ProtocolLevel::V3_1_1.code(), 4);
    assert_eq!(ProtocolLevel::V5.code(), 5);
}
