//! CONNECT: the first packet a client sends over a fresh connection.
//!
//! The variable header carries the protocol name and level, the connect
//! flags byte and the keep-alive interval; the payload carries the
//! length-prefixed fields whose presence the flags announce, in the
//! mandatory order client identifier, will topic, will message, user
//! name, password.

use vstd::prelude::*;
use vstd::utf8::encode_utf8;

use crate::control_packets::{
    ControlPacketFlags, ControlPacketType, FixedHeader, encode_rl_bytes, fixed_header_bytes,
    length_prefixed, push_length_prefixed_str, push_u16_be, str_byte_len, u16_be,
};

verus! {

/// The length-prefixed protocol name at the start of the variable
/// header.
#[derive(Clone, Copy)]
pub struct ProtocolName<'a> {
    pub length: u16,
    pub name: &'a str,
}

/// The protocol level byte: 3 for MQTT 3.1, 4 for MQTT 3.1.1, 5 for
/// MQTT 5.
#[derive(Clone, Copy, Debug, PartialEq, Eq, Structural)]
pub enum ProtocolLevel {
    V3_1,
    V3_1_1,
    V5,
}

/// The wire byte of a protocol level.
pub open spec fn level_code(level: ProtocolLevel) -> u8 {
    match level {
        ProtocolLevel::V3_1 => 3,
        ProtocolLevel::V3_1_1 => 4,
        ProtocolLevel::V5 => 5,
    }
}

impl ProtocolLevel {
    /// The wire byte of this protocol level.
    pub fn code(self) -> (r: u8)
        ensures
            r == level_code(self),
    {
        match self {
            ProtocolLevel::V3_1 => 3,
            ProtocolLevel::V3_1_1 => 4,
            ProtocolLevel::V5 => 5,
        }
    }
}

/// A Quality of Service level: how firmly a message delivery is
/// acknowledged.
#[derive(Clone, Copy, Debug, PartialEq, Eq, Structural)]
pub enum QoS {
    AtMostOnce,
    AtLeastOnce,
    ExactlyOnce,
}

/// The wire value of a QoS level.
pub open spec fn qos_value(q: QoS) -> u8 {
    match q {
        QoS::AtMostOnce => 0,
        QoS::AtLeastOnce => 1,
        QoS::ExactlyOnce => 2,
    }
}

/// The QoS level a wire value denotes; anything above 2 falls back to
/// at-most-once.
pub open spec fn qos_of_value(value: u8) -> QoS {
    if value == 1 {
        QoS::AtLeastOnce
    } else if value == 2 {
        QoS::ExactlyOnce
    } else {
        QoS::AtMostOnce
    }
}

impl QoS {
    /// The QoS level a wire value denotes, falling back to at-most-once
    /// on anything above 2.
    pub fn from_value(value: u8) -> (r: QoS)
        ensures
            r == qos_of_value(value),
    {
        match value {
            1 => QoS::AtLeastOnce,
            2 => QoS::ExactlyOnce,
            _ => QoS::AtMostOnce,
        }
    }

    /// The wire value of this QoS level.
    pub fn value(self) -> (r: u8)
        ensures
            r == qos_value(self),
            r <= 2,
    {
        match self {
            QoS::AtMostOnce => 0,
            QoS::AtLeastOnce => 1,
            QoS::ExactlyOnce => 2,
        }
    }
}

/// The connect flags byte: user name, password, will retain, will QoS,
/// will flag and clean session bits, with the reserved bit 0 kept zero.
#[derive(PartialEq, Eq, Structural, Debug, Copy, Clone)]
pub struct ConnectFlags {
    pub byte_rep: u8,
}

impl ConnectFlags {
    /// A builder that assembles the flags byte bit by bit.
    pub fn builder() -> (r: ConnectFlagsBuilder)
        ensures
            r.byte_rep == 0,
    {
        ConnectFlagsBuilder::new()
    }

    /// The flags value carried by a raw byte.
    pub fn from_byte(byte: u8) -> (r: ConnectFlags)
        ensures
            r.byte_rep == byte,
    {
        ConnectFlags { byte_rep: byte }
    }

    /// The raw byte this flags value puts on the wire.
    pub fn to_byte(self) -> (r: u8)
        ensures
            r == self.byte_rep,
    {
        self.byte_rep
    }
}

/// Assembles a connect flags byte one bit field at a time.
#[derive(PartialEq, Eq, Structural, Debug, Copy, Clone)]
pub struct ConnectFlagsBuilder {
    pub byte_rep: u8,
}

impl ConnectFlagsBuilder {
    const USER_NAME_MASK: u8 = 0b1000_0000;

    const PASSWORD_MASK: u8 = 0b0100_0000;

    const WILL_RETAIN_MASK: u8 = 0b0010_0000;

    const WILL_QOS_MASK: u8 = 0b0001_1000;

    const WILL_FLAG_MASK: u8 = 0b0000_0100;

    const CLEAN_SESSION_MASK: u8 = 0b0000_0010;

    /// A builder with every flag clear.
    pub fn new() -> (r: ConnectFlagsBuilder)
        ensures
            r.byte_rep == 0,
    {
        ConnectFlagsBuilder { byte_rep: 0 }
    }

    /// Sets the user name flag (bit 7).
    pub fn user_name(self) -> (r: ConnectFlagsBuilder)
        ensures
            r.byte_rep == self.byte_rep | 0b1000_0000u8,
    {
        ConnectFlagsBuilder { byte_rep: self.byte_rep | Self::USER_NAME_MASK }
    }

    /// Sets the password flag (bit 6).
    pub fn password(self) -> (r: ConnectFlagsBuilder)
        ensures
            r.byte_rep == self.byte_rep | 0b0100_0000u8,
    {
        ConnectFlagsBuilder { byte_rep: self.byte_rep | Self::PASSWORD_MASK }
    }

    /// Sets the will retain flag (bit 5).
    pub fn will_retain(self) -> (r: ConnectFlagsBuilder)
        ensures
            r.byte_rep == self.byte_rep | 0b0010_0000u8,
    {
        ConnectFlagsBuilder { byte_rep: self.byte_rep | Self::WILL_RETAIN_MASK }
    }

    /// Sets the two will QoS bits (bits 4 and 3).  A QoS above 2 does
    /// not exist, so that input is excluded.
    pub fn will_qos(self, qos: u8) -> (r: ConnectFlagsBuilder)
        requires
            qos < 3,
        ensures
            r.byte_rep == self.byte_rep | ((qos << 3u8) & 0b0001_1000u8),
    {
        ConnectFlagsBuilder { byte_rep: self.byte_rep | ((qos << 3u8) & Self::WILL_QOS_MASK) }
    }

    /// Sets the will flag (bit 2).
    pub fn will_flag(self) -> (r: ConnectFlagsBuilder)
        ensures
            r.byte_rep == self.byte_rep | 0b0000_0100u8,
    {
        ConnectFlagsBuilder { byte_rep: self.byte_rep | Self::WILL_FLAG_MASK }
    }

    /// Sets the clean session flag (bit 1).
    pub fn clean_session(self) -> (r: ConnectFlagsBuilder)
        ensures
            r.byte_rep == self.byte_rep | 0b0000_0010u8,
    {
        ConnectFlagsBuilder { byte_rep: self.byte_rep | Self::CLEAN_SESSION_MASK }
    }

    /// The assembled flags byte.
    pub fn build(self) -> (r: ConnectFlags)
        ensures
            r.byte_rep == self.byte_rep,
    {
        ConnectFlags { byte_rep: self.byte_rep }
    }
}

/// A CONNECT packet could not be built: the client identifier or the
/// protocol level was missing, the will QoS was above 2, or a field was
/// too long for its two-byte length prefix.
#[derive(Debug, Clone, Copy, PartialEq, Eq, Structural)]
pub struct ErrorBuildingConnectPacket;

/// Collects the fields of a CONNECT packet and validates them when the
/// packet is built.
pub struct Builder {
    pub user_name: Option<String>,
    pub password: Option<String>,
    pub protocol_name: String,
    pub protocol_level: Option<ProtocolLevel>,
    pub will_topic: Option<String>,
    pub will_message: Option<String>,
    pub will_qos: Option<u8>,
    pub keep_alive_interval: u16,
    pub client_id: Option<String>,
    pub clean_session: bool,
    pub will_retain: bool,
}

/// The will QoS a builder carries: the configured value, or
/// at-most-once when none was set.
pub open spec fn builder_will_qos(b: &Builder) -> u8 {
    match b.will_qos {
        Some(q) => q,
        None => 0,
    }
}

/// The connect flags byte a builder's fields produce.  The user name
/// bit follows the user name's presence; the password bit is set only
/// when a user name accompanies the password; the will flag is set only
/// when both will topic and will message are present.
pub open spec fn connect_flags_byte(b: &Builder) -> u8 {
    (if b.user_name is Some {
        0b1000_0000u8
    } else {
        0u8
    }) | (if b.password is Some && b.user_name is Some {
        0b0100_0000u8
    } else {
        0u8
    }) | (if b.will_retain {
        0b0010_0000u8
    } else {
        0u8
    }) | ((builder_will_qos(b) << 3u8) & 0b0001_1000u8) | (if b.will_message is Some
        && b.will_topic is Some {
        0b0000_0100u8
    } else {
        0u8
    }) | (if b.clean_session {
        0b0000_0010u8
    } else {
        0u8
    })
}

/// The Remaining Length a builder's fields produce: the variable header
/// (length-prefixed protocol name, level byte, flags byte, keep-alive),
/// then each payload field that the flags announce, counted with its
/// two-byte length prefix.  Fields the flags leave absent contribute
/// nothing.
pub open spec fn connect_builder_remaining_length(b: &Builder) -> int {
    2 + encode_utf8(b.protocol_name@).len() + 1 + 1 + 2 + (match b.client_id {
        Some(s) => 2 + encode_utf8(s@).len() as int,
        None => 0,
    }) + (if b.will_topic is Some && b.will_message is Some {
        4 + encode_utf8(b.will_topic.unwrap()@).len() + encode_utf8(b.will_message.unwrap()@).len()
    } else {
        0
    }) + (match b.user_name {
        Some(s) => 2 + encode_utf8(s@).len() as int,
        None => 0,
    }) + (if b.user_name is Some && b.password is Some {
        2 + encode_utf8(b.password.unwrap()@).len() as int
    } else {
        0
    })
}

/// A builder whose fields can become a CONNECT packet: the client
/// identifier and protocol level are present, the will QoS is a real
/// QoS, and every field the flags would announce fits its two-byte
/// length prefix.
pub open spec fn connect_builder_ok(b: &Builder) -> bool {
    &&& b.client_id is Some
    &&& b.protocol_level is Some
    &&& builder_will_qos(b) <= 2
    &&& encode_utf8(b.protocol_name@).len() <= 0xFFFF
    &&& encode_utf8(b.client_id.unwrap()@).len() <= 0xFFFF
    &&& (b.will_topic is Some && b.will_message is Some) ==> (encode_utf8(
        b.will_topic.unwrap()@,
    ).len() <= 0xFFFF && encode_utf8(b.will_message.unwrap()@).len() <= 0xFFFF)
    &&& b.user_name is Some ==> encode_utf8(b.user_name.unwrap()@).len() <= 0xFFFF
    &&& (b.user_name is Some && b.password is Some) ==> encode_utf8(b.password.unwrap()@).len()
        <= 0xFFFF
}

impl Builder {
    /// A builder with the defaults: protocol name "MQTT", protocol
    /// level 3.1.1, will QoS at-most-once, keep-alive 60 seconds, and
    /// no client identifier yet.
    pub fn new() -> (r: Builder)
        ensures
            r.user_name is None,
            r.password is None,
            r.protocol_name@ == "MQTT"@,
            r.protocol_level == Some(ProtocolLevel::V3_1_1),
            r.will_retain == false,
            r.will_topic is None,
            r.will_message is None,
            r.will_qos == Some(0u8),
            r.keep_alive_interval == 60,
            r.client_id is None,
            r.clean_session == false,
    {
        Builder {
            user_name: None,
            password: None,
            protocol_name: "MQTT".to_owned(),
            protocol_level: Some(ProtocolLevel::V3_1_1),
            will_retain: false,
            will_topic: None,
            will_message: None,
            will_qos: Some(0),
            keep_alive_interval: 60,
            client_id: None,
            clean_session: false,
        }
    }

    /// Sets the user name payload field.
    pub fn user_name(self, user_name: String) -> (r: Builder)
        ensures
            r == (Builder { user_name: Some(user_name), ..self }),
    {
        Builder { user_name: Some(user_name), ..self }
    }

    /// Sets the password payload field.
    pub fn password(self, password: String) -> (r: Builder)
        ensures
            r == (Builder { password: Some(password), ..self }),
    {
        Builder { password: Some(password), ..self }
    }

    /// Sets the protocol level.
    pub fn protocol_level(self, protocol: ProtocolLevel) -> (r: Builder)
        ensures
            r == (Builder { protocol_level: Some(protocol), ..self }),
    {
        Builder { protocol_level: Some(protocol), ..self }
    }

    /// Sets the keep-alive interval, in seconds.
    pub fn keep_alive_interval(self, keep_alive: u16) -> (r: Builder)
        ensures
            r == (Builder { keep_alive_interval: keep_alive, ..self }),
    {
        Builder { keep_alive_interval: keep_alive, ..self }
    }

    /// Sets the client identifier.
    pub fn client_id(self, client_id: &str) -> (r: Builder)
        ensures
            r.client_id is Some && r.client_id.unwrap()@ == client_id@,
            r == (Builder { client_id: r.client_id, ..self }),
    {
        Builder { client_id: Some(client_id.to_owned()), ..self }
    }

    /// Sets the clean session flag.
    pub fn clean_session(self) -> (r: Builder)
        ensures
            r == (Builder { clean_session: true, ..self }),
    {
        Builder { clean_session: true, ..self }
    }

    /// Sets the will retain flag.
    pub fn will_retain(self) -> (r: Builder)
        ensures
            r == (Builder { will_retain: true, ..self }),
    {
        Builder { will_retain: true, ..self }
    }

    /// Sets the will topic payload field.
    pub fn will_topic(self, will_topic: &str) -> (r: Builder)
        ensures
            r.will_topic is Some && r.will_topic.unwrap()@ == will_topic@,
            r == (Builder { will_topic: r.will_topic, ..self }),
    {
        Builder { will_topic: Some(will_topic.to_owned()), ..self }
    }

    /// Sets the will message payload field.
    pub fn will_message(self, will_message: &str) -> (r: Builder)
        ensures
            r.will_message is Some && r.will_message.unwrap()@ == will_message@,
            r == (Builder { will_message: r.will_message, ..self }),
    {
        Builder { will_message: Some(will_message.to_owned()), ..self }
    }

    /// Sets the will QoS.  The value is validated when the packet is
    /// built: anything above 2 is rejected there.
    pub fn will_qos(self, qos: u8) -> (r: Builder)
        ensures
            r == (Builder { will_qos: Some(qos), ..self }),
    {
        Builder { will_qos: Some(qos), ..self }
    }

    /// Computes the connect flags byte from the configured fields.
    pub fn calc_flags(&self) -> (r: u8)
        ensures
            r == connect_flags_byte(self),
    {
        let user_name_bit: u8 = if self.user_name.is_some() {
            ConnectFlagsBuilder::USER_NAME_MASK
        } else {
            0
        };
        let password_bit: u8 = if self.password.is_some() && self.user_name.is_some() {
            ConnectFlagsBuilder::PASSWORD_MASK
        } else {
            0
        };
        let will_retain_bit: u8 = if self.will_retain {
            ConnectFlagsBuilder::WILL_RETAIN_MASK
        } else {
            0
        };
        let will_qos: u8 = match self.will_qos {
            Some(qos) => qos,
            None => 0,
        };
        let will_qos_bits: u8 = (will_qos << 3u8) & ConnectFlagsBuilder::WILL_QOS_MASK;
        let will_flag_bit: u8 = if self.will_message.is_some() && self.will_topic.is_some() {
            ConnectFlagsBuilder::WILL_FLAG_MASK
        } else {
            0
        };
        let clean_session_bit: u8 = if self.clean_session {
            ConnectFlagsBuilder::CLEAN_SESSION_MASK
        } else {
            0
        };
        user_name_bit | password_bit | will_retain_bit | will_qos_bits | will_flag_bit
            | clean_session_bit
    }

    /// Computes the Remaining Length of the packet the configured
    /// fields produce: variable header first, then each payload field
    /// the flags announce, in wire order.
    pub fn calc_remaining_length(&self) -> (r: usize)
        requires
            connect_builder_lengths_ok(self),
        ensures
            r == connect_builder_remaining_length(self),
    {
        let mut remaining_length: usize = 0;
        // variable header: length-prefixed protocol name
        remaining_length = remaining_length + 2 + str_byte_len(&self.protocol_name);
        // variable header: protocol level byte and connect flags byte
        remaining_length = remaining_length + 1 + 1;
        // variable header: keep alive, two bytes
        remaining_length = remaining_length + 2;
        // payload: client id, first entry
        match &self.client_id {
            Some(client_id) => {
                remaining_length = remaining_length + 2 + str_byte_len(client_id);
            },
            None => {},
        }
        // payload: will topic and will message, second and third entry,
        // present only together
        match (&self.will_topic, &self.will_message) {
            (Some(will_topic), Some(will_message)) => {
                remaining_length = remaining_length + 2 + str_byte_len(will_topic);
                remaining_length = remaining_length + 2 + str_byte_len(will_message);
            },
            _ => {},
        }
        // payload: user name, fourth entry
        match &self.user_name {
            Some(user_name) => {
                remaining_length = remaining_length + 2 + str_byte_len(user_name);
            },
            None => {},
        }
        // payload: password, fifth entry, only alongside a user name
        match (&self.user_name, &self.password) {
            (Some(_), Some(password)) => {
                remaining_length = remaining_length + 2 + str_byte_len(password);
            },
            _ => {},
        }
        remaining_length
    }

    /// Builds the CONNECT packet, validating the configured fields:
    /// the client identifier and protocol level must be present, the
    /// will QoS must be 0, 1 or 2, and every announced field must fit
    /// its two-byte length prefix.
    pub fn build(self) -> (r: Result<ConnectPacket, ErrorBuildingConnectPacket>)
        ensures
            match r {
                Ok(p) => {
                    &&& connect_builder_ok(&self)
                    &&& p.wf()
                    &&& p.fixed_header.packet_type == ControlPacketType::Connect
                    &&& p.fixed_header.packet_flags == ControlPacketFlags::CONNECT_FLAGS
                    &&& p.fixed_header.remaining_length == connect_builder_remaining_length(&self)
                    &&& p.protocol_name@ == self.protocol_name@
                    &&& p.protocol_level == self.protocol_level.unwrap()
                    &&& p.connect_flags.byte_rep == connect_flags_byte(&self)
                    &&& p.keep_alive == self.keep_alive_interval
                    &&& p.client_id@ == self.client_id.unwrap()@
                    &&& p.will_topic == self.will_topic
                    &&& p.will_message == self.will_message
                    &&& p.user_name == self.user_name
                    &&& p.password == self.password
                },
                Err(_) => !connect_builder_ok(&self),
            },
    {
        if str_byte_len(&self.protocol_name) > 0xFFFF {
            return Err(ErrorBuildingConnectPacket);
        }
        match self.will_qos {
            Some(qos) => if qos > 2 {
                return Err(ErrorBuildingConnectPacket);
            },
            None => {},
        }
        match &self.client_id {
            Some(client_id) => if str_byte_len(client_id) > 0xFFFF {
                return Err(ErrorBuildingConnectPacket);
            },
            None => {
                return Err(ErrorBuildingConnectPacket);
            },
        }
        if self.protocol_level.is_none() {
            return Err(ErrorBuildingConnectPacket);
        }
        match (&self.will_topic, &self.will_message) {
            (Some(will_topic), Some(will_message)) => if str_byte_len(will_topic) > 0xFFFF
                || str_byte_len(will_message) > 0xFFFF {
                return Err(ErrorBuildingConnectPacket);
            },
            _ => {},
        }
        match &self.user_name {
            Some(user_name) => if str_byte_len(user_name) > 0xFFFF {
                return Err(ErrorBuildingConnectPacket);
            },
            None => {},
        }
        match (&self.user_name, &self.password) {
            (Some(_), Some(password)) => if str_byte_len(password) > 0xFFFF {
                return Err(ErrorBuildingConnectPacket);
            },
            _ => {},
        }
        let flags = self.calc_flags();
        let remaining_length = self.calc_remaining_length();
        let client_id = match self.client_id {
            Some(client_id) => client_id,
            None => {
                return Err(ErrorBuildingConnectPacket);
            },
        };
        let protocol_level = match self.protocol_level {
            Some(level) => level,
            None => {
                return Err(ErrorBuildingConnectPacket);
            },
        };
        Ok(
            ConnectPacket {
                fixed_header: FixedHeader {
                    packet_type: ControlPacketType::Connect,
                    packet_flags: ControlPacketFlags::CONNECT_FLAGS,
                    remaining_length: remaining_length as u32,
                },
                protocol_name: self.protocol_name,
                protocol_level,
                connect_flags: ConnectFlags { byte_rep: flags },
                keep_alive: self.keep_alive_interval,
                client_id,
                will_topic: self.will_topic,
                will_message: self.will_message,
                user_name: self.user_name,
                password: self.password,
            },
        )
    }
}

/// Every field a builder would announce in the flags byte fits its
/// two-byte length prefix.
pub open spec fn connect_builder_lengths_ok(b: &Builder) -> bool {
    &&& encode_utf8(b.protocol_name@).len() <= 0xFFFF
    &&& b.client_id is Some ==> encode_utf8(b.client_id.unwrap()@).len() <= 0xFFFF
    &&& (b.will_topic is Some && b.will_message is Some) ==> (encode_utf8(
        b.will_topic.unwrap()@,
    ).len() <= 0xFFFF && encode_utf8(b.will_message.unwrap()@).len() <= 0xFFFF)
    &&& b.user_name is Some ==> encode_utf8(b.user_name.unwrap()@).len() <= 0xFFFF
    &&& (b.user_name is Some && b.password is Some) ==> encode_utf8(b.password.unwrap()@).len()
        <= 0xFFFF
}

/// A CONNECT packet ready to be encoded.
pub struct ConnectPacket {
    pub fixed_header: FixedHeader,
    pub protocol_name: String,
    pub protocol_level: ProtocolLevel,
    pub connect_flags: ConnectFlags,
    pub keep_alive: u16,
    pub client_id: String,
    pub will_topic: Option<String>,
    pub will_message: Option<String>,
    pub user_name: Option<String>,
    pub password: Option<String>,
}

/// The Remaining Length a CONNECT packet's fields occupy on the wire.
pub open spec fn connect_packet_remaining_length(p: &ConnectPacket) -> int {
    6 + encode_utf8(p.protocol_name@).len() + 2 + encode_utf8(p.client_id@).len() + (if p.will_topic
        is Some && p.will_message is Some {
        4 + encode_utf8(p.will_topic.unwrap()@).len() + encode_utf8(p.will_message.unwrap()@).len()
    } else {
        0
    }) + (match p.user_name {
        Some(s) => 2 + encode_utf8(s@).len() as int,
        None => 0,
    }) + (if p.user_name is Some && p.password is Some {
        2 + encode_utf8(p.password.unwrap()@).len() as int
    } else {
        0
    })
}

/// The variable header of a CONNECT packet: length-prefixed protocol
/// name, protocol level byte, connect flags byte, big-endian keep-alive.
pub open spec fn connect_variable_header_bytes(p: &ConnectPacket) -> Seq<u8> {
    length_prefixed(encode_utf8(p.protocol_name@)) + seq![
        level_code(p.protocol_level),
        p.connect_flags.byte_rep,
    ] + u16_be(p.keep_alive as int)
}

/// The will topic and will message payload fields, present only when
/// both halves are set.
pub open spec fn connect_will_bytes(p: &ConnectPacket) -> Seq<u8> {
    if p.will_topic is Some && p.will_message is Some {
        length_prefixed(encode_utf8(p.will_topic.unwrap()@)) + length_prefixed(
            encode_utf8(p.will_message.unwrap()@),
        )
    } else {
        Seq::<u8>::empty()
    }
}

/// The user name payload field, when present.
pub open spec fn connect_user_name_bytes(p: &ConnectPacket) -> Seq<u8> {
    match p.user_name {
        Some(u) => length_prefixed(encode_utf8(u@)),
        None => Seq::<u8>::empty(),
    }
}

/// The password payload field, present only alongside a user name.
pub open spec fn connect_password_bytes(p: &ConnectPacket) -> Seq<u8> {
    if p.user_name is Some && p.password is Some {
        length_prefixed(encode_utf8(p.password.unwrap()@))
    } else {
        Seq::<u8>::empty()
    }
}

/// The payload of a CONNECT packet: the length-prefixed fields that are
/// present, in the order client identifier, will topic, will message,
/// user name, password.  The will pair appears only when both halves are
/// present; the password only alongside a user name.
pub open spec fn connect_payload_bytes(p: &ConnectPacket) -> Seq<u8> {
    length_prefixed(encode_utf8(p.client_id@)) + connect_will_bytes(p) + connect_user_name_bytes(p)
        + connect_password_bytes(p)
}

/// The full wire form of a CONNECT packet.
pub open spec fn connect_packet_bytes(p: &ConnectPacket) -> Seq<u8> {
    fixed_header_bytes(p.fixed_header) + connect_variable_header_bytes(p) + connect_payload_bytes(p)
}

/// The bytes after the fixed header are exactly as many as the
/// Remaining Length spec counts.
pub proof fn lemma_connect_lengths(p: &ConnectPacket)
    ensures
        connect_variable_header_bytes(p).len() + connect_payload_bytes(p).len()
            == connect_packet_remaining_length(p),
{
}

impl ConnectPacket {
    /// A packet whose fixed header agrees with its fields: type
    /// CONNECT, flags in their nibble, every announced field within its
    /// length prefix, and a Remaining Length that counts exactly the
    /// bytes that follow the fixed header.
    pub open spec fn wf(self) -> bool {
        &&& self.fixed_header.packet_type == ControlPacketType::Connect
        &&& self.fixed_header.packet_flags < 16
        &&& encode_utf8(self.protocol_name@).len() <= 0xFFFF
        &&& encode_utf8(self.client_id@).len() <= 0xFFFF
        &&& (self.will_topic is Some && self.will_message is Some) ==> (encode_utf8(
            self.will_topic.unwrap()@,
        ).len() <= 0xFFFF && encode_utf8(self.will_message.unwrap()@).len() <= 0xFFFF)
        &&& self.user_name is Some ==> encode_utf8(self.user_name.unwrap()@).len() <= 0xFFFF
        &&& (self.user_name is Some && self.password is Some) ==> encode_utf8(
            self.password.unwrap()@,
        ).len() <= 0xFFFF
        &&& self.fixed_header.remaining_length == connect_packet_remaining_length(&self)
    }

    /// Encodes the packet: fixed header, variable header, then the
    /// payload fields in wire order.  The result holds exactly
    /// `1 + width(remaining_length) + remaining_length` bytes.
    pub fn encode(&self) -> (r: Vec<u8>)
        requires
            self.wf(),
        ensures
            r@ == connect_packet_bytes(self),
            r@.len() == 1 + encode_rl_bytes(self.fixed_header.remaining_length as int).len()
                + self.fixed_header.remaining_length,
    {
        proof {
            lemma_connect_lengths(self);
            assert(self.fixed_header.wf());
        }
        let mut vec: Vec<u8> = self.fixed_header.encode();
        // variable header
        push_length_prefixed_str(&mut vec, &self.protocol_name);
        vec.push(self.protocol_level.code());
        vec.push(self.connect_flags.byte_rep);
        push_u16_be(&mut vec, self.keep_alive);
        proof {
            assert(vec@ =~= fixed_header_bytes(self.fixed_header) + connect_variable_header_bytes(
                self,
            ));
        }
        // payload: client id, then the optional fields the flags announce
        push_length_prefixed_str(&mut vec, &self.client_id);
        let ghost with_client_id = vec@;
        match (&self.will_topic, &self.will_message) {
            (Some(will_topic), Some(will_message)) => {
                push_length_prefixed_str(&mut vec, will_topic);
                push_length_prefixed_str(&mut vec, will_message);
                proof {
                    assert(vec@ =~= with_client_id + connect_will_bytes(self));
                }
            },
            _ => {
                proof {
                    assert(vec@ =~= with_client_id + connect_will_bytes(self));
                }
            },
        }
        let ghost with_will = vec@;
        match &self.user_name {
            Some(user_name) => {
                push_length_prefixed_str(&mut vec, user_name);
            },
            None => {},
        }
        proof {
            assert(vec@ =~= with_will + connect_user_name_bytes(self));
        }
        let ghost with_user_name = vec@;
        match (&self.user_name, &self.password) {
            (Some(_), Some(password)) => {
                push_length_prefixed_str(&mut vec, password);
            },
            _ => {},
        }
        proof {
            assert(vec@ =~= with_user_name + connect_password_bytes(self));
            assert(vec@ =~= connect_packet_bytes(self));
        }
        vec
    }
}

} // verus!
