//! PUBLISH: carries an application message.
//!
//! The variable header holds the length-prefixed topic name and, when
//! the QoS bits in the packet flags are above zero, a two-byte packet
//! identifier; the payload is the raw bytes that remain, located by
//! offset arithmetic against the Remaining Length.

use vstd::prelude::*;
use vstd::utf8::{decode_utf8, encode_utf8, valid_utf8};

use crate::control_packets::{
    ControlPacketType, DecodeError, FixedHeader, REMAINING_LENGTH_MAX, as_u16_be, decode_rl_spec,
    encode_rl_bytes, fixed_header_bytes, length_prefixed, push_length_prefixed_str, push_u16_be,
    str_byte_len, type_of_code, u16_be, u16_be_val,
};

verus! {

/// The PUBLISH flags nibble: DUP in bit 3, QoS in bits 2 and 1, RETAIN
/// in bit 0.
#[derive(Clone, Copy, Debug, PartialEq, Eq, Structural)]
pub struct PublishPacketFlags {
    pub byte_rep: u8,
}

impl PublishPacketFlags {
    /// The flags value carried by a raw nibble.
    pub fn from_byte(byte: u8) -> (r: PublishPacketFlags)
        ensures
            r.byte_rep == byte,
    {
        PublishPacketFlags { byte_rep: byte }
    }

    /// The raw byte these flags put in the low nibble of the first
    /// header byte.
    pub fn to_byte(self) -> (r: u8)
        ensures
            r == self.byte_rep,
    {
        self.byte_rep
    }
}

impl Default for PublishPacketFlags {
    /// Flags with every bit clear: no DUP, QoS 0, no RETAIN.
    fn default() -> (r: PublishPacketFlags)
        ensures
            r.byte_rep == 0,
    {
        PublishPacketFlags { byte_rep: 0 }
    }
}

/// The QoS level carried by a PUBLISH flags nibble: bits 2 and 1.
pub open spec fn publish_qos(flags: u8) -> u8 {
    (flags / 2) % 4
}

/// A PUBLISH packet could not be built: the topic name or payload was
/// missing, the flags spilled out of their nibble, or a field did not
/// fit the wire format's bounds.
#[derive(Debug, Clone, Copy, PartialEq, Eq, Structural)]
pub struct ErrorBuildingPublishPacket;

/// Collects the fields of a PUBLISH packet and validates them when the
/// packet is built.
pub struct Builder {
    pub packet_flags: PublishPacketFlags,
    pub packet_id: Option<u16>,
    pub topic_name: Option<String>,
    pub payload: Option<Vec<u8>>,
}

/// The Remaining Length a builder's fields produce: the length-prefixed
/// topic name, two bytes for the packet identifier when one is set, and
/// the payload bytes.
pub open spec fn publish_builder_remaining_length(b: &Builder) -> int {
    (match b.topic_name {
        Some(t) => 2 + encode_utf8(t@).len() as int,
        None => 0,
    }) + (match b.packet_id {
        Some(_) => 2int,
        None => 0,
    }) + (match b.payload {
        Some(p) => p@.len() as int,
        None => 0,
    })
}

/// A builder whose fields can become a PUBLISH packet: topic name and
/// payload are present, the flags stay in their nibble, the topic fits
/// its length prefix, and the whole body fits the Remaining Length
/// field.
pub open spec fn publish_builder_ok(b: &Builder) -> bool {
    &&& b.topic_name is Some
    &&& b.payload is Some
    &&& b.packet_flags.byte_rep < 16
    &&& encode_utf8(b.topic_name.unwrap()@).len() <= 0xFFFF
    &&& publish_builder_remaining_length(b) <= REMAINING_LENGTH_MAX
}

impl Builder {
    /// An empty builder: QoS-0 flags, no packet identifier, no topic,
    /// no payload.
    pub fn new() -> (r: Builder)
        ensures
            r.packet_flags.byte_rep == 0,
            r.packet_id is None,
            r.topic_name is None,
            r.payload is None,
    {
        Builder {
            packet_flags: PublishPacketFlags::default(),
            packet_id: None,
            topic_name: None,
            payload: None,
        }
    }

    /// Sets the DUP/QoS/RETAIN flags nibble.
    pub fn packet_flags(self, packet_flags: PublishPacketFlags) -> (r: Builder)
        ensures
            r == (Builder { packet_flags, ..self }),
    {
        Builder { packet_flags, ..self }
    }

    /// Sets the packet identifier.
    pub fn packet_id(self, packet_id: u16) -> (r: Builder)
        ensures
            r == (Builder { packet_id: Some(packet_id), ..self }),
    {
        Builder { packet_id: Some(packet_id), ..self }
    }

    /// Sets the topic name.
    pub fn topic_name(self, topic_name: &str) -> (r: Builder)
        ensures
            r.topic_name is Some && r.topic_name.unwrap()@ == topic_name@,
            r == (Builder { topic_name: r.topic_name, ..self }),
    {
        Builder { topic_name: Some(topic_name.to_owned()), ..self }
    }

    /// Sets the payload bytes.
    pub fn payload(self, payload: &[u8]) -> (r: Builder)
        ensures
            r.payload is Some && r.payload.unwrap()@ == payload@,
            r == (Builder { payload: r.payload, ..self }),
    {
        Builder { payload: Some(vstd::slice::slice_to_vec(payload)), ..self }
    }

    /// Computes the Remaining Length of the packet the configured
    /// fields produce.
    pub fn calc_remaining_length(&self) -> (r: usize)
        requires
            self.topic_name is Some ==> encode_utf8(self.topic_name.unwrap()@).len() <= 0xFFFF,
            self.payload is Some ==> self.payload.unwrap()@.len() <= REMAINING_LENGTH_MAX,
        ensures
            r == publish_builder_remaining_length(self),
    {
        let mut remaining_length: usize = 0;
        match &self.topic_name {
            Some(topic) => {
                remaining_length = remaining_length + 2 + str_byte_len(topic);
            },
            None => {},
        }
        match &self.packet_id {
            Some(_) => {
                remaining_length = remaining_length + 2;
            },
            None => {},
        }
        match &self.payload {
            Some(payload) => {
                remaining_length = remaining_length + payload.len();
            },
            None => {},
        }
        remaining_length
    }

    /// Builds the PUBLISH packet, validating the configured fields: the
    /// topic name and payload must be present, the flags must stay in
    /// their nibble, and the body must fit the wire format's bounds.
    pub fn build(self) -> (r: Result<PublishPacket, ErrorBuildingPublishPacket>)
        ensures
            match r {
                Ok(p) => {
                    &&& publish_builder_ok(&self)
                    &&& p.wf()
                    &&& p.fixed_header.packet_type == ControlPacketType::Publish
                    &&& p.fixed_header.packet_flags == self.packet_flags.byte_rep
                    &&& p.fixed_header.remaining_length == publish_builder_remaining_length(&self)
                    &&& p.topic_name@ == self.topic_name.unwrap()@
                    &&& p.packet_id == self.packet_id
                    &&& p.payload@ == self.payload.unwrap()@
                },
                Err(_) => !publish_builder_ok(&self),
            },
    {
        if self.packet_flags.byte_rep >= 16 {
            return Err(ErrorBuildingPublishPacket);
        }
        match &self.topic_name {
            Some(topic) => if str_byte_len(topic) > 0xFFFF {
                return Err(ErrorBuildingPublishPacket);
            },
            None => {
                return Err(ErrorBuildingPublishPacket);
            },
        }
        match &self.payload {
            Some(payload) => if payload.len() > REMAINING_LENGTH_MAX as usize {
                return Err(ErrorBuildingPublishPacket);
            },
            None => {
                return Err(ErrorBuildingPublishPacket);
            },
        }
        let remaining_length = self.calc_remaining_length();
        if remaining_length > REMAINING_LENGTH_MAX as usize {
            return Err(ErrorBuildingPublishPacket);
        }
        let topic_name = match self.topic_name {
            Some(topic) => topic,
            None => {
                return Err(ErrorBuildingPublishPacket);
            },
        };
        let payload = match self.payload {
            Some(payload) => payload,
            None => {
                return Err(ErrorBuildingPublishPacket);
            },
        };
        Ok(
            PublishPacket {
                fixed_header: FixedHeader {
                    packet_type: ControlPacketType::Publish,
                    packet_flags: self.packet_flags.byte_rep,
                    remaining_length: remaining_length as u32,
                },
                topic_name,
                packet_id: self.packet_id,
                payload,
            },
        )
    }
}

/// A PUBLISH packet ready to be encoded, or decoded from the wire.
#[derive(Debug)]
pub struct PublishPacket {
    pub fixed_header: FixedHeader,
    pub topic_name: String,
    pub packet_id: Option<u16>,
    pub payload: Vec<u8>,
}

/// The Remaining Length a PUBLISH packet's fields occupy on the wire.
pub open spec fn publish_packet_remaining_length(p: &PublishPacket) -> int {
    2 + encode_utf8(p.topic_name@).len() + (match p.packet_id {
        Some(_) => 2int,
        None => 0,
    }) + p.payload@.len()
}

/// The bytes after the fixed header: length-prefixed topic name, the
/// packet identifier when present, then the payload.
pub open spec fn publish_body_bytes(p: &PublishPacket) -> Seq<u8> {
    length_prefixed(encode_utf8(p.topic_name@)) + (match p.packet_id {
        Some(id) => u16_be(id as int),
        None => Seq::<u8>::empty(),
    }) + p.payload@
}

/// The full wire form of a PUBLISH packet.
pub open spec fn publish_packet_bytes(p: &PublishPacket) -> Seq<u8> {
    fixed_header_bytes(p.fixed_header) + publish_body_bytes(p)
}

impl PublishPacket {
    /// A packet whose fixed header agrees with its fields: type
    /// PUBLISH, flags in their nibble, topic within its length prefix,
    /// and a Remaining Length that counts exactly the bytes that follow
    /// the fixed header.
    pub open spec fn wf(self) -> bool {
        &&& self.fixed_header.packet_type == ControlPacketType::Publish
        &&& self.fixed_header.packet_flags < 16
        &&& encode_utf8(self.topic_name@).len() <= 0xFFFF
        &&& self.fixed_header.remaining_length <= REMAINING_LENGTH_MAX
        &&& self.fixed_header.remaining_length == publish_packet_remaining_length(&self)
    }

    /// A QoS-0 packet with no packet identifier, its Remaining Length
    /// computed from the topic name and payload.
    pub fn new(flags: PublishPacketFlags, topic_name: &str, payload: &[u8]) -> (r: PublishPacket)
        requires
            flags.byte_rep < 16,
            encode_utf8(topic_name@).len() <= 0xFFFF,
            2 + encode_utf8(topic_name@).len() + payload@.len() <= REMAINING_LENGTH_MAX,
        ensures
            r.wf(),
            r.fixed_header.packet_type == ControlPacketType::Publish,
            r.fixed_header.packet_flags == flags.byte_rep,
            r.fixed_header.remaining_length == 2 + encode_utf8(topic_name@).len()
                + payload@.len(),
            r.topic_name@ == topic_name@,
            r.packet_id is None,
            r.payload@ == payload@,
    {
        let topic_len: usize = topic_name.as_bytes().len();
        let remaining_length: usize = 2 + topic_len + payload.len();
        PublishPacket {
            fixed_header: FixedHeader {
                packet_type: ControlPacketType::Publish,
                packet_flags: flags.byte_rep,
                remaining_length: remaining_length as u32,
            },
            topic_name: topic_name.to_owned(),
            packet_id: None,
            payload: vstd::slice::slice_to_vec(payload),
        }
    }

    /// Encodes the packet: fixed header, length-prefixed topic name,
    /// packet identifier when present, then the payload.  The result
    /// holds exactly `1 + width(remaining_length) + remaining_length`
    /// bytes.
    pub fn encode(&self) -> (r: Vec<u8>)
        requires
            self.wf(),
        ensures
            r@ == publish_packet_bytes(self),
            r@.len() == 1 + encode_rl_bytes(self.fixed_header.remaining_length as int).len()
                + self.fixed_header.remaining_length,
    {
        proof {
            assert(self.fixed_header.wf());
        }
        let mut vec: Vec<u8> = self.fixed_header.encode();
        push_length_prefixed_str(&mut vec, &self.topic_name);
        match self.packet_id {
            Some(id) => {
                push_u16_be(&mut vec, id);
            },
            None => {},
        }
        vec.extend_from_slice(self.payload.as_slice());
        proof {
            assert(vec@ =~= publish_packet_bytes(self));
        }
        vec
    }

    /// Decodes a PUBLISH packet: fixed header, topic name, a packet
    /// identifier exactly when the QoS bits in the flags are above
    /// zero, then the payload located from the Remaining Length.
    /// Fails when the buffer ends before the bytes the header promises,
    /// when the Remaining Length cannot hold the topic and packet
    /// identifier, or when the topic name is not valid UTF-8.
    pub fn decode(bytes: &[u8]) -> (r: Result<PublishPacket, DecodeError>)
        ensures
            match r {
                Ok(p) => {
                    &&& publish_decodable(bytes@)
                    &&& ({
                        let rl = decode_rl_spec(bytes@.skip(1)).unwrap().0;
                        let hdr = 1 + decode_rl_spec(bytes@.skip(1)).unwrap().1;
                        let topic_len = u16_be_val(bytes@[hdr], bytes@[hdr + 1]);
                        let qos = publish_qos(bytes@[0] % 16);
                        let pid_len: int = if qos != 0 {
                            2int
                        } else {
                            0int
                        };
                        &&& p.fixed_header.packet_type == type_of_code(bytes@[0] / 16)
                        &&& p.fixed_header.packet_flags == bytes@[0] % 16
                        &&& p.fixed_header.remaining_length == rl
                        &&& p.topic_name@ == decode_utf8(
                            bytes@.subrange(hdr + 2, hdr + 2 + topic_len),
                        )
                        &&& encode_utf8(p.topic_name@) == bytes@.subrange(
                            hdr + 2,
                            hdr + 2 + topic_len,
                        )
                        &&& (qos != 0 ==> p.packet_id == Some(
                            u16_be_val(
                                bytes@[hdr + 2 + topic_len],
                                bytes@[hdr + 3 + topic_len],
                            ) as u16,
                        ))
                        &&& (qos == 0 ==> p.packet_id is None)
                        &&& p.payload@ == bytes@.subrange(hdr + 2 + topic_len + pid_len, hdr + rl)
                    })
                },
                Err(_) => !publish_decodable(bytes@),
            },
    {
        let (fixed_header, header_len) = match FixedHeader::decode(bytes) {
            Ok(p) => p,
            Err(e) => {
                return Err(e);
            },
        };
        let remaining_length: usize = fixed_header.remaining_length as usize;
        if bytes.len() < header_len + remaining_length {
            return Err(DecodeError);
        }
        if remaining_length < 2 {
            return Err(DecodeError);
        }
        let topic_len: usize = as_u16_be(bytes, header_len) as usize;
        let qos: u8 = (fixed_header.packet_flags / 2) % 4;
        let pid_len: usize = if qos != 0 {
            2
        } else {
            0
        };
        if remaining_length < 2 + topic_len + pid_len {
            return Err(DecodeError);
        }
        let topic_bytes = vstd::slice::slice_subrange(bytes, header_len + 2, header_len + 2
            + topic_len);
        let topic_name = match bytes_to_string(vstd::slice::slice_to_vec(topic_bytes)) {
            Some(s) => s,
            None => {
                return Err(DecodeError);
            },
        };
        let packet_id: Option<u16> = if qos != 0 {
            Some(as_u16_be(bytes, header_len + 2 + topic_len))
        } else {
            None
        };
        let payload = vstd::slice::slice_to_vec(
            vstd::slice::slice_subrange(
                bytes,
                header_len + 2 + topic_len + pid_len,
                header_len + remaining_length,
            ),
        );
        proof {
            vstd::utf8::decode_utf8_encode_utf8(
                bytes@.subrange(
                    1 + decode_rl_spec(bytes@.skip(1)).unwrap().1 + 2,
                    1 + decode_rl_spec(bytes@.skip(1)).unwrap().1 + 2 + (topic_len as int),
                ),
            );
        }
        Ok(PublishPacket { fixed_header, topic_name, packet_id, payload })
    }
}

/// A buffer that holds a decodable PUBLISH packet: a decodable fixed
/// header, the full Remaining Length present, a topic name and optional
/// packet identifier that fit inside it, and a topic that is valid
/// UTF-8.
pub open spec fn publish_decodable(bytes: Seq<u8>) -> bool {
    &&& bytes.len() >= 1
    &&& decode_rl_spec(bytes.skip(1)) is Some
    &&& ({
        let rl = decode_rl_spec(bytes.skip(1)).unwrap().0;
        let hdr = 1 + decode_rl_spec(bytes.skip(1)).unwrap().1;
        &&& hdr + rl <= bytes.len()
        &&& rl >= 2
        &&& ({
            let topic_len = u16_be_val(bytes[hdr], bytes[hdr + 1]);
            let pid_len: int = if publish_qos(bytes[0] % 16) != 0 {
                2int
            } else {
                0int
            };
            &&& 2 + topic_len + pid_len <= rl
            &&& valid_utf8(bytes.subrange(hdr + 2, hdr + 2 + topic_len))
        })
    })
}

/// Decoding inverts encoding for PUBLISH packets: the wire form of a
/// well-formed packet whose packet identifier accompanies exactly a
/// non-zero QoS is decodable, and every field comes back out of it
/// unchanged — the flags, the Remaining Length, the topic name, the
/// packet identifier and the payload.
pub proof fn lemma_publish_round_trip(p: &PublishPacket)
    requires
        p.wf(),
        (publish_qos(p.fixed_header.packet_flags) != 0) <==> (p.packet_id is Some),
    ensures
        publish_decodable(publish_packet_bytes(p)),
        ({
            let bytes = publish_packet_bytes(p);
            let hdr = 1 + decode_rl_spec(bytes.skip(1)).unwrap().1;
            let topic_len = u16_be_val(bytes[hdr], bytes[hdr + 1]);
            let pid_len: int = if p.packet_id is Some {
                2int
            } else {
                0int
            };
            &&& type_of_code(bytes[0] / 16) == ControlPacketType::Publish
            &&& bytes[0] % 16 == p.fixed_header.packet_flags
            &&& decode_rl_spec(bytes.skip(1)).unwrap().0 == p.fixed_header.remaining_length
            &&& topic_len == encode_utf8(p.topic_name@).len()
            &&& decode_utf8(bytes.subrange(hdr + 2, hdr + 2 + topic_len)) == p.topic_name@
            &&& (p.packet_id is Some ==> u16_be_val(
                bytes[hdr + 2 + topic_len],
                bytes[hdr + 3 + topic_len],
            ) == p.packet_id.unwrap())
            &&& bytes.subrange(
                hdr + 2 + topic_len + pid_len,
                hdr + p.fixed_header.remaining_length,
            ) == p.payload@
        }),
{
    broadcast use vstd::utf8::encode_utf8_valid_utf8, vstd::utf8::encode_utf8_decode_utf8;

    let fh = p.fixed_header;
    let body = publish_body_bytes(p);
    let bytes = publish_packet_bytes(p);
    let topic_bytes = encode_utf8(p.topic_name@);
    let topic_len = topic_bytes.len() as int;
    let pid_bytes = (match p.packet_id {
        Some(id) => u16_be(id as int),
        None => Seq::<u8>::empty(),
    });
    let pid_len = pid_bytes.len() as int;
    crate::control_packets::lemma_fixed_header_round_trip(fh, body);
    let width = crate::control_packets::encode_rl_bytes(fh.remaining_length as int).len() as int;
    let hdr = 1 + width;
    assert(crate::control_packets::fixed_header_bytes(fh).len() == hdr);
    assert(body.len() == 2 + topic_len + pid_len + p.payload@.len());
    assert(bytes.len() == hdr + fh.remaining_length);
    assert forall|i: int| 0 <= i < body.len() implies bytes[hdr + i] == body[i] by {
        assert(bytes == crate::control_packets::fixed_header_bytes(fh) + body);
    }
    assert(body[0] == u16_be(topic_len)[0]);
    assert(body[1] == u16_be(topic_len)[1]);
    assert(u16_be_val(bytes[hdr], bytes[hdr + 1]) == (topic_len / 256) * 256 + topic_len % 256);
    assert(bytes.subrange(hdr + 2, hdr + 2 + topic_len) =~= topic_bytes);
    match p.packet_id {
        Some(id) => {
            assert(body[2 + topic_len] == u16_be(id as int)[0]);
            assert(body[3 + topic_len] == u16_be(id as int)[1]);
            assert(u16_be_val(bytes[hdr + 2 + topic_len], bytes[hdr + 3 + topic_len]) == (id as int
                / 256) * 256 + id as int % 256);
        },
        None => {},
    }
    assert(bytes.subrange(hdr + 2 + topic_len + pid_len, hdr + fh.remaining_length)
        =~= p.payload@);
}

/// Relies on String::from_utf8: accepts exactly the byte sequences that
/// are valid UTF-8, and decodes them to the characters they encode.
#[verifier::external_body]
fn bytes_to_string(bytes: Vec<u8>) -> (r: Option<String>)
    ensures
        match r {
            Some(s) => valid_utf8(bytes@) && s@ == decode_utf8(bytes@),
            None => !valid_utf8(bytes@),
        },
{
    match String::from_utf8(bytes) {
        Ok(s) => Some(s),
        Err(_) => None,
    }
}

} // verus!
