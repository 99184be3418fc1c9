//! CONNACK: the first packet a server sends back after a CONNECT, made
//! of a fixed header, one acknowledge-flags byte and one return-code
//! byte.

use vstd::prelude::*;

use crate::control_packets::{
    ControlPacketFlags, ControlPacketType, DecodeError, FixedHeader, decode_rl_spec, type_of_code,
};

verus! {

/// The CONNACK packet: connection acknowledgement and return code
/// (0 means the connection was accepted).
#[derive(Debug)]
pub struct ConnAck {
    pub fixed_header: FixedHeader,
    pub connect_ack_flags: u8,
    pub connect_return_code: u8,
}

impl ConnAck {
    /// A blank CONNACK value: acknowledge flags 0 and return code 0
    /// (accepted).
    pub fn new() -> (r: ConnAck)
        ensures
            r.fixed_header.packet_type == ControlPacketType::ConnAck,
            r.fixed_header.packet_flags == ControlPacketFlags::CONNACK_FLAGS,
            r.fixed_header.remaining_length == 0,
            r.connect_ack_flags == 0,
            r.connect_return_code == 0,
    {
        ConnAck {
            fixed_header: FixedHeader {
                packet_type: ControlPacketType::ConnAck,
                packet_flags: ControlPacketFlags::CONNACK_FLAGS,
                remaining_length: 0,
            },
            connect_ack_flags: 0,
            connect_return_code: 0,
        }
    }

    /// Decodes a received CONNACK: the fixed header, then the
    /// acknowledge-flags byte and the return-code byte right after it.
    /// Fails when the fixed header is malformed or the buffer ends
    /// before the two variable-header bytes.
    pub fn decode(bytes: &[u8]) -> (r: Result<ConnAck, DecodeError>)
        ensures
            match r {
                Ok(p) => {
                    &&& bytes@.len() >= 1
                    &&& decode_rl_spec(bytes@.skip(1)) is Some
                    &&& ({
                        let width = decode_rl_spec(bytes@.skip(1)).unwrap().1;
                        &&& bytes@.len() >= 3 + width
                        &&& p.fixed_header.packet_type == type_of_code(bytes@[0] / 16)
                        &&& p.fixed_header.packet_flags == bytes@[0] % 16
                        &&& p.fixed_header.remaining_length == decode_rl_spec(
                            bytes@.skip(1),
                        ).unwrap().0
                        &&& p.connect_ack_flags == bytes@[1 + width]
                        &&& p.connect_return_code == bytes@[2 + width]
                    })
                },
                Err(_) => bytes@.len() == 0 || decode_rl_spec(bytes@.skip(1)) is None || bytes@.len()
                    < 3 + decode_rl_spec(bytes@.skip(1)).unwrap().1,
            },
    {
        match FixedHeader::decode(bytes) {
            Ok((fixed_header, header_len)) => {
                if bytes.len() < header_len + 2 {
                    return Err(DecodeError);
                }
                let connect_ack_flags = bytes[header_len];
                let connect_return_code = bytes[header_len + 1];
                Ok(ConnAck { fixed_header, connect_ack_flags, connect_return_code })
            },
            Err(e) => Err(e),
        }
    }
}

} // verus!
