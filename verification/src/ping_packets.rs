//! PINGREQ and PINGRESP: keep-alive packets that consist of a fixed
//! header alone, with a Remaining Length of zero.

use vstd::prelude::*;

use crate::control_packets::{
    ControlPacketFlags, ControlPacketType, DecodeError, FixedHeader, decode_rl_spec,
    fixed_header_bytes, type_of_code,
};

verus! {

/// The PINGREQ packet a client sends to keep the connection alive.
pub struct PingReqPacket {
    pub fixed_header: FixedHeader,
}

impl PingReqPacket {
    /// A PINGREQ packet: type 12, flags 0, nothing after the fixed
    /// header.
    pub fn new() -> (r: PingReqPacket)
        ensures
            r.fixed_header.packet_type == ControlPacketType::PingReq,
            r.fixed_header.packet_flags == ControlPacketFlags::PING_REQ_FLAGS,
            r.fixed_header.remaining_length == 0,
            r.fixed_header.wf(),
    {
        PingReqPacket {
            fixed_header: FixedHeader {
                packet_type: ControlPacketType::PingReq,
                packet_flags: ControlPacketFlags::PING_REQ_FLAGS,
                remaining_length: 0,
            },
        }
    }

    /// Encodes the packet: exactly the two bytes `[0xC0, 0x00]` for a
    /// freshly built PINGREQ.
    pub fn encode(&self) -> (r: Vec<u8>)
        requires
            self.fixed_header.wf(),
        ensures
            r@ == fixed_header_bytes(self.fixed_header),
    {
        self.fixed_header.encode()
    }
}

/// The PINGRESP packet a server answers a PINGREQ with.
#[derive(Debug)]
pub struct PingRespPacket {
    pub fixed_header: FixedHeader,
}

impl PingRespPacket {
    /// A PINGRESP packet: type 13, flags 0, nothing after the fixed
    /// header.
    pub fn new() -> (r: PingRespPacket)
        ensures
            r.fixed_header.packet_type == ControlPacketType::PingResp,
            r.fixed_header.packet_flags == ControlPacketFlags::PING_RESP_FLAGS,
            r.fixed_header.remaining_length == 0,
            r.fixed_header.wf(),
    {
        PingRespPacket {
            fixed_header: FixedHeader {
                packet_type: ControlPacketType::PingResp,
                packet_flags: ControlPacketFlags::PING_RESP_FLAGS,
                remaining_length: 0,
            },
        }
    }

    /// Encodes the packet: exactly the two bytes `[0xD0, 0x00]` for a
    /// freshly built PINGRESP.
    pub fn encode(&self) -> (r: Vec<u8>)
        requires
            self.fixed_header.wf(),
        ensures
            r@ == fixed_header_bytes(self.fixed_header),
    {
        self.fixed_header.encode()
    }

    /// Decodes a received PINGRESP by parsing its fixed header.
    pub fn decode(bytes: &[u8]) -> (r: Result<PingRespPacket, DecodeError>)
        ensures
            match r {
                Ok(p) => {
                    &&& bytes@.len() >= 1
                    &&& p.fixed_header.packet_type == type_of_code(bytes@[0] / 16)
                    &&& p.fixed_header.packet_flags == bytes@[0] % 16
                    &&& decode_rl_spec(bytes@.skip(1)) is Some
                    &&& p.fixed_header.remaining_length == decode_rl_spec(
                        bytes@.skip(1),
                    ).unwrap().0
                },
                Err(_) => bytes@.len() == 0 || decode_rl_spec(bytes@.skip(1)) is None,
            },
    {
        match FixedHeader::decode(bytes) {
            Ok((fixed_header, _)) => Ok(PingRespPacket { fixed_header }),
            Err(e) => Err(e),
        }
    }
}

} // verus!
