//! DISCONNECT: the final packet a client sends, a fixed header alone
//! with a Remaining Length of zero.

use vstd::prelude::*;

use crate::control_packets::{
    ControlPacketFlags, ControlPacketType, FixedHeader, fixed_header_bytes,
};

verus! {

/// The DISCONNECT packet that ends a session.
pub struct DisconnectPacket {
    pub fixed_header: FixedHeader,
}

impl DisconnectPacket {
    /// A DISCONNECT packet: type 14, flags 0, nothing after the fixed
    /// header.
    pub fn new() -> (r: DisconnectPacket)
        ensures
            r.fixed_header.packet_type == ControlPacketType::Disconnect,
            r.fixed_header.packet_flags == ControlPacketFlags::DISCONNECT_FLAGS,
            r.fixed_header.remaining_length == 0,
            r.fixed_header.wf(),
    {
        DisconnectPacket {
            fixed_header: FixedHeader {
                packet_type: ControlPacketType::Disconnect,
                packet_flags: ControlPacketFlags::DISCONNECT_FLAGS,
                remaining_length: 0,
            },
        }
    }

    /// Encodes the packet: exactly the two bytes `[0xE0, 0x00]` for a
    /// freshly built DISCONNECT.
    pub fn encode(&self) -> (r: Vec<u8>)
        requires
            self.fixed_header.wf(),
        ensures
            r@ == fixed_header_bytes(self.fixed_header),
    {
        self.fixed_header.encode()
    }
}

} // verus!
