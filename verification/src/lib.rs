//! An MQTT v3.1.1 wire-protocol codec.
//!
//! Every control packet starts with a fixed header: a type/flags byte
//! followed by the variable-length "Remaining Length" field.  The modules
//! below build the per-packet encode and decode rules on top of that
//! shared structure, and each encoder and decoder carries a contract that
//! pins down the exact bytes produced or consumed.

pub mod conn_ack_packet;
pub mod connect_packet;
pub mod control_packets;
pub mod disconnect_packet;
pub mod ping_packets;
pub mod publish_packet;
pub mod subscribe_packet;
