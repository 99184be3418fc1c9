//! SUBSCRIBE: asks the server for one or more topic subscriptions.
//!
//! The variable header holds the packet identifier; the payload is the
//! ordered list of topic filters, each a length-prefixed topic name
//! followed by its requested QoS byte.

use vstd::prelude::*;
use vstd::utf8::encode_utf8;

use crate::connect_packet::{QoS, qos_value};
use crate::control_packets::{
    ControlPacketFlags, ControlPacketType, FixedHeader, REMAINING_LENGTH_MAX, encode_rl_bytes,
    fixed_header_bytes, length_prefixed, push_length_prefixed_str, push_u16_be, str_byte_len,
    u16_be,
};

verus! {

/// One subscription request: a topic filter and the QoS the client
/// asks for.
pub struct TopicFilter {
    pub topic_name: String,
    pub requested_qos: QoS,
}

/// The wire form of one topic filter: length-prefixed topic name, then
/// the requested QoS byte.
pub open spec fn topic_filter_bytes(f: TopicFilter) -> Seq<u8> {
    length_prefixed(encode_utf8(f.topic_name@)) + seq![qos_value(f.requested_qos)]
}

/// The wire form of a list of topic filters, in order.
pub open spec fn topic_filters_bytes(filters: Seq<TopicFilter>) -> Seq<u8>
    decreases filters.len(),
{
    if filters.len() == 0 {
        Seq::<u8>::empty()
    } else {
        topic_filters_bytes(filters.drop_last()) + topic_filter_bytes(filters.last())
    }
}

/// Every topic filter fits its two-byte length prefix.
pub open spec fn topic_filters_ok(filters: Seq<TopicFilter>) -> bool {
    forall|i: int|
        0 <= i < filters.len() ==> encode_utf8(#[trigger] filters[i].topic_name@).len() <= 0xFFFF
}

/// Appending one filter to the list appends its bytes.
pub proof fn lemma_topic_filters_bytes_take(filters: Seq<TopicFilter>, i: int)
    requires
        0 <= i < filters.len(),
    ensures
        topic_filters_bytes(filters.take(i + 1)) == topic_filters_bytes(filters.take(i))
            + topic_filter_bytes(filters[i]),
{
    assert(filters.take(i + 1).drop_last() =~= filters.take(i));
    assert(filters.take(i + 1).last() == filters[i]);
}

/// A prefix of the list never takes more bytes than the whole list.
pub proof fn lemma_topic_filters_bytes_take_len(filters: Seq<TopicFilter>, i: int)
    requires
        0 <= i <= filters.len(),
    ensures
        topic_filters_bytes(filters.take(i)).len() <= topic_filters_bytes(filters).len(),
    decreases filters.len() - i,
{
    if i == filters.len() {
        assert(filters.take(i) =~= filters);
    } else {
        lemma_topic_filters_bytes_take(filters, i);
        lemma_topic_filters_bytes_take_len(filters, i + 1);
    }
}

/// A SUBSCRIBE packet could not be built: a topic filter did not fit
/// its length prefix, or the payload outgrew the Remaining Length
/// field.
#[derive(Debug, Clone, Copy, PartialEq, Eq, Structural)]
pub struct ErrorBuildingSubscribePacket;

/// Collects the fields of a SUBSCRIBE packet and validates them when
/// the packet is built.
pub struct Builder {
    pub fixed_header: FixedHeader,
    pub packet_id: u16,
    pub topic_filters: Vec<TopicFilter>,
}

impl Builder {
    /// A builder with no topic filters.  The packet identifier must be
    /// non-zero on the wire, so it starts at 1; the caller picks its
    /// own with `packet_id`.
    pub fn new() -> (r: Builder)
        ensures
            r.fixed_header.packet_type == ControlPacketType::Subscribe,
            r.fixed_header.packet_flags == ControlPacketFlags::SUBSCRIBE_FLAGS,
            r.fixed_header.remaining_length == 0,
            r.packet_id == 1,
            r.topic_filters@.len() == 0,
    {
        Builder {
            fixed_header: FixedHeader {
                packet_type: ControlPacketType::Subscribe,
                packet_flags: ControlPacketFlags::SUBSCRIBE_FLAGS,
                remaining_length: 0,
            },
            packet_id: 1,
            topic_filters: Vec::new(),
        }
    }

    /// Sets the packet identifier.
    pub fn packet_id(self, packet_id: u16) -> (r: Builder)
        ensures
            r == (Builder { packet_id, ..self }),
    {
        Builder { packet_id, ..self }
    }

    /// Appends one topic filter to the subscription list.
    pub fn topic_filter(self, topic_filter: TopicFilter) -> (r: Builder)
        ensures
            r.topic_filters@ == self.topic_filters@.push(topic_filter),
            r.fixed_header == self.fixed_header,
            r.packet_id == self.packet_id,
    {
        let mut topic_filters = self.topic_filters;
        topic_filters.push(topic_filter);
        Builder { fixed_header: self.fixed_header, packet_id: self.packet_id, topic_filters }
    }

    /// Computes the Remaining Length of the packet the configured
    /// fields produce: two bytes of packet identifier, then each
    /// filter's length-prefixed topic name and QoS byte.
    pub fn calc_remaining_length(&self) -> (r: usize)
        requires
            topic_filters_ok(self.topic_filters@),
            2 + topic_filters_bytes(self.topic_filters@).len() <= REMAINING_LENGTH_MAX,
        ensures
            r == 2 + topic_filters_bytes(self.topic_filters@).len(),
    {
        let mut remaining_length: usize = 2;
        let mut i: usize = 0;
        proof {
            assert(self.topic_filters@.take(0) =~= Seq::<TopicFilter>::empty());
        }
        while i < self.topic_filters.len()
            invariant
                0 <= i <= self.topic_filters@.len(),
                topic_filters_ok(self.topic_filters@),
                2 + topic_filters_bytes(self.topic_filters@).len() <= REMAINING_LENGTH_MAX,
                remaining_length == 2 + topic_filters_bytes(self.topic_filters@.take(i as int)).len(),
            decreases self.topic_filters@.len() - i,
        {
            proof {
                lemma_topic_filters_bytes_take(self.topic_filters@, i as int);
                lemma_topic_filters_bytes_take_len(self.topic_filters@, i as int + 1);
            }
            let filter = &self.topic_filters[i];
            remaining_length = remaining_length + 2 + str_byte_len(&filter.topic_name) + 1;
            i = i + 1;
        }
        proof {
            assert(self.topic_filters@.take(self.topic_filters@.len() as int)
                =~= self.topic_filters@);
        }
        remaining_length
    }

    /// Builds the SUBSCRIBE packet, validating the configured fields:
    /// each topic filter must fit its two-byte length prefix and the
    /// whole payload must fit the Remaining Length field.
    pub fn build(self) -> (r: Result<SubscribePacket, ErrorBuildingSubscribePacket>)
        ensures
            match r {
                Ok(p) => {
                    &&& topic_filters_ok(self.topic_filters@)
                    &&& 2 + topic_filters_bytes(self.topic_filters@).len() <= REMAINING_LENGTH_MAX
                    &&& p.wf()
                    &&& p.fixed_header.packet_type == ControlPacketType::Subscribe
                    &&& p.fixed_header.packet_flags == ControlPacketFlags::SUBSCRIBE_FLAGS
                    &&& p.fixed_header.remaining_length == 2 + topic_filters_bytes(
                        self.topic_filters@,
                    ).len()
                    &&& p.packet_id == self.packet_id
                    &&& p.topic_filters@ == self.topic_filters@
                },
                Err(_) => !(topic_filters_ok(self.topic_filters@) && 2 + topic_filters_bytes(
                    self.topic_filters@,
                ).len() <= REMAINING_LENGTH_MAX),
            },
    {
        let mut total: usize = 2;
        let mut i: usize = 0;
        proof {
            assert(self.topic_filters@.take(0) =~= Seq::<TopicFilter>::empty());
        }
        while i < self.topic_filters.len()
            invariant
                0 <= i <= self.topic_filters@.len(),
                topic_filters_ok(self.topic_filters@.take(i as int)),
                total == 2 + topic_filters_bytes(self.topic_filters@.take(i as int)).len(),
                total <= REMAINING_LENGTH_MAX,
            decreases self.topic_filters@.len() - i,
        {
            let filter = &self.topic_filters[i];
            let topic_len = str_byte_len(&filter.topic_name);
            if topic_len > 0xFFFF {
                return Err(ErrorBuildingSubscribePacket);
            }
            proof {
                lemma_topic_filters_bytes_take(self.topic_filters@, i as int);
                assert(self.topic_filters@.take(i as int + 1).drop_last() =~= self.topic_filters@
                    .take(i as int));
            }
            if total > REMAINING_LENGTH_MAX as usize - 3 - topic_len {
                proof {
                    lemma_topic_filters_bytes_take_len(self.topic_filters@, i as int + 1);
                }
                return Err(ErrorBuildingSubscribePacket);
            }
            total = total + 2 + topic_len + 1;
            i = i + 1;
        }
        proof {
            assert(self.topic_filters@.take(self.topic_filters@.len() as int)
                =~= self.topic_filters@);
        }
        Ok(
            SubscribePacket {
                fixed_header: FixedHeader {
                    packet_type: ControlPacketType::Subscribe,
                    packet_flags: ControlPacketFlags::SUBSCRIBE_FLAGS,
                    remaining_length: total as u32,
                },
                packet_id: self.packet_id,
                topic_filters: self.topic_filters,
            },
        )
    }
}

/// A SUBSCRIBE packet ready to be encoded.
pub struct SubscribePacket {
    pub fixed_header: FixedHeader,
    pub packet_id: u16,
    pub topic_filters: Vec<TopicFilter>,
}

/// The full wire form of a SUBSCRIBE packet.
pub open spec fn subscribe_packet_bytes(p: &SubscribePacket) -> Seq<u8> {
    fixed_header_bytes(p.fixed_header) + u16_be(p.packet_id as int) + topic_filters_bytes(
        p.topic_filters@,
    )
}

impl SubscribePacket {
    /// A packet whose fixed header agrees with its fields: type
    /// SUBSCRIBE, flags in their nibble, every filter within its
    /// length prefix, and a Remaining Length that counts exactly the
    /// bytes that follow the fixed header.
    pub open spec fn wf(self) -> bool {
        &&& self.fixed_header.packet_type == ControlPacketType::Subscribe
        &&& self.fixed_header.packet_flags < 16
        &&& topic_filters_ok(self.topic_filters@)
        &&& self.fixed_header.remaining_length <= REMAINING_LENGTH_MAX
        &&& self.fixed_header.remaining_length == 2 + topic_filters_bytes(self.topic_filters@).len()
    }

    /// Encodes the packet: fixed header, big-endian packet identifier,
    /// then each topic filter in order.  The result holds exactly
    /// `1 + width(remaining_length) + remaining_length` bytes.
    pub fn encode(&self) -> (r: Vec<u8>)
        requires
            self.wf(),
        ensures
            r@ == subscribe_packet_bytes(self),
            r@.len() == 1 + encode_rl_bytes(self.fixed_header.remaining_length as int).len()
                + self.fixed_header.remaining_length,
    {
        proof {
            assert(self.fixed_header.wf());
        }
        let mut vec: Vec<u8> = self.fixed_header.encode();
        push_u16_be(&mut vec, self.packet_id);
        let ghost prefix = vec@;
        proof {
            assert(self.topic_filters@.take(0) =~= Seq::<TopicFilter>::empty());
            assert(vec@ =~= prefix + topic_filters_bytes(self.topic_filters@.take(0)));
        }
        let mut i: usize = 0;
        while i < self.topic_filters.len()
            invariant
                0 <= i <= self.topic_filters@.len(),
                topic_filters_ok(self.topic_filters@),
                vec@ == prefix + topic_filters_bytes(self.topic_filters@.take(i as int)),
            decreases self.topic_filters@.len() - i,
        {
            let filter = &self.topic_filters[i];
            push_length_prefixed_str(&mut vec, &filter.topic_name);
            vec.push(filter.requested_qos.value());
            proof {
                lemma_topic_filters_bytes_take(self.topic_filters@, i as int);
                assert(vec@ =~= prefix + topic_filters_bytes(
                    self.topic_filters@.take(i as int + 1),
                ));
            }
            i = i + 1;
        }
        proof {
            assert(self.topic_filters@.take(self.topic_filters@.len() as int)
                =~= self.topic_filters@);
            assert(vec@ =~= subscribe_packet_bytes(self));
        }
        vec
    }
}

} // verus!
