//! The structure shared by every MQTT control packet: the packet type
//! enumeration, the per-type reserved flag bits, the variable-length
//! "Remaining Length" integer, and the fixed header built from them.

use vstd::prelude::*;

verus! {

/// The largest value the 4-byte Remaining Length field can carry:
/// `128^4 - 1`, i.e. `2^28 - 1`.
pub const REMAINING_LENGTH_MAX: u32 = 268435455;

/// The 4-bit control packet type codes, in exact bijection with the wire
/// values 1 through 14.  `Unknown` stands for the reserved code 0 and for
/// any value outside the table.
#[derive(Debug, PartialEq, Eq, Structural, Clone, Copy)]
pub enum ControlPacketType {
    Unknown,
    Connect,
    ConnAck,
    Publish,
    PubAck,
    PubRec,
    PubRel,
    PubComp,
    Subscribe,
    SubAck,
    Unsubscribe,
    UnsubAck,
    PingReq,
    PingResp,
    Disconnect,
}

/// The 4-bit wire code of a packet type; `Unknown` maps to the reserved
/// code 0.
pub open spec fn type_code(t: ControlPacketType) -> u8 {
    match t {
        ControlPacketType::Unknown => 0,
        ControlPacketType::Connect => 1,
        ControlPacketType::ConnAck => 2,
        ControlPacketType::Publish => 3,
        ControlPacketType::PubAck => 4,
        ControlPacketType::PubRec => 5,
        ControlPacketType::PubRel => 6,
        ControlPacketType::PubComp => 7,
        ControlPacketType::Subscribe => 8,
        ControlPacketType::SubAck => 9,
        ControlPacketType::Unsubscribe => 10,
        ControlPacketType::UnsubAck => 11,
        ControlPacketType::PingReq => 12,
        ControlPacketType::PingResp => 13,
        ControlPacketType::Disconnect => 14,
    }
}

/// The packet type denoted by a wire code; 0 and everything above 14 is
/// `Unknown`.
pub open spec fn type_of_code(code: u8) -> ControlPacketType {
    if code == 1 {
        ControlPacketType::Connect
    } else if code == 2 {
        ControlPacketType::ConnAck
    } else if code == 3 {
        ControlPacketType::Publish
    } else if code == 4 {
        ControlPacketType::PubAck
    } else if code == 5 {
        ControlPacketType::PubRec
    } else if code == 6 {
        ControlPacketType::PubRel
    } else if code == 7 {
        ControlPacketType::PubComp
    } else if code == 8 {
        ControlPacketType::Subscribe
    } else if code == 9 {
        ControlPacketType::SubAck
    } else if code == 10 {
        ControlPacketType::Unsubscribe
    } else if code == 11 {
        ControlPacketType::UnsubAck
    } else if code == 12 {
        ControlPacketType::PingReq
    } else if code == 13 {
        ControlPacketType::PingResp
    } else if code == 14 {
        ControlPacketType::Disconnect
    } else {
        ControlPacketType::Unknown
    }
}

impl ControlPacketType {
    /// Maps a wire code to the packet type it denotes.
    pub fn from_code(value: u8) -> (r: ControlPacketType)
        ensures
            r == type_of_code(value),
    {
        match value {
            1 => ControlPacketType::Connect,
            2 => ControlPacketType::ConnAck,
            3 => ControlPacketType::Publish,
            4 => ControlPacketType::PubAck,
            5 => ControlPacketType::PubRec,
            6 => ControlPacketType::PubRel,
            7 => ControlPacketType::PubComp,
            8 => ControlPacketType::Subscribe,
            9 => ControlPacketType::SubAck,
            10 => ControlPacketType::Unsubscribe,
            11 => ControlPacketType::UnsubAck,
            12 => ControlPacketType::PingReq,
            13 => ControlPacketType::PingResp,
            14 => ControlPacketType::Disconnect,
            _ => ControlPacketType::Unknown,
        }
    }

    /// The wire code of a known packet type.  Asking for the code of the
    /// `Unknown` sentinel is a defect in the caller, so that input is
    /// excluded.
    pub fn code(self) -> (r: u8)
        requires
            self != ControlPacketType::Unknown,
        ensures
            r == type_code(self),
            1 <= r <= 14,
    {
        match self {
            ControlPacketType::Unknown => 0,
            ControlPacketType::Connect => 1,
            ControlPacketType::ConnAck => 2,
            ControlPacketType::Publish => 3,
            ControlPacketType::PubAck => 4,
            ControlPacketType::PubRec => 5,
            ControlPacketType::PubRel => 6,
            ControlPacketType::PubComp => 7,
            ControlPacketType::Subscribe => 8,
            ControlPacketType::SubAck => 9,
            ControlPacketType::Unsubscribe => 10,
            ControlPacketType::UnsubAck => 11,
            ControlPacketType::PingReq => 12,
            ControlPacketType::PingResp => 13,
            ControlPacketType::Disconnect => 14,
        }
    }
}

/// For every valid type code 1 through 14, encoding and decoding are
/// mutually inverse; the reserved code 0 and every code above 14 decode
/// to the `Unknown` sentinel.
pub proof fn lemma_packet_type_code_round_trip(code: u8, t: ControlPacketType)
    ensures
        1 <= code <= 14 ==> type_code(type_of_code(code)) == code,
        code == 0 || code >= 15 ==> type_of_code(code) == ControlPacketType::Unknown,
        t != ControlPacketType::Unknown ==> type_of_code(type_code(t)) == t,
{
}

/// The reserved flag nibble of each packet type whose flags the protocol
/// fixes.  PUBLISH flags are not constant: they carry the DUP, QoS and
/// RETAIN bits.
pub struct ControlPacketFlags {}

impl ControlPacketFlags {
    pub const CONNECT_FLAGS: u8 = 0;

    pub const CONNACK_FLAGS: u8 = 0;

    pub const PUB_ACK_FLAGS: u8 = 0;

    pub const PUB_REC_FLAGS: u8 = 0;

    pub const PUB_REL_FLAGS: u8 = 2;

    pub const PUB_COMP_FLAGS: u8 = 0;

    pub const SUBSCRIBE_FLAGS: u8 = 2;

    pub const SUB_ACK_FLAGS: u8 = 0;

    pub const UNSUBSCRIBE_FLAGS: u8 = 2;

    pub const UNSUB_ACK_FLAGS: u8 = 0;

    pub const PING_REQ_FLAGS: u8 = 0;

    pub const PING_RESP_FLAGS: u8 = 0;

    pub const DISCONNECT_FLAGS: u8 = 0;
}

/// A value did not fit the wire encoding: the Remaining Length was above
/// `REMAINING_LENGTH_MAX`.
#[derive(Debug, Clone, Copy, PartialEq, Eq, Structural)]
pub struct EncodeError;

/// A received buffer was malformed: a Remaining Length field ran past its
/// 4-byte bound, or the buffer ended before the bytes the header promised.
#[derive(Debug, Clone, Copy, PartialEq, Eq, Structural)]
pub struct DecodeError;

/// The Remaining Length encoding of `n`: seven bits per byte, least
/// significant group first, the high bit of a byte marking a continuation.
pub open spec fn encode_rl_bytes(n: int) -> Seq<u8>
    recommends
        0 <= n,
    decreases n,
{
    if n < 128 {
        seq![n as u8]
    } else {
        seq![(n % 128 + 128) as u8] + encode_rl_bytes(n / 128)
    }
}

/// Decoding of a Remaining Length field from the front of `bytes`, reading
/// at most `max_bytes` bytes: the value and the count of bytes consumed,
/// or `None` when no terminating byte (high bit clear) falls within the
/// first `max_bytes` bytes of the buffer.
pub open spec fn decode_rl_bytes(bytes: Seq<u8>, max_bytes: int) -> Option<(int, int)>
    decreases max_bytes,
{
    if max_bytes <= 0 || bytes.len() == 0 {
        None
    } else if bytes[0] < 128 {
        Some((bytes[0] as int, 1))
    } else {
        match decode_rl_bytes(bytes.drop_first(), max_bytes - 1) {
            Some(p) => Some((bytes[0] - 128 + 128 * p.0, 1 + p.1)),
            None => None,
        }
    }
}

/// Decoding of the Remaining Length field at the front of `bytes`, with
/// the 4-byte bound the protocol fixes.
pub open spec fn decode_rl_spec(bytes: Seq<u8>) -> Option<(int, int)> {
    decode_rl_bytes(bytes, 4)
}

/// The Remaining Length encoding takes one byte per seven significant
/// bits: values up to `2^28 - 1` fit in four bytes, anything larger in a
/// 32-bit range needs five.
pub proof fn lemma_encode_rl_len(n: int)
    requires
        0 <= n <= u32::MAX,
    ensures
        encode_rl_bytes(n).len() == if n < 128 {
            1int
        } else if n < 16384 {
            2int
        } else if n < 2097152 {
            3int
        } else if n < 268435456 {
            4int
        } else {
            5int
        },
    decreases n,
{
    if n >= 128 {
        lemma_encode_rl_len(n / 128);
    }
}

/// Decoding reads only the bytes of the field itself: appending anything
/// after a decodable prefix changes neither the value nor the count of
/// bytes consumed.
pub proof fn lemma_decode_rl_extend(bytes: Seq<u8>, more: Seq<u8>, max_bytes: int)
    requires
        decode_rl_bytes(bytes, max_bytes) is Some,
    ensures
        decode_rl_bytes(bytes + more, max_bytes) == decode_rl_bytes(bytes, max_bytes),
    decreases max_bytes,
{
    assert(bytes.len() != 0);
    assert((bytes + more)[0] == bytes[0]);
    assert((bytes + more).len() != 0);
    if bytes[0] >= 128 {
        assert((bytes + more).drop_first() =~= bytes.drop_first() + more);
        lemma_decode_rl_extend(bytes.drop_first(), more, max_bytes - 1);
    }
}

/// Round trip of the Remaining Length codec: every value the 4-byte field
/// admits decodes back from its own encoding, consuming exactly the bytes
/// the encoding produced.
pub proof fn lemma_remaining_length_round_trip(n: int)
    requires
        0 <= n <= REMAINING_LENGTH_MAX,
    ensures
        decode_rl_spec(encode_rl_bytes(n)) == Some((n, encode_rl_bytes(n).len() as int)),
{
    lemma_encode_rl_len(n);
    lemma_rl_round_trip_rec(n, 4);
}

/// Generalisation of the round trip over the count of bytes still
/// allowed to be read.
proof fn lemma_rl_round_trip_rec(n: int, max_bytes: int)
    requires
        0 <= n,
        encode_rl_bytes(n).len() <= max_bytes,
    ensures
        decode_rl_bytes(encode_rl_bytes(n), max_bytes) == Some((
            n,
            encode_rl_bytes(n).len() as int,
        )),
    decreases max_bytes,
{
    if n < 128 {
        assert(encode_rl_bytes(n) =~= seq![n as u8]);
    } else {
        let first = (n % 128 + 128) as u8;
        let rest = encode_rl_bytes(n / 128);
        assert(encode_rl_bytes(n) =~= seq![first] + rest);
        assert(encode_rl_bytes(n)[0] == first);
        assert(first >= 128);
        assert(encode_rl_bytes(n).drop_first() =~= rest);
        lemma_rl_round_trip_rec(n / 128, max_bytes - 1);
        assert(first - 128 + 128 * (n / 128) == n);
    }
}

/// Encodes a Remaining Length value, as 1 to 4 bytes of seven value bits
/// each, least significant group first; values above
/// `REMAINING_LENGTH_MAX` do not fit the field and are refused.
pub fn encode_remaining_length(length: u32) -> (r: Result<Vec<u8>, EncodeError>)
    ensures
        length <= REMAINING_LENGTH_MAX ==> (r matches Ok(v) && v@ == encode_rl_bytes(
            length as int,
        ) && 1 <= v@.len() <= 4),
        length > REMAINING_LENGTH_MAX ==> r is Err,
{
    let ghost n = length as int;
    let mut remaining = length;
    let mut vec: Vec<u8> = Vec::new();
    while remaining >= 128
        invariant
            encode_rl_bytes(n) =~= vec@ + encode_rl_bytes(remaining as int),
            n >= 0,
        decreases remaining,
    {
        let encoded_byte: u8 = (remaining % 128 + 128) as u8;
        proof {
            assert(encode_rl_bytes(remaining as int) =~= seq![encoded_byte] + encode_rl_bytes(
                remaining as int / 128,
            ));
            assert(vec@ + encode_rl_bytes(remaining as int) =~= (vec@ + seq![encoded_byte])
                + encode_rl_bytes(remaining as int / 128));
        }
        vec.push(encoded_byte);
        remaining = remaining / 128;
    }
    proof {
        assert(encode_rl_bytes(remaining as int) =~= seq![remaining as u8]);
    }
    vec.push(remaining as u8);
    proof {
        assert(vec@ =~= encode_rl_bytes(n));
        lemma_encode_rl_len(n);
    }
    if vec.len() > 4 {
        Err(EncodeError)
    } else {
        Ok(vec)
    }
}

/// Decodes the Remaining Length field at `bytes[0..]`: the value and the
/// count of bytes it occupied, so that the caller can locate the fields
/// that follow.  Fails when no terminating byte falls within the 4-byte
/// bound, or when the buffer ends first.
pub fn decode_remaining_length(encoded: &[u8]) -> (r: Result<(u32, usize), DecodeError>)
    ensures
        match r {
            Ok(p) => {
                &&& decode_rl_spec(encoded@) == Some((p.0 as int, p.1 as int))
                &&& p.0 <= REMAINING_LENGTH_MAX
                &&& 1 <= p.1 <= 4
                &&& p.1 <= encoded@.len()
            },
            Err(_) => decode_rl_spec(encoded@) is None,
        },
{
    let mut multiplier: u32 = 1;
    let mut value: u32 = 0;
    let mut index: usize = 0;
    proof {
        assert(encoded@.skip(0) =~= encoded@);
    }
    loop
        invariant
            0 <= index <= 3,
            index <= encoded@.len(),
            multiplier == (if index == 0 {
                1u32
            } else if index == 1 {
                128u32
            } else if index == 2 {
                16384u32
            } else {
                2097152u32
            }),
            0 <= value < multiplier,
            decode_rl_spec(encoded@) == (match decode_rl_bytes(
                encoded@.skip(index as int),
                4 - index,
            ) {
                Some(p) => Some((value + multiplier * p.0, index + p.1)),
                None => None,
            }),
        decreases 3 - index,
    {
        if index >= encoded.len() {
            assert(encoded@.skip(index as int).len() == 0);
            return Err(DecodeError);
        }
        let b = encoded[index];
        let ghost tail = encoded@.skip(index as int);
        assert(tail[0] == b);
        if b < 128 {
            assert(decode_rl_bytes(tail, 4 - index) == Some((b as int, 1int)));
            proof {
                assert(multiplier <= 2097152);
                assert(value + multiplier * (b as int) < 268435456) by (nonlinear_arith)
                    requires
                        0 <= value < multiplier,
                        multiplier <= 2097152,
                        0 <= b < 128,
                ;
            }
            let result = value + multiplier * (b as u32);
            return Ok((result, index + 1));
        }
        let low = (b - 128) as u32;
        proof {
            assert(tail.drop_first() =~= encoded@.skip(index as int + 1));
            assert forall|p: (int, int)|
                decode_rl_bytes(tail.drop_first(), 4 - index - 1) == Some(p) implies value
                + multiplier * (low + 128 * p.0) == (value + multiplier * (low as int)) + (
            multiplier * 128) * p.0 by {
                assert(multiplier * (low + 128 * p.0) == multiplier * (low as int) + multiplier * (
                128 * p.0)) by (nonlinear_arith);
                assert(multiplier * (128 * p.0) == (multiplier * 128) * p.0) by (nonlinear_arith);
            }
        }
        if index == 3 {
            // a fourth continuation byte would force a fifth field byte
            assert(4 - index - 1 <= 0);
            assert(decode_rl_bytes(tail, 4 - index) is None);
            return Err(DecodeError);
        }
        proof {
            assert(multiplier <= 16384);
            assert(value + multiplier * (low as int) < multiplier * 128) by (nonlinear_arith)
                requires
                    0 <= value < multiplier,
                    0 <= low < 128,
                    multiplier >= 1,
            ;
            assert(multiplier * 128 <= 2097152);
        }
        value = value + multiplier * low;
        multiplier = multiplier * 128;
        index = index + 1;
    }
}

/// The fixed header every control packet begins with: the packet type and
/// its 4-bit flags packed into the first byte, then the Remaining Length
/// of everything that follows the fixed header itself.
#[derive(Debug, PartialEq, Eq, Structural, Clone, Copy)]
pub struct FixedHeader {
    pub packet_type: ControlPacketType,
    pub packet_flags: u8,
    pub remaining_length: u32,
}

/// The first wire byte of a fixed header: type code in the high nibble,
/// flags in the low nibble.
pub open spec fn fixed_header_first_byte(h: FixedHeader) -> u8 {
    (type_code(h.packet_type) * 16 + h.packet_flags % 16) as u8
}

/// The full wire form of a fixed header.
pub open spec fn fixed_header_bytes(h: FixedHeader) -> Seq<u8> {
    seq![fixed_header_first_byte(h)] + encode_rl_bytes(h.remaining_length as int)
}

impl FixedHeader {
    /// A header this codec will put on the wire: a known packet type,
    /// flags confined to their nibble, and a Remaining Length the 4-byte
    /// field can carry.
    pub open spec fn wf(self) -> bool {
        &&& self.packet_type != ControlPacketType::Unknown
        &&& self.packet_flags < 16
        &&& self.remaining_length <= REMAINING_LENGTH_MAX
    }

    /// Encodes the fixed header: the type/flags byte, then the Remaining
    /// Length field.
    pub fn encode(&self) -> (r: Vec<u8>)
        requires
            self.wf(),
        ensures
            r@ == fixed_header_bytes(*self),
            2 <= r@.len() <= 5,
    {
        let type_and_flags: u8 = self.packet_type.code() * 16 + self.packet_flags % 16;
        let mut vec: Vec<u8> = Vec::new();
        vec.push(type_and_flags);
        match encode_remaining_length(self.remaining_length) {
            Ok(mut length_bytes) => {
                proof {
                    assert(vec@ + length_bytes@ =~= fixed_header_bytes(*self));
                }
                vec.append(&mut length_bytes);
                vec
            },
            Err(_) => {
                // remaining_length is within bounds, so encoding cannot fail
                proof {
                    assert(false);
                }
                vec
            },
        }
    }

    /// Decodes a fixed header from the front of a buffer: the header and
    /// the count of bytes it occupied (1 type/flags byte plus 1 to 4
    /// Remaining Length bytes), so that variable-header parsing can
    /// resume at the right offset.
    pub fn decode(bytes: &[u8]) -> (r: Result<(FixedHeader, usize), DecodeError>)
        ensures
            match r {
                Ok(p) => {
                    &&& bytes@.len() >= 1
                    &&& p.0.packet_type == type_of_code(bytes@[0] / 16)
                    &&& p.0.packet_flags == bytes@[0] % 16
                    &&& decode_rl_spec(bytes@.skip(1)) == Some((
                        p.0.remaining_length as int,
                        p.1 - 1,
                    ))
                    &&& p.0.remaining_length <= REMAINING_LENGTH_MAX
                    &&& 2 <= p.1 <= 5
                    &&& p.1 <= bytes@.len()
                },
                Err(_) => bytes@.len() == 0 || decode_rl_spec(bytes@.skip(1)) is None,
            },
    {
        if bytes.len() == 0 {
            return Err(DecodeError);
        }
        let first = bytes[0];
        let packet_type = ControlPacketType::from_code(first / 16);
        let packet_flags = first % 16;
        let rest = vstd::slice::slice_subrange(bytes, 1, bytes.len());
        assert(rest@ =~= bytes@.skip(1));
        match decode_remaining_length(rest) {
            Ok((remaining_length, consumed)) => Ok(
                (FixedHeader { packet_type, packet_flags, remaining_length }, 1 + consumed),
            ),
            Err(e) => Err(e),
        }
    }
}

/// Round trip of the fixed header: decoding a buffer that starts with the
/// encoding of a well-formed header recovers the header exactly, whatever
/// follows it, and reports the width of what it consumed.
pub proof fn lemma_fixed_header_round_trip(h: FixedHeader, rest: Seq<u8>)
    requires
        h.wf(),
    ensures
        ({
            let bytes = fixed_header_bytes(h) + rest;
            &&& bytes.len() >= 1
            &&& type_of_code(bytes[0] / 16) == h.packet_type
            &&& bytes[0] % 16 == h.packet_flags
            &&& decode_rl_spec(bytes.skip(1)) == Some((
                h.remaining_length as int,
                encode_rl_bytes(h.remaining_length as int).len() as int,
            ))
        }),
{
    let bytes = fixed_header_bytes(h) + rest;
    let code = type_code(h.packet_type);
    assert(bytes[0] == fixed_header_first_byte(h));
    assert(code <= 14);
    assert((code * 16 + h.packet_flags % 16) / 16 == code) by (nonlinear_arith)
        requires
            0 <= code <= 14,
            0 <= h.packet_flags % 16 < 16,
    ;
    assert((code * 16 + h.packet_flags % 16) % 16 == h.packet_flags % 16) by (nonlinear_arith)
        requires
            0 <= code <= 14,
            0 <= h.packet_flags % 16 < 16,
    ;
    lemma_packet_type_code_round_trip(code, h.packet_type);
    lemma_remaining_length_round_trip(h.remaining_length as int);
    lemma_decode_rl_extend(encode_rl_bytes(h.remaining_length as int), rest, 4);
    assert(bytes.skip(1) =~= encode_rl_bytes(h.remaining_length as int) + rest);
}

/// The big-endian two-byte form of a 16-bit value.
pub open spec fn u16_be(v: int) -> Seq<u8> {
    seq![(v / 256) as u8, (v % 256) as u8]
}

/// The 16-bit value carried by two big-endian bytes.
pub open spec fn u16_be_val(hi: u8, lo: u8) -> int {
    hi * 256 + lo
}

/// Reads the big-endian u16 whose first byte sits at `offset`.
pub fn as_u16_be(bytes: &[u8], offset: usize) -> (r: u16)
    requires
        offset + 2 <= bytes@.len(),
    ensures
        r == u16_be_val(bytes@[offset as int], bytes@[offset + 1]),
{
    let hi = bytes[offset];
    let lo = bytes[offset + 1];
    hi as u16 * 256 + lo as u16
}

/// Appends the big-endian two-byte form of `v`.
pub fn push_u16_be(vec: &mut Vec<u8>, v: u16)
    ensures
        final(vec)@ == old(vec)@ + u16_be(v as int),
{
    let ghost orig = vec@;
    vec.push((v / 256) as u8);
    vec.push((v % 256) as u8);
    proof {
        assert(vec@ =~= orig + u16_be(v as int));
    }
}

/// A string or byte field as it sits in a packet: a big-endian two-byte
/// length prefix, then the bytes themselves.
pub open spec fn length_prefixed(bytes: Seq<u8>) -> Seq<u8> {
    u16_be(bytes.len() as int) + bytes
}

/// The byte count of a string's UTF-8 form, as the wire counts it.
pub fn str_byte_len(s: &String) -> (r: usize)
    ensures
        r == vstd::utf8::encode_utf8(s@).len(),
{
    s.as_str().as_bytes().len()
}

/// Appends a length-prefixed UTF-8 string field.
pub fn push_length_prefixed_str(vec: &mut Vec<u8>, s: &String)
    requires
        vstd::utf8::encode_utf8(s@).len() <= 0xFFFF,
    ensures
        final(vec)@ == old(vec)@ + length_prefixed(vstd::utf8::encode_utf8(s@)),
{
    let ghost orig = vec@;
    let bytes: &[u8] = s.as_str().as_bytes();
    push_u16_be(vec, bytes.len() as u16);
    vec.extend_from_slice(bytes);
    proof {
        assert(vec@ =~= orig + length_prefixed(vstd::utf8::encode_utf8(s@)));
    }
}

} // verus!
