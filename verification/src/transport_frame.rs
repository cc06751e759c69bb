//! Headers of the frames on transport channels.

use vstd::prelude::*;

use crate::bytes;

verus! {

/// Length of the header of a basic frame.
pub const TRANSPORT_BASIC_HDR_LEN: usize = 5;

/// Bytes that the header of an enhanced frame has more.
pub const TRANSPORT_ENH_HDR_EXTRA: usize = 2;

/// Length of the header of an enhanced frame.
pub const TRANSPORT_ENH_HDR_LEN: usize = 7;

/// Length of the checksum behind a frame.
pub const TRANSPORT_CRC_LEN: usize = 2;

/// Kinds of frames.
#[derive(Clone, Copy, Debug, PartialEq, Eq, Structural)]
pub enum TransportFrameType {
    /// Without sequence number.
    Basic,
    /// Several units in one frame.
    Aggregated,
    /// Part of a unit.
    Segmented,
    /// Data both ways, of the third kind.
    Bidi3,
    /// Data both ways, of the fourth kind.
    Bidi4,
    /// Acknowledgement.
    Ack,
}

impl TransportFrameType {
    /// Code of the kind.
    #[verifier::allow_in_spec]
    pub fn code(self) -> u8
        returns
            (match self {
                TransportFrameType::Basic => 0x00u8,
                TransportFrameType::Aggregated => 0x01u8,
                TransportFrameType::Segmented => 0x02u8,
                TransportFrameType::Bidi3 => 0x03u8,
                TransportFrameType::Bidi4 => 0x04u8,
                TransportFrameType::Ack => 0x05u8,
            }),
    {
        match self {
            TransportFrameType::Basic => 0x00,
            TransportFrameType::Aggregated => 0x01,
            TransportFrameType::Segmented => 0x02,
            TransportFrameType::Bidi3 => 0x03,
            TransportFrameType::Bidi4 => 0x04,
            TransportFrameType::Ack => 0x05,
        }
    }
}

/// Header of a frame.
#[derive(Clone, Copy, Debug, PartialEq, Eq, Structural)]
pub struct TransportHeader {
    /// Channel.
    pub tcid: u8,
    /// Kind of frame.
    pub frame_type: u8,
    /// Whether the frame is outgoing.
    pub outgoing: bool,
    /// Whether a checksum follows the frame.
    pub checksum: bool,
    /// Whether an answer is asked for.
    pub poll: bool,
    /// Length of the payload.
    pub length: u16,
    /// Protocol information.
    pub pi: u8,
    /// Sequence number, 0 in a basic frame.
    pub tx_seq: u16,
    /// Acknowledged sequence number, 0 in a frame that is no acknowledgement.
    pub req_seq: u16,
}

/// The header of a basic frame: channel, a flag for the checksum, length, protocol
/// information.
pub open spec fn basic_header(tcid: u8, pi: u8, data_len: u16, crc: bool) -> Seq<u8> {
    seq![
        tcid,
        if crc {
            0x04
        } else {
            0x00
        },
        bytes::lo8(data_len),
        bytes::hi8(data_len),
        pi,
    ]
}

/// The header of an enhanced frame: channel, kind and flags, length, protocol
/// information, sequence number of 14 bits. It is always followed by a checksum.
pub open spec fn enhanced_header(
    tcid: u8,
    frame_type: u8,
    pi: u8,
    tx_seq: u16,
    data_len: u16,
    poll: bool,
) -> Seq<u8> {
    seq![
        tcid,
        (16 * (frame_type % 16) + 4 + if poll {
            2int
        } else {
            0
        }) as u8,
        bytes::lo8(data_len),
        bytes::hi8(data_len),
        pi,
        bytes::lo8((tx_seq % 0x4000) as u16),
        bytes::hi8((tx_seq % 0x4000) as u16),
    ]
}

/// Writes the header of a basic frame to the start of `buf` and returns its length.
pub fn encode_basic_header(buf: &mut [u8], tcid: u8, pi: u8, data_len: u16, crc: bool) -> (r: usize)
    requires
        old(buf)@.len() >= TRANSPORT_BASIC_HDR_LEN,
    ensures
        r == TRANSPORT_BASIC_HDR_LEN,
        final(buf)@ == bytes::splice(old(buf)@, 0, basic_header(tcid, pi, data_len, crc)),
{
    buf[0] = tcid;
    buf[1] = if crc {
        0x04
    } else {
        0x00
    };
    buf[2] = bytes::lo8(data_len);
    buf[3] = bytes::hi8(data_len);
    buf[4] = pi;
    TRANSPORT_BASIC_HDR_LEN
}

/// Writes the header of an enhanced frame to the start of `buf` and returns its length.
/// The low four bits of the kind and the low 14 bits of the sequence number count.
pub fn encode_enhanced_header(
    buf: &mut [u8],
    tcid: u8,
    frame_type: u8,
    pi: u8,
    tx_seq: u16,
    data_len: u16,
    poll: bool,
) -> (r: usize)
    requires
        old(buf)@.len() >= TRANSPORT_ENH_HDR_LEN,
    ensures
        r == TRANSPORT_ENH_HDR_LEN,
        final(buf)@ == bytes::splice(
            old(buf)@,
            0,
            enhanced_header(tcid, frame_type, pi, tx_seq, data_len, poll),
        ),
{
    let p_bit: u8 = if poll {
        2
    } else {
        0
    };
    let seq = tx_seq % 0x4000;
    buf[0] = tcid;
    buf[1] = 16 * (frame_type % 16) + 4 + p_bit;
    buf[2] = bytes::lo8(data_len);
    buf[3] = bytes::hi8(data_len);
    buf[4] = pi;
    buf[5] = bytes::lo8(seq);
    buf[6] = bytes::hi8(seq);
    TRANSPORT_ENH_HDR_LEN
}

/// The header at the start of `s`, unless it is cut off. Kinds other than 0 have the
/// longer header.
pub open spec fn header_of(s: Seq<u8>) -> Option<TransportHeader> {
    if s.len() < TRANSPORT_BASIC_HDR_LEN || (s[1] / 16 != 0 && s.len() < TRANSPORT_ENH_HDR_LEN) {
        None
    } else {
        let kind = s[1] / 16;
        let seq = if kind != 0 {
            (bytes::le16(s[5], s[6]) % 0x4000) as u16
        } else {
            0
        };
        Some(
            TransportHeader {
                tcid: s[0],
                frame_type: kind,
                outgoing: (s[1] / 8) % 2 == 1,
                checksum: (s[1] / 4) % 2 == 1,
                poll: (s[1] / 2) % 2 == 1,
                length: bytes::le16(s[2], s[3]),
                pi: s[4],
                tx_seq: seq,
                req_seq: if kind == TransportFrameType::Ack.code() {
                    seq
                } else {
                    0
                },
            },
        )
    }
}

/// Reads the header at the start of `data`. None where it is cut off.
pub fn parse_transport_header(data: &[u8]) -> (r: Option<TransportHeader>)
    ensures
        r == header_of(data@),
{
    if data.len() < TRANSPORT_BASIC_HDR_LEN {
        return None;
    }
    let flags = data[1];
    let frame_type = flags / 16;
    let tx_seq = if frame_type != 0 {
        if data.len() < TRANSPORT_ENH_HDR_LEN {
            return None;
        }
        bytes::le16(data[5], data[6]) % 0x4000
    } else {
        0
    };
    let req_seq = if frame_type == TransportFrameType::Ack.code() {
        tx_seq
    } else {
        0
    };
    Some(
        TransportHeader {
            tcid: data[0],
            frame_type,
            outgoing: (flags / 8) % 2 == 1,
            checksum: (flags / 4) % 2 == 1,
            poll: (flags / 2) % 2 == 1,
            length: bytes::le16(data[2], data[3]),
            pi: data[4],
            tx_seq,
            req_seq,
        },
    )
}

/// The header of a basic frame is read back as it was written, whatever follows it.
pub proof fn basic_round_trip(tcid: u8, pi: u8, data_len: u16, crc: bool, rest: Seq<u8>)
    ensures
        header_of(basic_header(tcid, pi, data_len, crc) + rest) == Some(
            TransportHeader {
                tcid,
                frame_type: 0,
                outgoing: false,
                checksum: crc,
                poll: false,
                length: data_len,
                pi,
                tx_seq: 0,
                req_seq: 0,
            },
        ),
{
    broadcast use bytes::le16_of_bytes;
}

/// The header of an enhanced frame is read back as it was written, whatever follows it.
pub proof fn enhanced_round_trip(
    tcid: u8,
    frame_type: u8,
    pi: u8,
    tx_seq: u16,
    data_len: u16,
    poll: bool,
    rest: Seq<u8>,
)
    requires
        1 <= frame_type < 16,
        tx_seq < 0x4000,
    ensures
        header_of(enhanced_header(tcid, frame_type, pi, tx_seq, data_len, poll) + rest) == Some(
            TransportHeader {
                tcid,
                frame_type,
                outgoing: false,
                checksum: true,
                poll,
                length: data_len,
                pi,
                tx_seq,
                req_seq: if frame_type == TransportFrameType::Ack.code() {
                    tx_seq
                } else {
                    0
                },
            },
        ),
{
    broadcast use bytes::le16_of_bytes;
    let s = enhanced_header(tcid, frame_type, pi, tx_seq, data_len, poll) + rest;
    assert(s[5] == bytes::lo8(tx_seq) && s[6] == bytes::hi8(tx_seq));
}

} // verus!
