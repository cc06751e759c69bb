//! Packets of the advertising channel.

use vstd::prelude::*;
use vstd::slice::slice_subrange;

use crate::bytes;
use crate::errno::Errno;
use crate::sle_crc;

verus! {

/// Longest payload of an advertising packet.
pub const SLE_ADV_DATA_MAX: usize = 255;

/// What others may do with an advertiser.
#[derive(Clone, Copy, Debug, PartialEq, Eq, Structural)]
pub enum BroadcastType {
    /// Neither connect nor scan.
    NoAccessNoScan,
    /// Connect but not scan.
    AccessibleNoScan,
    /// Scan but not connect.
    NoAccessScannable,
    /// Connect and scan.
    AccessibleScannable,
}

impl BroadcastType {
    /// Code of the kind.
    #[verifier::allow_in_spec]
    pub fn code(self) -> u8
        returns
            (match self {
                BroadcastType::NoAccessNoScan => 0u8,
                BroadcastType::AccessibleNoScan => 1u8,
                BroadcastType::NoAccessScannable => 2u8,
                BroadcastType::AccessibleScannable => 3u8,
            }),
    {
        match self {
            BroadcastType::NoAccessNoScan => 0,
            BroadcastType::AccessibleNoScan => 1,
            BroadcastType::NoAccessScannable => 2,
            BroadcastType::AccessibleScannable => 3,
        }
    }

    /// The kind of the low three bits of `v`, if there is one.
    #[verifier::allow_in_spec]
    pub fn from_raw(v: u8) -> Option<BroadcastType>
        returns
            (if v % 8 == 0 {
                Some(BroadcastType::NoAccessNoScan)
            } else if v % 8 == 1 {
                Some(BroadcastType::AccessibleNoScan)
            } else if v % 8 == 2 {
                Some(BroadcastType::NoAccessScannable)
            } else if v % 8 == 3 {
                Some(BroadcastType::AccessibleScannable)
            } else {
                None
            }),
    {
        match v % 8 {
            0 => Some(BroadcastType::NoAccessNoScan),
            1 => Some(BroadcastType::AccessibleNoScan),
            2 => Some(BroadcastType::NoAccessScannable),
            3 => Some(BroadcastType::AccessibleScannable),
            _ => None,
        }
    }
}

impl Default for BroadcastType {
    fn default() -> (r: Self)
        ensures
            r == BroadcastType::NoAccessNoScan,
    {
        BroadcastType::NoAccessNoScan
    }
}

/// Kinds of packets on the advertising channel.
#[derive(Clone, Copy, Debug, PartialEq, Eq, Structural)]
pub enum PacketType {
    /// Advertisement.
    BasicAdv,
    /// Extended advertisement.
    ExtendedAdv,
    /// Request for more.
    ScanRequest,
    /// Answer to a scan request.
    ScanResponse,
    /// Request to connect.
    AccessRequest,
    /// Answer to an access request.
    AccessResponse,
}

impl PacketType {
    /// Code of the kind.
    #[verifier::allow_in_spec]
    pub fn code(self) -> u8
        returns
            (match self {
                PacketType::BasicAdv => 0u8,
                PacketType::ExtendedAdv => 1u8,
                PacketType::ScanRequest => 2u8,
                PacketType::ScanResponse => 3u8,
                PacketType::AccessRequest => 4u8,
                PacketType::AccessResponse => 5u8,
            }),
    {
        match self {
            PacketType::BasicAdv => 0,
            PacketType::ExtendedAdv => 1,
            PacketType::ScanRequest => 2,
            PacketType::ScanResponse => 3,
            PacketType::AccessRequest => 4,
            PacketType::AccessResponse => 5,
        }
    }

    /// The kind of the low three bits of `v`, if there is one.
    #[verifier::allow_in_spec]
    pub fn from_raw(v: u8) -> Option<PacketType>
        returns
            (if v % 8 == 0 {
                Some(PacketType::BasicAdv)
            } else if v % 8 == 1 {
                Some(PacketType::ExtendedAdv)
            } else if v % 8 == 2 {
                Some(PacketType::ScanRequest)
            } else if v % 8 == 3 {
                Some(PacketType::ScanResponse)
            } else if v % 8 == 4 {
                Some(PacketType::AccessRequest)
            } else if v % 8 == 5 {
                Some(PacketType::AccessResponse)
            } else {
                None
            }),
    {
        match v % 8 {
            0 => Some(PacketType::BasicAdv),
            1 => Some(PacketType::ExtendedAdv),
            2 => Some(PacketType::ScanRequest),
            3 => Some(PacketType::ScanResponse),
            4 => Some(PacketType::AccessRequest),
            5 => Some(PacketType::AccessResponse),
            _ => None,
        }
    }
}

impl Default for PacketType {
    fn default() -> (r: Self)
        ensures
            r == PacketType::BasicAdv,
    {
        PacketType::BasicAdv
    }
}

/// Header of an advertising packet: eight bits of link quality, three of the broadcast
/// kind, three of the packet kind, six reserved, eight of the length and four reserved,
/// lowest first.
#[derive(Clone, Copy, Debug, PartialEq, Eq, Structural)]
pub struct AdvPduHeader {
    /// Link quality.
    pub link_quality: u8,
    /// What others may do.
    pub broadcast_type: BroadcastType,
    /// Kind of packet.
    pub packet_type: PacketType,
    /// Length of the payload.
    pub data_length: u8,
}

impl Default for AdvPduHeader {
    fn default() -> (r: Self)
        ensures
            r == (AdvPduHeader {
                link_quality: 0,
                broadcast_type: BroadcastType::NoAccessNoScan,
                packet_type: PacketType::BasicAdv,
                data_length: 0,
            }),
    {
        AdvPduHeader {
            link_quality: 0,
            broadcast_type: BroadcastType::NoAccessNoScan,
            packet_type: PacketType::BasicAdv,
            data_length: 0,
        }
    }
}

impl AdvPduHeader {
    /// The header as one number.
    pub open spec fn word(self) -> u32 {
        (self.link_quality + 0x100 * self.broadcast_type.code() + 0x800 * self.packet_type.code()
            + 0x10_0000 * self.data_length) as u32
    }

    /// The header of a number, unless one of the kinds is unknown.
    pub open spec fn of_word(w: u32) -> Option<AdvPduHeader> {
        match (
            BroadcastType::from_raw(((w / 0x100) % 8) as u8),
            PacketType::from_raw(((w / 0x800) % 8) as u8),
        ) {
            (Some(b), Some(p)) => Some(
                AdvPduHeader {
                    link_quality: (w % 0x100) as u8,
                    broadcast_type: b,
                    packet_type: p,
                    data_length: ((w / 0x10_0000) % 0x100) as u8,
                },
            ),
            _ => None,
        }
    }

    /// The four bytes of the header, without a checksum.
    pub fn encode(&self) -> (r: [u8; 4])
        ensures
            r@ == bytes::le32_bytes(self.word()),
    {
        let w = self.link_quality as u32 + 0x100 * (self.broadcast_type.code() as u32) + 0x800 * (
        self.packet_type.code() as u32) + 0x10_0000 * (self.data_length as u32);
        let r = [
            bytes::lo8(bytes::lo16(w)),
            bytes::hi8(bytes::lo16(w)),
            bytes::lo8(bytes::hi16(w)),
            bytes::hi8(bytes::hi16(w)),
        ];
        assert(r@ == bytes::le32_bytes(w));
        r
    }

    /// The header of four bytes, unless one of the kinds is unknown. The checksum is not
    /// looked at.
    pub fn decode(buf: &[u8; 4]) -> (r: Option<Self>)
        ensures
            r == Self::of_word(bytes::le32(buf@[0], buf@[1], buf@[2], buf@[3])),
    {
        let w = bytes::le32(buf[0], buf[1], buf[2], buf[3]);
        let broadcast_type = match BroadcastType::from_raw(((w / 0x100) % 8) as u8) {
            Some(b) => b,
            None => return None,
        };
        let packet_type = match PacketType::from_raw(((w / 0x800) % 8) as u8) {
            Some(p) => p,
            None => return None,
        };
        Some(
            AdvPduHeader {
                link_quality: (w % 0x100) as u8,
                broadcast_type,
                packet_type,
                data_length: ((w / 0x10_0000) % 0x100) as u8,
            },
        )
    }
}

/// Reading a header back gives the header that was written.
pub proof fn header_round_trip(h: AdvPduHeader)
    ensures
        AdvPduHeader::of_word(h.word()) == Some(h),
{
    fields(
        h.link_quality as int,
        h.broadcast_type.code() as int,
        h.packet_type.code() as int,
        h.data_length as int,
    );
}

proof fn fields(q: int, b: int, p: int, d: int)
    requires
        0 <= q < 0x100,
        0 <= b < 8,
        0 <= p < 8,
        0 <= d < 0x100,
    ensures
        ({
            let w = q + 0x100 * b + 0x800 * p + 0x10_0000 * d;
            &&& 0 <= w < 0x1_0000_0000
            &&& w % 0x100 == q
            &&& (w / 0x100) % 8 == b
            &&& (w / 0x800) % 8 == p
            &&& (w / 0x10_0000) % 0x100 == d
        }),
{
    let w = q + 0x100 * b + 0x800 * p + 0x10_0000 * d;
    assert(w / 0x100 == b + 8 * p + 0x1000 * d);
    assert(w / 0x800 == p + 0x200 * d);
    assert(w / 0x10_0000 == d);
}

/// Kinds of advertising data.
#[derive(Clone, Copy, Debug, PartialEq, Eq, Structural)]
pub enum AdvDataType {
    /// Discovery level.
    DiscoveryLevel,
    /// Capability of the access layer.
    AccessCapability,
    /// Data of a standard service.
    StdServiceData,
    /// Data of a custom service.
    CustomServiceData,
    /// All standard services.
    FullStdServiceList,
    /// All custom services.
    FullCustomServiceList,
    /// Some standard services.
    PartialStdServiceList,
    /// Some custom services.
    PartialCustomServiceList,
    /// Hash of the services.
    ServiceHash,
    /// Shortened name.
    ShortName,
    /// Full name.
    CompleteName,
    /// Transmit power.
    TxPower,
    /// Name of the communication domain.
    SlbDomainName,
    /// Basic address.
    SlbMacAddr,
    /// Low energy address.
    SleMacAddr,
    /// Multi-hop networking.
    MultiHop,
    /// Data of a manufacturer.
    ManufacturerSpecific,
}

impl AdvDataType {
    /// Code of the kind.
    #[verifier::allow_in_spec]
    pub fn code(self) -> u8
        returns
            (match self {
                AdvDataType::DiscoveryLevel => 0x01u8,
                AdvDataType::AccessCapability => 0x02u8,
                AdvDataType::StdServiceData => 0x03u8,
                AdvDataType::CustomServiceData => 0x04u8,
                AdvDataType::FullStdServiceList => 0x05u8,
                AdvDataType::FullCustomServiceList => 0x06u8,
                AdvDataType::PartialStdServiceList => 0x07u8,
                AdvDataType::PartialCustomServiceList => 0x08u8,
                AdvDataType::ServiceHash => 0x09u8,
                AdvDataType::ShortName => 0x0Au8,
                AdvDataType::CompleteName => 0x0Bu8,
                AdvDataType::TxPower => 0x0Cu8,
                AdvDataType::SlbDomainName => 0x0Du8,
                AdvDataType::SlbMacAddr => 0x0Eu8,
                AdvDataType::SleMacAddr => 0x0Fu8,
                AdvDataType::MultiHop => 0x10u8,
                AdvDataType::ManufacturerSpecific => 0xFFu8,
            }),
    {
        match self {
            AdvDataType::DiscoveryLevel => 0x01,
            AdvDataType::AccessCapability => 0x02,
            AdvDataType::StdServiceData => 0x03,
            AdvDataType::CustomServiceData => 0x04,
            AdvDataType::FullStdServiceList => 0x05,
            AdvDataType::FullCustomServiceList => 0x06,
            AdvDataType::PartialStdServiceList => 0x07,
            AdvDataType::PartialCustomServiceList => 0x08,
            AdvDataType::ServiceHash => 0x09,
            AdvDataType::ShortName => 0x0A,
            AdvDataType::CompleteName => 0x0B,
            AdvDataType::TxPower => 0x0C,
            AdvDataType::SlbDomainName => 0x0D,
            AdvDataType::SlbMacAddr => 0x0E,
            AdvDataType::SleMacAddr => 0x0F,
            AdvDataType::MultiHop => 0x10,
            AdvDataType::ManufacturerSpecific => 0xFF,
        }
    }

    /// The kind of a code, if there is one.
    #[verifier::allow_in_spec]
    pub fn from_raw(v: u8) -> Option<AdvDataType>
        returns
            (if v == 0x01 {
                Some(AdvDataType::DiscoveryLevel)
            } else if v == 0x02 {
                Some(AdvDataType::AccessCapability)
            } else if v == 0x03 {
                Some(AdvDataType::StdServiceData)
            } else if v == 0x04 {
                Some(AdvDataType::CustomServiceData)
            } else if v == 0x05 {
                Some(AdvDataType::FullStdServiceList)
            } else if v == 0x06 {
                Some(AdvDataType::FullCustomServiceList)
            } else if v == 0x07 {
                Some(AdvDataType::PartialStdServiceList)
            } else if v == 0x08 {
                Some(AdvDataType::PartialCustomServiceList)
            } else if v == 0x09 {
                Some(AdvDataType::ServiceHash)
            } else if v == 0x0A {
                Some(AdvDataType::ShortName)
            } else if v == 0x0B {
                Some(AdvDataType::CompleteName)
            } else if v == 0x0C {
                Some(AdvDataType::TxPower)
            } else if v == 0x0D {
                Some(AdvDataType::SlbDomainName)
            } else if v == 0x0E {
                Some(AdvDataType::SlbMacAddr)
            } else if v == 0x0F {
                Some(AdvDataType::SleMacAddr)
            } else if v == 0x10 {
                Some(AdvDataType::MultiHop)
            } else if v == 0xFF {
                Some(AdvDataType::ManufacturerSpecific)
            } else {
                None
            }),
    {
        match v {
            0x01 => Some(AdvDataType::DiscoveryLevel),
            0x02 => Some(AdvDataType::AccessCapability),
            0x03 => Some(AdvDataType::StdServiceData),
            0x04 => Some(AdvDataType::CustomServiceData),
            0x05 => Some(AdvDataType::FullStdServiceList),
            0x06 => Some(AdvDataType::FullCustomServiceList),
            0x07 => Some(AdvDataType::PartialStdServiceList),
            0x08 => Some(AdvDataType::PartialCustomServiceList),
            0x09 => Some(AdvDataType::ServiceHash),
            0x0A => Some(AdvDataType::ShortName),
            0x0B => Some(AdvDataType::CompleteName),
            0x0C => Some(AdvDataType::TxPower),
            0x0D => Some(AdvDataType::SlbDomainName),
            0x0E => Some(AdvDataType::SlbMacAddr),
            0x0F => Some(AdvDataType::SleMacAddr),
            0x10 => Some(AdvDataType::MultiHop),
            0xFF => Some(AdvDataType::ManufacturerSpecific),
            _ => None,
        }
    }
}

/// An element of advertising data: kind, length of the value, value.
pub open spec fn tlv(typ: u8, value: Seq<u8>) -> Seq<u8> {
    seq![typ, value.len() as u8] + value
}

/// Whether advertising data begin with a whole element.
pub open spec fn starts_whole(s: Seq<u8>) -> bool {
    s.len() >= 2 && 2 + s[1] <= s.len()
}

/// The elements of advertising data as kind and value, up to one that is cut off.
pub open spec fn elements(s: Seq<u8>) -> Seq<(u8, Seq<u8>)>
    decreases s.len(),
{
    if starts_whole(s) {
        seq![(s[0], s.subrange(2, 2 + s[1]))] + elements(s.skip(2 + s[1]))
    } else {
        Seq::empty()
    }
}

/// Whether advertising data consist of whole elements.
pub open spec fn whole(s: Seq<u8>) -> bool
    decreases s.len(),
{
    s.len() == 0 || (starts_whole(s) && whole(s.skip(2 + s[1])))
}

/// An element that is appended to whole elements comes out last, and the data stay
/// whole.
pub proof fn appended_comes_last(s: Seq<u8>, typ: u8, value: Seq<u8>)
    requires
        whole(s),
        value.len() <= 255,
    ensures
        elements(s + tlv(typ, value)) == elements(s).push((typ, value)),
        whole(s + tlv(typ, value)),
    decreases s.len(),
{
    let t = s + tlv(typ, value);
    if s.len() == 0 {
        assert(t =~= tlv(typ, value));
        assert(t.subrange(2, 2 + t[1]) =~= value);
        assert(t.skip(2 + t[1]) =~= Seq::<u8>::empty());
        assert(elements(t.skip(2 + t[1])) =~= Seq::empty());
        assert(whole(t.skip(2 + t[1])));
        assert(elements(t) =~= elements(s).push((typ, value)));
    } else {
        let n = 2 + s[1];
        appended_comes_last(s.skip(n), typ, value);
        assert(t[0] == s[0] && t[1] == s[1]);
        assert(t.subrange(2, n) =~= s.subrange(2, n));
        assert(t.skip(n) =~= s.skip(n) + tlv(typ, value));
        assert(whole(t.skip(n)));
        assert(elements(t) =~= elements(s).push((typ, value)));
    }
}

/// The 16-bit identifiers `s` as bytes, each low byte first.
pub open spec fn uuid16_bytes(s: Seq<u16>) -> Seq<u8>
    decreases s.len(),
{
    if s.len() == 0 {
        Seq::empty()
    } else {
        uuid16_bytes(s.drop_last()) + bytes::le16_bytes(s.last())
    }
}

/// The 128-bit identifiers `s`, one after the other.
pub open spec fn uuid128_bytes(s: Seq<[u8; 16]>) -> Seq<u8>
    decreases s.len(),
{
    if s.len() == 0 {
        Seq::empty()
    } else {
        uuid128_bytes(s.drop_last()) + s.last()@
    }
}

/// Collects advertising data, at most 255 bytes.
pub struct AdvDataBuilder {
    buf: Vec<u8>,
}

impl View for AdvDataBuilder {
    type V = Seq<u8>;

    closed spec fn view(&self) -> Seq<u8> {
        self.buf@
    }
}

/// Whether `after` and `r` are the outcome of appending an element to `before`: it is
/// there, or there was no room for it and nothing changed.
pub open spec fn appended(
    before: Seq<u8>,
    typ: u8,
    value: Seq<u8>,
    after: Seq<u8>,
    r: Result<(), Errno>,
) -> bool {
    if before.len() + 2 + value.len() > SLE_ADV_DATA_MAX {
        r == Err::<(), Errno>(Errno::ENOMEM) && after == before
    } else {
        r == Ok::<(), Errno>(()) && after == before + tlv(typ, value)
    }
}

impl AdvDataBuilder {
    /// At most 255 bytes are collected.
    pub open spec fn wf(self) -> bool {
        self@.len() <= SLE_ADV_DATA_MAX
    }

    /// No data yet.
    pub fn new() -> (r: Self)
        ensures
            r.wf(),
            r@ == Seq::<u8>::empty(),
    {
        AdvDataBuilder { buf: Vec::new() }
    }

    /// Room that is left.
    pub fn remaining(&self) -> (r: usize)
        requires
            self.wf(),
        ensures
            r == SLE_ADV_DATA_MAX - self@.len(),
    {
        SLE_ADV_DATA_MAX - self.buf.len()
    }

    /// Bytes so far.
    pub fn len(&self) -> (r: usize)
        ensures
            r == self@.len(),
    {
        self.buf.len()
    }

    /// Appends an element, or returns `ENOMEM` where there is no room for it.
    pub fn push_tlv(&mut self, typ: u8, value: &[u8]) -> (r: Result<(), Errno>)
        requires
            old(self).wf(),
        ensures
            final(self).wf(),
            appended(old(self)@, typ, value@, final(self)@, r),
    {
        let room = self.remaining();
        if room < 2 || value.len() > room - 2 {
            return Err(Errno::ENOMEM);
        }
        self.buf.push(typ);
        self.buf.push(value.len() as u8);
        bytes::extend(&mut self.buf, value);
        assert(self@ =~= old(self)@ + tlv(typ, value@));
        Ok(())
    }

    /// Appends a discovery level; its low three bits count.
    pub fn push_discovery_level(&mut self, level: u8) -> (r: Result<(), Errno>)
        requires
            old(self).wf(),
        ensures
            final(self).wf(),
            appended(old(self)@, 0x01, seq![(level % 8) as u8], final(self)@, r),
    {
        let v: [u8; 1] = [level % 8];
        assert(v@ =~= seq![(level % 8) as u8]);
        self.push_tlv(AdvDataType::DiscoveryLevel.code(), &v)
    }

    /// Appends a full name.
    pub fn push_complete_name(&mut self, name: &[u8]) -> (r: Result<(), Errno>)
        requires
            old(self).wf(),
        ensures
            final(self).wf(),
            appended(old(self)@, 0x0B, name@, final(self)@, r),
    {
        self.push_tlv(AdvDataType::CompleteName.code(), name)
    }

    /// Appends a shortened name.
    pub fn push_short_name(&mut self, name: &[u8]) -> (r: Result<(), Errno>)
        requires
            old(self).wf(),
        ensures
            final(self).wf(),
            appended(old(self)@, 0x0A, name@, final(self)@, r),
    {
        self.push_tlv(AdvDataType::ShortName.code(), name)
    }

    /// Appends a transmit power, in two's complement.
    pub fn push_tx_power(&mut self, dbm: i8) -> (r: Result<(), Errno>)
        requires
            old(self).wf(),
        ensures
            final(self).wf(),
            appended(
                old(self)@,
                0x0C,
                seq![bytes::i8_byte(dbm)],
                final(self)@,
                r,
            ),
    {
        let b = bytes::i8_byte(dbm);
        let v: [u8; 1] = [b];
        assert(v@ =~= seq![b]);
        self.push_tlv(AdvDataType::TxPower.code(), &v)
    }

    /// Appends an address.
    pub fn push_sle_addr(&mut self, addr: &[u8; 6]) -> (r: Result<(), Errno>)
        requires
            old(self).wf(),
        ensures
            final(self).wf(),
            appended(old(self)@, 0x0F, addr@, final(self)@, r),
    {
        self.push_tlv(AdvDataType::SleMacAddr.code(), addr)
    }

    /// Appends the list of all standard services; no services, no list.
    pub fn push_std_service_list(&mut self, uuids: &[u16]) -> (r: Result<(), Errno>)
        requires
            old(self).wf(),
        ensures
            final(self).wf(),
            if uuids@.len() == 0 {
                r == Ok::<(), Errno>(()) && final(self)@ == old(self)@
            } else {
                appended(old(self)@, 0x05, uuid16_bytes(uuids@), final(self)@, r)
            },
    {
        proof {
            uuid16_len(uuids@);
        }
        if uuids.len() == 0 {
            return Ok(());
        }
        if uuids.len() > SLE_ADV_DATA_MAX {
            return Err(Errno::ENOMEM);
        }
        let mut value: Vec<u8> = Vec::new();
        let mut i: usize = 0;
        while i < uuids.len()
            invariant
                i <= uuids.len(),
                value@ == uuid16_bytes(uuids@.take(i as int)),
            decreases uuids.len() - i,
        {
            bytes::push_le16(&mut value, uuids[i]);
            proof {
                let t = uuids@.take(i + 1);
                assert(t.drop_last() == uuids@.take(i as int));
                assert(t.last() == uuids@[i as int]);
            }
            i = i + 1;
        }
        assert(uuids@.take(i as int) == uuids@);
        self.push_tlv(AdvDataType::FullStdServiceList.code(), value.as_slice())
    }

    /// Appends the list of all custom services; no services, no list.
    pub fn push_custom_service_list(&mut self, uuids: &[[u8; 16]]) -> (r: Result<(), Errno>)
        requires
            old(self).wf(),
        ensures
            final(self).wf(),
            if uuids@.len() == 0 {
                r == Ok::<(), Errno>(()) && final(self)@ == old(self)@
            } else {
                appended(old(self)@, 0x06, uuid128_bytes(uuids@), final(self)@, r)
            },
    {
        proof {
            uuid128_len(uuids@);
        }
        if uuids.len() == 0 {
            return Ok(());
        }
        if uuids.len() > SLE_ADV_DATA_MAX {
            return Err(Errno::ENOMEM);
        }
        let mut value: Vec<u8> = Vec::new();
        let mut i: usize = 0;
        while i < uuids.len()
            invariant
                i <= uuids.len(),
                value@ == uuid128_bytes(uuids@.take(i as int)),
            decreases uuids.len() - i,
        {
            bytes::extend(&mut value, &uuids[i]);
            proof {
                let t = uuids@.take(i + 1);
                assert(t.drop_last() == uuids@.take(i as int));
                assert(t.last() == uuids@[i as int]);
            }
            i = i + 1;
        }
        assert(uuids@.take(i as int) == uuids@);
        self.push_tlv(AdvDataType::FullCustomServiceList.code(), value.as_slice())
    }

    fn push_tagged(&mut self, typ: u8, tag: u16, data: &[u8]) -> (r: Result<(), Errno>)
        requires
            old(self).wf(),
        ensures
            final(self).wf(),
            appended(old(self)@, typ, bytes::le16_bytes(tag) + data@, final(self)@, r),
    {
        if data.len() > SLE_ADV_DATA_MAX {
            return Err(Errno::ENOMEM);
        }
        let mut value: Vec<u8> = Vec::new();
        bytes::push_le16(&mut value, tag);
        bytes::extend(&mut value, data);
        assert(value@ =~= bytes::le16_bytes(tag) + data@);
        self.push_tlv(typ, value.as_slice())
    }

    /// Appends the data of a standard service behind its identifier.
    pub fn push_std_service_data(&mut self, uuid: u16, data: &[u8]) -> (r: Result<(), Errno>)
        requires
            old(self).wf(),
        ensures
            final(self).wf(),
            appended(old(self)@, 0x03, bytes::le16_bytes(uuid) + data@, final(self)@, r),
    {
        self.push_tagged(AdvDataType::StdServiceData.code(), uuid, data)
    }

    /// Appends the hash of the services.
    pub fn push_service_hash(&mut self, hash: &[u8; 16]) -> (r: Result<(), Errno>)
        requires
            old(self).wf(),
        ensures
            final(self).wf(),
            appended(old(self)@, 0x09, hash@, final(self)@, r),
    {
        self.push_tlv(AdvDataType::ServiceHash.code(), hash)
    }

    /// Appends the capability of the access layer.
    pub fn push_access_capability(&mut self, cap: u8) -> (r: Result<(), Errno>)
        requires
            old(self).wf(),
        ensures
            final(self).wf(),
            appended(old(self)@, 0x02, seq![cap], final(self)@, r),
    {
        let v: [u8; 1] = [cap];
        assert(v@ =~= seq![cap]);
        self.push_tlv(AdvDataType::AccessCapability.code(), &v)
    }

    /// Appends the data of a manufacturer behind its identifier.
    pub fn push_manufacturer_specific(&mut self, vendor_id: u16, data: &[u8]) -> (r: Result<
        (),
        Errno,
    >)
        requires
            old(self).wf(),
        ensures
            final(self).wf(),
            appended(old(self)@, 0xFF, bytes::le16_bytes(vendor_id) + data@, final(self)@, r),
    {
        self.push_tagged(AdvDataType::ManufacturerSpecific.code(), vendor_id, data)
    }

    /// Appends bytes as they are, or returns `ENOMEM` where there is no room for them.
    pub fn push_raw(&mut self, data: &[u8]) -> (r: Result<(), Errno>)
        requires
            old(self).wf(),
        ensures
            final(self).wf(),
            if old(self)@.len() + data@.len() > SLE_ADV_DATA_MAX {
                r == Err::<(), Errno>(Errno::ENOMEM) && final(self)@ == old(self)@
            } else {
                r == Ok::<(), Errno>(()) && final(self)@ == old(self)@ + data@
            },
    {
        if data.len() > self.remaining() {
            return Err(Errno::ENOMEM);
        }
        bytes::extend(&mut self.buf, data);
        Ok(())
    }

    /// The data.
    pub fn as_bytes(&self) -> (r: &[u8])
        ensures
            r@ == self@,
    {
        self.buf.as_slice()
    }
}

proof fn uuid16_len(s: Seq<u16>)
    ensures
        uuid16_bytes(s).len() == 2 * s.len(),
    decreases s.len(),
{
    if s.len() > 0 {
        uuid16_len(s.drop_last());
    }
}

proof fn uuid128_len(s: Seq<[u8; 16]>)
    ensures
        uuid128_bytes(s).len() == 16 * s.len(),
    decreases s.len(),
{
    if s.len() > 0 {
        uuid128_len(s.drop_last());
    }
}

/// An element of advertising data.
#[derive(Clone, Copy)]
pub struct AdvDataEntry<'a> {
    /// Kind.
    pub typ: u8,
    /// Value.
    pub value: &'a [u8],
}

/// Walks over the elements of advertising data.
pub struct AdvDataIter<'a> {
    data: &'a [u8],
    pos: usize,
}

impl<'a> AdvDataIter<'a> {
    /// The place lies within the data.
    pub closed spec fn wf(self) -> bool {
        self.pos <= self.data@.len()
    }

    /// The data that were not looked at yet.
    pub closed spec fn rest(self) -> Seq<u8> {
        self.data@.skip(self.pos as int)
    }

    /// Starts at the first element.
    pub fn new(data: &'a [u8]) -> (r: Self)
        ensures
            r.wf(),
            r.rest() == data@,
    {
        AdvDataIter { data, pos: 0 }
    }

    /// The next element; none where no whole element is left.
    pub fn next(&mut self) -> (r: Option<AdvDataEntry<'a>>)
        requires
            old(self).wf(),
        ensures
            final(self).wf(),
            if starts_whole(old(self).rest()) {
                let s = old(self).rest();
                &&& r matches Some(e) && (e.typ, e.value@) == elements(s)[0]
                &&& final(self).rest() == s.skip(2 + s[1])
                &&& elements(final(self).rest()) == elements(s).drop_first()
            } else {
                r is None && final(self).rest() == old(self).rest() && elements(
                    old(self).rest(),
                ).len() == 0
            },
    {
        let ghost s = self.rest();
        if self.data.len() - self.pos < 2 {
            return None;
        }
        let typ = self.data[self.pos];
        let vlen = self.data[self.pos + 1] as usize;
        let vstart = self.pos + 2;
        if vlen > self.data.len() - vstart {
            return None;
        }
        let vend = vstart + vlen;
        let value = slice_subrange(self.data, vstart, vend);
        self.pos = vend;
        proof {
            assert(s[0] == typ && s[1] == vlen);
            assert(value@ =~= s.subrange(2, 2 + s[1]));
            assert(self.rest() =~= s.skip(2 + s[1]));
            assert(elements(s)[0] == (typ, value@));
            assert(elements(s).drop_first() =~= elements(s.skip(2 + s[1])));
        }
        Some(AdvDataEntry { typ, value })
    }
}

/// How many packets were dropped for a wrong checksum, modulo 2^32.
#[derive(Clone, Copy, Debug)]
pub struct CrcErrors {
    /// The count.
    pub count: u32,
}

impl CrcErrors {
    /// No packet was dropped yet.
    pub fn new() -> (r: Self)
        ensures
            r.count == 0,
    {
        CrcErrors { count: 0 }
    }
}

/// How many packets were dropped for a wrong checksum.
#[verifier::allow_in_spec]
pub fn crc_error_count(errors: &CrcErrors) -> u32
    returns
        errors.count,
{
    errors.count
}

/// A packet of the advertising channel.
pub struct AdvPdu {
    /// Header.
    pub header: AdvPduHeader,
    /// The payload, then zeros.
    pub data: [u8; 255],
    /// Length of the payload.
    pub data_len: usize,
    /// Checksum of the payload.
    pub crc: u16,
}

/// The bytes of a packet: header, payload, checksum.
pub open spec fn packet_bytes(h: AdvPduHeader, payload: Seq<u8>, crc: u16) -> Seq<u8> {
    bytes::le32_bytes(h.word()) + payload + bytes::le16_bytes(crc)
}

/// The header that the first four bytes spell, where there are enough bytes for what it
/// announces.
pub open spec fn packet_header(buf: Seq<u8>) -> Option<AdvPduHeader> {
    if buf.len() < 6 {
        None
    } else {
        match AdvPduHeader::of_word(bytes::le32(buf[0], buf[1], buf[2], buf[3])) {
            Some(h) => if buf.len() < 6 + h.data_length {
                None
            } else {
                Some(h)
            },
            None => None,
        }
    }
}

/// Whether the checksum behind the payload is right.
pub open spec fn packet_sound(buf: Seq<u8>, h: AdvPduHeader) -> bool {
    bytes::le16(buf[4 + h.data_length], buf[5 + h.data_length]) == sle_crc::crc12_of(
        sle_crc::crc12_adv_seed(),
        buf.subrange(4, 4 + h.data_length),
    )
}

impl AdvPdu {
    /// The payload fits.
    pub open spec fn wf(self) -> bool {
        self.data_len <= SLE_ADV_DATA_MAX
    }

    /// The payload.
    pub open spec fn payload(self) -> Seq<u8> {
        self.data@.take(self.data_len as int)
    }

    /// A packet that carries what a builder collected.
    pub fn build(
        broadcast_type: BroadcastType,
        packet_type: PacketType,
        link_quality: u8,
        adv_data: &AdvDataBuilder,
    ) -> (r: Self)
        requires
            adv_data.wf(),
        ensures
            r.wf(),
            r.header == (AdvPduHeader {
                link_quality,
                broadcast_type,
                packet_type,
                data_length: adv_data@.len() as u8,
            }),
            r.data_len == adv_data@.len(),
            r.data@ == bytes::padded(adv_data@, 255),
            r.payload() == adv_data@,
            r.crc == sle_crc::crc12_of(sle_crc::crc12_adv_seed(), adv_data@),
    {
        let header = AdvPduHeader {
            link_quality,
            broadcast_type,
            packet_type,
            data_length: adv_data.len() as u8,
        };
        let data: [u8; 255] = bytes::to_array(adv_data.as_bytes());
        let crc = sle_crc::crc12(sle_crc::crc12_adv_seed(), adv_data.as_bytes());
        let r = AdvPdu { header, data, data_len: adv_data.len(), crc };
        assert(r.payload() =~= adv_data@);
        r
    }

    /// Writes the packet to the start of `out` and returns its length, or returns
    /// `ENOMEM` where it does not fit.
    pub fn serialize(&self, out: &mut [u8]) -> (r: Result<usize, Errno>)
        requires
            self.wf(),
        ensures
            if old(out)@.len() < 6 + self.data_len {
                r == Err::<usize, Errno>(Errno::ENOMEM) && final(out)@ == old(out)@
            } else {
                &&& r == Ok::<usize, Errno>((6 + self.data_len) as usize)
                &&& final(out)@ == bytes::splice(
                    old(out)@,
                    0,
                    packet_bytes(self.header, self.payload(), self.crc),
                )
            },
    {
        let total = 4 + self.data_len + 2;
        if out.len() < total {
            return Err(Errno::ENOMEM);
        }
        let hdr = self.header.encode();
        let mut v: Vec<u8> = Vec::new();
        bytes::extend(&mut v, &hdr);
        let payload = bytes::slice_of(&self.data, 0, self.data_len);
        assert(payload@ == self.payload());
        bytes::extend(&mut v, payload.as_slice());
        bytes::push_le16(&mut v, self.crc);
        assert(v@ =~= packet_bytes(self.header, self.payload(), self.crc));
        bytes::put_slice(out, v.as_slice());
        Ok(total)
    }

    /// Reads a packet. None where it is cut off or one of its kinds is unknown, and none
    /// where its checksum is wrong, which is counted.
    pub fn deserialize(buf: &[u8], errors: &mut CrcErrors) -> (r: Option<Self>)
        ensures
            match packet_header(buf@) {
                None => r is None && *final(errors) == *old(errors),
                Some(h) => if packet_sound(buf@, h) {
                    &&& r matches Some(p) && p.wf() && p.header == h && p.data_len
                        == h.data_length && p.payload() == buf@.subrange(4, 4 + h.data_length)
                        && p.data@ == bytes::padded(p.payload(), 255) && p.crc
                        == sle_crc::crc12_of(sle_crc::crc12_adv_seed(), p.payload())
                    &&& *final(errors) == *old(errors)
                } else {
                    r is None && final(errors).count == (old(errors).count + 1) % 0x1_0000_0000
                },
            },
    {
        if buf.len() < 6 {
            return None;
        }
        let hdr: [u8; 4] = [buf[0], buf[1], buf[2], buf[3]];
        let header = match AdvPduHeader::decode(&hdr) {
            Some(h) => h,
            None => return None,
        };
        let data_len = header.data_length as usize;
        if buf.len() < 4 + data_len + 2 {
            return None;
        }
        let payload = bytes::slice_of(buf, 4, 4 + data_len);
        let crc = bytes::le16(buf[4 + data_len], buf[4 + data_len + 1]);
        let expected = sle_crc::crc12(sle_crc::crc12_adv_seed(), payload.as_slice());
        if crc != expected {
            errors.count = errors.count.wrapping_add(1);
            return None;
        }
        let data: [u8; 255] = bytes::to_array(payload.as_slice());
        let p = AdvPdu { header, data, data_len, crc };
        assert(p.payload() =~= payload@);
        Some(p)
    }

    /// Walks over the elements of the payload.
    pub fn iter_adv_data(&self) -> (r: AdvDataIter<'_>)
        requires
            self.wf(),
        ensures
            r.wf(),
            r.rest() == self.payload(),
    {
        AdvDataIter::new(slice_subrange(&self.data, 0, self.data_len))
    }
}

/// A packet that was written is read back: its header is found, its checksum is right,
/// and its payload is what was put in, whatever follows it.
pub proof fn packet_round_trip(h: AdvPduHeader, payload: Seq<u8>, rest: Seq<u8>)
    requires
        payload.len() == h.data_length,
    ensures
        ({
            let crc = sle_crc::crc12_of(sle_crc::crc12_adv_seed(), payload);
            let b = packet_bytes(h, payload, crc) + rest;
            &&& packet_header(b) == Some(h)
            &&& packet_sound(b, h)
            &&& b.subrange(4, 4 + h.data_length) == payload
        }),
{
    broadcast use bytes::le16_of_bytes;
    let crc = sle_crc::crc12_of(sle_crc::crc12_adv_seed(), payload);
    let b = packet_bytes(h, payload, crc) + rest;
    header_round_trip(h);
    bytes::le32_of_bytes(h.word());
    assert(b.subrange(4, 4 + h.data_length) =~= payload);
}

} // verus!
