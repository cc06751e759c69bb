//! Messages of the generic netlink family: commands, and attributes as byte strings.

use vstd::prelude::*;

use crate::bytes;
use crate::errno::Errno;

verus! {

broadcast use {bytes::le16_of_bytes, bytes::bytes_of_le16};

/// Version of the family.
pub const GENL_VERSION: u8 = 1;

/// A command.
#[derive(Clone, Copy, Debug, PartialEq, Eq, Structural)]
pub enum NlCmd {
    /// No command.
    Unspec,
    /// Ask for what is known of a device.
    GetDevInfo,
    /// Enter a device.
    DevRegister,
    /// Take a device out.
    DevUnregister,
    /// Start to advertise.
    StartAdv,
    /// Stop to advertise.
    StopAdv,
    /// Start to scan.
    StartScan,
    /// Stop to scan.
    StopScan,
    /// Hand in an advertisement.
    InjectAdv,
    /// Open a connection.
    Connect,
    /// Close a connection.
    Disconnect,
    /// Ask for what is known of a connection.
    GetConnInfo,
    /// Send over a connection.
    ConnSend,
    /// Receive from a connection.
    ConnRecv,
    /// Ask for the connections.
    GetConnList,
    /// Set the shared key.
    SetPsk,
    /// Pair with a peer.
    Pair,
    /// Ask for the state of security.
    GetSecInfo,
    /// Switch encryption on.
    EncryptOn,
    /// Enter a service.
    SsapRegister,
    /// Ask for the services.
    GetSsapInfo,
    /// Read a property.
    SsapRead,
    /// Write a property.
    SsapWrite,
    /// Ask for the state of power management.
    GetPmInfo,
    /// Set the power state.
    SetPmState,
    /// Set the intervals of power management.
    SetPmInterval,
    /// An event.
    Event,
    /// Ask for what is known of the controller.
    GetDliInfo,
}

impl NlCmd {
    /// Number of commands.
    pub const COUNT: usize = 28;

    /// Code.
    #[verifier::allow_in_spec]
    pub fn code(self) -> u8
        returns
            (match self {
                NlCmd::Unspec => 0u8,
                NlCmd::GetDevInfo => 1u8,
                NlCmd::DevRegister => 2u8,
                NlCmd::DevUnregister => 3u8,
                NlCmd::StartAdv => 4u8,
                NlCmd::StopAdv => 5u8,
                NlCmd::StartScan => 6u8,
                NlCmd::StopScan => 7u8,
                NlCmd::InjectAdv => 8u8,
                NlCmd::Connect => 9u8,
                NlCmd::Disconnect => 10u8,
                NlCmd::GetConnInfo => 11u8,
                NlCmd::ConnSend => 12u8,
                NlCmd::ConnRecv => 13u8,
                NlCmd::GetConnList => 14u8,
                NlCmd::SetPsk => 15u8,
                NlCmd::Pair => 16u8,
                NlCmd::GetSecInfo => 17u8,
                NlCmd::EncryptOn => 18u8,
                NlCmd::SsapRegister => 19u8,
                NlCmd::GetSsapInfo => 20u8,
                NlCmd::SsapRead => 21u8,
                NlCmd::SsapWrite => 22u8,
                NlCmd::GetPmInfo => 23u8,
                NlCmd::SetPmState => 24u8,
                NlCmd::SetPmInterval => 25u8,
                NlCmd::Event => 26u8,
                NlCmd::GetDliInfo => 27u8,
            }),
    {
        match self {
            NlCmd::Unspec => 0u8,
            NlCmd::GetDevInfo => 1u8,
            NlCmd::DevRegister => 2u8,
            NlCmd::DevUnregister => 3u8,
            NlCmd::StartAdv => 4u8,
            NlCmd::StopAdv => 5u8,
            NlCmd::StartScan => 6u8,
            NlCmd::StopScan => 7u8,
            NlCmd::InjectAdv => 8u8,
            NlCmd::Connect => 9u8,
            NlCmd::Disconnect => 10u8,
            NlCmd::GetConnInfo => 11u8,
            NlCmd::ConnSend => 12u8,
            NlCmd::ConnRecv => 13u8,
            NlCmd::GetConnList => 14u8,
            NlCmd::SetPsk => 15u8,
            NlCmd::Pair => 16u8,
            NlCmd::GetSecInfo => 17u8,
            NlCmd::EncryptOn => 18u8,
            NlCmd::SsapRegister => 19u8,
            NlCmd::GetSsapInfo => 20u8,
            NlCmd::SsapRead => 21u8,
            NlCmd::SsapWrite => 22u8,
            NlCmd::GetPmInfo => 23u8,
            NlCmd::SetPmState => 24u8,
            NlCmd::SetPmInterval => 25u8,
            NlCmd::Event => 26u8,
            NlCmd::GetDliInfo => 27u8,
        }
    }
}

/// Kind of an attribute.
#[derive(Clone, Copy, Debug, PartialEq, Eq, Structural)]
pub enum NlAttr {
    /// No attribute.
    Unspec,
    /// Index of a device.
    DevIndex,
    /// State of a device.
    DevState,
    /// Name of a device.
    DevName,
    /// Bus of a device.
    DevBus,
    /// Number of devices.
    DevCount,
    /// Own address.
    Addr,
    /// Address of a peer.
    PeerAddr,
    /// Handle of a connection.
    Handle,
    /// State of a connection.
    ConnState,
    /// Role in a connection.
    GtRole,
    /// Bandwidth.
    Bandwidth,
    /// Index of the modulation and coding scheme.
    McsIndex,
    /// Bytes sent.
    TxBytes,
    /// Bytes received.
    RxBytes,
    /// Timeout in steps of 10 ms.
    Timeout10ms,
    /// Level of discovery.
    DiscoveryLevel,
    /// Interval in milliseconds.
    IntervalMs,
    /// Window in milliseconds.
    WindowMs,
    /// Signal strength.
    Rssi,
    /// What a scan found.
    ScanResults,
    /// Data.
    Data,
    /// Length of data.
    DataLen,
    /// Shared key.
    Psk,
    /// Method of pairing.
    PairMethod,
    /// State of security.
    SecState,
    /// Mode of security.
    SecMode,
    /// Whether encryption is on.
    Encrypted,
    /// Fingerprint of a key.
    KeyFingerprint,
    /// Number of services.
    SvcCount,
    /// Number of properties.
    PropCount,
    /// Handle of a property.
    PropHandle,
    /// Longest unit.
    Mtu,
    /// Power state.
    PmState,
    /// Whether the active state is forced.
    ForceActive,
    /// Power in percent.
    PowerPct,
    /// Shortest interval of power management.
    PmIntervalMin,
    /// Longest interval of power management.
    PmIntervalMax,
    /// Latency of power management.
    PmLatency,
    /// Type of an event.
    EventType,
    /// Payload of an event.
    EventPayload,
    /// Events that wait.
    EventPending,
    /// Events so far.
    EventTotal,
    /// Events that were dropped.
    EventDropped,
    /// Bus of the controller.
    DliBus,
    /// Firmware version of the controller.
    DliFwVer,
    /// Features of the controller.
    DliFeatures,
    /// Most connections of the controller.
    DliMaxConn,
}

impl NlAttr {
    /// Number of kinds of attributes.
    pub const COUNT: usize = 48;

    /// Code.
    #[verifier::allow_in_spec]
    pub fn code(self) -> u16
        returns
            (match self {
                NlAttr::Unspec => 0u16,
                NlAttr::DevIndex => 1u16,
                NlAttr::DevState => 2u16,
                NlAttr::DevName => 3u16,
                NlAttr::DevBus => 4u16,
                NlAttr::DevCount => 5u16,
                NlAttr::Addr => 6u16,
                NlAttr::PeerAddr => 7u16,
                NlAttr::Handle => 8u16,
                NlAttr::ConnState => 9u16,
                NlAttr::GtRole => 10u16,
                NlAttr::Bandwidth => 11u16,
                NlAttr::McsIndex => 12u16,
                NlAttr::TxBytes => 13u16,
                NlAttr::RxBytes => 14u16,
                NlAttr::Timeout10ms => 15u16,
                NlAttr::DiscoveryLevel => 16u16,
                NlAttr::IntervalMs => 17u16,
                NlAttr::WindowMs => 18u16,
                NlAttr::Rssi => 19u16,
                NlAttr::ScanResults => 20u16,
                NlAttr::Data => 21u16,
                NlAttr::DataLen => 22u16,
                NlAttr::Psk => 23u16,
                NlAttr::PairMethod => 24u16,
                NlAttr::SecState => 25u16,
                NlAttr::SecMode => 26u16,
                NlAttr::Encrypted => 27u16,
                NlAttr::KeyFingerprint => 28u16,
                NlAttr::SvcCount => 29u16,
                NlAttr::PropCount => 30u16,
                NlAttr::PropHandle => 31u16,
                NlAttr::Mtu => 32u16,
                NlAttr::PmState => 33u16,
                NlAttr::ForceActive => 34u16,
                NlAttr::PowerPct => 35u16,
                NlAttr::PmIntervalMin => 36u16,
                NlAttr::PmIntervalMax => 37u16,
                NlAttr::PmLatency => 38u16,
                NlAttr::EventType => 39u16,
                NlAttr::EventPayload => 40u16,
                NlAttr::EventPending => 41u16,
                NlAttr::EventTotal => 42u16,
                NlAttr::EventDropped => 43u16,
                NlAttr::DliBus => 44u16,
                NlAttr::DliFwVer => 45u16,
                NlAttr::DliFeatures => 46u16,
                NlAttr::DliMaxConn => 47u16,
            }),
    {
        match self {
            NlAttr::Unspec => 0u16,
            NlAttr::DevIndex => 1u16,
            NlAttr::DevState => 2u16,
            NlAttr::DevName => 3u16,
            NlAttr::DevBus => 4u16,
            NlAttr::DevCount => 5u16,
            NlAttr::Addr => 6u16,
            NlAttr::PeerAddr => 7u16,
            NlAttr::Handle => 8u16,
            NlAttr::ConnState => 9u16,
            NlAttr::GtRole => 10u16,
            NlAttr::Bandwidth => 11u16,
            NlAttr::McsIndex => 12u16,
            NlAttr::TxBytes => 13u16,
            NlAttr::RxBytes => 14u16,
            NlAttr::Timeout10ms => 15u16,
            NlAttr::DiscoveryLevel => 16u16,
            NlAttr::IntervalMs => 17u16,
            NlAttr::WindowMs => 18u16,
            NlAttr::Rssi => 19u16,
            NlAttr::ScanResults => 20u16,
            NlAttr::Data => 21u16,
            NlAttr::DataLen => 22u16,
            NlAttr::Psk => 23u16,
            NlAttr::PairMethod => 24u16,
            NlAttr::SecState => 25u16,
            NlAttr::SecMode => 26u16,
            NlAttr::Encrypted => 27u16,
            NlAttr::KeyFingerprint => 28u16,
            NlAttr::SvcCount => 29u16,
            NlAttr::PropCount => 30u16,
            NlAttr::PropHandle => 31u16,
            NlAttr::Mtu => 32u16,
            NlAttr::PmState => 33u16,
            NlAttr::ForceActive => 34u16,
            NlAttr::PowerPct => 35u16,
            NlAttr::PmIntervalMin => 36u16,
            NlAttr::PmIntervalMax => 37u16,
            NlAttr::PmLatency => 38u16,
            NlAttr::EventType => 39u16,
            NlAttr::EventPayload => 40u16,
            NlAttr::EventPending => 41u16,
            NlAttr::EventTotal => 42u16,
            NlAttr::EventDropped => 43u16,
            NlAttr::DliBus => 44u16,
            NlAttr::DliFwVer => 45u16,
            NlAttr::DliFeatures => 46u16,
            NlAttr::DliMaxConn => 47u16,
        }
    }
}

/// Length of the header of an attribute: its length and its kind.
pub const NLA_HDRLEN: usize = 4;

/// Name of the family, with a closing zero: "sparklink".
pub fn genl_family_name() -> (r: [u8; 10])
    ensures
        r@ == seq![115u8, 112, 97, 114, 107, 108, 105, 110, 107, 0],
{
    [115, 112, 97, 114, 107, 108, 105, 110, 107, 0]
}

/// Name of the group that events go to, with a closing zero: "events".
pub fn mcgrp_events() -> (r: [u8; 7])
    ensures
        r@ == seq![101u8, 118, 101, 110, 116, 115, 0],
{
    [101, 118, 101, 110, 116, 115, 0]
}

/// `len` rounded up to a multiple of four.
pub open spec fn aligned(len: int) -> int {
    (len + 3) / 4 * 4
}

/// `len` rounded up to a multiple of four.
pub fn nla_align(len: usize) -> (r: usize)
    requires
        len + 3 <= usize::MAX,
    ensures
        r == aligned(len as int),
        len <= r <= len + 3,
        r % 4 == 0,
{
    (len + 3) / 4 * 4
}

/// An attribute as it stands in a message: the length of header and payload in 16 bits, the
/// kind, the payload, and zeros up to a multiple of four bytes.
pub open spec fn attr_bytes(kind: u16, payload: Seq<u8>) -> Seq<u8> {
    let len = NLA_HDRLEN + payload.len();
    bytes::le16_bytes((len % 0x1_0000) as u16) + bytes::le16_bytes(kind) + payload + bytes::zeros(
        aligned(len as int) - len,
    )
}

/// `s` up to its first zero.
pub open spec fn up_to_zero(s: Seq<u8>) -> Seq<u8>
    decreases s.len(),
{
    if s.len() == 0 || s[0] == 0 {
        Seq::empty()
    } else {
        seq![s[0]] + up_to_zero(s.skip(1))
    }
}

/// Attributes under construction.
pub struct NlAttrBuilder {
    buf: Vec<u8>,
}

impl View for NlAttrBuilder {
    type V = Seq<u8>;

    closed spec fn view(&self) -> Seq<u8> {
        self.buf@
    }
}

impl NlAttrBuilder {
    /// No attributes.
    pub fn new() -> (r: Self)
        ensures
            r@ == Seq::<u8>::empty(),
    {
        NlAttrBuilder { buf: Vec::new() }
    }

    /// Appends an attribute that holds a byte.
    pub fn put_u8(&mut self, attr: NlAttr, val: u8) -> (r: Result<(), Errno>)
        ensures
            r == Ok::<(), Errno>(()),
            final(self)@ == old(self)@ + attr_bytes(attr.code(), seq![val]),
    {
        let one = [val];
        assert(one@ == seq![val]);
        self.put_raw(attr, &one)
    }

    /// Appends an attribute that holds a 16-bit number.
    pub fn put_u16(&mut self, attr: NlAttr, val: u16) -> (r: Result<(), Errno>)
        ensures
            r == Ok::<(), Errno>(()),
            final(self)@ == old(self)@ + attr_bytes(attr.code(), bytes::le16_bytes(val)),
    {
        let mut data: Vec<u8> = Vec::new();
        bytes::push_le16(&mut data, val);
        assert(data@ == bytes::le16_bytes(val));
        self.put_raw(attr, data.as_slice())
    }

    /// Appends an attribute that holds a 32-bit number.
    pub fn put_u32(&mut self, attr: NlAttr, val: u32) -> (r: Result<(), Errno>)
        ensures
            r == Ok::<(), Errno>(()),
            final(self)@ == old(self)@ + attr_bytes(attr.code(), bytes::le32_bytes(val)),
    {
        let mut data: Vec<u8> = Vec::new();
        bytes::push_le32(&mut data, val);
        assert(data@ == bytes::le32_bytes(val));
        self.put_raw(attr, data.as_slice())
    }

    /// Appends an attribute that holds a 64-bit number.
    pub fn put_u64(&mut self, attr: NlAttr, val: u64) -> (r: Result<(), Errno>)
        ensures
            r == Ok::<(), Errno>(()),
            final(self)@ == old(self)@ + attr_bytes(attr.code(), bytes::le64_bytes(val)),
    {
        let mut data: Vec<u8> = Vec::new();
        bytes::push_le64(&mut data, val);
        assert(data@ == bytes::le64_bytes(val));
        self.put_raw(attr, data.as_slice())
    }

    /// Appends an attribute that holds a signed byte.
    pub fn put_s8(&mut self, attr: NlAttr, val: i8) -> (r: Result<(), Errno>)
        ensures
            r == Ok::<(), Errno>(()),
            final(self)@ == old(self)@ + attr_bytes(attr.code(), seq![bytes::i8_byte(val)]),
    {
        self.put_u8(attr, bytes::i8_byte(val))
    }

    /// Appends an attribute that holds bytes.
    pub fn put_binary(&mut self, attr: NlAttr, data: &[u8]) -> (r: Result<(), Errno>)
        requires
            data@.len() + 8 <= usize::MAX,
        ensures
            r == Ok::<(), Errno>(()),
            final(self)@ == old(self)@ + attr_bytes(attr.code(), data@),
    {
        self.put_raw(attr, data)
    }

    /// Appends an attribute that holds a string with a closing zero: `s` up to its first zero.
    pub fn put_string(&mut self, attr: NlAttr, s: &[u8]) -> (r: Result<(), Errno>)
        requires
            s@.len() + 9 <= usize::MAX,
        ensures
            r == Ok::<(), Errno>(()),
            final(self)@ == old(self)@ + attr_bytes(attr.code(), up_to_zero(s@).push(0)),
    {
        let mut data: Vec<u8> = Vec::new();
        let mut i: usize = 0;
        assert(s@.skip(0) == s@);
        while i < s.len() && s[i] != 0
            invariant
                i <= s.len(),
                data@.len() == i,
                data@ + up_to_zero(s@.skip(i as int)) == up_to_zero(s@),
            decreases s.len() - i,
        {
            let ghost rest = s@.skip(i as int);
            assert(rest.skip(1) == s@.skip(i + 1));
            assert(data@ + (seq![rest[0]] + up_to_zero(rest.skip(1))) =~= data@.push(rest[0])
                + up_to_zero(rest.skip(1)));
            data.push(s[i]);
            i = i + 1;
        }
        assert(up_to_zero(s@.skip(i as int)) == Seq::<u8>::empty());
        assert(data@ == up_to_zero(s@));
        data.push(0);
        self.put_raw(attr, data.as_slice())
    }

    /// The attributes as bytes.
    pub fn finish(self) -> (r: Vec<u8>)
        ensures
            r@ == self@,
    {
        self.buf
    }

    /// Length of the attributes in bytes.
    pub fn len(&self) -> (r: usize)
        ensures
            r == self@.len(),
    {
        self.buf.len()
    }

    fn put_raw(&mut self, attr: NlAttr, payload: &[u8]) -> (r: Result<(), Errno>)
        requires
            payload@.len() + 8 <= usize::MAX,
        ensures
            r == Ok::<(), Errno>(()),
            final(self)@ == old(self)@ + attr_bytes(attr.code(), payload@),
    {
        let nla_len = NLA_HDRLEN + payload.len();
        let full = nla_align(nla_len);
        bytes::push_le16(&mut self.buf, (nla_len % 0x1_0000) as u16);
        bytes::push_le16(&mut self.buf, attr.code());
        bytes::extend(&mut self.buf, payload);
        bytes::extend_zeros(&mut self.buf, full - nla_len);
        assert(self@ =~= old(self)@ + attr_bytes(attr.code(), payload@));
        Ok(())
    }
}

/// An attribute of a message.
pub struct ParsedAttr<'a> {
    /// Kind.
    pub attr_type: u16,
    /// Payload.
    pub payload: &'a [u8],
}

/// The length that the first attribute of `s` states.
pub open spec fn stated_len(s: Seq<u8>) -> int {
    bytes::le16(s[0], s[1]) as int
}

/// Whether `s` starts with a whole attribute.
pub open spec fn starts_whole(s: Seq<u8>) -> bool {
    s.len() >= NLA_HDRLEN && NLA_HDRLEN <= stated_len(s) <= s.len()
}

/// The first attribute of `s`: its kind and its payload.
pub open spec fn first_attr(s: Seq<u8>) -> (u16, Seq<u8>) {
    (bytes::le16(s[2], s[3]), s.subrange(NLA_HDRLEN as int, stated_len(s)))
}

/// `s` behind its first attribute and the zeros after it.
pub open spec fn after_first(s: Seq<u8>) -> Seq<u8> {
    if aligned(stated_len(s)) <= s.len() {
        s.skip(aligned(stated_len(s)))
    } else {
        Seq::empty()
    }
}

/// The attributes that `s` holds, up to the first place where no whole one starts.
pub open spec fn attrs(s: Seq<u8>) -> Seq<(u16, Seq<u8>)>
    decreases s.len(),
{
    if starts_whole(s) {
        seq![first_attr(s)] + attrs(after_first(s))
    } else {
        Seq::empty()
    }
}

/// Attributes that are read one after the other.
pub struct NlAttrIter<'a> {
    buf: &'a [u8],
    offset: usize,
}

impl<'a> View for NlAttrIter<'a> {
    type V = Seq<u8>;

    closed spec fn view(&self) -> Seq<u8> {
        if self.offset <= self.buf@.len() {
            self.buf@.skip(self.offset as int)
        } else {
            Seq::empty()
        }
    }
}

/// Reads the attributes of a message.
pub fn parse_attrs(buf: &[u8]) -> (r: NlAttrIter<'_>)
    ensures
        r@ == buf@,
{
    let r = NlAttrIter { buf, offset: 0 };
    assert(buf@.skip(0) == buf@);
    r
}

impl<'a> NlAttrIter<'a> {
    /// The next attribute, if a whole one is left.
    pub fn next(&mut self) -> (r: Option<ParsedAttr<'a>>)
        ensures
            match r {
                Some(a) => starts_whole(old(self)@) && (a.attr_type, a.payload@) == first_attr(
                    old(self)@,
                ) && final(self)@ == after_first(old(self)@),
                None => !starts_whole(old(self)@) && final(self)@ == old(self)@,
            },
    {
        if self.offset > self.buf.len() || self.buf.len() - self.offset < NLA_HDRLEN {
            return None;
        }
        let ghost rest = self@;
        let nla_len = bytes::le16(self.buf[self.offset], self.buf[self.offset + 1]) as usize;
        let attr_type = bytes::le16(self.buf[self.offset + 2], self.buf[self.offset + 3]);
        assert(nla_len == stated_len(rest));
        if nla_len < NLA_HDRLEN || self.buf.len() - self.offset < nla_len {
            return None;
        }
        let start = self.offset + NLA_HDRLEN;
        let end = self.offset + nla_len;
        let payload = vstd::slice::slice_subrange(self.buf, start, end);
        assert(payload@ =~= rest.subrange(NLA_HDRLEN as int, nla_len as int));
        let full = nla_align(nla_len);
        if full <= self.buf.len() - self.offset {
            self.offset = self.offset + full;
        } else {
            self.offset = self.buf.len();
        }
        assert(self@ =~= after_first(rest));
        Some(ParsedAttr { attr_type, payload })
    }
}

/// The first byte of a payload, if there is one.
pub fn attr_get_u8(attr: &ParsedAttr<'_>) -> (r: Option<u8>)
    ensures
        r == (if attr.payload@.len() >= 1 {
            Some(attr.payload@[0])
        } else {
            None
        }),
{
    if attr.payload.len() >= 1 {
        Some(attr.payload[0])
    } else {
        None
    }
}

/// The 16-bit number that a payload starts with, if it is long enough.
pub fn attr_get_u16(attr: &ParsedAttr<'_>) -> (r: Option<u16>)
    ensures
        match r {
            Some(v) => attr.payload@.len() >= 2 && attr.payload@.take(2) == bytes::le16_bytes(v),
            None => attr.payload@.len() < 2,
        },
{
    if attr.payload.len() >= 2 {
        let v = bytes::le16(attr.payload[0], attr.payload[1]);
        assert(attr.payload@.take(2) =~= bytes::le16_bytes(v));
        Some(v)
    } else {
        None
    }
}

/// The 32-bit number that a payload starts with, if it is long enough.
pub fn attr_get_u32(attr: &ParsedAttr<'_>) -> (r: Option<u32>)
    ensures
        match r {
            Some(v) => attr.payload@.len() >= 4 && attr.payload@.take(4) == bytes::le32_bytes(v),
            None => attr.payload@.len() < 4,
        },
{
    if attr.payload.len() >= 4 {
        let v = bytes::le32(attr.payload[0], attr.payload[1], attr.payload[2], attr.payload[3]);
        proof {
            let p = attr.payload@;
            bytes::bytes_of_le32(p[0], p[1], p[2], p[3]);
        }
        assert(attr.payload@.take(4) =~= bytes::le32_bytes(v));
        Some(v)
    } else {
        None
    }
}

/// The 64-bit number that a payload starts with, if it is long enough.
pub fn attr_get_u64(attr: &ParsedAttr<'_>) -> (r: Option<u64>)
    ensures
        match r {
            Some(v) => attr.payload@.len() >= 8 && attr.payload@.take(8) == bytes::le64_bytes(v),
            None => attr.payload@.len() < 8,
        },
{
    if attr.payload.len() >= 8 {
        let lo = bytes::le32(attr.payload[0], attr.payload[1], attr.payload[2], attr.payload[3]);
        let hi = bytes::le32(attr.payload[4], attr.payload[5], attr.payload[6], attr.payload[7]);
        let v = lo as u64 + 0x1_0000_0000 * (hi as u64);
        proof {
            let p = attr.payload@;
            assert(bytes::lo32(v) == lo && bytes::hi32(v) == hi);
            bytes::bytes_of_le32(p[0], p[1], p[2], p[3]);
            bytes::bytes_of_le32(p[4], p[5], p[6], p[7]);
        }
        assert(attr.payload@.take(8) =~= bytes::le64_bytes(v));
        Some(v)
    } else {
        None
    }
}

/// Whether `s` is a run of whole attributes and nothing else.
pub open spec fn all_whole(s: Seq<u8>) -> bool
    decreases s.len(),
{
    s.len() == 0 || (starts_whole(s) && aligned(stated_len(s)) <= s.len() && all_whole(
        after_first(s),
    ))
}

/// An attribute whose length fits in 16 bits is read back as it was written, behind any
/// attributes that stand before it.
pub proof fn written_is_read(s: Seq<u8>, kind: u16, payload: Seq<u8>)
    requires
        all_whole(s),
        NLA_HDRLEN + payload.len() <= u16::MAX,
    ensures
        all_whole(s + attr_bytes(kind, payload)),
        attrs(s + attr_bytes(kind, payload)) == attrs(s).push((kind, payload)),
    decreases s.len(),
{
    let t = attr_bytes(kind, payload);
    let all = s + t;
    if s.len() == 0 {
        assert(all =~= t);
        let len = NLA_HDRLEN + payload.len();
        assert(stated_len(t) == len);
        assert(t.subrange(4, len as int) =~= payload);
        assert(after_first(t) =~= Seq::<u8>::empty());
        assert(attrs(after_first(t)) =~= Seq::empty());
        assert(all_whole(after_first(t)));
        assert(attrs(t) =~= Seq::empty().push((kind, payload)));
    } else {
        let rest = after_first(s);
        written_is_read(rest, kind, payload);
        assert(stated_len(all) == stated_len(s));
        assert(first_attr(all).1 =~= first_attr(s).1);
        assert(after_first(all) =~= rest + t);
        assert(attrs(all) =~= attrs(s).push((kind, payload)));
    }
}

} // verus!
