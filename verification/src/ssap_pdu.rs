//! Wire form of the service access protocol.
//!
//! A message is one message code byte followed by the fields of that message;
//! numbers are little-endian.

use vstd::prelude::*;

use crate::bytes;
use crate::errno::Errno;

verus! {

/// Message codes.
#[derive(Clone, Copy, Debug, PartialEq, Eq, Structural)]
pub enum SsapMsgCode {
    ErrorRsp,
    ExchangeInfoReq,
    ExchangeInfoRsp,
    FindStructureReq,
    FindStructureRsp,
    FindByUuidReq,
    FindByUuidRsp,
    ReadReq,
    ReadRsp,
    ReadByUuidReq,
    ReadByUuidRsp,
    WriteCmd,
    WriteReq,
    WriteRsp,
    ValueNtf,
    ValueInd,
    ValueAck,
    CallMethodCmd,
    CallMethodReq,
    CallMethodRsp,
}

impl SsapMsgCode {
    /// The message code byte.
    #[verifier::allow_in_spec]
    pub fn code(self) -> u8
        returns
            (match self {
                SsapMsgCode::ErrorRsp => 0x01u8,
                SsapMsgCode::ExchangeInfoReq => 0x02u8,
                SsapMsgCode::ExchangeInfoRsp => 0x03u8,
                SsapMsgCode::FindStructureReq => 0x04u8,
                SsapMsgCode::FindStructureRsp => 0x05u8,
                SsapMsgCode::FindByUuidReq => 0x06u8,
                SsapMsgCode::FindByUuidRsp => 0x07u8,
                SsapMsgCode::ReadReq => 0x08u8,
                SsapMsgCode::ReadRsp => 0x09u8,
                SsapMsgCode::ReadByUuidReq => 0x0Au8,
                SsapMsgCode::ReadByUuidRsp => 0x0Bu8,
                SsapMsgCode::WriteCmd => 0x0Cu8,
                SsapMsgCode::WriteReq => 0x0Du8,
                SsapMsgCode::WriteRsp => 0x0Eu8,
                SsapMsgCode::ValueNtf => 0x0Fu8,
                SsapMsgCode::ValueInd => 0x10u8,
                SsapMsgCode::ValueAck => 0x11u8,
                SsapMsgCode::CallMethodCmd => 0x12u8,
                SsapMsgCode::CallMethodReq => 0x13u8,
                SsapMsgCode::CallMethodRsp => 0x14u8,
            }),
    {
        match self {
            SsapMsgCode::ErrorRsp => 0x01,
            SsapMsgCode::ExchangeInfoReq => 0x02,
            SsapMsgCode::ExchangeInfoRsp => 0x03,
            SsapMsgCode::FindStructureReq => 0x04,
            SsapMsgCode::FindStructureRsp => 0x05,
            SsapMsgCode::FindByUuidReq => 0x06,
            SsapMsgCode::FindByUuidRsp => 0x07,
            SsapMsgCode::ReadReq => 0x08,
            SsapMsgCode::ReadRsp => 0x09,
            SsapMsgCode::ReadByUuidReq => 0x0A,
            SsapMsgCode::ReadByUuidRsp => 0x0B,
            SsapMsgCode::WriteCmd => 0x0C,
            SsapMsgCode::WriteReq => 0x0D,
            SsapMsgCode::WriteRsp => 0x0E,
            SsapMsgCode::ValueNtf => 0x0F,
            SsapMsgCode::ValueInd => 0x10,
            SsapMsgCode::ValueAck => 0x11,
            SsapMsgCode::CallMethodCmd => 0x12,
            SsapMsgCode::CallMethodReq => 0x13,
            SsapMsgCode::CallMethodRsp => 0x14,
        }
    }
}

/// What an entry of a service is.
#[derive(Clone, Copy, Debug, PartialEq, Eq, Structural)]
pub enum EntryCategory {
    PrimaryService,
    SecondaryService,
    Property,
    Method,
    Event,
    ServiceRef,
    CustomPrimaryService,
    CustomSecondaryService,
    CustomProperty,
    CustomMethod,
    CustomEvent,
    CustomServiceRef,
}

impl EntryCategory {
    /// The category byte.
    #[verifier::allow_in_spec]
    pub fn code(self) -> u8
        returns
            (match self {
                EntryCategory::PrimaryService => 0x00u8,
                EntryCategory::SecondaryService => 0x01u8,
                EntryCategory::Property => 0x02u8,
                EntryCategory::Method => 0x03u8,
                EntryCategory::Event => 0x04u8,
                EntryCategory::ServiceRef => 0x05u8,
                EntryCategory::CustomPrimaryService => 0x08u8,
                EntryCategory::CustomSecondaryService => 0x09u8,
                EntryCategory::CustomProperty => 0x0Au8,
                EntryCategory::CustomMethod => 0x0Bu8,
                EntryCategory::CustomEvent => 0x0Cu8,
                EntryCategory::CustomServiceRef => 0x0Du8,
            }),
    {
        match self {
            EntryCategory::PrimaryService => 0x00,
            EntryCategory::SecondaryService => 0x01,
            EntryCategory::Property => 0x02,
            EntryCategory::Method => 0x03,
            EntryCategory::Event => 0x04,
            EntryCategory::ServiceRef => 0x05,
            EntryCategory::CustomPrimaryService => 0x08,
            EntryCategory::CustomSecondaryService => 0x09,
            EntryCategory::CustomProperty => 0x0A,
            EntryCategory::CustomMethod => 0x0B,
            EntryCategory::CustomEvent => 0x0C,
            EntryCategory::CustomServiceRef => 0x0D,
        }
    }

    /// The category of byte `v`, where there is one.
    #[verifier::allow_in_spec]
    pub fn from_raw(v: u8) -> Option<EntryCategory>
        returns
            (if v == 0x00 {
                Some(EntryCategory::PrimaryService)
            } else if v == 0x01 {
                Some(EntryCategory::SecondaryService)
            } else if v == 0x02 {
                Some(EntryCategory::Property)
            } else if v == 0x03 {
                Some(EntryCategory::Method)
            } else if v == 0x04 {
                Some(EntryCategory::Event)
            } else if v == 0x05 {
                Some(EntryCategory::ServiceRef)
            } else if v == 0x08 {
                Some(EntryCategory::CustomPrimaryService)
            } else if v == 0x09 {
                Some(EntryCategory::CustomSecondaryService)
            } else if v == 0x0A {
                Some(EntryCategory::CustomProperty)
            } else if v == 0x0B {
                Some(EntryCategory::CustomMethod)
            } else if v == 0x0C {
                Some(EntryCategory::CustomEvent)
            } else if v == 0x0D {
                Some(EntryCategory::CustomServiceRef)
            } else {
                None
            }),
    {
        match v {
            0x00 => Some(EntryCategory::PrimaryService),
            0x01 => Some(EntryCategory::SecondaryService),
            0x02 => Some(EntryCategory::Property),
            0x03 => Some(EntryCategory::Method),
            0x04 => Some(EntryCategory::Event),
            0x05 => Some(EntryCategory::ServiceRef),
            0x08 => Some(EntryCategory::CustomPrimaryService),
            0x09 => Some(EntryCategory::CustomSecondaryService),
            0x0A => Some(EntryCategory::CustomProperty),
            0x0B => Some(EntryCategory::CustomMethod),
            0x0C => Some(EntryCategory::CustomEvent),
            0x0D => Some(EntryCategory::CustomServiceRef),
            _ => None,
        }
    }
}

/// Error codes of an error response.
#[derive(Clone, Copy, Debug, PartialEq, Eq, Structural)]
pub enum SsapError {
    Success,
    InvalidHandle,
    ReadNotPermitted,
    WriteNotPermitted,
    InvalidMsgCode,
    AuthRequired,
    RequestNotSupported,
    InvalidOffset,
    InsufficientResources,
    ServiceNotFound,
    PropertyNotFound,
}

impl SsapError {
    /// The error byte.
    #[verifier::allow_in_spec]
    pub fn code(self) -> u8
        returns
            (match self {
                SsapError::Success => 0x00u8,
                SsapError::InvalidHandle => 0x01u8,
                SsapError::ReadNotPermitted => 0x02u8,
                SsapError::WriteNotPermitted => 0x03u8,
                SsapError::InvalidMsgCode => 0x04u8,
                SsapError::AuthRequired => 0x05u8,
                SsapError::RequestNotSupported => 0x06u8,
                SsapError::InvalidOffset => 0x07u8,
                SsapError::InsufficientResources => 0x08u8,
                SsapError::ServiceNotFound => 0x09u8,
                SsapError::PropertyNotFound => 0x0Au8,
            }),
    {
        match self {
            SsapError::Success => 0x00,
            SsapError::InvalidHandle => 0x01,
            SsapError::ReadNotPermitted => 0x02,
            SsapError::WriteNotPermitted => 0x03,
            SsapError::InvalidMsgCode => 0x04,
            SsapError::AuthRequired => 0x05,
            SsapError::RequestNotSupported => 0x06,
            SsapError::InvalidOffset => 0x07,
            SsapError::InsufficientResources => 0x08,
            SsapError::ServiceNotFound => 0x09,
            SsapError::PropertyNotFound => 0x0A,
        }
    }

    /// The error of byte `v`; an unknown byte reads as `RequestNotSupported`.
    #[verifier::allow_in_spec]
    pub fn from_raw(v: u8) -> SsapError
        returns
            (if v == 0x00 {
                SsapError::Success
            } else if v == 0x01 {
                SsapError::InvalidHandle
            } else if v == 0x02 {
                SsapError::ReadNotPermitted
            } else if v == 0x03 {
                SsapError::WriteNotPermitted
            } else if v == 0x04 {
                SsapError::InvalidMsgCode
            } else if v == 0x05 {
                SsapError::AuthRequired
            } else if v == 0x06 {
                SsapError::RequestNotSupported
            } else if v == 0x07 {
                SsapError::InvalidOffset
            } else if v == 0x08 {
                SsapError::InsufficientResources
            } else if v == 0x09 {
                SsapError::ServiceNotFound
            } else if v == 0x0A {
                SsapError::PropertyNotFound
            } else {
                SsapError::RequestNotSupported
            }),
    {
        match v {
            0x00 => SsapError::Success,
            0x01 => SsapError::InvalidHandle,
            0x02 => SsapError::ReadNotPermitted,
            0x03 => SsapError::WriteNotPermitted,
            0x04 => SsapError::InvalidMsgCode,
            0x05 => SsapError::AuthRequired,
            0x06 => SsapError::RequestNotSupported,
            0x07 => SsapError::InvalidOffset,
            0x08 => SsapError::InsufficientResources,
            0x09 => SsapError::ServiceNotFound,
            0x0A => SsapError::PropertyNotFound,
            _ => SsapError::RequestNotSupported,
        }
    }
}

/// A category comes back from its byte, and so does an error code.
pub proof fn codes_round_trip(c: EntryCategory, e: SsapError)
    ensures
        EntryCategory::from_raw(c.code()) == Some(c),
        SsapError::from_raw(e.code()) == e,
{
}

/// The UUID of a service or an entry.
#[derive(Clone, Copy, Debug, PartialEq, Eq)]
pub enum SsapUuid {
    /// A standard UUID of 16 bits.
    Uuid16(u16),
    /// A vendor UUID of 128 bits.
    Uuid128([u8; 16]),
}

/// A UUID as a value.
#[verifier::ext_equal]
pub enum UuidModel {
    /// A standard UUID.
    Uuid16(u16),
    /// The bytes of a vendor UUID.
    Uuid128(Seq<u8>),
}

impl View for SsapUuid {
    type V = UuidModel;

    open spec fn view(&self) -> UuidModel {
        match *self {
            SsapUuid::Uuid16(v) => UuidModel::Uuid16(v),
            SsapUuid::Uuid128(v) => UuidModel::Uuid128(v@),
        }
    }
}

impl SsapUuid {
    /// Whether this is a vendor UUID.
    pub fn is_custom(&self) -> (r: bool)
        ensures
            r == (self@ is Uuid128),
    {
        match self {
            SsapUuid::Uuid16(_) => false,
            SsapUuid::Uuid128(_) => true,
        }
    }

    /// The value of a standard UUID.
    pub fn as_u16(&self) -> (r: Option<u16>)
        ensures
            r == (match self@ {
                UuidModel::Uuid16(v) => Some(v),
                UuidModel::Uuid128(_) => None,
            }),
    {
        match self {
            SsapUuid::Uuid16(v) => Some(*v),
            SsapUuid::Uuid128(_) => None,
        }
    }

    /// Whether two UUIDs are the same.
    pub fn same(&self, other: &SsapUuid) -> (r: bool)
        ensures
            r == (self@ == other@),
    {
        match self {
            SsapUuid::Uuid16(a) => match other {
                SsapUuid::Uuid16(b) => *a == *b,
                SsapUuid::Uuid128(_) => false,
            },
            SsapUuid::Uuid128(a) => match other {
                SsapUuid::Uuid16(_) => false,
                SsapUuid::Uuid128(b) => bytes::same(a.as_slice(), b.as_slice()),
            },
        }
    }
}

/// An entry as discovery reports it.
#[derive(Clone, Copy, Debug)]
pub struct EntryInfo {
    /// Handle of the entry.
    pub handle: u16,
    /// What the entry is.
    pub category: EntryCategory,
    /// UUID of the entry.
    pub uuid: SsapUuid,
}

/// An entry as a value.
#[verifier::ext_equal]
pub struct EntryModel {
    /// Handle of the entry.
    pub handle: u16,
    /// What the entry is.
    pub category: EntryCategory,
    /// UUID of the entry.
    pub uuid: UuidModel,
}

impl View for EntryInfo {
    type V = EntryModel;

    open spec fn view(&self) -> EntryModel {
        EntryModel { handle: self.handle, category: self.category, uuid: self.uuid@ }
    }
}

/// A list of entries as values.
pub open spec fn entries_view(s: Seq<EntryInfo>) -> Seq<EntryModel> {
    s.map_values(|e: EntryInfo| e@)
}

/// A protocol message.
#[derive(Debug)]
pub enum SsapPdu {
    /// A request failed.
    ErrorRsp { req_opcode: u8, handle: u16, error: SsapError },
    /// The client tells its MTU.
    ExchangeInfoReq { mtu: u16 },
    /// The server tells its MTU.
    ExchangeInfoRsp { mtu: u16 },
    /// Asks for the entries of a range of handles.
    FindStructureReq { start_handle: u16, end_handle: u16 },
    /// The entries of a range of handles.
    FindStructureRsp { entries: Vec<EntryInfo> },
    /// Asks for a value.
    ReadReq { handle: u16 },
    /// A value.
    ReadRsp { data: Vec<u8> },
    /// Sets a value, without an answer.
    WriteCmd { handle: u16, data: Vec<u8> },
    /// Sets a value.
    WriteReq { handle: u16, data: Vec<u8> },
    /// A value was set.
    WriteRsp { handle: u16 },
    /// A value changed.
    ValueNtf { handle: u16, data: Vec<u8> },
    /// A value changed; an acknowledgement is expected.
    ValueInd { handle: u16, data: Vec<u8> },
    /// Acknowledges an indication.
    ValueAck { handle: u16 },
}

/// A protocol message as a value.
#[verifier::ext_equal]
pub enum PduModel {
    /// A request failed.
    ErrorRsp { req_opcode: u8, handle: u16, error: SsapError },
    /// The client tells its MTU.
    ExchangeInfoReq { mtu: u16 },
    /// The server tells its MTU.
    ExchangeInfoRsp { mtu: u16 },
    /// Asks for the entries of a range of handles.
    FindStructureReq { start_handle: u16, end_handle: u16 },
    /// The entries of a range of handles.
    FindStructureRsp { entries: Seq<EntryModel> },
    /// Asks for a value.
    ReadReq { handle: u16 },
    /// A value.
    ReadRsp { data: Seq<u8> },
    /// Sets a value, without an answer.
    WriteCmd { handle: u16, data: Seq<u8> },
    /// Sets a value.
    WriteReq { handle: u16, data: Seq<u8> },
    /// A value was set.
    WriteRsp { handle: u16 },
    /// A value changed.
    ValueNtf { handle: u16, data: Seq<u8> },
    /// A value changed; an acknowledgement is expected.
    ValueInd { handle: u16, data: Seq<u8> },
    /// Acknowledges an indication.
    ValueAck { handle: u16 },
}

impl View for SsapPdu {
    type V = PduModel;

    open spec fn view(&self) -> PduModel {
        match *self {
            SsapPdu::ErrorRsp { req_opcode, handle, error } => PduModel::ErrorRsp {
                req_opcode,
                handle,
                error,
            },
            SsapPdu::ExchangeInfoReq { mtu } => PduModel::ExchangeInfoReq { mtu },
            SsapPdu::ExchangeInfoRsp { mtu } => PduModel::ExchangeInfoRsp { mtu },
            SsapPdu::FindStructureReq { start_handle, end_handle } => PduModel::FindStructureReq {
                start_handle,
                end_handle,
            },
            SsapPdu::FindStructureRsp { entries } => PduModel::FindStructureRsp {
                entries: entries_view(entries@),
            },
            SsapPdu::ReadReq { handle } => PduModel::ReadReq { handle },
            SsapPdu::ReadRsp { data } => PduModel::ReadRsp { data: data@ },
            SsapPdu::WriteCmd { handle, data } => PduModel::WriteCmd { handle, data: data@ },
            SsapPdu::WriteReq { handle, data } => PduModel::WriteReq { handle, data: data@ },
            SsapPdu::WriteRsp { handle } => PduModel::WriteRsp { handle },
            SsapPdu::ValueNtf { handle, data } => PduModel::ValueNtf { handle, data: data@ },
            SsapPdu::ValueInd { handle, data } => PduModel::ValueInd { handle, data: data@ },
            SsapPdu::ValueAck { handle } => PduModel::ValueAck { handle },
        }
    }
}

/// The bytes of a UUID: its length, then the UUID itself.
pub open spec fn uuid_bytes(u: UuidModel) -> Seq<u8> {
    match u {
        UuidModel::Uuid16(v) => seq![2u8] + bytes::le16_bytes(v),
        UuidModel::Uuid128(v) => seq![16u8] + v,
    }
}

/// The bytes of an entry: handle, category, UUID.
pub open spec fn entry_bytes(e: EntryModel) -> Seq<u8> {
    bytes::le16_bytes(e.handle) + seq![e.category.code()] + uuid_bytes(e.uuid)
}

/// The bytes of a list of entries, one after the other.
pub open spec fn entries_bytes(s: Seq<EntryModel>) -> Seq<u8>
    decreases s.len(),
{
    if s.len() == 0 {
        Seq::empty()
    } else {
        entries_bytes(s.drop_last()) + entry_bytes(s.last())
    }
}

/// The bytes of a message.
pub open spec fn pdu_bytes(m: PduModel) -> Seq<u8> {
    match m {
        PduModel::ErrorRsp { req_opcode, handle, error } => seq![
            SsapMsgCode::ErrorRsp.code(),
            req_opcode,
        ] + bytes::le16_bytes(handle) + seq![error.code()],
        PduModel::ExchangeInfoReq { mtu } => seq![SsapMsgCode::ExchangeInfoReq.code()]
            + bytes::le16_bytes(mtu),
        PduModel::ExchangeInfoRsp { mtu } => seq![SsapMsgCode::ExchangeInfoRsp.code()]
            + bytes::le16_bytes(mtu),
        PduModel::FindStructureReq { start_handle, end_handle } => seq![
            SsapMsgCode::FindStructureReq.code(),
        ] + bytes::le16_bytes(start_handle) + bytes::le16_bytes(end_handle),
        PduModel::FindStructureRsp { entries } => seq![SsapMsgCode::FindStructureRsp.code()]
            + entries_bytes(entries),
        PduModel::ReadReq { handle } => seq![SsapMsgCode::ReadReq.code()] + bytes::le16_bytes(handle),
        PduModel::ReadRsp { data } => seq![SsapMsgCode::ReadRsp.code()] + data,
        PduModel::WriteCmd { handle, data } => seq![SsapMsgCode::WriteCmd.code()]
            + bytes::le16_bytes(handle) + data,
        PduModel::WriteReq { handle, data } => seq![SsapMsgCode::WriteReq.code()]
            + bytes::le16_bytes(handle) + data,
        PduModel::WriteRsp { handle } => seq![SsapMsgCode::WriteRsp.code()] + bytes::le16_bytes(
            handle,
        ),
        PduModel::ValueNtf { handle, data } => seq![SsapMsgCode::ValueNtf.code()]
            + bytes::le16_bytes(handle) + data,
        PduModel::ValueInd { handle, data } => seq![SsapMsgCode::ValueInd.code()]
            + bytes::le16_bytes(handle) + data,
        PduModel::ValueAck { handle } => seq![SsapMsgCode::ValueAck.code()] + bytes::le16_bytes(
            handle,
        ),
    }
}

/// The entry at the start of `p`, which holds it whole; `None` where its UUID is
/// of another length than 2 or 16, or its category is not known.
pub open spec fn parse_entry(p: Seq<u8>) -> Option<EntryModel> {
    let uuid = if p[3] == 2 {
        Some(UuidModel::Uuid16(bytes::le16(p[4], p[5])))
    } else if p[3] == 16 {
        Some(UuidModel::Uuid128(p.subrange(4, 20)))
    } else {
        None
    };
    match (uuid, EntryCategory::from_raw(p[2])) {
        (Some(uuid), Some(category)) => Some(
            EntryModel { handle: bytes::le16(p[0], p[1]), category, uuid },
        ),
        _ => None,
    }
}

/// The entries of a list, up to the first one that is cut short. Entries that
/// cannot be understood are skipped.
pub open spec fn parse_entries(p: Seq<u8>) -> Seq<EntryModel>
    decreases p.len(),
{
    if p.len() < 4 || p.len() < 4 + p[3] {
        Seq::empty()
    } else {
        let rest = parse_entries(p.skip(4 + p[3]));
        match parse_entry(p) {
            Some(e) => seq![e] + rest,
            None => rest,
        }
    }
}

/// The message that `b` spells, if any. Bytes behind a message of fixed length
/// are not looked at.
pub open spec fn parse_pdu(b: Seq<u8>) -> Option<PduModel> {
    if b.len() == 0 {
        None
    } else if b[0] == 0x05 {
        Some(PduModel::FindStructureRsp { entries: parse_entries(b.skip(1)) })
    } else if b[0] == 0x09 {
        Some(PduModel::ReadRsp { data: b.skip(1) })
    } else if b.len() < 3 {
        None
    } else if b[0] == 0x01 {
        if b.len() < 5 {
            None
        } else {
            Some(
                PduModel::ErrorRsp {
                    req_opcode: b[1],
                    handle: bytes::le16(b[2], b[3]),
                    error: SsapError::from_raw(b[4]),
                },
            )
        }
    } else if b[0] == 0x04 {
        if b.len() < 5 {
            None
        } else {
            Some(
                PduModel::FindStructureReq {
                    start_handle: bytes::le16(b[1], b[2]),
                    end_handle: bytes::le16(b[3], b[4]),
                },
            )
        }
    } else {
        let w = bytes::le16(b[1], b[2]);
        let data = b.skip(3);
        if b[0] == 0x02 {
            Some(PduModel::ExchangeInfoReq { mtu: w })
        } else if b[0] == 0x03 {
            Some(PduModel::ExchangeInfoRsp { mtu: w })
        } else if b[0] == 0x08 {
            Some(PduModel::ReadReq { handle: w })
        } else if b[0] == 0x0C {
            Some(PduModel::WriteCmd { handle: w, data })
        } else if b[0] == 0x0D {
            Some(PduModel::WriteReq { handle: w, data })
        } else if b[0] == 0x0E {
            Some(PduModel::WriteRsp { handle: w })
        } else if b[0] == 0x0F {
            Some(PduModel::ValueNtf { handle: w, data })
        } else if b[0] == 0x10 {
            Some(PduModel::ValueInd { handle: w, data })
        } else if b[0] == 0x11 {
            Some(PduModel::ValueAck { handle: w })
        } else {
            None
        }
    }
}

/// Whether a message can be put on the wire: a vendor UUID has 16 bytes.
pub open spec fn pdu_ok(m: PduModel) -> bool {
    match m {
        PduModel::FindStructureRsp { entries } => forall|i: int|
            0 <= i < entries.len() ==> uuid_ok((#[trigger] entries[i]).uuid),
        _ => true,
    }
}

/// A vendor UUID has 16 bytes.
pub open spec fn uuid_ok(u: UuidModel) -> bool {
    match u {
        UuidModel::Uuid16(_) => true,
        UuidModel::Uuid128(v) => v.len() == 16,
    }
}

proof fn entries_bytes_front(s: Seq<EntryModel>)
    requires
        s.len() > 0,
    ensures
        entries_bytes(s) == entry_bytes(s[0]) + entries_bytes(s.drop_first()),
    decreases s.len(),
{
    if s.len() == 1 {
        assert(s.drop_last() == Seq::<EntryModel>::empty());
        assert(s.drop_first() == Seq::<EntryModel>::empty());
        assert(entries_bytes(s) == entry_bytes(s[0]) + entries_bytes(s.drop_first()));
    } else {
        entries_bytes_front(s.drop_last());
        assert(s.drop_last().drop_first() == s.drop_first().drop_last());
        assert(entries_bytes(s) == entry_bytes(s[0]) + entries_bytes(s.drop_first()));
    }
}

proof fn parse_entries_of_bytes(s: Seq<EntryModel>)
    requires
        forall|i: int| 0 <= i < s.len() ==> uuid_ok((#[trigger] s[i]).uuid),
    ensures
        parse_entries(entries_bytes(s)) == s,
    decreases s.len(),
{
    if s.len() > 0 {
        entries_bytes_front(s);
        let e = s[0];
        let t = s.drop_first();
        let b = entries_bytes(s);
        assert forall|i: int| 0 <= i < t.len() implies uuid_ok((#[trigger] t[i]).uuid) by {
            assert(t[i] == s[i + 1]);
        }
        parse_entries_of_bytes(t);
        assert(b.skip(4 + b[3]) == entries_bytes(t));
        match e.uuid {
            UuidModel::Uuid16(v) => {},
            UuidModel::Uuid128(v) => {
                assert(b.subrange(4, 20) == v);
            },
        }
        assert(parse_entry(b) == Some(e));
        assert(seq![e] + t == s);
    }
}

/// Every message comes back from its bytes.
pub proof fn pdu_round_trip(m: PduModel)
    requires
        pdu_ok(m),
    ensures
        parse_pdu(pdu_bytes(m)) == Some(m),
{
    let b = pdu_bytes(m);
    match m {
        PduModel::FindStructureRsp { entries } => {
            parse_entries_of_bytes(entries);
            assert(b.skip(1) == entries_bytes(entries));
        },
        PduModel::ReadRsp { data } => {
            assert(b.skip(1) == data);
        },
        PduModel::WriteCmd { handle, data } => {
            assert(b.skip(3) == data);
        },
        PduModel::WriteReq { handle, data } => {
            assert(b.skip(3) == data);
        },
        PduModel::ValueNtf { handle, data } => {
            assert(b.skip(3) == data);
        },
        PduModel::ValueInd { handle, data } => {
            assert(b.skip(3) == data);
        },
        _ => {},
    }
}

fn push_entry(v: &mut Vec<u8>, e: &EntryInfo)
    ensures
        final(v)@ == old(v)@ + entry_bytes(e@),
{
    bytes::push_le16(v, e.handle);
    v.push(e.category.code());
    match e.uuid {
        SsapUuid::Uuid16(u) => {
            v.push(2);
            bytes::push_le16(v, u);
        },
        SsapUuid::Uuid128(u) => {
            v.push(16);
            bytes::extend(v, u.as_slice());
        },
    }
    assert(v@ == old(v)@ + entry_bytes(e@));
}

fn coded(code: SsapMsgCode, w: u16, data: &[u8]) -> (r: Vec<u8>)
    ensures
        r@ == seq![code.code()] + bytes::le16_bytes(w) + data@,
{
    let mut v: Vec<u8> = vec![code.code()];
    bytes::push_le16(&mut v, w);
    bytes::extend(&mut v, data);
    v
}

fn coded16(code: SsapMsgCode, w: u16) -> (r: Vec<u8>)
    ensures
        r@ == seq![code.code()] + bytes::le16_bytes(w),
{
    let mut v: Vec<u8> = vec![code.code()];
    bytes::push_le16(&mut v, w);
    v
}

fn parse_entry_list(p: &[u8]) -> (r: Vec<EntryInfo>)
    ensures
        entries_view(r@) == parse_entries(p@),
{
    let mut entries: Vec<EntryInfo> = Vec::new();
    let mut off: usize = 0;
    assert(p@.skip(0) == p@);
    assert(entries_view(entries@) + parse_entries(p@) == parse_entries(p@));
    while p.len() - off >= 4
        invariant
            off <= p.len(),
            entries_view(entries@) + parse_entries(p@.skip(off as int)) == parse_entries(p@),
        ensures
            entries_view(entries@) == parse_entries(p@),
        decreases p.len() - off,
    {
        let ghost q = p@.skip(off as int);
        let ghost before = entries_view(entries@);
        let uuid_len = p[off + 3] as usize;
        if p.len() - off - 4 < uuid_len {
            assert(before + parse_entries(q) == before);
            break;
        }
        assert(p@.skip(off + 4 + uuid_len) == q.skip(4 + q[3]));
        let uuid: Option<SsapUuid> = if uuid_len == 2 {
            Some(SsapUuid::Uuid16(bytes::le16(p[off + 4], p[off + 5])))
        } else if uuid_len == 16 {
            let u = bytes::slice_of(p, off + 4, off + 20);
            let a: [u8; 16] = bytes::to_array(u.as_slice());
            assert(a@ == q.subrange(4, 20));
            Some(SsapUuid::Uuid128(a))
        } else {
            None
        };
        match (uuid, EntryCategory::from_raw(p[off + 2])) {
            (Some(uuid), Some(category)) => {
                let e = EntryInfo { handle: bytes::le16(p[off], p[off + 1]), category, uuid };
                assert(parse_entry(q) == Some(e@));
                entries.push(e);
                assert(entries_view(entries@) == before.push(e@));
                assert(before + (seq![e@] + parse_entries(q.skip(4 + q[3]))) == before.push(e@)
                    + parse_entries(q.skip(4 + q[3])));
            },
            _ => {},
        }
        off = off + 4 + uuid_len;
    }
    entries
}

impl SsapPdu {
    fn to_bytes(&self) -> (r: Vec<u8>)
        ensures
            r@ == pdu_bytes(self@),
    {
        match self {
            SsapPdu::ErrorRsp { req_opcode, handle, error } => {
                let mut v: Vec<u8> = vec![SsapMsgCode::ErrorRsp.code(), *req_opcode];
                bytes::push_le16(&mut v, *handle);
                v.push(error.code());
                v
            },
            SsapPdu::ExchangeInfoReq { mtu } => coded16(SsapMsgCode::ExchangeInfoReq, *mtu),
            SsapPdu::ExchangeInfoRsp { mtu } => coded16(SsapMsgCode::ExchangeInfoRsp, *mtu),
            SsapPdu::FindStructureReq { start_handle, end_handle } => {
                let mut v = coded16(SsapMsgCode::FindStructureReq, *start_handle);
                bytes::push_le16(&mut v, *end_handle);
                v
            },
            SsapPdu::FindStructureRsp { entries } => {
                let mut v: Vec<u8> = vec![SsapMsgCode::FindStructureRsp.code()];
                let mut i: usize = 0;
                while i < entries.len()
                    invariant
                        i <= entries.len(),
                        v@ == seq![SsapMsgCode::FindStructureRsp.code()] + entries_bytes(
                            entries_view(entries@.take(i as int)),
                        ),
                    decreases entries.len() - i,
                {
                    push_entry(&mut v, &entries[i]);
                    i = i + 1;
                    let ghost s = entries_view(entries@.take(i as int));
                    assert(s.drop_last() == entries_view(entries@.take(i - 1)));
                    assert(s.last() == entries@[i - 1]@);
                }
                assert(entries@.take(i as int) == entries@);
                v
            },
            SsapPdu::ReadReq { handle } => coded16(SsapMsgCode::ReadReq, *handle),
            SsapPdu::ReadRsp { data } => {
                let mut v: Vec<u8> = vec![SsapMsgCode::ReadRsp.code()];
                bytes::extend(&mut v, data.as_slice());
                v
            },
            SsapPdu::WriteCmd { handle, data } => coded(
                SsapMsgCode::WriteCmd,
                *handle,
                data.as_slice(),
            ),
            SsapPdu::WriteReq { handle, data } => coded(
                SsapMsgCode::WriteReq,
                *handle,
                data.as_slice(),
            ),
            SsapPdu::WriteRsp { handle } => coded16(SsapMsgCode::WriteRsp, *handle),
            SsapPdu::ValueNtf { handle, data } => coded(
                SsapMsgCode::ValueNtf,
                *handle,
                data.as_slice(),
            ),
            SsapPdu::ValueInd { handle, data } => coded(
                SsapMsgCode::ValueInd,
                *handle,
                data.as_slice(),
            ),
            SsapPdu::ValueAck { handle } => coded16(SsapMsgCode::ValueAck, *handle),
        }
    }

    /// Writes the message to the start of `buf` and returns its length, or
    /// `ENOMEM` where it does not fit.
    pub fn encode(&self, buf: &mut [u8]) -> (r: Result<usize, Errno>)
        ensures
            encoded(self@, old(buf)@, final(buf)@, r),
    {
        let v = self.to_bytes();
        if buf.len() < v.len() {
            return Err(Errno::ENOMEM);
        }
        bytes::put_slice(buf, v.as_slice());
        Ok(v.len())
    }

    /// Reads a message, or returns `EINVAL` where `buf` spells none.
    pub fn decode(buf: &[u8]) -> (r: Result<SsapPdu, Errno>)
        ensures
            match r {
                Ok(pdu) => parse_pdu(buf@) == Some(pdu@),
                Err(e) => e == Errno::EINVAL && parse_pdu(buf@) is None,
            },
    {
        if buf.len() == 0 {
            return Err(Errno::EINVAL);
        }
        let opcode = buf[0];
        if opcode == 0x05 {
            let p = bytes::slice_of(buf, 1, buf.len());
            assert(p@ == buf@.skip(1));
            let entries = parse_entry_list(p.as_slice());
            return Ok(SsapPdu::FindStructureRsp { entries });
        }
        if opcode == 0x09 {
            let data = bytes::slice_of(buf, 1, buf.len());
            assert(data@ == buf@.skip(1));
            return Ok(SsapPdu::ReadRsp { data });
        }
        if buf.len() < 3 {
            return Err(Errno::EINVAL);
        }
        if opcode == 0x01 {
            if buf.len() < 5 {
                return Err(Errno::EINVAL);
            }
            return Ok(
                SsapPdu::ErrorRsp {
                    req_opcode: buf[1],
                    handle: bytes::le16(buf[2], buf[3]),
                    error: SsapError::from_raw(buf[4]),
                },
            );
        }
        if opcode == 0x04 {
            if buf.len() < 5 {
                return Err(Errno::EINVAL);
            }
            return Ok(
                SsapPdu::FindStructureReq {
                    start_handle: bytes::le16(buf[1], buf[2]),
                    end_handle: bytes::le16(buf[3], buf[4]),
                },
            );
        }
        let w = bytes::le16(buf[1], buf[2]);
        let data = bytes::slice_of(buf, 3, buf.len());
        assert(data@ == buf@.skip(3));
        match opcode {
            0x02 => Ok(SsapPdu::ExchangeInfoReq { mtu: w }),
            0x03 => Ok(SsapPdu::ExchangeInfoRsp { mtu: w }),
            0x08 => Ok(SsapPdu::ReadReq { handle: w }),
            0x0C => Ok(SsapPdu::WriteCmd { handle: w, data }),
            0x0D => Ok(SsapPdu::WriteReq { handle: w, data }),
            0x0E => Ok(SsapPdu::WriteRsp { handle: w }),
            0x0F => Ok(SsapPdu::ValueNtf { handle: w, data }),
            0x10 => Ok(SsapPdu::ValueInd { handle: w, data }),
            0x11 => Ok(SsapPdu::ValueAck { handle: w }),
            _ => Err(Errno::EINVAL),
        }
    }
}

/// What encoding `m` into a buffer does: the bytes of the message overwrite the
/// start of the buffer where they fit, and nothing changes where they do not.
pub open spec fn encoded(
    m: PduModel,
    before: Seq<u8>,
    after: Seq<u8>,
    r: Result<usize, Errno>,
) -> bool {
    match r {
        Ok(n) => n == pdu_bytes(m).len() && n <= before.len() && after == bytes::splice(
            before,
            0,
            pdu_bytes(m),
        ),
        Err(e) => e == Errno::ENOMEM && before.len() < pdu_bytes(m).len() && after == before,
    }
}

} // verus!
