//! Laws of numbers that stand for something.

use vstd::prelude::*;

use crate::conn_channel::{ChannelState, TransportMode};
use crate::conn_types::{AccessResponseType, ConnState, GtRole};
use crate::event_payload::SleEventType;
use crate::sle_adv::ExtAdvPhy;
use crate::sle_dli::{DliEventCode, DliPacketType, SleBus, SleFeature, SleStatus};
use crate::sle_netlink::{NlAttr, NlCmd};
use crate::sle_opcode::{DliOgf, SleOpcode};
use crate::sle_pdu::{AdvDataType, BroadcastType, PacketType};
use crate::sle_phy::{MimoMode, Modulation};
use crate::sle_power::PowerState;
use crate::sle_security::{PairingMethod, SecurityMode, SecurityState};
use crate::sle_ssap::{ClientConfigFlag, DataType, DescriptorType};
use crate::sle_transport::SleProtoId;
use crate::sle_uapi::{DiscoveryLevel, SciBus, SciState};
use crate::ssap_pdu::{EntryCategory, SsapError, SsapMsgCode};
use crate::sync_link::{SyncLinkState, SyncLinkType};
use crate::transport_frame::TransportFrameType;

verus! {

/// The numbers of transport mode: each value has its own.
pub proof fn transport_mode_codes(a: TransportMode, b: TransportMode, x: u8, y: u8)
    requires
        call_ensures(TransportMode::code, (a,), x),
        call_ensures(TransportMode::code, (b,), y),
    ensures
        x == y <==> a == b,
        a == TransportMode::Unreliable ==> x == 0,
        a == TransportMode::Reliable ==> x == 1,
{
}

/// The numbers of channel state: each value has its own.
pub proof fn channel_state_codes(a: ChannelState, b: ChannelState, x: u8, y: u8)
    requires
        call_ensures(ChannelState::code, (a,), x),
        call_ensures(ChannelState::code, (b,), y),
    ensures
        x == y <==> a == b,
        a == ChannelState::Closed ==> x == 0,
        a == ChannelState::Open ==> x == 1,
{
}

/// The numbers of gt role: each value has its own.
pub proof fn gt_role_codes(a: GtRole, b: GtRole, x: u8, y: u8)
    requires
        call_ensures(GtRole::code, (a,), x),
        call_ensures(GtRole::code, (b,), y),
    ensures
        x == y <==> a == b,
        a == GtRole::TNode ==> x == 0,
        a == GtRole::GNode ==> x == 1,
{
}

/// The numbers of access response type: each value has its own.
pub proof fn access_response_type_codes(a: AccessResponseType, b: AccessResponseType, x: u8, y: u8)
    requires
        call_ensures(AccessResponseType::code, (a,), x),
        call_ensures(AccessResponseType::code, (b,), y),
    ensures
        x == y <==> a == b,
        a == AccessResponseType::Accepted ==> x == 0,
        a == AccessResponseType::RoleNegotiationFailed ==> x == 1,
        a == AccessResponseType::ResourceLimited ==> x == 2,
        a == AccessResponseType::UserRejected ==> x == 3,
{
}

/// A number of access response type is read back.
pub proof fn access_response_type_is_read(
    a: AccessResponseType,
    x: u8,
    r: Option<AccessResponseType>,
    y: u8,
    s: Option<AccessResponseType>,
)
    requires
        call_ensures(AccessResponseType::code, (a,), x),
        call_ensures(AccessResponseType::from_raw, (x,), r),
        call_ensures(AccessResponseType::from_raw, (y,), s),
    ensures
        r == Some(a),
        s matches Some(b) ==> b.code() == y,
{
}

/// The numbers of conn state: each value has its own.
pub proof fn conn_state_codes(a: ConnState, b: ConnState, x: u8, y: u8)
    requires
        call_ensures(ConnState::code, (a,), x),
        call_ensures(ConnState::code, (b,), y),
    ensures
        x == y <==> a == b,
        a == ConnState::Idle ==> x == 0,
        a == ConnState::Connecting ==> x == 1,
        a == ConnState::Connected ==> x == 2,
        a == ConnState::Disconnecting ==> x == 3,
        a == ConnState::ConnectPending ==> x == 4,
        a == ConnState::DisconnectPending ==> x == 5,
{
}

/// The numbers of sle event type: each value has its own.
pub proof fn sle_event_type_codes(a: SleEventType, b: SleEventType, x: u8, y: u8)
    requires
        call_ensures(SleEventType::code, (a,), x),
        call_ensures(SleEventType::code, (b,), y),
    ensures
        x == y <==> a == b,
        a == SleEventType::ConnStateChanged ==> x == 0x01,
        a == SleEventType::AdvReport ==> x == 0x02,
        a == SleEventType::DataReceived ==> x == 0x03,
        a == SleEventType::SecurityChanged ==> x == 0x04,
        a == SleEventType::PowerChanged ==> x == 0x05,
        a == SleEventType::HardwareError ==> x == 0x06,
        a == SleEventType::CommandComplete ==> x == 0x07,
        a == SleEventType::CommandStatus ==> x == 0x08,
        a == SleEventType::BroadcastEnd ==> x == 0x09,
        a == SleEventType::PhyUpdate ==> x == 0x0A,
        a == SleEventType::ConnParamUpdate ==> x == 0x0B,
        a == SleEventType::DataLenChange ==> x == 0x0C,
        a == SleEventType::DataBufOverflow ==> x == 0x0D,
        a == SleEventType::PeerConnParamReq ==> x == 0x0E,
        a == SleEventType::PowerChangeReport ==> x == 0x0F,
        a == SleEventType::NumCompletedPackets ==> x == 0x10,
        a == SleEventType::EncryptionParamReq ==> x == 0x11,
        a == SleEventType::ControllerSignalData ==> x == 0x12,
        a == SleEventType::ReadPeerFeatures ==> x == 0x13,
        a == SleEventType::ReadPeerVersion ==> x == 0x14,
        a == SleEventType::ReadPeerPower ==> x == 0x15,
        a == SleEventType::InquiryRequestReport ==> x == 0x16,
        a == SleEventType::PairRequest ==> x == 0x17,
        a == SleEventType::PairInfoExchangeReq ==> x == 0x18,
        a == SleEventType::PairInfoReport ==> x == 0x19,
        a == SleEventType::PairOptionReport ==> x == 0x1A,
        a == SleEventType::PeerPublicKeyReport ==> x == 0x1B,
        a == SleEventType::PairExtDataReport ==> x == 0x1C,
        a == SleEventType::KeypressNotification ==> x == 0x1D,
        a == SleEventType::PairRandomReport ==> x == 0x1E,
        a == SleEventType::PairConfirmReport ==> x == 0x1F,
        a == SleEventType::DHKeyCheckReport ==> x == 0x20,
        a == SleEventType::PairFailureReport ==> x == 0x21,
        a == SleEventType::NarrowbandMeasInfo ==> x == 0x22,
        a == SleEventType::NarrowbandMeasStateChange ==> x == 0x23,
        a == SleEventType::NarrowbandMeasParamReport ==> x == 0x24,
        a == SleEventType::LocalNarrowbandMeasCap ==> x == 0x25,
        a == SleEventType::PeerNarrowbandMeasCap ==> x == 0x26,
        a == SleEventType::MeasStateChange ==> x == 0x27,
        a == SleEventType::MeasQuantityReport ==> x == 0x28,
        a == SleEventType::SlbAdvReport ==> x == 0x29,
        a == SleEventType::SlbConnComplete ==> x == 0x2A,
        a == SleEventType::SlbUcastChannelComplete ==> x == 0x2B,
        a == SleEventType::SlbUcastChannelUpdate ==> x == 0x2C,
        a == SleEventType::SlbChannelDelete ==> x == 0x2D,
        a == SleEventType::SlbNumCompletedPackets ==> x == 0x2E,
        a == SleEventType::TimeSyncStatusUpdate ==> x == 0x2F,
        a == SleEventType::TimeSyncRequest ==> x == 0x30,
        a == SleEventType::SyncUcastSetupRequest ==> x == 0x31,
        a == SleEventType::SyncUcastSetupComplete ==> x == 0x32,
        a == SleEventType::SyncMcastSetupRequest ==> x == 0x33,
        a == SleEventType::SyncMcastSetupComplete ==> x == 0x34,
{
}

/// The numbers of ext adv phy: each value has its own.
pub proof fn ext_adv_phy_codes(a: ExtAdvPhy, b: ExtAdvPhy, x: u8, y: u8)
    requires
        call_ensures(ExtAdvPhy::code, (a,), x),
        call_ensures(ExtAdvPhy::code, (b,), y),
    ensures
        x == y <==> a == b,
        a == ExtAdvPhy::Phy1M ==> x == 0,
        a == ExtAdvPhy::Phy2M ==> x == 1,
        a == ExtAdvPhy::PhyCoded ==> x == 2,
{
}

/// A number of ext adv phy is read back.
pub proof fn ext_adv_phy_is_read(
    a: ExtAdvPhy,
    x: u8,
    r: Option<ExtAdvPhy>,
    y: u8,
    s: Option<ExtAdvPhy>,
)
    requires
        call_ensures(ExtAdvPhy::code, (a,), x),
        call_ensures(ExtAdvPhy::from_raw, (x,), r),
        call_ensures(ExtAdvPhy::from_raw, (y,), s),
    ensures
        r == Some(a),
        s matches Some(b) ==> b.code() == y,
{
}

/// The numbers of dli packet type: each value has its own.
pub proof fn dli_packet_type_codes(a: DliPacketType, b: DliPacketType, x: u8, y: u8)
    requires
        call_ensures(DliPacketType::code, (a,), x),
        call_ensures(DliPacketType::code, (b,), y),
    ensures
        x == y <==> a == b,
        a == DliPacketType::Command ==> x == 0xA1,
        a == DliPacketType::Event ==> x == 0xA2,
        a == DliPacketType::AsyncUnicast ==> x == 0xA3,
        a == DliPacketType::SyncUnicast ==> x == 0xA4,
        a == DliPacketType::AsyncMulticast ==> x == 0xA5,
{
}

/// A number of dli packet type is read back.
pub proof fn dli_packet_type_is_read(
    a: DliPacketType,
    x: u8,
    r: Option<DliPacketType>,
    y: u8,
    s: Option<DliPacketType>,
)
    requires
        call_ensures(DliPacketType::code, (a,), x),
        call_ensures(DliPacketType::from_raw, (x,), r),
        call_ensures(DliPacketType::from_raw, (y,), s),
    ensures
        r == Some(a),
        s matches Some(b) ==> b.code() == y,
{
}

/// The numbers of sle bus: each value has its own.
pub proof fn sle_bus_codes(a: SleBus, b: SleBus, x: u8, y: u8)
    requires
        call_ensures(SleBus::code, (a,), x),
        call_ensures(SleBus::code, (b,), y),
    ensures
        x == y <==> a == b,
        a == SleBus::Virtual ==> x == 0,
        a == SleBus::Uart ==> x == 1,
        a == SleBus::Spi ==> x == 2,
        a == SleBus::Sdio ==> x == 3,
        a == SleBus::Usb ==> x == 4,
        a == SleBus::Mmio ==> x == 5,
{
}

/// The numbers of sle feature: each value has its own.
pub proof fn sle_feature_masks(a: SleFeature, b: SleFeature, x: u64, y: u64)
    requires
        call_ensures(SleFeature::mask, (a,), x),
        call_ensures(SleFeature::mask, (b,), y),
    ensures
        x == y <==> a == b,
        a == SleFeature::Encryption ==> x == 0x1,
        a == SleFeature::DataLenUpdate ==> x == 0x2,
        a == SleFeature::Ping ==> x == 0x4,
        a == SleFeature::FilterPolicy ==> x == 0x8,
        a == SleFeature::Privacy ==> x == 0x10,
        a == SleFeature::FrameType2 ==> x == 0x20,
        a == SleFeature::FrameType3 ==> x == 0x40,
        a == SleFeature::FrameType4 ==> x == 0x80,
        a == SleFeature::Bw2m ==> x == 0x100,
        a == SleFeature::Bw4m ==> x == 0x200,
        a == SleFeature::Pilot4to1 ==> x == 0x400,
        a == SleFeature::Pilot8to1 ==> x == 0x800,
        a == SleFeature::Pilot16to1 ==> x == 0x1000,
        a == SleFeature::Crc32 ==> x == 0x2000,
        a == SleFeature::Mcs0 ==> x == 0x4000,
        a == SleFeature::Mcs1 ==> x == 0x8000,
        a == SleFeature::Mcs2 ==> x == 0x10000,
        a == SleFeature::Mcs3 ==> x == 0x20000,
        a == SleFeature::Mcs4 ==> x == 0x40000,
        a == SleFeature::Mcs5 ==> x == 0x80000,
        a == SleFeature::Mcs6 ==> x == 0x100000,
        a == SleFeature::Mcs7 ==> x == 0x200000,
        a == SleFeature::Mcs8 ==> x == 0x400000,
        a == SleFeature::Mcs9 ==> x == 0x800000,
        a == SleFeature::Mcs10 ==> x == 0x1000000,
        a == SleFeature::Mcs11 ==> x == 0x2000000,
        a == SleFeature::Mcs12 ==> x == 0x4000000,
        a == SleFeature::TxRxGap25us ==> x == 0x8000000,
        a == SleFeature::TxRxGap50us ==> x == 0x10000000,
        a == SleFeature::TxRxGap75us ==> x == 0x20000000,
        a == SleFeature::TxRxGap100us ==> x == 0x40000000,
        a == SleFeature::SysMgmtFrame ==> x == 0x80000000,
        a == SleFeature::SysMgmtHopping ==> x == 0x100000000,
        a == SleFeature::RemotePkVerify ==> x == 0x200000000,
        a == SleFeature::PowerControl ==> x == 0x400000000,
        a == SleFeature::ChannelQuality ==> x == 0x800000000,
        a == SleFeature::Band5ghz ==> x == 0x1000000000,
        a == SleFeature::RoleSwitch ==> x == 0x2000000000,
        a == SleFeature::Multicast1 ==> x == 0x4000000000,
        a == SleFeature::Multicast2 ==> x == 0x8000000000,
        a == SleFeature::Multicast3 ==> x == 0x10000000000,
        a == SleFeature::Multicast4 ==> x == 0x20000000000,
        a == SleFeature::LinkParamUpdate1 ==> x == 0x40000000000,
        a == SleFeature::LinkParamUpdate2 ==> x == 0x80000000000,
        a == SleFeature::TgMode ==> x == 0x100000000000,
        a == SleFeature::NtpTimeType1 ==> x == 0x200000000000,
        a == SleFeature::NtpTimeType2 ==> x == 0x400000000000,
        a == SleFeature::CbgFeedback ==> x == 0x800000000000,
        a == SleFeature::SensingMeas1 ==> x == 0x1000000000000,
        a == SleFeature::SensingMeas2 ==> x == 0x2000000000000,
        a == SleFeature::SyncDataUnicast ==> x == 0x4000000000000,
        a == SleFeature::SyncDataMcast1 ==> x == 0x8000000000000,
        a == SleFeature::SyncDataMcast2 ==> x == 0x10000000000000,
{
}

/// The numbers of sle status: each value has its own.
pub proof fn sle_status_codes(a: SleStatus, b: SleStatus, x: u8, y: u8)
    requires
        call_ensures(SleStatus::code, (a,), x),
        call_ensures(SleStatus::code, (b,), y),
    ensures
        x == y <==> a == b,
        a == SleStatus::Success ==> x == 0x00,
        a == SleStatus::UnknownCommand ==> x == 0x01,
        a == SleStatus::InvalidParameters ==> x == 0x02,
        a == SleStatus::HardwareFailure ==> x == 0x03,
        a == SleStatus::ResourceExhausted ==> x == 0x04,
        a == SleStatus::NotConnected ==> x == 0x05,
        a == SleStatus::AlreadyActive ==> x == 0x06,
        a == SleStatus::PermissionDenied ==> x == 0x07,
        a == SleStatus::Timeout ==> x == 0x08,
{
}

/// A number of sle status is read back.
pub proof fn sle_status_is_read(
    a: SleStatus,
    x: u8,
    r: SleStatus,
    y: u8,
    s: SleStatus,
)
    requires
        call_ensures(SleStatus::code, (a,), x),
        call_ensures(SleStatus::from_raw, (x,), r),
        call_ensures(SleStatus::from_raw, (y,), s),
    ensures
        r == a,
{
}

/// The numbers of dli event code: each value has its own.
pub proof fn dli_event_code_codes(a: DliEventCode, b: DliEventCode, x: u16, y: u16)
    requires
        call_ensures(DliEventCode::code, (a,), x),
        call_ensures(DliEventCode::code, (b,), y),
    ensures
        x == y <==> a == b,
        a == DliEventCode::CmdStatus ==> x == 0x0001,
        a == DliEventCode::CmdComplete ==> x == 0x0002,
        a == DliEventCode::DataLenChange ==> x == 0x0003,
        a == DliEventCode::BroadcastEnd ==> x == 0x0004,
        a == DliEventCode::DisconnectDone ==> x == 0x0005,
        a == DliEventCode::PeerConnParamReq ==> x == 0x0007,
        a == DliEventCode::PowerChange ==> x == 0x0008,
        a == DliEventCode::TxPktCount ==> x == 0x0009,
        a == DliEventCode::HwError ==> x == 0x000A,
        a == DliEventCode::DataBufOverflow ==> x == 0x000B,
        a == DliEventCode::EncParamReq ==> x == 0x000E,
        a == DliEventCode::EncStatusChange ==> x == 0x0011,
        a == DliEventCode::CtrlSignalData ==> x == 0x0014,
        a == DliEventCode::ConnEstablished ==> x == 0x0015,
        a == DliEventCode::PeerFeatures ==> x == 0x0016,
        a == DliEventCode::PeerVersion ==> x == 0x0017,
        a == DliEventCode::PhyParamUpdate ==> x == 0x0018,
        a == DliEventCode::ConnParamUpdate ==> x == 0x0019,
        a == DliEventCode::BroadcastReport ==> x == 0x001A,
        a == DliEventCode::ReadRemotePower ==> x == 0x001B,
        a == DliEventCode::ScanReport ==> x == 0x001C,
        a == DliEventCode::PairRequest ==> x == 0x001D,
        a == DliEventCode::PairInfoExchange ==> x == 0x001E,
        a == DliEventCode::PairInfoReport ==> x == 0x001F,
        a == DliEventCode::PairOptionReport ==> x == 0x0020,
        a == DliEventCode::RemotePublicKey ==> x == 0x0021,
        a == DliEventCode::PairExtDataReport ==> x == 0x0022,
        a == DliEventCode::PasskeyNotify ==> x == 0x0023,
        a == DliEventCode::PairRandomReport ==> x == 0x0024,
        a == DliEventCode::PairConfirmReport ==> x == 0x0025,
        a == DliEventCode::DhkeyVerifyReport ==> x == 0x0026,
        a == DliEventCode::PairFailReport ==> x == 0x0027,
        a == DliEventCode::NbfhMeasInfo ==> x == 0x0028,
        a == DliEventCode::NbfhMeasStateChange ==> x == 0x0029,
        a == DliEventCode::NbfhMeasParams ==> x == 0x002A,
        a == DliEventCode::LocalNbfhMeasCap ==> x == 0x002B,
        a == DliEventCode::RemoteNbfhMeasCap ==> x == 0x002C,
        a == DliEventCode::MeasStateChange ==> x == 0x002D,
        a == DliEventCode::MeasReport ==> x == 0x002E,
        a == DliEventCode::SlbBroadcastReport ==> x == 0x002F,
        a == DliEventCode::SlbConnEstablished ==> x == 0x0030,
        a == DliEventCode::SlbLogChannelDone ==> x == 0x0031,
        a == DliEventCode::SlbLogChannelUpdate ==> x == 0x0032,
        a == DliEventCode::SlbLogChannelDelete ==> x == 0x0033,
        a == DliEventCode::SlbLogChannelTxPkt ==> x == 0x0034,
        a == DliEventCode::TimeSyncUpdate ==> x == 0x0035,
        a == DliEventCode::TimeSyncRequest ==> x == 0x0036,
        a == DliEventCode::SyncUcastRequest ==> x == 0x0038,
        a == DliEventCode::SyncUcastDone ==> x == 0x0039,
        a == DliEventCode::SyncMcastRequest ==> x == 0x003A,
        a == DliEventCode::SyncMcastDone ==> x == 0x003B,
{
}

/// The numbers of nl cmd: each value has its own.
pub proof fn nl_cmd_codes(a: NlCmd, b: NlCmd, x: u8, y: u8)
    requires
        call_ensures(NlCmd::code, (a,), x),
        call_ensures(NlCmd::code, (b,), y),
    ensures
        x == y <==> a == b,
        a == NlCmd::Unspec ==> x == 0,
        a == NlCmd::GetDevInfo ==> x == 1,
        a == NlCmd::DevRegister ==> x == 2,
        a == NlCmd::DevUnregister ==> x == 3,
        a == NlCmd::StartAdv ==> x == 4,
        a == NlCmd::StopAdv ==> x == 5,
        a == NlCmd::StartScan ==> x == 6,
        a == NlCmd::StopScan ==> x == 7,
        a == NlCmd::InjectAdv ==> x == 8,
        a == NlCmd::Connect ==> x == 9,
        a == NlCmd::Disconnect ==> x == 10,
        a == NlCmd::GetConnInfo ==> x == 11,
        a == NlCmd::ConnSend ==> x == 12,
        a == NlCmd::ConnRecv ==> x == 13,
        a == NlCmd::GetConnList ==> x == 14,
        a == NlCmd::SetPsk ==> x == 15,
        a == NlCmd::Pair ==> x == 16,
        a == NlCmd::GetSecInfo ==> x == 17,
        a == NlCmd::EncryptOn ==> x == 18,
        a == NlCmd::SsapRegister ==> x == 19,
        a == NlCmd::GetSsapInfo ==> x == 20,
        a == NlCmd::SsapRead ==> x == 21,
        a == NlCmd::SsapWrite ==> x == 22,
        a == NlCmd::GetPmInfo ==> x == 23,
        a == NlCmd::SetPmState ==> x == 24,
        a == NlCmd::SetPmInterval ==> x == 25,
        a == NlCmd::Event ==> x == 26,
        a == NlCmd::GetDliInfo ==> x == 27,
{
}

/// The numbers of nl attr: each value has its own.
pub proof fn nl_attr_codes(a: NlAttr, b: NlAttr, x: u16, y: u16)
    requires
        call_ensures(NlAttr::code, (a,), x),
        call_ensures(NlAttr::code, (b,), y),
    ensures
        x == y <==> a == b,
        a == NlAttr::Unspec ==> x == 0,
        a == NlAttr::DevIndex ==> x == 1,
        a == NlAttr::DevState ==> x == 2,
        a == NlAttr::DevName ==> x == 3,
        a == NlAttr::DevBus ==> x == 4,
        a == NlAttr::DevCount ==> x == 5,
        a == NlAttr::Addr ==> x == 6,
        a == NlAttr::PeerAddr ==> x == 7,
        a == NlAttr::Handle ==> x == 8,
        a == NlAttr::ConnState ==> x == 9,
        a == NlAttr::GtRole ==> x == 10,
        a == NlAttr::Bandwidth ==> x == 11,
        a == NlAttr::McsIndex ==> x == 12,
        a == NlAttr::TxBytes ==> x == 13,
        a == NlAttr::RxBytes ==> x == 14,
        a == NlAttr::Timeout10ms ==> x == 15,
        a == NlAttr::DiscoveryLevel ==> x == 16,
        a == NlAttr::IntervalMs ==> x == 17,
        a == NlAttr::WindowMs ==> x == 18,
        a == NlAttr::Rssi ==> x == 19,
        a == NlAttr::ScanResults ==> x == 20,
        a == NlAttr::Data ==> x == 21,
        a == NlAttr::DataLen ==> x == 22,
        a == NlAttr::Psk ==> x == 23,
        a == NlAttr::PairMethod ==> x == 24,
        a == NlAttr::SecState ==> x == 25,
        a == NlAttr::SecMode ==> x == 26,
        a == NlAttr::Encrypted ==> x == 27,
        a == NlAttr::KeyFingerprint ==> x == 28,
        a == NlAttr::SvcCount ==> x == 29,
        a == NlAttr::PropCount ==> x == 30,
        a == NlAttr::PropHandle ==> x == 31,
        a == NlAttr::Mtu ==> x == 32,
        a == NlAttr::PmState ==> x == 33,
        a == NlAttr::ForceActive ==> x == 34,
        a == NlAttr::PowerPct ==> x == 35,
        a == NlAttr::PmIntervalMin ==> x == 36,
        a == NlAttr::PmIntervalMax ==> x == 37,
        a == NlAttr::PmLatency ==> x == 38,
        a == NlAttr::EventType ==> x == 39,
        a == NlAttr::EventPayload ==> x == 40,
        a == NlAttr::EventPending ==> x == 41,
        a == NlAttr::EventTotal ==> x == 42,
        a == NlAttr::EventDropped ==> x == 43,
        a == NlAttr::DliBus ==> x == 44,
        a == NlAttr::DliFwVer ==> x == 45,
        a == NlAttr::DliFeatures ==> x == 46,
        a == NlAttr::DliMaxConn ==> x == 47,
{
}

/// The numbers of dli ogf: each value has its own.
pub proof fn dli_ogf_codes(a: DliOgf, b: DliOgf, x: u16, y: u16)
    requires
        call_ensures(DliOgf::code, (a,), x),
        call_ensures(DliOgf::code, (b,), y),
    ensures
        x == y <==> a == b,
        a == DliOgf::Basic ==> x == 0x01,
        a == DliOgf::Broadcast ==> x == 0x03,
        a == DliOgf::Scan ==> x == 0x04,
        a == DliOgf::Connection ==> x == 0x05,
        a == DliOgf::LinkControl ==> x == 0x06,
        a == DliOgf::Security ==> x == 0x07,
        a == DliOgf::Measurement ==> x == 0x08,
        a == DliOgf::SlbLogChannel ==> x == 0x09,
        a == DliOgf::SyncLink ==> x == 0x0A,
        a == DliOgf::Test ==> x == 0x3E,
{
}

/// The numbers of sle opcode: each value has its own.
pub proof fn sle_opcode_codes(a: SleOpcode, b: SleOpcode, x: u16, y: u16)
    requires
        call_ensures(SleOpcode::code, (a,), x),
        call_ensures(SleOpcode::code, (b,), y),
    ensures
        x == y <==> a == b,
        a == SleOpcode::ReadCmdLen ==> x == 0x0401,
        a == SleOpcode::ReadCtrlBuffer ==> x == 0x0402,
        a == SleOpcode::ReadLocalFeatures ==> x == 0x0403,
        a == SleOpcode::ReadLocalVersion ==> x == 0x0404,
        a == SleOpcode::SetMacAddr ==> x == 0x0405,
        a == SleOpcode::ReadMacAddr ==> x == 0x0406,
        a == SleOpcode::SetNonUniqueMac ==> x == 0x0407,
        a == SleOpcode::Reset ==> x == 0x0408,
        a == SleOpcode::AvailChannelInd ==> x == 0x0409,
        a == SleOpcode::ReadWhitelistSize ==> x == 0x040A,
        a == SleOpcode::ClearWhitelist ==> x == 0x040B,
        a == SleOpcode::AddWhitelist ==> x == 0x040C,
        a == SleOpcode::DeleteWhitelist ==> x == 0x040D,
        a == SleOpcode::SetSlbNodeRole ==> x == 0x040E,
        a == SleOpcode::ReadSlbNodeRole ==> x == 0x040F,
        a == SleOpcode::SetSlbWorkChannel ==> x == 0x0410,
        a == SleOpcode::ReadSlbWorkChannel ==> x == 0x0411,
        a == SleOpcode::ReadSlbCtrlBuffer ==> x == 0x0412,
        a == SleOpcode::ConfigFisaChannels ==> x == 0x0413,
        a == SleOpcode::EnableFisa ==> x == 0x0414,
        a == SleOpcode::ConfigSlbSyncSignal ==> x == 0x0415,
        a == SleOpcode::ReadSlbSyncSignal ==> x == 0x0416,
        a == SleOpcode::ReadSlbLocalPower ==> x == 0x0417,
        a == SleOpcode::EnableSlbCtrl ==> x == 0x0418,
        a == SleOpcode::IndicateTimeSync ==> x == 0x0419,
        a == SleOpcode::TimeSyncRequest ==> x == 0x041A,
        a == SleOpcode::TimeSyncResponse ==> x == 0x041B,
        a == SleOpcode::AddWhitelistExt ==> x == 0x0420,
        a == SleOpcode::SetBroadcastParam ==> x == 0x0C02,
        a == SleOpcode::SetBroadcastData ==> x == 0x0C03,
        a == SleOpcode::SetBroadcastScanRsp ==> x == 0x0C04,
        a == SleOpcode::EnableBroadcast ==> x == 0x0C05,
        a == SleOpcode::ReadMaxBcastDataLen ==> x == 0x0C06,
        a == SleOpcode::ReadBcastSetSize ==> x == 0x0C07,
        a == SleOpcode::DeleteBcastSet ==> x == 0x0C08,
        a == SleOpcode::ConfigSlbDomainName ==> x == 0x0C09,
        a == SleOpcode::ReadSlbDomainName ==> x == 0x0C0A,
        a == SleOpcode::ConfigSlbBcastParam ==> x == 0x0C0B,
        a == SleOpcode::ReadSlbBcastParam ==> x == 0x0C0C,
        a == SleOpcode::SetScanParam ==> x == 0x1001,
        a == SleOpcode::EnableScan ==> x == 0x1002,
        a == SleOpcode::SetScanReqData ==> x == 0x1003,
        a == SleOpcode::SetSlbScanParam ==> x == 0x1004,
        a == SleOpcode::CreateConnection ==> x == 0x1401,
        a == SleOpcode::CancelConnection ==> x == 0x1402,
        a == SleOpcode::Disconnect ==> x == 0x1403,
        a == SleOpcode::SlbCreateConnection ==> x == 0x1404,
        a == SleOpcode::ReadFeatures ==> x == 0x1801,
        a == SleOpcode::ReadVersion ==> x == 0x1802,
        a == SleOpcode::SetMaxDataLen ==> x == 0x1804,
        a == SleOpcode::ReadPhyParam ==> x == 0x1805,
        a == SleOpcode::SetPhyParam ==> x == 0x1806,
        a == SleOpcode::ConnParamUpdate ==> x == 0x1807,
        a == SleOpcode::ConnParamReqReply ==> x == 0x1808,
        a == SleOpcode::ReadAvailChannels ==> x == 0x1809,
        a == SleOpcode::SetCodingModulation ==> x == 0x180A,
        a == SleOpcode::ReadRssi ==> x == 0x180C,
        a == SleOpcode::SetTxPower ==> x == 0x180D,
        a == SleOpcode::ReadTxPower ==> x == 0x180E,
        a == SleOpcode::ReadPeerTxPower ==> x == 0x180F,
        a == SleOpcode::ConfigPowerReport ==> x == 0x1810,
        a == SleOpcode::SetCtrlSignalData ==> x == 0x1812,
        a == SleOpcode::EnableRssiPowerCtrl ==> x == 0x1813,
        a == SleOpcode::SetSlbCodingMod ==> x == 0x1814,
        a == SleOpcode::ReadSlbCodingMod ==> x == 0x1815,
        a == SleOpcode::HashCompute ==> x == 0x1C01,
        a == SleOpcode::GenSecureRandom ==> x == 0x1C02,
        a == SleOpcode::StartEncrypt ==> x == 0x1C03,
        a == SleOpcode::RequestPair ==> x == 0x1C04,
        a == SleOpcode::ReplyEncParamReq ==> x == 0x1C05,
        a == SleOpcode::RejectEncParamReq ==> x == 0x1C06,
        a == SleOpcode::ReadLocalEncAlgo ==> x == 0x1C07,
        a == SleOpcode::StartPairing ==> x == 0x1C08,
        a == SleOpcode::PairInfoExchange ==> x == 0x1C09,
        a == SleOpcode::PairOptionConfirm ==> x == 0x1C0A,
        a == SleOpcode::PairOptionAccept ==> x == 0x1C0B,
        a == SleOpcode::PairExtData ==> x == 0x1C0C,
        a == SleOpcode::PairPasskey ==> x == 0x1C0D,
        a == SleOpcode::PairRandom ==> x == 0x1C0E,
        a == SleOpcode::PairConfirm ==> x == 0x1C0F,
        a == SleOpcode::DhkeyVerify ==> x == 0x1C10,
        a == SleOpcode::PairFail ==> x == 0x1C11,
        a == SleOpcode::AddRalDevice ==> x == 0x1C12,
        a == SleOpcode::RemoveRalDevice ==> x == 0x1C13,
        a == SleOpcode::ClearRal ==> x == 0x1C14,
        a == SleOpcode::ReadRalSize ==> x == 0x1C15,
        a == SleOpcode::ReadRemoteRpa ==> x == 0x1C16,
        a == SleOpcode::ReadLocalRpa ==> x == 0x1C17,
        a == SleOpcode::SetRpaEnable ==> x == 0x1C18,
        a == SleOpcode::SetRpaTimeout ==> x == 0x1C19,
        a == SleOpcode::ConfigSlbAuthPsk ==> x == 0x1C1A,
        a == SleOpcode::DeleteSlbAuthPsk ==> x == 0x1C1B,
        a == SleOpcode::ConfigSlbAuthPwd ==> x == 0x1C1C,
        a == SleOpcode::DeleteSlbAuthPwd ==> x == 0x1C1D,
        a == SleOpcode::ConfigSlbCipherAlgo ==> x == 0x1C1E,
        a == SleOpcode::ReadSlbCipherAlgo ==> x == 0x1C1F,
        a == SleOpcode::ConfigSlbSecAssoc ==> x == 0x1C20,
        a == SleOpcode::ReadSlbSecAssoc ==> x == 0x1C21,
        a == SleOpcode::ConfigSlbSecTimeout ==> x == 0x1C22,
        a == SleOpcode::ReadSlbSecTimeout ==> x == 0x1C23,
        a == SleOpcode::ReadLocalMeasCap ==> x == 0x2001,
        a == SleOpcode::SetMeasLinkParam ==> x == 0x2003,
        a == SleOpcode::MeasAction ==> x == 0x2005,
        a == SleOpcode::EnableMeas ==> x == 0x200B,
        a == SleOpcode::SlbCreateLogChannel ==> x == 0x2401,
        a == SleOpcode::SlbUpdateLogChannel ==> x == 0x2402,
        a == SleOpcode::SlbDeleteLogChannel ==> x == 0x2403,
        a == SleOpcode::SyncUcastParam ==> x == 0x2801,
        a == SleOpcode::SyncUcastCreate ==> x == 0x2803,
        a == SleOpcode::SyncUcastRemove ==> x == 0x2804,
        a == SleOpcode::SyncUcastAccept ==> x == 0x2805,
        a == SleOpcode::SyncUcastReject ==> x == 0x2806,
        a == SleOpcode::SyncMcastParam ==> x == 0x2807,
        a == SleOpcode::SyncMcastInfo ==> x == 0x2808,
        a == SleOpcode::SyncMcastCreate ==> x == 0x2809,
        a == SleOpcode::SyncMcastRemove ==> x == 0x280A,
        a == SleOpcode::SyncMcastAccept ==> x == 0x280B,
        a == SleOpcode::SyncMcastReject ==> x == 0x280C,
        a == SleOpcode::SyncDataPathConfig ==> x == 0x280D,
        a == SleOpcode::SyncDataPathRemove ==> x == 0x280E,
        a == SleOpcode::TestModeEnable ==> x == 0xF801,
        a == SleOpcode::TestRx ==> x == 0xF802,
        a == SleOpcode::TestTx ==> x == 0xF803,
        a == SleOpcode::TestRxResult ==> x == 0xF804,
        a == SleOpcode::VendorBase ==> x == 0xFC00,
{
}

/// The numbers of broadcast type: each value has its own.
pub proof fn broadcast_type_codes(a: BroadcastType, b: BroadcastType, x: u8, y: u8)
    requires
        call_ensures(BroadcastType::code, (a,), x),
        call_ensures(BroadcastType::code, (b,), y),
    ensures
        x == y <==> a == b,
        a == BroadcastType::NoAccessNoScan ==> x == 0,
        a == BroadcastType::AccessibleNoScan ==> x == 1,
        a == BroadcastType::NoAccessScannable ==> x == 2,
        a == BroadcastType::AccessibleScannable ==> x == 3,
{
}

/// A number of broadcast type is read back.
pub proof fn broadcast_type_is_read(
    a: BroadcastType,
    x: u8,
    r: Option<BroadcastType>,
    y: u8,
    s: Option<BroadcastType>,
)
    requires
        call_ensures(BroadcastType::code, (a,), x),
        call_ensures(BroadcastType::from_raw, (x,), r),
        call_ensures(BroadcastType::from_raw, (y,), s),
    ensures
        r == Some(a),
        s matches Some(b) ==> b.code() == y % 8,
{
}

/// The numbers of packet type: each value has its own.
pub proof fn packet_type_codes(a: PacketType, b: PacketType, x: u8, y: u8)
    requires
        call_ensures(PacketType::code, (a,), x),
        call_ensures(PacketType::code, (b,), y),
    ensures
        x == y <==> a == b,
        a == PacketType::BasicAdv ==> x == 0,
        a == PacketType::ExtendedAdv ==> x == 1,
        a == PacketType::ScanRequest ==> x == 2,
        a == PacketType::ScanResponse ==> x == 3,
        a == PacketType::AccessRequest ==> x == 4,
        a == PacketType::AccessResponse ==> x == 5,
{
}

/// A number of packet type is read back.
pub proof fn packet_type_is_read(
    a: PacketType,
    x: u8,
    r: Option<PacketType>,
    y: u8,
    s: Option<PacketType>,
)
    requires
        call_ensures(PacketType::code, (a,), x),
        call_ensures(PacketType::from_raw, (x,), r),
        call_ensures(PacketType::from_raw, (y,), s),
    ensures
        r == Some(a),
        s matches Some(b) ==> b.code() == y % 8,
{
}

/// The numbers of adv data type: each value has its own.
pub proof fn adv_data_type_codes(a: AdvDataType, b: AdvDataType, x: u8, y: u8)
    requires
        call_ensures(AdvDataType::code, (a,), x),
        call_ensures(AdvDataType::code, (b,), y),
    ensures
        x == y <==> a == b,
        a == AdvDataType::DiscoveryLevel ==> x == 0x01,
        a == AdvDataType::AccessCapability ==> x == 0x02,
        a == AdvDataType::StdServiceData ==> x == 0x03,
        a == AdvDataType::CustomServiceData ==> x == 0x04,
        a == AdvDataType::FullStdServiceList ==> x == 0x05,
        a == AdvDataType::FullCustomServiceList ==> x == 0x06,
        a == AdvDataType::PartialStdServiceList ==> x == 0x07,
        a == AdvDataType::PartialCustomServiceList ==> x == 0x08,
        a == AdvDataType::ServiceHash ==> x == 0x09,
        a == AdvDataType::ShortName ==> x == 0x0A,
        a == AdvDataType::CompleteName ==> x == 0x0B,
        a == AdvDataType::TxPower ==> x == 0x0C,
        a == AdvDataType::SlbDomainName ==> x == 0x0D,
        a == AdvDataType::SlbMacAddr ==> x == 0x0E,
        a == AdvDataType::SleMacAddr ==> x == 0x0F,
        a == AdvDataType::MultiHop ==> x == 0x10,
        a == AdvDataType::ManufacturerSpecific ==> x == 0xFF,
{
}

/// A number of adv data type is read back.
pub proof fn adv_data_type_is_read(
    a: AdvDataType,
    x: u8,
    r: Option<AdvDataType>,
    y: u8,
    s: Option<AdvDataType>,
)
    requires
        call_ensures(AdvDataType::code, (a,), x),
        call_ensures(AdvDataType::from_raw, (x,), r),
        call_ensures(AdvDataType::from_raw, (y,), s),
    ensures
        r == Some(a),
        s matches Some(b) ==> b.code() == y,
{
}

/// The numbers of modulation: each value has its own.
pub proof fn modulation_codes(a: Modulation, b: Modulation, x: u8, y: u8)
    requires
        call_ensures(Modulation::code, (a,), x),
        call_ensures(Modulation::code, (b,), y),
    ensures
        x == y <==> a == b,
        a == Modulation::Bpsk ==> x == 0,
        a == Modulation::Qpsk ==> x == 1,
        a == Modulation::Qam16 ==> x == 2,
        a == Modulation::Qam64 ==> x == 3,
        a == Modulation::Qam256 ==> x == 4,
{
}

/// A number of modulation is read back.
pub proof fn modulation_is_read(
    a: Modulation,
    x: u8,
    r: Option<Modulation>,
    y: u8,
    s: Option<Modulation>,
)
    requires
        call_ensures(Modulation::code, (a,), x),
        call_ensures(Modulation::from_raw, (x,), r),
        call_ensures(Modulation::from_raw, (y,), s),
    ensures
        r == Some(a),
        s matches Some(b) ==> b.code() == y,
{
}

/// The numbers of mimo mode: each value has its own.
pub proof fn mimo_mode_codes(a: MimoMode, b: MimoMode, x: u8, y: u8)
    requires
        call_ensures(MimoMode::code, (a,), x),
        call_ensures(MimoMode::code, (b,), y),
    ensures
        x == y <==> a == b,
        a == MimoMode::Siso ==> x == 0,
        a == MimoMode::SpatialMux2x2 ==> x == 1,
        a == MimoMode::TxDiversity2x1 ==> x == 2,
        a == MimoMode::RxDiversity1x2 ==> x == 3,
        a == MimoMode::Beamforming2x2 ==> x == 4,
{
}

/// A number of mimo mode is read back.
pub proof fn mimo_mode_is_read(
    a: MimoMode,
    x: u8,
    r: Option<MimoMode>,
    y: u8,
    s: Option<MimoMode>,
)
    requires
        call_ensures(MimoMode::code, (a,), x),
        call_ensures(MimoMode::from_raw, (x,), r),
        call_ensures(MimoMode::from_raw, (y,), s),
    ensures
        r == Some(a),
        s matches Some(b) ==> b.code() == y,
{
}

/// The numbers of power state: each value has its own.
pub proof fn power_state_codes(a: PowerState, b: PowerState, x: u8, y: u8)
    requires
        call_ensures(PowerState::code, (a,), x),
        call_ensures(PowerState::code, (b,), y),
    ensures
        x == y <==> a == b,
        a == PowerState::Active ==> x == 0,
        a == PowerState::Sniff ==> x == 1,
        a == PowerState::Idle ==> x == 2,
        a == PowerState::Suspended ==> x == 3,
{
}

/// The numbers of security mode: each value has its own.
pub proof fn security_mode_codes(a: SecurityMode, b: SecurityMode, x: u8, y: u8)
    requires
        call_ensures(SecurityMode::code, (a,), x),
        call_ensures(SecurityMode::code, (b,), y),
    ensures
        x == y <==> a == b,
        a == SecurityMode::EncAndInt ==> x == 0,
        a == SecurityMode::IntOnly ==> x == 1,
        a == SecurityMode::EncOnly ==> x == 2,
        a == SecurityMode::Plain ==> x == 3,
{
}

/// The numbers of pairing method: each value has its own.
pub proof fn pairing_method_codes(a: PairingMethod, b: PairingMethod, x: u8, y: u8)
    requires
        call_ensures(PairingMethod::code, (a,), x),
        call_ensures(PairingMethod::code, (b,), y),
    ensures
        x == y <==> a == b,
        a == PairingMethod::Unpaired ==> x == 0,
        a == PairingMethod::JustWorks ==> x == 1,
        a == PairingMethod::Psk ==> x == 2,
        a == PairingMethod::NumericComparison ==> x == 3,
        a == PairingMethod::PasskeyEntry ==> x == 4,
        a == PairingMethod::Oob ==> x == 5,
        a == PairingMethod::Password ==> x == 6,
{
}

/// The numbers of security state: each value has its own.
pub proof fn security_state_codes(a: SecurityState, b: SecurityState, x: u8, y: u8)
    requires
        call_ensures(SecurityState::code, (a,), x),
        call_ensures(SecurityState::code, (b,), y),
    ensures
        x == y <==> a == b,
        a == SecurityState::Idle ==> x == 0,
        a == SecurityState::Pairing ==> x == 1,
        a == SecurityState::Paired ==> x == 2,
        a == SecurityState::Encrypted ==> x == 3,
        a == SecurityState::AwaitingConfirm ==> x == 4,
        a == SecurityState::AwaitingPasskey ==> x == 5,
{
}

/// The numbers of descriptor type: each value has its own.
pub proof fn descriptor_type_codes(a: DescriptorType, b: DescriptorType, x: u8, y: u8)
    requires
        call_ensures(DescriptorType::code, (a,), x),
        call_ensures(DescriptorType::code, (b,), y),
    ensures
        x == y <==> a == b,
        a == DescriptorType::PropertyDesc ==> x == 0x01,
        a == DescriptorType::ClientConfig ==> x == 0x02,
        a == DescriptorType::ServerConfig ==> x == 0x03,
        a == DescriptorType::PropertyFormat ==> x == 0x04,
{
}

/// The numbers of data type: each value has its own.
pub proof fn data_type_codes(a: DataType, b: DataType, x: u8, y: u8)
    requires
        call_ensures(DataType::code, (a,), x),
        call_ensures(DataType::code, (b,), y),
    ensures
        x == y <==> a == b,
        a == DataType::Uint8 ==> x == 0x01,
        a == DataType::Uint16 ==> x == 0x02,
        a == DataType::Uint32 ==> x == 0x03,
        a == DataType::Uint64 ==> x == 0x04,
        a == DataType::Int8 ==> x == 0x05,
        a == DataType::Int16 ==> x == 0x06,
        a == DataType::Int32 ==> x == 0x07,
        a == DataType::Int64 ==> x == 0x08,
        a == DataType::Boolean ==> x == 0x09,
        a == DataType::Float32 ==> x == 0x0A,
        a == DataType::Float64 ==> x == 0x0B,
        a == DataType::Utf8String ==> x == 0x0C,
        a == DataType::Utf16String ==> x == 0x0D,
        a == DataType::Array ==> x == 0x0E,
        a == DataType::Structure ==> x == 0x0F,
{
}

/// The numbers of client config flag: each value has its own.
pub proof fn client_config_flag_codes(a: ClientConfigFlag, b: ClientConfigFlag, x: u16, y: u16)
    requires
        call_ensures(ClientConfigFlag::code, (a,), x),
        call_ensures(ClientConfigFlag::code, (b,), y),
    ensures
        x == y <==> a == b,
        a == ClientConfigFlag::Disabled ==> x == 0x0000,
        a == ClientConfigFlag::Notification ==> x == 0x0001,
        a == ClientConfigFlag::Indication ==> x == 0x0002,
{
}

/// The numbers of sle proto id: each value has its own.
pub proof fn sle_proto_id_codes(a: SleProtoId, b: SleProtoId, x: u8, y: u8)
    requires
        call_ensures(SleProtoId::code, (a,), x),
        call_ensures(SleProtoId::code, (b,), y),
    ensures
        x == y <==> a == b,
        a == SleProtoId::H4Uart ==> x == 0,
        a == SleProtoId::UsbBulk ==> x == 1,
        a == SleProtoId::Spi ==> x == 2,
        a == SleProtoId::Virtual ==> x == 3,
{
}

/// The numbers of sci state: each value has its own.
pub proof fn sci_state_codes(a: SciState, b: SciState, x: u8, y: u8)
    requires
        call_ensures(SciState::code, (a,), x),
        call_ensures(SciState::code, (b,), y),
    ensures
        x == y <==> a == b,
        a == SciState::Idle ==> x == 0,
        a == SciState::Advertising ==> x == 1,
        a == SciState::Scanning ==> x == 2,
        a == SciState::Connected ==> x == 3,
{
}

/// The numbers of discovery level: each value has its own.
pub proof fn discovery_level_codes(a: DiscoveryLevel, b: DiscoveryLevel, x: u8, y: u8)
    requires
        call_ensures(DiscoveryLevel::code, (a,), x),
        call_ensures(DiscoveryLevel::code, (b,), y),
    ensures
        x == y <==> a == b,
        a == DiscoveryLevel::Invisible ==> x == 0,
        a == DiscoveryLevel::General ==> x == 1,
        a == DiscoveryLevel::Priority ==> x == 2,
        a == DiscoveryLevel::PairedOnly ==> x == 3,
        a == DiscoveryLevel::Designated ==> x == 4,
{
}

/// The numbers of sci bus: each value has its own.
pub proof fn sci_bus_codes(a: SciBus, b: SciBus, x: u8, y: u8)
    requires
        call_ensures(SciBus::code, (a,), x),
        call_ensures(SciBus::code, (b,), y),
    ensures
        x == y <==> a == b,
        a == SciBus::Detached ==> x == 0,
        a == SciBus::Uart ==> x == 1,
        a == SciBus::Spi ==> x == 2,
        a == SciBus::Sdio ==> x == 3,
        a == SciBus::Usb ==> x == 4,
        a == SciBus::Mmio ==> x == 5,
{
}

/// The numbers of ssap msg code: each value has its own.
pub proof fn ssap_msg_code_codes(a: SsapMsgCode, b: SsapMsgCode, x: u8, y: u8)
    requires
        call_ensures(SsapMsgCode::code, (a,), x),
        call_ensures(SsapMsgCode::code, (b,), y),
    ensures
        x == y <==> a == b,
        a == SsapMsgCode::ErrorRsp ==> x == 0x01,
        a == SsapMsgCode::ExchangeInfoReq ==> x == 0x02,
        a == SsapMsgCode::ExchangeInfoRsp ==> x == 0x03,
        a == SsapMsgCode::FindStructureReq ==> x == 0x04,
        a == SsapMsgCode::FindStructureRsp ==> x == 0x05,
        a == SsapMsgCode::FindByUuidReq ==> x == 0x06,
        a == SsapMsgCode::FindByUuidRsp ==> x == 0x07,
        a == SsapMsgCode::ReadReq ==> x == 0x08,
        a == SsapMsgCode::ReadRsp ==> x == 0x09,
        a == SsapMsgCode::ReadByUuidReq ==> x == 0x0A,
        a == SsapMsgCode::ReadByUuidRsp ==> x == 0x0B,
        a == SsapMsgCode::WriteCmd ==> x == 0x0C,
        a == SsapMsgCode::WriteReq ==> x == 0x0D,
        a == SsapMsgCode::WriteRsp ==> x == 0x0E,
        a == SsapMsgCode::ValueNtf ==> x == 0x0F,
        a == SsapMsgCode::ValueInd ==> x == 0x10,
        a == SsapMsgCode::ValueAck ==> x == 0x11,
        a == SsapMsgCode::CallMethodCmd ==> x == 0x12,
        a == SsapMsgCode::CallMethodReq ==> x == 0x13,
        a == SsapMsgCode::CallMethodRsp ==> x == 0x14,
{
}

/// The numbers of entry category: each value has its own.
pub proof fn entry_category_codes(a: EntryCategory, b: EntryCategory, x: u8, y: u8)
    requires
        call_ensures(EntryCategory::code, (a,), x),
        call_ensures(EntryCategory::code, (b,), y),
    ensures
        x == y <==> a == b,
        a == EntryCategory::PrimaryService ==> x == 0x00,
        a == EntryCategory::SecondaryService ==> x == 0x01,
        a == EntryCategory::Property ==> x == 0x02,
        a == EntryCategory::Method ==> x == 0x03,
        a == EntryCategory::Event ==> x == 0x04,
        a == EntryCategory::ServiceRef ==> x == 0x05,
        a == EntryCategory::CustomPrimaryService ==> x == 0x08,
        a == EntryCategory::CustomSecondaryService ==> x == 0x09,
        a == EntryCategory::CustomProperty ==> x == 0x0A,
        a == EntryCategory::CustomMethod ==> x == 0x0B,
        a == EntryCategory::CustomEvent ==> x == 0x0C,
        a == EntryCategory::CustomServiceRef ==> x == 0x0D,
{
}

/// A number of entry category is read back.
pub proof fn entry_category_is_read(
    a: EntryCategory,
    x: u8,
    r: Option<EntryCategory>,
    y: u8,
    s: Option<EntryCategory>,
)
    requires
        call_ensures(EntryCategory::code, (a,), x),
        call_ensures(EntryCategory::from_raw, (x,), r),
        call_ensures(EntryCategory::from_raw, (y,), s),
    ensures
        r == Some(a),
        s matches Some(b) ==> b.code() == y,
{
}

/// The numbers of ssap error: each value has its own.
pub proof fn ssap_error_codes(a: SsapError, b: SsapError, x: u8, y: u8)
    requires
        call_ensures(SsapError::code, (a,), x),
        call_ensures(SsapError::code, (b,), y),
    ensures
        x == y <==> a == b,
        a == SsapError::Success ==> x == 0x00,
        a == SsapError::InvalidHandle ==> x == 0x01,
        a == SsapError::ReadNotPermitted ==> x == 0x02,
        a == SsapError::WriteNotPermitted ==> x == 0x03,
        a == SsapError::InvalidMsgCode ==> x == 0x04,
        a == SsapError::AuthRequired ==> x == 0x05,
        a == SsapError::RequestNotSupported ==> x == 0x06,
        a == SsapError::InvalidOffset ==> x == 0x07,
        a == SsapError::InsufficientResources ==> x == 0x08,
        a == SsapError::ServiceNotFound ==> x == 0x09,
        a == SsapError::PropertyNotFound ==> x == 0x0A,
{
}

/// A number of ssap error is read back.
pub proof fn ssap_error_is_read(
    a: SsapError,
    x: u8,
    r: SsapError,
    y: u8,
    s: SsapError,
)
    requires
        call_ensures(SsapError::code, (a,), x),
        call_ensures(SsapError::from_raw, (x,), r),
        call_ensures(SsapError::from_raw, (y,), s),
    ensures
        r == a,
{
}

/// The numbers of sync link type: each value has its own.
pub proof fn sync_link_type_codes(a: SyncLinkType, b: SyncLinkType, x: u8, y: u8)
    requires
        call_ensures(SyncLinkType::code, (a,), x),
        call_ensures(SyncLinkType::code, (b,), y),
    ensures
        x == y <==> a == b,
        a == SyncLinkType::Unicast ==> x == 0,
        a == SyncLinkType::Multicast ==> x == 1,
{
}

/// The numbers of sync link state: each value has its own.
pub proof fn sync_link_state_codes(a: SyncLinkState, b: SyncLinkState, x: u8, y: u8)
    requires
        call_ensures(SyncLinkState::code, (a,), x),
        call_ensures(SyncLinkState::code, (b,), y),
    ensures
        x == y <==> a == b,
        a == SyncLinkState::Configured ==> x == 0,
        a == SyncLinkState::Creating ==> x == 1,
        a == SyncLinkState::Active ==> x == 2,
{
}

/// The numbers of transport frame type: each value has its own.
pub proof fn transport_frame_type_codes(a: TransportFrameType, b: TransportFrameType, x: u8, y: u8)
    requires
        call_ensures(TransportFrameType::code, (a,), x),
        call_ensures(TransportFrameType::code, (b,), y),
    ensures
        x == y <==> a == b,
        a == TransportFrameType::Basic ==> x == 0x00,
        a == TransportFrameType::Aggregated ==> x == 0x01,
        a == TransportFrameType::Segmented ==> x == 0x02,
        a == TransportFrameType::Bidi3 ==> x == 0x03,
        a == TransportFrameType::Bidi4 ==> x == 0x04,
        a == TransportFrameType::Ack ==> x == 0x05,
{
}

} // verus!
