//! Command opcodes of the driver layer interface.
//!
//! The upper six bits of an opcode are its command group, the lower ten bits
//! the command within the group.

use vstd::prelude::*;

verus! {

/// Command groups.
#[derive(Clone, Copy, Debug, PartialEq, Eq, Structural)]
pub enum DliOgf {
    /// Reset, address, features.
    Basic,
    /// Broadcast and advertising.
    Broadcast,
    /// Scanning.
    Scan,
    /// Connections.
    Connection,
    /// Link control and PHY.
    LinkControl,
    /// Security.
    Security,
    /// Measurement.
    Measurement,
    /// SLB logical channels.
    SlbLogChannel,
    /// Sync links.
    SyncLink,
    /// Test and vendor commands.
    Test,
}

impl DliOgf {
    /// The number of the group.
    #[verifier::allow_in_spec]
    pub fn code(self) -> u16
        returns
            (match self {
                DliOgf::Basic => 0x01u16,
                DliOgf::Broadcast => 0x03u16,
                DliOgf::Scan => 0x04u16,
                DliOgf::Connection => 0x05u16,
                DliOgf::LinkControl => 0x06u16,
                DliOgf::Security => 0x07u16,
                DliOgf::Measurement => 0x08u16,
                DliOgf::SlbLogChannel => 0x09u16,
                DliOgf::SyncLink => 0x0Au16,
                DliOgf::Test => 0x3Eu16,
            }),
    {
        match self {
            DliOgf::Basic => 0x01,
            DliOgf::Broadcast => 0x03,
            DliOgf::Scan => 0x04,
            DliOgf::Connection => 0x05,
            DliOgf::LinkControl => 0x06,
            DliOgf::Security => 0x07,
            DliOgf::Measurement => 0x08,
            DliOgf::SlbLogChannel => 0x09,
            DliOgf::SyncLink => 0x0A,
            DliOgf::Test => 0x3E,
        }
    }
}

/// The opcode of command `ocf` of group `ogf`: both parts are cut to their width.
pub fn dli_opcode(ogf: u16, ocf: u16) -> (r: u16)
    ensures
        r == (ogf % 64) * 1024 + ocf % 1024,
{
    (ogf % 64) * 1024 + ocf % 1024
}

/// The group of an opcode.
pub fn dli_ogf(opcode: u16) -> (r: u16)
    ensures
        r == opcode / 1024,
{
    opcode / 1024
}

/// The command of an opcode within its group.
pub fn dli_ocf(opcode: u16) -> (r: u16)
    ensures
        r == opcode % 1024,
{
    opcode % 1024
}

/// An opcode is put together again from its two parts, and a group and a command
/// that fit their widths come back out of the opcode made of them.
pub proof fn opcode_parts(opcode: u16, ogf: u16, ocf: u16)
    requires
        ogf < 64,
        ocf < 1024,
    ensures
        (opcode / 1024 % 64) * 1024 + (opcode % 1024) % 1024 == opcode,
        ((ogf % 64) * 1024 + ocf % 1024) / 1024 == ogf,
        ((ogf % 64) * 1024 + ocf % 1024) % 1024 == ocf,
{
}

/// Commands that the host sends to a controller.
#[derive(Clone, Copy, Debug, PartialEq, Eq, Structural)]
pub enum SleOpcode {
    // Basic: reset, address, features, accept list.
    ReadCmdLen,
    ReadCtrlBuffer,
    ReadLocalFeatures,
    ReadLocalVersion,
    SetMacAddr,
    ReadMacAddr,
    SetNonUniqueMac,
    Reset,
    AvailChannelInd,
    ReadWhitelistSize,
    ClearWhitelist,
    AddWhitelist,
    DeleteWhitelist,
    SetSlbNodeRole,
    ReadSlbNodeRole,
    SetSlbWorkChannel,
    ReadSlbWorkChannel,
    ReadSlbCtrlBuffer,
    ConfigFisaChannels,
    EnableFisa,
    ConfigSlbSyncSignal,
    ReadSlbSyncSignal,
    ReadSlbLocalPower,
    EnableSlbCtrl,
    IndicateTimeSync,
    TimeSyncRequest,
    TimeSyncResponse,
    AddWhitelistExt,
    // Broadcast.
    SetBroadcastParam,
    SetBroadcastData,
    SetBroadcastScanRsp,
    EnableBroadcast,
    ReadMaxBcastDataLen,
    ReadBcastSetSize,
    DeleteBcastSet,
    ConfigSlbDomainName,
    ReadSlbDomainName,
    ConfigSlbBcastParam,
    ReadSlbBcastParam,
    // Scan.
    SetScanParam,
    EnableScan,
    SetScanReqData,
    SetSlbScanParam,
    // Connection.
    CreateConnection,
    CancelConnection,
    Disconnect,
    SlbCreateConnection,
    // Link control.
    ReadFeatures,
    ReadVersion,
    SetMaxDataLen,
    ReadPhyParam,
    SetPhyParam,
    ConnParamUpdate,
    ConnParamReqReply,
    ReadAvailChannels,
    SetCodingModulation,
    ReadRssi,
    SetTxPower,
    ReadTxPower,
    ReadPeerTxPower,
    ConfigPowerReport,
    SetCtrlSignalData,
    EnableRssiPowerCtrl,
    SetSlbCodingMod,
    ReadSlbCodingMod,
    // Security.
    HashCompute,
    GenSecureRandom,
    StartEncrypt,
    RequestPair,
    ReplyEncParamReq,
    RejectEncParamReq,
    ReadLocalEncAlgo,
    StartPairing,
    PairInfoExchange,
    PairOptionConfirm,
    PairOptionAccept,
    PairExtData,
    PairPasskey,
    PairRandom,
    PairConfirm,
    DhkeyVerify,
    PairFail,
    AddRalDevice,
    RemoveRalDevice,
    ClearRal,
    ReadRalSize,
    ReadRemoteRpa,
    ReadLocalRpa,
    SetRpaEnable,
    SetRpaTimeout,
    ConfigSlbAuthPsk,
    DeleteSlbAuthPsk,
    ConfigSlbAuthPwd,
    DeleteSlbAuthPwd,
    ConfigSlbCipherAlgo,
    ReadSlbCipherAlgo,
    ConfigSlbSecAssoc,
    ReadSlbSecAssoc,
    ConfigSlbSecTimeout,
    ReadSlbSecTimeout,
    // Measurement.
    ReadLocalMeasCap,
    SetMeasLinkParam,
    MeasAction,
    EnableMeas,
    // SLB logical channels.
    SlbCreateLogChannel,
    SlbUpdateLogChannel,
    SlbDeleteLogChannel,
    // Sync links.
    SyncUcastParam,
    SyncUcastCreate,
    SyncUcastRemove,
    SyncUcastAccept,
    SyncUcastReject,
    SyncMcastParam,
    SyncMcastInfo,
    SyncMcastCreate,
    SyncMcastRemove,
    SyncMcastAccept,
    SyncMcastReject,
    SyncDataPathConfig,
    SyncDataPathRemove,
    // Test.
    TestModeEnable,
    TestRx,
    TestTx,
    TestRxResult,
    // Vendor extension.
    VendorBase,
}

impl SleOpcode {
    /// The number of the command on the wire.
    #[verifier::allow_in_spec]
    pub fn code(self) -> u16
        returns
            (match self {
                SleOpcode::ReadCmdLen => 0x0401u16,
                SleOpcode::ReadCtrlBuffer => 0x0402u16,
                SleOpcode::ReadLocalFeatures => 0x0403u16,
                SleOpcode::ReadLocalVersion => 0x0404u16,
                SleOpcode::SetMacAddr => 0x0405u16,
                SleOpcode::ReadMacAddr => 0x0406u16,
                SleOpcode::SetNonUniqueMac => 0x0407u16,
                SleOpcode::Reset => 0x0408u16,
                SleOpcode::AvailChannelInd => 0x0409u16,
                SleOpcode::ReadWhitelistSize => 0x040Au16,
                SleOpcode::ClearWhitelist => 0x040Bu16,
                SleOpcode::AddWhitelist => 0x040Cu16,
                SleOpcode::DeleteWhitelist => 0x040Du16,
                SleOpcode::SetSlbNodeRole => 0x040Eu16,
                SleOpcode::ReadSlbNodeRole => 0x040Fu16,
                SleOpcode::SetSlbWorkChannel => 0x0410u16,
                SleOpcode::ReadSlbWorkChannel => 0x0411u16,
                SleOpcode::ReadSlbCtrlBuffer => 0x0412u16,
                SleOpcode::ConfigFisaChannels => 0x0413u16,
                SleOpcode::EnableFisa => 0x0414u16,
                SleOpcode::ConfigSlbSyncSignal => 0x0415u16,
                SleOpcode::ReadSlbSyncSignal => 0x0416u16,
                SleOpcode::ReadSlbLocalPower => 0x0417u16,
                SleOpcode::EnableSlbCtrl => 0x0418u16,
                SleOpcode::IndicateTimeSync => 0x0419u16,
                SleOpcode::TimeSyncRequest => 0x041Au16,
                SleOpcode::TimeSyncResponse => 0x041Bu16,
                SleOpcode::AddWhitelistExt => 0x0420u16,
                SleOpcode::SetBroadcastParam => 0x0C02u16,
                SleOpcode::SetBroadcastData => 0x0C03u16,
                SleOpcode::SetBroadcastScanRsp => 0x0C04u16,
                SleOpcode::EnableBroadcast => 0x0C05u16,
                SleOpcode::ReadMaxBcastDataLen => 0x0C06u16,
                SleOpcode::ReadBcastSetSize => 0x0C07u16,
                SleOpcode::DeleteBcastSet => 0x0C08u16,
                SleOpcode::ConfigSlbDomainName => 0x0C09u16,
                SleOpcode::ReadSlbDomainName => 0x0C0Au16,
                SleOpcode::ConfigSlbBcastParam => 0x0C0Bu16,
                SleOpcode::ReadSlbBcastParam => 0x0C0Cu16,
                SleOpcode::SetScanParam => 0x1001u16,
                SleOpcode::EnableScan => 0x1002u16,
                SleOpcode::SetScanReqData => 0x1003u16,
                SleOpcode::SetSlbScanParam => 0x1004u16,
                SleOpcode::CreateConnection => 0x1401u16,
                SleOpcode::CancelConnection => 0x1402u16,
                SleOpcode::Disconnect => 0x1403u16,
                SleOpcode::SlbCreateConnection => 0x1404u16,
                SleOpcode::ReadFeatures => 0x1801u16,
                SleOpcode::ReadVersion => 0x1802u16,
                SleOpcode::SetMaxDataLen => 0x1804u16,
                SleOpcode::ReadPhyParam => 0x1805u16,
                SleOpcode::SetPhyParam => 0x1806u16,
                SleOpcode::ConnParamUpdate => 0x1807u16,
                SleOpcode::ConnParamReqReply => 0x1808u16,
                SleOpcode::ReadAvailChannels => 0x1809u16,
                SleOpcode::SetCodingModulation => 0x180Au16,
                SleOpcode::ReadRssi => 0x180Cu16,
                SleOpcode::SetTxPower => 0x180Du16,
                SleOpcode::ReadTxPower => 0x180Eu16,
                SleOpcode::ReadPeerTxPower => 0x180Fu16,
                SleOpcode::ConfigPowerReport => 0x1810u16,
                SleOpcode::SetCtrlSignalData => 0x1812u16,
                SleOpcode::EnableRssiPowerCtrl => 0x1813u16,
                SleOpcode::SetSlbCodingMod => 0x1814u16,
                SleOpcode::ReadSlbCodingMod => 0x1815u16,
                SleOpcode::HashCompute => 0x1C01u16,
                SleOpcode::GenSecureRandom => 0x1C02u16,
                SleOpcode::StartEncrypt => 0x1C03u16,
                SleOpcode::RequestPair => 0x1C04u16,
                SleOpcode::ReplyEncParamReq => 0x1C05u16,
                SleOpcode::RejectEncParamReq => 0x1C06u16,
                SleOpcode::ReadLocalEncAlgo => 0x1C07u16,
                SleOpcode::StartPairing => 0x1C08u16,
                SleOpcode::PairInfoExchange => 0x1C09u16,
                SleOpcode::PairOptionConfirm => 0x1C0Au16,
                SleOpcode::PairOptionAccept => 0x1C0Bu16,
                SleOpcode::PairExtData => 0x1C0Cu16,
                SleOpcode::PairPasskey => 0x1C0Du16,
                SleOpcode::PairRandom => 0x1C0Eu16,
                SleOpcode::PairConfirm => 0x1C0Fu16,
                SleOpcode::DhkeyVerify => 0x1C10u16,
                SleOpcode::PairFail => 0x1C11u16,
                SleOpcode::AddRalDevice => 0x1C12u16,
                SleOpcode::RemoveRalDevice => 0x1C13u16,
                SleOpcode::ClearRal => 0x1C14u16,
                SleOpcode::ReadRalSize => 0x1C15u16,
                SleOpcode::ReadRemoteRpa => 0x1C16u16,
                SleOpcode::ReadLocalRpa => 0x1C17u16,
                SleOpcode::SetRpaEnable => 0x1C18u16,
                SleOpcode::SetRpaTimeout => 0x1C19u16,
                SleOpcode::ConfigSlbAuthPsk => 0x1C1Au16,
                SleOpcode::DeleteSlbAuthPsk => 0x1C1Bu16,
                SleOpcode::ConfigSlbAuthPwd => 0x1C1Cu16,
                SleOpcode::DeleteSlbAuthPwd => 0x1C1Du16,
                SleOpcode::ConfigSlbCipherAlgo => 0x1C1Eu16,
                SleOpcode::ReadSlbCipherAlgo => 0x1C1Fu16,
                SleOpcode::ConfigSlbSecAssoc => 0x1C20u16,
                SleOpcode::ReadSlbSecAssoc => 0x1C21u16,
                SleOpcode::ConfigSlbSecTimeout => 0x1C22u16,
                SleOpcode::ReadSlbSecTimeout => 0x1C23u16,
                SleOpcode::ReadLocalMeasCap => 0x2001u16,
                SleOpcode::SetMeasLinkParam => 0x2003u16,
                SleOpcode::MeasAction => 0x2005u16,
                SleOpcode::EnableMeas => 0x200Bu16,
                SleOpcode::SlbCreateLogChannel => 0x2401u16,
                SleOpcode::SlbUpdateLogChannel => 0x2402u16,
                SleOpcode::SlbDeleteLogChannel => 0x2403u16,
                SleOpcode::SyncUcastParam => 0x2801u16,
                SleOpcode::SyncUcastCreate => 0x2803u16,
                SleOpcode::SyncUcastRemove => 0x2804u16,
                SleOpcode::SyncUcastAccept => 0x2805u16,
                SleOpcode::SyncUcastReject => 0x2806u16,
                SleOpcode::SyncMcastParam => 0x2807u16,
                SleOpcode::SyncMcastInfo => 0x2808u16,
                SleOpcode::SyncMcastCreate => 0x2809u16,
                SleOpcode::SyncMcastRemove => 0x280Au16,
                SleOpcode::SyncMcastAccept => 0x280Bu16,
                SleOpcode::SyncMcastReject => 0x280Cu16,
                SleOpcode::SyncDataPathConfig => 0x280Du16,
                SleOpcode::SyncDataPathRemove => 0x280Eu16,
                SleOpcode::TestModeEnable => 0xF801u16,
                SleOpcode::TestRx => 0xF802u16,
                SleOpcode::TestTx => 0xF803u16,
                SleOpcode::TestRxResult => 0xF804u16,
                SleOpcode::VendorBase => 0xFC00u16,
            }),
    {
        match self {
            SleOpcode::ReadCmdLen => 0x0401,
            SleOpcode::ReadCtrlBuffer => 0x0402,
            SleOpcode::ReadLocalFeatures => 0x0403,
            SleOpcode::ReadLocalVersion => 0x0404,
            SleOpcode::SetMacAddr => 0x0405,
            SleOpcode::ReadMacAddr => 0x0406,
            SleOpcode::SetNonUniqueMac => 0x0407,
            SleOpcode::Reset => 0x0408,
            SleOpcode::AvailChannelInd => 0x0409,
            SleOpcode::ReadWhitelistSize => 0x040A,
            SleOpcode::ClearWhitelist => 0x040B,
            SleOpcode::AddWhitelist => 0x040C,
            SleOpcode::DeleteWhitelist => 0x040D,
            SleOpcode::SetSlbNodeRole => 0x040E,
            SleOpcode::ReadSlbNodeRole => 0x040F,
            SleOpcode::SetSlbWorkChannel => 0x0410,
            SleOpcode::ReadSlbWorkChannel => 0x0411,
            SleOpcode::ReadSlbCtrlBuffer => 0x0412,
            SleOpcode::ConfigFisaChannels => 0x0413,
            SleOpcode::EnableFisa => 0x0414,
            SleOpcode::ConfigSlbSyncSignal => 0x0415,
            SleOpcode::ReadSlbSyncSignal => 0x0416,
            SleOpcode::ReadSlbLocalPower => 0x0417,
            SleOpcode::EnableSlbCtrl => 0x0418,
            SleOpcode::IndicateTimeSync => 0x0419,
            SleOpcode::TimeSyncRequest => 0x041A,
            SleOpcode::TimeSyncResponse => 0x041B,
            SleOpcode::AddWhitelistExt => 0x0420,
            SleOpcode::SetBroadcastParam => 0x0C02,
            SleOpcode::SetBroadcastData => 0x0C03,
            SleOpcode::SetBroadcastScanRsp => 0x0C04,
            SleOpcode::EnableBroadcast => 0x0C05,
            SleOpcode::ReadMaxBcastDataLen => 0x0C06,
            SleOpcode::ReadBcastSetSize => 0x0C07,
            SleOpcode::DeleteBcastSet => 0x0C08,
            SleOpcode::ConfigSlbDomainName => 0x0C09,
            SleOpcode::ReadSlbDomainName => 0x0C0A,
            SleOpcode::ConfigSlbBcastParam => 0x0C0B,
            SleOpcode::ReadSlbBcastParam => 0x0C0C,
            SleOpcode::SetScanParam => 0x1001,
            SleOpcode::EnableScan => 0x1002,
            SleOpcode::SetScanReqData => 0x1003,
            SleOpcode::SetSlbScanParam => 0x1004,
            SleOpcode::CreateConnection => 0x1401,
            SleOpcode::CancelConnection => 0x1402,
            SleOpcode::Disconnect => 0x1403,
            SleOpcode::SlbCreateConnection => 0x1404,
            SleOpcode::ReadFeatures => 0x1801,
            SleOpcode::ReadVersion => 0x1802,
            SleOpcode::SetMaxDataLen => 0x1804,
            SleOpcode::ReadPhyParam => 0x1805,
            SleOpcode::SetPhyParam => 0x1806,
            SleOpcode::ConnParamUpdate => 0x1807,
            SleOpcode::ConnParamReqReply => 0x1808,
            SleOpcode::ReadAvailChannels => 0x1809,
            SleOpcode::SetCodingModulation => 0x180A,
            SleOpcode::ReadRssi => 0x180C,
            SleOpcode::SetTxPower => 0x180D,
            SleOpcode::ReadTxPower => 0x180E,
            SleOpcode::ReadPeerTxPower => 0x180F,
            SleOpcode::ConfigPowerReport => 0x1810,
            SleOpcode::SetCtrlSignalData => 0x1812,
            SleOpcode::EnableRssiPowerCtrl => 0x1813,
            SleOpcode::SetSlbCodingMod => 0x1814,
            SleOpcode::ReadSlbCodingMod => 0x1815,
            SleOpcode::HashCompute => 0x1C01,
            SleOpcode::GenSecureRandom => 0x1C02,
            SleOpcode::StartEncrypt => 0x1C03,
            SleOpcode::RequestPair => 0x1C04,
            SleOpcode::ReplyEncParamReq => 0x1C05,
            SleOpcode::RejectEncParamReq => 0x1C06,
            SleOpcode::ReadLocalEncAlgo => 0x1C07,
            SleOpcode::StartPairing => 0x1C08,
            SleOpcode::PairInfoExchange => 0x1C09,
            SleOpcode::PairOptionConfirm => 0x1C0A,
            SleOpcode::PairOptionAccept => 0x1C0B,
            SleOpcode::PairExtData => 0x1C0C,
            SleOpcode::PairPasskey => 0x1C0D,
            SleOpcode::PairRandom => 0x1C0E,
            SleOpcode::PairConfirm => 0x1C0F,
            SleOpcode::DhkeyVerify => 0x1C10,
            SleOpcode::PairFail => 0x1C11,
            SleOpcode::AddRalDevice => 0x1C12,
            SleOpcode::RemoveRalDevice => 0x1C13,
            SleOpcode::ClearRal => 0x1C14,
            SleOpcode::ReadRalSize => 0x1C15,
            SleOpcode::ReadRemoteRpa => 0x1C16,
            SleOpcode::ReadLocalRpa => 0x1C17,
            SleOpcode::SetRpaEnable => 0x1C18,
            SleOpcode::SetRpaTimeout => 0x1C19,
            SleOpcode::ConfigSlbAuthPsk => 0x1C1A,
            SleOpcode::DeleteSlbAuthPsk => 0x1C1B,
            SleOpcode::ConfigSlbAuthPwd => 0x1C1C,
            SleOpcode::DeleteSlbAuthPwd => 0x1C1D,
            SleOpcode::ConfigSlbCipherAlgo => 0x1C1E,
            SleOpcode::ReadSlbCipherAlgo => 0x1C1F,
            SleOpcode::ConfigSlbSecAssoc => 0x1C20,
            SleOpcode::ReadSlbSecAssoc => 0x1C21,
            SleOpcode::ConfigSlbSecTimeout => 0x1C22,
            SleOpcode::ReadSlbSecTimeout => 0x1C23,
            SleOpcode::ReadLocalMeasCap => 0x2001,
            SleOpcode::SetMeasLinkParam => 0x2003,
            SleOpcode::MeasAction => 0x2005,
            SleOpcode::EnableMeas => 0x200B,
            SleOpcode::SlbCreateLogChannel => 0x2401,
            SleOpcode::SlbUpdateLogChannel => 0x2402,
            SleOpcode::SlbDeleteLogChannel => 0x2403,
            SleOpcode::SyncUcastParam => 0x2801,
            SleOpcode::SyncUcastCreate => 0x2803,
            SleOpcode::SyncUcastRemove => 0x2804,
            SleOpcode::SyncUcastAccept => 0x2805,
            SleOpcode::SyncUcastReject => 0x2806,
            SleOpcode::SyncMcastParam => 0x2807,
            SleOpcode::SyncMcastInfo => 0x2808,
            SleOpcode::SyncMcastCreate => 0x2809,
            SleOpcode::SyncMcastRemove => 0x280A,
            SleOpcode::SyncMcastAccept => 0x280B,
            SleOpcode::SyncMcastReject => 0x280C,
            SleOpcode::SyncDataPathConfig => 0x280D,
            SleOpcode::SyncDataPathRemove => 0x280E,
            SleOpcode::TestModeEnable => 0xF801,
            SleOpcode::TestRx => 0xF802,
            SleOpcode::TestTx => 0xF803,
            SleOpcode::TestRxResult => 0xF804,
            SleOpcode::VendorBase => 0xFC00,
        }
    }
}

/// The command of number `v`, where there is one.
pub fn sle_opcode_from_u16(v: u16) -> (r: Option<SleOpcode>)
    ensures
        match r {
            Some(op) => op.code() == v,
            None => forall|op: SleOpcode| #[trigger] op.code() != v,
        },
{
    match v {
        0x0401 => Some(SleOpcode::ReadCmdLen),
        0x0402 => Some(SleOpcode::ReadCtrlBuffer),
        0x0403 => Some(SleOpcode::ReadLocalFeatures),
        0x0404 => Some(SleOpcode::ReadLocalVersion),
        0x0405 => Some(SleOpcode::SetMacAddr),
        0x0406 => Some(SleOpcode::ReadMacAddr),
        0x0407 => Some(SleOpcode::SetNonUniqueMac),
        0x0408 => Some(SleOpcode::Reset),
        0x0409 => Some(SleOpcode::AvailChannelInd),
        0x040A => Some(SleOpcode::ReadWhitelistSize),
        0x040B => Some(SleOpcode::ClearWhitelist),
        0x040C => Some(SleOpcode::AddWhitelist),
        0x040D => Some(SleOpcode::DeleteWhitelist),
        0x040E => Some(SleOpcode::SetSlbNodeRole),
        0x040F => Some(SleOpcode::ReadSlbNodeRole),
        0x0410 => Some(SleOpcode::SetSlbWorkChannel),
        0x0411 => Some(SleOpcode::ReadSlbWorkChannel),
        0x0412 => Some(SleOpcode::ReadSlbCtrlBuffer),
        0x0413 => Some(SleOpcode::ConfigFisaChannels),
        0x0414 => Some(SleOpcode::EnableFisa),
        0x0415 => Some(SleOpcode::ConfigSlbSyncSignal),
        0x0416 => Some(SleOpcode::ReadSlbSyncSignal),
        0x0417 => Some(SleOpcode::ReadSlbLocalPower),
        0x0418 => Some(SleOpcode::EnableSlbCtrl),
        0x0419 => Some(SleOpcode::IndicateTimeSync),
        0x041A => Some(SleOpcode::TimeSyncRequest),
        0x041B => Some(SleOpcode::TimeSyncResponse),
        0x0420 => Some(SleOpcode::AddWhitelistExt),
        0x0C02 => Some(SleOpcode::SetBroadcastParam),
        0x0C03 => Some(SleOpcode::SetBroadcastData),
        0x0C04 => Some(SleOpcode::SetBroadcastScanRsp),
        0x0C05 => Some(SleOpcode::EnableBroadcast),
        0x0C06 => Some(SleOpcode::ReadMaxBcastDataLen),
        0x0C07 => Some(SleOpcode::ReadBcastSetSize),
        0x0C08 => Some(SleOpcode::DeleteBcastSet),
        0x0C09 => Some(SleOpcode::ConfigSlbDomainName),
        0x0C0A => Some(SleOpcode::ReadSlbDomainName),
        0x0C0B => Some(SleOpcode::ConfigSlbBcastParam),
        0x0C0C => Some(SleOpcode::ReadSlbBcastParam),
        0x1001 => Some(SleOpcode::SetScanParam),
        0x1002 => Some(SleOpcode::EnableScan),
        0x1003 => Some(SleOpcode::SetScanReqData),
        0x1004 => Some(SleOpcode::SetSlbScanParam),
        0x1401 => Some(SleOpcode::CreateConnection),
        0x1402 => Some(SleOpcode::CancelConnection),
        0x1403 => Some(SleOpcode::Disconnect),
        0x1404 => Some(SleOpcode::SlbCreateConnection),
        0x1801 => Some(SleOpcode::ReadFeatures),
        0x1802 => Some(SleOpcode::ReadVersion),
        0x1804 => Some(SleOpcode::SetMaxDataLen),
        0x1805 => Some(SleOpcode::ReadPhyParam),
        0x1806 => Some(SleOpcode::SetPhyParam),
        0x1807 => Some(SleOpcode::ConnParamUpdate),
        0x1808 => Some(SleOpcode::ConnParamReqReply),
        0x1809 => Some(SleOpcode::ReadAvailChannels),
        0x180A => Some(SleOpcode::SetCodingModulation),
        0x180C => Some(SleOpcode::ReadRssi),
        0x180D => Some(SleOpcode::SetTxPower),
        0x180E => Some(SleOpcode::ReadTxPower),
        0x180F => Some(SleOpcode::ReadPeerTxPower),
        0x1810 => Some(SleOpcode::ConfigPowerReport),
        0x1812 => Some(SleOpcode::SetCtrlSignalData),
        0x1813 => Some(SleOpcode::EnableRssiPowerCtrl),
        0x1814 => Some(SleOpcode::SetSlbCodingMod),
        0x1815 => Some(SleOpcode::ReadSlbCodingMod),
        0x1C01 => Some(SleOpcode::HashCompute),
        0x1C02 => Some(SleOpcode::GenSecureRandom),
        0x1C03 => Some(SleOpcode::StartEncrypt),
        0x1C04 => Some(SleOpcode::RequestPair),
        0x1C05 => Some(SleOpcode::ReplyEncParamReq),
        0x1C06 => Some(SleOpcode::RejectEncParamReq),
        0x1C07 => Some(SleOpcode::ReadLocalEncAlgo),
        0x1C08 => Some(SleOpcode::StartPairing),
        0x1C09 => Some(SleOpcode::PairInfoExchange),
        0x1C0A => Some(SleOpcode::PairOptionConfirm),
        0x1C0B => Some(SleOpcode::PairOptionAccept),
        0x1C0C => Some(SleOpcode::PairExtData),
        0x1C0D => Some(SleOpcode::PairPasskey),
        0x1C0E => Some(SleOpcode::PairRandom),
        0x1C0F => Some(SleOpcode::PairConfirm),
        0x1C10 => Some(SleOpcode::DhkeyVerify),
        0x1C11 => Some(SleOpcode::PairFail),
        0x1C12 => Some(SleOpcode::AddRalDevice),
        0x1C13 => Some(SleOpcode::RemoveRalDevice),
        0x1C14 => Some(SleOpcode::ClearRal),
        0x1C15 => Some(SleOpcode::ReadRalSize),
        0x1C16 => Some(SleOpcode::ReadRemoteRpa),
        0x1C17 => Some(SleOpcode::ReadLocalRpa),
        0x1C18 => Some(SleOpcode::SetRpaEnable),
        0x1C19 => Some(SleOpcode::SetRpaTimeout),
        0x1C1A => Some(SleOpcode::ConfigSlbAuthPsk),
        0x1C1B => Some(SleOpcode::DeleteSlbAuthPsk),
        0x1C1C => Some(SleOpcode::ConfigSlbAuthPwd),
        0x1C1D => Some(SleOpcode::DeleteSlbAuthPwd),
        0x1C1E => Some(SleOpcode::ConfigSlbCipherAlgo),
        0x1C1F => Some(SleOpcode::ReadSlbCipherAlgo),
        0x1C20 => Some(SleOpcode::ConfigSlbSecAssoc),
        0x1C21 => Some(SleOpcode::ReadSlbSecAssoc),
        0x1C22 => Some(SleOpcode::ConfigSlbSecTimeout),
        0x1C23 => Some(SleOpcode::ReadSlbSecTimeout),
        0x2001 => Some(SleOpcode::ReadLocalMeasCap),
        0x2003 => Some(SleOpcode::SetMeasLinkParam),
        0x2005 => Some(SleOpcode::MeasAction),
        0x200B => Some(SleOpcode::EnableMeas),
        0x2401 => Some(SleOpcode::SlbCreateLogChannel),
        0x2402 => Some(SleOpcode::SlbUpdateLogChannel),
        0x2403 => Some(SleOpcode::SlbDeleteLogChannel),
        0x2801 => Some(SleOpcode::SyncUcastParam),
        0x2803 => Some(SleOpcode::SyncUcastCreate),
        0x2804 => Some(SleOpcode::SyncUcastRemove),
        0x2805 => Some(SleOpcode::SyncUcastAccept),
        0x2806 => Some(SleOpcode::SyncUcastReject),
        0x2807 => Some(SleOpcode::SyncMcastParam),
        0x2808 => Some(SleOpcode::SyncMcastInfo),
        0x2809 => Some(SleOpcode::SyncMcastCreate),
        0x280A => Some(SleOpcode::SyncMcastRemove),
        0x280B => Some(SleOpcode::SyncMcastAccept),
        0x280C => Some(SleOpcode::SyncMcastReject),
        0x280D => Some(SleOpcode::SyncDataPathConfig),
        0x280E => Some(SleOpcode::SyncDataPathRemove),
        0xF801 => Some(SleOpcode::TestModeEnable),
        0xF802 => Some(SleOpcode::TestRx),
        0xF803 => Some(SleOpcode::TestTx),
        0xF804 => Some(SleOpcode::TestRxResult),
        0xFC00 => Some(SleOpcode::VendorBase),
        _ => None,
    }
}

/// No two commands have the same number.
pub proof fn opcode_code_injective(a: SleOpcode, b: SleOpcode)
    requires
        a.code() == b.code(),
    ensures
        a == b,
{
}

} // verus!
