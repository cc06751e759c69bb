//! Driver layer interface between the host stack and a controller.

use vstd::prelude::*;

use crate::bytes;
use crate::errno::Errno;
use crate::ring;
use crate::sle_opcode::SleOpcode;

verus! {

/// Slots in the event ring of a controller; one of them stays free.
pub const CTRL_EVENT_RING_SIZE: usize = 32;

/// Packet types on the transport.
#[derive(Clone, Copy, Debug, PartialEq, Eq, Structural)]
pub enum DliPacketType {
    /// Host to controller.
    Command,
    /// Controller to host.
    Event,
    /// Asynchronous unicast data.
    AsyncUnicast,
    /// Synchronous unicast data.
    SyncUnicast,
    /// Asynchronous multicast data.
    AsyncMulticast,
}

impl DliPacketType {
    /// The packet type byte.
    #[verifier::allow_in_spec]
    pub fn code(self) -> u8
        returns
            (match self {
                DliPacketType::Command => 0xA1u8,
                DliPacketType::Event => 0xA2u8,
                DliPacketType::AsyncUnicast => 0xA3u8,
                DliPacketType::SyncUnicast => 0xA4u8,
                DliPacketType::AsyncMulticast => 0xA5u8,
            }),
    {
        match self {
            DliPacketType::Command => 0xA1,
            DliPacketType::Event => 0xA2,
            DliPacketType::AsyncUnicast => 0xA3,
            DliPacketType::SyncUnicast => 0xA4,
            DliPacketType::AsyncMulticast => 0xA5,
        }
    }

    /// The packet type of byte `v`, where there is one.
    #[verifier::allow_in_spec]
    pub fn from_raw(v: u8) -> Option<DliPacketType>
        returns
            (if v == 0xA1 {
                Some(DliPacketType::Command)
            } else if v == 0xA2 {
                Some(DliPacketType::Event)
            } else if v == 0xA3 {
                Some(DliPacketType::AsyncUnicast)
            } else if v == 0xA4 {
                Some(DliPacketType::SyncUnicast)
            } else if v == 0xA5 {
                Some(DliPacketType::AsyncMulticast)
            } else {
                None
            }),
    {
        match v {
            0xA1 => Some(DliPacketType::Command),
            0xA2 => Some(DliPacketType::Event),
            0xA3 => Some(DliPacketType::AsyncUnicast),
            0xA4 => Some(DliPacketType::SyncUnicast),
            0xA5 => Some(DliPacketType::AsyncMulticast),
            _ => None,
        }
    }
}

/// Buses between the host and a controller.
#[derive(Clone, Copy, Debug, PartialEq, Eq, Structural)]
pub enum SleBus {
    Virtual,
    Uart,
    Spi,
    Sdio,
    Usb,
    Mmio,
}

impl SleBus {
    /// The number of the bus.
    #[verifier::allow_in_spec]
    pub fn code(self) -> u8
        returns
            (match self {
                SleBus::Virtual => 0u8,
                SleBus::Uart => 1u8,
                SleBus::Spi => 2u8,
                SleBus::Sdio => 3u8,
                SleBus::Usb => 4u8,
                SleBus::Mmio => 5u8,
            }),
    {
        match self {
            SleBus::Virtual => 0,
            SleBus::Uart => 1,
            SleBus::Spi => 2,
            SleBus::Sdio => 3,
            SleBus::Usb => 4,
            SleBus::Mmio => 5,
        }
    }
}

/// Controller features.
#[derive(Clone, Copy, Debug, PartialEq, Eq, Structural)]
pub enum SleFeature {
    Encryption,
    DataLenUpdate,
    Ping,
    FilterPolicy,
    Privacy,
    FrameType2,
    FrameType3,
    FrameType4,
    Bw2m,
    Bw4m,
    Pilot4to1,
    Pilot8to1,
    Pilot16to1,
    Crc32,
    Mcs0,
    Mcs1,
    Mcs2,
    Mcs3,
    Mcs4,
    Mcs5,
    Mcs6,
    Mcs7,
    Mcs8,
    Mcs9,
    Mcs10,
    Mcs11,
    Mcs12,
    TxRxGap25us,
    TxRxGap50us,
    TxRxGap75us,
    TxRxGap100us,
    SysMgmtFrame,
    SysMgmtHopping,
    RemotePkVerify,
    PowerControl,
    ChannelQuality,
    Band5ghz,
    RoleSwitch,
    Multicast1,
    Multicast2,
    Multicast3,
    Multicast4,
    LinkParamUpdate1,
    LinkParamUpdate2,
    TgMode,
    NtpTimeType1,
    NtpTimeType2,
    CbgFeedback,
    SensingMeas1,
    SensingMeas2,
    SyncDataUnicast,
    SyncDataMcast1,
    SyncDataMcast2,
}

impl SleFeature {
    /// The bit of the feature in the feature word.
    #[verifier::allow_in_spec]
    pub fn mask(self) -> u64
        returns
            (match self {
                SleFeature::Encryption => 0x1u64,
                SleFeature::DataLenUpdate => 0x2u64,
                SleFeature::Ping => 0x4u64,
                SleFeature::FilterPolicy => 0x8u64,
                SleFeature::Privacy => 0x10u64,
                SleFeature::FrameType2 => 0x20u64,
                SleFeature::FrameType3 => 0x40u64,
                SleFeature::FrameType4 => 0x80u64,
                SleFeature::Bw2m => 0x100u64,
                SleFeature::Bw4m => 0x200u64,
                SleFeature::Pilot4to1 => 0x400u64,
                SleFeature::Pilot8to1 => 0x800u64,
                SleFeature::Pilot16to1 => 0x1000u64,
                SleFeature::Crc32 => 0x2000u64,
                SleFeature::Mcs0 => 0x4000u64,
                SleFeature::Mcs1 => 0x8000u64,
                SleFeature::Mcs2 => 0x10000u64,
                SleFeature::Mcs3 => 0x20000u64,
                SleFeature::Mcs4 => 0x40000u64,
                SleFeature::Mcs5 => 0x80000u64,
                SleFeature::Mcs6 => 0x100000u64,
                SleFeature::Mcs7 => 0x200000u64,
                SleFeature::Mcs8 => 0x400000u64,
                SleFeature::Mcs9 => 0x800000u64,
                SleFeature::Mcs10 => 0x1000000u64,
                SleFeature::Mcs11 => 0x2000000u64,
                SleFeature::Mcs12 => 0x4000000u64,
                SleFeature::TxRxGap25us => 0x8000000u64,
                SleFeature::TxRxGap50us => 0x10000000u64,
                SleFeature::TxRxGap75us => 0x20000000u64,
                SleFeature::TxRxGap100us => 0x40000000u64,
                SleFeature::SysMgmtFrame => 0x80000000u64,
                SleFeature::SysMgmtHopping => 0x100000000u64,
                SleFeature::RemotePkVerify => 0x200000000u64,
                SleFeature::PowerControl => 0x400000000u64,
                SleFeature::ChannelQuality => 0x800000000u64,
                SleFeature::Band5ghz => 0x1000000000u64,
                SleFeature::RoleSwitch => 0x2000000000u64,
                SleFeature::Multicast1 => 0x4000000000u64,
                SleFeature::Multicast2 => 0x8000000000u64,
                SleFeature::Multicast3 => 0x10000000000u64,
                SleFeature::Multicast4 => 0x20000000000u64,
                SleFeature::LinkParamUpdate1 => 0x40000000000u64,
                SleFeature::LinkParamUpdate2 => 0x80000000000u64,
                SleFeature::TgMode => 0x100000000000u64,
                SleFeature::NtpTimeType1 => 0x200000000000u64,
                SleFeature::NtpTimeType2 => 0x400000000000u64,
                SleFeature::CbgFeedback => 0x800000000000u64,
                SleFeature::SensingMeas1 => 0x1000000000000u64,
                SleFeature::SensingMeas2 => 0x2000000000000u64,
                SleFeature::SyncDataUnicast => 0x4000000000000u64,
                SleFeature::SyncDataMcast1 => 0x8000000000000u64,
                SleFeature::SyncDataMcast2 => 0x10000000000000u64,
            }),
    {
        match self {
            SleFeature::Encryption => 0x1,
            SleFeature::DataLenUpdate => 0x2,
            SleFeature::Ping => 0x4,
            SleFeature::FilterPolicy => 0x8,
            SleFeature::Privacy => 0x10,
            SleFeature::FrameType2 => 0x20,
            SleFeature::FrameType3 => 0x40,
            SleFeature::FrameType4 => 0x80,
            SleFeature::Bw2m => 0x100,
            SleFeature::Bw4m => 0x200,
            SleFeature::Pilot4to1 => 0x400,
            SleFeature::Pilot8to1 => 0x800,
            SleFeature::Pilot16to1 => 0x1000,
            SleFeature::Crc32 => 0x2000,
            SleFeature::Mcs0 => 0x4000,
            SleFeature::Mcs1 => 0x8000,
            SleFeature::Mcs2 => 0x10000,
            SleFeature::Mcs3 => 0x20000,
            SleFeature::Mcs4 => 0x40000,
            SleFeature::Mcs5 => 0x80000,
            SleFeature::Mcs6 => 0x100000,
            SleFeature::Mcs7 => 0x200000,
            SleFeature::Mcs8 => 0x400000,
            SleFeature::Mcs9 => 0x800000,
            SleFeature::Mcs10 => 0x1000000,
            SleFeature::Mcs11 => 0x2000000,
            SleFeature::Mcs12 => 0x4000000,
            SleFeature::TxRxGap25us => 0x8000000,
            SleFeature::TxRxGap50us => 0x10000000,
            SleFeature::TxRxGap75us => 0x20000000,
            SleFeature::TxRxGap100us => 0x40000000,
            SleFeature::SysMgmtFrame => 0x80000000,
            SleFeature::SysMgmtHopping => 0x100000000,
            SleFeature::RemotePkVerify => 0x200000000,
            SleFeature::PowerControl => 0x400000000,
            SleFeature::ChannelQuality => 0x800000000,
            SleFeature::Band5ghz => 0x1000000000,
            SleFeature::RoleSwitch => 0x2000000000,
            SleFeature::Multicast1 => 0x4000000000,
            SleFeature::Multicast2 => 0x8000000000,
            SleFeature::Multicast3 => 0x10000000000,
            SleFeature::Multicast4 => 0x20000000000,
            SleFeature::LinkParamUpdate1 => 0x40000000000,
            SleFeature::LinkParamUpdate2 => 0x80000000000,
            SleFeature::TgMode => 0x100000000000,
            SleFeature::NtpTimeType1 => 0x200000000000,
            SleFeature::NtpTimeType2 => 0x400000000000,
            SleFeature::CbgFeedback => 0x800000000000,
            SleFeature::SensingMeas1 => 0x1000000000000,
            SleFeature::SensingMeas2 => 0x2000000000000,
            SleFeature::SyncDataUnicast => 0x4000000000000,
            SleFeature::SyncDataMcast1 => 0x8000000000000,
            SleFeature::SyncDataMcast2 => 0x10000000000000,
        }
    }
}

/// Unreliable transport.
pub const SLE_TRANSPORT_UNRELIABLE: u8 = 1;

/// Reliable transport.
pub const SLE_TRANSPORT_RELIABLE: u8 = 2;

/// Fragmented transport.
pub const SLE_TRANSPORT_FRAGMENTED: u8 = 4;

/// RSSI measurement.
pub const SLE_MEAS_RSSI: u8 = 1;

/// Path loss measurement.
pub const SLE_MEAS_PATH_LOSS: u8 = 2;

/// Power monitoring.
pub const SLE_MEAS_POWER_MONITOR: u8 = 4;

/// Channel map measurement.
pub const SLE_MEAS_CHANNEL_MAP: u8 = 8;

/// AES-CCM encryption.
pub const SLE_SEC_AES_CCM: u16 = 1;

/// SM4 encryption.
pub const SLE_SEC_SM4: u16 = 2;

/// Out-of-band authentication.
pub const SLE_SEC_OOB_AUTH: u16 = 4;

/// ECDH on P-256.
pub const SLE_SEC_ECDH_P256: u16 = 8;

/// Secure connections.
pub const SLE_SEC_SC: u16 = 16;

/// What a controller is and can do.
#[derive(Clone, Copy, Debug)]
pub struct SleControllerInfo {
    /// Name, filled up with zeros.
    pub name: [u8; 32],
    /// Bus to the controller.
    pub bus: SleBus,
    /// MAC address.
    pub addr: [u8; 6],
    /// Packed firmware version (major, minor, patch).
    pub fw_version: u32,
    /// Feature bits, see `SleFeature`.
    pub features: u64,
    /// Longest PDU payload in bytes.
    pub max_pdu_payload: u16,
    /// Most connections at once; 0 stands for no limit.
    pub max_connections: u8,
    /// Longest SSAP message.
    pub max_mtu: u16,
    /// Longest payload segment of one transmission.
    pub max_mps: u16,
    /// Transport modes, see `SLE_TRANSPORT_UNRELIABLE` and the like.
    pub transport_modes: u8,
    /// Measurements, see `SLE_MEAS_RSSI` and the like.
    pub measurement_cap: u8,
    /// Security features, see `SLE_SEC_AES_CCM` and the like.
    pub security_cap: u16,
}

/// A controller of which nothing is known yet.
pub open spec fn info_default(i: SleControllerInfo) -> bool {
    &&& i.name@ =~= bytes::zeros(32)
    &&& i.bus == SleBus::Virtual
    &&& i.addr@ =~= bytes::zeros(6)
    &&& i.fw_version == 0
    &&& i.features == 0
    &&& i.max_pdu_payload == 255
    &&& i.max_connections == 1
    &&& i.max_mtu == 247
    &&& i.max_mps == 247
    &&& i.transport_modes == SLE_TRANSPORT_UNRELIABLE
    &&& i.measurement_cap == 0
    &&& i.security_cap == 0
}

impl Default for SleControllerInfo {
    fn default() -> (r: Self)
        ensures
            info_default(r),
    {
        SleControllerInfo {
            name: [0u8; 32],
            bus: SleBus::Virtual,
            addr: [0u8; 6],
            fw_version: 0,
            features: 0,
            max_pdu_payload: 255,
            max_connections: 1,
            max_mtu: 247,
            max_mps: 247,
            transport_modes: SLE_TRANSPORT_UNRELIABLE,
            measurement_cap: 0,
            security_cap: 0,
        }
    }
}

impl SleControllerInfo {
    /// Whether the controller has feature `f`.
    pub fn has_feature(&self, f: SleFeature) -> (r: bool)
        ensures
            r == (self.features & f.mask() != 0),
    {
        self.features & f.mask() != 0
    }
}

/// How a command ended.
#[derive(Clone, Copy, Debug, PartialEq, Eq, Structural)]
pub enum SleStatus {
    Success,
    UnknownCommand,
    InvalidParameters,
    HardwareFailure,
    ResourceExhausted,
    NotConnected,
    AlreadyActive,
    PermissionDenied,
    Timeout,
}

impl SleStatus {
    /// The status byte.
    #[verifier::allow_in_spec]
    pub fn code(self) -> u8
        returns
            (match self {
                SleStatus::Success => 0x00u8,
                SleStatus::UnknownCommand => 0x01u8,
                SleStatus::InvalidParameters => 0x02u8,
                SleStatus::HardwareFailure => 0x03u8,
                SleStatus::ResourceExhausted => 0x04u8,
                SleStatus::NotConnected => 0x05u8,
                SleStatus::AlreadyActive => 0x06u8,
                SleStatus::PermissionDenied => 0x07u8,
                SleStatus::Timeout => 0x08u8,
            }),
    {
        match self {
            SleStatus::Success => 0x00,
            SleStatus::UnknownCommand => 0x01,
            SleStatus::InvalidParameters => 0x02,
            SleStatus::HardwareFailure => 0x03,
            SleStatus::ResourceExhausted => 0x04,
            SleStatus::NotConnected => 0x05,
            SleStatus::AlreadyActive => 0x06,
            SleStatus::PermissionDenied => 0x07,
            SleStatus::Timeout => 0x08,
        }
    }

    /// The status of byte `v`; an unknown byte reads as `HardwareFailure`.
    #[verifier::allow_in_spec]
    pub fn from_raw(v: u8) -> SleStatus
        returns
            (if v == 0x00 {
                SleStatus::Success
            } else if v == 0x01 {
                SleStatus::UnknownCommand
            } else if v == 0x02 {
                SleStatus::InvalidParameters
            } else if v == 0x03 {
                SleStatus::HardwareFailure
            } else if v == 0x04 {
                SleStatus::ResourceExhausted
            } else if v == 0x05 {
                SleStatus::NotConnected
            } else if v == 0x06 {
                SleStatus::AlreadyActive
            } else if v == 0x07 {
                SleStatus::PermissionDenied
            } else if v == 0x08 {
                SleStatus::Timeout
            } else {
                SleStatus::HardwareFailure
            }),
    {
        match v {
            0x00 => SleStatus::Success,
            0x01 => SleStatus::UnknownCommand,
            0x02 => SleStatus::InvalidParameters,
            0x03 => SleStatus::HardwareFailure,
            0x04 => SleStatus::ResourceExhausted,
            0x05 => SleStatus::NotConnected,
            0x06 => SleStatus::AlreadyActive,
            0x07 => SleStatus::PermissionDenied,
            0x08 => SleStatus::Timeout,
            _ => SleStatus::HardwareFailure,
        }
    }
}

/// Events that a controller sends to the host.
#[derive(Clone, Copy, Debug, PartialEq, Eq, Structural)]
pub enum DliEventCode {
    CmdStatus,
    CmdComplete,
    DataLenChange,
    BroadcastEnd,
    DisconnectDone,
    PeerConnParamReq,
    PowerChange,
    TxPktCount,
    HwError,
    DataBufOverflow,
    EncParamReq,
    EncStatusChange,
    CtrlSignalData,
    ConnEstablished,
    PeerFeatures,
    PeerVersion,
    PhyParamUpdate,
    ConnParamUpdate,
    BroadcastReport,
    ReadRemotePower,
    ScanReport,
    PairRequest,
    PairInfoExchange,
    PairInfoReport,
    PairOptionReport,
    RemotePublicKey,
    PairExtDataReport,
    PasskeyNotify,
    PairRandomReport,
    PairConfirmReport,
    DhkeyVerifyReport,
    PairFailReport,
    NbfhMeasInfo,
    NbfhMeasStateChange,
    NbfhMeasParams,
    LocalNbfhMeasCap,
    RemoteNbfhMeasCap,
    MeasStateChange,
    MeasReport,
    SlbBroadcastReport,
    SlbConnEstablished,
    SlbLogChannelDone,
    SlbLogChannelUpdate,
    SlbLogChannelDelete,
    SlbLogChannelTxPkt,
    TimeSyncUpdate,
    TimeSyncRequest,
    SyncUcastRequest,
    SyncUcastDone,
    SyncMcastRequest,
    SyncMcastDone,
}

impl DliEventCode {
    /// The number of the event on the wire.
    #[verifier::allow_in_spec]
    pub fn code(self) -> u16
        returns
            (match self {
                DliEventCode::CmdStatus => 0x0001u16,
                DliEventCode::CmdComplete => 0x0002u16,
                DliEventCode::DataLenChange => 0x0003u16,
                DliEventCode::BroadcastEnd => 0x0004u16,
                DliEventCode::DisconnectDone => 0x0005u16,
                DliEventCode::PeerConnParamReq => 0x0007u16,
                DliEventCode::PowerChange => 0x0008u16,
                DliEventCode::TxPktCount => 0x0009u16,
                DliEventCode::HwError => 0x000Au16,
                DliEventCode::DataBufOverflow => 0x000Bu16,
                DliEventCode::EncParamReq => 0x000Eu16,
                DliEventCode::EncStatusChange => 0x0011u16,
                DliEventCode::CtrlSignalData => 0x0014u16,
                DliEventCode::ConnEstablished => 0x0015u16,
                DliEventCode::PeerFeatures => 0x0016u16,
                DliEventCode::PeerVersion => 0x0017u16,
                DliEventCode::PhyParamUpdate => 0x0018u16,
                DliEventCode::ConnParamUpdate => 0x0019u16,
                DliEventCode::BroadcastReport => 0x001Au16,
                DliEventCode::ReadRemotePower => 0x001Bu16,
                DliEventCode::ScanReport => 0x001Cu16,
                DliEventCode::PairRequest => 0x001Du16,
                DliEventCode::PairInfoExchange => 0x001Eu16,
                DliEventCode::PairInfoReport => 0x001Fu16,
                DliEventCode::PairOptionReport => 0x0020u16,
                DliEventCode::RemotePublicKey => 0x0021u16,
                DliEventCode::PairExtDataReport => 0x0022u16,
                DliEventCode::PasskeyNotify => 0x0023u16,
                DliEventCode::PairRandomReport => 0x0024u16,
                DliEventCode::PairConfirmReport => 0x0025u16,
                DliEventCode::DhkeyVerifyReport => 0x0026u16,
                DliEventCode::PairFailReport => 0x0027u16,
                DliEventCode::NbfhMeasInfo => 0x0028u16,
                DliEventCode::NbfhMeasStateChange => 0x0029u16,
                DliEventCode::NbfhMeasParams => 0x002Au16,
                DliEventCode::LocalNbfhMeasCap => 0x002Bu16,
                DliEventCode::RemoteNbfhMeasCap => 0x002Cu16,
                DliEventCode::MeasStateChange => 0x002Du16,
                DliEventCode::MeasReport => 0x002Eu16,
                DliEventCode::SlbBroadcastReport => 0x002Fu16,
                DliEventCode::SlbConnEstablished => 0x0030u16,
                DliEventCode::SlbLogChannelDone => 0x0031u16,
                DliEventCode::SlbLogChannelUpdate => 0x0032u16,
                DliEventCode::SlbLogChannelDelete => 0x0033u16,
                DliEventCode::SlbLogChannelTxPkt => 0x0034u16,
                DliEventCode::TimeSyncUpdate => 0x0035u16,
                DliEventCode::TimeSyncRequest => 0x0036u16,
                DliEventCode::SyncUcastRequest => 0x0038u16,
                DliEventCode::SyncUcastDone => 0x0039u16,
                DliEventCode::SyncMcastRequest => 0x003Au16,
                DliEventCode::SyncMcastDone => 0x003Bu16,
            }),
    {
        match self {
            DliEventCode::CmdStatus => 0x0001,
            DliEventCode::CmdComplete => 0x0002,
            DliEventCode::DataLenChange => 0x0003,
            DliEventCode::BroadcastEnd => 0x0004,
            DliEventCode::DisconnectDone => 0x0005,
            DliEventCode::PeerConnParamReq => 0x0007,
            DliEventCode::PowerChange => 0x0008,
            DliEventCode::TxPktCount => 0x0009,
            DliEventCode::HwError => 0x000A,
            DliEventCode::DataBufOverflow => 0x000B,
            DliEventCode::EncParamReq => 0x000E,
            DliEventCode::EncStatusChange => 0x0011,
            DliEventCode::CtrlSignalData => 0x0014,
            DliEventCode::ConnEstablished => 0x0015,
            DliEventCode::PeerFeatures => 0x0016,
            DliEventCode::PeerVersion => 0x0017,
            DliEventCode::PhyParamUpdate => 0x0018,
            DliEventCode::ConnParamUpdate => 0x0019,
            DliEventCode::BroadcastReport => 0x001A,
            DliEventCode::ReadRemotePower => 0x001B,
            DliEventCode::ScanReport => 0x001C,
            DliEventCode::PairRequest => 0x001D,
            DliEventCode::PairInfoExchange => 0x001E,
            DliEventCode::PairInfoReport => 0x001F,
            DliEventCode::PairOptionReport => 0x0020,
            DliEventCode::RemotePublicKey => 0x0021,
            DliEventCode::PairExtDataReport => 0x0022,
            DliEventCode::PasskeyNotify => 0x0023,
            DliEventCode::PairRandomReport => 0x0024,
            DliEventCode::PairConfirmReport => 0x0025,
            DliEventCode::DhkeyVerifyReport => 0x0026,
            DliEventCode::PairFailReport => 0x0027,
            DliEventCode::NbfhMeasInfo => 0x0028,
            DliEventCode::NbfhMeasStateChange => 0x0029,
            DliEventCode::NbfhMeasParams => 0x002A,
            DliEventCode::LocalNbfhMeasCap => 0x002B,
            DliEventCode::RemoteNbfhMeasCap => 0x002C,
            DliEventCode::MeasStateChange => 0x002D,
            DliEventCode::MeasReport => 0x002E,
            DliEventCode::SlbBroadcastReport => 0x002F,
            DliEventCode::SlbConnEstablished => 0x0030,
            DliEventCode::SlbLogChannelDone => 0x0031,
            DliEventCode::SlbLogChannelUpdate => 0x0032,
            DliEventCode::SlbLogChannelDelete => 0x0033,
            DliEventCode::SlbLogChannelTxPkt => 0x0034,
            DliEventCode::TimeSyncUpdate => 0x0035,
            DliEventCode::TimeSyncRequest => 0x0036,
            DliEventCode::SyncUcastRequest => 0x0038,
            DliEventCode::SyncUcastDone => 0x0039,
            DliEventCode::SyncMcastRequest => 0x003A,
            DliEventCode::SyncMcastDone => 0x003B,
        }
    }
}

/// An event from the controller.
#[allow(inconsistent_fields)]
pub enum SleEvent {
    /// A command ended.
    CommandComplete { opcode: SleOpcode, status: SleStatus, data: Vec<u8> },
    /// A command was taken up.
    CommandStatus { opcode: SleOpcode, status: SleStatus },
    /// An advertisement was heard.
    AdvReport { addr: [u8; 6], rssi: i8, discovery_level: u8, data: Vec<u8> },
    /// A connection was set up.
    ConnComplete { handle: u16, addr: [u8; 6], status: SleStatus },
    /// Data came in on a connection.
    DataReceived { handle: u16, data: Vec<u8> },
    /// A connection was lost.
    Disconnected { handle: u16, reason: u8 },
    /// Encryption was switched on a connection.
    EncryptionChanged { handle: u16, enabled: bool },
    /// A peer asks for pairing.
    PairRequest { addr: [u8; 6], method: u8 },
    /// The controller failed.
    HardwareError { code: u8 },
    /// The controller ended a broadcast.
    BroadcastEnd { reason: u8 },
    /// The PHY parameters of a connection changed.
    PhyUpdate { handle: u16, mcs_index: u8, bandwidth_mhz: u8 },
    /// The parameters of a connection changed.
    ConnParamUpdate { handle: u16, interval: u16, latency: u16, timeout: u16 },
    /// The data length of a connection changed.
    DataLenChange { handle: u16, max_tx_octets: u16, max_rx_octets: u16 },
    /// A data buffer of the controller ran over.
    DataBufOverflow { link_type: u8 },
    /// A peer asks for other connection parameters.
    PeerConnParamReq { handle: u16, interval_min: u16, interval_max: u16, latency: u16, timeout: u16 },
    /// The transmit power changed.
    PowerChangeReport { handle: u16, reason: u8, frame_type: u8, bandwidth: u8, pilot_density: u8, tx_power: i8, power_level: u8, offset: i8 },
    /// Packets were sent.
    NumCompletedPackets { handle: u16, num_completed: u8 },
    /// The controller asks for encryption parameters.
    EncryptionParamReq { handle: u16 },
    /// Control signalling data.
    ControllerSignalData { handle: u16, signal_id: u16, data: Vec<u8> },
    /// The features of a peer.
    ReadPeerFeatures { handle: u16, status: u8, features: [u8; 10] },
    /// The version of a peer.
    ReadPeerVersion { handle: u16, status: u8, version: u8, manufacturer: u16, subversion: u16 },
    /// The transmit power of a peer.
    ReadPeerPower { handle: u16, status: u8, frame_type: u8, bandwidth: u8, pilot_density: u8, tx_power: i8, power_level: u8 },
    /// A scan request was heard.
    InquiryRequestReport { adv_handle: u8, addr_type: u8, addr: [u8; 6], rssi: i8, data: Vec<u8> },
    /// A peer asks for pairing information.
    PairInfoExchange { handle: u16, io_cap: u8, oob_flag: u8, auth_req: u8, max_key_len: u8, sec_dist: u8, psk_ind: u8, crypto_cap: [u8; 4] },
    /// Pairing information of a peer.
    PairInfoReport { handle: u16, io_cap: u8, oob_flag: u8, auth_req: u8, max_key_len: u8, sec_dist: u8, psk_ind: u8, crypto_cap: [u8; 4] },
    /// Pairing options of a peer.
    PairOptionReport { handle: u16, key_len: u8, auth_method: u8, crypto_alg: [u8; 4], public_key: Vec<u8> },
    /// The public key of a peer.
    PeerPublicKey { handle: u16, public_key: Vec<u8> },
    /// The public key of a peer, both coordinates.
    PairExtData { handle: u16, ext_pubkey_x: Vec<u8>, ext_pubkey_y: Vec<u8> },
    /// Keys were pressed at a peer.
    KeypressNotify { handle: u16, action: [u8; 4] },
    /// The pairing random number of a peer.
    PairRandom { handle: u16, random: [u8; 16] },
    /// The pairing confirm value of a peer.
    PairConfirm { handle: u16, confirm: [u8; 16] },
    /// The key check value of a peer.
    DHKeyCheck { handle: u16, dhkey_check: [u8; 16] },
    /// Pairing failed.
    PairFailure { handle: u16, reason: u8 },
    /// Narrowband measurement information.
    NarrowbandMeasInfo { handle: u16, meas_type: u16, status: u8, config_index: u8 },
    /// A narrowband measurement changed its state.
    NarrowbandMeasStateChange { status: u8, config_index: u8, meas_state: u8 },
    /// Narrowband measurement parameters.
    NarrowbandMeasParamReport { handle: u16, status: u8, config_index: u8 },
    /// Narrowband measurement abilities of this controller.
    LocalNarrowbandMeasCap { status: u8, antenna_count: u8, signal_cap: [u8; 4], report_cap: [u8; 4] },
    /// Narrowband measurement abilities of a peer.
    PeerNarrowbandMeasCap { handle: u16, status: u8, antenna_count: u8, signal_cap: [u8; 4], report_cap: [u8; 4] },
    /// A measurement changed its state.
    MeasStateChange { source: u16, status: u8, instance_handle: u8, instance_state: u8 },
    /// Measured quantities.
    MeasQuantityReport { source: u16, meas_source: u16, seq: u16, instance_handle: u8, meas_count: u8 },
    /// An SLB advertisement was heard.
    SlbAdvReport { mac_addr: [u8; 6], channel: u16, bandwidth: u8, rssi: i8, data: Vec<u8> },
    /// An SLB connection was set up.
    SlbConnComplete { handle: u16, status: u8, peer_addr: [u8; 6] },
    /// An SLB channel was set up.
    SlbUcastChannelComplete { channel_handle: u16, conn_handle: u16, status: u8, max_pkt_len: u16, max_pkt_count: u16 },
    /// An SLB channel was changed.
    SlbUcastChannelUpdate { channel_handle: u16, status: u8, max_pkt_len: u16, max_pkt_count: u16 },
    /// An SLB channel was deleted.
    SlbChannelDelete { channel_handle: u16, status: u8 },
    /// Packets were sent on an SLB channel.
    SlbNumCompletedPackets { channel_handle: u16, num_completed: u8 },
    /// The time synchronisation changed its state.
    TimeSyncStatusUpdate { sync_status: u8, clock_source: u8, accuracy: u32 },
    /// A peer asks for time synchronisation.
    TimeSyncRequest { time_seq: u32, send_time: [u8; 8] },
    /// A peer asks for a sync unicast link.
    SyncUcastSetupRequest { async_handle: u16, sync_handle: u16, event_group_set_id: u8, event_group_id: u8 },
    /// A sync unicast link was set up.
    SyncUcastSetupComplete { async_handle: u16, sync_handle: u16, status: u8 },
    /// A peer asks for a sync multicast link.
    SyncMcastSetupRequest { async_handle: u16, sync_handle: u16 },
    /// A sync multicast link was set up.
    SyncMcastSetupComplete { async_handle: u16, sync_handle: u16, status: u8 },
}

/// Events on their way from a controller to the host, each with the device it came from.
pub struct ControllerEventRing {
    events: Vec<(Option<u16>, Option<SleEvent>)>,
    head: usize,
    tail: usize,
}

impl ControllerEventRing {
    spec fn count(self) -> int {
        if self.tail >= self.head {
            self.tail - self.head
        } else {
            self.tail + 32 - self.head
        }
    }

    /// Every slot between head and tail holds an event.
    pub closed spec fn wf(self) -> bool {
        &&& self.events.len() == 32
        &&& self.head < 32
        &&& self.tail < 32
        &&& forall|i: int|
            0 <= i < self.count() ==> (#[trigger] self.events@[ring::wrap(self.head + i, 32)]).1 is Some
    }

    /// The events, oldest first.
    pub closed spec fn view(self) -> Seq<(Option<u16>, SleEvent)> {
        ring::ring(self.events@, self.head as int, self.count()).map_values(
            |e: (Option<u16>, Option<SleEvent>)| (e.0, e.1->0),
        )
    }

    /// At most 31 events wait.
    pub proof fn bounded(self)
        requires
            self.wf(),
        ensures
            self@.len() <= 31,
    {
    }

    /// An empty ring.
    pub fn new() -> (r: Self)
        ensures
            r.wf(),
            r@ == Seq::<(Option<u16>, SleEvent)>::empty(),
    {
        let mut events: Vec<(Option<u16>, Option<SleEvent>)> = Vec::new();
        let mut i: usize = 0;
        while i < 32
            invariant
                i <= 32,
                events.len() == i,
            decreases 32 - i,
        {
            events.push((None, None));
            i = i + 1;
        }
        let r = ControllerEventRing { events, head: 0, tail: 0 };
        assert(r@ == Seq::<(Option<u16>, SleEvent)>::empty());
        r
    }

    /// Appends an event that came from device `dev_id`; a full ring drops it.
    pub fn push_tagged(&mut self, dev_id: Option<u16>, ev: SleEvent)
        requires
            old(self).wf(),
        ensures
            final(self).wf(),
            final(self)@ == (if old(self)@.len() == 31 {
                old(self)@
            } else {
                old(self)@.push((dev_id, ev))
            }),
    {
        let next = (self.tail + 1) % CTRL_EVENT_RING_SIZE;
        if next == self.head {
            return;
        }
        proof {
            ring::ring_push(self.events@, self.head as int, self.count(), (dev_id, Some(ev)));
        }
        self.events.set(self.tail, (dev_id, Some(ev)));
        self.tail = next;
        assert(self@ == old(self)@.push((dev_id, ev)));
    }

    /// Appends an event of no particular device.
    pub fn push(&mut self, ev: SleEvent)
        requires
            old(self).wf(),
        ensures
            final(self).wf(),
            final(self)@ == (if old(self)@.len() == 31 {
                old(self)@
            } else {
                old(self)@.push((None::<u16>, ev))
            }),
    {
        self.push_tagged(None, ev);
    }

    /// Takes the oldest event and the device it came from.
    pub fn pop_tagged(&mut self) -> (r: Option<(Option<u16>, SleEvent)>)
        requires
            old(self).wf(),
        ensures
            final(self).wf(),
            match r {
                Some(e) => old(self)@.len() > 0 && e == old(self)@[0] && final(self)@
                    == old(self)@.drop_first(),
                None => old(self)@.len() == 0 && *final(self) == *old(self),
            },
    {
        if self.head == self.tail {
            return None;
        }
        proof {
            ring::ring_pop(self.events@, self.head as int, self.count(), (None, None));
        }
        assert(self.events@[ring::wrap(self.head + 0, 32)].1 is Some);
        let mut slot: (Option<u16>, Option<SleEvent>) = (None, None);
        core::mem::swap(&mut slot, &mut self.events[self.head]);
        let (dev_id, ev) = slot;
        self.head = (self.head + 1) % CTRL_EVENT_RING_SIZE;
        assert(self.wf()) by {
            assert forall|i: int| 0 <= i < self.count() implies (#[trigger] self.events@[ring::wrap(
                self.head + i,
                32,
            )]).1 is Some by {
                assert(old(self).events@[ring::wrap(old(self).head + (i + 1), 32)].1 is Some);
            }
        }
        assert(self@ == old(self)@.drop_first());
        match ev {
            Some(e) => Some((dev_id, e)),
            None => None,
        }
    }

    /// Takes the oldest event.
    pub fn pop(&mut self) -> (r: Option<SleEvent>)
        requires
            old(self).wf(),
        ensures
            final(self).wf(),
            match r {
                Some(e) => old(self)@.len() > 0 && e == old(self)@[0].1 && final(self)@
                    == old(self)@.drop_first(),
                None => old(self)@.len() == 0 && *final(self) == *old(self),
            },
    {
        match self.pop_tagged() {
            Some(e) => Some(e.1),
            None => None,
        }
    }
}

/// The events of a ring after one more was appended, which a full ring drops.
pub open spec fn pushed(s: Seq<SleEvent>, ev: SleEvent) -> Seq<SleEvent> {
    if s.len() == 31 {
        s
    } else {
        s.push(ev)
    }
}

/// Whether `ev` tells that command `opcode` ended well, with no data.
pub open spec fn completes(ev: SleEvent, opcode: SleOpcode) -> bool {
    match ev {
        SleEvent::CommandComplete { opcode: o, status, data } => o == opcode && status
            == SleStatus::Success && data@.len() == 0,
        _ => false,
    }
}

/// Whether `ev` tells that the connection asked for by `params` is up: the address is
/// the first six bytes, the handle its last byte, or 1 where that is 0.
pub open spec fn connects(ev: SleEvent, params: Seq<u8>) -> bool {
    match ev {
        SleEvent::ConnComplete { handle, addr, status } => handle == (if params[5] == 0 {
            1
        } else {
            params[5] as int
        }) && addr@ == params.take(6) && status == SleStatus::Success,
        _ => false,
    }
}

/// Whether `after` are the events `before` and one that tells that command `opcode`
/// ended well.
pub open spec fn completed(
    before: Seq<SleEvent>,
    opcode: SleOpcode,
    after: Seq<SleEvent>,
) -> bool {
    exists|e: SleEvent| #[trigger] completes(e, opcode) && after == pushed(before, e)
}

/// What a command does to the events of a virtual controller: it ends well, a new
/// connection comes up and a closed one goes down at once.
pub open spec fn virtual_sent(
    before: Seq<SleEvent>,
    opcode: SleOpcode,
    params: Seq<u8>,
    after: Seq<SleEvent>,
) -> bool {
    exists|e: SleEvent| #[trigger]
        completes(e, opcode) && {
            let first = pushed(before, e);
            if opcode == SleOpcode::CreateConnection && params.len() >= 6 {
                exists|e2: SleEvent| #[trigger]
                    connects(e2, params) && after == pushed(first, e2)
            } else if opcode == SleOpcode::Disconnect && params.len() >= 2 {
                after == pushed(
                    first,
                    SleEvent::Disconnected {
                        handle: bytes::le16(params[0], params[1]),
                        reason: 0,
                    },
                )
            } else {
                after == first
            }
        }
}

/// What the stack asks of a controller driver.
///
/// A command is answered by events, which `poll_event` hands out.
pub trait SleController {
    /// Whether the driver is in a proper state.
    spec fn wf(&self) -> bool;

    /// What the controller is and can do.
    fn info(&self) -> SleControllerInfo
        requires
            self.wf(),
    ;

    /// Powers the controller up.
    fn open(&mut self) -> (r: Result<(), Errno>)
        requires
            old(self).wf(),
        ensures
            final(self).wf(),
    ;

    /// Powers the controller down.
    fn close(&mut self)
        requires
            old(self).wf(),
        ensures
            final(self).wf(),
    ;

    /// Sends a command.
    fn send_command(&mut self, opcode: SleOpcode, params: &[u8]) -> (r: Result<(), Errno>)
        requires
            old(self).wf(),
        ensures
            final(self).wf(),
    ;

    /// Sends data on a connection.
    fn send_data(&mut self, handle: u16, data: &[u8]) -> (r: Result<(), Errno>)
        requires
            old(self).wf(),
        ensures
            final(self).wf(),
    ;

    /// Takes the next event.
    fn poll_event(&mut self) -> (r: Option<SleEvent>)
        requires
            old(self).wf(),
        ensures
            final(self).wf(),
    ;

    /// Puts the controller into a known state.
    fn reset(&mut self) -> (r: Result<(), Errno>)
        requires
            old(self).wf(),
        ensures
            final(self).wf(),
    ;
}

/// The part that all controllers of this crate share: whether they are open, and the
/// events that wait.
pub struct ControllerState {
    opened: bool,
    events: ControllerEventRing,
}

impl ControllerState {
    /// The ring of events is in a proper state.
    pub closed spec fn wf(self) -> bool {
        self.events.wf()
    }

    /// Whether the controller is open.
    pub closed spec fn is_open(self) -> bool {
        self.opened
    }

    /// The events that wait, oldest first.
    pub closed spec fn events(self) -> Seq<SleEvent> {
        self.events@.map_values(|e: (Option<u16>, SleEvent)| e.1)
    }

    /// A closed controller without events.
    pub fn new() -> (r: Self)
        ensures
            r.wf(),
            !r.is_open(),
            r.events() == Seq::<SleEvent>::empty(),
    {
        let r = ControllerState { opened: false, events: ControllerEventRing::new() };
        assert(r.events() == Seq::<SleEvent>::empty());
        r
    }

    /// Opens the controller, or returns `EBUSY` where it is open.
    pub fn open(&mut self) -> (r: Result<(), Errno>)
        requires
            old(self).wf(),
        ensures
            final(self).wf(),
            final(self).is_open(),
            final(self).events() == old(self).events(),
            r == (if old(self).is_open() {
                Err::<(), Errno>(Errno::EBUSY)
            } else {
                Ok::<(), Errno>(())
            }),
    {
        if self.opened {
            return Err(Errno::EBUSY);
        }
        self.opened = true;
        Ok(())
    }

    /// Closes the controller.
    pub fn close(&mut self)
        requires
            old(self).wf(),
        ensures
            final(self).wf(),
            !final(self).is_open(),
            final(self).events() == old(self).events(),
    {
        self.opened = false;
    }

    /// Appends an event; a full ring drops it.
    pub fn enqueue_event(&mut self, ev: SleEvent)
        requires
            old(self).wf(),
        ensures
            final(self).wf(),
            final(self).is_open() == old(self).is_open(),
            final(self).events() == pushed(old(self).events(), ev),
    {
        self.events.push(ev);
        assert(self.events() == pushed(old(self).events(), ev));
    }

    /// Tells that command `opcode` ended well.
    pub fn complete(&mut self, opcode: SleOpcode)
        requires
            old(self).wf(),
        ensures
            final(self).wf(),
            final(self).is_open() == old(self).is_open(),
            completed(old(self).events(), opcode, final(self).events()),
    {
        let ev = SleEvent::CommandComplete {
            opcode,
            status: SleStatus::Success,
            data: Vec::new(),
        };
        assert(completes(ev, opcode));
        self.enqueue_event(ev);
    }

    /// Takes the oldest event.
    pub fn poll_event(&mut self) -> (r: Option<SleEvent>)
        requires
            old(self).wf(),
        ensures
            final(self).wf(),
            final(self).is_open() == old(self).is_open(),
            match r {
                Some(e) => old(self).events().len() > 0 && e == old(self).events()[0]
                    && final(self).events() == old(self).events().drop_first(),
                None => old(self).events().len() == 0 && final(self).events()
                    == old(self).events(),
            },
    {
        let r = self.events.pop();
        assert(r is Some ==> self.events() == old(self).events().drop_first());
        r
    }
}

/// A controller made of software alone: it accepts every command and answers at once.
pub struct VirtualController {
    addr: [u8; 6],
    state: ControllerState,
}

impl VirtualController {
    /// The address of the controller.
    pub closed spec fn addr(self) -> Seq<u8> {
        self.addr@
    }

    /// Whether the controller is open.
    pub closed spec fn is_open(self) -> bool {
        self.state.is_open()
    }

    /// The events that wait, oldest first.
    pub closed spec fn events(self) -> Seq<SleEvent> {
        self.state.events()
    }

    /// A closed controller of address `addr`.
    pub fn new(addr: [u8; 6]) -> (r: Self)
        ensures
            r.wf(),
            r.addr() == addr@,
            !r.is_open(),
            r.events() == Seq::<SleEvent>::empty(),
    {
        VirtualController { addr, state: ControllerState::new() }
    }
}

/// The name "sparklink-virtual".
pub open spec fn virtual_name() -> Seq<u8> {
    seq![0x73u8, 0x70, 0x61, 0x72, 0x6B, 0x6C, 0x69, 0x6E, 0x6B, 0x2D, 0x76, 0x69, 0x72, 0x74, 0x75, 0x61, 0x6C]
}

/// Whether `r` describes a virtual controller with address `addr`.
pub open spec fn virtual_info(r: SleControllerInfo, addr: Seq<u8>) -> bool {
    &&& r.name@ == bytes::padded(virtual_name(), 32)
    &&& r.bus == SleBus::Virtual
    &&& r.addr@ == addr
    &&& r.fw_version == 0x0001_0000
    &&& r.features == SleFeature::Encryption.mask() | SleFeature::Mcs4.mask()
        | SleFeature::Pilot8to1.mask() | SleFeature::Crc32.mask()
    &&& r.max_pdu_payload == 255
    &&& r.max_connections == 8
    &&& r.max_mtu == 512
    &&& r.max_mps == 247
    &&& r.transport_modes == SLE_TRANSPORT_UNRELIABLE | SLE_TRANSPORT_RELIABLE
    &&& r.measurement_cap == SLE_MEAS_RSSI
    &&& r.security_cap == SLE_SEC_AES_CCM | SLE_SEC_ECDH_P256
}

impl SleController for VirtualController {
    closed spec fn wf(&self) -> bool {
        self.state.wf()
    }

    fn info(&self) -> (r: SleControllerInfo)
        ensures
            virtual_info(r, self.addr()),
    {
        let name = [0x73u8, 0x70, 0x61, 0x72, 0x6B, 0x6C, 0x69, 0x6E, 0x6B, 0x2D, 0x76, 0x69, 0x72, 0x74, 0x75, 0x61, 0x6C];
        assert(name@ == virtual_name());
        SleControllerInfo {
            name: bytes::to_array(name.as_slice()),
            bus: SleBus::Virtual,
            addr: self.addr,
            fw_version: 0x0001_0000,
            features: SleFeature::Encryption.mask() | SleFeature::Mcs4.mask()
                | SleFeature::Pilot8to1.mask() | SleFeature::Crc32.mask(),
            max_pdu_payload: 255,
            max_connections: 8,
            max_mtu: 512,
            max_mps: 247,
            transport_modes: SLE_TRANSPORT_UNRELIABLE | SLE_TRANSPORT_RELIABLE,
            measurement_cap: SLE_MEAS_RSSI,
            security_cap: SLE_SEC_AES_CCM | SLE_SEC_ECDH_P256,
        }
    }

    fn open(&mut self) -> (r: Result<(), Errno>)
        ensures
            final(self).is_open(),
            final(self).addr() == old(self).addr(),
            final(self).events() == old(self).events(),
            r == (if old(self).is_open() {
                Err::<(), Errno>(Errno::EBUSY)
            } else {
                Ok::<(), Errno>(())
            }),
    {
        self.state.open()
    }

    fn close(&mut self)
        ensures
            !final(self).is_open(),
            final(self).addr() == old(self).addr(),
            final(self).events() == old(self).events(),
    {
        self.state.close();
    }

    fn send_command(&mut self, opcode: SleOpcode, params: &[u8]) -> (r: Result<(), Errno>)
        ensures
            r == Ok::<(), Errno>(()),
            final(self).is_open() == old(self).is_open(),
            final(self).addr() == old(self).addr(),
            virtual_sent(old(self).events(), opcode, params@, final(self).events()),
    {
        self.state.complete(opcode);
        if opcode == SleOpcode::CreateConnection && params.len() >= 6 {
            let head = bytes::slice_of(params, 0, 6);
            assert(head@ == params@.take(6));
            let addr: [u8; 6] = bytes::to_array(head.as_slice());
            assert(addr@ == head@);
            let handle = if params[5] == 0 {
                1
            } else {
                params[5] as u16
            };
            let ev = SleEvent::ConnComplete { handle, addr, status: SleStatus::Success };
            assert(connects(ev, params@));
            self.state.enqueue_event(ev);
        } else if opcode == SleOpcode::Disconnect && params.len() >= 2 {
            let handle = bytes::le16(params[0], params[1]);
            self.state.enqueue_event(SleEvent::Disconnected { handle, reason: 0 });
        }
        Ok(())
    }

    fn send_data(&mut self, handle: u16, data: &[u8]) -> (r: Result<(), Errno>)
        ensures
            r == Ok::<(), Errno>(()),
            *final(self) == *old(self),
    {
        Ok(())
    }

    fn poll_event(&mut self) -> (r: Option<SleEvent>)
        ensures
            final(self).is_open() == old(self).is_open(),
            final(self).addr() == old(self).addr(),
            match r {
                Some(e) => old(self).events().len() > 0 && e == old(self).events()[0]
                    && final(self).events() == old(self).events().drop_first(),
                None => old(self).events().len() == 0 && final(self).events()
                    == old(self).events(),
            },
    {
        self.state.poll_event()
    }

    fn reset(&mut self) -> (r: Result<(), Errno>)
        ensures
            r == Ok::<(), Errno>(()),
            *final(self) == *old(self),
    {
        Ok(())
    }
}

} // verus!
