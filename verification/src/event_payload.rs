//! What events tell programs, and how it is written.

use vstd::prelude::*;

use crate::bytes;

verus! {

/// Kinds of events.
#[derive(Clone, Copy, Debug, PartialEq, Eq, Structural)]
pub enum SleEventType {
    /// Connection state changed (new, connected, disconnected, rejected).
    ConnStateChanged,
    /// Advertising report received during scanning.
    AdvReport,
    /// Data received on a connection.
    DataReceived,
    /// Security state changed (pairing started, completed, failed).
    SecurityChanged,
    /// Power state changed.
    PowerChanged,
    /// Hardware or controller error.
    HardwareError,
    /// DLI command completed (opcode + status).
    CommandComplete,
    /// DLI command status (async command accepted/rejected).
    CommandStatus,
    /// Broadcast / advertising terminated.
    BroadcastEnd,
    /// PHY parameters updated (MCS, bandwidth, etc.).
    PhyUpdate,
    /// Connection parameters updated.
    ConnParamUpdate,
    /// Data length changed on a connection.
    DataLenChange,
    /// Controller data buffer overflow.
    DataBufOverflow,
    /// Remote peer requests connection parameter change.
    PeerConnParamReq,
    /// TX power change report.
    PowerChangeReport,
    /// Number of successfully transmitted packets.
    NumCompletedPackets,
    /// Link encryption parameter request.
    EncryptionParamReq,
    /// Controller control signaling data.
    ControllerSignalData,
    /// Read peer features complete.
    ReadPeerFeatures,
    /// Read peer version info complete.
    ReadPeerVersion,
    /// Read peer TX power complete.
    ReadPeerPower,
    /// Inquiry (scan) request report.
    InquiryRequestReport,
    /// Pairing request from remote peer.
    PairRequest,
    /// Pairing information exchange request.
    PairInfoExchangeReq,
    /// Pairing information report.
    PairInfoReport,
    /// Pairing option report.
    PairOptionReport,
    /// Peer public key report.
    PeerPublicKeyReport,
    /// Pairing extended data report.
    PairExtDataReport,
    /// Keypress notification.
    KeypressNotification,
    /// Pairing random number report.
    PairRandomReport,
    /// Pairing confirm code report.
    PairConfirmReport,
    /// DH key check report.
    DHKeyCheckReport,
    /// Pairing failure report.
    PairFailureReport,
    /// Narrowband frequency-hopping measurement info.
    NarrowbandMeasInfo,
    /// Narrowband measurement state change.
    NarrowbandMeasStateChange,
    /// Narrowband measurement parameter report.
    NarrowbandMeasParamReport,
    /// Local narrowband measurement capabilities.
    LocalNarrowbandMeasCap,
    /// Peer narrowband measurement capabilities.
    PeerNarrowbandMeasCap,
    /// Measurement state change.
    MeasStateChange,
    /// Measurement quantity report.
    MeasQuantityReport,
    /// SLB advertising report.
    SlbAdvReport,
    /// SLB connection established.
    SlbConnComplete,
    /// SLB unicast logical channel established.
    SlbUcastChannelComplete,
    /// SLB unicast logical channel updated.
    SlbUcastChannelUpdate,
    /// SLB logical channel deleted.
    SlbChannelDelete,
    /// SLB logical channel completed packets count.
    SlbNumCompletedPackets,
    /// Time synchronization status update.
    TimeSyncStatusUpdate,
    /// Time synchronization request from controller.
    TimeSyncRequest,
    /// Synchronous unicast link setup request.
    SyncUcastSetupRequest,
    /// Synchronous unicast link setup complete.
    SyncUcastSetupComplete,
    /// Synchronous multicast link setup request.
    SyncMcastSetupRequest,
    /// Synchronous multicast link setup complete.
    SyncMcastSetupComplete,
}

impl SleEventType {
    /// Code of the kind.
    #[verifier::allow_in_spec]
    pub fn code(self) -> u8
        returns
            (match self {
                SleEventType::ConnStateChanged => 0x01u8,
                SleEventType::AdvReport => 0x02u8,
                SleEventType::DataReceived => 0x03u8,
                SleEventType::SecurityChanged => 0x04u8,
                SleEventType::PowerChanged => 0x05u8,
                SleEventType::HardwareError => 0x06u8,
                SleEventType::CommandComplete => 0x07u8,
                SleEventType::CommandStatus => 0x08u8,
                SleEventType::BroadcastEnd => 0x09u8,
                SleEventType::PhyUpdate => 0x0Au8,
                SleEventType::ConnParamUpdate => 0x0Bu8,
                SleEventType::DataLenChange => 0x0Cu8,
                SleEventType::DataBufOverflow => 0x0Du8,
                SleEventType::PeerConnParamReq => 0x0Eu8,
                SleEventType::PowerChangeReport => 0x0Fu8,
                SleEventType::NumCompletedPackets => 0x10u8,
                SleEventType::EncryptionParamReq => 0x11u8,
                SleEventType::ControllerSignalData => 0x12u8,
                SleEventType::ReadPeerFeatures => 0x13u8,
                SleEventType::ReadPeerVersion => 0x14u8,
                SleEventType::ReadPeerPower => 0x15u8,
                SleEventType::InquiryRequestReport => 0x16u8,
                SleEventType::PairRequest => 0x17u8,
                SleEventType::PairInfoExchangeReq => 0x18u8,
                SleEventType::PairInfoReport => 0x19u8,
                SleEventType::PairOptionReport => 0x1Au8,
                SleEventType::PeerPublicKeyReport => 0x1Bu8,
                SleEventType::PairExtDataReport => 0x1Cu8,
                SleEventType::KeypressNotification => 0x1Du8,
                SleEventType::PairRandomReport => 0x1Eu8,
                SleEventType::PairConfirmReport => 0x1Fu8,
                SleEventType::DHKeyCheckReport => 0x20u8,
                SleEventType::PairFailureReport => 0x21u8,
                SleEventType::NarrowbandMeasInfo => 0x22u8,
                SleEventType::NarrowbandMeasStateChange => 0x23u8,
                SleEventType::NarrowbandMeasParamReport => 0x24u8,
                SleEventType::LocalNarrowbandMeasCap => 0x25u8,
                SleEventType::PeerNarrowbandMeasCap => 0x26u8,
                SleEventType::MeasStateChange => 0x27u8,
                SleEventType::MeasQuantityReport => 0x28u8,
                SleEventType::SlbAdvReport => 0x29u8,
                SleEventType::SlbConnComplete => 0x2Au8,
                SleEventType::SlbUcastChannelComplete => 0x2Bu8,
                SleEventType::SlbUcastChannelUpdate => 0x2Cu8,
                SleEventType::SlbChannelDelete => 0x2Du8,
                SleEventType::SlbNumCompletedPackets => 0x2Eu8,
                SleEventType::TimeSyncStatusUpdate => 0x2Fu8,
                SleEventType::TimeSyncRequest => 0x30u8,
                SleEventType::SyncUcastSetupRequest => 0x31u8,
                SleEventType::SyncUcastSetupComplete => 0x32u8,
                SleEventType::SyncMcastSetupRequest => 0x33u8,
                SleEventType::SyncMcastSetupComplete => 0x34u8,
            }),
    {
        match self {
            SleEventType::ConnStateChanged => 0x01,
            SleEventType::AdvReport => 0x02,
            SleEventType::DataReceived => 0x03,
            SleEventType::SecurityChanged => 0x04,
            SleEventType::PowerChanged => 0x05,
            SleEventType::HardwareError => 0x06,
            SleEventType::CommandComplete => 0x07,
            SleEventType::CommandStatus => 0x08,
            SleEventType::BroadcastEnd => 0x09,
            SleEventType::PhyUpdate => 0x0A,
            SleEventType::ConnParamUpdate => 0x0B,
            SleEventType::DataLenChange => 0x0C,
            SleEventType::DataBufOverflow => 0x0D,
            SleEventType::PeerConnParamReq => 0x0E,
            SleEventType::PowerChangeReport => 0x0F,
            SleEventType::NumCompletedPackets => 0x10,
            SleEventType::EncryptionParamReq => 0x11,
            SleEventType::ControllerSignalData => 0x12,
            SleEventType::ReadPeerFeatures => 0x13,
            SleEventType::ReadPeerVersion => 0x14,
            SleEventType::ReadPeerPower => 0x15,
            SleEventType::InquiryRequestReport => 0x16,
            SleEventType::PairRequest => 0x17,
            SleEventType::PairInfoExchangeReq => 0x18,
            SleEventType::PairInfoReport => 0x19,
            SleEventType::PairOptionReport => 0x1A,
            SleEventType::PeerPublicKeyReport => 0x1B,
            SleEventType::PairExtDataReport => 0x1C,
            SleEventType::KeypressNotification => 0x1D,
            SleEventType::PairRandomReport => 0x1E,
            SleEventType::PairConfirmReport => 0x1F,
            SleEventType::DHKeyCheckReport => 0x20,
            SleEventType::PairFailureReport => 0x21,
            SleEventType::NarrowbandMeasInfo => 0x22,
            SleEventType::NarrowbandMeasStateChange => 0x23,
            SleEventType::NarrowbandMeasParamReport => 0x24,
            SleEventType::LocalNarrowbandMeasCap => 0x25,
            SleEventType::PeerNarrowbandMeasCap => 0x26,
            SleEventType::MeasStateChange => 0x27,
            SleEventType::MeasQuantityReport => 0x28,
            SleEventType::SlbAdvReport => 0x29,
            SleEventType::SlbConnComplete => 0x2A,
            SleEventType::SlbUcastChannelComplete => 0x2B,
            SleEventType::SlbUcastChannelUpdate => 0x2C,
            SleEventType::SlbChannelDelete => 0x2D,
            SleEventType::SlbNumCompletedPackets => 0x2E,
            SleEventType::TimeSyncStatusUpdate => 0x2F,
            SleEventType::TimeSyncRequest => 0x30,
            SleEventType::SyncUcastSetupRequest => 0x31,
            SleEventType::SyncUcastSetupComplete => 0x32,
            SleEventType::SyncMcastSetupRequest => 0x33,
            SleEventType::SyncMcastSetupComplete => 0x34,
        }
    }
}

/// What an event tells.
pub trait EventPayload {
    /// The bytes of the fields, one after the other, numbers lowest byte first.
    spec fn wire(&self) -> Seq<u8>;

    /// The bytes of the fields.
    fn to_bytes(&self) -> (r: Vec<u8>)
        ensures
            r@ == self.wire(),
    ;
}

/// Connection state change event.
#[derive(Clone, Copy)]
pub struct ConnStateEvent {
    /// Connection handle.
    pub handle: u16,
    /// New state (0=Idle/removed, 1=Connecting, 2=Connected, 3=Disconnecting).
    pub new_state: u8,
    /// Previous state.
    pub old_state: u8,
    /// Peer address.
    pub peer_addr: [u8; 6],
    /// Reason code, 0 for none.
    pub reason: u8,
    /// Zero.
    pub pad: u8,
}

impl EventPayload for ConnStateEvent {
    open spec fn wire(&self) -> Seq<u8> {
        bytes::le16_bytes(self.handle) + seq![self.new_state] + seq![self.old_state] + self.peer_addr@ + seq![self.reason] + seq![self.pad]
    }

    fn to_bytes(&self) -> (r: Vec<u8>) {
        let mut v: Vec<u8> = Vec::new();
        bytes::push_le16(&mut v, self.handle);
        v.push(self.new_state);
        v.push(self.old_state);
        bytes::extend(&mut v, &self.peer_addr);
        v.push(self.reason);
        v.push(self.pad);
        assert(v@ =~= self.wire());
        v
    }
}

/// Advertising report event.
#[derive(Clone, Copy)]
pub struct AdvReportEvent {
    /// Advertiser address.
    pub addr: [u8; 6],
    /// RSSI in dBm.
    pub rssi: i8,
    /// Discovery level.
    pub discovery_level: u8,
    /// Device name length.
    pub name_len: u8,
    /// Device name (truncated to 31 bytes).
    pub name: [u8; 31],
}

impl EventPayload for AdvReportEvent {
    open spec fn wire(&self) -> Seq<u8> {
        self.addr@ + seq![bytes::i8_byte(self.rssi)] + seq![self.discovery_level] + seq![self.name_len] + self.name@
    }

    fn to_bytes(&self) -> (r: Vec<u8>) {
        let mut v: Vec<u8> = Vec::new();
        bytes::extend(&mut v, &self.addr);
        v.push(bytes::i8_byte(self.rssi));
        v.push(self.discovery_level);
        v.push(self.name_len);
        bytes::extend(&mut v, &self.name);
        assert(v@ =~= self.wire());
        v
    }
}

/// Data received indication event.
#[derive(Clone, Copy)]
pub struct DataReceivedEvent {
    /// Connection handle.
    pub handle: u16,
    /// Number of bytes available in the RX queue.
    pub rx_bytes: u16,
}

impl EventPayload for DataReceivedEvent {
    open spec fn wire(&self) -> Seq<u8> {
        bytes::le16_bytes(self.handle) + bytes::le16_bytes(self.rx_bytes)
    }

    fn to_bytes(&self) -> (r: Vec<u8>) {
        let mut v: Vec<u8> = Vec::new();
        bytes::push_le16(&mut v, self.handle);
        bytes::push_le16(&mut v, self.rx_bytes);
        assert(v@ =~= self.wire());
        v
    }
}

/// Security state change event.
#[derive(Clone, Copy)]
pub struct SecurityEvent {
    /// New security state.
    pub state: u8,
    /// Pairing method (0=none, 1=JustWorks, 2=PSK).
    pub method: u8,
    /// Whether encryption is active.
    pub encrypted: u8,
    /// Zero.
    pub pad: u8,
}

impl EventPayload for SecurityEvent {
    open spec fn wire(&self) -> Seq<u8> {
        seq![self.state] + seq![self.method] + seq![self.encrypted] + seq![self.pad]
    }

    fn to_bytes(&self) -> (r: Vec<u8>) {
        let mut v: Vec<u8> = Vec::new();
        v.push(self.state);
        v.push(self.method);
        v.push(self.encrypted);
        v.push(self.pad);
        assert(v@ =~= self.wire());
        v
    }
}

/// Power state change event.
#[derive(Clone, Copy)]
pub struct PowerEvent {
    /// New power state (0=Active, 1=Sniff, 2=Idle, 3=Suspended).
    pub state: u8,
    /// Estimated power consumption percentage.
    pub power_pct: u8,
    /// Zero.
    pub pad: [u8; 2],
}

impl EventPayload for PowerEvent {
    open spec fn wire(&self) -> Seq<u8> {
        seq![self.state] + seq![self.power_pct] + self.pad@
    }

    fn to_bytes(&self) -> (r: Vec<u8>) {
        let mut v: Vec<u8> = Vec::new();
        v.push(self.state);
        v.push(self.power_pct);
        bytes::extend(&mut v, &self.pad);
        assert(v@ =~= self.wire());
        v
    }
}

/// Hardware error event.
#[derive(Clone, Copy)]
pub struct HardwareErrorEvent {
    /// Error code.
    pub error_code: u8,
    /// Zero.
    pub pad: [u8; 3],
}

impl EventPayload for HardwareErrorEvent {
    open spec fn wire(&self) -> Seq<u8> {
        seq![self.error_code] + self.pad@
    }

    fn to_bytes(&self) -> (r: Vec<u8>) {
        let mut v: Vec<u8> = Vec::new();
        v.push(self.error_code);
        bytes::extend(&mut v, &self.pad);
        assert(v@ =~= self.wire());
        v
    }
}

/// DLI command completed event.
#[derive(Clone, Copy)]
pub struct CommandCompleteEvent {
    /// Opcode of the completed command.
    pub opcode: u16,
    /// Status code (0 = success).
    pub status: u8,
    /// Return data length.
    pub data_len: u8,
    /// Return data (up to 32 bytes).
    pub data: [u8; 32],
}

impl EventPayload for CommandCompleteEvent {
    open spec fn wire(&self) -> Seq<u8> {
        bytes::le16_bytes(self.opcode) + seq![self.status] + seq![self.data_len] + self.data@
    }

    fn to_bytes(&self) -> (r: Vec<u8>) {
        let mut v: Vec<u8> = Vec::new();
        bytes::push_le16(&mut v, self.opcode);
        v.push(self.status);
        v.push(self.data_len);
        bytes::extend(&mut v, &self.data);
        assert(v@ =~= self.wire());
        v
    }
}

/// DLI command status event (async command accepted/rejected).
#[derive(Clone, Copy)]
pub struct CommandStatusEvent {
    /// Opcode of the command.
    pub opcode: u16,
    /// Status code (0 = pending/accepted).
    pub status: u8,
    /// Zero.
    pub pad: u8,
}

impl EventPayload for CommandStatusEvent {
    open spec fn wire(&self) -> Seq<u8> {
        bytes::le16_bytes(self.opcode) + seq![self.status] + seq![self.pad]
    }

    fn to_bytes(&self) -> (r: Vec<u8>) {
        let mut v: Vec<u8> = Vec::new();
        bytes::push_le16(&mut v, self.opcode);
        v.push(self.status);
        v.push(self.pad);
        assert(v@ =~= self.wire());
        v
    }
}

/// Broadcast terminated event.
#[derive(Clone, Copy)]
pub struct BroadcastEndEvent {
    /// Reason code for termination.
    pub reason: u8,
    /// Zero.
    pub pad: [u8; 3],
}

impl EventPayload for BroadcastEndEvent {
    open spec fn wire(&self) -> Seq<u8> {
        seq![self.reason] + self.pad@
    }

    fn to_bytes(&self) -> (r: Vec<u8>) {
        let mut v: Vec<u8> = Vec::new();
        v.push(self.reason);
        bytes::extend(&mut v, &self.pad);
        assert(v@ =~= self.wire());
        v
    }
}

/// PHY parameters updated event.
#[derive(Clone, Copy)]
pub struct PhyUpdateEvent {
    /// Connection handle (0xFFFF = local).
    pub handle: u16,
    /// New MCS index.
    pub mcs_index: u8,
    /// New bandwidth in MHz.
    pub bandwidth_mhz: u8,
}

impl EventPayload for PhyUpdateEvent {
    open spec fn wire(&self) -> Seq<u8> {
        bytes::le16_bytes(self.handle) + seq![self.mcs_index] + seq![self.bandwidth_mhz]
    }

    fn to_bytes(&self) -> (r: Vec<u8>) {
        let mut v: Vec<u8> = Vec::new();
        bytes::push_le16(&mut v, self.handle);
        v.push(self.mcs_index);
        v.push(self.bandwidth_mhz);
        assert(v@ =~= self.wire());
        v
    }
}

/// Connection parameters updated event.
#[derive(Clone, Copy)]
pub struct ConnParamUpdateEvent {
    /// Connection handle.
    pub handle: u16,
    /// New interval (in 1.25ms units).
    pub interval: u16,
    /// New latency (number of events).
    pub latency: u16,
    /// New supervision timeout (in 10ms units).
    pub timeout: u16,
}

impl EventPayload for ConnParamUpdateEvent {
    open spec fn wire(&self) -> Seq<u8> {
        bytes::le16_bytes(self.handle) + bytes::le16_bytes(self.interval) + bytes::le16_bytes(self.latency) + bytes::le16_bytes(self.timeout)
    }

    fn to_bytes(&self) -> (r: Vec<u8>) {
        let mut v: Vec<u8> = Vec::new();
        bytes::push_le16(&mut v, self.handle);
        bytes::push_le16(&mut v, self.interval);
        bytes::push_le16(&mut v, self.latency);
        bytes::push_le16(&mut v, self.timeout);
        assert(v@ =~= self.wire());
        v
    }
}

/// Data length changed event.
#[derive(Clone, Copy)]
pub struct DataLenChangeEvent {
    /// Connection handle.
    pub handle: u16,
    /// Max TX octets.
    pub max_tx_octets: u16,
    /// Max RX octets.
    pub max_rx_octets: u16,
    /// Zero.
    pub pad: u16,
}

impl EventPayload for DataLenChangeEvent {
    open spec fn wire(&self) -> Seq<u8> {
        bytes::le16_bytes(self.handle) + bytes::le16_bytes(self.max_tx_octets) + bytes::le16_bytes(self.max_rx_octets) + bytes::le16_bytes(self.pad)
    }

    fn to_bytes(&self) -> (r: Vec<u8>) {
        let mut v: Vec<u8> = Vec::new();
        bytes::push_le16(&mut v, self.handle);
        bytes::push_le16(&mut v, self.max_tx_octets);
        bytes::push_le16(&mut v, self.max_rx_octets);
        bytes::push_le16(&mut v, self.pad);
        assert(v@ =~= self.wire());
        v
    }
}

/// Data buffer overflow event.
#[derive(Clone, Copy)]
pub struct DataBufOverflowEvent {
    /// Link type (0=async, 1=sync).
    pub link_type: u8,
    /// Zero.
    pub pad: [u8; 3],
}

impl EventPayload for DataBufOverflowEvent {
    open spec fn wire(&self) -> Seq<u8> {
        seq![self.link_type] + self.pad@
    }

    fn to_bytes(&self) -> (r: Vec<u8>) {
        let mut v: Vec<u8> = Vec::new();
        v.push(self.link_type);
        bytes::extend(&mut v, &self.pad);
        assert(v@ =~= self.wire());
        v
    }
}

/// Peer connection parameter request event.
#[derive(Clone, Copy)]
pub struct PeerConnParamReqEvent {
    /// Connection handle.
    pub handle: u16,
    /// Requested minimum interval.
    pub interval_min: u16,
    /// Requested maximum interval.
    pub interval_max: u16,
    /// Requested latency.
    pub latency: u16,
    /// Requested supervision timeout.
    pub timeout: u16,
    /// Zero.
    pub pad: u16,
}

impl EventPayload for PeerConnParamReqEvent {
    open spec fn wire(&self) -> Seq<u8> {
        bytes::le16_bytes(self.handle) + bytes::le16_bytes(self.interval_min) + bytes::le16_bytes(self.interval_max) + bytes::le16_bytes(self.latency) + bytes::le16_bytes(self.timeout) + bytes::le16_bytes(self.pad)
    }

    fn to_bytes(&self) -> (r: Vec<u8>) {
        let mut v: Vec<u8> = Vec::new();
        bytes::push_le16(&mut v, self.handle);
        bytes::push_le16(&mut v, self.interval_min);
        bytes::push_le16(&mut v, self.interval_max);
        bytes::push_le16(&mut v, self.latency);
        bytes::push_le16(&mut v, self.timeout);
        bytes::push_le16(&mut v, self.pad);
        assert(v@ =~= self.wire());
        v
    }
}

/// TX power change report event.
#[derive(Clone, Copy)]
pub struct PowerChangeReportEvent {
    /// Handle.
    pub handle: u16,
    /// Reason.
    pub reason: u8,
    /// Frame type.
    pub frame_type: u8,
    /// Bandwidth.
    pub bandwidth: u8,
    /// Pilot density.
    pub pilot_density: u8,
    /// Tx power.
    pub tx_power: i8,
    /// Power level.
    pub power_level: u8,
    /// Offset.
    pub offset: i8,
    /// Zero.
    pub pad: u8,
}

impl EventPayload for PowerChangeReportEvent {
    open spec fn wire(&self) -> Seq<u8> {
        bytes::le16_bytes(self.handle) + seq![self.reason] + seq![self.frame_type] + seq![self.bandwidth] + seq![self.pilot_density] + seq![bytes::i8_byte(self.tx_power)] + seq![self.power_level] + seq![bytes::i8_byte(self.offset)] + seq![self.pad]
    }

    fn to_bytes(&self) -> (r: Vec<u8>) {
        let mut v: Vec<u8> = Vec::new();
        bytes::push_le16(&mut v, self.handle);
        v.push(self.reason);
        v.push(self.frame_type);
        v.push(self.bandwidth);
        v.push(self.pilot_density);
        v.push(bytes::i8_byte(self.tx_power));
        v.push(self.power_level);
        v.push(bytes::i8_byte(self.offset));
        v.push(self.pad);
        assert(v@ =~= self.wire());
        v
    }
}

/// Number of completed packets event.
#[derive(Clone, Copy)]
pub struct NumCompletedPacketsEvent {
    /// Handle.
    pub handle: u16,
    /// Num completed.
    pub num_completed: u8,
    /// Zero.
    pub pad: u8,
}

impl EventPayload for NumCompletedPacketsEvent {
    open spec fn wire(&self) -> Seq<u8> {
        bytes::le16_bytes(self.handle) + seq![self.num_completed] + seq![self.pad]
    }

    fn to_bytes(&self) -> (r: Vec<u8>) {
        let mut v: Vec<u8> = Vec::new();
        bytes::push_le16(&mut v, self.handle);
        v.push(self.num_completed);
        v.push(self.pad);
        assert(v@ =~= self.wire());
        v
    }
}

/// Encryption parameter request event.
#[derive(Clone, Copy)]
pub struct EncryptionParamReqEvent {
    /// Handle.
    pub handle: u16,
    /// Zero.
    pub pad: [u8; 2],
}

impl EventPayload for EncryptionParamReqEvent {
    open spec fn wire(&self) -> Seq<u8> {
        bytes::le16_bytes(self.handle) + self.pad@
    }

    fn to_bytes(&self) -> (r: Vec<u8>) {
        let mut v: Vec<u8> = Vec::new();
        bytes::push_le16(&mut v, self.handle);
        bytes::extend(&mut v, &self.pad);
        assert(v@ =~= self.wire());
        v
    }
}

/// Controller signaling data event.
#[derive(Clone, Copy)]
pub struct ControllerSignalDataEvent {
    /// Handle.
    pub handle: u16,
    /// Signal id.
    pub signal_id: u16,
    /// Data len.
    pub data_len: u8,
    /// Zero.
    pub pad: u8,
    /// Data.
    pub data: [u8; 32],
}

impl EventPayload for ControllerSignalDataEvent {
    open spec fn wire(&self) -> Seq<u8> {
        bytes::le16_bytes(self.handle) + bytes::le16_bytes(self.signal_id) + seq![self.data_len] + seq![self.pad] + self.data@
    }

    fn to_bytes(&self) -> (r: Vec<u8>) {
        let mut v: Vec<u8> = Vec::new();
        bytes::push_le16(&mut v, self.handle);
        bytes::push_le16(&mut v, self.signal_id);
        v.push(self.data_len);
        v.push(self.pad);
        bytes::extend(&mut v, &self.data);
        assert(v@ =~= self.wire());
        v
    }
}

/// Read peer features complete event.
#[derive(Clone, Copy)]
pub struct ReadPeerFeaturesEvent {
    /// Handle.
    pub handle: u16,
    /// Status.
    pub status: u8,
    /// Zero.
    pub pad: u8,
    /// Features.
    pub features: [u8; 10],
}

impl EventPayload for ReadPeerFeaturesEvent {
    open spec fn wire(&self) -> Seq<u8> {
        bytes::le16_bytes(self.handle) + seq![self.status] + seq![self.pad] + self.features@
    }

    fn to_bytes(&self) -> (r: Vec<u8>) {
        let mut v: Vec<u8> = Vec::new();
        bytes::push_le16(&mut v, self.handle);
        v.push(self.status);
        v.push(self.pad);
        bytes::extend(&mut v, &self.features);
        assert(v@ =~= self.wire());
        v
    }
}

/// Read peer version complete event.
#[derive(Clone, Copy)]
pub struct ReadPeerVersionEvent {
    /// Handle.
    pub handle: u16,
    /// Manufacturer.
    pub manufacturer: u16,
    /// Subversion.
    pub subversion: u16,
    /// Status.
    pub status: u8,
    /// Version.
    pub version: u8,
}

impl EventPayload for ReadPeerVersionEvent {
    open spec fn wire(&self) -> Seq<u8> {
        bytes::le16_bytes(self.handle) + bytes::le16_bytes(self.manufacturer) + bytes::le16_bytes(self.subversion) + seq![self.status] + seq![self.version]
    }

    fn to_bytes(&self) -> (r: Vec<u8>) {
        let mut v: Vec<u8> = Vec::new();
        bytes::push_le16(&mut v, self.handle);
        bytes::push_le16(&mut v, self.manufacturer);
        bytes::push_le16(&mut v, self.subversion);
        v.push(self.status);
        v.push(self.version);
        assert(v@ =~= self.wire());
        v
    }
}

/// Read peer TX power event.
#[derive(Clone, Copy)]
pub struct ReadPeerPowerEvent {
    /// Handle.
    pub handle: u16,
    /// Status.
    pub status: u8,
    /// Frame type.
    pub frame_type: u8,
    /// Bandwidth.
    pub bandwidth: u8,
    /// Pilot density.
    pub pilot_density: u8,
    /// Tx power.
    pub tx_power: i8,
    /// Power level.
    pub power_level: u8,
}

impl EventPayload for ReadPeerPowerEvent {
    open spec fn wire(&self) -> Seq<u8> {
        bytes::le16_bytes(self.handle) + seq![self.status] + seq![self.frame_type] + seq![self.bandwidth] + seq![self.pilot_density] + seq![bytes::i8_byte(self.tx_power)] + seq![self.power_level]
    }

    fn to_bytes(&self) -> (r: Vec<u8>) {
        let mut v: Vec<u8> = Vec::new();
        bytes::push_le16(&mut v, self.handle);
        v.push(self.status);
        v.push(self.frame_type);
        v.push(self.bandwidth);
        v.push(self.pilot_density);
        v.push(bytes::i8_byte(self.tx_power));
        v.push(self.power_level);
        assert(v@ =~= self.wire());
        v
    }
}

/// Inquiry request report event.
#[derive(Clone, Copy)]
pub struct InquiryRequestReportEvent {
    /// Addr.
    pub addr: [u8; 6],
    /// Addr type.
    pub addr_type: u8,
    /// Adv handle.
    pub adv_handle: u8,
    /// Rssi.
    pub rssi: i8,
    /// Data len.
    pub data_len: u8,
    /// Zero.
    pub pad: [u8; 2],
}

impl EventPayload for InquiryRequestReportEvent {
    open spec fn wire(&self) -> Seq<u8> {
        self.addr@ + seq![self.addr_type] + seq![self.adv_handle] + seq![bytes::i8_byte(self.rssi)] + seq![self.data_len] + self.pad@
    }

    fn to_bytes(&self) -> (r: Vec<u8>) {
        let mut v: Vec<u8> = Vec::new();
        bytes::extend(&mut v, &self.addr);
        v.push(self.addr_type);
        v.push(self.adv_handle);
        v.push(bytes::i8_byte(self.rssi));
        v.push(self.data_len);
        bytes::extend(&mut v, &self.pad);
        assert(v@ =~= self.wire());
        v
    }
}

/// Pairing request event.
#[derive(Clone, Copy)]
pub struct PairRequestEvent {
    /// Handle.
    pub handle: u16,
    /// Auth req.
    pub auth_req: u8,
    /// Zero.
    pub pad: u8,
}

impl EventPayload for PairRequestEvent {
    open spec fn wire(&self) -> Seq<u8> {
        bytes::le16_bytes(self.handle) + seq![self.auth_req] + seq![self.pad]
    }

    fn to_bytes(&self) -> (r: Vec<u8>) {
        let mut v: Vec<u8> = Vec::new();
        bytes::push_le16(&mut v, self.handle);
        v.push(self.auth_req);
        v.push(self.pad);
        assert(v@ =~= self.wire());
        v
    }
}

/// Pairing info exchange / report event.
#[derive(Clone, Copy)]
pub struct PairInfoEvent {
    /// Handle.
    pub handle: u16,
    /// Io cap.
    pub io_cap: u8,
    /// Oob flag.
    pub oob_flag: u8,
    /// Auth req.
    pub auth_req: u8,
    /// Max key len.
    pub max_key_len: u8,
    /// Sec dist.
    pub sec_dist: u8,
    /// Psk ind.
    pub psk_ind: u8,
    /// Crypto cap.
    pub crypto_cap: [u8; 4],
}

impl EventPayload for PairInfoEvent {
    open spec fn wire(&self) -> Seq<u8> {
        bytes::le16_bytes(self.handle) + seq![self.io_cap] + seq![self.oob_flag] + seq![self.auth_req] + seq![self.max_key_len] + seq![self.sec_dist] + seq![self.psk_ind] + self.crypto_cap@
    }

    fn to_bytes(&self) -> (r: Vec<u8>) {
        let mut v: Vec<u8> = Vec::new();
        bytes::push_le16(&mut v, self.handle);
        v.push(self.io_cap);
        v.push(self.oob_flag);
        v.push(self.auth_req);
        v.push(self.max_key_len);
        v.push(self.sec_dist);
        v.push(self.psk_ind);
        bytes::extend(&mut v, &self.crypto_cap);
        assert(v@ =~= self.wire());
        v
    }
}

/// Pairing option report event.
#[derive(Clone, Copy)]
pub struct PairOptionReportEvent {
    /// Handle.
    pub handle: u16,
    /// Key len.
    pub key_len: u8,
    /// Auth method.
    pub auth_method: u8,
    /// Crypto alg.
    pub crypto_alg: [u8; 4],
    /// Public key.
    pub public_key: [u8; 32],
}

impl EventPayload for PairOptionReportEvent {
    open spec fn wire(&self) -> Seq<u8> {
        bytes::le16_bytes(self.handle) + seq![self.key_len] + seq![self.auth_method] + self.crypto_alg@ + self.public_key@
    }

    fn to_bytes(&self) -> (r: Vec<u8>) {
        let mut v: Vec<u8> = Vec::new();
        bytes::push_le16(&mut v, self.handle);
        v.push(self.key_len);
        v.push(self.auth_method);
        bytes::extend(&mut v, &self.crypto_alg);
        bytes::extend(&mut v, &self.public_key);
        assert(v@ =~= self.wire());
        v
    }
}

/// Peer public key report event.
#[derive(Clone, Copy)]
pub struct PeerPublicKeyReportEvent {
    /// Handle.
    pub handle: u16,
    /// Zero.
    pub pad: [u8; 2],
    /// Public key.
    pub public_key: [u8; 32],
}

impl EventPayload for PeerPublicKeyReportEvent {
    open spec fn wire(&self) -> Seq<u8> {
        bytes::le16_bytes(self.handle) + self.pad@ + self.public_key@
    }

    fn to_bytes(&self) -> (r: Vec<u8>) {
        let mut v: Vec<u8> = Vec::new();
        bytes::push_le16(&mut v, self.handle);
        bytes::extend(&mut v, &self.pad);
        bytes::extend(&mut v, &self.public_key);
        assert(v@ =~= self.wire());
        v
    }
}

/// Pairing extended data report event.
#[derive(Clone, Copy)]
pub struct PairExtDataReportEvent {
    /// Handle.
    pub handle: u16,
    /// Zero.
    pub pad: [u8; 2],
    /// Ext key data.
    pub ext_key_data: [u8; 36],
}

impl EventPayload for PairExtDataReportEvent {
    open spec fn wire(&self) -> Seq<u8> {
        bytes::le16_bytes(self.handle) + self.pad@ + self.ext_key_data@
    }

    fn to_bytes(&self) -> (r: Vec<u8>) {
        let mut v: Vec<u8> = Vec::new();
        bytes::push_le16(&mut v, self.handle);
        bytes::extend(&mut v, &self.pad);
        bytes::extend(&mut v, &self.ext_key_data);
        assert(v@ =~= self.wire());
        v
    }
}

/// Keypress notification event.
#[derive(Clone, Copy)]
pub struct KeypressNotificationEvent {
    /// Handle.
    pub handle: u16,
    /// Zero.
    pub pad: [u8; 2],
    /// Action.
    pub action: [u8; 4],
}

impl EventPayload for KeypressNotificationEvent {
    open spec fn wire(&self) -> Seq<u8> {
        bytes::le16_bytes(self.handle) + self.pad@ + self.action@
    }

    fn to_bytes(&self) -> (r: Vec<u8>) {
        let mut v: Vec<u8> = Vec::new();
        bytes::push_le16(&mut v, self.handle);
        bytes::extend(&mut v, &self.pad);
        bytes::extend(&mut v, &self.action);
        assert(v@ =~= self.wire());
        v
    }
}

/// Pairing random number report event.
#[derive(Clone, Copy)]
pub struct PairRandomReportEvent {
    /// Handle.
    pub handle: u16,
    /// Zero.
    pub pad: [u8; 2],
    /// Random.
    pub random: [u8; 16],
}

impl EventPayload for PairRandomReportEvent {
    open spec fn wire(&self) -> Seq<u8> {
        bytes::le16_bytes(self.handle) + self.pad@ + self.random@
    }

    fn to_bytes(&self) -> (r: Vec<u8>) {
        let mut v: Vec<u8> = Vec::new();
        bytes::push_le16(&mut v, self.handle);
        bytes::extend(&mut v, &self.pad);
        bytes::extend(&mut v, &self.random);
        assert(v@ =~= self.wire());
        v
    }
}

/// Pairing confirm code report event.
#[derive(Clone, Copy)]
pub struct PairConfirmReportEvent {
    /// Handle.
    pub handle: u16,
    /// Zero.
    pub pad: [u8; 2],
    /// Confirm.
    pub confirm: [u8; 16],
}

impl EventPayload for PairConfirmReportEvent {
    open spec fn wire(&self) -> Seq<u8> {
        bytes::le16_bytes(self.handle) + self.pad@ + self.confirm@
    }

    fn to_bytes(&self) -> (r: Vec<u8>) {
        let mut v: Vec<u8> = Vec::new();
        bytes::push_le16(&mut v, self.handle);
        bytes::extend(&mut v, &self.pad);
        bytes::extend(&mut v, &self.confirm);
        assert(v@ =~= self.wire());
        v
    }
}

/// DH key check report event.
#[derive(Clone, Copy)]
pub struct DHKeyCheckReportEvent {
    /// Handle.
    pub handle: u16,
    /// Zero.
    pub pad: [u8; 2],
    /// Dhkey check.
    pub dhkey_check: [u8; 16],
}

impl EventPayload for DHKeyCheckReportEvent {
    open spec fn wire(&self) -> Seq<u8> {
        bytes::le16_bytes(self.handle) + self.pad@ + self.dhkey_check@
    }

    fn to_bytes(&self) -> (r: Vec<u8>) {
        let mut v: Vec<u8> = Vec::new();
        bytes::push_le16(&mut v, self.handle);
        bytes::extend(&mut v, &self.pad);
        bytes::extend(&mut v, &self.dhkey_check);
        assert(v@ =~= self.wire());
        v
    }
}

/// Pairing failure report event.
#[derive(Clone, Copy)]
pub struct PairFailureReportEvent {
    /// Handle.
    pub handle: u16,
    /// Reason.
    pub reason: u8,
    /// Zero.
    pub pad: u8,
}

impl EventPayload for PairFailureReportEvent {
    open spec fn wire(&self) -> Seq<u8> {
        bytes::le16_bytes(self.handle) + seq![self.reason] + seq![self.pad]
    }

    fn to_bytes(&self) -> (r: Vec<u8>) {
        let mut v: Vec<u8> = Vec::new();
        bytes::push_le16(&mut v, self.handle);
        v.push(self.reason);
        v.push(self.pad);
        assert(v@ =~= self.wire());
        v
    }
}

/// Narrowband measurement info event.
#[derive(Clone, Copy)]
pub struct NarrowbandMeasInfoEvent {
    /// Handle.
    pub handle: u16,
    /// Meas type.
    pub meas_type: u16,
    /// Status.
    pub status: u8,
    /// Config index.
    pub config_index: u8,
    /// Zero.
    pub pad: [u8; 2],
}

impl EventPayload for NarrowbandMeasInfoEvent {
    open spec fn wire(&self) -> Seq<u8> {
        bytes::le16_bytes(self.handle) + bytes::le16_bytes(self.meas_type) + seq![self.status] + seq![self.config_index] + self.pad@
    }

    fn to_bytes(&self) -> (r: Vec<u8>) {
        let mut v: Vec<u8> = Vec::new();
        bytes::push_le16(&mut v, self.handle);
        bytes::push_le16(&mut v, self.meas_type);
        v.push(self.status);
        v.push(self.config_index);
        bytes::extend(&mut v, &self.pad);
        assert(v@ =~= self.wire());
        v
    }
}

/// Narrowband measurement state change event.
#[derive(Clone, Copy)]
pub struct NarrowbandMeasStateChangeEvent {
    /// Status.
    pub status: u8,
    /// Config index.
    pub config_index: u8,
    /// Meas state.
    pub meas_state: u8,
    /// Zero.
    pub pad: u8,
}

impl EventPayload for NarrowbandMeasStateChangeEvent {
    open spec fn wire(&self) -> Seq<u8> {
        seq![self.status] + seq![self.config_index] + seq![self.meas_state] + seq![self.pad]
    }

    fn to_bytes(&self) -> (r: Vec<u8>) {
        let mut v: Vec<u8> = Vec::new();
        v.push(self.status);
        v.push(self.config_index);
        v.push(self.meas_state);
        v.push(self.pad);
        assert(v@ =~= self.wire());
        v
    }
}

/// Narrowband measurement parameter report event.
#[derive(Clone, Copy)]
pub struct NarrowbandMeasParamReportEvent {
    /// Handle.
    pub handle: u16,
    /// Status.
    pub status: u8,
    /// Config index.
    pub config_index: u8,
}

impl EventPayload for NarrowbandMeasParamReportEvent {
    open spec fn wire(&self) -> Seq<u8> {
        bytes::le16_bytes(self.handle) + seq![self.status] + seq![self.config_index]
    }

    fn to_bytes(&self) -> (r: Vec<u8>) {
        let mut v: Vec<u8> = Vec::new();
        bytes::push_le16(&mut v, self.handle);
        v.push(self.status);
        v.push(self.config_index);
        assert(v@ =~= self.wire());
        v
    }
}

/// Local narrowband measurement capabilities event.
#[derive(Clone, Copy)]
pub struct LocalNarrowbandMeasCapEvent {
    /// Status.
    pub status: u8,
    /// Antenna count.
    pub antenna_count: u8,
    /// Signal cap.
    pub signal_cap: [u8; 4],
    /// Report cap.
    pub report_cap: [u8; 4],
}

impl EventPayload for LocalNarrowbandMeasCapEvent {
    open spec fn wire(&self) -> Seq<u8> {
        seq![self.status] + seq![self.antenna_count] + self.signal_cap@ + self.report_cap@
    }

    fn to_bytes(&self) -> (r: Vec<u8>) {
        let mut v: Vec<u8> = Vec::new();
        v.push(self.status);
        v.push(self.antenna_count);
        bytes::extend(&mut v, &self.signal_cap);
        bytes::extend(&mut v, &self.report_cap);
        assert(v@ =~= self.wire());
        v
    }
}

/// Peer narrowband measurement capabilities event.
#[derive(Clone, Copy)]
pub struct PeerNarrowbandMeasCapEvent {
    /// Handle.
    pub handle: u16,
    /// Status.
    pub status: u8,
    /// Antenna count.
    pub antenna_count: u8,
    /// Signal cap.
    pub signal_cap: [u8; 4],
    /// Report cap.
    pub report_cap: [u8; 4],
}

impl EventPayload for PeerNarrowbandMeasCapEvent {
    open spec fn wire(&self) -> Seq<u8> {
        bytes::le16_bytes(self.handle) + seq![self.status] + seq![self.antenna_count] + self.signal_cap@ + self.report_cap@
    }

    fn to_bytes(&self) -> (r: Vec<u8>) {
        let mut v: Vec<u8> = Vec::new();
        bytes::push_le16(&mut v, self.handle);
        v.push(self.status);
        v.push(self.antenna_count);
        bytes::extend(&mut v, &self.signal_cap);
        bytes::extend(&mut v, &self.report_cap);
        assert(v@ =~= self.wire());
        v
    }
}

/// Measurement state change event.
#[derive(Clone, Copy)]
pub struct MeasStateChangeEvent {
    /// Source.
    pub source: u16,
    /// Status.
    pub status: u8,
    /// Instance handle.
    pub instance_handle: u8,
    /// Instance state.
    pub instance_state: u8,
    /// Zero.
    pub pad: [u8; 3],
}

impl EventPayload for MeasStateChangeEvent {
    open spec fn wire(&self) -> Seq<u8> {
        bytes::le16_bytes(self.source) + seq![self.status] + seq![self.instance_handle] + seq![self.instance_state] + self.pad@
    }

    fn to_bytes(&self) -> (r: Vec<u8>) {
        let mut v: Vec<u8> = Vec::new();
        bytes::push_le16(&mut v, self.source);
        v.push(self.status);
        v.push(self.instance_handle);
        v.push(self.instance_state);
        bytes::extend(&mut v, &self.pad);
        assert(v@ =~= self.wire());
        v
    }
}

/// Measurement quantity report event.
#[derive(Clone, Copy)]
pub struct MeasQuantityReportEvent {
    /// Source.
    pub source: u16,
    /// Meas source.
    pub meas_source: u16,
    /// Seq.
    pub seq: u16,
    /// Instance handle.
    pub instance_handle: u8,
    /// Meas count.
    pub meas_count: u8,
}

impl EventPayload for MeasQuantityReportEvent {
    open spec fn wire(&self) -> Seq<u8> {
        bytes::le16_bytes(self.source) + bytes::le16_bytes(self.meas_source) + bytes::le16_bytes(self.seq) + seq![self.instance_handle] + seq![self.meas_count]
    }

    fn to_bytes(&self) -> (r: Vec<u8>) {
        let mut v: Vec<u8> = Vec::new();
        bytes::push_le16(&mut v, self.source);
        bytes::push_le16(&mut v, self.meas_source);
        bytes::push_le16(&mut v, self.seq);
        v.push(self.instance_handle);
        v.push(self.meas_count);
        assert(v@ =~= self.wire());
        v
    }
}

/// SLB advertising report event.
#[derive(Clone, Copy)]
pub struct SlbAdvReportEvent {
    /// Mac addr.
    pub mac_addr: [u8; 6],
    /// Channel.
    pub channel: u16,
    /// Bandwidth.
    pub bandwidth: u8,
    /// Rssi.
    pub rssi: i8,
    /// Data len.
    pub data_len: u8,
    /// Zero.
    pub pad: u8,
}

impl EventPayload for SlbAdvReportEvent {
    open spec fn wire(&self) -> Seq<u8> {
        self.mac_addr@ + bytes::le16_bytes(self.channel) + seq![self.bandwidth] + seq![bytes::i8_byte(self.rssi)] + seq![self.data_len] + seq![self.pad]
    }

    fn to_bytes(&self) -> (r: Vec<u8>) {
        let mut v: Vec<u8> = Vec::new();
        bytes::extend(&mut v, &self.mac_addr);
        bytes::push_le16(&mut v, self.channel);
        v.push(self.bandwidth);
        v.push(bytes::i8_byte(self.rssi));
        v.push(self.data_len);
        v.push(self.pad);
        assert(v@ =~= self.wire());
        v
    }
}

/// SLB connection complete event.
#[derive(Clone, Copy)]
pub struct SlbConnCompleteEvent {
    /// Handle.
    pub handle: u16,
    /// Status.
    pub status: u8,
    /// Zero.
    pub pad: u8,
    /// Peer addr.
    pub peer_addr: [u8; 6],
    /// Zero.
    pub pad2: [u8; 2],
}

impl EventPayload for SlbConnCompleteEvent {
    open spec fn wire(&self) -> Seq<u8> {
        bytes::le16_bytes(self.handle) + seq![self.status] + seq![self.pad] + self.peer_addr@ + self.pad2@
    }

    fn to_bytes(&self) -> (r: Vec<u8>) {
        let mut v: Vec<u8> = Vec::new();
        bytes::push_le16(&mut v, self.handle);
        v.push(self.status);
        v.push(self.pad);
        bytes::extend(&mut v, &self.peer_addr);
        bytes::extend(&mut v, &self.pad2);
        assert(v@ =~= self.wire());
        v
    }
}

/// SLB unicast channel complete event.
#[derive(Clone, Copy)]
pub struct SlbUcastChannelCompleteEvent {
    /// Channel handle.
    pub channel_handle: u16,
    /// Conn handle.
    pub conn_handle: u16,
    /// Max pkt len.
    pub max_pkt_len: u16,
    /// Max pkt count.
    pub max_pkt_count: u16,
    /// Status.
    pub status: u8,
    /// Zero.
    pub pad: u8,
}

impl EventPayload for SlbUcastChannelCompleteEvent {
    open spec fn wire(&self) -> Seq<u8> {
        bytes::le16_bytes(self.channel_handle) + bytes::le16_bytes(self.conn_handle) + bytes::le16_bytes(self.max_pkt_len) + bytes::le16_bytes(self.max_pkt_count) + seq![self.status] + seq![self.pad]
    }

    fn to_bytes(&self) -> (r: Vec<u8>) {
        let mut v: Vec<u8> = Vec::new();
        bytes::push_le16(&mut v, self.channel_handle);
        bytes::push_le16(&mut v, self.conn_handle);
        bytes::push_le16(&mut v, self.max_pkt_len);
        bytes::push_le16(&mut v, self.max_pkt_count);
        v.push(self.status);
        v.push(self.pad);
        assert(v@ =~= self.wire());
        v
    }
}

/// SLB unicast channel update event.
#[derive(Clone, Copy)]
pub struct SlbUcastChannelUpdateEvent {
    /// Channel handle.
    pub channel_handle: u16,
    /// Max pkt len.
    pub max_pkt_len: u16,
    /// Max pkt count.
    pub max_pkt_count: u16,
    /// Status.
    pub status: u8,
    /// Zero.
    pub pad: u8,
}

impl EventPayload for SlbUcastChannelUpdateEvent {
    open spec fn wire(&self) -> Seq<u8> {
        bytes::le16_bytes(self.channel_handle) + bytes::le16_bytes(self.max_pkt_len) + bytes::le16_bytes(self.max_pkt_count) + seq![self.status] + seq![self.pad]
    }

    fn to_bytes(&self) -> (r: Vec<u8>) {
        let mut v: Vec<u8> = Vec::new();
        bytes::push_le16(&mut v, self.channel_handle);
        bytes::push_le16(&mut v, self.max_pkt_len);
        bytes::push_le16(&mut v, self.max_pkt_count);
        v.push(self.status);
        v.push(self.pad);
        assert(v@ =~= self.wire());
        v
    }
}

/// SLB channel delete event.
#[derive(Clone, Copy)]
pub struct SlbChannelDeleteEvent {
    /// Channel handle.
    pub channel_handle: u16,
    /// Status.
    pub status: u8,
    /// Zero.
    pub pad: u8,
}

impl EventPayload for SlbChannelDeleteEvent {
    open spec fn wire(&self) -> Seq<u8> {
        bytes::le16_bytes(self.channel_handle) + seq![self.status] + seq![self.pad]
    }

    fn to_bytes(&self) -> (r: Vec<u8>) {
        let mut v: Vec<u8> = Vec::new();
        bytes::push_le16(&mut v, self.channel_handle);
        v.push(self.status);
        v.push(self.pad);
        assert(v@ =~= self.wire());
        v
    }
}

/// SLB completed packets event.
#[derive(Clone, Copy)]
pub struct SlbNumCompletedPacketsEvent {
    /// Channel handle.
    pub channel_handle: u16,
    /// Num completed.
    pub num_completed: u8,
    /// Zero.
    pub pad: u8,
}

impl EventPayload for SlbNumCompletedPacketsEvent {
    open spec fn wire(&self) -> Seq<u8> {
        bytes::le16_bytes(self.channel_handle) + seq![self.num_completed] + seq![self.pad]
    }

    fn to_bytes(&self) -> (r: Vec<u8>) {
        let mut v: Vec<u8> = Vec::new();
        bytes::push_le16(&mut v, self.channel_handle);
        v.push(self.num_completed);
        v.push(self.pad);
        assert(v@ =~= self.wire());
        v
    }
}

/// Time sync status update event.
#[derive(Clone, Copy)]
pub struct TimeSyncStatusUpdateEvent {
    /// Accuracy.
    pub accuracy: u32,
    /// Sync status.
    pub sync_status: u8,
    /// Clock source.
    pub clock_source: u8,
    /// Zero.
    pub pad: [u8; 2],
}

impl EventPayload for TimeSyncStatusUpdateEvent {
    open spec fn wire(&self) -> Seq<u8> {
        bytes::le32_bytes(self.accuracy) + seq![self.sync_status] + seq![self.clock_source] + self.pad@
    }

    fn to_bytes(&self) -> (r: Vec<u8>) {
        let mut v: Vec<u8> = Vec::new();
        bytes::push_le32(&mut v, self.accuracy);
        v.push(self.sync_status);
        v.push(self.clock_source);
        bytes::extend(&mut v, &self.pad);
        assert(v@ =~= self.wire());
        v
    }
}

/// Time sync request event.
#[derive(Clone, Copy)]
pub struct TimeSyncRequestEvent {
    /// Time seq.
    pub time_seq: u32,
    /// Send time.
    pub send_time: [u8; 8],
}

impl EventPayload for TimeSyncRequestEvent {
    open spec fn wire(&self) -> Seq<u8> {
        bytes::le32_bytes(self.time_seq) + self.send_time@
    }

    fn to_bytes(&self) -> (r: Vec<u8>) {
        let mut v: Vec<u8> = Vec::new();
        bytes::push_le32(&mut v, self.time_seq);
        bytes::extend(&mut v, &self.send_time);
        assert(v@ =~= self.wire());
        v
    }
}

/// Sync unicast setup request event.
#[derive(Clone, Copy)]
pub struct SyncUcastSetupRequestEvent {
    /// Async handle.
    pub async_handle: u16,
    /// Sync handle.
    pub sync_handle: u16,
    /// Event group set id.
    pub event_group_set_id: u8,
    /// Event group id.
    pub event_group_id: u8,
    /// Zero.
    pub pad: [u8; 2],
}

impl EventPayload for SyncUcastSetupRequestEvent {
    open spec fn wire(&self) -> Seq<u8> {
        bytes::le16_bytes(self.async_handle) + bytes::le16_bytes(self.sync_handle) + seq![self.event_group_set_id] + seq![self.event_group_id] + self.pad@
    }

    fn to_bytes(&self) -> (r: Vec<u8>) {
        let mut v: Vec<u8> = Vec::new();
        bytes::push_le16(&mut v, self.async_handle);
        bytes::push_le16(&mut v, self.sync_handle);
        v.push(self.event_group_set_id);
        v.push(self.event_group_id);
        bytes::extend(&mut v, &self.pad);
        assert(v@ =~= self.wire());
        v
    }
}

/// Sync unicast setup complete event.
#[derive(Clone, Copy)]
pub struct SyncUcastSetupCompleteEvent {
    /// Async handle.
    pub async_handle: u16,
    /// Sync handle.
    pub sync_handle: u16,
    /// Status.
    pub status: u8,
    /// Zero.
    pub pad: [u8; 3],
}

impl EventPayload for SyncUcastSetupCompleteEvent {
    open spec fn wire(&self) -> Seq<u8> {
        bytes::le16_bytes(self.async_handle) + bytes::le16_bytes(self.sync_handle) + seq![self.status] + self.pad@
    }

    fn to_bytes(&self) -> (r: Vec<u8>) {
        let mut v: Vec<u8> = Vec::new();
        bytes::push_le16(&mut v, self.async_handle);
        bytes::push_le16(&mut v, self.sync_handle);
        v.push(self.status);
        bytes::extend(&mut v, &self.pad);
        assert(v@ =~= self.wire());
        v
    }
}

/// Sync multicast setup request event.
#[derive(Clone, Copy)]
pub struct SyncMcastSetupRequestEvent {
    /// Async handle.
    pub async_handle: u16,
    /// Sync handle.
    pub sync_handle: u16,
}

impl EventPayload for SyncMcastSetupRequestEvent {
    open spec fn wire(&self) -> Seq<u8> {
        bytes::le16_bytes(self.async_handle) + bytes::le16_bytes(self.sync_handle)
    }

    fn to_bytes(&self) -> (r: Vec<u8>) {
        let mut v: Vec<u8> = Vec::new();
        bytes::push_le16(&mut v, self.async_handle);
        bytes::push_le16(&mut v, self.sync_handle);
        assert(v@ =~= self.wire());
        v
    }
}

/// Sync multicast setup complete event.
#[derive(Clone, Copy)]
pub struct SyncMcastSetupCompleteEvent {
    /// Async handle.
    pub async_handle: u16,
    /// Sync handle.
    pub sync_handle: u16,
    /// Status.
    pub status: u8,
    /// Zero.
    pub pad: [u8; 3],
}

impl EventPayload for SyncMcastSetupCompleteEvent {
    open spec fn wire(&self) -> Seq<u8> {
        bytes::le16_bytes(self.async_handle) + bytes::le16_bytes(self.sync_handle) + seq![self.status] + self.pad@
    }

    fn to_bytes(&self) -> (r: Vec<u8>) {
        let mut v: Vec<u8> = Vec::new();
        bytes::push_le16(&mut v, self.async_handle);
        bytes::push_le16(&mut v, self.sync_handle);
        v.push(self.status);
        bytes::extend(&mut v, &self.pad);
        assert(v@ =~= self.wire());
        v
    }
}

} // verus!
