//! Requests of programs on the control device, and what they carry.

use vstd::prelude::*;

use crate::bytes;
use crate::errno::Errno;
use crate::sle_dli_event::SleDliEvent;
use crate::sle_phy;

verus! {

/// Longest name.
pub const ADV_NAME_MAX: usize = 32;

/// Longest advertising data.
pub const ADV_DATA_MAX: usize = 252;

/// Longest input of the hash.
pub const HASH_INPUT_MAX: usize = 220;

/// Longest key of the keyed hash.
pub const HMAC_KEY_MAX: usize = 64;

/// Longest input of the keyed hash.
pub const HMAC_DATA_MAX: usize = 160;

/// Longest data of a service request.
pub const SSAP_DATA_MAX: usize = 252;

/// Longest value of a property.
pub const SSAP_VALUE_MAX: usize = 248;

/// Longest parameters of a controller command.
pub const DLI_PARAM_MAX: usize = 240;

/// Most services of a scan filter.
pub const SCAN_FILTER_MAX_UUIDS: usize = 4;

/// Letter of the requests.
pub const SL_MAGIC: u32 = 0x53;

/// Register a new SCI device (for testing).
pub const SL_IOCTL_DEV_REGISTER: u32 = 0x0000_5301;

/// Unregister a SCI device by index.
pub const SL_IOCTL_DEV_UNREGISTER: u32 = 0x4002_5302;

/// Get the number of registered SCI devices.
pub const SL_IOCTL_DEV_COUNT: u32 = 0x8004_5303;

/// Get device info by index.
pub const SL_IOCTL_DEV_INFO: u32 = 0x8042_5304;

/// Switch the active controller device by index (u16).
pub const SL_IOCTL_DEV_SWITCH: u32 = 0x4002_5305;

/// List all registered device IDs (returns bitmask u16).
pub const SL_IOCTL_DEV_LIST: u32 = 0x8002_5306;

/// Select per-fd device affinity (i16: -1 = follow global, >= 0 = bind to device).
pub const SL_IOCTL_DEV_SELECT: u32 = 0x4002_5307;

/// Query the effective device for this fd (returns u16).
pub const SL_IOCTL_DEV_GET_ACTIVE: u32 = 0x8002_5308;

/// Start SLE advertising (device discovery - discoverable side).
pub const SL_IOCTL_START_ADV: u32 = 0x4010_5310;

/// Stop SLE advertising.
pub const SL_IOCTL_STOP_ADV: u32 = 0x0000_5311;

/// Start SLE scanning (device discovery - scanner side).
pub const SL_IOCTL_START_SCAN: u32 = 0x4010_5312;

/// Stop SLE scanning.
pub const SL_IOCTL_STOP_SCAN: u32 = 0x0000_5313;

/// Configure an extended advertising set.
pub const SL_IOCTL_EXT_ADV_CONFIGURE: u32 = 0x4010_5314;

/// Set data for an extended advertising set.
pub const SL_IOCTL_EXT_ADV_SET_DATA: u32 = 0x4100_5315;

/// Enable an extended advertising set.
pub const SL_IOCTL_EXT_ADV_ENABLE: u32 = 0x4001_5316;

/// Disable an extended advertising set.
pub const SL_IOCTL_EXT_ADV_DISABLE: u32 = 0x4001_5317;

/// Remove an extended advertising set.
pub const SL_IOCTL_EXT_ADV_REMOVE: u32 = 0x4001_5318;

/// Get info about an extended advertising set.
pub const SL_IOCTL_EXT_ADV_INFO: u32 = 0xC018_5319;

/// Enable with periodic parameters (duration + max events).
pub const SL_IOCTL_EXT_ADV_ENABLE_EX: u32 = 0x4008_531A;

/// Simulate one 10ms advertising tick for active sets.
pub const SL_IOCTL_EXT_ADV_TICK: u32 = 0x0000_531B;

/// Inject a simulated advertising PDU for loopback testing.
pub const SL_IOCTL_INJECT_ADV: u32 = 0x4030_5320;

/// Get the current scan result count.
pub const SL_IOCTL_SCAN_RESULT_COUNT: u32 = 0x0000_5321;

/// Inject a raw advertising PDU (header + data + CRC-12) for CRC verification testing.
pub const SL_IOCTL_INJECT_RAW_ADV: u32 = 0x410C_5322;

/// Set extended scan filter.
pub const SL_IOCTL_SET_SCAN_FILTER: u32 = 0x400C_5323;

/// Clear extended scan filter (accept all matching discovery level).
pub const SL_IOCTL_CLEAR_SCAN_FILTER: u32 = 0x0000_5324;

/// Initiate an SLE connection to a peer device.
pub const SL_IOCTL_CONNECT: u32 = 0x4010_5330;

/// Disconnect from a peer by connection handle.
pub const SL_IOCTL_DISCONNECT: u32 = 0x4002_5331;

/// Get connection status and statistics by handle.
pub const SL_IOCTL_CONN_INFO: u32 = 0xC040_5332;

/// Send data on a connection identified by handle.
pub const SL_IOCTL_CONN_SEND: u32 = 0x4104_5333;

/// Receive data from a connection identified by handle.
pub const SL_IOCTL_CONN_RECV: u32 = 0xC104_5334;

/// Inject a simulated access response for loopback testing.
pub const SL_IOCTL_INJECT_CONN_RESP: u32 = 0x400C_5335;

/// Inject simulated received data for loopback testing.
pub const SL_IOCTL_INJECT_CONN_DATA: u32 = 0x4104_5336;

/// Get number of active connections.
pub const SL_IOCTL_CONN_COUNT: u32 = 0x0000_5337;

/// Get list of active connection handles.
pub const SL_IOCTL_CONN_LIST: u32 = 0x8018_5338;

/// Set per-connection data channel MTU and MPS.
pub const SL_IOCTL_SET_CONN_MTU: u32 = 0x4008_5339;

/// Set the channel map for a connection.
pub const SL_IOCTL_AFH_SET_MAP: u32 = 0x4010_533A;

/// Get the channel map for a connection.
pub const SL_IOCTL_AFH_GET_MAP: u32 = 0xC010_533B;

/// Report RSSI measurement for a channel on a connection.
pub const SL_IOCTL_AFH_REPORT_RSSI: u32 = 0x4004_533C;

/// Classify channels based on RSSI measurements and update the map.
pub const SL_IOCTL_AFH_CLASSIFY: u32 = 0xC010_533D;

/// Get the next hop channel for a connection.
pub const SL_IOCTL_AFH_HOP_NEXT: u32 = 0xC008_533E;

/// Report a per-channel retransmission event.
pub const SL_IOCTL_AFH_REPORT_RETX: u32 = 0x4004_533F;

/// Set the pre-shared key for PSK pairing.
pub const SL_IOCTL_SEC_SET_PSK: u32 = 0x4010_5340;

/// Start pairing (method specified in parameters).
pub const SL_IOCTL_SEC_PAIR: u32 = 0x4004_5341;

/// Get security status and key fingerprint.
pub const SL_IOCTL_SEC_INFO: u32 = 0x8010_5342;

/// Enable encryption on the data path (requires Paired state).
pub const SL_IOCTL_SEC_ENCRYPT_ON: u32 = 0x0000_5343;

/// SM3 hash test: compute SM3(data) and return digest.
pub const SL_IOCTL_SEC_SM3_TEST: u32 = 0x4100_5344;

/// SM4 encrypt test: encrypt data in-place using session key.
pub const SL_IOCTL_SEC_SM4_ENC_TEST: u32 = 0x4104_5345;

/// SM4 decrypt test: decrypt data in-place using session key.
pub const SL_IOCTL_SEC_SM4_DEC_TEST: u32 = 0x4104_5346;

/// SM4 standalone block test: encrypt or decrypt one 16-byte block with explicit key.
pub const SL_IOCTL_SEC_SM4_BLOCK_TEST: u32 = 0xC040_5347;

/// HMAC-SM3 test: compute HMAC-SM3(key, data) and return digest.
pub const SL_IOCTL_SEC_HMAC_TEST: u32 = 0xC104_5348;

/// Reset security state to Idle (e.g.
pub const SL_IOCTL_SEC_RESET: u32 = 0x0000_5349;

/// Get 6-digit passkey for numeric comparison pairing.
pub const SL_IOCTL_SEC_GET_PASSKEY: u32 = 0x8004_534A;

/// Confirm numeric comparison passkey match - completes pairing.
pub const SL_IOCTL_SEC_CONFIRM_PASSKEY: u32 = 0x0000_534B;

/// Reject numeric comparison passkey - returns to Idle.
pub const SL_IOCTL_SEC_REJECT_PASSKEY: u32 = 0x0000_534C;

/// Set OOB data (remote public key X+Y, 64 bytes) for OOB pairing.
pub const SL_IOCTL_SEC_SET_OOB: u32 = 0x4040_534D;

/// Input 6-digit passkey for passkey entry pairing.
pub const SL_IOCTL_SEC_INPUT_PASSKEY: u32 = 0x4004_534E;

/// Set password (1..32 bytes) for password-based pairing.
pub const SL_IOCTL_SEC_SET_PASSWORD: u32 = 0x4024_534F;

/// Register the built-in device info service.
pub const SL_IOCTL_SSAP_REGISTER_SVC: u32 = 0x0000_5350;

/// Get SSAP service/property count summary.
pub const SL_IOCTL_SSAP_INFO: u32 = 0x8010_5351;

/// Read a property by handle.
pub const SL_IOCTL_SSAP_READ: u32 = 0xC100_5352;

/// Write a property by handle.
pub const SL_IOCTL_SSAP_WRITE: u32 = 0x4100_5353;

/// Find primary services.
pub const SL_IOCTL_SSAP_FIND_SVC: u32 = 0x807C_5354;

/// Send a notification for a property handle.
pub const SL_IOCTL_SSAP_NOTIFY: u32 = 0x4002_5355;

/// Dequeue one pending notification.
pub const SL_IOCTL_SSAP_DEQUEUE_NTF: u32 = 0x8100_5356;

/// Register a dynamic SSAP service from userspace.
pub const SL_IOCTL_SSAP_ADD_SVC: u32 = 0xC01C_5357;

/// Add a property to the last registered service.
pub const SL_IOCTL_SSAP_ADD_PROP: u32 = 0xC100_5358;

/// Remove a service by its start handle.
pub const SL_IOCTL_SSAP_REMOVE_SVC: u32 = 0x4002_5359;

/// Initiate SSAP ExchangeInfo (MTU negotiation) with connected peer.
pub const SL_IOCTL_SSAP_EXCHANGE_INFO: u32 = 0x4004_535A;

/// Discover remote services via FindStructure.
pub const SL_IOCTL_SSAP_REMOTE_DISCOVER: u32 = 0xC008_535B;

/// Read a remote property by handle.
pub const SL_IOCTL_SSAP_REMOTE_READ: u32 = 0xC100_535C;

/// Write a remote property by handle.
pub const SL_IOCTL_SSAP_REMOTE_WRITE: u32 = 0x4100_535D;

/// Dequeue one inbound remote notification/indication.
pub const SL_IOCTL_SSAP_REMOTE_EVENT: u32 = 0x8100_535E;

/// Invoke a method on a remote peer's SSAP service.
pub const SL_IOCTL_SSAP_CALL_METHOD: u32 = 0xC100_535F;

/// Find service/property by UUID on a remote peer.
pub const SL_IOCTL_SSAP_FIND_BY_UUID: u32 = 0xC100_536F;

/// Read a property by UUID on a remote peer.
pub const SL_IOCTL_SSAP_READ_BY_UUID: u32 = 0xC100_5372;

/// Get power management status.
pub const SL_IOCTL_PM_INFO: u32 = 0x8030_5360;

/// Set power state (Active/Sniff/Suspend/Resume).
pub const SL_IOCTL_PM_SET_STATE: u32 = 0x4004_5361;

/// Update connection interval parameters.
pub const SL_IOCTL_PM_SET_INTERVAL: u32 = 0x4008_5362;

/// Set force-active mode.
pub const SL_IOCTL_PM_FORCE_ACTIVE: u32 = 0x4001_5363;

/// Simulate a connection event tick (for testing).
pub const SL_IOCTL_PM_TICK: u32 = 0x0000_5364;

/// Record a data activity event.
pub const SL_IOCTL_PM_ACTIVITY: u32 = 0x0000_5365;

/// Configure sync unicast CIG group parameters.
pub const SL_IOCTL_SYNC_UCAST_PARAM: u32 = 0xC028_5366;

/// Create (activate) sync unicast links within a CIG.
pub const SL_IOCTL_SYNC_UCAST_CREATE: u32 = 0x4014_5367;

/// Remove a sync unicast CIG group.
pub const SL_IOCTL_SYNC_UCAST_REMOVE: u32 = 0x4001_5368;

/// Configure sync multicast BIG group parameters.
pub const SL_IOCTL_SYNC_MCAST_PARAM: u32 = 0xC028_5369;

/// Create (activate) sync multicast links within a BIG.
pub const SL_IOCTL_SYNC_MCAST_CREATE: u32 = 0x4014_536A;

/// Remove a sync multicast BIG group.
pub const SL_IOCTL_SYNC_MCAST_REMOVE: u32 = 0x4001_536B;

/// Configure data path for a sync link (codec).
pub const SL_IOCTL_SYNC_DATAPATH_CFG: u32 = 0x4008_536C;

/// Remove data path for a sync link.
pub const SL_IOCTL_SYNC_DATAPATH_REMOVE: u32 = 0x4002_536D;

/// Get sync link information.
pub const SL_IOCTL_SYNC_INFO: u32 = 0xC018_536E;

/// Accept a sync unicast setup request.
pub const SL_IOCTL_SYNC_UCAST_ACCEPT: u32 = 0x4002_5373;

/// Reject a sync unicast setup request.
pub const SL_IOCTL_SYNC_UCAST_REJECT: u32 = 0x4004_5374;

/// Accept a sync multicast setup request.
pub const SL_IOCTL_SYNC_MCAST_ACCEPT: u32 = 0x4002_5375;

/// Reject a sync multicast setup request.
pub const SL_IOCTL_SYNC_MCAST_REJECT: u32 = 0x4004_5376;

/// Send isochronous data on a sync link.
pub const SL_IOCTL_SYNC_DATA_SEND: u32 = 0x4100_5377;

/// Get number of pending events in the event queue.
pub const SL_IOCTL_EVENT_COUNT: u32 = 0x0000_5370;

/// Get event queue lifetime statistics.
pub const SL_IOCTL_EVENT_STATS: u32 = 0x8020_5371;

/// Get DLI controller information.
pub const SL_IOCTL_DLI_INFO: u32 = 0x8040_5380;

/// Get USB SLE device count (hardware discovery).
pub const SL_IOCTL_USB_DEV_COUNT: u32 = 0x0000_5381;

/// Poll a DLI event from the controller.
pub const SL_IOCTL_DLI_POLL_EVENT: u32 = 0x8100_5382;

/// Reset the DLI controller.
pub const SL_IOCTL_DLI_RESET: u32 = 0x0000_5383;

/// Send a DLI command to the controller (management plane).
pub const SL_IOCTL_DLI_SEND_CMD: u32 = 0xC0F8_5384;

/// Get management plane pending queue statistics.
pub const SL_IOCTL_MGMT_STATS: u32 = 0x8010_5385;

/// Get unified subsystem statistics (admin observability).
pub const SL_IOCTL_SUBSYS_STATS: u32 = 0x8024_5386;

/// Get PHY layer configuration.
pub const SL_IOCTL_PHY_INFO: u32 = 0x8018_5390;

/// Set MCS index.
pub const SL_IOCTL_PHY_SET_MCS: u32 = 0x4004_5391;

/// Set TX power.
pub const SL_IOCTL_PHY_SET_TXPOWER: u32 = 0x4004_5392;

/// Select best MCS for given requirements.
pub const SL_IOCTL_PHY_MCS_SELECT: u32 = 0xC00C_5393;

/// Get frequency hopping next channel.
pub const SL_IOCTL_PHY_HOP_NEXT: u32 = 0x8008_5394;

/// Set bandwidth.
pub const SL_IOCTL_PHY_SET_BW: u32 = 0x4004_5395;

/// Get SINR thresholds (dB x10, 13 entries for MCS 0-12).
pub const SL_IOCTL_PHY_GET_SINR: u32 = 0x801C_5396;

/// Set SINR thresholds (dB x10, 13 entries for MCS 0-12).
pub const SL_IOCTL_PHY_SET_SINR: u32 = 0x401C_5397;

/// Trigger or query peer feature exchange for a connection.
pub const SL_IOCTL_CONN_READ_PEER_FEATURES: u32 = 0xC016_5398;

/// Trigger or query peer version exchange for a connection.
pub const SL_IOCTL_CONN_READ_PEER_VERSION: u32 = 0xC016_5399;

/// Request connection parameter update for a specific handle.
pub const SL_IOCTL_CONN_UPDATE_PARAMS: u32 = 0x400C_539A;

/// Request PHY parameter update (MCS / bandwidth) for a connection.
pub const SL_IOCTL_CONN_PHY_UPDATE: u32 = 0x4004_539B;

/// Set local GT node role (0=TNode, 1=GNode).
pub const SL_IOCTL_SET_ROLE: u32 = 0x4001_53A0;

/// Get current local GT node role.
pub const SL_IOCTL_GET_ROLE: u32 = 0x8001_53A1;

/// Add a device to the Resolving Address List.
pub const SL_IOCTL_RAL_ADD: u32 = 0x402C_53B0;

/// Remove a device from the RAL by peer identity.
pub const SL_IOCTL_RAL_REMOVE: u32 = 0x4008_53B1;

/// Clear all RAL entries.
pub const SL_IOCTL_RAL_CLEAR: u32 = 0x0000_53B2;

/// Read current RAL entry count.
pub const SL_IOCTL_RAL_SIZE: u32 = 0x8001_53B3;

/// Read peer RPA for a given identity.
pub const SL_IOCTL_RAL_READ_PEER_RPA: u32 = 0xC010_53B4;

/// Read local RPA for a given identity.
pub const SL_IOCTL_RAL_READ_LOCAL_RPA: u32 = 0xC010_53B5;

/// Enable or disable RPA resolution.
pub const SL_IOCTL_RPA_ENABLE: u32 = 0x4001_53B6;

/// Set RPA timeout in seconds.
pub const SL_IOCTL_RPA_SET_TIMEOUT: u32 = 0x4002_53B7;

/// Read local measurement capabilities (DLI opcode 0x2001).
pub const SL_IOCTL_MEAS_READ_CAP: u32 = 0x8004_53C0;

/// Set measurement link parameters (DLI opcode 0x2003).
pub const SL_IOCTL_MEAS_SET_LINK_PARAM: u32 = 0x4008_53C1;

/// Start or stop a measurement action (DLI opcode 0x2005).
pub const SL_IOCTL_MEAS_ACTION: u32 = 0x4004_53C2;

/// Enable or disable measurement reporting (DLI opcode 0x200B).
pub const SL_IOCTL_MEAS_ENABLE: u32 = 0x4001_53C3;

/// The number of a request: 1 in the top bits where the program hands something over, 2
/// where it gets something back, then the size of that, the letter and the number in
/// the low byte.
#[verifier::allow_in_spec]
pub fn request_code(takes: bool, gives: bool, size: u16, nr: u8) -> u32
    returns
        ((if takes {
            0x4000_0000int
        } else {
            0
        }) + (if gives {
            0x8000_0000int
        } else {
            0
        }) + 0x1_0000 * (size % 0x4000) + 0x5300 + nr) as u32,
{
    let t: u32 = if takes {
        0x4000_0000
    } else {
        0
    };
    let g: u32 = if gives {
        0x8000_0000
    } else {
        0
    };
    t + g + 0x1_0000 * ((size % 0x4000) as u32) + 0x100 * SL_MAGIC + nr as u32
}

/// Whether all bytes are zero.
pub open spec fn all_zero(s: Seq<u8>) -> bool {
    forall|i: int| 0 <= i < s.len() ==> #[trigger] s[i] == 0
}

/// Values that can be zero all over.
pub trait IsZeroPad {
    /// Whether the value is zero all over.
    spec fn zero(&self) -> bool;

    /// Whether the value is zero all over.
    fn is_zero(&self) -> (r: bool)
        ensures
            r == self.zero(),
    ;
}

impl IsZeroPad for u8 {
    open spec fn zero(&self) -> bool {
        *self == 0
    }

    fn is_zero(&self) -> (r: bool) {
        *self == 0
    }
}

impl IsZeroPad for u16 {
    open spec fn zero(&self) -> bool {
        *self == 0
    }

    fn is_zero(&self) -> (r: bool) {
        *self == 0
    }
}

impl IsZeroPad for u32 {
    open spec fn zero(&self) -> bool {
        *self == 0
    }

    fn is_zero(&self) -> (r: bool) {
        *self == 0
    }
}

impl<const N: usize> IsZeroPad for [u8; N] {
    open spec fn zero(&self) -> bool {
        all_zero(self@)
    }

    fn is_zero(&self) -> (r: bool) {
        let mut i: usize = 0;
        while i < N
            invariant
                i <= N,
                forall|j: int| 0 <= j < i ==> #[trigger] self@[j] == 0,
            decreases N - i,
        {
            if self[i] != 0 {
                return false;
            }
            i = i + 1;
        }
        true
    }
}

/// What a program hands over. Fields without a meaning yet have to be zero, so that they
/// can get one later.
pub trait CheckReserved {
    /// Whether the fields without a meaning are zero.
    spec fn clean(&self) -> bool;

    /// Returns `EINVAL` where a field without a meaning is not zero.
    fn check_reserved(&self) -> (r: Result<(), Errno>)
        ensures
            r == (if self.clean() {
                Ok::<(), Errno>(())
            } else {
                Err(Errno::EINVAL)
            }),
    ;
}

impl CheckReserved for u8 {
    open spec fn clean(&self) -> bool {
        true
    }

    fn check_reserved(&self) -> (r: Result<(), Errno>) {
        Ok(())
    }
}

impl CheckReserved for u16 {
    open spec fn clean(&self) -> bool {
        true
    }

    fn check_reserved(&self) -> (r: Result<(), Errno>) {
        Ok(())
    }
}

impl CheckReserved for i16 {
    open spec fn clean(&self) -> bool {
        true
    }

    fn check_reserved(&self) -> (r: Result<(), Errno>) {
        Ok(())
    }
}

/// What a device is doing.
#[derive(Clone, Copy, Debug, PartialEq, Eq, Structural)]
pub enum SciState {
    /// Nothing.
    Idle,
    /// It can be found.
    Advertising,
    /// It looks for others.
    Scanning,
    /// It has a connection.
    Connected,
}

impl SciState {
    /// Code of the state.
    #[verifier::allow_in_spec]
    pub fn code(self) -> u8
        returns
            (match self {
                SciState::Idle => 0u8,
                SciState::Advertising => 1u8,
                SciState::Scanning => 2u8,
                SciState::Connected => 3u8,
            }),
    {
        match self {
            SciState::Idle => 0,
            SciState::Advertising => 1,
            SciState::Scanning => 2,
            SciState::Connected => 3,
        }
    }
}

/// Who can find a device.
#[derive(Clone, Copy, Debug, PartialEq, Eq, Structural)]
pub enum DiscoveryLevel {
    /// Nobody.
    Invisible,
    /// Everybody.
    General,
    /// Everybody, and soon.
    Priority,
    /// Paired devices.
    PairedOnly,
    /// One device.
    Designated,
}

impl DiscoveryLevel {
    /// Code of the level.
    #[verifier::allow_in_spec]
    pub fn code(self) -> u8
        returns
            (match self {
                DiscoveryLevel::Invisible => 0u8,
                DiscoveryLevel::General => 1u8,
                DiscoveryLevel::Priority => 2u8,
                DiscoveryLevel::PairedOnly => 3u8,
                DiscoveryLevel::Designated => 4u8,
            }),
    {
        match self {
            DiscoveryLevel::Invisible => 0,
            DiscoveryLevel::General => 1,
            DiscoveryLevel::Priority => 2,
            DiscoveryLevel::PairedOnly => 3,
            DiscoveryLevel::Designated => 4,
        }
    }
}

/// How a device is attached.
#[derive(Clone, Copy, Debug, PartialEq, Eq, Structural)]
pub enum SciBus {
    /// Not at all.
    Detached,
    /// By a serial line.
    Uart,
    /// By SPI.
    Spi,
    /// By SDIO.
    Sdio,
    /// By USB.
    Usb,
    /// By memory.
    Mmio,
}

impl SciBus {
    /// Code of the bus.
    #[verifier::allow_in_spec]
    pub fn code(self) -> u8
        returns
            (match self {
                SciBus::Detached => 0u8,
                SciBus::Uart => 1u8,
                SciBus::Spi => 2u8,
                SciBus::Sdio => 3u8,
                SciBus::Usb => 4u8,
                SciBus::Mmio => 5u8,
            }),
    {
        match self {
            SciBus::Detached => 0,
            SciBus::Uart => 1,
            SciBus::Spi => 2,
            SciBus::Sdio => 3,
            SciBus::Usb => 4,
            SciBus::Mmio => 5,
        }
    }
}

/// SLE media access layer identifier, 6 bytes.
#[derive(Clone, Copy)]
pub struct SleAddr {
    /// Raw 6-byte SLE address.
    pub b: [u8; 6],
}

impl Default for SleAddr {
    fn default() -> (r: Self)
        ensures
            r.b@ == bytes::zeros(6),
    {
        SleAddr {
            b: [0u8; 6],
        }
    }
}

/// Device information returned to userspace.
#[derive(Clone, Copy)]
pub struct SciDevInfo {
    /// SCI device index.
    pub index: u16,
    /// Operating state (see `SciState`).
    pub state: u8,
    /// Transport bus type (see `SciBus`).
    pub bus: u8,
    /// SLE address.
    pub addr: SleAddr,
    /// Device name (UTF-8, null-padded).
    pub name: [u8; 32],
    /// Without a meaning yet.
    pub reserved: [u8; 24],
}

impl Default for SciDevInfo {
    fn default() -> (r: Self)
        ensures
            r.index == 0,
            r.state == 0,
            r.bus == 0,
            r.addr.b@ == bytes::zeros(6),
            r.name@ == bytes::zeros(32),
            r.reserved@ == bytes::zeros(24),
    {
        SciDevInfo {
            index: 0,
            state: 0,
            bus: 0,
            addr: SleAddr::default(),
            name: [0u8; 32],
            reserved: [0u8; 24],
        }
    }
}

impl CheckReserved for SciDevInfo {
    open spec fn clean(&self) -> bool {
        &&& self.reserved.zero()
    }

    fn check_reserved(&self) -> (r: Result<(), Errno>) {
        if !self.reserved.is_zero() {
            return Err(Errno::EINVAL);
        }
        Ok(())
    }
}

/// SLE advertising parameters.
#[derive(Clone, Copy)]
pub struct SleAdvParams {
    /// Target SCI device index.
    pub dev_index: u16,
    /// Advertising interval in milliseconds.
    pub interval_ms: u16,
    /// Discovery level (see `DiscoveryLevel`).
    pub discovery_level: u8,
    /// Without a meaning yet.
    pub reserved: [u8; 11],
}

impl Default for SleAdvParams {
    fn default() -> (r: Self)
        ensures
            r.dev_index == 0,
            r.interval_ms == 0,
            r.discovery_level == 0,
            r.reserved@ == bytes::zeros(11),
    {
        SleAdvParams {
            dev_index: 0,
            interval_ms: 0,
            discovery_level: 0,
            reserved: [0u8; 11],
        }
    }
}

impl CheckReserved for SleAdvParams {
    open spec fn clean(&self) -> bool {
        &&& self.reserved.zero()
    }

    fn check_reserved(&self) -> (r: Result<(), Errno>) {
        if !self.reserved.is_zero() {
            return Err(Errno::EINVAL);
        }
        Ok(())
    }
}

/// SLE scanning parameters.
#[derive(Clone, Copy)]
pub struct SleScanParams {
    /// Target SCI device index.
    pub dev_index: u16,
    /// Scan window in milliseconds.
    pub window_ms: u16,
    /// Scan interval in milliseconds.
    pub interval_ms: u16,
    /// Minimum discovery level to accept.
    pub filter_discovery_level: u8,
    /// Without a meaning yet.
    pub reserved: [u8; 9],
}

impl Default for SleScanParams {
    fn default() -> (r: Self)
        ensures
            r.dev_index == 0,
            r.window_ms == 0,
            r.interval_ms == 0,
            r.filter_discovery_level == 0,
            r.reserved@ == bytes::zeros(9),
    {
        SleScanParams {
            dev_index: 0,
            window_ms: 0,
            interval_ms: 0,
            filter_discovery_level: 0,
            reserved: [0u8; 9],
        }
    }
}

impl CheckReserved for SleScanParams {
    open spec fn clean(&self) -> bool {
        &&& self.reserved.zero()
    }

    fn check_reserved(&self) -> (r: Result<(), Errno>) {
        if !self.reserved.is_zero() {
            return Err(Errno::EINVAL);
        }
        Ok(())
    }
}

/// Extended advertising set configuration.
#[derive(Clone, Copy)]
pub struct SleExtAdvConfig {
    /// Set handle (0..3).
    pub handle: u8,
    /// Discovery level (0-4).
    pub discovery_level: u8,
    /// Advertising SID (0-15).
    pub sid: u8,
    /// Broadcast type (0-3).
    pub broadcast_type: u8,
    /// Primary PHY (0=1M, 1=2M, 2=Coded).
    pub primary_phy: u8,
    /// Secondary PHY (0=1M, 1=2M, 2=Coded).
    pub secondary_phy: u8,
    /// TX power in dBm.
    pub tx_power_dbm: i8,
    /// Include TX power in extended header.
    pub include_tx_power: u8,
    /// Advertising interval in milliseconds.
    pub interval_ms: u16,
    /// Extended advertising send timing. 0x00 = send before next base adv, 0x01..0xFF = max
    /// base advs to skip.
    pub ext_adv_timing: u8,
    /// Without a meaning yet.
    pub reserved: [u8; 5],
}

impl Default for SleExtAdvConfig {
    fn default() -> (r: Self)
        ensures
            r.handle == 0,
            r.discovery_level == 0,
            r.sid == 0,
            r.broadcast_type == 0,
            r.primary_phy == 0,
            r.secondary_phy == 0,
            r.tx_power_dbm == 0,
            r.include_tx_power == 0,
            r.interval_ms == 0,
            r.ext_adv_timing == 0,
            r.reserved@ == bytes::zeros(5),
    {
        SleExtAdvConfig {
            handle: 0,
            discovery_level: 0,
            sid: 0,
            broadcast_type: 0,
            primary_phy: 0,
            secondary_phy: 0,
            tx_power_dbm: 0,
            include_tx_power: 0,
            interval_ms: 0,
            ext_adv_timing: 0,
            reserved: [0u8; 5],
        }
    }
}

impl CheckReserved for SleExtAdvConfig {
    open spec fn clean(&self) -> bool {
        &&& self.reserved.zero()
    }

    fn check_reserved(&self) -> (r: Result<(), Errno>) {
        if !self.reserved.is_zero() {
            return Err(Errno::EINVAL);
        }
        Ok(())
    }
}

/// Extended advertising data payload.
#[derive(Clone, Copy)]
pub struct SleExtAdvData {
    /// Set handle (0..3).
    pub handle: u8,
    /// Without a meaning yet.
    pub pad: u8,
    /// Length of data in bytes.
    pub data_len: u16,
    /// Raw advertising data.
    pub data: [u8; 252],
}

impl Default for SleExtAdvData {
    fn default() -> (r: Self)
        ensures
            r.handle == 0,
            r.pad == 0,
            r.data_len == 0,
            r.data@ == bytes::zeros(252),
    {
        SleExtAdvData {
            handle: 0,
            pad: 0,
            data_len: 0,
            data: [0u8; 252],
        }
    }
}

impl CheckReserved for SleExtAdvData {
    open spec fn clean(&self) -> bool {
        &&& self.pad.zero()
    }

    fn check_reserved(&self) -> (r: Result<(), Errno>) {
        if !self.pad.is_zero() {
            return Err(Errno::EINVAL);
        }
        Ok(())
    }
}

/// Extended advertising set info (output).
#[derive(Clone, Copy)]
pub struct SleExtAdvInfo {
    /// Set handle (input).
    pub handle: u8,
    /// State: 0=Idle, 1=Configured, 2=Active.
    pub state: u8,
    /// Advertising SID.
    pub sid: u8,
    /// Primary PHY.
    pub primary_phy: u8,
    /// Data length.
    pub data_len: u16,
    /// Extended advertising send timing.
    pub ext_adv_timing: u8,
    /// Max advertising events (0 = unlimited).
    pub max_adv_events: u8,
    /// PDUs sent.
    pub tx_count: u64,
    /// Events sent since last enable.
    pub events_sent: u32,
    /// Without a meaning yet.
    pub pad: [u8; 4],
}

impl Default for SleExtAdvInfo {
    fn default() -> (r: Self)
        ensures
            r.handle == 0,
            r.state == 0,
            r.sid == 0,
            r.primary_phy == 0,
            r.data_len == 0,
            r.ext_adv_timing == 0,
            r.max_adv_events == 0,
            r.tx_count == 0,
            r.events_sent == 0,
            r.pad@ == bytes::zeros(4),
    {
        SleExtAdvInfo {
            handle: 0,
            state: 0,
            sid: 0,
            primary_phy: 0,
            data_len: 0,
            ext_adv_timing: 0,
            max_adv_events: 0,
            tx_count: 0,
            events_sent: 0,
            pad: [0u8; 4],
        }
    }
}

impl CheckReserved for SleExtAdvInfo {
    open spec fn clean(&self) -> bool {
        &&& self.pad.zero()
    }

    fn check_reserved(&self) -> (r: Result<(), Errno>) {
        if !self.pad.is_zero() {
            return Err(Errno::EINVAL);
        }
        Ok(())
    }
}

/// Extended advertising enable with periodic parameters.
#[derive(Clone, Copy)]
pub struct SleExtAdvEnableParams {
    /// Set handle (0..3).
    pub handle: u8,
    /// Max advertising events (0 = unlimited).
    pub max_adv_events: u8,
    /// Duration in 10ms units (0 = infinite).
    pub duration_10ms: u16,
    /// Without a meaning yet.
    pub reserved: [u8; 4],
}

impl Default for SleExtAdvEnableParams {
    fn default() -> (r: Self)
        ensures
            r.handle == 0,
            r.max_adv_events == 0,
            r.duration_10ms == 0,
            r.reserved@ == bytes::zeros(4),
    {
        SleExtAdvEnableParams {
            handle: 0,
            max_adv_events: 0,
            duration_10ms: 0,
            reserved: [0u8; 4],
        }
    }
}

impl CheckReserved for SleExtAdvEnableParams {
    open spec fn clean(&self) -> bool {
        &&& self.reserved.zero()
    }

    fn check_reserved(&self) -> (r: Result<(), Errno>) {
        if !self.reserved.is_zero() {
            return Err(Errno::EINVAL);
        }
        Ok(())
    }
}

/// Injected advertising data for loopback testing.
#[derive(Clone, Copy)]
pub struct SleInjectAdv {
    /// Simulated source SLE address.
    pub addr: [u8; 6],
    /// Simulated RSSI.
    pub rssi: i8,
    /// Discovery level to include in the advertising data.
    pub discovery_level: u8,
    /// Device name (UTF-8, null-terminated).
    pub name: [u8; 32],
    /// Name length.
    pub name_len: u8,
    /// Without a meaning yet.
    pub reserved: [u8; 7],
}

impl Default for SleInjectAdv {
    fn default() -> (r: Self)
        ensures
            r.addr@ == bytes::zeros(6),
            r.rssi == -50,
            r.discovery_level == 1,
            r.name@ == bytes::zeros(32),
            r.name_len == 0,
            r.reserved@ == bytes::zeros(7),
    {
        SleInjectAdv {
            addr: [0u8; 6],
            rssi: -50,
            discovery_level: 1,
            name: [0u8; 32],
            name_len: 0,
            reserved: [0u8; 7],
        }
    }
}

impl CheckReserved for SleInjectAdv {
    open spec fn clean(&self) -> bool {
        &&& self.reserved.zero()
    }

    fn check_reserved(&self) -> (r: Result<(), Errno>) {
        if !self.reserved.is_zero() {
            return Err(Errno::EINVAL);
        }
        Ok(())
    }
}

/// Raw advertising PDU for CRC-12 verification testing.
#[derive(Clone, Copy)]
pub struct SleInjectRawAdv {
    /// RSSI to associate with this PDU.
    pub rssi: i8,
    /// Without a meaning yet.
    pub pad: u8,
    /// Number of valid bytes in `pdu_data` (header + data + CRC).
    pub pdu_len: u16,
    /// Raw PDU bytes.
    pub pdu_data: [u8; 264],
}

impl Default for SleInjectRawAdv {
    fn default() -> (r: Self)
        ensures
            r.rssi == -50,
            r.pad == 0,
            r.pdu_len == 0,
            r.pdu_data@ == bytes::zeros(264),
    {
        SleInjectRawAdv {
            rssi: -50,
            pad: 0,
            pdu_len: 0,
            pdu_data: [0u8; 264],
        }
    }
}

impl CheckReserved for SleInjectRawAdv {
    open spec fn clean(&self) -> bool {
        &&& self.pad.zero()
    }

    fn check_reserved(&self) -> (r: Result<(), Errno>) {
        if !self.pad.is_zero() {
            return Err(Errno::EINVAL);
        }
        Ok(())
    }
}

/// Connection request parameters from userspace.
#[derive(Clone, Copy)]
pub struct SleConnectParams {
    /// Target peer SLE address (6 bytes).
    pub peer_addr: [u8; 6],
    /// Desired GT role: 0=T node, 1=G node.
    pub gt_role: u8,
    /// Preferred bandwidth in MHz (1, 2, or 4).
    pub bandwidth: u8,
    /// Preferred MCS index (0-12).
    pub mcs_index: u8,
    /// Without a meaning yet.
    pub pad: u8,
    /// Supervision timeout in 10 ms units.
    pub timeout_10ms: u16,
    /// Without a meaning yet.
    pub reserved: [u8; 4],
}

impl Default for SleConnectParams {
    fn default() -> (r: Self)
        ensures
            r.peer_addr@ == bytes::zeros(6),
            r.gt_role == 0,
            r.bandwidth == 1,
            r.mcs_index == 4,
            r.pad == 0,
            r.timeout_10ms == 100,
            r.reserved@ == bytes::zeros(4),
    {
        SleConnectParams {
            peer_addr: [0u8; 6],
            gt_role: 0,
            bandwidth: 1,
            mcs_index: 4,
            pad: 0,
            timeout_10ms: 100,
            reserved: [0u8; 4],
        }
    }
}

impl CheckReserved for SleConnectParams {
    open spec fn clean(&self) -> bool {
        &&& self.pad.zero()
        &&& self.reserved.zero()
    }

    fn check_reserved(&self) -> (r: Result<(), Errno>) {
        if !self.pad.is_zero() {
            return Err(Errno::EINVAL);
        }
        if !self.reserved.is_zero() {
            return Err(Errno::EINVAL);
        }
        Ok(())
    }
}

/// Connection status and statistics returned to userspace.
#[derive(Clone, Copy)]
pub struct SleConnInfo {
    /// Total bytes transmitted.
    pub tx_bytes: u64,
    /// Total bytes received.
    pub rx_bytes: u64,
    /// Connection handle.
    pub handle: u16,
    /// Event group period in scheduling slots.
    pub event_group_period: u16,
    /// Supervision timeout in 10 ms units.
    pub supervision_timeout: u16,
    /// Pending TX queue depth.
    pub tx_pending: u16,
    /// Pending RX queue depth.
    pub rx_pending: u16,
    /// Connection state (see ConnState).
    pub state: u8,
    /// Peer SLE address.
    pub peer_addr: [u8; 6],
    /// Local GT role: 0=T, 1=G.
    pub local_role: u8,
    /// Negotiated bandwidth in MHz.
    pub bandwidth_mhz: u8,
    /// Negotiated MCS index.
    pub mcs_index: u8,
    /// Current TX sequence number.
    pub tx_seq: u8,
    /// Current RX sequence number.
    pub rx_seq: u8,
    /// Data channel MTU.
    pub data_mtu: u16,
    /// Data channel MPS.
    pub data_mps: u16,
    /// Service management channel MTU.
    pub svc_mtu: u16,
    /// Data channel transport mode (0=unreliable, 1=reliable).
    pub data_mode: u8,
    /// SSAP ExchangeInfo completed flag (1=yes, 0=no).
    pub ssap_info_exchanged: u8,
    /// SSAP session negotiated MTU (0 if no session bound).
    pub ssap_mtu: u16,
    /// SSAP reliable mode negotiated (1=yes, 0=no).
    pub ssap_reliable_mode: u8,
    /// SSAP negotiated protocol major version.
    pub ssap_version_major: u8,
    /// SMTC TX credits remaining (Reliable channel).
    pub smtc_tx_credits: u16,
    /// SMTC RX credits remaining (Reliable channel).
    pub smtc_rx_credits: u16,
    /// DUDTC TX credits remaining (0 if Unreliable).
    pub dudtc_tx_credits: u16,
    /// DUDTC RX credits remaining (0 if Unreliable).
    pub dudtc_rx_credits: u16,
}

impl CheckReserved for SleConnInfo {
    open spec fn clean(&self) -> bool {
        true
    }

    fn check_reserved(&self) -> (r: Result<(), Errno>) {
        Ok(())
    }
}

/// Data buffer for connection send/receive ioctls.
#[derive(Clone, Copy)]
pub struct SleConnData {
    /// Connection handle (0 = first active connection).
    pub handle: u16,
    /// Data payload length in bytes.
    pub length: u16,
    /// Data payload.
    pub data: [u8; 255],
    /// Without a meaning yet.
    pub reserved: u8,
}

impl Default for SleConnData {
    fn default() -> (r: Self)
        ensures
            r.handle == 0,
            r.length == 0,
            r.data@ == bytes::zeros(255),
            r.reserved == 0,
    {
        SleConnData {
            handle: 0,
            length: 0,
            data: [0u8; 255],
            reserved: 0,
        }
    }
}

impl CheckReserved for SleConnData {
    open spec fn clean(&self) -> bool {
        &&& self.reserved.zero()
    }

    fn check_reserved(&self) -> (r: Result<(), Errno>) {
        if !self.reserved.is_zero() {
            return Err(Errno::EINVAL);
        }
        Ok(())
    }
}

/// Injected connection response for loopback testing.
#[derive(Clone, Copy)]
pub struct SleInjectConnResp {
    /// Connection handle to inject response for.
    pub handle: u16,
    /// Response type (0=accepted, 1=role fail, 2=resource, 3=rejected).
    pub response_type: u8,
    /// Bandwidth in MHz for the accepted connection.
    pub bandwidth_mhz: u8,
    /// MCS index for the accepted connection.
    pub mcs_index: u8,
    /// Without a meaning yet.
    pub pad: u8,
    /// Supervision timeout in 10 ms units.
    pub supervision_timeout: u16,
    /// Data channel MTU (0 = use default 247).
    pub data_mtu: u16,
    /// Data channel MPS (0 = use MTU value).
    pub data_mps: u16,
}

impl Default for SleInjectConnResp {
    fn default() -> (r: Self)
        ensures
            r.handle == 0,
            r.response_type == 0,
            r.bandwidth_mhz == 1,
            r.mcs_index == 4,
            r.pad == 0,
            r.supervision_timeout == 100,
            r.data_mtu == 0,
            r.data_mps == 0,
    {
        SleInjectConnResp {
            handle: 0,
            response_type: 0,
            bandwidth_mhz: 1,
            mcs_index: 4,
            pad: 0,
            supervision_timeout: 100,
            data_mtu: 0,
            data_mps: 0,
        }
    }
}

impl CheckReserved for SleInjectConnResp {
    open spec fn clean(&self) -> bool {
        &&& self.pad.zero()
    }

    fn check_reserved(&self) -> (r: Result<(), Errno>) {
        if !self.pad.is_zero() {
            return Err(Errno::EINVAL);
        }
        Ok(())
    }
}

/// List of active connection handles returned from CONN_LIST.
#[derive(Clone, Copy)]
pub struct SleConnList {
    /// Number of active handles in the list.
    pub count: u16,
    /// Without a meaning yet.
    pub pad: u16,
    /// Up to 8 active connection handles.
    pub handles: [u16; 8],
    /// Without a meaning yet.
    pub reserved: [u8; 4],
}

impl CheckReserved for SleConnList {
    open spec fn clean(&self) -> bool {
        &&& self.pad.zero()
        &&& self.reserved.zero()
    }

    fn check_reserved(&self) -> (r: Result<(), Errno>) {
        if !self.pad.is_zero() {
            return Err(Errno::EINVAL);
        }
        if !self.reserved.is_zero() {
            return Err(Errno::EINVAL);
        }
        Ok(())
    }
}

/// Per-connection MTU/MPS update parameters.
#[derive(Clone, Copy)]
pub struct SleConnMtuParams {
    /// Connection handle.
    pub handle: u16,
    /// New data channel MTU (23..=max_pdu_size).
    pub mtu: u16,
    /// New data channel MPS (0 = keep current, clamped to MTU).
    pub mps: u16,
    /// Without a meaning yet.
    pub pad: u16,
}

impl Default for SleConnMtuParams {
    fn default() -> (r: Self)
        ensures
            r.handle == 0,
            r.mtu == 0,
            r.mps == 0,
            r.pad == 0,
    {
        SleConnMtuParams {
            handle: 0,
            mtu: 0,
            mps: 0,
            pad: 0,
        }
    }
}

impl CheckReserved for SleConnMtuParams {
    open spec fn clean(&self) -> bool {
        &&& self.pad.zero()
    }

    fn check_reserved(&self) -> (r: Result<(), Errno>) {
        if !self.pad.is_zero() {
            return Err(Errno::EINVAL);
        }
        Ok(())
    }
}

/// Channel map set/get parameters for a connection.
#[derive(Clone, Copy)]
pub struct SleAfhMapParams {
    /// Connection handle.
    pub handle: u16,
    /// Minimum number of usable channels (at least 2).
    pub min_channels: u8,
    /// Without a meaning yet.
    pub pad: u8,
    /// 10-byte channel map bitmask (bit N = channel N usable).
    pub map: [u8; 10],
    /// Number of usable channels (output on GET).
    pub used_count: u8,
    /// Without a meaning yet.
    pub pad2: u8,
}

impl Default for SleAfhMapParams {
    fn default() -> (r: Self)
        ensures
            r.handle == 0,
            r.min_channels == 0,
            r.pad == 0,
            r.map@ == bytes::zeros(10),
            r.used_count == 0,
            r.pad2 == 0,
    {
        SleAfhMapParams {
            handle: 0,
            min_channels: 0,
            pad: 0,
            map: [0u8; 10],
            used_count: 0,
            pad2: 0,
        }
    }
}

impl CheckReserved for SleAfhMapParams {
    open spec fn clean(&self) -> bool {
        &&& self.pad.zero()
        &&& self.pad2.zero()
    }

    fn check_reserved(&self) -> (r: Result<(), Errno>) {
        if !self.pad.is_zero() {
            return Err(Errno::EINVAL);
        }
        if !self.pad2.is_zero() {
            return Err(Errno::EINVAL);
        }
        Ok(())
    }
}

/// RSSI measurement report for AFH classification.
#[derive(Clone, Copy)]
pub struct SleAfhRssiReport {
    /// Connection handle.
    pub handle: u16,
    /// Channel index (0-78).
    pub channel: u8,
    /// RSSI in dBm (signed).
    pub rssi_dbm: i8,
}

impl Default for SleAfhRssiReport {
    fn default() -> (r: Self)
        ensures
            r.handle == 0,
            r.channel == 0,
            r.rssi_dbm == 0,
    {
        SleAfhRssiReport {
            handle: 0,
            channel: 0,
            rssi_dbm: 0,
        }
    }
}

impl CheckReserved for SleAfhRssiReport {
    open spec fn clean(&self) -> bool {
        true
    }

    fn check_reserved(&self) -> (r: Result<(), Errno>) {
        Ok(())
    }
}

/// AFH auto-classification parameters and result.
#[derive(Clone, Copy)]
pub struct SleAfhClassifyParams {
    /// Connection handle.
    pub handle: u16,
    /// RSSI threshold in dBm - channels below this are classified bad.
    pub threshold_dbm: i8,
    /// Minimum channels to keep usable (at least 2).
    pub min_channels: u8,
    /// Output: resulting channel map after classification.
    pub map_out: [u8; 10],
    /// Output: number of usable channels.
    pub used_count: u8,
    /// Without a meaning yet.
    pub pad: u8,
}

impl Default for SleAfhClassifyParams {
    fn default() -> (r: Self)
        ensures
            r.handle == 0,
            r.threshold_dbm == 0,
            r.min_channels == 0,
            r.map_out@ == bytes::zeros(10),
            r.used_count == 0,
            r.pad == 0,
    {
        SleAfhClassifyParams {
            handle: 0,
            threshold_dbm: 0,
            min_channels: 0,
            map_out: [0u8; 10],
            used_count: 0,
            pad: 0,
        }
    }
}

impl CheckReserved for SleAfhClassifyParams {
    open spec fn clean(&self) -> bool {
        &&& self.pad.zero()
    }

    fn check_reserved(&self) -> (r: Result<(), Errno>) {
        if !self.pad.is_zero() {
            return Err(Errno::EINVAL);
        }
        Ok(())
    }
}

/// Per-connection hop info (next channel + frequency + event counter).
#[derive(Clone, Copy)]
pub struct SleAfhHopInfo {
    /// Connection handle (input).
    pub handle: u16,
    /// Channel index (0-78, output).
    pub channel: u8,
    /// Without a meaning yet.
    pub pad: u8,
    /// RF frequency in MHz (output).
    pub freq_mhz: u16,
    /// Event counter after hop (output).
    pub event_counter: u16,
}

impl Default for SleAfhHopInfo {
    fn default() -> (r: Self)
        ensures
            r.handle == 0,
            r.channel == 0,
            r.pad == 0,
            r.freq_mhz == 0,
            r.event_counter == 0,
    {
        SleAfhHopInfo {
            handle: 0,
            channel: 0,
            pad: 0,
            freq_mhz: 0,
            event_counter: 0,
        }
    }
}

impl CheckReserved for SleAfhHopInfo {
    open spec fn clean(&self) -> bool {
        &&& self.pad.zero()
    }

    fn check_reserved(&self) -> (r: Result<(), Errno>) {
        if !self.pad.is_zero() {
            return Err(Errno::EINVAL);
        }
        Ok(())
    }
}

/// AFH retransmission report for dynamic channel classification.
#[derive(Clone, Copy)]
pub struct SleAfhRetxReport {
    /// Connection handle.
    pub handle: u16,
    /// Channel index (0-78).
    pub channel: u8,
    /// 1 = retransmission occurred, 0 = first-time success.
    pub retransmitted: u8,
}

impl Default for SleAfhRetxReport {
    fn default() -> (r: Self)
        ensures
            r.handle == 0,
            r.channel == 0,
            r.retransmitted == 0,
    {
        SleAfhRetxReport {
            handle: 0,
            channel: 0,
            retransmitted: 0,
        }
    }
}

impl CheckReserved for SleAfhRetxReport {
    open spec fn clean(&self) -> bool {
        true
    }

    fn check_reserved(&self) -> (r: Result<(), Errno>) {
        Ok(())
    }
}

/// Configuration parameters for a sync unicast CIG group.
#[derive(Clone, Copy)]
pub struct SleSyncCigConfig {
    /// CIG identifier (0x00-0xEF).
    pub cig_id: u8,
    /// Number of sync links to create (1-8).
    pub link_count: u8,
    /// Adaptation mode: 0=periodic, 1=aperiodic.
    pub adapt_mode: u8,
    /// Without a meaning yet.
    pub pad: u8,
    /// GtoT SDU interval in microseconds.
    pub sdu_interval_g2t: u32,
    /// TtoG SDU interval in microseconds.
    pub sdu_interval_t2g: u32,
    /// Max SDU payload GtoT (bytes).
    pub max_sdu_g2t: u16,
    /// Max SDU payload TtoG (bytes).
    pub max_sdu_t2g: u16,
    /// Max transport delay GtoT (ms).
    pub max_latency_g2t: u16,
    /// Max transport delay TtoG (ms).
    pub max_latency_t2g: u16,
    /// PDU retransmit count GtoT.
    pub retransmit_g2t: u8,
    /// PDU retransmit count TtoG.
    pub retransmit_t2g: u8,
    /// Output: allocated sync link handles.
    pub handles_out: [u16; 8],
}

impl Default for SleSyncCigConfig {
    fn default() -> (r: Self)
        ensures
            r.cig_id == 0,
            r.link_count == 0,
            r.adapt_mode == 0,
            r.pad == 0,
            r.sdu_interval_g2t == 0,
            r.sdu_interval_t2g == 0,
            r.max_sdu_g2t == 0,
            r.max_sdu_t2g == 0,
            r.max_latency_g2t == 0,
            r.max_latency_t2g == 0,
            r.retransmit_g2t == 0,
            r.retransmit_t2g == 0,
            r.handles_out@ == Seq::new(8, |i: int| 0u16),
    {
        SleSyncCigConfig {
            cig_id: 0,
            link_count: 0,
            adapt_mode: 0,
            pad: 0,
            sdu_interval_g2t: 0,
            sdu_interval_t2g: 0,
            max_sdu_g2t: 0,
            max_sdu_t2g: 0,
            max_latency_g2t: 0,
            max_latency_t2g: 0,
            retransmit_g2t: 0,
            retransmit_t2g: 0,
            handles_out: [0u16; 8],
        }
    }
}

impl CheckReserved for SleSyncCigConfig {
    open spec fn clean(&self) -> bool {
        &&& self.pad.zero()
    }

    fn check_reserved(&self) -> (r: Result<(), Errno>) {
        if !self.pad.is_zero() {
            return Err(Errno::EINVAL);
        }
        Ok(())
    }
}

/// Configuration parameters for a sync multicast BIG group.
#[derive(Clone, Copy)]
pub struct SleSyncBigConfig {
    /// BIG identifier (0x00-0xEF).
    pub big_id: u8,
    /// Number of sync links to create (1-8).
    pub link_count: u8,
    /// Adaptation mode: 0=periodic, 1=aperiodic.
    pub adapt_mode: u8,
    /// Without a meaning yet.
    pub pad: u8,
    /// GtoT SDU interval in microseconds.
    pub sdu_interval_g2t: u32,
    /// TtoG SDU interval in microseconds.
    pub sdu_interval_t2g: u32,
    /// Max SDU payload GtoT (bytes).
    pub max_sdu_g2t: u16,
    /// Max SDU payload TtoG (bytes).
    pub max_sdu_t2g: u16,
    /// Max transport delay GtoT (ms).
    pub max_latency_g2t: u16,
    /// Max transport delay TtoG (ms).
    pub max_latency_t2g: u16,
    /// PDU retransmit count GtoT.
    pub retransmit_g2t: u8,
    /// PDU retransmit count TtoG.
    pub retransmit_t2g: u8,
    /// Output: allocated sync link handles.
    pub handles_out: [u16; 8],
}

impl Default for SleSyncBigConfig {
    fn default() -> (r: Self)
        ensures
            r.big_id == 0,
            r.link_count == 0,
            r.adapt_mode == 0,
            r.pad == 0,
            r.sdu_interval_g2t == 0,
            r.sdu_interval_t2g == 0,
            r.max_sdu_g2t == 0,
            r.max_sdu_t2g == 0,
            r.max_latency_g2t == 0,
            r.max_latency_t2g == 0,
            r.retransmit_g2t == 0,
            r.retransmit_t2g == 0,
            r.handles_out@ == Seq::new(8, |i: int| 0u16),
    {
        SleSyncBigConfig {
            big_id: 0,
            link_count: 0,
            adapt_mode: 0,
            pad: 0,
            sdu_interval_g2t: 0,
            sdu_interval_t2g: 0,
            max_sdu_g2t: 0,
            max_sdu_t2g: 0,
            max_latency_g2t: 0,
            max_latency_t2g: 0,
            retransmit_g2t: 0,
            retransmit_t2g: 0,
            handles_out: [0u16; 8],
        }
    }
}

impl CheckReserved for SleSyncBigConfig {
    open spec fn clean(&self) -> bool {
        &&& self.pad.zero()
    }

    fn check_reserved(&self) -> (r: Result<(), Errno>) {
        if !self.pad.is_zero() {
            return Err(Errno::EINVAL);
        }
        Ok(())
    }
}

/// Create (activate) sync links - binds CIG/BIG links to async connections.
#[derive(Clone, Copy)]
pub struct SleSyncCreateCmd {
    /// CIG or BIG identifier.
    pub group_id: u8,
    /// Number of links to create.
    pub link_count: u8,
    /// Without a meaning yet.
    pub pad: [u8; 2],
    /// ACL connection handles to bind (one per link).
    pub acl_handles: [u16; 8],
}

impl Default for SleSyncCreateCmd {
    fn default() -> (r: Self)
        ensures
            r.group_id == 0,
            r.link_count == 0,
            r.pad@ == bytes::zeros(2),
            r.acl_handles@ == Seq::new(8, |i: int| 0u16),
    {
        SleSyncCreateCmd {
            group_id: 0,
            link_count: 0,
            pad: [0u8; 2],
            acl_handles: [0u16; 8],
        }
    }
}

impl CheckReserved for SleSyncCreateCmd {
    open spec fn clean(&self) -> bool {
        &&& self.pad.zero()
    }

    fn check_reserved(&self) -> (r: Result<(), Errno>) {
        if !self.pad.is_zero() {
            return Err(Errno::EINVAL);
        }
        Ok(())
    }
}

/// Sync link data path configuration.
#[derive(Clone, Copy)]
pub struct SleSyncDatapathCmd {
    /// Sync link handle.
    pub sync_handle: u16,
    /// Direction: 0=input, 1=output, 2=both.
    pub direction: u8,
    /// Data path identifier.
    pub path_id: u8,
    /// Codec identifier.
    pub codec_id: u8,
    /// Without a meaning yet.
    pub pad: [u8; 3],
}

impl Default for SleSyncDatapathCmd {
    fn default() -> (r: Self)
        ensures
            r.sync_handle == 0,
            r.direction == 0,
            r.path_id == 0,
            r.codec_id == 0,
            r.pad@ == bytes::zeros(3),
    {
        SleSyncDatapathCmd {
            sync_handle: 0,
            direction: 0,
            path_id: 0,
            codec_id: 0,
            pad: [0u8; 3],
        }
    }
}

impl CheckReserved for SleSyncDatapathCmd {
    open spec fn clean(&self) -> bool {
        &&& self.pad.zero()
    }

    fn check_reserved(&self) -> (r: Result<(), Errno>) {
        if !self.pad.is_zero() {
            return Err(Errno::EINVAL);
        }
        Ok(())
    }
}

/// Sync link information query/response.
#[derive(Clone, Copy)]
pub struct SleSyncLinkInfo {
    /// Sync link handle (input).
    pub sync_handle: u16,
    /// Associated ACL handle (output).
    pub acl_handle: u16,
    /// CIG/BIG ID (output).
    pub group_id: u8,
    /// CIS/BIS ID within group (output).
    pub stream_id: u8,
    /// Link type: 0=unicast, 1=multicast (output).
    pub link_type: u8,
    /// State: 0=configured, 1=creating, 2=active (output).
    pub state: u8,
    /// GtoT SDU interval s (output).
    pub sdu_interval_g2t: u32,
    /// TtoG SDU interval s (output).
    pub sdu_interval_t2g: u32,
    /// Max SDU GtoT (output).
    pub max_sdu_g2t: u16,
    /// Max SDU TtoG (output).
    pub max_sdu_t2g: u16,
    /// Data path configured (output).
    pub datapath_configured: u8,
    /// Without a meaning yet.
    pub pad2: [u8; 3],
}

impl Default for SleSyncLinkInfo {
    fn default() -> (r: Self)
        ensures
            r.sync_handle == 0,
            r.acl_handle == 0,
            r.group_id == 0,
            r.stream_id == 0,
            r.link_type == 0,
            r.state == 0,
            r.sdu_interval_g2t == 0,
            r.sdu_interval_t2g == 0,
            r.max_sdu_g2t == 0,
            r.max_sdu_t2g == 0,
            r.datapath_configured == 0,
            r.pad2@ == bytes::zeros(3),
    {
        SleSyncLinkInfo {
            sync_handle: 0,
            acl_handle: 0,
            group_id: 0,
            stream_id: 0,
            link_type: 0,
            state: 0,
            sdu_interval_g2t: 0,
            sdu_interval_t2g: 0,
            max_sdu_g2t: 0,
            max_sdu_t2g: 0,
            datapath_configured: 0,
            pad2: [0u8; 3],
        }
    }
}

impl CheckReserved for SleSyncLinkInfo {
    open spec fn clean(&self) -> bool {
        &&& self.pad2.zero()
    }

    fn check_reserved(&self) -> (r: Result<(), Errno>) {
        if !self.pad2.is_zero() {
            return Err(Errno::EINVAL);
        }
        Ok(())
    }
}

/// Sync link reject command.
#[derive(Clone, Copy)]
pub struct SleSyncRejectCmd {
    /// Sync link handle.
    pub sync_handle: u16,
    /// Rejection reason code.
    pub reason: u8,
    /// Without a meaning yet.
    pub pad: u8,
}

impl Default for SleSyncRejectCmd {
    fn default() -> (r: Self)
        ensures
            r.sync_handle == 0,
            r.reason == 0,
            r.pad == 0,
    {
        SleSyncRejectCmd {
            sync_handle: 0,
            reason: 0,
            pad: 0,
        }
    }
}

impl CheckReserved for SleSyncRejectCmd {
    open spec fn clean(&self) -> bool {
        &&& self.pad.zero()
    }

    fn check_reserved(&self) -> (r: Result<(), Errno>) {
        if !self.pad.is_zero() {
            return Err(Errno::EINVAL);
        }
        Ok(())
    }
}

/// Sync data send command.
#[derive(Clone, Copy)]
pub struct SleSyncDataCmd {
    /// Sync link handle.
    pub sync_handle: u16,
    /// Segmentation: 0=complete, 1=first, 2=middle, 3=last.
    pub segment: u8,
    /// Priority: 0=low, 1=high.
    pub priority: u8,
    /// Payload length.
    pub len: u16,
    /// Without a meaning yet.
    pub pad: [u8; 2],
    /// SDU payload data.
    pub data: [u8; 247],
    /// Without a meaning yet.
    pub pad2: u8,
}

impl CheckReserved for SleSyncDataCmd {
    open spec fn clean(&self) -> bool {
        &&& self.pad.zero()
        &&& self.pad2.zero()
    }

    fn check_reserved(&self) -> (r: Result<(), Errno>) {
        if !self.pad.is_zero() {
            return Err(Errno::EINVAL);
        }
        if !self.pad2.is_zero() {
            return Err(Errno::EINVAL);
        }
        Ok(())
    }
}

/// Pre-shared key for PSK pairing.
#[derive(Clone, Copy)]
pub struct SlePskParams {
    /// 128-bit pre-shared key.
    pub psk: [u8; 16],
}

impl CheckReserved for SlePskParams {
    open spec fn clean(&self) -> bool {
        true
    }

    fn check_reserved(&self) -> (r: Result<(), Errno>) {
        Ok(())
    }
}

/// Pairing request parameters.
#[derive(Clone, Copy)]
pub struct SlePairParams {
    /// Pairing method: 1=JustWorks, 2=PSK, 3=NC, 4=PasskeyEntry, 5=OOB, 6=Password.
    pub method: u8,
    /// Without a meaning yet.
    pub reserved: [u8; 3],
}

impl CheckReserved for SlePairParams {
    open spec fn clean(&self) -> bool {
        &&& self.reserved.zero()
    }

    fn check_reserved(&self) -> (r: Result<(), Errno>) {
        if !self.reserved.is_zero() {
            return Err(Errno::EINVAL);
        }
        Ok(())
    }
}

/// OOB data: remote public key X[32] + Y[32] exchanged out-of-band.
#[derive(Clone, Copy)]
pub struct SleOobData {
    /// 64 bytes of OOB key material (X[32] || Y[32]).
    pub data: [u8; 64],
}

impl CheckReserved for SleOobData {
    open spec fn clean(&self) -> bool {
        true
    }

    fn check_reserved(&self) -> (r: Result<(), Errno>) {
        Ok(())
    }
}

/// Password parameters for password-based pairing.
#[derive(Clone, Copy)]
pub struct SlePasswordParams {
    /// Password length (1..32).
    pub len: u8,
    /// Without a meaning yet.
    pub reserved: [u8; 3],
    /// Password data (up to 32 bytes).
    pub data: [u8; 32],
}

impl CheckReserved for SlePasswordParams {
    open spec fn clean(&self) -> bool {
        &&& self.reserved.zero()
    }

    fn check_reserved(&self) -> (r: Result<(), Errno>) {
        if !self.reserved.is_zero() {
            return Err(Errno::EINVAL);
        }
        Ok(())
    }
}

/// Passkey input for passkey entry pairing.
#[derive(Clone, Copy)]
pub struct SlePasskeyInput {
    /// 6-digit passkey value (0..999999).
    pub passkey: u32,
}

impl CheckReserved for SlePasskeyInput {
    open spec fn clean(&self) -> bool {
        true
    }

    fn check_reserved(&self) -> (r: Result<(), Errno>) {
        Ok(())
    }
}

/// Parameters for adding a device to the RAL.
#[derive(Clone, Copy)]
pub struct SleRalAddParams {
    /// Resolution algorithm bits (bit0=local, bit1=peer; 0=AES-CMAC, 1=HMAC-SM3).
    pub resolve_algo: u8,
    /// Peer identity address type.
    pub peer_id_type: u8,
    /// Peer IRKID.
    pub peer_irkid: u8,
    /// Local IRKID.
    pub local_irkid: u8,
    /// Peer identity address (6 bytes).
    pub peer_id: [u8; 6],
    /// Without a meaning yet.
    pub reserved: [u8; 2],
    /// Peer Identity Resolving Key (16 bytes).
    pub peer_irk: [u8; 16],
    /// Local Identity Resolving Key (16 bytes).
    pub local_irk: [u8; 16],
}

impl CheckReserved for SleRalAddParams {
    open spec fn clean(&self) -> bool {
        &&& self.reserved.zero()
    }

    fn check_reserved(&self) -> (r: Result<(), Errno>) {
        if !self.reserved.is_zero() {
            return Err(Errno::EINVAL);
        }
        Ok(())
    }
}

/// Parameters for removing a device from the RAL.
#[derive(Clone, Copy)]
pub struct SleRalRemoveParams {
    /// Peer identity address type.
    pub peer_id_type: u8,
    /// Without a meaning yet.
    pub reserved: u8,
    /// Peer identity address (6 bytes).
    pub peer_id: [u8; 6],
}

impl CheckReserved for SleRalRemoveParams {
    open spec fn clean(&self) -> bool {
        &&& self.reserved.zero()
    }

    fn check_reserved(&self) -> (r: Result<(), Errno>) {
        if !self.reserved.is_zero() {
            return Err(Errno::EINVAL);
        }
        Ok(())
    }
}

/// Query/result for reading a peer or local RPA.
#[derive(Clone, Copy)]
pub struct SleRalQueryParams {
    /// Identity address type.
    pub id_type: u8,
    /// Without a meaning yet.
    pub reserved: u8,
    /// Identity address (6 bytes).
    pub id: [u8; 6],
    /// Output: resolved RPA (6 bytes), filled by kernel.
    pub rpa: [u8; 6],
    /// Without a meaning yet.
    pub pad: [u8; 2],
}

impl CheckReserved for SleRalQueryParams {
    open spec fn clean(&self) -> bool {
        &&& self.reserved.zero()
        &&& self.pad.zero()
    }

    fn check_reserved(&self) -> (r: Result<(), Errno>) {
        if !self.reserved.is_zero() {
            return Err(Errno::EINVAL);
        }
        if !self.pad.is_zero() {
            return Err(Errno::EINVAL);
        }
        Ok(())
    }
}

/// Security status returned to userspace.
#[derive(Clone, Copy)]
pub struct SleSecInfo {
    /// Security state (SecurityState).
    pub state: u8,
    /// Pairing method (PairingMethod).
    pub method: u8,
    /// Security mode (SecurityMode).
    pub mode: u8,
    /// Whether encryption is currently active.
    pub enc_enabled: u8,
    /// First 4 bytes of SM3(enc_key) for fingerprint verification.
    pub enc_key_fingerprint: [u8; 4],
    /// Without a meaning yet.
    pub reserved: [u8; 8],
}

impl CheckReserved for SleSecInfo {
    open spec fn clean(&self) -> bool {
        &&& self.reserved.zero()
    }

    fn check_reserved(&self) -> (r: Result<(), Errno>) {
        if !self.reserved.is_zero() {
            return Err(Errno::EINVAL);
        }
        Ok(())
    }
}

/// SM3 hash test request/response.
#[derive(Clone, Copy)]
pub struct SleHashTest {
    /// Input data length (max 220).
    pub in_len: u16,
    /// Padding.
    pub pad: u16,
    /// Input data buffer.
    pub data: [u8; 220],
    /// Output SM3 digest (32 bytes).
    pub digest: [u8; 32],
}

impl CheckReserved for SleHashTest {
    open spec fn clean(&self) -> bool {
        &&& self.pad.zero()
    }

    fn check_reserved(&self) -> (r: Result<(), Errno>) {
        if !self.pad.is_zero() {
            return Err(Errno::EINVAL);
        }
        Ok(())
    }
}

/// SM4 standalone block encrypt/decrypt test.
#[derive(Clone, Copy)]
pub struct SleSm4BlockTest {
    /// 128-bit key.
    pub key: [u8; 16],
    /// 16-byte input block.
    pub input: [u8; 16],
    /// 16-byte output block (filled by kernel).
    pub output: [u8; 16],
    /// 0 = encrypt, 1 = decrypt.
    pub decrypt: u8,
    /// Without a meaning yet.
    pub pad: [u8; 15],
}

impl CheckReserved for SleSm4BlockTest {
    open spec fn clean(&self) -> bool {
        &&& self.pad.zero()
    }

    fn check_reserved(&self) -> (r: Result<(), Errno>) {
        if !self.pad.is_zero() {
            return Err(Errno::EINVAL);
        }
        Ok(())
    }
}

/// HMAC-SM3 standalone test.
#[derive(Clone, Copy)]
pub struct SleHmacTest {
    /// HMAC key length (max 64).
    pub key_len: u16,
    /// Input data length (max 160).
    pub data_len: u16,
    /// HMAC key.
    pub key: [u8; 64],
    /// Input data.
    pub data: [u8; 160],
    /// Output HMAC-SM3 digest (32 bytes, filled by kernel).
    pub digest: [u8; 32],
}

impl CheckReserved for SleHmacTest {
    open spec fn clean(&self) -> bool {
        true
    }

    fn check_reserved(&self) -> (r: Result<(), Errno>) {
        Ok(())
    }
}

/// SSAP summary info returned to userspace.
#[derive(Clone, Copy)]
pub struct SsapSummary {
    /// Number of registered services.
    pub service_count: u16,
    /// Total number of properties across all services.
    pub property_count: u16,
    /// Total SSAP entries (services + properties + methods + events).
    pub total_entries: u16,
    /// Negotiated MTU.
    pub mtu: u16,
    /// Pending notification count.
    pub notification_count: u16,
    /// Without a meaning yet.
    pub reserved: [u8; 6],
}

impl CheckReserved for SsapSummary {
    open spec fn clean(&self) -> bool {
        &&& self.reserved.zero()
    }

    fn check_reserved(&self) -> (r: Result<(), Errno>) {
        if !self.reserved.is_zero() {
            return Err(Errno::EINVAL);
        }
        Ok(())
    }
}

/// SSAP read/write payload for property access.
#[derive(Clone, Copy)]
pub struct SsapReadWrite {
    /// Property handle.
    pub handle: u16,
    /// Data length in bytes.
    pub length: u16,
    /// Data buffer (max 252 bytes).
    pub data: [u8; 252],
}

impl CheckReserved for SsapReadWrite {
    open spec fn clean(&self) -> bool {
        true
    }

    fn check_reserved(&self) -> (r: Result<(), Errno>) {
        Ok(())
    }
}

/// Service entry in the discovery result list.
#[derive(Clone, Copy)]
pub struct SsapServiceEntry {
    /// Service start handle.
    pub start_handle: u16,
    /// Service end handle.
    pub end_handle: u16,
    /// Service UUID (16-bit; 0 if 128-bit).
    pub uuid16: u16,
    /// Whether primary service.
    pub primary: u8,
    /// Without a meaning yet.
    pub pad: u8,
}

impl CheckReserved for SsapServiceEntry {
    open spec fn clean(&self) -> bool {
        &&& self.pad.zero()
    }

    fn check_reserved(&self) -> (r: Result<(), Errno>) {
        if !self.pad.is_zero() {
            return Err(Errno::EINVAL);
        }
        Ok(())
    }
}

/// Service list returned from FIND_SVC.
#[derive(Clone, Copy)]
pub struct SsapServiceList {
    /// Number of services in the list.
    pub count: u16,
    /// Without a meaning yet.
    pub pad: [u8; 2],
    /// Up to 15 services.
    pub services: [SsapServiceEntry; 15],
}

impl CheckReserved for SsapServiceList {
    open spec fn clean(&self) -> bool {
        &&& self.pad.zero()
    }

    fn check_reserved(&self) -> (r: Result<(), Errno>) {
        if !self.pad.is_zero() {
            return Err(Errno::EINVAL);
        }
        Ok(())
    }
}

/// Dequeued notification/indication payload.
#[derive(Clone, Copy)]
pub struct SsapNotification {
    /// Property handle that generated the notification.
    pub handle: u16,
    /// 1 = indication, 0 = notification.
    pub indication: u8,
    /// Data length.
    pub length: u8,
    /// Notification data (max 252 bytes).
    pub data: [u8; 252],
}

impl CheckReserved for SsapNotification {
    open spec fn clean(&self) -> bool {
        true
    }

    fn check_reserved(&self) -> (r: Result<(), Errno>) {
        Ok(())
    }
}

/// Dynamic SSAP service registration from userspace.
#[derive(Clone, Copy)]
pub struct SsapAddService {
    /// Service UUID (16-bit, or 0 for 128-bit specified in uuid128).
    pub uuid16: u16,
    /// Whether primary (1) or secondary (0) service.
    pub primary: u8,
    /// Without a meaning yet.
    pub pad: u8,
    /// 128-bit UUID (used when uuid16 == 0).
    pub uuid128: [u8; 16],
    /// Output: assigned start handle.
    pub start_handle: u16,
    /// Without a meaning yet.
    pub reserved: [u8; 6],
}

impl CheckReserved for SsapAddService {
    open spec fn clean(&self) -> bool {
        &&& self.pad.zero()
        &&& self.reserved.zero()
    }

    fn check_reserved(&self) -> (r: Result<(), Errno>) {
        if !self.pad.is_zero() {
            return Err(Errno::EINVAL);
        }
        if !self.reserved.is_zero() {
            return Err(Errno::EINVAL);
        }
        Ok(())
    }
}

/// Add a property to the last registered SSAP service.
#[derive(Clone, Copy)]
pub struct SsapAddProperty {
    /// Property UUID (16-bit).
    pub uuid16: u16,
    /// Operation indicator bitmask (bit0=Read, bit1=Write, bit2=Notify, etc.).
    pub ops: u8,
    /// Length of initial value data.
    pub value_len: u8,
    /// Initial value data (max 248 bytes).
    pub value: [u8; 248],
    /// Output: assigned property handle.
    pub handle: u16,
    /// Without a meaning yet.
    pub reserved: [u8; 2],
}

impl CheckReserved for SsapAddProperty {
    open spec fn clean(&self) -> bool {
        &&& self.reserved.zero()
    }

    fn check_reserved(&self) -> (r: Result<(), Errno>) {
        if !self.reserved.is_zero() {
            return Err(Errno::EINVAL);
        }
        Ok(())
    }
}

/// Remote SSAP command targeting a specific connection handle.
#[derive(Clone, Copy)]
pub struct SsapRemoteCmd {
    /// Connection handle of the remote peer.
    pub conn_handle: u16,
    /// Without a meaning yet.
    pub reserved: [u8; 2],
}

impl CheckReserved for SsapRemoteCmd {
    open spec fn clean(&self) -> bool {
        &&& self.reserved.zero()
    }

    fn check_reserved(&self) -> (r: Result<(), Errno>) {
        if !self.reserved.is_zero() {
            return Err(Errno::EINVAL);
        }
        Ok(())
    }
}

/// Remote service discovery via FindStructure.
#[derive(Clone, Copy)]
pub struct SsapRemoteDiscover {
    /// Connection handle of the remote peer.
    pub conn_handle: u16,
    /// Start handle of the range to discover (input).
    pub start_handle: u16,
    /// End handle of the range to discover (input).
    pub end_handle: u16,
    /// Number of discovered entries returned (output).
    pub count: u16,
}

impl CheckReserved for SsapRemoteDiscover {
    open spec fn clean(&self) -> bool {
        true
    }

    fn check_reserved(&self) -> (r: Result<(), Errno>) {
        Ok(())
    }
}

/// Remote SSAP read/write targeting a specific connection.
#[derive(Clone, Copy)]
pub struct SsapRemoteReadWrite {
    /// Connection handle of the remote peer.
    pub conn_handle: u16,
    /// Property handle on the remote device.
    pub handle: u16,
    /// Data length in bytes.
    pub length: u16,
    /// Without a meaning yet.
    pub pad: [u8; 2],
    /// Data buffer (max 248 bytes).
    pub data: [u8; 248],
}

impl CheckReserved for SsapRemoteReadWrite {
    open spec fn clean(&self) -> bool {
        &&& self.pad.zero()
    }

    fn check_reserved(&self) -> (r: Result<(), Errno>) {
        if !self.pad.is_zero() {
            return Err(Errno::EINVAL);
        }
        Ok(())
    }
}

/// UUID-based SSAP operation (find-by-uuid, read-by-uuid).
#[derive(Clone, Copy)]
pub struct SsapUuidOp {
    /// Connection handle of the remote peer.
    pub conn_handle: u16,
    /// 16-bit UUID (0 when using uuid128).
    pub uuid16: u16,
    /// 128-bit UUID (ignored when uuid16 != 0).
    pub uuid128: [u8; 16],
    /// Output: matched handle.
    pub handle: u16,
    /// Output: data length.
    pub length: u16,
    /// Output: read data (READ_BY_UUID only).
    pub data: [u8; 232],
}

impl CheckReserved for SsapUuidOp {
    open spec fn clean(&self) -> bool {
        true
    }

    fn check_reserved(&self) -> (r: Result<(), Errno>) {
        Ok(())
    }
}

/// Power management status info returned to userspace.
#[derive(Clone, Copy)]
pub struct SlePmInfo {
    /// Current power state (0=Active, 1=Sniff, 2=Idle, 3=Suspended).
    pub state: u8,
    /// Whether force-active is enabled.
    pub force_active: u8,
    /// Estimated power consumption percentage (0-100).
    pub power_pct: u8,
    /// Without a meaning yet.
    pub pad: u8,
    /// Current connection interval in 1.25 ms units.
    pub current_interval: u16,
    /// Supervision timeout in 10 ms units.
    pub supervision_timeout: u16,
    /// Peripheral latency.
    pub latency: u16,
    /// Idle event count since last activity.
    pub idle_count: u16,
    /// Total state transitions.
    pub transitions: u32,
    /// Active events count.
    pub active_events: u64,
    /// Sniff events count.
    pub sniff_events: u64,
    /// Idle events count.
    pub idle_events: u64,
    /// Without a meaning yet.
    pub reserved: [u8; 8],
}

impl CheckReserved for SlePmInfo {
    open spec fn clean(&self) -> bool {
        &&& self.pad.zero()
        &&& self.reserved.zero()
    }

    fn check_reserved(&self) -> (r: Result<(), Errno>) {
        if !self.pad.is_zero() {
            return Err(Errno::EINVAL);
        }
        if !self.reserved.is_zero() {
            return Err(Errno::EINVAL);
        }
        Ok(())
    }
}

/// Power state command.
#[derive(Clone, Copy)]
pub struct SlePmStateCmd {
    /// Target state: 0=Active, 1=Sniff, 3=Suspend.
    pub target_state: u8,
    /// Without a meaning yet.
    pub reserved: [u8; 3],
}

impl CheckReserved for SlePmStateCmd {
    open spec fn clean(&self) -> bool {
        &&& self.reserved.zero()
    }

    fn check_reserved(&self) -> (r: Result<(), Errno>) {
        if !self.reserved.is_zero() {
            return Err(Errno::EINVAL);
        }
        Ok(())
    }
}

/// Connection interval parameters from userspace.
#[derive(Clone, Copy)]
pub struct SlePmInterval {
    /// Minimum interval in 1.25 ms units.
    pub min_interval: u16,
    /// Maximum interval in 1.25 ms units.
    pub max_interval: u16,
    /// Peripheral latency.
    pub latency: u16,
    /// Supervision timeout in 10 ms units.
    pub supervision_timeout: u16,
}

impl CheckReserved for SlePmInterval {
    open spec fn clean(&self) -> bool {
        true
    }

    fn check_reserved(&self) -> (r: Result<(), Errno>) {
        Ok(())
    }
}

/// Lifetime statistics for the event queue.
#[derive(Clone, Copy)]
pub struct SleEventStats {
    /// Number of events currently pending.
    pub pending: u32,
    /// Without a meaning yet.
    pub pad: u32,
    /// Total events enqueued (lifetime).
    pub total_enqueued: u64,
    /// Total events dropped (queue full).
    pub total_dropped: u64,
    /// Total events delivered to userspace.
    pub total_delivered: u64,
}

impl Default for SleEventStats {
    fn default() -> (r: Self)
        ensures
            r.pending == 0,
            r.pad == 0,
            r.total_enqueued == 0,
            r.total_dropped == 0,
            r.total_delivered == 0,
    {
        SleEventStats {
            pending: 0,
            pad: 0,
            total_enqueued: 0,
            total_dropped: 0,
            total_delivered: 0,
        }
    }
}

impl CheckReserved for SleEventStats {
    open spec fn clean(&self) -> bool {
        &&& self.pad.zero()
    }

    fn check_reserved(&self) -> (r: Result<(), Errno>) {
        if !self.pad.is_zero() {
            return Err(Errno::EINVAL);
        }
        Ok(())
    }
}

/// DLI controller information returned to userspace.
#[derive(Clone, Copy)]
pub struct SleDliInfo {
    /// Bus type (0=None, 1=UART, 2=USB, 3=SDIO).
    pub bus: u8,
    /// Without a meaning yet.
    pub pad: [u8; 3],
    /// Firmware version (major.minor.patch packed as u32).
    pub firmware_version: u32,
    /// Supported feature bitmask.
    pub features: u64,
    /// Maximum simultaneous connections.
    pub max_connections: u8,
    /// Maximum advertising sets.
    pub max_adv_sets: u8,
    /// Supported transport modes (bitmask).
    pub transport_modes: u8,
    /// Measurement capabilities (bitmask).
    pub measurement_cap: u8,
    /// Maximum MTU the controller supports.
    pub max_mtu: u16,
    /// Maximum payload segment size per single TX.
    pub max_mps: u16,
    /// Security capabilities (bitmask).
    pub security_cap: u16,
    /// Extended feature bits 64-72.
    pub features_ext: u16,
    /// Controller name (null-terminated).
    pub name: [u8; 32],
    /// Without a meaning yet.
    pub reserved: [u8; 4],
}

impl Default for SleDliInfo {
    fn default() -> (r: Self)
        ensures
            r.bus == 0,
            r.pad@ == bytes::zeros(3),
            r.firmware_version == 0,
            r.features == 0,
            r.max_connections == 0,
            r.max_adv_sets == 0,
            r.transport_modes == 0,
            r.measurement_cap == 0,
            r.max_mtu == 0,
            r.max_mps == 0,
            r.security_cap == 0,
            r.features_ext == 0,
            r.name@ == bytes::zeros(32),
            r.reserved@ == bytes::zeros(4),
    {
        SleDliInfo {
            bus: 0,
            pad: [0u8; 3],
            firmware_version: 0,
            features: 0,
            max_connections: 0,
            max_adv_sets: 0,
            transport_modes: 0,
            measurement_cap: 0,
            max_mtu: 0,
            max_mps: 0,
            security_cap: 0,
            features_ext: 0,
            name: [0u8; 32],
            reserved: [0u8; 4],
        }
    }
}

impl CheckReserved for SleDliInfo {
    open spec fn clean(&self) -> bool {
        &&& self.pad.zero()
        &&& self.reserved.zero()
    }

    fn check_reserved(&self) -> (r: Result<(), Errno>) {
        if !self.pad.is_zero() {
            return Err(Errno::EINVAL);
        }
        if !self.reserved.is_zero() {
            return Err(Errno::EINVAL);
        }
        Ok(())
    }
}

impl CheckReserved for SleDliEvent {
    open spec fn clean(&self) -> bool {
        &&& self.pad.zero()
    }

    fn check_reserved(&self) -> (r: Result<(), Errno>) {
        if !self.pad.is_zero() {
            return Err(Errno::EINVAL);
        }
        Ok(())
    }
}

/// DLI command sent to the controller via DLI_SEND_CMD ioctl.
#[derive(Clone, Copy)]
pub struct SleDliCmd {
    /// DLI opcode (OGF|OCF).
    pub opcode: u16,
    /// Parameter length.
    pub param_len: u16,
    /// Assigned sequence number (output, filled by kernel).
    pub seq: u32,
    /// Command parameters.
    pub params: [u8; 240],
}

impl CheckReserved for SleDliCmd {
    open spec fn clean(&self) -> bool {
        true
    }

    fn check_reserved(&self) -> (r: Result<(), Errno>) {
        Ok(())
    }
}

/// Management plane pending queue statistics.
#[derive(Clone, Copy)]
pub struct SleMgmtStats {
    /// Currently pending (unresolved) commands.
    pub pending: u16,
    /// Without a meaning yet.
    pub pad: u16,
    /// Total commands submitted.
    pub total_submitted: u32,
    /// Total commands resolved (complete or timeout).
    pub total_resolved: u32,
    /// Total command timeouts.
    pub total_timeouts: u32,
}

impl Default for SleMgmtStats {
    fn default() -> (r: Self)
        ensures
            r.pending == 0,
            r.pad == 0,
            r.total_submitted == 0,
            r.total_resolved == 0,
            r.total_timeouts == 0,
    {
        SleMgmtStats {
            pending: 0,
            pad: 0,
            total_submitted: 0,
            total_resolved: 0,
            total_timeouts: 0,
        }
    }
}

impl CheckReserved for SleMgmtStats {
    open spec fn clean(&self) -> bool {
        &&& self.pad.zero()
    }

    fn check_reserved(&self) -> (r: Result<(), Errno>) {
        if !self.pad.is_zero() {
            return Err(Errno::EINVAL);
        }
        Ok(())
    }
}

/// Unified subsystem statistics for observability.
#[derive(Clone, Copy)]
pub struct SleSubsysStats {
    /// Number of registered devices in the SleDev registry.
    pub dev_count: u16,
    /// Number of registered transport protocols.
    pub proto_count: u8,
    /// Number of active device-transport bindings.
    pub binding_count: u8,
    /// Active connections.
    pub active_connections: u16,
    /// Management plane pending commands.
    pub mgmt_pending: u16,
    /// Total connections created (lifetime).
    pub total_conn_created: u32,
    /// Total connections completed (lifetime).
    pub total_conn_completed: u32,
    /// Total management commands submitted (lifetime).
    pub total_mgmt_submitted: u32,
    /// Total management command timeouts.
    pub total_mgmt_timeouts: u32,
    /// Power state (0=Active, 1=Sniff, 2=Idle, 3=Suspended).
    pub power_state: u8,
    /// Without a meaning yet.
    pub pad: [u8; 3],
    /// Power state transitions.
    pub power_transitions: u32,
    /// CRC-12 verification failures (advertising PDUs).
    pub crc_errors: u32,
}

impl Default for SleSubsysStats {
    fn default() -> (r: Self)
        ensures
            r.dev_count == 0,
            r.proto_count == 0,
            r.binding_count == 0,
            r.active_connections == 0,
            r.mgmt_pending == 0,
            r.total_conn_created == 0,
            r.total_conn_completed == 0,
            r.total_mgmt_submitted == 0,
            r.total_mgmt_timeouts == 0,
            r.power_state == 0,
            r.pad@ == bytes::zeros(3),
            r.power_transitions == 0,
            r.crc_errors == 0,
    {
        SleSubsysStats {
            dev_count: 0,
            proto_count: 0,
            binding_count: 0,
            active_connections: 0,
            mgmt_pending: 0,
            total_conn_created: 0,
            total_conn_completed: 0,
            total_mgmt_submitted: 0,
            total_mgmt_timeouts: 0,
            power_state: 0,
            pad: [0u8; 3],
            power_transitions: 0,
            crc_errors: 0,
        }
    }
}

impl CheckReserved for SleSubsysStats {
    open spec fn clean(&self) -> bool {
        &&& self.pad.zero()
    }

    fn check_reserved(&self) -> (r: Result<(), Errno>) {
        if !self.pad.is_zero() {
            return Err(Errno::EINVAL);
        }
        Ok(())
    }
}

/// PHY layer information returned to userspace.
#[derive(Clone, Copy)]
pub struct SlePhyInfo {
    /// Current MCS index (0-12).
    pub mcs_index: u8,
    /// Bandwidth in MHz (1, 2, or 4).
    pub bandwidth_mhz: u8,
    /// Pilot density (0=4:1, 1=8:1, 2=16:1, 3=none).
    pub pilot_density: u8,
    /// TX power in dBm (signed).
    pub tx_power_dbm: i8,
    /// MIMO mode (0=SISO, 1=SpatialMux2x2, ...).
    pub mimo_mode: u8,
    /// Number of TX antennas.
    pub num_tx_ant: u8,
    /// Number of RX antennas.
    pub num_rx_ant: u8,
    /// Whether OFDM is used for current MCS.
    pub ofdm: u8,
    /// Effective data rate in kbps.
    pub data_rate_kbps: u32,
    /// Current frequency hopping channel.
    pub hop_channel: u8,
    /// Hopping increment.
    pub hop_increment: u8,
    /// Number of used hopping channels.
    pub hop_used_channels: u8,
    /// Without a meaning yet.
    pub pad: u8,
    /// Modulation type for current MCS.
    pub modulation: u8,
    /// Code rate numerator.
    pub code_rate_num: u8,
    /// Code rate denominator.
    pub code_rate_den: u8,
    /// Without a meaning yet.
    pub reserved: [u8; 5],
}

impl Default for SlePhyInfo {
    fn default() -> (r: Self)
        ensures
            r.mcs_index == 0,
            r.bandwidth_mhz == 0,
            r.pilot_density == 0,
            r.tx_power_dbm == 0,
            r.mimo_mode == 0,
            r.num_tx_ant == 0,
            r.num_rx_ant == 0,
            r.ofdm == 0,
            r.data_rate_kbps == 0,
            r.hop_channel == 0,
            r.hop_increment == 0,
            r.hop_used_channels == 0,
            r.pad == 0,
            r.modulation == 0,
            r.code_rate_num == 0,
            r.code_rate_den == 0,
            r.reserved@ == bytes::zeros(5),
    {
        SlePhyInfo {
            mcs_index: 0,
            bandwidth_mhz: 0,
            pilot_density: 0,
            tx_power_dbm: 0,
            mimo_mode: 0,
            num_tx_ant: 0,
            num_rx_ant: 0,
            ofdm: 0,
            data_rate_kbps: 0,
            hop_channel: 0,
            hop_increment: 0,
            hop_used_channels: 0,
            pad: 0,
            modulation: 0,
            code_rate_num: 0,
            code_rate_den: 0,
            reserved: [0u8; 5],
        }
    }
}

impl CheckReserved for SlePhyInfo {
    open spec fn clean(&self) -> bool {
        &&& self.pad.zero()
        &&& self.reserved.zero()
    }

    fn check_reserved(&self) -> (r: Result<(), Errno>) {
        if !self.pad.is_zero() {
            return Err(Errno::EINVAL);
        }
        if !self.reserved.is_zero() {
            return Err(Errno::EINVAL);
        }
        Ok(())
    }
}

/// Set MCS index command.
#[derive(Clone, Copy)]
pub struct SlePhyMcsCmd {
    /// MCS index (0-12).
    pub mcs_index: u8,
    /// Without a meaning yet.
    pub reserved: [u8; 3],
}

impl Default for SlePhyMcsCmd {
    fn default() -> (r: Self)
        ensures
            r.mcs_index == 0,
            r.reserved@ == bytes::zeros(3),
    {
        SlePhyMcsCmd {
            mcs_index: 0,
            reserved: [0u8; 3],
        }
    }
}

impl CheckReserved for SlePhyMcsCmd {
    open spec fn clean(&self) -> bool {
        &&& self.reserved.zero()
    }

    fn check_reserved(&self) -> (r: Result<(), Errno>) {
        if !self.reserved.is_zero() {
            return Err(Errno::EINVAL);
        }
        Ok(())
    }
}

/// Set TX power command.
#[derive(Clone, Copy)]
pub struct SlePhyTxPowerCmd {
    /// TX power in dBm.
    pub tx_power_dbm: i8,
    /// Without a meaning yet.
    pub reserved: [u8; 3],
}

impl Default for SlePhyTxPowerCmd {
    fn default() -> (r: Self)
        ensures
            r.tx_power_dbm == 0,
            r.reserved@ == bytes::zeros(3),
    {
        SlePhyTxPowerCmd {
            tx_power_dbm: 0,
            reserved: [0u8; 3],
        }
    }
}

impl CheckReserved for SlePhyTxPowerCmd {
    open spec fn clean(&self) -> bool {
        &&& self.reserved.zero()
    }

    fn check_reserved(&self) -> (r: Result<(), Errno>) {
        if !self.reserved.is_zero() {
            return Err(Errno::EINVAL);
        }
        Ok(())
    }
}

/// MCS selection request/response.
#[derive(Clone, Copy)]
pub struct SlePhyMcsSelect {
    /// Input: minimum required data rate in kbps.
    pub min_kbps: u32,
    /// Output: effective data rate in kbps.
    pub effective_kbps: u32,
    /// Input: available SINR in dB x10 (signed).
    pub sinr_db_x10: i16,
    /// Input: bandwidth in MHz.
    pub bandwidth_mhz: u8,
    /// Output: selected MCS index.
    pub selected_mcs: u8,
}

impl Default for SlePhyMcsSelect {
    fn default() -> (r: Self)
        ensures
            r.min_kbps == 0,
            r.effective_kbps == 0,
            r.sinr_db_x10 == 0,
            r.bandwidth_mhz == 0,
            r.selected_mcs == 0,
    {
        SlePhyMcsSelect {
            min_kbps: 0,
            effective_kbps: 0,
            sinr_db_x10: 0,
            bandwidth_mhz: 0,
            selected_mcs: 0,
        }
    }
}

impl CheckReserved for SlePhyMcsSelect {
    open spec fn clean(&self) -> bool {
        true
    }

    fn check_reserved(&self) -> (r: Result<(), Errno>) {
        Ok(())
    }
}

/// Frequency hopping channel info.
#[derive(Clone, Copy)]
pub struct SlePhyHopInfo {
    /// Channel index (0-78).
    pub channel: u8,
    /// Without a meaning yet.
    pub pad: u8,
    /// RF frequency in MHz.
    pub freq_mhz: u16,
    /// Event counter after hop.
    pub event_counter: u16,
    /// Without a meaning yet.
    pub reserved: [u8; 2],
}

impl Default for SlePhyHopInfo {
    fn default() -> (r: Self)
        ensures
            r.channel == 0,
            r.pad == 0,
            r.freq_mhz == 0,
            r.event_counter == 0,
            r.reserved@ == bytes::zeros(2),
    {
        SlePhyHopInfo {
            channel: 0,
            pad: 0,
            freq_mhz: 0,
            event_counter: 0,
            reserved: [0u8; 2],
        }
    }
}

impl CheckReserved for SlePhyHopInfo {
    open spec fn clean(&self) -> bool {
        &&& self.pad.zero()
        &&& self.reserved.zero()
    }

    fn check_reserved(&self) -> (r: Result<(), Errno>) {
        if !self.pad.is_zero() {
            return Err(Errno::EINVAL);
        }
        if !self.reserved.is_zero() {
            return Err(Errno::EINVAL);
        }
        Ok(())
    }
}

/// Set bandwidth command.
#[derive(Clone, Copy)]
pub struct SlePhyBwCmd {
    /// Bandwidth in MHz (1, 2, or 4).
    pub bandwidth_mhz: u8,
    /// Without a meaning yet.
    pub reserved: [u8; 3],
}

impl Default for SlePhyBwCmd {
    fn default() -> (r: Self)
        ensures
            r.bandwidth_mhz == 0,
            r.reserved@ == bytes::zeros(3),
    {
        SlePhyBwCmd {
            bandwidth_mhz: 0,
            reserved: [0u8; 3],
        }
    }
}

impl CheckReserved for SlePhyBwCmd {
    open spec fn clean(&self) -> bool {
        &&& self.reserved.zero()
    }

    fn check_reserved(&self) -> (r: Result<(), Errno>) {
        if !self.reserved.is_zero() {
            return Err(Errno::EINVAL);
        }
        Ok(())
    }
}

/// SINR thresholds per MCS index (dB x10).
#[derive(Clone, Copy)]
pub struct SleSinrThresholds {
    /// 13 threshold values for MCS 0-12 (unit: dB x10).
    pub thresholds: [i16; 13],
    /// Without a meaning yet.
    pub pad: [u8; 2],
}

impl Default for SleSinrThresholds {
    fn default() -> (r: Self)
        ensures
            forall|i: int|
                0 <= i < 13 ==> #[trigger] r.thresholds@[i] == sle_phy::sinr_table(i),
            r.pad@ == bytes::zeros(2),
    {
        SleSinrThresholds {
            thresholds: sle_phy::default_sinr_thresholds(),
            pad: [0u8; 2],
        }
    }
}

impl CheckReserved for SleSinrThresholds {
    open spec fn clean(&self) -> bool {
        &&& self.pad.zero()
    }

    fn check_reserved(&self) -> (r: Result<(), Errno>) {
        if !self.pad.is_zero() {
            return Err(Errno::EINVAL);
        }
        Ok(())
    }
}

/// Peer capability query/response for READ_PEER_FEATURES and READ_PEER_VERSION.
#[derive(Clone, Copy)]
pub struct SleConnPeerCap {
    /// Connection handle.
    pub handle: u16,
    /// Feature bitmap.
    pub features: [u8; 10],
    /// Whether features have been exchanged.
    pub features_valid: u8,
    /// Protocol version.
    pub version: u8,
    /// Manufacturer identifier.
    pub manufacturer: u16,
    /// Sub-version number.
    pub subversion: u16,
    /// Whether version has been exchanged.
    pub version_valid: u8,
    /// Without a meaning yet.
    pub reserved: [u8; 3],
}

impl Default for SleConnPeerCap {
    fn default() -> (r: Self)
        ensures
            r.handle == 0,
            r.features@ == bytes::zeros(10),
            r.features_valid == 0,
            r.version == 0,
            r.manufacturer == 0,
            r.subversion == 0,
            r.version_valid == 0,
            r.reserved@ == bytes::zeros(3),
    {
        SleConnPeerCap {
            handle: 0,
            features: [0u8; 10],
            features_valid: 0,
            version: 0,
            manufacturer: 0,
            subversion: 0,
            version_valid: 0,
            reserved: [0u8; 3],
        }
    }
}

impl CheckReserved for SleConnPeerCap {
    open spec fn clean(&self) -> bool {
        &&& self.reserved.zero()
    }

    fn check_reserved(&self) -> (r: Result<(), Errno>) {
        if !self.reserved.is_zero() {
            return Err(Errno::EINVAL);
        }
        Ok(())
    }
}

/// Connection parameter update request.
#[derive(Clone, Copy)]
pub struct SleConnParamUpdate {
    /// Connection handle.
    pub handle: u16,
    /// Minimum connection interval (in event group periods).
    pub interval_min: u16,
    /// Maximum connection interval (in event group periods).
    pub interval_max: u16,
    /// Latency period (in event group period multiples).
    pub latency: u16,
    /// Supervision timeout (in 10 ms units).
    pub supervision_timeout: u16,
    /// Without a meaning yet.
    pub reserved: [u8; 2],
}

impl Default for SleConnParamUpdate {
    fn default() -> (r: Self)
        ensures
            r.handle == 0,
            r.interval_min == 0,
            r.interval_max == 0,
            r.latency == 0,
            r.supervision_timeout == 0,
            r.reserved@ == bytes::zeros(2),
    {
        SleConnParamUpdate {
            handle: 0,
            interval_min: 0,
            interval_max: 0,
            latency: 0,
            supervision_timeout: 0,
            reserved: [0u8; 2],
        }
    }
}

impl CheckReserved for SleConnParamUpdate {
    open spec fn clean(&self) -> bool {
        &&& self.reserved.zero()
    }

    fn check_reserved(&self) -> (r: Result<(), Errno>) {
        if !self.reserved.is_zero() {
            return Err(Errno::EINVAL);
        }
        Ok(())
    }
}

/// PHY parameter update request.
#[derive(Clone, Copy)]
pub struct SleConnPhyUpdate {
    /// Connection handle.
    pub handle: u16,
    /// Desired MCS index (0-12, 0xFF = no change).
    pub mcs_index: u8,
    /// Desired bandwidth in MHz (1/2/4, 0 = no change).
    pub bandwidth_mhz: u8,
}

impl Default for SleConnPhyUpdate {
    fn default() -> (r: Self)
        ensures
            r.handle == 0,
            r.mcs_index == 0,
            r.bandwidth_mhz == 0,
    {
        SleConnPhyUpdate {
            handle: 0,
            mcs_index: 0,
            bandwidth_mhz: 0,
        }
    }
}

impl CheckReserved for SleConnPhyUpdate {
    open spec fn clean(&self) -> bool {
        true
    }

    fn check_reserved(&self) -> (r: Result<(), Errno>) {
        Ok(())
    }
}

/// Extended scan filter for device discovery.
#[derive(Clone, Copy)]
pub struct SleScanFilter {
    /// Number of valid UUIDs in the list (0..4).
    pub uuid_count: u8,
    /// Without a meaning yet.
    pub reserved: [u8; 3],
    /// Target 16-bit standard service UUIDs to match.
    pub uuids: [u16; 4],
}

impl Default for SleScanFilter {
    fn default() -> (r: Self)
        ensures
            r.uuid_count == 0,
            r.reserved@ == bytes::zeros(3),
            r.uuids@ == Seq::new(4, |i: int| 0u16),
    {
        SleScanFilter {
            uuid_count: 0,
            reserved: [0u8; 3],
            uuids: [0u16; 4],
        }
    }
}

impl CheckReserved for SleScanFilter {
    open spec fn clean(&self) -> bool {
        &&& self.reserved.zero()
    }

    fn check_reserved(&self) -> (r: Result<(), Errno>) {
        if !self.reserved.is_zero() {
            return Err(Errno::EINVAL);
        }
        Ok(())
    }
}

/// Local measurement capabilities returned by MEAS_READ_CAP.
#[derive(Clone, Copy)]
pub struct SleMeasCap {
    /// Supported measurement types bitmask.
    pub meas_types: u8,
    /// Maximum concurrent measurement instances.
    pub max_instances: u8,
    /// Antenna count available for measurements.
    pub antenna_count: u8,
    /// Without a meaning yet.
    pub reserved: u8,
}

impl Default for SleMeasCap {
    fn default() -> (r: Self)
        ensures
            r.meas_types == 0,
            r.max_instances == 0,
            r.antenna_count == 0,
            r.reserved == 0,
    {
        SleMeasCap {
            meas_types: 0,
            max_instances: 0,
            antenna_count: 0,
            reserved: 0,
        }
    }
}

impl CheckReserved for SleMeasCap {
    open spec fn clean(&self) -> bool {
        &&& self.reserved.zero()
    }

    fn check_reserved(&self) -> (r: Result<(), Errno>) {
        if !self.reserved.is_zero() {
            return Err(Errno::EINVAL);
        }
        Ok(())
    }
}

/// Measurement link parameter configuration.
#[derive(Clone, Copy)]
pub struct SleMeasLinkParam {
    /// Connection handle for the measurement link.
    pub handle: u16,
    /// Measurement type to configure.
    pub meas_type: u8,
    /// Configuration index (0-based).
    pub config_index: u8,
    /// Measurement interval in 10 ms units.
    pub interval: u16,
    /// Duration in 10 ms units (0 = continuous).
    pub duration: u16,
}

impl Default for SleMeasLinkParam {
    fn default() -> (r: Self)
        ensures
            r.handle == 0,
            r.meas_type == 0,
            r.config_index == 0,
            r.interval == 0,
            r.duration == 0,
    {
        SleMeasLinkParam {
            handle: 0,
            meas_type: 0,
            config_index: 0,
            interval: 0,
            duration: 0,
        }
    }
}

impl CheckReserved for SleMeasLinkParam {
    open spec fn clean(&self) -> bool {
        true
    }

    fn check_reserved(&self) -> (r: Result<(), Errno>) {
        Ok(())
    }
}

/// Measurement action command (start/stop).
#[derive(Clone, Copy)]
pub struct SleMeasAction {
    /// Connection handle.
    pub handle: u16,
    /// Action: 0 = stop, 1 = start.
    pub action: u8,
    /// Configuration index.
    pub config_index: u8,
}

impl Default for SleMeasAction {
    fn default() -> (r: Self)
        ensures
            r.handle == 0,
            r.action == 0,
            r.config_index == 0,
    {
        SleMeasAction {
            handle: 0,
            action: 0,
            config_index: 0,
        }
    }
}

impl CheckReserved for SleMeasAction {
    open spec fn clean(&self) -> bool {
        true
    }

    fn check_reserved(&self) -> (r: Result<(), Errno>) {
        Ok(())
    }
}

} // verus!
