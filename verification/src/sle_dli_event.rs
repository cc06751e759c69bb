//! The fixed-size form in which controller events are handed to applications.

use vstd::prelude::*;

use crate::bytes;
use crate::sle_dli::SleEvent;

verus! {

/// A controller event in its fixed-size form.
#[derive(Clone, Copy, Debug)]
pub struct SleDliEvent {
    /// Kind of the event.
    pub event_type: u8,
    /// Status byte, 0 where the event has none.
    pub status: u8,
    /// Handle of the link, 0 where the event has none.
    pub handle: u16,
    /// Opcode of the command, or the signal, that the event belongs to.
    pub opcode: u16,
    /// Number of bytes of `data` in use.
    pub data_len: u16,
    /// Payload, filled up with zeros.
    pub data: [u8; 240],
    /// Address of the device, zero where the event has none.
    pub addr: [u8; 6],
    /// Padding, always zero.
    pub pad: [u8; 2],
}

/// The kind byte of an event.
pub open spec fn event_type(ev: SleEvent) -> u8 {
    match ev {
        SleEvent::CommandComplete { .. } => 0x01,
        SleEvent::CommandStatus { .. } => 0x02,
        SleEvent::AdvReport { .. } => 0x03,
        SleEvent::ConnComplete { .. } => 0x04,
        SleEvent::DataReceived { .. } => 0x05,
        SleEvent::Disconnected { .. } => 0x06,
        SleEvent::EncryptionChanged { .. } => 0x07,
        SleEvent::PairRequest { .. } => 0x08,
        SleEvent::HardwareError { .. } => 0x09,
        SleEvent::BroadcastEnd { .. } => 0x0A,
        SleEvent::PhyUpdate { .. } => 0x0B,
        SleEvent::ConnParamUpdate { .. } => 0x0C,
        SleEvent::DataLenChange { .. } => 0x0D,
        SleEvent::DataBufOverflow { .. } => 0x0E,
        SleEvent::PeerConnParamReq { .. } => 0x0F,
        SleEvent::PowerChangeReport { .. } => 0x10,
        SleEvent::NumCompletedPackets { .. } => 0x11,
        SleEvent::EncryptionParamReq { .. } => 0x12,
        SleEvent::ControllerSignalData { .. } => 0x13,
        SleEvent::ReadPeerFeatures { .. } => 0x14,
        SleEvent::ReadPeerVersion { .. } => 0x15,
        SleEvent::ReadPeerPower { .. } => 0x16,
        SleEvent::InquiryRequestReport { .. } => 0x17,
        SleEvent::PairInfoExchange { .. } => 0x18,
        SleEvent::PairInfoReport { .. } => 0x19,
        SleEvent::PairOptionReport { .. } => 0x1A,
        SleEvent::PeerPublicKey { .. } => 0x1B,
        SleEvent::PairExtData { .. } => 0x1C,
        SleEvent::KeypressNotify { .. } => 0x1D,
        SleEvent::PairRandom { .. } => 0x1E,
        SleEvent::PairConfirm { .. } => 0x1F,
        SleEvent::DHKeyCheck { .. } => 0x20,
        SleEvent::PairFailure { .. } => 0x21,
        SleEvent::NarrowbandMeasInfo { .. } => 0x22,
        SleEvent::NarrowbandMeasStateChange { .. } => 0x23,
        SleEvent::NarrowbandMeasParamReport { .. } => 0x24,
        SleEvent::LocalNarrowbandMeasCap { .. } => 0x25,
        SleEvent::PeerNarrowbandMeasCap { .. } => 0x26,
        SleEvent::MeasStateChange { .. } => 0x27,
        SleEvent::MeasQuantityReport { .. } => 0x28,
        SleEvent::SlbAdvReport { .. } => 0x29,
        SleEvent::SlbConnComplete { .. } => 0x2A,
        SleEvent::SlbUcastChannelComplete { .. } => 0x2B,
        SleEvent::SlbUcastChannelUpdate { .. } => 0x2C,
        SleEvent::SlbChannelDelete { .. } => 0x2D,
        SleEvent::SlbNumCompletedPackets { .. } => 0x2E,
        SleEvent::TimeSyncStatusUpdate { .. } => 0x2F,
        SleEvent::TimeSyncRequest { .. } => 0x30,
        SleEvent::SyncUcastSetupRequest { .. } => 0x31,
        SleEvent::SyncUcastSetupComplete { .. } => 0x32,
        SleEvent::SyncMcastSetupRequest { .. } => 0x33,
        SleEvent::SyncMcastSetupComplete { .. } => 0x34,
    }
}

/// The status byte of an event.
pub open spec fn event_status(ev: SleEvent) -> u8 {
    match ev {
        SleEvent::CommandComplete { status, .. } => status.code(),
        SleEvent::CommandStatus { status, .. } => status.code(),
        SleEvent::ConnComplete { status, .. } => status.code(),
        SleEvent::ReadPeerFeatures { status, .. } => status,
        SleEvent::ReadPeerVersion { status, .. } => status,
        SleEvent::ReadPeerPower { status, .. } => status,
        SleEvent::NarrowbandMeasInfo { status, .. } => status,
        SleEvent::NarrowbandMeasStateChange { status, .. } => status,
        SleEvent::NarrowbandMeasParamReport { status, .. } => status,
        SleEvent::LocalNarrowbandMeasCap { status, .. } => status,
        SleEvent::PeerNarrowbandMeasCap { status, .. } => status,
        SleEvent::MeasStateChange { status, .. } => status,
        SleEvent::SlbConnComplete { status, .. } => status,
        SleEvent::SlbUcastChannelComplete { status, .. } => status,
        SleEvent::SlbUcastChannelUpdate { status, .. } => status,
        SleEvent::SlbChannelDelete { status, .. } => status,
        SleEvent::SyncUcastSetupComplete { status, .. } => status,
        SleEvent::SyncMcastSetupComplete { status, .. } => status,
        _ => 0,
    }
}

/// The handle that an event belongs to.
pub open spec fn event_handle(ev: SleEvent) -> u16 {
    match ev {
        SleEvent::ConnComplete { handle, .. } => handle,
        SleEvent::DataReceived { handle, .. } => handle,
        SleEvent::Disconnected { handle, .. } => handle,
        SleEvent::EncryptionChanged { handle, .. } => handle,
        SleEvent::PhyUpdate { handle, .. } => handle,
        SleEvent::ConnParamUpdate { handle, .. } => handle,
        SleEvent::DataLenChange { handle, .. } => handle,
        SleEvent::PeerConnParamReq { handle, .. } => handle,
        SleEvent::PowerChangeReport { handle, .. } => handle,
        SleEvent::NumCompletedPackets { handle, .. } => handle,
        SleEvent::EncryptionParamReq { handle } => handle,
        SleEvent::ControllerSignalData { handle, .. } => handle,
        SleEvent::ReadPeerFeatures { handle, .. } => handle,
        SleEvent::ReadPeerVersion { handle, .. } => handle,
        SleEvent::ReadPeerPower { handle, .. } => handle,
        SleEvent::PairInfoExchange { handle, .. } => handle,
        SleEvent::PairInfoReport { handle, .. } => handle,
        SleEvent::PairOptionReport { handle, .. } => handle,
        SleEvent::PeerPublicKey { handle, .. } => handle,
        SleEvent::PairExtData { handle, .. } => handle,
        SleEvent::KeypressNotify { handle, .. } => handle,
        SleEvent::PairRandom { handle, .. } => handle,
        SleEvent::PairConfirm { handle, .. } => handle,
        SleEvent::DHKeyCheck { handle, .. } => handle,
        SleEvent::PairFailure { handle, .. } => handle,
        SleEvent::NarrowbandMeasInfo { handle, .. } => handle,
        SleEvent::NarrowbandMeasParamReport { handle, .. } => handle,
        SleEvent::PeerNarrowbandMeasCap { handle, .. } => handle,
        SleEvent::SlbConnComplete { handle, .. } => handle,
        SleEvent::SlbUcastChannelComplete { channel_handle, .. } => channel_handle,
        SleEvent::SlbUcastChannelUpdate { channel_handle, .. } => channel_handle,
        SleEvent::SlbChannelDelete { channel_handle, .. } => channel_handle,
        SleEvent::SlbNumCompletedPackets { channel_handle, .. } => channel_handle,
        SleEvent::SyncUcastSetupRequest { async_handle, .. } => async_handle,
        SleEvent::SyncUcastSetupComplete { async_handle, .. } => async_handle,
        SleEvent::SyncMcastSetupRequest { async_handle, .. } => async_handle,
        SleEvent::SyncMcastSetupComplete { async_handle, .. } => async_handle,
        _ => 0,
    }
}

/// The opcode or signal that an event belongs to.
pub open spec fn event_opcode(ev: SleEvent) -> u16 {
    match ev {
        SleEvent::CommandComplete { opcode, .. } => opcode.code(),
        SleEvent::CommandStatus { opcode, .. } => opcode.code(),
        SleEvent::ControllerSignalData { signal_id, .. } => signal_id,
        _ => 0,
    }
}

/// The address that an event names.
pub open spec fn event_addr(ev: SleEvent) -> Seq<u8> {
    match ev {
        SleEvent::AdvReport { addr, .. } => addr@,
        SleEvent::ConnComplete { addr, .. } => addr@,
        SleEvent::PairRequest { addr, .. } => addr@,
        SleEvent::InquiryRequestReport { addr, .. } => addr@,
        SleEvent::SlbAdvReport { mac_addr, .. } => mac_addr@,
        SleEvent::SlbConnComplete { peer_addr, .. } => peer_addr@,
        _ => bytes::zeros(6),
    }
}

/// The payload of an event: its other fields in order, numbers in little-endian
/// form. Data of any length is cut to what still fits, a coordinate of a public
/// key takes 32 bytes.
pub open spec fn event_payload(ev: SleEvent) -> Seq<u8> {
    match ev {
        SleEvent::CommandComplete { data, .. } => bytes::prefix(data@, 240),
        SleEvent::CommandStatus { .. } => Seq::empty(),
        SleEvent::AdvReport { rssi, discovery_level, data, .. } => seq![bytes::i8_byte(rssi), discovery_level] + bytes::prefix(data@, 238),
        SleEvent::ConnComplete { .. } => Seq::empty(),
        SleEvent::DataReceived { data, .. } => bytes::prefix(data@, 240),
        SleEvent::Disconnected { reason, .. } => seq![reason],
        SleEvent::EncryptionChanged { enabled, .. } => seq![bytes::bool_byte(enabled)],
        SleEvent::PairRequest { method, .. } => seq![method],
        SleEvent::HardwareError { code } => seq![code],
        SleEvent::BroadcastEnd { reason } => seq![reason],
        SleEvent::PhyUpdate { mcs_index, bandwidth_mhz, .. } => seq![mcs_index, bandwidth_mhz],
        SleEvent::ConnParamUpdate { interval, latency, timeout, .. } => seq![bytes::lo8(interval), bytes::hi8(interval), bytes::lo8(latency), bytes::hi8(latency), bytes::lo8(timeout), bytes::hi8(timeout)],
        SleEvent::DataLenChange { max_tx_octets, max_rx_octets, .. } => seq![bytes::lo8(max_tx_octets), bytes::hi8(max_tx_octets), bytes::lo8(max_rx_octets), bytes::hi8(max_rx_octets)],
        SleEvent::DataBufOverflow { link_type } => seq![link_type],
        SleEvent::PeerConnParamReq { interval_min, interval_max, latency, timeout, .. } => seq![bytes::lo8(interval_min), bytes::hi8(interval_min), bytes::lo8(interval_max), bytes::hi8(interval_max), bytes::lo8(latency), bytes::hi8(latency), bytes::lo8(timeout), bytes::hi8(timeout)],
        SleEvent::PowerChangeReport { reason, frame_type, bandwidth, pilot_density, tx_power, power_level, offset, .. } => seq![reason, frame_type, bandwidth, pilot_density, bytes::i8_byte(tx_power), power_level, bytes::i8_byte(offset)],
        SleEvent::NumCompletedPackets { num_completed, .. } => seq![num_completed],
        SleEvent::EncryptionParamReq { .. } => Seq::empty(),
        SleEvent::ControllerSignalData { data, .. } => bytes::prefix(data@, 240),
        SleEvent::ReadPeerFeatures { features, .. } => features@,
        SleEvent::ReadPeerVersion { version, manufacturer, subversion, .. } => seq![version, bytes::lo8(manufacturer), bytes::hi8(manufacturer), bytes::lo8(subversion), bytes::hi8(subversion)],
        SleEvent::ReadPeerPower { frame_type, bandwidth, pilot_density, tx_power, power_level, .. } => seq![frame_type, bandwidth, pilot_density, bytes::i8_byte(tx_power), power_level],
        SleEvent::InquiryRequestReport { adv_handle, addr_type, rssi, data, .. } => seq![adv_handle, addr_type, bytes::i8_byte(rssi)] + bytes::prefix(data@, 237),
        SleEvent::PairInfoExchange { io_cap, oob_flag, auth_req, max_key_len, sec_dist, psk_ind, crypto_cap, .. } => seq![io_cap, oob_flag, auth_req, max_key_len, sec_dist, psk_ind] + crypto_cap@,
        SleEvent::PairInfoReport { io_cap, oob_flag, auth_req, max_key_len, sec_dist, psk_ind, crypto_cap, .. } => seq![io_cap, oob_flag, auth_req, max_key_len, sec_dist, psk_ind] + crypto_cap@,
        SleEvent::PairOptionReport { key_len, auth_method, crypto_alg, public_key, .. } => seq![key_len, auth_method] + crypto_alg@ + bytes::prefix(public_key@, 32),
        SleEvent::PeerPublicKey { public_key, .. } => bytes::prefix(public_key@, 32),
        SleEvent::PairExtData { ext_pubkey_x, ext_pubkey_y, .. } => bytes::padded(ext_pubkey_x@, 32) + bytes::prefix(ext_pubkey_y@, 32),
        SleEvent::KeypressNotify { action, .. } => action@,
        SleEvent::PairRandom { random, .. } => random@,
        SleEvent::PairConfirm { confirm, .. } => confirm@,
        SleEvent::DHKeyCheck { dhkey_check, .. } => dhkey_check@,
        SleEvent::PairFailure { reason, .. } => seq![reason],
        SleEvent::NarrowbandMeasInfo { meas_type, config_index, .. } => seq![bytes::lo8(meas_type), bytes::hi8(meas_type), config_index],
        SleEvent::NarrowbandMeasStateChange { config_index, meas_state, .. } => seq![config_index, meas_state],
        SleEvent::NarrowbandMeasParamReport { config_index, .. } => seq![config_index],
        SleEvent::LocalNarrowbandMeasCap { antenna_count, signal_cap, report_cap, .. } => seq![antenna_count] + signal_cap@ + report_cap@,
        SleEvent::PeerNarrowbandMeasCap { antenna_count, signal_cap, report_cap, .. } => seq![antenna_count] + signal_cap@ + report_cap@,
        SleEvent::MeasStateChange { source, instance_handle, instance_state, .. } => seq![bytes::lo8(source), bytes::hi8(source), instance_handle, instance_state],
        SleEvent::MeasQuantityReport { source, meas_source, seq, instance_handle, meas_count } => seq![bytes::lo8(source), bytes::hi8(source), bytes::lo8(meas_source), bytes::hi8(meas_source), bytes::lo8(seq), bytes::hi8(seq), instance_handle, meas_count],
        SleEvent::SlbAdvReport { channel, bandwidth, rssi, data, .. } => seq![bytes::lo8(channel), bytes::hi8(channel), bandwidth, bytes::i8_byte(rssi)] + bytes::prefix(data@, 236),
        SleEvent::SlbConnComplete { .. } => Seq::empty(),
        SleEvent::SlbUcastChannelComplete { conn_handle, max_pkt_len, max_pkt_count, .. } => seq![bytes::lo8(conn_handle), bytes::hi8(conn_handle), bytes::lo8(max_pkt_len), bytes::hi8(max_pkt_len), bytes::lo8(max_pkt_count), bytes::hi8(max_pkt_count)],
        SleEvent::SlbUcastChannelUpdate { max_pkt_len, max_pkt_count, .. } => seq![bytes::lo8(max_pkt_len), bytes::hi8(max_pkt_len), bytes::lo8(max_pkt_count), bytes::hi8(max_pkt_count)],
        SleEvent::SlbChannelDelete { .. } => Seq::empty(),
        SleEvent::SlbNumCompletedPackets { num_completed, .. } => seq![num_completed],
        SleEvent::TimeSyncStatusUpdate { sync_status, clock_source, accuracy } => seq![sync_status, clock_source] + bytes::le32_bytes(accuracy),
        SleEvent::TimeSyncRequest { time_seq, send_time } => bytes::le32_bytes(time_seq) + send_time@,
        SleEvent::SyncUcastSetupRequest { sync_handle, event_group_set_id, event_group_id, .. } => seq![bytes::lo8(sync_handle), bytes::hi8(sync_handle), event_group_set_id, event_group_id],
        SleEvent::SyncUcastSetupComplete { sync_handle, .. } => seq![bytes::lo8(sync_handle), bytes::hi8(sync_handle)],
        SleEvent::SyncMcastSetupRequest { sync_handle, .. } => seq![bytes::lo8(sync_handle), bytes::hi8(sync_handle)],
        SleEvent::SyncMcastSetupComplete { sync_handle, .. } => seq![bytes::lo8(sync_handle), bytes::hi8(sync_handle)],
    }
}

/// A payload never exceeds the data field.
pub proof fn event_payload_fits(ev: SleEvent)
    ensures
        event_payload(ev).len() <= 240,
{
}

impl SleDliEvent {
    /// The bytes of the payload.
    pub open spec fn payload(self) -> Seq<u8> {
        self.data@.take(self.data_len as int)
    }
}

impl Default for SleDliEvent {
    fn default() -> (r: Self)
        ensures
            r.event_type == 0,
            r.status == 0,
            r.handle == 0,
            r.opcode == 0,
            r.data_len == 0,
            r.data@ == bytes::zeros(240),
            r.addr@ == bytes::zeros(6),
            r.pad@ == bytes::zeros(2),
    {
        SleDliEvent {
            event_type: 0,
            status: 0,
            handle: 0,
            opcode: 0,
            data_len: 0,
            data: [0u8; 240],
            addr: [0u8; 6],
            pad: [0u8; 2],
        }
    }
}

fn type_of(ev: &SleEvent) -> (r: u8)
    ensures
        r == event_type(*ev),
{
    match ev {
        SleEvent::CommandComplete { .. } => 0x01,
        SleEvent::CommandStatus { .. } => 0x02,
        SleEvent::AdvReport { .. } => 0x03,
        SleEvent::ConnComplete { .. } => 0x04,
        SleEvent::DataReceived { .. } => 0x05,
        SleEvent::Disconnected { .. } => 0x06,
        SleEvent::EncryptionChanged { .. } => 0x07,
        SleEvent::PairRequest { .. } => 0x08,
        SleEvent::HardwareError { .. } => 0x09,
        SleEvent::BroadcastEnd { .. } => 0x0A,
        SleEvent::PhyUpdate { .. } => 0x0B,
        SleEvent::ConnParamUpdate { .. } => 0x0C,
        SleEvent::DataLenChange { .. } => 0x0D,
        SleEvent::DataBufOverflow { .. } => 0x0E,
        SleEvent::PeerConnParamReq { .. } => 0x0F,
        SleEvent::PowerChangeReport { .. } => 0x10,
        SleEvent::NumCompletedPackets { .. } => 0x11,
        SleEvent::EncryptionParamReq { .. } => 0x12,
        SleEvent::ControllerSignalData { .. } => 0x13,
        SleEvent::ReadPeerFeatures { .. } => 0x14,
        SleEvent::ReadPeerVersion { .. } => 0x15,
        SleEvent::ReadPeerPower { .. } => 0x16,
        SleEvent::InquiryRequestReport { .. } => 0x17,
        SleEvent::PairInfoExchange { .. } => 0x18,
        SleEvent::PairInfoReport { .. } => 0x19,
        SleEvent::PairOptionReport { .. } => 0x1A,
        SleEvent::PeerPublicKey { .. } => 0x1B,
        SleEvent::PairExtData { .. } => 0x1C,
        SleEvent::KeypressNotify { .. } => 0x1D,
        SleEvent::PairRandom { .. } => 0x1E,
        SleEvent::PairConfirm { .. } => 0x1F,
        SleEvent::DHKeyCheck { .. } => 0x20,
        SleEvent::PairFailure { .. } => 0x21,
        SleEvent::NarrowbandMeasInfo { .. } => 0x22,
        SleEvent::NarrowbandMeasStateChange { .. } => 0x23,
        SleEvent::NarrowbandMeasParamReport { .. } => 0x24,
        SleEvent::LocalNarrowbandMeasCap { .. } => 0x25,
        SleEvent::PeerNarrowbandMeasCap { .. } => 0x26,
        SleEvent::MeasStateChange { .. } => 0x27,
        SleEvent::MeasQuantityReport { .. } => 0x28,
        SleEvent::SlbAdvReport { .. } => 0x29,
        SleEvent::SlbConnComplete { .. } => 0x2A,
        SleEvent::SlbUcastChannelComplete { .. } => 0x2B,
        SleEvent::SlbUcastChannelUpdate { .. } => 0x2C,
        SleEvent::SlbChannelDelete { .. } => 0x2D,
        SleEvent::SlbNumCompletedPackets { .. } => 0x2E,
        SleEvent::TimeSyncStatusUpdate { .. } => 0x2F,
        SleEvent::TimeSyncRequest { .. } => 0x30,
        SleEvent::SyncUcastSetupRequest { .. } => 0x31,
        SleEvent::SyncUcastSetupComplete { .. } => 0x32,
        SleEvent::SyncMcastSetupRequest { .. } => 0x33,
        SleEvent::SyncMcastSetupComplete { .. } => 0x34,
    }
}

fn status_of(ev: &SleEvent) -> (r: u8)
    ensures
        r == event_status(*ev),
{
    match ev {
        SleEvent::CommandComplete { status, .. } => status.code(),
        SleEvent::CommandStatus { status, .. } => status.code(),
        SleEvent::ConnComplete { status, .. } => status.code(),
        SleEvent::ReadPeerFeatures { status, .. } => *status,
        SleEvent::ReadPeerVersion { status, .. } => *status,
        SleEvent::ReadPeerPower { status, .. } => *status,
        SleEvent::NarrowbandMeasInfo { status, .. } => *status,
        SleEvent::NarrowbandMeasStateChange { status, .. } => *status,
        SleEvent::NarrowbandMeasParamReport { status, .. } => *status,
        SleEvent::LocalNarrowbandMeasCap { status, .. } => *status,
        SleEvent::PeerNarrowbandMeasCap { status, .. } => *status,
        SleEvent::MeasStateChange { status, .. } => *status,
        SleEvent::SlbConnComplete { status, .. } => *status,
        SleEvent::SlbUcastChannelComplete { status, .. } => *status,
        SleEvent::SlbUcastChannelUpdate { status, .. } => *status,
        SleEvent::SlbChannelDelete { status, .. } => *status,
        SleEvent::SyncUcastSetupComplete { status, .. } => *status,
        SleEvent::SyncMcastSetupComplete { status, .. } => *status,
        _ => 0,
    }
}

fn handle_of(ev: &SleEvent) -> (r: u16)
    ensures
        r == event_handle(*ev),
{
    match ev {
        SleEvent::ConnComplete { handle, .. } => *handle,
        SleEvent::DataReceived { handle, .. } => *handle,
        SleEvent::Disconnected { handle, .. } => *handle,
        SleEvent::EncryptionChanged { handle, .. } => *handle,
        SleEvent::PhyUpdate { handle, .. } => *handle,
        SleEvent::ConnParamUpdate { handle, .. } => *handle,
        SleEvent::DataLenChange { handle, .. } => *handle,
        SleEvent::PeerConnParamReq { handle, .. } => *handle,
        SleEvent::PowerChangeReport { handle, .. } => *handle,
        SleEvent::NumCompletedPackets { handle, .. } => *handle,
        SleEvent::EncryptionParamReq { handle } => *handle,
        SleEvent::ControllerSignalData { handle, .. } => *handle,
        SleEvent::ReadPeerFeatures { handle, .. } => *handle,
        SleEvent::ReadPeerVersion { handle, .. } => *handle,
        SleEvent::ReadPeerPower { handle, .. } => *handle,
        SleEvent::PairInfoExchange { handle, .. } => *handle,
        SleEvent::PairInfoReport { handle, .. } => *handle,
        SleEvent::PairOptionReport { handle, .. } => *handle,
        SleEvent::PeerPublicKey { handle, .. } => *handle,
        SleEvent::PairExtData { handle, .. } => *handle,
        SleEvent::KeypressNotify { handle, .. } => *handle,
        SleEvent::PairRandom { handle, .. } => *handle,
        SleEvent::PairConfirm { handle, .. } => *handle,
        SleEvent::DHKeyCheck { handle, .. } => *handle,
        SleEvent::PairFailure { handle, .. } => *handle,
        SleEvent::NarrowbandMeasInfo { handle, .. } => *handle,
        SleEvent::NarrowbandMeasParamReport { handle, .. } => *handle,
        SleEvent::PeerNarrowbandMeasCap { handle, .. } => *handle,
        SleEvent::SlbConnComplete { handle, .. } => *handle,
        SleEvent::SlbUcastChannelComplete { channel_handle, .. } => *channel_handle,
        SleEvent::SlbUcastChannelUpdate { channel_handle, .. } => *channel_handle,
        SleEvent::SlbChannelDelete { channel_handle, .. } => *channel_handle,
        SleEvent::SlbNumCompletedPackets { channel_handle, .. } => *channel_handle,
        SleEvent::SyncUcastSetupRequest { async_handle, .. } => *async_handle,
        SleEvent::SyncUcastSetupComplete { async_handle, .. } => *async_handle,
        SleEvent::SyncMcastSetupRequest { async_handle, .. } => *async_handle,
        SleEvent::SyncMcastSetupComplete { async_handle, .. } => *async_handle,
        _ => 0,
    }
}

fn opcode_of(ev: &SleEvent) -> (r: u16)
    ensures
        r == event_opcode(*ev),
{
    match ev {
        SleEvent::CommandComplete { opcode, .. } => opcode.code(),
        SleEvent::CommandStatus { opcode, .. } => opcode.code(),
        SleEvent::ControllerSignalData { signal_id, .. } => *signal_id,
        _ => 0,
    }
}

fn addr_of(ev: &SleEvent) -> (r: [u8; 6])
    ensures
        r@ == event_addr(*ev),
{
    match ev {
        SleEvent::AdvReport { addr, .. } => *addr,
        SleEvent::ConnComplete { addr, .. } => *addr,
        SleEvent::PairRequest { addr, .. } => *addr,
        SleEvent::InquiryRequestReport { addr, .. } => *addr,
        SleEvent::SlbAdvReport { mac_addr, .. } => *mac_addr,
        SleEvent::SlbConnComplete { peer_addr, .. } => *peer_addr,
        _ => [0u8; 6],
    }
}

fn payload_of(ev: &SleEvent) -> (r: Vec<u8>)
    ensures
        r@ == event_payload(*ev),
{
    match ev {
        SleEvent::CommandComplete { data, .. } => bytes::to_prefix(data.as_slice(), 240),
        SleEvent::CommandStatus { .. } => Vec::new(),
        SleEvent::AdvReport { rssi, discovery_level, data, .. } => {
            let mut v: Vec<u8> = vec![bytes::i8_byte(*rssi), *discovery_level];
            let t = bytes::to_prefix(data.as_slice(), 238);
            bytes::extend(&mut v, t.as_slice());
            v
        },
        SleEvent::ConnComplete { .. } => Vec::new(),
        SleEvent::DataReceived { data, .. } => bytes::to_prefix(data.as_slice(), 240),
        SleEvent::Disconnected { reason, .. } => vec![*reason],
        SleEvent::EncryptionChanged { enabled, .. } => vec![bytes::bool_byte(*enabled)],
        SleEvent::PairRequest { method, .. } => vec![*method],
        SleEvent::HardwareError { code } => vec![*code],
        SleEvent::BroadcastEnd { reason } => vec![*reason],
        SleEvent::PhyUpdate { mcs_index, bandwidth_mhz, .. } => vec![*mcs_index, *bandwidth_mhz],
        SleEvent::ConnParamUpdate { interval, latency, timeout, .. } => vec![bytes::lo8(*interval), bytes::hi8(*interval), bytes::lo8(*latency), bytes::hi8(*latency), bytes::lo8(*timeout), bytes::hi8(*timeout)],
        SleEvent::DataLenChange { max_tx_octets, max_rx_octets, .. } => vec![bytes::lo8(*max_tx_octets), bytes::hi8(*max_tx_octets), bytes::lo8(*max_rx_octets), bytes::hi8(*max_rx_octets)],
        SleEvent::DataBufOverflow { link_type } => vec![*link_type],
        SleEvent::PeerConnParamReq { interval_min, interval_max, latency, timeout, .. } => vec![bytes::lo8(*interval_min), bytes::hi8(*interval_min), bytes::lo8(*interval_max), bytes::hi8(*interval_max), bytes::lo8(*latency), bytes::hi8(*latency), bytes::lo8(*timeout), bytes::hi8(*timeout)],
        SleEvent::PowerChangeReport { reason, frame_type, bandwidth, pilot_density, tx_power, power_level, offset, .. } => vec![*reason, *frame_type, *bandwidth, *pilot_density, bytes::i8_byte(*tx_power), *power_level, bytes::i8_byte(*offset)],
        SleEvent::NumCompletedPackets { num_completed, .. } => vec![*num_completed],
        SleEvent::EncryptionParamReq { .. } => Vec::new(),
        SleEvent::ControllerSignalData { data, .. } => bytes::to_prefix(data.as_slice(), 240),
        SleEvent::ReadPeerFeatures { features, .. } => bytes::to_vec(features.as_slice()),
        SleEvent::ReadPeerVersion { version, manufacturer, subversion, .. } => vec![*version, bytes::lo8(*manufacturer), bytes::hi8(*manufacturer), bytes::lo8(*subversion), bytes::hi8(*subversion)],
        SleEvent::ReadPeerPower { frame_type, bandwidth, pilot_density, tx_power, power_level, .. } => vec![*frame_type, *bandwidth, *pilot_density, bytes::i8_byte(*tx_power), *power_level],
        SleEvent::InquiryRequestReport { adv_handle, addr_type, rssi, data, .. } => {
            let mut v: Vec<u8> = vec![*adv_handle, *addr_type, bytes::i8_byte(*rssi)];
            let t = bytes::to_prefix(data.as_slice(), 237);
            bytes::extend(&mut v, t.as_slice());
            v
        },
        SleEvent::PairInfoExchange { io_cap, oob_flag, auth_req, max_key_len, sec_dist, psk_ind, crypto_cap, .. } => {
            let mut v: Vec<u8> = vec![*io_cap, *oob_flag, *auth_req, *max_key_len, *sec_dist, *psk_ind];
            bytes::extend(&mut v, crypto_cap.as_slice());
            v
        },
        SleEvent::PairInfoReport { io_cap, oob_flag, auth_req, max_key_len, sec_dist, psk_ind, crypto_cap, .. } => {
            let mut v: Vec<u8> = vec![*io_cap, *oob_flag, *auth_req, *max_key_len, *sec_dist, *psk_ind];
            bytes::extend(&mut v, crypto_cap.as_slice());
            v
        },
        SleEvent::PairOptionReport { key_len, auth_method, crypto_alg, public_key, .. } => {
            let mut v: Vec<u8> = vec![*key_len, *auth_method];
            bytes::extend(&mut v, crypto_alg.as_slice());
            let t = bytes::to_prefix(public_key.as_slice(), 32);
            bytes::extend(&mut v, t.as_slice());
            v
        },
        SleEvent::PeerPublicKey { public_key, .. } => bytes::to_prefix(public_key.as_slice(), 32),
        SleEvent::PairExtData { ext_pubkey_x, ext_pubkey_y, .. } => {
            let mut v: Vec<u8> = Vec::new();
            let t: [u8; 32] = bytes::to_array(ext_pubkey_x.as_slice());
            bytes::extend(&mut v, t.as_slice());
            let t = bytes::to_prefix(ext_pubkey_y.as_slice(), 32);
            bytes::extend(&mut v, t.as_slice());
            v
        },
        SleEvent::KeypressNotify { action, .. } => bytes::to_vec(action.as_slice()),
        SleEvent::PairRandom { random, .. } => bytes::to_vec(random.as_slice()),
        SleEvent::PairConfirm { confirm, .. } => bytes::to_vec(confirm.as_slice()),
        SleEvent::DHKeyCheck { dhkey_check, .. } => bytes::to_vec(dhkey_check.as_slice()),
        SleEvent::PairFailure { reason, .. } => vec![*reason],
        SleEvent::NarrowbandMeasInfo { meas_type, config_index, .. } => vec![bytes::lo8(*meas_type), bytes::hi8(*meas_type), *config_index],
        SleEvent::NarrowbandMeasStateChange { config_index, meas_state, .. } => vec![*config_index, *meas_state],
        SleEvent::NarrowbandMeasParamReport { config_index, .. } => vec![*config_index],
        SleEvent::LocalNarrowbandMeasCap { antenna_count, signal_cap, report_cap, .. } => {
            let mut v: Vec<u8> = vec![*antenna_count];
            bytes::extend(&mut v, signal_cap.as_slice());
            bytes::extend(&mut v, report_cap.as_slice());
            v
        },
        SleEvent::PeerNarrowbandMeasCap { antenna_count, signal_cap, report_cap, .. } => {
            let mut v: Vec<u8> = vec![*antenna_count];
            bytes::extend(&mut v, signal_cap.as_slice());
            bytes::extend(&mut v, report_cap.as_slice());
            v
        },
        SleEvent::MeasStateChange { source, instance_handle, instance_state, .. } => vec![bytes::lo8(*source), bytes::hi8(*source), *instance_handle, *instance_state],
        SleEvent::MeasQuantityReport { source, meas_source, seq, instance_handle, meas_count } => vec![bytes::lo8(*source), bytes::hi8(*source), bytes::lo8(*meas_source), bytes::hi8(*meas_source), bytes::lo8(*seq), bytes::hi8(*seq), *instance_handle, *meas_count],
        SleEvent::SlbAdvReport { channel, bandwidth, rssi, data, .. } => {
            let mut v: Vec<u8> = vec![bytes::lo8(*channel), bytes::hi8(*channel), *bandwidth, bytes::i8_byte(*rssi)];
            let t = bytes::to_prefix(data.as_slice(), 236);
            bytes::extend(&mut v, t.as_slice());
            v
        },
        SleEvent::SlbConnComplete { .. } => Vec::new(),
        SleEvent::SlbUcastChannelComplete { conn_handle, max_pkt_len, max_pkt_count, .. } => vec![bytes::lo8(*conn_handle), bytes::hi8(*conn_handle), bytes::lo8(*max_pkt_len), bytes::hi8(*max_pkt_len), bytes::lo8(*max_pkt_count), bytes::hi8(*max_pkt_count)],
        SleEvent::SlbUcastChannelUpdate { max_pkt_len, max_pkt_count, .. } => vec![bytes::lo8(*max_pkt_len), bytes::hi8(*max_pkt_len), bytes::lo8(*max_pkt_count), bytes::hi8(*max_pkt_count)],
        SleEvent::SlbChannelDelete { .. } => Vec::new(),
        SleEvent::SlbNumCompletedPackets { num_completed, .. } => vec![*num_completed],
        SleEvent::TimeSyncStatusUpdate { sync_status, clock_source, accuracy } => {
            let mut v: Vec<u8> = vec![*sync_status, *clock_source];
            bytes::push_le32(&mut v, *accuracy);
            v
        },
        SleEvent::TimeSyncRequest { time_seq, send_time } => {
            let mut v: Vec<u8> = Vec::new();
            bytes::push_le32(&mut v, *time_seq);
            bytes::extend(&mut v, send_time.as_slice());
            v
        },
        SleEvent::SyncUcastSetupRequest { sync_handle, event_group_set_id, event_group_id, .. } => vec![bytes::lo8(*sync_handle), bytes::hi8(*sync_handle), *event_group_set_id, *event_group_id],
        SleEvent::SyncUcastSetupComplete { sync_handle, .. } => vec![bytes::lo8(*sync_handle), bytes::hi8(*sync_handle)],
        SleEvent::SyncMcastSetupRequest { sync_handle, .. } => vec![bytes::lo8(*sync_handle), bytes::hi8(*sync_handle)],
        SleEvent::SyncMcastSetupComplete { sync_handle, .. } => vec![bytes::lo8(*sync_handle), bytes::hi8(*sync_handle)],
    }
}

/// Puts an event into its fixed-size form.
pub fn sle_dli_event_to_wire(ev: &SleEvent) -> (r: SleDliEvent)
    ensures
        r.event_type == event_type(*ev),
        r.status == event_status(*ev),
        r.handle == event_handle(*ev),
        r.opcode == event_opcode(*ev),
        r.addr@ == event_addr(*ev),
        r.data_len == event_payload(*ev).len(),
        r.data@ == bytes::padded(event_payload(*ev), 240),
        r.pad@ == bytes::zeros(2),
{
    let payload = payload_of(ev);
    proof {
        event_payload_fits(*ev);
    }
    SleDliEvent {
        event_type: type_of(ev),
        status: status_of(ev),
        handle: handle_of(ev),
        opcode: opcode_of(ev),
        data_len: payload.len() as u16,
        data: bytes::to_array(payload.as_slice()),
        addr: addr_of(ev),
        pad: [0u8; 2],
    }
}

/// The used part of the data field is exactly the payload of the event.
pub proof fn wire_keeps_payload(ev: SleEvent, w: SleDliEvent)
    requires
        w.data_len == event_payload(ev).len(),
        w.data@ == bytes::padded(event_payload(ev), 240),
    ensures
        w.payload() == event_payload(ev),
{
    event_payload_fits(ev);
    assert(w.payload() == event_payload(ev));
}

} // verus!
