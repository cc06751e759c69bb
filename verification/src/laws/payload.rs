//! Laws of what events tell: where each field stands among the bytes.

use vstd::prelude::*;

use crate::bytes;
use crate::event_payload::{
    ConnStateEvent, AdvReportEvent, DataReceivedEvent, SecurityEvent, PowerEvent,
    HardwareErrorEvent, CommandCompleteEvent, CommandStatusEvent, BroadcastEndEvent, PhyUpdateEvent,
    ConnParamUpdateEvent, DataLenChangeEvent, DataBufOverflowEvent, PeerConnParamReqEvent,
    PowerChangeReportEvent, NumCompletedPacketsEvent, EncryptionParamReqEvent,
    ControllerSignalDataEvent, ReadPeerFeaturesEvent, ReadPeerVersionEvent, ReadPeerPowerEvent,
    InquiryRequestReportEvent, PairRequestEvent, PairInfoEvent, PairOptionReportEvent,
    PeerPublicKeyReportEvent, PairExtDataReportEvent, KeypressNotificationEvent,
    PairRandomReportEvent, PairConfirmReportEvent, DHKeyCheckReportEvent, PairFailureReportEvent,
    NarrowbandMeasInfoEvent, NarrowbandMeasStateChangeEvent, NarrowbandMeasParamReportEvent,
    LocalNarrowbandMeasCapEvent, PeerNarrowbandMeasCapEvent, MeasStateChangeEvent,
    MeasQuantityReportEvent, SlbAdvReportEvent, SlbConnCompleteEvent, SlbUcastChannelCompleteEvent,
    SlbUcastChannelUpdateEvent, SlbChannelDeleteEvent, SlbNumCompletedPacketsEvent,
    TimeSyncStatusUpdateEvent, TimeSyncRequestEvent, SyncUcastSetupRequestEvent,
    SyncUcastSetupCompleteEvent, SyncMcastSetupRequestEvent, SyncMcastSetupCompleteEvent,
    EventPayload,
};

verus! {

/// The 16-bit number at place `o`, lowest byte first.
pub open spec fn w16(s: Seq<u8>, o: int) -> int {
    s[o] + 0x100 * s[o + 1]
}

/// The 32-bit number at place `o`, lowest byte first.
pub open spec fn w32(s: Seq<u8>, o: int) -> int {
    s[o] + 0x100 * s[o + 1] + 0x1_0000 * s[o + 2] + 0x100_0000 * s[o + 3]
}

/// The signed number at place `o`.
pub open spec fn s8(s: Seq<u8>, o: int) -> int {
    if s[o] < 0x80 {
        s[o] as int
    } else {
        s[o] - 0x100
    }
}

/// The bytes of a conn state event.
pub proof fn conn_state_layout(e: &ConnStateEvent, r: Vec<u8>)
    requires
        call_ensures(<ConnStateEvent as EventPayload>::to_bytes, (e,), r),
    ensures
        r@.len() == 12,
        w16(r@, 0) == e.handle,
        r@[2] == e.new_state,
        r@[3] == e.old_state,
        r@.subrange(4, 10) == e.peer_addr@,
        r@[10] == e.reason,
        r@[11] == e.pad,
{
    assert(r@.subrange(4, 10) =~= e.peer_addr@);
}

/// The bytes of an adv report event.
pub proof fn adv_report_layout(e: &AdvReportEvent, r: Vec<u8>)
    requires
        call_ensures(<AdvReportEvent as EventPayload>::to_bytes, (e,), r),
    ensures
        r@.len() == 40,
        r@.subrange(0, 6) == e.addr@,
        s8(r@, 6) == e.rssi,
        r@[7] == e.discovery_level,
        r@[8] == e.name_len,
        r@.subrange(9, 40) == e.name@,
{
    assert(r@.subrange(0, 6) =~= e.addr@);
    assert(r@.subrange(9, 40) =~= e.name@);
}

/// The bytes of a data received event.
pub proof fn data_received_layout(e: &DataReceivedEvent, r: Vec<u8>)
    requires
        call_ensures(<DataReceivedEvent as EventPayload>::to_bytes, (e,), r),
    ensures
        r@.len() == 4,
        w16(r@, 0) == e.handle,
        w16(r@, 2) == e.rx_bytes,
{
}

/// The bytes of a security event.
pub proof fn security_layout(e: &SecurityEvent, r: Vec<u8>)
    requires
        call_ensures(<SecurityEvent as EventPayload>::to_bytes, (e,), r),
    ensures
        r@.len() == 4,
        r@[0] == e.state,
        r@[1] == e.method,
        r@[2] == e.encrypted,
        r@[3] == e.pad,
{
}

/// The bytes of a power event.
pub proof fn power_layout(e: &PowerEvent, r: Vec<u8>)
    requires
        call_ensures(<PowerEvent as EventPayload>::to_bytes, (e,), r),
    ensures
        r@.len() == 4,
        r@[0] == e.state,
        r@[1] == e.power_pct,
        r@.subrange(2, 4) == e.pad@,
{
    assert(r@.subrange(2, 4) =~= e.pad@);
}

/// The bytes of a hardware error event.
pub proof fn hardware_error_layout(e: &HardwareErrorEvent, r: Vec<u8>)
    requires
        call_ensures(<HardwareErrorEvent as EventPayload>::to_bytes, (e,), r),
    ensures
        r@.len() == 4,
        r@[0] == e.error_code,
        r@.subrange(1, 4) == e.pad@,
{
    assert(r@.subrange(1, 4) =~= e.pad@);
}

/// The bytes of a command complete event.
pub proof fn command_complete_layout(e: &CommandCompleteEvent, r: Vec<u8>)
    requires
        call_ensures(<CommandCompleteEvent as EventPayload>::to_bytes, (e,), r),
    ensures
        r@.len() == 36,
        w16(r@, 0) == e.opcode,
        r@[2] == e.status,
        r@[3] == e.data_len,
        r@.subrange(4, 36) == e.data@,
{
    assert(r@.subrange(4, 36) =~= e.data@);
}

/// The bytes of a command status event.
pub proof fn command_status_layout(e: &CommandStatusEvent, r: Vec<u8>)
    requires
        call_ensures(<CommandStatusEvent as EventPayload>::to_bytes, (e,), r),
    ensures
        r@.len() == 4,
        w16(r@, 0) == e.opcode,
        r@[2] == e.status,
        r@[3] == e.pad,
{
}

/// The bytes of a broadcast end event.
pub proof fn broadcast_end_layout(e: &BroadcastEndEvent, r: Vec<u8>)
    requires
        call_ensures(<BroadcastEndEvent as EventPayload>::to_bytes, (e,), r),
    ensures
        r@.len() == 4,
        r@[0] == e.reason,
        r@.subrange(1, 4) == e.pad@,
{
    assert(r@.subrange(1, 4) =~= e.pad@);
}

/// The bytes of a phy update event.
pub proof fn phy_update_layout(e: &PhyUpdateEvent, r: Vec<u8>)
    requires
        call_ensures(<PhyUpdateEvent as EventPayload>::to_bytes, (e,), r),
    ensures
        r@.len() == 4,
        w16(r@, 0) == e.handle,
        r@[2] == e.mcs_index,
        r@[3] == e.bandwidth_mhz,
{
}

/// The bytes of a conn param update event.
pub proof fn conn_param_update_layout(e: &ConnParamUpdateEvent, r: Vec<u8>)
    requires
        call_ensures(<ConnParamUpdateEvent as EventPayload>::to_bytes, (e,), r),
    ensures
        r@.len() == 8,
        w16(r@, 0) == e.handle,
        w16(r@, 2) == e.interval,
        w16(r@, 4) == e.latency,
        w16(r@, 6) == e.timeout,
{
}

/// The bytes of a data len change event.
pub proof fn data_len_change_layout(e: &DataLenChangeEvent, r: Vec<u8>)
    requires
        call_ensures(<DataLenChangeEvent as EventPayload>::to_bytes, (e,), r),
    ensures
        r@.len() == 8,
        w16(r@, 0) == e.handle,
        w16(r@, 2) == e.max_tx_octets,
        w16(r@, 4) == e.max_rx_octets,
        w16(r@, 6) == e.pad,
{
}

/// The bytes of a data buf overflow event.
pub proof fn data_buf_overflow_layout(e: &DataBufOverflowEvent, r: Vec<u8>)
    requires
        call_ensures(<DataBufOverflowEvent as EventPayload>::to_bytes, (e,), r),
    ensures
        r@.len() == 4,
        r@[0] == e.link_type,
        r@.subrange(1, 4) == e.pad@,
{
    assert(r@.subrange(1, 4) =~= e.pad@);
}

/// The bytes of a peer conn param req event.
pub proof fn peer_conn_param_req_layout(e: &PeerConnParamReqEvent, r: Vec<u8>)
    requires
        call_ensures(<PeerConnParamReqEvent as EventPayload>::to_bytes, (e,), r),
    ensures
        r@.len() == 12,
        w16(r@, 0) == e.handle,
        w16(r@, 2) == e.interval_min,
        w16(r@, 4) == e.interval_max,
        w16(r@, 6) == e.latency,
        w16(r@, 8) == e.timeout,
        w16(r@, 10) == e.pad,
{
}

/// The bytes of a power change report event.
pub proof fn power_change_report_layout(e: &PowerChangeReportEvent, r: Vec<u8>)
    requires
        call_ensures(<PowerChangeReportEvent as EventPayload>::to_bytes, (e,), r),
    ensures
        r@.len() == 10,
        w16(r@, 0) == e.handle,
        r@[2] == e.reason,
        r@[3] == e.frame_type,
        r@[4] == e.bandwidth,
        r@[5] == e.pilot_density,
        s8(r@, 6) == e.tx_power,
        r@[7] == e.power_level,
        s8(r@, 8) == e.offset,
        r@[9] == e.pad,
{
}

/// The bytes of a num completed packets event.
pub proof fn num_completed_packets_layout(e: &NumCompletedPacketsEvent, r: Vec<u8>)
    requires
        call_ensures(<NumCompletedPacketsEvent as EventPayload>::to_bytes, (e,), r),
    ensures
        r@.len() == 4,
        w16(r@, 0) == e.handle,
        r@[2] == e.num_completed,
        r@[3] == e.pad,
{
}

/// The bytes of an encryption param req event.
pub proof fn encryption_param_req_layout(e: &EncryptionParamReqEvent, r: Vec<u8>)
    requires
        call_ensures(<EncryptionParamReqEvent as EventPayload>::to_bytes, (e,), r),
    ensures
        r@.len() == 4,
        w16(r@, 0) == e.handle,
        r@.subrange(2, 4) == e.pad@,
{
    assert(r@.subrange(2, 4) =~= e.pad@);
}

/// The bytes of a controller signal data event.
pub proof fn controller_signal_data_layout(e: &ControllerSignalDataEvent, r: Vec<u8>)
    requires
        call_ensures(<ControllerSignalDataEvent as EventPayload>::to_bytes, (e,), r),
    ensures
        r@.len() == 38,
        w16(r@, 0) == e.handle,
        w16(r@, 2) == e.signal_id,
        r@[4] == e.data_len,
        r@[5] == e.pad,
        r@.subrange(6, 38) == e.data@,
{
    assert(r@.subrange(6, 38) =~= e.data@);
}

/// The bytes of a read peer features event.
pub proof fn read_peer_features_layout(e: &ReadPeerFeaturesEvent, r: Vec<u8>)
    requires
        call_ensures(<ReadPeerFeaturesEvent as EventPayload>::to_bytes, (e,), r),
    ensures
        r@.len() == 14,
        w16(r@, 0) == e.handle,
        r@[2] == e.status,
        r@[3] == e.pad,
        r@.subrange(4, 14) == e.features@,
{
    assert(r@.subrange(4, 14) =~= e.features@);
}

/// The bytes of a read peer version event.
pub proof fn read_peer_version_layout(e: &ReadPeerVersionEvent, r: Vec<u8>)
    requires
        call_ensures(<ReadPeerVersionEvent as EventPayload>::to_bytes, (e,), r),
    ensures
        r@.len() == 8,
        w16(r@, 0) == e.handle,
        w16(r@, 2) == e.manufacturer,
        w16(r@, 4) == e.subversion,
        r@[6] == e.status,
        r@[7] == e.version,
{
}

/// The bytes of a read peer power event.
pub proof fn read_peer_power_layout(e: &ReadPeerPowerEvent, r: Vec<u8>)
    requires
        call_ensures(<ReadPeerPowerEvent as EventPayload>::to_bytes, (e,), r),
    ensures
        r@.len() == 8,
        w16(r@, 0) == e.handle,
        r@[2] == e.status,
        r@[3] == e.frame_type,
        r@[4] == e.bandwidth,
        r@[5] == e.pilot_density,
        s8(r@, 6) == e.tx_power,
        r@[7] == e.power_level,
{
}

/// The bytes of an inquiry request report event.
pub proof fn inquiry_request_report_layout(e: &InquiryRequestReportEvent, r: Vec<u8>)
    requires
        call_ensures(<InquiryRequestReportEvent as EventPayload>::to_bytes, (e,), r),
    ensures
        r@.len() == 12,
        r@.subrange(0, 6) == e.addr@,
        r@[6] == e.addr_type,
        r@[7] == e.adv_handle,
        s8(r@, 8) == e.rssi,
        r@[9] == e.data_len,
        r@.subrange(10, 12) == e.pad@,
{
    assert(r@.subrange(0, 6) =~= e.addr@);
    assert(r@.subrange(10, 12) =~= e.pad@);
}

/// The bytes of a pair request event.
pub proof fn pair_request_layout(e: &PairRequestEvent, r: Vec<u8>)
    requires
        call_ensures(<PairRequestEvent as EventPayload>::to_bytes, (e,), r),
    ensures
        r@.len() == 4,
        w16(r@, 0) == e.handle,
        r@[2] == e.auth_req,
        r@[3] == e.pad,
{
}

/// The bytes of a pair info event.
pub proof fn pair_info_layout(e: &PairInfoEvent, r: Vec<u8>)
    requires
        call_ensures(<PairInfoEvent as EventPayload>::to_bytes, (e,), r),
    ensures
        r@.len() == 12,
        w16(r@, 0) == e.handle,
        r@[2] == e.io_cap,
        r@[3] == e.oob_flag,
        r@[4] == e.auth_req,
        r@[5] == e.max_key_len,
        r@[6] == e.sec_dist,
        r@[7] == e.psk_ind,
        r@.subrange(8, 12) == e.crypto_cap@,
{
    assert(r@.subrange(8, 12) =~= e.crypto_cap@);
}

/// The bytes of a pair option report event.
pub proof fn pair_option_report_layout(e: &PairOptionReportEvent, r: Vec<u8>)
    requires
        call_ensures(<PairOptionReportEvent as EventPayload>::to_bytes, (e,), r),
    ensures
        r@.len() == 40,
        w16(r@, 0) == e.handle,
        r@[2] == e.key_len,
        r@[3] == e.auth_method,
        r@.subrange(4, 8) == e.crypto_alg@,
        r@.subrange(8, 40) == e.public_key@,
{
    assert(r@.subrange(4, 8) =~= e.crypto_alg@);
    assert(r@.subrange(8, 40) =~= e.public_key@);
}

/// The bytes of a peer public key report event.
pub proof fn peer_public_key_report_layout(e: &PeerPublicKeyReportEvent, r: Vec<u8>)
    requires
        call_ensures(<PeerPublicKeyReportEvent as EventPayload>::to_bytes, (e,), r),
    ensures
        r@.len() == 36,
        w16(r@, 0) == e.handle,
        r@.subrange(2, 4) == e.pad@,
        r@.subrange(4, 36) == e.public_key@,
{
    assert(r@.subrange(2, 4) =~= e.pad@);
    assert(r@.subrange(4, 36) =~= e.public_key@);
}

/// The bytes of a pair ext data report event.
pub proof fn pair_ext_data_report_layout(e: &PairExtDataReportEvent, r: Vec<u8>)
    requires
        call_ensures(<PairExtDataReportEvent as EventPayload>::to_bytes, (e,), r),
    ensures
        r@.len() == 40,
        w16(r@, 0) == e.handle,
        r@.subrange(2, 4) == e.pad@,
        r@.subrange(4, 40) == e.ext_key_data@,
{
    assert(r@.subrange(2, 4) =~= e.pad@);
    assert(r@.subrange(4, 40) =~= e.ext_key_data@);
}

/// The bytes of a keypress notification event.
pub proof fn keypress_notification_layout(e: &KeypressNotificationEvent, r: Vec<u8>)
    requires
        call_ensures(<KeypressNotificationEvent as EventPayload>::to_bytes, (e,), r),
    ensures
        r@.len() == 8,
        w16(r@, 0) == e.handle,
        r@.subrange(2, 4) == e.pad@,
        r@.subrange(4, 8) == e.action@,
{
    assert(r@.subrange(2, 4) =~= e.pad@);
    assert(r@.subrange(4, 8) =~= e.action@);
}

/// The bytes of a pair random report event.
pub proof fn pair_random_report_layout(e: &PairRandomReportEvent, r: Vec<u8>)
    requires
        call_ensures(<PairRandomReportEvent as EventPayload>::to_bytes, (e,), r),
    ensures
        r@.len() == 20,
        w16(r@, 0) == e.handle,
        r@.subrange(2, 4) == e.pad@,
        r@.subrange(4, 20) == e.random@,
{
    assert(r@.subrange(2, 4) =~= e.pad@);
    assert(r@.subrange(4, 20) =~= e.random@);
}

/// The bytes of a pair confirm report event.
pub proof fn pair_confirm_report_layout(e: &PairConfirmReportEvent, r: Vec<u8>)
    requires
        call_ensures(<PairConfirmReportEvent as EventPayload>::to_bytes, (e,), r),
    ensures
        r@.len() == 20,
        w16(r@, 0) == e.handle,
        r@.subrange(2, 4) == e.pad@,
        r@.subrange(4, 20) == e.confirm@,
{
    assert(r@.subrange(2, 4) =~= e.pad@);
    assert(r@.subrange(4, 20) =~= e.confirm@);
}

/// The bytes of a dh key check report event.
pub proof fn dh_key_check_report_layout(e: &DHKeyCheckReportEvent, r: Vec<u8>)
    requires
        call_ensures(<DHKeyCheckReportEvent as EventPayload>::to_bytes, (e,), r),
    ensures
        r@.len() == 20,
        w16(r@, 0) == e.handle,
        r@.subrange(2, 4) == e.pad@,
        r@.subrange(4, 20) == e.dhkey_check@,
{
    assert(r@.subrange(2, 4) =~= e.pad@);
    assert(r@.subrange(4, 20) =~= e.dhkey_check@);
}

/// The bytes of a pair failure report event.
pub proof fn pair_failure_report_layout(e: &PairFailureReportEvent, r: Vec<u8>)
    requires
        call_ensures(<PairFailureReportEvent as EventPayload>::to_bytes, (e,), r),
    ensures
        r@.len() == 4,
        w16(r@, 0) == e.handle,
        r@[2] == e.reason,
        r@[3] == e.pad,
{
}

/// The bytes of a narrowband meas info event.
pub proof fn narrowband_meas_info_layout(e: &NarrowbandMeasInfoEvent, r: Vec<u8>)
    requires
        call_ensures(<NarrowbandMeasInfoEvent as EventPayload>::to_bytes, (e,), r),
    ensures
        r@.len() == 8,
        w16(r@, 0) == e.handle,
        w16(r@, 2) == e.meas_type,
        r@[4] == e.status,
        r@[5] == e.config_index,
        r@.subrange(6, 8) == e.pad@,
{
    assert(r@.subrange(6, 8) =~= e.pad@);
}

/// The bytes of a narrowband meas state change event.
pub proof fn narrowband_meas_state_change_layout(e: &NarrowbandMeasStateChangeEvent, r: Vec<u8>)
    requires
        call_ensures(<NarrowbandMeasStateChangeEvent as EventPayload>::to_bytes, (e,), r),
    ensures
        r@.len() == 4,
        r@[0] == e.status,
        r@[1] == e.config_index,
        r@[2] == e.meas_state,
        r@[3] == e.pad,
{
}

/// The bytes of a narrowband meas param report event.
pub proof fn narrowband_meas_param_report_layout(e: &NarrowbandMeasParamReportEvent, r: Vec<u8>)
    requires
        call_ensures(<NarrowbandMeasParamReportEvent as EventPayload>::to_bytes, (e,), r),
    ensures
        r@.len() == 4,
        w16(r@, 0) == e.handle,
        r@[2] == e.status,
        r@[3] == e.config_index,
{
}

/// The bytes of a local narrowband meas cap event.
pub proof fn local_narrowband_meas_cap_layout(e: &LocalNarrowbandMeasCapEvent, r: Vec<u8>)
    requires
        call_ensures(<LocalNarrowbandMeasCapEvent as EventPayload>::to_bytes, (e,), r),
    ensures
        r@.len() == 10,
        r@[0] == e.status,
        r@[1] == e.antenna_count,
        r@.subrange(2, 6) == e.signal_cap@,
        r@.subrange(6, 10) == e.report_cap@,
{
    assert(r@.subrange(2, 6) =~= e.signal_cap@);
    assert(r@.subrange(6, 10) =~= e.report_cap@);
}

/// The bytes of a peer narrowband meas cap event.
pub proof fn peer_narrowband_meas_cap_layout(e: &PeerNarrowbandMeasCapEvent, r: Vec<u8>)
    requires
        call_ensures(<PeerNarrowbandMeasCapEvent as EventPayload>::to_bytes, (e,), r),
    ensures
        r@.len() == 12,
        w16(r@, 0) == e.handle,
        r@[2] == e.status,
        r@[3] == e.antenna_count,
        r@.subrange(4, 8) == e.signal_cap@,
        r@.subrange(8, 12) == e.report_cap@,
{
    assert(r@.subrange(4, 8) =~= e.signal_cap@);
    assert(r@.subrange(8, 12) =~= e.report_cap@);
}

/// The bytes of a meas state change event.
pub proof fn meas_state_change_layout(e: &MeasStateChangeEvent, r: Vec<u8>)
    requires
        call_ensures(<MeasStateChangeEvent as EventPayload>::to_bytes, (e,), r),
    ensures
        r@.len() == 8,
        w16(r@, 0) == e.source,
        r@[2] == e.status,
        r@[3] == e.instance_handle,
        r@[4] == e.instance_state,
        r@.subrange(5, 8) == e.pad@,
{
    assert(r@.subrange(5, 8) =~= e.pad@);
}

/// The bytes of a meas quantity report event.
pub proof fn meas_quantity_report_layout(e: &MeasQuantityReportEvent, r: Vec<u8>)
    requires
        call_ensures(<MeasQuantityReportEvent as EventPayload>::to_bytes, (e,), r),
    ensures
        r@.len() == 8,
        w16(r@, 0) == e.source,
        w16(r@, 2) == e.meas_source,
        w16(r@, 4) == e.seq,
        r@[6] == e.instance_handle,
        r@[7] == e.meas_count,
{
}

/// The bytes of a slb adv report event.
pub proof fn slb_adv_report_layout(e: &SlbAdvReportEvent, r: Vec<u8>)
    requires
        call_ensures(<SlbAdvReportEvent as EventPayload>::to_bytes, (e,), r),
    ensures
        r@.len() == 12,
        r@.subrange(0, 6) == e.mac_addr@,
        w16(r@, 6) == e.channel,
        r@[8] == e.bandwidth,
        s8(r@, 9) == e.rssi,
        r@[10] == e.data_len,
        r@[11] == e.pad,
{
    assert(r@.subrange(0, 6) =~= e.mac_addr@);
}

/// The bytes of a slb conn complete event.
pub proof fn slb_conn_complete_layout(e: &SlbConnCompleteEvent, r: Vec<u8>)
    requires
        call_ensures(<SlbConnCompleteEvent as EventPayload>::to_bytes, (e,), r),
    ensures
        r@.len() == 12,
        w16(r@, 0) == e.handle,
        r@[2] == e.status,
        r@[3] == e.pad,
        r@.subrange(4, 10) == e.peer_addr@,
        r@.subrange(10, 12) == e.pad2@,
{
    assert(r@.subrange(4, 10) =~= e.peer_addr@);
    assert(r@.subrange(10, 12) =~= e.pad2@);
}

/// The bytes of a slb ucast channel complete event.
pub proof fn slb_ucast_channel_complete_layout(e: &SlbUcastChannelCompleteEvent, r: Vec<u8>)
    requires
        call_ensures(<SlbUcastChannelCompleteEvent as EventPayload>::to_bytes, (e,), r),
    ensures
        r@.len() == 10,
        w16(r@, 0) == e.channel_handle,
        w16(r@, 2) == e.conn_handle,
        w16(r@, 4) == e.max_pkt_len,
        w16(r@, 6) == e.max_pkt_count,
        r@[8] == e.status,
        r@[9] == e.pad,
{
}

/// The bytes of a slb ucast channel update event.
pub proof fn slb_ucast_channel_update_layout(e: &SlbUcastChannelUpdateEvent, r: Vec<u8>)
    requires
        call_ensures(<SlbUcastChannelUpdateEvent as EventPayload>::to_bytes, (e,), r),
    ensures
        r@.len() == 8,
        w16(r@, 0) == e.channel_handle,
        w16(r@, 2) == e.max_pkt_len,
        w16(r@, 4) == e.max_pkt_count,
        r@[6] == e.status,
        r@[7] == e.pad,
{
}

/// The bytes of a slb channel delete event.
pub proof fn slb_channel_delete_layout(e: &SlbChannelDeleteEvent, r: Vec<u8>)
    requires
        call_ensures(<SlbChannelDeleteEvent as EventPayload>::to_bytes, (e,), r),
    ensures
        r@.len() == 4,
        w16(r@, 0) == e.channel_handle,
        r@[2] == e.status,
        r@[3] == e.pad,
{
}

/// The bytes of a slb num completed packets event.
pub proof fn slb_num_completed_packets_layout(e: &SlbNumCompletedPacketsEvent, r: Vec<u8>)
    requires
        call_ensures(<SlbNumCompletedPacketsEvent as EventPayload>::to_bytes, (e,), r),
    ensures
        r@.len() == 4,
        w16(r@, 0) == e.channel_handle,
        r@[2] == e.num_completed,
        r@[3] == e.pad,
{
}

/// The bytes of a time sync status update event.
pub proof fn time_sync_status_update_layout(e: &TimeSyncStatusUpdateEvent, r: Vec<u8>)
    requires
        call_ensures(<TimeSyncStatusUpdateEvent as EventPayload>::to_bytes, (e,), r),
    ensures
        r@.len() == 8,
        w32(r@, 0) == e.accuracy,
        r@[4] == e.sync_status,
        r@[5] == e.clock_source,
        r@.subrange(6, 8) == e.pad@,
{
    bytes::le32_of_bytes(e.accuracy);
    assert(r@.subrange(6, 8) =~= e.pad@);
}

/// The bytes of a time sync request event.
pub proof fn time_sync_request_layout(e: &TimeSyncRequestEvent, r: Vec<u8>)
    requires
        call_ensures(<TimeSyncRequestEvent as EventPayload>::to_bytes, (e,), r),
    ensures
        r@.len() == 12,
        w32(r@, 0) == e.time_seq,
        r@.subrange(4, 12) == e.send_time@,
{
    bytes::le32_of_bytes(e.time_seq);
    assert(r@.subrange(4, 12) =~= e.send_time@);
}

/// The bytes of a sync ucast setup request event.
pub proof fn sync_ucast_setup_request_layout(e: &SyncUcastSetupRequestEvent, r: Vec<u8>)
    requires
        call_ensures(<SyncUcastSetupRequestEvent as EventPayload>::to_bytes, (e,), r),
    ensures
        r@.len() == 8,
        w16(r@, 0) == e.async_handle,
        w16(r@, 2) == e.sync_handle,
        r@[4] == e.event_group_set_id,
        r@[5] == e.event_group_id,
        r@.subrange(6, 8) == e.pad@,
{
    assert(r@.subrange(6, 8) =~= e.pad@);
}

/// The bytes of a sync ucast setup complete event.
pub proof fn sync_ucast_setup_complete_layout(e: &SyncUcastSetupCompleteEvent, r: Vec<u8>)
    requires
        call_ensures(<SyncUcastSetupCompleteEvent as EventPayload>::to_bytes, (e,), r),
    ensures
        r@.len() == 8,
        w16(r@, 0) == e.async_handle,
        w16(r@, 2) == e.sync_handle,
        r@[4] == e.status,
        r@.subrange(5, 8) == e.pad@,
{
    assert(r@.subrange(5, 8) =~= e.pad@);
}

/// The bytes of a sync mcast setup request event.
pub proof fn sync_mcast_setup_request_layout(e: &SyncMcastSetupRequestEvent, r: Vec<u8>)
    requires
        call_ensures(<SyncMcastSetupRequestEvent as EventPayload>::to_bytes, (e,), r),
    ensures
        r@.len() == 4,
        w16(r@, 0) == e.async_handle,
        w16(r@, 2) == e.sync_handle,
{
}

/// The bytes of a sync mcast setup complete event.
pub proof fn sync_mcast_setup_complete_layout(e: &SyncMcastSetupCompleteEvent, r: Vec<u8>)
    requires
        call_ensures(<SyncMcastSetupCompleteEvent as EventPayload>::to_bytes, (e,), r),
    ensures
        r@.len() == 8,
        w16(r@, 0) == e.async_handle,
        w16(r@, 2) == e.sync_handle,
        r@[4] == e.status,
        r@.subrange(5, 8) == e.pad@,
{
    assert(r@.subrange(5, 8) =~= e.pad@);
}

} // verus!
