//! Laws of controller events in their fixed-size form: where each field of an event goes.

use vstd::prelude::*;

use crate::bytes;
use crate::laws::payload::{s8, w16, w32};
use crate::sle_dli::SleEvent;
use crate::sle_dli_event;
use crate::sle_dli_event::SleDliEvent;

verus! {

/// Whether a form names a kind, a status, a handle and an opcode.
pub open spec fn names(r: SleDliEvent, kind: u8, status: u8, handle: u16, opcode: u16) -> bool {
    &&& r.event_type == kind
    &&& r.status == status
    &&& r.handle == handle
    &&& r.opcode == opcode
}

/// Whether a form names no address.
pub open spec fn nowhere(r: SleDliEvent) -> bool {
    forall|i: int| 0 <= i < 6 ==> #[trigger] r.addr@[i] == 0
}

/// Whether data of any length stand from place `o` on, cut to `room` bytes, and end the
/// payload.
pub open spec fn tail(r: SleDliEvent, o: int, data: Seq<u8>, room: int) -> bool {
    &&& data.len() <= room ==> r.data_len == o + data.len() && r.data@.subrange(
        o,
        o + data.len() as int,
    ) == data
    &&& data.len() > room ==> r.data_len == o + room && r.data@.subrange(o, o + room) == data.take(
        room,
    )
}

proof fn is_tail(r: SleDliEvent, head: Seq<u8>, data: Seq<u8>, room: int)
    requires
        0 <= room,
        head.len() + room <= 240,
        r.data_len == (head + bytes::prefix(data, room)).len(),
        r.data@ == bytes::padded(head + bytes::prefix(data, room), 240),
    ensures
        tail(r, head.len() as int, data, room),
{
    let o = head.len() as int;
    if data.len() <= room {
        assert(r.data@.subrange(o, o + data.len() as int) =~= data);
    } else {
        assert(r.data@.subrange(o, o + room) =~= data.take(room));
    }
}

/// A command ended.
pub proof fn command_complete_form(ev: SleEvent, r: SleDliEvent)
    requires
        call_ensures(sle_dli_event::sle_dli_event_to_wire, (&ev,), r),
    ensures
        ev matches SleEvent::CommandComplete { opcode, status, data } ==> {
            &&& names(r, 0x01, status.code(), 0, opcode.code())
            &&& nowhere(r)
            &&& tail(r, 0, data@, 240)
        },
{
    match ev {
        SleEvent::CommandComplete { opcode, status, data } => {
            let head = Seq::<u8>::empty();
            assert(head + bytes::prefix(data@, 240) =~= bytes::prefix(data@, 240));
            is_tail(r, head, data@, 240);
        },
        _ => {},
    }
}

/// A command was taken up.
pub proof fn command_status_form(ev: SleEvent, r: SleDliEvent)
    requires
        call_ensures(sle_dli_event::sle_dli_event_to_wire, (&ev,), r),
    ensures
        ev matches SleEvent::CommandStatus { opcode, status } ==> {
            &&& names(r, 0x02, status.code(), 0, opcode.code())
            &&& nowhere(r)
            &&& r.data_len == 0
        },
{
}

/// An advertisement was heard.
pub proof fn adv_report_form(ev: SleEvent, r: SleDliEvent)
    requires
        call_ensures(sle_dli_event::sle_dli_event_to_wire, (&ev,), r),
    ensures
        ev matches SleEvent::AdvReport { addr, rssi, discovery_level, data } ==> {
            &&& names(r, 0x03, 0, 0, 0)
            &&& r.addr@ == addr@
            &&& s8(r.data@, 0) == rssi
            &&& r.data@[1] == discovery_level
            &&& tail(r, 2, data@, 238)
        },
{
    match ev {
        SleEvent::AdvReport { addr, rssi, discovery_level, data } => {
            let head = seq![bytes::i8_byte(rssi), discovery_level];
            is_tail(r, head, data@, 238);
        },
        _ => {},
    }
}

/// A connection was set up.
pub proof fn conn_complete_form(ev: SleEvent, r: SleDliEvent)
    requires
        call_ensures(sle_dli_event::sle_dli_event_to_wire, (&ev,), r),
    ensures
        ev matches SleEvent::ConnComplete { handle, addr, status } ==> {
            &&& names(r, 0x04, status.code(), handle, 0)
            &&& r.addr@ == addr@
            &&& r.data_len == 0
        },
{
}

/// Data came in on a connection.
pub proof fn data_received_form(ev: SleEvent, r: SleDliEvent)
    requires
        call_ensures(sle_dli_event::sle_dli_event_to_wire, (&ev,), r),
    ensures
        ev matches SleEvent::DataReceived { handle, data } ==> {
            &&& names(r, 0x05, 0, handle, 0)
            &&& nowhere(r)
            &&& tail(r, 0, data@, 240)
        },
{
    match ev {
        SleEvent::DataReceived { handle, data } => {
            let head = Seq::<u8>::empty();
            assert(head + bytes::prefix(data@, 240) =~= bytes::prefix(data@, 240));
            is_tail(r, head, data@, 240);
        },
        _ => {},
    }
}

/// A connection was lost.
pub proof fn disconnected_form(ev: SleEvent, r: SleDliEvent)
    requires
        call_ensures(sle_dli_event::sle_dli_event_to_wire, (&ev,), r),
    ensures
        ev matches SleEvent::Disconnected { handle, reason } ==> {
            &&& names(r, 0x06, 0, handle, 0)
            &&& nowhere(r)
            &&& r.data_len == 1
            &&& r.data@[0] == reason
        },
{
}

/// Encryption was switched on a connection.
pub proof fn encryption_changed_form(ev: SleEvent, r: SleDliEvent)
    requires
        call_ensures(sle_dli_event::sle_dli_event_to_wire, (&ev,), r),
    ensures
        ev matches SleEvent::EncryptionChanged { handle, enabled } ==> {
            &&& names(r, 0x07, 0, handle, 0)
            &&& nowhere(r)
            &&& r.data_len == 1
            &&& (r.data@[0] == 1) == enabled
            &&& r.data@[0] <= 1
        },
{
}

/// A peer asks for pairing.
pub proof fn pair_request_form(ev: SleEvent, r: SleDliEvent)
    requires
        call_ensures(sle_dli_event::sle_dli_event_to_wire, (&ev,), r),
    ensures
        ev matches SleEvent::PairRequest { addr, method } ==> {
            &&& names(r, 0x08, 0, 0, 0)
            &&& r.addr@ == addr@
            &&& r.data_len == 1
            &&& r.data@[0] == method
        },
{
}

/// The controller failed.
pub proof fn hardware_error_form(ev: SleEvent, r: SleDliEvent)
    requires
        call_ensures(sle_dli_event::sle_dli_event_to_wire, (&ev,), r),
    ensures
        ev matches SleEvent::HardwareError { code } ==> {
            &&& names(r, 0x09, 0, 0, 0)
            &&& nowhere(r)
            &&& r.data_len == 1
            &&& r.data@[0] == code
        },
{
}

/// The controller ended a broadcast.
pub proof fn broadcast_end_form(ev: SleEvent, r: SleDliEvent)
    requires
        call_ensures(sle_dli_event::sle_dli_event_to_wire, (&ev,), r),
    ensures
        ev matches SleEvent::BroadcastEnd { reason } ==> {
            &&& names(r, 0x0A, 0, 0, 0)
            &&& nowhere(r)
            &&& r.data_len == 1
            &&& r.data@[0] == reason
        },
{
}

/// The PHY parameters of a connection changed.
pub proof fn phy_update_form(ev: SleEvent, r: SleDliEvent)
    requires
        call_ensures(sle_dli_event::sle_dli_event_to_wire, (&ev,), r),
    ensures
        ev matches SleEvent::PhyUpdate { handle, mcs_index, bandwidth_mhz } ==> {
            &&& names(r, 0x0B, 0, handle, 0)
            &&& nowhere(r)
            &&& r.data_len == 2
            &&& r.data@[0] == mcs_index
            &&& r.data@[1] == bandwidth_mhz
        },
{
}

/// The parameters of a connection changed.
pub proof fn conn_param_update_form(ev: SleEvent, r: SleDliEvent)
    requires
        call_ensures(sle_dli_event::sle_dli_event_to_wire, (&ev,), r),
    ensures
        ev matches SleEvent::ConnParamUpdate { handle, interval, latency, timeout } ==> {
            &&& names(r, 0x0C, 0, handle, 0)
            &&& nowhere(r)
            &&& r.data_len == 6
            &&& w16(r.data@, 0) == interval
            &&& w16(r.data@, 2) == latency
            &&& w16(r.data@, 4) == timeout
        },
{
}

/// The data length of a connection changed.
pub proof fn data_len_change_form(ev: SleEvent, r: SleDliEvent)
    requires
        call_ensures(sle_dli_event::sle_dli_event_to_wire, (&ev,), r),
    ensures
        ev matches SleEvent::DataLenChange { handle, max_tx_octets, max_rx_octets } ==> {
            &&& names(r, 0x0D, 0, handle, 0)
            &&& nowhere(r)
            &&& r.data_len == 4
            &&& w16(r.data@, 0) == max_tx_octets
            &&& w16(r.data@, 2) == max_rx_octets
        },
{
}

/// A data buffer of the controller ran over.
pub proof fn data_buf_overflow_form(ev: SleEvent, r: SleDliEvent)
    requires
        call_ensures(sle_dli_event::sle_dli_event_to_wire, (&ev,), r),
    ensures
        ev matches SleEvent::DataBufOverflow { link_type } ==> {
            &&& names(r, 0x0E, 0, 0, 0)
            &&& nowhere(r)
            &&& r.data_len == 1
            &&& r.data@[0] == link_type
        },
{
}

/// A peer asks for other connection parameters.
pub proof fn peer_conn_param_req_form(ev: SleEvent, r: SleDliEvent)
    requires
        call_ensures(sle_dli_event::sle_dli_event_to_wire, (&ev,), r),
    ensures
        ev matches SleEvent::PeerConnParamReq { handle, interval_min, interval_max, latency, timeout } ==> {
            &&& names(r, 0x0F, 0, handle, 0)
            &&& nowhere(r)
            &&& r.data_len == 8
            &&& w16(r.data@, 0) == interval_min
            &&& w16(r.data@, 2) == interval_max
            &&& w16(r.data@, 4) == latency
            &&& w16(r.data@, 6) == timeout
        },
{
}

/// The transmit power changed.
pub proof fn power_change_report_form(ev: SleEvent, r: SleDliEvent)
    requires
        call_ensures(sle_dli_event::sle_dli_event_to_wire, (&ev,), r),
    ensures
        ev matches SleEvent::PowerChangeReport { handle, reason, frame_type, bandwidth, pilot_density, tx_power, power_level, offset } ==> {
            &&& names(r, 0x10, 0, handle, 0)
            &&& nowhere(r)
            &&& r.data_len == 7
            &&& r.data@[0] == reason
            &&& r.data@[1] == frame_type
            &&& r.data@[2] == bandwidth
            &&& r.data@[3] == pilot_density
            &&& s8(r.data@, 4) == tx_power
            &&& r.data@[5] == power_level
            &&& s8(r.data@, 6) == offset
        },
{
}

/// Packets were sent.
pub proof fn num_completed_packets_form(ev: SleEvent, r: SleDliEvent)
    requires
        call_ensures(sle_dli_event::sle_dli_event_to_wire, (&ev,), r),
    ensures
        ev matches SleEvent::NumCompletedPackets { handle, num_completed } ==> {
            &&& names(r, 0x11, 0, handle, 0)
            &&& nowhere(r)
            &&& r.data_len == 1
            &&& r.data@[0] == num_completed
        },
{
}

/// The controller asks for encryption parameters.
pub proof fn encryption_param_req_form(ev: SleEvent, r: SleDliEvent)
    requires
        call_ensures(sle_dli_event::sle_dli_event_to_wire, (&ev,), r),
    ensures
        ev matches SleEvent::EncryptionParamReq { handle } ==> {
            &&& names(r, 0x12, 0, handle, 0)
            &&& nowhere(r)
            &&& r.data_len == 0
        },
{
}

/// Control signalling data.
pub proof fn controller_signal_data_form(ev: SleEvent, r: SleDliEvent)
    requires
        call_ensures(sle_dli_event::sle_dli_event_to_wire, (&ev,), r),
    ensures
        ev matches SleEvent::ControllerSignalData { handle, signal_id, data } ==> {
            &&& names(r, 0x13, 0, handle, signal_id)
            &&& nowhere(r)
            &&& tail(r, 0, data@, 240)
        },
{
    match ev {
        SleEvent::ControllerSignalData { handle, signal_id, data } => {
            let head = Seq::<u8>::empty();
            assert(head + bytes::prefix(data@, 240) =~= bytes::prefix(data@, 240));
            is_tail(r, head, data@, 240);
        },
        _ => {},
    }
}

/// The features of a peer.
pub proof fn read_peer_features_form(ev: SleEvent, r: SleDliEvent)
    requires
        call_ensures(sle_dli_event::sle_dli_event_to_wire, (&ev,), r),
    ensures
        ev matches SleEvent::ReadPeerFeatures { handle, status, features } ==> {
            &&& names(r, 0x14, status, handle, 0)
            &&& nowhere(r)
            &&& r.data_len == 10
            &&& r.data@.subrange(0, 10) == features@
        },
{
    match ev {
        SleEvent::ReadPeerFeatures { handle, status, features } => {
            assert(r.data@.subrange(0, 10) =~= features@);
        },
        _ => {},
    }
}

/// The version of a peer.
pub proof fn read_peer_version_form(ev: SleEvent, r: SleDliEvent)
    requires
        call_ensures(sle_dli_event::sle_dli_event_to_wire, (&ev,), r),
    ensures
        ev matches SleEvent::ReadPeerVersion { handle, status, version, manufacturer, subversion } ==> {
            &&& names(r, 0x15, status, handle, 0)
            &&& nowhere(r)
            &&& r.data_len == 5
            &&& r.data@[0] == version
            &&& w16(r.data@, 1) == manufacturer
            &&& w16(r.data@, 3) == subversion
        },
{
}

/// The transmit power of a peer.
pub proof fn read_peer_power_form(ev: SleEvent, r: SleDliEvent)
    requires
        call_ensures(sle_dli_event::sle_dli_event_to_wire, (&ev,), r),
    ensures
        ev matches SleEvent::ReadPeerPower { handle, status, frame_type, bandwidth, pilot_density, tx_power, power_level } ==> {
            &&& names(r, 0x16, status, handle, 0)
            &&& nowhere(r)
            &&& r.data_len == 5
            &&& r.data@[0] == frame_type
            &&& r.data@[1] == bandwidth
            &&& r.data@[2] == pilot_density
            &&& s8(r.data@, 3) == tx_power
            &&& r.data@[4] == power_level
        },
{
}

/// A scan request was heard.
pub proof fn inquiry_request_report_form(ev: SleEvent, r: SleDliEvent)
    requires
        call_ensures(sle_dli_event::sle_dli_event_to_wire, (&ev,), r),
    ensures
        ev matches SleEvent::InquiryRequestReport { adv_handle, addr_type, addr, rssi, data } ==> {
            &&& names(r, 0x17, 0, 0, 0)
            &&& r.addr@ == addr@
            &&& r.data@[0] == adv_handle
            &&& r.data@[1] == addr_type
            &&& s8(r.data@, 2) == rssi
            &&& tail(r, 3, data@, 237)
        },
{
    match ev {
        SleEvent::InquiryRequestReport { adv_handle, addr_type, addr, rssi, data } => {
            let head = seq![adv_handle, addr_type, bytes::i8_byte(rssi)];
            is_tail(r, head, data@, 237);
        },
        _ => {},
    }
}

/// A peer asks for pairing information.
pub proof fn pair_info_exchange_form(ev: SleEvent, r: SleDliEvent)
    requires
        call_ensures(sle_dli_event::sle_dli_event_to_wire, (&ev,), r),
    ensures
        ev matches SleEvent::PairInfoExchange { handle, io_cap, oob_flag, auth_req, max_key_len, sec_dist, psk_ind, crypto_cap } ==> {
            &&& names(r, 0x18, 0, handle, 0)
            &&& nowhere(r)
            &&& r.data_len == 10
            &&& r.data@[0] == io_cap
            &&& r.data@[1] == oob_flag
            &&& r.data@[2] == auth_req
            &&& r.data@[3] == max_key_len
            &&& r.data@[4] == sec_dist
            &&& r.data@[5] == psk_ind
            &&& r.data@.subrange(6, 10) == crypto_cap@
        },
{
    match ev {
        SleEvent::PairInfoExchange { handle, io_cap, oob_flag, auth_req, max_key_len, sec_dist, psk_ind, crypto_cap } => {
            assert(r.data@.subrange(6, 10) =~= crypto_cap@);
        },
        _ => {},
    }
}

/// Pairing information of a peer.
pub proof fn pair_info_report_form(ev: SleEvent, r: SleDliEvent)
    requires
        call_ensures(sle_dli_event::sle_dli_event_to_wire, (&ev,), r),
    ensures
        ev matches SleEvent::PairInfoReport { handle, io_cap, oob_flag, auth_req, max_key_len, sec_dist, psk_ind, crypto_cap } ==> {
            &&& names(r, 0x19, 0, handle, 0)
            &&& nowhere(r)
            &&& r.data_len == 10
            &&& r.data@[0] == io_cap
            &&& r.data@[1] == oob_flag
            &&& r.data@[2] == auth_req
            &&& r.data@[3] == max_key_len
            &&& r.data@[4] == sec_dist
            &&& r.data@[5] == psk_ind
            &&& r.data@.subrange(6, 10) == crypto_cap@
        },
{
    match ev {
        SleEvent::PairInfoReport { handle, io_cap, oob_flag, auth_req, max_key_len, sec_dist, psk_ind, crypto_cap } => {
            assert(r.data@.subrange(6, 10) =~= crypto_cap@);
        },
        _ => {},
    }
}

/// Pairing options of a peer.
pub proof fn pair_option_report_form(ev: SleEvent, r: SleDliEvent)
    requires
        call_ensures(sle_dli_event::sle_dli_event_to_wire, (&ev,), r),
    ensures
        ev matches SleEvent::PairOptionReport { handle, key_len, auth_method, crypto_alg, public_key } ==> {
            &&& names(r, 0x1A, 0, handle, 0)
            &&& nowhere(r)
            &&& r.data@[0] == key_len
            &&& r.data@[1] == auth_method
            &&& r.data@.subrange(2, 6) == crypto_alg@
            &&& tail(r, 6, public_key@, 32)
        },
{
    match ev {
        SleEvent::PairOptionReport { handle, key_len, auth_method, crypto_alg, public_key } => {
            assert(r.data@.subrange(2, 6) =~= crypto_alg@);
            let head = seq![key_len, auth_method] + crypto_alg@;
            is_tail(r, head, public_key@, 32);
        },
        _ => {},
    }
}

/// The public key of a peer.
pub proof fn peer_public_key_form(ev: SleEvent, r: SleDliEvent)
    requires
        call_ensures(sle_dli_event::sle_dli_event_to_wire, (&ev,), r),
    ensures
        ev matches SleEvent::PeerPublicKey { handle, public_key } ==> {
            &&& names(r, 0x1B, 0, handle, 0)
            &&& nowhere(r)
            &&& tail(r, 0, public_key@, 32)
        },
{
    match ev {
        SleEvent::PeerPublicKey { handle, public_key } => {
            let head = Seq::<u8>::empty();
            assert(head + bytes::prefix(public_key@, 32) =~= bytes::prefix(public_key@, 32));
            is_tail(r, head, public_key@, 32);
        },
        _ => {},
    }
}

/// The public key of a peer, both coordinates.
pub proof fn pair_ext_data_form(ev: SleEvent, r: SleDliEvent)
    requires
        call_ensures(sle_dli_event::sle_dli_event_to_wire, (&ev,), r),
    ensures
        ev matches SleEvent::PairExtData { handle, ext_pubkey_x, ext_pubkey_y } ==> {
            &&& names(r, 0x1C, 0, handle, 0)
            &&& nowhere(r)
            &&& ext_pubkey_x@.len() == 32 ==> r.data@.subrange(0, 32) == ext_pubkey_x@
            &&& tail(r, 32, ext_pubkey_y@, 32)
        },
{
    match ev {
        SleEvent::PairExtData { handle, ext_pubkey_x, ext_pubkey_y } => {
            if ext_pubkey_x@.len() == 32 {
                assert(r.data@.subrange(0, 32) =~= ext_pubkey_x@);
            }
            let head = bytes::padded(ext_pubkey_x@, 32);
            is_tail(r, head, ext_pubkey_y@, 32);
        },
        _ => {},
    }
}

/// Keys were pressed at a peer.
pub proof fn keypress_notify_form(ev: SleEvent, r: SleDliEvent)
    requires
        call_ensures(sle_dli_event::sle_dli_event_to_wire, (&ev,), r),
    ensures
        ev matches SleEvent::KeypressNotify { handle, action } ==> {
            &&& names(r, 0x1D, 0, handle, 0)
            &&& nowhere(r)
            &&& r.data_len == 4
            &&& r.data@.subrange(0, 4) == action@
        },
{
    match ev {
        SleEvent::KeypressNotify { handle, action } => {
            assert(r.data@.subrange(0, 4) =~= action@);
        },
        _ => {},
    }
}

/// The pairing random number of a peer.
pub proof fn pair_random_form(ev: SleEvent, r: SleDliEvent)
    requires
        call_ensures(sle_dli_event::sle_dli_event_to_wire, (&ev,), r),
    ensures
        ev matches SleEvent::PairRandom { handle, random } ==> {
            &&& names(r, 0x1E, 0, handle, 0)
            &&& nowhere(r)
            &&& r.data_len == 16
            &&& r.data@.subrange(0, 16) == random@
        },
{
    match ev {
        SleEvent::PairRandom { handle, random } => {
            assert(r.data@.subrange(0, 16) =~= random@);
        },
        _ => {},
    }
}

/// The pairing confirm value of a peer.
pub proof fn pair_confirm_form(ev: SleEvent, r: SleDliEvent)
    requires
        call_ensures(sle_dli_event::sle_dli_event_to_wire, (&ev,), r),
    ensures
        ev matches SleEvent::PairConfirm { handle, confirm } ==> {
            &&& names(r, 0x1F, 0, handle, 0)
            &&& nowhere(r)
            &&& r.data_len == 16
            &&& r.data@.subrange(0, 16) == confirm@
        },
{
    match ev {
        SleEvent::PairConfirm { handle, confirm } => {
            assert(r.data@.subrange(0, 16) =~= confirm@);
        },
        _ => {},
    }
}

/// The key check value of a peer.
pub proof fn dh_key_check_form(ev: SleEvent, r: SleDliEvent)
    requires
        call_ensures(sle_dli_event::sle_dli_event_to_wire, (&ev,), r),
    ensures
        ev matches SleEvent::DHKeyCheck { handle, dhkey_check } ==> {
            &&& names(r, 0x20, 0, handle, 0)
            &&& nowhere(r)
            &&& r.data_len == 16
            &&& r.data@.subrange(0, 16) == dhkey_check@
        },
{
    match ev {
        SleEvent::DHKeyCheck { handle, dhkey_check } => {
            assert(r.data@.subrange(0, 16) =~= dhkey_check@);
        },
        _ => {},
    }
}

/// Pairing failed.
pub proof fn pair_failure_form(ev: SleEvent, r: SleDliEvent)
    requires
        call_ensures(sle_dli_event::sle_dli_event_to_wire, (&ev,), r),
    ensures
        ev matches SleEvent::PairFailure { handle, reason } ==> {
            &&& names(r, 0x21, 0, handle, 0)
            &&& nowhere(r)
            &&& r.data_len == 1
            &&& r.data@[0] == reason
        },
{
}

/// Narrowband measurement information.
pub proof fn narrowband_meas_info_form(ev: SleEvent, r: SleDliEvent)
    requires
        call_ensures(sle_dli_event::sle_dli_event_to_wire, (&ev,), r),
    ensures
        ev matches SleEvent::NarrowbandMeasInfo { handle, meas_type, status, config_index } ==> {
            &&& names(r, 0x22, status, handle, 0)
            &&& nowhere(r)
            &&& r.data_len == 3
            &&& w16(r.data@, 0) == meas_type
            &&& r.data@[2] == config_index
        },
{
}

/// A narrowband measurement changed its state.
pub proof fn narrowband_meas_state_change_form(ev: SleEvent, r: SleDliEvent)
    requires
        call_ensures(sle_dli_event::sle_dli_event_to_wire, (&ev,), r),
    ensures
        ev matches SleEvent::NarrowbandMeasStateChange { status, config_index, meas_state } ==> {
            &&& names(r, 0x23, status, 0, 0)
            &&& nowhere(r)
            &&& r.data_len == 2
            &&& r.data@[0] == config_index
            &&& r.data@[1] == meas_state
        },
{
}

/// Narrowband measurement parameters.
pub proof fn narrowband_meas_param_report_form(ev: SleEvent, r: SleDliEvent)
    requires
        call_ensures(sle_dli_event::sle_dli_event_to_wire, (&ev,), r),
    ensures
        ev matches SleEvent::NarrowbandMeasParamReport { handle, status, config_index } ==> {
            &&& names(r, 0x24, status, handle, 0)
            &&& nowhere(r)
            &&& r.data_len == 1
            &&& r.data@[0] == config_index
        },
{
}

/// Narrowband measurement abilities of this controller.
pub proof fn local_narrowband_meas_cap_form(ev: SleEvent, r: SleDliEvent)
    requires
        call_ensures(sle_dli_event::sle_dli_event_to_wire, (&ev,), r),
    ensures
        ev matches SleEvent::LocalNarrowbandMeasCap { status, antenna_count, signal_cap, report_cap } ==> {
            &&& names(r, 0x25, status, 0, 0)
            &&& nowhere(r)
            &&& r.data_len == 9
            &&& r.data@[0] == antenna_count
            &&& r.data@.subrange(1, 5) == signal_cap@
            &&& r.data@.subrange(5, 9) == report_cap@
        },
{
    match ev {
        SleEvent::LocalNarrowbandMeasCap { status, antenna_count, signal_cap, report_cap } => {
            assert(r.data@.subrange(1, 5) =~= signal_cap@);
            assert(r.data@.subrange(5, 9) =~= report_cap@);
        },
        _ => {},
    }
}

/// Narrowband measurement abilities of a peer.
pub proof fn peer_narrowband_meas_cap_form(ev: SleEvent, r: SleDliEvent)
    requires
        call_ensures(sle_dli_event::sle_dli_event_to_wire, (&ev,), r),
    ensures
        ev matches SleEvent::PeerNarrowbandMeasCap { handle, status, antenna_count, signal_cap, report_cap } ==> {
            &&& names(r, 0x26, status, handle, 0)
            &&& nowhere(r)
            &&& r.data_len == 9
            &&& r.data@[0] == antenna_count
            &&& r.data@.subrange(1, 5) == signal_cap@
            &&& r.data@.subrange(5, 9) == report_cap@
        },
{
    match ev {
        SleEvent::PeerNarrowbandMeasCap { handle, status, antenna_count, signal_cap, report_cap } => {
            assert(r.data@.subrange(1, 5) =~= signal_cap@);
            assert(r.data@.subrange(5, 9) =~= report_cap@);
        },
        _ => {},
    }
}

/// A measurement changed its state.
pub proof fn meas_state_change_form(ev: SleEvent, r: SleDliEvent)
    requires
        call_ensures(sle_dli_event::sle_dli_event_to_wire, (&ev,), r),
    ensures
        ev matches SleEvent::MeasStateChange { source, status, instance_handle, instance_state } ==> {
            &&& names(r, 0x27, status, 0, 0)
            &&& nowhere(r)
            &&& r.data_len == 4
            &&& w16(r.data@, 0) == source
            &&& r.data@[2] == instance_handle
            &&& r.data@[3] == instance_state
        },
{
}

/// Measured quantities.
pub proof fn meas_quantity_report_form(ev: SleEvent, r: SleDliEvent)
    requires
        call_ensures(sle_dli_event::sle_dli_event_to_wire, (&ev,), r),
    ensures
        ev matches SleEvent::MeasQuantityReport { source, meas_source, seq, instance_handle, meas_count } ==> {
            &&& names(r, 0x28, 0, 0, 0)
            &&& nowhere(r)
            &&& r.data_len == 8
            &&& w16(r.data@, 0) == source
            &&& w16(r.data@, 2) == meas_source
            &&& w16(r.data@, 4) == seq
            &&& r.data@[6] == instance_handle
            &&& r.data@[7] == meas_count
        },
{
}

/// An SLB advertisement was heard.
pub proof fn slb_adv_report_form(ev: SleEvent, r: SleDliEvent)
    requires
        call_ensures(sle_dli_event::sle_dli_event_to_wire, (&ev,), r),
    ensures
        ev matches SleEvent::SlbAdvReport { mac_addr, channel, bandwidth, rssi, data } ==> {
            &&& names(r, 0x29, 0, 0, 0)
            &&& r.addr@ == mac_addr@
            &&& w16(r.data@, 0) == channel
            &&& r.data@[2] == bandwidth
            &&& s8(r.data@, 3) == rssi
            &&& tail(r, 4, data@, 236)
        },
{
    match ev {
        SleEvent::SlbAdvReport { mac_addr, channel, bandwidth, rssi, data } => {
            let head = seq![bytes::lo8(channel), bytes::hi8(channel), bandwidth, bytes::i8_byte(rssi)];
            is_tail(r, head, data@, 236);
        },
        _ => {},
    }
}

/// An SLB connection was set up.
pub proof fn slb_conn_complete_form(ev: SleEvent, r: SleDliEvent)
    requires
        call_ensures(sle_dli_event::sle_dli_event_to_wire, (&ev,), r),
    ensures
        ev matches SleEvent::SlbConnComplete { handle, status, peer_addr } ==> {
            &&& names(r, 0x2A, status, handle, 0)
            &&& r.addr@ == peer_addr@
            &&& r.data_len == 0
        },
{
}

/// An SLB channel was set up.
pub proof fn slb_ucast_channel_complete_form(ev: SleEvent, r: SleDliEvent)
    requires
        call_ensures(sle_dli_event::sle_dli_event_to_wire, (&ev,), r),
    ensures
        ev matches SleEvent::SlbUcastChannelComplete { channel_handle, conn_handle, status, max_pkt_len, max_pkt_count } ==> {
            &&& names(r, 0x2B, status, channel_handle, 0)
            &&& nowhere(r)
            &&& r.data_len == 6
            &&& w16(r.data@, 0) == conn_handle
            &&& w16(r.data@, 2) == max_pkt_len
            &&& w16(r.data@, 4) == max_pkt_count
        },
{
}

/// An SLB channel was changed.
pub proof fn slb_ucast_channel_update_form(ev: SleEvent, r: SleDliEvent)
    requires
        call_ensures(sle_dli_event::sle_dli_event_to_wire, (&ev,), r),
    ensures
        ev matches SleEvent::SlbUcastChannelUpdate { channel_handle, status, max_pkt_len, max_pkt_count } ==> {
            &&& names(r, 0x2C, status, channel_handle, 0)
            &&& nowhere(r)
            &&& r.data_len == 4
            &&& w16(r.data@, 0) == max_pkt_len
            &&& w16(r.data@, 2) == max_pkt_count
        },
{
}

/// An SLB channel was deleted.
pub proof fn slb_channel_delete_form(ev: SleEvent, r: SleDliEvent)
    requires
        call_ensures(sle_dli_event::sle_dli_event_to_wire, (&ev,), r),
    ensures
        ev matches SleEvent::SlbChannelDelete { channel_handle, status } ==> {
            &&& names(r, 0x2D, status, channel_handle, 0)
            &&& nowhere(r)
            &&& r.data_len == 0
        },
{
}

/// Packets were sent on an SLB channel.
pub proof fn slb_num_completed_packets_form(ev: SleEvent, r: SleDliEvent)
    requires
        call_ensures(sle_dli_event::sle_dli_event_to_wire, (&ev,), r),
    ensures
        ev matches SleEvent::SlbNumCompletedPackets { channel_handle, num_completed } ==> {
            &&& names(r, 0x2E, 0, channel_handle, 0)
            &&& nowhere(r)
            &&& r.data_len == 1
            &&& r.data@[0] == num_completed
        },
{
}

/// The time synchronisation changed its state.
pub proof fn time_sync_status_update_form(ev: SleEvent, r: SleDliEvent)
    requires
        call_ensures(sle_dli_event::sle_dli_event_to_wire, (&ev,), r),
    ensures
        ev matches SleEvent::TimeSyncStatusUpdate { sync_status, clock_source, accuracy } ==> {
            &&& names(r, 0x2F, 0, 0, 0)
            &&& nowhere(r)
            &&& r.data_len == 6
            &&& r.data@[0] == sync_status
            &&& r.data@[1] == clock_source
            &&& w32(r.data@, 2) == accuracy
        },
{
    match ev {
        SleEvent::TimeSyncStatusUpdate { sync_status, clock_source, accuracy } => {
            bytes::le32_of_bytes(accuracy);
        },
        _ => {},
    }
}

/// A peer asks for time synchronisation.
pub proof fn time_sync_request_form(ev: SleEvent, r: SleDliEvent)
    requires
        call_ensures(sle_dli_event::sle_dli_event_to_wire, (&ev,), r),
    ensures
        ev matches SleEvent::TimeSyncRequest { time_seq, send_time } ==> {
            &&& names(r, 0x30, 0, 0, 0)
            &&& nowhere(r)
            &&& r.data_len == 12
            &&& w32(r.data@, 0) == time_seq
            &&& r.data@.subrange(4, 12) == send_time@
        },
{
    match ev {
        SleEvent::TimeSyncRequest { time_seq, send_time } => {
            bytes::le32_of_bytes(time_seq);
            assert(r.data@.subrange(4, 12) =~= send_time@);
        },
        _ => {},
    }
}

/// A peer asks for a sync unicast link.
pub proof fn sync_ucast_setup_request_form(ev: SleEvent, r: SleDliEvent)
    requires
        call_ensures(sle_dli_event::sle_dli_event_to_wire, (&ev,), r),
    ensures
        ev matches SleEvent::SyncUcastSetupRequest { async_handle, sync_handle, event_group_set_id, event_group_id } ==> {
            &&& names(r, 0x31, 0, async_handle, 0)
            &&& nowhere(r)
            &&& r.data_len == 4
            &&& w16(r.data@, 0) == sync_handle
            &&& r.data@[2] == event_group_set_id
            &&& r.data@[3] == event_group_id
        },
{
}

/// A sync unicast link was set up.
pub proof fn sync_ucast_setup_complete_form(ev: SleEvent, r: SleDliEvent)
    requires
        call_ensures(sle_dli_event::sle_dli_event_to_wire, (&ev,), r),
    ensures
        ev matches SleEvent::SyncUcastSetupComplete { async_handle, sync_handle, status } ==> {
            &&& names(r, 0x32, status, async_handle, 0)
            &&& nowhere(r)
            &&& r.data_len == 2
            &&& w16(r.data@, 0) == sync_handle
        },
{
}

/// A peer asks for a sync multicast link.
pub proof fn sync_mcast_setup_request_form(ev: SleEvent, r: SleDliEvent)
    requires
        call_ensures(sle_dli_event::sle_dli_event_to_wire, (&ev,), r),
    ensures
        ev matches SleEvent::SyncMcastSetupRequest { async_handle, sync_handle } ==> {
            &&& names(r, 0x33, 0, async_handle, 0)
            &&& nowhere(r)
            &&& r.data_len == 2
            &&& w16(r.data@, 0) == sync_handle
        },
{
}

/// A sync multicast link was set up.
pub proof fn sync_mcast_setup_complete_form(ev: SleEvent, r: SleDliEvent)
    requires
        call_ensures(sle_dli_event::sle_dli_event_to_wire, (&ev,), r),
    ensures
        ev matches SleEvent::SyncMcastSetupComplete { async_handle, sync_handle, status } ==> {
            &&& names(r, 0x34, status, async_handle, 0)
            &&& nowhere(r)
            &&& r.data_len == 2
            &&& w16(r.data@, 0) == sync_handle
        },
{
}

} // verus!
