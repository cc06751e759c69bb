//! Laws of what programs hand over: fields without a meaning have to be zero, and requests are
//! told apart by their numbers.

use vstd::prelude::*;

use crate::errno::Errno;
use crate::sle_dli_event::SleDliEvent;
use crate::sle_uapi;
use crate::sle_uapi::{
    CheckReserved, SciDevInfo, SleAdvParams, SleScanParams, SleExtAdvConfig, SleExtAdvData,
    SleExtAdvInfo, SleExtAdvEnableParams, SleInjectAdv, SleInjectRawAdv, SleConnectParams,
    SleConnInfo, SleConnData, SleInjectConnResp, SleConnList, SleConnMtuParams, SleAfhMapParams,
    SleAfhRssiReport, SleAfhClassifyParams, SleAfhHopInfo, SleAfhRetxReport, SleSyncCigConfig,
    SleSyncBigConfig, SleSyncCreateCmd, SleSyncDatapathCmd, SleSyncLinkInfo, SleSyncRejectCmd,
    SleSyncDataCmd, SlePskParams, SlePairParams, SleOobData, SlePasswordParams, SlePasskeyInput,
    SleRalAddParams, SleRalRemoveParams, SleRalQueryParams, SleSecInfo, SleHashTest,
    SleSm4BlockTest, SleHmacTest, SsapSummary, SsapReadWrite, SsapServiceEntry, SsapServiceList,
    SsapNotification, SsapAddService, SsapAddProperty, SsapRemoteCmd, SsapRemoteDiscover,
    SsapRemoteReadWrite, SsapUuidOp, SlePmInfo, SlePmStateCmd, SlePmInterval, SleEventStats,
    SleDliInfo, SleDliCmd, SleMgmtStats, SleSubsysStats, SlePhyInfo, SlePhyMcsCmd, SlePhyTxPowerCmd,
    SlePhyMcsSelect, SlePhyHopInfo, SlePhyBwCmd, SleSinrThresholds, SleConnPeerCap,
    SleConnParamUpdate, SleConnPhyUpdate, SleScanFilter, SleMeasCap, SleMeasLinkParam,
    SleMeasAction,
};

verus! {

/// Whether a value is accepted where it is right, and refused as invalid where it is not.
pub open spec fn accepted_if(r: Result<(), Errno>, right: bool) -> bool {
    if right {
        r is Ok
    } else {
        r is Err && r->Err_0 == Errno::EINVAL
    }
}

/// Whether bytes are all zero.
pub open spec fn blank_bytes(s: Seq<u8>) -> bool {
    forall|i: int| 0 <= i < s.len() ==> #[trigger] s[i] == 0
}

/// The number of a request: its number and letter, the size of what goes along, and the
/// direction in the two top bits.
pub proof fn request_numbers(takes: bool, gives: bool, size: u16, nr: u8, r: u32)
    requires
        call_ensures(sle_uapi::request_code, (takes, gives, size, nr), r),
        size < 0x4000,
    ensures
        r % 0x100 == nr,
        r / 0x100 % 0x100 == 0x53,
        r / 0x1_0000 % 0x4000 == size,
        r / 0x4000_0000 % 2 == 1 <==> takes,
        r / 0x8000_0000 == 1 <==> gives,
{
    let t: int = if takes {
        1
    } else {
        0
    };
    let g: int = if gives {
        1
    } else {
        0
    };
    let hi = size + 0x4000 * (t + 2 * g);
    assert(r == nr + 0x100 * (0x53 + 0x100 * hi));
    assert(r / 0x100 == 0x53 + 0x100 * hi);
    assert(r / 0x1_0000 == hi);
    assert(hi / 0x4000 == t + 2 * g);
    assert(r / 0x4000_0000 == t + 2 * g);
}

/// SciDevInfo: `reserved` has to be zero.
pub proof fn sci_dev_info_reserved(x: &SciDevInfo, r: Result<(), Errno>)
    requires
        call_ensures(<SciDevInfo as CheckReserved>::check_reserved, (x,), r),
    ensures
        accepted_if(r, blank_bytes(x.reserved@)),
{
}

/// SleAdvParams: `reserved` has to be zero.
pub proof fn sle_adv_params_reserved(x: &SleAdvParams, r: Result<(), Errno>)
    requires
        call_ensures(<SleAdvParams as CheckReserved>::check_reserved, (x,), r),
    ensures
        accepted_if(r, blank_bytes(x.reserved@)),
{
}

/// SleScanParams: `reserved` has to be zero.
pub proof fn sle_scan_params_reserved(x: &SleScanParams, r: Result<(), Errno>)
    requires
        call_ensures(<SleScanParams as CheckReserved>::check_reserved, (x,), r),
    ensures
        accepted_if(r, blank_bytes(x.reserved@)),
{
}

/// SleExtAdvConfig: `reserved` has to be zero.
pub proof fn sle_ext_adv_config_reserved(x: &SleExtAdvConfig, r: Result<(), Errno>)
    requires
        call_ensures(<SleExtAdvConfig as CheckReserved>::check_reserved, (x,), r),
    ensures
        accepted_if(r, blank_bytes(x.reserved@)),
{
}

/// SleExtAdvData: `pad` has to be zero.
pub proof fn sle_ext_adv_data_reserved(x: &SleExtAdvData, r: Result<(), Errno>)
    requires
        call_ensures(<SleExtAdvData as CheckReserved>::check_reserved, (x,), r),
    ensures
        accepted_if(r, x.pad == 0),
{
}

/// SleExtAdvInfo: `pad` has to be zero.
pub proof fn sle_ext_adv_info_reserved(x: &SleExtAdvInfo, r: Result<(), Errno>)
    requires
        call_ensures(<SleExtAdvInfo as CheckReserved>::check_reserved, (x,), r),
    ensures
        accepted_if(r, blank_bytes(x.pad@)),
{
}

/// SleExtAdvEnableParams: `reserved` has to be zero.
pub proof fn sle_ext_adv_enable_params_reserved(x: &SleExtAdvEnableParams, r: Result<(), Errno>)
    requires
        call_ensures(<SleExtAdvEnableParams as CheckReserved>::check_reserved, (x,), r),
    ensures
        accepted_if(r, blank_bytes(x.reserved@)),
{
}

/// SleInjectAdv: `reserved` has to be zero.
pub proof fn sle_inject_adv_reserved(x: &SleInjectAdv, r: Result<(), Errno>)
    requires
        call_ensures(<SleInjectAdv as CheckReserved>::check_reserved, (x,), r),
    ensures
        accepted_if(r, blank_bytes(x.reserved@)),
{
}

/// SleInjectRawAdv: `pad` has to be zero.
pub proof fn sle_inject_raw_adv_reserved(x: &SleInjectRawAdv, r: Result<(), Errno>)
    requires
        call_ensures(<SleInjectRawAdv as CheckReserved>::check_reserved, (x,), r),
    ensures
        accepted_if(r, x.pad == 0),
{
}

/// SleConnectParams: `pad` and `reserved` have to be zero.
pub proof fn sle_connect_params_reserved(x: &SleConnectParams, r: Result<(), Errno>)
    requires
        call_ensures(<SleConnectParams as CheckReserved>::check_reserved, (x,), r),
    ensures
        accepted_if(r, x.pad == 0 && blank_bytes(x.reserved@)),
{
}

/// SleConnInfo: every field has a meaning.
pub proof fn sle_conn_info_reserved(x: &SleConnInfo, r: Result<(), Errno>)
    requires
        call_ensures(<SleConnInfo as CheckReserved>::check_reserved, (x,), r),
    ensures
        accepted_if(r, true),
{
}

/// SleConnData: `reserved` has to be zero.
pub proof fn sle_conn_data_reserved(x: &SleConnData, r: Result<(), Errno>)
    requires
        call_ensures(<SleConnData as CheckReserved>::check_reserved, (x,), r),
    ensures
        accepted_if(r, x.reserved == 0),
{
}

/// SleInjectConnResp: `pad` has to be zero.
pub proof fn sle_inject_conn_resp_reserved(x: &SleInjectConnResp, r: Result<(), Errno>)
    requires
        call_ensures(<SleInjectConnResp as CheckReserved>::check_reserved, (x,), r),
    ensures
        accepted_if(r, x.pad == 0),
{
}

/// SleConnList: `pad` and `reserved` have to be zero.
pub proof fn sle_conn_list_reserved(x: &SleConnList, r: Result<(), Errno>)
    requires
        call_ensures(<SleConnList as CheckReserved>::check_reserved, (x,), r),
    ensures
        accepted_if(r, x.pad == 0 && blank_bytes(x.reserved@)),
{
}

/// SleConnMtuParams: `pad` has to be zero.
pub proof fn sle_conn_mtu_params_reserved(x: &SleConnMtuParams, r: Result<(), Errno>)
    requires
        call_ensures(<SleConnMtuParams as CheckReserved>::check_reserved, (x,), r),
    ensures
        accepted_if(r, x.pad == 0),
{
}

/// SleAfhMapParams: `pad` and `pad2` have to be zero.
pub proof fn sle_afh_map_params_reserved(x: &SleAfhMapParams, r: Result<(), Errno>)
    requires
        call_ensures(<SleAfhMapParams as CheckReserved>::check_reserved, (x,), r),
    ensures
        accepted_if(r, x.pad == 0 && x.pad2 == 0),
{
}

/// SleAfhRssiReport: every field has a meaning.
pub proof fn sle_afh_rssi_report_reserved(x: &SleAfhRssiReport, r: Result<(), Errno>)
    requires
        call_ensures(<SleAfhRssiReport as CheckReserved>::check_reserved, (x,), r),
    ensures
        accepted_if(r, true),
{
}

/// SleAfhClassifyParams: `pad` has to be zero.
pub proof fn sle_afh_classify_params_reserved(x: &SleAfhClassifyParams, r: Result<(), Errno>)
    requires
        call_ensures(<SleAfhClassifyParams as CheckReserved>::check_reserved, (x,), r),
    ensures
        accepted_if(r, x.pad == 0),
{
}

/// SleAfhHopInfo: `pad` has to be zero.
pub proof fn sle_afh_hop_info_reserved(x: &SleAfhHopInfo, r: Result<(), Errno>)
    requires
        call_ensures(<SleAfhHopInfo as CheckReserved>::check_reserved, (x,), r),
    ensures
        accepted_if(r, x.pad == 0),
{
}

/// SleAfhRetxReport: every field has a meaning.
pub proof fn sle_afh_retx_report_reserved(x: &SleAfhRetxReport, r: Result<(), Errno>)
    requires
        call_ensures(<SleAfhRetxReport as CheckReserved>::check_reserved, (x,), r),
    ensures
        accepted_if(r, true),
{
}

/// SleSyncCigConfig: `pad` has to be zero.
pub proof fn sle_sync_cig_config_reserved(x: &SleSyncCigConfig, r: Result<(), Errno>)
    requires
        call_ensures(<SleSyncCigConfig as CheckReserved>::check_reserved, (x,), r),
    ensures
        accepted_if(r, x.pad == 0),
{
}

/// SleSyncBigConfig: `pad` has to be zero.
pub proof fn sle_sync_big_config_reserved(x: &SleSyncBigConfig, r: Result<(), Errno>)
    requires
        call_ensures(<SleSyncBigConfig as CheckReserved>::check_reserved, (x,), r),
    ensures
        accepted_if(r, x.pad == 0),
{
}

/// SleSyncCreateCmd: `pad` has to be zero.
pub proof fn sle_sync_create_cmd_reserved(x: &SleSyncCreateCmd, r: Result<(), Errno>)
    requires
        call_ensures(<SleSyncCreateCmd as CheckReserved>::check_reserved, (x,), r),
    ensures
        accepted_if(r, blank_bytes(x.pad@)),
{
}

/// SleSyncDatapathCmd: `pad` has to be zero.
pub proof fn sle_sync_datapath_cmd_reserved(x: &SleSyncDatapathCmd, r: Result<(), Errno>)
    requires
        call_ensures(<SleSyncDatapathCmd as CheckReserved>::check_reserved, (x,), r),
    ensures
        accepted_if(r, blank_bytes(x.pad@)),
{
}

/// SleSyncLinkInfo: `pad2` has to be zero.
pub proof fn sle_sync_link_info_reserved(x: &SleSyncLinkInfo, r: Result<(), Errno>)
    requires
        call_ensures(<SleSyncLinkInfo as CheckReserved>::check_reserved, (x,), r),
    ensures
        accepted_if(r, blank_bytes(x.pad2@)),
{
}

/// SleSyncRejectCmd: `pad` has to be zero.
pub proof fn sle_sync_reject_cmd_reserved(x: &SleSyncRejectCmd, r: Result<(), Errno>)
    requires
        call_ensures(<SleSyncRejectCmd as CheckReserved>::check_reserved, (x,), r),
    ensures
        accepted_if(r, x.pad == 0),
{
}

/// SleSyncDataCmd: `pad` and `pad2` have to be zero.
pub proof fn sle_sync_data_cmd_reserved(x: &SleSyncDataCmd, r: Result<(), Errno>)
    requires
        call_ensures(<SleSyncDataCmd as CheckReserved>::check_reserved, (x,), r),
    ensures
        accepted_if(r, blank_bytes(x.pad@) && x.pad2 == 0),
{
}

/// SlePskParams: every field has a meaning.
pub proof fn sle_psk_params_reserved(x: &SlePskParams, r: Result<(), Errno>)
    requires
        call_ensures(<SlePskParams as CheckReserved>::check_reserved, (x,), r),
    ensures
        accepted_if(r, true),
{
}

/// SlePairParams: `reserved` has to be zero.
pub proof fn sle_pair_params_reserved(x: &SlePairParams, r: Result<(), Errno>)
    requires
        call_ensures(<SlePairParams as CheckReserved>::check_reserved, (x,), r),
    ensures
        accepted_if(r, blank_bytes(x.reserved@)),
{
}

/// SleOobData: every field has a meaning.
pub proof fn sle_oob_data_reserved(x: &SleOobData, r: Result<(), Errno>)
    requires
        call_ensures(<SleOobData as CheckReserved>::check_reserved, (x,), r),
    ensures
        accepted_if(r, true),
{
}

/// SlePasswordParams: `reserved` has to be zero.
pub proof fn sle_password_params_reserved(x: &SlePasswordParams, r: Result<(), Errno>)
    requires
        call_ensures(<SlePasswordParams as CheckReserved>::check_reserved, (x,), r),
    ensures
        accepted_if(r, blank_bytes(x.reserved@)),
{
}

/// SlePasskeyInput: every field has a meaning.
pub proof fn sle_passkey_input_reserved(x: &SlePasskeyInput, r: Result<(), Errno>)
    requires
        call_ensures(<SlePasskeyInput as CheckReserved>::check_reserved, (x,), r),
    ensures
        accepted_if(r, true),
{
}

/// SleRalAddParams: `reserved` has to be zero.
pub proof fn sle_ral_add_params_reserved(x: &SleRalAddParams, r: Result<(), Errno>)
    requires
        call_ensures(<SleRalAddParams as CheckReserved>::check_reserved, (x,), r),
    ensures
        accepted_if(r, blank_bytes(x.reserved@)),
{
}

/// SleRalRemoveParams: `reserved` has to be zero.
pub proof fn sle_ral_remove_params_reserved(x: &SleRalRemoveParams, r: Result<(), Errno>)
    requires
        call_ensures(<SleRalRemoveParams as CheckReserved>::check_reserved, (x,), r),
    ensures
        accepted_if(r, x.reserved == 0),
{
}

/// SleRalQueryParams: `reserved` and `pad` have to be zero.
pub proof fn sle_ral_query_params_reserved(x: &SleRalQueryParams, r: Result<(), Errno>)
    requires
        call_ensures(<SleRalQueryParams as CheckReserved>::check_reserved, (x,), r),
    ensures
        accepted_if(r, x.reserved == 0 && blank_bytes(x.pad@)),
{
}

/// SleSecInfo: `reserved` has to be zero.
pub proof fn sle_sec_info_reserved(x: &SleSecInfo, r: Result<(), Errno>)
    requires
        call_ensures(<SleSecInfo as CheckReserved>::check_reserved, (x,), r),
    ensures
        accepted_if(r, blank_bytes(x.reserved@)),
{
}

/// SleHashTest: `pad` has to be zero.
pub proof fn sle_hash_test_reserved(x: &SleHashTest, r: Result<(), Errno>)
    requires
        call_ensures(<SleHashTest as CheckReserved>::check_reserved, (x,), r),
    ensures
        accepted_if(r, x.pad == 0),
{
}

/// SleSm4BlockTest: `pad` has to be zero.
pub proof fn sle_sm4_block_test_reserved(x: &SleSm4BlockTest, r: Result<(), Errno>)
    requires
        call_ensures(<SleSm4BlockTest as CheckReserved>::check_reserved, (x,), r),
    ensures
        accepted_if(r, blank_bytes(x.pad@)),
{
}

/// SleHmacTest: every field has a meaning.
pub proof fn sle_hmac_test_reserved(x: &SleHmacTest, r: Result<(), Errno>)
    requires
        call_ensures(<SleHmacTest as CheckReserved>::check_reserved, (x,), r),
    ensures
        accepted_if(r, true),
{
}

/// SsapSummary: `reserved` has to be zero.
pub proof fn ssap_summary_reserved(x: &SsapSummary, r: Result<(), Errno>)
    requires
        call_ensures(<SsapSummary as CheckReserved>::check_reserved, (x,), r),
    ensures
        accepted_if(r, blank_bytes(x.reserved@)),
{
}

/// SsapReadWrite: every field has a meaning.
pub proof fn ssap_read_write_reserved(x: &SsapReadWrite, r: Result<(), Errno>)
    requires
        call_ensures(<SsapReadWrite as CheckReserved>::check_reserved, (x,), r),
    ensures
        accepted_if(r, true),
{
}

/// SsapServiceEntry: `pad` has to be zero.
pub proof fn ssap_service_entry_reserved(x: &SsapServiceEntry, r: Result<(), Errno>)
    requires
        call_ensures(<SsapServiceEntry as CheckReserved>::check_reserved, (x,), r),
    ensures
        accepted_if(r, x.pad == 0),
{
}

/// SsapServiceList: `pad` has to be zero.
pub proof fn ssap_service_list_reserved(x: &SsapServiceList, r: Result<(), Errno>)
    requires
        call_ensures(<SsapServiceList as CheckReserved>::check_reserved, (x,), r),
    ensures
        accepted_if(r, blank_bytes(x.pad@)),
{
}

/// SsapNotification: every field has a meaning.
pub proof fn ssap_notification_reserved(x: &SsapNotification, r: Result<(), Errno>)
    requires
        call_ensures(<SsapNotification as CheckReserved>::check_reserved, (x,), r),
    ensures
        accepted_if(r, true),
{
}

/// SsapAddService: `pad` and `reserved` have to be zero.
pub proof fn ssap_add_service_reserved(x: &SsapAddService, r: Result<(), Errno>)
    requires
        call_ensures(<SsapAddService as CheckReserved>::check_reserved, (x,), r),
    ensures
        accepted_if(r, x.pad == 0 && blank_bytes(x.reserved@)),
{
}

/// SsapAddProperty: `reserved` has to be zero.
pub proof fn ssap_add_property_reserved(x: &SsapAddProperty, r: Result<(), Errno>)
    requires
        call_ensures(<SsapAddProperty as CheckReserved>::check_reserved, (x,), r),
    ensures
        accepted_if(r, blank_bytes(x.reserved@)),
{
}

/// SsapRemoteCmd: `reserved` has to be zero.
pub proof fn ssap_remote_cmd_reserved(x: &SsapRemoteCmd, r: Result<(), Errno>)
    requires
        call_ensures(<SsapRemoteCmd as CheckReserved>::check_reserved, (x,), r),
    ensures
        accepted_if(r, blank_bytes(x.reserved@)),
{
}

/// SsapRemoteDiscover: every field has a meaning.
pub proof fn ssap_remote_discover_reserved(x: &SsapRemoteDiscover, r: Result<(), Errno>)
    requires
        call_ensures(<SsapRemoteDiscover as CheckReserved>::check_reserved, (x,), r),
    ensures
        accepted_if(r, true),
{
}

/// SsapRemoteReadWrite: `pad` has to be zero.
pub proof fn ssap_remote_read_write_reserved(x: &SsapRemoteReadWrite, r: Result<(), Errno>)
    requires
        call_ensures(<SsapRemoteReadWrite as CheckReserved>::check_reserved, (x,), r),
    ensures
        accepted_if(r, blank_bytes(x.pad@)),
{
}

/// SsapUuidOp: every field has a meaning.
pub proof fn ssap_uuid_op_reserved(x: &SsapUuidOp, r: Result<(), Errno>)
    requires
        call_ensures(<SsapUuidOp as CheckReserved>::check_reserved, (x,), r),
    ensures
        accepted_if(r, true),
{
}

/// SlePmInfo: `pad` and `reserved` have to be zero.
pub proof fn sle_pm_info_reserved(x: &SlePmInfo, r: Result<(), Errno>)
    requires
        call_ensures(<SlePmInfo as CheckReserved>::check_reserved, (x,), r),
    ensures
        accepted_if(r, x.pad == 0 && blank_bytes(x.reserved@)),
{
}

/// SlePmStateCmd: `reserved` has to be zero.
pub proof fn sle_pm_state_cmd_reserved(x: &SlePmStateCmd, r: Result<(), Errno>)
    requires
        call_ensures(<SlePmStateCmd as CheckReserved>::check_reserved, (x,), r),
    ensures
        accepted_if(r, blank_bytes(x.reserved@)),
{
}

/// SlePmInterval: every field has a meaning.
pub proof fn sle_pm_interval_reserved(x: &SlePmInterval, r: Result<(), Errno>)
    requires
        call_ensures(<SlePmInterval as CheckReserved>::check_reserved, (x,), r),
    ensures
        accepted_if(r, true),
{
}

/// SleEventStats: `pad` has to be zero.
pub proof fn sle_event_stats_reserved(x: &SleEventStats, r: Result<(), Errno>)
    requires
        call_ensures(<SleEventStats as CheckReserved>::check_reserved, (x,), r),
    ensures
        accepted_if(r, x.pad == 0),
{
}

/// SleDliInfo: `pad` and `reserved` have to be zero.
pub proof fn sle_dli_info_reserved(x: &SleDliInfo, r: Result<(), Errno>)
    requires
        call_ensures(<SleDliInfo as CheckReserved>::check_reserved, (x,), r),
    ensures
        accepted_if(r, blank_bytes(x.pad@) && blank_bytes(x.reserved@)),
{
}

/// SleDliEvent: `pad` has to be zero.
pub proof fn sle_dli_event_reserved(x: &SleDliEvent, r: Result<(), Errno>)
    requires
        call_ensures(<SleDliEvent as CheckReserved>::check_reserved, (x,), r),
    ensures
        accepted_if(r, blank_bytes(x.pad@)),
{
}

/// SleDliCmd: every field has a meaning.
pub proof fn sle_dli_cmd_reserved(x: &SleDliCmd, r: Result<(), Errno>)
    requires
        call_ensures(<SleDliCmd as CheckReserved>::check_reserved, (x,), r),
    ensures
        accepted_if(r, true),
{
}

/// SleMgmtStats: `pad` has to be zero.
pub proof fn sle_mgmt_stats_reserved(x: &SleMgmtStats, r: Result<(), Errno>)
    requires
        call_ensures(<SleMgmtStats as CheckReserved>::check_reserved, (x,), r),
    ensures
        accepted_if(r, x.pad == 0),
{
}

/// SleSubsysStats: `pad` has to be zero.
pub proof fn sle_subsys_stats_reserved(x: &SleSubsysStats, r: Result<(), Errno>)
    requires
        call_ensures(<SleSubsysStats as CheckReserved>::check_reserved, (x,), r),
    ensures
        accepted_if(r, blank_bytes(x.pad@)),
{
}

/// SlePhyInfo: `pad` and `reserved` have to be zero.
pub proof fn sle_phy_info_reserved(x: &SlePhyInfo, r: Result<(), Errno>)
    requires
        call_ensures(<SlePhyInfo as CheckReserved>::check_reserved, (x,), r),
    ensures
        accepted_if(r, x.pad == 0 && blank_bytes(x.reserved@)),
{
}

/// SlePhyMcsCmd: `reserved` has to be zero.
pub proof fn sle_phy_mcs_cmd_reserved(x: &SlePhyMcsCmd, r: Result<(), Errno>)
    requires
        call_ensures(<SlePhyMcsCmd as CheckReserved>::check_reserved, (x,), r),
    ensures
        accepted_if(r, blank_bytes(x.reserved@)),
{
}

/// SlePhyTxPowerCmd: `reserved` has to be zero.
pub proof fn sle_phy_tx_power_cmd_reserved(x: &SlePhyTxPowerCmd, r: Result<(), Errno>)
    requires
        call_ensures(<SlePhyTxPowerCmd as CheckReserved>::check_reserved, (x,), r),
    ensures
        accepted_if(r, blank_bytes(x.reserved@)),
{
}

/// SlePhyMcsSelect: every field has a meaning.
pub proof fn sle_phy_mcs_select_reserved(x: &SlePhyMcsSelect, r: Result<(), Errno>)
    requires
        call_ensures(<SlePhyMcsSelect as CheckReserved>::check_reserved, (x,), r),
    ensures
        accepted_if(r, true),
{
}

/// SlePhyHopInfo: `pad` and `reserved` have to be zero.
pub proof fn sle_phy_hop_info_reserved(x: &SlePhyHopInfo, r: Result<(), Errno>)
    requires
        call_ensures(<SlePhyHopInfo as CheckReserved>::check_reserved, (x,), r),
    ensures
        accepted_if(r, x.pad == 0 && blank_bytes(x.reserved@)),
{
}

/// SlePhyBwCmd: `reserved` has to be zero.
pub proof fn sle_phy_bw_cmd_reserved(x: &SlePhyBwCmd, r: Result<(), Errno>)
    requires
        call_ensures(<SlePhyBwCmd as CheckReserved>::check_reserved, (x,), r),
    ensures
        accepted_if(r, blank_bytes(x.reserved@)),
{
}

/// SleSinrThresholds: `pad` has to be zero.
pub proof fn sle_sinr_thresholds_reserved(x: &SleSinrThresholds, r: Result<(), Errno>)
    requires
        call_ensures(<SleSinrThresholds as CheckReserved>::check_reserved, (x,), r),
    ensures
        accepted_if(r, blank_bytes(x.pad@)),
{
}

/// SleConnPeerCap: `reserved` has to be zero.
pub proof fn sle_conn_peer_cap_reserved(x: &SleConnPeerCap, r: Result<(), Errno>)
    requires
        call_ensures(<SleConnPeerCap as CheckReserved>::check_reserved, (x,), r),
    ensures
        accepted_if(r, blank_bytes(x.reserved@)),
{
}

/// SleConnParamUpdate: `reserved` has to be zero.
pub proof fn sle_conn_param_update_reserved(x: &SleConnParamUpdate, r: Result<(), Errno>)
    requires
        call_ensures(<SleConnParamUpdate as CheckReserved>::check_reserved, (x,), r),
    ensures
        accepted_if(r, blank_bytes(x.reserved@)),
{
}

/// SleConnPhyUpdate: every field has a meaning.
pub proof fn sle_conn_phy_update_reserved(x: &SleConnPhyUpdate, r: Result<(), Errno>)
    requires
        call_ensures(<SleConnPhyUpdate as CheckReserved>::check_reserved, (x,), r),
    ensures
        accepted_if(r, true),
{
}

/// SleScanFilter: `reserved` has to be zero.
pub proof fn sle_scan_filter_reserved(x: &SleScanFilter, r: Result<(), Errno>)
    requires
        call_ensures(<SleScanFilter as CheckReserved>::check_reserved, (x,), r),
    ensures
        accepted_if(r, blank_bytes(x.reserved@)),
{
}

/// SleMeasCap: `reserved` has to be zero.
pub proof fn sle_meas_cap_reserved(x: &SleMeasCap, r: Result<(), Errno>)
    requires
        call_ensures(<SleMeasCap as CheckReserved>::check_reserved, (x,), r),
    ensures
        accepted_if(r, x.reserved == 0),
{
}

/// SleMeasLinkParam: every field has a meaning.
pub proof fn sle_meas_link_param_reserved(x: &SleMeasLinkParam, r: Result<(), Errno>)
    requires
        call_ensures(<SleMeasLinkParam as CheckReserved>::check_reserved, (x,), r),
    ensures
        accepted_if(r, true),
{
}

/// SleMeasAction: every field has a meaning.
pub proof fn sle_meas_action_reserved(x: &SleMeasAction, r: Result<(), Errno>)
    requires
        call_ensures(<SleMeasAction as CheckReserved>::check_reserved, (x,), r),
    ensures
        accepted_if(r, true),
{
}

} // verus!
