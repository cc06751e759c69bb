use sparklink::errno::Errno;
use sparklink::sle_uapi::{
    request_code, CheckReserved, DiscoveryLevel, IsZeroPad, SciBus, SciDevInfo, SciState,
    SleConnectParams, SleExtAdvData,
    SL_IOCTL_AFH_CLASSIFY, SL_IOCTL_AFH_GET_MAP, SL_IOCTL_AFH_HOP_NEXT, SL_IOCTL_AFH_REPORT_RETX,
    SL_IOCTL_AFH_REPORT_RSSI, SL_IOCTL_AFH_SET_MAP, SL_IOCTL_CLEAR_SCAN_FILTER, SL_IOCTL_CONNECT,
    SL_IOCTL_CONN_COUNT, SL_IOCTL_CONN_INFO, SL_IOCTL_CONN_LIST, SL_IOCTL_CONN_PHY_UPDATE,
    SL_IOCTL_CONN_READ_PEER_FEATURES, SL_IOCTL_CONN_READ_PEER_VERSION, SL_IOCTL_CONN_RECV,
    SL_IOCTL_CONN_SEND, SL_IOCTL_CONN_UPDATE_PARAMS, SL_IOCTL_DEV_COUNT, SL_IOCTL_DEV_GET_ACTIVE,
    SL_IOCTL_DEV_INFO, SL_IOCTL_DEV_LIST, SL_IOCTL_DEV_REGISTER, SL_IOCTL_DEV_SELECT,
    SL_IOCTL_DEV_SWITCH, SL_IOCTL_DEV_UNREGISTER, SL_IOCTL_DISCONNECT, SL_IOCTL_DLI_INFO,
    SL_IOCTL_DLI_POLL_EVENT, SL_IOCTL_DLI_RESET, SL_IOCTL_DLI_SEND_CMD, SL_IOCTL_EVENT_COUNT,
    SL_IOCTL_EVENT_STATS, SL_IOCTL_EXT_ADV_CONFIGURE, SL_IOCTL_EXT_ADV_DISABLE,
    SL_IOCTL_EXT_ADV_ENABLE, SL_IOCTL_EXT_ADV_ENABLE_EX, SL_IOCTL_EXT_ADV_INFO,
    SL_IOCTL_EXT_ADV_REMOVE, SL_IOCTL_EXT_ADV_SET_DATA, SL_IOCTL_EXT_ADV_TICK, SL_IOCTL_GET_ROLE,
    SL_IOCTL_INJECT_ADV, SL_IOCTL_INJECT_CONN_DATA, SL_IOCTL_INJECT_CONN_RESP,
    SL_IOCTL_INJECT_RAW_ADV, SL_IOCTL_MEAS_ACTION, SL_IOCTL_MEAS_ENABLE, SL_IOCTL_MEAS_READ_CAP,
    SL_IOCTL_MEAS_SET_LINK_PARAM, SL_IOCTL_MGMT_STATS, SL_IOCTL_PHY_GET_SINR,
    SL_IOCTL_PHY_HOP_NEXT, SL_IOCTL_PHY_INFO, SL_IOCTL_PHY_MCS_SELECT, SL_IOCTL_PHY_SET_BW,
    SL_IOCTL_PHY_SET_MCS, SL_IOCTL_PHY_SET_SINR, SL_IOCTL_PHY_SET_TXPOWER, SL_IOCTL_PM_ACTIVITY,
    SL_IOCTL_PM_FORCE_ACTIVE, SL_IOCTL_PM_INFO, SL_IOCTL_PM_SET_INTERVAL, SL_IOCTL_PM_SET_STATE,
    SL_IOCTL_PM_TICK, SL_IOCTL_RAL_ADD, SL_IOCTL_RAL_CLEAR, SL_IOCTL_RAL_READ_LOCAL_RPA,
    SL_IOCTL_RAL_READ_PEER_RPA, SL_IOCTL_RAL_REMOVE, SL_IOCTL_RAL_SIZE, SL_IOCTL_RPA_ENABLE,
    SL_IOCTL_RPA_SET_TIMEOUT, SL_IOCTL_SCAN_RESULT_COUNT, SL_IOCTL_SEC_CONFIRM_PASSKEY,
    SL_IOCTL_SEC_ENCRYPT_ON, SL_IOCTL_SEC_GET_PASSKEY, SL_IOCTL_SEC_HMAC_TEST, SL_IOCTL_SEC_INFO,
    SL_IOCTL_SEC_INPUT_PASSKEY, SL_IOCTL_SEC_PAIR, SL_IOCTL_SEC_REJECT_PASSKEY,
    SL_IOCTL_SEC_RESET, SL_IOCTL_SEC_SET_OOB, SL_IOCTL_SEC_SET_PASSWORD, SL_IOCTL_SEC_SET_PSK,
    SL_IOCTL_SEC_SM3_TEST, SL_IOCTL_SEC_SM4_BLOCK_TEST, SL_IOCTL_SEC_SM4_DEC_TEST,
    SL_IOCTL_SEC_SM4_ENC_TEST, SL_IOCTL_SET_CONN_MTU, SL_IOCTL_SET_ROLE,
    SL_IOCTL_SET_SCAN_FILTER, SL_IOCTL_SSAP_ADD_PROP, SL_IOCTL_SSAP_ADD_SVC,
    SL_IOCTL_SSAP_CALL_METHOD, SL_IOCTL_SSAP_DEQUEUE_NTF, SL_IOCTL_SSAP_EXCHANGE_INFO,
    SL_IOCTL_SSAP_FIND_BY_UUID, SL_IOCTL_SSAP_FIND_SVC, SL_IOCTL_SSAP_INFO, SL_IOCTL_SSAP_NOTIFY,
    SL_IOCTL_SSAP_READ, SL_IOCTL_SSAP_READ_BY_UUID, SL_IOCTL_SSAP_REGISTER_SVC,
    SL_IOCTL_SSAP_REMOTE_DISCOVER, SL_IOCTL_SSAP_REMOTE_EVENT, SL_IOCTL_SSAP_REMOTE_READ,
    SL_IOCTL_SSAP_REMOTE_WRITE, SL_IOCTL_SSAP_REMOVE_SVC, SL_IOCTL_SSAP_WRITE,
    SL_IOCTL_START_ADV, SL_IOCTL_START_SCAN, SL_IOCTL_STOP_ADV, SL_IOCTL_STOP_SCAN,
    SL_IOCTL_SUBSYS_STATS, SL_IOCTL_SYNC_DATAPATH_CFG, SL_IOCTL_SYNC_DATAPATH_REMOVE,
    SL_IOCTL_SYNC_DATA_SEND, SL_IOCTL_SYNC_INFO, SL_IOCTL_SYNC_MCAST_ACCEPT,
    SL_IOCTL_SYNC_MCAST_CREATE, SL_IOCTL_SYNC_MCAST_PARAM, SL_IOCTL_SYNC_MCAST_REJECT,
    SL_IOCTL_SYNC_MCAST_REMOVE, SL_IOCTL_SYNC_UCAST_ACCEPT, SL_IOCTL_SYNC_UCAST_CREATE,
    SL_IOCTL_SYNC_UCAST_PARAM, SL_IOCTL_SYNC_UCAST_REJECT, SL_IOCTL_SYNC_UCAST_REMOVE,
    SL_IOCTL_USB_DEV_COUNT,
};

#[test]
fn request_numbers() {
    for (code, takes, gives, size, nr) in [
        (SL_IOCTL_DEV_REGISTER, false, false, 0, 0x01),
        (SL_IOCTL_DEV_UNREGISTER, true, false, 2, 0x02),
        (SL_IOCTL_DEV_COUNT, false, true, 4, 0x03),
        (SL_IOCTL_DEV_INFO, false, true, 66, 0x04),
        (SL_IOCTL_DEV_SWITCH, true, false, 2, 0x05),
        (SL_IOCTL_DEV_LIST, false, true, 2, 0x06),
        (SL_IOCTL_DEV_SELECT, true, false, 2, 0x07),
        (SL_IOCTL_DEV_GET_ACTIVE, false, true, 2, 0x08),
        (SL_IOCTL_START_ADV, true, false, 16, 0x10),
        (SL_IOCTL_STOP_ADV, false, false, 0, 0x11),
        (SL_IOCTL_START_SCAN, true, false, 16, 0x12),
        (SL_IOCTL_STOP_SCAN, false, false, 0, 0x13),
        (SL_IOCTL_EXT_ADV_CONFIGURE, true, false, 16, 0x14),
        (SL_IOCTL_EXT_ADV_SET_DATA, true, false, 256, 0x15),
        (SL_IOCTL_EXT_ADV_ENABLE, true, false, 1, 0x16),
        (SL_IOCTL_EXT_ADV_DISABLE, true, false, 1, 0x17),
        (SL_IOCTL_EXT_ADV_REMOVE, true, false, 1, 0x18),
        (SL_IOCTL_EXT_ADV_INFO, true, true, 24, 0x19),
        (SL_IOCTL_EXT_ADV_ENABLE_EX, true, false, 8, 0x1A),
        (SL_IOCTL_EXT_ADV_TICK, false, false, 0, 0x1B),
        (SL_IOCTL_INJECT_ADV, true, false, 48, 0x20),
        (SL_IOCTL_SCAN_RESULT_COUNT, false, false, 0, 0x21),
        (SL_IOCTL_INJECT_RAW_ADV, true, false, 268, 0x22),
        (SL_IOCTL_SET_SCAN_FILTER, true, false, 12, 0x23),
        (SL_IOCTL_CLEAR_SCAN_FILTER, false, false, 0, 0x24),
        (SL_IOCTL_CONNECT, true, false, 16, 0x30),
        (SL_IOCTL_DISCONNECT, true, false, 2, 0x31),
        (SL_IOCTL_CONN_INFO, true, true, 64, 0x32),
        (SL_IOCTL_CONN_SEND, true, false, 260, 0x33),
        (SL_IOCTL_CONN_RECV, true, true, 260, 0x34),
        (SL_IOCTL_INJECT_CONN_RESP, true, false, 12, 0x35),
        (SL_IOCTL_INJECT_CONN_DATA, true, false, 260, 0x36),
        (SL_IOCTL_CONN_COUNT, false, false, 0, 0x37),
        (SL_IOCTL_CONN_LIST, false, true, 24, 0x38),
        (SL_IOCTL_SET_CONN_MTU, true, false, 8, 0x39),
        (SL_IOCTL_AFH_SET_MAP, true, false, 16, 0x3A),
        (SL_IOCTL_AFH_GET_MAP, true, true, 16, 0x3B),
        (SL_IOCTL_AFH_REPORT_RSSI, true, false, 4, 0x3C),
        (SL_IOCTL_AFH_CLASSIFY, true, true, 16, 0x3D),
        (SL_IOCTL_AFH_HOP_NEXT, true, true, 8, 0x3E),
        (SL_IOCTL_AFH_REPORT_RETX, true, false, 4, 0x3F),
        (SL_IOCTL_SEC_SET_PSK, true, false, 16, 0x40),
        (SL_IOCTL_SEC_PAIR, true, false, 4, 0x41),
        (SL_IOCTL_SEC_INFO, false, true, 16, 0x42),
        (SL_IOCTL_SEC_ENCRYPT_ON, false, false, 0, 0x43),
        (SL_IOCTL_SEC_SM3_TEST, true, false, 256, 0x44),
        (SL_IOCTL_SEC_SM4_ENC_TEST, true, false, 260, 0x45),
        (SL_IOCTL_SEC_SM4_DEC_TEST, true, false, 260, 0x46),
        (SL_IOCTL_SEC_SM4_BLOCK_TEST, true, true, 64, 0x47),
        (SL_IOCTL_SEC_HMAC_TEST, true, true, 260, 0x48),
        (SL_IOCTL_SEC_RESET, false, false, 0, 0x49),
        (SL_IOCTL_SEC_GET_PASSKEY, false, true, 4, 0x4A),
        (SL_IOCTL_SEC_CONFIRM_PASSKEY, false, false, 0, 0x4B),
        (SL_IOCTL_SEC_REJECT_PASSKEY, false, false, 0, 0x4C),
        (SL_IOCTL_SEC_SET_OOB, true, false, 64, 0x4D),
        (SL_IOCTL_SEC_INPUT_PASSKEY, true, false, 4, 0x4E),
        (SL_IOCTL_SEC_SET_PASSWORD, true, false, 36, 0x4F),
        (SL_IOCTL_SSAP_REGISTER_SVC, false, false, 0, 0x50),
        (SL_IOCTL_SSAP_INFO, false, true, 16, 0x51),
        (SL_IOCTL_SSAP_READ, true, true, 256, 0x52),
        (SL_IOCTL_SSAP_WRITE, true, false, 256, 0x53),
        (SL_IOCTL_SSAP_FIND_SVC, false, true, 124, 0x54),
        (SL_IOCTL_SSAP_NOTIFY, true, false, 2, 0x55),
        (SL_IOCTL_SSAP_DEQUEUE_NTF, false, true, 256, 0x56),
        (SL_IOCTL_SSAP_ADD_SVC, true, true, 28, 0x57),
        (SL_IOCTL_SSAP_ADD_PROP, true, true, 256, 0x58),
        (SL_IOCTL_SSAP_REMOVE_SVC, true, false, 2, 0x59),
        (SL_IOCTL_SSAP_EXCHANGE_INFO, true, false, 4, 0x5A),
        (SL_IOCTL_SSAP_REMOTE_DISCOVER, true, true, 8, 0x5B),
        (SL_IOCTL_SSAP_REMOTE_READ, true, true, 256, 0x5C),
        (SL_IOCTL_SSAP_REMOTE_WRITE, true, false, 256, 0x5D),
        (SL_IOCTL_SSAP_REMOTE_EVENT, false, true, 256, 0x5E),
        (SL_IOCTL_SSAP_CALL_METHOD, true, true, 256, 0x5F),
        (SL_IOCTL_SSAP_FIND_BY_UUID, true, true, 256, 0x6F),
        (SL_IOCTL_SSAP_READ_BY_UUID, true, true, 256, 0x72),
        (SL_IOCTL_PM_INFO, false, true, 48, 0x60),
        (SL_IOCTL_PM_SET_STATE, true, false, 4, 0x61),
        (SL_IOCTL_PM_SET_INTERVAL, true, false, 8, 0x62),
        (SL_IOCTL_PM_FORCE_ACTIVE, true, false, 1, 0x63),
        (SL_IOCTL_PM_TICK, false, false, 0, 0x64),
        (SL_IOCTL_PM_ACTIVITY, false, false, 0, 0x65),
        (SL_IOCTL_SYNC_UCAST_PARAM, true, true, 40, 0x66),
        (SL_IOCTL_SYNC_UCAST_CREATE, true, false, 20, 0x67),
        (SL_IOCTL_SYNC_UCAST_REMOVE, true, false, 1, 0x68),
        (SL_IOCTL_SYNC_MCAST_PARAM, true, true, 40, 0x69),
        (SL_IOCTL_SYNC_MCAST_CREATE, true, false, 20, 0x6A),
        (SL_IOCTL_SYNC_MCAST_REMOVE, true, false, 1, 0x6B),
        (SL_IOCTL_SYNC_DATAPATH_CFG, true, false, 8, 0x6C),
        (SL_IOCTL_SYNC_DATAPATH_REMOVE, true, false, 2, 0x6D),
        (SL_IOCTL_SYNC_INFO, true, true, 24, 0x6E),
        (SL_IOCTL_SYNC_UCAST_ACCEPT, true, false, 2, 0x73),
        (SL_IOCTL_SYNC_UCAST_REJECT, true, false, 4, 0x74),
        (SL_IOCTL_SYNC_MCAST_ACCEPT, true, false, 2, 0x75),
        (SL_IOCTL_SYNC_MCAST_REJECT, true, false, 4, 0x76),
        (SL_IOCTL_SYNC_DATA_SEND, true, false, 256, 0x77),
        (SL_IOCTL_EVENT_COUNT, false, false, 0, 0x70),
        (SL_IOCTL_EVENT_STATS, false, true, 32, 0x71),
        (SL_IOCTL_DLI_INFO, false, true, 64, 0x80),
        (SL_IOCTL_USB_DEV_COUNT, false, false, 0, 0x81),
        (SL_IOCTL_DLI_POLL_EVENT, false, true, 256, 0x82),
        (SL_IOCTL_DLI_RESET, false, false, 0, 0x83),
        (SL_IOCTL_DLI_SEND_CMD, true, true, 248, 0x84),
        (SL_IOCTL_MGMT_STATS, false, true, 16, 0x85),
        (SL_IOCTL_SUBSYS_STATS, false, true, 36, 0x86),
        (SL_IOCTL_PHY_INFO, false, true, 24, 0x90),
        (SL_IOCTL_PHY_SET_MCS, true, false, 4, 0x91),
        (SL_IOCTL_PHY_SET_TXPOWER, true, false, 4, 0x92),
        (SL_IOCTL_PHY_MCS_SELECT, true, true, 12, 0x93),
        (SL_IOCTL_PHY_HOP_NEXT, false, true, 8, 0x94),
        (SL_IOCTL_PHY_SET_BW, true, false, 4, 0x95),
        (SL_IOCTL_PHY_GET_SINR, false, true, 28, 0x96),
        (SL_IOCTL_PHY_SET_SINR, true, false, 28, 0x97),
        (SL_IOCTL_CONN_READ_PEER_FEATURES, true, true, 22, 0x98),
        (SL_IOCTL_CONN_READ_PEER_VERSION, true, true, 22, 0x99),
        (SL_IOCTL_CONN_UPDATE_PARAMS, true, false, 12, 0x9A),
        (SL_IOCTL_CONN_PHY_UPDATE, true, false, 4, 0x9B),
        (SL_IOCTL_SET_ROLE, true, false, 1, 0xA0),
        (SL_IOCTL_GET_ROLE, false, true, 1, 0xA1),
        (SL_IOCTL_RAL_ADD, true, false, 44, 0xB0),
        (SL_IOCTL_RAL_REMOVE, true, false, 8, 0xB1),
        (SL_IOCTL_RAL_CLEAR, false, false, 0, 0xB2),
        (SL_IOCTL_RAL_SIZE, false, true, 1, 0xB3),
        (SL_IOCTL_RAL_READ_PEER_RPA, true, true, 16, 0xB4),
        (SL_IOCTL_RAL_READ_LOCAL_RPA, true, true, 16, 0xB5),
        (SL_IOCTL_RPA_ENABLE, true, false, 1, 0xB6),
        (SL_IOCTL_RPA_SET_TIMEOUT, true, false, 2, 0xB7),
        (SL_IOCTL_MEAS_READ_CAP, false, true, 4, 0xC0),
        (SL_IOCTL_MEAS_SET_LINK_PARAM, true, false, 8, 0xC1),
        (SL_IOCTL_MEAS_ACTION, true, false, 4, 0xC2),
        (SL_IOCTL_MEAS_ENABLE, true, false, 1, 0xC3),
    ] {
        assert_eq!(code, request_code(takes, gives, size, nr));
    }
}

#[test]
fn request_numbers_differ() {
    let mut all = vec![
        SL_IOCTL_DEV_REGISTER, SL_IOCTL_DEV_UNREGISTER, SL_IOCTL_DEV_COUNT, SL_IOCTL_DEV_INFO,
        SL_IOCTL_DEV_SWITCH, SL_IOCTL_DEV_LIST, SL_IOCTL_DEV_SELECT, SL_IOCTL_DEV_GET_ACTIVE,
        SL_IOCTL_START_ADV, SL_IOCTL_STOP_ADV, SL_IOCTL_START_SCAN, SL_IOCTL_STOP_SCAN,
        SL_IOCTL_EXT_ADV_CONFIGURE, SL_IOCTL_EXT_ADV_SET_DATA, SL_IOCTL_EXT_ADV_ENABLE,
        SL_IOCTL_EXT_ADV_DISABLE, SL_IOCTL_EXT_ADV_REMOVE, SL_IOCTL_EXT_ADV_INFO,
        SL_IOCTL_EXT_ADV_ENABLE_EX, SL_IOCTL_EXT_ADV_TICK, SL_IOCTL_INJECT_ADV,
        SL_IOCTL_SCAN_RESULT_COUNT, SL_IOCTL_INJECT_RAW_ADV, SL_IOCTL_SET_SCAN_FILTER,
        SL_IOCTL_CLEAR_SCAN_FILTER, SL_IOCTL_CONNECT, SL_IOCTL_DISCONNECT, SL_IOCTL_CONN_INFO,
        SL_IOCTL_CONN_SEND, SL_IOCTL_CONN_RECV, SL_IOCTL_INJECT_CONN_RESP,
        SL_IOCTL_INJECT_CONN_DATA, SL_IOCTL_CONN_COUNT, SL_IOCTL_CONN_LIST,
        SL_IOCTL_SET_CONN_MTU, SL_IOCTL_AFH_SET_MAP, SL_IOCTL_AFH_GET_MAP,
        SL_IOCTL_AFH_REPORT_RSSI, SL_IOCTL_AFH_CLASSIFY, SL_IOCTL_AFH_HOP_NEXT,
        SL_IOCTL_AFH_REPORT_RETX, SL_IOCTL_SEC_SET_PSK, SL_IOCTL_SEC_PAIR, SL_IOCTL_SEC_INFO,
        SL_IOCTL_SEC_ENCRYPT_ON, SL_IOCTL_SEC_SM3_TEST, SL_IOCTL_SEC_SM4_ENC_TEST,
        SL_IOCTL_SEC_SM4_DEC_TEST, SL_IOCTL_SEC_SM4_BLOCK_TEST, SL_IOCTL_SEC_HMAC_TEST,
        SL_IOCTL_SEC_RESET, SL_IOCTL_SEC_GET_PASSKEY, SL_IOCTL_SEC_CONFIRM_PASSKEY,
        SL_IOCTL_SEC_REJECT_PASSKEY, SL_IOCTL_SEC_SET_OOB, SL_IOCTL_SEC_INPUT_PASSKEY,
        SL_IOCTL_SEC_SET_PASSWORD, SL_IOCTL_SSAP_REGISTER_SVC, SL_IOCTL_SSAP_INFO,
        SL_IOCTL_SSAP_READ, SL_IOCTL_SSAP_WRITE, SL_IOCTL_SSAP_FIND_SVC, SL_IOCTL_SSAP_NOTIFY,
        SL_IOCTL_SSAP_DEQUEUE_NTF, SL_IOCTL_SSAP_ADD_SVC, SL_IOCTL_SSAP_ADD_PROP,
        SL_IOCTL_SSAP_REMOVE_SVC, SL_IOCTL_SSAP_EXCHANGE_INFO, SL_IOCTL_SSAP_REMOTE_DISCOVER,
        SL_IOCTL_SSAP_REMOTE_READ, SL_IOCTL_SSAP_REMOTE_WRITE, SL_IOCTL_SSAP_REMOTE_EVENT,
        SL_IOCTL_SSAP_CALL_METHOD, SL_IOCTL_SSAP_FIND_BY_UUID, SL_IOCTL_SSAP_READ_BY_UUID,
        SL_IOCTL_PM_INFO, SL_IOCTL_PM_SET_STATE, SL_IOCTL_PM_SET_INTERVAL,
        SL_IOCTL_PM_FORCE_ACTIVE, SL_IOCTL_PM_TICK, SL_IOCTL_PM_ACTIVITY,
        SL_IOCTL_SYNC_UCAST_PARAM, SL_IOCTL_SYNC_UCAST_CREATE, SL_IOCTL_SYNC_UCAST_REMOVE,
        SL_IOCTL_SYNC_MCAST_PARAM, SL_IOCTL_SYNC_MCAST_CREATE, SL_IOCTL_SYNC_MCAST_REMOVE,
        SL_IOCTL_SYNC_DATAPATH_CFG, SL_IOCTL_SYNC_DATAPATH_REMOVE, SL_IOCTL_SYNC_INFO,
        SL_IOCTL_SYNC_UCAST_ACCEPT, SL_IOCTL_SYNC_UCAST_REJECT, SL_IOCTL_SYNC_MCAST_ACCEPT,
        SL_IOCTL_SYNC_MCAST_REJECT, SL_IOCTL_SYNC_DATA_SEND, SL_IOCTL_EVENT_COUNT,
        SL_IOCTL_EVENT_STATS, SL_IOCTL_DLI_INFO, SL_IOCTL_USB_DEV_COUNT, SL_IOCTL_DLI_POLL_EVENT,
        SL_IOCTL_DLI_RESET, SL_IOCTL_DLI_SEND_CMD, SL_IOCTL_MGMT_STATS, SL_IOCTL_SUBSYS_STATS,
        SL_IOCTL_PHY_INFO, SL_IOCTL_PHY_SET_MCS, SL_IOCTL_PHY_SET_TXPOWER,
        SL_IOCTL_PHY_MCS_SELECT, SL_IOCTL_PHY_HOP_NEXT, SL_IOCTL_PHY_SET_BW,
        SL_IOCTL_PHY_GET_SINR, SL_IOCTL_PHY_SET_SINR, SL_IOCTL_CONN_READ_PEER_FEATURES,
        SL_IOCTL_CONN_READ_PEER_VERSION, SL_IOCTL_CONN_UPDATE_PARAMS, SL_IOCTL_CONN_PHY_UPDATE,
        SL_IOCTL_SET_ROLE, SL_IOCTL_GET_ROLE, SL_IOCTL_RAL_ADD, SL_IOCTL_RAL_REMOVE,
        SL_IOCTL_RAL_CLEAR, SL_IOCTL_RAL_SIZE, SL_IOCTL_RAL_READ_PEER_RPA,
        SL_IOCTL_RAL_READ_LOCAL_RPA, SL_IOCTL_RPA_ENABLE, SL_IOCTL_RPA_SET_TIMEOUT,
        SL_IOCTL_MEAS_READ_CAP, SL_IOCTL_MEAS_SET_LINK_PARAM, SL_IOCTL_MEAS_ACTION,
        SL_IOCTL_MEAS_ENABLE,
    ];
    let n = all.len();
    all.sort();
    all.dedup();
    assert_eq!(all.len(), n);
}

#[test]
fn fields_without_meaning_must_be_zero() {
    let mut p = SleConnectParams::default();
    assert_eq!(p.check_reserved(), Ok(()));
    p.pad = 1;
    assert_eq!(p.check_reserved(), Err(Errno::EINVAL));
    p.pad = 0;
    p.reserved[3] = 1;
    assert_eq!(p.check_reserved(), Err(Errno::EINVAL));
    let mut i = SciDevInfo::default();
    assert_eq!(i.check_reserved(), Ok(()));
    i.reserved[0] = 1;
    assert_eq!(i.check_reserved(), Err(Errno::EINVAL));
    assert_eq!(SleExtAdvData::default().check_reserved(), Ok(()));
    assert_eq!(7u8.check_reserved(), Ok(()));
}

#[test]
fn padding_is_zero_all_over() {
    assert!(0u8.is_zero() && !1u8.is_zero());
    assert!([0u8; 3].is_zero() && ![0u8, 0, 1].is_zero());
}

#[test]
fn states_and_levels() {
    assert_eq!(SciState::Connected.code(), 3);
    assert_eq!(SciBus::Detached.code(), 0);
    assert_eq!(DiscoveryLevel::Designated.code(), 4);
}
