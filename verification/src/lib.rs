//! SparkLink (SLE) host protocol stack.
//!
//! Bytes and text are at the bottom; packet formats, the controller interface with its
//! transports, connections, services, security and management stand on them.

pub mod bytes;
pub mod errno;
pub mod ring;
pub mod slots;
pub mod text;

pub mod sle_crc;
pub mod sle_pdu;
pub mod transport_frame;

pub mod sle_dli;
pub mod sle_dli_event;
pub mod sle_opcode;

pub mod sle_spi;
pub mod sle_uart;
pub mod sle_usb;

pub mod controller;
pub mod sle_fw;
pub mod sle_serdev;
pub mod sle_transport;
pub mod usb_probe;

pub mod conn_afh;
pub mod conn_channel;
pub mod conn_queue;
pub mod conn_types;
pub mod sle_conn;
pub mod sle_phy;
pub mod sync_link;
pub mod tcid;

pub mod sle_ssap;
pub mod ssap_pdu;
pub mod ssap_session;

pub mod sle_crypto;
pub mod sle_rpa;
pub mod sle_security;

pub mod sle_adv;
pub mod sle_dev;
pub mod sle_power;

pub mod event_payload;
pub mod sle_configfs;
pub mod sle_event;
pub mod sle_mgmt;
pub mod sle_netlink;
pub mod sle_uapi;

pub mod laws;
