//! What two nodes tell each other about themselves when they connect.

use vstd::prelude::*;

use crate::bytes;

verus! {

/// Roles of a node in a connection.
#[derive(Clone, Copy, Debug, PartialEq, Eq, Structural)]
pub enum GtRole {
    /// Terminal.
    TNode,
    /// Gateway.
    GNode,
}

impl GtRole {
    /// Code of the role.
    #[verifier::allow_in_spec]
    pub fn code(self) -> u8
        returns
            (match self {
                GtRole::TNode => 0u8,
                GtRole::GNode => 1u8,
            }),
    {
        match self {
            GtRole::TNode => 0,
            GtRole::GNode => 1,
        }
    }
}

impl Default for GtRole {
    fn default() -> (r: Self)
        ensures
            r == GtRole::TNode,
    {
        GtRole::TNode
    }
}

/// The role that a node wants.
#[derive(Clone, Copy, Debug)]
pub struct GtRolePreference {
    /// Wanted role.
    pub preferred: GtRole,
    /// Whether the other role will do.
    pub negotiable: bool,
}

impl Default for GtRolePreference {
    fn default() -> (r: Self)
        ensures
            r == (GtRolePreference { preferred: GtRole::TNode, negotiable: true }),
    {
        GtRolePreference { preferred: GtRole::TNode, negotiable: true }
    }
}

/// What a node offers in an access request.
#[derive(Clone, Copy, Debug)]
pub struct AccessCapability {
    /// Wanted role.
    pub gt_role: GtRolePreference,
    /// Frame types 1 to 4, one bit each.
    pub frame_types: u8,
    /// Bandwidths of 1, 2 and 4 MHz, one bit each.
    pub bandwidth: u8,
    /// Coding schemes 0 to 12, one bit each.
    pub mcs_support: u16,
    /// Pilot densities 4:1, 8:1, 16:1 and none, one bit each.
    pub pilot: u8,
    /// Slots of 25, 50, 75, 100 and 125 microseconds, one bit each.
    pub schedule_slots: u8,
    /// Index of the delay between sending and receiving.
    pub switch_delay: u8,
    /// Checksums of 24 and 32 bits, one bit each.
    pub crc_type: u8,
}

/// What a node offers unless told otherwise.
pub open spec fn default_capability() -> AccessCapability {
    AccessCapability {
        gt_role: GtRolePreference { preferred: GtRole::TNode, negotiable: true },
        frame_types: 0x01,
        bandwidth: 0x01,
        mcs_support: 0x0010,
        pilot: 0x02,
        schedule_slots: 0x10,
        switch_delay: 2,
        crc_type: 0x01,
    }
}

impl Default for AccessCapability {
    fn default() -> (r: Self)
        ensures
            r == default_capability(),
    {
        AccessCapability {
            gt_role: GtRolePreference::default(),
            frame_types: 0x01,
            bandwidth: 0x01,
            mcs_support: 0x0010,
            pilot: 0x02,
            schedule_slots: 0x10,
            switch_delay: 2,
            crc_type: 0x01,
        }
    }
}

/// Answers to an access request.
#[derive(Clone, Copy, Debug, PartialEq, Eq, Structural)]
pub enum AccessResponseType {
    /// The connection is accepted.
    Accepted,
    /// No agreement on the roles.
    RoleNegotiationFailed,
    /// The peer has no room.
    ResourceLimited,
    /// The user of the peer refused.
    UserRejected,
}

impl AccessResponseType {
    /// Code of the answer.
    #[verifier::allow_in_spec]
    pub fn code(self) -> u8
        returns
            (match self {
                AccessResponseType::Accepted => 0u8,
                AccessResponseType::RoleNegotiationFailed => 1u8,
                AccessResponseType::ResourceLimited => 2u8,
                AccessResponseType::UserRejected => 3u8,
            }),
    {
        match self {
            AccessResponseType::Accepted => 0,
            AccessResponseType::RoleNegotiationFailed => 1,
            AccessResponseType::ResourceLimited => 2,
            AccessResponseType::UserRejected => 3,
        }
    }

    /// The answer of a code, if there is one.
    pub fn from_raw(v: u8) -> (r: Option<Self>)
        ensures
            match r {
                Some(t) => t.code() == v,
                None => v > 3,
            },
    {
        match v {
            0 => Some(AccessResponseType::Accepted),
            1 => Some(AccessResponseType::RoleNegotiationFailed),
            2 => Some(AccessResponseType::ResourceLimited),
            3 => Some(AccessResponseType::UserRejected),
            _ => None,
        }
    }
}

/// What a peer told about itself after the connection was made.
#[derive(Clone, Copy, Debug)]
pub struct PeerCapability {
    /// Features, one bit each.
    pub features: [u8; 10],
    /// Version of the protocol.
    pub version: u8,
    /// Manufacturer.
    pub manufacturer: u16,
    /// Sub-version.
    pub subversion: u16,
    /// Whether the features are known.
    pub features_valid: bool,
    /// Whether the version is known.
    pub version_valid: bool,
}

impl Default for PeerCapability {
    fn default() -> (r: Self)
        ensures
            r.unknown(),
    {
        PeerCapability {
            features: [0u8; 10],
            version: 0,
            manufacturer: 0,
            subversion: 0,
            features_valid: false,
            version_valid: false,
        }
    }
}

impl PeerCapability {
    /// Nothing is known of the peer.
    pub open spec fn unknown(self) -> bool {
        &&& self.features@ =~= bytes::zeros(10)
        &&& self.version == 0
        &&& self.manufacturer == 0
        &&& self.subversion == 0
        &&& !self.features_valid
        &&& !self.version_valid
    }

    /// Takes in the features of the peer.
    pub fn set_features(&mut self, features: [u8; 10])
        ensures
            *final(self) == (PeerCapability { features, features_valid: true, ..*old(self) }),
    {
        self.features = features;
        self.features_valid = true;
    }

    /// Takes in the version of the peer.
    pub fn set_version(&mut self, version: u8, manufacturer: u16, subversion: u16)
        ensures
            *final(self) == (PeerCapability {
                version,
                manufacturer,
                subversion,
                version_valid: true,
                ..*old(self)
            }),
    {
        self.version = version;
        self.manufacturer = manufacturer;
        self.subversion = subversion;
        self.version_valid = true;
    }

    /// Whether the peer has the feature of a bit; there are 80.
    pub fn has_feature(&self, bit: u8) -> (r: bool)
        ensures
            r == (bit < 80 && self.features@[bit as int / 8] & (1u8 << (bit % 8)) != 0),
    {
        if bit >= 80 {
            return false;
        }
        let byte_idx = (bit / 8) as usize;
        let bit_idx = bit % 8;
        (self.features[byte_idx] & (1u8 << bit_idx)) != 0
    }
}

/// What the two nodes agreed on.
#[derive(Clone, Copy, Debug)]
pub struct NegotiatedParams {
    /// Bandwidth in MHz: 1, 2 or 4.
    pub bandwidth_mhz: u8,
    /// Coding scheme, 0 to 12.
    pub mcs_index: u8,
    /// Pilot density: 0 for 4:1, 1 for 8:1, 2 for 16:1, 3 for none.
    pub pilot_density: u8,
    /// Length of a slot in microseconds.
    pub schedule_slot_us: u8,
    /// Checksum: 0 for 24 bits, 1 for 32 bits.
    pub crc_type: u8,
    /// Period of an event group, in slots.
    pub event_group_period: u16,
    /// Period of an event, in slots.
    pub event_period: u16,
    /// Interval within an event, in microseconds.
    pub intra_event_interval: u16,
    /// Time without traffic after which the link is given up, in units of 10 ms.
    pub supervision_timeout: u16,
    /// Latency, in periods of an event group.
    pub latency_period: u16,
    /// Longest packet.
    pub max_pdu_size: u16,
}

/// What nodes agree on unless told otherwise.
pub open spec fn default_params() -> NegotiatedParams {
    NegotiatedParams {
        bandwidth_mhz: 1,
        mcs_index: 4,
        pilot_density: 1,
        schedule_slot_us: 125,
        crc_type: 0,
        event_group_period: 40,
        event_period: 2,
        intra_event_interval: 150,
        supervision_timeout: 100,
        latency_period: 0,
        max_pdu_size: 255,
    }
}

impl Default for NegotiatedParams {
    fn default() -> (r: Self)
        ensures
            r == default_params(),
    {
        NegotiatedParams {
            bandwidth_mhz: 1,
            mcs_index: 4,
            pilot_density: 1,
            schedule_slot_us: 125,
            crc_type: 0,
            event_group_period: 40,
            event_period: 2,
            intra_event_interval: 150,
            supervision_timeout: 100,
            latency_period: 0,
            max_pdu_size: 255,
        }
    }
}

/// Control header of the data link.
#[derive(Clone, Copy, Debug)]
pub struct DataCtrlHeader {
    /// Coding scheme of the payload.
    pub mcs_index: u8,
    /// Kind of packet: 0 without and 1 with a time offset, 2 control and data, 3 control
    /// alone.
    pub packet_type: u8,
    /// Whether there is no payload.
    pub empty: bool,
    /// Sequence number of this packet.
    pub tx_seq: u8,
    /// Sequence number of the packet that is expected.
    pub rx_seq: u8,
    /// Whether the sender has more.
    pub flow_ctrl: bool,
    /// Length of the payload.
    pub data_length: u16,
}

impl Default for DataCtrlHeader {
    fn default() -> (r: Self)
        ensures
            r == (DataCtrlHeader {
                mcs_index: 0,
                packet_type: 0,
                empty: false,
                tx_seq: 0,
                rx_seq: 0,
                flow_ctrl: false,
                data_length: 0,
            }),
    {
        DataCtrlHeader {
            mcs_index: 0,
            packet_type: 0,
            empty: false,
            tx_seq: 0,
            rx_seq: 0,
            flow_ctrl: false,
            data_length: 0,
        }
    }
}

/// States of a connection.
#[derive(Clone, Copy, Debug, PartialEq, Eq, Structural)]
pub enum ConnState {
    /// No connection.
    Idle,
    /// The access request is under way.
    Connecting,
    /// Data can be exchanged.
    Connected,
    /// The connection is being closed.
    Disconnecting,
    /// The controller has not yet accepted the request to connect.
    ConnectPending,
    /// The controller has not yet accepted the request to disconnect.
    DisconnectPending,
}

impl ConnState {
    /// Code of the state.
    #[verifier::allow_in_spec]
    pub fn code(self) -> u8
        returns
            (match self {
                ConnState::Idle => 0u8,
                ConnState::Connecting => 1u8,
                ConnState::Connected => 2u8,
                ConnState::Disconnecting => 3u8,
                ConnState::ConnectPending => 4u8,
                ConnState::DisconnectPending => 5u8,
            }),
    {
        match self {
            ConnState::Idle => 0,
            ConnState::Connecting => 1,
            ConnState::Connected => 2,
            ConnState::Disconnecting => 3,
            ConnState::ConnectPending => 4,
            ConnState::DisconnectPending => 5,
        }
    }
}

impl Default for ConnState {
    fn default() -> (r: Self)
        ensures
            r == ConnState::Idle,
    {
        ConnState::Idle
    }
}

} // verus!
