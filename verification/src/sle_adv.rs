//! Advertising and scanning.

use vstd::prelude::*;
use vstd::slice::slice_subrange;

use crate::bytes;
use crate::errno::Errno;
use crate::sle_pdu;
use crate::sle_pdu::{
    AdvDataBuilder, AdvPdu, AdvPduHeader, BroadcastType, PacketType, SLE_ADV_DATA_MAX,
};

verus! {

/// Most extended advertising sets.
pub const EXT_ADV_MAX_SETS: usize = 4;

/// Longest data of an extended set.
pub const EXT_ADV_DATA_MAX: usize = 1650;

/// Longest payload on the primary channel of an extended set.
pub const EXT_ADV_PRIMARY_MAX: usize = 251;

/// Most reports that are kept.
pub const SCAN_RESULTS_MAX: usize = 64;

/// How a device advertises.
#[derive(Clone, Copy, Debug)]
pub struct AdvParams {
    /// Discovery level.
    pub discovery_level: u8,
    /// Interval, in slots of 125 microseconds.
    pub interval_slots: u32,
    /// What others may do.
    pub broadcast_type: BroadcastType,
    /// Transmit power in dBm.
    pub tx_power: i8,
}

/// How a device advertises unless told otherwise.
pub open spec fn default_adv() -> AdvParams {
    AdvParams {
        discovery_level: 1,
        interval_slots: 800,
        broadcast_type: BroadcastType::AccessibleScannable,
        tx_power: 0,
    }
}

impl Default for AdvParams {
    fn default() -> (r: Self)
        ensures
            r == default_adv(),
    {
        AdvParams {
            discovery_level: 1,
            interval_slots: 800,
            broadcast_type: BroadcastType::AccessibleScannable,
            tx_power: 0,
        }
    }
}

/// How a device scans.
#[derive(Clone, Copy, Debug)]
pub struct ScanParams {
    /// Window, in slots of 125 microseconds.
    pub window_slots: u32,
    /// Interval, in slots of 125 microseconds.
    pub interval_slots: u32,
    /// Lowest discovery level that is reported.
    pub filter_level: u8,
    /// Whether more is asked for.
    pub active: bool,
}

/// How a device scans unless told otherwise.
pub open spec fn default_scan() -> ScanParams {
    ScanParams { window_slots: 400, interval_slots: 800, filter_level: 0, active: false }
}

impl Default for ScanParams {
    fn default() -> (r: Self)
        ensures
            r == default_scan(),
    {
        ScanParams { window_slots: 400, interval_slots: 800, filter_level: 0, active: false }
    }
}

/// A report of an advertiser.
#[derive(Clone, Copy, Debug)]
pub struct ScanResult {
    /// Address.
    pub addr: [u8; 6],
    /// Signal strength.
    pub rssi: i8,
    /// Discovery level.
    pub discovery_level: u8,
    /// Name, cut to 32 bytes.
    pub name: [u8; 32],
    /// Length of the name.
    pub name_len: usize,
    /// Advertising data, then zeros.
    pub adv_data: [u8; 255],
    /// Length of the advertising data.
    pub adv_data_len: usize,
}

/// A report as a value.
#[verifier::ext_equal]
pub struct ScanModel {
    /// Address.
    pub addr: Seq<u8>,
    /// Signal strength.
    pub rssi: i8,
    /// Discovery level.
    pub discovery_level: u8,
    /// Name, cut to 32 bytes.
    pub name: Seq<u8>,
    /// Length of the name.
    pub name_len: int,
    /// Advertising data, then zeros.
    pub adv_data: Seq<u8>,
    /// Length of the advertising data.
    pub adv_data_len: int,
}

impl View for ScanResult {
    type V = ScanModel;

    open spec fn view(&self) -> ScanModel {
        ScanModel {
            addr: self.addr@,
            rssi: self.rssi,
            discovery_level: self.discovery_level,
            name: self.name@,
            name_len: self.name_len as int,
            adv_data: self.adv_data@,
            adv_data_len: self.adv_data_len as int,
        }
    }
}

/// A report of nothing.
pub open spec fn blank() -> ScanModel {
    ScanModel {
        addr: bytes::zeros(6),
        rssi: -127i8,
        discovery_level: 0,
        name: bytes::zeros(32),
        name_len: 0,
        adv_data: bytes::zeros(255),
        adv_data_len: 0,
    }
}

impl Default for ScanResult {
    fn default() -> (r: Self)
        ensures
            r@ == blank(),
    {
        ScanResult {
            addr: [0u8; 6],
            rssi: -127,
            discovery_level: 0,
            name: [0u8; 32],
            name_len: 0,
            adv_data: [0u8; 255],
            adv_data_len: 0,
        }
    }
}

impl ScanModel {
    /// With what an element of the advertising data tells: a discovery level, a name or
    /// an address.
    pub open spec fn told(self, e: (u8, Seq<u8>)) -> ScanModel {
        if e.0 == 0x01 && e.1.len() > 0 {
            ScanModel { discovery_level: (e.1[0] % 8) as u8, ..self }
        } else if e.0 == 0x0B || e.0 == 0x0A {
            let n = bytes::prefix(e.1, 32);
            ScanModel {
                name: bytes::splice(self.name, 0, n),
                name_len: n.len() as int,
                ..self
            }
        } else if e.0 == 0x0F && e.1.len() == 6 {
            ScanModel { addr: e.1, ..self }
        } else {
            self
        }
    }

    /// With what some elements tell, one after the other.
    pub open spec fn told_all(self, es: Seq<(u8, Seq<u8>)>) -> ScanModel
        decreases es.len(),
    {
        if es.len() == 0 {
            self
        } else {
            self.told(es[0]).told_all(es.drop_first())
        }
    }
}

/// Bandwidths of extended advertising.
#[derive(Clone, Copy, Debug, PartialEq, Eq, Structural)]
pub enum ExtAdvPhy {
    /// 1 MHz.
    Phy1M,
    /// 2 MHz.
    Phy2M,
    /// 4 MHz.
    PhyCoded,
}

impl ExtAdvPhy {
    /// Code of the bandwidth.
    #[verifier::allow_in_spec]
    pub fn code(self) -> u8
        returns
            (match self {
                ExtAdvPhy::Phy1M => 0u8,
                ExtAdvPhy::Phy2M => 1u8,
                ExtAdvPhy::PhyCoded => 2u8,
            }),
    {
        match self {
            ExtAdvPhy::Phy1M => 0,
            ExtAdvPhy::Phy2M => 1,
            ExtAdvPhy::PhyCoded => 2,
        }
    }

    /// The bandwidth of a code, if there is one.
    pub fn from_raw(v: u8) -> (r: Option<Self>)
        ensures
            match r {
                Some(p) => p.code() == v,
                None => v > 2,
            },
    {
        match v {
            0 => Some(ExtAdvPhy::Phy1M),
            1 => Some(ExtAdvPhy::Phy2M),
            2 => Some(ExtAdvPhy::PhyCoded),
            _ => None,
        }
    }
}

/// How an extended set advertises.
#[derive(Clone, Copy, Debug)]
pub struct ExtAdvParams {
    /// Discovery level.
    pub discovery_level: u8,
    /// Interval, in slots of 125 microseconds.
    pub interval_slots: u32,
    /// What others may do.
    pub broadcast_type: BroadcastType,
    /// Transmit power in dBm.
    pub tx_power: i8,
    /// Bandwidth on the primary channel.
    pub primary_phy: ExtAdvPhy,
    /// Bandwidth on the auxiliary channel.
    pub secondary_phy: ExtAdvPhy,
    /// Identifier of the set, 0 to 15.
    pub sid: u8,
    /// Whether the transmit power is told.
    pub include_tx_power: bool,
    /// Basic advertisements that may come before the extended one.
    pub extended_adv_timing: u8,
}

/// How an extended set advertises unless told otherwise.
pub open spec fn default_ext() -> ExtAdvParams {
    ExtAdvParams {
        discovery_level: 1,
        interval_slots: 800,
        broadcast_type: BroadcastType::AccessibleScannable,
        tx_power: 0,
        primary_phy: ExtAdvPhy::Phy1M,
        secondary_phy: ExtAdvPhy::Phy1M,
        sid: 0,
        include_tx_power: true,
        extended_adv_timing: 0,
    }
}

impl Default for ExtAdvParams {
    fn default() -> (r: Self)
        ensures
            r == default_ext(),
    {
        ExtAdvParams {
            discovery_level: 1,
            interval_slots: 800,
            broadcast_type: BroadcastType::AccessibleScannable,
            tx_power: 0,
            primary_phy: ExtAdvPhy::Phy1M,
            secondary_phy: ExtAdvPhy::Phy1M,
            sid: 0,
            include_tx_power: true,
            extended_adv_timing: 0,
        }
    }
}

/// States of an extended set.
#[derive(Clone, Copy, Debug, PartialEq, Eq, Structural)]
pub enum ExtAdvState {
    /// Not set up.
    Idle,
    /// Set up.
    Configured,
    /// Advertising.
    Active,
}

/// An extended set.
pub struct ExtAdvSet {
    /// Handle.
    pub handle: u8,
    /// State.
    pub state: ExtAdvState,
    /// How it advertises.
    pub params: ExtAdvParams,
    /// Its data.
    pub data: Vec<u8>,
    /// Packets sent since it was enabled.
    pub tx_count: u64,
    /// Time to advertise, in units of 10 ms, 0 for ever.
    pub duration_10ms: u16,
    /// Most events, 0 for any number.
    pub max_events: u8,
    /// Events since it was enabled.
    pub events_sent: u32,
    /// Units of 10 ms since it was enabled.
    pub elapsed_ticks: u32,
}

/// An extended set as a value.
#[verifier::ext_equal]
pub struct ExtModel {
    /// Handle.
    pub handle: u8,
    /// State.
    pub state: ExtAdvState,
    /// How it advertises.
    pub params: ExtAdvParams,
    /// Its data.
    pub data: Seq<u8>,
    /// Packets sent since it was enabled.
    pub tx_count: u64,
    /// Time to advertise, in units of 10 ms, 0 for ever.
    pub duration_10ms: u16,
    /// Most events, 0 for any number.
    pub max_events: u8,
    /// Events since it was enabled.
    pub events_sent: u32,
    /// Units of 10 ms since it was enabled.
    pub elapsed_ticks: u32,
}

impl View for ExtAdvSet {
    type V = ExtModel;

    open spec fn view(&self) -> ExtModel {
        ExtModel {
            handle: self.handle,
            state: self.state,
            params: self.params,
            data: self.data@,
            tx_count: self.tx_count,
            duration_10ms: self.duration_10ms,
            max_events: self.max_events,
            events_sent: self.events_sent,
            elapsed_ticks: self.elapsed_ticks,
        }
    }
}

/// The elements that every advertisement has: discovery level, transmit power where it is
/// told, address, and the name where there is one.
pub open spec fn common_data(
    level: u8,
    power: Option<i8>,
    addr: Seq<u8>,
    name: Seq<u8>,
) -> Seq<u8> {
    sle_pdu::tlv(0x01, seq![(level % 8) as u8]) + (match power {
        Some(p) => sle_pdu::tlv(0x0C, seq![bytes::i8_byte(p)]),
        None => Seq::empty(),
    }) + sle_pdu::tlv(0x0F, addr) + (if name.len() > 0 {
        sle_pdu::tlv(0x0B, name)
    } else {
        Seq::empty()
    })
}

fn collect_common(level: u8, power: Option<i8>, addr: &[u8; 6], name: &[u8]) -> (r: AdvDataBuilder)
    requires
        name@.len() <= 32,
    ensures
        r.wf(),
        r@ == common_data(level, power, addr@, name@),
        r@.len() <= 48,
{
    let mut b = AdvDataBuilder::new();
    let _ = b.push_discovery_level(level);
    if let Some(p) = power {
        let _ = b.push_tx_power(p);
    }
    let _ = b.push_sle_addr(addr);
    if name.len() > 0 {
        let _ = b.push_complete_name(name);
    }
    assert(b@ =~= common_data(level, power, addr@, name@));
    b
}

impl ExtModel {
    /// A fresh set.
    pub open spec fn fresh(handle: u8) -> ExtModel {
        ExtModel {
            handle,
            state: ExtAdvState::Idle,
            params: default_ext(),
            data: Seq::empty(),
            tx_count: 0,
            duration_10ms: 0,
            max_events: 0,
            events_sent: 0,
            elapsed_ticks: 0,
        }
    }

    /// What a packet of the set carries: the common elements and the data of the set, of
    /// which the primary channel takes the first 251 bytes.
    pub open spec fn payload(self, addr: Seq<u8>, name: Seq<u8>) -> Seq<u8> {
        bytes::prefix(
            common_data(
                self.params.discovery_level,
                if self.params.include_tx_power {
                    Some(self.params.tx_power)
                } else {
                    None
                },
                addr,
                name,
            ) + self.data,
            EXT_ADV_PRIMARY_MAX as int,
        )
    }

    /// Whether the set has advertised for its time or its number of events.
    pub open spec fn done(self) -> bool {
        (self.duration_10ms > 0 && self.elapsed_ticks >= self.duration_10ms) || (self.max_events
            > 0 && self.events_sent >= self.max_events)
    }

    /// After 10 ms: an active set has sent one more, and stops where it is done.
    pub open spec fn ticked(self) -> ExtModel {
        if self.state != ExtAdvState::Active {
            self
        } else {
            let n = ExtModel {
                elapsed_ticks: (self.elapsed_ticks + 1) as u32,
                events_sent: (self.events_sent + 1) as u32,
                tx_count: (self.tx_count + 1) as u64,
                ..self
            };
            if n.done() {
                ExtModel { state: ExtAdvState::Configured, ..n }
            } else {
                n
            }
        }
    }

    /// Whether the set stops by itself within the next 10 ms.
    pub open spec fn stops(self) -> bool {
        self.state == ExtAdvState::Active && self.ticked().state != ExtAdvState::Active
    }

    /// After `n` times 10 ms.
    pub open spec fn ticked_times(self, n: nat) -> ExtModel
        decreases n,
    {
        if n == 0 {
            self
        } else {
            self.ticked_times((n - 1) as nat).ticked()
        }
    }
}

impl ExtAdvSet {
    fn new(handle: u8) -> (r: Self)
        ensures
            r@ == ExtModel::fresh(handle),
    {
        ExtAdvSet {
            handle,
            state: ExtAdvState::Idle,
            params: ExtAdvParams::default(),
            data: Vec::new(),
            tx_count: 0,
            duration_10ms: 0,
            max_events: 0,
            events_sent: 0,
            elapsed_ticks: 0,
        }
    }

    /// The packet of the set, unless it is not active.
    pub fn build_pdu(&self, addr: &[u8; 6], name: &[u8]) -> (r: Option<AdvPdu>)
        requires
            name@.len() <= 32,
        ensures
            match r {
                Some(p) => self@.state == ExtAdvState::Active && carries(
                    p,
                    self@.params.broadcast_type,
                    PacketType::ExtendedAdv,
                    self@.payload(addr@, name@),
                ),
                None => self@.state != ExtAdvState::Active,
            },
    {
        if self.state != ExtAdvState::Active {
            return None;
        }
        let power = if self.params.include_tx_power {
            Some(self.params.tx_power)
        } else {
            None
        };
        let mut b = collect_common(self.params.discovery_level, power, addr, name);
        let ghost start = b@;
        let room = EXT_ADV_PRIMARY_MAX - b.len();
        let part = bytes::to_prefix(self.data.as_slice(), room);
        let _ = b.push_raw(part.as_slice());
        assert(b@ =~= bytes::prefix(start + self.data@, EXT_ADV_PRIMARY_MAX as int));
        Some(AdvPdu::build(self.params.broadcast_type, PacketType::ExtendedAdv, 0, &b))
    }
}

/// Whether a packet is of some kinds and carries a payload.
pub open spec fn carries(p: AdvPdu, b: BroadcastType, k: PacketType, payload: Seq<u8>) -> bool {
    &&& p.wf()
    &&& p.header == (AdvPduHeader {
        link_quality: 0,
        broadcast_type: b,
        packet_type: k,
        data_length: payload.len() as u8,
    })
    &&& p.payload() =~= payload
    &&& p.crc == crate::sle_crc::crc12_of(crate::sle_crc::crc12_adv_seed(), payload)
}

/// What a device is doing.
#[derive(Clone, Copy, Debug, PartialEq, Eq, Structural)]
pub enum AdvScanState {
    /// Nothing.
    Idle,
    /// Asked the controller to advertise.
    AdvPending,
    /// Advertising.
    Advertising,
    /// Asked the controller to scan.
    ScanPending,
    /// Scanning.
    Scanning,
}

/// Advertising and scanning of a device.
pub struct AdvScanInner {
    /// What it is doing.
    pub state: AdvScanState,
    /// How it advertises.
    pub adv_params: AdvParams,
    /// How it scans.
    pub scan_params: ScanParams,
    /// Its name, then zeros.
    pub local_name: [u8; 32],
    /// Length of its name.
    pub local_name_len: usize,
    /// Its address.
    pub addr: [u8; 6],
    /// Reports, oldest first.
    pub scan_results: Vec<ScanResult>,
    /// Most reports that are kept.
    pub scan_results_max: usize,
    /// Extended sets.
    pub ext_adv_sets: [Option<ExtAdvSet>; 4],
}

/// Advertising and scanning of a device as a value.
#[verifier::ext_equal]
pub struct AdvModel {
    /// What it is doing.
    pub state: AdvScanState,
    /// How it advertises.
    pub adv_params: AdvParams,
    /// How it scans.
    pub scan_params: ScanParams,
    /// Its name, then zeros.
    pub local_name: Seq<u8>,
    /// Length of its name.
    pub name_len: int,
    /// Its address.
    pub addr: Seq<u8>,
    /// Reports, oldest first.
    pub results: Seq<ScanModel>,
    /// Most reports that are kept.
    pub results_max: int,
    /// Extended sets.
    pub sets: Seq<Option<ExtModel>>,
}

/// The model of an extended set, if there is one.
pub open spec fn set_view(s: Option<ExtAdvSet>) -> Option<ExtModel> {
    match s {
        Some(x) => Some(x@),
        None => None,
    }
}

impl View for AdvScanInner {
    type V = AdvModel;

    open spec fn view(&self) -> AdvModel {
        AdvModel {
            state: self.state,
            adv_params: self.adv_params,
            scan_params: self.scan_params,
            local_name: self.local_name@,
            name_len: self.local_name_len as int,
            addr: self.addr@,
            results: self.scan_results@.map_values(|r: ScanResult| r@),
            results_max: self.scan_results_max as int,
            sets: self.ext_adv_sets@.map_values(|s: Option<ExtAdvSet>| set_view(s)),
        }
    }
}

impl AdvModel {
    /// Whether the device advertises or has asked to.
    pub open spec fn advertising(self) -> bool {
        self.state == AdvScanState::Advertising || self.state == AdvScanState::AdvPending
    }

    /// Whether the device scans or has asked to.
    pub open spec fn scanning(self) -> bool {
        self.state == AdvScanState::Scanning || self.state == AdvScanState::ScanPending
    }

    /// The name.
    pub open spec fn name(self) -> Seq<u8> {
        self.local_name.take(self.name_len)
    }

    /// With one more report; the oldest one goes where there are as many as are kept.
    pub open spec fn reported(self, s: ScanModel) -> AdvModel {
        AdvModel {
            results: (if self.results.len() >= self.results_max && self.results.len() > 0 {
                self.results.drop_first()
            } else {
                self.results
            }).push(s),
            ..self
        }
    }

    /// With an extended set replaced.
    pub open spec fn with_set(self, h: u8, s: Option<ExtModel>) -> AdvModel {
        AdvModel { sets: self.sets.update(h as int, s), ..self }
    }

    /// Why an extended set cannot be used: there is none of that number, or it is not
    /// set up.
    pub open spec fn set_error(self, h: u8) -> Option<Errno> {
        if h >= EXT_ADV_MAX_SETS {
            Some(Errno::EINVAL)
        } else if self.sets[h as int] is None {
            Some(Errno::ENOENT)
        } else {
            None
        }
    }
}

/// How many of the first `n` sets are active.
pub open spec fn active_sets(s: Seq<Option<ExtModel>>, n: int) -> int
    decreases n,
{
    if n <= 0 {
        0
    } else {
        active_sets(s, n - 1) + (if s[n - 1] matches Some(x) && x.state == ExtAdvState::Active {
            1int
        } else {
            0
        })
    }
}

/// How many of the first `n` sets stop by themselves within the next 10 ms.
pub open spec fn stopping_sets(s: Seq<Option<ExtModel>>, n: int) -> int
    decreases n,
{
    if n <= 0 {
        0
    } else {
        stopping_sets(s, n - 1) + (if s[n - 1] matches Some(x) && x.stops() {
            1int
        } else {
            0
        })
    }
}

impl AdvScanInner {
    /// The name fits its place.
    pub open spec fn wf(self) -> bool {
        self.local_name_len <= 32
    }

    /// A device that does nothing. The name is cut to 32 bytes.
    pub fn new(addr: [u8; 6], name: &[u8]) -> (r: Self)
        ensures
            r.wf(),
            r@ == (AdvModel {
                state: AdvScanState::Idle,
                adv_params: default_adv(),
                scan_params: default_scan(),
                local_name: bytes::padded(name@, 32),
                name_len: bytes::prefix(name@, 32).len() as int,
                addr: addr@,
                results: Seq::empty(),
                results_max: SCAN_RESULTS_MAX as int,
                sets: seq![None, None, None, None],
            }),
    {
        let r = AdvScanInner {
            state: AdvScanState::Idle,
            adv_params: AdvParams::default(),
            scan_params: ScanParams::default(),
            local_name: bytes::to_array(name),
            local_name_len: bytes::min_usize(name.len(), 32),
            addr,
            scan_results: Vec::new(),
            scan_results_max: SCAN_RESULTS_MAX,
            ext_adv_sets: [None, None, None, None],
        };
        assert(r@.sets =~= seq![None, None, None, None]);
        assert(r@.results =~= Seq::empty());
        r
    }

    /// Asks to advertise, or returns `EBUSY` where the device does something already.
    pub fn start_advertising(&mut self, params: AdvParams) -> (r: Result<(), Errno>)
        ensures
            if old(self)@.state != AdvScanState::Idle {
                r == Err::<(), Errno>(Errno::EBUSY) && final(self)@ == old(self)@
            } else {
                r == Ok::<(), Errno>(()) && final(self)@ == (AdvModel {
                    adv_params: params,
                    state: AdvScanState::AdvPending,
                    ..old(self)@
                })
            },
    {
        if self.state != AdvScanState::Idle {
            return Err(Errno::EBUSY);
        }
        self.adv_params = params;
        self.state = AdvScanState::AdvPending;
        Ok(())
    }

    /// The controller advertises.
    pub fn confirm_advertising(&mut self)
        ensures
            final(self)@ == (if old(self)@.state == AdvScanState::AdvPending {
                AdvModel { state: AdvScanState::Advertising, ..old(self)@ }
            } else {
                old(self)@
            }),
    {
        if self.state == AdvScanState::AdvPending {
            self.state = AdvScanState::Advertising;
        }
    }

    /// The controller refused to advertise.
    pub fn abort_advertising(&mut self)
        ensures
            final(self)@ == (if old(self)@.state == AdvScanState::AdvPending {
                AdvModel { state: AdvScanState::Idle, ..old(self)@ }
            } else {
                old(self)@
            }),
    {
        if self.state == AdvScanState::AdvPending {
            self.state = AdvScanState::Idle;
        }
    }

    /// Stops advertising, or returns `EBUSY` where the device does not advertise.
    pub fn stop_advertising(&mut self) -> (r: Result<(), Errno>)
        ensures
            if old(self)@.advertising() {
                r == Ok::<(), Errno>(()) && final(self)@ == (AdvModel {
                    state: AdvScanState::Idle,
                    ..old(self)@
                })
            } else {
                r == Err::<(), Errno>(Errno::EBUSY) && final(self)@ == old(self)@
            },
    {
        if !self.is_advertising() {
            return Err(Errno::EBUSY);
        }
        self.state = AdvScanState::Idle;
        Ok(())
    }

    /// Asks to scan and forgets the reports, or returns `EBUSY` where the device does
    /// something already.
    pub fn start_scanning(&mut self, params: ScanParams) -> (r: Result<(), Errno>)
        ensures
            if old(self)@.state != AdvScanState::Idle {
                r == Err::<(), Errno>(Errno::EBUSY) && final(self)@ == old(self)@
            } else {
                r == Ok::<(), Errno>(()) && final(self)@ == (AdvModel {
                    scan_params: params,
                    results: Seq::empty(),
                    state: AdvScanState::ScanPending,
                    ..old(self)@
                })
            },
    {
        if self.state != AdvScanState::Idle {
            return Err(Errno::EBUSY);
        }
        self.scan_params = params;
        self.scan_results = Vec::new();
        self.state = AdvScanState::ScanPending;
        Ok(())
    }

    /// The controller scans.
    pub fn confirm_scanning(&mut self)
        ensures
            final(self)@ == (if old(self)@.state == AdvScanState::ScanPending {
                AdvModel { state: AdvScanState::Scanning, ..old(self)@ }
            } else {
                old(self)@
            }),
    {
        if self.state == AdvScanState::ScanPending {
            self.state = AdvScanState::Scanning;
        }
    }

    /// The controller refused to scan.
    pub fn abort_scanning(&mut self)
        ensures
            final(self)@ == (if old(self)@.state == AdvScanState::ScanPending {
                AdvModel { state: AdvScanState::Idle, ..old(self)@ }
            } else {
                old(self)@
            }),
    {
        if self.state == AdvScanState::ScanPending {
            self.state = AdvScanState::Idle;
        }
    }

    /// Stops scanning, or returns `EBUSY` where the device does not scan.
    pub fn stop_scanning(&mut self) -> (r: Result<(), Errno>)
        ensures
            if old(self)@.scanning() {
                r == Ok::<(), Errno>(()) && final(self)@ == (AdvModel {
                    state: AdvScanState::Idle,
                    ..old(self)@
                })
            } else {
                r == Err::<(), Errno>(Errno::EBUSY) && final(self)@ == old(self)@
            },
    {
        if !self.is_scanning() {
            return Err(Errno::EBUSY);
        }
        self.state = AdvScanState::Idle;
        Ok(())
    }

    /// Whether the device advertises or has asked to.
    pub fn is_advertising(&self) -> (r: bool)
        ensures
            r == self@.advertising(),
    {
        self.state == AdvScanState::Advertising || self.state == AdvScanState::AdvPending
    }

    /// Whether the device scans or has asked to.
    pub fn is_scanning(&self) -> (r: bool)
        ensures
            r == self@.scanning(),
    {
        self.state == AdvScanState::Scanning || self.state == AdvScanState::ScanPending
    }

    /// The advertisement of the device, unless it does not advertise.
    pub fn build_adv_pdu(&self) -> (r: Option<AdvPdu>)
        requires
            self.wf(),
        ensures
            match r {
                Some(p) => self@.advertising() && carries(
                    p,
                    self@.adv_params.broadcast_type,
                    PacketType::BasicAdv,
                    common_data(
                        self@.adv_params.discovery_level,
                        Some(self@.adv_params.tx_power),
                        self@.addr,
                        self@.name(),
                    ),
                ),
                None => !self@.advertising(),
            },
    {
        if !self.is_advertising() {
            return None;
        }
        let name = slice_subrange(&self.local_name, 0, self.local_name_len);
        assert(name@ == self@.name());
        let b = collect_common(
            self.adv_params.discovery_level,
            Some(self.adv_params.tx_power),
            &self.addr,
            name,
        );
        Some(AdvPdu::build(self.adv_params.broadcast_type, PacketType::BasicAdv, 0, &b))
    }

    fn keep(&mut self, result: ScanResult)
        ensures
            final(self)@ == old(self)@.reported(result@),
    {
        if self.scan_results.len() >= self.scan_results_max && self.scan_results.len() > 0 {
            let _ = self.scan_results.remove(0);
            assert(self@.results =~= old(self)@.results.drop_first());
        }
        let ghost mid = self@;
        self.scan_results.push(result);
        assert(self@.results =~= mid.results.push(result@));
    }

    /// Takes in an advertisement that was heard: level, name and address are read from
    /// its data, and it is reported unless its level is below the filter. Returns `EPERM`
    /// where the device does not scan.
    pub fn process_adv_pdu(&mut self, pdu: &AdvPdu, rssi: i8) -> (r: Result<(), Errno>)
        requires
            pdu.wf(),
        ensures
            if !old(self)@.scanning() {
                r == Err::<(), Errno>(Errno::EPERM) && final(self)@ == old(self)@
            } else {
                let s = (ScanModel {
                    rssi,
                    adv_data: bytes::padded(pdu.payload(), 255),
                    adv_data_len: pdu.data_len as int,
                    ..blank()
                }).told_all(sle_pdu::elements(pdu.payload()));
                r == Ok::<(), Errno>(()) && final(self)@ == (if s.discovery_level
                    < old(self)@.scan_params.filter_level {
                    old(self)@
                } else {
                    old(self)@.reported(s)
                })
            },
    {
        if !self.is_scanning() {
            return Err(Errno::EPERM);
        }
        let mut result = ScanResult::default();
        result.rssi = rssi;
        let payload = slice_subrange(&pdu.data, 0, pdu.data_len);
        assert(payload@ == pdu.payload());
        result.adv_data = bytes::to_array(payload);
        result.adv_data_len = pdu.data_len;
        let ghost start = result@;
        let mut it = pdu.iter_adv_data();
        let mut more = true;
        while more
            invariant
                it.wf(),
                *self == *old(self),
                result@.told_all(sle_pdu::elements(it.rest())) == start.told_all(
                    sle_pdu::elements(pdu.payload()),
                ),
                !more ==> sle_pdu::elements(it.rest()).len() == 0,
            decreases it.rest().len(),
                if more {
                    1int
                } else {
                    0
                },
        {
            let ghost before = it.rest();
            let ghost r0 = result@;
            match it.next() {
                Some(e) => {
                    if e.typ == 0x01 && e.value.len() > 0 {
                        result.discovery_level = e.value[0] % 8;
                    } else if e.typ == 0x0B || e.typ == 0x0A {
                        let head = bytes::to_prefix(e.value, 32);
                        bytes::put_at(&mut result.name, 0, head.as_slice());
                        result.name_len = head.len();
                    } else if e.typ == 0x0F && e.value.len() == 6 {
                        result.addr = bytes::to_array(e.value);
                        assert(result.addr@ =~= e.value@);
                    }
                    assert(result@ =~= r0.told(sle_pdu::elements(before)[0]));
                },
                None => {
                    more = false;
                },
            }
        }
        if result.discovery_level < self.scan_params.filter_level {
            return Ok(());
        }
        self.keep(result);
        Ok(())
    }

    /// Takes in a report of the controller, unless the device does not scan or the level
    /// is below the filter. The data are cut to 255 bytes.
    pub fn process_adv_report(
        &mut self,
        addr: &[u8; 6],
        rssi: i8,
        discovery_level: u8,
        data: &[u8],
    ) -> (r: Result<(), Errno>)
        ensures
            r == Ok::<(), Errno>(()),
            final(self)@ == (if !old(self)@.scanning() || discovery_level
                < old(self)@.scan_params.filter_level {
                old(self)@
            } else {
                old(self)@.reported(
                    ScanModel {
                        addr: addr@,
                        rssi,
                        discovery_level,
                        adv_data: bytes::padded(data@, 255),
                        adv_data_len: bytes::prefix(data@, 255).len() as int,
                        ..blank()
                    },
                )
            }),
    {
        if !self.is_scanning() {
            return Ok(());
        }
        if discovery_level < self.scan_params.filter_level {
            return Ok(());
        }
        let mut result = ScanResult::default();
        result.addr = *addr;
        result.rssi = rssi;
        result.discovery_level = discovery_level;
        result.adv_data = bytes::to_array(data);
        result.adv_data_len = bytes::min_usize(data.len(), SLE_ADV_DATA_MAX);
        self.keep(result);
        Ok(())
    }

    /// Number of reports.
    pub fn scan_result_count(&self) -> (r: usize)
        ensures
            r == self@.results.len(),
    {
        self.scan_results.len()
    }

    proof fn set_replaced(before: AdvScanInner, after: AdvScanInner, i: int)
        requires
            0 <= i < 4,
            after == (AdvScanInner { ext_adv_sets: after.ext_adv_sets, ..before }),
            after.ext_adv_sets@ == before.ext_adv_sets@.update(i, after.ext_adv_sets@[i]),
        ensures
            after@ == (AdvModel {
                sets: before@.sets.update(i, set_view(after.ext_adv_sets@[i])),
                ..before@
            }),
    {
        assert(after@.sets =~= before@.sets.update(i, set_view(after.ext_adv_sets@[i])));
    }

    /// Sets an extended set up, making it where it is not there. Returns `EINVAL` where
    /// handle or identifier is out of range and `EBUSY` where the set is active.
    pub fn ext_adv_configure(&mut self, handle: u8, params: ExtAdvParams) -> (r: Result<(), Errno>)
        ensures
            if handle >= EXT_ADV_MAX_SETS || params.sid > 15 {
                r == Err::<(), Errno>(Errno::EINVAL) && final(self)@ == old(self)@
            } else {
                match old(self)@.sets[handle as int] {
                    Some(s) => if s.state == ExtAdvState::Active {
                        r == Err::<(), Errno>(Errno::EBUSY) && final(self)@ == old(self)@
                    } else {
                        r == Ok::<(), Errno>(()) && final(self)@ == old(self)@.with_set(
                            handle,
                            Some(ExtModel { params, state: ExtAdvState::Configured, ..s }),
                        )
                    },
                    None => r == Ok::<(), Errno>(()) && final(self)@ == old(self)@.with_set(
                        handle,
                        Some(
                            ExtModel {
                                params,
                                state: ExtAdvState::Configured,
                                ..ExtModel::fresh(handle)
                            },
                        ),
                    ),
                }
            },
    {
        let idx = handle as usize;
        if idx >= EXT_ADV_MAX_SETS {
            return Err(Errno::EINVAL);
        }
        if params.sid > 15 {
            return Err(Errno::EINVAL);
        }
        if self.ext_adv_sets[idx].is_none() {
            let mut set = ExtAdvSet::new(handle);
            set.params = params;
            set.state = ExtAdvState::Configured;
            self.ext_adv_sets[idx] = Some(set);
        } else if let Some(set) = &mut self.ext_adv_sets[idx] {
            if set.state == ExtAdvState::Active {
                return Err(Errno::EBUSY);
            }
            set.params = params;
            set.state = ExtAdvState::Configured;
        }
        proof {
            Self::set_replaced(*old(self), *self, idx as int);
        }
        Ok(())
    }

    /// Sets the data of an extended set, cut to 1650 bytes. Returns `EINVAL` where the
    /// handle is out of range or the set is not set up, and `ENOENT` where there is none.
    pub fn ext_adv_set_data(&mut self, handle: u8, data: &[u8]) -> (r: Result<(), Errno>)
        ensures
            match old(self)@.set_error(handle) {
                Some(e) => r == Err::<(), Errno>(e) && final(self)@ == old(self)@,
                None => {
                    let s = old(self)@.sets[handle as int]->0;
                    if s.state == ExtAdvState::Idle {
                        r == Err::<(), Errno>(Errno::EINVAL) && final(self)@ == old(self)@
                    } else {
                        r == Ok::<(), Errno>(()) && final(self)@ == old(self)@.with_set(
                            handle,
                            Some(
                                ExtModel {
                                    data: bytes::prefix(data@, EXT_ADV_DATA_MAX as int),
                                    ..s
                                },
                            ),
                        )
                    }
                },
            },
    {
        let idx = handle as usize;
        if idx >= EXT_ADV_MAX_SETS {
            return Err(Errno::EINVAL);
        }
        if let Some(set) = &mut self.ext_adv_sets[idx] {
            if set.state == ExtAdvState::Idle {
                return Err(Errno::EINVAL);
            }
            set.data = bytes::to_prefix(data, EXT_ADV_DATA_MAX);
        } else {
            return Err(Errno::ENOENT);
        }
        proof {
            Self::set_replaced(*old(self), *self, idx as int);
        }
        Ok(())
    }

    /// Enables an extended set without limits.
    pub fn ext_adv_enable(&mut self, handle: u8) -> (r: Result<(), Errno>)
        ensures
            match old(self)@.set_error(handle) {
                Some(e) => r == Err::<(), Errno>(e) && final(self)@ == old(self)@,
                None => {
                    let s = old(self)@.sets[handle as int]->0;
                    if s.state == ExtAdvState::Idle {
                        r == Err::<(), Errno>(Errno::EINVAL) && final(self)@ == old(self)@
                    } else {
                        r == Ok::<(), Errno>(()) && final(self)@ == old(self)@.with_set(
                            handle,
                            Some(s.enabled(0, 0)),
                        )
                    }
                },
            },
    {
        self.ext_adv_enable_ex(handle, 0, 0)
    }

    /// Enables an extended set for a time in units of 10 ms and a number of events, each 0
    /// for no limit. Returns `EINVAL` where the handle is out of range or the set is not
    /// set up, and `ENOENT` where there is none.
    pub fn ext_adv_enable_ex(&mut self, handle: u8, duration_10ms: u16, max_events: u8) -> (r:
        Result<(), Errno>)
        ensures
            match old(self)@.set_error(handle) {
                Some(e) => r == Err::<(), Errno>(e) && final(self)@ == old(self)@,
                None => {
                    let s = old(self)@.sets[handle as int]->0;
                    if s.state == ExtAdvState::Idle {
                        r == Err::<(), Errno>(Errno::EINVAL) && final(self)@ == old(self)@
                    } else {
                        r == Ok::<(), Errno>(()) && final(self)@ == old(self)@.with_set(
                            handle,
                            Some(s.enabled(duration_10ms, max_events)),
                        )
                    }
                },
            },
    {
        let idx = handle as usize;
        if idx >= EXT_ADV_MAX_SETS {
            return Err(Errno::EINVAL);
        }
        if let Some(set) = &mut self.ext_adv_sets[idx] {
            if set.state == ExtAdvState::Idle {
                return Err(Errno::EINVAL);
            }
            set.state = ExtAdvState::Active;
            set.tx_count = 0;
            set.duration_10ms = duration_10ms;
            set.max_events = max_events;
            set.events_sent = 0;
            set.elapsed_ticks = 0;
        } else {
            return Err(Errno::ENOENT);
        }
        proof {
            Self::set_replaced(*old(self), *self, idx as int);
        }
        Ok(())
    }

    /// Disables an extended set. Returns `EINVAL` where the handle is out of range or the
    /// set is not active, and `ENOENT` where there is none.
    pub fn ext_adv_disable(&mut self, handle: u8) -> (r: Result<(), Errno>)
        ensures
            match old(self)@.set_error(handle) {
                Some(e) => r == Err::<(), Errno>(e) && final(self)@ == old(self)@,
                None => {
                    let s = old(self)@.sets[handle as int]->0;
                    if s.state != ExtAdvState::Active {
                        r == Err::<(), Errno>(Errno::EINVAL) && final(self)@ == old(self)@
                    } else {
                        r == Ok::<(), Errno>(()) && final(self)@ == old(self)@.with_set(
                            handle,
                            Some(ExtModel { state: ExtAdvState::Configured, ..s }),
                        )
                    }
                },
            },
    {
        let idx = handle as usize;
        if idx >= EXT_ADV_MAX_SETS {
            return Err(Errno::EINVAL);
        }
        if let Some(set) = &mut self.ext_adv_sets[idx] {
            if set.state != ExtAdvState::Active {
                return Err(Errno::EINVAL);
            }
            set.state = ExtAdvState::Configured;
        } else {
            return Err(Errno::ENOENT);
        }
        proof {
            Self::set_replaced(*old(self), *self, idx as int);
        }
        Ok(())
    }

    /// Removes an extended set. Returns `EINVAL` where the handle is out of range,
    /// `ENOENT` where there is no such set and `EBUSY` where it is active.
    pub fn ext_adv_remove(&mut self, handle: u8) -> (r: Result<(), Errno>)
        ensures
            match old(self)@.set_error(handle) {
                Some(e) => r == Err::<(), Errno>(e) && final(self)@ == old(self)@,
                None => if old(self)@.sets[handle as int]->0.state == ExtAdvState::Active {
                    r == Err::<(), Errno>(Errno::EBUSY) && final(self)@ == old(self)@
                } else {
                    r == Ok::<(), Errno>(()) && final(self)@ == old(self)@.with_set(handle, None)
                },
            },
    {
        let idx = handle as usize;
        if idx >= EXT_ADV_MAX_SETS {
            return Err(Errno::EINVAL);
        }
        match &self.ext_adv_sets[idx] {
            Some(set) => if set.state == ExtAdvState::Active {
                return Err(Errno::EBUSY);
            },
            None => return Err(Errno::ENOENT),
        }
        self.ext_adv_sets[idx] = None;
        proof {
            Self::set_replaced(*old(self), *self, idx as int);
        }
        Ok(())
    }

    /// State, identifier, bandwidth, length of the data, packets sent, timing, most events
    /// and events sent of an extended set. Returns `EINVAL` where the handle is out of
    /// range and `ENOENT` where there is no such set.
    pub fn ext_adv_info(&self, handle: u8) -> (r: Result<
        (ExtAdvState, u8, u8, usize, u64, u8, u8, u32),
        Errno,
    >)
        ensures
            match self@.set_error(handle) {
                Some(e) => r == Err::<(ExtAdvState, u8, u8, usize, u64, u8, u8, u32), Errno>(e),
                None => {
                    let s = self@.sets[handle as int]->0;
                    r == Ok::<(ExtAdvState, u8, u8, usize, u64, u8, u8, u32), Errno>(
                        (
                            s.state,
                            s.params.sid,
                            s.params.primary_phy.code(),
                            s.data.len() as usize,
                            s.tx_count,
                            s.params.extended_adv_timing,
                            s.max_events,
                            s.events_sent,
                        ),
                    )
                },
            },
    {
        let idx = handle as usize;
        if idx >= EXT_ADV_MAX_SETS {
            return Err(Errno::EINVAL);
        }
        match &self.ext_adv_sets[idx] {
            Some(set) => Ok(
                (
                    set.state,
                    set.params.sid,
                    set.params.primary_phy.code(),
                    set.data.len(),
                    set.tx_count,
                    set.params.extended_adv_timing,
                    set.max_events,
                    set.events_sent,
                ),
            ),
            None => Err(Errno::ENOENT),
        }
    }

    /// The packet of an extended set, unless it is not there or not active.
    pub fn build_ext_adv_pdu(&self, handle: u8) -> (r: Option<AdvPdu>)
        requires
            self.wf(),
        ensures
            match r {
                Some(p) => {
                    &&& self@.set_error(handle) is None
                    &&& self@.sets[handle as int]->0.state == ExtAdvState::Active
                    &&& carries(
                        p,
                        self@.sets[handle as int]->0.params.broadcast_type,
                        PacketType::ExtendedAdv,
                        self@.sets[handle as int]->0.payload(self@.addr, self@.name()),
                    )
                },
                None => self@.set_error(handle) is Some || self@.sets[handle as int]->0.state
                    != ExtAdvState::Active,
            },
    {
        let idx = handle as usize;
        if idx >= EXT_ADV_MAX_SETS {
            return None;
        }
        let name = slice_subrange(&self.local_name, 0, self.local_name_len);
        assert(name@ == self@.name());
        match &self.ext_adv_sets[idx] {
            Some(set) => set.build_pdu(&self.addr, name),
            None => None,
        }
    }

    /// Number of active extended sets.
    pub fn ext_adv_active_count(&self) -> (r: u8)
        ensures
            r == active_sets(self@.sets, 4),
    {
        let mut count: u8 = 0;
        let mut i: usize = 0;
        while i < EXT_ADV_MAX_SETS
            invariant
                i <= EXT_ADV_MAX_SETS,
                count <= i,
                count == active_sets(self@.sets, i as int),
            decreases EXT_ADV_MAX_SETS - i,
        {
            if let Some(set) = &self.ext_adv_sets[i] {
                if set.state == ExtAdvState::Active {
                    count = count + 1;
                }
            }
            i = i + 1;
        }
        count
    }

    /// 10 ms passed: each active set has sent one more and stops where it is done. Returns
    /// how many stopped.
    pub fn ext_adv_tick(&mut self) -> (r: u8)
        requires
            forall|i: int|
                0 <= i < 4 ==> (#[trigger] old(self)@.sets[i] matches Some(s) ==> s.elapsed_ticks
                    < u32::MAX && s.events_sent < u32::MAX && s.tx_count < u64::MAX),
        ensures
            r == stopping_sets(old(self)@.sets, 4),
            final(self)@ == (AdvModel {
                sets: old(self)@.sets.map_values(
                    |s: Option<ExtModel>|
                        match s {
                            Some(x) => Some(x.ticked()),
                            None => None,
                        },
                ),
                ..old(self)@
            }),
    {
        let ghost before = self@.sets;
        let mut disabled: u8 = 0;
        let mut i: usize = 0;
        while i < EXT_ADV_MAX_SETS
            invariant
                i <= EXT_ADV_MAX_SETS,
                before == old(self)@.sets,
                before.len() == 4,
                self@ == (AdvModel { sets: self@.sets, ..old(self)@ }),
                self.local_name_len == old(self).local_name_len,
                self@.sets.len() == 4,
                disabled <= i,
                disabled == stopping_sets(before, i as int),
                forall|k: int|
                    0 <= k < 4 ==> (#[trigger] before[k] matches Some(s) ==> s.elapsed_ticks
                        < u32::MAX && s.events_sent < u32::MAX && s.tx_count < u64::MAX),
                forall|k: int|
                    0 <= k < i ==> #[trigger] self@.sets[k] == (match before[k] {
                        Some(x) => Some(x.ticked()),
                        None => None,
                    }),
                forall|k: int| i <= k < 4 ==> #[trigger] self@.sets[k] == before[k],
            decreases EXT_ADV_MAX_SETS - i,
        {
            let ghost prev = *self;
            assert(self@.sets[i as int] == before[i as int]);
            assert(self@.sets[i as int] == set_view(self.ext_adv_sets@[i as int]));
            if let Some(set) = &mut self.ext_adv_sets[i] {
                if set.state == ExtAdvState::Active {
                    set.elapsed_ticks = set.elapsed_ticks + 1;
                    set.events_sent = set.events_sent + 1;
                    set.tx_count = set.tx_count + 1;
                    let expired = set.duration_10ms > 0 && set.elapsed_ticks
                        >= set.duration_10ms as u32;
                    let exhausted = set.max_events > 0 && set.events_sent >= set.max_events as u32;
                    if expired || exhausted {
                        set.state = ExtAdvState::Configured;
                        disabled = disabled + 1;
                    }
                }
            }
            proof {
                Self::set_replaced(prev, *self, i as int);
            }
            i = i + 1;
        }
        assert(self@.sets =~= old(self)@.sets.map_values(
            |s: Option<ExtModel>|
                match s {
                    Some(x) => Some(x.ticked()),
                    None => None,
                },
        ));
        disabled
    }
}

impl ExtModel {
    /// After the set was enabled, with limits.
    pub open spec fn enabled(self, duration_10ms: u16, max_events: u8) -> ExtModel {
        ExtModel {
            state: ExtAdvState::Active,
            tx_count: 0,
            duration_10ms,
            max_events,
            events_sent: 0,
            elapsed_ticks: 0,
            ..self
        }
    }
}

/// A device never advertises and scans at the same time.
pub proof fn one_at_a_time(m: AdvModel)
    ensures
        !(m.advertising() && m.scanning()),
{
}

/// A set that was enabled for a number of events, without limit of time, is active until
/// it has sent that many, and then stops.
pub proof fn sends_as_told(s: ExtModel, n: u8, k: nat)
    requires
        n > 0,
        k <= n,
    ensures
        s.enabled(0, n).ticked_times(k).events_sent == k,
        s.enabled(0, n).ticked_times(k).elapsed_ticks == k,
        s.enabled(0, n).ticked_times(k).max_events == n,
        s.enabled(0, n).ticked_times(k).duration_10ms == 0,
        s.enabled(0, n).ticked_times(k).state == (if k < n {
            ExtAdvState::Active
        } else {
            ExtAdvState::Configured
        }),
    decreases k,
{
    if k > 0 {
        sends_as_told(s, n, (k - 1) as nat);
    }
}

/// Reports beyond the limit push out the oldest ones: there are never more than the limit.
pub proof fn reports_are_bounded(m: AdvModel, s: ScanModel)
    requires
        m.results.len() <= m.results_max,
        m.results_max > 0,
    ensures
        m.reported(s).results.len() <= m.results_max,
        m.reported(s).results.last() == s,
{
}

/// What a device advertises, another device reports: level, name and address are read
/// back from the common elements.
pub proof fn heard_as_advertised(level: u8, power: i8, addr: Seq<u8>, name: Seq<u8>, start: ScanModel)
    requires
        addr.len() == 6,
        0 < name.len() <= 32,
        start.name.len() == 32,
    ensures
        ({
            let s = start.told_all(
                sle_pdu::elements(common_data(level, Some(power), addr, name)),
            );
            &&& s.discovery_level == level % 8
            &&& s.addr == addr
            &&& s.name.take(s.name_len) == name
        }),
{
    let a = sle_pdu::tlv(0x01, seq![(level % 8) as u8]);
    let p = sle_pdu::tlv(0x0C, seq![bytes::i8_byte(power)]);
    let d = sle_pdu::tlv(0x0F, addr);
    let n = sle_pdu::tlv(0x0B, name);
    let e = Seq::<u8>::empty();
    sle_pdu::appended_comes_last(e, 0x01, seq![(level % 8) as u8]);
    assert(e + a =~= a);
    sle_pdu::appended_comes_last(a, 0x0C, seq![bytes::i8_byte(power)]);
    sle_pdu::appended_comes_last(a + p, 0x0F, addr);
    sle_pdu::appended_comes_last(a + p + d, 0x0B, name);
    assert(sle_pdu::elements(e) =~= Seq::empty());
    let es = sle_pdu::elements(a + p + d + n);
    assert(common_data(level, Some(power), addr, name) =~= a + p + d + n);
    assert(es =~= seq![
        (0x01u8, seq![(level % 8) as u8]),
        (0x0Cu8, seq![bytes::i8_byte(power)]),
        (0x0Fu8, addr),
        (0x0Bu8, name),
    ]);
    reveal_with_fuel(ScanModel::told_all, 5);
    let s1 = start.told(es[0]);
    let s2 = s1.told(es[1]);
    let s3 = s2.told(es[2]);
    let s4 = s3.told(es[3]);
    let r1 = es.drop_first();
    let r2 = r1.drop_first();
    let r3 = r2.drop_first();
    let r4 = r3.drop_first();
    assert(r1[0] == es[1] && r2[0] == es[2] && r3[0] == es[3] && r4.len() == 0);
    assert(start.told_all(es) == s4);
    assert(s4.name.take(s4.name_len) =~= name);
}

} // verus!
