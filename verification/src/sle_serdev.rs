//! A controller on a serial line of the machine: its receive path and the steps that bring
//! it up.

use vstd::prelude::*;

use crate::bytes;
use crate::sle_dli::{
    ControllerEventRing, SleBus, SleControllerInfo, SleEvent, SleFeature, SLE_MEAS_RSSI,
    SLE_SEC_AES_CCM, SLE_SEC_ECDH_P256, SLE_TRANSPORT_RELIABLE, SLE_TRANSPORT_UNRELIABLE,
};
use crate::sle_transport::{SleAttachInfo, SleProtoId};
use crate::sle_uart;
use crate::sle_uart::{FrameModel, UartFrame, UartParser};
use crate::sle_usb;
use crate::sle_usb::{event_to_sle, DliUsbEvent};
use crate::usb_probe;

verus! {

/// Speed of the line at the start.
pub const DEFAULT_INIT_SPEED: u32 = 115_200;

/// Speed of the line after the controller was brought up.
pub const DEFAULT_OPER_SPEED: u32 = 1_000_000;

/// What a device tree calls such a controller: "sparklink,sle-h4".
pub fn dt_compatible() -> (r: [u8; 16])
    ensures
        r@ == seq![
            115u8,
            112,
            97,
            114,
            107,
            108,
            105,
            110,
            107,
            44,
            115,
            108,
            101,
            45,
            104,
            52,
        ],
{
    [115, 112, 97, 114, 107, 108, 105, 110, 107, 44, 115, 108, 101, 45, 104, 52]
}

/// An event as it came over the line.
pub struct RawEvent {
    /// Number of the event.
    pub event_code: u16,
    /// Its parameters.
    pub params: Vec<u8>,
}

/// The events among frames, in order.
pub open spec fn events_in(frames: Seq<FrameModel>) -> Seq<(u16, Seq<u8>)>
    decreases frames.len(),
{
    if frames.len() == 0 {
        Seq::empty()
    } else {
        let before = events_in(frames.drop_last());
        match frames.last() {
            FrameModel::Event { event_code, params } => before.push((event_code, params)),
            _ => before,
        }
    }
}

/// Whether the ring goes from `before` to `after` by one event of the line: an event that
/// the stack knows joins it unless it is full.
pub open spec fn joins(
    code: u16,
    params: Seq<u8>,
    before: Seq<(Option<u16>, SleEvent)>,
    after: Seq<(Option<u16>, SleEvent)>,
) -> bool {
    if sle_usb::event_whole(code, params) {
        exists|ev: SleEvent| #[trigger]
            sle_usb::event_of(code, params, ev) && after == (if before.len() == 31 {
                before
            } else {
                before.push((None::<u16>, ev))
            })
    } else {
        after == before
    }
}

/// Whether the ring goes from `before` to `after` by the events of the line, one after the
/// other.
pub open spec fn all_join(
    events: Seq<(u16, Seq<u8>)>,
    before: Seq<(Option<u16>, SleEvent)>,
    after: Seq<(Option<u16>, SleEvent)>,
) -> bool
    decreases events.len(),
{
    if events.len() == 0 {
        after == before
    } else {
        exists|mid: Seq<(Option<u16>, SleEvent)>|
            all_join(events.drop_last(), before, mid) && #[trigger] joins(
                events.last().0,
                events.last().1,
                mid,
                after,
            )
    }
}

/// Raw events as values.
pub open spec fn raw_view(s: Seq<RawEvent>) -> Seq<(u16, Seq<u8>)> {
    s.map_values(|e: RawEvent| (e.event_code, e.params@))
}

/// The receive path: the bytes of a frame that is not complete, the device that events are
/// for, and the events that wait.
pub struct SerdevParserState {
    parser: UartParser,
    dev_id: Option<u16>,
    events: ControllerEventRing,
}

impl SerdevParserState {
    /// The parser and the ring are sound.
    pub closed spec fn wf(self) -> bool {
        self.parser.wf() && self.events.wf()
    }

    /// Bytes of a frame that is not complete.
    pub closed spec fn unread(self) -> Seq<u8> {
        self.parser@
    }

    /// The device that events are for.
    pub closed spec fn device(self) -> Option<u16> {
        self.dev_id
    }

    /// The events that wait.
    pub closed spec fn waiting(self) -> Seq<(Option<u16>, SleEvent)> {
        self.events@
    }

    /// Nothing received yet, and no device.
    pub fn new() -> (r: Self)
        ensures
            r.wf(),
            r.unread() == Seq::<u8>::empty(),
            r.device() == None::<u16>,
            r.waiting() == Seq::<(Option<u16>, SleEvent)>::empty(),
    {
        SerdevParserState {
            parser: UartParser::new(),
            dev_id: None,
            events: ControllerEventRing::new(),
        }
    }

    /// Sets the device that events are for.
    pub fn set_dev_id(&mut self, dev_id: u16)
        requires
            old(self).wf(),
        ensures
            final(self).wf(),
            final(self).device() == Some(dev_id),
            final(self).unread() == old(self).unread(),
            final(self).waiting() == old(self).waiting(),
    {
        self.dev_id = Some(dev_id);
    }

    /// Takes in bytes. Returns the events that they complete, with the device that they
    /// are for, for those who wait for an answer; events that the stack knows join the
    /// ring. Without a device the frames are dropped.
    pub fn feed_rx(&mut self, data: &[u8]) -> (r: Option<(u16, Vec<RawEvent>)>)
        requires
            old(self).wf(),
        ensures
            final(self).wf(),
            final(self).device() == old(self).device(),
            final(self).unread() == sle_uart::fed_all(old(self).unread(), data@).0,
            ({
                let events = events_in(sle_uart::fed_all(old(self).unread(), data@).1);
                match old(self).device() {
                    Some(id) => r matches Some(d) && d.0 == id && raw_view(d.1@) == events
                        && all_join(events, old(self).waiting(), final(self).waiting()),
                    None => r is None && final(self).waiting() == old(self).waiting(),
                }
            }),
    {
        let mut frames: Vec<UartFrame> = Vec::new();
        self.parser.feed_bytes(data, &mut frames);
        let ghost fs = sle_uart::fed_all(old(self).unread(), data@).1;
        assert(sle_uart::frames_view(Seq::<UartFrame>::empty()) =~= Seq::<FrameModel>::empty());
        assert(sle_uart::frames_view(frames@) =~= fs);
        let dev_id = match self.dev_id {
            Some(id) => id,
            None => {
                return None;
            },
        };
        let mut told: Vec<RawEvent> = Vec::new();
        let mut i: usize = 0;
        assert(raw_view(told@) =~= events_in(fs.take(0)));
        while i < frames.len()
            invariant
                i <= frames.len(),
                self.wf(),
                fs == sle_uart::frames_view(frames@),
                self.dev_id == Some(dev_id),
                self.unread() == sle_uart::fed_all(old(self).unread(), data@).0,
                raw_view(told@) == events_in(fs.take(i as int)),
                all_join(events_in(fs.take(i as int)), old(self).waiting(), self.waiting()),
            decreases frames.len() - i,
        {
            let ghost before = raw_view(told@);
            let ghost mid = self.waiting();
            let ghost next = fs.take(i + 1);
            assert(next.drop_last() =~= fs.take(i as int));
            assert(next.last() == frames@[i as int]@);
            if let UartFrame::Event { event_code, params } = &frames[i] {
                let raw = DliUsbEvent { event_code: *event_code, params: bytes::to_vec(params.as_slice()) };
                match event_to_sle(&raw) {
                    Some(ev) => {
                        self.events.push(ev);
                        assert(sle_usb::event_of(*event_code, params@, ev));
                    },
                    None => {},
                }
                assert(joins(*event_code, params@, mid, self.waiting()));
                told.push(RawEvent { event_code: *event_code, params: raw.params });
                assert(raw_view(told@) =~= before.push((*event_code, params@)));
                assert(events_in(next).drop_last() =~= before);
                assert(all_join(events_in(next).drop_last(), old(self).waiting(), mid));
                assert(joins(events_in(next).last().0, events_in(next).last().1, mid, self.waiting()));
                assert(all_join(events_in(next), old(self).waiting(), self.waiting()));
            }
            i = i + 1;
        }
        assert(fs.take(i as int) =~= fs);
        Some((dev_id, told))
    }

    /// Takes the oldest event that waits, if there is one.
    pub fn poll_event(&mut self) -> (r: Option<SleEvent>)
        requires
            old(self).wf(),
        ensures
            final(self).wf(),
            final(self).device() == old(self).device(),
            final(self).unread() == old(self).unread(),
            match r {
                Some(ev) => old(self).waiting().len() > 0 && ev == old(self).waiting()[0].1
                    && final(self).waiting() == old(self).waiting().drop_first(),
                None => old(self).waiting().len() == 0 && final(self).waiting() == old(
                    self,
                ).waiting(),
            },
    {
        self.events.pop()
    }
}

/// Makes sure that there is a receive path, and has it take events for a device.
pub fn route_events(state: &mut Option<SerdevParserState>, dev_id: u16)
    requires
        *old(state) matches Some(s) ==> s.wf(),
    ensures
        *final(state) matches Some(s) && s.wf() && s.device() == Some(dev_id) && (match *old(
            state,
        ) {
            Some(o) => s.unread() == o.unread() && s.waiting() == o.waiting(),
            None => s.unread().len() == 0 && s.waiting().len() == 0,
        }),
{
    match state {
        Some(s) => {
            s.set_dev_id(dev_id);
        },
        None => {
            let mut s = SerdevParserState::new();
            s.set_dev_id(dev_id);
            *state = Some(s);
        },
    }
}

/// The name "sparklink-serdev".
pub open spec fn serdev_name() -> Seq<u8> {
    seq![
        115u8,
        112,
        97,
        114,
        107,
        108,
        105,
        110,
        107,
        45,
        115,
        101,
        114,
        100,
        101,
        118,
    ]
}

/// A controller on a serial line. The transfers themselves are done by the driver.
pub struct SerdevController {
    addr: [u8; 6],
    dev_id: u16,
}

impl SerdevController {
    /// Its address.
    pub closed spec fn addr(self) -> Seq<u8> {
        self.addr@
    }

    /// Its device.
    pub closed spec fn device(self) -> u16 {
        self.dev_id
    }

    /// The controller of device `dev_id`.
    pub fn new(addr: [u8; 6], dev_id: u16) -> (r: Self)
        ensures
            r.addr() == addr@,
            r.device() == dev_id,
    {
        SerdevController { addr, dev_id }
    }

    /// Its device.
    pub fn dev_id(&self) -> (r: u16)
        ensures
            r == self.device(),
    {
        self.dev_id
    }

    /// What the controller is and can do, given the version of its firmware.
    pub fn info(&self, fw_version: u32) -> (r: SleControllerInfo)
        ensures
            r.name@ == bytes::padded(serdev_name(), 32),
            r.bus == SleBus::Uart,
            r.addr@ == self.addr(),
            r.fw_version == fw_version,
            r.features == SleFeature::Encryption.mask() | SleFeature::Mcs4.mask()
                | SleFeature::Pilot8to1.mask() | SleFeature::Crc32.mask()
                | SleFeature::DataLenUpdate.mask(),
            r.max_pdu_payload == 255,
            r.max_connections == 4,
            r.max_mtu == 512,
            r.max_mps == 255,
            r.transport_modes == SLE_TRANSPORT_UNRELIABLE | SLE_TRANSPORT_RELIABLE,
            r.measurement_cap == SLE_MEAS_RSSI,
            r.security_cap == SLE_SEC_AES_CCM | SLE_SEC_ECDH_P256,
    {
        let name = [
            115u8,
            112,
            97,
            114,
            107,
            108,
            105,
            110,
            107,
            45,
            115,
            101,
            114,
            100,
            101,
            118,
        ];
        assert(name@ == serdev_name());
        SleControllerInfo {
            name: bytes::to_array(name.as_slice()),
            bus: SleBus::Uart,
            addr: self.addr,
            fw_version,
            features: SleFeature::Encryption.mask() | SleFeature::Mcs4.mask()
                | SleFeature::Pilot8to1.mask() | SleFeature::Crc32.mask()
                | SleFeature::DataLenUpdate.mask(),
            max_pdu_payload: 255,
            max_connections: 4,
            max_mtu: 512,
            max_mps: 255,
            transport_modes: SLE_TRANSPORT_UNRELIABLE | SLE_TRANSPORT_RELIABLE,
            measurement_cap: SLE_MEAS_RSSI,
            security_cap: SLE_SEC_AES_CCM | SLE_SEC_ECDH_P256,
        }
    }
}

/// A controller that was brought up.
#[derive(Clone, Copy, Debug, PartialEq, Eq, Structural)]
pub struct SleSerdevData {
    /// Device number.
    pub dev_id: u16,
    /// Speed of the line at the start.
    pub init_speed: u32,
    /// Speed of the line after the controller was brought up.
    pub oper_speed: u32,
}

impl SleSerdevData {
    /// A controller that was brought up.
    pub fn new(dev_id: u16, init_speed: u32, oper_speed: u32) -> (r: Self)
        ensures
            r == (SleSerdevData { dev_id, init_speed, oper_speed }),
    {
        SleSerdevData { dev_id, init_speed, oper_speed }
    }

    /// Device number.
    pub fn dev_id(&self) -> (r: u16)
        ensures
            r == self.dev_id,
    {
        self.dev_id
    }
}

/// What bringing up a controller waits for.
#[derive(Clone, Copy, Debug)]
pub enum SerdevStage {
    /// For a device number.
    Attach,
    /// For the line to be entered in the table of the driver.
    Register { dev_id: u16 },
    /// For the controller to be reset and asked who it is.
    Init { dev_id: u16 },
    /// For the address of the controller.
    ReadMac { dev_id: u16 },
    /// For the firmware version of the controller.
    ReadVersion { dev_id: u16 },
    /// For the stack to go over to the controller.
    Switch { dev_id: u16, fw_version: u32 },
    /// For the device number to be given back.
    Detach { dev_id: u16, code: i32 },
    /// For nothing: it went through.
    Done { dev_id: u16 },
    /// For nothing: it failed.
    Failed { code: i32 },
}

/// A controller that is being brought up.
#[derive(Clone, Copy, Debug)]
pub struct SerdevProbe {
    /// What is waited for.
    pub stage: SerdevStage,
    /// Address of the controller as far as it is known.
    pub addr: [u8; 6],
    /// Whether there is a line at all.
    pub has_port: bool,
    /// Speed of the line at the start.
    pub init_speed: u32,
    /// Speed of the line after the controller was brought up.
    pub oper_speed: u32,
}

/// A controller that is being brought up as a value.
#[verifier::ext_equal]
pub struct SerdevProbeModel {
    /// What is waited for.
    pub stage: SerdevStage,
    /// Address of the controller as far as it is known.
    pub addr: Seq<u8>,
    /// Whether there is a line at all.
    pub has_port: bool,
    /// Speed of the line at the start.
    pub init_speed: u32,
    /// Speed of the line after the controller was brought up.
    pub oper_speed: u32,
}

impl View for SerdevProbe {
    type V = SerdevProbeModel;

    open spec fn view(&self) -> SerdevProbeModel {
        SerdevProbeModel {
            stage: self.stage,
            addr: self.addr@,
            has_port: self.has_port,
            init_speed: self.init_speed,
            oper_speed: self.oper_speed,
        }
    }
}

/// What came of the step that was waited for.
#[derive(Clone, Copy, Debug)]
pub enum SerdevReply {
    /// The device number, or a number where there is none.
    Attached(Result<u16, i32>),
    /// What entering the line gave.
    Registered(i32),
    /// The reset is over, whatever came of it.
    Started,
    /// What reading the address gave, and the address.
    Mac(i32, [u8; 6]),
    /// The firmware version.
    Version(u32),
    /// The stack went over to the controller.
    Switched,
    /// The device number was given back.
    Detached,
}

impl SerdevProbeModel {
    /// With another thing to wait for.
    pub open spec fn at(self, stage: SerdevStage) -> SerdevProbeModel {
        SerdevProbeModel { stage, ..self }
    }

    /// The next step. Without a line a device number is all that is asked for. Where the
    /// line cannot be entered, the number is given back and the whole fails. A controller
    /// that cannot be reset is taken as it is. A reply to another step changes nothing.
    pub open spec fn next(self, reply: SerdevReply) -> SerdevProbeModel {
        match (self.stage, reply) {
            (SerdevStage::Attach, SerdevReply::Attached(Ok(dev_id))) => if self.has_port {
                self.at(SerdevStage::Register { dev_id })
            } else {
                self.at(SerdevStage::Done { dev_id })
            },
            (SerdevStage::Attach, SerdevReply::Attached(Err(code))) => self.at(
                SerdevStage::Failed { code },
            ),
            (SerdevStage::Register { dev_id }, SerdevReply::Registered(ret)) => if ret < 0 {
                self.at(SerdevStage::Detach { dev_id, code: ret })
            } else {
                self.at(SerdevStage::Init { dev_id })
            },
            (SerdevStage::Init { dev_id }, SerdevReply::Started) => self.at(
                SerdevStage::ReadMac { dev_id },
            ),
            (SerdevStage::ReadMac { dev_id }, SerdevReply::Mac(ret, mac)) => SerdevProbeModel {
                stage: SerdevStage::ReadVersion { dev_id },
                addr: usb_probe::own_address(ret, mac@, self.addr),
                ..self
            },
            (SerdevStage::ReadVersion { dev_id }, SerdevReply::Version(fw_version)) => self.at(
                SerdevStage::Switch { dev_id, fw_version },
            ),
            (SerdevStage::Switch { dev_id, .. }, SerdevReply::Switched) => self.at(
                SerdevStage::Done { dev_id },
            ),
            (SerdevStage::Detach { code, .. }, SerdevReply::Detached) => self.at(
                SerdevStage::Failed { code },
            ),
            _ => self,
        }
    }
}

/// Starts to bring up a controller on a line, or a device without a line.
pub fn serdev_probe(has_port: bool, addr: [u8; 6], init_speed: u32, oper_speed: u32) -> (r:
    SerdevProbe)
    ensures
        r@ == (SerdevProbeModel {
            stage: SerdevStage::Attach,
            addr: addr@,
            has_port,
            init_speed,
            oper_speed,
        }),
{
    SerdevProbe { stage: SerdevStage::Attach, addr, has_port, init_speed, oper_speed }
}

impl SerdevProbe {
    /// What is known of the device when a number is asked for.
    pub fn attach_info(&self) -> (r: SleAttachInfo)
        ensures
            r.proto_id == SleProtoId::H4Uart,
            r.addr@ == self@.addr,
            r.fw_version == 0,
            r.features == 0,
            r.max_pdu == 0,
            r.max_connections == 0,
    {
        SleAttachInfo::new(SleProtoId::H4Uart, self.addr)
    }

    /// The next step after a reply.
    pub fn next(self, reply: SerdevReply) -> (r: SerdevProbe)
        ensures
            r@ == self@.next(reply),
    {
        let mut p = self;
        match (self.stage, reply) {
            (SerdevStage::Attach, SerdevReply::Attached(Ok(dev_id))) => {
                p.stage = if self.has_port {
                    SerdevStage::Register { dev_id }
                } else {
                    SerdevStage::Done { dev_id }
                };
            },
            (SerdevStage::Attach, SerdevReply::Attached(Err(code))) => {
                p.stage = SerdevStage::Failed { code };
            },
            (SerdevStage::Register { dev_id }, SerdevReply::Registered(ret)) => {
                p.stage = if ret < 0 {
                    SerdevStage::Detach { dev_id, code: ret }
                } else {
                    SerdevStage::Init { dev_id }
                };
            },
            (SerdevStage::Init { dev_id }, SerdevReply::Started) => {
                p.stage = SerdevStage::ReadMac { dev_id };
            },
            (SerdevStage::ReadMac { dev_id }, SerdevReply::Mac(ret, mac)) => {
                p.addr = usb_probe::settle_address(ret, mac, self.addr);
                p.stage = SerdevStage::ReadVersion { dev_id };
            },
            (SerdevStage::ReadVersion { dev_id }, SerdevReply::Version(fw_version)) => {
                p.stage = SerdevStage::Switch { dev_id, fw_version };
            },
            (SerdevStage::Switch { dev_id, fw_version: _ }, SerdevReply::Switched) => {
                p.stage = SerdevStage::Done { dev_id };
            },
            (SerdevStage::Detach { dev_id: _, code }, SerdevReply::Detached) => {
                p.stage = SerdevStage::Failed { code };
            },
            _ => {},
        }
        p
    }

    /// What came of it, once nothing is waited for.
    pub fn result(&self) -> (r: Option<Result<SleSerdevData, i32>>)
        ensures
            r == (match self.stage {
                SerdevStage::Done { dev_id } => Some(
                    Ok::<SleSerdevData, i32>(
                        SleSerdevData {
                            dev_id,
                            init_speed: self.init_speed,
                            oper_speed: self.oper_speed,
                        },
                    ),
                ),
                SerdevStage::Failed { code } => Some(Err::<SleSerdevData, i32>(code)),
                _ => None,
            }),
    {
        match self.stage {
            SerdevStage::Done { dev_id } => Some(
                Ok(SleSerdevData::new(dev_id, self.init_speed, self.oper_speed)),
            ),
            SerdevStage::Failed { code } => Some(Err(code)),
            _ => None,
        }
    }
}

/// A controller that answers is handed over under its own address, where it is not zero.
pub proof fn brought_up(p: SerdevProbeModel, dev_id: u16, reg: i32, mac: [u8; 6], version: u32)
    requires
        p.stage is Attach,
        p.has_port,
        reg >= 0,
    ensures
        ({
            let told = p.next(SerdevReply::Attached(Ok(dev_id))).next(
                SerdevReply::Registered(reg),
            ).next(SerdevReply::Started).next(SerdevReply::Mac(0, mac)).next(
                SerdevReply::Version(version),
            );
            &&& told.stage == (SerdevStage::Switch { dev_id, fw_version: version })
            &&& told.addr == usb_probe::own_address(0, mac@, p.addr)
            &&& told.next(SerdevReply::Switched).stage == (SerdevStage::Done { dev_id })
        }),
{
}

/// A device whose line cannot be entered gives its number back before the failure is told.
pub proof fn gives_number_back(p: SerdevProbeModel, dev_id: u16, reg: i32)
    requires
        p.stage is Attach,
        p.has_port,
        reg < 0,
    ensures
        ({
            let told = p.next(SerdevReply::Attached(Ok(dev_id))).next(
                SerdevReply::Registered(reg),
            );
            &&& told.stage == (SerdevStage::Detach { dev_id, code: reg })
            &&& told.next(SerdevReply::Detached).stage == (SerdevStage::Failed { code: reg })
        }),
{
}

} // verus!
