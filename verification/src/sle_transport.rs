//! Which transport protocols there are, and which device uses which.

use vstd::prelude::*;

use crate::errno::Errno;
use crate::sle_dli;
use crate::sle_dli::{SleBus, SleControllerInfo};
use crate::slots;

verus! {

/// Most protocols.
pub const MAX_PROTOS: usize = 8;

/// Most devices that are bound to a protocol.
pub const MAX_BOUND_DEVS: usize = 16;

/// Transport protocols.
#[derive(Clone, Copy, Debug, PartialEq, Eq, Structural)]
pub enum SleProtoId {
    /// Framed packets on a serial line.
    H4Uart,
    /// Endpoints of a USB device.
    UsbBulk,
    /// Registers behind SPI.
    Spi,
    /// A loopback without hardware.
    Virtual,
}

impl SleProtoId {
    /// Number of the protocol, its slot in the registry.
    #[verifier::allow_in_spec]
    pub fn code(self) -> u8
        returns
            (match self {
                SleProtoId::H4Uart => 0u8,
                SleProtoId::UsbBulk => 1u8,
                SleProtoId::Spi => 2u8,
                SleProtoId::Virtual => 3u8,
            }),
    {
        match self {
            SleProtoId::H4Uart => 0,
            SleProtoId::UsbBulk => 1,
            SleProtoId::Spi => 2,
            SleProtoId::Virtual => 3,
        }
    }
}

/// Properties of a protocol.
#[derive(Clone, Copy, Debug)]
pub struct SleProtoEntry {
    /// Which protocol.
    pub id: SleProtoId,
    /// Name.
    pub name: &'static str,
    /// Bus of the devices.
    pub bus: SleBus,
    /// Longest payload unless a device says otherwise.
    pub max_pdu: u16,
    /// Speed of a serial line at first, 0 on other buses.
    pub init_speed: u32,
    /// Speed of a serial line in operation, 0 on other buses.
    pub oper_speed: u32,
}

/// The protocols that there are, each in the slot of its number.
pub struct SleProtoRegistry {
    slots: [Option<SleProtoEntry>; 8],
    count: u8,
}

impl View for SleProtoRegistry {
    type V = Seq<Option<SleProtoEntry>>;

    closed spec fn view(&self) -> Seq<Option<SleProtoEntry>> {
        self.slots@
    }
}

impl SleProtoRegistry {
    /// The count is that of the taken slots.
    pub closed spec fn wf(self) -> bool {
        self.count == slots::taken(self.slots@, 8)
    }

    /// No protocols.
    pub fn new() -> (r: Self)
        ensures
            r.wf(),
            r@ == Seq::new(8, |i: int| None::<SleProtoEntry>),
    {
        let r = SleProtoRegistry { slots: [None, None, None, None, None, None, None, None], count: 0 };
        proof {
            assert(r@ =~= Seq::new(8, |i: int| None::<SleProtoEntry>));
            slots::none_taken(r@, 8);
        }
        r
    }

    /// Adds a protocol, or returns `EEXIST` where it is there already.
    pub fn register(&mut self, entry: SleProtoEntry) -> (r: Result<(), Errno>)
        requires
            old(self).wf(),
        ensures
            final(self).wf(),
            old(self)@.len() == 8,
            if old(self)@[entry.id.code() as int] is Some {
                r == Err::<(), Errno>(Errno::EEXIST) && final(self)@ == old(self)@
            } else {
                r == Ok::<(), Errno>(()) && final(self)@ == old(self)@.update(
                    entry.id.code() as int,
                    Some(entry),
                )
            },
    {
        let idx = entry.id.code() as usize;
        if self.slots[idx].is_some() {
            return Err(Errno::EEXIST);
        }
        proof {
            slots::taken_update(self.slots@, idx as int, Some(entry), 8);
            slots::taken_bounds(self.slots@, 8);
        }
        self.slots[idx] = Some(entry);
        self.count = self.count + 1;
        Ok(())
    }

    /// Takes a protocol out, if it is there.
    pub fn unregister(&mut self, id: SleProtoId)
        requires
            old(self).wf(),
        ensures
            final(self).wf(),
            old(self)@.len() == 8,
            final(self)@ == old(self)@.update(id.code() as int, None),
    {
        let idx = id.code() as usize;
        proof {
            slots::taken_update(self.slots@, idx as int, None, 8);
        }
        if self.slots[idx].is_some() {
            self.slots[idx] = None;
            self.count = self.count - 1;
        }
    }

    /// The properties of a protocol, if it is there.
    pub fn get(&self, id: SleProtoId) -> (r: Option<&SleProtoEntry>)
        ensures
            match r {
                Some(e) => self@[id.code() as int] == Some(*e),
                None => self@[id.code() as int] is None,
            },
    {
        match &self.slots[id.code() as usize] {
            Some(e) => Some(e),
            None => None,
        }
    }

    /// Number of protocols.
    pub fn count(&self) -> (r: u8)
        requires
            self.wf(),
        ensures
            r == slots::held(self@).len(),
    {
        proof {
            slots::held_count(self.slots@);
        }
        self.count
    }

    /// The protocols, in the order of their numbers.
    pub fn iter(&self) -> (r: Vec<SleProtoEntry>)
        ensures
            r@ == slots::held(self@),
    {
        let mut v: Vec<SleProtoEntry> = Vec::new();
        let mut i: usize = 0;
        while i < 8
            invariant
                i <= 8,
                v@ == slots::held(self@.take(i as int)),
            decreases 8 - i,
        {
            proof {
                let t = self@.take(i + 1);
                assert(t.drop_last() == self@.take(i as int));
                assert(t.last() == self@[i as int]);
            }
            if let Some(e) = self.slots[i] {
                v.push(e);
            }
            i = i + 1;
        }
        assert(self@.take(i as int) == self@);
        v
    }
}

/// What is known of a device that is attached.
#[derive(Clone, Copy, Debug)]
pub struct SleAttachInfo {
    /// Its protocol.
    pub proto_id: SleProtoId,
    /// Its address.
    pub addr: [u8; 6],
    /// Version of its firmware, 0 where it is not known.
    pub fw_version: u32,
    /// Its features, 0 where they are not known.
    pub features: u64,
    /// Its longest payload, 0 for that of the protocol.
    pub max_pdu: u16,
    /// Its most connections, 0 for that of the protocol.
    pub max_connections: u8,
}

impl SleAttachInfo {
    /// A device of which only protocol and address are known.
    pub fn new(proto_id: SleProtoId, addr: [u8; 6]) -> (r: Self)
        ensures
            r == (SleAttachInfo {
                proto_id,
                addr,
                fw_version: 0,
                features: 0,
                max_pdu: 0,
                max_connections: 0,
            }),
    {
        SleAttachInfo {
            proto_id,
            addr,
            fw_version: 0,
            features: 0,
            max_pdu: 0,
            max_connections: 0,
        }
    }

    /// What a device of protocol `proto` is entered with: what its driver left open is taken
    /// from the protocol, and what the protocol leaves open from a controller of which
    /// nothing is known.
    pub fn controller_info(&self, proto: &SleProtoEntry) -> (r: SleControllerInfo)
        ensures
            exists|d: SleControllerInfo|
                #[trigger] sle_dli::info_default(d) && r == (SleControllerInfo {
                    bus: proto.bus,
                    addr: self.addr,
                    fw_version: self.fw_version,
                    features: self.features,
                    max_pdu_payload: if self.max_pdu == 0 {
                        proto.max_pdu
                    } else {
                        self.max_pdu
                    },
                    max_connections: if self.max_connections == 0 {
                        d.max_connections
                    } else {
                        self.max_connections
                    },
                    ..d
                }),
    {
        let d = SleControllerInfo::default();
        let mut r = d;
        r.bus = proto.bus;
        r.addr = self.addr;
        r.fw_version = self.fw_version;
        r.features = self.features;
        r.max_pdu_payload = if self.max_pdu == 0 {
            proto.max_pdu
        } else {
            self.max_pdu
        };
        if self.max_connections != 0 {
            r.max_connections = self.max_connections;
        }
        r
    }
}

/// A device that was attached.
#[derive(Clone, Copy, Debug)]
pub struct SleAttachResult {
    /// Its number.
    pub dev_id: u16,
}

/// A device and the protocol it uses.
#[derive(Clone, Copy, Debug)]
pub struct SleDevBinding {
    /// Number of the device.
    pub dev_id: u16,
    /// Its protocol.
    pub proto_id: SleProtoId,
    /// Whether it is open.
    pub opened: bool,
}

/// The devices that are bound to a protocol, each in the slot of its number.
pub struct SleBindingTable {
    slots: [Option<SleDevBinding>; 16],
    count: u8,
}

impl View for SleBindingTable {
    type V = Seq<Option<SleDevBinding>>;

    closed spec fn view(&self) -> Seq<Option<SleDevBinding>> {
        self.slots@
    }
}

impl SleBindingTable {
    /// The count is that of the taken slots.
    pub closed spec fn wf(self) -> bool {
        self.count == slots::taken(self.slots@, 16)
    }

    /// No devices.
    pub fn new() -> (r: Self)
        ensures
            r.wf(),
            r@ == Seq::new(16, |i: int| None::<SleDevBinding>),
    {
        let r = SleBindingTable {
            slots: [
                None,
                None,
                None,
                None,
                None,
                None,
                None,
                None,
                None,
                None,
                None,
                None,
                None,
                None,
                None,
                None,
            ],
            count: 0,
        };
        proof {
            assert(r@ =~= Seq::new(16, |i: int| None::<SleDevBinding>));
            slots::none_taken(r@, 16);
        }
        r
    }

    /// Binds a device. Returns `ENOMEM` where its number is too large and `EEXIST` where
    /// it is bound already.
    pub fn insert(&mut self, binding: SleDevBinding) -> (r: Result<(), Errno>)
        requires
            old(self).wf(),
        ensures
            final(self).wf(),
            old(self)@.len() == MAX_BOUND_DEVS,
            if binding.dev_id >= MAX_BOUND_DEVS {
                r == Err::<(), Errno>(Errno::ENOMEM) && final(self)@ == old(self)@
            } else if old(self)@[binding.dev_id as int] is Some {
                r == Err::<(), Errno>(Errno::EEXIST) && final(self)@ == old(self)@
            } else {
                r == Ok::<(), Errno>(()) && final(self)@ == old(self)@.update(
                    binding.dev_id as int,
                    Some(binding),
                )
            },
    {
        let idx = binding.dev_id as usize;
        if idx >= MAX_BOUND_DEVS {
            return Err(Errno::ENOMEM);
        }
        if self.slots[idx].is_some() {
            return Err(Errno::EEXIST);
        }
        proof {
            slots::taken_update(self.slots@, idx as int, Some(binding), 16);
            slots::taken_bounds(self.slots@, 16);
        }
        self.slots[idx] = Some(binding);
        self.count = self.count + 1;
        Ok(())
    }

    /// Takes a device out and returns what was known of it, if it was there.
    pub fn remove(&mut self, dev_id: u16) -> (r: Option<SleDevBinding>)
        requires
            old(self).wf(),
        ensures
            final(self).wf(),
            old(self)@.len() == MAX_BOUND_DEVS,
            if dev_id < MAX_BOUND_DEVS {
                r == old(self)@[dev_id as int] && final(self)@ == old(self)@.update(
                    dev_id as int,
                    None,
                )
            } else {
                r is None && final(self)@ == old(self)@
            },
    {
        let idx = dev_id as usize;
        if idx >= MAX_BOUND_DEVS {
            return None;
        }
        proof {
            slots::taken_update(self.slots@, idx as int, None, 16);
        }
        let entry = self.slots[idx];
        if entry.is_some() {
            self.slots[idx] = None;
            self.count = self.count - 1;
        }
        entry
    }

    /// What is known of a device, if it is bound.
    pub fn get(&self, dev_id: u16) -> (r: Option<&SleDevBinding>)
        ensures
            match r {
                Some(b) => dev_id < MAX_BOUND_DEVS && self@[dev_id as int] == Some(*b),
                None => dev_id >= MAX_BOUND_DEVS || self@[dev_id as int] is None,
            },
    {
        let idx = dev_id as usize;
        if idx < MAX_BOUND_DEVS {
            match &self.slots[idx] {
                Some(b) => Some(b),
                None => None,
            }
        } else {
            None
        }
    }

    /// What is known of a device, for changing.
    pub fn get_mut(&mut self, dev_id: u16) -> (r: Option<&mut SleDevBinding>)
        requires
            old(self).wf(),
        ensures
            final(self).wf(),
            old(self)@.len() == MAX_BOUND_DEVS,
            match r {
                Some(b) => dev_id < MAX_BOUND_DEVS && old(self)@[dev_id as int] == Some(*b)
                    && final(self)@ == old(self)@.update(dev_id as int, Some(*final(b))),
                None => (dev_id >= MAX_BOUND_DEVS || old(self)@[dev_id as int] is None)
                    && final(self)@ == old(self)@,
            },
    {
        let idx = dev_id as usize;
        if idx < MAX_BOUND_DEVS {
            proof {
                let t = self.slots@;
                assert forall|u: Seq<Option<SleDevBinding>>|
                    u == t.update(idx as int, u[idx as int]) && (u[idx as int] is Some
                        == t[idx as int] is Some) implies #[trigger] slots::taken(u, 16) == slots::taken(
                    t,
                    16,
                ) by {
                    slots::taken_update(t, idx as int, u[idx as int], 16);
                }
            }
            match &mut self.slots[idx] {
                Some(b) => Some(b),
                None => None,
            }
        } else {
            None
        }
    }

    /// Number of devices.
    pub fn count(&self) -> (r: u8)
        requires
            self.wf(),
        ensures
            r == slots::held(self@).len(),
    {
        proof {
            slots::held_count(self.slots@);
        }
        self.count
    }

    /// The devices, in the order of their numbers.
    pub fn iter(&self) -> (r: Vec<SleDevBinding>)
        ensures
            r@ == slots::held(self@),
    {
        let mut v: Vec<SleDevBinding> = Vec::new();
        let mut i: usize = 0;
        while i < 16
            invariant
                i <= 16,
                v@ == slots::held(self@.take(i as int)),
            decreases 16 - i,
        {
            proof {
                let t = self@.take(i + 1);
                assert(t.drop_last() == self@.take(i as int));
                assert(t.last() == self@[i as int]);
            }
            if let Some(b) = self.slots[i] {
                v.push(b);
            }
            i = i + 1;
        }
        assert(self@.take(i as int) == self@);
        v
    }
}

/// The protocol of framed packets on a serial line.
pub fn h4_uart_proto() -> (r: SleProtoEntry)
    ensures
        r == (SleProtoEntry {
            id: SleProtoId::H4Uart,
            name: "sparklink-h4",
            bus: SleBus::Uart,
            max_pdu: 255,
            init_speed: 115_200,
            oper_speed: 1_000_000,
        }),
{
    SleProtoEntry {
        id: SleProtoId::H4Uart,
        name: "sparklink-h4",
        bus: SleBus::Uart,
        max_pdu: 255,
        init_speed: 115_200,
        oper_speed: 1_000_000,
    }
}

/// The protocol of the endpoints of a USB device.
pub fn usb_bulk_proto() -> (r: SleProtoEntry)
    ensures
        r == (SleProtoEntry {
            id: SleProtoId::UsbBulk,
            name: "sparklink-usb",
            bus: SleBus::Usb,
            max_pdu: 255,
            init_speed: 0,
            oper_speed: 0,
        }),
{
    SleProtoEntry {
        id: SleProtoId::UsbBulk,
        name: "sparklink-usb",
        bus: SleBus::Usb,
        max_pdu: 255,
        init_speed: 0,
        oper_speed: 0,
    }
}

/// The protocol of registers behind SPI.
pub fn spi_reg_proto() -> (r: SleProtoEntry)
    ensures
        r == (SleProtoEntry {
            id: SleProtoId::Spi,
            name: "sparklink-spi",
            bus: SleBus::Spi,
            max_pdu: 255,
            init_speed: 0,
            oper_speed: 0,
        }),
{
    SleProtoEntry {
        id: SleProtoId::Spi,
        name: "sparklink-spi",
        bus: SleBus::Spi,
        max_pdu: 255,
        init_speed: 0,
        oper_speed: 0,
    }
}

/// The loopback protocol.
pub fn virtual_proto() -> (r: SleProtoEntry)
    ensures
        r == (SleProtoEntry {
            id: SleProtoId::Virtual,
            name: "sparklink-virtual",
            bus: SleBus::Virtual,
            max_pdu: 255,
            init_speed: 0,
            oper_speed: 0,
        }),
{
    SleProtoEntry {
        id: SleProtoId::Virtual,
        name: "sparklink-virtual",
        bus: SleBus::Virtual,
        max_pdu: 255,
        init_speed: 0,
        oper_speed: 0,
    }
}

/// Adds the four protocols of this crate to a registry; those that are there already
/// stay as they are.
pub fn register_builtin_protos(reg: &mut SleProtoRegistry)
    requires
        old(reg).wf(),
    ensures
        final(reg).wf(),
        final(reg)@.len() == 8,
        forall|i: int|
            0 <= i < 8 ==> #[trigger] final(reg)@[i] == match old(reg)@[i] {
                Some(e) => Some(e),
                None => if i == 0 {
                    Some(
                        SleProtoEntry {
                            id: SleProtoId::H4Uart,
                            name: "sparklink-h4",
                            bus: SleBus::Uart,
                            max_pdu: 255,
                            init_speed: 115_200,
                            oper_speed: 1_000_000,
                        },
                    )
                } else if i == 1 {
                    Some(
                        SleProtoEntry {
                            id: SleProtoId::UsbBulk,
                            name: "sparklink-usb",
                            bus: SleBus::Usb,
                            max_pdu: 255,
                            init_speed: 0,
                            oper_speed: 0,
                        },
                    )
                } else if i == 2 {
                    Some(
                        SleProtoEntry {
                            id: SleProtoId::Spi,
                            name: "sparklink-spi",
                            bus: SleBus::Spi,
                            max_pdu: 255,
                            init_speed: 0,
                            oper_speed: 0,
                        },
                    )
                } else if i == 3 {
                    Some(
                        SleProtoEntry {
                            id: SleProtoId::Virtual,
                            name: "sparklink-virtual",
                            bus: SleBus::Virtual,
                            max_pdu: 255,
                            init_speed: 0,
                            oper_speed: 0,
                        },
                    )
                } else {
                    None
                },
            },
{
    let _ = reg.register(h4_uart_proto());
    let _ = reg.register(usb_bulk_proto());
    let _ = reg.register(spi_reg_proto());
    let _ = reg.register(virtual_proto());
}

} // verus!
