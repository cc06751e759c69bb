//! How a controller on USB is brought up and taken down.

use vstd::prelude::*;

use crate::sle_transport::{SleAttachInfo, SleProtoId};

verus! {

/// Number of a device that was not attached.
pub const NOT_ATTACHED: u16 = 0xFFFF;

/// Whether a call into the machine went through; it reports a number below 0 where not.
pub fn call_outcome(ret: i32) -> (r: Result<(), i32>)
    ensures
        r == (if ret < 0 {
            Err::<(), i32>(ret)
        } else {
            Ok::<(), i32>(())
        }),
{
    if ret < 0 {
        Err(ret)
    } else {
        Ok(())
    }
}

/// The bytes that a transfer moved; it reports a number below 0 where it failed.
pub fn transfer_outcome(ret: i32) -> (r: Result<usize, i32>)
    ensures
        match r {
            Ok(n) => ret >= 0 && n == ret,
            Err(e) => ret < 0 && e == ret,
        },
{
    if ret < 0 {
        Err(ret)
    } else {
        Ok(ret as usize)
    }
}

/// The address of a controller: its own where it was read and is not zero, and `fallback`
/// where not.
pub open spec fn own_address(ret: i32, mac: Seq<u8>, fallback: Seq<u8>) -> Seq<u8> {
    if ret == 0 && mac != seq![0u8, 0, 0, 0, 0, 0] {
        mac
    } else {
        fallback
    }
}

/// The address of a controller: its own where it was read and is not zero, and `fallback`
/// where not.
pub fn settle_address(ret: i32, mac: [u8; 6], fallback: [u8; 6]) -> (r: [u8; 6])
    ensures
        r@ == own_address(ret, mac@, fallback@),
{
    let zero = mac[0] == 0 && mac[1] == 0 && mac[2] == 0 && mac[3] == 0 && mac[4] == 0 && mac[5]
        == 0;
    assert(zero == (mac@ =~= seq![0u8, 0, 0, 0, 0, 0]));
    if ret == 0 && !zero {
        mac
    } else {
        fallback
    }
}

/// The controllers on USB.
#[derive(Clone, Copy, Debug, PartialEq, Eq, Structural)]
pub struct UsbDevices {
    /// How many are there, modulo 2^32.
    pub count: u32,
}

impl UsbDevices {
    /// None.
    pub fn new() -> (r: Self)
        ensures
            r.count == 0,
    {
        UsbDevices { count: 0 }
    }

    /// How many are there.
    pub fn usb_device_count(&self) -> (r: u32)
        ensures
            r == self.count,
    {
        self.count
    }

    /// One more was found; starts to bring it up under an address of its number.
    pub fn probe(&mut self) -> (r: UsbProbe)
        ensures
            final(self).count == (old(self).count + 1) % 0x1_0000_0000,
            r@ == (ProbeModel::Attach { addr: placeholder(final(self).count) }),
    {
        self.count = self.count.wrapping_add(1);
        let r = UsbProbe::Attach { addr: [0x5E, 0, 0, 0, 1, (self.count % 0x100) as u8] };
        assert(r@ =~= (ProbeModel::Attach { addr: placeholder(self.count) }));
        r
    }

    /// One was unplugged. Tells whether it is to be taken out of the tables.
    pub fn disconnect(&mut self, dev_id: u16) -> (r: bool)
        ensures
            final(self).count == (old(self).count - 1) % 0x1_0000_0000,
            r == (dev_id != NOT_ATTACHED),
    {
        self.count = self.count.wrapping_sub(1);
        dev_id != NOT_ATTACHED
    }
}

/// The address of a controller before its own is known.
pub open spec fn placeholder(count: u32) -> Seq<u8> {
    seq![0x5Eu8, 0, 0, 0, 1, (count % 0x100) as u8]
}

/// What bringing up a controller waits for.
#[derive(Clone, Copy, Debug)]
pub enum UsbProbe {
    /// For a device number.
    Attach { addr: [u8; 6] },
    /// For the interface to be entered in the table of the driver.
    Register { dev_id: u16, addr: [u8; 6] },
    /// For the controller to be reset and asked who it is.
    Init { dev_id: u16, addr: [u8; 6] },
    /// For the address of the controller.
    ReadMac { dev_id: u16, addr: [u8; 6] },
    /// For the firmware version of the controller.
    ReadVersion { dev_id: u16, addr: [u8; 6] },
    /// For the firmware to be loaded.
    LoadFirmware { dev_id: u16, addr: [u8; 6], fw_version: u32 },
    /// For the stack to go over to the controller.
    Switch { dev_id: u16, addr: [u8; 6], fw_version: u32 },
    /// For nothing.
    Done { dev_id: u16 },
}

/// What bringing up a controller waits for as a value.
#[verifier::ext_equal]
pub enum ProbeModel {
    /// For a device number.
    Attach { addr: Seq<u8> },
    /// For the interface to be entered in the table of the driver.
    Register { dev_id: u16, addr: Seq<u8> },
    /// For the controller to be reset and asked who it is.
    Init { dev_id: u16, addr: Seq<u8> },
    /// For the address of the controller.
    ReadMac { dev_id: u16, addr: Seq<u8> },
    /// For the firmware version of the controller.
    ReadVersion { dev_id: u16, addr: Seq<u8> },
    /// For the firmware to be loaded.
    LoadFirmware { dev_id: u16, addr: Seq<u8>, fw_version: u32 },
    /// For the stack to go over to the controller.
    Switch { dev_id: u16, addr: Seq<u8>, fw_version: u32 },
    /// For nothing.
    Done { dev_id: u16 },
}

impl View for UsbProbe {
    type V = ProbeModel;

    open spec fn view(&self) -> ProbeModel {
        match *self {
            UsbProbe::Attach { addr } => ProbeModel::Attach { addr: addr@ },
            UsbProbe::Register { dev_id, addr } => ProbeModel::Register { dev_id, addr: addr@ },
            UsbProbe::Init { dev_id, addr } => ProbeModel::Init { dev_id, addr: addr@ },
            UsbProbe::ReadMac { dev_id, addr } => ProbeModel::ReadMac { dev_id, addr: addr@ },
            UsbProbe::ReadVersion { dev_id, addr } => ProbeModel::ReadVersion {
                dev_id,
                addr: addr@,
            },
            UsbProbe::LoadFirmware { dev_id, addr, fw_version } => ProbeModel::LoadFirmware {
                dev_id,
                addr: addr@,
                fw_version,
            },
            UsbProbe::Switch { dev_id, addr, fw_version } => ProbeModel::Switch {
                dev_id,
                addr: addr@,
                fw_version,
            },
            UsbProbe::Done { dev_id } => ProbeModel::Done { dev_id },
        }
    }
}

/// What came of the step that was waited for.
#[derive(Clone, Copy, Debug)]
pub enum UsbReply {
    /// The device number, or a number where there is none.
    Attached(Result<u16, i32>),
    /// What entering the interface gave.
    Registered(i32),
    /// What the reset gave.
    Started(i32),
    /// What reading the address gave, and the address.
    Mac(i32, [u8; 6]),
    /// The firmware version.
    Version(u32),
    /// The load of the firmware is over, whatever came of it.
    FirmwareTried,
    /// The stack went over to the controller.
    Switched,
}

impl ProbeModel {
    /// The next step. A device without a number is left alone. Where the interface cannot
    /// be entered or the controller not be reset, the stack goes over to it under the
    /// placeholder. A reply to another step changes nothing.
    pub open spec fn next(self, reply: UsbReply) -> ProbeModel {
        match (self, reply) {
            (ProbeModel::Attach { addr }, UsbReply::Attached(Ok(dev_id))) => if dev_id
                == NOT_ATTACHED {
                ProbeModel::Done { dev_id: NOT_ATTACHED }
            } else {
                ProbeModel::Register { dev_id, addr }
            },
            (ProbeModel::Attach { addr }, UsbReply::Attached(Err(_))) => ProbeModel::Done {
                dev_id: NOT_ATTACHED,
            },
            (ProbeModel::Register { dev_id, addr }, UsbReply::Registered(ret)) => if ret < 0 {
                ProbeModel::Switch { dev_id, addr, fw_version: 0 }
            } else {
                ProbeModel::Init { dev_id, addr }
            },
            (ProbeModel::Init { dev_id, addr }, UsbReply::Started(ret)) => if ret == 0 {
                ProbeModel::ReadMac { dev_id, addr }
            } else {
                ProbeModel::Switch { dev_id, addr, fw_version: 0 }
            },
            (
                ProbeModel::ReadMac { dev_id, addr },
                UsbReply::Mac(ret, mac),
            ) => ProbeModel::ReadVersion { dev_id, addr: own_address(ret, mac@, addr) },
            (
                ProbeModel::ReadVersion { dev_id, addr },
                UsbReply::Version(fw_version),
            ) => ProbeModel::LoadFirmware { dev_id, addr, fw_version },
            (
                ProbeModel::LoadFirmware { dev_id, addr, fw_version },
                UsbReply::FirmwareTried,
            ) => ProbeModel::Switch { dev_id, addr, fw_version },
            (ProbeModel::Switch { dev_id, .. }, UsbReply::Switched) => ProbeModel::Done { dev_id },
            _ => self,
        }
    }
}

impl UsbProbe {
    /// What is known of the device when a number is asked for.
    pub fn attach_info(&self) -> (r: Option<SleAttachInfo>)
        ensures
            match r {
                Some(info) => self is Attach && info.proto_id == SleProtoId::UsbBulk
                    && info.addr@ == self@->Attach_addr && info.fw_version == 0 && info.features
                    == 0 && info.max_pdu == 0 && info.max_connections == 0,
                None => !(self is Attach),
            },
    {
        match *self {
            UsbProbe::Attach { addr } => Some(SleAttachInfo::new(SleProtoId::UsbBulk, addr)),
            _ => None,
        }
    }

    /// The next step after a reply.
    pub fn next(self, reply: UsbReply) -> (r: UsbProbe)
        ensures
            r@ == self@.next(reply),
    {
        match (self, reply) {
            (UsbProbe::Attach { addr }, UsbReply::Attached(Ok(dev_id))) => if dev_id
                == NOT_ATTACHED {
                UsbProbe::Done { dev_id: NOT_ATTACHED }
            } else {
                UsbProbe::Register { dev_id, addr }
            },
            (UsbProbe::Attach { addr: _ }, UsbReply::Attached(Err(_))) => UsbProbe::Done {
                dev_id: NOT_ATTACHED,
            },
            (UsbProbe::Register { dev_id, addr }, UsbReply::Registered(ret)) => if ret < 0 {
                UsbProbe::Switch { dev_id, addr, fw_version: 0 }
            } else {
                UsbProbe::Init { dev_id, addr }
            },
            (UsbProbe::Init { dev_id, addr }, UsbReply::Started(ret)) => if ret == 0 {
                UsbProbe::ReadMac { dev_id, addr }
            } else {
                UsbProbe::Switch { dev_id, addr, fw_version: 0 }
            },
            (UsbProbe::ReadMac { dev_id, addr }, UsbReply::Mac(ret, mac)) => UsbProbe::ReadVersion {
                dev_id,
                addr: settle_address(ret, mac, addr),
            },
            (
                UsbProbe::ReadVersion { dev_id, addr },
                UsbReply::Version(fw_version),
            ) => UsbProbe::LoadFirmware { dev_id, addr, fw_version },
            (
                UsbProbe::LoadFirmware { dev_id, addr, fw_version },
                UsbReply::FirmwareTried,
            ) => UsbProbe::Switch { dev_id, addr, fw_version },
            (UsbProbe::Switch { dev_id, addr: _, fw_version: _ }, UsbReply::Switched) => UsbProbe::Done { dev_id },
            _ => self,
        }
    }
}

/// Whether a device has got a number. One that has none is left alone when the machine goes
/// to sleep, wakes up or lets go of it.
pub fn is_attached(dev_id: u16) -> (r: bool)
    ensures
        r == (dev_id != NOT_ATTACHED),
{
    dev_id != NOT_ATTACHED
}

/// A controller that answers every step is handed over under its own address, where it is
/// not zero, and with its own firmware version.
pub proof fn brought_up(count: u32, dev_id: u16, reg: i32, mac: [u8; 6], version: u32)
    requires
        dev_id != NOT_ATTACHED,
        reg >= 0,
    ensures
        ({
            let start = ProbeModel::Attach { addr: placeholder(count) };
            let told = start.next(UsbReply::Attached(Ok(dev_id))).next(
                UsbReply::Registered(reg),
            ).next(UsbReply::Started(0)).next(UsbReply::Mac(0, mac)).next(
                UsbReply::Version(version),
            ).next(UsbReply::FirmwareTried);
            &&& told == (ProbeModel::Switch {
                dev_id,
                addr: own_address(0, mac@, placeholder(count)),
                fw_version: version,
            })
            &&& told.next(UsbReply::Switched) == (ProbeModel::Done { dev_id })
        }),
{
}

/// Whatever comes of the steps, a device that got a number keeps it until the end.
pub proof fn number_stays(s: ProbeModel, reply: UsbReply, dev_id: u16)
    requires
        numbered(s) == Some(dev_id),
    ensures
        numbered(s.next(reply)) == Some(dev_id),
{
}

/// The number of a device, where it has got one.
pub open spec fn numbered(s: ProbeModel) -> Option<u16> {
    match s {
        ProbeModel::Attach { .. } => None,
        ProbeModel::Register { dev_id, .. } => Some(dev_id),
        ProbeModel::Init { dev_id, .. } => Some(dev_id),
        ProbeModel::ReadMac { dev_id, .. } => Some(dev_id),
        ProbeModel::ReadVersion { dev_id, .. } => Some(dev_id),
        ProbeModel::LoadFirmware { dev_id, .. } => Some(dev_id),
        ProbeModel::Switch { dev_id, .. } => Some(dev_id),
        ProbeModel::Done { dev_id } => Some(dev_id),
    }
}

} // verus!
