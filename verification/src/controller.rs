//! The controllers of this crate behind one type, and the commands that the stack
//! sends most.

use vstd::prelude::*;

use crate::bytes;
use crate::errno::Errno;
use crate::sle_dli;
use crate::sle_dli::{SleController, SleControllerInfo, SleEvent, VirtualController};
use crate::sle_opcode::{sle_opcode_from_u16, SleOpcode};
use crate::sle_spi;
use crate::sle_spi::{SpiConfig, SpiController};
use crate::sle_uart;
use crate::sle_uart::{UartConfig, UartController};

verus! {

/// A command as it is handed to a controller.
pub struct DliCommand {
    /// Opcode.
    pub opcode: SleOpcode,
    /// Parameters.
    pub params: Vec<u8>,
}

impl DliCommand {
    /// A command without parameters.
    pub fn bare(opcode: SleOpcode) -> (r: Self)
        ensures
            r.opcode == opcode,
            r.params@ == Seq::<u8>::empty(),
    {
        DliCommand { opcode, params: Vec::new() }
    }

    /// A command with one byte of parameters.
    pub fn one(opcode: SleOpcode, b: u8) -> (r: Self)
        ensures
            r.opcode == opcode,
            r.params@ == seq![b],
    {
        let mut params: Vec<u8> = Vec::new();
        params.push(b);
        assert(params@ =~= seq![b]);
        DliCommand { opcode, params }
    }

    /// A command with two bytes of parameters.
    pub fn two(opcode: SleOpcode, b0: u8, b1: u8) -> (r: Self)
        ensures
            r.opcode == opcode,
            r.params@ == seq![b0, b1],
    {
        let mut params: Vec<u8> = Vec::new();
        params.push(b0);
        params.push(b1);
        assert(params@ =~= seq![b0, b1]);
        DliCommand { opcode, params }
    }

    /// The command of number `raw_opcode`, or `EINVAL` where there is none.
    pub fn raw(raw_opcode: u16, params: &[u8]) -> (r: Result<Self, Errno>)
        ensures
            match r {
                Ok(c) => c.opcode.code() == raw_opcode && c.params@ == params@,
                Err(e) => e == Errno::EINVAL && forall|op: SleOpcode| #[trigger]
                    op.code() != raw_opcode,
            },
    {
        match sle_opcode_from_u16(raw_opcode) {
            Some(opcode) => Ok(DliCommand { opcode, params: bytes::to_vec(params) }),
            None => Err(Errno::EINVAL),
        }
    }

    /// Switches broadcasting on or off.
    pub fn enable_broadcast(enable: bool) -> (r: Self)
        ensures
            r.opcode == SleOpcode::EnableBroadcast,
            r.params@ == seq![bytes::bool_byte(enable)],
    {
        Self::one(SleOpcode::EnableBroadcast, bytes::bool_byte(enable))
    }

    /// Switches scanning on or off.
    pub fn enable_scan(enable: bool) -> (r: Self)
        ensures
            r.opcode == SleOpcode::EnableScan,
            r.params@ == seq![bytes::bool_byte(enable)],
    {
        Self::one(SleOpcode::EnableScan, bytes::bool_byte(enable))
    }

    /// Sets the coding and modulation scheme.
    pub fn set_coding_modulation(mcs_index: u8) -> (r: Self)
        ensures
            r.opcode == SleOpcode::SetCodingModulation,
            r.params@ == seq![mcs_index],
    {
        Self::one(SleOpcode::SetCodingModulation, mcs_index)
    }

    /// Sets the transmit power in dBm.
    pub fn set_tx_power(dbm: i8) -> (r: Self)
        ensures
            r.opcode == SleOpcode::SetPhyParam,
            r.params@ == seq![0x01u8, bytes::i8_byte(dbm)],
    {
        Self::two(SleOpcode::SetPhyParam, 0x01, bytes::i8_byte(dbm))
    }

    /// Sets the bandwidth in MHz.
    pub fn set_bandwidth(mhz: u8) -> (r: Self)
        ensures
            r.opcode == SleOpcode::SetPhyParam,
            r.params@ == seq![0x02u8, mhz],
    {
        Self::two(SleOpcode::SetPhyParam, 0x02, mhz)
    }

    /// Connects to a peer.
    pub fn create_connection(peer_addr: &[u8; 6]) -> (r: Self)
        ensures
            r.opcode == SleOpcode::CreateConnection,
            r.params@ == peer_addr@,
    {
        DliCommand {
            opcode: SleOpcode::CreateConnection,
            params: bytes::to_vec(peer_addr.as_slice()),
        }
    }

    /// Closes the connection of handle `handle`.
    pub fn disconnect(handle: u16) -> (r: Self)
        ensures
            r.opcode == SleOpcode::Disconnect,
            r.params@ == bytes::le16_bytes(handle),
    {
        Self::two(SleOpcode::Disconnect, bytes::lo8(handle), bytes::hi8(handle))
    }

    /// Asks for pairing.
    pub fn request_pair(method: u8) -> (r: Self)
        ensures
            r.opcode == SleOpcode::RequestPair,
            r.params@ == seq![method],
    {
        Self::one(SleOpcode::RequestPair, method)
    }

    /// Starts encryption.
    pub fn start_encrypt() -> (r: Self)
        ensures
            r.opcode == SleOpcode::StartEncrypt,
            r.params@ == Seq::<u8>::empty(),
    {
        Self::bare(SleOpcode::StartEncrypt)
    }
}

/// One of the controllers of this crate.
pub enum ControllerBackend {
    /// Software alone.
    Virtual(VirtualController),
    /// On a serial line.
    Uart(UartController),
    /// On an SPI bus.
    Spi(SpiController),
}

/// Whether `b` is `a` but for the events that wait.
pub open spec fn same_but_events(a: ControllerBackend, b: ControllerBackend) -> bool {
    &&& b.is_open() == a.is_open()
    &&& same_setup(a, b)
}

/// Whether `b` is `a` but for the events that wait and whether it is open.
pub open spec fn same_setup(a: ControllerBackend, b: ControllerBackend) -> bool {
    match (a, b) {
        (ControllerBackend::Virtual(a), ControllerBackend::Virtual(b)) => b.addr() == a.addr(),
        (ControllerBackend::Uart(a), ControllerBackend::Uart(b)) => b.same_line(a),
        (ControllerBackend::Spi(a), ControllerBackend::Spi(b)) => b.addr() == a.addr() && b.bus()
            == a.bus(),
        _ => false,
    }
}

/// What command `opcode` with parameters `params` does to controller `a`, and what it
/// answers.
pub open spec fn sent(
    a: ControllerBackend,
    opcode: SleOpcode,
    params: Seq<u8>,
    b: ControllerBackend,
    r: Result<(), Errno>,
) -> bool {
    &&& same_but_events(a, b)
    &&& match a {
        ControllerBackend::Virtual(_) => r == Ok::<(), Errno>(()) && sle_dli::virtual_sent(
            a.events(),
            opcode,
            params,
            b.events(),
        ),
        ControllerBackend::Uart(_) => sle_uart::uart_sent(
            a.events(),
            opcode,
            params,
            b.events(),
            r,
        ),
        ControllerBackend::Spi(_) => r == Ok::<(), Errno>(()) && sle_dli::completed(
            a.events(),
            opcode,
            b.events(),
        ),
    }
}

impl ControllerBackend {
    /// Whether the controller is open.
    pub open spec fn is_open(self) -> bool {
        match self {
            ControllerBackend::Virtual(c) => c.is_open(),
            ControllerBackend::Uart(c) => c.is_open(),
            ControllerBackend::Spi(c) => c.is_open(),
        }
    }

    /// The events that wait, oldest first.
    pub open spec fn events(self) -> Seq<SleEvent> {
        match self {
            ControllerBackend::Virtual(c) => c.events(),
            ControllerBackend::Uart(c) => c.events(),
            ControllerBackend::Spi(c) => c.events(),
        }
    }

    /// The address of the controller.
    pub open spec fn addr(self) -> Seq<u8> {
        match self {
            ControllerBackend::Virtual(c) => c.addr(),
            ControllerBackend::Uart(c) => c.addr(),
            ControllerBackend::Spi(c) => c.addr(),
        }
    }

    /// A virtual controller.
    pub fn new_virtual(addr: [u8; 6]) -> (r: Self)
        ensures
            r is Virtual,
            r.wf(),
            r.addr() == addr@,
            !r.is_open(),
            r.events() == Seq::<SleEvent>::empty(),
    {
        ControllerBackend::Virtual(VirtualController::new(addr))
    }

    /// A controller on a serial line.
    pub fn new_uart(addr: [u8; 6], config: UartConfig) -> (r: Self)
        ensures
            r matches ControllerBackend::Uart(c) && c.line() == config,
            r.wf(),
            r.addr() == addr@,
            !r.is_open(),
            r.events() == Seq::<SleEvent>::empty(),
    {
        ControllerBackend::Uart(UartController::new(addr, config))
    }

    /// A controller on an SPI bus.
    pub fn new_spi(addr: [u8; 6], config: SpiConfig) -> (r: Self)
        ensures
            r matches ControllerBackend::Spi(c) && c.bus() == config,
            r.wf(),
            r.addr() == addr@,
            !r.is_open(),
            r.events() == Seq::<SleEvent>::empty(),
    {
        ControllerBackend::Spi(SpiController::new(addr, config))
    }

    /// Sends the command of number `raw_opcode`, or returns `EINVAL` where there is none.
    pub fn send_command_raw(&mut self, raw_opcode: u16, params: &[u8]) -> (r: Result<(), Errno>)
        requires
            old(self).wf(),
        ensures
            final(self).wf(),
            forall|op: SleOpcode| #[trigger]
                op.code() == raw_opcode ==> sent(*old(self), op, params@, *final(self), r),
            (forall|op: SleOpcode| #[trigger] op.code() != raw_opcode) ==> r == Err::<(), Errno>(
                Errno::EINVAL,
            ) && *final(self) == *old(self),
    {
        match DliCommand::raw(raw_opcode, params) {
            Ok(c) => {
                proof {
                    assert forall|o: SleOpcode| #[trigger] o.code() == raw_opcode implies o
                        == c.opcode by {
                        crate::sle_opcode::opcode_code_injective(o, c.opcode);
                    }
                }
                self.send_command(c.opcode, c.params.as_slice())
            },
            Err(e) => Err(e),
        }
    }

    /// Switches broadcasting on or off.
    pub fn enable_broadcast(&mut self, enable: bool) -> (r: Result<(), Errno>)
        requires
            old(self).wf(),
        ensures
            final(self).wf(),
            sent(
                *old(self),
                SleOpcode::EnableBroadcast,
                seq![bytes::bool_byte(enable)],
                *final(self),
                r,
            ),
    {
        let c = DliCommand::enable_broadcast(enable);
        self.send_command(c.opcode, c.params.as_slice())
    }

    /// Switches scanning on or off.
    pub fn enable_scan(&mut self, enable: bool) -> (r: Result<(), Errno>)
        requires
            old(self).wf(),
        ensures
            final(self).wf(),
            sent(
                *old(self),
                SleOpcode::EnableScan,
                seq![bytes::bool_byte(enable)],
                *final(self),
                r,
            ),
    {
        let c = DliCommand::enable_scan(enable);
        self.send_command(c.opcode, c.params.as_slice())
    }

    /// Sets the coding and modulation scheme.
    pub fn set_coding_modulation(&mut self, mcs_index: u8) -> (r: Result<(), Errno>)
        requires
            old(self).wf(),
        ensures
            final(self).wf(),
            sent(*old(self), SleOpcode::SetCodingModulation, seq![mcs_index], *final(self), r),
    {
        let c = DliCommand::set_coding_modulation(mcs_index);
        self.send_command(c.opcode, c.params.as_slice())
    }

    /// Sets the transmit power in dBm.
    pub fn set_tx_power(&mut self, dbm: i8) -> (r: Result<(), Errno>)
        requires
            old(self).wf(),
        ensures
            final(self).wf(),
            sent(*old(self), SleOpcode::SetPhyParam, seq![0x01u8, bytes::i8_byte(dbm)], *final(self), r),
    {
        let c = DliCommand::set_tx_power(dbm);
        self.send_command(c.opcode, c.params.as_slice())
    }

    /// Sets the bandwidth in MHz.
    pub fn set_bandwidth(&mut self, mhz: u8) -> (r: Result<(), Errno>)
        requires
            old(self).wf(),
        ensures
            final(self).wf(),
            sent(*old(self), SleOpcode::SetPhyParam, seq![0x02u8, mhz], *final(self), r),
    {
        let c = DliCommand::set_bandwidth(mhz);
        self.send_command(c.opcode, c.params.as_slice())
    }

    /// Connects to a peer.
    pub fn create_connection(&mut self, peer_addr: &[u8; 6]) -> (r: Result<(), Errno>)
        requires
            old(self).wf(),
        ensures
            final(self).wf(),
            sent(*old(self), SleOpcode::CreateConnection, peer_addr@, *final(self), r),
    {
        let c = DliCommand::create_connection(peer_addr);
        self.send_command(c.opcode, c.params.as_slice())
    }

    /// Closes the connection of handle `handle`.
    pub fn disconnect(&mut self, handle: u16) -> (r: Result<(), Errno>)
        requires
            old(self).wf(),
        ensures
            final(self).wf(),
            sent(*old(self), SleOpcode::Disconnect, bytes::le16_bytes(handle), *final(self), r),
    {
        let c = DliCommand::disconnect(handle);
        self.send_command(c.opcode, c.params.as_slice())
    }

    /// Asks for pairing.
    pub fn request_pair(&mut self, method: u8) -> (r: Result<(), Errno>)
        requires
            old(self).wf(),
        ensures
            final(self).wf(),
            sent(*old(self), SleOpcode::RequestPair, seq![method], *final(self), r),
    {
        let c = DliCommand::request_pair(method);
        self.send_command(c.opcode, c.params.as_slice())
    }

    /// Starts encryption.
    pub fn start_encrypt(&mut self) -> (r: Result<(), Errno>)
        requires
            old(self).wf(),
        ensures
            final(self).wf(),
            sent(*old(self), SleOpcode::StartEncrypt, Seq::<u8>::empty(), *final(self), r),
    {
        let c = DliCommand::start_encrypt();
        self.send_command(c.opcode, c.params.as_slice())
    }
}

impl SleController for ControllerBackend {
    open spec fn wf(&self) -> bool {
        match *self {
            ControllerBackend::Virtual(c) => c.wf(),
            ControllerBackend::Uart(c) => c.wf(),
            ControllerBackend::Spi(c) => c.wf(),
        }
    }

    fn info(&self) -> (r: SleControllerInfo)
        ensures
            match *self {
                ControllerBackend::Virtual(c) => sle_dli::virtual_info(r, c.addr()),
                ControllerBackend::Uart(c) => sle_uart::uart_info(r, c.addr()),
                ControllerBackend::Spi(c) => sle_spi::spi_info(r, c.addr()),
            },
    {
        match self {
            ControllerBackend::Virtual(c) => c.info(),
            ControllerBackend::Uart(c) => c.info(),
            ControllerBackend::Spi(c) => c.info(),
        }
    }

    fn open(&mut self) -> (r: Result<(), Errno>)
        ensures
            final(self).is_open(),
            same_setup(*old(self), *final(self)),
            final(self).events() == old(self).events(),
            r == (if old(self).is_open() {
                Err::<(), Errno>(Errno::EBUSY)
            } else {
                Ok::<(), Errno>(())
            }),
    {
        match self {
            ControllerBackend::Virtual(c) => c.open(),
            ControllerBackend::Uart(c) => c.open(),
            ControllerBackend::Spi(c) => c.open(),
        }
    }

    fn close(&mut self)
        ensures
            !final(self).is_open(),
            same_setup(*old(self), *final(self)),
            final(self).events() == old(self).events(),
    {
        match self {
            ControllerBackend::Virtual(c) => c.close(),
            ControllerBackend::Uart(c) => c.close(),
            ControllerBackend::Spi(c) => c.close(),
        }
    }

    fn send_command(&mut self, opcode: SleOpcode, params: &[u8]) -> (r: Result<(), Errno>)
        ensures
            sent(*old(self), opcode, params@, *final(self), r),
    {
        match self {
            ControllerBackend::Virtual(c) => c.send_command(opcode, params),
            ControllerBackend::Uart(c) => c.send_command(opcode, params),
            ControllerBackend::Spi(c) => c.send_command(opcode, params),
        }
    }

    fn send_data(&mut self, handle: u16, data: &[u8]) -> (r: Result<(), Errno>)
        ensures
            *final(self) == *old(self),
            r == (if (*old(self)) is Uart && data@.len() > 255 {
                Err::<(), Errno>(Errno::EINVAL)
            } else {
                Ok::<(), Errno>(())
            }),
    {
        match self {
            ControllerBackend::Virtual(c) => c.send_data(handle, data),
            ControllerBackend::Uart(c) => c.send_data(handle, data),
            ControllerBackend::Spi(c) => c.send_data(handle, data),
        }
    }

    fn poll_event(&mut self) -> (r: Option<SleEvent>)
        ensures
            same_but_events(*old(self), *final(self)),
            match r {
                Some(e) => old(self).events().len() > 0 && e == old(self).events()[0]
                    && final(self).events() == old(self).events().drop_first(),
                None => old(self).events().len() == 0 && final(self).events()
                    == old(self).events(),
            },
    {
        match self {
            ControllerBackend::Virtual(c) => c.poll_event(),
            ControllerBackend::Uart(c) => c.poll_event(),
            ControllerBackend::Spi(c) => c.poll_event(),
        }
    }

    fn reset(&mut self) -> (r: Result<(), Errno>)
        ensures
            r == Ok::<(), Errno>(()),
            *final(self) == *old(self),
    {
        match self {
            ControllerBackend::Virtual(c) => c.reset(),
            ControllerBackend::Uart(c) => c.reset(),
            ControllerBackend::Spi(c) => c.reset(),
        }
    }
}

} // verus!
