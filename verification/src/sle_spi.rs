//! Framing over SPI: a register address followed by what is written to it.

use vstd::prelude::*;

use crate::bytes;
use crate::errno::Errno;
use crate::sle_dli;
use crate::sle_dli::{
    ControllerState, DliPacketType, SleBus, SleController, SleControllerInfo, SleEvent, SleFeature,
    SLE_MEAS_RSSI, SLE_SEC_AES_CCM, SLE_TRANSPORT_UNRELIABLE,
};
use crate::sle_opcode::SleOpcode;
use crate::sle_uart;
use crate::sle_uart::FrameModel;

verus! {

/// Status register.
pub const REG_STATUS: u8 = 0x00;

/// Command header register.
pub const REG_CMD: u8 = 0x01;

/// Transmit FIFO.
pub const REG_DATA_TX: u8 = 0x02;

/// Receive FIFO.
pub const REG_DATA_RX: u8 = 0x03;

/// Configuration register.
pub const REG_CONFIG: u8 = 0x04;

/// Interrupt status register, cleared when read.
pub const REG_INT_STATUS: u8 = 0x05;

/// Marks a register address as read.
pub const SPI_READ_FLAG: u8 = 0x80;

/// Clock of a bus that was not configured.
pub const DEFAULT_SPI_FREQ: u32 = 8_000_000;

/// Highest clock.
pub const MAX_SPI_FREQ: u32 = 20_000_000;

/// Longest transfer.
pub const MAX_SPI_TRANSFER: usize = 260;

/// Received data waits.
pub const INT_RX_READY: u8 = 0x01;

/// Data can be sent.
pub const INT_TX_READY: u8 = 0x02;

/// A command ended.
pub const INT_CMD_COMPLETE: u8 = 0x04;

/// The controller failed.
pub const INT_ERROR: u8 = 0x80;

/// What a builder does: the bytes `b` overwrite the start of the buffer, or nothing
/// happens and 0 is returned where they do not fit.
pub open spec fn put_transfer(b: Seq<u8>, before: Seq<u8>, after: Seq<u8>, r: usize) -> bool {
    if before.len() < b.len() {
        r == 0 && after == before
    } else {
        r == b.len() && after == bytes::splice(before, 0, b)
    }
}

/// The transfer that announces a command.
pub open spec fn command_transfer(opcode: u16, param_len: u8) -> Seq<u8> {
    seq![REG_CMD, DliPacketType::Command.code()] + bytes::le16_bytes(opcode) + seq![param_len]
}

/// The transfer that fills the transmit FIFO.
pub open spec fn data_transfer(data: Seq<u8>) -> Seq<u8> {
    seq![REG_DATA_TX] + data
}

/// The transfer that announces data on link `handle`.
pub open spec fn data_header_transfer(handle: u16, len: nat) -> Seq<u8> {
    seq![REG_CMD, DliPacketType::AsyncUnicast.code()] + bytes::le16_bytes((handle % 0x1000) as u16)
        + bytes::le16_bytes((len % 0x1_0000) as u16)
}

/// Writes the transfer that announces a command and returns its length.
pub fn encode_spi_command(opcode: u16, param_len: u8, buf: &mut [u8]) -> (r: usize)
    ensures
        put_transfer(command_transfer(opcode, param_len), old(buf)@, final(buf)@, r),
{
    let v: Vec<u8> = vec![
        REG_CMD,
        DliPacketType::Command.code(),
        bytes::lo8(opcode),
        bytes::hi8(opcode),
        param_len,
    ];
    assert(v@ == command_transfer(opcode, param_len));
    if buf.len() < 5 {
        return 0;
    }
    bytes::put_slice(buf, v.as_slice());
    5
}

/// Writes the transfer that fills the transmit FIFO and returns its length. Nothing
/// is written, and 0 is returned, for more than 255 bytes.
pub fn encode_spi_data_write(data: &[u8], buf: &mut [u8]) -> (r: usize)
    ensures
        if data@.len() > 255 {
            r == 0 && final(buf)@ == old(buf)@
        } else {
            put_transfer(data_transfer(data@), old(buf)@, final(buf)@, r)
        },
{
    if data.len() > 255 || buf.len() < 1 + data.len() {
        return 0;
    }
    let mut v: Vec<u8> = vec![REG_DATA_TX];
    bytes::extend(&mut v, data);
    assert(v@ == data_transfer(data@));
    bytes::put_slice(buf, v.as_slice());
    v.len()
}

/// Writes the transfer that reads the status register and returns its length.
pub fn encode_spi_status_read(buf: &mut [u8]) -> (r: usize)
    ensures
        put_transfer(seq![REG_STATUS | SPI_READ_FLAG, 0u8], old(buf)@, final(buf)@, r),
{
    if buf.len() < 2 {
        return 0;
    }
    let v: Vec<u8> = vec![REG_STATUS | SPI_READ_FLAG, 0u8];
    bytes::put_slice(buf, v.as_slice());
    2
}

/// Writes the transfer that reads `len` bytes of the receive FIFO and returns its
/// length.
pub fn encode_spi_rx_read(len: usize, buf: &mut [u8]) -> (r: usize)
    ensures
        put_transfer(
            seq![REG_DATA_RX | SPI_READ_FLAG] + bytes::zeros(len as int),
            old(buf)@,
            final(buf)@,
            r,
        ),
{
    if buf.len() <= len {
        return 0;
    }
    let mut v: Vec<u8> = vec![REG_DATA_RX | SPI_READ_FLAG];
    bytes::extend_zeros(&mut v, len);
    assert(v@ == seq![REG_DATA_RX | SPI_READ_FLAG] + bytes::zeros(len as int));
    bytes::put_slice(buf, v.as_slice());
    v.len()
}

/// A frame of the receive FIFO.
pub enum SpiFrame {
    /// An event from the controller.
    Event { event_code: u16, params: Vec<u8> },
    /// Data from the controller.
    Data { pkt_type: DliPacketType, handle: u16, flags: u8, payload: Vec<u8> },
}

impl View for SpiFrame {
    type V = FrameModel;

    open spec fn view(&self) -> FrameModel {
        match *self {
            SpiFrame::Event { event_code, params } => FrameModel::Event {
                event_code,
                params: params@,
            },
            SpiFrame::Data { pkt_type, handle, flags, payload } => FrameModel::Data {
                pkt_type,
                handle,
                flags,
                payload: payload@,
            },
        }
    }
}

/// The frame at the start of `d`: an event or data, framed as on a serial line.
/// `None` where it is of another type or cut short.
pub open spec fn rx_frame(d: Seq<u8>) -> Option<FrameModel> {
    if d.len() < 5 || !(0xA2 <= d[0] <= 0xA5) || d.len() < 5 + bytes::le16(d[3], d[4]) {
        None
    } else {
        Some(sle_uart::frame_of(d.take(5 + bytes::le16(d[3], d[4]))))
    }
}

/// Parses what the receive FIFO delivered.
pub fn parse_spi_rx_frame(data: &[u8]) -> (r: Option<SpiFrame>)
    ensures
        match r {
            Some(f) => rx_frame(data@) == Some(f@),
            None => rx_frame(data@) is None,
        },
{
    if data.len() < 5 {
        return None;
    }
    let pkt_type = match DliPacketType::from_raw(data[0]) {
        Some(DliPacketType::Command) => {
            return None;
        },
        Some(t) => t,
        None => {
            return None;
        },
    };
    let w = bytes::le16(data[1], data[2]);
    let n = bytes::le16(data[3], data[4]) as usize;
    if data.len() < 5 + n {
        return None;
    }
    let rest = bytes::slice_of(data, 5, 5 + n);
    assert(data@.take(5 + n).skip(5) == rest@);
    match pkt_type {
        DliPacketType::Event => Some(SpiFrame::Event { event_code: w, params: rest }),
        _ => Some(
            SpiFrame::Data {
                pkt_type,
                handle: w % 0x1000,
                flags: (w / 0x1000) as u8,
                payload: rest,
            },
        ),
    }
}

/// An event or data frame comes back from its bytes, whatever follows them.
pub proof fn rx_frame_round_trip(f: FrameModel, tail: Seq<u8>)
    requires
        sle_uart::frame_ok(f),
        !(f is Command),
    ensures
        rx_frame(sle_uart::frame_bytes(f) + tail) == Some(f),
{
    let b = sle_uart::frame_bytes(f);
    let d = b + tail;
    match f {
        FrameModel::Event { event_code, params } => {
            assert(bytes::le16(d[3], d[4]) == params.len());
            assert(d.take(5 + params.len() as int) == b);
            assert(b.skip(5) == params);
        },
        FrameModel::Data { pkt_type, handle, flags, payload } => {
            assert(bytes::le16(d[3], d[4]) == payload.len());
            assert(d.take(5 + payload.len() as int) == b);
            assert(b.skip(5) == payload);
        },
        _ => {},
    }
    assert(sle_uart::frame_of(b) == f);
}

/// Settings of an SPI bus.
#[derive(Clone, Copy, Debug)]
pub struct SpiConfig {
    /// Clock in hertz.
    pub freq_hz: u32,
    /// Bus mode, 0 to 3.
    pub mode: u8,
    /// Whether chip select is active low.
    pub cs_active_low: bool,
}

impl Default for SpiConfig {
    fn default() -> (r: Self)
        ensures
            r == (SpiConfig { freq_hz: DEFAULT_SPI_FREQ, mode: 0, cs_active_low: true }),
    {
        SpiConfig { freq_hz: DEFAULT_SPI_FREQ, mode: 0, cs_active_low: true }
    }
}

/// A controller on an SPI bus.
pub struct SpiController {
    addr: [u8; 6],
    config: SpiConfig,
    state: ControllerState,
}

impl SpiController {
    /// The address of the controller.
    pub closed spec fn addr(self) -> Seq<u8> {
        self.addr@
    }

    /// The settings of the bus.
    pub closed spec fn bus(self) -> SpiConfig {
        self.config
    }

    /// Whether the controller is open.
    pub closed spec fn is_open(self) -> bool {
        self.state.is_open()
    }

    /// The events that wait, oldest first.
    pub closed spec fn events(self) -> Seq<SleEvent> {
        self.state.events()
    }

    /// A closed controller.
    pub fn new(addr: [u8; 6], config: SpiConfig) -> (r: Self)
        ensures
            r.wf(),
            r.addr() == addr@,
            r.bus() == config,
            !r.is_open(),
            r.events() == Seq::<SleEvent>::empty(),
    {
        SpiController { addr, config, state: ControllerState::new() }
    }

    /// The settings of the bus.
    pub fn config(&self) -> (r: &SpiConfig)
        ensures
            *r == self.bus(),
    {
        &self.config
    }

    /// Sets the clock, or returns `EINVAL` where it is 0 or too high.
    pub fn set_freq(&mut self, freq_hz: u32) -> (r: Result<(), Errno>)
        ensures
            final(self).wf() == old(self).wf(),
            final(self).addr() == old(self).addr(),
            final(self).is_open() == old(self).is_open(),
            final(self).events() == old(self).events(),
            if 0 < freq_hz <= MAX_SPI_FREQ {
                r == Ok::<(), Errno>(()) && final(self).bus() == (SpiConfig {
                    freq_hz,
                    ..old(self).bus()
                })
            } else {
                r == Err::<(), Errno>(Errno::EINVAL) && final(self).bus() == old(self).bus()
            },
    {
        if freq_hz == 0 || freq_hz > MAX_SPI_FREQ {
            return Err(Errno::EINVAL);
        }
        self.config.freq_hz = freq_hz;
        Ok(())
    }

    /// Writes the two transfers of a command, its header and its parameters, and
    /// returns their lengths.
    pub fn prepare_command(
        &self,
        opcode: u16,
        params: &[u8],
        hdr_buf: &mut [u8],
        data_buf: &mut [u8],
    ) -> (r: (usize, usize))
        ensures
            put_transfer(
                command_transfer(opcode, (params@.len() % 0x100) as u8),
                old(hdr_buf)@,
                final(hdr_buf)@,
                r.0,
            ),
            if params@.len() == 0 || params@.len() > 255 {
                r.1 == 0 && final(data_buf)@ == old(data_buf)@
            } else {
                put_transfer(data_transfer(params@), old(data_buf)@, final(data_buf)@, r.1)
            },
    {
        let hdr_len = encode_spi_command(opcode, (params.len() % 0x100) as u8, hdr_buf);
        let data_len = if params.len() == 0 {
            0
        } else {
            encode_spi_data_write(params, data_buf)
        };
        (hdr_len, data_len)
    }

    /// Writes the two transfers of a data packet, its header and its payload, and
    /// returns their lengths. Nothing is written where the header does not fit.
    pub fn prepare_data(
        &self,
        handle: u16,
        payload: &[u8],
        hdr_buf: &mut [u8],
        data_buf: &mut [u8],
    ) -> (r: (usize, usize))
        ensures
            put_transfer(
                data_header_transfer(handle, payload@.len()),
                old(hdr_buf)@,
                final(hdr_buf)@,
                r.0,
            ),
            if old(hdr_buf)@.len() < 6 || payload@.len() > 255 {
                r.1 == 0 && final(data_buf)@ == old(data_buf)@
            } else {
                put_transfer(data_transfer(payload@), old(data_buf)@, final(data_buf)@, r.1)
            },
    {
        if hdr_buf.len() < 6 {
            return (0, 0);
        }
        let mut v: Vec<u8> = vec![REG_CMD, DliPacketType::AsyncUnicast.code()];
        bytes::push_le16(&mut v, handle % 0x1000);
        bytes::push_le16(&mut v, (payload.len() % 0x1_0000) as u16);
        assert(v@ == data_header_transfer(handle, payload@.len()));
        bytes::put_slice(hdr_buf, v.as_slice());
        let data_len = encode_spi_data_write(payload, data_buf);
        (6, data_len)
    }
}

/// The name "sparklink-spi".
pub open spec fn spi_name() -> Seq<u8> {
    seq![0x73u8, 0x70, 0x61, 0x72, 0x6B, 0x6C, 0x69, 0x6E, 0x6B, 0x2D, 0x73, 0x70, 0x69]
}

/// Whether `r` describes a controller on SPI with address `addr`.
pub open spec fn spi_info(r: SleControllerInfo, addr: Seq<u8>) -> bool {
    &&& r.name@ == bytes::padded(spi_name(), 32)
    &&& r.bus == SleBus::Spi
    &&& r.addr@ == addr
    &&& r.fw_version == 0x0001_0000
    &&& r.features == SleFeature::Encryption.mask() | SleFeature::Mcs4.mask()
        | SleFeature::Pilot8to1.mask() | SleFeature::Crc32.mask()
    &&& r.max_pdu_payload == 255
    &&& r.max_connections == 2
    &&& r.max_mtu == 247
    &&& r.max_mps == 247
    &&& r.transport_modes == SLE_TRANSPORT_UNRELIABLE
    &&& r.measurement_cap == SLE_MEAS_RSSI
    &&& r.security_cap == SLE_SEC_AES_CCM
}

impl SleController for SpiController {
    closed spec fn wf(&self) -> bool {
        self.state.wf()
    }

    fn info(&self) -> (r: SleControllerInfo)
        ensures
            spi_info(r, self.addr()),
    {
        let name = [0x73u8, 0x70, 0x61, 0x72, 0x6B, 0x6C, 0x69, 0x6E, 0x6B, 0x2D, 0x73, 0x70, 0x69];
        assert(name@ == spi_name());
        SleControllerInfo {
            name: bytes::to_array(name.as_slice()),
            bus: SleBus::Spi,
            addr: self.addr,
            fw_version: 0x0001_0000,
            features: SleFeature::Encryption.mask() | SleFeature::Mcs4.mask()
                | SleFeature::Pilot8to1.mask() | SleFeature::Crc32.mask(),
            max_pdu_payload: 255,
            max_connections: 2,
            max_mtu: 247,
            max_mps: 247,
            transport_modes: SLE_TRANSPORT_UNRELIABLE,
            measurement_cap: SLE_MEAS_RSSI,
            security_cap: SLE_SEC_AES_CCM,
        }
    }

    fn open(&mut self) -> (r: Result<(), Errno>)
        ensures
            final(self).is_open(),
            final(self).addr() == old(self).addr(),
            final(self).bus() == old(self).bus(),
            final(self).events() == old(self).events(),
            r == (if old(self).is_open() {
                Err::<(), Errno>(Errno::EBUSY)
            } else {
                Ok::<(), Errno>(())
            }),
    {
        self.state.open()
    }

    fn close(&mut self)
        ensures
            !final(self).is_open(),
            final(self).addr() == old(self).addr(),
            final(self).bus() == old(self).bus(),
            final(self).events() == old(self).events(),
    {
        self.state.close();
    }

    fn send_command(&mut self, opcode: SleOpcode, params: &[u8]) -> (r: Result<(), Errno>)
        ensures
            r == Ok::<(), Errno>(()),
            final(self).is_open() == old(self).is_open(),
            final(self).addr() == old(self).addr(),
            final(self).bus() == old(self).bus(),
            sle_dli::completed(old(self).events(), opcode, final(self).events()),
    {
        let mut hdr_buf: [u8; 8] = [0u8; 8];
        let mut data_buf: [u8; 260] = [0u8; 260];
        let (hdr_len, _data_len) = self.prepare_command(
            opcode.code(),
            params,
            &mut hdr_buf,
            &mut data_buf,
        );
        if hdr_len == 0 {
            return Err(Errno::EINVAL);
        }
        self.state.complete(opcode);
        Ok(())
    }

    fn send_data(&mut self, handle: u16, data: &[u8]) -> (r: Result<(), Errno>)
        ensures
            r == Ok::<(), Errno>(()),
            *final(self) == *old(self),
    {
        let mut hdr_buf: [u8; 8] = [0u8; 8];
        let mut data_buf: [u8; 260] = [0u8; 260];
        let (hdr_len, _data_len) = self.prepare_data(handle, data, &mut hdr_buf, &mut data_buf);
        if hdr_len == 0 {
            return Err(Errno::EINVAL);
        }
        Ok(())
    }

    fn poll_event(&mut self) -> (r: Option<SleEvent>)
        ensures
            final(self).is_open() == old(self).is_open(),
            final(self).addr() == old(self).addr(),
            final(self).bus() == old(self).bus(),
            match r {
                Some(e) => old(self).events().len() > 0 && e == old(self).events()[0]
                    && final(self).events() == old(self).events().drop_first(),
                None => old(self).events().len() == 0 && final(self).events()
                    == old(self).events(),
            },
    {
        self.state.poll_event()
    }

    fn reset(&mut self) -> (r: Result<(), Errno>)
        ensures
            r == Ok::<(), Errno>(()),
            *final(self) == *old(self),
    {
        Ok(())
    }
}

} // verus!
