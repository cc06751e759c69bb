//! Laws of controllers: how they answer, how they are brought up, and what is known of them.

use vstd::prelude::*;

use crate::controller::{ControllerBackend, DliCommand};
use crate::errno::Errno;
use crate::laws::pairing::ascii;
use crate::laws::payload::{s8, w16};
use crate::sle_dli;
use crate::sle_dli::{
    ControllerState, SleBus, SleController, SleControllerInfo, SleEvent, SleFeature, SleStatus,
    VirtualController,
};
use crate::sle_fw;
use crate::sle_fw::{FwError, FwStep};
use crate::sle_opcode::SleOpcode;
use crate::sle_serdev;
use crate::sle_serdev::{
    SerdevController, SerdevProbe, SerdevReply, SerdevStage, SleSerdevData,
};
use crate::sle_spi::SpiController;
use crate::sle_transport;
use crate::sle_transport::{
    SleAttachInfo, SleBindingTable, SleDevBinding, SleProtoEntry, SleProtoId, SleProtoRegistry,
};
use crate::sle_uart::UartController;
use crate::text;
use crate::usb_probe;
use crate::usb_probe::{UsbDevices, UsbProbe, UsbReply};

verus! {

/// Whether an event tells that a command ended well and returned nothing.
pub open spec fn ended_well(e: SleEvent, op: SleOpcode) -> bool {
    e matches SleEvent::CommandComplete { opcode, status, data } && opcode == op && status
        == SleStatus::Success && data@.len() == 0
}

/// Whether one event came behind those that waited, unless there were 31, and tells that a
/// command ended well.
pub open spec fn answered(before: Seq<SleEvent>, after: Seq<SleEvent>, op: SleOpcode) -> bool {
    if before.len() == 31 {
        after == before
    } else {
        after.len() == before.len() + 1 && after.drop_last() == before && ended_well(
            after.last(),
            op,
        )
    }
}

proof fn is_answered(before: Seq<SleEvent>, op: SleOpcode, after: Seq<SleEvent>)
    requires
        sle_dli::completed(before, op, after),
    ensures
        answered(before, after, op),
{
    if before.len() != 31 {
        assert(after.drop_last() =~= before);
    }
}

/// The state that controllers share: open once, closed again, events in their order.
pub proof fn shared_state(
    n: ControllerState,
    a: &mut ControllerState,
    b: &mut ControllerState,
    c: &mut ControllerState,
    d: &mut ControllerState,
    e: &mut ControllerState,
    r: Result<(), Errno>,
    ev: SleEvent,
    op: SleOpcode,
    x: Option<SleEvent>,
)
    requires
        call_ensures(ControllerState::new, (), n),
        call_ensures(ControllerState::open, (a,), r),
        call_ensures(ControllerState::close, (b,), ()),
        call_ensures(ControllerState::enqueue_event, (c, ev), ()),
        call_ensures(ControllerState::complete, (d, op), ()),
        call_ensures(ControllerState::poll_event, (e,), x),
    ensures
        !n.is_open() && n.events().len() == 0,
        final(a).is_open() && final(a).events() == old(a).events(),
        r is Ok <==> !old(a).is_open(),
        r is Err ==> r->Err_0 == Errno::EBUSY,
        !final(b).is_open() && final(b).events() == old(b).events(),
        final(c).events() == (if old(c).events().len() == 31 {
            old(c).events()
        } else {
            old(c).events().push(ev)
        }),
        answered(old(d).events(), final(d).events(), op),
        x is Some <==> old(e).events().len() > 0,
        x is Some ==> x->0 == old(e).events()[0] && final(e).events() == old(e).events().skip(1),
{
    is_answered(d.events(), op, final(d).events());
    if x is Some {
        assert(final(e).events() =~= e.events().skip(1));
    }
}

/// A virtual controller answers every command at once.
pub proof fn virtual_answers(
    c: &mut VirtualController,
    op: SleOpcode,
    params: &[u8],
    r: Result<(), Errno>,
)
    requires
        call_ensures(<VirtualController as SleController>::send_command, (c, op, params), r),
        c.events().len() < 30,
    ensures
        r is Ok,
        final(c).is_open() == old(c).is_open() && final(c).addr() == old(c).addr(),
        ({
            let n = old(c).events().len() as int;
            let es = final(c).events();
            &&& es.len() > n
            &&& es.take(n) == old(c).events()
            &&& ended_well(es[n], op)
            &&& op == SleOpcode::CreateConnection && params@.len() >= 6 ==> es.len() == n + 2 && (
            es[n + 1] matches SleEvent::ConnComplete { handle, addr, status } && status
                == SleStatus::Success && addr@ == params@.take(6) && (if params@[5] == 0 {
                handle == 1
            } else {
                handle == params@[5]
            }))
            &&& op == SleOpcode::Disconnect && params@.len() >= 2 ==> es.len() == n + 2 && (es[n
                + 1] matches SleEvent::Disconnected { handle, reason } && handle == w16(params@, 0)
                && reason == 0)
            &&& !(op == SleOpcode::CreateConnection && params@.len() >= 6) && !(op
                == SleOpcode::Disconnect && params@.len() >= 2) ==> es.len() == n + 1
        }),
{
    let before = c.events();
    let n = before.len() as int;
    let e = choose|e: SleEvent| #[trigger]
        sle_dli::completes(e, op) && {
            let first = sle_dli::pushed(before, e);
            if op == SleOpcode::CreateConnection && params@.len() >= 6 {
                exists|e2: SleEvent| #[trigger]
                    sle_dli::connects(e2, params@) && final(c).events() == sle_dli::pushed(
                        first,
                        e2,
                    )
            } else if op == SleOpcode::Disconnect && params@.len() >= 2 {
                final(c).events() == sle_dli::pushed(
                    first,
                    SleEvent::Disconnected {
                        handle: crate::bytes::le16(params@[0], params@[1]),
                        reason: 0,
                    },
                )
            } else {
                final(c).events() == first
            }
        };
    assert(final(c).events().take(n) =~= before);
}

/// A controller that is made starts closed, under the address it was given, and opens once.
pub proof fn virtual_life(
    addr: [u8; 6],
    c: VirtualController,
    a: &mut VirtualController,
    b: &mut VirtualController,
    d: &mut VirtualController,
    e: &mut VirtualController,
    f: &mut VirtualController,
    h: u16,
    data: &[u8],
    r: Result<(), Errno>,
    s: Result<(), Errno>,
    t: Result<(), Errno>,
    x: Option<SleEvent>,
)
    requires
        call_ensures(VirtualController::new, (addr,), c),
        call_ensures(<VirtualController as SleController>::open, (a,), r),
        call_ensures(<VirtualController as SleController>::close, (b,), ()),
        call_ensures(<VirtualController as SleController>::send_data, (d, h, data), s),
        call_ensures(<VirtualController as SleController>::reset, (e,), t),
        call_ensures(<VirtualController as SleController>::poll_event, (f,), x),
    ensures
        c.addr() == addr@ && !c.is_open() && c.events().len() == 0,
        final(a).is_open() && (r is Ok <==> !old(a).is_open()),
        r is Err ==> r->Err_0 == Errno::EBUSY,
        !final(b).is_open(),
        s is Ok && *final(d) == *old(d),
        t is Ok && *final(e) == *old(e),
        x is Some <==> old(f).events().len() > 0,
        x is Some ==> x->0 == old(f).events()[0] && final(f).events() == old(f).events().skip(1),
{
    if x is Some {
        assert(final(f).events() =~= f.events().skip(1));
    }
}

/// Whether a name stands at the start of its field, with zeros behind it.
pub open spec fn named(field: Seq<u8>, name: Seq<char>) -> bool {
    &&& field.len() == 32
    &&& field.take(name.len() as int) == ascii(name)
    &&& forall|i: int| name.len() <= i < 32 ==> #[trigger] field[i] == 0
}

/// What the controllers say of themselves.
pub proof fn controllers_tell(
    v: &VirtualController,
    u: &UartController,
    p: &SpiController,
    d: &SerdevController,
    fw: u32,
    a: SleControllerInfo,
    b: SleControllerInfo,
    c: SleControllerInfo,
    e: SleControllerInfo,
)
    requires
        call_ensures(<VirtualController as SleController>::info, (v,), a),
        call_ensures(<UartController as SleController>::info, (u,), b),
        call_ensures(<SpiController as SleController>::info, (p,), c),
        call_ensures(SerdevController::info, (d, fw), e),
    ensures
        named(a.name@, "sparklink-virtual"@),
        named(b.name@, "sparklink-uart"@),
        named(c.name@, "sparklink-spi"@),
        named(e.name@, "sparklink-serdev"@),
        a.bus == SleBus::Virtual && b.bus == SleBus::Uart && c.bus == SleBus::Spi && e.bus
            == SleBus::Uart,
        a.addr@ == v.addr() && b.addr@ == u.addr() && c.addr@ == p.addr() && e.addr@ == d.addr(),
        a.max_connections == 8 && b.max_connections == 4 && c.max_connections == 2
            && e.max_connections == 4,
        a.max_pdu_payload == 255 && b.max_pdu_payload == 255 && c.max_pdu_payload == 255
            && e.max_pdu_payload == 255,
        a.max_mtu == 512 && b.max_mtu == 512 && c.max_mtu == 247 && e.max_mtu == 512,
        a.max_mps == 247 && b.max_mps == 255 && c.max_mps == 247 && e.max_mps == 255,
        a.fw_version == 0x1_0000 && b.fw_version == 0x1_0000 && c.fw_version == 0x1_0000
            && e.fw_version == fw,
        a.features == 0x4_2801 && b.features == 0x4_2803 && c.features == 0x4_2801 && e.features
            == 0x4_2803,
        a.transport_modes == 3 && b.transport_modes == 3 && c.transport_modes == 1
            && e.transport_modes == 3,
        a.measurement_cap == 1 && b.measurement_cap == 1 && c.measurement_cap == 1
            && e.measurement_cap == 1,
        a.security_cap == 9 && b.security_cap == 9 && c.security_cap == 1 && e.security_cap == 9,
{
    reveal_strlit("sparklink-virtual");
    reveal_strlit("sparklink-uart");
    reveal_strlit("sparklink-spi");
    reveal_strlit("sparklink-serdev");
    assert(a.name@.take(17) =~= ascii("sparklink-virtual"@));
    assert(b.name@.take(14) =~= ascii("sparklink-uart"@));
    assert(c.name@.take(13) =~= ascii("sparklink-spi"@));
    assert(e.name@.take(16) =~= ascii("sparklink-serdev"@));
    assert(0x1u64 | 0x4_0000 | 0x800 | 0x2000 == 0x4_2801 && 0x1u64 | 0x4_0000 | 0x800 | 0x2000
        | 0x2 == 0x4_2803 && 1u8 | 2 == 3 && 1u16 | 8 == 9) by (bit_vector);
}

/// A feature is there where its bit is set.
pub proof fn features_are_bits(i: &SleControllerInfo, f: SleFeature, r: bool, m: u64)
    requires
        call_ensures(SleControllerInfo::has_feature, (i, f), r),
        call_ensures(SleFeature::mask, (f,), m),
    ensures
        r == (i.features & m != 0),
        i.features == 0 ==> !r,
        i.features == 0xFFFF_FFFF_FFFF_FFFFu64 ==> r,
{
    assert(0u64 & m == 0) by (bit_vector);
    assert(m != 0 ==> 0xFFFF_FFFF_FFFF_FFFFu64 & m != 0) by (bit_vector);
}

/// The commands that the stack sends most, with their parameters.
pub proof fn usual_commands(
    on: bool,
    mcs: u8,
    dbm: i8,
    mhz: u8,
    addr: &[u8; 6],
    h: u16,
    method: u8,
    a: DliCommand,
    b: DliCommand,
    c: DliCommand,
    d: DliCommand,
    e: DliCommand,
    f: DliCommand,
    g: DliCommand,
    i: DliCommand,
    j: DliCommand,
)
    requires
        call_ensures(DliCommand::enable_broadcast, (on,), a),
        call_ensures(DliCommand::enable_scan, (on,), b),
        call_ensures(DliCommand::set_coding_modulation, (mcs,), c),
        call_ensures(DliCommand::set_tx_power, (dbm,), d),
        call_ensures(DliCommand::set_bandwidth, (mhz,), e),
        call_ensures(DliCommand::create_connection, (addr,), f),
        call_ensures(DliCommand::disconnect, (h,), g),
        call_ensures(DliCommand::request_pair, (method,), i),
        call_ensures(DliCommand::start_encrypt, (), j),
    ensures
        a.opcode == SleOpcode::EnableBroadcast && a.params@.len() == 1 && a.params@[0] == (if on {
            1int
        } else {
            0
        }),
        b.opcode == SleOpcode::EnableScan && b.params@.len() == 1 && b.params@[0] == (if on {
            1int
        } else {
            0
        }),
        c.opcode == SleOpcode::SetCodingModulation && c.params@ == seq![mcs],
        d.opcode == SleOpcode::SetPhyParam && d.params@.len() == 2 && d.params@[0] == 1 && s8(
            d.params@,
            1,
        ) == dbm,
        e.opcode == SleOpcode::SetPhyParam && e.params@ == seq![2u8, mhz],
        f.opcode == SleOpcode::CreateConnection && f.params@ == addr@,
        g.opcode == SleOpcode::Disconnect && g.params@.len() == 2 && w16(g.params@, 0) == h,
        i.opcode == SleOpcode::RequestPair && i.params@ == seq![method],
        j.opcode == SleOpcode::StartEncrypt && j.params@.len() == 0,
{
}

/// Any command can be sent by its number, with the parameters it was given.
pub proof fn command_by_number(
    raw: u16,
    params: &[u8],
    r: Result<DliCommand, Errno>,
    op: SleOpcode,
    x: u8,
    y: u8,
    a: DliCommand,
    b: DliCommand,
    c: DliCommand,
)
    requires
        call_ensures(DliCommand::raw, (raw, params), r),
        call_ensures(DliCommand::bare, (op,), a),
        call_ensures(DliCommand::one, (op, x), b),
        call_ensures(DliCommand::two, (op, x, y), c),
    ensures
        op.code() == raw ==> r is Ok,
        r matches Ok(d) ==> d.opcode.code() == raw && d.params@ == params@,
        r is Err ==> r->Err_0 == Errno::EINVAL,
        a.opcode == op && a.params@.len() == 0,
        b.opcode == op && b.params@ == seq![x],
        c.opcode == op && c.params@ == seq![x, y],
{
}

/// Whether a controller answered one command, and stayed open or closed as it was. Two
/// commands make a virtual controller tell more.
pub open spec fn backend_answered(
    a: ControllerBackend,
    b: ControllerBackend,
    op: SleOpcode,
    r: Result<(), Errno>,
) -> bool {
    &&& r is Ok
    &&& b.is_open() == a.is_open()
    &&& b.addr() == a.addr()
    &&& !(a is Virtual && (op == SleOpcode::CreateConnection || op == SleOpcode::Disconnect))
        ==> answered(a.events(), b.events(), op)
    &&& a.events().len() < 30 ==> b.events().len() > a.events().len() && b.events().take(
        a.events().len() as int,
    ) == a.events() && ended_well(b.events()[a.events().len() as int], op)
}

proof fn backend_is_answered(
    a: ControllerBackend,
    op: SleOpcode,
    params: Seq<u8>,
    b: ControllerBackend,
    r: Result<(), Errno>,
)
    requires
        crate::controller::sent(a, op, params, b, r),
        params.len() <= 255,
    ensures
        backend_answered(a, b, op, r),
{
    if a is Virtual {
        let before = a.events();
        let e = choose|e: SleEvent| #[trigger]
            sle_dli::completes(e, op) && {
                let first = sle_dli::pushed(before, e);
                if op == SleOpcode::CreateConnection && params.len() >= 6 {
                    exists|e2: SleEvent| #[trigger]
                        sle_dli::connects(e2, params) && b.events() == sle_dli::pushed(first, e2)
                } else if op == SleOpcode::Disconnect && params.len() >= 2 {
                    b.events() == sle_dli::pushed(
                        first,
                        SleEvent::Disconnected {
                            handle: crate::bytes::le16(params[0], params[1]),
                            reason: 0,
                        },
                    )
                } else {
                    b.events() == first
                }
            };
        if op != SleOpcode::CreateConnection && op != SleOpcode::Disconnect {
            assert(sle_dli::completed(before, op, b.events()));
            is_answered(before, op, b.events());
        }
    } else {
        is_answered(a.events(), op, b.events());
    }
    if a.events().len() < 30 {
        assert(b.events().take(a.events().len() as int) =~= a.events());
    }
}

/// Whatever controller is behind it, each of the usual commands is sent as that command.
pub proof fn backend_commands(
    a: &mut ControllerBackend,
    b: &mut ControllerBackend,
    c: &mut ControllerBackend,
    d: &mut ControllerBackend,
    e: &mut ControllerBackend,
    on: bool,
    mcs: u8,
    dbm: i8,
    mhz: u8,
    r: Result<(), Errno>,
    s: Result<(), Errno>,
    t: Result<(), Errno>,
    u: Result<(), Errno>,
    v: Result<(), Errno>,
)
    requires
        call_ensures(ControllerBackend::enable_broadcast, (a, on), r),
        call_ensures(ControllerBackend::enable_scan, (b, on), s),
        call_ensures(ControllerBackend::set_coding_modulation, (c, mcs), t),
        call_ensures(ControllerBackend::set_tx_power, (d, dbm), u),
        call_ensures(ControllerBackend::set_bandwidth, (e, mhz), v),
    ensures
        backend_answered(*old(a), *final(a), SleOpcode::EnableBroadcast, r),
        backend_answered(*old(b), *final(b), SleOpcode::EnableScan, s),
        backend_answered(*old(c), *final(c), SleOpcode::SetCodingModulation, t),
        backend_answered(*old(d), *final(d), SleOpcode::SetPhyParam, u),
        backend_answered(*old(e), *final(e), SleOpcode::SetPhyParam, v),
{
    let p = seq![crate::bytes::bool_byte(on)];
    backend_is_answered(*a, SleOpcode::EnableBroadcast, p, *final(a), r);
    backend_is_answered(*b, SleOpcode::EnableScan, p, *final(b), s);
    backend_is_answered(*c, SleOpcode::SetCodingModulation, seq![mcs], *final(c), t);
    backend_is_answered(
        *d,
        SleOpcode::SetPhyParam,
        seq![0x01u8, crate::bytes::i8_byte(dbm)],
        *final(d),
        u,
    );
    backend_is_answered(*e, SleOpcode::SetPhyParam, seq![0x02u8, mhz], *final(e), v);
}

/// Connections, pairing and encryption are asked for by their own commands; a virtual
/// controller has the connection come up or go down at once.
pub proof fn backend_links(
    a: &mut ControllerBackend,
    b: &mut ControllerBackend,
    c: &mut ControllerBackend,
    d: &mut ControllerBackend,
    addr: &[u8; 6],
    h: u16,
    method: u8,
    r: Result<(), Errno>,
    s: Result<(), Errno>,
    t: Result<(), Errno>,
    u: Result<(), Errno>,
)
    requires
        call_ensures(ControllerBackend::create_connection, (a, addr), r),
        call_ensures(ControllerBackend::disconnect, (b, h), s),
        call_ensures(ControllerBackend::request_pair, (c, method), t),
        call_ensures(ControllerBackend::start_encrypt, (d,), u),
    ensures
        backend_answered(*old(a), *final(a), SleOpcode::CreateConnection, r),
        backend_answered(*old(b), *final(b), SleOpcode::Disconnect, s),
        backend_answered(*old(c), *final(c), SleOpcode::RequestPair, t),
        backend_answered(*old(d), *final(d), SleOpcode::StartEncrypt, u),
        (*old(a)) is Virtual && old(a).events().len() < 30 ==> (
        final(a).events().last() matches SleEvent::ConnComplete { addr: x, status, .. } && x@
            == addr@ && status == SleStatus::Success),
        (*old(b)) is Virtual && old(b).events().len() < 30 ==> (
        final(b).events().last() matches SleEvent::Disconnected { handle, .. } && handle == h),
{
    backend_is_answered(*a, SleOpcode::CreateConnection, addr@, *final(a), r);
    backend_is_answered(
        *b,
        SleOpcode::Disconnect,
        crate::bytes::le16_bytes(h),
        *final(b),
        s,
    );
    backend_is_answered(*c, SleOpcode::RequestPair, seq![method], *final(c), t);
    backend_is_answered(*d, SleOpcode::StartEncrypt, Seq::empty(), *final(d), u);
    assert(addr@.take(6) =~= addr@);
}

/// A command is sent by its number; a number without a command is refused.
pub proof fn backend_by_number(
    a: &mut ControllerBackend,
    raw: u16,
    params: &[u8],
    op: SleOpcode,
    r: Result<(), Errno>,
)
    requires
        call_ensures(ControllerBackend::send_command_raw, (a, raw, params), r),
        params@.len() <= 255,
    ensures
        op.code() == raw ==> backend_answered(*old(a), *final(a), op, r),
        (forall|o: SleOpcode| #[trigger] o.code() != raw) ==> r == Err::<(), Errno>(Errno::EINVAL)
            && *final(a) == *old(a),
{
    if op.code() == raw {
        backend_is_answered(*a, op, params@, *final(a), r);
    }
}

/// Events come out of a controller in their order; data longer than 255 bytes do not fit a
/// serial frame.
pub proof fn backend_io(
    a: &mut ControllerBackend,
    b: &mut ControllerBackend,
    c: &mut ControllerBackend,
    d: &mut ControllerBackend,
    h: u16,
    data: &[u8],
    x: Option<SleEvent>,
    r: Result<(), Errno>,
    s: Result<(), Errno>,
)
    requires
        call_ensures(<ControllerBackend as SleController>::poll_event, (a,), x),
        call_ensures(<ControllerBackend as SleController>::send_data, (b, h, data), r),
        call_ensures(<ControllerBackend as SleController>::open, (c,), s),
        call_ensures(<ControllerBackend as SleController>::close, (d,), ()),
    ensures
        x is Some <==> old(a).events().len() > 0,
        x is Some ==> x->0 == old(a).events()[0] && final(a).events() == old(a).events().skip(1),
        r is Err <==> (*old(b)) is Uart && data@.len() > 255,
        r is Err ==> r->Err_0 == Errno::EINVAL,
        *final(b) == *old(b),
        final(c).is_open() && (s is Ok <==> !old(c).is_open()),
        !final(d).is_open(),
{
    if x is Some {
        assert(final(a).events() =~= a.events().skip(1));
    }
}

/// What the machine reports: below 0 is a failure.
pub proof fn reports(ret: i32, r: Result<(), i32>, s: Result<usize, i32>)
    requires
        call_ensures(usb_probe::call_outcome, (ret,), r),
        call_ensures(usb_probe::transfer_outcome, (ret,), s),
    ensures
        r is Err <==> ret < 0,
        s is Err <==> ret < 0,
        ret < 0 ==> r->Err_0 == ret && s->Err_0 == ret,
        ret >= 0 ==> s->Ok_0 == ret,
{
}

/// A controller goes by its own address where that was read and is not zero.
pub proof fn own_address(ret: i32, mac: [u8; 6], other: [u8; 6], r: [u8; 6])
    requires
        call_ensures(usb_probe::settle_address, (ret, mac, other), r),
    ensures
        ret == 0 && (exists|i: int| 0 <= i < 6 && #[trigger] mac@[i] != 0) ==> r@ == mac@,
        ret != 0 || (forall|i: int| 0 <= i < 6 ==> #[trigger] mac@[i] == 0) ==> r@ == other@,
{
    if forall|i: int| 0 <= i < 6 ==> #[trigger] mac@[i] == 0 {
        assert(mac@ =~= seq![0u8, 0, 0, 0, 0, 0]);
    }
}

/// Controllers on USB are counted as they come and go; each starts under an address of its
/// number.
pub proof fn usb_devices_are_counted(
    n: UsbDevices,
    a: &mut UsbDevices,
    b: &mut UsbDevices,
    p: UsbProbe,
    id: u16,
    r: bool,
    c: u32,
)
    requires
        call_ensures(UsbDevices::new, (), n),
        call_ensures(UsbDevices::probe, (a,), p),
        call_ensures(UsbDevices::disconnect, (b, id), r),
        call_ensures(UsbDevices::usb_device_count, (&n,), c),
    ensures
        n.count == 0 && c == 0,
        old(a).count < u32::MAX ==> final(a).count == old(a).count + 1,
        old(b).count > 0 ==> final(b).count == old(b).count - 1,
        p matches UsbProbe::Attach { addr } && addr@.take(5) == seq![0x5Eu8, 0, 0, 0, 1] && addr@[5]
            == final(a).count % 256,
        r <==> id != 0xFFFF,
{
    assert(p@ is Attach);
    match p {
        UsbProbe::Attach { addr } => {
            assert(addr@ == usb_probe::placeholder(final(a).count));
            assert(addr@.take(5) =~= seq![0x5Eu8, 0, 0, 0, 1]);
        },
        _ => {},
    }
}

/// The steps that bring a controller on USB up. Where one fails, the stack goes over to the
/// controller as it is.
pub proof fn usb_steps(p: UsbProbe, reply: UsbReply, r: UsbProbe)
    requires
        call_ensures(UsbProbe::next, (p, reply), r),
    ensures
        p matches UsbProbe::Attach { addr } ==> reply matches UsbReply::Attached(Ok(id))
            ==> id != 0xFFFF ==> (r matches UsbProbe::Register { dev_id, addr: b } && dev_id == id
            && b@ == addr@),
        p matches UsbProbe::Attach { addr } ==> reply matches UsbReply::Attached(Err(e))
            ==> ( r matches UsbProbe::Done { dev_id } && dev_id == 0xFFFF),
        p matches UsbProbe::Register { dev_id, addr } ==> reply matches UsbReply::Registered(ret)
            ==> ret >= 0 ==> (r matches UsbProbe::Init { dev_id: d, addr: b } && d == dev_id
            && b@ == addr@),
        p matches UsbProbe::Register { dev_id, addr } ==> reply matches UsbReply::Registered(ret)
            ==> ret < 0 ==> (r matches UsbProbe::Switch { dev_id: d, addr: b, fw_version }
            && d == dev_id && b@ == addr@ && fw_version == 0),
        p matches UsbProbe::Init { dev_id, addr } ==> reply matches UsbReply::Started(ret)
            ==> ret == 0 ==> (r matches UsbProbe::ReadMac { dev_id: d, addr: b } && d == dev_id
            && b@ == addr@),
        p matches UsbProbe::Init { dev_id, addr } ==> reply matches UsbReply::Started(ret)
            ==> ret != 0 ==> (r matches UsbProbe::Switch { dev_id: d, addr: b, fw_version }
            && d == dev_id && b@ == addr@ && fw_version == 0),
        p matches UsbProbe::ReadMac { dev_id, addr } ==> reply matches UsbReply::Mac(ret, mac)
            ==> ret == 0 ==> mac@[0] != 0
            ==> (r matches UsbProbe::ReadVersion { dev_id: d, addr: b } && d == dev_id
            && b@ == mac@),
        p matches UsbProbe::ReadMac { dev_id, addr } ==> reply matches UsbReply::Mac(ret, mac)
            ==> ret != 0 ==> (r matches UsbProbe::ReadVersion { dev_id: d, addr: b } && d == dev_id
            && b@ == addr@),
        p matches UsbProbe::ReadVersion { dev_id, addr } ==> reply matches UsbReply::Version(v)
            ==> ( r matches UsbProbe::LoadFirmware { dev_id: d, addr: b, fw_version } && d == dev_id
            && b@ == addr@ && fw_version == v),
        p matches UsbProbe::LoadFirmware { dev_id, addr, fw_version: v }
            ==> reply matches UsbReply::FirmwareTried
            ==> ( r matches UsbProbe::Switch { dev_id: d, addr: b, fw_version } && d == dev_id
            && b@ == addr@ && fw_version == v),
        p matches UsbProbe::Switch { dev_id, addr, fw_version } ==> reply matches UsbReply::Switched
            ==> (r matches UsbProbe::Done { dev_id: d } && d == dev_id),
        p is Done ==> r@ == p@,
{
    assert(r@ == p@.next(reply));
    match reply {
        UsbReply::Mac(ret, mac) => {
            if mac@[0] != 0 {
                assert(mac@ != seq![0u8, 0, 0, 0, 0, 0]);
            }
        },
        _ => {},
    }
}

/// What is known of a controller on USB when it is entered.
pub proof fn usb_is_entered(p: &UsbProbe, r: Option<SleAttachInfo>, id: u16, t: bool)
    requires
        call_ensures(UsbProbe::attach_info, (p,), r),
        call_ensures(usb_probe::is_attached, (id,), t),
    ensures
        r is Some <==> *p is Attach,
        r matches Some(i) ==> i.proto_id == SleProtoId::UsbBulk && (
        *p matches UsbProbe::Attach { addr } && i.addr@ == addr@),
        t <==> id != 0xFFFF,
{
}

/// The steps that bring a controller on a serial line up. Where the line cannot be entered,
/// the number is given back; a controller that does not answer is taken as it is.
pub proof fn serdev_steps(p: SerdevProbe, reply: SerdevReply, r: SerdevProbe)
    requires
        call_ensures(SerdevProbe::next, (p, reply), r),
    ensures
        r.has_port == p.has_port && r.init_speed == p.init_speed && r.oper_speed == p.oper_speed,
        reply matches SerdevReply::Attached(Ok(id)) ==> p.stage is Attach
            ==> (if p.has_port { r.stage == (SerdevStage::Register { dev_id: id }) } else { r.stage == (SerdevStage::Done { dev_id: id }) }),
        reply matches SerdevReply::Attached(Err(e)) ==> p.stage is Attach
            ==> r.stage == ( SerdevStage::Failed { code: e }),
        p.stage matches SerdevStage::Register { dev_id }
            ==> reply matches SerdevReply::Registered( ret, ) ==> ret >= 0
            ==> r.stage == (SerdevStage::Init { dev_id }),
        p.stage matches SerdevStage::Register { dev_id }
            ==> reply matches SerdevReply::Registered( ret, ) ==> ret < 0
            ==> r.stage == (SerdevStage::Detach { dev_id, code: ret }),
        p.stage matches SerdevStage::Init { dev_id } ==> reply is Started
            ==> r.stage == ( SerdevStage::ReadMac { dev_id }),
        p.stage matches SerdevStage::ReadMac { dev_id } ==> reply matches SerdevReply::Mac(ret, mac)
            ==> r.stage == (SerdevStage::ReadVersion { dev_id }),
        reply matches SerdevReply::Mac(ret, mac) ==> p.stage is ReadMac ==> ret == 0
            ==> mac@[0] != 0 ==> r.addr@ == mac@,
        reply matches SerdevReply::Mac(ret, mac) ==> p.stage is ReadMac ==> ret != 0
            ==> r.addr@ == p.addr@,
        !(p.stage is ReadMac) ==> r.addr@ == p.addr@,
        p.stage matches SerdevStage::ReadVersion { dev_id }
            ==> reply matches SerdevReply::Version(v)
            ==> r.stage == (SerdevStage::Switch { dev_id, fw_version: v }),
        p.stage matches SerdevStage::Switch { dev_id, fw_version } ==> reply is Switched
            ==> r.stage == (SerdevStage::Done { dev_id }),
        p.stage matches SerdevStage::Detach { dev_id, code } ==> reply is Detached
            ==> r.stage == ( SerdevStage::Failed { code }),
        p.stage is Done || p.stage is Failed ==> r.stage == p.stage,
{
    assert(r@ == p@.next(reply));
    match reply {
        SerdevReply::Mac(ret, mac) => {
            if mac@[0] != 0 {
                assert(mac@ != seq![0u8, 0, 0, 0, 0, 0]);
            }
        },
        _ => {},
    }
}

/// How bringing up a controller on a serial line starts, and what comes of it.
pub proof fn serdev_starts_and_ends(
    port: bool,
    addr: [u8; 6],
    a: u32,
    b: u32,
    p: SerdevProbe,
    i: SleAttachInfo,
    q: &SerdevProbe,
    r: Option<Result<SleSerdevData, i32>>,
)
    requires
        call_ensures(sle_serdev::serdev_probe, (port, addr, a, b), p),
        call_ensures(SerdevProbe::attach_info, (&p,), i),
        call_ensures(SerdevProbe::result, (q,), r),
    ensures
        p.stage is Attach && p.addr@ == addr@ && p.has_port == port && p.init_speed == a
            && p.oper_speed == b,
        i.proto_id == SleProtoId::H4Uart && i.addr@ == addr@,
        r is Some <==> q.stage is Done || q.stage is Failed,
        q.stage matches SerdevStage::Done { dev_id } ==> (r matches Some(Ok(d))
            && d.dev_id == dev_id && d.init_speed == q.init_speed && d.oper_speed == q.oper_speed),
        q.stage matches SerdevStage::Failed { code } ==> (r matches Some(Err(e)) && e == code),
{
    assert(p@.stage is Attach);
}

/// Whether a file name is made of a stem, the digits of a version, an ending and a zero.
pub open spec fn file_named(r: Seq<u8>, stem: Seq<char>, digits: Seq<u8>) -> bool {
    r == ascii(stem) + digits + ascii(".bin"@) + seq![0u8]
}

/// The files of the firmware.
pub proof fn firmware_files(
    v: u32,
    d: Vec<u8>,
    one: Vec<u8>,
    base: Vec<u8>,
    a: Vec<u8>,
    b: Vec<u8>,
    c: Vec<u8>,
)
    requires
        call_ensures(text::to_digits, (v,), d),
        call_ensures(text::to_digits, (1u32,), one),
        call_ensures(sle_fw::fw_base_path, (), base),
        call_ensures(sle_fw::usb_file_name, (v,), a),
        call_ensures(sle_fw::fw_usb_default, (), b),
        call_ensures(sle_fw::fw_uart_default, (), c),
    ensures
        base@ == ascii("sparklink/"@),
        file_named(a@, "sparklink/sle_usb_v"@, d@),
        file_named(b@, "sparklink/sle_usb_v"@, one@),
        file_named(c@, "sparklink/sle_uart_v"@, one@),
{
    reveal_strlit("sparklink/");
    reveal_strlit("sparklink/sle_usb_v");
    reveal_strlit("sparklink/sle_uart_v");
    reveal_strlit(".bin");
    let usb = ascii("sparklink/sle_usb_v"@);
    let uart = ascii("sparklink/sle_uart_v"@);
    assert(base@ =~= ascii("sparklink/"@));
    assert(usb =~= sle_fw::base_path() + seq![115u8, 108, 101, 95, 117, 115, 98, 95, 118]);
    assert(uart =~= sle_fw::base_path() + seq![115u8, 108, 101, 95, 117, 97, 114, 116, 95, 118]);
    assert(ascii(".bin"@) + seq![0u8] =~= sle_fw::suffix());
    assert(a@ =~= usb + d@ + ascii(".bin"@) + seq![0u8]);
    assert(b@ =~= usb + one@ + ascii(".bin"@) + seq![0u8]);
    assert(c@ =~= uart + one@ + ascii(".bin"@) + seq![0u8]);
}

/// A load starts with the file that was asked for; one of a version goes back to the usual
/// file once.
pub proof fn firmware_is_asked_for(
    name: &[u8],
    v: u32,
    a: FwStep,
    b: FwStep,
    f: Vec<u8>,
    usual: Vec<u8>,
)
    requires
        call_ensures(sle_fw::load_usb_firmware, (name,), a),
        call_ensures(sle_fw::load_usb_firmware_versioned, (v,), b),
        call_ensures(sle_fw::usb_file_name, (v,), f),
        call_ensures(sle_fw::fw_usb_default, (), usual),
    ensures
        a matches FwStep::Request { name: n, fallback } && n@ == name@ && !fallback,
        v > 0 ==> (b matches FwStep::Request { name: n, fallback } && n@ == f@ && fallback),
        v == 0 ==> (b matches FwStep::Request { name: n, fallback } && n@ == usual@ && !fallback),
{
    assert(a@ is Request && b@ is Request);
}

/// A load goes on with the length of the file, and ends with what the controller says.
pub proof fn firmware_is_loaded(
    s: FwStep,
    reply: Result<usize, i32>,
    r: FwStep,
    t: FwStep,
    ret: i32,
    u: FwStep,
    usual: Vec<u8>,
)
    requires
        s is Request,
        call_ensures(FwStep::found, (s, reply), r),
        t is Download,
        call_ensures(FwStep::taken, (t, ret), u),
        call_ensures(sle_fw::fw_usb_default, (), usual),
    ensures
        reply matches Ok(n) ==> n > 0 ==> (r matches FwStep::Download { size } && size == n),
        reply matches Ok(n) ==> n == 0 ==> (r matches FwStep::Failed(e)
            && e == FwError::Refused( Errno::EINVAL, )),
        reply matches Err(c) ==> s->fallback ==> (r matches FwStep::Request { name, fallback }
            && name@ == usual@ && !fallback),
        reply matches Err(c) ==> !s->fallback ==> (r matches FwStep::Failed(e)
            && e == FwError::Reported(c)),
        ret < 0 ==> (u matches FwStep::Failed(e) && e == FwError::Reported(ret)),
        ret >= 0 ==> (u matches FwStep::Done(d) && d.success && d.size == t->Download_size),
{
    assert(r@ == s@.found(reply));
    assert(u@ == t@.taken(ret));
}

/// A protocol is entered once, under its number, and found there until it is taken out.
pub proof fn protocols_are_entered(
    a: &mut SleProtoRegistry,
    b: &mut SleProtoRegistry,
    c: &SleProtoRegistry,
    e: SleProtoEntry,
    id: SleProtoId,
    r: Result<(), Errno>,
    g: Option<&SleProtoEntry>,
    i: int,
)
    requires
        call_ensures(SleProtoRegistry::register, (a, e), r),
        call_ensures(SleProtoRegistry::unregister, (b, id), ()),
        call_ensures(SleProtoRegistry::get, (c, id), g),
        0 <= i < 8,
    ensures
        r is Ok <==> old(a)@[e.id.code() as int] is None,
        r is Ok ==> final(a)@[e.id.code() as int] == Some(e),
        r is Ok && i != e.id.code() ==> final(a)@[i] == old(a)@[i],
        r is Err ==> r->Err_0 == Errno::EEXIST && final(a)@ == old(a)@,
        final(b)@[id.code() as int] is None,
        i != id.code() ==> final(b)@[i] == old(b)@[i],
        g is Some <==> c@[id.code() as int] is Some,
        g matches Some(x) ==> c@[id.code() as int] == Some(*x),
{
}

/// The four protocols that are always there.
pub proof fn usual_protocols(
    m: &mut SleProtoRegistry,
    a: SleProtoEntry,
    b: SleProtoEntry,
    c: SleProtoEntry,
    d: SleProtoEntry,
)
    requires
        call_ensures(sle_transport::register_builtin_protos, (m,), ()),
        call_ensures(sle_transport::h4_uart_proto, (), a),
        call_ensures(sle_transport::usb_bulk_proto, (), b),
        call_ensures(sle_transport::spi_reg_proto, (), c),
        call_ensures(sle_transport::virtual_proto, (), d),
    ensures
        old(m)@[0] is None ==> final(m)@[0] == Some(a),
        old(m)@[1] is None ==> final(m)@[1] == Some(b),
        old(m)@[2] is None ==> final(m)@[2] == Some(c),
        old(m)@[3] is None ==> final(m)@[3] == Some(d),
        forall|i: int| 0 <= i < 8 && #[trigger] old(m)@[i] is Some ==> final(m)@[i] == old(m)@[i],
        a.id == SleProtoId::H4Uart && a.bus == SleBus::Uart && a.init_speed == 115_200
            && a.oper_speed == 1_000_000 && a.max_pdu == 255,
        b.id == SleProtoId::UsbBulk && b.bus == SleBus::Usb && b.max_pdu == 255,
        c.id == SleProtoId::Spi && c.bus == SleBus::Spi && c.max_pdu == 255,
        d.id == SleProtoId::Virtual && d.bus == SleBus::Virtual && d.max_pdu == 255,
        a.id.code() == 0 && b.id.code() == 1 && c.id.code() == 2 && d.id.code() == 3,
{
    assert forall|i: int| 0 <= i < 8 && #[trigger] m@[i] is Some implies final(m)@[i]
        == m@[i] by {
        assert(final(m)@[i] == final(m)@[i]);
    }
}

/// What a device left open is taken from its protocol, or else from a controller of which
/// nothing is known.
pub proof fn open_points_are_filled(i: &SleAttachInfo, p: &SleProtoEntry, r: SleControllerInfo)
    requires
        call_ensures(SleAttachInfo::controller_info, (i, p), r),
    ensures
        r.bus == p.bus && r.addr == i.addr,
        r.fw_version == i.fw_version && r.features == i.features,
        r.max_pdu_payload == (if i.max_pdu == 0 {
            p.max_pdu
        } else {
            i.max_pdu
        }),
        r.max_connections == (if i.max_connections == 0 {
            1
        } else {
            i.max_connections
        }),
        r.max_mtu == 247 && r.max_mps == 247,
{
}

/// A device is bound once, under its number, and found there until it is taken out.
pub proof fn devices_are_bound(
    a: &mut SleBindingTable,
    b: &mut SleBindingTable,
    c: &SleBindingTable,
    d: SleDevBinding,
    id: u16,
    r: Result<(), Errno>,
    s: Option<SleDevBinding>,
    g: Option<&SleDevBinding>,
    i: int,
)
    requires
        call_ensures(SleBindingTable::insert, (a, d), r),
        call_ensures(SleBindingTable::remove, (b, id), s),
        call_ensures(SleBindingTable::get, (c, id), g),
        0 <= i < 16,
    ensures
        r is Ok <==> d.dev_id < 16 && old(a)@[d.dev_id as int] is None,
        r is Ok ==> final(a)@[d.dev_id as int] == Some(d),
        r is Ok && i != d.dev_id ==> final(a)@[i] == old(a)@[i],
        r is Err ==> final(a)@ == old(a)@ && r->Err_0 == (if d.dev_id < 16 {
            Errno::EEXIST
        } else {
            Errno::ENOMEM
        }),
        id < 16 ==> s == old(b)@[id as int] && final(b)@[id as int] is None,
        id >= 16 ==> s is None && final(b)@ == old(b)@,
        i != id ==> final(b)@[i] == old(b)@[i],
        g is Some <==> id < 16 && c@[id as int] is Some,
        g matches Some(x) ==> c@[id as int] == Some(*x),
{
}

/// Controllers on a serial line and behind SPI answer each command once; a serial frame takes
/// at most 255 bytes of parameters.
pub proof fn hardware_answers(
    u: &mut UartController,
    p: &mut SpiController,
    op: SleOpcode,
    params: &[u8],
    r: Result<(), Errno>,
    s: Result<(), Errno>,
)
    requires
        call_ensures(<UartController as SleController>::send_command, (u, op, params), r),
        call_ensures(<SpiController as SleController>::send_command, (p, op, params), s),
    ensures
        r is Ok <==> params@.len() <= 255,
        r is Err ==> r->Err_0 == Errno::EINVAL && final(u).events() == old(u).events(),
        r is Ok ==> answered(old(u).events(), final(u).events(), op),
        final(u).is_open() == old(u).is_open(),
        s is Ok && answered(old(p).events(), final(p).events(), op),
        final(p).is_open() == old(p).is_open() && final(p).addr() == old(p).addr(),
{
    if r is Ok {
        is_answered(u.events(), op, final(u).events());
    }
    is_answered(p.events(), op, final(p).events());
}

/// Controllers on a serial line and behind SPI open once, close, and hand out their events in
/// order.
pub proof fn hardware_life(
    a: &mut UartController,
    b: &mut SpiController,
    c: &mut UartController,
    d: &mut SpiController,
    e: &mut UartController,
    f: &mut SpiController,
    r: Result<(), Errno>,
    s: Result<(), Errno>,
    x: Option<SleEvent>,
    y: Option<SleEvent>,
)
    requires
        call_ensures(<UartController as SleController>::open, (a,), r),
        call_ensures(<SpiController as SleController>::open, (b,), s),
        call_ensures(<UartController as SleController>::close, (c,), ()),
        call_ensures(<SpiController as SleController>::close, (d,), ()),
        call_ensures(<UartController as SleController>::poll_event, (e,), x),
        call_ensures(<SpiController as SleController>::poll_event, (f,), y),
    ensures
        final(a).is_open() && (r is Ok <==> !old(a).is_open()),
        final(b).is_open() && (s is Ok <==> !old(b).is_open()),
        r is Err ==> r->Err_0 == Errno::EBUSY,
        s is Err ==> s->Err_0 == Errno::EBUSY,
        !final(c).is_open() && !final(d).is_open(),
        x is Some <==> old(e).events().len() > 0,
        y is Some <==> old(f).events().len() > 0,
        x is Some ==> x->0 == old(e).events()[0] && final(e).events() == old(e).events().skip(1),
        y is Some ==> y->0 == old(f).events()[0] && final(f).events() == old(f).events().skip(1),
{
    if x is Some {
        assert(final(e).events() =~= e.events().skip(1));
    }
    if y is Some {
        assert(final(f).events() =~= f.events().skip(1));
    }
}

/// Controllers are made closed, without events, on the bus and under the address they are
/// given.
pub proof fn backends_are_made(
    addr: [u8; 6],
    u: crate::sle_uart::UartConfig,
    p: crate::sle_spi::SpiConfig,
    a: ControllerBackend,
    b: ControllerBackend,
    c: ControllerBackend,
)
    requires
        call_ensures(ControllerBackend::new_virtual, (addr,), a),
        call_ensures(ControllerBackend::new_uart, (addr, u), b),
        call_ensures(ControllerBackend::new_spi, (addr, p), c),
    ensures
        a is Virtual && b is Uart && c is Spi,
        a.addr() == addr@ && b.addr() == addr@ && c.addr() == addr@,
        !a.is_open() && !b.is_open() && !c.is_open(),
        a.events().len() == 0 && b.events().len() == 0 && c.events().len() == 0,
        b->Uart_0.line() == u,
        c->Spi_0.bus() == p,
{
}

/// What a controller on USB says of itself.
pub proof fn usb_controller_tells(
    addr: [u8; 6],
    id: u16,
    c: crate::sle_usb::UsbController,
    d: u16,
    i: SleControllerInfo,
)
    requires
        call_ensures(crate::sle_usb::UsbController::new, (addr, id), c),
        call_ensures(crate::sle_usb::UsbController::dev_id, (&c,), d),
        call_ensures(crate::sle_usb::UsbController::info, (&c,), i),
    ensures
        d == id,
        i.addr@ == addr@ && i.bus == SleBus::Usb,
        named(i.name@, "sparklink-usb"@),
        i.max_connections == 8 && i.max_pdu_payload == 255 && i.max_mtu == 512 && i.max_mps == 255,
        i.fw_version == 0 && i.features == 0x4_2903,
        i.transport_modes == 7 && i.measurement_cap == 3 && i.security_cap == 0x19,
{
    reveal_strlit("sparklink-usb");
    assert(i.name@.take(13) =~= ascii("sparklink-usb"@));
    assert(0x1u64 | 0x2 | 0x4_0000 | 0x100 | 0x800 | 0x2000 == 0x4_2903 && 1u8 | 2 | 4 == 7 && 1u8
        | 2 == 3 && 1u16 | 8 | 16 == 0x19) by (bit_vector);
}

proof fn held_len<T>(s: Seq<Option<T>>)
    ensures
        crate::slots::held(s).len() == s.filter(|x: Option<T>| x is Some).len(),
    decreases s.len(),
{
    reveal(Seq::filter);
    if s.len() > 0 {
        held_len(s.drop_last());
    }
}

/// Protocols and devices that are bound are counted.
pub proof fn tables_are_counted(
    n: SleProtoRegistry,
    m: SleBindingTable,
    a: &SleProtoRegistry,
    b: &SleBindingTable,
    x: u8,
    y: u8,
)
    requires
        call_ensures(SleProtoRegistry::new, (), n),
        call_ensures(SleBindingTable::new, (), m),
        call_ensures(SleProtoRegistry::count, (a,), x),
        call_ensures(SleBindingTable::count, (b,), y),
    ensures
        forall|i: int| 0 <= i < 8 ==> #[trigger] n@[i] is None,
        forall|i: int| 0 <= i < 16 ==> #[trigger] m@[i] is None,
        x == a@.filter(|e: Option<SleProtoEntry>| e is Some).len(),
        y == b@.filter(|e: Option<SleDevBinding>| e is Some).len(),
{
    held_len(a@);
    held_len(b@);
}

/// A device that is bound is found for changing, and stays as it is left.
pub proof fn bound_device_is_changed(
    b: &mut SleBindingTable,
    id: u16,
    r: Option<&mut SleDevBinding>,
    i: int,
)
    requires
        call_ensures(SleBindingTable::get_mut, (b, id), r),
        0 <= i < 16,
    ensures
        r is Some <==> id < 16 && old(b)@[id as int] is Some,
        i != id ==> final(b)@[i] == old(b)@[i],
        r is None ==> final(b)@ == old(b)@,
{
}

} // verus!
