//! Laws of devices, of saving power and of private addresses.

use vstd::prelude::*;

use crate::errno::Errno;
use crate::sle_crypto;
use crate::sle_dev::{SleDev, SleDevRegistry};
use crate::sle_dli::SleControllerInfo;
use crate::sle_power::{ConnInterval, PowerInner, PowerState};
use crate::sle_rpa::{RalEntry, RpaManager};
use crate::slots;

verus! {

/// A timing is within its limits: intervals of 6 to 3200 units, a time-out of 10 to 3200 units
/// that leaves room for the events that may be skipped.
pub proof fn timing_limits(c: &ConnInterval, r: Result<(), Errno>)
    requires
        call_ensures(ConnInterval::validate, (c,), r),
    ensures
        r is Ok <==> 6 <= c.min_interval && c.min_interval <= c.max_interval && c.max_interval
            <= 3200 && 10 <= c.supervision_timeout <= 3200 && 4 * c.supervision_timeout > (1
            + c.latency) * c.max_interval,
        r is Err ==> r->Err_0 == Errno::EINVAL,
{
    let x = (1 + c.latency) * c.max_interval;
    assert((1 + c.latency) * c.max_interval * 2 == 2 * x);
}

/// Units of a timing: 1.25 ms for intervals, 10 ms for the time-out.
pub proof fn timing_units(c: &ConnInterval, a: u32, b: u32)
    requires
        call_ensures(ConnInterval::current_ms, (c,), a),
        call_ensures(ConnInterval::supervision_timeout_ms, (c,), b),
    ensures
        4 * a <= 5 * c.current_interval < 4 * a + 4,
        b == 10 * c.supervision_timeout,
{
}

/// A timing within its limits is taken over, with its shortest interval in use.
pub proof fn timing_is_taken(
    p: &mut PowerInner,
    c: ConnInterval,
    r: Result<(), Errno>,
    v: Result<(), Errno>,
)
    requires
        call_ensures(PowerInner::update_interval, (p, c), r),
        call_ensures(ConnInterval::validate, (&c,), v),
    ensures
        r is Ok <==> v is Ok,
        r is Ok ==> final(p).interval.current_interval == c.min_interval
            && final(p).interval.min_interval == c.min_interval && final(p).interval.max_interval
            == c.max_interval && final(p).interval.latency == c.latency
            && final(p).interval.supervision_timeout == c.supervision_timeout && final(p).state
            == old(p).state,
        r is Err ==> r->Err_0 == Errno::EINVAL && *final(p) == *old(p),
{
}

/// Without traffic a connection that is not held active begins its windows once its first
/// limit is reached, and is idle once both are; a sleeping one stays asleep.
pub proof fn silence_saves_power(p: &mut PowerInner)
    requires
        call_ensures(PowerInner::on_tick, (p,), ()),
        p.countable(),
    ensures
        old(p).state == PowerState::Suspended ==> *final(p) == *old(p),
        old(p).state != PowerState::Suspended ==> final(p).idle_count == old(p).idle_count + 1,
        old(p).state == PowerState::Active ==> final(p).state == (if !old(p).forced && old(p).idle_count + 1 >= old(p).sniff_threshold {
            PowerState::Sniff
        } else {
            PowerState::Active
        }) && final(p).stats.active_events == old(p).stats.active_events + 1,
        old(p).state == PowerState::Sniff ==> final(p).state == (if old(p).idle_count + 1 >= old(p).sniff_threshold + old(p).idle_threshold {
            PowerState::Idle
        } else {
            PowerState::Sniff
        }) && final(p).stats.sniff_events == old(p).stats.sniff_events + 1,
        old(p).state == PowerState::Idle ==> final(p).state == PowerState::Idle
            && final(p).stats.idle_events == old(p).stats.idle_events + 1,
        final(p).stats.transitions == old(p).stats.transitions + (if final(p).state != old(p).state {
            1int
        } else {
            0
        }),
        final(p).forced == old(p).forced,
{
}

/// Traffic wakes a connection that is not held active, and the count of silence starts anew.
pub proof fn traffic_wakes(p: &mut PowerInner)
    requires
        call_ensures(PowerInner::on_activity, (p,), ()),
        p.countable(),
    ensures
        final(p).idle_count == 0,
        !old(p).forced ==> final(p).state == PowerState::Active,
        old(p).forced ==> final(p).state == old(p).state,
        final(p).stats.active_events == old(p).stats.active_events + 1,
        final(p).stats.transitions == old(p).stats.transitions + (if final(p).state != old(p).state {
            1int
        } else {
            0
        }),
{
}

/// A connection that is held active is active and cannot be put to sleep.
pub proof fn held_active(
    p: &mut PowerInner,
    q: &mut PowerInner,
    r: Result<(), Errno>,
)
    requires
        call_ensures(PowerInner::force_active, (p, true), ()),
        p.countable(),
        *q == *final(p),
        call_ensures(PowerInner::suspend, (q,), r),
    ensures
        final(p).state == PowerState::Active,
        final(p).forced,
        final(p).stats.force_active_count == old(p).stats.force_active_count + 1,
        r == Err::<(), Errno>(Errno::EBUSY),
        *final(q) == *old(q),
{
}

/// A connection that is let go of stays in its state.
pub proof fn let_go(p: &mut PowerInner)
    requires
        call_ensures(PowerInner::force_active, (p, false), ()),
    ensures
        !final(p).forced,
        final(p).state == old(p).state,
        final(p).stats == old(p).stats,
{
}

/// Sleep and waking.
pub proof fn sleep_and_wake(p: &mut PowerInner, q: &mut PowerInner, r: Result<(), Errno>)
    requires
        call_ensures(PowerInner::suspend, (p,), r),
        p.countable(),
        !p.forced,
        call_ensures(PowerInner::resume, (q,), ()),
        q.countable(),
    ensures
        r is Ok,
        final(p).state == PowerState::Suspended,
        final(q).state == PowerState::Active,
        final(q).idle_count == 0,
        final(q).forced == old(q).forced,
{
}

/// The more a connection sleeps, the less power it takes.
pub proof fn power_estimate(p: &PowerInner, r: u8)
    requires
        call_ensures(PowerInner::estimated_power_pct, (p,), r),
    ensures
        p.state == PowerState::Active ==> r == 100,
        p.state == PowerState::Sniff ==> r == 30,
        p.state == PowerState::Idle ==> r == 5,
        p.state == PowerState::Suspended ==> r == 0,
{
}

/// Flags are set and cleared alone.
pub proof fn flags_alone(
    a: &mut SleDev,
    b: &mut SleDev,
    c: &SleDev,
    f: u32,
    g: u32,
    x: u32,
    y: u32,
    t: bool,
)
    requires
        call_ensures(SleDev::set_flag, (a, f), x),
        call_ensures(SleDev::clear_flag, (b, f), y),
        call_ensures(SleDev::test_flag, (c, f), t),
        f & g == 0,
    ensures
        x == old(a).flags && y == old(b).flags,
        final(a).flags & f == f,
        final(a).flags & g == old(a).flags & g,
        final(b).flags & f == 0,
        final(b).flags & g == old(b).flags & g,
        t == (c.flags & f != 0),
        final(a).id == old(a).id && final(a).addr == old(a).addr,
{
    let p = a.flags;
    let q = b.flags;
    assert((p | f) & f == f) by (bit_vector);
    assert((p | f) & g == p & g) by (bit_vector)
        requires
            f & g == 0,
    ;
    assert((q & !f) & f == 0) by (bit_vector);
    assert((q & !f) & g == q & g) by (bit_vector)
        requires
            f & g == 0,
    ;
}

/// A device is ready when it is up and neither being taken out nor suspended.
pub proof fn ready_devices(
    a: &mut SleDev,
    b: &mut SleDev,
    x: bool,
    y: bool,
    c: &SleDev,
    d: &SleDev,
    e: &SleDev,
    z: bool,
)
    requires
        call_ensures(SleDev::setup_complete, (a,), ()),
        *c == *final(a),
        call_ensures(SleDev::is_up, (c,), x),
        call_ensures(SleDev::begin_unregister, (b,), ()),
        *d == *final(b),
        call_ensures(SleDev::is_up, (d,), y),
        call_ensures(SleDev::is_up, (e,), z),
    ensures
        old(a).flags & 0x88 == 0 ==> x,
        final(a).flags & 0x04 == 0,
        final(a).flags & 0x01 == 1,
        !y,
        final(b).flags & 0x08 == 0x08,
        z == (e.flags & 0x02 != 0 && e.flags & 0x88 == 0),
{
    let p = a.flags;
    let q = b.flags;
    let w = e.flags;
    assert(0x08u32 | 0x80 == 0x88 && 0x02u32 | 0x01 == 0x03) by (bit_vector);
    let up = (p & !0x04) | 0x03;
    assert(up & 0x04 == 0 && up & 0x01 == 1 && up & 0x02 != 0 && (p & 0x88 == 0 ==> up & 0x88 == 0))
        by (bit_vector)
        requires
            up == (p & !0x04) | 0x03,
    ;
    assert(((q | 0x08) & !0x02) & 0x02 == 0 && ((q | 0x08) & !0x02) & 0x08 == 0x08) by (bit_vector);
}

/// A device goes to the free place of the lowest number, where it is found until it is taken
/// out.
pub proof fn device_is_registered(
    s: &mut SleDevRegistry,
    info: &SleControllerInfo,
    r: Result<u16, Errno>,
    i: int,
)
    requires
        call_ensures(SleDevRegistry::register, (s, info), r),
        0 <= i < 16,
    ensures
        r matches Ok(id) ==> {
            &&& id < 16
            &&& old(s)@[id as int] is None
            &&& i < id ==> old(s)@[i] is Some
            &&& i != id ==> final(s)@[i] == old(s)@[i]
            &&& final(s)@[id as int] matches Some(d) && d.id == id && d.addr@ == info.addr@ && d.bus
                == info.bus && d.features == info.features && d.fw_version == info.fw_version
                && d.max_connections == info.max_connections && d.flags == 0x03
        },
        r is Err ==> r->Err_0 == Errno::ENOSPC && final(s)@ == old(s)@ && old(s)@[i] is Some,
{
    s.size();
    assert((0x04u32 & !0x04u32) | (0x02u32 | 0x01u32) == 0x03) by (bit_vector);
    if r is Ok {
        let id = r->Ok_0 as int;
        assert(crate::sle_dev::first_free(s@, id));
        if i < id {
            assert(s@[i] is Some);
        }
    } else {
        assert(s@[i] is Some);
    }
}

/// A device is taken out by its number.
pub proof fn device_is_taken_out(s: &mut SleDevRegistry, id: u16, r: Result<(), Errno>, i: int)
    requires
        call_ensures(SleDevRegistry::unregister, (s, id), r),
        0 <= i < 16,
    ensures
        r is Ok <==> id < 16 && old(s)@[id as int] is Some,
        r is Ok ==> final(s)@[id as int] is None,
        i != id ==> final(s)@[i] == old(s)@[i],
        r is Err ==> r->Err_0 == Errno::ENODEV && final(s)@ == old(s)@,
{
    s.size();
}

/// Devices are found by their numbers, and counted.
pub proof fn devices_are_found(s: &SleDevRegistry, id: u16, r: Option<&SleDev>, n: usize)
    requires
        call_ensures(SleDevRegistry::get, (s, id), r),
        call_ensures(SleDevRegistry::count, (s,), n),
    ensures
        r is Some <==> id < 16 && s@[id as int] is Some,
        r matches Some(d) ==> s@[id as int] == Some(*d),
        n <= 16,
        r is Some ==> n > 0,
{
    s.size();
    slots::taken_bounds(s@, 16);
    if r is Some {
        slots::taken_update(s@, id as int, None, 16);
    }
}

/// What the hardware tells of a device is kept.
pub proof fn hardware_is_known(s: &mut SleDevRegistry, id: u16, addr: [u8; 6], fw: u32, i: int)
    requires
        call_ensures(SleDevRegistry::update_hw_info, (s, id, addr, fw), ()),
        0 <= i < 16,
    ensures
        i != id ==> final(s)@[i] == old(s)@[i],
        i == id && old(s)@[i] is None ==> final(s)@[i] is None,
        i == id && old(s)@[i] is Some ==> final(s)@[i] is Some && (final(s)@[i]->0).addr@ == addr@
            && (final(s)@[i]->0).fw_version == fw && (final(s)@[i]->0).flags == (old(s)@[i]->0).flags,
{
    s.size();
}

/// A private address: three bytes of the keyed hash of the other three, which are the start
/// of the hash of the key with the top bits of their first byte set to 01.
pub proof fn private_address<H: Fn(&[u8]) -> [u8; 32], M: Fn(&[u8], &[u8]) -> [u8; 32]>(
    irk: &[u8; 16],
    hash: H,
    mac: M,
    r: [u8; 6],
)
    requires
        call_ensures(RpaManager::generate_rpa::<H, M>, (irk, hash, mac), r),
    ensures
        r@[3] / 64 == 1,
        exists|s: &[u8], d: [u8; 32], k: &[u8], t: &[u8], m: [u8; 32]|
            {
                &&& s@ == irk@
                &&& #[trigger] call_ensures(hash, (s,), d)
                &&& k@ == irk@
                &&& t@ == r@.skip(3)
                &&& #[trigger] call_ensures(mac, (k, t), m)
                &&& r@.take(3) == m@.take(3)
                &&& r@[3] % 64 == d@[0] % 64
                &&& r@[4] == d@[1]
                &&& r@[5] == d@[2]
            },
{
    let (dd, mm) = choose|dd: Seq<u8>, mm: Seq<u8>|
        #[trigger] sle_crypto::hash_gives(hash, irk@, dd) && #[trigger] sle_crypto::mac_gives(
            mac,
            irk@,
            crate::sle_rpa::prand(dd),
            mm,
        ) && r@ == mm.take(3) + crate::sle_rpa::prand(dd);
    let (s, d) = choose|s: &[u8], d: [u8; 32]|
        s@ == irk@ && #[trigger] call_ensures(hash, (s,), d) && d@ == dd;
    let (k, t, m) = choose|k: &[u8], t: &[u8], m: [u8; 32]|
        k@ == irk@ && t@ == crate::sle_rpa::prand(dd) && #[trigger] call_ensures(mac, (k, t), m)
            && m@ == mm;
    assert(r@.skip(3) =~= crate::sle_rpa::prand(dd));
    assert(r@.take(3) =~= m@.take(3));
    assert(call_ensures(hash, (s,), d) && call_ensures(mac, (k, t), m));
}

/// A peer is listed once, and the list is not changed while addresses are resolved.
pub proof fn peer_is_listed(m: &mut RpaManager, e: RalEntry, r: Result<(), Errno>)
    requires
        call_ensures(RpaManager::ral_add, (m, e), r),
    ensures
        old(m)@.enabled ==> r == Err::<(), Errno>(Errno::EBUSY),
        !old(m)@.enabled && old(m)@.entries.len() >= 8 ==> r == Err::<(), Errno>(Errno::ENOMEM),
        !old(m)@.enabled && old(m)@.entries.len() < 8 ==> ((r is Err) == (exists|i: int|
            0 <= i < old(m)@.entries.len() && (#[trigger] old(m)@.entries[i]).peer_id_type
                == e.peer_id_type && old(m)@.entries[i].peer_id@ == e.peer_id@)),
        !old(m)@.enabled && old(m)@.entries.len() < 8 && r is Err ==> r->Err_0 == Errno::EEXIST,
        r is Err ==> final(m)@ == old(m)@,
        r is Ok ==> final(m)@.entries == old(m)@.entries.push(e) && final(m)@.enabled == old(m)@.enabled,
{
    let s = m@.entries;
    if exists|i: int|
        0 <= i < s.len() && (#[trigger] s[i]).peer_id_type == e.peer_id_type && s[i].peer_id@
            == e.peer_id@ {
        let i = choose|i: int|
            0 <= i < s.len() && (#[trigger] s[i]).peer_id_type == e.peer_id_type && s[i].peer_id@
                == e.peer_id@;
        assert(crate::sle_rpa::is_peer(s[i], e.peer_id_type, e.peer_id@));
    }
}

/// A peer that was taken out is not listed, and one fewer is.
pub proof fn peer_is_taken_out(
    m: &mut RpaManager,
    ty: u8,
    id: &[u8; 6],
    r: Result<(), Errno>,
    i: int,
)
    requires
        call_ensures(RpaManager::ral_remove, (m, ty, id), r),
        !m@.enabled,
        0 <= i < m@.entries.len(),
        m@.entries[i].peer_id_type == ty,
        m@.entries[i].peer_id@ == id@,
    ensures
        r is Ok,
        final(m)@.entries.len() == old(m)@.entries.len() - 1,
        forall|j: int|
            0 <= j < final(m)@.entries.len() ==> (#[trigger] final(m)@.entries[j]).peer_id_type
                != ty || final(m)@.entries[j].peer_id@ != id@,
{
    assert(crate::sle_rpa::is_peer(m@.entries[i], ty, id@));
    assert forall|j: int| 0 <= j < final(m)@.entries.len() implies (
    #[trigger] final(m)@.entries[j]).peer_id_type != ty || final(m)@.entries[j].peer_id@
        != id@ by {
        if final(m)@.entries[j].peer_id_type == ty && final(m)@.entries[j].peer_id@ == id@ {
            assert(crate::sle_rpa::is_peer(final(m)@.entries[j], ty, id@));
        }
    }
}

/// At first no peer is listed, no address is resolved, and the timeout is zero.
pub proof fn list_at_start(m: RpaManager)
    requires
        call_ensures(RpaManager::new, (), m),
    ensures
        m@.entries.len() == 0,
        !m@.enabled,
        m@.timeout_secs == 0,
{
}

/// While addresses are resolved the list cannot be changed; settings hold until they are set
/// again.
pub proof fn list_settings(
    a: &mut RpaManager,
    b: &mut RpaManager,
    c: &mut RpaManager,
    on: bool,
    secs: u16,
    r: Result<(), Errno>,
)
    requires
        call_ensures(RpaManager::set_enabled, (a, on), ()),
        call_ensures(RpaManager::set_timeout, (b, secs), ()),
        call_ensures(RpaManager::ral_clear, (c,), r),
    ensures
        final(a)@.enabled == on && final(a)@.entries == old(a)@.entries,
        final(b)@.timeout_secs == secs && final(b)@.entries == old(b)@.entries,
        r is Err <==> old(c)@.enabled,
        r is Err ==> r->Err_0 == Errno::EBUSY && final(c)@ == old(c)@,
        r is Ok ==> final(c)@.entries.len() == 0,
{
}

/// Whether an address was made of a key: its upper half holds the start of the hash of the
/// key, marked by its top bits, and its lower half the start of the keyed hash of that.
pub open spec fn made_of<H: Fn(&[u8]) -> [u8; 32], M: Fn(&[u8], &[u8]) -> [u8; 32]>(
    hash: H,
    mac: M,
    irk: Seq<u8>,
    r: Seq<u8>,
) -> bool {
    exists|d: Seq<u8>, m: Seq<u8>|
        {
            &&& #[trigger] crate::laws::pairing::hashed(hash, irk, d)
            &&& #[trigger] crate::laws::pairing::keyed(mac, irk, r.skip(3), m)
            &&& r.take(3) == m.take(3)
            &&& r[3] == 64 + d[0] % 64
            &&& r[4] == d[1]
            &&& r[5] == d[2]
        }
}

proof fn is_made_of<H: Fn(&[u8]) -> [u8; 32], M: Fn(&[u8], &[u8]) -> [u8; 32]>(
    hash: H,
    mac: M,
    irk: Seq<u8>,
    r: Seq<u8>,
)
    requires
        crate::sle_rpa::rpa_of(hash, mac, irk, r),
    ensures
        made_of(hash, mac, irk, r),
{
    let (dd, mm) = choose|dd: Seq<u8>, mm: Seq<u8>|
        #[trigger] sle_crypto::hash_gives(hash, irk, dd) && #[trigger] sle_crypto::mac_gives(
            mac,
            irk,
            crate::sle_rpa::prand(dd),
            mm,
        ) && r == mm.take(3) + crate::sle_rpa::prand(dd);
    let (s, d) = choose|s: &[u8], d: [u8; 32]|
        s@ == irk && #[trigger] call_ensures(hash, (s,), d) && d@ == dd;
    let (k, t, m) = choose|k: &[u8], t: &[u8], m: [u8; 32]|
        k@ == irk && t@ == crate::sle_rpa::prand(dd) && #[trigger] call_ensures(mac, (k, t), m)
            && m@ == mm;
    assert(r.skip(3) =~= crate::sle_rpa::prand(dd));
    assert(r.take(3) =~= mm.take(3));
    assert(call_ensures(hash, (s,), d) && call_ensures(mac, (k, t), m));
    assert(crate::laws::pairing::hashed(hash, irk, dd));
    assert(crate::laws::pairing::keyed(mac, irk, r.skip(3), mm));
}

/// The private address of a peer is made of the key of that peer.
pub proof fn address_of_peer<H: Fn(&[u8]) -> [u8; 32], M: Fn(&[u8], &[u8]) -> [u8; 32]>(
    l: &RpaManager,
    ty: u8,
    id: &[u8; 6],
    hash: H,
    mac: M,
    r: Result<[u8; 6], Errno>,
    i: int,
)
    requires
        call_ensures(RpaManager::read_peer_rpa::<H, M>, (l, ty, id, hash, mac), r),
        0 <= i < l@.entries.len(),
        l@.entries[i].peer_id_type == ty,
        l@.entries[i].peer_id@ == id@,
        crate::sle_rpa::distinct(l@.entries),
    ensures
        r matches Ok(a) && made_of(hash, mac, l@.entries[i].peer_irk@, a@),
{
    let s = l@.entries;
    assert(crate::sle_rpa::is_peer(s[i], ty, id@));
    let k = crate::sle_rpa::place(s, ty, id@);
    assert(crate::sle_rpa::is_peer(s[k], ty, id@));
    if k < i {
        assert(!crate::sle_rpa::is_peer(s[k], s[i].peer_id_type, s[i].peer_id@));
    } else if i < k {
        assert(!crate::sle_rpa::is_peer(s[i], s[k].peer_id_type, s[k].peer_id@));
    }
    is_made_of(hash, mac, s[i].peer_irk@, (r->Ok_0)@);
}

/// The private address of this side towards a peer is made of its own key for that peer.
pub proof fn address_towards_peer<H: Fn(&[u8]) -> [u8; 32], M: Fn(&[u8], &[u8]) -> [u8; 32]>(
    l: &RpaManager,
    ty: u8,
    id: &[u8; 6],
    hash: H,
    mac: M,
    r: Result<[u8; 6], Errno>,
    i: int,
)
    requires
        call_ensures(RpaManager::read_local_rpa::<H, M>, (l, ty, id, hash, mac), r),
        0 <= i < l@.entries.len(),
        l@.entries[i].peer_id_type == ty,
        l@.entries[i].peer_id@ == id@,
        crate::sle_rpa::distinct(l@.entries),
    ensures
        r matches Ok(a) && made_of(hash, mac, l@.entries[i].local_irk@, a@),
{
    let s = l@.entries;
    assert(crate::sle_rpa::is_peer(s[i], ty, id@));
    let k = crate::sle_rpa::place(s, ty, id@);
    assert(crate::sle_rpa::is_peer(s[k], ty, id@));
    if k < i {
        assert(!crate::sle_rpa::is_peer(s[k], s[i].peer_id_type, s[i].peer_id@));
    } else if i < k {
        assert(!crate::sle_rpa::is_peer(s[i], s[k].peer_id_type, s[k].peer_id@));
    }
    is_made_of(hash, mac, s[i].local_irk@, (r->Ok_0)@);
}

/// A peer that is not listed has no private address here; towards it the key of the first
/// entry serves.
pub proof fn address_of_stranger<H: Fn(&[u8]) -> [u8; 32], M: Fn(&[u8], &[u8]) -> [u8; 32]>(
    l: &RpaManager,
    ty: u8,
    id: &[u8; 6],
    hash: H,
    mac: M,
    r: Result<[u8; 6], Errno>,
    s: Result<[u8; 6], Errno>,
)
    requires
        call_ensures(RpaManager::read_peer_rpa::<H, M>, (l, ty, id, hash, mac), r),
        call_ensures(RpaManager::read_local_rpa::<H, M>, (l, ty, id, hash, mac), s),
        forall|i: int|
            0 <= i < l@.entries.len() ==> !((#[trigger] l@.entries[i]).peer_id_type == ty
                && l@.entries[i].peer_id@ == id@),
    ensures
        r is Err && r->Err_0 == Errno::ENOENT,
        s is Err <==> l@.entries.len() == 0,
        s is Err ==> s->Err_0 == Errno::ENOENT,
        s matches Ok(a) ==> made_of(hash, mac, l@.entries[0].local_irk@, a@),
{
    if s is Ok {
        is_made_of(hash, mac, l@.entries[0].local_irk@, (s->Ok_0)@);
    }
}

/// A list starts empty and tells its settings.
pub proof fn list_tells(n: RpaManager, l: &RpaManager, a: u8, b: bool, c: u16)
    requires
        call_ensures(RpaManager::new, (), n),
        call_ensures(RpaManager::ral_size, (l,), a),
        call_ensures(RpaManager::is_enabled, (l,), b),
        call_ensures(RpaManager::timeout, (l,), c),
    ensures
        n@.entries.len() == 0 && !n@.enabled,
        a == l@.entries.len() && b == l@.enabled && c == l@.timeout_secs,
{
}

/// A fresh connection is active, and saves power after 50 and 250 silent events.
pub proof fn power_at_start(r: PowerInner, p: &mut PowerInner, s: crate::sle_power::SniffParams, q: &PowerInner, f: bool)
    requires
        call_ensures(PowerInner::new, (), r),
        call_ensures(PowerInner::set_sniff_params, (p, s), ()),
        call_ensures(PowerInner::is_forced_active, (q,), f),
    ensures
        r.state == PowerState::Active && !r.forced && r.idle_count == 0,
        r.sniff_threshold == 50 && r.sniff_threshold + r.idle_threshold == 250,
        r.interval.min_interval == 24 && r.interval.max_interval == 40 && r.interval.latency == 0
            && r.interval.supervision_timeout == 200,
        final(p).sniff == s && final(p).state == old(p).state && final(p).interval == old(p).interval,
        f == q.forced,
{
}

/// A device goes by "sle" and its number.
pub proof fn device_is_named(id: u16, info: &SleControllerInfo, d: SleDev, n: &[u8], v: Vec<u8>)
    requires
        call_ensures(SleDev::new, (id, info), d),
        call_ensures(SleDev::name, (&d,), n),
        call_ensures(crate::text::to_digits, (id as u32,), v),
    ensures
        n@ == crate::laws::pairing::ascii("sle"@) + v@,
        d.id == id && d.bus == info.bus && d.addr@ == info.addr@,
        d.flags == 0x04,
{
    reveal_strlit("sle");
    let name = crate::sle_dev::device_name(id);
    assert(name =~= crate::laws::pairing::ascii("sle"@) + v@);
    crate::text::digits_are_digits(id as nat);
    digits_fit(id as nat);
    let k = n@.len() as int;
    assert(d.name@ =~= crate::bytes::padded(name, 16));
    assert(forall|i: int| 0 <= i < name.len() ==> #[trigger] name[i] != 0);
    if k < name.len() {
        assert(d.name@[k] == name[k]);
    } else if k > name.len() {
        assert(d.name@[name.len() as int] == 0);
    }
    assert(n@ =~= name);
}

proof fn digits_fit(n: nat)
    requires
        n <= 0xFFFF,
    ensures
        crate::text::digits(n).len() <= 5,
{
    reveal_with_fuel(crate::text::digits, 6);
}

/// What is known of a device is told as it is.
pub proof fn device_tells(
    d: &SleDev,
    a: u16,
    b: crate::sle_dli::SleBus,
    c: &[u8; 6],
    e: u32,
    f: u64,
    g: u8,
    h: u32,
    m: &mut SleDev,
    addr: [u8; 6],
    fw: u32,
)
    requires
        call_ensures(SleDev::id, (d,), a),
        call_ensures(SleDev::bus, (d,), b),
        call_ensures(SleDev::addr, (d,), c),
        call_ensures(SleDev::fw_version, (d,), e),
        call_ensures(SleDev::features, (d,), f),
        call_ensures(SleDev::max_connections, (d,), g),
        call_ensures(SleDev::flags, (d,), h),
        call_ensures(SleDev::update_hw_info, (m, addr, fw), ()),
    ensures
        a == d.id && b == d.bus && *c == d.addr && e == d.fw_version,
        f == d.features && g == d.max_connections && h == d.flags,
        final(m).addr == addr && final(m).fw_version == fw && final(m).flags == old(m).flags
            && final(m).id == old(m).id,
{
}

proof fn held_is<T>(s: Seq<Option<T>>)
    ensures
        slots::held(s) == s.filter(|x: Option<T>| x is Some).map_values(|x: Option<T>| x->0),
    decreases s.len(),
{
    reveal(Seq::filter);
    let p = |x: Option<T>| x is Some;
    let f = |x: Option<T>| x->0;
    if s.len() > 0 {
        held_is(s.drop_last());
        let prev = s.drop_last().filter(p);
        if p(s.last()) {
            assert(prev.push(s.last()).map_values(f) =~= prev.map_values(f).push(f(s.last())));
        }
    } else {
        assert(s.filter(p).map_values(f) =~= Seq::<T>::empty());
    }
}

/// Devices are listed in the order of their numbers.
pub proof fn devices_are_listed(n: SleDevRegistry, s: &SleDevRegistry, v: Vec<SleDev>)
    requires
        call_ensures(SleDevRegistry::new, (), n),
        call_ensures(SleDevRegistry::iter, (s,), v),
    ensures
        forall|i: int| 0 <= i < 16 ==> #[trigger] n@[i] is None,
        v@ == s@.filter(|x: Option<SleDev>| x is Some).map_values(|x: Option<SleDev>| x->0),
{
    held_is(s@);
}

} // verus!
