//! Laws of services: the database, the messages and the sessions.

use vstd::prelude::*;

use crate::bytes;
use crate::errno::Errno;
use crate::sle_ssap;
use crate::sle_ssap::{
    OpIndicator, PendingNotification, ServiceModel, SsapInner, SsapModel,
};
use crate::ssap_pdu;
use crate::ssap_pdu::{
    EntryCategory, EntryInfo, EntryModel, PduModel, SsapPdu, SsapUuid, UuidModel,
};
use crate::ssap_session;
use crate::ssap_session::{RemoteServiceDb, SsapSession};

verus! {

/// Whether `e` is an entry of the services: a service, or a property, a method or an event of
/// one, with its handle and its UUID.
pub open spec fn is_entry(s: Seq<ServiceModel>, e: EntryModel) -> bool {
    exists|i: int| 0 <= i < s.len() && #[trigger] entry_of(s[i], e)
}

/// Whether `e` is an entry of the service.
pub open spec fn entry_of(s: ServiceModel, e: EntryModel) -> bool {
    ||| e.handle == s.start_handle && e.uuid == s.uuid && e.category == (if s.primary {
        EntryCategory::PrimaryService
    } else {
        EntryCategory::SecondaryService
    })
    ||| e.category == EntryCategory::Property && exists|j: int|
        0 <= j < s.properties.len() && (#[trigger] s.properties[j]).handle == e.handle
            && s.properties[j].uuid == e.uuid
    ||| e.category == EntryCategory::Method && exists|j: int|
        0 <= j < s.methods.len() && (#[trigger] s.methods[j]).handle == e.handle
            && s.methods[j].uuid == e.uuid
    ||| e.category == EntryCategory::Event && exists|j: int|
        0 <= j < s.events.len() && (#[trigger] s.events[j]).handle == e.handle && s.events[j].uuid
            == e.uuid
}

proof fn entries_of_service(s: ServiceModel, e: EntryModel)
    ensures
        sle_ssap::service_entries(s).contains(e) <==> entry_of(s, e),
{
    let all = sle_ssap::service_entries(s);
    let np = s.properties.len() as int;
    let nm = s.methods.len() as int;
    let ne = s.events.len() as int;
    assert(all.len() == 1 + np + nm + ne);
    assert(all[0] == sle_ssap::service_entry(s));
    assert forall|j: int| 0 <= j < np implies all[1 + j] == sle_ssap::property_entry(
        #[trigger] s.properties[j],
    ) by {}
    assert forall|j: int| 0 <= j < nm implies all[1 + np + j] == sle_ssap::method_entry(
        #[trigger] s.methods[j],
    ) by {}
    assert forall|j: int| 0 <= j < ne implies all[1 + np + nm + j] == sle_ssap::event_entry(
        #[trigger] s.events[j],
    ) by {}
    if all.contains(e) {
        let k = choose|k: int| 0 <= k < all.len() && all[k] == e;
        if k == 0 {
        } else if k < 1 + np {
            let j = k - 1;
            assert(all[1 + j] == sle_ssap::property_entry(s.properties[j]));
        } else if k < 1 + np + nm {
            let j = k - 1 - np;
            assert(all[1 + np + j] == sle_ssap::method_entry(s.methods[j]));
        } else {
            let j = k - 1 - np - nm;
            assert(all[1 + np + nm + j] == sle_ssap::event_entry(s.events[j]));
        }
    }
    if entry_of(s, e) {
        if e == sle_ssap::service_entry(s) {
            assert(all[0] == e);
        } else if e.category == EntryCategory::Property {
            let j = choose|j: int|
                0 <= j < s.properties.len() && (#[trigger] s.properties[j]).handle == e.handle
                    && s.properties[j].uuid == e.uuid;
            assert(all[1 + j] == e);
        } else if e.category == EntryCategory::Method {
            let j = choose|j: int|
                0 <= j < s.methods.len() && (#[trigger] s.methods[j]).handle == e.handle
                    && s.methods[j].uuid == e.uuid;
            assert(all[1 + np + j] == e);
        } else {
            let j = choose|j: int|
                0 <= j < s.events.len() && (#[trigger] s.events[j]).handle == e.handle
                    && s.events[j].uuid == e.uuid;
            assert(all[1 + np + nm + j] == e);
        }
    }
}

proof fn entries_of_all(s: Seq<ServiceModel>, e: EntryModel)
    ensures
        sle_ssap::all_entries(s).contains(e) <==> is_entry(s, e),
    decreases s.len(),
{
    if s.len() > 0 {
        let t = s.drop_last();
        entries_of_all(t, e);
        entries_of_service(s.last(), e);
        let a = sle_ssap::all_entries(t);
        let b = sle_ssap::service_entries(s.last());
        let all = sle_ssap::all_entries(s);
        assert(all == a + b);
        if all.contains(e) {
            let k = choose|k: int| 0 <= k < all.len() && all[k] == e;
            if k < a.len() {
                assert(a[k] == e);
                let i = choose|i: int| 0 <= i < t.len() && #[trigger] entry_of(t[i], e);
                assert(s[i] == t[i]);
            } else {
                assert(b[k - a.len()] == e);
                assert(entry_of(s[s.len() - 1], e));
            }
        }
        if is_entry(s, e) {
            let i = choose|i: int| 0 <= i < s.len() && #[trigger] entry_of(s[i], e);
            if i < t.len() {
                assert(entry_of(t[i], e));
                let k = choose|k: int| 0 <= k < a.len() && a[k] == e;
                assert(all[k] == e);
            } else {
                let k = choose|k: int| 0 <= k < b.len() && b[k] == e;
                assert(all[a.len() + k] == e);
            }
        }
    }
}

/// A search over a range of handles finds an entry exactly when it is in the database and its
/// handle lies between the first and the last of the range.
pub proof fn search_is_exact(db: &SsapInner, start: u16, end: u16, r: Vec<EntryInfo>, e: EntryModel)
    requires
        call_ensures(SsapInner::find_in_range, (db, start, end), r),
    ensures
        ssap_pdu::entries_view(r@).contains(e) <==> is_entry(db@.services, e) && start <= e.handle
            <= end,
{
    entries_of_all(db@.services, e);
    sle_ssap::discovery_exact(sle_ssap::all_entries(db@.services), start, end, e);
}

/// The answer to a request for the entries of a range holds an entry exactly when it is in
/// the database and its handle lies in the range; the request changes nothing.
pub proof fn discovery_is_answered(
    s: &mut SsapSession,
    db: &mut SsapInner,
    req: &[u8],
    buf: &mut [u8],
    r: Result<usize, Errno>,
    start: u16,
    end: u16,
    rest: Seq<u8>,
)
    requires
        call_ensures(SsapSession::process_incoming, (s, db, req, buf), r),
        req@ == seq![
            0x04u8,
            (start % 0x100) as u8,
            (start / 0x100) as u8,
            (end % 0x100) as u8,
            (end / 0x100) as u8,
        ] + rest,
    ensures
        final(db)@ == old(db)@,
        final(s)@ == old(s)@,
        exists|es: Seq<EntryModel>| #[trigger]
            ssap_pdu::encoded(
                PduModel::FindStructureRsp { entries: es },
                old(buf)@,
                final(buf)@,
                r,
            ) && (forall|e: EntryModel| #[trigger]
                es.contains(e) <==> is_entry(old(db)@.services, e) && start <= e.handle <= end),
        r matches Ok(n) ==> n > 0 && final(buf)@[0] == 0x05,
{
    let all = sle_ssap::all_entries(db@.services);
    let es = sle_ssap::in_range(all, start, end);
    assert(bytes::le16(req@[1], req@[2]) == start);
    assert(bytes::le16(req@[3], req@[4]) == end);
    assert forall|e: EntryModel| #[trigger] es.contains(e) <==> is_entry(db@.services, e) && start
        <= e.handle <= end by {
        entries_of_all(db@.services, e);
        sle_ssap::discovery_exact(all, start, end, e);
    }
    assert(ssap_pdu::encoded(
        PduModel::FindStructureRsp { entries: es },
        buf@,
        final(buf)@,
        r,
    ));
}

proof fn property_place(db: SsapModel, h: u16, i: int, j: int)
    requires
        db.wf(),
        0 <= i < db.services.len(),
        0 <= j < db.services[i].properties.len(),
        db.services[i].properties[j].handle == h,
    ensures
        sle_ssap::has_prop(db.services, h),
        sle_ssap::prop_pos(db.services, h) == (i, j),
{
    let s = db.services;
    assert forall|b: int| 0 <= b < j implies (#[trigger] s[i].properties[b]).handle != h by {
        if s[i].properties[b].handle == h {
            sle_ssap::property_handles_unique(db, i, j, i, b);
        }
    }
    assert forall|a: int, b: int|
        0 <= a < i && 0 <= b < s[a].properties.len() implies (
    #[trigger] s[a].properties[b]).handle != h by {
        if s[a].properties[b].handle == h {
            sle_ssap::property_handles_unique(db, i, j, a, b);
        }
    }
    assert(sle_ssap::prop_at(s, h, i, j));
    sle_ssap::prop_at_unique(s, h, i, j);
}

/// Whether no property has handle `h`.
pub open spec fn no_property(s: Seq<ServiceModel>, h: u16) -> bool {
    forall|i: int, j: int|
        0 <= i < s.len() && 0 <= j < s[i].properties.len() ==> (
        #[trigger] s[i].properties[j]).handle != h
}

/// A property is read where it allows that.
pub proof fn property_is_read(
    db: &SsapInner,
    h: u16,
    r: Result<Vec<u8>, Errno>,
    i: int,
    j: int,
)
    requires
        call_ensures(SsapInner::read_property, (db, h), r),
        db@.wf(),
    ensures
        no_property(db@.services, h) ==> r is Err && r->Err_0 == Errno::ENOENT,
        0 <= i < db@.services.len() && 0 <= j < db@.services[i].properties.len()
            && db@.services[i].properties[j].handle == h ==> {
            let p = db@.services[i].properties[j];
            &&& p.ops & 1 == 1 ==> r is Ok && r->Ok_0@ == p.value
            &&& p.ops & 1 != 1 ==> r is Err && r->Err_0 == Errno::EACCES
        },
{
    if 0 <= i < db@.services.len() && 0 <= j < db@.services[i].properties.len()
        && db@.services[i].properties[j].handle == h {
        property_place(db@, h, i, j);
    }
    if no_property(db@.services, h) {
        assert(!sle_ssap::has_prop(db@.services, h)) by {
            if sle_ssap::has_prop(db@.services, h) {
                let (a, b) = sle_ssap::prop_pos(db@.services, h);
                assert(sle_ssap::prop_at(db@.services, h, a, b));
                assert(db@.services[a].properties[b].handle == h);
            }
        }
    }
}

/// A property that can be written takes the new value, of at most 512 bytes, and nothing else
/// of the database changes but what the client is to be told: a notification where the
/// property and the client's configuration ask for one, and likewise an indication.
pub proof fn property_is_written(
    db: &mut SsapInner,
    h: u16,
    data: &[u8],
    r: Result<(), Errno>,
    i: int,
    j: int,
)
    requires
        call_ensures(SsapInner::write_property, (db, h, data), r),
        db@.wf(),
    ensures
        data@.len() > 512 ==> r == Err::<(), Errno>(Errno::EINVAL) && final(db)@ == old(db)@,
        data@.len() <= 512 && no_property(old(db)@.services, h) ==> r == Err::<(), Errno>(
            Errno::ENOENT,
        ) && final(db)@ == old(db)@,
        data@.len() <= 512 && 0 <= i < old(db)@.services.len() && 0 <= j
            < old(db)@.services[i].properties.len() && old(db)@.services[i].properties[j].handle
            == h ==> {
            let p = old(db)@.services[i].properties[j];
            let q = final(db)@.services[i].properties[j];
            let n = old(db)@.notifications;
            let m = final(db)@.notifications;
            let ntf = p.ops & 8 == 8 && p.client_cfg & 1 != 0;
            let ind = p.ops & 16 == 16 && p.client_cfg & 2 != 0;
            &&& r is Ok <==> p.ops & 4 == 4 || p.ops & 2 == 2
            &&& r is Err ==> r->Err_0 == Errno::EACCES && final(db)@ == old(db)@
            &&& r is Ok ==> {
                &&& q.value == data@
                &&& q.handle == h && q.uuid == p.uuid && q.ops == p.ops
                &&& q.client_cfg == p.client_cfg && q.descriptors == p.descriptors
                &&& final(db)@.services.len() == old(db)@.services.len()
                &&& forall|a: int|
                    0 <= a < old(db)@.services.len() && a != i ==> #[trigger] final(db)@.services[a] == old(db)@.services[a]
                &&& forall|b: int|
                    0 <= b < old(db)@.services[i].properties.len() && b != j ==> #[trigger] final(db)@.services[i].properties[b] == old(db)@.services[i].properties[b]
                &&& m.len() == n.len() + (if ntf {
                    1int
                } else {
                    0
                }) + (if ind {
                    1int
                } else {
                    0
                })
                &&& m.take(n.len() as int) == n
                &&& ntf ==> m[n.len() as int].handle == h && !m[n.len() as int].indication && m[
                n.len() as int].data == data@
                &&& ind ==> m.last().handle == h && m.last().indication && m.last().data == data@
            }
        },
{
    if data@.len() <= 512 && 0 <= i < db@.services.len() && 0 <= j
        < db@.services[i].properties.len() && db@.services[i].properties[j].handle == h {
        property_place(db@, h, i, j);
        let n = db@.notifications;
        let m = final(db)@.notifications;
        if r is Ok {
            assert(m.take(n.len() as int) =~= n);
        }
    }
    if no_property(db@.services, h) {
        assert(!sle_ssap::has_prop(db@.services, h)) by {
            if sle_ssap::has_prop(db@.services, h) {
                let (a, b) = sle_ssap::prop_pos(db@.services, h);
                assert(sle_ssap::prop_at(db@.services, h, a, b));
                assert(db@.services[a].properties[b].handle == h);
            }
        }
    }
}

/// A read after a write gives what was written.
pub proof fn written_and_read(
    db: &mut SsapInner,
    after: &SsapInner,
    h: u16,
    data: &[u8],
    w: Result<(), Errno>,
    r: Result<Vec<u8>, Errno>,
    i: int,
    j: int,
)
    requires
        call_ensures(SsapInner::write_property, (db, h, data), w),
        db@.wf(),
        w is Ok,
        *after == *final(db),
        call_ensures(SsapInner::read_property, (after, h), r),
        0 <= i < db@.services.len(),
        0 <= j < db@.services[i].properties.len(),
        db@.services[i].properties[j].handle == h,
        db@.services[i].properties[j].ops & 1 == 1,
    ensures
        r is Ok,
        r->Ok_0@ == data@,
{
    property_place(db@, h, i, j);
    property_is_written(db, h, data, w, i, j);
    property_place(after@, h, i, j);
}

/// The configuration of a client is set where the property allows that.
pub proof fn configuration_is_set(
    db: &mut SsapInner,
    h: u16,
    config: u16,
    r: Result<(), Errno>,
    i: int,
    j: int,
)
    requires
        call_ensures(SsapInner::set_client_config, (db, h, config), r),
        db@.wf(),
        0 <= i < db@.services.len(),
        0 <= j < db@.services[i].properties.len(),
        db@.services[i].properties[j].handle == h,
    ensures
        r is Ok <==> old(db)@.services[i].properties[j].ops & 0x200 == 0x200,
        r is Err ==> r->Err_0 == Errno::EACCES && final(db)@ == old(db)@,
        r is Ok ==> final(db)@.services[i].properties[j].client_cfg == config
            && final(db)@.services[i].properties[j].value == old(db)@.services[i].properties[j].value && final(db)@.notifications == old(db)@.notifications,
{
    property_place(db@, h, i, j);
}

/// A notification or an indication carries the present value, and waits behind the others.
pub proof fn change_is_queued(
    a: &mut SsapInner,
    b: &mut SsapInner,
    h: u16,
    x: Result<(), Errno>,
    y: Result<(), Errno>,
    i: int,
    j: int,
)
    requires
        call_ensures(SsapInner::notify, (a, h), x),
        call_ensures(SsapInner::indicate, (b, h), y),
        *b == *a,
        a@.wf(),
        0 <= i < a@.services.len(),
        0 <= j < a@.services[i].properties.len(),
        a@.services[i].properties[j].handle == h,
    ensures
        x is Ok <==> old(a)@.services[i].properties[j].ops & 1 == 1,
        y is Ok <==> x is Ok,
        x is Err ==> x->Err_0 == Errno::EACCES && final(a)@ == old(a)@,
        x is Ok ==> {
            let n = final(a)@.notifications;
            let m = final(b)@.notifications;
            &&& n.drop_last() == old(a)@.notifications && n.len() > 0
            &&& n.last().handle == h && !n.last().indication
            &&& n.last().data == old(a)@.services[i].properties[j].value
            &&& m.drop_last() == old(a)@.notifications && m.len() > 0
            &&& m.last().handle == h && m.last().indication
            &&& m.last().data == old(a)@.services[i].properties[j].value
            &&& final(a)@.services == old(a)@.services
        },
{
    property_place(a@, h, i, j);
    if x is Ok {
        assert(final(a)@.notifications.drop_last() =~= a@.notifications);
        assert(final(b)@.notifications.drop_last() =~= a@.notifications);
    }
}

/// Waiting changes leave oldest first.
pub proof fn changes_leave_in_order(db: &mut SsapInner, r: Option<PendingNotification>)
    requires
        call_ensures(SsapInner::dequeue_notification, (db,), r),
    ensures
        r is None <==> old(db)@.notifications.len() == 0,
        r is None ==> final(db)@ == old(db)@,
        r matches Some(n) ==> n@ == old(db)@.notifications[0] && final(db)@.notifications == old(db)@.notifications.skip(1) && final(db)@.services == old(db)@.services,
{
    if r is Some {
        assert(final(db)@.notifications =~= db@.notifications.skip(1));
    }
}

/// A service gets the next handle and starts without entries.
pub proof fn service_is_registered(
    db: &mut SsapInner,
    uuid: SsapUuid,
    primary: bool,
    r: Result<u16, Errno>,
)
    requires
        call_ensures(SsapInner::register_service, (db, uuid, primary), r),
    ensures
        r is Err <==> old(db)@.next_handle == 0xFFFF,
        r is Err ==> r->Err_0 == Errno::ENOSPC && final(db)@ == old(db)@,
        r matches Ok(h) ==> {
            let s = final(db)@.services.last();
            &&& h == old(db)@.next_handle
            &&& final(db)@.next_handle == h + 1
            &&& final(db)@.services == old(db)@.services.push(s)
            &&& s.start_handle == h && s.end_handle == h
            &&& s.uuid == uuid@ && s.primary == primary
            &&& s.properties.len() == 0 && s.methods.len() == 0 && s.events.len() == 0
            &&& final(db)@.notifications == old(db)@.notifications
        },
{
}

/// A property joins the last service under the next handle, with its value and without
/// configuration.
pub proof fn property_is_added(
    db: &mut SsapInner,
    uuid: SsapUuid,
    ops: OpIndicator,
    value: &[u8],
    r: Result<u16, Errno>,
)
    requires
        call_ensures(SsapInner::add_property, (db, uuid, ops, value), r),
    ensures
        value@.len() > 512 ==> r == Err::<u16, Errno>(Errno::EINVAL),
        value@.len() <= 512 && old(db)@.next_handle == 0xFFFF ==> r == Err::<u16, Errno>(
            Errno::ENOSPC,
        ),
        value@.len() <= 512 && old(db)@.next_handle < 0xFFFF && old(db)@.services.len() == 0 ==> r
            == Err::<u16, Errno>(Errno::ENODEV),
        r is Err ==> final(db)@.services == old(db)@.services,
        value@.len() <= 512 && old(db)@.next_handle < 0xFFFF && old(db)@.services.len() > 0 ==> {
            let o = old(db)@.services.last();
            let s = final(db)@.services.last();
            let p = s.properties.last();
            &&& r == Ok::<u16, Errno>(old(db)@.next_handle)
            &&& final(db)@.next_handle == old(db)@.next_handle + 1
            &&& final(db)@.services.len() == old(db)@.services.len()
            &&& final(db)@.services.drop_last() == old(db)@.services.drop_last()
            &&& s.start_handle == o.start_handle && s.end_handle == old(db)@.next_handle
            &&& s.uuid == o.uuid && s.primary == o.primary
            &&& s.properties == o.properties.push(p)
            &&& s.methods == o.methods && s.events == o.events
            &&& p.handle == old(db)@.next_handle && p.uuid == uuid@ && p.ops == ops@
            &&& p.value == value@ && p.client_cfg == 0 && p.descriptors.len() == 0
        },
{
    if value@.len() <= 512 && db@.next_handle < 0xFFFF && db@.services.len() > 0 {
        assert(final(db)@.services.drop_last() =~= db@.services.drop_last());
    }
}

/// Methods and events join the last service under the next handle.
pub proof fn method_and_event_are_added(
    a: &mut SsapInner,
    b: &mut SsapInner,
    uuid: SsapUuid,
    x: Result<u16, Errno>,
    y: Result<u16, Errno>,
)
    requires
        call_ensures(SsapInner::add_method, (a, uuid), x),
        call_ensures(SsapInner::add_event, (b, uuid), y),
        *b == *a,
        a@.services.len() > 0,
        a@.next_handle < 0xFFFF,
    ensures
        x == Ok::<u16, Errno>(old(a)@.next_handle),
        y == x,
        ({
            let o = old(a)@.services.last();
            let s = final(a)@.services.last();
            let t = final(b)@.services.last();
            &&& s.methods.len() == o.methods.len() + 1
            &&& s.methods.last().handle == old(a)@.next_handle && s.methods.last().uuid == uuid@
            &&& s.properties == o.properties && s.events == o.events
            &&& s.end_handle == old(a)@.next_handle
            &&& t.events.len() == o.events.len() + 1
            &&& t.events.last().handle == old(a)@.next_handle && t.events.last().uuid == uuid@
            &&& !t.events.last().enabled
            &&& t.properties == o.properties && t.methods == o.methods
            &&& t.end_handle == old(a)@.next_handle
        }),
{
}

/// The flags of a property.
pub proof fn flags(a: OpIndicator, f: u32, r: bool, v: u32, b: OpIndicator)
    requires
        call_ensures(OpIndicator::contains, (a, f), r),
        call_ensures(OpIndicator::from_raw, (v,), b),
    ensures
        r == (a@ & f == f),
        b@ == v,
        OpIndicator::READ == 1,
        OpIndicator::WRITE_NO_RSP == 2,
        OpIndicator::WRITE_WITH_RSP == 4,
        OpIndicator::NOTIFY == 8,
        OpIndicator::INDICATE == 16,
        OpIndicator::CLIENT_CFG_WR == 0x200,
{
}

/// The bytes of messages: the message code, then numbers with their lowest byte first, then
/// data.
pub proof fn message_layout(m: &SsapPdu, buf: &mut [u8], r: Result<usize, Errno>)
    requires
        call_ensures(SsapPdu::encode, (m, buf), r),
    ensures
        r is Err ==> r->Err_0 == Errno::ENOMEM && final(buf)@ == old(buf)@,
        r matches Ok(n) ==> {
            let b = final(buf)@.take(n as int);
            &&& n <= old(buf)@.len()
            &&& final(buf)@.len() == old(buf)@.len()
            &&& final(buf)@.skip(n as int) == old(buf)@.skip(n as int)
            &&& match *m {
                SsapPdu::ErrorRsp { req_opcode, handle, error } => n == 5 && b[0] == 0x01 && b[1]
                    == req_opcode && b[2] + 0x100 * b[3] == handle && b[4] == error.code(),
                SsapPdu::ExchangeInfoReq { mtu } => n == 3 && b[0] == 0x02 && b[1] + 0x100 * b[2]
                    == mtu,
                SsapPdu::ExchangeInfoRsp { mtu } => n == 3 && b[0] == 0x03 && b[1] + 0x100 * b[2]
                    == mtu,
                SsapPdu::FindStructureReq { start_handle, end_handle } => n == 5 && b[0] == 0x04
                    && b[1] + 0x100 * b[2] == start_handle && b[3] + 0x100 * b[4] == end_handle,
                SsapPdu::FindStructureRsp { entries } => b[0] == 0x05,
                SsapPdu::ReadReq { handle } => n == 3 && b[0] == 0x08 && b[1] + 0x100 * b[2]
                    == handle,
                SsapPdu::ReadRsp { data } => b[0] == 0x09 && b.skip(1) == data@,
                SsapPdu::WriteCmd { handle, data } => b[0] == 0x0C && b[1] + 0x100 * b[2] == handle
                    && b.skip(3) == data@,
                SsapPdu::WriteReq { handle, data } => b[0] == 0x0D && b[1] + 0x100 * b[2] == handle
                    && b.skip(3) == data@,
                SsapPdu::WriteRsp { handle } => n == 3 && b[0] == 0x0E && b[1] + 0x100 * b[2]
                    == handle,
                SsapPdu::ValueNtf { handle, data } => b[0] == 0x0F && b[1] + 0x100 * b[2] == handle
                    && b.skip(3) == data@,
                SsapPdu::ValueInd { handle, data } => b[0] == 0x10 && b[1] + 0x100 * b[2] == handle
                    && b.skip(3) == data@,
                SsapPdu::ValueAck { handle } => n == 3 && b[0] == 0x11 && b[1] + 0x100 * b[2]
                    == handle,
            }
        },
{
    if r is Ok {
        let n = r->Ok_0 as int;
        let p = ssap_pdu::pdu_bytes(m@);
        let b = final(buf)@.take(n);
        assert(b =~= p);
        assert(final(buf)@.skip(n) =~= buf@.skip(n));
        match *m {
            SsapPdu::ReadRsp { data } => {
                assert(p.skip(1) =~= data@);
            },
            SsapPdu::WriteCmd { handle, data } => {
                assert(p.skip(3) =~= data@);
            },
            SsapPdu::WriteReq { handle, data } => {
                assert(p.skip(3) =~= data@);
            },
            SsapPdu::ValueNtf { handle, data } => {
                assert(p.skip(3) =~= data@);
            },
            SsapPdu::ValueInd { handle, data } => {
                assert(p.skip(3) =~= data@);
            },
            _ => {},
        }
    }
}

/// An entry on the wire: handle, category, length of the UUID, UUID.
pub proof fn entry_layout(m: &SsapPdu, e: EntryInfo, buf: &mut [u8], r: Result<usize, Errno>)
    requires
        call_ensures(SsapPdu::encode, (m, buf), r),
        m matches SsapPdu::FindStructureRsp { entries } && entries@ == seq![e],
    ensures
        r matches Ok(n) ==> {
            let b = final(buf)@.take(n as int);
            &&& b[1] + 0x100 * b[2] == e.handle
            &&& b[3] == e.category.code()
            &&& e.uuid matches SsapUuid::Uuid16(v) ==> n == 7 && b[4] == 2 && b[5] + 0x100 * b[6]
                == v
            &&& e.uuid matches SsapUuid::Uuid128(v) ==> n == 21 && b[4] == 16 && b.subrange(5, 21)
                == v@
        },
{
    if r is Ok {
        let es = m->entries@;
        let n = r->Ok_0 as int;
        let v = ssap_pdu::entries_view(es);
        assert(v.len() == 1 && v.last() == e@);
        assert(v.drop_last() =~= Seq::<EntryModel>::empty());
        assert(ssap_pdu::entries_bytes(v.drop_last()) =~= Seq::<u8>::empty());
        assert(ssap_pdu::entries_bytes(v) =~= ssap_pdu::entry_bytes(e@));
        let p = ssap_pdu::pdu_bytes(m@);
        assert(p =~= seq![0x05u8] + ssap_pdu::entry_bytes(e@));
        let b = final(buf)@.take(n);
        assert(b =~= p);
        match e.uuid {
            SsapUuid::Uuid128(x) => {
                assert(b.subrange(5, 21) =~= x@);
            },
            _ => {},
        }
    }
}

/// A message that was written is read back.
pub proof fn message_comes_back(
    m: &SsapPdu,
    buf: &mut [u8],
    n: usize,
    data: &[u8],
    r: Result<SsapPdu, Errno>,
)
    requires
        call_ensures(SsapPdu::encode, (m, buf), Ok::<usize, Errno>(n)),
        data@ == final(buf)@.take(n as int),
        call_ensures(SsapPdu::decode, (data,), r),
    ensures
        r matches Ok(p) && p@ == m@,
{
    assert(data@ =~= ssap_pdu::pdu_bytes(m@));
    assert(ssap_pdu::pdu_ok(m@)) by {
        if m is FindStructureRsp {
            let es = m->entries@;
            let v = ssap_pdu::entries_view(es);
            assert forall|i: int| 0 <= i < v.len() implies ssap_pdu::uuid_ok(
                (#[trigger] v[i]).uuid,
            ) by {
                assert(v[i] == es[i]@);
            }
        }
    }
    ssap_pdu::pdu_round_trip(m@);
}

/// Bytes that begin with no message code, or are too short for their message, are refused.
pub proof fn no_message(data: &[u8], r: Result<SsapPdu, Errno>)
    requires
        call_ensures(SsapPdu::decode, (data,), r),
    ensures
        r is Err ==> r->Err_0 == Errno::EINVAL,
        data@.len() == 0 ==> r is Err,
        data@.len() > 0 && (data@[0] == 0 || data@[0] == 6 || data@[0] == 7 || data@[0] == 10
            || data@[0] == 11 || data@[0] > 17) ==> r is Err,
        data@.len() < 3 && data@.len() > 0 && data@[0] != 5 && data@[0] != 9 ==> r is Err,
        data@.len() < 5 && data@.len() > 0 && (data@[0] == 1 || data@[0] == 4) ==> r is Err,
{
}

/// Both sides go on with the smaller of their message sizes, which the answer tells.
pub proof fn sizes_are_exchanged(
    s: &mut SsapSession,
    db: &mut SsapInner,
    req: &[u8],
    buf: &mut [u8],
    r: Result<usize, Errno>,
    mtu: u16,
    rest: Seq<u8>,
)
    requires
        call_ensures(SsapSession::process_incoming, (s, db, req, buf), r),
        req@ == seq![0x02u8, (mtu % 0x100) as u8, (mtu / 0x100) as u8] + rest,
        buf@.len() >= 3,
    ensures
        r == Ok::<usize, Errno>(3),
        final(s)@.mtu <= mtu && final(s)@.mtu <= old(s)@.mtu,
        final(s)@.mtu == mtu || final(s)@.mtu == old(s)@.mtu,
        final(s)@.info_exchanged,
        final(s)@.conn_handle == old(s)@.conn_handle,
        final(buf)@[0] == 0x03,
        final(buf)@[1] + 0x100 * final(buf)@[2] == final(s)@.mtu,
        final(db)@ == old(db)@,
{
    assert(bytes::le16(req@[1], req@[2]) == mtu);
}

/// A read is answered with the value, or with an error that names request and handle.
pub proof fn read_is_answered(
    s: &mut SsapSession,
    db: &mut SsapInner,
    req: &[u8],
    buf: &mut [u8],
    r: Result<usize, Errno>,
    h: u16,
    rest: Seq<u8>,
    i: int,
    j: int,
)
    requires
        call_ensures(SsapSession::process_incoming, (s, db, req, buf), r),
        req@ == seq![0x08u8, (h % 0x100) as u8, (h / 0x100) as u8] + rest,
        db@.wf(),
        0 <= i < db@.services.len(),
        0 <= j < db@.services[i].properties.len(),
        db@.services[i].properties[j].handle == h,
        buf@.len() >= 5,
        buf@.len() > db@.services[i].properties[j].value.len(),
    ensures
        final(db)@ == old(db)@,
        final(s)@ == old(s)@,
        ({
            let p = old(db)@.services[i].properties[j];
            &&& p.ops & 1 == 1 ==> {
                &&& r == Ok::<usize, Errno>((1 + p.value.len()) as usize)
                &&& final(buf)@[0] == 0x09
                &&& final(buf)@.subrange(1, 1 + p.value.len() as int) == p.value
            }
            &&& p.ops & 1 != 1 ==> {
                &&& r == Ok::<usize, Errno>(5)
                &&& final(buf)@[0] == 0x01
                &&& final(buf)@[1] == 0x08
                &&& final(buf)@[2] + 0x100 * final(buf)@[3] == h
                &&& final(buf)@[4] == 0x0A
            }
        }),
{
    assert(bytes::le16(req@[1], req@[2]) == h);
    property_place(db@, h, i, j);
    let p = db@.services[i].properties[j];
    if p.ops & 1 == 1 {
        assert(final(buf)@.subrange(1, 1 + p.value.len() as int) =~= p.value);
    }
}

/// A write is done and answered, or answered with an error that names request and handle.
#[verifier::rlimit(60)]
#[verifier::spinoff_prover]
pub proof fn write_is_answered(
    s: &mut SsapSession,
    db: &mut SsapInner,
    req: &[u8],
    buf: &mut [u8],
    r: Result<usize, Errno>,
    h: u16,
    data: Seq<u8>,
    i: int,
    j: int,
)
    requires
        call_ensures(SsapSession::process_incoming, (s, db, req, buf), r),
        req@ == seq![0x0Du8, (h % 0x100) as u8, (h / 0x100) as u8] + data,
        db@.wf(),
        data.len() <= 512,
        0 <= i < db@.services.len(),
        0 <= j < db@.services[i].properties.len(),
        db@.services[i].properties[j].handle == h,
        buf@.len() >= 5,
    ensures
        final(s)@ == old(s)@,
        ({
            let o = old(db)@.services[i].properties[j].ops;
            let p = final(db)@.services[i].properties[j];
            &&& o & 4 == 4 || o & 2 == 2 ==> {
                &&& r == Ok::<usize, Errno>(3)
                &&& p.value == data
                &&& final(buf)@[0] == 0x0E
                &&& final(buf)@[1] + 0x100 * final(buf)@[2] == h
            }
            &&& o & 4 != 4 && o & 2 != 2 ==> {
                &&& r == Ok::<usize, Errno>(5)
                &&& final(db)@ == old(db)@
                &&& final(buf)@[0] == 0x01
                &&& final(buf)@[1] == 0x0D
                &&& final(buf)@[2] + 0x100 * final(buf)@[3] == h
                &&& final(buf)@[4] == 0x03
            }
        }),
{
    assert(bytes::le16(req@[1], req@[2]) == h);
    assert(req@.skip(3) =~= data);
    property_place(db@, h, i, j);
}

/// A write without answer is done where it is allowed, and nothing is answered.
pub proof fn silent_write(
    s: &mut SsapSession,
    db: &mut SsapInner,
    req: &[u8],
    buf: &mut [u8],
    r: Result<usize, Errno>,
    h: u16,
    data: Seq<u8>,
    i: int,
    j: int,
)
    requires
        call_ensures(SsapSession::process_incoming, (s, db, req, buf), r),
        req@ == seq![0x0Cu8, (h % 0x100) as u8, (h / 0x100) as u8] + data,
        db@.wf(),
        data.len() <= 512,
        0 <= i < db@.services.len(),
        0 <= j < db@.services[i].properties.len(),
        db@.services[i].properties[j].handle == h,
    ensures
        r == Ok::<usize, Errno>(0),
        final(buf)@ == old(buf)@,
        final(s)@ == old(s)@,
        ({
            let o = old(db)@.services[i].properties[j].ops;
            &&& o & 4 == 4 || o & 2 == 2 ==> final(db)@.services[i].properties[j].value == data
            &&& o & 4 != 4 && o & 2 != 2 ==> final(db)@ == old(db)@
        }),
{
    assert(bytes::le16(req@[1], req@[2]) == h);
    assert(req@.skip(3) =~= data);
    property_place(db@, h, i, j);
}

/// The value that a peer sends in answer to a read is kept.
pub proof fn read_value_is_kept(
    s: &mut SsapSession,
    db: &mut SsapInner,
    msg: &[u8],
    buf: &mut [u8],
    r: Result<usize, Errno>,
    data: Seq<u8>,
)
    requires
        call_ensures(SsapSession::process_incoming, (s, db, msg, buf), r),
        msg@ == seq![0x09u8] + data,
    ensures
        r == Ok::<usize, Errno>(0),
        final(s)@.remote.last_read_value == data,
        final(s)@.remote.entries == old(s)@.remote.entries,
        final(s)@.mtu == old(s)@.mtu,
        final(db)@ == old(db)@,
{
    assert(msg@.skip(1) =~= data);
}

/// What cannot be read changes nothing and is refused.
pub proof fn unreadable_message(
    s: &mut SsapSession,
    db: &mut SsapInner,
    msg: &[u8],
    buf: &mut [u8],
    r: Result<usize, Errno>,
    d: Result<SsapPdu, Errno>,
)
    requires
        call_ensures(SsapSession::process_incoming, (s, db, msg, buf), r),
        call_ensures(SsapPdu::decode, (msg,), d),
        d is Err,
    ensures
        r == Err::<usize, Errno>(Errno::EINVAL),
        final(s)@ == old(s)@,
        final(db)@ == old(db)@,
        final(buf)@ == old(buf)@,
{
}

/// A session starts with messages of 247 bytes on the service channel, and with nothing known
/// of the peer.
pub proof fn session_starts(h: u16, r: SsapSession)
    requires
        call_ensures(SsapSession::new, (h,), r),
    ensures
        r.conn_handle == h,
        r.tcid == 0x0A,
        r.mtu == 247,
        !r.info_exchanged,
        r@.remote.entries.len() == 0,
        !r@.remote.discovery_complete,
{
}

/// After both sizes are known the smaller holds.
pub proof fn size_is_agreed(s: &mut SsapSession, remote: u16, local: u16)
    requires
        call_ensures(SsapSession::handle_exchange_info_rsp, (s, remote, local), ()),
    ensures
        final(s)@.mtu <= remote && final(s)@.mtu <= local,
        final(s)@.mtu == remote || final(s)@.mtu == local,
        final(s)@.info_exchanged,
{
}

/// An entry of a peer is kept once.
pub proof fn entry_is_kept_once(d: &mut RemoteServiceDb, e: EntryInfo, r: Result<(), Errno>)
    requires
        call_ensures(RemoteServiceDb::add_entry, (d, e), r),
    ensures
        r is Ok,
        (exists|i: int|
            0 <= i < old(d)@.entries.len() && (#[trigger] old(d)@.entries[i]).handle == e.handle)
            ==> final(d)@ == old(d)@,
        !(exists|i: int|
            0 <= i < old(d)@.entries.len() && (#[trigger] old(d)@.entries[i]).handle == e.handle)
            ==> final(d)@.entries == old(d)@.entries.push(e@),
{
}

/// Counts of the database.
pub proof fn counts(db: &SsapInner, n: usize, m: usize)
    requires
        call_ensures(SsapInner::service_count, (db,), n),
        call_ensures(SsapInner::notification_count, (db,), m),
    ensures
        n == db@.services.len(),
        m == db@.notifications.len(),
{
}

} // verus!
