//! Further laws of services: what they are made of, and how they are found.

use vstd::prelude::*;

use crate::errno::Errno;
use crate::laws::pairing::ascii;
use crate::sle_ssap;
use crate::sle_ssap::{
    DescriptorType, MethodModel, OpIndicator, PropertyModel, ServiceEntry, ServiceModel, SsapInner,
    SsapModel,
};
use crate::ssap_pdu;
use crate::ssap_pdu::{EntryCategory, EntryInfo, EntryModel, SsapUuid, UuidModel};
use crate::ssap_session;
use crate::ssap_session::{RemoteServiceDb, SsapSession};

verus! {

/// Whether an entry is that of a primary service, of either kind.
pub open spec fn heads_service(e: EntryModel) -> bool {
    e.category == EntryCategory::PrimaryService || e.category
        == EntryCategory::CustomPrimaryService
}

/// A descriptor joins the last property of the last service, behind its others.
pub proof fn descriptor_is_added(
    db: &mut SsapInner,
    t: DescriptorType,
    data: &[u8],
    r: Result<(), Errno>,
)
    requires
        call_ensures(SsapInner::add_descriptor, (db, t, data), r),
    ensures
        r is Ok <==> old(db)@.services.len() > 0 && old(db)@.services.last().properties.len() > 0,
        r is Err ==> r->Err_0 == Errno::ENODEV && final(db)@ == old(db)@,
        r is Ok ==> {
            let o = old(db)@.services.last();
            let s = final(db)@.services.last();
            &&& final(db)@.services.len() == old(db)@.services.len()
            &&& final(db)@.services.drop_last() == old(db)@.services.drop_last()
            &&& s.properties.drop_last() == o.properties.drop_last()
            &&& s.properties.last() == (PropertyModel {
                descriptors: o.properties.last().descriptors.push((t, data@)),
                ..o.properties.last()
            })
            &&& s == (ServiceModel { properties: s.properties, ..o })
            &&& final(db)@.next_handle == old(db)@.next_handle
        },
{
    if r is Ok {
        assert(final(db)@.services.drop_last() =~= db@.services.drop_last());
        let o = db@.services.last();
        let s = final(db)@.services.last();
        assert(s.properties.drop_last() =~= o.properties.drop_last());
    }
}

/// The first service that begins at a handle goes, and the others stay in their order.
pub proof fn service_is_removed(db: &mut SsapInner, h: u16, r: Result<(), Errno>)
    requires
        call_ensures(SsapInner::remove_service, (db, h), r),
    ensures
        r is Ok <==> exists|i: int|
            0 <= i < old(db)@.services.len() && (#[trigger] old(db)@.services[i]).start_handle
                == h,
        r is Err ==> r->Err_0 == Errno::ENOENT && final(db)@ == old(db)@,
        r is Ok ==> exists|i: int|
            {
                &&& 0 <= i < old(db)@.services.len()
                &&& (#[trigger] old(db)@.services[i]).start_handle == h
                &&& forall|k: int|
                    0 <= k < i ==> (#[trigger] old(db)@.services[k]).start_handle != h
                &&& final(db)@.services == old(db)@.services.take(i) + old(db)@.services.skip(i + 1)
                &&& final(db)@ == (SsapModel { services: final(db)@.services, ..old(db)@ })
            },
{
    if r is Ok {
        let i = choose|i: int|
            {
                &&& 0 <= i < db@.services.len()
                &&& (#[trigger] db@.services[i]).start_handle == h
                &&& forall|k: int| 0 <= k < i ==> (#[trigger] db@.services[k]).start_handle != h
                &&& final(db)@ == (SsapModel { services: db@.services.remove(i), ..db@ })
            };
        assert(db@.services[i].start_handle == h);
        assert(final(db)@.services =~= db@.services.take(i) + db@.services.skip(i + 1));
    }
}

proof fn primaries_are(s: Seq<ServiceModel>)
    ensures
        sle_ssap::primaries(s) == s.filter(|x: ServiceModel| x.primary).map_values(
            |x: ServiceModel| (x.start_handle, x.end_handle, x.uuid),
        ),
    decreases s.len(),
{
    reveal(Seq::filter);
    let p = |x: ServiceModel| x.primary;
    let f = |x: ServiceModel| (x.start_handle, x.end_handle, x.uuid);
    if s.len() > 0 {
        primaries_are(s.drop_last());
        let prev = s.drop_last().filter(p);
        if p(s.last()) {
            assert(prev.push(s.last()).map_values(f) =~= prev.map_values(f).push(f(s.last())));
        }
    } else {
        assert(s.filter(p).map_values(f) =~= Seq::<(u16, u16, UuidModel)>::empty());
    }
}

/// The primary services are listed with their handles, in their order, and no others.
pub proof fn primary_services_are_listed(db: &SsapInner, r: Vec<(u16, u16, SsapUuid)>)
    requires
        call_ensures(SsapInner::find_primary_services, (db,), r),
    ensures
        r@.map_values(|t: (u16, u16, SsapUuid)| (t.0, t.1, t.2@)) == db@.services.filter(
            |x: ServiceModel| x.primary,
        ).map_values(|x: ServiceModel| (x.start_handle, x.end_handle, x.uuid)),
{
    primaries_are(db@.services);
}

/// A service is found by what it is.
pub proof fn service_is_found(
    db: &SsapInner,
    u: &SsapUuid,
    r: Option<&ServiceEntry>,
    i: int,
)
    requires
        call_ensures(SsapInner::find_service_by_uuid, (db, u), r),
    ensures
        0 <= i < db@.services.len() && db@.services[i].uuid == u@ ==> r is Some,
        r matches Some(s) ==> s@.uuid == u@ && db@.services.contains(s@),
{
    if r is Some {
        let s = r->0;
        let k = choose|k: int|
            {
                &&& 0 <= k < db@.services.len()
                &&& #[trigger] db@.services[k] == s@
                &&& s@.uuid == u@
                &&& forall|j: int| 0 <= j < k ==> (#[trigger] db@.services[j]).uuid != u@
            };
        assert(db@.services[k] == s@);
    }
}

/// A value is read by what it is, where it can be read.
pub proof fn read_by_kind(
    db: &SsapInner,
    u: &SsapUuid,
    r: Result<(u16, Vec<u8>), Errno>,
    i: int,
    j: int,
)
    requires
        call_ensures(SsapInner::read_by_uuid, (db, u), r),
    ensures
        0 <= i < db@.services.len() && 0 <= j < db@.services[i].properties.len()
            && db@.services[i].properties[j].uuid == u@ && db@.services[i].properties[j].ops & 1
            == 1 ==> r is Ok,
        r is Err ==> r->Err_0 == Errno::ENOENT,
        r matches Ok(t) ==> exists|a: int, b: int|
            {
                &&& 0 <= a < db@.services.len()
                &&& 0 <= b < db@.services[a].properties.len()
                &&& (#[trigger] db@.services[a].properties[b]).uuid == u@
                &&& db@.services[a].properties[b].ops & 1 == 1
                &&& db@.services[a].properties[b].handle == t.0
                &&& db@.services[a].properties[b].value == t.1@
            },
{
    if r is Ok {
        let t = r->Ok_0;
        let (a, b) = choose|a: int, b: int|
            {
                &&& #[trigger] sle_ssap::readable_at(db@.services, u@, a, b)
                &&& t.0 == db@.services[a].properties[b].handle
                &&& t.1@ == db@.services[a].properties[b].value
            };
        assert(db@.services[a].properties[b].uuid == u@);
    } else if 0 <= i < db@.services.len() && 0 <= j < db@.services[i].properties.len() {
        assert(!sle_ssap::readable_as(db@.services[i].properties[j], u@));
    }
}

/// A method that is called gives back what it was given, and keeps both.
pub proof fn method_is_called(
    db: &mut SsapInner,
    h: u16,
    input: &[u8],
    r: Result<Vec<u8>, Errno>,
    i: int,
    j: int,
)
    requires
        call_ensures(SsapInner::call_method, (db, h, input), r),
        sle_ssap::method_at(db@.services, h, i, j),
    ensures
        r matches Ok(v) && v@ == input@,
        final(db)@.services[i].methods[j] == (MethodModel {
            input: input@,
            output: input@,
            ..old(db)@.services[i].methods[j]
        }),
        final(db)@.services[i].properties == old(db)@.services[i].properties,
        forall|k: int|
            0 <= k < old(db)@.services.len() && k != i ==> #[trigger] final(db)@.services[k]
                == old(db)@.services[k],
        final(db)@.services.len() == old(db)@.services.len(),
{
    sle_ssap::method_at_unique(db@.services, h, i, j);
}

/// Where no method has a handle, none is called.
pub proof fn no_such_method(
    db: &mut SsapInner,
    h: u16,
    input: &[u8],
    r: Result<Vec<u8>, Errno>,
)
    requires
        call_ensures(SsapInner::call_method, (db, h, input), r),
        forall|i: int, j: int|
            0 <= i < db@.services.len() && 0 <= j < db@.services[i].methods.len() ==> (
            #[trigger] db@.services[i].methods[j]).handle != h,
    ensures
        r is Err && r->Err_0 == Errno::ENOENT,
        final(db)@ == old(db)@,
{
    if sle_ssap::has_method(db@.services, h) {
        let (i, j) = choose|i: int, j: int| sle_ssap::method_at(db@.services, h, i, j);
        assert(db@.services[i].methods[j].handle == h);
    }
}

/// The service that tells of the device: its name, the version of its firmware and a status
/// that can be written and watched, under handles one after the other.
pub proof fn device_service(db: &mut SsapInner, r: Result<(), Errno>)
    requires
        call_ensures(SsapInner::register_device_info_service, (db,), r),
        db@.next_handle <= 0xFFF9,
    ensures
        r is Ok,
        final(db)@.services.len() == old(db)@.services.len() + 1,
        final(db)@.services.drop_last() == old(db)@.services,
        ({
            let n = old(db)@.next_handle;
            let s = final(db)@.services.last();
            &&& s.primary && s.uuid == UuidModel::Uuid16(1) && s.start_handle == n && s.end_handle
                == n + 5
            &&& s.properties.len() == 3
            &&& s.properties[0].uuid == UuidModel::Uuid16(0x1001) && s.properties[0].handle == n + 1
                && s.properties[0].ops == 1 && s.properties[0].value == ascii(
                "SparkLink Virtual Device"@,
            )
            &&& s.properties[1].uuid == UuidModel::Uuid16(0x1002) && s.properties[1].handle == n + 2
                && s.properties[1].ops == 1 && s.properties[1].value == ascii("0.3.0"@)
            &&& s.properties[2].uuid == UuidModel::Uuid16(0x1003) && s.properties[2].handle == n + 3
                && s.properties[2].ops == 0x20D && s.properties[2].value == seq![0u8]
            &&& s.properties[2].descriptors.len() == 1
            &&& s.events.len() == 1 && s.events[0].handle == n + 4 && s.events[0].uuid
                == UuidModel::Uuid16(0x8001)
            &&& s.methods.len() == 1 && s.methods[0].handle == n + 5 && s.methods[0].uuid
                == UuidModel::Uuid16(0x7001)
            &&& final(db)@.next_handle == n + 6
        }),
{
    reveal_strlit("SparkLink Virtual Device");
    reveal_strlit("0.3.0");
    assert(ascii("SparkLink Virtual Device"@) =~= sle_ssap::device_name());
    assert(ascii("0.3.0"@) =~= sle_ssap::device_firmware());
    assert(1u32 | 4 | 8 | 0x200 == 0x20D) by (bit_vector);
    reveal_with_fuel(sle_ssap::device_info, 7);
    let m0 = db@;
    let m1 = sle_ssap::device_info(m0, 1);
    let m2 = sle_ssap::device_info(m0, 2);
    let m3 = sle_ssap::device_info(m0, 3);
    let m4 = sle_ssap::device_info(m0, 4);
    let m5 = sle_ssap::device_info(m0, 5);
    let m6 = sle_ssap::device_info(m0, 6);
    assert(m1.services.drop_last() =~= m0.services);
    assert(m2.services.drop_last() =~= m0.services);
    assert(m3.services.drop_last() =~= m0.services);
    assert(m4.services.drop_last() =~= m0.services);
    assert(m5.services.drop_last() =~= m0.services);
    assert(m6.services.drop_last() =~= m0.services);
}

/// Flags are joined and met bit by bit.
pub proof fn flags_are_joined(
    a: OpIndicator,
    b: OpIndicator,
    x: OpIndicator,
    y: OpIndicator,
    e: OpIndicator,
    n: u32,
)
    requires
        call_ensures(OpIndicator::bitor, (a, b), x),
        call_ensures(OpIndicator::bitand, (a, b), y),
        call_ensures(OpIndicator::empty, (), e),
        call_ensures(OpIndicator::bits, (a,), n),
    ensures
        x@ & a@ == a@ && x@ & b@ == b@,
        x@ & !a@ & !b@ == 0,
        y@ & a@ == y@ && y@ & b@ == y@,
        a@ & b@ & !y@ == 0,
        e@ == 0,
        n == a@,
{
    let p = a@;
    let q = b@;
    assert((p | q) & p == p && (p | q) & q == q && (p | q) & !p & !q == 0 && (p & q) & p == p & q
        && (p & q) & q == p & q && p & q & !(p & q) == 0) by (bit_vector);
}

/// What a service takes up is counted.
pub proof fn entries_are_counted(
    a: &SsapInner,
    b: &SsapInner,
    s: ServiceModel,
    m: usize,
    n: usize,
    k: usize,
    l: usize,
)
    requires
        call_ensures(SsapInner::property_count, (a,), m),
        call_ensures(SsapInner::property_count, (b,), n),
        call_ensures(SsapInner::total_entries, (a,), k),
        call_ensures(SsapInner::total_entries, (b,), l),
        b@.services == a@.services.push(s),
    ensures
        n == m + s.properties.len(),
        l == k + 1 + s.properties.len() + s.methods.len() + s.events.len(),
        a@.services.len() == 0 ==> m == 0 && k == 0,
{
    assert(b@.services.drop_last() =~= a@.services);
}

/// Identifiers are the same where their kind and value are.
pub proof fn identifiers(
    a: &SsapUuid,
    b: &SsapUuid,
    r: bool,
    c: bool,
    v: Option<u16>,
)
    requires
        call_ensures(SsapUuid::same, (a, b), r),
        call_ensures(SsapUuid::is_custom, (a,), c),
        call_ensures(SsapUuid::as_u16, (a,), v),
    ensures
        r <==> a@ == b@,
        c <==> a@ is Uuid128,
        v is None <==> c,
        v matches Some(x) ==> a@ == UuidModel::Uuid16(x),
{
}

/// What is known of the services of a peer: found by what they are, and forgotten at once.
pub proof fn peer_services(
    n: RemoteServiceDb,
    d: &RemoteServiceDb,
    u: &SsapUuid,
    r: Option<&EntryInfo>,
    c: usize,
    x: &mut RemoteServiceDb,
    i: int,
)
    requires
        call_ensures(RemoteServiceDb::new, (), n),
        call_ensures(RemoteServiceDb::find_service_by_uuid, (d, u), r),
        call_ensures(RemoteServiceDb::entry_count, (d,), c),
        call_ensures(RemoteServiceDb::clear, (x,), ()),
    ensures
        n@.entries.len() == 0 && !n@.discovery_complete,
        c == d@.entries.len(),
        0 <= i < d@.entries.len() && d@.entries[i].uuid == u@ && heads_service(d@.entries[i])
            ==> r is Some,
        r matches Some(e) ==> e@.uuid == u@ && heads_service(e@) && d@.entries.contains(e@),
        final(x)@.entries.len() == 0 && !final(x)@.discovery_complete
            && final(x)@.last_read_value.len() == 0,
{
    if r is Some {
        let e = r->0;
        let k = choose|k: int|
            {
                &&& 0 <= k < d@.entries.len()
                &&& #[trigger] d@.entries[k] == e@
                &&& ssap_session::is_primary(e@)
                &&& e@.uuid == u@
                &&& forall|j: int|
                    0 <= j < k ==> !(ssap_session::is_primary(#[trigger] d@.entries[j])
                        && d@.entries[j].uuid == u@)
            };
        assert(d@.entries[k] == e@);
    }
    if 0 <= i < d@.entries.len() && d@.entries[i].uuid == u@ && heads_service(d@.entries[i]) {
        assert(ssap_session::is_primary(d@.entries[i]));
    }
}

proof fn remote_primaries_are(s: Seq<EntryModel>)
    ensures
        ssap_session::primaries(s) == s.filter(
            |e: EntryModel| heads_service(e),
        ),
    decreases s.len(),
{
    reveal(Seq::filter);
    if s.len() > 0 {
        remote_primaries_are(s.drop_last());
    }
}

/// The primary services of a peer are listed in their order, and no others.
pub proof fn peer_primaries(d: &RemoteServiceDb, r: Vec<EntryInfo>)
    requires
        call_ensures(RemoteServiceDb::primary_services, (d,), r),
    ensures
        ssap_pdu::entries_view(r@) == d@.entries.filter(
            |e: EntryModel| heads_service(e),
        ),
{
    remote_primaries_are(d@.entries);
}

/// The size that a session asks for stands in its request.
pub proof fn size_is_asked_for(
    s: &SsapSession,
    mtu: u16,
    buf: &mut [u8],
    r: Result<usize, Errno>,
)
    requires
        call_ensures(SsapSession::build_exchange_info_req, (s, mtu, buf), r),
    ensures
        r is Ok <==> old(buf)@.len() >= 3,
        r is Ok ==> r->Ok_0 == 3 && final(buf)@[0] == 0x02 && final(buf)@[1] + 0x100 * final(buf)@[2] == mtu,
{
}

} // verus!
