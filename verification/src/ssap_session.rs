//! Sessions of the service access protocol: the server side that answers requests,
//! and the cache of what a peer offers.

use vstd::prelude::*;

use crate::errno::Errno;
use crate::sle_ssap;
use crate::sle_ssap::{SsapInner, SsapModel};
use crate::ssap_pdu;
use crate::ssap_pdu::{
    EntryCategory, EntryInfo, EntryModel, PduModel, SsapError, SsapMsgCode, SsapPdu, SsapUuid,
};
use crate::tcid;

verus! {

/// What is known of the services of a peer.
pub struct RemoteServiceDb {
    /// Entries found so far.
    pub entries: Vec<EntryInfo>,
    /// Whether discovery is complete.
    pub discovery_complete: bool,
    /// Value of the last read.
    pub last_read_value: Vec<u8>,
}

/// What is known of a peer, as a value.
#[verifier::ext_equal]
pub struct RemoteModel {
    /// Entries found so far.
    pub entries: Seq<EntryModel>,
    /// Whether discovery is complete.
    pub discovery_complete: bool,
    /// Value of the last read.
    pub last_read_value: Seq<u8>,
}

impl View for RemoteServiceDb {
    type V = RemoteModel;

    open spec fn view(&self) -> RemoteModel {
        RemoteModel {
            entries: ssap_pdu::entries_view(self.entries@),
            discovery_complete: self.discovery_complete,
            last_read_value: self.last_read_value@,
        }
    }
}

/// Whether some entry has handle `h`.
pub open spec fn known(s: Seq<EntryModel>, h: u16) -> bool {
    exists|i: int| 0 <= i < s.len() && (#[trigger] s[i]).handle == h
}

/// The entries with `e` added, unless its handle is known already.
pub open spec fn with_entry(s: Seq<EntryModel>, e: EntryModel) -> Seq<EntryModel> {
    if known(s, e.handle) {
        s
    } else {
        s.push(e)
    }
}

/// The entries with those of `es` added one after the other.
pub open spec fn with_entries(s: Seq<EntryModel>, es: Seq<EntryModel>) -> Seq<EntryModel>
    decreases es.len(),
{
    if es.len() == 0 {
        s
    } else {
        with_entry(with_entries(s, es.drop_last()), es.last())
    }
}

/// No two entries have the same handle.
pub open spec fn distinct(s: Seq<EntryModel>) -> bool {
    forall|i: int, j: int|
        0 <= i < j < s.len() ==> (#[trigger] s[i]).handle != (#[trigger] s[j]).handle
}

/// Whether an entry is a primary service.
pub open spec fn is_primary(e: EntryModel) -> bool {
    e.category == EntryCategory::PrimaryService || e.category == EntryCategory::CustomPrimaryService
}

/// Whether no primary service has UUID `u`.
pub open spec fn no_primary(s: Seq<EntryModel>, u: ssap_pdu::UuidModel) -> bool {
    forall|k: int| 0 <= k < s.len() ==> !(is_primary(#[trigger] s[k]) && s[k].uuid == u)
}

/// The primary services among the entries.
pub open spec fn primaries(s: Seq<EntryModel>) -> Seq<EntryModel>
    decreases s.len(),
{
    if s.len() == 0 {
        Seq::empty()
    } else if is_primary(s.last()) {
        primaries(s.drop_last()).push(s.last())
    } else {
        primaries(s.drop_last())
    }
}

/// Adding entries keeps handles distinct, keeps what was known, and makes every
/// added handle known.
pub proof fn with_entries_distinct(s: Seq<EntryModel>, es: Seq<EntryModel>)
    requires
        distinct(s),
    ensures
        distinct(with_entries(s, es)),
        s.is_prefix_of(with_entries(s, es)),
        forall|i: int|
            0 <= i < es.len() ==> known(with_entries(s, es), (#[trigger] es[i]).handle),
    decreases es.len(),
{
    if es.len() > 0 {
        let t = with_entries(s, es.drop_last());
        with_entries_distinct(s, es.drop_last());
        let r = with_entries(s, es);
        assert forall|i: int| 0 <= i < es.len() implies known(r, (#[trigger] es[i]).handle) by {
            if i < es.len() - 1 {
                assert(es.drop_last()[i] == es[i]);
                assert(known(t, es[i].handle));
                let k = choose|k: int| 0 <= k < t.len() && (#[trigger] t[k]).handle == es[i].handle;
                assert(r[k] == t[k]);
            } else if !known(t, es.last().handle) {
                assert(r[t.len() as int] == es.last());
            }
        }
        if !known(t, es.last().handle) {
            assert forall|i: int, j: int| 0 <= i < j < r.len() implies (#[trigger] r[i]).handle != (
            #[trigger] r[j]).handle by {
                if j == t.len() {
                    assert(t[i] == r[i]);
                } else {
                    assert(t[i].handle != t[j].handle);
                }
            }
        }
    }
}

impl RemoteServiceDb {
    /// Nothing is known yet.
    pub fn new() -> (r: Self)
        ensures
            r@ == (RemoteModel {
                entries: Seq::empty(),
                discovery_complete: false,
                last_read_value: Seq::empty(),
            }),
    {
        let r = RemoteServiceDb {
            entries: Vec::new(),
            discovery_complete: false,
            last_read_value: Vec::new(),
        };
        assert(r@.entries == Seq::<EntryModel>::empty());
        r
    }

    /// Adds an entry, unless its handle is known already.
    pub fn add_entry(&mut self, entry: EntryInfo) -> (r: Result<(), Errno>)
        ensures
            r == Ok::<(), Errno>(()),
            final(self)@ == (RemoteModel {
                entries: with_entry(old(self)@.entries, entry@),
                ..old(self)@
            }),
            distinct(old(self)@.entries) ==> distinct(final(self)@.entries),
    {
        let mut i: usize = 0;
        while i < self.entries.len()
            invariant
                i <= self.entries.len(),
                *self == *old(self),
                forall|k: int| 0 <= k < i ==> (#[trigger] self@.entries[k]).handle != entry.handle,
            decreases self.entries.len() - i,
        {
            assert(self@.entries[i as int] == self.entries@[i as int]@);
            if self.entries[i].handle == entry.handle {
                assert(known(self@.entries, entry@.handle));
                return Ok(());
            }
            i = i + 1;
        }
        assert(!known(self@.entries, entry@.handle));
        self.entries.push(entry);
        assert(self@.entries == old(self)@.entries.push(entry@));
        Ok(())
    }

    /// The first primary service with UUID `uuid`.
    pub fn find_service_by_uuid(&self, uuid: &SsapUuid) -> (r: Option<&EntryInfo>)
        ensures
            match r {
                Some(e) => exists|i: int|
                    {
                        &&& 0 <= i < self@.entries.len()
                        &&& #[trigger] self@.entries[i] == e@
                        &&& is_primary(e@)
                        &&& e@.uuid == uuid@
                        &&& forall|k: int|
                            0 <= k < i ==> !(is_primary(#[trigger] self@.entries[k])
                                && self@.entries[k].uuid == uuid@)
                    },
                None => no_primary(self@.entries, uuid@),
            },
    {
        let mut i: usize = 0;
        while i < self.entries.len()
            invariant
                i <= self.entries.len(),
                forall|k: int|
                    0 <= k < i ==> !(is_primary(#[trigger] self@.entries[k])
                        && self@.entries[k].uuid == uuid@),
            decreases self.entries.len() - i,
        {
            let e = &self.entries[i];
            assert(self@.entries[i as int] == e@);
            if (e.category == EntryCategory::PrimaryService || e.category
                == EntryCategory::CustomPrimaryService) && e.uuid.same(uuid) {
                return Some(e);
            }
            i = i + 1;
        }
        None
    }

    /// All primary services found so far.
    pub fn primary_services(&self) -> (r: Vec<EntryInfo>)
        ensures
            ssap_pdu::entries_view(r@) == primaries(self@.entries),
    {
        let mut result: Vec<EntryInfo> = Vec::new();
        let mut i: usize = 0;
        assert(ssap_pdu::entries_view(result@) == primaries(self@.entries.take(0)));
        while i < self.entries.len()
            invariant
                i <= self.entries.len(),
                ssap_pdu::entries_view(result@) == primaries(self@.entries.take(i as int)),
            decreases self.entries.len() - i,
        {
            let e = self.entries[i];
            let ghost before = ssap_pdu::entries_view(result@);
            let ghost s = self@.entries.take(i + 1);
            assert(s.drop_last() == self@.entries.take(i as int));
            assert(s.last() == e@);
            if e.category == EntryCategory::PrimaryService || e.category
                == EntryCategory::CustomPrimaryService {
                result.push(e);
                assert(ssap_pdu::entries_view(result@) == before.push(e@));
            }
            i = i + 1;
        }
        assert(self@.entries.take(i as int) == self@.entries);
        result
    }

    /// Forgets everything.
    pub fn clear(&mut self)
        ensures
            final(self)@ == (RemoteModel {
                entries: Seq::empty(),
                discovery_complete: false,
                last_read_value: Seq::empty(),
            }),
    {
        self.entries.clear();
        self.last_read_value.clear();
        self.discovery_complete = false;
        assert(self@.entries == Seq::<EntryModel>::empty());
    }

    /// Number of entries found so far.
    pub fn entry_count(&self) -> (r: usize)
        ensures
            r == self@.entries.len(),
    {
        self.entries.len()
    }
}

/// The protocol on one connection.
pub struct SsapSession {
    /// Handle of the connection.
    pub conn_handle: u16,
    /// Transport channel of the session.
    pub tcid: u16,
    /// Longest message agreed on.
    pub mtu: u16,
    /// Whether the MTU was exchanged.
    pub info_exchanged: bool,
    /// What is known of the peer.
    pub remote_db: RemoteServiceDb,
}

/// A session as a value.
#[verifier::ext_equal]
pub struct SessionModel {
    /// Handle of the connection.
    pub conn_handle: u16,
    /// Transport channel of the session.
    pub tcid: u16,
    /// Longest message agreed on.
    pub mtu: u16,
    /// Whether the MTU was exchanged.
    pub info_exchanged: bool,
    /// What is known of the peer.
    pub remote: RemoteModel,
}

impl View for SsapSession {
    type V = SessionModel;

    open spec fn view(&self) -> SessionModel {
        SessionModel {
            conn_handle: self.conn_handle,
            tcid: self.tcid,
            mtu: self.mtu,
            info_exchanged: self.info_exchanged,
            remote: self.remote_db@,
        }
    }
}

/// A fresh session on the connection of handle `conn_handle`.
pub open spec fn session_start(conn_handle: u16) -> SessionModel {
    SessionModel {
        conn_handle,
        tcid: tcid::SERVICE_MGMT,
        mtu: 247,
        info_exchanged: false,
        remote: RemoteModel {
            entries: Seq::empty(),
            discovery_complete: false,
            last_read_value: Seq::empty(),
        },
    }
}

/// The smaller of two MTUs.
pub open spec fn min16(a: u16, b: u16) -> u16 {
    if a <= b {
        a
    } else {
        b
    }
}

impl SessionModel {
    /// The MTU was exchanged with a peer.
    pub open spec fn exchanged(self, mtu: u16) -> SessionModel {
        SessionModel { mtu, info_exchanged: true, ..self }
    }

    /// The session after a message came in.
    pub open spec fn after(self, m: PduModel) -> SessionModel {
        match m {
            PduModel::ExchangeInfoReq { mtu } => self.exchanged(min16(mtu, self.mtu)),
            PduModel::ExchangeInfoRsp { mtu } => self.exchanged(min16(mtu, self.mtu)),
            PduModel::FindStructureRsp { entries } => SessionModel {
                remote: RemoteModel {
                    entries: with_entries(self.remote.entries, entries),
                    ..self.remote
                },
                ..self
            },
            PduModel::ReadRsp { data } => SessionModel {
                remote: RemoteModel { last_read_value: data, ..self.remote },
                ..self
            },
            _ => self,
        }
    }

    /// The answer to a message, if it gets one. Requests that are not supported, and
    /// messages that no server expects, are answered by an error.
    pub open spec fn answer(self, db: SsapModel, m: PduModel, code: u8) -> Option<PduModel> {
        match m {
            PduModel::ExchangeInfoReq { mtu } => Some(
                PduModel::ExchangeInfoRsp { mtu: min16(mtu, self.mtu) },
            ),
            PduModel::FindStructureReq { start_handle, end_handle } => Some(
                PduModel::FindStructureRsp {
                    entries: sle_ssap::in_range(
                        sle_ssap::all_entries(db.services),
                        start_handle,
                        end_handle,
                    ),
                },
            ),
            PduModel::ReadReq { handle } => Some(
                match db.read(handle) {
                    Ok(data) => PduModel::ReadRsp { data },
                    Err(_) => PduModel::ErrorRsp {
                        req_opcode: SsapMsgCode::ReadReq.code(),
                        handle,
                        error: SsapError::PropertyNotFound,
                    },
                },
            ),
            PduModel::WriteReq { handle, data } => Some(
                match db.write_result(handle, data) {
                    Ok(_) => PduModel::WriteRsp { handle },
                    Err(_) => PduModel::ErrorRsp {
                        req_opcode: SsapMsgCode::WriteReq.code(),
                        handle,
                        error: SsapError::WriteNotPermitted,
                    },
                },
            ),
            PduModel::ErrorRsp { .. } | PduModel::ValueNtf { .. } | PduModel::ValueInd { .. } => Some(
                PduModel::ErrorRsp {
                    req_opcode: code,
                    handle: 0,
                    error: SsapError::RequestNotSupported,
                },
            ),
            _ => None,
        }
    }
}

/// The database after a message came in: writes change it, nothing else does.
pub open spec fn db_after(db: SsapModel, m: PduModel) -> SsapModel {
    match m {
        PduModel::WriteCmd { handle, data } => db.after_write(handle, data),
        PduModel::WriteReq { handle, data } => db.after_write(handle, data),
        _ => db,
    }
}

/// A message never raises the MTU of a session, and never moves it to another
/// connection or channel.
pub proof fn mtu_never_grows(s: SessionModel, m: PduModel)
    ensures
        s.after(m).mtu <= s.mtu,
        s.after(m).conn_handle == s.conn_handle,
        s.after(m).tcid == s.tcid,
{
}

/// When a client with MTU `c.mtu` asks and a server with MTU `s.mtu` answers, both
/// go on with the smaller of the two.
pub proof fn mtu_agreed(c: SessionModel, s: SessionModel, db: SsapModel, code: u8)
    ensures
        ({
            let req = PduModel::ExchangeInfoReq { mtu: c.mtu };
            let rsp = s.answer(db, req, code)->0;
            &&& s.after(req).mtu == min16(c.mtu, s.mtu)
            &&& c.after(rsp).mtu == min16(c.mtu, s.mtu)
            &&& s.after(req).info_exchanged
            &&& c.after(rsp).info_exchanged
        }),
{
}

/// A peer that writes a readable property and then reads it is answered with what
/// it wrote.
pub proof fn remote_read_after_write(
    s: SessionModel,
    db: SsapModel,
    handle: u16,
    data: Seq<u8>,
    code: u8,
)
    requires
        s.answer(db, PduModel::WriteReq { handle, data }, code) == Some(
            PduModel::WriteRsp { handle },
        ),
        sle_ssap::has_op(
            sle_ssap::prop_of(db.services, handle).ops,
            sle_ssap::OpIndicator::READ,
        ),
    ensures
        s.answer(
            db_after(db, PduModel::WriteReq { handle, data }),
            PduModel::ReadReq { handle },
            code,
        ) == Some(PduModel::ReadRsp { data }),
{
    let other: u16 = if handle == 0 {
        1
    } else {
        0
    };
    sle_ssap::read_after_write(db, handle, data, other);
}

impl SsapSession {
    /// A session on the connection of handle `conn_handle`.
    pub fn new(conn_handle: u16) -> (r: Self)
        ensures
            r@ == session_start(conn_handle),
    {
        SsapSession {
            conn_handle,
            tcid: tcid::SERVICE_MGMT,
            mtu: 247,
            info_exchanged: false,
            remote_db: RemoteServiceDb::new(),
        }
    }

    /// Writes a request that tells the peer our MTU.
    pub fn build_exchange_info_req(&self, local_mtu: u16, buf: &mut [u8]) -> (r: Result<
        usize,
        Errno,
    >)
        ensures
            ssap_pdu::encoded(
                PduModel::ExchangeInfoReq { mtu: local_mtu },
                old(buf)@,
                final(buf)@,
                r,
            ),
    {
        let pdu = SsapPdu::ExchangeInfoReq { mtu: local_mtu };
        pdu.encode(buf)
    }

    /// The peer told its MTU: the smaller of the two holds.
    pub fn handle_exchange_info_rsp(&mut self, remote_mtu: u16, local_mtu: u16)
        ensures
            final(self)@ == old(self)@.exchanged(min16(remote_mtu, local_mtu)),
    {
        self.mtu = if remote_mtu <= local_mtu {
            remote_mtu
        } else {
            local_mtu
        };
        self.info_exchanged = true;
    }

    /// Takes in a message and writes the answer, if there is one, to `resp_buf`.
    /// Returns the length of the answer, 0 for none. `EINVAL` where the message
    /// cannot be read, `ENOMEM` where the answer does not fit; the message has taken
    /// effect in the latter case.
    pub fn process_incoming(
        &mut self,
        ssap: &mut SsapInner,
        pdu_data: &[u8],
        resp_buf: &mut [u8],
    ) -> (r: Result<usize, Errno>)
        ensures
            match ssap_pdu::parse_pdu(pdu_data@) {
                None => r == Err::<usize, Errno>(Errno::EINVAL) && final(self)@ == old(self)@
                    && final(ssap)@ == old(ssap)@ && final(resp_buf)@ == old(resp_buf)@,
                Some(m) => {
                    &&& final(self)@ == old(self)@.after(m)
                    &&& final(ssap)@ == db_after(old(ssap)@, m)
                    &&& match old(self)@.answer(old(ssap)@, m, pdu_data@[0]) {
                        None => r == Ok::<usize, Errno>(0) && final(resp_buf)@ == old(resp_buf)@,
                        Some(a) => ssap_pdu::encoded(a, old(resp_buf)@, final(resp_buf)@, r),
                    }
                },
            },
            old(ssap)@.wf() ==> final(ssap)@.wf(),
    {
        let pdu = match SsapPdu::decode(pdu_data) {
            Ok(p) => p,
            Err(e) => return Err(e),
        };
        match pdu {
            SsapPdu::ExchangeInfoReq { mtu: remote_mtu } => {
                if remote_mtu <= self.mtu {
                    self.mtu = remote_mtu;
                }
                self.info_exchanged = true;
                let rsp = SsapPdu::ExchangeInfoRsp { mtu: self.mtu };
                rsp.encode(resp_buf)
            },
            SsapPdu::FindStructureReq { start_handle, end_handle } => {
                let entries = ssap.find_in_range(start_handle, end_handle);
                let rsp = SsapPdu::FindStructureRsp { entries };
                rsp.encode(resp_buf)
            },
            SsapPdu::ReadReq { handle } => match ssap.read_property(handle) {
                Ok(data) => {
                    let rsp = SsapPdu::ReadRsp { data };
                    rsp.encode(resp_buf)
                },
                Err(_) => {
                    let rsp = SsapPdu::ErrorRsp {
                        req_opcode: SsapMsgCode::ReadReq.code(),
                        handle,
                        error: SsapError::PropertyNotFound,
                    };
                    rsp.encode(resp_buf)
                },
            },
            SsapPdu::WriteCmd { handle, data } => {
                let _ = ssap.write_property(handle, data.as_slice());
                Ok(0)
            },
            SsapPdu::WriteReq { handle, data } => match ssap.write_property(
                handle,
                data.as_slice(),
            ) {
                Ok(_) => {
                    let rsp = SsapPdu::WriteRsp { handle };
                    rsp.encode(resp_buf)
                },
                Err(_) => {
                    let rsp = SsapPdu::ErrorRsp {
                        req_opcode: SsapMsgCode::WriteReq.code(),
                        handle,
                        error: SsapError::WriteNotPermitted,
                    };
                    rsp.encode(resp_buf)
                },
            },
            SsapPdu::ValueAck { handle: _ } => Ok(0),
            SsapPdu::ExchangeInfoRsp { mtu } => {
                let local_mtu = self.mtu;
                self.handle_exchange_info_rsp(mtu, local_mtu);
                Ok(0)
            },
            SsapPdu::FindStructureRsp { entries } => {
                let mut i: usize = 0;
                let ghost es = ssap_pdu::entries_view(entries@);
                assert(es.take(0) == Seq::<EntryModel>::empty());
                while i < entries.len()
                    invariant
                        i <= entries.len(),
                        es == ssap_pdu::entries_view(entries@),
                        self@ == old(self)@.after(
                            PduModel::FindStructureRsp { entries: es.take(i as int) },
                        ),
                    decreases entries.len() - i,
                {
                    let _ = self.remote_db.add_entry(entries[i]);
                    i = i + 1;
                    assert(es.take(i as int).drop_last() == es.take(i - 1));
                }
                assert(es.take(i as int) == es);
                Ok(0)
            },
            SsapPdu::ReadRsp { data } => {
                self.remote_db.last_read_value = data;
                Ok(0)
            },
            SsapPdu::WriteRsp { handle: _ } => Ok(0),
            _ => {
                let rsp = SsapPdu::ErrorRsp {
                    req_opcode: pdu_data[0],
                    handle: 0,
                    error: SsapError::RequestNotSupported,
                };
                rsp.encode(resp_buf)
            },
        }
    }
}

} // verus!
