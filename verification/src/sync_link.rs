//! Synchronous links: groups of unicast or multicast links that carry periodic data
//! beside a connection.

use vstd::prelude::*;

use crate::errno::Errno;

verus! {

/// Most links of one group.
pub const MAX_SYNC_LINKS_PER_CIG: usize = 8;

/// Largest identifier of a group.
pub const MAX_GROUP_ID: u8 = 0xEF;

/// Whether a link goes to one peer or to many.
#[derive(Clone, Copy, Debug, PartialEq, Eq, Structural)]
pub enum SyncLinkType {
    /// To one peer.
    Unicast,
    /// To many peers.
    Multicast,
}

impl SyncLinkType {
    /// Code of the type.
    #[verifier::allow_in_spec]
    pub fn code(self) -> u8
        returns
            (match self {
                SyncLinkType::Unicast => 0u8,
                SyncLinkType::Multicast => 1u8,
            }),
    {
        match self {
            SyncLinkType::Unicast => 0,
            SyncLinkType::Multicast => 1,
        }
    }
}

/// How far a link has come.
#[derive(Clone, Copy, Debug, PartialEq, Eq, Structural)]
pub enum SyncLinkState {
    /// Configured but not created.
    Configured,
    /// Creation is under way.
    Creating,
    /// The link carries data.
    Active,
}

impl SyncLinkState {
    /// Code of the state.
    #[verifier::allow_in_spec]
    pub fn code(self) -> u8
        returns
            (match self {
                SyncLinkState::Configured => 0u8,
                SyncLinkState::Creating => 1u8,
                SyncLinkState::Active => 2u8,
            }),
    {
        match self {
            SyncLinkState::Configured => 0,
            SyncLinkState::Creating => 1,
            SyncLinkState::Active => 2,
        }
    }
}

/// A synchronous link.
#[derive(Clone, Copy, Debug)]
pub struct SyncLinkEntry {
    /// Handle of the link.
    pub handle: u16,
    /// Unicast or multicast.
    pub link_type: SyncLinkType,
    /// How far the link has come.
    pub state: SyncLinkState,
    /// Handle of the connection that the link belongs to, 0 before creation.
    pub acl_handle: u16,
    /// Identifier of the group.
    pub cig_id: u8,
    /// Number of the link in its group.
    pub cis_id: u8,
    /// Interval of the units towards the terminal, in microseconds.
    pub sdu_interval_g2t: u32,
    /// Interval of the units from the terminal, in microseconds.
    pub sdu_interval_t2g: u32,
    /// Longest unit towards the terminal.
    pub max_sdu_g2t: u16,
    /// Longest unit from the terminal.
    pub max_sdu_t2g: u16,
    /// Retransmissions towards the terminal.
    pub retransmit_g2t: u8,
    /// Retransmissions from the terminal.
    pub retransmit_t2g: u8,
    /// Longest delay towards the terminal, in milliseconds.
    pub max_latency_g2t: u16,
    /// Longest delay from the terminal, in milliseconds.
    pub max_latency_t2g: u16,
    /// 0 for periodic, 1 for aperiodic units.
    pub adapt_mode: u8,
    /// Direction of the data path: 0 in, 1 out, 2 both.
    pub datapath_direction: u8,
    /// Identifier of the data path.
    pub datapath_id: u8,
    /// Identifier of the codec.
    pub codec_id: u8,
    /// Whether there is a data path.
    pub datapath_configured: bool,
}

/// What a unicast group is to look like.
#[derive(Clone, Copy, Debug)]
pub struct SyncCigParams {
    /// Identifier of the group.
    pub cig_id: u8,
    /// Interval of the units towards the terminal, in microseconds.
    pub sdu_interval_g2t: u32,
    /// Interval of the units from the terminal, in microseconds.
    pub sdu_interval_t2g: u32,
    /// Longest unit towards the terminal.
    pub max_sdu_g2t: u16,
    /// Longest unit from the terminal.
    pub max_sdu_t2g: u16,
    /// Retransmissions towards the terminal.
    pub retransmit_g2t: u8,
    /// Retransmissions from the terminal.
    pub retransmit_t2g: u8,
    /// Longest delay towards the terminal, in milliseconds.
    pub max_latency_g2t: u16,
    /// Longest delay from the terminal, in milliseconds.
    pub max_latency_t2g: u16,
    /// 0 for periodic, 1 for aperiodic units.
    pub adapt_mode: u8,
    /// Number of links.
    pub link_count: u8,
}

/// A unicast group that was configured.
#[derive(Clone, Copy, Debug)]
pub struct SyncCigResult {
    /// Identifier of the group.
    pub cig_id: u8,
    /// Number of links.
    pub link_count: u8,
    /// Handles of the links, then zeros.
    pub handles: [u16; 8],
}

/// What a multicast group is to look like.
#[derive(Clone, Copy, Debug)]
pub struct SyncBigParams {
    /// Identifier of the group.
    pub big_id: u8,
    /// Interval of the units towards the terminal, in microseconds.
    pub sdu_interval_g2t: u32,
    /// Interval of the units from the terminal, in microseconds.
    pub sdu_interval_t2g: u32,
    /// Longest unit towards the terminal.
    pub max_sdu_g2t: u16,
    /// Longest unit from the terminal.
    pub max_sdu_t2g: u16,
    /// Retransmissions towards the terminal.
    pub retransmit_g2t: u8,
    /// Retransmissions from the terminal.
    pub retransmit_t2g: u8,
    /// Longest delay towards the terminal, in milliseconds.
    pub max_latency_g2t: u16,
    /// Longest delay from the terminal, in milliseconds.
    pub max_latency_t2g: u16,
    /// 0 for periodic, 1 for aperiodic units.
    pub adapt_mode: u8,
    /// Number of links.
    pub link_count: u8,
}

/// A multicast group that was configured.
#[derive(Clone, Copy, Debug)]
pub struct SyncBigResult {
    /// Identifier of the group.
    pub big_id: u8,
    /// Number of links.
    pub link_count: u8,
    /// Handles of the links, then zeros.
    pub handles: [u16; 8],
}

/// The link of number `i` of a fresh unicast group.
pub open spec fn unicast_link(p: SyncCigParams, handle: u16, i: int) -> SyncLinkEntry {
    SyncLinkEntry {
        handle,
        link_type: SyncLinkType::Unicast,
        state: SyncLinkState::Configured,
        acl_handle: 0,
        cig_id: p.cig_id,
        cis_id: i as u8,
        sdu_interval_g2t: p.sdu_interval_g2t,
        sdu_interval_t2g: p.sdu_interval_t2g,
        max_sdu_g2t: p.max_sdu_g2t,
        max_sdu_t2g: p.max_sdu_t2g,
        retransmit_g2t: p.retransmit_g2t,
        retransmit_t2g: p.retransmit_t2g,
        max_latency_g2t: p.max_latency_g2t,
        max_latency_t2g: p.max_latency_t2g,
        adapt_mode: p.adapt_mode,
        datapath_direction: 0,
        datapath_id: 0,
        codec_id: 0,
        datapath_configured: false,
    }
}

/// The link of number `i` of a fresh multicast group.
pub open spec fn multicast_link(p: SyncBigParams, handle: u16, i: int) -> SyncLinkEntry {
    SyncLinkEntry {
        link_type: SyncLinkType::Multicast,
        ..unicast_link(group_params(p), handle, i)
    }
}

/// The parameters of a multicast group, written as those of a unicast group.
pub open spec fn group_params(p: SyncBigParams) -> SyncCigParams {
    SyncCigParams {
        cig_id: p.big_id,
        sdu_interval_g2t: p.sdu_interval_g2t,
        sdu_interval_t2g: p.sdu_interval_t2g,
        max_sdu_g2t: p.max_sdu_g2t,
        max_sdu_t2g: p.max_sdu_t2g,
        retransmit_g2t: p.retransmit_g2t,
        retransmit_t2g: p.retransmit_t2g,
        max_latency_g2t: p.max_latency_g2t,
        max_latency_t2g: p.max_latency_t2g,
        adapt_mode: p.adapt_mode,
        link_count: p.link_count,
    }
}

/// Whether link `l` belongs to the unicast or multicast group `id`. A unicast and a
/// multicast group of the same identifier have nothing to do with each other.
pub open spec fn member(l: SyncLinkEntry, id: u8, ty: SyncLinkType) -> bool {
    l.cig_id == id && l.link_type == ty
}

/// How many links belong to a group.
pub open spec fn members(s: Seq<SyncLinkEntry>, id: u8, ty: SyncLinkType) -> int
    decreases s.len(),
{
    if s.len() == 0 {
        0
    } else {
        members(s.drop_last(), id, ty) + if member(s.last(), id, ty) {
            1int
        } else {
            0
        }
    }
}

/// No group is larger than a group may be.
pub open spec fn small_groups(s: Seq<SyncLinkEntry>) -> bool {
    forall|id: u8, ty: SyncLinkType|
        #[trigger] members(s, id, ty) <= MAX_SYNC_LINKS_PER_CIG
}

/// The links that do not belong to a group.
pub open spec fn others(s: Seq<SyncLinkEntry>, id: u8, ty: SyncLinkType) -> Seq<SyncLinkEntry>
    decreases s.len(),
{
    if s.len() == 0 {
        s
    } else if member(s.last(), id, ty) {
        others(s.drop_last(), id, ty)
    } else {
        others(s.drop_last(), id, ty).push(s.last())
    }
}

/// The handle `k` steps after handle `h`; handle 0 is left out.
pub open spec fn handle_after(h: u16, k: int) -> u16 {
    if h + k > 0xFFFF {
        (h + k - 0xFFFF) as u16
    } else {
        (h + k) as u16
    }
}

/// Whether a link of a group waits for its creation.
pub open spec fn waiting(l: SyncLinkEntry, id: u8, ty: SyncLinkType) -> bool {
    member(l, id, ty) && l.state == SyncLinkState::Configured
}

/// How many of the first `n` links wait for their creation.
pub open spec fn waiting_below(s: Seq<SyncLinkEntry>, id: u8, ty: SyncLinkType, n: int) -> int
    decreases n,
{
    if n <= 0 {
        0
    } else {
        waiting_below(s, id, ty, n - 1) + if waiting(s[n - 1], id, ty) {
            1int
        } else {
            0
        }
    }
}

/// The links after those of a group that wait were created, in order, as long as there
/// are connections for them.
pub open spec fn created(
    s: Seq<SyncLinkEntry>,
    id: u8,
    ty: SyncLinkType,
    acl: Seq<u16>,
) -> Seq<SyncLinkEntry> {
    Seq::new(
        s.len(),
        |i: int|
            if waiting(s[i], id, ty) && waiting_below(s, id, ty, i) < acl.len() {
                SyncLinkEntry {
                    acl_handle: acl[waiting_below(s, id, ty, i)],
                    state: SyncLinkState::Active,
                    ..s[i]
                }
            } else {
                s[i]
            },
    )
}

/// How many links are created.
pub open spec fn created_count(
    s: Seq<SyncLinkEntry>,
    id: u8,
    ty: SyncLinkType,
    acl: Seq<u16>,
) -> int {
    let w = waiting_below(s, id, ty, s.len() as int);
    if w < acl.len() {
        w
    } else {
        acl.len() as int
    }
}

/// Whether a link of a group is active.
pub open spec fn any_active(s: Seq<SyncLinkEntry>, id: u8, ty: SyncLinkType) -> bool {
    exists|i: int|
        0 <= i < s.len() && member(#[trigger] s[i], id, ty) && s[i].state == SyncLinkState::Active
}

/// Whether a group has a link.
pub open spec fn any_member(s: Seq<SyncLinkEntry>, id: u8, ty: SyncLinkType) -> bool {
    exists|i: int| 0 <= i < s.len() && member(#[trigger] s[i], id, ty)
}

/// Whether `i` is the place of the first link of handle `h`.
pub open spec fn link_at(s: Seq<SyncLinkEntry>, h: u16, i: int) -> bool {
    &&& 0 <= i < s.len()
    &&& s[i].handle == h
    &&& forall|j: int| 0 <= j < i ==> (#[trigger] s[j]).handle != h
}

/// Whether there is a link of handle `h`.
pub open spec fn has_link(s: Seq<SyncLinkEntry>, h: u16) -> bool {
    exists|i: int| 0 <= i < s.len() && (#[trigger] s[i]).handle == h
}

/// The place of the first link of handle `h`.
pub open spec fn link_pos(s: Seq<SyncLinkEntry>, h: u16) -> int {
    choose|i: int| link_at(s, h, i)
}

proof fn link_pos_is(s: Seq<SyncLinkEntry>, h: u16, i: int)
    requires
        link_at(s, h, i),
    ensures
        link_pos(s, h) == i,
        has_link(s, h),
{
    let j = link_pos(s, h);
    assert(link_at(s, h, j));
    if j < i {
        assert(s[j].handle != h);
    }
    if i < j {
        assert(s[i].handle != h);
    }
}

/// A link without its data path.
pub open spec fn without_path(l: SyncLinkEntry) -> SyncLinkEntry {
    SyncLinkEntry {
        datapath_direction: 0,
        datapath_id: 0,
        codec_id: 0,
        datapath_configured: false,
        ..l
    }
}

/// All synchronous links.
pub struct SyncLinks {
    /// The links, oldest first.
    pub links: Vec<SyncLinkEntry>,
    /// Handle of the next link, never 0.
    pub next_handle: u16,
}

impl SyncLinks {
    /// The next handle is not 0, and no group is too large.
    pub open spec fn wf(self) -> bool {
        self.next_handle >= 1 && small_groups(self.links@)
    }

    /// No links.
    pub fn new() -> (r: Self)
        ensures
            r.wf(),
            r.links@ == Seq::<SyncLinkEntry>::empty(),
            r.next_handle == 1,
    {
        SyncLinks { links: Vec::new(), next_handle: 1 }
    }

    /// Whether a group of these parameters can be configured.
    pub open spec fn configurable(id: u8, link_count: u8) -> bool {
        id <= MAX_GROUP_ID && 1 <= link_count <= MAX_SYNC_LINKS_PER_CIG
    }

    fn drop_group(&mut self, id: u8, ty: SyncLinkType)
        ensures
            final(self).links@ == others(old(self).links@, id, ty),
            final(self).next_handle == old(self).next_handle,
    {
        let mut kept: Vec<SyncLinkEntry> = Vec::new();
        let mut i: usize = 0;
        while i < self.links.len()
            invariant
                i <= self.links.len(),
                *self == *old(self),
                kept@ == others(self.links@.take(i as int), id, ty),
            decreases self.links.len() - i,
        {
            let l = self.links[i];
            proof {
                let t = self.links@.take(i + 1);
                assert(t.drop_last() == self.links@.take(i as int));
                assert(t.last() == l);
            }
            if l.cig_id != id || l.link_type != ty {
                kept.push(l);
            }
            i = i + 1;
        }
        assert(self.links@.take(i as int) == self.links@);
        self.links = kept;
    }

    fn alloc_handle(&mut self) -> (r: u16)
        requires
            old(self).next_handle >= 1,
        ensures
            final(self).next_handle >= 1,
            r == old(self).next_handle,
            final(self).next_handle == handle_after(old(self).next_handle, 1),
            final(self).links@ == old(self).links@,
    {
        let h = self.next_handle;
        self.next_handle = if h == 0xFFFF {
            1
        } else {
            h + 1
        };
        h
    }

    fn add_group(&mut self, p: &SyncCigParams, ty: SyncLinkType) -> (r: [u16; 8])
        requires
            old(self).next_handle >= 1,
            p.link_count <= 8,
        ensures
            final(self).next_handle >= 1,
            final(self).links@ == old(self).links@ + Seq::new(
                p.link_count as nat,
                |i: int|
                    SyncLinkEntry {
                        link_type: ty,
                        ..unicast_link(*p, handle_after(old(self).next_handle, i), i)
                    },
            ),
            final(self).next_handle == handle_after(old(self).next_handle, p.link_count as int),
            r@ == Seq::new(
                8,
                |i: int|
                    if i < p.link_count {
                        handle_after(old(self).next_handle, i)
                    } else {
                        0
                    },
            ),
    {
        let mut handles: [u16; 8] = [0u16; 8];
        let ghost before = self.links@;
        let ghost first = self.next_handle;
        let ghost fresh = |i: int|
            SyncLinkEntry { link_type: ty, ..unicast_link(*p, handle_after(first, i), i) };
        let mut i: u8 = 0;
        while i < p.link_count
            invariant
                i <= p.link_count <= 8,
                self.next_handle >= 1,
                first >= 1,
                fresh == (|i: int|
                    SyncLinkEntry { link_type: ty, ..unicast_link(*p, handle_after(first, i), i) }),
                self.links@ == before + Seq::new(i as nat, fresh),
                self.next_handle == handle_after(first, i as int),
                handles@ == Seq::new(
                    8,
                    |k: int|
                        if k < i {
                            handle_after(first, k)
                        } else {
                            0
                        },
                ),
            decreases p.link_count - i,
        {
            let handle = self.alloc_handle();
            let link = SyncLinkEntry {
                handle,
                link_type: ty,
                state: SyncLinkState::Configured,
                acl_handle: 0,
                cig_id: p.cig_id,
                cis_id: i,
                sdu_interval_g2t: p.sdu_interval_g2t,
                sdu_interval_t2g: p.sdu_interval_t2g,
                max_sdu_g2t: p.max_sdu_g2t,
                max_sdu_t2g: p.max_sdu_t2g,
                retransmit_g2t: p.retransmit_g2t,
                retransmit_t2g: p.retransmit_t2g,
                max_latency_g2t: p.max_latency_g2t,
                max_latency_t2g: p.max_latency_t2g,
                adapt_mode: p.adapt_mode,
                datapath_direction: 0,
                datapath_id: 0,
                codec_id: 0,
                datapath_configured: false,
            };
            handles[i as usize] = handle;
            self.links.push(link);
            assert(link == fresh(i as int));
            i = i + 1;
            assert(self.links@ == before + Seq::new(i as nat, fresh));
        }
        handles
    }

    /// Configures a unicast group in place of the links of its identifier, or returns
    /// `EINVAL` where the identifier or the number of links is out of range.
    pub fn ucast_configure(&mut self, params: &SyncCigParams) -> (r: Result<SyncCigResult, Errno>)
        requires
            old(self).wf(),
        ensures
            final(self).wf(),
            if Self::configurable(params.cig_id, params.link_count) {
                let first = old(self).next_handle;
                &&& r matches Ok(g) && g.cig_id == params.cig_id && g.link_count
                    == params.link_count && g.handles@ == Seq::new(
                    8,
                    |i: int|
                        if i < params.link_count {
                            handle_after(first, i)
                        } else {
                            0
                        },
                )
                &&& final(self).links@ == others(
                    old(self).links@,
                    params.cig_id,
                    SyncLinkType::Unicast,
                ) + Seq::new(
                    params.link_count as nat,
                    |i: int| unicast_link(*params, handle_after(first, i), i),
                )
                &&& final(self).next_handle == handle_after(first, params.link_count as int)
            } else {
                r == Err::<SyncCigResult, Errno>(Errno::EINVAL) && *final(self) == *old(self)
            },
    {
        if params.cig_id > MAX_GROUP_ID {
            return Err(Errno::EINVAL);
        }
        if params.link_count == 0 || params.link_count as usize > MAX_SYNC_LINKS_PER_CIG {
            return Err(Errno::EINVAL);
        }
        self.drop_group(params.cig_id, SyncLinkType::Unicast);
        let handles = self.add_group(params, SyncLinkType::Unicast);
        proof {
            let first = old(self).next_handle;
            let t = Seq::new(
                params.link_count as nat,
                |i: int| unicast_link(*params, handle_after(first, i), i),
            );
            group_replaced(old(self).links@, t, params.cig_id, SyncLinkType::Unicast);
            assert(self.links@ == others(
                old(self).links@,
                params.cig_id,
                SyncLinkType::Unicast,
            ) + t);
        }
        Ok(SyncCigResult { cig_id: params.cig_id, link_count: params.link_count, handles })
    }

    /// Configures a multicast group in place of the multicast links of its identifier,
    /// or returns `EINVAL` where the identifier or the number of links is out of range.
    pub fn mcast_configure(&mut self, params: &SyncBigParams) -> (r: Result<SyncBigResult, Errno>)
        requires
            old(self).wf(),
        ensures
            final(self).wf(),
            if Self::configurable(params.big_id, params.link_count) {
                let first = old(self).next_handle;
                &&& r matches Ok(g) && g.big_id == params.big_id && g.link_count
                    == params.link_count && g.handles@ == Seq::new(
                    8,
                    |i: int|
                        if i < params.link_count {
                            handle_after(first, i)
                        } else {
                            0
                        },
                )
                &&& final(self).links@ == others(
                    old(self).links@,
                    params.big_id,
                    SyncLinkType::Multicast,
                ) + Seq::new(
                    params.link_count as nat,
                    |i: int| multicast_link(*params, handle_after(first, i), i),
                )
                &&& final(self).next_handle == handle_after(first, params.link_count as int)
            } else {
                r == Err::<SyncBigResult, Errno>(Errno::EINVAL) && *final(self) == *old(self)
            },
    {
        if params.big_id > MAX_GROUP_ID {
            return Err(Errno::EINVAL);
        }
        if params.link_count == 0 || params.link_count as usize > MAX_SYNC_LINKS_PER_CIG {
            return Err(Errno::EINVAL);
        }
        self.drop_group(params.big_id, SyncLinkType::Multicast);
        let p = SyncCigParams {
            cig_id: params.big_id,
            sdu_interval_g2t: params.sdu_interval_g2t,
            sdu_interval_t2g: params.sdu_interval_t2g,
            max_sdu_g2t: params.max_sdu_g2t,
            max_sdu_t2g: params.max_sdu_t2g,
            retransmit_g2t: params.retransmit_g2t,
            retransmit_t2g: params.retransmit_t2g,
            max_latency_g2t: params.max_latency_g2t,
            max_latency_t2g: params.max_latency_t2g,
            adapt_mode: params.adapt_mode,
            link_count: params.link_count,
        };
        let handles = self.add_group(&p, SyncLinkType::Multicast);
        proof {
            let first = old(self).next_handle;
            let t = Seq::new(
                params.link_count as nat,
                |i: int| multicast_link(*params, handle_after(first, i), i),
            );
            group_replaced(old(self).links@, t, params.big_id, SyncLinkType::Multicast);
            assert(self.links@ == others(
                old(self).links@,
                params.big_id,
                SyncLinkType::Multicast,
            ) + t);
        }
        Ok(SyncBigResult { big_id: params.big_id, link_count: params.link_count, handles })
    }

    /// Creates the links of a group that wait, in order, one for each connection of
    /// `acl_handles`, and returns how many, or returns `ENOENT` where there are none.
    pub fn create(&mut self, id: u8, ty: SyncLinkType, acl_handles: &[u16]) -> (r: Result<
        u8,
        Errno,
    >)
        requires
            old(self).wf(),
        ensures
            final(self).wf(),
            final(self).links@ == created(old(self).links@, id, ty, acl_handles@),
            final(self).next_handle == old(self).next_handle,
            match r {
                Ok(n) => n > 0 && n == created_count(old(self).links@, id, ty, acl_handles@),
                Err(e) => e == Errno::ENOENT && created_count(
                    old(self).links@,
                    id,
                    ty,
                    acl_handles@,
                ) == 0,
            },
    {
        let ghost before = self.links@;
        let mut count: u8 = 0;
        let mut i: usize = 0;
        while i < self.links.len()
            invariant
                i <= self.links.len(),
                before == old(self).links@,
                self.next_handle == old(self).next_handle,
                self.links@.len() == before.len(),
                small_groups(before),
                waiting_below(before, id, ty, i as int) >= 0,
                count == (if waiting_below(before, id, ty, i as int) < acl_handles@.len() {
                    waiting_below(before, id, ty, i as int)
                } else {
                    acl_handles@.len() as int
                }),
                forall|k: int|
                    0 <= k < i ==> #[trigger] self.links@[k] == created(
                        before,
                        id,
                        ty,
                        acl_handles@,
                    )[k],
                forall|k: int| i <= k < before.len() ==> #[trigger] self.links@[k] == before[k],
            decreases self.links.len() - i,
        {
            let mut l = self.links[i];
            assert(l == before[i as int]);
            assert(waiting_below(before, id, ty, i + 1) == waiting_below(before, id, ty, i as int)
                + if waiting(before[i as int], id, ty) {
                1int
            } else {
                0
            });
            if l.cig_id == id && l.link_type == ty && l.state == SyncLinkState::Configured {
                let idx = count as usize;
                proof {
                    waiting_are_members(before, id, ty, i + 1);
                }
                if idx < acl_handles.len() {
                    l.acl_handle = acl_handles[idx];
                    l.state = SyncLinkState::Active;
                    self.links.set(i, l);
                    count = count + 1;
                }
            }
            i = i + 1;
        }
        assert(self.links@ == created(before, id, ty, acl_handles@));
        proof {
            same_groups(before, self.links@);
        }
        if count == 0 {
            return Err(Errno::ENOENT);
        }
        Ok(count)
    }

    /// Removes the links of a group; returns `EBUSY` where one of them is active, and
    /// `ENOENT` where there are none.
    pub fn remove(&mut self, id: u8, ty: SyncLinkType) -> (r: Result<(), Errno>)
        requires
            old(self).wf(),
        ensures
            final(self).wf(),
            r == (if any_active(old(self).links@, id, ty) {
                Err::<(), Errno>(Errno::EBUSY)
            } else if any_member(old(self).links@, id, ty) {
                Ok(())
            } else {
                Err(Errno::ENOENT)
            }),
            final(self).links@ == (if r is Ok {
                others(old(self).links@, id, ty)
            } else {
                old(self).links@
            }),
            final(self).next_handle == old(self).next_handle,
    {
        let mut found = false;
        let mut i: usize = 0;
        while i < self.links.len()
            invariant
                i <= self.links.len(),
                old(self).wf(),
                *self == *old(self),
                forall|k: int|
                    0 <= k < i && member(#[trigger] self.links@[k], id, ty)
                        ==> self.links@[k].state != SyncLinkState::Active,
                found == any_member(self.links@.take(i as int), id, ty),
            decreases self.links.len() - i,
        {
            let l = self.links[i];
            proof {
                let t = self.links@.take(i as int);
                let u = self.links@.take(i + 1);
                assert(t == u.drop_last());
                assert(u.last() == l);
                if any_member(t, id, ty) {
                    let k = choose|k: int| 0 <= k < t.len() && member(#[trigger] t[k], id, ty);
                    assert(member(u[k], id, ty));
                }
                if any_member(u, id, ty) && !member(l, id, ty) {
                    let k = choose|k: int| 0 <= k < u.len() && member(#[trigger] u[k], id, ty);
                    assert(member(t[k], id, ty));
                }
            }
            if l.cig_id == id && l.link_type == ty {
                if l.state == SyncLinkState::Active {
                    return Err(Errno::EBUSY);
                }
                found = true;
            }
            i = i + 1;
        }
        assert(self.links@.take(i as int) == self.links@);
        if !found {
            return Err(Errno::ENOENT);
        }
        self.drop_group(id, ty);
        proof {
            group_dropped(old(self).links@, id, ty);
        }
        Ok(())
    }

    fn find(&self, handle: u16) -> (r: Option<usize>)
        ensures
            match r {
                Some(i) => link_at(self.links@, handle, i as int) && link_pos(self.links@, handle)
                    == i && has_link(self.links@, handle),
                None => !has_link(self.links@, handle),
            },
    {
        let mut i: usize = 0;
        while i < self.links.len()
            invariant
                i <= self.links.len(),
                forall|j: int| 0 <= j < i ==> (#[trigger] self.links@[j]).handle != handle,
            decreases self.links.len() - i,
        {
            if self.links[i].handle == handle {
                proof {
                    link_pos_is(self.links@, handle, i as int);
                }
                return Some(i);
            }
            i = i + 1;
        }
        None
    }

    /// Gives a link a data path; returns `ENOENT` where there is no such link and
    /// `EINVAL` where it is not active.
    pub fn datapath_config(
        &mut self,
        sync_handle: u16,
        direction: u8,
        path_id: u8,
        codec_id: u8,
    ) -> (r: Result<(), Errno>)
        requires
            old(self).wf(),
        ensures
            final(self).wf(),
            final(self).next_handle == old(self).next_handle,
            if !has_link(old(self).links@, sync_handle) {
                r == Err::<(), Errno>(Errno::ENOENT) && final(self).links@ == old(self).links@
            } else {
                let i = link_pos(old(self).links@, sync_handle);
                let l = old(self).links@[i];
                if l.state != SyncLinkState::Active {
                    r == Err::<(), Errno>(Errno::EINVAL) && final(self).links@ == old(self).links@
                } else {
                    r == Ok::<(), Errno>(()) && final(self).links@ == old(self).links@.update(
                        i,
                        SyncLinkEntry {
                            datapath_direction: direction,
                            datapath_id: path_id,
                            codec_id,
                            datapath_configured: true,
                            ..l
                        },
                    )
                }
            },
    {
        let i = match self.find(sync_handle) {
            Some(i) => i,
            None => return Err(Errno::ENOENT),
        };
        let mut l = self.links[i];
        if l.state != SyncLinkState::Active {
            return Err(Errno::EINVAL);
        }
        l.datapath_direction = direction;
        l.datapath_id = path_id;
        l.codec_id = codec_id;
        l.datapath_configured = true;
        self.links.set(i, l);
        proof {
            same_groups(old(self).links@, self.links@);
        }
        Ok(())
    }

    /// Takes the data path of a link away; returns `ENOENT` where there is no such link
    /// and `EINVAL` where it has none.
    pub fn datapath_remove(&mut self, sync_handle: u16) -> (r: Result<(), Errno>)
        requires
            old(self).wf(),
        ensures
            final(self).wf(),
            final(self).next_handle == old(self).next_handle,
            if !has_link(old(self).links@, sync_handle) {
                r == Err::<(), Errno>(Errno::ENOENT) && final(self).links@ == old(self).links@
            } else {
                let i = link_pos(old(self).links@, sync_handle);
                let l = old(self).links@[i];
                if !l.datapath_configured {
                    r == Err::<(), Errno>(Errno::EINVAL) && final(self).links@ == old(self).links@
                } else {
                    r == Ok::<(), Errno>(()) && final(self).links@ == old(self).links@.update(
                        i,
                        without_path(l),
                    )
                }
            },
    {
        let i = match self.find(sync_handle) {
            Some(i) => i,
            None => return Err(Errno::ENOENT),
        };
        let mut l = self.links[i];
        if !l.datapath_configured {
            return Err(Errno::EINVAL);
        }
        l.datapath_configured = false;
        l.datapath_direction = 0;
        l.datapath_id = 0;
        l.codec_id = 0;
        self.links.set(i, l);
        proof {
            same_groups(old(self).links@, self.links@);
        }
        Ok(())
    }

    /// The first link of a handle, or `ENOENT`.
    pub fn link_info(&self, sync_handle: u16) -> (r: Result<&SyncLinkEntry, Errno>)
        ensures
            match r {
                Ok(l) => has_link(self.links@, sync_handle) && *l == self.links@[link_pos(
                    self.links@,
                    sync_handle,
                )],
                Err(e) => !has_link(self.links@, sync_handle) && e == Errno::ENOENT,
            },
    {
        match self.find(sync_handle) {
            Some(i) => Ok(&self.links[i]),
            None => Err(Errno::ENOENT),
        }
    }
}

proof fn waiting_are_members(s: Seq<SyncLinkEntry>, id: u8, ty: SyncLinkType, n: int)
    requires
        0 <= n <= s.len(),
    ensures
        waiting_below(s, id, ty, n) <= members(s.take(n), id, ty) <= members(s, id, ty),
    decreases s.len(), n,
{
    if n < s.len() {
        let d = s.drop_last();
        waiting_are_members(d, id, ty, n);
        assert(d.take(n) == s.take(n));
        waiting_same(s, d, id, ty, n);
    } else if n > 0 {
        let d = s.drop_last();
        assert(s.take(n) == s);
        waiting_are_members(d, id, ty, n - 1);
        waiting_same(s, d, id, ty, n - 1);
        assert(d.take(n - 1) == d);
    } else {
        assert(s.take(0) == s);
    }
}

proof fn waiting_same(
    s: Seq<SyncLinkEntry>,
    t: Seq<SyncLinkEntry>,
    id: u8,
    ty: SyncLinkType,
    n: int,
)
    requires
        n <= s.len(),
        n <= t.len(),
        forall|i: int| 0 <= i < n ==> s[i] == t[i],
    ensures
        waiting_below(s, id, ty, n) == waiting_below(t, id, ty, n),
    decreases n,
{
    if n > 0 {
        waiting_same(s, t, id, ty, n - 1);
    }
}

proof fn members_same(s: Seq<SyncLinkEntry>, t: Seq<SyncLinkEntry>, id: u8, ty: SyncLinkType)
    requires
        s.len() == t.len(),
        forall|i: int|
            0 <= i < s.len() ==> (#[trigger] t[i]).cig_id == s[i].cig_id && t[i].link_type
                == s[i].link_type,
    ensures
        members(s, id, ty) == members(t, id, ty),
    decreases s.len(),
{
    if s.len() > 0 {
        let a = s.drop_last();
        let b = t.drop_last();
        assert forall|i: int| 0 <= i < a.len() implies (#[trigger] b[i]).cig_id == a[i].cig_id
            && b[i].link_type == a[i].link_type by {
            assert(t[i].cig_id == s[i].cig_id);
        }
        members_same(a, b, id, ty);
        assert(t[s.len() - 1].cig_id == s[s.len() - 1].cig_id);
    }
}

/// Links that stay in their groups leave the groups as large as they were.
proof fn same_groups(s: Seq<SyncLinkEntry>, t: Seq<SyncLinkEntry>)
    requires
        small_groups(s),
        s.len() == t.len(),
        forall|i: int|
            0 <= i < s.len() ==> (#[trigger] t[i]).cig_id == s[i].cig_id && t[i].link_type
                == s[i].link_type,
    ensures
        small_groups(t),
{
    assert forall|id: u8, ty: SyncLinkType| #[trigger]
        members(t, id, ty) <= MAX_SYNC_LINKS_PER_CIG by {
        members_same(s, t, id, ty);
    }
}

proof fn members_of_others(
    s: Seq<SyncLinkEntry>,
    id: u8,
    ty: SyncLinkType,
    id2: u8,
    ty2: SyncLinkType,
)
    ensures
        members(others(s, id, ty), id2, ty2) == (if id == id2 && ty == ty2 {
            0
        } else {
            members(s, id2, ty2)
        }),
    decreases s.len(),
{
    if s.len() > 0 {
        members_of_others(s.drop_last(), id, ty, id2, ty2);
        if !member(s.last(), id, ty) {
            let o = others(s.drop_last(), id, ty);
            assert(o.push(s.last()).drop_last() == o);
        }
    }
}

proof fn group_dropped(s: Seq<SyncLinkEntry>, id: u8, ty: SyncLinkType)
    requires
        small_groups(s),
    ensures
        small_groups(others(s, id, ty)),
{
    assert forall|id2: u8, ty2: SyncLinkType| #[trigger]
        members(others(s, id, ty), id2, ty2) <= MAX_SYNC_LINKS_PER_CIG by {
        members_of_others(s, id, ty, id2, ty2);
    }
}

proof fn members_added(s: Seq<SyncLinkEntry>, t: Seq<SyncLinkEntry>, id: u8, ty: SyncLinkType)
    ensures
        members(s + t, id, ty) == members(s, id, ty) + members(t, id, ty),
    decreases t.len(),
{
    if t.len() == 0 {
        assert(s + t == s);
    } else {
        members_added(s, t.drop_last(), id, ty);
        assert((s + t).drop_last() == s + t.drop_last());
    }
}

proof fn members_alike(
    t: Seq<SyncLinkEntry>,
    id: u8,
    ty: SyncLinkType,
    id2: u8,
    ty2: SyncLinkType,
)
    requires
        forall|i: int| 0 <= i < t.len() ==> member(#[trigger] t[i], id, ty),
    ensures
        members(t, id2, ty2) == (if id == id2 && ty == ty2 {
            t.len() as int
        } else {
            0
        }),
    decreases t.len(),
{
    if t.len() > 0 {
        let d = t.drop_last();
        assert forall|i: int| 0 <= i < d.len() implies member(#[trigger] d[i], id, ty) by {
            assert(member(t[i], id, ty));
        }
        members_alike(d, id, ty, id2, ty2);
        assert(member(t[t.len() - 1], id, ty));
    }
}

/// A new group in place of the old one leaves no group too large.
proof fn group_replaced(
    s: Seq<SyncLinkEntry>,
    t: Seq<SyncLinkEntry>,
    id: u8,
    ty: SyncLinkType,
)
    requires
        small_groups(s),
        t.len() <= MAX_SYNC_LINKS_PER_CIG,
        forall|i: int| 0 <= i < t.len() ==> member(#[trigger] t[i], id, ty),
    ensures
        small_groups(others(s, id, ty) + t),
{
    assert forall|id2: u8, ty2: SyncLinkType| #[trigger]
        members(others(s, id, ty) + t, id2, ty2) <= MAX_SYNC_LINKS_PER_CIG by {
        members_added(others(s, id, ty), t, id2, ty2);
        members_of_others(s, id, ty, id2, ty2);
        members_alike(t, id, ty, id2, ty2);
    }
}

/// Taking the links of a group away leaves every other group as large as it was, that of the
/// other kind of the same identifier among them.
pub proof fn groups_are_apart(
    s: Seq<SyncLinkEntry>,
    id: u8,
    ty: SyncLinkType,
    id2: u8,
    ty2: SyncLinkType,
)
    requires
        id != id2 || ty != ty2,
    ensures
        members(others(s, id, ty), id2, ty2) == members(s, id2, ty2),
        members(others(s, id, ty), id, ty) == 0,
{
    members_of_others(s, id, ty, id2, ty2);
    members_of_others(s, id, ty, id, ty);
}

/// The links that do not belong to a group are all there, and only they.
pub proof fn others_exact(s: Seq<SyncLinkEntry>, id: u8, ty: SyncLinkType, l: SyncLinkEntry)
    ensures
        others(s, id, ty).contains(l) <==> s.contains(l) && !member(l, id, ty),
    decreases s.len(),
{
    if s.len() > 0 {
        let d = s.drop_last();
        others_exact(d, id, ty, l);
        let o = others(d, id, ty);
        assert(s == d.push(s.last()));
        if s.contains(l) {
            let k = choose|k: int| 0 <= k < s.len() && s[k] == l;
            if k < d.len() {
                assert(d[k] == l);
            }
        }
        if d.contains(l) {
            let k = choose|k: int| 0 <= k < d.len() && d[k] == l;
            assert(s[k] == l);
        }
        assert(s[s.len() - 1] == s.last());
        if !member(s.last(), id, ty) {
            let p = o.push(s.last());
            assert(p[p.len() - 1] == s.last());
            if o.contains(l) {
                let k = choose|k: int| 0 <= k < o.len() && o[k] == l;
                assert(p[k] == l);
            }
            if p.contains(l) {
                let k = choose|k: int| 0 <= k < p.len() && p[k] == l;
                if k < o.len() {
                    assert(o[k] == l);
                }
            }
        }
    }
}

/// A group of which links were created cannot be removed.
pub proof fn created_group_stays(s: Seq<SyncLinkEntry>, id: u8, ty: SyncLinkType, acl: Seq<u16>)
    requires
        created_count(s, id, ty, acl) > 0,
    ensures
        any_active(created(s, id, ty, acl), id, ty),
{
    let n = first_waiting(s, id, ty, s.len() as int);
    let c = created(s, id, ty, acl);
    assert(member(c[n], id, ty) && c[n].state == SyncLinkState::Active);
}

proof fn first_waiting(s: Seq<SyncLinkEntry>, id: u8, ty: SyncLinkType, n: int) -> (r: int)
    requires
        0 <= n <= s.len(),
        waiting_below(s, id, ty, n) > 0,
    ensures
        0 <= r < n,
        waiting(s[r], id, ty),
        waiting_below(s, id, ty, r) == 0,
    decreases n,
{
    if waiting_below(s, id, ty, n - 1) > 0 {
        first_waiting(s, id, ty, n - 1)
    } else {
        never_negative(s, id, ty, n - 1);
        n - 1
    }
}

proof fn never_negative(s: Seq<SyncLinkEntry>, id: u8, ty: SyncLinkType, n: int)
    ensures
        waiting_below(s, id, ty, n) >= 0,
    decreases n,
{
    if n > 0 {
        never_negative(s, id, ty, n - 1);
    }
}

/// Taking the data path away undoes giving one, to a link that had none.
pub proof fn path_undone(l: SyncLinkEntry, direction: u8, path_id: u8, codec: u8)
    requires
        l == without_path(l),
    ensures
        without_path(
            SyncLinkEntry {
                datapath_direction: direction,
                datapath_id: path_id,
                codec_id: codec,
                datapath_configured: true,
                ..l
            },
        ) == l,
{
}

} // verus!
