//! Private addresses that only peers with the right key can resolve.

use vstd::prelude::*;

use crate::bytes;
use crate::errno::Errno;
use crate::sle_crypto;

verus! {

/// Most peers of the list.
pub const RAL_MAX_ENTRIES: usize = 8;

/// A peer and the keys by which it and this side resolve each other's addresses.
#[derive(Clone, Copy)]
pub struct RalEntry {
    /// Kind of the peer's identity address.
    pub peer_id_type: u8,
    /// Algorithms: bit 0 of this side, bit 1 of the peer; set for a keyed hash.
    pub resolve_algo: u8,
    /// Number of the peer's key.
    pub peer_irkid: u8,
    /// Number of the key of this side.
    pub local_irkid: u8,
    /// Identity address of the peer.
    pub peer_id: [u8; 6],
    /// Key of the peer.
    pub peer_irk: [u8; 16],
    /// Key of this side.
    pub local_irk: [u8; 16],
}

/// Whether `e` is the entry of a peer.
pub open spec fn is_peer(e: RalEntry, ty: u8, id: Seq<u8>) -> bool {
    e.peer_id_type == ty && e.peer_id@ == id
}

/// Whether the list has a peer.
pub open spec fn listed(s: Seq<RalEntry>, ty: u8, id: Seq<u8>) -> bool {
    exists|i: int| 0 <= i < s.len() && is_peer(#[trigger] s[i], ty, id)
}

/// No peer is in the list twice.
pub open spec fn distinct(s: Seq<RalEntry>) -> bool {
    forall|i: int, j: int|
        0 <= i < j < s.len() ==> !is_peer(
            #[trigger] s[i],
            (#[trigger] s[j]).peer_id_type,
            s[j].peer_id@,
        )
}

/// The place of a peer in the list.
pub open spec fn place(s: Seq<RalEntry>, ty: u8, id: Seq<u8>) -> int {
    choose|i: int| 0 <= i < s.len() && is_peer(#[trigger] s[i], ty, id)
}

/// The random part of an address: the start of a digest, marked as resolvable by its top
/// two bits.
pub open spec fn prand(d: Seq<u8>) -> Seq<u8> {
    seq![(d[0] % 64 + 64) as u8, d[1], d[2]]
}

/// Whether `a` is a private address for a key: three bytes of the keyed hash of the random
/// part, and the random part, which is the start of the hash of the key.
pub open spec fn rpa_of<H: Fn(&[u8]) -> [u8; 32], M: Fn(&[u8], &[u8]) -> [u8; 32]>(
    hash: H,
    mac: M,
    irk: Seq<u8>,
    a: Seq<u8>,
) -> bool {
    exists|d: Seq<u8>, m: Seq<u8>|
        #[trigger] sle_crypto::hash_gives(hash, irk, d) && #[trigger] sle_crypto::mac_gives(
            mac,
            irk,
            prand(d),
            m,
        ) && a == m.take(3) + prand(d)
}

/// A private address says that it can be resolved: the top two bits of its fourth byte
/// are 01.
pub proof fn rpa_is_marked<H: Fn(&[u8]) -> [u8; 32], M: Fn(&[u8], &[u8]) -> [u8; 32]>(
    hash: H,
    mac: M,
    irk: Seq<u8>,
    a: Seq<u8>,
)
    requires
        rpa_of(hash, mac, irk, a),
    ensures
        a.len() == 6,
        a[3] / 64 == 1,
{
    let (d, m) = choose|d: Seq<u8>, m: Seq<u8>|
        #[trigger] sle_crypto::hash_gives(hash, irk, d) && #[trigger] sle_crypto::mac_gives(
            mac,
            irk,
            prand(d),
            m,
        ) && a == m.take(3) + prand(d);
    assert(m.len() == 32);
}

/// A private address can be resolved with the key it was made from: its first three bytes
/// are the start of the keyed hash of the last three.
pub proof fn rpa_resolves<H: Fn(&[u8]) -> [u8; 32], M: Fn(&[u8], &[u8]) -> [u8; 32]>(
    hash: H,
    mac: M,
    irk: Seq<u8>,
    a: Seq<u8>,
)
    requires
        rpa_of(hash, mac, irk, a),
    ensures
        exists|m: Seq<u8>|
            #[trigger] sle_crypto::mac_gives(mac, irk, a.skip(3), m) && a.take(3) == m.take(3),
{
    let (d, m) = choose|d: Seq<u8>, m: Seq<u8>|
        #[trigger] sle_crypto::hash_gives(hash, irk, d) && #[trigger] sle_crypto::mac_gives(
            mac,
            irk,
            prand(d),
            m,
        ) && a == m.take(3) + prand(d);
    assert(m.len() == 32);
    assert(a.skip(3) =~= prand(d));
    assert(a.take(3) =~= m.take(3));
    assert(sle_crypto::mac_gives(mac, irk, a.skip(3), m));
}

/// The list of peers, and whether their addresses are resolved.
pub struct RpaManager {
    entries: Vec<RalEntry>,
    enabled: bool,
    timeout_secs: u16,
}

/// The list of peers as a value.
#[verifier::ext_equal]
pub struct RpaModel {
    /// Peers.
    pub entries: Seq<RalEntry>,
    /// Whether addresses are resolved.
    pub enabled: bool,
    /// Seconds after which an address is renewed, 0 for never.
    pub timeout_secs: u16,
}

impl View for RpaManager {
    type V = RpaModel;

    closed spec fn view(&self) -> RpaModel {
        RpaModel {
            entries: self.entries@,
            enabled: self.enabled,
            timeout_secs: self.timeout_secs,
        }
    }
}

impl RpaManager {
    /// There are at most eight peers, each listed once.
    pub open spec fn wf(self) -> bool {
        self@.entries.len() <= RAL_MAX_ENTRIES && distinct(self@.entries)
    }

    /// No peers.
    pub fn new() -> (r: Self)
        ensures
            r.wf(),
            r@ == (RpaModel { entries: Seq::empty(), enabled: false, timeout_secs: 0 }),
    {
        RpaManager { entries: Vec::new(), enabled: false, timeout_secs: 0 }
    }

    fn find(&self, ty: u8, id: &[u8; 6]) -> (r: Option<usize>)
        requires
            self.wf(),
        ensures
            match r {
                Some(i) => i < self.entries@.len() && is_peer(self.entries@[i as int], ty, id@)
                    && listed(self@.entries, ty, id@) && place(self@.entries, ty, id@) == i,
                None => !listed(self@.entries, ty, id@),
            },
    {
        let mut i: usize = 0;
        while i < self.entries.len()
            invariant
                i <= self.entries.len(),
                self.wf(),
                forall|j: int| 0 <= j < i ==> !is_peer(#[trigger] self.entries@[j], ty, id@),
            decreases self.entries.len() - i,
        {
            if self.entries[i].peer_id_type == ty && bytes::same(&self.entries[i].peer_id, id) {
                proof {
                    let s = self@.entries;
                    assert(is_peer(s[i as int], ty, id@));
                    let j = place(s, ty, id@);
                    assert(is_peer(s[j], ty, id@));
                    if j > i {
                        assert(!is_peer(s[i as int], s[j].peer_id_type, s[j].peer_id@));
                    }
                }
                return Some(i);
            }
            i = i + 1;
        }
        None
    }

    /// Adds a peer. Returns `EBUSY` where addresses are being resolved, `ENOMEM` where the
    /// list is full and `EEXIST` where the peer is listed already.
    pub fn ral_add(&mut self, entry: RalEntry) -> (r: Result<(), Errno>)
        requires
            old(self).wf(),
        ensures
            final(self).wf(),
            if old(self)@.enabled {
                r == Err::<(), Errno>(Errno::EBUSY) && final(self)@ == old(self)@
            } else if old(self)@.entries.len() >= RAL_MAX_ENTRIES {
                r == Err::<(), Errno>(Errno::ENOMEM) && final(self)@ == old(self)@
            } else if listed(old(self)@.entries, entry.peer_id_type, entry.peer_id@) {
                r == Err::<(), Errno>(Errno::EEXIST) && final(self)@ == old(self)@
            } else {
                r == Ok::<(), Errno>(()) && final(self)@ == (RpaModel {
                    entries: old(self)@.entries.push(entry),
                    ..old(self)@
                })
            },
    {
        if self.enabled {
            return Err(Errno::EBUSY);
        }
        if self.entries.len() >= RAL_MAX_ENTRIES {
            return Err(Errno::ENOMEM);
        }
        if self.find(entry.peer_id_type, &entry.peer_id).is_some() {
            return Err(Errno::EEXIST);
        }
        self.entries.push(entry);
        Ok(())
    }

    /// Takes a peer out; the last one takes its place. Returns `EBUSY` where addresses are
    /// being resolved and `ENOENT` where the peer is not listed.
    pub fn ral_remove(&mut self, peer_id_type: u8, peer_id: &[u8; 6]) -> (r: Result<(), Errno>)
        requires
            old(self).wf(),
        ensures
            final(self).wf(),
            if old(self)@.enabled {
                r == Err::<(), Errno>(Errno::EBUSY) && final(self)@ == old(self)@
            } else if listed(old(self)@.entries, peer_id_type, peer_id@) {
                let s = old(self)@.entries;
                r == Ok::<(), Errno>(()) && final(self)@ == (RpaModel {
                    entries: s.update(place(s, peer_id_type, peer_id@), s.last()).drop_last(),
                    ..old(self)@
                }) && !listed(final(self)@.entries, peer_id_type, peer_id@)
            } else {
                r == Err::<(), Errno>(Errno::ENOENT) && final(self)@ == old(self)@
            },
    {
        if self.enabled {
            return Err(Errno::EBUSY);
        }
        let i = match self.find(peer_id_type, peer_id) {
            Some(i) => i,
            None => return Err(Errno::ENOENT),
        };
        let last = self.entries.len() - 1;
        let moved = self.entries[last];
        self.entries.set(i, moved);
        let _ = self.entries.pop();
        proof {
            let s = old(self)@.entries;
            let t = self@.entries;
            assert(t =~= s.update(i as int, s.last()).drop_last());
            assert forall|a: int, b: int| 0 <= a < b < t.len() implies !is_peer(
                #[trigger] t[a],
                (#[trigger] t[b]).peer_id_type,
                t[b].peer_id@,
            ) by {
                let x = if a == i {
                    last as int
                } else {
                    a
                };
                let y = if b == i {
                    last as int
                } else {
                    b
                };
                if x < y {
                    assert(!is_peer(s[x], s[y].peer_id_type, s[y].peer_id@));
                } else {
                    assert(!is_peer(s[y], s[x].peer_id_type, s[x].peer_id@));
                }
            }
            assert forall|a: int| 0 <= a < t.len() implies !is_peer(
                #[trigger] t[a],
                peer_id_type,
                peer_id@,
            ) by {
                let x = if a == i {
                    last as int
                } else {
                    a
                };
                if x < i {
                    assert(!is_peer(s[x], s[i as int].peer_id_type, s[i as int].peer_id@));
                } else {
                    assert(!is_peer(s[i as int], s[x].peer_id_type, s[x].peer_id@));
                }
            }
        }
        Ok(())
    }

    /// Takes all peers out, or returns `EBUSY` where addresses are being resolved.
    pub fn ral_clear(&mut self) -> (r: Result<(), Errno>)
        requires
            old(self).wf(),
        ensures
            final(self).wf(),
            if old(self)@.enabled {
                r == Err::<(), Errno>(Errno::EBUSY) && final(self)@ == old(self)@
            } else {
                r == Ok::<(), Errno>(()) && final(self)@ == (RpaModel {
                    entries: Seq::empty(),
                    ..old(self)@
                })
            },
    {
        if self.enabled {
            return Err(Errno::EBUSY);
        }
        self.entries = Vec::new();
        Ok(())
    }

    /// Number of peers.
    pub fn ral_size(&self) -> (r: u8)
        requires
            self.wf(),
        ensures
            r == self@.entries.len(),
    {
        self.entries.len() as u8
    }

    /// A private address for a key.
    pub fn generate_rpa<H: Fn(&[u8]) -> [u8; 32], M: Fn(&[u8], &[u8]) -> [u8; 32]>(
        irk: &[u8; 16],
        hash: H,
        mac: M,
    ) -> (r: [u8; 6])
        requires
            forall|s: &[u8]| call_requires(hash, (s,)),
            forall|k: &[u8], s: &[u8]| call_requires(mac, (k, s)),
        ensures
            rpa_of(hash, mac, irk@, r@),
    {
        let key = bytes::to_vec(irk);
        let pk = hash(key.as_slice());
        assert(sle_crypto::hash_gives(hash, irk@, pk@));
        let part: [u8; 3] = [pk[0] % 64 + 64, pk[1], pk[2]];
        let p = bytes::to_vec(&part);
        assert(p@ =~= prand(pk@));
        let h = mac(key.as_slice(), p.as_slice());
        assert(sle_crypto::mac_gives(mac, irk@, prand(pk@), h@));
        let r: [u8; 6] = [h[0], h[1], h[2], part[0], part[1], part[2]];
        assert(r@ =~= h@.take(3) + prand(pk@));
        r
    }

    /// A private address of a peer, or `ENOENT` where it is not listed.
    pub fn read_peer_rpa<H: Fn(&[u8]) -> [u8; 32], M: Fn(&[u8], &[u8]) -> [u8; 32]>(
        &self,
        peer_id_type: u8,
        peer_id: &[u8; 6],
        hash: H,
        mac: M,
    ) -> (r: Result<[u8; 6], Errno>)
        requires
            self.wf(),
            forall|s: &[u8]| call_requires(hash, (s,)),
            forall|k: &[u8], s: &[u8]| call_requires(mac, (k, s)),
        ensures
            match r {
                Ok(a) => listed(self@.entries, peer_id_type, peer_id@) && rpa_of(
                    hash,
                    mac,
                    self@.entries[place(self@.entries, peer_id_type, peer_id@)].peer_irk@,
                    a@,
                ),
                Err(e) => !listed(self@.entries, peer_id_type, peer_id@) && e == Errno::ENOENT,
            },
    {
        match self.find(peer_id_type, peer_id) {
            Some(i) => Ok(Self::generate_rpa(&self.entries[i].peer_irk, hash, mac)),
            None => Err(Errno::ENOENT),
        }
    }

    /// A private address of this side: by the key kept with the entry of that identity, or
    /// with the first entry where there is none. Returns `ENOENT` where the list is empty.
    pub fn read_local_rpa<H: Fn(&[u8]) -> [u8; 32], M: Fn(&[u8], &[u8]) -> [u8; 32]>(
        &self,
        local_id_type: u8,
        local_id: &[u8; 6],
        hash: H,
        mac: M,
    ) -> (r: Result<[u8; 6], Errno>)
        requires
            self.wf(),
            forall|s: &[u8]| call_requires(hash, (s,)),
            forall|k: &[u8], s: &[u8]| call_requires(mac, (k, s)),
        ensures
            match r {
                Ok(a) => {
                    let s = self@.entries;
                    let i = if listed(s, local_id_type, local_id@) {
                        place(s, local_id_type, local_id@)
                    } else {
                        0
                    };
                    s.len() > 0 && rpa_of(hash, mac, s[i].local_irk@, a@)
                },
                Err(e) => self@.entries.len() == 0 && e == Errno::ENOENT,
            },
    {
        match self.find(local_id_type, local_id) {
            Some(i) => Ok(Self::generate_rpa(&self.entries[i].local_irk, hash, mac)),
            None => if self.entries.len() > 0 {
                Ok(Self::generate_rpa(&self.entries[0].local_irk, hash, mac))
            } else {
                Err(Errno::ENOENT)
            },
        }
    }

    /// Turns resolution on or off.
    pub fn set_enabled(&mut self, enable: bool)
        requires
            old(self).wf(),
        ensures
            final(self).wf(),
            final(self)@ == (RpaModel { enabled: enable, ..old(self)@ }),
    {
        self.enabled = enable;
    }

    /// Whether addresses are resolved.
    pub fn is_enabled(&self) -> (r: bool)
        ensures
            r == self@.enabled,
    {
        self.enabled
    }

    /// Sets the seconds after which an address is renewed.
    pub fn set_timeout(&mut self, secs: u16)
        requires
            old(self).wf(),
        ensures
            final(self).wf(),
            final(self)@ == (RpaModel { timeout_secs: secs, ..old(self)@ }),
    {
        self.timeout_secs = secs;
    }

    /// The seconds after which an address is renewed.
    pub fn timeout(&self) -> (r: u16)
        ensures
            r == self@.timeout_secs,
    {
        self.timeout_secs
    }
}

} // verus!
