//! Laws of pairing: what goes into the keys, and who has to be asked.

use vstd::prelude::*;

use crate::errno::Errno;
use crate::sle_crypto;
use crate::sle_crypto::EcdhKeyPair;
use crate::sle_security;
use crate::sle_security::{PairingMethod, SecModel, SecurityInner, SecurityMode, SecurityState};

verus! {

/// The bytes of a text.
pub open spec fn ascii(s: Seq<char>) -> Seq<u8> {
    s.map_values(|c: char| c as u8)
}

/// Whether a call of the hash function on `x` returned `y`.
pub open spec fn hashed<H: Fn(&[u8]) -> [u8; 32]>(h: H, x: Seq<u8>, y: Seq<u8>) -> bool {
    exists|s: &[u8], o: [u8; 32]| s@ == x && #[trigger] call_ensures(h, (s,), o) && o@ == y
}

/// Whether a call of the keyed hash function with key `k` on `x` returned `y`.
pub open spec fn keyed<M: Fn(&[u8], &[u8]) -> [u8; 32]>(
    m: M,
    k: Seq<u8>,
    x: Seq<u8>,
    y: Seq<u8>,
) -> bool {
    exists|t: &[u8], s: &[u8], o: [u8; 32]|
        t@ == k && s@ == x && #[trigger] call_ensures(m, (t, s), o) && o@ == y
}

/// Whether a context has the session keys of a link key: the first halves of the keyed hashes
/// of two texts, of which the second also gives the nonce of the stream; both counters start
/// at 0.
pub open spec fn session<M: Fn(&[u8], &[u8]) -> [u8; 32]>(
    m: M,
    link: Seq<u8>,
    c: SecModel,
) -> bool {
    exists|e: Seq<u8>, i: Seq<u8>|
        {
            &&& #[trigger] keyed(m, link, ascii("sparklink_enc_key"@), e)
            &&& #[trigger] keyed(m, link, ascii("sparklink_int_key"@), i)
            &&& c.enc_key == Some(e.take(16))
            &&& c.int_key == Some(i.take(16))
            &&& c.cipher_key == c.enc_key
            &&& c.ctr_nonce == i.take(12)
            &&& c.tx_counter == 0
            &&& c.rx_counter == 0
        }
}

/// The handle that stands before a reply, lowest byte first.
pub open spec fn headed(r: Seq<u8>, handle: u16) -> bool {
    r.len() >= 2 && r[0] + 0x100 * r[1] == handle
}

proof fn labels()
    ensures
        ascii("sparklink_enc_key"@) == sle_crypto::enc_label(),
        ascii("sparklink_int_key"@) == sle_crypto::int_label(),
        ascii("sparklink_local_nonce_seed"@) == sle_security::nonce_label(),
{
    reveal_strlit("sparklink_enc_key");
    reveal_strlit("sparklink_int_key");
    reveal_strlit("sparklink_local_nonce_seed");
    assert(ascii("sparklink_enc_key"@) =~= sle_crypto::enc_label());
    assert(ascii("sparklink_int_key"@) =~= sle_crypto::int_label());
    assert(ascii("sparklink_local_nonce_seed"@) =~= sle_security::nonce_label());
}

proof fn has_session<M: Fn(&[u8], &[u8]) -> [u8; 32]>(
    m: M,
    link: Seq<u8>,
    enc: Seq<u8>,
    ik: Seq<u8>,
    c: SecModel,
)
    requires
        sle_security::derived(m, link, enc, ik),
        c.enc_key == Some(enc),
        c.int_key == Some(ik),
        c.cipher_key == Some(enc),
        c.ctr_nonce == ik.take(12),
        c.tx_counter == 0,
        c.rx_counter == 0,
    ensures
        session(m, link, c),
{
    labels();
    let e = choose|e: Seq<u8>|
        #![trigger sle_crypto::mac_gives(m, link, sle_crypto::enc_label(), e)]
        sle_crypto::mac_gives(m, link, sle_crypto::enc_label(), e) && enc == e.take(16);
    let i = choose|i: Seq<u8>|
        #![trigger sle_crypto::mac_gives(m, link, sle_crypto::int_label(), i)]
        sle_crypto::mac_gives(m, link, sle_crypto::int_label(), i) && ik == i.take(16);
    let (t, s, o) = choose|t: &[u8], s: &[u8], o: [u8; 32]|
        t@ == link && s@ == sle_crypto::enc_label() && #[trigger] call_ensures(m, (t, s), o)
            && o@ == e;
    let (u, v, w) = choose|t: &[u8], s: &[u8], o: [u8; 32]|
        t@ == link && s@ == sle_crypto::int_label() && #[trigger] call_ensures(m, (t, s), o)
            && o@ == i;
    assert(call_ensures(m, (t, s), o) && call_ensures(m, (u, v), w));
    assert(keyed(m, link, ascii("sparklink_enc_key"@), e));
    assert(keyed(m, link, ascii("sparklink_int_key"@), i));
    assert(ik.take(12) =~= i.take(12));
}

/// A fresh context knows nothing and protects everything.
pub proof fn fresh_context(r: SecurityInner)
    requires
        call_ensures(SecurityInner::new, (), r),
    ensures
        r.state == SecurityState::Idle,
        r.method == PairingMethod::Unpaired,
        r.mode == SecurityMode::EncAndInt,
        r.psk is None && r.local_keypair is None && r.remote_pubkey is None,
        r.dhkey is None && r.link_key is None && r.enc_key is None && r.int_key is None,
        r.sm4_ctx is None,
        r.tx_counter == 0 && r.rx_counter == 0,
        r.passkey is None && r.oob_hash is None && r.pwd_hash is None,
{
    assert(r@.state == SecurityState::Idle);
}

/// Whether a call began pairing by a method, which it does from idle alone.
pub open spec fn begins(
    before: SecModel,
    after: SecModel,
    r: Result<(), Errno>,
    m: PairingMethod,
) -> bool {
    &&& r is Ok <==> before.state == SecurityState::Idle
    &&& r is Ok ==> after == (SecModel { state: SecurityState::Pairing, method: m, ..before })
    &&& r is Err ==> r->Err_0 == Errno::EBUSY && after == before
}

/// Pairing begins by the method that was asked for, where none is under way.
pub proof fn pairing_begins(
    a: &mut SecurityInner,
    b: &mut SecurityInner,
    c: &mut SecurityInner,
    d: &mut SecurityInner,
    m: PairingMethod,
    w: Result<(), Errno>,
    x: Result<(), Errno>,
    y: Result<(), Errno>,
    z: Result<(), Errno>,
)
    requires
        call_ensures(SecurityInner::start_pairing, (a, m), w),
        call_ensures(SecurityInner::pair_just_works, (b,), x),
        call_ensures(SecurityInner::pair_numeric_comparison, (c,), y),
        call_ensures(SecurityInner::pair_passkey_entry, (d,), z),
    ensures
        begins(old(a)@, final(a)@, w, m),
        begins(old(b)@, final(b)@, x, PairingMethod::JustWorks),
        begins(old(c)@, final(c)@, y, PairingMethod::NumericComparison),
        begins(old(d)@, final(d)@, z, PairingMethod::PasskeyEntry),
{
}

/// Pairing that rests on something agreed on before begins only where that is there.
pub proof fn pairing_needs(
    a: &mut SecurityInner,
    b: &mut SecurityInner,
    c: &mut SecurityInner,
    x: Result<(), Errno>,
    y: Result<(), Errno>,
    z: Result<(), Errno>,
)
    requires
        call_ensures(SecurityInner::pair_psk, (a,), x),
        call_ensures(SecurityInner::pair_oob, (b,), y),
        call_ensures(SecurityInner::pair_password, (c,), z),
    ensures
        old(a).psk is Some ==> begins(old(a)@, final(a)@, x, PairingMethod::Psk),
        old(a).psk is None ==> x == Err::<(), Errno>(Errno::EINVAL) && final(a)@ == old(a)@,
        old(b).oob_hash is Some ==> begins(old(b)@, final(b)@, y, PairingMethod::Oob),
        old(b).oob_hash is None ==> y == Err::<(), Errno>(Errno::EINVAL) && final(b)@ == old(b)@,
        old(c).pwd_hash is Some ==> begins(old(c)@, final(c)@, z, PairingMethod::Password),
        old(c).pwd_hash is None ==> z == Err::<(), Errno>(Errno::EINVAL) && final(c)@ == old(c)@,
{
}

/// A secret is kept as it came; of data exchanged on another way and of a password only the
/// hash is kept.
pub proof fn secrets_are_kept<H: Fn(&[u8]) -> [u8; 32]>(
    a: &mut SecurityInner,
    b: &mut SecurityInner,
    c: &mut SecurityInner,
    psk: [u8; 16],
    data: &[u8],
    pwd: &[u8],
    len: u8,
    hash: H,
    r: Result<(), Errno>,
)
    requires
        call_ensures(SecurityInner::set_psk, (a, psk), ()),
        call_ensures(SecurityInner::set_oob_data::<H>, (b, data, hash), ()),
        call_ensures(SecurityInner::set_password::<H>, (c, pwd, len, hash), r),
    ensures
        final(a)@ == (SecModel { psk: Some(psk@), ..old(a)@ }),
        final(b)@ == (SecModel { oob_hash: final(b)@.oob_hash, ..old(b)@ }),
        final(b)@.oob_hash is Some && hashed(hash, data@, final(b)@.oob_hash->0),
        r is Ok <==> 1 <= len <= 32,
        r is Ok ==> final(c)@ == (SecModel { pwd_hash: final(c)@.pwd_hash, ..old(c)@ }),
        r is Ok ==> final(c)@.pwd_hash is Some && hashed(
            hash,
            pwd@.take(len as int),
            final(c)@.pwd_hash->0,
        ),
        r is Err ==> r->Err_0 == Errno::EINVAL && final(c)@ == old(c)@,
{
}

/// What this side says it can do.
pub proof fn capabilities(
    s: &mut SecurityInner,
    h: u16,
    io: u8,
    oob: u8,
    auth: u8,
    len: u8,
    dist: u8,
    ind: u8,
    cap: &[u8; 4],
    r: Result<[u8; 12], Errno>,
)
    requires
        call_ensures(
            SecurityInner::on_pair_info_exchange,
            (s, h, io, oob, auth, len, dist, ind, cap),
            r,
        ),
    ensures
        final(s)@ == old(s)@,
        r is Ok <==> old(s).state == SecurityState::Pairing,
        r is Err ==> r->Err_0 == Errno::EBUSY,
        r matches Ok(p) ==> headed(p@, h) && p@[2] == 4 && p@[3] == 0 && p@[4] == auth && p@[5]
            == 16 && p@[6] == 3 && p@[7] == 3 && p@[8] == 3 && p@[9] == 1 && p@[10] == 2 && (p@[11]
            == 1 <==> old(s).method == PairingMethod::Psk && old(s).psk is Some) && p@[11] <= 1,
{
}

/// The methods that a controller chooses from.
pub proof fn chosen_methods(x: u8, r: PairingMethod)
    requires
        call_ensures(sle_security::method_of, (x,), r),
    ensures
        r == PairingMethod::NumericComparison <==> x == 0,
        r == PairingMethod::PasskeyEntry <==> x == 2,
        r == PairingMethod::Password <==> x == 3,
        r == PairingMethod::Oob <==> x == 4,
        r == PairingMethod::Psk <==> x == 5,
        r == PairingMethod::JustWorks <==> x == 1 || x > 5,
{
}

/// The controller's choice of a method is taken over, the peer's key is kept, and the reply
/// holds the first half of the public key of this side.
pub proof fn keys_are_exchanged<G: Fn() -> Option<EcdhKeyPair>>(
    s: &mut SecurityInner,
    h: u16,
    len: u8,
    auth: u8,
    alg: &[u8; 4],
    key: &[u8],
    source: G,
    r: Result<[u8; 34], Errno>,
    m: PairingMethod,
)
    requires
        call_ensures(
            SecurityInner::on_pair_option_report::<G>,
            (s, h, len, auth, alg, key, source),
            r,
        ),
        call_ensures(sle_security::method_of, (auth,), m),
    ensures
        old(s).state != SecurityState::Pairing ==> r == Err::<[u8; 34], Errno>(Errno::EBUSY)
            && final(s)@ == old(s)@,
        old(s).state == SecurityState::Pairing ==> {
            &&& final(s)@ == (SecModel {
                method: m,
                remote_pubkey: final(s)@.remote_pubkey,
                keypair: final(s)@.keypair,
                ..old(s)@
            })
            &&& final(s)@.remote_pubkey is Some
            &&& key@.len() >= 32 ==> (final(s)@.remote_pubkey->0).take(32) == key@.take(32)
        },
        r matches Ok(p) ==> {
            &&& final(s).local_keypair matches Some(k) && p@.skip(2) == k.public_key@.take(32)
            &&& headed(p@, h)
        },
        r is Err && old(s).state == SecurityState::Pairing ==> r->Err_0 == Errno::EINVAL
            && call_ensures(source, (), None) && final(s)@.keypair == old(s)@.keypair,
{
    if s.state == SecurityState::Pairing {
        let k = final(s)@.remote_pubkey->0;
        if key@.len() >= 32 {
            assert(k.take(32) =~= key@.take(32));
        }
        if r is Ok {
            let p = r->Ok_0;
            assert(final(s)@.keypair is Some);
            assert(p@.skip(2) =~= (final(s)@.keypair->0).1.take(32));
        }
    }
}

/// The key pair that is used is one that the generator gave.
pub proof fn keys_come_from_the_generator<G: Fn() -> Option<EcdhKeyPair>>(
    s: &mut SecurityInner,
    h: u16,
    len: u8,
    auth: u8,
    alg: &[u8; 4],
    key: &[u8],
    source: G,
    p: [u8; 34],
)
    requires
        call_ensures(
            SecurityInner::on_pair_option_report::<G>,
            (s, h, len, auth, alg, key, source),
            Ok::<[u8; 34], Errno>(p),
        ),
    ensures
        exists|k: EcdhKeyPair| #[trigger]
            call_ensures(source, (), Some(k)) && final(s)@.keypair == Some(
                (k.private_key@, k.public_key@),
            ),
{
}

/// The nonces: that of the peer as it came, that of this side half the hash of a text, which
/// the reply tells.
pub proof fn nonces_are_exchanged<H: Fn(&[u8]) -> [u8; 32]>(
    s: &mut SecurityInner,
    h: u16,
    random: &[u8; 16],
    hash: H,
    r: Result<[u8; 18], Errno>,
)
    requires
        call_ensures(SecurityInner::on_pair_random::<H>, (s, h, random, hash), r),
    ensures
        r is Ok <==> old(s).state == SecurityState::Pairing,
        r is Err ==> r->Err_0 == Errno::EBUSY && final(s)@ == old(s)@,
        r matches Ok(p) ==> {
            &&& final(s)@ == (SecModel {
                remote_nonce: random@,
                local_nonce: p@.skip(2),
                ..old(s)@
            })
            &&& headed(p@, h)
            &&& exists|d: Seq<u8>|
                #[trigger] hashed(hash, ascii("sparklink_local_nonce_seed"@), d) && p@.skip(2)
                    == d.take(16)
        },
{
    labels();
    if r is Ok {
        let p = r->Ok_0;
        let d = choose|d: Seq<u8>|
            #![trigger sle_crypto::hash_gives(hash, sle_security::nonce_label(), d)]
            sle_crypto::hash_gives(hash, sle_security::nonce_label(), d) && final(s)@ == (
            SecModel { remote_nonce: random@, local_nonce: d.take(16), ..s@ }) && p@
                == sle_security::reply(h, d.take(16));
        assert(p@.skip(2) =~= d.take(16));
        let (x, o) = choose|x: &[u8], o: [u8; 32]|
            x@ == sle_security::nonce_label() && #[trigger] call_ensures(hash, (x,), o) && o@ == d;
        assert(call_ensures(hash, (x,), o));
        assert(hashed(hash, ascii("sparklink_local_nonce_seed"@), d));
    }
}

/// The confirm values: that of the peer as it came, that of this side half the hash of the
/// first half of its public key and the nonce of the peer, which the reply tells.
pub proof fn confirm_values<H: Fn(&[u8]) -> [u8; 32]>(
    s: &mut SecurityInner,
    h: u16,
    confirm: &[u8; 16],
    hash: H,
    r: Result<[u8; 18], Errno>,
)
    requires
        call_ensures(SecurityInner::on_pair_confirm::<H>, (s, h, confirm, hash), r),
    ensures
        r is Ok <==> old(s).state == SecurityState::Pairing && old(s).local_keypair is Some,
        r is Err ==> r->Err_0 == (if old(s).state == SecurityState::Pairing {
            Errno::EINVAL
        } else {
            Errno::EBUSY
        }),
        final(s)@ == (SecModel {
            remote_confirm: final(s)@.remote_confirm,
            local_confirm: final(s)@.local_confirm,
            ..old(s)@
        }),
        r matches Ok(p) ==> {
            &&& final(s)@.remote_confirm.take(16) == confirm@
            &&& final(s)@.local_confirm.take(16) == p@.skip(2)
            &&& headed(p@, h)
            &&& exists|d: Seq<u8>|
                #[trigger] hashed(
                    hash,
                    (old(s)@.keypair->0).1.take(32) + old(s).remote_nonce@,
                    d,
                ) && p@.skip(2) == d.take(16)
        },
{
    if r is Ok {
        let p = r->Ok_0;
        let k = s@.keypair->0;
        let x = k.1.take(32) + s@.remote_nonce;
        let d = choose|d: Seq<u8>|
            #![trigger sle_crypto::hash_gives(hash, x, d)]
            sle_crypto::hash_gives(hash, x, d) && p@ == sle_security::reply(h, d.take(16))
                && final(s)@.local_confirm == crate::bytes::splice(
                s@.local_confirm,
                0,
                d.take(16),
            );
        assert(p@.skip(2) =~= d.take(16));
        assert(final(s)@.local_confirm.take(16) =~= p@.skip(2));
        assert(final(s)@.remote_confirm.take(16) =~= confirm@);
        let (a, o) = choose|a: &[u8], o: [u8; 32]|
            a@ == x && #[trigger] call_ensures(hash, (a,), o) && o@ == d;
        assert(call_ensures(hash, (a,), o));
        assert(hashed(hash, x, d));
    }
}

/// The shared secret of a context.
pub open spec fn shared<
    A: Fn(&[u8; 32], &[u8; 64]) -> Option<[u8; 32]>,
    H: Fn(&[u8]) -> [u8; 32],
>(s: SecModel, agree: A, hash: H, secret: Seq<u8>) -> bool {
    exists|k: &[u8; 32], p: &[u8; 64], o: Option<[u8; 32]>|
        {
            &&& s.keypair is Some && k@ == (s.keypair->0).0
            &&& s.remote_pubkey == Some(p@)
            &&& #[trigger] call_ensures(agree, (k, p), o)
            &&& o is Some ==> (o->0)@ == secret
            &&& o is None ==> hashed(hash, s.local_nonce + s.remote_nonce, secret)
        }
}

/// The last step makes the link key out of the shared secret and both nonces, that of this
/// side first, and the session keys out of the link key; the reply tells the check, and the
/// keys of the pairing are gone.
pub proof fn link_is_keyed<
    A: Fn(&[u8; 32], &[u8; 64]) -> Option<[u8; 32]>,
    H: Fn(&[u8]) -> [u8; 32],
    M: Fn(&[u8], &[u8]) -> [u8; 32],
>(
    s: &mut SecurityInner,
    h: u16,
    check: &[u8; 16],
    agree: A,
    hash: H,
    mac: M,
    r: Result<[u8; 18], Errno>,
)
    requires
        call_ensures(SecurityInner::on_dhkey_verify::<A, H, M>, (s, h, check, agree, hash, mac), r),
    ensures
        r is Ok <==> old(s).state == SecurityState::Pairing && old(s).local_keypair is Some && old(s).remote_pubkey is Some,
        r is Err ==> final(s)@ == old(s)@ && r->Err_0 == (if old(s).state
            == SecurityState::Pairing {
            Errno::EINVAL
        } else {
            Errno::EBUSY
        }),
        r matches Ok(p) ==> {
            &&& headed(p@, h)
            &&& final(s)@.link_key == Some(p@.skip(2))
            &&& session(mac, p@.skip(2), final(s)@)
            &&& exists|x: Seq<u8>, y: Seq<u8>|
                {
                    &&& #[trigger] shared(old(s)@, agree, hash, x)
                    &&& #[trigger] keyed(
                        mac,
                        x,
                        old(s).local_nonce@ + old(s).remote_nonce@,
                        y,
                    )
                    &&& p@.skip(2) == y.take(16)
                }
            &&& final(s).state == SecurityState::Paired
            &&& final(s).method == old(s).method && final(s).mode == old(s).mode
            &&& final(s).local_keypair is None && final(s).remote_pubkey is None
            &&& final(s).dhkey is None
            &&& final(s)@.psk == old(s)@.psk && final(s).passkey == old(s).passkey
        },
{
    if r is Ok {
        let p = r->Ok_0;
        let (x, y, enc, ik) = choose|x: Seq<u8>, y: Seq<u8>, enc: Seq<u8>, ik: Seq<u8>| {
            &&& #[trigger] s@.shares(agree, hash, x)
            &&& #[trigger] sle_crypto::mac_gives(mac, x, s@.local_nonce + s@.remote_nonce, y)
            &&& #[trigger] sle_security::derived(mac, y.take(16), enc, ik)
            &&& final(s)@ == s@.verified(y, enc, ik)
            &&& p@ == sle_security::reply(h, y.take(16))
        };
        assert(p@.skip(2) =~= y.take(16));
        has_session(mac, y.take(16), enc, ik, final(s)@);
        let secret = choose|z: Option<Seq<u8>>|
            #[trigger] sle_crypto::agree_gives(agree, (s@.keypair->0).0, s@.remote_pubkey->0, z)
                && match z {
                Some(v) => x == v,
                None => sle_crypto::hash_gives(hash, s@.local_nonce + s@.remote_nonce, x),
            };
        let (k, q, o) = choose|k: &[u8; 32], q: &[u8; 64], o: Option<[u8; 32]>|
            k@ == (s@.keypair->0).0 && q@ == s@.remote_pubkey->0 && #[trigger] call_ensures(
                agree,
                (k, q),
                o,
            ) && secret == match o {
                Some(v) => Some(v@),
                None => None::<Seq<u8>>,
            };
        assert(call_ensures(agree, (k, q), o));
        if secret is None {
            let (a, b) = choose|a: &[u8], b: [u8; 32]|
                a@ == s@.local_nonce + s@.remote_nonce && #[trigger] call_ensures(hash, (a,), b)
                    && b@ == x;
            assert(call_ensures(hash, (a,), b));
            assert(hashed(hash, s@.local_nonce + s@.remote_nonce, x));
        }
        assert(shared(s@, agree, hash, x));
        let (t, u, w) = choose|t: &[u8], u: &[u8], w: [u8; 32]|
            t@ == x && u@ == s@.local_nonce + s@.remote_nonce && #[trigger] call_ensures(
                mac,
                (t, u),
                w,
            ) && w@ == y;
        assert(call_ensures(mac, (t, u), w));
        assert(keyed(mac, x, s.local_nonce@ + s.remote_nonce@, y));
    }
}

/// Session keys are those of the link key, and without one there are none.
pub proof fn session_of_link_key<M: Fn(&[u8], &[u8]) -> [u8; 32]>(
    s: &mut SecurityInner,
    mac: M,
    r: Result<(), Errno>,
)
    requires
        call_ensures(SecurityInner::derive_session_keys::<M>, (s, mac), r),
    ensures
        r is Ok <==> old(s).link_key is Some,
        r is Err ==> r->Err_0 == Errno::EINVAL && final(s)@ == old(s)@,
        r is Ok ==> session(mac, old(s)@.link_key->0, final(s)@) && final(s).state == old(s).state
            && final(s)@.link_key == old(s)@.link_key && final(s).method == old(s).method,
{
    if r is Ok {
        let link = s@.link_key->0;
        let (enc, ik) = choose|enc: Seq<u8>, ik: Seq<u8>| #[trigger]
            sle_security::derived(mac, link, enc, ik) && final(s)@ == s@.with_keys(enc, ik);
        has_session(mac, link, enc, ik, final(s)@);
    }
}

/// Digits are shown while the user is waited for.
pub proof fn digits_are_shown(s: &SecurityInner, r: Result<u32, Errno>)
    requires
        call_ensures(SecurityInner::get_passkey, (s,), r),
    ensures
        r is Ok <==> (s.state == SecurityState::AwaitingConfirm || s.state
            == SecurityState::AwaitingPasskey) && s.passkey is Some,
        r matches Ok(d) ==> s.passkey == Some(d),
        r is Err ==> r->Err_0 == Errno::EINVAL,
{
}

/// Where the user agrees, pairing is done with the keys of the link key.
pub proof fn user_agrees<M: Fn(&[u8], &[u8]) -> [u8; 32]>(
    s: &mut SecurityInner,
    mac: M,
    r: Result<(), Errno>,
)
    requires
        call_ensures(SecurityInner::confirm_passkey::<M>, (s, mac), r),
    ensures
        r is Ok <==> old(s).state == SecurityState::AwaitingConfirm && old(s).link_key is Some,
        r is Err ==> r->Err_0 == Errno::EINVAL && final(s)@ == old(s)@,
        r is Ok ==> final(s).state == SecurityState::Paired && final(s).passkey is None && session(
            mac,
            old(s)@.link_key->0,
            final(s)@,
        ) && final(s).method == old(s).method,
{
    if r is Ok {
        let link = s@.link_key->0;
        let (enc, ik) = choose|enc: Seq<u8>, ik: Seq<u8>| #[trigger]
            sle_security::derived(mac, link, enc, ik) && final(s)@ == (SecModel {
                passkey: None,
                state: SecurityState::Paired,
                ..s@.with_keys(enc, ik)
            });
        has_session(mac, link, enc, ik, final(s)@);
    }
}

/// Only the right digits finish pairing; after wrong ones there is neither link key nor a
/// second try.
pub proof fn digits_decide<M: Fn(&[u8], &[u8]) -> [u8; 32]>(
    s: &mut SecurityInner,
    value: u32,
    mac: M,
    r: Result<(), Errno>,
)
    requires
        call_ensures(SecurityInner::input_passkey::<M>, (s, value, mac), r),
    ensures
        r is Ok <==> old(s).state == SecurityState::AwaitingPasskey && old(s).passkey == Some(value)
            && old(s).link_key is Some,
        r is Ok ==> final(s).state == SecurityState::Paired && final(s).passkey is None && session(
            mac,
            old(s)@.link_key->0,
            final(s)@,
        ),
        r == Err::<(), Errno>(Errno::EACCES) <==> old(s).state == SecurityState::AwaitingPasskey
            && old(s).passkey is Some && old(s).passkey != Some(value),
        r == Err::<(), Errno>(Errno::EACCES) ==> final(s).state == SecurityState::Idle
            && final(s).link_key is None && final(s).passkey is None && final(s).method
            == PairingMethod::Unpaired,
        r is Err && r->Err_0 != Errno::EACCES ==> r->Err_0 == Errno::EINVAL && final(s).state
            == old(s).state && final(s)@.link_key == old(s)@.link_key,
{
    if r is Ok {
        let link = s@.link_key->0;
        let (enc, ik) = choose|enc: Seq<u8>, ik: Seq<u8>| #[trigger]
            sle_security::derived(mac, link, enc, ik) && final(s)@ == (SecModel {
                passkey: None,
                state: SecurityState::Paired,
                ..s@.with_keys(enc, ik)
            });
        has_session(mac, link, enc, ik, final(s)@);
    }
    assert(final(s)@.link_key is None <==> final(s).link_key is None);
}

/// Where the user turns the digits down, nothing of the pairing is left.
pub proof fn user_turns_down(s: &mut SecurityInner)
    requires
        call_ensures(SecurityInner::reject_passkey, (s,), ()),
    ensures
        final(s).state == SecurityState::Idle,
        final(s).method == PairingMethod::Unpaired,
        final(s).passkey is None && final(s).link_key is None && final(s).dhkey is None,
        final(s).local_keypair is None && final(s).remote_pubkey is None,
        forall|i: int| 0 <= i < 16 ==> #[trigger] final(s).local_nonce@[i] == 0,
        forall|i: int| 0 <= i < 16 ==> #[trigger] final(s).remote_nonce@[i] == 0,
        forall|i: int| 0 <= i < 32 ==> #[trigger] final(s).local_confirm@[i] == 0,
        forall|i: int| 0 <= i < 32 ==> #[trigger] final(s).remote_confirm@[i] == 0,
        final(s)@.psk == old(s)@.psk && final(s).mode == old(s).mode,
{
    assert(final(s)@ == s@.turned_down());
    assert(final(s)@.link_key is None && final(s)@.dhkey is None && final(s)@.keypair is None
        && final(s)@.remote_pubkey is None);
}

/// What is forgotten is gone: only the mode and the secret that both sides hold stay.
pub proof fn nothing_is_left(s: &mut SecurityInner, t: &mut SecurityInner, h: u16, reason: u8)
    requires
        call_ensures(SecurityInner::reset, (s,), ()),
        call_ensures(SecurityInner::on_pair_failure, (t, h, reason), ()),
        s@ == t@,
    ensures
        final(s)@ == final(t)@,
        final(s).state == SecurityState::Idle,
        final(s).method == PairingMethod::Unpaired,
        final(s).mode == old(s).mode && final(s)@.psk == old(s)@.psk,
        final(s)@.link_key is None && final(s)@.enc_key is None && final(s)@.int_key is None,
        final(s)@.cipher_key is None && final(s)@.dhkey is None,
        final(s)@.keypair is None && final(s)@.remote_pubkey is None,
        final(s)@.oob_hash is None && final(s)@.pwd_hash is None && final(s).passkey is None,
        final(s).tx_counter == 0 && final(s).rx_counter == 0,
        forall|i: int| 0 <= i < 16 ==> #[trigger] final(s).local_nonce@[i] == 0,
        forall|i: int| 0 <= i < 16 ==> #[trigger] final(s).remote_nonce@[i] == 0,
        forall|i: int| 0 <= i < 32 ==> #[trigger] final(s).local_confirm@[i] == 0,
        forall|i: int| 0 <= i < 32 ==> #[trigger] final(s).remote_confirm@[i] == 0,
        forall|i: int| 0 <= i < 12 ==> #[trigger] final(s).ctr_nonce@[i] == 0,
{
    assert(final(s)@ == s@.forgotten());
}

/// Encryption is turned on where pairing is done, and is then on.
pub proof fn encryption_is_turned_on(
    s: &mut SecurityInner,
    r: Result<(), Errno>,
    t: &SecurityInner,
    on: bool,
)
    requires
        call_ensures(SecurityInner::enable_encryption, (s,), r),
        call_ensures(SecurityInner::is_encrypted, (t,), on),
    ensures
        r is Ok <==> old(s).state == SecurityState::Paired && old(s).sm4_ctx is Some,
        r is Ok ==> final(s)@ == (SecModel { state: SecurityState::Encrypted, ..old(s)@ }),
        r is Err ==> final(s)@ == old(s)@ && r->Err_0 == (if old(s).state
            == SecurityState::Paired {
            Errno::EINVAL
        } else {
            Errno::EBUSY
        }),
        on == (t.state == SecurityState::Encrypted),
{
}

/// A fingerprint is the start of the hash of the encryption key.
pub proof fn fingerprint<H: Fn(&[u8]) -> [u8; 32]>(s: &SecurityInner, hash: H, r: [u8; 4])
    requires
        call_ensures(SecurityInner::enc_key_fingerprint::<H>, (s, hash), r),
    ensures
        s.enc_key is None ==> r@ == seq![0u8, 0, 0, 0],
        s.enc_key is Some ==> exists|d: Seq<u8>| #[trigger]
            hashed(hash, (s.enc_key->0)@, d) && r@ == d.take(4),
{
    if s.enc_key is Some {
        let k = s@.enc_key->0;
        let d = choose|d: Seq<u8>|
            #![trigger sle_crypto::hash_gives(hash, k, d)]
            sle_crypto::hash_gives(hash, k, d) && r@ == d.take(4);
        let (a, b) = choose|a: &[u8], b: [u8; 32]|
            a@ == k && #[trigger] call_ensures(hash, (a,), b) && b@ == d;
        assert(call_ensures(hash, (a,), b));
        assert(hashed(hash, (s.enc_key->0)@, d));
    }
}

/// A hash is that of the data, and a shared secret that of the keys.
pub proof fn primitives<
    H: Fn(&[u8]) -> [u8; 32],
    A: Fn(&[u8; 32], &[u8; 64]) -> Option<[u8; 32]>,
>(
    data: &[u8],
    hash: H,
    d: [u8; 32],
    k: &[u8; 32],
    p: &[u8; 64],
    agree: A,
    r: Result<[u8; 32], Errno>,
)
    requires
        call_ensures(SecurityInner::sm3_hash::<H>, (data, hash), d),
        call_ensures(sle_crypto::ecdh_shared_secret::<A>, (k, p, agree), r),
    ensures
        hashed(hash, data@, d@),
        exists|a: &[u8; 32], b: &[u8; 64], o: Option<[u8; 32]>|
            {
                &&& a@ == k@
                &&& b@ == p@
                &&& #[trigger] call_ensures(agree, (a, b), o)
                &&& o is Some <==> r is Ok
                &&& o is Some ==> (o->0)@ == (r->Ok_0)@
                &&& o is None ==> r->Err_0 == Errno::EINVAL
            },
{
}

} // verus!
