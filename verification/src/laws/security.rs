//! Laws of pairing and encryption.

use vstd::prelude::*;

use crate::errno::Errno;
use crate::sle_crypto;
use crate::sle_crypto::Sm4Key;
use crate::sle_security::{SecurityInner, SecurityState};

verus! {

/// The number that four bytes spell, highest first.
pub open spec fn be32(a: u8, b: u8, c: u8, d: u8) -> int {
    a * 0x100_0000 + b * 0x1_0000 + c * 0x100 + d
}

/// Whether `y` came from a call of the cipher stream function with `x`, a key, and a start
/// block of a nonce and a counter.
pub open spec fn streamed<C: Fn(&[u8; 16], &[u8; 16], &[u8]) -> Vec<u8>>(
    c: C,
    key: Seq<u8>,
    nonce: Seq<u8>,
    ctr: u32,
    x: Seq<u8>,
    y: Seq<u8>,
) -> bool {
    exists|k: &[u8; 16], i: &[u8; 16], s: &[u8], o: Vec<u8>|
        {
            &&& k@ == key
            &&& i@.take(12) == nonce
            &&& be32(i@[12], i@[13], i@[14], i@[15]) == ctr
            &&& s@ == x
            &&& #[trigger] call_ensures(c, (k, i, s), o)
            &&& o@ == y
        }
}

/// A start block holds its nonce and its counter, highest byte first: 16 bytes that tell
/// both.
pub proof fn start_block(nonce: &[u8; 12], ctr: u32, r: [u8; 16])
    requires
        call_ensures(sle_crypto::ctr_iv, (nonce, ctr), r),
    ensures
        r@.take(12) == nonce@,
        be32(r@[12], r@[13], r@[14], r@[15]) == ctr,
{
}

/// The cipher stream function is called with the key, the nonce and the counter that were
/// handed in; where there are no data, none come out.
pub proof fn stream_is_applied<C: Fn(&[u8; 16], &[u8; 16], &[u8]) -> Vec<u8>>(
    key: &Sm4Key,
    nonce: &[u8; 12],
    ctr: u32,
    data: &mut [u8],
    crypt: C,
)
    requires
        call_ensures(sle_crypto::sm4_ctr::<C>, (key, nonce, ctr, data, crypt), ()),
    ensures
        final(data)@.len() == old(data)@.len(),
        old(data)@.len() > 0 ==> streamed(crypt, key.key@, nonce@, ctr, old(data)@, final(data)@),
{
    if data@.len() > 0 {
        let block = sle_crypto::ctr_block(nonce@, ctr);
        assert(block.take(12) == nonce@);
        assert(be32(block[12], block[13], block[14], block[15]) == ctr);
    }
}

/// The counter that encryption returns is the one in the start block that the data were
/// turned with.
pub proof fn encrypted_with_the_returned_counter<C: Fn(&[u8; 16], &[u8; 16], &[u8]) -> Vec<u8>>(
    s: &mut SecurityInner,
    data: &mut [u8],
    crypt: C,
    r: Result<u32, Errno>,
)
    requires
        call_ensures(SecurityInner::encrypt::<C>, (s, data, crypt), r),
        s.state == SecurityState::Encrypted,
        s.sm4_ctx is Some,
    ensures
        r == Ok::<u32, Errno>(old(s).tx_counter),
        old(data)@.len() > 0 ==> streamed(
            crypt,
            (old(s).sm4_ctx->0).key@,
            old(s).ctr_nonce@,
            r->Ok_0,
            old(data)@,
            final(data)@,
        ),
        old(data)@.len() == 0 ==> final(data)@.len() == 0,
{
    if data@.len() > 0 {
        let block = sle_crypto::ctr_block(s.ctr_nonce@, s.tx_counter);
        assert(block.take(12) == s.ctr_nonce@);
        assert(be32(block[12], block[13], block[14], block[15]) == s.tx_counter);
    }
}

/// Decryption turns the data with the counter of the stream from the peer.
pub proof fn decrypted_with_the_counter_of_the_peer<
    C: Fn(&[u8; 16], &[u8; 16], &[u8]) -> Vec<u8>,
>(s: &mut SecurityInner, data: &mut [u8], crypt: C, r: Result<(), Errno>)
    requires
        call_ensures(SecurityInner::decrypt::<C>, (s, data, crypt), r),
        s.state == SecurityState::Encrypted,
        s.sm4_ctx is Some,
    ensures
        r == Ok::<(), Errno>(()),
        old(data)@.len() > 0 ==> streamed(
            crypt,
            (old(s).sm4_ctx->0).key@,
            old(s).ctr_nonce@,
            old(s).rx_counter,
            old(data)@,
            final(data)@,
        ),
        old(data)@.len() == 0 ==> final(data)@.len() == 0,
{
    if data@.len() > 0 {
        let block = sle_crypto::ctr_block(s.ctr_nonce@, s.rx_counter);
        assert(block.take(12) == s.ctr_nonce@);
        assert(be32(block[12], block[13], block[14], block[15]) == s.rx_counter);
    }
}

/// Encryption moves its own counter past the blocks of the message and nothing else: what
/// the next message starts with, the last one has not used.
pub proof fn messages_do_not_share_blocks<C: Fn(&[u8; 16], &[u8; 16], &[u8]) -> Vec<u8>>(
    s: &mut SecurityInner,
    t: &mut SecurityInner,
    d: &mut [u8],
    e: &mut [u8],
    crypt: C,
    a: Result<u32, Errno>,
    b: Result<u32, Errno>,
)
    requires
        call_ensures(SecurityInner::encrypt::<C>, (s, d, crypt), a),
        call_ensures(SecurityInner::encrypt::<C>, (t, e, crypt), b),
        *t == *final(s),
        s.state == SecurityState::Encrypted,
        s.sm4_ctx is Some,
    ensures
        a is Ok && b is Ok,
        final(s).rx_counter == old(s).rx_counter,
        final(s).state == old(s).state,
        final(s).ctr_nonce@ == old(s).ctr_nonce@,
        (b->Ok_0 - a->Ok_0 - (old(d)@.len() + 15) / 16) % 0x1_0000_0000 == 0,
        0 < old(d)@.len() <= 0xF_FFFF_FFF0 ==> a->Ok_0 != b->Ok_0,
{
    let n = (d@.len() + 15) / 16;
    let c = s.tx_counter as int;
    assert(n == crate::sle_security::blocks(d@.len()));
    assert(b->Ok_0 == (c + n) % 0x1_0000_0000);
    assert(((c + n) % 0x1_0000_0000 - c - n) % 0x1_0000_0000 == 0) by (nonlinear_arith);
    if 0 < d@.len() <= 0xF_FFFF_FFF0 {
        assert(0 < n < 0x1_0000_0000);
    }
}

/// Decryption moves the counter of the peer past the blocks of the message and leaves the
/// own one.
pub proof fn counters_are_apart<C: Fn(&[u8; 16], &[u8; 16], &[u8]) -> Vec<u8>>(
    s: &mut SecurityInner,
    d: &mut [u8],
    crypt: C,
    r: Result<(), Errno>,
)
    requires
        call_ensures(SecurityInner::decrypt::<C>, (s, d, crypt), r),
        r is Ok,
    ensures
        final(s).tx_counter == old(s).tx_counter,
        final(s).state == old(s).state,
        old(s).rx_counter + (old(d)@.len() + 15) / 16 <= u32::MAX ==> final(s).rx_counter == old(s).rx_counter + (old(d)@.len() + 15) / 16,
{
}

/// Where encryption is off or there is no key, data and context stay as they are.
pub proof fn nothing_is_encrypted_without_key<C: Fn(&[u8; 16], &[u8; 16], &[u8]) -> Vec<u8>>(
    s: &mut SecurityInner,
    data: &mut [u8],
    crypt: C,
    r: Result<u32, Errno>,
)
    requires
        call_ensures(SecurityInner::encrypt::<C>, (s, data, crypt), r),
        s.state != SecurityState::Encrypted || s.sm4_ctx is None,
    ensures
        r == Err::<u32, Errno>(
            if old(s).state != SecurityState::Encrypted {
                Errno::EPERM
            } else {
                Errno::EINVAL
            },
        ),
        final(data)@ == old(data)@,
        final(s).tx_counter == old(s).tx_counter,
        final(s).rx_counter == old(s).rx_counter,
        final(s).state == old(s).state,
{
}

/// Where encryption is off or there is no key, nothing is decrypted.
pub proof fn nothing_is_decrypted_without_key<C: Fn(&[u8; 16], &[u8; 16], &[u8]) -> Vec<u8>>(
    s: &mut SecurityInner,
    data: &mut [u8],
    crypt: C,
    r: Result<(), Errno>,
)
    requires
        call_ensures(SecurityInner::decrypt::<C>, (s, data, crypt), r),
        s.state != SecurityState::Encrypted || s.sm4_ctx is None,
    ensures
        r == Err::<(), Errno>(
            if old(s).state != SecurityState::Encrypted {
                Errno::EPERM
            } else {
                Errno::EINVAL
            },
        ),
        final(data)@ == old(data)@,
        final(s).tx_counter == old(s).tx_counter,
        final(s).rx_counter == old(s).rx_counter,
        final(s).state == old(s).state,
{
}

/// What one side encrypts, another side with the same key, nonce and counter decrypts, where
/// the cipher stream function undoes itself.
pub proof fn peers_read_each_other<C: Fn(&[u8; 16], &[u8; 16], &[u8]) -> Vec<u8>>(
    a: &mut SecurityInner,
    b: &mut SecurityInner,
    x: &mut [u8],
    y: &mut [u8],
    crypt: C,
    ra: Result<u32, Errno>,
    rb: Result<(), Errno>,
)
    requires
        call_ensures(SecurityInner::encrypt::<C>, (a, x, crypt), ra),
        call_ensures(SecurityInner::decrypt::<C>, (b, y, crypt), rb),
        ra is Ok && rb is Ok,
        y@ == final(x)@,
        a.sm4_ctx is Some && b.sm4_ctx is Some,
        (a.sm4_ctx->0).key@ == (b.sm4_ctx->0).key@,
        a.ctr_nonce@ == b.ctr_nonce@,
        a.tx_counter == b.rx_counter,
        forall|k: &[u8; 16], i: &[u8; 16], p: &[u8], o: Vec<u8>|
            #[trigger] call_ensures(crypt, (k, i, p), o) ==> o@.len() == p@.len(),
        forall|k: Seq<u8>, i: Seq<u8>, p: Seq<u8>, q: Seq<u8>, z: Seq<u8>|
            #[trigger] sle_crypto::stream_gives(crypt, k, i, p, q)
                && #[trigger] sle_crypto::stream_gives(crypt, k, i, q, z) ==> z == p,
    ensures
        final(y)@ == old(x)@,
        final(a).tx_counter == final(b).rx_counter,
{
}

/// Trials use the current key and nonce from counter 0 on, in both directions and whatever the
/// state.
pub proof fn trials<C: Fn(&[u8; 16], &[u8; 16], &[u8]) -> Vec<u8>>(
    s: &SecurityInner,
    a: &mut [u8],
    b: &mut [u8],
    crypt: C,
    x: Result<(), Errno>,
    y: Result<(), Errno>,
)
    requires
        call_ensures(SecurityInner::encrypt_test::<C>, (s, a, crypt), x),
        call_ensures(SecurityInner::decrypt_test::<C>, (s, b, crypt), y),
    ensures
        x is Ok <==> s.sm4_ctx is Some,
        y is Ok <==> s.sm4_ctx is Some,
        x is Err ==> x->Err_0 == Errno::EINVAL && final(a)@ == old(a)@,
        y is Err ==> y->Err_0 == Errno::EINVAL && final(b)@ == old(b)@,
        x is Ok && old(a)@.len() > 0 ==> streamed(
            crypt,
            (s.sm4_ctx->0).key@,
            s.ctr_nonce@,
            0,
            old(a)@,
            final(a)@,
        ),
        y is Ok && old(b)@.len() > 0 ==> streamed(
            crypt,
            (s.sm4_ctx->0).key@,
            s.ctr_nonce@,
            0,
            old(b)@,
            final(b)@,
        ),
{
    let block = sle_crypto::ctr_block(s.ctr_nonce@, 0);
    assert(block.take(12) =~= s.ctr_nonce@);
    assert(be32(block[12], block[13], block[14], block[15]) == 0);
}

} // verus!
