//! What the ciphers and hashes are fed with. The primitives themselves are functions
//! that the caller hands in.

use vstd::prelude::*;

use crate::bytes;
use crate::errno::Errno;

verus! {

/// Length of a digest.
pub const SM3_DIGEST_SIZE: usize = 32;

/// Length of a cipher key.
pub const SM4_KEY_SIZE: usize = 16;

/// Length of a cipher block.
pub const SM4_BLOCK_SIZE: usize = 16;

/// Length of a private key.
pub const ECDH_KEY_SIZE: usize = 32;

/// Length of a public key.
pub const ECDH_PUB_SIZE: usize = 64;

/// Whether hash function `h` may give `digest` for `data`.
pub open spec fn hash_gives<H: Fn(&[u8]) -> [u8; 32]>(h: H, data: Seq<u8>, digest: Seq<u8>) -> bool {
    exists|s: &[u8], out: [u8; 32]|
        s@ == data && #[trigger] call_ensures(h, (s,), out) && out@ == digest
}

/// Whether keyed hash function `m` may give `digest` for `data`.
pub open spec fn mac_gives<M: Fn(&[u8], &[u8]) -> [u8; 32]>(
    m: M,
    key: Seq<u8>,
    data: Seq<u8>,
    digest: Seq<u8>,
) -> bool {
    exists|k: &[u8], s: &[u8], out: [u8; 32]|
        k@ == key && s@ == data && #[trigger] call_ensures(m, (k, s), out) && out@ == digest
}

/// Whether cipher stream function `c` may turn `data` into `out` under a key and a start
/// block.
pub open spec fn stream_gives<C: Fn(&[u8; 16], &[u8; 16], &[u8]) -> Vec<u8>>(
    c: C,
    key: Seq<u8>,
    iv: Seq<u8>,
    data: Seq<u8>,
    out: Seq<u8>,
) -> bool {
    exists|k: &[u8; 16], i: &[u8; 16], s: &[u8], o: Vec<u8>|
        k@ == key && i@ == iv && s@ == data && #[trigger] call_ensures(c, (k, i, s), o) && o@
            == out
}

/// The first sixteen bytes of a digest.
pub fn first16(d: &[u8; 32]) -> (r: [u8; 16])
    ensures
        r@ == d@.take(16),
{
    let mut r: [u8; 16] = [0u8; 16];
    let mut i: usize = 0;
    while i < 16
        invariant
            i <= 16,
            forall|j: int| 0 <= j < i ==> r@[j] == d@[j],
        decreases 16 - i,
    {
        r[i] = d[i];
        i = i + 1;
    }
    assert(r@ =~= d@.take(16));
    r
}

/// A cipher key.
#[derive(Clone, Copy)]
pub struct Sm4Key {
    /// The key.
    pub key: [u8; 16],
}

impl Sm4Key {
    /// The key of 16 bytes.
    pub fn new(key: &[u8; 16]) -> (r: Self)
        ensures
            r.key == *key,
    {
        Sm4Key { key: *key }
    }
}

/// The first block of a cipher stream: a nonce of 12 bytes and a counter, highest byte
/// first.
pub open spec fn ctr_block(nonce: Seq<u8>, ctr: u32) -> Seq<u8> {
    nonce + seq![
        (ctr / 0x100_0000) as u8,
        ((ctr / 0x1_0000) % 0x100) as u8,
        ((ctr / 0x100) % 0x100) as u8,
        (ctr % 0x100) as u8,
    ]
}

/// The first block of a cipher stream.
pub fn ctr_iv(nonce: &[u8; 12], start_ctr: u32) -> (r: [u8; 16])
    ensures
        r@ == ctr_block(nonce@, start_ctr),
{
    let mut iv: [u8; 16] = [0u8; 16];
    let mut i: usize = 0;
    while i < 12
        invariant
            i <= 12,
            forall|j: int| 0 <= j < i ==> iv@[j] == nonce@[j],
        decreases 12 - i,
    {
        iv[i] = nonce[i];
        i = i + 1;
    }
    iv[12] = (start_ctr / 0x100_0000) as u8;
    iv[13] = ((start_ctr / 0x1_0000) % 0x100) as u8;
    iv[14] = ((start_ctr / 0x100) % 0x100) as u8;
    iv[15] = (start_ctr % 0x100) as u8;
    assert(iv@ =~= ctr_block(nonce@, start_ctr));
    iv
}

/// Encrypts or decrypts data in place with the cipher stream function `crypt`, which
/// keeps their length. No data, no call.
pub fn sm4_ctr<C: Fn(&[u8; 16], &[u8; 16], &[u8]) -> Vec<u8>>(
    key: &Sm4Key,
    nonce: &[u8; 12],
    start_ctr: u32,
    data: &mut [u8],
    crypt: C,
)
    requires
        forall|k: &[u8; 16], i: &[u8; 16], s: &[u8]| call_requires(crypt, (k, i, s)),
        forall|k: &[u8; 16], i: &[u8; 16], s: &[u8], o: Vec<u8>|
            call_ensures(crypt, (k, i, s), o) ==> o@.len() == s@.len(),
    ensures
        if old(data)@.len() == 0 {
            final(data)@ == old(data)@
        } else {
            stream_gives(
                crypt,
                key.key@,
                ctr_block(nonce@, start_ctr),
                old(data)@,
                final(data)@,
            )
        },
        final(data)@.len() == old(data)@.len(),
{
    if data.len() == 0 {
        return;
    }
    let iv = ctr_iv(nonce, start_ctr);
    let input = bytes::to_vec(data);
    let output = crypt(&key.key, &iv, input.as_slice());
    bytes::put_slice(data, output.as_slice());
    assert(data@ =~= output@);
}

/// What is hashed for the encryption key: "sparklink_enc_key".
pub open spec fn enc_label() -> Seq<u8> {
    seq![
        0x73u8, 0x70, 0x61, 0x72, 0x6B, 0x6C, 0x69, 0x6E, 0x6B, 0x5F, 0x65, 0x6E, 0x63, 0x5F, 0x6B,
        0x65, 0x79,
    ]
}

/// What is hashed for the integrity key: "sparklink_int_key".
pub open spec fn int_label() -> Seq<u8> {
    seq![
        0x73u8, 0x70, 0x61, 0x72, 0x6B, 0x6C, 0x69, 0x6E, 0x6B, 0x5F, 0x69, 0x6E, 0x74, 0x5F, 0x6B,
        0x65, 0x79,
    ]
}

/// Derives the encryption key and the integrity key from a link key, with the keyed hash
/// function `mac`.
pub fn derive_keys<M: Fn(&[u8], &[u8]) -> [u8; 32]>(link_key: &[u8; 16], mac: M) -> (r: (
    [u8; 16],
    [u8; 16],
))
    requires
        forall|k: &[u8], s: &[u8]| call_requires(mac, (k, s)),
    ensures
        exists|e: Seq<u8>|
            #![trigger mac_gives(mac, link_key@, enc_label(), e)]
            mac_gives(mac, link_key@, enc_label(), e) && r.0@ == e.take(16),
        exists|i: Seq<u8>|
            #![trigger mac_gives(mac, link_key@, int_label(), i)]
            mac_gives(mac, link_key@, int_label(), i) && r.1@ == i.take(16),
{
    let enc: [u8; 17] = [
        0x73, 0x70, 0x61, 0x72, 0x6B, 0x6C, 0x69, 0x6E, 0x6B, 0x5F, 0x65, 0x6E, 0x63, 0x5F, 0x6B,
        0x65, 0x79,
    ];
    let integ: [u8; 17] = [
        0x73, 0x70, 0x61, 0x72, 0x6B, 0x6C, 0x69, 0x6E, 0x6B, 0x5F, 0x69, 0x6E, 0x74, 0x5F, 0x6B,
        0x65, 0x79,
    ];
    let lk = bytes::to_vec(link_key);
    let e_in = bytes::to_vec(&enc);
    let i_in = bytes::to_vec(&integ);
    assert(e_in@ =~= enc_label());
    assert(i_in@ =~= int_label());
    let enc_full = mac(lk.as_slice(), e_in.as_slice());
    let int_full = mac(lk.as_slice(), i_in.as_slice());
    assert(mac_gives(mac, link_key@, enc_label(), enc_full@));
    assert(mac_gives(mac, link_key@, int_label(), int_full@));
    (first16(&enc_full), first16(&int_full))
}

/// A key pair.
#[derive(Clone, Copy)]
pub struct EcdhKeyPair {
    /// Private key.
    pub private_key: [u8; 32],
    /// Public key: both coordinates.
    pub public_key: [u8; 64],
}

impl EcdhKeyPair {
    /// A key pair from the generator `source`, or `EINVAL` where it fails.
    pub fn generate<G: Fn() -> Option<EcdhKeyPair>>(source: G) -> (r: Result<Self, Errno>)
        requires
            call_requires(source, ()),
        ensures
            match r {
                Ok(k) => call_ensures(source, (), Some(k)),
                Err(e) => e == Errno::EINVAL && call_ensures(source, (), None),
            },
    {
        match source() {
            Some(k) => Ok(k),
            None => Err(Errno::EINVAL),
        }
    }
}

/// Whether key agreement function `a` may give `secret` for a private key and the public
/// key of the peer; none where it fails.
pub open spec fn agree_gives<A: Fn(&[u8; 32], &[u8; 64]) -> Option<[u8; 32]>>(
    a: A,
    private_key: Seq<u8>,
    public_key: Seq<u8>,
    secret: Option<Seq<u8>>,
) -> bool {
    exists|k: &[u8; 32], p: &[u8; 64], out: Option<[u8; 32]>|
        k@ == private_key && p@ == public_key && #[trigger] call_ensures(a, (k, p), out)
            && secret == match out {
            Some(x) => Some(x@),
            None => None::<Seq<u8>>,
        }
}

/// The secret shared with a peer, from the key agreement function `agree`, or `EINVAL`
/// where it fails.
pub fn ecdh_shared_secret<A: Fn(&[u8; 32], &[u8; 64]) -> Option<[u8; 32]>>(
    private_key: &[u8; 32],
    remote_public_key: &[u8; 64],
    agree: A,
) -> (r: Result<[u8; 32], Errno>)
    requires
        forall|k: &[u8; 32], p: &[u8; 64]| call_requires(agree, (k, p)),
    ensures
        match r {
            Ok(x) => agree_gives(agree, private_key@, remote_public_key@, Some(x@)),
            Err(e) => e == Errno::EINVAL && agree_gives(
                agree,
                private_key@,
                remote_public_key@,
                None,
            ),
        },
{
    match agree(private_key, remote_public_key) {
        Some(x) => Ok(x),
        None => Err(Errno::EINVAL),
    }
}

} // verus!
