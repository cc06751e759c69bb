//! Pairing and encryption of a connection.

use vstd::prelude::*;

use crate::bytes;
use crate::errno::Errno;
use crate::sle_crypto;
use crate::sle_crypto::{EcdhKeyPair, Sm4Key};

verus! {

/// What protects the data of a connection.
#[derive(Clone, Copy, Debug, PartialEq, Eq, Structural)]
pub enum SecurityMode {
    /// Encryption and integrity.
    EncAndInt,
    /// Integrity alone.
    IntOnly,
    /// Encryption alone.
    EncOnly,
    /// Nothing.
    Plain,
}

impl SecurityMode {
    /// Code of the mode.
    #[verifier::allow_in_spec]
    pub fn code(self) -> u8
        returns
            (match self {
                SecurityMode::EncAndInt => 0u8,
                SecurityMode::IntOnly => 1u8,
                SecurityMode::EncOnly => 2u8,
                SecurityMode::Plain => 3u8,
            }),
    {
        match self {
            SecurityMode::EncAndInt => 0,
            SecurityMode::IntOnly => 1,
            SecurityMode::EncOnly => 2,
            SecurityMode::Plain => 3,
        }
    }
}

/// How a link key is agreed on.
#[derive(Clone, Copy, Debug, PartialEq, Eq, Structural)]
pub enum PairingMethod {
    /// Not at all yet.
    Unpaired,
    /// Without the user.
    JustWorks,
    /// By a secret that both sides hold.
    Psk,
    /// The user compares six digits.
    NumericComparison,
    /// The user enters six digits.
    PasskeyEntry,
    /// By data exchanged on another way.
    Oob,
    /// By a password.
    Password,
}

impl PairingMethod {
    /// Code of the method.
    #[verifier::allow_in_spec]
    pub fn code(self) -> u8
        returns
            (match self {
                PairingMethod::Unpaired => 0u8,
                PairingMethod::JustWorks => 1u8,
                PairingMethod::Psk => 2u8,
                PairingMethod::NumericComparison => 3u8,
                PairingMethod::PasskeyEntry => 4u8,
                PairingMethod::Oob => 5u8,
                PairingMethod::Password => 6u8,
            }),
    {
        match self {
            PairingMethod::Unpaired => 0,
            PairingMethod::JustWorks => 1,
            PairingMethod::Psk => 2,
            PairingMethod::NumericComparison => 3,
            PairingMethod::PasskeyEntry => 4,
            PairingMethod::Oob => 5,
            PairingMethod::Password => 6,
        }
    }
}

/// How far pairing has come.
#[derive(Clone, Copy, Debug, PartialEq, Eq, Structural)]
pub enum SecurityState {
    /// Not begun.
    Idle,
    /// Under way.
    Pairing,
    /// Done, keys are there.
    Paired,
    /// Data are encrypted.
    Encrypted,
    /// The user is to compare digits.
    AwaitingConfirm,
    /// The user is to enter digits.
    AwaitingPasskey,
}

impl SecurityState {
    /// Code of the state.
    #[verifier::allow_in_spec]
    pub fn code(self) -> u8
        returns
            (match self {
                SecurityState::Idle => 0u8,
                SecurityState::Pairing => 1u8,
                SecurityState::Paired => 2u8,
                SecurityState::Encrypted => 3u8,
                SecurityState::AwaitingConfirm => 4u8,
                SecurityState::AwaitingPasskey => 5u8,
            }),
    {
        match self {
            SecurityState::Idle => 0,
            SecurityState::Pairing => 1,
            SecurityState::Paired => 2,
            SecurityState::Encrypted => 3,
            SecurityState::AwaitingConfirm => 4,
            SecurityState::AwaitingPasskey => 5,
        }
    }
}

/// The method of a number that a controller reports; unknown numbers are read as pairing
/// without the user.
#[verifier::allow_in_spec]
pub fn method_of(auth_method: u8) -> PairingMethod
    returns
        (if auth_method == 0 {
            PairingMethod::NumericComparison
        } else if auth_method == 2 {
            PairingMethod::PasskeyEntry
        } else if auth_method == 3 {
            PairingMethod::Password
        } else if auth_method == 4 {
            PairingMethod::Oob
        } else if auth_method == 5 {
            PairingMethod::Psk
        } else {
            PairingMethod::JustWorks
        }),
{
    match auth_method {
        0x00 => PairingMethod::NumericComparison,
        0x01 => PairingMethod::JustWorks,
        0x02 => PairingMethod::PasskeyEntry,
        0x03 => PairingMethod::Password,
        0x04 => PairingMethod::Oob,
        0x05 => PairingMethod::Psk,
        _ => PairingMethod::JustWorks,
    }
}

/// Pairing and keys of a connection.
pub struct SecurityInner {
    /// How far pairing has come.
    pub state: SecurityState,
    /// Method.
    pub method: PairingMethod,
    /// Mode.
    pub mode: SecurityMode,
    /// Secret that both sides hold.
    pub psk: Option<[u8; 16]>,
    /// Key pair of this side.
    pub local_keypair: Option<EcdhKeyPair>,
    /// Public key of the peer.
    pub remote_pubkey: Option<[u8; 64]>,
    /// Nonce of this side.
    pub local_nonce: [u8; 16],
    /// Nonce of the peer.
    pub remote_nonce: [u8; 16],
    /// Confirm value of this side.
    pub local_confirm: [u8; 32],
    /// Confirm value of the peer.
    pub remote_confirm: [u8; 32],
    /// Shared secret.
    pub dhkey: Option<[u8; 32]>,
    /// Link key.
    pub link_key: Option<[u8; 16]>,
    /// Encryption key.
    pub enc_key: Option<[u8; 16]>,
    /// Integrity key.
    pub int_key: Option<[u8; 16]>,
    /// Key of the cipher.
    pub sm4_ctx: Option<Sm4Key>,
    /// Nonce of the cipher stream.
    pub ctr_nonce: [u8; 12],
    /// Counter of the cipher stream to the peer.
    pub tx_counter: u32,
    /// Counter of the cipher stream from the peer.
    pub rx_counter: u32,
    /// The six digits.
    pub passkey: Option<u32>,
    /// Hash of the data exchanged on another way.
    pub oob_hash: Option<[u8; 32]>,
    /// Hash of the password.
    pub pwd_hash: Option<[u8; 32]>,
}

/// Pairing and keys of a connection as a value.
#[verifier::ext_equal]
pub struct SecModel {
    /// How far pairing has come.
    pub state: SecurityState,
    /// Method.
    pub method: PairingMethod,
    /// Mode.
    pub mode: SecurityMode,
    /// Secret that both sides hold.
    pub psk: Option<Seq<u8>>,
    /// Private and public key of this side.
    pub keypair: Option<(Seq<u8>, Seq<u8>)>,
    /// Public key of the peer.
    pub remote_pubkey: Option<Seq<u8>>,
    /// Nonce of this side.
    pub local_nonce: Seq<u8>,
    /// Nonce of the peer.
    pub remote_nonce: Seq<u8>,
    /// Confirm value of this side.
    pub local_confirm: Seq<u8>,
    /// Confirm value of the peer.
    pub remote_confirm: Seq<u8>,
    /// Shared secret.
    pub dhkey: Option<Seq<u8>>,
    /// Link key.
    pub link_key: Option<Seq<u8>>,
    /// Encryption key.
    pub enc_key: Option<Seq<u8>>,
    /// Integrity key.
    pub int_key: Option<Seq<u8>>,
    /// Key of the cipher.
    pub cipher_key: Option<Seq<u8>>,
    /// Nonce of the cipher stream.
    pub ctr_nonce: Seq<u8>,
    /// Counter of the cipher stream to the peer.
    pub tx_counter: u32,
    /// Counter of the cipher stream from the peer.
    pub rx_counter: u32,
    /// The six digits.
    pub passkey: Option<u32>,
    /// Hash of the data exchanged on another way.
    pub oob_hash: Option<Seq<u8>>,
    /// Hash of the password.
    pub pwd_hash: Option<Seq<u8>>,
}

/// The bytes of an array, if there is one.
pub open spec fn opt_bytes<const N: usize>(a: Option<[u8; N]>) -> Option<Seq<u8>> {
    match a {
        Some(x) => Some(x@),
        None => None,
    }
}

impl View for SecurityInner {
    type V = SecModel;

    open spec fn view(&self) -> SecModel {
        SecModel {
            state: self.state,
            method: self.method,
            mode: self.mode,
            psk: opt_bytes(self.psk),
            keypair: match self.local_keypair {
                Some(k) => Some((k.private_key@, k.public_key@)),
                None => None,
            },
            remote_pubkey: opt_bytes(self.remote_pubkey),
            local_nonce: self.local_nonce@,
            remote_nonce: self.remote_nonce@,
            local_confirm: self.local_confirm@,
            remote_confirm: self.remote_confirm@,
            dhkey: opt_bytes(self.dhkey),
            link_key: opt_bytes(self.link_key),
            enc_key: opt_bytes(self.enc_key),
            int_key: opt_bytes(self.int_key),
            cipher_key: match self.sm4_ctx {
                Some(k) => Some(k.key@),
                None => None,
            },
            ctr_nonce: self.ctr_nonce@,
            tx_counter: self.tx_counter,
            rx_counter: self.rx_counter,
            passkey: self.passkey,
            oob_hash: opt_bytes(self.oob_hash),
            pwd_hash: opt_bytes(self.pwd_hash),
        }
    }
}

/// The number of 16-byte blocks that `n` bytes take.
pub open spec fn blocks(n: nat) -> nat {
    (n + 15) / 16
}

/// Counter `ctr` after `n` bytes, modulo 2^32.
pub open spec fn counter_after(ctr: u32, n: nat) -> u32 {
    ((ctr + blocks(n)) % 0x1_0000_0000) as u32
}

/// What is hashed for the nonce of this side: "sparklink_local_nonce_seed".
pub open spec fn nonce_label() -> Seq<u8> {
    seq![
        0x73u8, 0x70, 0x61, 0x72, 0x6B, 0x6C, 0x69, 0x6E, 0x6B, 0x5F, 0x6C, 0x6F, 0x63, 0x61, 0x6C,
        0x5F, 0x6E, 0x6F, 0x6E, 0x63, 0x65, 0x5F, 0x73, 0x65, 0x65, 0x64,
    ]
}

/// Whether encryption and integrity key are those that keyed hash `m` derives from a link
/// key.
pub open spec fn derived<M: Fn(&[u8], &[u8]) -> [u8; 32]>(
    m: M,
    link_key: Seq<u8>,
    enc: Seq<u8>,
    int_key: Seq<u8>,
) -> bool {
    &&& exists|e: Seq<u8>|
        #![trigger sle_crypto::mac_gives(m, link_key, sle_crypto::enc_label(), e)]
        sle_crypto::mac_gives(m, link_key, sle_crypto::enc_label(), e) && enc == e.take(16)
    &&& exists|i: Seq<u8>|
        #![trigger sle_crypto::mac_gives(m, link_key, sle_crypto::int_label(), i)]
        sle_crypto::mac_gives(m, link_key, sle_crypto::int_label(), i) && int_key == i.take(16)
}

impl SecModel {
    /// What holds of every context that only its own functions have changed: where pairing
    /// is done or encryption is on there is a key, and from the end of pairing until
    /// encryption is turned on both counters are at 0.
    pub open spec fn sound(self) -> bool {
        &&& self.state == SecurityState::Paired ==> self.tx_counter == 0 && self.rx_counter == 0
        &&& self.state == SecurityState::Paired || self.state == SecurityState::Encrypted
            ==> self.cipher_key is Some
    }

    /// With encryption turned on.
    pub open spec fn enabled(self) -> SecModel {
        SecModel { state: SecurityState::Encrypted, ..self }
    }

    /// After `n` bytes were encrypted.
    pub open spec fn sent(self, n: nat) -> SecModel {
        SecModel { tx_counter: counter_after(self.tx_counter, n), ..self }
    }

    /// After `n` bytes were decrypted.
    pub open spec fn received(self, n: nat) -> SecModel {
        SecModel { rx_counter: counter_after(self.rx_counter, n), ..self }
    }

    /// With session keys, and counters at 0.
    pub open spec fn with_keys(self, enc: Seq<u8>, int_key: Seq<u8>) -> SecModel {
        SecModel {
            enc_key: Some(enc),
            int_key: Some(int_key),
            cipher_key: Some(enc),
            ctr_nonce: int_key.take(12),
            tx_counter: 0,
            rx_counter: 0,
            ..self
        }
    }

    /// Everything forgotten but the mode and the secret that both sides hold.
    pub open spec fn forgotten(self) -> SecModel {
        SecModel {
            state: SecurityState::Idle,
            method: PairingMethod::Unpaired,
            keypair: None,
            remote_pubkey: None,
            local_nonce: bytes::zeros(16),
            remote_nonce: bytes::zeros(16),
            local_confirm: bytes::zeros(32),
            remote_confirm: bytes::zeros(32),
            dhkey: None,
            link_key: None,
            enc_key: None,
            int_key: None,
            cipher_key: None,
            ctr_nonce: bytes::zeros(12),
            tx_counter: 0,
            rx_counter: 0,
            passkey: None,
            oob_hash: None,
            pwd_hash: None,
            ..self
        }
    }

    /// After pairing was given up because the user entered wrong digits.
    pub open spec fn given_up(self) -> SecModel {
        SecModel {
            passkey: None,
            link_key: None,
            state: SecurityState::Idle,
            method: PairingMethod::Unpaired,
            ..self
        }
    }

    /// After the user turned the digits down: pairing is given up, and what served this
    /// pairing alone is gone.
    pub open spec fn turned_down(self) -> SecModel {
        SecModel {
            keypair: None,
            remote_pubkey: None,
            local_nonce: bytes::zeros(16),
            remote_nonce: bytes::zeros(16),
            local_confirm: bytes::zeros(32),
            remote_confirm: bytes::zeros(32),
            dhkey: None,
            ..self.given_up()
        }
    }

    /// After pairing by method `m` was begun.
    pub open spec fn begun(self, m: PairingMethod) -> SecModel {
        SecModel { state: SecurityState::Pairing, method: m, ..self }
    }

    /// Whether `dhkey` is the shared secret: that of the key agreement, or a hash of the
    /// two nonces where the agreement fails.
    pub open spec fn shares<
        A: Fn(&[u8; 32], &[u8; 64]) -> Option<[u8; 32]>,
        H: Fn(&[u8]) -> [u8; 32],
    >(self, agree: A, hash: H, dhkey: Seq<u8>) -> bool {
        exists|secret: Option<Seq<u8>>|
            #[trigger] sle_crypto::agree_gives(
                agree,
                (self.keypair->0).0,
                self.remote_pubkey->0,
                secret,
            ) && match secret {
                Some(x) => dhkey == x,
                None => sle_crypto::hash_gives(hash, self.local_nonce + self.remote_nonce, dhkey),
            }
    }

    /// After the peer's check of the shared secret arrived: `check` is the keyed hash of
    /// both nonces, its first half the link key, and pairing is done.
    pub open spec fn verified(self, check: Seq<u8>, enc: Seq<u8>, int_key: Seq<u8>) -> SecModel {
        SecModel {
            link_key: Some(check.take(16)),
            state: SecurityState::Paired,
            keypair: None,
            remote_pubkey: None,
            dhkey: None,
            ..self.with_keys(enc, int_key)
        }
    }

    /// Whether data can be encrypted.
    pub open spec fn crypt_error(self) -> Option<Errno> {
        if self.state != SecurityState::Encrypted {
            Some(Errno::EPERM)
        } else if self.cipher_key is None {
            Some(Errno::EINVAL)
        } else {
            None
        }
    }
}

/// A reply to a controller: a handle and some bytes.
pub open spec fn reply(handle: u16, payload: Seq<u8>) -> Seq<u8> {
    bytes::le16_bytes(handle) + payload
}

fn reply18(handle: u16, payload: &[u8; 16]) -> (r: [u8; 18])
    ensures
        r@ == reply(handle, payload@),
{
    let mut r: [u8; 18] = [0u8; 18];
    r[0] = bytes::lo8(handle);
    r[1] = bytes::hi8(handle);
    bytes::put_at(&mut r, 2, payload);
    assert(r@ =~= reply(handle, payload@));
    r
}

fn both_nonces(a: &[u8; 16], b: &[u8; 16]) -> (r: Vec<u8>)
    ensures
        r@ == a@ + b@,
{
    let mut v = bytes::to_vec(a);
    bytes::extend(&mut v, b);
    v
}

impl SecurityInner {
    /// Nothing begun.
    pub fn new() -> (r: Self)
        ensures
            r@ == (SecModel {
                state: SecurityState::Idle,
                method: PairingMethod::Unpaired,
                mode: SecurityMode::EncAndInt,
                psk: None,
                keypair: None,
                remote_pubkey: None,
                local_nonce: bytes::zeros(16),
                remote_nonce: bytes::zeros(16),
                local_confirm: bytes::zeros(32),
                remote_confirm: bytes::zeros(32),
                dhkey: None,
                link_key: None,
                enc_key: None,
                int_key: None,
                cipher_key: None,
                ctr_nonce: bytes::zeros(12),
                tx_counter: 0,
                rx_counter: 0,
                passkey: None,
                oob_hash: None,
                pwd_hash: None,
            }),
            r@.sound(),
    {
        SecurityInner {
            state: SecurityState::Idle,
            method: PairingMethod::Unpaired,
            mode: SecurityMode::EncAndInt,
            psk: None,
            local_keypair: None,
            remote_pubkey: None,
            local_nonce: [0u8; 16],
            remote_nonce: [0u8; 16],
            local_confirm: [0u8; 32],
            remote_confirm: [0u8; 32],
            dhkey: None,
            link_key: None,
            enc_key: None,
            int_key: None,
            sm4_ctx: None,
            ctr_nonce: [0u8; 12],
            tx_counter: 0,
            rx_counter: 0,
            passkey: None,
            oob_hash: None,
            pwd_hash: None,
        }
    }

    /// Sets the secret that both sides hold.
    pub fn set_psk(&mut self, psk: [u8; 16])
        ensures
            final(self)@ == (SecModel { psk: Some(psk@), ..old(self)@ }),
            old(self)@.sound() ==> final(self)@.sound(),
    {
        self.psk = Some(psk);
    }

    /// Begins pairing, or returns `EBUSY` where it was begun already.
    pub fn start_pairing(&mut self, method: PairingMethod) -> (r: Result<(), Errno>)
        ensures
            if old(self)@.state != SecurityState::Idle {
                r == Err::<(), Errno>(Errno::EBUSY) && final(self)@ == old(self)@
            } else {
                r == Ok::<(), Errno>(()) && final(self)@ == old(self)@.begun(method)
            },
            old(self)@.sound() ==> final(self)@.sound(),
    {
        if self.state != SecurityState::Idle {
            return Err(Errno::EBUSY);
        }
        self.state = SecurityState::Pairing;
        self.method = method;
        Ok(())
    }

    /// The controller asks what this side can do; the reply is returned: a keyboard and a
    /// display, no data exchanged on another way, the peer's wish for authentication as
    /// it came, keys of 16 bytes, identity keys, the algorithms, and whether there is a
    /// secret and pairing is to use it. Returns `EBUSY` where pairing is not under way.
    pub fn on_pair_info_exchange(
        &mut self,
        handle: u16,
        _io_cap: u8,
        _oob_flag: u8,
        auth_req: u8,
        _max_key_len: u8,
        _sec_dist: u8,
        _psk_ind: u8,
        _crypto_cap: &[u8; 4],
    ) -> (r: Result<[u8; 12], Errno>)
        ensures
            final(self)@ == old(self)@,
            match r {
                Ok(p) => old(self)@.state == SecurityState::Pairing && p@ == reply(
                    handle,
                    seq![
                        0x04u8,
                        0x00,
                        auth_req,
                        16,
                        0x03,
                        0x03,
                        0x03,
                        0x01,
                        0x02,
                        bytes::bool_byte(
                            old(self)@.method == PairingMethod::Psk && old(self)@.psk is Some,
                        ),
                    ],
                ),
                Err(e) => old(self)@.state != SecurityState::Pairing && e == Errno::EBUSY,
            },
            old(self)@.sound() ==> final(self)@.sound(),
    {
        if self.state != SecurityState::Pairing {
            return Err(Errno::EBUSY);
        }
        let psk = bytes::bool_byte(self.method == PairingMethod::Psk && self.psk.is_some());
        let r: [u8; 12] = [
            bytes::lo8(handle),
            bytes::hi8(handle),
            0x04,
            0x00,
            auth_req,
            16,
            0x03,
            0x03,
            0x03,
            0x01,
            0x02,
            psk,
        ];
        assert(r@ =~= reply(
            handle,
            seq![0x04u8, 0x00, auth_req, 16, 0x03, 0x03, 0x03, 0x01, 0x02, psk],
        ));
        Ok(r)
    }

    /// The controller chose a method and told the public key of the peer, of which 32
    /// bytes count. A key pair is taken from `source`, and the reply with the first half
    /// of its public key is returned. Returns `EBUSY` where pairing is not under way and
    /// `EINVAL` where no key pair can be had.
    pub fn on_pair_option_report<G: Fn() -> Option<EcdhKeyPair>>(
        &mut self,
        handle: u16,
        _key_len: u8,
        auth_method: u8,
        _crypto_alg: &[u8; 4],
        public_key: &[u8],
        source: G,
    ) -> (r: Result<[u8; 34], Errno>)
        requires
            call_requires(source, ()),
        ensures
            if old(self)@.state != SecurityState::Pairing {
                r == Err::<[u8; 34], Errno>(Errno::EBUSY) && final(self)@ == old(self)@
            } else {
                let m = SecModel {
                    method: method_of(auth_method),
                    remote_pubkey: Some(bytes::padded(bytes::prefix(public_key@, 32), 64)),
                    ..old(self)@
                };
                match r {
                    Ok(p) => exists|k: EcdhKeyPair| #[trigger]
                        call_ensures(source, (), Some(k)) && final(self)@ == (SecModel {
                            keypair: Some((k.private_key@, k.public_key@)),
                            ..m
                        }) && p@ == reply(handle, k.public_key@.take(32)),
                    Err(e) => e == Errno::EINVAL && call_ensures(source, (), None) && final(self)@
                        == m,
                }
            },
            old(self)@.sound() ==> final(self)@.sound(),
    {
        if self.state != SecurityState::Pairing {
            return Err(Errno::EBUSY);
        }
        self.method = method_of(auth_method);
        let head = bytes::to_prefix(public_key, 32);
        self.remote_pubkey = Some(bytes::to_array(head.as_slice()));
        let kp = match EcdhKeyPair::generate(source) {
            Ok(k) => k,
            Err(e) => return Err(e),
        };
        self.local_keypair = Some(kp);
        let mut accept: [u8; 34] = [0u8; 34];
        accept[0] = bytes::lo8(handle);
        accept[1] = bytes::hi8(handle);
        let half = bytes::slice_of(&kp.public_key, 0, 32);
        bytes::put_at(&mut accept, 2, half.as_slice());
        proof {
            assert(half@ == kp.public_key@.take(32));
            assert(accept@ =~= reply(handle, kp.public_key@.take(32)));
            assert(call_ensures(source, (), Some(kp)));
        }
        Ok(accept)
    }

    /// The controller told the nonce of the peer. The nonce of this side is half a hash
    /// of a fixed text, and the reply with it is returned. Returns `EBUSY` where pairing
    /// is not under way.
    pub fn on_pair_random<H: Fn(&[u8]) -> [u8; 32]>(
        &mut self,
        handle: u16,
        random: &[u8; 16],
        hash: H,
    ) -> (r: Result<[u8; 18], Errno>)
        requires
            forall|s: &[u8]| call_requires(hash, (s,)),
        ensures
            match r {
                Ok(p) => {
                    &&& old(self)@.state == SecurityState::Pairing
                    &&& exists|d: Seq<u8>|
                        #![trigger sle_crypto::hash_gives(hash, nonce_label(), d)]
                        sle_crypto::hash_gives(hash, nonce_label(), d) && final(self)@ == (
                        SecModel {
                            remote_nonce: random@,
                            local_nonce: d.take(16),
                            ..old(self)@
                        }) && p@ == reply(handle, d.take(16))
                },
                Err(e) => old(self)@.state != SecurityState::Pairing && e == Errno::EBUSY
                    && final(self)@ == old(self)@,
            },
            old(self)@.sound() ==> final(self)@.sound(),
    {
        if self.state != SecurityState::Pairing {
            return Err(Errno::EBUSY);
        }
        self.remote_nonce = *random;
        let text: [u8; 26] = [
            0x73, 0x70, 0x61, 0x72, 0x6B, 0x6C, 0x69, 0x6E, 0x6B, 0x5F, 0x6C, 0x6F, 0x63, 0x61,
            0x6C, 0x5F, 0x6E, 0x6F, 0x6E, 0x63, 0x65, 0x5F, 0x73, 0x65, 0x65, 0x64,
        ];
        let seed = bytes::to_vec(&text);
        assert(seed@ =~= nonce_label());
        let d = hash(seed.as_slice());
        assert(sle_crypto::hash_gives(hash, nonce_label(), d@));
        self.local_nonce = sle_crypto::first16(&d);
        Ok(reply18(handle, &self.local_nonce))
    }

    /// The controller told the confirm value of the peer. That of this side is half a
    /// hash of the first half of its public key and the nonce of the peer, and the reply
    /// with it is returned. Returns `EBUSY` where pairing is not under way and `EINVAL`
    /// where this side has no key pair.
    pub fn on_pair_confirm<H: Fn(&[u8]) -> [u8; 32]>(
        &mut self,
        handle: u16,
        confirm: &[u8; 16],
        hash: H,
    ) -> (r: Result<[u8; 18], Errno>)
        requires
            forall|s: &[u8]| call_requires(hash, (s,)),
        ensures
            if old(self)@.state != SecurityState::Pairing {
                r == Err::<[u8; 18], Errno>(Errno::EBUSY) && final(self)@ == old(self)@
            } else {
                let m = SecModel {
                    remote_confirm: bytes::splice(old(self)@.remote_confirm, 0, confirm@),
                    ..old(self)@
                };
                match old(self)@.keypair {
                    None => r == Err::<[u8; 18], Errno>(Errno::EINVAL) && final(self)@ == m,
                    Some(k) => exists|d: Seq<u8>|
                        #![trigger sle_crypto::hash_gives(
                            hash,
                            k.1.take(32) + old(self)@.remote_nonce,
                            d,
                        )]
                        sle_crypto::hash_gives(hash, k.1.take(32) + old(self)@.remote_nonce, d)
                            && final(self)@ == (SecModel {
                            local_confirm: bytes::splice(
                                old(self)@.local_confirm,
                                0,
                                d.take(16),
                            ),
                            ..m
                        }) && (r matches Ok(p) && p@ == reply(handle, d.take(16))),
                }
            },
            old(self)@.sound() ==> final(self)@.sound(),
    {
        if self.state != SecurityState::Pairing {
            return Err(Errno::EBUSY);
        }
        bytes::put_at(&mut self.remote_confirm, 0, confirm);
        let kp = match self.local_keypair {
            Some(k) => k,
            None => return Err(Errno::EINVAL),
        };
        let mut input = bytes::slice_of(&kp.public_key, 0, 32);
        bytes::extend(&mut input, &self.remote_nonce);
        assert(input@ =~= kp.public_key@.take(32) + old(self)@.remote_nonce);
        let d = hash(input.as_slice());
        proof {
            let k = old(self)@.keypair->0;
            assert(k.1 == kp.public_key@);
            assert(sle_crypto::hash_gives(hash, k.1.take(32) + old(self)@.remote_nonce, d@));
        }
        let half = sle_crypto::first16(&d);
        bytes::put_at(&mut self.local_confirm, 0, &half);
        Ok(reply18(handle, &half))
    }

    /// The controller told the peer's check of the shared secret: the last step. The
    /// shared secret comes from `agree`, or is a hash of both nonces where that fails;
    /// the keyed hash of both nonces under it gives the check of this side and the link
    /// key; the session keys are derived from that, the keys of this pairing are
    /// forgotten, and the reply with the check is returned. Returns `EBUSY` where pairing
    /// is not under way and `EINVAL` where a key is missing.
    pub fn on_dhkey_verify<
        A: Fn(&[u8; 32], &[u8; 64]) -> Option<[u8; 32]>,
        H: Fn(&[u8]) -> [u8; 32],
        M: Fn(&[u8], &[u8]) -> [u8; 32],
    >(&mut self, handle: u16, _dhkey_check: &[u8; 16], agree: A, hash: H, mac: M) -> (r: Result<
        [u8; 18],
        Errno,
    >)
        requires
            forall|k: &[u8; 32], p: &[u8; 64]| call_requires(agree, (k, p)),
            forall|s: &[u8]| call_requires(hash, (s,)),
            forall|k: &[u8], s: &[u8]| call_requires(mac, (k, s)),
        ensures
            if old(self)@.state != SecurityState::Pairing {
                r == Err::<[u8; 18], Errno>(Errno::EBUSY) && final(self)@ == old(self)@
            } else if old(self)@.keypair is None || old(self)@.remote_pubkey is None {
                r == Err::<[u8; 18], Errno>(Errno::EINVAL) && final(self)@ == old(self)@
            } else {
                exists|dhkey: Seq<u8>, check: Seq<u8>, enc: Seq<u8>, int_key: Seq<u8>| {
                    &&& #[trigger] old(self)@.shares(agree, hash, dhkey)
                    &&& #[trigger] sle_crypto::mac_gives(
                        mac,
                        dhkey,
                        old(self)@.local_nonce + old(self)@.remote_nonce,
                        check,
                    )
                    &&& #[trigger] derived(mac, check.take(16), enc, int_key)
                    &&& final(self)@ == old(self)@.verified(check, enc, int_key)
                    &&& r matches Ok(p) && p@ == reply(handle, check.take(16))
                }
            },
            old(self)@.sound() ==> final(self)@.sound(),
    {
        if self.state != SecurityState::Pairing {
            return Err(Errno::EBUSY);
        }
        let kp = match self.local_keypair {
            Some(k) => k,
            None => return Err(Errno::EINVAL),
        };
        let remote = match self.remote_pubkey {
            Some(k) => k,
            None => return Err(Errno::EINVAL),
        };
        let nonces = both_nonces(&self.local_nonce, &self.remote_nonce);
        let ghost own = (old(self)@.keypair->0).0;
        let ghost peer = old(self)@.remote_pubkey->0;
        assert(own == kp.private_key@ && peer == remote@);
        let dhkey = match sle_crypto::ecdh_shared_secret(&kp.private_key, &remote, agree) {
            Ok(k) => {
                assert(sle_crypto::agree_gives(agree, own, peer, Some(k@)));
                k
            },
            Err(_) => {
                let k = hash(nonces.as_slice());
                assert(sle_crypto::hash_gives(hash, nonces@, k@));
                assert(sle_crypto::agree_gives(agree, own, peer, None));
                k
            },
        };
        assert(old(self)@.shares(agree, hash, dhkey@));
        let key = bytes::to_vec(&dhkey);
        let check = mac(key.as_slice(), nonces.as_slice());
        assert(sle_crypto::mac_gives(mac, dhkey@, nonces@, check@));
        let half = sle_crypto::first16(&check);
        self.link_key = Some(half);
        let (ek, ik) = sle_crypto::derive_keys(&half, mac);
        assert(derived(mac, half@, ek@, ik@));
        self.take_keys(ek, ik);
        self.state = SecurityState::Paired;
        self.local_keypair = None;
        self.remote_pubkey = None;
        self.dhkey = None;
        assert(self@ =~= old(self)@.verified(check@, ek@, ik@));
        Ok(reply18(handle, &half))
    }

    fn take_keys(&mut self, ek: [u8; 16], ik: [u8; 16])
        ensures
            final(self)@ == old(self)@.with_keys(ek@, ik@),
    {
        self.enc_key = Some(ek);
        self.int_key = Some(ik);
        self.sm4_ctx = Some(Sm4Key::new(&ek));
        let head = bytes::slice_of(&ik, 0, 12);
        self.ctr_nonce = bytes::to_array(head.as_slice());
        self.tx_counter = 0;
        self.rx_counter = 0;
        assert(self.ctr_nonce@ =~= ik@.take(12));
    }

    /// Derives the session keys from the link key, or returns `EINVAL` where there is
    /// none.
    pub fn derive_session_keys<M: Fn(&[u8], &[u8]) -> [u8; 32]>(&mut self, mac: M) -> (r: Result<
        (),
        Errno,
    >)
        requires
            forall|k: &[u8], s: &[u8]| call_requires(mac, (k, s)),
        ensures
            match old(self)@.link_key {
                None => r == Err::<(), Errno>(Errno::EINVAL) && final(self)@ == old(self)@,
                Some(lk) => r == Ok::<(), Errno>(()) && exists|enc: Seq<u8>, int_key: Seq<u8>|
                    #[trigger] derived(mac, lk, enc, int_key) && final(self)@ == old(
                        self,
                    )@.with_keys(enc, int_key),
            },
            old(self)@.sound() ==> final(self)@.sound(),
    {
        let lk = match self.link_key {
            Some(k) => k,
            None => return Err(Errno::EINVAL),
        };
        let (ek, ik) = sle_crypto::derive_keys(&lk, mac);
        proof {
            let l = old(self)@.link_key->0;
            assert(l == lk@);
            assert(derived(mac, l, ek@, ik@));
        }
        self.take_keys(ek, ik);
        Ok(())
    }

    /// The controller reports that pairing failed: everything is forgotten.
    pub fn on_pair_failure(&mut self, _handle: u16, _reason: u8)
        ensures
            final(self)@ == old(self)@.forgotten(),
            old(self)@.sound() ==> final(self)@.sound(),
    {
        self.reset();
    }

    /// Begins pairing without the user.
    pub fn pair_just_works(&mut self) -> (r: Result<(), Errno>)
        ensures
            if old(self)@.state != SecurityState::Idle {
                r == Err::<(), Errno>(Errno::EBUSY) && final(self)@ == old(self)@
            } else {
                r == Ok::<(), Errno>(()) && final(self)@ == old(self)@.begun(PairingMethod::JustWorks)
            },
            old(self)@.sound() ==> final(self)@.sound(),
    {
        self.start_pairing(PairingMethod::JustWorks)
    }

    /// Begins pairing by a secret, or returns `EINVAL` where there is none.
    pub fn pair_psk(&mut self) -> (r: Result<(), Errno>)
        ensures
            if old(self)@.psk is None {
                r == Err::<(), Errno>(Errno::EINVAL) && final(self)@ == old(self)@
            } else if old(self)@.state != SecurityState::Idle {
                r == Err::<(), Errno>(Errno::EBUSY) && final(self)@ == old(self)@
            } else {
                r == Ok::<(), Errno>(()) && final(self)@ == old(self)@.begun(PairingMethod::Psk)
            },
            old(self)@.sound() ==> final(self)@.sound(),
    {
        if self.psk.is_none() {
            return Err(Errno::EINVAL);
        }
        self.start_pairing(PairingMethod::Psk)
    }

    /// Begins pairing with digits to compare.
    pub fn pair_numeric_comparison(&mut self) -> (r: Result<(), Errno>)
        ensures
            if old(self)@.state != SecurityState::Idle {
                r == Err::<(), Errno>(Errno::EBUSY) && final(self)@ == old(self)@
            } else {
                r == Ok::<(), Errno>(()) && final(self)@ == old(self)@.begun(PairingMethod::NumericComparison)
            },
            old(self)@.sound() ==> final(self)@.sound(),
    {
        self.start_pairing(PairingMethod::NumericComparison)
    }

    /// Begins pairing with digits to enter.
    pub fn pair_passkey_entry(&mut self) -> (r: Result<(), Errno>)
        ensures
            if old(self)@.state != SecurityState::Idle {
                r == Err::<(), Errno>(Errno::EBUSY) && final(self)@ == old(self)@
            } else {
                r == Ok::<(), Errno>(()) && final(self)@ == old(self)@.begun(PairingMethod::PasskeyEntry)
            },
            old(self)@.sound() ==> final(self)@.sound(),
    {
        self.start_pairing(PairingMethod::PasskeyEntry)
    }

    /// Begins pairing by data exchanged on another way, or returns `EINVAL` where there are
    /// none.
    pub fn pair_oob(&mut self) -> (r: Result<(), Errno>)
        ensures
            if old(self)@.oob_hash is None {
                r == Err::<(), Errno>(Errno::EINVAL) && final(self)@ == old(self)@
            } else if old(self)@.state != SecurityState::Idle {
                r == Err::<(), Errno>(Errno::EBUSY) && final(self)@ == old(self)@
            } else {
                r == Ok::<(), Errno>(()) && final(self)@ == old(self)@.begun(PairingMethod::Oob)
            },
            old(self)@.sound() ==> final(self)@.sound(),
    {
        if self.oob_hash.is_none() {
            return Err(Errno::EINVAL);
        }
        self.start_pairing(PairingMethod::Oob)
    }

    /// Begins pairing by a password, or returns `EINVAL` where there is none.
    pub fn pair_password(&mut self) -> (r: Result<(), Errno>)
        ensures
            if old(self)@.pwd_hash is None {
                r == Err::<(), Errno>(Errno::EINVAL) && final(self)@ == old(self)@
            } else if old(self)@.state != SecurityState::Idle {
                r == Err::<(), Errno>(Errno::EBUSY) && final(self)@ == old(self)@
            } else {
                r == Ok::<(), Errno>(()) && final(self)@ == old(self)@.begun(PairingMethod::Password)
            },
            old(self)@.sound() ==> final(self)@.sound(),
    {
        if self.pwd_hash.is_none() {
            return Err(Errno::EINVAL);
        }
        self.start_pairing(PairingMethod::Password)
    }

    /// The digits to show; returns `EINVAL` where the user is not waited for or there are
    /// none.
    pub fn get_passkey(&self) -> (r: Result<u32, Errno>)
        ensures
            r == (if self@.state == SecurityState::AwaitingConfirm || self@.state
                == SecurityState::AwaitingPasskey {
                match self@.passkey {
                    Some(p) => Ok::<u32, Errno>(p),
                    None => Err(Errno::EINVAL),
                }
            } else {
                Err(Errno::EINVAL)
            }),
    {
        if self.state != SecurityState::AwaitingConfirm && self.state
            != SecurityState::AwaitingPasskey {
            return Err(Errno::EINVAL);
        }
        match self.passkey {
            Some(p) => Ok(p),
            None => Err(Errno::EINVAL),
        }
    }

    /// The user found the digits equal: the session keys are derived and pairing is done.
    /// Returns `EINVAL` where the user is not waited for or there is no link key.
    pub fn confirm_passkey<M: Fn(&[u8], &[u8]) -> [u8; 32]>(&mut self, mac: M) -> (r: Result<
        (),
        Errno,
    >)
        requires
            forall|k: &[u8], s: &[u8]| call_requires(mac, (k, s)),
        ensures
            if old(self)@.state != SecurityState::AwaitingConfirm || old(self)@.link_key is None {
                r == Err::<(), Errno>(Errno::EINVAL) && final(self)@ == old(self)@
            } else {
                r == Ok::<(), Errno>(()) && exists|enc: Seq<u8>, int_key: Seq<u8>|
                    #[trigger] derived(mac, old(self)@.link_key->0, enc, int_key) && final(self)@
                        == (SecModel {
                        passkey: None,
                        state: SecurityState::Paired,
                        ..old(self)@.with_keys(enc, int_key)
                    })
            },
            old(self)@.sound() ==> final(self)@.sound(),
    {
        if self.state != SecurityState::AwaitingConfirm {
            return Err(Errno::EINVAL);
        }
        match self.derive_session_keys(mac) {
            Ok(()) => {},
            Err(e) => return Err(e),
        }
        self.passkey = None;
        self.state = SecurityState::Paired;
        Ok(())
    }

    /// The user found the digits different: back to idle, without keys, nonces and confirm
    /// values of this pairing.
    pub fn reject_passkey(&mut self)
        ensures
            final(self)@ == old(self)@.turned_down(),
            old(self)@.sound() ==> final(self)@.sound(),
    {
        self.local_keypair = None;
        self.remote_pubkey = None;
        self.local_nonce = [0u8; 16];
        self.remote_nonce = [0u8; 16];
        self.local_confirm = [0u8; 32];
        self.remote_confirm = [0u8; 32];
        self.dhkey = None;
        self.passkey = None;
        self.link_key = None;
        self.state = SecurityState::Idle;
        self.method = PairingMethod::Unpaired;
    }

    /// The user entered digits. Where they are right, the session keys are derived and
    /// pairing is done; where they are wrong, pairing is given up and `EACCES` returned.
    /// Returns `EINVAL` where the user is not waited for, or digits or link key are
    /// missing.
    pub fn input_passkey<M: Fn(&[u8], &[u8]) -> [u8; 32]>(&mut self, value: u32, mac: M) -> (r:
        Result<(), Errno>)
        requires
            forall|k: &[u8], s: &[u8]| call_requires(mac, (k, s)),
        ensures
            if old(self)@.state != SecurityState::AwaitingPasskey || old(self)@.passkey is None {
                r == Err::<(), Errno>(Errno::EINVAL) && final(self)@ == old(self)@
            } else if old(self)@.passkey != Some(value) {
                r == Err::<(), Errno>(Errno::EACCES) && final(self)@ == old(self)@.given_up()
            } else if old(self)@.link_key is None {
                r == Err::<(), Errno>(Errno::EINVAL) && final(self)@ == (SecModel {
                    passkey: None,
                    ..old(self)@
                })
            } else {
                r == Ok::<(), Errno>(()) && exists|enc: Seq<u8>, int_key: Seq<u8>|
                    #[trigger] derived(mac, old(self)@.link_key->0, enc, int_key) && final(self)@
                        == (SecModel {
                        passkey: None,
                        state: SecurityState::Paired,
                        ..old(self)@.with_keys(enc, int_key)
                    })
            },
            old(self)@.sound() ==> final(self)@.sound(),
    {
        if self.state != SecurityState::AwaitingPasskey {
            return Err(Errno::EINVAL);
        }
        let expected = match self.passkey {
            Some(p) => p,
            None => return Err(Errno::EINVAL),
        };
        if value != expected {
            self.passkey = None;
            self.link_key = None;
            self.state = SecurityState::Idle;
            self.method = PairingMethod::Unpaired;
            return Err(Errno::EACCES);
        }
        self.passkey = None;
        match self.derive_session_keys(mac) {
            Ok(()) => {},
            Err(e) => return Err(e),
        }
        self.state = SecurityState::Paired;
        Ok(())
    }

    /// Takes in data exchanged on another way; only their hash is kept.
    pub fn set_oob_data<H: Fn(&[u8]) -> [u8; 32]>(&mut self, data: &[u8], hash: H)
        requires
            forall|s: &[u8]| call_requires(hash, (s,)),
        ensures
            exists|d: Seq<u8>|
                #![trigger sle_crypto::hash_gives(hash, data@, d)]
                sle_crypto::hash_gives(hash, data@, d) && final(self)@ == (SecModel {
                    oob_hash: Some(d),
                    ..old(self)@
                }),
            old(self)@.sound() ==> final(self)@.sound(),
    {
        let d = hash(data);
        assert(sle_crypto::hash_gives(hash, data@, d@));
        self.oob_hash = Some(d);
    }

    /// Takes in a password, the first `len` bytes of `pwd`; only its hash is kept.
    /// Returns `EINVAL` where it is empty or longer than 32 bytes.
    pub fn set_password<H: Fn(&[u8]) -> [u8; 32]>(&mut self, pwd: &[u8], len: u8, hash: H) -> (r:
        Result<(), Errno>)
        requires
            forall|s: &[u8]| call_requires(hash, (s,)),
            1 <= len <= 32 ==> len <= pwd@.len(),
        ensures
            if 1 <= len <= 32 {
                r == Ok::<(), Errno>(()) && exists|d: Seq<u8>|
                    #![trigger sle_crypto::hash_gives(hash, pwd@.take(len as int), d)]
                    sle_crypto::hash_gives(hash, pwd@.take(len as int), d) && final(self)@ == (
                    SecModel { pwd_hash: Some(d), ..old(self)@ })
            } else {
                r == Err::<(), Errno>(Errno::EINVAL) && final(self)@ == old(self)@
            },
            old(self)@.sound() ==> final(self)@.sound(),
    {
        let l = len as usize;
        if l == 0 || l > 32 {
            return Err(Errno::EINVAL);
        }
        let p = bytes::slice_of(pwd, 0, l);
        assert(p@ == pwd@.take(len as int));
        let d = hash(p.as_slice());
        assert(sle_crypto::hash_gives(hash, pwd@.take(len as int), d@));
        self.pwd_hash = Some(d);
        Ok(())
    }

    /// Turns encryption on. Returns `EBUSY` where pairing is not done and `EINVAL` where
    /// there is no key.
    pub fn enable_encryption(&mut self) -> (r: Result<(), Errno>)
        ensures
            if old(self)@.state != SecurityState::Paired {
                r == Err::<(), Errno>(Errno::EBUSY) && final(self)@ == old(self)@
            } else if old(self)@.cipher_key is None {
                r == Err::<(), Errno>(Errno::EINVAL) && final(self)@ == old(self)@
            } else {
                r == Ok::<(), Errno>(()) && final(self)@ == old(self)@.enabled()
            },
            old(self)@.sound() ==> final(self)@.sound(),
    {
        if self.state != SecurityState::Paired {
            return Err(Errno::EBUSY);
        }
        if self.sm4_ctx.is_none() {
            return Err(Errno::EINVAL);
        }
        self.state = SecurityState::Encrypted;
        Ok(())
    }

    /// Whether data are encrypted.
    pub fn is_encrypted(&self) -> (r: bool)
        ensures
            r == (self@.state == SecurityState::Encrypted),
    {
        self.state == SecurityState::Encrypted
    }

    /// Encrypts data in place and returns the counter of its first block. Returns `EPERM`
    /// where encryption is off and `EINVAL` where there is no key.
    pub fn encrypt<C: Fn(&[u8; 16], &[u8; 16], &[u8]) -> Vec<u8>>(
        &mut self,
        data: &mut [u8],
        crypt: C,
    ) -> (r: Result<u32, Errno>)
        requires
            forall|k: &[u8; 16], i: &[u8; 16], s: &[u8]| call_requires(crypt, (k, i, s)),
            forall|k: &[u8; 16], i: &[u8; 16], s: &[u8], o: Vec<u8>|
                call_ensures(crypt, (k, i, s), o) ==> o@.len() == s@.len(),
        ensures
            match old(self)@.crypt_error() {
                Some(e) => r == Err::<u32, Errno>(e) && final(self)@ == old(self)@ && final(data)@
                    == old(data)@,
                None => {
                    &&& r == Ok::<u32, Errno>(old(self)@.tx_counter)
                    &&& old(self)@.crypted(
                        crypt,
                        old(self)@.tx_counter,
                        old(data)@,
                        final(data)@,
                    )
                    &&& final(self)@ == old(self)@.sent(old(data)@.len())
                },
            },
            old(self)@.sound() ==> final(self)@.sound(),
    {
        if !self.is_encrypted() {
            return Err(Errno::EPERM);
        }
        let ctx = match self.sm4_ctx {
            Some(c) => c,
            None => return Err(Errno::EINVAL),
        };
        let ctr = self.tx_counter;
        sle_crypto::sm4_ctr(&ctx, &self.ctr_nonce, ctr, data, crypt);
        self.tx_counter = advance(ctr, data.len());
        Ok(ctr)
    }

    /// Decrypts data in place. Returns `EPERM` where encryption is off and `EINVAL` where
    /// there is no key.
    pub fn decrypt<C: Fn(&[u8; 16], &[u8; 16], &[u8]) -> Vec<u8>>(
        &mut self,
        data: &mut [u8],
        crypt: C,
    ) -> (r: Result<(), Errno>)
        requires
            forall|k: &[u8; 16], i: &[u8; 16], s: &[u8]| call_requires(crypt, (k, i, s)),
            forall|k: &[u8; 16], i: &[u8; 16], s: &[u8], o: Vec<u8>|
                call_ensures(crypt, (k, i, s), o) ==> o@.len() == s@.len(),
        ensures
            match old(self)@.crypt_error() {
                Some(e) => r == Err::<(), Errno>(e) && final(self)@ == old(self)@ && final(data)@
                    == old(data)@,
                None => {
                    &&& r == Ok::<(), Errno>(())
                    &&& old(self)@.crypted(
                        crypt,
                        old(self)@.rx_counter,
                        old(data)@,
                        final(data)@,
                    )
                    &&& final(self)@ == old(self)@.received(old(data)@.len())
                },
            },
            old(self)@.sound() ==> final(self)@.sound(),
    {
        if !self.is_encrypted() {
            return Err(Errno::EPERM);
        }
        let ctx = match self.sm4_ctx {
            Some(c) => c,
            None => return Err(Errno::EINVAL),
        };
        let ctr = self.rx_counter;
        sle_crypto::sm4_ctr(&ctx, &self.ctr_nonce, ctr, data, crypt);
        self.rx_counter = advance(ctr, data.len());
        Ok(())
    }

    /// The hash of some data.
    pub fn sm3_hash<H: Fn(&[u8]) -> [u8; 32]>(data: &[u8], hash: H) -> (r: [u8; 32])
        requires
            forall|s: &[u8]| call_requires(hash, (s,)),
        ensures
            sle_crypto::hash_gives(hash, data@, r@),
    {
        hash(data)
    }

    /// Encrypts data in place with the current key from counter 0 on, whatever the state.
    /// Returns `EINVAL` where there is no key.
    pub fn encrypt_test<C: Fn(&[u8; 16], &[u8; 16], &[u8]) -> Vec<u8>>(
        &self,
        data: &mut [u8],
        crypt: C,
    ) -> (r: Result<(), Errno>)
        requires
            forall|k: &[u8; 16], i: &[u8; 16], s: &[u8]| call_requires(crypt, (k, i, s)),
            forall|k: &[u8; 16], i: &[u8; 16], s: &[u8], o: Vec<u8>|
                call_ensures(crypt, (k, i, s), o) ==> o@.len() == s@.len(),
        ensures
            if self@.cipher_key is None {
                r == Err::<(), Errno>(Errno::EINVAL) && final(data)@ == old(data)@
            } else {
                r == Ok::<(), Errno>(()) && self@.crypted(crypt, 0, old(data)@, final(data)@)
            },
    {
        let ctx = match self.sm4_ctx {
            Some(c) => c,
            None => return Err(Errno::EINVAL),
        };
        sle_crypto::sm4_ctr(&ctx, &self.ctr_nonce, 0, data, crypt);
        Ok(())
    }

    /// Decrypts data in place with the current key from counter 0 on, whatever the state.
    /// Returns `EINVAL` where there is no key.
    pub fn decrypt_test<C: Fn(&[u8; 16], &[u8; 16], &[u8]) -> Vec<u8>>(
        &self,
        data: &mut [u8],
        crypt: C,
    ) -> (r: Result<(), Errno>)
        requires
            forall|k: &[u8; 16], i: &[u8; 16], s: &[u8]| call_requires(crypt, (k, i, s)),
            forall|k: &[u8; 16], i: &[u8; 16], s: &[u8], o: Vec<u8>|
                call_ensures(crypt, (k, i, s), o) ==> o@.len() == s@.len(),
        ensures
            if self@.cipher_key is None {
                r == Err::<(), Errno>(Errno::EINVAL) && final(data)@ == old(data)@
            } else {
                r == Ok::<(), Errno>(()) && self@.crypted(crypt, 0, old(data)@, final(data)@)
            },
    {
        self.encrypt_test(data, crypt)
    }

    /// The first four bytes of the hash of the encryption key, zeros where there is none.
    pub fn enc_key_fingerprint<H: Fn(&[u8]) -> [u8; 32]>(&self, hash: H) -> (r: [u8; 4])
        requires
            forall|s: &[u8]| call_requires(hash, (s,)),
        ensures
            match self@.enc_key {
                None => r@ == bytes::zeros(4),
                Some(k) => exists|d: Seq<u8>|
                    #![trigger sle_crypto::hash_gives(hash, k, d)]
                    sle_crypto::hash_gives(hash, k, d) && r@ == d.take(4),
            },
    {
        match self.enc_key {
            Some(k) => {
                let v = bytes::to_vec(&k);
                let h = hash(v.as_slice());
                assert(sle_crypto::hash_gives(hash, k@, h@));
                let r: [u8; 4] = [h[0], h[1], h[2], h[3]];
                assert(r@ =~= h@.take(4));
                proof {
                    let key = self@.enc_key->0;
                    assert(key == k@);
                    assert(sle_crypto::hash_gives(hash, key, h@));
                }
                r
            },
            None => [0u8; 4],
        }
    }

    /// Forgets everything but the mode and the secret that both sides hold.
    pub fn reset(&mut self)
        ensures
            final(self)@ == old(self)@.forgotten(),
            old(self)@.sound() ==> final(self)@.sound(),
    {
        self.state = SecurityState::Idle;
        self.method = PairingMethod::Unpaired;
        self.local_keypair = None;
        self.remote_pubkey = None;
        self.local_nonce = [0u8; 16];
        self.remote_nonce = [0u8; 16];
        self.local_confirm = [0u8; 32];
        self.remote_confirm = [0u8; 32];
        self.dhkey = None;
        self.link_key = None;
        self.enc_key = None;
        self.int_key = None;
        self.sm4_ctx = None;
        self.ctr_nonce = [0u8; 12];
        self.tx_counter = 0;
        self.rx_counter = 0;
        self.passkey = None;
        self.oob_hash = None;
        self.pwd_hash = None;
    }
}

impl SecModel {
    /// Whether `after` are the data `before` turned by the cipher stream from counter
    /// `ctr` on.
    pub open spec fn crypted<C: Fn(&[u8; 16], &[u8; 16], &[u8]) -> Vec<u8>>(
        self,
        crypt: C,
        ctr: u32,
        before: Seq<u8>,
        after: Seq<u8>,
    ) -> bool {
        if before.len() == 0 {
            after == before
        } else {
            sle_crypto::stream_gives(
                crypt,
                self.cipher_key->0,
                sle_crypto::ctr_block(self.ctr_nonce, ctr),
                before,
                after,
            )
        }
    }
}

fn advance(ctr: u32, n: usize) -> (r: u32)
    ensures
        r == counter_after(ctr, n as nat),
{
    let whole = (n / 16) as u64;
    let rest: u64 = if n % 16 == 0 {
        0
    } else {
        1
    };
    let b = ((whole + rest) % 0x1_0000_0000) as u32;
    assert(blocks(n as nat) == whole + rest);
    ctr.wrapping_add(b)
}

/// Two sides that derived the same keys stay in step: what one encrypts with its key,
/// nonce and counter, the other decrypts with the same ones, before and after any
/// message.
pub proof fn sides_stay_in_step(a: SecModel, b: SecModel, n: nat)
    requires
        a.cipher_key == b.cipher_key,
        a.ctr_nonce == b.ctr_nonce,
        a.tx_counter == b.rx_counter,
    ensures
        sle_crypto::ctr_block(a.ctr_nonce, a.tx_counter) == sle_crypto::ctr_block(
            b.ctr_nonce,
            b.rx_counter,
        ),
        counter_after(a.tx_counter, n) == counter_after(b.rx_counter, n),
{
}

/// A message that was encrypted by one side is decrypted by the other, where the cipher
/// stream function undoes itself and the sides are in step.
pub proof fn decrypts<C: Fn(&[u8; 16], &[u8; 16], &[u8]) -> Vec<u8>>(
    a: SecModel,
    b: SecModel,
    crypt: C,
    plain: Seq<u8>,
    secret: Seq<u8>,
    out: Seq<u8>,
)
    requires
        a.cipher_key == b.cipher_key,
        a.ctr_nonce == b.ctr_nonce,
        a.tx_counter == b.rx_counter,
        a.crypted(crypt, a.tx_counter, plain, secret),
        b.crypted(crypt, b.rx_counter, secret, out),
        forall|k: Seq<u8>, i: Seq<u8>, x: Seq<u8>, y: Seq<u8>, z: Seq<u8>|
            #[trigger] sle_crypto::stream_gives(crypt, k, i, x, y)
                && #[trigger] sle_crypto::stream_gives(crypt, k, i, y, z) ==> z == x,
        secret.len() == plain.len(),
    ensures
        out == plain,
{
}

/// Once pairing is done, encryption can be turned on; the first message then starts at
/// counter 0, the same context decrypts it again, where the cipher stream function undoes
/// itself, and the message after it starts behind the blocks that the first one took.
pub proof fn first_message<C: Fn(&[u8; 16], &[u8; 16], &[u8]) -> Vec<u8>>(
    m: SecModel,
    crypt: C,
    plain: Seq<u8>,
    secret: Seq<u8>,
    out: Seq<u8>,
)
    requires
        m.sound(),
        m.state == SecurityState::Paired,
        m.enabled().crypted(crypt, m.enabled().tx_counter, plain, secret),
        secret.len() == plain.len(),
        m.enabled().sent(plain.len()).crypted(
            crypt,
            m.enabled().sent(plain.len()).rx_counter,
            secret,
            out,
        ),
        forall|k: Seq<u8>, i: Seq<u8>, x: Seq<u8>, y: Seq<u8>, z: Seq<u8>|
            #[trigger] sle_crypto::stream_gives(crypt, k, i, x, y)
                && #[trigger] sle_crypto::stream_gives(crypt, k, i, y, z) ==> z == x,
    ensures
        m.cipher_key is Some,
        m.enabled().crypt_error() is None,
        m.enabled().tx_counter == 0,
        m.enabled().sent(plain.len()).crypt_error() is None,
        out == plain,
        m.enabled().sent(plain.len()).received(secret.len()).tx_counter == blocks(plain.len())
            % 0x1_0000_0000,
        blocks(plain.len()) < 0x1_0000_0000 ==> m.enabled().sent(plain.len()).received(
            secret.len(),
        ).tx_counter == (plain.len() + 15) / 16,
{
    decrypts(m.enabled(), m.enabled().sent(plain.len()), crypt, plain, secret, out);
}

/// Keys are there exactly when pairing is done: a context that was forgotten has none,
/// and one whose last pairing step succeeded can be encrypted.
pub proof fn paired_has_keys(m: SecModel, check: Seq<u8>, enc: Seq<u8>, int_key: Seq<u8>)
    ensures
        m.forgotten().cipher_key is None,
        m.forgotten().link_key is None,
        m.forgotten().psk == m.psk,
        m.verified(check, enc, int_key).state == SecurityState::Paired,
        m.verified(check, enc, int_key).cipher_key == Some(enc),
        m.verified(check, enc, int_key).keypair is None,
        m.verified(check, enc, int_key).dhkey is None,
        m.verified(check, enc, int_key).tx_counter == 0,
        m.verified(check, enc, int_key).rx_counter == 0,
        m.verified(check, enc, int_key).sound(),
        m.forgotten().sound(),
{
}

} // verus!
