use sparklink::errno::Errno;
use sparklink::sle_crypto::{
    ctr_iv, derive_keys, ecdh_shared_secret, sm4_ctr, EcdhKeyPair, Sm4Key,
};
use sparklink::sle_rpa::{RalEntry, RpaManager};
use sparklink::sle_security::{PairingMethod, SecurityInner, SecurityState};

fn mix(data: &[u8]) -> [u8; 32] {
    let mut h = [0u8; 32];
    let mut acc: u32 = 0x1234_5678;
    for (i, &b) in data.iter().enumerate() {
        acc = acc.rotate_left(5) ^ u32::from(b) ^ (i as u32);
        h[i % 32] ^= (acc >> 8) as u8;
    }
    for i in 0..32 {
        acc = acc.wrapping_mul(1_664_525).wrapping_add(1_013_904_223);
        h[i] ^= (acc >> 16) as u8;
    }
    h
}

fn keyed(key: &[u8], data: &[u8]) -> [u8; 32] {
    let mut v = key.to_vec();
    v.extend_from_slice(data);
    mix(&v)
}

fn xor_stream(key: &[u8; 16], iv: &[u8; 16], data: &[u8]) -> Vec<u8> {
    let mut seed = key.to_vec();
    seed.extend_from_slice(iv);
    let pad = mix(&seed);
    data.iter().enumerate().map(|(i, &b)| b ^ pad[i % 32]).collect()
}

fn pair() -> Option<EcdhKeyPair> {
    Some(EcdhKeyPair { private_key: [1; 32], public_key: [2; 64] })
}

fn paired() -> SecurityInner {
    let mut s = SecurityInner::new();
    s.pair_just_works().unwrap();
    s.on_pair_option_report(1, 16, 1, &[0; 4], &[9; 32], pair).unwrap();
    s.on_pair_random(1, &[3; 16], mix).unwrap();
    s.on_dhkey_verify(1, &[0; 16], |_, _| Some([7; 32]), mix, keyed).unwrap();
    s
}

#[test]
fn stream_starts_at_nonce_and_counter() {
    let iv = ctr_iv(&[0xAA; 12], 0x0102_0304);
    assert_eq!(&iv[..12], &[0xAA; 12]);
    assert_eq!(&iv[12..], &[1, 2, 3, 4]);
}

#[test]
fn stream_cipher_undoes_itself() {
    let key = Sm4Key::new(&[5; 16]);
    let mut data = *b"sparklink payload";
    sm4_ctr(&key, &[1; 12], 9, &mut data, xor_stream);
    assert_ne!(&data, b"sparklink payload");
    sm4_ctr(&key, &[1; 12], 9, &mut data, xor_stream);
    assert_eq!(&data, b"sparklink payload");
    sm4_ctr(&key, &[1; 12], 9, &mut [], |_, _, _| panic!("called without data"));
}

#[test]
fn keys_come_from_labels() {
    let (e, i) = derive_keys(&[4; 16], keyed);
    assert_eq!(e, keyed(&[4; 16], b"sparklink_enc_key")[..16]);
    assert_eq!(i, keyed(&[4; 16], b"sparklink_int_key")[..16]);
}

#[test]
fn failing_primitives_are_errors() {
    assert!(matches!(EcdhKeyPair::generate(|| None), Err(Errno::EINVAL)));
    assert_eq!(EcdhKeyPair::generate(pair).unwrap().private_key, [1; 32]);
    assert_eq!(ecdh_shared_secret(&[1; 32], &[2; 64], |_, _| None), Err(Errno::EINVAL));
    assert_eq!(ecdh_shared_secret(&[1; 32], &[2; 64], |k, _| Some(*k)), Ok([1; 32]));
}

#[test]
fn pairing_begins_once() {
    let mut s = SecurityInner::new();
    assert_eq!(s.start_pairing(PairingMethod::JustWorks), Ok(()));
    assert_eq!(s.state, SecurityState::Pairing);
    assert_eq!(s.pair_just_works(), Err(Errno::EBUSY));
    s.on_pair_failure(1, 5);
    assert_eq!(s.state, SecurityState::Idle);
}

#[test]
fn methods_need_their_secret() {
    let mut s = SecurityInner::new();
    assert_eq!(s.pair_psk(), Err(Errno::EINVAL));
    assert_eq!(s.pair_oob(), Err(Errno::EINVAL));
    assert_eq!(s.pair_password(), Err(Errno::EINVAL));
    s.set_psk([8; 16]);
    assert_eq!(s.pair_psk(), Ok(()));
    let r = s.on_pair_info_exchange(0x0102, 0, 0, 5, 16, 0, 0, &[0; 4]).unwrap();
    assert_eq!(&r[..2], &[2, 1]);
    assert_eq!((r[4], r[11]), (5, 1));
    let mut t = SecurityInner::new();
    t.set_oob_data(&[1, 2], mix);
    assert_eq!(t.pair_oob(), Ok(()));
    let mut u = SecurityInner::new();
    assert_eq!(u.set_password(b"secret", 0, mix), Err(Errno::EINVAL));
    assert_eq!(u.set_password(&[b'x'; 40], 33, mix), Err(Errno::EINVAL));
    assert_eq!(u.set_password(b"secret", 6, mix), Ok(()));
    assert_eq!(u.pwd_hash, Some(mix(b"secret")));
    assert_eq!(u.pair_password(), Ok(()));
}

#[test]
fn nothing_is_answered_outside_pairing() {
    let mut s = SecurityInner::new();
    assert!(matches!(s.on_pair_info_exchange(1, 0, 0, 0, 0, 0, 0, &[0; 4]), Err(Errno::EBUSY)));
    assert!(matches!(s.on_pair_option_report(1, 0, 0, &[0; 4], &[], pair), Err(Errno::EBUSY)));
    assert!(matches!(s.on_pair_random(1, &[0; 16], mix), Err(Errno::EBUSY)));
    assert!(matches!(s.on_pair_confirm(1, &[0; 16], mix), Err(Errno::EBUSY)));
    assert!(matches!(
        s.on_dhkey_verify(1, &[0; 16], |_, _| None, mix, keyed),
        Err(Errno::EBUSY)
    ));
}

#[test]
fn pairing_answers_step_by_step() {
    let mut s = SecurityInner::new();
    s.pair_just_works().unwrap();
    assert!(matches!(s.on_pair_confirm(1, &[0; 16], mix), Err(Errno::EINVAL)));
    let a = s.on_pair_option_report(0x0201, 16, 1, &[0; 4], &[9; 40], pair).unwrap();
    assert_eq!(&a[..2], &[1, 2]);
    assert_eq!(&a[2..], &[2; 32]);
    assert_eq!(&s.remote_pubkey.unwrap()[..33], &[&[9u8; 32][..], &[0]].concat()[..]);
    let n = s.on_pair_random(1, &[3; 16], mix).unwrap();
    assert_eq!(&n[2..], &mix(b"sparklink_local_nonce_seed")[..16]);
    let c = s.on_pair_confirm(1, &[6; 16], mix).unwrap();
    assert_eq!(&c[2..], &mix(&[&[2u8; 32][..], &[3; 16]].concat())[..16]);
    let v = s.on_dhkey_verify(1, &[0; 16], |_, _| Some([7; 32]), mix, keyed).unwrap();
    let nonces = [&mix(b"sparklink_local_nonce_seed")[..16], &[3; 16]].concat();
    assert_eq!(&v[2..], &keyed(&[7; 32], &nonces)[..16]);
    assert_eq!(s.state, SecurityState::Paired);
    assert!(s.enc_key.is_some() && s.int_key.is_some() && s.local_keypair.is_none());
}

#[test]
fn failed_agreement_falls_back_to_the_nonces() {
    let mut s = SecurityInner::new();
    s.pair_just_works().unwrap();
    s.on_pair_option_report(1, 16, 1, &[0; 4], &[9; 32], pair).unwrap();
    s.on_pair_random(1, &[3; 16], mix).unwrap();
    let nonces = [&mix(b"sparklink_local_nonce_seed")[..16], &[3; 16]].concat();
    let v = s.on_dhkey_verify(1, &[0; 16], |_, _| None, mix, keyed).unwrap();
    assert_eq!(&v[2..], &keyed(&mix(&nonces), &nonces)[..16]);
}

#[test]
fn two_sides_understand_each_other() {
    let mut a = paired();
    let mut b = paired();
    let mut data = *b"hello";
    assert!(a.encrypt(&mut data, xor_stream).is_err());
    assert_eq!(&data, b"hello");
    assert_eq!(a.enable_encryption(), Ok(()));
    assert_eq!(b.enable_encryption(), Ok(()));
    assert!(a.is_encrypted());
    for _ in 0..3 {
        let mut m = *b"a message that is longer than a block";
        a.encrypt(&mut m, xor_stream).unwrap();
        assert_ne!(&m[..9], b"a message");
        b.decrypt(&mut m, xor_stream).unwrap();
        assert_eq!(&m, b"a message that is longer than a block");
        assert_eq!(a.tx_counter, b.rx_counter);
    }
    assert_eq!(a.tx_counter, 9);
    a.reset();
    assert!(!a.is_encrypted());
}

#[test]
fn encryption_needs_pairing() {
    let mut s = SecurityInner::new();
    assert_eq!(s.enable_encryption(), Err(Errno::EBUSY));
    assert!(s.encrypt(&mut [1, 2], xor_stream).is_err());
    assert!(s.decrypt(&mut [1, 2], xor_stream).is_err());
}

#[test]
fn passkey_is_asked_for_only_while_it_is_awaited() {
    let mut s = SecurityInner::new();
    assert!(s.get_passkey().is_err());
    assert_eq!(s.confirm_passkey(keyed), Err(Errno::EINVAL));
    assert_eq!(s.input_passkey(1, keyed), Err(Errno::EINVAL));
    s.state = SecurityState::AwaitingPasskey;
    s.passkey = Some(123_456);
    assert_eq!(s.get_passkey(), Ok(123_456));
    assert_eq!(s.input_passkey(1, keyed), Err(Errno::EACCES));
    assert_eq!(s.state, SecurityState::Idle);
}

#[test]
fn rejected_pairing_leaves_nothing_behind() {
    let mut s = SecurityInner::new();
    s.pair_numeric_comparison().unwrap();
    s.on_pair_option_report(1, 16, 0, &[0; 4], &[9; 32], pair).unwrap();
    s.on_pair_random(1, &[3; 16], mix).unwrap();
    s.state = SecurityState::AwaitingConfirm;
    s.passkey = Some(42);
    s.reject_passkey();
    assert_eq!((s.state, s.method), (SecurityState::Idle, PairingMethod::Unpaired));
    assert!(s.get_passkey().is_err());
    s.pair_just_works().unwrap();
    assert_eq!(s.on_pair_confirm(1, &[0; 16], mix), Err(Errno::EINVAL));
}

#[test]
fn resolving_list_is_kept() {
    let mut m = RpaManager::new();
    let e = RalEntry {
        peer_id_type: 0,
        resolve_algo: 0,
        peer_irkid: 0,
        local_irkid: 0,
        peer_id: [1; 6],
        peer_irk: [2; 16],
        local_irk: [3; 16],
    };
    assert_eq!(m.ral_add(e), Ok(()));
    assert_eq!(m.ral_size(), 1);
    assert_eq!(m.ral_remove(0, &[9; 6]), Err(Errno::ENOENT));
    m.set_enabled(true);
    assert!(m.is_enabled());
    assert_eq!(m.ral_add(e), Err(Errno::EBUSY));
    assert_eq!(m.ral_clear(), Err(Errno::EBUSY));
    m.set_enabled(false);
    assert_eq!(m.ral_remove(0, &[1; 6]), Ok(()));
    assert_eq!(m.ral_size(), 0);
    m.set_timeout(900);
    assert_eq!(m.timeout(), 900);
}

#[test]
fn private_address_is_marked_and_keyed() {
    let a = RpaManager::generate_rpa(&[2; 16], mix, keyed);
    let b = RpaManager::generate_rpa(&[3; 16], mix, keyed);
    assert_ne!(a, b);
    assert_eq!(a, RpaManager::generate_rpa(&[2; 16], mix, keyed));
    assert_eq!(a[3] / 64, 1);
    assert_eq!(&a[..3], &keyed(&[2; 16], &a[3..])[..3]);
}

#[test]
fn first_message_starts_at_zero() {
    for len in [0usize, 1, 15, 16, 17, 33] {
        let mut s = paired();
        assert_eq!((s.state, s.tx_counter, s.rx_counter), (SecurityState::Paired, 0, 0));
        assert_eq!(s.enable_encryption(), Ok(()));
        let d0: Vec<u8> = (0..len).map(|i| i as u8).collect();
        let mut d = d0.clone();
        assert_eq!(s.encrypt(&mut d, xor_stream), Ok(0));
        assert_eq!(s.decrypt(&mut d, xor_stream), Ok(()));
        assert_eq!(d, d0);
        assert_eq!(s.encrypt(&mut [0; 4], xor_stream), Ok((len as u32 + 15) / 16));
    }
}

#[test]
fn confirmed_digits_start_counters_anew() {
    let mut s = paired();
    s.enable_encryption().unwrap();
    s.encrypt(&mut [0; 40], xor_stream).unwrap();
    assert_eq!(s.tx_counter, 3);
    s.state = SecurityState::AwaitingConfirm;
    assert_eq!(s.confirm_passkey(keyed), Ok(()));
    assert_eq!((s.state, s.tx_counter, s.rx_counter), (SecurityState::Paired, 0, 0));
}
