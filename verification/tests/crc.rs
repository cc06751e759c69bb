use sparklink::sle_crc::{
    crc12, crc12_adv_seed, crc16, crc16_append, crc16_verify, CRC16_DEFAULT_SEED,
};

fn crc12_bit_by_bit(seed: u16, data: &[u8]) -> u16 {
    let mut c = seed % 0x1000;
    for &b in data {
        for k in 0..8 {
            let bit = (c % 2) ^ u16::from((b >> k) % 2);
            c /= 2;
            if bit == 1 {
                c ^= 0x0D25;
            }
        }
    }
    c
}

#[test]
fn crc16_of_the_nine_digits() {
    assert_eq!(crc16(0, b"123456789"), 0xBB3D);
    assert_eq!(crc16(0xFFFF, b"123456789"), 0x4B37);
}

#[test]
fn crc16_of_nothing_is_the_seed() {
    assert_eq!(crc16(CRC16_DEFAULT_SEED, &[]), 0x5555);
}

#[test]
fn crc12_is_that_of_the_bits() {
    for seed in [0u16, 0x123, 0xFFF] {
        for data in [&b""[..], &b"a"[..], &b"123456789"[..], &[0xFFu8; 40][..]] {
            assert_eq!(crc12(seed, data), crc12_bit_by_bit(seed, data));
        }
    }
    assert_eq!(crc12(0, &[1]), 0xA54);
}

#[test]
fn crc12_stays_below_twelve_bits() {
    assert!(crc12(0xFFFF, &[0x5A; 100]) < 0x1000);
    assert_eq!(crc12(0xF123, b"x"), crc12(0x0123, b"x"));
}

#[test]
fn advertising_seed_is_the_low_part_of_the_sync_word() {
    assert_eq!(crc12_adv_seed(), (0x5A2B_DA62u32 % 0x1000) as u16);
}

#[test]
fn appended_checksum_verifies() {
    let mut buf = [0u8; 12];
    buf[..9].copy_from_slice(b"123456789");
    crc16_append(0, &mut buf, 9);
    assert_eq!(&buf[9..11], &[0x3D, 0xBB]);
    assert_eq!(buf[11], 0);
    assert!(crc16_verify(0, &buf[..11]));
    assert!(!crc16_verify(1, &buf[..11]));
}

#[test]
fn one_changed_byte_is_noticed() {
    let mut buf = [7u8; 22];
    crc16_append(CRC16_DEFAULT_SEED, &mut buf, 20);
    for i in 0..20 {
        let keep = buf[i];
        buf[i] ^= 0x40;
        assert!(!crc16_verify(CRC16_DEFAULT_SEED, &buf));
        buf[i] = keep;
    }
    assert!(crc16_verify(CRC16_DEFAULT_SEED, &buf));
}

#[test]
fn short_packet_does_not_verify() {
    assert!(!crc16_verify(0, &[]));
    assert!(!crc16_verify(0, &[1]));
}
