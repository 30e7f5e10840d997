use mos6502::bits::{high, join, low, sign_extend};

#[test]
fn join_is_little_endian() {
    assert_eq!(join(0x34, 0x12), 0x1234);
    assert_eq!(join(0x00, 0x80), 0x8000);
    assert_eq!(join(0xff, 0x00), 0x00ff);
    assert_eq!(join(0xff, 0xff), 0xffff);
    assert_eq!(join(0x00, 0x00), 0x0000);
}

#[test]
fn low_and_high_split_a_word() {
    assert_eq!(low(0x1234), 0x34);
    assert_eq!(high(0x1234), 0x12);
    assert_eq!(low(0x8000), 0x00);
    assert_eq!(high(0x8000), 0x80);
    assert_eq!(low(0x00ff), 0xff);
    assert_eq!(high(0x00ff), 0x00);
}

#[test]
fn split_and_join_round_trip_for_every_word() {
    for v in 0..=0xffffu16 {
        assert_eq!(join(low(v), high(v)), v);
        assert_eq!(low(v) as u16, v % 256);
        assert_eq!(high(v) as u16, v / 256);
    }
}

#[test]
fn sign_extend_is_twos_complement() {
    assert_eq!(sign_extend(0x00), 0x0000);
    assert_eq!(sign_extend(0x01), 0x0001);
    assert_eq!(sign_extend(0x7f), 0x007f);
    assert_eq!(sign_extend(0x80), 0xff80);
    assert_eq!(sign_extend(0xfd), 0xfffd);
    assert_eq!(sign_extend(0xff), 0xffff);
    for b in 0..=255u8 {
        assert_eq!(sign_extend(b), (b as i8) as i16 as u16);
    }
}
