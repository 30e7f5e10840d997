use mos6502::flags::{
    CpuFlags, BREAK, BREAK2, CARRY, DECIMAL_MODE, INTERRUPT_DISABLE, NEGATIVE, OVERFLOW, ZERO,
};

#[test]
fn flag_masks_are_the_eight_bits() {
    assert_eq!(CARRY, 0b0000_0001);
    assert_eq!(ZERO, 0b0000_0010);
    assert_eq!(INTERRUPT_DISABLE, 0b0000_0100);
    assert_eq!(DECIMAL_MODE, 0b0000_1000);
    assert_eq!(BREAK, 0b0001_0000);
    assert_eq!(BREAK2, 0b0010_0000);
    assert_eq!(OVERFLOW, 0b0100_0000);
    assert_eq!(NEGATIVE, 0b1000_0000);
}

#[test]
fn from_bits_truncate_keeps_every_bit() {
    for b in 0..=255u8 {
        assert_eq!(CpuFlags::from_bits_truncate(b).bits(), b);
    }
}

#[test]
fn contains_tests_the_mask() {
    let f = CpuFlags::from_bits_truncate(0b1010_0101);
    assert!(f.contains(CARRY));
    assert!(!f.contains(ZERO));
    assert!(f.contains(INTERRUPT_DISABLE));
    assert!(!f.contains(DECIMAL_MODE));
    assert!(!f.contains(BREAK));
    assert!(f.contains(BREAK2));
    assert!(!f.contains(OVERFLOW));
    assert!(f.contains(NEGATIVE));
    assert!(f.contains(CARRY | NEGATIVE));
    assert!(!f.contains(CARRY | ZERO));
}

#[test]
fn insert_sets_only_the_mask() {
    let mut f = CpuFlags::from_bits_truncate(0b0010_0100);
    f.insert(CARRY);
    assert_eq!(f.bits(), 0b0010_0101);
    f.insert(CARRY);
    assert_eq!(f.bits(), 0b0010_0101);
    f.insert(NEGATIVE);
    assert_eq!(f.bits(), 0b1010_0101);
}

#[test]
fn remove_clears_only_the_mask() {
    let mut f = CpuFlags::from_bits_truncate(0b1111_1111);
    f.remove(BREAK);
    assert_eq!(f.bits(), 0b1110_1111);
    f.remove(BREAK);
    assert_eq!(f.bits(), 0b1110_1111);
    f.remove(ZERO);
    assert_eq!(f.bits(), 0b1110_1101);
}

#[test]
fn set_follows_the_value() {
    let mut f = CpuFlags::from_bits_truncate(0);
    f.set(OVERFLOW, true);
    assert_eq!(f.bits(), 0b0100_0000);
    f.set(DECIMAL_MODE, true);
    assert_eq!(f.bits(), 0b0100_1000);
    f.set(OVERFLOW, false);
    assert_eq!(f.bits(), 0b0000_1000);
    f.set(CARRY, false);
    assert_eq!(f.bits(), 0b0000_1000);
}

#[test]
fn a_written_flag_reads_back_and_the_others_stay() {
    let masks = [CARRY, ZERO, INTERRUPT_DISABLE, DECIMAL_MODE, BREAK, BREAK2, OVERFLOW, NEGATIVE];
    for p in 0..=255u8 {
        for m in masks {
            for on in [false, true] {
                let mut f = CpuFlags::from_bits_truncate(p);
                f.set(m, on);
                assert_eq!(f.contains(m), on);
                for other in masks {
                    if other != m {
                        assert_eq!(
                            f.contains(other),
                            CpuFlags::from_bits_truncate(p).contains(other)
                        );
                    }
                }
            }
        }
    }
}

#[test]
fn flags_are_copied_by_value() {
    let f = CpuFlags::from_bits_truncate(0x24);
    let mut g = f;
    g.insert(CARRY);
    assert_eq!(f.bits(), 0x24);
    assert_eq!(g.bits(), 0x25);
    assert_eq!(f, CpuFlags::from_bits_truncate(0x24));
    assert_ne!(f, g);
}
