use mos6502::cpu::CPU;
use mos6502::flags::{CpuFlags, BREAK, BREAK2, CARRY, NEGATIVE, ZERO};
use mos6502::model::Step;
use mos6502::opcodes::lookup;

#[test]
fn zero_and_negative_follow_every_result_byte() {
    let mut cpu = CPU::new();
    for p in 0..=255u8 {
        for b in 0..=255u8 {
            cpu.status = CpuFlags::from_bits_truncate(p);
            cpu.update_zero_and_negative_flags(b);
            assert_eq!(cpu.status.contains(ZERO), b == 0);
            assert_eq!(cpu.status.contains(NEGATIVE), b & 0x80 != 0);
            assert_eq!(cpu.status.bits() & 0x7d, p & 0x7d);
        }
    }
}

#[test]
fn zero_and_negative_follow_loads_of_every_byte() {
    let mut cpu = CPU::new();
    // LDA #b; LDX #b; LDY #b
    cpu.mem_write(0x0200, 0xa9);
    cpu.mem_write(0x0202, 0xa2);
    cpu.mem_write(0x0204, 0xa0);
    for b in 0..=255u8 {
        cpu.mem_write(0x0201, b);
        cpu.mem_write(0x0203, b.wrapping_add(0x7f));
        cpu.mem_write(0x0205, b.wrapping_add(0x80));
        cpu.program_counter = 0x0200;
        for v in [b, b.wrapping_add(0x7f), b.wrapping_add(0x80)] {
            assert_eq!(cpu.step(), Step::Continue);
            assert_eq!(cpu.status.contains(ZERO), v == 0);
            assert_eq!(cpu.status.contains(NEGATIVE), v & 0x80 != 0);
        }
        assert_eq!(cpu.register_a, b);
        assert_eq!(cpu.register_x, b.wrapping_add(0x7f));
        assert_eq!(cpu.register_y, b.wrapping_add(0x80));
    }
}

#[test]
fn zero_and_negative_follow_the_byte_written_to_memory() {
    let mut cpu = CPU::new();
    // INC $10; DEC $11; ASL $12; LSR $13; ROL $14; ROR $15
    let program = [0xe6u8, 0x10, 0xc6, 0x11, 0x06, 0x12, 0x46, 0x13, 0x26, 0x14, 0x66, 0x15];
    for (i, b) in program.iter().enumerate() {
        cpu.mem_write(0x0200 + i as u16, *b);
    }
    for v in 0..=255u8 {
        for addr in 0x10..=0x15u16 {
            cpu.mem_write(addr, v);
        }
        cpu.program_counter = 0x0200;
        for addr in 0x10..=0x15u16 {
            assert_eq!(cpu.step(), Step::Continue);
            let r = cpu.mem_read(addr);
            assert_eq!(cpu.status.contains(ZERO), r == 0);
            assert_eq!(cpu.status.contains(NEGATIVE), r & 0x80 != 0);
        }
    }
}

#[test]
fn pop_after_push_returns_the_byte_from_every_stack_pointer() {
    let mut cpu = CPU::new();
    for sp in 0..=255u8 {
        for v in [0x00u8, 0x01, 0x7f, 0x80, 0xff, sp] {
            cpu.stack_pointer = sp;
            cpu.stack_push(v);
            assert_eq!(cpu.stack_pointer, sp.wrapping_sub(1));
            assert_eq!(cpu.mem_read(0x0100 + sp as u16), v);
            assert_eq!(cpu.stack_pop(), v);
            assert_eq!(cpu.stack_pointer, sp);
        }
    }
}

#[test]
fn pop_after_push_returns_the_word_from_every_stack_pointer() {
    let mut cpu = CPU::new();
    for sp in 0..=255u8 {
        for v in [0x0000u16, 0x00ff, 0xff00, 0x1234, 0x8001, 0xffff] {
            cpu.stack_pointer = sp;
            cpu.stack_push_u16(v);
            assert_eq!(cpu.stack_pointer, sp.wrapping_sub(2));
            assert_eq!(cpu.stack_pop_u16(), v);
            assert_eq!(cpu.stack_pointer, sp);
        }
    }
}

#[test]
fn pla_after_pha_restores_every_a() {
    let mut cpu = CPU::new();
    // PHA; LDA #$55; PLA
    for (i, b) in [0x48u8, 0xa9, 0x55, 0x68].iter().enumerate() {
        cpu.mem_write(0x0200 + i as u16, *b);
    }
    for a in 0..=255u8 {
        cpu.register_a = a;
        cpu.stack_pointer = a.wrapping_mul(3);
        cpu.program_counter = 0x0200;
        assert_eq!(cpu.step(), Step::Continue);
        assert_eq!(cpu.step(), Step::Continue);
        assert_eq!(cpu.register_a, 0x55);
        assert_eq!(cpu.step(), Step::Continue);
        assert_eq!(cpu.register_a, a);
        assert_eq!(cpu.stack_pointer, a.wrapping_mul(3));
        assert_eq!(cpu.status.contains(ZERO), a == 0);
        assert_eq!(cpu.status.contains(NEGATIVE), a & 0x80 != 0);
    }
}

#[test]
fn plp_after_php_restores_every_status_but_the_break_bits() {
    let mut cpu = CPU::new();
    // PHP; PLP
    cpu.mem_write(0x0200, 0x08);
    cpu.mem_write(0x0201, 0x28);
    for p in 0..=255u8 {
        cpu.status = CpuFlags::from_bits_truncate(p);
        cpu.program_counter = 0x0200;
        assert_eq!(cpu.step(), Step::Continue);
        assert_eq!(cpu.status.bits(), p);
        assert_eq!(cpu.mem_read(0x01fd), p | 0x30);
        assert_eq!(cpu.step(), Step::Continue);
        assert_eq!(cpu.status.bits(), (p & 0xcf) | 0x20);
        assert!(!cpu.status.contains(BREAK));
        assert!(cpu.status.contains(BREAK2));
        assert_eq!(cpu.stack_pointer, 0xfd);
    }
}

#[test]
fn rors_after_rols_restore_the_accumulator_and_the_carry() {
    let mut cpu = CPU::new();
    for i in 0..9u16 {
        cpu.mem_write(0x0200 + i, 0x2a);
        cpu.mem_write(0x0209 + i, 0x6a);
    }
    for n in 0..=9u16 {
        for a in 0..=255u8 {
            for c in [false, true] {
                cpu.register_a = a;
                cpu.status = CpuFlags::from_bits_truncate(0x24);
                cpu.status.set(CARRY, c);
                cpu.program_counter = 0x0209 - n;
                for _ in 0..2 * n {
                    assert_eq!(cpu.step(), Step::Continue);
                }
                assert_eq!(cpu.program_counter, 0x0209 + n);
                assert_eq!(cpu.register_a, a);
                assert_eq!(cpu.status.contains(CARRY), c);
            }
        }
    }
}

#[test]
fn rors_after_rols_restore_a_memory_cell_and_the_carry() {
    let mut cpu = CPU::new();
    // three ROL $10, then three ROR $10
    for i in 0..3u16 {
        cpu.mem_write(0x0200 + 2 * i, 0x26);
        cpu.mem_write(0x0201 + 2 * i, 0x10);
        cpu.mem_write(0x0206 + 2 * i, 0x66);
        cpu.mem_write(0x0207 + 2 * i, 0x10);
    }
    for v in 0..=255u8 {
        for c in [false, true] {
            cpu.mem_write(0x10, v);
            cpu.status = CpuFlags::from_bits_truncate(0x24);
            cpu.status.set(CARRY, c);
            cpu.program_counter = 0x0200;
            for _ in 0..6 {
                assert_eq!(cpu.step(), Step::Continue);
            }
            assert_eq!(cpu.mem_read(0x10), v);
            assert_eq!(cpu.status.contains(CARRY), c);
        }
    }
}

#[test]
fn rol_three_times_moves_the_bits_through_the_carry() {
    let mut cpu = CPU::new();
    // SEC; LDA #$a5; ROL A; ROL A; ROL A
    cpu.load_and_run(vec![0x38, 0xa9, 0xa5, 0x2a, 0x2a, 0x2a, 0x00]);
    // a5 = 1010_0101, carry 1 -> 0100_1011 c1 -> 1001_0111 c0 -> 0010_1110 c1
    assert_eq!(cpu.register_a, 0x2e);
    assert!(cpu.status.contains(CARRY));
}

#[test]
fn no_instruction_sets_break_or_clears_break2_in_the_live_status() {
    let mut cpu = CPU::new();
    for code in 0..=255u8 {
        if lookup(code).is_none() {
            continue;
        }
        for p in [0x20u8, 0x21, 0x22, 0x24, 0x28, 0x60, 0xa0, 0xef] {
            for operand in [0x00u8, 0x10, 0x80, 0xff] {
                cpu.register_a = operand ^ 0x5a;
                cpu.register_x = 0x03;
                cpu.register_y = 0x04;
                cpu.stack_pointer = 0x80;
                // what PLP and RTI would pop has every bit set
                cpu.mem_write(0x0181, 0xff);
                cpu.mem_write(0x0182, 0xff);
                cpu.mem_write(0x0183, 0xff);
                cpu.mem_write(0x0400, code);
                cpu.mem_write(0x0401, operand);
                cpu.mem_write(0x0402, 0x02);
                cpu.program_counter = 0x0400;
                cpu.status = CpuFlags::from_bits_truncate(p);
                cpu.step();
                assert!(!cpu.status.contains(BREAK), "opcode {:#04x}", code);
                assert!(cpu.status.contains(BREAK2), "opcode {:#04x}", code);
            }
        }
    }
}

#[test]
fn break_is_clear_after_every_run() {
    let programs: Vec<Vec<u8>> = vec![
        vec![0x00],
        vec![0x08, 0x28, 0x00],
        vec![0xa9, 0xff, 0x48, 0x28, 0x00],
        vec![0xa9, 0xff, 0x48, 0x28, 0x08, 0x68, 0x48, 0x28, 0x00],
        vec![0xa9, 0x10, 0x48, 0x28, 0x38, 0xf8, 0x00],
        vec![0xa9, 0x80, 0x48, 0xa9, 0x0b, 0x48, 0xa9, 0xff, 0x48, 0x40, 0x00, 0xa2, 0x01, 0x00],
    ];
    for program in programs {
        let mut cpu = CPU::new();
        cpu.load_and_run(program);
        assert!(!cpu.status.contains(BREAK));
        assert!(cpu.status.contains(BREAK2));
    }
}

#[test]
fn reset_leaves_a_live_status() {
    let mut cpu = CPU::new();
    cpu.status = CpuFlags::from_bits_truncate(0xff);
    cpu.reset();
    assert!(!cpu.status.contains(BREAK));
    assert!(cpu.status.contains(BREAK2));
}
