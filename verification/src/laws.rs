//! What holds of the machine whatever its state: how the flags follow a
//! result, how the stack and the program counter wrap, and which pairs of
//! instructions undo each other.

use crate::bits::{
    bit6, bit7, high_byte, lemma_bits, lemma_split_word, low_byte, signed, wrap16, wrap8,
};
use crate::cpu::AddressingMode;
use crate::flags::{
    has_flag, is_flag, lemma_flag_kept, lemma_flag_written, live_status, pulled_status,
    pushed_status, with_flag, with_zero_negative, BREAK, BREAK2, CARRY, NEGATIVE, OVERFLOW, ZERO,
};
use crate::model::{
    place, rotate_left, rotate_right, shift_left, shift_right, State, MEMORY_SIZE, PROGRAM_START,
    RESET_VECTOR,
};
use crate::opcodes::{descriptor, lemma_descriptor_shape, recognized};
use vstd::prelude::*;

verus! {

/// After the flags are taken from a result byte, ZERO is set exactly when
/// the byte is zero and NEGATIVE exactly when its bit 7 is set; the six
/// other flags are as they were.
pub proof fn lemma_zero_negative(p: u8, v: u8)
    ensures
        has_flag(with_zero_negative(p, v), ZERO) <==> v == 0,
        has_flag(with_zero_negative(p, v), NEGATIVE) <==> v & 0x80 != 0,
        forall|other: u8|
            is_flag(other) && other != ZERO && other != NEGATIVE ==> #[trigger] has_flag(
                with_zero_negative(p, v),
                other,
            ) == has_flag(p, other),
{
    let q = with_flag(p, ZERO, v == 0);
    lemma_flag_written(p, ZERO, v == 0);
    lemma_flag_kept(q, NEGATIVE, v & 0x80 != 0, ZERO);
    lemma_flag_written(q, NEGATIVE, v & 0x80 != 0);
    assert forall|other: u8| is_flag(other) && other != ZERO && other != NEGATIVE implies has_flag(
        with_zero_negative(p, v),
        other,
    ) == has_flag(p, other) by {
        lemma_flag_kept(p, ZERO, v == 0, other);
        lemma_flag_kept(q, NEGATIVE, v & 0x80 != 0, other);
    }
}

/// Addition with carry: A becomes the sum modulo 256, CARRY tells whether
/// the sum passed 255, OVERFLOW whether the operand and the old A both
/// differ in sign from the new A, and ZERO and NEGATIVE follow the new A.
pub proof fn lemma_add_with_carry(s: State, data: u8)
    ensures
        s.add_with_carry(data).a == (s.a + data + s.carry_in()) % 256,
        s.add_with_carry(data).flag(CARRY) <==> s.a + data + s.carry_in() > 255,
        s.add_with_carry(data).flag(OVERFLOW) <==> (data ^ s.add_with_carry(data).a) & (s.a
            ^ s.add_with_carry(data).a) & 0x80 != 0,
        s.add_with_carry(data).flag(ZERO) <==> s.add_with_carry(data).a == 0,
        s.add_with_carry(data).flag(NEGATIVE) <==> bit7(s.add_with_carry(data).a),
{
    let sum = s.a + data + s.carry_in();
    let result = wrap8(sum);
    let overflow = (data ^ result) & (result ^ s.a) & 0x80 != 0;
    let a = s.a;
    assert(result ^ a == a ^ result) by (bit_vector);
    let carried = with_flag(s.p, CARRY, sum > 0xff);
    let flagged = with_flag(carried, OVERFLOW, overflow);
    lemma_flag_written(s.p, CARRY, sum > 0xff);
    lemma_flag_kept(carried, OVERFLOW, overflow, CARRY);
    lemma_flag_written(carried, OVERFLOW, overflow);
    lemma_zero_negative(flagged, result);
}

/// OVERFLOW after an addition with carry is signed overflow: it is set
/// exactly when the sum of A and the operand, both read as two's-complement
/// numbers, and the carry lies outside -128 to 127.
pub proof fn lemma_overflow_is_signed(s: State, data: u8)
    ensures
        s.add_with_carry(data).flag(OVERFLOW) <==> !(-128 <= signed(s.a) + signed(data)
            + s.carry_in() <= 127),
{
    let a = s.a;
    let result = wrap8(a + data + s.carry_in());
    lemma_add_with_carry(s, data);
    assert(((data ^ result) & (a ^ result) & 0x80 != 0) <==> (data & 0x80 != result & 0x80 && a
        & 0x80 != result & 0x80)) by (bit_vector);
    assert((a & 0x80 == 0 || a & 0x80 == 0x80) && (a & 0x80 == 0 <==> a < 0x80)) by (bit_vector);
    assert((data & 0x80 == 0 || data & 0x80 == 0x80) && (data & 0x80 == 0 <==> data < 0x80))
        by (bit_vector);
    assert((result & 0x80 == 0 || result & 0x80 == 0x80) && (result & 0x80 == 0 <==> result
        < 0x80)) by (bit_vector);
}

/// A cell that was written holds what was written, and every other cell
/// holds what it held.
pub proof fn lemma_write_read(s: State, addr: u16, data: u8, other: u16)
    requires
        s.wf(),
    ensures
        s.write(addr, data).wf(),
        s.write(addr, data).read(addr) == data,
        other != addr ==> s.write(addr, data).read(other) == s.read(other),
{
}

/// A word that was written reads back, also across the end of memory.
pub proof fn lemma_write_read_word(s: State, pos: u16, data: u16)
    requires
        s.wf(),
    ensures
        s.write16(pos, data).read16(pos) == data,
{
    lemma_split_word(data);
}

/// After a load and a reset the program counter is at the program's start.
pub proof fn lemma_load_reset(s: State, program: Seq<u8>)
    requires
        s.wf(),
    ensures
        s.load(program).wf(),
        s.load(program).reset().wf(),
        s.load(program).reset().pc == PROGRAM_START,
        s.load(program).reset().mem == s.load(program).mem,
{
    lemma_write_read_word(
        State { mem: place(s.mem, PROGRAM_START as int, program), ..s },
        RESET_VECTOR,
        PROGRAM_START,
    );
}

/// After a load the program's bytes stand from the program's start on, but
/// where the reset vector replaced them; the reset vector holds the
/// program's start, and every other cell holds what it held.
pub proof fn lemma_loaded_memory(s: State, program: Seq<u8>, addr: u16)
    requires
        s.wf(),
        program.len() <= MEMORY_SIZE - PROGRAM_START,
    ensures
        s.load(program).read(RESET_VECTOR) == 0x00,
        s.load(program).read((RESET_VECTOR + 1) as u16) == 0x80,
        addr != RESET_VECTOR && addr != RESET_VECTOR + 1 ==> s.load(program).read(addr) == (if 0
            <= addr - PROGRAM_START < program.len() {
            program[addr - PROGRAM_START]
        } else {
            s.read(addr)
        }),
{
    lemma_split_word(PROGRAM_START);
    assert(0x8000u16 & 0xff == 0x00 && 0x8000u16 >> 8 == 0x80) by (bit_vector);
}

/// A push moves the stack pointer down by one modulo 256 and a pop moves it
/// up by one modulo 256.
pub proof fn lemma_stack_pointer_wraps(s: State, data: u8)
    ensures
        s.push(data).sp == (s.sp + 255) % 256,
        s.pop().sp == (s.sp + 1) % 256,
        s.sp == 0x00 ==> s.push(data).sp == 0xff,
        s.sp == 0xff ==> s.pop().sp == 0x00,
{
}

/// A pop after a push returns the byte that was pushed and brings the stack
/// pointer back to where it was.
pub proof fn lemma_push_pop(s: State, data: u8)
    requires
        s.wf(),
    ensures
        s.push(data).popped() == data,
        s.push(data).pop().sp == s.sp,
{
}

/// Popping a word after pushing one returns the word and brings the stack
/// pointer back to where it was.
pub proof fn lemma_push_pop_word(s: State, data: u16)
    requires
        s.wf(),
    ensures
        s.push16(data).popped16() == data,
        s.push16(data).pop16().sp == s.sp,
{
    let s1 = s.push(high_byte(data));
    let s2 = s1.push(low_byte(data));
    lemma_push_pop(s1, low_byte(data));
    assert(s2.pop().popped() == high_byte(data));
    lemma_split_word(data);
}

/// PLA after PHA leaves A as it was, with ZERO and NEGATIVE following A,
/// and the stack pointer where it was.
pub proof fn lemma_pha_pla(s: State)
    requires
        s.wf(),
    ensures
        s.pha().pla().a == s.a,
        s.pha().pla().sp == s.sp,
        s.pha().pla().flag(ZERO) <==> s.a == 0,
        s.pha().pla().flag(NEGATIVE) <==> bit7(s.a),
{
    lemma_push_pop(s, s.a);
    lemma_zero_negative(s.p, s.a);
}

/// PLP after PHP leaves the status as it was but for BREAK, which is
/// cleared, and BREAK2, which is set; a status that the live register can
/// hold is left as it was.
pub proof fn lemma_php_plp(s: State)
    requires
        s.wf(),
    ensures
        s.php().plp().p == pulled_status(s.p),
        s.php().plp().p & 0xcf == s.p & 0xcf,
        !s.php().plp().flag(BREAK),
        s.php().plp().flag(BREAK2),
        s.php().plp().sp == s.sp,
        live_status(s.p) ==> s.php().plp().p == s.p,
{
    let p = s.p;
    lemma_push_pop(s, pushed_status(p));
    assert(s.php().plp().p == pulled_status(pushed_status(p)));
    assert((((p | 0x10u8) | 0x20u8) & !0x10u8) | 0x20u8 == (p & !0x10u8) | 0x20u8) by (bit_vector);
    assert(((p & !0x10u8) | 0x20u8) & 0xcfu8 == p & 0xcfu8) by (bit_vector);
    assert(((p & !0x10u8) | 0x20u8) & 0x10u8 != 0x10u8) by (bit_vector);
    assert(((p & !0x10u8) | 0x20u8) & 0x20u8 == 0x20u8) by (bit_vector);
    assert(p & 0x10u8 != 0x10u8 && p & 0x20u8 == 0x20u8 ==> (p & !0x10u8) | 0x20u8 == p)
        by (bit_vector);
}

/// Shifts and rotations as arithmetic: a left shift doubles the byte
/// modulo 256 and a right shift halves it; a rotation also brings the old
/// carry in, as 1 on the left and as 128 on the right. The bit that leaves
/// is bit 7 on the left and bit 0 on the right.
pub proof fn lemma_shifts_are_arithmetic(v: u8, carry: bool)
    ensures
        shift_left(v) == ((2 * v % 256) as u8, v >= 0x80),
        shift_right(v) == ((v / 2) as u8, v % 2 == 1),
        rotate_left(v, carry) == ((2 * v % 256 + (if carry {
            1int
        } else {
            0int
        })) as u8, v >= 0x80),
        rotate_right(v, carry) == ((v / 2 + (if carry {
            0x80int
        } else {
            0int
        })) as u8, v % 2 == 1),
{
    lemma_bits(v);
    assert(v << 1 == (2 * v) % 256 && v >> 1 == v / 2 && (v << 1) | 0x01 == (2 * v) % 256 + 1 && (v
        >> 1) | 0x80 == v / 2 + 0x80) by (bit_vector);
}

/// A value and a carry after `n` left rotations through the carry.
pub open spec fn rotate_left_times(r: (u8, bool), n: nat) -> (u8, bool)
    decreases n,
{
    if n == 0 {
        r
    } else {
        rotate_left_times(rotate_left(r.0, r.1), (n - 1) as nat)
    }
}

/// A value and a carry after `n` right rotations through the carry.
pub open spec fn rotate_right_times(r: (u8, bool), n: nat) -> (u8, bool)
    decreases n,
{
    if n == 0 {
        r
    } else {
        rotate_right_times(rotate_right(r.0, r.1), (n - 1) as nat)
    }
}

/// The state after `n` ROLs of the accumulator.
pub open spec fn rol_a_times(s: State, n: nat) -> State
    decreases n,
{
    if n == 0 {
        s
    } else {
        rol_a_times(s.rol_a(), (n - 1) as nat)
    }
}

/// The state after `n` RORs of the accumulator.
pub open spec fn ror_a_times(s: State, n: nat) -> State
    decreases n,
{
    if n == 0 {
        s
    } else {
        ror_a_times(s.ror_a(), (n - 1) as nat)
    }
}

/// The state after `n` ROLs of the cell at `addr`.
pub open spec fn rol_at_times(s: State, addr: u16, n: nat) -> State
    decreases n,
{
    if n == 0 {
        s
    } else {
        rol_at_times(s.rol_at(addr), addr, (n - 1) as nat)
    }
}

/// The state after `n` RORs of the cell at `addr`.
pub open spec fn ror_at_times(s: State, addr: u16, n: nat) -> State
    decreases n,
{
    if n == 0 {
        s
    } else {
        ror_at_times(s.ror_at(addr), addr, (n - 1) as nat)
    }
}

/// A right rotation after a left rotation gives the value and the carry
/// back.
pub proof fn lemma_rotate_right_undoes_left(v: u8, carry: bool)
    ensures
        rotate_right(rotate_left(v, carry).0, rotate_left(v, carry).1) == (v, carry),
{
    assert(((v << 1) | 0x01) & 0x01 != 0 && (v << 1) & 0x01 == 0 && (v & 0x80 != 0 ==> (((v << 1)
        | 0x01) >> 1) | 0x80 == v && ((v << 1) >> 1) | 0x80 == v) && (v & 0x80 == 0 ==> ((v << 1)
        | 0x01) >> 1 == v && (v << 1) >> 1 == v)) by (bit_vector);
}

/// One more left rotation may be counted first or last.
proof fn lemma_rotate_left_once_more(r: (u8, bool), n: nat)
    ensures
        rotate_left_times(r, n + 1) == rotate_left(
            rotate_left_times(r, n).0,
            rotate_left_times(r, n).1,
        ),
    decreases n,
{
    let first = rotate_left(r.0, r.1);
    assert(rotate_left_times(r, n + 1) == rotate_left_times(first, n));
    if n == 0 {
        assert(rotate_left_times(first, 0) == first);
    } else {
        lemma_rotate_left_once_more(first, (n - 1) as nat);
        assert(rotate_left_times(r, n) == rotate_left_times(first, (n - 1) as nat));
    }
}

/// `n` right rotations after `n` left rotations give the value and the
/// carry back.
pub proof fn lemma_rotations_undo(r: (u8, bool), n: nat)
    ensures
        rotate_right_times(rotate_left_times(r, n), n) == r,
    decreases n,
{
    if n != 0 {
        let m = (n - 1) as nat;
        let inner = rotate_left_times(r, m);
        lemma_rotate_left_once_more(r, m);
        lemma_rotate_right_undoes_left(inner.0, inner.1);
        lemma_rotations_undo(r, m);
    }
}

/// A rotation of the accumulator rotates the pair of A and CARRY.
proof fn lemma_rotated_a(s: State)
    ensures
        (s.rol_a().a, s.rol_a().flag(CARRY)) == rotate_left(s.a, s.flag(CARRY)),
        (s.ror_a().a, s.ror_a().flag(CARRY)) == rotate_right(s.a, s.flag(CARRY)),
{
    let l = rotate_left(s.a, s.flag(CARRY));
    lemma_flag_written(s.p, CARRY, l.1);
    lemma_zero_negative(with_flag(s.p, CARRY, l.1), l.0);
    let r = rotate_right(s.a, s.flag(CARRY));
    lemma_flag_written(s.p, CARRY, r.1);
    lemma_zero_negative(with_flag(s.p, CARRY, r.1), r.0);
}

/// A rotation of a memory cell rotates the pair of the cell and CARRY.
proof fn lemma_rotated_cell(s: State, addr: u16)
    requires
        s.wf(),
    ensures
        s.rol_at(addr).wf(),
        s.ror_at(addr).wf(),
        (s.rol_at(addr).read(addr), s.rol_at(addr).flag(CARRY)) == rotate_left(
            s.read(addr),
            s.flag(CARRY),
        ),
        (s.ror_at(addr).read(addr), s.ror_at(addr).flag(CARRY)) == rotate_right(
            s.read(addr),
            s.flag(CARRY),
        ),
{
    let l = rotate_left(s.read(addr), s.flag(CARRY));
    lemma_flag_written(s.p, CARRY, l.1);
    lemma_zero_negative(with_flag(s.p, CARRY, l.1), l.0);
    let r = rotate_right(s.read(addr), s.flag(CARRY));
    lemma_flag_written(s.p, CARRY, r.1);
    lemma_zero_negative(with_flag(s.p, CARRY, r.1), r.0);
}

/// `n` rotations of the accumulator rotate the pair of A and CARRY `n`
/// times.
proof fn lemma_rotated_a_times(s: State, n: nat)
    ensures
        (rol_a_times(s, n).a, rol_a_times(s, n).flag(CARRY)) == rotate_left_times(
            (s.a, s.flag(CARRY)),
            n,
        ),
        (ror_a_times(s, n).a, ror_a_times(s, n).flag(CARRY)) == rotate_right_times(
            (s.a, s.flag(CARRY)),
            n,
        ),
    decreases n,
{
    if n != 0 {
        lemma_rotated_a(s);
        lemma_rotated_a_times(s.rol_a(), (n - 1) as nat);
        lemma_rotated_a_times(s.ror_a(), (n - 1) as nat);
    }
}

/// `n` rotations of a memory cell rotate the pair of the cell and CARRY `n`
/// times.
proof fn lemma_rotated_cell_times(s: State, addr: u16, n: nat)
    requires
        s.wf(),
    ensures
        rol_at_times(s, addr, n).wf(),
        ror_at_times(s, addr, n).wf(),
        (rol_at_times(s, addr, n).read(addr), rol_at_times(s, addr, n).flag(CARRY))
            == rotate_left_times((s.read(addr), s.flag(CARRY)), n),
        (ror_at_times(s, addr, n).read(addr), ror_at_times(s, addr, n).flag(CARRY))
            == rotate_right_times((s.read(addr), s.flag(CARRY)), n),
    decreases n,
{
    if n != 0 {
        lemma_rotated_cell(s, addr);
        lemma_rotated_cell_times(s.rol_at(addr), addr, (n - 1) as nat);
        lemma_rotated_cell_times(s.ror_at(addr), addr, (n - 1) as nat);
    }
}

/// `n` RORs of the accumulator after `n` ROLs of it leave A and CARRY as
/// they were.
pub proof fn lemma_rol_ror_accumulator(s: State, n: nat)
    ensures
        ror_a_times(rol_a_times(s, n), n).a == s.a,
        ror_a_times(rol_a_times(s, n), n).flag(CARRY) == s.flag(CARRY),
{
    let t = rol_a_times(s, n);
    lemma_rotated_a_times(s, n);
    lemma_rotated_a_times(t, n);
    lemma_rotations_undo((s.a, s.flag(CARRY)), n);
}

/// `n` RORs of a memory cell after `n` ROLs of it leave the cell and CARRY
/// as they were.
pub proof fn lemma_rol_ror_memory(s: State, addr: u16, n: nat)
    requires
        s.wf(),
    ensures
        ror_at_times(rol_at_times(s, addr, n), addr, n).read(addr) == s.read(addr),
        ror_at_times(rol_at_times(s, addr, n), addr, n).flag(CARRY) == s.flag(CARRY),
{
    let t = rol_at_times(s, addr, n);
    lemma_rotated_cell_times(s, addr, n);
    lemma_rotated_cell_times(t, addr, n);
    lemma_rotations_undo((s.read(addr), s.flag(CARRY)), n);
}

/// Whether ZERO and NEGATIVE in the status `p` are those of the byte `v`.
pub open spec fn follows(p: u8, v: u8) -> bool {
    (has_flag(p, ZERO) <==> v == 0) && (has_flag(p, NEGATIVE) <==> v & 0x80 != 0)
}

/// The instructions whose result goes to A: LDA, TXA, TYA, PLA, ADC, SBC,
/// AND, ORA, EOR and the accumulator forms of ASL, LSR, ROL and ROR.
pub open spec fn result_in_a(code: u8) -> bool {
    match code {
        0xa9 | 0xa5 | 0xb5 | 0xad | 0xbd | 0xb9 | 0xa1 | 0xb1 => true,
        0x8a | 0x98 | 0x68 => true,
        0x69 | 0x65 | 0x75 | 0x6d | 0x7d | 0x79 | 0x61 | 0x71 => true,
        0xe9 | 0xe5 | 0xf5 | 0xed | 0xfd | 0xf9 | 0xe1 | 0xf1 => true,
        0x29 | 0x25 | 0x35 | 0x2d | 0x3d | 0x39 | 0x21 | 0x31 => true,
        0x09 | 0x05 | 0x15 | 0x0d | 0x1d | 0x19 | 0x01 | 0x11 => true,
        0x49 | 0x45 | 0x55 | 0x4d | 0x5d | 0x59 | 0x41 | 0x51 => true,
        0x0a | 0x4a | 0x2a | 0x6a => true,
        _ => false,
    }
}

/// The instructions whose result goes to X: LDX, TAX, TSX, INX and DEX.
pub open spec fn result_in_x(code: u8) -> bool {
    match code {
        0xa2 | 0xa6 | 0xb6 | 0xae | 0xbe => true,
        0xaa | 0xba | 0xe8 | 0xca => true,
        _ => false,
    }
}

/// The instructions whose result goes to Y: LDY, TAY, INY and DEY.
pub open spec fn result_in_y(code: u8) -> bool {
    match code {
        0xa0 | 0xa4 | 0xb4 | 0xac | 0xbc => true,
        0xa8 | 0xc8 | 0x88 => true,
        _ => false,
    }
}

/// The instructions whose result goes to the operand's cell: INC, DEC and
/// the memory forms of ASL, LSR, ROL and ROR.
pub open spec fn result_in_memory(code: u8) -> bool {
    match code {
        0xe6 | 0xf6 | 0xee | 0xfe => true,
        0xc6 | 0xd6 | 0xce | 0xde => true,
        0x06 | 0x16 | 0x0e | 0x1e => true,
        0x46 | 0x56 | 0x4e | 0x5e => true,
        0x26 | 0x36 | 0x2e | 0x3e => true,
        0x66 | 0x76 | 0x6e | 0x7e => true,
        _ => false,
    }
}

/// The instructions that may set the program counter themselves: the
/// branches, JMP, JSR, RTS and RTI.
pub open spec fn transfers_control(code: u8) -> bool {
    match code {
        0x90 | 0xb0 | 0xf0 | 0xd0 | 0x30 | 0x10 | 0x50 | 0x70 => true,
        0x4c | 0x6c | 0x20 | 0x60 | 0x40 => true,
        _ => false,
    }
}

/// The condition on which the branch `code` is taken.
pub open spec fn branch_condition(s: State, code: u8) -> bool {
    match code {
        0x90 => !s.flag(CARRY),
        0xb0 => s.flag(CARRY),
        0xf0 => s.flag(ZERO),
        0xd0 => !s.flag(ZERO),
        0x30 => s.flag(NEGATIVE),
        0x10 => !s.flag(NEGATIVE),
        0x50 => !s.flag(OVERFLOW),
        _ => s.flag(OVERFLOW),
    }
}

/// The flags taken from any result byte follow that byte.
proof fn lemma_zero_negative_always()
    ensures
        forall|p: u8, v: u8| follows(#[trigger] with_zero_negative(p, v), v),
{
    assert forall|p: u8, v: u8| follows(#[trigger] with_zero_negative(p, v), v) by {
        lemma_zero_negative(p, v);
    }
}

/// After an instruction whose result goes to a register or to a memory
/// cell, ZERO is set exactly when that byte is zero and NEGATIVE exactly
/// when its bit 7 is set.
pub proof fn lemma_flags_follow_result(s: State, code: u8, mode: AddressingMode)
    requires
        s.wf(),
    ensures
        result_in_a(code) ==> follows(s.execute(code, mode).p, s.execute(code, mode).a),
        result_in_x(code) ==> follows(s.execute(code, mode).p, s.execute(code, mode).x),
        result_in_y(code) ==> follows(s.execute(code, mode).p, s.execute(code, mode).y),
        result_in_memory(code) ==> follows(
            s.execute(code, mode).p,
            s.execute(code, mode).read(s.operand_address(mode)),
        ),
{
    reveal(State::execute);
    lemma_zero_negative_always();
}

/// A comparison sets CARRY exactly when the register is not below the
/// operand and ZERO exactly when the two are equal; NEGATIVE is bit 7 of
/// the difference modulo 256. It changes no register and no memory.
pub proof fn lemma_compare(s: State, register: u8, data: u8)
    ensures
        s.compare(register, data).flag(CARRY) <==> register >= data,
        s.compare(register, data).flag(ZERO) <==> register == data,
        s.compare(register, data).flag(NEGATIVE) <==> bit7(wrap8(register - data)),
        s.compare(register, data) == (State { p: s.compare(register, data).p, ..s }),
{
    lemma_flag_written(s.p, CARRY, register >= data);
    lemma_zero_negative(with_flag(s.p, CARRY, register >= data), wrap8(register - data));
}

/// BIT sets ZERO exactly when A and the operand share no bit, and copies
/// bits 7 and 6 of the operand to NEGATIVE and OVERFLOW. It changes no
/// register and no memory.
pub proof fn lemma_bit(s: State, mode: AddressingMode)
    ensures
        s.bit(mode).flag(ZERO) <==> s.a & s.operand(mode) == 0,
        s.bit(mode).flag(NEGATIVE) <==> bit7(s.operand(mode)),
        s.bit(mode).flag(OVERFLOW) <==> bit6(s.operand(mode)),
        s.bit(mode) == (State { p: s.bit(mode).p, ..s }),
{
    let data = s.operand(mode);
    let zeroed = with_flag(s.p, ZERO, s.a & data == 0);
    let signed_too = with_flag(zeroed, NEGATIVE, bit7(data));
    lemma_flag_written(s.p, ZERO, s.a & data == 0);
    lemma_flag_kept(zeroed, NEGATIVE, bit7(data), ZERO);
    lemma_flag_kept(signed_too, OVERFLOW, bit6(data), ZERO);
    lemma_flag_written(zeroed, NEGATIVE, bit7(data));
    lemma_flag_kept(signed_too, OVERFLOW, bit6(data), NEGATIVE);
    lemma_flag_written(signed_too, OVERFLOW, bit6(data));
}

/// Subtraction with borrow: SBC adds the complement of its operand, so A
/// becomes A - M - (1 - C) modulo 256, and CARRY is set exactly when no
/// borrow was needed.
pub proof fn lemma_subtract_with_borrow(s: State, data: u8)
    ensures
        s.add_with_carry(!data).a == (s.a - data - (1 - s.carry_in())) % 256,
        s.add_with_carry(!data).flag(CARRY) <==> s.a - data - (1 - s.carry_in()) >= 0,
{
    assert(!data == 255 - data) by (bit_vector);
    lemma_add_with_carry(s, !data);
}

/// The status after a reset is one that the live register can hold.
pub proof fn lemma_reset_status(s: State)
    ensures
        live_status(s.reset().p),
{
    assert(0x24u8 & 0x10u8 != 0x10u8 && 0x24u8 & 0x20u8 == 0x20u8) by (bit_vector);
}

/// Writing a flag other than BREAK and BREAK2, taking ZERO and NEGATIVE
/// from a result, and taking the status from the stack all give a status
/// that the live register can hold, if it held one before.
proof fn lemma_live_status_kept()
    ensures
        forall|p: u8, mask: u8, on: bool|
            is_flag(mask) && mask != BREAK && mask != BREAK2 ==> live_status(
                #[trigger] with_flag(p, mask, on),
            ) == live_status(p),
        forall|p: u8, v: u8| live_status(#[trigger] with_zero_negative(p, v)) == live_status(p),
        forall|b: u8| live_status(#[trigger] pulled_status(b)),
{
    assert forall|p: u8, mask: u8, on: bool|
        is_flag(mask) && mask != BREAK && mask != BREAK2 implies live_status(
        #[trigger] with_flag(p, mask, on),
    ) == live_status(p) by {
        lemma_flag_kept(p, mask, on, BREAK);
        lemma_flag_kept(p, mask, on, BREAK2);
    }
    assert forall|p: u8, v: u8| live_status(#[trigger] with_zero_negative(p, v)) == live_status(
        p,
    ) by {
        lemma_zero_negative(p, v);
    }
    assert forall|b: u8| live_status(#[trigger] pulled_status(b)) by {
        let q = with_flag(b, BREAK, false);
        lemma_flag_written(b, BREAK, false);
        lemma_flag_kept(q, BREAK2, true, BREAK);
        lemma_flag_written(q, BREAK2, true);
    }
}

/// No instruction sets BREAK or clears BREAK2 in the live status, and PLP
/// and RTI clear BREAK and set BREAK2 whatever the status was.
pub proof fn lemma_execute_keeps_live_status(s: State, code: u8, mode: AddressingMode)
    ensures
        live_status(s.p) ==> live_status(s.execute(code, mode).p),
        code == 0x28 || code == 0x40 ==> live_status(s.execute(code, mode).p),
{
    reveal(State::execute);
    lemma_live_status_kept();
}

/// After a step the live status has BREAK clear and BREAK2 set, if it had
/// before the step.
pub proof fn lemma_step_keeps_live_status(s: State)
    ensures
        live_status(s.p) ==> live_status(s.step().p),
        recognized(s.opcode()) && (s.opcode() == 0x28 || s.opcode() == 0x40) ==> live_status(
            s.step().p,
        ),
{
    let code = s.opcode();
    if descriptor(code) is Some {
        let fetched = State { pc: wrap16(s.pc + 1), ..s };
        lemma_execute_keeps_live_status(fetched, code, descriptor(code)->0.mode);
    }
}

/// After any number of steps the live status has BREAK clear and BREAK2
/// set, if it had at the start.
pub proof fn lemma_steps_keep_live_status(s: State, n: nat)
    requires
        live_status(s.p),
    ensures
        live_status(s.steps(n).p),
    decreases n,
{
    if n != 0 {
        lemma_step_keeps_live_status(s);
        lemma_steps_keep_live_status(s.step(), (n - 1) as nat);
    }
}

/// A step over an instruction that does not set the program counter itself
/// moves the program counter by the instruction's length, modulo 65536.
pub proof fn lemma_step_advances(s: State)
    requires
        recognized(s.opcode()),
        !transfers_control(s.opcode()),
    ensures
        s.step().pc == (s.pc + descriptor(s.opcode())->0.len) % 0x1_0000,
{
    reveal(State::execute);
    lemma_descriptor_shape(s.opcode());
}

/// A step over a branch goes to the address after the branch plus the
/// signed offset, modulo 65536, if the branch is taken, and to the address
/// after the branch if not. A taken branch with the offset -1, whose target
/// is its own offset byte, goes to the address after the branch too.
pub proof fn lemma_branch_step(s: State)
    requires
        s.wf(),
        s.opcode() == 0x90 || s.opcode() == 0xb0 || s.opcode() == 0xf0 || s.opcode() == 0xd0
            || s.opcode() == 0x30 || s.opcode() == 0x10 || s.opcode() == 0x50 || s.opcode()
            == 0x70,
    ensures
        s.step() == (State {
            pc: if branch_condition(s, s.opcode()) && signed(s.read(wrap16(s.pc + 1))) != -1 {
                wrap16(s.pc + 2 + signed(s.read(wrap16(s.pc + 1))))
            } else {
                wrap16(s.pc + 2)
            },
            ..s
        }),
{
    reveal(State::execute);
    reveal(descriptor);
}

/// A run that starts with BREAK clear and BREAK2 set in the live status
/// ends with them so.
pub proof fn lemma_run_keeps_live_status(s: State)
    requires
        live_status(s.p),
    ensures
        live_status(s.run().p),
{
    lemma_steps_keep_live_status(s, s.run_length() + 1);
}

/// PHA and then PLA, as two steps of the machine, leave A and the stack
/// pointer as they were, with ZERO and NEGATIVE following A, and the
/// program counter two bytes further.
pub proof fn lemma_pha_pla_steps(s: State)
    requires
        s.wf(),
        s.opcode() == 0x48,
        s.step().opcode() == 0x68,
    ensures
        s.steps(2).a == s.a,
        s.steps(2).sp == s.sp,
        follows(s.steps(2).p, s.a),
        s.steps(2).pc == wrap16(s.pc + 2),
{
    reveal(State::execute);
    reveal(descriptor);
    let fetched = State { pc: wrap16(s.pc + 1), ..s };
    let s1 = s.step();
    assert(s1 == (State { pc: fetched.pc, ..fetched.pha() }));
    let fetched1 = State { pc: wrap16(s1.pc + 1), ..s1 };
    assert(s1.step() == (State { pc: fetched1.pc, ..fetched1.pla() }));
    lemma_pha_pla(fetched);
    lemma_zero_negative(s.p, s.a);
    assert(s.steps(2) == s1.steps(1));
    assert(s1.steps(1) == s1.step().steps(0));
}

/// PHP and then PLP, as two steps of the machine, leave the status as it
/// was but for BREAK, which is cleared, and BREAK2, which is set.
pub proof fn lemma_php_plp_steps(s: State)
    requires
        s.wf(),
        s.opcode() == 0x08,
        s.step().opcode() == 0x28,
    ensures
        s.steps(2).p == pulled_status(s.p),
        s.steps(2).sp == s.sp,
        live_status(s.p) ==> s.steps(2).p == s.p,
{
    reveal(State::execute);
    reveal(descriptor);
    let fetched = State { pc: wrap16(s.pc + 1), ..s };
    let s1 = s.step();
    assert(s1 == (State { pc: fetched.pc, ..fetched.php() }));
    let fetched1 = State { pc: wrap16(s1.pc + 1), ..s1 };
    assert(s1.step() == (State { pc: fetched1.pc, ..fetched1.plp() }));
    lemma_php_plp(fetched);
    assert(s.steps(2) == s1.steps(1));
    assert(s1.steps(1) == s1.step().steps(0));
}

/// RTS after JSR continues at the instruction after the JSR, which is two
/// bytes after the JSR's first operand byte, and brings the stack pointer
/// back to where it was.
pub proof fn lemma_jsr_rts(s: State)
    requires
        s.wf(),
    ensures
        s.jsr().rts().pc == wrap16(s.pc + 2),
        s.jsr().rts().sp == s.sp,
{
    lemma_push_pop_word(s, wrap16(s.pc + 1));
}

/// Taking `n` steps and then `m` steps is taking `n + m` steps.
pub proof fn lemma_steps_add(s: State, n: nat, m: nat)
    ensures
        s.steps(n).steps(m) == s.steps(n + m),
    decreases n,
{
    if n != 0 {
        lemma_steps_add(s.step(), (n - 1) as nat, m);
        assert(s.steps(n + m) == s.step().steps((n + m - 1) as nat));
    }
}

} // verus!
