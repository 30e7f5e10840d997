//! The mathematical model of the machine: its state as plain values, what
//! each instruction does to it, and what it means to run a program.

use crate::bits::{bit0, bit6, bit7, high_byte, low_byte, signed, word, wrap16, wrap8};
use crate::cpu::AddressingMode;
use crate::flags::{
    has_flag, pulled_status, pushed_status, with_flag, with_zero_negative, CARRY,
    DECIMAL_MODE, INTERRUPT_DISABLE, NEGATIVE, OVERFLOW, ZERO,
};
use crate::opcodes::descriptor;
use vstd::prelude::*;

verus! {

/// The number of memory cells: one for each 16-bit address.
pub const MEMORY_SIZE: usize = 0x1_0000;

/// The address at which a program image is placed.
pub const PROGRAM_START: u16 = 0x8000;

/// The address of the reset vector, which holds the initial program counter.
pub const RESET_VECTOR: u16 = 0xfffc;

/// The first address of the stack page.
pub const STACK: u16 = 0x0100;

/// The stack pointer after a reset.
pub const STACK_RESET: u8 = 0xfd;

/// The status byte after a reset: INTERRUPT_DISABLE and BREAK2.
pub const STATUS_RESET: u8 = 0b0010_0100;

/// The architectural state: the registers and the whole memory.
pub struct State {
    /// The accumulator.
    pub a: u8,
    /// The index register X.
    pub x: u8,
    /// The index register Y.
    pub y: u8,
    /// The status byte.
    pub p: u8,
    /// The stack pointer; the stack's top is at `0x0100 + sp`.
    pub sp: u8,
    /// The program counter.
    pub pc: u16,
    /// The memory, one byte for each address.
    pub mem: Seq<u8>,
}

/// What one step of the machine meets at the program counter.
#[derive(Debug, Clone, Copy, PartialEq, Eq, Structural)]
pub enum Step {
    /// An instruction other than BRK: it was executed.
    Continue,
    /// BRK: the run ends.
    Break,
    /// A byte that is no documented opcode.
    Unknown(u8),
}

/// The address of the stack cell that the stack pointer `sp` names.
pub open spec fn stack_address(sp: u8) -> u16 {
    (STACK + sp) as u16
}

/// The memory `mem` with `bytes` placed from address `at` on.
pub open spec fn place(mem: Seq<u8>, at: int, bytes: Seq<u8>) -> Seq<u8> {
    Seq::new(
        mem.len(),
        |i: int|
            if at <= i < at + bytes.len() {
                bytes[i - at]
            } else {
                mem[i]
            },
    )
}

/// The result of a left shift: the byte, and the bit that left it.
pub open spec fn shift_left(v: u8) -> (u8, bool) {
    (v << 1, bit7(v))
}

/// The result of a right shift: the byte, and the bit that left it.
pub open spec fn shift_right(v: u8) -> (u8, bool) {
    (v >> 1, bit0(v))
}

/// The result of a left rotation through the carry: the byte with the old
/// carry in bit 0, and the bit that left it.
pub open spec fn rotate_left(v: u8, carry: bool) -> (u8, bool) {
    (
        if carry {
            (v << 1) | 0x01
        } else {
            v << 1
        },
        bit7(v),
    )
}

/// The result of a right rotation through the carry: the byte with the old
/// carry in bit 7, and the bit that left it.
pub open spec fn rotate_right(v: u8, carry: bool) -> (u8, bool) {
    (
        if carry {
            (v >> 1) | 0x80
        } else {
            v >> 1
        },
        bit0(v),
    )
}

impl State {
    /// Every address has a cell.
    pub open spec fn wf(self) -> bool {
        self.mem.len() == MEMORY_SIZE
    }

    // ----- memory -----

    /// The byte at `addr`.
    pub open spec fn read(self, addr: u16) -> u8 {
        self.mem[addr as int]
    }

    /// The state with `data` at `addr`.
    pub open spec fn write(self, addr: u16, data: u8) -> State {
        State { mem: self.mem.update(addr as int, data), ..self }
    }

    /// The little-endian word at `pos`: low byte at `pos`, high byte at the
    /// next address, which after 0xFFFF is 0x0000.
    pub open spec fn read16(self, pos: u16) -> u16 {
        word(self.read(pos), self.read(wrap16(pos + 1)))
    }

    /// The state with the little-endian word `data` at `pos`.
    pub open spec fn write16(self, pos: u16, data: u16) -> State {
        self.write(pos, low_byte(data)).write(wrap16(pos + 1), high_byte(data))
    }

    // ----- flags -----

    /// Whether the flag `mask` is set.
    pub open spec fn flag(self, mask: u8) -> bool {
        has_flag(self.p, mask)
    }

    /// The state with the flag `mask` set if `on`, cleared if not.
    pub open spec fn set_flag(self, mask: u8, on: bool) -> State {
        State { p: with_flag(self.p, mask, on), ..self }
    }

    /// The state with ZERO and NEGATIVE taken from the result byte `v`.
    pub open spec fn set_zero_negative(self, v: u8) -> State {
        State { p: with_zero_negative(self.p, v), ..self }
    }

    /// The carry flag as a number.
    pub open spec fn carry_in(self) -> int {
        if self.flag(CARRY) {
            1
        } else {
            0
        }
    }

    // ----- registers -----

    /// The state with `v` in A, and ZERO and NEGATIVE taken from it.
    pub open spec fn load_a(self, v: u8) -> State {
        State { a: v, ..self }.set_zero_negative(v)
    }

    /// The state with `v` in X, and ZERO and NEGATIVE taken from it.
    pub open spec fn load_x(self, v: u8) -> State {
        State { x: v, ..self }.set_zero_negative(v)
    }

    /// The state with `v` in Y, and ZERO and NEGATIVE taken from it.
    pub open spec fn load_y(self, v: u8) -> State {
        State { y: v, ..self }.set_zero_negative(v)
    }

    // ----- stack -----

    /// The state after a push: `data` at the stack's top, and the stack
    /// pointer one lower, 0xFF after 0x00.
    pub open spec fn push(self, data: u8) -> State {
        State { sp: wrap8(self.sp - 1), ..self.write(stack_address(self.sp), data) }
    }

    /// The state after a pop: the stack pointer one higher, 0x00 after 0xFF.
    pub open spec fn pop(self) -> State {
        State { sp: wrap8(self.sp + 1), ..self }
    }

    /// The byte that a pop returns.
    pub open spec fn popped(self) -> u8 {
        self.read(stack_address(wrap8(self.sp + 1)))
    }

    /// The state after a word is pushed, high byte first.
    pub open spec fn push16(self, data: u16) -> State {
        self.push(high_byte(data)).push(low_byte(data))
    }

    /// The state after a word is popped.
    pub open spec fn pop16(self) -> State {
        self.pop().pop()
    }

    /// The word that popping a word returns: the low byte comes first.
    pub open spec fn popped16(self) -> u16 {
        word(self.popped(), self.pop().popped())
    }

    // ----- operands -----

    /// The effective address of the operand, when the program counter is at
    /// the first operand byte. `NoneAddressing` has no address.
    pub open spec fn operand_address(self, mode: AddressingMode) -> u16 {
        match mode {
            AddressingMode::Immediate => self.pc,
            AddressingMode::ZeroPage => self.read(self.pc) as u16,
            AddressingMode::ZeroPage_X => wrap8(self.read(self.pc) + self.x) as u16,
            AddressingMode::ZeroPage_Y => wrap8(self.read(self.pc) + self.y) as u16,
            AddressingMode::Absolute => self.read16(self.pc),
            AddressingMode::Absolute_X => wrap16(self.read16(self.pc) + self.x),
            AddressingMode::Absolute_Y => wrap16(self.read16(self.pc) + self.y),
            AddressingMode::Indirect_X => {
                let ptr = wrap8(self.read(self.pc) + self.x);
                word(self.read(ptr as u16), self.read(wrap8(ptr + 1) as u16))
            },
            AddressingMode::Indirect_Y => {
                let ptr = self.read(self.pc);
                let base = word(self.read(ptr as u16), self.read(wrap8(ptr + 1) as u16));
                wrap16(base + self.y)
            },
            AddressingMode::NoneAddressing => self.pc,
        }
    }

    /// The operand byte.
    pub open spec fn operand(self, mode: AddressingMode) -> u8 {
        self.read(self.operand_address(mode))
    }

    // ----- loads, stores, transfers -----

    /// LDA loads A from the operand.
    pub open spec fn lda(self, mode: AddressingMode) -> State {
        self.load_a(self.operand(mode))
    }

    /// LDX loads X from the operand.
    pub open spec fn ldx(self, mode: AddressingMode) -> State {
        self.load_x(self.operand(mode))
    }

    /// LDY loads Y from the operand.
    pub open spec fn ldy(self, mode: AddressingMode) -> State {
        self.load_y(self.operand(mode))
    }

    /// STA stores A in the operand's cell and touches no flag.
    pub open spec fn sta(self, mode: AddressingMode) -> State {
        self.write(self.operand_address(mode), self.a)
    }

    /// STX stores X in the operand's cell and touches no flag.
    pub open spec fn stx(self, mode: AddressingMode) -> State {
        self.write(self.operand_address(mode), self.x)
    }

    /// STY stores Y in the operand's cell and touches no flag.
    pub open spec fn sty(self, mode: AddressingMode) -> State {
        self.write(self.operand_address(mode), self.y)
    }

    /// TAX copies A to X.
    pub open spec fn tax(self) -> State {
        self.load_x(self.a)
    }

    /// TAY copies A to Y.
    pub open spec fn tay(self) -> State {
        self.load_y(self.a)
    }

    /// TSX copies the stack pointer to X.
    pub open spec fn tsx(self) -> State {
        self.load_x(self.sp)
    }

    /// TXA copies X to A.
    pub open spec fn txa(self) -> State {
        self.load_a(self.x)
    }

    /// TYA copies Y to A.
    pub open spec fn tya(self) -> State {
        self.load_a(self.y)
    }

    /// TXS copies X to the stack pointer and touches no flag.
    pub open spec fn txs(self) -> State {
        State { sp: self.x, ..self }
    }

    // ----- increments and decrements -----

    /// INX adds one to X, 0x00 after 0xFF.
    pub open spec fn inx(self) -> State {
        self.load_x(wrap8(self.x + 1))
    }

    /// INY adds one to Y, 0x00 after 0xFF.
    pub open spec fn iny(self) -> State {
        self.load_y(wrap8(self.y + 1))
    }

    /// DEX takes one from X, 0xFF after 0x00.
    pub open spec fn dex(self) -> State {
        self.load_x(wrap8(self.x - 1))
    }

    /// DEY takes one from Y, 0xFF after 0x00.
    pub open spec fn dey(self) -> State {
        self.load_y(wrap8(self.y - 1))
    }

    /// The state with `v` written to the cell at `addr`, and ZERO and
    /// NEGATIVE taken from `v`.
    pub open spec fn store_result(self, addr: u16, v: u8) -> State {
        self.write(addr, v).set_zero_negative(v)
    }

    /// INC: the flags follow the incremented byte.
    pub open spec fn inc(self, mode: AddressingMode) -> State {
        self.store_result(self.operand_address(mode), wrap8(self.operand(mode) + 1))
    }

    /// DEC: the flags follow the decremented byte.
    pub open spec fn dec(self, mode: AddressingMode) -> State {
        self.store_result(self.operand_address(mode), wrap8(self.operand(mode) - 1))
    }

    // ----- stack instructions -----

    /// PHA pushes A.
    pub open spec fn pha(self) -> State {
        self.push(self.a)
    }

    /// PHP pushes the status with BREAK and BREAK2 set; the live status stays.
    pub open spec fn php(self) -> State {
        self.push(pushed_status(self.p))
    }

    /// PLA pops a byte into A.
    pub open spec fn pla(self) -> State {
        self.pop().load_a(self.popped())
    }

    /// PLP takes the status from the stack, with BREAK off and BREAK2 on.
    pub open spec fn plp(self) -> State {
        State { p: pulled_status(self.popped()), ..self.pop() }
    }

    // ----- arithmetic -----

    /// A + `data` + carry: the low eight bits go to A, the ninth to CARRY;
    /// OVERFLOW is set when both inputs differ in sign from the result.
    pub open spec fn add_with_carry(self, data: u8) -> State {
        let sum = self.a + data + self.carry_in();
        let result = wrap8(sum);
        let overflow = (data ^ result) & (result ^ self.a) & 0x80 != 0;
        self.set_flag(CARRY, sum > 0xff).set_flag(OVERFLOW, overflow).load_a(result)
    }

    /// ADC adds the operand and the carry to A.
    pub open spec fn adc(self, mode: AddressingMode) -> State {
        self.add_with_carry(self.operand(mode))
    }

    /// SBC is ADC of the operand's complement.
    pub open spec fn sbc(self, mode: AddressingMode) -> State {
        self.add_with_carry(!self.operand(mode))
    }

    /// The flags after `register` is compared with `data`: CARRY when the
    /// register is not below, ZERO and NEGATIVE from the difference.
    pub open spec fn compare(self, register: u8, data: u8) -> State {
        self.set_flag(CARRY, register >= data).set_zero_negative(wrap8(register - data))
    }

    /// CMP compares A with the operand.
    pub open spec fn compare_a(self, mode: AddressingMode) -> State {
        self.compare(self.a, self.operand(mode))
    }

    /// CPX compares X with the operand.
    pub open spec fn compare_x(self, mode: AddressingMode) -> State {
        self.compare(self.x, self.operand(mode))
    }

    /// CPY compares Y with the operand.
    pub open spec fn compare_y(self, mode: AddressingMode) -> State {
        self.compare(self.y, self.operand(mode))
    }

    // ----- logic -----

    /// AND: A becomes A & M.
    pub open spec fn and(self, mode: AddressingMode) -> State {
        self.load_a(self.operand(mode) & self.a)
    }

    /// ORA: A becomes A | M.
    pub open spec fn ora(self, mode: AddressingMode) -> State {
        self.load_a(self.operand(mode) | self.a)
    }

    /// EOR: A becomes A ^ M.
    pub open spec fn eor(self, mode: AddressingMode) -> State {
        self.load_a(self.operand(mode) ^ self.a)
    }

    /// BIT: ZERO from A & M, NEGATIVE and OVERFLOW from bits 7 and 6 of M.
    pub open spec fn bit(self, mode: AddressingMode) -> State {
        let data = self.operand(mode);
        self.set_flag(ZERO, self.a & data == 0).set_flag(NEGATIVE, bit7(data)).set_flag(
            OVERFLOW,
            bit6(data),
        )
    }

    // ----- shifts and rotates -----

    /// The state after a shift or rotate of the accumulator gave `r`.
    pub open spec fn shifted_a(self, r: (u8, bool)) -> State {
        self.set_flag(CARRY, r.1).load_a(r.0)
    }

    /// The state after a shift or rotate of the cell at `addr` gave `r`.
    pub open spec fn shifted_memory(self, addr: u16, r: (u8, bool)) -> State {
        self.set_flag(CARRY, r.1).store_result(addr, r.0)
    }

    /// ASL of the accumulator.
    pub open spec fn asl_a(self) -> State {
        self.shifted_a(shift_left(self.a))
    }

    /// ASL of the operand's cell.
    pub open spec fn asl(self, mode: AddressingMode) -> State {
        self.shifted_memory(self.operand_address(mode), shift_left(self.operand(mode)))
    }

    /// LSR of the accumulator; CARRY takes bit 0.
    pub open spec fn lsr_a(self) -> State {
        self.shifted_a(shift_right(self.a))
    }

    /// LSR of the operand's cell.
    pub open spec fn lsr(self, mode: AddressingMode) -> State {
        self.shifted_memory(self.operand_address(mode), shift_right(self.operand(mode)))
    }

    /// ROL of the accumulator.
    pub open spec fn rol_a(self) -> State {
        self.shifted_a(rotate_left(self.a, self.flag(CARRY)))
    }

    /// ROL of the cell at `addr`.
    pub open spec fn rol_at(self, addr: u16) -> State {
        self.shifted_memory(addr, rotate_left(self.read(addr), self.flag(CARRY)))
    }

    /// ROL of the operand's cell.
    pub open spec fn rol(self, mode: AddressingMode) -> State {
        self.rol_at(self.operand_address(mode))
    }

    /// ROR of the accumulator.
    pub open spec fn ror_a(self) -> State {
        self.shifted_a(rotate_right(self.a, self.flag(CARRY)))
    }

    /// ROR of the cell at `addr`.
    pub open spec fn ror_at(self, addr: u16) -> State {
        self.shifted_memory(addr, rotate_right(self.read(addr), self.flag(CARRY)))
    }

    /// ROR of the operand's cell.
    pub open spec fn ror(self, mode: AddressingMode) -> State {
        self.ror_at(self.operand_address(mode))
    }

    // ----- control flow -----

    /// The address a taken branch goes to: the address after the offset
    /// byte, plus the offset read as a signed number.
    pub open spec fn branch_target(self) -> u16 {
        wrap16(self.pc + 1 + signed(self.read(self.pc)))
    }

    /// A branch: taken if `condition`, else nothing changes.
    pub open spec fn branch(self, condition: bool) -> State {
        if condition {
            State { pc: self.branch_target(), ..self }
        } else {
            self
        }
    }

    /// JMP with an absolute operand goes to the word after the opcode.
    pub open spec fn jmp_absolute(self) -> State {
        State { pc: self.read16(self.pc), ..self }
    }

    /// The word that an indirect jump reads at `ptr`. When `ptr` is the last
    /// byte of a page, the high byte comes from the first byte of the same
    /// page, not from the next page.
    pub open spec fn indirect_target(self, ptr: u16) -> u16 {
        if ptr & 0x00ff == 0x00ff {
            word(self.read(ptr), self.read(ptr & 0xff00))
        } else {
            self.read16(ptr)
        }
    }

    /// JMP with an indirect operand goes to the word that the operand points at.
    pub open spec fn jmp_indirect(self) -> State {
        State { pc: self.indirect_target(self.read16(self.pc)), ..self }
    }

    /// JSR pushes the address of the last operand byte, then jumps to the
    /// word that the operand holds after the push.
    pub open spec fn jsr(self) -> State {
        let pushed = self.push16(wrap16(self.pc + 1));
        State { pc: pushed.read16(self.pc), ..pushed }
    }

    /// RTS pops a word and continues at the address after it.
    pub open spec fn rts(self) -> State {
        State { pc: wrap16(self.popped16() + 1), ..self.pop16() }
    }

    /// RTI pops the status as PLP does, then the program counter.
    pub open spec fn rti(self) -> State {
        let flagged = self.plp();
        State { pc: flagged.popped16(), ..flagged.pop16() }
    }

    // ----- the fetch-decode-execute loop -----

    /// The byte at the program counter.
    pub open spec fn opcode(self) -> u8 {
        self.read(self.pc)
    }

    /// What the instruction `code` does, the program counter being at its
    /// first operand byte and `mode` being its addressing mode.
    #[verifier::opaque]
    pub open spec fn execute(self, code: u8, mode: AddressingMode) -> State {
        match code {
            0xa9 | 0xa5 | 0xb5 | 0xad | 0xbd | 0xb9 | 0xa1 | 0xb1 => self.lda(mode),
            0xa2 | 0xa6 | 0xb6 | 0xae | 0xbe => self.ldx(mode),
            0xa0 | 0xa4 | 0xb4 | 0xac | 0xbc => self.ldy(mode),
            0x85 | 0x95 | 0x8d | 0x9d | 0x99 | 0x81 | 0x91 => self.sta(mode),
            0x86 | 0x96 | 0x8e => self.stx(mode),
            0x84 | 0x94 | 0x8c => self.sty(mode),
            0xaa => self.tax(),
            0xa8 => self.tay(),
            0xba => self.tsx(),
            0x8a => self.txa(),
            0x98 => self.tya(),
            0x9a => self.txs(),
            0xe8 => self.inx(),
            0xc8 => self.iny(),
            0xca => self.dex(),
            0x88 => self.dey(),
            0xe6 | 0xf6 | 0xee | 0xfe => self.inc(mode),
            0xc6 | 0xd6 | 0xce | 0xde => self.dec(mode),
            0x48 => self.pha(),
            0x08 => self.php(),
            0x68 => self.pla(),
            0x28 => self.plp(),
            0x38 => self.set_flag(CARRY, true),
            0x18 => self.set_flag(CARRY, false),
            0x78 => self.set_flag(INTERRUPT_DISABLE, true),
            0x58 => self.set_flag(INTERRUPT_DISABLE, false),
            0xf8 => self.set_flag(DECIMAL_MODE, true),
            0xd8 => self.set_flag(DECIMAL_MODE, false),
            0xb8 => self.set_flag(OVERFLOW, false),
            0x69 | 0x65 | 0x75 | 0x6d | 0x7d | 0x79 | 0x61 | 0x71 => self.adc(mode),
            0xe9 | 0xe5 | 0xf5 | 0xed | 0xfd | 0xf9 | 0xe1 | 0xf1 => self.sbc(mode),
            0xc9 | 0xc5 | 0xd5 | 0xcd | 0xdd | 0xd9 | 0xc1 | 0xd1 => self.compare_a(mode),
            0xe0 | 0xe4 | 0xec => self.compare_x(mode),
            0xc0 | 0xc4 | 0xcc => self.compare_y(mode),
            0x29 | 0x25 | 0x35 | 0x2d | 0x3d | 0x39 | 0x21 | 0x31 => self.and(mode),
            0x09 | 0x05 | 0x15 | 0x0d | 0x1d | 0x19 | 0x01 | 0x11 => self.ora(mode),
            0x49 | 0x45 | 0x55 | 0x4d | 0x5d | 0x59 | 0x41 | 0x51 => self.eor(mode),
            0x24 | 0x2c => self.bit(mode),
            0x0a => self.asl_a(),
            0x06 | 0x16 | 0x0e | 0x1e => self.asl(mode),
            0x4a => self.lsr_a(),
            0x46 | 0x56 | 0x4e | 0x5e => self.lsr(mode),
            0x2a => self.rol_a(),
            0x26 | 0x36 | 0x2e | 0x3e => self.rol(mode),
            0x6a => self.ror_a(),
            0x66 | 0x76 | 0x6e | 0x7e => self.ror(mode),
            0x90 => self.branch(!self.flag(CARRY)),
            0xb0 => self.branch(self.flag(CARRY)),
            0xf0 => self.branch(self.flag(ZERO)),
            0xd0 => self.branch(!self.flag(ZERO)),
            0x30 => self.branch(self.flag(NEGATIVE)),
            0x10 => self.branch(!self.flag(NEGATIVE)),
            0x50 => self.branch(!self.flag(OVERFLOW)),
            0x70 => self.branch(self.flag(OVERFLOW)),
            0x4c => self.jmp_absolute(),
            0x6c => self.jmp_indirect(),
            0x20 => self.jsr(),
            0x60 => self.rts(),
            0x40 => self.rti(),
            // BRK ends the run and NOP does nothing: neither changes the state.
            _ => self,
        }
    }

    /// What the step at the program counter meets.
    pub open spec fn step_kind(self) -> Step {
        let code = self.opcode();
        if descriptor(code) is None {
            Step::Unknown(code)
        } else if code == 0x00 {
            Step::Break
        } else {
            Step::Continue
        }
    }

    /// The state after one step. The program counter moves past the opcode
    /// and the instruction is executed; if the instruction left the program
    /// counter where it was, it then moves past the operand. An unknown
    /// opcode changes nothing.
    pub open spec fn step(self) -> State {
        let code = self.opcode();
        match descriptor(code) {
            None => self,
            Some(op) => {
                let fetched = State { pc: wrap16(self.pc + 1), ..self };
                let done = fetched.execute(code, op.mode);
                if done.pc == fetched.pc {
                    State { pc: wrap16(done.pc + op.len - 1), ..done }
                } else {
                    done
                }
            },
        }
    }

    /// The state after `n` steps.
    pub open spec fn steps(self, n: nat) -> State
        decreases n,
    {
        if n == 0 {
            self
        } else {
            self.step().steps((n - 1) as nat)
        }
    }

    /// Whether the machine executes exactly `n` instructions and then meets
    /// BRK, with no unknown opcode on the way.
    pub open spec fn breaks_after(self, n: nat) -> bool
        decreases n,
    {
        if n == 0 {
            self.step_kind() == Step::Break
        } else {
            self.step_kind() == Step::Continue && self.step().breaks_after((n - 1) as nat)
        }
    }

    /// Whether a run from this state ends: it meets BRK after finitely many
    /// instructions, all of them known.
    pub open spec fn halts(self) -> bool {
        exists|n: nat| self.breaks_after(n)
    }

    /// The number of instructions that a run executes before it meets BRK.
    pub open spec fn run_length(self) -> nat {
        choose|n: nat| self.breaks_after(n)
    }

    /// The state in which a run ends: that after the instructions before
    /// BRK and the step over BRK itself.
    pub open spec fn run(self) -> State {
        self.steps(self.run_length() + 1)
    }

    /// A run that ends has one length only.
    pub proof fn lemma_run_length_unique(self, n: nat, m: nat)
        requires
            self.breaks_after(n),
            self.breaks_after(m),
        ensures
            n == m,
        decreases n,
    {
        if n != 0 && m != 0 {
            self.step().lemma_run_length_unique((n - 1) as nat, (m - 1) as nat);
        }
    }

    /// A run that meets BRK after `n` known instructions ends, has length
    /// `n`, and ends in the state after `n + 1` steps.
    pub proof fn lemma_run_of_length(self, n: nat)
        requires
            self.breaks_after(n),
        ensures
            self.halts(),
            self.run_length() == n,
            self.run() == self.steps(n + 1),
    {
        self.lemma_run_length_unique(n, self.run_length());
    }

    /// A run that ends either stands at BRK, and the step over it is the
    /// whole run, or stands at a known instruction, after which the rest of
    /// the run is one instruction shorter and ends in the same state.
    pub proof fn lemma_run_unfolds(self)
        requires
            self.halts(),
        ensures
            self.step_kind() == Step::Break || self.step_kind() == Step::Continue,
            self.step_kind() == Step::Break ==> self.run_length() == 0 && self.run()
                == self.step(),
            self.step_kind() == Step::Continue ==> self.step().halts() && self.run_length()
                == self.step().run_length() + 1 && self.run() == self.step().run(),
    {
        let n = self.run_length();
        assert(self.breaks_after(n));
        if self.step_kind() == Step::Break {
            self.lemma_run_length_unique(n, 0);
            assert(self.steps(1) == self.step().steps(0));
        } else {
            assert(n != 0);
            let next = self.step();
            assert(next.breaks_after((n - 1) as nat));
            next.lemma_run_length_unique((n - 1) as nat, next.run_length());
            assert(self.steps(n + 1) == next.steps(n));
        }
    }

    // ----- reset and load -----

    /// The state after a reset: A, X and Y cleared, the stack pointer and
    /// the status at their reset values, the program counter taken from the
    /// reset vector; the memory is kept.
    pub open spec fn reset(self) -> State {
        State {
            a: 0,
            x: 0,
            y: 0,
            p: STATUS_RESET,
            sp: STACK_RESET,
            pc: self.read16(RESET_VECTOR),
            mem: self.mem,
        }
    }

    /// The state after `program` is placed at `PROGRAM_START` and the reset
    /// vector is pointed there.
    pub open spec fn load(self, program: Seq<u8>) -> State {
        State { mem: place(self.mem, PROGRAM_START as int, program), ..self }.write16(
            RESET_VECTOR,
            PROGRAM_START,
        )
    }
}

} // verus!
