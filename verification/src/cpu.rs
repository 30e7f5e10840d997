//! The processor: its registers, its memory and the execution engine.

use crate::bits::{high, join, low, sign_extend};
use crate::flags::{
    live_status, CpuFlags, BREAK, BREAK2, CARRY, DECIMAL_MODE, INTERRUPT_DISABLE, NEGATIVE,
    OVERFLOW, ZERO,
};
use crate::laws::{
    lemma_add_with_carry, lemma_reset_status, lemma_run_keeps_live_status,
    lemma_step_keeps_live_status, lemma_zero_negative,
};
use crate::model::{
    place, rotate_left, rotate_right, shift_left, shift_right, State, Step, MEMORY_SIZE,
    PROGRAM_START, RESET_VECTOR, STACK, STACK_RESET, STATUS_RESET,
};
use crate::opcodes::{descriptor, lemma_descriptor_shape, lookup};
use vstd::prelude::*;

verus! {

/// How an instruction finds the address of its operand.
#[derive(Debug, Clone, Copy, PartialEq, Eq, Structural)]
#[allow(non_camel_case_types)]
pub enum AddressingMode {
    /// The operand is the byte after the opcode.
    Immediate,
    /// The byte after the opcode is an address in page zero.
    ZeroPage,
    /// As `ZeroPage`, plus X, staying in page zero.
    ZeroPage_X,
    /// As `ZeroPage`, plus Y, staying in page zero.
    ZeroPage_Y,
    /// The word after the opcode is the address.
    Absolute,
    /// As `Absolute`, plus X.
    Absolute_X,
    /// As `Absolute`, plus Y.
    Absolute_Y,
    /// The byte after the opcode plus X names a page-zero cell that holds
    /// the address.
    Indirect_X,
    /// The byte after the opcode names a page-zero cell that holds a base
    /// address, to which Y is added.
    Indirect_Y,
    /// The instruction has no operand address.
    NoneAddressing,
}

/// A 6502 with 64 KiB of flat memory.
pub struct CPU {
    /// The accumulator.
    pub register_a: u8,
    /// The index register X.
    pub register_x: u8,
    /// The index register Y.
    pub register_y: u8,
    /// The status flags.
    pub status: CpuFlags,
    /// The address of the next byte to fetch.
    pub program_counter: u16,
    /// The low byte of the address of the stack's top, which is in page one.
    pub stack_pointer: u8,
    /// The memory, one byte for each 16-bit address.
    pub memory: [u8; 0x1_0000],
}

impl View for CPU {
    type V = State;

    open spec fn view(&self) -> State {
        State {
            a: self.register_a,
            x: self.register_x,
            y: self.register_y,
            p: self.status@,
            sp: self.stack_pointer,
            pc: self.program_counter,
            mem: self.memory@,
        }
    }
}

impl CPU {
    /// A processor with cleared registers, the stack pointer and the status
    /// at their reset values, the program counter at zero and a memory of
    /// zeroes.
    pub fn new() -> (cpu: CPU)
        ensures
            cpu@ == (State {
                a: 0,
                x: 0,
                y: 0,
                p: STATUS_RESET,
                sp: STACK_RESET,
                pc: 0,
                mem: Seq::new(MEMORY_SIZE as nat, |i: int| 0u8),
            }),
    {
        let cpu = CPU {
            register_a: 0,
            register_x: 0,
            register_y: 0,
            status: CpuFlags::from_bits_truncate(STATUS_RESET),
            program_counter: 0,
            stack_pointer: STACK_RESET,
            memory: [0u8; 0x1_0000],
        };
        assert(cpu.memory@ =~= Seq::new(MEMORY_SIZE as nat, |i: int| 0u8));
        cpu
    }

    /// The byte at `addr`.
    pub fn mem_read(&self, addr: u16) -> (data: u8)
        ensures
            data == self@.read(addr),
    {
        self.memory[addr as usize]
    }

    /// Stores `data` at `addr`.
    pub fn mem_write(&mut self, addr: u16, data: u8)
        ensures
            final(self)@ == old(self)@.write(addr, data),
    {
        self.memory[addr as usize] = data;
    }

    /// The little-endian word at `pos`.
    pub fn mem_read_u16(&self, pos: u16) -> (data: u16)
        ensures
            data == self@.read16(pos),
    {
        let lo = self.mem_read(pos);
        let hi = self.mem_read(pos.wrapping_add(1));
        join(lo, hi)
    }

    /// Stores the word `data` at `pos`, low byte first.
    pub fn mem_write_u16(&mut self, pos: u16, data: u16)
        ensures
            final(self)@ == old(self)@.write16(pos, data),
    {
        let hi = high(data);
        let lo = low(data);
        self.mem_write(pos, lo);
        self.mem_write(pos.wrapping_add(1), hi);
    }

    /// Brings the registers to their reset values and takes the program
    /// counter from the reset vector.
    pub fn reset(&mut self)
        ensures
            final(self)@ == old(self)@.reset(),
            live_status(final(self)@.p),
    {
        proof {
            lemma_reset_status(self@);
        }
        self.register_a = 0;
        self.register_x = 0;
        self.register_y = 0;
        self.program_counter = self.mem_read_u16(RESET_VECTOR);
        self.stack_pointer = STACK_RESET;
        self.status = CpuFlags::from_bits_truncate(STATUS_RESET);
    }

    /// The effective address of the operand, the program counter being at
    /// the first operand byte.
    pub fn get_operand_address(&self, mode: &AddressingMode) -> (addr: u16)
        requires
            *mode != AddressingMode::NoneAddressing,
        ensures
            addr == self@.operand_address(*mode),
    {
        match mode {
            AddressingMode::Immediate => self.program_counter,
            AddressingMode::ZeroPage => self.mem_read(self.program_counter) as u16,
            AddressingMode::Absolute => self.mem_read_u16(self.program_counter),
            AddressingMode::ZeroPage_X => {
                let pos = self.mem_read(self.program_counter);
                pos.wrapping_add(self.register_x) as u16
            },
            AddressingMode::ZeroPage_Y => {
                let pos = self.mem_read(self.program_counter);
                pos.wrapping_add(self.register_y) as u16
            },
            AddressingMode::Absolute_X => {
                let base = self.mem_read_u16(self.program_counter);
                base.wrapping_add(self.register_x as u16)
            },
            AddressingMode::Absolute_Y => {
                let base = self.mem_read_u16(self.program_counter);
                base.wrapping_add(self.register_y as u16)
            },
            AddressingMode::Indirect_X => {
                let base = self.mem_read(self.program_counter);
                let ptr: u8 = base.wrapping_add(self.register_x);
                let lo = self.mem_read(ptr as u16);
                let hi = self.mem_read(ptr.wrapping_add(1) as u16);
                join(lo, hi)
            },
            AddressingMode::Indirect_Y => {
                let base = self.mem_read(self.program_counter);
                let lo = self.mem_read(base as u16);
                let hi = self.mem_read(base.wrapping_add(1) as u16);
                let deref_base = join(lo, hi);
                deref_base.wrapping_add(self.register_y as u16)
            },
            AddressingMode::NoneAddressing => 0,
        }
    }

    /// Takes ZERO and NEGATIVE from the result byte: ZERO is set exactly
    /// when it is zero, NEGATIVE exactly when its bit 7 is set.
    pub fn update_zero_and_negative_flags(&mut self, result: u8)
        ensures
            final(self)@ == old(self)@.set_zero_negative(result),
            final(self)@.flag(ZERO) <==> result == 0,
            final(self)@.flag(NEGATIVE) <==> result & 0x80 != 0,
    {
        proof {
            lemma_zero_negative(self@.p, result);
        }
        if result == 0 {
            self.status.insert(ZERO);
        } else {
            self.status.remove(ZERO);
        }
        if result & 0b1000_0000 != 0 {
            self.status.insert(NEGATIVE);
        } else {
            self.status.remove(NEGATIVE);
        }
    }

    /// Puts `value` in A and takes ZERO and NEGATIVE from it.
    pub fn set_register_a(&mut self, value: u8)
        ensures
            final(self)@ == old(self)@.load_a(value),
    {
        self.register_a = value;
        self.update_zero_and_negative_flags(self.register_a);
    }

    /// Adds `data` and the carry to A: A takes the sum modulo 256, CARRY
    /// the ninth bit of the sum, OVERFLOW whether `data` and the old A both
    /// differ in sign from the new A, and ZERO and NEGATIVE follow the new A.
    pub fn add_to_register_a(&mut self, data: u8)
        ensures
            final(self)@ == old(self)@.add_with_carry(data),
            final(self)@.a == (old(self)@.a + data + old(self)@.carry_in()) % 256,
            final(self)@.flag(CARRY) <==> old(self)@.a + data + old(self)@.carry_in() > 255,
            final(self)@.flag(OVERFLOW) <==> (data ^ final(self)@.a) & (old(self)@.a
                ^ final(self)@.a) & 0x80 != 0,
    {
        proof {
            lemma_add_with_carry(self@, data);
        }
        let carry_in: u16 = if self.status.contains(CARRY) {
            1
        } else {
            0
        };
        let sum: u16 = self.register_a as u16 + data as u16 + carry_in;
        let carry = sum > 0xff;
        self.status.set(CARRY, carry);
        let result: u8 = if carry {
            (sum - 0x100) as u8
        } else {
            sum as u8
        };
        self.status.set(OVERFLOW, (data ^ result) & (result ^ self.register_a) & 0x80 != 0);
        self.set_register_a(result);
    }

    /// Increments the stack pointer, wrapping, and reads the cell it names.
    pub fn stack_pop(&mut self) -> (data: u8)
        ensures
            final(self)@ == old(self)@.pop(),
            data == old(self)@.popped(),
            final(self)@.sp == (old(self)@.sp + 1) % 256,
    {
        self.stack_pointer = self.stack_pointer.wrapping_add(1);
        self.mem_read(STACK + self.stack_pointer as u16)
    }

    /// Writes `data` to the cell the stack pointer names and decrements the
    /// stack pointer, wrapping.
    pub fn stack_push(&mut self, data: u8)
        ensures
            final(self)@ == old(self)@.push(data),
            final(self)@.sp == (old(self)@.sp + 255) % 256,
    {
        self.mem_write(STACK + self.stack_pointer as u16, data);
        self.stack_pointer = self.stack_pointer.wrapping_sub(1);
    }

    /// Pushes a word, high byte first.
    pub fn stack_push_u16(&mut self, data: u16)
        ensures
            final(self)@ == old(self)@.push16(data),
    {
        let hi = high(data);
        let lo = low(data);
        self.stack_push(hi);
        self.stack_push(lo);
    }

    /// Pops a word, low byte first.
    pub fn stack_pop_u16(&mut self) -> (data: u16)
        ensures
            final(self)@ == old(self)@.pop16(),
            data == old(self)@.popped16(),
    {
        let lo = self.stack_pop();
        let hi = self.stack_pop();
        join(lo, hi)
    }

    /// If `condition` holds, jumps by the signed offset at the program
    /// counter, counted from the address after it.
    pub fn branch(&mut self, condition: bool)
        ensures
            final(self)@ == old(self)@.branch(condition),
    {
        if condition {
            let jump = self.mem_read(self.program_counter);
            let jump_addr = self.program_counter.wrapping_add(1).wrapping_add(sign_extend(jump));
            self.program_counter = jump_addr;
        }
    }
    /// Puts `value` in X and takes ZERO and NEGATIVE from it.
    fn set_register_x(&mut self, value: u8)
        ensures
            final(self)@ == old(self)@.load_x(value),
    {
        self.register_x = value;
        self.update_zero_and_negative_flags(self.register_x);
    }

    /// Puts `value` in Y and takes ZERO and NEGATIVE from it.
    fn set_register_y(&mut self, value: u8)
        ensures
            final(self)@ == old(self)@.load_y(value),
    {
        self.register_y = value;
        self.update_zero_and_negative_flags(self.register_y);
    }

    /// The operand byte.
    fn operand(&self, mode: &AddressingMode) -> (data: u8)
        requires
            *mode != AddressingMode::NoneAddressing,
        ensures
            data == self@.operand(*mode),
    {
        let addr = self.get_operand_address(mode);
        self.mem_read(addr)
    }

    /// Writes `value` to the cell at `addr` and takes ZERO and NEGATIVE
    /// from it.
    fn store_result(&mut self, addr: u16, value: u8)
        ensures
            final(self)@ == old(self)@.store_result(addr, value),
    {
        self.mem_write(addr, value);
        self.update_zero_and_negative_flags(value);
    }

    /// Compares `register` with `data`.
    fn compare(&mut self, register: u8, data: u8)
        ensures
            final(self)@ == old(self)@.compare(register, data),
    {
        self.status.set(CARRY, register >= data);
        self.update_zero_and_negative_flags(register.wrapping_sub(data));
    }

    /// Tests the bits of `data` against A.
    fn bit(&mut self, mode: &AddressingMode)
        requires
            *mode != AddressingMode::NoneAddressing,
        ensures
            final(self)@ == old(self)@.bit(*mode),
    {
        let data = self.operand(mode);
        self.status.set(ZERO, self.register_a & data == 0);
        self.status.set(NEGATIVE, data & 0b1000_0000 != 0);
        self.status.set(OVERFLOW, data & 0b0100_0000 != 0);
    }

    /// Takes the result of a shift or rotate of the accumulator.
    fn shifted_a(&mut self, r: (u8, bool))
        ensures
            final(self)@ == old(self)@.shifted_a(r),
    {
        self.status.set(CARRY, r.1);
        self.set_register_a(r.0);
    }

    /// Takes the result of a shift or rotate of the cell at `addr`.
    fn shifted_memory(&mut self, addr: u16, r: (u8, bool))
        ensures
            final(self)@ == old(self)@.shifted_memory(addr, r),
    {
        self.status.set(CARRY, r.1);
        self.store_result(addr, r.0);
    }

    /// Pushes the status with BREAK and BREAK2 set.
    fn php(&mut self)
        ensures
            final(self)@ == old(self)@.php(),
    {
        let mut flags = self.status;
        flags.insert(BREAK);
        flags.insert(BREAK2);
        self.stack_push(flags.bits());
    }

    /// Pops the status, with BREAK cleared and BREAK2 set.
    fn plp(&mut self)
        ensures
            final(self)@ == old(self)@.plp(),
    {
        let bits = self.stack_pop();
        self.status = CpuFlags::from_bits_truncate(bits);
        self.status.remove(BREAK);
        self.status.insert(BREAK2);
    }

    /// Jumps to the word that the operand points at, with the page-wrap of
    /// the hardware.
    fn jmp_indirect(&mut self)
        ensures
            final(self)@ == old(self)@.jmp_indirect(),
    {
        let mem_address = self.mem_read_u16(self.program_counter);
        let indirect_ref = if mem_address & 0x00ff == 0x00ff {
            let lo = self.mem_read(mem_address);
            let hi = self.mem_read(mem_address & 0xff00);
            join(lo, hi)
        } else {
            self.mem_read_u16(mem_address)
        };
        self.program_counter = indirect_ref;
    }

    /// Calls the subroutine at the operand.
    fn jsr(&mut self)
        ensures
            final(self)@ == old(self)@.jsr(),
    {
        self.stack_push_u16(self.program_counter.wrapping_add(1));
        let target_address = self.mem_read_u16(self.program_counter);
        self.program_counter = target_address;
    }

    /// Returns from a subroutine.
    fn rts(&mut self)
        ensures
            final(self)@ == old(self)@.rts(),
    {
        self.program_counter = self.stack_pop_u16().wrapping_add(1);
    }

    /// Returns from an interrupt.
    fn rti(&mut self)
        ensures
            final(self)@ == old(self)@.rti(),
    {
        self.plp();
        self.program_counter = self.stack_pop_u16();
    }

    /// Executes the instruction `code`, the program counter being at its
    /// first operand byte.
    fn execute(&mut self, code: u8, mode: &AddressingMode)
        requires
            descriptor(code) is Some,
            descriptor(code)->0.mode == *mode,
        ensures
            final(self)@ == old(self)@.execute(code, *mode),
    {
        reveal(descriptor);
        reveal(State::execute);
        match code {
            // LDA
            0xa9 | 0xa5 | 0xb5 | 0xad | 0xbd | 0xb9 | 0xa1 | 0xb1 => {
                let value = self.operand(mode);
                self.set_register_a(value);
            },
            // LDX
            0xa2 | 0xa6 | 0xb6 | 0xae | 0xbe => {
                let value = self.operand(mode);
                self.set_register_x(value);
            },
            // LDY
            0xa0 | 0xa4 | 0xb4 | 0xac | 0xbc => {
                let value = self.operand(mode);
                self.set_register_y(value);
            },
            // STA
            0x85 | 0x95 | 0x8d | 0x9d | 0x99 | 0x81 | 0x91 => {
                let addr = self.get_operand_address(mode);
                self.mem_write(addr, self.register_a);
            },
            // STX
            0x86 | 0x96 | 0x8e => {
                let addr = self.get_operand_address(mode);
                self.mem_write(addr, self.register_x);
            },
            // STY
            0x84 | 0x94 | 0x8c => {
                let addr = self.get_operand_address(mode);
                self.mem_write(addr, self.register_y);
            },
            // TAX
            0xaa => self.set_register_x(self.register_a),
            // TAY
            0xa8 => self.set_register_y(self.register_a),
            // TSX
            0xba => self.set_register_x(self.stack_pointer),
            // TXA
            0x8a => self.set_register_a(self.register_x),
            // TYA
            0x98 => self.set_register_a(self.register_y),
            // TXS
            0x9a => {
                self.stack_pointer = self.register_x;
            },
            // INX
            0xe8 => self.set_register_x(self.register_x.wrapping_add(1)),
            // INY
            0xc8 => self.set_register_y(self.register_y.wrapping_add(1)),
            // DEX
            0xca => self.set_register_x(self.register_x.wrapping_sub(1)),
            // DEY
            0x88 => self.set_register_y(self.register_y.wrapping_sub(1)),
            // INC
            0xe6 | 0xf6 | 0xee | 0xfe => {
                let addr = self.get_operand_address(mode);
                let data = self.mem_read(addr);
                self.store_result(addr, data.wrapping_add(1));
            },
            // DEC
            0xc6 | 0xd6 | 0xce | 0xde => {
                let addr = self.get_operand_address(mode);
                let data = self.mem_read(addr);
                self.store_result(addr, data.wrapping_sub(1));
            },
            // PHA
            0x48 => self.stack_push(self.register_a),
            // PHP
            0x08 => self.php(),
            // PLA
            0x68 => {
                let data = self.stack_pop();
                self.set_register_a(data);
            },
            // PLP
            0x28 => self.plp(),
            // SEC
            0x38 => self.status.insert(CARRY),
            // CLC
            0x18 => self.status.remove(CARRY),
            // SEI
            0x78 => self.status.insert(INTERRUPT_DISABLE),
            // CLI
            0x58 => self.status.remove(INTERRUPT_DISABLE),
            // SED
            0xf8 => self.status.insert(DECIMAL_MODE),
            // CLD
            0xd8 => self.status.remove(DECIMAL_MODE),
            // CLV
            0xb8 => self.status.remove(OVERFLOW),
            // ADC
            0x69 | 0x65 | 0x75 | 0x6d | 0x7d | 0x79 | 0x61 | 0x71 => {
                let data = self.operand(mode);
                self.add_to_register_a(data);
            },
            // SBC
            0xe9 | 0xe5 | 0xf5 | 0xed | 0xfd | 0xf9 | 0xe1 | 0xf1 => {
                let data = self.operand(mode);
                self.add_to_register_a(!data);
            },
            // CMP
            0xc9 | 0xc5 | 0xd5 | 0xcd | 0xdd | 0xd9 | 0xc1 | 0xd1 => {
                let data = self.operand(mode);
                self.compare(self.register_a, data);
            },
            // CPX
            0xe0 | 0xe4 | 0xec => {
                let data = self.operand(mode);
                self.compare(self.register_x, data);
            },
            // CPY
            0xc0 | 0xc4 | 0xcc => {
                let data = self.operand(mode);
                self.compare(self.register_y, data);
            },
            // AND
            0x29 | 0x25 | 0x35 | 0x2d | 0x3d | 0x39 | 0x21 | 0x31 => {
                let data = self.operand(mode);
                self.set_register_a(data & self.register_a);
            },
            // ORA
            0x09 | 0x05 | 0x15 | 0x0d | 0x1d | 0x19 | 0x01 | 0x11 => {
                let data = self.operand(mode);
                self.set_register_a(data | self.register_a);
            },
            // EOR
            0x49 | 0x45 | 0x55 | 0x4d | 0x5d | 0x59 | 0x41 | 0x51 => {
                let data = self.operand(mode);
                self.set_register_a(data ^ self.register_a);
            },
            // BIT
            0x24 | 0x2c => self.bit(mode),
            // ASL
            0x0a => self.shifted_a(shl(self.register_a)),
            0x06 | 0x16 | 0x0e | 0x1e => {
                let addr = self.get_operand_address(mode);
                let data = self.mem_read(addr);
                self.shifted_memory(addr, shl(data));
            },
            // LSR
            0x4a => self.shifted_a(shr(self.register_a)),
            0x46 | 0x56 | 0x4e | 0x5e => {
                let addr = self.get_operand_address(mode);
                let data = self.mem_read(addr);
                self.shifted_memory(addr, shr(data));
            },
            // ROL
            0x2a => {
                let old_carry = self.status.contains(CARRY);
                self.shifted_a(rol(self.register_a, old_carry));
            },
            0x26 | 0x36 | 0x2e | 0x3e => {
                let addr = self.get_operand_address(mode);
                let data = self.mem_read(addr);
                let old_carry = self.status.contains(CARRY);
                self.shifted_memory(addr, rol(data, old_carry));
            },
            // ROR
            0x6a => {
                let old_carry = self.status.contains(CARRY);
                self.shifted_a(ror(self.register_a, old_carry));
            },
            0x66 | 0x76 | 0x6e | 0x7e => {
                let addr = self.get_operand_address(mode);
                let data = self.mem_read(addr);
                let old_carry = self.status.contains(CARRY);
                self.shifted_memory(addr, ror(data, old_carry));
            },
            // BCC
            0x90 => self.branch(!self.status.contains(CARRY)),
            // BCS
            0xb0 => self.branch(self.status.contains(CARRY)),
            // BEQ
            0xf0 => self.branch(self.status.contains(ZERO)),
            // BNE
            0xd0 => self.branch(!self.status.contains(ZERO)),
            // BMI
            0x30 => self.branch(self.status.contains(NEGATIVE)),
            // BPL
            0x10 => self.branch(!self.status.contains(NEGATIVE)),
            // BVC
            0x50 => self.branch(!self.status.contains(OVERFLOW)),
            // BVS
            0x70 => self.branch(self.status.contains(OVERFLOW)),
            // JMP absolute
            0x4c => {
                self.program_counter = self.mem_read_u16(self.program_counter);
            },
            // JMP indirect
            0x6c => self.jmp_indirect(),
            // JSR
            0x20 => self.jsr(),
            // RTS
            0x60 => self.rts(),
            // RTI
            0x40 => self.rti(),
            // BRK, NOP
            _ => {},
        }
    }

    /// Executes the instruction at the program counter, or reports why it
    /// did not: BRK, over which only the program counter moves, or a byte
    /// that is no opcode, which changes nothing.
    pub fn step(&mut self) -> (kind: Step)
        ensures
            kind == old(self)@.step_kind(),
            final(self)@ == old(self)@.step(),
            live_status(old(self)@.p) ==> live_status(final(self)@.p),
    {
        proof {
            lemma_step_keeps_live_status(self@);
        }
        let code = self.mem_read(self.program_counter);
        match lookup(code) {
            None => Step::Unknown(code),
            Some(opcode) => {
                proof {
                    lemma_descriptor_shape(code);
                }
                self.program_counter = self.program_counter.wrapping_add(1);
                let program_counter_state = self.program_counter;
                self.execute(code, &opcode.mode);
                if program_counter_state == self.program_counter {
                    self.program_counter = self.program_counter.wrapping_add(
                        (opcode.len - 1) as u16,
                    );
                }
                if code == 0x00 {
                    Step::Break
                } else {
                    Step::Continue
                }
            },
        }
    }

    /// Copies `program` to memory from `PROGRAM_START` on and points the
    /// reset vector there. The program must fit between `PROGRAM_START` and
    /// the end of memory.
    pub fn load(&mut self, program: Vec<u8>)
        requires
            program@.len() <= MEMORY_SIZE - PROGRAM_START,
        ensures
            final(self)@ == old(self)@.load(program@),
    {
        let mut i: usize = 0;
        assert(self@.mem =~= place(self@.mem, PROGRAM_START as int, program@.take(0)));
        while i < program.len()
            invariant
                i <= program@.len() <= MEMORY_SIZE - PROGRAM_START,
                self@ == (State {
                    mem: place(old(self)@.mem, PROGRAM_START as int, program@.take(i as int)),
                    ..old(self)@
                }),
            decreases program@.len() - i,
        {
            self.memory[PROGRAM_START as usize + i] = program[i];
            i += 1;
            assert(self@.mem =~= place(
                old(self)@.mem,
                PROGRAM_START as int,
                program@.take(i as int),
            ));
        }
        assert(program@.take(i as int) =~= program@);
        self.mem_write_u16(RESET_VECTOR, PROGRAM_START);
    }

    /// Loads `program`, resets the processor and runs it until BRK. The
    /// program must fit and its run must end, as for `load` and `run`.
    pub fn load_and_run(&mut self, program: Vec<u8>)
        requires
            program@.len() <= MEMORY_SIZE - PROGRAM_START,
            old(self)@.load(program@).reset().halts(),
        ensures
            final(self)@ == old(self)@.load(program@).reset().run(),
            live_status(final(self)@.p),
    {
        self.load(program);
        self.reset();
        self.run();
    }

    /// Executes instructions until BRK. The program counter is then at the
    /// address after the BRK. The run must end: it must meet BRK after
    /// finitely many instructions and no unknown opcode before. Use `step`
    /// where that is not known.
    pub fn run(&mut self)
        requires
            old(self)@.halts(),
        ensures
            final(self)@ == old(self)@.run(),
            live_status(old(self)@.p) ==> live_status(final(self)@.p),
    {
        proof {
            if live_status(self@.p) {
                lemma_run_keeps_live_status(self@);
            }
        }
        loop
            invariant_except_break
                self@.halts(),
                self@.run() == old(self)@.run(),
            ensures
                self@ == old(self)@.run(),
            decreases self@.run_length(),
        {
            proof {
                self@.lemma_run_unfolds();
            }
            match self.step() {
                Step::Continue => {},
                _ => {
                    break ;
                },
            }
        }
    }
}

/// Shifts a byte left by one bit.
fn shl(v: u8) -> (r: (u8, bool))
    ensures
        r == shift_left(v),
{
    (v << 1, v & 0x80 != 0)
}

/// Shifts a byte right by one bit.
fn shr(v: u8) -> (r: (u8, bool))
    ensures
        r == shift_right(v),
{
    (v >> 1, v & 0x01 != 0)
}

/// Rotates a byte left through the carry.
fn rol(v: u8, carry: bool) -> (r: (u8, bool))
    ensures
        r == rotate_left(v, carry),
{
    let shifted: u8 = v << 1;
    (
        if carry {
            shifted | 0x01
        } else {
            shifted
        },
        v & 0x80 != 0,
    )
}

/// Rotates a byte right through the carry.
fn ror(v: u8, carry: bool) -> (r: (u8, bool))
    ensures
        r == rotate_right(v, carry),
{
    let shifted: u8 = v >> 1;
    (
        if carry {
            shifted | 0x80
        } else {
            shifted
        },
        v & 0x01 != 0,
    )
}

} // verus!
