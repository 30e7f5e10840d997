//! The opcode table: for each opcode byte its mnemonic, its length in bytes,
//! its base cycle count and its addressing mode.

use crate::cpu::AddressingMode;
use vstd::prelude::*;

verus! {

/// The descriptor of one opcode.
#[derive(Debug, Clone, Copy)]
pub struct OpCode {
    /// The opcode byte.
    pub code: u8,
    /// The three-letter name of the instruction.
    pub mnemonic: &'static str,
    /// The length of the instruction in bytes, opcode and operand together.
    pub len: u8,
    /// The base cycle count.
    pub cycles: u8,
    /// How the operand is addressed.
    pub mode: AddressingMode,
}

impl OpCode {
    /// The descriptor with the given fields.
    pub fn new(
        code: u8,
        mnemonic: &'static str,
        len: u8,
        cycles: u8,
        mode: AddressingMode,
    ) -> (op: OpCode)
        ensures
            op == (OpCode { code, mnemonic, len, cycles, mode }),
    {
        OpCode { code, mnemonic, len, cycles, mode }
    }
}

/// One line of the table.
pub open spec fn entry(
    code: u8,
    mnemonic: &'static str,
    len: u8,
    cycles: u8,
    mode: AddressingMode,
) -> Option<OpCode> {
    Some(OpCode { code, mnemonic, len, cycles, mode })
}

/// The table: the descriptor of `code`, or `None` for a byte that is no
/// documented opcode.
#[verifier::opaque]
pub open spec fn descriptor(code: u8) -> Option<OpCode> {
    if code < 0x10 {
        match code {
            0x00 => entry(code, "BRK", 1, 7, AddressingMode::NoneAddressing),
            0x01 => entry(code, "ORA", 2, 6, AddressingMode::Indirect_X),
            0x05 => entry(code, "ORA", 2, 3, AddressingMode::ZeroPage),
            0x06 => entry(code, "ASL", 2, 5, AddressingMode::ZeroPage),
            0x08 => entry(code, "PHP", 1, 3, AddressingMode::NoneAddressing),
            0x09 => entry(code, "ORA", 2, 2, AddressingMode::Immediate),
            0x0a => entry(code, "ASL", 1, 2, AddressingMode::NoneAddressing),
            0x0d => entry(code, "ORA", 3, 4, AddressingMode::Absolute),
            0x0e => entry(code, "ASL", 3, 6, AddressingMode::Absolute),
            _ => None,
        }
    } else if code < 0x20 {
        match code {
            0x10 => entry(code, "BPL", 2, 2, AddressingMode::NoneAddressing),
            0x11 => entry(code, "ORA", 2, 5, AddressingMode::Indirect_Y),
            0x15 => entry(code, "ORA", 2, 4, AddressingMode::ZeroPage_X),
            0x16 => entry(code, "ASL", 2, 6, AddressingMode::ZeroPage_X),
            0x18 => entry(code, "CLC", 1, 2, AddressingMode::NoneAddressing),
            0x19 => entry(code, "ORA", 3, 4, AddressingMode::Absolute_Y),
            0x1d => entry(code, "ORA", 3, 4, AddressingMode::Absolute_X),
            0x1e => entry(code, "ASL", 3, 7, AddressingMode::Absolute_X),
            _ => None,
        }
    } else if code < 0x30 {
        match code {
            0x20 => entry(code, "JSR", 3, 6, AddressingMode::NoneAddressing),
            0x21 => entry(code, "AND", 2, 6, AddressingMode::Indirect_X),
            0x24 => entry(code, "BIT", 2, 3, AddressingMode::ZeroPage),
            0x25 => entry(code, "AND", 2, 3, AddressingMode::ZeroPage),
            0x26 => entry(code, "ROL", 2, 5, AddressingMode::ZeroPage),
            0x28 => entry(code, "PLP", 1, 4, AddressingMode::NoneAddressing),
            0x29 => entry(code, "AND", 2, 2, AddressingMode::Immediate),
            0x2a => entry(code, "ROL", 1, 2, AddressingMode::NoneAddressing),
            0x2c => entry(code, "BIT", 3, 4, AddressingMode::Absolute),
            0x2d => entry(code, "AND", 3, 4, AddressingMode::Absolute),
            0x2e => entry(code, "ROL", 3, 6, AddressingMode::Absolute),
            _ => None,
        }
    } else if code < 0x40 {
        match code {
            0x30 => entry(code, "BMI", 2, 2, AddressingMode::NoneAddressing),
            0x31 => entry(code, "AND", 2, 5, AddressingMode::Indirect_Y),
            0x35 => entry(code, "AND", 2, 4, AddressingMode::ZeroPage_X),
            0x36 => entry(code, "ROL", 2, 6, AddressingMode::ZeroPage_X),
            0x38 => entry(code, "SEC", 1, 2, AddressingMode::NoneAddressing),
            0x39 => entry(code, "AND", 3, 4, AddressingMode::Absolute_Y),
            0x3d => entry(code, "AND", 3, 4, AddressingMode::Absolute_X),
            0x3e => entry(code, "ROL", 3, 7, AddressingMode::Absolute_X),
            _ => None,
        }
    } else if code < 0x50 {
        match code {
            0x40 => entry(code, "RTI", 1, 6, AddressingMode::NoneAddressing),
            0x41 => entry(code, "EOR", 2, 6, AddressingMode::Indirect_X),
            0x45 => entry(code, "EOR", 2, 3, AddressingMode::ZeroPage),
            0x46 => entry(code, "LSR", 2, 5, AddressingMode::ZeroPage),
            0x48 => entry(code, "PHA", 1, 3, AddressingMode::NoneAddressing),
            0x49 => entry(code, "EOR", 2, 2, AddressingMode::Immediate),
            0x4a => entry(code, "LSR", 1, 2, AddressingMode::NoneAddressing),
            0x4c => entry(code, "JMP", 3, 3, AddressingMode::NoneAddressing),
            0x4d => entry(code, "EOR", 3, 4, AddressingMode::Absolute),
            0x4e => entry(code, "LSR", 3, 6, AddressingMode::Absolute),
            _ => None,
        }
    } else if code < 0x60 {
        match code {
            0x50 => entry(code, "BVC", 2, 2, AddressingMode::NoneAddressing),
            0x51 => entry(code, "EOR", 2, 5, AddressingMode::Indirect_Y),
            0x55 => entry(code, "EOR", 2, 4, AddressingMode::ZeroPage_X),
            0x56 => entry(code, "LSR", 2, 6, AddressingMode::ZeroPage_X),
            0x58 => entry(code, "CLI", 1, 2, AddressingMode::NoneAddressing),
            0x59 => entry(code, "EOR", 3, 4, AddressingMode::Absolute_Y),
            0x5d => entry(code, "EOR", 3, 4, AddressingMode::Absolute_X),
            0x5e => entry(code, "LSR", 3, 7, AddressingMode::Absolute_X),
            _ => None,
        }
    } else if code < 0x70 {
        match code {
            0x60 => entry(code, "RTS", 1, 6, AddressingMode::NoneAddressing),
            0x61 => entry(code, "ADC", 2, 6, AddressingMode::Indirect_X),
            0x65 => entry(code, "ADC", 2, 3, AddressingMode::ZeroPage),
            0x66 => entry(code, "ROR", 2, 5, AddressingMode::ZeroPage),
            0x68 => entry(code, "PLA", 1, 4, AddressingMode::NoneAddressing),
            0x69 => entry(code, "ADC", 2, 2, AddressingMode::Immediate),
            0x6a => entry(code, "ROR", 1, 2, AddressingMode::NoneAddressing),
            0x6c => entry(code, "JMP", 3, 5, AddressingMode::NoneAddressing),
            0x6d => entry(code, "ADC", 3, 4, AddressingMode::Absolute),
            0x6e => entry(code, "ROR", 3, 6, AddressingMode::Absolute),
            _ => None,
        }
    } else if code < 0x80 {
        match code {
            0x70 => entry(code, "BVS", 2, 2, AddressingMode::NoneAddressing),
            0x71 => entry(code, "ADC", 2, 5, AddressingMode::Indirect_Y),
            0x75 => entry(code, "ADC", 2, 4, AddressingMode::ZeroPage_X),
            0x76 => entry(code, "ROR", 2, 6, AddressingMode::ZeroPage_X),
            0x78 => entry(code, "SEI", 1, 2, AddressingMode::NoneAddressing),
            0x79 => entry(code, "ADC", 3, 4, AddressingMode::Absolute_Y),
            0x7d => entry(code, "ADC", 3, 4, AddressingMode::Absolute_X),
            0x7e => entry(code, "ROR", 3, 7, AddressingMode::Absolute_X),
            _ => None,
        }
    } else if code < 0x90 {
        match code {
            0x81 => entry(code, "STA", 2, 6, AddressingMode::Indirect_X),
            0x84 => entry(code, "STY", 2, 3, AddressingMode::ZeroPage),
            0x85 => entry(code, "STA", 2, 3, AddressingMode::ZeroPage),
            0x86 => entry(code, "STX", 2, 3, AddressingMode::ZeroPage),
            0x88 => entry(code, "DEY", 1, 2, AddressingMode::NoneAddressing),
            0x8a => entry(code, "TXA", 1, 2, AddressingMode::NoneAddressing),
            0x8c => entry(code, "STY", 3, 4, AddressingMode::Absolute),
            0x8d => entry(code, "STA", 3, 4, AddressingMode::Absolute),
            0x8e => entry(code, "STX", 3, 4, AddressingMode::Absolute),
            _ => None,
        }
    } else if code < 0xa0 {
        match code {
            0x90 => entry(code, "BCC", 2, 2, AddressingMode::NoneAddressing),
            0x91 => entry(code, "STA", 2, 6, AddressingMode::Indirect_Y),
            0x94 => entry(code, "STY", 2, 4, AddressingMode::ZeroPage_X),
            0x95 => entry(code, "STA", 2, 4, AddressingMode::ZeroPage_X),
            0x96 => entry(code, "STX", 2, 4, AddressingMode::ZeroPage_Y),
            0x98 => entry(code, "TYA", 1, 2, AddressingMode::NoneAddressing),
            0x99 => entry(code, "STA", 3, 5, AddressingMode::Absolute_Y),
            0x9a => entry(code, "TXS", 1, 2, AddressingMode::NoneAddressing),
            0x9d => entry(code, "STA", 3, 5, AddressingMode::Absolute_X),
            _ => None,
        }
    } else if code < 0xb0 {
        match code {
            0xa0 => entry(code, "LDY", 2, 2, AddressingMode::Immediate),
            0xa1 => entry(code, "LDA", 2, 6, AddressingMode::Indirect_X),
            0xa2 => entry(code, "LDX", 2, 2, AddressingMode::Immediate),
            0xa4 => entry(code, "LDY", 2, 3, AddressingMode::ZeroPage),
            0xa5 => entry(code, "LDA", 2, 3, AddressingMode::ZeroPage),
            0xa6 => entry(code, "LDX", 2, 3, AddressingMode::ZeroPage),
            0xa8 => entry(code, "TAY", 1, 2, AddressingMode::NoneAddressing),
            0xa9 => entry(code, "LDA", 2, 2, AddressingMode::Immediate),
            0xaa => entry(code, "TAX", 1, 2, AddressingMode::NoneAddressing),
            0xac => entry(code, "LDY", 3, 4, AddressingMode::Absolute),
            0xad => entry(code, "LDA", 3, 4, AddressingMode::Absolute),
            0xae => entry(code, "LDX", 3, 4, AddressingMode::Absolute),
            _ => None,
        }
    } else if code < 0xc0 {
        match code {
            0xb0 => entry(code, "BCS", 2, 2, AddressingMode::NoneAddressing),
            0xb1 => entry(code, "LDA", 2, 5, AddressingMode::Indirect_Y),
            0xb4 => entry(code, "LDY", 2, 4, AddressingMode::ZeroPage_X),
            0xb5 => entry(code, "LDA", 2, 4, AddressingMode::ZeroPage_X),
            0xb6 => entry(code, "LDX", 2, 4, AddressingMode::ZeroPage_Y),
            0xb8 => entry(code, "CLV", 1, 2, AddressingMode::NoneAddressing),
            0xb9 => entry(code, "LDA", 3, 4, AddressingMode::Absolute_Y),
            0xba => entry(code, "TSX", 1, 2, AddressingMode::NoneAddressing),
            0xbc => entry(code, "LDY", 3, 4, AddressingMode::Absolute_X),
            0xbd => entry(code, "LDA", 3, 4, AddressingMode::Absolute_X),
            0xbe => entry(code, "LDX", 3, 4, AddressingMode::Absolute_Y),
            _ => None,
        }
    } else if code < 0xd0 {
        match code {
            0xc0 => entry(code, "CPY", 2, 2, AddressingMode::Immediate),
            0xc1 => entry(code, "CMP", 2, 6, AddressingMode::Indirect_X),
            0xc4 => entry(code, "CPY", 2, 3, AddressingMode::ZeroPage),
            0xc5 => entry(code, "CMP", 2, 3, AddressingMode::ZeroPage),
            0xc6 => entry(code, "DEC", 2, 5, AddressingMode::ZeroPage),
            0xc8 => entry(code, "INY", 1, 2, AddressingMode::NoneAddressing),
            0xc9 => entry(code, "CMP", 2, 2, AddressingMode::Immediate),
            0xca => entry(code, "DEX", 1, 2, AddressingMode::NoneAddressing),
            0xcc => entry(code, "CPY", 3, 4, AddressingMode::Absolute),
            0xcd => entry(code, "CMP", 3, 4, AddressingMode::Absolute),
            0xce => entry(code, "DEC", 3, 6, AddressingMode::Absolute),
            _ => None,
        }
    } else if code < 0xe0 {
        match code {
            0xd0 => entry(code, "BNE", 2, 2, AddressingMode::NoneAddressing),
            0xd1 => entry(code, "CMP", 2, 5, AddressingMode::Indirect_Y),
            0xd5 => entry(code, "CMP", 2, 4, AddressingMode::ZeroPage_X),
            0xd6 => entry(code, "DEC", 2, 6, AddressingMode::ZeroPage_X),
            0xd8 => entry(code, "CLD", 1, 2, AddressingMode::NoneAddressing),
            0xd9 => entry(code, "CMP", 3, 4, AddressingMode::Absolute_Y),
            0xdd => entry(code, "CMP", 3, 4, AddressingMode::Absolute_X),
            0xde => entry(code, "DEC", 3, 7, AddressingMode::Absolute_X),
            _ => None,
        }
    } else if code < 0xf0 {
        match code {
            0xe0 => entry(code, "CPX", 2, 2, AddressingMode::Immediate),
            0xe1 => entry(code, "SBC", 2, 6, AddressingMode::Indirect_X),
            0xe4 => entry(code, "CPX", 2, 3, AddressingMode::ZeroPage),
            0xe5 => entry(code, "SBC", 2, 3, AddressingMode::ZeroPage),
            0xe6 => entry(code, "INC", 2, 5, AddressingMode::ZeroPage),
            0xe8 => entry(code, "INX", 1, 2, AddressingMode::NoneAddressing),
            0xe9 => entry(code, "SBC", 2, 2, AddressingMode::Immediate),
            0xea => entry(code, "NOP", 1, 2, AddressingMode::NoneAddressing),
            0xec => entry(code, "CPX", 3, 4, AddressingMode::Absolute),
            0xed => entry(code, "SBC", 3, 4, AddressingMode::Absolute),
            0xee => entry(code, "INC", 3, 6, AddressingMode::Absolute),
            _ => None,
        }
    } else {
        match code {
            0xf0 => entry(code, "BEQ", 2, 2, AddressingMode::NoneAddressing),
            0xf1 => entry(code, "SBC", 2, 5, AddressingMode::Indirect_Y),
            0xf5 => entry(code, "SBC", 2, 4, AddressingMode::ZeroPage_X),
            0xf6 => entry(code, "INC", 2, 6, AddressingMode::ZeroPage_X),
            0xf8 => entry(code, "SED", 1, 2, AddressingMode::NoneAddressing),
            0xf9 => entry(code, "SBC", 3, 4, AddressingMode::Absolute_Y),
            0xfd => entry(code, "SBC", 3, 4, AddressingMode::Absolute_X),
            0xfe => entry(code, "INC", 3, 7, AddressingMode::Absolute_X),
            _ => None,
        }
    }
}

/// Whether `code` is in the table.
pub open spec fn recognized(code: u8) -> bool {
    descriptor(code) is Some
}

/// Every descriptor carries its own opcode byte and a length of one, two or
/// three bytes: two where the operand is one byte, three where it is a word.
pub proof fn lemma_descriptor_shape(code: u8)
    requires
        recognized(code),
    ensures
        descriptor(code)->0.code == code,
        1 <= descriptor(code)->0.len <= 3,
        match descriptor(code)->0.mode {
            AddressingMode::Immediate
            | AddressingMode::ZeroPage
            | AddressingMode::ZeroPage_X
            | AddressingMode::ZeroPage_Y
            | AddressingMode::Indirect_X
            | AddressingMode::Indirect_Y => descriptor(code)->0.len == 2,
            AddressingMode::Absolute
            | AddressingMode::Absolute_X
            | AddressingMode::Absolute_Y => descriptor(code)->0.len == 3,
            AddressingMode::NoneAddressing => true,
        },
{
    reveal(descriptor);
}

/// Looks `code` up in the table, in constant time.
pub fn lookup(code: u8) -> (r: Option<OpCode>)
    ensures
        r == descriptor(code),
{
    reveal(descriptor);
    if code < 0x10 {
        match code {
            0x00 => Some(OpCode::new(code, "BRK", 1, 7, AddressingMode::NoneAddressing)),
            0x01 => Some(OpCode::new(code, "ORA", 2, 6, AddressingMode::Indirect_X)),
            0x05 => Some(OpCode::new(code, "ORA", 2, 3, AddressingMode::ZeroPage)),
            0x06 => Some(OpCode::new(code, "ASL", 2, 5, AddressingMode::ZeroPage)),
            0x08 => Some(OpCode::new(code, "PHP", 1, 3, AddressingMode::NoneAddressing)),
            0x09 => Some(OpCode::new(code, "ORA", 2, 2, AddressingMode::Immediate)),
            0x0a => Some(OpCode::new(code, "ASL", 1, 2, AddressingMode::NoneAddressing)),
            0x0d => Some(OpCode::new(code, "ORA", 3, 4, AddressingMode::Absolute)),
            0x0e => Some(OpCode::new(code, "ASL", 3, 6, AddressingMode::Absolute)),
            _ => None,
        }
    } else if code < 0x20 {
        match code {
            0x10 => Some(OpCode::new(code, "BPL", 2, 2, AddressingMode::NoneAddressing)),
            0x11 => Some(OpCode::new(code, "ORA", 2, 5, AddressingMode::Indirect_Y)),
            0x15 => Some(OpCode::new(code, "ORA", 2, 4, AddressingMode::ZeroPage_X)),
            0x16 => Some(OpCode::new(code, "ASL", 2, 6, AddressingMode::ZeroPage_X)),
            0x18 => Some(OpCode::new(code, "CLC", 1, 2, AddressingMode::NoneAddressing)),
            0x19 => Some(OpCode::new(code, "ORA", 3, 4, AddressingMode::Absolute_Y)),
            0x1d => Some(OpCode::new(code, "ORA", 3, 4, AddressingMode::Absolute_X)),
            0x1e => Some(OpCode::new(code, "ASL", 3, 7, AddressingMode::Absolute_X)),
            _ => None,
        }
    } else if code < 0x30 {
        match code {
            0x20 => Some(OpCode::new(code, "JSR", 3, 6, AddressingMode::NoneAddressing)),
            0x21 => Some(OpCode::new(code, "AND", 2, 6, AddressingMode::Indirect_X)),
            0x24 => Some(OpCode::new(code, "BIT", 2, 3, AddressingMode::ZeroPage)),
            0x25 => Some(OpCode::new(code, "AND", 2, 3, AddressingMode::ZeroPage)),
            0x26 => Some(OpCode::new(code, "ROL", 2, 5, AddressingMode::ZeroPage)),
            0x28 => Some(OpCode::new(code, "PLP", 1, 4, AddressingMode::NoneAddressing)),
            0x29 => Some(OpCode::new(code, "AND", 2, 2, AddressingMode::Immediate)),
            0x2a => Some(OpCode::new(code, "ROL", 1, 2, AddressingMode::NoneAddressing)),
            0x2c => Some(OpCode::new(code, "BIT", 3, 4, AddressingMode::Absolute)),
            0x2d => Some(OpCode::new(code, "AND", 3, 4, AddressingMode::Absolute)),
            0x2e => Some(OpCode::new(code, "ROL", 3, 6, AddressingMode::Absolute)),
            _ => None,
        }
    } else if code < 0x40 {
        match code {
            0x30 => Some(OpCode::new(code, "BMI", 2, 2, AddressingMode::NoneAddressing)),
            0x31 => Some(OpCode::new(code, "AND", 2, 5, AddressingMode::Indirect_Y)),
            0x35 => Some(OpCode::new(code, "AND", 2, 4, AddressingMode::ZeroPage_X)),
            0x36 => Some(OpCode::new(code, "ROL", 2, 6, AddressingMode::ZeroPage_X)),
            0x38 => Some(OpCode::new(code, "SEC", 1, 2, AddressingMode::NoneAddressing)),
            0x39 => Some(OpCode::new(code, "AND", 3, 4, AddressingMode::Absolute_Y)),
            0x3d => Some(OpCode::new(code, "AND", 3, 4, AddressingMode::Absolute_X)),
            0x3e => Some(OpCode::new(code, "ROL", 3, 7, AddressingMode::Absolute_X)),
            _ => None,
        }
    } else if code < 0x50 {
        match code {
            0x40 => Some(OpCode::new(code, "RTI", 1, 6, AddressingMode::NoneAddressing)),
            0x41 => Some(OpCode::new(code, "EOR", 2, 6, AddressingMode::Indirect_X)),
            0x45 => Some(OpCode::new(code, "EOR", 2, 3, AddressingMode::ZeroPage)),
            0x46 => Some(OpCode::new(code, "LSR", 2, 5, AddressingMode::ZeroPage)),
            0x48 => Some(OpCode::new(code, "PHA", 1, 3, AddressingMode::NoneAddressing)),
            0x49 => Some(OpCode::new(code, "EOR", 2, 2, AddressingMode::Immediate)),
            0x4a => Some(OpCode::new(code, "LSR", 1, 2, AddressingMode::NoneAddressing)),
            0x4c => Some(OpCode::new(code, "JMP", 3, 3, AddressingMode::NoneAddressing)),
            0x4d => Some(OpCode::new(code, "EOR", 3, 4, AddressingMode::Absolute)),
            0x4e => Some(OpCode::new(code, "LSR", 3, 6, AddressingMode::Absolute)),
            _ => None,
        }
    } else if code < 0x60 {
        match code {
            0x50 => Some(OpCode::new(code, "BVC", 2, 2, AddressingMode::NoneAddressing)),
            0x51 => Some(OpCode::new(code, "EOR", 2, 5, AddressingMode::Indirect_Y)),
            0x55 => Some(OpCode::new(code, "EOR", 2, 4, AddressingMode::ZeroPage_X)),
            0x56 => Some(OpCode::new(code, "LSR", 2, 6, AddressingMode::ZeroPage_X)),
            0x58 => Some(OpCode::new(code, "CLI", 1, 2, AddressingMode::NoneAddressing)),
            0x59 => Some(OpCode::new(code, "EOR", 3, 4, AddressingMode::Absolute_Y)),
            0x5d => Some(OpCode::new(code, "EOR", 3, 4, AddressingMode::Absolute_X)),
            0x5e => Some(OpCode::new(code, "LSR", 3, 7, AddressingMode::Absolute_X)),
            _ => None,
        }
    } else if code < 0x70 {
        match code {
            0x60 => Some(OpCode::new(code, "RTS", 1, 6, AddressingMode::NoneAddressing)),
            0x61 => Some(OpCode::new(code, "ADC", 2, 6, AddressingMode::Indirect_X)),
            0x65 => Some(OpCode::new(code, "ADC", 2, 3, AddressingMode::ZeroPage)),
            0x66 => Some(OpCode::new(code, "ROR", 2, 5, AddressingMode::ZeroPage)),
            0x68 => Some(OpCode::new(code, "PLA", 1, 4, AddressingMode::NoneAddressing)),
            0x69 => Some(OpCode::new(code, "ADC", 2, 2, AddressingMode::Immediate)),
            0x6a => Some(OpCode::new(code, "ROR", 1, 2, AddressingMode::NoneAddressing)),
            0x6c => Some(OpCode::new(code, "JMP", 3, 5, AddressingMode::NoneAddressing)),
            0x6d => Some(OpCode::new(code, "ADC", 3, 4, AddressingMode::Absolute)),
            0x6e => Some(OpCode::new(code, "ROR", 3, 6, AddressingMode::Absolute)),
            _ => None,
        }
    } else if code < 0x80 {
        match code {
            0x70 => Some(OpCode::new(code, "BVS", 2, 2, AddressingMode::NoneAddressing)),
            0x71 => Some(OpCode::new(code, "ADC", 2, 5, AddressingMode::Indirect_Y)),
            0x75 => Some(OpCode::new(code, "ADC", 2, 4, AddressingMode::ZeroPage_X)),
            0x76 => Some(OpCode::new(code, "ROR", 2, 6, AddressingMode::ZeroPage_X)),
            0x78 => Some(OpCode::new(code, "SEI", 1, 2, AddressingMode::NoneAddressing)),
            0x79 => Some(OpCode::new(code, "ADC", 3, 4, AddressingMode::Absolute_Y)),
            0x7d => Some(OpCode::new(code, "ADC", 3, 4, AddressingMode::Absolute_X)),
            0x7e => Some(OpCode::new(code, "ROR", 3, 7, AddressingMode::Absolute_X)),
            _ => None,
        }
    } else if code < 0x90 {
        match code {
            0x81 => Some(OpCode::new(code, "STA", 2, 6, AddressingMode::Indirect_X)),
            0x84 => Some(OpCode::new(code, "STY", 2, 3, AddressingMode::ZeroPage)),
            0x85 => Some(OpCode::new(code, "STA", 2, 3, AddressingMode::ZeroPage)),
            0x86 => Some(OpCode::new(code, "STX", 2, 3, AddressingMode::ZeroPage)),
            0x88 => Some(OpCode::new(code, "DEY", 1, 2, AddressingMode::NoneAddressing)),
            0x8a => Some(OpCode::new(code, "TXA", 1, 2, AddressingMode::NoneAddressing)),
            0x8c => Some(OpCode::new(code, "STY", 3, 4, AddressingMode::Absolute)),
            0x8d => Some(OpCode::new(code, "STA", 3, 4, AddressingMode::Absolute)),
            0x8e => Some(OpCode::new(code, "STX", 3, 4, AddressingMode::Absolute)),
            _ => None,
        }
    } else if code < 0xa0 {
        match code {
            0x90 => Some(OpCode::new(code, "BCC", 2, 2, AddressingMode::NoneAddressing)),
            0x91 => Some(OpCode::new(code, "STA", 2, 6, AddressingMode::Indirect_Y)),
            0x94 => Some(OpCode::new(code, "STY", 2, 4, AddressingMode::ZeroPage_X)),
            0x95 => Some(OpCode::new(code, "STA", 2, 4, AddressingMode::ZeroPage_X)),
            0x96 => Some(OpCode::new(code, "STX", 2, 4, AddressingMode::ZeroPage_Y)),
            0x98 => Some(OpCode::new(code, "TYA", 1, 2, AddressingMode::NoneAddressing)),
            0x99 => Some(OpCode::new(code, "STA", 3, 5, AddressingMode::Absolute_Y)),
            0x9a => Some(OpCode::new(code, "TXS", 1, 2, AddressingMode::NoneAddressing)),
            0x9d => Some(OpCode::new(code, "STA", 3, 5, AddressingMode::Absolute_X)),
            _ => None,
        }
    } else if code < 0xb0 {
        match code {
            0xa0 => Some(OpCode::new(code, "LDY", 2, 2, AddressingMode::Immediate)),
            0xa1 => Some(OpCode::new(code, "LDA", 2, 6, AddressingMode::Indirect_X)),
            0xa2 => Some(OpCode::new(code, "LDX", 2, 2, AddressingMode::Immediate)),
            0xa4 => Some(OpCode::new(code, "LDY", 2, 3, AddressingMode::ZeroPage)),
            0xa5 => Some(OpCode::new(code, "LDA", 2, 3, AddressingMode::ZeroPage)),
            0xa6 => Some(OpCode::new(code, "LDX", 2, 3, AddressingMode::ZeroPage)),
            0xa8 => Some(OpCode::new(code, "TAY", 1, 2, AddressingMode::NoneAddressing)),
            0xa9 => Some(OpCode::new(code, "LDA", 2, 2, AddressingMode::Immediate)),
            0xaa => Some(OpCode::new(code, "TAX", 1, 2, AddressingMode::NoneAddressing)),
            0xac => Some(OpCode::new(code, "LDY", 3, 4, AddressingMode::Absolute)),
            0xad => Some(OpCode::new(code, "LDA", 3, 4, AddressingMode::Absolute)),
            0xae => Some(OpCode::new(code, "LDX", 3, 4, AddressingMode::Absolute)),
            _ => None,
        }
    } else if code < 0xc0 {
        match code {
            0xb0 => Some(OpCode::new(code, "BCS", 2, 2, AddressingMode::NoneAddressing)),
            0xb1 => Some(OpCode::new(code, "LDA", 2, 5, AddressingMode::Indirect_Y)),
            0xb4 => Some(OpCode::new(code, "LDY", 2, 4, AddressingMode::ZeroPage_X)),
            0xb5 => Some(OpCode::new(code, "LDA", 2, 4, AddressingMode::ZeroPage_X)),
            0xb6 => Some(OpCode::new(code, "LDX", 2, 4, AddressingMode::ZeroPage_Y)),
            0xb8 => Some(OpCode::new(code, "CLV", 1, 2, AddressingMode::NoneAddressing)),
            0xb9 => Some(OpCode::new(code, "LDA", 3, 4, AddressingMode::Absolute_Y)),
            0xba => Some(OpCode::new(code, "TSX", 1, 2, AddressingMode::NoneAddressing)),
            0xbc => Some(OpCode::new(code, "LDY", 3, 4, AddressingMode::Absolute_X)),
            0xbd => Some(OpCode::new(code, "LDA", 3, 4, AddressingMode::Absolute_X)),
            0xbe => Some(OpCode::new(code, "LDX", 3, 4, AddressingMode::Absolute_Y)),
            _ => None,
        }
    } else if code < 0xd0 {
        match code {
            0xc0 => Some(OpCode::new(code, "CPY", 2, 2, AddressingMode::Immediate)),
            0xc1 => Some(OpCode::new(code, "CMP", 2, 6, AddressingMode::Indirect_X)),
            0xc4 => Some(OpCode::new(code, "CPY", 2, 3, AddressingMode::ZeroPage)),
            0xc5 => Some(OpCode::new(code, "CMP", 2, 3, AddressingMode::ZeroPage)),
            0xc6 => Some(OpCode::new(code, "DEC", 2, 5, AddressingMode::ZeroPage)),
            0xc8 => Some(OpCode::new(code, "INY", 1, 2, AddressingMode::NoneAddressing)),
            0xc9 => Some(OpCode::new(code, "CMP", 2, 2, AddressingMode::Immediate)),
            0xca => Some(OpCode::new(code, "DEX", 1, 2, AddressingMode::NoneAddressing)),
            0xcc => Some(OpCode::new(code, "CPY", 3, 4, AddressingMode::Absolute)),
            0xcd => Some(OpCode::new(code, "CMP", 3, 4, AddressingMode::Absolute)),
            0xce => Some(OpCode::new(code, "DEC", 3, 6, AddressingMode::Absolute)),
            _ => None,
        }
    } else if code < 0xe0 {
        match code {
            0xd0 => Some(OpCode::new(code, "BNE", 2, 2, AddressingMode::NoneAddressing)),
            0xd1 => Some(OpCode::new(code, "CMP", 2, 5, AddressingMode::Indirect_Y)),
            0xd5 => Some(OpCode::new(code, "CMP", 2, 4, AddressingMode::ZeroPage_X)),
            0xd6 => Some(OpCode::new(code, "DEC", 2, 6, AddressingMode::ZeroPage_X)),
            0xd8 => Some(OpCode::new(code, "CLD", 1, 2, AddressingMode::NoneAddressing)),
            0xd9 => Some(OpCode::new(code, "CMP", 3, 4, AddressingMode::Absolute_Y)),
            0xdd => Some(OpCode::new(code, "CMP", 3, 4, AddressingMode::Absolute_X)),
            0xde => Some(OpCode::new(code, "DEC", 3, 7, AddressingMode::Absolute_X)),
            _ => None,
        }
    } else if code < 0xf0 {
        match code {
            0xe0 => Some(OpCode::new(code, "CPX", 2, 2, AddressingMode::Immediate)),
            0xe1 => Some(OpCode::new(code, "SBC", 2, 6, AddressingMode::Indirect_X)),
            0xe4 => Some(OpCode::new(code, "CPX", 2, 3, AddressingMode::ZeroPage)),
            0xe5 => Some(OpCode::new(code, "SBC", 2, 3, AddressingMode::ZeroPage)),
            0xe6 => Some(OpCode::new(code, "INC", 2, 5, AddressingMode::ZeroPage)),
            0xe8 => Some(OpCode::new(code, "INX", 1, 2, AddressingMode::NoneAddressing)),
            0xe9 => Some(OpCode::new(code, "SBC", 2, 2, AddressingMode::Immediate)),
            0xea => Some(OpCode::new(code, "NOP", 1, 2, AddressingMode::NoneAddressing)),
            0xec => Some(OpCode::new(code, "CPX", 3, 4, AddressingMode::Absolute)),
            0xed => Some(OpCode::new(code, "SBC", 3, 4, AddressingMode::Absolute)),
            0xee => Some(OpCode::new(code, "INC", 3, 6, AddressingMode::Absolute)),
            _ => None,
        }
    } else {
        match code {
            0xf0 => Some(OpCode::new(code, "BEQ", 2, 2, AddressingMode::NoneAddressing)),
            0xf1 => Some(OpCode::new(code, "SBC", 2, 5, AddressingMode::Indirect_Y)),
            0xf5 => Some(OpCode::new(code, "SBC", 2, 4, AddressingMode::ZeroPage_X)),
            0xf6 => Some(OpCode::new(code, "INC", 2, 6, AddressingMode::ZeroPage_X)),
            0xf8 => Some(OpCode::new(code, "SED", 1, 2, AddressingMode::NoneAddressing)),
            0xf9 => Some(OpCode::new(code, "SBC", 3, 4, AddressingMode::Absolute_Y)),
            0xfd => Some(OpCode::new(code, "SBC", 3, 4, AddressingMode::Absolute_X)),
            0xfe => Some(OpCode::new(code, "INC", 3, 7, AddressingMode::Absolute_X)),
            _ => None,
        }
    }
}

} // verus!
