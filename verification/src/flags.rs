//! The processor status register: eight one-bit flags held in a byte.

use vstd::prelude::*;

verus! {

/// Carry out of bit 7, or the bit shifted out by a shift or rotate.
pub const CARRY: u8 = 0b0000_0001;

/// The last result byte was zero.
pub const ZERO: u8 = 0b0000_0010;

/// Interrupt requests are masked.
pub const INTERRUPT_DISABLE: u8 = 0b0000_0100;

/// Decimal mode; it can be set and cleared but changes no arithmetic.
pub const DECIMAL_MODE: u8 = 0b0000_1000;

/// Set only in copies of the status byte that are pushed on the stack.
pub const BREAK: u8 = 0b0001_0000;

/// The unused bit, kept set in the live register.
pub const BREAK2: u8 = 0b0010_0000;

/// Signed overflow of the last addition or subtraction.
pub const OVERFLOW: u8 = 0b0100_0000;

/// Bit 7 of the last result byte.
pub const NEGATIVE: u8 = 0b1000_0000;

/// Whether every bit of `mask` is set in the status byte `p`.
pub open spec fn has_flag(p: u8, mask: u8) -> bool {
    p & mask == mask
}

/// The status byte `p` with the bits of `mask` set if `on`, cleared if not.
pub open spec fn with_flag(p: u8, mask: u8, on: bool) -> u8 {
    if on {
        p | mask
    } else {
        p & !mask
    }
}

/// The status byte `p` with ZERO and NEGATIVE taken from the result byte `v`.
pub open spec fn with_zero_negative(p: u8, v: u8) -> u8 {
    with_flag(with_flag(p, ZERO, v == 0), NEGATIVE, v & 0x80 != 0)
}

/// The status byte as it is taken back from the stack: BREAK cleared and
/// BREAK2 set.
pub open spec fn pulled_status(b: u8) -> u8 {
    with_flag(with_flag(b, BREAK, false), BREAK2, true)
}

/// The copy of the status byte that goes on the stack: BREAK and BREAK2 set.
pub open spec fn pushed_status(p: u8) -> u8 {
    with_flag(with_flag(p, BREAK, true), BREAK2, true)
}

/// Whether a status byte is one that the live register can hold: BREAK
/// clear and BREAK2 set.
pub open spec fn live_status(p: u8) -> bool {
    !has_flag(p, BREAK) && has_flag(p, BREAK2)
}

/// Whether `mask` is one of the eight flags.
pub open spec fn is_flag(mask: u8) -> bool {
    mask == CARRY || mask == ZERO || mask == INTERRUPT_DISABLE || mask == DECIMAL_MODE || mask
        == BREAK || mask == BREAK2 || mask == OVERFLOW || mask == NEGATIVE
}

/// A flag that was written reads back as written.
pub proof fn lemma_flag_written(p: u8, mask: u8, on: bool)
    requires
        is_flag(mask),
    ensures
        has_flag(with_flag(p, mask, on), mask) == on,
{
    assert(is_flag(mask) ==> (p | mask) & mask == mask && (p & !mask) & mask != mask)
        by (bit_vector);
}

/// Writing one flag leaves every other flag as it was.
pub proof fn lemma_flag_kept(p: u8, mask: u8, on: bool, other: u8)
    requires
        is_flag(mask),
        is_flag(other),
        mask != other,
    ensures
        has_flag(with_flag(p, mask, on), other) == has_flag(p, other),
{
    assert(is_flag(mask) && is_flag(other) && mask != other ==> (p | mask) & other == p & other
        && (p & !mask) & other == p & other) by (bit_vector);
}

/// The status register.
#[derive(Clone, Copy, Debug, PartialEq, Eq)]
pub struct CpuFlags {
    bits: u8,
}

impl View for CpuFlags {
    type V = u8;

    closed spec fn view(&self) -> u8 {
        self.bits
    }
}

impl CpuFlags {
    /// The register that holds exactly the bits of `bits`; each of the eight
    /// bits is a flag, so none is dropped.
    pub fn from_bits_truncate(bits: u8) -> (f: CpuFlags)
        ensures
            f@ == bits,
    {
        CpuFlags { bits }
    }

    /// The register as a byte.
    pub fn bits(&self) -> (b: u8)
        ensures
            b == self@,
    {
        self.bits
    }

    /// Whether every bit of `mask` is set.
    pub fn contains(&self, mask: u8) -> (r: bool)
        ensures
            r == has_flag(self@, mask),
    {
        self.bits & mask == mask
    }

    /// Sets the bits of `mask`.
    pub fn insert(&mut self, mask: u8)
        ensures
            final(self)@ == with_flag(old(self)@, mask, true),
    {
        self.bits = self.bits | mask;
    }

    /// Clears the bits of `mask`.
    pub fn remove(&mut self, mask: u8)
        ensures
            final(self)@ == with_flag(old(self)@, mask, false),
    {
        self.bits = self.bits & !mask;
    }

    /// Sets the bits of `mask` if `value`, clears them if not.
    pub fn set(&mut self, mask: u8, value: bool)
        ensures
            final(self)@ == with_flag(old(self)@, mask, value),
    {
        if value {
            self.insert(mask);
        } else {
            self.remove(mask);
        }
    }
}

} // verus!
