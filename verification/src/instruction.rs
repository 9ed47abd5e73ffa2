//! MIPS I instruction word and its field accessors.

use vstd::prelude::*;

verus! {

/// Index of a general-purpose register; always below 32.
#[derive(Clone, Copy, Debug, PartialEq, Eq, Structural)]
pub struct RegisterIndex(pub u32);

/// A fetched 32-bit instruction word.
#[derive(Clone, Copy, Debug, PartialEq, Eq, Structural)]
pub struct Instruction(pub u32);

/// Any 5-bit field is a valid register index.
proof fn lemma_five_bits_below_32(x: u32)
    by (bit_vector)
    ensures
        x & 0x1F < 32,
{
}

impl Instruction {
    /// Primary opcode: bits 31:26.
    pub fn function(self) -> (r: u32)
        ensures
            r == self.0 >> 26,
            r < 64,
    {
        proof {
            let op = self.0;
            assert(op >> 26 < 64) by (bit_vector);
        }
        self.0 >> 26
    }

    /// Source register: bits 25:21.
    pub fn s(self) -> (r: RegisterIndex)
        ensures
            r.0 == (self.0 >> 21) & 0x1F,
            r.0 < 32,
    {
        proof {
            lemma_five_bits_below_32(self.0 >> 21);
        }
        RegisterIndex((self.0 >> 21) & 0x1F)
    }

    /// Target register: bits 20:16.
    pub fn t(self) -> (r: RegisterIndex)
        ensures
            r.0 == (self.0 >> 16) & 0x1F,
            r.0 < 32,
    {
        proof {
            lemma_five_bits_below_32(self.0 >> 16);
        }
        RegisterIndex((self.0 >> 16) & 0x1F)
    }

    /// Destination register: bits 15:11.
    pub fn d(self) -> (r: RegisterIndex)
        ensures
            r.0 == (self.0 >> 11) & 0x1F,
            r.0 < 32,
    {
        proof {
            lemma_five_bits_below_32(self.0 >> 11);
        }
        RegisterIndex((self.0 >> 11) & 0x1F)
    }

    /// Secondary opcode: bits 5:0.
    pub fn subfunction(self) -> (r: u32)
        ensures
            r == self.0 & 0x3F,
    {
        self.0 & 0x3F
    }

    /// Shift amount: bits 10:6.
    pub fn shift(self) -> (r: u32)
        ensures
            r == (self.0 >> 6) & 0x1F,
            r < 32,
    {
        proof {
            lemma_five_bits_below_32(self.0 >> 6);
        }
        (self.0 >> 6) & 0x1F
    }

    /// Immediate: bits 15:0, zero-extended.
    pub fn imm(self) -> (r: u32)
        ensures
            r == self.0 & 0xFFFF,
    {
        self.0 & 0xFFFF
    }

    /// Immediate: bits 15:0, sign-extended to 32 bits.
    pub fn imm_se(self) -> (r: u32)
        ensures
            r == imm_se_spec(self.0),
    {
        let v = (self.0 & 0xFFFF) as u16;
        proof {
            let op = self.0;
            assert(((op & 0xFFFF) as u16) as i16 as u32 == (if op & 0x8000 == 0 {
                op & 0xFFFF
            } else {
                (op & 0xFFFF) | 0xFFFF0000u32
            })) by (bit_vector);
        }
        (v as i16) as u32
    }

    /// Jump target: bits 25:0.
    pub fn imm_jump(self) -> (r: u32)
        ensures
            r == self.0 & 0x3FFFFFF,
    {
        self.0 & 0x3FFFFFF
    }

    /// Coprocessor opcode: bits 25:21.
    pub fn cop_opcode(self) -> (r: u32)
        ensures
            r == (self.0 >> 21) & 0x1F,
            r < 32,
    {
        self.s().0
    }

    /// Coprocessor command: bits 24:0.
    pub fn imm_cop(self) -> (r: u32)
        ensures
            r == self.0 & 0x1FFFFFF,
    {
        self.0 & 0x1FFFFFF
    }
}

/// Bits 15:0 of `op`, sign-extended to 32 bits.
pub open spec fn imm_se_spec(op: u32) -> u32 {
    if op & 0x8000 == 0 {
        op & 0xFFFF
    } else {
        (op & 0xFFFF) | 0xFFFF0000u32
    }
}

} // verus!
