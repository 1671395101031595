use vstd::prelude::*;
use crate::flags::Flags;
use crate::registers::{Reg16, Reg8};

verus! {

/// Where an instruction finds or puts a byte: in a register, or in memory at
/// the address that a register pair holds.
#[derive(Clone, Copy, Debug, PartialEq, Eq, Structural)]
pub enum Operand8 {
    Reg(Reg8),
    Mem(Reg16),
}

/// A register of either width, for the instructions that count one up or down.
#[derive(Clone, Copy, Debug, PartialEq, Eq, Structural)]
pub enum Register {
    Byte(Reg8),
    Word(Reg16),
}

/// What a conditional jump, call or return asks of the flags.
#[derive(Clone, Copy, Debug, PartialEq, Eq, Structural)]
pub enum Condition {
    NotZero,
    Zero,
    NotCarry,
    Carry,
}

/// The three bits of an opcode that name an operand are an index below 8,
/// and so are the three above them.
pub proof fn lemma_opcode_fields(opcode: u8)
    by (bit_vector)
    ensures
        opcode & 0x07u8 == opcode % 8u8,
        (opcode >> 3u8) & 0x07u8 == (opcode / 8u8) % 8u8,
        opcode >> 3u8 == opcode / 8u8,
        opcode >> 6u8 == opcode / 64u8,
{
}

impl Operand8 {
    /// The operand table of the instruction encoding:
    /// B, C, D, E, H, L, the byte at HL, A.
    pub open spec fn at(index: u8) -> Operand8 {
        if index == 0 {
            Operand8::Reg(Reg8::B)
        } else if index == 1 {
            Operand8::Reg(Reg8::C)
        } else if index == 2 {
            Operand8::Reg(Reg8::D)
        } else if index == 3 {
            Operand8::Reg(Reg8::E)
        } else if index == 4 {
            Operand8::Reg(Reg8::H)
        } else if index == 5 {
            Operand8::Reg(Reg8::L)
        } else if index == 6 {
            Operand8::Mem(Reg16::HL)
        } else {
            Operand8::Reg(Reg8::A)
        }
    }

    /// The operand that the low three bits of `bits` name.
    pub fn from_index(bits: u8) -> (operand: Operand8)
        ensures
            operand == Operand8::at(bits % 8),
    {
        proof {
            lemma_opcode_fields(bits);
        }
        match bits & 0x07 {
            0 => Operand8::Reg(Reg8::B),
            1 => Operand8::Reg(Reg8::C),
            2 => Operand8::Reg(Reg8::D),
            3 => Operand8::Reg(Reg8::E),
            4 => Operand8::Reg(Reg8::H),
            5 => Operand8::Reg(Reg8::L),
            6 => Operand8::Mem(Reg16::HL),
            _ => Operand8::Reg(Reg8::A),
        }
    }
}

impl Condition {
    /// Whether the flags meet the condition.
    pub open spec fn holds(self, flags: Flags) -> bool {
        match self {
            Condition::NotZero => !flags.zero,
            Condition::Zero => flags.zero,
            Condition::NotCarry => !flags.carry,
            Condition::Carry => flags.carry,
        }
    }

    /// The condition table of the instruction encoding: not zero, zero,
    /// no carry, carry.
    pub open spec fn at(index: u8) -> Condition {
        if index == 0 {
            Condition::NotZero
        } else if index == 1 {
            Condition::Zero
        } else if index == 2 {
            Condition::NotCarry
        } else {
            Condition::Carry
        }
    }

    /// Tests the condition on the flags.
    pub fn test(self, flags: Flags) -> (met: bool)
        ensures
            met == self.holds(flags),
    {
        match self {
            Condition::NotZero => !flags.zero,
            Condition::Zero => flags.zero,
            Condition::NotCarry => !flags.carry,
            Condition::Carry => flags.carry,
        }
    }
}

} // verus!
