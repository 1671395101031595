use vstd::prelude::*;

verus! {

/// Bit 7 of the flags byte: the last result was zero.
pub const ZERO_FLAG: u8 = 0x80;

/// Bit 6 of the flags byte: the last operation was a subtraction.
pub const SUBTRACT_FLAG: u8 = 0x40;

/// Bit 5 of the flags byte: carry or borrow out of bit 3 (bit 11 for words).
pub const HALF_CARRY_FLAG: u8 = 0x20;

/// Bit 4 of the flags byte: carry or borrow out of the top bit.
pub const CARRY_FLAG: u8 = 0x10;

/// The four condition flags, taken out of the flags byte.
#[derive(Clone, Copy, Debug, PartialEq, Eq, Structural)]
pub struct Flags {
    pub zero: bool,
    pub subtract: bool,
    pub half_carry: bool,
    pub carry: bool,
}

/// One when the condition holds, zero when it does not.
pub open spec fn bit(on: bool) -> int {
    if on {
        1
    } else {
        0
    }
}

/// In a byte, a flag's mask tests the binary digit of its weight, and the
/// mask `0x0F` keeps the remainder by 16.
pub proof fn lemma_flag_masks(byte: u8)
    by (bit_vector)
    ensures
        (byte & 0x80u8 != 0u8) == ((byte / 128u8) % 2u8 == 1u8),
        (byte & 0x40u8 != 0u8) == ((byte / 64u8) % 2u8 == 1u8),
        (byte & 0x20u8 != 0u8) == ((byte / 32u8) % 2u8 == 1u8),
        (byte & 0x10u8 != 0u8) == ((byte / 16u8) % 2u8 == 1u8),
        byte & 0x0Fu8 == byte % 16u8,
{
}

/// Setting a flag's bit in a byte that does not have it adds the flag's weight.
pub proof fn lemma_flag_set(byte: u8, mask: u8)
    by (bit_vector)
    requires
        mask == 0x80u8 || mask == 0x40u8 || mask == 0x20u8 || mask == 0x10u8,
        byte & mask == 0u8,
    ensures
        byte | mask == byte + mask,
        (byte | mask) & 0x0Fu8 == byte & 0x0Fu8,
{
}

impl Flags {
    /// The flags that a flags byte holds in its upper four bits.
    #[verifier::opaque]
    pub open spec fn of_byte(byte: u8) -> Flags {
        Flags {
            zero: (byte / 128) % 2 == 1,
            subtract: (byte / 64) % 2 == 1,
            half_carry: (byte / 32) % 2 == 1,
            carry: (byte / 16) % 2 == 1,
        }
    }

    /// The weight of the four flags in the flags byte.
    pub open spec fn weight(self) -> int {
        128 * bit(self.zero) + 64 * bit(self.subtract) + 32 * bit(self.half_carry) + 16 * bit(
            self.carry,
        )
    }

    /// The flags byte that holds these flags and keeps the low four bits of `previous`.
    #[verifier::opaque]
    pub open spec fn into_byte(self, previous: u8) -> u8 {
        (self.weight() + previous % 16) as u8
    }

    /// Reads the four flags out of a flags byte.
    pub fn from_byte(byte: u8) -> (flags: Flags)
        ensures
            flags == Flags::of_byte(byte),
    {
        proof {
            reveal(Flags::of_byte);
            lemma_flag_masks(byte);
        }
        Flags {
            zero: byte & ZERO_FLAG != 0,
            subtract: byte & SUBTRACT_FLAG != 0,
            half_carry: byte & HALF_CARRY_FLAG != 0,
            carry: byte & CARRY_FLAG != 0,
        }
    }

    /// Writes the four flags into the upper bits of a flags byte whose low
    /// four bits are those of `previous`.
    pub fn to_byte(self, previous: u8) -> (byte: u8)
        ensures
            byte == self.into_byte(previous),
    {
        let mut byte: u8 = previous & 0x0F;
        proof {
            reveal(Flags::into_byte);
            lemma_flag_masks(previous);
        }
        if self.zero {
            proof {
                lemma_flag_masks(byte);
                lemma_flag_set(byte, ZERO_FLAG);
            }
            byte = byte | ZERO_FLAG;
        }
        if self.subtract {
            proof {
                lemma_flag_masks(byte);
                lemma_flag_set(byte, SUBTRACT_FLAG);
            }
            byte = byte | SUBTRACT_FLAG;
        }
        if self.half_carry {
            proof {
                lemma_flag_masks(byte);
                lemma_flag_set(byte, HALF_CARRY_FLAG);
            }
            byte = byte | HALF_CARRY_FLAG;
        }
        if self.carry {
            proof {
                lemma_flag_masks(byte);
                lemma_flag_set(byte, CARRY_FLAG);
            }
            byte = byte | CARRY_FLAG;
        }
        byte
    }
}

/// Packing flags into a byte and reading them back gives the same flags,
/// whatever the low four bits were, and leaves those bits as they were.
/// Reading the flags of a byte and packing them over the same byte gives
/// the byte back.
pub proof fn lemma_flags_round_trip(flags: Flags, previous: u8)
    ensures
        Flags::of_byte(flags.into_byte(previous)) == flags,
        flags.into_byte(previous) % 16 == previous % 16,
        Flags::of_byte(previous).into_byte(previous) == previous,
{
    reveal(Flags::of_byte);
    reveal(Flags::into_byte);
}

} // verus!
