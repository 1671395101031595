use vstd::prelude::*;
use crate::flags::{bit, lemma_flag_masks, Flags};
use crate::registers::lemma_word_bytes;

verus! {

/// A byte result together with the flags the operation leaves.
#[derive(Clone, Copy, Debug, PartialEq, Eq, Structural)]
pub struct AluResult {
    pub value: u8,
    pub flags: Flags,
}

/// A word result together with the flags the operation leaves.
#[derive(Clone, Copy, Debug, PartialEq, Eq, Structural)]
pub struct WordResult {
    pub value: u16,
    pub flags: Flags,
}

/// `a + v + carry_in`, kept to eight bits. Carry: the sum does not fit in a
/// byte. Half-carry: the sum of the low nibbles does not fit in a nibble.
#[verifier::opaque]
pub open spec fn spec_add8(a: u8, v: u8, carry_in: bool) -> AluResult {
    let sum = a + v + bit(carry_in);
    AluResult {
        value: (sum % 256) as u8,
        flags: Flags {
            zero: sum % 256 == 0,
            subtract: false,
            half_carry: a % 16 + v % 16 + bit(carry_in) > 15,
            carry: sum > 255,
        },
    }
}

/// `a - v - borrow_in`, kept to eight bits. Carry: what is taken away is more
/// than `a`. Half-carry: the same, of the low nibbles.
#[verifier::opaque]
pub open spec fn spec_sub8(a: u8, v: u8, borrow_in: bool) -> AluResult {
    let difference = a - v - bit(borrow_in);
    AluResult {
        value: (difference % 256) as u8,
        flags: Flags {
            zero: difference % 256 == 0,
            subtract: true,
            half_carry: v % 16 + bit(borrow_in) > a % 16,
            carry: v + bit(borrow_in) > a,
        },
    }
}

#[verifier::opaque]
pub open spec fn spec_and8(a: u8, v: u8) -> AluResult {
    AluResult {
        value: a & v,
        flags: Flags { zero: a & v == 0, subtract: false, half_carry: true, carry: false },
    }
}

#[verifier::opaque]
pub open spec fn spec_or8(a: u8, v: u8) -> AluResult {
    AluResult {
        value: a | v,
        flags: Flags { zero: a | v == 0, subtract: false, half_carry: false, carry: false },
    }
}

#[verifier::opaque]
pub open spec fn spec_xor8(a: u8, v: u8) -> AluResult {
    AluResult {
        value: a ^ v,
        flags: Flags { zero: a ^ v == 0, subtract: false, half_carry: false, carry: false },
    }
}

/// `hl + v`, kept to sixteen bits. Carry: the sum does not fit in a word.
/// Half-carry: the sum of the low twelve bits does not fit in twelve bits.
/// The zero flag stays as it was; the subtract flag is cleared.
#[verifier::opaque]
pub open spec fn spec_add16(hl: u16, v: u16, flags: Flags) -> WordResult {
    WordResult {
        value: ((hl + v) % 65536) as u16,
        flags: Flags {
            zero: flags.zero,
            subtract: false,
            half_carry: hl % 4096 + v % 4096 > 4095,
            carry: hl + v > 65535,
        },
    }
}

/// What decimal adjustment adds to the accumulator, or takes from it after a
/// subtraction: 6 for the low digit, 0x60 for the high digit.
pub open spec fn daa_correction(a: u8, flags: Flags) -> int {
    let low = flags.half_carry || (!flags.subtract && a % 16 > 9);
    let high = flags.carry || (!flags.subtract && a > 0x99);
    6 * bit(low) + 0x60 * bit(high)
}

/// Decimal adjustment of the accumulator after an addition or a subtraction
/// of two packed decimal numbers. The carry is kept once set, and set when the
/// value before the adjustment is above 0x99.
#[verifier::opaque]
pub open spec fn spec_daa(a: u8, flags: Flags) -> AluResult {
    let adjusted = if flags.subtract {
        (a - daa_correction(a, flags)) % 256
    } else {
        (a + daa_correction(a, flags)) % 256
    };
    AluResult {
        value: adjusted as u8,
        flags: Flags {
            zero: adjusted == 0,
            subtract: flags.subtract,
            half_carry: false,
            carry: flags.carry || a > 0x99,
        },
    }
}

/// The flags after a rotate or a shift: zero from the result, carry from the
/// bit that left the byte.
pub open spec fn shifted(value: int, carry_out: bool) -> AluResult {
    AluResult {
        value: value as u8,
        flags: Flags { zero: value == 0, subtract: false, half_carry: false, carry: carry_out },
    }
}

/// Rotate left: bit 7 goes to bit 0 and to the carry.
#[verifier::opaque]
pub open spec fn spec_rlc(v: u8) -> AluResult {
    shifted((v % 128) * 2 + v / 128, v >= 128)
}

/// Rotate right: bit 0 goes to bit 7 and to the carry.
#[verifier::opaque]
pub open spec fn spec_rrc(v: u8) -> AluResult {
    shifted(v / 2 + (v % 2) * 128, v % 2 == 1)
}

/// Rotate left through the carry: the old carry goes to bit 0, bit 7 to the carry.
#[verifier::opaque]
pub open spec fn spec_rl(v: u8, carry_in: bool) -> AluResult {
    shifted((v % 128) * 2 + bit(carry_in), v >= 128)
}

/// Rotate right through the carry: the old carry goes to bit 7, bit 0 to the carry.
#[verifier::opaque]
pub open spec fn spec_rr(v: u8, carry_in: bool) -> AluResult {
    shifted(v / 2 + 128 * bit(carry_in), v % 2 == 1)
}

/// Shift left: bit 0 becomes 0, bit 7 goes to the carry.
#[verifier::opaque]
pub open spec fn spec_sla(v: u8) -> AluResult {
    shifted((v % 128) * 2, v >= 128)
}

/// Arithmetic shift right: bit 7 stays, bit 0 goes to the carry.
#[verifier::opaque]
pub open spec fn spec_sra(v: u8) -> AluResult {
    shifted(v / 2 + (v / 128) * 128, v % 2 == 1)
}

/// Logical shift right: bit 7 becomes 0, bit 0 goes to the carry.
#[verifier::opaque]
pub open spec fn spec_srl(v: u8) -> AluResult {
    shifted((v / 2) as int, v % 2 == 1)
}

/// Exchange of the two nibbles. The carry stays as it was.
#[verifier::opaque]
pub open spec fn spec_swap(v: u8, flags: Flags) -> AluResult {
    shifted((v % 16) * 16 + v / 16, flags.carry)
}

/// Whether bit `n` of `v` is 1.
pub open spec fn bit_is_set(v: u8, n: u8) -> bool {
    v & (1u8 << n) != 0
}

/// The flags after a test of bit `n`: zero when the bit is 0, half-carry set,
/// subtract cleared, carry as it was.
#[verifier::opaque]
pub open spec fn spec_test_bit(v: u8, n: u8, flags: Flags) -> Flags {
    Flags { zero: !bit_is_set(v, n), subtract: false, half_carry: true, carry: flags.carry }
}

/// `v` with bit `n` made 0.
#[verifier::opaque]
pub open spec fn spec_reset_bit(v: u8, n: u8) -> u8 {
    v & !(1u8 << n)
}

/// `v` with bit `n` made 1.
#[verifier::opaque]
pub open spec fn spec_set_bit(v: u8, n: u8) -> u8 {
    v | (1u8 << n)
}

/// Rotates and shifts of a byte, written with shifts and masks, are the
/// arithmetic on its binary digits.
pub proof fn lemma_rotate_shift(v: u8)
    by (bit_vector)
    ensures
        (v << 1u8) | (v >> 7u8) == (v % 128u8) * 2u8 + v / 128u8,
        (v >> 1u8) | (v << 7u8) == v / 2u8 + (v % 2u8) * 128u8,
        v << 1u8 == (v % 128u8) * 2u8,
        (v << 1u8) | 1u8 == (v % 128u8) * 2u8 + 1u8,
        v >> 1u8 == v / 2u8,
        (v >> 1u8) | 0x80u8 == v / 2u8 + 128u8,
        (v >> 1u8) | (v & 0x80u8) == v / 2u8 + (v / 128u8) * 128u8,
        (v >> 4u8) | (v << 4u8) == (v % 16u8) * 16u8 + v / 16u8,
        (v & 0x80u8 != 0u8) == (v >= 128u8),
        (v & 1u8 != 0u8) == (v % 2u8 == 1u8),
{
}

pub fn add8(a: u8, v: u8, carry_in: bool) -> (r: AluResult)
    ensures
        r == spec_add8(a, v, carry_in),
{
    proof {
        reveal(spec_add8);
    }
    let c: u8 = if carry_in {
        1
    } else {
        0
    };
    let sum: u16 = a as u16 + v as u16 + c as u16;
    proof {
        lemma_word_bytes(sum, 0, 0);
        lemma_flag_masks(a);
        lemma_flag_masks(v);
    }
    let value: u8 = (sum & 0xFF) as u8;
    AluResult {
        value,
        flags: Flags {
            zero: value == 0,
            subtract: false,
            half_carry: (a & 0x0F) + (v & 0x0F) + c > 0x0F,
            carry: sum > 0xFF,
        },
    }
}

pub fn sub8(a: u8, v: u8, borrow_in: bool) -> (r: AluResult)
    ensures
        r == spec_sub8(a, v, borrow_in),
{
    proof {
        reveal(spec_sub8);
    }
    let c: u8 = if borrow_in {
        1
    } else {
        0
    };
    proof {
        lemma_flag_masks(a);
        lemma_flag_masks(v);
    }
    let value: u8 = a.wrapping_sub(v).wrapping_sub(c);
    AluResult {
        value,
        flags: Flags {
            zero: value == 0,
            subtract: true,
            half_carry: (v & 0x0F) + c > (a & 0x0F),
            carry: (v as u16) + (c as u16) > (a as u16),
        },
    }
}

pub fn and8(a: u8, v: u8) -> (r: AluResult)
    ensures
        r == spec_and8(a, v),
{
    proof {
        reveal(spec_and8);
    }
    let value: u8 = a & v;
    AluResult {
        value,
        flags: Flags { zero: value == 0, subtract: false, half_carry: true, carry: false },
    }
}

pub fn or8(a: u8, v: u8) -> (r: AluResult)
    ensures
        r == spec_or8(a, v),
{
    proof {
        reveal(spec_or8);
    }
    let value: u8 = a | v;
    AluResult {
        value,
        flags: Flags { zero: value == 0, subtract: false, half_carry: false, carry: false },
    }
}

pub fn xor8(a: u8, v: u8) -> (r: AluResult)
    ensures
        r == spec_xor8(a, v),
{
    proof {
        reveal(spec_xor8);
    }
    let value: u8 = a ^ v;
    AluResult {
        value,
        flags: Flags { zero: value == 0, subtract: false, half_carry: false, carry: false },
    }
}

pub fn add16(hl: u16, v: u16, flags: Flags) -> (r: WordResult)
    ensures
        r == spec_add16(hl, v, flags),
{
    proof {
        reveal(spec_add16);
    }
    let sum: u32 = hl as u32 + v as u32;
    proof {
        lemma_low_twelve(hl);
        lemma_low_twelve(v);
    }
    WordResult {
        value: hl.wrapping_add(v),
        flags: Flags {
            zero: flags.zero,
            subtract: false,
            half_carry: (hl & 0x0FFF) + (v & 0x0FFF) > 0x0FFF,
            carry: sum > 0xFFFF,
        },
    }
}

/// The mask `0x0FFF` keeps the remainder by 4096.
pub proof fn lemma_low_twelve(word: u16)
    by (bit_vector)
    ensures
        word & 0x0FFFu16 == word % 4096u16,
{
}

pub fn decimal_adjust(a: u8, flags: Flags) -> (r: AluResult)
    ensures
        r == spec_daa(a, flags),
{
    proof {
        lemma_flag_masks(a);
    }
    let mut correction: u8 = 0;
    if flags.half_carry || (!flags.subtract && (a & 0x0F) > 0x09) {
        correction = correction + 0x06;
    }
    if flags.carry || (!flags.subtract && a > 0x99) {
        correction = correction + 0x60;
    }
    assert(correction == daa_correction(a, flags));
    let value: u8 = if flags.subtract {
        a.wrapping_sub(correction)
    } else {
        a.wrapping_add(correction)
    };
    assert(flags.subtract ==> value == (a - correction) % 256);
    assert(!flags.subtract ==> value == (a + correction) % 256);
    proof {
        reveal(spec_daa);
    }
    AluResult {
        value,
        flags: Flags {
            zero: value == 0,
            subtract: flags.subtract,
            half_carry: false,
            carry: flags.carry || a > 0x99,
        },
    }
}

pub fn rlc(v: u8) -> (r: AluResult)
    ensures
        r == spec_rlc(v),
{
    proof {
        reveal(spec_rlc);
    }
    proof {
        lemma_rotate_shift(v);
    }
    let value: u8 = (v << 1) | (v >> 7);
    AluResult {
        value,
        flags: Flags { zero: value == 0, subtract: false, half_carry: false, carry: v & 0x80 != 0 },
    }
}

pub fn rrc(v: u8) -> (r: AluResult)
    ensures
        r == spec_rrc(v),
{
    proof {
        reveal(spec_rrc);
    }
    proof {
        lemma_rotate_shift(v);
    }
    let value: u8 = (v >> 1) | (v << 7);
    AluResult {
        value,
        flags: Flags { zero: value == 0, subtract: false, half_carry: false, carry: v & 0x01 != 0 },
    }
}

pub fn rl(v: u8, carry_in: bool) -> (r: AluResult)
    ensures
        r == spec_rl(v, carry_in),
{
    proof {
        reveal(spec_rl);
    }
    proof {
        lemma_rotate_shift(v);
    }
    let value: u8 = if carry_in {
        (v << 1) | 0x01
    } else {
        v << 1
    };
    AluResult {
        value,
        flags: Flags { zero: value == 0, subtract: false, half_carry: false, carry: v & 0x80 != 0 },
    }
}

pub fn rr(v: u8, carry_in: bool) -> (r: AluResult)
    ensures
        r == spec_rr(v, carry_in),
{
    proof {
        reveal(spec_rr);
    }
    proof {
        lemma_rotate_shift(v);
    }
    let value: u8 = if carry_in {
        (v >> 1) | 0x80
    } else {
        v >> 1
    };
    AluResult {
        value,
        flags: Flags { zero: value == 0, subtract: false, half_carry: false, carry: v & 0x01 != 0 },
    }
}

pub fn sla(v: u8) -> (r: AluResult)
    ensures
        r == spec_sla(v),
{
    proof {
        reveal(spec_sla);
    }
    proof {
        lemma_rotate_shift(v);
    }
    let value: u8 = v << 1;
    AluResult {
        value,
        flags: Flags { zero: value == 0, subtract: false, half_carry: false, carry: v & 0x80 != 0 },
    }
}

pub fn sra(v: u8) -> (r: AluResult)
    ensures
        r == spec_sra(v),
{
    proof {
        reveal(spec_sra);
    }
    proof {
        lemma_rotate_shift(v);
    }
    let value: u8 = (v >> 1) | (v & 0x80);
    AluResult {
        value,
        flags: Flags { zero: value == 0, subtract: false, half_carry: false, carry: v & 0x01 != 0 },
    }
}

pub fn srl(v: u8) -> (r: AluResult)
    ensures
        r == spec_srl(v),
{
    proof {
        reveal(spec_srl);
    }
    proof {
        lemma_rotate_shift(v);
    }
    let value: u8 = v >> 1;
    AluResult {
        value,
        flags: Flags { zero: value == 0, subtract: false, half_carry: false, carry: v & 0x01 != 0 },
    }
}

pub fn swap(v: u8, flags: Flags) -> (r: AluResult)
    ensures
        r == spec_swap(v, flags),
{
    proof {
        reveal(spec_swap);
    }
    proof {
        lemma_rotate_shift(v);
    }
    let value: u8 = (v >> 4) | (v << 4);
    AluResult {
        value,
        flags: Flags { zero: value == 0, subtract: false, half_carry: false, carry: flags.carry },
    }
}

pub fn test_bit(v: u8, n: u8, flags: Flags) -> (r: Flags)
    requires
        n < 8,
    ensures
        r == spec_test_bit(v, n, flags),
{
    proof {
        reveal(spec_test_bit);
    }
    Flags { zero: v & (1u8 << n) == 0, subtract: false, half_carry: true, carry: flags.carry }
}

pub fn reset_bit(v: u8, n: u8) -> (r: u8)
    requires
        n < 8,
    ensures
        r == spec_reset_bit(v, n),
{
    proof {
        reveal(spec_reset_bit);
    }
    v & !(1u8 << n)
}

pub fn set_bit(v: u8, n: u8) -> (r: u8)
    requires
        n < 8,
    ensures
        r == spec_set_bit(v, n),
{
    proof {
        reveal(spec_set_bit);
    }
    v | (1u8 << n)
}

} // verus!
