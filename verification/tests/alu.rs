use gb_core::alu::{
    add16, add8, and8, decimal_adjust, or8, reset_bit, rl, rlc, rr, rrc, set_bit, sla, sra, srl,
    sub8, swap, test_bit, xor8, AluResult, WordResult,
};
use gb_core::flags::{Flags, CARRY_FLAG, HALF_CARRY_FLAG, SUBTRACT_FLAG, ZERO_FLAG};

fn flags(zero: bool, subtract: bool, half_carry: bool, carry: bool) -> Flags {
    Flags { zero, subtract, half_carry, carry }
}

const NONE: Flags = Flags { zero: false, subtract: false, half_carry: false, carry: false };

#[test]
fn flag_masks() {
    assert_eq!(ZERO_FLAG, 0b1000_0000);
    assert_eq!(SUBTRACT_FLAG, 0b0100_0000);
    assert_eq!(HALF_CARRY_FLAG, 0b0010_0000);
    assert_eq!(CARRY_FLAG, 0b0001_0000);
}

#[test]
fn flags_from_byte() {
    assert_eq!(Flags::from_byte(0x00), NONE);
    assert_eq!(Flags::from_byte(0x0F), NONE);
    assert_eq!(Flags::from_byte(0x80), flags(true, false, false, false));
    assert_eq!(Flags::from_byte(0x40), flags(false, true, false, false));
    assert_eq!(Flags::from_byte(0x20), flags(false, false, true, false));
    assert_eq!(Flags::from_byte(0x10), flags(false, false, false, true));
    assert_eq!(Flags::from_byte(0xB7), flags(true, false, true, true));
    assert_eq!(Flags::from_byte(0xFF), flags(true, true, true, true));
}

#[test]
fn flags_to_byte_keeps_the_low_bits() {
    assert_eq!(NONE.to_byte(0xFF), 0x0F);
    assert_eq!(flags(true, true, true, true).to_byte(0x00), 0xF0);
    assert_eq!(flags(true, false, true, false).to_byte(0x0F), 0xAF);
    assert_eq!(flags(false, true, false, true).to_byte(0xA3), 0x53);
}

#[test]
fn flags_round_trip_through_every_byte() {
    for byte in 0..=255u8 {
        assert_eq!(Flags::from_byte(byte).to_byte(byte), byte);
        for previous in [0x00u8, 0x0F, 0xF5] {
            let packed = Flags::from_byte(byte).to_byte(previous);
            assert_eq!(Flags::from_byte(packed), Flags::from_byte(byte));
            assert_eq!(packed & 0x0F, previous & 0x0F);
        }
    }
}

#[test]
fn add_without_carry() {
    assert_eq!(add8(0x01, 0x09, false), AluResult { value: 0x0A, flags: NONE });
    assert_eq!(add8(0x12, 0x34, false), AluResult { value: 0x46, flags: NONE });
}

#[test]
fn add_a_to_itself_at_0xff() {
    assert_eq!(
        add8(0xFF, 0xFF, false),
        AluResult { value: 0xFE, flags: flags(false, false, true, true) }
    );
}

#[test]
fn add_sets_zero_on_wrap_to_zero() {
    assert_eq!(
        add8(0xFF, 0x01, false),
        AluResult { value: 0x00, flags: flags(true, false, true, true) }
    );
    assert_eq!(add8(0x00, 0x00, false), AluResult { value: 0, flags: flags(true, false, false, false) });
    assert_eq!(
        add8(0x80, 0x80, false),
        AluResult { value: 0x00, flags: flags(true, false, false, true) }
    );
}

#[test]
fn add_half_carry_is_the_carry_out_of_bit_three() {
    assert_eq!(add8(0x0F, 0x01, false).flags, flags(false, false, true, false));
    assert_eq!(add8(0x0E, 0x01, false).flags, NONE);
    assert_eq!(add8(0x08, 0x08, false).flags, flags(false, false, true, false));
}

#[test]
fn add_with_carry_in() {
    assert_eq!(add8(0x0E, 0x01, true), AluResult { value: 0x10, flags: flags(false, false, true, false) });
    assert_eq!(add8(0xFF, 0x00, true), AluResult { value: 0x00, flags: flags(true, false, true, true) });
    assert_eq!(add8(0xFF, 0xFF, true), AluResult { value: 0xFF, flags: flags(false, false, true, true) });
    assert_eq!(add8(0x10, 0x20, true), AluResult { value: 0x31, flags: NONE });
}

#[test]
fn add_agrees_with_arithmetic_on_every_pair() {
    for a in 0..=255u16 {
        for v in 0..=255u16 {
            for c in 0..=1u16 {
                let r = add8(a as u8, v as u8, c == 1);
                let sum = a + v + c;
                assert_eq!(r.value as u16, sum & 0xFF);
                assert_eq!(r.flags.zero, sum & 0xFF == 0);
                assert!(!r.flags.subtract);
                assert_eq!(r.flags.half_carry, (a & 0xF) + (v & 0xF) + c > 0xF);
                assert_eq!(r.flags.carry, sum > 0xFF);
            }
        }
    }
}

#[test]
fn sub_a_from_itself() {
    for a in 0..=255u8 {
        assert_eq!(
            sub8(a, a, false),
            AluResult { value: 0x00, flags: flags(true, true, false, false) }
        );
    }
}

#[test]
fn sub_borrows() {
    assert_eq!(sub8(0x10, 0x01, false), AluResult { value: 0x0F, flags: flags(false, true, true, false) });
    assert_eq!(sub8(0x00, 0x01, false), AluResult { value: 0xFF, flags: flags(false, true, true, true) });
    assert_eq!(sub8(0x20, 0x30, false), AluResult { value: 0xF0, flags: flags(false, true, false, true) });
    assert_eq!(sub8(0x46, 0x12, false), AluResult { value: 0x34, flags: flags(false, true, false, false) });
}

#[test]
fn sub_with_borrow_in() {
    assert_eq!(sub8(0x10, 0x0F, true), AluResult { value: 0x00, flags: flags(true, true, true, false) });
    assert_eq!(sub8(0x00, 0x00, true), AluResult { value: 0xFF, flags: flags(false, true, true, true) });
    assert_eq!(sub8(0x00, 0xFF, true), AluResult { value: 0x00, flags: flags(true, true, true, true) });
    assert_eq!(sub8(0x05, 0x02, true), AluResult { value: 0x02, flags: flags(false, true, false, false) });
}

#[test]
fn sub_agrees_with_arithmetic_on_every_pair() {
    for a in 0..=255i32 {
        for v in 0..=255i32 {
            for c in 0..=1i32 {
                let r = sub8(a as u8, v as u8, c == 1);
                assert_eq!(r.value as i32, (a - v - c).rem_euclid(256));
                assert_eq!(r.flags.zero, (a - v - c).rem_euclid(256) == 0);
                assert!(r.flags.subtract);
                assert_eq!(r.flags.half_carry, (v & 0xF) + c > (a & 0xF));
                assert_eq!(r.flags.carry, v + c > a);
            }
        }
    }
}

#[test]
fn and_sets_half_carry() {
    assert_eq!(and8(0xF0, 0x3C), AluResult { value: 0x30, flags: flags(false, false, true, false) });
    assert_eq!(and8(0xF0, 0x0F), AluResult { value: 0x00, flags: flags(true, false, true, false) });
}

#[test]
fn or_and_xor_clear_all_but_zero() {
    assert_eq!(or8(0xF0, 0x0C), AluResult { value: 0xFC, flags: NONE });
    assert_eq!(or8(0x00, 0x00), AluResult { value: 0x00, flags: flags(true, false, false, false) });
    assert_eq!(xor8(0xF0, 0x3C), AluResult { value: 0xCC, flags: NONE });
    assert_eq!(xor8(0x5A, 0x5A), AluResult { value: 0x00, flags: flags(true, false, false, false) });
}

#[test]
fn word_add_carries() {
    assert_eq!(add16(0x1000, 0x0234, NONE), WordResult { value: 0x1234, flags: NONE });
    assert_eq!(
        add16(0x0FFF, 0x0001, NONE),
        WordResult { value: 0x1000, flags: flags(false, false, true, false) }
    );
    assert_eq!(
        add16(0xFFFF, 0x0001, NONE),
        WordResult { value: 0x0000, flags: flags(false, false, true, true) }
    );
    assert_eq!(
        add16(0x8000, 0x8000, NONE),
        WordResult { value: 0x0000, flags: flags(false, false, false, true) }
    );
}

#[test]
fn word_add_keeps_zero_and_clears_subtract() {
    let before = flags(true, true, true, true);
    assert_eq!(add16(0x0001, 0x0001, before).flags, flags(true, false, false, false));
    assert_eq!(add16(0x0000, 0x0000, NONE).flags, NONE);
}

#[test]
fn decimal_adjust_after_add() {
    let sum = add8(0x01, 0x09, false);
    assert_eq!(sum.value, 0x0A);
    assert_eq!(
        decimal_adjust(sum.value, sum.flags),
        AluResult { value: 0x10, flags: NONE }
    );
}

#[test]
fn decimal_adjust_after_add_with_carry_out() {
    let sum = add8(0x90, 0x90, false);
    assert_eq!(sum, AluResult { value: 0x20, flags: flags(false, false, false, true) });
    assert_eq!(
        decimal_adjust(sum.value, sum.flags),
        AluResult { value: 0x80, flags: flags(false, false, false, true) }
    );
    let sum = add8(0x99, 0x01, false);
    assert_eq!(sum.value, 0x9A);
    assert_eq!(
        decimal_adjust(sum.value, sum.flags),
        AluResult { value: 0x00, flags: flags(true, false, false, true) }
    );
    let sum = add8(0x08, 0x08, false);
    assert_eq!(sum, AluResult { value: 0x10, flags: flags(false, false, true, false) });
    assert_eq!(decimal_adjust(sum.value, sum.flags), AluResult { value: 0x16, flags: NONE });
}

#[test]
fn decimal_adjust_after_subtract() {
    let difference = sub8(0x10, 0x01, false);
    assert_eq!(difference.value, 0x0F);
    assert_eq!(
        decimal_adjust(difference.value, difference.flags),
        AluResult { value: 0x09, flags: flags(false, true, false, false) }
    );
    let difference = sub8(0x00, 0x01, false);
    assert_eq!(difference.value, 0xFF);
    assert_eq!(
        decimal_adjust(difference.value, difference.flags),
        AluResult { value: 0x99, flags: flags(false, true, false, true) }
    );
    assert_eq!(
        decimal_adjust(0x45, flags(false, true, false, false)),
        AluResult { value: 0x45, flags: flags(false, true, false, false) }
    );
}

#[test]
fn decimal_adjust_of_packed_decimal_sums() {
    for x in 0..100u32 {
        for y in 0..100u32 {
            let a = ((x / 10) << 4 | (x % 10)) as u8;
            let b = ((y / 10) << 4 | (y % 10)) as u8;
            let sum = add8(a, b, false);
            let adjusted = decimal_adjust(sum.value, sum.flags);
            let expected = (x + y) % 100;
            assert_eq!(adjusted.value, ((expected / 10) << 4 | (expected % 10)) as u8);
            assert_eq!(adjusted.flags.carry, x + y > 99);
            assert_eq!(adjusted.flags.zero, expected == 0);
            assert!(!adjusted.flags.half_carry);
        }
    }
}

#[test]
fn rotates_move_the_end_bit_to_the_carry() {
    assert_eq!(rlc(0x85), AluResult { value: 0x0B, flags: flags(false, false, false, true) });
    assert_eq!(rlc(0x01), AluResult { value: 0x02, flags: NONE });
    assert_eq!(rlc(0x00), AluResult { value: 0x00, flags: flags(true, false, false, false) });
    assert_eq!(rrc(0x01), AluResult { value: 0x80, flags: flags(false, false, false, true) });
    assert_eq!(rrc(0x3A), AluResult { value: 0x1D, flags: NONE });
    assert_eq!(rrc(0x00), AluResult { value: 0x00, flags: flags(true, false, false, false) });
}

#[test]
fn rotates_through_the_carry() {
    assert_eq!(rl(0x80, false), AluResult { value: 0x00, flags: flags(true, false, false, true) });
    assert_eq!(rl(0x80, true), AluResult { value: 0x01, flags: flags(false, false, false, true) });
    assert_eq!(rl(0x11, true), AluResult { value: 0x23, flags: NONE });
    assert_eq!(rr(0x01, false), AluResult { value: 0x00, flags: flags(true, false, false, true) });
    assert_eq!(rr(0x01, true), AluResult { value: 0x80, flags: flags(false, false, false, true) });
    assert_eq!(rr(0x8A, true), AluResult { value: 0xC5, flags: NONE });
}

#[test]
fn shifts() {
    assert_eq!(sla(0x80), AluResult { value: 0x00, flags: flags(true, false, false, true) });
    assert_eq!(sla(0xFF), AluResult { value: 0xFE, flags: flags(false, false, false, true) });
    assert_eq!(sla(0x21), AluResult { value: 0x42, flags: NONE });
    assert_eq!(sra(0x8A), AluResult { value: 0xC5, flags: NONE });
    assert_eq!(sra(0x01), AluResult { value: 0x00, flags: flags(true, false, false, true) });
    assert_eq!(sra(0x81), AluResult { value: 0xC0, flags: flags(false, false, false, true) });
    assert_eq!(srl(0x8A), AluResult { value: 0x45, flags: NONE });
    assert_eq!(srl(0x01), AluResult { value: 0x00, flags: flags(true, false, false, true) });
    assert_eq!(srl(0xFF), AluResult { value: 0x7F, flags: flags(false, false, false, true) });
}

#[test]
fn rotates_and_shifts_agree_with_std_on_every_byte() {
    for v in 0..=255u8 {
        assert_eq!(rlc(v).value, v.rotate_left(1));
        assert_eq!(rrc(v).value, v.rotate_right(1));
        assert_eq!(rl(v, false).value, v << 1);
        assert_eq!(rl(v, true).value, v << 1 | 1);
        assert_eq!(rr(v, false).value, v >> 1);
        assert_eq!(rr(v, true).value, v >> 1 | 0x80);
        assert_eq!(sla(v).value, v << 1);
        assert_eq!(sra(v).value, ((v as i8) >> 1) as u8);
        assert_eq!(srl(v).value, v >> 1);
        assert_eq!(swap(v, NONE).value, v.rotate_left(4));
        for r in [rlc(v), rl(v, false), rl(v, true), sla(v)] {
            assert_eq!(r.flags.carry, v & 0x80 != 0);
            assert_eq!(r.flags.zero, r.value == 0);
        }
        for r in [rrc(v), rr(v, false), rr(v, true), sra(v), srl(v)] {
            assert_eq!(r.flags.carry, v & 0x01 != 0);
            assert_eq!(r.flags.zero, r.value == 0);
        }
    }
}

#[test]
fn swap_exchanges_nibbles_and_keeps_carry() {
    assert_eq!(swap(0x12, NONE), AluResult { value: 0x21, flags: NONE });
    assert_eq!(
        swap(0xF0, flags(true, true, true, true)),
        AluResult { value: 0x0F, flags: flags(false, false, false, true) }
    );
    assert_eq!(swap(0x00, NONE), AluResult { value: 0x00, flags: flags(true, false, false, false) });
}

#[test]
fn bit_seven_of_0x80_and_0x7f() {
    let carry_set = flags(false, true, false, true);
    assert_eq!(test_bit(0x80, 7, NONE), flags(false, false, true, false));
    assert_eq!(test_bit(0x7F, 7, NONE), flags(true, false, true, false));
    assert_eq!(test_bit(0x80, 7, carry_set), flags(false, false, true, true));
    assert_eq!(test_bit(0x7F, 7, carry_set), flags(true, false, true, true));
}

#[test]
fn bit_test_of_every_bit() {
    for n in 0..8u8 {
        assert!(!test_bit(1 << n, n, NONE).zero);
        assert!(test_bit(!(1 << n), n, NONE).zero);
        assert!(test_bit(0x00, n, NONE).zero);
        assert!(!test_bit(0xFF, n, NONE).zero);
    }
}

#[test]
fn reset_and_set_of_every_bit() {
    for n in 0..8u8 {
        assert_eq!(reset_bit(0xFF, n), 0xFF ^ (1 << n));
        assert_eq!(reset_bit(0x00, n), 0x00);
        assert_eq!(set_bit(0x00, n), 1 << n);
        assert_eq!(set_bit(0xFF, n), 0xFF);
    }
    assert_eq!(reset_bit(0b1010_1010, 3), 0b1010_0010);
    assert_eq!(set_bit(0b1010_1010, 2), 0b1010_1110);
}
