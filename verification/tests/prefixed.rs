use gb_core::cpu::Cpu;
use gb_core::error::CoreError;
use gb_core::flags::Flags;
use gb_core::memory::Memory;
use gb_core::operand::Operand8;
use gb_core::registers::{Reg16, Reg8};

const CODE: u16 = 0xC000;

fn machine(program: &[u8]) -> (Cpu, Memory) {
    let mut mem = Memory::new();
    for (i, byte) in program.iter().enumerate() {
        mem.write_8(CODE + i as u16, *byte).unwrap();
    }
    let mut cpu = Cpu::new();
    cpu.registers.write_16(Reg16::PC, CODE);
    cpu.registers.write_16(Reg16::SP, 0xFFFE);
    cpu.registers.write_16(Reg16::HL, 0xD000);
    (cpu, mem)
}

fn flags(zero: bool, subtract: bool, half_carry: bool, carry: bool) -> Flags {
    Flags { zero, subtract, half_carry, carry }
}

const NONE: Flags = Flags { zero: false, subtract: false, half_carry: false, carry: false };
const ALL: Flags = Flags { zero: true, subtract: true, half_carry: true, carry: true };
const TABLE: [Operand8; 8] = [
    Operand8::Reg(Reg8::B),
    Operand8::Reg(Reg8::C),
    Operand8::Reg(Reg8::D),
    Operand8::Reg(Reg8::E),
    Operand8::Reg(Reg8::H),
    Operand8::Reg(Reg8::L),
    Operand8::Mem(Reg16::HL),
    Operand8::Reg(Reg8::A),
];

#[test]
fn operand_table() {
    for bits in 0..=255u8 {
        assert_eq!(Operand8::from_index(bits), TABLE[(bits & 7) as usize]);
    }
}

#[test]
fn bit_seven_of_the_accumulator() {
    for carry in [false, true] {
        let (mut cpu, mem) = machine(&[0xCB, 0x7F]);
        cpu.set_flags(flags(false, true, false, carry));
        cpu.registers.write_8(Reg8::A, 0x80);
        cpu.bit_n_r(&mem, Operand8::Reg(Reg8::A), 7);
        assert_eq!(cpu.flags(), flags(false, false, true, carry));
        cpu.registers.write_8(Reg8::A, 0x7F);
        cpu.bit_n_r(&mem, Operand8::Reg(Reg8::A), 7);
        assert_eq!(cpu.flags(), flags(true, false, true, carry));
        assert_eq!(cpu.registers.read_8(Reg8::A), 0x7F);
    }
}

#[test]
fn bit_seven_of_the_accumulator_through_the_prefix() {
    let (mut cpu, mut mem) = machine(&[0xCB, 0x7F]);
    cpu.set_flags(flags(true, true, false, true));
    cpu.registers.write_8(Reg8::A, 0x80);
    assert_eq!(cpu.call_CB(&mut mem), Ok(()));
    assert_eq!(cpu.flags(), flags(false, false, true, true));
    cpu.registers.write_8(Reg8::A, 0x7F);
    assert_eq!(cpu.call_CB(&mut mem), Ok(()));
    assert_eq!(cpu.flags(), flags(true, false, true, true));
}

#[test]
fn rotates_of_a_register_compute_zero() {
    let (mut cpu, mut mem) = machine(&[]);
    let b = Operand8::Reg(Reg8::B);
    cpu.registers.write_8(Reg8::B, 0x00);
    cpu.set_flags(flags(false, true, true, true));
    assert_eq!(cpu.rlc_r(&mut mem, b), Ok(()));
    assert_eq!(cpu.flags(), flags(true, false, false, false));
    cpu.registers.write_8(Reg8::B, 0x80);
    assert_eq!(cpu.rl_r(&mut mem, b), Ok(()));
    assert_eq!(cpu.registers.read_8(Reg8::B), 0x00);
    assert_eq!(cpu.flags(), flags(true, false, false, true));
    assert_eq!(cpu.rl_r(&mut mem, b), Ok(()));
    assert_eq!(cpu.registers.read_8(Reg8::B), 0x01);
    assert_eq!(cpu.flags(), NONE);
    assert_eq!(cpu.rrc_r(&mut mem, b), Ok(()));
    assert_eq!(cpu.registers.read_8(Reg8::B), 0x80);
    assert_eq!(cpu.flags(), flags(false, false, false, true));
    assert_eq!(cpu.rr_r(&mut mem, b), Ok(()));
    assert_eq!(cpu.registers.read_8(Reg8::B), 0xC0);
    assert_eq!(cpu.flags(), NONE);
    assert_eq!(cpu.rlc_r(&mut mem, b), Ok(()));
    assert_eq!(cpu.registers.read_8(Reg8::B), 0x81);
    assert_eq!(cpu.flags(), flags(false, false, false, true));
}

#[test]
fn shifts_of_a_register() {
    let (mut cpu, mut mem) = machine(&[]);
    let e = Operand8::Reg(Reg8::E);
    cpu.registers.write_8(Reg8::E, 0x81);
    assert_eq!(cpu.sla_r(&mut mem, e), Ok(()));
    assert_eq!(cpu.registers.read_8(Reg8::E), 0x02);
    assert_eq!(cpu.flags(), flags(false, false, false, true));
    cpu.registers.write_8(Reg8::E, 0x81);
    assert_eq!(cpu.sra_r(&mut mem, e), Ok(()));
    assert_eq!(cpu.registers.read_8(Reg8::E), 0xC0);
    assert_eq!(cpu.flags(), flags(false, false, false, true));
    cpu.registers.write_8(Reg8::E, 0x81);
    assert_eq!(cpu.srl_r(&mut mem, e), Ok(()));
    assert_eq!(cpu.registers.read_8(Reg8::E), 0x40);
    assert_eq!(cpu.flags(), flags(false, false, false, true));
    cpu.registers.write_8(Reg8::E, 0x01);
    assert_eq!(cpu.srl_r(&mut mem, e), Ok(()));
    assert_eq!(cpu.flags(), flags(true, false, false, true));
    cpu.registers.write_8(Reg8::E, 0xA5);
    cpu.set_flags(ALL);
    assert_eq!(cpu.swap_r(&mut mem, e), Ok(()));
    assert_eq!(cpu.registers.read_8(Reg8::E), 0x5A);
    assert_eq!(cpu.flags(), flags(false, false, false, true));
}

#[test]
fn rotate_of_the_byte_at_hl() {
    let (mut cpu, mut mem) = machine(&[]);
    mem.write_8(0xD000, 0x85).unwrap();
    assert_eq!(cpu.rlc_r(&mut mem, Operand8::Mem(Reg16::HL)), Ok(()));
    assert_eq!(mem.read_8(0xD000), 0x0B);
    assert_eq!(cpu.flags(), flags(false, false, false, true));
    assert_eq!(cpu.registers.read_16(Reg16::HL), 0xD000);
}

#[test]
fn refused_write_of_a_rotate_leaves_the_flags() {
    let (mut cpu, mut mem) = machine(&[]);
    mem.set_rom(vec![0x05; 0x8000]).unwrap();
    cpu.registers.write_16(Reg16::HL, 0x2000);
    cpu.set_flags(ALL);
    assert_eq!(cpu.rlc_r(&mut mem, Operand8::Mem(Reg16::HL)), Err(CoreError::BankOutOfRange));
    assert_eq!(cpu.flags(), ALL);
    assert_eq!(mem.bank(), 0x4000);
    assert_eq!(cpu.set_n_r(&mut mem, Operand8::Mem(Reg16::HL), 1), Err(CoreError::BankOutOfRange));
    assert_eq!(cpu.res_n_r(&mut mem, Operand8::Mem(Reg16::HL), 0), Err(CoreError::BankOutOfRange));
    assert_eq!(cpu.res_n_r(&mut mem, Operand8::Mem(Reg16::HL), 2), Ok(()));
    assert_eq!(mem.bank(), 0x4000);
}

#[test]
fn reset_and_set_change_no_flags() {
    let (mut cpu, mut mem) = machine(&[]);
    cpu.set_flags(ALL);
    cpu.registers.write_8(Reg8::D, 0xFF);
    assert_eq!(cpu.res_n_r(&mut mem, Operand8::Reg(Reg8::D), 4), Ok(()));
    assert_eq!(cpu.registers.read_8(Reg8::D), 0xEF);
    assert_eq!(cpu.set_n_r(&mut mem, Operand8::Mem(Reg16::HL), 7), Ok(()));
    assert_eq!(mem.read_8(0xD000), 0x80);
    assert_eq!(cpu.flags(), ALL);
}

#[test]
fn every_bit_instruction_uses_bits_three_to_five_for_the_bit() {
    for n in 0..8u8 {
        for operand in 0..8u8 {
            if operand == 6 {
                continue;
            }
            let register = match TABLE[operand as usize] {
                Operand8::Reg(r) => r,
                Operand8::Mem(_) => unreachable!(),
            };
            let (mut cpu, mut mem) = machine(&[0xCB, 0x80 | n << 3 | operand]);
            cpu.registers.write_8(register, 0xFF);
            assert_eq!(cpu.call_CB(&mut mem), Ok(()));
            assert_eq!(cpu.registers.read_8(register), 0xFF ^ (1 << n));
            let (mut cpu, mut mem) = machine(&[0xCB, 0xC0 | n << 3 | operand]);
            cpu.registers.write_8(register, 0x00);
            assert_eq!(cpu.call_CB(&mut mem), Ok(()));
            assert_eq!(cpu.registers.read_8(register), 1 << n);
            let (mut cpu, mut mem) = machine(&[0xCB, 0x40 | n << 3 | operand]);
            cpu.registers.write_8(register, 1 << n);
            assert_eq!(cpu.call_CB(&mut mem), Ok(()));
            assert!(!cpu.flags().zero);
            cpu.registers.write_8(register, !(1 << n));
            assert_eq!(cpu.call_CB(&mut mem), Ok(()));
            assert!(cpu.flags().zero);
        }
    }
}

#[test]
fn bit_instructions_on_the_byte_at_hl() {
    let (mut cpu, mut mem) = machine(&[0xCB, 0xDE]);
    assert_eq!(cpu.call_CB(&mut mem), Ok(()));
    assert_eq!(mem.read_8(0xD000), 0x08);
    mem.write_8(CODE + 1, 0x5E).unwrap();
    assert_eq!(cpu.call_CB(&mut mem), Ok(()));
    assert!(!cpu.flags().zero);
    mem.write_8(CODE + 1, 0x9E).unwrap();
    assert_eq!(cpu.call_CB(&mut mem), Ok(()));
    assert_eq!(mem.read_8(0xD000), 0x00);
}

#[test]
fn prefixed_rotates_and_shifts_by_code() {
    let cases: [(u8, u8, u8, bool); 8] = [
        (0x00, 0x81, 0x03, true),
        (0x08, 0x81, 0xC0, true),
        (0x10, 0x81, 0x02, true),
        (0x18, 0x81, 0x40, true),
        (0x20, 0x81, 0x02, true),
        (0x28, 0x81, 0xC0, true),
        (0x30, 0x81, 0x18, false),
        (0x38, 0x81, 0x40, true),
    ];
    for (code, before, after, carry) in cases {
        for operand in [0u8, 1, 2, 3, 4, 5, 7] {
            let register = match TABLE[operand as usize] {
                Operand8::Reg(r) => r,
                Operand8::Mem(_) => unreachable!(),
            };
            let (mut cpu, mut mem) = machine(&[0xCB, code | operand]);
            cpu.registers.write_8(register, before);
            assert_eq!(cpu.call_CB(&mut mem), Ok(()));
            assert_eq!(cpu.registers.read_8(register), after);
            assert_eq!(cpu.flags(), flags(false, false, false, carry));
        }
        let (mut cpu, mut mem) = machine(&[0xCB, code | 6]);
        mem.write_8(0xD000, before).unwrap();
        assert_eq!(cpu.call_CB(&mut mem), Ok(()));
        assert_eq!(mem.read_8(0xD000), after);
    }
}
