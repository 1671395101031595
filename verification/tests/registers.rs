use gb_core::error::CoreError;
use gb_core::registers::{Reg16, Reg8, Registers};

const BYTES: [Reg8; 8] =
    [Reg8::A, Reg8::F, Reg8::B, Reg8::C, Reg8::D, Reg8::E, Reg8::H, Reg8::L];
const WORDS: [Reg16; 6] = [Reg16::AF, Reg16::BC, Reg16::DE, Reg16::HL, Reg16::SP, Reg16::PC];

#[test]
fn new_registers_are_zero() {
    let regs = Registers::new();
    for r in WORDS {
        assert_eq!(regs.read_16(r), 0);
    }
    for r in BYTES {
        assert_eq!(regs.read_8(r), 0);
    }
    assert_eq!(regs.ime(), 0);
}

#[test]
fn byte_write_then_read_gives_the_byte_for_every_value() {
    for r in BYTES {
        for v in 0..=255u8 {
            let mut regs = Registers::new();
            regs.write_8(r, v);
            assert_eq!(regs.read_8(r), v);
        }
    }
}

#[test]
fn byte_write_keeps_the_other_half_of_the_pair() {
    let mut regs = Registers::new();
    regs.write_16(Reg16::AF, 0x12F0);
    regs.write_16(Reg16::BC, 0x3456);
    regs.write_16(Reg16::DE, 0x789A);
    regs.write_16(Reg16::HL, 0xBCDE);
    regs.write_8(Reg8::A, 0xEE);
    assert_eq!(regs.read_16(Reg16::AF), 0xEEF0);
    regs.write_8(Reg8::F, 0x11);
    assert_eq!(regs.read_16(Reg16::AF), 0xEE11);
    regs.write_8(Reg8::B, 0x01);
    assert_eq!(regs.read_16(Reg16::BC), 0x0156);
    regs.write_8(Reg8::C, 0x02);
    assert_eq!(regs.read_16(Reg16::BC), 0x0102);
    regs.write_8(Reg8::D, 0x03);
    assert_eq!(regs.read_16(Reg16::DE), 0x039A);
    regs.write_8(Reg8::E, 0x04);
    assert_eq!(regs.read_16(Reg16::DE), 0x0304);
    regs.write_8(Reg8::H, 0x05);
    assert_eq!(regs.read_16(Reg16::HL), 0x05DE);
    regs.write_8(Reg8::L, 0x06);
    assert_eq!(regs.read_16(Reg16::HL), 0x0506);
    assert_eq!(regs.read_16(Reg16::SP), 0);
    assert_eq!(regs.read_16(Reg16::PC), 0);
}

#[test]
fn byte_registers_are_the_halves_of_their_pairs() {
    let mut regs = Registers::new();
    regs.write_16(Reg16::AF, 0x01B0);
    regs.write_16(Reg16::BC, 0x0112);
    regs.write_16(Reg16::DE, 0xABCD);
    regs.write_16(Reg16::HL, 0xFF00);
    assert_eq!(regs.read_8(Reg8::A), 0x01);
    assert_eq!(regs.read_8(Reg8::F), 0xB0);
    assert_eq!(regs.read_8(Reg8::B), 0x01);
    assert_eq!(regs.read_8(Reg8::C), 0x12);
    assert_eq!(regs.read_8(Reg8::D), 0xAB);
    assert_eq!(regs.read_8(Reg8::E), 0xCD);
    assert_eq!(regs.read_8(Reg8::H), 0xFF);
    assert_eq!(regs.read_8(Reg8::L), 0x00);
}

#[test]
fn word_write_then_read_gives_the_word_for_every_value() {
    for v in 0..=0xFFFFu16 {
        let mut regs = Registers::new();
        regs.write_16(Reg16::HL, v);
        assert_eq!(regs.read_16(Reg16::HL), v);
    }
    for r in WORDS {
        let mut regs = Registers::new();
        regs.write_16(r, 0xBEEF);
        for other in WORDS {
            assert_eq!(regs.read_16(other), if other == r { 0xBEEF } else { 0 });
        }
    }
}

#[test]
fn interrupt_enable_is_stored_apart_from_the_pairs() {
    let mut regs = Registers::new();
    regs.set_ime(1);
    assert_eq!(regs.ime(), 1);
    for r in WORDS {
        assert_eq!(regs.read_16(r), 0);
    }
    regs.write_16(Reg16::AF, 0xFFFF);
    assert_eq!(regs.ime(), 1);
}

#[test]
fn byte_register_names() {
    assert_eq!(Reg8::from_name('a'), Ok(Reg8::A));
    assert_eq!(Reg8::from_name('f'), Ok(Reg8::F));
    assert_eq!(Reg8::from_name('b'), Ok(Reg8::B));
    assert_eq!(Reg8::from_name('c'), Ok(Reg8::C));
    assert_eq!(Reg8::from_name('d'), Ok(Reg8::D));
    assert_eq!(Reg8::from_name('e'), Ok(Reg8::E));
    assert_eq!(Reg8::from_name('h'), Ok(Reg8::H));
    assert_eq!(Reg8::from_name('l'), Ok(Reg8::L));
}

#[test]
fn unknown_byte_register_name_is_an_error() {
    assert_eq!(Reg8::from_name('x'), Err(CoreError::InvalidRegister));
    assert_eq!(Reg8::from_name('A'), Err(CoreError::InvalidRegister));
    assert_eq!(Reg8::from_name('i'), Err(CoreError::InvalidRegister));
}

#[test]
fn word_register_names() {
    assert_eq!(Reg16::from_name("af"), Ok(Reg16::AF));
    assert_eq!(Reg16::from_name("bc"), Ok(Reg16::BC));
    assert_eq!(Reg16::from_name("de"), Ok(Reg16::DE));
    assert_eq!(Reg16::from_name("hl"), Ok(Reg16::HL));
    assert_eq!(Reg16::from_name("sp"), Ok(Reg16::SP));
    assert_eq!(Reg16::from_name("pc"), Ok(Reg16::PC));
}

#[test]
fn unknown_word_register_name_is_an_error() {
    assert_eq!(Reg16::from_name("PC"), Err(CoreError::InvalidRegister));
    assert_eq!(Reg16::from_name(""), Err(CoreError::InvalidRegister));
    assert_eq!(Reg16::from_name("h"), Err(CoreError::InvalidRegister));
    assert_eq!(Reg16::from_name("hlx"), Err(CoreError::InvalidRegister));
    assert_eq!(Reg16::from_name("(hl)"), Err(CoreError::InvalidRegister));
    assert_eq!(Reg16::from_name("ah"), Err(CoreError::InvalidRegister));
}

#[test]
fn named_word_write_then_read() {
    let hl = Reg16::from_name("hl").unwrap();
    let mut regs = Registers::new();
    regs.write_16(hl, 0x1234);
    assert_eq!(regs.read_16(hl), 0x1234);
    assert_eq!(regs.read_8(Reg8::from_name('h').unwrap()), 0x12);
    assert_eq!(regs.read_8(Reg8::from_name('l').unwrap()), 0x34);
}

#[test]
fn error_descriptions() {
    assert_eq!(CoreError::IllegalOpcode(0xD3).describe(), "illegal opcode");
    assert_eq!(CoreError::InvalidRegister.describe(), "invalid register name");
    assert_eq!(CoreError::BankOutOfRange.describe(), "ROM bank out of range");
}
