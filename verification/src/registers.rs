use vstd::prelude::*;
use crate::error::CoreError;

verus! {

/// The eight byte-wide registers. Each is one half of a 16-bit pair.
#[derive(Clone, Copy, Debug, PartialEq, Eq, Structural)]
pub enum Reg8 {
    A,
    F,
    B,
    C,
    D,
    E,
    H,
    L,
}

/// The six word-wide registers.
#[derive(Clone, Copy, Debug, PartialEq, Eq, Structural)]
pub enum Reg16 {
    AF,
    BC,
    DE,
    HL,
    SP,
    PC,
}

/// The high byte of a word.
#[verifier::opaque]
pub open spec fn high_byte(word: u16) -> u8 {
    (word / 256) as u8
}

/// The low byte of a word.
#[verifier::opaque]
pub open spec fn low_byte(word: u16) -> u8 {
    (word % 256) as u8
}

/// The word whose high byte is `high` and whose low byte is `low`.
#[verifier::opaque]
pub open spec fn word_of(high: u8, low: u8) -> u16 {
    (high * 256 + low) as u16
}

/// Shifts and masks on a word agree with division and remainder by 256.
pub proof fn lemma_word_bytes(word: u16, high: u8, low: u8)
    by (bit_vector)
    ensures
        word >> 8u16 == word / 256u16,
        word & 0xFFu16 == word % 256u16,
        (((high as u16) << 8u16) | (low as u16)) / 256u16 == high as u16,
        (((high as u16) << 8u16) | (low as u16)) % 256u16 == low as u16,
        ((word & 0xFFu16) | ((high as u16) << 8u16)) / 256u16 == high as u16,
        ((word & 0xFFu16) | ((high as u16) << 8u16)) % 256u16 == word % 256u16,
        ((word & 0xFF00u16) | (low as u16)) / 256u16 == word / 256u16,
        ((word & 0xFF00u16) | (low as u16)) % 256u16 == low as u16,
{
}

impl Reg8 {
    /// The pair that holds this register.
    pub open spec fn pair(self) -> Reg16 {
        match self {
            Reg8::A | Reg8::F => Reg16::AF,
            Reg8::B | Reg8::C => Reg16::BC,
            Reg8::D | Reg8::E => Reg16::DE,
            Reg8::H | Reg8::L => Reg16::HL,
        }
    }

    /// Whether this register is the high byte of its pair.
    pub open spec fn is_high(self) -> bool {
        self == Reg8::A || self == Reg8::B || self == Reg8::D || self == Reg8::H
    }

    /// What each one-letter name stands for.
    pub open spec fn named(name: char) -> Option<Reg8> {
        if name == 'a' {
            Some(Reg8::A)
        } else if name == 'f' {
            Some(Reg8::F)
        } else if name == 'b' {
            Some(Reg8::B)
        } else if name == 'c' {
            Some(Reg8::C)
        } else if name == 'd' {
            Some(Reg8::D)
        } else if name == 'e' {
            Some(Reg8::E)
        } else if name == 'h' {
            Some(Reg8::H)
        } else if name == 'l' {
            Some(Reg8::L)
        } else {
            None
        }
    }

    /// Looks a register up by its one-letter name; any other letter is an error.
    pub fn from_name(name: char) -> (res: Result<Reg8, CoreError>)
        ensures
            match Reg8::named(name) {
                Some(r) => res == Ok::<Reg8, CoreError>(r),
                None => res == Err::<Reg8, CoreError>(CoreError::InvalidRegister),
            },
    {
        match name {
            'a' => Ok(Reg8::A),
            'f' => Ok(Reg8::F),
            'b' => Ok(Reg8::B),
            'c' => Ok(Reg8::C),
            'd' => Ok(Reg8::D),
            'e' => Ok(Reg8::E),
            'h' => Ok(Reg8::H),
            'l' => Ok(Reg8::L),
            _ => Err(CoreError::InvalidRegister),
        }
    }
}

impl Reg16 {
    /// What each two-letter name stands for.
    pub open spec fn named(name: Seq<char>) -> Option<Reg16> {
        if name.len() != 2 {
            None
        } else if name[0] == 'a' && name[1] == 'f' {
            Some(Reg16::AF)
        } else if name[0] == 'b' && name[1] == 'c' {
            Some(Reg16::BC)
        } else if name[0] == 'd' && name[1] == 'e' {
            Some(Reg16::DE)
        } else if name[0] == 'h' && name[1] == 'l' {
            Some(Reg16::HL)
        } else if name[0] == 's' && name[1] == 'p' {
            Some(Reg16::SP)
        } else if name[0] == 'p' && name[1] == 'c' {
            Some(Reg16::PC)
        } else {
            None
        }
    }

    /// Looks a register up by its two-letter name; any other text is an error.
    pub fn from_name(name: &str) -> (res: Result<Reg16, CoreError>)
        ensures
            match Reg16::named(name@) {
                Some(r) => res == Ok::<Reg16, CoreError>(r),
                None => res == Err::<Reg16, CoreError>(CoreError::InvalidRegister),
            },
    {
        if name.unicode_len() != 2 {
            return Err(CoreError::InvalidRegister);
        }
        let first: char = name.get_char(0);
        let second: char = name.get_char(1);
        if first == 'a' && second == 'f' {
            Ok(Reg16::AF)
        } else if first == 'b' && second == 'c' {
            Ok(Reg16::BC)
        } else if first == 'd' && second == 'e' {
            Ok(Reg16::DE)
        } else if first == 'h' && second == 'l' {
            Ok(Reg16::HL)
        } else if first == 's' && second == 'p' {
            Ok(Reg16::SP)
        } else if first == 'p' && second == 'c' {
            Ok(Reg16::PC)
        } else {
            Err(CoreError::InvalidRegister)
        }
    }
}

/// The register file as a value: six words and the interrupt master enable.
pub struct RegisterFile {
    pub af: u16,
    pub bc: u16,
    pub de: u16,
    pub hl: u16,
    pub sp: u16,
    pub pc: u16,
    pub ime: u8,
}

impl RegisterFile {
    /// Every register zero, interrupts disabled.
    pub open spec fn zero() -> RegisterFile {
        RegisterFile { af: 0, bc: 0, de: 0, hl: 0, sp: 0, pc: 0, ime: 0 }
    }

    /// The word in a register pair.
    pub open spec fn read_16(self, register: Reg16) -> u16 {
        match register {
            Reg16::AF => self.af,
            Reg16::BC => self.bc,
            Reg16::DE => self.de,
            Reg16::HL => self.hl,
            Reg16::SP => self.sp,
            Reg16::PC => self.pc,
        }
    }

    /// The register file with `value` in a register pair and all else as it was.
    pub open spec fn write_16(self, register: Reg16, value: u16) -> RegisterFile {
        match register {
            Reg16::AF => RegisterFile { af: value, ..self },
            Reg16::BC => RegisterFile { bc: value, ..self },
            Reg16::DE => RegisterFile { de: value, ..self },
            Reg16::HL => RegisterFile { hl: value, ..self },
            Reg16::SP => RegisterFile { sp: value, ..self },
            Reg16::PC => RegisterFile { pc: value, ..self },
        }
    }

    /// A byte register is the high or the low byte of its pair.
    #[verifier::opaque]
    pub open spec fn read_8(self, register: Reg8) -> u8 {
        if register.is_high() {
            high_byte(self.read_16(register.pair()))
        } else {
            low_byte(self.read_16(register.pair()))
        }
    }

    /// Writing a byte register replaces its half of the pair and keeps the other.
    #[verifier::opaque]
    pub open spec fn write_8(self, register: Reg8, value: u8) -> RegisterFile {
        let pair = self.read_16(register.pair());
        if register.is_high() {
            self.write_16(register.pair(), word_of(value, low_byte(pair)))
        } else {
            self.write_16(register.pair(), word_of(high_byte(pair), value))
        }
    }

    /// The register file with `value` as the interrupt master enable.
    pub open spec fn with_ime(self, value: u8) -> RegisterFile {
        RegisterFile { ime: value, ..self }
    }
}

/// The processor's registers. The byte registers are not stored on their own:
/// each is read from and written into its 16-bit pair.
#[derive(Clone, Copy, Debug)]
pub struct Registers {
    af: u16,
    bc: u16,
    de: u16,
    hl: u16,
    sp: u16,
    pc: u16,
    ime: u8,
}

impl View for Registers {
    type V = RegisterFile;

    closed spec fn view(&self) -> RegisterFile {
        RegisterFile {
            af: self.af,
            bc: self.bc,
            de: self.de,
            hl: self.hl,
            sp: self.sp,
            pc: self.pc,
            ime: self.ime,
        }
    }
}

impl Registers {
    /// Every register zero, interrupts disabled.
    pub fn new() -> (regs: Registers)
        ensures
            regs@ == RegisterFile::zero(),
    {
        Registers { af: 0, bc: 0, de: 0, hl: 0, sp: 0, pc: 0, ime: 0 }
    }

    /// Reads a byte register out of its pair.
    pub fn read_8(&self, register: Reg8) -> (value: u8)
        ensures
            value == self@.read_8(register),
    {
        proof {
            reveal(RegisterFile::read_8);
            reveal(high_byte);
            reveal(low_byte);
            lemma_word_bytes(self.af, 0, 0);
            lemma_word_bytes(self.bc, 0, 0);
            lemma_word_bytes(self.de, 0, 0);
            lemma_word_bytes(self.hl, 0, 0);
        }
        match register {
            Reg8::A => (self.af >> 8) as u8,
            Reg8::F => (self.af & 0xFF) as u8,
            Reg8::B => (self.bc >> 8) as u8,
            Reg8::C => (self.bc & 0xFF) as u8,
            Reg8::D => (self.de >> 8) as u8,
            Reg8::E => (self.de & 0xFF) as u8,
            Reg8::H => (self.hl >> 8) as u8,
            Reg8::L => (self.hl & 0xFF) as u8,
        }
    }

    /// Reads a register pair.
    pub fn read_16(&self, register: Reg16) -> (value: u16)
        ensures
            value == self@.read_16(register),
    {
        match register {
            Reg16::AF => self.af,
            Reg16::BC => self.bc,
            Reg16::DE => self.de,
            Reg16::HL => self.hl,
            Reg16::SP => self.sp,
            Reg16::PC => self.pc,
        }
    }

    /// Writes a byte register into its pair; the other half of the pair stays.
    pub fn write_8(&mut self, register: Reg8, value: u8)
        ensures
            final(self)@ == old(self)@.write_8(register, value),
    {
        proof {
            reveal(RegisterFile::write_8);
            reveal(high_byte);
            reveal(low_byte);
            reveal(word_of);
            lemma_word_bytes(self.af, value, value);
            lemma_word_bytes(self.bc, value, value);
            lemma_word_bytes(self.de, value, value);
            lemma_word_bytes(self.hl, value, value);
        }
        match register {
            Reg8::A => self.af = (self.af & 0xFF) | ((value as u16) << 8),
            Reg8::F => self.af = (self.af & 0xFF00) | (value as u16),
            Reg8::B => self.bc = (self.bc & 0xFF) | ((value as u16) << 8),
            Reg8::C => self.bc = (self.bc & 0xFF00) | (value as u16),
            Reg8::D => self.de = (self.de & 0xFF) | ((value as u16) << 8),
            Reg8::E => self.de = (self.de & 0xFF00) | (value as u16),
            Reg8::H => self.hl = (self.hl & 0xFF) | ((value as u16) << 8),
            Reg8::L => self.hl = (self.hl & 0xFF00) | (value as u16),
        }
    }

    /// Writes a register pair.
    pub fn write_16(&mut self, register: Reg16, value: u16)
        ensures
            final(self)@ == old(self)@.write_16(register, value),
    {
        match register {
            Reg16::AF => self.af = value,
            Reg16::BC => self.bc = value,
            Reg16::DE => self.de = value,
            Reg16::HL => self.hl = value,
            Reg16::SP => self.sp = value,
            Reg16::PC => self.pc = value,
        }
    }

    /// The interrupt master enable, as the byte it is stored in.
    pub fn ime(&self) -> (value: u8)
        ensures
            value == self@.ime,
    {
        self.ime
    }

    /// Sets the interrupt master enable.
    pub fn set_ime(&mut self, value: u8)
        ensures
            final(self)@ == old(self)@.with_ime(value),
    {
        self.ime = value;
    }
}

} // verus!
