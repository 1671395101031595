use vstd::prelude::*;
use crate::error::CoreError;
use crate::registers::{high_byte, lemma_word_bytes, low_byte, word_of};

verus! {

/// Size of the address space, and of main memory.
pub const ADDRESS_SPACE: usize = 0x10000;

/// Size of one ROM bank, and of the window it is seen through.
pub const BANK_SIZE: usize = 0x4000;

/// First address of the window onto the selected ROM bank.
pub const BANK_WINDOW: u16 = 0x4000;

/// First address that is main memory and not cartridge ROM.
pub const RAM_START: u16 = 0x8000;

/// First address whose writes select a ROM bank.
pub const BANK_SELECT_START: u16 = 0x2000;

/// The bits of a written byte that give the bank number.
pub const BANK_MASK: u8 = 0x1F;

/// Size of the ROM buffer before a cartridge image is loaded.
pub const ROM_CAPACITY: usize = 0x2FFFF;

/// The address space as a value: main memory, the cartridge image, and the
/// offset in the image of the bank seen through the window.
pub struct MemoryMap {
    pub main: Seq<u8>,
    pub rom: Seq<u8>,
    pub bank: nat,
}

impl MemoryMap {
    /// Main memory covers the address space; the selected bank is one of the
    /// banks 1 to 31, and the image holds its first bank and the whole of the
    /// selected one.
    pub open spec fn wf(self) -> bool {
        &&& self.main.len() == 0x10000
        &&& 0x4000 <= self.bank <= 0x7C000
        &&& self.bank % 0x4000 == 0
        &&& self.bank + 0x4000 <= self.rom.len()
    }

    /// Zeroed main memory and a zeroed image, with bank 1 selected.
    pub open spec fn blank() -> MemoryMap {
        MemoryMap {
            main: Seq::new(0x10000, |i: int| 0u8),
            rom: Seq::new(0x2FFFF, |i: int| 0u8),
            bank: 0x4000,
        }
    }

    /// Below 0x4000 the first bank of the image, from there to 0x8000 the
    /// selected bank, and main memory above.
    #[verifier::opaque]
    pub open spec fn read_8(self, address: u16) -> u8 {
        if address < 0x4000 {
            self.rom[address as int]
        } else if address < 0x8000 {
            self.rom[self.bank + address - 0x4000]
        } else {
            self.main[address as int]
        }
    }

    /// The word whose low byte is at `address` and whose high byte follows it.
    pub open spec fn read_16(self, address: u16) -> u16 {
        word_of(self.read_8(address.wrapping_add(1)), self.read_8(address))
    }

    /// The offset in the image of the bank that a written byte asks for:
    /// its low five bits times the bank size, bank 1 for the numbers 0 and 1.
    pub open spec fn bank_offset(value: u8) -> nat {
        if value % 32 <= 1 {
            0x4000
        } else {
            (0x4000 * (value % 32)) as nat
        }
    }

    /// Whether selecting a bank with this byte is refused: it asks for a
    /// bank, and the image ends before that bank does.
    pub open spec fn bank_refused(self, value: u8) -> bool {
        value % 32 != 0 && MemoryMap::bank_offset(value) + 0x4000 > self.rom.len()
    }

    /// A byte whose low five bits are 0 keeps the selected bank. Any other
    /// selects the bank it asks for, if the image holds it.
    #[verifier::opaque]
    pub open spec fn select_bank(self, value: u8) -> Result<MemoryMap, CoreError> {
        if value % 32 == 0 {
            Ok(self)
        } else if self.bank_refused(value) {
            Err(CoreError::BankOutOfRange)
        } else {
            Ok(MemoryMap { bank: MemoryMap::bank_offset(value), ..self })
        }
    }

    /// A write at 0x8000 or above stores the byte. Below, nothing is stored:
    /// from 0x2000 to 0x3FFF the byte selects a ROM bank, elsewhere it is dropped.
    #[verifier::opaque]
    pub open spec fn write_8(self, address: u16, value: u8) -> Result<MemoryMap, CoreError> {
        if address >= 0x8000 {
            Ok(MemoryMap { main: self.main.update(address as int, value), ..self })
        } else if 0x2000 <= address < 0x4000 {
            self.select_bank(value)
        } else {
            Ok(self)
        }
    }

    /// The image is replaced and bank 1 selected, unless the image ends
    /// before bank 1 does.
    pub open spec fn set_rom(self, rom: Seq<u8>) -> Result<MemoryMap, CoreError> {
        if rom.len() < 0x8000 {
            Err(CoreError::BankOutOfRange)
        } else {
            Ok(MemoryMap { main: self.main, rom, bank: 0x4000 })
        }
    }

    /// The low byte is written at `address` and the high byte after it,
    /// unless one of the two writes is refused.
    pub open spec fn write_16(self, address: u16, value: u16) -> Result<MemoryMap, CoreError> {
        match self.write_8(address, low_byte(value)) {
            Ok(next) => next.write_8(address.wrapping_add(1), high_byte(value)),
            Err(e) => Err(e),
        }
    }
}

/// What an operation that may be refused leaves behind: when the model gives
/// an address space, success and that address space; when it gives an error,
/// that error, with the address space as it was.
pub open spec fn written(
    expected: Result<MemoryMap, CoreError>,
    before: MemoryMap,
    res: Result<(), CoreError>,
    after: MemoryMap,
) -> bool {
    match expected {
        Ok(next) => res is Ok && after == next,
        Err(e) => res == Err::<(), CoreError>(e) && after == before,
    }
}

/// What one write does to a well-formed address space leaves it well-formed.
pub proof fn lemma_write_keeps_wf(map: MemoryMap, address: u16, value: u8)
    requires
        map.wf(),
    ensures
        map.write_8(address, value) matches Ok(next) ==> next.wf() && next.rom == map.rom,
{
    reveal(MemoryMap::write_8);
    reveal(MemoryMap::select_bank);
}

/// The cartridge image and the bank of it that the window shows.
pub struct Rom {
    buffer: Vec<u8>,
    bank: usize,
}

/// The address space of the machine: 64 KiB of main memory, with the
/// cartridge ROM seen through the addresses below 0x8000.
pub struct Memory {
    main_memory: Vec<u8>,
    rom: Rom,
}

impl View for Memory {
    type V = MemoryMap;

    closed spec fn view(&self) -> MemoryMap {
        MemoryMap { main: self.main_memory@, rom: self.rom.buffer@, bank: self.rom.bank as nat }
    }
}

impl Memory {
    /// Zeroed main memory and a zeroed ROM buffer, with bank 1 in the window.
    pub fn new() -> (mem: Memory)
        ensures
            mem@ == MemoryMap::blank(),
            mem@.wf(),
    {
        let main_memory: Vec<u8> = vec![0u8; ADDRESS_SPACE];
        let buffer: Vec<u8> = vec![0u8; ROM_CAPACITY];
        assert(main_memory@ =~= Seq::new(0x10000, |i: int| 0u8));
        assert(buffer@ =~= Seq::new(0x2FFFF, |i: int| 0u8));
        Memory { main_memory, rom: Rom { buffer, bank: BANK_SIZE } }
    }

    /// The offset in the cartridge image of the bank in the window.
    pub fn bank(&self) -> (offset: usize)
        ensures
            offset == self@.bank,
    {
        self.rom.bank
    }

    /// The size of the cartridge image in bytes.
    pub fn rom_size(&self) -> (size: usize)
        ensures
            size == self@.rom.len(),
    {
        self.rom.buffer.len()
    }

    /// The byte at `address`: cartridge ROM below 0x8000, main memory above.
    pub fn read_8(&self, address: u16) -> (value: u8)
        requires
            self@.wf(),
        ensures
            value == self@.read_8(address),
    {
        proof {
            reveal(MemoryMap::read_8);
        }
        if address < BANK_WINDOW {
            self.rom.buffer[address as usize]
        } else if address < RAM_START {
            assert(self.rom.bank + 0x4000 <= self.rom.buffer.len());
            self.rom.buffer[self.rom.bank + (address - BANK_WINDOW) as usize]
        } else {
            self.main_memory[address as usize]
        }
    }

    /// The word at `address`, low byte first.
    pub fn read_16(&self, address: u16) -> (value: u16)
        requires
            self@.wf(),
        ensures
            value == self@.read_16(address),
    {
        let low: u8 = self.read_8(address);
        let high: u8 = self.read_8(address.wrapping_add(1));
        proof {
            reveal(word_of);
            lemma_word_bytes(0, high, low);
        }
        ((high as u16) << 8) | (low as u16)
    }

    /// Whether a write of `value` at `address` would be carried out.
    pub fn accepts_write(&self, address: u16, value: u8) -> (accepted: bool)
        requires
            self@.wf(),
        ensures
            accepted == (self@.write_8(address, value) is Ok),
    {
        proof {
            reveal(MemoryMap::write_8);
            reveal(MemoryMap::select_bank);
        }
        if address >= BANK_SELECT_START && address < BANK_WINDOW {
            let number: u8 = value & BANK_MASK;
            proof {
                lemma_bank_number(value);
            }
            number == 0 || (if number == 1 {
                BANK_SIZE
            } else {
                BANK_SIZE * (number as usize)
            }) + BANK_SIZE <= self.rom.buffer.len()
        } else {
            true
        }
    }

    /// Puts the bank that `value` asks for in the window, or reports that the
    /// cartridge image does not hold it and leaves the window as it was.
    pub fn select_bank(&mut self, value: u8) -> (res: Result<(), CoreError>)
        requires
            old(self)@.wf(),
        ensures
            final(self)@.wf(),
            written(old(self)@.select_bank(value), old(self)@, res, final(self)@),
    {
        let number: u8 = value & BANK_MASK;
        proof {
            reveal(MemoryMap::select_bank);
            lemma_bank_number(value);
        }
        if number == 0 {
            return Ok(());
        }
        let offset: usize = if number == 1 {
            BANK_SIZE
        } else {
            BANK_SIZE * (number as usize)
        };
        if offset + BANK_SIZE > self.rom.buffer.len() {
            return Err(CoreError::BankOutOfRange);
        }
        self.rom.bank = offset;
        Ok(())
    }

    /// A write below 0x8000 reaches the cartridge, not memory: from 0x2000 to
    /// 0x3FFF it selects a ROM bank, elsewhere it has no effect.
    pub fn write_to_rom_register(&mut self, address: u16, value: u8) -> (res: Result<
        (),
        CoreError,
    >)
        requires
            old(self)@.wf(),
            address < 0x8000,
        ensures
            final(self)@.wf(),
            written(old(self)@.write_8(address, value), old(self)@, res, final(self)@),
    {
        proof {
            reveal(MemoryMap::write_8);
        }
        if address >= BANK_SELECT_START && address < BANK_WINDOW {
            self.select_bank(value)
        } else {
            Ok(())
        }
    }

    /// Stores a byte in main memory, or hands a write below 0x8000 to the
    /// cartridge.
    pub fn write_8(&mut self, address: u16, value: u8) -> (res: Result<(), CoreError>)
        requires
            old(self)@.wf(),
        ensures
            final(self)@.wf(),
            written(old(self)@.write_8(address, value), old(self)@, res, final(self)@),
    {
        proof {
            reveal(MemoryMap::write_8);
        }
        if address < RAM_START {
            self.write_to_rom_register(address, value)
        } else {
            self.main_memory[address as usize] = value;
            Ok(())
        }
    }

    /// Writes a word, low byte first. If either byte would be refused,
    /// neither is written.
    pub fn write_16(&mut self, address: u16, value: u16) -> (res: Result<(), CoreError>)
        requires
            old(self)@.wf(),
        ensures
            final(self)@.wf(),
            written(old(self)@.write_16(address, value), old(self)@, res, final(self)@),
    {
        proof {
            reveal(MemoryMap::write_8);
            reveal(MemoryMap::select_bank);
            reveal(high_byte);
            reveal(low_byte);
            lemma_word_bytes(value, 0, 0);
            lemma_write_keeps_wf(self@, address, low_byte(value));
        }
        let low: u8 = (value & 0xFF) as u8;
        let high: u8 = (value >> 8) as u8;
        let next: u16 = address.wrapping_add(1);
        if !self.accepts_write(address, low) || !self.accepts_write(next, high) {
            return Err(CoreError::BankOutOfRange);
        }
        match self.write_8(address, low) {
            Ok(()) => self.write_8(next, high),
            Err(e) => Err(e),
        }
    }

    /// Takes `rom` as the cartridge image and puts bank 1 in the window. An
    /// image that ends before bank 1 does is refused, and nothing changes.
    pub fn set_rom(&mut self, rom: Vec<u8>) -> (res: Result<(), CoreError>)
        requires
            old(self)@.wf(),
        ensures
            final(self)@.wf(),
            written(old(self)@.set_rom(rom@), old(self)@, res, final(self)@),
    {
        if rom.len() < 2 * BANK_SIZE {
            return Err(CoreError::BankOutOfRange);
        }
        self.rom.buffer = rom;
        self.rom.bank = BANK_SIZE;
        Ok(())
    }
}

/// The mask `0x1F` keeps the remainder by 32.
pub proof fn lemma_bank_number(value: u8)
    by (bit_vector)
    ensures
        value & 0x1Fu8 == value % 32u8,
{
}

} // verus!
