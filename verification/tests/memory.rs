use gb_core::error::CoreError;
use gb_core::memory::Memory;

/// An image of `banks` banks in which every byte of bank `n` is `n`, but for
/// the first byte of each bank, which is `0xA0 + n`.
fn image(banks: usize) -> Vec<u8> {
    let mut rom = vec![0u8; banks * 0x4000];
    for n in 0..banks {
        for i in 0..0x4000 {
            rom[n * 0x4000 + i] = n as u8;
        }
        rom[n * 0x4000] = 0xA0 + n as u8;
    }
    rom
}

fn loaded(banks: usize) -> Memory {
    let mut mem = Memory::new();
    assert_eq!(mem.set_rom(image(banks)), Ok(()));
    mem
}

#[test]
fn new_memory_reads_zero_everywhere() {
    let mem = Memory::new();
    for address in [0x0000u16, 0x3FFF, 0x4000, 0x7FFF, 0x8000, 0xC123, 0xFF40, 0xFFFF] {
        assert_eq!(mem.read_8(address), 0);
    }
    assert_eq!(mem.bank(), 0x4000);
    assert_eq!(mem.rom_size(), 0x2FFFF);
}

#[test]
fn ram_write_then_read_gives_the_byte() {
    let mut mem = Memory::new();
    for address in 0x8000..=0xFFFFu16 {
        let value = (address as u8) ^ 0x5A;
        assert_eq!(mem.write_8(address, value), Ok(()));
        assert_eq!(mem.read_8(address), value);
    }
    for address in 0x8000..=0xFFFFu16 {
        assert_eq!(mem.read_8(address), (address as u8) ^ 0x5A);
    }
}

#[test]
fn ram_write_changes_no_other_address() {
    let mut mem = loaded(4);
    assert_eq!(mem.write_8(0xC000, 0x77), Ok(()));
    assert_eq!(mem.read_8(0xBFFF), 0);
    assert_eq!(mem.read_8(0xC001), 0);
    assert_eq!(mem.read_8(0x0000), 0xA0);
    assert_eq!(mem.read_8(0x4000), 0xA1);
    assert_eq!(mem.bank(), 0x4000);
}

#[test]
fn highest_address_is_ordinary_memory() {
    let mut mem = Memory::new();
    assert_eq!(mem.write_8(0xFFFF, 0x1F), Ok(()));
    assert_eq!(mem.read_8(0xFFFF), 0x1F);
    assert_eq!(mem.write_8(0xFF40, 0x91), Ok(()));
    assert_eq!(mem.read_8(0xFF40), 0x91);
}

#[test]
fn low_addresses_read_the_first_bank() {
    let mut mem = loaded(4);
    assert_eq!(mem.read_8(0x0000), 0xA0);
    assert_eq!(mem.read_8(0x0001), 0x00);
    assert_eq!(mem.read_8(0x3FFF), 0x00);
    assert_eq!(mem.write_8(0x2100, 3), Ok(()));
    assert_eq!(mem.read_8(0x0000), 0xA0);
    assert_eq!(mem.read_8(0x3FFF), 0x00);
}

#[test]
fn window_reads_the_selected_bank() {
    let mut mem = loaded(4);
    assert_eq!(mem.read_8(0x4000), 0xA1);
    assert_eq!(mem.read_8(0x4001), 1);
    assert_eq!(mem.read_8(0x7FFF), 1);
    assert_eq!(mem.write_8(0x2000, 2), Ok(()));
    assert_eq!(mem.bank(), 0x8000);
    assert_eq!(mem.read_8(0x4000), 0xA2);
    assert_eq!(mem.read_8(0x7FFF), 2);
    assert_eq!(mem.write_8(0x3FFF, 3), Ok(()));
    assert_eq!(mem.bank(), 0xC000);
    assert_eq!(mem.read_8(0x4000), 0xA3);
    assert_eq!(mem.read_8(0x5555), 3);
}

#[test]
fn bank_switch_leaves_main_memory_alone() {
    let mut mem = loaded(4);
    assert_eq!(mem.write_8(0x8000, 0x11), Ok(()));
    assert_eq!(mem.write_8(0xFFFE, 0x22), Ok(()));
    assert_eq!(mem.select_bank(3), Ok(()));
    assert_eq!(mem.read_8(0x8000), 0x11);
    assert_eq!(mem.read_8(0xFFFE), 0x22);
    assert_eq!(mem.read_8(0x4000), 0xA3);
}

#[test]
fn bank_zero_keeps_the_selected_bank() {
    let mut mem = loaded(4);
    assert_eq!(mem.select_bank(2), Ok(()));
    assert_eq!(mem.select_bank(0), Ok(()));
    assert_eq!(mem.bank(), 0x8000);
    assert_eq!(mem.read_8(0x4000), 0xA2);
    assert_eq!(mem.select_bank(0xE0), Ok(()));
    assert_eq!(mem.bank(), 0x8000);
}

#[test]
fn bank_one_is_the_second_sixteen_kilobytes() {
    let mut mem = loaded(4);
    assert_eq!(mem.select_bank(3), Ok(()));
    assert_eq!(mem.select_bank(1), Ok(()));
    assert_eq!(mem.bank(), 0x4000);
    assert_eq!(mem.read_8(0x4000), 0xA1);
}

#[test]
fn only_the_low_five_bits_select() {
    let mut mem = loaded(4);
    assert_eq!(mem.select_bank(0xE2), Ok(()));
    assert_eq!(mem.bank(), 0x8000);
    assert_eq!(mem.select_bank(0x23), Ok(()));
    assert_eq!(mem.bank(), 0xC000);
}

#[test]
fn bank_beyond_the_image_is_refused() {
    let mut mem = loaded(4);
    assert_eq!(mem.select_bank(2), Ok(()));
    assert_eq!(mem.select_bank(4), Err(CoreError::BankOutOfRange));
    assert_eq!(mem.bank(), 0x8000);
    assert_eq!(mem.write_8(0x2000, 31), Err(CoreError::BankOutOfRange));
    assert_eq!(mem.bank(), 0x8000);
    assert_eq!(mem.read_8(0x4000), 0xA2);
    assert!(!mem.accepts_write(0x2000, 4));
    assert!(mem.accepts_write(0x2000, 3));
    assert!(mem.accepts_write(0x2000, 0));
    assert!(mem.accepts_write(0x1FFF, 4));
    assert!(mem.accepts_write(0x4000, 4));
    assert!(mem.accepts_write(0x8000, 4));
}

#[test]
fn last_bank_of_the_fresh_buffer_is_cut_short() {
    let mut mem = Memory::new();
    assert_eq!(mem.select_bank(10), Ok(()));
    assert_eq!(mem.bank(), 0x28000);
    assert_eq!(mem.select_bank(11), Err(CoreError::BankOutOfRange));
    assert_eq!(mem.bank(), 0x28000);
}

#[test]
fn writes_outside_the_select_range_do_nothing() {
    let mut mem = loaded(4);
    for address in [0x0000u16, 0x1FFF, 0x4000, 0x7FFF] {
        assert_eq!(mem.write_8(address, 3), Ok(()));
        assert_eq!(mem.write_to_rom_register(address, 31), Ok(()));
        assert_eq!(mem.bank(), 0x4000);
    }
    assert_eq!(mem.read_8(0x0000), 0xA0);
    assert_eq!(mem.read_8(0x4000), 0xA1);
    assert_eq!(mem.read_8(0x7FFF), 1);
}

#[test]
fn select_range_starts_at_0x2000() {
    let mut mem = loaded(4);
    assert_eq!(mem.write_to_rom_register(0x2000, 2), Ok(()));
    assert_eq!(mem.bank(), 0x8000);
    assert_eq!(mem.write_to_rom_register(0x3FFF, 3), Ok(()));
    assert_eq!(mem.bank(), 0xC000);
}

#[test]
fn word_is_stored_low_byte_first() {
    let mut mem = Memory::new();
    assert_eq!(mem.write_16(0x9000, 0x1234), Ok(()));
    assert_eq!(mem.read_8(0x9000), 0x34);
    assert_eq!(mem.read_8(0x9001), 0x12);
    assert_eq!(mem.read_16(0x9000), 0x1234);
}

#[test]
fn word_write_then_read_gives_the_word() {
    let mut mem = Memory::new();
    for (i, address) in (0x8000..0xFFFFu16).step_by(0x0101).enumerate() {
        let value = 0xF00Du16.wrapping_mul(i as u16 + 1);
        assert_eq!(mem.write_16(address, value), Ok(()));
        assert_eq!(mem.read_16(address), value);
    }
    assert_eq!(mem.write_16(0xFFFE, 0xABCD), Ok(()));
    assert_eq!(mem.read_16(0xFFFE), 0xABCD);
}

#[test]
fn word_is_read_low_byte_first() {
    let mut mem = Memory::new();
    assert_eq!(mem.write_8(0xC000, 0xCD), Ok(()));
    assert_eq!(mem.write_8(0xC001, 0xAB), Ok(()));
    assert_eq!(mem.read_16(0xC000), 0xABCD);
}

#[test]
fn word_at_the_last_address_wraps_to_the_first() {
    let mut mem = loaded(2);
    assert_eq!(mem.write_16(0xFFFF, 0x1234), Ok(()));
    assert_eq!(mem.read_8(0xFFFF), 0x34);
    assert_eq!(mem.read_8(0x0000), 0xA0);
    assert_eq!(mem.read_16(0xFFFF), 0xA034);
}

#[test]
fn refused_word_write_stores_neither_byte() {
    let mut mem = loaded(2);
    assert_eq!(mem.write_16(0x1FFF, 0x05AA), Err(CoreError::BankOutOfRange));
    assert_eq!(mem.bank(), 0x4000);
    assert_eq!(mem.write_16(0x3FFF, 0x0005), Err(CoreError::BankOutOfRange));
    assert_eq!(mem.bank(), 0x4000);
    assert_eq!(mem.write_8(0xFFFF, 0x99), Ok(()));
    let mut big = loaded(4);
    assert_eq!(big.write_16(0x2000, 0x0702), Err(CoreError::BankOutOfRange));
    assert_eq!(big.bank(), 0x4000);
    assert_eq!(big.write_16(0x2000, 0x0203), Ok(()));
    assert_eq!(big.bank(), 0x8000);
}

#[test]
fn set_rom_selects_bank_one() {
    let mut mem = loaded(4);
    assert_eq!(mem.select_bank(3), Ok(()));
    assert_eq!(mem.write_8(0xC000, 0x42), Ok(()));
    assert_eq!(mem.set_rom(image(2)), Ok(()));
    assert_eq!(mem.bank(), 0x4000);
    assert_eq!(mem.rom_size(), 0x8000);
    assert_eq!(mem.read_8(0x4000), 0xA1);
    assert_eq!(mem.read_8(0xC000), 0x42);
}

#[test]
fn image_shorter_than_two_banks_is_refused() {
    let mut mem = loaded(4);
    assert_eq!(mem.select_bank(2), Ok(()));
    assert_eq!(mem.set_rom(vec![0xFF; 0x7FFF]), Err(CoreError::BankOutOfRange));
    assert_eq!(mem.set_rom(Vec::new()), Err(CoreError::BankOutOfRange));
    assert_eq!(mem.rom_size(), 0x10000);
    assert_eq!(mem.bank(), 0x8000);
    assert_eq!(mem.read_8(0x4000), 0xA2);
    assert_eq!(mem.set_rom(vec![0xFF; 0x8000]), Ok(()));
    assert_eq!(mem.read_8(0x7FFF), 0xFF);
}
