use gb_core::cartridge::CartridgeHeader;
use gb_core::memory::Memory;
use gb_core::ppu::{
    Oam, Ppu, LCDC_REGISTER, LY_POSITION, OAM_MEM_START, SCX_POSITION, SCY_POSITION, STAT,
    TILE_MAP_START,
};

const BLANK: Oam = Oam { y_pos: 0, x_pos: 0, tile_indx: 0, flags: 0 };

#[test]
fn register_addresses() {
    assert_eq!(LCDC_REGISTER, 0xFF40);
    assert_eq!(STAT, 0xFF41);
    assert_eq!(SCY_POSITION, 0xFF42);
    assert_eq!(SCX_POSITION, 0xFF43);
    assert_eq!(LY_POSITION, 0xFF44);
    assert_eq!(OAM_MEM_START, 0xFE00);
    assert_eq!(TILE_MAP_START, 0x9800);
}

#[test]
fn new_ppu_is_blank() {
    let ppu = Ppu::new();
    for i in 0..40 {
        assert_eq!(ppu.oam(i), BLANK);
    }
    for i in 0..160 {
        assert_eq!(ppu.background_pixel(i), 0);
    }
    assert_eq!(ppu.background_tile_address(0), 0x9800);
}

#[test]
fn load_oam_reads_four_bytes_to_an_entry() {
    let mut mem = Memory::new();
    for i in 0..160u16 {
        mem.write_8(0xFE00 + i, i as u8 + 1).unwrap();
    }
    let mut ppu = Ppu::new();
    ppu.load_oam(&mem);
    for i in 0..39u8 {
        assert_eq!(
            ppu.oam(i as usize),
            Oam { y_pos: 4 * i + 1, x_pos: 4 * i + 2, tile_indx: 4 * i + 3, flags: 4 * i + 4 }
        );
    }
    assert_eq!(ppu.oam(39), BLANK);
}

#[test]
fn load_oam_replaces_the_table() {
    let mut mem = Memory::new();
    mem.write_8(0xFE04, 0x10).unwrap();
    let mut ppu = Ppu::new();
    ppu.load_oam(&mem);
    assert_eq!(ppu.oam(1), Oam { y_pos: 0x10, x_pos: 0, tile_indx: 0, flags: 0 });
    mem.write_8(0xFE04, 0x00).unwrap();
    mem.write_8(0xFE0B, 0x80).unwrap();
    ppu.load_oam(&mem);
    assert_eq!(ppu.oam(1), BLANK);
    assert_eq!(ppu.oam(2), Oam { y_pos: 0, x_pos: 0, tile_indx: 0, flags: 0x80 });
}

#[test]
fn background_tile_addresses() {
    let mut ppu = Ppu::new();
    assert_eq!(ppu.background_tile_address(7), 0x9800);
    assert_eq!(ppu.background_tile_address(8), 0x9801);
    assert_eq!(ppu.background_tile_address(159), 0x9813);
    ppu.set_scroll(4, 8);
    assert_eq!(ppu.background_tile_address(0), 0x9820);
    assert_eq!(ppu.background_tile_address(3), 0x9820);
    assert_eq!(ppu.background_tile_address(4), 0x9821);
    ppu.set_scroll(250, 255);
    assert_eq!(ppu.background_tile_address(0), 0x9800 + 31 * 32 + 31);
    assert_eq!(ppu.background_tile_address(5), 0x9800 + 31 * 32 + 31);
    assert_eq!(ppu.background_tile_address(6), 0x9800 + 31 * 32);
}

#[test]
fn load_backgroundline_reads_the_tile_under_each_pixel() {
    let mut mem = Memory::new();
    for i in 0..0x400u16 {
        mem.write_8(0x9800 + i, (i % 251) as u8 + 1).unwrap();
    }
    let mut ppu = Ppu::new();
    ppu.set_scroll(12, 17);
    ppu.load_backgroundline(&mem);
    for i in 0..159usize {
        let tile = 2 * 32 + ((12 + i) % 256) / 8;
        assert_eq!(ppu.background_pixel(i), (tile % 251) as u8 + 1);
    }
    assert_eq!(ppu.background_pixel(159), 0);
    ppu.set_scroll(200, 0);
    ppu.load_backgroundline(&mem);
    assert_eq!(ppu.background_pixel(0), 26);
    assert_eq!(ppu.background_pixel(55), 32);
    assert_eq!(ppu.background_pixel(56), 1);
    assert_eq!(ppu.background_pixel(158), 13);
}

#[test]
fn header_fields_come_from_their_offsets() {
    let mut rom = vec![0u8; 0x8000];
    for (i, byte) in rom.iter_mut().enumerate().take(0x150).skip(0x100) {
        *byte = (i - 0x100) as u8 ^ 0xA5;
    }
    for (i, letter) in b"TETRIS".iter().enumerate() {
        rom[0x134 + i] = *letter;
    }
    let header = CartridgeHeader::parse(&rom).unwrap();
    assert_eq!(&header.title[..6], b"TETRIS");
    assert_eq!(header.title.len(), 16);
    assert_eq!(header.title[15], 0x43 ^ 0xA5);
    assert_eq!(header.logo.len(), 48);
    assert_eq!(header.logo, rom[0x100..0x130].to_vec());
    assert_eq!(header.c_type, 0x47 ^ 0xA5);
    assert_eq!(header.rom_size, 0x48 ^ 0xA5);
    assert_eq!(header.ram_size, 0x49 ^ 0xA5);
    assert_eq!(header.destination, 0x4A ^ 0xA5);
    assert_eq!(header.old_licensee, 0x4B ^ 0xA5);
    assert_eq!(header.mask_rom_version, 0x4C ^ 0xA5);
    assert_eq!(header.header_checksum, 0x4D ^ 0xA5);
    assert_eq!(header.global_checksum, [0x4E ^ 0xA5, 0x4F ^ 0xA5]);
}

#[test]
fn image_that_ends_before_the_header_has_none() {
    assert!(CartridgeHeader::parse(&Vec::new()).is_none());
    assert!(CartridgeHeader::parse(&vec![0u8; 0x14F]).is_none());
    assert!(CartridgeHeader::parse(&vec![0u8; 0x150]).is_some());
}
