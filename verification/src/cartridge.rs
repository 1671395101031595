use vstd::prelude::*;

verus! {

/// Offset of the logo in a cartridge image.
pub const LOGO_OFFSET: usize = 0x100;

/// Length of the logo.
pub const LOGO_LENGTH: usize = 48;

/// Offset of the title in a cartridge image.
pub const TITLE_OFFSET: usize = 0x134;

/// Length of the title.
pub const TITLE_LENGTH: usize = 16;

/// Length of the part of an image that holds the header.
pub const HEADER_END: usize = 0x150;

/// The header of a cartridge image.
#[derive(Debug)]
pub struct CartridgeHeader {
    pub title: Vec<u8>,
    pub logo: Vec<u8>,
    pub c_type: u8,
    pub rom_size: u8,
    pub ram_size: u8,
    pub destination: u8,
    pub old_licensee: u8,
    pub mask_rom_version: u8,
    pub header_checksum: u8,
    pub global_checksum: [u8; 2],
}

/// Copies `rom[from..from + length]`.
fn copy_range(rom: &Vec<u8>, from: usize, length: usize) -> (bytes: Vec<u8>)
    requires
        from + length <= rom@.len(),
    ensures
        bytes@ == rom@.subrange(from as int, from + length),
{
    let size: usize = rom.len();
    let mut bytes: Vec<u8> = Vec::new();
    let mut i: usize = 0;
    while i < length
        invariant
            from + length <= size,
            size == rom@.len(),
            i <= length,
            bytes@ == rom@.subrange(from as int, from + i),
        decreases length - i,
    {
        bytes.push(rom[from + i]);
        assert(bytes@ =~= rom@.subrange(from as int, from + i + 1));
        i = i + 1;
    }
    bytes
}

impl CartridgeHeader {
    /// Whether `self` is the header that the image `rom` holds at the
    /// fixed offsets.
    pub open spec fn is_header_of(self, rom: Seq<u8>) -> bool {
        &&& self.title@ == rom.subrange(0x134, 0x144)
        &&& self.logo@ == rom.subrange(0x100, 0x130)
        &&& self.c_type == rom[0x147]
        &&& self.rom_size == rom[0x148]
        &&& self.ram_size == rom[0x149]
        &&& self.destination == rom[0x14A]
        &&& self.old_licensee == rom[0x14B]
        &&& self.mask_rom_version == rom[0x14C]
        &&& self.header_checksum == rom[0x14D]
        &&& self.global_checksum@ == rom.subrange(0x14E, 0x150)
    }

    /// Reads the header out of a cartridge image; an image that ends
    /// before the header does has none.
    pub fn parse(rom: &Vec<u8>) -> (header: Option<CartridgeHeader>)
        ensures
            match header {
                Some(h) => rom@.len() >= 0x150 && h.is_header_of(rom@),
                None => rom@.len() < 0x150,
            },
    {
        if rom.len() < HEADER_END {
            return None;
        }
        let global_checksum: [u8; 2] = [rom[0x14E], rom[0x14F]];
        assert(global_checksum@ =~= rom@.subrange(0x14E, 0x150));
        Some(
            CartridgeHeader {
                title: copy_range(rom, TITLE_OFFSET, TITLE_LENGTH),
                logo: copy_range(rom, LOGO_OFFSET, LOGO_LENGTH),
                c_type: rom[0x147],
                rom_size: rom[0x148],
                ram_size: rom[0x149],
                destination: rom[0x14A],
                old_licensee: rom[0x14B],
                mask_rom_version: rom[0x14C],
                header_checksum: rom[0x14D],
                global_checksum,
            },
        )
    }
}

} // verus!
