use vstd::prelude::*;
use crate::memory::{Memory, MemoryMap};

verus! {

/// Address of the LCD control register.
pub const LCDC_REGISTER: u16 = 0xFF40;

/// Address of the LCD status register.
pub const STAT: u16 = 0xFF41;

/// Address of the vertical scroll register.
pub const SCY_POSITION: u16 = 0xFF42;

/// Address of the horizontal scroll register.
pub const SCX_POSITION: u16 = 0xFF43;

/// Address of the register that holds the current scanline.
pub const LY_POSITION: u16 = 0xFF44;

/// First address of the object attribute memory.
pub const OAM_MEM_START: u16 = 0xFE00;

/// First address of the background tile map.
pub const TILE_MAP_START: u16 = 0x9800;

/// Entries in the object attribute table.
pub const OAM_ENTRIES: usize = 40;

/// Entries that a load of the table reads from memory.
pub const OAM_LOADED: usize = 39;

/// Pixels in a line.
pub const LINE_WIDTH: usize = 160;

/// Pixels of a line that a load of the background line fills.
pub const LINE_LOADED: usize = 159;

/// One entry of the object attribute table.
#[derive(Clone, Copy, Debug, PartialEq, Eq, Structural)]
pub struct Oam {
    pub y_pos: u8,
    pub x_pos: u8,
    pub tile_indx: u8,
    pub flags: u8,
}

/// The picture unit as a value.
pub struct PpuState {
    pub oams: Seq<Oam>,
    pub background_line: Seq<u8>,
    pub window_line: Seq<u8>,
    pub vx: u8,
    pub vy: u8,
}

/// The entry without position, tile or attributes.
pub open spec fn blank_oam() -> Oam {
    Oam { y_pos: 0, x_pos: 0, tile_indx: 0, flags: 0 }
}

/// The entry that the four bytes at `0xFE00 + 4 * index` describe.
pub open spec fn oam_at(mem: MemoryMap, index: int) -> Oam {
    Oam {
        y_pos: mem.read_8((0xFE00 + 4 * index) as u16),
        x_pos: mem.read_8((0xFE00 + 4 * index + 1) as u16),
        tile_indx: mem.read_8((0xFE00 + 4 * index + 2) as u16),
        flags: mem.read_8((0xFE00 + 4 * index + 3) as u16),
    }
}

/// The address in the background tile map of the tile under a pixel of
/// the line: 32 tiles of 8 by 8 pixels to a row, with the horizontal
/// position wrapping at 256.
pub open spec fn tile_address(vx: u8, vy: u8, pixel: int) -> u16 {
    (0x9800 + (vy / 8) * 32 + ((vx + pixel) % 256) / 8) as u16
}

impl PpuState {
    pub open spec fn wf(self) -> bool {
        &&& self.oams.len() == 40
        &&& self.background_line.len() == 160
        &&& self.window_line.len() == 160
    }

    /// Nothing on screen and no scroll.
    pub open spec fn blank() -> PpuState {
        PpuState {
            oams: Seq::new(40, |i: int| blank_oam()),
            background_line: Seq::new(160, |i: int| 0u8),
            window_line: Seq::new(160, |i: int| 0u8),
            vx: 0,
            vy: 0,
        }
    }

    /// The first 39 entries are read from memory; the last is blank.
    pub open spec fn load_oam(self, mem: MemoryMap) -> PpuState {
        PpuState {
            oams: Seq::new(
                40,
                |i: int|
                    if i < 39 {
                        oam_at(mem, i)
                    } else {
                        blank_oam()
                    },
            ),
            ..self
        }
    }

    /// The first 159 pixels take the number of the tile under them; the
    /// last is 0.
    pub open spec fn load_backgroundline(self, mem: MemoryMap) -> PpuState {
        PpuState {
            background_line: Seq::new(
                160,
                |i: int|
                    if i < 159 {
                        mem.read_8(tile_address(self.vx, self.vy, i))
                    } else {
                        0u8
                    },
            ),
            ..self
        }
    }
}

/// The picture unit: the object attribute table, one line of background
/// and one of window, and the scroll position.
pub struct Ppu {
    oams: Vec<Oam>,
    background_line: Vec<u8>,
    window_line: Vec<u8>,
    vx: u8,
    vy: u8,
}

impl View for Ppu {
    type V = PpuState;

    closed spec fn view(&self) -> PpuState {
        PpuState {
            oams: self.oams@,
            background_line: self.background_line@,
            window_line: self.window_line@,
            vx: self.vx,
            vy: self.vy,
        }
    }
}

impl Ppu {
    pub fn new() -> (ppu: Ppu)
        ensures
            ppu@ == PpuState::blank(),
            ppu@.wf(),
    {
        let blank = Oam { y_pos: 0, x_pos: 0, tile_indx: 0, flags: 0 };
        let oams: Vec<Oam> = vec![blank; OAM_ENTRIES];
        let background_line: Vec<u8> = vec![0u8; LINE_WIDTH];
        let window_line: Vec<u8> = vec![0u8; LINE_WIDTH];
        assert(oams@ =~= Seq::new(40, |i: int| blank_oam()));
        assert(background_line@ =~= Seq::new(160, |i: int| 0u8));
        assert(window_line@ =~= Seq::new(160, |i: int| 0u8));
        Ppu { oams, background_line, window_line, vx: 0, vy: 0 }
    }

    /// Entry `index` of the object attribute table.
    pub fn oam(&self, index: usize) -> (entry: Oam)
        requires
            self@.wf(),
            index < 40,
        ensures
            entry == self@.oams[index as int],
    {
        self.oams[index]
    }

    /// Pixel `index` of the background line.
    pub fn background_pixel(&self, index: usize) -> (pixel: u8)
        requires
            self@.wf(),
            index < 160,
        ensures
            pixel == self@.background_line[index as int],
    {
        self.background_line[index]
    }

    /// Sets the scroll position.
    pub fn set_scroll(&mut self, vx: u8, vy: u8)
        ensures
            final(self)@ == (PpuState { vx, vy, ..old(self)@ }),
    {
        self.vx = vx;
        self.vy = vy;
    }

    /// Reads the object attribute table from memory at `0xFE00`, four bytes
    /// to an entry.
    pub fn load_oam(&mut self, mem: &Memory)
        requires
            old(self)@.wf(),
            mem@.wf(),
        ensures
            final(self)@ == old(self)@.load_oam(mem@),
            final(self)@.wf(),
    {
        let blank = Oam { y_pos: 0, x_pos: 0, tile_indx: 0, flags: 0 };
        let mut oams: Vec<Oam> = vec![blank; OAM_ENTRIES];
        let mut i: usize = 0;
        while i < OAM_LOADED
            invariant
                mem@.wf(),
                i <= 39,
                oams@.len() == 40,
                forall|j: int| 0 <= j < i ==> oams@[j] == oam_at(mem@, j),
                forall|j: int| i <= j < 40 ==> oams@[j] == blank_oam(),
            decreases 39 - i,
        {
            let address: u16 = OAM_MEM_START + (i * 4) as u16;
            oams[i] = Oam {
                y_pos: mem.read_8(address),
                x_pos: mem.read_8(address + 1),
                tile_indx: mem.read_8(address + 2),
                flags: mem.read_8(address + 3),
            };
            i = i + 1;
        }
        assert(oams@ =~= old(self)@.load_oam(mem@).oams);
        self.oams = oams;
    }

    /// The address in the background tile map of the tile under pixel
    /// `pixel` of the line.
    pub fn background_tile_address(&self, pixel: u8) -> (address: u16)
        ensures
            address == tile_address(self@.vx, self@.vy, pixel as int),
    {
        let tx: u8 = self.vx.wrapping_add(pixel) / 8;
        let ty: u8 = self.vy / 8;
        TILE_MAP_START + (ty as u16) * 32 + tx as u16
    }

    /// Fills the background line with the numbers of the tiles under its
    /// pixels, read from the tile map at the scroll position.
    pub fn load_backgroundline(&mut self, mem: &Memory)
        requires
            old(self)@.wf(),
            mem@.wf(),
        ensures
            final(self)@ == old(self)@.load_backgroundline(mem@),
            final(self)@.wf(),
    {
        let mut line: Vec<u8> = vec![0u8; LINE_WIDTH];
        let mut i: usize = 0;
        while i < LINE_LOADED
            invariant
                mem@.wf(),
                i <= 159,
                line@.len() == 160,
                *self == *old(self),
                forall|j: int| 0 <= j < i ==> line@[j] == mem@.read_8(
                    tile_address(self@.vx, self@.vy, j),
                ),
                forall|j: int| i <= j < 160 ==> line@[j] == 0u8,
            decreases 159 - i,
        {
            let address: u16 = self.background_tile_address(i as u8);
            line[i] = mem.read_8(address);
            i = i + 1;
        }
        assert(line@ =~= old(self)@.load_backgroundline(mem@).background_line);
        self.background_line = line;
    }
}

} // verus!
