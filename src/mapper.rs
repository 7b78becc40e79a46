use vstd::prelude::*;
use crate::cartridge::Cartridge;
use crate::err::EmuErr;

verus! {

/// The cartridge boards that can be loaded.
#[derive(Debug, Clone, Copy, PartialEq, Eq, Structural)]
pub enum MapperType {
    NROM,
}

impl MapperType {
    /// The mapper for an iNES mapper id: only id 0 (NROM) is supported.
    pub fn from_id(id: u8) -> (r: Result<MapperType, EmuErr>)
        ensures
            id == 0 ==> r == Ok::<MapperType, EmuErr>(MapperType::NROM),
            id != 0 ==> r == Err::<MapperType, EmuErr>(EmuErr::UnsupportedMapperType),
    {
        match id {
            0 => Ok(MapperType::NROM),
            _ => Err(EmuErr::UnsupportedMapperType),
        }
    }
}

/// What a cartridge board offers the CPU and PPU buses: PRG reads and writes
/// at 0x8000..=0xFFFF, CHR reads and writes in pattern-table space.
pub trait Mapper {
    /// The byte that a PRG read at `addr` returns.
    spec fn prg_byte(&self, addr: u16) -> u8;

    /// Whether a CHR access at `addr` is supported.
    spec fn chr_readable(&self, addr: u16) -> bool;

    /// The byte that a CHR read at `addr` returns.
    spec fn chr_byte(&self, addr: u16) -> u8;

    fn read_prg_rom(&self, addr: u16) -> (r: u8)
        requires
            addr >= 0x8000,
        ensures
            r == self.prg_byte(addr),
    ;

    /// A write into PRG space. A board without registers there ignores it.
    fn write_prg_rom(&self, addr: u16, data: u8)
        requires
            addr >= 0x8000,
    ;

    fn read_chr(&self, addr: u16) -> (r: u8)
        requires
            self.chr_readable(addr),
        ensures
            r == self.chr_byte(addr),
    ;

    fn write_chr(&self, addr: u16, data: u8)
        requires
            self.chr_readable(addr),
    ;
}

/// The PRG byte of a fixed-bank board at CPU address `addr`: 16KB images are
/// mirrored across the 32KB window, larger ones are mapped straight, and
/// addresses past the image read as 0.
pub open spec fn nrom_prg_byte(prg: Seq<u8>, addr: u16) -> u8 {
    let off = addr as int - 0x8000;
    let off = if prg.len() == 0x4000 { off % 0x4000 } else { off };
    if 0 <= off < prg.len() {
        prg[off]
    } else {
        0
    }
}

/// The fixed-bank board: PRG-ROM at 0x8000..=0xFFFF, CHR-ROM in pattern
/// space, no bank switching.
pub struct MapperNROM {
    cartridge: Cartridge,
    nrom_128: bool,
}

impl MapperNROM {
    pub closed spec fn prg(&self) -> Seq<u8> {
        self.cartridge.prg()
    }

    pub closed spec fn chr(&self) -> Seq<u8> {
        self.cartridge.chr()
    }

    pub closed spec fn chr_ram(&self) -> bool {
        self.cartridge.header()[5] == 0
    }

    pub closed spec fn wf(&self) -> bool {
        &&& self.cartridge.wf()
        &&& self.nrom_128 == (self.cartridge.prg().len() == 0x4000)
    }

    pub fn new(cartridge: Cartridge) -> (r: MapperNROM)
        requires
            cartridge.wf(),
        ensures
            r.wf(),
            r.prg() == cartridge.prg(),
            r.chr() == cartridge.chr(),
            r.chr_ram() == (cartridge.header()[5] == 0),
    {
        let nrom_128 = cartridge.prg_rom_sz() == 0x4000;
        MapperNROM { cartridge, nrom_128 }
    }
}

impl Mapper for MapperNROM {
    open spec fn prg_byte(&self, addr: u16) -> u8 {
        nrom_prg_byte(self.prg(), addr)
    }

    open spec fn chr_readable(&self, addr: u16) -> bool {
        self.wf() && !self.chr_ram() && (addr as int) < self.chr().len()
    }

    open spec fn chr_byte(&self, addr: u16) -> u8 {
        self.chr()[addr as int]
    }

    fn read_prg_rom(&self, addr: u16) -> (r: u8) {
        let mut off: u16 = addr - 0x8000;
        if self.cartridge.prg_rom_sz() == 0x4000 {
            off = off % 0x4000;
        }
        if (off as usize) < self.cartridge.prg_rom_sz() {
            self.cartridge.read_prg_rom(off)
        } else {
            0
        }
    }

    fn write_prg_rom(&self, addr: u16, data: u8) {
    }

    fn read_chr(&self, addr: u16) -> (r: u8) {
        self.cartridge.read_chr_rom(addr)
    }

    fn write_chr(&self, addr: u16, data: u8) {
    }
}

/// Builds the board that the cartridge's header names.
pub fn build_mapper(cartridge: Cartridge) -> (r: MapperNROM)
    requires
        cartridge.wf(),
    ensures
        r.wf(),
        r.prg() == cartridge.prg(),
        r.chr() == cartridge.chr(),
        r.chr_ram() == (cartridge.header()[5] == 0),
{
    match cartridge.mapper() {
        MapperType::NROM => MapperNROM::new(cartridge),
    }
}

} // verus!
