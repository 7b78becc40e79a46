use vstd::prelude::*;
use crate::err::EmuErr;
use crate::mapper::MapperType;

verus! {

/// Size of one PRG-ROM bank.
pub const PRG_BANK_SIZE: usize = 16384;

/// Size of one CHR-ROM bank.
pub const CHR_BANK_SIZE: usize = 8192;

/// Length of the iNES header.
pub const HEADER_LEN: usize = 16;

/// Nametable mirroring declared by a cartridge.
#[derive(Clone, Copy, Debug, PartialEq, Eq, Structural)]
pub enum Mirroring {
    Horizontal,
    Vertical,
    FourScreen,
}

/// Whether the first four bytes are the iNES magic `"NES" 0x1A`.
pub open spec fn has_ines_magic(rom: Seq<u8>) -> bool {
    &&& rom.len() >= 4
    &&& rom[0] == 0x4E
    &&& rom[1] == 0x45
    &&& rom[2] == 0x53
    &&& rom[3] == 0x1A
}

/// The mapper id: the high nibble of control byte 2 followed by the high
/// nibble of control byte 1.
pub open spec fn ines_mapper_id(rom: Seq<u8>) -> int
    recommends
        rom.len() >= HEADER_LEN,
{
    (rom[7] as int / 16) * 16 + rom[6] as int / 16
}

/// Number of PRG-ROM bytes that the header declares.
pub open spec fn ines_prg_len(rom: Seq<u8>) -> int
    recommends
        rom.len() >= HEADER_LEN,
{
    rom[4] as int * PRG_BANK_SIZE
}

/// Number of CHR-ROM bytes that the header declares (zero: CHR-RAM).
pub open spec fn ines_chr_len(rom: Seq<u8>) -> int
    recommends
        rom.len() >= HEADER_LEN,
{
    rom[5] as int * CHR_BANK_SIZE
}

/// Mirroring declared by control byte 1: bit 3 asks for four screens,
/// otherwise bit 0 selects vertical (1) or horizontal (0).
pub open spec fn ines_mirroring(control: u8) -> Mirroring {
    if (control as int / 8) % 2 == 1 {
        Mirroring::FourScreen
    } else if control as int % 2 == 1 {
        Mirroring::Vertical
    } else {
        Mirroring::Horizontal
    }
}

/// The error that loading the image `rom` ends in, if any, in the order the
/// reader meets them: a short header, bad magic, an unknown mapper, then
/// too few PRG or CHR bytes.
pub open spec fn ines_error(rom: Seq<u8>) -> Option<EmuErr> {
    if rom.len() < HEADER_LEN {
        Some(EmuErr::ReadRom)
    } else if !has_ines_magic(rom) {
        Some(EmuErr::InvalidRom)
    } else if ines_mapper_id(rom) != 0 {
        Some(EmuErr::UnsupportedMapperType)
    } else if rom.len() < HEADER_LEN + ines_prg_len(rom) + ines_chr_len(rom) {
        Some(EmuErr::ReadRom)
    } else {
        None
    }
}

/// A parsed iNES image: the header, PRG-ROM and CHR-ROM bytes and the mapper
/// type.
pub struct Cartridge {
    header: Vec<u8>,
    mapper: MapperType,
    prg_rom: Vec<u8>,
    chr_rom: Vec<u8>,
}

/// Copies `len` bytes of `src` from `start` on.
fn copy_range(src: &[u8], start: usize, len: usize) -> (r: Vec<u8>)
    requires
        start + len <= src@.len(),
    ensures
        r@ == src@.subrange(start as int, start + len),
{
    let mut r: Vec<u8> = Vec::with_capacity(len);
    let n: usize = src.len();
    let mut i: usize = 0;
    while i < len
        invariant
            n == src@.len(),
            start + len <= src@.len(),
            i <= len,
            r@ == src@.subrange(start as int, start + i),
        decreases len - i,
    {
        r.push(src[start + i]);
        i += 1;
        assert(r@ =~= src@.subrange(start as int, start + i));
    }
    r
}

impl Cartridge {
    /// The 16 header bytes.
    pub closed spec fn header(&self) -> Seq<u8> {
        self.header@
    }

    /// The PRG-ROM bytes.
    pub closed spec fn prg(&self) -> Seq<u8> {
        self.prg_rom@
    }

    /// The CHR-ROM bytes.
    pub closed spec fn chr(&self) -> Seq<u8> {
        self.chr_rom@
    }

    pub closed spec fn mapper_type(&self) -> MapperType {
        self.mapper
    }

    pub closed spec fn wf(&self) -> bool {
        self.header@.len() == HEADER_LEN
    }

    /// Reads an iNES image held in memory.
    ///
    /// Fails with `ReadRom` when the image is shorter than its header or
    /// than the PRG and CHR banks that the header declares, with `InvalidRom`
    /// on bad magic and with `UnsupportedMapperType` on any mapper id but 0.
    /// Header bytes 10 to 15 are not looked at.
    pub fn parse(rom: &[u8]) -> (r: Result<Cartridge, EmuErr>)
        ensures
            ines_error(rom@) is Some <==> r is Err,
            r is Err ==> r == Err::<Cartridge, EmuErr>(ines_error(rom@)->0),
            r matches Ok(c) ==> {
                &&& c.wf()
                &&& c.header() == rom@.subrange(0, HEADER_LEN as int)
                &&& c.prg() == rom@.subrange(
                    HEADER_LEN as int,
                    HEADER_LEN + ines_prg_len(rom@),
                )
                &&& c.chr() == rom@.subrange(
                    HEADER_LEN + ines_prg_len(rom@),
                    HEADER_LEN + ines_prg_len(rom@) + ines_chr_len(rom@),
                )
                &&& c.mapper_type() == MapperType::NROM
            },
    {
        if rom.len() < HEADER_LEN {
            return Err(EmuErr::ReadRom);
        }
        if !(rom[0] == 0x4E && rom[1] == 0x45 && rom[2] == 0x53 && rom[3] == 0x1A) {
            return Err(EmuErr::InvalidRom);
        }
        let mapper_lo_nibble: u8 = rom[6] / 16;
        let mapper_hi_nibble: u8 = rom[7] / 16;
        let mapper_byte: u8 = mapper_hi_nibble * 16 + mapper_lo_nibble;
        let mapper = match MapperType::from_id(mapper_byte) {
            Ok(m) => m,
            Err(e) => {
                return Err(e);
            },
        };
        let prg_rom_sz: usize = rom[4] as usize * PRG_BANK_SIZE;
        let chr_rom_sz: usize = rom[5] as usize * CHR_BANK_SIZE;
        if rom.len() - HEADER_LEN < prg_rom_sz || rom.len() - HEADER_LEN - prg_rom_sz < chr_rom_sz {
            return Err(EmuErr::ReadRom);
        }
        let header = copy_range(rom, 0, HEADER_LEN);
        let prg_rom = copy_range(rom, HEADER_LEN, prg_rom_sz);
        let chr_rom = copy_range(rom, HEADER_LEN + prg_rom_sz, chr_rom_sz);
        Ok(Cartridge { header, mapper, prg_rom, chr_rom })
    }

    /// The PRG-ROM byte at offset `addr`.
    pub fn read_prg_rom(&self, addr: u16) -> (r: u8)
        requires
            (addr as int) < self.prg().len(),
        ensures
            r == self.prg()[addr as int],
    {
        self.prg_rom[addr as usize]
    }

    /// The CHR-ROM byte at offset `addr`.
    pub fn read_chr_rom(&self, addr: u16) -> (r: u8)
        requires
            (addr as int) < self.chr().len(),
        ensures
            r == self.chr()[addr as int],
    {
        self.chr_rom[addr as usize]
    }

    pub fn mapper(&self) -> (r: MapperType)
        ensures
            r == self.mapper_type(),
    {
        self.mapper
    }

    pub fn prg_rom_sz(&self) -> (r: usize)
        ensures
            r == self.prg().len(),
    {
        self.prg_rom.len()
    }

    pub fn chr_rom_sz(&self) -> (r: usize)
        ensures
            r == self.chr().len(),
    {
        self.chr_rom.len()
    }

    /// Whether the header declares no CHR-ROM banks, i.e. the board has
    /// CHR-RAM instead.
    pub fn uses_chr_ram(&self) -> (r: bool)
        requires
            self.wf(),
        ensures
            r == (self.header()[5] == 0),
    {
        self.header[5] == 0
    }

    /// The nametable mirroring declared by control byte 1.
    pub fn mirroring(&self) -> (r: Mirroring)
        requires
            self.wf(),
        ensures
            r == ines_mirroring(self.header()[6]),
    {
        let control: u8 = self.header[6];
        if (control / 8) % 2 == 1 {
            Mirroring::FourScreen
        } else if control % 2 == 1 {
            Mirroring::Vertical
        } else {
            Mirroring::Horizontal
        }
    }
}

} // verus!
