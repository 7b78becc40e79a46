use vstd::prelude::*;
use crate::cartridge::{Cartridge, ines_error, ines_mirroring, ines_prg_len, HEADER_LEN};
use crate::err::EmuErr;
use crate::mapper::{Mapper, MapperNROM, build_mapper, nrom_prg_byte};
use crate::ppu::{Ppu, ppu_power_up, ppu_read_value, ppu_after_read, ppu_after_write};

verus! {

/// Size of the console's internal RAM.
pub const RAM_SIZE: usize = 0x800;

/// What the CPU bus holds: internal RAM, the PPU registers, and the PRG-ROM
/// of the installed cartridge (`None` before one is loaded).
pub struct BusModel {
    pub ram: Seq<u8>,
    pub ppu: Ppu,
    pub prg: Option<Seq<u8>>,
}

/// Internal RAM, mirrored four times over 0x0000..=0x1FFF.
pub open spec fn is_ram(addr: u16) -> bool {
    addr <= 0x1FFF
}

/// The PPU registers, mirrored every eight bytes over 0x2000..=0x3FFF.
pub open spec fn is_ppu(addr: u16) -> bool {
    0x2000 <= addr <= 0x3FFF
}

/// Cartridge space, 0x4020..=0xFFFF: unusable until a mapper is installed.
pub open spec fn is_cartridge(addr: u16) -> bool {
    addr >= 0x4020
}

/// PRG-ROM space, handed to the mapper.
pub open spec fn is_prg(addr: u16) -> bool {
    addr >= 0x8000
}

/// The physical RAM index of a RAM-space address.
pub open spec fn ram_index(addr: u16) -> int {
    addr as int % 0x800
}

/// Whether an access at `addr` is allowed on `b`: cartridge space needs an
/// installed mapper.
pub open spec fn accessible(b: BusModel, addr: u16) -> bool {
    is_cartridge(addr) ==> b.prg is Some
}

/// The byte that a read at `addr` returns. The APU and I/O registers
/// (0x4000..=0x401F, OAM DMA at 0x4014 included) and cartridge expansion
/// space (0x4020..=0x7FFF) read as 0.
pub open spec fn read_value(b: BusModel, addr: u16) -> u8 {
    if is_ram(addr) {
        b.ram[ram_index(addr)]
    } else if is_ppu(addr) {
        ppu_read_value(b.ppu, addr)
    } else if is_prg(addr) {
        nrom_prg_byte(b.prg->0, addr)
    } else {
        0
    }
}

/// The bus after a read at `addr`: only PPU reads change state.
pub open spec fn after_read(b: BusModel, addr: u16) -> BusModel {
    if is_ppu(addr) {
        BusModel { ppu: ppu_after_read(b.ppu, addr), ..b }
    } else {
        b
    }
}

/// The bus after a write of `data` at `addr`. Writes to the APU and I/O
/// registers, to expansion space and to PRG-ROM are dropped.
pub open spec fn after_write(b: BusModel, addr: u16, data: u8) -> BusModel {
    if is_ram(addr) {
        BusModel { ram: b.ram.update(ram_index(addr), data), ..b }
    } else if is_ppu(addr) {
        BusModel { ppu: ppu_after_write(b.ppu, addr, data), ..b }
    } else {
        b
    }
}

/// `x` reduced to 16 bits, as address arithmetic wraps.
pub open spec fn wrap16(x: int) -> u16 {
    (x % 0x10000) as u16
}

/// `x` reduced to 8 bits, as register arithmetic wraps.
pub open spec fn wrap8(x: int) -> u8 {
    (x % 0x100) as u8
}

/// The 16-bit little-endian value that two reads at `addr` and `addr + 1`
/// (wrapping) return; each byte goes through its own region.
pub open spec fn read_u16_value(b: BusModel, addr: u16) -> u16 {
    let lo = read_value(b, addr);
    let hi = read_value(after_read(b, addr), wrap16(addr + 1));
    (hi as int * 256 + lo as int) as u16
}

/// The bus after the two reads of `read_u16_value`.
pub open spec fn after_read_u16(b: BusModel, addr: u16) -> BusModel {
    after_read(after_read(b, addr), wrap16(addr + 1))
}

/// The CPU address bus.
pub struct Bus {
    ram: Vec<u8>,
    mapper: Option<MapperNROM>,
    ppu: Ppu,
}

impl View for Bus {
    type V = BusModel;

    closed spec fn view(&self) -> BusModel {
        BusModel {
            ram: self.ram@,
            ppu: self.ppu,
            prg: match self.mapper {
                Some(m) => Some(m.prg()),
                None => None,
            },
        }
    }
}

impl Bus {
    pub closed spec fn wf(&self) -> bool {
        &&& self.ram@.len() == RAM_SIZE
        &&& self.mapper matches Some(m) ==> m.wf()
    }

    /// A bus with zeroed RAM, a PPU at power-up and no cartridge.
    pub fn new() -> (r: Bus)
        ensures
            r.wf(),
            r@.ram == Seq::new(RAM_SIZE as nat, |i: int| 0u8),
            r@.ppu == ppu_power_up(),
            r@.prg is None,
    {
        let mut ram: Vec<u8> = Vec::with_capacity(RAM_SIZE);
        let mut i: usize = 0;
        while i < RAM_SIZE
            invariant
                i <= RAM_SIZE,
                ram@ == Seq::new(i as nat, |k: int| 0u8),
            decreases RAM_SIZE - i,
        {
            ram.push(0);
            i += 1;
            assert(ram@ =~= Seq::new(i as nat, |k: int| 0u8));
        }
        Bus { ram, mapper: None, ppu: Ppu::new() }
    }

    /// The PPU behind the register window.
    pub fn ppu(&self) -> (r: &Ppu)
        ensures
            *r == self@.ppu,
    {
        &self.ppu
    }

    /// Gives the driver the PPU, to poll and clear its pending NMI.
    pub fn ppu_mut(&mut self) -> (r: &mut Ppu)
        ensures
            *r == old(self)@.ppu,
            final(self)@ == (BusModel { ppu: *final(r), ..old(self)@ }),
            final(self).wf() == old(self).wf(),
    {
        &mut self.ppu
    }

    /// Whether a cartridge has been installed.
    pub fn has_mapper(&self) -> (r: bool)
        ensures
            r == self@.prg is Some,
    {
        self.mapper.is_some()
    }

    /// Draws the current frame into `buf`. Rendering is not modelled, so the
    /// buffer is left as it is.
    pub fn draw(&self, buf: &mut Vec<u8>)
        ensures
            final(buf)@ == old(buf)@,
    {
    }

    /// Ticks the PPU three times, its clock ratio to the CPU.
    pub fn step(&mut self) -> (r: Result<(), EmuErr>)
        ensures
            final(self)@ == old(self)@,
            final(self).wf() == old(self).wf(),
            r is Ok,
    {
        if self.mapper.is_some() {
            self.ppu.step()?;
            self.ppu.step()?;
            self.ppu.step()?;
        }
        Ok(())
    }

    /// Loads an iNES image, sets the PPU's mirroring from its header and
    /// installs the mapper that it names. On an error the bus is unchanged.
    pub fn load_rom(&mut self, rom: &[u8]) -> (r: Result<(), EmuErr>)
        requires
            old(self).wf(),
        ensures
            final(self).wf(),
            ines_error(rom@) is Some <==> r is Err,
            r is Err ==> r == Err::<(), EmuErr>(ines_error(rom@)->0) && final(self)@ == old(self)@,
            r is Ok ==> final(self)@ == (BusModel {
                ppu: Ppu { mirror: ines_mirroring(rom@[6]), ..old(self)@.ppu },
                prg: Some(rom@.subrange(HEADER_LEN as int, HEADER_LEN + ines_prg_len(rom@))),
                ..old(self)@
            }),
    {
        let cartridge = Cartridge::parse(rom)?;
        self.ppu.set_mirror(cartridge.mirroring());
        let mapper = build_mapper(cartridge);
        self.mapper = Some(mapper);
        Ok(())
    }

    /// Reads a byte, decoding `addr` by region.
    pub fn read(&mut self, addr: u16) -> (r: u8)
        requires
            old(self).wf(),
            accessible(old(self)@, addr),
        ensures
            final(self).wf(),
            r == read_value(old(self)@, addr),
            final(self)@ == after_read(old(self)@, addr),
    {
        if addr <= 0x1FFF {
            // 2KiB of RAM, mirrored: addr % 0x800 is the physical index
            self.ram[(addr % 0x800) as usize]
        } else if addr <= 0x3FFF {
            self.ppu.read(addr)
        } else if addr >= 0x8000 {
            match &self.mapper {
                Some(m) => m.read_prg_rom(addr),
                None => 0,
            }
        } else {
            0
        }
    }

    /// Reads a 16-bit little-endian value from `addr` and `addr + 1`
    /// (wrapping at 0xFFFF), each byte decoded through its own region.
    pub fn read_u16(&mut self, addr: u16) -> (r: u16)
        requires
            old(self).wf(),
            accessible(old(self)@, addr),
            accessible(old(self)@, wrap16(addr + 1)),
        ensures
            final(self).wf(),
            r == read_u16_value(old(self)@, addr),
            final(self)@ == after_read_u16(old(self)@, addr),
    {
        let lo = self.read(addr) as u16;
        let next: u16 = addr.wrapping_add(1);
        assert(next == wrap16(addr + 1));
        let hi = self.read(next) as u16;
        hi * 256 + lo
    }

    /// Writes a byte, decoding `addr` by region.
    pub fn write(&mut self, addr: u16, data: u8)
        requires
            old(self).wf(),
            accessible(old(self)@, addr),
        ensures
            final(self).wf(),
            final(self)@ == after_write(old(self)@, addr, data),
    {
        if addr <= 0x1FFF {
            self.ram.set((addr % 0x800) as usize, data);
        } else if addr <= 0x3FFF {
            self.ppu.write(addr, data);
        } else if addr >= 0x8000 {
            // no board has writable registers here yet: the mapper drops it
            match &self.mapper {
                Some(m) => m.write_prg_rom(addr, data),
                None => {},
            }
        }
    }
}

/// RAM mirroring: a byte written anywhere in 0x0000..=0x1FFF is read back
/// at every address of that range with the same offset modulo 0x800.
pub proof fn lemma_ram_mirroring(b: BusModel, addr: u16, mirror: u16, v: u8)
    requires
        b.ram.len() == RAM_SIZE,
        is_ram(addr),
        is_ram(mirror),
        addr as int % 0x800 == mirror as int % 0x800,
    ensures
        read_value(after_write(b, addr, v), mirror) == v,
{
}

/// A write to 0x0000 is seen at 0x0000, 0x0800, 0x1000 and 0x1800.
pub proof fn lemma_zero_mirrors(b: BusModel, v: u8)
    requires
        b.ram.len() == RAM_SIZE,
    ensures
        read_value(after_write(b, 0, v), 0) == v,
        read_value(after_write(b, 0, v), 0x0800) == v,
        read_value(after_write(b, 0, v), 0x1000) == v,
        read_value(after_write(b, 0, v), 0x1800) == v,
{
    lemma_ram_mirroring(b, 0, 0, v);
    lemma_ram_mirroring(b, 0, 0x0800, v);
    lemma_ram_mirroring(b, 0, 0x1000, v);
    lemma_ram_mirroring(b, 0, 0x1800, v);
}

} // verus!
