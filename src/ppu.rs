use vstd::prelude::*;
use crate::cartridge::Mirroring;
use crate::err::EmuErr;

verus! {

/// Base nametable selected by PPUCTRL bits 0-1.
#[derive(Clone, Copy, Debug, PartialEq, Eq, Structural)]
pub enum NTAddr {
    NT2000,
    NT2400,
    NT2800,
    NT2c00,
}

/// PPUCTRL (0x2000), as last written.
#[derive(Clone, Copy, Debug, PartialEq, Eq, Structural)]
pub struct CtrlReg {
    pub base_nt_addr: NTAddr,
    pub vram_address_inc: bool,
    pub sprite_pattern_table_addr: bool,
    pub bg_pattern_table_addr: bool,
    pub sprite_sz: bool,
    pub select: bool,
    pub nmi: bool,
}

/// The PPUCTRL fields that a write of `data` sets.
pub open spec fn ctrl_of(data: u8) -> CtrlReg {
    CtrlReg {
        base_nt_addr: if data as int % 4 == 0 {
            NTAddr::NT2000
        } else if data as int % 4 == 1 {
            NTAddr::NT2400
        } else if data as int % 4 == 2 {
            NTAddr::NT2800
        } else {
            NTAddr::NT2c00
        },
        vram_address_inc: (data as int / 4) % 2 == 1,
        sprite_pattern_table_addr: (data as int / 8) % 2 == 1,
        bg_pattern_table_addr: (data as int / 16) % 2 == 1,
        sprite_sz: (data as int / 32) % 2 == 1,
        select: (data as int / 64) % 2 == 1,
        nmi: (data as int / 128) % 2 == 1,
    }
}

impl CtrlReg {
    pub fn new() -> (r: CtrlReg)
        ensures
            r == ctrl_of(0),
    {
        CtrlReg {
            base_nt_addr: NTAddr::NT2000,
            vram_address_inc: false,
            sprite_pattern_table_addr: false,
            bg_pattern_table_addr: false,
            sprite_sz: false,
            select: false,
            nmi: false,
        }
    }

    pub fn write(&mut self, data: u8)
        ensures
            *final(self) == ctrl_of(data),
    {
        self.base_nt_addr = match data % 4 {
            0 => NTAddr::NT2000,
            1 => NTAddr::NT2400,
            2 => NTAddr::NT2800,
            _ => NTAddr::NT2c00,
        };
        self.vram_address_inc = (data / 4) % 2 == 1;
        self.sprite_pattern_table_addr = (data / 8) % 2 == 1;
        self.bg_pattern_table_addr = (data / 16) % 2 == 1;
        self.sprite_sz = (data / 32) % 2 == 1;
        self.select = (data / 64) % 2 == 1;
        self.nmi = (data / 128) % 2 == 1;
    }
}

/// PPUSTATUS (0x2002).
#[derive(Clone, Copy, Debug, PartialEq, Eq, Structural)]
pub struct StatusReg {
    pub overflow: bool,
    pub sprite_zero_hit: bool,
    pub vblank: bool,
}

/// The top three bits of PPUSTATUS: vblank, sprite-zero hit, overflow.
pub open spec fn status_bits(s: StatusReg) -> u8 {
    ((if s.vblank { 128int } else { 0 }) + (if s.sprite_zero_hit { 64int } else { 0 }) + (
    if s.overflow {
        32int
    } else {
        0
    })) as u8
}

impl StatusReg {
    pub fn new() -> (r: StatusReg)
        ensures
            r == (StatusReg { overflow: false, sprite_zero_hit: false, vblank: false }),
    {
        StatusReg { overflow: false, sprite_zero_hit: false, vblank: false }
    }

    /// Reads the status bits; reading clears the vblank flag.
    pub fn read(&mut self) -> (r: u8)
        ensures
            r == status_bits(*old(self)),
            *final(self) == (StatusReg { vblank: false, ..*old(self) }),
    {
        let mut res: u8 = 0;
        if self.vblank {
            res = res + 128;
        }
        if self.sprite_zero_hit {
            res = res + 64;
        }
        if self.overflow {
            res = res + 32;
        }
        self.vblank = false;
        res
    }
}

/// PPUMASK (0x2001), as last written.
#[derive(Clone, Copy, Debug, PartialEq, Eq, Structural)]
pub struct MaskReg {
    pub grayscale: bool,
    pub show_bg_left: bool,
    pub show_sp_left: bool,
    pub show_bg: bool,
    pub show_sp: bool,
    pub em_red: bool,
    pub em_green: bool,
    pub em_blue: bool,
}

/// The PPUMASK fields that a write of `data` sets.
pub open spec fn mask_of(data: u8) -> MaskReg {
    MaskReg {
        grayscale: data as int % 2 == 1,
        show_bg_left: (data as int / 2) % 2 == 1,
        show_sp_left: (data as int / 4) % 2 == 1,
        show_bg: (data as int / 8) % 2 == 1,
        show_sp: (data as int / 16) % 2 == 1,
        em_red: (data as int / 32) % 2 == 1,
        em_green: (data as int / 64) % 2 == 1,
        em_blue: (data as int / 128) % 2 == 1,
    }
}

impl MaskReg {
    pub fn new() -> (r: MaskReg)
        ensures
            r == mask_of(0),
    {
        MaskReg {
            grayscale: false,
            show_bg_left: false,
            show_sp_left: false,
            show_bg: false,
            show_sp: false,
            em_red: false,
            em_green: false,
            em_blue: false,
        }
    }

    pub fn write(&mut self, data: u8)
        ensures
            *final(self) == mask_of(data),
    {
        self.grayscale = data % 2 == 1;
        self.show_bg_left = (data / 2) % 2 == 1;
        self.show_sp_left = (data / 4) % 2 == 1;
        self.show_bg = (data / 8) % 2 == 1;
        self.show_sp = (data / 16) % 2 == 1;
        self.em_red = (data / 32) % 2 == 1;
        self.em_green = (data / 64) % 2 == 1;
        self.em_blue = (data / 128) % 2 == 1;
    }
}

/// The CPU-visible side of the picture processing unit: its memory-mapped
/// registers and the pending-NMI flag that the driver polls. Rendering is
/// not modelled.
#[derive(Clone, Copy, Debug, PartialEq, Eq, Structural)]
pub struct Ppu {
    /// Set when the PPU raises an NMI; the driver delivers it to the CPU at
    /// an instruction boundary and clears it.
    pub nmi_pending: bool,
    pub ctrl: CtrlReg,
    pub status: StatusReg,
    pub mask: MaskReg,
    pub mirror: Mirroring,
    pub buffer: u8,
    pub address_latch: bool,
}

/// Register number (0..=7) of a PPU-window address: the eight registers
/// repeat every eight bytes.
pub open spec fn ppu_reg(addr: u16) -> int {
    addr as int % 8
}

/// The byte that a CPU read of the PPU register at `addr` returns.
pub open spec fn ppu_read_value(p: Ppu, addr: u16) -> u8 {
    if ppu_reg(addr) == 2 {
        (status_bits(p.status) + p.buffer as int % 32) as u8
    } else {
        p.buffer
    }
}

/// The PPU after a CPU read at `addr`: reading PPUSTATUS clears vblank and
/// the address latch.
pub open spec fn ppu_after_read(p: Ppu, addr: u16) -> Ppu {
    if ppu_reg(addr) == 2 {
        Ppu { status: StatusReg { vblank: false, ..p.status }, address_latch: false, ..p }
    } else {
        p
    }
}

/// The PPU after a CPU write of `data` at `addr`.
pub open spec fn ppu_after_write(p: Ppu, addr: u16, data: u8) -> Ppu {
    if ppu_reg(addr) == 0 {
        Ppu { ctrl: ctrl_of(data), ..p }
    } else if ppu_reg(addr) == 1 {
        Ppu { mask: mask_of(data), ..p }
    } else {
        p
    }
}

/// The PPU at power-up: registers cleared, no NMI pending.
pub open spec fn ppu_power_up() -> Ppu {
    Ppu {
        nmi_pending: false,
        ctrl: ctrl_of(0),
        status: StatusReg { overflow: false, sprite_zero_hit: false, vblank: false },
        mask: mask_of(0),
        mirror: Mirroring::Horizontal,
        buffer: 0,
        address_latch: false,
    }
}

impl Ppu {
    pub fn new() -> (r: Ppu)
        ensures
            r == ppu_power_up(),
    {
        Ppu {
            nmi_pending: false,
            ctrl: CtrlReg::new(),
            status: StatusReg::new(),
            mask: MaskReg::new(),
            mirror: Mirroring::Horizontal,
            buffer: 0,
            address_latch: false,
        }
    }

    /// One PPU cycle. Rendering is not modelled, so no state changes.
    pub fn step(&mut self) -> (r: Result<(), EmuErr>)
        ensures
            *final(self) == *old(self),
            r is Ok,
    {
        Ok(())
    }

    /// A CPU write to the PPU register at `addr`.
    pub fn write(&mut self, addr: u16, data: u8)
        ensures
            *final(self) == ppu_after_write(*old(self), addr, data),
    {
        let reg: u16 = addr % 8;
        if reg == 0 {
            self.ctrl.write(data);
        } else if reg == 1 {
            self.mask.write(data);
        }
    }

    /// A CPU read of the PPU register at `addr`.
    pub fn read(&mut self, addr: u16) -> (r: u8)
        ensures
            r == ppu_read_value(*old(self), addr),
            *final(self) == ppu_after_read(*old(self), addr),
    {
        let reg: u16 = addr % 8;
        if reg == 2 {
            let res: u8 = self.status.read() + self.buffer % 32;
            // reading the status register resets the PPUSCROLL / PPUADDR latch
            self.address_latch = false;
            res
        } else {
            self.buffer
        }
    }

    pub fn set_mirror(&mut self, m: Mirroring)
        ensures
            *final(self) == (Ppu { mirror: m, ..*old(self) }),
    {
        self.mirror = m;
    }
}

} // verus!
