use nes_emulator::bus::Bus;
use nes_emulator::cartridge::{Cartridge, Mirroring};
use nes_emulator::emulator::Emulator;
use nes_emulator::err::EmuErr;
use nes_emulator::mapper::{build_mapper, Mapper, MapperNROM, MapperType};
use nes_emulator::memory::Memory;
use nes_emulator::opcodes::{decode, Op, AM, I};
use nes_emulator::ppu::Ppu;

fn ines(prg_banks: u8, chr_banks: u8, control1: u8, control2: u8) -> Vec<u8> {
    let mut rom = vec![0x4E, 0x45, 0x53, 0x1A, prg_banks, chr_banks, control1, control2];
    rom.extend_from_slice(&[0xEE; 8]);
    for i in 0..(prg_banks as usize * 0x4000) {
        rom.push((i % 251) as u8);
    }
    for i in 0..(chr_banks as usize * 0x2000) {
        rom.push((i % 13) as u8);
    }
    rom
}

#[test]
fn decode_is_total() {
    for b in 0..=255u8 {
        let d = decode(b);
        assert!(d.cycles <= 8);
        assert_eq!(d.cycles == 0, d.opcode == Op::KIL);
    }
    assert_eq!(decode(0xA9), I::new(Op::LDA, 2, AM::IMM));
    assert_eq!(decode(0x6C), I::new(Op::JMP, 5, AM::IND));
    assert_eq!(decode(0xB6), I::new(Op::LDX, 4, AM::ZPY));
    assert_eq!(decode(0x02), I::new(Op::KIL, 0, AM::IMP));
    assert_eq!(decode(0xFF), I::new(Op::ISC, 7, AM::ABX));
}

#[test]
fn ram_is_mirrored_four_times() {
    let mut bus = Bus::new();
    bus.write(0x0000, 0xAB);
    assert_eq!(bus.read(0x0000), 0xAB);
    assert_eq!(bus.read(0x0800), 0xAB);
    assert_eq!(bus.read(0x1000), 0xAB);
    assert_eq!(bus.read(0x1800), 0xAB);
    bus.write(0x1FFF, 0x12);
    assert_eq!(bus.read(0x07FF), 0x12);
}

#[test]
fn read_u16_decodes_each_byte_by_region() {
    let mut bus = Bus::new();
    bus.load_rom(&ines(1, 1, 0, 0)).unwrap();
    bus.write(0x1FFF, 0x34);
    // 0x1FFF is RAM, 0x2000 is the PPU (reads its buffer, 0)
    assert_eq!(bus.read_u16(0x1FFF), 0x0034);
    // 0xFFFF is PRG, 0x0000 wraps to RAM
    bus.write(0x0000, 0x56);
    let hi_lo = bus.read_u16(0xFFFF);
    assert_eq!(hi_lo >> 8, 0x56);
}

#[test]
fn unmapped_regions_read_zero_and_drop_writes() {
    let mut bus = Bus::new();
    bus.load_rom(&ines(1, 1, 0, 0)).unwrap();
    assert_eq!(bus.read(0x4015), 0);
    assert_eq!(bus.read(0x4014), 0);
    assert_eq!(bus.read(0x5000), 0);
    bus.write(0x4014, 7);
    bus.write(0x6000, 7);
    assert_eq!(bus.read(0x6000), 0);
    let before = bus.read(0x8000);
    bus.write(0x8000, before.wrapping_add(1));
    assert_eq!(bus.read(0x8000), before);
}

#[test]
fn sixteen_kib_prg_is_mirrored() {
    let mut bus = Bus::new();
    bus.load_rom(&ines(1, 1, 0, 0)).unwrap();
    assert_eq!(bus.read(0x8000), 0);
    assert_eq!(bus.read(0x8005), 5);
    assert_eq!(bus.read(0xC005), 5);
    assert_eq!(bus.read(0xFFFF), (0x3FFF % 251) as u8);
}

#[test]
fn thirty_two_kib_prg_is_mapped_straight() {
    let mut bus = Bus::new();
    bus.load_rom(&ines(2, 1, 0, 0)).unwrap();
    assert_eq!(bus.read(0xC000), (0x4000 % 251) as u8);
    assert_eq!(bus.read(0x8000), 0);
}

#[test]
fn ppu_registers_repeat_every_eight_bytes() {
    let mut bus = Bus::new();
    bus.write(0x2008, 0x80);
    assert!(bus.ppu().ctrl.nmi);
    bus.write(0x3FF9, 0x01);
    assert!(bus.ppu().mask.grayscale);
    bus.ppu_mut().status.vblank = true;
    bus.ppu_mut().address_latch = true;
    assert_eq!(bus.read(0x200A), 0x80);
    assert!(!bus.ppu().status.vblank);
    assert!(!bus.ppu().address_latch);
    assert_eq!(bus.read(0x2002), 0x00);
}

#[test]
fn ppu_starts_cleared() {
    let p = Ppu::new();
    assert!(!p.nmi_pending);
    assert_eq!(p.mirror, Mirroring::Horizontal);
    assert_eq!(p.buffer, 0);
}

#[test]
fn parse_reads_header_prg_and_chr() {
    let rom = ines(1, 1, 0x01, 0x00);
    let c = Cartridge::parse(&rom).unwrap();
    assert_eq!(c.prg_rom_sz(), 0x4000);
    assert_eq!(c.chr_rom_sz(), 0x2000);
    assert_eq!(c.read_prg_rom(7), 7);
    assert_eq!(c.read_chr_rom(14), 1);
    assert_eq!(c.mapper(), MapperType::NROM);
    assert_eq!(c.mirroring(), Mirroring::Vertical);
    assert!(!c.uses_chr_ram());
}

#[test]
fn parse_four_screen_and_chr_ram() {
    let c = Cartridge::parse(&ines(1, 0, 0x08, 0x00)).unwrap();
    assert_eq!(c.mirroring(), Mirroring::FourScreen);
    assert!(c.uses_chr_ram());
    assert_eq!(c.chr_rom_sz(), 0);
}

#[test]
fn parse_rejects_short_header() {
    assert!(matches!(Cartridge::parse(&[0x4E, 0x45, 0x53]), Err(EmuErr::ReadRom)));
}

#[test]
fn parse_rejects_bad_magic() {
    let mut rom = ines(1, 1, 0, 0);
    rom[3] = 0x1B;
    assert!(matches!(Cartridge::parse(&rom), Err(EmuErr::InvalidRom)));
}

#[test]
fn parse_rejects_unknown_mapper() {
    // mapper id 0x10: high nibble of control byte 2
    assert!(matches!(Cartridge::parse(&ines(1, 1, 0x00, 0x10)), Err(EmuErr::UnsupportedMapperType)));
    // mapper id 0x01: high nibble of control byte 1
    assert!(matches!(Cartridge::parse(&ines(1, 1, 0x10, 0x00)), Err(EmuErr::UnsupportedMapperType)));
}

#[test]
fn parse_rejects_truncated_banks() {
    let mut rom = ines(1, 1, 0, 0);
    rom.pop();
    assert!(matches!(Cartridge::parse(&rom), Err(EmuErr::ReadRom)));
}

#[test]
fn mapper_type_from_id() {
    assert_eq!(MapperType::from_id(0), Ok(MapperType::NROM));
    assert_eq!(MapperType::from_id(4), Err(EmuErr::UnsupportedMapperType));
}

#[test]
fn nrom_reads_prg_and_chr() {
    let c = Cartridge::parse(&ines(1, 1, 0, 0)).unwrap();
    let m: MapperNROM = build_mapper(c);
    assert_eq!(m.read_prg_rom(0x8003), 3);
    assert_eq!(m.read_prg_rom(0xC003), 3);
    assert_eq!(m.read_chr(0x000E), 1);
    let m2 = MapperNROM::new(Cartridge::parse(&ines(2, 1, 0, 0)).unwrap());
    assert_eq!(m2.read_prg_rom(0xFFFF), (0x7FFF % 251) as u8);
}

#[test]
fn load_rom_error_leaves_bus_unloaded() {
    let mut bus = Bus::new();
    assert_eq!(bus.load_rom(&[0u8; 4]), Err(EmuErr::ReadRom));
    assert!(!bus.has_mapper());
    bus.load_rom(&ines(1, 1, 1, 0)).unwrap();
    assert!(bus.has_mapper());
    assert_eq!(bus.ppu().mirror, Mirroring::Vertical);
}

#[test]
fn emulator_runs_after_init() {
    let mut rom = ines(1, 1, 0, 0);
    // program: LDA #$09; KIL, reset vector -> 0x8000
    rom[16] = 0xA9;
    rom[17] = 0x09;
    rom[18] = 0x02;
    rom[16 + 0x3FFC] = 0x00;
    rom[16 + 0x3FFD] = 0x80;
    let mut emu = Emulator::new();
    assert!(!emu.is_ready());
    emu.init(&rom).unwrap();
    assert!(emu.is_ready());
    assert_eq!(emu.cpu().pc(), 0x8000);
    let mut halted = false;
    for _ in 0..10 {
        if emu.step().unwrap() {
            halted = true;
            break;
        }
    }
    assert!(halted);
    assert_eq!(emu.cpu().a(), 0x09);
}

#[test]
fn emulator_init_reports_load_errors() {
    let mut emu = Emulator::new();
    assert_eq!(emu.init(&ines(1, 1, 0x20, 0)), Err(EmuErr::UnsupportedMapperType));
    assert!(!emu.is_ready());
}

#[test]
fn flat_memory_round_trip_and_wrapping_word() {
    let mut mem = Memory::new();
    mem.write(0xFFFF, 0x34);
    mem.write(0x0000, 0x12);
    assert_eq!(mem.read(0xFFFF), 0x34);
    assert_eq!(mem.read_u16(0xFFFF), 0x1234);
}

#[test]
fn draw_leaves_buffer() {
    let bus = Bus::new();
    let mut buf = vec![1u8, 2, 3];
    bus.draw(&mut buf);
    assert_eq!(buf, vec![1, 2, 3]);
}
