use nes_emulator::bus::Bus;
use nes_emulator::cpu::Cpu;
use nes_emulator::err::EmuErr;
use nes_emulator::semantics::{Interrupt, FLAG_C, FLAG_I, FLAG_N, FLAG_V, FLAG_Z};

/// An NROM image with 16KB of PRG holding `program` at 0x8000, the reset
/// vector pointing at 0x8000, and `vectors` written at the end of the bank.
fn image(program: &[u8], nmi: u16, irq: u16) -> Vec<u8> {
    let mut rom = vec![0x4E, 0x45, 0x53, 0x1A, 1, 1, 0, 0, 0, 0, 0, 0, 0, 0, 0, 0];
    let mut prg = vec![0u8; 0x4000];
    prg[..program.len()].copy_from_slice(program);
    prg[0x3FFA] = (nmi & 0xFF) as u8;
    prg[0x3FFB] = (nmi >> 8) as u8;
    prg[0x3FFC] = 0x00;
    prg[0x3FFD] = 0x80;
    prg[0x3FFE] = (irq & 0xFF) as u8;
    prg[0x3FFF] = (irq >> 8) as u8;
    rom.extend_from_slice(&prg);
    rom.extend_from_slice(&vec![0u8; 0x2000]);
    rom
}

fn boot(program: &[u8]) -> (Cpu, Bus) {
    let mut bus = Bus::new();
    bus.load_rom(&image(program, 0x9000, 0xA000)).unwrap();
    let mut cpu = Cpu::new();
    cpu.power_on();
    cpu.reset(&mut bus);
    (cpu, bus)
}

/// Runs one whole instruction: the fetching step and the stall steps.
fn run_one(cpu: &mut Cpu, bus: &mut Bus) -> Result<bool, EmuErr> {
    let mut r = cpu.step(bus)?;
    while !r && cpu.cycles() > 0 {
        r = cpu.step(bus)?;
    }
    Ok(r)
}

fn run_n(cpu: &mut Cpu, bus: &mut Bus, n: usize) {
    for _ in 0..n {
        assert_eq!(run_one(cpu, bus), Ok(false));
    }
}

#[test]
fn power_on_and_reset_load_the_reset_vector() {
    let (cpu, _bus) = boot(&[0xEA]);
    assert_eq!(cpu.pc(), 0x8000);
    assert_eq!(cpu.sp(), 0xFD);
    assert!(cpu.flag(FLAG_I));
    assert_eq!(cpu.a(), 0);
    assert_eq!(cpu.x(), 0);
    assert_eq!(cpu.y(), 0);
    assert_eq!(cpu.p(), 0x24);
}

#[test]
fn state_dump_after_reset() {
    let (cpu, _bus) = boot(&[0xEA]);
    assert_eq!(cpu.state(), "PC:8000 A:00 X:00 Y:00 P:24 SP:FD");
}

#[test]
fn state_dump_shows_registers() {
    // LDA #$C3; LDX #$0A; LDY #$F1
    let (mut cpu, mut bus) = boot(&[0xA9, 0xC3, 0xA2, 0x0A, 0xA0, 0xF1]);
    run_n(&mut cpu, &mut bus, 3);
    assert_eq!(cpu.state(), "PC:8006 A:C3 X:0A Y:F1 P:A4 SP:FD");
}

#[test]
fn cycle_counter_stalls_for_the_base_cost() {
    // LDA #$01 (2 cycles); LDA $0000 (4 cycles)
    let (mut cpu, mut bus) = boot(&[0xA9, 0x01, 0xAD, 0x00, 0x00]);
    assert_eq!(cpu.step(&mut bus), Ok(false));
    assert_eq!(cpu.pc(), 0x8002);
    assert_eq!(cpu.cycles(), 1);
    assert_eq!(cpu.step(&mut bus), Ok(false));
    assert_eq!(cpu.cycles(), 0);
    assert_eq!(cpu.pc(), 0x8002);
    assert_eq!(cpu.step(&mut bus), Ok(false));
    assert_eq!(cpu.cycles(), 3);
    assert_eq!(cpu.pc(), 0x8005);
}

#[test]
fn push_then_pull_returns_the_byte() {
    // LDA #$42; PHA; LDA #$00; PLA
    let (mut cpu, mut bus) = boot(&[0xA9, 0x42, 0x48, 0xA9, 0x00, 0x68]);
    run_n(&mut cpu, &mut bus, 2);
    assert_eq!(cpu.sp(), 0xFC);
    assert_eq!(bus.read(0x01FD), 0x42);
    run_n(&mut cpu, &mut bus, 2);
    assert_eq!(cpu.a(), 0x42);
    assert_eq!(cpu.sp(), 0xFD);
}

#[test]
fn two_hundred_fifty_six_pushes_wrap_the_stack_pointer() {
    let program = vec![0x48u8; 256];
    let (mut cpu, mut bus) = boot(&program);
    for n in 1..=256u32 {
        run_n(&mut cpu, &mut bus, 1);
        assert_eq!(cpu.sp() as u32, (0xFDu32 + 256 - (n % 256)) % 256);
    }
    assert_eq!(cpu.sp(), 0xFD);
}

#[test]
fn and_with_zero_sets_zero_clears_negative() {
    // LDA #$FF; AND #$00
    let (mut cpu, mut bus) = boot(&[0xA9, 0xFF, 0x29, 0x00]);
    run_n(&mut cpu, &mut bus, 1);
    assert!(cpu.flag(FLAG_N));
    run_n(&mut cpu, &mut bus, 1);
    assert_eq!(cpu.a(), 0);
    assert!(cpu.flag(FLAG_Z));
    assert!(!cpu.flag(FLAG_N));
}

#[test]
fn ora_and_eor_with_zero_through_memory_modes() {
    // LDA #$00; ORA $10; EOR $0200; LDX #$01; AND $0F,X
    let (mut cpu, mut bus) = boot(&[0xA9, 0x00, 0x05, 0x10, 0x4D, 0x00, 0x02, 0xA2, 0x01, 0x35, 0x0F]);
    run_n(&mut cpu, &mut bus, 2);
    assert!(cpu.flag(FLAG_Z));
    assert!(!cpu.flag(FLAG_N));
    run_n(&mut cpu, &mut bus, 1);
    assert_eq!(cpu.a(), 0);
    assert!(cpu.flag(FLAG_Z));
    assert!(!cpu.flag(FLAG_N));
    run_n(&mut cpu, &mut bus, 2);
    assert!(cpu.flag(FLAG_Z));
    assert!(!cpu.flag(FLAG_N));
}

#[test]
fn ora_of_nonzero_accumulator_with_zero_is_not_zero() {
    // LDA #$01; ORA #$00
    let (mut cpu, mut bus) = boot(&[0xA9, 0x01, 0x09, 0x00]);
    run_n(&mut cpu, &mut bus, 2);
    assert_eq!(cpu.a(), 0x01);
    assert!(!cpu.flag(FLAG_Z));
}

#[test]
fn zero_page_x_wraps_within_the_page() {
    // LDA #$55; STA $7F; LDX #$FF; LDA #$00; LDA $80,X; STA $80,X with A = 0x66
    let (mut cpu, mut bus) = boot(&[
        0xA9, 0x55, 0x85, 0x7F, 0xA2, 0xFF, 0xA9, 0x00, 0xB5, 0x80, 0xA9, 0x66, 0x95, 0x80,
    ]);
    run_n(&mut cpu, &mut bus, 5);
    assert_eq!(cpu.a(), 0x55);
    run_n(&mut cpu, &mut bus, 2);
    assert_eq!(bus.read(0x007F), 0x66);
    assert_eq!(bus.read(0x017F), 0x00);
}

#[test]
fn absolute_x_carries_into_the_high_byte() {
    // LDA #$77; STA $0180; LDX #$90; LDA #$00; LDA $00F0,X
    let (mut cpu, mut bus) = boot(&[0xA9, 0x77, 0x8D, 0x80, 0x01, 0xA2, 0x90, 0xA9, 0x00, 0xBD, 0xF0, 0x00]);
    run_n(&mut cpu, &mut bus, 5);
    assert_eq!(cpu.a(), 0x77);
}

#[test]
fn indexed_indirect_and_indirect_indexed() {
    // pointer at $FF/$00 (wrapping) -> $0234; value $0234 = $5A, $0236 = $A5
    // LDA #$34; STA $FF; LDA #$02; STA $00; LDA #$5A; STA $0234; LDA #$A5; STA $0236
    // LDX #$01; LDA ($FE,X) -> $5A; LDY #$02; LDA ($FF),Y -> $A5
    let (mut cpu, mut bus) = boot(&[
        0xA9, 0x34, 0x85, 0xFF, 0xA9, 0x02, 0x85, 0x00, 0xA9, 0x5A, 0x8D, 0x34, 0x02, 0xA9, 0xA5,
        0x8D, 0x36, 0x02, 0xA2, 0x01, 0xA1, 0xFE, 0xA0, 0x02, 0xB1, 0xFF,
    ]);
    run_n(&mut cpu, &mut bus, 10);
    assert_eq!(cpu.a(), 0x5A);
    run_n(&mut cpu, &mut bus, 2);
    assert_eq!(cpu.a(), 0xA5);
}

#[test]
fn jmp_indirect_takes_high_byte_from_the_same_page() {
    // JMP ($80FF): low byte at $80FF, high byte at $8000 (the JMP opcode
    // itself, 0x6C), not at $8100
    let mut program = vec![0u8; 0x101];
    program[0] = 0x6C;
    program[1] = 0xFF;
    program[2] = 0x80;
    program[0xFF] = 0x34;
    program[0x100] = 0x99;
    let (mut cpu, mut bus) = boot(&program);
    run_n(&mut cpu, &mut bus, 1);
    assert_eq!(cpu.pc(), 0x6C34);
}

#[test]
fn jmp_indirect_in_ram_page() {
    // pointer $02FF: low $02FF = $00, high from $0200 = $90 ($0300 holds $12)
    // LDA #$00; STA $02FF; LDA #$90; STA $0200; LDA #$12; STA $0300; JMP ($02FF)
    let (mut cpu, mut bus) = boot(&[
        0xA9, 0x00, 0x8D, 0xFF, 0x02, 0xA9, 0x90, 0x8D, 0x00, 0x02, 0xA9, 0x12, 0x8D, 0x00, 0x03,
        0x6C, 0xFF, 0x02,
    ]);
    run_n(&mut cpu, &mut bus, 7);
    assert_eq!(cpu.pc(), 0x9000);
}

#[test]
fn adc_sets_carry_and_signed_overflow() {
    // CLC; LDA #$50; ADC #$50 -> $A0, V set, C clear, N set
    let (mut cpu, mut bus) = boot(&[0x18, 0xA9, 0x50, 0x69, 0x50, 0x69, 0x60]);
    run_n(&mut cpu, &mut bus, 3);
    assert_eq!(cpu.a(), 0xA0);
    assert!(cpu.flag(FLAG_V));
    assert!(!cpu.flag(FLAG_C));
    assert!(cpu.flag(FLAG_N));
    // ADC #$60 -> $100: A = $00, C set, Z set, V clear
    run_n(&mut cpu, &mut bus, 1);
    assert_eq!(cpu.a(), 0x00);
    assert!(cpu.flag(FLAG_C));
    assert!(cpu.flag(FLAG_Z));
    assert!(!cpu.flag(FLAG_V));
}

#[test]
fn adc_adds_the_carry_in() {
    // SEC; LDA #$01; ADC #$01 -> $03
    let (mut cpu, mut bus) = boot(&[0x38, 0xA9, 0x01, 0x69, 0x01]);
    run_n(&mut cpu, &mut bus, 3);
    assert_eq!(cpu.a(), 0x03);
    assert!(!cpu.flag(FLAG_C));
}

#[test]
fn sbc_borrows_when_carry_is_clear() {
    // SEC; LDA #$50; SBC #$F0 -> $60, borrow (C clear), V clear
    // CLC; LDA #$50; SBC #$B0 -> $9F, V set
    let (mut cpu, mut bus) = boot(&[0x38, 0xA9, 0x50, 0xE9, 0xF0, 0x18, 0xA9, 0x50, 0xE9, 0xB0]);
    run_n(&mut cpu, &mut bus, 3);
    assert_eq!(cpu.a(), 0x60);
    assert!(!cpu.flag(FLAG_C));
    assert!(!cpu.flag(FLAG_V));
    run_n(&mut cpu, &mut bus, 3);
    assert_eq!(cpu.a(), 0x9F);
    assert!(cpu.flag(FLAG_V));
    assert!(!cpu.flag(FLAG_C));
}

#[test]
fn compare_sets_carry_zero_negative() {
    // LDA #$10; CMP #$20; CMP #$10; LDX #$05; CPX #$01
    let (mut cpu, mut bus) = boot(&[0xA9, 0x10, 0xC9, 0x20, 0xC9, 0x10, 0xA2, 0x05, 0xE0, 0x01]);
    run_n(&mut cpu, &mut bus, 2);
    assert!(!cpu.flag(FLAG_C));
    assert!(!cpu.flag(FLAG_Z));
    assert!(cpu.flag(FLAG_N));
    run_n(&mut cpu, &mut bus, 1);
    assert!(cpu.flag(FLAG_C));
    assert!(cpu.flag(FLAG_Z));
    assert!(!cpu.flag(FLAG_N));
    run_n(&mut cpu, &mut bus, 2);
    assert!(cpu.flag(FLAG_C));
    assert!(!cpu.flag(FLAG_Z));
}

#[test]
fn shifts_and_rotates_move_bits_through_carry() {
    // LDA #$81; ASL A -> $02 C; ROL A -> $05 C clear; LSR A -> $02 C; ROR A -> $81 C clear
    let (mut cpu, mut bus) = boot(&[0xA9, 0x81, 0x0A, 0x2A, 0x4A, 0x6A]);
    run_n(&mut cpu, &mut bus, 2);
    assert_eq!(cpu.a(), 0x02);
    assert!(cpu.flag(FLAG_C));
    run_n(&mut cpu, &mut bus, 1);
    assert_eq!(cpu.a(), 0x05);
    assert!(!cpu.flag(FLAG_C));
    run_n(&mut cpu, &mut bus, 1);
    assert_eq!(cpu.a(), 0x02);
    assert!(cpu.flag(FLAG_C));
    run_n(&mut cpu, &mut bus, 1);
    assert_eq!(cpu.a(), 0x81);
    assert!(!cpu.flag(FLAG_C));
    assert!(cpu.flag(FLAG_N));
}

#[test]
fn memory_shift_writes_back() {
    // LDA #$01; STA $10; LSR $10 -> $00, C set, Z set; ASL $10
    let (mut cpu, mut bus) = boot(&[0xA9, 0x01, 0x85, 0x10, 0x46, 0x10]);
    run_n(&mut cpu, &mut bus, 3);
    assert_eq!(bus.read(0x0010), 0x00);
    assert!(cpu.flag(FLAG_C));
    assert!(cpu.flag(FLAG_Z));
}

#[test]
fn inc_and_dec_wrap_and_write_back() {
    // LDA #$FF; STA $20; INC $20 -> $00 Z; DEC $20 -> $FF N
    let (mut cpu, mut bus) = boot(&[0xA9, 0xFF, 0x85, 0x20, 0xE6, 0x20, 0xC6, 0x20]);
    run_n(&mut cpu, &mut bus, 3);
    assert_eq!(bus.read(0x0020), 0x00);
    assert!(cpu.flag(FLAG_Z));
    run_n(&mut cpu, &mut bus, 1);
    assert_eq!(bus.read(0x0020), 0xFF);
    assert!(cpu.flag(FLAG_N));
}

#[test]
fn register_increments_wrap() {
    // LDX #$FF; INX -> 0; DEY -> $FF
    let (mut cpu, mut bus) = boot(&[0xA2, 0xFF, 0xE8, 0x88]);
    run_n(&mut cpu, &mut bus, 2);
    assert_eq!(cpu.x(), 0);
    assert!(cpu.flag(FLAG_Z));
    run_n(&mut cpu, &mut bus, 1);
    assert_eq!(cpu.y(), 0xFF);
    assert!(cpu.flag(FLAG_N));
}

#[test]
fn bit_copies_bits_six_and_seven() {
    // LDA #$C0; STA $30; LDA #$01; BIT $30 -> V, N, Z
    let (mut cpu, mut bus) = boot(&[0xA9, 0xC0, 0x85, 0x30, 0xA9, 0x01, 0x24, 0x30]);
    run_n(&mut cpu, &mut bus, 4);
    assert!(cpu.flag(FLAG_V));
    assert!(cpu.flag(FLAG_N));
    assert!(cpu.flag(FLAG_Z));
    assert_eq!(cpu.a(), 0x01);
}

#[test]
fn branches_taken_and_not_taken() {
    // LDX #$03; DEX; BNE -3 (back to DEX); LDA #$07
    let (mut cpu, mut bus) = boot(&[0xA2, 0x03, 0xCA, 0xD0, 0xFD, 0xA9, 0x07]);
    run_n(&mut cpu, &mut bus, 1 + 3 * 2 + 1);
    assert_eq!(cpu.x(), 0);
    assert_eq!(cpu.a(), 0x07);
    assert_eq!(cpu.pc(), 0x8007);
}

#[test]
fn jsr_and_rts_return_after_the_call() {
    // $8000: JSR $8010; LDA #$11 ... $8010: LDX #$22; RTS
    let mut program = vec![0xEAu8; 0x20];
    program[0..5].copy_from_slice(&[0x20, 0x10, 0x80, 0xA9, 0x11]);
    program[0x10..0x13].copy_from_slice(&[0xA2, 0x22, 0x60]);
    let (mut cpu, mut bus) = boot(&program);
    run_n(&mut cpu, &mut bus, 1);
    assert_eq!(cpu.pc(), 0x8010);
    assert_eq!(cpu.sp(), 0xFB);
    assert_eq!(bus.read(0x01FD), 0x80);
    assert_eq!(bus.read(0x01FC), 0x02);
    run_n(&mut cpu, &mut bus, 3);
    assert_eq!(cpu.pc(), 0x8005);
    assert_eq!(cpu.x(), 0x22);
    assert_eq!(cpu.a(), 0x11);
}

#[test]
fn php_sets_break_bits_and_plp_clears_bit_four() {
    // SEC; PHP; PLA; PHA; CLC; PLP
    let (mut cpu, mut bus) = boot(&[0x38, 0x08, 0x68, 0x48, 0x18, 0x28]);
    run_n(&mut cpu, &mut bus, 3);
    assert_eq!(cpu.a(), 0x35);
    run_n(&mut cpu, &mut bus, 3);
    assert_eq!(cpu.p(), 0x25);
    assert!(cpu.flag(FLAG_C));
}

#[test]
fn brk_is_masked_while_interrupts_are_disabled() {
    // BRK with I set after reset: only the opcode is fetched
    let (mut cpu, mut bus) = boot(&[0x00, 0xEA]);
    run_n(&mut cpu, &mut bus, 1);
    assert_eq!(cpu.pc(), 0x8001);
    assert_eq!(cpu.sp(), 0xFD);
}

#[test]
fn brk_pushes_pc_and_status_and_jumps_through_irq_vector() {
    // CLI; BRK
    let (mut cpu, mut bus) = boot(&[0x58, 0x00]);
    run_n(&mut cpu, &mut bus, 2);
    assert_eq!(cpu.pc(), 0xA000);
    assert_eq!(cpu.sp(), 0xFA);
    assert_eq!(bus.read(0x01FD), 0x80);
    assert_eq!(bus.read(0x01FC), 0x02);
    assert_eq!(bus.read(0x01FB), 0x30);
    assert!(cpu.flag(FLAG_I));
}

#[test]
fn nmi_is_delivered_at_the_boundary_without_break_bit() {
    // NOP at 0x8000; NMI handler at 0x9000 would run NOPs
    let (mut cpu, mut bus) = boot(&[0xEA, 0xEA]);
    cpu.interrupt(Interrupt::Nmi);
    assert_eq!(cpu.step(&mut bus), Ok(false));
    // the NMI vector points at 0x9000; the BRK there is masked, since the
    // NMI disabled interrupts
    assert_eq!(cpu.pc(), 0x9001);
    assert_eq!(bus.read(0x01FD), 0x80);
    assert_eq!(bus.read(0x01FC), 0x00);
    assert_eq!(bus.read(0x01FB), 0x24);
    assert_eq!(cpu.sp(), 0xFA);
    assert_eq!(cpu.registers().pending, None);
}

#[test]
fn rti_restores_status_and_pc() {
    // NMI into 0x9000 where RTI sits
    let mut program = vec![0xEAu8; 0x1001];
    program[0x1000] = 0x40;
    let (mut cpu, mut bus) = boot(&program);
    cpu.interrupt(Interrupt::Nmi);
    run_n(&mut cpu, &mut bus, 1);
    assert_eq!(cpu.pc(), 0x8000);
    assert_eq!(cpu.p(), 0x24);
    assert_eq!(cpu.sp(), 0xFD);
}

#[test]
fn jam_opcode_halts() {
    let (mut cpu, mut bus) = boot(&[0x02]);
    assert_eq!(cpu.step(&mut bus), Ok(true));
}

#[test]
fn undocumented_opcode_without_case_is_an_error() {
    // SLO ($00,X)
    let (mut cpu, mut bus) = boot(&[0x03, 0x00]);
    assert_eq!(cpu.step(&mut bus), Err(EmuErr::UnrecognizedOpCode(0x03)));
}

#[test]
fn undocumented_nops_skip_their_operands() {
    // NOP $10 (zp); NOP $1234 (abs); LDA #$01
    let (mut cpu, mut bus) = boot(&[0x04, 0x10, 0x0C, 0x34, 0x12, 0xA9, 0x01]);
    run_n(&mut cpu, &mut bus, 3);
    assert_eq!(cpu.a(), 0x01);
    assert_eq!(cpu.pc(), 0x8007);
}

#[test]
fn transfers_and_stack_pointer() {
    // LDA #$80; TAX; TAY; LDX #$10; TXS; TSX; TXA
    let (mut cpu, mut bus) = boot(&[0xA9, 0x80, 0xAA, 0xA8, 0xA2, 0x10, 0x9A, 0xBA, 0x8A]);
    run_n(&mut cpu, &mut bus, 3);
    assert_eq!(cpu.x(), 0x80);
    assert_eq!(cpu.y(), 0x80);
    assert!(cpu.flag(FLAG_N));
    run_n(&mut cpu, &mut bus, 4);
    assert_eq!(cpu.sp(), 0x10);
    assert_eq!(cpu.a(), 0x10);
}
