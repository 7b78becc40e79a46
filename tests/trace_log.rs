use nes_emulator::semantics::CpuState;
use nes_emulator::trace::{first_divergence, parse_trace_line, Register, TraceEntry};

const LINE: &str =
    "C000  4C F5 C5  JMP $C5F5                       A:00 X:00 Y:00 P:24 SP:FD PPU:  0, 21 CYC:7";

fn cpu_state(pc: u16, a: u8, x: u8, y: u8, p: u8, sp: u8) -> CpuState {
    CpuState { pc, sp, a, x, y, p, cycles: 0, pending: None }
}

#[test]
fn parses_register_columns() {
    let e = parse_trace_line(LINE.as_bytes()).unwrap();
    assert_eq!(e, TraceEntry { pc: 0xC000, a: 0x00, x: 0x00, y: 0x00, p: 0x24, sp: 0xFD });
}

#[test]
fn parses_lowercase_hex() {
    let line = LINE.replace("C000", "c5f5").replace("SP:FD", "SP:fb");
    let e = parse_trace_line(line.as_bytes()).unwrap();
    assert_eq!(e.pc, 0xC5F5);
    assert_eq!(e.sp, 0xFB);
}

#[test]
fn rejects_short_or_garbled_lines() {
    assert_eq!(parse_trace_line(&LINE.as_bytes()[..72]), None);
    let line = LINE.replace("A:00", "A:0G");
    assert_eq!(parse_trace_line(line.as_bytes()), None);
}

#[test]
fn matching_registers_have_no_divergence() {
    let e = parse_trace_line(LINE.as_bytes()).unwrap();
    assert_eq!(first_divergence(&e, &cpu_state(0xC000, 0, 0, 0, 0x24, 0xFD)), None);
    // bit 4 is not a flag of the register
    assert_eq!(first_divergence(&e, &cpu_state(0xC000, 0, 0, 0, 0x34, 0xFD)), None);
}

#[test]
fn reports_the_first_differing_register() {
    let e = parse_trace_line(LINE.as_bytes()).unwrap();
    assert_eq!(first_divergence(&e, &cpu_state(0x8000, 1, 0, 0, 0x24, 0xFD)), Some(Register::Pc));
    assert_eq!(first_divergence(&e, &cpu_state(0xC000, 1, 2, 0, 0x24, 0xFD)), Some(Register::A));
    assert_eq!(first_divergence(&e, &cpu_state(0xC000, 0, 0, 0, 0x25, 0xFD)), Some(Register::Status));
    assert_eq!(first_divergence(&e, &cpu_state(0xC000, 0, 0, 0, 0x24, 0xFC)), Some(Register::Sp));
}
