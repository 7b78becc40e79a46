//! The instruction semantics of the CPU as spec functions over a machine
//! state: registers, flags and the bus.
use vstd::prelude::*;
use crate::bus::{BusModel, read_value, after_read, after_write, wrap8, wrap16, is_ram, ram_index};
use crate::opcodes::{AM, I, Op, descriptor};
use crate::err::EmuErr;

verus! {

pub const FLAG_C: u8 = 0x01;
pub const FLAG_Z: u8 = 0x02;
pub const FLAG_I: u8 = 0x04;
pub const FLAG_D: u8 = 0x08;
pub const FLAG_B: u8 = 0x10;
pub const FLAG_U: u8 = 0x20;
pub const FLAG_V: u8 = 0x40;
pub const FLAG_N: u8 = 0x80;

/// Address of the reset vector.
pub const RESET_VECTOR: u16 = 0xFFFC;

/// Address of the NMI vector.
pub const NMI_VECTOR: u16 = 0xFFFA;

/// Address of the IRQ / BRK vector.
pub const IRQ_VECTOR: u16 = 0xFFFE;

/// Stack pointer after reset.
pub const INITIAL_SP: u8 = 0xFD;

/// Interrupt kinds. `Brk` is maskable by the interrupt-disable flag, `Nmi`
/// is not.
#[derive(Debug, Clone, Copy, PartialEq, Eq, Structural)]
pub enum Interrupt {
    Nmi,
    Brk,
}

/// The CPU registers and the interpreter's own state: the cycles still owed
/// by the instruction in flight and the interrupt waiting for the next
/// instruction boundary.
#[derive(Debug, Clone, Copy, PartialEq, Eq, Structural)]
pub struct CpuState {
    pub pc: u16,
    pub sp: u8,
    pub a: u8,
    pub x: u8,
    pub y: u8,
    /// The status byte: C, Z, I, D, bit 4, bit 5, V, N from bit 0 up.
    pub p: u8,
    pub cycles: u8,
    pub pending: Option<Interrupt>,
}

/// The CPU and the bus it runs against.
pub struct Machine {
    pub cpu: CpuState,
    pub bus: BusModel,
}

/// Whether the flag `mask` is set in `p`.
pub open spec fn flag(p: u8, mask: u8) -> bool {
    p & mask != 0
}

/// `p` with the flag `mask` set to `v`.
pub open spec fn set_flag(p: u8, mask: u8, v: bool) -> u8 {
    if v {
        p | mask
    } else {
        p & !mask
    }
}

/// Zero and Negative from `v`.
pub open spec fn zn(p: u8, v: u8) -> u8 {
    set_flag(set_flag(p, FLAG_Z, v == 0), FLAG_N, v >= 128)
}

/// The status byte as pushed by BRK and PHP: bits 4 and 5 set.
pub open spec fn pushed_status_brk(p: u8) -> u8 {
    p | 0x30
}

/// The status byte as pushed by an NMI: bit 5 set, bit 4 clear.
pub open spec fn pushed_status_nmi(p: u8) -> u8 {
    (p | 0x20) & 0xEF
}

/// The status register after PLP or RTI pulls `v`: the six flags come from
/// `v`, bit 5 reads as set and bit 4 as clear.
pub open spec fn pulled_status(v: u8) -> u8 {
    (v & 0xCF) | 0x20
}

pub open spec fn mach(c: CpuState, b: BusModel) -> Machine {
    Machine { cpu: c, bus: b }
}

pub open spec fn with_cpu(m: Machine, c: CpuState) -> Machine {
    Machine { cpu: c, ..m }
}

/// A bus read at `addr`: the new machine and the byte read.
pub open spec fn mread(m: Machine, addr: u16) -> (Machine, u8) {
    (Machine { bus: after_read(m.bus, addr), ..m }, read_value(m.bus, addr))
}

/// A bus write of `v` at `addr`.
pub open spec fn mwrite(m: Machine, addr: u16, v: u8) -> Machine {
    Machine { bus: after_write(m.bus, addr, v), ..m }
}

/// Reads the byte at PC and advances PC by one.
pub open spec fn fetch(m: Machine) -> (Machine, u8) {
    let r = mread(m, m.cpu.pc);
    (with_cpu(r.0, CpuState { pc: wrap16(m.cpu.pc + 1), ..r.0.cpu }), r.1)
}

/// Reads a 16-bit little-endian operand at PC and advances PC by two.
pub open spec fn fetch_u16(m: Machine) -> (Machine, u16) {
    let lo = fetch(m);
    let hi = fetch(lo.0);
    (hi.0, (hi.1 as int * 256 + lo.1 as int) as u16)
}

/// The address of the high byte of a JMP (ind) target: the hardware does not
/// carry into the pointer's high byte, so a pointer at 0xXXFF takes its high
/// byte from 0xXX00.
pub open spec fn indirect_hi_addr(ptr: u16) -> u16 {
    (ptr as int - ptr as int % 256 + (ptr as int % 256 + 1) % 256) as u16
}

/// Resolves the operand address of addressing mode `mode`, issuing its bus
/// reads in order and advancing PC past the operand bytes.
#[verifier::opaque]
pub open spec fn resolve(m: Machine, mode: AM) -> (Machine, u16) {
    match mode {
        AM::IMM => (with_cpu(m, CpuState { pc: wrap16(m.cpu.pc + 1), ..m.cpu }), m.cpu.pc),
        AM::ZPG => {
            let f = fetch(m);
            (f.0, f.1 as u16)
        },
        AM::ZPX => {
            let f = fetch(m);
            (f.0, wrap8(f.1 + m.cpu.x) as u16)
        },
        AM::ZPY => {
            let f = fetch(m);
            (f.0, wrap8(f.1 + m.cpu.y) as u16)
        },
        AM::ABS => fetch_u16(m),
        AM::ABX => {
            let f = fetch_u16(m);
            (f.0, wrap16(f.1 + m.cpu.x))
        },
        AM::ABY => {
            let f = fetch_u16(m);
            (f.0, wrap16(f.1 + m.cpu.y))
        },
        AM::INX => {
            let f = fetch(m);
            let ptr = wrap8(f.1 + m.cpu.x);
            let lo = mread(f.0, ptr as u16);
            let hi = mread(lo.0, wrap8(ptr + 1) as u16);
            (hi.0, (hi.1 as int * 256 + lo.1 as int) as u16)
        },
        AM::INY => {
            let f = fetch(m);
            let lo = mread(f.0, f.1 as u16);
            let hi = mread(lo.0, wrap8(f.1 + 1) as u16);
            (hi.0, wrap16(hi.1 as int * 256 + lo.1 as int + m.cpu.y))
        },
        AM::IND => {
            let f = fetch_u16(m);
            let lo = mread(f.0, f.1);
            let hi = mread(lo.0, indirect_hi_addr(f.1));
            (hi.0, (hi.1 as int * 256 + lo.1 as int) as u16)
        },
        _ => (m, m.cpu.pc),
    }
}

/// Result, carry and overflow of ADC: `a + v + carry`.
pub open spec fn adc_result(a: u8, v: u8, c: bool) -> (u8, bool, bool) {
    let sum = a + v + (if c { 1int } else { 0 });
    let r = wrap8(sum);
    (r, sum > 255, (a < 128) == (v < 128) && (r < 128) != (a < 128))
}

/// Result, carry (no borrow) and overflow of SBC: `a - v - (1 - carry)`.
pub open spec fn sbc_result(a: u8, v: u8, c: bool) -> (u8, bool, bool) {
    let diff = a - v - (if c { 0int } else { 1 });
    let r = wrap8(diff + 256);
    (r, diff >= 0, (a < 128) != (v < 128) && (r < 128) != (a < 128))
}

/// Flags after comparing `fst` with `snd`.
pub open spec fn compare_flags(p: u8, fst: u8, snd: u8) -> u8 {
    set_flag(set_flag(set_flag(p, FLAG_Z, fst == snd), FLAG_N, wrap8(fst - snd + 256) >= 128), FLAG_C, fst >= snd)
}

/// The registers after an instruction that reads the operand `v`.
pub open spec fn apply_read(c: CpuState, op: Op, v: u8) -> CpuState {
    match op {
        Op::ORA => CpuState { a: c.a | v, p: zn(c.p, c.a | v), ..c },
        Op::AND => CpuState { a: c.a & v, p: zn(c.p, c.a & v), ..c },
        Op::EOR => CpuState { a: c.a ^ v, p: zn(c.p, c.a ^ v), ..c },
        Op::ADC => {
            let r = adc_result(c.a, v, flag(c.p, FLAG_C));
            CpuState { a: r.0, p: zn(set_flag(set_flag(c.p, FLAG_C, r.1), FLAG_V, r.2), r.0), ..c }
        },
        Op::SBC => {
            let r = sbc_result(c.a, v, flag(c.p, FLAG_C));
            CpuState { a: r.0, p: zn(set_flag(set_flag(c.p, FLAG_C, r.1), FLAG_V, r.2), r.0), ..c }
        },
        Op::CMP => CpuState { p: compare_flags(c.p, c.a, v), ..c },
        Op::CPX => CpuState { p: compare_flags(c.p, c.x, v), ..c },
        Op::CPY => CpuState { p: compare_flags(c.p, c.y, v), ..c },
        Op::LDA => CpuState { a: v, p: zn(c.p, v), ..c },
        Op::LDX => CpuState { x: v, p: zn(c.p, v), ..c },
        Op::LDY => CpuState { y: v, p: zn(c.p, v), ..c },
        Op::BIT => CpuState {
            p: set_flag(set_flag(set_flag(c.p, FLAG_V, v & 0x40 != 0), FLAG_Z, v & c.a == 0), FLAG_N, v >= 128),
            ..c
        },
        _ => c,
    }
}

/// Operations that read one operand byte and set registers from it.
pub open spec fn is_read_op(op: Op) -> bool {
    match op {
        Op::ORA | Op::AND | Op::EOR | Op::ADC | Op::SBC | Op::CMP | Op::CPX | Op::CPY
        | Op::LDA | Op::LDX | Op::LDY | Op::BIT => true,
        _ => false,
    }
}

/// Operations that shift, rotate, increment or decrement a byte in place.
pub open spec fn is_modify_op(op: Op) -> bool {
    match op {
        Op::ASL | Op::LSR | Op::ROL | Op::ROR | Op::INC | Op::DEC => true,
        _ => false,
    }
}

/// The new byte and carry of a shift or rotate of `v` with carry-in `c`.
pub open spec fn shift_result(op: Op, v: u8, c: bool) -> (u8, bool) {
    match op {
        Op::ASL => (wrap8(v * 2), v >= 128),
        Op::ROL => (wrap8(v * 2 + (if c { 1int } else { 0 })), v >= 128),
        Op::LSR => ((v / 2) as u8, v % 2 == 1),
        _ => ((v / 2 + (if c { 128int } else { 0 })) as u8, v % 2 == 1),
    }
}

/// The byte that a read-modify-write operation writes back, and the status
/// after it.
pub open spec fn modify_result(op: Op, v: u8, p: u8) -> (u8, u8) {
    match op {
        Op::INC => (wrap8(v + 1), zn(p, wrap8(v + 1))),
        Op::DEC => (wrap8(v - 1 + 256), zn(p, wrap8(v - 1 + 256))),
        _ => {
            let s = shift_result(op, v, flag(p, FLAG_C));
            (s.0, zn(set_flag(p, FLAG_C, s.1), s.0))
        },
    }
}

/// Pushes `v`: writes it at 0x0100 + SP, then decrements SP (wrapping).
#[verifier::opaque]
pub open spec fn push(m: Machine, v: u8) -> Machine {
    let w = mwrite(m, (0x100 + m.cpu.sp) as u16, v);
    with_cpu(w, CpuState { sp: wrap8(m.cpu.sp - 1 + 256), ..w.cpu })
}

/// Pulls a byte: increments SP (wrapping), then reads 0x0100 + SP.
#[verifier::opaque]
pub open spec fn pull(m: Machine) -> (Machine, u8) {
    let sp = wrap8(m.cpu.sp + 1);
    mread(with_cpu(m, CpuState { sp, ..m.cpu }), (0x100 + sp) as u16)
}

/// The machine after `vals` are pushed in order.
pub open spec fn push_all(m: Machine, vals: Seq<u8>) -> Machine
    decreases vals.len(),
{
    if vals.len() == 0 {
        m
    } else {
        push_all(push(m, vals[0]), vals.drop_first())
    }
}

/// The two reads of a 16-bit vector at `addr`.
pub open spec fn read_vector(m: Machine, addr: u16) -> (Machine, u16) {
    let lo = mread(m, addr);
    let hi = mread(lo.0, wrap16(addr + 1));
    (hi.0, (hi.1 as int * 256 + lo.1 as int) as u16)
}

/// Interrupt delivery: unless it is a maskable one while interrupts are
/// disabled, push PC (high byte first) and the status, set the
/// interrupt-disable flag and jump through the kind's vector.
#[verifier::opaque]
pub open spec fn interrupt_effect(m: Machine, kind: Interrupt) -> Machine {
    if kind == Interrupt::Brk && flag(m.cpu.p, FLAG_I) {
        m
    } else {
        let m1 = push(m, (m.cpu.pc / 256) as u8);
        let m2 = push(m1, (m.cpu.pc % 256) as u8);
        let status = if kind == Interrupt::Nmi {
            pushed_status_nmi(m.cpu.p)
        } else {
            pushed_status_brk(m.cpu.p)
        };
        let m3 = push(m2, status);
        let m4 = with_cpu(m3, CpuState { p: set_flag(m3.cpu.p, FLAG_I, true), ..m3.cpu });
        let v = read_vector(m4, if kind == Interrupt::Nmi { NMI_VECTOR } else { IRQ_VECTOR });
        with_cpu(v.0, CpuState { pc: v.1, ..v.0.cpu })
    }
}

/// A signed branch offset.
pub open spec fn signed_offset(off: u8) -> int {
    if off >= 128 {
        off - 256
    } else {
        off as int
    }
}

/// A conditional branch: when `cond` holds, read the offset and add it to
/// the PC that follows it; otherwise skip the offset byte.
pub open spec fn branch(m: Machine, cond: bool) -> Machine {
    if cond {
        let f = fetch(m);
        with_cpu(f.0, CpuState { pc: wrap16(f.0.cpu.pc + signed_offset(f.1) + 0x10000), ..f.0.cpu })
    } else {
        with_cpu(m, CpuState { pc: wrap16(m.cpu.pc + 1), ..m.cpu })
    }
}

/// The branch condition of a branch operation on status `p`.
pub open spec fn branch_cond(op: Op, p: u8) -> bool {
    match op {
        Op::BPL => !flag(p, FLAG_N),
        Op::BMI => flag(p, FLAG_N),
        Op::BVC => !flag(p, FLAG_V),
        Op::BVS => flag(p, FLAG_V),
        Op::BCC => !flag(p, FLAG_C),
        Op::BCS => flag(p, FLAG_C),
        Op::BNE => !flag(p, FLAG_Z),
        _ => flag(p, FLAG_Z),
    }
}

pub open spec fn is_branch_op(op: Op) -> bool {
    match op {
        Op::BPL | Op::BMI | Op::BVC | Op::BVS | Op::BCC | Op::BCS | Op::BNE | Op::BEQ => true,
        _ => false,
    }
}

/// The addressing modes with which each operation has an executable case.
pub open spec fn valid_pair(op: Op, mode: AM) -> bool {
    match op {
        Op::ORA | Op::AND | Op::EOR | Op::ADC | Op::SBC | Op::CMP | Op::LDA => match mode {
            AM::IMM | AM::ZPG | AM::ZPX | AM::ABS | AM::ABX | AM::ABY | AM::INX | AM::INY => true,
            _ => false,
        },
        Op::STA => match mode {
            AM::ZPG | AM::ZPX | AM::ABS | AM::ABX | AM::ABY | AM::INX | AM::INY => true,
            _ => false,
        },
        Op::LDX => match mode {
            AM::IMM | AM::ZPG | AM::ZPY | AM::ABS | AM::ABY => true,
            _ => false,
        },
        Op::LDY => match mode {
            AM::IMM | AM::ZPG | AM::ZPX | AM::ABS | AM::ABX => true,
            _ => false,
        },
        Op::STX => match mode {
            AM::ZPG | AM::ZPY | AM::ABS => true,
            _ => false,
        },
        Op::STY => match mode {
            AM::ZPG | AM::ZPX | AM::ABS => true,
            _ => false,
        },
        Op::CPX | Op::CPY => match mode {
            AM::IMM | AM::ZPG | AM::ABS => true,
            _ => false,
        },
        Op::BIT => match mode {
            AM::ZPG | AM::ABS => true,
            _ => false,
        },
        Op::ASL | Op::LSR | Op::ROL | Op::ROR => match mode {
            AM::IMP | AM::ZPG | AM::ZPX | AM::ABS | AM::ABX => true,
            _ => false,
        },
        Op::INC | Op::DEC => match mode {
            AM::ZPG | AM::ZPX | AM::ABS | AM::ABX => true,
            _ => false,
        },
        Op::JMP => mode == AM::ABS || mode == AM::IND,
        Op::JSR => mode == AM::ABS,
        Op::BPL | Op::BMI | Op::BVC | Op::BVS | Op::BCC | Op::BCS | Op::BNE | Op::BEQ => mode
            == AM::REL,
        Op::NOP => match mode {
            AM::IMP | AM::IMM | AM::ZPG | AM::ZPX | AM::ABS | AM::ABX => true,
            _ => false,
        },
        Op::KIL => true,
        Op::BRK | Op::RTI | Op::RTS | Op::CLC | Op::SEC | Op::CLD | Op::SED | Op::CLI | Op::SEI
        | Op::CLV | Op::DEX | Op::DEY | Op::INX | Op::INY | Op::TAX | Op::TXA | Op::TAY
        | Op::TYA | Op::TSX | Op::TXS | Op::PHA | Op::PLA | Op::PHP | Op::PLP => mode == AM::IMP,
        _ => false,
    }
}

/// The effect of an implied-mode operation that touches registers only.
pub open spec fn register_op(c: CpuState, op: Op) -> CpuState {
    match op {
        Op::CLC => CpuState { p: set_flag(c.p, FLAG_C, false), ..c },
        Op::SEC => CpuState { p: set_flag(c.p, FLAG_C, true), ..c },
        Op::CLD => CpuState { p: set_flag(c.p, FLAG_D, false), ..c },
        Op::SED => CpuState { p: set_flag(c.p, FLAG_D, true), ..c },
        Op::CLI => CpuState { p: set_flag(c.p, FLAG_I, false), ..c },
        Op::SEI => CpuState { p: set_flag(c.p, FLAG_I, true), ..c },
        Op::CLV => CpuState { p: set_flag(c.p, FLAG_V, false), ..c },
        Op::DEX => CpuState { x: wrap8(c.x - 1 + 256), p: zn(c.p, wrap8(c.x - 1 + 256)), ..c },
        Op::DEY => CpuState { y: wrap8(c.y - 1 + 256), p: zn(c.p, wrap8(c.y - 1 + 256)), ..c },
        Op::INX => CpuState { x: wrap8(c.x + 1), p: zn(c.p, wrap8(c.x + 1)), ..c },
        Op::INY => CpuState { y: wrap8(c.y + 1), p: zn(c.p, wrap8(c.y + 1)), ..c },
        Op::TAX => CpuState { x: c.a, p: zn(c.p, c.a), ..c },
        Op::TXA => CpuState { a: c.x, p: zn(c.p, c.x), ..c },
        Op::TAY => CpuState { y: c.a, p: zn(c.p, c.a), ..c },
        Op::TYA => CpuState { a: c.y, p: zn(c.p, c.y), ..c },
        Op::TSX => CpuState { x: c.sp, p: zn(c.p, c.sp), ..c },
        Op::TXS => CpuState { sp: c.x, ..c },
        _ => c,
    }
}

pub open spec fn is_register_op(op: Op) -> bool {
    match op {
        Op::CLC | Op::SEC | Op::CLD | Op::SED | Op::CLI | Op::SEI | Op::CLV | Op::DEX
        | Op::DEY | Op::INX | Op::INY | Op::TAX | Op::TXA | Op::TAY | Op::TYA | Op::TSX
        | Op::TXS => true,
        _ => false,
    }
}

/// An operation that reads its operand at `addr` and sets registers.
#[verifier::opaque]
pub open spec fn read_op_effect(m: Machine, op: Op, addr: u16) -> Machine {
    let v = mread(m, addr);
    with_cpu(v.0, apply_read(v.0.cpu, op, v.1))
}

/// A shift or rotate of the accumulator.
pub open spec fn shift_acc(c: CpuState, op: Op) -> CpuState {
    let s = shift_result(op, c.a, flag(c.p, FLAG_C));
    CpuState { a: s.0, p: zn(set_flag(c.p, FLAG_C, s.1), s.0), ..c }
}

/// A read-modify-write of the byte at `addr`.
#[verifier::opaque]
pub open spec fn modify_effect(m: Machine, op: Op, addr: u16) -> Machine {
    let v = mread(m, addr);
    let res = modify_result(op, v.1, v.0.cpu.p);
    mwrite(with_cpu(v.0, CpuState { p: res.1, ..v.0.cpu }), addr, res.0)
}

/// JSR: pushes the address of the instruction's last byte (high byte
/// first) and jumps to the absolute operand.
#[verifier::opaque]
pub open spec fn jsr_effect(m: Machine) -> Machine {
    let ret = wrap16(m.cpu.pc + 1);
    let m1 = push(m, (ret / 256) as u8);
    let m2 = push(m1, (ret % 256) as u8);
    let t = read_vector(m2, m.cpu.pc);
    with_cpu(t.0, CpuState { pc: t.1, ..t.0.cpu })
}

/// RTS: pulls the return address (low byte first) and resumes after it.
#[verifier::opaque]
pub open spec fn rts_effect(m: Machine) -> Machine {
    let lo = pull(m);
    let hi = pull(lo.0);
    with_cpu(hi.0, CpuState { pc: wrap16(hi.1 as int * 256 + lo.1 as int + 1), ..hi.0.cpu })
}

/// RTI: pulls the status, then PC (low byte first).
#[verifier::opaque]
pub open spec fn rti_effect(m: Machine) -> Machine {
    let st = pull(m);
    let lo = pull(with_cpu(st.0, CpuState { p: pulled_status(st.1), ..st.0.cpu }));
    let hi = pull(lo.0);
    with_cpu(hi.0, CpuState { pc: (hi.1 as int * 256 + lo.1 as int) as u16, ..hi.0.cpu })
}

/// Stores, jumps and NOP: the operations that resolve an operand address
/// and do not read it.
#[verifier::opaque]
pub open spec fn transfer_effect(m: Machine, op: Op, mode: AM) -> Machine {
    let r = resolve(m, mode);
    match op {
        Op::STA => mwrite(r.0, r.1, m.cpu.a),
        Op::STX => mwrite(r.0, r.1, m.cpu.x),
        Op::STY => mwrite(r.0, r.1, m.cpu.y),
        Op::JMP => with_cpu(r.0, CpuState { pc: r.1, ..r.0.cpu }),
        _ => r.0,
    }
}

/// Subroutine and interrupt returns, stack operations and BRK.
#[verifier::opaque]
pub open spec fn stack_effect(m: Machine, op: Op) -> Machine {
    match op {
        Op::JSR => jsr_effect(m),
        Op::RTS => rts_effect(m),
        Op::RTI => rti_effect(m),
        Op::PHA => push(m, m.cpu.a),
        Op::PHP => push(m, pushed_status_brk(m.cpu.p)),
        Op::PLA => {
            let v = pull(m);
            with_cpu(v.0, CpuState { a: v.1, p: zn(v.0.cpu.p, v.1), ..v.0.cpu })
        },
        Op::PLP => {
            let v = pull(m);
            with_cpu(v.0, CpuState { p: pulled_status(v.1), ..v.0.cpu })
        },
        _ => interrupt_effect(m, Interrupt::Brk),
    }
}

pub open spec fn is_transfer_op(op: Op) -> bool {
    match op {
        Op::STA | Op::STX | Op::STY | Op::JMP | Op::NOP => true,
        _ => false,
    }
}

pub open spec fn is_stack_op(op: Op) -> bool {
    match op {
        Op::JSR | Op::RTS | Op::RTI | Op::PHA | Op::PHP | Op::PLA | Op::PLP | Op::BRK => true,
        _ => false,
    }
}

/// The effect of an instruction that has an executable case and does not
/// halt, once its opcode byte has been fetched.
pub open spec fn instruction_effect(m: Machine, ins: I) -> Machine {
    let op = ins.opcode;
    let mode = ins.addr_mode;
    if is_read_op(op) {
        let r = resolve(m, mode);
        read_op_effect(r.0, op, r.1)
    } else if is_modify_op(op) && mode == AM::IMP {
        with_cpu(m, shift_acc(m.cpu, op))
    } else if is_modify_op(op) {
        let r = resolve(m, mode);
        modify_effect(r.0, op, r.1)
    } else if is_register_op(op) {
        with_cpu(m, register_op(m.cpu, op))
    } else if is_branch_op(op) {
        branch(m, branch_cond(op, m.cpu.p))
    } else if is_transfer_op(op) {
        transfer_effect(m, op, mode)
    } else if is_stack_op(op) {
        stack_effect(m, op)
    } else {
        m
    }
}

/// Executes a decoded instruction whose opcode byte has been fetched: an
/// error for a pair with no executable case, a halt for the jam
/// instructions, else the instruction's effect.
pub open spec fn execute_outcome(m: Machine, ins: I, opcode: u8) -> (Machine, Result<bool, EmuErr>) {
    if !valid_pair(ins.opcode, ins.addr_mode) {
        (m, Err(EmuErr::UnrecognizedOpCode(opcode as u16)))
    } else if ins.opcode == Op::KIL {
        (m, Ok(true))
    } else {
        (instruction_effect(m, ins), Ok(false))
    }
}

/// Power-up: A, X and Y cleared, status 0x20, SP at its initial value, PC
/// at the reset vector.
pub open spec fn power_on_state(c: CpuState) -> CpuState {
    CpuState { a: 0, x: 0, y: 0, p: FLAG_U, sp: INITIAL_SP, pc: RESET_VECTOR, ..c }
}

/// Reset: PC from the reset vector, SP at its initial value, A, X and Y
/// cleared, interrupts disabled, no cycles owed.
pub open spec fn reset_effect(m: Machine) -> Machine {
    let v = read_vector(m, RESET_VECTOR);
    with_cpu(
        v.0,
        CpuState {
            pc: v.1,
            sp: INITIAL_SP,
            a: 0,
            x: 0,
            y: 0,
            p: set_flag(v.0.cpu.p, FLAG_I, true),
            cycles: 0,
            ..v.0.cpu
        },
    )
}

/// The cycle counter after one more cycle has been spent.
pub open spec fn tick(c: CpuState) -> CpuState {
    CpuState { cycles: if c.cycles > 0 { (c.cycles - 1) as u8 } else { 0 }, ..c }
}

/// One call of `step`. At an instruction boundary (no cycles owed) a pending
/// interrupt is delivered and cleared, the opcode at PC is fetched and
/// decoded, the counter is charged with its base cost and the instruction
/// runs. A halt or an error ends the call there; otherwise one cycle is
/// counted off.
pub open spec fn step_outcome(m: Machine) -> (Machine, Result<bool, EmuErr>) {
    if m.cpu.cycles == 0 {
        let m0 = match m.cpu.pending {
            Some(k) => interrupt_effect(with_cpu(m, CpuState { pending: None, ..m.cpu }), k),
            None => m,
        };
        let f = fetch(m0);
        let ins = descriptor(f.1);
        let m1 = with_cpu(f.0, CpuState { cycles: ins.cycles, ..f.0.cpu });
        let e = execute_outcome(m1, ins, f.1);
        if e.1 == Ok::<bool, EmuErr>(false) {
            (with_cpu(e.0, tick(e.0.cpu)), e.1)
        } else {
            e
        }
    } else {
        (with_cpu(m, tick(m.cpu)), Ok(false))
    }
}

/// Setting one status flag sets exactly that flag and leaves the others.
pub proof fn lemma_set_flag(p: u8, m: u8, k: u8, v: bool)
    by (bit_vector)
    requires
        m == 1 || m == 2 || m == 4 || m == 8 || m == 64 || m == 128,
        k == 1 || k == 2 || k == 4 || k == 8 || k == 64 || k == 128,
    ensures
        flag(set_flag(p, m, v), m) == v,
        m != k ==> flag(set_flag(p, m, v), k) == flag(p, k),
{
}

/// Power-on followed by reset, with the reset vector holding 0x00 (low)
/// and 0x80 (high), leaves PC at 0x8000, SP at 0xFD and interrupts
/// disabled.
pub proof fn lemma_power_on_reset(c: CpuState, b: BusModel)
    requires
        read_value(b, RESET_VECTOR) == 0x00,
        read_value(after_read(b, RESET_VECTOR), (RESET_VECTOR + 1) as u16) == 0x80,
    ensures
        reset_effect(mach(power_on_state(c), b)).cpu.pc == 0x8000,
        reset_effect(mach(power_on_state(c), b)).cpu.sp == 0xFD,
        flag(reset_effect(mach(power_on_state(c), b)).cpu.p, FLAG_I),
{
    lemma_set_flag(FLAG_U, FLAG_I, FLAG_I, true);
    assert(wrap16(RESET_VECTOR + 1) == 0xFFFD);
}

/// A pull right after a push returns the pushed byte and restores SP, for
/// every SP, 0x00 and 0xFF included.
pub proof fn lemma_push_pull(m: Machine, v: u8)
    requires
        m.bus.ram.len() == 0x800,
    ensures
        pull(push(m, v)).1 == v,
        pull(push(m, v)).0.cpu.sp == m.cpu.sp,
{
    reveal(push);
    reveal(pull);
    let addr = (0x100 + m.cpu.sp) as u16;
    assert(is_ram(addr));
    assert(ram_index(addr) == 0x100 + m.cpu.sp);
}

/// Each push moves SP down by one, wrapping from 0x00 to 0xFF: after `n`
/// pushes SP is the old SP minus `n`, modulo 256.
pub proof fn lemma_push_all_sp(m: Machine, vals: Seq<u8>)
    ensures
        push_all(m, vals).cpu.sp as int == (m.cpu.sp as int - vals.len() as int) % 256,
    decreases vals.len(),
{
    reveal(push);
    if vals.len() > 0 {
        let m1 = push(m, vals[0]);
        lemma_push_all_sp(m1, vals.drop_first());
        assert(m1.cpu.sp as int == (m.cpu.sp as int - 1 + 256) % 256);
    }
}

/// 256 pushes bring SP back to where it started, after running through
/// every value.
pub proof fn lemma_push_256(m: Machine, vals: Seq<u8>)
    requires
        vals.len() == 256,
    ensures
        push_all(m, vals).cpu.sp == m.cpu.sp,
{
    lemma_push_all_sp(m, vals);
}

/// AND with a zero operand, and ORA or EOR of a zero accumulator with a
/// zero operand, whatever addressing mode produced `addr`, leave A zero
/// with Zero set and Negative clear.
pub proof fn lemma_logic_zero(m: Machine, op: Op, addr: u16)
    requires
        op == Op::AND || op == Op::ORA || op == Op::EOR,
        read_value(m.bus, addr) == 0,
        op != Op::AND ==> m.cpu.a == 0,
    ensures
        read_op_effect(m, op, addr).cpu.a == 0,
        flag(read_op_effect(m, op, addr).cpu.p, FLAG_Z),
        !flag(read_op_effect(m, op, addr).cpu.p, FLAG_N),
{
    reveal(read_op_effect);
    let a = m.cpu.a;
    assert(a & 0 == 0 && (0u8 | 0u8) == 0 && (0u8 ^ 0u8) == 0) by (bit_vector);
    let p = m.cpu.p;
    lemma_set_flag(p, FLAG_Z, FLAG_Z, true);
    lemma_set_flag(set_flag(p, FLAG_Z, true), FLAG_N, FLAG_Z, false);
    lemma_set_flag(set_flag(p, FLAG_Z, true), FLAG_N, FLAG_N, false);
}

/// Zero page,X wraps within the zero page: the address is the operand byte
/// plus X modulo 256, never above 0x00FF; `$80,X` with X = 0xFF is 0x007F.
pub proof fn lemma_zero_page_x_wraps(m: Machine)
    ensures
        resolve(m, AM::ZPX).1 as int == (read_value(m.bus, m.cpu.pc) as int + m.cpu.x as int) % 256,
        resolve(m, AM::ZPX).1 <= 0xFF,
        read_value(m.bus, m.cpu.pc) == 0x80 && m.cpu.x == 0xFF ==> resolve(m, AM::ZPX).1 == 0x7F,
{
    reveal(resolve);
}

/// JMP (ind) never leaves the pointer's page for the high byte: a pointer
/// at 0xXXFF takes it from 0xXX00.
pub proof fn lemma_indirect_page_wrap(ptr: u16)
    ensures
        indirect_hi_addr(ptr) as int / 256 == ptr as int / 256,
        ptr as int % 256 == 0xFF ==> indirect_hi_addr(ptr) as int == ptr as int - 0xFF,
        ptr as int % 256 != 0xFF ==> indirect_hi_addr(ptr) as int == ptr as int + 1,
{
}

/// JMP (ind) reads the target's low byte at the pointer and its high byte
/// at `indirect_hi_addr` of the pointer.
pub proof fn lemma_jmp_indirect_reads(m: Machine)
    ensures
        ({
            let f = fetch_u16(m);
            let lo = mread(f.0, f.1);
            let hi = mread(lo.0, indirect_hi_addr(f.1));
            resolve(m, AM::IND).1 as int == hi.1 as int * 256 + lo.1 as int
        }),
{
    reveal(resolve);
}

} // verus!
