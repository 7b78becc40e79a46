use vstd::prelude::*;
use crate::bus::{Bus, wrap8, wrap16};
use crate::err::EmuErr;
use crate::opcodes::{AM, I, Op, decode};
use crate::semantics::{
    CpuState, Interrupt, FLAG_C, FLAG_D, FLAG_I, FLAG_N, FLAG_U, FLAG_V, FLAG_Z, INITIAL_SP,
    IRQ_VECTOR, NMI_VECTOR, RESET_VECTOR, branch, execute_outcome, fetch, power_on_state, flag,
    interrupt_effect, mach, pull, push, reset_effect, resolve, set_flag, step_outcome,
    valid_pair, with_cpu, zn, mread, register_op, read_op_effect, shift_acc, modify_effect,
    compare_flags, transfer_effect, stack_effect, is_read_op, is_modify_op, is_register_op,
    jsr_effect, rts_effect, rti_effect,
};

verus! {

/// The 6502 core: registers, the packed status byte, the cycle counter of
/// the instruction in flight and a pending interrupt.
pub struct Cpu {
    reg_pc: u16,
    reg_sp: u8,
    reg_x: u8,
    reg_y: u8,
    reg_a: u8,
    reg_p: u8,
    cycles: u8,
    interrupt: Option<Interrupt>,
    instruction: Option<I>,
}

impl View for Cpu {
    type V = CpuState;

    closed spec fn view(&self) -> CpuState {
        CpuState {
            pc: self.reg_pc,
            sp: self.reg_sp,
            a: self.reg_a,
            x: self.reg_x,
            y: self.reg_y,
            p: self.reg_p,
            cycles: self.cycles,
            pending: self.interrupt,
        }
    }
}

/// `u16::wrapping_add(a, 1)` is `a + 1` reduced to 16 bits.
proof fn lemma_wrapping_inc(a: u16, b: u16)
    requires
        b == (if a as int + 1 > u16::MAX { (a as int + 1 - 0x10000) as u16 } else { (a as int + 1) as u16 }),
    ensures
        b == wrap16(a + 1),
{
}

/// Uppercase hexadecimal digit of `d` (below 16).
pub open spec fn hex_digit(d: u8) -> char {
    match d {
        0 => '0',
        1 => '1',
        2 => '2',
        3 => '3',
        4 => '4',
        5 => '5',
        6 => '6',
        7 => '7',
        8 => '8',
        9 => '9',
        10 => 'A',
        11 => 'B',
        12 => 'C',
        13 => 'D',
        14 => 'E',
        _ => 'F',
    }
}

/// Two uppercase hexadecimal digits of `v`.
pub open spec fn hex2(v: u8) -> Seq<char> {
    seq![hex_digit(v / 16), hex_digit(v % 16)]
}

/// The register dump: `PC:XXXX A:XX X:XX Y:XX P:XX SP:XX` in uppercase
/// hexadecimal.
pub open spec fn register_dump(c: CpuState) -> Seq<char> {
    seq!['P', 'C', ':'] + hex2((c.pc / 256) as u8) + hex2((c.pc % 256) as u8) + seq![' ', 'A', ':']
        + hex2(c.a) + seq![' ', 'X', ':'] + hex2(c.x) + seq![' ', 'Y', ':'] + hex2(c.y) + seq![
        ' ',
        'P',
        ':',
    ] + hex2(c.p) + seq![' ', 'S', 'P', ':'] + hex2(c.sp)
}

/// Relies on `String::push`: appends `c` at the end of `s`.
#[verifier::external_body]
fn push_char(s: &mut String, c: char)
    ensures
        final(s)@ == old(s)@.push(c),
{
    s.push(c);
}

fn hex_digit_of(d: u8) -> (r: char)
    ensures
        r == hex_digit(d),
{
    match d {
        0 => '0',
        1 => '1',
        2 => '2',
        3 => '3',
        4 => '4',
        5 => '5',
        6 => '6',
        7 => '7',
        8 => '8',
        9 => '9',
        10 => 'A',
        11 => 'B',
        12 => 'C',
        13 => 'D',
        14 => 'E',
        _ => 'F',
    }
}

/// Appends the two hexadecimal digits of `v`.
fn push_hex2(s: &mut String, v: u8)
    ensures
        final(s)@ == old(s)@ + hex2(v),
{
    push_char(s, hex_digit_of(v / 16));
    push_char(s, hex_digit_of(v % 16));
    assert(final(s)@ =~= old(s)@ + hex2(v));
}

/// Appends the characters of `label`.
fn push_label(s: &mut String, label: &[char])
    ensures
        final(s)@ == old(s)@ + label@,
{
    let mut i: usize = 0;
    while i < label.len()
        invariant
            i <= label@.len(),
            s@ == old(s)@ + label@.subrange(0, i as int),
        decreases label@.len() - i,
    {
        push_char(s, label[i]);
        i += 1;
        assert(s@ =~= old(s)@ + label@.subrange(0, i as int));
    }
    assert(label@.subrange(0, label@.len() as int) =~= label@);
}

impl Cpu {
    /// The state before power-on: PC at the reset vector, SP at its
    /// initial value, everything else cleared.
    pub fn new() -> (r: Cpu)
        ensures
            r@ == (CpuState {
                pc: RESET_VECTOR,
                sp: INITIAL_SP,
                a: 0,
                x: 0,
                y: 0,
                p: 0,
                cycles: 0,
                pending: None,
            }),
    {
        Cpu {
            reg_pc: RESET_VECTOR,
            reg_sp: INITIAL_SP,
            reg_x: 0,
            reg_y: 0,
            reg_a: 0,
            reg_p: 0,
            cycles: 0,
            interrupt: None,
            instruction: None,
        }
    }

    pub fn pc(&self) -> (r: u16)
        ensures
            r == self@.pc,
    {
        self.reg_pc
    }

    pub fn sp(&self) -> (r: u8)
        ensures
            r == self@.sp,
    {
        self.reg_sp
    }

    pub fn a(&self) -> (r: u8)
        ensures
            r == self@.a,
    {
        self.reg_a
    }

    pub fn x(&self) -> (r: u8)
        ensures
            r == self@.x,
    {
        self.reg_x
    }

    pub fn y(&self) -> (r: u8)
        ensures
            r == self@.y,
    {
        self.reg_y
    }

    /// The packed status byte.
    pub fn p(&self) -> (r: u8)
        ensures
            r == self@.p,
    {
        self.reg_p
    }

    /// Cycles still owed by the instruction in flight.
    pub fn cycles(&self) -> (r: u8)
        ensures
            r == self@.cycles,
    {
        self.cycles
    }

    /// A snapshot of all registers.
    pub fn registers(&self) -> (r: CpuState)
        ensures
            r == self@,
    {
        CpuState {
            pc: self.reg_pc,
            sp: self.reg_sp,
            a: self.reg_a,
            x: self.reg_x,
            y: self.reg_y,
            p: self.reg_p,
            cycles: self.cycles,
            pending: self.interrupt,
        }
    }

    /// The register dump used for trace comparison:
    /// `PC:XXXX A:XX X:XX Y:XX P:XX SP:XX`.
    pub fn state(&self) -> (r: String)
        ensures
            r@ == register_dump(self@),
    {
        let mut s = String::new();
        push_label(&mut s, &['P', 'C', ':']);
        push_hex2(&mut s, (self.reg_pc / 256) as u8);
        push_hex2(&mut s, (self.reg_pc % 256) as u8);
        push_label(&mut s, &[' ', 'A', ':']);
        push_hex2(&mut s, self.reg_a);
        push_label(&mut s, &[' ', 'X', ':']);
        push_hex2(&mut s, self.reg_x);
        push_label(&mut s, &[' ', 'Y', ':']);
        push_hex2(&mut s, self.reg_y);
        push_label(&mut s, &[' ', 'P', ':']);
        push_hex2(&mut s, self.reg_p);
        push_label(&mut s, &[' ', 'S', 'P', ':']);
        push_hex2(&mut s, self.reg_sp);
        assert(s@ =~= register_dump(self@));
        s
    }

    pub closed spec fn last_instruction(&self) -> Option<I> {
        self.instruction
    }

    /// The last instruction fetched, if any.
    pub fn instruction(&self) -> (r: Option<I>)
        ensures
            r == self.last_instruction(),
    {
        self.instruction
    }

    /// Whether the flag `mask` is set.
    pub fn flag(&self, mask: u8) -> (r: bool)
        ensures
            r == flag(self@.p, mask),
    {
        self.reg_p & mask != 0
    }

    fn set_flag(&mut self, mask: u8, v: bool)
        ensures
            final(self)@ == (CpuState { p: set_flag(old(self)@.p, mask, v), ..old(self)@ }),
            final(self).instruction == old(self).instruction,
    {
        if v {
            self.reg_p = self.reg_p | mask;
        } else {
            self.reg_p = self.reg_p & !mask;
        }
    }

    /// Sets Zero and Negative from `val`.
    fn set_zn(&mut self, val: u8)
        ensures
            final(self)@ == (CpuState { p: zn(old(self)@.p, val), ..old(self)@ }),
            final(self).instruction == old(self).instruction,
    {
        self.set_flag(FLAG_Z, val == 0);
        self.set_n(val);
    }

    /// Sets Negative from bit 7 of `val`.
    fn set_n(&mut self, val: u8)
        ensures
            final(self)@ == (CpuState { p: set_flag(old(self)@.p, FLAG_N, val >= 128), ..old(self)@ }),
            final(self).instruction == old(self).instruction,
    {
        self.set_flag(FLAG_N, val >= 128);
    }

    /// Power-up state: registers cleared, status 0x20 (bit 5 set), SP at
    /// its initial value, PC at the reset vector.
    pub fn power_on(&mut self)
        ensures
            final(self)@ == power_on_state(old(self)@),
    {
        self.reg_a = 0;
        self.reg_x = 0;
        self.reg_y = 0;
        self.reg_p = FLAG_U;
        self.reg_sp = INITIAL_SP;
        self.reg_pc = RESET_VECTOR;
    }

    /// Reset: PC is loaded from the reset vector, SP set to its initial
    /// value, A, X and Y cleared, interrupts disabled and the cycle counter
    /// cleared.
    pub fn reset(&mut self, bus: &mut Bus)
        requires
            old(bus).wf(),
            old(bus)@.prg is Some,
        ensures
            final(bus).wf(),
            final(bus)@.prg == old(bus)@.prg,
            mach(final(self)@, final(bus)@) == reset_effect(mach(old(self)@, old(bus)@)),
    {
        self.reg_pc = bus.read_u16(RESET_VECTOR);
        self.reg_sp = INITIAL_SP;
        self.reg_a = 0;
        self.reg_x = 0;
        self.reg_y = 0;
        self.set_flag(FLAG_I, true);
        self.cycles = 0;
    }

    /// Asks for an interrupt, delivered at the next instruction boundary.
    pub fn interrupt(&mut self, kind: Interrupt)
        ensures
            final(self)@ == (CpuState { pending: Some(kind), ..old(self)@ }),
    {
        self.interrupt = Some(kind);
    }

    /// Reads the byte at PC and advances PC.
    fn fetch_byte(&mut self, bus: &mut Bus) -> (r: u8)
        requires
            old(bus).wf(),
            old(bus)@.prg is Some,
        ensures
            final(bus).wf(),
            final(bus)@.prg == old(bus)@.prg,
            (mach(final(self)@, final(bus)@), r) == fetch(mach(old(self)@, old(bus)@)),
            final(self).instruction == old(self).instruction,
    {
        let v = bus.read(self.reg_pc);
        let next = self.reg_pc.wrapping_add(1);
        proof {
            lemma_wrapping_inc(self.reg_pc, next);
        }
        self.reg_pc = next;
        v
    }

    /// Immediate: the operand is the byte at PC.
    fn immediate(&mut self) -> (r: u16)
        ensures
            final(self)@ == (CpuState { pc: wrap16(old(self)@.pc + 1), ..old(self)@ }),
            r == old(self)@.pc,
            final(self).instruction == old(self).instruction,
    {
        let location = self.reg_pc;
        let next = self.reg_pc.wrapping_add(1);
        proof {
            lemma_wrapping_inc(self.reg_pc, next);
        }
        self.reg_pc = next;
        location
    }

    /// Zero page: the next byte is the address.
    fn zero_page(&mut self, bus: &mut Bus) -> (r: u16)
        requires
            old(bus).wf(),
            old(bus)@.prg is Some,
        ensures
            final(bus).wf(),
            final(bus)@.prg == old(bus)@.prg,
            (mach(final(self)@, final(bus)@), r) == resolve(mach(old(self)@, old(bus)@), AM::ZPG),
            final(self).instruction == old(self).instruction,
    {
        proof {
            reveal(resolve);
        }
        self.fetch_byte(bus) as u16
    }

    /// Zero page indexed by X: the sum wraps within the zero page, so
    /// `$80,X` with X = 0xFF is 0x007F.
    fn zero_page_x(&mut self, bus: &mut Bus) -> (r: u16)
        requires
            old(bus).wf(),
            old(bus)@.prg is Some,
        ensures
            final(bus).wf(),
            final(bus)@.prg == old(bus)@.prg,
            (mach(final(self)@, final(bus)@), r) == resolve(mach(old(self)@, old(bus)@), AM::ZPX),
            final(self).instruction == old(self).instruction,
    {
        proof {
            reveal(resolve);
        }
        let base = self.fetch_byte(bus);
        base.wrapping_add(self.reg_x) as u16
    }

    /// Zero page indexed by Y, wrapping within the zero page.
    fn zero_page_y(&mut self, bus: &mut Bus) -> (r: u16)
        requires
            old(bus).wf(),
            old(bus)@.prg is Some,
        ensures
            final(bus).wf(),
            final(bus)@.prg == old(bus)@.prg,
            (mach(final(self)@, final(bus)@), r) == resolve(mach(old(self)@, old(bus)@), AM::ZPY),
            final(self).instruction == old(self).instruction,
    {
        proof {
            reveal(resolve);
        }
        let base = self.fetch_byte(bus);
        base.wrapping_add(self.reg_y) as u16
    }

    /// Absolute: a 16-bit little-endian address follows.
    fn absolute(&mut self, bus: &mut Bus) -> (r: u16)
        requires
            old(bus).wf(),
            old(bus)@.prg is Some,
        ensures
            final(bus).wf(),
            final(bus)@.prg == old(bus)@.prg,
            (mach(final(self)@, final(bus)@), r) == resolve(mach(old(self)@, old(bus)@), AM::ABS),
            final(self).instruction == old(self).instruction,
    {
        proof {
            reveal(resolve);
        }
        let lo = self.fetch_byte(bus) as u16;
        let hi = self.fetch_byte(bus) as u16;
        hi * 256 + lo
    }

    /// Absolute indexed by X, a 16-bit addition that carries into the high
    /// byte.
    fn absolute_x(&mut self, bus: &mut Bus) -> (r: u16)
        requires
            old(bus).wf(),
            old(bus)@.prg is Some,
        ensures
            final(bus).wf(),
            final(bus)@.prg == old(bus)@.prg,
            (mach(final(self)@, final(bus)@), r) == resolve(mach(old(self)@, old(bus)@), AM::ABX),
            final(self).instruction == old(self).instruction,
    {
        proof {
            reveal(resolve);
        }
        let base = self.absolute(bus);
        base.wrapping_add(self.reg_x as u16)
    }

    /// Absolute indexed by Y.
    fn absolute_y(&mut self, bus: &mut Bus) -> (r: u16)
        requires
            old(bus).wf(),
            old(bus)@.prg is Some,
        ensures
            final(bus).wf(),
            final(bus)@.prg == old(bus)@.prg,
            (mach(final(self)@, final(bus)@), r) == resolve(mach(old(self)@, old(bus)@), AM::ABY),
            final(self).instruction == old(self).instruction,
    {
        proof {
            reveal(resolve);
        }
        let base = self.absolute(bus);
        base.wrapping_add(self.reg_y as u16)
    }

    /// Indexed indirect, `(zp,X)`: the pointer sits at `zp + X` in the zero
    /// page, and its two bytes wrap within the zero page.
    fn indexed_indirect(&mut self, bus: &mut Bus) -> (r: u16)
        requires
            old(bus).wf(),
            old(bus)@.prg is Some,
        ensures
            final(bus).wf(),
            final(bus)@.prg == old(bus)@.prg,
            (mach(final(self)@, final(bus)@), r) == resolve(mach(old(self)@, old(bus)@), AM::INX),
            final(self).instruction == old(self).instruction,
    {
        proof {
            reveal(resolve);
        }
        let ghost m0 = mach(self@, bus@);
        let base = self.fetch_byte(bus);
        let ghost m1 = mach(self@, bus@);
        let ptr = base.wrapping_add(self.reg_x);
        assert(ptr == wrap8(base + m0.cpu.x));
        let lo = bus.read(ptr as u16);
        let ghost m2 = mach(self@, bus@);
        assert(m2 == mread(m1, ptr as u16).0);
        let next = ptr.wrapping_add(1);
        assert(next == wrap8(ptr + 1));
        let hi = bus.read(next as u16);
        assert(mach(self@, bus@) == mread(m2, next as u16).0);
        hi as u16 * 256 + lo as u16
    }

    /// Indirect indexed, `(zp),Y`: the pointer sits at `zp`, and Y is added
    /// to its target as a 16-bit addition.
    fn indirect_indexed(&mut self, bus: &mut Bus) -> (r: u16)
        requires
            old(bus).wf(),
            old(bus)@.prg is Some,
        ensures
            final(bus).wf(),
            final(bus)@.prg == old(bus)@.prg,
            (mach(final(self)@, final(bus)@), r) == resolve(mach(old(self)@, old(bus)@), AM::INY),
            final(self).instruction == old(self).instruction,
    {
        proof {
            reveal(resolve);
        }
        let ghost m0 = mach(self@, bus@);
        let zp = self.fetch_byte(bus);
        let ghost m1 = mach(self@, bus@);
        let lo = bus.read(zp as u16);
        let ghost m2 = mach(self@, bus@);
        assert(m2 == mread(m1, zp as u16).0);
        let next = zp.wrapping_add(1);
        assert(next == wrap8(zp + 1));
        let hi = bus.read(next as u16);
        assert(mach(self@, bus@) == mread(m2, next as u16).0);
        let target = hi as u16 * 256 + lo as u16;
        let r = target.wrapping_add(self.reg_y as u16);
        assert(r == wrap16(target + m0.cpu.y));
        r
    }

    /// Indirect (JMP only), with the page-boundary fault of the hardware:
    /// the high byte of the target comes from the start of the pointer's
    /// page when the pointer ends in 0xFF.
    fn indirect(&mut self, bus: &mut Bus) -> (r: u16)
        requires
            old(bus).wf(),
            old(bus)@.prg is Some,
        ensures
            final(bus).wf(),
            final(bus)@.prg == old(bus)@.prg,
            (mach(final(self)@, final(bus)@), r) == resolve(mach(old(self)@, old(bus)@), AM::IND),
            final(self).instruction == old(self).instruction,
    {
        proof {
            reveal(resolve);
        }
        let location = self.absolute(bus);
        let page = location - location % 256;
        let lo = bus.read(location) as u16;
        let hi = bus.read(page + (location % 256 + 1) % 256) as u16;
        hi * 256 + lo
    }

    /// The operand address of `mode`, advancing PC past the operand.
    fn resolve(&mut self, mode: AM, bus: &mut Bus) -> (r: u16)
        requires
            old(bus).wf(),
            old(bus)@.prg is Some,
        ensures
            final(bus).wf(),
            final(bus)@.prg == old(bus)@.prg,
            (mach(final(self)@, final(bus)@), r) == resolve(mach(old(self)@, old(bus)@), mode),
            final(self).instruction == old(self).instruction,
    {
        proof {
            reveal(resolve);
        }
        match mode {
            AM::IMM => self.immediate(),
            AM::ZPG => self.zero_page(bus),
            AM::ZPX => self.zero_page_x(bus),
            AM::ZPY => self.zero_page_y(bus),
            AM::ABS => self.absolute(bus),
            AM::ABX => self.absolute_x(bus),
            AM::ABY => self.absolute_y(bus),
            AM::INX => self.indexed_indirect(bus),
            AM::INY => self.indirect_indexed(bus),
            AM::IND => self.indirect(bus),
            _ => self.reg_pc,
        }
    }

    /// A |= operand.
    fn ora(&mut self, location: u16, bus: &mut Bus)
        requires
            old(bus).wf(),
            old(bus)@.prg is Some,
        ensures
            final(bus).wf(),
            final(bus)@.prg == old(bus)@.prg,
            mach(final(self)@, final(bus)@) == read_op_effect(mach(old(self)@, old(bus)@), Op::ORA, location),
            final(self).instruction == old(self).instruction,
    {
        proof {
            reveal(read_op_effect);
        }
        let m = bus.read(location);
        self.reg_a = self.reg_a | m;
        self.set_zn(self.reg_a);
    }

    /// A &= operand.
    fn and(&mut self, location: u16, bus: &mut Bus)
        requires
            old(bus).wf(),
            old(bus)@.prg is Some,
        ensures
            final(bus).wf(),
            final(bus)@.prg == old(bus)@.prg,
            mach(final(self)@, final(bus)@) == read_op_effect(mach(old(self)@, old(bus)@), Op::AND, location),
            final(self).instruction == old(self).instruction,
    {
        proof {
            reveal(read_op_effect);
        }
        let m = bus.read(location);
        self.reg_a = self.reg_a & m;
        self.set_zn(self.reg_a);
    }

    /// A ^= operand.
    fn eor(&mut self, location: u16, bus: &mut Bus)
        requires
            old(bus).wf(),
            old(bus)@.prg is Some,
        ensures
            final(bus).wf(),
            final(bus)@.prg == old(bus)@.prg,
            mach(final(self)@, final(bus)@) == read_op_effect(mach(old(self)@, old(bus)@), Op::EOR, location),
            final(self).instruction == old(self).instruction,
    {
        proof {
            reveal(read_op_effect);
        }
        let m = bus.read(location);
        self.reg_a = self.reg_a ^ m;
        self.set_zn(self.reg_a);
    }

    /// Add with carry; Overflow follows the signed-overflow rule.
    fn adc(&mut self, location: u16, bus: &mut Bus)
        requires
            old(bus).wf(),
            old(bus)@.prg is Some,
        ensures
            final(bus).wf(),
            final(bus)@.prg == old(bus)@.prg,
            mach(final(self)@, final(bus)@) == read_op_effect(mach(old(self)@, old(bus)@), Op::ADC, location),
            final(self).instruction == old(self).instruction,
    {
        proof {
            reveal(read_op_effect);
        }
        let m = bus.read(location);
        let a = self.reg_a;
        let c: u16 = if self.reg_p & FLAG_C != 0 { 1 } else { 0 };
        let sum: u16 = a as u16 + m as u16 + c;
        let r: u8 = (sum % 256) as u8;
        self.set_flag(FLAG_C, sum > 255);
        // signed overflow: both inputs share a sign that the result lacks
        self.set_flag(FLAG_V, (a < 128) == (m < 128) && (r < 128) != (a < 128));
        self.reg_a = r;
        self.set_zn(r);
    }

    /// Subtract with borrow = 1 - Carry.
    fn sbc(&mut self, location: u16, bus: &mut Bus)
        requires
            old(bus).wf(),
            old(bus)@.prg is Some,
        ensures
            final(bus).wf(),
            final(bus)@.prg == old(bus)@.prg,
            mach(final(self)@, final(bus)@) == read_op_effect(mach(old(self)@, old(bus)@), Op::SBC, location),
            final(self).instruction == old(self).instruction,
    {
        proof {
            reveal(read_op_effect);
        }
        let m = bus.read(location);
        let a = self.reg_a;
        let borrow: i16 = if self.reg_p & FLAG_C != 0 { 0 } else { 1 };
        let diff: i16 = a as i16 - m as i16 - borrow;
        let r: u8 = ((diff + 256) % 256) as u8;
        self.set_flag(FLAG_C, diff >= 0);
        self.set_flag(FLAG_V, (a < 128) != (m < 128) && (r < 128) != (a < 128));
        self.reg_a = r;
        self.set_zn(r);
    }

    /// A = operand.
    fn lda(&mut self, location: u16, bus: &mut Bus)
        requires
            old(bus).wf(),
            old(bus)@.prg is Some,
        ensures
            final(bus).wf(),
            final(bus)@.prg == old(bus)@.prg,
            mach(final(self)@, final(bus)@) == read_op_effect(mach(old(self)@, old(bus)@), Op::LDA, location),
            final(self).instruction == old(self).instruction,
    {
        proof {
            reveal(read_op_effect);
        }
        let m = bus.read(location);
        self.reg_a = m;
        self.set_zn(m);
    }

    /// X = operand.
    fn ldx(&mut self, location: u16, bus: &mut Bus)
        requires
            old(bus).wf(),
            old(bus)@.prg is Some,
        ensures
            final(bus).wf(),
            final(bus)@.prg == old(bus)@.prg,
            mach(final(self)@, final(bus)@) == read_op_effect(mach(old(self)@, old(bus)@), Op::LDX, location),
            final(self).instruction == old(self).instruction,
    {
        proof {
            reveal(read_op_effect);
        }
        let m = bus.read(location);
        self.reg_x = m;
        self.set_zn(m);
    }

    /// Y = operand.
    fn ldy(&mut self, location: u16, bus: &mut Bus)
        requires
            old(bus).wf(),
            old(bus)@.prg is Some,
        ensures
            final(bus).wf(),
            final(bus)@.prg == old(bus)@.prg,
            mach(final(self)@, final(bus)@) == read_op_effect(mach(old(self)@, old(bus)@), Op::LDY, location),
            final(self).instruction == old(self).instruction,
    {
        proof {
            reveal(read_op_effect);
        }
        let m = bus.read(location);
        self.reg_y = m;
        self.set_zn(m);
    }

    /// Overflow = bit 6, Zero = operand & A == 0, Negative = bit 7.
    fn bit(&mut self, location: u16, bus: &mut Bus)
        requires
            old(bus).wf(),
            old(bus)@.prg is Some,
        ensures
            final(bus).wf(),
            final(bus)@.prg == old(bus)@.prg,
            mach(final(self)@, final(bus)@) == read_op_effect(mach(old(self)@, old(bus)@), Op::BIT, location),
            final(self).instruction == old(self).instruction,
    {
        proof {
            reveal(read_op_effect);
        }
        let m = bus.read(location);
        self.set_flag(FLAG_V, m & 0x40 != 0);
        self.set_flag(FLAG_Z, m & self.reg_a == 0);
        self.set_n(m);
    }

    /// Compares `fst` with `snd`: Zero when equal, Negative from bit 7 of
    /// the difference, Carry when `fst >= snd`.
    fn cmp(&mut self, fst: u8, snd: u8)
        ensures
            final(self)@ == (CpuState { p: compare_flags(old(self)@.p, fst, snd), ..old(self)@ }),
            final(self).instruction == old(self).instruction,
    {
        self.set_flag(FLAG_Z, fst == snd);
        self.set_n(fst.wrapping_sub(snd));
        self.set_flag(FLAG_C, fst >= snd);
    }

    /// Shifts A left; Carry takes bit 7.
    fn asl_acc(&mut self)
        ensures
            final(self)@ == shift_acc(old(self)@, Op::ASL),
            final(self).instruction == old(self).instruction,
    {
        let m = self.reg_a;
        let r: u8 = ((m as u16 * 2) % 256) as u8;
        self.set_flag(FLAG_C, m >= 128);
        self.reg_a = r;
        self.set_zn(r);
    }

    /// Shifts the byte at `location` left; Carry takes bit 7.
    fn asl(&mut self, location: u16, bus: &mut Bus)
        requires
            old(bus).wf(),
            old(bus)@.prg is Some,
        ensures
            final(bus).wf(),
            final(bus)@.prg == old(bus)@.prg,
            mach(final(self)@, final(bus)@) == modify_effect(mach(old(self)@, old(bus)@), Op::ASL, location),
            final(self).instruction == old(self).instruction,
    {
        proof {
            reveal(modify_effect);
        }
        let m = bus.read(location);
        let r: u8 = ((m as u16 * 2) % 256) as u8;
        self.set_flag(FLAG_C, m >= 128);
        self.set_zn(r);
        bus.write(location, r);
    }

    /// Rotates A left through Carry.
    fn rol_acc(&mut self)
        ensures
            final(self)@ == shift_acc(old(self)@, Op::ROL),
            final(self).instruction == old(self).instruction,
    {
        let m = self.reg_a;
        let c: u16 = if self.reg_p & FLAG_C != 0 { 1 } else { 0 };
        let r: u8 = ((m as u16 * 2 + c) % 256) as u8;
        self.set_flag(FLAG_C, m >= 128);
        self.reg_a = r;
        self.set_zn(r);
    }

    /// Rotates the byte at `location` left through Carry.
    fn rol(&mut self, location: u16, bus: &mut Bus)
        requires
            old(bus).wf(),
            old(bus)@.prg is Some,
        ensures
            final(bus).wf(),
            final(bus)@.prg == old(bus)@.prg,
            mach(final(self)@, final(bus)@) == modify_effect(mach(old(self)@, old(bus)@), Op::ROL, location),
            final(self).instruction == old(self).instruction,
    {
        proof {
            reveal(modify_effect);
        }
        let m = bus.read(location);
        let c: u16 = if self.reg_p & FLAG_C != 0 { 1 } else { 0 };
        let r: u8 = ((m as u16 * 2 + c) % 256) as u8;
        self.set_flag(FLAG_C, m >= 128);
        self.set_zn(r);
        bus.write(location, r);
    }

    /// Shifts A right; Carry takes bit 0.
    fn lsr_acc(&mut self)
        ensures
            final(self)@ == shift_acc(old(self)@, Op::LSR),
            final(self).instruction == old(self).instruction,
    {
        let m = self.reg_a;
        let r: u8 = m / 2;
        self.set_flag(FLAG_C, m % 2 == 1);
        self.reg_a = r;
        self.set_zn(r);
    }

    /// Shifts the byte at `location` right; Carry takes bit 0.
    fn lsr(&mut self, location: u16, bus: &mut Bus)
        requires
            old(bus).wf(),
            old(bus)@.prg is Some,
        ensures
            final(bus).wf(),
            final(bus)@.prg == old(bus)@.prg,
            mach(final(self)@, final(bus)@) == modify_effect(mach(old(self)@, old(bus)@), Op::LSR, location),
            final(self).instruction == old(self).instruction,
    {
        proof {
            reveal(modify_effect);
        }
        let m = bus.read(location);
        let r: u8 = m / 2;
        self.set_flag(FLAG_C, m % 2 == 1);
        self.set_zn(r);
        bus.write(location, r);
    }

    /// Rotates A right through Carry.
    fn ror_acc(&mut self)
        ensures
            final(self)@ == shift_acc(old(self)@, Op::ROR),
            final(self).instruction == old(self).instruction,
    {
        let m = self.reg_a;
        let c: u8 = if self.reg_p & FLAG_C != 0 { 128 } else { 0 };
        let r: u8 = m / 2 + c;
        self.set_flag(FLAG_C, m % 2 == 1);
        self.reg_a = r;
        self.set_zn(r);
    }

    /// Rotates the byte at `location` right through Carry.
    fn ror(&mut self, location: u16, bus: &mut Bus)
        requires
            old(bus).wf(),
            old(bus)@.prg is Some,
        ensures
            final(bus).wf(),
            final(bus)@.prg == old(bus)@.prg,
            mach(final(self)@, final(bus)@) == modify_effect(mach(old(self)@, old(bus)@), Op::ROR, location),
            final(self).instruction == old(self).instruction,
    {
        proof {
            reveal(modify_effect);
        }
        let m = bus.read(location);
        let c: u8 = if self.reg_p & FLAG_C != 0 { 128 } else { 0 };
        let r: u8 = m / 2 + c;
        self.set_flag(FLAG_C, m % 2 == 1);
        self.set_zn(r);
        bus.write(location, r);
    }

    /// Increments the byte at `location`, wrapping.
    fn inc(&mut self, location: u16, bus: &mut Bus)
        requires
            old(bus).wf(),
            old(bus)@.prg is Some,
        ensures
            final(bus).wf(),
            final(bus)@.prg == old(bus)@.prg,
            mach(final(self)@, final(bus)@) == modify_effect(mach(old(self)@, old(bus)@), Op::INC, location),
            final(self).instruction == old(self).instruction,
    {
        proof {
            reveal(modify_effect);
        }
        let m = bus.read(location);
        let r: u8 = m.wrapping_add(1);
        assert(r == wrap8(m + 1));
        self.set_zn(r);
        bus.write(location, r);
    }

    /// Decrements the byte at `location`, wrapping.
    fn dec(&mut self, location: u16, bus: &mut Bus)
        requires
            old(bus).wf(),
            old(bus)@.prg is Some,
        ensures
            final(bus).wf(),
            final(bus)@.prg == old(bus)@.prg,
            mach(final(self)@, final(bus)@) == modify_effect(mach(old(self)@, old(bus)@), Op::DEC, location),
            final(self).instruction == old(self).instruction,
    {
        proof {
            reveal(modify_effect);
        }
        let m = bus.read(location);
        let r: u8 = m.wrapping_sub(1);
        assert(r == wrap8(m - 1 + 256));
        self.set_zn(r);
        bus.write(location, r);
    }

    /// Pushes `val`: writes it at 0x0100 + SP, then decrements SP, wrapping
    /// from 0x00 to 0xFF.
    fn push(&mut self, val: u8, bus: &mut Bus)
        requires
            old(bus).wf(),
        ensures
            final(bus).wf(),
            final(bus)@.prg == old(bus)@.prg,
            mach(final(self)@, final(bus)@) == push(mach(old(self)@, old(bus)@), val),
            final(self).instruction == old(self).instruction,
    {
        proof {
            reveal(push);
        }
        bus.write(0x100u16 + self.reg_sp as u16, val);
        self.reg_sp = self.reg_sp.wrapping_sub(1);
        assert(self.reg_sp == wrap8(old(self)@.sp - 1 + 256));
    }

    /// Pulls a byte: increments SP, wrapping, then reads 0x0100 + SP.
    fn pull(&mut self, bus: &mut Bus) -> (r: u8)
        requires
            old(bus).wf(),
        ensures
            final(bus).wf(),
            final(bus)@.prg == old(bus)@.prg,
            (mach(final(self)@, final(bus)@), r) == pull(mach(old(self)@, old(bus)@)),
            final(self).instruction == old(self).instruction,
    {
        proof {
            reveal(pull);
        }
        self.reg_sp = self.reg_sp.wrapping_add(1);
        assert(self.reg_sp == wrap8(old(self)@.sp + 1));
        bus.read(0x100u16 + self.reg_sp as u16)
    }

    /// BPL, BMI, BVC, BVS, BCC, BCS, BNE, BEQ: when `condition` holds, add
    /// the signed offset to PC; otherwise skip the offset byte.
    fn execute_cond_branch(&mut self, condition: bool, bus: &mut Bus)
        requires
            old(bus).wf(),
            old(bus)@.prg is Some,
        ensures
            final(bus).wf(),
            final(bus)@.prg == old(bus)@.prg,
            mach(final(self)@, final(bus)@) == branch(mach(old(self)@, old(bus)@), condition),
            final(self).instruction == old(self).instruction,
    {
        if condition {
            let offset = self.fetch_byte(bus);
            let delta: i32 = if offset >= 128 { offset as i32 - 256 } else { offset as i32 };
            let target: i32 = self.reg_pc as i32 + delta + 0x10000;
            self.reg_pc = (target % 0x10000) as u16;
        } else {
            let next = self.reg_pc.wrapping_add(1);
            proof {
                lemma_wrapping_inc(self.reg_pc, next);
            }
            self.reg_pc = next;
        }
    }

    /// Delivers an interrupt. A maskable one (`Brk`) is dropped while the
    /// interrupt-disable flag is set. Otherwise PC (high byte first) and
    /// the status are pushed, with bit 4 set only for `Brk`, interrupts are
    /// disabled and PC is loaded from the kind's vector.
    fn execute_interrupt(&mut self, kind: Interrupt, bus: &mut Bus)
        requires
            old(bus).wf(),
            old(bus)@.prg is Some,
        ensures
            final(bus).wf(),
            final(bus)@.prg == old(bus)@.prg,
            mach(final(self)@, final(bus)@) == interrupt_effect(mach(old(self)@, old(bus)@), kind),
            final(self).instruction == old(self).instruction,
    {
        proof {
            reveal(interrupt_effect);
        }
        let maskable = match kind {
            Interrupt::Brk => true,
            Interrupt::Nmi => false,
        };
        if maskable && self.reg_p & FLAG_I != 0 {
            return;
        }
        let pc = self.reg_pc;
        let p = self.reg_p;
        self.push((pc / 256) as u8, bus);
        self.push((pc % 256) as u8, bus);
        let (status, vector) = match kind {
            Interrupt::Nmi => ((p | 0x20) & 0xEF, NMI_VECTOR),
            Interrupt::Brk => (p | 0x30, IRQ_VECTOR),
        };
        self.push(status, bus);
        self.set_flag(FLAG_I, true);
        self.reg_pc = bus.read_u16(vector);
    }

    /// Operations that read an operand.
    fn execute_read(&mut self, op: Op, mode: AM, bus: &mut Bus)
        requires
            old(bus).wf(),
            old(bus)@.prg is Some,
            is_read_op(op),
        ensures
            final(bus).wf(),
            final(bus)@.prg == old(bus)@.prg,
            mach(final(self)@, final(bus)@) == ({
                let r = resolve(mach(old(self)@, old(bus)@), mode);
                read_op_effect(r.0, op, r.1)
            }),
            final(self).instruction == old(self).instruction,
    {
        proof {
            reveal(read_op_effect);
        }
        let location = self.resolve(mode, bus);
        match op {
            Op::ORA => self.ora(location, bus),
            Op::AND => self.and(location, bus),
            Op::EOR => self.eor(location, bus),
            Op::ADC => self.adc(location, bus),
            Op::SBC => self.sbc(location, bus),
            Op::LDA => self.lda(location, bus),
            Op::LDX => self.ldx(location, bus),
            Op::LDY => self.ldy(location, bus),
            Op::BIT => self.bit(location, bus),
            Op::CMP => {
                let m = bus.read(location);
                self.cmp(self.reg_a, m);
            },
            Op::CPX => {
                let m = bus.read(location);
                self.cmp(self.reg_x, m);
            },
            _ => {
                let m = bus.read(location);
                self.cmp(self.reg_y, m);
            },
        }
    }

    /// Shifts, rotates, increments and decrements.
    fn execute_modify(&mut self, op: Op, mode: AM, bus: &mut Bus)
        requires
            old(bus).wf(),
            old(bus)@.prg is Some,
            is_modify_op(op),
        ensures
            final(bus).wf(),
            final(bus)@.prg == old(bus)@.prg,
            mach(final(self)@, final(bus)@) == (if mode == AM::IMP {
                with_cpu(mach(old(self)@, old(bus)@), shift_acc(old(self)@, op))
            } else {
                let r = resolve(mach(old(self)@, old(bus)@), mode);
                modify_effect(r.0, op, r.1)
            }),
            final(self).instruction == old(self).instruction,
    {
        if mode == AM::IMP {
            match op {
                Op::ASL => self.asl_acc(),
                Op::ROL => self.rol_acc(),
                Op::LSR => self.lsr_acc(),
                _ => self.ror_acc(),
            }
        } else {
            let location = self.resolve(mode, bus);
            match op {
                Op::ASL => self.asl(location, bus),
                Op::ROL => self.rol(location, bus),
                Op::LSR => self.lsr(location, bus),
                Op::ROR => self.ror(location, bus),
                Op::INC => self.inc(location, bus),
                _ => self.dec(location, bus),
            }
        }
    }

    /// Implied-mode operations on registers and flags.
    fn execute_register(&mut self, op: Op)
        requires
            is_register_op(op),
        ensures
            final(self)@ == register_op(old(self)@, op),
            final(self).instruction == old(self).instruction,
    {
        match op {
            Op::CLC => self.set_flag(FLAG_C, false),
            Op::SEC => self.set_flag(FLAG_C, true),
            // the decimal flag is kept but never changes arithmetic
            Op::CLD => self.set_flag(FLAG_D, false),
            Op::SED => self.set_flag(FLAG_D, true),
            Op::CLI => self.set_flag(FLAG_I, false),
            Op::SEI => self.set_flag(FLAG_I, true),
            Op::CLV => self.set_flag(FLAG_V, false),
            Op::DEX => {
                self.reg_x = self.reg_x.wrapping_sub(1);
                assert(self.reg_x == wrap8(old(self)@.x - 1 + 256));
                self.set_zn(self.reg_x);
            },
            Op::DEY => {
                self.reg_y = self.reg_y.wrapping_sub(1);
                assert(self.reg_y == wrap8(old(self)@.y - 1 + 256));
                self.set_zn(self.reg_y);
            },
            Op::INX => {
                self.reg_x = self.reg_x.wrapping_add(1);
                assert(self.reg_x == wrap8(old(self)@.x + 1));
                self.set_zn(self.reg_x);
            },
            Op::INY => {
                self.reg_y = self.reg_y.wrapping_add(1);
                assert(self.reg_y == wrap8(old(self)@.y + 1));
                self.set_zn(self.reg_y);
            },
            Op::TAX => {
                self.reg_x = self.reg_a;
                self.set_zn(self.reg_x);
            },
            Op::TXA => {
                self.reg_a = self.reg_x;
                self.set_zn(self.reg_a);
            },
            Op::TAY => {
                self.reg_y = self.reg_a;
                self.set_zn(self.reg_y);
            },
            Op::TYA => {
                self.reg_a = self.reg_y;
                self.set_zn(self.reg_a);
            },
            Op::TSX => {
                self.reg_x = self.reg_sp;
                self.set_zn(self.reg_x);
            },
            _ => self.reg_sp = self.reg_x,
        }
    }

    /// Jump to subroutine: pushes the address of the instruction's last
    /// byte, high byte first, and jumps to the absolute operand.
    fn jsr(&mut self, bus: &mut Bus)
        requires
            old(bus).wf(),
            old(bus)@.prg is Some,
        ensures
            final(bus).wf(),
            final(bus)@.prg == old(bus)@.prg,
            mach(final(self)@, final(bus)@) == jsr_effect(mach(old(self)@, old(bus)@)),
            final(self).instruction == old(self).instruction,
    {
        proof {
            reveal(jsr_effect);
        }
        let pc = self.reg_pc;
        let ret = pc.wrapping_add(1);
        proof {
            lemma_wrapping_inc(pc, ret);
        }
        self.push((ret / 256) as u8, bus);
        self.push((ret % 256) as u8, bus);
        self.reg_pc = bus.read_u16(pc);
    }

    /// Return from subroutine.
    fn rts(&mut self, bus: &mut Bus)
        requires
            old(bus).wf(),
            old(bus)@.prg is Some,
        ensures
            final(bus).wf(),
            final(bus)@.prg == old(bus)@.prg,
            mach(final(self)@, final(bus)@) == rts_effect(mach(old(self)@, old(bus)@)),
            final(self).instruction == old(self).instruction,
    {
        proof {
            reveal(rts_effect);
        }
        let lo = self.pull(bus) as u16;
        let hi = self.pull(bus) as u16;
        let target = hi * 256 + lo;
        let next = target.wrapping_add(1);
        proof {
            lemma_wrapping_inc(target, next);
        }
        self.reg_pc = next;
    }

    /// Return from interrupt: status, then PC.
    fn rti(&mut self, bus: &mut Bus)
        requires
            old(bus).wf(),
            old(bus)@.prg is Some,
        ensures
            final(bus).wf(),
            final(bus)@.prg == old(bus)@.prg,
            mach(final(self)@, final(bus)@) == rti_effect(mach(old(self)@, old(bus)@)),
            final(self).instruction == old(self).instruction,
    {
        proof {
            reveal(rti_effect);
        }
        let status = self.pull(bus);
        self.reg_p = (status & 0xCF) | 0x20;
        let lo = self.pull(bus) as u16;
        let hi = self.pull(bus) as u16;
        self.reg_pc = hi * 256 + lo;
    }

    /// Stores, jumps and NOP.
    fn execute_transfer(&mut self, op: Op, mode: AM, bus: &mut Bus)
        requires
            old(bus).wf(),
            old(bus)@.prg is Some,
        ensures
            final(bus).wf(),
            final(bus)@.prg == old(bus)@.prg,
            mach(final(self)@, final(bus)@) == transfer_effect(mach(old(self)@, old(bus)@), op, mode),
            final(self).instruction == old(self).instruction,
    {
        proof {
            reveal(transfer_effect);
        }
        let a = self.reg_a;
        let x = self.reg_x;
        let y = self.reg_y;
        let location = self.resolve(mode, bus);
        match op {
            Op::STA => bus.write(location, a),
            Op::STX => bus.write(location, x),
            Op::STY => bus.write(location, y),
            Op::JMP => self.reg_pc = location,
            _ => {},
        }
    }

    /// Subroutine and interrupt returns, stack operations and BRK.
    fn execute_stack(&mut self, op: Op, bus: &mut Bus)
        requires
            old(bus).wf(),
            old(bus)@.prg is Some,
        ensures
            final(bus).wf(),
            final(bus)@.prg == old(bus)@.prg,
            mach(final(self)@, final(bus)@) == stack_effect(mach(old(self)@, old(bus)@), op),
            final(self).instruction == old(self).instruction,
    {
        proof {
            reveal(stack_effect);
        }
        match op {
            Op::JSR => self.jsr(bus),
            Op::RTS => self.rts(bus),
            Op::RTI => self.rti(bus),
            Op::PHA => self.push(self.reg_a, bus),
            Op::PHP => self.push(self.reg_p | 0x30, bus),
            Op::PLA => {
                self.reg_a = self.pull(bus);
                self.set_zn(self.reg_a);
            },
            Op::PLP => {
                let status = self.pull(bus);
                self.reg_p = (status & 0xCF) | 0x20;
            },
            _ => self.execute_interrupt(Interrupt::Brk, bus),
        }
    }

    /// Executes a decoded instruction whose opcode byte has been fetched.
    /// Returns `Ok(true)` for a jam instruction, an error for an
    /// operation / addressing-mode pair with no executable case.
    #[verifier::spinoff_prover]
    fn execute(&mut self, instruction: I, opcode: u8, bus: &mut Bus) -> (r: Result<bool, EmuErr>)
        requires
            old(bus).wf(),
            old(bus)@.prg is Some,
        ensures
            final(bus).wf(),
            final(bus)@.prg == old(bus)@.prg,
            (mach(final(self)@, final(bus)@), r) == execute_outcome(
                mach(old(self)@, old(bus)@),
                instruction,
                opcode,
            ),
            final(self).instruction == old(self).instruction,
    {
        let op = instruction.opcode;
        let mode = instruction.addr_mode;
        if !has_case(op, mode) {
            return Err(EmuErr::UnrecognizedOpCode(opcode as u16));
        }
        match op {
            Op::KIL => {
                return Ok(true);
            },
            Op::ORA | Op::AND | Op::EOR | Op::ADC | Op::SBC | Op::CMP | Op::CPX | Op::CPY
            | Op::LDA | Op::LDX | Op::LDY | Op::BIT => self.execute_read(op, mode, bus),
            Op::ASL | Op::LSR | Op::ROL | Op::ROR | Op::INC | Op::DEC => self.execute_modify(
                op,
                mode,
                bus,
            ),
            Op::CLC | Op::SEC | Op::CLD | Op::SED | Op::CLI | Op::SEI | Op::CLV | Op::DEX
            | Op::DEY | Op::INX | Op::INY | Op::TAX | Op::TXA | Op::TAY | Op::TYA | Op::TSX
            | Op::TXS => self.execute_register(op),
            Op::BPL => self.execute_cond_branch(!self.flag(FLAG_N), bus),
            Op::BMI => self.execute_cond_branch(self.flag(FLAG_N), bus),
            Op::BVC => self.execute_cond_branch(!self.flag(FLAG_V), bus),
            Op::BVS => self.execute_cond_branch(self.flag(FLAG_V), bus),
            Op::BCC => self.execute_cond_branch(!self.flag(FLAG_C), bus),
            Op::BCS => self.execute_cond_branch(self.flag(FLAG_C), bus),
            Op::BNE => self.execute_cond_branch(!self.flag(FLAG_Z), bus),
            Op::BEQ => self.execute_cond_branch(self.flag(FLAG_Z), bus),
            Op::STA | Op::STX | Op::STY | Op::JMP | Op::NOP => self.execute_transfer(op, mode, bus),
            Op::JSR | Op::RTS | Op::RTI | Op::PHA | Op::PHP | Op::PLA | Op::PLP | Op::BRK => self.execute_stack(op, bus),
            _ => {},
        }
        Ok(false)
    }

    /// Runs one cycle. At an instruction boundary (no cycles owed) a
    /// pending interrupt is delivered and cleared, then one instruction is
    /// fetched, decoded and executed, and the counter is charged with its
    /// base cost; every call then counts one cycle off. Returns `Ok(true)`
    /// when a jam instruction halts the CPU, and an error for an opcode
    /// with no executable case.
    pub fn step(&mut self, bus: &mut Bus) -> (r: Result<bool, EmuErr>)
        requires
            old(bus).wf(),
            old(bus)@.prg is Some,
        ensures
            final(bus).wf(),
            final(bus)@.prg == old(bus)@.prg,
            (mach(final(self)@, final(bus)@), r) == step_outcome(mach(old(self)@, old(bus)@)),
    {
        if self.cycles == 0 {
            match self.interrupt {
                Some(kind) => {
                    self.interrupt = None;
                    self.execute_interrupt(kind, bus);
                },
                None => {},
            }
            let opcode = self.fetch_byte(bus);
            let instruction = decode(opcode);
            self.instruction = Some(instruction);
            self.cycles = instruction.cycles;
            match self.execute(instruction, opcode, bus) {
                Err(e) => {
                    return Err(e);
                },
                Ok(true) => {
                    return Ok(true);
                },
                Ok(false) => {},
            }
        }
        if self.cycles > 0 {
            self.cycles = self.cycles - 1;
        }
        Ok(false)
    }
}

/// Whether `op` has an executable case with addressing mode `mode`.
fn has_case(op: Op, mode: AM) -> (r: bool)
    ensures
        r == valid_pair(op, mode),
{
    match op {
        Op::ORA | Op::AND | Op::EOR | Op::ADC | Op::SBC | Op::CMP | Op::LDA => match mode {
            AM::IMM | AM::ZPG | AM::ZPX | AM::ABS | AM::ABX | AM::ABY | AM::INX | AM::INY => true,
            _ => false,
        },
        Op::STA => match mode {
            AM::ZPG | AM::ZPX | AM::ABS | AM::ABX | AM::ABY | AM::INX | AM::INY => true,
            _ => false,
        },
        Op::LDX => match mode {
            AM::IMM | AM::ZPG | AM::ZPY | AM::ABS | AM::ABY => true,
            _ => false,
        },
        Op::LDY => match mode {
            AM::IMM | AM::ZPG | AM::ZPX | AM::ABS | AM::ABX => true,
            _ => false,
        },
        Op::STX => match mode {
            AM::ZPG | AM::ZPY | AM::ABS => true,
            _ => false,
        },
        Op::STY => match mode {
            AM::ZPG | AM::ZPX | AM::ABS => true,
            _ => false,
        },
        Op::CPX | Op::CPY => match mode {
            AM::IMM | AM::ZPG | AM::ABS => true,
            _ => false,
        },
        Op::BIT => match mode {
            AM::ZPG | AM::ABS => true,
            _ => false,
        },
        Op::ASL | Op::LSR | Op::ROL | Op::ROR => match mode {
            AM::IMP | AM::ZPG | AM::ZPX | AM::ABS | AM::ABX => true,
            _ => false,
        },
        Op::INC | Op::DEC => match mode {
            AM::ZPG | AM::ZPX | AM::ABS | AM::ABX => true,
            _ => false,
        },
        Op::JMP => mode == AM::ABS || mode == AM::IND,
        Op::JSR => mode == AM::ABS,
        Op::BPL | Op::BMI | Op::BVC | Op::BVS | Op::BCC | Op::BCS | Op::BNE | Op::BEQ => mode
            == AM::REL,
        Op::NOP => match mode {
            AM::IMP | AM::IMM | AM::ZPG | AM::ZPX | AM::ABS | AM::ABX => true,
            _ => false,
        },
        Op::KIL => true,
        Op::BRK | Op::RTI | Op::RTS | Op::CLC | Op::SEC | Op::CLD | Op::SED | Op::CLI | Op::SEI
        | Op::CLV | Op::DEX | Op::DEY | Op::INX | Op::INY | Op::TAX | Op::TXA | Op::TAY
        | Op::TYA | Op::TSX | Op::TXS | Op::PHA | Op::PLA | Op::PHP | Op::PLP => mode == AM::IMP,
        _ => false,
    }
}

} // verus!
