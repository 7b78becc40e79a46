//! Reading reference execution logs: each line holds the registers before
//! an instruction as hexadecimal fields at fixed columns.
use vstd::prelude::*;
use crate::semantics::CpuState;

verus! {

/// Columns of the fields in a log line: PC at [0, 4), A at [50, 52),
/// X at [55, 57), Y at [60, 62), P at [65, 67) and SP at [71, 73).
pub const PC_COL: usize = 0;
pub const A_COL: usize = 50;
pub const X_COL: usize = 55;
pub const Y_COL: usize = 60;
pub const P_COL: usize = 65;
pub const SP_COL: usize = 71;

/// Shortest line that holds every field.
pub const MIN_LINE_LEN: usize = 73;

/// The registers that one log line records.
#[derive(Debug, Clone, Copy, PartialEq, Eq, Structural)]
pub struct TraceEntry {
    pub pc: u16,
    pub a: u8,
    pub x: u8,
    pub y: u8,
    pub p: u8,
    pub sp: u8,
}

/// A register that can differ between the log and the CPU.
#[derive(Debug, Clone, Copy, PartialEq, Eq, Structural)]
pub enum Register {
    Pc,
    A,
    X,
    Y,
    Status,
    Sp,
}

/// The value of an ASCII hexadecimal digit, either case.
pub open spec fn hex_value(c: u8) -> Option<int> {
    if 0x30 <= c <= 0x39 {
        Some(c - 0x30)
    } else if 0x41 <= c <= 0x46 {
        Some(c - 0x41 + 10)
    } else if 0x61 <= c <= 0x66 {
        Some(c - 0x61 + 10)
    } else {
        None
    }
}

/// The number written by the `len` hexadecimal digits at `start`, if they
/// are all digits.
pub open spec fn hex_field(line: Seq<u8>, start: int, len: nat) -> Option<int>
    decreases len,
{
    if len == 0 {
        Some(0)
    } else {
        match (hex_field(line, start, (len - 1) as nat), hex_value(line[start + len - 1])) {
            (Some(acc), Some(d)) => Some(acc * 16 + d),
            _ => None,
        }
    }
}

/// The entry that a log line records, if the line is long enough and every
/// field is hexadecimal.
pub open spec fn trace_entry(line: Seq<u8>) -> Option<TraceEntry> {
    if line.len() < MIN_LINE_LEN {
        None
    } else {
        match (
            hex_field(line, PC_COL as int, 4),
            hex_field(line, A_COL as int, 2),
            hex_field(line, X_COL as int, 2),
            hex_field(line, Y_COL as int, 2),
            hex_field(line, P_COL as int, 2),
            hex_field(line, SP_COL as int, 2),
        ) {
            (Some(pc), Some(a), Some(x), Some(y), Some(p), Some(sp)) => Some(
                TraceEntry { pc: pc as u16, a: a as u8, x: x as u8, y: y as u8, p: p as u8, sp: sp as u8 },
            ),
            _ => None,
        }
    }
}

/// The status bits that a log compares: the six flags, not bits 4 and 5.
pub open spec fn compared_flags(p: u8) -> u8 {
    p & 0xCF
}

/// The first register, in the order PC, A, X, Y, status, SP, where the CPU
/// differs from the log entry.
pub open spec fn divergence(expected: TraceEntry, actual: CpuState) -> Option<Register> {
    if expected.pc != actual.pc {
        Some(Register::Pc)
    } else if expected.a != actual.a {
        Some(Register::A)
    } else if expected.x != actual.x {
        Some(Register::X)
    } else if expected.y != actual.y {
        Some(Register::Y)
    } else if compared_flags(expected.p) != compared_flags(actual.p) {
        Some(Register::Status)
    } else if expected.sp != actual.sp {
        Some(Register::Sp)
    } else {
        None
    }
}

proof fn lemma_hex_field_bound(line: Seq<u8>, start: int, len: nat)
    ensures
        hex_field(line, start, len) matches Some(v) ==> 0 <= v < vstd::arithmetic::power2::pow2(
            4 * len,
        ),
    decreases len,
{
    vstd::arithmetic::power2::lemma2_to64();
    if len > 0 {
        lemma_hex_field_bound(line, start, (len - 1) as nat);
        vstd::arithmetic::power2::lemma_pow2_adds(4 * (len - 1) as nat, 4);
    }
}

fn hex_digit_value(c: u8) -> (r: Option<u8>)
    ensures
        r matches Some(d) ==> hex_value(c) == Some(d as int),
        r is None ==> hex_value(c) is None,
{
    if 0x30 <= c && c <= 0x39 {
        Some(c - 0x30)
    } else if 0x41 <= c && c <= 0x46 {
        Some(c - 0x41 + 10)
    } else if 0x61 <= c && c <= 0x66 {
        Some(c - 0x61 + 10)
    } else {
        None
    }
}

/// Reads `len` (at most four) hexadecimal digits at `start`.
fn parse_hex(line: &[u8], start: usize, len: usize) -> (r: Option<u16>)
    requires
        start + len <= line@.len(),
        len <= 4,
    ensures
        r matches Some(v) ==> hex_field(line@, start as int, len as nat) == Some(v as int),
        r is None ==> hex_field(line@, start as int, len as nat) is None,
{
    let mut acc: u16 = 0;
    let mut i: usize = 0;
    proof {
        vstd::arithmetic::power2::lemma2_to64();
    }
    while i < len
        invariant
            start + len <= line@.len(),
            len <= 4,
            i <= len,
            hex_field(line@, start as int, i as nat) == Some(acc as int),
            (acc as int) < vstd::arithmetic::power2::pow2(4 * i as nat),
        decreases len - i,
    {
        proof {
            vstd::arithmetic::power2::lemma2_to64();
        }
        match hex_digit_value(line[start + i]) {
            Some(d) => {
                proof {
                    vstd::arithmetic::power2::lemma_pow2_adds(4 * i as nat, 4);
                    assert(acc as int * 16 + d < vstd::arithmetic::power2::pow2(4 * (i + 1) as nat))
                        by (nonlinear_arith)
                        requires
                            (acc as int) < vstd::arithmetic::power2::pow2(4 * i as nat),
                            d < 16,
                            vstd::arithmetic::power2::pow2(4 * (i + 1) as nat)
                                == vstd::arithmetic::power2::pow2(4 * i as nat) * 16,
                    ;
                }
                acc = acc * 16 + d as u16;
                i += 1;
            },
            None => {
                proof {
                    let k = (i + 1) as nat;
                    assert(hex_field(line@, start as int, k) is None);
                    lemma_hex_field_none(line@, start as int, k, len as nat);
                }
                return None;
            },
        }
    }
    Some(acc)
}

proof fn lemma_hex_field_none(line: Seq<u8>, start: int, k: nat, len: nat)
    requires
        k <= len,
        hex_field(line, start, k) is None,
    ensures
        hex_field(line, start, len) is None,
    decreases len - k,
{
    if k < len {
        lemma_hex_field_none(line, start, (k + 1) as nat, len);
    }
}

/// Reads the registers that a log line records: `None` when the line is
/// shorter than the last field or a field is not hexadecimal.
pub fn parse_trace_line(line: &[u8]) -> (r: Option<TraceEntry>)
    ensures
        r == trace_entry(line@),
{
    if line.len() < MIN_LINE_LEN {
        return None;
    }
    proof {
        lemma_hex_field_bound(line@, PC_COL as int, 4);
        lemma_hex_field_bound(line@, A_COL as int, 2);
        lemma_hex_field_bound(line@, X_COL as int, 2);
        lemma_hex_field_bound(line@, Y_COL as int, 2);
        lemma_hex_field_bound(line@, P_COL as int, 2);
        lemma_hex_field_bound(line@, SP_COL as int, 2);
        vstd::arithmetic::power2::lemma2_to64();
    }
    let pc = parse_hex(line, PC_COL, 4);
    let a = parse_hex(line, A_COL, 2);
    let x = parse_hex(line, X_COL, 2);
    let y = parse_hex(line, Y_COL, 2);
    let p = parse_hex(line, P_COL, 2);
    let sp = parse_hex(line, SP_COL, 2);
    match (pc, a, x, y, p, sp) {
        (Some(pc), Some(a), Some(x), Some(y), Some(p), Some(sp)) => Some(
            TraceEntry { pc, a: a as u8, x: x as u8, y: y as u8, p: p as u8, sp: sp as u8 },
        ),
        _ => None,
    }
}

/// The first register where `actual` differs from the log entry, or `None`
/// when the CPU matches it.
pub fn first_divergence(expected: &TraceEntry, actual: &CpuState) -> (r: Option<Register>)
    ensures
        r == divergence(*expected, *actual),
{
    if expected.pc != actual.pc {
        Some(Register::Pc)
    } else if expected.a != actual.a {
        Some(Register::A)
    } else if expected.x != actual.x {
        Some(Register::X)
    } else if expected.y != actual.y {
        Some(Register::Y)
    } else if expected.p & 0xCF != actual.p & 0xCF {
        Some(Register::Status)
    } else if expected.sp != actual.sp {
        Some(Register::Sp)
    } else {
        None
    }
}

} // verus!
