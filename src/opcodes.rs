use vstd::prelude::*;

verus! {

/// The operations of the 6502, documented and undocumented.
#[derive(Clone, Copy, Debug, PartialEq, Eq, Structural)]
pub enum Op {
    ADC,
    AND,
    ASL,
    BCC,
    BCS,
    BEQ,
    BIT,
    BMI,
    BNE,
    BPL,
    BRK,
    BVC,
    BVS,
    CLC,
    CLD,
    CLI,
    CLV,
    CMP,
    CPX,
    CPY,
    DEC,
    DEX,
    DEY,
    EOR,
    INC,
    INX,
    INY,
    JMP,
    JSR,
    LDA,
    LDX,
    LDY,
    LSR,
    NOP,
    ORA,
    PHA,
    PHP,
    PLA,
    PLP,
    ROL,
    ROR,
    RTI,
    RTS,
    SBC,
    SEC,
    SED,
    SEI,
    STA,
    STX,
    STY,
    TAX,
    TAY,
    TSX,
    TXA,
    TXS,
    TYA,
    /// An illegal instruction with no defined behaviour.
    XXX,
    AHX,
    ALR,
    ANC,
    ARR,
    AXS,
    DCP,
    ISC,
    /// Jams the processor: the interpreter stops.
    KIL,
    LAS,
    LAX,
    RLA,
    RRA,
    SAX,
    SHX,
    SHY,
    SLO,
    SRE,
    TAS,
    XAA,
}

/// Addressing modes.
///
/// - `ABS`: a 16-bit little-endian address follows the opcode.
/// - `ABX` / `ABY`: absolute, plus X or Y as a 16-bit addition.
/// - `IMM`: the operand is the byte after the opcode.
/// - `IMP`: no operand, or the accumulator.
/// - `IND`: a 16-bit pointer to the target (JMP only).
/// - `INX`: `(zp,X)`, the pointer sits at `zp + X` within the zero page.
/// - `INY`: `(zp),Y`, the pointer sits at `zp`, Y is added to its target.
/// - `REL`: a signed 8-bit branch offset.
/// - `ZPG`: an 8-bit address on the zero page.
/// - `ZPX` / `ZPY`: zero page plus X or Y, wrapping within the zero page.
#[derive(Debug, Clone, Copy, PartialEq, Eq, Structural)]
pub enum AM {
    ABS,
    ABX,
    ABY,
    IMM,
    IMP,
    IND,
    INX,
    INY,
    REL,
    ZPG,
    ZPX,
    ZPY,
}

/// An instruction descriptor: operation, base cycle cost and addressing mode.
#[derive(Debug, Clone, Copy, PartialEq, Eq, Structural)]
pub struct I {
    pub opcode: Op,
    pub cycles: u8,
    pub addr_mode: AM,
}

impl I {
    pub fn new(opcode: Op, cycles: u8, addr_mode: AM) -> (r: I)
        ensures
            r == (I { opcode, cycles, addr_mode }),
    {
        I { opcode, cycles, addr_mode }
    }
}

/// The descriptor of every opcode byte: the 6502 opcode matrix, row by high
/// nibble and column by low nibble.
pub open spec fn descriptor(b: u8) -> I {
    match b {
        0x00u8 => I { opcode: Op::BRK, cycles: 7, addr_mode: AM::IMP },
        0x01u8 => I { opcode: Op::ORA, cycles: 6, addr_mode: AM::INX },
        0x02u8 => I { opcode: Op::KIL, cycles: 0, addr_mode: AM::IMP },
        0x03u8 => I { opcode: Op::SLO, cycles: 8, addr_mode: AM::INX },
        0x04u8 => I { opcode: Op::NOP, cycles: 3, addr_mode: AM::ZPG },
        0x05u8 => I { opcode: Op::ORA, cycles: 3, addr_mode: AM::ZPG },
        0x06u8 => I { opcode: Op::ASL, cycles: 5, addr_mode: AM::ZPG },
        0x07u8 => I { opcode: Op::SLO, cycles: 5, addr_mode: AM::ZPG },
        0x08u8 => I { opcode: Op::PHP, cycles: 3, addr_mode: AM::IMP },
        0x09u8 => I { opcode: Op::ORA, cycles: 2, addr_mode: AM::IMM },
        0x0Au8 => I { opcode: Op::ASL, cycles: 2, addr_mode: AM::IMP },
        0x0Bu8 => I { opcode: Op::ANC, cycles: 2, addr_mode: AM::IMM },
        0x0Cu8 => I { opcode: Op::NOP, cycles: 4, addr_mode: AM::ABS },
        0x0Du8 => I { opcode: Op::ORA, cycles: 4, addr_mode: AM::ABS },
        0x0Eu8 => I { opcode: Op::ASL, cycles: 6, addr_mode: AM::ABS },
        0x0Fu8 => I { opcode: Op::SLO, cycles: 6, addr_mode: AM::ABS },
        0x10u8 => I { opcode: Op::BPL, cycles: 2, addr_mode: AM::REL },
        0x11u8 => I { opcode: Op::ORA, cycles: 5, addr_mode: AM::INY },
        0x12u8 => I { opcode: Op::KIL, cycles: 0, addr_mode: AM::IMP },
        0x13u8 => I { opcode: Op::SLO, cycles: 8, addr_mode: AM::INY },
        0x14u8 => I { opcode: Op::NOP, cycles: 4, addr_mode: AM::ZPX },
        0x15u8 => I { opcode: Op::ORA, cycles: 4, addr_mode: AM::ZPX },
        0x16u8 => I { opcode: Op::ASL, cycles: 6, addr_mode: AM::ZPX },
        0x17u8 => I { opcode: Op::SLO, cycles: 6, addr_mode: AM::ZPX },
        0x18u8 => I { opcode: Op::CLC, cycles: 2, addr_mode: AM::IMP },
        0x19u8 => I { opcode: Op::ORA, cycles: 4, addr_mode: AM::ABY },
        0x1Au8 => I { opcode: Op::NOP, cycles: 2, addr_mode: AM::IMP },
        0x1Bu8 => I { opcode: Op::SLO, cycles: 7, addr_mode: AM::ABY },
        0x1Cu8 => I { opcode: Op::NOP, cycles: 4, addr_mode: AM::ABX },
        0x1Du8 => I { opcode: Op::ORA, cycles: 4, addr_mode: AM::ABX },
        0x1Eu8 => I { opcode: Op::ASL, cycles: 7, addr_mode: AM::ABX },
        0x1Fu8 => I { opcode: Op::SLO, cycles: 7, addr_mode: AM::ABX },
        0x20u8 => I { opcode: Op::JSR, cycles: 6, addr_mode: AM::ABS },
        0x21u8 => I { opcode: Op::AND, cycles: 6, addr_mode: AM::INX },
        0x22u8 => I { opcode: Op::KIL, cycles: 0, addr_mode: AM::IMP },
        0x23u8 => I { opcode: Op::RLA, cycles: 8, addr_mode: AM::INX },
        0x24u8 => I { opcode: Op::BIT, cycles: 3, addr_mode: AM::ZPG },
        0x25u8 => I { opcode: Op::AND, cycles: 3, addr_mode: AM::ZPG },
        0x26u8 => I { opcode: Op::ROL, cycles: 5, addr_mode: AM::ZPG },
        0x27u8 => I { opcode: Op::RLA, cycles: 5, addr_mode: AM::ZPG },
        0x28u8 => I { opcode: Op::PLP, cycles: 4, addr_mode: AM::IMP },
        0x29u8 => I { opcode: Op::AND, cycles: 2, addr_mode: AM::IMM },
        0x2Au8 => I { opcode: Op::ROL, cycles: 2, addr_mode: AM::IMP },
        0x2Bu8 => I { opcode: Op::ANC, cycles: 2, addr_mode: AM::IMM },
        0x2Cu8 => I { opcode: Op::BIT, cycles: 4, addr_mode: AM::ABS },
        0x2Du8 => I { opcode: Op::AND, cycles: 4, addr_mode: AM::ABS },
        0x2Eu8 => I { opcode: Op::ROL, cycles: 6, addr_mode: AM::ABS },
        0x2Fu8 => I { opcode: Op::RLA, cycles: 6, addr_mode: AM::ABS },
        0x30u8 => I { opcode: Op::BMI, cycles: 2, addr_mode: AM::REL },
        0x31u8 => I { opcode: Op::AND, cycles: 5, addr_mode: AM::INY },
        0x32u8 => I { opcode: Op::KIL, cycles: 0, addr_mode: AM::IMP },
        0x33u8 => I { opcode: Op::RLA, cycles: 8, addr_mode: AM::INY },
        0x34u8 => I { opcode: Op::NOP, cycles: 4, addr_mode: AM::ZPX },
        0x35u8 => I { opcode: Op::AND, cycles: 4, addr_mode: AM::ZPX },
        0x36u8 => I { opcode: Op::ROL, cycles: 6, addr_mode: AM::ZPX },
        0x37u8 => I { opcode: Op::RLA, cycles: 6, addr_mode: AM::ZPX },
        0x38u8 => I { opcode: Op::SEC, cycles: 2, addr_mode: AM::IMP },
        0x39u8 => I { opcode: Op::AND, cycles: 4, addr_mode: AM::ABY },
        0x3Au8 => I { opcode: Op::NOP, cycles: 2, addr_mode: AM::IMP },
        0x3Bu8 => I { opcode: Op::RLA, cycles: 7, addr_mode: AM::ABY },
        0x3Cu8 => I { opcode: Op::NOP, cycles: 4, addr_mode: AM::ABX },
        0x3Du8 => I { opcode: Op::AND, cycles: 4, addr_mode: AM::ABX },
        0x3Eu8 => I { opcode: Op::ROL, cycles: 7, addr_mode: AM::ABX },
        0x3Fu8 => I { opcode: Op::RLA, cycles: 7, addr_mode: AM::ABX },
        0x40u8 => I { opcode: Op::RTI, cycles: 6, addr_mode: AM::IMP },
        0x41u8 => I { opcode: Op::EOR, cycles: 6, addr_mode: AM::INX },
        0x42u8 => I { opcode: Op::KIL, cycles: 0, addr_mode: AM::IMP },
        0x43u8 => I { opcode: Op::SRE, cycles: 8, addr_mode: AM::INX },
        0x44u8 => I { opcode: Op::NOP, cycles: 3, addr_mode: AM::ZPG },
        0x45u8 => I { opcode: Op::EOR, cycles: 3, addr_mode: AM::ZPG },
        0x46u8 => I { opcode: Op::LSR, cycles: 5, addr_mode: AM::ZPG },
        0x47u8 => I { opcode: Op::SRE, cycles: 5, addr_mode: AM::ZPG },
        0x48u8 => I { opcode: Op::PHA, cycles: 3, addr_mode: AM::IMP },
        0x49u8 => I { opcode: Op::EOR, cycles: 2, addr_mode: AM::IMM },
        0x4Au8 => I { opcode: Op::LSR, cycles: 2, addr_mode: AM::IMP },
        0x4Bu8 => I { opcode: Op::ALR, cycles: 2, addr_mode: AM::IMM },
        0x4Cu8 => I { opcode: Op::JMP, cycles: 3, addr_mode: AM::ABS },
        0x4Du8 => I { opcode: Op::EOR, cycles: 4, addr_mode: AM::ABS },
        0x4Eu8 => I { opcode: Op::LSR, cycles: 6, addr_mode: AM::ABS },
        0x4Fu8 => I { opcode: Op::SRE, cycles: 6, addr_mode: AM::ABS },
        0x50u8 => I { opcode: Op::BVC, cycles: 2, addr_mode: AM::REL },
        0x51u8 => I { opcode: Op::EOR, cycles: 5, addr_mode: AM::INY },
        0x52u8 => I { opcode: Op::KIL, cycles: 0, addr_mode: AM::IMP },
        0x53u8 => I { opcode: Op::SRE, cycles: 8, addr_mode: AM::INY },
        0x54u8 => I { opcode: Op::NOP, cycles: 4, addr_mode: AM::ZPX },
        0x55u8 => I { opcode: Op::EOR, cycles: 4, addr_mode: AM::ZPX },
        0x56u8 => I { opcode: Op::LSR, cycles: 6, addr_mode: AM::ZPX },
        0x57u8 => I { opcode: Op::SRE, cycles: 6, addr_mode: AM::ZPX },
        0x58u8 => I { opcode: Op::CLI, cycles: 2, addr_mode: AM::IMP },
        0x59u8 => I { opcode: Op::EOR, cycles: 4, addr_mode: AM::ABY },
        0x5Au8 => I { opcode: Op::NOP, cycles: 2, addr_mode: AM::IMP },
        0x5Bu8 => I { opcode: Op::SRE, cycles: 7, addr_mode: AM::ABY },
        0x5Cu8 => I { opcode: Op::NOP, cycles: 4, addr_mode: AM::ABX },
        0x5Du8 => I { opcode: Op::EOR, cycles: 4, addr_mode: AM::ABX },
        0x5Eu8 => I { opcode: Op::LSR, cycles: 7, addr_mode: AM::ABX },
        0x5Fu8 => I { opcode: Op::SRE, cycles: 7, addr_mode: AM::ABX },
        0x60u8 => I { opcode: Op::RTS, cycles: 6, addr_mode: AM::IMP },
        0x61u8 => I { opcode: Op::ADC, cycles: 6, addr_mode: AM::INX },
        0x62u8 => I { opcode: Op::KIL, cycles: 0, addr_mode: AM::IMP },
        0x63u8 => I { opcode: Op::RRA, cycles: 8, addr_mode: AM::INX },
        0x64u8 => I { opcode: Op::NOP, cycles: 3, addr_mode: AM::ZPG },
        0x65u8 => I { opcode: Op::ADC, cycles: 3, addr_mode: AM::ZPG },
        0x66u8 => I { opcode: Op::ROR, cycles: 5, addr_mode: AM::ZPG },
        0x67u8 => I { opcode: Op::RRA, cycles: 5, addr_mode: AM::ZPG },
        0x68u8 => I { opcode: Op::PLA, cycles: 4, addr_mode: AM::IMP },
        0x69u8 => I { opcode: Op::ADC, cycles: 2, addr_mode: AM::IMM },
        0x6Au8 => I { opcode: Op::ROR, cycles: 2, addr_mode: AM::IMP },
        0x6Bu8 => I { opcode: Op::ARR, cycles: 2, addr_mode: AM::IMM },
        0x6Cu8 => I { opcode: Op::JMP, cycles: 5, addr_mode: AM::IND },
        0x6Du8 => I { opcode: Op::ADC, cycles: 4, addr_mode: AM::ABS },
        0x6Eu8 => I { opcode: Op::ROR, cycles: 6, addr_mode: AM::ABS },
        0x6Fu8 => I { opcode: Op::RRA, cycles: 6, addr_mode: AM::ABS },
        0x70u8 => I { opcode: Op::BVS, cycles: 2, addr_mode: AM::REL },
        0x71u8 => I { opcode: Op::ADC, cycles: 5, addr_mode: AM::INY },
        0x72u8 => I { opcode: Op::KIL, cycles: 0, addr_mode: AM::IMP },
        0x73u8 => I { opcode: Op::RRA, cycles: 8, addr_mode: AM::INY },
        0x74u8 => I { opcode: Op::NOP, cycles: 4, addr_mode: AM::ZPX },
        0x75u8 => I { opcode: Op::ADC, cycles: 4, addr_mode: AM::ZPX },
        0x76u8 => I { opcode: Op::ROR, cycles: 6, addr_mode: AM::ZPX },
        0x77u8 => I { opcode: Op::RRA, cycles: 6, addr_mode: AM::ZPX },
        0x78u8 => I { opcode: Op::SEI, cycles: 2, addr_mode: AM::IMP },
        0x79u8 => I { opcode: Op::ADC, cycles: 4, addr_mode: AM::ABY },
        0x7Au8 => I { opcode: Op::NOP, cycles: 2, addr_mode: AM::IMP },
        0x7Bu8 => I { opcode: Op::RRA, cycles: 7, addr_mode: AM::ABY },
        0x7Cu8 => I { opcode: Op::NOP, cycles: 4, addr_mode: AM::ABX },
        0x7Du8 => I { opcode: Op::ADC, cycles: 4, addr_mode: AM::ABX },
        0x7Eu8 => I { opcode: Op::ROR, cycles: 7, addr_mode: AM::ABX },
        0x7Fu8 => I { opcode: Op::RRA, cycles: 7, addr_mode: AM::ABX },
        0x80u8 => I { opcode: Op::NOP, cycles: 2, addr_mode: AM::IMM },
        0x81u8 => I { opcode: Op::STA, cycles: 6, addr_mode: AM::INX },
        0x82u8 => I { opcode: Op::NOP, cycles: 2, addr_mode: AM::IMM },
        0x83u8 => I { opcode: Op::SAX, cycles: 6, addr_mode: AM::INX },
        0x84u8 => I { opcode: Op::STY, cycles: 3, addr_mode: AM::ZPG },
        0x85u8 => I { opcode: Op::STA, cycles: 3, addr_mode: AM::ZPG },
        0x86u8 => I { opcode: Op::STX, cycles: 3, addr_mode: AM::ZPG },
        0x87u8 => I { opcode: Op::SAX, cycles: 3, addr_mode: AM::ZPG },
        0x88u8 => I { opcode: Op::DEY, cycles: 2, addr_mode: AM::IMP },
        0x89u8 => I { opcode: Op::NOP, cycles: 2, addr_mode: AM::IMM },
        0x8Au8 => I { opcode: Op::TXA, cycles: 2, addr_mode: AM::IMP },
        0x8Bu8 => I { opcode: Op::XAA, cycles: 2, addr_mode: AM::IMM },
        0x8Cu8 => I { opcode: Op::STY, cycles: 4, addr_mode: AM::ABS },
        0x8Du8 => I { opcode: Op::STA, cycles: 4, addr_mode: AM::ABS },
        0x8Eu8 => I { opcode: Op::STX, cycles: 4, addr_mode: AM::ABS },
        0x8Fu8 => I { opcode: Op::SAX, cycles: 4, addr_mode: AM::ABS },
        0x90u8 => I { opcode: Op::BCC, cycles: 2, addr_mode: AM::REL },
        0x91u8 => I { opcode: Op::STA, cycles: 6, addr_mode: AM::INY },
        0x92u8 => I { opcode: Op::KIL, cycles: 0, addr_mode: AM::IMP },
        0x93u8 => I { opcode: Op::AHX, cycles: 6, addr_mode: AM::INY },
        0x94u8 => I { opcode: Op::STY, cycles: 4, addr_mode: AM::ZPX },
        0x95u8 => I { opcode: Op::STA, cycles: 4, addr_mode: AM::ZPX },
        0x96u8 => I { opcode: Op::STX, cycles: 4, addr_mode: AM::ZPY },
        0x97u8 => I { opcode: Op::SAX, cycles: 4, addr_mode: AM::ZPY },
        0x98u8 => I { opcode: Op::TYA, cycles: 2, addr_mode: AM::IMP },
        0x99u8 => I { opcode: Op::STA, cycles: 5, addr_mode: AM::ABY },
        0x9Au8 => I { opcode: Op::TXS, cycles: 2, addr_mode: AM::IMP },
        0x9Bu8 => I { opcode: Op::TAS, cycles: 5, addr_mode: AM::ABY },
        0x9Cu8 => I { opcode: Op::SHY, cycles: 5, addr_mode: AM::ABX },
        0x9Du8 => I { opcode: Op::STA, cycles: 5, addr_mode: AM::ABX },
        0x9Eu8 => I { opcode: Op::SHX, cycles: 5, addr_mode: AM::ABY },
        0x9Fu8 => I { opcode: Op::AHX, cycles: 5, addr_mode: AM::ABY },
        0xA0u8 => I { opcode: Op::LDY, cycles: 2, addr_mode: AM::IMM },
        0xA1u8 => I { opcode: Op::LDA, cycles: 6, addr_mode: AM::INX },
        0xA2u8 => I { opcode: Op::LDX, cycles: 2, addr_mode: AM::IMM },
        0xA3u8 => I { opcode: Op::LAX, cycles: 6, addr_mode: AM::INX },
        0xA4u8 => I { opcode: Op::LDY, cycles: 3, addr_mode: AM::ZPG },
        0xA5u8 => I { opcode: Op::LDA, cycles: 3, addr_mode: AM::ZPG },
        0xA6u8 => I { opcode: Op::LDX, cycles: 3, addr_mode: AM::ZPG },
        0xA7u8 => I { opcode: Op::LAX, cycles: 3, addr_mode: AM::ZPG },
        0xA8u8 => I { opcode: Op::TAY, cycles: 2, addr_mode: AM::IMP },
        0xA9u8 => I { opcode: Op::LDA, cycles: 2, addr_mode: AM::IMM },
        0xAAu8 => I { opcode: Op::TAX, cycles: 2, addr_mode: AM::IMP },
        0xABu8 => I { opcode: Op::LAX, cycles: 2, addr_mode: AM::IMM },
        0xACu8 => I { opcode: Op::LDY, cycles: 4, addr_mode: AM::ABS },
        0xADu8 => I { opcode: Op::LDA, cycles: 4, addr_mode: AM::ABS },
        0xAEu8 => I { opcode: Op::LDX, cycles: 4, addr_mode: AM::ABS },
        0xAFu8 => I { opcode: Op::LAX, cycles: 4, addr_mode: AM::ABS },
        0xB0u8 => I { opcode: Op::BCS, cycles: 2, addr_mode: AM::REL },
        0xB1u8 => I { opcode: Op::LDA, cycles: 5, addr_mode: AM::INY },
        0xB2u8 => I { opcode: Op::KIL, cycles: 0, addr_mode: AM::IMP },
        0xB3u8 => I { opcode: Op::LAX, cycles: 5, addr_mode: AM::INY },
        0xB4u8 => I { opcode: Op::LDY, cycles: 4, addr_mode: AM::ZPX },
        0xB5u8 => I { opcode: Op::LDA, cycles: 4, addr_mode: AM::ZPX },
        0xB6u8 => I { opcode: Op::LDX, cycles: 4, addr_mode: AM::ZPY },
        0xB7u8 => I { opcode: Op::LAX, cycles: 4, addr_mode: AM::ZPY },
        0xB8u8 => I { opcode: Op::CLV, cycles: 2, addr_mode: AM::IMP },
        0xB9u8 => I { opcode: Op::LDA, cycles: 4, addr_mode: AM::ABY },
        0xBAu8 => I { opcode: Op::TSX, cycles: 2, addr_mode: AM::IMP },
        0xBBu8 => I { opcode: Op::LAS, cycles: 4, addr_mode: AM::ABY },
        0xBCu8 => I { opcode: Op::LDY, cycles: 4, addr_mode: AM::ABX },
        0xBDu8 => I { opcode: Op::LDA, cycles: 4, addr_mode: AM::ABX },
        0xBEu8 => I { opcode: Op::LDX, cycles: 4, addr_mode: AM::ABY },
        0xBFu8 => I { opcode: Op::LAX, cycles: 4, addr_mode: AM::ABY },
        0xC0u8 => I { opcode: Op::CPY, cycles: 2, addr_mode: AM::IMM },
        0xC1u8 => I { opcode: Op::CMP, cycles: 6, addr_mode: AM::INX },
        0xC2u8 => I { opcode: Op::NOP, cycles: 2, addr_mode: AM::IMM },
        0xC3u8 => I { opcode: Op::DCP, cycles: 8, addr_mode: AM::INX },
        0xC4u8 => I { opcode: Op::CPY, cycles: 3, addr_mode: AM::ZPG },
        0xC5u8 => I { opcode: Op::CMP, cycles: 3, addr_mode: AM::ZPG },
        0xC6u8 => I { opcode: Op::DEC, cycles: 5, addr_mode: AM::ZPG },
        0xC7u8 => I { opcode: Op::DCP, cycles: 5, addr_mode: AM::ZPG },
        0xC8u8 => I { opcode: Op::INY, cycles: 2, addr_mode: AM::IMP },
        0xC9u8 => I { opcode: Op::CMP, cycles: 2, addr_mode: AM::IMM },
        0xCAu8 => I { opcode: Op::DEX, cycles: 2, addr_mode: AM::IMP },
        0xCBu8 => I { opcode: Op::AXS, cycles: 2, addr_mode: AM::IMM },
        0xCCu8 => I { opcode: Op::CPY, cycles: 4, addr_mode: AM::ABS },
        0xCDu8 => I { opcode: Op::CMP, cycles: 4, addr_mode: AM::ABS },
        0xCEu8 => I { opcode: Op::DEC, cycles: 6, addr_mode: AM::ABS },
        0xCFu8 => I { opcode: Op::DCP, cycles: 6, addr_mode: AM::ABS },
        0xD0u8 => I { opcode: Op::BNE, cycles: 2, addr_mode: AM::REL },
        0xD1u8 => I { opcode: Op::CMP, cycles: 5, addr_mode: AM::INY },
        0xD2u8 => I { opcode: Op::KIL, cycles: 0, addr_mode: AM::IMP },
        0xD3u8 => I { opcode: Op::DCP, cycles: 8, addr_mode: AM::INY },
        0xD4u8 => I { opcode: Op::NOP, cycles: 4, addr_mode: AM::ZPX },
        0xD5u8 => I { opcode: Op::CMP, cycles: 4, addr_mode: AM::ZPX },
        0xD6u8 => I { opcode: Op::DEC, cycles: 6, addr_mode: AM::ZPX },
        0xD7u8 => I { opcode: Op::DCP, cycles: 6, addr_mode: AM::ZPX },
        0xD8u8 => I { opcode: Op::CLD, cycles: 2, addr_mode: AM::IMP },
        0xD9u8 => I { opcode: Op::CMP, cycles: 4, addr_mode: AM::ABY },
        0xDAu8 => I { opcode: Op::NOP, cycles: 2, addr_mode: AM::IMP },
        0xDBu8 => I { opcode: Op::DCP, cycles: 7, addr_mode: AM::ABY },
        0xDCu8 => I { opcode: Op::NOP, cycles: 4, addr_mode: AM::ABX },
        0xDDu8 => I { opcode: Op::CMP, cycles: 4, addr_mode: AM::ABX },
        0xDEu8 => I { opcode: Op::DEC, cycles: 7, addr_mode: AM::ABX },
        0xDFu8 => I { opcode: Op::DCP, cycles: 7, addr_mode: AM::ABX },
        0xE0u8 => I { opcode: Op::CPX, cycles: 2, addr_mode: AM::IMM },
        0xE1u8 => I { opcode: Op::SBC, cycles: 6, addr_mode: AM::INX },
        0xE2u8 => I { opcode: Op::NOP, cycles: 2, addr_mode: AM::IMM },
        0xE3u8 => I { opcode: Op::ISC, cycles: 8, addr_mode: AM::INX },
        0xE4u8 => I { opcode: Op::CPX, cycles: 3, addr_mode: AM::ZPG },
        0xE5u8 => I { opcode: Op::SBC, cycles: 3, addr_mode: AM::ZPG },
        0xE6u8 => I { opcode: Op::INC, cycles: 5, addr_mode: AM::ZPG },
        0xE7u8 => I { opcode: Op::ISC, cycles: 5, addr_mode: AM::ZPG },
        0xE8u8 => I { opcode: Op::INX, cycles: 2, addr_mode: AM::IMP },
        0xE9u8 => I { opcode: Op::SBC, cycles: 2, addr_mode: AM::IMM },
        0xEAu8 => I { opcode: Op::NOP, cycles: 2, addr_mode: AM::IMP },
        0xEBu8 => I { opcode: Op::SBC, cycles: 2, addr_mode: AM::IMM },
        0xECu8 => I { opcode: Op::CPX, cycles: 4, addr_mode: AM::ABS },
        0xEDu8 => I { opcode: Op::SBC, cycles: 4, addr_mode: AM::ABS },
        0xEEu8 => I { opcode: Op::INC, cycles: 6, addr_mode: AM::ABS },
        0xEFu8 => I { opcode: Op::ISC, cycles: 6, addr_mode: AM::ABS },
        0xF0u8 => I { opcode: Op::BEQ, cycles: 2, addr_mode: AM::REL },
        0xF1u8 => I { opcode: Op::SBC, cycles: 5, addr_mode: AM::INY },
        0xF2u8 => I { opcode: Op::KIL, cycles: 0, addr_mode: AM::IMP },
        0xF3u8 => I { opcode: Op::ISC, cycles: 8, addr_mode: AM::INY },
        0xF4u8 => I { opcode: Op::NOP, cycles: 4, addr_mode: AM::ZPX },
        0xF5u8 => I { opcode: Op::SBC, cycles: 4, addr_mode: AM::ZPX },
        0xF6u8 => I { opcode: Op::INC, cycles: 6, addr_mode: AM::ZPX },
        0xF7u8 => I { opcode: Op::ISC, cycles: 6, addr_mode: AM::ZPX },
        0xF8u8 => I { opcode: Op::SED, cycles: 2, addr_mode: AM::IMP },
        0xF9u8 => I { opcode: Op::SBC, cycles: 4, addr_mode: AM::ABY },
        0xFAu8 => I { opcode: Op::NOP, cycles: 2, addr_mode: AM::IMP },
        0xFBu8 => I { opcode: Op::ISC, cycles: 7, addr_mode: AM::ABY },
        0xFCu8 => I { opcode: Op::NOP, cycles: 4, addr_mode: AM::ABX },
        0xFDu8 => I { opcode: Op::SBC, cycles: 4, addr_mode: AM::ABX },
        0xFEu8 => I { opcode: Op::INC, cycles: 7, addr_mode: AM::ABX },
        _ => I { opcode: Op::ISC, cycles: 7, addr_mode: AM::ABX },
    }
}

/// Decodes an opcode byte. Every byte has a descriptor, undocumented ones
/// included, so decoding never fails.
#[verifier::rlimit(100)]
#[verifier::spinoff_prover]
pub fn decode(b: u8) -> (r: I)
    ensures
        r == descriptor(b),
{
    match b {
        0x00u8 => I::new(Op::BRK, 7, AM::IMP),
        0x01u8 => I::new(Op::ORA, 6, AM::INX),
        0x02u8 => I::new(Op::KIL, 0, AM::IMP),
        0x03u8 => I::new(Op::SLO, 8, AM::INX),
        0x04u8 => I::new(Op::NOP, 3, AM::ZPG),
        0x05u8 => I::new(Op::ORA, 3, AM::ZPG),
        0x06u8 => I::new(Op::ASL, 5, AM::ZPG),
        0x07u8 => I::new(Op::SLO, 5, AM::ZPG),
        0x08u8 => I::new(Op::PHP, 3, AM::IMP),
        0x09u8 => I::new(Op::ORA, 2, AM::IMM),
        0x0Au8 => I::new(Op::ASL, 2, AM::IMP),
        0x0Bu8 => I::new(Op::ANC, 2, AM::IMM),
        0x0Cu8 => I::new(Op::NOP, 4, AM::ABS),
        0x0Du8 => I::new(Op::ORA, 4, AM::ABS),
        0x0Eu8 => I::new(Op::ASL, 6, AM::ABS),
        0x0Fu8 => I::new(Op::SLO, 6, AM::ABS),
        0x10u8 => I::new(Op::BPL, 2, AM::REL),
        0x11u8 => I::new(Op::ORA, 5, AM::INY),
        0x12u8 => I::new(Op::KIL, 0, AM::IMP),
        0x13u8 => I::new(Op::SLO, 8, AM::INY),
        0x14u8 => I::new(Op::NOP, 4, AM::ZPX),
        0x15u8 => I::new(Op::ORA, 4, AM::ZPX),
        0x16u8 => I::new(Op::ASL, 6, AM::ZPX),
        0x17u8 => I::new(Op::SLO, 6, AM::ZPX),
        0x18u8 => I::new(Op::CLC, 2, AM::IMP),
        0x19u8 => I::new(Op::ORA, 4, AM::ABY),
        0x1Au8 => I::new(Op::NOP, 2, AM::IMP),
        0x1Bu8 => I::new(Op::SLO, 7, AM::ABY),
        0x1Cu8 => I::new(Op::NOP, 4, AM::ABX),
        0x1Du8 => I::new(Op::ORA, 4, AM::ABX),
        0x1Eu8 => I::new(Op::ASL, 7, AM::ABX),
        0x1Fu8 => I::new(Op::SLO, 7, AM::ABX),
        0x20u8 => I::new(Op::JSR, 6, AM::ABS),
        0x21u8 => I::new(Op::AND, 6, AM::INX),
        0x22u8 => I::new(Op::KIL, 0, AM::IMP),
        0x23u8 => I::new(Op::RLA, 8, AM::INX),
        0x24u8 => I::new(Op::BIT, 3, AM::ZPG),
        0x25u8 => I::new(Op::AND, 3, AM::ZPG),
        0x26u8 => I::new(Op::ROL, 5, AM::ZPG),
        0x27u8 => I::new(Op::RLA, 5, AM::ZPG),
        0x28u8 => I::new(Op::PLP, 4, AM::IMP),
        0x29u8 => I::new(Op::AND, 2, AM::IMM),
        0x2Au8 => I::new(Op::ROL, 2, AM::IMP),
        0x2Bu8 => I::new(Op::ANC, 2, AM::IMM),
        0x2Cu8 => I::new(Op::BIT, 4, AM::ABS),
        0x2Du8 => I::new(Op::AND, 4, AM::ABS),
        0x2Eu8 => I::new(Op::ROL, 6, AM::ABS),
        0x2Fu8 => I::new(Op::RLA, 6, AM::ABS),
        0x30u8 => I::new(Op::BMI, 2, AM::REL),
        0x31u8 => I::new(Op::AND, 5, AM::INY),
        0x32u8 => I::new(Op::KIL, 0, AM::IMP),
        0x33u8 => I::new(Op::RLA, 8, AM::INY),
        0x34u8 => I::new(Op::NOP, 4, AM::ZPX),
        0x35u8 => I::new(Op::AND, 4, AM::ZPX),
        0x36u8 => I::new(Op::ROL, 6, AM::ZPX),
        0x37u8 => I::new(Op::RLA, 6, AM::ZPX),
        0x38u8 => I::new(Op::SEC, 2, AM::IMP),
        0x39u8 => I::new(Op::AND, 4, AM::ABY),
        0x3Au8 => I::new(Op::NOP, 2, AM::IMP),
        0x3Bu8 => I::new(Op::RLA, 7, AM::ABY),
        0x3Cu8 => I::new(Op::NOP, 4, AM::ABX),
        0x3Du8 => I::new(Op::AND, 4, AM::ABX),
        0x3Eu8 => I::new(Op::ROL, 7, AM::ABX),
        0x3Fu8 => I::new(Op::RLA, 7, AM::ABX),
        0x40u8 => I::new(Op::RTI, 6, AM::IMP),
        0x41u8 => I::new(Op::EOR, 6, AM::INX),
        0x42u8 => I::new(Op::KIL, 0, AM::IMP),
        0x43u8 => I::new(Op::SRE, 8, AM::INX),
        0x44u8 => I::new(Op::NOP, 3, AM::ZPG),
        0x45u8 => I::new(Op::EOR, 3, AM::ZPG),
        0x46u8 => I::new(Op::LSR, 5, AM::ZPG),
        0x47u8 => I::new(Op::SRE, 5, AM::ZPG),
        0x48u8 => I::new(Op::PHA, 3, AM::IMP),
        0x49u8 => I::new(Op::EOR, 2, AM::IMM),
        0x4Au8 => I::new(Op::LSR, 2, AM::IMP),
        0x4Bu8 => I::new(Op::ALR, 2, AM::IMM),
        0x4Cu8 => I::new(Op::JMP, 3, AM::ABS),
        0x4Du8 => I::new(Op::EOR, 4, AM::ABS),
        0x4Eu8 => I::new(Op::LSR, 6, AM::ABS),
        0x4Fu8 => I::new(Op::SRE, 6, AM::ABS),
        0x50u8 => I::new(Op::BVC, 2, AM::REL),
        0x51u8 => I::new(Op::EOR, 5, AM::INY),
        0x52u8 => I::new(Op::KIL, 0, AM::IMP),
        0x53u8 => I::new(Op::SRE, 8, AM::INY),
        0x54u8 => I::new(Op::NOP, 4, AM::ZPX),
        0x55u8 => I::new(Op::EOR, 4, AM::ZPX),
        0x56u8 => I::new(Op::LSR, 6, AM::ZPX),
        0x57u8 => I::new(Op::SRE, 6, AM::ZPX),
        0x58u8 => I::new(Op::CLI, 2, AM::IMP),
        0x59u8 => I::new(Op::EOR, 4, AM::ABY),
        0x5Au8 => I::new(Op::NOP, 2, AM::IMP),
        0x5Bu8 => I::new(Op::SRE, 7, AM::ABY),
        0x5Cu8 => I::new(Op::NOP, 4, AM::ABX),
        0x5Du8 => I::new(Op::EOR, 4, AM::ABX),
        0x5Eu8 => I::new(Op::LSR, 7, AM::ABX),
        0x5Fu8 => I::new(Op::SRE, 7, AM::ABX),
        0x60u8 => I::new(Op::RTS, 6, AM::IMP),
        0x61u8 => I::new(Op::ADC, 6, AM::INX),
        0x62u8 => I::new(Op::KIL, 0, AM::IMP),
        0x63u8 => I::new(Op::RRA, 8, AM::INX),
        0x64u8 => I::new(Op::NOP, 3, AM::ZPG),
        0x65u8 => I::new(Op::ADC, 3, AM::ZPG),
        0x66u8 => I::new(Op::ROR, 5, AM::ZPG),
        0x67u8 => I::new(Op::RRA, 5, AM::ZPG),
        0x68u8 => I::new(Op::PLA, 4, AM::IMP),
        0x69u8 => I::new(Op::ADC, 2, AM::IMM),
        0x6Au8 => I::new(Op::ROR, 2, AM::IMP),
        0x6Bu8 => I::new(Op::ARR, 2, AM::IMM),
        0x6Cu8 => I::new(Op::JMP, 5, AM::IND),
        0x6Du8 => I::new(Op::ADC, 4, AM::ABS),
        0x6Eu8 => I::new(Op::ROR, 6, AM::ABS),
        0x6Fu8 => I::new(Op::RRA, 6, AM::ABS),
        0x70u8 => I::new(Op::BVS, 2, AM::REL),
        0x71u8 => I::new(Op::ADC, 5, AM::INY),
        0x72u8 => I::new(Op::KIL, 0, AM::IMP),
        0x73u8 => I::new(Op::RRA, 8, AM::INY),
        0x74u8 => I::new(Op::NOP, 4, AM::ZPX),
        0x75u8 => I::new(Op::ADC, 4, AM::ZPX),
        0x76u8 => I::new(Op::ROR, 6, AM::ZPX),
        0x77u8 => I::new(Op::RRA, 6, AM::ZPX),
        0x78u8 => I::new(Op::SEI, 2, AM::IMP),
        0x79u8 => I::new(Op::ADC, 4, AM::ABY),
        0x7Au8 => I::new(Op::NOP, 2, AM::IMP),
        0x7Bu8 => I::new(Op::RRA, 7, AM::ABY),
        0x7Cu8 => I::new(Op::NOP, 4, AM::ABX),
        0x7Du8 => I::new(Op::ADC, 4, AM::ABX),
        0x7Eu8 => I::new(Op::ROR, 7, AM::ABX),
        0x7Fu8 => I::new(Op::RRA, 7, AM::ABX),
        0x80u8 => I::new(Op::NOP, 2, AM::IMM),
        0x81u8 => I::new(Op::STA, 6, AM::INX),
        0x82u8 => I::new(Op::NOP, 2, AM::IMM),
        0x83u8 => I::new(Op::SAX, 6, AM::INX),
        0x84u8 => I::new(Op::STY, 3, AM::ZPG),
        0x85u8 => I::new(Op::STA, 3, AM::ZPG),
        0x86u8 => I::new(Op::STX, 3, AM::ZPG),
        0x87u8 => I::new(Op::SAX, 3, AM::ZPG),
        0x88u8 => I::new(Op::DEY, 2, AM::IMP),
        0x89u8 => I::new(Op::NOP, 2, AM::IMM),
        0x8Au8 => I::new(Op::TXA, 2, AM::IMP),
        0x8Bu8 => I::new(Op::XAA, 2, AM::IMM),
        0x8Cu8 => I::new(Op::STY, 4, AM::ABS),
        0x8Du8 => I::new(Op::STA, 4, AM::ABS),
        0x8Eu8 => I::new(Op::STX, 4, AM::ABS),
        0x8Fu8 => I::new(Op::SAX, 4, AM::ABS),
        0x90u8 => I::new(Op::BCC, 2, AM::REL),
        0x91u8 => I::new(Op::STA, 6, AM::INY),
        0x92u8 => I::new(Op::KIL, 0, AM::IMP),
        0x93u8 => I::new(Op::AHX, 6, AM::INY),
        0x94u8 => I::new(Op::STY, 4, AM::ZPX),
        0x95u8 => I::new(Op::STA, 4, AM::ZPX),
        0x96u8 => I::new(Op::STX, 4, AM::ZPY),
        0x97u8 => I::new(Op::SAX, 4, AM::ZPY),
        0x98u8 => I::new(Op::TYA, 2, AM::IMP),
        0x99u8 => I::new(Op::STA, 5, AM::ABY),
        0x9Au8 => I::new(Op::TXS, 2, AM::IMP),
        0x9Bu8 => I::new(Op::TAS, 5, AM::ABY),
        0x9Cu8 => I::new(Op::SHY, 5, AM::ABX),
        0x9Du8 => I::new(Op::STA, 5, AM::ABX),
        0x9Eu8 => I::new(Op::SHX, 5, AM::ABY),
        0x9Fu8 => I::new(Op::AHX, 5, AM::ABY),
        0xA0u8 => I::new(Op::LDY, 2, AM::IMM),
        0xA1u8 => I::new(Op::LDA, 6, AM::INX),
        0xA2u8 => I::new(Op::LDX, 2, AM::IMM),
        0xA3u8 => I::new(Op::LAX, 6, AM::INX),
        0xA4u8 => I::new(Op::LDY, 3, AM::ZPG),
        0xA5u8 => I::new(Op::LDA, 3, AM::ZPG),
        0xA6u8 => I::new(Op::LDX, 3, AM::ZPG),
        0xA7u8 => I::new(Op::LAX, 3, AM::ZPG),
        0xA8u8 => I::new(Op::TAY, 2, AM::IMP),
        0xA9u8 => I::new(Op::LDA, 2, AM::IMM),
        0xAAu8 => I::new(Op::TAX, 2, AM::IMP),
        0xABu8 => I::new(Op::LAX, 2, AM::IMM),
        0xACu8 => I::new(Op::LDY, 4, AM::ABS),
        0xADu8 => I::new(Op::LDA, 4, AM::ABS),
        0xAEu8 => I::new(Op::LDX, 4, AM::ABS),
        0xAFu8 => I::new(Op::LAX, 4, AM::ABS),
        0xB0u8 => I::new(Op::BCS, 2, AM::REL),
        0xB1u8 => I::new(Op::LDA, 5, AM::INY),
        0xB2u8 => I::new(Op::KIL, 0, AM::IMP),
        0xB3u8 => I::new(Op::LAX, 5, AM::INY),
        0xB4u8 => I::new(Op::LDY, 4, AM::ZPX),
        0xB5u8 => I::new(Op::LDA, 4, AM::ZPX),
        0xB6u8 => I::new(Op::LDX, 4, AM::ZPY),
        0xB7u8 => I::new(Op::LAX, 4, AM::ZPY),
        0xB8u8 => I::new(Op::CLV, 2, AM::IMP),
        0xB9u8 => I::new(Op::LDA, 4, AM::ABY),
        0xBAu8 => I::new(Op::TSX, 2, AM::IMP),
        0xBBu8 => I::new(Op::LAS, 4, AM::ABY),
        0xBCu8 => I::new(Op::LDY, 4, AM::ABX),
        0xBDu8 => I::new(Op::LDA, 4, AM::ABX),
        0xBEu8 => I::new(Op::LDX, 4, AM::ABY),
        0xBFu8 => I::new(Op::LAX, 4, AM::ABY),
        0xC0u8 => I::new(Op::CPY, 2, AM::IMM),
        0xC1u8 => I::new(Op::CMP, 6, AM::INX),
        0xC2u8 => I::new(Op::NOP, 2, AM::IMM),
        0xC3u8 => I::new(Op::DCP, 8, AM::INX),
        0xC4u8 => I::new(Op::CPY, 3, AM::ZPG),
        0xC5u8 => I::new(Op::CMP, 3, AM::ZPG),
        0xC6u8 => I::new(Op::DEC, 5, AM::ZPG),
        0xC7u8 => I::new(Op::DCP, 5, AM::ZPG),
        0xC8u8 => I::new(Op::INY, 2, AM::IMP),
        0xC9u8 => I::new(Op::CMP, 2, AM::IMM),
        0xCAu8 => I::new(Op::DEX, 2, AM::IMP),
        0xCBu8 => I::new(Op::AXS, 2, AM::IMM),
        0xCCu8 => I::new(Op::CPY, 4, AM::ABS),
        0xCDu8 => I::new(Op::CMP, 4, AM::ABS),
        0xCEu8 => I::new(Op::DEC, 6, AM::ABS),
        0xCFu8 => I::new(Op::DCP, 6, AM::ABS),
        0xD0u8 => I::new(Op::BNE, 2, AM::REL),
        0xD1u8 => I::new(Op::CMP, 5, AM::INY),
        0xD2u8 => I::new(Op::KIL, 0, AM::IMP),
        0xD3u8 => I::new(Op::DCP, 8, AM::INY),
        0xD4u8 => I::new(Op::NOP, 4, AM::ZPX),
        0xD5u8 => I::new(Op::CMP, 4, AM::ZPX),
        0xD6u8 => I::new(Op::DEC, 6, AM::ZPX),
        0xD7u8 => I::new(Op::DCP, 6, AM::ZPX),
        0xD8u8 => I::new(Op::CLD, 2, AM::IMP),
        0xD9u8 => I::new(Op::CMP, 4, AM::ABY),
        0xDAu8 => I::new(Op::NOP, 2, AM::IMP),
        0xDBu8 => I::new(Op::DCP, 7, AM::ABY),
        0xDCu8 => I::new(Op::NOP, 4, AM::ABX),
        0xDDu8 => I::new(Op::CMP, 4, AM::ABX),
        0xDEu8 => I::new(Op::DEC, 7, AM::ABX),
        0xDFu8 => I::new(Op::DCP, 7, AM::ABX),
        0xE0u8 => I::new(Op::CPX, 2, AM::IMM),
        0xE1u8 => I::new(Op::SBC, 6, AM::INX),
        0xE2u8 => I::new(Op::NOP, 2, AM::IMM),
        0xE3u8 => I::new(Op::ISC, 8, AM::INX),
        0xE4u8 => I::new(Op::CPX, 3, AM::ZPG),
        0xE5u8 => I::new(Op::SBC, 3, AM::ZPG),
        0xE6u8 => I::new(Op::INC, 5, AM::ZPG),
        0xE7u8 => I::new(Op::ISC, 5, AM::ZPG),
        0xE8u8 => I::new(Op::INX, 2, AM::IMP),
        0xE9u8 => I::new(Op::SBC, 2, AM::IMM),
        0xEAu8 => I::new(Op::NOP, 2, AM::IMP),
        0xEBu8 => I::new(Op::SBC, 2, AM::IMM),
        0xECu8 => I::new(Op::CPX, 4, AM::ABS),
        0xEDu8 => I::new(Op::SBC, 4, AM::ABS),
        0xEEu8 => I::new(Op::INC, 6, AM::ABS),
        0xEFu8 => I::new(Op::ISC, 6, AM::ABS),
        0xF0u8 => I::new(Op::BEQ, 2, AM::REL),
        0xF1u8 => I::new(Op::SBC, 5, AM::INY),
        0xF2u8 => I::new(Op::KIL, 0, AM::IMP),
        0xF3u8 => I::new(Op::ISC, 8, AM::INY),
        0xF4u8 => I::new(Op::NOP, 4, AM::ZPX),
        0xF5u8 => I::new(Op::SBC, 4, AM::ZPX),
        0xF6u8 => I::new(Op::INC, 6, AM::ZPX),
        0xF7u8 => I::new(Op::ISC, 6, AM::ZPX),
        0xF8u8 => I::new(Op::SED, 2, AM::IMP),
        0xF9u8 => I::new(Op::SBC, 4, AM::ABY),
        0xFAu8 => I::new(Op::NOP, 2, AM::IMP),
        0xFBu8 => I::new(Op::ISC, 7, AM::ABY),
        0xFCu8 => I::new(Op::NOP, 4, AM::ABX),
        0xFDu8 => I::new(Op::SBC, 4, AM::ABX),
        0xFEu8 => I::new(Op::INC, 7, AM::ABX),
        _ => I::new(Op::ISC, 7, AM::ABX),
    }
}

/// Every byte decodes to a descriptor whose cost is at most eight cycles,
/// and the cost is zero exactly for the jam instructions.
pub proof fn lemma_decode_total(b: u8)
    ensures
        descriptor(b).cycles <= 8,
        descriptor(b).cycles == 0 <==> descriptor(b).opcode == Op::KIL,
{
}

} // verus!
