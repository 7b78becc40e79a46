//! A cycle-counting 6502 interpreter for a cartridge-based console: the CPU
//! core, its opcode table, the CPU address bus with RAM mirroring, the iNES
//! cartridge reader and the fixed-bank (NROM) mapper.
use vstd::prelude::*;

pub mod bus;
pub mod cartridge;
pub mod cpu;
pub mod emulator;
pub mod err;
pub mod mapper;
pub mod memory;
pub mod opcodes;
pub mod ppu;
pub mod semantics;
pub mod trace;
