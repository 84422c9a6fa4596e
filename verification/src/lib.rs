//! An instruction-level emulator of the 6502 microprocessor.
//!
//! The processor core executes one whole instruction per step against a
//! byte-addressable bus that the host supplies. Every executable function is
//! verified against a functional model of the instruction set.

pub mod alu;
pub mod bits;
pub mod bus;
pub mod cpu;
pub mod flags;
pub mod opcode;
pub mod ram;
pub mod reg_state;
pub mod round_trip;
pub mod stack;
pub mod stepping;
pub mod terminal;
pub mod word;

pub use bus::Bus;
pub use cpu::Cpu6502;
pub use flags::CpuFlag;
pub use ram::Ram;
pub use reg_state::RegisterState;
