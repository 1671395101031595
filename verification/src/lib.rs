//! Instruction-level model of the Game Boy's SM83 processor and of the banked
//! address space it executes against.
//!
//! Every operation is specified over a purely functional model of the machine
//! (`RegisterFile`, `MemoryMap`, `CpuState`, `Machine`) and the executable
//! code is proved to refine it:
//!
//! - `registers`, `flags`, `alu`: the register file, the flags byte and the
//!   arithmetic on bytes and words;
//! - `memory`: main memory and the cartridge ROM seen through its banks;
//! - `model`, `dispatch`: what each instruction, and each step, does to the
//!   machine as a value;
//! - `cpu`, `prefixed`, `flow`, `execute`: the instructions themselves, the
//!   dispatch on the opcode and the step;
//! - `tables`: length and duration of every opcode;
//! - `laws`, `laws_execute`: what holds from every state;
//! - `ppu`, `cartridge`: the object table and background line of the picture
//!   unit, and the header of a cartridge image.
pub mod alu;
pub mod cartridge;
pub mod cpu;
pub mod dispatch;
pub mod error;
pub mod execute;
pub mod execute_high;
pub mod execute_low;
pub mod flags;
pub mod flow;
pub mod laws;
pub mod laws_execute;
pub mod memory;
pub mod model;
pub mod operand;
pub mod ppu;
pub mod prefixed;
pub mod registers;
pub mod tables;
