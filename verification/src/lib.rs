//! Instruction-set emulation core for a 32-bit RISC processor with two
//! interleaved instruction encodings: a 32-bit fixed-width set and a 16-bit
//! compact set. The crate models the register file, condition flags and a
//! flat byte-addressed memory, decodes both encodings, and runs the
//! fetch-decode-execute loop, all against a mathematical model of one
//! machine step.

pub mod arm;
pub mod bits;
pub mod common;
pub mod cpu;
pub mod debugger;
pub mod gba_file;
pub mod laws;
pub mod model;
pub mod thumb;
