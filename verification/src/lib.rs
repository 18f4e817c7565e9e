//! A small 8-bit virtual machine: a 16-bit instruction decoder, a
//! fetch-decode-execute CPU core with bounds-checked memory and a call
//! stack, a monochrome display surface with a change signal, and an
//! instruction/variant table for the assembler direction.

pub mod com;
pub mod cpu;
pub mod inst;
pub mod instruction;
pub mod laws;
pub mod memory;
pub mod parser;
pub mod semantics;
pub mod variant;
pub mod video;
