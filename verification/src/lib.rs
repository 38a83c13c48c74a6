//! A simulator for a small teaching computer: sixteen 16-bit registers, a
//! flat 256-word memory, sixteen fixed opcodes, and a memory-mapped I/O
//! convention at address 0xFF.
//!
//! The machine is driven one fetch-decode-execute step at a time; reads and
//! writes of memory cell 0xFF are redirected through an external word stream.

pub mod external_env;
pub mod instruction;
pub mod machine;
pub mod opcode;
pub mod program_reader;
pub mod render;
