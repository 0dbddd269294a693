//! Randomized instruction fuzzing library for an eBPF-style virtual machine.
//!
//! The library generates structurally valid instruction records, packs them
//! into the machine's 8-byte instruction words, assembles whole programs that
//! end in the fixed exit instruction, and models the load/execute/destroy
//! oracle protocol that drives the target machine.

pub mod catalog;
pub mod generator;
pub mod instr;
pub mod oracle;
pub mod program;
