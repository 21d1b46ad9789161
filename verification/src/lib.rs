//! An emulator core for the RV64I base instruction set with the multiply/divide,
//! atomic and CSR instructions this hart implements: a register file, a CSR file,
//! a privilege mode, a trap path and a bus that decodes addresses to DRAM and two
//! memory-mapped devices.
//!
//! Every executable function carries a contract over a mathematical model of the
//! state it touches; the models are the `view`s of the types and the spec
//! functions next to them.

pub mod trap;
pub mod dram;
pub mod clint;
pub mod plic;
pub mod bus;
pub mod isa;
pub mod decode;
pub mod alu;
pub mod csr;
pub mod semantics;
pub mod cpu;
pub mod laws;
pub mod dump;
