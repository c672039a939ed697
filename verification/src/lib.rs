//! An 8-bit toy computer: a fixed instruction set, a byte-level
//! encoder/decoder, a two-pass assembler that resolves labels in
//! textual assembly, and a virtual machine that executes the
//! resolved instruction sequence.

pub mod assembler;
pub mod encode;
pub mod laws;
pub mod types;
pub mod vm;

pub use assembler::assemble;
pub use types::RocCPUInstruction;
pub use types::RocCPURegister;
pub use vm::RocCPURunner;
