//! Construction of a minimal ELF64 executable image for x86-64.
//!
//! The crate builds, entirely in memory, the byte-exact image of an
//! executable that carries one loadable segment: a 64-byte file header,
//! one 56-byte program header, and a machine-code payload that performs
//! an `exit(0)` system call. Writing the bytes to disk is left to the
//! caller.

pub mod codegen;
pub mod elf;
pub mod layout;
