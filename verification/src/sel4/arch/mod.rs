//! The registers of a thread, for each architecture.

pub mod aarch32;
pub mod aarch64;
pub mod riscv;
pub mod x64;
