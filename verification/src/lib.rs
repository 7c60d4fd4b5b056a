//! Register-level logic of an AArch64 kernel and its RK3399 boot loader.
//!
//! Every driver routine is expressed as a program of register operations
//! (`mmio::RegOp`) that a thin executor applies to the memory-mapped device;
//! bitfield encodings go through `tock_registers`.
pub mod bitfield;
pub mod mmio;
pub mod rk3399;
pub mod irq;
pub mod loader;
pub mod kernel;
pub mod drivers;
pub mod arm;
pub mod raspi3;
