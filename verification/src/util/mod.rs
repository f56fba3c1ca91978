//! Kernel feature detection, ELF analysis and path utilities.
pub mod elf;
pub mod kernel;
pub mod path;
