//! Syscall interception, translation and brokering.
pub mod arm64;
pub mod broker;
pub mod intercept;
pub mod translate;
