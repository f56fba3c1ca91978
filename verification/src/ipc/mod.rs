//! Messaging between the runtime's components.
pub mod bus;
