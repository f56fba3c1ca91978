//! Messages over virtual sockets, for the microVM mode.
use vstd::prelude::*;

pub mod aidl_rpc;

verus! {

/// A message over vsock.
#[derive(Debug)]
pub struct VsockMessage {
    pub message_type: VsockMessageType,
    pub payload: Vec<u8>,
    pub timestamp: u64,
}

#[derive(Debug, Clone, Copy, PartialEq, Eq, Structural)]
pub enum VsockMessageType {
    Command,
    CommandOutput,
    FileTransfer,
    Signal,
    WindowResize,
    Clipboard,
    Audio,
    Shutdown,
    Heartbeat,
}

} // verus!
