//! A user-space implementation of the Linux FUSE kernel protocol.
//!
//! The crate owns the wire codec (decoding kernel request frames and
//! assembling reply frames), the session handshake and its state machine,
//! the atomic-write abstraction used to emit a reply composed of scattered
//! byte chunks in a single vectored write, and the notification bookkeeping.
//! Performing the actual device I/O is left to the surrounding program.

pub use crate::atomic_bytes::{AtomicBytes, FillBytes};
pub use crate::decode::Request;
pub use crate::op::Operation;
pub use crate::server::Server;
pub use crate::session::{KernelConfig, Session};

pub mod atomic_bytes;
pub mod decode;
pub mod kernel;
pub mod notify;
pub mod op;
pub mod reply;
pub mod server;
pub mod session;
pub mod wire;
