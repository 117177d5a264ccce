//! Verified client core for the Source/Minecraft RCON protocol.
//!
//! The crate proves the protocol engine: byte-exact packet framing,
//! the authentication handshake decision, request-id allocation with
//! wraparound, response-fragment reassembly, and the connection
//! lifecycle state machine.  Socket I/O and terminal glue live outside
//! the verified core and drive it with plain values.

pub mod cli;
pub mod error;
pub mod protocol;
pub mod session;

pub use error::RconError;
pub use protocol::RconPacket;
