//! Framing and connection-lifecycle core of a minimal SSH client.
//!
//! The crate turns a command into a frame of the SSH binary packet protocol
//! and decides, for every step of a session, what may be done with the byte
//! stream and what its outcome means. It never touches a stream itself: the
//! caller opens, writes, reads and shuts down, and reports back what happened.

pub mod errors;
pub mod ssh;
