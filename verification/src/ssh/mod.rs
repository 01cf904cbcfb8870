//! The packet codec and the connection that uses it.

pub mod frame_writer;
pub mod random;
pub mod ssh_connection;
pub mod ssh_packet;
