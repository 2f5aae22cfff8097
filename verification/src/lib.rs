//! Protocol engine of a SOCKS5 relay, free of I/O.
//!
//! Every function here maps plain values to plain values: the bytes a
//! transport produced go in, the bytes to send and the next state come out.
//! The caller owns the sockets, the tasks and the locks.

pub mod address;
pub mod config;
pub mod error;
pub mod registry;
pub mod socks5;
pub mod text;
pub mod tunnel;
pub mod udp;
