//! Verified core of a SOCKS5 proxy that forwards every accepted connection
//! through one shared, authenticated SSH transport.
//!
//! The crate performs no I/O. Each component is a function from a state and
//! an event to the next state and the action the caller has to carry out;
//! the caller owns the sockets, the tasks and the SSH transport.

pub mod address;
pub mod cli;
pub mod protocol;
pub mod socks5;
pub mod transport;
