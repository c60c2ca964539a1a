//! Transport core of a VM-to-host shell forwarder: the length-prefixed wire
//! format, the framers that speak it, and the decisions of the non-blocking
//! stream adapters, all free of I/O so that a caller drives them.

pub mod async_core;
pub mod command;
pub mod decimal;
pub mod exchange;
pub mod frame;
pub mod io_error;
pub mod pty;
pub mod receive;
pub mod send;
pub mod vsh_wire;
