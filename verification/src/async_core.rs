//! Non-blocking stream adapters: what to do with the outcome of one read or
//! write attempt on a socket that never blocks.

pub mod poll;
pub mod unix;
pub mod vsock;
