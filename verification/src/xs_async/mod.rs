//! Multiplexing of concurrent Xenstore operations over one connection.

pub mod history;
pub mod interface;
pub mod laws;
pub mod operations;
