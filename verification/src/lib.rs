//! Verified core of an asynchronous Xenstore client.
//!
//! The [`xs_async`] module multiplexes the operations of many clients over one
//! connection to the Xenstore daemon and routes watch events. [`wire`] builds and
//! reads the messages, [`token`] makes the names of watches. [`tokio`] and
//! [`smol`] are the interfaces of Unix and of Windows. Nothing here waits or does
//! input and output: the functions take what came in, and return what has to go
//! out.

pub mod error;
pub mod smol;
mod text;
pub mod token;
pub mod tokio;
pub mod wire;
pub mod xs_async;
