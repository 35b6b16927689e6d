//! Typed document collections kept in a remote blob store that only offers
//! whole-file reads and conditional whole-file writes.
//!
//! The library performs no I/O. Every operation is split into steps: a step
//! either names the request to send or consumes the reply that came back.
//! The caller owns the transport and drives the steps.

pub mod b64;
pub mod client;
pub mod codec;
pub mod collection;
pub mod error;
pub mod exchange;
pub mod json;
pub mod locator;
pub mod remote;

pub use client::{Client, Opened};
pub use collection::{Collection, Write};
pub use error::{ClientError, ErrorKind};
pub use exchange::{Method, Reply, Request};
