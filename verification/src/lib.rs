//! Binary frame codec for an AMQP-style message-queuing wire protocol.
//!
//! The crate converts byte streams into discrete, typed frames and back,
//! enforcing the protocol's framing invariants: the fixed header layout,
//! the exact payload length, and the terminator byte. It also encodes and
//! decodes the content-header payload that announces a message body's
//! class, weight, total size, and property metadata.

pub mod endian;
pub mod framing;
