//! A single-connection, cancellable client manager for a stream of chat
//! messages: the decisions of the connection slot, of each connection's
//! pump, and the decoding of inbound payloads.

pub mod danmaku;
pub mod pump;

pub mod supervisor;
pub mod token;
