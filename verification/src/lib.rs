//! Verified core of an order-book depth-stream client.
//!
//! The library decodes framed text messages carrying order-book depth
//! snapshots into typed records, renders the top ask levels as report lines,
//! and drives the receive loop as a state machine.  Transport I/O lives
//! outside the library; the logic here is verified.

pub mod decode;
pub mod depth;
pub mod digits;
pub mod json;
pub mod render;
pub mod session;
pub mod timing;
